//! What the server does with an incoming request.
//!
//! The server accepts `POST` requests whose first path segment names one of
//! the protocol channels, and whose body is one JSON string. It hands that
//! string on to the node's main loop and answers with the same string,
//! encoded as JSON again.

use vstd::prelude::*;
use vstd::utf8::encode_utf8;
use crate::json::{decode_json_string, encode_json_string, json_error_text, json_string, json_string_value, BodyError};
use crate::message::MsgType;

verus! {

/// What the request's `Content-Type` header says, as the HTTP layer read it.
#[derive(Clone, Copy, Debug, PartialEq, Eq, Structural)]
pub enum ContentType {
    /// The request has no `Content-Type` header.
    Absent,
    /// The header names the media type `application/json`.
    Json,
    /// The header names another media type, or cannot be read as one.
    Other,
}

/// The request's `Content-Type` header as it arrived.
#[derive(Clone, Debug, PartialEq, Eq)]
pub enum ContentTypeHeader {
    /// The request has no such header.
    Absent,
    /// The header's value is not visible ASCII text.
    NotText,
    /// The header's value as text.
    Text(String),
}

/// The type and subtype (without a `+suffix`) of the media type that the
/// `mime` crate reads from a text, both lower-cased; `None` where it reads
/// none.
pub uninterp spec fn media_type(text: Seq<char>) -> Option<(Seq<char>, Seq<char>)>;

/// `text.parse::<mime::Mime>()`, giving the parsed type and subtype as
/// text: the result is what `media_type` names.
#[verifier::external_body]
fn mime_type_and_subtype(text: &str) -> (result: Option<(String, String)>)
    ensures
        result is Some <==> media_type(text@) is Some,
        result matches Some(names) ==> media_type(text@) == Some((names.0@, names.1@)),
{
    match text.parse::<mime::Mime>() {
        Ok(mime) => Some((mime.type_().as_str().to_string(), mime.subtype().as_str().to_string())),
        Err(_) => None,
    }
}

/// What a `Content-Type` header says of the body: JSON where it names the
/// media type `application/json` (parameters and a `+suffix` aside), nothing
/// where it is absent, something else otherwise.
pub open spec fn content_type_class(header: ContentTypeHeader) -> ContentType {
    match header {
        ContentTypeHeader::Absent => ContentType::Absent,
        ContentTypeHeader::NotText => ContentType::Other,
        ContentTypeHeader::Text(text) => match media_type(text@) {
            Some(names) => if names.0 == "application"@ && names.1 == "json"@ {
                ContentType::Json
            } else {
                ContentType::Other
            },
            None => ContentType::Other,
        },
    }
}

/// A header is JSON exactly when it is text whose media type, as `mime`
/// reads it, is `application/json`; it is absent only when there is no
/// header; every other header, another subtype among them, is something else.
pub proof fn lemma_json_only_for_application_json(header: ContentTypeHeader)
    ensures
        content_type_class(header) == ContentType::Json <==> (header matches ContentTypeHeader::Text(text)
            && media_type(text@) == Some(("application"@, "json"@))),
        content_type_class(header) == ContentType::Absent <==> header is Absent,
        (header matches ContentTypeHeader::Text(text) && media_type(text@) matches Some(names)
            && names.1 != "json"@) ==> content_type_class(header) == ContentType::Other,
{
}

/// Reads what a `Content-Type` header says of the body.
pub fn classify_content_type(header: &ContentTypeHeader) -> (class: ContentType)
    ensures
        class == content_type_class(*header),
        class == ContentType::Json <==> (*header matches ContentTypeHeader::Text(text)
            && media_type(text@) == Some(("application"@, "json"@))),
        class == ContentType::Absent <==> *header is Absent,
{
    proof {
        lemma_json_only_for_application_json(*header);
    }
    match header {
        ContentTypeHeader::Absent => ContentType::Absent,
        ContentTypeHeader::NotText => ContentType::Other,
        ContentTypeHeader::Text(text) => match mime_type_and_subtype(text.as_str()) {
            Some(names) => {
                if same_text(names.0.as_str(), "application") && same_text(names.1.as_str(), "json") {
                    ContentType::Json
                } else {
                    ContentType::Other
                }
            },
            None => ContentType::Other,
        },
    }
}

/// Why a request was refused.
#[derive(Clone, Copy, Debug, PartialEq, Eq, Structural)]
pub enum Rejection {
    /// The method is not `POST`.
    MethodNotAllowed,
    /// The first path segment names no channel.
    NotFound,
    /// The body is declared to be something other than JSON.
    UnsupportedMediaType,
    /// The body is not one JSON string.
    BadBody,
}

/// The HTTP status code of a refusal.
pub open spec fn spec_status(rejection: Rejection) -> u16 {
    match rejection {
        Rejection::MethodNotAllowed => 405,
        Rejection::NotFound => 404,
        Rejection::UnsupportedMediaType => 415,
        Rejection::BadBody => 400,
    }
}

impl Rejection {
    /// Whether the refusal's body is plain text: every refusal but the one of
    /// an unknown path, which has an empty body and no content type.
    pub fn plain_text(&self) -> (plain: bool)
        ensures
            plain == (*self != Rejection::NotFound),
    {
        match self {
            Rejection::NotFound => false,
            _ => true,
        }
    }

    /// The HTTP status code with which the request is answered.
    pub fn status(&self) -> (code: u16)
        ensures
            code == spec_status(*self),
    {
        match self {
            Rejection::MethodNotAllowed => 405,
            Rejection::NotFound => 404,
            Rejection::UnsupportedMediaType => 415,
            Rejection::BadBody => 400,
        }
    }
}

/// The server's answer to a request.
#[derive(Clone, Debug, PartialEq, Eq)]
pub enum ServerReply {
    /// Hand `message` on to the main loop and answer `200` with `reply`, a
    /// JSON body.
    Relay { message: String, reply: String },
    /// Refuse the request with the status of `rejection` and the body
    /// `text`, plain text where it is not empty.
    Reject { rejection: Rejection, text: String },
}

/// The body of a refusal of a request that was not a `POST`.
pub open spec fn method_refusal_text() -> Seq<char> {
    "HTTP method not allowed"@
}

/// The body of a refusal of a body declared to be something but JSON.
pub open spec fn media_refusal_text() -> Seq<char> {
    "The request's content-type is not supported"@
}

/// What the body of a refusal of a bad body starts with; serde_json's
/// message follows.
pub open spec fn body_refusal_prefix() -> Seq<char> {
    "Request body deserialize error: "@
}

/// Whether `answer` refuses with `rejection` and the text that goes with it:
/// an empty body for an unknown path, fixed texts for a method or media type,
/// and for a bad body a text that starts with `body_refusal_prefix`.
pub open spec fn refuses(answer: ServerReply, rejection: Rejection) -> bool {
    &&& answer matches ServerReply::Reject { rejection: r, text } && r == rejection
    &&& answer matches ServerReply::Reject { text, .. } && match rejection {
        Rejection::MethodNotAllowed => text@ == method_refusal_text(),
        Rejection::NotFound => text@ == Seq::<char>::empty(),
        Rejection::UnsupportedMediaType => text@ == media_refusal_text(),
        Rejection::BadBody => exists|detail: Seq<char>| text@ == body_refusal_prefix() + detail,
    }
}

/// A refusal with its text.
fn refusal(rejection: Rejection) -> (answer: ServerReply)
    requires
        rejection != Rejection::BadBody,
    ensures
        refuses(answer, rejection),
{
    let text = match rejection {
        Rejection::MethodNotAllowed => String::from_str("HTTP method not allowed"),
        Rejection::UnsupportedMediaType => String::from_str("The request's content-type is not supported"),
        _ => String::new(),
    };
    ServerReply::Reject { rejection, text }
}

/// The names of the protocol channels, which are the paths the server serves.
pub open spec fn is_route(segment: Seq<char>) -> bool {
    ||| segment == "keygen"@
    ||| segment == "nonce"@
    ||| segment == "sign"@
    ||| segment == "update"@
}

/// The index of the first `/` at or after `i`, or the length of `text`.
pub open spec fn segment_end(text: Seq<char>, i: int) -> int
    decreases text.len() - i,
{
    if i >= text.len() || i < 0 || text[i] == '/' {
        i
    } else {
        segment_end(text, i + 1)
    }
}

/// Where the first segment of a path starts: after one leading `/`.
pub open spec fn segment_start(path: Seq<char>) -> int {
    if path.len() > 0 && path[0] == '/' {
        1
    } else {
        0
    }
}

/// The first segment of a path: what stands after one leading `/` and before
/// the next `/`.
pub open spec fn first_segment(path: Seq<char>) -> Seq<char> {
    path.subrange(segment_start(path), segment_end(path, segment_start(path)))
}

/// Whether a request with this method, path and content type reaches the
/// relay: it is a `POST` to a channel, and its body is not declared to be
/// anything but JSON.
pub open spec fn accepts(method: Seq<char>, path: Seq<char>, content_type: ContentType) -> bool {
    &&& method == "POST"@
    &&& is_route(first_segment(path))
    &&& content_type != ContentType::Other
}

/// Whether two texts are the same.
pub fn same_text(a: &str, b: &str) -> (same: bool)
    ensures
        same == (a@ == b@),
{
    let n = a.unicode_len();
    if n != b.unicode_len() {
        return false;
    }
    let mut i: usize = 0;
    while i < n
        invariant
            n == a@.len(),
            n == b@.len(),
            i <= n,
            forall|j: int| 0 <= j < i ==> a@[j] == b@[j],
        decreases n - i,
    {
        if a.get_char(i) != b.get_char(i) {
            return false;
        }
        i = i + 1;
    }
    assert(a@ =~= b@);
    true
}

proof fn lemma_segment_end_step(text: Seq<char>, i: int)
    requires
        0 <= i < text.len(),
        text[i] != '/',
    ensures
        segment_end(text, i) == segment_end(text, i + 1),
{
}

/// Where a segment that starts at `i` ends: at or after `i`, with no `/`
/// before it, and at the end of the text or at a `/`.
proof fn lemma_segment_end_bounds(text: Seq<char>, i: int)
    requires
        0 <= i <= text.len(),
    ensures
        i <= segment_end(text, i) <= text.len(),
        forall|j: int| i <= j < segment_end(text, i) ==> text[j] != '/',
        segment_end(text, i) == text.len() || text[segment_end(text, i)] == '/',
    decreases text.len() - i,
{
    if i < text.len() && text[i] != '/' {
        lemma_segment_end_bounds(text, i + 1);
    }
}

/// The routing segment of a path is the text after one leading `/` (if the
/// path has one) up to the next `/` or the end: it holds no `/`, and it is
/// followed by a `/` or by nothing.
pub proof fn lemma_first_segment_layout(path: Seq<char>)
    ensures
        ({
            let start: int = if path.len() > 0 && path[0] == '/' { 1 } else { 0 };
            let segment = first_segment(path);
            &&& start + segment.len() <= path.len()
            &&& segment == path.subrange(start, start + segment.len())
            &&& forall|i: int| 0 <= i < segment.len() ==> segment[i] != '/'
            &&& (start + segment.len() == path.len() || path[start + segment.len()] == '/')
        }),
{
    let start = segment_start(path);
    lemma_segment_end_bounds(path, start);
    let segment = first_segment(path);
    assert forall|i: int| 0 <= i < segment.len() implies segment[i] != '/' by {
        assert(segment[i] == path[start + i]);
    }
}

/// Whatever follows a channel name after a `/`, the routing segment of
/// `/name/rest` is the name: deeper paths under a channel are that channel.
pub proof fn lemma_segment_under_channel(name: Seq<char>, rest: Seq<char>)
    requires
        forall|i: int| 0 <= i < name.len() ==> name[i] != '/',
    ensures
        first_segment(seq!['/'] + name + seq!['/'] + rest) == name,
{
    let path = seq!['/'] + name + seq!['/'] + rest;
    lemma_first_segment_layout(path);
    let segment = first_segment(path);
    assert(path[0] == '/');
    assert(path[1 + name.len() as int] == '/');
    assert forall|k: int| 0 <= k < name.len() implies path[1 + k] == name[k] by {}
    if segment.len() < name.len() {
        assert(path[1 + segment.len() as int] == name[segment.len() as int]);
    } else if segment.len() > name.len() {
        assert(segment[name.len() as int] == path[1 + name.len() as int]);
    }
    assert(segment.len() == name.len());
    assert(segment =~= name);
}

/// The server serves exactly four channels: `keygen`, `nonce`, `sign` and
/// `update`; every other segment (`co`, for one) names none.
pub proof fn lemma_exactly_four_channels()
    ensures
        Set::new(|segment: Seq<char>| is_route(segment)) == set!["keygen"@, "nonce"@, "sign"@, "update"@],
{
    assert(Set::new(|segment: Seq<char>| is_route(segment)) =~= set!["keygen"@, "nonce"@, "sign"@, "update"@]);
}

/// The first segment of a path, as the server's routing reads it.
pub fn path_segment(path: &str) -> (segment: &str)
    ensures
        segment@ == first_segment(path@),
        forall|i: int| 0 <= i < segment@.len() ==> segment@[i] != '/',
        ({
            let start: int = if path@.len() > 0 && path@[0] == '/' { 1 } else { 0 };
            &&& start + segment@.len() <= path@.len()
            &&& segment@ == path@.subrange(start, start + segment@.len())
            &&& (start + segment@.len() == path@.len() || path@[start + segment@.len()] == '/')
        }),
{
    proof {
        lemma_first_segment_layout(path@);
    }
    let n = path.unicode_len();
    let mut start: usize = 0;
    if n > 0 && path.get_char(0) == '/' {
        start = 1;
    }
    assert(start == segment_start(path@));
    let mut end: usize = start;
    while end < n && path.get_char(end) != '/'
        invariant
            n == path@.len(),
            start <= end <= n,
            start == segment_start(path@),
            segment_end(path@, end as int) == segment_end(path@, start as int),
        decreases n - end,
    {
        proof {
            lemma_segment_end_step(path@, end as int);
        }
        end = end + 1;
    }
    assert(segment_end(path@, end as int) == end);
    path.substring_char(start, end)
}

/// Whether a path segment names one of the channels `keygen`, `nonce`,
/// `sign` and `update`.
pub fn is_channel(segment: &str) -> (known: bool)
    ensures
        known == is_route(segment@),
        known <==> (segment@ == "keygen"@ || segment@ == "nonce"@ || segment@ == "sign"@ || segment@ == "update"@),
{
    same_text(segment, "keygen") || same_text(segment, "nonce") || same_text(segment, "sign")
        || same_text(segment, "update")
}

/// The answer to an accepted request, from what reading its body gave:
/// the text is relayed and echoed back as JSON; a body that is not one JSON
/// string is refused.
pub fn answer_body(decoded: Result<String, BodyError>) -> (answer: ServerReply)
    ensures
        decoded matches Ok(text) ==> (answer matches ServerReply::Relay { message, reply }
            && message@ == text@ && reply@ == json_string(text@)),
        decoded matches Err(BodyError::NotJsonString(detail)) ==> (answer matches ServerReply::Reject { rejection, text }
            && rejection == Rejection::BadBody && text@ == body_refusal_prefix() + detail@),
        decoded is Err ==> refuses(answer, Rejection::BadBody),
{
    match decoded {
        Ok(text) => {
            let reply = encode_json_string(text.as_str());
            ServerReply::Relay { message: text, reply }
        },
        Err(BodyError::NotJsonString(detail)) => {
            let text = String::from_str("Request body deserialize error: ").concat(detail.as_str());
            let answer = ServerReply::Reject { rejection: Rejection::BadBody, text };
            assert(answer matches ServerReply::Reject { text, .. } && text@ == body_refusal_prefix() + detail@);
            answer
        },
    }
}

/// Handles one request to the server: the method, the path of the request
/// URI, its `Content-Type` header, and the body's bytes.
///
/// The checks come in the order of the server's filters: method, channel,
/// content type, body.
pub fn handle_post(method: &str, path: &str, content_type: &ContentTypeHeader, body: &[u8]) -> (answer: ServerReply)
    ensures
        method@ != "POST"@ ==> refuses(answer, Rejection::MethodNotAllowed),
        method@ == "POST"@ && !is_route(first_segment(path@)) ==> refuses(answer, Rejection::NotFound),
        method@ == "POST"@ && is_route(first_segment(path@)) && content_type_class(*content_type) == ContentType::Other
            ==> refuses(answer, Rejection::UnsupportedMediaType),
        accepts(method@, path@, content_type_class(*content_type)) && json_string_value(body@) is None
            ==> refuses(answer, Rejection::BadBody),
        accepts(method@, path@, content_type_class(*content_type)) && json_string_value(body@) is None
            ==> (answer matches ServerReply::Reject { text, .. } && text@ == body_refusal_prefix() + json_error_text(body@)),
        accepts(method@, path@, content_type_class(*content_type)) && json_string_value(body@) is Some
            ==> (answer matches ServerReply::Relay { message, reply }
            && json_string_value(body@) == Some(message@) && reply@ == json_string(message@)),
        forall|text: Seq<char>| accepts(method@, path@, content_type_class(*content_type)) && encode_utf8(#[trigger] json_string(text)) == body@
            ==> (answer matches ServerReply::Relay { message, reply } && message@ == text
            && reply@ == json_string(text)),
{
    if !same_text(method, "POST") {
        return refusal(Rejection::MethodNotAllowed);
    }
    if !is_channel(path_segment(path)) {
        return refusal(Rejection::NotFound);
    }
    if classify_content_type(content_type) == ContentType::Other {
        return refusal(Rejection::UnsupportedMediaType);
    }
    answer_body(decode_json_string(body))
}

/// What the server's main loop does with a message it received.
#[derive(Clone, Debug, PartialEq, Eq)]
pub enum Dispatch {
    /// Log the message and send it on to `receiver` on `channel`.
    Forward { receiver: String, channel: String },
    /// Log the message.
    Log,
}

/// The server's main loop: a key-generation message is sent on to the client
/// node at `client:3031` on the `keygen` channel; other messages are logged.
pub fn server_dispatch(msg_type: MsgType) -> (dispatch: Dispatch)
    ensures
        msg_type == MsgType::KEYGEN ==> (dispatch matches Dispatch::Forward { receiver, channel }
            && receiver@ == "client:3031"@ && channel@ == "keygen"@),
        msg_type == MsgType::CO ==> dispatch == Dispatch::Log,
{
    match msg_type {
        MsgType::KEYGEN => Dispatch::Forward {
            receiver: String::from_str("client:3031"),
            channel: String::from_str("keygen"),
        },
        MsgType::CO => Dispatch::Log,
    }
}

} // verus!
