//! Message relay between a central TLS server and its ECU clients.
//!
//! The library holds the decisions of the relay: how addresses and request
//! URLs are composed, how a port given as text is read, which requests the
//! server accepts and what it relays and replies, and how JSON strings are
//! framed on the wire. Sockets, TLS and the async runtime stay outside.

pub mod address;
pub mod json;
pub mod message;
pub mod node;
pub mod serve;
pub mod tls;

pub use address::{host_port, parse_port, server_url};
pub use json::{decode_json_string, encode_json_string, BodyError};
pub use message::{Idmsg, Message, MessageView, MsgType};
pub use serve::{classify_content_type, handle_post, server_dispatch, ContentType, ContentTypeHeader, Dispatch, Rejection, ServerReply};
pub use node::{post_to, send_message, Client, ClientView, Outgoing, Server, ServerView};
pub use tls::{build_client, certificate_from_pem, identity_from_pem, node_tls_settings, SetupError, TlsSettings};
