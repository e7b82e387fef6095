//! Ports and addresses given as text.

use vstd::prelude::*;

verus! {

/// Whether `c` is one of the ASCII digits `0` to `9`.
pub open spec fn is_ascii_digit(c: char) -> bool {
    '0' <= c && c <= '9'
}

/// The numeric value of an ASCII digit.
pub open spec fn digit_value(c: char) -> int {
    (c as int) - ('0' as int)
}

/// The value of a sequence of decimal digits, most significant first.
pub open spec fn decimal_value(digits: Seq<char>) -> int
    decreases digits.len(),
{
    if digits.len() == 0 {
        0
    } else {
        decimal_value(digits.drop_last()) * 10 + digit_value(digits.last())
    }
}

/// The digits of a port text: the text without one leading `+`.
pub open spec fn port_digits(text: Seq<char>) -> Seq<char> {
    if text.len() > 0 && text[0] == '+' {
        text.drop_first()
    } else {
        text
    }
}

/// The port that a text names: one optional `+`, then one or more decimal
/// digits (leading zeros allowed) whose value is at most 65535.
pub open spec fn spec_parse_port(text: Seq<char>) -> Option<u16> {
    let digits = port_digits(text);
    if digits.len() > 0 && (forall|i: int| 0 <= i < digits.len() ==> is_ascii_digit(#[trigger] digits[i]))
        && decimal_value(digits) <= 65535 {
        Some(decimal_value(digits) as u16)
    } else {
        None
    }
}

proof fn lemma_decimal_value_nonneg(digits: Seq<char>)
    requires
        forall|i: int| 0 <= i < digits.len() ==> is_ascii_digit(#[trigger] digits[i]),
    ensures
        decimal_value(digits) >= 0,
    decreases digits.len(),
{
    if digits.len() > 0 {
        let rest = digits.drop_last();
        assert forall|i: int| 0 <= i < rest.len() implies is_ascii_digit(#[trigger] rest[i]) by {
            assert(rest[i] == digits[i]);
        }
        lemma_decimal_value_nonneg(rest);
    }
}

/// Reads a port number from text, as `str::parse::<u16>` does: `None` where
/// the text is empty, holds anything but one leading `+` and decimal digits,
/// or names a value above 65535.
pub fn parse_port(text: &str) -> (port: Option<u16>)
    ensures
        port == spec_parse_port(text@),
{
    let n = text.unicode_len();
    let mut start: usize = 0;
    if n > 0 && text.get_char(0) == '+' {
        start = 1;
    }
    let ghost digits = port_digits(text@);
    assert(digits =~= text@.subrange(start as int, n as int));
    if start >= n {
        return None;
    }
    let mut value: u32 = 0;
    let mut i: usize = start;
    while i < n
        invariant
            n == text@.len(),
            start <= i <= n,
            start < n,
            digits =~= text@.subrange(start as int, n as int),
            digits == port_digits(text@),
            forall|j: int| 0 <= j < i - start ==> is_ascii_digit(#[trigger] digits[j]),
            value == decimal_value(digits.subrange(0, i - start)),
            value <= 65535,
        decreases n - i,
    {
        let c = text.get_char(i);
        if !('0' <= c && c <= '9') {
            let ghost k: int = i - start;
            assert(digits[k] == c);
            assert(!is_ascii_digit(digits[k]));
            assert(spec_parse_port(text@) is None);
            return None;
        }
        let d: u32 = (c as u32) - ('0' as u32);
        let ghost prefix = digits.subrange(0, i - start + 1);
        assert(prefix.drop_last() =~= digits.subrange(0, i - start));
        assert(prefix.last() == c);
        let next: u32 = value * 10 + d;
        assert(next == decimal_value(prefix));
        if next > 65535 {
            proof {
                let k: int = i - start + 1;
                assert(digits.subrange(0, k) =~= prefix);
                assert forall|j: int| 0 <= j < k implies is_ascii_digit(#[trigger] digits[j]) by {
                    if j == k - 1 {
                        assert(digits[j] == c);
                    }
                }
                lemma_prefix_value_grows(digits, k);
            }
            assert(spec_parse_port(text@) is None);
            return None;
        }
        value = next;
        i = i + 1;
    }
    assert(digits.subrange(0, n - start) =~= digits);
    Some(value as u16)
}

/// Appending digits never lowers the value of a digit sequence.
proof fn lemma_prefix_value_grows(digits: Seq<char>, k: int)
    requires
        0 <= k <= digits.len(),
        forall|j: int| 0 <= j < k ==> is_ascii_digit(#[trigger] digits[j]),
    ensures
        (forall|j: int| 0 <= j < digits.len() ==> is_ascii_digit(#[trigger] digits[j]))
            ==> decimal_value(digits) >= decimal_value(digits.subrange(0, k)),
    decreases digits.len() - k,
{
    if k < digits.len() && (forall|j: int| 0 <= j < digits.len() ==> is_ascii_digit(#[trigger] digits[j])) {
        lemma_prefix_value_grows(digits, k + 1);
        let p = digits.subrange(0, k + 1);
        assert(p.drop_last() =~= digits.subrange(0, k));
        lemma_decimal_value_nonneg(digits.subrange(0, k));
    } else if k == digits.len() {
        assert(digits.subrange(0, k) =~= digits);
    }
}

/// `addr:port`, the text of a socket address or an authority.
pub open spec fn spec_host_port(addr: Seq<char>, port: Seq<char>) -> Seq<char> {
    addr + seq![':'] + port
}

/// `https://addr:port/`, the base URL of a node.
pub open spec fn spec_server_url(addr: Seq<char>, port: Seq<char>) -> Seq<char> {
    seq!['h', 't', 't', 'p', 's', ':', '/', '/'] + spec_host_port(addr, port) + seq!['/']
}

/// `addr:port` is the address, one `:` and the whole port text, unchanged.
pub proof fn lemma_host_port_layout(addr: Seq<char>, port: Seq<char>)
    ensures
        spec_host_port(addr, port).len() == addr.len() + 1 + port.len(),
        spec_host_port(addr, port).subrange(0, addr.len() as int) == addr,
        spec_host_port(addr, port)[addr.len() as int] == ':',
        spec_host_port(addr, port).subrange(addr.len() as int + 1, spec_host_port(addr, port).len() as int) == port,
{
    let text = spec_host_port(addr, port);
    assert(text.subrange(0, addr.len() as int) =~= addr);
    assert(text.subrange(addr.len() as int + 1, text.len() as int) =~= port);
}

/// Every base URL is `https://`, then `addr:port`, then `/`, whatever the
/// address and port.
pub proof fn lemma_server_url_layout(addr: Seq<char>, port: Seq<char>)
    ensures
        spec_server_url(addr, port).len() == 8 + spec_host_port(addr, port).len() + 1,
        spec_server_url(addr, port).subrange(0, 8) == seq!['h', 't', 't', 'p', 's', ':', '/', '/'],
        spec_server_url(addr, port).subrange(8, 8 + spec_host_port(addr, port).len() as int) == spec_host_port(addr, port),
        spec_server_url(addr, port).last() == '/',
{
    let url = spec_server_url(addr, port);
    let authority = spec_host_port(addr, port);
    assert(url.subrange(0, 8) =~= seq!['h', 't', 't', 'p', 's', ':', '/', '/']);
    assert(url.subrange(8, 8 + authority.len() as int) =~= authority);
}

/// Joins a host and a port as `host:port`.
pub fn host_port(addr: &str, port: &str) -> (text: String)
    ensures
        text@ == spec_host_port(addr@, port@),
        text@.len() == addr@.len() + 1 + port@.len(),
        text@.subrange(0, addr@.len() as int) == addr@,
        text@[addr@.len() as int] == ':',
        text@.subrange(addr@.len() as int + 1, text@.len() as int) == port@,
{
    proof {
        reveal_strlit(":");
        lemma_host_port_layout(addr@, port@);
    }
    let text = String::from_str(addr).concat(":").concat(port);
    assert(text@ =~= spec_host_port(addr@, port@));
    text
}

/// The HTTPS base URL of the node at `addr` and `port`, ending in `/`, to
/// which a channel name is appended.
pub fn server_url(addr: &str, port: &str) -> (url: String)
    ensures
        url@ == spec_server_url(addr@, port@),
        url@.len() == 8 + addr@.len() + 1 + port@.len() + 1,
        url@.subrange(0, 8) == seq!['h', 't', 't', 'p', 's', ':', '/', '/'],
        url@.subrange(8, 8 + addr@.len() as int + 1 + port@.len() as int) == spec_host_port(addr@, port@),
        url@.last() == '/',
{
    proof {
        reveal_strlit("https://");
        reveal_strlit("/");
        lemma_server_url_layout(addr@, port@);
        lemma_host_port_layout(addr@, port@);
    }
    let authority = host_port(addr, port);
    let url = String::from_str("https://").concat(authority.as_str()).concat("/");
    assert(url@ =~= spec_server_url(addr@, port@));
    url
}

} // verus!
