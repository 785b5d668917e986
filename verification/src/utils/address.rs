//! Socket addresses of the streaming server: an IPv4 host and a port.
//!
//! The host is read as four decimal numbers separated by dots. Any other
//! host, a name or an IPv6 address in brackets too, is no address here.

use crate::digits::{all_digits, decimal_text, decimal_value, push_decimal, read_decimal};
use crate::text::{chars_of, split_chars, split_on, string_of};
use vstd::prelude::*;

verus! {

/// The address a streaming server listens on.
#[derive(Debug, Clone, Copy, PartialEq, Eq, Structural)]
pub struct ServerAddr {
    pub a: u8,
    pub b: u8,
    pub c: u8,
    pub d: u8,
    pub port: u16,
}

/// One of the four numbers of a dotted address: one to three digits, no
/// leading zero unless it is zero itself, at most 255.
pub open spec fn octet_of(s: Seq<char>) -> Option<u8> {
    if 1 <= s.len() <= 3 && all_digits(s) && (s.len() == 1 || s[0] != '0') && decimal_value(s)
        <= 255 {
        Some(decimal_value(s) as u8)
    } else {
        None
    }
}

/// The address that a host text and a port stand for, where the host is
/// four numbers separated by dots and the port fits in 16 bits.
pub open spec fn socket_addr(host: Seq<char>, port: u32) -> Option<ServerAddr> {
    let p = split_on(host, '.', '.');
    if p.len() != 4 || port > 65535 {
        None
    } else {
        match (octet_of(p[0]), octet_of(p[1]), octet_of(p[2]), octet_of(p[3])) {
            (Some(a), Some(b), Some(c), Some(d)) => Some(
                ServerAddr { a, b, c, d, port: port as u16 },
            ),
            _ => None,
        }
    }
}

/// The text that was asked to be an address: host, colon, port.
pub open spec fn address_text(host: Seq<char>, port: u32) -> Seq<char> {
    host.push(':') + decimal_text(port as nat)
}

impl ServerAddr {
    /// The address written out: `a.b.c.d:port`.
    pub open spec fn text(self) -> Seq<char> {
        decimal_text(self.a as nat).push('.') + decimal_text(self.b as nat).push('.')
            + decimal_text(self.c as nat).push('.') + decimal_text(self.d as nat).push(':')
            + decimal_text(self.port as nat)
    }

    fn push_text(&self, out: &mut Vec<char>)
        ensures
            final(out)@ == old(out)@ + self.text(),
    {
        push_decimal(out, self.a as u64);
        out.push('.');
        push_decimal(out, self.b as u64);
        out.push('.');
        push_decimal(out, self.c as u64);
        out.push('.');
        push_decimal(out, self.d as u64);
        out.push(':');
        push_decimal(out, self.port as u64);
        assert(out@ == old(out)@ + self.text());
    }

    /// Writes the address out.
    pub fn to_string(&self) -> (s: String)
        ensures
            s@ == self.text(),
    {
        let mut out: Vec<char> = Vec::new();
        self.push_text(&mut out);
        string_of(&out)
    }

    /// The base URI of what is served at the address: `http://a.b.c.d:port`.
    pub fn base_uri(&self) -> (s: String)
        ensures
            s@ == "http://"@ + self.text(),
    {
        let mut out: Vec<char> = Vec::new();
        crate::text::push_str(&mut out, "http://");
        self.push_text(&mut out);
        string_of(&out)
    }
}

fn read_octet(v: &Vec<char>) -> (r: Option<u8>)
    ensures
        r == octet_of(v@),
{
    let n = v.len();
    if n < 1 || n > 3 {
        return None;
    }
    assert(v@.subrange(0, n as int) == v@);
    if n > 1 && v[0] == '0' {
        return None;
    }
    match read_decimal(v, 0, n, 255) {
        Ok(x) => Some(x as u8),
        Err(_) => None,
    }
}

/// Reads a host text and a port as the address of a server.
pub fn parse_socket_addr(host: &str, port: u32) -> (r: Option<ServerAddr>)
    ensures
        r == socket_addr(host@, port),
{
    let v = chars_of(host);
    let parts = split_chars(&v, '.', '.');
    if parts.len() != 4 || port > 65535 {
        return None;
    }
    let ghost p = split_on(host@, '.', '.');
    assert(p[0] == parts[0]@ && p[1] == parts[1]@ && p[2] == parts[2]@ && p[3] == parts[3]@);
    let a = match read_octet(&parts[0]) {
        Some(x) => x,
        None => {
            return None;
        },
    };
    let b = match read_octet(&parts[1]) {
        Some(x) => x,
        None => {
            return None;
        },
    };
    let c = match read_octet(&parts[2]) {
        Some(x) => x,
        None => {
            return None;
        },
    };
    let d = match read_octet(&parts[3]) {
        Some(x) => x,
        None => {
            return None;
        },
    };
    Some(ServerAddr { a, b, c, d, port: port as u16 })
}

/// Writes out the host and port that were asked to be an address.
pub fn format_address(host: &str, port: u32) -> (s: String)
    ensures
        s@ == address_text(host@, port),
{
    let mut out = chars_of(host);
    out.push(':');
    push_decimal(&mut out, port as u64);
    string_of(&out)
}

} // verus!
