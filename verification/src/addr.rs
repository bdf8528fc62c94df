//! The socket address a site is served from, modelled as plain values:
//! four dotted-decimal octets and a port. A raw string is coerced with
//! the usual textual grammar: octets of one to three digits without a
//! leading zero, a colon, and a port of one to five digits.

use vstd::prelude::*;

use crate::strutil::all_digits;
use crate::strutil::dec_val;
use crate::strutil::is_digit;

verus! {

/// A resolved `host:port` socket address.
#[derive(Debug, Clone, Copy, PartialEq, Eq, Structural)]
pub struct SocketAddress {
    pub ip_a: u8,
    pub ip_b: u8,
    pub ip_c: u8,
    pub ip_d: u8,
    pub port: u16,
}

/// First occurrence of a character at or after a position.
pub open spec fn find_char_from(s: Seq<char>, ch: char, i: int) -> Option<int>
    decreases s.len() - i,
{
    if i < 0 || i >= s.len() {
        None
    } else if s[i] == ch {
        Some(i)
    } else {
        find_char_from(s, ch, i + 1)
    }
}

/// First occurrence of a character in a sequence.
pub open spec fn find_char(s: Seq<char>, ch: char) -> Option<int> {
    find_char_from(s, ch, 0)
}

/// The text before the first occurrence of a character, and the text after it.
pub open spec fn split_first(s: Seq<char>, ch: char) -> Option<(Seq<char>, Seq<char>)> {
    match find_char(s, ch) {
        None => None,
        Some(i) => Some((s.take(i), s.skip(i + 1))),
    }
}

/// An address octet: one to three digits, no leading zero, at most 255.
pub open spec fn parse_octet_spec(s: Seq<char>) -> Option<u8> {
    if 1 <= s.len() <= 3 && all_digits(s) && (s.len() == 1 || s[0] != '0') && dec_val(s) <= 255 {
        Some(dec_val(s) as u8)
    } else {
        None
    }
}

/// A port: one to five digits, at most 65535.
pub open spec fn parse_port_spec(s: Seq<char>) -> Option<u16> {
    if 1 <= s.len() <= 5 && all_digits(s) && dec_val(s) <= 65535 {
        Some(dec_val(s) as u16)
    } else {
        None
    }
}

/// What coercing a raw string to a socket address yields: the text up to
/// the first colon must be four dot-separated octets, the rest a port.
pub open spec fn parse_sock_spec(s: Seq<char>) -> Option<SocketAddress> {
    match split_first(s, ':') {
        None => None,
        Some((host, port_txt)) => match split_first(host, '.') {
            None => None,
            Some((o1, r1)) => match split_first(r1, '.') {
                None => None,
                Some((o2, r2)) => match split_first(r2, '.') {
                    None => None,
                    Some((o3, o4)) => {
                        if parse_octet_spec(o1) is Some && parse_octet_spec(o2) is Some
                            && parse_octet_spec(o3) is Some && parse_octet_spec(o4) is Some
                            && parse_port_spec(port_txt) is Some {
                            Some(
                                SocketAddress {
                                    ip_a: parse_octet_spec(o1)->Some_0,
                                    ip_b: parse_octet_spec(o2)->Some_0,
                                    ip_c: parse_octet_spec(o3)->Some_0,
                                    ip_d: parse_octet_spec(o4)->Some_0,
                                    port: parse_port_spec(port_txt)->Some_0,
                                },
                            )
                        } else {
                            None
                        }
                    },
                },
            },
        },
    }
}

/// Finds the first occurrence of a character in a string.
fn find_char_x(s: &str, ch: char) -> (r: Option<usize>)
    ensures
        match r {
            None => find_char(s@, ch) is None,
            Some(i) => i < s@.len() && find_char(s@, ch) == Some(i as int),
        },
{
    let n = s.unicode_len();
    let mut i: usize = 0;
    while i < n
        invariant
            i <= n,
            n == s@.len(),
            find_char(s@, ch) == find_char_from(s@, ch, i as int),
        decreases n - i,
    {
        if s.get_char(i) == ch {
            return Some(i);
        }
        i = i + 1;
    }
    None
}

/// Parses one address octet.
fn parse_octet(s: &str) -> (r: Option<u8>)
    ensures
        r == parse_octet_spec(s@),
{
    let n = s.unicode_len();
    if n < 1 || n > 3 {
        return None;
    }
    let mut val: u32 = 0;
    let mut i: usize = 0;
    while i < n
        invariant
            i <= n,
            1 <= n <= 3,
            n == s@.len(),
            all_digits(s@.take(i as int)),
            val == dec_val(s@.take(i as int)),
        decreases n - i,
    {
        let c = s.get_char(i);
        if !('0' <= c && c <= '9') {
            proof {
                assert(!is_digit(s@[i as int]));
            }
            return None;
        }
        proof {
            crate::strutil::lemma_dec_val_bound(s@.take(i as int));
            assert(s@.take(i + 1).drop_last() =~= s@.take(i as int));
            assert(s@.take(i + 1).last() == c);
        }
        val = val * 10 + (c as u8 - 48) as u32;
        i = i + 1;
    }
    proof {
        assert(s@.take(n as int) =~= s@);
    }
    if n > 1 && s.get_char(0) == '0' {
        return None;
    }
    if val > 255 {
        return None;
    }
    Some(val as u8)
}

/// Parses one port number.
fn parse_port(s: &str) -> (r: Option<u16>)
    ensures
        r == parse_port_spec(s@),
{
    let n = s.unicode_len();
    if n < 1 || n > 5 {
        return None;
    }
    let mut val: u32 = 0;
    let mut i: usize = 0;
    while i < n
        invariant
            i <= n,
            1 <= n <= 5,
            n == s@.len(),
            all_digits(s@.take(i as int)),
            val == dec_val(s@.take(i as int)),
        decreases n - i,
    {
        let c = s.get_char(i);
        if !('0' <= c && c <= '9') {
            proof {
                assert(!is_digit(s@[i as int]));
            }
            return None;
        }
        proof {
            crate::strutil::lemma_dec_val_bound(s@.take(i as int));
            assert(s@.take(i + 1).drop_last() =~= s@.take(i as int));
            assert(s@.take(i + 1).last() == c);
        }
        val = val * 10 + (c as u8 - 48) as u32;
        i = i + 1;
    }
    proof {
        assert(s@.take(n as int) =~= s@);
    }
    if val > 65535 {
        return None;
    }
    Some(val as u16)
}

/// Coerces a raw string to a socket address, rejecting any other shape.
pub fn parse_socket_address(s: &str) -> (r: Option<SocketAddress>)
    ensures
        r == parse_sock_spec(s@),
{
    let n = s.unicode_len();
    let colon = match find_char_x(s, ':') {
        None => {
            return None;
        },
        Some(i) => i,
    };
    let host = s.substring_char(0, colon);
    let port_txt = s.substring_char(colon + 1, n);
    proof {
        assert(host@ =~= s@.take(colon as int));
        assert(port_txt@ =~= s@.skip(colon + 1));
    }
    let hn = host.unicode_len();
    let d1 = match find_char_x(host, '.') {
        None => {
            return None;
        },
        Some(i) => i,
    };
    let o1 = host.substring_char(0, d1);
    let r1 = host.substring_char(d1 + 1, hn);
    proof {
        assert(o1@ =~= host@.take(d1 as int));
        assert(r1@ =~= host@.skip(d1 + 1));
    }
    let r1n = r1.unicode_len();
    let d2 = match find_char_x(r1, '.') {
        None => {
            return None;
        },
        Some(i) => i,
    };
    let o2 = r1.substring_char(0, d2);
    let r2 = r1.substring_char(d2 + 1, r1n);
    proof {
        assert(o2@ =~= r1@.take(d2 as int));
        assert(r2@ =~= r1@.skip(d2 + 1));
    }
    let r2n = r2.unicode_len();
    let d3 = match find_char_x(r2, '.') {
        None => {
            return None;
        },
        Some(i) => i,
    };
    let o3 = r2.substring_char(0, d3);
    let o4 = r2.substring_char(d3 + 1, r2n);
    proof {
        assert(o3@ =~= r2@.take(d3 as int));
        assert(o4@ =~= r2@.skip(d3 + 1));
    }
    let va = match parse_octet(o1) {
        None => {
            return None;
        },
        Some(v) => v,
    };
    let vb = match parse_octet(o2) {
        None => {
            return None;
        },
        Some(v) => v,
    };
    let vc = match parse_octet(o3) {
        None => {
            return None;
        },
        Some(v) => v,
    };
    let vd = match parse_octet(o4) {
        None => {
            return None;
        },
        Some(v) => v,
    };
    let vp = match parse_port(port_txt) {
        None => {
            return None;
        },
        Some(v) => v,
    };
    Some(SocketAddress { ip_a: va, ip_b: vb, ip_c: vc, ip_d: vd, port: vp })
}

/// The compiled-in default socket address: local port 3000.
pub fn default_site_addr() -> (r: SocketAddress)
    ensures
        r == (SocketAddress { ip_a: 127, ip_b: 0, ip_c: 0, ip_d: 1, port: 3000 }),
{
    SocketAddress { ip_a: 127, ip_b: 0, ip_c: 0, ip_d: 1, port: 3000 }
}

} // verus!
