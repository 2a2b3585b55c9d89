//! Decimal rendering of the numbers that appear in network-configuration
//! commands: plain integers, dotted-quad IPv4 addresses, and CIDR notation.

use vstd::prelude::*;
use vstd::string::StringExecFns;

verus! {

/// The decimal digit character for `d` in `0 .. 9`.
pub open spec fn digit_char(d: int) -> char {
    if d == 0 {
        '0'
    } else if d == 1 {
        '1'
    } else if d == 2 {
        '2'
    } else if d == 3 {
        '3'
    } else if d == 4 {
        '4'
    } else if d == 5 {
        '5'
    } else if d == 6 {
        '6'
    } else if d == 7 {
        '7'
    } else if d == 8 {
        '8'
    } else {
        '9'
    }
}

/// The decimal digits of `n`, most significant first, with no leading zeros
/// (except for `n == 0`, which is the single digit `0`).
pub open spec fn dec_digits(n: nat) -> Seq<char>
    decreases n,
{
    if n < 10 {
        seq![digit_char(n as int)]
    } else {
        dec_digits(n / 10).push(digit_char((n % 10) as int))
    }
}

/// The dotted-quad rendering of a four-byte IPv4 address.
pub open spec fn ipv4_chars(ip: Seq<u8>) -> Seq<char>
    recommends
        ip.len() == 4,
{
    dec_digits(ip[0] as nat) + seq!['.'] + dec_digits(ip[1] as nat) + seq!['.'] + dec_digits(
        ip[2] as nat,
    ) + seq!['.'] + dec_digits(ip[3] as nat)
}

/// The `address/prefix` rendering of an IPv4 address with a netmask length.
pub open spec fn cidr_chars(ip: Seq<u8>, netmask: u8) -> Seq<char>
    recommends
        ip.len() == 4,
{
    ipv4_chars(ip) + seq!['/'] + dec_digits(netmask as nat)
}

/// The one-character string for the decimal digit `d`.
fn digit_str(d: u32) -> (r: &'static str)
    requires
        d < 10,
    ensures
        r@ == seq![digit_char(d as int)],
{
    proof {
        reveal_strlit("0");
        reveal_strlit("1");
        reveal_strlit("2");
        reveal_strlit("3");
        reveal_strlit("4");
        reveal_strlit("5");
        reveal_strlit("6");
        reveal_strlit("7");
        reveal_strlit("8");
        reveal_strlit("9");
    }
    let r = if d == 0 {
        "0"
    } else if d == 1 {
        "1"
    } else if d == 2 {
        "2"
    } else if d == 3 {
        "3"
    } else if d == 4 {
        "4"
    } else if d == 5 {
        "5"
    } else if d == 6 {
        "6"
    } else if d == 7 {
        "7"
    } else if d == 8 {
        "8"
    } else {
        "9"
    };
    proof {
        assert(r@ =~= seq![digit_char(d as int)]);
    }
    r
}

/// Renders `n` in decimal.
pub fn u32_to_dec(n: u32) -> (r: String)
    ensures
        r@ == dec_digits(n as nat),
    decreases n,
{
    if n < 10 {
        digit_str(n).to_owned()
    } else {
        let mut s = u32_to_dec(n / 10);
        s.append(digit_str(n % 10));
        proof {
            assert(s@ =~= dec_digits(n as nat));
        }
        s
    }
}

/// Renders a four-byte IPv4 address as a dotted quad.
pub fn ipv4_to_dec(ip: &[u8; 4]) -> (r: String)
    ensures
        r@ == ipv4_chars(ip@),
{
    proof {
        reveal_strlit(".");
    }
    let mut s = u32_to_dec(ip[0] as u32);
    s.append(".");
    let b = u32_to_dec(ip[1] as u32);
    s.append(b.as_str());
    s.append(".");
    let c = u32_to_dec(ip[2] as u32);
    s.append(c.as_str());
    s.append(".");
    let d = u32_to_dec(ip[3] as u32);
    s.append(d.as_str());
    proof {
        assert(s@ =~= ipv4_chars(ip@));
    }
    s
}

/// Renders `address/prefix` for an IPv4 address and a netmask length.
pub fn cidr_to_dec(ip: &[u8; 4], netmask: u8) -> (r: String)
    ensures
        r@ == cidr_chars(ip@, netmask),
{
    proof {
        reveal_strlit("/");
    }
    let mut s = ipv4_to_dec(ip);
    s.append("/");
    let m = u32_to_dec(netmask as u32);
    s.append(m.as_str());
    proof {
        assert(s@ =~= cidr_chars(ip@, netmask));
    }
    s
}

} // verus!
