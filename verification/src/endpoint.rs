//! Building the advertised `host:port` endpoint string.
//!
//! The relay binds on all interfaces, so the endpoint a caller can advertise
//! pairs the machine's local network address with the bound port. The address
//! comes from the operating system; the decimal rendering of the port and the
//! assembly of the final string are verified here.

use vstd::prelude::*;
use vstd::string::StrSliceExecFns;
use vstd::string::StringExecFns;

verus! {

/// The character for a single decimal digit value.
pub open spec fn dec_digit(d: nat) -> char {
    if d == 0 {
        '0'
    } else if d == 1 {
        '1'
    } else if d == 2 {
        '2'
    } else if d == 3 {
        '3'
    } else if d == 4 {
        '4'
    } else if d == 5 {
        '5'
    } else if d == 6 {
        '6'
    } else if d == 7 {
        '7'
    } else if d == 8 {
        '8'
    } else {
        '9'
    }
}

/// The decimal rendering of a number, most significant digit first,
/// with no leading zeros (a lone `'0'` for zero).
pub open spec fn dec_chars(n: nat) -> Seq<char>
    decreases n,
{
    if n < 10 {
        seq![dec_digit(n)]
    } else {
        dec_chars(n / 10).push(dec_digit(n % 10))
    }
}

/// The advertised endpoint: the local address, a colon, and the port in decimal.
pub open spec fn endpoint_chars(ip: Seq<char>, port: u16) -> Seq<char> {
    ip + seq![':'] + dec_chars(port as nat)
}

/// Whether a character is a decimal digit.
pub open spec fn is_dec_digit(c: char) -> bool {
    c == '0' || c == '1' || c == '2' || c == '3' || c == '4' || c == '5' || c == '6' || c == '7'
        || c == '8' || c == '9'
}

/// The digit value of a decimal digit character.
pub open spec fn dec_digit_val(c: char) -> nat {
    if c == '0' {
        0
    } else if c == '1' {
        1
    } else if c == '2' {
        2
    } else if c == '3' {
        3
    } else if c == '4' {
        4
    } else if c == '5' {
        5
    } else if c == '6' {
        6
    } else if c == '7' {
        7
    } else if c == '8' {
        8
    } else {
        9
    }
}

/// The number a sequence of decimal digit characters denotes.
pub open spec fn dec_value(s: Seq<char>) -> nat
    decreases s.len(),
{
    if s.len() == 0 {
        0
    } else {
        dec_value(s.drop_last()) * 10 + dec_digit_val(s.last())
    }
}

/// The decimal rendering of a number is never empty and holds digit
/// characters only.
pub proof fn lemma_dec_chars_digits(n: nat)
    ensures
        dec_chars(n).len() > 0,
        forall|i: int| 0 <= i < dec_chars(n).len() ==> is_dec_digit(#[trigger] dec_chars(n)[i]),
    decreases n,
{
    if n >= 10 {
        lemma_dec_chars_digits(n / 10);
        assert forall|i: int| 0 <= i < dec_chars(n).len() implies is_dec_digit(
            #[trigger] dec_chars(n)[i],
        ) by {
            if i < dec_chars(n / 10).len() {
                assert(dec_chars(n)[i] == dec_chars(n / 10)[i]);
            }
        }
    }
}

/// Reading the decimal rendering of a number back as a number recovers it
/// exactly: the port in the advertised endpoint parses to the bound port.
pub proof fn lemma_dec_value_inverts(n: nat)
    ensures
        dec_value(dec_chars(n)) == n,
    decreases n,
{
    let s = dec_chars(n);
    if n < 10 {
        assert(s.last() == dec_digit(n));
        assert(s.drop_last() =~= Seq::<char>::empty());
        assert(dec_value(s) == dec_value(s.drop_last()) * 10 + dec_digit_val(s.last()));
    } else {
        lemma_dec_value_inverts(n / 10);
        assert(s.last() == dec_digit(n % 10));
        assert(s.drop_last() =~= dec_chars(n / 10));
        assert(dec_value(s) == dec_value(s.drop_last()) * 10 + dec_digit_val(s.last()));
        assert(dec_value(s) == (n / 10) * 10 + n % 10);
        vstd::arithmetic::div_mod::lemma_fundamental_div_mod(n as int, 10);
    }
}

/// The advertised endpoint always splits at its last colon into the address
/// and the port's digits: the text after position `ip.len()` is exactly the
/// decimal rendering of the port and holds no colon, whatever the address
/// text is.
pub proof fn lemma_endpoint_parses(ip: Seq<char>, port: u16)
    ensures
        endpoint_chars(ip, port).len() == ip.len() + 1 + dec_chars(port as nat).len(),
        endpoint_chars(ip, port).subrange(0, ip.len() as int) == ip,
        endpoint_chars(ip, port)[ip.len() as int] == ':',
        endpoint_chars(ip, port).subrange(
            ip.len() as int + 1,
            endpoint_chars(ip, port).len() as int,
        ) == dec_chars(port as nat),
        dec_value(
            endpoint_chars(ip, port).subrange(
                ip.len() as int + 1,
                endpoint_chars(ip, port).len() as int,
            ),
        ) == port,
        forall|i: int|
            ip.len() < i < endpoint_chars(ip, port).len()
                ==> #[trigger] endpoint_chars(ip, port)[i] != ':',
{
    let e = endpoint_chars(ip, port);
    let d = dec_chars(port as nat);
    assert(e.subrange(0, ip.len() as int) =~= ip);
    assert(e.subrange(ip.len() as int + 1, e.len() as int) =~= d);
    lemma_dec_chars_digits(port as nat);
    lemma_dec_value_inverts(port as nat);
    assert forall|i: int| ip.len() < i < e.len() implies #[trigger] e[i] != ':' by {
        assert(e[i] == d[i - ip.len() - 1]);
        assert(is_dec_digit(d[i - ip.len() - 1]));
    }
}

fn digit_str(d: u16) -> (r: &'static str)
    requires
        d < 10,
    ensures
        r@ == seq![dec_digit(d as nat)],
{
    proof {
        reveal_strlit("0");
        reveal_strlit("1");
        reveal_strlit("2");
        reveal_strlit("3");
        reveal_strlit("4");
        reveal_strlit("5");
        reveal_strlit("6");
        reveal_strlit("7");
        reveal_strlit("8");
        reveal_strlit("9");
    }
    if d == 0 {
        "0"
    } else if d == 1 {
        "1"
    } else if d == 2 {
        "2"
    } else if d == 3 {
        "3"
    } else if d == 4 {
        "4"
    } else if d == 5 {
        "5"
    } else if d == 6 {
        "6"
    } else if d == 7 {
        "7"
    } else if d == 8 {
        "8"
    } else {
        "9"
    }
}

/// The decimal rendering of a port number as an owned string.
pub fn dec_string(n: u16) -> (r: String)
    ensures
        r@ == dec_chars(n as nat),
    decreases n,
{
    if n < 10 {
        String::from_str(digit_str(n))
    } else {
        let mut s = dec_string(n / 10);
        s.append(digit_str(n % 10));
        assert(s@ == dec_chars((n / 10) as nat).push(dec_digit((n % 10) as nat)));
        s
    }
}

/// Assembles the `host:port` text a caller can advertise on the local network.
pub fn endpoint_string(ip: &str, port: u16) -> (r: String)
    ensures
        r@ == endpoint_chars(ip@, port),
{
    proof {
        reveal_strlit(":");
    }
    let mut s = ip.to_owned();
    s.append(":");
    let p = dec_string(port);
    s.append(p.as_str());
    assert(s@ =~= endpoint_chars(ip@, port));
    s
}

/// Relies on `local_ip_address::local_ip`: returns the machine's local IP
/// address, which depends on the host's network configuration; its textual
/// form is never empty. On failure the underlying cause is carried behind
/// the fixed "failed to get local ip: " prefix.
#[verifier::external_body]
pub fn get_local_ip() -> (r: Result<String, String>)
    ensures
        r is Ok ==> r->Ok_0@.len() > 0,
        r is Err ==> crate::starts_with(r->Err_0@, "failed to get local ip: "@),
{
    local_ip_address::local_ip()
        .map(|ip| ip.to_string())
        .map_err(|e| format!("failed to get local ip: {}", e))
}

} // verus!
