//! Human-readable status and error messages, built by verified code.
//!
//! Every message the library reports is pinned, character for
//! character, by a spec function here, including the decimal rendering
//! of byte counts and port numbers.

use vstd::prelude::*;
use vstd::string::StringExecFns;

verus! {

/// The character for the digit `d` (`d < 10`).
pub open spec fn digit_char(d: nat) -> char {
    if d == 0 {
        '0'
    } else if d == 1 {
        '1'
    } else if d == 2 {
        '2'
    } else if d == 3 {
        '3'
    } else if d == 4 {
        '4'
    } else if d == 5 {
        '5'
    } else if d == 6 {
        '6'
    } else if d == 7 {
        '7'
    } else if d == 8 {
        '8'
    } else {
        '9'
    }
}

/// The decimal numeral for `n`, most significant digit first, without
/// leading zeros (`0` itself is rendered as `"0"`).
pub open spec fn dec_digits(n: nat) -> Seq<char>
    decreases n,
{
    if n < 10 {
        seq![digit_char(n)]
    } else {
        dec_digits(n / 10).push(digit_char(n % 10))
    }
}

/// The one-character string for the digit `d`.
fn digit_str(d: u8) -> (s: &'static str)
    requires
        d < 10,
    ensures
        s@ == seq![digit_char(d as nat)],
{
    proof {
        reveal_strlit("0");
        reveal_strlit("1");
        reveal_strlit("2");
        reveal_strlit("3");
        reveal_strlit("4");
        reveal_strlit("5");
        reveal_strlit("6");
        reveal_strlit("7");
        reveal_strlit("8");
        reveal_strlit("9");
    }
    let s = match d {
        0 => "0",
        1 => "1",
        2 => "2",
        3 => "3",
        4 => "4",
        5 => "5",
        6 => "6",
        7 => "7",
        8 => "8",
        _ => "9",
    };
    proof {
        assert(s@ =~= seq![digit_char(d as nat)]);
    }
    s
}

/// Render `n` as a decimal numeral.
pub fn u64_to_string(n: u64) -> (s: String)
    ensures
        s@ == dec_digits(n as nat),
    decreases n,
{
    if n < 10 {
        digit_str(n as u8).to_owned()
    } else {
        let mut s = u64_to_string(n / 10);
        s.append(digit_str((n % 10) as u8));
        proof {
            assert(s@ =~= dec_digits(n as nat));
        }
        s
    }
}

/// The message reported for a simulated print of `n` bytes.
pub open spec fn simulate_msg(n: nat) -> Seq<char> {
    "Simulated print: "@ + dec_digits(n) + " bytes"@
}

/// The printer's address as written in messages: `host:port`.
pub open spec fn addr_of(host: Seq<char>, port: u16) -> Seq<char> {
    host + ":"@ + dec_digits(port as nat)
}

/// The message reported after `n` bytes were printed to `addr`.
pub open spec fn printed_msg(n: nat, addr: Seq<char>) -> Seq<char> {
    "Printed "@ + dec_digits(n) + " bytes to "@ + addr
}

/// The error reported when the payload is not valid base64.
pub open spec fn decode_err_msg(detail: Seq<char>) -> Seq<char> {
    "Failed to decode base64: "@ + detail
}

/// The error reported when no connection to `addr` could be made.
pub open spec fn connect_err_msg(addr: Seq<char>, cause: Seq<char>) -> Seq<char> {
    "Failed to connect to printer at "@ + addr + ": "@ + cause
}

/// The error reported when the write to the printer did not complete.
pub open spec fn write_err_msg(cause: Seq<char>) -> Seq<char> {
    "Failed to send data to printer: "@ + cause
}

/// Build the simulated-print message for `count` bytes.
pub fn simulate_message(count: usize) -> (m: String)
    ensures
        m@ == simulate_msg(count as nat),
{
    let mut m = "Simulated print: ".to_owned();
    let num = u64_to_string(count as u64);
    m.append(num.as_str());
    m.append(" bytes");
    proof {
        assert(m@ =~= simulate_msg(count as nat));
    }
    m
}

/// Render `host:port`.
pub fn format_address(host: &str, port: u16) -> (a: String)
    ensures
        a@ == addr_of(host@, port),
{
    let mut a = host.to_owned();
    a.append(":");
    let num = u64_to_string(port as u64);
    a.append(num.as_str());
    proof {
        assert(a@ =~= addr_of(host@, port));
    }
    a
}

/// Build the printed-bytes message for `count` bytes sent to `addr`.
pub fn printed_message(count: usize, addr: &str) -> (m: String)
    ensures
        m@ == printed_msg(count as nat, addr@),
{
    let mut m = "Printed ".to_owned();
    let num = u64_to_string(count as u64);
    m.append(num.as_str());
    m.append(" bytes to ");
    m.append(addr);
    proof {
        assert(m@ =~= printed_msg(count as nat, addr@));
    }
    m
}

/// Build the base64 failure message around the decoder's own text.
pub fn decode_error_message(detail: &str) -> (m: String)
    ensures
        m@ == decode_err_msg(detail@),
{
    let mut m = "Failed to decode base64: ".to_owned();
    m.append(detail);
    m
}

/// Build the connection failure message for `addr` around the cause.
pub fn connect_error_message(addr: &str, cause: &str) -> (m: String)
    ensures
        m@ == connect_err_msg(addr@, cause@),
{
    let mut m = "Failed to connect to printer at ".to_owned();
    m.append(addr);
    m.append(": ");
    m.append(cause);
    proof {
        assert(m@ =~= connect_err_msg(addr@, cause@));
    }
    m
}

/// Build the write failure message around the cause.
pub fn write_error_message(cause: &str) -> (m: String)
    ensures
        m@ == write_err_msg(cause@),
{
    let mut m = "Failed to send data to printer: ".to_owned();
    m.append(cause);
    m
}

} // verus!
