//! What is answered where no route matched, or a request failed.

use crate::routes::{Redirect, NEW_HOME};
use vstd::prelude::*;
use vstd::string::StringExecFns;

verus! {

/// The decimal digit of `d`.
pub open spec fn digit_char(d: nat) -> char
    recommends
        d < 10,
{
    if d == 0 {
        '0'
    } else if d == 1 {
        '1'
    } else if d == 2 {
        '2'
    } else if d == 3 {
        '3'
    } else if d == 4 {
        '4'
    } else if d == 5 {
        '5'
    } else if d == 6 {
        '6'
    } else if d == 7 {
        '7'
    } else if d == 8 {
        '8'
    } else {
        '9'
    }
}

/// `n` written in decimal, without leading zeros.
pub open spec fn decimal(n: nat) -> Seq<char>
    decreases n,
{
    if n < 10 {
        seq![digit_char(n)]
    } else {
        decimal(n / 10).push(digit_char(n % 10))
    }
}

fn digit_str(d: u16) -> (s: &'static str)
    requires
        d < 10,
    ensures
        s@ == seq![digit_char(d as nat)],
{
    proof {
        reveal_strlit("0");
        reveal_strlit("1");
        reveal_strlit("2");
        reveal_strlit("3");
        reveal_strlit("4");
        reveal_strlit("5");
        reveal_strlit("6");
        reveal_strlit("7");
        reveal_strlit("8");
        reveal_strlit("9");
    }
    let s = if d == 0 {
        "0"
    } else if d == 1 {
        "1"
    } else if d == 2 {
        "2"
    } else if d == 3 {
        "3"
    } else if d == 4 {
        "4"
    } else if d == 5 {
        "5"
    } else if d == 6 {
        "6"
    } else if d == 7 {
        "7"
    } else if d == 8 {
        "8"
    } else {
        "9"
    };
    s
}

fn append_decimal(out: &mut String, n: u16)
    ensures
        final(out)@ == old(out)@ + decimal(n as nat),
    decreases n,
{
    if n >= 10 {
        append_decimal(out, n / 10);
    }
    out.append(digit_str(n % 10));
    proof {
        let head = old(out)@;
        if n >= 10 {
            assert(head + decimal((n / 10) as nat) + seq![digit_char((n % 10) as nat)] =~= head
                + decimal(n as nat));
        }
    }
}

/// The diagnostic text for a failed request: the status code in decimal, a
/// space, the status's reason phrase, and the requested address in round
/// brackets.
pub open spec fn fault_message(code: u16, reason: Seq<char>, uri: Seq<char>) -> Seq<char> {
    decimal(code as nat) + " "@ + reason + " ("@ + uri + ")"@
}

/// No route matched: the client is sent to the root of the new host.
pub fn general_not_found() -> (r: Redirect)
    ensures
        r@ == NEW_HOME@,
{
    Redirect::to(String::from_str(NEW_HOME))
}

/// Any other failure: the status is kept, and the body names it and the
/// address that was asked for.
pub fn default_catcher(code: u16, reason: &str, uri: &str) -> (response: (u16, String))
    ensures
        response.0 == code,
        response.1@ == fault_message(code, reason@, uri@),
{
    let mut msg = String::new();
    append_decimal(&mut msg, code);
    msg.append(" ");
    msg.append(reason);
    msg.append(" (");
    msg.append(uri);
    msg.append(")");
    (code, msg)
}

} // verus!
