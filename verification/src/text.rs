//! Text that the services put into their responses.

use vstd::prelude::*;

verus! {

/// The character that stands for a single decimal digit.
pub open spec fn digit_char(d: int) -> char
    recommends
        0 <= d < 10,
{
    if d == 0 {
        '0'
    } else if d == 1 {
        '1'
    } else if d == 2 {
        '2'
    } else if d == 3 {
        '3'
    } else if d == 4 {
        '4'
    } else if d == 5 {
        '5'
    } else if d == 6 {
        '6'
    } else if d == 7 {
        '7'
    } else if d == 8 {
        '8'
    } else {
        '9'
    }
}

/// The decimal digits of a natural number, most significant first, with no
/// leading zero (zero itself is "0").
pub open spec fn decimal(n: nat) -> Seq<char>
    decreases n,
{
    if n < 10 {
        seq![digit_char(n as int)]
    } else {
        decimal(n / 10).push(digit_char((n % 10) as int))
    }
}

/// The decimal text of an integer: a minus sign before the digits of a
/// negative number.
pub open spec fn signed_decimal(i: int) -> Seq<char> {
    if i < 0 {
        seq!['-'] + decimal((-i) as nat)
    } else {
        decimal(i as nat)
    }
}

/// The text of a response that reports a missing user.
pub open spec fn not_found_text(id: i32) -> Seq<char> {
    "user "@ + signed_decimal(id as int) + " not found"@
}

/// The text of a response that confirms a deletion.
pub open spec fn deleted_text(id: i32) -> Seq<char> {
    "deleted user "@ + signed_decimal(id as int)
}

/// The text that reports a storage failure, with the failure's own text at
/// its end.
pub open spec fn db_error_text(error: Seq<char>) -> Seq<char> {
    "db error: "@ + error
}

/// The greeting of the demo service.
pub open spec fn greeting_text(app_name: Seq<char>) -> Seq<char> {
    "Hello "@ + app_name + "!"@
}

/// One decimal digit as text.
fn digit_str(d: u32) -> (s: &'static str)
    requires
        d < 10,
    ensures
        s@ == seq![digit_char(d as int)],
{
    proof {
        reveal_strlit("0");
        reveal_strlit("1");
        reveal_strlit("2");
        reveal_strlit("3");
        reveal_strlit("4");
        reveal_strlit("5");
        reveal_strlit("6");
        reveal_strlit("7");
        reveal_strlit("8");
        reveal_strlit("9");
    }
    if d == 0 {
        "0"
    } else if d == 1 {
        "1"
    } else if d == 2 {
        "2"
    } else if d == 3 {
        "3"
    } else if d == 4 {
        "4"
    } else if d == 5 {
        "5"
    } else if d == 6 {
        "6"
    } else if d == 7 {
        "7"
    } else if d == 8 {
        "8"
    } else {
        "9"
    }
}

/// Appends the decimal digits of `n` to `out`.
fn push_decimal(out: &mut String, n: u32)
    ensures
        final(out)@ == old(out)@ + decimal(n as nat),
    decreases n,
{
    if n >= 10 {
        push_decimal(out, n / 10);
    }
    out.append(digit_str(n % 10));
}

/// Appends the decimal text of `i` to `out`.
pub fn push_signed_decimal(out: &mut String, i: i32)
    ensures
        final(out)@ == old(out)@ + signed_decimal(i as int),
{
    if i < 0 {
        out.append("-");
        proof {
            reveal_strlit("-");
        }
        // The magnitude of the smallest `i32` does not fit in an `i32`.
        let magnitude: u32 = if i == i32::MIN {
            2147483648u32
        } else {
            (-i) as u32
        };
        push_decimal(out, magnitude);
    } else {
        push_decimal(out, i as u32);
    }
}

/// "user {id} not found".
pub fn not_found_message(id: i32) -> (message: String)
    ensures
        message@ == not_found_text(id),
{
    let mut message = String::from_str("user ");
    push_signed_decimal(&mut message, id);
    message.append(" not found");
    message
}

/// "deleted user {id}".
pub fn deleted_message(id: i32) -> (message: String)
    ensures
        message@ == deleted_text(id),
{
    let mut message = String::from_str("deleted user ");
    push_signed_decimal(&mut message, id);
    message
}

/// "db error: {error}".
pub fn db_error_message(error: &str) -> (message: String)
    ensures
        message@ == db_error_text(error@),
{
    let mut message = String::from_str("db error: ");
    message.append(error);
    message
}

/// "Hello {app_name}!".
pub fn greeting(app_name: &str) -> (message: String)
    ensures
        message@ == greeting_text(app_name@),
{
    let mut message = String::from_str("Hello ");
    message.append(app_name);
    message.append("!");
    message
}

} // verus!
