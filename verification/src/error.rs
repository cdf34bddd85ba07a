//! Errors the decoder can report, and the text of the protocol error for an
//! invalid declared length.

use vstd::prelude::*;
use vstd::string::StringExecFns;

verus! {

/// Errors the decoder can report.
#[derive(Debug, PartialEq, Eq)]
pub enum Error {
    /// The remote peer violated the wire protocol; the message names the
    /// offending declared length. Non-retryable.
    Protocol(String),
    /// The byte source ran out before the declared field was complete.
    UnexpectedEof,
}

/// The character for a single decimal digit.
pub open spec fn digit_char(d: int) -> char {
    if d == 0 {
        '0'
    } else if d == 1 {
        '1'
    } else if d == 2 {
        '2'
    } else if d == 3 {
        '3'
    } else if d == 4 {
        '4'
    } else if d == 5 {
        '5'
    } else if d == 6 {
        '6'
    } else if d == 7 {
        '7'
    } else if d == 8 {
        '8'
    } else {
        '9'
    }
}

/// The decimal digits of `n`, most significant first, with no leading zero
/// except for `n == 0` itself.
pub open spec fn decimal_digits(n: nat) -> Seq<char>
    decreases n,
{
    if n < 10 {
        seq![digit_char(n as int)]
    } else {
        decimal_digits(n / 10).push(digit_char((n % 10) as int))
    }
}

/// The text of the protocol error reported for a declared length that is not
/// a valid monetary field length.
pub open spec fn invalid_length_message(len: u8) -> Seq<char> {
    "money: length of "@ + decimal_digits(len as nat) + " is invalid"@
}

/// Appends the character for one decimal digit.
fn push_digit(s: &mut String, d: u8)
    requires
        d < 10,
    ensures
        final(s)@ == old(s)@.push(digit_char(d as int)),
{
    let t: &str = if d == 0 {
        "0"
    } else if d == 1 {
        "1"
    } else if d == 2 {
        "2"
    } else if d == 3 {
        "3"
    } else if d == 4 {
        "4"
    } else if d == 5 {
        "5"
    } else if d == 6 {
        "6"
    } else if d == 7 {
        "7"
    } else if d == 8 {
        "8"
    } else {
        "9"
    };
    proof {
        reveal_strlit("0");
        reveal_strlit("1");
        reveal_strlit("2");
        reveal_strlit("3");
        reveal_strlit("4");
        reveal_strlit("5");
        reveal_strlit("6");
        reveal_strlit("7");
        reveal_strlit("8");
        reveal_strlit("9");
    }
    s.append(t);
    proof {
        assert(final(s)@ =~= old(s)@.push(digit_char(d as int)));
    }
}

/// Appends the decimal digits of `n`, most significant first.
fn append_decimal(s: &mut String, n: u8)
    ensures
        final(s)@ == old(s)@ + decimal_digits(n as nat),
{
    if n >= 100 {
        push_digit(s, n / 100);
        push_digit(s, (n / 10) % 10);
        push_digit(s, n % 10);
        proof {
            assert(n / 10 / 10 == n / 100) by (nonlinear_arith);
            assert(decimal_digits((n / 10) as nat) == decimal_digits(
                (n / 100) as nat,
            ).push(digit_char((n / 10 % 10) as int)));
            assert(decimal_digits((n / 100) as nat) == seq![digit_char((n / 100) as int)]);
            assert(final(s)@ =~= old(s)@ + decimal_digits(n as nat));
        }
    } else if n >= 10 {
        push_digit(s, n / 10);
        push_digit(s, n % 10);
        proof {
            assert(decimal_digits((n / 10) as nat) == seq![digit_char((n / 10) as int)]);
            assert(final(s)@ =~= old(s)@ + decimal_digits(n as nat));
        }
    } else {
        push_digit(s, n);
        proof {
            assert(final(s)@ =~= old(s)@ + decimal_digits(n as nat));
        }
    }
}

/// Builds the message of the protocol error for an invalid declared length.
pub fn invalid_length_text(len: u8) -> (s: String)
    ensures
        s@ == invalid_length_message(len),
{
    let mut s = String::from_str("money: length of ");
    append_decimal(&mut s, len);
    s.append(" is invalid");
    proof {
        assert(s@ =~= invalid_length_message(len));
    }
    s
}

} // verus!
