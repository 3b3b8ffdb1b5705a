//! Building the per-direction log line for a finished relay: decimal
//! formatting of byte counts, verified against a character-level model.

use vstd::prelude::*;
use vstd::string::StringExecFns;

use crate::transfer::TransferError;

verus! {

/// The character of one decimal digit.
pub open spec fn spec_digit_char(d: nat) -> char {
    if d == 0 {
        '0'
    } else if d == 1 {
        '1'
    } else if d == 2 {
        '2'
    } else if d == 3 {
        '3'
    } else if d == 4 {
        '4'
    } else if d == 5 {
        '5'
    } else if d == 6 {
        '6'
    } else if d == 7 {
        '7'
    } else if d == 8 {
        '8'
    } else {
        '9'
    }
}

/// The decimal digit characters of `n`, most significant first, with no
/// leading zeros (a single zero for `n == 0`).
pub open spec fn spec_decimal(n: nat) -> Seq<char>
    decreases n,
{
    if n < 10 {
        seq![spec_digit_char(n)]
    } else {
        spec_decimal(n / 10) + seq![spec_digit_char(n % 10)]
    }
}

/// The one-character string of a decimal digit.
fn digit_str(d: usize) -> (s: &'static str)
    requires
        d < 10,
    ensures
        s@ == seq![spec_digit_char(d as nat)],
{
    proof {
        reveal_strlit("0");
        reveal_strlit("1");
        reveal_strlit("2");
        reveal_strlit("3");
        reveal_strlit("4");
        reveal_strlit("5");
        reveal_strlit("6");
        reveal_strlit("7");
        reveal_strlit("8");
        reveal_strlit("9");
    }
    let s = if d == 0 {
        "0"
    } else if d == 1 {
        "1"
    } else if d == 2 {
        "2"
    } else if d == 3 {
        "3"
    } else if d == 4 {
        "4"
    } else if d == 5 {
        "5"
    } else if d == 6 {
        "6"
    } else if d == 7 {
        "7"
    } else if d == 8 {
        "8"
    } else {
        "9"
    };
    proof {
        assert(s@ =~= seq![spec_digit_char(d as nat)]);
    }
    s
}

/// Append the decimal digits of `n` to `out`.
pub fn push_decimal(out: &mut String, n: usize)
    ensures
        final(out)@ == old(out)@ + spec_decimal(n as nat),
    decreases n,
{
    if n >= 10 {
        push_decimal(out, n / 10);
        out.append(digit_str(n % 10));
        proof {
            assert(out@ =~= old(out)@ + spec_decimal(n as nat));
        }
    } else {
        out.append(digit_str(n));
        proof {
            assert(out@ =~= old(out)@ + spec_decimal(n as nat));
        }
    }
}

/// The log line fragment for one relay direction: the label, the byte count,
/// and for a failed direction the failure message in parentheses.
pub fn bytes_string(result: Result<usize, TransferError>, message: &str) -> (s: String)
    ensures
        (match result {
            Ok(count) => s@ == message@ + spec_decimal(count as nat),
            Err(error) => s@ == message@ + spec_decimal(error.count as nat) + " (error: "@
                + error.message@ + ")"@,
        }),
{
    let mut s = message.to_owned();
    match result {
        Ok(count) => {
            push_decimal(&mut s, count);
            s
        },
        Err(error) => {
            push_decimal(&mut s, error.count);
            s.append(" (error: ");
            s.append(error.message.as_str());
            s.append(")");
            proof {
                assert(s@ =~= message@ + spec_decimal(error.count as nat) + " (error: "@
                    + error.message@ + ")"@);
            }
            s
        },
    }
}

} // verus!
