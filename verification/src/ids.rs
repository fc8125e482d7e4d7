//! Identifier formatting: the decimal rendering of a timestamp under the
//! fixed resume prefix.

use vstd::prelude::*;
use vstd::string::StringExecFns;

verus! {

/// The decimal digit character for a value below ten.
pub open spec fn digit_char(d: int) -> char {
    if d == 0 {
        '0'
    } else if d == 1 {
        '1'
    } else if d == 2 {
        '2'
    } else if d == 3 {
        '3'
    } else if d == 4 {
        '4'
    } else if d == 5 {
        '5'
    } else if d == 6 {
        '6'
    } else if d == 7 {
        '7'
    } else if d == 8 {
        '8'
    } else {
        '9'
    }
}

/// Decimal digits of a non-negative number, most significant first, without
/// leading zeros (zero itself is "0").
pub open spec fn dec_chars(n: int) -> Seq<char>
    decreases n,
{
    if n < 10 {
        seq![digit_char(n)]
    } else {
        dec_chars(n / 10).push(digit_char(n % 10))
    }
}

/// Decimal representation of a number, sign included.
pub open spec fn int_chars(n: int) -> Seq<char> {
    if n < 0 {
        seq!['-'] + dec_chars(-n)
    } else {
        dec_chars(n)
    }
}

/// A resume identifier: the timestamp under the fixed prefix.
pub open spec fn resume_id_chars(millis: int) -> Seq<char> {
    "resume_"@ + int_chars(millis)
}

/// The one-character string of a decimal digit.
fn digit_str(d: u64) -> (r: &'static str)
    requires
        d < 10,
    ensures
        r@ == seq![digit_char(d as int)],
{
    proof {
        reveal_strlit("0");
        reveal_strlit("1");
        reveal_strlit("2");
        reveal_strlit("3");
        reveal_strlit("4");
        reveal_strlit("5");
        reveal_strlit("6");
        reveal_strlit("7");
        reveal_strlit("8");
        reveal_strlit("9");
    }
    let s = match d {
        0 => "0",
        1 => "1",
        2 => "2",
        3 => "3",
        4 => "4",
        5 => "5",
        6 => "6",
        7 => "7",
        8 => "8",
        _ => "9",
    };
    proof {
        assert(s@ =~= seq![digit_char(d as int)]);
    }
    s
}

/// Append the decimal digits of `n`.
fn append_dec(out: &mut String, n: u64)
    ensures
        final(out)@ == old(out)@ + dec_chars(n as int),
    decreases n,
{
    if n < 10 {
        out.append(digit_str(n));
        proof {
            assert(final(out)@ =~= old(out)@ + dec_chars(n as int));
        }
    } else {
        append_dec(out, n / 10);
        out.append(digit_str(n % 10));
        proof {
            assert((n / 10) as int == n as int / 10);
            assert((n % 10) as int == n as int % 10);
            assert(final(out)@ =~= old(out)@ + dec_chars(n as int));
        }
    }
}

/// The identifier assigned to an upload: "resume_" followed by the decimal
/// milliseconds-since-epoch timestamp handed in.
pub fn resume_id_for(millis: i64) -> (r: String)
    ensures
        r@ == resume_id_chars(millis as int),
{
    let mut s = String::from_str("resume_");
    if millis < 0 {
        s.append("-");
        let mag: u64 = (-(millis as i128)) as u64;
        proof {
            reveal_strlit("-");
            assert(mag as int == -(millis as int));
        }
        append_dec(&mut s, mag);
        proof {
            assert(s@ =~= resume_id_chars(millis as int));
        }
    } else {
        append_dec(&mut s, millis as u64);
        proof {
            assert(s@ =~= resume_id_chars(millis as int));
        }
    }
    s
}

} // verus!
