//! Decimal rendering of the integers that appear in a note's summary:
//! plain signed values for ids, zero-padded fields for the timestamp.

use vstd::prelude::*;
use vstd::string::StringExecFns;

verus! {

/// The character for one decimal digit.
pub open spec fn digit_char(d: nat) -> char {
    if d == 0 {
        '0'
    } else if d == 1 {
        '1'
    } else if d == 2 {
        '2'
    } else if d == 3 {
        '3'
    } else if d == 4 {
        '4'
    } else if d == 5 {
        '5'
    } else if d == 6 {
        '6'
    } else if d == 7 {
        '7'
    } else if d == 8 {
        '8'
    } else {
        '9'
    }
}

/// Decimal rendering of a nonnegative integer, most significant digit first,
/// no leading zeros (a single zero for zero itself).
pub open spec fn dec_digits(n: nat) -> Seq<char>
    decreases n,
{
    if n < 10 {
        seq![digit_char(n)]
    } else {
        dec_digits(n / 10) + seq![digit_char(n % 10)]
    }
}

/// Decimal rendering of a signed integer: a minus sign before the magnitude.
pub open spec fn dec_int(v: int) -> Seq<char> {
    if v < 0 {
        seq!['-'] + dec_digits((-v) as nat)
    } else {
        dec_digits(v as nat)
    }
}

/// Decimal rendering zero-padded to at least two places.
pub open spec fn dec_pad2(n: nat) -> Seq<char> {
    if n < 10 {
        seq!['0'] + dec_digits(n)
    } else {
        dec_digits(n)
    }
}

/// Decimal rendering zero-padded to at least four places.
pub open spec fn dec_pad4(n: nat) -> Seq<char> {
    if n < 10 {
        seq!['0', '0', '0'] + dec_digits(n)
    } else if n < 100 {
        seq!['0', '0'] + dec_digits(n)
    } else if n < 1000 {
        seq!['0'] + dec_digits(n)
    } else {
        dec_digits(n)
    }
}

/// A calendar year, zero-padded to four places, with a minus sign in front
/// for a year before the common era.
pub open spec fn dec_year(y: int) -> Seq<char> {
    if y < 0 {
        seq!['-'] + dec_pad4((-y) as nat)
    } else {
        dec_pad4(y as nat)
    }
}

/// The one-character string for one decimal digit.
fn digit_str(d: u64) -> (r: &'static str)
    requires
        d < 10,
    ensures
        r@ == seq![digit_char(d as nat)],
{
    let r = match d {
        0 => "0",
        1 => "1",
        2 => "2",
        3 => "3",
        4 => "4",
        5 => "5",
        6 => "6",
        7 => "7",
        8 => "8",
        _ => "9",
    };
    proof {
        reveal_strlit("0");
        reveal_strlit("1");
        reveal_strlit("2");
        reveal_strlit("3");
        reveal_strlit("4");
        reveal_strlit("5");
        reveal_strlit("6");
        reveal_strlit("7");
        reveal_strlit("8");
        reveal_strlit("9");
        assert(r@ =~= seq![digit_char(d as nat)]);
    }
    r
}

/// Plain decimal rendering of a nonnegative value.
pub fn render_u64(n: u64) -> (r: String)
    ensures
        r@ == dec_digits(n as nat),
    decreases n,
{
    if n < 10 {
        digit_str(n).to_owned()
    } else {
        let mut s = render_u64(n / 10);
        s.append(digit_str(n % 10));
        proof {
            assert(s@ =~= dec_digits(n as nat));
        }
        s
    }
}

/// Plain decimal rendering of a signed value, sign included.
pub fn render_i32(v: i32) -> (r: String)
    ensures
        r@ == dec_int(v as int),
{
    if v < 0 {
        let mag: u64 = (-(v as i64)) as u64;
        let mut s = "-".to_owned();
        proof {
            reveal_strlit("-");
        }
        let digits = render_u64(mag);
        s.append(digits.as_str());
        proof {
            assert(s@ =~= dec_int(v as int));
        }
        s
    } else {
        render_u64(v as u64)
    }
}

/// Decimal rendering zero-padded to two places.
pub fn render_pad2(n: u32) -> (r: String)
    requires
        n < 100,
    ensures
        r@ == dec_pad2(n as nat),
{
    if n < 10 {
        let mut s = "0".to_owned();
        proof {
            reveal_strlit("0");
        }
        s.append(digit_str(n as u64));
        proof {
            assert(s@ =~= dec_pad2(n as nat));
        }
        s
    } else {
        render_u64(n as u64)
    }
}

/// Decimal rendering zero-padded to four places.
pub fn render_pad4(n: u64) -> (r: String)
    ensures
        r@ == dec_pad4(n as nat),
{
    if n < 10 {
        let mut s = "000".to_owned();
        proof {
            reveal_strlit("000");
        }
        s.append(digit_str(n));
        proof {
            assert(s@ =~= dec_pad4(n as nat));
        }
        s
    } else if n < 1000 {
        let prefix = if n < 100 {
            let p = "00";
            proof {
                reveal_strlit("00");
            }
            p
        } else {
            let p = "0";
            proof {
                reveal_strlit("0");
            }
            p
        };
        let mut s = prefix.to_owned();
        let digits = render_u64(n);
        s.append(digits.as_str());
        proof {
            assert(s@ =~= dec_pad4(n as nat));
        }
        s
    } else {
        render_u64(n)
    }
}

/// A year, zero-padded to four places, minus sign first where negative.
pub fn render_year(y: i32) -> (r: String)
    ensures
        r@ == dec_year(y as int),
{
    if y < 0 {
        let mag: u64 = (-(y as i64)) as u64;
        let mut s = "-".to_owned();
        proof {
            reveal_strlit("-");
        }
        let digits = render_pad4(mag);
        s.append(digits.as_str());
        proof {
            assert(s@ =~= dec_year(y as int));
        }
        s
    } else {
        render_pad4(y as u64)
    }
}

} // verus!
