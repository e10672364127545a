//! Reading a note id from a line of text: the shape and value of a decimal
//! integer literal, and an executable parser proved against them.

use vstd::prelude::*;
use vstd::string::StrSliceExecFns;

verus! {

/// Is the character a decimal digit?
pub open spec fn is_digit_char(c: char) -> bool {
    '0' as int <= c as int <= '9' as int
}

/// The value of one digit character.
pub open spec fn digit_val(c: char) -> int {
    c as int - '0' as int
}

/// Are all characters decimal digits?
pub open spec fn all_digits(s: Seq<char>) -> bool {
    forall|i: int| 0 <= i < s.len() ==> is_digit_char(#[trigger] s[i])
}

/// The value of a digit string, read left to right.
pub open spec fn digits_val(s: Seq<char>) -> int
    decreases s.len(),
{
    if s.len() == 0 {
        0
    } else {
        10 * digits_val(s.drop_last()) + digit_val(s.last())
    }
}

/// The digits of an integer literal: everything after an optional leading
/// sign character.
pub open spec fn int_body(s: Seq<char>) -> Seq<char> {
    if s.len() > 0 && (s[0] == '+' || s[0] == '-') {
        s.drop_first()
    } else {
        s
    }
}

/// The sign an integer literal carries.
pub open spec fn int_sign(s: Seq<char>) -> int {
    if s.len() > 0 && s[0] == '-' {
        -1
    } else {
        1
    }
}

/// Has the string the shape of a decimal integer literal: an optional sign,
/// then one or more digits, nothing else?
pub open spec fn is_int_string(s: Seq<char>) -> bool {
    int_body(s).len() > 0 && all_digits(int_body(s))
}

/// What parsing the string as an `i32` yields: its signed value where the
/// shape is right and the value in range, nothing otherwise.
pub open spec fn parsed_i32(s: Seq<char>) -> Option<int> {
    if is_int_string(s) && i32::MIN <= int_sign(s) * digits_val(int_body(s)) <= i32::MAX {
        Some(int_sign(s) * digits_val(int_body(s)))
    } else {
        None
    }
}

/// A digit string's value is never negative.
proof fn lemma_digits_val_nonneg(s: Seq<char>)
    requires
        all_digits(s),
    ensures
        digits_val(s) >= 0,
    decreases s.len(),
{
    if s.len() > 0 {
        assert(all_digits(s.drop_last()));
        lemma_digits_val_nonneg(s.drop_last());
    }
}

/// Every prefix of a digit string has a value no larger than the whole.
proof fn lemma_digits_val_prefix(s: Seq<char>, k: int)
    requires
        all_digits(s),
        0 <= k <= s.len(),
    ensures
        digits_val(s.take(k)) <= digits_val(s),
    decreases s.len() - k,
{
    if k < s.len() {
        lemma_digits_val_prefix(s, k + 1);
        let t = s.take(k + 1);
        assert(t.drop_last() =~= s.take(k));
        assert(all_digits(s.take(k)));
        lemma_digits_val_nonneg(s.take(k));
        assert(digits_val(t) == 10 * digits_val(s.take(k)) + digit_val(t.last()));
    } else {
        assert(s.take(k) =~= s);
    }
}

/// The note id the user typed: `Some` exactly where the trimmed line is a
/// decimal integer literal whose value fits an `i32`.
pub fn parse_note_id(s: &str) -> (r: Option<i32>)
    ensures
        (match r {
            Some(v) => parsed_i32(s@) == Some(v as int),
            None => parsed_i32(s@) is None,
        }),
{
    let len = s.unicode_len();
    if len == 0 {
        return None;
    }
    let first = s.get_char(0);
    let neg: bool = first == '-';
    let start: usize = if first == '-' || first == '+' {
        1
    } else {
        0
    };
    if start == len {
        // a sign with no digits after it
        return None;
    }
    proof {
        assert(int_body(s@) =~= s@.subrange(start as int, len as int));
    }
    let ghost body = s@.subrange(start as int, len as int);
    let mut acc: u64 = 0;
    let mut i: usize = start;
    while i < len
        invariant
            start <= i <= len,
            len == s@.len(),
            start < len,
            body == s@.subrange(start as int, len as int),
            body == int_body(s@),
            all_digits(body.take(i - start)),
            acc == digits_val(body.take(i - start)),
            acc <= 0x8000_0000,
        decreases len - i,
    {
        let c = s.get_char(i);
        let cu = c as u32;
        if cu < 48 || cu > 57 {
            proof {
                assert(body[i - start] == c);
                assert(!is_digit_char(c));
                assert(!all_digits(body));
                assert(parsed_i32(s@) is None);
            }
            return None;
        }
        let d: u64 = (cu - 48) as u64;
        acc = acc * 10 + d;
        proof {
            let t = body.take(i - start + 1);
            assert(t.drop_last() =~= body.take(i - start));
            assert(t.last() == body[i - start]);
            assert(digit_val(body[i - start]) == d);
            assert(acc == digits_val(t));
        }
        if acc > 0x8000_0000 {
            proof {
                if is_int_string(s@) {
                    lemma_digits_val_prefix(body, i - start + 1);
                    assert(digits_val(body) >= acc > 0x8000_0000);
                    assert(parsed_i32(s@) is None);
                }
            }
            return None;
        }
        i += 1;
    }
    proof {
        assert(body.take(len - start) =~= body);
        assert(is_int_string(s@));
    }
    if neg {
        proof {
            assert(int_sign(s@) == -1);
        }
        if acc == 0x8000_0000 {
            Some(i32::MIN)
        } else {
            Some(-(acc as i32))
        }
    } else {
        proof {
            assert(int_sign(s@) == 1);
        }
        if acc > 0x7fff_ffff {
            proof {
                assert(parsed_i32(s@) is None);
            }
            None
        } else {
            Some(acc as i32)
        }
    }
}

} // verus!
