//! Parsing of the human-friendly time offset string.
//!
//! An offset is a non-negative decimal number with an optional one-letter
//! unit suffix: `s` seconds, `m` minutes, `h` hours, `d` days, in either
//! case. Without a suffix the number counts seconds. A string whose numeric
//! portion is empty or not all digits, or whose scaled value does not fit in
//! `u64`, is rejected.

use vstd::prelude::*;
use vstd::string::StrSliceExecFns;

use crate::errors::ConfigError;

verus! {

/// The value of a single decimal digit character, `None` for any other char.
pub open spec fn digit_val(c: char) -> Option<int> {
    if c == '0' {
        Some(0int)
    } else if c == '1' {
        Some(1int)
    } else if c == '2' {
        Some(2int)
    } else if c == '3' {
        Some(3int)
    } else if c == '4' {
        Some(4int)
    } else if c == '5' {
        Some(5int)
    } else if c == '6' {
        Some(6int)
    } else if c == '7' {
        Some(7int)
    } else if c == '8' {
        Some(8int)
    } else if c == '9' {
        Some(9int)
    } else {
        None
    }
}

/// A non-empty sequence of decimal digit characters.
pub open spec fn is_digits(s: Seq<char>) -> bool {
    s.len() > 0 && forall|i: int| 0 <= i < s.len() ==> digit_val(#[trigger] s[i]) is Some
}

/// The number written by a sequence of decimal digits, most significant first.
pub open spec fn digits_val(s: Seq<char>) -> int
    decreases s.len(),
{
    if s.len() == 0 {
        0
    } else {
        digits_val(s.drop_last()) * 10 + digit_val(s.last())->Some_0
    }
}

/// Seconds per unit named by a suffix character, `None` if it names no unit.
pub open spec fn suffix_scale(c: char) -> Option<int> {
    if c == 's' || c == 'S' {
        Some(1int)
    } else if c == 'm' || c == 'M' {
        Some(60int)
    } else if c == 'h' || c == 'H' {
        Some(3600int)
    } else if c == 'd' || c == 'D' {
        Some(86400int)
    } else {
        None
    }
}

/// The numeric portion of an offset string: everything before a recognized
/// unit suffix, or the whole string when there is none.
pub open spec fn offset_digits(s: Seq<char>) -> Seq<char> {
    if s.len() > 0 && suffix_scale(s.last()) is Some {
        s.drop_last()
    } else {
        s
    }
}

/// The scale named by an offset string's suffix, 1 when there is none.
pub open spec fn offset_scale(s: Seq<char>) -> int {
    if s.len() > 0 && suffix_scale(s.last()) is Some {
        suffix_scale(s.last())->Some_0
    } else {
        1
    }
}

/// An offset string is accepted exactly when its numeric portion is a
/// non-empty run of digits and the scaled value fits in `u64`.
pub open spec fn offset_valid(s: Seq<char>) -> bool {
    is_digits(offset_digits(s)) && digits_val(offset_digits(s)) * offset_scale(s) <= u64::MAX
}

/// The number of seconds an accepted offset string denotes.
pub open spec fn offset_seconds(s: Seq<char>) -> int {
    digits_val(offset_digits(s)) * offset_scale(s)
}

/// A run of digits never denotes a negative number.
pub proof fn lemma_digits_val_nonneg(s: Seq<char>)
    requires
        forall|i: int| 0 <= i < s.len() ==> digit_val(#[trigger] s[i]) is Some,
    ensures
        digits_val(s) >= 0,
    decreases s.len(),
{
    if s.len() > 0 {
        lemma_digits_val_nonneg(s.drop_last());
    }
}

/// Law: for an offset string that carries a recognized unit suffix
/// (`s`, `m`, `h` or `d`, either case), the accepted value is the number
/// written by the prefix, scaled by 1, 60, 3600 or 86400 respectively.
pub proof fn lemma_offset_suffix(s: Seq<char>)
    requires
        s.len() > 0,
        suffix_scale(s.last()) is Some,
    ensures
        offset_digits(s) == s.drop_last(),
        offset_scale(s) == suffix_scale(s.last())->Some_0,
        offset_valid(s) ==> offset_seconds(s) == digits_val(s.drop_last())
            * suffix_scale(s.last())->Some_0,
{
}

/// The value of a digit character, executable form.
fn digit_of(c: char) -> (r: Option<u64>)
    ensures
        r is Some <==> digit_val(c) is Some,
        r is Some ==> r->0 == digit_val(c)->Some_0,
{
    match c {
        '0' => Some(0),
        '1' => Some(1),
        '2' => Some(2),
        '3' => Some(3),
        '4' => Some(4),
        '5' => Some(5),
        '6' => Some(6),
        '7' => Some(7),
        '8' => Some(8),
        '9' => Some(9),
        _ => None,
    }
}

/// Parse the offset string into a count of seconds.
///
/// Returns `Ok` exactly on the strings `offset_valid` accepts, with the value
/// `offset_seconds` gives; every rejected string yields
/// [`ConfigError::BadOffset`]. The empty string is rejected, as is one that
/// is only a suffix.
pub fn get_seconds(timestring: &str) -> (r: Result<u64, ConfigError>)
    ensures
        r is Ok <==> offset_valid(timestring@),
        r is Ok ==> r->Ok_0 == offset_seconds(timestring@),
        r is Err ==> r->Err_0 == ConfigError::BadOffset,
{
    let n = timestring.unicode_len();
    let ghost view = timestring@;
    let mut digits_end = n;
    let mut scale: u64 = 1;
    if n > 0 {
        let last = timestring.get_char(n - 1);
        match last {
            's' | 'S' => {
                digits_end = n - 1;
                scale = 1;
            },
            'm' | 'M' => {
                digits_end = n - 1;
                scale = 60;
            },
            'h' | 'H' => {
                digits_end = n - 1;
                scale = 3600;
            },
            'd' | 'D' => {
                digits_end = n - 1;
                scale = 86400;
            },
            _ => {},
        }
    }
    proof {
        assert(offset_digits(view) =~= view.subrange(0, digits_end as int));
        assert(offset_scale(view) == scale as int);
    }
    if digits_end == 0 {
        return Err(ConfigError::BadOffset);
    }
    let mut acc: u64 = 0;
    let mut big = false;
    let mut i: usize = 0;
    while i < digits_end
        invariant
            0 < digits_end <= view.len(),
            i <= digits_end,
            view == timestring@,
            offset_digits(view) == view.subrange(0, digits_end as int),
            offset_scale(view) == scale as int,
            forall|j: int| 0 <= j < i ==> digit_val(#[trigger] view[j]) is Some,
            !big ==> acc == digits_val(view.subrange(0, i as int)),
            big ==> digits_val(view.subrange(0, i as int)) > u64::MAX,
        decreases digits_end - i,
    {
        let c = timestring.get_char(i);
        let ghost prefix = view.subrange(0, i as int);
        let ghost next_prefix = view.subrange(0, i + 1);
        proof {
            assert(next_prefix.drop_last() =~= prefix);
            assert(next_prefix.last() == view[i as int]);
        }
        match digit_of(c) {
            None => {
                proof {
                    assert(offset_digits(view)[i as int] == c);
                    assert(digit_val(offset_digits(view)[i as int]) is None);
                    assert(!is_digits(offset_digits(view)));
                }
                return Err(ConfigError::BadOffset);
            },
            Some(d) => {
                proof {
                    lemma_digits_val_nonneg(prefix);
                    assert(digits_val(next_prefix) == digits_val(prefix) * 10 + d);
                }
                if big {
                    proof {
                        assert(digits_val(prefix) * 10 >= digits_val(prefix)) by (nonlinear_arith)
                            requires
                                digits_val(prefix) >= 0,
                        ;
                    }
                } else {
                    match acc.checked_mul(10) {
                        None => {
                            big = true;
                        },
                        Some(t) => {
                            match t.checked_add(d) {
                                None => {
                                    big = true;
                                },
                                Some(v) => {
                                    acc = v;
                                },
                            }
                        },
                    }
                }
            },
        }
        i += 1;
    }
    proof {
        assert(view.subrange(0, digits_end as int) == offset_digits(view));
        assert(is_digits(offset_digits(view)));
    }
    if big {
        proof {
            lemma_digits_val_nonneg(offset_digits(view));
            assert(digits_val(offset_digits(view)) * scale >= digits_val(offset_digits(view)))
                by (nonlinear_arith)
                requires
                    digits_val(offset_digits(view)) >= 0,
                    scale >= 1,
            ;
        }
        return Err(ConfigError::BadOffset);
    }
    match acc.checked_mul(scale) {
        None => Err(ConfigError::BadOffset),
        Some(v) => Ok(v),
    }
}

} // verus!
