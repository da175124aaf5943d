//! Decimal parsing with the forecast fields' fallback: a field that is
//! missing, not a decimal integer, or out of range counts as zero.

use vstd::prelude::*;
use crate::chars::is_digit_char;
use crate::chars::spec_digit_char;
use crate::strutil::str_to_chars;

verus! {

/// Numeric value of a digit character.
pub open spec fn spec_digit_val(c: char) -> int {
    c as u32 - '0' as u32
}

pub open spec fn spec_all_digits(s: Seq<char>) -> bool {
    forall|i: int| 0 <= i < s.len() ==> spec_digit_char(#[trigger] s[i])
}

/// The value of a digit string, most significant digit first.
pub open spec fn spec_digits_val(s: Seq<char>) -> int
    decreases s.len(),
{
    if s.len() == 0 {
        0
    } else {
        spec_digits_val(s.drop_last()) * 10 + spec_digit_val(s.last())
    }
}

/// What `str::parse::<i32>` accepts: an optional sign, then one or more
/// decimal digits, with the value inside the 32-bit signed range.
pub open spec fn spec_i32_of_str(s: Seq<char>) -> Option<int> {
    if s.len() == 0 {
        None
    } else {
        let body = if s[0] == '-' || s[0] == '+' {
            s.drop_first()
        } else {
            s
        };
        if body.len() == 0 || !spec_all_digits(body) {
            None
        } else {
            let v = if s[0] == '-' {
                -spec_digits_val(body)
            } else {
                spec_digits_val(body)
            };
            if -2147483648 <= v <= 2147483647 {
                Some(v)
            } else {
                None
            }
        }
    }
}

/// The parsed value, or zero where parsing fails.
pub open spec fn spec_i32_or_zero(s: Seq<char>) -> int {
    match spec_i32_of_str(s) {
        Some(v) => v,
        None => 0,
    }
}

proof fn lemma_digits_val_nonneg(s: Seq<char>)
    requires
        spec_all_digits(s),
    ensures
        spec_digits_val(s) >= 0,
    decreases s.len(),
{
    if s.len() > 0 {
        assert(spec_all_digits(s.drop_last()));
        lemma_digits_val_nonneg(s.drop_last());
        assert(spec_digit_val(s.last()) >= 0);
    }
}

proof fn lemma_digits_val_prefix_le(s: Seq<char>, i: int)
    requires
        spec_all_digits(s),
        0 <= i <= s.len(),
    ensures
        spec_digits_val(s.subrange(0, i)) <= spec_digits_val(s),
    decreases s.len(),
{
    if i == s.len() {
        assert(s.subrange(0, i) =~= s);
    } else {
        let t = s.drop_last();
        assert(spec_all_digits(t));
        assert(s.subrange(0, i) =~= t.subrange(0, i));
        lemma_digits_val_prefix_le(t, i);
        lemma_digits_val_nonneg(t);
        assert(spec_digits_val(s) == spec_digits_val(t) * 10 + spec_digit_val(s.last()));
        assert(spec_digits_val(t) * 10 >= spec_digits_val(t));
        assert(spec_digit_val(s.last()) >= 0);
    }
}

/// Parses a signed decimal integer; anything unparseable or out of
/// range yields zero.
pub fn parse_i32_or_zero(s: &str) -> (r: i32)
    ensures
        r as int == spec_i32_or_zero(s@),
{
    let cs = str_to_chars(s);
    let n = cs.len();
    if n == 0 {
        return 0;
    }
    let c0 = cs[0];
    let neg = c0 == '-';
    let start: usize = if c0 == '-' || c0 == '+' {
        1
    } else {
        0
    };
    let ghost body = if s@[0] == '-' || s@[0] == '+' {
        s@.drop_first()
    } else {
        s@
    };
    proof {
        assert(body =~= cs@.subrange(start as int, n as int));
    }
    if n == start {
        return 0;
    }
    let mut acc: i64 = 0;
    let mut i = start;
    while i < n
        invariant
            cs@ == s@,
            n == cs@.len(),
            start <= i <= n,
            start < n,
            start <= 1,
            body == cs@.subrange(start as int, n as int),
            body == (if s@[0] == '-' || s@[0] == '+' {
                s@.drop_first()
            } else {
                s@
            }),
            neg == (s@[0] == '-'),
            (start == 1) == (s@[0] == '-' || s@[0] == '+'),
            spec_all_digits(cs@.subrange(start as int, i as int)),
            acc == spec_digits_val(cs@.subrange(start as int, i as int)),
            0 <= acc <= 2147483648,
        decreases n - i,
    {
        let c = cs[i];
        if !is_digit_char(c) {
            proof {
                assert(body[i - start as int] == c);
                assert(!spec_all_digits(body)) by {
                    assert(0 <= i - (start as int) && i - (start as int) < body.len());
                    assert(!spec_digit_char(body[i - start as int]));
                }
                assert(spec_i32_of_str(s@) is None);
            }
            return 0;
        }
        proof {
            assert(c as u32 >= '0' as u32);
            assert(c as u32 <= '9' as u32);
        }
        let d = (c as u32) - ('0' as u32);
        acc = acc * 10 + (d as i64);
        proof {
            let pre = cs@.subrange(start as int, i as int);
            let ext = cs@.subrange(start as int, i + 1 as int);
            assert(ext.drop_last() =~= pre);
            assert(ext.last() == c);
            assert(spec_all_digits(ext)) by {
                assert(forall|j: int| 0 <= j < ext.len() - 1 ==> #[trigger] ext[j] == pre[j]);
            }
            assert(spec_digits_val(ext) == spec_digits_val(pre) * 10 + spec_digit_val(c));
            assert(acc == spec_digits_val(ext));
        }
        i += 1;
        if acc > 2147483648 {
            proof {
                if spec_all_digits(body) {
                    lemma_digits_val_prefix_le(body, i - start as int);
                    assert(body.subrange(0, i - start as int) =~= cs@.subrange(
                        start as int,
                        i as int,
                    ));
                    assert(spec_digits_val(body) >= acc);
                    assert(spec_i32_of_str(s@) is None);
                } else {
                    assert(spec_i32_of_str(s@) is None);
                }
            }
            return 0;
        }
    }
    proof {
        assert(cs@.subrange(start as int, i as int) =~= body);
    }
    if neg {
        let v: i64 = -acc;
        proof {
            assert(-2147483648 <= v < 0 || v == 0);
        }
        v as i32
    } else {
        if acc > 2147483647 {
            return 0;
        }
        acc as i32
    }
}

} // verus!
