//! Reading the duration that the prober prints: decimal seconds, rounded to
//! whole milliseconds.
use vstd::prelude::*;
use vstd::string::*;

use crate::text::{all_digits, decimal_value, digit_value, is_digit, parse_digits};

verus! {

/// Whether `c` is white space that may end the prober's output.
pub open spec fn is_space(c: char) -> bool {
    c == ' ' || c == '\n' || c == '\r' || c == '\t'
}

/// `s` without its trailing white space.
pub open spec fn trim_end(s: Seq<char>) -> Seq<char>
    decreases s.len(),
{
    if s.len() > 0 && is_space(s.last()) {
        trim_end(s.drop_last())
    } else {
        s
    }
}

/// The value of digit `i` of `f`, or zero past its end.
pub open spec fn digit_or_zero(f: Seq<char>, i: int) -> nat {
    if 0 <= i < f.len() {
        digit_value(f[i])
    } else {
        0
    }
}

/// The fraction digits `f` of a second in milliseconds, rounded half up.
pub open spec fn fraction_millis(f: Seq<char>) -> nat {
    100 * digit_or_zero(f, 0) + 10 * digit_or_zero(f, 1) + digit_or_zero(f, 2) + if digit_or_zero(
        f,
        3,
    ) >= 5 {
        1nat
    } else {
        0nat
    }
}

/// `t` is digits, a `.` at `p`, and digits.
pub open spec fn is_decimal_at(t: Seq<char>, p: int) -> bool {
    &&& 0 < p < t.len()
    &&& t[p] == '.'
    &&& all_digits(t.subrange(0, p))
    &&& all_digits(t.subrange(p + 1, t.len() as int))
}

/// The duration, in milliseconds rounded half up, that the text `s` writes
/// as decimal seconds (`12`, `12.` or `12.3456`, white space after it
/// allowed); `None` for text of another shape.
pub open spec fn duration_millis(s: Seq<char>) -> Option<nat> {
    let t = trim_end(s);
    if t.len() > 0 && all_digits(t) {
        Some(decimal_value(t) * 1000)
    } else if exists|p: int| is_decimal_at(t, p) {
        let p = choose|p: int| is_decimal_at(t, p);
        Some(
            decimal_value(t.subrange(0, p)) * 1000 + fraction_millis(
                t.subrange(p + 1, t.len() as int),
            ),
        )
    } else {
        None
    }
}

fn is_space_char(c: char) -> (r: bool)
    ensures
        r == is_space(c),
{
    c == ' ' || c == '\n' || c == '\r' || c == '\t'
}

fn is_digit_char(c: char) -> (r: bool)
    ensures
        r == is_digit(c),
{
    '0' <= c && c <= '9'
}

proof fn lemma_trim_prefix(s: Seq<char>, end: int)
    requires
        0 <= end <= s.len(),
        forall|i: int| end <= i < s.len() ==> is_space(#[trigger] s[i]),
    ensures
        trim_end(s) == trim_end(s.subrange(0, end)),
    decreases s.len(),
{
    if end < s.len() {
        assert(is_space(s[s.len() - 1]));
        assert(s.drop_last().subrange(0, end) =~= s.subrange(0, end));
        lemma_trim_prefix(s.drop_last(), end);
    } else {
        assert(s.subrange(0, end) =~= s);
    }
}

/// The digit of `s` at `i`, or zero past `end`.
fn digit_at(s: &str, i: usize, end: usize) -> (r: u64)
    requires
        end <= s@.len(),
        i + 1 <= end ==> is_digit(s@[i as int]),
    ensures
        i < end ==> r == digit_value(s@[i as int]),
        i >= end ==> r == 0,
        r < 10,
{
    if i < end {
        let c = s.get_char(i);
        (c as u32 - '0' as u32) as u64
    } else {
        0
    }
}

/// Reads the prober's duration output into milliseconds, rounded half up;
/// `None` for text of another shape or a duration beyond `u64`.
pub fn parse_probe_duration(s: &str) -> (r: Option<u64>)
    ensures
        match duration_millis(s@) {
            Some(v) => if v <= u64::MAX {
                r == Some(v as u64)
            } else {
                r is None
            },
            None => r is None,
        },
{
    let n = s.unicode_len();
    let mut end: usize = n;
    loop
        invariant
            end <= n == s@.len(),
            forall|i: int| end <= i < n ==> is_space(#[trigger] s@[i]),
        ensures
            end <= n == s@.len(),
            forall|i: int| end <= i < n ==> is_space(#[trigger] s@[i]),
            end == 0 || !is_space(s@[end - 1]),
        decreases end,
    {
        if end == 0 {
            break;
        }
        if !is_space_char(s.get_char(end - 1)) {
            break;
        }
        end = end - 1;
    }
    let ghost t = s@.subrange(0, end as int);
    proof {
        lemma_trim_prefix(s@, end as int);
        if end > 0 {
            assert(t.last() == s@[end - 1]);
        }
        assert(trim_end(t) == t);
    }
    let mut p: usize = 0;
    while p < end
        invariant
            p <= end <= s@.len(),
            t == s@.subrange(0, end as int),
            all_digits(t.subrange(0, p as int)),
        ensures
            p <= end <= s@.len(),
            t == s@.subrange(0, end as int),
            all_digits(t.subrange(0, p as int)),
            p == end || !is_digit(s@[p as int]),
        decreases end - p,
    {
        if !is_digit_char(s.get_char(p)) {
            break;
        }
        p = p + 1;
        assert(all_digits(t.subrange(0, p as int))) by {
            assert forall|i: int| 0 <= i < p implies is_digit(#[trigger] t.subrange(0, p as int)[i]) by {
                if i < p - 1 {
                    assert(t.subrange(0, p as int)[i] == t.subrange(0, p - 1)[i]);
                }
            }
        }
    }
    proof {
        assert forall|q: int| #[trigger] is_decimal_at(t, q) implies q == p by {
            if q < p {
                assert(t.subrange(0, p as int)[q] == t[q]);
            } else if q > p {
                assert(t.subrange(0, q)[p as int] == t[p as int]);
                assert(t[p as int] == s@[p as int]);
            }
        }
    }
    if p == end {
        proof {
            assert(t.subrange(0, p as int) =~= t);
            assert(s@.subrange(0, end as int) =~= t);
        }
        if end == 0 {
            return None;
        }
        return match parse_digits(s, 0, end) {
            Some(v) => v.checked_mul(1000),
            None => None,
        };
    }
    if p == 0 || s.get_char(p) != '.' {
        proof {
            assert(!all_digits(t)) by {
                assert(t[p as int] == s@[p as int]);
            }
        }
        return None;
    }
    let mut q: usize = p + 1;
    #[verifier::loop_isolation(false)]
    while q < end
        invariant
            p < q <= end <= s@.len(),
            t == s@.subrange(0, end as int),
            all_digits(t.subrange(p + 1, q as int)),
        decreases end - q,
    {
        if !is_digit_char(s.get_char(q)) {
            proof {
                assert(!all_digits(t.subrange(p + 1, end as int))) by {
                    assert(t.subrange(p + 1, end as int)[q - p - 1] == s@[q as int]);
                }
                assert(!all_digits(t)) by {
                    assert(t[p as int] == s@[p as int]);
                }
            }
            return None;
        }
        q = q + 1;
        assert(all_digits(t.subrange(p + 1, q as int))) by {
            assert forall|i: int| 0 <= i < q - p - 1 implies is_digit(
                #[trigger] t.subrange(p + 1, q as int)[i],
            ) by {
                if i < q - p - 2 {
                    assert(t.subrange(p + 1, q as int)[i] == t.subrange(p + 1, q - 1)[i]);
                }
            }
        }
    }
    let ghost f = t.subrange(p + 1, end as int);
    proof {
        assert(is_decimal_at(t, p as int));
        assert(!all_digits(t)) by {
            assert(t[p as int] == s@[p as int]);
        }
    }
    let d0 = digit_at(s, p + 1, end);
    let d1 = if end - p >= 2 { digit_at(s, p + 2, end) } else { 0 };
    let d2 = if end - p >= 3 { digit_at(s, p + 3, end) } else { 0 };
    let d3 = if end - p >= 4 { digit_at(s, p + 4, end) } else { 0 };
    proof {
        assert(d0 == digit_or_zero(f, 0)) by {
            if 0 < f.len() {
                assert(f[0] == s@[p + 1]);
            }
        }
        assert(d1 == digit_or_zero(f, 1)) by {
            if 1 < f.len() {
                assert(f[1] == s@[p + 2]);
            }
        }
        assert(d2 == digit_or_zero(f, 2)) by {
            if 2 < f.len() {
                assert(f[2] == s@[p + 3]);
            }
        }
        assert(d3 == digit_or_zero(f, 3)) by {
            if 3 < f.len() {
                assert(f[3] == s@[p + 4]);
            }
        }
    }
    let fraction: u64 = 100 * d0 + 10 * d1 + d2 + if d3 >= 5 {
        1
    } else {
        0
    };
    proof {
        assert(s@.subrange(0, p as int) =~= t.subrange(0, p as int));
    }
    match parse_digits(s, 0, p) {
        Some(whole) => match whole.checked_mul(1000) {
            Some(w) => w.checked_add(fraction),
            None => None,
        },
        None => None,
    }
}

} // verus!
