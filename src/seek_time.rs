//! The `HH:MM:SS.ffffff` seek offsets handed to the decoder, and their parser.
use vstd::prelude::*;
use vstd::string::*;
use vstd::arithmetic::div_mod::{
    lemma_div_by_multiple, lemma_div_is_ordered, lemma_div_pos_is_pos, lemma_fundamental_div_mod,
    lemma_mod_pos_bound,
};

use crate::text::{
    all_digits, append_padded, decimal_value, digit_value, is_digit, lemma_padded_decimal, padded_decimal,
    parse_digits, pow10,
};

verus! {

/// Whole hours in `ms` milliseconds.
pub open spec fn hours_of(ms: nat) -> nat {
    ms / 3_600_000
}

/// Minutes past the hour.
pub open spec fn minutes_of(ms: nat) -> nat {
    (ms % 3_600_000) / 60_000
}

/// Seconds past the minute.
pub open spec fn seconds_of(ms: nat) -> nat {
    ((ms % 3_600_000) % 60_000) / 1000
}

/// Milliseconds past the second.
pub open spec fn millis_of(ms: nat) -> nat {
    ((ms % 3_600_000) % 60_000) % 1000
}

/// The seek offset of `ms` milliseconds as text: hours (left out when zero)
/// and minutes and seconds, each of at least two digits, separated by `:`,
/// then `.` and the fraction of the second in six digits.
pub open spec fn seek_time_text(ms: nat) -> Seq<char> {
    let hours = hours_of(ms);
    (if hours > 0 {
        padded_decimal(hours, 2) + seq![':']
    } else {
        Seq::<char>::empty()
    }) + padded_decimal(minutes_of(ms), 2) + seq![':'] + padded_decimal(seconds_of(ms), 2) + seq!['.']
        + padded_decimal(millis_of(ms) * 1000, 6)
}

/// The offset, in milliseconds, that the text `s` writes, if it has the shape
/// `[H...:]MM:SS.ffffff` (the fraction in microseconds, rounded down to whole
/// milliseconds).
pub open spec fn seek_time_value(s: Seq<char>) -> Option<nat> {
    let l = s.len() as int;
    if l >= 12 && all_digits(s.subrange(l - 12, l - 10)) && s[l - 10] == ':' && all_digits(
        s.subrange(l - 9, l - 7),
    ) && s[l - 7] == '.' && all_digits(s.subrange(l - 6, l)) && (l == 12 || (l >= 14 && s[l - 13]
        == ':' && all_digits(s.subrange(0, l - 13)))) {
        let hours = if l == 12 {
            0
        } else {
            decimal_value(s.subrange(0, l - 13))
        };
        Some(
            hours * 3_600_000 + decimal_value(s.subrange(l - 12, l - 10)) * 60_000 + decimal_value(
                s.subrange(l - 9, l - 7),
            ) * 1000 + decimal_value(s.subrange(l - 6, l)) / 1000,
        )
    } else {
        None
    }
}

/// Formats `milliseconds` as the decoder's seek offset.
pub fn ffmeg_seek_time_arg_format(milliseconds: u64) -> (r: String)
    ensures
        r@ == seek_time_text(milliseconds as nat),
{
    let hours = milliseconds / 3600000;
    let remaining = milliseconds % 3600000;
    let minutes = remaining / 60000;
    let remaining = remaining % 60000;
    let seconds = remaining / 1000;
    let millis = remaining % 1000;
    proof {
        reveal_strlit(":");
        reveal_strlit(".");
    }
    let mut result = String::new();
    if hours > 0 {
        append_padded(&mut result, hours, 2);
        result.append(":");
    }
    append_padded(&mut result, minutes, 2);
    result.append(":");
    append_padded(&mut result, seconds, 2);
    result.append(".");
    append_padded(&mut result, millis * 1000, 6);
    proof {
        assert(result@ =~= seek_time_text(milliseconds as nat));
    }
    result
}

/// Reads a seek offset written as `[H...:]MM:SS.ffffff` back into
/// milliseconds; `None` for text of another shape or an offset beyond `u64`.
pub fn parse_seek_time(s: &str) -> (r: Option<u64>)
    ensures
        match seek_time_value(s@) {
            Some(v) => if v <= u64::MAX {
                r == Some(v as u64)
            } else {
                r is None
            },
            None => r is None,
        },
{
    let l = s.unicode_len();
    if l < 12 {
        return None;
    }
    if s.get_char(l - 10) != ':' || s.get_char(l - 7) != '.' {
        return None;
    }
    let hours: u64 = if l == 12 {
        0
    } else {
        if l < 14 || s.get_char(l - 13) != ':' {
            return None;
        }
        match parse_digits(s, 0, l - 13) {
            Some(h) => h,
            None => {
                return None;
            },
        }
    };
    let minutes = match parse_digits(s, l - 12, l - 10) {
        Some(v) => v,
        None => {
            proof { lemma_two_digits_fit(s@.subrange(l - 12, l - 10)); }
            return None;
        },
    };
    let seconds = match parse_digits(s, l - 9, l - 7) {
        Some(v) => v,
        None => {
            proof { lemma_two_digits_fit(s@.subrange(l - 9, l - 7)); }
            return None;
        },
    };
    let fraction = match parse_digits(s, l - 6, l) {
        Some(v) => v,
        None => {
            proof { lemma_six_digits_fit(s@.subrange(l - 6, l as int)); }
            return None;
        },
    };
    proof {
        lemma_two_digits_fit(s@.subrange(l - 12, l - 10));
        lemma_two_digits_fit(s@.subrange(l - 9, l - 7));
        lemma_six_digits_fit(s@.subrange(l - 6, l as int));
    }
    let rest = minutes * 60_000 + seconds * 1000 + fraction / 1000;
    match hours.checked_mul(3_600_000) {
        Some(h) => h.checked_add(rest),
        None => None,
    }
}

proof fn lemma_digits_bound(s: Seq<char>)
    requires
        all_digits(s),
    ensures
        decimal_value(s) < pow10(s.len()),
    decreases s.len(),
{
    if s.len() > 0 {
        let p = s.drop_last();
        assert(all_digits(p)) by {
            assert forall|i: int| 0 <= i < p.len() implies is_digit(#[trigger] p[i]) by {
                assert(p[i] == s[i]);
            }
        }
        lemma_digits_bound(p);
        assert(is_digit(s[s.len() - 1]));
        assert(pow10(s.len()) == 10 * pow10(p.len()));
        assert(decimal_value(s) == decimal_value(p) * 10 + digit_value(s.last()));
        assert(decimal_value(p) + 1 <= pow10(p.len()));
        assert(decimal_value(p) * 10 + 10 <= pow10(p.len()) * 10) by (nonlinear_arith)
            requires
                decimal_value(p) + 1 <= pow10(p.len()),
        ;
    }
}

proof fn lemma_pow10_values()
    ensures
        pow10(2) == 100,
        pow10(6) == 1_000_000,
{
    assert(pow10(0) == 1);
    assert(pow10(1) == 10);
    assert(pow10(2) == 100);
    assert(pow10(3) == 1000);
    assert(pow10(4) == 10000);
    assert(pow10(5) == 100000);
    assert(pow10(6) == 1000000);
}

proof fn lemma_two_digits_fit(s: Seq<char>)
    requires
        s.len() == 2,
    ensures
        all_digits(s) ==> decimal_value(s) < 100,
{
    if all_digits(s) {
        lemma_digits_bound(s);
        lemma_pow10_values();
    }
}

proof fn lemma_six_digits_fit(s: Seq<char>)
    requires
        s.len() == 6,
    ensures
        all_digits(s) ==> decimal_value(s) < 1_000_000,
{
    if all_digits(s) {
        lemma_digits_bound(s);
        lemma_pow10_values();
    }
}

proof fn lemma_split_millis(ms: nat)
    ensures
        ms == hours_of(ms) * 3_600_000 + minutes_of(ms) * 60_000 + seconds_of(ms) * 1000
            + millis_of(ms),
        minutes_of(ms) < 60,
        seconds_of(ms) < 60,
        millis_of(ms) < 1000,
        (millis_of(ms) * 1000) / 1000 == millis_of(ms),
{
    let r1 = ms % 3_600_000;
    let r2 = r1 % 60_000;
    lemma_fundamental_div_mod(ms as int, 3_600_000);
    lemma_fundamental_div_mod(r1 as int, 60_000);
    lemma_fundamental_div_mod(r2 as int, 1000);
    lemma_mod_pos_bound(ms as int, 3_600_000);
    lemma_mod_pos_bound(r1 as int, 60_000);
    lemma_mod_pos_bound(r2 as int, 1000);
    lemma_div_pos_is_pos(r1 as int, 60_000);
    lemma_div_pos_is_pos(r2 as int, 1000);
    lemma_div_by_multiple((r2 % 1000) as int, 1000);
    assert(r1 / 60_000 < 60) by {
        lemma_div_is_ordered(r1 as int, 3_599_999, 60_000);
    }
    assert(r2 / 1000 < 60) by {
        lemma_div_is_ordered(r2 as int, 59_999, 1000);
    }
}

/// Reading back the text of any offset gives that offset: the seek-time
/// parser inverts the formatter.
pub proof fn lemma_seek_time_round_trip(ms: nat)
    ensures
        seek_time_value(seek_time_text(ms)) == Some(ms),
{
    lemma_split_millis(ms);
    lemma_pow10_values();
    let h = hours_of(ms);
    let mm = padded_decimal(minutes_of(ms), 2);
    let ss = padded_decimal(seconds_of(ms), 2);
    let ff = padded_decimal(millis_of(ms) * 1000, 6);
    lemma_padded_decimal(minutes_of(ms), 2);
    lemma_padded_decimal(seconds_of(ms), 2);
    lemma_padded_decimal(millis_of(ms) * 1000, 6);
    let head = if h > 0 {
        padded_decimal(h, 2) + seq![':']
    } else {
        Seq::<char>::empty()
    };
    let tail = mm + seq![':'] + ss + seq!['.'] + ff;
    let t = seek_time_text(ms);
    assert(t =~= head + tail);
    assert(tail.len() == 12);
    let l = t.len() as int;
    let k = head.len() as int;
    assert(t.subrange(l - 12, l - 10) =~= mm);
    assert(t.subrange(l - 9, l - 7) =~= ss);
    assert(t.subrange(l - 6, l) =~= ff);
    assert(t[l - 10] == ':');
    assert(t[l - 7] == '.');
    if h > 0 {
        lemma_padded_decimal(h, 2);
        assert(t.subrange(0, l - 13) =~= padded_decimal(h, 2));
        assert(t[l - 13] == ':');
    }
}

} // verus!
