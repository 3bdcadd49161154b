//! Registration-time validation of schedule values.
//!
//! These checks reject malformed input before any resolution happens:
//! uppercase or unknown duration suffixes, a placeholder with no closing
//! brace or with text after it, and a zero interval (which would busy-
//! loop).  A value that starts as a placeholder is left for resolution
//! time, since its content is not known yet.

use vstd::prelude::*;
use vstd::string::StrSliceExecFns;

use crate::plan::{spec_classify, SpecMeta};
use crate::strutil::{
    char_is_ascii_uppercase, digit_prefix_len, digit_val, digits_to_nat, first_index_of,
    is_ascii_digit_char, is_ascii_uppercase_char, lemma_digit_prefix_len_bounds,
    lemma_digits_prefix_mono, lemma_digits_take_step, scan_digit_prefix, scan_for_char,
    str_eq_chars,
};
use crate::time_unit::{match_suffix, spec_suffix_unit};

verus! {

/// Why a declared schedule value was rejected at registration.
#[derive(Debug, Clone, Copy, PartialEq, Eq, Structural)]
pub enum ScheduleValueError {
    /// The duration suffix holds an uppercase letter; only lowercase
    /// `ms`, `s`, `m`, `h`, `d` are accepted.
    UppercaseSuffix,
    /// The characters after the digits are not one of the five suffixes.
    UnknownSuffix,
    /// The value opens a `${` placeholder and never closes it.
    MissingClosingBrace,
    /// Characters follow the `}` of a placeholder; a placeholder may not
    /// be concatenated with a suffix or any other text.
    TrailingAfterPlaceholder,
    /// The interval is zero, which would busy-loop.
    ZeroValue,
}

/// The value opens with `${`, so its content comes from the store and is
/// not validated here.
pub open spec fn spec_starts_with_placeholder(s: Seq<char>) -> bool {
    s.len() >= 2 && s[0] == '$' && s[1] == '{'
}

/// `s` somewhere opens a `${` placeholder.
pub open spec fn spec_contains_open(s: Seq<char>) -> bool {
    exists|i: int| 0 <= i && i + 1 < s.len() && #[trigger] s[i] == '$' && s[i + 1] == '{'
}

/// A non-placeholder value that ends in one of the suffix letters.
pub open spec fn spec_has_time_suffix(s: Seq<char>) -> bool {
    &&& !spec_starts_with_placeholder(s)
    &&& s.len() > 0
    &&& (s.last() == 's' || s.last() == 'm' || s.last() == 'h' || s.last() == 'd')
}

pub open spec fn spec_validate_time_suffix(s: Seq<char>) -> Option<ScheduleValueError> {
    if spec_starts_with_placeholder(s) {
        None
    } else {
        let n = digit_prefix_len(s);
        if 0 < n && n < s.len() {
            let suf = s.subrange(n, s.len() as int);
            if exists|i: int| 0 <= i < suf.len() && is_ascii_uppercase_char(suf[i]) {
                Some(ScheduleValueError::UppercaseSuffix)
            } else if spec_suffix_unit(suf) is Some {
                None
            } else {
                Some(ScheduleValueError::UnknownSuffix)
            }
        } else {
            None
        }
    }
}

pub open spec fn spec_validate_placeholder_format(s: Seq<char>) -> Option<ScheduleValueError> {
    if spec_contains_open(s) && (first_index_of(s, '}') matches Some(i) && i < s.len() - 1) {
        Some(ScheduleValueError::TrailingAfterPlaceholder)
    } else if spec_starts_with_placeholder(s) && !(s.len() > 0 && s.last() == '}') {
        Some(ScheduleValueError::MissingClosingBrace)
    } else {
        None
    }
}

pub open spec fn spec_validate_positive(s: Seq<char>, allow_zero: bool) -> Option<
    ScheduleValueError,
> {
    if spec_starts_with_placeholder(s) {
        None
    } else {
        let n = digit_prefix_len(s);
        if n > 0 && !allow_zero && digits_to_nat(s.subrange(0, n)) == 0 {
            Some(ScheduleValueError::ZeroValue)
        } else {
            None
        }
    }
}

/// True when the value opens with `${`.
pub fn starts_with_placeholder(s: &str) -> (r: bool)
    ensures
        r == spec_starts_with_placeholder(s@),
{
    let len = s.unicode_len();
    len >= 2 && s.get_char(0) == '$' && s.get_char(1) == '{'
}

/// True when the value ends in a duration-suffix letter and is not a
/// placeholder.
pub fn has_time_suffix(value: &str) -> (r: bool)
    ensures
        r == spec_has_time_suffix(value@),
{
    if starts_with_placeholder(value) {
        return false;
    }
    let len = value.unicode_len();
    if len == 0 {
        return false;
    }
    let c = value.get_char(len - 1);
    c == 's' || c == 'm' || c == 'h' || c == 'd'
}

/// Checks the duration suffix of a literal value: it must be lowercase
/// and one of `ms`, `s`, `m`, `h`, `d`.
pub fn validate_time_suffix(value: &str) -> (r: Option<ScheduleValueError>)
    ensures
        r == spec_validate_time_suffix(value@),
{
    if starts_with_placeholder(value) {
        return None;
    }
    let len = value.unicode_len();
    let n = scan_digit_prefix(value);
    if n == 0 || n >= len {
        return None;
    }
    let ghost suf = value@.subrange(n as int, len as int);
    // look for an uppercase letter in the suffix
    let mut i: usize = n;
    while i < len
        invariant
            n <= i <= len,
            len == value@.len(),
            0 < n < len,
            n as int == digit_prefix_len(value@),
            suf == value@.subrange(n as int, len as int),
            forall|j: int| 0 <= j < i - n ==> !is_ascii_uppercase_char(suf[j]),
        decreases len - i,
    {
        let c = value.get_char(i);
        if char_is_ascii_uppercase(c) {
            proof {
                let sufspec = value@.subrange(digit_prefix_len(value@), value@.len() as int);
                assert(sufspec == suf);
                assert(sufspec[i - n] == value@[i as int]);
                assert(is_ascii_uppercase_char(sufspec[i - n]));
                assert(exists|k: int| 0 <= k < sufspec.len() && is_ascii_uppercase_char(
                    sufspec[k],
                ));
            }
            return Some(ScheduleValueError::UppercaseSuffix);
        }
        i += 1;
    }
    match match_suffix(value, n, len) {
        Some(_) => None,
        None => Some(ScheduleValueError::UnknownSuffix),
    }
}

/// Detects a malformed placeholder: an unclosed `${`, or text after the
/// closing brace (a placeholder may not carry a suffix).
pub fn validate_config_placeholder_format(value: &str) -> (r: Option<ScheduleValueError>)
    ensures
        r == spec_validate_placeholder_format(value@),
{
    let len = value.unicode_len();
    // does the value open a placeholder anywhere?
    let mut opens = false;
    let mut i: usize = 0;
    while i < len && !opens
        invariant
            0 <= i <= len,
            len == value@.len(),
            opens ==> spec_contains_open(value@),
            !opens ==> forall|j: int|
                0 <= j < i && j + 1 < len ==> !(#[trigger] value@[j] == '$' && value@[j + 1]
                    == '{'),
        decreases len - i,
    {
        if i + 1 < len && value.get_char(i) == '$' && value.get_char(i + 1) == '{' {
            opens = true;
        }
        i += 1;
    }
    if opens {
        let close = scan_for_char(value, '}');
        if close < len && close + 1 < len {
            return Some(ScheduleValueError::TrailingAfterPlaceholder);
        }
    } else {
        assert(!spec_contains_open(value@));
    }
    if starts_with_placeholder(value) && !(len > 0 && value.get_char(len - 1) == '}') {
        return Some(ScheduleValueError::MissingClosingBrace);
    }
    None
}

/// Rejects a literal interval of zero; a zero initial delay is fine
/// (`allow_zero`).
pub fn validate_positive_value(value: &str, allow_zero: bool) -> (r: Option<ScheduleValueError>)
    ensures
        r == spec_validate_positive(value@, allow_zero),
{
    if starts_with_placeholder(value) {
        return None;
    }
    if allow_zero {
        return None;
    }
    let n = scan_digit_prefix(value);
    if n == 0 {
        return None;
    }
    let ghost d = value@.subrange(0, digit_prefix_len(value@));
    proof {
        lemma_digit_prefix_len_bounds(value@);
    }
    let mut i: usize = 0;
    while i < n
        invariant
            0 <= i <= n <= value@.len(),
            n as int == digit_prefix_len(value@),
            d == value@.subrange(0, digit_prefix_len(value@)),
            d.len() == n,
            forall|j: int| 0 <= j < d.len() ==> is_ascii_digit_char(d[j]),
            digits_to_nat(d.take(i as int)) == 0,
        decreases n - i,
    {
        let c = value.get_char(i);
        assert(c == d[i as int]);
        proof {
            lemma_digits_take_step(d, i as int);
        }
        if c != '0' {
            proof {
                vstd::utf8::char_u32_cast(c, c as u32);
                vstd::utf8::char_u32_cast('0', '0' as u32);
                assert(c as u32 != 48);
                assert(digit_val(d[i as int]) > 0);
                lemma_digits_prefix_mono(d, i + 1);
                assert(digits_to_nat(d) != 0);
            }
            return None;
        }
        i += 1;
    }
    proof {
        assert(d.take(n as int) =~= d);
    }
    Some(ScheduleValueError::ZeroValue)
}

/// Whether descriptor fields with this schedule type get the interval
/// checks: suffix shape and a nonzero value.
pub open spec fn spec_is_interval_type(schedule_type: Seq<char>) -> bool {
    spec_classify(schedule_type) matches Some(k) && !(k is Cron)
}

/// Everything checked at registration, in order: for interval kinds the
/// schedule value's placeholder shape; the initial delay's placeholder
/// shape; then, for interval kinds, the suffixes of both fields and the
/// zero-interval rule (a zero initial delay stays fine).  A cron
/// expression is opaque here and only its initial delay is checked.
pub open spec fn spec_validate_descriptor(m: SpecMeta) -> Option<ScheduleValueError> {
    let interval = spec_is_interval_type(m.schedule_type);
    let sv_pf = if interval {
        spec_validate_placeholder_format(m.schedule_value)
    } else {
        None
    };
    if sv_pf is Some {
        sv_pf
    } else if spec_validate_placeholder_format(m.initial_delay) is Some {
        spec_validate_placeholder_format(m.initial_delay)
    } else if !interval {
        None
    } else if spec_validate_time_suffix(m.schedule_value) is Some {
        spec_validate_time_suffix(m.schedule_value)
    } else if spec_validate_time_suffix(m.initial_delay) is Some {
        spec_validate_time_suffix(m.initial_delay)
    } else if spec_validate_positive(m.schedule_value, false) is Some {
        spec_validate_positive(m.schedule_value, false)
    } else {
        spec_validate_positive(m.initial_delay, true)
    }
}

/// Runs the registration-time checks on one descriptor's fields.
pub fn validate_descriptor(schedule_type: &str, schedule_value: &str, initial_delay: &str) -> (r:
    Option<ScheduleValueError>)
    ensures
        r == spec_validate_descriptor(
            (SpecMeta {
                schedule_type: schedule_type@,
                schedule_value: schedule_value@,
                initial_delay: initial_delay@,
                enabled: Seq::empty(),
                time_unit: Seq::empty(),
                zone: Seq::empty(),
            }),
        ),
{
    let interval = !str_eq_chars(schedule_type, "cron") && (str_eq_chars(
        schedule_type,
        "fixed_rate",
    ) || str_eq_chars(schedule_type, "fixed_delay"));
    if interval {
        if let Some(e) = validate_config_placeholder_format(schedule_value) {
            return Some(e);
        }
    }
    if let Some(e) = validate_config_placeholder_format(initial_delay) {
        return Some(e);
    }
    if !interval {
        return None;
    }
    if let Some(e) = validate_time_suffix(schedule_value) {
        return Some(e);
    }
    if let Some(e) = validate_time_suffix(initial_delay) {
        return Some(e);
    }
    if let Some(e) = validate_positive_value(schedule_value, false) {
        return Some(e);
    }
    validate_positive_value(initial_delay, true)
}

} // verus!
