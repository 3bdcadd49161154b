//! Time units and the shorthand duration grammar.
//!
//! A shorthand duration is a run of decimal digits followed by exactly one
//! of the lowercase suffixes `ms`, `s`, `m`, `h`, `d`.  The grammar is
//! deliberately strict: uppercase or alias suffixes are rejected rather than
//! normalized, so malformed input is caught early.

use vstd::prelude::*;
use vstd::string::StrSliceExecFns;

use crate::strutil::{
    char_is_ascii_digit, digit_prefix_len, digits_to_nat, eq_ignore_ascii_case,
    is_ascii_digit_char, lemma_digit_prefix_len_bounds, lemma_digit_prefix_len_from_scan,
    lemma_render_nat_digits, lemma_render_nat_value, parse_digits_u64, scan_digit_prefix,
    seq_eq_ignore_case, spec_render_nat,
};

verus! {

/// Unit of time for interval-based scheduling.
#[derive(Debug, Clone, Copy, PartialEq, Eq, Structural)]
pub enum TimeUnit {
    Milliseconds,
    Seconds,
    Minutes,
    Hours,
    Days,
}

/// Milliseconds in one tick of the unit.
pub open spec fn unit_millis(u: TimeUnit) -> nat {
    match u {
        TimeUnit::Milliseconds => 1,
        TimeUnit::Seconds => 1000,
        TimeUnit::Minutes => 60_000,
        TimeUnit::Hours => 3_600_000,
        TimeUnit::Days => 86_400_000,
    }
}

/// The unit denoted by a duration suffix: `ms`, `s`, `m`, `h` or `d`,
/// lowercase only.
pub open spec fn spec_suffix_unit(s: Seq<char>) -> Option<TimeUnit> {
    if s.len() == 1 {
        if s[0] == 's' {
            Some(TimeUnit::Seconds)
        } else if s[0] == 'm' {
            Some(TimeUnit::Minutes)
        } else if s[0] == 'h' {
            Some(TimeUnit::Hours)
        } else if s[0] == 'd' {
            Some(TimeUnit::Days)
        } else {
            None
        }
    } else if s.len() == 2 && s[0] == 'm' && s[1] == 's' {
        Some(TimeUnit::Milliseconds)
    } else {
        None
    }
}

/// Mathematical reading of a shorthand duration string: the digit run and
/// the unit named by the rest, if the string has that shape.
pub open spec fn spec_parse_duration(s: Seq<char>) -> Option<(nat, TimeUnit)> {
    let n = digit_prefix_len(s);
    if n == 0 || n >= s.len() {
        None
    } else {
        match spec_suffix_unit(s.subrange(n, s.len() as int)) {
            Some(u) => Some((digits_to_nat(s.subrange(0, n)), u)),
            None => None,
        }
    }
}

/// The five full unit names, matched without regard to ASCII letter case.
pub open spec fn spec_unit_name(s: Seq<char>) -> Option<TimeUnit> {
    if seq_eq_ignore_case(s, "milliseconds"@) {
        Some(TimeUnit::Milliseconds)
    } else if seq_eq_ignore_case(s, "seconds"@) {
        Some(TimeUnit::Seconds)
    } else if seq_eq_ignore_case(s, "minutes"@) {
        Some(TimeUnit::Minutes)
    } else if seq_eq_ignore_case(s, "hours"@) {
        Some(TimeUnit::Hours)
    } else if seq_eq_ignore_case(s, "days"@) {
        Some(TimeUnit::Days)
    } else {
        None
    }
}

/// Parsing inverts writing, for every valid suffix: a value written out
/// in decimal digits and followed by any one of the five suffixes
/// parses back to exactly that value and unit.
pub proof fn lemma_parse_duration_round_trip(v: nat, suffix: Seq<char>, u: TimeUnit)
    requires
        spec_suffix_unit(suffix) == Some(u),
    ensures
        spec_parse_duration(spec_render_nat(v) + suffix) == Some((v, u)),
{
    let d = spec_render_nat(v);
    let s = d + suffix;
    lemma_render_nat_digits(v);
    lemma_render_nat_value(v);
    assert(!is_ascii_digit_char(suffix[0]));
    assert forall|j: int| 0 <= j < d.len() implies is_ascii_digit_char(s[j]) by {
        assert(s[j] == d[j]);
    }
    assert(s[d.len() as int] == suffix[0]);
    lemma_digit_prefix_len_from_scan(s, d.len() as int);
    assert(s.subrange(d.len() as int, s.len() as int) =~= suffix);
    assert(s.subrange(0, d.len() as int) =~= d);
}

/// Matches the suffix of `s` in `[from, to)` against the five shorthand
/// suffixes.
pub(crate) fn match_suffix(s: &str, from: usize, to: usize) -> (r: Option<TimeUnit>)
    requires
        from <= to <= s@.len(),
    ensures
        r == spec_suffix_unit(s@.subrange(from as int, to as int)),
{
    let ghost suf = s@.subrange(from as int, to as int);
    if to - from == 1 {
        let c = s.get_char(from);
        assert(c == suf[0]);
        if c == 's' {
            Some(TimeUnit::Seconds)
        } else if c == 'm' {
            Some(TimeUnit::Minutes)
        } else if c == 'h' {
            Some(TimeUnit::Hours)
        } else if c == 'd' {
            Some(TimeUnit::Days)
        } else {
            None
        }
    } else if to - from == 2 {
        let c0 = s.get_char(from);
        let c1 = s.get_char(from + 1);
        assert(c0 == suf[0] && c1 == suf[1]);
        if c0 == 'm' && c1 == 's' {
            Some(TimeUnit::Milliseconds)
        } else {
            None
        }
    } else {
        None
    }
}

impl TimeUnit {
    /// Converts `value` ticks of the unit to milliseconds.
    pub fn to_millis(&self, value: u64) -> (r: u64)
        requires
            value * unit_millis(*self) <= u64::MAX,
        ensures
            r == value * unit_millis(*self),
    {
        match self {
            TimeUnit::Milliseconds => value,
            TimeUnit::Seconds => value * 1000,
            TimeUnit::Minutes => value * 60_000,
            TimeUnit::Hours => value * 3_600_000,
            TimeUnit::Days => value * 86_400_000,
        }
    }

    /// Converts `value` ticks of the unit to milliseconds; `None` when the
    /// product does not fit in 64 bits.
    pub fn checked_to_millis(&self, value: u64) -> (r: Option<u64>)
        ensures
            r is Some <==> value * unit_millis(*self) <= u64::MAX,
            r is Some ==> r->0 == value * unit_millis(*self),
    {
        match self {
            TimeUnit::Milliseconds => Some(value),
            TimeUnit::Seconds => value.checked_mul(1000),
            TimeUnit::Minutes => value.checked_mul(60_000),
            TimeUnit::Hours => value.checked_mul(3_600_000),
            TimeUnit::Days => value.checked_mul(86_400_000),
        }
    }

    /// Parses a shorthand duration string such as `"5s"`, `"10m"` or
    /// `"500ms"`.
    ///
    /// Only lowercase suffixes are accepted, the digits must come first,
    /// and nothing may surround them: `"5S"`, `"ms"`, `"500"` and `" 5s"`
    /// are all rejected.  A digit run whose value does not fit in a `u64`
    /// is rejected as well.
    pub fn parse_duration(s: &str) -> (r: Option<(u64, TimeUnit)>)
        ensures
            r is Some <==> (spec_parse_duration(s@) is Some && (spec_parse_duration(s@)->0).0
                <= u64::MAX),
            r is Some ==> Some(((r->0).0 as nat, (r->0).1)) == spec_parse_duration(s@),
    {
        let len = s.unicode_len();
        let n = scan_digit_prefix(s);
        if n == 0 || n == len {
            return None;
        }
        let unit = match match_suffix(s, n, len) {
            Some(u) => u,
            None => {
                return None;
            },
        };
        proof {
            lemma_digit_prefix_len_bounds(s@);
        }
        let value = match parse_digits_u64(s, 0, n) {
            Some(v) => v,
            None => {
                return None;
            },
        };
        Some((value, unit))
    }

    /// Parses a full unit name: one of `milliseconds`, `seconds`,
    /// `minutes`, `hours`, `days`, matched without regard to letter case.
    /// Abbreviations belong to the shorthand grammar, not here.
    pub fn parse_unit_name(s: &str) -> (r: Option<TimeUnit>)
        ensures
            r == spec_unit_name(s@),
    {
        if eq_ignore_ascii_case(s, "milliseconds") {
            Some(TimeUnit::Milliseconds)
        } else if eq_ignore_ascii_case(s, "seconds") {
            Some(TimeUnit::Seconds)
        } else if eq_ignore_ascii_case(s, "minutes") {
            Some(TimeUnit::Minutes)
        } else if eq_ignore_ascii_case(s, "hours") {
            Some(TimeUnit::Hours)
        } else if eq_ignore_ascii_case(s, "days") {
            Some(TimeUnit::Days)
        } else {
            None
        }
    }
}

} // verus!
