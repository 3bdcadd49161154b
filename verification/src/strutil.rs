//! Character and string helpers shared by the parsers and validators.
//!
//! Everything here works on the `Seq<char>` view of a `&str`.  The spec
//! functions give the mathematical meaning (digit runs, case-insensitive
//! equality, first occurrence of a character); the exec functions scan the
//! string and are proved to agree with them.

use vstd::prelude::*;
use vstd::string::StrSliceExecFns;

verus! {

// ---------------------------------------------------------------------------
// Character classes
// ---------------------------------------------------------------------------

/// `'0'..='9'`.
pub open spec fn is_ascii_digit_char(c: char) -> bool {
    48 <= c as u32 && c as u32 <= 57
}

/// `'A'..='Z'`.
pub open spec fn is_ascii_uppercase_char(c: char) -> bool {
    65 <= c as u32 && c as u32 <= 90
}

/// Numeric value of a decimal digit character.
pub open spec fn digit_val(c: char) -> nat
    recommends
        is_ascii_digit_char(c),
{
    (c as u32 - 48) as nat
}

/// Code point with an ASCII capital letter folded to its small form.
pub open spec fn lower_code(c: char) -> int {
    if is_ascii_uppercase_char(c) {
        c as u32 + 32
    } else {
        c as u32 as int
    }
}

/// Equality of two character sequences up to ASCII letter case.
pub open spec fn seq_eq_ignore_case(a: Seq<char>, b: Seq<char>) -> bool {
    a.len() == b.len() && (forall|i: int| 0 <= i < a.len() ==> lower_code(a[i]) == lower_code(b[i]))
}

pub fn char_is_ascii_digit(c: char) -> (r: bool)
    ensures
        r == is_ascii_digit_char(c),
{
    let u = c as u32;
    48 <= u && u <= 57
}

pub fn char_is_ascii_uppercase(c: char) -> (r: bool)
    ensures
        r == is_ascii_uppercase_char(c),
{
    let u = c as u32;
    65 <= u && u <= 90
}

/// Compares two strings up to ASCII letter case.
pub fn eq_ignore_ascii_case(a: &str, b: &str) -> (r: bool)
    ensures
        r == seq_eq_ignore_case(a@, b@),
{
    let alen = a.unicode_len();
    let blen = b.unicode_len();
    if alen != blen {
        return false;
    }
    let mut i: usize = 0;
    while i < alen
        invariant
            0 <= i <= alen,
            alen == a@.len(),
            alen == b@.len(),
            forall|j: int| 0 <= j < i ==> lower_code(a@[j]) == lower_code(b@[j]),
        decreases alen - i,
    {
        let ca = a.get_char(i);
        let cb = b.get_char(i);
        let la = if char_is_ascii_uppercase(ca) {
            ca as u32 + 32
        } else {
            ca as u32
        };
        let lb = if char_is_ascii_uppercase(cb) {
            cb as u32 + 32
        } else {
            cb as u32
        };
        if la != lb {
            return false;
        }
        i += 1;
    }
    true
}

/// Compares two strings character by character.
pub fn str_eq_chars(a: &str, b: &str) -> (r: bool)
    ensures
        r == (a@ == b@),
{
    let alen = a.unicode_len();
    let blen = b.unicode_len();
    if alen != blen {
        return false;
    }
    let mut i: usize = 0;
    while i < alen
        invariant
            0 <= i <= alen,
            alen == a@.len(),
            alen == b@.len(),
            forall|j: int| 0 <= j < i ==> a@[j] == b@[j],
        decreases alen - i,
    {
        if a.get_char(i) != b.get_char(i) {
            return false;
        }
        i += 1;
    }
    proof {
        assert(a@ =~= b@);
    }
    true
}

// ---------------------------------------------------------------------------
// Leading digit runs and their value
// ---------------------------------------------------------------------------

/// Length of the maximal run of decimal digits at the front of `s`.
pub open spec fn digit_prefix_len(s: Seq<char>) -> int
    decreases s.len(),
{
    if s.len() == 0 || !is_ascii_digit_char(s[0]) {
        0
    } else {
        1 + digit_prefix_len(s.drop_first())
    }
}

pub proof fn lemma_digit_prefix_len_bounds(s: Seq<char>)
    ensures
        0 <= digit_prefix_len(s) <= s.len(),
        forall|j: int| 0 <= j < digit_prefix_len(s) ==> is_ascii_digit_char(s[j]),
        digit_prefix_len(s) < s.len() ==> !is_ascii_digit_char(s[digit_prefix_len(s)]),
    decreases s.len(),
{
    if s.len() == 0 || !is_ascii_digit_char(s[0]) {
    } else {
        lemma_digit_prefix_len_bounds(s.drop_first());
        assert forall|j: int| 0 <= j < digit_prefix_len(s) implies is_ascii_digit_char(s[j]) by {
            if j > 0 {
                assert(s.drop_first()[j - 1] == s[j]);
            }
        }
    }
}

/// A scan that saw digits up to `i` and a non-digit (or the end) at `i`
/// pins down `digit_prefix_len`.
pub proof fn lemma_digit_prefix_len_from_scan(s: Seq<char>, i: int)
    requires
        0 <= i <= s.len(),
        forall|j: int| 0 <= j < i ==> is_ascii_digit_char(s[j]),
        i < s.len() ==> !is_ascii_digit_char(s[i]),
    ensures
        digit_prefix_len(s) == i,
    decreases s.len(),
{
    if s.len() == 0 {
    } else if !is_ascii_digit_char(s[0]) {
        assert(i == 0);
    } else {
        assert(is_ascii_digit_char(s[0]));
        assert(i >= 1);
        let t = s.drop_first();
        assert forall|j: int| 0 <= j < i - 1 implies is_ascii_digit_char(t[j]) by {
            assert(t[j] == s[j + 1]);
        }
        if i - 1 < t.len() {
            assert(t[i - 1] == s[i]);
        }
        lemma_digit_prefix_len_from_scan(t, i - 1);
    }
}

/// Index of the first non-digit character, or the length of `s`.
pub fn scan_digit_prefix(s: &str) -> (i: usize)
    ensures
        i as int == digit_prefix_len(s@),
        i <= s@.len(),
{
    let len = s.unicode_len();
    let mut i: usize = 0;
    while i < len && char_is_ascii_digit(s.get_char(i))
        invariant
            0 <= i <= len,
            len == s@.len(),
            forall|j: int| 0 <= j < i ==> is_ascii_digit_char(s@[j]),
        decreases len - i,
    {
        i += 1;
    }
    proof {
        lemma_digit_prefix_len_from_scan(s@, i as int);
    }
    i
}

/// The number denoted by a run of decimal digits, most significant first.
pub open spec fn digits_to_nat(s: Seq<char>) -> nat
    decreases s.len(),
{
    if s.len() == 0 {
        0
    } else {
        digits_to_nat(s.drop_last()) * 10 + digit_val(s.last())
    }
}

pub proof fn lemma_digits_take_step(d: Seq<char>, k: int)
    requires
        0 <= k < d.len(),
    ensures
        digits_to_nat(d.take(k + 1)) == digits_to_nat(d.take(k)) * 10 + digit_val(d[k]),
{
    assert(d.take(k + 1).drop_last() =~= d.take(k));
    assert(d.take(k + 1).last() == d[k]);
}

/// Extending a digit run never decreases its value.
pub proof fn lemma_digits_prefix_mono(d: Seq<char>, k: int)
    requires
        0 <= k <= d.len(),
    ensures
        digits_to_nat(d.take(k)) <= digits_to_nat(d),
    decreases d.len() - k,
{
    if k < d.len() {
        lemma_digits_take_step(d, k);
        lemma_digits_prefix_mono(d, k + 1);
    } else {
        assert(d.take(k) =~= d);
    }
}

/// The decimal digit character for a value below ten.
pub open spec fn digit_char(d: nat) -> char
    recommends
        d < 10,
{
    if d == 0 {
        '0'
    } else if d == 1 {
        '1'
    } else if d == 2 {
        '2'
    } else if d == 3 {
        '3'
    } else if d == 4 {
        '4'
    } else if d == 5 {
        '5'
    } else if d == 6 {
        '6'
    } else if d == 7 {
        '7'
    } else if d == 8 {
        '8'
    } else {
        '9'
    }
}

/// A number written out in decimal digits, most significant first and
/// without leading zeros (a lone zero for zero itself).
pub open spec fn spec_render_nat(n: nat) -> Seq<char>
    decreases n,
{
    if n < 10 {
        seq![digit_char(n)]
    } else {
        spec_render_nat(n / 10).push(digit_char(n % 10))
    }
}

pub proof fn lemma_render_nat_digits(n: nat)
    ensures
        spec_render_nat(n).len() >= 1,
        forall|j: int|
            0 <= j < spec_render_nat(n).len() ==> is_ascii_digit_char(
                #[trigger] spec_render_nat(n)[j],
            ),
    decreases n,
{
    if n < 10 {
    } else {
        lemma_render_nat_digits(n / 10);
        assert forall|j: int|
            0 <= j < spec_render_nat(n).len() implies is_ascii_digit_char(
            spec_render_nat(n)[j],
        ) by {
            if j < spec_render_nat(n).len() - 1 {
                assert(spec_render_nat(n)[j] == spec_render_nat(n / 10)[j]);
            }
        }
    }
}

pub proof fn lemma_digit_char_val(d: nat)
    requires
        d < 10,
    ensures
        digit_val(digit_char(d)) == d,
{
}

/// Reading back a written-out number recovers it.
pub proof fn lemma_render_nat_value(n: nat)
    ensures
        digits_to_nat(spec_render_nat(n)) == n,
    decreases n,
{
    reveal_with_fuel(digits_to_nat, 2);
    if n < 10 {
        assert(spec_render_nat(n).drop_last() =~= Seq::<char>::empty());
        lemma_digit_char_val(n);
    } else {
        lemma_render_nat_value(n / 10);
        assert(spec_render_nat(n).drop_last() =~= spec_render_nat(n / 10));
        assert(spec_render_nat(n).last() == digit_char(n % 10));
        vstd::arithmetic::div_mod::lemma_fundamental_div_mod(n as int, 10);
        vstd::arithmetic::div_mod::lemma_mod_bound(n as int, 10);
        lemma_digit_char_val((n % 10) as nat);
    }
}

/// Reads the digits of `s` in `[start, end)` as a `u64`; `None` when the
/// value does not fit.
pub fn parse_digits_u64(s: &str, start: usize, end: usize) -> (r: Option<u64>)
    requires
        start <= end <= s@.len(),
        forall|j: int| start <= j < end ==> is_ascii_digit_char(s@[j]),
    ensures
        ({
            let d = s@.subrange(start as int, end as int);
            &&& (r is Some <==> digits_to_nat(d) <= u64::MAX)
            &&& (r is Some ==> r->0 == digits_to_nat(d))
        }),
{
    let ghost d = s@.subrange(start as int, end as int);
    let mut acc: u64 = 0;
    let mut i: usize = start;
    while i < end
        invariant
            start <= i <= end <= s@.len(),
            forall|j: int| start <= j < end ==> is_ascii_digit_char(s@[j]),
            d == s@.subrange(start as int, end as int),
            acc == digits_to_nat(d.take(i - start)),
        decreases end - i,
    {
        let c = s.get_char(i);
        assert(c == d[i - start]);
        let cu = c as u32;
        assert(48 <= cu && cu <= 57);
        let dv: u64 = (cu - 48) as u64;
        proof {
            lemma_digits_take_step(d, i - start);
        }
        if acc > (u64::MAX - dv) / 10 {
            proof {
                assert(acc * 10 + dv > u64::MAX) by (nonlinear_arith)
                    requires
                        acc > (u64::MAX - dv) / 10,
                        dv <= 9,
                ;
                lemma_digits_prefix_mono(d, i - start + 1);
            }
            return None;
        }
        assert(acc * 10 + dv <= u64::MAX) by (nonlinear_arith)
            requires
                acc <= (u64::MAX - dv) / 10,
                dv <= 9,
        ;
        acc = acc * 10 + dv;
        i += 1;
    }
    proof {
        assert(d.take((end - start) as int) =~= d);
    }
    Some(acc)
}

// ---------------------------------------------------------------------------
// First occurrence of a character
// ---------------------------------------------------------------------------

/// Index of the first occurrence of `c` in `s`.
pub open spec fn first_index_of(s: Seq<char>, c: char) -> Option<int>
    decreases s.len(),
{
    if s.len() == 0 {
        None
    } else if s[0] == c {
        Some(0)
    } else {
        match first_index_of(s.drop_first(), c) {
            Some(i) => Some(i + 1),
            None => None,
        }
    }
}

pub proof fn lemma_first_index_of_from_scan(s: Seq<char>, c: char, i: int)
    requires
        0 <= i <= s.len(),
        forall|j: int| 0 <= j < i ==> s[j] != c,
        i < s.len() ==> s[i] == c,
    ensures
        first_index_of(s, c) == (if i == s.len() {
            None::<int>
        } else {
            Some(i)
        }),
    decreases s.len(),
{
    if s.len() == 0 {
    } else if s[0] == c {
        assert(i == 0);
    } else {
        assert(i >= 1);
        let t = s.drop_first();
        assert forall|j: int| 0 <= j < i - 1 implies t[j] != c by {
            assert(t[j] == s[j + 1]);
        }
        if i - 1 < t.len() {
            assert(t[i - 1] == s[i]);
        }
        lemma_first_index_of_from_scan(t, c, i - 1);
    }
}

/// Scans for `c`; yields the length of `s` when `c` does not occur.
pub fn scan_for_char(s: &str, c: char) -> (i: usize)
    ensures
        i <= s@.len(),
        first_index_of(s@, c) == (if i == s@.len() {
            None::<int>
        } else {
            Some(i as int)
        }),
        i < s@.len() ==> s@[i as int] == c,
        forall|j: int| 0 <= j < i ==> s@[j] != c,
{
    let len = s.unicode_len();
    let mut i: usize = 0;
    while i < len && s.get_char(i) != c
        invariant
            0 <= i <= len,
            len == s@.len(),
            forall|j: int| 0 <= j < i ==> s@[j] != c,
        decreases len - i,
    {
        i += 1;
    }
    proof {
        lemma_first_index_of_from_scan(s@, c, i as int);
    }
    i
}

} // verus!
