//! Verified text scanning primitives for the wire formats: whitespace
//! trimming, digit runs, substring search and fixed-point decimal
//! numbers.
//!
//! All behaviour is stated over byte sequences; speeds parse into the
//! crate's fixed-point units (ten-thousandths of full scale).

use vstd::prelude::*;

verus! {

// ============================================================================
// Character classes
// ============================================================================

/// ASCII whitespace as the trimming functions treat it.
pub open spec fn is_ws_byte(b: u8) -> bool {
    b == 32 || b == 9 || b == 10 || b == 13
}

/// ASCII decimal digit.
pub open spec fn is_digit(b: u8) -> bool {
    48 <= b <= 57
}

/// The numeric value of a digit byte.
pub open spec fn digit_val(b: u8) -> int {
    b - 48
}

/// Bytes that may appear in a decimal number: digits, the point and
/// the minus sign.
pub open spec fn is_num_byte(b: u8) -> bool {
    is_digit(b) || b == 46 || b == 45
}

/// ASCII lowercasing of one byte.
pub open spec fn lower_byte(b: u8) -> u8 {
    if 65 <= b <= 90 {
        (b + 32) as u8
    } else {
        b
    }
}

/// ASCII lowercasing of a byte sequence.
pub open spec fn lower_bytes(s: Seq<u8>) -> Seq<u8> {
    s.map_values(|b: u8| lower_byte(b))
}

// ============================================================================
// Trimming and runs
// ============================================================================

/// The sequence with leading ASCII whitespace removed.
pub open spec fn trim_start_bytes(s: Seq<u8>) -> Seq<u8>
    decreases s.len(),
{
    if s.len() > 0 && is_ws_byte(s[0]) {
        trim_start_bytes(s.drop_first())
    } else {
        s
    }
}

/// The sequence with trailing ASCII whitespace removed.
pub open spec fn trim_end_bytes(s: Seq<u8>) -> Seq<u8>
    decreases s.len(),
{
    if s.len() > 0 && is_ws_byte(s[s.len() - 1]) {
        trim_end_bytes(s.drop_last())
    } else {
        s
    }
}

/// The length of the leading run of number bytes.
pub open spec fn num_prefix_len(s: Seq<u8>) -> int
    decreases s.len(),
{
    if s.len() > 0 && is_num_byte(s[0]) {
        1 + num_prefix_len(s.drop_first())
    } else {
        0
    }
}

/// Whether every byte of the sequence is a decimal digit.
pub open spec fn all_digits(s: Seq<u8>) -> bool {
    forall|i: int| 0 <= i < s.len() ==> is_digit(#[trigger] s[i])
}

/// The integer denoted by a digit run.
pub open spec fn digits_value(s: Seq<u8>) -> int
    decreases s.len(),
{
    if s.len() == 0 {
        0
    } else {
        10 * digits_value(s.drop_last()) + digit_val(s[s.len() - 1])
    }
}

/// Integer parts saturate just above the largest value the
/// fixed-point range cares about, so oversized inputs stay oversized
/// after scaling without overflowing.
pub open spec fn sat_int_part(x: int) -> int {
    if x > 100000 {
        100001
    } else {
        x
    }
}

/// Powers of ten up to the fixed-point precision.
pub open spec fn tenpow(k: int) -> int {
    if k <= 0 {
        1
    } else if k == 1 {
        10
    } else if k == 2 {
        100
    } else if k == 3 {
        1000
    } else {
        10000
    }
}

/// The fixed-point value of a fractional digit run: the first four
/// digits weighted into ten-thousandths, further digits truncated.
pub open spec fn frac_value(s: Seq<u8>) -> int {
    if s.len() >= 4 {
        digits_value(s.subrange(0, 4))
    } else {
        digits_value(s) * tenpow(4 - s.len())
    }
}

// ============================================================================
// Fixed-point decimal numbers
// ============================================================================

/// The fixed-point reading of a decimal numeral: an optional minus
/// sign, then digits with at most one decimal point and at least one
/// digit. The result is in ten-thousandths; integer parts saturate
/// per [`sat_int_part`].
pub open spec fn spec_parse_fixed(s: Seq<u8>) -> Option<i32> {
    if s.len() == 0 {
        None
    } else {
        let neg = s[0] == 45;
        let body = if neg {
            s.drop_first()
        } else {
            s
        };
        match body.index_of_first(46u8) {
            None => {
                if body.len() > 0 && all_digits(body) {
                    Some(signed_fixed(neg, sat_int_part(digits_value(body)) * 10000))
                } else {
                    None
                }
            },
            Some(dot) => {
                let ip = body.subrange(0, dot);
                let fp = body.subrange(dot + 1, body.len() as int);
                if ip.len() + fp.len() > 0 && all_digits(ip) && all_digits(fp) {
                    Some(
                        signed_fixed(
                            neg,
                            sat_int_part(digits_value(ip)) * 10000 + frac_value(fp),
                        ),
                    )
                } else {
                    None
                }
            },
        }
    }
}

/// Apply the sign to a nonnegative fixed-point magnitude.
pub open spec fn signed_fixed(neg: bool, magnitude: int) -> i32 {
    if neg {
        (-magnitude) as i32
    } else {
        magnitude as i32
    }
}

// ============================================================================
// Substring search
// ============================================================================

/// The needle occurs in the haystack at index `i`.
pub open spec fn sub_at(h: Seq<u8>, n: Seq<u8>, i: int) -> bool {
    0 <= i && i + n.len() <= h.len() && h.subrange(i, i + n.len()) == n
}

/// The first occurrence of the needle at or after `i`.
pub open spec fn spec_find_sub_from(h: Seq<u8>, n: Seq<u8>, i: int) -> Option<int>
    decreases h.len() + 1 - i,
{
    if i < 0 || i + n.len() > h.len() {
        None
    } else if sub_at(h, n, i) {
        Some(i)
    } else {
        spec_find_sub_from(h, n, i + 1)
    }
}

/// The first occurrence of the needle in the haystack.
pub open spec fn spec_find_sub(h: Seq<u8>, n: Seq<u8>) -> Option<int> {
    spec_find_sub_from(h, n, 0)
}

/// Skipping positions where the needle does not occur does not change
/// the search result.
proof fn lemma_find_sub_skip(h: Seq<u8>, n: Seq<u8>, i: int)
    requires
        0 <= i,
        !sub_at(h, n, i),
    ensures
        spec_find_sub_from(h, n, i) == spec_find_sub_from(h, n, i + 1),
{
}

/// The search result is unchanged from any prefix of failed
/// positions.
proof fn lemma_find_sub_advance(h: Seq<u8>, n: Seq<u8>, i: int)
    requires
        0 <= i,
        forall|j: int| 0 <= j < i ==> !sub_at(h, n, j),
    ensures
        spec_find_sub(h, n) == spec_find_sub_from(h, n, i),
    decreases i,
{
    if i > 0 {
        lemma_find_sub_advance(h, n, i - 1);
        lemma_find_sub_skip(h, n, i - 1);
    }
}

// ============================================================================
// Executable helpers
// ============================================================================

/// Byte-for-byte slice equality.
pub fn slice_eq(a: &[u8], b: &[u8]) -> (r: bool)
    ensures
        r == (a@ == b@),
{
    if a.len() != b.len() {
        proof {
            assert(a@.len() != b@.len());
        }
        return false;
    }
    let mut i: usize = 0;
    while i < a.len()
        invariant
            i <= a@.len(),
            a@.len() == b@.len(),
            forall|j: int| 0 <= j < i ==> a@[j] == b@[j],
        decreases a@.len() - i,
    {
        if a[i] != b[i] {
            return false;
        }
        i = i + 1;
    }
    proof {
        assert(a@ =~= b@);
    }
    true
}

/// The first occurrence of `needle` in `haystack`, as
/// [`spec_find_sub`] defines it.
pub fn find_sub(haystack: &[u8], needle: &[u8]) -> (r: Option<usize>)
    ensures
        r matches Some(i) ==> spec_find_sub(haystack@, needle@) == Some(i as int) && sub_at(
            haystack@,
            needle@,
            i as int,
        ),
        r is None ==> spec_find_sub(haystack@, needle@) is None,
{
    if needle.len() == 0 {
        proof {
            assert(haystack@.subrange(0, 0) =~= needle@);
            assert(sub_at(haystack@, needle@, 0));
        }
        return Some(0);
    }
    if needle.len() > haystack.len() {
        proof {
            lemma_find_sub_advance(haystack@, needle@, 0);
        }
        return None;
    }
    let last = haystack.len() - needle.len();
    let mut i: usize = 0;
    while i <= last
        invariant
            0 < needle@.len() <= haystack@.len(),
            haystack@.len() <= usize::MAX,
            last == haystack@.len() - needle@.len(),
            i <= last + 1,
            forall|j: int| 0 <= j < i ==> !sub_at(haystack@, needle@, j),
        decreases last + 1 - i,
    {
        let window = &haystack[i..i + needle.len()];
        if slice_eq(window, needle) {
            proof {
                lemma_find_sub_advance(haystack@, needle@, i as int);
                assert(sub_at(haystack@, needle@, i as int));
            }
            return Some(i);
        }
        proof {
            assert(haystack@.subrange(i as int, i + needle@.len()) != needle@);
        }
        i = i + 1;
    }
    proof {
        lemma_find_sub_advance(haystack@, needle@, i as int);
    }
    None
}

/// The first occurrence of a byte, as `Seq::index_of_first` defines
/// it.
pub fn find_byte(s: &[u8], b: u8) -> (r: Option<usize>)
    ensures
        r matches Some(i) ==> s@.index_of_first(b) == Some(i as int) && i < s@.len() && s@[i as int]
            == b,
        r is None ==> s@.index_of_first(b) is None,
{
    let mut i: usize = 0;
    while i < s.len()
        invariant
            i <= s@.len(),
            forall|j: int| 0 <= j < i ==> s@[j] != b,
        decreases s@.len() - i,
    {
        if s[i] == b {
            proof {
                s@.index_of_first_ensures(b);
            }
            return Some(i);
        }
        i = i + 1;
    }
    proof {
        s@.index_of_first_ensures(b);
        if s@.contains(b) {
            let w = choose|j: int| 0 <= j < s@.len() && s@[j] == b;
            assert(false);
        }
    }
    None
}

/// Leading whitespace of a slice: the index where
/// [`trim_start_bytes`] begins.
pub fn trim_start_idx(s: &[u8]) -> (r: usize)
    ensures
        r <= s@.len(),
        forall|j: int| 0 <= j < r ==> is_ws_byte(#[trigger] s@[j]),
        r < s@.len() ==> !is_ws_byte(s@[r as int]),
        trim_start_bytes(s@) == s@.subrange(r as int, s@.len() as int),
{
    let mut i: usize = 0;
    while i < s.len() && (s[i] == 32 || s[i] == 9 || s[i] == 10 || s[i] == 13)
        invariant
            i <= s@.len(),
            forall|j: int| 0 <= j < i ==> is_ws_byte(#[trigger] s@[j]),
        decreases s@.len() - i,
    {
        i = i + 1;
    }
    proof {
        lemma_trim_start_at(s@, i as int);
    }
    i
}

/// If the first `i` bytes are whitespace and the next one (if any) is
/// not, trimming removes exactly those `i` bytes.
proof fn lemma_trim_start_at(s: Seq<u8>, i: int)
    requires
        0 <= i <= s.len(),
        forall|j: int| 0 <= j < i ==> is_ws_byte(#[trigger] s[j]),
        i < s.len() ==> !is_ws_byte(s[i]),
    ensures
        trim_start_bytes(s) == s.subrange(i, s.len() as int),
    decreases i,
{
    if i == 0 {
        assert(s.subrange(0, s.len() as int) =~= s);
    } else {
        lemma_trim_start_at(s.drop_first(), i - 1);
        assert(s.drop_first().subrange(i - 1, s.drop_first().len() as int) =~= s.subrange(
            i,
            s.len() as int,
        ));
    }
}

/// Trailing whitespace of a slice: the index where
/// [`trim_end_bytes`] ends.
pub fn trim_end_idx(s: &[u8]) -> (r: usize)
    ensures
        r <= s@.len(),
        forall|j: int| r <= j < s@.len() ==> is_ws_byte(#[trigger] s@[j]),
        r > 0 ==> !is_ws_byte(s@[r - 1]),
        trim_end_bytes(s@) == s@.subrange(0, r as int),
{
    let mut i: usize = s.len();
    while i > 0 && (s[i - 1] == 32 || s[i - 1] == 9 || s[i - 1] == 10 || s[i - 1] == 13)
        invariant
            i <= s@.len(),
            forall|j: int| i <= j < s@.len() ==> is_ws_byte(#[trigger] s@[j]),
        decreases i,
    {
        i = i - 1;
    }
    proof {
        lemma_trim_end_at(s@, i as int);
    }
    i
}

/// If every byte from `i` on is whitespace and the one before `i`
/// (if any) is not, trimming keeps exactly the first `i` bytes.
proof fn lemma_trim_end_at(s: Seq<u8>, i: int)
    requires
        0 <= i <= s.len(),
        forall|j: int| i <= j < s.len() ==> is_ws_byte(#[trigger] s[j]),
        i > 0 ==> !is_ws_byte(s[i - 1]),
    ensures
        trim_end_bytes(s) == s.subrange(0, i),
    decreases s.len() - i,
{
    if i == s.len() {
        assert(s.subrange(0, s.len() as int) =~= s);
    } else {
        lemma_trim_end_at(s.drop_last(), i);
        assert(s.drop_last().subrange(0, i) =~= s.subrange(0, i));
    }
}

/// The length of the leading run of number bytes of a slice.
pub fn num_prefix(s: &[u8]) -> (r: usize)
    ensures
        r <= s@.len(),
        r == num_prefix_len(s@),
{
    let mut i: usize = 0;
    while i < s.len() && (s[i] == 46 || s[i] == 45 || (48 <= s[i] && s[i] <= 57))
        invariant
            i <= s@.len(),
            forall|j: int| 0 <= j < i ==> is_num_byte(#[trigger] s@[j]),
        decreases s@.len() - i,
    {
        i = i + 1;
    }
    proof {
        lemma_num_prefix_at(s@, i as int);
    }
    i
}

/// If the first `i` bytes are number bytes and the next one (if any)
/// is not, the number prefix has length exactly `i`.
proof fn lemma_num_prefix_at(s: Seq<u8>, i: int)
    requires
        0 <= i <= s.len(),
        forall|j: int| 0 <= j < i ==> is_num_byte(#[trigger] s[j]),
        i < s.len() ==> !is_num_byte(s[i]),
    ensures
        num_prefix_len(s) == i,
    decreases i,
{
    if i > 0 {
        lemma_num_prefix_at(s.drop_first(), i - 1);
    }
}

/// The value of a validated digit run, saturating per
/// [`sat_int_part`].
fn digits_to_sat_int(s: &[u8]) -> (r: u32)
    requires
        all_digits(s@),
    ensures
        r == sat_int_part(digits_value(s@)),
{
    let mut acc: u32 = 0;
    let mut i: usize = 0;
    proof {
        assert(s@.subrange(0, 0) =~= Seq::<u8>::empty());
    }
    while i < s.len()
        invariant
            i <= s@.len(),
            all_digits(s@),
            acc == sat_int_part(digits_value(s@.subrange(0, i as int))),
            acc <= 100001,
        decreases s@.len() - i,
    {
        let d = s[i] - 48;
        if acc > 100000 {
            acc = 100001;
        } else {
            acc = acc * 10 + (d as u32);
            if acc > 100000 {
                acc = 100001;
            }
        }
        proof {
            let prefix = s@.subrange(0, i as int);
            let next = s@.subrange(0, i + 1);
            assert(next.drop_last() =~= prefix);
            assert(next[next.len() - 1] == s@[i as int]);
        }
        i = i + 1;
    }
    proof {
        assert(s@.subrange(0, s@.len() as int) =~= s@);
    }
    acc
}

/// The fixed-point value of a validated fractional digit run.
fn digits_to_frac(s: &[u8]) -> (r: u32)
    requires
        all_digits(s@),
    ensures
        r == frac_value(s@),
        r < 10000,
{
    let take = if s.len() >= 4 {
        4
    } else {
        s.len()
    };
    let mut acc: u32 = 0;
    let mut i: usize = 0;
    proof {
        assert(s@.subrange(0, 0) =~= Seq::<u8>::empty());
    }
    while i < take
        invariant
            take <= s@.len(),
            take <= 4,
            i <= take,
            all_digits(s@),
            acc == digits_value(s@.subrange(0, i as int)),
            acc < tenpow(i as int),
        decreases take - i,
    {
        let d = s[i] - 48;
        acc = acc * 10 + (d as u32);
        proof {
            let prefix = s@.subrange(0, i as int);
            let next = s@.subrange(0, i + 1);
            assert(next.drop_last() =~= prefix);
            assert(next[next.len() - 1] == s@[i as int]);
        }
        i = i + 1;
    }
    let mut k = take;
    proof {
        assert(tenpow(0) == 1);
        assert(digits_value(s@.subrange(0, take as int)) * 1 == digits_value(
            s@.subrange(0, take as int),
        )) by (nonlinear_arith);
    }
    while k < 4
        invariant
            take <= k <= 4,
            take <= s@.len() || take == 4,
            acc == digits_value(s@.subrange(0, take as int)) * tenpow(k - take),
            acc < tenpow(k as int),
        decreases 4 - k,
    {
        acc = acc * 10;
        proof {
            assert(tenpow(k + 1 - take) == 10 * tenpow(k - take));
            assert((digits_value(s@.subrange(0, take as int)) * tenpow(k - take)) * 10
                == digits_value(s@.subrange(0, take as int)) * (10 * tenpow(k - take)))
                by (nonlinear_arith);
        }
        k = k + 1;
    }
    proof {
        if s@.len() >= 4 {
            assert(s@.subrange(0, take as int) =~= s@.subrange(0, 4));
        } else {
            assert(s@.subrange(0, take as int) =~= s@);
        }
    }
    acc
}

/// Whether every byte of a slice is a digit.
fn check_all_digits(s: &[u8]) -> (r: bool)
    ensures
        r == all_digits(s@),
{
    let mut i: usize = 0;
    while i < s.len()
        invariant
            i <= s@.len(),
            forall|j: int| 0 <= j < i ==> is_digit(#[trigger] s@[j]),
        decreases s@.len() - i,
    {
        if !(48 <= s[i] && s[i] <= 57) {
            return false;
        }
        i = i + 1;
    }
    true
}

/// Parse a decimal numeral into fixed-point ten-thousandths, as
/// [`spec_parse_fixed`] defines it.
pub fn parse_fixed(s: &[u8]) -> (r: Option<i32>)
    ensures
        r == spec_parse_fixed(s@),
{
    if s.len() == 0 {
        return None;
    }
    let neg = s[0] == 45;
    let body: &[u8] = if neg {
        &s[1..s.len()]
    } else {
        &s[0..s.len()]
    };
    proof {
        if neg {
            assert(body@ =~= s@.drop_first());
        } else {
            assert(body@ =~= s@);
        }
    }
    let dot = find_byte(body, 46);
    match dot {
        None => {
            if body.len() > 0 && check_all_digits(body) {
                let int_part = digits_to_sat_int(body);
                let magnitude: i32 = (int_part as i32) * 10000;
                if neg {
                    Some(0 - magnitude)
                } else {
                    Some(magnitude)
                }
            } else {
                None
            }
        },
        Some(di) => {
            proof {
                body@.index_of_first_ensures(46u8);
            }
            let ip: &[u8] = &body[0..di];
            let fp: &[u8] = &body[di + 1..body.len()];
            if (ip.len() + fp.len() > 0) && check_all_digits(ip) && check_all_digits(fp) {
                let int_part = digits_to_sat_int(ip);
                let frac = digits_to_frac(fp);
                let magnitude: i32 = (int_part as i32) * 10000 + (frac as i32);
                if neg {
                    Some(0 - magnitude)
                } else {
                    Some(magnitude)
                }
            } else {
                None
            }
        },
    }
}

/// Case-insensitive comparison of a byte slice against a lowercase
/// pattern.
pub fn eq_ignore_ascii_case(s: &[u8], pat: &[u8]) -> (r: bool)
    ensures
        r == (lower_bytes(s@) == pat@),
{
    if s.len() != pat.len() {
        proof {
            assert(lower_bytes(s@).len() == s@.len());
        }
        return false;
    }
    let mut i: usize = 0;
    while i < s.len()
        invariant
            i <= s@.len(),
            s@.len() == pat@.len(),
            forall|j: int| 0 <= j < i ==> lower_byte(#[trigger] s@[j]) == pat@[j],
        decreases s@.len() - i,
    {
        let b = s[i];
        let low = if 65 <= b && b <= 90 {
            b + 32
        } else {
            b
        };
        if low != pat[i] {
            proof {
                assert(lower_bytes(s@)[i as int] == lower_byte(s@[i as int]));
            }
            return false;
        }
        i = i + 1;
    }
    proof {
        assert(lower_bytes(s@) =~= pat@);
    }
    true
}

/// The length of the leading run of decimal digits.
pub open spec fn digits_prefix_len(s: Seq<u8>) -> int
    decreases s.len(),
{
    if s.len() > 0 && is_digit(s[0]) {
        1 + digits_prefix_len(s.drop_first())
    } else {
        0
    }
}

/// The length of the leading digit run of a slice.
pub fn digits_prefix(s: &[u8]) -> (r: usize)
    ensures
        r <= s@.len(),
        r == digits_prefix_len(s@),
        all_digits(s@.subrange(0, r as int)),
{
    let mut i: usize = 0;
    while i < s.len() && 48 <= s[i] && s[i] <= 57
        invariant
            i <= s@.len(),
            forall|j: int| 0 <= j < i ==> is_digit(#[trigger] s@[j]),
        decreases s@.len() - i,
    {
        i = i + 1;
    }
    proof {
        lemma_digits_prefix_at(s@, i as int);
    }
    i
}

/// If the first `i` bytes are digits and the next one (if any) is
/// not, the digit prefix has length exactly `i`.
proof fn lemma_digits_prefix_at(s: Seq<u8>, i: int)
    requires
        0 <= i <= s.len(),
        forall|j: int| 0 <= j < i ==> is_digit(#[trigger] s[j]),
        i < s.len() ==> !is_digit(s[i]),
    ensures
        digits_prefix_len(s) == i,
    decreases i,
{
    if i > 0 {
        lemma_digits_prefix_at(s.drop_first(), i - 1);
    }
}

/// The unsigned value of a digit run, saturating at the top of the
/// `u64` range.
pub open spec fn u64_digits_sat(s: Seq<u8>) -> int
    decreases s.len(),
{
    if s.len() == 0 {
        0
    } else {
        let p = u64_digits_sat(s.drop_last());
        if p > 1844674407370955160 {
            u64::MAX as int
        } else {
            10 * p + digit_val(s[s.len() - 1])
        }
    }
}

/// Parse a validated digit run into a `u64`, saturating per
/// [`u64_digits_sat`].
pub fn parse_u64_digits(s: &[u8]) -> (r: u64)
    requires
        all_digits(s@),
    ensures
        r == u64_digits_sat(s@),
{
    let mut acc: u64 = 0;
    let mut i: usize = 0;
    proof {
        assert(s@.subrange(0, 0) =~= Seq::<u8>::empty());
    }
    while i < s.len()
        invariant
            i <= s@.len(),
            all_digits(s@),
            acc == u64_digits_sat(s@.subrange(0, i as int)),
        decreases s@.len() - i,
    {
        let d = s[i] - 48;
        if acc > 1844674407370955160 {
            acc = u64::MAX;
        } else {
            acc = acc * 10 + (d as u64);
        }
        proof {
            let prefix = s@.subrange(0, i as int);
            let next = s@.subrange(0, i + 1);
            assert(next.drop_last() =~= prefix);
            assert(next[next.len() - 1] == s@[i as int]);
        }
        i = i + 1;
    }
    proof {
        assert(s@.subrange(0, s@.len() as int) =~= s@);
    }
    acc
}

/// Whether the sequence begins with the given prefix.
pub open spec fn starts_with(s: Seq<u8>, prefix: Seq<u8>) -> bool {
    s.len() >= prefix.len() && s.subrange(0, prefix.len() as int) == prefix
}

/// Whether a slice begins with the given prefix.
pub fn slice_starts_with(s: &[u8], prefix: &[u8]) -> (r: bool)
    ensures
        r == starts_with(s@, prefix@),
{
    if s.len() < prefix.len() {
        return false;
    }
    let head = &s[0..prefix.len()];
    proof {
        assert(head@ =~= s@.subrange(0, prefix@.len() as int));
    }
    slice_eq(head, prefix)
}

/// Encoding to UTF-8 distributes over concatenation.
pub proof fn lemma_encode_utf8_concat(a: Seq<char>, b: Seq<char>)
    ensures
        vstd::utf8::encode_utf8(a + b) == vstd::utf8::encode_utf8(a) + vstd::utf8::encode_utf8(b),
    decreases a.len(),
{
    if a.len() == 0 {
        assert(a + b =~= b);
        assert(vstd::utf8::encode_utf8(a) =~= Seq::<u8>::empty());
        assert(vstd::utf8::encode_utf8(a) + vstd::utf8::encode_utf8(b) =~= vstd::utf8::encode_utf8(
            b,
        ));
    } else {
        assert((a + b).len() > 0);
        assert((a + b)[0] == a[0]);
        assert((a + b).drop_first() =~= a.drop_first() + b);
        lemma_encode_utf8_concat(a.drop_first(), b);
        assert(vstd::utf8::encode_utf8(a + b) =~= vstd::utf8::encode_utf8(a)
            + vstd::utf8::encode_utf8(b));
    }
}

/// The UTF-8 bytes of a character sequence, as stored strings encode
/// them.
pub open spec fn utf8_bytes(s: Seq<char>) -> Seq<u8> {
    vstd::utf8::encode_utf8(s)
}

} // verus!
