//! Verified byte-level text utilities.
//!
//! The provider's pages and the downstream protocols are all ASCII-framed
//! text, so the parsers in this crate work over byte sequences. A `&str`
//! enters through [`str_to_bytes`] and leaves through [`ascii_to_string`];
//! everything in between is specified over `Seq<u8>`.

use vstd::prelude::*;
use vstd::string::StrSliceExecFns;
use vstd::string::StringSliceAdditionalSpecFns;

verus! {

/// The needle `n` occurs in `h` at offset `i`.
pub open spec fn matches_at(h: Seq<u8>, i: int, n: Seq<u8>) -> bool {
    0 <= i && i + n.len() <= h.len() && h.subrange(i, i + n.len() as int) == n
}

/// The needle `n` occurs somewhere in `h`.
pub open spec fn contains_seq(h: Seq<u8>, n: Seq<u8>) -> bool {
    exists|i: int| matches_at(h, i, n)
}

/// An ASCII decimal digit.
pub open spec fn is_digit_byte(b: u8) -> bool {
    48 <= b && b <= 57
}

/// Every byte of `s` is an ASCII decimal digit.
pub open spec fn all_digits(s: Seq<u8>) -> bool {
    forall|i: int| 0 <= i < s.len() ==> is_digit_byte(#[trigger] s[i])
}

/// The number written by the digit string `s` (most significant first).
pub open spec fn digits_value(s: Seq<u8>) -> int
    decreases s.len(),
{
    if s.len() == 0 {
        0
    } else {
        digits_value(s.drop_last()) * 10 + (s.last() - 48)
    }
}

/// ASCII whitespace, as the provider's markup uses it.
pub open spec fn is_space_byte(b: u8) -> bool {
    b == 32 || b == 9 || b == 10 || b == 13 || b == 11 || b == 12
}

/// A word byte: letter, digit or underscore.
pub open spec fn is_word_byte(b: u8) -> bool {
    (48 <= b && b <= 57) || (65 <= b && b <= 90) || (97 <= b && b <= 122) || b == 95
}

/// `s` without its leading whitespace.
pub open spec fn trim_start_spec(s: Seq<u8>) -> Seq<u8>
    decreases s.len(),
{
    if s.len() > 0 && is_space_byte(s[0]) {
        trim_start_spec(s.drop_first())
    } else {
        s
    }
}

/// `s` without its trailing whitespace.
pub open spec fn trim_end_spec(s: Seq<u8>) -> Seq<u8>
    decreases s.len(),
{
    if s.len() > 0 && is_space_byte(s.last()) {
        trim_end_spec(s.drop_last())
    } else {
        s
    }
}

/// `s` without leading and trailing whitespace.
pub open spec fn trim_spec(s: Seq<u8>) -> Seq<u8> {
    trim_end_spec(trim_start_spec(s))
}

/// The characters of an ASCII byte sequence.
pub open spec fn ascii_seq(s: Seq<u8>) -> Seq<char> {
    s.map_values(|b: u8| b as char)
}

/// Every byte of `s` is ASCII.
pub open spec fn all_ascii(s: Seq<u8>) -> bool {
    forall|i: int| 0 <= i < s.len() ==> #[trigger] s[i] < 128
}

/// Relies on `String::from_utf8`: a sequence of ASCII bytes is valid
/// UTF-8 and decodes to exactly those characters.
#[verifier::external_body]
pub(crate) fn ascii_to_string(v: Vec<u8>) -> (r: String)
    requires
        all_ascii(v@),
    ensures
        r@ == ascii_seq(v@),
{
    match String::from_utf8(v) {
        Ok(s) => s,
        Err(_) => String::new(),
    }
}

/// The bytes of a string, UTF-8 encoded.
pub fn str_to_bytes(s: &str) -> (v: Vec<u8>)
    ensures
        v@ == s.spec_bytes(),
{
    s.as_bytes_vec()
}

/// The offset of the first occurrence of `n` in `h`, if any.
pub open spec fn first_index_of(h: Seq<u8>, n: Seq<u8>) -> Option<int>
    decreases h.len(),
{
    if h.len() < n.len() {
        None
    } else if h.subrange(0, n.len() as int) == n {
        Some(0)
    } else if h.len() == 0 {
        None
    } else {
        match first_index_of(h.drop_first(), n) {
            Some(i) => Some(i + 1),
            None => None,
        }
    }
}

/// `n` occurs at `i` in `h` and nowhere earlier.
pub open spec fn is_first_match(h: Seq<u8>, i: int, n: Seq<u8>) -> bool {
    matches_at(h, i, n) && forall|j: int| 0 <= j < i ==> !matches_at(h, j, n)
}

/// The end of the run of digits starting at `from` (spec level).
pub open spec fn digit_run_end(h: Seq<u8>, from: int) -> int
    decreases h.len() - from,
    when 0 <= from <= h.len()
{
    if from < h.len() && is_digit_byte(h[from]) {
        digit_run_end(h, from + 1)
    } else {
        from
    }
}

/// The end of the run of word bytes starting at `from` (spec level).
pub open spec fn word_run_end(h: Seq<u8>, from: int) -> int
    decreases h.len() - from,
    when 0 <= from <= h.len()
{
    if from < h.len() && is_word_byte(h[from]) {
        word_run_end(h, from + 1)
    } else {
        from
    }
}

/// The end of the run of whitespace starting at `from` (spec level).
pub open spec fn space_run_end(h: Seq<u8>, from: int) -> int
    decreases h.len() - from,
    when 0 <= from <= h.len()
{
    if from < h.len() && is_space_byte(h[from]) {
        space_run_end(h, from + 1)
    } else {
        from
    }
}

/// A first match is what `first_index_of` finds.
pub proof fn lemma_first_index_of_some(h: Seq<u8>, n: Seq<u8>, i: int)
    requires
        is_first_match(h, i, n),
    ensures
        first_index_of(h, n) == Some(i),
    decreases i,
{
    if i == 0 {
        assert(h.subrange(0, n.len() as int) == n);
    } else {
        assert(!matches_at(h, 0, n));
        assert(h.subrange(0, n.len() as int) != n || h.len() < n.len());
        let t = h.drop_first();
        assert(matches_at(t, i - 1, n)) by {
            assert(t.subrange(i - 1, i - 1 + n.len()) =~= h.subrange(i, i + n.len()));
        }
        assert(forall|j: int| 0 <= j < i - 1 ==> !matches_at(t, j, n)) by {
            assert forall|j: int| 0 <= j < i - 1 implies !matches_at(t, j, n) by {
                if matches_at(t, j, n) {
                    assert(matches_at(h, j + 1, n)) by {
                        assert(h.subrange(j + 1, j + 1 + n.len()) =~= t.subrange(j, j + n.len()));
                    }
                }
            }
        }
        lemma_first_index_of_some(t, n, i - 1);
        assert(h.len() >= n.len());
    }
}

/// Where nothing matches, `first_index_of` finds nothing.
pub proof fn lemma_first_index_of_none(h: Seq<u8>, n: Seq<u8>)
    requires
        !contains_seq(h, n),
    ensures
        first_index_of(h, n) is None,
    decreases h.len(),
{
    if h.len() >= n.len() {
        assert(!matches_at(h, 0, n));
        assert(h.subrange(0, n.len() as int) != n);
        if h.len() > 0 {
            let t = h.drop_first();
            assert(!contains_seq(t, n)) by {
                if contains_seq(t, n) {
                    let j = choose|j: int| matches_at(t, j, n);
                    assert(matches_at(h, j + 1, n)) by {
                        assert(h.subrange(j + 1, j + 1 + n.len()) =~= t.subrange(j, j + n.len()));
                    }
                }
            }
            lemma_first_index_of_none(t, n);
        }
    }
}

/// Whether `n` occurs in `h` at offset `at`.
pub fn matches_prefix_at(h: &Vec<u8>, at: usize, n: &Vec<u8>) -> (r: bool)
    requires
        at <= h@.len(),
    ensures
        r == matches_at(h@, at as int, n@),
{
    if n.len() > h.len() - at {
        assert(!matches_at(h@, at as int, n@));
        return false;
    }
    let hl: usize = h.len();
    let mut j: usize = 0;
    while j < n.len()
        invariant
            h@.len() == hl,
            at + n@.len() <= h@.len(),
            0 <= j <= n@.len(),
            forall|k: int| 0 <= k < j ==> h@[at + k] == n@[k],
        decreases n@.len() - j,
    {
        if h[at + j] != n[j] {
            assert(h@.subrange(at as int, at + n@.len()) != n@) by {
                assert(h@.subrange(at as int, at + n@.len())[j as int] == h@[at + j]);
            }
            return false;
        }
        j += 1;
    }
    assert(h@.subrange(at as int, at + n@.len()) =~= n@);
    true
}

/// The first offset at which `n` occurs in `h`, if any.
pub fn find_first(h: &Vec<u8>, n: &Vec<u8>) -> (r: Option<usize>)
    ensures
        match r {
            Some(i) => is_first_match(h@, i as int, n@) && first_index_of(h@, n@) == Some(i as int),
            None => !contains_seq(h@, n@) && first_index_of(h@, n@) is None,
        },
{
    if n.len() > h.len() {
        assert(forall|i: int| !matches_at(h@, i, n@));
        proof {
            lemma_first_index_of_none(h@, n@);
        }
        return None;
    }
    if n.len() == 0 {
        assert(matches_at(h@, 0, n@)) by {
            assert(h@.subrange(0, 0) =~= n@);
        }
        proof {
            lemma_first_index_of_some(h@, n@, 0);
        }
        return Some(0);
    }
    let hl: usize = h.len();
    let last: usize = h.len() - n.len();
    let mut i: usize = 0;
    loop
        invariant
            h@.len() == hl,
            1 <= n@.len() <= h@.len(),
            last == h@.len() - n@.len(),
            0 <= i <= last + 1,
            forall|j: int| 0 <= j < i ==> !matches_at(h@, j, n@),
        decreases last + 1 - i,
    {
        if i > last {
            assert(forall|j: int| !matches_at(h@, j, n@)) by {
                assert(forall|j: int| j > last ==> !matches_at(h@, j, n@));
            }
            proof {
                lemma_first_index_of_none(h@, n@);
            }
            return None;
        }
        if matches_prefix_at(h, i, n) {
            proof {
                lemma_first_index_of_some(h@, n@, i as int);
            }
            return Some(i);
        }
        i += 1;
    }
}

/// Whether `n` occurs anywhere in `h`.
pub fn contains_bytes(h: &Vec<u8>, n: &Vec<u8>) -> (r: bool)
    ensures
        r == contains_seq(h@, n@),
{
    match find_first(h, n) {
        Some(_) => true,
        None => false,
    }
}

/// The end of the run of digits starting at `from`.
pub fn scan_digits_end(h: &Vec<u8>, from: usize) -> (end: usize)
    requires
        from <= h@.len(),
    ensures
        from <= end <= h@.len(),
        forall|k: int| from <= k < end ==> is_digit_byte(#[trigger] h@[k]),
        end < h@.len() ==> !is_digit_byte(h@[end as int]),
        end == digit_run_end(h@, from as int),
{
    let mut end: usize = from;
    while end < h.len() && 48 <= h[end] && h[end] <= 57
        invariant
            from <= end <= h@.len(),
            forall|k: int| from <= k < end ==> is_digit_byte(#[trigger] h@[k]),
            digit_run_end(h@, from as int) == digit_run_end(h@, end as int),
        decreases h@.len() - end,
    {
        end += 1;
    }
    end
}

/// The end of the run of word bytes starting at `from`.
pub fn scan_word_end(h: &Vec<u8>, from: usize) -> (end: usize)
    requires
        from <= h@.len(),
    ensures
        from <= end <= h@.len(),
        forall|k: int| from <= k < end ==> is_word_byte(#[trigger] h@[k]),
        end < h@.len() ==> !is_word_byte(h@[end as int]),
        end == word_run_end(h@, from as int),
{
    let mut end: usize = from;
    while end < h.len() && ((48 <= h[end] && h[end] <= 57) || (65 <= h[end] && h[end] <= 90)
        || (97 <= h[end] && h[end] <= 122) || h[end] == 95)
        invariant
            from <= end <= h@.len(),
            forall|k: int| from <= k < end ==> is_word_byte(#[trigger] h@[k]),
            word_run_end(h@, from as int) == word_run_end(h@, end as int),
        decreases h@.len() - end,
    {
        end += 1;
    }
    end
}

/// The first non-whitespace offset at or after `from`.
pub fn skip_spaces(h: &Vec<u8>, from: usize) -> (end: usize)
    requires
        from <= h@.len(),
    ensures
        from <= end <= h@.len(),
        forall|k: int| from <= k < end ==> is_space_byte(#[trigger] h@[k]),
        end < h@.len() ==> !is_space_byte(h@[end as int]),
        end == space_run_end(h@, from as int),
{
    let mut end: usize = from;
    while end < h.len() && (h[end] == 32 || h[end] == 9 || h[end] == 10 || h[end] == 13
        || h[end] == 11 || h[end] == 12)
        invariant
            from <= end <= h@.len(),
            forall|k: int| from <= k < end ==> is_space_byte(#[trigger] h@[k]),
            space_run_end(h@, from as int) == space_run_end(h@, end as int),
        decreases h@.len() - end,
    {
        end += 1;
    }
    end
}

/// The bytes of `h` in `[from, to)`, as a fresh vector.
pub fn bytes_range(h: &Vec<u8>, from: usize, to: usize) -> (v: Vec<u8>)
    requires
        from <= to <= h@.len(),
    ensures
        v@ == h@.subrange(from as int, to as int),
{
    let mut v: Vec<u8> = Vec::new();
    proof {
        assert(v@ =~= h@.subrange(from as int, from as int));
    }
    let mut i: usize = from;
    while i < to
        invariant
            from <= i <= to <= h@.len(),
            v@ == h@.subrange(from as int, i as int),
        decreases to - i,
    {
        v.push(h[i]);
        proof {
            assert(h@.subrange(from as int, i + 1) =~= h@.subrange(from as int, i as int).push(
                h@[i as int],
            ));
        }
        i += 1;
    }
    proof {
        assert(v@ =~= h@.subrange(from as int, to as int));
    }
    v
}

/// The value of a digit string is never negative.
pub proof fn lemma_digits_value_nonneg(s: Seq<u8>)
    requires
        all_digits(s),
    ensures
        digits_value(s) >= 0,
    decreases s.len(),
{
    if s.len() > 0 {
        assert(all_digits(s.drop_last()));
        lemma_digits_value_nonneg(s.drop_last());
    }
}

/// Extending a digit string never shrinks its value.
pub proof fn lemma_digits_value_prefix(s: Seq<u8>, k: int)
    requires
        all_digits(s),
        0 <= k <= s.len(),
    ensures
        digits_value(s.subrange(0, k)) <= digits_value(s),
    decreases s.len() - k,
{
    if k < s.len() {
        let t = s.subrange(0, k + 1);
        assert(t.drop_last() =~= s.subrange(0, k));
        assert(all_digits(t.drop_last()));
        lemma_digits_value_nonneg(t.drop_last());
        assert(digits_value(t) == digits_value(s.subrange(0, k)) * 10 + (t.last() - 48));
        lemma_digits_value_prefix(s, k + 1);
    } else {
        assert(s.subrange(0, k) =~= s);
    }
}

/// The value of the digit run `[from, to)` of `h`, if it fits in a `u64`.
pub fn parse_u64_range(h: &Vec<u8>, from: usize, to: usize) -> (r: Option<u64>)
    requires
        from <= to <= h@.len(),
        all_digits(h@.subrange(from as int, to as int)),
    ensures
        match r {
            Some(v) => v as int == digits_value(h@.subrange(from as int, to as int)),
            None => digits_value(h@.subrange(from as int, to as int)) > u64::MAX as int,
        },
{
    let ghost whole = h@.subrange(from as int, to as int);
    let mut acc: u64 = 0;
    let mut i: usize = from;
    while i < to
        invariant
            from <= i <= to <= h@.len(),
            whole == h@.subrange(from as int, to as int),
            all_digits(whole),
            acc as int == digits_value(h@.subrange(from as int, i as int)),
        decreases to - i,
    {
        let ghost prefix = h@.subrange(from as int, i as int);
        let ghost next = h@.subrange(from as int, i + 1);
        proof {
            assert(next.drop_last() =~= prefix);
            assert(whole[i - from] == h@[i as int]);
            assert(is_digit_byte(h@[i as int]));
        }
        let d: u64 = (h[i] - 48) as u64;
        let stepped: Option<u64> = match acc.checked_mul(10) {
            Some(t) => t.checked_add(d),
            None => None,
        };
        match stepped {
            Some(v) => {
                acc = v;
            }
            None => {
                proof {
                    assert(digits_value(next) == digits_value(prefix) * 10 + (next.last() - 48));
                    assert(digits_value(next) > u64::MAX as int);
                    assert(next =~= whole.subrange(0, i + 1 - from));
                    lemma_digits_value_prefix(whole, i + 1 - from);
                }
                return None;
            }
        }
        i += 1;
    }
    assert(whole =~= h@.subrange(from as int, i as int));
    Some(acc)
}

/// A lone `u64` written in decimal, with surrounding whitespace allowed:
/// the number in `trim_spec(h)`, if that is a non-empty digit string whose
/// value fits.
pub fn parse_trimmed_u64(h: &Vec<u8>) -> (r: Option<u64>)
    ensures
        match r {
            Some(v) => trim_spec(h@).len() > 0 && all_digits(trim_spec(h@)) && v as int
                == digits_value(trim_spec(h@)),
            None => trim_spec(h@).len() == 0 || !all_digits(trim_spec(h@)) || digits_value(
                trim_spec(h@),
            ) > u64::MAX as int,
        },
{
    let start: usize = skip_spaces(h, 0);
    proof {
        lemma_trim_start_is_subrange(h@, start as int);
    }
    let end: usize = scan_digits_end(h, start);
    if start == end {
        // no leading digit: either nothing is left or it is not a number
        proof {
            lemma_trim_end_of_non_space(h@, start as int);
        }
        return None;
    }
    if end < h.len() {
        let rest: usize = skip_spaces(h, end);
        if rest < h.len() {
            // a stray byte after the digits and spaces
            proof {
                lemma_trim_not_all_digits(h@, start as int, end as int, rest as int);
            }
            return None;
        }
        proof {
            lemma_trim_digits_then_spaces(h@, start as int, end as int);
        }
    } else {
        proof {
            lemma_trim_digits_then_spaces(h@, start as int, end as int);
        }
    }
    parse_u64_range(h, start, end)
}

/// If the first `k` bytes are spaces and byte `k` is not (or the string
/// ends there), trimming the start drops exactly those `k` bytes.
proof fn lemma_trim_start_is_subrange(s: Seq<u8>, k: int)
    requires
        0 <= k <= s.len(),
        forall|i: int| 0 <= i < k ==> is_space_byte(#[trigger] s[i]),
        k < s.len() ==> !is_space_byte(s[k]),
    ensures
        trim_start_spec(s) == s.subrange(k, s.len() as int),
    decreases k,
{
    if k == 0 {
        assert(s.subrange(0, s.len() as int) =~= s);
    } else {
        let t = s.drop_first();
        assert(forall|i: int| 0 <= i < k - 1 ==> is_space_byte(#[trigger] t[i]));
        lemma_trim_start_is_subrange(t, k - 1);
        assert(t.subrange(k - 1, t.len() as int) =~= s.subrange(k, s.len() as int));
    }
}

/// A string whose first byte is not a space loses nothing at either end
/// unless it ends in spaces; an empty remainder trims to empty.
proof fn lemma_trim_end_of_non_space(s: Seq<u8>, k: int)
    requires
        0 <= k <= s.len(),
        trim_start_spec(s) == s.subrange(k, s.len() as int),
        k < s.len() ==> !is_digit_byte(s[k]) && !is_space_byte(s[k]),
    ensures
        trim_spec(s).len() == 0 || !all_digits(trim_spec(s)),
{
    let t = s.subrange(k, s.len() as int);
    if t.len() == 0 {
        lemma_trim_end_keeps_prefix(t);
    } else {
        lemma_trim_end_keeps_first(t);
    }
}

/// Trimming the end of an empty string gives the empty string.
proof fn lemma_trim_end_keeps_prefix(s: Seq<u8>)
    requires
        s.len() == 0,
    ensures
        trim_end_spec(s).len() == 0,
{
}

/// Trimming the end keeps the first byte of a string that does not
/// become empty; if the first byte is not a space, the string cannot
/// become empty, for the last byte kept would have had to be a space.
proof fn lemma_trim_end_keeps_first(s: Seq<u8>)
    requires
        s.len() > 0,
        !is_space_byte(s[0]),
    ensures
        trim_end_spec(s).len() > 0,
        trim_end_spec(s)[0] == s[0],
    decreases s.len(),
{
    if is_space_byte(s.last()) {
        let t = s.drop_last();
        assert(t.len() > 0) by {
            assert(!is_space_byte(s[0]) && is_space_byte(s.last()));
        }
        assert(t[0] == s[0]);
        lemma_trim_end_keeps_first(t);
    }
}

/// If what remains after leading spaces is digits followed only by
/// spaces, the trimmed string is exactly that digit run.
proof fn lemma_trim_digits_then_spaces(s: Seq<u8>, start: int, end: int)
    requires
        0 <= start <= end <= s.len(),
        trim_start_spec(s) == s.subrange(start, s.len() as int),
        forall|k: int| start <= k < end ==> is_digit_byte(#[trigger] s[k]),
        forall|k: int| end <= k < s.len() ==> is_space_byte(#[trigger] s[k]),
    ensures
        trim_spec(s) == s.subrange(start, end),
{
    lemma_trim_end_to(s.subrange(start, s.len() as int), end - start);
    assert(s.subrange(start, s.len() as int).subrange(0, end - start) =~= s.subrange(start, end));
}

/// Trimming the end of a string whose tail from `k` on is all spaces,
/// and whose byte before `k` (if any) is not a space, keeps `[0, k)`.
proof fn lemma_trim_end_to(s: Seq<u8>, k: int)
    requires
        0 <= k <= s.len(),
        forall|i: int| k <= i < s.len() ==> is_space_byte(#[trigger] s[i]),
        k > 0 ==> !is_space_byte(s[k - 1]),
    ensures
        trim_end_spec(s) == s.subrange(0, k),
    decreases s.len(),
{
    if s.len() == 0 {
        assert(s.subrange(0, k) =~= s);
    } else if k == s.len() {
        assert(!is_space_byte(s.last()));
        assert(s.subrange(0, k) =~= s);
    } else {
        let t = s.drop_last();
        assert(forall|i: int| k <= i < t.len() ==> is_space_byte(#[trigger] t[i]));
        lemma_trim_end_to(t, k);
        assert(t.subrange(0, k) =~= s.subrange(0, k));
    }
}

/// Trimming the end keeps a prefix of the string.
proof fn lemma_trim_end_prefix(s: Seq<u8>)
    ensures
        trim_end_spec(s).len() <= s.len(),
        trim_end_spec(s) == s.subrange(0, trim_end_spec(s).len() as int),
    decreases s.len(),
{
    if s.len() > 0 && is_space_byte(s.last()) {
        lemma_trim_end_prefix(s.drop_last());
        assert(s.drop_last().subrange(0, trim_end_spec(s).len() as int) =~= s.subrange(
            0,
            trim_end_spec(s).len() as int,
        ));
    } else {
        assert(s.subrange(0, s.len() as int) =~= s);
    }
}

/// With digits at `[start, end)`, spaces at `[end, rest)` and a
/// non-space byte at `rest`, the trimmed string is not a pure digit run:
/// it keeps either an inner space or a non-digit byte.
proof fn lemma_trim_not_all_digits(s: Seq<u8>, start: int, end: int, rest: int)
    requires
        0 <= start < end <= rest < s.len(),
        trim_start_spec(s) == s.subrange(start, s.len() as int),
        forall|k: int| start <= k < end ==> is_digit_byte(#[trigger] s[k]),
        forall|k: int| end <= k < rest ==> is_space_byte(#[trigger] s[k]),
        !is_space_byte(s[rest]),
        end == rest ==> !is_digit_byte(s[rest]),
    ensures
        trim_spec(s).len() == 0 || !all_digits(trim_spec(s)),
{
    let t = s.subrange(start, s.len() as int);
    lemma_trim_end_keeps_suffix_byte(t, rest - start);
    lemma_trim_end_prefix(t);
    let u = trim_end_spec(t);
    if end == rest {
        assert(u[rest - start] == t[rest - start]);
        assert(t[rest - start] == s[rest]);
        assert(!is_digit_byte(u[rest - start]));
    } else {
        assert(u[end - start] == t[end - start]);
        assert(t[end - start] == s[end]);
        assert(is_space_byte(s[end]));
        assert(!is_digit_byte(u[end - start]));
    }
}

/// A non-space byte at offset `k` survives trimming the end.
proof fn lemma_trim_end_keeps_suffix_byte(s: Seq<u8>, k: int)
    requires
        0 <= k < s.len(),
        !is_space_byte(s[k]),
    ensures
        trim_end_spec(s).len() > k,
        trim_end_spec(s)[k] == s[k],
    decreases s.len(),
{
    if is_space_byte(s.last()) {
        let t = s.drop_last();
        assert(k < t.len()) by {
            assert(!is_space_byte(s[k]) && is_space_byte(s.last()));
        }
        lemma_trim_end_keeps_suffix_byte(t, k);
    }
}

/// ASCII whitespace, at character level.
pub open spec fn is_space_char(c: char) -> bool {
    c == ' ' || c == '\t' || c == '\n' || c == '\r' || c == '\u{b}' || c == '\u{c}'
}

/// `s` without its leading whitespace characters.
pub open spec fn trim_start_chars(s: Seq<char>) -> Seq<char>
    decreases s.len(),
{
    if s.len() > 0 && is_space_char(s[0]) {
        trim_start_chars(s.drop_first())
    } else {
        s
    }
}

/// `s` without its trailing whitespace characters.
pub open spec fn trim_end_chars(s: Seq<char>) -> Seq<char>
    decreases s.len(),
{
    if s.len() > 0 && is_space_char(s.last()) {
        trim_end_chars(s.drop_last())
    } else {
        s
    }
}

/// `s` without leading and trailing whitespace characters.
pub open spec fn trim_chars(s: Seq<char>) -> Seq<char> {
    trim_end_chars(trim_start_chars(s))
}

/// All the texts, one after the other.
pub open spec fn concat_texts(ts: Seq<Seq<char>>) -> Seq<char>
    decreases ts.len(),
{
    if ts.len() == 0 {
        Seq::empty()
    } else {
        concat_texts(ts.drop_last()) + ts.last()
    }
}

/// Whether `c` is ASCII whitespace.
pub fn space_char(c: char) -> (r: bool)
    ensures
        r == is_space_char(c),
{
    c == ' ' || c == '\t' || c == '\n' || c == '\r' || c == '\u{b}' || c == '\u{c}'
}

/// All the texts joined into one string.
pub fn join_texts(texts: &Vec<String>) -> (s: String)
    ensures
        s@ == concat_texts(texts.deep_view()),
{
    let ghost ts = texts.deep_view();
    let mut s = String::new();
    let mut i: usize = 0;
    proof {
        assert(ts.take(0) =~= Seq::<Seq<char>>::empty());
    }
    while i < texts.len()
        invariant
            0 <= i <= texts@.len(),
            ts == texts.deep_view(),
            ts.len() == texts@.len(),
            s@ == concat_texts(ts.take(i as int)),
        decreases texts@.len() - i,
    {
        proof {
            assert(ts.take(i + 1).drop_last() =~= ts.take(i as int));
            assert(ts.take(i + 1).last() == ts[i as int]);
            assert(ts[i as int] == texts@[i as int]@);
        }
        s.append(texts[i].as_str());
        i += 1;
    }
    proof {
        assert(ts.take(texts@.len() as int) =~= ts);
    }
    s
}

/// If the first `k` characters are spaces and character `k` is not (or
/// the string ends there), trimming the start drops exactly those `k`.
proof fn lemma_trim_start_chars_is_subrange(s: Seq<char>, k: int)
    requires
        0 <= k <= s.len(),
        forall|i: int| 0 <= i < k ==> is_space_char(#[trigger] s[i]),
        k < s.len() ==> !is_space_char(s[k]),
    ensures
        trim_start_chars(s) == s.subrange(k, s.len() as int),
    decreases k,
{
    if k == 0 {
        assert(s.subrange(0, s.len() as int) =~= s);
    } else {
        let t = s.drop_first();
        assert(forall|i: int| 0 <= i < k - 1 ==> is_space_char(#[trigger] t[i]));
        lemma_trim_start_chars_is_subrange(t, k - 1);
        assert(t.subrange(k - 1, t.len() as int) =~= s.subrange(k, s.len() as int));
    }
}

/// Trimming the end of a string whose tail from `k` on is all spaces,
/// and whose character before `k` (if any) is not a space, keeps `[0, k)`.
proof fn lemma_trim_end_chars_to(s: Seq<char>, k: int)
    requires
        0 <= k <= s.len(),
        forall|i: int| k <= i < s.len() ==> is_space_char(#[trigger] s[i]),
        k > 0 ==> !is_space_char(s[k - 1]),
    ensures
        trim_end_chars(s) == s.subrange(0, k),
    decreases s.len(),
{
    if s.len() == 0 {
        assert(s.subrange(0, k) =~= s);
    } else if k == s.len() {
        assert(!is_space_char(s.last()));
        assert(s.subrange(0, k) =~= s);
    } else {
        let t = s.drop_last();
        assert(forall|i: int| k <= i < t.len() ==> is_space_char(#[trigger] t[i]));
        lemma_trim_end_chars_to(t, k);
        assert(t.subrange(0, k) =~= s.subrange(0, k));
    }
}

/// `s` with leading and trailing whitespace characters removed.
pub fn trim_string(s: &str) -> (r: String)
    ensures
        r@ == trim_chars(s@),
{
    let n = s.unicode_len();
    let mut a: usize = 0;
    while a < n && space_char(s.get_char(a))
        invariant
            0 <= a <= n == s@.len(),
            forall|i: int| 0 <= i < a ==> is_space_char(#[trigger] s@[i]),
        decreases n - a,
    {
        a += 1;
    }
    let mut b: usize = n;
    while b > a && space_char(s.get_char(b - 1))
        invariant
            a <= b <= n == s@.len(),
            forall|i: int| b <= i < n ==> is_space_char(#[trigger] s@[i]),
        decreases b,
    {
        b -= 1;
    }
    proof {
        lemma_trim_start_chars_is_subrange(s@, a as int);
        let t = s@.subrange(a as int, s@.len() as int);
        lemma_trim_end_chars_to(t, b - a);
        assert(t.subrange(0, b - a) =~= s@.subrange(a as int, b as int));
    }
    let piece = s.substring_char(a, b);
    piece.to_owned()
}

/// The decimal digits of `n`, most significant first.
pub open spec fn decimal_of(n: nat) -> Seq<u8>
    decreases n,
{
    if n < 10 {
        seq![(48 + n) as u8]
    } else {
        decimal_of(n / 10).push((48 + n % 10) as u8)
    }
}

/// Decimal digits are ASCII digits.
pub proof fn lemma_decimal_of_digits(n: nat)
    ensures
        all_digits(decimal_of(n)),
        all_ascii(decimal_of(n)),
        decimal_of(n).len() > 0,
    decreases n,
{
    if n >= 10 {
        lemma_decimal_of_digits(n / 10);
        assert forall|i: int| 0 <= i < decimal_of(n).len() implies is_digit_byte(
            #[trigger] decimal_of(n)[i],
        ) by {
            if i < decimal_of(n / 10).len() {
                assert(decimal_of(n)[i] == decimal_of(n / 10)[i]);
            }
        }
        assert forall|i: int| 0 <= i < decimal_of(n).len() implies #[trigger] decimal_of(n)[i]
            < 128 by {
            if i < decimal_of(n / 10).len() {
                assert(decimal_of(n)[i] == decimal_of(n / 10)[i]);
            }
        }
    }
}

/// Reading the decimal digits of `n` back gives `n`.
pub proof fn lemma_decimal_of_value(n: nat)
    ensures
        digits_value(decimal_of(n)) == n,
    decreases n,
{
    if n < 10 {
        let s = decimal_of(n);
        assert(s == seq![(48 + n) as u8]);
        assert(s.drop_last() =~= Seq::<u8>::empty());
        assert(digits_value(s.drop_last()) == 0);
        assert(s.last() == (48 + n) as u8);
        assert(digits_value(s) == 0 * 10 + ((48 + n) as u8 - 48));
    } else {
        lemma_decimal_of_value(n / 10);
        let s = decimal_of(n);
        assert(s == decimal_of(n / 10).push((48 + n % 10) as u8));
        assert(s.drop_last() =~= decimal_of(n / 10));
        assert(s.last() == (48 + n % 10) as u8);
        assert(digits_value(s) == digits_value(decimal_of(n / 10)) * 10 + ((48 + n % 10) as u8
            - 48));
        assert(n / 10 * 10 + n % 10 == n);
    }
}

/// `n` written in decimal, as bytes.
pub fn u64_to_decimal(n: u64) -> (v: Vec<u8>)
    ensures
        v@ == decimal_of(n as nat),
    decreases n,
{
    if n < 10 {
        let mut v: Vec<u8> = Vec::new();
        v.push(48 + n as u8);
        assert(v@ =~= decimal_of(n as nat));
        v
    } else {
        let mut v = u64_to_decimal(n / 10);
        v.push(48 + (n % 10) as u8);
        assert(v@ =~= decimal_of(n as nat));
        v
    }
}

/// `n` written in decimal, as a string.
pub fn u64_to_string(n: u64) -> (s: String)
    ensures
        s@ == ascii_seq(decimal_of(n as nat)),
{
    let v = u64_to_decimal(n);
    proof {
        lemma_decimal_of_digits(n as nat);
        lemma_decimal_of_value(n as nat);
    }
    ascii_to_string(v)
}

/// The characters `n` stand in `s` at offset `i`.
pub open spec fn matches_chars_at(s: Seq<char>, i: int, n: Seq<char>) -> bool {
    0 <= i && i + n.len() <= s.len() && s.subrange(i, i + n.len() as int) == n
}

/// Whether the characters of `n` stand in `s` at offset `at`.
pub fn chars_match_at(s: &str, at: usize, n: &str) -> (r: bool)
    requires
        at <= s@.len(),
    ensures
        r == matches_chars_at(s@, at as int, n@),
{
    let sl = s.unicode_len();
    let nl = n.unicode_len();
    if nl > sl - at {
        assert(!matches_chars_at(s@, at as int, n@));
        return false;
    }
    let mut j: usize = 0;
    while j < nl
        invariant
            at + nl <= sl == s@.len(),
            nl == n@.len(),
            0 <= j <= nl,
            forall|k: int| 0 <= k < j ==> s@[at + k] == n@[k],
        decreases nl - j,
    {
        if s.get_char(at + j) != n.get_char(j) {
            assert(s@.subrange(at as int, at + n@.len()) != n@) by {
                assert(s@.subrange(at as int, at + n@.len())[j as int] == s@[at + j]);
            }
            return false;
        }
        j += 1;
    }
    assert(s@.subrange(at as int, at + n@.len()) =~= n@);
    true
}

/// `s` with every occurrence of `n` replaced by `r`, scanning left to
/// right and never rescanning replaced text.
pub open spec fn replace_chars(s: Seq<char>, n: Seq<char>, r: Seq<char>) -> Seq<char>
    decreases s.len(),
    when n.len() > 0
{
    if s.len() < n.len() {
        s
    } else if s.subrange(0, n.len() as int) == n {
        r + replace_chars(s.subrange(n.len() as int, s.len() as int), n, r)
    } else {
        seq![s[0]] + replace_chars(s.drop_first(), n, r)
    }
}

/// `s` with every occurrence of `needle` replaced by `repl`.
pub fn replace_str(s: &str, needle: &str, repl: &str) -> (out: String)
    requires
        needle@.len() > 0,
    ensures
        out@ == replace_chars(s@, needle@, repl@),
{
    let sl = s.unicode_len();
    let nl = needle.unicode_len();
    let mut out = String::new();
    let mut i: usize = 0;
    proof {
        assert(s@.subrange(0, s@.len() as int) =~= s@);
        assert(out@ + replace_chars(s@, needle@, repl@) =~= replace_chars(s@, needle@, repl@));
    }
    while i < sl
        invariant
            0 <= i <= sl == s@.len(),
            nl == needle@.len(),
            needle@.len() > 0,
            replace_chars(s@, needle@, repl@) == out@ + replace_chars(
                s@.subrange(i as int, s@.len() as int),
                needle@,
                repl@,
            ),
        decreases s@.len() - i,
    {
        let ghost rest = s@.subrange(i as int, s@.len() as int);
        let ghost out0 = out@;
        if chars_match_at(s, i, needle) {
            let ghost tail = s@.subrange(i + needle@.len(), s@.len() as int);
            proof {
                assert(rest.subrange(0, needle@.len() as int) =~= s@.subrange(
                    i as int,
                    i + needle@.len(),
                ));
                assert(rest.subrange(needle@.len() as int, rest.len() as int) =~= tail);
                assert(replace_chars(rest, needle@, repl@) == repl@ + replace_chars(
                    tail,
                    needle@,
                    repl@,
                ));
                assert(out0 + (repl@ + replace_chars(tail, needle@, repl@)) =~= (out0 + repl@)
                    + replace_chars(tail, needle@, repl@));
            }
            out.append(repl);
            i += nl;
        } else {
            let ghost tail = s@.subrange(i + 1, s@.len() as int);
            proof {
                if rest.len() >= needle@.len() {
                    assert(rest.subrange(0, needle@.len() as int) =~= s@.subrange(
                        i as int,
                        i + needle@.len(),
                    ));
                }
                assert(rest.drop_first() =~= tail);
                assert(replace_chars(rest, needle@, repl@) == seq![rest[0]] + replace_chars(
                    tail,
                    needle@,
                    repl@,
                ));
                assert(out0 + (seq![rest[0]] + replace_chars(tail, needle@, repl@)) =~= (out0
                    + seq![rest[0]]) + replace_chars(tail, needle@, repl@));
                assert(rest[0] == s@[i as int]);
                assert(s@.subrange(i as int, i + 1) =~= seq![s@[i as int]]);
            }
            let piece = s.substring_char(i, i + 1);
            out.append(piece);
            i += 1;
        }
    }
    proof {
        assert(s@.subrange(i as int, s@.len() as int) =~= Seq::<char>::empty());
        assert(out@ + replace_chars(Seq::<char>::empty(), needle@, repl@) =~= out@);
    }
    out
}

/// `s` ends with the characters of `suffix`.
pub open spec fn ends_with_chars(s: Seq<char>, suffix: Seq<char>) -> bool {
    s.len() >= suffix.len() && s.subrange(s.len() - suffix.len(), s.len() as int) == suffix
}

/// Whether `s` ends with `suffix`.
pub fn ends_with_str(s: &str, suffix: &str) -> (r: bool)
    ensures
        r == ends_with_chars(s@, suffix@),
{
    let sl = s.unicode_len();
    let nl = suffix.unicode_len();
    if nl > sl {
        return false;
    }
    chars_match_at(s, sl - nl, suffix)
}

/// `base` anchored to end in `/` followed by `tail`: kept as it is
/// where it already does; completed with `tail` where it ends in `/`;
/// joined with `/` and `tail` otherwise.
pub open spec fn spec_base_url(base: Seq<char>, tail: Seq<char>) -> Seq<char> {
    let full = seq!['/'] + tail;
    if ends_with_chars(base, full) {
        base
    } else if ends_with_chars(base, seq!['/']) {
        base + tail
    } else {
        base + full
    }
}

/// Anchor `base` to end in `/` followed by `tail`.
pub fn base_url(base: &str, tail: &str) -> (r: String)
    ensures
        r@ == spec_base_url(base@, tail@),
{
    let full = String::from_str("/").concat(tail);
    proof {
        reveal_strlit("/");
        assert(full@ =~= seq!['/'] + tail@);
    }
    if ends_with_str(base, full.as_str()) {
        base.to_owned()
    } else if ends_with_str(base, "/") {
        proof {
            assert("/"@ =~= seq!['/']);
        }
        String::from_str(base).concat(tail)
    } else {
        proof {
            assert("/"@ =~= seq!['/']);
        }
        String::from_str(base).concat(full.as_str())
    }
}

} // verus!
