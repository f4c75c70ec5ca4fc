//! Byte-oriented pattern matching with ASCII case folding.
//!
//! Every function here works on plain byte slices, allocates nothing and
//! runs in time bounded by the product of the two lengths.  Only the
//! letters `A`-`Z` are folded; every other byte, in particular every
//! byte of a multi-byte UTF-8 sequence, is compared as it stands.

use vstd::prelude::*;
use vstd::string::StringSliceAdditionalSpecFns;

verus! {

/// The ASCII lower-case form of a byte: `A`-`Z` become `a`-`z`, all
/// other bytes are left alone.
pub open spec fn lower(b: u8) -> u8 {
    if 0x41 <= b && b <= 0x5a {
        (b + 0x20) as u8
    } else {
        b
    }
}

/// The ASCII upper-case form of a byte: `a`-`z` become `A`-`Z`, all
/// other bytes are left alone.
pub open spec fn upper(b: u8) -> u8 {
    if 0x61 <= b && b <= 0x7a {
        (b - 0x20) as u8
    } else {
        b
    }
}

/// A byte string with every byte replaced by its lower-case form.
pub open spec fn fold(s: Seq<u8>) -> Seq<u8> {
    Seq::new(s.len(), |i: int| lower(s[i]))
}

/// Two byte strings are equal once both are case-folded.
pub open spec fn eq_ignore_case(a: Seq<u8>, b: Seq<u8>) -> bool {
    fold(a) == fold(b)
}

/// The window of `haystack` that starts at `at` and is as long as `needle`.
pub open spec fn window(haystack: Seq<u8>, needle: Seq<u8>, at: int) -> Seq<u8> {
    haystack.subrange(at, at + needle.len())
}

/// `at` is a position at which a window as long as `needle` fits in `haystack`.
pub open spec fn window_fits(haystack: Seq<u8>, needle: Seq<u8>, at: int) -> bool {
    0 <= at && at + needle.len() <= haystack.len()
}

/// `needle` stands in `haystack` at position `at`, byte for byte.
pub open spec fn occurs_at(haystack: Seq<u8>, needle: Seq<u8>, at: int) -> bool {
    window_fits(haystack, needle, at) && window(haystack, needle, at) == needle
}

/// `needle` stands somewhere in `haystack`, byte for byte.
pub open spec fn contains(haystack: Seq<u8>, needle: Seq<u8>) -> bool {
    exists|at: int| occurs_at(haystack, needle, at)
}

/// The window of `haystack` at `at` equals `needle` once both are folded.
pub open spec fn occurs_at_ignore_case(haystack: Seq<u8>, needle: Seq<u8>, at: int) -> bool {
    window_fits(haystack, needle, at) && eq_ignore_case(window(haystack, needle, at), needle)
}

/// Some window of `haystack` equals `needle` once both are folded.
pub open spec fn contains_ignore_case(haystack: Seq<u8>, needle: Seq<u8>) -> bool {
    exists|at: int| occurs_at_ignore_case(haystack, needle, at)
}

/// The first window of `haystack` equals `prefix` once both are folded.
pub open spec fn starts_with_fold(haystack: Seq<u8>, prefix: Seq<u8>) -> bool {
    occurs_at_ignore_case(haystack, prefix, 0)
}

/// The last window of `haystack` equals `suffix` once both are folded.
pub open spec fn ends_with_fold(haystack: Seq<u8>, suffix: Seq<u8>) -> bool {
    occurs_at_ignore_case(haystack, suffix, haystack.len() - suffix.len())
}

/// Some pattern of `patterns` occurs in `candidate`, ignoring ASCII case.
pub open spec fn matches_any(patterns: Seq<Seq<u8>>, candidate: Seq<u8>) -> bool {
    exists|i: int| 0 <= i < patterns.len() && contains_ignore_case(candidate, #[trigger] patterns[i])
}

/// The empty needle occurs at position 0 of every haystack, with or
/// without case folding.
pub proof fn empty_needle_occurs(haystack: Seq<u8>)
    ensures
        occurs_at(haystack, Seq::<u8>::empty(), 0),
        occurs_at_ignore_case(haystack, Seq::<u8>::empty(), 0),
        contains(haystack, Seq::<u8>::empty()),
        contains_ignore_case(haystack, Seq::<u8>::empty()),
{
    let empty = Seq::<u8>::empty();
    assert(window(haystack, empty, 0) =~= empty);
    assert(occurs_at(haystack, empty, 0));
    assert(occurs_at_ignore_case(haystack, empty, 0));
}

/// A needle longer than the haystack occurs nowhere in it, with or
/// without case folding.
pub proof fn longer_needle_never_occurs(haystack: Seq<u8>, needle: Seq<u8>)
    ensures
        needle.len() > haystack.len() ==> !contains(haystack, needle),
        needle.len() > haystack.len() ==> !contains_ignore_case(haystack, needle),
{
}

/// Folding a folded string changes nothing, and neither does folding
/// a byte that was raised to upper case first.
pub proof fn fold_is_idempotent(s: Seq<u8>)
    ensures
        fold(fold(s)) == fold(s),
        forall|b: u8| lower(lower(b)) == lower(b),
        forall|b: u8| lower(upper(b)) == lower(b),
        forall|b: u8| upper(lower(b)) == upper(b),
{
    assert(fold(fold(s)) =~= fold(s));
}

/// Equality without regard to case is an equivalence, and it holds
/// between a string and its folded form.
pub proof fn eq_ignore_case_is_an_equivalence(a: Seq<u8>, b: Seq<u8>, c: Seq<u8>)
    ensures
        eq_ignore_case(a, a),
        eq_ignore_case(a, b) ==> eq_ignore_case(b, a),
        eq_ignore_case(a, b) && eq_ignore_case(b, c) ==> eq_ignore_case(a, c),
        eq_ignore_case(a, b) ==> a.len() == b.len(),
        eq_ignore_case(a, fold(a)),
{
    fold_is_idempotent(a);
    if eq_ignore_case(a, b) {
        assert(fold(a).len() == fold(b).len());
    }
}

/// A search without regard to case succeeds exactly where some window of
/// the haystack, folded, equals the folded needle.
pub proof fn contains_ignore_case_means_a_folded_window(haystack: Seq<u8>, needle: Seq<u8>)
    ensures
        contains_ignore_case(haystack, needle) <==> exists|at: int|
            0 <= at <= haystack.len() - needle.len() && fold(
                #[trigger] haystack.subrange(at, at + needle.len()),
            ) == fold(needle),
        needle.len() > haystack.len() ==> !contains_ignore_case(haystack, needle),
{
    if contains_ignore_case(haystack, needle) {
        let at = choose|at: int| occurs_at_ignore_case(haystack, needle, at);
        assert(fold(haystack.subrange(at, at + needle.len())) == fold(needle));
    }
    if exists|at: int|
        0 <= at <= haystack.len() - needle.len() && fold(
            #[trigger] haystack.subrange(at, at + needle.len()),
        ) == fold(needle) {
        let at = choose|at: int|
            0 <= at <= haystack.len() - needle.len() && fold(
                #[trigger] haystack.subrange(at, at + needle.len()),
            ) == fold(needle);
        assert(occurs_at_ignore_case(haystack, needle, at));
    }
}

/// The folded window of a haystack is the window of the folded haystack.
proof fn fold_commutes_with_window(haystack: Seq<u8>, needle: Seq<u8>, at: int)
    requires
        window_fits(haystack, needle, at),
    ensures
        fold(window(haystack, needle, at)) == window(fold(haystack), fold(needle), at),
        window_fits(fold(haystack), fold(needle), at),
{
    assert(fold(window(haystack, needle, at)) =~= window(fold(haystack), fold(needle), at));
}

/// To search without regard to case is to fold both strings and then to
/// search byte for byte.
pub proof fn contains_ignore_case_is_contains_of_folds(haystack: Seq<u8>, needle: Seq<u8>)
    ensures
        contains_ignore_case(haystack, needle) <==> contains(fold(haystack), fold(needle)),
{
    if contains_ignore_case(haystack, needle) {
        let at = choose|at: int| occurs_at_ignore_case(haystack, needle, at);
        fold_commutes_with_window(haystack, needle, at);
        assert(occurs_at(fold(haystack), fold(needle), at));
    }
    if contains(fold(haystack), fold(needle)) {
        let at = choose|at: int| occurs_at(fold(haystack), fold(needle), at);
        assert(window_fits(haystack, needle, at));
        fold_commutes_with_window(haystack, needle, at);
        assert(occurs_at_ignore_case(haystack, needle, at));
    }
}

/// The outcome of a search without regard to case does not change where
/// the haystack, the needle or both are replaced by strings that differ
/// from them in case only.
pub proof fn matching_ignores_case(
    haystack: Seq<u8>,
    needle: Seq<u8>,
    other_haystack: Seq<u8>,
    other_needle: Seq<u8>,
)
    requires
        eq_ignore_case(haystack, other_haystack),
        eq_ignore_case(needle, other_needle),
    ensures
        contains_ignore_case(haystack, needle) == contains_ignore_case(
            other_haystack,
            other_needle,
        ),
{
    contains_ignore_case_is_contains_of_folds(haystack, needle);
    contains_ignore_case_is_contains_of_folds(other_haystack, other_needle);
}

/// What is found byte for byte is found without regard to case too.
pub proof fn exact_occurrence_is_found_ignoring_case(haystack: Seq<u8>, needle: Seq<u8>)
    ensures
        contains(haystack, needle) ==> contains_ignore_case(haystack, needle),
{
    if contains(haystack, needle) {
        let at = choose|at: int| occurs_at(haystack, needle, at);
        assert(occurs_at_ignore_case(haystack, needle, at));
    }
}

/// Lower-case form of one byte.
pub fn to_lower(b: u8) -> (folded: u8)
    ensures
        folded == lower(b),
{
    if 0x41 <= b && b <= 0x5a {
        b + 0x20
    } else {
        b
    }
}

/// Upper-case form of one byte.
pub fn to_upper(b: u8) -> (folded: u8)
    ensures
        folded == upper(b),
{
    if 0x61 <= b && b <= 0x7a {
        b - 0x20
    } else {
        b
    }
}

/// Compares two byte strings for equality, ignoring ASCII case.
///
/// Strings of different length are never equal.
pub fn bytes_equal_ignore_case(a: &[u8], b: &[u8]) -> (equal: bool)
    ensures
        equal == eq_ignore_case(a@, b@),
{
    if a.len() != b.len() {
        assert(fold(a@).len() != fold(b@).len());
        return false;
    }
    let n: usize = a.len();
    let mut i: usize = 0;
    while i < n
        invariant
            n == a@.len(),
            n == b@.len(),
            i <= n,
            forall|j: int| 0 <= j < i ==> lower(a@[j]) == lower(b@[j]),
        decreases n - i,
    {
        if to_lower(a[i]) != to_lower(b[i]) {
            assert(fold(a@)[i as int] != fold(b@)[i as int]);
            return false;
        }
        i += 1;
    }
    assert(fold(a@) =~= fold(b@));
    true
}

/// Tells whether `needle` occurs in `haystack`, byte for byte.
///
/// The empty needle occurs in every haystack; a needle longer than the
/// haystack occurs nowhere.
pub fn contains_bytes(haystack: &[u8], needle: &[u8]) -> (found: bool)
    ensures
        found == contains(haystack@, needle@),
        needle@.len() == 0 ==> found,
        needle@.len() > haystack@.len() ==> !found,
{
    if needle.len() > haystack.len() {
        return false;
    }
    let last: usize = haystack.len() - needle.len();
    let mut at: usize = 0;
    loop
        invariant
            last == haystack@.len() - needle@.len(),
            at <= last,
            forall|k: int| 0 <= k < at ==> !occurs_at(haystack@, needle@, k),
        decreases last - at,
    {
        if window_matches(haystack, needle, at) {
            assert(occurs_at(haystack@, needle@, at as int));
            return true;
        }
        if at == last {
            proof {
                empty_needle_occurs(haystack@);
                if needle@.len() == 0 {
                    assert(needle@ =~= Seq::<u8>::empty());
                }
            }
            return false;
        }
        at += 1;
    }
}

/// Compares the window of `haystack` at `at` with `needle`, byte for byte.
fn window_matches(haystack: &[u8], needle: &[u8], at: usize) -> (equal: bool)
    requires
        window_fits(haystack@, needle@, at as int),
    ensures
        equal == (window(haystack@, needle@, at as int) == needle@),
{
    let n: usize = needle.len();
    let end: usize = haystack.len();
    let mut i: usize = 0;
    while i < n
        invariant
            n == needle@.len(),
            end == haystack@.len(),
            at + n <= end,
            i <= n,
            forall|j: int| 0 <= j < i ==> haystack@[at + j] == needle@[j],
        decreases n - i,
    {
        if haystack[at + i] != needle[i] {
            assert(window(haystack@, needle@, at as int)[i as int] != needle@[i as int]);
            return false;
        }
        i += 1;
    }
    assert(window(haystack@, needle@, at as int) =~= needle@);
    true
}

/// Tells whether some window of `haystack` equals `needle`, ignoring
/// ASCII case.
///
/// The empty needle matches at position 0 of every haystack; a needle
/// longer than the haystack matches nowhere, and nothing outside the
/// haystack is read.
pub fn str_contains_ignore_case(haystack: &[u8], needle: &[u8]) -> (found: bool)
    ensures
        found == contains_ignore_case(haystack@, needle@),
        needle@.len() == 0 ==> found,
        needle@.len() > haystack@.len() ==> !found,
{
    if needle.len() > haystack.len() {
        return false;
    }
    let n: usize = needle.len();
    let end: usize = haystack.len();
    let last: usize = end - n;
    let mut at: usize = 0;
    loop
        invariant
            n == needle@.len(),
            end == haystack@.len(),
            last == end - n,
            at <= last,
            forall|k: int| 0 <= k < at ==> !occurs_at_ignore_case(haystack@, needle@, k),
        decreases last - at,
    {
        if bytes_equal_ignore_case(&haystack[at..at + n], needle) {
            assert(occurs_at_ignore_case(haystack@, needle@, at as int));
            return true;
        }
        if at == last {
            proof {
                empty_needle_occurs(haystack@);
                if needle@.len() == 0 {
                    assert(needle@ =~= Seq::<u8>::empty());
                }
            }
            return false;
        }
        at += 1;
    }
}

/// Tells whether `haystack` begins with `prefix`, ignoring ASCII case.
pub fn starts_with_ignore_case(haystack: &[u8], prefix: &[u8]) -> (found: bool)
    ensures
        found == starts_with_fold(haystack@, prefix@),
        prefix@.len() > haystack@.len() ==> !found,
{
    if prefix.len() > haystack.len() {
        return false;
    }
    bytes_equal_ignore_case(&haystack[0..prefix.len()], prefix)
}

/// Tells whether `haystack` ends with `suffix`, ignoring ASCII case.
pub fn ends_with_ignore_case(haystack: &[u8], suffix: &[u8]) -> (found: bool)
    ensures
        found == ends_with_fold(haystack@, suffix@),
        suffix@.len() > haystack@.len() ==> !found,
{
    if suffix.len() > haystack.len() {
        return false;
    }
    let start: usize = haystack.len() - suffix.len();
    bytes_equal_ignore_case(&haystack[start..haystack.len()], suffix)
}

/// Tells whether `pattern` occurs in `path`, ignoring ASCII case.  Both
/// are compared as the bytes of their UTF-8 encoding.
pub fn path_contains_pattern(path: &str, pattern: &str) -> (found: bool)
    ensures
        found == contains_ignore_case(path.spec_bytes(), pattern.spec_bytes()),
{
    str_contains_ignore_case(path.as_bytes(), pattern.as_bytes())
}

} // verus!
