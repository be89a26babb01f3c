//! Character-level text utilities shared by the rest of the library.
//!
//! Strings are handled as sequences of `char`, which is what `str@` gives.

use vstd::prelude::*;

verus! {

broadcast use vstd::string::axiom_spec_iter;

/// The Unicode `White_Space` property, which is what `char::is_whitespace` tests.
pub open spec fn is_ws(c: char) -> bool {
    let u = c as u32;
    (0x9 <= u && u <= 0xd) || u == 0x20 || u == 0x85 || u == 0xa0 || u == 0x1680
        || (0x2000 <= u && u <= 0x200a) || u == 0x2028 || u == 0x2029 || u == 0x202f
        || u == 0x205f || u == 0x3000
}

/// Whether `c` is white space in the Unicode sense.
pub fn is_whitespace(c: char) -> (b: bool)
    ensures
        b == is_ws(c),
{
    let u = c as u32;
    (0x9 <= u && u <= 0xd) || u == 0x20 || u == 0x85 || u == 0xa0 || u == 0x1680
        || (0x2000 <= u && u <= 0x200a) || u == 0x2028 || u == 0x2029 || u == 0x202f
        || u == 0x205f || u == 0x3000
}

/// The characters of a string slice, in order.
pub fn chars_of(s: &str) -> (v: Vec<char>)
    ensures
        v@ == s@,
{
    let mut v: Vec<char> = Vec::new();
    for c in it: s.chars()
        invariant
            v@ == it.seq().take(it.index() as int),
    {
        v.push(c);
    }
    v
}

} // verus!

verus! {

/// What `str::to_lowercase` returns for a string with the given characters.
pub uninterp spec fn lowercase(s: Seq<char>) -> Seq<char>;

/// Calls `str::to_lowercase`; the result is named by `lowercase`.
#[verifier::external_body]
pub(crate) fn str_to_lowercase(s: &str) -> (r: String)
    ensures
        r@ == lowercase(s@),
{
    s.to_lowercase()
}

/// Calls `String::from_iter` over the characters: the result holds exactly those characters.
#[verifier::external_body]
pub(crate) fn string_from_chars(v: &[char]) -> (r: String)
    ensures
        r@ == v@,
{
    String::from_iter(v.iter())
}

} // verus!

verus! {

// ---------------------------------------------------------------------------
// Sub-sequences
// ---------------------------------------------------------------------------

/// A copy of `v[start..end]`.
pub fn copy_range(v: &[char], start: usize, end: usize) -> (r: Vec<char>)
    requires
        start <= end <= v@.len(),
    ensures
        r@ == v@.subrange(start as int, end as int),
{
    let mut r: Vec<char> = Vec::new();
    let mut i = start;
    while i < end
        invariant
            start <= i <= end <= v@.len(),
            r@ == v@.subrange(start as int, i as int),
        decreases end - i,
    {
        r.push(v[i]);
        i += 1;
    }
    r
}

/// Whether two character sequences are equal.
pub fn chars_eq(a: &[char], b: &[char]) -> (r: bool)
    ensures
        r == (a@ == b@),
{
    if a.len() != b.len() {
        return false;
    }
    let mut i: usize = 0;
    while i < a.len()
        invariant
            a@.len() == b@.len(),
            i <= a@.len(),
            forall|k: int| 0 <= k < i ==> a@[k] == b@[k],
        decreases a@.len() - i,
    {
        if a[i] != b[i] {
            return false;
        }
        i += 1;
    }
    assert(a@ =~= b@);
    true
}

/// Whether a string slice holds exactly the given characters.
pub fn str_eq(a: &str, b: &str) -> (r: bool)
    ensures
        r == (a@ == b@),
{
    let x = chars_of(a);
    let y = chars_of(b);
    chars_eq(x.as_slice(), y.as_slice())
}

// ---------------------------------------------------------------------------
// Pattern search
// ---------------------------------------------------------------------------

/// `p` occurs in `s` starting at index `i`.
pub open spec fn occurs_at(s: Seq<char>, p: Seq<char>, i: int) -> bool {
    0 <= i && i + p.len() <= s.len() && s.subrange(i, i + p.len()) == p
}

/// `p` occurs somewhere in `s` (what `str::contains` tests).
pub open spec fn contains_seq(s: Seq<char>, p: Seq<char>) -> bool {
    exists|i: int| occurs_at(s, p, i)
}

/// `s` begins with `p`.
pub open spec fn has_prefix(s: Seq<char>, p: Seq<char>) -> bool {
    occurs_at(s, p, 0)
}

/// `s` ends with `p`.
pub open spec fn has_suffix(s: Seq<char>, p: Seq<char>) -> bool {
    p.len() <= s.len() && occurs_at(s, p, s.len() - p.len())
}

/// `i` is the first index at which `p` occurs in `s`.
pub open spec fn is_first_occurrence(s: Seq<char>, p: Seq<char>, i: int) -> bool {
    occurs_at(s, p, i) && forall|j: int| 0 <= j < i ==> !occurs_at(s, p, j)
}

/// `i` is the last index at which `p` occurs in `s`.
pub open spec fn is_last_occurrence(s: Seq<char>, p: Seq<char>, i: int) -> bool {
    occurs_at(s, p, i) && forall|j: int| i < j ==> !occurs_at(s, p, j)
}

/// The index of the first occurrence of `p` in `s` (what `str::find` gives, counted in chars).
pub open spec fn find_first(s: Seq<char>, p: Seq<char>) -> Option<int> {
    if exists|i: int| is_first_occurrence(s, p, i) {
        Some(choose|i: int| is_first_occurrence(s, p, i))
    } else {
        None
    }
}

/// The index of the last occurrence of `p` in `s` (what `str::rfind` gives, counted in chars).
pub open spec fn find_last(s: Seq<char>, p: Seq<char>) -> Option<int> {
    if exists|i: int| is_last_occurrence(s, p, i) {
        Some(choose|i: int| is_last_occurrence(s, p, i))
    } else {
        None
    }
}

proof fn lemma_first_occurrence_unique(s: Seq<char>, p: Seq<char>, i: int, j: int)
    requires
        is_first_occurrence(s, p, i),
        is_first_occurrence(s, p, j),
    ensures
        i == j,
{
}

proof fn lemma_last_occurrence_unique(s: Seq<char>, p: Seq<char>, i: int, j: int)
    requires
        is_last_occurrence(s, p, i),
        is_last_occurrence(s, p, j),
    ensures
        i == j,
{
}

/// `find_first` is the first occurrence whenever there is one.
pub proof fn lemma_find_first_some(s: Seq<char>, p: Seq<char>, i: int)
    requires
        is_first_occurrence(s, p, i),
    ensures
        find_first(s, p) == Some(i),
{
    let c = choose|k: int| is_first_occurrence(s, p, k);
    lemma_first_occurrence_unique(s, p, c, i);
}

/// `find_last` is the last occurrence whenever there is one.
pub proof fn lemma_find_last_some(s: Seq<char>, p: Seq<char>, i: int)
    requires
        is_last_occurrence(s, p, i),
    ensures
        find_last(s, p) == Some(i),
{
    let c = choose|k: int| is_last_occurrence(s, p, k);
    lemma_last_occurrence_unique(s, p, c, i);
}

/// Whether `p` occurs in `s` at index `i`.
pub fn matches_at(s: &[char], p: &[char], i: usize) -> (r: bool)
    ensures
        r == occurs_at(s@, p@, i as int),
{
    if i > s.len() || p.len() > s.len() - i {
        return false;
    }
    let n = s.len();
    let mut k: usize = 0;
    while k < p.len()
        invariant
            n == s@.len(),
            i + p@.len() <= n,
            k <= p@.len(),
            forall|m: int| 0 <= m < k ==> s@[i + m] == p@[m],
        decreases p@.len() - k,
    {
        if s[i + k] != p[k] {
            assert(s@.subrange(i as int, i + p@.len())[k as int] != p@[k as int]);
            return false;
        }
        k += 1;
    }
    assert(s@.subrange(i as int, i + p@.len()) =~= p@);
    true
}

/// The first index at which `p` occurs in `s`.
pub fn index_of(s: &[char], p: &[char]) -> (r: Option<usize>)
    ensures
        r matches Some(i) ==> find_first(s@, p@) == Some(i as int) && is_first_occurrence(
            s@,
            p@,
            i as int,
        ),
        r is None ==> find_first(s@, p@) is None && !contains_seq(s@, p@),
        r is Some ==> contains_seq(s@, p@),
{
    if p.len() > s.len() {
        assert(!contains_seq(s@, p@));
        assert(!exists|i: int| is_first_occurrence(s@, p@, i));
        return None;
    }
    if p.len() == 0 {
        assert(s@.subrange(0, 0) =~= p@);
        proof {
            lemma_find_first_some(s@, p@, 0);
        }
        return Some(0);
    }
    let last = s.len() - p.len();
    let mut i: usize = 0;
    while i <= last
        invariant
            last == s@.len() - p@.len(),
            p@.len() >= 1,
            s@.len() <= usize::MAX,
            i <= last + 1,
            forall|j: int| 0 <= j < i ==> !occurs_at(s@, p@, j),
        decreases last + 1 - i,
    {
        if matches_at(s, p, i) {
            proof {
                lemma_find_first_some(s@, p@, i as int);
            }
            return Some(i);
        }
        i += 1;
    }
    assert(!contains_seq(s@, p@));
    assert(!exists|i: int| is_first_occurrence(s@, p@, i));
    None
}

/// The last index at which `p` occurs in `s`.
pub fn last_index_of(s: &[char], p: &[char]) -> (r: Option<usize>)
    ensures
        r matches Some(i) ==> find_last(s@, p@) == Some(i as int) && is_last_occurrence(
            s@,
            p@,
            i as int,
        ),
        r is None ==> find_last(s@, p@) is None && !contains_seq(s@, p@),
        r is Some ==> contains_seq(s@, p@),
{
    if p.len() > s.len() {
        assert(!contains_seq(s@, p@));
        assert(!exists|i: int| is_last_occurrence(s@, p@, i));
        return None;
    }
    if p.len() == 0 {
        assert(s@.subrange(s@.len() as int, s@.len() as int) =~= p@);
        proof {
            lemma_find_last_some(s@, p@, s@.len() as int);
        }
        return Some(s.len());
    }
    let mut i: usize = s.len() - p.len() + 1;
    while i > 0
        invariant
            i <= s@.len() - p@.len() + 1,
            forall|j: int| i <= j ==> !occurs_at(s@, p@, j),
        decreases i,
    {
        if matches_at(s, p, i - 1) {
            proof {
                lemma_find_last_some(s@, p@, i - 1);
            }
            return Some(i - 1);
        }
        i -= 1;
    }
    assert(!contains_seq(s@, p@));
    assert(!exists|i: int| is_last_occurrence(s@, p@, i));
    None
}

/// Whether `p` occurs anywhere in `s`.
pub fn contains_chars(s: &[char], p: &[char]) -> (r: bool)
    ensures
        r == contains_seq(s@, p@),
{
    index_of(s, p).is_some()
}

/// Whether `s` begins with `p`.
pub fn starts_with_chars(s: &[char], p: &[char]) -> (r: bool)
    ensures
        r == has_prefix(s@, p@),
{
    matches_at(s, p, 0)
}

/// Whether `s` ends with `p`.
pub fn ends_with_chars(s: &[char], p: &[char]) -> (r: bool)
    ensures
        r == has_suffix(s@, p@),
{
    if p.len() > s.len() {
        false
    } else {
        matches_at(s, p, s.len() - p.len())
    }
}

/// Whether the string `s` contains the literal `p`.
pub fn str_contains(s: &str, p: &str) -> (r: bool)
    ensures
        r == contains_seq(s@, p@),
{
    let x = chars_of(s);
    let y = chars_of(p);
    contains_chars(x.as_slice(), y.as_slice())
}

} // verus!

verus! {

// ---------------------------------------------------------------------------
// Trimming
// ---------------------------------------------------------------------------

/// `s` without its leading characters that satisfy `f`.
pub open spec fn strip_start(s: Seq<char>, f: spec_fn(char) -> bool) -> Seq<char>
    decreases s.len(),
{
    if s.len() > 0 && f(s[0]) {
        strip_start(s.drop_first(), f)
    } else {
        s
    }
}

/// `s` without its trailing characters that satisfy `f`.
pub open spec fn strip_end(s: Seq<char>, f: spec_fn(char) -> bool) -> Seq<char>
    decreases s.len(),
{
    if s.len() > 0 && f(s.last()) {
        strip_end(s.drop_last(), f)
    } else {
        s
    }
}

/// `s` without the characters satisfying `f` at either end (what `str::trim_matches` gives).
pub open spec fn strip(s: Seq<char>, f: spec_fn(char) -> bool) -> Seq<char> {
    strip_end(strip_start(s, f), f)
}

/// The white-space predicate as a value.
pub open spec fn ws() -> spec_fn(char) -> bool {
    |c: char| is_ws(c)
}

/// `s` without leading and trailing white space (what `str::trim` gives).
pub open spec fn trim(s: Seq<char>) -> Seq<char> {
    strip(s, ws())
}

/// Membership in a set of characters, as a predicate.
pub open spec fn one_of(set: Seq<char>) -> spec_fn(char) -> bool {
    |c: char| set.contains(c)
}

pub proof fn lemma_strip_start_skip(s: Seq<char>, f: spec_fn(char) -> bool, k: int)
    requires
        0 <= k <= s.len(),
        forall|i: int| 0 <= i < k ==> f(s[i]),
    ensures
        strip_start(s, f) == strip_start(s.subrange(k, s.len() as int), f),
    decreases k,
{
    if k == 0 {
        assert(s.subrange(0, s.len() as int) =~= s);
    } else {
        assert(f(s[0]));
        lemma_strip_start_skip(s.drop_first(), f, k - 1);
        assert(s.drop_first().subrange(k - 1, s.len() - 1) =~= s.subrange(k, s.len() as int));
    }
}

pub proof fn lemma_strip_end_skip(s: Seq<char>, f: spec_fn(char) -> bool, k: int)
    requires
        0 <= k <= s.len(),
        forall|i: int| k <= i < s.len() ==> f(s[i]),
    ensures
        strip_end(s, f) == strip_end(s.subrange(0, k), f),
    decreases s.len() - k,
{
    if k == s.len() {
        assert(s.subrange(0, k) =~= s);
    } else {
        assert(f(s.last()));
        lemma_strip_end_skip(s.drop_last(), f, k);
        assert(s.drop_last().subrange(0, k) =~= s.subrange(0, k));
    }
}

/// Stripping the start never leaves a leading character that satisfies `f`.
pub proof fn lemma_strip_start_stops(s: Seq<char>, f: spec_fn(char) -> bool)
    ensures
        strip_start(s, f).len() > 0 ==> !f(strip_start(s, f)[0]),
        strip_start(s, f).len() <= s.len(),
    decreases s.len(),
{
    if s.len() > 0 && f(s[0]) {
        lemma_strip_start_stops(s.drop_first(), f);
    }
}

/// Stripping the end never leaves a trailing character that satisfies `f`.
pub proof fn lemma_strip_end_stops(s: Seq<char>, f: spec_fn(char) -> bool)
    ensures
        strip_end(s, f).len() > 0 ==> !f(strip_end(s, f).last()),
        strip_end(s, f).len() <= s.len(),
        strip_end(s, f) == s.subrange(0, strip_end(s, f).len() as int),
        forall|i: int| strip_end(s, f).len() <= i < s.len() ==> f(s[i]),
    decreases s.len(),
{
    if s.len() > 0 && f(s.last()) {
        lemma_strip_end_stops(s.drop_last(), f);
        assert forall|i: int| strip_end(s, f).len() <= i < s.len() implies f(s[i]) by {
            if i < s.len() - 1 {
                assert(s.drop_last()[i] == s[i]);
            }
        }
        assert(s.drop_last().subrange(0, strip_end(s, f).len() as int) =~= s.subrange(
            0,
            strip_end(s, f).len() as int,
        ));
    } else {
        assert(s.subrange(0, s.len() as int) =~= s);
    }
}

/// A sequence with no stripped character at either end is left as it is.
pub proof fn lemma_strip_fixed(s: Seq<char>, f: spec_fn(char) -> bool)
    requires
        s.len() > 0 ==> !f(s[0]) && !f(s.last()),
    ensures
        strip(s, f) == s,
{
}

/// A sequence that begins with a character outside `f` keeps a non-empty stripped form.
pub proof fn lemma_strip_nonempty(s: Seq<char>, f: spec_fn(char) -> bool)
    requires
        s.len() > 0,
        !f(s[0]),
    ensures
        strip(s, f).len() > 0,
{
    lemma_strip_end_stops(s, f);
}

/// A sequence that ends with a character outside `f` keeps that character last once stripped.
pub proof fn lemma_strip_keeps_last(s: Seq<char>, f: spec_fn(char) -> bool)
    requires
        s.len() > 0,
        !f(s.last()),
    ensures
        strip(s, f).len() > 0,
        strip(s, f).last() == s.last(),
    decreases s.len(),
{
    if f(s[0]) {
        assert(s.len() > 1);
        assert(s.drop_first().last() == s.last());
        lemma_strip_keeps_last(s.drop_first(), f);
    }
}

/// What stripping the start leaves is a suffix of the sequence.
pub proof fn lemma_strip_start_is_suffix(s: Seq<char>, f: spec_fn(char) -> bool)
    ensures
        strip_start(s, f).len() <= s.len(),
        strip_start(s, f) == s.subrange(s.len() - strip_start(s, f).len(), s.len() as int),
    decreases s.len(),
{
    if s.len() > 0 && f(s[0]) {
        lemma_strip_start_is_suffix(s.drop_first(), f);
        let r = strip_start(s, f);
        assert(s.drop_first().subrange(s.len() - 1 - r.len(), s.len() - 1) =~= s.subrange(
            s.len() - r.len(),
            s.len() as int,
        ));
    } else {
        assert(s.subrange(0, s.len() as int) =~= s);
    }
}

/// A pattern found in the stripped form of a sequence occurs in the sequence itself.
pub proof fn lemma_contains_in_strip(s: Seq<char>, p: Seq<char>, f: spec_fn(char) -> bool)
    requires
        contains_seq(strip(s, f), p),
    ensures
        contains_seq(s, p),
{
    let a = strip_start(s, f);
    lemma_strip_start_is_suffix(s, f);
    lemma_strip_end_stops(a, f);
    let b = strip_end(a, f);
    let i = choose|i: int| occurs_at(b, p, i);
    let off = s.len() - a.len();
    assert(s.subrange(off + i, off + i + p.len()) =~= b.subrange(i, i + p.len()));
    assert(occurs_at(s, p, off + i));
}

/// A pattern one of whose characters never appears in `s` does not occur in `s`.
pub proof fn lemma_absent_char(s: Seq<char>, p: Seq<char>, q: int)
    requires
        0 <= q < p.len(),
        forall|j: int| 0 <= j < s.len() ==> s[j] != p[q],
    ensures
        !contains_seq(s, p),
{
    if contains_seq(s, p) {
        let i = choose|i: int| occurs_at(s, p, i);
        assert(s.subrange(i, i + p.len())[q] == s[i + q]);
    }
}

/// A pattern that occurs in neither of two sequences does not occur in their
/// concatenation either, when a character at the joint is not in the pattern.
pub proof fn lemma_absent_concat(a: Seq<char>, b: Seq<char>, p: Seq<char>)
    requires
        p.len() > 0,
        !contains_seq(a, p),
        !contains_seq(b, p),
        (a.len() > 0 && !p.contains(a.last())) || (b.len() > 0 && !p.contains(b[0])),
    ensures
        !contains_seq(a + b, p),
{
    let ab = a + b;
    if contains_seq(ab, p) {
        let i = choose|i: int| occurs_at(ab, p, i);
        if i + p.len() <= a.len() {
            assert(ab.subrange(i, i + p.len()) =~= a.subrange(i, i + p.len()));
            assert(occurs_at(a, p, i));
        } else if i >= a.len() {
            assert(ab.subrange(i, i + p.len()) =~= b.subrange(i - a.len(), i - a.len() + p.len()));
            assert(occurs_at(b, p, i - a.len()));
        } else {
            let q = a.len() - 1 - i;
            assert(ab.subrange(i, i + p.len())[q] == ab[a.len() - 1]);
            assert(ab.subrange(i, i + p.len())[q + 1] == ab[a.len() as int]);
            if a.len() > 0 && !p.contains(a.last()) {
                assert(p[q] == a.last());
            } else {
                assert(p[q + 1] == b[0]);
            }
        }
    }
}

/// Stripping twice is stripping once.
pub proof fn lemma_strip_idempotent(s: Seq<char>, f: spec_fn(char) -> bool)
    ensures
        strip(strip(s, f), f) == strip(s, f),
{
    let a = strip_start(s, f);
    lemma_strip_start_stops(s, f);
    lemma_strip_end_stops(a, f);
    let b = strip_end(a, f);
    if b.len() > 0 {
        assert(b[0] == a[0]);
    }
    lemma_strip_fixed(b, f);
}

/// `v` with the characters flagged at either end removed.
fn strip_flagged(v: &[char], flags: &[bool], Ghost(f): Ghost<spec_fn(char) -> bool>) -> (r: Vec<char>)
    requires
        flags@.len() == v@.len(),
        forall|i: int| 0 <= i < v@.len() ==> flags@[i] == f(v@[i]),
    ensures
        r@ == strip(v@, f),
{
    let n = v.len();
    let mut a: usize = 0;
    while a < n && flags[a]
        invariant
            n == v@.len(),
            flags@.len() == n,
            forall|i: int| 0 <= i < v@.len() ==> flags@[i] == f(v@[i]),
            a <= n,
            forall|i: int| 0 <= i < a ==> f(v@[i]),
        decreases n - a,
    {
        a += 1;
    }
    proof {
        lemma_strip_start_skip(v@, f, a as int);
    }
    let ghost t = v@.subrange(a as int, n as int);
    assert(strip_start(t, f) == t);
    let mut b: usize = n;
    while b > a && flags[b - 1]
        invariant
            n == v@.len(),
            flags@.len() == n,
            forall|i: int| 0 <= i < v@.len() ==> flags@[i] == f(v@[i]),
            a <= b <= n,
            forall|i: int| b <= i < n ==> f(v@[i]),
        decreases b,
    {
        b -= 1;
    }
    proof {
        lemma_strip_end_skip(t, f, b - a);
        assert(t.subrange(0, b - a) =~= v@.subrange(a as int, b as int));
        let u = v@.subrange(a as int, b as int);
        if u.len() > 0 {
            assert(!f(u.last()));
        }
    }
    copy_range(v, a, b)
}

/// Whether `c` is among the characters of `set`.
pub fn char_in(c: char, set: &[char]) -> (r: bool)
    ensures
        r == set@.contains(c),
{
    let mut i: usize = 0;
    while i < set.len()
        invariant
            i <= set@.len(),
            forall|k: int| 0 <= k < i ==> set@[k] != c,
        decreases set@.len() - i,
    {
        if set[i] == c {
            return true;
        }
        i += 1;
    }
    false
}

/// `v` without white space at either end (what `str::trim` does).
pub fn trim_chars(v: &[char]) -> (r: Vec<char>)
    ensures
        r@ == trim(v@),
{
    let mut flags: Vec<bool> = Vec::new();
    let mut i: usize = 0;
    while i < v.len()
        invariant
            i <= v@.len(),
            flags@.len() == i,
            forall|k: int| 0 <= k < i ==> flags@[k] == ws()(v@[k]),
        decreases v@.len() - i,
    {
        flags.push(is_whitespace(v[i]));
        i += 1;
    }
    strip_flagged(v, flags.as_slice(), Ghost(ws()))
}

/// `v` without leading white space (what `str::trim_start` does).
pub fn trim_start_chars(v: &[char]) -> (r: Vec<char>)
    ensures
        r@ == strip_start(v@, ws()),
{
    let n = v.len();
    let mut a: usize = 0;
    while a < n && is_whitespace(v[a])
        invariant
            n == v@.len(),
            a <= n,
            forall|i: int| 0 <= i < a ==> ws()(v@[i]),
        decreases n - a,
    {
        a += 1;
    }
    proof {
        lemma_strip_start_skip(v@, ws(), a as int);
        let t = v@.subrange(a as int, n as int);
        assert(strip_start(t, ws()) == t);
    }
    copy_range(v, a, n)
}

/// `v` without the characters of `set` at either end (what `str::trim_matches` does).
pub fn trim_set(v: &[char], set: &[char]) -> (r: Vec<char>)
    ensures
        r@ == strip(v@, one_of(set@)),
{
    let mut flags: Vec<bool> = Vec::new();
    let mut i: usize = 0;
    while i < v.len()
        invariant
            i <= v@.len(),
            flags@.len() == i,
            forall|k: int| 0 <= k < i ==> flags@[k] == one_of(set@)(v@[k]),
        decreases v@.len() - i,
    {
        flags.push(char_in(v[i], set));
        i += 1;
    }
    strip_flagged(v, flags.as_slice(), Ghost(one_of(set@)))
}

/// The trimmed characters of a string slice.
pub fn trimmed_chars_of(s: &str) -> (r: Vec<char>)
    ensures
        r@ == trim(s@),
{
    let v = chars_of(s);
    trim_chars(v.as_slice())
}

/// `v` without trailing characters that are `c` (what `str::trim_end_matches(c)` does).
pub fn trim_end_char(v: &[char], c: char) -> (r: Vec<char>)
    ensures
        r@ == strip_end(v@, |x: char| x == c),
{
    let ghost f = |x: char| x == c;
    let n = v.len();
    let mut b: usize = n;
    while b > 0 && v[b - 1] == c
        invariant
            n == v@.len(),
            b <= n,
            f == (|x: char| x == c),
            forall|i: int| b <= i < n ==> f(v@[i]),
        decreases b,
    {
        b -= 1;
    }
    proof {
        lemma_strip_end_skip(v@, f, b as int);
        let u = v@.subrange(0, b as int);
        if u.len() > 0 {
            assert(!f(u.last()));
        }
    }
    copy_range(v, 0, b)
}

/// The characters of `v` in lower case (what `str::to_lowercase` gives).
pub fn lowercase_chars(v: &[char]) -> (r: Vec<char>)
    ensures
        r@ == lowercase(v@),
{
    let s = string_from_chars(v);
    let l = str_to_lowercase(s.as_str());
    chars_of(l.as_str())
}

} // verus!

verus! {

// ---------------------------------------------------------------------------
// Cutting at patterns
// ---------------------------------------------------------------------------

/// Whether `v` holds exactly the characters of the literal `s`.
pub fn chars_eq_str(v: &[char], s: &str) -> (r: bool)
    ensures
        r == (v@ == s@),
{
    let w = chars_of(s);
    chars_eq(v, w.as_slice())
}

/// Whether the sequence `out` of strings holds one equal to `v`.
pub fn strings_contain(out: &Vec<String>, v: &[char]) -> (r: bool)
    ensures
        r == out.deep_view().contains(v@),
{
    let mut i: usize = 0;
    while i < out.len()
        invariant
            i <= out@.len(),
            forall|k: int| 0 <= k < i ==> out.deep_view()[k] != v@,
        decreases out@.len() - i,
    {
        let w = chars_of(out[i].as_str());
        if chars_eq(w.as_slice(), v) {
            assert(out.deep_view()[i as int] == v@);
            return true;
        }
        i += 1;
    }
    assert forall|k: int| 0 <= k < out.deep_view().len() implies out.deep_view()[k] != v@ by {}
    false
}

/// The characters before the last occurrence of `p` in `s`, if it occurs.
pub open spec fn cut_last(s: Seq<char>, p: Seq<char>) -> Option<Seq<char>> {
    match find_last(s, p) {
        Some(i) => Some(s.subrange(0, i)),
        None => None,
    }
}

/// The characters before the first occurrence of `p` in `s`, if it occurs.
pub open spec fn cut_first(s: Seq<char>, p: Seq<char>) -> Option<Seq<char>> {
    match find_first(s, p) {
        Some(i) => Some(s.subrange(0, i)),
        None => None,
    }
}

/// `s` cut before the last occurrence of the first pattern in `ps` that occurs in it.
pub open spec fn cut_first_found(s: Seq<char>, ps: Seq<Seq<char>>) -> Option<Seq<char>>
    decreases ps.len(),
{
    if ps.len() == 0 {
        None
    } else {
        match cut_last(s, ps[0]) {
            Some(c) => Some(c),
            None => cut_first_found(s, ps.drop_first()),
        }
    }
}

/// The characters of `s` before the first occurrence of `p`, if any.
pub fn cut_before_first(s: &[char], p: &[char]) -> (r: Option<Vec<char>>)
    ensures
        r is Some <==> cut_first(s@, p@) is Some,
        r matches Some(v) ==> cut_first(s@, p@) == Some(v@),
{
    match index_of(s, p) {
        Some(i) => Some(copy_range(s, 0, i)),
        None => None,
    }
}

/// The characters of `s` before the last occurrence of `p`, if any.
pub fn cut_before_last(s: &[char], p: &[char]) -> (r: Option<Vec<char>>)
    ensures
        r is Some <==> cut_last(s@, p@) is Some,
        r matches Some(v) ==> cut_last(s@, p@) == Some(v@),
{
    match last_index_of(s, p) {
        Some(i) => Some(copy_range(s, 0, i)),
        None => None,
    }
}

/// `s` cut before the last occurrence of the first pattern of `ps` that occurs in it.
pub fn cut_at_first_found(s: &[char], ps: &Vec<Vec<char>>) -> (r: Option<Vec<char>>)
    ensures
        r is Some <==> cut_first_found(s@, ps.deep_view()) is Some,
        r matches Some(v) ==> cut_first_found(s@, ps.deep_view()) == Some(v@),
{
    let mut i: usize = 0;
    assert(ps.deep_view().skip(0) =~= ps.deep_view());
    while i < ps.len()
        invariant
            i <= ps@.len(),
            cut_first_found(s@, ps.deep_view()) == cut_first_found(
                s@,
                ps.deep_view().skip(i as int),
            ),
        decreases ps@.len() - i,
    {
        let ghost rest = ps.deep_view().skip(i as int);
        proof {
            lemma_chars_deep_view(ps@[i as int]);
        }
        assert(rest[0] == ps[i as int]@);
        assert(rest.drop_first() =~= ps.deep_view().skip(i + 1));
        match cut_before_last(s, ps[i].as_slice()) {
            Some(c) => {
                return Some(c);
            },
            None => {},
        }
        i += 1;
    }
    assert(ps.deep_view().skip(i as int).len() == 0);
    None
}

/// The characters of several literals.
pub fn literals(ls: &[&str]) -> (r: Vec<Vec<char>>)
    ensures
        r@.len() == ls@.len(),
        forall|i: int| 0 <= i < ls@.len() ==> r@[i]@ == ls@[i]@,
        r.deep_view() == ls@.map_values(|l: &str| l@),
{
    let mut r: Vec<Vec<char>> = Vec::new();
    let mut i: usize = 0;
    while i < ls.len()
        invariant
            i <= ls@.len(),
            r@.len() == i,
            forall|k: int| 0 <= k < i ==> r@[k]@ == ls@[k]@,
        decreases ls@.len() - i,
    {
        r.push(chars_of(ls[i]));
        i += 1;
    }
    assert forall|k: int| 0 <= k < r@.len() implies r@[k].deep_view() == r@[k]@ by {
        lemma_chars_deep_view(r@[k]);
    }
    assert(r.deep_view() =~= ls@.map_values(|l: &str| l@));
    r
}

/// The deep view of a vector of characters is its view.
pub proof fn lemma_chars_deep_view(v: Vec<char>)
    ensures
        v.deep_view() == v@,
{
    assert(v.deep_view() =~= v@);
}

} // verus!

verus! {

// ---------------------------------------------------------------------------
// Ordering
// ---------------------------------------------------------------------------

/// `a` comes strictly before `b` in lexicographic order of code points, which is the
/// order `String`'s `Ord` gives (UTF-8 byte order agrees with code-point order).
pub open spec fn seq_lt(a: Seq<char>, b: Seq<char>) -> bool
    decreases a.len(),
{
    if a.len() == 0 {
        b.len() > 0
    } else if b.len() == 0 {
        false
    } else if a[0] != b[0] {
        a[0] < b[0]
    } else {
        seq_lt(a.drop_first(), b.drop_first())
    }
}

/// The order is irreflexive.
pub proof fn lemma_seq_lt_irreflexive(a: Seq<char>)
    ensures
        !seq_lt(a, a),
    decreases a.len(),
{
    if a.len() > 0 {
        lemma_seq_lt_irreflexive(a.drop_first());
    }
}

/// Two different sequences are ordered one way or the other.
pub proof fn lemma_seq_lt_total(a: Seq<char>, b: Seq<char>)
    requires
        a != b,
    ensures
        seq_lt(a, b) || seq_lt(b, a),
    decreases a.len(),
{
    if a.len() == 0 {
        if b.len() == 0 {
            assert(a =~= b);
        }
    } else if b.len() == 0 {
    } else if a[0] != b[0] {
        assert(a[0] < b[0] || b[0] < a[0]);
    } else {
        if a.drop_first() == b.drop_first() {
            assert(a =~= seq![a[0]] + a.drop_first());
            assert(b =~= seq![b[0]] + b.drop_first());
        }
        lemma_seq_lt_total(a.drop_first(), b.drop_first());
    }
}

/// The order is asymmetric.
pub proof fn lemma_seq_lt_asymmetric(a: Seq<char>, b: Seq<char>)
    requires
        seq_lt(a, b),
    ensures
        !seq_lt(b, a),
    decreases a.len(),
{
    if a.len() > 0 && b.len() > 0 && a[0] == b[0] {
        lemma_seq_lt_asymmetric(a.drop_first(), b.drop_first());
    }
}

/// The order is transitive.
pub proof fn lemma_seq_lt_transitive(a: Seq<char>, b: Seq<char>, c: Seq<char>)
    requires
        seq_lt(a, b),
        seq_lt(b, c),
    ensures
        seq_lt(a, c),
    decreases a.len(),
{
    if a.len() > 0 && b.len() > 0 && c.len() > 0 {
        if a[0] == b[0] && b[0] == c[0] {
            lemma_seq_lt_transitive(a.drop_first(), b.drop_first(), c.drop_first());
        }
    }
}

/// Whether `a` comes strictly before `b` in code-point order.
pub fn chars_lt(a: &[char], b: &[char]) -> (r: bool)
    ensures
        r == seq_lt(a@, b@),
{
    let mut i: usize = 0;
    assert(a@.skip(0) =~= a@);
    assert(b@.skip(0) =~= b@);
    while i < a.len() && i < b.len() && a[i] == b[i]
        invariant
            i <= a@.len(),
            i <= b@.len(),
            forall|k: int| 0 <= k < i ==> a@[k] == b@[k],
            seq_lt(a@, b@) == seq_lt(a@.skip(i as int), b@.skip(i as int)),
        decreases a@.len() - i,
    {
        assert(a@.skip(i as int).drop_first() =~= a@.skip(i + 1));
        assert(b@.skip(i as int).drop_first() =~= b@.skip(i + 1));
        i += 1;
    }
    let ghost sa = a@.skip(i as int);
    let ghost sb = b@.skip(i as int);
    if i == a.len() {
        i < b.len()
    } else if i == b.len() {
        false
    } else {
        assert(sa[0] == a@[i as int] && sb[0] == b@[i as int]);
        a[i] < b[i]
    }
}

} // verus!

verus! {

// ---------------------------------------------------------------------------
// Numbers as text
// ---------------------------------------------------------------------------

/// The character of a decimal digit.
pub open spec fn digit_char(d: nat) -> char {
    seq!['0', '1', '2', '3', '4', '5', '6', '7', '8', '9'][d as int]
}

/// The decimal digits of `n`, most significant first, with no leading zeros (what `{}`
/// prints for an unsigned integer).
pub open spec fn decimal(n: nat) -> Seq<char>
    decreases n,
{
    if n < 10 {
        seq![digit_char(n)]
    } else {
        decimal(n / 10).push(digit_char(n % 10))
    }
}

/// Appends the decimal digits of `n` to `out`.
pub fn push_decimal(n: u64, out: &mut Vec<char>)
    ensures
        final(out)@ == old(out)@ + decimal(n as nat),
    decreases n,
{
    if n >= 10 {
        push_decimal(n / 10, out);
    }
    let d = n % 10;
    let c = if d == 0 {
        '0'
    } else if d == 1 {
        '1'
    } else if d == 2 {
        '2'
    } else if d == 3 {
        '3'
    } else if d == 4 {
        '4'
    } else if d == 5 {
        '5'
    } else if d == 6 {
        '6'
    } else if d == 7 {
        '7'
    } else if d == 8 {
        '8'
    } else {
        '9'
    };
    out.push(c);
}

} // verus!

verus! {

/// The characters of an optional string.
pub open spec fn opt_chars(o: Option<String>) -> Option<Seq<char>> {
    match o {
        Some(s) => Some(s@),
        None => None,
    }
}

/// Whether `s` is one of the literals `ls`.
pub fn str_is_one_of(s: &str, ls: &[&str]) -> (r: bool)
    ensures
        r == exists|i: int| 0 <= i < ls@.len() && s@ == (#[trigger] ls@[i])@,
{
    let mut i: usize = 0;
    while i < ls.len()
        invariant
            i <= ls@.len(),
            forall|k: int| 0 <= k < i ==> s@ != (#[trigger] ls@[k])@,
        decreases ls@.len() - i,
    {
        if str_eq(s, ls[i]) {
            return true;
        }
        i += 1;
    }
    false
}

} // verus!
