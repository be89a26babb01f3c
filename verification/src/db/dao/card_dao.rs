//! The in-memory parts of the card store: keyword matching, search patterns and the
//! keyword buckets of the library view.

use vstd::prelude::*;

use crate::models::card::{
    effective_keywords_of, effective_question_of, parse_keywords_json, parsed_keywords_of, Card,
    KeywordBucket, KeywordBucketQuestion,
};
use crate::text::{
    chars_eq, chars_lt, chars_of, lowercase, lowercase_chars, seq_lt, string_from_chars, trim, trim_chars,
    trimmed_chars_of,
};
use crate::time::Timestamp;

verus! {

// ---------------------------------------------------------------------------
// Keyword buckets
// ---------------------------------------------------------------------------

/// The most samples kept per bucket.
pub const KEYWORD_BUCKET_SAMPLE_LIMIT: usize = 5;

/// The occurrences of keywords in one card: the card's index paired with each of its
/// effective keywords, in order.
pub open spec fn card_occurrences(c: Card, ci: int) -> Seq<(int, Seq<char>)> {
    effective_keywords_of(c.keyword@, c.keywords@).map_values(|kw: Seq<char>| (ci, kw))
}

/// The keyword occurrences of all cards, card by card.
pub open spec fn occurrences(rows: Seq<Card>) -> Seq<(int, Seq<char>)>
    decreases rows.len(),
{
    if rows.len() == 0 {
        Seq::empty()
    } else {
        occurrences(rows.drop_last()) + card_occurrences(rows.last(), rows.len() - 1)
    }
}

/// The key a keyword is bucketed by: trimmed and in lower case.
pub open spec fn bucket_key(kw: Seq<char>) -> Seq<char> {
    lowercase(trim(kw))
}

/// The occurrences whose keyword has key `k`, in order.
pub open spec fn with_key(os: Seq<(int, Seq<char>)>, k: Seq<char>) -> Seq<(int, Seq<char>)>
    decreases os.len(),
{
    if os.len() == 0 {
        os
    } else {
        let r = with_key(os.drop_last(), k);
        if bucket_key(os.last().1) == k {
            r.push(os.last())
        } else {
            r
        }
    }
}

/// The latest of some instants (the first of them when several are latest).
pub open spec fn latest(ts: Seq<Timestamp>) -> Timestamp
    decreases ts.len(),
{
    if ts.len() <= 1 {
        ts[0]
    } else {
        let a = latest(ts.drop_last());
        if a.is_before(ts.last()) {
            ts.last()
        } else {
            a
        }
    }
}

/// The update instants of the cards of some occurrences.
pub open spec fn update_times(rows: Seq<Card>, g: Seq<(int, Seq<char>)>) -> Seq<Timestamp> {
    g.map_values(|o: (int, Seq<char>)| rows[o.0].updated_at)
}

/// `q` is the sample of the card of occurrence `o`: its id, effective question, status and
/// creation instant.
pub open spec fn is_sample_of(rows: Seq<Card>, o: (int, Seq<char>), q: KeywordBucketQuestion) -> bool {
    let c = rows[o.0];
    &&& q.card_id == c.id
    &&& q.question@ == effective_question_of(c.keyword@, c.question@)
    &&& q.status == c.status
    &&& q.created_at == c.created_at
}

/// `b` is the bucket of its key among the occurrences `os`: it shows the keyword as first
/// written, counts every occurrence with its key, carries the latest update instant of
/// their cards, and samples the first five of them.
pub open spec fn is_bucket_of(rows: Seq<Card>, os: Seq<(int, Seq<char>)>, b: KeywordBucket) -> bool {
    let g = with_key(os, bucket_key(b.keyword@));
    &&& g.len() > 0
    &&& b.keyword@ == g[0].1
    &&& b.question_count == g.len()
    &&& b.last_updated_at == latest(update_times(rows, g))
    &&& b.sample_questions@.len() == (if g.len() < 5 {
        g.len()
    } else {
        5
    })
    &&& forall|i: int|
        0 <= i < b.sample_questions@.len() ==> is_sample_of(rows, g[i], #[trigger] b.sample_questions@[i])
}

/// The library order of buckets: more questions first, then the more recently updated,
/// then by keyword.
pub open spec fn bucket_precedes(a: KeywordBucket, b: KeywordBucket) -> bool {
    ||| a.question_count > b.question_count
    ||| (a.question_count == b.question_count && b.last_updated_at.is_before(a.last_updated_at))
    ||| (a.question_count == b.question_count && a.last_updated_at == b.last_updated_at && seq_lt(
        a.keyword@,
        b.keyword@,
    ))
}

proof fn lemma_with_key_push(os: Seq<(int, Seq<char>)>, o: (int, Seq<char>), k: Seq<char>)
    ensures
        with_key(os.push(o), k) == (if bucket_key(o.1) == k {
            with_key(os, k).push(o)
        } else {
            with_key(os, k)
        }),
{
    assert(os.push(o).drop_last() =~= os);
}

proof fn lemma_with_key_from(os: Seq<(int, Seq<char>)>, k: Seq<char>)
    ensures
        with_key(os, k).len() <= os.len(),
        with_key(os, k).len() > 0 ==> exists|m: int| 0 <= m < os.len() && bucket_key(os[m].1) == k,
        forall|i: int| 0 <= i < with_key(os, k).len() ==> bucket_key(#[trigger] with_key(os, k)[i].1) == k,
    decreases os.len(),
{
    if os.len() > 0 {
        lemma_with_key_from(os.drop_last(), k);
        let r = with_key(os.drop_last(), k);
        if r.len() > 0 {
            let m = choose|m: int| 0 <= m < os.drop_last().len() && bucket_key(os.drop_last()[m].1) == k;
            assert(os[m] == os.drop_last()[m]);
        }
    }
}

proof fn lemma_latest_push(ts: Seq<Timestamp>, t: Timestamp)
    requires
        ts.len() > 0,
    ensures
        latest(ts.push(t)) == (if latest(ts).is_before(t) {
            t
        } else {
            latest(ts)
        }),
{
    assert(ts.push(t).drop_last() =~= ts);
}

proof fn lemma_update_times_push(rows: Seq<Card>, g: Seq<(int, Seq<char>)>, o: (int, Seq<char>))
    ensures
        update_times(rows, g.push(o)) == update_times(rows, g).push(rows[o.0].updated_at),
{
    assert(update_times(rows, g.push(o)) =~= update_times(rows, g).push(rows[o.0].updated_at));
}

/// Timestamps are totally ordered by `is_before`.
proof fn lemma_timestamp_total(a: Timestamp, b: Timestamp)
    ensures
        a.is_before(b) || b.is_before(a) || a == b,
        !(a.is_before(b) && b.is_before(a)),
{
}

/// Buckets with different keywords are ordered one way or the other.
pub proof fn lemma_bucket_precedes_total(a: KeywordBucket, b: KeywordBucket)
    requires
        a.keyword@ != b.keyword@,
    ensures
        bucket_precedes(a, b) || bucket_precedes(b, a),
{
    lemma_timestamp_total(a.last_updated_at, b.last_updated_at);
    crate::text::lemma_seq_lt_total(a.keyword@, b.keyword@);
}

/// The bucket order is transitive.
pub proof fn lemma_bucket_precedes_transitive(a: KeywordBucket, b: KeywordBucket, c: KeywordBucket)
    requires
        bucket_precedes(a, b),
        bucket_precedes(b, c),
    ensures
        bucket_precedes(a, c),
{
    if a.question_count == b.question_count && b.question_count == c.question_count {
        if a.last_updated_at == b.last_updated_at && b.last_updated_at == c.last_updated_at {
            crate::text::lemma_seq_lt_transitive(a.keyword@, b.keyword@, c.keyword@);
        }
    }
}

/// The bucket order is asymmetric.
pub proof fn lemma_bucket_precedes_asymmetric(a: KeywordBucket, b: KeywordBucket)
    requires
        bucket_precedes(a, b),
    ensures
        !bucket_precedes(b, a),
{
    if a.question_count == b.question_count && a.last_updated_at == b.last_updated_at {
        crate::text::lemma_seq_lt_asymmetric(a.keyword@, b.keyword@);
    }
}

} // verus!

verus! {

/// The occurrences described by parallel vectors of card indices and keywords.
pub open spec fn occ_view(cards: Seq<usize>, kws: Seq<String>) -> Seq<(int, Seq<char>)> {
    Seq::new(cards.len(), |k: int| (cards[k] as int, kws[k]@))
}

/// Lists every keyword occurrence of the cards, with each card's effective question.
fn collect_occurrences(rows: &Vec<Card>) -> (r: (Vec<usize>, Vec<String>, Vec<String>))
    ensures
        r.0@.len() == r.1@.len(),
        occ_view(r.0@, r.1@) == occurrences(rows@),
        forall|k: int| 0 <= k < r.0@.len() ==> r.0@[k] < rows@.len(),
        r.2@.len() == rows@.len(),
        forall|ci: int|
            0 <= ci < rows@.len() ==> #[trigger] r.2@[ci]@ == effective_question_of(
                rows@[ci].keyword@,
                rows@[ci].question@,
            ),
{
    let mut cards: Vec<usize> = Vec::new();
    let mut kws: Vec<String> = Vec::new();
    let mut questions: Vec<String> = Vec::new();
    let mut ci: usize = 0;
    assert(rows@.take(0) =~= Seq::<Card>::empty());
    assert(occ_view(cards@, kws@) =~= occurrences(rows@.take(0)));
    while ci < rows.len()
        invariant
            ci <= rows@.len(),
            cards@.len() == kws@.len(),
            occ_view(cards@, kws@) == occurrences(rows@.take(ci as int)),
            forall|k: int| 0 <= k < cards@.len() ==> cards@[k] < ci,
            questions@.len() == ci,
            forall|c: int|
                0 <= c < ci ==> #[trigger] questions@[c]@ == effective_question_of(
                    rows@[c].keyword@,
                    rows@[c].question@,
                ),
        decreases rows@.len() - ci,
    {
        let card = &rows[ci];
        let ckws = card.effective_keywords();
        let ghost base = occ_view(cards@, kws@);
        let ghost target = card_occurrences(rows@[ci as int], ci as int);
        let mut k: usize = 0;
        while k < ckws.len()
            invariant
                ci < rows@.len(),
                k <= ckws@.len(),
                ckws.deep_view() == effective_keywords_of(rows@[ci as int].keyword@, rows@[ci as int].keywords@),
                target == card_occurrences(rows@[ci as int], ci as int),
                cards@.len() == kws@.len(),
                occ_view(cards@, kws@) == base + target.take(k as int),
                forall|m: int| 0 <= m < cards@.len() ==> cards@[m] <= ci,
            decreases ckws@.len() - k,
        {
            let ghost before = occ_view(cards@, kws@);
            cards.push(ci);
            let kw = ckws[k].clone();
            assert(kw@ == ckws.deep_view()[k as int]);
            assert(target[k as int] == (ci as int, kw@));
            kws.push(kw);
            assert(occ_view(cards@, kws@) =~= before.push((ci as int, kw@)));
            assert(target.take(k + 1) =~= target.take(k as int).push(target[k as int]));
            assert(occ_view(cards@, kws@) =~= base + target.take(k + 1));
            k += 1;
        }
        assert(target.take(k as int) =~= target);
        assert(rows@.take(ci + 1).drop_last() =~= rows@.take(ci as int));
        assert(rows@.take(ci + 1).last() == rows@[ci as int]);
        questions.push(card.effective_question());
        ci += 1;
    }
    assert(rows@.take(rows@.len() as int) =~= rows@);
    (cards, kws, questions)
}

} // verus!

verus! {

/// The accumulated buckets hold, for the occurrences `p`: one bucket per non-empty key,
/// each the bucket of its key among `p`, with `keys` holding their keys.
pub open spec fn buckets_cover(
    rows: Seq<Card>,
    p: Seq<(int, Seq<char>)>,
    keys: Seq<Seq<char>>,
    buckets: Seq<KeywordBucket>,
) -> bool {
    &&& keys.len() == buckets.len()
    &&& forall|j: int|
        0 <= j < keys.len() ==> #[trigger] keys[j] == bucket_key(buckets[j].keyword@) && keys[j].len() > 0
    &&& forall|j: int| 0 <= j < buckets.len() ==> is_bucket_of(rows, p, #[trigger] buckets[j])
    &&& forall|j1: int, j2: int| 0 <= j1 < keys.len() && 0 <= j2 < keys.len() && j1 != j2 ==> keys[j1] != keys[j2]
    &&& forall|m: int|
        0 <= m < p.len() && bucket_key(p[m].1).len() > 0 ==> exists|j: int|
            0 <= j < keys.len() && keys[j] == bucket_key(#[trigger] p[m].1)
    &&& forall|j: int| 0 <= j < buckets.len() ==> #[trigger] buckets[j].question_count <= p.len()
}

/// Buckets whose keys differ from the key of a new occurrence are unaffected by it.
proof fn lemma_other_buckets_unchanged(
    rows: Seq<Card>,
    p: Seq<(int, Seq<char>)>,
    o: (int, Seq<char>),
    b: KeywordBucket,
)
    requires
        is_bucket_of(rows, p, b),
        bucket_key(b.keyword@) != bucket_key(o.1),
    ensures
        is_bucket_of(rows, p.push(o), b),
{
    lemma_with_key_push(p, o, bucket_key(b.keyword@));
}

/// The index of the accumulated bucket with the given key, if any.
fn find_key(keys: &Vec<Vec<char>>, key: &[char]) -> (r: Option<usize>)
    ensures
        r matches Some(j) ==> j < keys@.len() && keys@[j as int]@ == key@,
        r is None ==> forall|j: int| 0 <= j < keys@.len() ==> keys@[j]@ != key@,
{
    let mut j: usize = 0;
    while j < keys.len()
        invariant
            j <= keys@.len(),
            forall|i: int| 0 <= i < j ==> keys@[i]@ != key@,
        decreases keys@.len() - j,
    {
        if chars_eq(keys[j].as_slice(), key) {
            return Some(j);
        }
        j += 1;
    }
    None
}

/// Groups the keyword occurrences into one bucket per key, in order of first appearance.
fn accumulate_buckets(
    rows: &Vec<Card>,
    cards: &Vec<usize>,
    kws: &Vec<String>,
    questions: &Vec<String>,
) -> (r: (Vec<Vec<char>>, Vec<KeywordBucket>))
    requires
        cards@.len() == kws@.len(),
        cards@.len() <= i64::MAX,
        forall|k: int| 0 <= k < cards@.len() ==> cards@[k] < rows@.len(),
        questions@.len() == rows@.len(),
        forall|ci: int|
            0 <= ci < rows@.len() ==> #[trigger] questions@[ci]@ == effective_question_of(
                rows@[ci].keyword@,
                rows@[ci].question@,
            ),
    ensures
        buckets_cover(rows@, occ_view(cards@, kws@), r.0.deep_view(), r.1@),
{
    let ghost os = occ_view(cards@, kws@);
    let mut keys: Vec<Vec<char>> = Vec::new();
    let mut buckets: Vec<KeywordBucket> = Vec::new();
    let mut n: usize = 0;
    assert(os.take(0) =~= Seq::<(int, Seq<char>)>::empty());
    while n < cards.len()
        invariant
            os == occ_view(cards@, kws@),
            n <= cards@.len(),
            cards@.len() == kws@.len(),
            cards@.len() <= i64::MAX,
            forall|k: int| 0 <= k < cards@.len() ==> cards@[k] < rows@.len(),
            questions@.len() == rows@.len(),
            forall|ci: int|
                0 <= ci < rows@.len() ==> #[trigger] questions@[ci]@ == effective_question_of(
                    rows@[ci].keyword@,
                    rows@[ci].question@,
                ),
            buckets_cover(rows@, os.take(n as int), keys.deep_view(), buckets@),
        decreases cards@.len() - n,
    {
        let ghost p = os.take(n as int);
        let ghost o = os[n as int];
        assert(os.take(n + 1) =~= p.push(o));
        let ci = cards[n];
        let kw_chars = chars_of(kws[n].as_str());
        let trimmed = trim_chars(kw_chars.as_slice());
        let key = lowercase_chars(trimmed.as_slice());
        assert(key@ == bucket_key(o.1));
        let ghost keys_v = keys.deep_view();
        proof {
            assert forall|j: int| 0 <= j < keys@.len() implies keys_v[j] == keys@[j]@ by {
                crate::text::lemma_chars_deep_view(keys@[j]);
            }
        }
        if key.len() == 0 {
            proof {
                assert forall|j: int| 0 <= j < buckets@.len() implies is_bucket_of(
                    rows@,
                    p.push(o),
                    #[trigger] buckets@[j],
                ) by {
                    assert(keys_v[j] == bucket_key(buckets@[j].keyword@) && keys_v[j].len() > 0);
                    lemma_other_buckets_unchanged(rows@, p, o, buckets@[j]);
                }
                assert forall|m: int|
                    0 <= m < p.push(o).len() && bucket_key(p.push(o)[m].1).len() > 0 implies exists|
                        jj: int,
                    |
                        0 <= jj < keys_v.len() && keys_v[jj] == bucket_key(#[trigger] p.push(o)[m].1) by {
                    assert(m < p.len());
                    assert(p.push(o)[m] == p[m]);
                }
            }
        } else {
            match find_key(&keys, key.as_slice()) {
                Some(j) => {
                    let ghost g = with_key(p, key@);
                    let ghost old_buckets = buckets@;
                    let mut b = buckets.remove(j);
                    assert(b == old_buckets[j as int]);
                    assert(is_bucket_of(rows@, p, b));
                    assert(keys_v[j as int] == bucket_key(b.keyword@));
                    assert(keys_v[j as int] == key@);
                    assert(g.len() > 0);
                    proof {
                        lemma_with_key_push(p, o, key@);
                        lemma_update_times_push(rows@, g, o);
                        lemma_latest_push(update_times(rows@, g), rows@[ci as int].updated_at);
                    }
                    let ghost g2 = g.push(o);
                    assert(with_key(p.push(o), key@) == g2);
                    b.question_count = b.question_count + 1;
                    let card = &rows[ci];
                    if b.last_updated_at.before(&card.updated_at) {
                        b.last_updated_at = card.updated_at;
                    }
                    if b.sample_questions.len() < KEYWORD_BUCKET_SAMPLE_LIMIT {
                        let q = KeywordBucketQuestion {
                            card_id: card.id.clone(),
                            question: questions[ci].clone(),
                            status: card.status.clone(),
                            created_at: card.created_at,
                        };
                        b.sample_questions.push(q);
                    }
                    assert(g2[0] == g[0]);
                    proof {
                        lemma_with_key_from(p, key@);
                    }
                    assert(is_bucket_of(rows@, p.push(o), b));
                    buckets.insert(j, b);
                    proof {
                        assert forall|i: int| 0 <= i < buckets@.len() && i != j implies is_bucket_of(
                            rows@,
                            p.push(o),
                            #[trigger] buckets@[i],
                        ) by {
                            assert(buckets@[i] == old_buckets[i]);
                            assert(keys_v[i] == bucket_key(old_buckets[i].keyword@));
                            assert(keys_v[i] != keys_v[j as int]);
                            lemma_other_buckets_unchanged(rows@, p, o, old_buckets[i]);
                        }
                        assert forall|m: int|
                            0 <= m < p.push(o).len() && bucket_key(p.push(o)[m].1).len() > 0 implies exists|
                                jj: int,
                            |
                                0 <= jj < keys_v.len() && keys_v[jj] == bucket_key(
                                    #[trigger] p.push(o)[m].1,
                                ) by {
                            if m < p.len() {
                                assert(p.push(o)[m] == p[m]);
                            } else {
                                assert(keys_v[j as int] == bucket_key(p.push(o)[m].1));
                            }
                        }
                        assert forall|i: int| 0 <= i < buckets@.len() implies #[trigger] buckets@[i].question_count
                            <= p.push(o).len() by {
                            if i != j {
                                assert(buckets@[i] == old_buckets[i]);
                            }
                        }
                        assert forall|i: int| 0 <= i < keys_v.len() implies #[trigger] keys_v[i] == bucket_key(
                            buckets@[i].keyword@,
                        ) && keys_v[i].len() > 0 by {
                            if i != j {
                                assert(buckets@[i] == old_buckets[i]);
                            }
                        }
                    }
                },
                None => {
                    proof {
                        lemma_with_key_from(p, key@);
                        lemma_with_key_push(p, o, key@);
                        assert forall|j: int| 0 <= j < buckets@.len() implies is_bucket_of(
                            rows@,
                            p.push(o),
                            #[trigger] buckets@[j],
                        ) by {
                            lemma_other_buckets_unchanged(rows@, p, o, buckets@[j]);
                        }
                    }
                    assert(with_key(p, key@).len() == 0);
                    let card = &rows[ci];
                    let q = KeywordBucketQuestion {
                        card_id: card.id.clone(),
                        question: questions[ci].clone(),
                        status: card.status.clone(),
                        created_at: card.created_at,
                    };
                    let mut samples: Vec<KeywordBucketQuestion> = Vec::new();
                    samples.push(q);
                    let b = KeywordBucket {
                        keyword: kws[n].clone(),
                        question_count: 1,
                        sample_questions: samples,
                        last_updated_at: card.updated_at,
                    };
                    let ghost g2 = with_key(p.push(o), key@);
                    assert(g2 =~= seq![o]);
                    assert(update_times(rows@, g2) =~= seq![rows@[ci as int].updated_at]);
                    assert(is_bucket_of(rows@, p.push(o), b));
                    let ghost keys_before = keys.deep_view();
                    buckets.push(b);
                    keys.push(key);
                    proof {
                        crate::text::lemma_chars_deep_view(keys@[keys@.len() - 1]);
                        assert(keys.deep_view() =~= keys_before.push(key@));
                        let nk = keys.deep_view();
                        assert forall|m: int|
                            0 <= m < p.push(o).len() && bucket_key(p.push(o)[m].1).len() > 0 implies exists|
                                jj: int,
                            |
                                0 <= jj < nk.len() && nk[jj] == bucket_key(#[trigger] p.push(o)[m].1) by {
                            if m < p.len() {
                                assert(p.push(o)[m] == p[m]);
                                let jj = choose|jj: int|
                                    0 <= jj < keys_v.len() && keys_v[jj] == bucket_key(#[trigger] p[m].1);
                                assert(nk[jj] == keys_v[jj]);
                            } else {
                                assert(nk[nk.len() - 1] == bucket_key(p.push(o)[m].1));
                            }
                        }
                        assert forall|j1: int, j2: int|
                            0 <= j1 < nk.len() && 0 <= j2 < nk.len() && j1 != j2 implies nk[j1] != nk[j2] by {
                            if j1 == nk.len() - 1 {
                                assert(nk[j2] == keys_v[j2]);
                            } else if j2 == nk.len() - 1 {
                                assert(nk[j1] == keys_v[j1]);
                            }
                        }
                    }
                },
            }
        }
        n += 1;
    }
    assert(os.take(n as int) =~= os);
    (keys, buckets)
}

} // verus!

verus! {

/// Whether bucket `a` comes before bucket `b` in the library order.
fn precedes(a: &KeywordBucket, b: &KeywordBucket) -> (r: bool)
    ensures
        r == bucket_precedes(*a, *b),
{
    if a.question_count != b.question_count {
        return a.question_count > b.question_count;
    }
    if b.last_updated_at.before(&a.last_updated_at) {
        return true;
    }
    if a.last_updated_at.before(&b.last_updated_at) {
        return false;
    }
    assert(a.last_updated_at == b.last_updated_at);
    let x = chars_of(a.keyword.as_str());
    let y = chars_of(b.keyword.as_str());
    chars_lt(x.as_slice(), y.as_slice())
}

/// The buckets are in library order.
pub open spec fn in_library_order(s: Seq<KeywordBucket>) -> bool {
    forall|i: int, j: int| 0 <= i < j < s.len() ==> bucket_precedes(#[trigger] s[i], #[trigger] s[j])
}

/// No two of the buckets show the same keyword.
pub open spec fn distinct_keywords(s: Seq<KeywordBucket>) -> bool {
    forall|i: int, j: int|
        0 <= i < s.len() && 0 <= j < s.len() && i != j ==> #[trigger] s[i].keyword@ != #[trigger] s[j].keyword@
}

/// `x` is one of the buckets `b`.
pub open spec fn is_one_of(x: KeywordBucket, b: Seq<KeywordBucket>) -> bool {
    exists|j: int| 0 <= j < b.len() && b[j] == x
}

/// Every bucket of `a` is among those of `b`.
pub open spec fn buckets_among(a: Seq<KeywordBucket>, b: Seq<KeywordBucket>) -> bool {
    forall|k: int| 0 <= k < a.len() ==> is_one_of(#[trigger] a[k], b)
}

/// Inserting a bucket where it belongs keeps a sorted list sorted and its keywords distinct.
proof fn lemma_insert_in_order(s: Seq<KeywordBucket>, b: KeywordBucket, pos: int)
    requires
        0 <= pos <= s.len(),
        in_library_order(s),
        distinct_keywords(s),
        forall|k: int| 0 <= k < s.len() ==> #[trigger] s[k].keyword@ != b.keyword@,
        forall|k: int| 0 <= k < pos ==> !bucket_precedes(b, #[trigger] s[k]),
        pos < s.len() ==> bucket_precedes(b, s[pos]),
    ensures
        in_library_order(s.insert(pos, b)),
        distinct_keywords(s.insert(pos, b)),
{
    let t = s.insert(pos, b);
    assert forall|k: int| 0 <= k < pos implies bucket_precedes(#[trigger] s[k], b) by {
        lemma_bucket_precedes_total(s[k], b);
    }
    assert forall|i: int, j: int| 0 <= i < j < t.len() implies bucket_precedes(
        #[trigger] t[i],
        #[trigger] t[j],
    ) by {
        if j < pos {
            assert(t[i] == s[i] && t[j] == s[j]);
        } else if j == pos {
            assert(t[i] == s[i]);
        } else if i < pos {
            assert(t[i] == s[i]);
            assert(t[j] == s[j - 1]);
            lemma_bucket_precedes_transitive(s[i], b, s[pos]);
            if pos < j - 1 {
                assert(bucket_precedes(s[pos], s[j - 1]));
                lemma_bucket_precedes_transitive(s[i], s[pos], s[j - 1]);
            }
        } else if i == pos {
            assert(t[j] == s[j - 1]);
            if pos < j - 1 {
                assert(bucket_precedes(s[pos], s[j - 1]));
                lemma_bucket_precedes_transitive(b, s[pos], s[j - 1]);
            }
        } else {
            assert(t[i] == s[i - 1]);
            assert(t[j] == s[j - 1]);
        }
    }
    assert forall|i: int, j: int| 0 <= i < t.len() && 0 <= j < t.len() && i != j implies #[trigger] t[i].keyword@
        != #[trigger] t[j].keyword@ by {
        if i != pos && j != pos {
            let si = if i < pos { i } else { i - 1 };
            let sj = if j < pos { j } else { j - 1 };
            assert(t[i] == s[si]);
            assert(t[j] == s[sj]);
        } else if i == pos {
            let sj = if j < pos { j } else { j - 1 };
            assert(t[j] == s[sj]);
        } else {
            let si = if i < pos { i } else { i - 1 };
            assert(t[i] == s[si]);
        }
    }
}

/// Inserting the bucket at position `m` of `orig` into a list of the buckets after `m` gives
/// a list of exactly the buckets from `m` on.
proof fn lemma_insert_members(s: Seq<KeywordBucket>, b: KeywordBucket, pos: int, orig: Seq<KeywordBucket>, m: int)
    requires
        0 <= pos <= s.len(),
        0 <= m < orig.len(),
        b == orig[m],
        buckets_among(s, orig.skip(m + 1)),
        buckets_among(orig.skip(m + 1), s),
    ensures
        buckets_among(s.insert(pos, b), orig.skip(m)),
        buckets_among(orig.skip(m), s.insert(pos, b)),
{
    let t = s.insert(pos, b);
    let o1 = orig.skip(m + 1);
    let o0 = orig.skip(m);
    assert forall|k: int| 0 <= k < t.len() implies is_one_of(#[trigger] t[k], o0) by {
        if k == pos {
            assert(o0[0] == t[k]);
        } else {
            let sk = if k < pos { k } else { k - 1 };
            assert(t[k] == s[sk]);
            assert(is_one_of(s[sk], o1));
            let j = choose|j: int| 0 <= j < o1.len() && o1[j] == s[sk];
            assert(o0[j + 1] == o1[j]);
        }
    }
    assert forall|j: int| 0 <= j < o0.len() implies is_one_of(#[trigger] o0[j], t) by {
        if j == 0 {
            assert(t[pos] == o0[j]);
        } else {
            assert(o0[j] == o1[j - 1]);
            assert(is_one_of(o1[j - 1], s));
            let k = choose|k: int| 0 <= k < s.len() && s[k] == o1[j - 1];
            let tk = if k < pos { k } else { k + 1 };
            assert(t[tk] == s[k]);
        }
    }
}

/// Sorts buckets with distinct keywords into the library order.
fn sort_buckets(buckets: Vec<KeywordBucket>) -> (r: Vec<KeywordBucket>)
    requires
        distinct_keywords(buckets@),
    ensures
        r@.len() == buckets@.len(),
        buckets_among(r@, buckets@),
        buckets_among(buckets@, r@),
        in_library_order(r@),
        distinct_keywords(r@),
{
    let ghost orig = buckets@;
    let mut rest = buckets;
    let mut sorted: Vec<KeywordBucket> = Vec::new();
    assert(orig.skip(orig.len() as int) =~= Seq::<KeywordBucket>::empty());
    while rest.len() > 0
        invariant
            rest@ == orig.take(rest@.len() as int),
            rest@.len() <= orig.len(),
            sorted@.len() + rest@.len() == orig.len(),
            distinct_keywords(orig),
            buckets_among(sorted@, orig.skip(rest@.len() as int)),
            buckets_among(orig.skip(rest@.len() as int), sorted@),
            in_library_order(sorted@),
            distinct_keywords(sorted@),
        decreases rest@.len(),
    {
        let ghost m = (rest@.len() - 1) as int;
        let b = match rest.pop() {
            Some(b) => b,
            None => {
                return sorted;
            },
        };
        assert(b == orig[m]);
        assert(rest@ =~= orig.take(m));
        let ghost s = sorted@;
        proof {
            assert forall|k: int| 0 <= k < s.len() implies #[trigger] s[k].keyword@ != b.keyword@ by {
                let o1 = orig.skip(m + 1);
                assert(is_one_of(s[k], o1));
                let j = choose|j: int| 0 <= j < o1.len() && o1[j] == s[k];
                assert(o1[j] == orig[m + 1 + j]);
            }
        }
        let mut pos: usize = 0;
        while pos < sorted.len() && !precedes(&b, &sorted[pos])
            invariant
                sorted@ == s,
                pos <= s.len(),
                forall|k: int| 0 <= k < pos ==> !bucket_precedes(b, #[trigger] s[k]),
            decreases s.len() - pos,
        {
            pos += 1;
        }
        proof {
            lemma_insert_in_order(s, b, pos as int);
            lemma_insert_members(s, b, pos as int, orig, m);
        }
        sorted.insert(pos, b);
        assert(sorted@ =~= s.insert(pos as int, b));
    }
    assert(orig.skip(0) =~= orig);
    sorted
}

} // verus!

verus! {

/// Groups the effective keywords of the cards into buckets, one per keyword key (trimmed,
/// in lower case, blank keys left out), and sorts them into the library order.
pub fn aggregate_keyword_buckets(rows: &Vec<Card>) -> (r: Vec<KeywordBucket>)
    requires
        occurrences(rows@).len() <= i64::MAX,
    ensures
        forall|i: int|
            0 <= i < r@.len() ==> is_bucket_of(rows@, occurrences(rows@), #[trigger] r@[i]) && bucket_key(
                r@[i].keyword@,
            ).len() > 0,
        forall|m: int|
            0 <= m < occurrences(rows@).len() && bucket_key(occurrences(rows@)[m].1).len() > 0 ==> exists|
                i: int,
            |
                0 <= i < r@.len() && #[trigger] bucket_key(r@[i].keyword@) == bucket_key(
                    occurrences(rows@)[m].1,
                ),
        forall|i: int, j: int|
            0 <= i < r@.len() && 0 <= j < r@.len() && i != j ==> bucket_key(#[trigger] r@[i].keyword@)
                != bucket_key(#[trigger] r@[j].keyword@),
        in_library_order(r@),
{
    let (cards, kws, questions) = collect_occurrences(rows);
    let (keys, buckets) = accumulate_buckets(rows, &cards, &kws, &questions);
    let ghost os = occurrences(rows@);
    let ghost kv = keys.deep_view();
    let ghost bs = buckets@;
    assert(buckets_cover(rows@, os, kv, bs));
    assert forall|i: int, j: int|
        0 <= i < bs.len() && 0 <= j < bs.len() && i != j implies #[trigger] bs[i].keyword@
        != #[trigger] bs[j].keyword@ by {
        assert(kv[i] == bucket_key(bs[i].keyword@));
        assert(kv[j] == bucket_key(bs[j].keyword@));
    }
    let r = sort_buckets(buckets);
    assert forall|i: int| 0 <= i < r@.len() implies is_bucket_of(rows@, os, #[trigger] r@[i]) && bucket_key(
        r@[i].keyword@,
    ).len() > 0 by {
        assert(is_one_of(r@[i], bs));
        let j = choose|j: int| 0 <= j < bs.len() && bs[j] == r@[i];
        assert(kv[j] == bucket_key(bs[j].keyword@) && kv[j].len() > 0);
    }
    assert forall|m: int| 0 <= m < os.len() && bucket_key(os[m].1).len() > 0 implies exists|i: int|
        0 <= i < r@.len() && #[trigger] bucket_key(r@[i].keyword@) == bucket_key(os[m].1) by {
        let j = choose|j: int| 0 <= j < kv.len() && kv[j] == bucket_key(#[trigger] os[m].1);
        assert(kv[j] == bucket_key(bs[j].keyword@));
        assert(is_one_of(bs[j], r@));
        let i = choose|i: int| 0 <= i < r@.len() && r@[i] == bs[j];
        assert(bucket_key(r@[i].keyword@) == bucket_key(os[m].1));
    }
    assert forall|i: int, j: int|
        0 <= i < r@.len() && 0 <= j < r@.len() && i != j implies bucket_key(#[trigger] r@[i].keyword@)
        != bucket_key(#[trigger] r@[j].keyword@) by {
        assert(is_one_of(r@[i], bs));
        assert(is_one_of(r@[j], bs));
        let a = choose|a: int| 0 <= a < bs.len() && bs[a] == r@[i];
        let b = choose|b: int| 0 <= b < bs.len() && bs[b] == r@[j];
        assert(kv[a] == bucket_key(bs[a].keyword@));
        assert(kv[b] == bucket_key(bs[b].keyword@));
        assert(r@[i].keyword@ != r@[j].keyword@);
    }
    r
}

} // verus!

verus! {

// ---------------------------------------------------------------------------
// Keyword matching and search patterns
// ---------------------------------------------------------------------------

/// Some stored keyword of the card, or its main keyword, has the key `key`.
pub open spec fn card_has_key(c: Card, key: Seq<char>) -> bool {
    ||| exists|i: int|
        0 <= i < parsed_keywords_of(c.keywords@).len() && #[trigger] bucket_key(
            parsed_keywords_of(c.keywords@)[i],
        ) == key
    ||| bucket_key(c.keyword@) == key
}

/// Whether one of the keywords in `kws` has the key `key`.
fn any_keyword_has_key(kws: &Vec<String>, key: &[char]) -> (r: bool)
    ensures
        r == exists|i: int| 0 <= i < kws@.len() && #[trigger] bucket_key(kws@[i]@) == key@,
{
    let mut i: usize = 0;
    while i < kws.len()
        invariant
            i <= kws@.len(),
            forall|k: int| 0 <= k < i ==> bucket_key(#[trigger] kws@[k]@) != key@,
        decreases kws@.len() - i,
    {
        let t = trimmed_chars_of(kws[i].as_str());
        let l = lowercase_chars(t.as_slice());
        if chars_eq(l.as_slice(), key) {
            assert(bucket_key(kws@[i as int]@) == key@);
            return true;
        }
        i += 1;
    }
    false
}

/// Whether a stored keyword of the card, or its main keyword, trimmed and in lower case,
/// equals `keyword_lower`.
pub fn card_keywords_contains_exact(card: &Card, keyword_lower: &str) -> (r: bool)
    ensures
        r == card_has_key(*card, keyword_lower@),
{
    let parsed = parse_keywords_json(card.keywords.as_str());
    let key = chars_of(keyword_lower);
    let in_parsed = any_keyword_has_key(&parsed, key.as_slice());
    proof {
        if in_parsed {
            let i = choose|i: int| 0 <= i < parsed@.len() && #[trigger] bucket_key(parsed@[i]@) == key@;
            assert(parsed.deep_view()[i] == parsed@[i]@);
        } else {
            assert forall|i: int| 0 <= i < parsed_keywords_of(card.keywords@).len() implies #[trigger] bucket_key(
                parsed_keywords_of(card.keywords@)[i],
            ) != key@ by {
                assert(parsed.deep_view()[i] == parsed@[i]@);
            }
        }
    }
    if in_parsed {
        return true;
    }
    let t = trimmed_chars_of(card.keyword.as_str());
    let l = lowercase_chars(t.as_slice());
    chars_eq(l.as_slice(), key.as_slice())
}

/// A character as written in a `LIKE` pattern with `\` as the escape character.
pub open spec fn like_escaped_char(c: char) -> Seq<char> {
    if c == '\\' || c == '%' || c == '_' {
        seq!['\\', c]
    } else {
        seq![c]
    }
}

/// Text as written in a `LIKE` pattern: backslashes, `%` and `_` escaped with a backslash.
pub open spec fn like_escaped(s: Seq<char>) -> Seq<char>
    decreases s.len(),
{
    if s.len() == 0 {
        Seq::empty()
    } else {
        like_escaped(s.drop_last()) + like_escaped_char(s.last())
    }
}

/// How `LIKE ... ESCAPE '\\'` reads a pattern as literal text: a backslash takes the next
/// character literally; `None` when the pattern holds a bare wildcard (`%` or `_`) or ends
/// in a lone backslash.
pub open spec fn pattern_literal(p: Seq<char>) -> Option<Seq<char>>
    decreases p.len(),
{
    if p.len() == 0 {
        Some(Seq::empty())
    } else if p[0] == '\\' {
        if p.len() < 2 {
            None
        } else {
            match pattern_literal(p.skip(2)) {
                Some(rest) => Some(seq![p[1]] + rest),
                None => None,
            }
        }
    } else if p[0] == '%' || p[0] == '_' {
        None
    } else {
        match pattern_literal(p.drop_first()) {
            Some(rest) => Some(seq![p[0]] + rest),
            None => None,
        }
    }
}

proof fn lemma_like_escaped_front(s: Seq<char>)
    requires
        s.len() > 0,
    ensures
        like_escaped(s) == like_escaped_char(s[0]) + like_escaped(s.drop_first()),
    decreases s.len(),
{
    if s.len() == 1 {
        assert(s.drop_last() =~= Seq::<char>::empty());
        assert(s.drop_first() =~= Seq::<char>::empty());
        assert(like_escaped(s) =~= like_escaped_char(s[0]) + like_escaped(s.drop_first()));
    } else {
        lemma_like_escaped_front(s.drop_last());
        assert(s.drop_last().drop_first() =~= s.drop_first().drop_last());
        assert(s.drop_first().last() == s.last());
        assert(s.drop_last()[0] == s[0]);
        assert(like_escaped(s) =~= like_escaped_char(s[0]) + like_escaped(s.drop_first()));
    }
}

/// An escaped text, used as a `LIKE` pattern with `\\` as the escape character, stands for
/// exactly that text: it holds no bare wildcard, and reading it back gives the text.
pub proof fn law_like_escaped_reads_back(s: Seq<char>)
    ensures
        pattern_literal(like_escaped(s)) == Some(s),
    decreases s.len(),
{
    if s.len() > 0 {
        lemma_like_escaped_front(s);
        law_like_escaped_reads_back(s.drop_first());
        let e = like_escaped_char(s[0]);
        let rest = like_escaped(s.drop_first());
        let p = e + rest;
        if s[0] == '\\' || s[0] == '%' || s[0] == '_' {
            assert(p.skip(2) =~= rest);
        } else {
            assert(p.drop_first() =~= rest);
        }
        assert(seq![s[0]] + s.drop_first() =~= s);
    }
}

/// Escapes the `LIKE` wildcards and the escape character itself.
pub fn escape_like(s: &[char]) -> (r: Vec<char>)
    ensures
        r@ == like_escaped(s@),
{
    let mut r: Vec<char> = Vec::new();
    let mut i: usize = 0;
    while i < s.len()
        invariant
            i <= s@.len(),
            r@ == like_escaped(s@.take(i as int)),
        decreases s@.len() - i,
    {
        let c = s[i];
        if c == '\\' || c == '%' || c == '_' {
            r.push('\\');
        }
        r.push(c);
        assert(s@.take(i + 1).drop_last() =~= s@.take(i as int));
        assert(r@ =~= like_escaped(s@.take(i + 1)));
        i += 1;
    }
    assert(s@.take(s@.len() as int) =~= s@);
    r
}

/// What a keyword search looks for: the trimmed keyword, the `LIKE` pattern that finds it
/// as a whole JSON string in the keyword column, and the keyword in lower case for the
/// main-keyword column.
#[derive(Debug, Clone, PartialEq, Eq)]
pub struct KeywordSearchTerms {
    pub needle: String,
    pub pattern: String,
    pub lowered: String,
}

/// The terms of a keyword search; `None` for a blank keyword, which finds nothing.
pub fn keyword_search_terms(keyword: &str) -> (r: Option<KeywordSearchTerms>)
    ensures
        r is None <==> trim(keyword@).len() == 0,
        r matches Some(t) ==> {
            &&& t.needle@ == trim(keyword@)
            &&& t.pattern@ == seq!['%', '"'] + like_escaped(trim(keyword@)) + seq!['"', '%']
            &&& t.lowered@ == lowercase(trim(keyword@))
        },
{
    let needle = trimmed_chars_of(keyword);
    if needle.len() == 0 {
        return None;
    }
    let esc = escape_like(needle.as_slice());
    let mut p: Vec<char> = Vec::new();
    p.push('%');
    p.push('"');
    let mut i: usize = 0;
    while i < esc.len()
        invariant
            i <= esc@.len(),
            p@ == seq!['%', '"'] + esc@.take(i as int),
        decreases esc@.len() - i,
    {
        p.push(esc[i]);
        assert(esc@.take(i + 1) =~= esc@.take(i as int).push(esc@[i as int]));
        i += 1;
    }
    p.push('"');
    p.push('%');
    assert(esc@.take(esc@.len() as int) =~= esc@);
    assert(p@ =~= seq!['%', '"'] + esc@ + seq!['"', '%']);
    let lowered = lowercase_chars(needle.as_slice());
    Some(
        KeywordSearchTerms {
            needle: string_from_chars(needle.as_slice()),
            pattern: string_from_chars(p.as_slice()),
            lowered: string_from_chars(lowered.as_slice()),
        },
    )
}

/// The fewest and the most cards a question search returns.
pub const QUESTION_SEARCH_MIN_LIMIT: i64 = 1;
pub const QUESTION_SEARCH_MAX_LIMIT: i64 = 200;

/// What a question search looks for: the `LIKE` pattern matching the trimmed query
/// anywhere, and the number of cards to return, clamped to 1..=200.
#[derive(Debug, Clone, PartialEq, Eq)]
pub struct QuestionSearchTerms {
    pub pattern: String,
    pub limit: i64,
}

/// `limit` clamped to the range a question search allows.
pub open spec fn clamped_search_limit(limit: i64) -> i64 {
    if limit < QUESTION_SEARCH_MIN_LIMIT {
        QUESTION_SEARCH_MIN_LIMIT
    } else if limit > QUESTION_SEARCH_MAX_LIMIT {
        QUESTION_SEARCH_MAX_LIMIT
    } else {
        limit
    }
}

/// The terms of a question search; `None` for a blank query, which finds nothing.
pub fn question_search_terms(query: &str, limit: i64) -> (r: Option<QuestionSearchTerms>)
    ensures
        r is None <==> trim(query@).len() == 0,
        r matches Some(t) ==> {
            &&& t.pattern@ == seq!['%'] + like_escaped(trim(query@)) + seq!['%']
            &&& t.limit == clamped_search_limit(limit)
        },
{
    let needle = trimmed_chars_of(query);
    if needle.len() == 0 {
        return None;
    }
    let esc = escape_like(needle.as_slice());
    let mut p: Vec<char> = Vec::new();
    p.push('%');
    let mut i: usize = 0;
    while i < esc.len()
        invariant
            i <= esc@.len(),
            p@ == seq!['%'] + esc@.take(i as int),
        decreases esc@.len() - i,
    {
        p.push(esc[i]);
        assert(esc@.take(i + 1) =~= esc@.take(i as int).push(esc@[i as int]));
        i += 1;
    }
    p.push('%');
    assert(esc@.take(esc@.len() as int) =~= esc@);
    assert(p@ =~= seq!['%'] + esc@ + seq!['%']);
    let clamped = if limit < QUESTION_SEARCH_MIN_LIMIT {
        QUESTION_SEARCH_MIN_LIMIT
    } else if limit > QUESTION_SEARCH_MAX_LIMIT {
        QUESTION_SEARCH_MAX_LIMIT
    } else {
        limit
    };
    Some(QuestionSearchTerms { pattern: string_from_chars(p.as_slice()), limit: clamped })
}

} // verus!
