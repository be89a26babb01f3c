//! The library view: searching cards by keyword or by question, and the keyword buckets.

use vstd::prelude::*;

use crate::db::dao::card_dao::bucket_key;
use crate::models::card::{effective_keywords_of, shown_card, Card, GeneratedCard, KeywordBucket};
use crate::text::{chars_eq, lowercase_chars, string_from_chars, trim, trimmed_chars_of};

verus! {

/// A search for the cards filed under one keyword.
#[derive(Debug, Clone, PartialEq, Eq)]
pub struct SearchByKeywordInput {
    pub keyword: String,
    /// Only accepted cards; otherwise every card but the rejected ones.
    pub only_accepted: bool,
}

/// A search for cards whose question, definition, explanation or keyword holds some text.
#[derive(Debug, Clone, PartialEq, Eq)]
pub struct SearchByQuestionInput {
    pub query: String,
    pub only_accepted: bool,
    /// The most cards to return; 50 when absent.
    pub limit: Option<i64>,
}

/// A request for the keyword buckets of the library.
#[derive(Debug, Clone, PartialEq, Eq)]
pub struct ListKeywordBucketsInput {
    pub only_accepted: bool,
}

/// The cards found by a search, with the keyword or query that found them.
#[derive(Debug, Clone, PartialEq, Eq)]
pub struct SearchCardsResult {
    pub keyword: Option<String>,
    pub query: Option<String>,
    pub cards: Vec<GeneratedCard>,
}

/// The keyword buckets of the library, in library order.
#[derive(Debug, Clone, PartialEq, Eq)]
pub struct KeywordBucketsResult {
    pub buckets: Vec<KeywordBucket>,
}

/// The number of cards a question search returns when none is asked for.
pub const DEFAULT_QUESTION_SEARCH_LIMIT: i64 = 50;

/// The result of a search for nothing: no keyword, no query, no cards.
pub fn empty_search_result() -> (r: SearchCardsResult)
    ensures
        r.keyword is None,
        r.query is None,
        r.cards@.len() == 0,
{
    SearchCardsResult { keyword: None, query: None, cards: Vec::new() }
}

/// One of the effective keywords of the card has the key `key`.
pub open spec fn card_shows_key(c: Card, key: Seq<char>) -> bool {
    exists|i: int|
        0 <= i < effective_keywords_of(c.keyword@, c.keywords@).len() && #[trigger] bucket_key(
            effective_keywords_of(c.keyword@, c.keywords@)[i],
        ) == key
}

/// The cards, in order, that show a keyword with the key `key`.
pub open spec fn keyword_hits(rows: Seq<Card>, key: Seq<char>) -> Seq<Card>
    decreases rows.len(),
{
    if rows.len() == 0 {
        Seq::empty()
    } else if card_shows_key(rows.last(), key) {
        keyword_hits(rows.drop_last(), key).push(rows.last())
    } else {
        keyword_hits(rows.drop_last(), key)
    }
}

/// `cards` shows, one for one and in order, the cards `rows`.
pub open spec fn shows_cards(rows: Seq<Card>, cards: Seq<GeneratedCard>) -> bool {
    &&& cards.len() == rows.len()
    &&& forall|i: int| 0 <= i < rows.len() ==> shown_card(#[trigger] rows[i], cards[i])
}

/// Whether the card shows a keyword with the given key.
fn shows_key(c: &Card, key: &[char]) -> (r: bool)
    ensures
        r == card_shows_key(*c, key@),
{
    let kws = c.effective_keywords();
    let mut i: usize = 0;
    while i < kws.len()
        invariant
            i <= kws@.len(),
            kws.deep_view() == effective_keywords_of(c.keyword@, c.keywords@),
            forall|k: int| 0 <= k < i ==> bucket_key(#[trigger] kws.deep_view()[k]) != key@,
        decreases kws@.len() - i,
    {
        let t = trimmed_chars_of(kws[i].as_str());
        let l = lowercase_chars(t.as_slice());
        if chars_eq(l.as_slice(), key) {
            assert(bucket_key(kws.deep_view()[i as int]) == key@);
            return true;
        }
        i += 1;
    }
    false
}

/// The result of a keyword search over the rows the store found: the cards that show a
/// keyword equal to the trimmed keyword, ignoring case and surrounding blanks, in the
/// store's order. A blank keyword finds nothing.
pub fn search_by_keyword_result(keyword: &str, rows: Vec<Card>) -> (r: SearchCardsResult)
    ensures
        trim(keyword@).len() == 0 ==> r.keyword is None && r.query is None && r.cards@.len() == 0,
        trim(keyword@).len() > 0 ==> {
            &&& r.keyword matches Some(k) && k@ == trim(keyword@)
            &&& r.query is None
            &&& shows_cards(keyword_hits(rows@, bucket_key(keyword@)), r.cards@)
        },
{
    let t = trimmed_chars_of(keyword);
    if t.len() == 0 {
        return empty_search_result();
    }
    let key = lowercase_chars(t.as_slice());
    let ghost all = rows@;
    let mut cards: Vec<GeneratedCard> = Vec::new();
    let len = rows.len();
    let mut rest = rows;
    let mut n: usize = 0;
    assert(all.take(0) =~= Seq::<Card>::empty());
    while rest.len() > 0
        invariant
            n <= all.len(),
            all.len() == len,
            rest@ == all.skip(n as int),
            shows_cards(keyword_hits(all.take(n as int), key@), cards@),
        decreases rest@.len(),
    {
        let c = rest.remove(0);
        assert(c == all[n as int]);
        assert(rest@ =~= all.skip(n + 1));
        let hit = shows_key(&c, key.as_slice());
        let ghost before = cards@;
        let ghost prev = all.take(n as int);
        let ghost now = all.take(n + 1);
        assert(now.drop_last() =~= prev);
        assert(now.last() == c);
        if hit {
            let g = GeneratedCard::from(c);
            cards.push(g);
            assert forall|i: int| 0 <= i < keyword_hits(now, key@).len() implies shown_card(
                #[trigger] keyword_hits(now, key@)[i],
                cards@[i],
            ) by {
                if i < before.len() {
                    assert(keyword_hits(now, key@)[i] == keyword_hits(prev, key@)[i]);
                }
            }
        } else {
            assert(keyword_hits(now, key@) == keyword_hits(prev, key@));
        }
        n += 1;
    }
    assert(all.take(n as int) =~= all);
    SearchCardsResult { keyword: Some(string_from_chars(t.as_slice())), query: None, cards }
}

/// The number of cards a question search asks for.
pub fn question_search_limit(limit: Option<i64>) -> (r: i64)
    ensures
        r == match limit {
            Some(n) => n,
            None => DEFAULT_QUESTION_SEARCH_LIMIT,
        },
{
    match limit {
        Some(n) => n,
        None => DEFAULT_QUESTION_SEARCH_LIMIT,
    }
}

/// The result of a question search over the rows the store found: all of them, shown, in
/// the store's order. A blank query finds nothing.
pub fn search_by_question_result(query: &str, rows: Vec<Card>) -> (r: SearchCardsResult)
    ensures
        trim(query@).len() == 0 ==> r.keyword is None && r.query is None && r.cards@.len() == 0,
        trim(query@).len() > 0 ==> {
            &&& r.keyword is None
            &&& r.query matches Some(q) && q@ == trim(query@)
            &&& shows_cards(rows@, r.cards@)
        },
{
    let t = trimmed_chars_of(query);
    if t.len() == 0 {
        return empty_search_result();
    }
    let ghost all = rows@;
    let mut cards: Vec<GeneratedCard> = Vec::new();
    let mut rest = rows;
    while rest.len() > 0
        invariant
            cards@.len() <= all.len(),
            rest@ == all.skip(cards@.len() as int),
            shows_cards(all.take(cards@.len() as int), cards@),
        decreases rest@.len(),
    {
        let ghost n = cards@.len() as int;
        let c = rest.remove(0);
        assert(c == all[n]);
        assert(rest@ =~= all.skip(n + 1));
        cards.push(GeneratedCard::from(c));
        assert forall|i: int| 0 <= i < n + 1 implies shown_card(#[trigger] all.take(n + 1)[i], cards@[i]) by {
            if i < n {
                assert(all.take(n + 1)[i] == all.take(n)[i]);
            }
        }
    }
    assert(all.take(all.len() as int) =~= all);
    SearchCardsResult { keyword: None, query: Some(string_from_chars(t.as_slice())), cards }
}

} // verus!
