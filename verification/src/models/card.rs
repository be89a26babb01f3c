//! Knowledge cards, generation batches and the shapes they are shown in.

use vstd::prelude::*;

use crate::text::{chars_of, string_from_chars, trim, trim_chars, trimmed_chars_of};
use crate::time::Timestamp;

verus! {

// ---------------------------------------------------------------------------
// The keyword column
// ---------------------------------------------------------------------------

/// What `serde_json::from_str::<Vec<String>>` gives for the text `raw`: the array of
/// strings it holds, or `None` when the text is not a JSON array of strings.
pub uninterp spec fn json_string_array(raw: Seq<char>) -> Option<Seq<Seq<char>>>;

/// What `serde_json::to_string` gives for an array of strings.
pub uninterp spec fn json_of_strings(v: Seq<Seq<char>>) -> Seq<char>;

/// Calls `serde_json::from_str::<Vec<String>>`; its outcome is named by `json_string_array`.
#[verifier::external_body]
pub(crate) fn decode_json_strings(raw: &str) -> (r: Option<Vec<String>>)
    ensures
        r is Some <==> json_string_array(raw@) is Some,
        r matches Some(v) ==> json_string_array(raw@) == Some(v.deep_view()),
{
    serde_json::from_str::<Vec<String>>(raw).ok()
}

/// Calls `serde_json::to_string` on a slice of strings; the text is named by
/// `json_of_strings`. serde_json documents that serialising fails only for a `Serialize`
/// impl that fails or a map with non-string keys, neither of which a slice of strings has,
/// and the JSON string escapes it writes read back to the same strings.
#[verifier::external_body]
pub(crate) fn encode_json_strings(v: &[String]) -> (r: Option<String>)
    ensures
        r is Some,
        r matches Some(s) ==> s@ == json_of_strings(v@.map_values(|x: String| x@)),
        r matches Some(s) ==> json_string_array(s@) == Some(v@.map_values(|x: String| x@)),
        r matches Some(s) ==> s@.len() > 0 && s@[0] == '[',
{
    serde_json::to_string(v).ok()
}

/// The keywords held by a stored keyword column: none when it is blank or not a JSON
/// array of strings.
pub open spec fn parsed_keywords_of(raw: Seq<char>) -> Seq<Seq<char>> {
    if trim(raw).len() == 0 {
        Seq::empty()
    } else {
        match json_string_array(raw) {
            Some(v) => v,
            None => Seq::empty(),
        }
    }
}

/// Serialises keywords to the `["..",".."]` form stored in the keyword column.
pub fn serialize_keywords(keywords: &[String]) -> (r: String)
    ensures
        r@ == json_of_strings(keywords@.map_values(|x: String| x@)),
        json_string_array(r@) == Some(keywords@.map_values(|x: String| x@)),
        r@.len() > 0 && r@[0] == '[',
{
    match encode_json_strings(keywords) {
        Some(s) => s,
        None => {
            assert(false);
            String::from_str("[]")
        },
    }
}

/// Parses the stored keyword column; any failure gives no keywords.
pub fn parse_keywords_json(raw: &str) -> (r: Vec<String>)
    ensures
        r.deep_view() == parsed_keywords_of(raw@),
{
    let t = trimmed_chars_of(raw);
    if t.len() == 0 {
        let r: Vec<String> = Vec::new();
        assert(r.deep_view() =~= Seq::<Seq<char>>::empty());
        return r;
    }
    match decode_json_strings(raw) {
        Some(v) => v,
        None => {
            let r: Vec<String> = Vec::new();
            assert(r.deep_view() =~= Seq::<Seq<char>>::empty());
            r
        },
    }
}

/// Keywords written with `serialize_keywords` read back unchanged with `parse_keywords_json`.
pub proof fn law_keywords_round_trip(keywords: Seq<Seq<char>>, stored: Seq<char>)
    requires
        json_string_array(stored) == Some(keywords),
        stored.len() > 0,
        stored[0] == '[',
    ensures
        parsed_keywords_of(stored) == keywords,
{
    crate::text::lemma_strip_nonempty(stored, crate::text::ws());
}

// ---------------------------------------------------------------------------
// Cards
// ---------------------------------------------------------------------------

/// A card row as stored.
///
/// `keywords` holds the JSON text of the keyword array (`"[]"` on older rows) and
/// `question` may be empty on older rows; `keyword` is the main keyword, kept for them.
#[derive(Debug, Clone, PartialEq, Eq)]
pub struct Card {
    pub id: String,
    pub batch_id: Option<String>,
    pub keyword: String,
    pub question: String,
    pub keywords: String,
    pub definition: String,
    pub explanation: String,
    pub source_excerpt: Option<String>,
    pub status: String,
    pub created_at: Timestamp,
    pub updated_at: Timestamp,
    pub next_review_at: Option<Timestamp>,
}

/// The question shown for a card: the stored one, trimmed, or "<keyword>是什么？" when
/// there is none.
pub open spec fn effective_question_of(keyword: Seq<char>, question: Seq<char>) -> Seq<char> {
    if trim(question).len() > 0 {
        trim(question)
    } else {
        keyword + "是什么？"@
    }
}

/// The keywords shown for a card: the stored ones, or the main keyword alone when there
/// are none and it is not blank.
pub open spec fn effective_keywords_of(keyword: Seq<char>, raw_keywords: Seq<char>) -> Seq<Seq<char>> {
    let kws = parsed_keywords_of(raw_keywords);
    if kws.len() == 0 && trim(keyword).len() > 0 {
        seq![keyword]
    } else {
        kws
    }
}

/// The question of "<keyword>是什么？".
pub fn default_question(keyword: &str) -> (r: String)
    ensures
        r@ == keyword@ + "是什么？"@,
{
    let mut s = String::from_str(keyword);
    s.append("是什么？");
    s
}

/// The effective question of a keyword and a stored question.
pub fn effective_question_text(keyword: &str, question: &str) -> (r: String)
    ensures
        r@ == effective_question_of(keyword@, question@),
{
    let q = trimmed_chars_of(question);
    if q.len() > 0 {
        string_from_chars(q.as_slice())
    } else {
        default_question(keyword)
    }
}

/// The effective keywords of a main keyword and a stored keyword column.
pub fn effective_keywords_text(keyword: &str, raw_keywords: &str) -> (r: Vec<String>)
    ensures
        r.deep_view() == effective_keywords_of(keyword@, raw_keywords@),
{
    let mut kws = parse_keywords_json(raw_keywords);
    if kws.len() == 0 && trimmed_chars_of(keyword).len() > 0 {
        kws.push(String::from_str(keyword));
        assert(kws.deep_view() =~= seq![keyword@]);
    }
    kws
}

impl Card {
    /// The keywords held by the stored JSON column; a failure to parse gives none.
    pub fn parsed_keywords(&self) -> (r: Vec<String>)
        ensures
            r.deep_view() == parsed_keywords_of(self.keywords@),
    {
        parse_keywords_json(self.keywords.as_str())
    }

    /// The question, or "<keyword>是什么？" for older cards without one.
    pub fn effective_question(&self) -> (r: String)
        ensures
            r@ == effective_question_of(self.keyword@, self.question@),
    {
        effective_question_text(self.keyword.as_str(), self.question.as_str())
    }

    /// The keywords, or the main keyword alone for older cards without them.
    pub fn effective_keywords(&self) -> (r: Vec<String>)
        ensures
            r.deep_view() == effective_keywords_of(self.keyword@, self.keywords@),
    {
        effective_keywords_text(self.keyword.as_str(), self.keywords.as_str())
    }
}

/// The question of a card is never empty, and the fallback question ends with a question mark.
pub proof fn law_effective_question_nonempty(keyword: Seq<char>, question: Seq<char>)
    ensures
        effective_question_of(keyword, question).len() > 0,
        trim(question).len() == 0 ==> effective_question_of(keyword, question).last() == '？',
{
    reveal_strlit("是什么？");
}

/// A card with a non-blank main keyword always shows at least one keyword.
pub proof fn law_effective_keywords_nonempty(keyword: Seq<char>, raw: Seq<char>)
    requires
        trim(keyword).len() > 0,
    ensures
        effective_keywords_of(keyword, raw).len() > 0,
{
}

} // verus!

verus! {

/// A generation request as stored.
#[derive(Debug, Clone, PartialEq, Eq)]
pub struct GenerationBatch {
    pub id: String,
    pub source_type: String,
    pub source_text: String,
    pub selected_keyword: Option<String>,
    pub context_title: Option<String>,
    pub created_at: Timestamp,
}

/// A generation request about to be stored.
#[derive(Debug, Clone, PartialEq, Eq)]
pub struct NewGenerationBatch {
    pub id: String,
    pub source_type: String,
    pub source_text: String,
    pub selected_keyword: Option<String>,
    pub context_title: Option<String>,
}

/// A card about to be stored; `keywords` is serialised to JSON when stored.
#[derive(Debug, Clone, PartialEq, Eq)]
pub struct NewCard {
    pub id: String,
    pub batch_id: Option<String>,
    /// The main keyword, normally `keywords[0]`.
    pub keyword: String,
    /// The full question text.
    pub question: String,
    pub keywords: Vec<String>,
    pub definition: String,
    pub explanation: String,
    pub source_excerpt: Option<String>,
    pub status: String,
    pub next_review_at: Option<Timestamp>,
}

/// Which cards of a batch were accepted and which rejected.
#[derive(Debug, Clone, PartialEq, Eq)]
pub struct UpdateCardStatus {
    pub accepted_ids: Vec<String>,
    pub rejected_ids: Vec<String>,
}

/// A card as shown during generation and in the library.
///
/// `related_terms`, `scenarios` and `review_history` are not stored; they are only
/// filled right after generation and are empty for cards read back.
#[derive(Debug, Clone, PartialEq, Eq)]
pub struct GeneratedCard {
    pub card_id: String,
    pub keyword: String,
    pub question: String,
    pub keywords: Vec<String>,
    pub definition: String,
    pub explanation: String,
    pub related_terms: Vec<String>,
    pub scenarios: Vec<String>,
    pub source_excerpt: Option<String>,
    pub status: String,
    pub created_at: Timestamp,
    pub review_history: Vec<String>,
    pub next_review_at: Option<Timestamp>,
    pub batch_id: Option<String>,
}

/// The cards generated in one batch.
#[derive(Debug, Clone, PartialEq, Eq)]
pub struct GeneratedCardBatchResult {
    pub batch_id: String,
    pub cards: Vec<GeneratedCard>,
}

/// How the cards of a batch stand after a review of the batch.
#[derive(Debug, Clone, PartialEq, Eq)]
pub struct ReviewedGeneratedCardsResult {
    pub batch_id: String,
    pub accepted_count: i64,
    pub rejected_count: i64,
    pub pending_count: i64,
}

/// One question listed under a keyword in the library.
#[derive(Debug, Clone, PartialEq, Eq)]
pub struct KeywordBucketQuestion {
    pub card_id: String,
    pub question: String,
    pub status: String,
    pub created_at: Timestamp,
}

/// A keyword of the library with the cards filed under it.
#[derive(Debug, Clone, PartialEq, Eq)]
pub struct KeywordBucket {
    pub keyword: String,
    pub question_count: i64,
    /// A few of the questions under this keyword, most recent first.
    pub sample_questions: Vec<KeywordBucketQuestion>,
    pub last_updated_at: Timestamp,
}

/// What a stored card shows: its effective question and keywords, and no related terms,
/// scenarios or review history.
pub open spec fn shown_card(c: Card, g: GeneratedCard) -> bool {
    &&& g.card_id == c.id
    &&& g.keyword == c.keyword
    &&& g.question@ == effective_question_of(c.keyword@, c.question@)
    &&& g.keywords.deep_view() == effective_keywords_of(c.keyword@, c.keywords@)
    &&& g.definition == c.definition
    &&& g.explanation == c.explanation
    &&& g.related_terms@.len() == 0
    &&& g.scenarios@.len() == 0
    &&& g.source_excerpt == c.source_excerpt
    &&& g.status == c.status
    &&& g.created_at == c.created_at
    &&& g.review_history@.len() == 0
    &&& g.next_review_at == c.next_review_at
    &&& g.batch_id == c.batch_id
}

impl GeneratedCard {
    /// The card as shown from its stored row.
    pub fn from(c: Card) -> (g: GeneratedCard)
        ensures
            shown_card(c, g),
    {
        let question = c.effective_question();
        let keywords = c.effective_keywords();
        GeneratedCard {
            card_id: c.id,
            keyword: c.keyword,
            question,
            keywords,
            definition: c.definition,
            explanation: c.explanation,
            related_terms: Vec::new(),
            scenarios: Vec::new(),
            source_excerpt: c.source_excerpt,
            status: c.status,
            created_at: c.created_at,
            review_history: Vec::new(),
            next_review_at: c.next_review_at,
            batch_id: c.batch_id,
        }
    }
}

} // verus!
