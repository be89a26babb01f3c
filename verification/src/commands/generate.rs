//! Generating cards: what is checked before asking the model, and what is stored and
//! shown from its reply; reviewing the generated cards of a batch.

use vstd::prelude::*;

use crate::ai::parser::{string_views, ParsedCard};
use crate::models::card::{
    shown_card, Card, GeneratedCard, GeneratedCardBatchResult, NewCard, NewGenerationBatch,
    ReviewedGeneratedCardsResult, UpdateCardStatus,
};
use crate::models::review::NewReviewSchedule;
use crate::text::{chars_of, str_eq, str_is_one_of, string_from_chars, trim, trimmed_chars_of};
use crate::time::{add_seconds, utc_secs_in_range, Timestamp, MAX_DELTA_SECS, SECONDS_PER_HOUR};
use crate::utils::error::AppError;

verus! {

/// A request to generate cards from a text.
#[derive(Debug, Clone, PartialEq, Eq)]
pub struct GenerateCardsInput {
    pub source_text: String,
    pub selected_keyword: Option<String>,
    pub context_title: Option<String>,
    pub source_type: String,
    pub model_profile_id: Option<String>,
}

/// The cards of a batch to accept and to reject.
#[derive(Debug, Clone, PartialEq, Eq)]
pub struct ReviewGeneratedCardsInput {
    pub batch_id: String,
    pub accept_card_ids: Vec<String>,
    pub reject_card_ids: Vec<String>,
}

/// The longest source text accepted, in characters.
pub const MAX_SOURCE_TEXT_LEN: usize = 5000;

/// Hours until a new card's first review (the first step of the review intervals).
pub const FIRST_REVIEW_DELAY_HOURS: i64 = 24;

/// The kinds of source a text can come from.
pub open spec fn is_known_source_type(t: Seq<char>) -> bool {
    t == "manual"@ || t == "selection"@ || t == "import"@
}

/// Checks a generation request: the trimmed text is not empty and has at most 5000
/// characters, and the source type is known.
pub fn validate_generate_input(input: &GenerateCardsInput) -> (r: Result<(), AppError>)
    ensures
        r is Ok <==> (trim(input.source_text@).len() > 0 && trim(input.source_text@).len() <= MAX_SOURCE_TEXT_LEN
            && is_known_source_type(input.source_type@)),
        r matches Err(e) ==> e matches AppError::Validation { message } && message@ == if trim(
            input.source_text@,
        ).len() == 0 {
            "sourceText 不能为空"@
        } else if trim(input.source_text@).len() > MAX_SOURCE_TEXT_LEN {
            "sourceText 超过 5000 字符"@
        } else {
            "sourceType 非法: "@ + input.source_type@
        },
{
    let text = trimmed_chars_of(input.source_text.as_str());
    if text.len() == 0 {
        return Err(AppError::Validation { message: String::from_str("sourceText 不能为空") });
    }
    if text.len() > MAX_SOURCE_TEXT_LEN {
        return Err(AppError::Validation { message: String::from_str("sourceText 超过 5000 字符") });
    }
    if str_is_one_of(input.source_type.as_str(), &["manual", "selection", "import"]) {
        Ok(())
    } else {
        let mut m = String::from_str("sourceType 非法: ");
        m.append(input.source_type.as_str());
        Err(AppError::Validation { message: m })
    }
}

/// Some card is both accepted and rejected.
pub open spec fn ids_overlap(accept: Seq<String>, reject: Seq<String>) -> bool {
    exists|i: int, j: int| 0 <= i < accept.len() && 0 <= j < reject.len() && (#[trigger] accept[i])@ == (#[trigger] reject[j])@
}

/// Whether `id` is among `ids`.
fn id_listed(ids: &Vec<String>, id: &str) -> (r: bool)
    ensures
        r == exists|j: int| 0 <= j < ids@.len() && (#[trigger] ids@[j])@ == id@,
{
    let mut j: usize = 0;
    while j < ids.len()
        invariant
            j <= ids@.len(),
            forall|k: int| 0 <= k < j ==> (#[trigger] ids@[k])@ != id@,
        decreases ids@.len() - j,
    {
        if str_eq(ids[j].as_str(), id) {
            return true;
        }
        j += 1;
    }
    false
}

/// Checks a review of generated cards: no card may be both accepted and rejected.
pub fn validate_review_input(input: &ReviewGeneratedCardsInput) -> (r: Result<(), AppError>)
    ensures
        r is Ok <==> !ids_overlap(input.accept_card_ids@, input.reject_card_ids@),
        r matches Err(e) ==> e matches AppError::InvalidReviewOperation { message } && message@
            == "acceptCardIds 与 rejectCardIds 不允许重复"@,
{
    let mut i: usize = 0;
    while i < input.accept_card_ids.len()
        invariant
            i <= input.accept_card_ids@.len(),
            forall|a: int, b: int|
                0 <= a < i && 0 <= b < input.reject_card_ids@.len() ==> (#[trigger] input.accept_card_ids@[a])@
                    != (#[trigger] input.reject_card_ids@[b])@,
        decreases input.accept_card_ids@.len() - i,
    {
        if id_listed(&input.reject_card_ids, input.accept_card_ids[i].as_str()) {
            return Err(
                AppError::InvalidReviewOperation { message: String::from_str("acceptCardIds 与 rejectCardIds 不允许重复") },
            );
        }
        i += 1;
    }
    Ok(())
}

/// The status changes a review of generated cards asks for.
pub fn status_update_of(input: &ReviewGeneratedCardsInput) -> (r: UpdateCardStatus)
    ensures
        r.accepted_ids@ == input.accept_card_ids@,
        r.rejected_ids@ == input.reject_card_ids@,
{
    UpdateCardStatus {
        accepted_ids: clone_strings(&input.accept_card_ids),
        rejected_ids: clone_strings(&input.reject_card_ids),
    }
}

/// A copy of some strings.
fn clone_strings(v: &Vec<String>) -> (r: Vec<String>)
    ensures
        r@ == v@,
{
    let mut r: Vec<String> = Vec::new();
    let mut i: usize = 0;
    while i < v.len()
        invariant
            i <= v@.len(),
            r@ == v@.take(i as int),
        decreases v@.len() - i,
    {
        r.push(v[i].clone());
        assert(r@ =~= v@.take(i + 1));
        i += 1;
    }
    assert(v@.take(i as int) =~= v@);
    r
}

/// A copy of an optional string.
fn clone_opt(o: &Option<String>) -> (r: Option<String>)
    ensures
        r == *o,
{
    match o {
        Some(s) => Some(s.clone()),
        None => None,
    }
}

// ---------------------------------------------------------------------------
// Storing a generated batch
// ---------------------------------------------------------------------------

/// When the cards generated at `now` are first due: 24 hours later.
pub fn first_due_at(now: Timestamp) -> (r: Timestamp)
    requires
        now.wf(),
        utc_secs_in_range(now.secs + FIRST_REVIEW_DELAY_HOURS * SECONDS_PER_HOUR),
    ensures
        r == now.plus_secs(FIRST_REVIEW_DELAY_HOURS * SECONDS_PER_HOUR),
        r.wf(),
{
    add_seconds(now, FIRST_REVIEW_DELAY_HOURS * SECONDS_PER_HOUR)
}

/// The batch stored for a generation request.
pub fn generation_batch_of(input: &GenerateCardsInput, batch_id: String) -> (r: NewGenerationBatch)
    ensures
        r.id == batch_id,
        r.source_type == input.source_type,
        r.source_text == input.source_text,
        r.selected_keyword == input.selected_keyword,
        r.context_title == input.context_title,
{
    NewGenerationBatch {
        id: batch_id,
        source_type: input.source_type.clone(),
        source_text: input.source_text.clone(),
        selected_keyword: clone_opt(&input.selected_keyword),
        context_title: clone_opt(&input.context_title),
    }
}

/// `n` is the card stored for the completed card `p`, with id `id`, in batch `batch_id`,
/// pending and due at `due`.
pub open spec fn is_new_card_of(p: ParsedCard, id: String, batch_id: String, due: Timestamp, n: NewCard) -> bool {
    &&& n.id == id
    &&& n.batch_id == Some(batch_id)
    &&& n.keyword == p.keyword
    &&& n.question == p.question
    &&& n.keywords@ == p.keywords@
    &&& n.definition == p.definition
    &&& n.explanation == p.explanation
    &&& n.source_excerpt == p.source_excerpt
    &&& n.status@ == "pending"@
    &&& n.next_review_at == Some(due)
}

/// The cards to store for the completed cards of a reply, each with its fresh id.
pub fn new_cards_of(parsed: &Vec<ParsedCard>, batch_id: &String, card_ids: Vec<String>, due: Timestamp) -> (r: Vec<NewCard>)
    requires
        card_ids@.len() == parsed@.len(),
    ensures
        r@.len() == parsed@.len(),
        forall|i: int| 0 <= i < parsed@.len() ==> is_new_card_of(#[trigger] parsed@[i], card_ids@[i], *batch_id, due, r@[i]),
{
    let ghost ids = card_ids@;
    let mut rest = card_ids;
    let mut out: Vec<NewCard> = Vec::new();
    let mut i: usize = 0;
    while i < parsed.len()
        invariant
            i <= parsed@.len(),
            ids.len() == parsed@.len(),
            rest@ == ids.skip(i as int),
            out@.len() == i,
            forall|k: int| 0 <= k < i ==> is_new_card_of(#[trigger] parsed@[k], ids[k], *batch_id, due, out@[k]),
        decreases parsed@.len() - i,
    {
        let id = rest.remove(0);
        assert(id == ids[i as int]);
        assert(rest@ =~= ids.skip(i + 1));
        let p = &parsed[i];
        out.push(
            NewCard {
                id,
                batch_id: Some(batch_id.clone()),
                keyword: p.keyword.clone(),
                question: p.question.clone(),
                keywords: clone_strings(&p.keywords),
                definition: p.definition.clone(),
                explanation: p.explanation.clone(),
                source_excerpt: clone_opt(&p.source_excerpt),
                status: String::from_str("pending"),
                next_review_at: Some(due),
            },
        );
        i += 1;
    }
    out
}

/// The first review schedules of the stored cards, each with its fresh id: step 1,
/// pending, due at `due`.
pub fn initial_schedules(cards: &Vec<NewCard>, schedule_ids: Vec<String>, due: Timestamp) -> (r: Vec<NewReviewSchedule>)
    requires
        schedule_ids@.len() == cards@.len(),
    ensures
        r@.len() == cards@.len(),
        forall|i: int|
            0 <= i < cards@.len() ==> {
                &&& (#[trigger] r@[i]).id == schedule_ids@[i]
                &&& r@[i].card_id == cards@[i].id
                &&& r@[i].review_step == 1
                &&& r@[i].due_at == due
                &&& r@[i].status@ == "pending"@
            },
{
    let ghost ids = schedule_ids@;
    let mut rest = schedule_ids;
    let mut out: Vec<NewReviewSchedule> = Vec::new();
    let mut i: usize = 0;
    while i < cards.len()
        invariant
            i <= cards@.len(),
            ids.len() == cards@.len(),
            rest@ == ids.skip(i as int),
            out@.len() == i,
            forall|k: int|
                0 <= k < i ==> {
                    &&& (#[trigger] out@[k]).id == ids[k]
                    &&& out@[k].card_id == cards@[k].id
                    &&& out@[k].review_step == 1
                    &&& out@[k].due_at == due
                    &&& out@[k].status@ == "pending"@
                },
        decreases cards@.len() - i,
    {
        let id = rest.remove(0);
        assert(id == ids[i as int]);
        assert(rest@ =~= ids.skip(i + 1));
        out.push(
            NewReviewSchedule {
                id,
                card_id: cards[i].id.clone(),
                review_step: 1,
                due_at: due,
                status: String::from_str("pending"),
            },
        );
        i += 1;
    }
    out
}

/// `g` shows a card just generated: the stored card `n` with the related terms and
/// scenarios of the model's card `p`, created at `now`.
pub open spec fn is_fresh_card_of(n: NewCard, p: ParsedCard, now: Timestamp, g: GeneratedCard) -> bool {
    &&& g.card_id == n.id
    &&& g.keyword == n.keyword
    &&& g.question == n.question
    &&& g.keywords@ == n.keywords@
    &&& g.definition == n.definition
    &&& g.explanation == n.explanation
    &&& g.related_terms == p.related_terms
    &&& g.scenarios == p.scenarios
    &&& g.source_excerpt == n.source_excerpt
    &&& g.status == n.status
    &&& g.created_at == now
    &&& g.review_history@.len() == 0
    &&& g.next_review_at == n.next_review_at
    &&& g.batch_id == n.batch_id
}

/// The batch as shown right after generation.
pub fn generated_batch_of(batch_id: String, new_cards: Vec<NewCard>, parsed: Vec<ParsedCard>, now: Timestamp) -> (r: GeneratedCardBatchResult)
    requires
        new_cards@.len() == parsed@.len(),
    ensures
        r.batch_id == batch_id,
        r.cards@.len() == new_cards@.len(),
        forall|i: int| 0 <= i < new_cards@.len() ==> is_fresh_card_of(#[trigger] new_cards@[i], parsed@[i], now, r.cards@[i]),
{
    let ghost ns = new_cards@;
    let ghost ps = parsed@;
    let mut rest_n = new_cards;
    let mut rest_p = parsed;
    let mut out: Vec<GeneratedCard> = Vec::new();
    while rest_n.len() > 0
        invariant
            ns.len() == ps.len(),
            out@.len() <= ns.len(),
            rest_n@ == ns.skip(out@.len() as int),
            rest_p@ == ps.skip(out@.len() as int),
            forall|k: int| 0 <= k < out@.len() ==> is_fresh_card_of(#[trigger] ns[k], ps[k], now, out@[k]),
        decreases rest_n@.len(),
    {
        let ghost i = out@.len() as int;
        let n = rest_n.remove(0);
        let p = rest_p.remove(0);
        assert(n == ns[i] && p == ps[i]);
        assert(rest_n@ =~= ns.skip(i + 1));
        assert(rest_p@ =~= ps.skip(i + 1));
        out.push(
            GeneratedCard {
                card_id: n.id,
                keyword: n.keyword,
                question: n.question,
                keywords: n.keywords,
                definition: n.definition,
                explanation: n.explanation,
                related_terms: p.related_terms,
                scenarios: p.scenarios,
                source_excerpt: n.source_excerpt,
                status: n.status,
                created_at: now,
                review_history: Vec::new(),
                next_review_at: n.next_review_at,
                batch_id: n.batch_id,
            },
        );
    }
    GeneratedCardBatchResult { batch_id, cards: out }
}

// ---------------------------------------------------------------------------
// Reading a batch back
// ---------------------------------------------------------------------------

/// The batch as shown from its stored cards, in order.
pub fn stored_batch_of(batch_id: &str, cards: Vec<Card>) -> (r: GeneratedCardBatchResult)
    ensures
        r.batch_id@ == batch_id@,
        r.cards@.len() == cards@.len(),
        forall|i: int| 0 <= i < cards@.len() ==> shown_card(#[trigger] cards@[i], r.cards@[i]),
{
    let ghost all = cards@;
    let mut rest = cards;
    let mut out: Vec<GeneratedCard> = Vec::new();
    while rest.len() > 0
        invariant
            out@.len() <= all.len(),
            rest@ == all.skip(out@.len() as int),
            forall|k: int| 0 <= k < out@.len() ==> shown_card(#[trigger] all[k], out@[k]),
        decreases rest@.len(),
    {
        let ghost i = out@.len() as int;
        let c = rest.remove(0);
        assert(c == all[i]);
        assert(rest@ =~= all.skip(i + 1));
        out.push(GeneratedCard::from(c));
    }
    GeneratedCardBatchResult { batch_id: String::from_str(batch_id), cards: out }
}

/// The number of cards with the status `status`.
pub open spec fn count_with_status(cards: Seq<Card>, status: Seq<char>) -> int
    decreases cards.len(),
{
    if cards.len() == 0 {
        0
    } else {
        count_with_status(cards.drop_last(), status) + if cards.last().status@ == status {
            1int
        } else {
            0int
        }
    }
}

/// The number of cards neither accepted nor rejected.
pub open spec fn count_pending(cards: Seq<Card>) -> int
    decreases cards.len(),
{
    if cards.len() == 0 {
        0
    } else {
        count_pending(cards.drop_last()) + if cards.last().status@ != "accepted"@ && cards.last().status@
            != "rejected"@ {
            1int
        } else {
            0int
        }
    }
}

proof fn lemma_counts_bounded(cards: Seq<Card>)
    ensures
        0 <= count_with_status(cards, "accepted"@),
        0 <= count_with_status(cards, "rejected"@),
        0 <= count_pending(cards),
        count_with_status(cards, "accepted"@) + count_with_status(cards, "rejected"@) + count_pending(cards)
            == cards.len(),
    decreases cards.len(),
{
    reveal_strlit("accepted");
    reveal_strlit("rejected");
    assert("accepted"@[0] != "rejected"@[0]);
    if cards.len() > 0 {
        lemma_counts_bounded(cards.drop_last());
    }
}

/// How the cards of a batch stand: accepted, rejected, and the rest pending.
pub fn reviewed_result_of(batch_id: String, cards: &Vec<Card>) -> (r: ReviewedGeneratedCardsResult)
    requires
        cards@.len() <= i64::MAX,
    ensures
        r.batch_id == batch_id,
        r.accepted_count == count_with_status(cards@, "accepted"@),
        r.rejected_count == count_with_status(cards@, "rejected"@),
        r.pending_count == count_pending(cards@),
        r.accepted_count + r.rejected_count + r.pending_count == cards@.len(),
{
    let mut accepted: i64 = 0;
    let mut rejected: i64 = 0;
    let mut pending: i64 = 0;
    let mut i: usize = 0;
    while i < cards.len()
        invariant
            i <= cards@.len(),
            cards@.len() <= i64::MAX,
            accepted == count_with_status(cards@.take(i as int), "accepted"@),
            rejected == count_with_status(cards@.take(i as int), "rejected"@),
            pending == count_pending(cards@.take(i as int)),
        decreases cards@.len() - i,
    {
        proof {
            lemma_counts_bounded(cards@.take(i as int));
            assert(cards@.take(i + 1).drop_last() =~= cards@.take(i as int));
            reveal_strlit("accepted");
            reveal_strlit("rejected");
            assert("accepted"@[0] != "rejected"@[0]);
        }
        if str_eq(cards[i].status.as_str(), "accepted") {
            accepted += 1;
        } else if str_eq(cards[i].status.as_str(), "rejected") {
            rejected += 1;
        } else {
            pending += 1;
        }
        i += 1;
    }
    assert(cards@.take(i as int) =~= cards@);
    proof {
        lemma_counts_bounded(cards@);
    }
    ReviewedGeneratedCardsResult { batch_id, accepted_count: accepted, rejected_count: rejected, pending_count: pending }
}

/// A new card's first review falls due one first review interval after it is generated,
/// as the forgetting-curve schedule starts every card.
pub proof fn law_first_due_is_first_interval(now: Timestamp)
    ensures
        now.plus_secs(FIRST_REVIEW_DELAY_HOURS * SECONDS_PER_HOUR) == now.plus_secs(
            crate::scheduler::rules::interval_days(1) * crate::time::SECONDS_PER_DAY,
        ),
{
}

} // verus!
