//! Cards of the first generation: one keyword, no stored question.

use vstd::prelude::*;

use crate::time::Timestamp;

verus! {

/// A stored card.
#[derive(Debug, Clone, PartialEq, Eq)]
pub struct Card {
    pub id: String,
    pub batch_id: Option<String>,
    pub keyword: String,
    pub definition: String,
    pub explanation: String,
    pub source_excerpt: Option<String>,
    pub status: String,
    pub created_at: Timestamp,
    pub updated_at: Timestamp,
    pub next_review_at: Option<Timestamp>,
}

/// A stored generation request.
#[derive(Debug, Clone, PartialEq, Eq)]
pub struct GenerationBatch {
    pub id: String,
    pub source_type: String,
    pub source_text: String,
    pub selected_keyword: Option<String>,
    pub context_title: Option<String>,
    pub created_at: Timestamp,
}

/// A generation request about to be stored.
#[derive(Debug, Clone, PartialEq, Eq)]
pub struct NewGenerationBatch {
    pub id: String,
    pub source_type: String,
    pub source_text: String,
    pub selected_keyword: Option<String>,
    pub context_title: Option<String>,
}

/// A card about to be stored.
#[derive(Debug, Clone, PartialEq, Eq)]
pub struct NewCard {
    pub id: String,
    pub batch_id: Option<String>,
    pub keyword: String,
    pub definition: String,
    pub explanation: String,
    pub source_excerpt: Option<String>,
    pub status: String,
    pub next_review_at: Option<Timestamp>,
}

/// Which cards of a batch were accepted and which rejected.
#[derive(Debug, Clone, PartialEq, Eq)]
pub struct UpdateCardStatus {
    pub accepted_ids: Vec<String>,
    pub rejected_ids: Vec<String>,
}

/// A card as shown; related terms, scenarios and review history are only filled right
/// after generation.
#[derive(Debug, Clone, PartialEq, Eq)]
pub struct GeneratedCard {
    pub card_id: String,
    pub keyword: String,
    pub definition: String,
    pub explanation: String,
    pub related_terms: Vec<String>,
    pub scenarios: Vec<String>,
    pub source_excerpt: Option<String>,
    pub status: String,
    pub created_at: Timestamp,
    pub review_history: Vec<String>,
    pub next_review_at: Option<Timestamp>,
}

/// The cards generated in one batch.
#[derive(Debug, Clone, PartialEq, Eq)]
pub struct GeneratedCardBatchResult {
    pub batch_id: String,
    pub cards: Vec<GeneratedCard>,
}

/// How the cards of a batch stand after a review of the batch.
#[derive(Debug, Clone, PartialEq, Eq)]
pub struct ReviewedGeneratedCardsResult {
    pub batch_id: String,
    pub accepted_count: i64,
    pub rejected_count: i64,
    pub pending_count: i64,
}

impl GeneratedCard {
    /// A stored card as shown: its fields, with no related terms, scenarios or history.
    pub fn from(c: Card) -> (g: GeneratedCard)
        ensures
            g.card_id == c.id,
            g.keyword == c.keyword,
            g.definition == c.definition,
            g.explanation == c.explanation,
            g.related_terms@.len() == 0,
            g.scenarios@.len() == 0,
            g.source_excerpt == c.source_excerpt,
            g.status == c.status,
            g.created_at == c.created_at,
            g.review_history@.len() == 0,
            g.next_review_at == c.next_review_at,
    {
        GeneratedCard {
            card_id: c.id,
            keyword: c.keyword,
            definition: c.definition,
            explanation: c.explanation,
            related_terms: Vec::new(),
            scenarios: Vec::new(),
            source_excerpt: c.source_excerpt,
            status: c.status,
            created_at: c.created_at,
            review_history: Vec::new(),
            next_review_at: c.next_review_at,
        }
    }
}

} // verus!
