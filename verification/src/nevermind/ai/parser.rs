//! Reading the cards of the first reply form: every card must carry a keyword and a
//! definition.

use vstd::prelude::*;

use crate::text::{chars_of, decimal, push_decimal, string_from_chars, trim, trimmed_chars_of};
use crate::utils::error::AppError;

verus! {

pub use crate::ai::parser::extract_json_body;

/// One card as the model returned it in the first reply form.
#[derive(Debug, Clone, PartialEq, Eq)]
pub struct ParsedCard {
    pub keyword: String,
    pub definition: String,
    pub explanation: String,
    pub related_terms: Vec<String>,
    pub scenarios: Vec<String>,
    pub source_excerpt: Option<String>,
}

/// The card has a keyword and a definition.
pub open spec fn card_complete(c: ParsedCard) -> bool {
    trim(c.keyword@).len() > 0 && trim(c.definition@).len() > 0
}

/// The message for the incomplete card at (zero-based) position `i`.
pub open spec fn incomplete_card_message(i: int) -> Seq<char> {
    "第 "@ + decimal((i + 1) as nat) + " 张卡片缺少 keyword 或 definition"@
}

/// Checks the cards decoded from a reply: there is at least one, and each has a keyword
/// and a definition. The first incomplete card is named; the cards are returned as they
/// are.
pub fn check_parsed_cards(cards: Vec<ParsedCard>) -> (r: Result<Vec<ParsedCard>, AppError>)
    ensures
        r is Ok <==> cards@.len() > 0 && forall|i: int| 0 <= i < cards@.len() ==> card_complete(#[trigger] cards@[i]),
        r matches Ok(out) ==> out == cards,
        r matches Err(e) ==> e matches AppError::AiResponseInvalid { message } && ((cards@.len() == 0 && message@
            == "模型未返回任何卡片"@) || exists|i: int|
            0 <= i < cards@.len() && !card_complete(#[trigger] cards@[i]) && (forall|j: int|
                0 <= j < i ==> card_complete(#[trigger] cards@[j])) && message@ == incomplete_card_message(i)),
{
    if cards.len() == 0 {
        return Err(AppError::AiResponseInvalid { message: String::from_str("模型未返回任何卡片") });
    }
    let mut i: usize = 0;
    while i < cards.len()
        invariant
            i <= cards@.len(),
            forall|j: int| 0 <= j < i ==> card_complete(#[trigger] cards@[j]),
        decreases cards@.len() - i,
    {
        if trimmed_chars_of(cards[i].keyword.as_str()).len() == 0 || trimmed_chars_of(cards[i].definition.as_str()).len()
            == 0 {
            let mut v = chars_of("第 ");
            push_decimal((i + 1) as u64, &mut v);
            let w = chars_of(" 张卡片缺少 keyword 或 definition");
            let ghost base = v@;
            let mut k: usize = 0;
            while k < w.len()
                invariant
                    k <= w@.len(),
                    v@ == base + w@.take(k as int),
                decreases w@.len() - k,
            {
                v.push(w[k]);
                assert(w@.take(k + 1) =~= w@.take(k as int).push(w@[k as int]));
                k += 1;
            }
            assert(w@.take(k as int) =~= w@);
            assert(!card_complete(cards@[i as int]));
            return Err(AppError::AiResponseInvalid { message: string_from_chars(v.as_slice()) });
        }
        i += 1;
    }
    Ok(cards)
}

} // verus!
