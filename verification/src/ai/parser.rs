//! Reading the cards out of the model's reply.
//!
//! The reply is JSON, possibly wrapped in a Markdown code fence. The fence is removed
//! here; the JSON text is decoded into `ParsedCard`s by the caller, and the cards are
//! then checked and completed here: keywords cleaned up, the main keyword filled in, and
//! the question rewritten to "<keyword>是什么？" unless it already reads as a question.

use vstd::prelude::*;

use crate::text::{
    chars_of, decimal, ends_with_chars, has_prefix, has_suffix,
    literals, lowercase, lowercase_chars, push_decimal, starts_with_chars, string_from_chars,
    strings_contain, strip_end, strip_start, trim, is_ws, trim_chars, trim_start_chars, trimmed_chars_of, ws,
};
use crate::utils::error::AppError;

verus! {

// ---------------------------------------------------------------------------
// Code fences
// ---------------------------------------------------------------------------

/// `t` without a leading "```json" or "```" fence and the white space after it.
pub open spec fn without_opening_fence(t: Seq<char>) -> Seq<char> {
    if has_prefix(t, "```json"@) {
        strip_start(t.skip(7), ws())
    } else if has_prefix(t, "```"@) {
        strip_start(t.skip(3), ws())
    } else {
        t
    }
}

/// The JSON text inside a reply: trimmed, without an opening fence ("```json" or "```")
/// or a closing one ("```"), and trimmed again.
pub open spec fn json_body(raw: Seq<char>) -> Seq<char> {
    let s = without_opening_fence(trim(raw));
    let u = if has_suffix(s, "```"@) {
        s.take(s.len() - 3)
    } else {
        s
    };
    trim(u)
}

/// A trimmed sequence with something in it starts and ends with characters that are not
/// white space.
proof fn lemma_trimmed_ends(s: Seq<char>)
    requires
        trim(s) == s,
        s.len() > 0,
    ensures
        !is_ws(s[0]),
        !is_ws(s.last()),
{
    let a = strip_start(s, ws());
    crate::text::lemma_strip_start_stops(s, ws());
    crate::text::lemma_strip_end_stops(a, ws());
    if a.len() > 0 {
        assert(strip_end(a, ws())[0] == a[0]);
    }
}

/// What is left of `"\n" + s + "\n```"` once its leading white space is gone, for a
/// trimmed `s`: `s` followed by the closing fence line.
proof fn lemma_open_fence_rest(s: Seq<char>)
    requires
        trim(s) == s,
        s.len() > 0,
    ensures
        strip_start("\n"@ + s + "\n```"@, ws()) == s + "\n```"@,
{
    reveal_strlit("\n");
    reveal_strlit("\n```");
    let x = "\n"@ + s + "\n```"@;
    assert(is_ws(x[0]));
    crate::text::lemma_strip_start_skip(x, ws(), 1);
    let y = s + "\n```"@;
    assert(x.subrange(1, x.len() as int) =~= y);
    lemma_trimmed_ends(s);
    assert(y[0] == s[0]);
}

/// `s` with a line break after it trims back to `s`, for a trimmed `s`.
proof fn lemma_trim_line_break(s: Seq<char>)
    requires
        trim(s) == s,
    ensures
        trim(s + "\n"@) == s,
{
    reveal_strlit("\n");
    let y = s + "\n"@;
    if s.len() > 0 {
        lemma_trimmed_ends(s);
        assert(y[0] == s[0]);
        assert(strip_start(y, ws()) == y);
        crate::text::lemma_strip_end_skip(y, ws(), s.len() as int);
        assert(y.subrange(0, s.len() as int) =~= s);
        crate::text::lemma_strip_fixed(s, ws());
        assert(strip_end(s, ws()) == s);
    } else {
        assert(y =~= seq!['\n']);
        assert(strip_start(y, ws()) == strip_start(y.drop_first(), ws()));
        assert(y.drop_first() =~= Seq::<char>::empty());
    }
}

/// The JSON body of a reply does not depend on a Markdown fence around it: a trimmed text
/// that neither starts nor ends with a fence is its own body, and so is the same text
/// wrapped in a "```json" or a plain "```" fence on lines of their own.
pub proof fn law_fenced_body_is_plain_body(s: Seq<char>)
    requires
        trim(s) == s,
        !has_prefix(s, "```"@),
        !has_suffix(s, "```"@),
    ensures
        json_body(s) == s,
        json_body("```json\n"@ + s + "\n```"@) == s,
        json_body("```\n"@ + s + "\n```"@) == s,
{
    reveal_strlit("```json");
    reveal_strlit("```");
    reveal_strlit("```json\n");
    reveal_strlit("```\n");
    reveal_strlit("\n```");
    reveal_strlit("\n");
    // The plain text.
    if has_prefix(s, "```json"@) {
        assert(s.subrange(0, 3) =~= s.subrange(0, 7).subrange(0, 3));
        assert("```json"@.subrange(0, 3) =~= "```"@);
        assert(has_prefix(s, "```"@));
    }
    assert(without_opening_fence(s) == s);
    // Both fenced forms: past the opening fence line, what is left is the text and the
    // closing fence line (or the closing fence alone, for an empty text).
    let rest = if s.len() > 0 {
        s + "\n```"@
    } else {
        "```"@
    };
    if s.len() > 0 {
        lemma_open_fence_rest(s);
        assert(rest.take(rest.len() - 3) =~= s + "\n"@);
        lemma_trim_line_break(s);
    } else {
        let x = "\n"@ + s + "\n```"@;
        assert(x =~= seq!['\n', '\n', '`', '`', '`']);
        crate::text::lemma_strip_start_skip(x, ws(), 2);
        assert(x.subrange(2, 5) =~= "```"@);
        assert(rest.take(0) =~= Seq::<char>::empty());
        assert(trim(Seq::<char>::empty()) == Seq::<char>::empty());
    }
    assert(strip_start("\n"@ + s + "\n```"@, ws()) == rest);
    assert(has_suffix(rest, "```"@)) by {
        assert(rest.subrange(rest.len() - 3, rest.len() as int) =~= "```"@);
    }
    let a = "```json\n"@ + s + "\n```"@;
    crate::text::lemma_strip_fixed(a, ws());
    assert(has_prefix(a, "```json"@)) by {
        assert(a.subrange(0, 7) =~= "```json"@);
    }
    assert(a.skip(7) =~= "\n"@ + s + "\n```"@);
    let b = "```\n"@ + s + "\n```"@;
    crate::text::lemma_strip_fixed(b, ws());
    assert(!has_prefix(b, "```json"@)) by {
        if has_prefix(b, "```json"@) {
            assert(b.subrange(0, 7)[3] == b[3]);
        }
    }
    assert(has_prefix(b, "```"@)) by {
        assert(b.subrange(0, 3) =~= "```"@);
    }
    assert(b.skip(3) =~= "\n"@ + s + "\n```"@);
}

/// Removes a Markdown code fence around the JSON of a reply.
pub fn extract_json_body(raw: &str) -> (r: String)
    ensures
        r@ == json_body(raw@),
{
    proof {
        reveal_strlit("```json");
        reveal_strlit("```");
    }
    let t = trimmed_chars_of(raw);
    let fence_json = chars_of("```json");
    let fence = chars_of("```");
    let s = if starts_with_chars(t.as_slice(), fence_json.as_slice()) {
        let rest = crate::text::copy_range(t.as_slice(), 7, t.len());
        assert(rest@ == t@.skip(7));
        trim_start_chars(rest.as_slice())
    } else if starts_with_chars(t.as_slice(), fence.as_slice()) {
        let rest = crate::text::copy_range(t.as_slice(), 3, t.len());
        assert(rest@ == t@.skip(3));
        trim_start_chars(rest.as_slice())
    } else {
        t
    };
    let u = if ends_with_chars(s.as_slice(), fence.as_slice()) {
        crate::text::copy_range(s.as_slice(), 0, s.len() - 3)
    } else {
        s
    };
    let body = trim_chars(u.as_slice());
    string_from_chars(body.as_slice())
}

// ---------------------------------------------------------------------------
// Keywords
// ---------------------------------------------------------------------------

/// The keywords trimmed, without blank ones, and each kept only where it first occurs.
pub open spec fn normalized_keywords(raw: Seq<Seq<char>>) -> Seq<Seq<char>>
    decreases raw.len(),
{
    if raw.len() == 0 {
        Seq::empty()
    } else {
        let out = normalized_keywords(raw.drop_last());
        let t = trim(raw.last());
        if t.len() == 0 || out.contains(t) {
            out
        } else {
            out.push(t)
        }
    }
}

/// Trims the keywords, drops blank ones and keeps the first of each repeated one.
pub fn normalize_keywords(raw: &[String]) -> (r: Vec<String>)
    ensures
        r.deep_view() == normalized_keywords(raw@.map_values(|s: String| s@)),
{
    let ghost rv = raw@.map_values(|s: String| s@);
    let mut out: Vec<String> = Vec::new();
    let mut i: usize = 0;
    assert(out.deep_view() =~= normalized_keywords(rv.take(0)));
    while i < raw.len()
        invariant
            i <= raw@.len(),
            rv == raw@.map_values(|s: String| s@),
            out.deep_view() == normalized_keywords(rv.take(i as int)),
        decreases raw@.len() - i,
    {
        let t = trimmed_chars_of(raw[i].as_str());
        assert(rv.take(i + 1).drop_last() =~= rv.take(i as int));
        assert(rv.take(i + 1).last() == raw@[i as int]@);
        if t.len() > 0 && !strings_contain(&out, t.as_slice()) {
            let ghost before = out.deep_view();
            out.push(string_from_chars(t.as_slice()));
            assert(out.deep_view() =~= before.push(t@));
        }
        i += 1;
    }
    assert(rv.take(i as int) =~= rv);
    out
}

/// The keywords are clean: each trimmed and not blank, and none repeated.
pub open spec fn clean_keywords(ks: Seq<Seq<char>>) -> bool {
    &&& forall|i: int| 0 <= i < ks.len() ==> (#[trigger] ks[i]).len() > 0 && trim(ks[i]) == ks[i]
    &&& forall|i: int, j: int| 0 <= i < j < ks.len() ==> #[trigger] ks[i] != #[trigger] ks[j]
}

/// Normalised keywords are clean; each is the trimmed form of some given keyword, and
/// every given keyword that is not blank appears, trimmed, among them.
pub proof fn law_normalized_keywords_clean(raw: Seq<Seq<char>>)
    ensures
        clean_keywords(normalized_keywords(raw)),
        forall|i: int|
            0 <= i < normalized_keywords(raw).len() ==> exists|j: int|
                0 <= j < raw.len() && trim(raw[j]) == #[trigger] normalized_keywords(raw)[i],
        forall|j: int|
            0 <= j < raw.len() && trim(#[trigger] raw[j]).len() > 0 ==> normalized_keywords(raw).contains(
                trim(raw[j]),
            ),
    decreases raw.len(),
{
    if raw.len() > 0 {
        let p = raw.drop_last();
        law_normalized_keywords_clean(p);
        let out = normalized_keywords(p);
        let t = trim(raw.last());
        crate::text::lemma_strip_idempotent(raw.last(), ws());
        let r = normalized_keywords(raw);
        assert forall|i: int| 0 <= i < r.len() implies exists|j: int|
            0 <= j < raw.len() && trim(raw[j]) == #[trigger] r[i] by {
            if i < out.len() {
                assert(r[i] == out[i]);
                let j = choose|j: int| 0 <= j < p.len() && trim(p[j]) == #[trigger] out[i];
                assert(raw[j] == p[j]);
            } else {
                assert(trim(raw[raw.len() - 1]) == r[i]);
            }
        }
        assert forall|j: int| 0 <= j < raw.len() && trim(#[trigger] raw[j]).len() > 0 implies r.contains(
            trim(raw[j]),
        ) by {
            if j < p.len() {
                assert(raw[j] == p[j]);
                assert(out.contains(trim(p[j])));
                let k = choose|k: int| 0 <= k < out.len() && out[k] == trim(p[j]);
                assert(r[k] == out[k]);
            } else {
                if !out.contains(t) {
                    assert(r[r.len() - 1] == t);
                }
            }
        }
    }
}

/// A clean list of keywords normalises to itself.
proof fn lemma_clean_keywords_fixed(ks: Seq<Seq<char>>)
    requires
        clean_keywords(ks),
    ensures
        normalized_keywords(ks) == ks,
    decreases ks.len(),
{
    if ks.len() > 0 {
        let p = ks.drop_last();
        assert(clean_keywords(p)) by {
            assert forall|i: int| 0 <= i < p.len() implies (#[trigger] p[i]).len() > 0 && trim(p[i]) == p[i] by {
                assert(p[i] == ks[i]);
            }
            assert forall|i: int, j: int| 0 <= i < j < p.len() implies #[trigger] p[i] != #[trigger] p[j] by {
                assert(p[i] == ks[i] && p[j] == ks[j]);
            }
        }
        lemma_clean_keywords_fixed(p);
        let last = ks.last();
        assert(trim(last) == last && last.len() > 0) by {
            assert(ks[ks.len() - 1] == last);
        }
        assert(!p.contains(last)) by {
            if p.contains(last) {
                let k = choose|k: int| 0 <= k < p.len() && p[k] == last;
                assert(ks[k] != ks[ks.len() - 1]);
            }
        }
        assert(p.push(last) =~= ks);
    }
}

/// Normalising keywords twice gives what normalising them once gives.
pub proof fn law_normalize_keywords_idempotent(raw: Seq<Seq<char>>)
    ensures
        normalized_keywords(normalized_keywords(raw)) == normalized_keywords(raw),
{
    law_normalized_keywords_clean(raw);
    lemma_clean_keywords_fixed(normalized_keywords(raw));
}

// ---------------------------------------------------------------------------
// Questions
// ---------------------------------------------------------------------------

/// Chinese words that mark a question when the text starts or ends with one of them.
pub open spec fn zh_question_markers() -> Seq<Seq<char>> {
    seq![
        "什么"@,
        "为什么"@,
        "怎么"@,
        "怎样"@,
        "如何"@,
        "哪"@,
        "是否"@,
        "能否"@,
        "吗"@,
        "区别"@,
    ]
}

/// English words that mark a question at the start of the text (in lower case).
pub open spec fn en_question_markers() -> Seq<Seq<char>> {
    seq![
        "what "@,
        "why "@,
        "how "@,
        "when "@,
        "where "@,
        "which "@,
        "who "@,
        "whose "@,
        "can "@,
        "could "@,
        "should "@,
        "would "@,
        "is "@,
        "are "@,
        "does "@,
        "do "@,
    ]
}

/// Whether a text reads as a question: once trimmed it is not empty, and it ends with a
/// question mark (full-width or not), starts or ends with one of the Chinese question
/// words, or starts, in lower case, with one of the English ones.
pub open spec fn is_question_text(text: Seq<char>) -> bool {
    let t = trim(text);
    &&& t.len() > 0
    &&& {
        ||| t.last() == '？'
        ||| t.last() == '?'
        ||| exists|i: int|
            0 <= i < zh_question_markers().len() && (has_prefix(t, #[trigger] zh_question_markers()[i])
                || has_suffix(t, zh_question_markers()[i]))
        ||| exists|i: int|
            0 <= i < en_question_markers().len() && has_prefix(lowercase(t), #[trigger] en_question_markers()[i])
    }
}

/// Whether `s` starts or ends with one of the patterns.
fn starts_or_ends_with_any(s: &[char], ps: &Vec<Vec<char>>) -> (r: bool)
    ensures
        r == exists|i: int|
            0 <= i < ps@.len() && (has_prefix(s@, #[trigger] ps.deep_view()[i]) || has_suffix(s@, ps.deep_view()[i])),
{
    let mut i: usize = 0;
    while i < ps.len()
        invariant
            i <= ps@.len(),
            forall|k: int|
                0 <= k < i ==> !has_prefix(s@, #[trigger] ps.deep_view()[k]) && !has_suffix(s@, ps.deep_view()[k]),
        decreases ps@.len() - i,
    {
        proof {
            crate::text::lemma_chars_deep_view(ps@[i as int]);
        }
        if starts_with_chars(s, ps[i].as_slice()) || ends_with_chars(s, ps[i].as_slice()) {
            assert(has_prefix(s@, ps.deep_view()[i as int]) || has_suffix(s@, ps.deep_view()[i as int]));
            return true;
        }
        i += 1;
    }
    false
}

/// Whether `s` starts with one of the patterns.
fn starts_with_any(s: &[char], ps: &Vec<Vec<char>>) -> (r: bool)
    ensures
        r == exists|i: int| 0 <= i < ps@.len() && has_prefix(s@, #[trigger] ps.deep_view()[i]),
{
    let mut i: usize = 0;
    while i < ps.len()
        invariant
            i <= ps@.len(),
            forall|k: int| 0 <= k < i ==> !has_prefix(s@, #[trigger] ps.deep_view()[k]),
        decreases ps@.len() - i,
    {
        proof {
            crate::text::lemma_chars_deep_view(ps@[i as int]);
        }
        if starts_with_chars(s, ps[i].as_slice()) {
            assert(has_prefix(s@, ps.deep_view()[i as int]));
            return true;
        }
        i += 1;
    }
    false
}

/// Roughly whether a text is already a question.
pub fn looks_like_question(text: &str) -> (r: bool)
    ensures
        r == is_question_text(text@),
{
    let t = trimmed_chars_of(text);
    if t.len() == 0 {
        return false;
    }
    let last = t[t.len() - 1];
    if last == '？' || last == '?' {
        return true;
    }
    let zh = literals(&["什么", "为什么", "怎么", "怎样", "如何", "哪", "是否", "能否", "吗", "区别"]);
    assert(zh.deep_view() =~= zh_question_markers());
    if starts_or_ends_with_any(t.as_slice(), &zh) {
        return true;
    }
    let en = literals(
        &[
            "what ",
            "why ",
            "how ",
            "when ",
            "where ",
            "which ",
            "who ",
            "whose ",
            "can ",
            "could ",
            "should ",
            "would ",
            "is ",
            "are ",
            "does ",
            "do ",
        ],
    );
    assert(en.deep_view() =~= en_question_markers());
    let lower = lowercase_chars(t.as_slice());
    starts_with_any(lower.as_slice(), &en)
}

// ---------------------------------------------------------------------------
// Cards
// ---------------------------------------------------------------------------

/// One card as the model returned it.
///
/// A reply in the current form gives `question` and `keywords`; a reply in the older form
/// gives only `keyword`, `definition` and `explanation`, and the missing fields are then
/// empty. `keyword` is the main keyword, normally the first of `keywords`.
#[derive(Debug, Clone, PartialEq, Eq)]
pub struct ParsedCard {
    pub question: String,
    pub keywords: Vec<String>,
    pub keyword: String,
    pub definition: String,
    pub explanation: String,
    pub related_terms: Vec<String>,
    pub scenarios: Vec<String>,
    pub source_excerpt: Option<String>,
}

/// The views of some strings.
pub open spec fn string_views(v: Seq<String>) -> Seq<Seq<char>> {
    v.map_values(|s: String| s@)
}

/// The main keyword of a card once completed: the given one, or else the first of its
/// normalised keywords.
pub open spec fn completed_keyword(c: ParsedCard) -> Seq<char> {
    let kws = normalized_keywords(string_views(c.keywords@));
    if trim(c.keyword@).len() == 0 && kws.len() > 0 {
        kws[0]
    } else {
        c.keyword@
    }
}

/// The keywords of a card once completed: its normalised keywords, or its main keyword
/// alone when there are none.
pub open spec fn completed_keywords(c: ParsedCard) -> Seq<Seq<char>> {
    let kws = normalized_keywords(string_views(c.keywords@));
    if kws.len() == 0 {
        seq![completed_keyword(c)]
    } else {
        kws
    }
}

/// The question asked about a keyword when the model gave none.
pub open spec fn default_question_of(keyword: Seq<char>) -> Seq<char> {
    keyword + "是什么？"@
}

/// The question of a card once completed: the given one, trimmed, when it reads as a
/// question; otherwise "<keyword>是什么？".
pub open spec fn completed_question(c: ParsedCard) -> Seq<char> {
    let t = trim(c.question@);
    if t.len() == 0 || !is_question_text(t) {
        default_question_of(completed_keyword(c))
    } else {
        t
    }
}

/// The card lacks a definition.
pub open spec fn lacks_definition(c: ParsedCard) -> bool {
    trim(c.definition@).len() == 0
}

/// The card has neither a main keyword nor any keyword.
pub open spec fn lacks_keyword(c: ParsedCard) -> bool {
    trim(completed_keyword(c)).len() == 0
}

/// The card can be completed.
pub open spec fn card_acceptable(c: ParsedCard) -> bool {
    !lacks_definition(c) && !lacks_keyword(c)
}

/// `f` is the card `c` completed: the same definition, explanation, related terms,
/// scenarios and excerpt, with the main keyword, keywords and question filled in.
pub open spec fn is_completed_card(c: ParsedCard, f: ParsedCard) -> bool {
    &&& f.keyword@ == completed_keyword(c)
    &&& string_views(f.keywords@) == completed_keywords(c)
    &&& f.question@ == completed_question(c)
    &&& f.definition == c.definition
    &&& f.explanation == c.explanation
    &&& f.related_terms == c.related_terms
    &&& f.scenarios == c.scenarios
    &&& f.source_excerpt == c.source_excerpt
}

/// The message for a reply without cards.
pub open spec fn no_cards_message() -> Seq<char> {
    "模型未返回任何卡片"@
}

/// The message for the card at (zero-based) position `i` that cannot be completed.
pub open spec fn card_problem_message(i: int, c: ParsedCard) -> Seq<char> {
    if lacks_definition(c) {
        "第 "@ + decimal((i + 1) as nat) + " 张卡片缺少 definition"@
    } else {
        "第 "@ + decimal((i + 1) as nat) + " 张卡片缺少关键词（keyword/keywords 均为空）"@
    }
}

/// `i` is the first card that cannot be completed.
pub open spec fn first_unacceptable(cards: Seq<ParsedCard>, i: int) -> bool {
    &&& 0 <= i < cards.len()
    &&& !card_acceptable(cards[i])
    &&& forall|j: int| 0 <= j < i ==> card_acceptable(#[trigger] cards[j])
}

/// The message naming the card at zero-based position `i`.
fn card_message(i: usize, what: &str) -> (r: String)
    requires
        i < usize::MAX,
    ensures
        r@ == "第 "@ + decimal((i + 1) as nat) + what@,
{
    let mut v = chars_of("第 ");
    push_decimal((i + 1) as u64, &mut v);
    let w = chars_of(what);
    let mut k: usize = 0;
    let ghost base = v@;
    while k < w.len()
        invariant
            k <= w@.len(),
            v@ == base + w@.take(k as int),
        decreases w@.len() - k,
    {
        v.push(w[k]);
        assert(w@.take(k + 1) =~= w@.take(k as int).push(w@[k as int]));
        k += 1;
    }
    assert(w@.take(w@.len() as int) =~= w@);
    string_from_chars(v.as_slice())
}

/// Completes one card, or says why it cannot be completed.
fn complete_card(c: ParsedCard, i: usize) -> (r: Result<ParsedCard, AppError>)
    requires
        i < usize::MAX,
    ensures
        r is Ok <==> card_acceptable(c),
        r matches Ok(f) ==> is_completed_card(c, f),
        r matches Err(e) ==> e matches AppError::AiResponseInvalid { message } && message@
            == card_problem_message(i as int, c),
{
    if trimmed_chars_of(c.definition.as_str()).len() == 0 {
        return Err(AppError::AiResponseInvalid { message: card_message(i, " 张卡片缺少 definition") });
    }
    let kws = normalize_keywords(c.keywords.as_slice());
    let ghost nk = normalized_keywords(string_views(c.keywords@));
    assert(string_views(kws@) =~= kws.deep_view());
    let keyword = if trimmed_chars_of(c.keyword.as_str()).len() == 0 && kws.len() > 0 {
        kws[0].clone()
    } else {
        c.keyword.clone()
    };
    assert(keyword@ == completed_keyword(c));
    if trimmed_chars_of(keyword.as_str()).len() == 0 {
        return Err(
            AppError::AiResponseInvalid {
                message: card_message(i, " 张卡片缺少关键词（keyword/keywords 均为空）"),
            },
        );
    }
    let keywords = if kws.len() == 0 {
        let mut v: Vec<String> = Vec::new();
        v.push(keyword.clone());
        assert(string_views(v@) =~= seq![keyword@]);
        v
    } else {
        kws
    };
    let t = trimmed_chars_of(c.question.as_str());
    let question = if t.len() == 0 {
        crate::models::card::default_question(keyword.as_str())
    } else {
        let ts = string_from_chars(t.as_slice());
        if !looks_like_question(ts.as_str()) {
            crate::models::card::default_question(keyword.as_str())
        } else {
            ts
        }
    };
    Ok(
        ParsedCard {
            question,
            keywords,
            keyword,
            definition: c.definition,
            explanation: c.explanation,
            related_terms: c.related_terms,
            scenarios: c.scenarios,
            source_excerpt: c.source_excerpt,
        },
    )
}

/// Checks and completes the cards decoded from a reply.
///
/// A reply without cards is refused, and so is one with a card that lacks a definition or
/// any keyword (the first such card is named). Otherwise every card is completed: its
/// keywords are trimmed and cleared of blanks and repeats, its main keyword falls back to
/// the first keyword (and its keywords to the main keyword), and a question that is blank
/// or does not read as a question becomes "<keyword>是什么？".
pub fn complete_parsed_cards(cards: Vec<ParsedCard>) -> (r: Result<Vec<ParsedCard>, AppError>)
    ensures
        r is Ok <==> cards@.len() > 0 && forall|i: int| 0 <= i < cards@.len() ==> card_acceptable(#[trigger] cards@[i]),
        r matches Ok(out) ==> out@.len() == cards@.len() && forall|i: int|
            0 <= i < cards@.len() ==> is_completed_card(#[trigger] cards@[i], out@[i]),
        r matches Err(e) ==> e matches AppError::AiResponseInvalid { message } && (
        (cards@.len() == 0 && message@ == no_cards_message()) || exists|i: int|
            first_unacceptable(cards@, i) && message@ == card_problem_message(i, #[trigger] cards@[i])),
{
    if cards.len() == 0 {
        return Err(AppError::AiResponseInvalid { message: String::from_str("模型未返回任何卡片") });
    }
    let ghost all = cards@;
    let len = cards.len();
    let mut rest = cards;
    let mut out: Vec<ParsedCard> = Vec::new();
    while rest.len() > 0
        invariant
            all == cards@,
            all.len() == len,
            out@.len() <= len,
            rest@ == all.skip(out@.len() as int),
            forall|j: int| 0 <= j < out@.len() ==> card_acceptable(#[trigger] all[j]),
            forall|j: int| 0 <= j < out@.len() ==> is_completed_card(#[trigger] all[j], out@[j]),
        decreases rest@.len(),
    {
        let i = out.len();
        let c = rest.remove(0);
        assert(c == all[i as int]);
        assert(rest@ =~= all.skip(i + 1));
        match complete_card(c, i) {
            Ok(f) => {
                out.push(f);
            },
            Err(e) => {
                assert(!card_acceptable(all[i as int]));
                assert(first_unacceptable(all, i as int));
                assert(e matches AppError::AiResponseInvalid { message } && message@ == card_problem_message(
                    i as int,
                    all[i as int],
                ));
                return Err(e);
            },
        }
    }
    Ok(out)
}

/// Every completed card has a main keyword, at least one keyword, clean keywords when the
/// reply gave any, and a question that reads as a question.
pub proof fn law_completed_cards_are_questions(c: ParsedCard, f: ParsedCard)
    requires
        card_acceptable(c),
        is_completed_card(c, f),
    ensures
        trim(f.keyword@).len() > 0,
        string_views(f.keywords@).len() > 0,
        is_question_text(f.question@),
{
    let q = completed_question(c);
    let t = trim(c.question@);
    if t.len() == 0 || !is_question_text(t) {
        reveal_strlit("是什么？");
        let k = completed_keyword(c);
        let d = default_question_of(k);
        assert(d.last() == '？');
        crate::text::lemma_strip_keeps_last(d, ws());
    } else {
        crate::text::lemma_strip_idempotent(c.question@, ws());
    }
}

} // verus!
