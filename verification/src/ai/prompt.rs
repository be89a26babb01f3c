//! The prompt that asks the model for cards.

use vstd::prelude::*;

use crate::text::{
    contains_seq, lemma_absent_char, lemma_absent_concat, lemma_contains_in_strip, occurs_at, string_from_chars, trim,
    trimmed_chars_of, ws,
};

verus! {

/// The fixed opening of the prompt: the task and the JSON form the reply must take.
pub const PROMPT_HEAD: &'static str = "你是一名知识卡片生成助手。请阅读下列内容，提炼 1 到 3 张结构化的知识卡片。\n\n严格按如下 JSON 返回，不要输出任何额外说明或 Markdown 代码块以外的文字：\n{\n  \"cards\": [\n    {\n      \"keyword\": \"简洁的关键词或术语\",\n      \"definition\": \"正式、精准的定义\",\n      \"explanation\": \"更通俗的解释\",\n      \"relatedTerms\": [\"关联词1\", \"关联词2\"],\n      \"scenarios\": [\"应用场景1\", \"应用场景2\"],\n      \"sourceExcerpt\": \"原文中最能支撑该卡片的一句话，没有则留空字符串\"\n    }\n  ]\n}\n\n";

/// The line that introduces the source text.
pub const PROMPT_SOURCE_LABEL: &'static str = "\n原始内容：\n";

/// The hint naming the keyword to focus on, when one is given and not blank.
pub open spec fn keyword_hint(k: Option<Seq<char>>) -> Seq<char> {
    match k {
        Some(k) => if trim(k).len() > 0 {
            "请重点围绕关键词「"@ + trim(k) + "」提炼。\n"@
        } else {
            Seq::empty()
        },
        None => Seq::empty(),
    }
}

/// The hint naming the source's title, when one is given and not blank.
pub open spec fn context_hint(c: Option<Seq<char>>) -> Seq<char> {
    match c {
        Some(c) => if trim(c).len() > 0 {
            "来源标题："@ + trim(c) + "\n"@
        } else {
            Seq::empty()
        },
        None => Seq::empty(),
    }
}

/// The view of an optional string slice.
pub open spec fn opt_view(o: Option<&str>) -> Option<Seq<char>> {
    match o {
        Some(s) => Some(s@),
        None => None,
    }
}

/// The prompt for a source text, an optional keyword and an optional source title.
pub open spec fn prompt_text(source: Seq<char>, keyword: Option<Seq<char>>, context: Option<Seq<char>>) -> Seq<char> {
    PROMPT_HEAD@ + context_hint(context) + keyword_hint(keyword) + PROMPT_SOURCE_LABEL@ + trim(source) + "\n"@
}

/// `prefix`, then `hint` wrapped in `open` and `close` when it is given and not blank.
fn append_hint(out: &mut String, hint: Option<&str>, open: &str, close: &str)
    ensures
        final(out)@ == old(out)@ + match opt_view(hint) {
            Some(h) => if trim(h).len() > 0 {
                open@ + trim(h) + close@
            } else {
                Seq::empty()
            },
            None => Seq::<char>::empty(),
        },
{
    match hint {
        Some(h) => {
            let t = trimmed_chars_of(h);
            if t.len() > 0 {
                let ts = string_from_chars(t.as_slice());
                out.append(open);
                out.append(ts.as_str());
                out.append(close);
            } else {
                assert(out@ =~= out@ + Seq::<char>::empty());
            }
        },
        None => {
            assert(out@ =~= out@ + Seq::<char>::empty());
        },
    }
}

/// Builds the prompt sent to the model.
pub fn build_prompt(source_text: &str, selected_keyword: Option<&str>, context_title: Option<&str>) -> (r: String)
    ensures
        r@ == prompt_text(source_text@, opt_view(selected_keyword), opt_view(context_title)),
{
    let mut out = String::from_str(PROMPT_HEAD);
    append_hint(&mut out, context_title, "来源标题：", "\n");
    append_hint(&mut out, selected_keyword, "请重点围绕关键词「", "」提炼。\n");
    out.append(PROMPT_SOURCE_LABEL);
    let src = trimmed_chars_of(source_text);
    let srcs = string_from_chars(src.as_slice());
    out.append(srcs.as_str());
    out.append("\n");
    assert(out@ =~= prompt_text(source_text@, opt_view(selected_keyword), opt_view(context_title)));
    out
}

/// The prompt carries the trimmed source text, and the keyword and the title, trimmed,
/// whenever they are given and not blank.
pub proof fn law_prompt_embeds_inputs(source: Seq<char>, keyword: Option<Seq<char>>, context: Option<Seq<char>>)
    ensures
        contains_seq(prompt_text(source, keyword, context), trim(source)),
        keyword matches Some(k) ==> (trim(k).len() > 0 ==> contains_seq(prompt_text(source, keyword, context), trim(k))),
        context matches Some(c) ==> (trim(c).len() > 0 ==> contains_seq(prompt_text(source, keyword, context), trim(c))),
        keyword matches Some(k) ==> (trim(k).len() > 0 ==> contains_seq(
            prompt_text(source, keyword, context),
            "请重点围绕关键词「"@ + trim(k) + "」提炼。"@,
        )),
        context matches Some(c) ==> (trim(c).len() > 0 ==> contains_seq(
            prompt_text(source, keyword, context),
            "来源标题："@ + trim(c),
        )),
{
    let p = prompt_text(source, keyword, context);
    let a = PROMPT_HEAD@;
    let ch = context_hint(context);
    let kh = keyword_hint(keyword);
    let l = PROMPT_SOURCE_LABEL@;
    let s = trim(source);
    let i: int = (a.len() + ch.len() + kh.len() + l.len()) as int;
    assert(p.subrange(i, i + s.len() as int) =~= s);
    assert(occurs_at(p, s, i));
    match keyword {
        Some(k) => {
            if trim(k).len() > 0 {
                reveal_strlit("请重点围绕关键词「");
                reveal_strlit("」提炼。");
                reveal_strlit("」提炼。\n");
                let j: int = (a.len() + ch.len() + 9) as int;
                assert(p.subrange(j, j + trim(k).len() as int) =~= trim(k));
                assert(occurs_at(p, trim(k), j));
                let line = "请重点围绕关键词「"@ + trim(k) + "」提炼。"@;
                let j0: int = (a.len() + ch.len()) as int;
                assert(p.subrange(j0, j0 + line.len() as int) =~= line);
                assert(occurs_at(p, line, j0));
            }
        },
        None => {},
    }
    match context {
        Some(c) => {
            if trim(c).len() > 0 {
                reveal_strlit("来源标题：");
                let j: int = (a.len() + 5) as int;
                assert(p.subrange(j, j + trim(c).len() as int) =~= trim(c));
                assert(occurs_at(p, trim(c), j));
                let line = "来源标题："@ + trim(c);
                let j0: int = a.len() as int;
                assert(p.subrange(j0, j0 + line.len() as int) =~= line);
                assert(occurs_at(p, line, j0));
            }
        },
        None => {},
    }
}

/// The words that open the keyword hint.
pub open spec fn keyword_marker() -> Seq<char> {
    "请重点围绕关键词"@
}

/// The words that open the source-title hint.
pub open spec fn context_marker() -> Seq<char> {
    "来源标题"@
}

/// A blank keyword, or a blank title, gives the same prompt as none.
pub proof fn law_blank_hint_is_no_hint(source: Seq<char>, keyword: Option<Seq<char>>, context: Option<Seq<char>>)
    ensures
        keyword matches Some(k) && trim(k).len() == 0 ==> prompt_text(source, keyword, context) == prompt_text(
            source,
            None,
            context,
        ),
        context matches Some(c) && trim(c).len() == 0 ==> prompt_text(source, keyword, context) == prompt_text(
            source,
            keyword,
            None,
        ),
{
}

/// The keyword hint is in the prompt exactly when a non-blank keyword is given, and the
/// title hint exactly when a non-blank title is given, as long as neither hint's opening
/// words occur in the source text, the keyword or the title themselves.
pub proof fn law_hints_only_when_given(source: Seq<char>, keyword: Option<Seq<char>>, context: Option<Seq<char>>)
    requires
        !contains_seq(source, keyword_marker()),
        !contains_seq(source, context_marker()),
        keyword matches Some(k) ==> !contains_seq(k, keyword_marker()) && !contains_seq(k, context_marker()),
        context matches Some(c) ==> !contains_seq(c, keyword_marker()) && !contains_seq(c, context_marker()),
    ensures
        contains_seq(prompt_text(source, keyword, context), keyword_marker()) <==> (keyword matches Some(k) && trim(
            k,
        ).len() > 0),
        contains_seq(prompt_text(source, keyword, context), context_marker()) <==> (context matches Some(c) && trim(
            c,
        ).len() > 0),
{
    reveal_strlit("请重点围绕关键词");
    reveal_strlit("来源标题");
    reveal_strlit("请重点围绕关键词「");
    reveal_strlit("」提炼。\n");
    reveal_strlit("来源标题：");
    reveal_strlit("\n");
    reveal_strlit("\n原始内容：\n");
    reveal_strlit("你是一名知识卡片生成助手。请阅读下列内容，提炼 1 到 3 张结构化的知识卡片。\n\n严格按如下 JSON 返回，不要输出任何额外说明或 Markdown 代码块以外的文字：\n{\n  \"cards\": [\n    {\n      \"keyword\": \"简洁的关键词或术语\",\n      \"definition\": \"正式、精准的定义\",\n      \"explanation\": \"更通俗的解释\",\n      \"relatedTerms\": [\"关联词1\", \"关联词2\"],\n      \"scenarios\": [\"应用场景1\", \"应用场景2\"],\n      \"sourceExcerpt\": \"原文中最能支撑该卡片的一句话，没有则留空字符串\"\n    }\n  ]\n}\n\n");
    let km = keyword_marker();
    let cm = context_marker();
    let head = PROMPT_HEAD@;
    let label = PROMPT_SOURCE_LABEL@;
    let nl = "\n"@;
    let ch = context_hint(context);
    let kh = keyword_hint(keyword);
    let ts = trim(source);
    let p = prompt_text(source, keyword, context);
    assert(p == head + ch + kh + label + ts + nl);
    assert(!km.contains('\n') && !cm.contains('\n'));
    assert(!km.contains('：') && !km.contains('」') && !cm.contains('「') && !cm.contains('」'));
    assert forall|j: int| 0 <= j < head.len() implies head[j] != km[1] && head[j] != cm[0] by {}
    lemma_absent_char(head, km, 1);
    lemma_absent_char(head, cm, 0);
    lemma_absent_char(label, km, 1);
    lemma_absent_char(label, cm, 0);
    lemma_absent_char(nl, km, 1);
    lemma_absent_char(nl, cm, 0);
    if contains_seq(ts, km) {
        lemma_contains_in_strip(source, km, ws());
    }
    if contains_seq(ts, cm) {
        lemma_contains_in_strip(source, cm, ws());
    }
    // The keyword hint.
    if keyword matches Some(k) && trim(k).len() > 0 {
        let j: int = (head.len() + ch.len()) as int;
        assert(p.subrange(j, j + km.len() as int) =~= km);
        assert(occurs_at(p, km, j));
    } else {
        assert(kh =~= Seq::<char>::empty());
        let x1 = head + ch;
        if let Some(c) = context {
            if trim(c).len() > 0 {
                let tc = trim(c);
                let open = "来源标题："@;
                lemma_absent_char(open, km, 1);
                if contains_seq(tc, km) {
                    lemma_contains_in_strip(c, km, ws());
                }
                lemma_absent_concat(open, tc, km);
                lemma_absent_concat(open + tc, nl, km);
                assert(ch == open + tc + nl);
                lemma_absent_concat(head, ch, km);
            } else {
                assert(x1 =~= head);
            }
        } else {
            assert(x1 =~= head);
        }
        assert(x1 + kh =~= x1);
        lemma_absent_concat(x1, label, km);
        let x3 = x1 + label;
        assert(x3.last() == '\n');
        lemma_absent_concat(x3, ts, km);
        lemma_absent_concat(x3 + ts, nl, km);
    }
    // The title hint.
    if context matches Some(c) && trim(c).len() > 0 {
        let j = head.len() as int;
        assert(p.subrange(j, j + cm.len() as int) =~= cm);
        assert(occurs_at(p, cm, j));
    } else {
        assert(ch =~= Seq::<char>::empty());
        let x2 = head + kh;
        if let Some(k) = keyword {
            if trim(k).len() > 0 {
                let tk = trim(k);
                let open = "请重点围绕关键词「"@;
                let close = "」提炼。\n"@;
                lemma_absent_char(open, cm, 0);
                lemma_absent_char(close, cm, 0);
                if contains_seq(tk, cm) {
                    lemma_contains_in_strip(k, cm, ws());
                }
                lemma_absent_concat(open, tk, cm);
                lemma_absent_concat(open + tk, close, cm);
                assert(kh == open + tk + close);
                lemma_absent_concat(head, kh, cm);
            } else {
                assert(x2 =~= head);
            }
        } else {
            assert(x2 =~= head);
        }
        assert(head + ch =~= head);
        lemma_absent_concat(x2, label, cm);
        let x3 = x2 + label;
        assert(x3.last() == '\n');
        lemma_absent_concat(x3, ts, cm);
        lemma_absent_concat(x3 + ts, nl, cm);
    }
}

} // verus!
