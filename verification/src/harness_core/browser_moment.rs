//! Browser heuristics: the window title stands in for the current tab, and tab switches
//! and bilibili pages mark moments worth a screenshot.

use vstd::prelude::*;

use crate::text::{
    chars_eq_str, chars_of, contains_chars, contains_seq, copy_range, cut_at_first_found,
    cut_before_first, cut_first, cut_first_found, find_last, has_prefix, last_index_of, literals,
    lowercase, lowercase_chars, starts_with_chars, str_contains, str_eq, str_to_lowercase,
    string_from_chars, trim, trim_chars, chars_eq, strings_contain, trim_set, strip, one_of,
    is_ws, is_whitespace, char_in, lemma_strip_fixed, ws, is_last_occurrence, occurs_at,
};

verus! {

// ---------------------------------------------------------------------------
// Which executables and titles count
// ---------------------------------------------------------------------------

/// The executables treated as Chromium / Edge style browsers (compared in lower case).
pub open spec fn is_browser_exe_name(exe: Seq<char>) -> bool {
    let n = lowercase(exe);
    ||| n == "chrome.exe"@
    ||| n == "msedge.exe"@
    ||| n == "brave.exe"@
    ||| n == "vivaldi.exe"@
    ||| n == "opera.exe"@
    ||| n == "arc.exe"@
    ||| n == "firefox.exe"@
    ||| contains_seq(n, "chromium"@)
}

/// Google Chrome, the only browser the learning moments currently follow.
pub open spec fn is_chrome_exe_name(exe: Seq<char>) -> bool {
    lowercase(exe) == "chrome.exe"@
}

/// The bilibili desktop client.
pub open spec fn is_bilibili_exe_name(exe: Seq<char>) -> bool {
    contains_seq(lowercase(exe), "bilibili"@) || contains_seq(exe, "哔哩"@)
}

/// A window title that belongs to a bilibili page.
pub open spec fn is_bilibili_title_text(title: Seq<char>) -> bool {
    contains_seq(lowercase(title), "bilibili"@) || contains_seq(title, "哔哩"@)
}

/// The lower-case characters of a string slice.
fn lowercase_of(s: &str) -> (r: Vec<char>)
    ensures
        r@ == lowercase(s@),
{
    let l = str_to_lowercase(s);
    chars_of(l.as_str())
}

/// Common Chromium / Edge executable names (compared in lower case).
pub fn is_browser_app(exe_name: &str) -> (r: bool)
    ensures
        r == is_browser_exe_name(exe_name@),
{
    let n = lowercase_of(exe_name);
    let n = n.as_slice();
    chars_eq_str(n, "chrome.exe") || chars_eq_str(n, "msedge.exe") || chars_eq_str(n, "brave.exe")
        || chars_eq_str(n, "vivaldi.exe") || chars_eq_str(n, "opera.exe") || chars_eq_str(
        n,
        "arc.exe",
    ) || chars_eq_str(n, "firefox.exe") || contains_chars(n, chars_of("chromium").as_slice())
}

/// The learning scene currently follows Google Chrome only.
pub fn is_chrome_exe(exe_name: &str) -> (r: bool)
    ensures
        r == is_chrome_exe_name(exe_name@),
{
    let n = lowercase_of(exe_name);
    chars_eq_str(n.as_slice(), "chrome.exe")
}

/// The bilibili Windows client (kept aside: it is not part of the learning-card capture).
pub fn is_bilibili_desktop_exe(exe_name: &str) -> (r: bool)
    ensures
        r == is_bilibili_exe_name(exe_name@),
{
    let n = lowercase_of(exe_name);
    contains_chars(n.as_slice(), chars_of("bilibili").as_slice()) || str_contains(exe_name, "哔哩")
}

/// The executables whose window titles are followed for learning moments.
pub fn is_learning_focus_tracked_exe(exe_name: &str) -> (r: bool)
    ensures
        r == is_chrome_exe_name(exe_name@),
{
    is_chrome_exe(exe_name)
}

/// Whether a window title belongs to a bilibili page.
pub fn is_bilibili_title(title: &str) -> (r: bool)
    ensures
        r == is_bilibili_title_text(title@),
{
    let t = lowercase_of(title);
    contains_chars(t.as_slice(), chars_of("bilibili").as_slice()) || str_contains(title, "哔哩")
}

// ---------------------------------------------------------------------------
// Page titles
// ---------------------------------------------------------------------------

/// The browser-name suffixes a window title may end with, in the order they are tried.
pub open spec fn browser_suffixes() -> Seq<Seq<char>> {
    seq![
        " - Google Chrome"@,
        " - Chromium"@,
        " - Microsoft\u{200b} Edge"@,
        " - Microsoft Edge"@,
        " - Brave"@,
        " - Vivaldi"@,
        " - Opera"@,
        " - Arc"@,
    ]
}

/// The page-title line of a window title: cut before the last occurrence of the first
/// browser suffix that occurs, then trimmed.
pub open spec fn page_title_line(full: Seq<char>) -> Seq<char> {
    match cut_first_found(full, browser_suffixes()) {
        Some(c) => trim(c),
        None => trim(full),
    }
}

/// The number of characters in a string slice.
pub open spec fn char_len(s: Seq<char>) -> int {
    s.len() as int
}

fn browser_suffix_list() -> (r: Vec<Vec<char>>)
    ensures
        r.deep_view() == browser_suffixes(),
{
    let r = literals(
        &[
            " - Google Chrome",
            " - Chromium",
            " - Microsoft\u{200b} Edge",
            " - Microsoft Edge",
            " - Brave",
            " - Vivaldi",
            " - Opera",
            " - Arc",
        ],
    );
    assert(r.deep_view() =~= browser_suffixes());
    r
}

/// The page-title characters of a window title.
pub fn page_title_chars(full: &[char]) -> (r: Vec<char>)
    ensures
        r@ == page_title_line(full@),
{
    let sufs = browser_suffix_list();
    match cut_at_first_found(full, &sufs) {
        Some(c) => trim_chars(c.as_slice()),
        None => trim_chars(full),
    }
}

/// Extracts the page-title line from a window title (drops a trailing ` - <browser>`).
pub fn extract_page_title_line(full: &str) -> (r: String)
    ensures
        r@ == page_title_line(full@),
{
    let v = chars_of(full);
    let p = page_title_chars(v.as_slice());
    string_from_chars(p.as_slice())
}

/// The number of characters (not bytes) in a string slice.
pub fn char_count(s: &str) -> (n: usize)
    ensures
        n == s@.len(),
{
    chars_of(s).len()
}

} // verus!

verus! {

// ---------------------------------------------------------------------------
// Learning content
// ---------------------------------------------------------------------------

/// The site suffixes of bilibili window titles, in the order they are tried.
pub open spec fn bilibili_suffixes() -> Seq<Seq<char>> {
    seq![" - 哔哩哔哩 (Official)"@, " - bilibili (Official)"@, " - 哔哩哔哩"@, " - bilibili"@]
}

/// A bilibili title line without its site suffix: the first suffix that occurs is cut off
/// at its last occurrence, and a trailing ` - <part>` naming bilibili is dropped as well.
pub open spec fn bilibili_site_stripped(line: Seq<char>) -> Seq<char> {
    let t0 = trim(line);
    let t1 = match cut_first_found(t0, bilibili_suffixes()) {
        Some(c) => trim(c),
        None => t0,
    };
    match find_last(t1, " - "@) {
        Some(pos) => {
            let right = trim(t1.subrange(pos + 3, t1.len() as int));
            if contains_seq(lowercase(right), "bilibili"@) || contains_seq(right, "哔哩"@) {
                trim(t1.subrange(0, pos))
            } else {
                t1
            }
        },
        None => t1,
    }
}

/// The trimmed text before the first `sep`, when it has at least four characters.
pub open spec fn long_left_of(t: Seq<char>, sep: Seq<char>) -> Option<Seq<char>> {
    match cut_first(t, sep) {
        Some(c) => if trim(c).len() >= 4 {
            Some(trim(c))
        } else {
            None
        },
        None => None,
    }
}

/// The main title of a Chrome page line: the text before ` | ` or ` · ` when it is long
/// enough, else the text before the last ` - ` when that is long enough and what follows
/// it is short (a site name), else the whole trimmed line.
pub open spec fn chrome_primary_title_of(page_line: Seq<char>) -> Seq<char> {
    let t = trim(page_line);
    if t.len() == 0 {
        Seq::empty()
    } else {
        match long_left_of(t, " | "@) {
            Some(l) => l,
            None => match long_left_of(t, " \u{b7} "@) {
                Some(l) => l,
                None => match find_last(t, " - "@) {
                    Some(pos) => {
                        let left = trim(t.subrange(0, pos));
                        let right = trim(t.subrange(pos + 3, t.len() as int));
                        if left.len() >= 4 && right.len() <= 28 {
                            left
                        } else {
                            t
                        }
                    },
                    None => t,
                },
            },
        }
    }
}

/// A page line that stands for an empty new tab.
pub open spec fn is_blank_tab_line(page_line: Seq<char>) -> bool {
    let s = trim(page_line);
    if s.len() == 0 {
        true
    } else {
        let lower = lowercase(s);
        ||| contains_seq(lower, "新标签页"@)
        ||| has_prefix(lower, "new tab"@)
        ||| lower == "new tab"@
        ||| contains_seq(lower, "about:blank"@)
    }
}

/// The triggers that mark a bilibili page.
pub open spec fn is_bilibili_trigger(trigger: Seq<char>) -> bool {
    trigger == "bilibili_open"@ || trigger == "bilibili_video"@ || trigger == "bilibili"@
}

/// The learning topic read from a tab's page line, depending on what triggered the moment.
pub open spec fn learning_content_of(trigger: Seq<char>, page_line: Seq<char>) -> Seq<char> {
    let t = trim(page_line);
    if t.len() == 0 {
        Seq::empty()
    } else if is_bilibili_trigger(trigger) {
        bilibili_site_stripped(t)
    } else if trigger == "chrome_new_tab"@ {
        if is_blank_tab_line(page_line) {
            "空白新标签页"@
        } else {
            chrome_primary_title_of(page_line)
        }
    } else {
        chrome_primary_title_of(page_line)
    }
}

fn bilibili_suffix_list() -> (r: Vec<Vec<char>>)
    ensures
        r.deep_view() == bilibili_suffixes(),
{
    let r = literals(&[" - 哔哩哔哩 (Official)", " - bilibili (Official)", " - 哔哩哔哩", " - bilibili"]);
    assert(r.deep_view() =~= bilibili_suffixes());
    r
}

/// The characters of a bilibili title line without its site suffix.
pub fn bilibili_stripped_chars(line: &[char]) -> (r: Vec<char>)
    ensures
        r@ == bilibili_site_stripped(line@),
{
    let t0 = trim_chars(line);
    let sufs = bilibili_suffix_list();
    let t1 = match cut_at_first_found(t0.as_slice(), &sufs) {
        Some(c) => trim_chars(c.as_slice()),
        None => t0,
    };
    let dash = chars_of(" - ");
    proof {
        reveal_strlit(" - ");
    }
    match last_index_of(t1.as_slice(), dash.as_slice()) {
        Some(pos) => {
            let n1 = t1.len();
            assert(pos + 3 <= n1);
            let right = trim_chars(copy_range(t1.as_slice(), pos + 3, n1).as_slice());
            let rl = lowercase_chars(right.as_slice());
            if contains_chars(rl.as_slice(), chars_of("bilibili").as_slice()) || contains_chars(
                right.as_slice(),
                chars_of("哔哩").as_slice(),
            ) {
                trim_chars(copy_range(t1.as_slice(), 0, pos).as_slice())
            } else {
                t1
            }
        },
        None => t1,
    }
}

/// Drops the usual site suffix from a bilibili window title, leaving the video or
/// collection title.
pub fn strip_bilibili_site_suffix(line: &str) -> (r: String)
    ensures
        r@ == bilibili_site_stripped(line@),
{
    let v = chars_of(line);
    let r = bilibili_stripped_chars(v.as_slice());
    string_from_chars(r.as_slice())
}

/// The trimmed text before the first `sep` in `t`, when it has at least four characters.
fn long_left_chars(t: &[char], sep: &str) -> (r: Option<Vec<char>>)
    ensures
        r is Some <==> long_left_of(t@, sep@) is Some,
        r matches Some(v) ==> long_left_of(t@, sep@) == Some(v@),
{
    match cut_before_first(t, chars_of(sep).as_slice()) {
        Some(c) => {
            let left = trim_chars(c.as_slice());
            if left.len() >= 4 {
                Some(left)
            } else {
                None
            }
        },
        None => None,
    }
}

/// The main title characters of a Chrome page line.
pub fn chrome_primary_title_chars(page_line: &[char]) -> (r: Vec<char>)
    ensures
        r@ == chrome_primary_title_of(page_line@),
{
    let t = trim_chars(page_line);
    if t.len() == 0 {
        return Vec::new();
    }
    if let Some(l) = long_left_chars(t.as_slice(), " | ") {
        return l;
    }
    if let Some(l) = long_left_chars(t.as_slice(), " \u{b7} ") {
        return l;
    }
    let dash = chars_of(" - ");
    proof {
        reveal_strlit(" - ");
    }
    match last_index_of(t.as_slice(), dash.as_slice()) {
        Some(pos) => {
            let left = trim_chars(copy_range(t.as_slice(), 0, pos).as_slice());
            let right = trim_chars(copy_range(t.as_slice(), pos + 3, t.len()).as_slice());
            if left.len() >= 4 && right.len() <= 28 {
                left
            } else {
                t
            }
        },
        None => t,
    }
}

/// The main title of a Chrome page line: the text before " | " or " · " when that part
/// has at least four characters, else before the last " - " when the left part has at
/// least four characters and the right part at most 28, else the whole trimmed line.
pub fn chrome_primary_title(page_line: &str) -> (r: String)
    ensures
        r@ == chrome_primary_title_of(page_line@),
{
    let t = chrome_primary_title_chars(chars_of(page_line).as_slice());
    string_from_chars(t.as_slice())
}

/// Whether a Chrome page line stands for an empty new tab.
pub fn is_blank_chrome_tab_page_line(page_line: &str) -> (r: bool)
    ensures
        r == is_blank_tab_line(page_line@),
{
    is_blank_tab_chars(chars_of(page_line).as_slice())
}

/// Whether a page line stands for an empty new tab.
pub fn is_blank_tab_chars(page_line: &[char]) -> (r: bool)
    ensures
        r == is_blank_tab_line(page_line@),
{
    let s = trim_chars(page_line);
    if s.len() == 0 {
        return true;
    }
    let lower = lowercase_chars(s.as_slice());
    let lower = lower.as_slice();
    contains_chars(lower, chars_of("新标签页").as_slice()) || starts_with_chars(
        lower,
        chars_of("new tab").as_slice(),
    ) || chars_eq_str(lower, "new tab") || contains_chars(lower, chars_of("about:blank").as_slice())
}

/// Whether a trigger marks a bilibili page.
fn is_bilibili_trigger_str(trigger: &str) -> (r: bool)
    ensures
        r == is_bilibili_trigger(trigger@),
{
    str_eq(trigger, "bilibili_open") || str_eq(trigger, "bilibili_video") || str_eq(trigger, "bilibili")
}

/// The learning-content characters for a trigger and page line.
pub fn learning_content_chars(trigger: &str, page_line: &[char]) -> (r: Vec<char>)
    ensures
        r@ == learning_content_of(trigger@, page_line@),
{
    let t = trim_chars(page_line);
    if t.len() == 0 {
        return Vec::new();
    }
    if is_bilibili_trigger_str(trigger) {
        bilibili_stripped_chars(t.as_slice())
    } else if str_eq(trigger, "chrome_new_tab") {
        if is_blank_tab_chars(page_line) {
            chars_of("空白新标签页")
        } else {
            chrome_primary_title_chars(page_line)
        }
    } else {
        chrome_primary_title_chars(page_line)
    }
}

/// Reads the learning topic (for cards and keywords) from a tab's page line.
pub fn extract_learning_content(trigger: &str, page_line: &str) -> (r: String)
    ensures
        r@ == learning_content_of(trigger@, page_line@),
{
    let v = chars_of(page_line);
    let r = learning_content_chars(trigger, v.as_slice());
    string_from_chars(r.as_slice())
}

} // verus!

verus! {

// ---------------------------------------------------------------------------
// Keywords
// ---------------------------------------------------------------------------

/// Tokens never kept as keywords: function words, series words and short English words.
pub open spec fn stop_words() -> Seq<Seq<char>> {
    seq![
        "的"@,
        "了"@,
        "和"@,
        "与"@,
        "或"@,
        "在"@,
        "是"@,
        "为"@,
        "这"@,
        "那"@,
        "我"@,
        "你"@,
        "他"@,
        "她"@,
        "它"@,
        "吗"@,
        "呢"@,
        "吧"@,
        "啊"@,
        "之"@,
        "等"@,
        "及"@,
        "被"@,
        "从"@,
        "让"@,
        "将"@,
        "对"@,
        "把"@,
        "到"@,
        "也"@,
        "个"@,
        "中"@,
        "上"@,
        "下"@,
        "第"@,
        "集"@,
        "期"@,
        "官方"@,
        "双语"@,
        "视频"@,
        "教程"@,
        "合集"@,
        "转载"@,
        "the"@,
        "and"@,
        "for"@,
        "with"@,
        "from"@,
        "this"@,
        "that"@,
    ]
}

/// A token too short (under two characters once trimmed) or too common to be a keyword.
pub open spec fn is_stop(tok: Seq<char>) -> bool {
    let x = trim(tok);
    x.len() < 2 || stop_words().contains(x)
}

/// `out` after offering `s` as a keyword: it is kept, trimmed, unless it is empty, a stop
/// token, already present, or longer than 24 characters.
pub open spec fn pushed_keyword(out: Seq<Seq<char>>, s: Seq<char>) -> Seq<Seq<char>> {
    let t = trim(s);
    if t.len() == 0 || is_stop(t) || out.contains(t) || t.len() > 24 {
        out
    } else {
        out.push(t)
    }
}

/// The punctuation that separates words in a title, besides white space.
pub open spec fn title_punctuation() -> Seq<char> {
    seq!['，', '。', '、', '；', '：', '｜', '|', '/', '\\', '\u{b7}', '\u{2014}', '\u{ff0d}', '-', '【', '】', '(', ')', '（', '）', '[', ']', '「', '」', '#', '@']
}

/// The brackets trimmed off both ends of a title word.
pub open spec fn word_brackets() -> Seq<char> {
    seq!['【', '】', '「', '」']
}

/// Characters that end a title word.
pub open spec fn is_title_delimiter(c: char) -> bool {
    is_ws(c) || title_punctuation().contains(c)
}

/// `out` after a finished word: the word, stripped of brackets, is offered as a keyword
/// when it still has at least two characters.
pub open spec fn flushed_word(out: Seq<Seq<char>>, cur: Seq<char>) -> Seq<Seq<char>> {
    let piece = strip(cur, one_of(word_brackets()));
    if piece.len() >= 2 {
        pushed_keyword(out, piece)
    } else {
        out
    }
}

/// The keywords collected and the word in progress after scanning the characters of `s`.
pub open spec fn title_scan(s: Seq<char>) -> (Seq<Seq<char>>, Seq<char>)
    decreases s.len(),
{
    if s.len() == 0 {
        (Seq::empty(), Seq::empty())
    } else {
        let prev = title_scan(s.drop_last());
        let ch = s.last();
        if is_title_delimiter(ch) {
            if prev.1.len() > 0 {
                (flushed_word(prev.0, prev.1), Seq::empty())
            } else {
                prev
            }
        } else {
            (prev.0, prev.1.push(ch))
        }
    }
}

/// The keyword candidates of a title: its words, split at white space and punctuation.
pub open spec fn title_tokens(primary: Seq<char>) -> Seq<Seq<char>> {
    let scan = title_scan(primary);
    if scan.1.len() > 0 {
        flushed_word(scan.0, scan.1)
    } else {
        scan.0
    }
}

/// Whether a token is a stop token.
fn is_stop_token(tok: &[char]) -> (r: bool)
    ensures
        r == is_stop(tok@),
{
    let x = trim_chars(tok);
    if x.len() < 2 {
        return true;
    }
    let words = literals(
        &[
            "的",
            "了",
            "和",
            "与",
            "或",
            "在",
            "是",
            "为",
            "这",
            "那",
            "我",
            "你",
            "他",
            "她",
            "它",
            "吗",
            "呢",
            "吧",
            "啊",
            "之",
            "等",
            "及",
            "被",
            "从",
            "让",
            "将",
            "对",
            "把",
            "到",
            "也",
            "个",
            "中",
            "上",
            "下",
            "第",
            "集",
            "期",
            "官方",
            "双语",
            "视频",
            "教程",
            "合集",
            "转载",
            "the",
            "and",
            "for",
            "with",
            "from",
            "this",
            "that",
        ],
    );
    assert(words.deep_view() =~= stop_words());
    let mut i: usize = 0;
    while i < words.len()
        invariant
            i <= words@.len(),
            words.deep_view() == stop_words(),
            x@ == trim(tok@),
            forall|k: int| 0 <= k < i ==> stop_words()[k] != x@,
        decreases words@.len() - i,
    {
        proof {
            crate::text::lemma_chars_deep_view(words@[i as int]);
        }
        if chars_eq(words[i].as_slice(), x.as_slice()) {
            assert(stop_words()[i as int] == x@);
            assert(stop_words().contains(x@));
            return true;
        }
        i += 1;
    }
    assert(!stop_words().contains(x@));
    false
}

/// Offers `s` as a keyword.
fn push_keyword(out: &mut Vec<String>, s: &[char])
    ensures
        final(out).deep_view() == pushed_keyword(old(out).deep_view(), s@),
{
    let t = trim_chars(s);
    if t.len() == 0 || is_stop_token(t.as_slice()) || strings_contain(out, t.as_slice()) || t.len()
        > 24 {
        return;
    }
    let ghost before = out.deep_view();
    out.push(string_from_chars(t.as_slice()));
    assert(out.deep_view() =~= before.push(t@));
}

/// Offers a finished word as a keyword.
fn flush_word(out: &mut Vec<String>, cur: &[char])
    ensures
        final(out).deep_view() == flushed_word(old(out).deep_view(), cur@),
{
    let brackets: [char; 4] = ['【', '】', '「', '」'];
    assert(brackets@ == word_brackets());
    let piece = trim_set(cur, &brackets);
    if piece.len() >= 2 {
        push_keyword(out, piece.as_slice());
    }
}

/// Whether a character ends a title word.
fn is_title_delimiter_char(c: char) -> (r: bool)
    ensures
        r == is_title_delimiter(c),
{
    let punct: [char; 25] = ['，', '。', '、', '；', '：', '｜', '|', '/', '\\', '\u{b7}', '\u{2014}', '\u{ff0d}', '-', '【', '】', '(', ')', '（', '）', '[', ']', '「', '」', '#', '@'];
    assert(punct@ == title_punctuation());
    is_whitespace(c) || char_in(c, &punct)
}

/// Splits a title into keyword candidates at white space and punctuation.
pub fn tokenize_title_hints(primary: &str) -> (r: Vec<String>)
    ensures
        r.deep_view() == title_tokens(primary@),
{
    let s = chars_of(primary);
    let mut out: Vec<String> = Vec::new();
    let mut cur: Vec<char> = Vec::new();
    let mut i: usize = 0;
    assert(s@.take(0) =~= Seq::<char>::empty());
    while i < s.len()
        invariant
            i <= s@.len(),
            (out.deep_view(), cur@) == title_scan(s@.take(i as int)),
        decreases s@.len() - i,
    {
        let ch = s[i];
        assert(s@.take(i + 1).drop_last() =~= s@.take(i as int));
        assert(s@.take(i + 1).last() == ch);
        if is_title_delimiter_char(ch) {
            if cur.len() > 0 {
                flush_word(&mut out, cur.as_slice());
                cur = Vec::new();
                assert(cur@ =~= Seq::<char>::empty());
            }
        } else {
            cur.push(ch);
        }
        i += 1;
    }
    assert(s@.take(s@.len() as int) =~= s@);
    if cur.len() > 0 {
        flush_word(&mut out, cur.as_slice());
    }
    out
}

} // verus!

verus! {

/// The keywords every moment of a trigger starts with.
pub open spec fn seed_keywords(trigger: Seq<char>) -> Seq<Seq<char>> {
    let e = Seq::<Seq<char>>::empty();
    if is_bilibili_trigger(trigger) {
        pushed_keyword(pushed_keyword(e, "哔哩哔哩"@), "视频学习"@)
    } else if trigger == "chrome_new_tab"@ {
        pushed_keyword(pushed_keyword(e, "Chrome"@), "新标签"@)
    } else if trigger == "chrome_tab"@ || trigger == "tab_switch"@ {
        pushed_keyword(pushed_keyword(e, "Chrome"@), "网页"@)
    } else {
        pushed_keyword(e, "Chrome"@)
    }
}

/// `out` after offering each of `toks` in turn, stopping as soon as it holds eight keywords.
pub open spec fn pushed_until_full(out: Seq<Seq<char>>, toks: Seq<Seq<char>>) -> Seq<Seq<char>>
    decreases toks.len(),
{
    if toks.len() == 0 {
        out
    } else {
        let o = pushed_keyword(out, toks[0]);
        if o.len() >= 8 {
            o
        } else {
            pushed_until_full(o, toks.drop_first())
        }
    }
}

/// The characters of `s` that are not white space, in order.
pub open spec fn non_ws(s: Seq<char>) -> Seq<char>
    decreases s.len(),
{
    if s.len() == 0 {
        s
    } else if is_ws(s.last()) {
        non_ws(s.drop_last())
    } else {
        non_ws(s.drop_last()).push(s.last())
    }
}

/// The keywords of a moment: the trigger's seeds, then title words until there are eight;
/// when fewer than three result, the title without white space (at most sixteen
/// characters) is offered too; at most eight are kept.
pub open spec fn heuristic_keywords_of(trigger: Seq<char>, learning: Seq<char>) -> Seq<Seq<char>> {
    let a = pushed_until_full(seed_keywords(trigger), title_tokens(learning));
    let b = if a.len() < 3 && learning.len() >= 2 {
        let compact = if non_ws(learning).len() > 16 {
            non_ws(learning).take(16)
        } else {
            non_ws(learning)
        };
        if compact.len() >= 2 {
            pushed_keyword(a, compact)
        } else {
            a
        }
    } else {
        a
    };
    if b.len() > 8 {
        b.take(8)
    } else {
        b
    }
}

/// The title without white space, cut to at most sixteen characters.
fn compact_title(s: &[char]) -> (r: Vec<char>)
    ensures
        r@ == (if non_ws(s@).len() > 16 {
            non_ws(s@).take(16)
        } else {
            non_ws(s@)
        }),
{
    let mut r: Vec<char> = Vec::new();
    let mut i: usize = 0;
    assert(s@.take(0) =~= Seq::<char>::empty());
    while i < s.len()
        invariant
            i <= s@.len(),
            r@ == non_ws(s@.take(i as int)),
        decreases s@.len() - i,
    {
        assert(s@.take(i + 1).drop_last() =~= s@.take(i as int));
        if !is_whitespace(s[i]) {
            r.push(s[i]);
        }
        i += 1;
    }
    assert(s@.take(s@.len() as int) =~= s@);
    if r.len() > 16 {
        r.truncate(16);
    }
    r
}

/// Keywords for a browser moment: trigger seeds plus words from the learning title.
pub fn heuristic_keywords(trigger: &str, learning: &str) -> (r: Vec<String>)
    ensures
        r.deep_view() == heuristic_keywords_of(trigger@, learning@),
{
    let mut out: Vec<String> = Vec::new();
    assert(out.deep_view() =~= Seq::<Seq<char>>::empty());
    if is_bilibili_trigger_str(trigger) {
        push_keyword(&mut out, chars_of("哔哩哔哩").as_slice());
        push_keyword(&mut out, chars_of("视频学习").as_slice());
    } else if str_eq(trigger, "chrome_new_tab") {
        push_keyword(&mut out, chars_of("Chrome").as_slice());
        push_keyword(&mut out, chars_of("新标签").as_slice());
    } else if str_eq(trigger, "chrome_tab") || str_eq(trigger, "tab_switch") {
        push_keyword(&mut out, chars_of("Chrome").as_slice());
        push_keyword(&mut out, chars_of("网页").as_slice());
    } else {
        push_keyword(&mut out, chars_of("Chrome").as_slice());
    }
    assert(out.deep_view() == seed_keywords(trigger@));
    let toks = tokenize_title_hints(learning);
    let ghost seeds = out.deep_view();
    let mut i: usize = 0;
    let mut full = false;
    assert(toks.deep_view().skip(0) =~= toks.deep_view());
    while i < toks.len() && !full
        invariant
            i <= toks@.len(),
            !full ==> out.deep_view().len() < 8,
            pushed_until_full(seeds, toks.deep_view()) == (if full {
                out.deep_view()
            } else {
                pushed_until_full(out.deep_view(), toks.deep_view().skip(i as int))
            }),
        decreases toks@.len() - i,
    {
        let ghost rest = toks.deep_view().skip(i as int);
        assert(rest[0] == toks@[i as int]@);
        assert(rest.drop_first() =~= toks.deep_view().skip(i + 1));
        let t = chars_of(toks[i].as_str());
        push_keyword(&mut out, t.as_slice());
        if out.len() >= 8 {
            full = true;
        }
        i += 1;
    }
    proof {
        if !full {
            assert(toks.deep_view().skip(i as int).len() == 0);
        }
    }
    assert(out.deep_view() == pushed_until_full(seeds, toks.deep_view()));
    let lv = chars_of(learning);
    if out.len() < 3 && lv.len() >= 2 {
        let compact = compact_title(lv.as_slice());
        if compact.len() >= 2 {
            push_keyword(&mut out, compact.as_slice());
        }
    }
    if out.len() > 8 {
        let ghost b = out.deep_view();
        out.truncate(8);
        assert(out.deep_view() =~= b.take(8));
    }
    out
}

// ---------------------------------------------------------------------------
// Summaries
// ---------------------------------------------------------------------------

/// The title shown in a summary: at most eighty characters, with an ellipsis when cut.
pub open spec fn summary_head(learning: Seq<char>) -> Seq<char> {
    if learning.len() > 80 {
        learning.take(80) + "…"@
    } else {
        learning
    }
}

/// A short Chinese summary of a moment, prefixed according to its trigger.
pub open spec fn summary_of(trigger: Seq<char>, learning: Seq<char>) -> Seq<char> {
    let head = summary_head(learning);
    if trigger == "bilibili_open"@ {
        "进入哔哩哔哩："@ + head
    } else if trigger == "bilibili_video"@ {
        "哔哩哔哩："@ + head
    } else if trigger == "chrome_new_tab"@ {
        "Chrome：空白新标签页"@
    } else if trigger == "chrome_tab"@ {
        "Chrome："@ + head
    } else if trigger == "bilibili"@ {
        "哔哩哔哩："@ + head
    } else if trigger == "tab_switch"@ {
        "Chrome："@ + head
    } else {
        "浏览器："@ + head
    }
}

/// A short Chinese summary of a browser moment for display.
pub fn summary_zh(trigger: &str, learning: &str) -> (r: String)
    ensures
        r@ == summary_of(trigger@, learning@),
{
    let lv = chars_of(learning);
    let head: String = if lv.len() > 80 {
        let mut h = string_from_chars(copy_range(lv.as_slice(), 0, 80).as_slice());
        h.append("…");
        h
    } else {
        String::from_str(learning)
    };
    let prefix: &str = if str_eq(trigger, "bilibili_open") {
        "进入哔哩哔哩："
    } else if str_eq(trigger, "bilibili_video") {
        "哔哩哔哩："
    } else if str_eq(trigger, "chrome_new_tab") {
        return String::from_str("Chrome：空白新标签页");
    } else if str_eq(trigger, "chrome_tab") {
        "Chrome："
    } else if str_eq(trigger, "bilibili") {
        "哔哩哔哩："
    } else if str_eq(trigger, "tab_switch") {
        "Chrome："
    } else {
        "浏览器："
    };
    let mut s = String::from_str(prefix);
    s.append(head.as_str());
    s
}

// ---------------------------------------------------------------------------
// When to record
// ---------------------------------------------------------------------------

/// The characters of an optional string slice.
pub open spec fn opt_str_view(o: Option<&str>) -> Option<Seq<char>> {
    match o {
        Some(s) => Some(s@),
        None => None,
    }
}

/// The trigger of a learning-focus moment, if one should be recorded now.
///
/// Only Chrome is followed. On a bilibili page a moment is recorded when the title changed
/// (`bilibili_video` when the previous title was bilibili too, else `bilibili_open`) or when
/// there is no previous title of the same executable (`bilibili_open`). Elsewhere a moment
/// is recorded only when the title changed: `chrome_new_tab` for an empty new tab, else
/// `chrome_tab`.
pub open spec fn learning_moment_trigger(
    full_title: Seq<char>,
    prev_full: Option<Seq<char>>,
    app_exe: Seq<char>,
) -> Option<Seq<char>> {
    if full_title.len() == 0 || !is_chrome_exe_name(app_exe) {
        None
    } else if is_bilibili_title_text(full_title) {
        match prev_full {
            Some(p) => if p != full_title {
                if is_bilibili_title_text(p) {
                    Some("bilibili_video"@)
                } else {
                    Some("bilibili_open"@)
                }
            } else {
                None
            },
            None => Some("bilibili_open"@),
        }
    } else {
        match prev_full {
            Some(p) => if p != full_title {
                if is_blank_tab_line(page_title_line(full_title)) {
                    Some("chrome_new_tab"@)
                } else {
                    Some("chrome_tab"@)
                }
            } else {
                None
            },
            None => None,
        }
    }
}

/// Moving onto a bilibili page from a page that is not on bilibili opens bilibili; only a
/// move from one bilibili page to another is a video switch.
pub proof fn law_bilibili_open_or_video(full_title: Seq<char>, prev: Seq<char>, app_exe: Seq<char>)
    requires
        full_title.len() > 0,
        is_chrome_exe_name(app_exe),
        is_bilibili_title_text(full_title),
        prev != full_title,
    ensures
        !is_bilibili_title_text(prev) ==> learning_moment_trigger(full_title, Some(prev), app_exe) == Some(
            "bilibili_open"@,
        ),
        is_bilibili_title_text(prev) ==> learning_moment_trigger(full_title, Some(prev), app_exe) == Some(
            "bilibili_video"@,
        ),
{
}

/// A video switch is only ever reported for a move between two different bilibili pages,
/// and opening bilibili only for a bilibili page reached from no page or from one that is
/// not on bilibili.
pub proof fn law_bilibili_triggers_need_bilibili_pages(
    full_title: Seq<char>,
    prev: Option<Seq<char>>,
    app_exe: Seq<char>,
)
    ensures
        learning_moment_trigger(full_title, prev, app_exe) == Some("bilibili_video"@) ==> (prev matches Some(p)
            && p != full_title && is_bilibili_title_text(p) && is_bilibili_title_text(full_title)),
        learning_moment_trigger(full_title, prev, app_exe) == Some("bilibili_open"@) ==> is_bilibili_title_text(
            full_title,
        ) && (prev matches Some(p) ==> p != full_title && !is_bilibili_title_text(p)),
{
    reveal_strlit("bilibili_video");
    reveal_strlit("bilibili_open");
    reveal_strlit("chrome_new_tab");
    reveal_strlit("chrome_tab");
    assert("bilibili_video"@[9] != "bilibili_open"@[9]);
    assert("bilibili_video"@[0] != "chrome_new_tab"@[0]);
    assert("bilibili_video"@[0] != "chrome_tab"@[0]);
    assert("bilibili_open"@[0] != "chrome_new_tab"@[0]);
    assert("bilibili_open"@[0] != "chrome_tab"@[0]);
}

/// When no long enough part comes before ` | ` or ` · `, the primary title only ever drops
/// the last ` - ` part of the line (a site name): a shortened title is the trimmed text
/// before a ` - ` after which no further ` - ` occurs, at least four characters long, and
/// the dropped part is at most 28 characters once trimmed.
pub proof fn law_primary_title_drops_only_the_site_part(page_line: Seq<char>)
    requires
        long_left_of(trim(page_line), " | "@) is None,
        long_left_of(trim(page_line), " \u{b7} "@) is None,
    ensures
        chrome_primary_title_of(page_line) != trim(page_line) ==> exists|left: Seq<char>, right: Seq<char>|
            #![trigger trim(left), trim(right)]
            {
                &&& trim(page_line) == left + " - "@ + right
                &&& trim(left) == chrome_primary_title_of(page_line)
                &&& !contains_seq(right, " - "@)
                &&& chrome_primary_title_of(page_line).len() >= 4
                &&& trim(right).len() <= 28
            },
{
    let t = trim(page_line);
    let r = chrome_primary_title_of(page_line);
    if t.len() == 0 {
        assert(r =~= t);
    }
    if t.len() > 0 && r != t {
        let d = " - "@;
        reveal_strlit(" - ");
        match find_last(t, d) {
            Some(pos) => {
                assert(is_last_occurrence(t, d, pos));
                let left = t.subrange(0, pos);
                let right = t.subrange(pos + 3, t.len() as int);
                assert(t.subrange(pos, pos + 3) == d);
                assert(t =~= left + d + right);
                if contains_seq(right, d) {
                    let j = choose|j: int| occurs_at(right, d, j);
                    assert(t.subrange(pos + 3 + j, pos + 3 + j + 3) =~= right.subrange(j, j + 3));
                    assert(occurs_at(t, d, pos + 3 + j));
                }
                assert(trim(left) == r);
                assert(trim(page_line) == left + " - "@ + right && trim(left) == chrome_primary_title_of(page_line)
                    && !contains_seq(right, " - "@) && chrome_primary_title_of(page_line).len() >= 4 && trim(right).len()
                    <= 28);
            },
            None => {},
        }
    }
}

/// Whether to take a screenshot for a learning-focus moment now, and with which trigger.
///
/// `prev_full` is the previous full window title of the same executable, `None` when
/// there is none yet.
pub fn should_record_learning_focus_moment(
    full_title: &str,
    prev_full: Option<&str>,
    app_exe: &str,
) -> (r: Option<&'static str>)
    ensures
        opt_str_view(r) == learning_moment_trigger(full_title@, opt_str_view(prev_full), app_exe@),
{
    if chars_of(full_title).len() == 0 || !is_learning_focus_tracked_exe(app_exe) {
        return None;
    }
    if is_bilibili_title(full_title) {
        match prev_full {
            Some(p) => {
                if !str_eq(p, full_title) {
                    if is_bilibili_title(p) {
                        Some("bilibili_video")
                    } else {
                        Some("bilibili_open")
                    }
                } else {
                    None
                }
            },
            None => Some("bilibili_open"),
        }
    } else {
        match prev_full {
            Some(p) => {
                if !str_eq(p, full_title) {
                    let page = page_title_chars(chars_of(full_title).as_slice());
                    if is_blank_tab_chars(page.as_slice()) {
                        Some("chrome_new_tab")
                    } else {
                        Some("chrome_tab")
                    }
                } else {
                    None
                }
            },
            None => None,
        }
    }
}

// ---------------------------------------------------------------------------
// What a browser moment records
// ---------------------------------------------------------------------------

/// The text recorded with a browser moment, besides the screenshot.
#[derive(Debug, Clone, PartialEq, Eq)]
pub struct BrowserMomentText {
    /// The page line parsed from the window title.
    pub page_title: String,
    /// The learning topic; the page line itself when no topic could be read.
    pub learning_content: String,
    /// A short Chinese summary for display.
    pub summary: String,
    /// Keywords for the moment.
    pub keywords: Vec<String>,
}

/// The learning topic of a moment: the extracted content, or the page line when empty.
pub open spec fn moment_learning(trigger: Seq<char>, window_title: Seq<char>) -> Seq<char> {
    let page = page_title_line(window_title);
    let learning = learning_content_of(trigger, page);
    if learning.len() == 0 {
        page
    } else {
        learning
    }
}

/// Computes the text of a browser moment from its trigger and window title.
pub fn browser_moment_text(trigger: &str, window_title: &str) -> (r: BrowserMomentText)
    ensures
        r.page_title@ == page_title_line(window_title@),
        r.learning_content@ == moment_learning(trigger@, window_title@),
        r.summary@ == summary_of(trigger@, moment_learning(trigger@, window_title@)),
        r.keywords.deep_view() == heuristic_keywords_of(
            trigger@,
            moment_learning(trigger@, window_title@),
        ),
{
    let page = page_title_chars(chars_of(window_title).as_slice());
    let learning_chars = learning_content_chars(trigger, page.as_slice());
    let learning = if learning_chars.len() == 0 {
        string_from_chars(page.as_slice())
    } else {
        string_from_chars(learning_chars.as_slice())
    };
    let summary = summary_zh(trigger, learning.as_str());
    let keywords = heuristic_keywords(trigger, learning.as_str());
    BrowserMomentText {
        page_title: string_from_chars(page.as_slice()),
        learning_content: learning,
        summary,
        keywords,
    }
}

} // verus!

verus! {

// ---------------------------------------------------------------------------
// Laws
// ---------------------------------------------------------------------------

/// Every keyword in `out` is trimmed, non-empty, not a stop token and at most 24
/// characters long, and no keyword occurs twice.
pub open spec fn keyword_list_ok(out: Seq<Seq<char>>) -> bool {
    &&& out.no_duplicates()
    &&& forall|i: int|
        0 <= i < out.len() ==> {
            &&& trim(#[trigger] out[i]) == out[i]
            &&& out[i].len() > 0
            &&& !is_stop(out[i])
            &&& out[i].len() <= 24
        }
}

/// Offering a keyword keeps a well-formed keyword list well formed and adds at most one.
pub proof fn lemma_pushed_keyword_ok(out: Seq<Seq<char>>, s: Seq<char>)
    requires
        keyword_list_ok(out),
    ensures
        keyword_list_ok(pushed_keyword(out, s)),
        pushed_keyword(out, s).len() <= out.len() + 1,
        pushed_keyword(out, s).len() >= out.len(),
{
    let t = trim(s);
    crate::text::lemma_strip_idempotent(s, crate::text::ws());
    if !(t.len() == 0 || is_stop(t) || out.contains(t) || t.len() > 24) {
        let o = out.push(t);
        assert forall|i: int, j: int| 0 <= i < o.len() && 0 <= j < o.len() && i != j implies o[i]
            != o[j] by {
            if i == out.len() as int {
                assert(!out.contains(t));
            } else if j == out.len() as int {
                assert(!out.contains(t));
            }
        }
    }
}

proof fn lemma_pushed_until_full_ok(out: Seq<Seq<char>>, toks: Seq<Seq<char>>)
    requires
        keyword_list_ok(out),
    ensures
        keyword_list_ok(pushed_until_full(out, toks)),
        out.len() < 8 ==> pushed_until_full(out, toks).len() <= 8,
    decreases toks.len(),
{
    if toks.len() > 0 {
        lemma_pushed_keyword_ok(out, toks[0]);
        let o = pushed_keyword(out, toks[0]);
        if o.len() < 8 {
            lemma_pushed_until_full_ok(o, toks.drop_first());
        }
    }
}

/// The keywords of a browser moment are at most eight, pairwise distinct, trimmed, between
/// 2 and 24 characters each, and none is a stop token.
pub proof fn law_moment_keywords_well_formed(trigger: Seq<char>, learning: Seq<char>)
    ensures
        keyword_list_ok(heuristic_keywords_of(trigger, learning)),
        heuristic_keywords_of(trigger, learning).len() <= 8,
        heuristic_keywords_of(trigger, learning).no_duplicates(),
        forall|i: int|
            0 <= i < heuristic_keywords_of(trigger, learning).len() ==> {
                let k = #[trigger] heuristic_keywords_of(trigger, learning)[i];
                &&& trim(k) == k
                &&& 2 <= k.len() <= 24
                &&& !is_stop(k)
            },
{
    let e = Seq::<Seq<char>>::empty();
    assert(keyword_list_ok(e));
    lemma_pushed_keyword_ok(e, "哔哩哔哩"@);
    lemma_pushed_keyword_ok(pushed_keyword(e, "哔哩哔哩"@), "视频学习"@);
    lemma_pushed_keyword_ok(e, "Chrome"@);
    lemma_pushed_keyword_ok(pushed_keyword(e, "Chrome"@), "新标签"@);
    lemma_pushed_keyword_ok(pushed_keyword(e, "Chrome"@), "网页"@);
    let seeds = seed_keywords(trigger);
    assert(keyword_list_ok(seeds));
    assert(seeds.len() <= 2);
    lemma_pushed_until_full_ok(seeds, title_tokens(learning));
    let a = pushed_until_full(seeds, title_tokens(learning));
    let compact = if non_ws(learning).len() > 16 {
        non_ws(learning).take(16)
    } else {
        non_ws(learning)
    };
    lemma_pushed_keyword_ok(a, compact);
    let b = if a.len() < 3 && learning.len() >= 2 {
        if compact.len() >= 2 {
            pushed_keyword(a, compact)
        } else {
            a
        }
    } else {
        a
    };
    assert(keyword_list_ok(b));
    if b.len() > 8 {
        let c = b.take(8);
        assert forall|i: int| 0 <= i < c.len() implies c[i] == b[i] by {}
        assert(keyword_list_ok(c));
    }
    let ks = heuristic_keywords_of(trigger, learning);
    assert forall|i: int| 0 <= i < ks.len() implies 2 <= (#[trigger] ks[i]).len() by {
        assert(!is_stop(ks[i]));
        assert(trim(ks[i]) == ks[i]);
    }
}

/// The trigger's seed words, written out: bilibili triggers start with 哔哩哔哩 and 视频学习,
/// a new Chrome tab with Chrome and 新标签, a Chrome tab switch with Chrome and 网页, and
/// anything else with Chrome alone.
pub open spec fn seed_words(trigger: Seq<char>) -> Seq<Seq<char>> {
    if is_bilibili_trigger(trigger) {
        seq!["哔哩哔哩"@, "视频学习"@]
    } else if trigger == "chrome_new_tab"@ {
        seq!["Chrome"@, "新标签"@]
    } else if trigger == "chrome_tab"@ || trigger == "tab_switch"@ {
        seq!["Chrome"@, "网页"@]
    } else {
        seq!["Chrome"@]
    }
}

/// Each seed word is kept as it is when offered as a keyword.
proof fn lemma_seed_word_kept(w: Seq<char>)
    requires
        w == "哔哩哔哩"@ || w == "视频学习"@ || w == "Chrome"@ || w == "新标签"@ || w == "网页"@,
    ensures
        trim(w) == w,
        w.len() > 0,
        w.len() <= 24,
        !is_stop(w),
{
    reveal_strlit("哔哩哔哩");
    reveal_strlit("视频学习");
    reveal_strlit("Chrome");
    reveal_strlit("新标签");
    reveal_strlit("网页");
    reveal_strlit("的");
    reveal_strlit("了");
    reveal_strlit("和");
    reveal_strlit("与");
    reveal_strlit("或");
    reveal_strlit("在");
    reveal_strlit("是");
    reveal_strlit("为");
    reveal_strlit("这");
    reveal_strlit("那");
    reveal_strlit("我");
    reveal_strlit("你");
    reveal_strlit("他");
    reveal_strlit("她");
    reveal_strlit("它");
    reveal_strlit("吗");
    reveal_strlit("呢");
    reveal_strlit("吧");
    reveal_strlit("啊");
    reveal_strlit("之");
    reveal_strlit("等");
    reveal_strlit("及");
    reveal_strlit("被");
    reveal_strlit("从");
    reveal_strlit("让");
    reveal_strlit("将");
    reveal_strlit("对");
    reveal_strlit("把");
    reveal_strlit("到");
    reveal_strlit("也");
    reveal_strlit("个");
    reveal_strlit("中");
    reveal_strlit("上");
    reveal_strlit("下");
    reveal_strlit("第");
    reveal_strlit("集");
    reveal_strlit("期");
    reveal_strlit("官方");
    reveal_strlit("双语");
    reveal_strlit("视频");
    reveal_strlit("教程");
    reveal_strlit("合集");
    reveal_strlit("转载");
    reveal_strlit("the");
    reveal_strlit("and");
    reveal_strlit("for");
    reveal_strlit("with");
    reveal_strlit("from");
    reveal_strlit("this");
    reveal_strlit("that");
    lemma_strip_fixed(w, ws());
    assert(!stop_words().contains(w));
}

/// The seeds a trigger starts with are its seed words.
proof fn lemma_seed_keywords_are_seed_words(trigger: Seq<char>)
    ensures
        seed_keywords(trigger) == seed_words(trigger),
{
    reveal_strlit("哔哩哔哩");
    reveal_strlit("视频学习");
    reveal_strlit("Chrome");
    reveal_strlit("新标签");
    reveal_strlit("网页");
    let e = Seq::<Seq<char>>::empty();
    lemma_seed_word_kept("哔哩哔哩"@);
    lemma_seed_word_kept("视频学习"@);
    lemma_seed_word_kept("Chrome"@);
    lemma_seed_word_kept("新标签"@);
    lemma_seed_word_kept("网页"@);
    assert(pushed_keyword(e, "哔哩哔哩"@) =~= seq!["哔哩哔哩"@]);
    assert(pushed_keyword(e, "Chrome"@) =~= seq!["Chrome"@]);
    assert(!seq!["哔哩哔哩"@].contains("视频学习"@)) by {
        assert(seq!["哔哩哔哩"@][0] != "视频学习"@);
    }
    assert(!seq!["Chrome"@].contains("新标签"@)) by {
        assert(seq!["Chrome"@][0] != "新标签"@);
    }
    assert(!seq!["Chrome"@].contains("网页"@)) by {
        assert(seq!["Chrome"@][0] != "网页"@);
    }
    assert(pushed_keyword(seq!["哔哩哔哩"@], "视频学习"@) =~= seq!["哔哩哔哩"@, "视频学习"@]);
    assert(pushed_keyword(seq!["Chrome"@], "新标签"@) =~= seq!["Chrome"@, "新标签"@]);
    assert(pushed_keyword(seq!["Chrome"@], "网页"@) =~= seq!["Chrome"@, "网页"@]);
}

/// Offering keywords only ever adds to the end of the list.
proof fn lemma_pushed_until_full_extends(out: Seq<Seq<char>>, toks: Seq<Seq<char>>)
    ensures
        pushed_until_full(out, toks).len() >= out.len(),
        pushed_until_full(out, toks).take(out.len() as int) == out,
    decreases toks.len(),
{
    if toks.len() > 0 {
        let o = pushed_keyword(out, toks[0]);
        assert(o.take(out.len() as int) =~= out);
        if o.len() < 8 {
            lemma_pushed_until_full_extends(o, toks.drop_first());
            let r = pushed_until_full(o, toks.drop_first());
            assert(r.take(out.len() as int) =~= r.take(o.len() as int).take(out.len() as int));
        }
    } else {
        assert(out.take(out.len() as int) =~= out);
    }
}

/// The keywords of a browser moment start with the trigger's seed words, in order.
pub proof fn law_seed_words_come_first(trigger: Seq<char>, learning: Seq<char>)
    ensures
        heuristic_keywords_of(trigger, learning).len() >= seed_words(trigger).len(),
        heuristic_keywords_of(trigger, learning).take(seed_words(trigger).len() as int) == seed_words(trigger),
{
    lemma_seed_keywords_are_seed_words(trigger);
    let seeds = seed_words(trigger);
    let n = seeds.len() as int;
    assert(n <= 2);
    lemma_pushed_until_full_extends(seeds, title_tokens(learning));
    let a = pushed_until_full(seeds, title_tokens(learning));
    let compact = if non_ws(learning).len() > 16 {
        non_ws(learning).take(16)
    } else {
        non_ws(learning)
    };
    let b = if a.len() < 3 && learning.len() >= 2 {
        if compact.len() >= 2 {
            pushed_keyword(a, compact)
        } else {
            a
        }
    } else {
        a
    };
    assert(b.take(n) =~= a.take(n));
    if b.len() > 8 {
        assert(b.take(8).take(n) =~= b.take(n));
    }
}

/// A title that has not changed never records a moment, and nothing but Chrome with a
/// non-empty title ever does.
pub proof fn law_unchanged_title_records_nothing(full_title: Seq<char>, app_exe: Seq<char>, prev: Option<Seq<char>>)
    ensures
        learning_moment_trigger(full_title, Some(full_title), app_exe) is None,
        !is_chrome_exe_name(app_exe) ==> learning_moment_trigger(full_title, prev, app_exe) is None,
        full_title.len() == 0 ==> learning_moment_trigger(full_title, prev, app_exe) is None,
{
}

/// A first sighting of a Chrome title records a moment only on a bilibili page.
pub proof fn law_first_title_records_only_bilibili(full_title: Seq<char>, app_exe: Seq<char>)
    requires
        full_title.len() > 0,
        is_chrome_exe_name(app_exe),
    ensures
        learning_moment_trigger(full_title, None, app_exe) == (if is_bilibili_title_text(
            full_title,
        ) {
            Some("bilibili_open"@)
        } else {
            None
        }),
{
}

/// The page-title line of a window title is already trimmed.
pub proof fn law_page_title_line_trimmed(full: Seq<char>)
    ensures
        trim(page_title_line(full)) == page_title_line(full),
{
    match cut_first_found(full, browser_suffixes()) {
        Some(c) => crate::text::lemma_strip_idempotent(c, crate::text::ws()),
        None => crate::text::lemma_strip_idempotent(full, crate::text::ws()),
    }
}

} // verus!

verus! {

// ---------------------------------------------------------------------------
// Screenshots and events
// ---------------------------------------------------------------------------

/// Captures the client area of the foreground window as a PNG under the data directory.
/// Window capture needs the Win32 screen APIs, which this library does not reach on any
/// platform, so the capture is always reported as unsupported.
pub fn capture_foreground_window_png(name_prefix: &str) -> (r: Result<(String, u32, u32), crate::harness_core::error::HarnessError>)
    ensures
        r == Err::<(String, u32, u32), crate::harness_core::error::HarnessError>(
            crate::harness_core::error::HarnessError::UnsupportedPlatform,
        ),
{
    Err(crate::harness_core::error::HarnessError::UnsupportedPlatform)
}

/// The browser-moment event for a trigger and window title, given how the screenshot of
/// the window went: the screenshot's error, or the event with the moment's text, the
/// screenshot's relative path and size, happening now.
pub fn build_browser_moment_event(
    trigger: &str,
    browser_app: String,
    window_title: String,
    shot: Result<(String, u32, u32), crate::harness_core::error::HarnessError>,
) -> (r: Result<crate::harness_core::event::DesktopEvent, crate::harness_core::error::HarnessError>)
    ensures
        shot matches Err(e) ==> r == Err::<crate::harness_core::event::DesktopEvent, crate::harness_core::error::HarnessError>(e),
        shot matches Ok((rel, w, h)) ==> (r matches Ok(crate::harness_core::event::DesktopEvent::BrowserMoment {
            trigger: tr,
            browser_app: b,
            window_title: wt,
            page_title,
            learning_content,
            summary,
            keywords,
            image_rel,
            width_px,
            height_px,
            at,
        }) && tr@ == trigger@ && b == browser_app && wt == window_title && page_title@ == page_title_line(window_title@)
            && learning_content@ == moment_learning(trigger@, window_title@) && summary@ == summary_of(
            trigger@,
            moment_learning(trigger@, window_title@),
        ) && keywords.deep_view() == heuristic_keywords_of(trigger@, moment_learning(trigger@, window_title@))
            && image_rel == rel && width_px == w && height_px == h && at.wf()),
{
    match shot {
        Err(e) => Err(e),
        Ok((rel, w, h)) => {
            let text = browser_moment_text(trigger, window_title.as_str());
            Ok(
                crate::harness_core::event::DesktopEvent::browser_moment_now(
                    String::from_str(trigger),
                    browser_app,
                    window_title,
                    text.page_title,
                    text.learning_content,
                    text.summary,
                    text.keywords,
                    rel,
                    w,
                    h,
                ),
            )
        },
    }
}

} // verus!
