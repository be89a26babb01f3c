//! The Ark client's settings, read from the environment: defaults, and how the values
//! are cleaned up.

use vstd::prelude::*;

use crate::text::{opt_chars, string_from_chars, strip_end, trim, trim_end_char, trimmed_chars_of};
use crate::utils::error::AppError;

verus! {

/// The default API base (the Beijing region).
pub const DEFAULT_API_BASE: &'static str = "https://ark.cn-beijing.volces.com/api/v3";
/// The default model id.
pub const DEFAULT_MODEL: &'static str = "doubao-seed-2-0-lite-260215";
/// The default timeout of a text-only request, in milliseconds.
pub const DEFAULT_TEXT_TIMEOUT_MS: u64 = 90_000;
/// The default timeout of a request with images, in milliseconds.
pub const DEFAULT_VISION_TIMEOUT_MS: u64 = 180_000;
/// The default timeout for connecting, in milliseconds.
pub const DEFAULT_CONNECT_TIMEOUT_MS: u64 = 15_000;

/// An environment value as used: trimmed, and absent when blank.
pub open spec fn setting_value(v: Option<Seq<char>>) -> Option<Seq<char>> {
    match v {
        Some(s) => if trim(s).len() > 0 {
            Some(trim(s))
        } else {
            None
        },
        None => None,
    }
}

/// An environment value as used.
pub fn non_empty_setting(v: Option<String>) -> (r: Option<String>)
    ensures
        opt_chars(r) == setting_value(opt_chars(v)),
{
    match v {
        Some(s) => {
            let t = trimmed_chars_of(s.as_str());
            if t.len() > 0 {
                Some(string_from_chars(t.as_slice()))
            } else {
                None
            }
        },
        None => None,
    }
}

/// Whether a character is an ASCII digit.
pub open spec fn is_ascii_digit(c: char) -> bool {
    '0' <= c <= '9'
}

/// The value of a run of ASCII digits.
pub open spec fn digits_value(ds: Seq<char>) -> int
    decreases ds.len(),
{
    if ds.len() == 0 {
        0
    } else {
        digits_value(ds.drop_last()) * 10 + (ds.last() as int - '0' as int)
    }
}

/// The text after an optional leading `+`.
pub open spec fn unsigned_digits(s: Seq<char>) -> Seq<char> {
    if s.len() > 0 && s[0] == '+' {
        s.drop_first()
    } else {
        s
    }
}

/// Every character is an ASCII digit.
pub open spec fn all_ascii_digits(ds: Seq<char>) -> bool {
    forall|i: int| 0 <= i < ds.len() ==> is_ascii_digit(#[trigger] ds[i])
}

/// What `str::parse::<u64>` gives: an optional `+` followed by one or more ASCII digits
/// whose value fits in a `u64`; anything else (signs, blanks, other characters, overflow)
/// fails.
pub open spec fn u64_from_text(s: Seq<char>) -> Option<u64> {
    let ds = unsigned_digits(s);
    if ds.len() > 0 && all_ascii_digits(ds) && digits_value(ds) <= u64::MAX {
        Some(digits_value(ds) as u64)
    } else {
        None
    }
}

/// Reading more digits never lowers the value read so far.
proof fn lemma_digits_value_grows(ds: Seq<char>, j: int, k: int)
    requires
        0 <= j <= k <= ds.len(),
        forall|i: int| 0 <= i < k ==> is_ascii_digit(#[trigger] ds[i]),
    ensures
        0 <= digits_value(ds.take(j)) <= digits_value(ds.take(k)),
    decreases k,
{
    if k > 0 {
        assert(ds.take(k).drop_last() =~= ds.take(k - 1));
        assert(ds.take(k).last() == ds[k - 1]);
        if j == k {
            lemma_digits_value_grows(ds, k - 1, k - 1);
        } else {
            lemma_digits_value_grows(ds, j, k - 1);
        }
    }
}

/// Reads a decimal `u64` as `str::parse::<u64>` does: an optional `+`, then one or more
/// ASCII digits whose value fits in a `u64`.
fn parse_u64(s: &str) -> (r: Option<u64>)
    ensures
        r == u64_from_text(s@),
{
    let v = crate::text::chars_of(s);
    let start: usize = if v.len() > 0 && v[0] == '+' {
        1
    } else {
        0
    };
    let ghost ds = unsigned_digits(s@);
    assert(ds =~= v@.subrange(start as int, v@.len() as int));
    if v.len() == start {
        return None;
    }
    let mut acc: u64 = 0;
    let mut i: usize = start;
    assert(ds.take(0) =~= Seq::<char>::empty());
    while i < v.len()
        invariant
            start <= i <= v@.len(),
            v@ == s@,
            ds == v@.subrange(start as int, v@.len() as int),
            ds == unsigned_digits(s@),
            forall|j: int| 0 <= j < i - start ==> is_ascii_digit(#[trigger] ds[j]),
            acc == digits_value(ds.take(i - start)),
        decreases v@.len() - i,
    {
        let c = v[i];
        let ghost k: int = i - start;
        assert(ds[k] == c);
        if !('0' <= c && c <= '9') {
            assert(!is_ascii_digit(ds[k]));
            assert(!all_ascii_digits(ds));
            return None;
        }
        assert(ds.take(k + 1).drop_last() =~= ds.take(k));
        assert(ds.take(k + 1).last() == c);
        let d: u64 = (c as u32 - '0' as u32) as u64;
        assert(d == c as int - '0' as int);
        assert(digits_value(ds.take(k + 1)) == acc * 10 + d);
        match acc.checked_mul(10) {
            Some(m) => match m.checked_add(d) {
                Some(n) => {
                    acc = n;
                },
                None => {
                    proof {
                        if all_ascii_digits(ds) {
                            lemma_digits_value_grows(ds, k + 1, ds.len() as int);
                            assert(ds.take(ds.len() as int) =~= ds);
                        }
                    }
                    return None;
                },
            },
            None => {
                proof {
                    lemma_digits_value_grows(ds, k, k);
                    if all_ascii_digits(ds) {
                        lemma_digits_value_grows(ds, k + 1, ds.len() as int);
                        assert(ds.take(ds.len() as int) =~= ds);
                    }
                }
                return None;
            },
        }
        i += 1;
    }
    assert(ds.take(ds.len() as int) =~= ds);
    Some(acc)
}

/// A number of milliseconds read from the environment: the trimmed value when it parses
/// as a `u64`, else absent.
pub fn env_u64(v: Option<String>) -> (r: Option<u64>)
    ensures
        r == match setting_value(opt_chars(v)) {
            Some(t) => u64_from_text(t),
            None => None,
        },
{
    match non_empty_setting(v) {
        Some(t) => parse_u64(t.as_str()),
        None => None,
    }
}

/// The API base as used: without trailing slashes.
pub fn normalize_api_base(base: &str) -> (r: String)
    ensures
        r@ == strip_end(base@, |c: char| c == '/'),
{
    let v = crate::text::chars_of(base);
    let t = trim_end_char(v.as_slice(), '/');
    string_from_chars(t.as_slice())
}

/// The chat-completions endpoint under an API base.
pub fn chat_completions_url(api_base: &str) -> (r: String)
    ensures
        r@ == api_base@ + "/chat/completions"@,
{
    let mut s = String::from_str(api_base);
    s.append("/chat/completions");
    s
}

/// The timeout of a request: the vision timeout when it carries images, else the text one.
pub fn timeout_for(text_timeout_ms: u64, vision_timeout_ms: u64, has_images: bool) -> (r: u64)
    ensures
        r == if has_images {
            vision_timeout_ms
        } else {
            text_timeout_ms
        },
{
    if has_images {
        vision_timeout_ms
    } else {
        text_timeout_ms
    }
}

/// The error when no API key is set.
pub fn missing_api_key_error() -> (r: AppError)
    ensures
        r matches AppError::AiUnavailable { message } && message@ == "ARK_API_KEY 未设置，请在 .env 或运行环境中提供"@,
{
    AppError::AiUnavailable { message: String::from_str("ARK_API_KEY 未设置，请在 .env 或运行环境中提供") }
}

} // verus!
