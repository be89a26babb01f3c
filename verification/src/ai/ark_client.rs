//! The Ark (Doubao) chat-completions client: what is taken from its replies and the
//! errors it reports. The HTTP exchange itself is done by the caller.

use vstd::prelude::*;

use crate::ai::client::{ChatRequest, ImageInput};
use crate::text::{chars_of, string_from_chars, trim, trimmed_chars_of};
use crate::utils::error::AppError;

verus! {

/// The most characters of an error reply's body that an error message quotes.
pub const ERROR_BODY_QUOTE_LEN: usize = 500;

/// `s` cut to its first `max` characters, with "..." after it when anything was cut.
pub open spec fn truncated(s: Seq<char>, max: int) -> Seq<char> {
    if s.len() <= max {
        s
    } else {
        s.take(max) + "..."@
    }
}

/// Cuts a text to at most `max` characters, marking a cut with "...".
pub fn truncate(s: &str, max: usize) -> (r: String)
    ensures
        r@ == truncated(s@, max as int),
{
    let v = chars_of(s);
    if v.len() <= max {
        String::from_str(s)
    } else {
        let mut head = crate::text::copy_range(v.as_slice(), 0, max);
        head.push('.');
        head.push('.');
        head.push('.');
        proof {
            reveal_strlit("...");
        }
        assert(head@ =~= s@.take(max as int) + "..."@);
        string_from_chars(head.as_slice())
    }
}

/// The content of the first choice of a reply, when it is not blank; the reply is
/// refused otherwise.
pub fn first_reply_content(contents: Vec<String>) -> (r: Result<String, AppError>)
    ensures
        r is Ok <==> contents@.len() > 0 && trim(contents@[0]@).len() > 0,
        r matches Ok(c) ==> c == contents@[0],
        r matches Err(e) ==> e matches AppError::AiResponseInvalid { message } && message@ == "方舟返回了空内容"@,
{
    let mut rest = contents;
    if rest.len() > 0 {
        let first = rest.remove(0);
        if trimmed_chars_of(first.as_str()).len() > 0 {
            return Ok(first);
        }
    }
    Err(AppError::AiResponseInvalid { message: String::from_str("方舟返回了空内容") })
}

/// One part of a message's content: a text, or an image by URL.
pub enum MessagePart {
    Text(String),
    ImageUrl(String),
}

/// What a user message carries: a plain text, or a list of parts.
pub enum MessageContent {
    Text(String),
    Parts(Vec<MessagePart>),
}

/// One message of a chat-completions request.
pub struct ChatMessage {
    pub role: String,
    pub content: MessageContent,
}

/// How many text parts lead the parts of a request with this text: one, unless the
/// text is empty.
pub open spec fn leading_text_parts(text: Seq<char>) -> int {
    if text.len() > 0 {
        1
    } else {
        0
    }
}

/// `part` is the image part for `image`.
pub open spec fn is_image_part_for(part: MessagePart, image: ImageInput) -> bool {
    part matches MessagePart::ImageUrl(u) && u@ == image.url@
}

/// `parts` are those of a request with `text` and `images`: the text first when it is
/// not empty, then one image part per image, in order.
pub open spec fn parts_of_request(parts: Seq<MessagePart>, text: Seq<char>, images: Seq<ImageInput>) -> bool {
    let k = leading_text_parts(text);
    &&& parts.len() == k + images.len()
    &&& k == 1 ==> (parts[0] matches MessagePart::Text(t) && t@ == text)
    &&& forall|i: int|
        0 <= i < images.len() ==> is_image_part_for(parts[k + i], #[trigger] images[i])
}

/// The messages of a chat-completions request: one user message, whose content is the
/// plain text when there are no images, and otherwise the text part (when the text is
/// not empty) followed by one image part per image.
pub fn build_messages(request: &ChatRequest) -> (r: Vec<ChatMessage>)
    ensures
        r@.len() == 1,
        r@[0].role@ == "user"@,
        request.images@.len() == 0 ==> (r@[0].content matches MessageContent::Text(t) && t@ == request.text@),
        request.images@.len() > 0 ==> (r@[0].content matches MessageContent::Parts(ps)
            && parts_of_request(ps@, request.text@, request.images@)),
{
    let role = String::from_str("user");
    let content = if request.images.len() == 0 {
        MessageContent::Text(String::from_str(request.text.as_str()))
    } else {
        let mut parts: Vec<MessagePart> = Vec::new();
        let k: usize = if request.text.as_str().unicode_len() > 0 {
            parts.push(MessagePart::Text(String::from_str(request.text.as_str())));
            1
        } else {
            0
        };
        let n = request.images.len();
        let mut i: usize = 0;
        while i < n
            invariant
                n == request.images@.len(),
                i <= n,
                k == leading_text_parts(request.text@),
                parts@.len() == k + i,
                k == 1 ==> (parts@[0] matches MessagePart::Text(t) && t@ == request.text@),
                forall|j: int|
                    0 <= j < i ==> is_image_part_for(parts@[k + j], #[trigger] request.images@[j]),
            decreases n - i,
        {
            let ghost before = parts@;
            let url = String::from_str(request.images[i].url.as_str());
            parts.push(MessagePart::ImageUrl(url));
            assert forall|j: int|
                0 <= j < i + 1 implies is_image_part_for(parts@[k + j], #[trigger] request.images@[j]) by {
                if j < i {
                    assert(parts@[k + j] == before[k + j]);
                }
            }
            i = i + 1;
        }
        MessageContent::Parts(parts)
    };
    proof {
        reveal_strlit("user");
    }
    let mut r: Vec<ChatMessage> = Vec::new();
    r.push(ChatMessage { role, content });
    r
}

/// `prefix` followed by `rest`.
fn joined(prefix: &str, rest: &str) -> (r: String)
    ensures
        r@ == prefix@ + rest@,
{
    let mut s = String::from_str(prefix);
    s.append(rest);
    s
}

/// The error for a reply with a failing HTTP status (`status` as the status displays),
/// quoting at most 500 characters of its body.
pub fn http_status_error(status: &str, body: &str) -> (r: AppError)
    ensures
        r matches AppError::AiUnavailable { message } && message@ == "Ark 返回 HTTP "@ + status@ + ": "@
            + truncated(body@, ERROR_BODY_QUOTE_LEN as int),
{
    let quoted = truncate(body, ERROR_BODY_QUOTE_LEN);
    let mut s = String::from_str("Ark 返回 HTTP ");
    s.append(status);
    s.append(": ");
    s.append(quoted.as_str());
    AppError::AiUnavailable { message: s }
}

/// The error for a request that got no reply: a timeout, or another failure described by
/// `detail`.
pub fn request_error(timed_out: bool, detail: &str) -> (r: AppError)
    ensures
        timed_out ==> r == AppError::AiTimeout,
        !timed_out ==> (r matches AppError::AiUnavailable { message } && message@ == "请求方舟失败: "@ + detail@),
{
    if timed_out {
        AppError::AiTimeout
    } else {
        AppError::AiUnavailable { message: joined("请求方舟失败: ", detail) }
    }
}

/// The error for a reply body that is not the expected JSON.
pub fn response_decode_error(detail: &str) -> (r: AppError)
    ensures
        r matches AppError::AiResponseInvalid { message } && message@ == "解析方舟响应失败: "@ + detail@,
{
    AppError::AiResponseInvalid { message: joined("解析方舟响应失败: ", detail) }
}

/// The error for an HTTP client that could not be set up.
pub fn client_init_error(detail: &str) -> (r: AppError)
    ensures
        r matches AppError::AiUnavailable { message } && message@ == "HTTP 客户端初始化失败: "@ + detail@,
{
    AppError::AiUnavailable { message: joined("HTTP 客户端初始化失败: ", detail) }
}

} // verus!
