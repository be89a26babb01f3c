//! The offline model client used in development and tests.

use vstd::prelude::*;

use crate::utils::error::AppError;

verus! {

/// The fixed reply of the offline client: one complete card in the older reply form.
pub const MOCK_REPLY: &'static str = "\n        {\n          \"cards\": [\n            {\n              \"keyword\": \"示例关键词\",\n              \"definition\": \"这是一张用于开发调试的 Mock 知识卡片\",\n              \"explanation\": \"当未配置真实 LLM 时，系统会返回这张固定卡片，便于前后端联调与自动化测试。\",\n              \"relatedTerms\": [\"Mock\", \"联调\", \"本地开发\"],\n              \"scenarios\": [\"单元测试\", \"集成测试\", \"无网络演示\"],\n              \"sourceExcerpt\": \"由 MockLlmClient 返回，无真实来源\"\n            }\n          ]\n        }\n        ";

/// A model client that never goes online and always gives the same reply, so that the
/// whole generation path runs without an API key.
#[derive(Debug, Clone, Copy, PartialEq, Eq, Structural)]
pub struct MockLlmClient;

/// One image handed to a vision model, by URL (an http(s) address or a data URL).
pub struct ImageInput {
    pub url: String,
}

impl ImageInput {
    /// An image input for `url`.
    pub fn new(url: &str) -> (r: ImageInput)
        ensures
            r.url@ == url@,
    {
        ImageInput { url: String::from_str(url) }
    }
}

/// A chat request: an instruction text and the images that go with it.
pub struct ChatRequest {
    pub text: String,
    pub images: Vec<ImageInput>,
}

impl ChatRequest {
    /// A request of text alone.
    pub fn from_text(text: &str) -> (r: ChatRequest)
        ensures
            r.text@ == text@,
            r.images@.len() == 0,
    {
        ChatRequest { text: String::from_str(text), images: Vec::new() }
    }

    /// The same request with `images` in place of the images it had.
    pub fn with_images(self, images: Vec<ImageInput>) -> (r: ChatRequest)
        ensures
            r.text == self.text,
            r.images == images,
    {
        ChatRequest { text: self.text, images }
    }
}

impl Default for ChatRequest {
    /// An empty request: no text and no images.
    fn default() -> (r: ChatRequest)
        ensures
            r.text@.len() == 0,
            r.images@.len() == 0,
    {
        ChatRequest { text: String::new(), images: Vec::new() }
    }
}

impl MockLlmClient {
    /// The reply to any prompt: always `MOCK_REPLY`.
    pub fn complete(&self, prompt: &str) -> (r: Result<String, AppError>)
        ensures
            r matches Ok(s) && s@ == MOCK_REPLY@,
    {
        Ok(String::from_str(MOCK_REPLY))
    }
}

} // verus!
