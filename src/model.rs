use crate::markdown::{html_of, markdown_to_html};
use vstd::prelude::*;

verus! {

/// One message in the provider's chat schema.
pub struct MistralMessage {
    pub role: String,
    pub content: String,
}

/// One conversation turn as the frontend sends it.
pub struct FrontendMessage {
    pub id: u64,
    pub text: String,
    pub sender: String,
}

/// A reply: the raw markdown and the HTML rendered from it.
pub struct AiResponse {
    pub original: String,
    pub formatted: String,
}

impl AiResponse {
    /// Pairs a markdown reply with its HTML rendering.
    pub fn from_markdown(original: String) -> (r: AiResponse)
        ensures
            r.original@ == original@,
            r.formatted@ == html_of(original@),
    {
        let formatted = markdown_to_html(original.as_str());
        AiResponse { original, formatted }
    }
}

} // verus!
