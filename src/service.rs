use crate::config::AppConfig;
use crate::errors::AiError;
use crate::model::{FrontendMessage, MistralMessage};
use crate::request::{build_request, is_built_from, message_is, MistralRequest};
use crate::text::{contains_run, fill_placeholder, lemma_fill_contains_value, placeholder_at, substitute};
use vstd::prelude::*;

verus! {

/// The system prompt that opens every chat.
pub const ROLE_PROMPT: &'static str = "You are a thoughtful assistant inside a personal knowledge app. Answer clearly, use markdown for structure, and ask a short follow-up question when the user's goal is unclear.\n";

/// The option-extraction template; `{}` stands for the user's message.
pub const OPTION_EXTRACTION_PROMPT: &'static str = "List the distinct options or choices in the message below, one per line, with no other text. If there are none, reply NONE.\n\nMessage: {}";

/// The knowledge-extraction template; `{}` stands for the conversation.
pub const KNOWLEDGE_EXTRACTION_PROMPT: &'static str = "Extract the topics, facts and interests in the conversation below as short tags, one per line, with no other text.\n\nConversation: {}";

/// The instruction that opens a knowledge-discovery request.
pub const KNOWLEDGE_DISCOVERY_PROMPT: &'static str = "You help the user discover what they know and want to learn. Build on the conversation so far and ask one open question that goes deeper.";

/// Token limit of an option extraction.
pub const OPTION_MAX_TOKENS: u32 = 200;

/// Token limit of a knowledge extraction.
pub const KNOWLEDGE_MAX_TOKENS: u32 = 500;

/// Temperature of both extractions: 0.1, as the bits of an `f32`.
pub const EXTRACTION_TEMPERATURE_BITS: u32 = 1036831949;

/// Temperature of knowledge discovery: 0.7, as the bits of an `f32`.
pub const DISCOVERY_TEMPERATURE_BITS: u32 = 1060320051;

/// Seconds a request may take before it counts as timed out.
pub const REQUEST_TIMEOUT_SECS: u64 = 30;

/// The chat-completion endpoint of the provider.
pub const CHAT_COMPLETIONS_URL: &'static str = "https://api.mistral.ai/v1/chat/completions";

/// `r` asks `model` one question as the user, with these limits.
pub open spec fn is_single_prompt(
    r: MistralRequest,
    content: Seq<char>,
    model: Seq<char>,
    max_tokens: u32,
    temperature_bits: u32,
) -> bool {
    &&& r.model@ == model
    &&& r.messages@.len() == 1
    &&& message_is(r.messages@[0], "user"@, content)
    &&& r.max_tokens == Some(max_tokens)
    &&& r.temperature_bits == Some(temperature_bits)
}

/// The text of a knowledge-discovery request.
pub open spec fn discovery_text(context: Seq<char>, input: Seq<char>) -> Seq<char> {
    KNOWLEDGE_DISCOVERY_PROMPT@ + "\n\nPrevious conversation:\n"@ + context + "\n\nUser just said: "@
        + input + "\n\nRespond conversationally:"@
}

/// Talks to the provider on behalf of the four operations, with fixed settings.
pub struct AiService {
    pub config: AppConfig,
}

fn single_prompt_request(
    content: String,
    model: &String,
    max_tokens: u32,
    temperature_bits: u32,
) -> (r: MistralRequest)
    ensures
        is_single_prompt(r, content@, model@, max_tokens, temperature_bits),
{
    let mut messages: Vec<MistralMessage> = Vec::new();
    messages.push(MistralMessage { role: String::from_str("user"), content });
    MistralRequest {
        model: model.clone(),
        messages,
        max_tokens: Some(max_tokens),
        temperature_bits: Some(temperature_bits),
    }
}

impl AiService {
    pub fn new(config: AppConfig) -> (r: AiService)
        ensures
            r.config == config,
    {
        AiService { config }
    }

    /// The request of a chat: the system prompt, then the conversation, with the
    /// configured model and limits. An empty conversation is refused.
    pub fn chat_request(&self, messages: &Vec<FrontendMessage>) -> (r: Result<MistralRequest, AiError>)
        ensures
            messages@.len() == 0 <==> r is Err,
            r matches Err(e) ==> e == AiError::EmptyInput,
            r matches Ok(q) ==> is_built_from(
                q,
                messages@,
                Some(ROLE_PROMPT),
                self.config.model@,
                Some(self.config.max_tokens),
                Some(self.config.temperature_bits),
            ),
    {
        if messages.len() == 0 {
            return Err(AiError::EmptyInput);
        }
        Ok(
            build_request(
                messages,
                Some(ROLE_PROMPT),
                &self.config.model,
                Some(self.config.max_tokens),
                Some(self.config.temperature_bits),
            ),
        )
    }

    /// The request that asks the fast model for the options in a message.
    pub fn options_request(&self, message: &str) -> (r: MistralRequest)
        ensures
            is_single_prompt(
                r,
                fill_placeholder(OPTION_EXTRACTION_PROMPT@, message@),
                self.config.option_model@,
                OPTION_MAX_TOKENS,
                EXTRACTION_TEMPERATURE_BITS,
            ),
    {
        let content = substitute(OPTION_EXTRACTION_PROMPT, message);
        single_prompt_request(
            content,
            &self.config.option_model,
            OPTION_MAX_TOKENS,
            EXTRACTION_TEMPERATURE_BITS,
        )
    }

    /// The request that asks the fast model for the knowledge in a conversation.
    pub fn knowledge_request(&self, conversation: &str) -> (r: MistralRequest)
        ensures
            is_single_prompt(
                r,
                fill_placeholder(KNOWLEDGE_EXTRACTION_PROMPT@, conversation@),
                self.config.option_model@,
                KNOWLEDGE_MAX_TOKENS,
                EXTRACTION_TEMPERATURE_BITS,
            ),
    {
        let content = substitute(KNOWLEDGE_EXTRACTION_PROMPT, conversation);
        single_prompt_request(
            content,
            &self.config.option_model,
            KNOWLEDGE_MAX_TOKENS,
            EXTRACTION_TEMPERATURE_BITS,
        )
    }

    /// The request that continues a conversation towards what the user knows.
    pub fn discovery_request(&self, conversation_context: &str, user_input: &str) -> (r:
        MistralRequest)
        ensures
            is_single_prompt(
                r,
                discovery_text(conversation_context@, user_input@),
                self.config.model@,
                self.config.max_tokens,
                DISCOVERY_TEMPERATURE_BITS,
            ),
    {
        let mut content = String::from_str(KNOWLEDGE_DISCOVERY_PROMPT);
        content.append("\n\nPrevious conversation:\n");
        content.append(conversation_context);
        content.append("\n\nUser just said: ");
        content.append(user_input);
        content.append("\n\nRespond conversationally:");
        single_prompt_request(
            content,
            &self.config.model,
            self.config.max_tokens,
            DISCOVERY_TEMPERATURE_BITS,
        )
    }
}

/// An option-extraction request is one message that holds the user's text
/// inside the extraction template, at temperature 0.1 with at most 200 tokens.
pub proof fn lemma_options_request_carries_message(
    r: MistralRequest,
    message: Seq<char>,
    model: Seq<char>,
)
    requires
        is_single_prompt(
            r,
            fill_placeholder(OPTION_EXTRACTION_PROMPT@, message),
            model,
            OPTION_MAX_TOKENS,
            EXTRACTION_TEMPERATURE_BITS,
        ),
    ensures
        r.messages@.len() == 1,
        contains_run(r.messages@[0].content@, message),
        r.temperature_bits == Some(EXTRACTION_TEMPERATURE_BITS),
        r.max_tokens == Some(200u32),
{
    reveal_strlit("List the distinct options or choices in the message below, one per line, with no other text. If there are none, reply NONE.\n\nMessage: {}");
    assert(placeholder_at(OPTION_EXTRACTION_PROMPT@, 134));
    lemma_fill_contains_value(OPTION_EXTRACTION_PROMPT@, message, 134);
}

} // verus!
