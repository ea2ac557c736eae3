use mistral_assistant::config::{
    AppConfig, DEFAULT_MAX_TOKENS, DEFAULT_MODEL, DEFAULT_OPTION_MODEL, DEFAULT_TEMPERATURE_BITS,
};
use mistral_assistant::errors::{AiError, Operation};
use mistral_assistant::model::{AiResponse, FrontendMessage, MistralMessage};
use mistral_assistant::reply::{
    is_success_status, settle, settle_rendered, Exchange, MistralChoice, MistralResponse,
    TransportFailure,
};
use mistral_assistant::request::{build_request, role_of_sender};
use mistral_assistant::service::{
    AiService, OPTION_EXTRACTION_PROMPT, REQUEST_TIMEOUT_SECS, ROLE_PROMPT,
};
use mistral_assistant::config::parse_u32;

fn turn(id: u64, text: &str, sender: &str) -> FrontendMessage {
    FrontendMessage { id, text: text.to_string(), sender: sender.to_string() }
}

fn config() -> AppConfig {
    AppConfig::from_values(Some("key".to_string()), None, None, None, None).unwrap()
}

fn answered(contents: &[&str]) -> Exchange {
    let choices = contents
        .iter()
        .map(|c| MistralChoice {
            message: MistralMessage { role: "assistant".to_string(), content: c.to_string() },
        })
        .collect();
    Exchange::Answered(MistralResponse { choices })
}

#[test]
fn build_request_prefixes_trimmed_system_prompt_and_maps_roles() {
    let turns = vec![turn(1, "hello", "user"), turn(2, "hi there", "bot"), turn(3, "ok", "user")];
    let r = build_request(&turns, Some("\u{3000} be brief\u{a0}\n"), &"m".to_string(), Some(10), Some(0.3f32.to_bits()));
    assert_eq!(r.messages.len(), 4);
    assert_eq!(r.messages[0].role, "system");
    assert_eq!(r.messages[0].content, "be brief");
    assert_eq!(r.messages[1].role, "user");
    assert_eq!(r.messages[1].content, "hello");
    assert_eq!(r.messages[2].role, "assistant");
    assert_eq!(r.messages[2].content, "hi there");
    assert_eq!(r.messages[3].role, "user");
    assert_eq!(r.model, "m");
    assert_eq!(r.max_tokens, Some(10));
    assert_eq!(r.temperature_bits, Some(0.3f32.to_bits()));
}

#[test]
fn build_request_without_system_prompt_has_one_message_per_turn() {
    let turns = vec![turn(1, "a", "assistant"), turn(2, "b", "User")];
    let r = build_request(&turns, None, &"m".to_string(), None, None);
    assert_eq!(r.messages.len(), 2);
    assert_eq!(r.messages[0].role, "assistant");
    assert_eq!(r.messages[1].role, "assistant");
    assert_eq!(r.max_tokens, None);
}

#[test]
fn sender_user_is_the_only_user_role() {
    assert_eq!(role_of_sender("user"), "user");
    assert_eq!(role_of_sender("users"), "assistant");
    assert_eq!(role_of_sender(""), "assistant");
}

#[test]
fn rendering_is_deterministic() {
    let a = AiResponse::from_markdown("# Title\n\n- [x] done\n\n~~old~~".to_string());
    let b = AiResponse::from_markdown("# Title\n\n- [x] done\n\n~~old~~".to_string());
    assert_eq!(a.formatted, b.formatted);
    assert!(a.formatted.contains("<h1>Title</h1>"));
    assert!(a.formatted.contains("<del>old</del>"));
}

#[test]
fn empty_conversation_is_refused_before_any_request() {
    let service = AiService::new(config());
    let r = service.chat_request(&vec![]);
    assert!(matches!(r, Err(AiError::EmptyInput)));
    assert_eq!(AiError::EmptyInput.message(Operation::Chat), "No messages provided");
}

#[test]
fn chat_request_uses_role_prompt_and_config() {
    let service = AiService::new(config());
    let r = service.chat_request(&vec![turn(1, "hello", "user")]).unwrap();
    assert_eq!(r.messages.len(), 2);
    assert_eq!(r.messages[0].role, "system");
    assert_eq!(r.messages[0].content, ROLE_PROMPT.trim());
    assert_eq!(r.messages[1].content, "hello");
    assert_eq!(r.model, DEFAULT_MODEL);
    assert_eq!(r.max_tokens, Some(1000));
    assert_eq!(r.temperature_bits, Some(0.7f32.to_bits()));
}

#[test]
fn successful_reply_is_rendered() {
    let r = settle_rendered(answered(&["**hi**"])).unwrap();
    assert_eq!(r.original, "**hi**");
    assert_eq!(r.formatted, "<p><strong>hi</strong></p>\n");
}

#[test]
fn only_the_first_choice_is_used() {
    let r = settle(answered(&["first", "second"])).unwrap();
    assert_eq!(r, "first");
}

#[test]
fn reply_without_choices_is_no_response() {
    let e = settle(answered(&[])).unwrap_err();
    assert!(matches!(e, AiError::NoResponse));
    assert_eq!(e.message(Operation::Chat), "No response from Mistral API");
    assert_eq!(
        e.message(Operation::OptionExtraction),
        "No response from Mistral API for option extraction"
    );
}

#[test]
fn unauthorized_reply_names_status_and_body() {
    let e = settle(Exchange::Rejected { status: 401, body: Some("invalid key".to_string()) })
        .unwrap_err();
    for op in [
        Operation::Chat,
        Operation::OptionExtraction,
        Operation::KnowledgeExtraction,
        Operation::KnowledgeDiscovery,
    ] {
        let m = e.message(op);
        assert!(m.contains("401"));
        assert!(m.contains("invalid key"));
    }
    assert_eq!(e.message(Operation::Chat), "Mistral API error 401: invalid key");
    assert_eq!(
        e.message(Operation::KnowledgeDiscovery),
        "Mistral API error during knowledge discovery 401: invalid key"
    );
}

#[test]
fn unreadable_rejection_body_is_unknown_error() {
    let e = settle(Exchange::Rejected { status: 503, body: None }).unwrap_err();
    assert_eq!(e.message(Operation::Chat), "Mistral API error 503: Unknown error");
}

#[test]
fn timeout_is_classified() {
    assert_eq!(REQUEST_TIMEOUT_SECS, 30);
    let e = settle(Exchange::Failed(TransportFailure::Timeout)).unwrap_err();
    assert!(matches!(e, AiError::Timeout));
    assert_eq!(e.message(Operation::Chat), "Request timed out - please try again");
    assert_eq!(
        e.message(Operation::OptionExtraction),
        "Option extraction timed out - please try again"
    );
}

#[test]
fn connection_and_other_failures_have_their_own_messages() {
    let e = settle(Exchange::Failed(TransportFailure::Connect)).unwrap_err();
    assert_eq!(
        e.message(Operation::KnowledgeExtraction),
        "Connection failed - check your internet connection"
    );
    let e = settle(Exchange::Failed(TransportFailure::Other { detail: "reset".to_string() }))
        .unwrap_err();
    assert_eq!(e.message(Operation::Chat), "Network error: reset");
    assert_eq!(
        e.message(Operation::KnowledgeExtraction),
        "Network error during knowledge extraction: reset"
    );
}

#[test]
fn malformed_reply_is_a_deserialization_error() {
    let e = settle(Exchange::Malformed { detail: "missing field".to_string() }).unwrap_err();
    assert_eq!(e.message(Operation::Chat), "Failed to parse response: missing field");
    assert_eq!(
        e.message(Operation::OptionExtraction),
        "Failed to parse option extraction response: missing field"
    );
}

#[test]
fn success_statuses() {
    assert!(is_success_status(200));
    assert!(is_success_status(299));
    assert!(!is_success_status(199));
    assert!(!is_success_status(300));
    assert!(!is_success_status(401));
}

#[test]
fn options_request_substitutes_message() {
    let service = AiService::new(config());
    let r = service.options_request("buy milk");
    assert_eq!(r.messages.len(), 1);
    assert_eq!(r.messages[0].role, "user");
    assert!(r.messages[0].content.contains("buy milk"));
    assert!(!r.messages[0].content.contains("{}"));
    assert_eq!(r.messages[0].content, OPTION_EXTRACTION_PROMPT.replacen("{}", "buy milk", 1));
    assert_eq!(r.temperature_bits, Some(0.1f32.to_bits()));
    assert_eq!(r.max_tokens, Some(200));
    assert_eq!(r.model, DEFAULT_OPTION_MODEL);
}

#[test]
fn knowledge_request_uses_fast_model() {
    let service = AiService::new(config());
    let r = service.knowledge_request("we talked about rust");
    assert!(r.messages[0].content.contains("we talked about rust"));
    assert_eq!(r.max_tokens, Some(500));
    assert_eq!(r.temperature_bits, Some(0.1f32.to_bits()));
    assert_eq!(r.model, DEFAULT_OPTION_MODEL);
}

#[test]
fn discovery_request_orders_its_parts() {
    let service = AiService::new(config());
    let r = service.discovery_request("earlier", "now");
    let c = &r.messages[0].content;
    let a = c.find("Previous conversation:\nearlier").unwrap();
    let b = c.find("User just said: now").unwrap();
    assert!(a < b);
    assert!(c.ends_with("\n\nRespond conversationally:"));
    assert_eq!(r.temperature_bits, Some(0.7f32.to_bits()));
    assert_eq!(r.max_tokens, Some(1000));
    assert_eq!(r.model, DEFAULT_MODEL);
}

#[test]
fn config_without_key_is_missing_credential() {
    let r = AppConfig::from_values(None, None, Some("5".to_string()), None, None);
    let e = r.err().unwrap();
    assert!(matches!(e, AiError::MissingCredential));
    assert_eq!(e.message(Operation::Chat), "Mistral API key not configured");
}

#[test]
fn config_with_bad_token_limit_falls_back() {
    let c = AppConfig::from_values(
        Some("key".to_string()),
        None,
        Some("not-a-number".to_string()),
        None,
        None,
    )
    .unwrap();
    assert_eq!(c.max_tokens, DEFAULT_MAX_TOKENS);
    assert_eq!(c.max_tokens, 1000);
    assert_eq!(c.temperature_bits, DEFAULT_TEMPERATURE_BITS);
    assert_eq!(f32::from_bits(c.temperature_bits), 0.7);
    assert_eq!(c.model, "mistral-small-2506");
    assert_eq!(c.option_model, "open-mistral-7b");
}

#[test]
fn config_takes_given_values() {
    let c = AppConfig::from_values(
        Some("key".to_string()),
        Some("big".to_string()),
        Some("+250".to_string()),
        Some((-0.5f32).to_bits()),
        Some("small".to_string()),
    )
    .unwrap();
    assert_eq!(c.mistral_api_key, "key");
    assert_eq!(c.model, "big");
    assert_eq!(c.max_tokens, 250);
    assert_eq!(f32::from_bits(c.temperature_bits), -0.5);
    assert_eq!(c.option_model, "small");
}

#[test]
fn parse_u32_reads_decimal_numbers() {
    assert_eq!(parse_u32("42"), Some(42));
    assert_eq!(parse_u32("+7"), Some(7));
    assert_eq!(parse_u32("007"), Some(7));
    assert_eq!(parse_u32("4294967295"), Some(4294967295));
    assert_eq!(parse_u32("4294967296"), None);
    assert_eq!(parse_u32(""), None);
    assert_eq!(parse_u32("+"), None);
    assert_eq!(parse_u32("-1"), None);
    assert_eq!(parse_u32(" 1"), None);
    assert_eq!(parse_u32("not-a-number"), None);
}

#[test]
fn rendered_reply_renders_to_itself() {
    let once = AiResponse::from_markdown("**hi**".to_string());
    let twice = AiResponse::from_markdown(once.formatted.clone());
    assert_eq!(twice.formatted, once.formatted);
}

#[test]
fn config_with_key_alone_takes_every_default() {
    let c = AppConfig::from_values(Some("k1".to_string()), None, None, None, None).unwrap();
    assert_eq!(c.mistral_api_key, "k1");
    assert_eq!(c.model, "mistral-small-2506");
    assert_eq!(c.max_tokens, 1000);
    assert_eq!(f32::from_bits(c.temperature_bits), 0.7);
    assert_eq!(c.option_model, "open-mistral-7b");
}

#[test]
fn config_with_negative_token_limit_falls_back() {
    // an unreadable temperature such as "warm" reaches the library as absent
    let c = AppConfig::from_values(Some("k1".to_string()), None, Some("-5".to_string()), None, None)
        .unwrap();
    assert_eq!(c.max_tokens, 1000);
    assert_eq!(c.temperature_bits, 0.7f32.to_bits());
}

#[test]
fn extraction_temperatures_are_the_documented_floats() {
    let service = AiService::new(config());
    assert_eq!(f32::from_bits(service.options_request("x").temperature_bits.unwrap()), 0.1);
    assert_eq!(f32::from_bits(service.discovery_request("a", "b").temperature_bits.unwrap()), 0.7);
}
