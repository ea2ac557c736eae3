//! Backend logic of a desktop chat assistant: it turns conversation turns into
//! chat-completion requests, decides what a provider's reply means, and renders
//! the reply's markdown to HTML.
pub mod config;
pub mod errors;
pub mod markdown;
pub mod model;
pub mod reply;
pub mod request;
pub mod service;
pub mod text;

pub use markdown::html_of;
pub use model::{AiResponse, FrontendMessage, MistralMessage};
pub use request::{build_request, MistralRequest};
pub use config::{parse_u32, AppConfig};
pub use errors::{AiError, Operation};
pub use reply::{
    is_success_status, settle, settle_rendered, Exchange, MistralChoice, MistralResponse,
    TransportFailure,
};
pub use service::AiService;
