use crate::errors::AiError;
use crate::markdown::html_of;
use crate::model::{AiResponse, MistralMessage};
use vstd::prelude::*;

verus! {

/// One candidate completion.
pub struct MistralChoice {
    pub message: MistralMessage,
}

/// A decoded chat-completion answer; only its first choice is used.
pub struct MistralResponse {
    pub choices: Vec<MistralChoice>,
}

/// How the transport failed before any answer came.
pub enum TransportFailure {
    Timeout,
    Connect,
    Other { detail: String },
}

/// What came of sending one request.
pub enum Exchange {
    /// No answer: the transport failed.
    Failed(TransportFailure),
    /// An answer outside the success range, with its body when it could be read.
    Rejected { status: u16, body: Option<String> },
    /// A successful answer whose body was not a chat-completion answer.
    Malformed { detail: String },
    /// A successful, decoded answer.
    Answered(MistralResponse),
}

/// The placeholder for a rejection body that could not be read.
pub const UNKNOWN_ERROR: &'static str = "Unknown error";

/// Statuses from 200 to 299 are successes.
pub fn is_success_status(status: u16) -> (r: bool)
    ensures
        r == (200 <= status && status < 300),
{
    200 <= status && status < 300
}

/// The text of the first choice, if the answer holds one.
pub open spec fn first_content(resp: MistralResponse) -> Option<Seq<char>> {
    if resp.choices@.len() > 0 {
        Some(resp.choices@[0].message.content@)
    } else {
        None
    }
}

/// `r` is what the exchange `x` comes to.
pub open spec fn settles_to(x: Exchange, r: Result<String, AiError>) -> bool {
    match x {
        Exchange::Failed(TransportFailure::Timeout) => r == Err::<String, AiError>(AiError::Timeout),
        Exchange::Failed(TransportFailure::Connect) => r == Err::<String, AiError>(
            AiError::ConnectionFailure,
        ),
        Exchange::Failed(TransportFailure::Other { detail }) => r == Err::<String, AiError>(
            AiError::OtherNetwork { detail },
        ),
        Exchange::Rejected { status, body } => match r {
            Err(AiError::Provider { status: s, body: b }) => s == status && b@ == (match body {
                Some(t) => t@,
                None => UNKNOWN_ERROR@,
            }),
            _ => false,
        },
        Exchange::Malformed { detail } => r == Err::<String, AiError>(
            AiError::Deserialization { detail },
        ),
        Exchange::Answered(resp) => match first_content(resp) {
            Some(c) => r matches Ok(t) && t@ == c,
            None => r == Err::<String, AiError>(AiError::NoResponse),
        },
    }
}

/// The reply text of an exchange, or the error it comes to.
pub fn settle(x: Exchange) -> (r: Result<String, AiError>)
    ensures
        settles_to(x, r),
{
    match x {
        Exchange::Failed(TransportFailure::Timeout) => Err(AiError::Timeout),
        Exchange::Failed(TransportFailure::Connect) => Err(AiError::ConnectionFailure),
        Exchange::Failed(TransportFailure::Other { detail }) => Err(AiError::OtherNetwork { detail }),
        Exchange::Rejected { status, body } => {
            let body = match body {
                Some(t) => t,
                None => String::from_str(UNKNOWN_ERROR),
            };
            Err(AiError::Provider { status, body })
        },
        Exchange::Malformed { detail } => Err(AiError::Deserialization { detail }),
        Exchange::Answered(resp) => {
            let mut choices = resp.choices;
            if choices.len() == 0 {
                Err(AiError::NoResponse)
            } else {
                let choice = choices.remove(0);
                Ok(choice.message.content)
            }
        },
    }
}

/// The reply of an exchange with its markdown rendered, or the error it comes to.
pub fn settle_rendered(x: Exchange) -> (r: Result<AiResponse, AiError>)
    ensures
        match r {
            Ok(a) => settles_to(x, Ok(a.original)) && a.formatted@ == html_of(a.original@),
            Err(e) => settles_to(x, Err(e)),
        },
{
    match settle(x) {
        Ok(text) => Ok(AiResponse::from_markdown(text)),
        Err(e) => Err(e),
    }
}

} // verus!
