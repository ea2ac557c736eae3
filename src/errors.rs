use crate::text::{contains_run, decimal_of, decimal_text};
use vstd::prelude::*;

verus! {

/// The four operations of the assistant; error messages name the one that failed.
#[derive(Clone, Copy, PartialEq, Eq, Structural, Debug)]
pub enum Operation {
    Chat,
    OptionExtraction,
    KnowledgeExtraction,
    KnowledgeDiscovery,
}

/// Everything that can go wrong, one variant per kind of failure.
#[derive(Debug)]
pub enum AiError {
    /// No API key is configured.
    MissingCredential,
    /// A chat was asked for with no messages.
    EmptyInput,
    /// The provider did not answer in time.
    Timeout,
    /// No connection to the provider could be made.
    ConnectionFailure,
    /// Any other transport failure, with its description.
    OtherNetwork { detail: String },
    /// The provider answered with a status outside the success range.
    Provider { status: u16, body: String },
    /// The provider's answer did not have the expected shape.
    Deserialization { detail: String },
    /// The provider's answer held no choice.
    NoResponse,
}

/// The message of a timeout.
pub open spec fn timeout_text(op: Operation) -> Seq<char> {
    match op {
        Operation::Chat => "Request timed out - please try again"@,
        Operation::OptionExtraction => "Option extraction timed out - please try again"@,
        Operation::KnowledgeExtraction => "Knowledge extraction timed out - please try again"@,
        Operation::KnowledgeDiscovery => "Knowledge discovery timed out - please try again"@,
    }
}

/// The words that place a failure in an operation other than chat.
pub open spec fn during_text(op: Operation) -> Seq<char> {
    match op {
        Operation::Chat => ""@,
        Operation::OptionExtraction => " during option extraction"@,
        Operation::KnowledgeExtraction => " during knowledge extraction"@,
        Operation::KnowledgeDiscovery => " during knowledge discovery"@,
    }
}

/// The kind of answer that could not be read.
pub open spec fn answer_text(op: Operation) -> Seq<char> {
    match op {
        Operation::Chat => "response: "@,
        Operation::OptionExtraction => "option extraction response: "@,
        Operation::KnowledgeExtraction => "knowledge extraction response: "@,
        Operation::KnowledgeDiscovery => "knowledge discovery response: "@,
    }
}

/// The words that name the operation that got no answer.
pub open spec fn missing_text(op: Operation) -> Seq<char> {
    match op {
        Operation::Chat => ""@,
        Operation::OptionExtraction => " for option extraction"@,
        Operation::KnowledgeExtraction => " for knowledge extraction"@,
        Operation::KnowledgeDiscovery => " for knowledge discovery"@,
    }
}

/// The message shown for an error that happened in an operation.
pub open spec fn error_text(e: AiError, op: Operation) -> Seq<char> {
    match e {
        AiError::MissingCredential => "Mistral API key not configured"@,
        AiError::EmptyInput => "No messages provided"@,
        AiError::Timeout => timeout_text(op),
        AiError::ConnectionFailure => "Connection failed - check your internet connection"@,
        AiError::OtherNetwork { detail } => "Network error"@ + during_text(op) + ": "@ + detail@,
        AiError::Provider { status, body } => "Mistral API error"@ + during_text(op) + " "@
            + decimal_of(status as nat) + ": "@ + body@,
        AiError::Deserialization { detail } => "Failed to parse "@ + answer_text(op) + detail@,
        AiError::NoResponse => "No response from Mistral API"@ + missing_text(op),
    }
}

/// Whatever the operation, the message of a rejected request names the status
/// code and holds the body that came with it.
pub proof fn lemma_provider_error_names_status_and_body(status: u16, body: String, op: Operation)
    ensures
        contains_run(error_text(AiError::Provider { status, body }, op), decimal_of(status as nat)),
        contains_run(error_text(AiError::Provider { status, body }, op), body@),
{
    let d = decimal_of(status as nat);
    let a = "Mistral API error"@ + during_text(op) + " "@;
    let b = a + d + ": "@;
    let m = error_text(AiError::Provider { status, body }, op);
    assert(m == b + body@);
    assert(m.subrange(a.len() as int, (a.len() as int) + d.len()) =~= d);
    assert(m.subrange(b.len() as int, (b.len() as int) + body@.len()) =~= body@);
}

fn timeout_str(op: Operation) -> (r: &'static str)
    ensures
        r@ == timeout_text(op),
{
    match op {
        Operation::Chat => "Request timed out - please try again",
        Operation::OptionExtraction => "Option extraction timed out - please try again",
        Operation::KnowledgeExtraction => "Knowledge extraction timed out - please try again",
        Operation::KnowledgeDiscovery => "Knowledge discovery timed out - please try again",
    }
}

fn during_str(op: Operation) -> (r: &'static str)
    ensures
        r@ == during_text(op),
{
    match op {
        Operation::Chat => "",
        Operation::OptionExtraction => " during option extraction",
        Operation::KnowledgeExtraction => " during knowledge extraction",
        Operation::KnowledgeDiscovery => " during knowledge discovery",
    }
}

fn answer_str(op: Operation) -> (r: &'static str)
    ensures
        r@ == answer_text(op),
{
    match op {
        Operation::Chat => "response: ",
        Operation::OptionExtraction => "option extraction response: ",
        Operation::KnowledgeExtraction => "knowledge extraction response: ",
        Operation::KnowledgeDiscovery => "knowledge discovery response: ",
    }
}

fn missing_str(op: Operation) -> (r: &'static str)
    ensures
        r@ == missing_text(op),
{
    match op {
        Operation::Chat => "",
        Operation::OptionExtraction => " for option extraction",
        Operation::KnowledgeExtraction => " for knowledge extraction",
        Operation::KnowledgeDiscovery => " for knowledge discovery",
    }
}

impl AiError {
    /// The message that tells the user what went wrong in `op`.
    pub fn message(&self, op: Operation) -> (r: String)
        ensures
            r@ == error_text(*self, op),
    {
        match self {
            AiError::MissingCredential => String::from_str("Mistral API key not configured"),
            AiError::EmptyInput => String::from_str("No messages provided"),
            AiError::Timeout => String::from_str(timeout_str(op)),
            AiError::ConnectionFailure => String::from_str(
                "Connection failed - check your internet connection",
            ),
            AiError::OtherNetwork { detail } => {
                let mut r = String::from_str("Network error");
                r.append(during_str(op));
                r.append(": ");
                r.append(detail.as_str());
                r
            },
            AiError::Provider { status, body } => {
                let mut r = String::from_str("Mistral API error");
                r.append(during_str(op));
                r.append(" ");
                let code = decimal_text(*status as u64);
                r.append(code.as_str());
                r.append(": ");
                r.append(body.as_str());
                r
            },
            AiError::Deserialization { detail } => {
                let mut r = String::from_str("Failed to parse ");
                r.append(answer_str(op));
                r.append(detail.as_str());
                r
            },
            AiError::NoResponse => {
                let mut r = String::from_str("No response from Mistral API");
                r.append(missing_str(op));
                r
            },
        }
    }
}

} // verus!
