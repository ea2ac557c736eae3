use crate::model::{FrontendMessage, MistralMessage};
use crate::text::{same_text, trimmed, trim_text};
use vstd::prelude::*;

verus! {

/// A chat-completion request. The temperature is kept as the IEEE 754 bits of
/// the `f32` that is sent.
pub struct MistralRequest {
    pub model: String,
    pub messages: Vec<MistralMessage>,
    pub max_tokens: Option<u32>,
    pub temperature_bits: Option<u32>,
}

/// The provider role of a turn: `user` for the user's own turns, `assistant`
/// for every other sender.
pub open spec fn role_for(sender: Seq<char>) -> Seq<char> {
    if sender == "user"@ {
        "user"@
    } else {
        "assistant"@
    }
}

/// `m` carries this role and this content.
pub open spec fn message_is(m: MistralMessage, role: Seq<char>, content: Seq<char>) -> bool {
    m.role@ == role && m.content@ == content
}

/// How many messages precede the turns: one for a system prompt.
pub open spec fn prefix_len(system_prompt: Option<&str>) -> int {
    if system_prompt is Some {
        1
    } else {
        0
    }
}

/// `r` is the request built from these turns and settings.
pub open spec fn is_built_from(
    r: MistralRequest,
    turns: Seq<FrontendMessage>,
    system_prompt: Option<&str>,
    model: Seq<char>,
    max_tokens: Option<u32>,
    temperature_bits: Option<u32>,
) -> bool {
    let off = prefix_len(system_prompt);
    &&& r.model@ == model
    &&& r.max_tokens == max_tokens
    &&& r.temperature_bits == temperature_bits
    &&& r.messages@.len() == turns.len() + off
    &&& (system_prompt matches Some(p) ==> message_is(
        r.messages@[0],
        "system"@,
        trimmed(p@),
    ))
    &&& forall|j: int|
        0 <= j < turns.len() ==> #[trigger] message_is(
            r.messages@[j + off],
            role_for(turns[j].sender@),
            turns[j].text@,
        )
}

/// The provider role for a sender.
pub fn role_of_sender(sender: &str) -> (r: String)
    ensures
        r@ == role_for(sender@),
{
    if same_text(sender, "user") {
        String::from_str("user")
    } else {
        String::from_str("assistant")
    }
}

/// Builds a request: the trimmed system prompt first, when there is one, then
/// one message per turn, in order.
pub fn build_request(
    turns: &Vec<FrontendMessage>,
    system_prompt: Option<&str>,
    model: &String,
    max_tokens: Option<u32>,
    temperature_bits: Option<u32>,
) -> (r: MistralRequest)
    ensures
        is_built_from(r, turns@, system_prompt, model@, max_tokens, temperature_bits),
{
    let mut messages: Vec<MistralMessage> = Vec::new();
    if let Some(p) = system_prompt {
        let content = String::from_str(trim_text(p));
        messages.push(MistralMessage { role: String::from_str("system"), content });
    }
    let ghost off = prefix_len(system_prompt);
    let mut i: usize = 0;
    while i < turns.len()
        invariant
            i <= turns@.len(),
            off == prefix_len(system_prompt),
            messages@.len() == i + off,
            system_prompt matches Some(p) ==> message_is(messages@[0], "system"@, trimmed(p@)),
            forall|j: int|
                0 <= j < i ==> #[trigger] message_is(
                    messages@[j + off],
                    role_for(turns@[j].sender@),
                    turns@[j].text@,
                ),
        decreases turns@.len() - i,
    {
        let turn = &turns[i];
        let role = role_of_sender(turn.sender.as_str());
        messages.push(MistralMessage { role, content: turn.text.clone() });
        assert(message_is(messages@[i + off], role_for(turns@[i as int].sender@), turns@[i as int].text@));
        i = i + 1;
    }
    MistralRequest { model: model.clone(), messages, max_tokens, temperature_bits }
}

/// For a non-empty conversation, the request holds one message per turn, plus
/// one exactly when a system prompt is given, and each turn's role is `user`
/// when its sender is `user` and `assistant` otherwise.
pub proof fn lemma_build_shape(
    r: MistralRequest,
    turns: Seq<FrontendMessage>,
    system_prompt: Option<&str>,
    model: Seq<char>,
    max_tokens: Option<u32>,
    temperature_bits: Option<u32>,
)
    requires
        turns.len() > 0,
        is_built_from(r, turns, system_prompt, model, max_tokens, temperature_bits),
    ensures
        system_prompt is Some <==> r.messages@.len() == turns.len() + 1,
        system_prompt is None <==> r.messages@.len() == turns.len(),
        forall|j: int|
            0 <= j < turns.len() ==> {
                let m = #[trigger] r.messages@[j + prefix_len(system_prompt)];
                &&& turns[j].sender@ == "user"@ ==> m.role@ == "user"@
                &&& turns[j].sender@ != "user"@ ==> m.role@ == "assistant"@
            },
{
    assert forall|j: int| 0 <= j < turns.len() implies {
        let m = #[trigger] r.messages@[j + prefix_len(system_prompt)];
        &&& turns[j].sender@ == "user"@ ==> m.role@ == "user"@
        &&& turns[j].sender@ != "user"@ ==> m.role@ == "assistant"@
    } by {
        assert(message_is(
            r.messages@[j + prefix_len(system_prompt)],
            role_for(turns[j].sender@),
            turns[j].text@,
        ));
    }
}

} // verus!
