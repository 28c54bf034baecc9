//! The decisions of one conversational turn: whether what was heard is worth
//! answering, what the model is shown, and what is remembered of its reply.
use vstd::prelude::*;
use crate::memory::{ConversationMemory, MemoryView, assistant_message, user_message};
use crate::ollama::MessageView;
use crate::ollama::{ChatMessage, messages_view};
use crate::text::{blank, is_blank, is_white_space, lemma_blank_iff_all_whitespace};

verus! {

/// What a turn does once the user's speech has been transcribed.
#[derive(Debug)]
pub enum TurnStep {
    /// Nothing but whitespace was heard: the turn ends here.
    NothingHeard,
    /// Ask the model to answer these messages.
    AskModel(Vec<ChatMessage>),
}

/// Takes the transcript of what the user said. A blank transcript ends the
/// turn and leaves the memory as it was; any other is remembered as the
/// user's message, and the model is to be asked with everything the memory
/// now holds.
pub fn on_transcript(memory: &mut ConversationMemory, transcript: String) -> (step: TurnStep)
    ensures
        blank(transcript@) ==> step is NothingHeard && final(memory)@ == old(memory)@,
        !blank(transcript@) ==> final(memory)@ == old(memory)@.pushed(user_message(transcript@)),
        !blank(transcript@) ==> final(memory)@ == old(memory)@.pushed(
            MessageView { role: "user"@, content: transcript@ },
        ),
        blank(transcript@) <==> forall|k: int|
            0 <= k < transcript@.len() ==> is_white_space(#[trigger] transcript@[k]),
        !blank(transcript@) ==> (step matches TurnStep::AskModel(m) && messages_view(m@)
            == final(memory)@.model_messages()),
{
    proof {
        lemma_blank_iff_all_whitespace(transcript@);
    }
    if is_blank(transcript.as_str()) {
        return TurnStep::NothingHeard;
    }
    memory.push_user(transcript);
    TurnStep::AskModel(memory.messages_for_model())
}

/// Takes the model's reply: it is remembered as the assistant's message and
/// is what is to be spoken.
pub fn on_reply(memory: &mut ConversationMemory, reply: String) -> (to_speak: String)
    ensures
        final(memory)@ == old(memory)@.pushed(assistant_message(reply@)),
        final(memory)@ == old(memory)@.pushed(MessageView { role: "assistant"@, content: reply@ }),
        to_speak@ == reply@,
{
    let to_speak = reply.clone();
    memory.push_assistant(reply);
    to_speak
}

/// Law: what the user has just said is the last thing the model is shown,
/// unless the window holds no messages at all; the system prompt is always
/// the first.
pub proof fn lemma_model_sees_latest_user_turn(mem: MemoryView, transcript: Seq<char>)
    requires
        mem.max_recent_messages > 0,
    ensures
        mem.pushed(user_message(transcript)).model_messages().last() == user_message(transcript),
        mem.pushed(user_message(transcript)).model_messages()[0] == mem.system_message(),
{
}

} // verus!
