//! Conversation memory: a fixed system prompt and a window of the most
//! recent messages.
use vstd::prelude::*;
use crate::ollama::{ChatMessage, MessageView, messages_view};

verus! {

/// The last `n` elements of `s`, or all of `s` when it has no more than `n`.
pub open spec fn keep_last<A>(s: Seq<A>, n: nat) -> Seq<A> {
    if s.len() > n {
        s.subrange(s.len() - n, s.len() as int)
    } else {
        s
    }
}

/// The abstract value of a conversation memory.
pub struct MemoryView {
    pub system_prompt: Seq<char>,
    pub recent: Seq<MessageView>,
    pub max_recent_messages: nat,
}

impl MemoryView {
    /// The message that carries the system prompt.
    pub open spec fn system_message(self) -> MessageView {
        MessageView { role: "system"@, content: self.system_prompt }
    }

    /// What the model is given: the system message, then the recent window.
    pub open spec fn model_messages(self) -> Seq<MessageView> {
        seq![self.system_message()] + self.recent
    }

    /// The memory after `m` is added: the window keeps the last
    /// `max_recent_messages` messages.
    pub open spec fn pushed(self, m: MessageView) -> MemoryView {
        MemoryView {
            system_prompt: self.system_prompt,
            recent: keep_last(self.recent.push(m), self.max_recent_messages),
            max_recent_messages: self.max_recent_messages,
        }
    }
}

/// A user turn with the given text.
pub open spec fn user_message(content: Seq<char>) -> MessageView {
    MessageView { role: "user"@, content }
}

/// An assistant turn with the given text.
pub open spec fn assistant_message(content: Seq<char>) -> MessageView {
    MessageView { role: "assistant"@, content }
}

/// The system prompt and a bounded window of recent messages.
#[derive(Debug)]
pub struct ConversationMemory {
    system_prompt: String,
    recent: Vec<ChatMessage>,
    max_recent_messages: usize,
}

impl View for ConversationMemory {
    type V = MemoryView;

    closed spec fn view(&self) -> MemoryView {
        MemoryView {
            system_prompt: self.system_prompt@,
            recent: messages_view(self.recent@),
            max_recent_messages: self.max_recent_messages as nat,
        }
    }
}

impl Clone for ConversationMemory {
    fn clone(&self) -> (r: Self)
        ensures
            r@ == self@,
    {
        let mut recent: Vec<ChatMessage> = Vec::new();
        let n = self.recent.len();
        for i in 0..n
            invariant
                n == self.recent@.len(),
                recent@.len() == i,
                forall|j: int| 0 <= j < i ==> #[trigger] recent@[j]@ == self.recent@[j]@,
        {
            recent.push(self.recent[i].clone());
        }
        assert(messages_view(recent@) =~= messages_view(self.recent@));
        ConversationMemory {
            system_prompt: self.system_prompt.clone(),
            recent,
            max_recent_messages: self.max_recent_messages,
        }
    }
}

impl ConversationMemory {
    /// An empty memory with the given system prompt and window size.
    pub fn new(system_prompt: String, max_recent_messages: usize) -> (r: ConversationMemory)
        ensures
            r@.system_prompt == system_prompt@,
            r@.recent == Seq::<MessageView>::empty(),
            r@.max_recent_messages == max_recent_messages,
    {
        let r = ConversationMemory { system_prompt, recent: Vec::new(), max_recent_messages };
        assert(messages_view(r.recent@) =~= Seq::<MessageView>::empty());
        r
    }

    /// Adds what the user said and drops the oldest messages beyond the window.
    pub fn push_user(&mut self, content: String)
        ensures
            final(self)@ == old(self)@.pushed(user_message(content@)),
            final(self)@ == old(self)@.pushed(MessageView { role: "user"@, content: content@ }),
    {
        let m = ChatMessage { role: "user".to_owned(), content };
        self.push_message(m);
    }

    /// Adds what the assistant said and drops the oldest messages beyond the
    /// window.
    pub fn push_assistant(&mut self, content: String)
        ensures
            final(self)@ == old(self)@.pushed(assistant_message(content@)),
            final(self)@ == old(self)@.pushed(MessageView { role: "assistant"@, content: content@ }),
    {
        let m = ChatMessage { role: "assistant".to_owned(), content };
        self.push_message(m);
    }

    fn push_message(&mut self, m: ChatMessage)
        ensures
            final(self)@ == old(self)@.pushed(m@),
    {
        let ghost before = self.recent@;
        self.recent.push(m);
        assert(messages_view(self.recent@) =~= messages_view(before).push(m@));
        self.trim();
        let ghost n = self.max_recent_messages as nat;
        assert(messages_view(self.recent@) =~= keep_last(messages_view(before).push(m@), n));
    }

    /// The messages handed to the model: the system prompt first, then the
    /// recent window, oldest first.
    pub fn messages_for_model(&self) -> (r: Vec<ChatMessage>)
        ensures
            messages_view(r@) == self@.model_messages(),
    {
        let mut messages: Vec<ChatMessage> = Vec::new();
        messages.push(ChatMessage { role: "system".to_owned(), content: self.system_prompt.clone() });
        let n = self.recent.len();
        for i in 0..n
            invariant
                n == self.recent@.len(),
                messages@.len() == i + 1,
                messages@[0]@ == self@.system_message(),
                forall|j: int| 0 <= j < i ==> #[trigger] messages@[j + 1]@ == self.recent@[j]@,
        {
            messages.push(self.recent[i].clone());
        }
        assert forall|j: int| 0 <= j < messages@.len() implies #[trigger] messages_view(messages@)[j]
            == self@.model_messages()[j] by {
            if j > 0 {
                assert(messages@[(j - 1) + 1]@ == self.recent@[j - 1]@);
            }
        }
        assert(messages_view(messages@) =~= self@.model_messages());
        messages
    }

    fn trim(&mut self)
        ensures
            final(self).system_prompt == old(self).system_prompt,
            final(self).max_recent_messages == old(self).max_recent_messages,
            final(self).recent@ == keep_last(old(self).recent@, old(self).max_recent_messages as nat),
    {
        if self.recent.len() > self.max_recent_messages {
            let drop_count = self.recent.len() - self.max_recent_messages;
            let kept = self.recent.split_off(drop_count);
            self.recent = kept;
        }
    }
}

} // verus!

verus! {

/// Law: the memory's window is always the last `max_recent_messages`
/// messages of everything ever pushed. If the window of `mem` is the window
/// of a history `h`, then after `m` is pushed the window is that of `h`
/// followed by `m`. (A new memory starts with the window of the empty
/// history.)
pub proof fn lemma_window_tracks_history(mem: MemoryView, h: Seq<MessageView>, m: MessageView)
    requires
        mem.recent == keep_last(h, mem.max_recent_messages),
    ensures
        mem.pushed(m).recent == keep_last(h.push(m), mem.max_recent_messages),
{
    let n = mem.max_recent_messages;
    if h.len() > n {
        assert(keep_last(h, n).push(m).len() == n + 1);
        assert(mem.pushed(m).recent =~= keep_last(h.push(m), n));
    } else {
        assert(mem.pushed(m).recent =~= keep_last(h.push(m), n));
    }
}

/// Law: the last `n` of a sequence are exactly its last `min(len, n)`
/// elements, in their order: nothing else is dropped, added or changed.
pub proof fn lemma_keep_last_is_suffix<A>(s: Seq<A>, n: nat)
    ensures
        keep_last(s, n).len() == if s.len() < n { s.len() } else { n },
        forall|i: int|
            0 <= i < keep_last(s, n).len() ==> #[trigger] keep_last(s, n)[i] == s[s.len()
                - keep_last(s, n).len() + i],
{
}

/// Law: a pushed turn keeps its text verbatim and its role: the user's
/// message is `"user"` with exactly the pushed text, the assistant's is
/// `"assistant"` with exactly the pushed text; after a push into a window of
/// at least one message, that message is the last the model is shown.
pub proof fn lemma_pushed_turn_is_verbatim(mem: MemoryView, text: Seq<char>)
    ensures
        user_message(text).role == "user"@,
        user_message(text).content == text,
        assistant_message(text).role == "assistant"@,
        assistant_message(text).content == text,
        mem.max_recent_messages > 0 ==> mem.pushed(user_message(text)).model_messages().last()
            == (MessageView { role: "user"@, content: text }),
        mem.max_recent_messages > 0 ==> mem.pushed(assistant_message(text)).model_messages().last()
            == (MessageView { role: "assistant"@, content: text }),
        mem.pushed(user_message(text)).model_messages()[0] == (MessageView {
            role: "system"@,
            content: mem.system_prompt,
        }),
{
}

/// Law: trimming a window that is already trimmed changes nothing.
pub proof fn lemma_keep_last_idempotent<A>(s: Seq<A>, n: nat)
    ensures
        keep_last(keep_last(s, n), n) == keep_last(s, n),
        keep_last(s, n).len() <= n,
{
}

/// Law: the window never holds more than `max_recent_messages` messages,
/// and the message just pushed is the newest one in it unless the window
/// size is zero.
pub proof fn lemma_window_bounded(mem: MemoryView, m: MessageView)
    ensures
        mem.pushed(m).recent.len() <= mem.max_recent_messages,
        mem.max_recent_messages > 0 ==> mem.pushed(m).recent.last() == m,
        mem.max_recent_messages == 0 ==> mem.pushed(m).recent.len() == 0,
{
}

/// Law: pushing only ever changes the window; the system prompt stays
/// first in what the model is given.
pub proof fn lemma_model_messages_start_with_system(mem: MemoryView, m: MessageView)
    ensures
        mem.pushed(m).model_messages()[0] == mem.system_message(),
        mem.pushed(m).model_messages().len() == mem.pushed(m).recent.len() + 1,
        mem.pushed(m).system_prompt == mem.system_prompt,
        mem.pushed(m).max_recent_messages == mem.max_recent_messages,
{
}

} // verus!

verus! {

/// The memory after each message of `pushes` is pushed, in order.
pub open spec fn replay(mem: MemoryView, pushes: Seq<MessageView>) -> MemoryView
    decreases pushes.len(),
{
    if pushes.len() == 0 {
        mem
    } else {
        replay(mem, pushes.drop_last()).pushed(pushes.last())
    }
}

/// Whether a message was said by the user or by the assistant.
pub open spec fn is_turn(m: MessageView) -> bool {
    m.role == "user"@ || m.role == "assistant"@
}

/// Law: a memory created empty and then given any history of pushes shows
/// the model the system message followed by exactly the last
/// `min(k, max_recent_messages)` of the `k` pushed messages, in the order
/// they were pushed: at most `max_recent_messages + 1` messages, the system
/// prompt first. When every push is a user or an assistant turn, every
/// message after the first is one too. Trimming the window again would
/// change nothing.
pub proof fn lemma_history_shown_to_model(mem: MemoryView, pushes: Seq<MessageView>)
    requires
        mem.recent == Seq::<MessageView>::empty(),
    ensures
        replay(mem, pushes).recent == keep_last(pushes, mem.max_recent_messages),
        replay(mem, pushes).model_messages() == seq![mem.system_message()] + keep_last(
            pushes,
            mem.max_recent_messages,
        ),
        replay(mem, pushes).model_messages().len() == 1 + (if pushes.len()
            < mem.max_recent_messages {
            pushes.len()
        } else {
            mem.max_recent_messages
        }),
        replay(mem, pushes).model_messages().len() <= mem.max_recent_messages + 1,
        replay(mem, pushes).model_messages()[0] == mem.system_message(),
        replay(mem, pushes).system_prompt == mem.system_prompt,
        replay(mem, pushes).max_recent_messages == mem.max_recent_messages,
        keep_last(replay(mem, pushes).recent, mem.max_recent_messages) == replay(
            mem,
            pushes,
        ).recent,
        (forall|j: int| 0 <= j < pushes.len() ==> is_turn(#[trigger] pushes[j])) ==> (forall|
            i: int,
        |
            1 <= i < replay(mem, pushes).model_messages().len() ==> is_turn(
                #[trigger] replay(mem, pushes).model_messages()[i],
            )),
    decreases pushes.len(),
{
    let n = mem.max_recent_messages;
    if pushes.len() == 0 {
        assert(keep_last(pushes, n) =~= Seq::<MessageView>::empty());
    } else {
        let h = pushes.drop_last();
        lemma_history_shown_to_model(mem, h);
        lemma_window_tracks_history(replay(mem, h), h, pushes.last());
        assert(h.push(pushes.last()) =~= pushes);
    }
    let r = replay(mem, pushes);
    lemma_keep_last_idempotent(pushes, n);
    if forall|j: int| 0 <= j < pushes.len() ==> is_turn(#[trigger] pushes[j]) {
        assert forall|i: int| 1 <= i < r.model_messages().len() implies is_turn(
            #[trigger] r.model_messages()[i],
        ) by {
            let w = keep_last(pushes, n);
            assert(r.model_messages()[i] == w[i - 1]);
            if pushes.len() > n {
                assert(w[i - 1] == pushes[pushes.len() - n + i - 1]);
            }
        }
    }
}

} // verus!
