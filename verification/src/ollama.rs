//! Messages exchanged with the chat model, and what is sent to it.
use vstd::prelude::*;
use vstd::string::StringExecFns;
use crate::text::{trim_end_char, trim_end_slashes};

verus! {

/// The abstract value of a chat message: its role and its text.
pub struct MessageView {
    pub role: Seq<char>,
    pub content: Seq<char>,
}

/// One message of a chat: who speaks (`"system"`, `"user"` or
/// `"assistant"`) and what is said.
#[derive(Debug)]
pub struct ChatMessage {
    pub role: String,
    pub content: String,
}

impl View for ChatMessage {
    type V = MessageView;

    open spec fn view(&self) -> MessageView {
        MessageView { role: self.role@, content: self.content@ }
    }
}

/// The views of a sequence of messages.
pub open spec fn messages_view(s: Seq<ChatMessage>) -> Seq<MessageView> {
    s.map_values(|m: ChatMessage| m@)
}

impl Clone for ChatMessage {
    fn clone(&self) -> (r: Self)
        ensures
            r@ == self@,
    {
        ChatMessage { role: self.role.clone(), content: self.content.clone() }
    }
}

impl ChatMessage {
    /// A message with the given role and text.
    pub fn new(role: String, content: String) -> (r: ChatMessage)
        ensures
            r@ == (MessageView { role: role@, content: content@ }),
    {
        ChatMessage { role, content }
    }
}

/// Copies of the messages of a slice, in order.
pub fn copy_messages(messages: &[ChatMessage]) -> (r: Vec<ChatMessage>)
    ensures
        messages_view(r@) == messages_view(messages@),
{
    let mut r: Vec<ChatMessage> = Vec::new();
    let n = messages.len();
    for i in 0..n
        invariant
            n == messages@.len(),
            r@.len() == i,
            forall|j: int| 0 <= j < i ==> #[trigger] r@[j]@ == messages@[j]@,
    {
        r.push(messages[i].clone());
    }
    assert(messages_view(r@) =~= messages_view(messages@));
    r
}

/// The body of a chat request: the model, the whole conversation, and no
/// streaming.
#[derive(Debug)]
pub struct ChatRequest {
    pub model: String,
    pub messages: Vec<ChatMessage>,
    pub stream: bool,
}

/// Where the chat model is reached and which model answers.
#[derive(Debug)]
pub struct OllamaClient {
    base_url: String,
    model: String,
}

/// The chat endpoint under a base address: the address without its
/// trailing slashes, then `/api/chat`.
pub open spec fn chat_endpoint(base_url: Seq<char>) -> Seq<char> {
    trim_end_char(base_url, '/') + "/api/chat"@
}

impl OllamaClient {
    /// A client for the given base address and model.
    pub fn new(base_url: String, model: String) -> (r: OllamaClient)
        ensures
            r.base_url() == base_url@,
            r.model() == model@,
    {
        OllamaClient { base_url, model }
    }

    /// The base address.
    pub closed spec fn base_url(&self) -> Seq<char> {
        self.base_url@
    }

    /// The model's name.
    pub closed spec fn model(&self) -> Seq<char> {
        self.model@
    }

    /// The address a chat request is posted to.
    pub fn chat_url(&self) -> (r: String)
        ensures
            r@ == chat_endpoint(self.base_url()),
    {
        trim_end_slashes(self.base_url.as_str()).concat("/api/chat")
    }

    /// The request that asks the model to answer `messages`.
    pub fn chat_request(&self, messages: &[ChatMessage]) -> (r: ChatRequest)
        ensures
            r.model@ == self.model(),
            messages_view(r.messages@) == messages_view(messages@),
            !r.stream,
    {
        ChatRequest { model: self.model.clone(), messages: copy_messages(messages), stream: false }
    }
}

/// Law: the views of a sequence of messages are the messages' views one by
/// one, nothing dropped or reordered.
pub proof fn lemma_messages_view_pointwise(s: Seq<ChatMessage>)
    ensures
        messages_view(s).len() == s.len(),
        forall|i: int| 0 <= i < s.len() ==> #[trigger] messages_view(s)[i] == (MessageView {
            role: s[i].role@,
            content: s[i].content@,
        }),
{
}

/// Law: the chat address is the base address with its trailing slashes
/// dropped, then `/api/chat`: the part before `/api/chat` is a prefix of the
/// base that does not end with `'/'`, and all that was dropped is slashes.
pub proof fn lemma_chat_endpoint_shape(base_url: Seq<char>)
    ensures
        ({
            let e = chat_endpoint(base_url);
            let p = e.subrange(0, e.len() - "/api/chat"@.len());
            &&& e.len() >= "/api/chat"@.len()
            &&& e.subrange(e.len() - "/api/chat"@.len(), e.len() as int) == "/api/chat"@
            &&& p.len() <= base_url.len()
            &&& p == base_url.subrange(0, p.len() as int)
            &&& p.len() > 0 ==> p.last() != '/'
            &&& forall|k: int| p.len() <= k < base_url.len() ==> #[trigger] base_url[k] == '/'
        }),
{
    crate::text::lemma_trim_end_char_exact(base_url, '/');
    let t = trim_end_char(base_url, '/');
    let e = chat_endpoint(base_url);
    assert(e.subrange(0, t.len() as int) =~= t);
    assert(e.subrange(t.len() as int, e.len() as int) =~= "/api/chat"@);
}

} // verus!
