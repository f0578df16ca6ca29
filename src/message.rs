use vstd::prelude::*;

verus! {

/// Who a message in the log comes from.
#[derive(Clone, Copy, Debug, PartialEq, Eq, Structural)]
pub enum Role {
    /// Text that the user submitted.
    User,
    /// A reply that the reply provider returned.
    Assistant,
    /// A turn whose reply could not be had; the content says why.
    Failure,
}

/// One entry of the conversation log. Its `id` is its position in the log.
#[derive(Debug)]
pub struct ChatMessage {
    pub id: usize,
    pub role: Role,
    pub content: String,
}

/// What a message says, without its position.
pub ghost struct MessageView {
    pub role: Role,
    pub content: Seq<char>,
}

impl View for ChatMessage {
    type V = MessageView;

    open spec fn view(&self) -> MessageView {
        MessageView { role: self.role, content: self.content@ }
    }
}

/// Why the command bridge gave no reply: transport, serialisation, or an error
/// that the reply provider reported.
#[derive(Debug)]
pub struct BridgeError {
    pub reason: String,
}

/// The log entry that records how a turn ended: the reply, or the failure.
pub open spec fn reply_message(outcome: Result<Seq<char>, Seq<char>>) -> MessageView {
    match outcome {
        Ok(text) => MessageView { role: Role::Assistant, content: text },
        Err(reason) => MessageView { role: Role::Failure, content: reason },
    }
}

/// The outcome of a bridge call, as plain text on either side.
pub open spec fn outcome_view(outcome: Result<String, BridgeError>) -> Result<Seq<char>, Seq<char>> {
    match outcome {
        Ok(text) => Ok(text@),
        Err(e) => Err(e.reason@),
    }
}

impl ChatMessage {
    /// A message with the same position, role and content.
    pub fn duplicate(&self) -> (r: ChatMessage)
        ensures
            r.id == self.id,
            r@ == self@,
    {
        ChatMessage { id: self.id, role: self.role, content: self.content.clone() }
    }
}

} // verus!
