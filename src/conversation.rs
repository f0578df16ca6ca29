use vstd::prelude::*;

use crate::message::{outcome_view, reply_message, BridgeError, ChatMessage, MessageView, Role};

verus! {

/// The state of a conversation as a reader sees it: the log, the draft, and the
/// positions of the user messages whose replies are still pending.
pub ghost struct ConversationView {
    pub messages: Seq<MessageView>,
    pub draft: Seq<char>,
    pub awaiting: Set<nat>,
}

/// The conversation at start: nothing said, nothing typed, nothing pending.
pub open spec fn empty_conversation() -> ConversationView {
    ConversationView { messages: Seq::empty(), draft: Seq::empty(), awaiting: Set::empty() }
}

/// The draft is replaced; nothing else changes.
pub open spec fn step_update_draft(c: ConversationView, text: Seq<char>) -> ConversationView {
    ConversationView { draft: text, ..c }
}

/// An empty draft submits nothing. Otherwise the draft becomes a user message at
/// the end of the log, the draft is cleared, and that message awaits its reply.
pub open spec fn step_submit(c: ConversationView) -> ConversationView {
    if c.draft.len() == 0 {
        c
    } else {
        ConversationView {
            messages: c.messages.push(MessageView { role: Role::User, content: c.draft }),
            draft: Seq::empty(),
            awaiting: c.awaiting.insert(c.messages.len()),
        }
    }
}

/// The outcome of the turn at position `turn` arrives. If that turn awaits its
/// reply, the reply (or the failure) is appended and the turn no longer awaits;
/// otherwise nothing changes.
pub open spec fn step_resolve(
    c: ConversationView,
    turn: nat,
    outcome: Result<Seq<char>, Seq<char>>,
) -> ConversationView {
    if c.awaiting.contains(turn) {
        ConversationView {
            messages: c.messages.push(reply_message(outcome)),
            draft: c.draft,
            awaiting: c.awaiting.remove(turn),
        }
    } else {
        c
    }
}

/// Every turn that awaits a reply is a user message already in the log.
pub open spec fn awaiting_are_user_messages(c: ConversationView) -> bool {
    forall|t: nat| #[trigger]
        c.awaiting.contains(t) ==> t < c.messages.len() && c.messages[t as int].role == Role::User
}

/// A request for a reply, handed out by `submit`: the text to send through the
/// command bridge, and the position of the user message it answers.
#[derive(Debug)]
pub struct PendingReply {
    pub turn: usize,
    pub message: String,
}

/// Why an outcome could not be recorded.
#[derive(Clone, Copy, Debug, PartialEq, Eq, Structural)]
pub enum ResolveError {
    /// No user message at that position awaits a reply: it was never submitted,
    /// or its outcome was recorded already.
    UnknownTurn,
}

/// A conversation: the ordered log, the draft, and which turns await replies.
pub struct Conversation {
    messages: Vec<ChatMessage>,
    pending_input: String,
    awaiting: Vec<bool>,
}

impl View for Conversation {
    type V = ConversationView;

    closed spec fn view(&self) -> ConversationView {
        ConversationView {
            messages: self.messages@.map_values(|m: ChatMessage| m@),
            draft: self.pending_input@,
            awaiting: Set::new(
                |t: nat| t < self.awaiting@.len() && self.awaiting@[t as int],
            ),
        }
    }
}

impl Conversation {
    /// Each message's id is its position, one flag per message, and only a user
    /// message can await a reply.
    pub closed spec fn wf(&self) -> bool {
        &&& self.awaiting@.len() == self.messages@.len()
        &&& forall|i: int| 0 <= i < self.messages@.len() ==> #[trigger] self.messages@[i].id == i
        &&& forall|i: int|
            0 <= i < self.awaiting@.len() && #[trigger] self.awaiting@[i] ==> self.messages@[i].role
                == Role::User
    }

    /// What the state of a well-formed conversation says of its turns.
    pub proof fn lemma_awaiting_are_user_messages(&self)
        requires
            self.wf(),
        ensures
            awaiting_are_user_messages(self@),
    {
        assert forall|t: nat| #[trigger] self@.awaiting.contains(t) implies t < self@.messages.len()
            && self@.messages[t as int].role == Role::User by {
            assert(self.awaiting@[t as int]);
        }
    }

    /// A new, empty conversation.
    pub fn new() -> (r: Conversation)
        ensures
            r.wf(),
            r@ == empty_conversation(),
    {
        let r = Conversation {
            messages: Vec::new(),
            pending_input: String::new(),
            awaiting: Vec::new(),
        };
        assert(r@.messages =~= Seq::empty());
        assert(r@.awaiting =~= Set::empty());
        r
    }

    /// The log, oldest first; each message's id is its position.
    pub fn messages(&self) -> (r: &Vec<ChatMessage>)
        requires
            self.wf(),
        ensures
            r@.len() == self@.messages.len(),
            forall|i: int| 0 <= i < r@.len() ==> #[trigger] r@[i]@ == self@.messages[i] && r@[i].id == i,
    {
        &self.messages
    }

    /// The draft, as typed so far.
    pub fn pending_input(&self) -> (r: &String)
        ensures
            r@ == self@.draft,
    {
        &self.pending_input
    }

    /// Whether the user message at position `turn` still awaits its reply.
    pub fn is_awaiting(&self, turn: usize) -> (r: bool)
        requires
            self.wf(),
        ensures
            r == self@.awaiting.contains(turn as nat),
    {
        turn < self.awaiting.len() && self.awaiting[turn]
    }

    /// Replaces the draft with `text`.
    pub fn update_draft(&mut self, text: String)
        requires
            old(self).wf(),
        ensures
            final(self).wf(),
            final(self)@ == step_update_draft(old(self)@, text@),
    {
        self.pending_input = text;
        assert(self@.messages =~= old(self)@.messages);
        assert(self@.awaiting =~= old(self)@.awaiting);
    }

    /// Submits the draft. An empty draft gives `None` and changes nothing.
    /// Otherwise the draft is appended as a user message and cleared, and the
    /// request for its reply is returned, holding the text as it was submitted.
    pub fn submit(&mut self) -> (r: Option<PendingReply>)
        requires
            old(self).wf(),
        ensures
            final(self).wf(),
            final(self)@ == step_submit(old(self)@),
            r is None <==> old(self)@.draft.len() == 0,
            r matches Some(p) ==> p.turn == old(self)@.messages.len() && p.message@ == old(self)@.draft,
    {
        if self.pending_input.as_str().is_empty() {
            return None;
        }
        let turn = self.messages.len();
        let text = self.pending_input.clone();
        self.pending_input = String::new();
        self.messages.push(ChatMessage { id: turn, role: Role::User, content: text.clone() });
        self.awaiting.push(true);
        let ghost pre = old(self)@;
        assert(self@.messages =~= pre.messages.push(MessageView { role: Role::User, content: pre.draft }));
        assert(self@.awaiting =~= pre.awaiting.insert(turn as nat));
        assert(self@.draft =~= Seq::<char>::empty());
        Some(PendingReply { turn, message: text })
    }

    /// Records the outcome of the turn at position `turn`: the reply as an
    /// assistant message, or the bridge's failure as a failure message. Fails,
    /// changing nothing, when that turn does not await a reply.
    pub fn resolve(&mut self, turn: usize, outcome: Result<String, BridgeError>) -> (r: Result<
        (),
        ResolveError,
    >)
        requires
            old(self).wf(),
        ensures
            final(self).wf(),
            final(self)@ == step_resolve(old(self)@, turn as nat, outcome_view(outcome)),
            r is Ok <==> old(self)@.awaiting.contains(turn as nat),
            r == Err::<(), ResolveError>(ResolveError::UnknownTurn) <==> !old(self)@.awaiting.contains(
                turn as nat,
            ),
    {
        if turn >= self.awaiting.len() || !self.awaiting[turn] {
            return Err(ResolveError::UnknownTurn);
        }
        let ghost pre = old(self)@;
        let ghost o = outcome_view(outcome);
        self.awaiting.set(turn, false);
        let id = self.messages.len();
        let msg = match outcome {
            Ok(text) => ChatMessage { id, role: Role::Assistant, content: text },
            Err(e) => ChatMessage { id, role: Role::Failure, content: e.reason },
        };
        self.messages.push(msg);
        self.awaiting.push(false);
        assert(self@.messages =~= pre.messages.push(reply_message(o)));
        assert(self@.awaiting =~= pre.awaiting.remove(turn as nat));
        Ok(())
    }

    /// A copy of the conversation as it stands, for a reader to show.
    pub fn snapshot(&self) -> (r: Conversation)
        requires
            self.wf(),
        ensures
            r.wf(),
            r@ == self@,
    {
        let mut messages: Vec<ChatMessage> = Vec::new();
        let mut awaiting: Vec<bool> = Vec::new();
        let n = self.messages.len();
        let mut i: usize = 0;
        while i < n
            invariant
                self.wf(),
                n == self.messages@.len(),
                i <= n,
                messages@.len() == i,
                awaiting@ == self.awaiting@.subrange(0, i as int),
                forall|j: int| 0 <= j < i ==> #[trigger] messages@[j]@ == self.messages@[j]@
                    && messages@[j].id == self.messages@[j].id,
            decreases n - i,
        {
            messages.push(self.messages[i].duplicate());
            awaiting.push(self.awaiting[i]);
            i = i + 1;
        }
        let r = Conversation { messages, pending_input: self.pending_input.clone(), awaiting };
        assert(awaiting@ =~= self.awaiting@);
        assert forall|j: int| 0 <= j < r.messages@.len() implies #[trigger] r.messages@[j].id == j by {
            assert(messages@[j]@ == self.messages@[j]@);
        }
        assert forall|j: int| 0 <= j < r.awaiting@.len() && #[trigger] r.awaiting@[j] implies r.messages@[j].role
            == Role::User by {
            assert(messages@[j]@ == self.messages@[j]@);
            assert(self.awaiting@[j]);
        }
        assert(r@.messages =~= self@.messages);
        assert(r@.awaiting =~= self@.awaiting);
        r
    }
}

} // verus!
