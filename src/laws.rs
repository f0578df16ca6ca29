use vstd::prelude::*;

use crate::conversation::{
    awaiting_are_user_messages, step_resolve, step_submit, step_update_draft, ConversationView,
};
use crate::message::{reply_message, MessageView, Role};

verus! {

/// One thing that can happen to a conversation.
pub ghost enum Action {
    /// The draft is replaced by this text.
    UpdateDraft(Seq<char>),
    /// The draft is submitted.
    Submit,
    /// The outcome of the turn at this position arrives.
    Resolve(nat, Result<Seq<char>, Seq<char>>),
}

/// The effect of one action.
pub open spec fn apply(c: ConversationView, a: Action) -> ConversationView {
    match a {
        Action::UpdateDraft(text) => step_update_draft(c, text),
        Action::Submit => step_submit(c),
        Action::Resolve(turn, outcome) => step_resolve(c, turn, outcome),
    }
}

/// The conversation after the actions, in order.
pub open spec fn run(c: ConversationView, actions: Seq<Action>) -> ConversationView
    decreases actions.len(),
{
    if actions.len() == 0 {
        c
    } else {
        run(apply(c, actions[0]), actions.drop_first())
    }
}

/// Whatever happens, the log only grows: every message already in it stays,
/// unchanged, at its position.
pub proof fn lemma_log_only_grows(c: ConversationView, actions: Seq<Action>)
    ensures
        c.messages.is_prefix_of(run(c, actions).messages),
    decreases actions.len(),
{
    if actions.len() > 0 {
        let next = apply(c, actions[0]);
        assert(c.messages.is_prefix_of(next.messages));
        lemma_log_only_grows(next, actions.drop_first());
    }
}

/// Submitting a non-empty draft `x` appends a user message holding exactly `x`,
/// and nothing that happens afterwards (edits of the draft included) changes it.
pub proof fn lemma_submitted_text_is_kept(c: ConversationView, x: Seq<char>, later: Seq<Action>)
    requires
        x.len() > 0,
    ensures
        ({
            let done = run(step_submit(step_update_draft(c, x)), later);
            &&& done.messages.len() > c.messages.len()
            &&& done.messages[c.messages.len() as int] == MessageView { role: Role::User, content: x }
        }),
{
    let s = step_submit(step_update_draft(c, x));
    lemma_log_only_grows(s, later);
    assert(s.messages[c.messages.len() as int] == MessageView { role: Role::User, content: x });
}

/// Submitting an empty draft changes nothing.
pub proof fn lemma_empty_submit_changes_nothing(c: ConversationView)
    requires
        c.draft.len() == 0,
    ensures
        step_submit(c) == c,
{
}

/// After a submit that is not a no-op the draft is empty, while the turn it
/// started still awaits its reply.
pub proof fn lemma_submit_clears_draft(c: ConversationView)
    requires
        c.draft.len() > 0,
    ensures
        step_submit(c).draft.len() == 0,
        step_submit(c).awaiting.contains(c.messages.len()),
{
}

/// Two submits `a` then `b` whose replies arrive in the other order leave the
/// log as user `a`, user `b`, the reply to `b`, the reply to `a`.
pub proof fn lemma_replies_in_completion_order(
    c: ConversationView,
    a: Seq<char>,
    b: Seq<char>,
    outcome_a: Result<Seq<char>, Seq<char>>,
    outcome_b: Result<Seq<char>, Seq<char>>,
)
    requires
        a.len() > 0,
        b.len() > 0,
    ensures
        ({
            let n = c.messages.len();
            let done = run(
                c,
                seq![
                    Action::UpdateDraft(a),
                    Action::Submit,
                    Action::UpdateDraft(b),
                    Action::Submit,
                    Action::Resolve(n + 1, outcome_b),
                    Action::Resolve(n, outcome_a),
                ],
            );
            done.messages == c.messages + seq![
                MessageView { role: Role::User, content: a },
                MessageView { role: Role::User, content: b },
                reply_message(outcome_b),
                reply_message(outcome_a),
            ]
        }),
{
    let n = c.messages.len();
    let actions = seq![
        Action::UpdateDraft(a),
        Action::Submit,
        Action::UpdateDraft(b),
        Action::Submit,
        Action::Resolve(n + 1, outcome_b),
        Action::Resolve(n, outcome_a),
    ];
    let c1 = step_update_draft(c, a);
    let c2 = step_submit(c1);
    let c3 = step_update_draft(c2, b);
    let c4 = step_submit(c3);
    let c5 = step_resolve(c4, n + 1, outcome_b);
    let c6 = step_resolve(c5, n, outcome_a);
    assert(c4.awaiting.contains(n + 1));
    assert(c5.awaiting.contains(n));
    assert(actions.drop_first().drop_first().drop_first().drop_first().drop_first().drop_first()
        =~= Seq::<Action>::empty());
    assert(run(c, actions) == run(c1, actions.drop_first()));
    assert(run(c1, actions.drop_first()) == run(c2, actions.drop_first().drop_first()));
    assert(run(c2, actions.drop_first().drop_first()) == run(
        c3,
        actions.drop_first().drop_first().drop_first(),
    ));
    assert(run(c3, actions.drop_first().drop_first().drop_first()) == run(
        c4,
        actions.drop_first().drop_first().drop_first().drop_first(),
    ));
    assert(run(c4, actions.drop_first().drop_first().drop_first().drop_first()) == run(
        c5,
        actions.drop_first().drop_first().drop_first().drop_first().drop_first(),
    ));
    assert(run(c5, actions.drop_first().drop_first().drop_first().drop_first().drop_first()) == c6)
        by {
        reveal_with_fuel(run, 2);
    }
    assert(c6.messages =~= c.messages + seq![
        MessageView { role: Role::User, content: a },
        MessageView { role: Role::User, content: b },
        reply_message(outcome_b),
        reply_message(outcome_a),
    ]);
}

/// A failed bridge call is recorded as a failure message at the end of the log;
/// the draft stays as it was and every other pending turn still awaits its reply.
pub proof fn lemma_failure_is_recorded(c: ConversationView, turn: nat, reason: Seq<char>)
    requires
        c.awaiting.contains(turn),
    ensures
        ({
            let done = step_resolve(c, turn, Err(reason));
            &&& done.messages == c.messages.push(MessageView { role: Role::Failure, content: reason })
            &&& done.draft == c.draft
            &&& done.awaiting == c.awaiting.remove(turn)
        }),
{
}

/// Whatever happens, every awaiting turn stays a user message of the log.
pub proof fn lemma_awaiting_stay_user_messages(c: ConversationView, actions: Seq<Action>)
    requires
        awaiting_are_user_messages(c),
    ensures
        awaiting_are_user_messages(run(c, actions)),
    decreases actions.len(),
{
    if actions.len() > 0 {
        let next = apply(c, actions[0]);
        assert(awaiting_are_user_messages(next));
        lemma_awaiting_stay_user_messages(next, actions.drop_first());
    }
}

/// The outcome of a turn lands after the user message it answers: that message
/// is a user message and comes earlier in the log than the reply.
pub proof fn lemma_reply_follows_its_message(
    c: ConversationView,
    turn: nat,
    outcome: Result<Seq<char>, Seq<char>>,
)
    requires
        awaiting_are_user_messages(c),
        c.awaiting.contains(turn),
    ensures
        ({
            let done = step_resolve(c, turn, outcome);
            &&& turn < c.messages.len()
            &&& done.messages[turn as int].role == Role::User
            &&& done.messages.last() == reply_message(outcome)
        }),
{
}

} // verus!
