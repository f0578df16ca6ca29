use nexa_chat::conversation::{Conversation, ResolveError};
use nexa_chat::message::{BridgeError, Role};
use nexa_chat::provider::chat;

fn log(c: &Conversation) -> Vec<(Role, String)> {
    c.messages().iter().map(|m| (m.role, m.content.clone())).collect()
}

fn failed(reason: &str) -> Result<String, BridgeError> {
    Err(BridgeError { reason: reason.to_string() })
}

#[test]
fn scenario_hi_hello() {
    let mut c = Conversation::new();
    c.update_draft("hi".to_string());
    let p = c.submit().expect("a non-empty draft is sent");
    assert_eq!(log(&c), vec![(Role::User, "hi".to_string())]);
    assert_eq!(c.pending_input(), "");
    assert_eq!(p.message, "hi");
    assert_eq!(c.resolve(p.turn, Ok("hello!".to_string())), Ok(()));
    assert_eq!(
        log(&c),
        vec![(Role::User, "hi".to_string()), (Role::Assistant, "hello!".to_string())]
    );
}

#[test]
fn new_conversation_is_empty() {
    let c = Conversation::new();
    assert!(c.messages().is_empty());
    assert_eq!(c.pending_input(), "");
    assert!(!c.is_awaiting(0));
}

#[test]
fn draft_edit_after_submit_keeps_sent_text() {
    let mut c = Conversation::new();
    c.update_draft("first".to_string());
    let p = c.submit().unwrap();
    c.update_draft("second".to_string());
    assert_eq!(p.message, "first");
    assert_eq!(log(&c), vec![(Role::User, "first".to_string())]);
    assert_eq!(c.pending_input(), "second");
    c.resolve(p.turn, Ok("ok".to_string())).unwrap();
    assert_eq!(c.messages()[0].content, "first");
    assert_eq!(c.pending_input(), "second");
}

#[test]
fn empty_submit_is_noop() {
    let mut c = Conversation::new();
    assert!(c.submit().is_none());
    assert!(c.messages().is_empty());
    c.update_draft("a".to_string());
    c.submit().unwrap();
    c.update_draft(String::new());
    assert!(c.submit().is_none());
    assert_eq!(c.messages().len(), 1);
}

#[test]
fn submit_clears_draft_before_reply() {
    let mut c = Conversation::new();
    c.update_draft("question".to_string());
    let p = c.submit().unwrap();
    assert_eq!(c.pending_input(), "");
    assert!(c.is_awaiting(p.turn));
    assert_eq!(c.messages().len(), 1);
}

#[test]
fn log_only_grows() {
    let mut c = Conversation::new();
    c.update_draft("one".to_string());
    let a = c.submit().unwrap();
    let before = log(&c);
    c.update_draft("two".to_string());
    let b = c.submit().unwrap();
    c.resolve(b.turn, failed("down")).unwrap();
    c.resolve(a.turn, Ok("reply".to_string())).unwrap();
    let after = log(&c);
    assert_eq!(after.len(), 4);
    assert_eq!(&after[..before.len()], &before[..]);
    for (i, m) in c.messages().iter().enumerate() {
        assert_eq!(m.id, i);
    }
}

#[test]
fn replies_append_in_completion_order() {
    let mut c = Conversation::new();
    c.update_draft("A".to_string());
    let a = c.submit().unwrap();
    c.update_draft("B".to_string());
    let b = c.submit().unwrap();
    c.resolve(b.turn, Ok("reply B".to_string())).unwrap();
    c.resolve(a.turn, Ok("reply A".to_string())).unwrap();
    assert_eq!(
        log(&c),
        vec![
            (Role::User, "A".to_string()),
            (Role::User, "B".to_string()),
            (Role::Assistant, "reply B".to_string()),
            (Role::Assistant, "reply A".to_string()),
        ]
    );
}

#[test]
fn bridge_failure_is_recorded() {
    let mut c = Conversation::new();
    c.update_draft("A".to_string());
    let a = c.submit().unwrap();
    c.update_draft("B".to_string());
    let b = c.submit().unwrap();
    c.update_draft("draft".to_string());
    assert_eq!(c.resolve(a.turn, failed("provider unavailable")), Ok(()));
    assert_eq!(c.messages()[2].role, Role::Failure);
    assert_eq!(c.messages()[2].content, "provider unavailable");
    assert_eq!(c.pending_input(), "draft");
    assert!(!c.is_awaiting(a.turn));
    assert!(c.is_awaiting(b.turn));
}

#[test]
fn resolve_unknown_turn_is_refused() {
    let mut c = Conversation::new();
    assert_eq!(c.resolve(0, Ok("x".to_string())), Err(ResolveError::UnknownTurn));
    c.update_draft("q".to_string());
    let p = c.submit().unwrap();
    c.resolve(p.turn, Ok("r".to_string())).unwrap();
    assert_eq!(c.resolve(p.turn, Ok("again".to_string())), Err(ResolveError::UnknownTurn));
    assert_eq!(c.resolve(1, Ok("reply to a reply".to_string())), Err(ResolveError::UnknownTurn));
    assert_eq!(c.messages().len(), 2);
}

#[test]
fn duplicate_contents_get_distinct_ids() {
    let mut c = Conversation::new();
    for _ in 0..2 {
        c.update_draft("same".to_string());
        c.submit().unwrap();
    }
    assert_eq!(c.messages()[0].content, c.messages()[1].content);
    assert_eq!(c.messages()[0].id, 0);
    assert_eq!(c.messages()[1].id, 1);
}

#[test]
fn snapshot_matches_state() {
    let mut c = Conversation::new();
    c.update_draft("hi".to_string());
    let p = c.submit().unwrap();
    c.update_draft("next".to_string());
    let s = c.snapshot();
    assert_eq!(log(&s), log(&c));
    assert_eq!(s.pending_input(), "next");
    assert!(s.is_awaiting(p.turn));
}

#[test]
fn provider_answers_with_preamble() {
    assert_eq!(chat("hi".to_string()), Ok("LLM response to: hi".to_string()));
    assert_eq!(chat(String::new()), Ok("LLM response to: ".to_string()));
}
