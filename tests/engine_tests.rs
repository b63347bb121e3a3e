use chat_relay::engine::{
    attach_audio, complete_turn, handle_message, plan_turn, route_inbound, EngineError, Inbound, Step,
    APOLOGY_REPLY, FALLBACK_REPLY, MAX_ATTEMPTS, PERSONA,
};
use chat_relay::gateway::GatewayError;
use chat_relay::session::{Role, Session, State, Turn};
use chat_relay::store::{Conflict, SessionStore};

fn history_of(s: &Session) -> Vec<(Role, String)> {
    match &s.state {
        State::Idle => Vec::new(),
        State::Active { history } => history.iter().map(|t| (t.role, t.text.clone())).collect(),
    }
}

fn ok(s: &str) -> Result<String, GatewayError> {
    Ok(s.to_string())
}

fn no_audio() -> Result<Vec<u8>, GatewayError> {
    Err(GatewayError::ProviderUnavailable)
}

#[test]
fn fresh_key_is_idle_at_version_zero() {
    let store = SessionStore::new();
    let s = store.get(7);
    assert!(!s.is_active());
    assert_eq!(s.version, 0);
}

#[test]
fn first_turn_activates_session() {
    let mut store = SessionStore::new();
    let r = handle_message(&mut store, 42, "Hi", ok("Hello there."), no_audio()).unwrap();
    assert_eq!(r.text, "Hello there.");
    assert!(r.audio.is_none());
    let s = store.get(42);
    assert!(s.is_active());
    assert_eq!(s.version, 1);
    assert_eq!(
        history_of(&s),
        vec![
            (Role::System, PERSONA.to_string()),
            (Role::User, "Hi".to_string()),
            (Role::Assistant, "Hello there.".to_string()),
        ]
    );
}

#[test]
fn missing_credential_gives_fallback_and_keeps_idle() {
    let mut store = SessionStore::new();
    let r = handle_message(&mut store, 123, "hello", Err(GatewayError::ProviderUnavailable), no_audio()).unwrap();
    assert_eq!(r.text, FALLBACK_REPLY);
    assert!(r.audio.is_none());
    let s = store.get(123);
    assert!(!s.is_active());
    assert_eq!(s.version, 0);
}

#[test]
fn provider_error_leaves_session_unchanged() {
    let mut store = SessionStore::new();
    handle_message(&mut store, 5, "one", ok("first"), no_audio()).unwrap();
    let before = store.get(5);
    let r = handle_message(&mut store, 5, "two", Err(GatewayError::ProviderError), no_audio());
    assert!(matches!(r, Err(EngineError::ProviderError)));
    let after = store.get(5);
    assert_eq!(after.version, before.version);
    assert_eq!(history_of(&after), history_of(&before));
}

#[test]
fn provider_error_on_fresh_session_stays_idle() {
    let mut store = SessionStore::new();
    let r = handle_message(&mut store, 9, "x", Err(GatewayError::ProviderError), no_audio());
    assert!(matches!(r, Err(EngineError::ProviderError)));
    assert!(!store.get(9).is_active());
    assert_eq!(store.get(9).version, 0);
}

#[test]
fn successive_turns_grow_by_two_and_alternate() {
    let mut store = SessionStore::new();
    let n = 4;
    for i in 0..n {
        let q = format!("q{}", i);
        let a = format!("a{}", i);
        handle_message(&mut store, 1, &q, Ok(a), no_audio()).unwrap();
    }
    let s = store.get(1);
    assert_eq!(s.version, n as u64);
    let h = history_of(&s);
    assert_eq!(h.len(), 1 + 2 * n);
    assert_eq!(h[0].0, Role::System);
    for i in 0..n {
        assert_eq!(h[1 + 2 * i], (Role::User, format!("q{}", i)));
        assert_eq!(h[2 + 2 * i], (Role::Assistant, format!("a{}", i)));
    }
}

#[test]
fn interleaved_keys_do_not_cross_talk() {
    let mut store = SessionStore::new();
    handle_message(&mut store, 10, "a1", ok("ra1"), no_audio()).unwrap();
    handle_message(&mut store, 20, "b1", ok("rb1"), no_audio()).unwrap();
    handle_message(&mut store, 10, "a2", ok("ra2"), no_audio()).unwrap();
    handle_message(&mut store, 20, "b2", ok("rb2"), no_audio()).unwrap();
    handle_message(&mut store, 20, "b3", ok("rb3"), no_audio()).unwrap();
    let a = history_of(&store.get(10));
    let b = history_of(&store.get(20));
    assert_eq!(a.len(), 5);
    assert_eq!(b.len(), 7);
    assert!(a.iter().all(|(_, t)| !t.contains('b')));
    assert!(b.iter().all(|(_, t)| !t.contains('a') || t == PERSONA));
    assert_eq!(a[3], (Role::User, "a2".to_string()));
    assert_eq!(b[5], (Role::User, "b3".to_string()));
}

#[test]
fn concurrent_turns_on_fresh_key_all_recorded() {
    let mut store = SessionStore::new();
    let m = 3;
    // Every task plans against the fresh session before any records.
    let mut pending: Vec<(usize, u32)> = (0..m).map(|i| (i, 0)).collect();
    let mut plans: Vec<_> = (0..m).map(|i| plan_turn(&store, 77, &format!("m{}", i))).collect();
    let mut done = 0;
    while !pending.is_empty() {
        let (task, attempt) = pending.remove(0);
        let plan = plans.remove(0);
        match complete_turn(&mut store, plan, Ok(format!("r{}", task)), attempt) {
            Step::Reply(text) => {
                assert_eq!(text, format!("r{}", task));
                done += 1;
            }
            Step::Retry => {
                pending.push((task, attempt + 1));
                plans.push(plan_turn(&store, 77, &format!("m{}", task)));
            }
            other => panic!("unexpected step {:?}", other),
        }
    }
    assert_eq!(done, m);
    let s = store.get(77);
    assert_eq!(s.version, m as u64);
    let h = history_of(&s);
    assert_eq!(h.len(), 1 + 2 * m);
    for i in 0..m {
        let user = h.iter().filter(|t| t.0 == Role::User && t.1 == format!("m{}", i)).count();
        let reply = h.iter().filter(|t| t.0 == Role::Assistant && t.1 == format!("r{}", i)).count();
        assert_eq!(user, 1);
        assert_eq!(reply, 1);
    }
}

#[test]
fn stale_plan_is_retried_then_contended() {
    let mut store = SessionStore::new();
    let stale = plan_turn(&store, 3, "late");
    let stale2 = plan_turn(&store, 3, "later");
    handle_message(&mut store, 3, "early", ok("first"), no_audio()).unwrap();
    assert!(matches!(complete_turn(&mut store, stale, ok("x"), 0), Step::Retry));
    assert!(matches!(
        complete_turn(&mut store, stale2, ok("y"), MAX_ATTEMPTS - 1),
        Step::Failed(EngineError::SessionContention)
    ));
    assert_eq!(store.get(3).version, 1);
    assert_eq!(history_of(&store.get(3)).len(), 3);
}

#[test]
fn complete_turn_maps_provider_failures() {
    let mut store = SessionStore::new();
    let p = plan_turn(&store, 4, "hi");
    assert!(matches!(complete_turn(&mut store, p, Err(GatewayError::ProviderUnavailable), 0), Step::Fallback));
    let p = plan_turn(&store, 4, "hi");
    assert!(matches!(
        complete_turn(&mut store, p, Err(GatewayError::ProviderError), 0),
        Step::Failed(EngineError::ProviderError)
    ));
    assert!(!store.get(4).is_active());
}

#[test]
fn plan_for_active_session_extends_history() {
    let mut store = SessionStore::new();
    handle_message(&mut store, 8, "one", ok("uno"), no_audio()).unwrap();
    let p = plan_turn(&store, 8, "two");
    assert_eq!(p.version, 1);
    assert_eq!(p.context.len(), 4);
    assert_eq!(p.context[3].role, Role::User);
    assert_eq!(p.context[3].text, "two");
}

#[test]
fn compare_and_swap_rejects_stale_version() {
    let mut store = SessionStore::new();
    let h = vec![Turn::new(Role::System, "p")];
    assert_eq!(store.compare_and_swap(6, 1, State::Active { history: h }), Err(Conflict::Stale));
    let h = vec![Turn::new(Role::System, "p")];
    assert_eq!(store.compare_and_swap(6, 0, State::Active { history: h }), Ok(()));
    assert_eq!(store.get(6).version, 1);
    assert_eq!(store.compare_and_swap(6, 0, State::Idle), Err(Conflict::Stale));
    assert_eq!(store.get(6).version, 1);
}

#[test]
fn speech_is_attached_when_synthesized() {
    let mut store = SessionStore::new();
    let r = handle_message(&mut store, 11, "say", ok("spoken"), Ok(vec![1, 2, 3])).unwrap();
    assert_eq!(r.text, "spoken");
    assert_eq!(r.audio, Some(vec![1, 2, 3]));
    let r = attach_audio("t".to_string(), Err(GatewayError::ProviderError));
    assert_eq!(r.text, "t");
    assert!(r.audio.is_none());
}

#[test]
fn inbound_without_text_asks_for_plain_text() {
    assert!(matches!(route_inbound(None), Inbound::PromptForText));
    assert!(matches!(route_inbound(Some(String::new())), Inbound::PromptForText));
    match route_inbound(Some("hey".to_string())) {
        Inbound::Message(t) => assert_eq!(t, "hey"),
        other => panic!("unexpected {:?}", other),
    }
}

#[test]
fn replies_are_plain_sentences() {
    assert!(!APOLOGY_REPLY.is_empty());
    assert_ne!(APOLOGY_REPLY, FALLBACK_REPLY);
}
