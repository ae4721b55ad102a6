use loqui::hub::{Hub, RecvOutcome, Subscription};
use loqui::session::{relay, step, Relay, SessionEvent, SessionState, Transition, WELCOME_TEXT};
use loqui::DEFAULT_CAPACITY;

fn named(u: &str) -> SessionState {
    SessionState::Named(u.to_string())
}

fn drain(h: &Hub, s: &mut Subscription) -> Vec<String> {
    let mut out = Vec::new();
    while let RecvOutcome::Message(m) = h.recv(s) {
        out.push(m);
    }
    out
}

fn apply(h: &mut Hub, state: SessionState, e: SessionEvent) -> SessionState {
    let Transition { state, publish, .. } = step(state, e);
    if let Some(p) = publish {
        h.publish(p);
    }
    state
}

#[test]
fn welcome_text_is_fixed() {
    assert_eq!(WELCOME_TEXT, "Welcome to the server.");
}

#[test]
fn welcome_failure_closes_silently() {
    let t = step(SessionState::Connected, SessionEvent::WelcomeFailed);
    assert!(matches!(t.state, SessionState::Closed(None)));
    assert!(t.publish.is_none());
}

#[test]
fn empty_names_stall_until_trimmed_name() {
    let mut st = step(SessionState::Connected, SessionEvent::WelcomeSent).state;
    assert!(matches!(st, SessionState::AwaitingName));
    for blank in ["", "   ", "\t\n"] {
        let t = step(st, SessionEvent::Text(blank.to_string()));
        assert!(t.publish.is_none());
        assert!(!t.start_relay);
        st = t.state;
    }
    let t = step(st, SessionEvent::Binary);
    assert!(t.publish.is_none());
    let t = step(t.state, SessionEvent::Text("  carol  ".to_string()));
    assert!(t.start_relay);
    assert_eq!(t.publish.as_deref(), Some("carol joined"));
    match t.state {
        SessionState::Named(u) => assert_eq!(u, "carol"),
        _ => panic!("expected a name"),
    }
}

#[test]
fn close_before_name_publishes_nothing() {
    let t = step(SessionState::AwaitingName, SessionEvent::PeerClosed);
    assert!(matches!(t.state, SessionState::Closed(None)));
    assert!(t.publish.is_none());
}

#[test]
fn chat_and_leave_lines() {
    let t = step(named("a"), SessionEvent::Text("hi there".to_string()));
    assert_eq!(t.publish.as_deref(), Some("a: hi there"));
    let t = step(t.state, SessionEvent::Binary);
    assert!(t.publish.is_none());
    let t = step(t.state, SessionEvent::RelayEnded);
    assert_eq!(t.publish.as_deref(), Some("a left"));
    let t = step(t.state, SessionEvent::Text("late".to_string()));
    assert!(t.publish.is_none());
    assert!(matches!(t.state, SessionState::Closed(Some(_))));
}

#[test]
fn two_clients_exchange_one_message() {
    let mut h = Hub::new(DEFAULT_CAPACITY);
    let mut a = step(SessionState::Connected, SessionEvent::WelcomeSent).state;
    let mut b = step(SessionState::Connected, SessionEvent::WelcomeSent).state;
    let mut sub_a = h.subscribe();
    a = apply(&mut h, a, SessionEvent::Text("alice".to_string()));
    let mut sub_b = h.subscribe();
    b = apply(&mut h, b, SessionEvent::Text("bob".to_string()));
    a = apply(&mut h, a, SessionEvent::Text("hi".to_string()));
    assert!(matches!(a, SessionState::Named(_)));
    assert!(matches!(b, SessionState::Named(_)));
    assert_eq!(drain(&h, &mut sub_a), vec!["alice joined", "bob joined", "alice: hi"]);
    assert_eq!(drain(&h, &mut sub_b), vec!["bob joined", "alice: hi"]);
}

#[test]
fn late_client_misses_earlier_lines() {
    let mut h = Hub::new(DEFAULT_CAPACITY);
    let _sub_a = h.subscribe();
    let a = apply(&mut h, SessionState::AwaitingName, SessionEvent::Text("a".to_string()));
    apply(&mut h, a, SessionEvent::Text("early".to_string()));
    let mut sub_b = h.subscribe();
    let b = apply(&mut h, SessionState::AwaitingName, SessionEvent::Text("b".to_string()));
    apply(&mut h, b, SessionEvent::Text("later".to_string()));
    assert_eq!(drain(&h, &mut sub_b), vec!["b joined", "b: later"]);
}

#[test]
fn abrupt_disconnect_announces_leave() {
    let mut h = Hub::new(DEFAULT_CAPACITY);
    let _sub_a = h.subscribe();
    let a = apply(&mut h, SessionState::AwaitingName, SessionEvent::Text("a".to_string()));
    let mut sub_b = h.subscribe();
    let _b = apply(&mut h, SessionState::AwaitingName, SessionEvent::Text("b".to_string()));
    let a = apply(&mut h, a, SessionEvent::PeerClosed);
    assert!(matches!(a, SessionState::Closed(Some(_))));
    assert_eq!(drain(&h, &mut sub_b), vec!["b joined", "a left"]);
}

#[test]
fn relay_policy() {
    assert!(matches!(relay(RecvOutcome::Message("x".to_string())), Relay::Deliver(ref m) if m == "x"));
    assert!(matches!(relay(RecvOutcome::Lagged(3)), Relay::Skip));
    assert!(matches!(relay(RecvOutcome::Empty), Relay::Wait));
    assert!(matches!(relay(RecvOutcome::Closed), Relay::Stop));
}
