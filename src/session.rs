//! The per-connection protocol: welcome, name selection, relay and teardown,
//! as a function from state and event to the next state and what to publish.
use crate::hub::RecvOutcome;
use vstd::prelude::*;
use vstd::string::StringExecFns;

verus! {

/// The banner written to every new connection.
pub const WELCOME_TEXT: &'static str = "Welcome to the server.";

/// What str::trim returns: the text without leading and trailing whitespace.
pub uninterp spec fn trimmed(s: Seq<char>) -> Seq<char>;

/// Relies on str::trim: the result depends on the characters alone.
#[verifier::external_body]
fn trim_text(s: &str) -> (r: String)
    ensures
        r@ == trimmed(s@),
{
    s.trim().to_string()
}

pub open spec fn joined_text(u: Seq<char>) -> Seq<char> {
    u + " joined"@
}

pub open spec fn left_text(u: Seq<char>) -> Seq<char> {
    u + " left"@
}

pub open spec fn chat_text(u: Seq<char>, t: Seq<char>) -> Seq<char> {
    u + ": "@ + t
}

pub ghost enum SessionView {
    Connected,
    AwaitingName,
    Named(Seq<char>),
    Closed(Option<Seq<char>>),
}

pub ghost enum EventView {
    WelcomeSent,
    WelcomeFailed,
    Text(Seq<char>),
    Binary,
    PeerClosed,
    RelayEnded,
}

/// Where a connection stands.
pub enum SessionState {
    /// Accepted; the welcome banner is being written.
    Connected,
    /// Welcomed; waiting for a non-blank name.
    AwaitingName,
    /// Named; relaying in both directions.
    Named(String),
    /// Finished; holds the name if one was chosen.
    Closed(Option<String>),
}

/// What happened on a connection.
pub enum SessionEvent {
    /// The welcome banner was written.
    WelcomeSent,
    /// Writing the welcome banner failed.
    WelcomeFailed,
    /// A text frame arrived from the peer.
    Text(String),
    /// A binary frame arrived from the peer.
    Binary,
    /// The peer closed the connection or its stream failed.
    PeerClosed,
    /// The task that forwards hub payloads to the peer ended.
    RelayEnded,
}

/// The outcome of one event.
pub struct Transition {
    pub state: SessionState,
    /// A payload to publish to the hub, if any.
    pub publish: Option<String>,
    /// Whether the two relay tasks are to be started now.
    pub start_relay: bool,
}

pub open spec fn opt_view(o: Option<String>) -> Option<Seq<char>> {
    match o {
        Some(s) => Some(s@),
        None => None,
    }
}

impl SessionState {
    pub open spec fn view(&self) -> SessionView {
        match self {
            SessionState::Connected => SessionView::Connected,
            SessionState::AwaitingName => SessionView::AwaitingName,
            SessionState::Named(u) => SessionView::Named(u@),
            SessionState::Closed(u) => SessionView::Closed(opt_view(*u)),
        }
    }
}

impl SessionEvent {
    pub open spec fn view(&self) -> EventView {
        match self {
            SessionEvent::WelcomeSent => EventView::WelcomeSent,
            SessionEvent::WelcomeFailed => EventView::WelcomeFailed,
            SessionEvent::Text(t) => EventView::Text(t@),
            SessionEvent::Binary => EventView::Binary,
            SessionEvent::PeerClosed => EventView::PeerClosed,
            SessionEvent::RelayEnded => EventView::RelayEnded,
        }
    }
}

/// The protocol's transition: next state and the payload to publish.
pub open spec fn next(s: SessionView, e: EventView) -> (SessionView, Option<Seq<char>>) {
    match s {
        SessionView::Connected => match e {
            EventView::WelcomeSent => (SessionView::AwaitingName, None),
            _ => (SessionView::Closed(None), None),
        },
        SessionView::AwaitingName => match e {
            EventView::Text(t) => if trimmed(t).len() > 0 {
                (SessionView::Named(trimmed(t)), Some(joined_text(trimmed(t))))
            } else {
                (s, None)
            },
            EventView::PeerClosed | EventView::RelayEnded => (SessionView::Closed(None), None),
            _ => (s, None),
        },
        SessionView::Named(u) => match e {
            EventView::Text(t) => (s, Some(chat_text(u, t))),
            EventView::PeerClosed | EventView::RelayEnded => (
                SessionView::Closed(Some(u)),
                Some(left_text(u)),
            ),
            _ => (s, None),
        },
        SessionView::Closed(_) => (s, None),
    }
}

/// The state reached and the payloads published after `events`, starting
/// from a fresh connection.
pub open spec fn run(events: Seq<EventView>) -> (SessionView, Seq<Seq<char>>)
    decreases events.len(),
{
    if events.len() == 0 {
        (SessionView::Connected, Seq::empty())
    } else {
        let (s, log) = run(events.drop_last());
        let (s2, p) = next(s, events.last());
        match p {
            Some(m) => (s2, log.push(m)),
            None => (s2, log),
        }
    }
}

fn with_suffix(u: &String, suffix: &str) -> (r: String)
    ensures
        r@ == u@ + suffix@,
{
    let mut r = u.clone();
    r.append(suffix);
    r
}

/// Takes one event on a connection in state `state`.
pub fn step(state: SessionState, event: SessionEvent) -> (r: Transition)
    ensures
        (r.state@, opt_view(r.publish)) == next(state@, event@),
        r.start_relay == (state@ is AwaitingName && r.state@ is Named),
{
    proof {
        reveal_strlit(" joined");
        reveal_strlit(" left");
        reveal_strlit(": ");
    }
    match state {
        SessionState::Connected => match event {
            SessionEvent::WelcomeSent => Transition {
                state: SessionState::AwaitingName,
                publish: None,
                start_relay: false,
            },
            _ => Transition { state: SessionState::Closed(None), publish: None, start_relay: false },
        },
        SessionState::AwaitingName => match event {
            SessionEvent::Text(t) => {
                let name = trim_text(t.as_str());
                if name.as_str().is_empty() {
                    Transition { state: SessionState::AwaitingName, publish: None, start_relay: false }
                } else {
                    let msg = with_suffix(&name, " joined");
                    Transition { state: SessionState::Named(name), publish: Some(msg), start_relay: true }
                }
            },
            SessionEvent::PeerClosed | SessionEvent::RelayEnded => Transition {
                state: SessionState::Closed(None),
                publish: None,
                start_relay: false,
            },
            _ => Transition { state: SessionState::AwaitingName, publish: None, start_relay: false },
        },
        SessionState::Named(u) => match event {
            SessionEvent::Text(t) => {
                let mut msg = with_suffix(&u, ": ");
                msg.append(t.as_str());
                Transition { state: SessionState::Named(u), publish: Some(msg), start_relay: false }
            },
            SessionEvent::PeerClosed | SessionEvent::RelayEnded => {
                let msg = with_suffix(&u, " left");
                Transition { state: SessionState::Closed(Some(u)), publish: Some(msg), start_relay: false }
            },
            _ => Transition { state: SessionState::Named(u), publish: None, start_relay: false },
        },
        SessionState::Closed(u) => Transition { state: SessionState::Closed(u), publish: None, start_relay: false },
    }
}

/// What the forwarding task does with one receive from its subscription.
pub enum Relay {
    /// Write this payload to the peer.
    Deliver(String),
    /// Payloads were skipped; carry on.
    Skip,
    /// Nothing new yet; wait for the next publish.
    Wait,
    /// The hub is closed; end the task.
    Stop,
}

/// Forwarding policy: payloads go out in order, a lag is not fatal, and only
/// a closed hub ends the task.
pub fn relay(outcome: RecvOutcome) -> (r: Relay)
    ensures
        match outcome {
            RecvOutcome::Message(m) => r matches Relay::Deliver(d) && d@ == m@,
            RecvOutcome::Lagged(_) => r is Skip,
            RecvOutcome::Empty => r is Wait,
            RecvOutcome::Closed => r is Stop,
        },
{
    match outcome {
        RecvOutcome::Message(m) => Relay::Deliver(m),
        RecvOutcome::Lagged(_) => Relay::Skip,
        RecvOutcome::Empty => Relay::Wait,
        RecvOutcome::Closed => Relay::Stop,
    }
}

/// Whether `log` is what a session named `u` publishes: its join first and
/// nowhere else, then only chat lines of `u`, and, once `closed`, its leave
/// last and nowhere else.
pub open spec fn bracketed(u: Seq<char>, log: Seq<Seq<char>>, closed: bool) -> bool {
    let end = if closed { log.len() - 1 } else { log.len() as int };
    &&& log.len() >= (if closed { 2int } else { 1int })
    &&& log[0] == joined_text(u)
    &&& forall|i: int| 1 <= i < end ==> exists|t: Seq<char>| #[trigger] log[i] == chat_text(u, t)
    &&& closed ==> log.last() == left_text(u)
    &&& forall|i: int| 1 <= i < log.len() ==> #[trigger] log[i] != joined_text(u)
    &&& forall|i: int| 0 <= i < end ==> #[trigger] log[i] != left_text(u)
}

/// Presence bracketing: whatever the events, a connection publishes nothing
/// until it is named `u`; from then on its first payload is the only join of
/// `u`, every later one is a chat line of `u` but for, once closed, the last,
/// which is the only leave of `u`.
pub proof fn lemma_presence_bracketing(events: Seq<EventView>)
    ensures
        ({
            let (s, log) = run(events);
            match s {
                SessionView::Named(u) => bracketed(u, log, false),
                SessionView::Closed(Some(u)) => bracketed(u, log, true),
                _ => log.len() == 0,
            }
        }),
    decreases events.len(),
{
    if events.len() > 0 {
        lemma_presence_bracketing(events.drop_last());
        let (s, log) = run(events.drop_last());
        let e = events.last();
        let (s2, p) = next(s, e);
        let log2 = match p {
            Some(m) => log.push(m),
            None => log,
        };
        assert(run(events) == (s2, log2));
        match s {
            SessionView::AwaitingName => {
                if let EventView::Text(t) = e {
                    lemma_presence_distinct(trimmed(t), Seq::empty());
                }
            },
            SessionView::Named(u) => {
                match e {
                    EventView::Text(t) => {
                        lemma_presence_distinct(u, t);
                        assert(log2.last() == chat_text(u, t));
                        assert forall|i: int| 1 <= i < log2.len() implies exists|t2: Seq<char>|
                            #[trigger] log2[i] == chat_text(u, t2) by {
                            if i == log.len() {
                                assert(log2[i] == chat_text(u, t));
                            } else {
                                assert(log2[i] == log[i]);
                            }
                        }
                    },
                    EventView::PeerClosed | EventView::RelayEnded => {
                        lemma_presence_distinct(u, Seq::empty());
                        assert forall|i: int| 1 <= i < log2.len() - 1 implies exists|t2: Seq<char>|
                            #[trigger] log2[i] == chat_text(u, t2) by {
                            assert(log2[i] == log[i]);
                        }
                    },
                    _ => {},
                }
            },
            _ => {},
        }
    }
}

/// Each presence line of a session named `u` occurs once in what it
/// publishes: chat lines are never taken for a join or a leave.
pub proof fn lemma_presence_distinct(u: Seq<char>, t: Seq<char>)
    ensures
        chat_text(u, t) != joined_text(u),
        chat_text(u, t) != left_text(u),
        joined_text(u) != left_text(u),
{
    reveal_strlit(" joined");
    reveal_strlit(" left");
    reveal_strlit(": ");
    assert(chat_text(u, t)[u.len() as int] == ':');
    assert(joined_text(u)[u.len() as int + 1] == 'j');
    assert(left_text(u)[u.len() as int + 1] == 'l');
}

} // verus!
