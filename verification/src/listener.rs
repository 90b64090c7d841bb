//! The callback listener: what it does with a pushed body, and the order in
//! which it and the query loop start.

use vstd::prelude::*;
use vstd::string::*;
use crate::decode::{decode, decoded};
use crate::format::{lines_model, outputs, render};
use crate::json::parsed_value;
use crate::text::{append_decimal, decimal_text};

verus! {

/// What is shown for a body pushed to the listener at a terminal width.
pub fn handle_push(body: &str, terminal_width: usize) -> (r: Vec<String>)
    ensures
        lines_model(r@) == outputs(decoded(parsed_value(body@), body@), terminal_width),
{
    let d = decode(body);
    render(&d, terminal_width)
}

/// The body with which the listener answers every push.
pub fn acknowledgement() -> (r: &'static str)
    ensures
        r@ == "Embox OK"@,
{
    "Embox OK"
}

/// The address that the listener binds: every interface, at `port`.
pub fn bind_address(port: u16) -> (r: String)
    ensures
        r@ == "0.0.0.0:"@ + decimal_text(port as nat),
{
    let mut out = String::from_str("0.0.0.0:");
    append_decimal(&mut out, port);
    out
}

/// Where the listener stands.
#[derive(Clone, Copy, PartialEq, Eq, Structural, Debug)]
pub enum Listener {
    /// Its port is not bound yet.
    Unbound,
    /// Its port is bound and it accepts pushes.
    Serving,
    /// Its port could not be bound.
    Failed,
}

/// The state of a session in callback mode.
#[derive(Clone, Copy, PartialEq, Eq, Structural, Debug)]
pub struct Session {
    pub listener: Listener,
    /// How often the listener has signalled that it is ready.
    pub signals_sent: u64,
    /// How often the query loop has taken such a signal.
    pub signals_seen: u64,
    /// How many queries have been handed out for sending.
    pub queries: u64,
}

/// What happens to a session.
#[derive(Clone, Copy, PartialEq, Eq, Structural, Debug)]
pub enum Event {
    /// The listener bound its port.
    BindSucceeded,
    /// The listener could not bind its port.
    BindFailed,
    /// The query loop asks for the readiness signal.
    ReadyAwaited,
    /// The query loop has a query to send.
    QueryRead,
}

/// What the caller has to do next.
#[derive(Clone, Copy, PartialEq, Eq, Structural, Debug)]
pub enum Action {
    /// Signal readiness, then serve.
    SignalReady,
    /// Give the whole process up.
    Abort,
    /// Enter the query loop.
    StartLoop,
    /// Send the query.
    SendQuery,
    /// Keep waiting: the listener is not known to be ready.
    Wait,
    /// Nothing.
    Ignore,
}

/// A session in which nothing has happened yet.
pub open spec fn initial() -> Session {
    Session { listener: Listener::Unbound, signals_sent: 0, signals_seen: 0, queries: 0 }
}

/// The session after an event.
pub open spec fn next_state(s: Session, e: Event) -> Session {
    match e {
        Event::BindSucceeded => if s.listener == Listener::Unbound && s.signals_sent < u64::MAX {
            Session {
                listener: Listener::Serving,
                signals_sent: (s.signals_sent + 1) as u64,
                ..s
            }
        } else {
            s
        },
        Event::BindFailed => if s.listener == Listener::Unbound {
            Session { listener: Listener::Failed, ..s }
        } else {
            s
        },
        Event::ReadyAwaited => if s.signals_seen < s.signals_sent {
            Session { signals_seen: (s.signals_seen + 1) as u64, ..s }
        } else {
            s
        },
        Event::QueryRead => if s.signals_seen > 0 && s.queries < u64::MAX {
            Session { queries: (s.queries + 1) as u64, ..s }
        } else {
            s
        },
    }
}

/// What the caller has to do after an event.
pub open spec fn next_action(s: Session, e: Event) -> Action {
    match e {
        Event::BindSucceeded => if s.listener == Listener::Unbound && s.signals_sent < u64::MAX {
            Action::SignalReady
        } else {
            Action::Ignore
        },
        Event::BindFailed => if s.listener == Listener::Unbound {
            Action::Abort
        } else {
            Action::Ignore
        },
        Event::ReadyAwaited => if s.signals_seen < s.signals_sent {
            Action::StartLoop
        } else {
            Action::Wait
        },
        Event::QueryRead => if s.signals_seen > 0 {
            Action::SendQuery
        } else {
            Action::Wait
        },
    }
}

/// The session after a run of events, from the start.
pub open spec fn state_after(events: Seq<Event>) -> Session
    decreases events.len(),
{
    if events.len() == 0 {
        initial()
    } else {
        next_state(state_after(events.drop_last()), events.last())
    }
}

/// What holds of every session that can be reached: at most one signal is
/// sent, and only by a listener that is serving; no signal is taken that
/// was not sent; and no query is handed out before the signal was taken.
pub open spec fn ordered(s: Session) -> bool {
    &&& s.signals_seen <= s.signals_sent <= 1
    &&& s.signals_sent == 1 <==> s.listener == Listener::Serving
    &&& s.queries > 0 ==> s.signals_seen == 1
}

impl Session {
    /// A session in which nothing has happened yet.
    pub fn new() -> (s: Session)
        ensures
            s == initial(),
    {
        Session { listener: Listener::Unbound, signals_sent: 0, signals_seen: 0, queries: 0 }
    }

    /// Takes one event: moves the session on and says what to do.
    pub fn advance(&mut self, e: Event) -> (a: Action)
        ensures
            *final(self) == next_state(*old(self), e),
            a == next_action(*old(self), e),
    {
        match e {
            Event::BindSucceeded => {
                if self.listener == Listener::Unbound && self.signals_sent < u64::MAX {
                    self.listener = Listener::Serving;
                    self.signals_sent = self.signals_sent + 1;
                    Action::SignalReady
                } else {
                    Action::Ignore
                }
            },
            Event::BindFailed => {
                if self.listener == Listener::Unbound {
                    self.listener = Listener::Failed;
                    Action::Abort
                } else {
                    Action::Ignore
                }
            },
            Event::ReadyAwaited => {
                if self.signals_seen < self.signals_sent {
                    self.signals_seen = self.signals_seen + 1;
                    Action::StartLoop
                } else {
                    Action::Wait
                }
            },
            Event::QueryRead => {
                if self.signals_seen > 0 {
                    if self.queries < u64::MAX {
                        self.queries = self.queries + 1;
                    }
                    Action::SendQuery
                } else {
                    Action::Wait
                }
            },
        }
    }

    /// Whether a query may be sent: the readiness signal has been taken.
    pub fn may_send(&self) -> (r: bool)
        ensures
            r == (self.signals_seen > 0),
    {
        self.signals_seen > 0
    }
}

/// An event keeps a session in order.
pub proof fn step_keeps_order(s: Session, e: Event)
    requires
        ordered(s),
    ensures
        ordered(next_state(s, e)),
{
}

/// Whatever happens, and in whatever order, the readiness signal is sent at
/// most once, taken at most once and only after it was sent, and taken
/// before any query is handed out for sending.
pub proof fn readiness_precedes_queries(events: Seq<Event>)
    ensures
        ordered(state_after(events)),
    decreases events.len(),
{
    if events.len() > 0 {
        readiness_precedes_queries(events.drop_last());
        step_keeps_order(state_after(events.drop_last()), events.last());
    }
}

/// A query is handed out for sending only in a session whose listener has
/// bound its port, signalled once, and whose signal has been taken once.
pub proof fn query_needs_readiness(events: Seq<Event>)
    requires
        next_action(state_after(events), Event::QueryRead) == Action::SendQuery,
    ensures
        state_after(events).listener == Listener::Serving,
        state_after(events).signals_sent == 1,
        state_after(events).signals_seen == 1,
{
    readiness_precedes_queries(events);
}

} // verus!
