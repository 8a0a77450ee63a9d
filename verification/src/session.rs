//! One session per duplex connection: its life cycle, what it does with each
//! inbound frame, and the liveness monitor that prunes a dead peer.

use vstd::prelude::*;
use crate::message::BroadcastMessage;

verus! {

/// Where a session is in its life. `Closed` is terminal.
#[derive(Debug, Clone, Copy, PartialEq, Eq, Structural)]
pub enum Phase {
    Connecting,
    Open,
    Closing,
    Closed,
}

/// One inbound event of the connection.
#[derive(Debug, PartialEq, Eq)]
pub enum Inbound {
    /// A text frame: an encoded command.
    Text(String),
    /// A binary frame.
    Binary(Vec<u8>),
    /// A liveness probe of the peer.
    Ping(Vec<u8>),
    /// The peer's answer to a liveness probe.
    Pong(Vec<u8>),
    /// The peer closes the connection.
    Close,
    /// A frame that carries nothing for the session.
    Other,
    /// The transport reported a protocol violation.
    Failed,
}

/// What the connection's owner is to do next for the session.
#[derive(Debug, PartialEq, Eq)]
pub enum Action {
    Nothing,
    /// Decode the text as a command and dispatch it for this session.
    Dispatch(String),
    /// Send a binary frame.
    Binary(Vec<u8>),
    /// Answer a liveness probe.
    Pong(Vec<u8>),
    /// Send a liveness probe.
    Ping,
    /// Send a text frame.
    Text(String),
    /// Enter the session in the registry.
    Register(u64),
    /// Take the session out of the registry.
    Deregister(u64),
    /// Close the connection.
    Stop,
}

/// The state of one session. Times are readings of one monotonic clock, in
/// a unit of the caller's choice.
#[derive(Debug, Clone, Copy, PartialEq, Eq, Structural)]
pub struct WsSession {
    /// The handle under which the session is registered.
    pub addr: u64,
    pub phase: Phase,
    /// When the peer last answered a liveness probe.
    pub hb: u64,
    /// The time between two ticks of the liveness monitor.
    pub period: u64,
    /// How long the peer may stay silent.
    pub timeout: u64,
}

impl WsSession {
    /// Whether the peer has been silent for longer than the timeout at `now`.
    pub open spec fn expired(self, now: u64) -> bool {
        now - self.hb > self.timeout
    }

    /// The session after the connection was accepted at `now`.
    pub open spec fn after_started(self, now: u64) -> WsSession {
        if self.phase == Phase::Connecting {
            WsSession { phase: Phase::Open, hb: now, ..self }
        } else {
            self
        }
    }

    /// What a session does when the connection was accepted: it probes the
    /// peer and registers.
    pub open spec fn start_actions(self) -> Seq<Action> {
        if self.phase == Phase::Connecting {
            seq![Action::Ping, Action::Register(self.addr)]
        } else {
            Seq::<Action>::empty()
        }
    }

    /// The session after the inbound event `msg` at `now`.
    pub open spec fn after_frame(self, msg: Inbound, now: u64) -> WsSession {
        if self.phase != Phase::Open {
            self
        } else {
            match msg {
                Inbound::Pong(_) => WsSession { hb: now, ..self },
                Inbound::Close => WsSession { phase: Phase::Closing, ..self },
                Inbound::Failed => WsSession { phase: Phase::Closing, ..self },
                _ => self,
            }
        }
    }

    /// What an open session does with the inbound event `msg`; a session
    /// that is not open does nothing.
    pub open spec fn frame_action(self, msg: Inbound) -> Action {
        if self.phase != Phase::Open {
            Action::Nothing
        } else {
            match msg {
                Inbound::Text(text) => Action::Dispatch(text),
                Inbound::Binary(data) => Action::Binary(data),
                Inbound::Ping(data) => Action::Pong(data),
                Inbound::Pong(_) => Action::Nothing,
                Inbound::Close => Action::Stop,
                Inbound::Other => Action::Nothing,
                Inbound::Failed => Action::Stop,
            }
        }
    }

    /// The session after a tick of the liveness monitor at `now`.
    pub open spec fn after_tick(self, now: u64) -> WsSession {
        if self.phase == Phase::Open && self.expired(now) {
            WsSession { phase: Phase::Closing, ..self }
        } else {
            self
        }
    }

    /// What a tick of the liveness monitor at `now` asks for: a probe while
    /// the peer is within its timeout, else the end of the connection.
    pub open spec fn tick_action(self, now: u64) -> Action {
        if self.phase != Phase::Open {
            Action::Nothing
        } else if self.expired(now) {
            Action::Stop
        } else {
            Action::Ping
        }
    }

    /// Whether the session is in the registry by its own doing.
    pub open spec fn registered(self) -> bool {
        self.phase == Phase::Open || self.phase == Phase::Closing
    }

    /// The session after the connection went away.
    pub open spec fn after_stopped(self) -> WsSession {
        WsSession { phase: Phase::Closed, ..self }
    }

    /// What a session does when the connection went away: it deregisters,
    /// if it had registered and has not deregistered yet.
    pub open spec fn stop_action(self) -> Action {
        if self.registered() {
            Action::Deregister(self.addr)
        } else {
            Action::Nothing
        }
    }

    /// What a session does with a payload addressed to it: an open session
    /// sends it as a text frame, any other drops it.
    pub open spec fn delivery(self, msg: BroadcastMessage) -> Action {
        if self.phase == Phase::Open {
            Action::Text(msg.0)
        } else {
            Action::Nothing
        }
    }

    /// A session for a connection that is being accepted at `now`.
    pub fn new(addr: u64, now: u64, period: u64, timeout: u64) -> (session: Self)
        ensures
            session == (WsSession { addr, phase: Phase::Connecting, hb: now, period, timeout }),
    {
        WsSession { addr, phase: Phase::Connecting, hb: now, period, timeout }
    }

    /// The connection was accepted at `now`: the session opens, probes the
    /// peer and registers. In any later phase nothing happens.
    pub fn started(&mut self, now: u64) -> (actions: Vec<Action>)
        ensures
            *final(self) == old(self).after_started(now),
            actions@ == old(self).start_actions(),
    {
        let mut actions: Vec<Action> = Vec::new();
        match self.phase {
            Phase::Connecting => {
                self.phase = Phase::Open;
                self.hb = now;
                actions.push(Action::Ping);
                actions.push(Action::Register(self.addr));
            },
            _ => {},
        }
        assert(actions@ =~= old(self).start_actions());
        actions
    }

    /// Takes one inbound event at `now`.
    ///
    /// An open session hands a text frame on for dispatch, echoes a binary
    /// frame unchanged, answers a probe with the probe's own bytes, notes
    /// the time of a probe response, and starts closing on a close frame or
    /// a protocol violation. A session that is not open processes nothing.
    pub fn handle(&mut self, msg: Inbound, now: u64) -> (action: Action)
        ensures
            *final(self) == old(self).after_frame(msg, now),
            action == old(self).frame_action(msg),
    {
        match self.phase {
            Phase::Open => {},
            _ => {
                return Action::Nothing;
            },
        }
        match msg {
            Inbound::Text(text) => Action::Dispatch(text),
            Inbound::Binary(data) => Action::Binary(data),
            Inbound::Ping(data) => Action::Pong(data),
            Inbound::Pong(_) => {
                self.hb = now;
                Action::Nothing
            },
            Inbound::Close => {
                self.phase = Phase::Closing;
                Action::Stop
            },
            Inbound::Other => Action::Nothing,
            Inbound::Failed => {
                self.phase = Phase::Closing;
                Action::Stop
            },
        }
    }

    /// One tick of the liveness monitor at `now`: an open session whose peer
    /// answered within the timeout probes it again, one whose peer did not
    /// starts closing.
    pub fn tick(&mut self, now: u64) -> (action: Action)
        ensures
            *final(self) == old(self).after_tick(now),
            action == old(self).tick_action(now),
    {
        match self.phase {
            Phase::Open => {
                if now > self.hb && now - self.hb > self.timeout {
                    self.phase = Phase::Closing;
                    Action::Stop
                } else {
                    Action::Ping
                }
            },
            _ => Action::Nothing,
        }
    }

    /// The connection went away. The session is closed from here on, and
    /// deregisters if it is in the registry.
    pub fn stopped(&mut self) -> (action: Action)
        ensures
            *final(self) == old(self).after_stopped(),
            action == old(self).stop_action(),
    {
        let action = match self.phase {
            Phase::Open => Action::Deregister(self.addr),
            Phase::Closing => Action::Deregister(self.addr),
            _ => Action::Nothing,
        };
        self.phase = Phase::Closed;
        action
    }

    /// Takes a payload addressed to this session.
    pub fn deliver(&self, msg: BroadcastMessage) -> (action: Action)
        ensures
            action == self.delivery(msg),
    {
        match self.phase {
            Phase::Open => Action::Text(msg.0),
            _ => Action::Nothing,
        }
    }
}

} // verus!
