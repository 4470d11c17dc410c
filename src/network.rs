//! Demand-driven lifecycle of the radio.
//!
//! The radio is powered only while some task asks for the network. A failed
//! connection attempt is retried after a fixed back-off; once more than
//! `FAILURE_THRESHOLD` attempts in a row have failed, the manager withdraws
//! the demand and powers the radio down.
//!
//! `NetworkLifecycle::step` is the whole decision: the task that owns the
//! radio turns what happened into a `NetEvent`, and carries out the
//! `NetAction` it gets back.

use vstd::prelude::*;

verus! {

/// Consecutive failed connection attempts that are still retried.
pub const FAILURE_THRESHOLD: u8 = 3;

/// Wait between a failed connection attempt and the next one.
pub const BACKOFF_MS: u64 = 5000;

#[derive(Clone, Copy, Debug, PartialEq, Eq, Structural)]
pub enum NetState {
    Stopped,
    Starting,
    Connecting,
    Connected,
    Disconnecting,
}

/// What happened since the last step.
#[derive(Clone, Copy, Debug, PartialEq, Eq, Structural)]
pub enum NetEvent {
    /// The demand for the network was raised (`true`) or withdrawn.
    Demand(bool),
    /// The radio has taken its configuration and started.
    RadioStarted,
    /// The association with the access point succeeded.
    ConnectSucceeded,
    /// The association attempt failed.
    ConnectFailed,
    /// The back-off after a failed attempt is over.
    BackoffElapsed,
    /// The link dropped without being asked to. While the network is asked
    /// for, a reconnection follows; otherwise the radio is powered down.
    LinkLost,
    /// The radio has been powered down.
    RadioStopped,
}

/// What the radio task must do next.
#[derive(Clone, Copy, Debug, PartialEq, Eq, Structural)]
pub enum NetAction {
    /// Nothing.
    Idle,
    /// Apply the client configuration and start the radio.
    StartRadio,
    /// Try to associate.
    Connect,
    /// Wait `BACKOFF_MS`, then report `BackoffElapsed`.
    Backoff,
    /// Disconnect and power the radio down, then report `RadioStopped`.
    PowerDown,
    /// Too many failures: the demand has been withdrawn and the lifecycle
    /// is stopped; power the radio down.
    GiveUp,
}

/// An event that cannot happen in the current state: a fault in the task
/// that drives the lifecycle.
#[derive(Clone, Copy, Debug, PartialEq, Eq, Structural)]
pub struct UnexpectedEvent {
    pub state: NetState,
    pub event: NetEvent,
}

/// The observable state of the lifecycle.
#[derive(Clone, Copy, Debug, PartialEq, Eq, Structural)]
pub struct LinkStatus {
    pub state: NetState,
    /// Consecutive failed attempts since the last success or power-up.
    pub failures: u8,
    /// Whether the network is asked for.
    pub demand: bool,
}

/// The counter stays within the threshold and is zero while connected, and
/// the radio is only brought up while the network is asked for.
pub open spec fn status_wf(s: LinkStatus) -> bool {
    &&& s.failures <= FAILURE_THRESHOLD
    &&& s.state == NetState::Connected ==> s.failures == 0
    &&& (s.state == NetState::Starting || s.state == NetState::Connecting || s.state
        == NetState::Connected) ==> s.demand
}

/// The lifecycle's transition: the next status and the action, or the
/// fault for an event that cannot happen in this state.
pub open spec fn transition(s: LinkStatus, ev: NetEvent) -> (LinkStatus, Result<
    NetAction,
    UnexpectedEvent,
>) {
    let fault = (s, Err(UnexpectedEvent { state: s.state, event: ev }));
    match ev {
        NetEvent::Demand(true) => match s.state {
            NetState::Stopped => (
                LinkStatus { state: NetState::Starting, failures: 0, demand: true },
                Ok(NetAction::StartRadio),
            ),
            _ => (LinkStatus { demand: true, ..s }, Ok(NetAction::Idle)),
        },
        NetEvent::Demand(false) => match s.state {
            NetState::Stopped | NetState::Disconnecting => (
                LinkStatus { demand: false, ..s },
                Ok(NetAction::Idle),
            ),
            _ => (
                LinkStatus { state: NetState::Disconnecting, failures: s.failures, demand: false },
                Ok(NetAction::PowerDown),
            ),
        },
        NetEvent::RadioStarted => match s.state {
            NetState::Starting => (
                LinkStatus { state: NetState::Connecting, ..s },
                Ok(NetAction::Connect),
            ),
            _ => fault,
        },
        NetEvent::ConnectSucceeded => match s.state {
            NetState::Connecting => (
                LinkStatus { state: NetState::Connected, failures: 0, demand: s.demand },
                Ok(NetAction::Idle),
            ),
            _ => fault,
        },
        NetEvent::ConnectFailed => match s.state {
            NetState::Connecting => if s.failures >= FAILURE_THRESHOLD {
                (
                    LinkStatus { state: NetState::Stopped, failures: 0, demand: false },
                    Ok(NetAction::GiveUp),
                )
            } else {
                (
                    LinkStatus { failures: (s.failures + 1) as u8, ..s },
                    Ok(NetAction::Backoff),
                )
            },
            _ => fault,
        },
        NetEvent::BackoffElapsed => match s.state {
            NetState::Connecting => (s, Ok(NetAction::Connect)),
            _ => fault,
        },
        NetEvent::LinkLost => match s.state {
            NetState::Connected => if s.demand {
                (LinkStatus { state: NetState::Connecting, ..s }, Ok(NetAction::Backoff))
            } else {
                (LinkStatus { state: NetState::Disconnecting, ..s }, Ok(NetAction::PowerDown))
            },
            NetState::Connecting => (s, Ok(NetAction::Idle)),
            _ => fault,
        },
        NetEvent::RadioStopped => match s.state {
            NetState::Disconnecting => if s.demand {
                (
                    LinkStatus { state: NetState::Starting, failures: 0, demand: true },
                    Ok(NetAction::StartRadio),
                )
            } else {
                (
                    LinkStatus { state: NetState::Stopped, failures: 0, demand: false },
                    Ok(NetAction::Idle),
                )
            },
            _ => fault,
        },
    }
}

/// The radio's lifecycle state machine.
pub struct NetworkLifecycle {
    status: LinkStatus,
}

impl View for NetworkLifecycle {
    type V = LinkStatus;

    closed spec fn view(&self) -> LinkStatus {
        self.status
    }
}

impl NetworkLifecycle {
    /// A lifecycle with the radio off and no demand.
    pub fn new() -> (r: Self)
        ensures
            r@ == (LinkStatus { state: NetState::Stopped, failures: 0, demand: false }),
    {
        NetworkLifecycle { status: LinkStatus { state: NetState::Stopped, failures: 0, demand: false } }
    }

    /// The current status.
    pub fn status(&self) -> (r: LinkStatus)
        ensures
            r == self@,
    {
        self.status
    }

    /// Takes one event and says what to do about it.
    pub fn step(&mut self, ev: NetEvent) -> (r: Result<NetAction, UnexpectedEvent>)
        requires
            status_wf(old(self)@),
        ensures
            status_wf(final(self)@),
            (final(self)@, r) == transition(old(self)@, ev),
    {
        let s = self.status;
        let fault = Err(UnexpectedEvent { state: s.state, event: ev });
        match ev {
            NetEvent::Demand(true) => match s.state {
                NetState::Stopped => {
                    self.status = LinkStatus { state: NetState::Starting, failures: 0, demand: true };
                    Ok(NetAction::StartRadio)
                },
                _ => {
                    self.status = LinkStatus { demand: true, ..s };
                    Ok(NetAction::Idle)
                },
            },
            NetEvent::Demand(false) => match s.state {
                NetState::Stopped | NetState::Disconnecting => {
                    self.status = LinkStatus { demand: false, ..s };
                    Ok(NetAction::Idle)
                },
                _ => {
                    self.status = LinkStatus {
                        state: NetState::Disconnecting,
                        failures: s.failures,
                        demand: false,
                    };
                    Ok(NetAction::PowerDown)
                },
            },
            NetEvent::RadioStarted => match s.state {
                NetState::Starting => {
                    self.status = LinkStatus { state: NetState::Connecting, ..s };
                    Ok(NetAction::Connect)
                },
                _ => fault,
            },
            NetEvent::ConnectSucceeded => match s.state {
                NetState::Connecting => {
                    self.status = LinkStatus { state: NetState::Connected, failures: 0, demand: s.demand };
                    Ok(NetAction::Idle)
                },
                _ => fault,
            },
            NetEvent::ConnectFailed => match s.state {
                NetState::Connecting => {
                    if s.failures >= FAILURE_THRESHOLD {
                        self.status = LinkStatus { state: NetState::Stopped, failures: 0, demand: false };
                        Ok(NetAction::GiveUp)
                    } else {
                        self.status = LinkStatus { failures: s.failures + 1, ..s };
                        Ok(NetAction::Backoff)
                    }
                },
                _ => fault,
            },
            NetEvent::BackoffElapsed => match s.state {
                NetState::Connecting => Ok(NetAction::Connect),
                _ => fault,
            },
            NetEvent::LinkLost => match s.state {
                NetState::Connected => {
                    if s.demand {
                        self.status = LinkStatus { state: NetState::Connecting, ..s };
                        Ok(NetAction::Backoff)
                    } else {
                        self.status = LinkStatus { state: NetState::Disconnecting, ..s };
                        Ok(NetAction::PowerDown)
                    }
                },
                NetState::Connecting => Ok(NetAction::Idle),
                _ => fault,
            },
            NetEvent::RadioStopped => match s.state {
                NetState::Disconnecting => {
                    if s.demand {
                        self.status = LinkStatus { state: NetState::Starting, failures: 0, demand: true };
                        Ok(NetAction::StartRadio)
                    } else {
                        self.status = LinkStatus { state: NetState::Stopped, failures: 0, demand: false };
                        Ok(NetAction::Idle)
                    }
                },
                _ => fault,
            },
        }
    }
}

/// Starting from a fresh connection attempt, the first three consecutive
/// failures are each followed by a back-off and a retry; the fourth stops
/// the radio and withdraws the demand instead of retrying.
pub proof fn law_backoff_shutdown(demand: bool)
    ensures
        ({
            let s0 = LinkStatus { state: NetState::Connecting, failures: 0, demand };
            let (s1, a1) = transition(s0, NetEvent::ConnectFailed);
            let (s2, b1) = transition(s1, NetEvent::BackoffElapsed);
            let (s3, a2) = transition(s2, NetEvent::ConnectFailed);
            let (s4, b2) = transition(s3, NetEvent::BackoffElapsed);
            let (s5, a3) = transition(s4, NetEvent::ConnectFailed);
            let (s6, b3) = transition(s5, NetEvent::BackoffElapsed);
            let (s7, a4) = transition(s6, NetEvent::ConnectFailed);
            &&& a1 == Ok::<NetAction, UnexpectedEvent>(NetAction::Backoff)
            &&& a2 == Ok::<NetAction, UnexpectedEvent>(NetAction::Backoff)
            &&& a3 == Ok::<NetAction, UnexpectedEvent>(NetAction::Backoff)
            &&& b1 == Ok::<NetAction, UnexpectedEvent>(NetAction::Connect)
            &&& b2 == Ok::<NetAction, UnexpectedEvent>(NetAction::Connect)
            &&& b3 == Ok::<NetAction, UnexpectedEvent>(NetAction::Connect)
            &&& a4 == Ok::<NetAction, UnexpectedEvent>(NetAction::GiveUp)
            &&& s7 == (LinkStatus { state: NetState::Stopped, failures: 0, demand: false })
        }),
{
}

/// The failure counter only grows on a failed attempt made while not
/// connected, and a success clears it.
pub proof fn law_failure_counter(s: LinkStatus, ev: NetEvent)
    requires
        status_wf(s),
    ensures
        ({
            let (t, r) = transition(s, ev);
            &&& status_wf(t)
            &&& t.failures > s.failures ==> ev == NetEvent::ConnectFailed && s.state
                != NetState::Connected
            &&& ev == NetEvent::ConnectSucceeded && r is Ok ==> t.failures == 0
        }),
{
}

} // verus!
