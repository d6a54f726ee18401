//! Session lifecycle: `Disconnected → Connecting → Joined → Running →
//! {Closed | Errored}`.

use vstd::prelude::*;

verus! {

/// Where a session stands.
#[derive(Clone, Copy, Debug, PartialEq, Eq, Structural)]
pub enum Phase {
    /// Nothing has been attempted yet.
    Disconnected,
    /// The transport is being opened and the handshake frame sent.
    Connecting,
    /// The handshake frame has been sent.
    Joined,
    /// The receive loop and the keepalive timer are running.
    Running,
    /// The transport closed cleanly.
    Closed,
    /// The transport failed.
    Errored,
}

/// What the transport side reports to the session.
#[derive(Clone, Copy, Debug, PartialEq, Eq, Structural)]
pub enum Signal {
    /// Connecting has begun.
    Open,
    /// The handshake frame was sent.
    JoinSent,
    /// Background processing starts.
    Start,
    /// The peer closed the transport.
    Close,
    /// Connecting failed, or the transport broke.
    Fail,
}

/// The phase that follows `phase` on `signal`; `None` where the signal has no
/// place in that phase.
pub open spec fn next_phase(phase: Phase, signal: Signal) -> Option<Phase> {
    match (phase, signal) {
        (Phase::Disconnected, Signal::Open) => Some(Phase::Connecting),
        (Phase::Connecting, Signal::JoinSent) => Some(Phase::Joined),
        (Phase::Joined, Signal::Start) => Some(Phase::Running),
        (Phase::Running, Signal::Close) => Some(Phase::Closed),
        (Phase::Connecting, Signal::Fail) => Some(Phase::Errored),
        (Phase::Joined, Signal::Fail) => Some(Phase::Errored),
        (Phase::Running, Signal::Fail) => Some(Phase::Errored),
        _ => None,
    }
}

/// Position of a phase along the lifecycle.
pub open spec fn rank(phase: Phase) -> nat {
    match phase {
        Phase::Disconnected => 0,
        Phase::Connecting => 1,
        Phase::Joined => 2,
        Phase::Running => 3,
        Phase::Closed => 4,
        Phase::Errored => 4,
    }
}

/// Computes `next_phase`.
pub fn step(phase: Phase, signal: Signal) -> (next: Option<Phase>)
    ensures
        next == next_phase(phase, signal),
{
    match phase {
        Phase::Disconnected => match signal {
            Signal::Open => Some(Phase::Connecting),
            _ => None,
        },
        Phase::Connecting => match signal {
            Signal::JoinSent => Some(Phase::Joined),
            Signal::Fail => Some(Phase::Errored),
            _ => None,
        },
        Phase::Joined => match signal {
            Signal::Start => Some(Phase::Running),
            Signal::Fail => Some(Phase::Errored),
            _ => None,
        },
        Phase::Running => match signal {
            Signal::Close => Some(Phase::Closed),
            Signal::Fail => Some(Phase::Errored),
            _ => None,
        },
        Phase::Closed => None,
        Phase::Errored => None,
    }
}

/// Every transition moves strictly forward. So no session returns to
/// `Connecting`, and `Closed` and `Errored` are final.
pub proof fn lifecycle_moves_forward(phase: Phase, signal: Signal)
    ensures
        match next_phase(phase, signal) {
            Some(next) => rank(phase) < rank(next),
            None => true,
        },
        next_phase(phase, signal) == Some(Phase::Connecting) ==> phase == Phase::Disconnected,
        phase == Phase::Closed || phase == Phase::Errored ==> next_phase(phase, signal).is_none(),
{
}

} // verus!
