//! The bridge driver's decisions: what each connection-level observation
//! means for the thread that owns the native event loop. The loop itself,
//! the connection object and the outbound channel live outside the
//! library; they report plain observations here and act on the answers.

use vstd::prelude::*;

verus! {

/// State of the native connection, as its state callback reports it.
#[derive(Clone, Copy, Debug, PartialEq, Eq, Structural)]
pub enum ContextState {
    Unconnected,
    Connecting,
    Authorizing,
    SettingName,
    Ready,
    Failed,
    Terminated,
}

/// Outcome of one iteration of the native event loop.
#[derive(Clone, Copy, Debug, PartialEq, Eq, Structural)]
pub enum IterateOutcome {
    Success,
    Quit,
    Failure,
}

/// What the driver should do next while waiting for the connection.
#[derive(Clone, Copy, Debug, PartialEq, Eq, Structural)]
pub enum ConnectionGate {
    /// The connection is ready: arm the subscription and build the stream.
    Proceed,
    /// Still connecting: iterate the loop again.
    Wait,
    /// Failed or terminated: fatal, the bridge thread exits.
    Fatal,
}

/// An event-loop iteration that quits or errs is fatal to the whole
/// bridge; only a successful iteration lets the driver continue.
pub fn iterate_is_fatal(outcome: IterateOutcome) -> (r: bool)
    ensures
        r <==> (outcome is Quit || outcome is Failure),
{
    match outcome {
        IterateOutcome::Success => false,
        IterateOutcome::Quit => true,
        IterateOutcome::Failure => true,
    }
}

/// The readiness gate: proceed exactly on `Ready`, give up exactly on
/// `Failed` or `Terminated`, keep iterating on every transient state.
pub fn connection_gate(state: ContextState) -> (r: ConnectionGate)
    ensures
        r is Proceed <==> state is Ready,
        r is Fatal <==> (state is Failed || state is Terminated),
        r is Wait <==> !(state is Ready || state is Failed || state is Terminated),
{
    match state {
        ContextState::Ready => ConnectionGate::Proceed,
        ContextState::Failed => ConnectionGate::Fatal,
        ContextState::Terminated => ConnectionGate::Fatal,
        _ => ConnectionGate::Wait,
    }
}

/// How forwarding one assembled message to the consumer went.
#[derive(Clone, Copy, Debug, PartialEq, Eq, Structural)]
pub enum ForwardOutcome {
    Delivered,
    ChannelFull,
    ChannelClosed,
}

/// A failure to forward a message is never fatal: a full channel means the
/// item is dropped and the bridge continues, and a gone consumer means the
/// same. A slow or absent consumer must never stall the native loop.
pub fn forward_is_fatal(outcome: ForwardOutcome) -> (r: bool)
    ensures
        r == false,
{
    match outcome {
        ForwardOutcome::Delivered => false,
        ForwardOutcome::ChannelFull => false,
        ForwardOutcome::ChannelClosed => false,
    }
}

} // verus!
