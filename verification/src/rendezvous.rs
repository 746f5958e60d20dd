//! The rendezvous between coordinator and igniter: what each side can learn
//! about the other over the bus, and how the coordinator decides from it
//! whether the runtime is already ready.

use vstd::prelude::*;

verus! {

/// The outcome of claiming a well-known name on the bus.
#[derive(Clone, Copy, Debug, PartialEq, Eq, Structural)]
pub enum Claim {
    /// The name is now held by this process.
    Granted,
    /// Another process holds the name already.
    NameInUse,
    /// The bus could not be reached, or refused the endpoint for another reason.
    BusUnavailable,
}

/// The outcome of the presence probe: an attempt to reach the igniter's endpoint.
#[derive(Clone, Copy, Debug, PartialEq, Eq, Structural)]
pub enum ProbeOutcome {
    /// The igniter answered, with this value.
    Answered(bool),
    /// No igniter could be reached.
    Unreachable,
}

/// The outcome of an attempt to call the coordinator.
#[derive(Clone, Copy, Debug, PartialEq, Eq, Structural)]
pub enum Delivery {
    /// The coordinator took the call.
    Delivered,
    /// No proxy to the coordinator's endpoint could be made.
    ProxyUnavailable,
    /// The endpoint was there, but the call itself failed.
    InvocationFailed,
}

/// Why a process gives up before it has done anything.
#[derive(Clone, Copy, Debug, PartialEq, Eq, Structural)]
pub enum StartError {
    /// The server launch command is empty.
    EmptyCommand,
    /// The endpoint's name is held by another process.
    NameInUse,
    /// The endpoint could not be published.
    BusUnavailable,
}

/// Whether a probe's outcome settles that the runtime is ready. An igniter
/// that can be reached has been started by the runtime's trigger, so its
/// presence stands for the trigger; what it answers carries no weight.
pub open spec fn resolves_readiness(probe: ProbeOutcome) -> bool {
    probe is Answered
}

/// The error that a refused claim ends a process with.
pub open spec fn refusal(claim: Claim) -> Option<StartError> {
    match claim {
        Claim::Granted => None,
        Claim::NameInUse => Some(StartError::NameInUse),
        Claim::BusUnavailable => Some(StartError::BusUnavailable),
    }
}

/// Decides from the presence probe whether readiness is settled, or whether
/// the coordinator has to wait for the direct signal.
pub fn probe_resolves_readiness(probe: ProbeOutcome) -> (resolved: bool)
    ensures
        resolved == resolves_readiness(probe),
{
    match probe {
        ProbeOutcome::Answered(_) => true,
        ProbeOutcome::Unreachable => false,
    }
}

/// The error that a claim's outcome ends the claiming process with, if any.
pub fn claim_refusal(claim: Claim) -> (error: Option<StartError>)
    ensures
        error == refusal(claim),
{
    match claim {
        Claim::Granted => None,
        Claim::NameInUse => Some(StartError::NameInUse),
        Claim::BusUnavailable => Some(StartError::BusUnavailable),
    }
}

} // verus!
