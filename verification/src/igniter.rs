//! The igniter: the endpoint whose presence tells the coordinator that the
//! runtime is ready, the igniter's side of the handshake, and the fallback
//! for a coordinator that cannot be reached.

use crate::command::{command_of, texts, Command, CommandView};
use crate::rendezvous::{Delivery, StartError};
use vstd::prelude::*;

verus! {

/// The object published at the igniter's well-known name.
pub struct Igniter;

impl Igniter {
    /// Presence probe. The answer is always `true`: a caller learns that an
    /// igniter is alive from the fact that the call was answered at all.
    pub fn instant_ignite(&self) -> (answer: bool)
        ensures
            answer,
    {
        true
    }
}

/// What becomes of the fallback command.
#[derive(Debug, PartialEq, Eq)]
pub enum Fallback {
    /// The coordinator took the signal: no fallback is called for.
    NotNeeded,
    /// A fallback is called for, but none was supplied.
    Missing,
    /// A fallback was supplied, but it holds no word.
    Empty,
    /// This command is to be run, once, and its exit status awaited.
    Run(Command),
}

/// What a [`Fallback`] stands for.
pub enum FallbackView {
    NotNeeded,
    Missing,
    Empty,
    Run(CommandView),
}

impl View for Fallback {
    type V = FallbackView;

    open spec fn view(&self) -> FallbackView {
        match self {
            Fallback::NotNeeded => FallbackView::NotNeeded,
            Fallback::Missing => FallbackView::Missing,
            Fallback::Empty => FallbackView::Empty,
            Fallback::Run(command) => FallbackView::Run(command@),
        }
    }
}

/// How far the igniter's handshake got.
#[derive(Clone, Copy, Debug, PartialEq, Eq, Structural)]
pub enum Attempt {
    /// The igniter's endpoint could not be published, for this reason.
    Unpublished(StartError),
    /// The endpoint is published, and the signal to the coordinator ended so.
    Signalled(Delivery),
}

/// What the igniter does after its handshake.
#[derive(Debug, PartialEq, Eq)]
pub struct IgniterPlan {
    /// What becomes of the fallback command.
    pub fallback: Fallback,
    /// How the igniter ends, once the fallback is dealt with.
    pub verdict: Result<(), StartError>,
}

/// What an [`IgniterPlan`] stands for.
pub struct IgniterPlanView {
    pub fallback: FallbackView,
    pub verdict: Result<(), StartError>,
}

impl View for IgniterPlan {
    type V = IgniterPlanView;

    open spec fn view(&self) -> IgniterPlanView {
        IgniterPlanView { fallback: self.fallback@, verdict: self.verdict }
    }
}

/// The words of a fallback command, if one was supplied.
pub open spec fn supplied(fallback_command: Option<Vec<String>>) -> Option<Seq<Seq<char>>> {
    match fallback_command {
        Some(words) => Some(texts(words@)),
        None => None,
    }
}

/// What the fallback runner does with the command it is given.
pub open spec fn fallback_for(fallback_command: Option<Seq<Seq<char>>>) -> FallbackView {
    match fallback_command {
        None => FallbackView::Missing,
        Some(words) => match command_of(words) {
            None => FallbackView::Empty,
            Some(command) => FallbackView::Run(command),
        },
    }
}

/// What the igniter does after a handshake that got as far as `attempt`.
/// Only a signal that the coordinator took needs no fallback, and only an
/// endpoint that could not be published makes the igniter fail.
pub open spec fn plan_for(attempt: Attempt, fallback_command: Option<Seq<Seq<char>>>) -> IgniterPlanView {
    match attempt {
        Attempt::Unpublished(error) => IgniterPlanView {
            fallback: fallback_for(fallback_command),
            verdict: Err(error),
        },
        Attempt::Signalled(Delivery::Delivered) => IgniterPlanView {
            fallback: FallbackView::NotNeeded,
            verdict: Ok(()),
        },
        Attempt::Signalled(_) => IgniterPlanView {
            fallback: fallback_for(fallback_command),
            verdict: Ok(()),
        },
    }
}

/// The fallback runner's decision: the command to run in place of the
/// coordinator that could not be reached, if one was supplied and is not
/// empty.
pub fn start_fallback_command(fallback_command: Option<Vec<String>>) -> (fallback: Fallback)
    ensures
        fallback@ == fallback_for(supplied(fallback_command)),
{
    match fallback_command {
        None => Fallback::Missing,
        Some(words) => match Command::from_words(words) {
            None => Fallback::Empty,
            Some(command) => Fallback::Run(command),
        },
    }
}

/// The igniter's side of the handshake, once it is known how far it got.
/// A signal that was delivered ends the igniter in peace and without
/// fallback. A coordinator that could not be reached, or whose call failed,
/// calls for the fallback and is no failure. An endpoint that could not be
/// published calls for the fallback too, and the igniter fails with the
/// reason.
pub fn igniter(attempt: Attempt, fallback_command: Option<Vec<String>>) -> (plan: IgniterPlan)
    ensures
        plan@ == plan_for(attempt, supplied(fallback_command)),
{
    match attempt {
        Attempt::Unpublished(error) => IgniterPlan {
            fallback: start_fallback_command(fallback_command),
            verdict: Err(error),
        },
        Attempt::Signalled(Delivery::Delivered) => IgniterPlan {
            fallback: Fallback::NotNeeded,
            verdict: Ok(()),
        },
        Attempt::Signalled(_) => IgniterPlan {
            fallback: start_fallback_command(fallback_command),
            verdict: Ok(()),
        },
    }
}

} // verus!
