//! The session orchestrator: the coordinator's state machine.
//!
//! The machine performs nothing itself. It is handed what happened, as an
//! [`Event`], and answers with what is to be done next, as an [`Action`]; the
//! process around it carries the action out and reports back. Signals from
//! the bus may arrive at any moment and in any order; every other event is
//! the completion of the action asked for last.

use crate::command::{command_of, start_target, stop_target, texts, Command, CommandView};
use crate::environment::{commands, propagation, propagation_commands, Binding, EnvReport};
use crate::rendezvous::{
    claim_refusal, probe_resolves_readiness, refusal, resolves_readiness, Claim, ProbeOutcome,
    StartError,
};
use vstd::prelude::*;

verus! {

/// Unit marker type of the coordinator's module. It holds nothing and takes
/// no part in the protocol.
pub struct Test;

/// Where a session stands.
#[derive(Clone, Copy, Debug, PartialEq, Eq, Structural)]
pub enum Phase {
    /// Readiness of the runtime is not settled yet.
    AwaitingReady,
    /// Readiness is settled; the server is being launched.
    SpawningServer,
    /// The server runs; its environment report has not come.
    AwaitingEnvironment,
    /// The report is being pushed to the session manager.
    PropagatingEnvironment,
    /// The session target was asked for; the server runs.
    SessionActive,
    /// The server is gone; the session target is being stopped.
    Draining,
    /// Nothing is left to do.
    Terminated,
}

impl Phase {
    /// The phase's place in the order in which a session goes through them.
    pub open spec fn rank(self) -> nat {
        match self {
            Phase::AwaitingReady => 0,
            Phase::SpawningServer => 1,
            Phase::AwaitingEnvironment => 2,
            Phase::PropagatingEnvironment => 3,
            Phase::SessionActive => 4,
            Phase::Draining => 5,
            Phase::Terminated => 6,
        }
    }
}

/// How an action ended. The machine goes on alike after either.
#[derive(Clone, Copy, Debug, PartialEq, Eq, Structural)]
pub enum Outcome {
    Succeeded,
    Failed,
}

/// The one-shot slot for the server's environment report.
#[derive(Debug)]
pub enum ReportSlot {
    /// No report has come.
    Empty,
    /// The first report, not yet used.
    Holding(EnvReport),
    /// The first report was taken out and used.
    Consumed,
}

/// What a [`ReportSlot`] stands for.
pub enum SlotView {
    Empty,
    Holding(Seq<Binding>),
    Consumed,
}

impl View for ReportSlot {
    type V = SlotView;

    open spec fn view(&self) -> SlotView {
        match self {
            ReportSlot::Empty => SlotView::Empty,
            ReportSlot::Holding(report) => SlotView::Holding(report@),
            ReportSlot::Consumed => SlotView::Consumed,
        }
    }
}

/// The slot after `report` was offered to it: an empty slot takes the
/// report, any other slot stays as it is and the report is lost.
pub open spec fn offered(slot: SlotView, report: Seq<Binding>) -> SlotView {
    match slot {
        SlotView::Empty => SlotView::Holding(report),
        _ => slot,
    }
}

impl ReportSlot {
    /// Offers `report` to the slot. The first report offered is kept; every
    /// later one is dropped, and the offer still returns. Tells whether the
    /// report was kept.
    pub fn offer(&mut self, report: EnvReport) -> (kept: bool)
        ensures
            final(self)@ == offered(old(self)@, report@),
            kept == (old(self)@ is Empty),
    {
        match self {
            ReportSlot::Empty => {
                *self = ReportSlot::Holding(report);
                true
            },
            _ => false,
        }
    }

    /// Takes the report out of the slot, if one is held. The slot does not
    /// become free again.
    pub fn take(&mut self) -> (report: Option<EnvReport>)
        ensures
            match old(self)@ {
                SlotView::Holding(held) => {
                    &&& final(self)@ is Consumed
                    &&& report matches Some(r)
                    &&& r@ == held
                },
                _ => final(self)@ == old(self)@ && report is None,
            },
    {
        let mut slot = ReportSlot::Consumed;
        core::mem::swap(self, &mut slot);
        match slot {
            ReportSlot::Holding(report) => Some(report),
            ReportSlot::Empty => {
                *self = ReportSlot::Empty;
                None
            },
            ReportSlot::Consumed => None,
        }
    }
}

/// What happened.
#[derive(Debug)]
pub enum Event {
    /// The attempt to publish the coordinator's endpoint ended.
    Claimed(Claim),
    /// The presence probe ended.
    Probed(ProbeOutcome),
    /// Signal: the runtime is ready.
    RuntimeReady,
    /// Signal: the server is up and reports its environment.
    ServerStarted(EnvReport),
    /// The server's process was launched; nobody waits for it yet.
    ServerSpawned,
    /// All the requests that push the environment have ended.
    EnvironmentPropagated(Outcome),
    /// The request to start the session target has ended.
    TargetStartRequested(Outcome),
    /// Waiting for the server's process has ended.
    ServerExited(Outcome),
    /// The request to stop the session target has ended.
    TargetStopRequested(Outcome),
}

/// What an [`Event`] stands for.
pub enum EventView {
    Claimed(Claim),
    Probed(ProbeOutcome),
    RuntimeReady,
    ServerStarted(Seq<Binding>),
    ServerSpawned,
    EnvironmentPropagated(Outcome),
    TargetStartRequested(Outcome),
    ServerExited(Outcome),
    TargetStopRequested(Outcome),
}

impl View for Event {
    type V = EventView;

    open spec fn view(&self) -> EventView {
        match self {
            Event::Claimed(claim) => EventView::Claimed(*claim),
            Event::Probed(probe) => EventView::Probed(*probe),
            Event::RuntimeReady => EventView::RuntimeReady,
            Event::ServerStarted(report) => EventView::ServerStarted(report@),
            Event::ServerSpawned => EventView::ServerSpawned,
            Event::EnvironmentPropagated(outcome) => EventView::EnvironmentPropagated(*outcome),
            Event::TargetStartRequested(outcome) => EventView::TargetStartRequested(*outcome),
            Event::ServerExited(outcome) => EventView::ServerExited(*outcome),
            Event::TargetStopRequested(outcome) => EventView::TargetStopRequested(*outcome),
        }
    }
}

/// What is to be done next.
#[derive(Debug, PartialEq, Eq)]
pub enum Action {
    /// Publish the coordinator's endpoint; report `Claimed`.
    ClaimEndpoint,
    /// Try to reach the igniter's endpoint; report `Probed`.
    ProbeIgniter,
    /// Nothing new: wait for the next signal or completion.
    Wait,
    /// Launch the server without waiting for it; report `ServerSpawned`.
    SpawnServer(Command),
    /// Run all these requests side by side and wait for all of them,
    /// whatever becomes of each; report `EnvironmentPropagated`.
    SetEnvironment(Vec<Command>),
    /// Ask for the session target; report `TargetStartRequested`.
    StartTarget(Command),
    /// Wait for the server's process to end; report `ServerExited`.
    AwaitServer,
    /// Ask for the session target to be stopped; report `TargetStopRequested`.
    StopTarget(Command),
    /// The session is over.
    Exit,
    /// The session could not begin.
    Abort(StartError),
}

/// What an [`Action`] stands for.
pub enum ActionView {
    ClaimEndpoint,
    ProbeIgniter,
    Wait,
    SpawnServer(CommandView),
    SetEnvironment(Seq<CommandView>),
    StartTarget(CommandView),
    AwaitServer,
    StopTarget(CommandView),
    Exit,
    Abort(StartError),
}

impl View for Action {
    type V = ActionView;

    open spec fn view(&self) -> ActionView {
        match self {
            Action::ClaimEndpoint => ActionView::ClaimEndpoint,
            Action::ProbeIgniter => ActionView::ProbeIgniter,
            Action::Wait => ActionView::Wait,
            Action::SpawnServer(command) => ActionView::SpawnServer(command@),
            Action::SetEnvironment(requests) => ActionView::SetEnvironment(commands(requests@)),
            Action::StartTarget(command) => ActionView::StartTarget(command@),
            Action::AwaitServer => ActionView::AwaitServer,
            Action::StopTarget(command) => ActionView::StopTarget(command@),
            Action::Exit => ActionView::Exit,
            Action::Abort(error) => ActionView::Abort(*error),
        }
    }
}

/// One session: the unit that the coordinator brings up and takes down.
#[derive(Debug)]
pub struct Session {
    phase: Phase,
    claimed: bool,
    ready: bool,
    slot: ReportSlot,
    server: Command,
}

/// What a [`Session`] stands for.
pub struct SessionView {
    /// Where the session stands.
    pub phase: Phase,
    /// The coordinator's endpoint is published.
    pub claimed: bool,
    /// The readiness latch: the runtime is known to be ready.
    pub ready: bool,
    /// The slot for the environment report.
    pub slot: SlotView,
    /// The command that launches the server.
    pub server: CommandView,
}

impl View for Session {
    type V = SessionView;

    closed spec fn view(&self) -> SessionView {
        SessionView {
            phase: self.phase,
            claimed: self.claimed,
            ready: self.ready,
            slot: self.slot@,
            server: self.server@,
        }
    }
}

/// The session that has done nothing yet.
pub open spec fn fresh(server: CommandView) -> SessionView {
    SessionView {
        phase: Phase::AwaitingReady,
        claimed: false,
        ready: false,
        slot: SlotView::Empty,
        server,
    }
}

impl SessionView {
    /// What holds of every session that began fresh: the latch is set exactly
    /// from the launch of the server on, a report is used exactly from its
    /// propagation on, and nothing is heard before the endpoint is published.
    pub open spec fn wf(self) -> bool {
        &&& self.ready ==> self.claimed
        &&& !self.claimed ==> self.slot is Empty
        &&& self.phase == Phase::AwaitingReady ==> !self.ready
        &&& 1 <= self.phase.rank() <= 5 ==> self.ready
        &&& self.phase.rank() <= 1 ==> !(self.slot is Consumed)
        &&& self.phase == Phase::AwaitingEnvironment ==> self.slot is Empty
        &&& 3 <= self.phase.rank() <= 5 ==> self.slot is Consumed
        &&& self.phase == Phase::Terminated ==> (self.ready <==> self.slot is Consumed)
    }

    /// The bus can deliver signals to this session.
    pub open spec fn listening(self) -> bool {
        self.claimed && self.phase != Phase::Terminated
    }
}

/// The event changes nothing.
pub open spec fn idle(s: SessionView) -> (SessionView, ActionView) {
    (
        s,
        if s.phase == Phase::Terminated {
            ActionView::Exit
        } else {
            ActionView::Wait
        },
    )
}

/// Readiness is settled: the latch is set and the server is launched.
pub open spec fn launch(s: SessionView) -> (SessionView, ActionView) {
    (SessionView { phase: Phase::SpawningServer, ready: true, ..s }, ActionView::SpawnServer(s.server))
}

/// A session that waits for the report goes on to propagate it as soon as
/// the slot holds one.
pub open spec fn settle(s: SessionView) -> (SessionView, ActionView) {
    match s.slot {
        SlotView::Holding(report) if s.phase == Phase::AwaitingEnvironment => (
            SessionView { phase: Phase::PropagatingEnvironment, slot: SlotView::Consumed, ..s },
            ActionView::SetEnvironment(propagation(report)),
        ),
        _ => (s, ActionView::Wait),
    }
}

/// The transition function: the session after `e`, and the action that `e`
/// calls for.
pub open spec fn next(s: SessionView, e: EventView) -> (SessionView, ActionView) {
    match e {
        EventView::Claimed(claim) => {
            if s.phase == Phase::AwaitingReady && !s.claimed {
                match refusal(claim) {
                    None => (SessionView { claimed: true, ..s }, ActionView::ProbeIgniter),
                    Some(error) => (
                        SessionView { phase: Phase::Terminated, ..s },
                        ActionView::Abort(error),
                    ),
                }
            } else {
                idle(s)
            }
        },
        EventView::Probed(probe) => {
            if s.phase == Phase::AwaitingReady && s.claimed && resolves_readiness(probe) {
                launch(s)
            } else {
                idle(s)
            }
        },
        EventView::RuntimeReady => {
            if s.phase == Phase::AwaitingReady && s.claimed {
                launch(s)
            } else {
                idle(s)
            }
        },
        EventView::ServerStarted(report) => {
            if s.listening() {
                settle(SessionView { slot: offered(s.slot, report), ..s })
            } else {
                idle(s)
            }
        },
        EventView::ServerSpawned => {
            if s.phase == Phase::SpawningServer {
                settle(SessionView { phase: Phase::AwaitingEnvironment, ..s })
            } else {
                idle(s)
            }
        },
        EventView::EnvironmentPropagated(_) => {
            if s.phase == Phase::PropagatingEnvironment {
                (
                    SessionView { phase: Phase::SessionActive, ..s },
                    ActionView::StartTarget(start_target()),
                )
            } else {
                idle(s)
            }
        },
        EventView::TargetStartRequested(_) => {
            if s.phase == Phase::SessionActive {
                (s, ActionView::AwaitServer)
            } else {
                idle(s)
            }
        },
        EventView::ServerExited(_) => {
            if s.phase == Phase::SessionActive {
                (SessionView { phase: Phase::Draining, ..s }, ActionView::StopTarget(stop_target()))
            } else {
                idle(s)
            }
        },
        EventView::TargetStopRequested(_) => {
            if s.phase == Phase::Draining {
                (SessionView { phase: Phase::Terminated, ..s }, ActionView::Exit)
            } else {
                idle(s)
            }
        },
    }
}

/// Begins a session for the given server launch command. An empty command
/// is refused, before anything is asked of the bus. Otherwise the session is
/// fresh and its first action is to publish the coordinator's endpoint.
pub fn run_main_process(server_command: Vec<String>) -> (begun: Result<(Session, Action), StartError>)
    ensures
        match begun {
            Ok((session, action)) => {
                &&& command_of(texts(server_command@)) == Some(session@.server)
                &&& session@ == fresh(session@.server)
                &&& session@.wf()
                &&& action@ == ActionView::ClaimEndpoint
            },
            Err(error) => server_command@.len() == 0 && error == StartError::EmptyCommand,
        },
{
    match Command::from_words(server_command) {
        Some(server) => Ok(
            (
                Session {
                    phase: Phase::AwaitingReady,
                    claimed: false,
                    ready: false,
                    slot: ReportSlot::Empty,
                    server,
                },
                Action::ClaimEndpoint,
            ),
        ),
        None => Err(StartError::EmptyCommand),
    }
}

impl Session {
    /// Where the session stands.
    pub fn phase(&self) -> (phase: Phase)
        ensures
            phase == self@.phase,
    {
        self.phase
    }

    /// Whether the coordinator's endpoint is published.
    pub fn is_claimed(&self) -> (claimed: bool)
        ensures
            claimed == self@.claimed,
    {
        self.claimed
    }

    /// Whether the runtime is known to be ready.
    pub fn is_ready(&self) -> (ready: bool)
        ensures
            ready == self@.ready,
    {
        self.ready
    }

    /// The slot for the environment report.
    pub fn slot(&self) -> (slot: &ReportSlot)
        ensures
            slot@ == self@.slot,
    {
        &self.slot
    }

    /// Whether the session is over.
    pub fn is_terminated(&self) -> (over: bool)
        ensures
            over == (self@.phase == Phase::Terminated),
    {
        self.phase == Phase::Terminated
    }

    /// The action for an event that changes nothing.
    fn idle(&self) -> (action: Action)
        ensures
            (self@, action@) == idle(self@),
    {
        if self.phase == Phase::Terminated {
            Action::Exit
        } else {
            Action::Wait
        }
    }

    /// Sets the latch and asks for the server to be launched.
    fn launch(&mut self) -> (action: Action)
        ensures
            (final(self)@, action@) == launch(old(self)@),
    {
        self.phase = Phase::SpawningServer;
        self.ready = true;
        Action::SpawnServer(self.server.duplicate())
    }

    /// Goes on to propagate the report if the session waits for it and the
    /// slot holds one.
    fn settle(&mut self) -> (action: Action)
        ensures
            (final(self)@, action@) == settle(old(self)@),
    {
        if self.phase == Phase::AwaitingEnvironment {
            match self.slot.take() {
                Some(report) => {
                    self.phase = Phase::PropagatingEnvironment;
                    Action::SetEnvironment(propagation_commands(report))
                },
                None => Action::Wait,
            }
        } else {
            Action::Wait
        }
    }

    /// Takes one event and answers with the action it calls for. Every event
    /// is accepted in every phase: one that the phase has no use for changes
    /// nothing.
    pub fn step(&mut self, event: Event) -> (action: Action)
        ensures
            (final(self)@, action@) == next(old(self)@, event@),
            old(self)@.wf() ==> final(self)@.wf(),
    {
        proof {
            lemma_next_keeps_wf(self@, event@);
        }
        match event {
            Event::Claimed(claim) => {
                if self.phase == Phase::AwaitingReady && !self.claimed {
                    match claim_refusal(claim) {
                        None => {
                            self.claimed = true;
                            Action::ProbeIgniter
                        },
                        Some(error) => {
                            self.phase = Phase::Terminated;
                            Action::Abort(error)
                        },
                    }
                } else {
                    self.idle()
                }
            },
            Event::Probed(probe) => {
                if self.phase == Phase::AwaitingReady && self.claimed && probe_resolves_readiness(
                    probe,
                ) {
                    self.launch()
                } else {
                    self.idle()
                }
            },
            Event::RuntimeReady => {
                if self.phase == Phase::AwaitingReady && self.claimed {
                    self.launch()
                } else {
                    self.idle()
                }
            },
            Event::ServerStarted(report) => {
                if self.claimed && self.phase != Phase::Terminated {
                    self.slot.offer(report);
                    self.settle()
                } else {
                    self.idle()
                }
            },
            Event::ServerSpawned => {
                if self.phase == Phase::SpawningServer {
                    self.phase = Phase::AwaitingEnvironment;
                    self.settle()
                } else {
                    self.idle()
                }
            },
            Event::EnvironmentPropagated(_) => {
                if self.phase == Phase::PropagatingEnvironment {
                    self.phase = Phase::SessionActive;
                    Action::StartTarget(Command::start_target())
                } else {
                    self.idle()
                }
            },
            Event::TargetStartRequested(_) => {
                if self.phase == Phase::SessionActive {
                    Action::AwaitServer
                } else {
                    self.idle()
                }
            },
            Event::ServerExited(_) => {
                if self.phase == Phase::SessionActive {
                    self.phase = Phase::Draining;
                    Action::StopTarget(Command::stop_target())
                } else {
                    self.idle()
                }
            },
            Event::TargetStopRequested(_) => {
                if self.phase == Phase::Draining {
                    self.phase = Phase::Terminated;
                    Action::Exit
                } else {
                    self.idle()
                }
            },
        }
    }
}

/// A fresh session is well formed, and no event leads a well-formed session
/// to one that is not.
pub proof fn lemma_next_keeps_wf(s: SessionView, e: EventView)
    ensures
        fresh(s.server).wf(),
        s.wf() ==> next(s, e).0.wf(),
{
}

} // verus!
