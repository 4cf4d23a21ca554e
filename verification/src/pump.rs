//! The streaming loop of the search adapter, as a verified decision
//! machine.
//!
//! The loop that pumps the subprocess's standard output runs outside the
//! library, because it awaits process I/O, the resolver, and the result
//! channel. Every decision it takes, however, is made here: the driver
//! feeds each observed [`Event`] to [`Pump::step`] and performs the
//! [`Action`] it is handed back. The machine never looks at a resolved
//! descriptor — the driver keeps it and forwards it when told to — so the
//! descriptor type stays fully opaque.
//!
//! The protocol per line: a non-empty line yields a request to resolve its
//! absolute path; a successful resolution yields a request to forward the
//! descriptor; then the next line is read. An empty line, or a failed
//! resolution, is skipped silently. End of output, or a disconnected
//! consumer, moves the machine to reaping: the driver awaits the
//! subprocess's exit and the machine finishes.

use vstd::prelude::*;
use vstd::string::*;
use crate::line::{join_under, joined, trim_line, trimmed};

verus! {

/// Phase of the streaming loop.
#[derive(Clone, Copy, PartialEq, Eq, Structural, Debug)]
pub enum Phase {
    /// Waiting for the next line of subprocess output.
    Reading,
    /// Waiting for the resolver's verdict on the last path handed out.
    Resolving,
    /// Waiting for the outcome of forwarding the resolved descriptor.
    Sending,
    /// Waiting for the subprocess to be reaped.
    Reaping,
    /// The loop is over.
    Done,
}

/// What the driver observed and reports to the machine.
#[derive(Debug)]
pub enum Event {
    /// A line of subprocess output.
    Line(String),
    /// The subprocess's output is exhausted (or can no longer be read).
    Eof,
    /// The resolver produced a descriptor for the requested path.
    ResolvedOk,
    /// The resolver failed on the requested path.
    ResolvedErr,
    /// The descriptor was forwarded into the result channel.
    Forwarded,
    /// The consumer dropped the channel; forwarding failed.
    Disconnected,
    /// The subprocess has been awaited and reaped.
    Reaped,
}

/// Mathematical model of an [`Event`].
pub enum EventModel {
    /// A line of subprocess output.
    Line(Seq<char>),
    /// The subprocess's output is exhausted.
    Eof,
    /// The resolver produced a descriptor.
    ResolvedOk,
    /// The resolver failed.
    ResolvedErr,
    /// The descriptor was forwarded.
    Forwarded,
    /// The consumer dropped the channel.
    Disconnected,
    /// The subprocess was reaped.
    Reaped,
}

impl View for Event {
    type V = EventModel;

    open spec fn view(&self) -> EventModel {
        match self {
            Event::Line(l) => EventModel::Line(l@),
            Event::Eof => EventModel::Eof,
            Event::ResolvedOk => EventModel::ResolvedOk,
            Event::ResolvedErr => EventModel::ResolvedErr,
            Event::Forwarded => EventModel::Forwarded,
            Event::Disconnected => EventModel::Disconnected,
            Event::Reaped => EventModel::Reaped,
        }
    }
}

/// What the machine asks the driver to do next.
#[derive(Debug)]
pub enum Action {
    /// Read the next line of subprocess output.
    NextLine,
    /// Resolve this absolute path into a descriptor.
    Resolve(String),
    /// Forward the descriptor just resolved into the result channel.
    Forward,
    /// Await the subprocess's exit to reap it.
    Reap,
    /// The loop is over; drop the channel's sending end.
    Finish,
}

/// Mathematical model of an [`Action`].
pub enum ActionModel {
    /// Read the next line.
    NextLine,
    /// Resolve this absolute path.
    Resolve(Seq<char>),
    /// Forward the descriptor just resolved.
    Forward,
    /// Reap the subprocess.
    Reap,
    /// The loop is over.
    Finish,
}

impl View for Action {
    type V = ActionModel;

    open spec fn view(&self) -> ActionModel {
        match self {
            Action::NextLine => ActionModel::NextLine,
            Action::Resolve(p) => ActionModel::Resolve(p@),
            Action::Forward => ActionModel::Forward,
            Action::Reap => ActionModel::Reap,
            Action::Finish => ActionModel::Finish,
        }
    }
}

/// The events a driver can observe in the given phase.
pub open spec fn valid_event(phase: Phase, ev: EventModel) -> bool {
    match phase {
        Phase::Reading => ev is Line || ev is Eof,
        Phase::Resolving => ev is ResolvedOk || ev is ResolvedErr,
        Phase::Sending => ev is Forwarded || ev is Disconnected,
        Phase::Reaping => ev is Reaped,
        Phase::Done => false,
    }
}

/// One decision of the streaming loop: from the working directory, the
/// current phase and the observed event to the next phase and the action
/// the driver must perform.
pub open spec fn spec_step(cwd: Seq<char>, phase: Phase, ev: EventModel) -> (Phase, ActionModel) {
    match (phase, ev) {
        (Phase::Reading, EventModel::Line(l)) => {
            if trimmed(l).len() == 0 {
                (Phase::Reading, ActionModel::NextLine)
            } else {
                (Phase::Resolving, ActionModel::Resolve(joined(cwd, trimmed(l))))
            }
        },
        (Phase::Reading, EventModel::Eof) => (Phase::Reaping, ActionModel::Reap),
        (Phase::Resolving, EventModel::ResolvedOk) => (Phase::Sending, ActionModel::Forward),
        (Phase::Resolving, EventModel::ResolvedErr) => (Phase::Reading, ActionModel::NextLine),
        (Phase::Sending, EventModel::Forwarded) => (Phase::Reading, ActionModel::NextLine),
        (Phase::Sending, EventModel::Disconnected) => (Phase::Reaping, ActionModel::Reap),
        (Phase::Reaping, EventModel::Reaped) => (Phase::Done, ActionModel::Finish),
        (_, _) => (Phase::Done, ActionModel::Finish),
    }
}

/// Whenever the loop ends early — the output is exhausted, or the
/// consumer has disconnected — the machine's one decision is to reap the
/// subprocess: the driver is told to await its exit, so the subprocess
/// outlives neither its own output nor the consumer's interest.
pub proof fn lemma_loop_always_reaps(cwd: Seq<char>, phase: Phase, ev: EventModel)
    requires
        valid_event(phase, ev),
        ev is Disconnected || ev is Eof,
    ensures
        spec_step(cwd, phase, ev).0 == Phase::Reaping,
        spec_step(cwd, phase, ev).1 == ActionModel::Reap,
{
}

/// The decision machine that owns the streaming loop's state.
pub struct Pump {
    /// The working directory the search is rooted at.
    pub cwd: String,
    /// The current phase of the loop.
    pub phase: Phase,
}

impl Pump {
    /// A fresh machine for one search rooted at `cwd`, ready to read the
    /// first line.
    pub fn new(cwd: String) -> (r: Pump)
        ensures
            r.cwd@ == cwd@,
            r.phase == Phase::Reading,
    {
        Pump { cwd, phase: Phase::Reading }
    }

    /// Feeds one observed event to the machine and returns the action the
    /// driver must perform next, exactly as [`spec_step`] decides.
    pub fn step(&mut self, ev: Event) -> (a: Action)
        requires
            valid_event(old(self).phase, ev@),
        ensures
            final(self).cwd == old(self).cwd,
            final(self).phase == spec_step(old(self).cwd@, old(self).phase, ev@).0,
            a@ == spec_step(old(self).cwd@, old(self).phase, ev@).1,
    {
        let phase = self.phase;
        match (phase, ev) {
            (Phase::Reading, Event::Line(l)) => {
                let t = trim_line(l.as_str());
                if t.as_str().unicode_len() == 0 {
                    Action::NextLine
                } else {
                    self.phase = Phase::Resolving;
                    Action::Resolve(join_under(self.cwd.as_str(), t.as_str()))
                }
            },
            (Phase::Reading, Event::Eof) => {
                self.phase = Phase::Reaping;
                Action::Reap
            },
            (Phase::Resolving, Event::ResolvedOk) => {
                self.phase = Phase::Sending;
                Action::Forward
            },
            (Phase::Resolving, Event::ResolvedErr) => {
                self.phase = Phase::Reading;
                Action::NextLine
            },
            (Phase::Sending, Event::Forwarded) => {
                self.phase = Phase::Reading;
                Action::NextLine
            },
            (Phase::Sending, Event::Disconnected) => {
                self.phase = Phase::Reaping;
                Action::Reap
            },
            (_, _) => {
                self.phase = Phase::Done;
                Action::Finish
            },
        }
    }
}

} // verus!
