//! The loop both worker processes run, as a state machine. The caller performs
//! each action the machine asks for and feeds back what came of it, together
//! with the process-local interrupt flag; the machine decides what comes next.
//! The event process loads pending events, sleeps when there were none, then
//! checks the stop signal; the task process pops one envelope, checks the stop
//! signal, then sleeps. Either ends once the engine row asks it to stop, or
//! at its next loop head once the interrupt flag is down.
use vstd::prelude::*;

use crate::engine::ProcessKind;

verus! {

/// How long a loop sleeps between iterations, in milliseconds.
pub const IDLE_INTERVAL_MS: u64 = 2000;

/// How many tasks a task process runs at once.
pub const WORKER_POOL_SIZE: usize = 4;

/// The key of the shared work queue.
pub const QUEUE_NAME: &'static str = "tasks";

/// What reading the engine row's stop signal gave.
#[derive(Clone, Copy, Debug, PartialEq, Eq, Structural)]
pub enum StopReading {
    /// The row asks the engine to stop.
    Requested,
    /// The row does not ask the engine to stop.
    NotRequested,
    /// The engine row is gone.
    NoEngineRow,
    /// The row could not be read; the next iteration reads it again.
    Unreadable,
}

/// What came of the last action.
#[derive(Clone, Copy, Debug, PartialEq, Eq, Structural)]
pub enum LoopInput {
    /// The action is done and reports nothing.
    Done,
    /// The work step is done; whether it found anything (an event to try, a
    /// task envelope).
    Found(bool),
    /// The stop signal was read.
    StopRead(StopReading),
}

/// What the caller is to do next.
#[derive(Clone, Copy, Debug, PartialEq, Eq, Structural)]
pub enum LoopAction {
    /// Mark this process running on the engine row.
    MarkRunning,
    /// Load the events that have not succeeded and run their triggers.
    LoadEvents,
    /// Pop one envelope from the queue and hand it to the worker pool.
    PopTask,
    /// Read the engine row's stop signal.
    ReadStopSignal,
    /// Sleep for the idle interval.
    Sleep,
    /// Mark this process stopped on the engine row.
    MarkStopped,
    /// Leave the loop.
    Exit,
}

/// Which action the loop is waiting on.
#[derive(Clone, Copy, Debug, PartialEq, Eq, Structural)]
pub enum LoopStage {
    MarkingRunning,
    Working,
    CheckingStop,
    Idling,
    MarkingStopped,
    Finished,
}

/// The action a stage waits on.
pub open spec fn stage_action(kind: ProcessKind, stage: LoopStage) -> LoopAction {
    match stage {
        LoopStage::MarkingRunning => LoopAction::MarkRunning,
        LoopStage::Working => match kind {
            ProcessKind::Event => LoopAction::LoadEvents,
            ProcessKind::Task => LoopAction::PopTask,
        },
        LoopStage::CheckingStop => LoopAction::ReadStopSignal,
        LoopStage::Idling => LoopAction::Sleep,
        LoopStage::MarkingStopped => LoopAction::MarkStopped,
        LoopStage::Finished => LoopAction::Exit,
    }
}

/// The loop head: another iteration while the interrupt flag is up.
pub open spec fn loop_head(running: bool) -> LoopStage {
    if running {
        LoopStage::Working
    } else {
        LoopStage::MarkingStopped
    }
}

/// The next stage, given what came of the current stage's action and the
/// interrupt flag. An input that does not answer the current action leaves
/// the stage as it is.
pub open spec fn next_stage(kind: ProcessKind, stage: LoopStage, input: LoopInput, running: bool) -> LoopStage {
    match (stage, input) {
        (LoopStage::MarkingRunning, LoopInput::Done) => loop_head(running),
        (LoopStage::Working, LoopInput::Found(found)) => match kind {
            ProcessKind::Event => if found {
                LoopStage::CheckingStop
            } else {
                LoopStage::Idling
            },
            ProcessKind::Task => LoopStage::CheckingStop,
        },
        (LoopStage::Idling, LoopInput::Done) => match kind {
            ProcessKind::Event => LoopStage::CheckingStop,
            ProcessKind::Task => loop_head(running),
        },
        (LoopStage::CheckingStop, LoopInput::StopRead(reading)) => if reading is Requested {
            LoopStage::MarkingStopped
        } else {
            match kind {
                ProcessKind::Event => loop_head(running),
                ProcessKind::Task => LoopStage::Idling,
            }
        },
        (LoopStage::MarkingStopped, LoopInput::Done) => LoopStage::Finished,
        _ => stage,
    }
}

/// The loop of one worker process.
#[derive(Clone, Copy, Debug, PartialEq, Eq, Structural)]
pub struct ProcessLoop {
    pub kind: ProcessKind,
    pub stage: LoopStage,
}

impl ProcessLoop {
    /// A loop that has not yet marked its process running.
    pub fn new(kind: ProcessKind) -> (r: ProcessLoop)
        ensures
            r.kind == kind,
            r.stage == LoopStage::MarkingRunning,
    {
        ProcessLoop { kind, stage: LoopStage::MarkingRunning }
    }

    /// The action the loop waits on.
    pub fn action(&self) -> (r: LoopAction)
        ensures
            r == stage_action(self.kind, self.stage),
    {
        match self.stage {
            LoopStage::MarkingRunning => LoopAction::MarkRunning,
            LoopStage::Working => match self.kind {
                ProcessKind::Event => LoopAction::LoadEvents,
                ProcessKind::Task => LoopAction::PopTask,
            },
            LoopStage::CheckingStop => LoopAction::ReadStopSignal,
            LoopStage::Idling => LoopAction::Sleep,
            LoopStage::MarkingStopped => LoopAction::MarkStopped,
            LoopStage::Finished => LoopAction::Exit,
        }
    }

    /// Takes what came of the current action and returns the next one.
    pub fn advance(&mut self, input: LoopInput, running: bool) -> (r: LoopAction)
        ensures
            final(self).kind == old(self).kind,
            final(self).stage == next_stage(old(self).kind, old(self).stage, input, running),
            r == stage_action(final(self).kind, final(self).stage),
    {
        let next = match (self.stage, input) {
            (LoopStage::MarkingRunning, LoopInput::Done) => if running {
                LoopStage::Working
            } else {
                LoopStage::MarkingStopped
            },
            (LoopStage::Working, LoopInput::Found(found)) => match self.kind {
                ProcessKind::Event => if found {
                    LoopStage::CheckingStop
                } else {
                    LoopStage::Idling
                },
                ProcessKind::Task => LoopStage::CheckingStop,
            },
            (LoopStage::Idling, LoopInput::Done) => match self.kind {
                ProcessKind::Event => LoopStage::CheckingStop,
                ProcessKind::Task => if running {
                    LoopStage::Working
                } else {
                    LoopStage::MarkingStopped
                },
            },
            (LoopStage::CheckingStop, LoopInput::StopRead(reading)) => match reading {
                StopReading::Requested => LoopStage::MarkingStopped,
                _ => match self.kind {
                    ProcessKind::Event => if running {
                        LoopStage::Working
                    } else {
                        LoopStage::MarkingStopped
                    },
                    ProcessKind::Task => LoopStage::Idling,
                },
            },
            (LoopStage::MarkingStopped, LoopInput::Done) => LoopStage::Finished,
            _ => self.stage,
        };
        self.stage = next;
        self.action()
    }
}

/// With the queue empty and the stop signal set, the task loop goes from its
/// pop straight to the stop check and then to shutting down, without
/// sleeping; the event loop, finding no event, sleeps once, checks, and shuts
/// down.
pub proof fn lemma_idle_stop_is_prompt(r1: bool, r2: bool, r3: bool)
    ensures
        ({
            let s1 = next_stage(ProcessKind::Task, LoopStage::Working, LoopInput::Found(false), r1);
            &&& stage_action(ProcessKind::Task, s1) == LoopAction::ReadStopSignal
            &&& next_stage(
                ProcessKind::Task,
                s1,
                LoopInput::StopRead(StopReading::Requested),
                r2,
            ) == LoopStage::MarkingStopped
        }),
        ({
            let s1 = next_stage(ProcessKind::Event, LoopStage::Working, LoopInput::Found(false), r1);
            let s2 = next_stage(ProcessKind::Event, s1, LoopInput::Done, r2);
            &&& stage_action(ProcessKind::Event, s1) == LoopAction::Sleep
            &&& stage_action(ProcessKind::Event, s2) == LoopAction::ReadStopSignal
            &&& next_stage(
                ProcessKind::Event,
                s2,
                LoopInput::StopRead(StopReading::Requested),
                r3,
            ) == LoopStage::MarkingStopped
        }),
{
}

/// A stop signal read from the engine row always ends the loop, whatever the
/// interrupt flag says.
pub proof fn lemma_stop_signal_ends_loop(kind: ProcessKind, running: bool)
    ensures
        next_stage(kind, LoopStage::CheckingStop, LoopInput::StopRead(StopReading::Requested), running)
            == LoopStage::MarkingStopped,
        stage_action(kind, LoopStage::MarkingStopped) == LoopAction::MarkStopped,
        next_stage(kind, LoopStage::MarkingStopped, LoopInput::Done, running) == LoopStage::Finished,
{
}

/// With the interrupt flag down, a loop past its stop check shuts down
/// without starting more work.
pub proof fn lemma_interrupt_ends_loop(kind: ProcessKind, reading: StopReading)
    ensures
        ({
            let s1 = next_stage(kind, LoopStage::CheckingStop, LoopInput::StopRead(reading), false);
            let s2 = next_stage(kind, s1, LoopInput::Done, false);
            s1 == LoopStage::MarkingStopped || (s1 == LoopStage::Idling && s2
                == LoopStage::MarkingStopped)
        }),
{
}

/// A finished loop stays finished.
pub proof fn lemma_finished_is_final(kind: ProcessKind, input: LoopInput, running: bool)
    ensures
        next_stage(kind, LoopStage::Finished, input, running) == LoopStage::Finished,
{
}

} // verus!
