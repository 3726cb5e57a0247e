//! One operation of the controller while the driver carries it out.
//!
//! An operation is a fixed list of commands. The driver asks for the next
//! command, performs it and reports how it went; the first failure ends the
//! operation, and the commands after it are never handed out.

use crate::command::{startup_steps, Command};
use crate::error::{TrainError, TrainErrorView};
use vstd::prelude::*;

verus! {

/// The commands of one operation and how far the driver has come with them.
#[derive(Debug)]
pub struct Operation {
    steps: Vec<Command>,
    done: usize,
    failure: Option<TrainError>,
    startup: bool,
}

impl Operation {
    #[verifier::type_invariant]
    spec fn inv(self) -> bool {
        &&& self.done <= self.steps.len()
        &&& self.failure is Some ==> self.done < self.steps.len()
        &&& self.startup ==> self.steps@ == startup_steps()
    }

    /// The commands of the operation, in the order in which they are to be
    /// performed.
    pub closed spec fn plan(&self) -> Seq<Command> {
        self.steps@
    }

    /// How many commands the driver has reported as performed.
    pub closed spec fn completed(&self) -> nat {
        self.done as nat
    }

    /// The error that ended the operation, if a command failed.
    pub closed spec fn failure(&self) -> Option<TrainErrorView> {
        match self.failure {
            Some(e) => Some(e@),
            None => None,
        }
    }

    /// Whether this is the operation that brings the board up.
    pub closed spec fn is_startup(&self) -> bool {
        self.startup
    }

    /// An operation as it is handed to the driver: nothing performed yet,
    /// nothing failed.
    pub open spec fn fresh(&self, plan: Seq<Command>) -> bool {
        &&& self.plan() == plan
        &&& self.completed() == 0
        &&& self.failure() is None
    }

    /// Whether the operation is over: a command failed, or all were
    /// performed.
    pub open spec fn finished(&self) -> bool {
        self.failure() is Some || self.completed() >= self.plan().len()
    }

    /// Whether every command was performed.
    pub open spec fn succeeded(&self) -> bool {
        self.failure() is None && self.completed() >= self.plan().len()
    }

    /// The commands that were performed, in order.
    pub open spec fn performed(&self) -> Seq<Command> {
        self.plan().take(self.completed() as int)
    }

    /// The command that the driver has to perform next.
    pub open spec fn pending(&self) -> Option<Command> {
        if self.finished() {
            None
        } else {
            Some(self.plan()[self.completed() as int])
        }
    }

    /// The operation that consists of `steps`.
    pub(crate) fn new(steps: Vec<Command>) -> (op: Operation)
        ensures
            op.fresh(steps@),
            !op.is_startup(),
    {
        Operation { steps, done: 0, failure: None, startup: false }
    }

    /// The operation that brings the board up.
    pub(crate) fn startup(steps: Vec<Command>) -> (op: Operation)
        requires
            steps@ == startup_steps(),
        ensures
            op.fresh(startup_steps()),
            op.is_startup(),
    {
        Operation { steps, done: 0, failure: None, startup: true }
    }

    /// The commands of the operation.
    pub fn steps(&self) -> (steps: &Vec<Command>)
        ensures
            steps@ == self.plan(),
    {
        &self.steps
    }

    /// Whether this is the operation that brings the board up.
    pub fn opens_board(&self) -> (b: bool)
        ensures
            b == self.is_startup(),
    {
        self.startup
    }

    /// Whether the operation is over.
    pub fn is_finished(&self) -> (b: bool)
        ensures
            b == self.finished(),
    {
        self.failure.is_some() || self.done >= self.steps.len()
    }

    /// The command to perform next, or `None` once the operation is over.
    pub fn next(&self) -> (c: Option<Command>)
        ensures
            c == self.pending(),
    {
        if self.failure.is_some() || self.done >= self.steps.len() {
            None
        } else {
            Some(self.steps[self.done])
        }
    }

    /// Takes the driver's report on the pending command: `Ok` when it was
    /// performed, `Err` with a description when it failed. A failure ends
    /// the operation. A report on an operation that is over is ignored.
    pub fn report(&mut self, outcome: Result<(), String>)
        ensures
            final(self).plan() == old(self).plan(),
            final(self).is_startup() == old(self).is_startup(),
            final(self).completed() <= final(self).plan().len(),
            final(self).completed() == old(self).completed() + (if !old(self).finished()
                && outcome is Ok {
                1nat
            } else {
                0nat
            }),
            final(self).failure() == (match outcome {
                Err(cause) if !old(self).finished() => Some(
                    old(self).pending().unwrap().failure(cause@),
                ),
                _ => old(self).failure(),
            }),
    {
        proof {
            use_type_invariant(&*self);
        }
        if self.failure.is_some() || self.done >= self.steps.len() {
            return ;
        }
        match outcome {
            Ok(_) => {
                self.done = self.done + 1;
            },
            Err(cause) => {
                let e = self.steps[self.done].fail(cause.as_str());
                self.failure = Some(e);
            },
        }
    }

    /// The result of the operation: `Ok` when every command was performed,
    /// the error of the failed command when one failed. An operation that is
    /// still under way has no result yet, which is reported as
    /// `NotSupported`.
    pub fn finish(self) -> (r: Result<(), TrainError>)
        ensures
            match r {
                Ok(_) => self.succeeded(),
                Err(e) => !self.succeeded() && e@ == (match self.failure() {
                    Some(failure) => failure,
                    None => TrainErrorView::NotSupported,
                }),
            },
    {
        match self.failure {
            Some(e) => Err(e),
            None => {
                if self.done >= self.steps.len() {
                    Ok(())
                } else {
                    Err(TrainError::NotSupported)
                }
            },
        }
    }
}

} // verus!
