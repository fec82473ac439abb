//! Progress through a planned build: which step runs next, and how the run
//! ends. The first failing step ends the run with that step's failure, and
//! no later step is handed out.
use vstd::prelude::*;
use crate::arch::Mode;
use crate::error::BuildError;
use crate::flutter::{failure_of, BuildPlan, StepModel};

verus! {

/// The state of a run through the steps of a plan.
#[derive(Clone, Copy, Debug)]
pub struct BuildRun {
    /// Index of the next step to perform.
    pub next: usize,
    /// How the run ended, once it has.
    pub result: Option<Result<(), BuildError>>,
}

/// The index of the step that a run in state `run` performs now, if any.
pub open spec fn pending_step(run: BuildRun, n_steps: nat) -> Option<nat> {
    if run.result is None && run.next < n_steps {
        Some(run.next as nat)
    } else {
        None
    }
}

impl BuildRun {
    /// A run that has not performed any step.
    pub fn new() -> (r: BuildRun)
        ensures
            r.next == 0,
            r.result is None,
    {
        BuildRun { next: 0, result: None }
    }

    /// The index of the step to perform now; `None` once the run is over.
    pub fn pending(&self, plan: &BuildPlan) -> (r: Option<usize>)
        ensures
            r == (match pending_step(*self, plan.steps@.len()) {
                Some(i) => Some(i as usize),
                None => None::<usize>,
            }),
    {
        if self.result.is_none() && self.next < plan.steps.len() {
            Some(self.next)
        } else {
            None
        }
    }

    /// Records how the pending step's tool ended: `Ok` moves on to the next
    /// step (and ends the run successfully after the last one); `Err(code)`
    /// ends the run with the step's failure. Without a pending step nothing
    /// changes.
    pub fn finish_step(&mut self, plan: &BuildPlan, mode: Mode, exit: Result<(), Option<i32>>)
        ensures
            match pending_step(*old(self), plan.steps@.len()) {
                None => *final(self) == *old(self),
                Some(i) => match exit {
                    Ok(()) => final(self).next == i + 1 && final(self).result == (if i + 1
                        == plan.steps@.len() {
                        Some(Ok::<(), BuildError>(()))
                    } else {
                        None::<Result<(), BuildError>>
                    }),
                    Err(code) => final(self).next == i && final(self).result == Some(
                        Err::<(), BuildError>(failure_of(plan.steps@[i as int]@, mode, code)),
                    ),
                },
            },
    {
        if self.result.is_some() || self.next >= plan.steps.len() {
            return;
        }
        match exit {
            Ok(()) => {
                self.next = self.next + 1;
                if self.next == plan.steps.len() {
                    self.result = Some(Ok(()));
                }
            },
            Err(code) => {
                let e = plan.steps[self.next].failure(mode, code);
                self.result = Some(Err(e));
            },
        }
    }

    /// Ends the run with `e` when a step could not be carried out (a
    /// library to merge is missing, a manifest cannot be edited). Without a
    /// pending step nothing changes.
    pub fn abort(&mut self, plan: &BuildPlan, e: BuildError)
        ensures
            match pending_step(*old(self), plan.steps@.len()) {
                None => *final(self) == *old(self),
                Some(i) => final(self).next == i && final(self).result == Some(
                    Err::<(), BuildError>(e),
                ),
            },
    {
        if self.result.is_some() || self.next >= plan.steps.len() {
            return;
        }
        self.result = Some(Err(e));
    }
}

/// A run that has ended hands out no further step: after a build of a
/// target fails, or a library to merge is missing, neither that group's
/// merge nor the generation of bindings runs.
pub proof fn lemma_ended_run_stops(run: BuildRun, n_steps: nat)
    requires
        run.result is Some,
    ensures
        pending_step(run, n_steps) is None,
{
}

/// A failed build of a target ends the run with a build failure naming
/// that target and the mode.
pub proof fn lemma_compile_failure_names_target(step: StepModel, mode: Mode, code: Option<i32>)
    requires
        step is Compile,
    ensures
        failure_of(step, mode, code) == (BuildError::Compile { arch: step->Compile_arch, mode, code }),
{
}

} // verus!
