//! The runner: drives a batch of commands strictly in order and stops at the
//! first failure.
//!
//! The runner holds the batch and a cursor. The caller asks for the current
//! command, performs it (that part is outside work), and records the
//! outcome. A success advances the cursor; a failure ends the batch at once
//! and carries its cause out as the batch result. No command past a failure
//! is ever current again.

use vstd::prelude::*;

use crate::catalog::UpdateCommand;
use crate::executor::Outcome;

verus! {

/// Where the batch stands.
#[derive(Debug)]
pub enum BatchStatus {
    Running,
    Succeeded,
    Failed(String),
}

/// A batch of commands and the progress through it.
#[derive(Debug)]
pub struct Runner {
    pub commands: Vec<UpdateCommand>,
    pub next: usize,
    pub status: BatchStatus,
}

impl Runner {
    /// The cursor never passes the end, and a running batch has a current
    /// command.
    pub open spec fn wf(self) -> bool {
        &&& self.next <= self.commands.len()
        &&& self.status is Running ==> self.next < self.commands.len()
    }

    /// A new batch over the given commands; an empty batch has already
    /// succeeded.
    pub fn new(commands: Vec<UpdateCommand>) -> (r: Runner)
        ensures
            r.wf(),
            r.commands@ == commands@,
            r.next == 0,
            commands@.len() == 0 ==> r.status is Succeeded,
            commands@.len() > 0 ==> r.status is Running,
    {
        let status = if commands.len() == 0 {
            BatchStatus::Succeeded
        } else {
            BatchStatus::Running
        };
        Runner { commands, next: 0, status }
    }

    /// The command to perform now: the one under the cursor while the batch
    /// runs, nothing once it has finished.
    pub fn current(&self) -> (c: Option<&UpdateCommand>)
        requires
            self.wf(),
        ensures
            self.status is Running ==> (c matches Some(x) && *x == self.commands@[self.next
                as int]),
            !(self.status is Running) ==> c is None,
    {
        match self.status {
            BatchStatus::Running => Some(&self.commands[self.next]),
            _ => None,
        }
    }

    /// The 1-based position of the current command and the batch size, for
    /// progress display.
    pub fn position(&self) -> (p: (usize, usize))
        requires
            self.wf(),
            self.status is Running,
        ensures
            p.0 == self.next + 1,
            p.1 == self.commands.len(),
    {
        (self.next + 1, self.commands.len())
    }

    /// One transition: a success advances the cursor (finishing the batch
    /// after the last command), a failure ends the batch with its cause and
    /// moves the cursor no further.
    pub open spec fn step_spec(self, outcome: Outcome) -> Runner {
        match outcome {
            Outcome::Success => Runner {
                next: (self.next + 1) as usize,
                status: if self.next + 1 == self.commands.len() {
                    BatchStatus::Succeeded
                } else {
                    BatchStatus::Running
                },
                ..self
            },
            Outcome::Failure(c) => Runner { status: BatchStatus::Failed(c), ..self },
        }
    }

    /// Records the outcome of the current command.
    pub fn record(&mut self, outcome: Outcome)
        requires
            old(self).wf(),
            old(self).status is Running,
        ensures
            final(self).wf(),
            *final(self) == old(self).step_spec(outcome),
    {
        match outcome {
            Outcome::Success => {
                self.next = self.next + 1;
                if self.next == self.commands.len() {
                    self.status = BatchStatus::Succeeded;
                }
            },
            Outcome::Failure(c) => {
                self.status = BatchStatus::Failed(c);
            },
        }
    }

    /// The batch result of a finished runner: success, or the first
    /// failure's cause.
    pub fn batch_result(self) -> (r: Result<(), String>)
        requires
            !(self.status is Running),
        ensures
            self.status is Succeeded ==> r is Ok,
            self.status matches BatchStatus::Failed(c) ==> r == Result::<(), String>::Err(c),
    {
        match self.status {
            BatchStatus::Succeeded => Ok(()),
            BatchStatus::Failed(c) => Err(c),
            BatchStatus::Running => Err(String::new()),
        }
    }
}

/// The runner after a sequence of recorded outcomes; a finished batch
/// records nothing further.
pub open spec fn run_spec(r: Runner, outs: Seq<Outcome>) -> Runner
    decreases outs.len(),
{
    if !(r.status is Running) || outs.len() == 0 {
        r
    } else {
        run_spec(r.step_spec(outs[0]), outs.drop_first())
    }
}

/// A finished batch stays as it is, whatever outcomes follow.
pub proof fn lemma_run_finished(r: Runner, outs: Seq<Outcome>)
    requires
        !(r.status is Running),
    ensures
        run_spec(r, outs) == r,
{
}

/// A batch whose every outcome succeeds runs every command, in order, and
/// succeeds.
pub proof fn lemma_run_all_success(r: Runner, outs: Seq<Outcome>)
    requires
        r.wf(),
        r.status is Running,
        outs.len() == r.commands.len() - r.next,
        forall|i: int| 0 <= i < outs.len() ==> outs[i] is Success,
    ensures
        run_spec(r, outs).status is Succeeded,
        run_spec(r, outs).next == r.commands.len(),
        run_spec(r, outs).commands == r.commands,
    decreases outs.len(),
{
    assert(outs[0] is Success);
    let stepped = r.step_spec(outs[0]);
    let rest = outs.drop_first();
    if stepped.status is Running {
        assert forall|i: int| 0 <= i < rest.len() implies rest[i] is Success by {
            assert(rest[i] == outs[i + 1]);
        }
        lemma_run_all_success(stepped, rest);
    } else {
        lemma_run_finished(stepped, rest);
    }
}

/// The batch is fail-fast: if the first `k` outcomes succeed and the next
/// one fails, exactly `k + 1` commands are attempted — the cursor ends on
/// the failing command, every later command is never current — and the batch
/// result carries that failure's cause.
pub proof fn lemma_run_fail_fast(r: Runner, outs: Seq<Outcome>, k: int)
    requires
        r.wf(),
        r.status is Running,
        0 <= k < outs.len(),
        r.next + k < r.commands.len(),
        forall|i: int| 0 <= i < k ==> outs[i] is Success,
        outs[k] matches Outcome::Failure(_),
    ensures
        run_spec(r, outs).status == BatchStatus::Failed(outs[k]->Failure_0),
        run_spec(r, outs).next == r.next + k,
        run_spec(r, outs).commands == r.commands,
    decreases k,
{
    if k == 0 {
        let stepped = r.step_spec(outs[0]);
        lemma_run_finished(stepped, outs.drop_first());
    } else {
        assert(outs[0] is Success);
        let stepped = r.step_spec(outs[0]);
        let rest = outs.drop_first();
        assert forall|i: int| 0 <= i < k - 1 implies rest[i] is Success by {
            assert(rest[i] == outs[i + 1]);
        }
        assert(rest[k - 1] == outs[k]);
        lemma_run_fail_fast(stepped, rest, k - 1);
    }
}

} // verus!
