//! The one registered composite routine: refresh the `Site` repository.
//!
//! The routine is a fixed sequence of five steps — enter the Git working
//! directory under the user's home, clear any old `Site` checkout, clone the
//! repository, enter the clone, install its dependencies — each of which is
//! outside work (a directory change, a deletion, a spawned process). The
//! library decides the order, the short-circuit on failure and the failure
//! causes; the caller performs one pending step at a time and reports back
//! whether it succeeded, with any diagnostic text.

use vstd::prelude::*;

use crate::executor::{Outcome, OutcomeV};

verus! {

/// The five steps, in the order they run.
#[derive(Clone, Copy, Debug, PartialEq, Eq, Structural)]
pub enum SiteStep {
    EnterGitDir,
    ClearSiteDir,
    CloneRepo,
    EnterSiteDir,
    InstallDeps,
}

/// Where the routine stands: one step pending, or finished with an outcome.
#[derive(Debug)]
pub enum SiteState {
    Pending(SiteStep),
    Done(Outcome),
}

/// The mathematical value of a [`SiteState`].
pub enum SiteStateV {
    Pending(SiteStep),
    Done(OutcomeV),
}

impl View for SiteState {
    type V = SiteStateV;

    open spec fn view(&self) -> SiteStateV {
        match self {
            SiteState::Pending(s) => SiteStateV::Pending(*s),
            SiteState::Done(o) => SiteStateV::Done(o@),
        }
    }
}

/// The steps in their fixed order.
pub open spec fn step_order() -> Seq<SiteStep> {
    seq![
        SiteStep::EnterGitDir,
        SiteStep::ClearSiteDir,
        SiteStep::CloneRepo,
        SiteStep::EnterSiteDir,
        SiteStep::InstallDeps,
    ]
}

/// The state a successful step leads to: the next step of the order, or
/// overall success after the last one.
pub open spec fn after_success(step: SiteStep) -> SiteStateV {
    match step {
        SiteStep::EnterGitDir => SiteStateV::Pending(SiteStep::ClearSiteDir),
        SiteStep::ClearSiteDir => SiteStateV::Pending(SiteStep::CloneRepo),
        SiteStep::CloneRepo => SiteStateV::Pending(SiteStep::EnterSiteDir),
        SiteStep::EnterSiteDir => SiteStateV::Pending(SiteStep::InstallDeps),
        SiteStep::InstallDeps => SiteStateV::Done(OutcomeV::Success),
    }
}

/// The cause a failing step reports: the clone and install steps report a
/// fixed message, the directory steps pass the caller's diagnostic through.
pub open spec fn failure_cause(step: SiteStep, diag: Seq<char>) -> Seq<char> {
    match step {
        SiteStep::CloneRepo => "Failed to clone repository"@,
        SiteStep::InstallDeps => "Failed to install dependencies"@,
        _ => diag,
    }
}

/// One transition of the routine.
pub open spec fn advance_spec(step: SiteStep, ok: bool, diag: Seq<char>) -> SiteStateV {
    if ok {
        after_success(step)
    } else {
        SiteStateV::Done(OutcomeV::Failure(failure_cause(step, diag)))
    }
}

/// The state after feeding a sequence of step results to the routine; a
/// finished routine consumes nothing further.
pub open spec fn site_run(state: SiteStateV, results: Seq<(bool, Seq<char>)>) -> SiteStateV
    decreases results.len(),
{
    match state {
        SiteStateV::Done(_) => state,
        SiteStateV::Pending(step) => if results.len() == 0 {
            state
        } else {
            site_run(advance_spec(step, results[0].0, results[0].1), results.drop_first())
        },
    }
}

/// The steps the routine actually attempts under a sequence of results.
pub open spec fn steps_run(state: SiteStateV, results: Seq<(bool, Seq<char>)>) -> Seq<SiteStep>
    decreases results.len(),
{
    match state {
        SiteStateV::Done(_) => Seq::empty(),
        SiteStateV::Pending(step) => if results.len() == 0 {
            Seq::empty()
        } else {
            seq![step] + steps_run(
                advance_spec(step, results[0].0, results[0].1),
                results.drop_first(),
            )
        },
    }
}

/// The routine begins at its first step.
pub fn site_routine_start() -> (s: SiteState)
    ensures
        s@ == SiteStateV::Pending(SiteStep::EnterGitDir),
{
    SiteState::Pending(SiteStep::EnterGitDir)
}

/// Advances the routine by the result of its pending step. On success the
/// next step becomes pending (overall success after the last); on failure
/// the routine finishes at once with the step's cause.
pub fn site_routine_advance(step: SiteStep, ok: bool, diag: String) -> (s: SiteState)
    ensures
        s@ == advance_spec(step, ok, diag@),
{
    if ok {
        match step {
            SiteStep::EnterGitDir => SiteState::Pending(SiteStep::ClearSiteDir),
            SiteStep::ClearSiteDir => SiteState::Pending(SiteStep::CloneRepo),
            SiteStep::CloneRepo => SiteState::Pending(SiteStep::EnterSiteDir),
            SiteStep::EnterSiteDir => SiteState::Pending(SiteStep::InstallDeps),
            SiteStep::InstallDeps => SiteState::Done(Outcome::Success),
        }
    } else {
        match step {
            SiteStep::CloneRepo => SiteState::Done(
                Outcome::Failure("Failed to clone repository".to_owned()),
            ),
            SiteStep::InstallDeps => SiteState::Done(
                Outcome::Failure("Failed to install dependencies".to_owned()),
            ),
            _ => SiteState::Done(Outcome::Failure(diag)),
        }
    }
}

/// A failing step ends the routine with a failure, and nothing past it is
/// attempted: from the step at position `j` of the order, `k` successes
/// followed by one failure attempt exactly the steps `j ..= j + k` and no
/// more, whatever results follow.
pub proof fn lemma_site_fail_fast(j: int, results: Seq<(bool, Seq<char>)>, k: int)
    requires
        0 <= j,
        0 <= k,
        j + k < step_order().len(),
        k < results.len(),
        forall|i: int| 0 <= i < k ==> (#[trigger] results[i]).0,
        !results[k].0,
    ensures
        site_run(SiteStateV::Pending(step_order()[j]), results) matches SiteStateV::Done(o) && o
            matches OutcomeV::Failure(c) && c == failure_cause(
            step_order()[j + k],
            results[k].1,
        ),
        steps_run(SiteStateV::Pending(step_order()[j]), results) == step_order().subrange(
            j,
            j + k + 1,
        ),
    decreases k,
{
    let state = SiteStateV::Pending(step_order()[j]);
    if k == 0 {
        let done = advance_spec(step_order()[j], false, results[0].1);
        lemma_site_run_done(done, results.drop_first());
        assert(steps_run(state, results) =~= step_order().subrange(j, j + 1));
    } else {
        assert(results[0].0);
        assert(advance_spec(step_order()[j], true, results[0].1) == SiteStateV::Pending(
            step_order()[j + 1],
        ));
        let rest = results.drop_first();
        assert forall|i: int| 0 <= i < k - 1 implies (#[trigger] rest[i]).0 by {
            assert(rest[i] == results[i + 1]);
        }
        assert(!rest[k - 1].0);
        lemma_site_fail_fast(j + 1, rest, k - 1);
        assert(steps_run(state, results) =~= step_order().subrange(j, j + k + 1));
    }
}

/// A finished routine stays finished and attempts nothing.
pub proof fn lemma_site_run_done(state: SiteStateV, results: Seq<(bool, Seq<char>)>)
    requires
        state is Done,
    ensures
        site_run(state, results) == state,
        steps_run(state, results) == Seq::<SiteStep>::empty(),
{
}

/// The path of the Git working directory, relative to the user's home.
pub fn site_git_subdir() -> (s: String)
    ensures
        s@ == "Developer/Git"@,
{
    "Developer/Git".to_owned()
}

/// The fixed identifier of the repository the routine clones.
pub fn site_repo_id() -> (s: String)
    ensures
        s@ == "ZeroDread/Site"@,
{
    "ZeroDread/Site".to_owned()
}

/// The directory the clone creates, cleared first if it is already there.
pub fn site_dir_name() -> (s: String)
    ensures
        s@ == "Site"@,
{
    "Site".to_owned()
}

} // verus!
