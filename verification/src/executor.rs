//! The executor's decisions: how a command is dispatched by its kind, what
//! the custom-command registry resolves, and what outcome an external
//! process's exit gives. Spawning the process itself is I/O and lives
//! outside the library; it hands back the exit status and the captured
//! diagnostic text.

use vstd::prelude::*;

use crate::catalog::{CommandType, UpdateCommand};

verus! {

/// The result of running one command: success, or failure with a
/// human-readable cause.
#[derive(Debug)]
pub enum Outcome {
    Success,
    Failure(String),
}

/// The mathematical value of an [`Outcome`].
pub enum OutcomeV {
    Success,
    Failure(Seq<char>),
}

impl View for Outcome {
    type V = OutcomeV;

    open spec fn view(&self) -> OutcomeV {
        match self {
            Outcome::Success => OutcomeV::Success,
            Outcome::Failure(c) => OutcomeV::Failure(c@),
        }
    }
}

/// The composite routines the custom-command registry knows.
#[derive(Clone, Copy, Debug, PartialEq, Eq, Structural)]
pub enum CustomRoutine {
    SiteRepo,
}

/// The key is present in the custom-command registry.
pub open spec fn registered(key: Seq<char>) -> bool {
    key == "handle_site_repo"@
}

/// Looks an invocation key up in the custom-command registry.
pub fn lookup_custom(key: &str) -> (r: Option<CustomRoutine>)
    ensures
        registered(key@) ==> r == Some(CustomRoutine::SiteRepo),
        !registered(key@) ==> r is None,
{
    if crate::text::str_eq(key, "handle_site_repo") {
        Some(CustomRoutine::SiteRepo)
    } else {
        None
    }
}

/// What executing a command takes: a shell invocation to spawn, a registered
/// composite routine to run, or an immediate failure that spawns nothing.
#[derive(Debug)]
pub enum ExecutionPlan {
    RunShell(String),
    RunCustom(CustomRoutine),
    Reject(Outcome),
}

/// Dispatches a command by its kind. A `Shell` command is handed on verbatim
/// as one shell-interpreted string; a `Custom` command is looked up in the
/// registry, and an unregistered key is rejected at once, naming itself,
/// without anything being spawned.
pub fn plan_for(cmd: &UpdateCommand) -> (p: ExecutionPlan)
    ensures
        cmd.command_type is Shell ==> (p matches ExecutionPlan::RunShell(s) && s@
            == cmd.command@),
        cmd.command_type is Custom && registered(cmd.command@) ==> p == ExecutionPlan::RunCustom(
            CustomRoutine::SiteRepo,
        ),
        cmd.command_type is Custom && !registered(cmd.command@) ==> (p matches
            ExecutionPlan::Reject(o) && o@ == OutcomeV::Failure(
                "Unknown custom command: "@ + cmd.command@,
            )),
{
    match cmd.command_type {
        CommandType::Shell => ExecutionPlan::RunShell(cmd.command.clone()),
        CommandType::Custom => match lookup_custom(cmd.command.as_str()) {
            Some(routine) => ExecutionPlan::RunCustom(routine),
            None => {
                let cause = String::from_str("Unknown custom command: ").concat(
                    cmd.command.as_str(),
                );
                ExecutionPlan::Reject(Outcome::Failure(cause))
            },
        },
    }
}

/// The outcome of a shell invocation: success exactly when the process
/// exited with status zero; otherwise a failure whose cause carries the
/// captured standard-error text.
pub fn shell_outcome(exit_zero: bool, stderr: String) -> (o: Outcome)
    ensures
        exit_zero ==> o is Success,
        !exit_zero ==> o@ == OutcomeV::Failure("Command failed: "@ + stderr@),
        !exit_zero ==> (o matches Outcome::Failure(c) && c@.len() > 0),
{
    if exit_zero {
        Outcome::Success
    } else {
        proof {
            reveal_strlit("Command failed: ");
        }
        Outcome::Failure(String::from_str("Command failed: ").concat(stderr.as_str()))
    }
}

/// The shell a `Shell` command's invocation is handed to, as `-c`'s single
/// argument, so shell operators in it keep their meaning.
pub fn shell_program() -> (s: String)
    ensures
        s@ == "zsh"@,
{
    "zsh".to_owned()
}

} // verus!
