use nudge::catalog::{CommandType, UpdateCommand};
use nudge::executor::{
    lookup_custom, plan_for, shell_outcome, shell_program, CustomRoutine, ExecutionPlan, Outcome,
};

#[test]
fn exit_zero_is_success() {
    let outcome = shell_outcome(true, String::new());
    assert!(matches!(outcome, Outcome::Success));
}

#[test]
fn nonzero_exit_carries_the_captured_diagnostic() {
    let outcome = shell_outcome(false, "zsh: command not found: brew".to_string());
    match outcome {
        Outcome::Failure(cause) => {
            assert_eq!(cause, "Command failed: zsh: command not found: brew");
            assert!(!cause.is_empty());
        }
        Outcome::Success => panic!("a non-zero exit must fail"),
    }
}

#[test]
fn nonzero_exit_with_empty_diagnostic_still_has_a_cause() {
    let outcome = shell_outcome(false, String::new());
    match outcome {
        Outcome::Failure(cause) => assert!(!cause.is_empty()),
        Outcome::Success => panic!("a non-zero exit must fail"),
    }
}

#[test]
fn the_registry_has_exactly_the_site_routine() {
    assert!(matches!(lookup_custom("handle_site_repo"), Some(CustomRoutine::SiteRepo)));
    assert!(lookup_custom("not_a_real_command").is_none());
    assert!(lookup_custom("").is_none());
    assert!(lookup_custom("handle_site_repo ").is_none());
}

#[test]
fn a_shell_command_is_handed_on_verbatim() {
    let cmd = UpdateCommand::new(
        "Update Homebrew",
        "brew update && brew upgrade",
        CommandType::Shell,
        "",
        "",
        "Package Managers",
    );
    match plan_for(&cmd) {
        ExecutionPlan::RunShell(invocation) => {
            assert_eq!(invocation, "brew update && brew upgrade")
        }
        _ => panic!("a Shell command must be run through the shell"),
    }
}

#[test]
fn a_registered_custom_command_dispatches_to_its_routine() {
    let cmd = UpdateCommand::new(
        "Handle Site repository",
        "handle_site_repo",
        CommandType::Custom,
        "",
        "",
        "Development",
    );
    assert!(matches!(plan_for(&cmd), ExecutionPlan::RunCustom(CustomRoutine::SiteRepo)));
}

#[test]
fn an_unregistered_custom_command_is_rejected_without_spawning() {
    let cmd = UpdateCommand::new(
        "Mystery",
        "not_a_real_command",
        CommandType::Custom,
        "",
        "",
        "System",
    );
    match plan_for(&cmd) {
        ExecutionPlan::Reject(Outcome::Failure(cause)) => {
            assert_eq!(cause, "Unknown custom command: not_a_real_command")
        }
        _ => panic!("an unknown key must be rejected at once"),
    }
}

#[test]
fn the_shell_is_a_posix_compatible_interactive_one() {
    assert_eq!(shell_program(), "zsh");
}
