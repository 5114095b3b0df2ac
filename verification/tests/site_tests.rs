use nudge::executor::Outcome;
use nudge::site::{
    site_dir_name, site_git_subdir, site_repo_id, site_routine_advance, site_routine_start,
    SiteState, SiteStep,
};

#[test]
fn the_routine_runs_its_steps_in_order_and_succeeds() {
    let mut state = site_routine_start();
    let expected = [
        SiteStep::EnterGitDir,
        SiteStep::ClearSiteDir,
        SiteStep::CloneRepo,
        SiteStep::EnterSiteDir,
        SiteStep::InstallDeps,
    ];
    for step in expected {
        match state {
            SiteState::Pending(s) => {
                assert_eq!(s, step);
                state = site_routine_advance(s, true, String::new());
            }
            SiteState::Done(_) => panic!("the routine ended early"),
        }
    }
    assert!(matches!(state, SiteState::Done(Outcome::Success)));
}

#[test]
fn a_failed_clone_ends_the_routine_before_the_install() {
    let mut state = site_routine_start();
    let mut attempted: Vec<SiteStep> = Vec::new();
    loop {
        match state {
            SiteState::Pending(step) => {
                attempted.push(step);
                let ok = step != SiteStep::CloneRepo;
                state = site_routine_advance(step, ok, String::new());
            }
            SiteState::Done(outcome) => {
                match outcome {
                    Outcome::Failure(cause) => assert_eq!(cause, "Failed to clone repository"),
                    Outcome::Success => panic!("a failed clone must fail the routine"),
                }
                break;
            }
        }
    }
    // the install step was never attempted
    assert_eq!(
        attempted,
        vec![SiteStep::EnterGitDir, SiteStep::ClearSiteDir, SiteStep::CloneRepo]
    );
    assert!(!attempted.contains(&SiteStep::InstallDeps));
}

#[test]
fn a_failed_install_fails_the_routine() {
    let mut state = site_routine_start();
    loop {
        match state {
            SiteState::Pending(step) => {
                let ok = step != SiteStep::InstallDeps;
                state = site_routine_advance(step, ok, String::new());
            }
            SiteState::Done(outcome) => {
                match outcome {
                    Outcome::Failure(cause) => {
                        assert_eq!(cause, "Failed to install dependencies")
                    }
                    Outcome::Success => panic!("a failed install must fail the routine"),
                }
                break;
            }
        }
    }
}

#[test]
fn a_directory_step_reports_the_callers_diagnostic() {
    let state = site_routine_advance(
        SiteStep::EnterGitDir,
        false,
        "No such file or directory".to_string(),
    );
    match state {
        SiteState::Done(Outcome::Failure(cause)) => {
            assert_eq!(cause, "No such file or directory")
        }
        _ => panic!("a failed step must end the routine"),
    }
}

#[test]
fn the_fixed_locations_of_the_routine() {
    assert_eq!(site_git_subdir(), "Developer/Git");
    assert_eq!(site_repo_id(), "ZeroDread/Site");
    assert_eq!(site_dir_name(), "Site");
}
