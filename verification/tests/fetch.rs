use run_that::fetch::{
    begin, effective_user, next_step, Destination, FetchEvent, FetchPlan, FetchStep,
};
use run_that::package_index::{
    parse_git_address, GitCloneError, GitSpecifier, PackageSource, ESCAPED_NAMESPACE,
    LOCAL_NAMESPACE,
};
use std::path::PathBuf;

fn git_plan(address: &str) -> FetchPlan {
    PackageSource::new_git(address.to_string()).unwrap().plan()
}

fn io(detail: &str) -> GitCloneError {
    GitCloneError::Io(detail.to_string())
}

fn git(detail: &str) -> GitCloneError {
    GitCloneError::CannotClone(detail.to_string())
}

/// Reports `events` one after the other and returns the steps asked for,
/// the first step included.
fn steps(plan: &FetchPlan, force: bool, events: Vec<FetchEvent>) -> Vec<FetchStep> {
    let mut asked = vec![begin(plan)];
    for event in events {
        let step = next_step(plan, force, begin_again(asked.last().unwrap()), event);
        asked.push(step);
    }
    asked
}

fn begin_again(step: &FetchStep) -> FetchStep {
    match step {
        FetchStep::Probe => FetchStep::Probe,
        FetchStep::Remove => FetchStep::Remove,
        FetchStep::Clone => FetchStep::Clone,
        FetchStep::Checkout => FetchStep::Checkout,
        FetchStep::Copy => FetchStep::Copy,
        FetchStep::Finished(r) => FetchStep::Finished(r.clone()),
    }
}

#[test]
fn reserved_user_is_escaped() {
    assert_eq!(LOCAL_NAMESPACE, "_local");
    assert_eq!(ESCAPED_NAMESPACE, "_local_local");
    assert_eq!(ESCAPED_NAMESPACE, format!("{LOCAL_NAMESPACE}{LOCAL_NAMESPACE}"));
    assert_eq!(effective_user("_local"), "_local_local");
    assert_eq!(effective_user("ur-fault"), "ur-fault");
    assert_eq!(effective_user("__local"), "__local");
    assert_eq!(effective_user("_local_local"), "_local_local");
    assert_eq!(effective_user("_local_"), "_local_");
    assert_eq!(effective_user("local"), "local");
    assert_eq!(effective_user("_LOCAL"), "_LOCAL");
    assert_eq!(effective_user(""), "");
    for user in ["_local", "__local", "_local_local", "a", "", "_loca", "_locall"] {
        assert_ne!(effective_user(user), LOCAL_NAMESPACE);
    }
}

#[test]
fn clone_url_is_https_domain_user_name() {
    let g = parse_git_address("ur-fault/run-that@tag").unwrap();
    assert_eq!(g.clone_url(), "https://github.com/ur-fault/run-that");
    let g = parse_git_address("codeberg.org:_local/lil-game").unwrap();
    assert_eq!(g.clone_url(), "https://codeberg.org/_local/lil-game");
}

#[test]
fn destination_is_user_then_name() {
    let g = parse_git_address("ur-fault/run-that@tag").unwrap();
    assert_eq!(
        g.destination(),
        Destination { user_dir: "ur-fault".to_string(), name: "run-that".to_string() }
    );
    let g = parse_git_address("codeberg.org:_local/lil-game").unwrap();
    assert_eq!(
        g.destination(),
        Destination { user_dir: "_local_local".to_string(), name: "lil-game".to_string() }
    );
}

#[test]
fn plan_of_a_repository() {
    assert_eq!(
        git_plan("gitlab.com:_local/run-that#abc123"),
        FetchPlan::Git {
            destination: Destination {
                user_dir: "_local_local".to_string(),
                name: "run-that".to_string(),
            },
            url: "https://gitlab.com/_local/run-that".to_string(),
            spec: Some(GitSpecifier::Commit("abc123".to_string())),
        }
    );
    assert_eq!(
        git_plan("ur-fault/run-that"),
        FetchPlan::Git {
            destination: Destination {
                user_dir: "ur-fault".to_string(),
                name: "run-that".to_string(),
            },
            url: "https://github.com/ur-fault/run-that".to_string(),
            spec: None,
        }
    );
}

#[test]
fn plan_of_a_local_package() {
    let plan = PackageSource::new_local(PathBuf::from("some/dir")).plan();
    assert_eq!(plan, FetchPlan::Local { from: PathBuf::from("some/dir") });
    assert_eq!(begin(&plan), FetchStep::Copy);
    assert_eq!(
        steps(&plan, false, vec![FetchEvent::Done]),
        vec![FetchStep::Copy, FetchStep::Finished(Ok(true))]
    );
    assert_eq!(
        steps(&plan, true, vec![FetchEvent::Failed(io("denied"))]),
        vec![FetchStep::Copy, FetchStep::Finished(Err(io("denied")))]
    );
    // A failed copy is a failure of this machine's files, whatever it is reported as.
    assert_eq!(
        steps(&plan, false, vec![FetchEvent::Failed(git("denied"))]),
        vec![FetchStep::Copy, FetchStep::Finished(Err(io("denied")))]
    );
}

#[test]
fn fresh_clone_returns_true() {
    for force in [false, true] {
        assert_eq!(
            steps(&git_plan("user/name"), force, vec![FetchEvent::Exists(false), FetchEvent::Done]),
            vec![FetchStep::Probe, FetchStep::Clone, FetchStep::Finished(Ok(true))]
        );
        assert_eq!(
            steps(
                &git_plan("user/name@v1"),
                force,
                vec![FetchEvent::Exists(false), FetchEvent::Done, FetchEvent::Done]
            ),
            vec![
                FetchStep::Probe,
                FetchStep::Clone,
                FetchStep::Checkout,
                FetchStep::Finished(Ok(true)),
            ]
        );
    }
}

#[test]
fn present_destination_is_kept_without_force() {
    for address in ["user/name", "user/name$dev"] {
        let plan = git_plan(address);
        assert_eq!(
            steps(&plan, false, vec![FetchEvent::Exists(true)]),
            vec![FetchStep::Probe, FetchStep::Finished(Ok(false))]
        );
        // A second fetch finds it again and again leaves it.
        assert_eq!(
            steps(&plan, false, vec![FetchEvent::Exists(true)]),
            vec![FetchStep::Probe, FetchStep::Finished(Ok(false))]
        );
        // Nothing that is reported afterwards makes the fetch ask for a change.
        assert_eq!(
            steps(
                &plan,
                false,
                vec![
                    FetchEvent::Exists(true),
                    FetchEvent::Done,
                    FetchEvent::Exists(false),
                    FetchEvent::Failed(io("late")),
                ]
            ),
            vec![
                FetchStep::Probe,
                FetchStep::Finished(Ok(false)),
                FetchStep::Finished(Ok(false)),
                FetchStep::Finished(Ok(false)),
                FetchStep::Finished(Ok(false)),
            ]
        );
    }
}

#[test]
fn present_destination_is_replaced_with_force() {
    assert_eq!(
        steps(
            &git_plan("user/name"),
            true,
            vec![FetchEvent::Exists(true), FetchEvent::Done, FetchEvent::Done]
        ),
        vec![FetchStep::Probe, FetchStep::Remove, FetchStep::Clone, FetchStep::Finished(Ok(true))]
    );
    assert_eq!(
        steps(
            &git_plan("user/name#abc"),
            true,
            vec![FetchEvent::Exists(true), FetchEvent::Done, FetchEvent::Done, FetchEvent::Done]
        ),
        vec![
            FetchStep::Probe,
            FetchStep::Remove,
            FetchStep::Clone,
            FetchStep::Checkout,
            FetchStep::Finished(Ok(true)),
        ]
    );
}

#[test]
fn failures_keep_their_kind() {
    let plan = git_plan("user/name@v1");
    // The destination cannot be looked for or removed: this machine's files.
    assert_eq!(
        steps(&plan, true, vec![FetchEvent::Failed(io("denied"))]),
        vec![FetchStep::Probe, FetchStep::Finished(Err(io("denied")))]
    );
    assert_eq!(
        steps(&plan, true, vec![FetchEvent::Exists(true), FetchEvent::Failed(io("busy"))]),
        vec![FetchStep::Probe, FetchStep::Remove, FetchStep::Finished(Err(io("busy")))]
    );
    assert_eq!(
        steps(&plan, true, vec![FetchEvent::Exists(true), FetchEvent::Failed(git("busy"))]),
        vec![FetchStep::Probe, FetchStep::Remove, FetchStep::Finished(Err(io("busy")))]
    );
    // A clone fails on the remote side or on this machine.
    assert_eq!(
        steps(&plan, false, vec![FetchEvent::Exists(false), FetchEvent::Failed(git("no route"))]),
        vec![FetchStep::Probe, FetchStep::Clone, FetchStep::Finished(Err(git("no route")))]
    );
    assert_eq!(
        steps(&plan, false, vec![FetchEvent::Exists(false), FetchEvent::Failed(io("disk full"))]),
        vec![FetchStep::Probe, FetchStep::Clone, FetchStep::Finished(Err(io("disk full")))]
    );
    // A reference that cannot be checked out counts as a failed clone.
    for failure in [git("no such tag"), io("no such tag")] {
        assert_eq!(
            steps(
                &plan,
                false,
                vec![FetchEvent::Exists(false), FetchEvent::Done, FetchEvent::Failed(failure)]
            ),
            vec![
                FetchStep::Probe,
                FetchStep::Clone,
                FetchStep::Checkout,
                FetchStep::Finished(Err(git("no such tag"))),
            ]
        );
    }
}

#[test]
fn reports_that_answer_nothing_are_ignored() {
    let plan = git_plan("user/name@v1");
    assert_eq!(next_step(&plan, false, FetchStep::Probe, FetchEvent::Done), FetchStep::Probe);
    for step in [FetchStep::Remove, FetchStep::Clone, FetchStep::Checkout, FetchStep::Copy] {
        for exists in [false, true] {
            assert_eq!(
                next_step(&plan, true, begin_again(&step), FetchEvent::Exists(exists)),
                step
            );
        }
    }
    for result in [Ok(true), Ok(false), Err(io("x")), Err(git("y"))] {
        for event in [
            FetchEvent::Done,
            FetchEvent::Exists(true),
            FetchEvent::Exists(false),
            FetchEvent::Failed(io("z")),
        ] {
            assert_eq!(
                next_step(&plan, true, FetchStep::Finished(result.clone()), event),
                FetchStep::Finished(result.clone())
            );
        }
    }
}

#[test]
fn fetch_errors_in_words() {
    assert_eq!(git("x").message(), "Cannot clone repository");
    assert_eq!(io("x").message(), "IO error");
    assert_eq!(git("no route").into_detail(), "no route");
    assert_eq!(io("disk full").into_detail(), "disk full");
    assert_eq!(io("x").clone(), io("x"));
    assert_ne!(io("x"), git("x"));
}

#[test]
fn references_to_check_out() {
    assert_eq!(GitSpecifier::Branch("dev".to_string()).reference(), "origin/dev");
    assert_eq!(GitSpecifier::Tag("v1".to_string()).reference(), "refs/tags/v1");
    assert_eq!(GitSpecifier::Commit("abc123".to_string()).reference(), "abc123");
}
