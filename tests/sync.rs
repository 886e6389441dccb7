use kicker::config::{Config, PackageInfo, SystemConfig};
use kicker::error::KickerError;
use kicker::sync::{
    prepare_package, run_git_checkout, run_git_clone, run_pull_code, sync_target_from_parts,
    SyncAction, SyncPhase,
};

#[test]
fn pull_splits_revision_from_location() {
    let t = run_pull_code("https://example/demo.git#v1.0", true, "packages/", "demo").unwrap();
    assert_eq!(t.target_dir, "packages/demo");
    assert_eq!(t.clone_url, "https://example/demo.git");
    assert_eq!(t.commit, "v1.0");
    assert!(t.recursive);
}

#[test]
fn location_without_revision_is_invalid() {
    let r = run_pull_code("https://example/demo.git", true, "packages/", "demo");
    assert!(matches!(r, Err(KickerError::InvalidRevision)));
    let r = run_pull_code("https://example/demo.git#", true, "packages/", "demo");
    assert!(matches!(r, Err(KickerError::InvalidRevision)));
}

#[test]
fn location_that_is_no_url_is_malformed() {
    let r = run_pull_code("not a url", false, "packages/", "demo");
    assert!(matches!(r, Err(KickerError::ConfigMalformed)));
}

#[test]
fn no_action_for_package_without_revision() {
    let config = Config {
        packages_info: vec![
            PackageInfo::new("a", "https://example/a.git#v1", true),
            PackageInfo::new("b", "https://example/b.git", true),
        ],
        images_info: vec![],
        system: SystemConfig::default(),
    };
    assert!(matches!(prepare_package(&config), Err(KickerError::InvalidRevision)));
}

#[test]
fn prepare_package_keeps_only_built_packages_in_order() {
    let config = Config {
        packages_info: vec![
            PackageInfo::new("a", "https://example/a.git#v1", true),
            PackageInfo::new("skip", "https://example/skip.git", false),
            PackageInfo::new("b", "https://example/b.git#main", true),
        ],
        images_info: vec![],
        system: SystemConfig::default(),
    };
    let ts = prepare_package(&config).unwrap();
    assert_eq!(ts.len(), 2);
    assert_eq!(ts[0].target_dir, "packages/a");
    assert_eq!(ts[1].target_dir, "packages/b");
    assert_eq!(ts[1].commit, "main");
    assert_eq!(ts[1].clone_url, "https://example/b.git");
}

#[test]
fn clone_and_checkout_commands() {
    let c = run_git_clone("https://example/a.git", true, "packages/a");
    assert_eq!(c.program, "git");
    assert_eq!(c.args, vec!["clone", "https://example/a.git", "packages/a", "--recursive"]);
    let c = run_git_clone("https://example/a.git", false, "packages/a");
    assert_eq!(c.args, vec!["clone", "https://example/a.git", "packages/a"]);
    let cs = run_git_checkout("packages/a", "v1");
    assert_eq!(cs.len(), 3);
    assert_eq!(cs[0].args, vec!["-C", "packages/a", "fetch"]);
    assert_eq!(cs[1].args, vec!["-C", "packages/a", "checkout", "v1"]);
    assert_eq!(cs[2].args, vec!["-C", "packages/a", "submodule", "update", "--recursive"]);
}

/// Drives the machine with a scripted list of reports; returns the phases.
fn drive(reports: &[bool]) -> Vec<SyncPhase> {
    let mut phase = SyncPhase::start();
    let mut seen = vec![phase];
    for &ok in reports {
        phase = phase.next(ok);
        seen.push(phase);
    }
    seen
}

#[test]
fn existing_copy_is_checked_out_in_place() {
    assert_eq!(
        drive(&[true, true]),
        vec![SyncPhase::Probing, SyncPhase::FirstCheckout, SyncPhase::Done]
    );
}

#[test]
fn broken_copy_is_removed_and_rebuilt() {
    assert_eq!(
        drive(&[true, false, true, true, true, true]),
        vec![
            SyncPhase::Probing,
            SyncPhase::FirstCheckout,
            SyncPhase::Removing,
            SyncPhase::Creating,
            SyncPhase::Cloning,
            SyncPhase::FinalCheckout,
            SyncPhase::Done
        ]
    );
}

#[test]
fn missing_copy_is_cloned() {
    assert_eq!(
        drive(&[false, true, true, true]),
        vec![
            SyncPhase::Probing,
            SyncPhase::Creating,
            SyncPhase::Cloning,
            SyncPhase::FinalCheckout,
            SyncPhase::Done
        ]
    );
}

#[test]
fn failure_after_rebuild_is_fatal() {
    assert_eq!(drive(&[false, true, true, false]).last(), Some(&SyncPhase::Failed));
    assert_eq!(drive(&[false, true, false]).last(), Some(&SyncPhase::Failed));
    assert!(SyncPhase::Failed.is_finished());
    assert!(!SyncPhase::Cloning.is_finished());
    assert_eq!(SyncPhase::Done.next(false), SyncPhase::Done);
}

#[test]
fn actions_follow_phases() {
    let t = run_pull_code("https://example/demo.git#v1.0", true, "packages/", "demo").unwrap();
    assert!(matches!(t.action(SyncPhase::Probing), SyncAction::Probe(d) if d == "packages/demo"));
    assert!(matches!(t.action(SyncPhase::Removing), SyncAction::RemoveDir(d) if d == "packages/demo"));
    assert!(matches!(t.action(SyncPhase::Creating), SyncAction::CreateDir(d) if d == "packages/demo"));
    match t.action(SyncPhase::Cloning) {
        SyncAction::Clone(c) => assert_eq!(
            c.args,
            vec!["clone", "https://example/demo.git", "packages/demo", "--recursive"]
        ),
        _ => panic!("expected a clone"),
    }
    match t.action(SyncPhase::FinalCheckout) {
        SyncAction::Checkout(cs) => assert_eq!(cs[1].args, vec!["-C", "packages/demo", "checkout", "v1.0"]),
        _ => panic!("expected a checkout"),
    }
    assert!(matches!(t.action(SyncPhase::Done), SyncAction::Finish(Ok(()))));
    assert!(matches!(t.action(SyncPhase::Failed), SyncAction::Finish(Err(KickerError::SyncFailed))));
}

#[test]
fn syncing_twice_ends_at_the_same_revision() {
    // first run from nothing, second run from the result: in place
    assert_eq!(drive(&[false, true, true, true]).last(), Some(&SyncPhase::Done));
    assert_eq!(drive(&[true, true]).last(), Some(&SyncPhase::Done));
}

#[test]
fn target_from_split_location() {
    let t = sync_target_from_parts(
        "https://example/demo.git".to_string(),
        Some("v1.0".to_string()),
        false,
        "packages/",
        "demo",
    )
    .unwrap();
    assert_eq!(t.target_dir, "packages/demo");
    assert_eq!(t.clone_url, "https://example/demo.git");
    assert_eq!(t.commit, "v1.0");
    assert!(!t.recursive);
    let r = sync_target_from_parts("u".to_string(), None, true, "packages/", "demo");
    assert!(matches!(r, Err(KickerError::InvalidRevision)));
    let r = sync_target_from_parts("u".to_string(), Some(String::new()), true, "packages/", "demo");
    assert!(matches!(r, Err(KickerError::InvalidRevision)));
}

#[test]
fn fresh_sync_of_demo_runs_clone_then_checkout() {
    let t = run_pull_code("https://example/demo.git#v1.0", true, "packages/", "demo").unwrap();
    let mut phase = SyncPhase::start();
    let mut commands: Vec<Vec<String>> = Vec::new();
    for ok in [false, true, true, true] {
        match t.action(phase) {
            SyncAction::Clone(c) => commands.push(c.args.clone()),
            SyncAction::Checkout(cs) => commands.extend(cs.iter().map(|c| c.args.clone())),
            _ => {}
        }
        phase = phase.next(ok);
    }
    assert_eq!(phase, SyncPhase::Done);
    assert_eq!(
        commands,
        vec![
            vec!["clone", "https://example/demo.git", "packages/demo", "--recursive"],
            vec!["-C", "packages/demo", "fetch"],
            vec!["-C", "packages/demo", "checkout", "v1.0"],
            vec!["-C", "packages/demo", "submodule", "update", "--recursive"],
        ]
    );
}
