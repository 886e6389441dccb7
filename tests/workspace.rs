use kicker::command::{check_service_status, run, run_cmd, run_in_dir, run_one_line_cmd, service_status_command};
use kicker::config::{Config, PackageInfo, SystemConfig};
use kicker::dispatch::build_package;
use kicker::error::KickerError;
use kicker::sync::run_pull_code;
use kicker::workspace::{
    check_sources, collect_scripts_to_target, create_workspace_folders, prepare_workspace,
    provide_basic_files, provide_clerkb_scripts, provide_godwoken_bin, provide_godwoken_scripts,
    provide_polyjuice_scripts, CopyOp, ScriptsInfo, WorkspaceOp,
};

fn table(entries: &[(&str, &str)]) -> Vec<(String, ScriptsInfo)> {
    entries.iter().map(|(k, v)| (k.to_string(), ScriptsInfo::new(v, false))).collect()
}

#[test]
fn artifact_lands_under_its_package() {
    let info = ScriptsInfo::new("pkgA/build/foo", false);
    assert_eq!(info.target_script_path("ws"), Some("ws/pkgA/foo".to_string()));
    assert_eq!(info.source_script_path("repo"), "repo/pkgA/build/foo");
    let ops = collect_scripts_to_target("repo", "ws", &table(&[("foo", "pkgA/build/foo")])).unwrap();
    assert_eq!(
        ops,
        vec![CopyOp {
            source: "repo/pkgA/build/foo".to_string(),
            target: "ws/pkgA/foo".to_string(),
            target_dir: "ws/pkgA".to_string(),
        }]
    );
}

#[test]
fn missing_artifact_fails() {
    let ops = collect_scripts_to_target("repo", "ws", &table(&[("a", "p/a"), ("b", "p/b")])).unwrap();
    assert!(check_sources(&ops, &vec![true, true]).is_ok());
    match check_sources(&ops, &vec![true, false]) {
        Err(KickerError::ArtifactMissing(p)) => assert_eq!(p, "repo/p/b"),
        other => panic!("unexpected {:?}", other),
    }
    match check_sources(&ops, &vec![false, false]) {
        Err(KickerError::ArtifactMissing(p)) => assert_eq!(p, "repo/p/a"),
        other => panic!("unexpected {:?}", other),
    }
}

#[test]
fn artifact_without_file_name_is_missing() {
    let r = collect_scripts_to_target("repo", "ws", &table(&[("a", "p/a"), ("none", "/")]));
    assert!(matches!(r, Err(KickerError::ArtifactMissing(_))));
    assert_eq!(ScriptsInfo::new("", false).target_script_path("ws"), None);
}

#[test]
fn family_tables() {
    let gw = provide_godwoken_scripts().unwrap();
    assert_eq!(gw.len(), 17);
    assert_eq!(
        gw[0].source,
        "./packages/godwoken/godwoken-scripts/build/release/always-success"
    );
    assert_eq!(gw[13].source, "./packages/godwoken/godwoken-scripts/c/build/sudt-generator");
    assert_eq!(gw[0].target, "./workspace/scripts/release/godwoken-scripts/always-success");
    assert_eq!(gw[13].target, "./workspace/deploy/backend/godwoken-scripts/sudt-generator");
    let pj = provide_polyjuice_scripts().unwrap();
    assert_eq!(pj.len(), 4);
    assert_eq!(pj[3].target, "./workspace/deploy/polyjuice-backend/godwoken-polyjuice/validator");
    assert_eq!(pj[3].source, "./packages/godwoken-polyjuice/godwoken-polyjuice/build/validator");
    let ck = provide_clerkb_scripts().unwrap();
    assert_eq!(ck[1].target, "./workspace/scripts/release/clerkb/state");
    assert_eq!(ck[1].target_dir, "./workspace/scripts/release/clerkb");
    assert_eq!(ck[1].source, "./packages/clerkb/clerkb/build/debug/state");
}

#[test]
fn skeleton_files_and_binaries() {
    assert_eq!(
        create_workspace_folders(),
        vec![
            "workspace/bin",
            "workspace/deploy/backend",
            "workspace/deploy/polyjuice-backend",
            "workspace/scripts/release"
        ]
    );
    let bins = provide_godwoken_bin();
    assert_eq!(bins[1].target, "workspace/bin/gw-tools");
    let basics = provide_basic_files();
    assert!(matches!(&basics[1], WorkspaceOp::Run(c) if c.args[1] == "sh ./docker/layer2/init_config_json.sh"));
}

#[test]
fn workspace_plan_order() {
    let plan = prepare_workspace().unwrap();
    assert_eq!(plan.len(), 10);
    assert!(matches!(&plan[0], WorkspaceOp::CreateDir(d) if d == "workspace/bin"));
    assert!(matches!(&plan[4], WorkspaceOp::Copy(ops) if ops[0].target == "./workspace/deploy/private_key"));
    assert!(matches!(&plan[9], WorkspaceOp::Copy(ops) if ops.len() == 2));
}

#[test]
fn planning_twice_gives_the_same_workspace() {
    let a = prepare_workspace().unwrap();
    let b = prepare_workspace().unwrap();
    let copies = |p: &Vec<WorkspaceOp>| -> Vec<CopyOp> {
        p.iter()
            .flat_map(|o| match o {
                WorkspaceOp::Copy(ops) => ops.clone(),
                _ => vec![],
            })
            .collect()
    };
    assert_eq!(copies(&a), copies(&b));
    let all = copies(&a);
    for c in &all {
        assert!(all.iter().all(|d| d.target != c.source));
    }
}

#[test]
fn demo_end_to_end() {
    let config = Config {
        packages_info: vec![PackageInfo::new("demo", "https://example/demo.git#v1.0", true)],
        images_info: vec![],
        system: SystemConfig::default(),
    };
    let p = &config.packages_info[0];
    let t = run_pull_code(&p.repo_url, true, "packages/", &p.repo_name).unwrap();
    assert_eq!(t.target_dir, "packages/demo");
    assert_eq!(t.commit, "v1.0");
    // "demo" is no registered package: its build is a no-op
    assert!(build_package(&config, "/w").is_empty());
    let ops = collect_scripts_to_target(
        "packages",
        "workspace/scripts/release",
        &table(&[("bin", "demo/output/bin")]),
    )
    .unwrap();
    assert_eq!(ops[0].source, "packages/demo/output/bin");
    assert_eq!(ops[0].target, "workspace/scripts/release/demo/bin");
}

#[test]
fn commands_and_service_status() {
    let c = run("git", vec!["status".to_string()]);
    assert_eq!(c.dir, None);
    let c = run_in_dir("cargo", vec!["build".to_string()], "x");
    assert_eq!(c.dir.as_deref(), Some("x"));
    assert_eq!(run_one_line_cmd("ls").args, vec!["-c", "ls"]);
    assert_eq!(run_cmd(vec!["wallet".to_string()]).program, "ckb-cli");
    assert_eq!(service_status_command("node").args, vec!["-c", "docker-compose ps node"]);
    assert!(check_service_status(true, "node   Up   0.0.0.0"));
    assert!(!check_service_status(true, "node   Exit 1"));
    assert!(!check_service_status(false, "node   Up   "));
    assert!(!check_service_status(true, "Up"));
}
