use kicker::config::{Config, ImageInfo, PackageInfo, SystemConfig};
use kicker::dispatch::{
    build_clerkb, build_godwoken, build_godwoken_polyjuice, build_godwoken_scripts,
    build_node_module_by_copy, build_package, copy_node_module_from_docker, strategy_for,
    BuildAction, BuildCursor, BuildStep, BuildStrategy,
};
use kicker::error::KickerError;

#[test]
fn strategies_by_name() {
    assert_eq!(strategy_for("godwoken"), BuildStrategy::NativeOrContainer);
    assert_eq!(strategy_for("godwoken-scripts"), BuildStrategy::MakeThenPackage);
    assert_eq!(strategy_for("godwoken-polyjuice"), BuildStrategy::MakeInContainer);
    assert_eq!(strategy_for("godwoken-polyman"), BuildStrategy::DependenciesByCopy);
    assert_eq!(strategy_for("godwoken-web3"), BuildStrategy::DependenciesByCopy);
    assert_eq!(strategy_for("clerkb"), BuildStrategy::InstallThenMakeInContainer);
    assert_eq!(strategy_for("demo"), BuildStrategy::Unregistered);
}

#[test]
fn native_build_runs_cargo_in_package_dir() {
    let steps = build_godwoken("./packages/", "godwoken", &SystemConfig::default());
    assert_eq!(steps.len(), 1);
    match &steps[0] {
        BuildStep::Run(c) => {
            assert_eq!(c.program, "cargo");
            assert_eq!(c.args, vec!["build"]);
            assert_eq!(c.dir.as_deref(), Some("./packages/godwoken"));
        }
        _ => panic!("expected a command"),
    }
}

#[test]
fn container_build_of_node_is_not_implemented() {
    let system = SystemConfig { always_fetch_new_package: false, build_godwoken_over_docker: true };
    let steps = build_godwoken("./packages/", "godwoken", &system);
    assert!(matches!(steps[..], [BuildStep::Fail(KickerError::NotImplemented)]));
}

#[test]
fn scripts_build_makes_then_packages() {
    let steps = build_godwoken_scripts("./packages/", "godwoken-scripts");
    match &steps[..] {
        [BuildStep::Run(a), BuildStep::Run(b)] => {
            assert_eq!(a.program, "make");
            assert_eq!(a.args, vec!["-C", "./packages/godwoken-scripts/c"]);
            assert_eq!(a.dir, None);
            assert_eq!(b.program, "capsule");
            assert_eq!(b.args, vec!["build", "--release", "--debug-output"]);
            assert_eq!(b.dir.as_deref(), Some("./packages/godwoken-scripts"));
        }
        _ => panic!("expected two commands"),
    }
}

#[test]
fn container_make_targets() {
    let steps = build_godwoken_polyjuice("./packages/", "godwoken-polyjuice");
    match &steps[..] {
        [BuildStep::Run(a)] => {
            assert_eq!(a.args, vec!["-C", "./packages/godwoken-polyjuice", "all-via-docker"])
        }
        _ => panic!("expected one command"),
    }
    let steps = build_clerkb("./packages/", "clerkb");
    match &steps[..] {
        [BuildStep::Run(a), BuildStep::Run(b)] => {
            assert_eq!(a.program, "yarn");
            assert_eq!(a.args, vec!["--cwd", "./packages/clerkb"]);
            assert_eq!(b.args, vec!["-C", "./packages/clerkb", "all-via-docker"]);
        }
        _ => panic!("expected two commands"),
    }
}

#[test]
fn dependency_copy_command() {
    let img = ImageInfo::new("docker_js_prebuild_image", "nervos/js", "v1");
    let c = copy_node_module_from_docker("/home/u/kicker", "godwoken-web3", &img);
    assert_eq!(c.program, "bash");
    assert_eq!(
        c.args,
        vec![
            "-c",
            "docker run --rm -v /home/u/kicker/packages/godwoken-web3:/app nervos/js:v1 /bin/bash -c \"cp -r ./godwoken-web3/node_modules ./app/\""
        ]
    );
}

#[test]
fn dependency_check_falls_back_to_copy() {
    let img = ImageInfo::new("docker_js_prebuild_image", "nervos/js", "v1");
    let steps = build_node_module_by_copy("./packages/", "godwoken-web3", "/w", Some(&img));
    match &steps[..] {
        [BuildStep::RunOrElse(check, fallback)] => {
            assert_eq!(check.args, vec!["--cwd", "./packages/godwoken-web3", "check", "--verify-tree"]);
            assert_eq!(fallback.program, "bash");
        }
        _ => panic!("expected a check with a fallback"),
    }
    let steps = build_node_module_by_copy("./packages/", "godwoken-web3", "/w", None);
    assert!(matches!(steps[..], [BuildStep::Fail(KickerError::ConfigMalformed)]));
}

#[test]
fn build_package_follows_declared_order_and_flags() {
    let mut config = Config::default();
    for p in config.packages_info.iter_mut() {
        p.build_mode = p.repo_name == "godwoken-polyjuice" || p.repo_name == "godwoken-web3";
    }
    config.packages_info.push(PackageInfo::new("unknown", "https://example/u.git#v1", true));
    let steps = build_package(&config, "/w");
    assert_eq!(steps.len(), 2);
    assert!(matches!(&steps[0], BuildStep::RunOrElse(_, _)));
    assert!(matches!(&steps[1], BuildStep::Run(c) if c.args[1] == "./packages/godwoken-polyjuice"));
}

#[test]
fn nothing_to_build_by_default() {
    assert!(build_package(&Config::default(), "/w").is_empty());
}

#[test]
fn runner_moves_to_fallback_then_fails() {
    let img = ImageInfo::new("docker_js_prebuild_image", "nervos/js", "v1");
    let steps = build_node_module_by_copy("./packages/", "godwoken-polyman", "/w", Some(&img));
    let c = BuildCursor::start();
    assert!(matches!(c.action(&steps), BuildAction::Run(cmd) if cmd.program == "yarn"));
    let c = c.advance(&steps, false).unwrap();
    assert!(c.in_fallback);
    assert!(matches!(c.action(&steps), BuildAction::Run(cmd) if cmd.program == "bash"));
    assert!(matches!(c.advance(&steps, false), Err(KickerError::CommandFailed)));
    let done = c.advance(&steps, true).unwrap();
    assert_eq!(done, BuildCursor { index: 1, in_fallback: false });
    assert!(matches!(done.action(&steps), BuildAction::Finish(Ok(()))));
}

#[test]
fn runner_stops_on_plain_failure_and_on_fail_step() {
    let steps = build_clerkb("./packages/", "clerkb");
    let c = BuildCursor::start();
    assert!(matches!(c.advance(&steps, false), Err(KickerError::CommandFailed)));
    let system = SystemConfig { always_fetch_new_package: false, build_godwoken_over_docker: true };
    let steps = build_godwoken("./packages/", "godwoken", &system);
    assert!(matches!(BuildCursor::start().action(&steps), BuildAction::Finish(Err(KickerError::NotImplemented))));
}
