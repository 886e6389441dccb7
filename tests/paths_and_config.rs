use kicker::config::{Config, ImageInfo, PackageInfo};
use kicker::paths::{make_path, path_segments, push_path};

fn strings(v: &[&str]) -> Vec<String> {
    v.iter().map(|s| s.to_string()).collect()
}

#[test]
fn make_path_joins_with_one_separator() {
    assert_eq!(make_path("a", strings(&["b", "c"])), "a/b/c");
    assert_eq!(make_path("a/", strings(&["b"])), "a/b");
    assert_eq!(make_path("", strings(&["b"])), "b");
    assert_eq!(make_path("./packages", strings(&[])), "./packages");
}

#[test]
fn absolute_piece_replaces_the_path() {
    assert_eq!(make_path("a/b", strings(&["/etc", "x"])), "/etc/x");
    assert_eq!(push_path("a".to_string(), ""), "a/");
}

#[test]
fn segments_skip_empty_pieces() {
    assert_eq!(path_segments("pkgA//build/foo/"), strings(&["pkgA", "build", "foo"]));
    assert_eq!(path_segments("/x"), strings(&["x"]));
    assert!(path_segments("///").is_empty());
    assert!(path_segments("").is_empty());
}

#[test]
fn default_config_has_six_packages_and_three_images() {
    let c = Config::default();
    let names: Vec<&str> = c.packages_info.iter().map(|p| p.repo_name.as_str()).collect();
    assert_eq!(
        names,
        vec![
            "godwoken",
            "godwoken-polyman",
            "godwoken-web3",
            "godwoken-scripts",
            "godwoken-polyjuice",
            "clerkb"
        ]
    );
    assert_eq!(
        c.packages_info[5].repo_url,
        "https://github.com/nervosnetwork/clerkb.git#v0.4.0"
    );
    assert!(c.packages_info.iter().all(|p| !p.build_mode));
    assert_eq!(c.images_info.len(), 3);
    assert_eq!(c.images_info[2].reference(), "nervos/godwoken-js-prebuilds:v0.6.0-rc2");
    assert!(!c.system.always_fetch_new_package);
    assert!(!c.system.build_godwoken_over_docker);
}

#[test]
fn image_lookup_by_id() {
    let c = Config::default();
    assert_eq!(c.find_image("docker_js_prebuild_image"), Some(2));
    assert_eq!(c.find_image("docker_prebuild_image"), Some(0));
    assert_eq!(c.find_image("nothing"), None);
    let img = ImageInfo::new("i", "repo/name", "t1");
    assert_eq!(img.reference(), "repo/name:t1");
    let p = PackageInfo::new("demo", "https://example/demo.git#v1.0", true);
    assert_eq!(p.repo_name, "demo");
    assert!(p.build_mode);
}
