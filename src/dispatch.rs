//! Choosing and laying out each package's build.
//!
//! A build is a list of steps that the driver runs in order. The first step
//! that fails ends the whole build, except a step with a fallback, whose
//! fallback runs instead.

use vstd::prelude::*;
use vstd::string::*;
use crate::command::{command_view, CommandSpec, CommandView};
use crate::config::{
    first_image_with_id, image_views, package_views, Config, ImageInfo, ImageView, PackageView,
    SystemConfig,
};
use crate::error::KickerError;
use crate::paths::{join_all, make_path, views};

verus! {

/// A build step as the contracts see it.
pub enum StepView {
    Run(CommandView),
    RunOrElse(CommandView, CommandView),
    Fail(KickerError),
}

/// One step of a build.
pub enum BuildStep {
    /// Run the command; its failure is fatal.
    Run(CommandSpec),
    /// Run the first command; if it fails, run the second, whose failure is
    /// fatal.
    RunOrElse(CommandSpec, CommandSpec),
    /// Stop the build with this error.
    Fail(KickerError),
}

impl View for BuildStep {
    type V = StepView;

    open spec fn view(&self) -> StepView {
        match self {
            BuildStep::Run(c) => StepView::Run(c@),
            BuildStep::RunOrElse(c, f) => StepView::RunOrElse(c@, f@),
            BuildStep::Fail(e) => StepView::Fail(*e),
        }
    }
}

pub open spec fn step_views(v: Seq<BuildStep>) -> Seq<StepView> {
    v.map_values(|s: BuildStep| s@)
}

/// The known packages, each with its way of being built.
#[derive(Debug, Clone, Copy, PartialEq, Eq)]
pub enum BuildStrategy {
    /// A native build, or one in a container when the switch asks for it.
    NativeOrContainer,
    /// `make` in a subdirectory, then the packaging tool in the root.
    MakeThenPackage,
    /// One `make` target that builds everything in a container.
    MakeInContainer,
    /// Install dependencies, then the container `make` target.
    InstallThenMakeInContainer,
    /// Check installed dependencies; copy them out of an image if they do
    /// not match.
    DependenciesByCopy,
    /// A package that has no build.
    Unregistered,
}

pub open spec fn strategy_of(name: Seq<char>) -> BuildStrategy {
    if name == "godwoken"@ {
        BuildStrategy::NativeOrContainer
    } else if name == "godwoken-scripts"@ {
        BuildStrategy::MakeThenPackage
    } else if name == "godwoken-polyjuice"@ {
        BuildStrategy::MakeInContainer
    } else if name == "godwoken-polyman"@ || name == "godwoken-web3"@ {
        BuildStrategy::DependenciesByCopy
    } else if name == "clerkb"@ {
        BuildStrategy::InstallThenMakeInContainer
    } else {
        BuildStrategy::Unregistered
    }
}

/// The strategy registered for a package name.
pub fn strategy_for(name: &str) -> (r: BuildStrategy)
    ensures
        r == strategy_of(name@),
{
    let n = String::from_str(name);
    if n == String::from_str("godwoken") {
        BuildStrategy::NativeOrContainer
    } else if n == String::from_str("godwoken-scripts") {
        BuildStrategy::MakeThenPackage
    } else if n == String::from_str("godwoken-polyjuice") {
        BuildStrategy::MakeInContainer
    } else if n == String::from_str("godwoken-polyman") || n == String::from_str("godwoken-web3") {
        BuildStrategy::DependenciesByCopy
    } else if n == String::from_str("clerkb") {
        BuildStrategy::InstallThenMakeInContainer
    } else {
        BuildStrategy::Unregistered
    }
}

/// The directory of package `name` under `root`.
pub open spec fn package_dir(root: Seq<char>, name: Seq<char>) -> Seq<char> {
    join_all(root, seq![name])
}

fn package_dir_of(root: &str, name: &str) -> (r: String)
    ensures
        r@ == package_dir(root@, name@),
{
    let names = vec![String::from_str(name)];
    assert(views(names@) =~= seq![name@]);
    make_path(root, names)
}

pub open spec fn godwoken_steps(root: Seq<char>, name: Seq<char>, system: SystemConfig) -> Seq<
    StepView,
> {
    if system.build_godwoken_over_docker {
        seq![StepView::Fail(KickerError::NotImplemented)]
    } else {
        seq![StepView::Run(command_view("cargo"@, seq!["build"@], Some(package_dir(root, name))))]
    }
}

/// The build of the node itself: `cargo build` in its directory unless the
/// switch asks for a container build, which is not written yet.
pub fn build_godwoken(repo_dir: &str, repo_name: &str, system: &SystemConfig) -> (r: Vec<BuildStep>)
    ensures
        step_views(r@) == godwoken_steps(repo_dir@, repo_name@, *system),
{
    if system.build_godwoken_over_docker {
        let r = vec![BuildStep::Fail(KickerError::NotImplemented)];
        assert(step_views(r@) =~= godwoken_steps(repo_dir@, repo_name@, *system));
        return r;
    }
    let dir = package_dir_of(repo_dir, repo_name);
    let args = vec![String::from_str("build")];
    assert(views(args@) =~= seq!["build"@]);
    let r = vec![BuildStep::Run(crate::command::run_in_dir("cargo", args, dir.as_str()))];
    assert(step_views(r@) =~= godwoken_steps(repo_dir@, repo_name@, *system));
    r
}

pub open spec fn scripts_steps(root: Seq<char>, name: Seq<char>) -> Seq<StepView> {
    let dir = package_dir(root, name);
    seq![
        StepView::Run(command_view("make"@, seq!["-C"@, dir + "/c"@], None)),
        StepView::Run(
            command_view("capsule"@, seq!["build"@, "--release"@, "--debug-output"@], Some(dir)),
        ),
    ]
}

/// The on-chain scripts: `make` in their `c` subdirectory, then the
/// packaging tool in the repository root.
pub fn build_godwoken_scripts(repo_dir: &str, repo_name: &str) -> (r: Vec<BuildStep>)
    ensures
        step_views(r@) == scripts_steps(repo_dir@, repo_name@),
{
    let dir = package_dir_of(repo_dir, repo_name);
    let sub = dir.clone().concat("/c");
    let make_args = vec![String::from_str("-C"), sub];
    let pack_args = vec![
        String::from_str("build"),
        String::from_str("--release"),
        String::from_str("--debug-output"),
    ];
    assert(views(make_args@) =~= seq!["-C"@, dir@ + "/c"@]);
    assert(views(pack_args@) =~= seq!["build"@, "--release"@, "--debug-output"@]);
    let r = vec![
        BuildStep::Run(crate::command::run("make", make_args)),
        BuildStep::Run(crate::command::run_in_dir("capsule", pack_args, dir.as_str())),
    ];
    assert(step_views(r@) =~= scripts_steps(repo_dir@, repo_name@));
    r
}

pub open spec fn make_all_view(dir: Seq<char>) -> CommandView {
    command_view("make"@, seq!["-C"@, dir, "all-via-docker"@], None)
}

fn make_all_via_docker(dir: &str) -> (r: CommandSpec)
    ensures
        r@ == make_all_view(dir@),
{
    let args = vec![String::from_str("-C"), String::from_str(dir), String::from_str("all-via-docker")];
    assert(views(args@) =~= seq!["-C"@, dir@, "all-via-docker"@]);
    crate::command::run("make", args)
}

pub open spec fn polyjuice_steps(root: Seq<char>, name: Seq<char>) -> Seq<StepView> {
    seq![StepView::Run(make_all_view(package_dir(root, name)))]
}

/// The contract package: its container `make` target.
pub fn build_godwoken_polyjuice(repo_dir: &str, repo_name: &str) -> (r: Vec<BuildStep>)
    ensures
        step_views(r@) == polyjuice_steps(repo_dir@, repo_name@),
{
    let dir = package_dir_of(repo_dir, repo_name);
    let r = vec![BuildStep::Run(make_all_via_docker(dir.as_str()))];
    assert(step_views(r@) =~= polyjuice_steps(repo_dir@, repo_name@));
    r
}

pub open spec fn clerkb_steps(root: Seq<char>, name: Seq<char>) -> Seq<StepView> {
    let dir = package_dir(root, name);
    seq![
        StepView::Run(command_view("yarn"@, seq!["--cwd"@, dir], None)),
        StepView::Run(make_all_view(dir)),
    ]
}

/// The consensus scripts: install their dependencies, then the container
/// `make` target.
pub fn build_clerkb(repo_dir: &str, repo_name: &str) -> (r: Vec<BuildStep>)
    ensures
        step_views(r@) == clerkb_steps(repo_dir@, repo_name@),
{
    let dir = package_dir_of(repo_dir, repo_name);
    let args = vec![String::from_str("--cwd"), dir.clone()];
    assert(views(args@) =~= seq!["--cwd"@, dir@]);
    let r = vec![
        BuildStep::Run(crate::command::run("yarn", args)),
        BuildStep::Run(make_all_via_docker(dir.as_str())),
    ];
    assert(step_views(r@) =~= clerkb_steps(repo_dir@, repo_name@));
    r
}

pub open spec fn image_reference(image: ImageView) -> Seq<char> {
    image.image_name + ":"@ + image.image_tag
}

pub open spec fn docker_copy_line(cwd: Seq<char>, name: Seq<char>, image: ImageView) -> Seq<char> {
    "docker run --rm -v "@ + cwd + "/packages/"@ + name + ":/app "@ + image_reference(image)
        + " /bin/bash -c \"cp -r ./"@ + name + "/node_modules ./app/\""@
}

/// A throwaway container of `image` that mounts the package directory
/// (under `current_dir`) and copies its prepared dependency tree into it.
pub fn copy_node_module_from_docker(current_dir: &str, repo_name: &str, image: &ImageInfo) -> (r:
    CommandSpec)
    ensures
        r@ == command_view(
            "bash"@,
            seq!["-c"@, docker_copy_line(current_dir@, repo_name@, image@)],
            None,
        ),
{
    let line = String::from_str("docker run --rm -v ").concat(current_dir).concat("/packages/").concat(
        repo_name,
    ).concat(":/app ").concat(image.reference().as_str()).concat(" /bin/bash -c \"cp -r ./").concat(
        repo_name,
    ).concat("/node_modules ./app/\"");
    crate::command::run_one_line_cmd(line.as_str())
}

pub open spec fn node_module_steps(
    root: Seq<char>,
    name: Seq<char>,
    current_dir: Seq<char>,
    image: Option<ImageView>,
) -> Seq<StepView> {
    match image {
        Some(img) => seq![
            StepView::RunOrElse(
                command_view(
                    "yarn"@,
                    seq!["--cwd"@, package_dir(root, name), "check"@, "--verify-tree"@],
                    None,
                ),
                command_view("bash"@, seq!["-c"@, docker_copy_line(current_dir, name, img)], None),
            ),
        ],
        None => seq![StepView::Fail(KickerError::ConfigMalformed)],
    }
}

pub open spec fn opt_image_view(image: Option<&ImageInfo>) -> Option<ImageView> {
    match image {
        Some(i) => Some(i@),
        None => None,
    }
}

/// A package whose dependencies are checked against its declared list; a mismatch
/// is expected and brings the copy out of `image`. Without an image the
/// build stops as misconfigured.
pub fn build_node_module_by_copy(
    repo_dir: &str,
    repo_name: &str,
    current_dir: &str,
    image: Option<&ImageInfo>,
) -> (r: Vec<BuildStep>)
    ensures
        step_views(r@) == node_module_steps(
            repo_dir@,
            repo_name@,
            current_dir@,
            opt_image_view(image),
        ),
{
    match image {
        None => {
            let r = vec![BuildStep::Fail(KickerError::ConfigMalformed)];
            assert(step_views(r@) =~= node_module_steps(
                repo_dir@,
                repo_name@,
                current_dir@,
                opt_image_view(image),
            ));
            r
        },
        Some(img) => {
            let dir = package_dir_of(repo_dir, repo_name);
            let args = vec![
                String::from_str("--cwd"),
                dir,
                String::from_str("check"),
                String::from_str("--verify-tree"),
            ];
            assert(views(args@) =~= seq![
                "--cwd"@,
                package_dir(repo_dir@, repo_name@),
                "check"@,
                "--verify-tree"@,
            ]);
            let check = crate::command::run("yarn", args);
            let fallback = copy_node_module_from_docker(current_dir, repo_name, img);
            let r = vec![BuildStep::RunOrElse(check, fallback)];
            assert(step_views(r@) =~= node_module_steps(
                repo_dir@,
                repo_name@,
                current_dir@,
                opt_image_view(image),
            ));
            r
        },
    }
}

pub open spec fn package_steps(
    p: PackageView,
    system: SystemConfig,
    current_dir: Seq<char>,
    image: Option<ImageView>,
) -> Seq<StepView> {
    let root = "./packages/"@;
    if !p.build_mode {
        seq![]
    } else {
        match strategy_of(p.repo_name) {
            BuildStrategy::NativeOrContainer => godwoken_steps(root, p.repo_name, system),
            BuildStrategy::MakeThenPackage => scripts_steps(root, p.repo_name),
            BuildStrategy::MakeInContainer => polyjuice_steps(root, p.repo_name),
            BuildStrategy::InstallThenMakeInContainer => clerkb_steps(root, p.repo_name),
            BuildStrategy::DependenciesByCopy => node_module_steps(
                root,
                p.repo_name,
                current_dir,
                image,
            ),
            BuildStrategy::Unregistered => seq![],
        }
    }
}

/// The steps of all `packages`, in their order.
pub open spec fn all_steps(
    packages: Seq<PackageView>,
    system: SystemConfig,
    current_dir: Seq<char>,
    image: Option<ImageView>,
) -> Seq<StepView>
    decreases packages.len(),
{
    if packages.len() == 0 {
        seq![]
    } else {
        all_steps(packages.drop_last(), system, current_dir, image) + package_steps(
            packages.last(),
            system,
            current_dir,
            image,
        )
    }
}

/// The image that dependency trees are copied out of.
pub open spec fn dependency_image(images: Seq<ImageView>) -> Option<ImageView> {
    match first_image_with_id(images, "docker_js_prebuild_image"@) {
        Some(i) => Some(images[i]),
        None => None,
    }
}

/// The build of a configuration: the packages in their declared order,
/// each with `build_mode` set built by its registered strategy, the others
/// and unknown names skipped. `current_dir` is where the run was started.
pub fn build_package(config: &Config, current_dir: &str) -> (r: Vec<BuildStep>)
    ensures
        step_views(r@) == all_steps(
            package_views(config.packages_info@),
            config.system,
            current_dir@,
            dependency_image(image_views(config.images_info@)),
        ),
{
    let found = config.find_image("docker_js_prebuild_image");
    let image: Option<&ImageInfo> = match found {
        Some(i) => Some(&config.images_info[i]),
        None => None,
    };
    let ghost img = dependency_image(image_views(config.images_info@));
    assert(opt_image_view(image) == img);
    let ghost pv = package_views(config.packages_info@);
    let mut steps: Vec<BuildStep> = Vec::new();
    let mut k: usize = 0;
    while k < config.packages_info.len()
        invariant
            k <= config.packages_info@.len(),
            pv == package_views(config.packages_info@),
            opt_image_view(image) == img,
            step_views(steps@) == all_steps(pv.take(k as int), config.system, current_dir@, img),
        decreases config.packages_info.len() - k,
    {
        let p = &config.packages_info[k];
        assert(pv.take(k as int + 1).drop_last() =~= pv.take(k as int));
        assert(pv.take(k as int + 1).last() == p@);
        let root = "./packages/";
        proof {
            reveal_strlit("./packages/");
        }
        let mut more: Vec<BuildStep> = if p.build_mode {
            match strategy_for(p.repo_name.as_str()) {
                BuildStrategy::NativeOrContainer => build_godwoken(
                    root,
                    p.repo_name.as_str(),
                    &config.system,
                ),
                BuildStrategy::MakeThenPackage => build_godwoken_scripts(root, p.repo_name.as_str()),
                BuildStrategy::MakeInContainer => build_godwoken_polyjuice(
                    root,
                    p.repo_name.as_str(),
                ),
                BuildStrategy::InstallThenMakeInContainer => build_clerkb(
                    root,
                    p.repo_name.as_str(),
                ),
                BuildStrategy::DependenciesByCopy => build_node_module_by_copy(
                    root,
                    p.repo_name.as_str(),
                    current_dir,
                    image,
                ),
                BuildStrategy::Unregistered => Vec::new(),
            }
        } else {
            Vec::new()
        };
        assert(step_views(more@) =~= package_steps(p@, config.system, current_dir@, img));
        let ghost before = steps@;
        let ghost added = more@;
        steps.append(&mut more);
        assert(steps@ == before + added);
        assert(step_views(steps@) =~= step_views(before) + step_views(added));
        k = k + 1;
    }
    assert(pv.take(k as int) =~= pv);
    steps
}

/// Where the driver stands in a list of steps: the step, and whether its
/// fallback is the command running.
#[derive(Debug, Clone, Copy, PartialEq, Eq)]
pub struct BuildCursor {
    pub index: usize,
    pub in_fallback: bool,
}

/// What the driver is asked to do next.
pub enum BuildAction {
    Run(CommandSpec),
    Finish(Result<(), KickerError>),
}

impl BuildCursor {
    pub fn start() -> (r: BuildCursor)
        ensures
            r.index == 0,
            !r.in_fallback,
    {
        BuildCursor { index: 0, in_fallback: false }
    }

    /// The command to run at this position, or the end of the build: past
    /// the last step it ends well, at a failing step with that step's error.
    pub fn action(&self, steps: &Vec<BuildStep>) -> (r: BuildAction)
        ensures
            self.index >= steps@.len() ==> r matches BuildAction::Finish(Ok(())),
            self.index < steps@.len() ==> match steps@[self.index as int]@ {
                StepView::Run(c) => r matches BuildAction::Run(d) && d@ == c,
                StepView::RunOrElse(c, f) => r matches BuildAction::Run(d) && d@ == (if self.in_fallback {
                    f
                } else {
                    c
                }),
                StepView::Fail(e) => r matches BuildAction::Finish(Err(x)) && x == e,
            },
    {
        if self.index >= steps.len() {
            return BuildAction::Finish(Ok(()));
        }
        match &steps[self.index] {
            BuildStep::Run(c) => BuildAction::Run(c.duplicate()),
            BuildStep::RunOrElse(c, f) => if self.in_fallback {
                BuildAction::Run(f.duplicate())
            } else {
                BuildAction::Run(c.duplicate())
            },
            BuildStep::Fail(e) => BuildAction::Finish(Err(e.clone_error())),
        }
    }

    /// The position after the command of this one ran, `ok` telling whether
    /// it succeeded. A failed check with a fallback moves to the fallback;
    /// any other failure ends the build with `CommandFailed`.
    pub fn advance(&self, steps: &Vec<BuildStep>, ok: bool) -> (r: Result<BuildCursor, KickerError>)
        requires
            self.index < steps@.len(),
        ensures
            ok ==> r == Ok::<BuildCursor, KickerError>(
                BuildCursor { index: (self.index + 1) as usize, in_fallback: false },
            ),
            !ok && !self.in_fallback && steps@[self.index as int]@ is RunOrElse ==> r == Ok::<
                BuildCursor,
                KickerError,
            >(BuildCursor { index: self.index, in_fallback: true }),
            !ok && (self.in_fallback || !(steps@[self.index as int]@ is RunOrElse)) ==> r == Err::<
                BuildCursor,
                KickerError,
            >(KickerError::CommandFailed),
    {
        let n = steps.len();
        assert(self.index < n);
        if ok {
            return Ok(BuildCursor { index: self.index + 1, in_fallback: false });
        }
        match &steps[self.index] {
            BuildStep::RunOrElse(_, _) => if self.in_fallback {
                Err(KickerError::CommandFailed)
            } else {
                Ok(BuildCursor { index: self.index, in_fallback: true })
            },
            _ => Err(KickerError::CommandFailed),
        }
    }
}

} // verus!
