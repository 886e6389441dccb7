//! Bringing a package's working copy to its pinned revision.
//!
//! The decisions form a small machine: the driver performs the action that
//! belongs to the current phase and feeds back whether it succeeded (for a
//! probe: whether the directory exists).

use vstd::prelude::*;
use vstd::string::*;
use crate::command::{command_view, CommandSpec, CommandView};
use crate::config::{package_views, Config, PackageView};
use crate::error::KickerError;
use crate::paths::{join_all, make_path, views};

verus! {

#[verifier::external_type_specification]
#[verifier::external_body]
pub struct ExParseError(url::ParseError);

/// What parsing `text` as a URL gives: `None` where it does not parse;
/// otherwise the URL's text without its fragment, and the fragment if it
/// has one.
pub uninterp spec fn url_parts(text: Seq<char>) -> Option<(Seq<char>, Option<Seq<char>>)>;

/// Relies on `url::Url::parse`, then `Url::fragment`, `Url::set_fragment(None)`
/// and `Url::as_str`: the location split into its plain URL and its fragment,
/// a function of the text alone.
#[verifier::external_body]
fn split_url(text: &str) -> (r: Result<(String, Option<String>), url::ParseError>)
    ensures
        match r {
            Ok((base, frag)) => url_parts(text@) == Some(
                (base@, crate::command::opt_view(frag)),
            ),
            Err(_) => url_parts(text@) is None,
        },
{
    let mut u = url::Url::parse(text)?;
    let frag = u.fragment().map(|f| f.to_string());
    u.set_fragment(None);
    Ok((u.as_str().to_string(), frag))
}

/// Where and what to synchronise.
#[derive(Debug, Clone, PartialEq, Eq)]
pub struct SyncTarget {
    pub target_dir: String,
    pub clone_url: String,
    pub commit: String,
    pub recursive: bool,
}

/// What a split location owes: its clone URL and revision, or
/// `InvalidRevision` where the fragment is absent or empty.
pub open spec fn parts_outcome(base: Seq<char>, fragment: Option<Seq<char>>) -> Result<
    (Seq<char>, Seq<char>),
    KickerError,
> {
    match fragment {
        Some(f) => if f.len() > 0 {
            Ok((base, f))
        } else {
            Err(KickerError::InvalidRevision)
        },
        None => Err(KickerError::InvalidRevision),
    }
}

/// What a location owes: its clone URL and revision, or the error.
pub open spec fn sync_parts(url: Seq<char>) -> Result<(Seq<char>, Seq<char>), KickerError> {
    match url_parts(url) {
        None => Err(KickerError::ConfigMalformed),
        Some((base, frag)) => parts_outcome(base, frag),
    }
}

/// The target for a location already split into its plain URL `base` and
/// its `fragment`: the revision is the fragment, which must be there and
/// non-empty, else `InvalidRevision`; the working copy is `repo_name` under
/// `repo_dir`.
pub fn sync_target_from_parts(
    base: String,
    fragment: Option<String>,
    is_recursive: bool,
    repo_dir: &str,
    repo_name: &str,
) -> (r: Result<SyncTarget, KickerError>)
    ensures
        match parts_outcome(base@, crate::command::opt_view(fragment)) {
            Ok((b, c)) => r matches Ok(t) && t.clone_url@ == b && t.commit@ == c && t.target_dir@
                == join_all(repo_dir@, seq![repo_name@]) && t.recursive == is_recursive,
            Err(e) => r == Err::<SyncTarget, KickerError>(e),
        },
{
    match fragment {
        None => Err(KickerError::InvalidRevision),
        Some(commit) => {
            if commit.as_str().unicode_len() == 0 {
                return Err(KickerError::InvalidRevision);
            }
            let names = vec![String::from_str(repo_name)];
            assert(views(names@) =~= seq![repo_name@]);
            let target_dir = make_path(repo_dir, names);
            Ok(SyncTarget { target_dir, clone_url: base, commit, recursive: is_recursive })
        },
    }
}

/// Whether `t` is what synchronising the package at `repo_url` named
/// `repo_name` under `repo_dir` works on.
pub open spec fn target_for(
    t: SyncTarget,
    repo_url: Seq<char>,
    is_recursive: bool,
    repo_dir: Seq<char>,
    repo_name: Seq<char>,
) -> bool {
    sync_parts(repo_url) matches Ok((base, commit)) && t.clone_url@ == base && t.commit@ == commit
        && t.target_dir@ == join_all(repo_dir, seq![repo_name]) && t.recursive == is_recursive
}

/// The start of pulling a package's code: reads the pinned revision and the
/// plain clone URL out of its location, and places its working copy under
/// `repo_dir`. A location that does not parse is `ConfigMalformed`; one
/// without a non-empty fragment is `InvalidRevision`. Nothing is touched in
/// either case: the result is all there is. The driver then runs the
/// machine of `SyncPhase` on the target.
pub fn run_pull_code(repo_url: &str, is_recursive: bool, repo_dir: &str, repo_name: &str) -> (r:
    Result<SyncTarget, KickerError>)
    ensures
        match sync_parts(repo_url@) {
            Ok(_) => r matches Ok(t) && target_for(t, repo_url@, is_recursive, repo_dir@, repo_name@),
            Err(e) => r == Err::<SyncTarget, KickerError>(e),
        },
{
    match split_url(repo_url) {
        Err(_) => Err(KickerError::ConfigMalformed),
        Ok((base, frag)) => sync_target_from_parts(base, frag, is_recursive, repo_dir, repo_name),
    }
}

/// What preparing the packages owes: a target for each package with
/// `build_mode` set, in order, or the first such package's error.
pub open spec fn sync_plan(packages: Seq<PackageView>) -> Result<Seq<PackageView>, KickerError>
    decreases packages.len(),
{
    if packages.len() == 0 {
        Ok(seq![])
    } else {
        match sync_plan(packages.drop_last()) {
            Err(e) => Err(e),
            Ok(done) => {
                let p = packages.last();
                if !p.build_mode {
                    Ok(done)
                } else {
                    match sync_parts(p.repo_url) {
                        Err(e) => Err(e),
                        Ok(_) => Ok(done.push(p)),
                    }
                }
            },
        }
    }
}

/// The synchronisations of a configuration: one for each package with
/// `build_mode` set, in declared order, into `packages/` and recursing into
/// sub-repositories. A location that is malformed or carries no revision
/// fails the whole preparation before anything is touched.
pub fn prepare_package(config: &Config) -> (r: Result<Vec<SyncTarget>, KickerError>)
    ensures
        match sync_plan(package_views(config.packages_info@)) {
            Ok(ps) => r matches Ok(ts) && ts@.len() == ps.len() && forall|i: int|
                0 <= i < ps.len() ==> target_for(
                    #[trigger] ts@[i],
                    ps[i].repo_url,
                    true,
                    "packages/"@,
                    ps[i].repo_name,
                ),
            Err(e) => r == Err::<Vec<SyncTarget>, KickerError>(e),
        },
{
    let ghost pv = package_views(config.packages_info@);
    let mut targets: Vec<SyncTarget> = Vec::new();
    let mut k: usize = 0;
    while k < config.packages_info.len()
        invariant
            k <= config.packages_info@.len(),
            pv == package_views(config.packages_info@),
            sync_plan(pv.take(k as int)) matches Ok(ps) && targets@.len() == ps.len() && forall|i: int|
                0 <= i < ps.len() ==> target_for(
                    #[trigger] targets@[i],
                    ps[i].repo_url,
                    true,
                    "packages/"@,
                    ps[i].repo_name,
                ),
        decreases config.packages_info.len() - k,
    {
        let p = &config.packages_info[k];
        assert(pv.take(k as int + 1).drop_last() =~= pv.take(k as int));
        assert(pv.take(k as int + 1).last() == p@);
        if p.build_mode {
            match run_pull_code(p.repo_url.as_str(), true, "packages/", p.repo_name.as_str()) {
                Err(e) => {
                    proof {
                        let ghost i = k as int;
                        lemma_plan_stops(pv, i + 1);
                    }
                    return Err(e);
                },
                Ok(t) => {
                    targets.push(t);
                },
            }
        }
        k = k + 1;
    }
    assert(pv.take(k as int) =~= pv);
    Ok(targets)
}

/// Once the plan of a prefix fails, the plan of the whole fails the same way.
proof fn lemma_plan_stops(packages: Seq<PackageView>, n: int)
    requires
        0 <= n <= packages.len(),
        sync_plan(packages.take(n)) is Err,
    ensures
        sync_plan(packages) == sync_plan(packages.take(n)),
    decreases packages.len() - n,
{
    if n < packages.len() {
        assert(packages.take(n + 1).drop_last() =~= packages.take(n));
        lemma_plan_stops(packages, n + 1);
    } else {
        assert(packages.take(n) =~= packages);
    }
}

pub open spec fn clone_view(url: Seq<char>, recursive: bool, path: Seq<char>) -> CommandView {
    if recursive {
        command_view("git"@, seq!["clone"@, url, path, "--recursive"@], None)
    } else {
        command_view("git"@, seq!["clone"@, url, path], None)
    }
}

pub open spec fn checkout_views(repo_dir: Seq<char>, commit: Seq<char>) -> Seq<CommandView> {
    seq![
        command_view("git"@, seq!["-C"@, repo_dir, "fetch"@], None),
        command_view("git"@, seq!["-C"@, repo_dir, "checkout"@, commit], None),
        command_view("git"@, seq!["-C"@, repo_dir, "submodule"@, "update"@, "--recursive"@], None),
    ]
}

pub open spec fn command_views(v: Seq<CommandSpec>) -> Seq<CommandView> {
    v.map_values(|c: CommandSpec| c@)
}

/// `git clone url path`, recursing into sub-repositories when asked.
pub fn run_git_clone(repo_url: &str, is_recursive: bool, path: &str) -> (r: CommandSpec)
    ensures
        r@ == clone_view(repo_url@, is_recursive, path@),
{
    let mut args = vec![String::from_str("clone"), String::from_str(repo_url), String::from_str(path)];
    if is_recursive {
        args.push(String::from_str("--recursive"));
    }
    if is_recursive {
        assert(views(args@) =~= seq!["clone"@, repo_url@, path@, "--recursive"@]);
    } else {
        assert(views(args@) =~= seq!["clone"@, repo_url@, path@]);
    }
    let r = crate::command::run("git", args);
    assert(r@ =~= clone_view(repo_url@, is_recursive, path@));
    r
}

/// The checkout of `commit` in `repo_dir`: fetch, check out, then update the
/// sub-repositories; run in order, the first failure failing it.
pub fn run_git_checkout(repo_dir: &str, commit: &str) -> (r: Vec<CommandSpec>)
    ensures
        command_views(r@) == checkout_views(repo_dir@, commit@),
{
    let fetch = vec![String::from_str("-C"), String::from_str(repo_dir), String::from_str("fetch")];
    let checkout = vec![
        String::from_str("-C"),
        String::from_str(repo_dir),
        String::from_str("checkout"),
        String::from_str(commit),
    ];
    let update = vec![
        String::from_str("-C"),
        String::from_str(repo_dir),
        String::from_str("submodule"),
        String::from_str("update"),
        String::from_str("--recursive"),
    ];
    assert(views(fetch@) =~= seq!["-C"@, repo_dir@, "fetch"@]);
    assert(views(checkout@) =~= seq!["-C"@, repo_dir@, "checkout"@, commit@]);
    assert(views(update@) =~= seq!["-C"@, repo_dir@, "submodule"@, "update"@, "--recursive"@]);
    let a = crate::command::run("git", fetch);
    let b = crate::command::run("git", checkout);
    let c = crate::command::run("git", update);
    assert(a@ =~= checkout_views(repo_dir@, commit@)[0]);
    assert(b@ =~= checkout_views(repo_dir@, commit@)[1]);
    assert(c@ =~= checkout_views(repo_dir@, commit@)[2]);
    let r = vec![a, b, c];
    assert(command_views(r@) =~= checkout_views(repo_dir@, commit@));
    r
}

/// Where a synchronisation stands.
#[derive(Debug, Clone, Copy, PartialEq, Eq)]
pub enum SyncPhase {
    /// Asking whether the working copy's directory exists.
    Probing,
    /// Checking out in the directory that was there.
    FirstCheckout,
    /// Removing a directory that could not be checked out.
    Removing,
    /// Creating the directory afresh.
    Creating,
    /// Cloning into the fresh directory.
    Cloning,
    /// Checking out in the fresh clone.
    FinalCheckout,
    /// At the pinned revision.
    Done,
    /// Failed after the rebuild.
    Failed,
}

/// What the driver is asked to do.
pub enum SyncAction {
    /// Report whether this directory exists.
    Probe(String),
    /// Run these in order; report whether all succeeded.
    Checkout(Vec<CommandSpec>),
    /// Remove this directory and all it holds.
    RemoveDir(String),
    /// Create this directory and any missing parents.
    CreateDir(String),
    /// Run this clone.
    Clone(CommandSpec),
    /// Stop with this outcome.
    Finish(Result<(), KickerError>),
}

/// The phase after the current one, given what the driver reported.
pub open spec fn next_phase(phase: SyncPhase, ok: bool) -> SyncPhase {
    match phase {
        SyncPhase::Probing => if ok {
            SyncPhase::FirstCheckout
        } else {
            SyncPhase::Creating
        },
        SyncPhase::FirstCheckout => if ok {
            SyncPhase::Done
        } else {
            SyncPhase::Removing
        },
        SyncPhase::Removing => if ok {
            SyncPhase::Creating
        } else {
            SyncPhase::Failed
        },
        SyncPhase::Creating => if ok {
            SyncPhase::Cloning
        } else {
            SyncPhase::Failed
        },
        SyncPhase::Cloning => if ok {
            SyncPhase::FinalCheckout
        } else {
            SyncPhase::Failed
        },
        SyncPhase::FinalCheckout => if ok {
            SyncPhase::Done
        } else {
            SyncPhase::Failed
        },
        SyncPhase::Done => SyncPhase::Done,
        SyncPhase::Failed => SyncPhase::Failed,
    }
}

impl SyncPhase {
    /// A synchronisation starts by probing for the directory.
    pub fn start() -> (r: SyncPhase)
        ensures
            r == SyncPhase::Probing,
    {
        SyncPhase::Probing
    }

    /// The next phase; a finished one stays as it is.
    pub fn next(self, ok: bool) -> (r: SyncPhase)
        ensures
            r == next_phase(self, ok),
    {
        match self {
            SyncPhase::Probing => if ok {
                SyncPhase::FirstCheckout
            } else {
                SyncPhase::Creating
            },
            SyncPhase::FirstCheckout => if ok {
                SyncPhase::Done
            } else {
                SyncPhase::Removing
            },
            SyncPhase::Removing => if ok {
                SyncPhase::Creating
            } else {
                SyncPhase::Failed
            },
            SyncPhase::Creating => if ok {
                SyncPhase::Cloning
            } else {
                SyncPhase::Failed
            },
            SyncPhase::Cloning => if ok {
                SyncPhase::FinalCheckout
            } else {
                SyncPhase::Failed
            },
            SyncPhase::FinalCheckout => if ok {
                SyncPhase::Done
            } else {
                SyncPhase::Failed
            },
            SyncPhase::Done => SyncPhase::Done,
            SyncPhase::Failed => SyncPhase::Failed,
        }
    }

    pub fn is_finished(self) -> (r: bool)
        ensures
            r == (self == SyncPhase::Done || self == SyncPhase::Failed),
    {
        match self {
            SyncPhase::Done | SyncPhase::Failed => true,
            _ => false,
        }
    }
}

impl SyncTarget {
    /// The action that belongs to `phase`.
    pub fn action(&self, phase: SyncPhase) -> (r: SyncAction)
        ensures
            match phase {
                SyncPhase::Probing => r matches SyncAction::Probe(d) && d@ == self.target_dir@,
                SyncPhase::FirstCheckout | SyncPhase::FinalCheckout => r matches SyncAction::Checkout(
                    cs,
                ) && command_views(cs@) == checkout_views(self.target_dir@, self.commit@),
                SyncPhase::Removing => r matches SyncAction::RemoveDir(d) && d@ == self.target_dir@,
                SyncPhase::Creating => r matches SyncAction::CreateDir(d) && d@ == self.target_dir@,
                SyncPhase::Cloning => r matches SyncAction::Clone(c) && c@ == clone_view(
                    self.clone_url@,
                    self.recursive,
                    self.target_dir@,
                ),
                SyncPhase::Done => r matches SyncAction::Finish(Ok(())),
                SyncPhase::Failed => r matches SyncAction::Finish(Err(KickerError::SyncFailed)),
            },
    {
        match phase {
            SyncPhase::Probing => SyncAction::Probe(self.target_dir.clone()),
            SyncPhase::FirstCheckout | SyncPhase::FinalCheckout => SyncAction::Checkout(
                run_git_checkout(self.target_dir.as_str(), self.commit.as_str()),
            ),
            SyncPhase::Removing => SyncAction::RemoveDir(self.target_dir.clone()),
            SyncPhase::Creating => SyncAction::CreateDir(self.target_dir.clone()),
            SyncPhase::Cloning => SyncAction::Clone(
                run_git_clone(self.clone_url.as_str(), self.recursive, self.target_dir.as_str()),
            ),
            SyncPhase::Done => SyncAction::Finish(Ok(())),
            SyncPhase::Failed => SyncAction::Finish(Err(KickerError::SyncFailed)),
        }
    }
}

/// A working copy as synchronisation sees it: whether its directory is
/// there, whether it is a repository, and the revision checked out.
pub struct WorkingCopy {
    pub present: bool,
    pub valid: bool,
    pub revision: Seq<char>,
}

/// How a cooperative environment (the remote is reachable and holds
/// `commit`) answers the action of `phase`: the working copy afterwards, and
/// the report handed back.
pub open spec fn perform(w: WorkingCopy, phase: SyncPhase, commit: Seq<char>) -> (WorkingCopy, bool) {
    match phase {
        SyncPhase::Probing => (w, w.present),
        SyncPhase::FirstCheckout | SyncPhase::FinalCheckout => if w.present && w.valid {
            (WorkingCopy { revision: commit, ..w }, true)
        } else {
            (w, false)
        },
        SyncPhase::Removing => (WorkingCopy { present: false, valid: false, ..w }, true),
        SyncPhase::Creating => if w.present {
            (w, true)
        } else {
            (WorkingCopy { present: true, valid: false, ..w }, true)
        },
        SyncPhase::Cloning => if w.present && !w.valid {
            (WorkingCopy { valid: true, ..w }, true)
        } else {
            (w, false)
        },
        SyncPhase::Done | SyncPhase::Failed => (w, true),
    }
}

/// Up to `fuel` rounds of the machine against that environment.
pub open spec fn run_sync(w: WorkingCopy, phase: SyncPhase, commit: Seq<char>, fuel: nat) -> (
    WorkingCopy,
    SyncPhase,
)
    decreases fuel,
{
    if fuel == 0 || phase == SyncPhase::Done || phase == SyncPhase::Failed {
        (w, phase)
    } else {
        let (w2, ok) = perform(w, phase, commit);
        run_sync(w2, next_phase(phase, ok), commit, (fuel - 1) as nat)
    }
}

/// The working copy that a finished synchronisation leaves.
pub open spec fn pinned(commit: Seq<char>) -> WorkingCopy {
    WorkingCopy { present: true, valid: true, revision: commit }
}

/// Whatever state the directory is in, one synchronisation ends at the
/// pinned revision.
pub proof fn lemma_sync_reaches_revision(w: WorkingCopy, commit: Seq<char>)
    ensures
        run_sync(w, SyncPhase::Probing, commit, 6) == (pinned(commit), SyncPhase::Done),
{
    reveal_with_fuel(run_sync, 7);
    // three paths: in place, fresh clone, or removal and clone
    if !w.present {
    } else if w.valid {
    } else {
    }
}

/// Synchronising twice in a row leaves the working copy at the pinned
/// revision after each call, and the second call changes nothing: it
/// checks out in place and stops.
pub proof fn law_sync_idempotent(w: WorkingCopy, commit: Seq<char>)
    ensures
        run_sync(w, SyncPhase::Probing, commit, 6) == (pinned(commit), SyncPhase::Done),
        run_sync(run_sync(w, SyncPhase::Probing, commit, 6).0, SyncPhase::Probing, commit, 6) == (
            pinned(commit),
            SyncPhase::Done,
        ),
        run_sync(pinned(commit), SyncPhase::Probing, commit, 2) == (pinned(commit), SyncPhase::Done),
{
    lemma_sync_reaches_revision(w, commit);
    lemma_sync_reaches_revision(pinned(commit), commit);
    reveal_with_fuel(run_sync, 3);
}

/// A directory that is there but is no repository is removed and rebuilt:
/// the check-out in place fails, the next action is the removal, and the
/// synchronisation still ends at the pinned revision.
pub proof fn law_sync_rebuilds_broken_copy(w: WorkingCopy, commit: Seq<char>)
    requires
        w.present,
        !w.valid,
    ensures
        run_sync(w, SyncPhase::Probing, commit, 2).1 == SyncPhase::Removing,
        run_sync(w, SyncPhase::Probing, commit, 6) == (pinned(commit), SyncPhase::Done),
{
    reveal_with_fuel(run_sync, 3);
    lemma_sync_reaches_revision(w, commit);
}

/// A package with no working copy yet is cloned into a fresh directory and
/// checked out there: the synchronisation probes, creates the directory,
/// clones, checks out, and ends at the pinned revision.
pub proof fn law_fresh_sync(w: WorkingCopy, commit: Seq<char>)
    requires
        !w.present,
    ensures
        run_sync(w, SyncPhase::Probing, commit, 1).1 == SyncPhase::Creating,
        run_sync(w, SyncPhase::Probing, commit, 2).1 == SyncPhase::Cloning,
        run_sync(w, SyncPhase::Probing, commit, 3).1 == SyncPhase::FinalCheckout,
        run_sync(w, SyncPhase::Probing, commit, 4) == (pinned(commit), SyncPhase::Done),
{
    reveal_with_fuel(run_sync, 5);
}

} // verus!
