//! Collecting build outputs into the workspace tree.

use vstd::prelude::*;
use vstd::string::*;
use crate::command::{command_view, run_one_line_cmd, CommandSpec, CommandView};
use crate::error::KickerError;
use crate::paths::{
    is_absolute, is_segment, join, join_all, lemma_join_keeps_prefix, lemma_segments_are_segments,
    lemma_segments_nonempty, make_path, path_segments, segments, views,
};

verus! {

/// An artifact: its path relative to the packages' root, whose first segment
/// names the owning package and whose last is the file's name.
#[derive(Debug, Clone, PartialEq, Eq)]
pub struct ScriptsInfo {
    pub source: String,
    pub always_success: bool,
}

/// Where an artifact of relative path `source` lands under `root`:
/// `root/<package>/<file name>`; nothing for a path without segments.
pub open spec fn target_path(root: Seq<char>, source: Seq<char>) -> Option<Seq<char>> {
    let segs = segments(source);
    if segs.len() == 0 {
        None
    } else {
        Some(join_all(root, seq![segs[0], segs.last()]))
    }
}

/// The directory that holds that landing place.
pub open spec fn target_folder(root: Seq<char>, source: Seq<char>) -> Seq<char> {
    join_all(root, seq![segments(source)[0]])
}

impl ScriptsInfo {
    pub fn new(source: &str, always_success: bool) -> (r: ScriptsInfo)
        ensures
            r.source@ == source@,
            r.always_success == always_success,
    {
        ScriptsInfo { source: String::from_str(source), always_success }
    }

    /// The artifact's path under `repo_dir`.
    pub fn source_script_path(&self, repo_dir: &str) -> (r: String)
        ensures
            r@ == join_all(repo_dir@, seq![self.source@]),
    {
        let parts = vec![self.source.clone()];
        assert(views(parts@) =~= seq![self.source@]);
        make_path(repo_dir, parts)
    }

    /// The artifact's landing place under `target_root_dir`.
    pub fn target_script_path(&self, target_root_dir: &str) -> (r: Option<String>)
        ensures
            match r {
                Some(t) => target_path(target_root_dir@, self.source@) == Some(t@),
                None => target_path(target_root_dir@, self.source@) is None,
            },
    {
        let segs = path_segments(self.source.as_str());
        if segs.len() == 0 {
            return None;
        }
        let last = segs.len() - 1;
        let parts = vec![segs[0].clone(), segs[last].clone()];
        assert(views(parts@) =~= seq![segments(self.source@)[0], segments(self.source@).last()]);
        Some(make_path(target_root_dir, parts))
    }
}

/// One file to copy, with the directory to create for it first.
#[derive(Debug, Clone, PartialEq, Eq)]
pub struct CopyOp {
    pub source: String,
    pub target: String,
    pub target_dir: String,
}

/// A copy as the contracts see it.
pub struct CopyView {
    pub source: Seq<char>,
    pub target: Seq<char>,
    pub target_dir: Seq<char>,
}

impl View for CopyOp {
    type V = CopyView;

    open spec fn view(&self) -> CopyView {
        CopyView { source: self.source@, target: self.target@, target_dir: self.target_dir@ }
    }
}

pub open spec fn copy_views(v: Seq<CopyOp>) -> Seq<CopyView> {
    v.map_values(|c: CopyOp| c@)
}

/// The relative paths of the entries of an artifact table.
pub open spec fn sources_of(table: Seq<(String, ScriptsInfo)>) -> Seq<Seq<char>> {
    table.map_values(|e: (String, ScriptsInfo)| e.1.source@)
}

/// Every path names a package and a file.
pub open spec fn all_named(sources: Seq<Seq<char>>) -> bool {
    forall|i: int| 0 <= i < sources.len() ==> segments(#[trigger] sources[i]).len() > 0
}

/// The copy of the artifact at `source`.
pub open spec fn copy_of(repo_dir: Seq<char>, root: Seq<char>, source: Seq<char>) -> CopyView {
    CopyView {
        source: join_all(repo_dir, seq![source]),
        target: target_path(root, source).unwrap(),
        target_dir: target_folder(root, source),
    }
}

/// The copies of all `sources`, in order.
pub open spec fn copies(repo_dir: Seq<char>, root: Seq<char>, sources: Seq<Seq<char>>) -> Seq<
    CopyView,
> {
    sources.map_values(|s: Seq<char>| copy_of(repo_dir, root, s))
}

/// The copies that bring every artifact of `scripts_info` from under
/// `repo_dir` to its place under `target_dir`, in the table's order. An
/// entry whose path names no file is `ArtifactMissing`.
///
/// The table is a list of named entries; the names label the entries and
/// are never read, so the copies depend on the paths alone, and a table
/// that repeats a name still has each of its entries copied.
pub fn collect_scripts_to_target(
    repo_dir: &str,
    target_dir: &str,
    scripts_info: &Vec<(String, ScriptsInfo)>,
) -> (r: Result<Vec<CopyOp>, KickerError>)
    ensures
        r is Ok <==> all_named(sources_of(scripts_info@)),
        r matches Ok(ops) ==> copy_views(ops@) == copies(
            repo_dir@,
            target_dir@,
            sources_of(scripts_info@),
        ),
        r matches Err(e) ==> e is ArtifactMissing,
{
    let ghost srcs = sources_of(scripts_info@);
    let mut ops: Vec<CopyOp> = Vec::new();
    let mut i: usize = 0;
    while i < scripts_info.len()
        invariant
            i <= scripts_info@.len(),
            srcs == sources_of(scripts_info@),
            all_named(srcs.take(i as int)),
            copy_views(ops@) == copies(repo_dir@, target_dir@, srcs.take(i as int)),
        decreases scripts_info.len() - i,
    {
        let info = &scripts_info[i].1;
        assert(srcs[i as int] == info.source@);
        let source = info.source_script_path(repo_dir);
        match info.target_script_path(target_dir) {
            None => {
                assert(!all_named(srcs)) by {
                    assert(segments(srcs[i as int]).len() == 0);
                }
                return Err(KickerError::ArtifactMissing(source));
            },
            Some(target) => {
                let segs = path_segments(info.source.as_str());
                let parts = vec![segs[0].clone()];
                assert(views(parts@) =~= seq![segments(info.source@)[0]]);
                let folder = make_path(target_dir, parts);
                let ghost before = copy_views(ops@);
                ops.push(CopyOp { source, target, target_dir: folder });
                assert(copy_views(ops@) =~= before.push(copy_of(repo_dir@, target_dir@, srcs[i as int])));
                assert(srcs.take(i as int + 1) =~= srcs.take(i as int).push(srcs[i as int]));
                assert(copies(repo_dir@, target_dir@, srcs.take(i as int + 1)) =~= copies(
                    repo_dir@,
                    target_dir@,
                    srcs.take(i as int),
                ).push(copy_of(repo_dir@, target_dir@, srcs[i as int])));
                assert(all_named(srcs.take(i as int + 1))) by {
                    assert forall|j: int| 0 <= j < i + 1 implies segments(
                        #[trigger] srcs.take(i as int + 1)[j],
                    ).len() > 0 by {
                        if j < i {
                            assert(srcs.take(i as int + 1)[j] == srcs.take(i as int)[j]);
                        }
                    }
                }
            },
        }
        i = i + 1;
    }
    assert(srcs.take(i as int) =~= srcs);
    Ok(ops)
}

/// The first position in `present` that is false, if any.
pub open spec fn first_absent(present: Seq<bool>) -> Option<int> {
    if exists|i: int| 0 <= i < present.len() && !present[i] {
        Some(
            choose|i: int|
                0 <= i < present.len() && !present[i] && forall|j: int| 0 <= j < i ==> present[j],
        )
    } else {
        None
    }
}

/// Given whether each copy's source exists, whether the collection may go
/// ahead: only if every source is there; otherwise it fails with
/// `ArtifactMissing` naming the first source that is not.
pub fn check_sources(ops: &Vec<CopyOp>, present: &Vec<bool>) -> (r: Result<(), KickerError>)
    requires
        present@.len() == ops@.len(),
    ensures
        match first_absent(present@) {
            None => r is Ok,
            Some(i) => r matches Err(KickerError::ArtifactMissing(p)) && p@ == ops@[i].source@,
        },
{
    let mut i: usize = 0;
    while i < present.len()
        invariant
            i <= present@.len(),
            present@.len() == ops@.len(),
            forall|j: int| 0 <= j < i ==> present@[j],
        decreases present.len() - i,
    {
        if !present[i] {
            proof {
                let c = first_absent(present@).unwrap();
                assert(0 <= c < present@.len() && !present@[c]);
                if c < i {
                    assert(present@[c]);
                }
                if c > i {
                    assert(present@[i as int]);
                }
            }
            return Err(KickerError::ArtifactMissing(ops[i].source.clone()));
        }
        i = i + 1;
    }
    Ok(())
}

fn entry(name: &str, source: &str) -> (r: (String, ScriptsInfo))
    ensures
        r.0@ == name@,
        r.1.source@ == source@,
        !r.1.always_success,
{
    (String::from_str(name), ScriptsInfo::new(source, false))
}

/// Where packages are checked out.
pub open spec fn packages_root() -> Seq<char> {
    "./packages"@
}

/// The node's repository root, which the paths of its script tables start
/// from.
pub open spec fn godwoken_repo_root() -> Seq<char> {
    "./packages/godwoken"@
}

/// The contract package's repository root.
pub open spec fn polyjuice_repo_root() -> Seq<char> {
    "./packages/godwoken-polyjuice"@
}

/// The consensus scripts' repository root.
pub open spec fn clerkb_repo_root() -> Seq<char> {
    "./packages/clerkb"@
}

/// Where on-chain scripts are released.
pub open spec fn release_root() -> Seq<char> {
    "./workspace/scripts/release"@
}

pub open spec fn backend_root() -> Seq<char> {
    "./workspace/deploy/backend"@
}

pub open spec fn polyjuice_backend_root() -> Seq<char> {
    "./workspace/deploy/polyjuice-backend"@
}

/// The generator and validator scripts that the backend needs too.
pub open spec fn godwoken_backend_sources() -> Seq<Seq<char>> {
    seq![
        "godwoken-scripts/c/build/sudt-generator"@,
        "godwoken-scripts/c/build/sudt-validator"@,
        "godwoken-scripts/c/build/meta-contract-generator"@,
        "godwoken-scripts/c/build/meta-contract-validator"@,
    ]
}

pub open spec fn godwoken_release_sources() -> Seq<Seq<char>> {
    seq![
        "godwoken-scripts/build/release/always-success"@,
        "godwoken-scripts/build/release/custodian-lock"@,
        "godwoken-scripts/build/release/deposit-lock"@,
        "godwoken-scripts/build/release/withdrawal-lock"@,
        "godwoken-scripts/build/release/challenge-lock"@,
        "godwoken-scripts/build/release/stake-lock"@,
        "godwoken-scripts/build/release/tron-account-lock"@,
        "godwoken-scripts/build/release/state-validator"@,
        "godwoken-scripts/build/release/eth-account-lock"@,
    ] + godwoken_backend_sources()
}

pub open spec fn polyjuice_sources() -> Seq<Seq<char>> {
    seq!["godwoken-polyjuice/build/generator"@, "godwoken-polyjuice/build/validator"@]
}

pub open spec fn clerkb_sources() -> Seq<Seq<char>> {
    seq!["clerkb/build/debug/poa"@, "clerkb/build/debug/state"@]
}

fn godwoken_backend_table() -> (r: Vec<(String, ScriptsInfo)>)
    ensures
        sources_of(r@) == godwoken_backend_sources(),
{
    let r = vec![
        entry("l2_sudt_generator", "godwoken-scripts/c/build/sudt-generator"),
        entry("l2_sudt_validator", "godwoken-scripts/c/build/sudt-validator"),
        entry("meta_contract_generator", "godwoken-scripts/c/build/meta-contract-generator"),
        entry("meta_contract_validator", "godwoken-scripts/c/build/meta-contract-validator"),
    ];
    assert(sources_of(r@) =~= godwoken_backend_sources());
    r
}

/// Appends `more` to `ops`.
fn extend_copies(ops: &mut Vec<CopyOp>, more: Vec<CopyOp>)
    ensures
        copy_views(final(ops)@) == copy_views(old(ops)@) + copy_views(more@),
{
    let mut more = more;
    let ghost a = ops@;
    let ghost b = more@;
    ops.append(&mut more);
    assert(copy_views(ops@) =~= copy_views(a) + copy_views(b));
}

/// The node's on-chain scripts: all of them into the release directory, and
/// the generators and validators into the backend directory as well.
pub fn provide_godwoken_scripts() -> (r: Result<Vec<CopyOp>, KickerError>)
    ensures
        r matches Ok(ops) && copy_views(ops@) == copies(
            godwoken_repo_root(),
            release_root(),
            godwoken_release_sources(),
        ) + copies(godwoken_repo_root(), backend_root(), godwoken_backend_sources()),
{
    proof {
        lemma_tables_named();
    }
    let mut scripts = vec![
        entry("always_success", "godwoken-scripts/build/release/always-success"),
        entry("custodian_lock", "godwoken-scripts/build/release/custodian-lock"),
        entry("deposit_lock", "godwoken-scripts/build/release/deposit-lock"),
        entry("withdrawal_lock", "godwoken-scripts/build/release/withdrawal-lock"),
        entry("challenge_lock", "godwoken-scripts/build/release/challenge-lock"),
        entry("stake_lock", "godwoken-scripts/build/release/stake-lock"),
        entry("tron_account_lock", "godwoken-scripts/build/release/tron-account-lock"),
        entry("state_validator", "godwoken-scripts/build/release/state-validator"),
        entry("eth_account_lock", "godwoken-scripts/build/release/eth-account-lock"),
    ];
    let backend_scripts = godwoken_backend_table();
    let mut tail = godwoken_backend_table();
    let ghost a = scripts@;
    let ghost b = tail@;
    scripts.append(&mut tail);
    assert(sources_of(scripts@) =~= godwoken_release_sources()) by {
        assert(scripts@ == a + b);
        assert(sources_of(a + b) =~= sources_of(a) + sources_of(b));
    }
    let mut ops = match collect_scripts_to_target("./packages/godwoken", "./workspace/scripts/release", &scripts) {
        Ok(ops) => ops,
        Err(e) => return Err(e),
    };
    let backend = match collect_scripts_to_target(
        "./packages/godwoken",
        "./workspace/deploy/backend",
        &backend_scripts,
    ) {
        Ok(ops) => ops,
        Err(e) => return Err(e),
    };
    extend_copies(&mut ops, backend);
    Ok(ops)
}

/// The contract's generator and validator, into the release directory and
/// its own backend directory.
pub fn provide_polyjuice_scripts() -> (r: Result<Vec<CopyOp>, KickerError>)
    ensures
        r matches Ok(ops) && copy_views(ops@) == copies(
            polyjuice_repo_root(),
            release_root(),
            polyjuice_sources(),
        ) + copies(polyjuice_repo_root(), polyjuice_backend_root(), polyjuice_sources()),
{
    proof {
        lemma_tables_named();
    }
    let scripts = vec![
        entry("polyjuice_generator", "godwoken-polyjuice/build/generator"),
        entry("polyjuice_validator", "godwoken-polyjuice/build/validator"),
    ];
    assert(sources_of(scripts@) =~= polyjuice_sources());
    let mut ops = match collect_scripts_to_target("./packages/godwoken-polyjuice", "./workspace/scripts/release", &scripts) {
        Ok(ops) => ops,
        Err(e) => return Err(e),
    };
    let backend = match collect_scripts_to_target(
        "./packages/godwoken-polyjuice",
        "./workspace/deploy/polyjuice-backend",
        &scripts,
    ) {
        Ok(ops) => ops,
        Err(e) => return Err(e),
    };
    extend_copies(&mut ops, backend);
    Ok(ops)
}

/// The consensus scripts, into the release directory.
pub fn provide_clerkb_scripts() -> (r: Result<Vec<CopyOp>, KickerError>)
    ensures
        r matches Ok(ops) && copy_views(ops@) == copies(
            clerkb_repo_root(),
            release_root(),
            clerkb_sources(),
        ),
{
    proof {
        lemma_tables_named();
    }
    let scripts = vec![
        entry("poa", "clerkb/build/debug/poa"),
        entry("state", "clerkb/build/debug/state"),
    ];
    assert(sources_of(scripts@) =~= clerkb_sources());
    collect_scripts_to_target("./packages/clerkb", "./workspace/scripts/release", &scripts)
}

/// One step of assembling the workspace.
pub enum WorkspaceOp {
    /// Create this directory and any missing parents.
    CreateDir(String),
    /// Check that every source is there (see `check_sources`), then create
    /// each target's directory and copy the file over any old one.
    Copy(Vec<CopyOp>),
    /// Run this command; its failure is fatal.
    Run(CommandSpec),
}

pub enum OpView {
    CreateDir(Seq<char>),
    Copy(Seq<CopyView>),
    Run(CommandView),
}

impl View for WorkspaceOp {
    type V = OpView;

    open spec fn view(&self) -> OpView {
        match self {
            WorkspaceOp::CreateDir(d) => OpView::CreateDir(d@),
            WorkspaceOp::Copy(ops) => OpView::Copy(copy_views(ops@)),
            WorkspaceOp::Run(c) => OpView::Run(c@),
        }
    }
}

pub open spec fn op_views(v: Seq<WorkspaceOp>) -> Seq<OpView> {
    v.map_values(|o: WorkspaceOp| o@)
}

/// The skeleton of the workspace.
pub open spec fn workspace_folders() -> Seq<Seq<char>> {
    seq![
        "workspace/bin"@,
        "workspace/deploy/backend"@,
        "workspace/deploy/polyjuice-backend"@,
        "workspace/scripts/release"@,
    ]
}

/// The directories of the workspace skeleton.
pub fn create_workspace_folders() -> (r: Vec<String>)
    ensures
        views(r@) == workspace_folders(),
{
    let r = vec![
        String::from_str("workspace/bin"),
        String::from_str("workspace/deploy/backend"),
        String::from_str("workspace/deploy/polyjuice-backend"),
        String::from_str("workspace/scripts/release"),
    ];
    assert(views(r@) =~= workspace_folders());
    r
}

pub open spec fn copy_view(source: Seq<char>, target: Seq<char>, target_dir: Seq<char>) -> CopyView {
    CopyView { source, target, target_dir }
}

fn copy_op(source: &str, target: &str, target_dir: &str) -> (r: CopyOp)
    ensures
        r@ == copy_view(source@, target@, target_dir@),
{
    CopyOp {
        source: String::from_str(source),
        target: String::from_str(target),
        target_dir: String::from_str(target_dir),
    }
}

pub open spec fn basic_files() -> Seq<OpView> {
    seq![
        OpView::Copy(
            seq![
                copy_view(
                    "./config/private_key"@,
                    "./workspace/deploy/private_key"@,
                    "./workspace/deploy"@,
                ),
            ],
        ),
        OpView::Run(
            command_view("bash"@, seq!["-c"@, "sh ./docker/layer2/init_config_json.sh"@], None),
        ),
    ]
}

/// The block producer's private key, then the script that writes the
/// initial configuration, run once through a shell.
pub fn provide_basic_files() -> (r: Vec<WorkspaceOp>)
    ensures
        op_views(r@) == basic_files(),
{
    let key = vec![copy_op("./config/private_key", "./workspace/deploy/private_key", "./workspace/deploy")];
    let ghost kv = copy_views(key@);
    assert(kv =~= basic_files()[0]->Copy_0);
    let r = vec![
        WorkspaceOp::Copy(key),
        WorkspaceOp::Run(run_one_line_cmd("sh ./docker/layer2/init_config_json.sh")),
    ];
    assert(op_views(r@) =~= basic_files());
    r
}

pub open spec fn godwoken_bins() -> Seq<CopyView> {
    seq![
        copy_view(
            "packages/godwoken/target/debug/godwoken"@,
            "workspace/bin/godwoken"@,
            "workspace/bin"@,
        ),
        copy_view(
            "packages/godwoken/target/debug/gw-tools"@,
            "workspace/bin/gw-tools"@,
            "workspace/bin"@,
        ),
    ]
}

/// The node's prebuilt binaries, into the workspace's binaries directory.
pub fn provide_godwoken_bin() -> (r: Vec<CopyOp>)
    ensures
        copy_views(r@) == godwoken_bins(),
{
    let r = vec![
        copy_op("packages/godwoken/target/debug/godwoken", "workspace/bin/godwoken", "workspace/bin"),
        copy_op("packages/godwoken/target/debug/gw-tools", "workspace/bin/gw-tools", "workspace/bin"),
    ];
    assert(copy_views(r@) =~= godwoken_bins());
    r
}

/// Every artifact table names its files.
pub open spec fn tables_named() -> bool {
    all_named(godwoken_release_sources()) && all_named(godwoken_backend_sources()) && all_named(
        polyjuice_sources(),
    ) && all_named(clerkb_sources())
}

/// A path that starts with something other than a separator.
pub open spec fn starts_plain(s: Seq<char>) -> bool {
    s.len() > 0 && s[0] != '/'
}

proof fn lemma_plain_table(t: Seq<Seq<char>>)
    requires
        forall|i: int| 0 <= i < t.len() ==> starts_plain(#[trigger] t[i]),
    ensures
        all_named(t),
        all_relative(t),
{
    assert forall|i: int| 0 <= i < t.len() implies segments(#[trigger] t[i]).len() > 0 by {
        lemma_segments_nonempty(t[i], 0);
    }
}

/// Every path of the artifact tables is relative and names its package and
/// file.
pub proof fn lemma_tables_named()
    ensures
        tables_named(),
        all_relative(godwoken_release_sources()),
        all_relative(godwoken_backend_sources()),
        all_relative(polyjuice_sources()),
        all_relative(clerkb_sources()),
{
    reveal_strlit("godwoken-scripts/c/build/sudt-generator");
    reveal_strlit("godwoken-scripts/c/build/sudt-validator");
    reveal_strlit("godwoken-scripts/c/build/meta-contract-generator");
    reveal_strlit("godwoken-scripts/c/build/meta-contract-validator");
    reveal_strlit("godwoken-scripts/build/release/always-success");
    reveal_strlit("godwoken-scripts/build/release/custodian-lock");
    reveal_strlit("godwoken-scripts/build/release/deposit-lock");
    reveal_strlit("godwoken-scripts/build/release/withdrawal-lock");
    reveal_strlit("godwoken-scripts/build/release/challenge-lock");
    reveal_strlit("godwoken-scripts/build/release/stake-lock");
    reveal_strlit("godwoken-scripts/build/release/tron-account-lock");
    reveal_strlit("godwoken-scripts/build/release/state-validator");
    reveal_strlit("godwoken-scripts/build/release/eth-account-lock");
    reveal_strlit("godwoken-polyjuice/build/generator");
    reveal_strlit("godwoken-polyjuice/build/validator");
    reveal_strlit("clerkb/build/debug/poa");
    reveal_strlit("clerkb/build/debug/state");
    assert forall|i: int| 0 <= i < godwoken_backend_sources().len() implies starts_plain(#[trigger] godwoken_backend_sources()[i]) by {
        if i == 0 {
        } else if i == 1 {
        } else if i == 2 {
        } else {
        }
    }
    lemma_plain_table(godwoken_backend_sources());
    assert forall|i: int| 0 <= i < godwoken_release_sources().len() implies starts_plain(#[trigger] godwoken_release_sources()[i]) by {
        if i == 0 {
        } else if i == 1 {
        } else if i == 2 {
        } else if i == 3 {
        } else if i == 4 {
        } else if i == 5 {
        } else if i == 6 {
        } else if i == 7 {
        } else if i == 8 {
        } else if i == 9 {
        } else if i == 10 {
        } else if i == 11 {
        } else {
        }
    }
    lemma_plain_table(godwoken_release_sources());
    assert forall|i: int| 0 <= i < polyjuice_sources().len() implies starts_plain(#[trigger] polyjuice_sources()[i]) by {
        if i == 0 {
        } else {
        }
    }
    lemma_plain_table(polyjuice_sources());
    assert forall|i: int| 0 <= i < clerkb_sources().len() implies starts_plain(#[trigger] clerkb_sources()[i]) by {
        if i == 0 {
        } else {
        }
    }
    lemma_plain_table(clerkb_sources());
}

/// The assembly of the workspace, in order.
pub open spec fn workspace_plan() -> Seq<OpView> {
    seq![
        OpView::CreateDir(workspace_folders()[0]),
        OpView::CreateDir(workspace_folders()[1]),
        OpView::CreateDir(workspace_folders()[2]),
        OpView::CreateDir(workspace_folders()[3]),
    ] + basic_files() + seq![
        OpView::Copy(godwoken_bins()),
        OpView::Copy(
            copies(godwoken_repo_root(), release_root(), godwoken_release_sources()) + copies(
                godwoken_repo_root(),
                backend_root(),
                godwoken_backend_sources(),
            ),
        ),
        OpView::Copy(
            copies(polyjuice_repo_root(), release_root(), polyjuice_sources()) + copies(
                polyjuice_repo_root(),
                polyjuice_backend_root(),
                polyjuice_sources(),
            ),
        ),
        OpView::Copy(copies(clerkb_repo_root(), release_root(), clerkb_sources())),
    ]
}

/// The assembly of the workspace: the skeleton, the static files, the
/// prebuilt binaries, then each package family's artifacts.
pub fn prepare_workspace() -> (r: Result<Vec<WorkspaceOp>, KickerError>)
    ensures
        r matches Ok(ops) && op_views(ops@) == workspace_plan(),
{
    proof {
        lemma_tables_named();
    }
    let gw = match provide_godwoken_scripts() {
        Ok(ops) => ops,
        Err(e) => return Err(e),
    };
    let pj = match provide_polyjuice_scripts() {
        Ok(ops) => ops,
        Err(e) => return Err(e),
    };
    let ck = match provide_clerkb_scripts() {
        Ok(ops) => ops,
        Err(e) => return Err(e),
    };
    let folders = create_workspace_folders();
    let mut plan: Vec<WorkspaceOp> = Vec::new();
    let mut i: usize = 0;
    while i < folders.len()
        invariant
            i <= folders@.len(),
            views(folders@) == workspace_folders(),
            op_views(plan@) == workspace_folders().take(i as int).map_values(
                |d: Seq<char>| OpView::CreateDir(d),
            ),
        decreases folders.len() - i,
    {
        let ghost before = op_views(plan@);
        plan.push(WorkspaceOp::CreateDir(folders[i].clone()));
        assert(folders@[i as int]@ == workspace_folders()[i as int]);
        assert(op_views(plan@) =~= before.push(OpView::CreateDir(workspace_folders()[i as int])));
        assert(workspace_folders().take(i as int + 1) =~= workspace_folders().take(i as int).push(
            workspace_folders()[i as int],
        ));
        i = i + 1;
    }
    assert(workspace_folders().take(i as int) =~= workspace_folders());
    let ghost head = op_views(plan@);
    assert(head =~= seq![
        OpView::CreateDir(workspace_folders()[0]),
        OpView::CreateDir(workspace_folders()[1]),
        OpView::CreateDir(workspace_folders()[2]),
        OpView::CreateDir(workspace_folders()[3]),
    ]);
    let mut basics = provide_basic_files();
    let ghost bv = basics@;
    plan.append(&mut basics);
    assert(op_views(plan@) =~= head + op_views(bv));
    let ghost mid = op_views(plan@);
    let bins = provide_godwoken_bin();
    let ghost tail = seq![
        OpView::Copy(copy_views(bins@)),
        OpView::Copy(copy_views(gw@)),
        OpView::Copy(copy_views(pj@)),
        OpView::Copy(copy_views(ck@)),
    ];
    plan.push(WorkspaceOp::Copy(bins));
    plan.push(WorkspaceOp::Copy(gw));
    plan.push(WorkspaceOp::Copy(pj));
    plan.push(WorkspaceOp::Copy(ck));
    assert(op_views(plan@) =~= mid + tail);
    assert(op_views(plan@) =~= workspace_plan());
    Ok(plan)
}

/// A file tree: each path's bytes.
pub type FileTree = Map<Seq<char>, Seq<u8>>;

/// The tree after the copies `ops`, made in order, each overwriting its
/// target; a copy whose source is absent leaves the tree as it is.
pub open spec fn apply_copies(fs: FileTree, ops: Seq<CopyView>) -> FileTree
    decreases ops.len(),
{
    if ops.len() == 0 {
        fs
    } else {
        let m = apply_copies(fs, ops.drop_last());
        let c = ops.last();
        if m.contains_key(c.source) {
            m.insert(c.target, m[c.source])
        } else {
            m
        }
    }
}

pub open spec fn is_target(ops: Seq<CopyView>, k: Seq<char>) -> bool {
    exists|i: int| 0 <= i < ops.len() && ops[i].target == k
}

/// No copy writes where a copy reads.
pub open spec fn reads_apart_from_writes(ops: Seq<CopyView>) -> bool {
    forall|i: int, j: int| 0 <= i < ops.len() && 0 <= j < ops.len() ==> ops[i].target != ops[j].source
}

pub open spec fn agree_at(a: FileTree, b: FileTree, k: Seq<char>) -> bool {
    a.contains_key(k) == b.contains_key(k) && (a.contains_key(k) ==> a[k] == b[k])
}

proof fn lemma_untouched(fs: FileTree, ops: Seq<CopyView>, k: Seq<char>)
    requires
        !is_target(ops, k),
    ensures
        agree_at(apply_copies(fs, ops), fs, k),
    decreases ops.len(),
{
    if ops.len() > 0 {
        assert(!is_target(ops.drop_last(), k)) by {
            if is_target(ops.drop_last(), k) {
                let i = choose|i: int| 0 <= i < ops.len() - 1 && ops.drop_last()[i].target == k;
                assert(ops[i].target == k);
            }
        }
        lemma_untouched(fs, ops.drop_last(), k);
        assert(ops[ops.len() - 1].target != k);
    }
}

proof fn lemma_targets_follow_sources(a: FileTree, b: FileTree, ops: Seq<CopyView>, k: Seq<char>)
    requires
        reads_apart_from_writes(ops),
        forall|i: int|
            0 <= i < ops.len() ==> agree_at(a, b, #[trigger] ops[i].source) && a.contains_key(
                ops[i].source,
            ),
        is_target(ops, k),
    ensures
        agree_at(apply_copies(a, ops), apply_copies(b, ops), k),
    decreases ops.len(),
{
    let rest = ops.drop_last();
    let c = ops.last();
    assert(agree_at(a, b, ops[ops.len() - 1].source) && a.contains_key(ops[ops.len() - 1].source));
    assert(!is_target(rest, c.source)) by {
        if is_target(rest, c.source) {
            let i = choose|i: int| 0 <= i < rest.len() && rest[i].target == c.source;
            assert(ops[i].target != ops[ops.len() - 1].source);
        }
    }
    lemma_untouched(a, rest, c.source);
    lemma_untouched(b, rest, c.source);
    if c.target != k {
        assert(reads_apart_from_writes(rest)) by {
            assert forall|i: int, j: int|
                0 <= i < rest.len() && 0 <= j < rest.len() implies rest[i].target
                != rest[j].source by {
                assert(ops[i].target != ops[j].source);
            }
        }
        assert forall|i: int| 0 <= i < rest.len() implies agree_at(a, b, #[trigger] rest[i].source)
            && a.contains_key(rest[i].source) by {
            assert(agree_at(a, b, ops[i].source) && a.contains_key(ops[i].source));
        }
        assert(is_target(rest, k)) by {
            let i = choose|i: int| 0 <= i < ops.len() && ops[i].target == k;
            assert(i != ops.len() - 1);
            assert(rest[i].target == k);
        }
        lemma_targets_follow_sources(a, b, rest, k);
    }
}

/// Making the same copies a second time changes nothing, provided every
/// source is there and no copy writes where one reads: each target ends up
/// holding its source's bytes whatever it held before.
pub proof fn law_copies_converge(fs: FileTree, ops: Seq<CopyView>)
    requires
        reads_apart_from_writes(ops),
        forall|i: int| 0 <= i < ops.len() ==> fs.contains_key(#[trigger] ops[i].source),
    ensures
        apply_copies(apply_copies(fs, ops), ops) == apply_copies(fs, ops),
{
    let once = apply_copies(fs, ops);
    let twice = apply_copies(once, ops);
    assert forall|i: int| 0 <= i < ops.len() implies agree_at(once, fs, #[trigger] ops[i].source)
        && once.contains_key(ops[i].source) by {
        assert(!is_target(ops, ops[i].source)) by {
            if is_target(ops, ops[i].source) {
                let j = choose|j: int| 0 <= j < ops.len() && ops[j].target == ops[i].source;
                assert(ops[j].target != ops[i].source);
            }
        }
        lemma_untouched(fs, ops, ops[i].source);
    }
    assert forall|k: Seq<char>| agree_at(twice, once, k) by {
        if is_target(ops, k) {
            lemma_targets_follow_sources(once, fs, ops, k);
        } else {
            lemma_untouched(once, ops, k);
        }
    }
    assert(twice =~= once) by {
        assert forall|k: Seq<char>| #[trigger] twice.contains_key(k) == once.contains_key(k) by {
            assert(agree_at(twice, once, k));
        }
        assert forall|k: Seq<char>| #[trigger] twice.contains_key(k) implies twice[k] == once[k] by {
            assert(agree_at(twice, once, k));
        }
    }
}

/// `a` and `b` differ at a position that both have: neither is a prefix of
/// the other.
pub open spec fn diverge(a: Seq<char>, b: Seq<char>) -> bool {
    exists|i: int| 0 <= i < a.len() && i < b.len() && a[i] != b[i]
}

pub open spec fn all_relative(sources: Seq<Seq<char>>) -> bool {
    forall|i: int| 0 <= i < sources.len() ==> !is_absolute(#[trigger] sources[i])
}

proof fn lemma_apart_by_prefix(x: Seq<char>, y: Seq<char>, a: Seq<char>, b: Seq<char>)
    requires
        diverge(a, b),
        x.len() >= a.len(),
        x.subrange(0, a.len() as int) == a,
        y.len() >= b.len(),
        y.subrange(0, b.len() as int) == b,
    ensures
        x != y,
{
    let i = choose|i: int| 0 <= i < a.len() && i < b.len() && a[i] != b[i];
    assert(x[i] == x.subrange(0, a.len() as int)[i]);
    assert(y[i] == y.subrange(0, b.len() as int)[i]);
}

proof fn lemma_copy_prefixes(repo_dir: Seq<char>, root: Seq<char>, source: Seq<char>)
    requires
        !is_absolute(source),
        segments(source).len() > 0,
    ensures
        copy_of(repo_dir, root, source).source.len() >= repo_dir.len(),
        copy_of(repo_dir, root, source).source.subrange(0, repo_dir.len() as int) == repo_dir,
        copy_of(repo_dir, root, source).target.len() >= root.len(),
        copy_of(repo_dir, root, source).target.subrange(0, root.len() as int) == root,
{
    reveal_with_fuel(join_all, 3);
    let segs = segments(source);
    lemma_segments_are_segments(source);
    assert(is_segment(segs[0]));
    assert(is_segment(segs[segs.len() - 1]));
    assert(seq![source].drop_last() =~= Seq::<Seq<char>>::empty());
    assert(join_all(repo_dir, seq![source]) == join(repo_dir, source));
    lemma_join_keeps_prefix(repo_dir, source);
    let pair = seq![segs[0], segs.last()];
    assert(pair.drop_last() =~= seq![segs[0]]);
    assert(seq![segs[0]].drop_last() =~= Seq::<Seq<char>>::empty());
    let mid = join(root, segs[0]);
    assert(join_all(root, pair) == join(mid, segs.last()));
    lemma_join_keeps_prefix(root, segs[0]);
    lemma_join_keeps_prefix(mid, segs.last());
    let t = join(mid, segs.last());
    assert(t.subrange(0, root.len() as int) =~= t.subrange(0, mid.len() as int).subrange(
        0,
        root.len() as int,
    ));
}

/// The copies that the collector lays out read only under `repo_dir` and
/// write only under `target_dir`; where neither of the two is a prefix of
/// the other, no copy writes where one reads.
pub proof fn lemma_collected_copies_apart(
    repo_dir: Seq<char>,
    target_dir: Seq<char>,
    sources: Seq<Seq<char>>,
)
    requires
        diverge(repo_dir, target_dir),
        all_named(sources),
        all_relative(sources),
    ensures
        reads_apart_from_writes(copies(repo_dir, target_dir, sources)),
{
    let ops = copies(repo_dir, target_dir, sources);
    assert forall|i: int, j: int| 0 <= i < ops.len() && 0 <= j < ops.len() implies ops[i].target
        != ops[j].source by {
        lemma_copy_prefixes(repo_dir, target_dir, sources[i]);
        lemma_copy_prefixes(repo_dir, target_dir, sources[j]);
        lemma_apart_by_prefix(ops[j].source, ops[i].target, repo_dir, target_dir);
    }
}

/// Collecting the same artifacts twice leaves the same tree as collecting
/// them once, whatever the workspace held before: provided every source is
/// there, the paths are relative and name their files, and the two roots
/// are apart.
pub proof fn law_collect_converges(
    fs: FileTree,
    repo_dir: Seq<char>,
    target_dir: Seq<char>,
    sources: Seq<Seq<char>>,
)
    requires
        diverge(repo_dir, target_dir),
        all_named(sources),
        all_relative(sources),
        forall|i: int|
            0 <= i < sources.len() ==> fs.contains_key(
                #[trigger] copies(repo_dir, target_dir, sources)[i].source,
            ),
    ensures
        apply_copies(apply_copies(fs, copies(repo_dir, target_dir, sources)), copies(repo_dir, target_dir, sources))
            == apply_copies(fs, copies(repo_dir, target_dir, sources)),
{
    lemma_collected_copies_apart(repo_dir, target_dir, sources);
    law_copies_converge(fs, copies(repo_dir, target_dir, sources));
}

/// `p` is a prefix of `x`.
pub open spec fn has_prefix(x: Seq<char>, p: Seq<char>) -> bool {
    x.len() >= p.len() && x.subrange(0, p.len() as int) == p
}

/// A path inside the workspace tree.
pub open spec fn in_workspace(x: Seq<char>) -> bool {
    has_prefix(x, "workspace/"@) || has_prefix(x, "./workspace/"@)
}

/// Every copy writes inside the workspace and reads outside it.
pub open spec fn into_workspace(ops: Seq<CopyView>) -> bool {
    forall|i: int|
        0 <= i < ops.len() ==> in_workspace(#[trigger] ops[i].target) && !in_workspace(
            ops[i].source,
        )
}

/// Every copy of the workspace plan, in the plan's order.
pub open spec fn plan_copies() -> Seq<CopyView> {
    basic_files()[0]->Copy_0 + godwoken_bins() + copies(
        godwoken_repo_root(),
        release_root(),
        godwoken_release_sources(),
    ) + copies(godwoken_repo_root(), backend_root(), godwoken_backend_sources()) + copies(
        polyjuice_repo_root(),
        release_root(),
        polyjuice_sources(),
    ) + copies(polyjuice_repo_root(), polyjuice_backend_root(), polyjuice_sources()) + copies(
        clerkb_repo_root(),
        release_root(),
        clerkb_sources(),
    )
}

proof fn lemma_prefix_trans(x: Seq<char>, a: Seq<char>, b: Seq<char>)
    requires
        has_prefix(x, a),
        has_prefix(a, b),
    ensures
        has_prefix(x, b),
{
    assert(x.subrange(0, b.len() as int) =~= x.subrange(0, a.len() as int).subrange(
        0,
        b.len() as int,
    ));
}

proof fn lemma_not_prefix(x: Seq<char>, a: Seq<char>, b: Seq<char>, i: int)
    requires
        has_prefix(x, a),
        0 <= i < a.len(),
        i < b.len(),
        a[i] != b[i],
    ensures
        !has_prefix(x, b),
{
    assert(x[i] == x.subrange(0, a.len() as int)[i]);
    if has_prefix(x, b) {
        assert(x[i] == x.subrange(0, b.len() as int)[i]);
    }
}

proof fn lemma_literal_prefix(x: Seq<char>, p: Seq<char>)
    requires
        x.len() >= p.len(),
        forall|i: int| 0 <= i < p.len() ==> x[i] == p[i],
    ensures
        has_prefix(x, p),
{
    assert(x.subrange(0, p.len() as int) =~= p);
}

proof fn lemma_group_into_workspace(repo_dir: Seq<char>, root: Seq<char>, sources: Seq<Seq<char>>)
    requires
        has_prefix(repo_dir, packages_root()),
        has_prefix(root, "./workspace/"@),
        all_named(sources),
        all_relative(sources),
    ensures
        into_workspace(copies(repo_dir, root, sources)),
{
    reveal_strlit("./packages");
    reveal_strlit("./workspace/");
    reveal_strlit("workspace/");
    let ops = copies(repo_dir, root, sources);
    assert forall|i: int| 0 <= i < ops.len() implies in_workspace(#[trigger] ops[i].target)
        && !in_workspace(ops[i].source) by {
        lemma_copy_prefixes(repo_dir, root, sources[i]);
        assert(has_prefix(ops[i].target, root));
        lemma_prefix_trans(ops[i].target, root, "./workspace/"@);
        assert(has_prefix(ops[i].source, repo_dir));
        lemma_prefix_trans(ops[i].source, repo_dir, packages_root());
        lemma_not_prefix(ops[i].source, packages_root(), "./workspace/"@, 2);
        lemma_not_prefix(ops[i].source, packages_root(), "workspace/"@, 0);
    }
}

proof fn lemma_concat_into_workspace(a: Seq<CopyView>, b: Seq<CopyView>)
    requires
        into_workspace(a),
        into_workspace(b),
    ensures
        into_workspace(a + b),
{
    assert forall|i: int| 0 <= i < (a + b).len() implies in_workspace(#[trigger] (a + b)[i].target)
        && !in_workspace((a + b)[i].source) by {
        if i < a.len() {
            assert((a + b)[i] == a[i]);
            assert(in_workspace(a[i].target) && !in_workspace(a[i].source));
        } else {
            assert((a + b)[i] == b[i - a.len()]);
            assert(in_workspace(b[i - a.len()].target) && !in_workspace(b[i - a.len()].source));
        }
    }
}

proof fn lemma_fixed_copies_into_workspace()
    ensures
        into_workspace(basic_files()[0]->Copy_0),
        into_workspace(godwoken_bins()),
{
    reveal_strlit("./workspace/");
    reveal_strlit("workspace/");
    reveal_strlit("./config/private_key");
    reveal_strlit("./workspace/deploy/private_key");
    reveal_strlit("packages/godwoken/target/debug/godwoken");
    reveal_strlit("packages/godwoken/target/debug/gw-tools");
    reveal_strlit("workspace/bin/godwoken");
    reveal_strlit("workspace/bin/gw-tools");
    let key = basic_files()[0]->Copy_0;
    lemma_literal_prefix(key[0].target, "./workspace/"@);
    lemma_literal_prefix(key[0].source, key[0].source);
    lemma_not_prefix(key[0].source, key[0].source, "./workspace/"@, 2);
    lemma_not_prefix(key[0].source, key[0].source, "workspace/"@, 0);
    let bins = godwoken_bins();
    assert forall|i: int| 0 <= i < bins.len() implies in_workspace(#[trigger] bins[i].target)
        && !in_workspace(bins[i].source) by {
        if i == 0 {
            lemma_literal_prefix(bins[0].target, "workspace/"@);
            lemma_literal_prefix(bins[0].source, bins[0].source);
            lemma_not_prefix(bins[0].source, bins[0].source, "./workspace/"@, 0);
            lemma_not_prefix(bins[0].source, bins[0].source, "workspace/"@, 0);
        } else {
            lemma_literal_prefix(bins[1].target, "workspace/"@);
            lemma_literal_prefix(bins[1].source, bins[1].source);
            lemma_not_prefix(bins[1].source, bins[1].source, "./workspace/"@, 0);
            lemma_not_prefix(bins[1].source, bins[1].source, "workspace/"@, 0);
        }
    }
}

proof fn lemma_plan_into_workspace()
    ensures
        into_workspace(plan_copies()),
{
    reveal_strlit("./workspace/");
    reveal_strlit("./workspace/scripts/release");
    reveal_strlit("./workspace/deploy/backend");
    reveal_strlit("./workspace/deploy/polyjuice-backend");
    lemma_literal_prefix(release_root(), "./workspace/"@);
    lemma_literal_prefix(backend_root(), "./workspace/"@);
    lemma_literal_prefix(polyjuice_backend_root(), "./workspace/"@);
    lemma_tables_named();
    lemma_fixed_copies_into_workspace();
    let a = basic_files()[0]->Copy_0;
    let b = godwoken_bins();
    let c = copies(godwoken_repo_root(), release_root(), godwoken_release_sources());
    let d = copies(godwoken_repo_root(), backend_root(), godwoken_backend_sources());
    let e = copies(polyjuice_repo_root(), release_root(), polyjuice_sources());
    let f = copies(polyjuice_repo_root(), polyjuice_backend_root(), polyjuice_sources());
    let g = copies(clerkb_repo_root(), release_root(), clerkb_sources());
    reveal_strlit("./packages");
    reveal_strlit("./packages/godwoken");
    reveal_strlit("./packages/godwoken-polyjuice");
    reveal_strlit("./packages/clerkb");
    lemma_literal_prefix(godwoken_repo_root(), packages_root());
    lemma_literal_prefix(polyjuice_repo_root(), packages_root());
    lemma_literal_prefix(clerkb_repo_root(), packages_root());
    lemma_group_into_workspace(godwoken_repo_root(), release_root(), godwoken_release_sources());
    lemma_group_into_workspace(godwoken_repo_root(), backend_root(), godwoken_backend_sources());
    lemma_group_into_workspace(polyjuice_repo_root(), release_root(), polyjuice_sources());
    lemma_group_into_workspace(
        polyjuice_repo_root(),
        polyjuice_backend_root(),
        polyjuice_sources(),
    );
    lemma_group_into_workspace(clerkb_repo_root(), release_root(), clerkb_sources());
    lemma_concat_into_workspace(a, b);
    lemma_concat_into_workspace(a + b, c);
    lemma_concat_into_workspace(a + b + c, d);
    lemma_concat_into_workspace(a + b + c + d, e);
    lemma_concat_into_workspace(a + b + c + d + e, f);
    lemma_concat_into_workspace(a + b + c + d + e + f, g);
}

/// Running the workspace plan's copies a second time leaves the tree the
/// first run left: every copy writes inside the workspace and reads outside
/// it, so with every source there the result does not depend on what the
/// workspace held before.
pub proof fn law_workspace_converges(fs: FileTree)
    requires
        forall|i: int| 0 <= i < plan_copies().len() ==> fs.contains_key(#[trigger] plan_copies()[i].source),
    ensures
        apply_copies(apply_copies(fs, plan_copies()), plan_copies()) == apply_copies(fs, plan_copies()),
{
    let ops = plan_copies();
    lemma_plan_into_workspace();
    assert forall|i: int, j: int| 0 <= i < ops.len() && 0 <= j < ops.len() implies ops[i].target
        != ops[j].source by {
        assert(in_workspace(ops[i].target));
        assert(in_workspace(ops[j].target) && !in_workspace(ops[j].source));
    }
    law_copies_converge(fs, ops);
}

/// An artifact of relative path `source` that names its package and file
/// lands at `root/<package>/<file name>`, inside the directory
/// `root/<package>` that is created for it, and after the copy that place
/// holds exactly the source's bytes, whatever it held before.
pub proof fn law_artifact_lands(fs: FileTree, repo_dir: Seq<char>, root: Seq<char>, source: Seq<char>)
    requires
        segments(source).len() > 0,
        fs.contains_key(join_all(repo_dir, seq![source])),
    ensures
        copies(repo_dir, root, seq![source]).len() == 1,
        copies(repo_dir, root, seq![source])[0].source == join_all(repo_dir, seq![source]),
        copies(repo_dir, root, seq![source])[0].target_dir == join_all(
            root,
            seq![segments(source)[0]],
        ),
        copies(repo_dir, root, seq![source])[0].target == join(
            copies(repo_dir, root, seq![source])[0].target_dir,
            segments(source).last(),
        ),
        apply_copies(fs, copies(repo_dir, root, seq![source])).contains_key(
            copies(repo_dir, root, seq![source])[0].target,
        ),
        apply_copies(fs, copies(repo_dir, root, seq![source]))[copies(
            repo_dir,
            root,
            seq![source],
        )[0].target] == fs[join_all(repo_dir, seq![source])],
{
    reveal_with_fuel(join_all, 3);
    reveal_with_fuel(apply_copies, 2);
    let ops = copies(repo_dir, root, seq![source]);
    let segs = segments(source);
    assert(seq![segs[0], segs.last()].drop_last() =~= seq![segs[0]]);
    assert(ops.drop_last() =~= Seq::<CopyView>::empty());
    assert(apply_copies(fs, ops.drop_last()) == fs);
}

} // verus!
