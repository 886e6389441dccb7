//! Invocations of outside programs, as values.

use vstd::prelude::*;
use vstd::string::*;

verus! {

/// What a program invocation is: the program, its arguments and, if given,
/// the directory it runs in.
pub struct CommandView {
    pub program: Seq<char>,
    pub args: Seq<Seq<char>>,
    pub dir: Option<Seq<char>>,
}

/// An outside program to run, with its arguments and an optional working
/// directory. Only its exit status matters to the caller.
#[derive(Debug, Clone, PartialEq, Eq)]
pub struct CommandSpec {
    pub program: String,
    pub args: Vec<String>,
    pub dir: Option<String>,
}

pub open spec fn opt_view(o: Option<String>) -> Option<Seq<char>> {
    match o {
        Some(s) => Some(s@),
        None => None,
    }
}

pub open spec fn command_view(
    program: Seq<char>,
    args: Seq<Seq<char>>,
    dir: Option<Seq<char>>,
) -> CommandView {
    CommandView { program, args, dir }
}

impl View for CommandSpec {
    type V = CommandView;

    open spec fn view(&self) -> CommandView {
        CommandView {
            program: self.program@,
            args: crate::paths::views(self.args@),
            dir: opt_view(self.dir),
        }
    }
}

/// `bin` with `args`, run in the current directory.
pub fn run(bin: &str, args: Vec<String>) -> (r: CommandSpec)
    ensures
        r@ == command_view(bin@, crate::paths::views(args@), None),
{
    CommandSpec { program: String::from_str(bin), args, dir: None }
}

/// `bin` with `args`, run in `target_dir`: the directory is part of the
/// command, and the process's own stays as it is.
pub fn run_in_dir(bin: &str, args: Vec<String>, target_dir: &str) -> (r: CommandSpec)
    ensures
        r@ == command_view(bin@, crate::paths::views(args@), Some(target_dir@)),
{
    CommandSpec { program: String::from_str(bin), args, dir: Some(String::from_str(target_dir)) }
}

/// A copy of `v`, string for string.
pub fn copy_strings(v: &Vec<String>) -> (r: Vec<String>)
    ensures
        crate::paths::views(r@) == crate::paths::views(v@),
{
    let mut r: Vec<String> = Vec::new();
    let mut i: usize = 0;
    while i < v.len()
        invariant
            i <= v@.len(),
            crate::paths::views(r@) == crate::paths::views(v@).take(i as int),
        decreases v.len() - i,
    {
        let ghost before = crate::paths::views(r@);
        r.push(v[i].clone());
        assert(crate::paths::views(r@) =~= before.push(v@[i as int]@));
        assert(crate::paths::views(v@).take(i as int + 1) =~= crate::paths::views(v@).take(
            i as int,
        ).push(v@[i as int]@));
        i = i + 1;
    }
    assert(crate::paths::views(v@).take(i as int) =~= crate::paths::views(v@));
    r
}

impl CommandSpec {
    /// A copy of this command.
    pub fn duplicate(&self) -> (r: CommandSpec)
        ensures
            r@ == self@,
    {
        let dir = match &self.dir {
            Some(d) => Some(d.clone()),
            None => None,
        };
        let r = CommandSpec { program: self.program.clone(), args: copy_strings(&self.args), dir };
        assert(r@ =~= self@);
        r
    }
}

/// `bash -c line`: a one-line shell command.
pub fn run_one_line_cmd(line: &str) -> (r: CommandSpec)
    ensures
        r@ == command_view("bash"@, seq!["-c"@, line@], None),
{
    let args = vec![String::from_str("-c"), String::from_str(line)];
    assert(crate::paths::views(args@) =~= seq!["-c"@, line@]);
    run("bash", args)
}

/// `ckb-cli` with `args`; its standard output is what the caller wants.
pub fn run_cmd(args: Vec<String>) -> (r: CommandSpec)
    ensures
        r@ == command_view("ckb-cli"@, crate::paths::views(args@), None),
{
    run("ckb-cli", args)
}

/// The query for the state of a compose service.
pub fn service_status_command(name: &str) -> (r: CommandSpec)
    ensures
        r@ == command_view("bash"@, seq!["-c"@, "docker-compose ps "@ + name@], None),
{
    let line = String::from_str("docker-compose ps ").concat(name);
    run_one_line_cmd(line.as_str())
}

/// Whether `p` occurs in `s`.
pub open spec fn occurs_in(p: Seq<char>, s: Seq<char>) -> bool {
    exists|i: int| 0 <= i && i + p.len() <= s.len() && #[trigger] s.subrange(i, i + p.len()) == p
}

/// The marker of a running service in the query's report.
pub open spec fn up_marker() -> Seq<char> {
    "   Up   "@
}

/// Whether a service is up, from its status query: the query succeeded and
/// its report shows the service as up.
pub fn check_service_status(succeeded: bool, report: &str) -> (r: bool)
    ensures
        r == (succeeded && occurs_in(up_marker(), report@)),
{
    if !succeeded {
        return false;
    }
    proof {
        reveal_strlit("   Up   ");
    }
    let marker = String::from_str("   Up   ");
    let m = marker.as_str().unicode_len();
    let n = report.unicode_len();
    assert(m == 8);
    if m > n {
        assert(!occurs_in(up_marker(), report@));
        return false;
    }
    let mut i: usize = 0;
    while i <= n - m
        invariant
            m == up_marker().len(),
            m == 8,
            succeeded,
            n == report@.len(),
            marker@ == up_marker(),
            m <= n,
            i <= n - m + 1,
            forall|j: int| 0 <= j < i ==> #[trigger] report@.subrange(j, j + m) != up_marker(),
        decreases n - i,
    {
        let piece = String::from_str(report.substring_char(i, i + m));
        if piece == marker {
            assert(report@.subrange(i as int, i as int + up_marker().len()) == up_marker());
            assert(occurs_in(up_marker(), report@));
            return true;
        }
        i = i + 1;
    }
    assert(!occurs_in(up_marker(), report@)) by {
        if occurs_in(up_marker(), report@) {
            let j = choose|j: int| 0 <= j && j + up_marker().len() <= report@.len()
                && #[trigger] report@.subrange(j, j + up_marker().len()) == up_marker();
            assert(report@.subrange(j, j + m) != up_marker());
        }
    }
    false
}

} // verus!
