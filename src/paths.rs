//! Slash-separated paths held as strings.

use vstd::prelude::*;
use vstd::string::*;

verus! {

/// The views of a sequence of strings.
pub open spec fn views(v: Seq<String>) -> Seq<Seq<char>> {
    v.map_values(|s: String| s@)
}

pub open spec fn is_absolute(p: Seq<char>) -> bool {
    p.len() > 0 && p[0] == '/'
}

/// Appending `b` to `a` the way a path buffer grows on a Unix system: an
/// absolute `b` replaces `a`; otherwise one separator is put between them
/// unless `a` is empty or already ends in one.
pub open spec fn join(a: Seq<char>, b: Seq<char>) -> Seq<char> {
    if is_absolute(b) {
        b
    } else if a.len() == 0 || a.last() == '/' {
        a + b
    } else {
        a + seq!['/'] + b
    }
}

/// `a` with each of `parts` appended in turn.
pub open spec fn join_all(a: Seq<char>, parts: Seq<Seq<char>>) -> Seq<char>
    decreases parts.len(),
{
    if parts.len() == 0 {
        a
    } else {
        join(join_all(a, parts.drop_last()), parts.last())
    }
}

/// Scanning `s` left to right: the segments completed so far and the
/// segment being read.
pub open spec fn split_state(s: Seq<char>) -> (Seq<Seq<char>>, Seq<char>)
    decreases s.len(),
{
    if s.len() == 0 {
        (seq![], seq![])
    } else {
        let (done, cur) = split_state(s.drop_last());
        if s.last() == '/' {
            if cur.len() > 0 {
                (done.push(cur), seq![])
            } else {
                (done, seq![])
            }
        } else {
            (done, cur.push(s.last()))
        }
    }
}

/// The non-empty pieces of `s` between separators, in order.
pub open spec fn segments(s: Seq<char>) -> Seq<Seq<char>> {
    let (done, cur) = split_state(s);
    if cur.len() > 0 {
        done.push(cur)
    } else {
        done
    }
}

/// A segment: non-empty and free of separators.
pub open spec fn is_segment(p: Seq<char>) -> bool {
    p.len() > 0 && forall|k: int| 0 <= k < p.len() ==> p[k] != '/'
}

pub proof fn lemma_split_state_segments(s: Seq<char>)
    ensures
        forall|k: int|
            0 <= k < split_state(s).0.len() ==> is_segment(#[trigger] split_state(s).0[k]),
        forall|k: int| 0 <= k < split_state(s).1.len() ==> split_state(s).1[k] != '/',
    decreases s.len(),
{
    if s.len() > 0 {
        let t = s.drop_last();
        lemma_split_state_segments(t);
        let (done, cur) = split_state(t);
        if s.last() == '/' {
            if cur.len() > 0 {
                assert(is_segment(cur));
                assert forall|k: int| 0 <= k < done.push(cur).len() implies is_segment(
                    #[trigger] done.push(cur)[k],
                ) by {
                    if k < done.len() {
                        assert(is_segment(done[k]));
                    }
                }
            }
        } else {
            assert forall|k: int| 0 <= k < cur.push(s.last()).len() implies #[trigger] cur.push(
                s.last(),
            )[k] != '/' by {
                if k < cur.len() {
                    assert(cur[k] != '/');
                }
            }
        }
    }
}

/// Every piece that `segments` yields is a segment.
pub proof fn lemma_segments_are_segments(s: Seq<char>)
    ensures
        forall|k: int| 0 <= k < segments(s).len() ==> is_segment(#[trigger] segments(s)[k]),
{
    lemma_split_state_segments(s);
}

/// Appending a relative path keeps what was there as a prefix.
pub proof fn lemma_join_keeps_prefix(a: Seq<char>, b: Seq<char>)
    requires
        !is_absolute(b),
    ensures
        join(a, b).len() >= a.len(),
        join(a, b).subrange(0, a.len() as int) == a,
{
    if a.len() == 0 || a.last() == '/' {
        assert((a + b).subrange(0, a.len() as int) =~= a);
    } else {
        assert((a + seq!['/'] + b).subrange(0, a.len() as int) =~= a);
    }
}

/// A path with a character other than a separator has a segment.
pub proof fn lemma_segments_nonempty(s: Seq<char>, k: int)
    requires
        0 <= k < s.len(),
        s[k] != '/',
    ensures
        segments(s).len() > 0,
    decreases s.len(),
{
    lemma_split_state_nonempty(s, k);
}

proof fn lemma_split_state_nonempty(s: Seq<char>, k: int)
    requires
        0 <= k < s.len(),
        s[k] != '/',
    ensures
        split_state(s).0.len() > 0 || split_state(s).1.len() > 0,
    decreases s.len(),
{
    if s.last() == '/' {
        assert(k < s.len() - 1);
        assert(s.drop_last()[k] == s[k]);
        lemma_split_state_nonempty(s.drop_last(), k);
    }
}

/// Appends `b` to the path `a`.
pub fn push_path(a: String, b: &str) -> (r: String)
    ensures
        r@ == join(a@, b@),
{
    let bn = b.unicode_len();
    if bn > 0 && b.get_char(0) == '/' {
        return String::from_str(b);
    }
    proof {
        reveal_strlit("/");
    }
    let an = a.as_str().unicode_len();
    if an == 0 || a.as_str().get_char(an - 1) == '/' {
        a.concat(b)
    } else {
        a.concat("/").concat(b)
    }
}

/// The path `parent_dir_path` with each of `paths` appended in order.
pub fn make_path(parent_dir_path: &str, paths: Vec<String>) -> (r: String)
    ensures
        r@ == join_all(parent_dir_path@, views(paths@)),
{
    let mut target = String::from_str(parent_dir_path);
    let mut i: usize = 0;
    while i < paths.len()
        invariant
            0 <= i <= paths.len(),
            target@ == join_all(parent_dir_path@, views(paths@).take(i as int)),
        decreases paths.len() - i,
    {
        assert(views(paths@).take(i as int + 1).drop_last() =~= views(paths@).take(i as int));
        target = push_path(target, paths[i].as_str());
        i = i + 1;
    }
    assert(views(paths@).take(i as int) =~= views(paths@));
    target
}

/// The segments of `s`, in order.
pub fn path_segments(s: &str) -> (r: Vec<String>)
    ensures
        views(r@) == segments(s@),
{
    let n = s.unicode_len();
    let mut done: Vec<String> = Vec::new();
    let mut start: usize = 0;
    let mut i: usize = 0;
    while i < n
        invariant
            n == s@.len(),
            start <= i <= n,
            split_state(s@.take(i as int)) == (views(done@), s@.subrange(start as int, i as int)),
        decreases n - i,
    {
        let c = s.get_char(i);
        assert(s@.take(i as int + 1).drop_last() =~= s@.take(i as int));
        assert(s@.take(i as int + 1).last() == c);
        if c == '/' {
            if i > start {
                let piece = String::from_str(s.substring_char(start, i));
                let ghost before = views(done@);
                done.push(piece);
                assert(views(done@) =~= before.push(s@.subrange(start as int, i as int)));
            }
            start = i + 1;
            assert(s@.subrange(start as int, i as int + 1) =~= Seq::<char>::empty());
        } else {
            assert(s@.subrange(start as int, i as int + 1) =~= s@.subrange(start as int, i as int).push(c));
        }
        i = i + 1;
    }
    assert(s@.take(n as int) =~= s@);
    if n > start {
        let piece = String::from_str(s.substring_char(start, n));
        let ghost before = views(done@);
        done.push(piece);
        assert(views(done@) =~= before.push(s@.subrange(start as int, n as int)));
    }
    done
}

} // verus!
