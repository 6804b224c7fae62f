//! A model of a host that does what it is asked, and what follows for whole
//! requests run against it.
//!
//! A [`Disk`] maps full paths to files and directories. [`answers`] says
//! how such a host reports on an action, [`apply`] what the action does to
//! it, and [`runs`] strings sessions steps together against it.
use vstd::prelude::*;
use crate::error::WorkspaceError;
use crate::path::{joined, parent_of, dir_part, relative_to, is_slash, forward_slashes};
use crate::session::{
    Action, Event, PathKind, RawEntry, Reply, Request, Session, WorkspaceFile, listing, starts, views,
};

verus! {

/// What a path holds.
pub enum Node {
    File(String),
    Dir,
}

/// The file system as a map from full paths to what they hold.
pub struct Disk {
    pub nodes: Map<Seq<char>, Node>,
}

/// What the host reports when asked to probe `p`.
pub open spec fn kind_at(d: Disk, p: Seq<char>) -> PathKind {
    if !d.nodes.contains_key(p) {
        PathKind::Missing
    } else if d.nodes[p] is Dir {
        PathKind::Dir
    } else {
        PathKind::File
    }
}

/// Whether `q` lies strictly inside the directory `p`.
pub open spec fn inside(p: Seq<char>, q: Seq<char>) -> bool {
    q.len() > p.len() + 1 && q.subrange(0, p.len() as int) == p && q[p.len() as int] == '/'
}

/// Whether `e` is how a working host that holds `d` reports on `a`.
pub open spec fn answers(d: Disk, a: Action, e: Event) -> bool {
    match a {
        Action::Probe(p) => e == Event::Probed(kind_at(d, p@)),
        Action::ReadText(p) => if d.nodes.contains_key(p@) && d.nodes[p@] is File {
            e == Event::Text(Ok(d.nodes[p@]->File_0))
        } else {
            e matches Event::Text(Err(_))
        },
        Action::CreateDirs(_) | Action::WriteText(_, _) | Action::RemoveDirAll(_)
        | Action::RemoveFile(_) => e == Event::Done(Ok(())),
        Action::ReadDir(p) => e matches Event::Listed { entries: Ok(items), .. } && forall|i: int|
            0 <= i < items@.len() ==> (#[trigger] items@[i] matches Ok(raw) ==> {
                &&& raw.meta is Ok
                &&& d.nodes.contains_key(raw.path@)
                &&& inside(p@, raw.path@)
            }),
        Action::Finish(_) => false,
    }
}

/// The directory `p` and every directory above it that `d` lacks.
pub open spec fn with_dirs(d: Disk, p: Seq<char>) -> Disk {
    Disk {
        nodes: Map::new(
            |q: Seq<char>| d.nodes.contains_key(q) || q == p || (q.len() > 0 && inside(q, p)),
            |q: Seq<char>| if d.nodes.contains_key(q) { d.nodes[q] } else { Node::Dir },
        ),
    }
}

/// `d` without `p` and everything inside it.
pub open spec fn without_tree(d: Disk, p: Seq<char>) -> Disk {
    Disk {
        nodes: Map::new(
            |q: Seq<char>| d.nodes.contains_key(q) && q != p && !inside(p, q),
            |q: Seq<char>| d.nodes[q],
        ),
    }
}

/// What a working host that holds `d` holds after performing `a`.
pub open spec fn apply(d: Disk, a: Action) -> Disk {
    match a {
        Action::CreateDirs(p) => with_dirs(d, p@),
        Action::WriteText(p, c) => Disk { nodes: d.nodes.insert(p@, Node::File(c)) },
        Action::RemoveDirAll(p) => without_tree(d, p@),
        Action::RemoveFile(p) => Disk { nodes: d.nodes.remove(p@) },
        _ => d,
    }
}

/// Whether a session at `s` that asks for `a`, run against a working host
/// that holds `d` through the steps of `trace` (each an event and the
/// session and action that follow it), leaves the host holding `end` and
/// asks last for `last`.
pub open spec fn runs(
    d: Disk,
    s: Session,
    a: Action,
    trace: Seq<(Event, Session, Action)>,
    end: Disk,
    last: Action,
) -> bool
    decreases trace.len(),
{
    if trace.len() == 0 {
        end == d && last == a
    } else {
        let (e, s1, a1) = trace[0];
        &&& answers(d, a, e)
        &&& s.transition(e, s1, a1)
        &&& runs(apply(d, a), s1, a1, trace.drop_first(), end, last)
    }
}

/// Once a write of `content` at `rel` has succeeded, a read of `rel` that
/// runs to its end returns `content`.
pub proof fn lemma_write_then_read(
    root: String,
    rel: String,
    content: String,
    d0: Disk,
    w: Session,
    wa: Action,
    wt: Seq<(Event, Session, Action)>,
    d1: Disk,
    r: Session,
    ra: Action,
    rt: Seq<(Event, Session, Action)>,
    d2: Disk,
    last: Action,
)
    requires
        starts(root, Request::Write { path: rel, content }, w, wa),
        runs(d0, w, wa, wt, d1, Action::Finish(Ok(Reply::Unit))),
        starts(root, Request::Read { path: rel }, r, ra),
        runs(d1, r, ra, rt, d2, last),
        last is Finish,
    ensures
        last == Action::Finish(Ok(Reply::Text(content))),
{
    lemma_write_run(root, rel, content, d0, w, wa, wt, d1);
    reveal_with_fuel(runs, 4);
}

/// A listing of a directory the host lacks succeeds with no entries.
pub proof fn lemma_list_missing_is_empty(
    root: String,
    rel: String,
    d0: Disk,
    s: Session,
    a: Action,
    t: Seq<(Event, Session, Action)>,
    d1: Disk,
    last: Action,
)
    requires
        starts(root, Request::List { path: rel }, s, a),
        !d0.nodes.contains_key(joined(root@, rel@)),
        runs(d0, s, a, t, d1, last),
        last is Finish,
    ensures
        last matches Action::Finish(Ok(Reply::Entries(v))) && v@.len() == 0,
{
    reveal_with_fuel(runs, 2);
}

/// Deleting a path the host lacks fails with [`WorkspaceError::FileNotFound`].
pub proof fn lemma_delete_missing_not_found(
    root: String,
    rel: String,
    d0: Disk,
    s: Session,
    a: Action,
    t: Seq<(Event, Session, Action)>,
    d1: Disk,
    last: Action,
)
    requires
        starts(root, Request::Delete { path: rel }, s, a),
        !d0.nodes.contains_key(joined(root@, rel@)),
        runs(d0, s, a, t, d1, last),
        last is Finish,
    ensures
        last == Action::Finish(Err(WorkspaceError::FileNotFound { path: rel })),
        d1 == d0,
{
    reveal_with_fuel(runs, 2);
}

/// A write into a directory the host lacks, under a root it has, succeeds:
/// it creates that directory, with every missing one above it, and puts
/// `content` in the file.
pub proof fn lemma_write_creates_parents(
    root: String,
    rel: String,
    content: String,
    d0: Disk,
    s: Session,
    a: Action,
    t: Seq<(Event, Session, Action)>,
    d1: Disk,
    last: Action,
)
    requires
        starts(root, Request::Write { path: rel, content }, s, a),
        d0.nodes.contains_key(root@),
        !d0.nodes.contains_key(parent_of(root@, rel@)),
        runs(d0, s, a, t, d1, last),
        last is Finish,
    ensures
        last == Action::Finish(Ok(Reply::Unit)),
        d1.nodes.contains_key(parent_of(root@, rel@)),
        d1.nodes[parent_of(root@, rel@)] is Dir,
        forall|q: Seq<char>|
            q.len() > 0 && inside(q, parent_of(root@, rel@)) ==> #[trigger] d1.nodes.contains_key(q),
        d1.nodes[joined(root@, rel@)] == Node::File(content),
{
    lemma_dir_part_prefix(rel@);
    assert(parent_of(root@, rel@).len() < joined(root@, rel@).len());
    reveal_with_fuel(runs, 5);
}

/// Whether `s` holds no backslash.
pub open spec fn no_backslash(s: Seq<char>) -> bool {
    forall|i: int| 0 <= i < s.len() ==> s[i] != '\\'
}

/// Whether every path on `d` writes its separators as `/`.
pub open spec fn slash_paths(d: Disk) -> bool {
    forall|q: Seq<char>| #[trigger] d.nodes.contains_key(q) ==> no_backslash(q)
}

/// A path under `root` that holds no backslash is `root` joined with the
/// relative path it is listed under.
proof fn lemma_relative_inverts(root: Seq<char>, x: Seq<char>)
    requires
        no_backslash(x),
        relative_to(root, x) is Some,
    ensures
        x == joined(root, relative_to(root, x)->Some_0),
{
    let n = root.len() as int;
    let y = x.subrange(n + 1, x.len() as int);
    assert(forward_slashes(y) =~= y);
    assert(x =~= root + seq!['/'] + y);
}

/// No entry of a listing whose items the host found on a disk without the
/// file at `root` joined with `rel` has `rel` as its path.
proof fn lemma_listing_lacks(
    root: Seq<char>,
    rel: Seq<char>,
    d: Disk,
    dir: Seq<char>,
    items: Seq<Result<RawEntry, String>>,
    now: u64,
)
    requires
        slash_paths(d),
        !d.nodes.contains_key(joined(root, rel)),
        forall|i: int|
            0 <= i < items.len() ==> (#[trigger] items[i] matches Ok(raw) ==> {
                &&& raw.meta is Ok
                &&& d.nodes.contains_key(raw.path@)
                &&& inside(dir, raw.path@)
            }),
    ensures
        listing(root, items, now) matches Ok(fs) ==> forall|j: int|
            0 <= j < fs.len() ==> (#[trigger] fs[j]).path != rel,
    decreases items.len(),
{
    if items.len() > 0 {
        let init = items.drop_last();
        assert forall|i: int| 0 <= i < init.len() implies (#[trigger] init[i] matches Ok(raw) ==> {
            &&& raw.meta is Ok
            &&& d.nodes.contains_key(raw.path@)
            &&& inside(dir, raw.path@)
        }) by {
            assert(init[i] == items[i]);
        }
        lemma_listing_lacks(root, rel, d, dir, init, now);
        let k = items.len() - 1;
        assert(items.last() == items[k]);
        if let Ok(raw) = items.last() {
            if relative_to(root, raw.path@) is Some {
                lemma_relative_inverts(root, raw.path@);
            }
        }
    }
}

/// Once a write of `content` at `rel` has succeeded and a delete of `rel`
/// has run to its end, no listing of a directory, the one that held the
/// file among them, shows an entry at `rel`. This holds on a host whose
/// paths write their separators as `/`, with `root` and `rel` written so.
pub proof fn lemma_write_delete_unlisted(
    root: String,
    rel: String,
    content: String,
    dir: String,
    d0: Disk,
    w: Session,
    wa: Action,
    wt: Seq<(Event, Session, Action)>,
    d1: Disk,
    x: Session,
    xa: Action,
    xt: Seq<(Event, Session, Action)>,
    d2: Disk,
    x_last: Action,
    l: Session,
    la: Action,
    lt: Seq<(Event, Session, Action)>,
    d3: Disk,
    v: Vec<WorkspaceFile>,
)
    requires
        slash_paths(d0),
        no_backslash(root@),
        no_backslash(rel@),
        starts(root, Request::Write { path: rel, content }, w, wa),
        runs(d0, w, wa, wt, d1, Action::Finish(Ok(Reply::Unit))),
        starts(root, Request::Delete { path: rel }, x, xa),
        runs(d1, x, xa, xt, d2, x_last),
        x_last is Finish,
        starts(root, Request::List { path: dir }, l, la),
        runs(d2, l, la, lt, d3, Action::Finish(Ok(Reply::Entries(v)))),
    ensures
        x_last == Action::Finish(Ok(Reply::Unit)),
        forall|j: int| 0 <= j < v@.len() ==> (#[trigger] v@[j])@.path != rel@,
{
    lemma_write_keeps_slash_paths(root, rel, content, d0, w, wa, wt, d1);
    lemma_write_run(root, rel, content, d0, w, wa, wt, d1);
    reveal_with_fuel(runs, 4);
    assert(d2.nodes =~= d1.nodes.remove(joined(root@, rel@)));
    assert(slash_paths(d2));
    lemma_list_run_lacks(root, rel, dir, d2, l, la, lt, d3, v);
}

/// A listing that succeeds on a host whose paths write their separators as
/// `/` and that lacks the file at `root` joined with `rel` shows no entry at
/// `rel`.
proof fn lemma_list_run_lacks(
    root: String,
    rel: String,
    dir: String,
    d: Disk,
    l: Session,
    la: Action,
    lt: Seq<(Event, Session, Action)>,
    d_end: Disk,
    v: Vec<WorkspaceFile>,
)
    requires
        slash_paths(d),
        !d.nodes.contains_key(joined(root@, rel@)),
        starts(root, Request::List { path: dir }, l, la),
        runs(d, l, la, lt, d_end, Action::Finish(Ok(Reply::Entries(v)))),
    ensures
        forall|j: int| 0 <= j < v@.len() ==> (#[trigger] v@[j])@.path != rel@,
{
    reveal_with_fuel(runs, 3);
    let (e0, l1, a1) = lt[0];
    if e0 != Event::Probed(PathKind::Missing) {
        let rest = lt.drop_first();
        assert(a1 == Action::ReadDir(l.full));
        assert(runs(d, l1, a1, rest, d_end, Action::Finish(Ok(Reply::Entries(v)))));
        let (e1, l2, a2) = rest[0];
        assert(answers(d, a1, e1));
        if let Event::Listed { entries: Ok(items), now } = e1 {
            lemma_listing_lacks(root@, rel@, d, l.full@, items@, now);
            assert forall|j: int| 0 <= j < v@.len() implies (#[trigger] v@[j])@.path != rel@ by {
                assert(views(v@)[j] == v@[j]@);
            }
        }
    }
}

/// The directory part of a path is a prefix of it.
proof fn lemma_dir_part_prefix(rel: Seq<char>)
    ensures
        dir_part(rel) matches Some(d) ==> d.len() < rel.len() && d == rel.subrange(0, d.len() as int),
    decreases rel.len(),
{
    if rel.len() > 0 {
        lemma_dir_part_prefix(rel.drop_last());
        if let Some(d) = dir_part(rel) {
            if !is_slash(rel.last()) {
                assert(rel.drop_last().subrange(0, d.len() as int) =~= rel.subrange(0, d.len() as int));
            } else {
                assert(rel.drop_last() =~= rel.subrange(0, rel.len() - 1));
            }
        }
    }
}

/// A write that succeeds on a host whose paths write their separators as
/// `/`, with `root` and `rel` written so, keeps them so.
proof fn lemma_write_keeps_slash_paths(
    root: String,
    rel: String,
    content: String,
    d0: Disk,
    w: Session,
    wa: Action,
    wt: Seq<(Event, Session, Action)>,
    d1: Disk,
)
    requires
        slash_paths(d0),
        no_backslash(root@),
        no_backslash(rel@),
        starts(root, Request::Write { path: rel, content }, w, wa),
        runs(d0, w, wa, wt, d1, Action::Finish(Ok(Reply::Unit))),
    ensures
        slash_paths(d1),
{
    let full = joined(root@, rel@);
    let up = parent_of(root@, rel@);
    lemma_dir_part_prefix(rel@);
    assert(no_backslash(full)) by {
        assert forall|i: int| 0 <= i < full.len() implies full[i] != '\\' by {
            if rel@.len() > 0 && i > root@.len() {
                assert(full[i] == rel@[i - root@.len() - 1]);
            }
        }
    }
    assert(no_backslash(up)) by {
        if let Some(d) = dir_part(rel@) {
            assert forall|i: int| 0 <= i < up.len() implies up[i] != '\\' by {
                if d.len() > 0 && i > root@.len() {
                    assert(up[i] == d[i - root@.len() - 1]);
                    assert(d[i - root@.len() - 1] == rel@[i - root@.len() - 1]);
                }
            }
        }
    }
    assert forall|q: Seq<char>| q.len() > 0 && inside(q, up) implies no_backslash(q) by {
        assert forall|i: int| 0 <= i < q.len() implies q[i] != '\\' by {
            assert(q[i] == q.subrange(0, q.len() as int)[i]);
            assert(up.subrange(0, q.len() as int)[i] == up[i]);
        }
    }
    reveal_with_fuel(runs, 5);
}

/// A write that succeeds leaves the root in place and `content` in the
/// file at the request's full path.
proof fn lemma_write_run(
    root: String,
    rel: String,
    content: String,
    d0: Disk,
    w: Session,
    wa: Action,
    wt: Seq<(Event, Session, Action)>,
    d1: Disk,
)
    requires
        starts(root, Request::Write { path: rel, content }, w, wa),
        runs(d0, w, wa, wt, d1, Action::Finish(Ok(Reply::Unit))),
    ensures
        d0.nodes.contains_key(root@),
        d1.nodes.contains_key(root@),
        d1.nodes.contains_key(w.full@),
        d1.nodes[w.full@] == Node::File(content),
{
    reveal_with_fuel(runs, 5);
}

} // verus!
