//! Paths as character sequences: joining a relative path onto the
//! workspace root, the directory that holds a path, and the way back from
//! a path under the root to a path relative to it.
use vstd::prelude::*;
use crate::text::push_char;

verus! {

/// The separator this library writes between path segments.
pub open spec fn is_slash(c: char) -> bool {
    c == '/'
}

/// A separator as a host may write it.
pub open spec fn is_separator(c: char) -> bool {
    c == '/' || c == '\\'
}

/// `rel` joined onto `root`: the root itself for an empty relative path,
/// else the two with one `/` between them.
pub open spec fn joined(root: Seq<char>, rel: Seq<char>) -> Seq<char> {
    if rel.len() == 0 {
        root
    } else {
        root + seq!['/'] + rel
    }
}

/// The part of `rel` before its last `/`, or `None` where it has none.
pub open spec fn dir_part(rel: Seq<char>) -> Option<Seq<char>>
    decreases rel.len(),
{
    if rel.len() == 0 {
        None
    } else if is_slash(rel.last()) {
        Some(rel.drop_last())
    } else {
        dir_part(rel.drop_last())
    }
}

/// The directory that holds `rel` under `root`.
pub open spec fn parent_of(root: Seq<char>, rel: Seq<char>) -> Seq<char> {
    match dir_part(rel) {
        Some(d) => joined(root, d),
        None => root,
    }
}

/// `s` with every backslash written as `/`.
pub open spec fn forward_slashes(s: Seq<char>) -> Seq<char> {
    Seq::new(s.len(), |i: int| if s[i] == '\\' { '/' } else { s[i] })
}

/// The path of `full` relative to `root`, with forward slashes: defined
/// where `full` is `root` followed by a separator and at least one more
/// character.
pub open spec fn relative_to(root: Seq<char>, full: Seq<char>) -> Option<Seq<char>> {
    if full.len() > root.len() + 1 && full.subrange(0, root.len() as int) == root
        && is_separator(full[root.len() as int]) {
        Some(forward_slashes(full.subrange(root.len() + 1int, full.len() as int)))
    } else {
        None
    }
}

/// `rel` joined onto `root`.
pub fn join(root: &str, rel: &str) -> (r: String)
    ensures
        r@ == joined(root@, rel@),
{
    let mut out = String::from_str(root);
    if rel.unicode_len() > 0 {
        push_char(&mut out, '/');
        out.append(rel);
    }
    out
}

/// The directory that holds `rel` under `root`: `root` joined with the part
/// of `rel` before its last `/`, or `root` where `rel` has no `/`.
pub fn parent(root: &str, rel: &str) -> (r: String)
    ensures
        r@ == parent_of(root@, rel@),
{
    let n = rel.unicode_len();
    let mut k: usize = n;
    assert(rel@.subrange(0, n as int) =~= rel@);
    while k > 0
        invariant
            k <= n,
            n == rel@.len(),
            dir_part(rel@) == dir_part(rel@.subrange(0, k as int)),
        decreases k,
    {
        let c = rel.get_char(k - 1);
        if c == '/' {
            assert(rel@.subrange(0, k as int).drop_last() =~= rel@.subrange(0, k - 1));
            let d = rel.substring_char(0, k - 1);
            return join(root, d);
        }
        assert(rel@.subrange(0, k as int).drop_last() =~= rel@.subrange(0, k - 1));
        k = k - 1;
    }
    String::from_str(root)
}

/// The path of `full` relative to `root` with forward slashes, or `None`
/// where `full` does not lie under `root`.
pub fn relative(root: &str, full: &str) -> (r: Option<String>)
    ensures
        r matches Some(p) ==> relative_to(root@, full@) == Some(p@),
        r is None ==> relative_to(root@, full@) is None,
{
    let n = root.unicode_len();
    let m = full.unicode_len();
    if m < 2 || m - 2 < n {
        return None;
    }
    let mut i: usize = 0;
    while i < n
        invariant
            i <= n,
            n == root@.len(),
            m == full@.len(),
            n < m,
            forall|j: int| 0 <= j < i ==> full@[j] == root@[j],
        decreases n - i,
    {
        if full.get_char(i) != root.get_char(i) {
            return None;
        }
        i = i + 1;
    }
    assert(full@.subrange(0, n as int) =~= root@);
    let sep = full.get_char(n);
    if sep != '/' && sep != '\\' {
        return None;
    }
    let mut out = String::new();
    let mut j: usize = n + 1;
    while j < m
        invariant
            n + 1 <= j <= m,
            m == full@.len(),
            out@ =~= forward_slashes(full@.subrange(n + 1int, j as int)),
        decreases m - j,
    {
        let c = full.get_char(j);
        if c == '\\' {
            push_char(&mut out, '/');
        } else {
            push_char(&mut out, c);
        }
        j = j + 1;
    }
    Some(out)
}

} // verus!
