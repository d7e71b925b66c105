//! Mathematical model of the filesystem seen by the engine.
//!
//! A filesystem is a sequence of entries, strictly sorted by path, each
//! carrying a node: a directory, a file with its text, or a symbolic link
//! with its target. Every capability operation is a deterministic function
//! of this model, so the reducers' contracts can pin their results down
//! exactly.

use vstd::prelude::*;

use crate::paths::{
    in_subtree, is_child, lemma_lex_trans, lemma_lex_trichotomy, lex_lt, parent_of,
    valid_abs_path,
};

verus! {

/// What a filesystem entry is.
pub ghost enum FsNode {
    Dir,
    File { content: Seq<char> },
    Link { target: Seq<char> },
}

/// One entry of the filesystem model.
pub ghost struct FsEntry {
    pub path: Seq<char>,
    pub node: FsNode,
}

/// Why a capability operation was refused.
#[derive(Clone, Copy, Debug, PartialEq, Eq, Structural)]
pub enum FsError {
    NotFound,
    AlreadyExists,
    NotEmpty,
    Unsupported,
}

impl FsError {
    /// What the error says.
    pub open spec fn spec_message(self) -> Seq<char> {
        match self {
            FsError::NotFound => "no such entry"@,
            FsError::AlreadyExists => "an entry already stands at the target path"@,
            FsError::NotEmpty => "the directory is not empty"@,
            FsError::Unsupported => "the operation does not apply to this entry"@,
        }
    }

    /// What the error says.
    pub fn message(&self) -> (r: String)
        ensures
            r@ == self.spec_message(),
    {
        match self {
            FsError::NotFound => "no such entry".to_owned(),
            FsError::AlreadyExists => "an entry already stands at the target path".to_owned(),
            FsError::NotEmpty => "the directory is not empty".to_owned(),
            FsError::Unsupported => "the operation does not apply to this entry".to_owned(),
        }
    }
}

/// Entries are strictly sorted by path; paths are therefore unique.
pub open spec fn fs_sorted(fs: Seq<FsEntry>) -> bool {
    forall|i: int, j: int|
        0 <= i < j < fs.len() ==> lex_lt(#[trigger] fs[i].path, #[trigger] fs[j].path)
}

/// The node stored at `path`, if any (first hit from the left).
pub open spec fn fs_find(fs: Seq<FsEntry>, path: Seq<char>) -> Option<FsNode>
    decreases fs.len(),
{
    if fs.len() == 0 {
        None
    } else if fs[0].path == path {
        Some(fs[0].node)
    } else {
        fs_find(fs.skip(1), path)
    }
}

/// Whether some entry stands at `path`.
pub open spec fn fs_contains(fs: Seq<FsEntry>, path: Seq<char>) -> bool {
    fs_find(fs, path) is Some
}

/// Whether a directory stands at `path`.
pub open spec fn fs_is_dir(fs: Seq<FsEntry>, path: Seq<char>) -> bool {
    fs_find(fs, path) == Some(FsNode::Dir)
}

/// Whether a file stands at `path`.
pub open spec fn fs_is_file(fs: Seq<FsEntry>, path: Seq<char>) -> bool {
    fs_find(fs, path) matches Some(FsNode::File { .. })
}

/// Whether a symbolic link stands at `path`.
pub open spec fn fs_is_link(fs: Seq<FsEntry>, path: Seq<char>) -> bool {
    fs_find(fs, path) matches Some(FsNode::Link { .. })
}

/// Whether directory `dir` has at least one immediate child.
pub open spec fn fs_has_child(fs: Seq<FsEntry>, dir: Seq<char>) -> bool {
    exists|i: int| 0 <= i < fs.len() && is_child(#[trigger] fs[i].path, dir)
}

/// Sorted insertion; an entry already at `path` is replaced.
pub open spec fn fs_insert(fs: Seq<FsEntry>, path: Seq<char>, node: FsNode) -> Seq<FsEntry>
    decreases fs.len(),
{
    let e = FsEntry { path, node };
    if fs.len() == 0 {
        seq![e]
    } else if lex_lt(path, fs[0].path) {
        seq![e] + fs
    } else if path == fs[0].path {
        seq![e] + fs.skip(1)
    } else {
        seq![fs[0]] + fs_insert(fs.skip(1), path, node)
    }
}

/// Removal of the entry at `path`, if present.
pub open spec fn fs_remove(fs: Seq<FsEntry>, path: Seq<char>) -> Seq<FsEntry>
    decreases fs.len(),
{
    if fs.len() == 0 {
        fs
    } else if fs[0].path == path {
        fs.skip(1)
    } else {
        seq![fs[0]] + fs_remove(fs.skip(1), path)
    }
}

/// Removal of `root` and everything below it.
pub open spec fn fs_remove_subtree(fs: Seq<FsEntry>, root: Seq<char>) -> Seq<FsEntry>
    decreases fs.len(),
{
    if fs.len() == 0 {
        fs
    } else if in_subtree(fs[0].path, root) {
        fs_remove_subtree(fs.skip(1), root)
    } else {
        seq![fs[0]] + fs_remove_subtree(fs.skip(1), root)
    }
}

/// The entries at `root` and below it, in order.
pub open spec fn fs_subtree(fs: Seq<FsEntry>, root: Seq<char>) -> Seq<FsEntry>
    decreases fs.len(),
{
    if fs.len() == 0 {
        fs
    } else if in_subtree(fs[0].path, root) {
        seq![fs[0]] + fs_subtree(fs.skip(1), root)
    } else {
        fs_subtree(fs.skip(1), root)
    }
}

/// Insertion of each entry of `src` into `dst`, left to right.
pub open spec fn fs_insert_all(dst: Seq<FsEntry>, src: Seq<FsEntry>) -> Seq<FsEntry>
    decreases src.len(),
{
    if src.len() == 0 {
        dst
    } else {
        fs_insert_all(fs_insert(dst, src[0].path, src[0].node), src.skip(1))
    }
}

/// The entry `e` moved from under `from` to under `to`.
pub open spec fn fs_move_entry(e: FsEntry, from: Seq<char>, to: Seq<char>) -> FsEntry {
    FsEntry { path: to + e.path.skip(from.len() as int), node: e.node }
}

/// The subtree of `from` relocated under `to`.
pub open spec fn fs_moved_subtree(fs: Seq<FsEntry>, from: Seq<char>, to: Seq<char>) -> Seq<
    FsEntry,
> {
    fs_subtree(fs, from).map_values(|e: FsEntry| fs_move_entry(e, from, to))
}

/// A path at which something new may be created: absolute, not the root.
pub open spec fn creatable_path(p: Seq<char>) -> bool {
    valid_abs_path(p) && p != seq!['/']
}

/// Creation of a directory at `path`.
pub open spec fn spec_create_dir(fs: Seq<FsEntry>, path: Seq<char>) -> (Seq<FsEntry>, Result<
    (),
    FsError,
>) {
    if !creatable_path(path) {
        (fs, Err(FsError::Unsupported))
    } else if fs_contains(fs, path) {
        (fs, Err(FsError::AlreadyExists))
    } else if !fs_is_dir(fs, parent_of(path)) {
        (fs, Err(FsError::NotFound))
    } else {
        (fs_insert(fs, path, FsNode::Dir), Ok(()))
    }
}

/// Creation of an empty file at `path`.
pub open spec fn spec_create_file(fs: Seq<FsEntry>, path: Seq<char>) -> (Seq<FsEntry>, Result<
    (),
    FsError,
>) {
    if !creatable_path(path) {
        (fs, Err(FsError::Unsupported))
    } else if fs_contains(fs, path) {
        (fs, Err(FsError::AlreadyExists))
    } else if !fs_is_dir(fs, parent_of(path)) {
        (fs, Err(FsError::NotFound))
    } else {
        (fs_insert(fs, path, FsNode::File { content: Seq::empty() }), Ok(()))
    }
}

/// Creation of a symbolic link at `link` pointing to `target`; the target
/// need not exist.
pub open spec fn spec_create_symlink(
    fs: Seq<FsEntry>,
    link: Seq<char>,
    target: Seq<char>,
) -> (Seq<FsEntry>, Result<(), FsError>) {
    if !creatable_path(link) {
        (fs, Err(FsError::Unsupported))
    } else if fs_contains(fs, link) {
        (fs, Err(FsError::AlreadyExists))
    } else if !fs_is_dir(fs, parent_of(link)) {
        (fs, Err(FsError::NotFound))
    } else {
        (fs_insert(fs, link, FsNode::Link { target }), Ok(()))
    }
}

/// Deletion of the file or link at `path`; directories are refused.
pub open spec fn spec_delete_file(fs: Seq<FsEntry>, path: Seq<char>) -> (Seq<FsEntry>, Result<
    (),
    FsError,
>) {
    match fs_find(fs, path) {
        Option::None => (fs, Err(FsError::NotFound)),
        Option::Some(FsNode::Dir) => (fs, Err(FsError::Unsupported)),
        Option::Some(_) => (fs_remove(fs, path), Ok(())),
    }
}

/// Deletion of the directory at `path` when it has no children; a link is
/// removed as the link itself.
pub open spec fn spec_delete_empty_dir(fs: Seq<FsEntry>, path: Seq<char>) -> (Seq<FsEntry>, Result<
    (),
    FsError,
>) {
    match fs_find(fs, path) {
        Option::None => (fs, Err(FsError::NotFound)),
        Option::Some(FsNode::File { .. }) => (fs, Err(FsError::Unsupported)),
        Option::Some(FsNode::Link { .. }) => (fs_remove(fs, path), Ok(())),
        Option::Some(FsNode::Dir) => {
            if fs_has_child(fs, path) {
                (fs, Err(FsError::NotEmpty))
            } else {
                (fs_remove(fs, path), Ok(()))
            }
        },
    }
}

/// Recursive deletion of the directory at `path` with all its contents.
pub open spec fn spec_delete_dir(fs: Seq<FsEntry>, path: Seq<char>) -> (Seq<FsEntry>, Result<
    (),
    FsError,
>) {
    match fs_find(fs, path) {
        Option::None => (fs, Err(FsError::NotFound)),
        Option::Some(FsNode::Dir) => (fs_remove_subtree(fs, path), Ok(())),
        Option::Some(_) => (fs, Err(FsError::Unsupported)),
    }
}

/// Renaming (moving) the entry at `from`, with everything below it, to
/// `to`. The destination must be fresh and must not lie inside the moved
/// subtree.
pub open spec fn spec_rename(fs: Seq<FsEntry>, from: Seq<char>, to: Seq<char>) -> (Seq<
    FsEntry,
>, Result<(), FsError>) {
    if !fs_contains(fs, from) {
        (fs, Err(FsError::NotFound))
    } else if !creatable_path(to) {
        (fs, Err(FsError::Unsupported))
    } else if fs_contains(fs, to) {
        (fs, Err(FsError::AlreadyExists))
    } else if !fs_is_dir(fs, parent_of(to)) {
        (fs, Err(FsError::NotFound))
    } else if in_subtree(to, from) {
        (fs, Err(FsError::Unsupported))
    } else {
        (fs_insert_all(fs_remove_subtree(fs, from), fs_moved_subtree(fs, from, to)), Ok(()))
    }
}

/// Copying the file at `from` to `to`, replacing a file already there.
pub open spec fn spec_copy_file(fs: Seq<FsEntry>, from: Seq<char>, to: Seq<char>) -> (Seq<
    FsEntry,
>, Result<(), FsError>) {
    match fs_find(fs, from) {
        Option::Some(FsNode::File { content }) => {
            if !creatable_path(to) {
                (fs, Err(FsError::Unsupported))
            } else if fs_is_dir(fs, to) || fs_is_link(fs, to) {
                (fs, Err(FsError::AlreadyExists))
            } else if !fs_is_dir(fs, parent_of(to)) {
                (fs, Err(FsError::NotFound))
            } else {
                (fs_insert(fs, to, FsNode::File { content }), Ok(()))
            }
        },
        Option::Some(_) => (fs, Err(FsError::Unsupported)),
        Option::None => (fs, Err(FsError::NotFound)),
    }
}

/// Copying the directory at `from`, with everything below it, to a fresh
/// path `to` outside the copied subtree.
pub open spec fn spec_copy_dir(fs: Seq<FsEntry>, from: Seq<char>, to: Seq<char>) -> (Seq<
    FsEntry,
>, Result<(), FsError>) {
    if !fs_is_dir(fs, from) {
        (fs, Err(FsError::NotFound))
    } else if !creatable_path(to) {
        (fs, Err(FsError::Unsupported))
    } else if fs_contains(fs, to) {
        (fs, Err(FsError::AlreadyExists))
    } else if !fs_is_dir(fs, parent_of(to)) {
        (fs, Err(FsError::NotFound))
    } else if in_subtree(to, from) {
        (fs, Err(FsError::Unsupported))
    } else {
        (fs_insert_all(fs, fs_moved_subtree(fs, from, to)), Ok(()))
    }
}

/// A path that no entry carries is not found.
pub proof fn lemma_fs_find_absent(fs: Seq<FsEntry>, p: Seq<char>)
    requires
        forall|i: int| 0 <= i < fs.len() ==> (#[trigger] fs[i].path) != p,
    ensures
        fs_find(fs, p) is None,
    decreases fs.len(),
{
    if fs.len() > 0 {
        assert(forall|i: int| 0 <= i < fs.skip(1).len() ==> #[trigger] fs.skip(1)[i] == fs[i + 1]);
        lemma_fs_find_absent(fs.skip(1), p);
    }
}

/// What `fs_insert` leaves at each path.
#[verifier::spinoff_prover]
#[verifier::rlimit(50)]
pub proof fn lemma_fs_insert_find(fs: Seq<FsEntry>, p: Seq<char>, n: FsNode, q: Seq<char>)
    ensures
        fs_find(fs_insert(fs, p, n), q) == if q == p {
            Some(n)
        } else {
            fs_find(fs, q)
        },
    decreases fs.len(),
{
    let e = FsEntry { path: p, node: n };
    let r = fs_insert(fs, p, n);
    if fs.len() == 0 {
        if q != p {
            assert(r.skip(1) =~= Seq::<FsEntry>::empty());
        }
    } else if lex_lt(p, fs[0].path) {
        assert(r == seq![e] + fs);
        assert(r[0] == e);
        if q != p {
            assert(r.skip(1) =~= fs);
        }
    } else if p == fs[0].path {
        assert(r == seq![e] + fs.skip(1));
        assert(r[0] == e);
        if q != p {
            assert(r.skip(1) =~= fs.skip(1));
        }
    } else {
        assert(r == seq![fs[0]] + fs_insert(fs.skip(1), p, n));
        assert(r[0] == fs[0]);
        assert(r.skip(1) =~= fs_insert(fs.skip(1), p, n));
        lemma_fs_insert_find(fs.skip(1), p, n, q);
    }
}

/// A strict lower bound on every path survives `fs_insert`.
proof fn lemma_fs_insert_lb(fs: Seq<FsEntry>, p: Seq<char>, n: FsNode, b: Seq<char>)
    requires
        lex_lt(b, p),
        forall|k: int| 0 <= k < fs.len() ==> lex_lt(b, (#[trigger] fs[k]).path),
    ensures
        forall|j: int|
            0 <= j < fs_insert(fs, p, n).len() ==> lex_lt(b, (#[trigger] fs_insert(fs, p, n)[j]).path),
    decreases fs.len(),
{
    let r = fs_insert(fs, p, n);
    if fs.len() == 0 {
    } else if lex_lt(p, fs[0].path) {
        assert(forall|j: int| 1 <= j < r.len() ==> r[j] == fs[j - 1]);
    } else if p == fs[0].path {
        assert(forall|j: int| 1 <= j < r.len() ==> r[j] == fs.skip(1)[j - 1]);
    } else {
        assert(forall|k: int| 0 <= k < fs.skip(1).len() ==> #[trigger] fs.skip(1)[k] == fs[k + 1]);
        lemma_fs_insert_lb(fs.skip(1), p, n, b);
        assert(forall|j: int| 1 <= j < r.len() ==> r[j] == fs_insert(fs.skip(1), p, n)[j - 1]);
    }
}

/// `fs_insert` keeps the entries strictly sorted.
pub proof fn lemma_fs_insert_sorted(fs: Seq<FsEntry>, p: Seq<char>, n: FsNode)
    requires
        fs_sorted(fs),
    ensures
        fs_sorted(fs_insert(fs, p, n)),
    decreases fs.len(),
{
    let r = fs_insert(fs, p, n);
    if fs.len() == 0 {
    } else if lex_lt(p, fs[0].path) {
        assert(r[0].path == p);
        assert(forall|j: int| 1 <= j < r.len() ==> r[j] == fs[j - 1]);
        assert forall|i: int, j: int| 0 <= i < j < r.len() implies lex_lt(
            r[i].path,
            r[j].path,
        ) by {
            if i == 0 && j > 1 {
                lemma_lex_trans(p, fs[0].path, fs[j - 1].path);
            }
        }
    } else if p == fs[0].path {
        assert(r[0].path == p);
        assert(forall|j: int| 1 <= j < r.len() ==> r[j] == fs[j]);
    } else {
        lemma_lex_trichotomy(p, fs[0].path);
        assert(lex_lt(fs[0].path, p));
        assert(forall|k: int| 0 <= k < fs.skip(1).len() ==> #[trigger] fs.skip(1)[k] == fs[k + 1]);
        lemma_fs_insert_sorted(fs.skip(1), p, n);
        lemma_fs_insert_lb(fs.skip(1), p, n, fs[0].path);
        assert(forall|j: int| 1 <= j < r.len() ==> r[j] == fs_insert(fs.skip(1), p, n)[j - 1]);
    }
}

/// What `fs_remove` leaves at each path.
pub proof fn lemma_fs_remove_find(fs: Seq<FsEntry>, p: Seq<char>, q: Seq<char>)
    requires
        fs_sorted(fs),
    ensures
        fs_find(fs_remove(fs, p), q) == if q == p {
            None::<FsNode>
        } else {
            fs_find(fs, q)
        },
    decreases fs.len(),
{
    let r = fs_remove(fs, p);
    if fs.len() == 0 {
    } else if fs[0].path == p {
        assert(r =~= fs.skip(1));
        if q == p {
            assert forall|i: int| 0 <= i < fs.skip(1).len() implies (#[trigger] fs.skip(
                1,
            )[i]).path != p by {
                assert(fs.skip(1)[i] == fs[i + 1]);
                lemma_lex_trichotomy(fs[0].path, fs[i + 1].path);
            }
            lemma_fs_find_absent(fs.skip(1), p);
        }
    } else {
        assert(forall|k: int| 0 <= k < fs.skip(1).len() ==> #[trigger] fs.skip(1)[k] == fs[k + 1]);
        lemma_fs_remove_find(fs.skip(1), p, q);
        assert(r == seq![fs[0]] + fs_remove(fs.skip(1), p));
        assert(r[0] == fs[0]);
        assert(r.skip(1) =~= fs_remove(fs.skip(1), p));
    }
}

/// A strict lower bound on every path survives `fs_remove`.
proof fn lemma_fs_remove_lb(fs: Seq<FsEntry>, p: Seq<char>, b: Seq<char>)
    requires
        forall|k: int| 0 <= k < fs.len() ==> lex_lt(b, (#[trigger] fs[k]).path),
    ensures
        forall|j: int|
            0 <= j < fs_remove(fs, p).len() ==> lex_lt(b, (#[trigger] fs_remove(fs, p)[j]).path),
    decreases fs.len(),
{
    if fs.len() > 0 {
        assert(forall|k: int| 0 <= k < fs.skip(1).len() ==> #[trigger] fs.skip(1)[k] == fs[k + 1]);
        lemma_fs_remove_lb(fs.skip(1), p, b);
        if fs[0].path != p {
            let r = fs_remove(fs, p);
            assert(forall|j: int| 1 <= j < r.len() ==> r[j] == fs_remove(fs.skip(1), p)[j - 1]);
        }
    }
}

/// `fs_remove` keeps the entries strictly sorted.
pub proof fn lemma_fs_remove_sorted(fs: Seq<FsEntry>, p: Seq<char>)
    requires
        fs_sorted(fs),
    ensures
        fs_sorted(fs_remove(fs, p)),
    decreases fs.len(),
{
    if fs.len() > 0 {
        assert(forall|k: int| 0 <= k < fs.skip(1).len() ==> #[trigger] fs.skip(1)[k] == fs[k + 1]);
        lemma_fs_remove_sorted(fs.skip(1), p);
        if fs[0].path == p {
            assert(fs_remove(fs, p) =~= fs.skip(1));
        } else {
            lemma_fs_remove_lb(fs.skip(1), p, fs[0].path);
            let r = fs_remove(fs, p);
            assert(r[0] == fs[0]);
            assert(forall|j: int| 1 <= j < r.len() ==> r[j] == fs_remove(fs.skip(1), p)[j - 1]);
        }
    }
}

/// What `fs_remove_subtree` leaves at each path.
pub proof fn lemma_fs_remove_subtree_find(fs: Seq<FsEntry>, root: Seq<char>, q: Seq<char>)
    ensures
        fs_find(fs_remove_subtree(fs, root), q) == if in_subtree(q, root) {
            None::<FsNode>
        } else {
            fs_find(fs, q)
        },
    decreases fs.len(),
{
    if fs.len() > 0 {
        lemma_fs_remove_subtree_find(fs.skip(1), root, q);
        if !in_subtree(fs[0].path, root) {
            let r = fs_remove_subtree(fs, root);
            assert(r == seq![fs[0]] + fs_remove_subtree(fs.skip(1), root));
            assert(r[0] == fs[0]);
            assert(r.skip(1) =~= fs_remove_subtree(fs.skip(1), root));
        }
    }
}

/// A strict lower bound on every path survives `fs_remove_subtree`.
proof fn lemma_fs_remove_subtree_lb(fs: Seq<FsEntry>, root: Seq<char>, b: Seq<char>)
    requires
        forall|k: int| 0 <= k < fs.len() ==> lex_lt(b, (#[trigger] fs[k]).path),
    ensures
        forall|j: int|
            0 <= j < fs_remove_subtree(fs, root).len() ==> lex_lt(
                b,
                (#[trigger] fs_remove_subtree(fs, root)[j]).path,
            ),
    decreases fs.len(),
{
    if fs.len() > 0 {
        assert(forall|k: int| 0 <= k < fs.skip(1).len() ==> #[trigger] fs.skip(1)[k] == fs[k + 1]);
        lemma_fs_remove_subtree_lb(fs.skip(1), root, b);
        if !in_subtree(fs[0].path, root) {
            let r = fs_remove_subtree(fs, root);
            assert(forall|j: int|
                1 <= j < r.len() ==> r[j] == fs_remove_subtree(fs.skip(1), root)[j - 1]);
        }
    }
}

/// `fs_remove_subtree` keeps the entries strictly sorted.
pub proof fn lemma_fs_remove_subtree_sorted(fs: Seq<FsEntry>, root: Seq<char>)
    requires
        fs_sorted(fs),
    ensures
        fs_sorted(fs_remove_subtree(fs, root)),
    decreases fs.len(),
{
    if fs.len() > 0 {
        assert(forall|k: int| 0 <= k < fs.skip(1).len() ==> #[trigger] fs.skip(1)[k] == fs[k + 1]);
        lemma_fs_remove_subtree_sorted(fs.skip(1), root);
        if !in_subtree(fs[0].path, root) {
            lemma_fs_remove_subtree_lb(fs.skip(1), root, fs[0].path);
            let r = fs_remove_subtree(fs, root);
            assert(r[0] == fs[0]);
            assert(forall|j: int|
                1 <= j < r.len() ==> r[j] == fs_remove_subtree(fs.skip(1), root)[j - 1]);
        }
    }
}

/// `fs_insert_all` keeps the entries strictly sorted.
pub proof fn lemma_fs_insert_all_sorted(dst: Seq<FsEntry>, src: Seq<FsEntry>)
    requires
        fs_sorted(dst),
    ensures
        fs_sorted(fs_insert_all(dst, src)),
    decreases src.len(),
{
    if src.len() > 0 {
        lemma_fs_insert_sorted(dst, src[0].path, src[0].node);
        lemma_fs_insert_all_sorted(fs_insert(dst, src[0].path, src[0].node), src.skip(1));
    }
}

/// Appending one entry extends `fs_subtree` at the back.
pub proof fn lemma_fs_subtree_push(s: Seq<FsEntry>, e: FsEntry, root: Seq<char>)
    ensures
        fs_subtree(s.push(e), root) == fs_subtree(s, root) + (if in_subtree(e.path, root) {
            seq![e]
        } else {
            Seq::<FsEntry>::empty()
        }),
    decreases s.len(),
{
    let t = s.push(e);
    if s.len() == 0 {
        assert(t[0] == e);
        assert(t.skip(1) =~= Seq::<FsEntry>::empty());
        reveal_with_fuel(fs_subtree, 3);
        if in_subtree(e.path, root) {
            assert(fs_subtree(t, root) =~= fs_subtree(s, root) + seq![e]);
        } else {
            assert(fs_subtree(t, root) =~= fs_subtree(s, root));
        }
    } else {
        assert(t[0] == s[0]);
        assert(t.skip(1) =~= s.skip(1).push(e));
        lemma_fs_subtree_push(s.skip(1), e, root);
        if in_subtree(s[0].path, root) {
            assert(fs_subtree(t, root) == seq![s[0]] + fs_subtree(s.skip(1).push(e), root));
            if in_subtree(e.path, root) {
                assert(seq![s[0]] + (fs_subtree(s.skip(1), root) + seq![e]) =~= (seq![s[0]]
                    + fs_subtree(s.skip(1), root)) + seq![e]);
            } else {
                assert(fs_subtree(s.skip(1), root) + Seq::<FsEntry>::empty() =~= fs_subtree(
                    s.skip(1),
                    root,
                ));
                assert(fs_subtree(s, root) + Seq::<FsEntry>::empty() =~= fs_subtree(s, root));
            }
        } else {
            if !in_subtree(e.path, root) {
                assert(fs_subtree(s.skip(1), root) + Seq::<FsEntry>::empty() =~= fs_subtree(
                    s.skip(1),
                    root,
                ));
                assert(fs_subtree(s, root) + Seq::<FsEntry>::empty() =~= fs_subtree(s, root));
            }
        }
    }
}

/// Appending one entry extends `fs_remove_subtree` at the back.
pub proof fn lemma_fs_remove_subtree_push(s: Seq<FsEntry>, e: FsEntry, root: Seq<char>)
    ensures
        fs_remove_subtree(s.push(e), root) == fs_remove_subtree(s, root) + (if in_subtree(
            e.path,
            root,
        ) {
            Seq::<FsEntry>::empty()
        } else {
            seq![e]
        }),
    decreases s.len(),
{
    let t = s.push(e);
    if s.len() == 0 {
        assert(t[0] == e);
        assert(t.skip(1) =~= Seq::<FsEntry>::empty());
        reveal_with_fuel(fs_remove_subtree, 3);
        if in_subtree(e.path, root) {
            assert(fs_remove_subtree(t, root) =~= fs_remove_subtree(s, root)
                + Seq::<FsEntry>::empty());
        } else {
            assert(fs_remove_subtree(t, root) =~= fs_remove_subtree(s, root) + seq![e]);
        }
    } else {
        assert(t[0] == s[0]);
        assert(t.skip(1) =~= s.skip(1).push(e));
        lemma_fs_remove_subtree_push(s.skip(1), e, root);
        if in_subtree(s[0].path, root) {
            assert(fs_remove_subtree(t, root) == fs_remove_subtree(s.skip(1).push(e), root));
        } else {
            assert(fs_remove_subtree(t, root) == seq![s[0]] + fs_remove_subtree(
                s.skip(1).push(e),
                root,
            ));
            if in_subtree(e.path, root) {
                assert(seq![s[0]] + (fs_remove_subtree(s.skip(1), root)
                    + Seq::<FsEntry>::empty()) =~= (seq![s[0]] + fs_remove_subtree(
                    s.skip(1),
                    root,
                )) + Seq::<FsEntry>::empty());
            } else {
                assert(seq![s[0]] + (fs_remove_subtree(s.skip(1), root) + seq![e]) =~= (seq![s[0]]
                    + fs_remove_subtree(s.skip(1), root)) + seq![e]);
            }
        }
    }
}

/// Appending one entry makes `fs_insert_all` insert it last.
pub proof fn lemma_fs_insert_all_push(dst: Seq<FsEntry>, src: Seq<FsEntry>, e: FsEntry)
    ensures
        fs_insert_all(dst, src.push(e)) == fs_insert(fs_insert_all(dst, src), e.path, e.node),
    decreases src.len(),
{
    let t = src.push(e);
    if src.len() == 0 {
        assert(t[0] == e);
        assert(t.skip(1) =~= Seq::<FsEntry>::empty());
        reveal_with_fuel(fs_insert_all, 3);
    } else {
        assert(t[0] == src[0]);
        assert(t.skip(1) =~= src.skip(1).push(e));
        lemma_fs_insert_all_push(fs_insert(dst, src[0].path, src[0].node), src.skip(1), e);
    }
}

/// A present path is found.
pub proof fn lemma_fs_find_present(fs: Seq<FsEntry>, k: int)
    requires
        0 <= k < fs.len(),
    ensures
        fs_find(fs, fs[k].path) is Some,
    decreases k,
{
    if fs[0].path != fs[k].path {
        assert(fs.skip(1)[k - 1] == fs[k]);
        lemma_fs_find_present(fs.skip(1), k - 1);
    }
}

/// Removing the first entry carrying `p` is removal at its index.
pub proof fn lemma_fs_remove_at(fs: Seq<FsEntry>, p: Seq<char>, i: int)
    requires
        0 <= i < fs.len(),
        fs[i].path == p,
        forall|k: int| 0 <= k < i ==> (#[trigger] fs[k]).path != p,
    ensures
        fs_remove(fs, p) == fs.remove(i),
    decreases i,
{
    if i == 0 {
        assert(fs_remove(fs, p) =~= fs.remove(0));
    } else {
        assert(forall|k: int| 0 <= k < fs.skip(1).len() ==> #[trigger] fs.skip(1)[k] == fs[k + 1]);
        lemma_fs_remove_at(fs.skip(1), p, i - 1);
        assert(seq![fs[0]] + fs.skip(1).remove(i - 1) =~= fs.remove(i));
    }
}

/// Removing an absent path changes nothing.
pub proof fn lemma_fs_remove_absent(fs: Seq<FsEntry>, p: Seq<char>)
    requires
        forall|k: int| 0 <= k < fs.len() ==> (#[trigger] fs[k]).path != p,
    ensures
        fs_remove(fs, p) == fs,
    decreases fs.len(),
{
    if fs.len() > 0 {
        assert(forall|k: int| 0 <= k < fs.skip(1).len() ==> #[trigger] fs.skip(1)[k] == fs[k + 1]);
        lemma_fs_remove_absent(fs.skip(1), p);
        assert(seq![fs[0]] + fs.skip(1) =~= fs);
    }
}

/// Every entry `fs_subtree` keeps lies in the subtree.
pub proof fn lemma_fs_subtree_members(fs: Seq<FsEntry>, root: Seq<char>)
    ensures
        forall|j: int|
            0 <= j < fs_subtree(fs, root).len() ==> in_subtree(
                (#[trigger] fs_subtree(fs, root)[j]).path,
                root,
            ),
    decreases fs.len(),
{
    if fs.len() > 0 {
        lemma_fs_subtree_members(fs.skip(1), root);
        if in_subtree(fs[0].path, root) {
            let r = fs_subtree(fs, root);
            assert(r[0] == fs[0]);
            assert(forall|j: int| 1 <= j < r.len() ==> r[j] == fs_subtree(fs.skip(1), root)[j - 1]);
        }
    }
}

/// Where a sorted insertion lands: before index `i`, every path is below
/// the new one, and from `i` on none is.
pub proof fn lemma_fs_insert_at(fs: Seq<FsEntry>, p: Seq<char>, n: FsNode, i: int)
    requires
        fs_sorted(fs),
        0 <= i <= fs.len(),
        forall|k: int| 0 <= k < i ==> lex_lt((#[trigger] fs[k]).path, p),
        i < fs.len() ==> !lex_lt(fs[i].path, p),
    ensures
        fs_insert(fs, p, n) == if i < fs.len() && fs[i].path == p {
            fs.update(i, FsEntry { path: p, node: n })
        } else {
            fs.subrange(0, i) + seq![FsEntry { path: p, node: n }] + fs.skip(i)
        },
    decreases i,
{
    let e = FsEntry { path: p, node: n };
    if i == 0 {
        if fs.len() == 0 {
            assert(fs_insert(fs, p, n) =~= fs.subrange(0, 0) + seq![e] + fs.skip(0));
        } else if fs[0].path == p {
            assert(fs_insert(fs, p, n) == seq![e] + fs.skip(1));
            assert(seq![e] + fs.skip(1) =~= fs.update(0, e));
        } else {
            lemma_lex_trichotomy(p, fs[0].path);
            assert(lex_lt(p, fs[0].path));
            assert(fs_insert(fs, p, n) == seq![e] + fs);
            assert(seq![e] + fs =~= fs.subrange(0, 0) + seq![e] + fs.skip(0));
        }
    } else {
        assert(lex_lt(fs[0].path, p));
        lemma_lex_trichotomy(p, fs[0].path);
        assert(fs_insert(fs, p, n) == seq![fs[0]] + fs_insert(fs.skip(1), p, n));
        assert(forall|k: int| 0 <= k < fs.skip(1).len() ==> #[trigger] fs.skip(1)[k] == fs[k + 1]);
        lemma_fs_insert_at(fs.skip(1), p, n, i - 1);
        if i < fs.len() && fs[i].path == p {
            assert(fs.skip(1)[i - 1].path == p);
            assert(seq![fs[0]] + fs.skip(1).update(i - 1, e) =~= fs.update(i, e));
        } else {
            assert(seq![fs[0]] + (fs.skip(1).subrange(0, i - 1) + seq![e] + fs.skip(1).skip(i - 1))
                =~= fs.subrange(0, i) + seq![e] + fs.skip(i));
        }
    }
}

/// What the link at `path` points to.
pub open spec fn spec_read_link(fs: Seq<FsEntry>, path: Seq<char>) -> Result<Seq<char>, FsError> {
    match fs_find(fs, path) {
        Option::Some(FsNode::Link { target }) => Ok(target),
        Option::Some(_) => Err(FsError::Unsupported),
        Option::None => Err(FsError::NotFound),
    }
}

/// The text of the file at `path`, if a file stands there.
pub open spec fn spec_read_file(fs: Seq<FsEntry>, path: Seq<char>) -> Option<Seq<char>> {
    match fs_find(fs, path) {
        Option::Some(FsNode::File { content }) => Some(content),
        _ => None,
    }
}

} // verus!
