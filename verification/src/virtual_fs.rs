//! An in-memory filesystem: the verified implementation of the capability,
//! and the seam at which tests run the whole engine without touching disk.

use vstd::prelude::*;
use vstd::pervasive::VecAdditionalExecFns;

use crate::config::IconsConfig;
use crate::file_system::{spec_item_of, spec_list_dir, spec_list_dir_from, DirInfo, FileSystem};
use crate::fs_model::{
    fs_find, fs_has_child, fs_insert, fs_insert_all, fs_is_file, fs_move_entry,
    fs_moved_subtree, fs_remove, fs_remove_subtree, fs_sorted, fs_subtree, lemma_fs_insert_all_push,
    lemma_fs_insert_at, lemma_fs_insert_sorted, lemma_fs_remove_absent,
    lemma_fs_remove_at, lemma_fs_remove_sorted, lemma_fs_remove_subtree_push,
    lemma_fs_remove_subtree_sorted, lemma_fs_subtree_members, lemma_fs_subtree_push, FsEntry,
    FsError, FsNode,
};
use crate::items::{
    lemma_items_view_index, items_view, DirItem, FileItem, FileSystemItem, SymlinkItem,
};
use crate::paths::{
    base_name_of, child_prefix, in_subtree, lemma_child_base_name, lex_lt, parent_dir_of,
    str_eq, str_in_subtree, str_is_child, str_is_root, str_is_valid_abs_path, str_lt,
};
use crate::text::icon_key_of;

verus! {

/// What stands at a path of the in-memory filesystem.
pub enum VfsNode {
    Dir,
    File { content: String },
    Link { target: String },
}

impl View for VfsNode {
    type V = FsNode;

    open spec fn view(&self) -> FsNode {
        match self {
            VfsNode::Dir => FsNode::Dir,
            VfsNode::File { content } => FsNode::File { content: content@ },
            VfsNode::Link { target } => FsNode::Link { target: target@ },
        }
    }
}

impl Clone for VfsNode {
    fn clone(&self) -> (r: Self)
        ensures
            r@ == self@,
    {
        match self {
            VfsNode::Dir => VfsNode::Dir,
            VfsNode::File { content } => VfsNode::File { content: content.clone() },
            VfsNode::Link { target } => VfsNode::Link { target: target.clone() },
        }
    }
}

/// One entry of the in-memory filesystem.
pub struct VfsEntry {
    pub path: String,
    pub node: VfsNode,
}

impl View for VfsEntry {
    type V = FsEntry;

    open spec fn view(&self) -> FsEntry {
        FsEntry { path: self.path@, node: self.node@ }
    }
}

impl Clone for VfsEntry {
    fn clone(&self) -> (r: Self)
        ensures
            r@ == self@,
    {
        VfsEntry { path: self.path.clone(), node: self.node.clone() }
    }
}

/// The models of a sequence of entries, in order.
pub open spec fn vfs_view(s: Seq<VfsEntry>) -> Seq<FsEntry> {
    s.map_values(|e: VfsEntry| e@)
}

/// Indexing distributes over `vfs_view`.
pub proof fn lemma_vfs_view_index(s: Seq<VfsEntry>, k: int)
    requires
        0 <= k < s.len(),
    ensures
        vfs_view(s)[k] == s[k]@,
{
}

/// Finds the first entry at `path`.
fn find_entry_index(entries: &Vec<VfsEntry>, path: &str) -> (r: Option<usize>)
    ensures
        match r {
            Some(i) => i < entries@.len() && entries@[i as int].path@ == path@ && fs_find(
                vfs_view(entries@),
                path@,
            ) == Some(entries@[i as int].node@) && forall|k: int|
                0 <= k < i ==> (#[trigger] entries@[k]).path@ != path@,
            None => fs_find(vfs_view(entries@), path@) is None && forall|k: int|
                0 <= k < entries@.len() ==> (#[trigger] entries@[k]).path@ != path@,
        },
{
    let ghost v = vfs_view(entries@);
    proof {
        assert(v.skip(0) =~= v);
    }
    let n = entries.len();
    let mut i: usize = 0;
    while i < n
        invariant
            i <= n,
            n == entries@.len(),
            v == vfs_view(entries@),
            fs_find(v, path@) == fs_find(v.skip(i as int), path@),
            forall|k: int| 0 <= k < i ==> (#[trigger] entries@[k]).path@ != path@,
        decreases n - i,
    {
        proof {
            lemma_vfs_view_index(entries@, i as int);
            assert(v.skip(i as int).len() > 0);
            assert(v.skip(i as int)[0] == v[i as int]);
            assert(v.skip(i as int).skip(1) =~= v.skip(i as int + 1));
        }
        if str_eq(entries[i].path.as_str(), path) {
            return Some(i);
        }
        i = i + 1;
    }
    proof {
        assert(v.skip(n as int) =~= Seq::<FsEntry>::empty());
    }
    None
}

/// Whether directory `dir` has a child among `entries`.
fn has_child_at(entries: &Vec<VfsEntry>, dir: &str) -> (r: bool)
    ensures
        r == fs_has_child(vfs_view(entries@), dir@),
{
    let ghost v = vfs_view(entries@);
    let n = entries.len();
    let mut i: usize = 0;
    while i < n
        invariant
            i <= n,
            n == entries@.len(),
            v == vfs_view(entries@),
            forall|k: int| 0 <= k < i ==> !crate::paths::is_child((#[trigger] v[k]).path, dir@),
        decreases n - i,
    {
        proof {
            lemma_vfs_view_index(entries@, i as int);
        }
        if str_is_child(entries[i].path.as_str(), dir) {
            proof {
                assert(crate::paths::is_child(v[i as int].path, dir@));
            }
            return true;
        }
        i = i + 1;
    }
    proof {
        assert(!fs_has_child(v, dir@));
    }
    false
}

/// Whether a file stands at `path` among `entries`.
fn is_file_at(entries: &Vec<VfsEntry>, path: &str) -> (r: bool)
    ensures
        r == fs_is_file(vfs_view(entries@), path@),
{
    match find_entry_index(entries, path) {
        Some(i) => match &entries[i].node {
            VfsNode::File { .. } => true,
            _ => false,
        },
        None => false,
    }
}

/// Inserts `e` into a sorted entry list, keeping it sorted.
fn insert_sorted(entries: Vec<VfsEntry>, e: VfsEntry) -> (r: Vec<VfsEntry>)
    requires
        fs_sorted(vfs_view(entries@)),
    ensures
        vfs_view(r@) == fs_insert(vfs_view(entries@), e@.path, e@.node),
        fs_sorted(vfs_view(r@)),
{
    let ghost v = vfs_view(entries@);
    let mut entries = entries;
    let n = entries.len();
    let mut i: usize = 0;
    while i < n && str_lt(entries[i].path.as_str(), e.path.as_str())
        invariant
            i <= n,
            n == entries@.len(),
            v == vfs_view(entries@),
            forall|k: int| 0 <= k < i ==> lex_lt((#[trigger] v[k]).path, e@.path),
        decreases n - i,
    {
        proof {
            lemma_vfs_view_index(entries@, i as int);
        }
        i = i + 1;
    }
    proof {
        if i < n {
            lemma_vfs_view_index(entries@, i as int);
        }
        lemma_fs_insert_at(v, e@.path, e@.node, i as int);
        lemma_fs_insert_sorted(v, e@.path, e@.node);
    }
    if i < n && str_eq(entries[i].path.as_str(), e.path.as_str()) {
        let ghost e_model = e@;
        entries.set(i, e);
        proof {
            assert forall|k: int| 0 <= k < entries@.len() implies vfs_view(entries@)[k] == v.update(
                i as int,
                e_model,
            )[k] by {
                lemma_vfs_view_index(entries@, k);
            }
            assert(vfs_view(entries@) =~= v.update(i as int, e_model));
        }
        entries
    } else {
        let ghost e_model = e@;
        entries.insert(i, e);
        proof {
            let target = v.subrange(0, i as int) + seq![e_model] + v.skip(i as int);
            assert forall|k: int| 0 <= k < entries@.len() implies vfs_view(entries@)[k]
                == target[k] by {
                lemma_vfs_view_index(entries@, k);
                if k < i {
                    lemma_vfs_view_index(entries@.subrange(0, i as int), k);
                }
            }
            assert(vfs_view(entries@) =~= target);
        }
        entries
    }
}

/// Removes the entry at `path` from a sorted entry list.
fn remove_path(entries: Vec<VfsEntry>, path: &str) -> (r: Vec<VfsEntry>)
    requires
        fs_sorted(vfs_view(entries@)),
    ensures
        vfs_view(r@) == fs_remove(vfs_view(entries@), path@),
        fs_sorted(vfs_view(r@)),
{
    let ghost v = vfs_view(entries@);
    let mut entries = entries;
    proof {
        lemma_fs_remove_sorted(v, path@);
    }
    match find_entry_index(&entries, path) {
        Some(i) => {
            proof {
                assert forall|k: int| 0 <= k < i implies (#[trigger] v[k]).path != path@ by {
                    lemma_vfs_view_index(entries@, k);
                }
                lemma_vfs_view_index(entries@, i as int);
                lemma_fs_remove_at(v, path@, i as int);
            }
            entries.remove(i);
            proof {
                assert forall|k: int| 0 <= k < entries@.len() implies vfs_view(entries@)[k]
                    == v.remove(i as int)[k] by {
                    lemma_vfs_view_index(entries@, k);
                }
                assert(vfs_view(entries@) =~= v.remove(i as int));
            }
            entries
        },
        None => {
            proof {
                assert forall|k: int| 0 <= k < v.len() implies (#[trigger] v[k]).path != path@ by {
                    lemma_vfs_view_index(entries@, k);
                }
                lemma_fs_remove_absent(v, path@);
            }
            entries
        },
    }
}

/// The entries outside the subtree of `root`, in order.
fn remove_subtree_entries(entries: &Vec<VfsEntry>, root: &str) -> (r: Vec<VfsEntry>)
    ensures
        vfs_view(r@) == fs_remove_subtree(vfs_view(entries@), root@),
{
    let ghost v = vfs_view(entries@);
    let mut result: Vec<VfsEntry> = Vec::new();
    let n = entries.len();
    let mut i: usize = 0;
    proof {
        assert(v.take(0) =~= Seq::<FsEntry>::empty());
    }
    while i < n
        invariant
            i <= n,
            n == entries@.len(),
            v == vfs_view(entries@),
            vfs_view(result@) == fs_remove_subtree(v.take(i as int), root@),
        decreases n - i,
    {
        proof {
            lemma_vfs_view_index(entries@, i as int);
            assert(v.take(i as int + 1) =~= v.take(i as int).push(v[i as int]));
            lemma_fs_remove_subtree_push(v.take(i as int), v[i as int], root@);
        }
        if !str_in_subtree(entries[i].path.as_str(), root) {
            let ghost before = vfs_view(result@);
            result.push(entries[i].clone());
            proof {
                assert forall|k: int| 0 <= k < result@.len() implies vfs_view(result@)[k]
                    == before.push(v[i as int])[k] by {
                    lemma_vfs_view_index(result@, k);
                    if k < before.len() {
                        lemma_vfs_view_index(result@.subrange(0, before.len() as int), k);
                    }
                }
                assert(vfs_view(result@) =~= before.push(v[i as int]));
            }
        } else {
            proof {
                assert(fs_remove_subtree(v.take(i as int + 1), root@) =~= fs_remove_subtree(
                    v.take(i as int),
                    root@,
                ));
            }
        }
        i = i + 1;
    }
    proof {
        assert(v.take(n as int) =~= v);
    }
    result
}

/// The entries inside the subtree of `root`, in order.
fn collect_subtree(entries: &Vec<VfsEntry>, root: &str) -> (r: Vec<VfsEntry>)
    ensures
        vfs_view(r@) == fs_subtree(vfs_view(entries@), root@),
{
    let ghost v = vfs_view(entries@);
    let mut result: Vec<VfsEntry> = Vec::new();
    let n = entries.len();
    let mut i: usize = 0;
    proof {
        assert(v.take(0) =~= Seq::<FsEntry>::empty());
    }
    while i < n
        invariant
            i <= n,
            n == entries@.len(),
            v == vfs_view(entries@),
            vfs_view(result@) == fs_subtree(v.take(i as int), root@),
        decreases n - i,
    {
        proof {
            lemma_vfs_view_index(entries@, i as int);
            assert(v.take(i as int + 1) =~= v.take(i as int).push(v[i as int]));
            lemma_fs_subtree_push(v.take(i as int), v[i as int], root@);
        }
        if str_in_subtree(entries[i].path.as_str(), root) {
            let ghost before = vfs_view(result@);
            result.push(entries[i].clone());
            proof {
                assert forall|k: int| 0 <= k < result@.len() implies vfs_view(result@)[k]
                    == before.push(v[i as int])[k] by {
                    lemma_vfs_view_index(result@, k);
                    if k < before.len() {
                        lemma_vfs_view_index(result@.subrange(0, before.len() as int), k);
                    }
                }
                assert(vfs_view(result@) =~= before.push(v[i as int]));
            }
        } else {
            proof {
                assert(fs_subtree(v.take(i as int + 1), root@) =~= fs_subtree(
                    v.take(i as int),
                    root@,
                ));
            }
        }
        i = i + 1;
    }
    proof {
        assert(v.take(n as int) =~= v);
    }
    result
}

/// The collected subtree entries, relocated from under `from` to under `to`.
fn move_entries(src: &Vec<VfsEntry>, from: &str, to: &str) -> (r: Vec<VfsEntry>)
    requires
        forall|j: int| 0 <= j < src@.len() ==> in_subtree((#[trigger] src@[j])@.path, from@),
    ensures
        vfs_view(r@).len() == src@.len(),
        forall|j: int|
            0 <= j < src@.len() ==> vfs_view(r@)[j] == fs_move_entry(
                (#[trigger] src@[j])@,
                from@,
                to@,
            ),
{
    let from_len = from.unicode_len();
    let mut result: Vec<VfsEntry> = Vec::new();
    let n = src.len();
    let mut i: usize = 0;
    while i < n
        invariant
            i <= n,
            n == src@.len(),
            from_len == from@.len(),
            forall|j: int| 0 <= j < n ==> in_subtree((#[trigger] src@[j])@.path, from@),
            result@.len() == i,
            forall|j: int|
                0 <= j < i ==> (#[trigger] result@[j])@ == fs_move_entry(src@[j]@, from@, to@),
        decreases n - i,
    {
        let e = &src[i];
        proof {
            assert(in_subtree(e@.path, from@));
            assert(e.path@.len() >= from@.len()) by {
                if e.path@ != from@ {
                    assert(e.path@.len() >= child_prefix(from@).len());
                }
            }
        }
        let plen = e.path.as_str().unicode_len();
        let suffix = e.path.as_str().substring_char(from_len, plen);
        let mut new_path = to.to_owned();
        new_path.append(suffix);
        result.push(VfsEntry { path: new_path, node: e.node.clone() });
        i = i + 1;
    }
    proof {
        assert forall|j: int| 0 <= j < src@.len() implies vfs_view(result@)[j] == fs_move_entry(
            src@[j]@,
            from@,
            to@,
        ) by {
            lemma_vfs_view_index(result@, j);
        }
    }
    result
}

/// Inserts each entry of `src` into the sorted list `dst`, left to right.
fn insert_all_entries(dst: Vec<VfsEntry>, src: Vec<VfsEntry>) -> (r: Vec<VfsEntry>)
    requires
        fs_sorted(vfs_view(dst@)),
    ensures
        vfs_view(r@) == fs_insert_all(vfs_view(dst@), vfs_view(src@)),
        fs_sorted(vfs_view(r@)),
{
    let ghost d0 = vfs_view(dst@);
    let ghost s0 = vfs_view(src@);
    let mut dst = dst;
    let n = src.len();
    let mut i: usize = 0;
    proof {
        assert(s0.take(0) =~= Seq::<FsEntry>::empty());
    }
    while i < n
        invariant
            i <= n,
            n == src@.len(),
            s0 == vfs_view(src@),
            vfs_view(dst@) == fs_insert_all(d0, s0.take(i as int)),
            fs_sorted(vfs_view(dst@)),
        decreases n - i,
    {
        proof {
            lemma_vfs_view_index(src@, i as int);
            assert(s0.take(i as int + 1) =~= s0.take(i as int).push(s0[i as int]));
            lemma_fs_insert_all_push(d0, s0.take(i as int), s0[i as int]);
        }
        let e = src[i].clone();
        dst = insert_sorted(dst, e);
        i = i + 1;
    }
    proof {
        assert(s0.take(n as int) =~= s0);
    }
    dst
}

/// An in-memory filesystem, kept sorted by path.
pub struct VirtualFileSystem {
    entries: Vec<VfsEntry>,
}

impl VirtualFileSystem {
    #[verifier::type_invariant]
    closed spec fn inv(&self) -> bool {
        fs_sorted(vfs_view(self.entries@))
    }

    /// A filesystem holding only the root directory.
    pub fn new() -> (r: Self)
        ensures
            r.fs() == seq![FsEntry { path: seq!['/'], node: FsNode::Dir }],
    {
        let mut entries: Vec<VfsEntry> = Vec::new();
        entries.push(VfsEntry { path: "/".to_owned(), node: VfsNode::Dir });
        proof {
            reveal_strlit("/");
            assert("/"@ =~= seq!['/']);
            assert(vfs_view(entries@) =~= seq![FsEntry { path: seq!['/'], node: FsNode::Dir }]);
        }
        VirtualFileSystem { entries }
    }

    /// Replaces the whole entry list; the new list is what `insert_all`
    /// makes of it from the root alone.
    fn replace_entries(&mut self, entries: Vec<VfsEntry>)
        requires
            fs_sorted(vfs_view(entries@)),
        ensures
            final(self).fs() == vfs_view(entries@),
    {
        self.entries = entries;
    }
}

impl FileSystem for VirtualFileSystem {
    closed spec fn fs(&self) -> Seq<FsEntry> {
        vfs_view(self.entries@)
    }

    fn exist(&self, path: &str) -> (r: bool) {
        find_entry_index(&self.entries, path).is_some()
    }

    fn is_dir(&self, path: &str) -> (r: bool) {
        match find_entry_index(&self.entries, path) {
            Some(i) => match &self.entries[i].node {
                VfsNode::Dir => true,
                _ => false,
            },
            None => false,
        }
    }

    fn get_dir_info(&self, path: &str) -> (r: Option<DirInfo>) {
        if self.is_dir(path) {
            DirInfo::new(path)
        } else {
            None
        }
    }

    fn list_dir(&self, path: &str, icons: &IconsConfig) -> (items: Vec<FileSystemItem>) {
        let ghost v = self.fs();
        let mut items: Vec<FileSystemItem> = Vec::new();
        let n = self.entries.len();
        let mut i: usize = 0;
        while i < n
            invariant
                i <= n,
                n == self.entries@.len(),
                v == vfs_view(self.entries@),
                v == self.fs(),
                items_view(items@) + spec_list_dir_from(v, i as int, path@, icons@) == spec_list_dir(
                    v,
                    path@,
                    icons@,
                ),
            decreases n - i,
        {
            proof {
                lemma_vfs_view_index(self.entries@, i as int);
            }
            if str_is_child(self.entries[i].path.as_str(), path) {
                let name = base_name_of(self.entries[i].path.as_str());
                proof {
                    lemma_child_base_name(path@, self.entries@[i as int].path@);
                }
                let item = match &self.entries[i].node {
                    VfsNode::Dir => {
                        let is_empty = !has_child_at(&self.entries, self.entries[i].path.as_str());
                        let icon = icons.get_dir_icon(name.clone());
                        FileSystemItem::Directory(
                            DirItem::new(name, self.entries[i].path.clone(), icon, is_empty),
                        )
                    },
                    VfsNode::File { .. } => {
                        let key = icon_key_of(name.as_str());
                        let icon = icons.get_file_icon(key);
                        FileSystemItem::File(
                            FileItem::new(name, self.entries[i].path.clone(), icon),
                        )
                    },
                    VfsNode::Link { target } => {
                        let icon = if is_file_at(&self.entries, target.as_str()) {
                            let key = icon_key_of(name.as_str());
                            icons.get_file_icon(key)
                        } else {
                            icons.get_dir_icon(name.clone())
                        };
                        FileSystemItem::Symlink(
                            SymlinkItem::new(
                                name,
                                self.entries[i].path.clone(),
                                target.clone(),
                                icon,
                            ),
                        )
                    },
                };
                let ghost before = items_view(items@);
                proof {
                    assert(item@ == spec_item_of(v, v[i as int], path@, icons@));
                }
                items.push(item);
                proof {
                    assert forall|k: int| 0 <= k < items@.len() implies items_view(items@)[k]
                        == before.push(spec_item_of(v, v[i as int], path@, icons@))[k] by {
                        lemma_items_view_index(items@, k);
                        if k < before.len() {
                            lemma_items_view_index(items@.subrange(0, before.len() as int), k);
                        }
                    }
                    assert(items_view(items@) =~= before.push(
                        spec_item_of(v, v[i as int], path@, icons@),
                    ));
                    assert(before.push(spec_item_of(v, v[i as int], path@, icons@))
                        + spec_list_dir_from(v, i as int + 1, path@, icons@) =~= before + (seq![
                        spec_item_of(v, v[i as int], path@, icons@),
                    ] + spec_list_dir_from(v, i as int + 1, path@, icons@)));
                }
            }
            i = i + 1;
        }
        proof {
            assert(spec_list_dir_from(v, n as int, path@, icons@) =~= Seq::<
                crate::items::ItemModel,
            >::empty());
            assert(items_view(items@) + Seq::<crate::items::ItemModel>::empty() =~= items_view(
                items@,
            ));
        }
        items
    }

    fn read_to_string(&self, path: &str) -> (r: Option<String>) {
        match find_entry_index(&self.entries, path) {
            Some(i) => match &self.entries[i].node {
                VfsNode::File { content } => Some(content.clone()),
                _ => None,
            },
            None => None,
        }
    }

    fn read_link(&self, path: &str) -> (r: Result<String, FsError>) {
        match find_entry_index(&self.entries, path) {
            Some(i) => match &self.entries[i].node {
                VfsNode::Link { target } => Ok(target.clone()),
                _ => Err(FsError::Unsupported),
            },
            None => Err(FsError::NotFound),
        }
    }

    fn delete_file(&mut self, path: &str) -> (r: Result<(), FsError>) {
        proof {
            use_type_invariant(&*self);
        }
        match find_entry_index(&self.entries, path) {
            Some(i) => match &self.entries[i].node {
                VfsNode::Dir => Err(FsError::Unsupported),
                _ => {
                    let mut owned: Vec<VfsEntry> = Vec::new();
                    core::mem::swap(&mut owned, &mut self.entries);
                    let rest = remove_path(owned, path);
                    self.replace_entries(rest);
                    Ok(())
                },
            },
            None => Err(FsError::NotFound),
        }
    }

    fn delete_dir(&mut self, path: &str) -> (r: Result<(), FsError>) {
        proof {
            use_type_invariant(&*self);
            lemma_fs_remove_subtree_sorted(self.fs(), path@);
        }
        match find_entry_index(&self.entries, path) {
            Some(i) => match &self.entries[i].node {
                VfsNode::Dir => {
                    let rest = remove_subtree_entries(&self.entries, path);
                    self.replace_entries(rest);
                    Ok(())
                },
                _ => Err(FsError::Unsupported),
            },
            None => Err(FsError::NotFound),
        }
    }

    fn delete_empty_dir(&mut self, path: &str) -> (r: Result<(), FsError>) {
        proof {
            use_type_invariant(&*self);
        }
        match find_entry_index(&self.entries, path) {
            Some(i) => match &self.entries[i].node {
                VfsNode::File { .. } => Err(FsError::Unsupported),
                VfsNode::Link { .. } => {
                    let mut owned: Vec<VfsEntry> = Vec::new();
                    core::mem::swap(&mut owned, &mut self.entries);
                    let rest = remove_path(owned, path);
                    self.replace_entries(rest);
                    Ok(())
                },
                VfsNode::Dir => {
                    if has_child_at(&self.entries, path) {
                        Err(FsError::NotEmpty)
                    } else {
                        let mut owned: Vec<VfsEntry> = Vec::new();
                        core::mem::swap(&mut owned, &mut self.entries);
                        let rest = remove_path(owned, path);
                        self.replace_entries(rest);
                        Ok(())
                    }
                },
            },
            None => Err(FsError::NotFound),
        }
    }

    fn rename_item(&mut self, source: &str, target: &str) -> (r: Result<(), FsError>) {
        proof {
            use_type_invariant(&*self);
        }
        if !self.exist(source) {
            return Err(FsError::NotFound);
        }
        if !str_is_valid_abs_path(target) || str_is_root(target) {
            return Err(FsError::Unsupported);
        }
        if self.exist(target) {
            return Err(FsError::AlreadyExists);
        }
        let target_parent = parent_dir_of(target);
        if !self.is_dir(target_parent.as_str()) {
            return Err(FsError::NotFound);
        }
        if str_in_subtree(target, source) {
            return Err(FsError::Unsupported);
        }
        let ghost fs0 = self.fs();
        let sub = collect_subtree(&self.entries, source);
        proof {
            lemma_fs_subtree_members(fs0, source@);
            assert forall|j: int| 0 <= j < sub@.len() implies in_subtree(
                (#[trigger] sub@[j])@.path,
                source@,
            ) by {
                lemma_vfs_view_index(sub@, j);
            }
        }
        let moved = move_entries(&sub, source, target);
        proof {
            assert forall|j: int| 0 <= j < moved@.len() implies vfs_view(moved@)[j]
                == fs_moved_subtree(fs0, source@, target@)[j] by {
                lemma_vfs_view_index(sub@, j);
            }
            assert(vfs_view(moved@) =~= fs_moved_subtree(fs0, source@, target@));
        }
        let kept = remove_subtree_entries(&self.entries, source);
        proof {
            lemma_fs_remove_subtree_sorted(fs0, source@);
        }
        let merged = insert_all_entries(kept, moved);
        self.replace_entries(merged);
        Ok(())
    }

    fn create_symlink(&mut self, link_path: &str, target: &str) -> (r: Result<(), FsError>) {
        proof {
            use_type_invariant(&*self);
        }
        if !str_is_valid_abs_path(link_path) || str_is_root(link_path) {
            return Err(FsError::Unsupported);
        }
        if self.exist(link_path) {
            return Err(FsError::AlreadyExists);
        }
        let parent = parent_dir_of(link_path);
        if !self.is_dir(parent.as_str()) {
            return Err(FsError::NotFound);
        }
        let mut owned: Vec<VfsEntry> = Vec::new();
        core::mem::swap(&mut owned, &mut self.entries);
        let merged = insert_sorted(
            owned,
            VfsEntry { path: link_path.to_owned(), node: VfsNode::Link { target: target.to_owned() } },
        );
        self.replace_entries(merged);
        Ok(())
    }

    fn create_file(&mut self, path: &str) -> (r: Result<(), FsError>) {
        proof {
            use_type_invariant(&*self);
        }
        if !str_is_valid_abs_path(path) || str_is_root(path) {
            return Err(FsError::Unsupported);
        }
        if self.exist(path) {
            return Err(FsError::AlreadyExists);
        }
        let parent = parent_dir_of(path);
        if !self.is_dir(parent.as_str()) {
            return Err(FsError::NotFound);
        }
        let mut owned: Vec<VfsEntry> = Vec::new();
        core::mem::swap(&mut owned, &mut self.entries);
        let content = String::new();
        proof {
            assert(content@ =~= Seq::<char>::empty());
        }
        let merged = insert_sorted(
            owned,
            VfsEntry { path: path.to_owned(), node: VfsNode::File { content } },
        );
        self.replace_entries(merged);
        Ok(())
    }

    fn create_dir(&mut self, path: &str) -> (r: Result<(), FsError>) {
        proof {
            use_type_invariant(&*self);
        }
        if !str_is_valid_abs_path(path) || str_is_root(path) {
            return Err(FsError::Unsupported);
        }
        if self.exist(path) {
            return Err(FsError::AlreadyExists);
        }
        let parent = parent_dir_of(path);
        if !self.is_dir(parent.as_str()) {
            return Err(FsError::NotFound);
        }
        let mut owned: Vec<VfsEntry> = Vec::new();
        core::mem::swap(&mut owned, &mut self.entries);
        let merged = insert_sorted(owned, VfsEntry { path: path.to_owned(), node: VfsNode::Dir });
        self.replace_entries(merged);
        Ok(())
    }

    fn copy_file(&mut self, source: &str, target: &str) -> (r: Result<(), FsError>) {
        proof {
            use_type_invariant(&*self);
        }
        let content = match find_entry_index(&self.entries, source) {
            Some(i) => match &self.entries[i].node {
                VfsNode::File { content } => content.clone(),
                _ => {
                    return Err(FsError::Unsupported);
                },
            },
            None => {
                return Err(FsError::NotFound);
            },
        };
        if !str_is_valid_abs_path(target) || str_is_root(target) {
            return Err(FsError::Unsupported);
        }
        let target_is_dir = self.is_dir(target);
        let target_is_link = match find_entry_index(&self.entries, target) {
            Some(i) => match &self.entries[i].node {
                VfsNode::Link { .. } => true,
                _ => false,
            },
            None => false,
        };
        if target_is_dir || target_is_link {
            return Err(FsError::AlreadyExists);
        }
        let parent = parent_dir_of(target);
        if !self.is_dir(parent.as_str()) {
            return Err(FsError::NotFound);
        }
        let mut owned: Vec<VfsEntry> = Vec::new();
        core::mem::swap(&mut owned, &mut self.entries);
        let merged = insert_sorted(
            owned,
            VfsEntry { path: target.to_owned(), node: VfsNode::File { content } },
        );
        self.replace_entries(merged);
        Ok(())
    }

    fn copy_dir(&mut self, source: &str, target: &str) -> (r: Result<(), FsError>) {
        proof {
            use_type_invariant(&*self);
        }
        if !self.is_dir(source) {
            return Err(FsError::NotFound);
        }
        if !str_is_valid_abs_path(target) || str_is_root(target) {
            return Err(FsError::Unsupported);
        }
        if self.exist(target) {
            return Err(FsError::AlreadyExists);
        }
        let parent = parent_dir_of(target);
        if !self.is_dir(parent.as_str()) {
            return Err(FsError::NotFound);
        }
        if str_in_subtree(target, source) {
            return Err(FsError::Unsupported);
        }
        let ghost fs0 = self.fs();
        let sub = collect_subtree(&self.entries, source);
        proof {
            lemma_fs_subtree_members(fs0, source@);
            assert forall|j: int| 0 <= j < sub@.len() implies in_subtree(
                (#[trigger] sub@[j])@.path,
                source@,
            ) by {
                lemma_vfs_view_index(sub@, j);
            }
        }
        let moved = move_entries(&sub, source, target);
        proof {
            assert forall|j: int| 0 <= j < moved@.len() implies vfs_view(moved@)[j]
                == fs_moved_subtree(fs0, source@, target@)[j] by {
                lemma_vfs_view_index(sub@, j);
            }
            assert(vfs_view(moved@) =~= fs_moved_subtree(fs0, source@, target@));
        }
        let mut owned: Vec<VfsEntry> = Vec::new();
        core::mem::swap(&mut owned, &mut self.entries);
        let merged = insert_all_entries(owned, moved);
        self.replace_entries(merged);
        Ok(())
    }

    fn duplicate(&self) -> (r: Self) {
        proof {
            use_type_invariant(&*self);
        }
        let mut entries: Vec<VfsEntry> = Vec::new();
        let n = self.entries.len();
        let mut i: usize = 0;
        while i < n
            invariant
                i <= n,
                n == self.entries@.len(),
                entries@.len() == i,
                forall|j: int| 0 <= j < i ==> (#[trigger] entries@[j])@ == self.entries@[j]@,
            decreases n - i,
        {
            entries.push(self.entries[i].clone());
            i = i + 1;
        }
        proof {
            assert forall|k: int| 0 <= k < entries@.len() implies vfs_view(entries@)[k] == vfs_view(
                self.entries@,
            )[k] by {
                lemma_vfs_view_index(entries@, k);
                lemma_vfs_view_index(self.entries@, k);
            }
            assert(vfs_view(entries@) =~= vfs_view(self.entries@));
        }
        VirtualFileSystem { entries }
    }
}

} // verus!
