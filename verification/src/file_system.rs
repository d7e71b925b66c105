//! The filesystem capability: what a directory listing contains, and the
//! interface through which every reducer touches the filesystem.
//!
//! Each operation's outcome is a deterministic function of the filesystem
//! model, so an implementation is pinned down exactly; the in-memory
//! implementation in this crate proves it, and a syscall-backed one outside
//! the crate may take its place behind the same interface.

use vstd::prelude::*;

use crate::config::{IconsConfig, IconsModel};
use crate::fs_model::{
    fs_contains, fs_has_child, fs_is_dir, fs_is_file, spec_copy_dir, spec_copy_file,
    spec_create_dir, spec_create_file, spec_create_symlink, spec_delete_dir,
    spec_delete_empty_dir, spec_delete_file, spec_read_file, spec_read_link, spec_rename, FsEntry,
    FsError, FsNode,
};
use crate::items::{FileSystemItem, ItemKind, ItemModel};
use crate::paths::{base_name, base_name_of, child_prefix, is_child, str_is_valid_abs_path,
    valid_abs_path};
use crate::text::icon_key;

verus! {

/// The listing item an entry `e` of directory `dir` turns into: named by
/// the path tail, classified by the node, with the icon the tables give.
pub open spec fn spec_item_of(
    fs: Seq<FsEntry>,
    e: FsEntry,
    dir: Seq<char>,
    icons: IconsModel,
) -> ItemModel {
    let name = e.path.subrange(child_prefix(dir).len() as int, e.path.len() as int);
    match e.node {
        FsNode::Dir => ItemModel {
            name,
            path: e.path,
            icon: icons.dir_icon(name),
            kind: ItemKind::Dir { is_empty: !fs_has_child(fs, e.path) },
        },
        FsNode::File { .. } => ItemModel {
            name,
            path: e.path,
            icon: icons.file_icon(icon_key(name)),
            kind: ItemKind::File,
        },
        FsNode::Link { target } => ItemModel {
            name,
            path: e.path,
            icon: if fs_is_file(fs, target) {
                icons.file_icon(icon_key(name))
            } else {
                icons.dir_icon(name)
            },
            kind: ItemKind::Link { target },
        },
    }
}

/// The items of the entries from index `i` on that are children of `dir`.
pub open spec fn spec_list_dir_from(
    fs: Seq<FsEntry>,
    i: int,
    dir: Seq<char>,
    icons: IconsModel,
) -> Seq<ItemModel>
    decreases fs.len() - i,
{
    if i < 0 || i >= fs.len() {
        Seq::empty()
    } else {
        let rest = spec_list_dir_from(fs, i + 1, dir, icons);
        if is_child(fs[i].path, dir) {
            seq![spec_item_of(fs, fs[i], dir, icons)] + rest
        } else {
            rest
        }
    }
}

/// The listing of directory `dir`: one item per immediate child, in entry
/// order (sorted by name whenever the entries are sorted by path).
pub open spec fn spec_list_dir(fs: Seq<FsEntry>, dir: Seq<char>, icons: IconsModel) -> Seq<
    ItemModel,
> {
    spec_list_dir_from(fs, 0, dir, icons)
}

/// Name and path of a directory.
pub struct DirInfo {
    pub name: String,
    pub path: String,
}

impl DirInfo {
    /// Splits an absolute path into a directory description; any other
    /// path is refused.
    pub fn new(path: &str) -> (r: Option<Self>)
        ensures
            match r {
                Some(info) => valid_abs_path(path@) && info.name@ == base_name(path@)
                    && info.path@ == path@,
                None => !valid_abs_path(path@),
            },
    {
        if str_is_valid_abs_path(path) {
            Some(DirInfo { name: base_name_of(path), path: path.to_owned() })
        } else {
            None
        }
    }
}

impl Clone for DirInfo {
    fn clone(&self) -> (r: Self)
        ensures
            r == *self,
    {
        DirInfo { name: self.name.clone(), path: self.path.clone() }
    }
}

/// The capability through which all filesystem work is done. Each method's
/// outcome is the corresponding model operation on `fs()`.
pub trait FileSystem: Sized {
    /// The filesystem model this value stands for; an implementation
    /// overrides this with its own model.
    open spec fn fs(&self) -> Seq<FsEntry> {
        Seq::empty()
    }

    /// Whether anything stands at `path`.
    fn exist(&self, path: &str) -> (r: bool)
        ensures
            r == fs_contains(self.fs(), path@),
    ;

    /// Whether a directory stands at `path`.
    fn is_dir(&self, path: &str) -> (r: bool)
        ensures
            r == fs_is_dir(self.fs(), path@),
    ;

    /// Name and path of the directory at `path`, if one stands there.
    fn get_dir_info(&self, path: &str) -> (r: Option<DirInfo>)
        ensures
            match r {
                Some(info) => fs_is_dir(self.fs(), path@) && valid_abs_path(path@) && info.name@
                    == base_name(path@) && info.path@ == path@,
                None => !(fs_is_dir(self.fs(), path@) && valid_abs_path(path@)),
            },
    ;

    /// The listing of the directory at `path`.
    fn list_dir(&self, path: &str, icons: &IconsConfig) -> (items: Vec<FileSystemItem>)
        ensures
            crate::items::items_view(items@) == spec_list_dir(self.fs(), path@, icons@),
    ;

    /// The text of the file at `path`.
    fn read_to_string(&self, path: &str) -> (r: Option<String>)
        ensures
            match r {
                Some(content) => spec_read_file(self.fs(), path@) == Some(content@),
                None => spec_read_file(self.fs(), path@) is None,
            },
    ;

    /// What the link at `path` points to.
    fn read_link(&self, path: &str) -> (r: Result<String, FsError>)
        ensures
            match r {
                Ok(target) => spec_read_link(self.fs(), path@) == Ok::<_, FsError>(target@),
                Err(e) => spec_read_link(self.fs(), path@) == Err::<Seq<char>, _>(e),
            },
    ;

    /// Deletes the file or link at `path`.
    fn delete_file(&mut self, path: &str) -> (r: Result<(), FsError>)
        ensures
            final(self).fs() == spec_delete_file(old(self).fs(), path@).0,
            r == spec_delete_file(old(self).fs(), path@).1,
    ;

    /// Deletes the directory at `path` with everything below it.
    fn delete_dir(&mut self, path: &str) -> (r: Result<(), FsError>)
        ensures
            final(self).fs() == spec_delete_dir(old(self).fs(), path@).0,
            r == spec_delete_dir(old(self).fs(), path@).1,
    ;

    /// Deletes the directory at `path` when nothing is in it.
    fn delete_empty_dir(&mut self, path: &str) -> (r: Result<(), FsError>)
        ensures
            final(self).fs() == spec_delete_empty_dir(old(self).fs(), path@).0,
            r == spec_delete_empty_dir(old(self).fs(), path@).1,
    ;

    /// Moves the entry at `source`, with everything below it, to `target`.
    fn rename_item(&mut self, source: &str, target: &str) -> (r: Result<(), FsError>)
        ensures
            final(self).fs() == spec_rename(old(self).fs(), source@, target@).0,
            r == spec_rename(old(self).fs(), source@, target@).1,
    ;

    /// Creates a link at `link_path` pointing to `target`.
    fn create_symlink(&mut self, link_path: &str, target: &str) -> (r: Result<(), FsError>)
        ensures
            final(self).fs() == spec_create_symlink(old(self).fs(), link_path@, target@).0,
            r == spec_create_symlink(old(self).fs(), link_path@, target@).1,
    ;

    /// Creates an empty file at `path`.
    fn create_file(&mut self, path: &str) -> (r: Result<(), FsError>)
        ensures
            final(self).fs() == spec_create_file(old(self).fs(), path@).0,
            r == spec_create_file(old(self).fs(), path@).1,
    ;

    /// Creates a directory at `path`.
    fn create_dir(&mut self, path: &str) -> (r: Result<(), FsError>)
        ensures
            final(self).fs() == spec_create_dir(old(self).fs(), path@).0,
            r == spec_create_dir(old(self).fs(), path@).1,
    ;

    /// Copies the file at `source` to `target`.
    fn copy_file(&mut self, source: &str, target: &str) -> (r: Result<(), FsError>)
        ensures
            final(self).fs() == spec_copy_file(old(self).fs(), source@, target@).0,
            r == spec_copy_file(old(self).fs(), source@, target@).1,
    ;

    /// Copies the directory at `source`, with everything below it, to
    /// `target`.
    fn copy_dir(&mut self, source: &str, target: &str) -> (r: Result<(), FsError>)
        ensures
            final(self).fs() == spec_copy_dir(old(self).fs(), source@, target@).0,
            r == spec_copy_dir(old(self).fs(), source@, target@).1,
    ;

    /// A copy standing for the same filesystem.
    fn duplicate(&self) -> (r: Self)
        ensures
            r.fs() == self.fs(),
    ;
}

} // verus!
