//! Items of a directory listing: directories, files and symbolic links,
//! each with the name, path and icon the panels display.

use vstd::prelude::*;

verus! {

/// Which kind of entry an item stands for.
pub ghost enum ItemKind {
    Dir { is_empty: bool },
    File,
    Link { target: Seq<char> },
    Unknown,
}

/// Mathematical content of one listing item.
pub ghost struct ItemModel {
    pub name: Seq<char>,
    pub path: Seq<char>,
    pub icon: Seq<char>,
    pub kind: ItemKind,
}

impl ItemModel {
    /// Whether the item is a directory.
    pub open spec fn is_dir(self) -> bool {
        self.kind matches ItemKind::Dir { .. }
    }

    /// Whether the item is a file.
    pub open spec fn is_file(self) -> bool {
        self.kind == ItemKind::File
    }

    /// Whether the item is a symbolic link.
    pub open spec fn is_link(self) -> bool {
        self.kind matches ItemKind::Link { .. }
    }
}

/// A directory in a listing.
#[derive(Debug)]
pub struct DirItem {
    name: String,
    path: String,
    icon: String,
    is_empty: bool,
}

impl View for DirItem {
    type V = ItemModel;

    closed spec fn view(&self) -> ItemModel {
        ItemModel {
            name: self.name@,
            path: self.path@,
            icon: self.icon@,
            kind: ItemKind::Dir { is_empty: self.is_empty },
        }
    }
}

impl DirItem {
    pub fn new(name: String, path: String, icon: String, is_empty: bool) -> (r: Self)
        ensures
            r@ == (ItemModel {
                name: name@,
                path: path@,
                icon: icon@,
                kind: ItemKind::Dir { is_empty },
            }),
    {
        DirItem { name, path, icon, is_empty }
    }

    pub fn get_name(&self) -> (r: String)
        ensures
            r@ == self@.name,
    {
        self.name.clone()
    }

    pub fn get_path(&self) -> (r: String)
        ensures
            r@ == self@.path,
    {
        self.path.clone()
    }

    /// Whether the name is a dot name.
    pub fn is_visible(&self) -> (r: bool)
        ensures
            r == (self@.name.len() > 0 && self@.name[0] == '.'),
    {
        self.name.as_str().unicode_len() > 0 && self.name.as_str().get_char(0) == '.'
    }

    /// Whether the directory had no entries when it was listed.
    pub fn is_empty(&self) -> (r: bool)
        ensures
            self@.kind == (ItemKind::Dir { is_empty: r }),
    {
        self.is_empty
    }
}

impl Clone for DirItem {
    fn clone(&self) -> (r: Self)
        ensures
            r == *self,
    {
        DirItem {
            name: self.name.clone(),
            path: self.path.clone(),
            icon: self.icon.clone(),
            is_empty: self.is_empty,
        }
    }
}

/// A file in a listing.
#[derive(Debug)]
pub struct FileItem {
    name: String,
    path: String,
    icon: String,
}

impl View for FileItem {
    type V = ItemModel;

    closed spec fn view(&self) -> ItemModel {
        ItemModel { name: self.name@, path: self.path@, icon: self.icon@, kind: ItemKind::File }
    }
}

impl FileItem {
    pub fn new(name: String, path: String, icon: String) -> (r: Self)
        ensures
            r@ == (ItemModel { name: name@, path: path@, icon: icon@, kind: ItemKind::File }),
    {
        FileItem { name, path, icon }
    }

    pub fn get_name(&self) -> (r: String)
        ensures
            r@ == self@.name,
    {
        self.name.clone()
    }

    pub fn get_path(&self) -> (r: String)
        ensures
            r@ == self@.path,
    {
        self.path.clone()
    }

    /// Whether the name is a dot name.
    pub fn is_visible(&self) -> (r: bool)
        ensures
            r == (self@.name.len() > 0 && self@.name[0] == '.'),
    {
        self.name.as_str().unicode_len() > 0 && self.name.as_str().get_char(0) == '.'
    }
}

impl Clone for FileItem {
    fn clone(&self) -> (r: Self)
        ensures
            r == *self,
    {
        FileItem { name: self.name.clone(), path: self.path.clone(), icon: self.icon.clone() }
    }
}

/// A symbolic link in a listing.
#[derive(Debug)]
pub struct SymlinkItem {
    name: String,
    path: String,
    target: String,
    icon: String,
}

impl View for SymlinkItem {
    type V = ItemModel;

    closed spec fn view(&self) -> ItemModel {
        ItemModel {
            name: self.name@,
            path: self.path@,
            icon: self.icon@,
            kind: ItemKind::Link { target: self.target@ },
        }
    }
}

impl SymlinkItem {
    pub fn new(name: String, path: String, target: String, icon: String) -> (r: Self)
        ensures
            r@ == (ItemModel {
                name: name@,
                path: path@,
                icon: icon@,
                kind: ItemKind::Link { target: target@ },
            }),
    {
        SymlinkItem { name, path, target, icon }
    }

    pub fn get_name(&self) -> (r: String)
        ensures
            r@ == self@.name,
    {
        self.name.clone()
    }

    pub fn get_path(&self) -> (r: String)
        ensures
            r@ == self@.path,
    {
        self.path.clone()
    }

    /// The path the link points to.
    pub fn get_target(&self) -> (r: String)
        ensures
            self@.kind == (ItemKind::Link { target: r@ }),
    {
        self.target.clone()
    }

    /// Whether the name is a dot name.
    pub fn is_visible(&self) -> (r: bool)
        ensures
            r == (self@.name.len() > 0 && self@.name[0] == '.'),
    {
        self.name.as_str().unicode_len() > 0 && self.name.as_str().get_char(0) == '.'
    }
}

impl Clone for SymlinkItem {
    fn clone(&self) -> (r: Self)
        ensures
            r == *self,
    {
        SymlinkItem {
            name: self.name.clone(),
            path: self.path.clone(),
            target: self.target.clone(),
            icon: self.icon.clone(),
        }
    }
}

/// One entry of a tab's listing.
#[derive(Debug)]
pub enum FileSystemItem {
    Directory(DirItem),
    File(FileItem),
    Symlink(SymlinkItem),
    Unknown,
}

/// The model of an unclassifiable entry.
pub open spec fn unknown_item_model() -> ItemModel {
    ItemModel {
        name: Seq::empty(),
        path: Seq::empty(),
        icon: Seq::empty(),
        kind: ItemKind::Unknown,
    }
}

impl View for FileSystemItem {
    type V = ItemModel;

    open spec fn view(&self) -> ItemModel {
        match self {
            FileSystemItem::Directory(d) => d@,
            FileSystemItem::File(f) => f@,
            FileSystemItem::Symlink(s) => s@,
            FileSystemItem::Unknown => unknown_item_model(),
        }
    }
}

impl FileSystemItem {
    pub fn get_path(&self) -> (r: String)
        ensures
            r@ == self@.path,
    {
        match self {
            FileSystemItem::Directory(dir) => dir.get_path(),
            FileSystemItem::File(file) => file.get_path(),
            FileSystemItem::Symlink(symlink) => symlink.get_path(),
            FileSystemItem::Unknown => String::new(),
        }
    }

    pub fn get_name(&self) -> (r: String)
        ensures
            r@ == self@.name,
    {
        match self {
            FileSystemItem::Directory(dir) => dir.get_name(),
            FileSystemItem::File(file) => file.get_name(),
            FileSystemItem::Symlink(symlink) => symlink.get_name(),
            FileSystemItem::Unknown => String::new(),
        }
    }

    pub fn is_symlink(&self) -> (r: bool)
        ensures
            r == self@.is_link(),
    {
        match self {
            FileSystemItem::Symlink(_) => true,
            _ => false,
        }
    }

    pub fn is_file(&self) -> (r: bool)
        ensures
            r == self@.is_file(),
    {
        match self {
            FileSystemItem::File(_) => true,
            _ => false,
        }
    }

    pub fn is_dir(&self) -> (r: bool)
        ensures
            r == self@.is_dir(),
    {
        match self {
            FileSystemItem::Directory(_) => true,
            _ => false,
        }
    }

    /// Whether the name is a dot name; links always count, unclassified
    /// entries never do.
    pub fn is_visible(&self) -> (r: bool)
        ensures
            r == (self@.is_link() || (!(self@.kind == ItemKind::Unknown) && self@.name.len() > 0
                && self@.name[0] == '.')),
    {
        match self {
            FileSystemItem::Directory(dir) => dir.is_visible(),
            FileSystemItem::File(file) => file.is_visible(),
            FileSystemItem::Symlink(_) => true,
            FileSystemItem::Unknown => false,
        }
    }
}

impl Clone for FileSystemItem {
    fn clone(&self) -> (r: Self)
        ensures
            r == *self,
    {
        match self {
            FileSystemItem::Directory(d) => FileSystemItem::Directory(d.clone()),
            FileSystemItem::File(f) => FileSystemItem::File(f.clone()),
            FileSystemItem::Symlink(s) => FileSystemItem::Symlink(s.clone()),
            FileSystemItem::Unknown => FileSystemItem::Unknown,
        }
    }
}

/// The models of the items of a listing, in order.
pub open spec fn items_view(v: Seq<FileSystemItem>) -> Seq<ItemModel> {
    v.map_values(|it: FileSystemItem| it@)
}

/// Indexing distributes over `items_view`.
pub proof fn lemma_items_view_index(v: Seq<FileSystemItem>, k: int)
    requires
        0 <= k < v.len(),
    ensures
        items_view(v)[k] == v[k]@,
{
}

/// Copies a listing.
pub fn clone_items(v: &Vec<FileSystemItem>) -> (r: Vec<FileSystemItem>)
    ensures
        items_view(r@) == items_view(v@),
{
    let mut r: Vec<FileSystemItem> = Vec::new();
    let mut i: usize = 0;
    while i < v.len()
        invariant
            i <= v@.len(),
            r@.len() == i,
            forall|k: int| 0 <= k < i ==> (#[trigger] r@[k]) == v@[k],
        decreases v@.len() - i,
    {
        r.push(v[i].clone());
        i = i + 1;
    }
    proof {
        assert forall|k: int| 0 <= k < r@.len() implies items_view(r@)[k] == items_view(v@)[k] by {
            lemma_items_view_index(r@, k);
            lemma_items_view_index(v@, k);
        }
        assert(items_view(r@) =~= items_view(v@));
    }
    r
}

} // verus!
