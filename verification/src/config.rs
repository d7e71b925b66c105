//! Read-only configuration the reducers consult: icon tables and the
//! programs associated with file extensions.
//!
//! Tables are association lists looked up front to back, with a `default`
//! entry as fallback, so a later insertion at the front shadows an earlier
//! binding.

use vstd::prelude::*;

use crate::paths::str_eq;

verus! {

/// The views of the keys and values of an association list.
pub open spec fn pairs_view(v: Seq<(String, String)>) -> Seq<(Seq<char>, Seq<char>)> {
    v.map_values(|p: (String, String)| (p.0@, p.1@))
}

/// First value bound to `key`, front to back.
pub open spec fn assoc_lookup(t: Seq<(Seq<char>, Seq<char>)>, key: Seq<char>) -> Option<Seq<char>>
    decreases t.len(),
{
    if t.len() == 0 {
        None
    } else if t[0].0 == key {
        Some(t[0].1)
    } else {
        assoc_lookup(t.skip(1), key)
    }
}

/// Indexing distributes over `pairs_view`.
pub proof fn lemma_pairs_view_index(v: Seq<(String, String)>, k: int)
    requires
        0 <= k < v.len(),
    ensures
        pairs_view(v)[k] == (v[k].0@, v[k].1@),
{
}

/// Value bound to `key`, or to `default`, or empty.
pub open spec fn fallback_lookup(t: Seq<(Seq<char>, Seq<char>)>, key: Seq<char>) -> Seq<char> {
    match assoc_lookup(t, key) {
        Some(v) => v,
        None => match assoc_lookup(t, "default"@) {
            Some(v) => v,
            None => Seq::empty(),
        },
    }
}

/// Looks `key` up in `table`, front to back.
fn assoc_get(table: &Vec<(String, String)>, key: &str) -> (r: Option<String>)
    ensures
        match r {
            Some(v) => assoc_lookup(pairs_view(table@), key@) == Some(v@),
            None => assoc_lookup(pairs_view(table@), key@) is None,
        },
{
    let ghost t = pairs_view(table@);
    proof {
        assert(t.skip(0) =~= t);
    }
    let n = table.len();
    let mut i: usize = 0;
    while i < n
        invariant
            i <= n,
            n == table@.len(),
            t == pairs_view(table@),
            assoc_lookup(t, key@) == assoc_lookup(t.skip(i as int), key@),
        decreases n - i,
    {
        proof {
            assert(t.skip(i as int).len() > 0);
            assert(t.skip(i as int)[0] == t[i as int]);
            assert(t.skip(i as int).skip(1) =~= t.skip(i + 1));
        }
        if str_eq(table[i].0.as_str(), key) {
            return Some(table[i].1.clone());
        }
        i = i + 1;
    }
    proof {
        assert(t.skip(i as int) =~= Seq::<(Seq<char>, Seq<char>)>::empty());
    }
    None
}

/// Copies an association list.
fn clone_table(src: &Vec<(String, String)>) -> (r: Vec<(String, String)>)
    ensures
        pairs_view(r@) == pairs_view(src@),
{
    let mut r: Vec<(String, String)> = Vec::new();
    let mut i: usize = 0;
    while i < src.len()
        invariant
            i <= src@.len(),
            r@.len() == i,
            forall|k: int|
                0 <= k < i ==> (#[trigger] r@[k]).0@ == src@[k].0@ && r@[k].1@ == src@[k].1@,
        decreases src@.len() - i,
    {
        r.push((src[i].0.clone(), src[i].1.clone()));
        i = i + 1;
    }
    proof {
        assert forall|k: int| 0 <= k < r@.len() implies pairs_view(r@)[k] == pairs_view(src@)[k] by {
            lemma_pairs_view_index(r@, k);
            lemma_pairs_view_index(src@, k);
        }
        assert(pairs_view(r@) =~= pairs_view(src@));
    }
    r
}

/// Model of the icon tables.
pub ghost struct IconsModel {
    pub use_icons: bool,
    pub dir_icons: Seq<(Seq<char>, Seq<char>)>,
    pub file_icons: Seq<(Seq<char>, Seq<char>)>,
}

impl IconsModel {
    /// The icon shown for a directory called `name`.
    pub open spec fn dir_icon(self, name: Seq<char>) -> Seq<char> {
        fallback_lookup(self.dir_icons, name)
    }

    /// The icon shown for a file whose icon key is `key`.
    pub open spec fn file_icon(self, key: Seq<char>) -> Seq<char> {
        fallback_lookup(self.file_icons, key)
    }
}

/// Icon tables for directories and files.
pub struct IconsConfig {
    pub use_icons: bool,
    dir_icons: Vec<(String, String)>,
    files_icon: Vec<(String, String)>,
}

impl View for IconsConfig {
    type V = IconsModel;

    closed spec fn view(&self) -> IconsModel {
        IconsModel {
            use_icons: self.use_icons,
            dir_icons: pairs_view(self.dir_icons@),
            file_icons: pairs_view(self.files_icon@),
        }
    }
}

impl IconsConfig {
    /// Whether icons are displayed.
    pub open spec fn spec_use_icons(&self) -> bool {
        self@.use_icons
    }

    /// The directory icon table.
    pub open spec fn dir_table(&self) -> Seq<(Seq<char>, Seq<char>)> {
        self@.dir_icons
    }

    /// The file icon table.
    pub open spec fn file_table(&self) -> Seq<(Seq<char>, Seq<char>)> {
        self@.file_icons
    }

    /// The icon shown for a directory called `name`.
    pub open spec fn spec_dir_icon(&self, name: Seq<char>) -> Seq<char> {
        fallback_lookup(self.dir_table(), name)
    }

    /// The icon shown for a file whose icon key is `key`.
    pub open spec fn spec_file_icon(&self, key: Seq<char>) -> Seq<char> {
        fallback_lookup(self.file_table(), key)
    }

    pub fn get_dir_icon(&self, dir_name: String) -> (r: String)
        ensures
            r@ == self.spec_dir_icon(dir_name@),
    {
        match assoc_get(&self.dir_icons, dir_name.as_str()) {
            Some(v) => v,
            None => match assoc_get(&self.dir_icons, "default") {
                Some(v) => v,
                None => String::new(),
            },
        }
    }

    pub fn get_file_icon(&self, file_name: String) -> (r: String)
        ensures
            r@ == self.spec_file_icon(file_name@),
    {
        match assoc_get(&self.files_icon, file_name.as_str()) {
            Some(v) => v,
            None => match assoc_get(&self.files_icon, "default") {
                Some(v) => v,
                None => String::new(),
            },
        }
    }

    /// Binds a directory name to an icon, shadowing earlier bindings.
    pub fn set_dir_icon(&mut self, name: String, icon: String)
        ensures
            final(self).dir_table() == old(self).dir_table().insert(0, (name@, icon@)),
            final(self).file_table() == old(self).file_table(),
            final(self).spec_use_icons() == old(self).spec_use_icons(),
    {
        self.dir_icons.insert(0, (name, icon));
        proof {
            assert(self.dir_table() =~= old(self).dir_table().insert(0, (name@, icon@)));
        }
    }

    /// Binds a file icon key to an icon, shadowing earlier bindings.
    pub fn set_file_icon(&mut self, key: String, icon: String)
        ensures
            final(self).file_table() == old(self).file_table().insert(0, (key@, icon@)),
            final(self).dir_table() == old(self).dir_table(),
            final(self).spec_use_icons() == old(self).spec_use_icons(),
    {
        self.files_icon.insert(0, (key, icon));
        proof {
            assert(self.file_table() =~= old(self).file_table().insert(0, (key@, icon@)));
        }
    }

    /// Switches icon display on or off.
    pub fn set_use_icons(&mut self, value: bool)
        ensures
            final(self).spec_use_icons() == value,
            final(self).dir_table() == old(self).dir_table(),
            final(self).file_table() == old(self).file_table(),
    {
        self.use_icons = value;
    }
}

/// The built-in directory icon table.
pub fn get_default_dir_icons() -> (r: Vec<(String, String)>)
    ensures
        pairs_view(r@) == seq![
            (".git"@, "\u{1F4C1}"@),
            ("node_modules"@, "\u{1F4C1}"@),
            ("default"@, "\u{1F4C1}"@),
        ],
{
    let mut icon_map: Vec<(String, String)> = Vec::new();
    icon_map.push((".git".to_owned(), "\u{1F4C1}".to_owned()));
    icon_map.push(("node_modules".to_owned(), "\u{1F4C1}".to_owned()));
    icon_map.push(("default".to_owned(), "\u{1F4C1}".to_owned()));
    proof {
        assert forall|k: int| 0 <= k < icon_map@.len() implies pairs_view(icon_map@)[k] == (
        icon_map@[k].0@,
        icon_map@[k].1@,
        ) by {
            lemma_pairs_view_index(icon_map@, k);
        }
        assert(pairs_view(icon_map@) =~= seq![
            (".git"@, "\u{1F4C1}"@),
            ("node_modules"@, "\u{1F4C1}"@),
            ("default"@, "\u{1F4C1}"@),
        ]);
    }
    icon_map
}

/// The built-in file icon table.
pub fn get_default_files_icons() -> (r: Vec<(String, String)>)
    ensures
        pairs_view(r@) == seq![
            (".gitignore"@, "\u{1F4C4}"@),
            (".gitmodules"@, "\u{1F4C4}"@),
            ("rs"@, "\u{1F4C4}"@),
            ("toml"@, "\u{1F4C4}"@),
            ("lock"@, "\u{1F4C4}"@),
            ("default"@, "\u{1F4C4}"@),
            ("symlink"@, "\u{1F3AF}"@),
            ("warn"@, "\u{1F4C4}"@),
        ],
{
    let mut icon_map: Vec<(String, String)> = Vec::new();
    icon_map.push((".gitignore".to_owned(), "\u{1F4C4}".to_owned()));
    icon_map.push((".gitmodules".to_owned(), "\u{1F4C4}".to_owned()));
    icon_map.push(("rs".to_owned(), "\u{1F4C4}".to_owned()));
    icon_map.push(("toml".to_owned(), "\u{1F4C4}".to_owned()));
    icon_map.push(("lock".to_owned(), "\u{1F4C4}".to_owned()));
    icon_map.push(("default".to_owned(), "\u{1F4C4}".to_owned()));
    icon_map.push(("symlink".to_owned(), "\u{1F3AF}".to_owned()));
    icon_map.push(("warn".to_owned(), "\u{1F4C4}".to_owned()));
    proof {
        assert forall|k: int| 0 <= k < icon_map@.len() implies pairs_view(icon_map@)[k] == (
        icon_map@[k].0@,
        icon_map@[k].1@,
        ) by {
            lemma_pairs_view_index(icon_map@, k);
        }
        assert(pairs_view(icon_map@) =~= seq![
            (".gitignore"@, "\u{1F4C4}"@),
            (".gitmodules"@, "\u{1F4C4}"@),
            ("rs"@, "\u{1F4C4}"@),
            ("toml"@, "\u{1F4C4}"@),
            ("lock"@, "\u{1F4C4}"@),
            ("default"@, "\u{1F4C4}"@),
            ("symlink"@, "\u{1F3AF}"@),
            ("warn"@, "\u{1F4C4}"@),
        ]);
    }
    icon_map
}

impl Default for IconsConfig {
    fn default() -> (r: Self)
        ensures
            r.spec_use_icons() == false,
            r.dir_table() == seq![
                (".git"@, "\u{1F4C1}"@),
                ("node_modules"@, "\u{1F4C1}"@),
                ("default"@, "\u{1F4C1}"@),
            ],
            r.file_table() == seq![
                (".gitignore"@, "\u{1F4C4}"@),
                (".gitmodules"@, "\u{1F4C4}"@),
                ("rs"@, "\u{1F4C4}"@),
                ("toml"@, "\u{1F4C4}"@),
                ("lock"@, "\u{1F4C4}"@),
                ("default"@, "\u{1F4C4}"@),
                ("symlink"@, "\u{1F3AF}"@),
                ("warn"@, "\u{1F4C4}"@),
            ],
            r.spec_dir_icon("default"@) == "\u{1F4C1}"@,
            r.spec_file_icon("default"@) == "\u{1F4C4}"@,
            r.spec_file_icon("symlink"@) == "\u{1F3AF}"@,
    {
        let icons = IconsConfig {
            use_icons: false,
            dir_icons: get_default_dir_icons(),
            files_icon: get_default_files_icons(),
        };
        proof {
            reveal_strlit(".git");
            reveal_strlit("node_modules");
            reveal_strlit("default");
            reveal_strlit(".gitignore");
            reveal_strlit(".gitmodules");
            reveal_strlit("rs");
            reveal_strlit("toml");
            reveal_strlit("lock");
            reveal_strlit("symlink");
            reveal_with_fuel(assoc_lookup, 10);
            assert("default"@[0] != "symlink"@[0]);
            assert(icons.dir_table() =~= seq![
                (".git"@, "\u{1F4C1}"@),
                ("node_modules"@, "\u{1F4C1}"@),
                ("default"@, "\u{1F4C1}"@),
            ]);
            assert(icons.file_table() =~= seq![
                (".gitignore"@, "\u{1F4C4}"@),
                (".gitmodules"@, "\u{1F4C4}"@),
                ("rs"@, "\u{1F4C4}"@),
                ("toml"@, "\u{1F4C4}"@),
                ("lock"@, "\u{1F4C4}"@),
                ("default"@, "\u{1F4C4}"@),
                ("symlink"@, "\u{1F3AF}"@),
                ("warn"@, "\u{1F4C4}"@),
            ]);
        }
        icons
    }
}

impl Clone for IconsConfig {
    fn clone(&self) -> (r: Self)
        ensures
            r@ == self@,
    {
        let r = IconsConfig {
            use_icons: self.use_icons,
            dir_icons: clone_table(&self.dir_icons),
            files_icon: clone_table(&self.files_icon),
        };
        proof {
            assert(r@ == self@);
        }
        r
    }
}

/// Which program opens a file, keyed by extension.
pub struct FileAssociatedPrograms {
    bindings: Vec<(String, String)>,
}

impl FileAssociatedPrograms {
    /// The binding table.
    pub closed spec fn table(&self) -> Seq<(Seq<char>, Seq<char>)> {
        pairs_view(self.bindings@)
    }

    /// The program bound to extension `ext`.
    pub open spec fn spec_program_name(&self, ext: Seq<char>) -> Seq<char> {
        fallback_lookup(self.table(), ext)
    }

    pub fn get_program_name(&self, file_extension: String) -> (r: String)
        ensures
            r@ == self.spec_program_name(file_extension@),
    {
        match assoc_get(&self.bindings, file_extension.as_str()) {
            Some(v) => v,
            None => match assoc_get(&self.bindings, "default") {
                Some(v) => v,
                None => String::new(),
            },
        }
    }

    /// Binds an extension to a program, shadowing earlier bindings.
    pub fn set_binding(&mut self, ext: String, program: String)
        ensures
            final(self).table() == old(self).table().insert(0, (ext@, program@)),
    {
        self.bindings.insert(0, (ext, program));
        proof {
            assert(self.table() =~= old(self).table().insert(0, (ext@, program@)));
        }
    }
}

impl Default for FileAssociatedPrograms {
    fn default() -> (r: Self)
        ensures
            r.table() == seq![("default"@, "nvim"@)],
    {
        let mut bindings: Vec<(String, String)> = Vec::new();
        bindings.push(("default".to_owned(), "nvim".to_owned()));
        proof {
            lemma_pairs_view_index(bindings@, 0);
            assert(pairs_view(bindings@) =~= seq![("default"@, "nvim"@)]);
        }
        FileAssociatedPrograms { bindings }
    }
}

impl Clone for FileAssociatedPrograms {
    fn clone(&self) -> (r: Self)
        ensures
            r.table() == self.table(),
    {
        FileAssociatedPrograms { bindings: clone_table(&self.bindings) }
    }
}

/// Everything the engine reads as configuration.
pub struct Config {
    pub icons: IconsConfig,
    pub file_associated_programs: FileAssociatedPrograms,
}

/// Model of the configuration.
pub ghost struct ConfigModel {
    pub icons: IconsModel,
    pub programs: Seq<(Seq<char>, Seq<char>)>,
}

impl View for Config {
    type V = ConfigModel;

    open spec fn view(&self) -> ConfigModel {
        ConfigModel { icons: self.icons@, programs: self.file_associated_programs.table() }
    }
}

impl Default for Config {
    fn default() -> (r: Self)
        ensures
            r.icons.spec_use_icons() == false,
            r.icons.spec_dir_icon("default"@) == "\u{1F4C1}"@,
            r.file_associated_programs.table() == seq![("default"@, "nvim"@)],
    {
        Config {
            icons: IconsConfig::default(),
            file_associated_programs: FileAssociatedPrograms::default(),
        }
    }
}

impl Clone for Config {
    fn clone(&self) -> (r: Self)
        ensures
            r@ == self@,
    {
        Config {
            icons: self.icons.clone(),
            file_associated_programs: self.file_associated_programs.clone(),
        }
    }
}

} // verus!
