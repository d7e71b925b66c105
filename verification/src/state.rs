//! The data model: application, panel and tab state, with the invariants
//! the reducers preserve, and the ghost models the contracts speak of.

use vstd::prelude::*;

use crate::actions::PanelSide;
use crate::config::{Config, ConfigModel, IconsConfig, IconsModel};
use crate::file_system::{spec_list_dir, FileSystem};
use crate::fs_model::FsEntry;
use crate::items::{clone_items, items_view, FileSystemItem, ItemModel, lemma_items_view_index};
use crate::paths::{base_name, base_name_of};
use crate::text::name_matches;

verus! {

/// Index of a tab within a panel.
pub type TabIdx = usize;

/// Descriptor of a foreground program the outer run loop should spawn.
pub struct ChildProgramDesc {
    pub program_name: String,
    pub args: Vec<String>,
}

/// Model of a child-program descriptor.
pub ghost struct ChildModel {
    pub program_name: Seq<char>,
    pub args: Seq<Seq<char>>,
}

impl View for ChildProgramDesc {
    type V = ChildModel;

    open spec fn view(&self) -> ChildModel {
        ChildModel {
            program_name: self.program_name@,
            args: self.args@.map_values(|s: String| s@),
        }
    }
}

impl Clone for ChildProgramDesc {
    fn clone(&self) -> (r: Self)
        ensures
            r@ == self@,
    {
        let mut args: Vec<String> = Vec::new();
        let mut i: usize = 0;
        while i < self.args.len()
            invariant
                i <= self.args@.len(),
                args@.len() == i,
                forall|k: int| 0 <= k < i ==> (#[trigger] args@[k]) == self.args@[k],
            decreases self.args@.len() - i,
        {
            args.push(self.args[i].clone());
            i = i + 1;
        }
        proof {
            assert(args@.map_values(|s: String| s@) =~= self.args@.map_values(|s: String| s@));
        }
        ChildProgramDesc { program_name: self.program_name.clone(), args }
    }
}

/// Model of one tab.
pub ghost struct TabModel {
    pub name: Seq<char>,
    pub icon: Seq<char>,
    pub path: Seq<char>,
    pub items: Seq<ItemModel>,
    pub selected: Seq<ItemModel>,
    pub cursor: Option<int>,
    pub search_mode: bool,
    pub phrase: Seq<char>,
}

/// One directory view: its listing, cursor, selection and search state.
pub struct TabState {
    pub name: String,
    pub icon: String,
    pub path: String,
    pub items: Vec<FileSystemItem>,
    pub selected: Vec<FileSystemItem>,
    pub cursor: Option<usize>,
    pub search_mode: bool,
    pub phrase: String,
}

impl View for TabState {
    type V = TabModel;

    open spec fn view(&self) -> TabModel {
        TabModel {
            name: self.name@,
            icon: self.icon@,
            path: self.path@,
            items: items_view(self.items@),
            selected: items_view(self.selected@),
            cursor: match self.cursor {
                Some(c) => Some(c as int),
                None => None,
            },
            search_mode: self.search_mode,
            phrase: self.phrase@,
        }
    }
}

/// Every selected entry names a path of the listing, and the cursor, when
/// set, is an index.
pub open spec fn tab_wf(t: TabModel) -> bool {
    &&& forall|j: int|
        0 <= j < t.selected.len() ==> exists|i: int|
            0 <= i < t.items.len() && (#[trigger] t.selected[j]).path == t.items[i].path
    &&& (t.cursor matches Some(c) ==> c >= 0)
}

/// The tab freshly opened on directory `path`: its listing, no selection,
/// no cursor, no search.
pub open spec fn spec_tab_with_dir(
    fs: Seq<FsEntry>,
    path: Seq<char>,
    icons: IconsModel,
) -> TabModel {
    TabModel {
        name: base_name(path),
        icon: icons.dir_icon(base_name(path)),
        path,
        items: spec_list_dir(fs, path, icons),
        selected: Seq::empty(),
        cursor: None,
        search_mode: false,
        phrase: Seq::empty(),
    }
}

/// The tab every panel starts with: the root path, nothing listed yet.
pub open spec fn spec_default_tab() -> TabModel {
    TabModel {
        name: Seq::empty(),
        icon: Seq::empty(),
        path: seq!['/'],
        items: Seq::empty(),
        selected: Seq::empty(),
        cursor: None,
        search_mode: false,
        phrase: Seq::empty(),
    }
}

/// The filtered view from index `i` on: the items whose names contain the
/// phrase, ignoring ASCII case.
pub open spec fn spec_filtered_from(items: Seq<ItemModel>, phrase: Seq<char>, i: int) -> Seq<
    ItemModel,
>
    decreases items.len() - i,
{
    if i < 0 || i >= items.len() {
        Seq::empty()
    } else {
        let rest = spec_filtered_from(items, phrase, i + 1);
        if name_matches(items[i].name, phrase) {
            seq![items[i]] + rest
        } else {
            rest
        }
    }
}

/// What the cursor moves over: all items when the phrase is empty, the
/// matching ones otherwise.
pub open spec fn spec_filtered(t: TabModel) -> Seq<ItemModel> {
    if t.phrase.len() == 0 {
        t.items
    } else {
        spec_filtered_from(t.items, t.phrase, 0)
    }
}

impl TabState {
    /// Opens a tab on directory `dir_path`.
    pub fn with_dir<F: FileSystem>(dir_path: &str, file_system: &F, icons: &IconsConfig) -> (r:
        TabState)
        ensures
            r@ == spec_tab_with_dir(file_system.fs(), dir_path@, icons@),
            tab_wf(r@),
    {
        let name = base_name_of(dir_path);
        let icon = icons.get_dir_icon(name.clone());
        let items = file_system.list_dir(dir_path, icons);
        let r = TabState {
            name,
            icon,
            path: dir_path.to_owned(),
            items,
            selected: Vec::new(),
            cursor: None,
            search_mode: false,
            phrase: String::new(),
        };
        proof {
            assert(items_view(r.selected@) =~= Seq::<ItemModel>::empty());
        }
        r
    }

    /// The items the cursor currently moves over.
    pub fn filtered_items(&self) -> (r: Vec<FileSystemItem>)
        ensures
            items_view(r@) == spec_filtered(self@),
    {
        if self.phrase.as_str().is_empty() {
            clone_items(&self.items)
        } else {
            let ghost all = items_view(self.items@);
            let ghost phrase = self.phrase@;
            let mut r: Vec<FileSystemItem> = Vec::new();
            let n = self.items.len();
            let mut i: usize = 0;
            while i < n
                invariant
                    i <= n,
                    n == self.items@.len(),
                    all == items_view(self.items@),
                    phrase == self.phrase@,
                    items_view(r@) + spec_filtered_from(all, phrase, i as int) == spec_filtered_from(
                        all,
                        phrase,
                        0,
                    ),
                decreases n - i,
            {
                proof {
                    lemma_items_view_index(self.items@, i as int);
                }
                let name = self.items[i].get_name();
                if crate::text::ci_contains(name.as_str(), self.phrase.as_str()) {
                    let ghost before = items_view(r@);
                    r.push(self.items[i].clone());
                    proof {
                        assert forall|k: int| 0 <= k < r@.len() implies items_view(r@)[k]
                            == before.push(all[i as int])[k] by {
                            lemma_items_view_index(r@, k);
                            if k < before.len() {
                                lemma_items_view_index(r@.subrange(0, before.len() as int), k);
                            }
                        }
                        assert(items_view(r@) =~= before.push(all[i as int]));
                        assert(before.push(all[i as int]) + spec_filtered_from(
                            all,
                            phrase,
                            i as int + 1,
                        ) =~= before + (seq![all[i as int]] + spec_filtered_from(
                            all,
                            phrase,
                            i as int + 1,
                        )));
                    }
                }
                i = i + 1;
            }
            proof {
                assert(spec_filtered_from(all, phrase, n as int) =~= Seq::<ItemModel>::empty());
                assert(items_view(r@) + Seq::<ItemModel>::empty() =~= items_view(r@));
            }
            r
        }
    }
}

impl Default for TabState {
    fn default() -> (r: Self)
        ensures
            r@ == spec_default_tab(),
            tab_wf(r@),
    {
        let path = "/".to_owned();
        proof {
            reveal_strlit("/");
            assert(path@ =~= seq!['/']);
        }
        let r = TabState {
            name: String::new(),
            icon: String::new(),
            path,
            items: Vec::new(),
            selected: Vec::new(),
            cursor: None,
            search_mode: false,
            phrase: String::new(),
        };
        proof {
            assert(items_view(r.items@) =~= Seq::<ItemModel>::empty());
            assert(items_view(r.selected@) =~= Seq::<ItemModel>::empty());
        }
        r
    }
}

impl Clone for TabState {
    fn clone(&self) -> (r: Self)
        ensures
            r@ == self@,
    {
        TabState {
            name: self.name.clone(),
            icon: self.icon.clone(),
            path: self.path.clone(),
            items: clone_items(&self.items),
            selected: clone_items(&self.selected),
            cursor: self.cursor,
            search_mode: self.search_mode,
            phrase: self.phrase.clone(),
        }
    }
}

/// Model of one panel.
pub ghost struct PanelModel {
    pub tabs: Seq<TabModel>,
    pub is_focused: bool,
    pub current_tab: int,
}

/// One half of the screen: an ordered, never empty list of tabs.
pub struct PanelState {
    pub tabs: Vec<TabState>,
    pub is_focused: bool,
    pub current_tab: TabIdx,
}

/// The models of a list of tabs, in order.
pub open spec fn tabs_view(s: Seq<TabState>) -> Seq<TabModel> {
    s.map_values(|t: TabState| t@)
}

/// Indexing distributes over `tabs_view`.
pub proof fn lemma_tabs_view_index(s: Seq<TabState>, k: int)
    requires
        0 <= k < s.len(),
    ensures
        tabs_view(s)[k] == s[k]@,
{
}

impl View for PanelState {
    type V = PanelModel;

    open spec fn view(&self) -> PanelModel {
        PanelModel {
            tabs: tabs_view(self.tabs@),
            is_focused: self.is_focused,
            current_tab: self.current_tab as int,
        }
    }
}

/// The panel every application starts with: one default tab, unfocused.
pub open spec fn spec_default_panel() -> PanelModel {
    PanelModel { tabs: seq![spec_default_tab()], is_focused: false, current_tab: 0 }
}

/// A panel always holds a tab, the current index stays in range, and every
/// tab is well formed.
pub open spec fn panel_wf(p: PanelModel) -> bool {
    &&& p.tabs.len() >= 1
    &&& 0 <= p.current_tab < p.tabs.len()
    &&& forall|k: int| 0 <= k < p.tabs.len() ==> tab_wf(#[trigger] p.tabs[k])
}

impl Default for PanelState {
    fn default() -> (r: Self)
        ensures
            r@ == spec_default_panel(),
            panel_wf(r@),
    {
        let mut tabs: Vec<TabState> = Vec::new();
        tabs.push(TabState::default());
        proof {
            assert(tabs_view(tabs@) =~= seq![spec_default_tab()]);
        }
        PanelState { tabs, is_focused: false, current_tab: 0 }
    }
}

impl Clone for PanelState {
    fn clone(&self) -> (r: Self)
        ensures
            r@ == self@,
    {
        let mut tabs: Vec<TabState> = Vec::new();
        let mut i: usize = 0;
        while i < self.tabs.len()
            invariant
                i <= self.tabs@.len(),
                tabs@.len() == i,
                forall|k: int| 0 <= k < i ==> (#[trigger] tabs@[k])@ == self.tabs@[k]@,
            decreases self.tabs@.len() - i,
        {
            tabs.push(self.tabs[i].clone());
            i = i + 1;
        }
        proof {
            assert forall|k: int| 0 <= k < tabs@.len() implies tabs_view(tabs@)[k] == tabs_view(
                self.tabs@,
            )[k] by {
                lemma_tabs_view_index(tabs@, k);
                lemma_tabs_view_index(self.tabs@, k);
            }
            assert(tabs_view(tabs@) =~= tabs_view(self.tabs@));
        }
        PanelState { tabs, is_focused: self.is_focused, current_tab: self.current_tab }
    }
}

/// A blocking overlay workflow; at most one is active at a time.
#[derive(Debug)]
pub enum ModalType {
    RenameModal { panel_side: PanelSide, panel_tab: TabIdx, item: FileSystemItem },
    CreateModal {
        item_index: Option<usize>,
        panel_side: PanelSide,
        panel_tab: TabIdx,
        panel_tab_path: String,
    },
    ErrorModal(String),
    DeleteDirWithContent { panel_side: PanelSide, panel_tab: TabIdx, path: String },
}

/// Model of a modal.
pub ghost enum ModalModel {
    Rename { panel_side: PanelSide, panel_tab: int, item: ItemModel },
    Create { item_index: Option<int>, panel_side: PanelSide, panel_tab: int, panel_tab_path: Seq<char> },
    Error { message: Seq<char> },
    DeleteDirWithContent { panel_side: PanelSide, panel_tab: int, path: Seq<char> },
}

impl Clone for ModalType {
    fn clone(&self) -> (r: Self)
        ensures
            r@ == self@,
    {
        match self {
            ModalType::RenameModal { panel_side, panel_tab, item } => ModalType::RenameModal {
                panel_side: *panel_side,
                panel_tab: *panel_tab,
                item: item.clone(),
            },
            ModalType::CreateModal { item_index, panel_side, panel_tab, panel_tab_path } => ModalType::CreateModal {
                item_index: *item_index,
                panel_side: *panel_side,
                panel_tab: *panel_tab,
                panel_tab_path: panel_tab_path.clone(),
            },
            ModalType::ErrorModal(message) => ModalType::ErrorModal(message.clone()),
            ModalType::DeleteDirWithContent { panel_side, panel_tab, path } => ModalType::DeleteDirWithContent {
                panel_side: *panel_side,
                panel_tab: *panel_tab,
                path: path.clone(),
            },
        }
    }
}

impl View for ModalType {
    type V = ModalModel;

    open spec fn view(&self) -> ModalModel {
        match self {
            ModalType::RenameModal { panel_side, panel_tab, item } => ModalModel::Rename {
                panel_side: *panel_side,
                panel_tab: *panel_tab as int,
                item: item@,
            },
            ModalType::CreateModal { item_index, panel_side, panel_tab, panel_tab_path } => ModalModel::Create {
                item_index: match item_index {
                    Some(i) => Some(*i as int),
                    None => None,
                },
                panel_side: *panel_side,
                panel_tab: *panel_tab as int,
                panel_tab_path: panel_tab_path@,
            },
            ModalType::ErrorModal(message) => ModalModel::Error { message: message@ },
            ModalType::DeleteDirWithContent { panel_side, panel_tab, path } => ModalModel::DeleteDirWithContent {
                panel_side: *panel_side,
                panel_tab: *panel_tab as int,
                path: path@,
            },
        }
    }
}

/// Model of the whole application state, less the filesystem.
pub ghost struct AppModel {
    pub left_panel: PanelModel,
    pub right_panel: PanelModel,
    pub app_exit: bool,
    pub config: ConfigModel,
    pub child_program: Option<ChildModel>,
    pub modal: Option<ModalModel>,
}

/// The root snapshot: both panels, the exit flag, the active modal, the
/// pending child program, and the filesystem capability.
pub struct AppState<F: FileSystem> {
    pub left_panel: PanelState,
    pub right_panel: PanelState,
    pub app_exit: bool,
    pub config: Config,
    pub child_program: Option<ChildProgramDesc>,
    pub modal: Option<ModalType>,
    pub file_system: F,
}

impl<F: FileSystem> View for AppState<F> {
    type V = AppModel;

    open spec fn view(&self) -> AppModel {
        AppModel {
            left_panel: self.left_panel@,
            right_panel: self.right_panel@,
            app_exit: self.app_exit,
            config: self.config@,
            child_program: match &self.child_program {
                Some(c) => Some(c@),
                None => None,
            },
            modal: match &self.modal {
                Some(m) => Some(m@),
                None => None,
            },
        }
    }
}

/// Both panels are well formed and at most one of them is focused.
pub open spec fn app_wf(s: AppModel) -> bool {
    &&& panel_wf(s.left_panel)
    &&& panel_wf(s.right_panel)
    &&& !(s.left_panel.is_focused && s.right_panel.is_focused)
}

impl<F: FileSystem> AppState<F> {
    /// The starting state: two one-tab panels, nothing focused, no modal.
    pub fn new(config: Config, file_system: F) -> (r: Self)
        ensures
            r@.left_panel == spec_default_panel(),
            r@.right_panel == spec_default_panel(),
            r@.app_exit == false,
            r@.config == config@,
            r@.child_program is None,
            r@.modal is None,
            r.file_system.fs() == file_system.fs(),
            app_wf(r@),
    {
        AppState {
            left_panel: PanelState::default(),
            right_panel: PanelState::default(),
            app_exit: false,
            config,
            child_program: None,
            modal: None,
            file_system,
        }
    }
}

} // verus!
