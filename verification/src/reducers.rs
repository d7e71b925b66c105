//! The reducer tree: pure functions from state and action to the next
//! state, one per action category, composed by a root dispatcher.

use vstd::prelude::*;

use crate::actions::{
    ActionModel, AppAction, AppActionModel, FileManagerActions, PanelSide,
};
use crate::config::{IconsConfig, IconsModel};
use crate::file_system::FileSystem;
use crate::fs_model::FsEntry;
use crate::items::lemma_items_view_index;
use crate::state::{
    lemma_tabs_view_index, spec_tab_with_dir, tabs_view, AppModel, AppState, PanelModel, TabIdx,
    TabModel, TabState,
};

pub mod dir_reducer;
pub mod file_reducer;
pub mod panel_reducer;
pub mod search_reducer;
pub mod symlink_reducer;
pub mod tab_reducer;

pub use dir_reducer::{dir_reducer, spec_dir_reducer};
pub use file_reducer::{file_reducer, spec_file_reducer};
pub use panel_reducer::{panel_reducer, spec_panel_reducer};
pub use search_reducer::{search_reducer, spec_search_reducer};
pub use symlink_reducer::{spec_symlink_reducer, symlink_reducer};
pub use tab_reducer::{spec_tab_reducer, tab_reducer};

verus! {

/// The panel an action does not address.
pub open spec fn other_panel_side(side: PanelSide) -> PanelSide {
    if side == PanelSide::Left {
        PanelSide::Right
    } else {
        PanelSide::Left
    }
}

/// The panel of `s` on `side`.
pub open spec fn panel_of(s: AppModel, side: PanelSide) -> PanelModel {
    if side == PanelSide::Left {
        s.left_panel
    } else {
        s.right_panel
    }
}

/// `s` with the panel on `side` replaced.
pub open spec fn set_panel(s: AppModel, side: PanelSide, p: PanelModel) -> AppModel {
    if side == PanelSide::Left {
        AppModel { left_panel: p, ..s }
    } else {
        AppModel { right_panel: p, ..s }
    }
}

/// The tabs with the one at `idx` reopened on its own path.
pub open spec fn spec_reload_tab(
    tabs: Seq<TabModel>,
    idx: int,
    fs: Seq<FsEntry>,
    icons: IconsModel,
) -> Seq<TabModel> {
    Seq::new(
        tabs.len(),
        |i: int|
            if i == idx {
                spec_tab_with_dir(fs, tabs[i].path, icons)
            } else {
                tabs[i]
            },
    )
}

/// The tabs with every tab at `path` reopened.
pub open spec fn spec_reload_tab_with_path(
    tabs: Seq<TabModel>,
    path: Seq<char>,
    fs: Seq<FsEntry>,
    icons: IconsModel,
) -> Seq<TabModel> {
    Seq::new(
        tabs.len(),
        |i: int|
            if tabs[i].path == path {
                spec_tab_with_dir(fs, tabs[i].path, icons)
            } else {
                tabs[i]
            },
    )
}

/// Whether the tab's listing names `path`.
pub open spec fn spec_tab_contains(t: TabModel, path: Seq<char>) -> bool {
    exists|i: int| 0 <= i < t.items.len() && (#[trigger] t.items[i]).path == path
}

/// The tabs with every tab whose listing names `path` reopened: no tab may
/// keep displaying an entry that no longer exists or has moved.
pub open spec fn spec_reload_tab_contain_item(
    tabs: Seq<TabModel>,
    path: Seq<char>,
    fs: Seq<FsEntry>,
    icons: IconsModel,
) -> Seq<TabModel> {
    Seq::new(
        tabs.len(),
        |i: int|
            if spec_tab_contains(tabs[i], path) {
                spec_tab_with_dir(fs, tabs[i].path, icons)
            } else {
                tabs[i]
            },
    )
}

/// The tabs with the one at `idx` replaced by `t`.
pub open spec fn spec_replace_tab_at(tabs: Seq<TabModel>, idx: int, t: TabModel) -> Seq<TabModel> {
    Seq::new(
        tabs.len(),
        |i: int|
            if i == idx {
                t
            } else {
                tabs[i]
            },
    )
}

/// Replaces the tab at `idx` by a tab freshly opened on `dir`.
pub fn set_tab_to_dir<F: FileSystem>(
    tabs: Vec<TabState>,
    idx: TabIdx,
    dir: &str,
    file_system: &F,
    icons_cfg: &IconsConfig,
) -> (r: Vec<TabState>)
    ensures
        tabs_view(r@) == spec_replace_tab_at(
            tabs_view(tabs@),
            idx as int,
            spec_tab_with_dir(file_system.fs(), dir@, icons_cfg@),
        ),
{
    let ghost v = tabs_view(tabs@);
    let ghost target = spec_replace_tab_at(
        v,
        idx as int,
        spec_tab_with_dir(file_system.fs(), dir@, icons_cfg@),
    );
    let mut result: Vec<TabState> = Vec::new();
    let n = tabs.len();
    let mut i: usize = 0;
    while i < n
        invariant
            i <= n,
            n == tabs@.len(),
            v == tabs_view(tabs@),
            target == spec_replace_tab_at(
                v,
                idx as int,
                spec_tab_with_dir(file_system.fs(), dir@, icons_cfg@),
            ),
            result@.len() == i,
            forall|k: int| 0 <= k < i ==> (#[trigger] result@[k])@ == target[k],
        decreases n - i,
    {
        proof {
            lemma_tabs_view_index(tabs@, i as int);
        }
        if i == idx {
            result.push(TabState::with_dir(dir, file_system, icons_cfg));
        } else {
            result.push(tabs[i].clone());
        }
        i = i + 1;
    }
    proof {
        assert forall|k: int| 0 <= k < n implies tabs_view(result@)[k] == target[k] by {
            lemma_tabs_view_index(result@, k);
        }
        assert(tabs_view(result@) =~= target);
    }
    result
}

/// What the application reducer does: exit, focus, modal and child-program
/// bookkeeping.
pub open spec fn spec_app_reducer(s: AppModel, a: AppActionModel) -> AppModel {
    match a {
        AppActionModel::Exit => AppModel { app_exit: true, ..s },
        AppActionModel::FocusLeft => AppModel {
            left_panel: PanelModel { is_focused: true, ..s.left_panel },
            right_panel: PanelModel { is_focused: false, ..s.right_panel },
            ..s
        },
        AppActionModel::FocusRight => AppModel {
            left_panel: PanelModel { is_focused: false, ..s.left_panel },
            right_panel: PanelModel { is_focused: true, ..s.right_panel },
            ..s
        },
        AppActionModel::ChildProgramClosed => AppModel { child_program: None, ..s },
        AppActionModel::ShowModal(m) => AppModel { modal: Some(m), ..s },
        AppActionModel::CloseModal => AppModel { modal: None, ..s },
    }
}

/// What the whole reducer tree does: one sub-reducer per action category.
pub open spec fn spec_root_reducer(s: AppModel, fs: Seq<FsEntry>, a: ActionModel) -> (
    AppModel,
    Seq<FsEntry>,
) {
    match a {
        ActionModel::App(app_action) => (spec_app_reducer(s, app_action), fs),
        ActionModel::File(file_action) => spec_file_reducer(s, fs, file_action),
        ActionModel::Directory(dir_action) => spec_dir_reducer(s, fs, dir_action),
        ActionModel::Symlink(symlink_action) => spec_symlink_reducer(s, fs, symlink_action),
        ActionModel::Panel(panel_action) => (spec_panel_reducer(s, panel_action), fs),
        ActionModel::Tab(tab_action) => spec_tab_reducer(s, fs, tab_action),
        ActionModel::Search(search_action) => (spec_search_reducer(s, search_action), fs),
    }
}

/// Dispatches on the action's top-level tag.
pub fn root_reducer<F: FileSystem>(state: AppState<F>, action: FileManagerActions) -> (r: AppState<
    F,
>)
    ensures
        (r@, r.file_system.fs()) == spec_root_reducer(state@, state.file_system.fs(), action@),
{
    match action {
        FileManagerActions::App(app_action) => app_reducer(state, app_action),
        FileManagerActions::File(file_action) => file_reducer(state, file_action),
        FileManagerActions::Directory(dir_action) => dir_reducer(state, dir_action),
        FileManagerActions::Symlink(symlink_action) => symlink_reducer(state, symlink_action),
        FileManagerActions::Panel(panel_action) => panel_reducer(state, panel_action),
        FileManagerActions::Tab(tab_action) => tab_reducer(state, tab_action),
        FileManagerActions::Search(search_action) => search_reducer(state, search_action),
    }
}

/// Applies an application-wide action.
pub fn app_reducer<F: FileSystem>(state: AppState<F>, app_action: AppAction) -> (r: AppState<F>)
    ensures
        r@ == spec_app_reducer(state@, app_action@),
        r.file_system.fs() == state.file_system.fs(),
{
    let mut state = state;
    match app_action {
        AppAction::Exit => {
            state.app_exit = true;
            state
        },
        AppAction::FocusLeft => {
            state.left_panel.is_focused = true;
            state.right_panel.is_focused = false;
            state
        },
        AppAction::FocusRight => {
            state.left_panel.is_focused = false;
            state.right_panel.is_focused = true;
            state
        },
        AppAction::ChildProgramClosed => {
            state.child_program = None;
            state
        },
        AppAction::ShowModal(modal_type) => {
            state.modal = Some(modal_type);
            state
        },
        AppAction::CloseModal => {
            state.modal = None;
            state
        },
    }
}

/// Reopens the tab at index `tab` on its own path.
pub fn reload_tab<F: FileSystem>(
    tab: TabIdx,
    tabs: Vec<TabState>,
    file_system: &F,
    icons_cfg: &IconsConfig,
) -> (r: Vec<TabState>)
    ensures
        tabs_view(r@) == spec_reload_tab(tabs_view(tabs@), tab as int, file_system.fs(), icons_cfg@),
{
    let ghost v = tabs_view(tabs@);
    let ghost target = spec_reload_tab(v, tab as int, file_system.fs(), icons_cfg@);
    let mut result: Vec<TabState> = Vec::new();
    let n = tabs.len();
    let mut i: usize = 0;
    while i < n
        invariant
            i <= n,
            n == tabs@.len(),
            v == tabs_view(tabs@),
            target == spec_reload_tab(v, tab as int, file_system.fs(), icons_cfg@),
            result@.len() == i,
            forall|k: int| 0 <= k < i ==> (#[trigger] result@[k])@ == target[k],
        decreases n - i,
    {
        proof {
            lemma_tabs_view_index(tabs@, i as int);
        }
        if i == tab {
            result.push(TabState::with_dir(tabs[i].path.as_str(), file_system, icons_cfg));
        } else {
            result.push(tabs[i].clone());
        }
        i = i + 1;
    }
    proof {
        assert forall|k: int| 0 <= k < n implies tabs_view(result@)[k] == target[k] by {
            lemma_tabs_view_index(result@, k);
        }
        assert(tabs_view(result@) =~= target);
    }
    result
}

/// Reopens every tab standing at `tab_path`.
pub fn reload_tab_with_path<F: FileSystem>(
    tab_path: &str,
    tabs: Vec<TabState>,
    file_system: &F,
    icons_cfg: &IconsConfig,
) -> (r: Vec<TabState>)
    ensures
        tabs_view(r@) == spec_reload_tab_with_path(
            tabs_view(tabs@),
            tab_path@,
            file_system.fs(),
            icons_cfg@,
        ),
{
    let ghost v = tabs_view(tabs@);
    let ghost target = spec_reload_tab_with_path(v, tab_path@, file_system.fs(), icons_cfg@);
    let mut result: Vec<TabState> = Vec::new();
    let n = tabs.len();
    let mut i: usize = 0;
    while i < n
        invariant
            i <= n,
            n == tabs@.len(),
            v == tabs_view(tabs@),
            target == spec_reload_tab_with_path(v, tab_path@, file_system.fs(), icons_cfg@),
            result@.len() == i,
            forall|k: int| 0 <= k < i ==> (#[trigger] result@[k])@ == target[k],
        decreases n - i,
    {
        proof {
            lemma_tabs_view_index(tabs@, i as int);
        }
        if crate::paths::str_eq(tabs[i].path.as_str(), tab_path) {
            result.push(TabState::with_dir(tabs[i].path.as_str(), file_system, icons_cfg));
        } else {
            result.push(tabs[i].clone());
        }
        i = i + 1;
    }
    proof {
        assert forall|k: int| 0 <= k < n implies tabs_view(result@)[k] == target[k] by {
            lemma_tabs_view_index(result@, k);
        }
        assert(tabs_view(result@) =~= target);
    }
    result
}

/// Whether the tab's listing names `path`.
pub fn tab_lists_path(tab_state: &TabState, path: &str) -> (r: bool)
    ensures
        r == spec_tab_contains(tab_state@, path@),
{
    let n = tab_state.items.len();
    let mut i: usize = 0;
    while i < n
        invariant
            i <= n,
            n == tab_state.items@.len(),
            forall|k: int|
                0 <= k < i ==> (#[trigger] crate::items::items_view(tab_state.items@)[k]).path
                    != path@,
        decreases n - i,
    {
        proof {
            lemma_items_view_index(tab_state.items@, i as int);
        }
        let item_path = tab_state.items[i].get_path();
        if crate::paths::str_eq(item_path.as_str(), path) {
            proof {
                assert(crate::items::items_view(tab_state.items@)[i as int].path == path@);
            }
            return true;
        }
        i = i + 1;
    }
    proof {
        assert(!spec_tab_contains(tab_state@, path@));
    }
    false
}

/// Reopens the tab when its listing names `path`.
pub fn reload_if_contain<F: FileSystem>(
    tab_state: &TabState,
    path: &str,
    file_system: &F,
    icons_cfg: &IconsConfig,
) -> (r: TabState)
    ensures
        r@ == if spec_tab_contains(tab_state@, path@) {
            spec_tab_with_dir(file_system.fs(), tab_state@.path, icons_cfg@)
        } else {
            tab_state@
        },
{
    if tab_lists_path(tab_state, path) {
        TabState::with_dir(tab_state.path.as_str(), file_system, icons_cfg)
    } else {
        tab_state.clone()
    }
}

/// Reopens every tab whose listing names `path`.
pub fn reload_tab_contain_item<F: FileSystem>(
    path: &str,
    tabs: Vec<TabState>,
    file_system: &F,
    icons_cfg: &IconsConfig,
) -> (r: Vec<TabState>)
    ensures
        tabs_view(r@) == spec_reload_tab_contain_item(
            tabs_view(tabs@),
            path@,
            file_system.fs(),
            icons_cfg@,
        ),
{
    let ghost v = tabs_view(tabs@);
    let ghost target = spec_reload_tab_contain_item(v, path@, file_system.fs(), icons_cfg@);
    let mut result: Vec<TabState> = Vec::new();
    let n = tabs.len();
    let mut i: usize = 0;
    while i < n
        invariant
            i <= n,
            n == tabs@.len(),
            v == tabs_view(tabs@),
            target == spec_reload_tab_contain_item(v, path@, file_system.fs(), icons_cfg@),
            result@.len() == i,
            forall|k: int| 0 <= k < i ==> (#[trigger] result@[k])@ == target[k],
        decreases n - i,
    {
        proof {
            lemma_tabs_view_index(tabs@, i as int);
        }
        result.push(reload_if_contain(&tabs[i], path, file_system, icons_cfg));
        i = i + 1;
    }
    proof {
        assert forall|k: int| 0 <= k < n implies tabs_view(result@)[k] == target[k] by {
            lemma_tabs_view_index(result@, k);
        }
        assert(tabs_view(result@) =~= target);
    }
    result
}

} // verus!
