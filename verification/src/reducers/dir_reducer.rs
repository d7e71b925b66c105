//! Directory operations: open in place or in a new tab, create, delete
//! (empty or with content), rename, move and copy.

use vstd::prelude::*;

use super::file_reducer::{rename_file, spec_file_rename_like};
use super::{
    other_panel_side, panel_of, reload_tab, reload_tab_contain_item, reload_tab_with_path,
    set_panel, set_tab_to_dir, spec_reload_tab, spec_reload_tab_contain_item,
    spec_reload_tab_with_path, spec_replace_tab_at,
};
use crate::actions::{DirectoryAction, DirectoryActionModel, PanelInfo, PanelSide};
use crate::config::{IconsConfig, IconsModel};
use crate::file_system::FileSystem;
use crate::fs_model::{
    fs_contains, spec_copy_dir, spec_create_dir, spec_delete_dir, spec_delete_empty_dir, FsEntry,
};
use crate::items::lemma_items_view_index;
use crate::paths::{join_path, spec_join};
use crate::state::{
    lemma_tabs_view_index, spec_tab_with_dir, tabs_view, AppModel, AppState, PanelModel,
    PanelState, TabIdx, TabModel, TabState,
};

verus! {

/// Whether the tab lists a directory or link at `path`.
pub open spec fn spec_tab_has_dir_at(t: TabModel, path: Seq<char>) -> bool {
    exists|i: int|
        0 <= i < t.items.len() && (#[trigger] t.items[i]).path == path && (t.items[i].is_dir()
            || t.items[i].is_link())
}

/// Whether the tab lists a directory or link at `path`.
pub fn tab_has_dir_at(tab: &TabState, path: &str) -> (r: bool)
    ensures
        r == spec_tab_has_dir_at(tab@, path@),
{
    let n = tab.items.len();
    let mut i: usize = 0;
    while i < n
        invariant
            i <= n,
            n == tab.items@.len(),
            forall|k: int|
                0 <= k < i ==> !((#[trigger] crate::items::items_view(tab.items@)[k]).path == path@
                    && (crate::items::items_view(tab.items@)[k].is_dir() || crate::items::items_view(
                    tab.items@,
                )[k].is_link())),
        decreases n - i,
    {
        proof {
            lemma_items_view_index(tab.items@, i as int);
        }
        if tab.items[i].is_dir() || tab.items[i].is_symlink() {
            let p = tab.items[i].get_path();
            if crate::paths::str_eq(p.as_str(), path) {
                proof {
                    assert(crate::items::items_view(tab.items@)[i as int].path == path@);
                }
                return true;
            }
        }
        i = i + 1;
    }
    proof {
        assert(!spec_tab_has_dir_at(tab@, path@));
    }
    false
}

/// Whether the tab lists a directory (and nothing else) at `path`.
pub open spec fn spec_tab_has_strict_dir_at(t: TabModel, path: Seq<char>) -> bool {
    exists|i: int|
        0 <= i < t.items.len() && (#[trigger] t.items[i]).path == path && t.items[i].is_dir()
}

/// Whether the tab lists a directory (and nothing else) at `path`.
pub fn tab_has_strict_dir_at(tab: &TabState, path: &str) -> (r: bool)
    ensures
        r == spec_tab_has_strict_dir_at(tab@, path@),
{
    let n = tab.items.len();
    let mut i: usize = 0;
    while i < n
        invariant
            i <= n,
            n == tab.items@.len(),
            forall|k: int|
                0 <= k < i ==> !((#[trigger] crate::items::items_view(tab.items@)[k]).path == path@
                    && crate::items::items_view(tab.items@)[k].is_dir()),
        decreases n - i,
    {
        proof {
            lemma_items_view_index(tab.items@, i as int);
        }
        if tab.items[i].is_dir() {
            let p = tab.items[i].get_path();
            if crate::paths::str_eq(p.as_str(), path) {
                proof {
                    assert(crate::items::items_view(tab.items@)[i as int].path == path@);
                }
                return true;
            }
        }
        i = i + 1;
    }
    proof {
        assert(!spec_tab_has_strict_dir_at(tab@, path@));
    }
    false
}

/// What deleting the listed directory at `path` (empty, or whole subtree
/// when `with_content`) from the tab at `tab` does.
pub open spec fn spec_dir_delete_tabs(
    tabs: Seq<TabModel>,
    other: Seq<TabModel>,
    path: Seq<char>,
    tab: int,
    with_content: bool,
    fs: Seq<FsEntry>,
    icons: IconsModel,
) -> (Seq<TabModel>, Seq<TabModel>, Seq<FsEntry>) {
    let op = if with_content {
        spec_delete_dir(fs, path)
    } else {
        spec_delete_empty_dir(fs, path)
    };
    if 0 <= tab < tabs.len() && spec_tab_has_dir_at(tabs[tab], path) && op.1 is Ok {
        let fs2 = op.0;
        (
            spec_reload_tab_contain_item(spec_reload_tab(tabs, tab, fs2, icons), path, fs2, icons),
            spec_reload_tab_contain_item(other, path, fs2, icons),
            fs2,
        )
    } else {
        (tabs, other, fs)
    }
}

/// What creating directory `dir_name` under `parent` from the tab at `tab`
/// does.
pub open spec fn spec_dir_create_tabs(
    tabs: Seq<TabModel>,
    other: Seq<TabModel>,
    dir_name: Seq<char>,
    parent: Seq<char>,
    tab: int,
    fs: Seq<FsEntry>,
    icons: IconsModel,
) -> (Seq<TabModel>, Seq<TabModel>, Seq<FsEntry>) {
    let full = spec_join(parent, dir_name);
    if 0 <= tab < tabs.len() && fs_contains(fs, parent) && spec_create_dir(fs, full).1 is Ok {
        let fs2 = spec_create_dir(fs, full).0;
        (
            spec_replace_tab_at(tabs, tab, spec_tab_with_dir(fs2, parent, icons)),
            spec_reload_tab_with_path(other, parent, fs2, icons),
            fs2,
        )
    } else {
        (tabs, spec_reload_tab_with_path(other, parent, fs, icons), fs)
    }
}

/// What copying the directory at `from` to `to`, acting in the tab at
/// `tab`, does.
pub open spec fn spec_dir_copy_tabs(
    tabs: Seq<TabModel>,
    other: Seq<TabModel>,
    from: Seq<char>,
    to: Seq<char>,
    tab: int,
    from_tab: int,
    fs: Seq<FsEntry>,
    icons: IconsModel,
) -> (Seq<TabModel>, Seq<TabModel>, Seq<FsEntry>) {
    if 0 <= tab < tabs.len() && spec_copy_dir(fs, from, to).1 is Ok {
        let fs2 = spec_copy_dir(fs, from, to).0;
        (spec_reload_tab(tabs, tab, fs2, icons), spec_reload_tab(other, from_tab, fs2, icons), fs2)
    } else {
        (tabs, spec_reload_tab(other, from_tab, fs, icons), fs)
    }
}

/// What opening a directory does to the acting panel's tabs: a new tab at
/// the back, or the acting tab retargeted when the directory is listed
/// there or exists.
pub open spec fn spec_dir_open_tabs(
    tabs: Seq<TabModel>,
    path: Seq<char>,
    tab: int,
    in_new_tab: bool,
    fs: Seq<FsEntry>,
    icons: IconsModel,
) -> Seq<TabModel> {
    if in_new_tab {
        tabs.push(spec_tab_with_dir(fs, path, icons))
    } else if 0 <= tab < tabs.len() && (spec_tab_has_strict_dir_at(tabs[tab], path) || fs_contains(
        fs,
        path,
    )) {
        spec_replace_tab_at(tabs, tab, spec_tab_with_dir(fs, path, icons))
    } else {
        tabs
    }
}

/// What the directory reducer does.
pub open spec fn spec_dir_reducer(s: AppModel, fs: Seq<FsEntry>, a: DirectoryActionModel) -> (
    AppModel,
    Seq<FsEntry>,
) {
    match a {
        DirectoryActionModel::Delete { panel, is_empty: _ } => {
            let p = panel_of(s, panel.side);
            let o = panel_of(s, other_panel_side(panel.side));
            let r = spec_dir_delete_tabs(
                p.tabs,
                o.tabs,
                panel.path,
                panel.tab,
                false,
                fs,
                s.config.icons,
            );
            (
                set_panel(
                    set_panel(s, panel.side, PanelModel { tabs: r.0, ..p }),
                    other_panel_side(panel.side),
                    PanelModel { tabs: r.1, ..o },
                ),
                r.2,
            )
        },
        DirectoryActionModel::DeleteWithContent { panel } => {
            let p = panel_of(s, panel.side);
            let o = panel_of(s, other_panel_side(panel.side));
            let r = spec_dir_delete_tabs(
                p.tabs,
                o.tabs,
                panel.path,
                panel.tab,
                true,
                fs,
                s.config.icons,
            );
            (
                set_panel(
                    set_panel(s, panel.side, PanelModel { tabs: r.0, ..p }),
                    other_panel_side(panel.side),
                    PanelModel { tabs: r.1, ..o },
                ),
                r.2,
            )
        },
        DirectoryActionModel::Create { dir_name, panel } => {
            let p = panel_of(s, panel.side);
            let o = panel_of(s, other_panel_side(panel.side));
            let r = spec_dir_create_tabs(
                p.tabs,
                o.tabs,
                dir_name,
                panel.path,
                panel.tab,
                fs,
                s.config.icons,
            );
            (
                set_panel(
                    set_panel(s, panel.side, PanelModel { tabs: r.0, ..p }),
                    other_panel_side(panel.side),
                    PanelModel { tabs: r.1, ..o },
                ),
                r.2,
            )
        },
        DirectoryActionModel::Open { panel, in_new_tab } => {
            let p = panel_of(s, panel.side);
            (
                set_panel(
                    s,
                    panel.side,
                    PanelModel {
                        tabs: spec_dir_open_tabs(
                            p.tabs,
                            panel.path,
                            panel.tab,
                            in_new_tab,
                            fs,
                            s.config.icons,
                        ),
                        ..p
                    },
                ),
                fs,
            )
        },
        DirectoryActionModel::Rename { from, to } => spec_file_rename_like(s, fs, from, to),
        DirectoryActionModel::Move { from, to } => spec_file_rename_like(s, fs, from, to),
        DirectoryActionModel::Copy { from, to } => {
            let p = panel_of(s, to.side);
            let o = panel_of(s, other_panel_side(to.side));
            let r = spec_dir_copy_tabs(
                p.tabs,
                o.tabs,
                from.path,
                to.path,
                to.tab,
                from.tab,
                fs,
                s.config.icons,
            );
            (
                set_panel(
                    set_panel(s, to.side, PanelModel { tabs: r.0, ..p }),
                    other_panel_side(to.side),
                    PanelModel { tabs: r.1, ..o },
                ),
                r.2,
            )
        },
    }
}

/// Applies a directory action.
pub fn dir_reducer<F: FileSystem>(state: AppState<F>, dir_action: DirectoryAction) -> (r: AppState<
    F,
>)
    ensures
        (r@, r.file_system.fs()) == spec_dir_reducer(state@, state.file_system.fs(), dir_action@),
{
    match dir_action {
        DirectoryAction::Delete { panel, .. } => delete_dir(state, panel),
        DirectoryAction::Rename { from, to } => rename_dir(state, from, to),
        DirectoryAction::Move { from, to } => rename_dir(state, from, to),
        DirectoryAction::Open { panel, in_new_tab } => open_dir(state, panel, in_new_tab),
        DirectoryAction::Create { dir_name, panel } => create_directory(state, dir_name, panel),
        DirectoryAction::DeleteWithContent { panel } => delete_dir_with_content(state, panel),
        DirectoryAction::Copy { from, to } => copy_dir(state, from, to),
    }
}

/// Deletes the listed directory when it is empty, after which every tab
/// that showed it reopens.
pub fn delete_dir<F: FileSystem>(state: AppState<F>, panel: PanelInfo) -> (r: AppState<F>)
    ensures
        (r@, r.file_system.fs()) == spec_dir_reducer(
            state@,
            state.file_system.fs(),
            DirectoryActionModel::Delete { panel: panel@, is_empty: true },
        ),
{
    let AppState { left_panel, right_panel, app_exit, config, child_program, modal, mut file_system } =
        state;
    match panel.side {
        PanelSide::Left => {
            let (mine, theirs) = delete_dir_from_tab(
                panel.path.as_str(),
                panel.tab,
                false,
                left_panel.tabs,
                right_panel.tabs,
                &mut file_system,
                &config.icons,
            );
            AppState {
                left_panel: PanelState {
                    tabs: mine,
                    is_focused: left_panel.is_focused,
                    current_tab: left_panel.current_tab,
                },
                right_panel: PanelState {
                    tabs: theirs,
                    is_focused: right_panel.is_focused,
                    current_tab: right_panel.current_tab,
                },
                app_exit,
                config,
                child_program,
                modal,
                file_system,
            }
        },
        PanelSide::Right => {
            let (mine, theirs) = delete_dir_from_tab(
                panel.path.as_str(),
                panel.tab,
                false,
                right_panel.tabs,
                left_panel.tabs,
                &mut file_system,
                &config.icons,
            );
            AppState {
                left_panel: PanelState {
                    tabs: theirs,
                    is_focused: left_panel.is_focused,
                    current_tab: left_panel.current_tab,
                },
                right_panel: PanelState {
                    tabs: mine,
                    is_focused: right_panel.is_focused,
                    current_tab: right_panel.current_tab,
                },
                app_exit,
                config,
                child_program,
                modal,
                file_system,
            }
        },
    }
}

/// Deletes the listed directory with everything in it, after which every
/// tab that showed it reopens.
pub fn delete_dir_with_content<F: FileSystem>(state: AppState<F>, panel: PanelInfo) -> (r: AppState<
    F,
>)
    ensures
        (r@, r.file_system.fs()) == spec_dir_reducer(
            state@,
            state.file_system.fs(),
            DirectoryActionModel::DeleteWithContent { panel: panel@ },
        ),
{
    let AppState { left_panel, right_panel, app_exit, config, child_program, modal, mut file_system } =
        state;
    match panel.side {
        PanelSide::Left => {
            let (mine, theirs) = delete_dir_from_tab(
                panel.path.as_str(),
                panel.tab,
                true,
                left_panel.tabs,
                right_panel.tabs,
                &mut file_system,
                &config.icons,
            );
            AppState {
                left_panel: PanelState {
                    tabs: mine,
                    is_focused: left_panel.is_focused,
                    current_tab: left_panel.current_tab,
                },
                right_panel: PanelState {
                    tabs: theirs,
                    is_focused: right_panel.is_focused,
                    current_tab: right_panel.current_tab,
                },
                app_exit,
                config,
                child_program,
                modal,
                file_system,
            }
        },
        PanelSide::Right => {
            let (mine, theirs) = delete_dir_from_tab(
                panel.path.as_str(),
                panel.tab,
                true,
                right_panel.tabs,
                left_panel.tabs,
                &mut file_system,
                &config.icons,
            );
            AppState {
                left_panel: PanelState {
                    tabs: theirs,
                    is_focused: left_panel.is_focused,
                    current_tab: left_panel.current_tab,
                },
                right_panel: PanelState {
                    tabs: mine,
                    is_focused: right_panel.is_focused,
                    current_tab: right_panel.current_tab,
                },
                app_exit,
                config,
                child_program,
                modal,
                file_system,
            }
        },
    }
}

/// Deletes a listed directory and reopens the tabs that showed it.
pub fn delete_dir_from_tab<F: FileSystem>(
    path: &str,
    current_tab: TabIdx,
    with_content: bool,
    tabs: Vec<TabState>,
    other: Vec<TabState>,
    file_system: &mut F,
    icons: &IconsConfig,
) -> (r: (Vec<TabState>, Vec<TabState>))
    ensures
        ({
            let t = spec_dir_delete_tabs(
                tabs_view(tabs@),
                tabs_view(other@),
                path@,
                current_tab as int,
                with_content,
                old(file_system).fs(),
                icons@,
            );
            tabs_view(r.0@) == t.0 && tabs_view(r.1@) == t.1 && final(file_system).fs() == t.2
        }),
{
    if !(current_tab < tabs.len() && tab_has_dir_at(&tabs[current_tab], path)) {
        proof {
            if (current_tab as int) < tabs@.len() {
                lemma_tabs_view_index(tabs@, current_tab as int);
            }
        }
        return (tabs, other);
    }
    proof {
        lemma_tabs_view_index(tabs@, current_tab as int);
    }
    let outcome = if with_content {
        file_system.delete_dir(path)
    } else {
        file_system.delete_empty_dir(path)
    };
    match outcome {
        Ok(_) => {
            let tabs1 = reload_tab(current_tab, tabs, &*file_system, icons);
            let tabs2 = reload_tab_contain_item(path, tabs1, &*file_system, icons);
            let other2 = reload_tab_contain_item(path, other, &*file_system, icons);
            (tabs2, other2)
        },
        Err(_) => (tabs, other),
    }
}

/// Creates a directory under the one named by `panel`.
pub fn create_directory<F: FileSystem>(state: AppState<F>, dir_name: String, panel: PanelInfo) -> (r:
    AppState<F>)
    ensures
        (r@, r.file_system.fs()) == spec_dir_reducer(
            state@,
            state.file_system.fs(),
            DirectoryActionModel::Create { dir_name: dir_name@, panel: panel@ },
        ),
{
    let AppState { left_panel, right_panel, app_exit, config, child_program, modal, mut file_system } =
        state;
    match panel.side {
        PanelSide::Left => {
            let (mine, theirs) = create_directory_in_tab(
                dir_name,
                panel.path.as_str(),
                panel.tab,
                left_panel.tabs,
                right_panel.tabs,
                &mut file_system,
                &config.icons,
            );
            AppState {
                left_panel: PanelState {
                    tabs: mine,
                    is_focused: left_panel.is_focused,
                    current_tab: left_panel.current_tab,
                },
                right_panel: PanelState {
                    tabs: theirs,
                    is_focused: right_panel.is_focused,
                    current_tab: right_panel.current_tab,
                },
                app_exit,
                config,
                child_program,
                modal,
                file_system,
            }
        },
        PanelSide::Right => {
            let (mine, theirs) = create_directory_in_tab(
                dir_name,
                panel.path.as_str(),
                panel.tab,
                right_panel.tabs,
                left_panel.tabs,
                &mut file_system,
                &config.icons,
            );
            AppState {
                left_panel: PanelState {
                    tabs: theirs,
                    is_focused: left_panel.is_focused,
                    current_tab: left_panel.current_tab,
                },
                right_panel: PanelState {
                    tabs: mine,
                    is_focused: right_panel.is_focused,
                    current_tab: right_panel.current_tab,
                },
                app_exit,
                config,
                child_program,
                modal,
                file_system,
            }
        },
    }
}

/// Creates `dir_name` under `parent_path` and reopens the tabs that show
/// the parent.
pub fn create_directory_in_tab<F: FileSystem>(
    dir_name: String,
    parent_path: &str,
    tab: TabIdx,
    tabs: Vec<TabState>,
    other: Vec<TabState>,
    file_system: &mut F,
    icons: &IconsConfig,
) -> (r: (Vec<TabState>, Vec<TabState>))
    ensures
        ({
            let t = spec_dir_create_tabs(
                tabs_view(tabs@),
                tabs_view(other@),
                dir_name@,
                parent_path@,
                tab as int,
                old(file_system).fs(),
                icons@,
            );
            tabs_view(r.0@) == t.0 && tabs_view(r.1@) == t.1 && final(file_system).fs() == t.2
        }),
{
    if tab < tabs.len() && file_system.exist(parent_path) {
        let dir_path = join_path(parent_path, dir_name.as_str());
        match file_system.create_dir(dir_path.as_str()) {
            Ok(_) => {
                let mine = set_tab_to_dir(tabs, tab, parent_path, &*file_system, icons);
                let theirs = reload_tab_with_path(parent_path, other, &*file_system, icons);
                (mine, theirs)
            },
            Err(_) => {
                let theirs = reload_tab_with_path(parent_path, other, &*file_system, icons);
                (tabs, theirs)
            },
        }
    } else {
        let theirs = reload_tab_with_path(parent_path, other, &*file_system, icons);
        (tabs, theirs)
    }
}

/// Opens the directory named by `panel`, in place or in a new tab.
pub fn open_dir<F: FileSystem>(state: AppState<F>, panel: PanelInfo, in_new_tab: bool) -> (r:
    AppState<F>)
    ensures
        (r@, r.file_system.fs()) == spec_dir_reducer(
            state@,
            state.file_system.fs(),
            DirectoryActionModel::Open { panel: panel@, in_new_tab },
        ),
{
    let mut state = state;
    match panel.side {
        PanelSide::Left => {
            let mut tabs: Vec<TabState> = Vec::new();
            core::mem::swap(&mut tabs, &mut state.left_panel.tabs);
            let tabs = open_dir_in_tab(
                panel.path.as_str(),
                panel.tab,
                in_new_tab,
                tabs,
                &state.file_system,
                &state.config.icons,
            );
            state.left_panel.tabs = tabs;
        },
        PanelSide::Right => {
            let mut tabs: Vec<TabState> = Vec::new();
            core::mem::swap(&mut tabs, &mut state.right_panel.tabs);
            let tabs = open_dir_in_tab(
                panel.path.as_str(),
                panel.tab,
                in_new_tab,
                tabs,
                &state.file_system,
                &state.config.icons,
            );
            state.right_panel.tabs = tabs;
        },
    }
    state
}

/// Retargets the tab at `tab` to `path`, or appends a new tab on it.
pub fn open_dir_in_tab<F: FileSystem>(
    path: &str,
    tab: TabIdx,
    in_new_tab: bool,
    tabs: Vec<TabState>,
    file_system: &F,
    icons: &IconsConfig,
) -> (r: Vec<TabState>)
    ensures
        tabs_view(r@) == spec_dir_open_tabs(
            tabs_view(tabs@),
            path@,
            tab as int,
            in_new_tab,
            file_system.fs(),
            icons@,
        ),
{
    let ghost v = tabs_view(tabs@);
    if in_new_tab {
        let mut tabs = tabs;
        tabs.push(TabState::with_dir(path, file_system, icons));
        proof {
            assert forall|k: int| 0 <= k < tabs@.len() implies tabs_view(tabs@)[k] == v.push(
                spec_tab_with_dir(file_system.fs(), path@, icons@),
            )[k] by {
                lemma_tabs_view_index(tabs@, k);
                if k < v.len() {
                    lemma_tabs_view_index(tabs@.subrange(0, v.len() as int), k);
                }
            }
            assert(tabs_view(tabs@) =~= v.push(spec_tab_with_dir(file_system.fs(), path@, icons@)));
        }
        tabs
    } else {
        if tab < tabs.len() && (tab_has_strict_dir_at(&tabs[tab], path) || file_system.exist(
            path,
        )) {
            proof {
                lemma_tabs_view_index(tabs@, tab as int);
            }
            set_tab_to_dir(tabs, tab, path, file_system, icons)
        } else {
            proof {
                if 0 <= tab < tabs@.len() {
                    lemma_tabs_view_index(tabs@, tab as int);
                }
            }
            tabs
        }
    }
}

/// Renames or moves a directory; the link path machinery is the same as
/// for files.
pub fn rename_dir<F: FileSystem>(state: AppState<F>, from: PanelInfo, to: PanelInfo) -> (r:
    AppState<F>)
    ensures
        (r@, r.file_system.fs()) == spec_file_rename_like(
            state@,
            state.file_system.fs(),
            from@,
            to@,
        ),
{
    rename_file(state, from, to)
}

/// Copies a directory and reloads the destination and source tabs.
pub fn copy_dir<F: FileSystem>(state: AppState<F>, from: PanelInfo, to: PanelInfo) -> (r: AppState<
    F,
>)
    ensures
        (r@, r.file_system.fs()) == spec_dir_reducer(
            state@,
            state.file_system.fs(),
            DirectoryActionModel::Copy { from: from@, to: to@ },
        ),
{
    let AppState { left_panel, right_panel, app_exit, config, child_program, modal, mut file_system } =
        state;
    match to.side {
        PanelSide::Left => {
            let (mine, theirs) = copy_dir_to_tab(
                from.path.as_str(),
                to.path.as_str(),
                to.tab,
                from.tab,
                left_panel.tabs,
                right_panel.tabs,
                &mut file_system,
                &config.icons,
            );
            AppState {
                left_panel: PanelState {
                    tabs: mine,
                    is_focused: left_panel.is_focused,
                    current_tab: left_panel.current_tab,
                },
                right_panel: PanelState {
                    tabs: theirs,
                    is_focused: right_panel.is_focused,
                    current_tab: right_panel.current_tab,
                },
                app_exit,
                config,
                child_program,
                modal,
                file_system,
            }
        },
        PanelSide::Right => {
            let (mine, theirs) = copy_dir_to_tab(
                from.path.as_str(),
                to.path.as_str(),
                to.tab,
                from.tab,
                right_panel.tabs,
                left_panel.tabs,
                &mut file_system,
                &config.icons,
            );
            AppState {
                left_panel: PanelState {
                    tabs: theirs,
                    is_focused: left_panel.is_focused,
                    current_tab: left_panel.current_tab,
                },
                right_panel: PanelState {
                    tabs: mine,
                    is_focused: right_panel.is_focused,
                    current_tab: right_panel.current_tab,
                },
                app_exit,
                config,
                child_program,
                modal,
                file_system,
            }
        },
    }
}

/// Copies the tree at `from` to `to` and reopens the destination tab; the
/// other panel's tab at the source index reopens as well.
pub fn copy_dir_to_tab<F: FileSystem>(
    from: &str,
    to: &str,
    current_tab: TabIdx,
    from_tab: TabIdx,
    tabs: Vec<TabState>,
    other: Vec<TabState>,
    file_system: &mut F,
    icons: &IconsConfig,
) -> (r: (Vec<TabState>, Vec<TabState>))
    ensures
        ({
            let t = spec_dir_copy_tabs(
                tabs_view(tabs@),
                tabs_view(other@),
                from@,
                to@,
                current_tab as int,
                from_tab as int,
                old(file_system).fs(),
                icons@,
            );
            tabs_view(r.0@) == t.0 && tabs_view(r.1@) == t.1 && final(file_system).fs() == t.2
        }),
{
    if !(current_tab < tabs.len()) {
        let theirs = reload_tab(from_tab, other, &*file_system, icons);
        return (tabs, theirs);
    }
    match file_system.copy_dir(from, to) {
        Ok(_) => {
            let mine = reload_tab(current_tab, tabs, &*file_system, icons);
            let theirs = reload_tab(from_tab, other, &*file_system, icons);
            (mine, theirs)
        },
        Err(_) => {
            let theirs = reload_tab(from_tab, other, &*file_system, icons);
            (tabs, theirs)
        },
    }
}

} // verus!
