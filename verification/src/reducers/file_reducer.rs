//! File operations: create, delete, rename, move, copy and open, each
//! performed through the capability and followed by the reloads that keep
//! both panels consistent.

use vstd::prelude::*;

use super::{
    other_panel_side, panel_of, reload_tab, reload_tab_contain_item, reload_tab_with_path,
    set_panel, set_tab_to_dir, spec_reload_tab, spec_reload_tab_contain_item,
    spec_reload_tab_with_path, spec_replace_tab_at,
};
use crate::actions::{FileAction, FileActionModel, PanelInfo, PanelInfoModel, PanelSide};
use crate::config::{FileAssociatedPrograms, IconsConfig, IconsModel};
use crate::file_system::FileSystem;
use crate::fs_model::{
    fs_contains, fs_is_file, spec_copy_file, spec_create_file, spec_delete_file, spec_rename,
    FsEntry,
};
use crate::items::lemma_items_view_index;
use crate::paths::{base_name, base_name_of, join_path, spec_join};
use crate::state::{
    lemma_tabs_view_index, spec_tab_with_dir, tabs_view, AppModel, AppState, ChildModel,
    ChildProgramDesc, PanelModel, PanelState, TabIdx, TabModel, TabState,
};
use crate::text::{extension_key, extension_key_of};

verus! {

/// Whether the tab lists a file or link at `path`.
pub open spec fn spec_tab_has_file_at(t: TabModel, path: Seq<char>) -> bool {
    exists|i: int|
        0 <= i < t.items.len() && (#[trigger] t.items[i]).path == path && (t.items[i].is_file()
            || t.items[i].is_link())
}

/// Whether the tab lists a file or link at `path`.
pub fn tab_has_file_at(tab: &TabState, path: &str) -> (r: bool)
    ensures
        r == spec_tab_has_file_at(tab@, path@),
{
    let n = tab.items.len();
    let mut i: usize = 0;
    while i < n
        invariant
            i <= n,
            n == tab.items@.len(),
            forall|k: int|
                0 <= k < i ==> !((#[trigger] crate::items::items_view(tab.items@)[k]).path == path@
                    && (crate::items::items_view(tab.items@)[k].is_file() || crate::items::items_view(
                    tab.items@,
                )[k].is_link())),
        decreases n - i,
    {
        proof {
            lemma_items_view_index(tab.items@, i as int);
        }
        if tab.items[i].is_file() || tab.items[i].is_symlink() {
            let p = tab.items[i].get_path();
            if crate::paths::str_eq(p.as_str(), path) {
                proof {
                    assert(crate::items::items_view(tab.items@)[i as int].path == path@);
                }
                return true;
            }
        }
        i = i + 1;
    }
    proof {
        assert(!spec_tab_has_file_at(tab@, path@));
    }
    false
}

/// What deleting the file at `path` from the tab at `tab` does to the
/// acting panel's tabs, the other panel's tabs and the filesystem: on
/// success the acting tab reopens and every tab listing the path reopens.
pub open spec fn spec_file_delete_tabs(
    tabs: Seq<TabModel>,
    other: Seq<TabModel>,
    path: Seq<char>,
    tab: int,
    fs: Seq<FsEntry>,
    icons: IconsModel,
) -> (Seq<TabModel>, Seq<TabModel>, Seq<FsEntry>) {
    if 0 <= tab < tabs.len() && spec_tab_has_file_at(tabs[tab], path) && spec_delete_file(
        fs,
        path,
    ).1 is Ok {
        let fs2 = spec_delete_file(fs, path).0;
        (
            spec_reload_tab_contain_item(spec_reload_tab(tabs, tab, fs2, icons), path, fs2, icons),
            spec_reload_tab_contain_item(other, path, fs2, icons),
            fs2,
        )
    } else {
        (tabs, other, fs)
    }
}

/// What creating file `file_name` under `parent` from the tab at `tab`
/// does: on success the acting tab reopens on the parent; tabs of the
/// other panel standing at the parent reopen either way.
pub open spec fn spec_file_create_tabs(
    tabs: Seq<TabModel>,
    other: Seq<TabModel>,
    file_name: Seq<char>,
    parent: Seq<char>,
    tab: int,
    fs: Seq<FsEntry>,
    icons: IconsModel,
) -> (Seq<TabModel>, Seq<TabModel>, Seq<FsEntry>) {
    let full = spec_join(parent, file_name);
    if 0 <= tab < tabs.len() && fs_contains(fs, parent) && spec_create_file(fs, full).1 is Ok {
        let fs2 = spec_create_file(fs, full).0;
        (
            spec_replace_tab_at(tabs, tab, spec_tab_with_dir(fs2, parent, icons)),
            spec_reload_tab_with_path(other, parent, fs2, icons),
            fs2,
        )
    } else {
        (tabs, spec_reload_tab_with_path(other, parent, fs, icons), fs)
    }
}

/// What renaming (or moving) `from` to `to`, acting in the tab at `tab`,
/// does: on success the acting tab reopens on its own path and every tab
/// listing the old path reopens.
pub open spec fn spec_file_rename_tabs(
    tabs: Seq<TabModel>,
    other: Seq<TabModel>,
    from: Seq<char>,
    to: Seq<char>,
    tab: int,
    fs: Seq<FsEntry>,
    icons: IconsModel,
) -> (Seq<TabModel>, Seq<TabModel>, Seq<FsEntry>) {
    if 0 <= tab < tabs.len() && spec_rename(fs, from, to).1 is Ok {
        let fs2 = spec_rename(fs, from, to).0;
        (
            spec_reload_tab_contain_item(spec_reload_tab(tabs, tab, fs2, icons), from, fs2, icons),
            spec_reload_tab_contain_item(other, from, fs2, icons),
            fs2,
        )
    } else {
        (tabs, other, fs)
    }
}

/// What copying the file at `from` to `to`, acting in the tab at `tab`,
/// does: on success the acting tab reopens; the other panel's tab at the
/// source index reopens either way.
pub open spec fn spec_file_copy_tabs(
    tabs: Seq<TabModel>,
    other: Seq<TabModel>,
    from: Seq<char>,
    to: Seq<char>,
    tab: int,
    from_tab: int,
    fs: Seq<FsEntry>,
    icons: IconsModel,
) -> (Seq<TabModel>, Seq<TabModel>, Seq<FsEntry>) {
    if 0 <= tab < tabs.len() && spec_copy_file(fs, from, to).1 is Ok {
        let fs2 = spec_copy_file(fs, from, to).0;
        (spec_reload_tab(tabs, tab, fs2, icons), spec_reload_tab(other, from_tab, fs2, icons), fs2)
    } else {
        (tabs, spec_reload_tab(other, from_tab, fs, icons), fs)
    }
}

/// The child program opening the file at `path`, chosen by its extension;
/// nothing for anything but a file.
pub open spec fn spec_open_file(
    fs: Seq<FsEntry>,
    path: Seq<char>,
    programs: Seq<(Seq<char>, Seq<char>)>,
) -> Option<ChildModel> {
    if fs_is_file(fs, path) {
        Some(
            ChildModel {
                program_name: crate::config::fallback_lookup(
                    programs,
                    extension_key(base_name(path)),
                ),
                args: seq![path],
            },
        )
    } else {
        None
    }
}

/// What the file reducer does.
pub open spec fn spec_file_reducer(s: AppModel, fs: Seq<FsEntry>, a: FileActionModel) -> (
    AppModel,
    Seq<FsEntry>,
) {
    match a {
        FileActionModel::Delete { panel } => {
            let p = panel_of(s, panel.side);
            let o = panel_of(s, other_panel_side(panel.side));
            let r = spec_file_delete_tabs(
                p.tabs,
                o.tabs,
                panel.path,
                panel.tab,
                fs,
                s.config.icons,
            );
            (
                set_panel(
                    set_panel(s, panel.side, PanelModel { tabs: r.0, ..p }),
                    other_panel_side(panel.side),
                    PanelModel { tabs: r.1, ..o },
                ),
                r.2,
            )
        },
        FileActionModel::Create { file_name, panel } => {
            let p = panel_of(s, panel.side);
            let o = panel_of(s, other_panel_side(panel.side));
            let r = spec_file_create_tabs(
                p.tabs,
                o.tabs,
                file_name,
                panel.path,
                panel.tab,
                fs,
                s.config.icons,
            );
            (
                set_panel(
                    set_panel(s, panel.side, PanelModel { tabs: r.0, ..p }),
                    other_panel_side(panel.side),
                    PanelModel { tabs: r.1, ..o },
                ),
                r.2,
            )
        },
        FileActionModel::Rename { from, to } => spec_file_rename_like(s, fs, from, to),
        FileActionModel::Move { from, to } => spec_file_rename_like(s, fs, from, to),
        FileActionModel::Copy { from, to } => {
            let p = panel_of(s, to.side);
            let o = panel_of(s, other_panel_side(to.side));
            let r = spec_file_copy_tabs(
                p.tabs,
                o.tabs,
                from.path,
                to.path,
                to.tab,
                from.tab,
                fs,
                s.config.icons,
            );
            (
                set_panel(
                    set_panel(s, to.side, PanelModel { tabs: r.0, ..p }),
                    other_panel_side(to.side),
                    PanelModel { tabs: r.1, ..o },
                ),
                r.2,
            )
        },
        FileActionModel::Open { panel } => (
            AppModel {
                child_program: spec_open_file(fs, panel.path, s.config.programs),
                ..s
            },
            fs,
        ),
    }
}

/// Renaming and moving share one meaning.
pub open spec fn spec_file_rename_like(
    s: AppModel,
    fs: Seq<FsEntry>,
    from: PanelInfoModel,
    to: PanelInfoModel,
) -> (AppModel, Seq<FsEntry>) {
    let p = panel_of(s, to.side);
    let o = panel_of(s, other_panel_side(to.side));
    let r = spec_file_rename_tabs(p.tabs, o.tabs, from.path, to.path, to.tab, fs, s.config.icons);
    (
        set_panel(
            set_panel(s, to.side, PanelModel { tabs: r.0, ..p }),
            other_panel_side(to.side),
            PanelModel { tabs: r.1, ..o },
        ),
        r.2,
    )
}

/// Applies a file action.
pub fn file_reducer<F: FileSystem>(state: AppState<F>, file_action: FileAction) -> (r: AppState<F>)
    ensures
        (r@, r.file_system.fs()) == spec_file_reducer(state@, state.file_system.fs(), file_action@),
{
    match file_action {
        FileAction::Delete { panel } => delete_file(state, panel),
        FileAction::Rename { from, to } => rename_file(state, from, to),
        FileAction::Move { from, to } => rename_file(state, from, to),
        FileAction::Open { panel } => open_file(state, panel),
        FileAction::Create { file_name, panel } => create_file(state, file_name, panel),
        FileAction::Copy { from, to } => copy_file(state, from, to),
    }
}

/// Deletes the file named by `panel` and reloads every tab that listed it.
pub fn delete_file<F: FileSystem>(state: AppState<F>, panel: PanelInfo) -> (r: AppState<F>)
    ensures
        (r@, r.file_system.fs()) == spec_file_reducer(
            state@,
            state.file_system.fs(),
            FileActionModel::Delete { panel: panel@ },
        ),
{
    let AppState { left_panel, right_panel, app_exit, config, child_program, modal, mut file_system } =
        state;
    match panel.side {
        PanelSide::Left => {
            let (mine, theirs) = delete_file_from_tab(
                panel.path.as_str(),
                panel.tab,
                left_panel.tabs,
                right_panel.tabs,
                &mut file_system,
                &config.icons,
            );
            AppState {
                left_panel: PanelState {
                    tabs: mine,
                    is_focused: left_panel.is_focused,
                    current_tab: left_panel.current_tab,
                },
                right_panel: PanelState {
                    tabs: theirs,
                    is_focused: right_panel.is_focused,
                    current_tab: right_panel.current_tab,
                },
                app_exit,
                config,
                child_program,
                modal,
                file_system,
            }
        },
        PanelSide::Right => {
            let (mine, theirs) = delete_file_from_tab(
                panel.path.as_str(),
                panel.tab,
                right_panel.tabs,
                left_panel.tabs,
                &mut file_system,
                &config.icons,
            );
            AppState {
                left_panel: PanelState {
                    tabs: theirs,
                    is_focused: left_panel.is_focused,
                    current_tab: left_panel.current_tab,
                },
                right_panel: PanelState {
                    tabs: mine,
                    is_focused: right_panel.is_focused,
                    current_tab: right_panel.current_tab,
                },
                app_exit,
                config,
                child_program,
                modal,
                file_system,
            }
        },
    }
}

/// Deletes a listed file and reopens the tabs that showed it.
pub fn delete_file_from_tab<F: FileSystem>(
    path: &str,
    current_tab: TabIdx,
    tabs: Vec<TabState>,
    other: Vec<TabState>,
    file_system: &mut F,
    icons: &IconsConfig,
) -> (r: (Vec<TabState>, Vec<TabState>))
    ensures
        ({
            let t = spec_file_delete_tabs(
                tabs_view(tabs@),
                tabs_view(other@),
                path@,
                current_tab as int,
                old(file_system).fs(),
                icons@,
            );
            tabs_view(r.0@) == t.0 && tabs_view(r.1@) == t.1 && final(file_system).fs() == t.2
        }),
{
    if !(current_tab < tabs.len() && tab_has_file_at(&tabs[current_tab], path)) {
        proof {
            if (current_tab as int) < tabs@.len() {
                lemma_tabs_view_index(tabs@, current_tab as int);
            }
        }
        return (tabs, other);
    }
    proof {
        lemma_tabs_view_index(tabs@, current_tab as int);
    }
    match file_system.delete_file(path) {
        Ok(_) => {
            let tabs1 = reload_tab(current_tab, tabs, &*file_system, icons);
            let tabs2 = reload_tab_contain_item(path, tabs1, &*file_system, icons);
            let other2 = reload_tab_contain_item(path, other, &*file_system, icons);
            (tabs2, other2)
        },
        Err(_) => (tabs, other),
    }
}

/// Creates a file under the directory named by `panel`.
pub fn create_file<F: FileSystem>(state: AppState<F>, file_name: String, panel: PanelInfo) -> (r:
    AppState<F>)
    ensures
        (r@, r.file_system.fs()) == spec_file_reducer(
            state@,
            state.file_system.fs(),
            FileActionModel::Create { file_name: file_name@, panel: panel@ },
        ),
{
    let AppState { left_panel, right_panel, app_exit, config, child_program, modal, mut file_system } =
        state;
    match panel.side {
        PanelSide::Left => {
            let (mine, theirs) = create_file_in_tab(
                file_name,
                panel.path.as_str(),
                panel.tab,
                left_panel.tabs,
                right_panel.tabs,
                &mut file_system,
                &config.icons,
            );
            AppState {
                left_panel: PanelState {
                    tabs: mine,
                    is_focused: left_panel.is_focused,
                    current_tab: left_panel.current_tab,
                },
                right_panel: PanelState {
                    tabs: theirs,
                    is_focused: right_panel.is_focused,
                    current_tab: right_panel.current_tab,
                },
                app_exit,
                config,
                child_program,
                modal,
                file_system,
            }
        },
        PanelSide::Right => {
            let (mine, theirs) = create_file_in_tab(
                file_name,
                panel.path.as_str(),
                panel.tab,
                right_panel.tabs,
                left_panel.tabs,
                &mut file_system,
                &config.icons,
            );
            AppState {
                left_panel: PanelState {
                    tabs: theirs,
                    is_focused: left_panel.is_focused,
                    current_tab: left_panel.current_tab,
                },
                right_panel: PanelState {
                    tabs: mine,
                    is_focused: right_panel.is_focused,
                    current_tab: right_panel.current_tab,
                },
                app_exit,
                config,
                child_program,
                modal,
                file_system,
            }
        },
    }
}

/// Creates `file_name` under `dir_path` and reopens the tabs that show the
/// directory.
pub fn create_file_in_tab<F: FileSystem>(
    file_name: String,
    dir_path: &str,
    tab: TabIdx,
    tabs: Vec<TabState>,
    other: Vec<TabState>,
    file_system: &mut F,
    icons: &IconsConfig,
) -> (r: (Vec<TabState>, Vec<TabState>))
    ensures
        ({
            let t = spec_file_create_tabs(
                tabs_view(tabs@),
                tabs_view(other@),
                file_name@,
                dir_path@,
                tab as int,
                old(file_system).fs(),
                icons@,
            );
            tabs_view(r.0@) == t.0 && tabs_view(r.1@) == t.1 && final(file_system).fs() == t.2
        }),
{
    if tab < tabs.len() && file_system.exist(dir_path) {
        let file_path = join_path(dir_path, file_name.as_str());
        match file_system.create_file(file_path.as_str()) {
            Ok(_) => {
                let mine = set_tab_to_dir(tabs, tab, dir_path, &*file_system, icons);
                let theirs = reload_tab_with_path(dir_path, other, &*file_system, icons);
                (mine, theirs)
            },
            Err(_) => {
                let theirs = reload_tab_with_path(dir_path, other, &*file_system, icons);
                (tabs, theirs)
            },
        }
    } else {
        let theirs = reload_tab_with_path(dir_path, other, &*file_system, icons);
        (tabs, theirs)
    }
}

/// Fills the child-program descriptor for opening the file named by
/// `panel`; panel state is untouched.
pub fn open_file<F: FileSystem>(state: AppState<F>, panel: PanelInfo) -> (r: AppState<F>)
    ensures
        (r@, r.file_system.fs()) == spec_file_reducer(
            state@,
            state.file_system.fs(),
            FileActionModel::Open { panel: panel@ },
        ),
{
    let mut state = state;
    let child = open_file_from_tab(
        &panel.path,
        &state.config.file_associated_programs,
        &state.file_system,
    );
    state.child_program = child;
    state
}

/// The program associated with the file at `path`, with the path as its
/// sole argument; nothing when no file stands there.
pub fn open_file_from_tab<F: FileSystem>(
    path: &String,
    file_associated_programs: &FileAssociatedPrograms,
    file_system: &F,
) -> (r: Option<ChildProgramDesc>)
    ensures
        match r {
            Some(c) => spec_open_file(file_system.fs(), path@, file_associated_programs.table())
                == Some(c@),
            None => spec_open_file(file_system.fs(), path@, file_associated_programs.table())
                is None,
        },
{
    if is_file_path(file_system, path.as_str()) {
        let name = base_name_of(path.as_str());
        let ext = extension_key_of(name.as_str());
        let program_name = file_associated_programs.get_program_name(ext);
        let mut args: Vec<String> = Vec::new();
        args.push(path.clone());
        let c = ChildProgramDesc { program_name, args };
        proof {
            assert(c.args@.map_values(|s: String| s@) =~= seq![path@]);
        }
        Some(c)
    } else {
        None
    }
}

/// Whether a file stands at `path`.
fn is_file_path<F: FileSystem>(file_system: &F, path: &str) -> (r: bool)
    ensures
        r == fs_is_file(file_system.fs(), path@),
{
    match file_system.read_to_string(path) {
        Some(_) => true,
        None => false,
    }
}

/// Renames or moves a file and reloads every tab that listed the source.
pub fn rename_file<F: FileSystem>(state: AppState<F>, from: PanelInfo, to: PanelInfo) -> (r:
    AppState<F>)
    ensures
        (r@, r.file_system.fs()) == spec_file_rename_like(
            state@,
            state.file_system.fs(),
            from@,
            to@,
        ),
{
    let AppState { left_panel, right_panel, app_exit, config, child_program, modal, mut file_system } =
        state;
    match to.side {
        PanelSide::Left => {
            let (mine, theirs) = rename_file_in_tab(
                from.path.as_str(),
                to.path.as_str(),
                to.tab,
                left_panel.tabs,
                right_panel.tabs,
                &mut file_system,
                &config.icons,
            );
            AppState {
                left_panel: PanelState {
                    tabs: mine,
                    is_focused: left_panel.is_focused,
                    current_tab: left_panel.current_tab,
                },
                right_panel: PanelState {
                    tabs: theirs,
                    is_focused: right_panel.is_focused,
                    current_tab: right_panel.current_tab,
                },
                app_exit,
                config,
                child_program,
                modal,
                file_system,
            }
        },
        PanelSide::Right => {
            let (mine, theirs) = rename_file_in_tab(
                from.path.as_str(),
                to.path.as_str(),
                to.tab,
                right_panel.tabs,
                left_panel.tabs,
                &mut file_system,
                &config.icons,
            );
            AppState {
                left_panel: PanelState {
                    tabs: theirs,
                    is_focused: left_panel.is_focused,
                    current_tab: left_panel.current_tab,
                },
                right_panel: PanelState {
                    tabs: mine,
                    is_focused: right_panel.is_focused,
                    current_tab: right_panel.current_tab,
                },
                app_exit,
                config,
                child_program,
                modal,
                file_system,
            }
        },
    }
}

/// Renames `from` to `to` and reopens the tabs that showed the source.
pub fn rename_file_in_tab<F: FileSystem>(
    from: &str,
    to: &str,
    current_tab: TabIdx,
    tabs: Vec<TabState>,
    other: Vec<TabState>,
    file_system: &mut F,
    icons: &IconsConfig,
) -> (r: (Vec<TabState>, Vec<TabState>))
    ensures
        ({
            let t = spec_file_rename_tabs(
                tabs_view(tabs@),
                tabs_view(other@),
                from@,
                to@,
                current_tab as int,
                old(file_system).fs(),
                icons@,
            );
            tabs_view(r.0@) == t.0 && tabs_view(r.1@) == t.1 && final(file_system).fs() == t.2
        }),
{
    if !(current_tab < tabs.len()) {
        return (tabs, other);
    }
    match file_system.rename_item(from, to) {
        Ok(_) => {
            let tabs1 = reload_tab(current_tab, tabs, &*file_system, icons);
            let tabs2 = reload_tab_contain_item(from, tabs1, &*file_system, icons);
            let other2 = reload_tab_contain_item(from, other, &*file_system, icons);
            (tabs2, other2)
        },
        Err(_) => (tabs, other),
    }
}

/// Copies a file and reloads the destination and source tabs.
pub fn copy_file<F: FileSystem>(state: AppState<F>, from: PanelInfo, to: PanelInfo) -> (r: AppState<
    F,
>)
    ensures
        (r@, r.file_system.fs()) == spec_file_reducer(
            state@,
            state.file_system.fs(),
            FileActionModel::Copy { from: from@, to: to@ },
        ),
{
    let AppState { left_panel, right_panel, app_exit, config, child_program, modal, mut file_system } =
        state;
    match to.side {
        PanelSide::Left => {
            let (mine, theirs) = copy_file_to_tab(
                from.path.as_str(),
                to.path.as_str(),
                to.tab,
                from.tab,
                left_panel.tabs,
                right_panel.tabs,
                &mut file_system,
                &config.icons,
            );
            AppState {
                left_panel: PanelState {
                    tabs: mine,
                    is_focused: left_panel.is_focused,
                    current_tab: left_panel.current_tab,
                },
                right_panel: PanelState {
                    tabs: theirs,
                    is_focused: right_panel.is_focused,
                    current_tab: right_panel.current_tab,
                },
                app_exit,
                config,
                child_program,
                modal,
                file_system,
            }
        },
        PanelSide::Right => {
            let (mine, theirs) = copy_file_to_tab(
                from.path.as_str(),
                to.path.as_str(),
                to.tab,
                from.tab,
                right_panel.tabs,
                left_panel.tabs,
                &mut file_system,
                &config.icons,
            );
            AppState {
                left_panel: PanelState {
                    tabs: theirs,
                    is_focused: left_panel.is_focused,
                    current_tab: left_panel.current_tab,
                },
                right_panel: PanelState {
                    tabs: mine,
                    is_focused: right_panel.is_focused,
                    current_tab: right_panel.current_tab,
                },
                app_exit,
                config,
                child_program,
                modal,
                file_system,
            }
        },
    }
}

/// Copies `from` to `to` and reopens the destination tab; the other
/// panel's tab at the source index reopens as well.
pub fn copy_file_to_tab<F: FileSystem>(
    from: &str,
    to: &str,
    current_tab: TabIdx,
    from_tab: TabIdx,
    tabs: Vec<TabState>,
    other: Vec<TabState>,
    file_system: &mut F,
    icons: &IconsConfig,
) -> (r: (Vec<TabState>, Vec<TabState>))
    ensures
        ({
            let t = spec_file_copy_tabs(
                tabs_view(tabs@),
                tabs_view(other@),
                from@,
                to@,
                current_tab as int,
                from_tab as int,
                old(file_system).fs(),
                icons@,
            );
            tabs_view(r.0@) == t.0 && tabs_view(r.1@) == t.1 && final(file_system).fs() == t.2
        }),
{
    if !(current_tab < tabs.len()) {
        let theirs = reload_tab(from_tab, other, &*file_system, icons);
        return (tabs, theirs);
    }
    match file_system.copy_file(from, to) {
        Ok(_) => {
            let mine = reload_tab(current_tab, tabs, &*file_system, icons);
            let theirs = reload_tab(from_tab, other, &*file_system, icons);
            (mine, theirs)
        },
        Err(_) => {
            let theirs = reload_tab(from_tab, other, &*file_system, icons);
            (tabs, theirs)
        },
    }
}

} // verus!
