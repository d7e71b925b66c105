//! Symbolic-link creation: the link is made through the capability and the
//! tabs showing the link's parent directory reopen on both panels. Opening
//! and deleting links is rewritten by the middleware before any reducer
//! runs, so only creation acts here.

use vstd::prelude::*;

use super::{
    other_panel_side, panel_of, reload_tab_with_path, set_panel, set_tab_to_dir,
    spec_reload_tab_with_path, spec_replace_tab_at,
};
use crate::actions::{PanelInfo, PanelSide, SymlinkAction, SymlinkActionModel};
use crate::config::{IconsConfig, IconsModel};
use crate::file_system::FileSystem;
use crate::fs_model::{spec_create_symlink, FsEntry};
use crate::paths::{parent_dir_of, parent_of};
use crate::state::{
    spec_tab_with_dir, tabs_view, AppModel, AppState, PanelModel, PanelState, TabIdx, TabModel,
    TabState,
};

verus! {

/// What creating a link at `symlink_path` to `target` from the tab at
/// `tab` does: on success the acting tab reopens on the link's parent
/// directory, and tabs of the other panel standing at that parent reopen
/// as well; a refused creation changes no tab.
pub open spec fn spec_symlink_create_tabs(
    tabs: Seq<TabModel>,
    other: Seq<TabModel>,
    symlink_path: Seq<char>,
    target: Seq<char>,
    tab: int,
    fs: Seq<FsEntry>,
    icons: IconsModel,
) -> (Seq<TabModel>, Seq<TabModel>, Seq<FsEntry>) {
    let parent = parent_of(symlink_path);
    if 0 <= tab < tabs.len() && spec_create_symlink(fs, symlink_path, target).1 is Ok {
        let fs2 = spec_create_symlink(fs, symlink_path, target).0;
        (
            spec_replace_tab_at(tabs, tab, spec_tab_with_dir(fs2, parent, icons)),
            spec_reload_tab_with_path(other, parent, fs2, icons),
            fs2,
        )
    } else {
        (tabs, other, fs)
    }
}

/// What the symbolic-link reducer does: only creation acts, addressed to
/// the panel the action names.
pub open spec fn spec_symlink_reducer(s: AppModel, fs: Seq<FsEntry>, a: SymlinkActionModel) -> (
    AppModel,
    Seq<FsEntry>,
) {
    match a {
        SymlinkActionModel::Create { symlink_path, panel } => {
            let p = panel_of(s, panel.side);
            let o = panel_of(s, other_panel_side(panel.side));
            let r = spec_symlink_create_tabs(
                p.tabs,
                o.tabs,
                symlink_path,
                panel.path,
                panel.tab,
                fs,
                s.config.icons,
            );
            (
                set_panel(
                    set_panel(s, panel.side, PanelModel { tabs: r.0, ..p }),
                    other_panel_side(panel.side),
                    PanelModel { tabs: r.1, ..o },
                ),
                r.2,
            )
        },
        _ => (s, fs),
    }
}

/// Applies a symbolic-link action.
pub fn symlink_reducer<F: FileSystem>(state: AppState<F>, action: SymlinkAction) -> (r: AppState<F>)
    ensures
        (r@, r.file_system.fs()) == spec_symlink_reducer(state@, state.file_system.fs(), action@),
{
    match action {
        SymlinkAction::Create { symlink_path, panel } => create_symlink(state, symlink_path, panel),
        _ => state,
    }
}

/// Creates a link at `symlink_path` pointing to the item named by `panel`,
/// and reopens the tabs showing the link's parent directory.
pub fn create_symlink<F: FileSystem>(
    state: AppState<F>,
    symlink_path: String,
    panel: PanelInfo,
) -> (r: AppState<F>)
    ensures
        (r@, r.file_system.fs()) == spec_symlink_reducer(
            state@,
            state.file_system.fs(),
            SymlinkActionModel::Create { symlink_path: symlink_path@, panel: panel@ },
        ),
{
    let AppState { left_panel, right_panel, app_exit, config, child_program, modal, mut file_system } =
        state;
    match panel.side {
        PanelSide::Left => {
            let (mine, theirs) = create_symlink_in_tab(
                symlink_path.as_str(),
                panel.path.as_str(),
                panel.tab,
                left_panel.tabs,
                right_panel.tabs,
                &mut file_system,
                &config.icons,
            );
            AppState {
                left_panel: PanelState {
                    tabs: mine,
                    is_focused: left_panel.is_focused,
                    current_tab: left_panel.current_tab,
                },
                right_panel: PanelState {
                    tabs: theirs,
                    is_focused: right_panel.is_focused,
                    current_tab: right_panel.current_tab,
                },
                app_exit,
                config,
                child_program,
                modal,
                file_system,
            }
        },
        PanelSide::Right => {
            let (mine, theirs) = create_symlink_in_tab(
                symlink_path.as_str(),
                panel.path.as_str(),
                panel.tab,
                right_panel.tabs,
                left_panel.tabs,
                &mut file_system,
                &config.icons,
            );
            AppState {
                left_panel: PanelState {
                    tabs: theirs,
                    is_focused: left_panel.is_focused,
                    current_tab: left_panel.current_tab,
                },
                right_panel: PanelState {
                    tabs: mine,
                    is_focused: right_panel.is_focused,
                    current_tab: right_panel.current_tab,
                },
                app_exit,
                config,
                child_program,
                modal,
                file_system,
            }
        },
    }
}

/// Creates the link and reopens the tabs standing at its parent.
pub fn create_symlink_in_tab<F: FileSystem>(
    symlink_path: &str,
    path: &str,
    tab: TabIdx,
    tabs: Vec<TabState>,
    other: Vec<TabState>,
    file_system: &mut F,
    icons: &IconsConfig,
) -> (r: (Vec<TabState>, Vec<TabState>))
    ensures
        ({
            let t = spec_symlink_create_tabs(
                tabs_view(tabs@),
                tabs_view(other@),
                symlink_path@,
                path@,
                tab as int,
                old(file_system).fs(),
                icons@,
            );
            tabs_view(r.0@) == t.0 && tabs_view(r.1@) == t.1 && final(file_system).fs() == t.2
        }),
{
    if !(tab < tabs.len()) {
        return (tabs, other);
    }
    match file_system.create_symlink(symlink_path, path) {
        Ok(_) => {
            let parent = parent_dir_of(symlink_path);
            let mine = set_tab_to_dir(tabs, tab, parent.as_str(), &*file_system, icons);
            let theirs = reload_tab_with_path(parent.as_str(), other, &*file_system, icons);
            (mine, theirs)
        },
        Err(_) => (tabs, other),
    }
}

} // verus!
