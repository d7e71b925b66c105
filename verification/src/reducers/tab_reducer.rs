//! Cursor movement and selection over the filtered view of the focused
//! tab, and explicit tab reloads.

use vstd::prelude::*;

use super::{panel_of, set_panel, spec_reload_tab_with_path};
use crate::actions::{PanelSide, TabAction, TabActionModel};
use crate::file_system::FileSystem;
use crate::items::{items_view, lemma_items_view_index, FileSystemItem, ItemModel};
use crate::state::{
    lemma_tabs_view_index, spec_filtered, tabs_view, AppModel, AppState, PanelModel, TabModel,
    TabState,
};

verus! {

/// Where the cursor lands moving forward over a filtered view of `len`
/// items, wrapping at the end.
pub open spec fn spec_next_cursor(cursor: Option<int>, len: int) -> int {
    match cursor {
        Some(c) => if c >= len - 1 {
            0
        } else {
            c + 1
        },
        None => 0,
    }
}

/// Where the cursor lands moving backward, wrapping at the start.
pub open spec fn spec_prev_cursor(cursor: Option<int>, len: int) -> int {
    match cursor {
        Some(c) => if c == 0 || c >= len {
            len - 1
        } else {
            c - 1
        },
        None => 0,
    }
}

/// The tab with the cursor moved forward and the selection replaced by the
/// newly cursored item.
pub open spec fn spec_select_next_tab(t: TabModel) -> TabModel {
    let f = spec_filtered(t);
    if f.len() == 0 {
        t
    } else {
        let next = spec_next_cursor(t.cursor, f.len() as int);
        TabModel { cursor: Some(next), selected: seq![f[next]], ..t }
    }
}

/// The tab with the cursor moved backward and the selection replaced.
pub open spec fn spec_select_prev_tab(t: TabModel) -> TabModel {
    let f = spec_filtered(t);
    if f.len() == 0 {
        t
    } else {
        let prev = spec_prev_cursor(t.cursor, f.len() as int);
        TabModel { cursor: Some(prev), selected: seq![f[prev]], ..t }
    }
}

/// The tab with the cursor moved forward and the newly cursored item added
/// to the selection.
pub open spec fn spec_select_multiple_next_tab(t: TabModel) -> TabModel {
    let f = spec_filtered(t);
    if f.len() == 0 {
        t
    } else {
        let next = spec_next_cursor(t.cursor, f.len() as int);
        TabModel { cursor: Some(next), selected: t.selected.push(f[next]), ..t }
    }
}

/// The tab with the cursor moved backward and the newly cursored item
/// added to the selection.
pub open spec fn spec_select_multiple_prev_tab(t: TabModel) -> TabModel {
    let f = spec_filtered(t);
    if f.len() == 0 {
        t
    } else {
        let prev = spec_prev_cursor(t.cursor, f.len() as int);
        TabModel { cursor: Some(prev), selected: t.selected.push(f[prev]), ..t }
    }
}

/// The tab with no selection and no cursor.
pub open spec fn spec_clear_tab(t: TabModel) -> TabModel {
    let f = spec_filtered(t);
    if f.len() == 0 {
        t
    } else {
        TabModel { cursor: None, selected: Seq::empty(), ..t }
    }
}

/// Which cursor or selection move an action asks for.
pub ghost enum TabMove {
    Next,
    Prev,
    MultiNext,
    MultiPrev,
    Clear,
}

/// The move applied to one tab.
pub open spec fn spec_apply_move(t: TabModel, m: TabMove) -> TabModel {
    match m {
        TabMove::Next => spec_select_next_tab(t),
        TabMove::Prev => spec_select_prev_tab(t),
        TabMove::MultiNext => spec_select_multiple_next_tab(t),
        TabMove::MultiPrev => spec_select_multiple_prev_tab(t),
        TabMove::Clear => spec_clear_tab(t),
    }
}

/// The move applied to the tab at `idx` alone.
pub open spec fn spec_move_in_tabs(tabs: Seq<TabModel>, idx: int, m: TabMove) -> Seq<TabModel> {
    Seq::new(
        tabs.len(),
        |i: int|
            if i == idx {
                spec_apply_move(tabs[i], m)
            } else {
                tabs[i]
            },
    )
}

/// The move applied to the current tab of the focused panel, if any panel
/// is focused.
pub open spec fn spec_move_on_focused(s: AppModel, m: TabMove) -> AppModel {
    if s.left_panel.is_focused {
        let p = s.left_panel;
        set_panel(
            s,
            PanelSide::Left,
            PanelModel { tabs: spec_move_in_tabs(p.tabs, p.current_tab, m), ..p },
        )
    } else if s.right_panel.is_focused {
        let p = s.right_panel;
        set_panel(
            s,
            PanelSide::Right,
            PanelModel { tabs: spec_move_in_tabs(p.tabs, p.current_tab, m), ..p },
        )
    } else {
        s
    }
}

/// What the tab reducer does.
pub open spec fn spec_tab_reducer(s: AppModel, fs: Seq<crate::fs_model::FsEntry>, a: TabActionModel) -> (
    AppModel,
    Seq<crate::fs_model::FsEntry>,
) {
    match a {
        TabActionModel::Next => (spec_move_on_focused(s, TabMove::Next), fs),
        TabActionModel::Previous => (spec_move_on_focused(s, TabMove::Prev), fs),
        TabActionModel::SelectNext => (spec_move_on_focused(s, TabMove::MultiNext), fs),
        TabActionModel::SelectPrev => (spec_move_on_focused(s, TabMove::MultiPrev), fs),
        TabActionModel::ClearSelection => (spec_move_on_focused(s, TabMove::Clear), fs),
        TabActionModel::ReloadTab { panel_side, path } => {
            let p = panel_of(s, panel_side);
            (
                set_panel(
                    s,
                    panel_side,
                    PanelModel { tabs: spec_reload_tab_with_path(p.tabs, path, fs, s.config.icons), ..p },
                ),
                fs,
            )
        },
    }
}

/// Applies a tab action.
pub fn tab_reducer<F: FileSystem>(state: AppState<F>, tab_action: TabAction) -> (r: AppState<F>)
    ensures
        (r@, r.file_system.fs()) == spec_tab_reducer(state@, state.file_system.fs(), tab_action@),
{
    match tab_action {
        TabAction::Next => select_next(state),
        TabAction::Previous => select_previous(state),
        TabAction::SelectNext => select_multiple_next(state),
        TabAction::SelectPrev => select_multiple_prev(state),
        TabAction::ClearSelection => clear_selections(state),
        TabAction::ReloadTab { panel_side, path } => reload_state_tab(state, panel_side, path),
    }
}

/// Reopens the tabs at `path` on the named panel.
pub fn reload_state_tab<F: FileSystem>(
    state: AppState<F>,
    panel_side: PanelSide,
    path: String,
) -> (r: AppState<F>)
    ensures
        (r@, r.file_system.fs()) == spec_tab_reducer(
            state@,
            state.file_system.fs(),
            TabActionModel::ReloadTab { panel_side, path: path@ },
        ),
{
    let mut state = state;
    match panel_side {
        PanelSide::Left => {
            let mut tabs: Vec<TabState> = Vec::new();
            core::mem::swap(&mut tabs, &mut state.left_panel.tabs);
            let tabs = super::reload_tab_with_path(
                path.as_str(),
                tabs,
                &state.file_system,
                &state.config.icons,
            );
            state.left_panel.tabs = tabs;
        },
        PanelSide::Right => {
            let mut tabs: Vec<TabState> = Vec::new();
            core::mem::swap(&mut tabs, &mut state.right_panel.tabs);
            let tabs = super::reload_tab_with_path(
                path.as_str(),
                tabs,
                &state.file_system,
                &state.config.icons,
            );
            state.right_panel.tabs = tabs;
        },
    }
    state
}

/// One move applied to the tab at `current_tab`.
fn apply_move_in_tabs(tabs: Vec<TabState>, current_tab: usize, m: Ghost<TabMove>, kind: u8) -> (r:
    Vec<TabState>)
    requires
        kind == 0 && m@ == TabMove::Next || kind == 1 && m@ == TabMove::Prev || kind == 2 && m@
            == TabMove::MultiNext || kind == 3 && m@ == TabMove::MultiPrev || kind == 4 && m@
            == TabMove::Clear,
    ensures
        tabs_view(r@) == spec_move_in_tabs(tabs_view(tabs@), current_tab as int, m@),
{
    let ghost v = tabs_view(tabs@);
    let ghost target = spec_move_in_tabs(v, current_tab as int, m@);
    let mut result: Vec<TabState> = Vec::new();
    let n = tabs.len();
    let mut i: usize = 0;
    while i < n
        invariant
            i <= n,
            n == tabs@.len(),
            v == tabs_view(tabs@),
            target == spec_move_in_tabs(v, current_tab as int, m@),
            kind == 0 && m@ == TabMove::Next || kind == 1 && m@ == TabMove::Prev || kind == 2 && m@
                == TabMove::MultiNext || kind == 3 && m@ == TabMove::MultiPrev || kind == 4 && m@
                == TabMove::Clear,
            result@.len() == i,
            forall|k: int| 0 <= k < i ==> (#[trigger] result@[k])@ == target[k],
        decreases n - i,
    {
        proof {
            lemma_tabs_view_index(tabs@, i as int);
        }
        if i == current_tab {
            result.push(apply_move_to_tab(&tabs[i], m, kind));
        } else {
            result.push(tabs[i].clone());
        }
        i = i + 1;
    }
    proof {
        assert forall|k: int| 0 <= k < n implies tabs_view(result@)[k] == target[k] by {
            lemma_tabs_view_index(result@, k);
        }
        assert(tabs_view(result@) =~= target);
    }
    result
}

/// One move applied to one tab.
fn apply_move_to_tab(tab: &TabState, m: Ghost<TabMove>, kind: u8) -> (r: TabState)
    requires
        kind == 0 && m@ == TabMove::Next || kind == 1 && m@ == TabMove::Prev || kind == 2 && m@
            == TabMove::MultiNext || kind == 3 && m@ == TabMove::MultiPrev || kind == 4 && m@
            == TabMove::Clear,
    ensures
        r@ == spec_apply_move(tab@, m@),
{
    let filtered = tab.filtered_items();
    let mut t = tab.clone();
    if filtered.len() == 0 {
        return t;
    }
    let flen = filtered.len();
    if kind == 4 {
        t.cursor = None;
        t.selected = Vec::new();
        proof {
            assert(items_view(t.selected@) =~= Seq::<ItemModel>::empty());
        }
        return t;
    }
    let pos: usize = if kind == 0 || kind == 2 {
        match t.cursor {
            Some(c) => if c >= flen - 1 {
                0
            } else {
                c + 1
            },
            None => 0,
        }
    } else {
        match t.cursor {
            Some(c) => if c == 0 || c >= flen {
                flen - 1
            } else {
                c - 1
            },
            None => 0,
        }
    };
    proof {
        lemma_items_view_index(filtered@, pos as int);
    }
    t.cursor = Some(pos);
    if kind == 0 || kind == 1 {
        let mut selected: Vec<FileSystemItem> = Vec::new();
        selected.push(filtered[pos].clone());
        t.selected = selected;
        proof {
            assert(items_view(t.selected@) =~= seq![spec_filtered(tab@)[pos as int]]);
        }
    } else {
        let ghost before = items_view(t.selected@);
        t.selected.push(filtered[pos].clone());
        proof {
            assert forall|k: int| 0 <= k < t.selected@.len() implies items_view(t.selected@)[k]
                == before.push(spec_filtered(tab@)[pos as int])[k] by {
                lemma_items_view_index(t.selected@, k);
                if k < before.len() {
                    lemma_items_view_index(t.selected@.subrange(0, before.len() as int), k);
                }
            }
            assert(items_view(t.selected@) =~= before.push(spec_filtered(tab@)[pos as int]));
        }
    }
    t
}

/// The move applied to the focused panel's current tab.
fn move_on_focused<F: FileSystem>(state: AppState<F>, m: Ghost<TabMove>, kind: u8) -> (r: AppState<
    F,
>)
    requires
        kind == 0 && m@ == TabMove::Next || kind == 1 && m@ == TabMove::Prev || kind == 2 && m@
            == TabMove::MultiNext || kind == 3 && m@ == TabMove::MultiPrev || kind == 4 && m@
            == TabMove::Clear,
    ensures
        r@ == spec_move_on_focused(state@, m@),
        r.file_system.fs() == state.file_system.fs(),
{
    let mut state = state;
    if state.left_panel.is_focused {
        let mut tabs: Vec<TabState> = Vec::new();
        core::mem::swap(&mut tabs, &mut state.left_panel.tabs);
        let tabs = apply_move_in_tabs(tabs, state.left_panel.current_tab, m, kind);
        state.left_panel.tabs = tabs;
        state
    } else if state.right_panel.is_focused {
        let mut tabs: Vec<TabState> = Vec::new();
        core::mem::swap(&mut tabs, &mut state.right_panel.tabs);
        let tabs = apply_move_in_tabs(tabs, state.right_panel.current_tab, m, kind);
        state.right_panel.tabs = tabs;
        state
    } else {
        state
    }
}

/// Moves the cursor forward, selecting the cursored item alone.
pub fn select_next<F: FileSystem>(state: AppState<F>) -> (r: AppState<F>)
    ensures
        r@ == spec_move_on_focused(state@, TabMove::Next),
        r.file_system.fs() == state.file_system.fs(),
{
    move_on_focused(state, Ghost(TabMove::Next), 0)
}

/// Moves the cursor backward, selecting the cursored item alone.
pub fn select_previous<F: FileSystem>(state: AppState<F>) -> (r: AppState<F>)
    ensures
        r@ == spec_move_on_focused(state@, TabMove::Prev),
        r.file_system.fs() == state.file_system.fs(),
{
    move_on_focused(state, Ghost(TabMove::Prev), 1)
}

/// Moves the cursor forward, adding the cursored item to the selection.
pub fn select_multiple_next<F: FileSystem>(state: AppState<F>) -> (r: AppState<F>)
    ensures
        r@ == spec_move_on_focused(state@, TabMove::MultiNext),
        r.file_system.fs() == state.file_system.fs(),
{
    move_on_focused(state, Ghost(TabMove::MultiNext), 2)
}

/// Moves the cursor backward, adding the cursored item to the selection.
pub fn select_multiple_prev<F: FileSystem>(state: AppState<F>) -> (r: AppState<F>)
    ensures
        r@ == spec_move_on_focused(state@, TabMove::MultiPrev),
        r.file_system.fs() == state.file_system.fs(),
{
    move_on_focused(state, Ghost(TabMove::MultiPrev), 3)
}

/// Empties the selection and clears the cursor.
pub fn clear_selections<F: FileSystem>(state: AppState<F>) -> (r: AppState<F>)
    ensures
        r@ == spec_move_on_focused(state@, TabMove::Clear),
        r.file_system.fs() == state.file_system.fs(),
{
    move_on_focused(state, Ghost(TabMove::Clear), 4)
}

} // verus!
