//! Tab rotation and closing within one panel.

use vstd::prelude::*;

use super::{panel_of, set_panel};
use crate::actions::{PanelAction, PanelActionModel, PanelSide};
use crate::file_system::FileSystem;
use crate::state::{
    lemma_tabs_view_index, tabs_view, AppModel, AppState, PanelModel, PanelState, TabIdx, };

verus! {

/// The panel with the following tab current, wrapping at the end.
pub open spec fn spec_next_tab(p: PanelModel) -> PanelModel {
    if p.tabs.len() == 0 {
        p
    } else {
        PanelModel {
            current_tab: if p.current_tab >= p.tabs.len() - 1 {
                0
            } else {
                p.current_tab + 1
            },
            ..p
        }
    }
}

/// The panel with the preceding tab current, wrapping at the start.
pub open spec fn spec_prev_tab(p: PanelModel) -> PanelModel {
    if p.tabs.len() == 0 {
        p
    } else {
        PanelModel {
            current_tab: if p.current_tab == 0 {
                p.tabs.len() - 1
            } else {
                p.current_tab - 1
            },
            ..p
        }
    }
}

/// The panel with the tab at `tab` closed. The last tab never closes, and
/// the current index stays in range, preferring the tab that follows the
/// removed one.
pub open spec fn spec_close_tab_in_panel(p: PanelModel, tab: int) -> PanelModel {
    if tab < 0 || tab >= p.tabs.len() || p.tabs.len() <= 1 {
        p
    } else {
        let tabs = p.tabs.remove(tab);
        PanelModel {
            tabs,
            current_tab: if p.current_tab > tab {
                p.current_tab - 1
            } else if p.current_tab >= tabs.len() {
                tabs.len() - 1
            } else {
                p.current_tab
            },
            ..p
        }
    }
}

/// What the panel reducer does.
pub open spec fn spec_panel_reducer(s: AppModel, a: PanelActionModel) -> AppModel {
    match a {
        PanelActionModel::Next { panel } => set_panel(s, panel, spec_next_tab(panel_of(s, panel))),
        PanelActionModel::Previous { panel } => set_panel(
            s,
            panel,
            spec_prev_tab(panel_of(s, panel)),
        ),
        PanelActionModel::CloseTab { tab, panel } => set_panel(
            s,
            panel,
            spec_close_tab_in_panel(panel_of(s, panel), tab),
        ),
    }
}

/// Applies a panel action.
pub fn panel_reducer<F: FileSystem>(state: AppState<F>, panel_action: PanelAction) -> (r: AppState<
    F,
>)
    ensures
        r@ == spec_panel_reducer(state@, panel_action@),
        r.file_system.fs() == state.file_system.fs(),
{
    match panel_action {
        PanelAction::Next { panel } => next_tab(state, panel),
        PanelAction::Previous { panel } => prev_tab(state, panel),
        PanelAction::CloseTab { tab, panel } => close_tab(state, tab, panel),
    }
}

/// Rotates the current tab forward on the named panel.
pub fn next_tab<F: FileSystem>(state: AppState<F>, panel: PanelSide) -> (r: AppState<F>)
    ensures
        r@ == set_panel(state@, panel, spec_next_tab(panel_of(state@, panel))),
        r.file_system.fs() == state.file_system.fs(),
{
    let mut state = state;
    match panel {
        PanelSide::Left => {
            state.left_panel.current_tab = next_index(
                state.left_panel.current_tab,
                state.left_panel.tabs.len(),
            );
        },
        PanelSide::Right => {
            state.right_panel.current_tab = next_index(
                state.right_panel.current_tab,
                state.right_panel.tabs.len(),
            );
        },
    }
    state
}

/// Rotates the current tab backward on the named panel.
pub fn prev_tab<F: FileSystem>(state: AppState<F>, panel: PanelSide) -> (r: AppState<F>)
    ensures
        r@ == set_panel(state@, panel, spec_prev_tab(panel_of(state@, panel))),
        r.file_system.fs() == state.file_system.fs(),
{
    let mut state = state;
    match panel {
        PanelSide::Left => {
            state.left_panel.current_tab = prev_index(
                state.left_panel.current_tab,
                state.left_panel.tabs.len(),
            );
        },
        PanelSide::Right => {
            state.right_panel.current_tab = prev_index(
                state.right_panel.current_tab,
                state.right_panel.tabs.len(),
            );
        },
    }
    state
}

/// The index after `cur` among `len` tabs, wrapping.
fn next_index(cur: usize, len: usize) -> (r: usize)
    ensures
        len == 0 ==> r == cur,
        len > 0 ==> r as int == (if cur as int >= len - 1 {
            0int
        } else {
            cur as int + 1
        }),
{
    if len == 0 {
        cur
    } else if cur >= len - 1 {
        0
    } else {
        cur + 1
    }
}

/// The index before `cur` among `len` tabs, wrapping.
fn prev_index(cur: usize, len: usize) -> (r: usize)
    ensures
        len == 0 ==> r == cur,
        len > 0 ==> r as int == (if cur as int == 0 {
            len - 1
        } else {
            cur as int - 1
        }),
{
    if len == 0 {
        cur
    } else if cur == 0 {
        len - 1
    } else {
        cur - 1
    }
}

/// Closes a tab on the named panel.
pub fn close_tab<F: FileSystem>(state: AppState<F>, tab: TabIdx, panel: PanelSide) -> (r: AppState<
    F,
>)
    ensures
        r@ == set_panel(state@, panel, spec_close_tab_in_panel(panel_of(state@, panel), tab as int)),
        r.file_system.fs() == state.file_system.fs(),
{
    let mut state = state;
    match panel {
        PanelSide::Left => {
            let mut p = PanelState { tabs: Vec::new(), is_focused: false, current_tab: 0 };
            core::mem::swap(&mut p, &mut state.left_panel);
            let p = close_tab_in_panel(p, tab);
            state.left_panel = p;
        },
        PanelSide::Right => {
            let mut p = PanelState { tabs: Vec::new(), is_focused: false, current_tab: 0 };
            core::mem::swap(&mut p, &mut state.right_panel);
            let p = close_tab_in_panel(p, tab);
            state.right_panel = p;
        },
    }
    state
}

/// Removes the tab at `tab` from the panel, keeping the current index in
/// range; the last tab stays.
pub fn close_tab_in_panel(panel_state: PanelState, tab: TabIdx) -> (r: PanelState)
    ensures
        r@ == spec_close_tab_in_panel(panel_state@, tab as int),
{
    let mut panel_state = panel_state;
    let ghost p0 = panel_state@;
    if tab >= panel_state.tabs.len() || panel_state.tabs.len() <= 1 {
        return panel_state;
    }
    panel_state.tabs.remove(tab);
    proof {
        assert forall|k: int| 0 <= k < panel_state.tabs@.len() implies tabs_view(
            panel_state.tabs@,
        )[k] == p0.tabs.remove(tab as int)[k] by {
            lemma_tabs_view_index(panel_state.tabs@, k);
        }
        assert(tabs_view(panel_state.tabs@) =~= p0.tabs.remove(tab as int));
    }
    let tabs_len = panel_state.tabs.len();
    panel_state.current_tab = if panel_state.current_tab > tab {
        panel_state.current_tab - 1
    } else if panel_state.current_tab >= tabs_len {
        tabs_len - 1
    } else {
        panel_state.current_tab
    };
    panel_state
}

} // verus!
