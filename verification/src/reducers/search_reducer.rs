//! The search workflow of one tab: entering search, typing the phrase,
//! applying it as a standing filter, or leaving search.

use vstd::prelude::*;

use super::{panel_of, set_panel};
use crate::actions::{PanelSide, SearchAction, SearchActionModel};
use crate::file_system::FileSystem;
use crate::state::{
    lemma_tabs_view_index, tabs_view, AppModel, AppState, PanelModel, TabIdx, TabModel, TabState,
};

verus! {

/// The tabs with search mode entered on the tab at `idx`.
pub open spec fn spec_start_search_in_tab(tabs: Seq<TabModel>, idx: int) -> Seq<TabModel> {
    Seq::new(
        tabs.len(),
        |i: int|
            if i == idx {
                TabModel { search_mode: true, ..tabs[i] }
            } else {
                tabs[i]
            },
    )
}

/// The tabs with search left and the phrase dropped on the tab at `idx`.
pub open spec fn spec_stop_search_in_tab(tabs: Seq<TabModel>, idx: int) -> Seq<TabModel> {
    Seq::new(
        tabs.len(),
        |i: int|
            if i == idx {
                TabModel { search_mode: false, phrase: Seq::empty(), ..tabs[i] }
            } else {
                tabs[i]
            },
    )
}

/// The tabs with the phrase replaced on the tab at `idx`, but only while
/// that tab is in search mode: stray input after leaving search is not
/// search text.
pub open spec fn spec_input_search_in_tab(
    tabs: Seq<TabModel>,
    idx: int,
    phrase: Seq<char>,
) -> Seq<TabModel> {
    Seq::new(
        tabs.len(),
        |i: int|
            if i == idx && tabs[i].search_mode {
                TabModel { phrase, ..tabs[i] }
            } else {
                tabs[i]
            },
    )
}

/// The tabs with search left on the tab at `idx`, the phrase kept as a
/// standing filter, and cursor and selection reset.
pub open spec fn spec_apply_search_in_tab(tabs: Seq<TabModel>, idx: int) -> Seq<TabModel> {
    Seq::new(
        tabs.len(),
        |i: int|
            if i == idx {
                TabModel { search_mode: false, cursor: None, selected: Seq::empty(), ..tabs[i] }
            } else {
                tabs[i]
            },
    )
}

/// What the search reducer does.
pub open spec fn spec_search_reducer(s: AppModel, a: SearchActionModel) -> AppModel {
    match a {
        SearchActionModel::Start { tab, panel_side } => {
            let p = panel_of(s, panel_side);
            set_panel(s, panel_side, PanelModel { tabs: spec_start_search_in_tab(p.tabs, tab), ..p })
        },
        SearchActionModel::Stop { tab, panel_side } => {
            let p = panel_of(s, panel_side);
            set_panel(s, panel_side, PanelModel { tabs: spec_stop_search_in_tab(p.tabs, tab), ..p })
        },
        SearchActionModel::Input { tab, panel_side, phrase } => {
            let p = panel_of(s, panel_side);
            set_panel(
                s,
                panel_side,
                PanelModel { tabs: spec_input_search_in_tab(p.tabs, tab, phrase), ..p },
            )
        },
        SearchActionModel::ApplySearch { tab, panel_side } => {
            let p = panel_of(s, panel_side);
            set_panel(s, panel_side, PanelModel { tabs: spec_apply_search_in_tab(p.tabs, tab), ..p })
        },
    }
}

/// Applies a search action.
pub fn search_reducer<F: FileSystem>(state: AppState<F>, search_action: SearchAction) -> (r:
    AppState<F>)
    ensures
        r@ == spec_search_reducer(state@, search_action@),
        r.file_system.fs() == state.file_system.fs(),
{
    match search_action {
        SearchAction::Start { tab, panel_side } => start_search(state, tab, panel_side),
        SearchAction::Stop { tab, panel_side } => stop_search(state, tab, panel_side),
        SearchAction::Input { tab, panel_side, phrase } => change_input(
            state,
            tab,
            panel_side,
            phrase,
        ),
        SearchAction::ApplySearch { tab, panel_side } => apply_search(state, tab, panel_side),
    }
}

/// Enters search mode on one tab.
pub fn start_search<F: FileSystem>(state: AppState<F>, tab: TabIdx, panel_side: PanelSide) -> (r:
    AppState<F>)
    ensures
        r@ == spec_search_reducer(
            state@,
            SearchActionModel::Start { tab: tab as int, panel_side },
        ),
        r.file_system.fs() == state.file_system.fs(),
{
    let mut state = state;
    match panel_side {
        PanelSide::Left => {
            let mut tabs: Vec<TabState> = Vec::new();
            core::mem::swap(&mut tabs, &mut state.left_panel.tabs);
            state.left_panel.tabs = start_search_in_tab(tabs, tab);
        },
        PanelSide::Right => {
            let mut tabs: Vec<TabState> = Vec::new();
            core::mem::swap(&mut tabs, &mut state.right_panel.tabs);
            state.right_panel.tabs = start_search_in_tab(tabs, tab);
        },
    }
    state
}

/// Leaves search mode on one tab, dropping the phrase.
pub fn stop_search<F: FileSystem>(state: AppState<F>, tab: TabIdx, panel_side: PanelSide) -> (r:
    AppState<F>)
    ensures
        r@ == spec_search_reducer(state@, SearchActionModel::Stop { tab: tab as int, panel_side }),
        r.file_system.fs() == state.file_system.fs(),
{
    let mut state = state;
    match panel_side {
        PanelSide::Left => {
            let mut tabs: Vec<TabState> = Vec::new();
            core::mem::swap(&mut tabs, &mut state.left_panel.tabs);
            state.left_panel.tabs = stop_search_in_tab(tabs, tab);
        },
        PanelSide::Right => {
            let mut tabs: Vec<TabState> = Vec::new();
            core::mem::swap(&mut tabs, &mut state.right_panel.tabs);
            state.right_panel.tabs = stop_search_in_tab(tabs, tab);
        },
    }
    state
}

/// Replaces the phrase of one tab while it is in search mode.
pub fn change_input<F: FileSystem>(
    state: AppState<F>,
    tab: TabIdx,
    panel_side: PanelSide,
    phrase: String,
) -> (r: AppState<F>)
    ensures
        r@ == spec_search_reducer(
            state@,
            SearchActionModel::Input { tab: tab as int, panel_side, phrase: phrase@ },
        ),
        r.file_system.fs() == state.file_system.fs(),
{
    let mut state = state;
    match panel_side {
        PanelSide::Left => {
            let mut tabs: Vec<TabState> = Vec::new();
            core::mem::swap(&mut tabs, &mut state.left_panel.tabs);
            state.left_panel.tabs = input_search_in_tab(tabs, tab, phrase);
        },
        PanelSide::Right => {
            let mut tabs: Vec<TabState> = Vec::new();
            core::mem::swap(&mut tabs, &mut state.right_panel.tabs);
            state.right_panel.tabs = input_search_in_tab(tabs, tab, phrase);
        },
    }
    state
}

/// Applies the phrase of one tab as a standing filter.
pub fn apply_search<F: FileSystem>(state: AppState<F>, tab: TabIdx, panel_side: PanelSide) -> (r:
    AppState<F>)
    ensures
        r@ == spec_search_reducer(
            state@,
            SearchActionModel::ApplySearch { tab: tab as int, panel_side },
        ),
        r.file_system.fs() == state.file_system.fs(),
{
    let mut state = state;
    match panel_side {
        PanelSide::Left => {
            let mut tabs: Vec<TabState> = Vec::new();
            core::mem::swap(&mut tabs, &mut state.left_panel.tabs);
            state.left_panel.tabs = apply_search_in_tab(tabs, tab);
        },
        PanelSide::Right => {
            let mut tabs: Vec<TabState> = Vec::new();
            core::mem::swap(&mut tabs, &mut state.right_panel.tabs);
            state.right_panel.tabs = apply_search_in_tab(tabs, tab);
        },
    }
    state
}

/// Enters search mode on the tab at `tab`.
pub fn start_search_in_tab(tabs: Vec<TabState>, tab: TabIdx) -> (r: Vec<TabState>)
    ensures
        tabs_view(r@) == spec_start_search_in_tab(tabs_view(tabs@), tab as int),
{
    let ghost v = tabs_view(tabs@);
    let ghost target = spec_start_search_in_tab(v, tab as int);
    let mut result: Vec<TabState> = Vec::new();
    let n = tabs.len();
    let mut i: usize = 0;
    while i < n
        invariant
            i <= n,
            n == tabs@.len(),
            v == tabs_view(tabs@),
            target == spec_start_search_in_tab(v, tab as int),
            result@.len() == i,
            forall|k: int| 0 <= k < i ==> (#[trigger] result@[k])@ == target[k],
        decreases n - i,
    {
        proof {
            lemma_tabs_view_index(tabs@, i as int);
        }
        let mut t = tabs[i].clone();
        if i == tab {
            t.search_mode = true;
        }
        result.push(t);
        i = i + 1;
    }
    proof {
        assert forall|k: int| 0 <= k < n implies tabs_view(result@)[k] == target[k] by {
            lemma_tabs_view_index(result@, k);
        }
        assert(tabs_view(result@) =~= target);
    }
    result
}

/// Leaves search mode on the tab at `tab`, dropping its phrase.
pub fn stop_search_in_tab(tabs: Vec<TabState>, tab: TabIdx) -> (r: Vec<TabState>)
    ensures
        tabs_view(r@) == spec_stop_search_in_tab(tabs_view(tabs@), tab as int),
{
    let ghost v = tabs_view(tabs@);
    let ghost target = spec_stop_search_in_tab(v, tab as int);
    let mut result: Vec<TabState> = Vec::new();
    let n = tabs.len();
    let mut i: usize = 0;
    while i < n
        invariant
            i <= n,
            n == tabs@.len(),
            v == tabs_view(tabs@),
            target == spec_stop_search_in_tab(v, tab as int),
            result@.len() == i,
            forall|k: int| 0 <= k < i ==> (#[trigger] result@[k])@ == target[k],
        decreases n - i,
    {
        proof {
            lemma_tabs_view_index(tabs@, i as int);
        }
        let mut t = tabs[i].clone();
        if i == tab {
            t.search_mode = false;
            t.phrase = String::new();
            proof {
                assert(t.phrase@ =~= Seq::<char>::empty());
            }
        }
        result.push(t);
        i = i + 1;
    }
    proof {
        assert forall|k: int| 0 <= k < n implies tabs_view(result@)[k] == target[k] by {
            lemma_tabs_view_index(result@, k);
        }
        assert(tabs_view(result@) =~= target);
    }
    result
}

/// Replaces the phrase of the tab at `tab` while it is in search mode.
pub fn input_search_in_tab(tabs: Vec<TabState>, tab: TabIdx, phrase: String) -> (r: Vec<TabState>)
    ensures
        tabs_view(r@) == spec_input_search_in_tab(tabs_view(tabs@), tab as int, phrase@),
{
    let ghost v = tabs_view(tabs@);
    let ghost target = spec_input_search_in_tab(v, tab as int, phrase@);
    let mut result: Vec<TabState> = Vec::new();
    let n = tabs.len();
    let mut i: usize = 0;
    while i < n
        invariant
            i <= n,
            n == tabs@.len(),
            v == tabs_view(tabs@),
            target == spec_input_search_in_tab(v, tab as int, phrase@),
            result@.len() == i,
            forall|k: int| 0 <= k < i ==> (#[trigger] result@[k])@ == target[k],
        decreases n - i,
    {
        proof {
            lemma_tabs_view_index(tabs@, i as int);
        }
        let mut t = tabs[i].clone();
        if i == tab && t.search_mode {
            t.phrase = phrase.clone();
        }
        result.push(t);
        i = i + 1;
    }
    proof {
        assert forall|k: int| 0 <= k < n implies tabs_view(result@)[k] == target[k] by {
            lemma_tabs_view_index(result@, k);
        }
        assert(tabs_view(result@) =~= target);
    }
    result
}

/// Applies the phrase of the tab at `tab` as a standing filter: search
/// mode ends, the phrase stays, cursor and selection reset.
pub fn apply_search_in_tab(tabs: Vec<TabState>, tab: TabIdx) -> (r: Vec<TabState>)
    ensures
        tabs_view(r@) == spec_apply_search_in_tab(tabs_view(tabs@), tab as int),
{
    let ghost v = tabs_view(tabs@);
    let ghost target = spec_apply_search_in_tab(v, tab as int);
    let mut result: Vec<TabState> = Vec::new();
    let n = tabs.len();
    let mut i: usize = 0;
    while i < n
        invariant
            i <= n,
            n == tabs@.len(),
            v == tabs_view(tabs@),
            target == spec_apply_search_in_tab(v, tab as int),
            result@.len() == i,
            forall|k: int| 0 <= k < i ==> (#[trigger] result@[k])@ == target[k],
        decreases n - i,
    {
        proof {
            lemma_tabs_view_index(tabs@, i as int);
        }
        let mut t = tabs[i].clone();
        if i == tab {
            t.search_mode = false;
            t.cursor = None;
            t.selected = Vec::new();
            proof {
                assert(crate::items::items_view(t.selected@) =~= Seq::<
                    crate::items::ItemModel,
                >::empty());
            }
        }
        result.push(t);
        i = i + 1;
    }
    proof {
        assert forall|k: int| 0 <= k < n implies tabs_view(result@)[k] == target[k] by {
            lemma_tabs_view_index(result@, k);
        }
        assert(tabs_view(result@) =~= target);
    }
    result
}

} // verus!
