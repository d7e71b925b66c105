//! The engine's laws, proved once over the dispatch semantics: the state
//! invariants hold after every dispatch, tab rotation returns to where it
//! started, an unconfirmed non-empty delete is always intercepted,
//! resolving a link to a directory equals opening that directory, a
//! created directory stands in the reloaded listing, listings stay sorted
//! by name, the filesystem model stays sorted through every dispatch, and
//! after a deletion no tab of either panel still lists the deleted path.

use vstd::prelude::*;

use crate::actions::{
    ActionModel, AppActionModel, DirectoryActionModel, FileActionModel, PanelActionModel,
    PanelInfoModel, PanelSide, SearchActionModel, SymlinkActionModel, TabActionModel,
};
use crate::config::IconsModel;
use crate::file_system::{spec_item_of, spec_list_dir, spec_list_dir_from};
use crate::fs_model::{
    fs_find, fs_is_dir, fs_sorted, lemma_fs_insert_find, lemma_fs_insert_sorted, spec_create_dir,
    spec_read_link, FsEntry, FsNode,
};
use crate::items::ItemModel;
use crate::middlewares::{spec_dir_middleware, spec_symlink_middleware};
use crate::paths::{is_child, lemma_child_base_name, lemma_join_is_child, spec_join, valid_name};
use crate::reducers::dir_reducer::{
    spec_dir_copy_tabs, spec_dir_create_tabs, spec_dir_delete_tabs, spec_dir_open_tabs,
};
use crate::reducers::file_reducer::{
    spec_file_copy_tabs, spec_file_create_tabs, spec_file_delete_tabs, spec_file_rename_tabs,
};
use crate::reducers::symlink_reducer::spec_symlink_create_tabs;
use crate::reducers::tab_reducer::{spec_apply_move, spec_move_in_tabs, TabMove};
use crate::reducers::{
    other_panel_side, panel_of, set_panel, spec_reload_tab, spec_reload_tab_contain_item,
    spec_reload_tab_with_path, spec_replace_tab_at, spec_root_reducer, spec_search_reducer,
    spec_tab_contains,
};
use crate::state::{
    app_wf, panel_wf, spec_filtered, spec_filtered_from, spec_tab_with_dir, tab_wf, AppModel,
    ModalModel, PanelModel, TabModel,
};
use crate::store::spec_dispatch;

verus! {

/// All tabs of a sequence are well formed.
pub open spec fn all_tabs_wf(tabs: Seq<TabModel>) -> bool {
    forall|k: int| 0 <= k < tabs.len() ==> tab_wf(#[trigger] tabs[k])
}

/// `x` is one of `items`.
pub open spec fn listed(items: Seq<ItemModel>, x: ItemModel) -> bool {
    exists|k: int| 0 <= k < items.len() && items[k] == x
}

/// An indexed element is listed.
proof fn lemma_listed(items: Seq<ItemModel>, k: int)
    requires
        0 <= k < items.len(),
    ensures
        listed(items, items[k]),
{
}

/// Every item of the filtered view is an item of the listing.
proof fn lemma_filtered_members(items: Seq<ItemModel>, phrase: Seq<char>, i: int)
    ensures
        forall|j: int|
            0 <= j < spec_filtered_from(items, phrase, i).len() ==> listed(
                items,
                #[trigger] spec_filtered_from(items, phrase, i)[j],
            ),
    decreases items.len() - i,
{
    if 0 <= i < items.len() {
        lemma_filtered_members(items, phrase, i + 1);
        let r = spec_filtered_from(items, phrase, i);
        let rest = spec_filtered_from(items, phrase, i + 1);
        if crate::text::name_matches(items[i].name, phrase) {
            assert forall|j: int| 0 <= j < r.len() implies listed(items, #[trigger] r[j]) by {
                if j == 0 {
                    assert(r[0] == items[i]);
                    lemma_listed(items, i);
                } else {
                    assert(r[j] == rest[j - 1]);
                }
            }
        }
    }
}

/// Every item of the filtered view of a tab is an item of the tab.
proof fn lemma_spec_filtered_members(t: TabModel)
    ensures
        forall|j: int|
            0 <= j < spec_filtered(t).len() ==> listed(t.items, #[trigger] spec_filtered(t)[j]),
{
    if t.phrase.len() == 0 {
        assert forall|j: int| 0 <= j < spec_filtered(t).len() implies listed(
            t.items,
            #[trigger] spec_filtered(t)[j],
        ) by {
            assert(spec_filtered(t)[j] == t.items[j]);
            lemma_listed(t.items, j);
        }
    } else {
        lemma_filtered_members(t.items, t.phrase, 0);
        assert(spec_filtered(t) == spec_filtered_from(t.items, t.phrase, 0));
    }
}

/// A cursor or selection move keeps one tab well formed.
proof fn lemma_apply_move_wf(t: TabModel, m: TabMove)
    requires
        tab_wf(t),
    ensures
        tab_wf(spec_apply_move(t, m)),
{
    lemma_spec_filtered_members(t);
    let f = spec_filtered(t);
    let r = spec_apply_move(t, m);
    if f.len() > 0 {
        match m {
            TabMove::Clear => {},
            _ => {
                assert forall|j: int| 0 <= j < r.selected.len() implies exists|i: int|
                    0 <= i < r.items.len() && (#[trigger] r.selected[j]).path == r.items[i].path by {
                    if j < t.selected.len() && (m matches TabMove::MultiNext || m
                        matches TabMove::MultiPrev) {
                        assert(r.selected[j] == t.selected[j]);
                        assert(tab_wf(t));
                        let i = choose|i: int|
                            0 <= i < t.items.len() && t.selected[j].path == t.items[i].path;
                        assert(0 <= i < r.items.len() && r.selected[j].path == r.items[i].path);
                    } else {
                        let pos = r.cursor->0;
                        assert(r.selected[j] == f[pos]);
                        assert(listed(t.items, f[pos]));
                        let k = choose|k: int| 0 <= k < t.items.len() && t.items[k] == f[pos];
                        assert(0 <= k < r.items.len() && r.selected[j].path == r.items[k].path);
                    }
                }
            },
        }
    }
}

/// A tab with the same listing, and the same or no selection and cursor,
/// stays well formed.
proof fn lemma_tab_wf_like(t1: TabModel, t2: TabModel)
    requires
        tab_wf(t1),
        t2.items == t1.items,
        t2.selected == t1.selected || t2.selected == Seq::<ItemModel>::empty(),
        t2.cursor == t1.cursor || t2.cursor is None,
    ensures
        tab_wf(t2),
{
    assert forall|j: int| 0 <= j < t2.selected.len() implies exists|i: int|
        0 <= i < t2.items.len() && (#[trigger] t2.selected[j]).path == t2.items[i].path by {
        assert(t2.selected == t1.selected);
        assert(t2.selected[j] == t1.selected[j]);
        assert(tab_wf(t1));
        let i = choose|i: int| 0 <= i < t1.items.len() && t1.selected[j].path == t1.items[i].path;
        assert(0 <= i < t2.items.len() && t2.selected[j].path == t2.items[i].path);
    }
}

/// Reloading and replacing tabs keeps every tab well formed.
proof fn lemma_reload_ops_wf()
    ensures
        forall|tabs: Seq<TabModel>, idx: int, fsx: Seq<FsEntry>, icons: IconsModel|
            all_tabs_wf(tabs) ==> all_tabs_wf(#[trigger] spec_reload_tab(tabs, idx, fsx, icons)),
        forall|tabs: Seq<TabModel>, path: Seq<char>, fsx: Seq<FsEntry>, icons: IconsModel|
            all_tabs_wf(tabs) ==> all_tabs_wf(
                #[trigger] spec_reload_tab_with_path(tabs, path, fsx, icons),
            ),
        forall|tabs: Seq<TabModel>, path: Seq<char>, fsx: Seq<FsEntry>, icons: IconsModel|
            all_tabs_wf(tabs) ==> all_tabs_wf(
                #[trigger] spec_reload_tab_contain_item(tabs, path, fsx, icons),
            ),
        forall|tabs: Seq<TabModel>, idx: int, t: TabModel|
            all_tabs_wf(tabs) && tab_wf(t) ==> all_tabs_wf(
                #[trigger] spec_replace_tab_at(tabs, idx, t),
            ),
        forall|fsx: Seq<FsEntry>, path: Seq<char>, icons: IconsModel|
            tab_wf(#[trigger] spec_tab_with_dir(fsx, path, icons)),
{
}

/// Both panels rebuilt from equally long, well-formed tab sequences keep
/// the application invariants.
proof fn lemma_two_panel_set_wf(
    s: AppModel,
    side: PanelSide,
    tabs2: Seq<TabModel>,
    other2: Seq<TabModel>,
)
    requires
        app_wf(s),
        all_tabs_wf(tabs2),
        all_tabs_wf(other2),
        tabs2.len() == panel_of(s, side).tabs.len(),
        other2.len() == panel_of(s, other_panel_side(side)).tabs.len(),
    ensures
        app_wf(
            set_panel(
                set_panel(s, side, PanelModel { tabs: tabs2, ..panel_of(s, side) }),
                other_panel_side(side),
                PanelModel { tabs: other2, ..panel_of(s, other_panel_side(side)) },
            ),
        ),
{
}

/// The whole reducer tree preserves the state invariants: both panels keep
/// at least one tab with the current index in range, every selected entry
/// still names a listed path, and at most one panel is focused.
pub proof fn lemma_root_reducer_wf(s: AppModel, fs: Seq<FsEntry>, a: ActionModel)
    requires
        app_wf(s),
    ensures
        app_wf(spec_root_reducer(s, fs, a).0),
{
    let icons = s.config.icons;
    match a {
        ActionModel::App(app_action) => {
            match app_action {
                AppActionModel::Exit => {},
                AppActionModel::ChildProgramClosed => {},
                AppActionModel::FocusLeft => {},
                AppActionModel::FocusRight => {},
                AppActionModel::ShowModal(m) => {},
                AppActionModel::CloseModal => {},
            }
            assert(app_wf(spec_root_reducer(s, fs, a).0));
        },
        ActionModel::Panel(panel_action) => {
            match panel_action {
                PanelActionModel::CloseTab { tab, panel } => {
                    let p = panel_of(s, panel);
                    if 0 <= tab < p.tabs.len() && p.tabs.len() > 1 {
                        let tabs = p.tabs.remove(tab);
                        assert forall|k: int| 0 <= k < tabs.len() implies tab_wf(
                            #[trigger] tabs[k],
                        ) by {
                            if k < tab {
                                assert(tabs[k] == p.tabs[k]);
                            } else {
                                assert(tabs[k] == p.tabs[k + 1]);
                            }
                        }
                    }
                },
                _ => {},
            }
            assert(app_wf(spec_root_reducer(s, fs, a).0));
        },
        ActionModel::Search(search_action) => {
            let side = match search_action {
                SearchActionModel::Start { tab: _, panel_side } => panel_side,
                SearchActionModel::Stop { tab: _, panel_side } => panel_side,
                SearchActionModel::Input { tab: _, panel_side, phrase: _ } => panel_side,
                SearchActionModel::ApplySearch { tab: _, panel_side } => panel_side,
            };
            let p = panel_of(s, side);
            let tabs2 = panel_of(spec_search_reducer(s, search_action), side).tabs;
            assert(tabs2.len() == p.tabs.len());
            assert forall|k: int| 0 <= k < tabs2.len() implies tab_wf(#[trigger] tabs2[k]) by {
                assert(tab_wf(p.tabs[k]));
                lemma_tab_wf_like(p.tabs[k], tabs2[k]);
            }
            assert(app_wf(spec_root_reducer(s, fs, a).0));
        },
        ActionModel::Tab(tab_action) => {
            match tab_action {
                TabActionModel::ReloadTab { panel_side, path } => {
                    lemma_reload_ops_wf();
                },
                _ => {
                    if s.left_panel.is_focused {
                        assert forall|k: int|
                            0 <= k < s.left_panel.tabs.len() implies tab_wf(
                            #[trigger] spec_move_in_tabs(
                                s.left_panel.tabs,
                                s.left_panel.current_tab,
                                move_of(tab_action),
                            )[k],
                        ) by {
                            if k == s.left_panel.current_tab {
                                lemma_apply_move_wf(s.left_panel.tabs[k], move_of(tab_action));
                            }
                        }
                    } else if s.right_panel.is_focused {
                        assert forall|k: int|
                            0 <= k < s.right_panel.tabs.len() implies tab_wf(
                            #[trigger] spec_move_in_tabs(
                                s.right_panel.tabs,
                                s.right_panel.current_tab,
                                move_of(tab_action),
                            )[k],
                        ) by {
                            if k == s.right_panel.current_tab {
                                lemma_apply_move_wf(s.right_panel.tabs[k], move_of(tab_action));
                            }
                        }
                    }
                },
            }
        },
        ActionModel::Symlink(symlink_action) => {
            match symlink_action {
                SymlinkActionModel::Create { symlink_path, panel } => {
                    lemma_reload_ops_wf();
                    let p = panel_of(s, panel.side);
                    let o = panel_of(s, other_panel_side(panel.side));
                    let r = spec_symlink_create_tabs(
                        p.tabs,
                        o.tabs,
                        symlink_path,
                        panel.path,
                        panel.tab,
                        fs,
                        icons,
                    );
                    lemma_two_panel_set_wf(s, panel.side, r.0, r.1);
                },
                _ => {},
            }
        },
        ActionModel::File(file_action) => {
            lemma_file_reducer_wf(s, fs, file_action);
        },
        ActionModel::Directory(dir_action) => {
            lemma_dir_reducer_wf(s, fs, dir_action);
        },
    }
}

/// The state invariants hold after every dispatch: at most one panel is
/// focused, every panel keeps at least one tab with its current index in
/// range, and every selected entry names a listed path.
pub proof fn lemma_dispatch_preserves_invariants(s: AppModel, fs: Seq<FsEntry>, a: ActionModel)
    requires
        app_wf(s),
    ensures
        app_wf(spec_dispatch(s, fs, a).0),
{
    match spec_symlink_middleware(fs, a) {
        None => {},
        Some(a1) => match spec_dir_middleware(a1) {
            None => {},
            Some(a2) => {
                lemma_root_reducer_wf(s, fs, a2);
            },
        },
    }
}

/// The states reached by dispatching `Panel::Next` on one panel `k` times.
pub open spec fn iter_next(s: AppModel, fs: Seq<FsEntry>, side: PanelSide, k: nat) -> AppModel
    decreases k,
{
    if k == 0 {
        s
    } else {
        spec_dispatch(
            iter_next(s, fs, side, (k - 1) as nat),
            fs,
            ActionModel::Panel(PanelActionModel::Next { panel: side }),
        ).0
    }
}

/// Where the current tab stands after `k` forward rotations.
pub open spec fn rotated(cur: int, k: int, len: int) -> int {
    if cur + k < len {
        cur + k
    } else {
        cur + k - len
    }
}

proof fn lemma_iter_next_pos(s: AppModel, fs: Seq<FsEntry>, side: PanelSide, k: nat)
    requires
        panel_wf(panel_of(s, side)),
        k <= panel_of(s, side).tabs.len(),
    ensures
        iter_next(s, fs, side, k) == set_panel(
            s,
            side,
            PanelModel {
                current_tab: rotated(
                    panel_of(s, side).current_tab,
                    k as int,
                    panel_of(s, side).tabs.len() as int,
                ),
                ..panel_of(s, side)
            },
        ),
    decreases k,
{
    let p = panel_of(s, side);
    let len = p.tabs.len() as int;
    if k == 0 {
        assert(PanelModel { current_tab: p.current_tab, ..p } == p);
        if side == PanelSide::Left {
            assert(set_panel(s, side, p) == s);
        } else {
            assert(set_panel(s, side, p) == s);
        }
    } else {
        lemma_iter_next_pos(s, fs, side, (k - 1) as nat);
    }
}

/// Dispatching `Panel::Next` as many times as the panel has tabs returns
/// the whole state, current tab included, to where it started.
pub proof fn lemma_panel_next_rotation(s: AppModel, fs: Seq<FsEntry>, side: PanelSide)
    requires
        panel_wf(panel_of(s, side)),
    ensures
        iter_next(s, fs, side, panel_of(s, side).tabs.len() as nat) == s,
{
    let p = panel_of(s, side);
    let n = p.tabs.len() as nat;
    lemma_iter_next_pos(s, fs, side, n);
    assert(rotated(p.current_tab, n as int, p.tabs.len() as int) == p.current_tab);
    assert(PanelModel { current_tab: p.current_tab, ..p } == p);
    if side == PanelSide::Left {
        assert(set_panel(s, side, p) == s);
    } else {
        assert(set_panel(s, side, p) == s);
    }
}

/// Deleting a directory that is not known to be empty never reaches the
/// directory reducer: the filesystem is untouched and the only change is
/// the confirmation modal.
pub proof fn lemma_nonempty_delete_intercepted(s: AppModel, fs: Seq<FsEntry>, panel: PanelInfoModel)
    ensures
        spec_dispatch(
            s,
            fs,
            ActionModel::Directory(DirectoryActionModel::Delete { panel, is_empty: false }),
        ).1 == fs,
        spec_dispatch(
            s,
            fs,
            ActionModel::Directory(DirectoryActionModel::Delete { panel, is_empty: false }),
        ).0 == (AppModel {
            modal: Some(
                ModalModel::DeleteDirWithContent {
                    panel_side: panel.side,
                    panel_tab: panel.tab,
                    path: panel.path,
                },
            ),
            ..s
        }),
{
}

/// Opening a link whose target is a directory produces exactly the state
/// that opening that directory directly produces.
pub proof fn lemma_symlink_open_equivalence(
    s: AppModel,
    fs: Seq<FsEntry>,
    panel: PanelInfoModel,
    in_new_tab: bool,
    target: Seq<char>,
)
    requires
        spec_read_link(fs, panel.path) == Ok::<Seq<char>, crate::fs_model::FsError>(target),
        fs_is_dir(fs, target),
    ensures
        (spec_dispatch(
            s,
            fs,
            ActionModel::Symlink(SymlinkActionModel::Open { panel, in_new_tab }),
        ) == spec_dispatch(
            s,
            fs,
            ActionModel::Directory(
                DirectoryActionModel::Open {
                    panel: PanelInfoModel { path: target, tab: panel.tab, side: panel.side },
                    in_new_tab,
                },
            ),
        )),
{
}

/// A found path stands at some index.
proof fn lemma_fs_find_index(fs: Seq<FsEntry>, p: Seq<char>)
    requires
        fs_find(fs, p) is Some,
    ensures
        exists|i: int|
            0 <= i < fs.len() && (#[trigger] fs[i]).path == p && fs[i].node == fs_find(fs, p)->0,
    decreases fs.len(),
{
    if fs.len() > 0 {
        if fs[0].path == p {
            assert(fs[0].path == p && fs[0].node == fs_find(fs, p)->0);
        } else {
            lemma_fs_find_index(fs.skip(1), p);
            let i = choose|i: int|
                0 <= i < fs.skip(1).len() && (#[trigger] fs.skip(1)[i]).path == p && fs.skip(
                    1,
                )[i].node == fs_find(fs.skip(1), p)->0;
            assert(fs[i + 1] == fs.skip(1)[i]);
            assert(fs[i + 1].path == p && fs[i + 1].node == fs_find(fs, p)->0);
        }
    }
}

/// Every child entry shows up in the listing as its item.
proof fn lemma_list_from_member(
    fs: Seq<FsEntry>,
    start: int,
    dir: Seq<char>,
    icons: IconsModel,
    i: int,
)
    requires
        0 <= start <= i < fs.len(),
        is_child(fs[i].path, dir),
    ensures
        exists|j: int|
            0 <= j < spec_list_dir_from(fs, start, dir, icons).len() && #[trigger] spec_list_dir_from(
                fs,
                start,
                dir,
                icons,
            )[j] == spec_item_of(fs, fs[i], dir, icons),
    decreases i - start,
{
    let r = spec_list_dir_from(fs, start, dir, icons);
    if start == i {
        assert(r[0] == spec_item_of(fs, fs[i], dir, icons));
    } else {
        lemma_list_from_member(fs, start + 1, dir, icons, i);
        let rest = spec_list_dir_from(fs, start + 1, dir, icons);
        let j = choose|j: int|
            0 <= j < rest.len() && #[trigger] rest[j] == spec_item_of(fs, fs[i], dir, icons);
        if is_child(fs[start].path, dir) {
            assert(r[j + 1] == rest[j]);
        } else {
            assert(r == rest);
        }
    }
}

/// From index `i` on, the listing is sorted by name and made of child
/// entries.
proof fn lemma_list_from_sorted(fs: Seq<FsEntry>, i: int, dir: Seq<char>, icons: IconsModel)
    requires
        fs_sorted(fs),
    ensures
        forall|j: int|
            0 <= j < spec_list_dir_from(fs, i, dir, icons).len() ==> exists|k: int|
                i <= k < fs.len() && is_child(fs[k].path, dir) && (#[trigger] spec_list_dir_from(
                    fs,
                    i,
                    dir,
                    icons,
                )[j]) == spec_item_of(fs, fs[k], dir, icons),
        forall|a: int, b: int|
            0 <= a < b < spec_list_dir_from(fs, i, dir, icons).len() ==> crate::paths::lex_lt(
                (#[trigger] spec_list_dir_from(fs, i, dir, icons)[a]).name,
                (#[trigger] spec_list_dir_from(fs, i, dir, icons)[b]).name,
            ),
    decreases fs.len() - i,
{
    if i < 0 || i >= fs.len() {
    } else {
        lemma_list_from_sorted(fs, i + 1, dir, icons);
        let r = spec_list_dir_from(fs, i, dir, icons);
        let rest = spec_list_dir_from(fs, i + 1, dir, icons);
        if is_child(fs[i].path, dir) {
            assert(r == seq![spec_item_of(fs, fs[i], dir, icons)] + rest);
            assert forall|j: int| 0 <= j < r.len() implies exists|k: int|
                i <= k < fs.len() && is_child(fs[k].path, dir) && (#[trigger] r[j]) == spec_item_of(
                    fs,
                    fs[k],
                    dir,
                    icons,
                ) by {
                if j == 0 {
                    assert(r[0] == spec_item_of(fs, fs[i], dir, icons));
                } else {
                    assert(r[j] == rest[j - 1]);
                    let k = choose|k: int|
                        i + 1 <= k < fs.len() && is_child(fs[k].path, dir) && (#[trigger] rest[j
                            - 1]) == spec_item_of(fs, fs[k], dir, icons);
                    assert(i <= k < fs.len() && is_child(fs[k].path, dir) && r[j] == spec_item_of(
                        fs,
                        fs[k],
                        dir,
                        icons,
                    ));
                }
            }
            assert forall|a: int, b: int| 0 <= a < b < r.len() implies crate::paths::lex_lt(
                (#[trigger] r[a]).name,
                (#[trigger] r[b]).name,
            ) by {
                if a == 0 {
                    assert(r[b] == rest[b - 1]);
                    let k = choose|k: int|
                        i + 1 <= k < fs.len() && is_child(fs[k].path, dir) && (#[trigger] rest[b
                            - 1]) == spec_item_of(fs, fs[k], dir, icons);
                    lemma_child_base_name(dir, fs[i].path);
                    lemma_child_base_name(dir, fs[k].path);
                    assert(crate::paths::lex_lt(fs[i].path, fs[k].path));
                    crate::paths::lemma_child_order(dir, fs[i].path, fs[k].path);
                    assert(r[0].name == crate::paths::base_name(fs[i].path));
                    assert(r[b].name == crate::paths::base_name(fs[k].path));
                } else {
                    assert(r[a] == rest[a - 1]);
                    assert(r[b] == rest[b - 1]);
                }
            }
        } else {
            assert(r == rest);
            assert forall|j: int| 0 <= j < r.len() implies exists|k: int|
                i <= k < fs.len() && is_child(fs[k].path, dir) && (#[trigger] r[j]) == spec_item_of(
                    fs,
                    fs[k],
                    dir,
                    icons,
                ) by {
                let k = choose|k: int|
                    i + 1 <= k < fs.len() && is_child(fs[k].path, dir) && (#[trigger] rest[j])
                        == spec_item_of(fs, fs[k], dir, icons);
                assert(i <= k < fs.len() && is_child(fs[k].path, dir) && r[j] == spec_item_of(
                    fs,
                    fs[k],
                    dir,
                    icons,
                ));
            }
        }
    }
}

/// Over a sorted filesystem, every directory listing is sorted by name.
pub proof fn lemma_listing_sorted_by_name(fs: Seq<FsEntry>, dir: Seq<char>, icons: IconsModel)
    requires
        fs_sorted(fs),
    ensures
        forall|a: int, b: int|
            0 <= a < b < spec_list_dir(fs, dir, icons).len() ==> crate::paths::lex_lt(
                (#[trigger] spec_list_dir(fs, dir, icons)[a]).name,
                (#[trigger] spec_list_dir(fs, dir, icons)[b]).name,
            ),
{
    lemma_list_from_sorted(fs, 0, dir, icons);
}

/// Creating a directory and reloading the acting tab — which the create
/// reducer does in one dispatch — yields a listing that contains an entry
/// carrying the new name and classified as a directory.
pub proof fn lemma_create_dir_round_trip(
    s: AppModel,
    fs: Seq<FsEntry>,
    dir_name: Seq<char>,
    panel: PanelInfoModel,
)
    requires
        app_wf(s),
        valid_name(dir_name),
        0 <= panel.tab < panel_of(s, panel.side).tabs.len(),
        crate::fs_model::fs_contains(fs, panel.path),
        spec_create_dir(fs, spec_join(panel.path, dir_name)).1 is Ok,
    ensures
        ({
            let s2 = spec_dispatch(
                s,
                fs,
                ActionModel::Directory(DirectoryActionModel::Create { dir_name, panel }),
            ).0;
            let t = panel_of(s2, panel.side).tabs[panel.tab];
            &&& t.path == panel.path
            &&& exists|j: int|
                0 <= j < t.items.len() && (#[trigger] t.items[j]).name == dir_name
                    && t.items[j].is_dir()
        }),
{
    let icons = s.config.icons;
    let full = spec_join(panel.path, dir_name);
    let fs2 = spec_create_dir(fs, full).0;
    lemma_fs_insert_find(fs, full, FsNode::Dir, full);
    lemma_fs_find_index(fs2, full);
    let i = choose|i: int|
        0 <= i < fs2.len() && (#[trigger] fs2[i]).path == full && fs2[i].node == fs_find(
            fs2,
            full,
        )->0;
    lemma_join_is_child(panel.path, dir_name);
    lemma_child_base_name(panel.path, full);
    lemma_list_from_member(fs2, 0, panel.path, icons, i);
    let listing = spec_list_dir(fs2, panel.path, icons);
    let j = choose|j: int|
        0 <= j < listing.len() && #[trigger] listing[j] == spec_item_of(fs2, fs2[i], panel.path, icons);
    let s2 = spec_dispatch(
        s,
        fs,
        ActionModel::Directory(DirectoryActionModel::Create { dir_name, panel }),
    ).0;
    let t = panel_of(s2, panel.side).tabs[panel.tab];
    assert(t == spec_tab_with_dir(fs2, panel.path, icons));
    assert(t.items[j].name == dir_name && t.items[j].is_dir());
}

/// A listing over a filesystem that lacks `p` has no item at `p`.
proof fn lemma_listing_lacks_absent_path(
    fs: Seq<FsEntry>,
    dir: Seq<char>,
    icons: IconsModel,
    p: Seq<char>,
)
    requires
        fs_sorted(fs),
        !crate::fs_model::fs_contains(fs, p),
    ensures
        !spec_tab_contains(spec_tab_with_dir(fs, dir, icons), p),
{
    lemma_list_from_sorted(fs, 0, dir, icons);
    let listing = spec_list_dir(fs, dir, icons);
    assert forall|j: int| 0 <= j < listing.len() implies (#[trigger] listing[j]).path != p by {
        let k = choose|k: int|
            0 <= k < fs.len() && is_child(fs[k].path, dir) && (#[trigger] listing[j])
                == spec_item_of(fs, fs[k], dir, icons);
        if fs[k].path == p {
            crate::fs_model::lemma_fs_find_present(fs, k);
        }
    }
}

/// The cross-tab consistency rule: after a file or link is deleted, no tab
/// of either panel keeps listing the deleted path.
pub proof fn lemma_delete_leaves_no_stale_listing(
    s: AppModel,
    fs: Seq<FsEntry>,
    panel: PanelInfoModel,
)
    requires
        app_wf(s),
        fs_sorted(fs),
        0 <= panel.tab < panel_of(s, panel.side).tabs.len(),
        crate::reducers::file_reducer::spec_tab_has_file_at(
            panel_of(s, panel.side).tabs[panel.tab],
            panel.path,
        ),
        crate::fs_model::spec_delete_file(fs, panel.path).1 is Ok,
    ensures
        ({
            let s2 = spec_dispatch(s, fs, ActionModel::File(FileActionModel::Delete { panel })).0;
            &&& forall|k: int|
                0 <= k < s2.left_panel.tabs.len() ==> !spec_tab_contains(
                    #[trigger] s2.left_panel.tabs[k],
                    panel.path,
                )
            &&& forall|k: int|
                0 <= k < s2.right_panel.tabs.len() ==> !spec_tab_contains(
                    #[trigger] s2.right_panel.tabs[k],
                    panel.path,
                )
        }),
{
    let icons = s.config.icons;
    let p = panel_of(s, panel.side);
    let o = panel_of(s, other_panel_side(panel.side));
    let fs2 = crate::fs_model::spec_delete_file(fs, panel.path).0;
    crate::fs_model::lemma_fs_remove_sorted(fs, panel.path);
    crate::fs_model::lemma_fs_remove_find(fs, panel.path, panel.path);
    let mine = spec_reload_tab_contain_item(
        spec_reload_tab(p.tabs, panel.tab, fs2, icons),
        panel.path,
        fs2,
        icons,
    );
    let theirs = spec_reload_tab_contain_item(o.tabs, panel.path, fs2, icons);
    assert forall|k: int| 0 <= k < mine.len() implies !spec_tab_contains(
        #[trigger] mine[k],
        panel.path,
    ) by {
        let middle = spec_reload_tab(p.tabs, panel.tab, fs2, icons);
        if spec_tab_contains(middle[k], panel.path) {
            lemma_listing_lacks_absent_path(fs2, middle[k].path, icons, panel.path);
        } else {
            assert(mine[k] == middle[k]);
        }
    }
    assert forall|k: int| 0 <= k < theirs.len() implies !spec_tab_contains(
        #[trigger] theirs[k],
        panel.path,
    ) by {
        if spec_tab_contains(o.tabs[k], panel.path) {
            lemma_listing_lacks_absent_path(fs2, o.tabs[k].path, icons, panel.path);
        } else {
            assert(theirs[k] == o.tabs[k]);
        }
    }
    let s2 = spec_dispatch(s, fs, ActionModel::File(FileActionModel::Delete { panel })).0;
    if panel.side == PanelSide::Left {
        assert(s2.left_panel.tabs == mine);
        assert(s2.right_panel.tabs == theirs);
    } else {
        assert(s2.right_panel.tabs == mine);
        assert(s2.left_panel.tabs == theirs);
    }
}

/// Every dispatch leaves the filesystem model sorted, so the listing laws
/// hold in every reachable state.
pub proof fn lemma_dispatch_preserves_sorted(s: AppModel, fs: Seq<FsEntry>, a: ActionModel)
    requires
        fs_sorted(fs),
    ensures
        fs_sorted(spec_dispatch(s, fs, a).1),
{
    lemma_ops_preserve_sorted(fs);
}

/// Every model operation keeps the entries sorted.
proof fn lemma_ops_preserve_sorted(fs: Seq<FsEntry>)
    requires
        fs_sorted(fs),
    ensures
        forall|p: Seq<char>, n: crate::fs_model::FsNode|
            fs_sorted(#[trigger] crate::fs_model::fs_insert(fs, p, n)),
        forall|p: Seq<char>| fs_sorted(#[trigger] crate::fs_model::fs_remove(fs, p)),
        forall|p: Seq<char>| fs_sorted(#[trigger] crate::fs_model::fs_remove_subtree(fs, p)),
        forall|src: Seq<FsEntry>| fs_sorted(#[trigger] crate::fs_model::fs_insert_all(fs, src)),
        forall|p: Seq<char>, src: Seq<FsEntry>|
            fs_sorted(
                #[trigger] crate::fs_model::fs_insert_all(
                    crate::fs_model::fs_remove_subtree(fs, p),
                    src,
                ),
            ),
{
    assert forall|p: Seq<char>, n: crate::fs_model::FsNode|
        fs_sorted(#[trigger] crate::fs_model::fs_insert(fs, p, n)) by {
        lemma_fs_insert_sorted(fs, p, n);
    }
    assert forall|p: Seq<char>| fs_sorted(#[trigger] crate::fs_model::fs_remove(fs, p)) by {
        crate::fs_model::lemma_fs_remove_sorted(fs, p);
    }
    assert forall|p: Seq<char>| fs_sorted(
        #[trigger] crate::fs_model::fs_remove_subtree(fs, p),
    ) by {
        crate::fs_model::lemma_fs_remove_subtree_sorted(fs, p);
    }
    assert forall|src: Seq<FsEntry>| fs_sorted(
        #[trigger] crate::fs_model::fs_insert_all(fs, src),
    ) by {
        crate::fs_model::lemma_fs_insert_all_sorted(fs, src);
    }
    assert forall|p: Seq<char>, src: Seq<FsEntry>| fs_sorted(
        #[trigger] crate::fs_model::fs_insert_all(crate::fs_model::fs_remove_subtree(fs, p), src),
    ) by {
        crate::fs_model::lemma_fs_remove_subtree_sorted(fs, p);
        crate::fs_model::lemma_fs_insert_all_sorted(crate::fs_model::fs_remove_subtree(fs, p), src);
    }
}

/// The move a tab action stands for; reloads have none.
pub open spec fn move_of(a: TabActionModel) -> TabMove {
    match a {
        TabActionModel::Next => TabMove::Next,
        TabActionModel::Previous => TabMove::Prev,
        TabActionModel::SelectNext => TabMove::MultiNext,
        TabActionModel::SelectPrev => TabMove::MultiPrev,
        _ => TabMove::Clear,
    }
}


/// The file reducer preserves the invariants.
#[verifier::rlimit(100)]
proof fn lemma_file_reducer_wf(s: AppModel, fs: Seq<FsEntry>, file_action: FileActionModel)
    requires
        app_wf(s),
    ensures
        app_wf(crate::reducers::spec_file_reducer(s, fs, file_action).0),
{
    let icons = s.config.icons;

            lemma_reload_ops_wf();
            match file_action {
                FileActionModel::Delete { panel } => {
                    let p = panel_of(s, panel.side);
                    let o = panel_of(s, other_panel_side(panel.side));
                    let r = spec_file_delete_tabs(p.tabs, o.tabs, panel.path, panel.tab, fs, icons);
                    lemma_two_panel_set_wf(s, panel.side, r.0, r.1);
                },
                FileActionModel::Create { file_name, panel } => {
                    let p = panel_of(s, panel.side);
                    let o = panel_of(s, other_panel_side(panel.side));
                    let r = spec_file_create_tabs(
                        p.tabs,
                        o.tabs,
                        file_name,
                        panel.path,
                        panel.tab,
                        fs,
                        icons,
                    );
                    lemma_two_panel_set_wf(s, panel.side, r.0, r.1);
                },
                FileActionModel::Rename { from, to } => {
                    let p = panel_of(s, to.side);
                    let o = panel_of(s, other_panel_side(to.side));
                    let r = spec_file_rename_tabs(
                        p.tabs,
                        o.tabs,
                        from.path,
                        to.path,
                        to.tab,
                        fs,
                        icons,
                    );
                    lemma_two_panel_set_wf(s, to.side, r.0, r.1);
                },
                FileActionModel::Move { from, to } => {
                    let p = panel_of(s, to.side);
                    let o = panel_of(s, other_panel_side(to.side));
                    let r = spec_file_rename_tabs(
                        p.tabs,
                        o.tabs,
                        from.path,
                        to.path,
                        to.tab,
                        fs,
                        icons,
                    );
                    lemma_two_panel_set_wf(s, to.side, r.0, r.1);
                },
                FileActionModel::Copy { from, to } => {
                    let p = panel_of(s, to.side);
                    let o = panel_of(s, other_panel_side(to.side));
                    let r = spec_file_copy_tabs(
                        p.tabs,
                        o.tabs,
                        from.path,
                        to.path,
                        to.tab,
                        from.tab,
                        fs,
                        icons,
                    );
                    lemma_two_panel_set_wf(s, to.side, r.0, r.1);
                },
                FileActionModel::Open { panel } => {},
            }
}

/// The directory reducer preserves the invariants.
#[verifier::rlimit(100)]
proof fn lemma_dir_reducer_wf(s: AppModel, fs: Seq<FsEntry>, dir_action: DirectoryActionModel)
    requires
        app_wf(s),
    ensures
        app_wf(crate::reducers::spec_dir_reducer(s, fs, dir_action).0),
{
    let icons = s.config.icons;

            lemma_reload_ops_wf();
            match dir_action {
                DirectoryActionModel::Delete { panel, .. } => {
                    let p = panel_of(s, panel.side);
                    let o = panel_of(s, other_panel_side(panel.side));
                    let r = spec_dir_delete_tabs(
                        p.tabs,
                        o.tabs,
                        panel.path,
                        panel.tab,
                        false,
                        fs,
                        icons,
                    );
                    lemma_two_panel_set_wf(s, panel.side, r.0, r.1);
                },
                DirectoryActionModel::DeleteWithContent { panel } => {
                    let p = panel_of(s, panel.side);
                    let o = panel_of(s, other_panel_side(panel.side));
                    let r = spec_dir_delete_tabs(
                        p.tabs,
                        o.tabs,
                        panel.path,
                        panel.tab,
                        true,
                        fs,
                        icons,
                    );
                    lemma_two_panel_set_wf(s, panel.side, r.0, r.1);
                },
                DirectoryActionModel::Create { dir_name, panel } => {
                    let p = panel_of(s, panel.side);
                    let o = panel_of(s, other_panel_side(panel.side));
                    let r = spec_dir_create_tabs(
                        p.tabs,
                        o.tabs,
                        dir_name,
                        panel.path,
                        panel.tab,
                        fs,
                        icons,
                    );
                    lemma_two_panel_set_wf(s, panel.side, r.0, r.1);
                },
                DirectoryActionModel::Rename { from, to } => {
                    let p = panel_of(s, to.side);
                    let o = panel_of(s, other_panel_side(to.side));
                    let r = spec_file_rename_tabs(
                        p.tabs,
                        o.tabs,
                        from.path,
                        to.path,
                        to.tab,
                        fs,
                        icons,
                    );
                    lemma_two_panel_set_wf(s, to.side, r.0, r.1);
                },
                DirectoryActionModel::Move { from, to } => {
                    let p = panel_of(s, to.side);
                    let o = panel_of(s, other_panel_side(to.side));
                    let r = spec_file_rename_tabs(
                        p.tabs,
                        o.tabs,
                        from.path,
                        to.path,
                        to.tab,
                        fs,
                        icons,
                    );
                    lemma_two_panel_set_wf(s, to.side, r.0, r.1);
                },
                DirectoryActionModel::Copy { from, to } => {
                    let p = panel_of(s, to.side);
                    let o = panel_of(s, other_panel_side(to.side));
                    let r = spec_dir_copy_tabs(
                        p.tabs,
                        o.tabs,
                        from.path,
                        to.path,
                        to.tab,
                        from.tab,
                        fs,
                        icons,
                    );
                    lemma_two_panel_set_wf(s, to.side, r.0, r.1);
                },
                DirectoryActionModel::Open { panel, in_new_tab } => {
                    let p = panel_of(s, panel.side);
                    let tabs2 = spec_dir_open_tabs(
                        p.tabs,
                        panel.path,
                        panel.tab,
                        in_new_tab,
                        fs,
                        icons,
                    );
                    assert forall|k: int| 0 <= k < tabs2.len() implies tab_wf(
                        #[trigger] tabs2[k],
                    ) by {
                        if in_new_tab && k == p.tabs.len() {
                            assert(tabs2[k] == spec_tab_with_dir(fs, panel.path, icons));
                        }
                    }
                },
            }
}

} // verus!
