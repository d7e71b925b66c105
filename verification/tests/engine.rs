//! Scenario tests running the whole engine over the in-memory filesystem.

use file_manager::actions::{
    DirectoryAction, FileAction, FileManagerActions, PanelAction, PanelInfo, PanelSide,
    SearchAction, SymlinkAction, TabAction,
};
use file_manager::config::Config;
use file_manager::file_system::FileSystem;
use file_manager::state::{AppState, ModalType, PanelState, TabState};
use file_manager::store::Store;
use file_manager::virtual_fs::VirtualFileSystem;

/// A filesystem holding `/root` with the named children.
fn fs_with_root(files: &[&str], dirs: &[&str]) -> VirtualFileSystem {
    let mut fs = VirtualFileSystem::new();
    fs.create_dir("/root").unwrap();
    for d in dirs {
        fs.create_dir(&format!("/root/{}", d)).unwrap();
    }
    for f in files {
        fs.create_file(&format!("/root/{}", f)).unwrap();
    }
    fs
}

/// Both panels looking at `/root`, the left one focused.
fn two_panel_state(fs: VirtualFileSystem) -> AppState<VirtualFileSystem> {
    let config = Config::default();
    let left_tab = TabState::with_dir("/root", &fs, &config.icons);
    let right_tab = TabState::with_dir("/root", &fs, &config.icons);
    AppState {
        left_panel: PanelState { tabs: vec![left_tab], is_focused: true, current_tab: 0 },
        right_panel: PanelState { tabs: vec![right_tab], is_focused: false, current_tab: 0 },
        app_exit: false,
        config,
        child_program: None,
        modal: None,
        file_system: fs,
    }
}

fn names_of(tab: &TabState) -> Vec<String> {
    tab.items.iter().map(|i| i.get_name()).collect()
}

#[test]
fn create_dir_round_trip() {
    let fs = fs_with_root(&[], &[]);
    let mut store = Store::with_state(two_panel_state(fs));
    store.dispatch(FileManagerActions::Directory(DirectoryAction::Create {
        dir_name: "sub".to_string(),
        panel: PanelInfo { path: "/root".to_string(), tab: 0, side: PanelSide::Left },
    }));
    let state = store.get_state();
    let tab = &state.left_panel.tabs[0];
    assert_eq!(tab.path, "/root");
    let names = names_of(tab);
    assert!(names.contains(&"sub".to_string()));
    let idx = names.iter().position(|n| n == "sub").unwrap();
    assert!(tab.items[idx].is_dir());
}

#[test]
fn delete_file_reloads_both_panels() {
    let fs = fs_with_root(&["a.txt"], &[]);
    let mut store = Store::with_state(two_panel_state(fs));
    assert!(names_of(&store.get_state().left_panel.tabs[0]).contains(&"a.txt".to_string()));
    assert!(names_of(&store.get_state().right_panel.tabs[0]).contains(&"a.txt".to_string()));
    store.dispatch(FileManagerActions::File(FileAction::Delete {
        panel: PanelInfo { path: "/root/a.txt".to_string(), tab: 0, side: PanelSide::Left },
    }));
    let state = store.get_state();
    assert!(!names_of(&state.left_panel.tabs[0]).contains(&"a.txt".to_string()));
    assert!(!names_of(&state.right_panel.tabs[0]).contains(&"a.txt".to_string()));
}

#[test]
fn select_next_wraps_to_first_item() {
    let fs = fs_with_root(&["a.txt", "b.txt", "c.txt"], &[]);
    let mut state = two_panel_state(fs);
    state.left_panel.tabs[0].cursor = Some(2);
    let mut store = Store::with_state(state);
    store.dispatch(FileManagerActions::Tab(TabAction::SelectNext));
    let state = store.get_state();
    let tab = &state.left_panel.tabs[0];
    assert_eq!(tab.cursor, Some(0));
    let added = tab.selected.last().unwrap();
    assert_eq!(added.get_name(), tab.items[0].get_name());
}

#[test]
fn apply_search_keeps_phrase_and_resets_cursor() {
    let fs = fs_with_root(&["readme.md", "main.rs"], &[]);
    let mut state = two_panel_state(fs);
    state.left_panel.tabs[0].cursor = Some(1);
    let mut store = Store::with_state(state);
    store.dispatch(FileManagerActions::Search(SearchAction::Start {
        tab: 0,
        panel_side: PanelSide::Left,
    }));
    store.dispatch(FileManagerActions::Search(SearchAction::Input {
        tab: 0,
        panel_side: PanelSide::Left,
        phrase: "re".to_string(),
    }));
    store.dispatch(FileManagerActions::Search(SearchAction::ApplySearch {
        tab: 0,
        panel_side: PanelSide::Left,
    }));
    let state = store.get_state();
    let tab = &state.left_panel.tabs[0];
    assert!(!tab.search_mode);
    assert_eq!(tab.phrase, "re");
    assert_eq!(tab.cursor, None);
    assert!(tab.selected.is_empty());
}

#[test]
fn search_input_ignored_outside_search_mode() {
    let fs = fs_with_root(&["a.txt"], &[]);
    let mut store = Store::with_state(two_panel_state(fs));
    store.dispatch(FileManagerActions::Search(SearchAction::Input {
        tab: 0,
        panel_side: PanelSide::Left,
        phrase: "zzz".to_string(),
    }));
    assert_eq!(store.get_state().left_panel.tabs[0].phrase, "");
}

#[test]
fn panel_next_rotation_returns() {
    let fs = fs_with_root(&[], &["d1", "d2"]);
    let config = Config::default();
    let t1 = TabState::with_dir("/root", &fs, &config.icons);
    let t2 = TabState::with_dir("/root/d1", &fs, &config.icons);
    let t3 = TabState::with_dir("/root/d2", &fs, &config.icons);
    let state = AppState {
        left_panel: PanelState { tabs: vec![t1, t2, t3], is_focused: true, current_tab: 1 },
        right_panel: PanelState {
            tabs: vec![TabState::with_dir("/root", &fs, &config.icons)],
            is_focused: false,
            current_tab: 0,
        },
        app_exit: false,
        config,
        child_program: None,
        modal: None,
        file_system: fs,
    };
    let mut store = Store::with_state(state);
    for _ in 0..3 {
        store.dispatch(FileManagerActions::Panel(PanelAction::Next { panel: PanelSide::Left }));
    }
    assert_eq!(store.get_state().left_panel.current_tab, 1);
    store.dispatch(FileManagerActions::Panel(PanelAction::Next { panel: PanelSide::Left }));
    assert_eq!(store.get_state().left_panel.current_tab, 2);
}

#[test]
fn nonempty_delete_becomes_confirmation_modal() {
    let fs = fs_with_root(&[], &["full"]);
    let mut fs = fs;
    fs.create_file("/root/full/inner.txt").unwrap();
    let mut store = Store::with_state(two_panel_state(fs));
    store.dispatch(FileManagerActions::Directory(DirectoryAction::Delete {
        panel: PanelInfo { path: "/root/full".to_string(), tab: 0, side: PanelSide::Left },
        is_empty: false,
    }));
    let state = store.get_state();
    match state.modal {
        Some(ModalType::DeleteDirWithContent { panel_side, panel_tab, path }) => {
            assert_eq!(panel_side, PanelSide::Left);
            assert_eq!(panel_tab, 0);
            assert_eq!(path, "/root/full");
        }
        other => panic!("expected the confirmation modal, got {:?}", other.is_some()),
    }
    // the directory is untouched
    assert!(state.file_system.exist("/root/full/inner.txt"));
}

#[test]
fn confirmed_delete_with_content_removes_subtree() {
    let fs = fs_with_root(&[], &["full"]);
    let mut fs = fs;
    fs.create_file("/root/full/inner.txt").unwrap();
    let mut store = Store::with_state(two_panel_state(fs));
    store.dispatch(FileManagerActions::Directory(DirectoryAction::DeleteWithContent {
        panel: PanelInfo { path: "/root/full".to_string(), tab: 0, side: PanelSide::Left },
    }));
    let state = store.get_state();
    assert!(!state.file_system.exist("/root/full"));
    assert!(!state.file_system.exist("/root/full/inner.txt"));
    assert!(!names_of(&state.left_panel.tabs[0]).contains(&"full".to_string()));
}

#[test]
fn symlink_open_matches_direct_directory_open() {
    let mut fs = VirtualFileSystem::new();
    fs.create_dir("/root").unwrap();
    fs.create_dir("/root/dir").unwrap();
    fs.create_file("/root/dir/inside.txt").unwrap();
    fs.create_symlink("/root/ln", "/root/dir").unwrap();
    let state_a = two_panel_state(fs.duplicate());
    let state_b = two_panel_state(fs);

    let mut store_a = Store::with_state(state_a);
    store_a.dispatch(FileManagerActions::Symlink(SymlinkAction::Open {
        panel: PanelInfo { path: "/root/ln".to_string(), tab: 0, side: PanelSide::Left },
        in_new_tab: false,
    }));
    let mut store_b = Store::with_state(state_b);
    store_b.dispatch(FileManagerActions::Directory(DirectoryAction::Open {
        panel: PanelInfo { path: "/root/dir".to_string(), tab: 0, side: PanelSide::Left },
        in_new_tab: false,
    }));

    let a = store_a.get_state();
    let b = store_b.get_state();
    assert_eq!(a.left_panel.tabs[0].path, b.left_panel.tabs[0].path);
    assert_eq!(a.left_panel.tabs[0].path, "/root/dir");
    assert_eq!(names_of(&a.left_panel.tabs[0]), names_of(&b.left_panel.tabs[0]));
    assert_eq!(names_of(&a.left_panel.tabs[0]), vec!["inside.txt".to_string()]);
}

#[test]
fn broken_symlink_open_shows_error_modal() {
    let fs = fs_with_root(&["plain.txt"], &[]);
    let mut store = Store::with_state(two_panel_state(fs));
    store.dispatch(FileManagerActions::Symlink(SymlinkAction::Open {
        panel: PanelInfo { path: "/root/missing".to_string(), tab: 0, side: PanelSide::Left },
        in_new_tab: false,
    }));
    let state = store.get_state();
    match state.modal {
        Some(ModalType::ErrorModal(msg)) => assert_eq!(msg, "no such entry"),
        _ => panic!("expected an error modal"),
    }
}

#[test]
fn open_file_fills_child_program() {
    let fs = fs_with_root(&["notes.txt"], &[]);
    let mut store = Store::with_state(two_panel_state(fs));
    store.dispatch(FileManagerActions::File(FileAction::Open {
        panel: PanelInfo { path: "/root/notes.txt".to_string(), tab: 0, side: PanelSide::Left },
    }));
    let mut state = store.get_state();
    let child = state.child_program.take().expect("a child program is owed");
    assert_eq!(child.program_name, "nvim");
    assert_eq!(child.args, vec!["/root/notes.txt".to_string()]);
    // the run loop reports the child closed, which clears the descriptor
    state.child_program = Some(child);
    let mut store = Store::with_state(state);
    store.dispatch(FileManagerActions::App(file_manager::actions::AppAction::ChildProgramClosed));
    assert!(store.get_state().child_program.is_none());
}

#[test]
fn rename_reloads_tabs_listing_the_source() {
    let fs = fs_with_root(&["old.txt"], &[]);
    let mut store = Store::with_state(two_panel_state(fs));
    store.dispatch(FileManagerActions::File(FileAction::Rename {
        from: PanelInfo { path: "/root/old.txt".to_string(), tab: 0, side: PanelSide::Left },
        to: PanelInfo { path: "/root/new.txt".to_string(), tab: 0, side: PanelSide::Left },
    }));
    let state = store.get_state();
    let left = names_of(&state.left_panel.tabs[0]);
    let right = names_of(&state.right_panel.tabs[0]);
    assert!(left.contains(&"new.txt".to_string()) && !left.contains(&"old.txt".to_string()));
    assert!(right.contains(&"new.txt".to_string()) && !right.contains(&"old.txt".to_string()));
}

#[test]
fn focus_is_exclusive() {
    let fs = fs_with_root(&[], &[]);
    let mut store = Store::with_state(two_panel_state(fs));
    store.dispatch(FileManagerActions::App(file_manager::actions::AppAction::FocusRight));
    let state = store.get_state();
    assert!(!state.left_panel.is_focused);
    assert!(state.right_panel.is_focused);
    let mut store = Store::with_state(state);
    store.dispatch(FileManagerActions::App(file_manager::actions::AppAction::FocusLeft));
    let state = store.get_state();
    assert!(state.left_panel.is_focused);
    assert!(!state.right_panel.is_focused);
}

#[test]
fn close_tab_keeps_last_tab() {
    let fs = fs_with_root(&[], &[]);
    let mut store = Store::with_state(two_panel_state(fs));
    store.dispatch(FileManagerActions::Panel(PanelAction::CloseTab {
        tab: 0,
        panel: PanelSide::Left,
    }));
    assert_eq!(store.get_state().left_panel.tabs.len(), 1);
}

#[test]
fn open_dir_in_new_tab_appends() {
    let fs = fs_with_root(&[], &["sub"]);
    let mut store = Store::with_state(two_panel_state(fs));
    store.dispatch(FileManagerActions::Directory(DirectoryAction::Open {
        panel: PanelInfo { path: "/root/sub".to_string(), tab: 0, side: PanelSide::Left },
        in_new_tab: true,
    }));
    let state = store.get_state();
    assert_eq!(state.left_panel.tabs.len(), 2);
    assert_eq!(state.left_panel.tabs[1].path, "/root/sub");
    assert_eq!(state.left_panel.current_tab, 0);
}

#[test]
fn dispatch_sets_dirty_and_clean_clears() {
    let fs = fs_with_root(&[], &[]);
    let mut store = Store::with_state(two_panel_state(fs));
    assert!(!store.is_dirty());
    store.dispatch(FileManagerActions::App(file_manager::actions::AppAction::Exit));
    assert!(store.is_dirty());
    assert!(store.get_state().app_exit);
    store.clean();
    assert!(!store.is_dirty());
    store.mark_as_dirty();
    assert!(store.is_dirty());
}

#[test]
fn search_filters_cursor_moves_over_matches() {
    let fs = fs_with_root(&["readme.md", "main.rs", "red.txt"], &[]);
    let mut state = two_panel_state(fs);
    state.left_panel.tabs[0].phrase = "re".to_string();
    let mut store = Store::with_state(state);
    // filtered view: readme.md, red.txt (sorted by name: main.rs, readme.md, red.txt)
    store.dispatch(FileManagerActions::Tab(TabAction::SelectNext));
    let state = store.get_state();
    let tab = &state.left_panel.tabs[0];
    assert_eq!(tab.cursor, Some(0));
    assert_eq!(tab.selected[0].get_name(), "readme.md");
}

#[test]
fn move_file_between_panels() {
    let mut fs = VirtualFileSystem::new();
    fs.create_dir("/one").unwrap();
    fs.create_dir("/two").unwrap();
    fs.create_file("/one/file.txt").unwrap();
    let config = Config::default();
    let left_tab = TabState::with_dir("/one", &fs, &config.icons);
    let right_tab = TabState::with_dir("/two", &fs, &config.icons);
    let state = AppState {
        left_panel: PanelState { tabs: vec![left_tab], is_focused: true, current_tab: 0 },
        right_panel: PanelState { tabs: vec![right_tab], is_focused: false, current_tab: 0 },
        app_exit: false,
        config,
        child_program: None,
        modal: None,
        file_system: fs,
    };
    let mut store = Store::with_state(state);
    store.dispatch(FileManagerActions::File(FileAction::Move {
        from: PanelInfo { path: "/one/file.txt".to_string(), tab: 0, side: PanelSide::Left },
        to: PanelInfo { path: "/two/file.txt".to_string(), tab: 0, side: PanelSide::Right },
    }));
    let state = store.get_state();
    assert!(!state.file_system.exist("/one/file.txt"));
    assert!(state.file_system.exist("/two/file.txt"));
    // the source tab listed the moved path and was reloaded
    assert!(!names_of(&state.left_panel.tabs[0]).contains(&"file.txt".to_string()));
    // the destination tab was reloaded as the acting tab
    assert!(names_of(&state.right_panel.tabs[0]).contains(&"file.txt".to_string()));
}

#[test]
fn select_prev_wraps_to_last_item() {
    let fs = fs_with_root(&["a.txt", "b.txt", "c.txt"], &[]);
    let mut store = Store::with_state(two_panel_state(fs));
    store.dispatch(FileManagerActions::Tab(TabAction::SelectPrev));
    let state = store.get_state();
    let tab = &state.left_panel.tabs[0];
    // with no cursor the first move lands on the first item
    assert_eq!(tab.cursor, Some(0));
    let mut store = Store::with_state(state);
    store.dispatch(FileManagerActions::Tab(TabAction::SelectPrev));
    let state = store.get_state();
    let tab = &state.left_panel.tabs[0];
    assert_eq!(tab.cursor, Some(2));
    assert_eq!(tab.selected.last().unwrap().get_name(), "c.txt");
}

#[test]
fn clear_selection_empties_cursor_and_selection() {
    let fs = fs_with_root(&["a.txt", "b.txt"], &[]);
    let mut store = Store::with_state(two_panel_state(fs));
    store.dispatch(FileManagerActions::Tab(TabAction::SelectNext));
    store.dispatch(FileManagerActions::Tab(TabAction::SelectNext));
    assert_eq!(store.get_state().left_panel.tabs[0].selected.len(), 2);
    store.dispatch(FileManagerActions::Tab(TabAction::ClearSelection));
    let tab = &store.get_state().left_panel.tabs[0];
    assert!(tab.selected.is_empty());
    assert_eq!(tab.cursor, None);
}

#[test]
fn create_file_reloads_other_panel_at_same_path() {
    let fs = fs_with_root(&[], &[]);
    let mut store = Store::with_state(two_panel_state(fs));
    store.dispatch(FileManagerActions::File(FileAction::Create {
        file_name: "fresh.txt".to_string(),
        panel: PanelInfo { path: "/root".to_string(), tab: 0, side: PanelSide::Left },
    }));
    let state = store.get_state();
    assert!(names_of(&state.left_panel.tabs[0]).contains(&"fresh.txt".to_string()));
    assert!(names_of(&state.right_panel.tabs[0]).contains(&"fresh.txt".to_string()));
}

#[test]
fn symlink_create_reloads_parent_tabs() {
    let fs = fs_with_root(&["target.txt"], &[]);
    let mut store = Store::with_state(two_panel_state(fs));
    store.dispatch(FileManagerActions::Symlink(SymlinkAction::Create {
        symlink_path: "/root/ln".to_string(),
        panel: PanelInfo { path: "/root/target.txt".to_string(), tab: 0, side: PanelSide::Left },
    }));
    let state = store.get_state();
    assert_eq!(state.file_system.read_link("/root/ln"), Ok("/root/target.txt".to_string()));
    // both panels stand at the link's parent directory and show the link
    assert!(names_of(&state.left_panel.tabs[0]).contains(&"ln".to_string()));
    assert!(names_of(&state.right_panel.tabs[0]).contains(&"ln".to_string()));
    let idx = names_of(&state.left_panel.tabs[0]).iter().position(|n| n == "ln").unwrap();
    assert!(state.left_panel.tabs[0].items[idx].is_symlink());
}
