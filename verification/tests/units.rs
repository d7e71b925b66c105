//! Unit tests of the path helpers, the text helpers, the configuration
//! tables and the in-memory filesystem.

use file_manager::components::{CreateOption, Options};
use file_manager::config::{Config, FileAssociatedPrograms, IconsConfig};
use file_manager::events::Error;
use file_manager::file_system::{DirInfo, FileSystem};
use file_manager::fs_model::FsError;
use file_manager::paths::{
    base_name_of, expand_if_contains_tilde, join_path, parent_dir_of, str_eq, str_has_prefix,
    str_in_subtree, str_is_child, str_is_root, str_is_valid_abs_path, str_lt,
};
use file_manager::text::{ci_contains, extension_key_of, icon_key_of};
use file_manager::virtual_fs::VirtualFileSystem;

#[test]
fn path_order_is_lexicographic() {
    assert!(str_lt("/a", "/b"));
    assert!(str_lt("/a", "/a/b"));
    assert!(!str_lt("/b", "/a"));
    assert!(!str_lt("/a", "/a"));
    assert!(str_lt("/a.txt", "/a/b"));
}

#[test]
fn path_structure_helpers() {
    assert_eq!(join_path("/", "a"), "/a");
    assert_eq!(join_path("/root", "a.txt"), "/root/a.txt");
    assert_eq!(base_name_of("/root/a.txt"), "a.txt");
    assert_eq!(base_name_of("/"), "");
    assert_eq!(parent_dir_of("/root/a.txt"), "/root");
    assert_eq!(parent_dir_of("/root"), "/");
    assert!(str_is_root("/"));
    assert!(!str_is_root("/a"));
    assert!(str_is_child("/root/a", "/root"));
    assert!(!str_is_child("/root/a/b", "/root"));
    assert!(str_is_child("/a", "/"));
    assert!(str_in_subtree("/root/a/b", "/root"));
    assert!(str_in_subtree("/root", "/root"));
    assert!(!str_in_subtree("/rooted", "/root"));
    assert!(str_has_prefix("/root/a", "/root"));
    assert!(str_eq("abc", "abc"));
    assert!(!str_eq("abc", "abd"));
    assert!(str_is_valid_abs_path("/root/a"));
    assert!(!str_is_valid_abs_path("root"));
    assert!(!str_is_valid_abs_path("/root/"));
    assert!(!str_is_valid_abs_path("/root//a"));
}

#[test]
fn text_helpers() {
    assert!(ci_contains("ReadMe.md", "read"));
    // a case-sensitive comparison would miss both of these
    assert!(ci_contains("NAME.TXT", "name.txt"));
    assert!(ci_contains("\u{c9}COLE.txt", "\u{e9}cole"));
    assert!(ci_contains("main.rs", ""));
    assert!(!ci_contains("main.rs", "xyz"));
    assert_eq!(icon_key_of("archive.tar.gz"), "gz");
    assert_eq!(icon_key_of("Makefile"), "Makefile");
    assert_eq!(icon_key_of(".gitignore"), "gitignore");
    assert_eq!(extension_key_of("a.txt"), "txt");
    assert_eq!(extension_key_of(".gitignore"), "");
    assert_eq!(extension_key_of("none"), "");
}

#[test]
fn dir_info_splits_paths() {
    let info = DirInfo::new("/root/sub").unwrap();
    assert_eq!(info.name, "sub");
    assert_eq!(info.path, "/root/sub");
    assert!(DirInfo::new("relative").is_none());
}

#[test]
fn icons_config_lookup_and_fallback() {
    let mut icons = IconsConfig::default();
    assert_eq!(icons.get_dir_icon(".git".to_string()), "\u{1F4C1}");
    assert_eq!(icons.get_dir_icon("anything".to_string()), "\u{1F4C1}");
    assert_eq!(icons.get_file_icon("rs".to_string()), "\u{1F4C4}");
    assert_eq!(icons.get_file_icon("symlink".to_string()), "\u{1F3AF}");
    icons.set_dir_icon("music".to_string(), "M".to_string());
    assert_eq!(icons.get_dir_icon("music".to_string()), "M");
    icons.set_file_icon("rs".to_string(), "R".to_string());
    assert_eq!(icons.get_file_icon("rs".to_string()), "R");
    icons.set_use_icons(true);
    assert!(icons.use_icons);
}

#[test]
fn program_associations_fall_back_to_default() {
    let mut programs = FileAssociatedPrograms::default();
    assert_eq!(programs.get_program_name("txt".to_string()), "nvim");
    programs.set_binding("md".to_string(), "glow".to_string());
    assert_eq!(programs.get_program_name("md".to_string()), "glow");
    assert_eq!(programs.get_program_name("other".to_string()), "nvim");
}

#[test]
fn vfs_listing_is_sorted_and_classified() {
    let mut fs = VirtualFileSystem::new();
    fs.create_dir("/root").unwrap();
    fs.create_file("/root/b.txt").unwrap();
    fs.create_dir("/root/a").unwrap();
    fs.create_symlink("/root/c", "/root/a").unwrap();
    let config = Config::default();
    let items = fs.list_dir("/root", &config.icons);
    let names: Vec<String> = items.iter().map(|i| i.get_name()).collect();
    assert_eq!(names, vec!["a".to_string(), "b.txt".to_string(), "c".to_string()]);
    assert!(items[0].is_dir());
    assert!(items[1].is_file());
    assert!(items[2].is_symlink());
}

#[test]
fn vfs_dir_is_empty_flag() {
    let mut fs = VirtualFileSystem::new();
    fs.create_dir("/root").unwrap();
    fs.create_dir("/root/empty").unwrap();
    fs.create_dir("/root/full").unwrap();
    fs.create_file("/root/full/x").unwrap();
    let config = Config::default();
    let items = fs.list_dir("/root", &config.icons);
    for item in &items {
        if let file_manager::items::FileSystemItem::Directory(d) = item {
            if d.get_name() == "empty" {
                assert!(d.is_empty());
            } else {
                assert!(!d.is_empty());
            }
        }
    }
}

#[test]
fn vfs_errors() {
    let mut fs = VirtualFileSystem::new();
    fs.create_dir("/root").unwrap();
    assert_eq!(fs.create_dir("/root"), Err(FsError::AlreadyExists));
    assert_eq!(fs.create_dir("/no/parent"), Err(FsError::NotFound));
    assert_eq!(fs.create_dir("relative"), Err(FsError::Unsupported));
    assert_eq!(fs.delete_file("/root"), Err(FsError::Unsupported));
    assert_eq!(fs.delete_file("/gone"), Err(FsError::NotFound));
    fs.create_file("/root/f").unwrap();
    assert_eq!(fs.delete_empty_dir("/root"), Err(FsError::NotEmpty));
    assert_eq!(fs.delete_empty_dir("/root/f"), Err(FsError::Unsupported));
    assert_eq!(FsError::NotFound.message(), "no such entry");
}

#[test]
fn vfs_rename_moves_subtree() {
    let mut fs = VirtualFileSystem::new();
    fs.create_dir("/root").unwrap();
    fs.create_dir("/root/a").unwrap();
    fs.create_file("/root/a/inner.txt").unwrap();
    fs.rename_item("/root/a", "/root/b").unwrap();
    assert!(!fs.exist("/root/a"));
    assert!(!fs.exist("/root/a/inner.txt"));
    assert!(fs.is_dir("/root/b"));
    assert!(fs.exist("/root/b/inner.txt"));
    assert_eq!(fs.rename_item("/root/missing", "/root/c"), Err(FsError::NotFound));
    assert_eq!(fs.rename_item("/root/b", "/root/b/c"), Err(FsError::Unsupported));
}

#[test]
fn vfs_copy_keeps_source() {
    let mut fs = VirtualFileSystem::new();
    fs.create_dir("/root").unwrap();
    fs.create_dir("/root/a").unwrap();
    fs.create_file("/root/a/inner.txt").unwrap();
    fs.copy_dir("/root/a", "/root/b").unwrap();
    assert!(fs.exist("/root/a/inner.txt"));
    assert!(fs.exist("/root/b/inner.txt"));
    fs.create_file("/root/f1").unwrap();
    fs.copy_file("/root/f1", "/root/f2").unwrap();
    assert!(fs.exist("/root/f1"));
    assert!(fs.exist("/root/f2"));
}

#[test]
fn vfs_read_link_and_read_to_string() {
    let mut fs = VirtualFileSystem::new();
    fs.create_dir("/root").unwrap();
    fs.create_file("/root/f").unwrap();
    fs.create_symlink("/root/ln", "/root/f").unwrap();
    assert_eq!(fs.read_link("/root/ln"), Ok("/root/f".to_string()));
    assert_eq!(fs.read_link("/root/f"), Err(FsError::Unsupported));
    assert_eq!(fs.read_link("/root/gone"), Err(FsError::NotFound));
    assert_eq!(fs.read_to_string("/root/f"), Some(String::new()));
    assert_eq!(fs.read_to_string("/root/ln"), None);
    assert!(fs.get_dir_info("/root").is_some());
    assert!(fs.get_dir_info("/root/f").is_none());
    let info = fs.get_dir_info("/root").unwrap();
    assert_eq!(info.name, "root");
}

#[test]
fn labels_and_event_errors() {
    assert_eq!(CreateOption::File.to_string(), "File");
    assert_eq!(CreateOption::Dir.to_string(), "Directory");
    assert_eq!(CreateOption::Symlink.to_string(), "Symlink");
    assert_eq!(Options::Confirm.to_string(), "Ok");
    assert_eq!(Options::Cancel.to_string(), "Cancel");
    assert_eq!(Error::MessagePoolError.to_string(), "Error happend on message pool");
    assert_eq!(Error::EventReadError.to_string(), "Error on event read");
}

#[test]
fn filtered_items_respect_phrase() {
    let mut fs = VirtualFileSystem::new();
    fs.create_dir("/root").unwrap();
    fs.create_file("/root/readme.md").unwrap();
    fs.create_file("/root/main.rs").unwrap();
    let config = Config::default();
    let mut tab = file_manager::state::TabState::with_dir("/root", &fs, &config.icons);
    assert_eq!(tab.filtered_items().len(), 2);
    tab.phrase = "READ".to_string();
    let filtered = tab.filtered_items();
    assert_eq!(filtered.len(), 1);
    assert_eq!(filtered[0].get_name(), "readme.md");
}

#[test]
fn tilde_expansion() {
    let home = "/home/user".to_string();
    assert_eq!(expand_if_contains_tilde("/plain", Some(&home)), Some("/plain".to_string()));
    assert_eq!(expand_if_contains_tilde("~", Some(&home)), Some("/home/user".to_string()));
    assert_eq!(
        expand_if_contains_tilde("~/docs", Some(&home)),
        Some("/home/user/docs".to_string())
    );
    assert_eq!(
        expand_if_contains_tilde("~/docs", Some(&"/".to_string())),
        Some("/docs".to_string())
    );
    assert_eq!(expand_if_contains_tilde("~/docs", None), None);
    assert_eq!(expand_if_contains_tilde("~", None), None);
}

#[test]
fn vfs_copy_file_overwrites_files_only() {
    let mut fs = VirtualFileSystem::new();
    fs.create_dir("/root").unwrap();
    fs.create_file("/root/a").unwrap();
    fs.create_file("/root/b").unwrap();
    assert_eq!(fs.copy_file("/root/a", "/root/b"), Ok(()));
    fs.create_dir("/root/d").unwrap();
    assert_eq!(fs.copy_file("/root/a", "/root/d"), Err(FsError::AlreadyExists));
    assert_eq!(fs.copy_file("/root/d", "/root/e"), Err(FsError::Unsupported));
}
