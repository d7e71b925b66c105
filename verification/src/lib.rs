//! Core engine of a dual-pane, tabbed terminal file manager.
//!
//! The crate holds the application-state engine: the action taxonomy, the
//! middleware chain and reducer tree, the panel/tab/item data model with its
//! consistency invariants, and an in-memory implementation of the filesystem
//! capability through which all reducers perform their effects.

pub mod paths;
pub mod reducers;
pub mod virtual_fs;
pub mod file_system;
pub mod fs_model;
pub mod actions;
pub mod components;
pub mod events;
pub mod config;
pub mod items;
pub mod laws;
pub mod middlewares;
pub mod state;
pub mod store;
pub mod text;
