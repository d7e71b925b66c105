//! The store: it owns the current state, runs every dispatched action
//! through the middleware chain and the reducer tree, and keeps the dirty
//! flag the render loop polls.

use vstd::prelude::*;

use crate::actions::{ActionModel, FileManagerActions};
use crate::config::Config;
use crate::file_system::FileSystem;
use crate::fs_model::FsEntry;
use crate::middlewares::{dir_middleware, spec_dir_middleware, spec_symlink_middleware,
    symlink_middleware};
use crate::reducers::{root_reducer, spec_root_reducer};
use crate::state::{spec_default_panel, AppModel, AppState};

verus! {

/// What one dispatch does: the symlink resolver, then the directory guard,
/// then the reducer tree; a vetoed action changes nothing.
pub open spec fn spec_dispatch(s: AppModel, fs: Seq<FsEntry>, a: ActionModel) -> (
    AppModel,
    Seq<FsEntry>,
) {
    match spec_symlink_middleware(fs, a) {
        None => (s, fs),
        Some(a1) => match spec_dir_middleware(a1) {
            None => (s, fs),
            Some(a2) => spec_root_reducer(s, fs, a2),
        },
    }
}

/// Runs an action through both middlewares and the reducer tree.
pub fn dispatch_middlewares<F: FileSystem>(state: AppState<F>, action: FileManagerActions) -> (r:
    AppState<F>)
    ensures
        (r@, r.file_system.fs()) == spec_dispatch(state@, state.file_system.fs(), action@),
{
    match symlink_middleware(&state.file_system, action) {
        None => state,
        Some(a1) => match dir_middleware(a1) {
            None => state,
            Some(a2) => root_reducer(state, a2),
        },
    }
}

/// Owner of the current state and of the dirty flag.
pub struct Store<F: FileSystem> {
    is_dirty: bool,
    state: AppState<F>,
}

impl<F: FileSystem> Store<F> {
    /// The model of the held state.
    pub closed spec fn state_model(&self) -> AppModel {
        self.state@
    }

    /// The model of the held filesystem.
    pub closed spec fn fs_model(&self) -> Seq<FsEntry> {
        self.state.file_system.fs()
    }

    /// Whether the state changed since the renderer last looked.
    pub closed spec fn spec_is_dirty(&self) -> bool {
        self.is_dirty
    }

    /// A store over the starting state.
    pub fn new(config: Config, file_system: F) -> (r: Self)
        ensures
            r.state_model().left_panel == spec_default_panel(),
            r.state_model().right_panel == spec_default_panel(),
            r.state_model().app_exit == false,
            r.state_model().config == config@,
            r.state_model().child_program is None,
            r.state_model().modal is None,
            r.fs_model() == file_system.fs(),
            !r.spec_is_dirty(),
    {
        Store { is_dirty: false, state: AppState::new(config, file_system) }
    }

    /// A store over a given state.
    pub fn with_state(state: AppState<F>) -> (r: Self)
        ensures
            r.state_model() == state@,
            r.fs_model() == state.file_system.fs(),
            !r.spec_is_dirty(),
    {
        Store { is_dirty: false, state }
    }

    /// Notes that a redraw is owed.
    pub fn mark_as_dirty(&mut self)
        ensures
            final(self).spec_is_dirty(),
            final(self).state_model() == old(self).state_model(),
            final(self).fs_model() == old(self).fs_model(),
    {
        self.is_dirty = true
    }

    /// Notes that the state was drawn.
    pub fn clean(&mut self)
        ensures
            !final(self).spec_is_dirty(),
            final(self).state_model() == old(self).state_model(),
            final(self).fs_model() == old(self).fs_model(),
    {
        self.is_dirty = false
    }

    /// Whether a redraw is owed.
    pub fn is_dirty(&self) -> (r: bool)
        ensures
            r == self.spec_is_dirty(),
    {
        self.is_dirty
    }

    /// A copy of the current state.
    pub fn get_state(&self) -> (r: AppState<F>)
        ensures
            r@ == self.state_model(),
            r.file_system.fs() == self.fs_model(),
    {
        AppState {
            left_panel: self.state.left_panel.clone(),
            right_panel: self.state.right_panel.clone(),
            app_exit: self.state.app_exit,
            config: self.state.config.clone(),
            child_program: match &self.state.child_program {
                Some(c) => Some(c.clone()),
                None => None,
            },
            modal: match &self.state.modal {
                Some(m) => Some(m.clone()),
                None => None,
            },
            file_system: self.state.file_system.duplicate(),
        }
    }

    /// Runs `action` through the middleware chain, hands what survives to
    /// the reducer tree, stores the new state and marks it dirty.
    pub fn dispatch(&mut self, action: FileManagerActions)
        ensures
            (final(self).state_model(), final(self).fs_model()) == spec_dispatch(
                old(self).state_model(),
                old(self).fs_model(),
                action@,
            ),
            final(self).spec_is_dirty(),
    {
        let mut state = AppState::new(Config::default(), self.state.file_system.duplicate());
        core::mem::swap(&mut state, &mut self.state);
        let state = dispatch_middlewares(state, action);
        self.state = state;
        self.mark_as_dirty();
    }
}

} // verus!
