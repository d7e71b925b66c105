//! The middleware chain: interceptors that may rewrite or veto an action
//! before it reaches the reducer tree.
//!
//! The symlink resolver turns an intent on a link into the intent on what
//! the link points to; the non-empty-directory guard turns an unconfirmed
//! deletion into a confirmation modal.

use vstd::prelude::*;

use crate::actions::{
    ActionModel, AppAction, AppActionModel, DirectoryAction, DirectoryActionModel, FileAction,
    FileActionModel, FileManagerActions, PanelInfo, PanelInfoModel, SymlinkAction,
    SymlinkActionModel,
};
use crate::file_system::FileSystem;
use crate::fs_model::{fs_is_dir, spec_read_link, FsEntry};
use crate::state::{ModalModel, ModalType};

verus! {

/// What the symlink resolver makes of a link action: the same intent on
/// the link's target, or an error modal when the link cannot be read.
pub open spec fn spec_symlink_resolver(fs: Seq<FsEntry>, a: SymlinkActionModel) -> Option<
    ActionModel,
> {
    match a {
        SymlinkActionModel::Open { panel, in_new_tab } => match spec_read_link(fs, panel.path) {
            Ok(target) => {
                if fs_is_dir(fs, target) {
                    Some(
                        ActionModel::Directory(
                            DirectoryActionModel::Open {
                                panel: PanelInfoModel {
                                    path: target,
                                    tab: panel.tab,
                                    side: panel.side,
                                },
                                in_new_tab,
                            },
                        ),
                    )
                } else {
                    Some(
                        ActionModel::File(
                            FileActionModel::Open {
                                panel: PanelInfoModel {
                                    path: target,
                                    tab: panel.tab,
                                    side: panel.side,
                                },
                            },
                        ),
                    )
                }
            },
            Err(e) => Some(
                ActionModel::App(
                    AppActionModel::ShowModal(ModalModel::Error { message: e.spec_message() }),
                ),
            ),
        },
        SymlinkActionModel::Delete { panel } => match spec_read_link(fs, panel.path) {
            Ok(target) => {
                if fs_is_dir(fs, target) {
                    Some(
                        ActionModel::Directory(
                            DirectoryActionModel::Delete { panel, is_empty: true },
                        ),
                    )
                } else {
                    Some(ActionModel::File(FileActionModel::Delete { panel }))
                }
            },
            Err(e) => Some(
                ActionModel::App(
                    AppActionModel::ShowModal(ModalModel::Error { message: e.spec_message() }),
                ),
            ),
        },
        SymlinkActionModel::Create { .. } => Some(ActionModel::Symlink(a)),
    }
}

/// What the first middleware does: link actions are resolved, everything
/// else passes through unchanged.
pub open spec fn spec_symlink_middleware(fs: Seq<FsEntry>, a: ActionModel) -> Option<ActionModel> {
    match a {
        ActionModel::Symlink(sa) => spec_symlink_resolver(fs, sa),
        _ => Some(a),
    }
}

/// What the second middleware does: deleting a directory that is not known
/// to be empty never reaches the reducer directly; it becomes the
/// confirmation modal instead.
pub open spec fn spec_dir_middleware(a: ActionModel) -> Option<ActionModel> {
    match a {
        ActionModel::Directory(DirectoryActionModel::Delete { panel, is_empty }) => {
            if is_empty {
                Some(a)
            } else {
                Some(
                    ActionModel::App(
                        AppActionModel::ShowModal(
                            ModalModel::DeleteDirWithContent {
                                panel_side: panel.side,
                                panel_tab: panel.tab,
                                path: panel.path,
                            },
                        ),
                    ),
                )
            }
        },
        _ => Some(a),
    }
}

/// Resolves link actions through the capability.
pub fn symlink_middleware<F: FileSystem>(file_system: &F, action: FileManagerActions) -> (r: Option<
    FileManagerActions,
>)
    ensures
        match r {
            Some(a2) => spec_symlink_middleware(file_system.fs(), action@) == Some(a2@),
            None => spec_symlink_middleware(file_system.fs(), action@) is None,
        },
{
    match action {
        FileManagerActions::Symlink(symlink_action) => symlink_resolver(
            file_system,
            symlink_action,
        ),
        _ => Some(action),
    }
}

/// Resolves one link action.
pub fn symlink_resolver<F: FileSystem>(file_system: &F, symlink_action: SymlinkAction) -> (r:
    Option<FileManagerActions>)
    ensures
        match r {
            Some(a2) => spec_symlink_resolver(file_system.fs(), symlink_action@) == Some(a2@),
            None => spec_symlink_resolver(file_system.fs(), symlink_action@) is None,
        },
{
    match symlink_action {
        SymlinkAction::Open { panel, in_new_tab } => match file_system.read_link(
            panel.path.as_str(),
        ) {
            Ok(link_path) => {
                if file_system.is_dir(link_path.as_str()) {
                    Some(
                        FileManagerActions::Directory(
                            DirectoryAction::Open {
                                panel: PanelInfo {
                                    path: link_path,
                                    tab: panel.tab,
                                    side: panel.side,
                                },
                                in_new_tab,
                            },
                        ),
                    )
                } else {
                    Some(
                        FileManagerActions::File(
                            FileAction::Open {
                                panel: PanelInfo {
                                    path: link_path,
                                    tab: panel.tab,
                                    side: panel.side,
                                },
                            },
                        ),
                    )
                }
            },
            Err(err) => Some(
                FileManagerActions::App(AppAction::ShowModal(ModalType::ErrorModal(err.message()))),
            ),
        },
        SymlinkAction::Delete { panel } => match file_system.read_link(panel.path.as_str()) {
            Ok(link_path) => {
                if file_system.is_dir(link_path.as_str()) {
                    Some(
                        FileManagerActions::Directory(
                            DirectoryAction::Delete { panel, is_empty: true },
                        ),
                    )
                } else {
                    Some(FileManagerActions::File(FileAction::Delete { panel }))
                }
            },
            Err(err) => Some(
                FileManagerActions::App(AppAction::ShowModal(ModalType::ErrorModal(err.message()))),
            ),
        },
        SymlinkAction::Create { symlink_path, panel } => Some(
            FileManagerActions::Symlink(SymlinkAction::Create { symlink_path, panel }),
        ),
    }
}

/// Guards unconfirmed non-empty directory deletion.
pub fn dir_middleware(action: FileManagerActions) -> (r: Option<FileManagerActions>)
    ensures
        match r {
            Some(a2) => spec_dir_middleware(action@) == Some(a2@),
            None => spec_dir_middleware(action@) is None,
        },
{
    match action {
        FileManagerActions::Directory(dir_action) => directory_resolver(dir_action),
        _ => Some(action),
    }
}

/// Passes a confirmed-empty deletion through; anything else to delete
/// becomes the confirmation modal.
pub fn directory_resolver(dir_action: DirectoryAction) -> (r: Option<FileManagerActions>)
    ensures
        match r {
            Some(a2) => spec_dir_middleware(ActionModel::Directory(dir_action@)) == Some(a2@),
            None => spec_dir_middleware(ActionModel::Directory(dir_action@)) is None,
        },
{
    match dir_action {
        DirectoryAction::Delete { panel, is_empty } => {
            if is_empty {
                Some(FileManagerActions::Directory(DirectoryAction::Delete { panel, is_empty }))
            } else {
                Some(
                    FileManagerActions::App(
                        AppAction::ShowModal(
                            ModalType::DeleteDirWithContent {
                                panel_side: panel.side,
                                panel_tab: panel.tab,
                                path: panel.path,
                            },
                        ),
                    ),
                )
            }
        },
        _ => Some(FileManagerActions::Directory(dir_action)),
    }
}

} // verus!
