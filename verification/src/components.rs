//! Plain state of the modal workflows: what the create, rename, error and
//! confirmation dialogs remember between keystrokes. The drawing of these
//! dialogs lives outside the engine.

use vstd::prelude::*;

use crate::actions::PanelSide;

verus! {

/// What the create dialog can make.
#[derive(Clone, Copy, Debug, PartialEq, Eq, Structural)]
pub enum CreateOption {
    File,
    Dir,
    Symlink,
}

impl CreateOption {
    /// The label of the option.
    pub open spec fn spec_label(self) -> Seq<char> {
        match self {
            CreateOption::File => "File"@,
            CreateOption::Dir => "Directory"@,
            CreateOption::Symlink => "Symlink"@,
        }
    }

    /// The label of the option.
    pub fn to_string(&self) -> (r: String)
        ensures
            r@ == self.spec_label(),
    {
        match self {
            CreateOption::File => "File".to_owned(),
            CreateOption::Dir => "Directory".to_owned(),
            CreateOption::Symlink => "Symlink".to_owned(),
        }
    }
}

/// The two answers of the delete-confirmation dialog.
#[derive(Clone, Copy, Debug, PartialEq, Eq, Structural)]
pub enum Options {
    Confirm,
    Cancel,
}

impl Options {
    /// The label of the answer.
    pub open spec fn spec_label(self) -> Seq<char> {
        match self {
            Options::Confirm => "Ok"@,
            Options::Cancel => "Cancel"@,
        }
    }

    /// The label of the answer.
    pub fn to_string(&self) -> (r: String)
        ensures
            r@ == self.spec_label(),
    {
        match self {
            Options::Confirm => "Ok".to_owned(),
            Options::Cancel => "Cancel".to_owned(),
        }
    }
}

/// What the error dialog displays.
pub struct ErrorModalComponentProps {
    pub message: Option<String>,
    pub show_icons: bool,
    pub error_icon: String,
}

impl ErrorModalComponentProps {
    pub fn new(message: String, show_icons: bool, error_icon: String) -> (r: Self)
        ensures
            r.message == Some(message),
            r.show_icons == show_icons,
            r.error_icon == error_icon,
    {
        ErrorModalComponentProps { message: Some(message), show_icons, error_icon }
    }
}

/// What the rename dialog has typed so far.
pub struct RenameModalComponentState {
    pub input: String,
}

/// Which panel the root view remembers as focused.
pub struct RootComponentState {
    pub focused_panel: Option<PanelSide>,
}

/// Which side a panel view stands for.
pub struct PanelComponentState {
    pub side: Option<PanelSide>,
}

impl Default for PanelComponentState {
    fn default() -> (r: Self)
        ensures
            r.side is None,
    {
        PanelComponentState { side: None }
    }
}

} // verus!
