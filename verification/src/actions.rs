//! The action taxonomy: the closed set of intents through which the state
//! changes. No other mutation path exists.

use vstd::prelude::*;

use crate::state::{ModalModel, ModalType, TabIdx};

verus! {

/// Which half of the screen an action addresses.
#[derive(Clone, Copy, Debug, PartialEq, Eq, Structural)]
pub enum PanelSide {
    Left,
    Right,
}

/// The common addressing triple of File, Directory and Symlink actions:
/// which item, in which tab, of which panel.
#[derive(Clone, Debug)]
pub struct PanelInfo {
    pub path: String,
    pub tab: TabIdx,
    pub side: PanelSide,
}

/// Every intent the engine understands.
#[derive(Clone, Debug)]
pub enum FileManagerActions {
    File(FileAction),
    Directory(DirectoryAction),
    Symlink(SymlinkAction),
    App(AppAction),
    Panel(PanelAction),
    Tab(TabAction),
    Search(SearchAction),
}

/// Search workflow of one tab.
#[derive(Clone, Debug)]
pub enum SearchAction {
    Start { tab: TabIdx, panel_side: PanelSide },
    Stop { tab: TabIdx, panel_side: PanelSide },
    Input { tab: TabIdx, panel_side: PanelSide, phrase: String },
    ApplySearch { tab: TabIdx, panel_side: PanelSide },
}

/// Application-wide intents.
#[derive(Clone, Debug)]
pub enum AppAction {
    Exit,
    ChildProgramClosed,
    FocusLeft,
    FocusRight,
    ShowModal(ModalType),
    CloseModal,
}

/// Tab rotation and closing within one panel.
#[derive(Clone, Debug)]
pub enum PanelAction {
    Next { panel: PanelSide },
    Previous { panel: PanelSide },
    CloseTab { tab: TabIdx, panel: PanelSide },
}

/// Cursor, selection and reload of the focused tab.
#[derive(Clone, Debug)]
pub enum TabAction {
    Next,
    Previous,
    SelectNext,
    SelectPrev,
    ClearSelection,
    ReloadTab { panel_side: PanelSide, path: String },
}

/// File operations.
#[derive(Clone, Debug)]
pub enum FileAction {
    Delete { panel: PanelInfo },
    Rename { from: PanelInfo, to: PanelInfo },
    Copy { from: PanelInfo, to: PanelInfo },
    Move { from: PanelInfo, to: PanelInfo },
    Open { panel: PanelInfo },
    Create { file_name: String, panel: PanelInfo },
}

/// Directory operations.
#[derive(Clone, Debug)]
pub enum DirectoryAction {
    DeleteWithContent { panel: PanelInfo },
    Delete { panel: PanelInfo, is_empty: bool },
    Rename { from: PanelInfo, to: PanelInfo },
    Copy { from: PanelInfo, to: PanelInfo },
    Move { from: PanelInfo, to: PanelInfo },
    Open { panel: PanelInfo, in_new_tab: bool },
    Create { dir_name: String, panel: PanelInfo },
}

/// Symbolic-link operations.
#[derive(Clone, Debug)]
pub enum SymlinkAction {
    Delete { panel: PanelInfo },
    Open { panel: PanelInfo, in_new_tab: bool },
    Create { symlink_path: String, panel: PanelInfo },
}

/// Model of an addressing triple.
pub ghost struct PanelInfoModel {
    pub path: Seq<char>,
    pub tab: int,
    pub side: PanelSide,
}

impl View for PanelInfo {
    type V = PanelInfoModel;

    open spec fn view(&self) -> PanelInfoModel {
        PanelInfoModel { path: self.path@, tab: self.tab as int, side: self.side }
    }
}

/// Model of a search action.
pub ghost enum SearchActionModel {
    Start { tab: int, panel_side: PanelSide },
    Stop { tab: int, panel_side: PanelSide },
    Input { tab: int, panel_side: PanelSide, phrase: Seq<char> },
    ApplySearch { tab: int, panel_side: PanelSide },
}

impl View for SearchAction {
    type V = SearchActionModel;

    open spec fn view(&self) -> SearchActionModel {
        match self {
            SearchAction::Start { tab, panel_side } => SearchActionModel::Start {
                tab: *tab as int,
                panel_side: *panel_side,
            },
            SearchAction::Stop { tab, panel_side } => SearchActionModel::Stop {
                tab: *tab as int,
                panel_side: *panel_side,
            },
            SearchAction::Input { tab, panel_side, phrase } => SearchActionModel::Input {
                tab: *tab as int,
                panel_side: *panel_side,
                phrase: phrase@,
            },
            SearchAction::ApplySearch { tab, panel_side } => SearchActionModel::ApplySearch {
                tab: *tab as int,
                panel_side: *panel_side,
            },
        }
    }
}

/// Model of an application-wide action.
pub ghost enum AppActionModel {
    Exit,
    ChildProgramClosed,
    FocusLeft,
    FocusRight,
    ShowModal(ModalModel),
    CloseModal,
}

impl View for AppAction {
    type V = AppActionModel;

    open spec fn view(&self) -> AppActionModel {
        match self {
            AppAction::Exit => AppActionModel::Exit,
            AppAction::ChildProgramClosed => AppActionModel::ChildProgramClosed,
            AppAction::FocusLeft => AppActionModel::FocusLeft,
            AppAction::FocusRight => AppActionModel::FocusRight,
            AppAction::ShowModal(m) => AppActionModel::ShowModal(m@),
            AppAction::CloseModal => AppActionModel::CloseModal,
        }
    }
}

/// Model of a panel action.
pub ghost enum PanelActionModel {
    Next { panel: PanelSide },
    Previous { panel: PanelSide },
    CloseTab { tab: int, panel: PanelSide },
}

impl View for PanelAction {
    type V = PanelActionModel;

    open spec fn view(&self) -> PanelActionModel {
        match self {
            PanelAction::Next { panel } => PanelActionModel::Next { panel: *panel },
            PanelAction::Previous { panel } => PanelActionModel::Previous { panel: *panel },
            PanelAction::CloseTab { tab, panel } => PanelActionModel::CloseTab {
                tab: *tab as int,
                panel: *panel,
            },
        }
    }
}

/// Model of a tab action.
pub ghost enum TabActionModel {
    Next,
    Previous,
    SelectNext,
    SelectPrev,
    ClearSelection,
    ReloadTab { panel_side: PanelSide, path: Seq<char> },
}

impl View for TabAction {
    type V = TabActionModel;

    open spec fn view(&self) -> TabActionModel {
        match self {
            TabAction::Next => TabActionModel::Next,
            TabAction::Previous => TabActionModel::Previous,
            TabAction::SelectNext => TabActionModel::SelectNext,
            TabAction::SelectPrev => TabActionModel::SelectPrev,
            TabAction::ClearSelection => TabActionModel::ClearSelection,
            TabAction::ReloadTab { panel_side, path } => TabActionModel::ReloadTab {
                panel_side: *panel_side,
                path: path@,
            },
        }
    }
}

/// Model of a file action.
pub ghost enum FileActionModel {
    Delete { panel: PanelInfoModel },
    Rename { from: PanelInfoModel, to: PanelInfoModel },
    Copy { from: PanelInfoModel, to: PanelInfoModel },
    Move { from: PanelInfoModel, to: PanelInfoModel },
    Open { panel: PanelInfoModel },
    Create { file_name: Seq<char>, panel: PanelInfoModel },
}

impl View for FileAction {
    type V = FileActionModel;

    open spec fn view(&self) -> FileActionModel {
        match self {
            FileAction::Delete { panel } => FileActionModel::Delete { panel: panel@ },
            FileAction::Rename { from, to } => FileActionModel::Rename { from: from@, to: to@ },
            FileAction::Copy { from, to } => FileActionModel::Copy { from: from@, to: to@ },
            FileAction::Move { from, to } => FileActionModel::Move { from: from@, to: to@ },
            FileAction::Open { panel } => FileActionModel::Open { panel: panel@ },
            FileAction::Create { file_name, panel } => FileActionModel::Create {
                file_name: file_name@,
                panel: panel@,
            },
        }
    }
}

/// Model of a directory action.
pub ghost enum DirectoryActionModel {
    DeleteWithContent { panel: PanelInfoModel },
    Delete { panel: PanelInfoModel, is_empty: bool },
    Rename { from: PanelInfoModel, to: PanelInfoModel },
    Copy { from: PanelInfoModel, to: PanelInfoModel },
    Move { from: PanelInfoModel, to: PanelInfoModel },
    Open { panel: PanelInfoModel, in_new_tab: bool },
    Create { dir_name: Seq<char>, panel: PanelInfoModel },
}

impl View for DirectoryAction {
    type V = DirectoryActionModel;

    open spec fn view(&self) -> DirectoryActionModel {
        match self {
            DirectoryAction::DeleteWithContent { panel } => DirectoryActionModel::DeleteWithContent {
                panel: panel@,
            },
            DirectoryAction::Delete { panel, is_empty } => DirectoryActionModel::Delete {
                panel: panel@,
                is_empty: *is_empty,
            },
            DirectoryAction::Rename { from, to } => DirectoryActionModel::Rename {
                from: from@,
                to: to@,
            },
            DirectoryAction::Copy { from, to } => DirectoryActionModel::Copy {
                from: from@,
                to: to@,
            },
            DirectoryAction::Move { from, to } => DirectoryActionModel::Move {
                from: from@,
                to: to@,
            },
            DirectoryAction::Open { panel, in_new_tab } => DirectoryActionModel::Open {
                panel: panel@,
                in_new_tab: *in_new_tab,
            },
            DirectoryAction::Create { dir_name, panel } => DirectoryActionModel::Create {
                dir_name: dir_name@,
                panel: panel@,
            },
        }
    }
}

/// Model of a symbolic-link action.
pub ghost enum SymlinkActionModel {
    Delete { panel: PanelInfoModel },
    Open { panel: PanelInfoModel, in_new_tab: bool },
    Create { symlink_path: Seq<char>, panel: PanelInfoModel },
}

impl View for SymlinkAction {
    type V = SymlinkActionModel;

    open spec fn view(&self) -> SymlinkActionModel {
        match self {
            SymlinkAction::Delete { panel } => SymlinkActionModel::Delete { panel: panel@ },
            SymlinkAction::Open { panel, in_new_tab } => SymlinkActionModel::Open {
                panel: panel@,
                in_new_tab: *in_new_tab,
            },
            SymlinkAction::Create { symlink_path, panel } => SymlinkActionModel::Create {
                symlink_path: symlink_path@,
                panel: panel@,
            },
        }
    }
}

/// Model of any action.
pub ghost enum ActionModel {
    File(FileActionModel),
    Directory(DirectoryActionModel),
    Symlink(SymlinkActionModel),
    App(AppActionModel),
    Panel(PanelActionModel),
    Tab(TabActionModel),
    Search(SearchActionModel),
}

impl View for FileManagerActions {
    type V = ActionModel;

    open spec fn view(&self) -> ActionModel {
        match self {
            FileManagerActions::File(a) => ActionModel::File(a@),
            FileManagerActions::Directory(a) => ActionModel::Directory(a@),
            FileManagerActions::Symlink(a) => ActionModel::Symlink(a@),
            FileManagerActions::App(a) => ActionModel::App(a@),
            FileManagerActions::Panel(a) => ActionModel::Panel(a@),
            FileManagerActions::Tab(a) => ActionModel::Tab(a@),
            FileManagerActions::Search(a) => ActionModel::Search(a@),
        }
    }
}

} // verus!
