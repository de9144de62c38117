//! The actions a user can ask for, and the messages the editor reacts to.

use iced::widget::text_editor::Action;
use iced::window::Id;
use vstd::prelude::*;

verus! {

/// iced's `window::Id`, the identity of an open window.
#[verifier::external_type_specification]
#[verifier::external_body]
pub struct ExWindowId(Id);

/// `Id` is a plain number underneath, and its `clone` copies it.
pub assume_specification[ <Id as Clone>::clone ](id: &Id) -> (copy: Id)
    ensures
        copy == *id,
;

/// `Result::clone` clones whichever of the two values the result holds. What a
/// clone of those is like is for their own types to say, so nothing is stated.
pub assume_specification<T: Clone, E: Clone>[ <Result<T, E> as Clone>::clone ](
    result: &Result<T, E>,
) -> Result<T, E>;

/// An entry of the "File" menu.
#[derive(Debug, Clone, Copy, PartialEq, Eq)]
pub enum FileAction {
    /// Open an empty tab.
    New,
    /// Write the active file to its path, asking for one if it has none.
    Save,
    /// Ask for a path and write the active file there.
    SaveAs,
    /// Ask for a file and open it in a tab.
    Open,
    /// Close the tab at the given index, or the active one.
    Close(Option<usize>),
}

impl FileAction {
    /// The text that the menu shows for this entry.
    pub open spec fn label_text(self) -> Seq<char> {
        match self {
            FileAction::New => "New file"@,
            FileAction::Save => "Save"@,
            FileAction::SaveAs => "Save as... "@,
            FileAction::Open => "Open"@,
            FileAction::Close(_) => "Close"@,
        }
    }

    /// The entries of the menu, in the order in which it lists them.
    pub open spec fn menu() -> Seq<FileAction> {
        seq![
            FileAction::New,
            FileAction::Save,
            FileAction::SaveAs,
            FileAction::Open,
            FileAction::Close(None),
        ]
    }

    /// Returns the text that the menu shows for this entry.
    pub fn label(&self) -> (label: &'static str)
        ensures
            label@ == self.label_text(),
    {
        match self {
            FileAction::New => "New file",
            FileAction::Save => "Save",
            FileAction::SaveAs => "Save as... ",
            FileAction::Open => "Open",
            FileAction::Close(_) => "Close",
        }
    }

    /// Returns the entries of the menu, in the order in which it lists them.
    pub fn all() -> (entries: Vec<FileAction>)
        ensures
            entries@ == FileAction::menu(),
    {
        let mut entries: Vec<FileAction> = Vec::new();
        entries.push(FileAction::New);
        entries.push(FileAction::Save);
        entries.push(FileAction::SaveAs);
        entries.push(FileAction::Open);
        entries.push(FileAction::Close(None));
        assert(entries@ =~= FileAction::menu());
        entries
    }
}

/// An entry of the "View" menu.
#[derive(Debug, Clone, Copy, PartialEq, Eq)]
pub enum ViewAction {
    /// Make the font one step larger.
    Increase,
    /// Make the font one step smaller.
    Decrease,
    /// Return to the default font size.
    Reset,
    /// Switch between the raw text and the rendered markdown.
    TogglePreview,
    /// Switch word wrapping on or off.
    ToggleWordWrap,
}

impl ViewAction {
    /// The text that the menu shows for this entry.
    pub open spec fn label_text(self) -> Seq<char> {
        match self {
            ViewAction::Increase => "Increase font"@,
            ViewAction::Decrease => "Decrease font"@,
            ViewAction::Reset => "Reset font"@,
            ViewAction::TogglePreview => "Toggle preview"@,
            ViewAction::ToggleWordWrap => "Toggle word wrap"@,
        }
    }

    /// The entries of the menu, in the order in which it lists them.
    pub open spec fn menu() -> Seq<ViewAction> {
        seq![
            ViewAction::Increase,
            ViewAction::Decrease,
            ViewAction::Reset,
            ViewAction::TogglePreview,
            ViewAction::ToggleWordWrap,
        ]
    }

    /// Returns the text that the menu shows for this entry.
    pub fn label(&self) -> (label: &'static str)
        ensures
            label@ == self.label_text(),
    {
        match self {
            ViewAction::Increase => "Increase font",
            ViewAction::Decrease => "Decrease font",
            ViewAction::Reset => "Reset font",
            ViewAction::TogglePreview => "Toggle preview",
            ViewAction::ToggleWordWrap => "Toggle word wrap",
        }
    }

    /// Returns the entries of the menu, in the order in which it lists them.
    pub fn all() -> (entries: Vec<ViewAction>)
        ensures
            entries@ == ViewAction::menu(),
    {
        let mut entries: Vec<ViewAction> = Vec::new();
        entries.push(ViewAction::Increase);
        entries.push(ViewAction::Decrease);
        entries.push(ViewAction::Reset);
        entries.push(ViewAction::TogglePreview);
        entries.push(ViewAction::ToggleWordWrap);
        assert(entries@ =~= ViewAction::menu());
        entries
    }
}

/// Everything the editor reacts to: what the user did, and how a file
/// operation that the editor asked for has ended.
#[derive(Debug, Clone)]
pub enum Message {
    /// The editor's window has opened.
    WindowOpened(Id),
    /// The editor's window has closed.
    WindowClosed(Id),
    /// The user typed, moved the cursor or selected in the active buffer.
    Edit(Action),
    /// The user chose an entry of the "File" menu, or pressed its shortcut.
    FileActionSelected(FileAction),
    /// The user chose an entry of the "View" menu, or pressed its shortcut.
    ViewActionSelected(ViewAction),
    /// The user clicked the tab at this index.
    SwitchTab(usize),
    /// The user clicked a link in the preview.
    LinkClicked(String),
    /// Picking and reading a file has ended: with its path and text, or with
    /// the reason why there is none.
    FileOpened(Result<(String, String), String>),
    /// Writing the active file has ended: with the path written to, or with
    /// the reason why nothing was written.
    FileSaved(Result<String, String>),
}

} // verus!
