//! How the editor reacts to a message: what becomes of the state, and what
//! the caller is asked to do next.
//!
//! Nothing here touches a disk, a dialog or a window. Where a reaction needs
//! one, the handler returns an [`Effect`], and the caller reports how it ended
//! in a later message.

use crate::buffer::{action_is_edit, text_after};
use crate::file::path_view;
use crate::message::{FileAction, Message, ViewAction};
use crate::state::{State, StateView};
use iced::widget::text_editor::Action;
use vstd::prelude::*;

verus! {

/// What the caller is asked to do after a message was handled.
#[derive(Debug, Clone, PartialEq, Eq)]
pub enum Effect {
    /// Nothing.
    Nothing,
    /// End the application.
    Exit,
    /// Let the user pick a file, read it, and report with
    /// [`Message::FileOpened`].
    PickAndRead,
    /// Write `text` to `path`, first letting the user pick a path where there
    /// is none, and report with [`Message::FileSaved`].
    Write { path: Option<String>, text: String },
    /// Hand the address to whatever opens links on this system. A failure to
    /// do so is of no concern to the editor.
    OpenLink(String),
}

impl Effect {
    /// Whether this effect is a write of `text` to `path`.
    pub open spec fn is_write_of(self, path: Option<Seq<char>>, text: Seq<char>) -> bool {
        match self {
            Effect::Write { path: to, text: what } => path_view(to) == path && what@ == text,
            _ => false,
        }
    }

    /// Whether this effect is the opening of the link `url`.
    pub open spec fn is_link_to(self, url: Seq<char>) -> bool {
        match self {
            Effect::OpenLink(address) => address@ == url,
            _ => false,
        }
    }
}

impl StateView {
    /// The state after an entry of the "File" menu was chosen. Only "new" and
    /// "close" change it at once; the others wait for the disk.
    pub open spec fn after_file_action(self, action: FileAction) -> StateView {
        match action {
            FileAction::New => self.with_new_file(),
            FileAction::Close(index) => self.with_closed(index),
            _ => self,
        }
    }

    /// Whether `effect` is what choosing `action` in this state asks for.
    pub open spec fn file_action_asks(self, action: FileAction, effect: Effect) -> bool {
        match action {
            FileAction::New => effect == Effect::Nothing,
            FileAction::Close(_) => effect == if self.close_ends_session() {
                Effect::Exit
            } else {
                Effect::Nothing
            },
            FileAction::Open => effect == Effect::PickAndRead,
            FileAction::Save => effect.is_write_of(
                self.active_file().path,
                self.active_file().text,
            ),
            FileAction::SaveAs => effect.is_write_of(None, self.active_file().text),
        }
    }

    /// The state after an entry of the "View" menu was chosen.
    pub open spec fn after_view_action(self, action: ViewAction) -> StateView {
        match action {
            ViewAction::Increase => self.with_larger_font(),
            ViewAction::Decrease => self.with_smaller_font(),
            ViewAction::Reset => self.with_default_font(),
            ViewAction::TogglePreview => self.with_preview_toggled(),
            ViewAction::ToggleWordWrap => self.with_word_wrap_toggled(),
        }
    }

    /// Whether `after` is a state that performing `action` on the active
    /// buffer of this state may leave. An `Edit` marks the active file as
    /// changed; any other action leaves its mark and its text. Its path and
    /// preview stay, and so does every other file.
    pub open spec fn edited_to(self, action: Action, after: StateView) -> bool {
        &&& after == self.with_active_file(after.active_file())
        &&& after.active_file().dirty == (self.active_file().dirty || action_is_edit(action))
        &&& !action_is_edit(action) ==> after.active_file().text == self.active_file().text
        &&& after.active_file().path == self.active_file().path
        &&& after.active_file().preview == self.active_file().preview
    }

    /// The state after a pick-and-read has ended. A file that was read is
    /// opened; a failure, or a dialog that the user dismissed, changes
    /// nothing.
    pub open spec fn after_file_opened(self, result: Result<(String, String), String>) -> StateView {
        match result {
            Ok(read) => self.with_opened(read.0@, read.1@),
            Err(_) => self,
        }
    }

    /// The state after a write has ended. On success the active file lives at
    /// the path written to and has nothing left to save; a failure, or a
    /// dialog that the user dismissed, changes nothing.
    pub open spec fn after_file_saved(self, result: Result<String, String>) -> StateView {
        match result {
            Ok(path) => self.with_active_path(path@).with_active_dirty(false),
            Err(_) => self,
        }
    }

    /// Whether this state has a reaction to `message`. It has one to every
    /// message but the closing of a tab that does not exist.
    pub open spec fn accepts(self, message: Message) -> bool {
        match message {
            Message::FileActionSelected(FileAction::Close(index)) => self.can_close(index),
            _ => true,
        }
    }

    /// Whether reacting to `message` in this state may leave `after` and ask
    /// for `effect`.
    pub open spec fn reacts(self, message: Message, after: StateView, effect: Effect) -> bool {
        match message {
            Message::WindowOpened(id) => {
                &&& after == (StateView { window: Some(id), ..self })
                &&& effect == Effect::Nothing
            },
            Message::WindowClosed(_) => after == self && effect == Effect::Exit,
            Message::Edit(action) => self.edited_to(action, after) && effect == Effect::Nothing,
            Message::FileActionSelected(action) => {
                &&& after == self.after_file_action(action)
                &&& self.file_action_asks(action, effect)
            },
            Message::ViewActionSelected(action) => {
                &&& after == self.after_view_action(action)
                &&& effect == Effect::Nothing
            },
            Message::SwitchTab(index) => after == self.with_tab(index as int) && effect == Effect::Nothing,
            Message::LinkClicked(url) => after == self && effect.is_link_to(url@),
            Message::FileOpened(result) => {
                &&& after == self.after_file_opened(result)
                &&& effect == Effect::Nothing
            },
            Message::FileSaved(result) => {
                &&& after == self.after_file_saved(result)
                &&& effect == Effect::Nothing
            },
        }
    }
}

/// Performs `action` on the active buffer, which then holds the text that
/// the action makes of it.
pub fn edit(state: &mut State, action: Action) -> (effect: Effect)
    requires
        old(state).wf(),
    ensures
        old(state)@.edited_to(action, final(state)@),
        final(state)@.active_file().text == text_after(old(state).active_buffer(), action),
        effect == Effect::Nothing,
        final(state).wf(),
{
    state.apply_edit(action);
    Effect::Nothing
}

/// Makes the tab at `index` active, if there is one.
pub fn switch_tab(state: &mut State, index: usize) -> (effect: Effect)
    requires
        old(state).wf(),
    ensures
        final(state)@ == old(state)@.with_tab(index as int),
        effect == Effect::Nothing,
        final(state).wf(),
{
    state.switch_tab(index);
    Effect::Nothing
}

/// Asks for the link to be opened.
pub fn link_clicked(url: String) -> (effect: Effect)
    ensures
        effect == Effect::OpenLink(url),
{
    Effect::OpenLink(url)
}

/// Reacts to an entry of the "File" menu.
///
/// "New" opens an empty tab. "Close" closes a tab, or asks for the
/// application to end where the last file would go. "Open" asks for a file to
/// be picked and read. "Save" asks for the active text to be written to the
/// active file's path, or to a path yet to be picked where it has none; "save
/// as" always has the path picked. The state learns of a read or a write only
/// when it has ended: see [`file_opened`] and [`file_saved`].
pub fn file_action(state: &mut State, action: FileAction) -> (effect: Effect)
    requires
        old(state).wf(),
        action matches FileAction::Close(index) ==> old(state)@.can_close(index),
    ensures
        final(state)@ == old(state)@.after_file_action(action),
        old(state)@.file_action_asks(action, effect),
        final(state).wf(),
{
    match action {
        FileAction::New => {
            state.new_file();
            Effect::Nothing
        },
        FileAction::Close(index) => {
            if state.close_file(index) {
                Effect::Exit
            } else {
                Effect::Nothing
            }
        },
        FileAction::Open => Effect::PickAndRead,
        FileAction::Save => {
            let (path, text) = state.active_file_data();
            let path = match path {
                Some(path) => Some(path.clone()),
                None => None,
            };
            Effect::Write { path, text }
        },
        FileAction::SaveAs => {
            let (_, text) = state.active_file_data();
            Effect::Write { path: None, text }
        },
    }
}

/// Reacts to an entry of the "View" menu.
pub fn view_action(state: &mut State, action: ViewAction) -> (effect: Effect)
    requires
        old(state).wf(),
    ensures
        final(state)@ == old(state)@.after_view_action(action),
        effect == Effect::Nothing,
        final(state).wf(),
{
    match action {
        ViewAction::Increase => state.increase_font(),
        ViewAction::Decrease => state.decrease_font(),
        ViewAction::Reset => state.reset_font(),
        ViewAction::TogglePreview => state.toggle_preview(),
        ViewAction::ToggleWordWrap => state.toggle_word_wrap(),
    }
    Effect::Nothing
}

/// Takes in how a pick-and-read has ended. A file that was read is opened; a
/// failure, or a dialog that the user dismissed, changes nothing and is not
/// reported.
pub fn file_opened(state: &mut State, result: Result<(String, String), String>) -> (effect: Effect)
    requires
        old(state).wf(),
    ensures
        final(state)@ == old(state)@.after_file_opened(result),
        effect == Effect::Nothing,
        final(state).wf(),
{
    match result {
        Ok((path, content)) => state.open_file(path, content),
        Err(_) => {},
    }
    Effect::Nothing
}

/// Takes in how a write has ended. On success the active file lives at the
/// path written to and has nothing left to save; a failure, or a dialog that
/// the user dismissed, changes nothing and is not reported.
pub fn file_saved(state: &mut State, result: Result<String, String>) -> (effect: Effect)
    requires
        old(state).wf(),
    ensures
        final(state)@ == old(state)@.after_file_saved(result),
        effect == Effect::Nothing,
        final(state).wf(),
{
    match result {
        Ok(path) => {
            state.set_active_file_path(path);
            state.set_active_file_save_status(false);
        },
        Err(_) => {},
    }
    Effect::Nothing
}

/// Reacts to a message: changes the state as the message asks, and returns
/// what the caller is to do next. After an edit the active buffer holds the
/// text that the action makes of it.
pub fn update(state: &mut State, message: Message) -> (effect: Effect)
    requires
        old(state).wf(),
        old(state)@.accepts(message),
    ensures
        old(state)@.reacts(message, final(state)@, effect),
        message matches Message::Edit(action) ==> final(state)@.active_file().text == text_after(
            old(state).active_buffer(),
            action,
        ),
        final(state).wf(),
{
    match message {
        Message::WindowOpened(id) => {
            state.set_window_id(id);
            Effect::Nothing
        },
        Message::WindowClosed(_) => Effect::Exit,
        Message::Edit(action) => edit(state, action),
        Message::FileActionSelected(action) => file_action(state, action),
        Message::ViewActionSelected(action) => view_action(state, action),
        Message::SwitchTab(index) => switch_tab(state, index),
        Message::LinkClicked(url) => link_clicked(url),
        Message::FileOpened(result) => file_opened(state, result),
        Message::FileSaved(result) => file_saved(state, result),
    }
}

} // verus!
