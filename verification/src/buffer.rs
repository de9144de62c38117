//! The text buffer of one open file.
//!
//! The buffer is iced's `text_editor::Content`: text, a cursor and a selection.
//! Verus cannot look inside it, so this module names what the rest of the
//! library needs to know of a buffer (its text and where its cursor stands) and
//! states, for each operation that is used, what iced's source shows of it.
//! Nothing in this module is proved.

use iced::widget::text_editor::{Action, Content};
use vstd::prelude::*;

verus! {

/// iced's `text_editor::Action`: one interaction with a text buffer.
#[verifier::external_type_specification]
#[verifier::external_body]
pub struct ExAction(Action);

/// Whether an action is iced's `Action::Edit`, the one kind that can change
/// text. Moving the cursor, selecting, clicking, dragging and scrolling are not.
pub uninterp spec fn action_is_edit(action: Action) -> bool;

/// `Action::is_edit` tells whether the action is the `Edit` variant; the
/// contract gives that answer its name.
pub assume_specification[ Action::is_edit ](action: &Action) -> (edit: bool)
    ensures
        edit == action_is_edit(*action),
;

/// `Action::clone` is derived: the copy is the same kind of action. Nothing more
/// is stated of it.
pub assume_specification[ <Action as Clone>::clone ](action: &Action) -> (copy: Action)
    ensures
        action_is_edit(copy) == action_is_edit(*action),
;

/// A text buffer with a cursor, held as iced's `text_editor::Content`.
///
/// The field is public so that a widget can borrow the content to draw it.
#[verifier::external_body]
pub struct TextBuffer {
    pub content: Content,
}

/// The text that a buffer holds.
pub uninterp spec fn buffer_text(buffer: TextBuffer) -> Seq<char>;

/// Where the cursor of a buffer stands: the line, then the column, both
/// counted from zero. The column is the offset of the cursor in its line,
/// counted in bytes of UTF-8.
pub uninterp spec fn buffer_cursor(buffer: TextBuffer) -> (nat, nat);

/// The text that a buffer holds once `Content::perform` has performed `action`
/// on it. An edit works on the text, the cursor and the selection of the
/// buffer, and on nothing outside it.
pub uninterp spec fn text_after(buffer: TextBuffer, action: Action) -> Seq<char>;

impl View for TextBuffer {
    type V = Seq<char>;

    open spec fn view(&self) -> Seq<char> {
        buffer_text(*self)
    }
}

impl TextBuffer {
    /// Calls `Content::with_text`. The new content holds exactly the given
    /// text, and its cursor stands at the start.
    #[verifier::external_body]
    pub(crate) fn with_text(text: &str) -> (buffer: TextBuffer)
        ensures
            buffer_text(buffer) == text@,
            buffer_cursor(buffer) == (0nat, 0nat),
    {
        TextBuffer { content: Content::with_text(text) }
    }

    /// Calls `Content::text`, which hands out the text that the content holds.
    #[verifier::external_body]
    pub(crate) fn text(&self) -> (text: String)
        ensures
            text@ == buffer_text(*self),
    {
        self.content.text()
    }

    /// Calls `Content::cursor` and takes the line and the column of its
    /// position.
    #[verifier::external_body]
    pub(crate) fn cursor_position(&self) -> (position: (usize, usize))
        ensures
            (position.0 as nat, position.1 as nat) == buffer_cursor(*self),
    {
        let position = self.content.cursor().position;
        (position.line, position.column)
    }

    /// Calls `Content::perform`. The text afterwards depends on the buffer and
    /// the action alone, and the contract gives it its name. Only an `Edit`
    /// action reaches the text: every other action leaves it as it was.
    /// Nothing is said of the cursor, which after a click or a move up or
    /// down depends on how the text is laid out.
    #[verifier::external_body]
    pub(crate) fn perform(&mut self, action: Action)
        ensures
            buffer_text(*final(self)) == text_after(*old(self), action),
            !action_is_edit(action) ==> buffer_text(*final(self)) == buffer_text(*old(self)),
    {
        self.content.perform(action)
    }
}

} // verus!
