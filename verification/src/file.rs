//! One open document: its text, where it lives on disk, whether it has
//! changes that were not saved, and the markdown blocks last parsed from it.

use crate::buffer::{action_is_edit, buffer_cursor, buffer_text, text_after, TextBuffer};
use crate::decimal::{decimal, decimal_digits};
use crate::paths::{extension, file_name, path_extension, path_file_name, text_view};
use crate::preview::{markdown_items, parse_markdown};
use iced::widget::markdown::Item;
use iced::widget::text_editor::Action;
use vstd::prelude::*;
use vstd::string::StringExecFns;

verus! {

/// One open document.
pub struct File {
    needs_saving: bool,
    content: TextBuffer,
    path: Option<String>,
    markdown: Vec<Item>,
}

/// What a [`File`] is, as far as the editor's rules go.
pub struct FileView {
    /// The text in the buffer.
    pub text: Seq<char>,
    /// The line and the column of the cursor, counted from zero.
    pub cursor: (nat, nat),
    /// Where the file lives on disk; `None` for a file that was never saved.
    pub path: Option<Seq<char>>,
    /// Whether the text has changes that were not saved.
    pub dirty: bool,
    /// The markdown blocks of the preview, as last parsed. They may lag behind
    /// the text.
    pub preview: Seq<Item>,
}

impl FileView {
    /// A file that was just made: no text, no path, nothing to save, nothing
    /// parsed.
    pub open spec fn empty() -> FileView {
        FileView {
            text: Seq::empty(),
            cursor: (0nat, 0nat),
            path: None,
            dirty: false,
            preview: Seq::empty(),
        }
    }

    /// A file as it is right after reading `text` from `path`.
    pub open spec fn loaded(text: Seq<char>, path: Option<Seq<char>>) -> FileView {
        FileView { text, cursor: (0nat, 0nat), path, dirty: false, preview: Seq::empty() }
    }

    /// This file with its buffer filled anew with `text`.
    pub open spec fn with_text(self, text: Seq<char>) -> FileView {
        FileView { text, cursor: (0nat, 0nat), ..self }
    }

    /// This file with its preview parsed from its present text.
    pub open spec fn refreshed(self) -> FileView {
        FileView { preview: markdown_items(self.text), ..self }
    }

    /// The name a tab shows for this file: the last component of its path, or
    /// "New file" where there is none.
    pub open spec fn display_name(self) -> Seq<char> {
        match self.path {
            Some(path) => match path_file_name(path) {
                Some(name) => name,
                None => "New file"@,
            },
            None => "New file"@,
        }
    }

    /// The label of this file's tab: its name, behind a dot where the file
    /// has changes that were not saved.
    pub open spec fn display_label(self) -> Seq<char> {
        if self.dirty {
            "● "@ + self.display_name()
        } else {
            self.display_name()
        }
    }

    /// The extension of this file's path, if it has a path with one.
    pub open spec fn extension(self) -> Option<Seq<char>> {
        match self.path {
            Some(path) => path_extension(path),
            None => None,
        }
    }

    /// The cursor's place as the status bar words it.
    pub open spec fn position_summary(self) -> Seq<char> {
        "Ln "@ + decimal_digits(self.cursor.0) + ", Col "@ + decimal_digits(self.cursor.1)
    }

    /// The path as the status bar shows it: empty where there is none.
    pub open spec fn path_summary(self) -> Seq<char> {
        match self.path {
            Some(path) => path,
            None => Seq::empty(),
        }
    }
}

/// The view of a path that may be absent.
pub open spec fn path_view(path: Option<String>) -> Option<Seq<char>> {
    match path {
        Some(path) => Some(path@),
        None => None,
    }
}

impl View for File {
    type V = FileView;

    closed spec fn view(&self) -> FileView {
        FileView {
            text: buffer_text(self.content),
            cursor: buffer_cursor(self.content),
            path: path_view(self.path),
            dirty: self.needs_saving,
            preview: self.markdown@,
        }
    }
}

impl Default for File {
    /// An empty file without a path.
    fn default() -> (file: File)
        ensures
            file@ == FileView::empty(),
    {
        proof {
            reveal_strlit("");
            assert(""@ =~= Seq::<char>::empty());
        }
        File {
            needs_saving: false,
            content: TextBuffer::with_text(""),
            path: None,
            markdown: Vec::new(),
        }
    }
}

impl File {
    /// The buffer of this file.
    pub closed spec fn buffer(&self) -> TextBuffer {
        self.content
    }

    /// The view reads the text and the cursor off the buffer.
    pub proof fn lemma_view_of_buffer(&self)
        ensures
            self@.text == buffer_text(self.buffer()),
            self@.cursor == buffer_cursor(self.buffer()),
    {
    }

    /// Makes a file that holds `content` and lives at `path`. It has nothing
    /// to save, and its preview stays empty until it is asked for.
    pub fn from(content: &str, path: Option<String>) -> (file: File)
        ensures
            file@ == FileView::loaded(content@, path_view(path)),
    {
        File {
            needs_saving: false,
            content: TextBuffer::with_text(content),
            path,
            markdown: Vec::new(),
        }
    }

    /// The buffer of this file.
    pub fn content(&self) -> (content: &TextBuffer)
        ensures
            *content == self.buffer(),
    {
        &self.content
    }

    /// The text that the buffer holds.
    pub fn text(&self) -> (text: String)
        ensures
            text@ == self@.text,
    {
        self.content.text()
    }

    /// The buffer of this file, to work on in place. What is done to it shows
    /// in the file's text and cursor, and in nothing else.
    pub fn content_mut(&mut self) -> (content: &mut TextBuffer)
        ensures
            *content == old(self).buffer(),
            final(self).buffer() == *final(content),
            final(self)@.path == old(self)@.path,
            final(self)@.dirty == old(self)@.dirty,
            final(self)@.preview == old(self)@.preview,
    {
        &mut self.content
    }

    /// Fills the buffer anew with `content`. The cursor returns to the start;
    /// the path, the dirty flag and the preview stay.
    pub fn set_content(&mut self, content: &str)
        ensures
            final(self)@ == old(self)@.with_text(content@),
    {
        self.content = TextBuffer::with_text(content);
    }

    /// The markdown blocks of the preview, as last parsed.
    pub fn markdown(&self) -> (items: Vec<&Item>)
        ensures
            items@.len() == self@.preview.len(),
            forall|i: int| 0 <= i < items@.len() ==> *items@[i] == self@.preview[i],
    {
        let mut items: Vec<&Item> = Vec::new();
        let mut i: usize = 0;
        while i < self.markdown.len()
            invariant
                i <= self.markdown@.len(),
                items@.len() == i,
                forall|j: int| 0 <= j < i ==> *items@[j] == self.markdown@[j],
            decreases self.markdown@.len() - i,
        {
            items.push(&self.markdown[i]);
            i += 1;
        }
        items
    }

    /// Parses the preview anew from the text that the buffer holds now.
    pub fn update_markdown(&mut self)
        ensures
            final(self)@ == old(self)@.refreshed(),
    {
        let text = self.content.text();
        self.markdown = parse_markdown(text.as_str());
    }

    /// Where the file lives on disk.
    pub fn path(&self) -> (path: Option<&String>)
        ensures
            match path {
                Some(path) => self@.path == Some(path@),
                None => self@.path is None,
            },
    {
        self.path.as_ref()
    }

    /// Records where the file lives on disk.
    pub fn set_path(&mut self, path: Option<String>)
        ensures
            final(self)@ == (FileView { path: path_view(path), ..old(self)@ }),
    {
        self.path = path;
    }

    /// The extension of the file's path, if it has a path with one.
    pub fn extension(&self) -> (extension: Option<&str>)
        ensures
            text_view(extension) == self@.extension(),
    {
        match &self.path {
            Some(path) => extension(path.as_str()),
            None => None,
        }
    }

    /// The name a tab shows for this file: the last component of its path, or
    /// "New file" where there is none.
    pub fn display_name(&self) -> (name: &str)
        ensures
            name@ == self@.display_name(),
    {
        match &self.path {
            Some(path) => match file_name(path.as_str()) {
                Some(name) => name,
                None => "New file",
            },
            None => "New file",
        }
    }

    /// The label of this file's tab: its name, behind a dot where the file
    /// has changes that were not saved.
    pub fn display_label(&self) -> (label: String)
        ensures
            label@ == self@.display_label(),
    {
        if self.needs_saving {
            String::from_str("● ").concat(self.display_name())
        } else {
            String::from_str(self.display_name())
        }
    }

    /// The cursor's place as the status bar words it, both numbers counted
    /// from zero.
    pub fn position_summary(&self) -> (summary: String)
        ensures
            summary@ == self@.position_summary(),
    {
        let (line, column) = self.content.cursor_position();
        let mut summary = String::from_str("Ln ");
        summary.append(decimal(line).as_str());
        summary.append(", Col ");
        summary.append(decimal(column).as_str());
        summary
    }

    /// The path as the status bar shows it: empty where there is none.
    pub fn path_summary(&self) -> (summary: String)
        ensures
            summary@ == self@.path_summary(),
    {
        match &self.path {
            Some(path) => path.clone(),
            None => String::new(),
        }
    }

    /// Whether the text has changes that were not saved.
    pub fn needs_saving(&self) -> (dirty: bool)
        ensures
            dirty == self@.dirty,
    {
        self.needs_saving
    }

    /// Sets or clears the mark of unsaved changes.
    pub fn set_needs_saving(&mut self, state: bool)
        ensures
            final(self)@ == (FileView { dirty: state, ..old(self)@ }),
    {
        self.needs_saving = state;
    }

    /// Performs `action` on the buffer, which then holds the text that the
    /// action makes of it. An `Edit` marks the file as changed; any other
    /// action leaves both the mark and the text as they were. The path and the
    /// preview stay in either case.
    pub fn apply_edit(&mut self, action: Action)
        ensures
            final(self)@.text == text_after(old(self).buffer(), action),
            final(self)@.dirty == (old(self)@.dirty || action_is_edit(action)),
            !action_is_edit(action) ==> final(self)@.text == old(self)@.text,
            final(self)@.path == old(self)@.path,
            final(self)@.preview == old(self)@.preview,
    {
        let edit = action.is_edit();
        self.content.perform(action);
        if edit {
            self.needs_saving = true;
        }
    }
}

} // verus!
