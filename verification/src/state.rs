//! The editor's state: the open files in tab order, the active tab, the view
//! mode, the font size and word wrapping, and the operations that change them.

use crate::buffer::{action_is_edit, text_after};
use crate::constants::{
    font_size_above, font_size_below, font_size_in_range, larger_font_size, smaller_font_size,
    DEFAULT_EDITOR_FONT_SIZE, MAX_EDITOR_FONT_SIZE, MIN_EDITOR_FONT_SIZE,
};
use crate::file::{File, FileView};
use crate::message::{FileAction, ViewAction};
use iced::widget::text_editor::Action;
use iced::window::Id;
use vstd::prelude::*;

verus! {

/// How the active file is shown.
#[derive(Debug, Default, Clone, Copy, PartialEq, Eq)]
pub enum Mode {
    /// The raw text, open to editing.
    #[default]
    Edit,
    /// The rendered markdown.
    Preview,
}

/// What a [`State`] is, as far as the editor's rules go.
pub struct StateView {
    /// The window that shows the editor, once it has opened.
    pub window: Option<Id>,
    /// How the active file is shown.
    pub mode: Mode,
    /// The open files, in tab order.
    pub files: Seq<FileView>,
    /// The index of the active tab.
    pub active: int,
    /// The font size of the editor.
    pub font_size: int,
    /// Whether long lines wrap.
    pub word_wrap: bool,
    /// The entry that the "File" menu shows as chosen.
    pub selected_file_action: Option<FileAction>,
    /// The entry that the "View" menu shows as chosen.
    pub selected_view_action: Option<ViewAction>,
}

impl StateView {
    /// What holds of every state of a running editor: there is at least one
    /// file, the active index points at one, and the font size is in range.
    pub open spec fn wf(self) -> bool {
        &&& 0 <= self.active < self.files.len()
        &&& font_size_in_range(self.font_size)
    }

    /// The state of an editor that has just started: one empty file, shown as
    /// raw text at the default font size.
    pub open spec fn initial(window: Option<Id>) -> StateView {
        StateView {
            window,
            mode: Mode::Edit,
            files: seq![FileView::empty()],
            active: 0,
            font_size: DEFAULT_EDITOR_FONT_SIZE as int,
            word_wrap: false,
            selected_file_action: None,
            selected_view_action: None,
        }
    }

    /// The file of the active tab.
    pub open spec fn active_file(self) -> FileView {
        self.files[self.active]
    }

    /// This state with `file` in place of the active file.
    pub open spec fn with_active_file(self, file: FileView) -> StateView {
        StateView { files: self.files.update(self.active, file), ..self }
    }

    /// This state with an empty file behind the last tab, and active.
    pub open spec fn with_new_file(self) -> StateView {
        StateView {
            files: self.files.push(FileView::empty()),
            active: self.files.len() as int,
            ..self
        }
    }

    /// The tab that a "close" of `index` is about: the one named, or the
    /// active one.
    pub open spec fn close_target(self, index: Option<usize>) -> int {
        match index {
            Some(index) => index as int,
            None => self.active,
        }
    }

    /// Whether a "close" ends the session: it does when it would take the
    /// last file.
    pub open spec fn close_ends_session(self) -> bool {
        self.files.len() <= 1
    }

    /// Whether a "close" of `index` has a defined outcome: the session ends,
    /// or the tab exists.
    pub open spec fn can_close(self, index: Option<usize>) -> bool {
        self.close_ends_session() || 0 <= self.close_target(index) < self.files.len()
    }

    /// The active index once the tab at `target` is gone. A tab before the
    /// active one takes the active index down with it, so that the same file
    /// stays active. When the active tab itself goes, its right neighbour
    /// becomes active, or the left one where it was the last tab.
    pub open spec fn active_after_close(self, target: int) -> int {
        if target < self.active || self.active == self.files.len() - 1 {
            self.active - 1
        } else {
            self.active
        }
    }

    /// This state after a "close" of `index`: unchanged where the session
    /// ends (or the tab does not exist), else without that tab.
    pub open spec fn with_closed(self, index: Option<usize>) -> StateView {
        let target = self.close_target(index);
        if self.close_ends_session() || !(0 <= target < self.files.len()) {
            self
        } else {
            StateView {
                files: self.files.remove(target),
                active: self.active_after_close(target),
                ..self
            }
        }
    }

    /// Whether the tab at `index` is the first whose file lives at `path`.
    pub open spec fn is_first_with_path(self, path: Seq<char>, index: int) -> bool {
        &&& 0 <= index < self.files.len()
        &&& self.files[index].path == Some(path)
        &&& forall|j: int| 0 <= j < index ==> (#[trigger] self.files[j]).path != Some(path)
    }

    /// Whether some open file lives at `path`.
    pub open spec fn has_path(self, path: Seq<char>) -> bool {
        exists|index: int| self.is_first_with_path(path, index)
    }

    /// The first tab whose file lives at `path`, where there is one.
    pub open spec fn index_of_path(self, path: Seq<char>) -> int {
        choose|index: int| self.is_first_with_path(path, index)
    }

    /// This state after `content` was read from `path`: where a file already
    /// lives at `path`, the first such file takes the content in place and
    /// becomes active; else a new file with the content comes behind the last
    /// tab, and is active.
    pub open spec fn with_opened(self, path: Seq<char>, content: Seq<char>) -> StateView {
        if self.has_path(path) {
            let index = self.index_of_path(path);
            StateView {
                files: self.files.update(index, self.files[index].with_text(content)),
                active: index,
                ..self
            }
        } else {
            StateView {
                files: self.files.push(FileView::loaded(content, Some(path))),
                active: self.files.len() as int,
                ..self
            }
        }
    }

    /// This state after a click on the tab at `index`; a click on a tab that
    /// does not exist changes nothing.
    pub open spec fn with_tab(self, index: int) -> StateView {
        if 0 <= index < self.files.len() {
            StateView { active: index, ..self }
        } else {
            self
        }
    }

    /// This state with the active file living at `path`.
    pub open spec fn with_active_path(self, path: Seq<char>) -> StateView {
        self.with_active_file(FileView { path: Some(path), ..self.active_file() })
    }

    /// This state with the mark of unsaved changes on the active file set to
    /// `dirty`.
    pub open spec fn with_active_dirty(self, dirty: bool) -> StateView {
        self.with_active_file(FileView { dirty, ..self.active_file() })
    }

    /// This state with the font one step larger, held at the largest size.
    pub open spec fn with_larger_font(self) -> StateView {
        StateView { font_size: font_size_above(self.font_size), ..self }
    }

    /// This state with the font one step smaller, held at the smallest size.
    pub open spec fn with_smaller_font(self) -> StateView {
        StateView { font_size: font_size_below(self.font_size), ..self }
    }

    /// This state with the font at its default size.
    pub open spec fn with_default_font(self) -> StateView {
        StateView { font_size: DEFAULT_EDITOR_FONT_SIZE as int, ..self }
    }

    /// This state after switching between raw text and preview. On the way to
    /// the preview the active file's markdown is parsed anew; on the way back
    /// only the mode changes.
    pub open spec fn with_preview_toggled(self) -> StateView {
        match self.mode {
            Mode::Edit => StateView {
                files: self.files.update(self.active, self.active_file().refreshed()),
                mode: Mode::Preview,
                ..self
            },
            Mode::Preview => StateView { mode: Mode::Edit, ..self },
        }
    }

    /// This state with word wrapping switched over.
    pub open spec fn with_word_wrap_toggled(self) -> StateView {
        StateView { word_wrap: !self.word_wrap, ..self }
    }
}

/// The views of a sequence of files, one for one.
pub open spec fn file_views(files: Seq<File>) -> Seq<FileView> {
    Seq::new(files.len(), |i: int| files[i]@)
}

/// The editor's state.
pub struct State {
    window_id: Option<Id>,
    mode: Mode,
    files: Vec<File>,
    current_file: usize,
    editor_font_size: u32,
    word_wrap: bool,
    selected_file_action: Option<FileAction>,
    selected_view_action: Option<ViewAction>,
}

impl View for State {
    type V = StateView;

    closed spec fn view(&self) -> StateView {
        StateView {
            window: self.window_id,
            mode: self.mode,
            files: file_views(self.files@),
            active: self.current_file as int,
            font_size: self.editor_font_size as int,
            word_wrap: self.word_wrap,
            selected_file_action: self.selected_file_action,
            selected_view_action: self.selected_view_action,
        }
    }
}

impl State {
    /// Whether this state is one of a running editor.
    pub open spec fn wf(&self) -> bool {
        self@.wf()
    }

    /// The open files themselves, in tab order.
    pub closed spec fn open_files(&self) -> Seq<File> {
        self.files@
    }

    /// The buffer of the active file.
    pub open spec fn active_buffer(&self) -> crate::buffer::TextBuffer {
        self.open_files()[self@.active].buffer()
    }

    /// The view lists the views of the open files.
    pub proof fn lemma_view_of_files(&self)
        ensures
            self@.files == file_views(self.open_files()),
    {
    }

    /// Tells whether this state is one of a running editor.
    pub fn is_sound(&self) -> (ok: bool)
        ensures
            ok == self.wf(),
    {
        self.current_file < self.files.len() && MIN_EDITOR_FONT_SIZE <= self.editor_font_size
            && self.editor_font_size <= MAX_EDITOR_FONT_SIZE
    }

    /// Tells whether a "close" of `index` has a defined outcome: the session
    /// ends, or the tab exists.
    pub fn can_close(&self, index: Option<usize>) -> (ok: bool)
        ensures
            ok == self@.can_close(index),
    {
        let target = match index {
            Some(index) => index,
            None => self.current_file,
        };
        self.files.len() <= 1 || target < self.files.len()
    }

    /// Starts the editor's state for the window `window_id`: one empty file,
    /// shown as raw text at the default font size.
    pub fn new(window_id: Id) -> (state: State)
        ensures
            state@ == StateView::initial(Some(window_id)),
            state.wf(),
    {
        let mut files: Vec<File> = Vec::new();
        files.push(File::default());
        let state = State {
            window_id: Some(window_id),
            mode: Mode::Edit,
            files,
            current_file: 0,
            editor_font_size: DEFAULT_EDITOR_FONT_SIZE,
            word_wrap: false,
            selected_file_action: None,
            selected_view_action: None,
        };
        assert(state@.files =~= seq![FileView::empty()]);
        state
    }

    /// Sets or clears the mark of unsaved changes on the active file.
    pub fn set_active_file_save_status(&mut self, status: bool)
        requires
            old(self).wf(),
        ensures
            final(self)@ == old(self)@.with_active_dirty(status),
            final(self).wf(),
    {
        self.files[self.current_file].set_needs_saving(status);
        assert(self@.files =~= old(self)@.with_active_dirty(status).files);
    }

    /// Performs `action` on the buffer of the active file, which then holds
    /// the text that the action makes of it. An `Edit` marks that file as
    /// changed; any other action leaves its mark and its text as they were.
    /// Its path and preview stay, and so does everything else.
    pub fn apply_edit(&mut self, action: Action)
        requires
            old(self).wf(),
        ensures
            final(self)@ == old(self)@.with_active_file(final(self)@.active_file()),
            final(self)@.active_file().text == text_after(old(self).active_buffer(), action),
            final(self)@.active_file().dirty == (old(self)@.active_file().dirty || action_is_edit(
                action,
            )),
            !action_is_edit(action) ==> final(self)@.active_file().text == old(
                self,
            )@.active_file().text,
            final(self)@.active_file().path == old(self)@.active_file().path,
            final(self)@.active_file().preview == old(self)@.active_file().preview,
            final(self).wf(),
    {
        self.files[self.current_file].apply_edit(action);
        assert(self@.files =~= old(self)@.with_active_file(self@.active_file()).files);
    }

    /// Opens an empty file behind the last tab and makes it active.
    pub fn new_file(&mut self)
        requires
            old(self).wf(),
        ensures
            final(self)@ == old(self)@.with_new_file(),
            final(self).wf(),
    {
        self.files.push(File::default());
        self.current_file = self.files.len() - 1;
        assert(self@.files =~= old(self)@.with_new_file().files);
    }

    /// Closes the tab at `index`, or the active tab where `index` is `None`.
    ///
    /// Returns `true`, and changes nothing, where that tab holds the last
    /// file: the session is to end. Else the tab goes, the active index
    /// follows as [`StateView::active_after_close`] says, and `false` comes
    /// back.
    pub fn close_file(&mut self, index: Option<usize>) -> (ends: bool)
        requires
            old(self).wf(),
            old(self)@.can_close(index),
        ensures
            ends == old(self)@.close_ends_session(),
            final(self)@ == old(self)@.with_closed(index),
            final(self).wf(),
    {
        let target = match index {
            Some(index) => index,
            None => self.current_file,
        };
        if self.files.len() <= 1 {
            return true;
        }
        let _ = self.files.remove(target);
        if target < self.current_file || self.current_file == self.files.len() {
            self.current_file = self.current_file - 1;
        }
        assert(self@.files =~= old(self)@.with_closed(index).files);
        false
    }

    /// Takes in `content`, read from `path`. Where a file already lives at
    /// `path`, the first such file takes the content in place and becomes
    /// active, so that no path gets a second tab this way. Else a new file
    /// with the content comes behind the last tab, and is active.
    pub fn open_file(&mut self, path: String, content: String)
        requires
            old(self).wf(),
        ensures
            final(self)@ == old(self)@.with_opened(path@, content@),
            final(self).wf(),
    {
        let mut index: usize = 0;
        while index < self.files.len()
            invariant
                *self == *old(self),
                self.wf(),
                index <= self.files@.len(),
                forall|j: int| 0 <= j < index ==> (#[trigger] self@.files[j]).path != Some(path@),
            decreases self.files@.len() - index,
        {
            let found = match self.files[index].path() {
                Some(existing) => *existing == path,
                None => false,
            };
            if found {
                assert(old(self)@.is_first_with_path(path@, index as int));
                self.files[index].set_content(content.as_str());
                self.current_file = index;
                assert(self@.files =~= old(self)@.with_opened(path@, content@).files);
                return;
            }
            index += 1;
        }
        assert(!old(self)@.has_path(path@));
        let opened = File::from(content.as_str(), Some(path));
        self.files.push(opened);
        self.current_file = self.files.len() - 1;
        assert(self@.files =~= old(self)@.with_opened(path@, content@).files);
    }

    /// Makes the tab at `index` active. An index past the last tab is
    /// ignored.
    pub fn switch_tab(&mut self, index: usize)
        requires
            old(self).wf(),
        ensures
            final(self)@ == old(self)@.with_tab(index as int),
            index >= old(self)@.files.len() ==> final(self)@ == old(self)@,
            final(self).wf(),
    {
        if index < self.files.len() {
            self.current_file = index;
        }
    }

    /// The path and the text of the active file, as a save needs them.
    pub fn active_file_data(&self) -> (data: (Option<&String>, String))
        requires
            self.wf(),
        ensures
            match data.0 {
                Some(path) => self@.active_file().path == Some(path@),
                None => self@.active_file().path is None,
            },
            data.1@ == self@.active_file().text,
    {
        let file = &self.files[self.current_file];
        (file.path(), file.text())
    }

    /// Records that the active file lives at `path`.
    pub fn set_active_file_path(&mut self, path: String)
        requires
            old(self).wf(),
        ensures
            final(self)@ == old(self)@.with_active_path(path@),
            final(self).wf(),
    {
        self.files[self.current_file].set_path(Some(path));
        assert(self@.files =~= old(self)@.with_active_path(path@).files);
    }

    /// Makes the font one step larger; at the largest size nothing changes.
    pub fn increase_font(&mut self)
        requires
            old(self).wf(),
        ensures
            final(self)@ == old(self)@.with_larger_font(),
            final(self).wf(),
    {
        self.editor_font_size = larger_font_size(self.editor_font_size);
    }

    /// Makes the font one step smaller; at the smallest size nothing changes.
    pub fn decrease_font(&mut self)
        requires
            old(self).wf(),
        ensures
            final(self)@ == old(self)@.with_smaller_font(),
            final(self).wf(),
    {
        self.editor_font_size = smaller_font_size(self.editor_font_size);
    }

    /// Returns the font to its default size.
    pub fn reset_font(&mut self)
        requires
            old(self).wf(),
        ensures
            final(self)@ == old(self)@.with_default_font(),
            final(self)@.font_size == DEFAULT_EDITOR_FONT_SIZE,
            final(self).wf(),
    {
        self.editor_font_size = DEFAULT_EDITOR_FONT_SIZE;
    }

    /// Switches between raw text and preview. On the way to the preview the
    /// active file's markdown is parsed anew; on the way back only the mode
    /// changes. No text changes either way.
    pub fn toggle_preview(&mut self)
        requires
            old(self).wf(),
        ensures
            final(self)@ == old(self)@.with_preview_toggled(),
            final(self).wf(),
    {
        match self.mode {
            Mode::Edit => {
                self.files[self.current_file].update_markdown();
                self.mode = Mode::Preview;
                assert(self@.files =~= old(self)@.with_preview_toggled().files);
            },
            Mode::Preview => {
                self.mode = Mode::Edit;
            },
        }
    }

    /// Switches word wrapping on or off.
    pub fn toggle_word_wrap(&mut self)
        requires
            old(self).wf(),
        ensures
            final(self)@ == old(self)@.with_word_wrap_toggled(),
            final(self).wf(),
    {
        self.word_wrap = !self.word_wrap;
    }

    /// The open files, in tab order.
    pub fn files(&self) -> (files: &[File])
        ensures
            files@ == self.open_files(),
            file_views(files@) == self@.files,
    {
        self.files.as_slice()
    }

    /// The index of the active tab.
    pub fn current_file_index(&self) -> (index: usize)
        ensures
            index == self@.active,
    {
        self.current_file
    }

    /// The file of the active tab.
    pub fn active_file(&self) -> (file: &File)
        requires
            self.wf(),
        ensures
            *file == self.open_files()[self@.active],
            file@ == self@.active_file(),
    {
        &self.files[self.current_file]
    }

    /// How the active file is shown.
    pub fn mode(&self) -> (mode: Mode)
        ensures
            mode == self@.mode,
    {
        self.mode
    }

    /// The window that shows the editor, once it has opened.
    pub fn window_id(&self) -> (id: Option<Id>)
        ensures
            id == self@.window,
    {
        self.window_id
    }

    /// The font size of the editor.
    pub fn font_size(&self) -> (size: u32)
        ensures
            size == self@.font_size,
    {
        self.editor_font_size
    }

    /// Whether long lines wrap.
    pub fn word_wrap(&self) -> (wraps: bool)
        ensures
            wraps == self@.word_wrap,
    {
        self.word_wrap
    }

    /// The entry that the "File" menu shows as chosen.
    pub fn selected_file_action(&self) -> (action: Option<FileAction>)
        ensures
            action == self@.selected_file_action,
    {
        self.selected_file_action
    }

    /// The entry that the "View" menu shows as chosen.
    pub fn selected_view_action(&self) -> (action: Option<ViewAction>)
        ensures
            action == self@.selected_view_action,
    {
        self.selected_view_action
    }

    /// Records the window that shows the editor.
    pub fn set_window_id(&mut self, id: Id)
        ensures
            final(self)@ == (StateView { window: Some(id), ..old(self)@ }),
    {
        self.window_id = Some(id);
    }
}

} // verus!
