//! What holds of the editor's state whatever the user does.

use crate::constants::{font_size_in_range, DEFAULT_EDITOR_FONT_SIZE};
use crate::file::FileView;
use crate::message::{FileAction, ViewAction};
use crate::state::{Mode, StateView};
use vstd::prelude::*;

verus! {

/// The state after the entries `actions` of the "File" menu were chosen one
/// after the other, a "close" of a tab that does not exist counting for
/// nothing.
pub open spec fn after_file_actions(state: StateView, actions: Seq<FileAction>) -> StateView
    decreases actions.len(),
{
    if actions.len() == 0 {
        state
    } else {
        after_file_actions(state, actions.drop_last()).after_file_action(actions.last())
    }
}

/// The state after the entries `actions` of the "View" menu were chosen one
/// after the other.
pub open spec fn after_view_actions(state: StateView, actions: Seq<ViewAction>) -> StateView
    decreases actions.len(),
{
    if actions.len() == 0 {
        state
    } else {
        after_view_actions(state, actions.drop_last()).after_view_action(actions.last())
    }
}

/// Opening and closing tabs, in any order and number, never leaves the editor
/// without a file: a "close" of the last file ends the session and takes
/// nothing away. The active index points at a file throughout.
pub proof fn lemma_tabs_never_run_out(state: StateView, actions: Seq<FileAction>)
    requires
        state.wf(),
    ensures
        after_file_actions(state, actions).files.len() >= 1,
        after_file_actions(state, actions).wf(),
    decreases actions.len(),
{
    if actions.len() > 0 {
        lemma_tabs_never_run_out(state, actions.drop_last());
    }
}

/// A "close" that does not end the session takes exactly one file away, and
/// one that ends it takes none.
pub proof fn lemma_close_takes_one(state: StateView, index: Option<usize>)
    requires
        state.wf(),
        state.can_close(index),
    ensures
        state.close_ends_session() ==> state.with_closed(index) == state,
        !state.close_ends_session() ==> state.with_closed(index).files.len() + 1
            == state.files.len(),
        state.with_closed(index).wf(),
{
}

/// Closing a tab other than the active one leaves the same file active.
/// Closing the active tab makes its right neighbour active, or its left one
/// where it was the last tab.
pub proof fn lemma_close_keeps_the_active_file(state: StateView, index: Option<usize>)
    requires
        state.wf(),
        state.can_close(index),
        !state.close_ends_session(),
    ensures
        ({
            let target = state.close_target(index);
            let after = state.with_closed(index);
            &&& target != state.active ==> after.active_file() == state.active_file()
            &&& target == state.active && state.active + 1 < state.files.len()
                ==> after.active_file() == state.files[state.active + 1]
            &&& target == state.active && state.active + 1 == state.files.len()
                ==> after.active_file() == state.files[state.active - 1]
        }),
{
}

/// Only one tab can be the first to hold a path.
pub proof fn lemma_first_with_path_is_unique(state: StateView, path: Seq<char>, i: int, j: int)
    requires
        state.is_first_with_path(path, i),
        state.is_first_with_path(path, j),
    ensures
        i == j,
{
    if i < j {
        assert(state.files[i].path != Some(path));
    } else if j < i {
        assert(state.files[j].path != Some(path));
    }
}

/// Where some file lives at `path`, a first such file exists.
pub proof fn lemma_some_file_is_first(state: StateView, path: Seq<char>, index: int)
    requires
        0 <= index < state.files.len(),
        state.files[index].path == Some(path),
    ensures
        state.has_path(path),
        0 <= state.index_of_path(path) <= index,
    decreases index,
{
    if forall|j: int| 0 <= j < index ==> (#[trigger] state.files[j]).path != Some(path) {
        assert(state.is_first_with_path(path, index));
    } else {
        let j = choose|j: int| 0 <= j < index && (#[trigger] state.files[j]).path == Some(path);
        lemma_some_file_is_first(state, path, j);
    }
}

/// Opening a path keeps the state sound, makes a file of that path and with
/// the content read the active one, and adds a tab only where no open file
/// lived at the path.
pub proof fn lemma_open_activates_the_path(state: StateView, path: Seq<char>, content: Seq<char>)
    requires
        state.wf(),
    ensures
        ({
            let after = state.with_opened(path, content);
            &&& after.wf()
            &&& after.active_file().path == Some(path)
            &&& after.active_file().text == content
            &&& after.is_first_with_path(path, after.active)
            &&& after.files.len() == if state.has_path(path) {
                state.files.len()
            } else {
                state.files.len() + 1
            }
        }),
{
    let after = state.with_opened(path, content);
    if state.has_path(path) {
        let index = state.index_of_path(path);
        assert(state.is_first_with_path(path, index));
        assert forall|j: int| 0 <= j < index implies (#[trigger] after.files[j]).path != Some(
            path,
        ) by {
            assert(after.files[j] == state.files[j]);
        }
    } else {
        assert forall|j: int| 0 <= j < state.files.len() implies (#[trigger] after.files[j]).path
            != Some(path) by {
            assert(after.files[j] == state.files[j]);
            if state.files[j].path == Some(path) {
                lemma_some_file_is_first(state, path, j);
            }
        }
    }
}

/// Opening the same path twice makes one tab for it, not two: the second
/// opening adds no tab, stays on the tab of the first, and leaves it with the
/// content read last. Where at most one open file lived at the path before,
/// exactly one does afterwards.
pub proof fn lemma_open_twice_is_one_tab(
    state: StateView,
    path: Seq<char>,
    first: Seq<char>,
    second: Seq<char>,
)
    requires
        state.wf(),
        forall|i: int, j: int|
            0 <= i < state.files.len() && 0 <= j < state.files.len() && (
            #[trigger] state.files[i]).path == Some(path) && (#[trigger] state.files[j]).path
                == Some(path) ==> i == j,
    ensures
        ({
            let once = state.with_opened(path, first);
            let twice = once.with_opened(path, second);
            &&& twice.files.len() == once.files.len()
            &&& twice.active == once.active
            &&& twice.active_file().path == Some(path)
            &&& twice.active_file().text == second
            &&& forall|i: int|
                0 <= i < twice.files.len() && (#[trigger] twice.files[i]).path == Some(path) ==> i
                    == twice.active
        }),
{
    let once = state.with_opened(path, first);
    let twice = once.with_opened(path, second);
    lemma_open_activates_the_path(state, path, first);
    lemma_open_activates_the_path(once, path, second);
    assert(once.has_path(path));
    lemma_first_with_path_is_unique(once, path, once.active, once.index_of_path(path));
    assert forall|i: int|
        0 <= i < twice.files.len() && (#[trigger] twice.files[i]).path == Some(path) implies i
        == twice.active by {
        assert(twice.files[i].path == once.files[i].path);
        if state.has_path(path) {
            let index = state.index_of_path(path);
            assert(state.is_first_with_path(path, index));
            assert(once.files[i].path == state.files[i].path);
        } else if i < state.files.len() {
            assert(once.files[i] == state.files[i]);
            lemma_some_file_is_first(state, path, i);
        }
    }
}

/// A click on a tab that does not exist changes nothing; one on a tab that
/// exists makes it active and changes nothing else.
pub proof fn lemma_switch_tab(state: StateView, index: int)
    requires
        state.wf(),
    ensures
        !(0 <= index < state.files.len()) ==> state.with_tab(index) == state,
        0 <= index < state.files.len() ==> state.with_tab(index).active == index,
        state.with_tab(index).files == state.files,
        state.with_tab(index).wf(),
{
}

/// Whatever entries of the "View" menu are chosen, the font size stays
/// between the smallest and the largest size, and the same files stay open
/// with the same texts.
pub proof fn lemma_font_size_stays_in_range(state: StateView, actions: Seq<ViewAction>)
    requires
        state.wf(),
    ensures
        font_size_in_range(after_view_actions(state, actions).font_size),
        after_view_actions(state, actions).wf(),
        after_view_actions(state, actions).files.len() == state.files.len(),
        forall|i: int|
            0 <= i < state.files.len() ==> (#[trigger] after_view_actions(
                state,
                actions,
            ).files[i]).text == state.files[i].text,
    decreases actions.len(),
{
    if actions.len() > 0 {
        lemma_font_size_stays_in_range(state, actions.drop_last());
    }
}

/// A reset leaves the font at its default size, whatever it was.
pub proof fn lemma_reset_is_default(state: StateView)
    ensures
        state.with_default_font().font_size == DEFAULT_EDITOR_FONT_SIZE,
        state.after_view_action(ViewAction::Reset).font_size == DEFAULT_EDITOR_FONT_SIZE,
        font_size_in_range(DEFAULT_EDITOR_FONT_SIZE as int),
{
}

/// Going to the preview and back returns to the mode one came from and
/// leaves every text, path and mark of unsaved changes as it was: the preview
/// is the only thing that a toggle may renew.
pub proof fn lemma_preview_keeps_the_text(state: StateView)
    requires
        state.wf(),
    ensures
        ({
            let there = state.with_preview_toggled();
            let back = there.with_preview_toggled();
            &&& there.wf()
            &&& there.mode != state.mode
            &&& back.mode == state.mode
            &&& back.files.len() == state.files.len()
            &&& forall|i: int|
                0 <= i < state.files.len() ==> {
                    &&& (#[trigger] back.files[i]).text == state.files[i].text
                    &&& back.files[i].path == state.files[i].path
                    &&& back.files[i].dirty == state.files[i].dirty
                }
            &&& state.mode == Mode::Edit ==> there.active_file().preview
                == crate::preview::markdown_items(state.active_file().text)
        }),
{
}

/// A successful save leaves the active file at the path written to, with
/// nothing left to save and its text untouched.
pub proof fn lemma_save_clears_the_mark(state: StateView, path: String)
    requires
        state.wf(),
    ensures
        ({
            let after = state.after_file_saved(Ok(path));
            &&& after.wf()
            &&& after.active == state.active
            &&& after.active_file() == (FileView {
                path: Some(path@),
                dirty: false,
                ..state.active_file()
            })
        }),
{
}

} // verus!
