use iced::widget::text_editor::{Action, Edit, Motion};
use iced::window::Id;
use tab_editor::constants::{
    larger_font_size, smaller_font_size, DEFAULT_EDITOR_FONT_SIZE, EDITOR_FONT_SIZE_STEP,
    MAX_EDITOR_FONT_SIZE, MIN_EDITOR_FONT_SIZE,
};
use tab_editor::state::{Mode, State};

fn with_tabs(paths: &[&str]) -> State {
    let mut state = State::new(Id::unique());
    for (i, path) in paths.iter().enumerate() {
        if i > 0 {
            state.new_file();
        }
        state.set_active_file_path(String::from(*path));
    }
    state
}

fn paths_of(state: &State) -> Vec<String> {
    state.files().iter().map(|file| file.path_summary()).collect()
}

#[test]
fn a_new_state_has_one_empty_file() {
    let id = Id::unique();
    let state = State::new(id);
    assert_eq!(state.window_id(), Some(id));
    assert!(matches!(state.mode(), Mode::Edit));
    assert_eq!(state.files().len(), 1);
    assert_eq!(state.current_file_index(), 0);
    assert_eq!(state.font_size(), 16);
    assert!(!state.word_wrap());
    assert_eq!(state.selected_file_action(), None);
    assert_eq!(state.selected_view_action(), None);
    assert_eq!(state.active_file().text(), "");
    assert_eq!(state.active_file().path(), None);
    assert!(!state.active_file().needs_saving());
}

#[test]
fn set_window_id_replaces_the_window() {
    let mut state = State::new(Id::unique());
    let other = Id::unique();
    state.set_window_id(other);
    assert_eq!(state.window_id(), Some(other));
}

#[test]
fn new_file_appends_and_activates() {
    let mut state = with_tabs(&["a", "b"]);
    state.switch_tab(0);
    state.new_file();
    assert_eq!(state.files().len(), 3);
    assert_eq!(state.current_file_index(), 2);
    assert_eq!(paths_of(&state), vec!["a", "b", ""]);
    assert!(!state.active_file().needs_saving());
}

#[test]
fn closing_the_last_file_ends_the_session_and_removes_nothing() {
    let mut state = with_tabs(&["only"]);
    assert!(state.close_file(None));
    assert_eq!(state.files().len(), 1);
    assert_eq!(state.current_file_index(), 0);
    assert!(state.close_file(Some(0)));
    assert_eq!(paths_of(&state), vec!["only"]);
}

#[test]
fn closing_the_last_file_ignores_the_index() {
    let mut state = with_tabs(&["only"]);
    assert!(state.close_file(Some(7)));
    assert_eq!(paths_of(&state), vec!["only"]);
}

#[test]
fn tabs_never_run_out_under_new_and_close() {
    let mut state = State::new(Id::unique());
    for round in 0..5 {
        for _ in 0..round {
            state.new_file();
            assert!(state.files().len() >= 1);
            assert!(state.current_file_index() < state.files().len());
        }
        for _ in 0..(round + 2) {
            let was_last = state.files().len() == 1;
            let ends = state.close_file(None);
            assert_eq!(ends, was_last);
            assert!(state.files().len() >= 1);
            assert!(state.current_file_index() < state.files().len());
        }
    }
    assert_eq!(state.files().len(), 1);
}

#[test]
fn closing_the_active_tab_in_the_middle_activates_the_right_neighbour() {
    let mut state = with_tabs(&["a", "b", "c"]);
    state.switch_tab(1);
    assert!(!state.close_file(None));
    assert_eq!(paths_of(&state), vec!["a", "c"]);
    assert_eq!(state.current_file_index(), 1);
    assert_eq!(state.active_file().path_summary(), "c");
}

#[test]
fn closing_the_active_tab_at_the_end_activates_the_left_neighbour() {
    let mut state = with_tabs(&["a", "b", "c"]);
    assert_eq!(state.current_file_index(), 2);
    assert!(!state.close_file(Some(2)));
    assert_eq!(paths_of(&state), vec!["a", "b"]);
    assert_eq!(state.current_file_index(), 1);
}

#[test]
fn closing_a_tab_behind_the_active_one_changes_no_index() {
    let mut state = with_tabs(&["a", "b", "c"]);
    state.switch_tab(0);
    assert!(!state.close_file(Some(2)));
    assert_eq!(paths_of(&state), vec!["a", "b"]);
    assert_eq!(state.current_file_index(), 0);
}

#[test]
fn closing_a_tab_before_the_active_one_moves_the_index_down() {
    let mut state = with_tabs(&["a", "b", "c", "d"]);
    state.switch_tab(2);
    assert!(!state.close_file(Some(0)));
    assert_eq!(paths_of(&state), vec!["b", "c", "d"]);
    assert_eq!(state.current_file_index(), 1);
    assert_eq!(state.active_file().path_summary(), "c");
}

#[test]
fn opening_a_new_path_appends_a_clean_file() {
    let mut state = with_tabs(&["a"]);
    state.open_file(String::from("b"), String::from("text of b"));
    assert_eq!(paths_of(&state), vec!["a", "b"]);
    assert_eq!(state.current_file_index(), 1);
    assert_eq!(state.active_file().text(), "text of b");
    assert!(!state.active_file().needs_saving());
    assert!(state.active_file().markdown().is_empty());
}

#[test]
fn opening_the_same_path_twice_keeps_one_tab_with_the_later_content() {
    let mut state = with_tabs(&["a"]);
    state.open_file(String::from("b"), String::from("first"));
    state.new_file();
    assert_eq!(state.current_file_index(), 2);

    state.open_file(String::from("b"), String::from("second"));

    assert_eq!(paths_of(&state), vec!["a", "b", ""]);
    assert_eq!(state.current_file_index(), 1);
    assert_eq!(state.active_file().text(), "second");
    let with_b = state.files().iter().filter(|file| file.path_summary() == "b").count();
    assert_eq!(with_b, 1);
}

#[test]
fn reopening_a_path_keeps_the_dirty_mark_and_the_stale_preview() {
    let mut state = State::new(Id::unique());
    state.open_file(String::from("b.md"), String::from("# One"));
    state.toggle_preview();
    state.toggle_preview();
    state.apply_edit(Action::Edit(Edit::Insert('x')));
    assert!(state.active_file().needs_saving());

    state.open_file(String::from("b.md"), String::from("plain"));

    assert_eq!(state.active_file().text(), "plain");
    assert!(state.active_file().needs_saving());
    assert_eq!(state.active_file().markdown().len(), 1);
    assert_eq!(state.active_file().position_summary(), "Ln 0, Col 0");
}

#[test]
fn opening_takes_the_first_of_two_tabs_with_the_path() {
    let mut state = with_tabs(&["x", "dup", "dup"]);
    state.open_file(String::from("dup"), String::from("new"));
    assert_eq!(state.files().len(), 3);
    assert_eq!(state.current_file_index(), 1);
    assert_eq!(state.files()[1].text(), "new");
    assert_eq!(state.files()[2].text(), "");
}

#[test]
fn opening_compares_paths_letter_for_letter() {
    let mut state = with_tabs(&["dir/a.md"]);
    state.open_file(String::from("dir//a.md"), String::from("other"));
    assert_eq!(state.files().len(), 2);
    assert_eq!(state.current_file_index(), 1);
}

#[test]
fn switch_tab_in_range_activates_the_tab() {
    let mut state = with_tabs(&["a", "b", "c"]);
    state.switch_tab(0);
    assert_eq!(state.current_file_index(), 0);
    state.switch_tab(2);
    assert_eq!(state.current_file_index(), 2);
}

#[test]
fn switch_tab_out_of_range_is_ignored() {
    let mut state = with_tabs(&["a", "b", "c"]);
    state.switch_tab(1);
    state.switch_tab(3);
    assert_eq!(state.current_file_index(), 1);
    state.switch_tab(usize::MAX);
    assert_eq!(state.current_file_index(), 1);
    assert_eq!(state.files().len(), 3);
}

#[test]
fn font_steps_by_two_and_stops_at_the_limits() {
    assert_eq!(MIN_EDITOR_FONT_SIZE, 12);
    assert_eq!(MAX_EDITOR_FONT_SIZE, 80);
    assert_eq!(DEFAULT_EDITOR_FONT_SIZE, 16);
    assert_eq!(EDITOR_FONT_SIZE_STEP, 2);

    let mut state = State::new(Id::unique());
    state.increase_font();
    assert_eq!(state.font_size(), 18);
    state.decrease_font();
    state.decrease_font();
    assert_eq!(state.font_size(), 14);
    for _ in 0..10 {
        state.decrease_font();
        assert!(state.font_size() >= MIN_EDITOR_FONT_SIZE);
    }
    assert_eq!(state.font_size(), 12);
    for _ in 0..100 {
        state.increase_font();
        assert!(state.font_size() <= MAX_EDITOR_FONT_SIZE);
    }
    assert_eq!(state.font_size(), 80);
    state.reset_font();
    assert_eq!(state.font_size(), 16);
}

#[test]
fn font_step_functions_clamp() {
    assert_eq!(larger_font_size(12), 14);
    assert_eq!(larger_font_size(78), 80);
    assert_eq!(larger_font_size(79), 80);
    assert_eq!(larger_font_size(80), 80);
    assert_eq!(smaller_font_size(80), 78);
    assert_eq!(smaller_font_size(14), 12);
    assert_eq!(smaller_font_size(13), 12);
    assert_eq!(smaller_font_size(12), 12);
}

#[test]
fn cursor_moves_do_not_dirty_and_edits_do() {
    let mut state = State::new(Id::unique());
    state.open_file(String::from("a.txt"), String::from("hello"));

    state.apply_edit(Action::Move(Motion::Right));
    state.apply_edit(Action::Select(Motion::Right));
    state.apply_edit(Action::SelectAll);
    state.apply_edit(Action::Move(Motion::DocumentEnd));
    assert!(!state.active_file().needs_saving());
    assert_eq!(state.active_file().text(), "hello");

    state.apply_edit(Action::Edit(Edit::Insert('!')));
    assert!(state.active_file().needs_saving());
    assert_eq!(state.active_file().text(), "hello!");

    state.apply_edit(Action::Move(Motion::Left));
    assert!(state.active_file().needs_saving());
    assert_eq!(state.active_file().text(), "hello!");
}

#[test]
fn an_edit_reaches_the_active_file_only() {
    let mut state = with_tabs(&["a", "b"]);
    state.switch_tab(0);
    state.apply_edit(Action::Edit(Edit::Insert('z')));
    assert_eq!(state.files()[0].text(), "z");
    assert!(state.files()[0].needs_saving());
    assert_eq!(state.files()[1].text(), "");
    assert!(!state.files()[1].needs_saving());
}

#[test]
fn save_status_and_path_go_to_the_active_file() {
    let mut state = with_tabs(&["a", "b"]);
    state.switch_tab(0);
    state.set_active_file_save_status(true);
    state.set_active_file_path(String::from("renamed"));
    assert_eq!(paths_of(&state), vec!["renamed", "b"]);
    assert!(state.files()[0].needs_saving());
    assert!(!state.files()[1].needs_saving());
    state.set_active_file_save_status(false);
    assert!(!state.files()[0].needs_saving());
}

#[test]
fn active_file_data_gives_path_and_text() {
    let mut state = State::new(Id::unique());
    {
        let (path, text) = state.active_file_data();
        assert_eq!(path, None);
        assert_eq!(text, "");
    }
    state.open_file(String::from("p.txt"), String::from("body\n"));
    let (path, text) = state.active_file_data();
    assert_eq!(path, Some(&String::from("p.txt")));
    assert_eq!(text, "body\n");
}

#[test]
fn toggle_preview_parses_on_the_way_in_only() {
    let mut state = State::new(Id::unique());
    state.open_file(String::from("doc.md"), String::from("# A\n\ntext"));
    state.toggle_preview();
    assert_eq!(state.active_file().markdown().len(), 2);
    state.toggle_preview();
    state.apply_edit(Action::Move(Motion::DocumentEnd));
    state.apply_edit(Action::Edit(Edit::Enter));
    state.apply_edit(Action::Edit(Edit::Enter));
    state.apply_edit(Action::Edit(Edit::Insert('b')));
    assert_eq!(state.active_file().text(), "# A\n\ntext\n\nb");
    assert_eq!(state.active_file().markdown().len(), 2);
    state.toggle_preview();
    assert_eq!(state.active_file().markdown().len(), 3);
}

#[test]
fn toggle_word_wrap_flips_the_flag_only() {
    let mut state = with_tabs(&["a", "b"]);
    state.toggle_word_wrap();
    assert!(state.word_wrap());
    assert_eq!(state.current_file_index(), 1);
    assert_eq!(state.font_size(), 16);
    assert!(matches!(state.mode(), Mode::Edit));
    state.toggle_word_wrap();
    assert!(!state.word_wrap());
}

#[test]
fn mode_defaults_to_edit() {
    assert_eq!(Mode::default(), Mode::Edit);
}

#[test]
fn a_state_built_by_its_operations_is_sound() {
    let mut state = State::new(Id::unique());
    assert!(state.is_sound());
    state.new_file();
    state.open_file(String::from("a"), String::from("text"));
    state.close_file(Some(0));
    for _ in 0..50 {
        state.increase_font();
    }
    state.toggle_preview();
    assert!(state.is_sound());
}

#[test]
fn can_close_tells_the_tabs_that_exist() {
    let mut state = State::new(Id::unique());
    assert!(state.can_close(None));
    assert!(state.can_close(Some(0)));
    assert!(state.can_close(Some(9)));
    state.new_file();
    state.new_file();
    assert!(state.can_close(None));
    assert!(state.can_close(Some(0)));
    assert!(state.can_close(Some(2)));
    assert!(!state.can_close(Some(3)));
    assert!(!state.can_close(Some(usize::MAX)));
}

#[test]
fn an_insert_into_a_new_state_leaves_its_letter() {
    let mut state = State::new(Id::unique());
    state.apply_edit(Action::Edit(Edit::Insert('a')));
    assert!(state.active_file().needs_saving());
    assert_eq!(state.active_file().text(), "a");
    assert_eq!(state.active_file().path(), None);
    assert_eq!(state.files().len(), 1);
}
