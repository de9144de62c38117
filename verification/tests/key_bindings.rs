use tab_editor::key_bindings::{all, message_for, Key, Modifiers};
use tab_editor::message::{FileAction, Message, ViewAction};

fn key(text: &str) -> Key {
    Key::Character(String::from(text))
}

fn file_message(message: Option<Message>) -> Option<FileAction> {
    match message {
        Some(Message::FileActionSelected(action)) => Some(action),
        _ => None,
    }
}

fn view_message(message: Option<Message>) -> Option<ViewAction> {
    match message {
        Some(Message::ViewActionSelected(action)) => Some(action),
        _ => None,
    }
}

#[test]
fn file_labels_are_the_menu_texts() {
    assert_eq!(FileAction::New.label(), "New file");
    assert_eq!(FileAction::Save.label(), "Save");
    assert_eq!(FileAction::SaveAs.label(), "Save as... ");
    assert_eq!(FileAction::Open.label(), "Open");
    assert_eq!(FileAction::Close(None).label(), "Close");
    assert_eq!(FileAction::Close(Some(3)).label(), "Close");
}

#[test]
fn view_labels_are_the_menu_texts() {
    assert_eq!(ViewAction::Increase.label(), "Increase font");
    assert_eq!(ViewAction::Decrease.label(), "Decrease font");
    assert_eq!(ViewAction::Reset.label(), "Reset font");
    assert_eq!(ViewAction::TogglePreview.label(), "Toggle preview");
    assert_eq!(ViewAction::ToggleWordWrap.label(), "Toggle word wrap");
}

#[test]
fn menus_list_their_entries_in_order() {
    assert_eq!(
        FileAction::all(),
        vec![
            FileAction::New,
            FileAction::Save,
            FileAction::SaveAs,
            FileAction::Open,
            FileAction::Close(None)
        ]
    );
    assert_eq!(
        ViewAction::all(),
        vec![
            ViewAction::Increase,
            ViewAction::Decrease,
            ViewAction::Reset,
            ViewAction::TogglePreview,
            ViewAction::ToggleWordWrap
        ]
    );
}

#[test]
fn modifiers_union_and_contains() {
    let ctrl = Modifiers::ctrl();
    let both = ctrl.union(Modifiers::shift());
    assert_eq!(both, Modifiers { shift: true, control: true, alt: false, logo: false });
    assert!(both.contains(ctrl));
    assert!(both.contains(Modifiers::shift()));
    assert!(both.contains(both));
    assert!(!ctrl.contains(both));
    assert!(!both.contains(Modifiers::alt()));
    let none = Modifiers { shift: false, control: false, alt: false, logo: false };
    assert!(ctrl.contains(none));
    assert!(none.contains(none));
    assert!(!none.contains(ctrl));
}

#[test]
fn the_table_has_ten_shortcuts() {
    assert_eq!(all().len(), 10);
}

#[test]
fn control_shortcuts_send_file_actions() {
    let ctrl = Modifiers::ctrl();
    assert_eq!(file_message(message_for(&key("o"), &ctrl)), Some(FileAction::Open));
    assert_eq!(file_message(message_for(&key("n"), &ctrl)), Some(FileAction::New));
    assert_eq!(file_message(message_for(&key("s"), &ctrl)), Some(FileAction::Save));
    assert_eq!(file_message(message_for(&key("w"), &ctrl)), Some(FileAction::Close(None)));
}

#[test]
fn control_shift_s_is_save_as_and_not_save() {
    let held = Modifiers::ctrl().union(Modifiers::shift());
    assert_eq!(file_message(message_for(&key("s"), &held)), Some(FileAction::SaveAs));
}

#[test]
fn control_shortcuts_send_view_actions() {
    let ctrl = Modifiers::ctrl();
    assert_eq!(view_message(message_for(&key("p"), &ctrl)), Some(ViewAction::TogglePreview));
    assert_eq!(view_message(message_for(&key("="), &ctrl)), Some(ViewAction::Increase));
    assert_eq!(view_message(message_for(&key("-"), &ctrl)), Some(ViewAction::Decrease));
    assert_eq!(view_message(message_for(&key("0"), &ctrl)), Some(ViewAction::Reset));
}

#[test]
fn alt_z_toggles_word_wrap() {
    let alt = Modifiers::alt();
    assert_eq!(view_message(message_for(&key("z"), &alt)), Some(ViewAction::ToggleWordWrap));
    assert!(message_for(&key("z"), &Modifiers::ctrl()).is_none());
}

#[test]
fn further_modifiers_do_no_harm() {
    let held = Modifiers { shift: true, control: true, alt: true, logo: true };
    assert_eq!(file_message(message_for(&key("o"), &held)), Some(FileAction::Open));
    assert_eq!(file_message(message_for(&key("s"), &held)), Some(FileAction::SaveAs));
}

#[test]
fn keys_without_a_shortcut_send_nothing() {
    let ctrl = Modifiers::ctrl();
    let none = Modifiers { shift: false, control: false, alt: false, logo: false };
    assert!(message_for(&key("o"), &none).is_none());
    assert!(message_for(&key("x"), &ctrl).is_none());
    assert!(message_for(&key("O"), &ctrl).is_none());
    assert!(message_for(&key("os"), &ctrl).is_none());
    assert!(message_for(&key(""), &ctrl).is_none());
    assert!(message_for(&Key::Named, &ctrl).is_none());
    assert!(message_for(&Key::Unidentified, &ctrl).is_none());
}

#[test]
fn a_shortcut_answers_to_its_own_keys() {
    let table = all();
    let save_as = &table[2];
    let held = Modifiers::ctrl().union(Modifiers::shift());
    assert!(save_as.should_handle(&key("s"), &held));
    assert!(!save_as.should_handle(&key("s"), &Modifiers::ctrl()));
    assert!(!save_as.should_handle(&key("n"), &held));
    assert!(!save_as.should_handle(&Key::Named, &held));
    assert!(matches!(save_as.message(), Message::FileActionSelected(FileAction::SaveAs)));
    let save = &table[3];
    assert!(save.should_handle(&key("s"), &held));
    assert!(matches!(save.message(), Message::FileActionSelected(FileAction::Save)));
}
