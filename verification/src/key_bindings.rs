//! The keyboard shortcuts of the editor.

use crate::message::{FileAction, Message, ViewAction};
use vstd::prelude::*;
use vstd::string::StringExecFns;

verus! {

/// Which modifier keys are held down.
#[derive(Debug, Clone, Copy, PartialEq, Eq)]
pub struct Modifiers {
    /// The "shift" key.
    pub shift: bool,
    /// The "control" key.
    pub control: bool,
    /// The "alt" key.
    pub alt: bool,
    /// The "windows", "command" or "super" key.
    pub logo: bool,
}

impl Modifiers {
    /// No modifier.
    pub open spec fn none() -> Modifiers {
        Modifiers { shift: false, control: false, alt: false, logo: false }
    }

    /// The modifiers of both sets.
    pub open spec fn with(self, other: Modifiers) -> Modifiers {
        Modifiers {
            shift: self.shift || other.shift,
            control: self.control || other.control,
            alt: self.alt || other.alt,
            logo: self.logo || other.logo,
        }
    }

    /// "Control" alone.
    pub open spec fn only_control() -> Modifiers {
        Modifiers { control: true, ..Modifiers::none() }
    }

    /// "Shift" alone.
    pub open spec fn only_shift() -> Modifiers {
        Modifiers { shift: true, ..Modifiers::none() }
    }

    /// "Alt" alone.
    pub open spec fn only_alt() -> Modifiers {
        Modifiers { alt: true, ..Modifiers::none() }
    }

    /// Whether every modifier of `wanted` is among these.
    pub open spec fn includes(self, wanted: Modifiers) -> bool {
        &&& wanted.shift ==> self.shift
        &&& wanted.control ==> self.control
        &&& wanted.alt ==> self.alt
        &&& wanted.logo ==> self.logo
    }

    /// "Control" alone.
    pub fn ctrl() -> (modifiers: Modifiers)
        ensures
            modifiers == Modifiers::only_control(),
    {
        Modifiers { shift: false, control: true, alt: false, logo: false }
    }

    /// "Shift" alone.
    pub fn shift() -> (modifiers: Modifiers)
        ensures
            modifiers == Modifiers::only_shift(),
    {
        Modifiers { shift: true, control: false, alt: false, logo: false }
    }

    /// "Alt" alone.
    pub fn alt() -> (modifiers: Modifiers)
        ensures
            modifiers == Modifiers::only_alt(),
    {
        Modifiers { shift: false, control: false, alt: true, logo: false }
    }

    /// The modifiers of both sets.
    pub fn union(self, other: Modifiers) -> (both: Modifiers)
        ensures
            both == self.with(other),
    {
        Modifiers {
            shift: self.shift || other.shift,
            control: self.control || other.control,
            alt: self.alt || other.alt,
            logo: self.logo || other.logo,
        }
    }

    /// Whether every modifier of `wanted` is among these.
    pub fn contains(&self, wanted: Modifiers) -> (held: bool)
        ensures
            held == self.includes(wanted),
    {
        (!wanted.shift || self.shift) && (!wanted.control || self.control) && (!wanted.alt
            || self.alt) && (!wanted.logo || self.logo)
    }
}

/// A key as the keyboard reports it.
#[derive(Debug, Clone, PartialEq, Eq)]
pub enum Key {
    /// A key with a name of its own, such as "enter" or an arrow.
    Named,
    /// A key that types the given text, under the keyboard layout in use.
    Character(String),
    /// A key that could not be told.
    Unidentified,
}

/// What a shortcut stands for: an entry of one of the two menus.
#[derive(Debug, Clone, Copy, PartialEq, Eq)]
enum Bound {
    File(FileAction),
    View(ViewAction),
}

/// A keyboard shortcut: a key, the modifiers to hold with it, and the message
/// it sends.
pub struct Keybinding {
    key: &'static str,
    modifiers: Modifiers,
    bound: Bound,
}

/// What a [`Keybinding`] is.
pub struct Binding {
    /// The text that the key types.
    pub key: Seq<char>,
    /// The modifiers to hold with the key.
    pub modifiers: Modifiers,
    /// The message that the shortcut sends.
    pub message: Message,
}

impl Binding {
    /// Whether this shortcut answers to `key_pressed` with `modifiers` held:
    /// the key types this shortcut's text, and the shortcut's modifiers are
    /// all held. Further modifiers do no harm.
    pub open spec fn handles(self, key_pressed: Key, modifiers: Modifiers) -> bool {
        &&& modifiers.includes(self.modifiers)
        &&& key_pressed matches Key::Character(typed)
        &&& typed@ == self.key
    }
}

/// The shortcut for an entry of the "File" menu.
pub open spec fn file_binding(key: Seq<char>, modifiers: Modifiers, action: FileAction) -> Binding {
    Binding { key, modifiers, message: Message::FileActionSelected(action) }
}

/// The shortcut for an entry of the "View" menu.
pub open spec fn view_binding(key: Seq<char>, modifiers: Modifiers, action: ViewAction) -> Binding {
    Binding { key, modifiers, message: Message::ViewActionSelected(action) }
}

/// The editor's shortcuts, in the order in which they are tried. "Save as"
/// stands before "save": the keys of "save" are among those of "save as".
pub open spec fn bindings() -> Seq<Binding> {
    seq![
        file_binding("o"@, Modifiers::only_control(), FileAction::Open),
        file_binding("n"@, Modifiers::only_control(), FileAction::New),
        file_binding(
            "s"@,
            Modifiers::only_control().with(Modifiers::only_shift()),
            FileAction::SaveAs,
        ),
        file_binding("s"@, Modifiers::only_control(), FileAction::Save),
        file_binding("w"@, Modifiers::only_control(), FileAction::Close(None)),
        view_binding("p"@, Modifiers::only_control(), ViewAction::TogglePreview),
        view_binding("="@, Modifiers::only_control(), ViewAction::Increase),
        view_binding("-"@, Modifiers::only_control(), ViewAction::Decrease),
        view_binding("0"@, Modifiers::only_control(), ViewAction::Reset),
        view_binding("z"@, Modifiers::only_alt(), ViewAction::ToggleWordWrap),
    ]
}

/// Whether the shortcut at `index` of `table` is the first that answers to
/// `key_pressed` with `modifiers` held.
pub open spec fn is_first_handler(
    table: Seq<Binding>,
    key_pressed: Key,
    modifiers: Modifiers,
    index: int,
) -> bool {
    &&& 0 <= index < table.len()
    &&& table[index].handles(key_pressed, modifiers)
    &&& forall|j: int| 0 <= j < index ==> !(#[trigger] table[j]).handles(key_pressed, modifiers)
}

impl View for Keybinding {
    type V = Binding;

    closed spec fn view(&self) -> Binding {
        Binding {
            key: self.key@,
            modifiers: self.modifiers,
            message: match self.bound {
                Bound::File(action) => Message::FileActionSelected(action),
                Bound::View(action) => Message::ViewActionSelected(action),
            },
        }
    }
}

impl Keybinding {
    /// Whether this shortcut answers to `key_pressed` with `modifiers` held.
    pub fn should_handle(&self, key_pressed: &Key, modifiers: &Modifiers) -> (handles: bool)
        ensures
            handles == self@.handles(*key_pressed, *modifiers),
    {
        match key_pressed {
            Key::Character(typed) => modifiers.contains(self.modifiers) && *typed
                == String::from_str(self.key),
            _ => false,
        }
    }

    /// The message that this shortcut sends.
    pub fn message(&self) -> (message: Message)
        ensures
            message == self@.message,
    {
        match self.bound {
            Bound::File(action) => Message::FileActionSelected(action),
            Bound::View(action) => Message::ViewActionSelected(action),
        }
    }
}

/// The views of a sequence of shortcuts, one for one.
pub open spec fn binding_views(table: Seq<Keybinding>) -> Seq<Binding> {
    Seq::new(table.len(), |i: int| table[i]@)
}

/// Returns the editor's shortcuts, in the order in which they are tried.
pub fn all() -> (table: Vec<Keybinding>)
    ensures
        binding_views(table@) == bindings(),
{
    let ctrl = Modifiers::ctrl();
    let mut table: Vec<Keybinding> = Vec::new();
    table.push(Keybinding { key: "o", modifiers: ctrl, bound: Bound::File(FileAction::Open) });
    table.push(Keybinding { key: "n", modifiers: ctrl, bound: Bound::File(FileAction::New) });
    table.push(
        Keybinding {
            key: "s",
            modifiers: ctrl.union(Modifiers::shift()),
            bound: Bound::File(FileAction::SaveAs),
        },
    );
    table.push(Keybinding { key: "s", modifiers: ctrl, bound: Bound::File(FileAction::Save) });
    table.push(
        Keybinding { key: "w", modifiers: ctrl, bound: Bound::File(FileAction::Close(None)) },
    );
    table.push(
        Keybinding { key: "p", modifiers: ctrl, bound: Bound::View(ViewAction::TogglePreview) },
    );
    table.push(Keybinding { key: "=", modifiers: ctrl, bound: Bound::View(ViewAction::Increase) });
    table.push(Keybinding { key: "-", modifiers: ctrl, bound: Bound::View(ViewAction::Decrease) });
    table.push(Keybinding { key: "0", modifiers: ctrl, bound: Bound::View(ViewAction::Reset) });
    table.push(
        Keybinding {
            key: "z",
            modifiers: Modifiers::alt(),
            bound: Bound::View(ViewAction::ToggleWordWrap),
        },
    );
    assert(binding_views(table@) =~= bindings());
    table
}

/// Finds the message of the first shortcut that answers to `key_pressed` with
/// `modifiers` held; `None` where no shortcut does.
pub fn message_for(key_pressed: &Key, modifiers: &Modifiers) -> (message: Option<Message>)
    ensures
        match message {
            Some(message) => exists|index: int|
                is_first_handler(bindings(), *key_pressed, *modifiers, index) && message
                    == bindings()[index].message,
            None => forall|index: int|
                0 <= index < bindings().len() ==> !(#[trigger] bindings()[index]).handles(
                    *key_pressed,
                    *modifiers,
                ),
        },
{
    let table = all();
    let mut index: usize = 0;
    while index < table.len()
        invariant
            binding_views(table@) == bindings(),
            index <= table@.len(),
            forall|j: int|
                0 <= j < index ==> !(#[trigger] bindings()[j]).handles(*key_pressed, *modifiers),
        decreases table@.len() - index,
    {
        assert(bindings()[index as int] == table@[index as int]@);
        if table[index].should_handle(key_pressed, modifiers) {
            assert(is_first_handler(bindings(), *key_pressed, *modifiers, index as int));
            return Some(table[index].message());
        }
        index += 1;
    }
    assert(table@.len() == bindings().len());
    None
}

} // verus!
