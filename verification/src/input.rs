//! What the editor reads of an input event, and the table that binds key
//! presses to what the editor does.

use vstd::prelude::*;

verus! {

/// The key of a key press, as far as the editor tells keys apart.
#[derive(Clone, Copy, Debug, PartialEq, Eq, Structural)]
pub enum Key {
    /// A character key.
    Char(char),
    /// The up arrow.
    Up,
    /// The down arrow.
    Down,
    /// The left arrow.
    Left,
    /// The right arrow.
    Right,
    /// The enter key.
    Enter,
    /// Any other key.
    Other,
}

/// The modifier keys, each held or not.
#[derive(Clone, Copy, Debug, PartialEq, Eq, Structural)]
pub struct ModifierKeys {
    pub shift: bool,
    pub control: bool,
    pub alt: bool,
    pub super_key: bool,
    pub hyper: bool,
    pub meta: bool,
}

/// The modifier keys held with a key, as far as the editor tells them apart.
#[derive(Clone, Copy, Debug, PartialEq, Eq, Structural)]
pub enum Modifiers {
    /// No modifier at all.
    Plain,
    /// The control key and no other.
    Control,
    /// Any other set of modifiers.
    Other,
}

/// What happened to a key.
#[derive(Clone, Copy, Debug, PartialEq, Eq, Structural)]
pub enum KeyKind {
    /// The key went down.
    Press,
    /// The key is held down and repeats.
    Repeat,
    /// The key came up.
    Release,
}

/// A key event as the terminal delivers it: the key, the modifier keys held
/// with it, and what happened to the key.
#[derive(Clone, Copy, Debug, PartialEq, Eq, Structural)]
pub struct KeyEvent {
    pub key: Key,
    pub held: ModifierKeys,
    pub kind: KeyKind,
}

/// A key press: the key and the modifiers held with it.
#[derive(Clone, Copy, Debug, PartialEq, Eq, Structural)]
pub struct KeyPress {
    pub key: Key,
    pub modifiers: Modifiers,
}

/// One event from the terminal.
#[derive(Clone, Copy, Debug, PartialEq, Eq, Structural)]
pub enum Input {
    /// Something happened to a key.
    Key(KeyEvent),
    /// Anything else: a resize, the mouse, a change of focus.
    Other,
}

/// What a key press asks the editor to do.
#[derive(Clone, Copy, Debug, PartialEq, Eq, Structural)]
pub enum Binding {
    /// Leave the editor.
    Quit,
    /// Move the cursor one line down.
    Down,
    /// Move the cursor one line up.
    Up,
    /// Move the cursor one column to the right.
    Right,
    /// Move the cursor one column to the left.
    Left,
    /// Write a character at the cursor and step to the right.
    Insert(char),
    /// Go to the start of the next line.
    NewLine,
}

/// A character is printable unless it is a control character, that is unless
/// its code is below U+0020 or from U+007F to U+009F.
pub open spec fn is_printable(c: char) -> bool {
    0x20 <= c as u32 && !(0x7f <= c as u32 <= 0x9f)
}

/// Whether `c` is printable.
pub fn printable(c: char) -> (yes: bool)
    ensures
        yes == is_printable(c),
{
    let code: u32 = c as u32;
    0x20 <= code && !(0x7f <= code && code <= 0x9f)
}

impl ModifierKeys {
    /// No modifier key is held.
    pub open spec fn spec_none() -> ModifierKeys {
        ModifierKeys {
            shift: false,
            control: false,
            alt: false,
            super_key: false,
            hyper: false,
            meta: false,
        }
    }

    /// No modifier key is held.
    #[verifier::when_used_as_spec(spec_none)]
    pub fn none() -> (held: ModifierKeys)
        ensures
            held == ModifierKeys::spec_none(),
    {
        ModifierKeys {
            shift: false,
            control: false,
            alt: false,
            super_key: false,
            hyper: false,
            meta: false,
        }
    }

    /// The control key is held, and no other.
    pub open spec fn spec_control() -> ModifierKeys {
        ModifierKeys { control: true, ..ModifierKeys::spec_none() }
    }

    /// The control key is held, and no other.
    #[verifier::when_used_as_spec(spec_control)]
    pub fn control() -> (held: ModifierKeys)
        ensures
            held == ModifierKeys::spec_control(),
    {
        ModifierKeys {
            shift: false,
            control: true,
            alt: false,
            super_key: false,
            hyper: false,
            meta: false,
        }
    }

    /// Which of the sets that the editor tells apart this one is: exactly
    /// none, exactly control, or another.
    pub open spec fn spec_modifiers(self) -> Modifiers {
        if self == ModifierKeys::spec_none() {
            Modifiers::Plain
        } else if self == ModifierKeys::spec_control() {
            Modifiers::Control
        } else {
            Modifiers::Other
        }
    }

    /// Tells this set of modifier keys apart.
    #[verifier::when_used_as_spec(spec_modifiers)]
    pub fn modifiers(self) -> (modifiers: Modifiers)
        ensures
            modifiers == self.spec_modifiers(),
    {
        if self.shift || self.alt || self.super_key || self.hyper || self.meta {
            Modifiers::Other
        } else if self.control {
            Modifiers::Control
        } else {
            Modifiers::Plain
        }
    }
}

impl KeyEvent {
    /// The key press that this event is: its key with its modifiers told
    /// apart, if the key went down, and none if it repeats or came up.
    pub open spec fn spec_press(self) -> Option<KeyPress> {
        match self.kind {
            KeyKind::Press => Some(
                KeyPress { key: self.key, modifiers: self.held.spec_modifiers() },
            ),
            _ => None,
        }
    }

    /// The key press that this event is, if it is one.
    #[verifier::when_used_as_spec(spec_press)]
    pub fn press(self) -> (press: Option<KeyPress>)
        ensures
            press == self.spec_press(),
    {
        match self.kind {
            KeyKind::Press => Some(KeyPress { key: self.key, modifiers: self.held.modifiers() }),
            _ => None,
        }
    }
}

impl KeyPress {
    /// The dispatch table. Control with `q` quits; without a modifier the
    /// arrows move, enter starts the next line and a printable character is
    /// written. Every other pair of key and modifiers is bound to nothing.
    pub open spec fn spec_binding(self) -> Option<Binding> {
        match (self.modifiers, self.key) {
            (Modifiers::Control, Key::Char(c)) => if c == 'q' {
                Some(Binding::Quit)
            } else {
                None
            },
            (Modifiers::Plain, Key::Down) => Some(Binding::Down),
            (Modifiers::Plain, Key::Up) => Some(Binding::Up),
            (Modifiers::Plain, Key::Right) => Some(Binding::Right),
            (Modifiers::Plain, Key::Left) => Some(Binding::Left),
            (Modifiers::Plain, Key::Enter) => Some(Binding::NewLine),
            (Modifiers::Plain, Key::Char(c)) => if is_printable(c) {
                Some(Binding::Insert(c))
            } else {
                None
            },
            _ => None,
        }
    }

    /// What this key press is bound to, if anything.
    #[verifier::when_used_as_spec(spec_binding)]
    pub fn binding(self) -> (bound: Option<Binding>)
        ensures
            bound == self.spec_binding(),
    {
        match self.modifiers {
            Modifiers::Control => match self.key {
                Key::Char(c) => if c == 'q' {
                    Some(Binding::Quit)
                } else {
                    None
                },
                _ => None,
            },
            Modifiers::Plain => match self.key {
                Key::Down => Some(Binding::Down),
                Key::Up => Some(Binding::Up),
                Key::Right => Some(Binding::Right),
                Key::Left => Some(Binding::Left),
                Key::Enter => Some(Binding::NewLine),
                Key::Char(c) => if printable(c) {
                    Some(Binding::Insert(c))
                } else {
                    None
                },
                Key::Other => None,
            },
            Modifiers::Other => None,
        }
    }
}

impl Input {
    /// What this event is bound to: the binding of a key press, and nothing
    /// for a key that repeats or comes up, or for any other event.
    pub open spec fn spec_binding(self) -> Option<Binding> {
        match self {
            Input::Key(event) => match event.spec_press() {
                Some(press) => press.spec_binding(),
                None => None,
            },
            Input::Other => None,
        }
    }

    /// What this event is bound to, if anything.
    #[verifier::when_used_as_spec(spec_binding)]
    pub fn binding(self) -> (bound: Option<Binding>)
        ensures
            bound == self.spec_binding(),
    {
        match self {
            Input::Key(event) => match event.press() {
                Some(press) => press.binding(),
                None => None,
            },
            Input::Other => None,
        }
    }
}

/// Only key presses are looked at: a key that repeats or comes up is bound to
/// nothing, whatever the key and the modifiers.
pub proof fn lemma_only_presses_are_bound(event: KeyEvent)
    requires
        !(event.kind is Press),
    ensures
        Input::Key(event).binding() is None,
{
}

/// Only the two exact sets of modifiers are looked at: a key pressed with
/// any modifier key but control alone is bound to nothing.
pub proof fn lemma_other_modifiers_are_unbound(event: KeyEvent)
    requires
        event.held != ModifierKeys::none(),
        event.held != ModifierKeys::control(),
    ensures
        Input::Key(event).binding() is None,
{
}

} // verus!
