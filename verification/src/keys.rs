//! Keys as the terminal reports them, and the form in which they are compared.

use vstd::prelude::*;

verus! {

/// A media key.
#[derive(Clone, Copy, Debug, PartialEq, Eq, Structural)]
pub enum MediaKeyCode {
    Play,
    Pause,
    PlayPause,
    Reverse,
    Stop,
    FastForward,
    Rewind,
    TrackNext,
    TrackPrevious,
    Record,
    LowerVolume,
    RaiseVolume,
    MuteVolume,
}

/// A modifier key that was pressed by itself.
#[derive(Clone, Copy, Debug, PartialEq, Eq, Structural)]
pub enum ModifierKeyCode {
    LeftShift,
    LeftControl,
    LeftAlt,
    LeftSuper,
    LeftHyper,
    LeftMeta,
    RightShift,
    RightControl,
    RightAlt,
    RightSuper,
    RightHyper,
    RightMeta,
    IsoLevel3Shift,
    IsoLevel5Shift,
}

/// The key of a key event.
#[derive(Clone, Copy, Debug, PartialEq, Eq, Structural)]
pub enum KeyCode {
    Backspace,
    Enter,
    Left,
    Right,
    Up,
    Down,
    Home,
    End,
    PageUp,
    PageDown,
    Tab,
    BackTab,
    Delete,
    Insert,
    F(u8),
    Char(char),
    Null,
    Esc,
    CapsLock,
    ScrollLock,
    NumLock,
    PrintScreen,
    Pause,
    Menu,
    KeypadBegin,
    Media(MediaKeyCode),
    Modifier(ModifierKeyCode),
}

/// Whether a key went down, is held, or came up.
#[derive(Clone, Copy, Debug, PartialEq, Eq, Structural)]
pub enum KeyEventKind {
    Press,
    Repeat,
    Release,
}

/// No modifier.
pub const NONE: u8 = 0;

/// The shift modifier.
pub const SHIFT: u8 = 1;

/// The control modifier.
pub const CONTROL: u8 = 2;

/// The alt modifier.
pub const ALT: u8 = 4;

/// A key event: the key, the set of modifiers held with it (one bit each),
/// the kind of event and the keyboard state that came with it.
#[derive(Clone, Copy, Debug, PartialEq, Eq, Structural)]
pub struct KeyBind {
    pub key: KeyCode,
    pub modifiers: u8,
    pub kind: KeyEventKind,
    pub state: u8,
}

/// Whether `c` is one of the letters `A` to `Z`.
pub open spec fn is_upper(c: char) -> bool {
    'A' <= c <= 'Z'
}

/// Whether `c` is one of the letters `a` to `z`.
pub open spec fn is_lower(c: char) -> bool {
    'a' <= c <= 'z'
}

/// The capital of a letter `a` to `z`; any other character itself.
pub open spec fn upper(c: char) -> char {
    if is_lower(c) {
        ((c as u8) - 32) as char
    } else {
        c
    }
}

/// The capital of a letter `a` to `z`; any other character itself.
pub fn to_upper(c: char) -> (capital: char)
    ensures
        capital == upper(c),
{
    if 'a' <= c && c <= 'z' {
        ((c as u8) - 32) as char
    } else {
        c
    }
}

impl KeyBind {
    /// The press of `key` with the given modifiers.
    pub fn new(key: KeyCode, modifiers: u8) -> (bind: KeyBind)
        ensures
            bind == KeyBind::press(key, modifiers),
    {
        KeyBind { key, modifiers, kind: KeyEventKind::Press, state: 0 }
    }

    /// The press of `key` with the given modifiers.
    pub open spec fn press(key: KeyCode, modifiers: u8) -> KeyBind {
        KeyBind { key, modifiers, kind: KeyEventKind::Press, state: 0 }
    }

    /// The form in which key events are compared: a capital letter always
    /// carries the shift modifier, and a letter with the shift modifier is
    /// always a capital.
    pub open spec fn normalized(self) -> KeyBind {
        match self.key {
            KeyCode::Char(c) => if is_upper(c) {
                KeyBind { modifiers: self.modifiers | SHIFT, ..self }
            } else if self.modifiers & SHIFT != 0 {
                KeyBind { key: KeyCode::Char(upper(c)), ..self }
            } else {
                self
            },
            _ => self,
        }
    }

    /// The form in which key events are compared.
    pub fn normalize_case(self) -> (bind: KeyBind)
        ensures
            bind == self.normalized(),
    {
        match self.key {
            KeyCode::Char(c) => if 'A' <= c && c <= 'Z' {
                KeyBind { modifiers: self.modifiers | SHIFT, ..self }
            } else if self.modifiers & SHIFT != 0 {
                KeyBind { key: KeyCode::Char(to_upper(c)), ..self }
            } else {
                self
            },
            _ => self,
        }
    }

    /// Whether two key events count as the same key.
    pub open spec fn same_key(self, other: KeyBind) -> bool {
        self.normalized() == other.normalized()
    }

    /// Whether two key events count as the same key.
    pub fn is_same_key(&self, other: &KeyBind) -> (same: bool)
        ensures
            same == self.same_key(*other),
    {
        self.normalize_case() == other.normalize_case()
    }
}

/// Normalizing a key event twice gives what normalizing it once gives.
pub proof fn lemma_normalized_twice(bind: KeyBind)
    ensures
        bind.normalized().normalized() == bind.normalized(),
{
    let m = bind.modifiers;
    assert((m | 1) | 1 == m | 1) by (bit_vector);
    assert(m & 1 != 0 ==> m | 1 == m) by (bit_vector);
    if let KeyCode::Char(c) = bind.key {
        lemma_upper(c);
    }
}

/// The capital of a small letter is a capital letter, and `upper` changes no
/// other character.
pub proof fn lemma_upper(c: char)
    ensures
        is_lower(c) ==> is_upper(upper(c)),
        !is_lower(c) ==> upper(c) == c,
        upper(upper(c)) == upper(c),
{
    if is_lower(c) {
        let code = c as u8;
        assert(97 <= code <= 122);
        assert(upper(c) as u8 == code - 32);
    }
}

} // verus!
