//! Value types for key events, held modifiers and negotiated terminal modes.
//!
//! All types are plain immutable values: the encoder receives a fresh
//! snapshot of modifier and mode state with every call and owns no state of
//! its own.

use vstd::prelude::*;

verus! {

/// Whether a key was pressed or released. A repeat is a press whose event
/// carries the `repeat` flag.
#[derive(Clone, Copy, Debug, PartialEq, Eq, Structural)]
pub enum ElementState {
    Pressed,
    Released,
}

impl ElementState {
    pub fn is_pressed(&self) -> (r: bool)
        ensures
            r == (*self is Pressed),
    {
        match self {
            ElementState::Pressed => true,
            ElementState::Released => false,
        }
    }
}

/// Physical origin of a key. Only the numpad location changes how a key is
/// encoded, and only once an enhancement flag is negotiated.
#[derive(Clone, Copy, Debug, PartialEq, Eq, Structural)]
pub enum KeyLocation {
    Standard,
    Left,
    Right,
    Numpad,
}

/// The closed set of named (non-character) keys.
#[derive(Clone, Copy, Debug, PartialEq, Eq, Structural)]
pub enum NamedKey {
    Enter,
    Tab,
    Space,
    Backspace,
    Escape,
    ArrowLeft,
    ArrowRight,
    ArrowUp,
    ArrowDown,
    Home,
    End,
    PageUp,
    PageDown,
    Insert,
    Delete,
    F1,
    F2,
    F3,
    F4,
    F5,
    F6,
    F7,
    F8,
    F9,
    F10,
    F11,
    F12,
    F13,
    F14,
    F15,
    F16,
    F17,
    F18,
    F19,
    F20,
    F21,
    F22,
    F23,
    F24,
    F25,
    F26,
    F27,
    F28,
    F29,
    F30,
    F31,
    F32,
    F33,
    F34,
    F35,
    CapsLock,
    ScrollLock,
    NumLock,
    PrintScreen,
    Pause,
    ContextMenu,
    Shift,
    Control,
    Alt,
    Super,
    Hyper,
    Meta,
    MediaPlay,
    MediaPause,
    MediaPlayPause,
    MediaStop,
    MediaFastForward,
    MediaRewind,
    MediaTrackNext,
    MediaTrackPrevious,
    MediaRecord,
    AudioVolumeDown,
    AudioVolumeUp,
    AudioVolumeMute,
    Unidentified,
}

/// The literal text a named key produces on a terminal with no negotiated
/// enhancements; `None` for keys whose only representation is an escape
/// sequence.
pub open spec fn spec_named_text(k: NamedKey) -> Option<Seq<char>> {
    match k {
        NamedKey::Enter => Some(seq!['\r']),
        NamedKey::Tab => Some(seq!['\t']),
        NamedKey::Space => Some(seq![' ']),
        NamedKey::Backspace => Some(seq!['\u{7f}']),
        NamedKey::Escape => Some(seq!['\u{1b}']),
        _ => None,
    }
}

impl NamedKey {
    pub fn to_text(&self) -> (r: Option<&'static str>)
        ensures
            r is Some <==> spec_named_text(*self) is Some,
            r matches Some(s) ==> spec_named_text(*self) == Some(s@),
    {
        match self {
            NamedKey::Enter => {
                proof {
                    reveal_strlit("\r");
                    assert("\r"@ =~= seq!['\r']);
                }
                Some("\r")
            },
            NamedKey::Tab => {
                proof {
                    reveal_strlit("\t");
                    assert("\t"@ =~= seq!['\t']);
                }
                Some("\t")
            },
            NamedKey::Space => {
                proof {
                    reveal_strlit(" ");
                    assert(" "@ =~= seq![' ']);
                }
                Some(" ")
            },
            NamedKey::Backspace => {
                proof {
                    reveal_strlit("\u{7f}");
                    assert("\u{7f}"@ =~= seq!['\u{7f}']);
                }
                Some("\u{7f}")
            },
            NamedKey::Escape => {
                proof {
                    reveal_strlit("\u{1b}");
                    assert("\u{1b}"@ =~= seq!['\u{1b}']);
                }
                Some("\u{1b}")
            },
            _ => None,
        }
    }
}

/// The logical identity of a key: a character with its literal grapheme, a
/// named key, or an identity the input layer could not resolve.
#[derive(Debug)]
pub enum Key {
    Character(&'static str),
    Named(NamedKey),
    Unidentified(String),
}

impl Clone for Key {
    fn clone(&self) -> (r: Self)
        ensures
            r == *self,
    {
        match self {
            Key::Character(s) => Key::Character(s),
            Key::Named(n) => Key::Named(*n),
            Key::Unidentified(u) => Key::Unidentified(u.clone()),
        }
    }
}

impl Key {
    pub fn as_ref(&self) -> (r: &Self)
        ensures
            *r == *self,
    {
        self
    }
}

/// The set of held modifier keys. Flags are orthogonal; any subset is a
/// valid state and the empty set is the common one.
#[derive(Clone, Copy, Debug, PartialEq, Eq, Structural)]
pub struct ModifiersState {
    pub shift: bool,
    pub control: bool,
    pub alt: bool,
    pub super_: bool,
}

impl ModifiersState {
    pub fn empty() -> (r: Self)
        ensures
            !r.shift && !r.control && !r.alt && !r.super_,
    {
        ModifiersState { shift: false, control: false, alt: false, super_: false }
    }

    pub fn shift_key(&self) -> (r: bool)
        ensures
            r == self.shift,
    {
        self.shift
    }

    pub fn control_key(&self) -> (r: bool)
        ensures
            r == self.control,
    {
        self.control
    }

    pub fn alt_key(&self) -> (r: bool)
        ensures
            r == self.alt,
    {
        self.alt
    }

    pub fn super_key(&self) -> (r: bool)
        ensures
            r == self.super_,
    {
        self.super_
    }
}

/// The negotiated terminal behavior flags that bear on key encoding: the
/// application cursor/keypad modes, bracketed paste, and the five
/// progressive enhancement flags. Flags are additive and orthogonal.
#[derive(Clone, Copy, Debug, PartialEq, Eq, Structural)]
pub struct TermMode {
    pub app_cursor: bool,
    pub app_keypad: bool,
    pub bracketed_paste: bool,
    pub disambiguate_esc_codes: bool,
    pub report_event_types: bool,
    pub report_alternate_keys: bool,
    pub report_all_keys_as_esc: bool,
    pub report_associated_text: bool,
}

impl TermMode {
    pub fn empty() -> (r: Self)
        ensures
            r == (TermMode {
                app_cursor: false,
                app_keypad: false,
                bracketed_paste: false,
                disambiguate_esc_codes: false,
                report_event_types: false,
                report_alternate_keys: false,
                report_all_keys_as_esc: false,
                report_associated_text: false,
            }),
    {
        TermMode {
            app_cursor: false,
            app_keypad: false,
            bracketed_paste: false,
            disambiguate_esc_codes: false,
            report_event_types: false,
            report_alternate_keys: false,
            report_all_keys_as_esc: false,
            report_associated_text: false,
        }
    }
}

/// One input occurrence: the logical key, where it sits physically, whether
/// it was pressed or released, whether the press is an auto-repeat, and the
/// literal text the event produces as if all held modifiers were applied.
#[derive(Debug)]
pub struct KeyEvent {
    pub logical_key: Key,
    pub location: KeyLocation,
    pub state: ElementState,
    pub repeat: bool,
    pub text: Option<&'static str>,
}

impl Clone for KeyEvent {
    fn clone(&self) -> (r: Self)
        ensures
            r == *self,
    {
        KeyEvent {
            logical_key: self.logical_key.clone(),
            location: self.location,
            state: self.state,
            repeat: self.repeat,
            text: self.text,
        }
    }
}

impl KeyEvent {
    pub fn text_with_all_modifiers(&self) -> (r: Option<&'static str>)
        ensures
            r == self.text,
    {
        self.text
    }

    pub fn key_without_modifiers(&self) -> (r: Key)
        ensures
            r == self.logical_key,
    {
        self.logical_key.clone()
    }
}

} // verus!
