//! The encoder: decides whether a key event must be turned into an escape
//! sequence (`should_build_sequence`) and, if so, builds the exact bytes
//! (`build_sequence`).
//!
//! The wire grammar is the long-standing xterm convention for the legacy
//! forms together with the progressive-enhancement parameterized form
//! `CSI <code>[;<modifiers>[:<event>]][;<codepoints>] u`. The spec functions
//! in this module state that grammar directly; every executable function is
//! proved to produce exactly the bytes the grammar assigns to its input.

use vstd::prelude::*;

use crate::keys::ElementState;
use crate::keys::Key;
use crate::keys::KeyEvent;
use crate::keys::KeyLocation;
use crate::keys::ModifiersState;
use crate::keys::NamedKey;
use crate::keys::TermMode;
use crate::keys::spec_named_text;

verus! {

/// The escape byte that introduces every control sequence.
pub const ESC: u8 = 27;

/// `[`, which follows the escape byte in a CSI sequence.
pub const CSI_OPEN: u8 = 91;

/// `O`, which follows the escape byte in an SS3 sequence.
pub const SS3_OPEN: u8 = 79;

/// `u`, the final byte of a parameterized (extended-form) sequence.
pub const FINAL_U: u8 = 117;

/// `~`, the final byte of the numbered navigation/function sequences.
pub const FINAL_TILDE: u8 = 126;

/// `;`, which separates parameter groups.
pub const SEMI: u8 = 59;

/// `:`, which separates values inside one parameter group.
pub const COLON: u8 = 58;

/// `1`, the placeholder first parameter of modified letter-final sequences.
pub const DIGIT_ONE: u8 = 49;

// ---------------------------------------------------------------------------
// Modifier and mode predicates
// ---------------------------------------------------------------------------

/// A modifier other than shift is held. Shift alone only selects a glyph and
/// never forces an escape sequence by itself.
pub open spec fn spec_non_shift_mods(mods: ModifiersState) -> bool {
    mods.control || mods.alt || mods.super_
}

/// The wire parameter for a modifier set: one plus 1 for shift, 2 for alt,
/// 4 for control and 8 for super.
pub open spec fn spec_mod_param(mods: ModifiersState) -> int {
    1 + (if mods.shift {
        1int
    } else {
        0int
    }) + (if mods.alt {
        2int
    } else {
        0int
    }) + (if mods.control {
        4int
    } else {
        0int
    }) + (if mods.super_ {
        8int
    } else {
        0int
    })
}

/// Some progressive enhancement that switches the terminal to the extended
/// encodings has been negotiated.
pub open spec fn spec_kitty_active(mode: TermMode) -> bool {
    mode.disambiguate_esc_codes || mode.report_event_types || mode.report_all_keys_as_esc
}

/// An explicit event type must be carried: event types are negotiated and
/// the event is not a plain press.
pub open spec fn spec_event_type_reported(mode: TermMode, ev: KeyEvent) -> bool {
    mode.report_event_types && (ev.state is Released || ev.repeat)
}

/// The digit that names the event kind: 1 for press, 2 for repeat, 3 for
/// release.
pub open spec fn spec_event_type_code(ev: KeyEvent) -> u8 {
    if ev.state is Released {
        51u8
    } else if ev.repeat {
        50u8
    } else {
        49u8
    }
}

/// The event's literal text is appended as trailing codepoint parameters:
/// the flag is negotiated, the event is a press (releases carry no
/// meaningful text) and there is text to report.
pub open spec fn spec_assoc_text_active(mode: TermMode, ev: KeyEvent) -> bool {
    mode.report_associated_text && !(ev.state is Released) && ev.text is Some
        && ev.text->Some_0@.len() > 0
}

// ---------------------------------------------------------------------------
// Decimal rendering
// ---------------------------------------------------------------------------

/// The shortest decimal digit string of `n`, as ASCII bytes.
pub open spec fn spec_dec(n: nat) -> Seq<u8>
    decreases n,
{
    if n < 10 {
        seq![(48 + n) as u8]
    } else {
        spec_dec(n / 10) + seq![(48 + n % 10) as u8]
    }
}

/// The codepoints of `s` in decimal, separated by colons.
pub open spec fn spec_codepoints(s: Seq<char>) -> Seq<u8>
    decreases s.len(),
{
    if s.len() == 0 {
        Seq::<u8>::empty()
    } else if s.len() == 1 {
        spec_dec(s[0] as nat)
    } else {
        spec_codepoints(s.drop_last()) + seq![COLON] + spec_dec(s.last() as nat)
    }
}

// ---------------------------------------------------------------------------
// Character folding
// ---------------------------------------------------------------------------

/// The unmodified base of a character key: an ASCII capital folds to its
/// lowercase letter, every other character stands for itself.
pub open spec fn spec_base_char(c: char) -> char {
    if 65 <= c as u32 && c as u32 <= 90 {
        (c as u32 + 32) as char
    } else {
        c
    }
}

// ---------------------------------------------------------------------------
// Code tables
// ---------------------------------------------------------------------------

/// The extended-scheme code of a numpad character key.
pub open spec fn spec_numpad_char_code(c: char) -> Option<u32> {
    if 48 <= c as u32 && c as u32 <= 57 {
        Some((57399 + (c as u32 - 48)) as u32)
    } else if c == '.' {
        Some(57409u32)
    } else if c == '/' {
        Some(57410u32)
    } else if c == '*' {
        Some(57411u32)
    } else if c == '-' {
        Some(57412u32)
    } else if c == '+' {
        Some(57413u32)
    } else if c == '=' {
        Some(57415u32)
    } else {
        None
    }
}

/// The extended-scheme code of a key sitting on the numpad.
pub open spec fn spec_numpad_code(k: Key) -> Option<u32> {
    match k {
        Key::Character(s) => if s@.len() == 1 {
            spec_numpad_char_code(s@[0])
        } else {
            None
        },
        Key::Named(n) => match n {
            NamedKey::Enter => Some(57414u32),
            NamedKey::ArrowLeft => Some(57417u32),
            NamedKey::ArrowRight => Some(57418u32),
            NamedKey::ArrowUp => Some(57419u32),
            NamedKey::ArrowDown => Some(57420u32),
            NamedKey::PageUp => Some(57421u32),
            NamedKey::PageDown => Some(57422u32),
            NamedKey::Home => Some(57423u32),
            NamedKey::End => Some(57424u32),
            NamedKey::Insert => Some(57425u32),
            NamedKey::Delete => Some(57426u32),
            _ => None,
        },
        Key::Unidentified(_) => None,
    }
}

/// A key that is itself a modifier. Such keys are reported only when every
/// key is reported as an escape sequence.
pub open spec fn spec_is_modifier_key(n: NamedKey) -> bool {
    match n {
        NamedKey::Shift => true,
        NamedKey::Control => true,
        NamedKey::Alt => true,
        NamedKey::Super => true,
        NamedKey::Hyper => true,
        NamedKey::Meta => true,
        _ => false,
    }
}

/// The extended-scheme code of a named key that has no legacy escape form:
/// the lock and media keys, F13 and beyond, and the modifier keys (which
/// distinguish their left and right instances by physical location).
pub open spec fn spec_kitty_named_code(n: NamedKey, loc: KeyLocation) -> Option<u32> {
    match n {
        NamedKey::CapsLock => Some(57358u32),
        NamedKey::ScrollLock => Some(57359u32),
        NamedKey::NumLock => Some(57360u32),
        NamedKey::PrintScreen => Some(57361u32),
        NamedKey::Pause => Some(57362u32),
        NamedKey::ContextMenu => Some(57363u32),
        NamedKey::F13 => Some(57376u32),
        NamedKey::F14 => Some(57377u32),
        NamedKey::F15 => Some(57378u32),
        NamedKey::F16 => Some(57379u32),
        NamedKey::F17 => Some(57380u32),
        NamedKey::F18 => Some(57381u32),
        NamedKey::F19 => Some(57382u32),
        NamedKey::F20 => Some(57383u32),
        NamedKey::F21 => Some(57384u32),
        NamedKey::F22 => Some(57385u32),
        NamedKey::F23 => Some(57386u32),
        NamedKey::F24 => Some(57387u32),
        NamedKey::F25 => Some(57388u32),
        NamedKey::F26 => Some(57389u32),
        NamedKey::F27 => Some(57390u32),
        NamedKey::F28 => Some(57391u32),
        NamedKey::F29 => Some(57392u32),
        NamedKey::F30 => Some(57393u32),
        NamedKey::F31 => Some(57394u32),
        NamedKey::F32 => Some(57395u32),
        NamedKey::F33 => Some(57396u32),
        NamedKey::F34 => Some(57397u32),
        NamedKey::F35 => Some(57398u32),
        NamedKey::MediaPlay => Some(57428u32),
        NamedKey::MediaPause => Some(57429u32),
        NamedKey::MediaPlayPause => Some(57430u32),
        NamedKey::MediaStop => Some(57432u32),
        NamedKey::MediaFastForward => Some(57433u32),
        NamedKey::MediaRewind => Some(57434u32),
        NamedKey::MediaTrackNext => Some(57435u32),
        NamedKey::MediaTrackPrevious => Some(57436u32),
        NamedKey::MediaRecord => Some(57437u32),
        NamedKey::AudioVolumeDown => Some(57438u32),
        NamedKey::AudioVolumeUp => Some(57439u32),
        NamedKey::AudioVolumeMute => Some(57440u32),
        NamedKey::Shift => Some(if loc is Right {
            57447u32
        } else {
            57441u32
        }),
        NamedKey::Control => Some(if loc is Right {
            57448u32
        } else {
            57442u32
        }),
        NamedKey::Alt => Some(if loc is Right {
            57449u32
        } else {
            57443u32
        }),
        NamedKey::Super => Some(if loc is Right {
            57450u32
        } else {
            57444u32
        }),
        NamedKey::Hyper => Some(if loc is Right {
            57451u32
        } else {
            57445u32
        }),
        NamedKey::Meta => Some(if loc is Right {
            57452u32
        } else {
            57446u32
        }),
        _ => None,
    }
}

/// The dedicated final letter of the cursor and F1-F4 keys: `A`-`D` for the
/// arrows, `H` and `F` for Home and End, `P`, `Q`, `R`, `S` for F1-F4.
pub open spec fn spec_letter_final(n: NamedKey) -> Option<u8> {
    match n {
        NamedKey::ArrowUp => Some(65u8),
        NamedKey::ArrowDown => Some(66u8),
        NamedKey::ArrowRight => Some(67u8),
        NamedKey::ArrowLeft => Some(68u8),
        NamedKey::Home => Some(72u8),
        NamedKey::End => Some(70u8),
        NamedKey::F1 => Some(80u8),
        NamedKey::F2 => Some(81u8),
        NamedKey::F3 => Some(82u8),
        NamedKey::F4 => Some(83u8),
        _ => None,
    }
}

/// F1-F4 take the SS3 introducer in their unparameterized legacy form.
pub open spec fn spec_is_ss3_fkey(n: NamedKey) -> bool {
    match n {
        NamedKey::F1 => true,
        NamedKey::F2 => true,
        NamedKey::F3 => true,
        NamedKey::F4 => true,
        _ => false,
    }
}

/// The number of the `~`-terminated navigation and function sequences.
pub open spec fn spec_tilde_code(n: NamedKey) -> Option<u32> {
    match n {
        NamedKey::Insert => Some(2u32),
        NamedKey::Delete => Some(3u32),
        NamedKey::PageUp => Some(5u32),
        NamedKey::PageDown => Some(6u32),
        NamedKey::F5 => Some(15u32),
        NamedKey::F6 => Some(17u32),
        NamedKey::F7 => Some(18u32),
        NamedKey::F8 => Some(19u32),
        NamedKey::F9 => Some(20u32),
        NamedKey::F10 => Some(21u32),
        NamedKey::F11 => Some(23u32),
        NamedKey::F12 => Some(24u32),
        _ => None,
    }
}

/// The code of the keys whose legacy form is a single control byte; the
/// code doubles as that byte: carriage return for Enter, horizontal tab for
/// Tab, the space byte, DEL for Backspace and the escape byte itself.
pub open spec fn spec_ctl_code(n: NamedKey) -> Option<u32> {
    match n {
        NamedKey::Enter => Some(13u32),
        NamedKey::Tab => Some(9u32),
        NamedKey::Space => Some(32u32),
        NamedKey::Backspace => Some(127u32),
        NamedKey::Escape => Some(27u32),
        _ => None,
    }
}

// ---------------------------------------------------------------------------
// Sequence grammar
// ---------------------------------------------------------------------------

/// The optional parameter tail of a sequence: `;modifiers` when the
/// modifier parameter is not 1 or another parameter needs it as a
/// placeholder, `:event` when the event type is reported, and
/// `;codepoints` when associated text is reported.
pub open spec fn spec_suffix(ev: KeyEvent, mods: ModifiersState, mode: TermMode) -> Seq<u8> {
    (if spec_mod_param(mods) != 1 || spec_event_type_reported(mode, ev) || spec_assoc_text_active(
        mode,
        ev,
    ) {
        seq![SEMI] + spec_dec(spec_mod_param(mods) as nat) + (if spec_event_type_reported(
            mode,
            ev,
        ) {
            seq![COLON, spec_event_type_code(ev)]
        } else {
            Seq::<u8>::empty()
        })
    } else {
        Seq::<u8>::empty()
    }) + (if spec_assoc_text_active(mode, ev) {
        seq![SEMI] + spec_codepoints(ev.text->Some_0@)
    } else {
        Seq::<u8>::empty()
    })
}

/// A parameterized sequence: `ESC [`, the base parameter group, the
/// optional tail, and the final byte `u`.
pub open spec fn spec_csi_u(base: Seq<u8>, ev: KeyEvent, mods: ModifiersState, mode: TermMode) -> Seq<
    u8,
> {
    seq![ESC, CSI_OPEN] + base + spec_suffix(ev, mods, mode) + seq![FINAL_U]
}

/// The first parameter group of a character key: the base character's
/// codepoint, followed, when alternate keys are reported and the glyph
/// differs from its base, by the shifted glyph's codepoint.
pub open spec fn spec_char_payload(c: char, mode: TermMode) -> Seq<u8> {
    if mode.report_alternate_keys && c != spec_base_char(c) {
        spec_dec(spec_base_char(c) as nat) + seq![COLON] + spec_dec(c as nat)
    } else {
        spec_dec(spec_base_char(c) as nat)
    }
}

/// A single-byte legacy key takes its parameterized form instead of the
/// single byte: every key is reported as an escape, a modifier beyond shift
/// is held, an event type must be carried, or the key is Escape itself
/// under disambiguation.
pub open spec fn spec_ctl_parameterized(
    n: NamedKey,
    ev: KeyEvent,
    mods: ModifiersState,
    mode: TermMode,
) -> bool {
    mode.report_all_keys_as_esc || spec_non_shift_mods(mods) || spec_event_type_reported(mode, ev)
        || (mode.disambiguate_esc_codes && n is Escape)
}

/// The bytes for a named key, by encoding family: extended-only keys, the
/// single-byte legacy keys, the letter-final keys, the `~`-numbered keys;
/// a named key outside every family has no representation.
pub open spec fn spec_named_seq(
    n: NamedKey,
    ev: KeyEvent,
    mods: ModifiersState,
    mode: TermMode,
) -> Seq<u8> {
    if spec_kitty_active(mode) && spec_kitty_named_code(n, ev.location) is Some && (
    !spec_is_modifier_key(n) || mode.report_all_keys_as_esc) {
        spec_csi_u(
            spec_dec(spec_kitty_named_code(n, ev.location)->Some_0 as nat),
            ev,
            mods,
            mode,
        )
    } else if spec_ctl_code(n) is Some {
        if spec_ctl_parameterized(n, ev, mods, mode) {
            spec_csi_u(spec_dec(spec_ctl_code(n)->Some_0 as nat), ev, mods, mode)
        } else {
            seq![spec_ctl_code(n)->Some_0 as u8]
        }
    } else if spec_letter_final(n) is Some {
        let letter = spec_letter_final(n)->Some_0;
        let tail = spec_suffix(ev, mods, mode);
        if tail.len() == 0 {
            if spec_is_ss3_fkey(n) || (mode.app_cursor && !spec_kitty_active(mode)) {
                seq![ESC, SS3_OPEN, letter]
            } else {
                seq![ESC, CSI_OPEN, letter]
            }
        } else {
            if n is F3 && spec_kitty_active(mode) {
                seq![ESC, CSI_OPEN] + spec_dec(13) + tail + seq![FINAL_TILDE]
            } else {
                seq![ESC, CSI_OPEN, DIGIT_ONE] + tail + seq![letter]
            }
        }
    } else if spec_tilde_code(n) is Some {
        seq![ESC, CSI_OPEN] + spec_dec(spec_tilde_code(n)->Some_0 as nat) + spec_suffix(
            ev,
            mods,
            mode,
        ) + seq![FINAL_TILDE]
    } else {
        Seq::<u8>::empty()
    }
}

/// The exact bytes the encoder owes for an event that requires a sequence.
/// An event with no representation yields the empty sequence.
pub open spec fn spec_build_sequence(ev: KeyEvent, mods: ModifiersState, mode: TermMode) -> Seq<
    u8,
> {
    if spec_kitty_active(mode) && ev.location is Numpad && spec_numpad_code(ev.logical_key) is Some {
        spec_csi_u(spec_dec(spec_numpad_code(ev.logical_key)->Some_0 as nat), ev, mods, mode)
    } else {
        match ev.logical_key {
            Key::Named(n) => spec_named_seq(n, ev, mods, mode),
            Key::Character(s) => if s@.len() == 1 && (spec_kitty_active(mode)
                || spec_non_shift_mods(mods)) {
                spec_csi_u(spec_char_payload(s@[0], mode), ev, mods, mode)
            } else {
                Seq::<u8>::empty()
            },
            Key::Unidentified(_) => Seq::<u8>::empty(),
        }
    }
}

/// The decision gate, in priority order: a release is reported exactly when
/// event types were negotiated; otherwise every key is reported when the
/// report-all flag is set; otherwise a named key without a literal text
/// form always takes a sequence, a single-byte legacy key or a character
/// takes one when a modifier beyond shift is held or disambiguation covers
/// it (Escape itself, or a numpad key), and a character with literal text
/// otherwise flows as plain text.
pub open spec fn spec_should_build(
    ev: KeyEvent,
    text: Seq<char>,
    mode: TermMode,
    mods: ModifiersState,
) -> bool {
    if ev.state is Released {
        mode.report_event_types
    } else if mode.report_all_keys_as_esc {
        true
    } else {
        match ev.logical_key {
            Key::Named(n) => if spec_named_text(n) is None {
                true
            } else {
                spec_non_shift_mods(mods) || (mode.disambiguate_esc_codes && (n is Escape
                    || ev.location is Numpad))
            },
            Key::Character(_) => spec_non_shift_mods(mods) || (mode.disambiguate_esc_codes
                && ev.location is Numpad) || text.len() == 0,
            Key::Unidentified(_) => text.len() == 0,
        }
    }
}

// ---------------------------------------------------------------------------
// Executable helpers
// ---------------------------------------------------------------------------

fn non_shift_mods(mods: &ModifiersState) -> (r: bool)
    ensures
        r == spec_non_shift_mods(*mods),
{
    mods.control || mods.alt || mods.super_
}

fn kitty_active(mode: &TermMode) -> (r: bool)
    ensures
        r == spec_kitty_active(*mode),
{
    mode.disambiguate_esc_codes || mode.report_event_types || mode.report_all_keys_as_esc
}

fn mod_param(mods: &ModifiersState) -> (r: u32)
    ensures
        r as int == spec_mod_param(*mods),
{
    let mut r: u32 = 1;
    if mods.shift {
        r = r + 1;
    }
    if mods.alt {
        r = r + 2;
    }
    if mods.control {
        r = r + 4;
    }
    if mods.super_ {
        r = r + 8;
    }
    r
}

fn event_type_reported(mode: &TermMode, ev: &KeyEvent) -> (r: bool)
    ensures
        r == spec_event_type_reported(*mode, *ev),
{
    mode.report_event_types && (!ev.state.is_pressed() || ev.repeat)
}

fn event_type_code(ev: &KeyEvent) -> (r: u8)
    ensures
        r == spec_event_type_code(*ev),
{
    if !ev.state.is_pressed() {
        51
    } else if ev.repeat {
        50
    } else {
        49
    }
}

fn assoc_text_active(mode: &TermMode, ev: &KeyEvent) -> (r: bool)
    ensures
        r == spec_assoc_text_active(*mode, *ev),
{
    if !mode.report_associated_text || !ev.state.is_pressed() {
        return false;
    }
    match ev.text {
        Some(t) => t.unicode_len() > 0,
        None => false,
    }
}

/// Appends the decimal digits of `n`.
fn push_dec(out: &mut Vec<u8>, n: u32)
    ensures
        final(out)@ == old(out)@ + spec_dec(n as nat),
    decreases n,
{
    if n >= 10 {
        push_dec(out, n / 10);
    }
    let d: u8 = (n % 10) as u8 + 48;
    out.push(d);
    assert(out@ =~= old(out)@ + spec_dec(n as nat));
}

/// Appends the codepoints of `s` in decimal, separated by colons.
fn push_codepoints(out: &mut Vec<u8>, s: &str)
    requires
        s@.len() > 0,
    ensures
        final(out)@ == old(out)@ + spec_codepoints(s@),
{
    let n = s.unicode_len();
    let mut i: usize = 0;
    while i < n
        invariant
            0 < n == s@.len(),
            i <= n,
            out@ == old(out)@ + spec_codepoints(s@.subrange(0, i as int)),
        decreases n - i,
    {
        let c = s.get_char(i);
        if i > 0 {
            out.push(COLON);
        }
        push_dec(out, c as u32);
        proof {
            let pre = s@.subrange(0, i as int);
            let cur = s@.subrange(0, i + 1 as int);
            assert(cur.drop_last() =~= pre);
            assert(cur.last() == s@[i as int]);
            if i == 0 {
                assert(spec_codepoints(cur) == spec_dec(s@[0] as nat));
            }
            assert(out@ =~= old(out)@ + spec_codepoints(cur));
        }
        i = i + 1;
    }
    proof {
        assert(s@.subrange(0, s@.len() as int) =~= s@);
    }
}

/// Folds an ASCII capital to its lowercase letter.
fn base_char(c: char) -> (r: char)
    ensures
        r == spec_base_char(c),
{
    let u = c as u32;
    if 65 <= u && u <= 90 {
        (((u + 32) as u8) as char)
    } else {
        c
    }
}

fn numpad_char_code(c: char) -> (r: Option<u32>)
    ensures
        r == spec_numpad_char_code(c),
{
    let u = c as u32;
    if 48 <= u && u <= 57 {
        Some(57399 + (u - 48))
    } else if c == '.' {
        Some(57409)
    } else if c == '/' {
        Some(57410)
    } else if c == '*' {
        Some(57411)
    } else if c == '-' {
        Some(57412)
    } else if c == '+' {
        Some(57413)
    } else if c == '=' {
        Some(57415)
    } else {
        None
    }
}

fn numpad_code(k: &Key) -> (r: Option<u32>)
    ensures
        r == spec_numpad_code(*k),
{
    match k {
        Key::Character(s) => {
            if s.unicode_len() == 1 {
                numpad_char_code(s.get_char(0))
            } else {
                None
            }
        },
        Key::Named(n) => match n {
            NamedKey::Enter => Some(57414),
            NamedKey::ArrowLeft => Some(57417),
            NamedKey::ArrowRight => Some(57418),
            NamedKey::ArrowUp => Some(57419),
            NamedKey::ArrowDown => Some(57420),
            NamedKey::PageUp => Some(57421),
            NamedKey::PageDown => Some(57422),
            NamedKey::Home => Some(57423),
            NamedKey::End => Some(57424),
            NamedKey::Insert => Some(57425),
            NamedKey::Delete => Some(57426),
            _ => None,
        },
        Key::Unidentified(_) => None,
    }
}

fn is_modifier_key(n: NamedKey) -> (r: bool)
    ensures
        r == spec_is_modifier_key(n),
{
    match n {
        NamedKey::Shift => true,
        NamedKey::Control => true,
        NamedKey::Alt => true,
        NamedKey::Super => true,
        NamedKey::Hyper => true,
        NamedKey::Meta => true,
        _ => false,
    }
}

fn kitty_named_code(n: NamedKey, loc: KeyLocation) -> (r: Option<u32>)
    ensures
        r == spec_kitty_named_code(n, loc),
{
    let right = loc == KeyLocation::Right;
    match n {
        NamedKey::CapsLock => Some(57358),
        NamedKey::ScrollLock => Some(57359),
        NamedKey::NumLock => Some(57360),
        NamedKey::PrintScreen => Some(57361),
        NamedKey::Pause => Some(57362),
        NamedKey::ContextMenu => Some(57363),
        NamedKey::F13 => Some(57376),
        NamedKey::F14 => Some(57377),
        NamedKey::F15 => Some(57378),
        NamedKey::F16 => Some(57379),
        NamedKey::F17 => Some(57380),
        NamedKey::F18 => Some(57381),
        NamedKey::F19 => Some(57382),
        NamedKey::F20 => Some(57383),
        NamedKey::F21 => Some(57384),
        NamedKey::F22 => Some(57385),
        NamedKey::F23 => Some(57386),
        NamedKey::F24 => Some(57387),
        NamedKey::F25 => Some(57388),
        NamedKey::F26 => Some(57389),
        NamedKey::F27 => Some(57390),
        NamedKey::F28 => Some(57391),
        NamedKey::F29 => Some(57392),
        NamedKey::F30 => Some(57393),
        NamedKey::F31 => Some(57394),
        NamedKey::F32 => Some(57395),
        NamedKey::F33 => Some(57396),
        NamedKey::F34 => Some(57397),
        NamedKey::F35 => Some(57398),
        NamedKey::MediaPlay => Some(57428),
        NamedKey::MediaPause => Some(57429),
        NamedKey::MediaPlayPause => Some(57430),
        NamedKey::MediaStop => Some(57432),
        NamedKey::MediaFastForward => Some(57433),
        NamedKey::MediaRewind => Some(57434),
        NamedKey::MediaTrackNext => Some(57435),
        NamedKey::MediaTrackPrevious => Some(57436),
        NamedKey::MediaRecord => Some(57437),
        NamedKey::AudioVolumeDown => Some(57438),
        NamedKey::AudioVolumeUp => Some(57439),
        NamedKey::AudioVolumeMute => Some(57440),
        NamedKey::Shift => Some(if right {
            57447
        } else {
            57441
        }),
        NamedKey::Control => Some(if right {
            57448
        } else {
            57442
        }),
        NamedKey::Alt => Some(if right {
            57449
        } else {
            57443
        }),
        NamedKey::Super => Some(if right {
            57450
        } else {
            57444
        }),
        NamedKey::Hyper => Some(if right {
            57451
        } else {
            57445
        }),
        NamedKey::Meta => Some(if right {
            57452
        } else {
            57446
        }),
        _ => None,
    }
}

fn letter_final(n: NamedKey) -> (r: Option<u8>)
    ensures
        r == spec_letter_final(n),
{
    match n {
        NamedKey::ArrowUp => Some(65),
        NamedKey::ArrowDown => Some(66),
        NamedKey::ArrowRight => Some(67),
        NamedKey::ArrowLeft => Some(68),
        NamedKey::Home => Some(72),
        NamedKey::End => Some(70),
        NamedKey::F1 => Some(80),
        NamedKey::F2 => Some(81),
        NamedKey::F3 => Some(82),
        NamedKey::F4 => Some(83),
        _ => None,
    }
}

fn is_ss3_fkey(n: NamedKey) -> (r: bool)
    ensures
        r == spec_is_ss3_fkey(n),
{
    match n {
        NamedKey::F1 => true,
        NamedKey::F2 => true,
        NamedKey::F3 => true,
        NamedKey::F4 => true,
        _ => false,
    }
}

fn tilde_code(n: NamedKey) -> (r: Option<u32>)
    ensures
        r == spec_tilde_code(n),
{
    match n {
        NamedKey::Insert => Some(2),
        NamedKey::Delete => Some(3),
        NamedKey::PageUp => Some(5),
        NamedKey::PageDown => Some(6),
        NamedKey::F5 => Some(15),
        NamedKey::F6 => Some(17),
        NamedKey::F7 => Some(18),
        NamedKey::F8 => Some(19),
        NamedKey::F9 => Some(20),
        NamedKey::F10 => Some(21),
        NamedKey::F11 => Some(23),
        NamedKey::F12 => Some(24),
        _ => None,
    }
}

fn ctl_code(n: NamedKey) -> (r: Option<u32>)
    ensures
        r == spec_ctl_code(n),
{
    match n {
        NamedKey::Enter => Some(13),
        NamedKey::Tab => Some(9),
        NamedKey::Space => Some(32),
        NamedKey::Backspace => Some(127),
        NamedKey::Escape => Some(27),
        _ => None,
    }
}

/// Appends the optional parameter tail of a sequence.
fn push_suffix(out: &mut Vec<u8>, ev: &KeyEvent, mods: &ModifiersState, mode: &TermMode)
    ensures
        final(out)@ == old(out)@ + spec_suffix(*ev, *mods, *mode),
{
    let mp = mod_param(mods);
    let evt = event_type_reported(mode, ev);
    let assoc = assoc_text_active(mode, ev);
    if mp != 1 || evt || assoc {
        out.push(SEMI);
        push_dec(out, mp);
        if evt {
            out.push(COLON);
            out.push(event_type_code(ev));
        }
    }
    if assoc {
        out.push(SEMI);
        match ev.text {
            Some(t) => push_codepoints(out, t),
            None => (),
        }
    }
    assert(out@ =~= old(out)@ + spec_suffix(*ev, *mods, *mode));
}

/// Appends a full parameterized sequence whose base parameter is the single
/// number `code`.
fn push_csi_u_code(out: &mut Vec<u8>, code: u32, ev: &KeyEvent, mods: &ModifiersState, mode: &TermMode)
    ensures
        final(out)@ == old(out)@ + spec_csi_u(spec_dec(code as nat), *ev, *mods, *mode),
{
    out.push(ESC);
    out.push(CSI_OPEN);
    push_dec(out, code);
    push_suffix(out, ev, mods, mode);
    out.push(FINAL_U);
    assert(out@ =~= old(out)@ + spec_csi_u(spec_dec(code as nat), *ev, *mods, *mode));
}

// ---------------------------------------------------------------------------
// The encoder proper
// ---------------------------------------------------------------------------

/// Appends the bytes for a named key.
#[verifier::rlimit(100)]
#[verifier::spinoff_prover]
fn build_named(out: &mut Vec<u8>, n: NamedKey, ev: &KeyEvent, mods: &ModifiersState, mode: &TermMode)
    ensures
        final(out)@ == old(out)@ + spec_named_seq(n, *ev, *mods, *mode),
{
    if kitty_active(mode) {
        match kitty_named_code(n, ev.location) {
            Some(code) => {
                if !is_modifier_key(n) || mode.report_all_keys_as_esc {
                    push_csi_u_code(out, code, ev, mods, mode);
                }
                return ;
            },
            None => (),
        }
    }
    match ctl_code(n) {
        Some(code) => {
            let parameterized = mode.report_all_keys_as_esc || non_shift_mods(mods)
                || event_type_reported(mode, ev) || (mode.disambiguate_esc_codes && n
                == NamedKey::Escape);
            if parameterized {
                push_csi_u_code(out, code, ev, mods, mode);
            } else {
                out.push(code as u8);
            }
            return ;
        },
        None => (),
    }
    match letter_final(n) {
        Some(letter) => {
            let mp = mod_param(mods);
            let evt = event_type_reported(mode, ev);
            let assoc = assoc_text_active(mode, ev);
            if mp == 1 && !evt && !assoc {
                proof {
                    assert(spec_suffix(*ev, *mods, *mode).len() == 0);
                }
                out.push(ESC);
                if is_ss3_fkey(n) || (mode.app_cursor && !kitty_active(mode)) {
                    out.push(SS3_OPEN);
                } else {
                    out.push(CSI_OPEN);
                }
                out.push(letter);
                assert(final(out)@ =~= old(out)@ + spec_named_seq(n, *ev, *mods, *mode));
            } else {
                proof {
                    assert(spec_suffix(*ev, *mods, *mode).len() > 0);
                }
                if n == NamedKey::F3 && kitty_active(mode) {
                    out.push(ESC);
                    out.push(CSI_OPEN);
                    push_dec(out, 13);
                    push_suffix(out, ev, mods, mode);
                    out.push(FINAL_TILDE);
                } else {
                    out.push(ESC);
                    out.push(CSI_OPEN);
                    out.push(DIGIT_ONE);
                    push_suffix(out, ev, mods, mode);
                    out.push(letter);
                }
                assert(final(out)@ =~= old(out)@ + spec_named_seq(n, *ev, *mods, *mode));
            }
            return ;
        },
        None => (),
    }
    match tilde_code(n) {
        Some(code) => {
            out.push(ESC);
            out.push(CSI_OPEN);
            push_dec(out, code);
            push_suffix(out, ev, mods, mode);
            out.push(FINAL_TILDE);
            assert(final(out)@ =~= old(out)@ + spec_named_seq(n, *ev, *mods, *mode));
            return ;
        },
        None => (),
    }
}

/// Builds the exact byte sequence owed for a key event that requires
/// encoding. The builder is total: a key with no representation under the
/// given modes yields the empty sequence, which the caller treats as
/// "nothing to write".
pub fn build_sequence(key: KeyEvent, mods: ModifiersState, mode: TermMode) -> (out: Vec<u8>)
    ensures
        out@ == spec_build_sequence(key, mods, mode),
{
    let mut out: Vec<u8> = Vec::new();
    if kitty_active(&mode) && key.location == KeyLocation::Numpad {
        match numpad_code(&key.logical_key) {
            Some(code) => {
                push_csi_u_code(&mut out, code, &key, &mods, &mode);
                return out;
            },
            None => (),
        }
    }
    match &key.logical_key {
        Key::Named(n) => {
            build_named(&mut out, *n, &key, &mods, &mode);
        },
        Key::Character(s) => {
            if s.unicode_len() == 1 && (kitty_active(&mode) || non_shift_mods(&mods)) {
                let c = s.get_char(0);
                out.push(ESC);
                out.push(CSI_OPEN);
                let b = base_char(c);
                if mode.report_alternate_keys && c != b {
                    push_dec(&mut out, b as u32);
                    out.push(COLON);
                    push_dec(&mut out, c as u32);
                } else {
                    push_dec(&mut out, b as u32);
                }
                push_suffix(&mut out, &key, &mods, &mode);
                out.push(FINAL_U);
                assert(out@ =~= spec_csi_u(spec_char_payload(s@[0], mode), key, mods, mode));
            }
        },
        Key::Unidentified(_) => (),
    }
    out
}

/// Decides whether the protocol layer must synthesize a control sequence
/// for this event. When the answer is false the caller forwards the event's
/// literal text unchanged (or nothing, when there is none).
pub fn should_build_sequence(
    key: &KeyEvent,
    text: &str,
    mode: TermMode,
    mods: ModifiersState,
) -> (r: bool)
    ensures
        r == spec_should_build(*key, text@, mode, mods),
{
    if !key.state.is_pressed() {
        return mode.report_event_types;
    }
    if mode.report_all_keys_as_esc {
        return true;
    }
    match &key.logical_key {
        Key::Named(n) => {
            if n.to_text().is_none() {
                true
            } else {
                non_shift_mods(&mods) || (mode.disambiguate_esc_codes && (*n == NamedKey::Escape
                    || key.location == KeyLocation::Numpad))
            }
        },
        Key::Character(_) => non_shift_mods(&mods) || (mode.disambiguate_esc_codes && key.location
            == KeyLocation::Numpad) || text.unicode_len() == 0,
        Key::Unidentified(_) => text.unicode_len() == 0,
    }
}

} // verus!
