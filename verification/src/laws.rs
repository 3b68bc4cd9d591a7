//! The encoder's governing laws, each proved from the public contracts'
//! specification functions alone.

use vstd::prelude::*;

use crate::encoder::COLON;
use crate::encoder::CSI_OPEN;
use crate::encoder::DIGIT_ONE;
use crate::encoder::ESC;
use crate::encoder::FINAL_U;
use crate::encoder::SEMI;
use crate::encoder::SS3_OPEN;
use crate::encoder::spec_base_char;
use crate::encoder::spec_build_sequence;
use crate::encoder::spec_char_payload;
use crate::encoder::spec_codepoints;
use crate::encoder::spec_dec;
use crate::encoder::spec_mod_param;
use crate::encoder::spec_non_shift_mods;
use crate::encoder::spec_should_build;
use crate::encoder::spec_suffix;
use crate::keys::Key;
use crate::keys::KeyEvent;
use crate::keys::KeyLocation;
use crate::keys::ModifiersState;
use crate::keys::NamedKey;
use crate::keys::TermMode;
use crate::keys::spec_named_text;

verus! {

/// Pressing a character key with no held modifiers and no negotiated
/// enhancement flags never takes an escape sequence: the caller forwards
/// the event's literal text unchanged.
pub proof fn lemma_plain_character_is_literal(
    ev: KeyEvent,
    text: Seq<char>,
    mode: TermMode,
    mods: ModifiersState,
)
    requires
        ev.logical_key is Character,
        ev.state is Pressed,
        !mods.shift && !mods.control && !mods.alt && !mods.super_,
        !mode.disambiguate_esc_codes,
        !mode.report_event_types,
        !mode.report_alternate_keys,
        !mode.report_all_keys_as_esc,
        !mode.report_associated_text,
        text.len() > 0,
    ensures
        !spec_should_build(ev, text, mode, mods),
{
}

/// A named key with no literal text form — the arrows, the function keys,
/// the navigation and editing keys — takes an escape sequence on every
/// press, whatever modifiers are held and whatever modes are negotiated.
pub proof fn lemma_named_key_always_encodes(
    ev: KeyEvent,
    text: Seq<char>,
    mode: TermMode,
    mods: ModifiersState,
)
    requires
        ev.state is Pressed,
        ev.logical_key matches Key::Named(n) && spec_named_text(n) is None,
    ensures
        spec_should_build(ev, text, mode, mods),
{
}

/// The builder is a pure function of its inputs: two calls with identical
/// inputs yield byte-identical output, because each call's contract pins
/// its result to the same specification value.
pub proof fn lemma_builder_deterministic(
    a: Seq<u8>,
    b: Seq<u8>,
    ev: KeyEvent,
    mods: ModifiersState,
    mode: TermMode,
)
    requires
        a == spec_build_sequence(ev, mods, mode),
        b == spec_build_sequence(ev, mods, mode),
    ensures
        a == b,
{
}

/// With every enhancement flag cleared and no modifier beyond shift held,
/// the stable legacy bytes stand: Enter is the single carriage-return
/// byte, Tab the single horizontal-tab byte, Backspace the single DEL
/// byte; and with no modifiers at all, Arrow-Up is the legacy cursor-up
/// sequence (CSI form, or SS3 under application cursor mode) and F1 the
/// SS3-prefixed form.
pub proof fn lemma_legacy_defaults(ev: KeyEvent, mods: ModifiersState, mode: TermMode)
    requires
        !mode.disambiguate_esc_codes,
        !mode.report_event_types,
        !mode.report_alternate_keys,
        !mode.report_all_keys_as_esc,
        !mode.report_associated_text,
        !mods.control && !mods.alt && !mods.super_,
    ensures
        ev.logical_key matches Key::Named(n) && n is Enter ==> spec_build_sequence(ev, mods, mode)
            == seq![13u8],
        ev.logical_key matches Key::Named(n) && n is Tab ==> spec_build_sequence(ev, mods, mode)
            == seq![9u8],
        ev.logical_key matches Key::Named(n) && n is Backspace ==> spec_build_sequence(
            ev,
            mods,
            mode,
        ) == seq![127u8],
        ev.logical_key matches Key::Named(n) && n is ArrowUp && !mods.shift && !mode.app_cursor
            ==> spec_build_sequence(ev, mods, mode) == seq![ESC, CSI_OPEN, 65u8],
        ev.logical_key matches Key::Named(n) && n is ArrowUp && !mods.shift && mode.app_cursor
            ==> spec_build_sequence(ev, mods, mode) == seq![ESC, SS3_OPEN, 65u8],
        ev.logical_key matches Key::Named(n) && n is F1 && !mods.shift ==> spec_build_sequence(
            ev,
            mods,
            mode,
        ) == seq![ESC, SS3_OPEN, 80u8],
{
    assert(!(spec_mod_param(mods) != 1) ==> spec_suffix(ev, mods, mode).len() == 0);
    if ev.logical_key matches Key::Named(n) && n is ArrowUp && !mods.shift && !mode.app_cursor {
        assert(spec_build_sequence(ev, mods, mode) =~= seq![ESC, CSI_OPEN, 65u8]);
    }
    if ev.logical_key matches Key::Named(n) && n is ArrowUp && !mods.shift && mode.app_cursor {
        assert(spec_build_sequence(ev, mods, mode) =~= seq![ESC, SS3_OPEN, 65u8]);
    }
    if ev.logical_key matches Key::Named(n) && n is F1 && !mods.shift {
        assert(spec_build_sequence(ev, mods, mode) =~= seq![ESC, SS3_OPEN, 80u8]);
    }
}

/// Shift and control held together encode as the wire parameter
/// 1 + 1 + 4 = 6, and a legacy-mode Shift+Control+Right-Arrow therefore
/// takes the parameterized cursor form that carries it.
pub proof fn lemma_shift_control_modifier_parameter(
    ev: KeyEvent,
    mods: ModifiersState,
    mode: TermMode,
)
    requires
        mods.shift && mods.control && !mods.alt && !mods.super_,
        !mode.disambiguate_esc_codes,
        !mode.report_event_types,
        !mode.report_alternate_keys,
        !mode.report_all_keys_as_esc,
        !mode.report_associated_text,
        ev.logical_key matches Key::Named(n) && n is ArrowRight,
    ensures
        spec_mod_param(mods) == 6,
        spec_build_sequence(ev, mods, mode) == seq![ESC, CSI_OPEN, DIGIT_ONE, SEMI, 54u8, 67u8],
{
    assert(spec_dec(6) =~= seq![54u8]);
    assert(spec_suffix(ev, mods, mode) =~= seq![SEMI, 54u8]);
    assert(spec_build_sequence(ev, mods, mode) =~= seq![ESC, CSI_OPEN, DIGIT_ONE, SEMI, 54u8, 67u8]);
}

/// With event types negotiated, releasing a plain unmodified character key
/// still produces a parameterized sequence, and that sequence carries
/// event type 3; with the flag clear the same release produces no output
/// at all.
pub proof fn lemma_release_reporting(
    ev: KeyEvent,
    text: Seq<char>,
    mode: TermMode,
    mods: ModifiersState,
    c: char,
)
    requires
        ev.state is Released,
        !ev.repeat,
        ev.logical_key matches Key::Character(s) && s@.len() == 1 && s@[0] == c,
        ev.location is Standard,
        !mods.shift && !mods.control && !mods.alt && !mods.super_,
        !mode.report_alternate_keys,
    ensures
        spec_should_build(ev, text, mode, mods) == mode.report_event_types,
        mode.report_event_types ==> spec_build_sequence(ev, mods, mode) == seq![ESC, CSI_OPEN]
            + spec_dec(spec_base_char(c) as nat) + seq![SEMI, 49u8, COLON, 51u8, FINAL_U],
{
    if mode.report_event_types {
        assert(spec_dec(1) =~= seq![49u8]);
        assert(spec_suffix(ev, mods, mode) =~= seq![SEMI, 49u8, COLON, 51u8]);
        assert(spec_build_sequence(ev, mods, mode) =~= seq![ESC, CSI_OPEN] + spec_dec(
            spec_base_char(c) as nat,
        ) + seq![SEMI, 49u8, COLON, 51u8, FINAL_U]);
    }
}

/// With associated text negotiated, a modified character key's sequence
/// carries the event's literal codepoints as a trailing parameter group;
/// with the flag clear the same event's sequence ends right after the
/// modifier parameter, even though literal text was supplied.
pub proof fn lemma_associated_text(
    ev: KeyEvent,
    mods: ModifiersState,
    mode: TermMode,
    c: char,
    t: Seq<char>,
)
    requires
        ev.state is Pressed,
        ev.logical_key matches Key::Character(s) && s@.len() == 1 && s@[0] == c,
        ev.location is Standard,
        ev.text matches Some(tx) && tx@ == t,
        t.len() > 0,
        spec_non_shift_mods(mods),
        !mode.report_event_types,
    ensures
        mode.report_associated_text ==> spec_build_sequence(ev, mods, mode) == seq![ESC, CSI_OPEN]
            + spec_char_payload(c, mode) + seq![SEMI] + spec_dec(spec_mod_param(mods) as nat)
            + seq![SEMI] + spec_codepoints(t) + seq![FINAL_U],
        !mode.report_associated_text ==> spec_build_sequence(ev, mods, mode) == seq![ESC, CSI_OPEN]
            + spec_char_payload(c, mode) + seq![SEMI] + spec_dec(spec_mod_param(mods) as nat)
            + seq![FINAL_U],
{
    assert(spec_mod_param(mods) != 1);
    if mode.report_associated_text {
        assert(spec_suffix(ev, mods, mode) =~= seq![SEMI] + spec_dec(spec_mod_param(mods) as nat)
            + seq![SEMI] + spec_codepoints(t));
        assert(spec_build_sequence(ev, mods, mode) =~= seq![ESC, CSI_OPEN] + spec_char_payload(
            c,
            mode,
        ) + seq![SEMI] + spec_dec(spec_mod_param(mods) as nat) + seq![SEMI] + spec_codepoints(t)
            + seq![FINAL_U]);
    } else {
        assert(spec_suffix(ev, mods, mode) =~= seq![SEMI] + spec_dec(spec_mod_param(mods) as nat));
        assert(spec_build_sequence(ev, mods, mode) =~= seq![ESC, CSI_OPEN] + spec_char_payload(
            c,
            mode,
        ) + seq![SEMI] + spec_dec(spec_mod_param(mods) as nat) + seq![FINAL_U]);
    }
}

} // verus!
