use key_encoder::encoder::build_sequence;
use key_encoder::encoder::should_build_sequence;
use key_encoder::keys::ElementState;
use key_encoder::keys::Key;
use key_encoder::keys::KeyEvent;
use key_encoder::keys::KeyLocation;
use key_encoder::keys::ModifiersState;
use key_encoder::keys::NamedKey;
use key_encoder::keys::TermMode;

fn press(key: Key, text: Option<&'static str>) -> KeyEvent {
    KeyEvent {
        logical_key: key,
        location: KeyLocation::Standard,
        state: ElementState::Pressed,
        repeat: false,
        text,
    }
}

fn release(key: Key, text: Option<&'static str>) -> KeyEvent {
    KeyEvent {
        logical_key: key,
        location: KeyLocation::Standard,
        state: ElementState::Released,
        repeat: false,
        text,
    }
}

fn mods(shift: bool, control: bool, alt: bool, super_: bool) -> ModifiersState {
    ModifiersState { shift, control, alt, super_ }
}

fn kitty(flags: u32) -> TermMode {
    let mut mode = TermMode::empty();
    mode.disambiguate_esc_codes = flags & 1 != 0;
    mode.report_event_types = flags & 2 != 0;
    mode.report_alternate_keys = flags & 4 != 0;
    mode.report_all_keys_as_esc = flags & 8 != 0;
    mode.report_associated_text = flags & 16 != 0;
    mode
}

#[test]
fn legacy_enter_is_carriage_return() {
    let ev = press(Key::Named(NamedKey::Enter), Some("\r"));
    assert!(!should_build_sequence(&ev, "\r", TermMode::empty(), ModifiersState::empty()));
    assert_eq!(ev.text_with_all_modifiers(), Some("\r"));
    assert_eq!(build_sequence(ev, ModifiersState::empty(), TermMode::empty()), b"\r".to_vec());
}

#[test]
fn legacy_tab_is_horizontal_tab() {
    let ev = press(Key::Named(NamedKey::Tab), Some("\t"));
    assert!(!should_build_sequence(&ev, "\t", TermMode::empty(), ModifiersState::empty()));
    assert_eq!(build_sequence(ev, ModifiersState::empty(), TermMode::empty()), b"\t".to_vec());
}

#[test]
fn legacy_backspace_is_del() {
    let ev = press(Key::Named(NamedKey::Backspace), Some("\x7f"));
    assert!(!should_build_sequence(&ev, "\x7f", TermMode::empty(), ModifiersState::empty()));
    assert_eq!(build_sequence(ev, ModifiersState::empty(), TermMode::empty()), b"\x7f".to_vec());
}

#[test]
fn legacy_arrow_up_is_csi_a() {
    let ev = press(Key::Named(NamedKey::ArrowUp), None);
    assert!(should_build_sequence(&ev, "", TermMode::empty(), ModifiersState::empty()));
    assert_eq!(build_sequence(ev, ModifiersState::empty(), TermMode::empty()), b"\x1b[A".to_vec());
}

#[test]
fn app_cursor_arrow_up_is_ss3_a() {
    let ev = press(Key::Named(NamedKey::ArrowUp), None);
    let mut mode = TermMode::empty();
    mode.app_cursor = true;
    assert_eq!(build_sequence(ev, ModifiersState::empty(), mode), b"\x1bOA".to_vec());
}

#[test]
fn legacy_f1_is_ss3_p() {
    let ev = press(Key::Named(NamedKey::F1), None);
    assert!(should_build_sequence(&ev, "", TermMode::empty(), ModifiersState::empty()));
    assert_eq!(build_sequence(ev, ModifiersState::empty(), TermMode::empty()), b"\x1bOP".to_vec());
}

#[test]
fn legacy_home_end_delete() {
    let home = press(Key::Named(NamedKey::Home), None);
    assert_eq!(build_sequence(home, ModifiersState::empty(), TermMode::empty()), b"\x1b[H".to_vec());
    let end = press(Key::Named(NamedKey::End), None);
    assert_eq!(build_sequence(end, ModifiersState::empty(), TermMode::empty()), b"\x1b[F".to_vec());
    let del = press(Key::Named(NamedKey::Delete), None);
    assert_eq!(build_sequence(del, ModifiersState::empty(), TermMode::empty()), b"\x1b[3~".to_vec());
}

#[test]
fn shift_control_right_arrow_parameter_is_six() {
    let ev = press(Key::Named(NamedKey::ArrowRight), None);
    let m = mods(true, true, false, false);
    assert!(should_build_sequence(&ev, "", TermMode::empty(), m));
    assert_eq!(build_sequence(ev, m, TermMode::empty()), b"\x1b[1;6C".to_vec());
}

#[test]
fn all_four_modifiers_encode_as_sixteen() {
    let ev = press(Key::Named(NamedKey::ArrowUp), None);
    let m = mods(true, true, true, true);
    assert_eq!(build_sequence(ev, m, TermMode::empty()), b"\x1b[1;16A".to_vec());
}

#[test]
fn control_insert_takes_tilde_form() {
    let ev = press(Key::Named(NamedKey::Insert), None);
    let m = mods(false, true, false, false);
    assert_eq!(build_sequence(ev, m, TermMode::empty()), b"\x1b[2;5~".to_vec());
}

#[test]
fn control_f5_takes_tilde_form() {
    let ev = press(Key::Named(NamedKey::F5), None);
    let m = mods(false, true, false, false);
    assert_eq!(build_sequence(ev, m, TermMode::empty()), b"\x1b[15;5~".to_vec());
}

#[test]
fn modified_f3_legacy_and_extended_forms_differ() {
    let m = mods(false, true, false, false);
    let legacy = press(Key::Named(NamedKey::F3), None);
    assert_eq!(build_sequence(legacy, m, TermMode::empty()), b"\x1b[1;5R".to_vec());
    let extended = press(Key::Named(NamedKey::F3), None);
    assert_eq!(build_sequence(extended, m, kitty(1)), b"\x1b[13;5~".to_vec());
}

#[test]
fn control_enter_takes_parameterized_form() {
    let ev = press(Key::Named(NamedKey::Enter), Some("\r"));
    let m = mods(false, true, false, false);
    assert!(should_build_sequence(&ev, "\r", TermMode::empty(), m));
    assert_eq!(build_sequence(ev, m, TermMode::empty()), b"\x1b[13;5u".to_vec());
}

#[test]
fn control_space_takes_parameterized_form() {
    let ev = press(Key::Named(NamedKey::Space), Some(" "));
    let m = mods(false, true, false, false);
    assert!(should_build_sequence(&ev, " ", TermMode::empty(), m));
    assert_eq!(build_sequence(ev, m, TermMode::empty()), b"\x1b[32;5u".to_vec());
}

#[test]
fn escape_under_disambiguation_is_csi_27() {
    let ev = press(Key::Named(NamedKey::Escape), None);
    assert!(should_build_sequence(&ev, "\x1b", kitty(1), ModifiersState::empty()));
    assert_eq!(build_sequence(ev, ModifiersState::empty(), kitty(1)), b"\x1b[27u".to_vec());
}

#[test]
fn escape_without_disambiguation_flows_as_text() {
    let ev = press(Key::Named(NamedKey::Escape), Some("\x1b"));
    assert!(!should_build_sequence(&ev, "\x1b", TermMode::empty(), ModifiersState::empty()));
}

#[test]
fn control_character_key_takes_codepoint_form() {
    let ev = press(Key::Character("a"), Some("a"));
    let m = mods(false, true, false, false);
    assert!(should_build_sequence(&ev, "a", TermMode::empty(), m));
    assert_eq!(build_sequence(ev, m, TermMode::empty()), b"\x1b[97;5u".to_vec());
}

#[test]
fn alt_character_key_parameter_is_three() {
    let ev = press(Key::Character("x"), Some("x"));
    let m = mods(false, false, true, false);
    assert_eq!(build_sequence(ev, m, TermMode::empty()), b"\x1b[120;3u".to_vec());
}

#[test]
fn super_character_key_parameter_is_nine() {
    let ev = press(Key::Character("a"), Some("a"));
    let m = mods(false, false, false, true);
    assert_eq!(build_sequence(ev, m, TermMode::empty()), b"\x1b[97;9u".to_vec());
}

#[test]
fn capital_letter_folds_to_its_base_codepoint() {
    let ev = press(Key::Character("A"), Some("A"));
    let m = mods(true, false, false, false);
    assert_eq!(build_sequence(ev, m, kitty(8)), b"\x1b[97;2u".to_vec());
}

#[test]
fn alternate_keys_report_the_shifted_codepoint() {
    let ev = press(Key::Character("A"), Some("A"));
    let m = mods(true, false, false, false);
    assert_eq!(build_sequence(ev, m, kitty(8 | 4)), b"\x1b[97:65;2u".to_vec());
}

#[test]
fn release_with_event_types_carries_type_three() {
    let ev = release(Key::Character("a"), None);
    assert!(should_build_sequence(&ev, "", kitty(2), ModifiersState::empty()));
    assert_eq!(build_sequence(ev, ModifiersState::empty(), kitty(2)), b"\x1b[97;1:3u".to_vec());
}

#[test]
fn release_without_event_types_produces_nothing() {
    let ev = release(Key::Character("a"), None);
    assert!(!should_build_sequence(&ev, "", TermMode::empty(), ModifiersState::empty()));
}

#[test]
fn release_of_named_key_carries_type_three() {
    let ev = release(Key::Named(NamedKey::ArrowUp), None);
    assert!(should_build_sequence(&ev, "", kitty(2), ModifiersState::empty()));
    assert_eq!(build_sequence(ev, ModifiersState::empty(), kitty(2)), b"\x1b[1;1:3A".to_vec());
}

#[test]
fn repeat_with_event_types_carries_type_two() {
    let mut ev = press(Key::Character("a"), Some("a"));
    ev.repeat = true;
    assert_eq!(build_sequence(ev, ModifiersState::empty(), kitty(8 | 2)), b"\x1b[97;1:2u".to_vec());
}

#[test]
fn associated_text_appends_the_codepoint() {
    let ev = press(Key::Character("a"), Some("a"));
    let m = mods(false, true, false, false);
    assert_eq!(build_sequence(ev, m, kitty(16)), b"\x1b[97;5;97u".to_vec());
}

#[test]
fn associated_text_appends_every_codepoint() {
    let ev = press(Key::Character("a"), Some("ab"));
    let m = mods(false, true, false, false);
    assert_eq!(build_sequence(ev, m, kitty(16)), b"\x1b[97;5;97:98u".to_vec());
}

#[test]
fn without_associated_text_no_trailing_parameters_appear() {
    let ev = press(Key::Character("a"), Some("a"));
    let m = mods(false, true, false, false);
    assert_eq!(build_sequence(ev, m, TermMode::empty()), b"\x1b[97;5u".to_vec());
}

#[test]
fn released_events_never_carry_associated_text() {
    let ev = release(Key::Character("a"), Some("a"));
    assert_eq!(build_sequence(ev, ModifiersState::empty(), kitty(16 | 2)), b"\x1b[97;1:3u".to_vec());
}

#[test]
fn numpad_enter_under_disambiguation_takes_its_own_code() {
    let mut ev = press(Key::Named(NamedKey::Enter), Some("\r"));
    ev.location = KeyLocation::Numpad;
    assert!(should_build_sequence(&ev, "\r", kitty(1), ModifiersState::empty()));
    assert_eq!(build_sequence(ev, ModifiersState::empty(), kitty(1)), b"\x1b[57414u".to_vec());
}

#[test]
fn numpad_arrow_under_disambiguation_takes_its_own_code() {
    let mut ev = press(Key::Named(NamedKey::ArrowUp), None);
    ev.location = KeyLocation::Numpad;
    assert_eq!(build_sequence(ev, ModifiersState::empty(), kitty(1)), b"\x1b[57419u".to_vec());
}

#[test]
fn numpad_digit_under_disambiguation_takes_its_own_code() {
    let mut ev = press(Key::Character("5"), Some("5"));
    ev.location = KeyLocation::Numpad;
    assert!(should_build_sequence(&ev, "5", kitty(1), ModifiersState::empty()));
    assert_eq!(build_sequence(ev, ModifiersState::empty(), kitty(1)), b"\x1b[57404u".to_vec());
}

#[test]
fn numpad_digit_without_enhancements_flows_as_text() {
    let mut ev = press(Key::Character("5"), Some("5"));
    ev.location = KeyLocation::Numpad;
    assert!(!should_build_sequence(&ev, "5", TermMode::empty(), ModifiersState::empty()));
}

#[test]
fn caps_lock_reports_only_under_enhancements() {
    let legacy = press(Key::Named(NamedKey::CapsLock), None);
    assert!(should_build_sequence(&legacy, "", TermMode::empty(), ModifiersState::empty()));
    assert_eq!(build_sequence(legacy, ModifiersState::empty(), TermMode::empty()), Vec::<u8>::new());
    let extended = press(Key::Named(NamedKey::CapsLock), None);
    assert_eq!(build_sequence(extended, ModifiersState::empty(), kitty(1)), b"\x1b[57358u".to_vec());
}

#[test]
fn modifier_keys_report_only_when_all_keys_are_escapes() {
    let under_disambiguation = press(Key::Named(NamedKey::Shift), None);
    assert_eq!(
        build_sequence(under_disambiguation, ModifiersState::empty(), kitty(1)),
        Vec::<u8>::new()
    );
    let left = press(Key::Named(NamedKey::Shift), None);
    assert_eq!(build_sequence(left, ModifiersState::empty(), kitty(8)), b"\x1b[57441u".to_vec());
    let mut right = press(Key::Named(NamedKey::Shift), None);
    right.location = KeyLocation::Right;
    assert_eq!(build_sequence(right, ModifiersState::empty(), kitty(8)), b"\x1b[57447u".to_vec());
}

#[test]
fn f13_takes_the_extended_code() {
    let ev = press(Key::Named(NamedKey::F13), None);
    assert_eq!(build_sequence(ev, ModifiersState::empty(), kitty(1)), b"\x1b[57376u".to_vec());
}

#[test]
fn media_key_has_no_legacy_representation() {
    let ev = press(Key::Named(NamedKey::MediaPlay), None);
    assert!(should_build_sequence(&ev, "", TermMode::empty(), ModifiersState::empty()));
    assert_eq!(build_sequence(ev, ModifiersState::empty(), TermMode::empty()), Vec::<u8>::new());
}

#[test]
fn unidentified_key_yields_the_empty_sequence() {
    let ev = press(Key::Unidentified(String::from("NoSuchKey")), None);
    assert!(should_build_sequence(&ev, "", TermMode::empty(), ModifiersState::empty()));
    assert_eq!(build_sequence(ev, ModifiersState::empty(), TermMode::empty()), Vec::<u8>::new());
}

#[test]
fn builder_is_idempotent_on_identical_inputs() {
    let m = mods(true, true, false, false);
    let first = build_sequence(press(Key::Named(NamedKey::ArrowRight), None), m, kitty(3));
    let second = build_sequence(press(Key::Named(NamedKey::ArrowRight), None), m, kitty(3));
    assert_eq!(first, second);
}

#[test]
fn numpad_operators_under_disambiguation_take_their_codes() {
    let cases: [(&'static str, &'static [u8]); 8] = [
        ("0", b"\x1b[57399u"),
        ("9", b"\x1b[57408u"),
        (".", b"\x1b[57409u"),
        ("/", b"\x1b[57410u"),
        ("*", b"\x1b[57411u"),
        ("-", b"\x1b[57412u"),
        ("+", b"\x1b[57413u"),
        ("=", b"\x1b[57415u"),
    ];
    for (glyph, expected) in cases {
        let mut ev = press(Key::Character(glyph), Some(glyph));
        ev.location = KeyLocation::Numpad;
        assert_eq!(build_sequence(ev, ModifiersState::empty(), kitty(1)), expected.to_vec());
    }
}

#[test]
fn app_cursor_home_and_end_take_ss3() {
    let mut mode = TermMode::empty();
    mode.app_cursor = true;
    let home = press(Key::Named(NamedKey::Home), None);
    assert_eq!(build_sequence(home, ModifiersState::empty(), mode), b"\x1bOH".to_vec());
    let end = press(Key::Named(NamedKey::End), None);
    assert_eq!(build_sequence(end, ModifiersState::empty(), mode), b"\x1bOF".to_vec());
}

#[test]
fn modifiers_override_application_cursor_mode() {
    let mut mode = TermMode::empty();
    mode.app_cursor = true;
    let ev = press(Key::Named(NamedKey::ArrowUp), None);
    let m = mods(false, true, false, false);
    assert_eq!(build_sequence(ev, m, mode), b"\x1b[1;5A".to_vec());
}

#[test]
fn legacy_f2_and_f4_are_ss3_forms() {
    let f2 = press(Key::Named(NamedKey::F2), None);
    assert_eq!(build_sequence(f2, ModifiersState::empty(), TermMode::empty()), b"\x1bOQ".to_vec());
    let f4 = press(Key::Named(NamedKey::F4), None);
    assert_eq!(build_sequence(f4, ModifiersState::empty(), TermMode::empty()), b"\x1bOS".to_vec());
}

#[test]
fn unmodified_f1_keeps_its_ss3_form_under_disambiguation() {
    let ev = press(Key::Named(NamedKey::F1), None);
    assert_eq!(build_sequence(ev, ModifiersState::empty(), kitty(1)), b"\x1bOP".to_vec());
}

#[test]
fn control_page_up_takes_tilde_form() {
    let ev = press(Key::Named(NamedKey::PageUp), None);
    let m = mods(false, true, false, false);
    assert_eq!(build_sequence(ev, m, TermMode::empty()), b"\x1b[5;5~".to_vec());
}

#[test]
fn print_screen_takes_the_extended_code() {
    let ev = press(Key::Named(NamedKey::PrintScreen), None);
    assert_eq!(build_sequence(ev, ModifiersState::empty(), kitty(1)), b"\x1b[57361u".to_vec());
}

#[test]
fn hyper_and_meta_distinguish_left_and_right() {
    let hyper = press(Key::Named(NamedKey::Hyper), None);
    assert_eq!(build_sequence(hyper, ModifiersState::empty(), kitty(8)), b"\x1b[57445u".to_vec());
    let mut meta = press(Key::Named(NamedKey::Meta), None);
    meta.location = KeyLocation::Right;
    assert_eq!(build_sequence(meta, ModifiersState::empty(), kitty(8)), b"\x1b[57452u".to_vec());
}

#[test]
fn shift_tab_flows_as_text() {
    let ev = press(Key::Named(NamedKey::Tab), Some("\t"));
    let m = mods(true, false, false, false);
    assert!(!should_build_sequence(&ev, "\t", TermMode::empty(), m));
}

#[test]
fn release_of_enter_with_event_types_is_parameterized() {
    let ev = release(Key::Named(NamedKey::Enter), None);
    assert!(should_build_sequence(&ev, "", kitty(2), ModifiersState::empty()));
    assert_eq!(build_sequence(ev, ModifiersState::empty(), kitty(2)), b"\x1b[13;1:3u".to_vec());
}
