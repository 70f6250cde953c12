use lynxocr::shortcut::{parse_shortcut_string, KeyCode, Modifiers, Shortcut};

fn mods(ctrl: bool, shift: bool, alt: bool, super_key: bool) -> Modifiers {
    Modifiers { ctrl, shift, alt, super_key }
}

#[test]
fn default_shortcut_parses() {
    assert_eq!(
        parse_shortcut_string("Ctrl+Shift+O"),
        Shortcut { modifiers: mods(true, true, false, false), code: KeyCode::KeyO }
    );
}

#[test]
fn shortcut_parts_are_trimmed_and_case_insensitive() {
    assert_eq!(
        parse_shortcut_string(" shift + CONTROL + a "),
        Shortcut { modifiers: mods(true, true, false, false), code: KeyCode::KeyA }
    );
    assert_eq!(
        parse_shortcut_string("Alt+f4"),
        Shortcut { modifiers: mods(false, false, true, false), code: KeyCode::F4 }
    );
    assert_eq!(
        parse_shortcut_string("Cmd+Win+space"),
        Shortcut { modifiers: mods(false, false, false, true), code: KeyCode::Space }
    );
    assert_eq!(
        parse_shortcut_string("super+Return"),
        Shortcut { modifiers: mods(false, false, false, true), code: KeyCode::Enter }
    );
    assert_eq!(
        parse_shortcut_string("Ctrl+esc"),
        Shortcut { modifiers: mods(true, false, false, false), code: KeyCode::Escape }
    );
}

#[test]
fn modifier_order_does_not_matter() {
    assert_eq!(parse_shortcut_string("Shift+Alt+7"), parse_shortcut_string("Alt+Shift+7"));
    assert_eq!(parse_shortcut_string("Shift+Alt+7").code, KeyCode::Digit7);
}

#[test]
fn unknown_words_are_ignored_and_unknown_keys_fall_back() {
    assert_eq!(
        parse_shortcut_string("Hyper+Ctrl+PrintScreen"),
        Shortcut { modifiers: mods(true, false, false, false), code: KeyCode::KeyO }
    );
    assert_eq!(
        parse_shortcut_string(""),
        Shortcut { modifiers: mods(false, false, false, false), code: KeyCode::KeyO }
    );
    // The last part is always the key, even when it is a modifier word.
    assert_eq!(
        parse_shortcut_string("Ctrl"),
        Shortcut { modifiers: mods(false, false, false, false), code: KeyCode::KeyO }
    );
}

#[test]
fn key_names_go_through_unicode_upper_casing() {
    // U+017F (long s) upper-cases to "S".
    assert_eq!(parse_shortcut_string("Ctrl+\u{17f}").code, KeyCode::KeyS);
    assert_eq!(parse_shortcut_string("backspace").code, KeyCode::Backspace);
    assert_eq!(parse_shortcut_string("F12").code, KeyCode::F12);
    assert_eq!(parse_shortcut_string("Tab").code, KeyCode::Tab);
}
