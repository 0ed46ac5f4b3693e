//! Unit tests for the scan-code enumeration, the letter classifier, the
//! dead-key table, the modifier state and the layout identifier.

use keyboard_mapper::dead_keys::{
    DEAD_ACUTE, DEAD_BELOWDOT, DEAD_CAPITAL_SCHWA, DEAD_CURRENCY, DEAD_GRAVE, DEAD_SMALL_SCHWA,
};
use keyboard_mapper::mapper::effective_group;
use keyboard_mapper::{
    key_is_a_letter, underlying_dead_key, LinuxKeyboardLayout, LinuxScanCodes, Modifiers,
};

#[test]
fn test_scan_code_enumeration() {
    let codes = LinuxScanCodes::all();
    assert_eq!(codes.len(), 49);
    assert_eq!(codes[0], LinuxScanCodes::A);
    assert_eq!(codes[25], LinuxScanCodes::Z);
    assert_eq!(codes[26], LinuxScanCodes::Digit0);
    assert_eq!(codes[48], LinuxScanCodes::IntlRo);

    let letters = LinuxScanCodes::letter_codes();
    assert_eq!(letters.len(), 26);
    assert_eq!(letters.as_slice(), &codes[..26]);

    // Keycodes are pairwise distinct.
    for (i, a) in codes.iter().enumerate() {
        for b in codes.iter().skip(i + 1) {
            assert_ne!(a.keycode(), b.keycode());
        }
    }
}

#[test]
fn test_scan_code_keycodes() {
    assert_eq!(LinuxScanCodes::A.keycode(), 0x0026);
    assert_eq!(LinuxScanCodes::Digit1.keycode(), 0x000a);
    assert_eq!(LinuxScanCodes::Backquote.keycode(), 0x0031);
    assert_eq!(LinuxScanCodes::IntlBackslash.keycode(), 0x005e);
    assert_eq!(LinuxScanCodes::IntlRo.keycode(), 0x0061);
}

#[test]
fn test_to_str() {
    assert_eq!(LinuxScanCodes::A.to_str(), "a");
    assert_eq!(LinuxScanCodes::Z.to_str(), "z");
    assert_eq!(LinuxScanCodes::Digit0.to_str(), "0");
    assert_eq!(LinuxScanCodes::Backquote.to_str(), "`");
    assert_eq!(LinuxScanCodes::Backslash.to_str(), "\\");
    assert_eq!(LinuxScanCodes::IntlBackslash.to_str(), "unknown");
    assert_eq!(LinuxScanCodes::IntlRo.to_str(), "unknown");
}

#[test]
fn test_to_shifted() {
    // Letter positions stay lowercase: the letters table bypasses shift.
    assert_eq!(LinuxScanCodes::A.to_shifted(), "a");
    assert_eq!(LinuxScanCodes::Digit0.to_shifted(), ")");
    assert_eq!(LinuxScanCodes::Digit1.to_shifted(), "!");
    assert_eq!(LinuxScanCodes::Backquote.to_shifted(), "~");
    assert_eq!(LinuxScanCodes::Quote.to_shifted(), "\"");
    assert_eq!(LinuxScanCodes::Slash.to_shifted(), "?");
    assert_eq!(LinuxScanCodes::IntlRo.to_shifted(), "unknown");
}

#[test]
fn test_key_is_a_letter() {
    assert!(key_is_a_letter("a"));
    assert!(key_is_a_letter("m"));
    assert!(key_is_a_letter("z"));
    assert!(!key_is_a_letter("A"));
    assert!(!key_is_a_letter("1"));
    assert!(!key_is_a_letter(""));
    assert!(!key_is_a_letter("ab"));
    assert!(!key_is_a_letter("\u{e9}"));
    assert!(!key_is_a_letter("`"));
}

#[test]
fn test_underlying_dead_key() {
    assert_eq!(underlying_dead_key(DEAD_GRAVE).unwrap(), "`");
    assert_eq!(underlying_dead_key(DEAD_ACUTE).unwrap(), "\u{b4}");
    assert_eq!(underlying_dead_key(DEAD_SMALL_SCHWA).unwrap(), "\u{259}");
    assert_eq!(underlying_dead_key(DEAD_CAPITAL_SCHWA).unwrap(), "\u{18f}");
    assert_eq!(underlying_dead_key(DEAD_BELOWDOT).unwrap(), "\u{323}\u{323}");
    assert_eq!(underlying_dead_key(DEAD_CURRENCY), None);
    // Keysyms that are not dead keys resolve to nothing.
    assert_eq!(underlying_dead_key(0x0061), None);
    assert_eq!(underlying_dead_key(0), None);
}

#[test]
fn test_effective_group() {
    assert_eq!(effective_group(None), 0);
    assert_eq!(effective_group(Some(0)), 0);
    assert_eq!(effective_group(Some(3)), 3);
}

#[test]
fn test_layout_id_and_name() {
    let layout = LinuxKeyboardLayout::new("us".to_string());
    assert_eq!(layout.id(), "us");
    assert_eq!(layout.name(), "us");
}

#[test]
fn test_modifiers_default() {
    let modifiers = Modifiers::default();
    assert!(!modifiers.control);
    assert!(!modifiers.alt);
    assert!(!modifiers.shift);
    assert!(!modifiers.platform);
    assert!(!modifiers.function);
    assert_eq!(modifiers, Modifiers::default());
}
