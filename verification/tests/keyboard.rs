//! Mapper-level tests: table construction from layout snapshots and the
//! resolve operation, including the scenarios the design is specified by.

use keyboard_mapper::dead_keys::{DEAD_ACUTE, DEAD_CURRENCY, DEAD_GRAVE};
use keyboard_mapper::{KeyQuery, LinuxKeyboardMapper, LinuxScanCodes, Modifiers};

/// What an X11 host reports for the canonical US layout: every position's
/// character string, the shifted variant, uppercase for shifted letters,
/// and nothing for the two international positions.
fn us_snapshot() -> Vec<KeyQuery> {
    let codes = LinuxScanCodes::all();
    let mut snapshot = Vec::new();
    for (i, sc) in codes.iter().enumerate() {
        let (key, shifted_key) = match sc {
            LinuxScanCodes::IntlBackslash | LinuxScanCodes::IntlRo => {
                (String::new(), String::new())
            }
            _ if i < 26 => (sc.to_str().to_string(), sc.to_str().to_uppercase()),
            _ => (sc.to_str().to_string(), sc.to_shifted().to_string()),
        };
        snapshot.push(KeyQuery {
            key,
            keysym: 0,
            shifted_key,
            shifted_keysym: 0,
        });
    }
    snapshot
}

/// A host that reports no character strings and no dead keys at all.
fn empty_snapshot() -> Vec<KeyQuery> {
    LinuxScanCodes::all()
        .iter()
        .map(|_| KeyQuery {
            key: String::new(),
            keysym: 0,
            shifted_key: String::new(),
            shifted_keysym: 0,
        })
        .collect()
}

#[test]
fn test_us_layout_mapper() {
    let mapper = LinuxKeyboardMapper::new(us_snapshot());
    for scan_code in LinuxScanCodes::all() {
        if scan_code == LinuxScanCodes::IntlBackslash || scan_code == LinuxScanCodes::IntlRo {
            continue;
        }
        let keycode = scan_code.keycode();
        let key = mapper
            .get_key(keycode, &mut Modifiers::default())
            .unwrap();
        assert_eq!(key.as_str(), scan_code.to_str());

        let shifted_key = mapper
            .get_key(
                keycode,
                &mut Modifiers {
                    shift: true,
                    ..Default::default()
                },
            )
            .unwrap();
        assert_eq!(shifted_key.as_str(), scan_code.to_shifted());
    }
}

#[test]
fn test_letters_resolvable_when_host_reports_nothing() {
    let mapper = LinuxKeyboardMapper::new(empty_snapshot());
    let codes = LinuxScanCodes::all();
    for sc in codes.iter().take(26) {
        let mut modifiers = Modifiers::default();
        let key = mapper.get_key(sc.keycode(), &mut modifiers).unwrap();
        assert_eq!(key.as_str(), sc.to_str());
        assert!(!modifiers.shift);

        // Letters bypass shift entirely: the flag is left untouched.
        let mut modifiers = Modifiers {
            shift: true,
            ..Default::default()
        };
        let key = mapper.get_key(sc.keycode(), &mut modifiers).unwrap();
        assert_eq!(key.as_str(), sc.to_str());
        assert!(modifiers.shift);
    }
}

#[test]
fn test_letter_fallback_overwrites_remapped_position() {
    // The host reports "q" at the physical A position and "a" nowhere, so
    // the fallback pass force-inserts "a" at the A position afterwards.
    let mut snapshot = empty_snapshot();
    snapshot[0].key = "q".to_string();
    let mapper = LinuxKeyboardMapper::new(snapshot);
    let keycode = LinuxScanCodes::A.keycode();
    let key = mapper.get_key(keycode, &mut Modifiers::default()).unwrap();
    assert_eq!(key.as_str(), "a");
}

#[test]
fn test_shift_consumption() {
    let mapper = LinuxKeyboardMapper::new(us_snapshot());
    let keycode = LinuxScanCodes::Digit1.keycode();

    let mut modifiers = Modifiers {
        shift: true,
        ..Default::default()
    };
    let key = mapper.get_key(keycode, &mut modifiers).unwrap();
    assert_eq!(key.as_str(), "!");
    assert!(!modifiers.shift, "shift must be consumed by a shifted lookup");

    let key = mapper.get_key(keycode, &mut modifiers).unwrap();
    assert_eq!(key.as_str(), "1");
    assert!(!modifiers.shift, "an unshifted lookup leaves shift untouched");
}

#[test]
fn test_dead_key_decomposition() {
    // The backquote position reports no string; its keysym is a dead grave,
    // which decomposes to the standalone grave glyph.  The minus position
    // reports a dead currency key, which has no representable glyph.
    let mut snapshot = empty_snapshot();
    let backquote = 36;  // position of Backquote in enumeration order
    let minus = 37;  // position of Minus in enumeration order
    snapshot[backquote].keysym = DEAD_GRAVE;
    snapshot[minus].keysym = DEAD_CURRENCY;
    let mapper = LinuxKeyboardMapper::new(snapshot);

    let key = mapper
        .get_key(
            LinuxScanCodes::Backquote.keycode(),
            &mut Modifiers::default(),
        )
        .unwrap();
    assert_eq!(key.as_str(), "`");

    let none = mapper.get_key(LinuxScanCodes::Minus.keycode(), &mut Modifiers::default());
    assert_eq!(none, None);
}

#[test]
fn test_shifted_dead_key_decomposition() {
    // The Equal position (index 38, out of the letters table) reports a
    // dead acute for its shifted state only.
    let mut snapshot = empty_snapshot();
    snapshot[38].shifted_keysym = DEAD_ACUTE;
    let mapper = LinuxKeyboardMapper::new(snapshot);

    let mut modifiers = Modifiers {
        shift: true,
        ..Default::default()
    };
    let key = mapper
        .get_key(LinuxScanCodes::Equal.keycode(), &mut modifiers)
        .unwrap();
    assert_eq!(key.as_str(), "\u{b4}");
    assert!(!modifiers.shift);
}

#[test]
fn test_absence_is_not_failure() {
    let mapper = LinuxKeyboardMapper::new(us_snapshot());

    // A keycode outside the typeable set.
    assert_eq!(mapper.get_key(0x0200, &mut Modifiers::default()), None);
    let mut modifiers = Modifiers {
        shift: true,
        ..Default::default()
    };
    assert_eq!(mapper.get_key(0x0200, &mut modifiers), None);

    // A typeable position with no entry in any sub-table: IntlRo reported
    // nothing and has no dead key.
    let keycode = LinuxScanCodes::IntlRo.keycode();
    assert_eq!(mapper.get_key(keycode, &mut Modifiers::default()), None);
}

#[test]
fn test_idempotent_rebuild() {
    let first = LinuxKeyboardMapper::new(us_snapshot());
    let second = LinuxKeyboardMapper::new(us_snapshot());
    for sc in LinuxScanCodes::all() {
        let keycode = sc.keycode();
        assert_eq!(
            first.get_key(keycode, &mut Modifiers::default()),
            second.get_key(keycode, &mut Modifiers::default())
        );
        let mut m1 = Modifiers {
            shift: true,
            ..Default::default()
        };
        let mut m2 = m1;
        assert_eq!(first.get_key(keycode, &mut m1), second.get_key(keycode, &mut m2));
        assert_eq!(m1, m2);
    }
}

#[test]
fn test_end_to_end_us_scenario() {
    let mapper = LinuxKeyboardMapper::new(us_snapshot());

    // Physical "A" position, unshifted.
    let a_code = LinuxScanCodes::A.keycode();
    let mut modifiers = Modifiers::default();
    assert_eq!(mapper.get_key(a_code, &mut modifiers).unwrap().as_str(), "a");
    assert!(!modifiers.shift);

    // Same position under shift: the letters table bypasses shift and the
    // flag is left untouched.
    let mut modifiers = Modifiers {
        shift: true,
        ..Default::default()
    };
    assert_eq!(mapper.get_key(a_code, &mut modifiers).unwrap().as_str(), "a");
    assert!(modifiers.shift);

    // Physical "1" position.
    let one_code = LinuxScanCodes::Digit1.keycode();
    let mut modifiers = Modifiers::default();
    assert_eq!(mapper.get_key(one_code, &mut modifiers).unwrap().as_str(), "1");
    let mut modifiers = Modifiers {
        shift: true,
        ..Default::default()
    };
    assert_eq!(mapper.get_key(one_code, &mut modifiers).unwrap().as_str(), "!");
    assert!(!modifiers.shift, "shift is consumed by the shifted lookup");
}

#[test]
fn test_get_key_preserves_other_modifiers() {
    let mapper = LinuxKeyboardMapper::new(us_snapshot());
    let mut modifiers = Modifiers {
        control: true,
        alt: true,
        shift: true,
        platform: true,
        function: true,
    };
    let key = mapper
        .get_key(LinuxScanCodes::Digit1.keycode(), &mut modifiers)
        .unwrap();
    assert_eq!(key.as_str(), "!");
    assert_eq!(
        modifiers,
        Modifiers {
            control: true,
            alt: true,
            shift: false,
            platform: true,
            function: true,
        }
    );
}
