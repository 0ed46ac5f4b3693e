//! The dead-key resolution table.
//!
//! A dead key produces no standalone character; the layout reports it through
//! a symbolic keysym instead of a string.  This table maps each dead-key
//! keysym to the standalone glyph it represents, or to nothing for dead keys
//! whose combining form has no independent printable existence.  It is a
//! static, total function over the closed set of dead-key keysyms; a keysym
//! outside that set simply resolves to nothing.
//!
//! The keysym values are the X11 `XK_dead_*` constants.

use vstd::prelude::*;

verus! {

pub const DEAD_GRAVE: u32 = 0xfe50;

pub const DEAD_ACUTE: u32 = 0xfe51;

pub const DEAD_CIRCUMFLEX: u32 = 0xfe52;

pub const DEAD_TILDE: u32 = 0xfe53;

pub const DEAD_MACRON: u32 = 0xfe54;

pub const DEAD_BREVE: u32 = 0xfe55;

pub const DEAD_ABOVEDOT: u32 = 0xfe56;

pub const DEAD_DIAERESIS: u32 = 0xfe57;

pub const DEAD_ABOVERING: u32 = 0xfe58;

pub const DEAD_DOUBLEACUTE: u32 = 0xfe59;

pub const DEAD_CARON: u32 = 0xfe5a;

pub const DEAD_CEDILLA: u32 = 0xfe5b;

pub const DEAD_OGONEK: u32 = 0xfe5c;

pub const DEAD_IOTA: u32 = 0xfe5d;

pub const DEAD_VOICED_SOUND: u32 = 0xfe5e;

pub const DEAD_SEMIVOICED_SOUND: u32 = 0xfe5f;

pub const DEAD_BELOWDOT: u32 = 0xfe60;

pub const DEAD_HOOK: u32 = 0xfe61;

pub const DEAD_HORN: u32 = 0xfe62;

pub const DEAD_STROKE: u32 = 0xfe63;

pub const DEAD_ABOVECOMMA: u32 = 0xfe64;

pub const DEAD_ABOVEREVERSEDCOMMA: u32 = 0xfe65;

pub const DEAD_DOUBLEGRAVE: u32 = 0xfe66;

pub const DEAD_BELOWRING: u32 = 0xfe67;

pub const DEAD_BELOWMACRON: u32 = 0xfe68;

pub const DEAD_BELOWCIRCUMFLEX: u32 = 0xfe69;

pub const DEAD_BELOWTILDE: u32 = 0xfe6a;

pub const DEAD_BELOWBREVE: u32 = 0xfe6b;

pub const DEAD_BELOWDIAERESIS: u32 = 0xfe6c;

pub const DEAD_INVERTEDBREVE: u32 = 0xfe6d;

pub const DEAD_BELOWCOMMA: u32 = 0xfe6e;

pub const DEAD_CURRENCY: u32 = 0xfe6f;

pub const DEAD_SMALL_SCHWA: u32 = 0xfe8a;

pub const DEAD_CAPITAL_SCHWA: u32 = 0xfe8b;

/// Which standalone glyph the dead-key keysym represents, or `None` for a
/// dead key with no representable standalone glyph (and for any keysym that
/// is not a dead key at all).
pub open spec fn spec_underlying_dead_key(keysym: u32) -> Option<Seq<char>> {
    if keysym == DEAD_GRAVE {
        Some("`"@)
    } else if keysym == DEAD_ACUTE {
        Some("\u{b4}"@)  // acute accent
    } else if keysym == DEAD_CIRCUMFLEX {
        Some("^"@)
    } else if keysym == DEAD_TILDE {
        Some("~"@)
    } else if keysym == DEAD_MACRON {
        Some("\u{af}"@)  // macron
    } else if keysym == DEAD_BREVE {
        Some("\u{2d8}"@)  // breve
    } else if keysym == DEAD_ABOVEDOT {
        Some("\u{2d9}"@)  // dot above
    } else if keysym == DEAD_DIAERESIS {
        Some("\u{a8}"@)  // diaeresis
    } else if keysym == DEAD_ABOVERING {
        Some("\u{2da}"@)  // ring above
    } else if keysym == DEAD_DOUBLEACUTE {
        Some("\u{2dd}"@)  // double acute accent
    } else if keysym == DEAD_CARON {
        Some("\u{2c7}"@)  // caron
    } else if keysym == DEAD_CEDILLA {
        Some("\u{b8}"@)  // cedilla
    } else if keysym == DEAD_OGONEK {
        Some("\u{2db}"@)  // ogonek
    } else if keysym == DEAD_IOTA {
        Some("\u{345}"@)  // combining greek ypogegrammeni
    } else if keysym == DEAD_VOICED_SOUND {
        Some("\u{3099}"@)  // combining katakana-hiragana voiced sound mark
    } else if keysym == DEAD_SEMIVOICED_SOUND {
        Some("\u{309a}"@)  // combining katakana-hiragana semi-voiced sound mark
    } else if keysym == DEAD_BELOWDOT {
        Some("\u{323}\u{323}"@)  // combining dot below, doubled
    } else if keysym == DEAD_HOOK {
        Some("\u{321}"@)  // combining palatalized hook below
    } else if keysym == DEAD_HORN {
        Some("\u{31b}"@)  // combining horn
    } else if keysym == DEAD_STROKE {
        Some("\u{336}\u{336}"@)  // combining long stroke overlay, doubled
    } else if keysym == DEAD_ABOVECOMMA {
        Some("\u{313}\u{313}"@)  // combining comma above, doubled
    } else if keysym == DEAD_ABOVEREVERSEDCOMMA {
        Some("\u{2bd}"@)  // modifier letter reversed comma
    } else if keysym == DEAD_DOUBLEGRAVE {
        Some("\u{30f}"@)  // combining double grave accent
    } else if keysym == DEAD_BELOWRING {
        Some("\u{2f3}"@)  // modifier letter low ring
    } else if keysym == DEAD_BELOWMACRON {
        Some("\u{331}"@)  // combining macron below
    } else if keysym == DEAD_BELOWCIRCUMFLEX {
        Some("\u{a788}"@)  // modifier letter low circumflex accent
    } else if keysym == DEAD_BELOWTILDE {
        Some("\u{330}"@)  // combining tilde below
    } else if keysym == DEAD_BELOWBREVE {
        Some("\u{32e}"@)  // combining breve below
    } else if keysym == DEAD_BELOWDIAERESIS {
        Some("\u{324}"@)  // combining diaeresis below
    } else if keysym == DEAD_INVERTEDBREVE {
        Some("\u{32f}"@)  // combining inverted breve below
    } else if keysym == DEAD_BELOWCOMMA {
        Some("\u{326}"@)  // combining comma below
    } else if keysym == DEAD_SMALL_SCHWA {
        Some("\u{259}"@)  // latin small letter schwa
    } else if keysym == DEAD_CAPITAL_SCHWA {
        Some("\u{18f}"@)  // latin capital letter schwa
    } else {
        // Dead keys with no standalone glyph (currency, lowline, the
        // vertical-line and solidus-overlay marks, the vowel and greek
        // composition prefixes), and every keysym that is not a dead key.
        None
    }
}

/// Which standalone glyph the dead-key keysym represents.
///
/// Mirrors the dead-key code points listed for Linux keyboard events at
/// <https://developer.mozilla.org/en-US/docs/Web/API/UI_Events/Keyboard_event_key_values#dead_keycodes_for_linux>.
pub fn underlying_dead_key(keysym: u32) -> (glyph: Option<String>)
    ensures
        glyph.deep_view() == spec_underlying_dead_key(keysym),
{
    if keysym == DEAD_GRAVE {
        Some("`".to_owned())
    } else if keysym == DEAD_ACUTE {
        Some("\u{b4}".to_owned())
    } else if keysym == DEAD_CIRCUMFLEX {
        Some("^".to_owned())
    } else if keysym == DEAD_TILDE {
        Some("~".to_owned())
    } else if keysym == DEAD_MACRON {
        Some("\u{af}".to_owned())
    } else if keysym == DEAD_BREVE {
        Some("\u{2d8}".to_owned())
    } else if keysym == DEAD_ABOVEDOT {
        Some("\u{2d9}".to_owned())
    } else if keysym == DEAD_DIAERESIS {
        Some("\u{a8}".to_owned())
    } else if keysym == DEAD_ABOVERING {
        Some("\u{2da}".to_owned())
    } else if keysym == DEAD_DOUBLEACUTE {
        Some("\u{2dd}".to_owned())
    } else if keysym == DEAD_CARON {
        Some("\u{2c7}".to_owned())
    } else if keysym == DEAD_CEDILLA {
        Some("\u{b8}".to_owned())
    } else if keysym == DEAD_OGONEK {
        Some("\u{2db}".to_owned())
    } else if keysym == DEAD_IOTA {
        Some("\u{345}".to_owned())
    } else if keysym == DEAD_VOICED_SOUND {
        Some("\u{3099}".to_owned())
    } else if keysym == DEAD_SEMIVOICED_SOUND {
        Some("\u{309a}".to_owned())
    } else if keysym == DEAD_BELOWDOT {
        Some("\u{323}\u{323}".to_owned())
    } else if keysym == DEAD_HOOK {
        Some("\u{321}".to_owned())
    } else if keysym == DEAD_HORN {
        Some("\u{31b}".to_owned())
    } else if keysym == DEAD_STROKE {
        Some("\u{336}\u{336}".to_owned())
    } else if keysym == DEAD_ABOVECOMMA {
        Some("\u{313}\u{313}".to_owned())
    } else if keysym == DEAD_ABOVEREVERSEDCOMMA {
        Some("\u{2bd}".to_owned())
    } else if keysym == DEAD_DOUBLEGRAVE {
        Some("\u{30f}".to_owned())
    } else if keysym == DEAD_BELOWRING {
        Some("\u{2f3}".to_owned())
    } else if keysym == DEAD_BELOWMACRON {
        Some("\u{331}".to_owned())
    } else if keysym == DEAD_BELOWCIRCUMFLEX {
        Some("\u{a788}".to_owned())
    } else if keysym == DEAD_BELOWTILDE {
        Some("\u{330}".to_owned())
    } else if keysym == DEAD_BELOWBREVE {
        Some("\u{32e}".to_owned())
    } else if keysym == DEAD_BELOWDIAERESIS {
        Some("\u{324}".to_owned())
    } else if keysym == DEAD_INVERTEDBREVE {
        Some("\u{32f}".to_owned())
    } else if keysym == DEAD_BELOWCOMMA {
        Some("\u{326}".to_owned())
    } else if keysym == DEAD_SMALL_SCHWA {
        Some("\u{259}".to_owned())
    } else if keysym == DEAD_CAPITAL_SCHWA {
        Some("\u{18f}".to_owned())
    } else {
        None
    }
}

} // verus!
