//! The closed set of physical key positions that can produce visible text.
//!
//! A scan code names a key *position*, not a character: the keycode values
//! are the locale-independent X11 keycodes of those positions on a standard
//! keyboard.  The first 26 entries of the enumeration order are the Latin
//! letter positions; the letter-fallback pass of the table builder relies on
//! that prefix.

use vstd::prelude::*;

verus! {

/// The typeable physical key positions: letters, digits, punctuation, and
/// two international positions reserved for locale-specific punctuation.
#[derive(Clone, Copy, PartialEq, Eq, Structural, Debug)]
pub enum LinuxScanCodes {
    A,
    B,
    C,
    D,
    E,
    F,
    G,
    H,
    I,
    J,
    K,
    L,
    M,
    N,
    O,
    P,
    Q,
    R,
    S,
    T,
    U,
    V,
    W,
    X,
    Y,
    Z,
    Digit0,
    Digit1,
    Digit2,
    Digit3,
    Digit4,
    Digit5,
    Digit6,
    Digit7,
    Digit8,
    Digit9,
    Backquote,
    Minus,
    Equal,
    LeftBracket,
    RightBracket,
    Backslash,
    Semicolon,
    Quote,
    Comma,
    Period,
    Slash,
    /// Typically located near the left shift key; varies on international
    /// keyboards (Danish `<>`, Dutch `][`, German `<>`, UK `\|`).
    IntlBackslash,
    /// Used for the Brazilian `/?` and the Japanese `_` (ro) keys.
    IntlRo,
}

impl LinuxScanCodes {
    /// The X11 keycode of this key position.
    pub open spec fn spec_keycode(self) -> u32 {
        match self {
            LinuxScanCodes::A => 0x0026,
            LinuxScanCodes::B => 0x0038,
            LinuxScanCodes::C => 0x0036,
            LinuxScanCodes::D => 0x0028,
            LinuxScanCodes::E => 0x001a,
            LinuxScanCodes::F => 0x0029,
            LinuxScanCodes::G => 0x002a,
            LinuxScanCodes::H => 0x002b,
            LinuxScanCodes::I => 0x001f,
            LinuxScanCodes::J => 0x002c,
            LinuxScanCodes::K => 0x002d,
            LinuxScanCodes::L => 0x002e,
            LinuxScanCodes::M => 0x003a,
            LinuxScanCodes::N => 0x0039,
            LinuxScanCodes::O => 0x0020,
            LinuxScanCodes::P => 0x0021,
            LinuxScanCodes::Q => 0x0018,
            LinuxScanCodes::R => 0x001b,
            LinuxScanCodes::S => 0x0027,
            LinuxScanCodes::T => 0x001c,
            LinuxScanCodes::U => 0x001e,
            LinuxScanCodes::V => 0x0037,
            LinuxScanCodes::W => 0x0019,
            LinuxScanCodes::X => 0x0035,
            LinuxScanCodes::Y => 0x001d,
            LinuxScanCodes::Z => 0x0034,
            LinuxScanCodes::Digit0 => 0x0013,
            LinuxScanCodes::Digit1 => 0x000a,
            LinuxScanCodes::Digit2 => 0x000b,
            LinuxScanCodes::Digit3 => 0x000c,
            LinuxScanCodes::Digit4 => 0x000d,
            LinuxScanCodes::Digit5 => 0x000e,
            LinuxScanCodes::Digit6 => 0x000f,
            LinuxScanCodes::Digit7 => 0x0010,
            LinuxScanCodes::Digit8 => 0x0011,
            LinuxScanCodes::Digit9 => 0x0012,
            LinuxScanCodes::Backquote => 0x0031,
            LinuxScanCodes::Minus => 0x0014,
            LinuxScanCodes::Equal => 0x0015,
            LinuxScanCodes::LeftBracket => 0x0022,
            LinuxScanCodes::RightBracket => 0x0023,
            LinuxScanCodes::Backslash => 0x0033,
            LinuxScanCodes::Semicolon => 0x002f,
            LinuxScanCodes::Quote => 0x0030,
            LinuxScanCodes::Comma => 0x003b,
            LinuxScanCodes::Period => 0x003c,
            LinuxScanCodes::Slash => 0x003d,
            LinuxScanCodes::IntlBackslash => 0x005e,
            LinuxScanCodes::IntlRo => 0x0061,
        }
    }

    /// The X11 keycode of this key position.
    pub fn keycode(&self) -> (code: u32)
        ensures
            code == self.spec_keycode(),
    {
        match self {
            LinuxScanCodes::A => 0x0026,
            LinuxScanCodes::B => 0x0038,
            LinuxScanCodes::C => 0x0036,
            LinuxScanCodes::D => 0x0028,
            LinuxScanCodes::E => 0x001a,
            LinuxScanCodes::F => 0x0029,
            LinuxScanCodes::G => 0x002a,
            LinuxScanCodes::H => 0x002b,
            LinuxScanCodes::I => 0x001f,
            LinuxScanCodes::J => 0x002c,
            LinuxScanCodes::K => 0x002d,
            LinuxScanCodes::L => 0x002e,
            LinuxScanCodes::M => 0x003a,
            LinuxScanCodes::N => 0x0039,
            LinuxScanCodes::O => 0x0020,
            LinuxScanCodes::P => 0x0021,
            LinuxScanCodes::Q => 0x0018,
            LinuxScanCodes::R => 0x001b,
            LinuxScanCodes::S => 0x0027,
            LinuxScanCodes::T => 0x001c,
            LinuxScanCodes::U => 0x001e,
            LinuxScanCodes::V => 0x0037,
            LinuxScanCodes::W => 0x0019,
            LinuxScanCodes::X => 0x0035,
            LinuxScanCodes::Y => 0x001d,
            LinuxScanCodes::Z => 0x0034,
            LinuxScanCodes::Digit0 => 0x0013,
            LinuxScanCodes::Digit1 => 0x000a,
            LinuxScanCodes::Digit2 => 0x000b,
            LinuxScanCodes::Digit3 => 0x000c,
            LinuxScanCodes::Digit4 => 0x000d,
            LinuxScanCodes::Digit5 => 0x000e,
            LinuxScanCodes::Digit6 => 0x000f,
            LinuxScanCodes::Digit7 => 0x0010,
            LinuxScanCodes::Digit8 => 0x0011,
            LinuxScanCodes::Digit9 => 0x0012,
            LinuxScanCodes::Backquote => 0x0031,
            LinuxScanCodes::Minus => 0x0014,
            LinuxScanCodes::Equal => 0x0015,
            LinuxScanCodes::LeftBracket => 0x0022,
            LinuxScanCodes::RightBracket => 0x0023,
            LinuxScanCodes::Backslash => 0x0033,
            LinuxScanCodes::Semicolon => 0x002f,
            LinuxScanCodes::Quote => 0x0030,
            LinuxScanCodes::Comma => 0x003b,
            LinuxScanCodes::Period => 0x003c,
            LinuxScanCodes::Slash => 0x003d,
            LinuxScanCodes::IntlBackslash => 0x005e,
            LinuxScanCodes::IntlRo => 0x0061,
        }
    }
}

/// The typeable scan codes in their canonical enumeration order: the 26
/// letter positions first, then digits, punctuation and the two
/// international positions.
pub open spec fn scan_code_list() -> Seq<LinuxScanCodes> {
    seq![
        LinuxScanCodes::A,
        LinuxScanCodes::B,
        LinuxScanCodes::C,
        LinuxScanCodes::D,
        LinuxScanCodes::E,
        LinuxScanCodes::F,
        LinuxScanCodes::G,
        LinuxScanCodes::H,
        LinuxScanCodes::I,
        LinuxScanCodes::J,
        LinuxScanCodes::K,
        LinuxScanCodes::L,
        LinuxScanCodes::M,
        LinuxScanCodes::N,
        LinuxScanCodes::O,
        LinuxScanCodes::P,
        LinuxScanCodes::Q,
        LinuxScanCodes::R,
        LinuxScanCodes::S,
        LinuxScanCodes::T,
        LinuxScanCodes::U,
        LinuxScanCodes::V,
        LinuxScanCodes::W,
        LinuxScanCodes::X,
        LinuxScanCodes::Y,
        LinuxScanCodes::Z,
        LinuxScanCodes::Digit0,
        LinuxScanCodes::Digit1,
        LinuxScanCodes::Digit2,
        LinuxScanCodes::Digit3,
        LinuxScanCodes::Digit4,
        LinuxScanCodes::Digit5,
        LinuxScanCodes::Digit6,
        LinuxScanCodes::Digit7,
        LinuxScanCodes::Digit8,
        LinuxScanCodes::Digit9,
        LinuxScanCodes::Backquote,
        LinuxScanCodes::Minus,
        LinuxScanCodes::Equal,
        LinuxScanCodes::LeftBracket,
        LinuxScanCodes::RightBracket,
        LinuxScanCodes::Backslash,
        LinuxScanCodes::Semicolon,
        LinuxScanCodes::Quote,
        LinuxScanCodes::Comma,
        LinuxScanCodes::Period,
        LinuxScanCodes::Slash,
        LinuxScanCodes::IntlBackslash,
        LinuxScanCodes::IntlRo,
    ]
}

/// How many typeable scan codes there are.
pub open spec fn scan_code_count() -> int {
    scan_code_list().len() as int
}

/// How many of them are letter positions (the prefix of the enumeration).
pub open spec fn letter_count() -> int {
    26
}

/// The keycode at position `i` of the enumeration order.
pub open spec fn code_at(i: int) -> u32 {
    scan_code_list()[i].spec_keycode()
}

impl LinuxScanCodes {
    /// Every typeable scan code, in enumeration order.
    #[verifier::rlimit(100)]
    pub fn all() -> (codes: Vec<LinuxScanCodes>)
        ensures
            codes@ == scan_code_list(),
    {
        let mut codes: Vec<LinuxScanCodes> = Vec::new();
        codes.push(LinuxScanCodes::A);
        codes.push(LinuxScanCodes::B);
        codes.push(LinuxScanCodes::C);
        codes.push(LinuxScanCodes::D);
        codes.push(LinuxScanCodes::E);
        codes.push(LinuxScanCodes::F);
        codes.push(LinuxScanCodes::G);
        codes.push(LinuxScanCodes::H);
        codes.push(LinuxScanCodes::I);
        codes.push(LinuxScanCodes::J);
        codes.push(LinuxScanCodes::K);
        codes.push(LinuxScanCodes::L);
        codes.push(LinuxScanCodes::M);
        codes.push(LinuxScanCodes::N);
        codes.push(LinuxScanCodes::O);
        codes.push(LinuxScanCodes::P);
        codes.push(LinuxScanCodes::Q);
        codes.push(LinuxScanCodes::R);
        codes.push(LinuxScanCodes::S);
        codes.push(LinuxScanCodes::T);
        codes.push(LinuxScanCodes::U);
        codes.push(LinuxScanCodes::V);
        codes.push(LinuxScanCodes::W);
        codes.push(LinuxScanCodes::X);
        codes.push(LinuxScanCodes::Y);
        codes.push(LinuxScanCodes::Z);
        codes.push(LinuxScanCodes::Digit0);
        codes.push(LinuxScanCodes::Digit1);
        codes.push(LinuxScanCodes::Digit2);
        codes.push(LinuxScanCodes::Digit3);
        codes.push(LinuxScanCodes::Digit4);
        codes.push(LinuxScanCodes::Digit5);
        codes.push(LinuxScanCodes::Digit6);
        codes.push(LinuxScanCodes::Digit7);
        codes.push(LinuxScanCodes::Digit8);
        codes.push(LinuxScanCodes::Digit9);
        codes.push(LinuxScanCodes::Backquote);
        codes.push(LinuxScanCodes::Minus);
        codes.push(LinuxScanCodes::Equal);
        codes.push(LinuxScanCodes::LeftBracket);
        codes.push(LinuxScanCodes::RightBracket);
        codes.push(LinuxScanCodes::Backslash);
        codes.push(LinuxScanCodes::Semicolon);
        codes.push(LinuxScanCodes::Quote);
        codes.push(LinuxScanCodes::Comma);
        codes.push(LinuxScanCodes::Period);
        codes.push(LinuxScanCodes::Slash);
        codes.push(LinuxScanCodes::IntlBackslash);
        codes.push(LinuxScanCodes::IntlRo);
        assert(codes@ =~= scan_code_list());
        codes
    }

    /// The 26 letter positions, in order `A` through `Z`.
    pub fn letter_codes() -> (codes: Vec<LinuxScanCodes>)
        ensures
            codes@ == scan_code_list().subrange(0, letter_count()),
    {
        let mut codes = Self::all();
        codes.truncate(26);
        codes
    }
}

impl LinuxScanCodes {
    /// The character this position produces on the canonical US layout,
    /// unshifted; the two international positions have no US assignment.
    pub open spec fn spec_key_name(self) -> Seq<char> {
        match self {
            LinuxScanCodes::A => "a"@,
            LinuxScanCodes::B => "b"@,
            LinuxScanCodes::C => "c"@,
            LinuxScanCodes::D => "d"@,
            LinuxScanCodes::E => "e"@,
            LinuxScanCodes::F => "f"@,
            LinuxScanCodes::G => "g"@,
            LinuxScanCodes::H => "h"@,
            LinuxScanCodes::I => "i"@,
            LinuxScanCodes::J => "j"@,
            LinuxScanCodes::K => "k"@,
            LinuxScanCodes::L => "l"@,
            LinuxScanCodes::M => "m"@,
            LinuxScanCodes::N => "n"@,
            LinuxScanCodes::O => "o"@,
            LinuxScanCodes::P => "p"@,
            LinuxScanCodes::Q => "q"@,
            LinuxScanCodes::R => "r"@,
            LinuxScanCodes::S => "s"@,
            LinuxScanCodes::T => "t"@,
            LinuxScanCodes::U => "u"@,
            LinuxScanCodes::V => "v"@,
            LinuxScanCodes::W => "w"@,
            LinuxScanCodes::X => "x"@,
            LinuxScanCodes::Y => "y"@,
            LinuxScanCodes::Z => "z"@,
            LinuxScanCodes::Digit0 => "0"@,
            LinuxScanCodes::Digit1 => "1"@,
            LinuxScanCodes::Digit2 => "2"@,
            LinuxScanCodes::Digit3 => "3"@,
            LinuxScanCodes::Digit4 => "4"@,
            LinuxScanCodes::Digit5 => "5"@,
            LinuxScanCodes::Digit6 => "6"@,
            LinuxScanCodes::Digit7 => "7"@,
            LinuxScanCodes::Digit8 => "8"@,
            LinuxScanCodes::Digit9 => "9"@,
            LinuxScanCodes::Backquote => "`"@,
            LinuxScanCodes::Minus => "-"@,
            LinuxScanCodes::Equal => "="@,
            LinuxScanCodes::LeftBracket => "["@,
            LinuxScanCodes::RightBracket => "]"@,
            LinuxScanCodes::Backslash => "\\"@,
            LinuxScanCodes::Semicolon => ";"@,
            LinuxScanCodes::Quote => "'"@,
            LinuxScanCodes::Comma => ","@,
            LinuxScanCodes::Period => "."@,
            LinuxScanCodes::Slash => "/"@,
            LinuxScanCodes::IntlBackslash => "unknown"@,
            LinuxScanCodes::IntlRo => "unknown"@,
        }
    }

    /// The character this position produces on the canonical US layout,
    /// unshifted.  Letter positions give the lowercase letter; the two
    /// international positions have no US assignment.
    pub fn to_str(&self) -> (name: &str)
        ensures
            name@ == self.spec_key_name(),
    {
        match self {
            LinuxScanCodes::A => "a",
            LinuxScanCodes::B => "b",
            LinuxScanCodes::C => "c",
            LinuxScanCodes::D => "d",
            LinuxScanCodes::E => "e",
            LinuxScanCodes::F => "f",
            LinuxScanCodes::G => "g",
            LinuxScanCodes::H => "h",
            LinuxScanCodes::I => "i",
            LinuxScanCodes::J => "j",
            LinuxScanCodes::K => "k",
            LinuxScanCodes::L => "l",
            LinuxScanCodes::M => "m",
            LinuxScanCodes::N => "n",
            LinuxScanCodes::O => "o",
            LinuxScanCodes::P => "p",
            LinuxScanCodes::Q => "q",
            LinuxScanCodes::R => "r",
            LinuxScanCodes::S => "s",
            LinuxScanCodes::T => "t",
            LinuxScanCodes::U => "u",
            LinuxScanCodes::V => "v",
            LinuxScanCodes::W => "w",
            LinuxScanCodes::X => "x",
            LinuxScanCodes::Y => "y",
            LinuxScanCodes::Z => "z",
            LinuxScanCodes::Digit0 => "0",
            LinuxScanCodes::Digit1 => "1",
            LinuxScanCodes::Digit2 => "2",
            LinuxScanCodes::Digit3 => "3",
            LinuxScanCodes::Digit4 => "4",
            LinuxScanCodes::Digit5 => "5",
            LinuxScanCodes::Digit6 => "6",
            LinuxScanCodes::Digit7 => "7",
            LinuxScanCodes::Digit8 => "8",
            LinuxScanCodes::Digit9 => "9",
            LinuxScanCodes::Backquote => "`",
            LinuxScanCodes::Minus => "-",
            LinuxScanCodes::Equal => "=",
            LinuxScanCodes::LeftBracket => "[",
            LinuxScanCodes::RightBracket => "]",
            LinuxScanCodes::Backslash => "\\",
            LinuxScanCodes::Semicolon => ";",
            LinuxScanCodes::Quote => "'",
            LinuxScanCodes::Comma => ",",
            LinuxScanCodes::Period => ".",
            LinuxScanCodes::Slash => "/",
            LinuxScanCodes::IntlBackslash => "unknown",
            LinuxScanCodes::IntlRo => "unknown",
        }
    }

    /// The character this position produces on the canonical US layout with
    /// shift held.  Letter positions still give the lowercase letter: the
    /// mapper's letters table bypasses shift, leaving case handling to the
    /// caller.
    pub open spec fn spec_shifted_name(self) -> Seq<char> {
        match self {
            LinuxScanCodes::Digit0 => ")"@,
            LinuxScanCodes::Digit1 => "!"@,
            LinuxScanCodes::Digit2 => "@"@,
            LinuxScanCodes::Digit3 => "#"@,
            LinuxScanCodes::Digit4 => "$"@,
            LinuxScanCodes::Digit5 => "%"@,
            LinuxScanCodes::Digit6 => "^"@,
            LinuxScanCodes::Digit7 => "&"@,
            LinuxScanCodes::Digit8 => "*"@,
            LinuxScanCodes::Digit9 => "("@,
            LinuxScanCodes::Backquote => "~"@,
            LinuxScanCodes::Minus => "_"@,
            LinuxScanCodes::Equal => "+"@,
            LinuxScanCodes::LeftBracket => "{"@,
            LinuxScanCodes::RightBracket => "}"@,
            LinuxScanCodes::Backslash => "|"@,
            LinuxScanCodes::Semicolon => ":"@,
            LinuxScanCodes::Quote => "\""@,
            LinuxScanCodes::Comma => "<"@,
            LinuxScanCodes::Period => ">"@,
            LinuxScanCodes::Slash => "?"@,
            _ => self.spec_key_name(),
        }
    }

    /// The character this position produces on the canonical US layout with
    /// shift held.
    pub fn to_shifted(&self) -> (name: &str)
        ensures
            name@ == self.spec_shifted_name(),
    {
        match self {
            LinuxScanCodes::A => "a",
            LinuxScanCodes::B => "b",
            LinuxScanCodes::C => "c",
            LinuxScanCodes::D => "d",
            LinuxScanCodes::E => "e",
            LinuxScanCodes::F => "f",
            LinuxScanCodes::G => "g",
            LinuxScanCodes::H => "h",
            LinuxScanCodes::I => "i",
            LinuxScanCodes::J => "j",
            LinuxScanCodes::K => "k",
            LinuxScanCodes::L => "l",
            LinuxScanCodes::M => "m",
            LinuxScanCodes::N => "n",
            LinuxScanCodes::O => "o",
            LinuxScanCodes::P => "p",
            LinuxScanCodes::Q => "q",
            LinuxScanCodes::R => "r",
            LinuxScanCodes::S => "s",
            LinuxScanCodes::T => "t",
            LinuxScanCodes::U => "u",
            LinuxScanCodes::V => "v",
            LinuxScanCodes::W => "w",
            LinuxScanCodes::X => "x",
            LinuxScanCodes::Y => "y",
            LinuxScanCodes::Z => "z",
            LinuxScanCodes::Digit0 => ")",
            LinuxScanCodes::Digit1 => "!",
            LinuxScanCodes::Digit2 => "@",
            LinuxScanCodes::Digit3 => "#",
            LinuxScanCodes::Digit4 => "$",
            LinuxScanCodes::Digit5 => "%",
            LinuxScanCodes::Digit6 => "^",
            LinuxScanCodes::Digit7 => "&",
            LinuxScanCodes::Digit8 => "*",
            LinuxScanCodes::Digit9 => "(",
            LinuxScanCodes::Backquote => "~",
            LinuxScanCodes::Minus => "_",
            LinuxScanCodes::Equal => "+",
            LinuxScanCodes::LeftBracket => "{",
            LinuxScanCodes::RightBracket => "}",
            LinuxScanCodes::Backslash => "|",
            LinuxScanCodes::Semicolon => ":",
            LinuxScanCodes::Quote => "\"",
            LinuxScanCodes::Comma => "<",
            LinuxScanCodes::Period => ">",
            LinuxScanCodes::Slash => "?",
            LinuxScanCodes::IntlBackslash => "unknown",
            LinuxScanCodes::IntlRo => "unknown",
        }
    }
}

/// The canonical lowercase letter of letter position `j` (position `j` of
/// the enumeration order, `j < 26`).
pub open spec fn letter_name(j: int) -> Seq<char> {
    scan_code_list()[j].spec_key_name()
}

/// The position of a typeable keycode in the enumeration order, and a value
/// out of range for a keycode that is not typeable.  This is the inverse of
/// [`code_at`] and witnesses that the 49 keycodes are pairwise distinct.
pub open spec fn code_index(code: u32) -> int {
    if code == 0x0026 {
        0
    } else if code == 0x0038 {
        1
    } else if code == 0x0036 {
        2
    } else if code == 0x0028 {
        3
    } else if code == 0x001a {
        4
    } else if code == 0x0029 {
        5
    } else if code == 0x002a {
        6
    } else if code == 0x002b {
        7
    } else if code == 0x001f {
        8
    } else if code == 0x002c {
        9
    } else if code == 0x002d {
        10
    } else if code == 0x002e {
        11
    } else if code == 0x003a {
        12
    } else if code == 0x0039 {
        13
    } else if code == 0x0020 {
        14
    } else if code == 0x0021 {
        15
    } else if code == 0x0018 {
        16
    } else if code == 0x001b {
        17
    } else if code == 0x0027 {
        18
    } else if code == 0x001c {
        19
    } else if code == 0x001e {
        20
    } else if code == 0x0037 {
        21
    } else if code == 0x0019 {
        22
    } else if code == 0x0035 {
        23
    } else if code == 0x001d {
        24
    } else if code == 0x0034 {
        25
    } else if code == 0x0013 {
        26
    } else if code == 0x000a {
        27
    } else if code == 0x000b {
        28
    } else if code == 0x000c {
        29
    } else if code == 0x000d {
        30
    } else if code == 0x000e {
        31
    } else if code == 0x000f {
        32
    } else if code == 0x0010 {
        33
    } else if code == 0x0011 {
        34
    } else if code == 0x0012 {
        35
    } else if code == 0x0031 {
        36
    } else if code == 0x0014 {
        37
    } else if code == 0x0015 {
        38
    } else if code == 0x0022 {
        39
    } else if code == 0x0023 {
        40
    } else if code == 0x0033 {
        41
    } else if code == 0x002f {
        42
    } else if code == 0x0030 {
        43
    } else if code == 0x003b {
        44
    } else if code == 0x003c {
        45
    } else if code == 0x003d {
        46
    } else if code == 0x005e {
        47
    } else if code == 0x0061 {
        48
    } else {
        -1
    }
}

/// `code_index` inverts `code_at`, so distinct positions have distinct
/// keycodes.
pub proof fn lemma_codes_distinct()
    ensures
        forall|i: int| 0 <= i < scan_code_count() ==> #[trigger] code_index(code_at(i)) == i,
        forall|i: int, j: int|
            0 <= i < scan_code_count() && 0 <= j < scan_code_count() && i != j ==> code_at(i)
                != code_at(j),
{
    assert forall|i: int| 0 <= i < scan_code_count() implies #[trigger] code_index(code_at(i))
        == i by {
        assert(code_index(code_at(i)) == i);
    }
}

} // verus!
