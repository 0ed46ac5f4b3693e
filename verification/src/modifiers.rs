//! The caller-owned modifier state handed into each lookup.

use vstd::prelude::*;

verus! {

/// The set of modifier keys relevant to character resolution.  The mapper
/// reads and may clear `shift` (when a lookup has folded shift handling into
/// the returned key); the remaining flags are carried for the caller's own
/// key-binding logic and are never touched by this library.
#[derive(Clone, Copy, PartialEq, Eq, Structural, Debug)]
pub struct Modifiers {
    pub control: bool,
    pub alt: bool,
    pub shift: bool,
    pub platform: bool,
    pub function: bool,
}

impl Default for Modifiers {
    /// No modifier held.
    fn default() -> (m: Modifiers)
        ensures
            m == (Modifiers {
                control: false,
                alt: false,
                shift: false,
                platform: false,
                function: false,
            }),
    {
        Modifiers { control: false, alt: false, shift: false, platform: false, function: false }
    }
}

} // verus!
