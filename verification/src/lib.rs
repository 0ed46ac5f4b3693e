//! Keyboard-layout mapping core: resolves the logical character produced by a
//! physical key position under the active layout, modifier state and keyboard
//! group.
//!
//! The library is organised around a per-session [`LinuxKeyboardMapper`] that
//! is built once from a snapshot of host layout queries — one [`KeyQuery`]
//! per typeable scan code, covering direct character resolution, shifted
//! variants, dead-key decomposition and a letter fallback that keeps the 26
//! Latin letters typeable even when the host reports nothing for them — and
//! then answers [`LinuxKeyboardMapper::get_key`] lookups immutably.
//! Querying the host (the X11 connection and xkb state) is the surrounding
//! platform layer's business; everything from the query results down to the
//! returned character is specified and verified here, and the guarantees
//! that hold for every layout are stated as proof functions in [`laws`].

pub mod dead_keys;
pub mod laws;
pub mod mapper;
pub mod modifiers;
pub mod scan_codes;

pub use dead_keys::underlying_dead_key;
pub use mapper::{KeyQuery, LinuxKeyboardLayout, LinuxKeyboardMapper, key_is_a_letter};
pub use modifiers::Modifiers;
pub use scan_codes::LinuxScanCodes;
