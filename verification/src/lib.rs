//! Hotkey configuration and overlay geometry.
//!
//! The crate models an application's hotkey settings: canonicalization of
//! shortcut strings, order- and case-insensitive equality of hotkeys,
//! conflict detection between the configured hotkey slots, the settings
//! record that owns the slots, and the centre-preserving geometry of the
//! overlay window's resize operation.

pub mod conflict;
pub mod hotkey;
pub mod overlay;
pub mod settings;
pub mod shortcut;
pub mod state;
pub mod text;
