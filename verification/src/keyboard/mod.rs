//! Hotkey handling.

pub mod hotkey;
