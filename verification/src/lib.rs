//! Capture-and-insertion pipeline of a voice-dictation utility: the hotkey
//! state machine, the capture session with its silence timer, device
//! selection, and the text-insertion fallback chain.

pub mod accessibility;
pub mod audio;
pub mod keyboard;
pub mod storage;
pub mod system;
pub mod text;
