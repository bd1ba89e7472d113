//! The dictation core: session state machine, speech engines, hotkeys, insertion and storage rules.
pub mod asr;
pub mod audio_mute;
pub mod coordinator;
pub mod coordinator_state;
pub mod dictionary;
pub mod event_bus;
pub mod ffi;
pub mod global_hotkey_runtime;
pub mod ids;
pub mod insertion;
pub mod json;
pub mod logging;
pub mod net;
pub mod permissions;
pub mod persistence;
pub mod providers;
pub mod recorder;
pub mod side_aware_combo;
pub mod text;
pub mod types;
pub mod wav;
