//! The dictation coordinator: it takes hotkey edges, drives recorder and engine, inserts text and
//! keeps the history.
//!
//! Nothing here waits or touches the world. Each function takes what happened, changes the state,
//! and appends the effects that the caller performs in order.
pub mod asr_wiring;
pub mod begin;
pub mod bridge;
pub mod cancel;
pub mod capsule_focus;
pub mod end;
pub mod hotkey_loops;
pub mod ime;
pub mod inner;
pub mod press;
pub mod resources;
pub mod retranscribe;
pub mod retry;
pub mod streaming;
