//! What is kept on disk: history, recordings, activity, credentials and preferences.
//!
//! The rules stand here; reading and writing files is the caller's part.
pub mod activity;
pub mod credentials;
pub mod history;
pub mod paths;
pub mod preferences;

use vstd::prelude::*;

verus! {

/// How many entries the history holds at most.
pub const HISTORY_CAP: usize = 200;

} // verus!
