//! Preferences: reading what may be broken or old, and keeping what must not change.
use vstd::prelude::*;
use vstd::string::*;

use crate::json::{parse_json, parsed_json, JsonValue};
use crate::text::join3;
use crate::types::UserPreferences;

verus! {

/// The name of the file that preferences are kept in.
pub const PREFERENCES_FILE: &'static str = "preferences.json";

/// What is done with a file of preferences.
#[derive(Clone, Copy, PartialEq, Eq, Structural, Debug)]
pub enum PreferencesStep {
    /// There is nothing to read.
    UseDefault,
    /// The file is as it should be.
    Use,
    /// The file is good but old: write it back, so that it is known to be up to date.
    UseAndWriteBack,
    /// The file is broken: keep a copy of it, save what can be saved, and write that back.
    BackUpAndSalvage,
}

/// The preferences are known to be up to date.
pub open spec fn marked(preferences: JsonValue) -> bool {
    preferences.bool_member("streamingInsertDefaultMigrated"@) == Some(true)
}

/// Whether a text is that of preferences which are known to be up to date.
pub open spec fn text_marked(text: Seq<char>) -> bool {
    parsed_json(text) matches Ok(j) && marked(j)
}

/// Whether a text is that of preferences which are known to be up to date.
pub fn streaming_default_migrated(text: &str) -> (r: bool)
    ensures
        r == text_marked(text@),
{
    match parse_json(text) {
        Ok(j) => match j.get_bool("streamingInsertDefaultMigrated") {
            Some(flag) => flag,
            None => false,
        },
        Err(_) => false,
    }
}

/// What is done with a file of preferences that holds that text.
pub open spec fn reading_step(text: Seq<char>, decoded: bool) -> PreferencesStep {
    if text.len() == 0 {
        PreferencesStep::UseDefault
    } else if !decoded {
        PreferencesStep::BackUpAndSalvage
    } else if text_marked(text) {
        PreferencesStep::Use
    } else {
        PreferencesStep::UseAndWriteBack
    }
}

/// What is done with a file of preferences. `decoded` tells whether its text could be read as
/// preferences.
pub fn read_preferences_step(text: Option<&str>, decoded: bool) -> (r: PreferencesStep)
    ensures
        r == match text {
            Some(t) => reading_step(t@, decoded),
            None => PreferencesStep::UseDefault,
        },
{
    match text {
        Some(t) => {
            if t.is_empty() {
                PreferencesStep::UseDefault
            } else if !decoded {
                PreferencesStep::BackUpAndSalvage
            } else if streaming_default_migrated(t) {
                PreferencesStep::Use
            } else {
                PreferencesStep::UseAndWriteBack
            }
        },
        None => PreferencesStep::UseDefault,
    }
}

/// The choice and the marker once the default was settled.
pub open spec fn settled_streaming(streaming: bool, marked: bool) -> (bool, bool) {
    (
        if marked {
            streaming
        } else {
            true
        },
        true,
    )
}

/// Whether text is inserted while it is recognised, and the marker that this default was settled.
/// Without the marker the choice is an old default and is switched on once; with it the user's
/// choice stands.
pub fn migrated_streaming(streaming: bool, marked: bool) -> (r: (bool, bool))
    ensures
        r == settled_streaming(streaming, marked),
{
    (streaming || !marked, true)
}

/// The name of the copy of a broken file: a time and an identifier that is never used twice.
pub fn backup_name(time: &str, unique: &str) -> (r: String)
    ensures
        r@ == "preferences.corrupt-"@ + time@ + "-"@ + unique@ + ".json"@,
{
    let mut r = join3("preferences.corrupt-", time, "-");
    r.append(unique);
    r.append(".json");
    r
}

/// Preferences that another part of the program has set keep the way in which text is reworked.
pub fn preserve_style_preferences_from(prefs: &mut UserPreferences, current: &UserPreferences)
    ensures
        *final(prefs) == (UserPreferences { default_mode: current.default_mode, ..*old(prefs) }),
{
    prefs.default_mode = current.default_mode;
}

/// Nothing that was kept is lost: a file that cannot be read is copied before anything is written,
/// and one that can be read is used. Only an empty file is passed over.
pub proof fn law_preferences_are_not_lost(text: Seq<char>, decoded: bool)
    ensures
        reading_step(text, decoded) == PreferencesStep::UseDefault <==> text.len() == 0,
        text.len() > 0 && !decoded ==> reading_step(text, decoded)
            == PreferencesStep::BackUpAndSalvage,
        text.len() > 0 && decoded ==> reading_step(text, decoded) == PreferencesStep::Use
            || reading_step(text, decoded) == PreferencesStep::UseAndWriteBack,
        text.len() > 0 && decoded ==> (reading_step(text, decoded) == PreferencesStep::Use
            <==> text_marked(text)),
        text_marked(text) <==> (parsed_json(text) matches Ok(j) && j.bool_member(
            "streamingInsertDefaultMigrated"@,
        ) == Some(true)),
{
}

/// The default is switched on once and settled then: after that the user's choice stands, however
/// often it is read.
pub proof fn law_default_is_settled_once(streaming: bool, marked: bool)
    ensures
        settled_streaming(streaming, marked).1,
        settled_streaming(streaming, true).0 == streaming,
        settled_streaming(streaming, false).0,
        ({
            let first = settled_streaming(streaming, marked);
            settled_streaming(first.0, first.1) == first
        }),
{
}

} // verus!
