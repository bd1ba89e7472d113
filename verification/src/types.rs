//! The plain types that the modules share.
use vstd::prelude::*;

use crate::text::{same, texts};

verus! {

/// The system that the program runs on.
#[derive(Clone, Copy, PartialEq, Eq, Structural, Debug)]
pub enum Platform {
    Macos,
    Windows,
    Linux,
    Other,
}

/// What became of text that was to be inserted.
#[derive(Clone, Copy, PartialEq, Eq, Structural, Debug)]
pub enum InsertStatus {
    Inserted,
    /// The paste shortcut was sent; whether the text arrived is not known.
    PasteSent,
    /// The text is on the clipboard only.
    CopiedFallback,
    Failed,
}

/// What the capsule window shows.
#[derive(Clone, Copy, PartialEq, Eq, Structural, Debug)]
pub enum CapsuleState {
    Idle,
    Recording,
    Transcribing,
    Polishing,
    Done,
    Cancelled,
    Error,
}

/// How recognised text is reworked.
#[derive(Clone, Copy, PartialEq, Eq, Structural, Debug)]
pub enum PolishMode {
    Raw,
    Light,
    Structured,
    Formal,
}

/// Which Chinese script text is written in.
#[derive(Clone, Copy, PartialEq, Eq, Structural, Debug)]
pub enum ChineseScriptPreference {
    /// As it was recognised.
    Auto,
    Simplified,
    Traditional,
}

/// How the dictation key is used.
#[derive(Clone, Copy, PartialEq, Eq, Structural, Debug)]
pub enum HotkeyMode {
    /// One press starts, the next stops.
    Toggle,
    /// Record while the key is held.
    Hold,
    /// A short press toggles, a long one holds.
    Auto,
}

/// The key that triggers dictation.
#[derive(Clone, Copy, PartialEq, Eq, Structural, Debug)]
pub enum HotkeyTrigger {
    RightControl,
    LeftControl,
    RightOption,
    LeftOption,
    RightAlt,
    RightCommand,
    LeftCommand,
    LeftShift,
    RightShift,
    Fn,
    MediaPlayPause,
    /// A combination of keys.
    Custom,
}

/// How text is inserted on Windows.
#[derive(Clone, Copy, PartialEq, Eq, Structural, Debug)]
pub enum WindowsInsertionMode {
    Tsf,
    SendInput,
    Paste,
}

/// The shortcut that pastes.
#[derive(Clone, Copy, PartialEq, Eq, Structural, Debug)]
pub enum PasteShortcut {
    CtrlV,
    CtrlShiftV,
    ShiftInsert,
}

/// Where a history entry came from.
#[derive(Clone, Copy, PartialEq, Eq, Structural, Debug)]
pub enum HistorySource {
    Voice,
}

/// A shortcut: a key and the modifiers that go with it.
#[derive(Debug)]
pub struct ShortcutBinding {
    pub primary: String,
    pub modifiers: Vec<String>,
}

/// The contents of a shortcut.
pub ghost struct BindingRecord {
    pub primary: Seq<char>,
    pub modifiers: Seq<Seq<char>>,
}

impl View for ShortcutBinding {
    type V = BindingRecord;

    open spec fn view(&self) -> BindingRecord {
        BindingRecord { primary: self.primary@, modifiers: texts(self.modifiers@) }
    }
}

impl ShortcutBinding {
    /// Whether two shortcuts are the same.
    pub fn same_as(&self, other: &ShortcutBinding) -> (r: bool)
        ensures
            r == (self@ == other@),
    {
        let n: usize = self.modifiers.len();
        if !same(self.primary.as_str(), other.primary.as_str()) || n != other.modifiers.len() {
            assert(texts(self.modifiers@).len() == n);
            assert(texts(other.modifiers@).len() == other.modifiers@.len());
            return false;
        }
        let mut i: usize = 0;
        while i < n
            invariant
                i <= n == self.modifiers@.len() == other.modifiers@.len(),
                forall|k: int|
                    0 <= k < i ==> #[trigger] texts(self.modifiers@)[k] == texts(
                        other.modifiers@,
                    )[k],
            decreases n - i,
        {
            if !same(self.modifiers[i].as_str(), other.modifiers[i].as_str()) {
                assert(texts(self.modifiers@)[i as int] != texts(other.modifiers@)[i as int]);
                return false;
            }
            i += 1;
        }
        assert(texts(self.modifiers@) =~= texts(other.modifiers@));
        true
    }
}

/// One finished dictation, as the history keeps it.
#[derive(Debug)]
pub struct DictationSession {
    pub id: String,
    pub created_at: String,
    pub source: HistorySource,
    pub raw_transcript: String,
    pub final_text: String,
    pub mode: PolishMode,
    pub style_pack_id: Option<String>,
    pub translation_active: bool,
    pub polish_source: Option<String>,
    pub app_bundle_id: Option<String>,
    pub app_name: Option<String>,
    pub insert_status: InsertStatus,
    pub error_code: Option<String>,
    pub duration_ms: Option<u64>,
    pub dictionary_entry_count: Option<u32>,
    pub has_audio_recording: Option<bool>,
    pub asr_provider: Option<String>,
    pub asr_model: Option<String>,
    pub llm_provider: Option<String>,
    pub llm_model: Option<String>,
    pub asr_ms: Option<u64>,
    pub polish_ms: Option<u64>,
}

/// The contents of an optional text.
pub open spec fn opt_text(s: Option<String>) -> Option<Seq<char>> {
    match s {
        Some(t) => Some(t@),
        None => None,
    }
}

/// A copy of an optional text.
pub fn opt_copy(s: &Option<String>) -> (r: Option<String>)
    ensures
        opt_text(r) == opt_text(*s),
{
    match s {
        Some(t) => Some(t.clone()),
        None => None,
    }
}

/// The contents of a history entry.
pub ghost struct SessionRecord {
    pub id: Seq<char>,
    pub created_at: Seq<char>,
    pub source: HistorySource,
    pub raw_transcript: Seq<char>,
    pub final_text: Seq<char>,
    pub mode: PolishMode,
    pub style_pack_id: Option<Seq<char>>,
    pub translation_active: bool,
    pub polish_source: Option<Seq<char>>,
    pub app_bundle_id: Option<Seq<char>>,
    pub app_name: Option<Seq<char>>,
    pub insert_status: InsertStatus,
    pub error_code: Option<Seq<char>>,
    pub duration_ms: Option<u64>,
    pub dictionary_entry_count: Option<u32>,
    pub has_audio_recording: Option<bool>,
    pub asr_provider: Option<Seq<char>>,
    pub asr_model: Option<Seq<char>>,
    pub llm_provider: Option<Seq<char>>,
    pub llm_model: Option<Seq<char>>,
    pub asr_ms: Option<u64>,
    pub polish_ms: Option<u64>,
}

impl View for DictationSession {
    type V = SessionRecord;

    open spec fn view(&self) -> SessionRecord {
        SessionRecord {
            id: self.id@,
            created_at: self.created_at@,
            source: self.source,
            raw_transcript: self.raw_transcript@,
            final_text: self.final_text@,
            mode: self.mode,
            style_pack_id: opt_text(self.style_pack_id),
            translation_active: self.translation_active,
            polish_source: opt_text(self.polish_source),
            app_bundle_id: opt_text(self.app_bundle_id),
            app_name: opt_text(self.app_name),
            insert_status: self.insert_status,
            error_code: opt_text(self.error_code),
            duration_ms: self.duration_ms,
            dictionary_entry_count: self.dictionary_entry_count,
            has_audio_recording: self.has_audio_recording,
            asr_provider: opt_text(self.asr_provider),
            asr_model: opt_text(self.asr_model),
            llm_provider: opt_text(self.llm_provider),
            llm_model: opt_text(self.llm_model),
            asr_ms: self.asr_ms,
            polish_ms: self.polish_ms,
        }
    }
}

impl DictationSession {
    /// A copy of the entry.
    pub fn copy(&self) -> (r: DictationSession)
        ensures
            r@ == self@,
    {
        DictationSession {
            id: self.id.clone(),
            created_at: self.created_at.clone(),
            source: self.source,
            raw_transcript: self.raw_transcript.clone(),
            final_text: self.final_text.clone(),
            mode: self.mode,
            style_pack_id: opt_copy(&self.style_pack_id),
            translation_active: self.translation_active,
            polish_source: opt_copy(&self.polish_source),
            app_bundle_id: opt_copy(&self.app_bundle_id),
            app_name: opt_copy(&self.app_name),
            insert_status: self.insert_status,
            error_code: opt_copy(&self.error_code),
            duration_ms: self.duration_ms,
            dictionary_entry_count: self.dictionary_entry_count,
            has_audio_recording: self.has_audio_recording,
            asr_provider: opt_copy(&self.asr_provider),
            asr_model: opt_copy(&self.asr_model),
            llm_provider: opt_copy(&self.llm_provider),
            llm_model: opt_copy(&self.llm_model),
            asr_ms: self.asr_ms,
            polish_ms: self.polish_ms,
        }
    }
}

/// The preferences that dictation reads.
#[derive(Debug)]
pub struct UserPreferences {
    pub active_asr_provider: String,
    pub default_mode: PolishMode,
    pub hotkey_mode: HotkeyMode,
    pub dictation_hotkey: ShortcutBinding,
    pub translation_hotkey: ShortcutBinding,
    pub open_app_hotkey: Option<ShortcutBinding>,
    pub streaming_insert: bool,
    pub record_audio_for_debug: bool,
    pub history_retention_days: u32,
    pub history_max_entries: Option<u32>,
    pub audio_recording_max_entries: Option<u32>,
    pub chinese_script_preference: ChineseScriptPreference,
    pub restore_clipboard_after_paste: bool,
    pub allow_non_tsf_insertion_fallback: bool,
    pub windows_insertion_mode: WindowsInsertionMode,
    pub paste_shortcut: PasteShortcut,
    pub mute_during_recording: bool,
    pub microphone_device_name: String,
    pub show_capsule: bool,
}

/// The name under which a capsule state is logged.
pub fn capsule_state_log_name(state: CapsuleState) -> (r: &'static str)
    ensures
        r@ == match state {
            CapsuleState::Idle => "idle"@,
            CapsuleState::Recording => "recording"@,
            CapsuleState::Transcribing => "transcribing"@,
            CapsuleState::Polishing => "polishing"@,
            CapsuleState::Done => "done"@,
            CapsuleState::Cancelled => "cancelled"@,
            CapsuleState::Error => "error"@,
        },
{
    match state {
        CapsuleState::Idle => "idle",
        CapsuleState::Recording => "recording",
        CapsuleState::Transcribing => "transcribing",
        CapsuleState::Polishing => "polishing",
        CapsuleState::Done => "done",
        CapsuleState::Cancelled => "cancelled",
        CapsuleState::Error => "error",
    }
}

} // verus!
