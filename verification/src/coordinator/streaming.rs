//! The final text and what is told of it; typing text as it comes.
use vstd::prelude::*;
use vstd::string::*;

use crate::coordinator::asr_wiring::{apply_chinese_script_preference, script_preferred};
use crate::insertion::TypeFailure;
use crate::text::{
    blank, decimal, decimal_text, first_chars, first_n_chars, is_blank, owned, texts, to_chars,
    trim, trimmed,
};
use crate::types::{opt_text, ChineseScriptPreference, InsertStatus, Platform, WindowsInsertionMode};

verus! {

/// The final text.
pub open spec fn finalized(
    polished: Seq<char>,
    translation_active: bool,
    polish_failed: bool,
    pref: ChineseScriptPreference,
    already_streamed: bool,
) -> Seq<char> {
    if already_streamed || (translation_active && !polish_failed) {
        polished
    } else {
        script_preferred(polished, pref)
    }
}

/// The final text. Text that was typed as it came stays as it is; of a translation, only the
/// original that takes its place when it failed is written in the preferred script.
pub fn finalize_polished_text(
    polished: String,
    translation_active: bool,
    polish_failed: bool,
    pref: ChineseScriptPreference,
    already_streamed: bool,
) -> (r: String)
    ensures
        r@ == finalized(polished@, translation_active, polish_failed, pref, already_streamed),
{
    if already_streamed {
        return polished;
    }
    if translation_active && !polish_failed {
        return polished;
    }
    apply_chinese_script_preference(polished.as_str(), pref)
}

/// What the user is told once text was to be inserted, where anything.
pub open spec fn done_message(
    platform: Platform,
    status: InsertStatus,
    polish_failed: bool,
) -> Option<Seq<char>> {
    if polish_failed {
        Some("润色失败，已插入原文"@)
    } else {
        match status {
            InsertStatus::Inserted => None,
            InsertStatus::PasteSent => Some("已尝试粘贴"@),
            InsertStatus::CopiedFallback => if platform == Platform::Windows {
                Some("已复制，请 Ctrl+V"@)
            } else {
                Some("已复制，请粘贴"@)
            },
            InsertStatus::Failed => Some("插入失败"@),
        }
    }
}

/// What the user is told once text was to be inserted.
pub fn default_done_message(platform: Platform, status: InsertStatus, polish_failed: bool) -> (r:
    Option<String>)
    ensures
        opt_text(r) == done_message(platform, status, polish_failed),
{
    if polish_failed {
        return Some(owned("润色失败，已插入原文"));
    }
    match status {
        InsertStatus::Inserted => None,
        InsertStatus::PasteSent => Some(owned("已尝试粘贴")),
        InsertStatus::CopiedFallback => {
            if platform == Platform::Windows {
                Some(owned("已复制，请 Ctrl+V"))
            } else {
                Some(owned("已复制，请粘贴"))
            }
        },
        InsertStatus::Failed => Some(owned("插入失败")),
    }
}

/// The code under which the history keeps what went wrong, where anything.
pub open spec fn error_code(
    platform: Platform,
    status: InsertStatus,
    polish_failed: bool,
    focus_ready: bool,
    allow_fallback: bool,
    mode: WindowsInsertionMode,
) -> Option<Seq<char>> {
    if !focus_ready && status == InsertStatus::Failed {
        Some("focusRestoreFailed"@)
    } else if platform == Platform::Windows && !allow_fallback && mode == WindowsInsertionMode::Tsf
        && status == InsertStatus::Failed {
        Some("windowsImeTsfRequired"@)
    } else if polish_failed {
        Some("polishFailed"@)
    } else {
        None
    }
}

/// The contents of an optional constant text.
pub open spec fn opt_static(s: Option<&'static str>) -> Option<Seq<char>> {
    match s {
        Some(t) => Some(t@),
        None => None,
    }
}

/// The code under which the history keeps what went wrong.
pub fn dictation_error_code(
    platform: Platform,
    status: InsertStatus,
    polish_failed: bool,
    focus_ready: bool,
    allow_fallback: bool,
    mode: WindowsInsertionMode,
) -> (r: Option<&'static str>)
    ensures
        opt_static(r) == error_code(
            platform,
            status,
            polish_failed,
            focus_ready,
            allow_fallback,
            mode,
        ),
{
    if !focus_ready && status == InsertStatus::Failed {
        Some("focusRestoreFailed")
    } else if platform == Platform::Windows && focus_ready && !allow_fallback && mode
        == WindowsInsertionMode::Tsf && status == InsertStatus::Failed {
        Some("windowsImeTsfRequired")
    } else if polish_failed {
        Some("polishFailed")
    } else {
        None
    }
}

/// The transcript, where there is a text for debugging.
pub open spec fn overridden(text: Seq<char>, debug_text: Seq<char>) -> Seq<char> {
    if blank(text) && !blank(debug_text) {
        trimmed(debug_text)
    } else {
        text
    }
}

/// The transcript, or a text for debugging that takes the place of a blank one.
pub fn transcript_or_override(text: String, debug_text: Option<&str>) -> (r: String)
    ensures
        r@ == match debug_text {
            Some(d) => overridden(text@, d@),
            None => text@,
        },
{
    match debug_text {
        Some(d) => {
            if is_blank(text.as_str()) && !is_blank(d) {
                trim(d)
            } else {
                text
            }
        },
        None => text,
    }
}

/// Appends the first characters of a text, as many as were typed. The result is how many that were.
pub fn append_typed_prefix(target: &mut String, delta: &str, typed_chars: usize) -> (appended:
    usize)
    ensures
        final(target)@ == old(target)@ + first_chars(delta@, typed_chars as int),
        appended == first_chars(delta@, typed_chars as int).len(),
{
    let prefix = first_n_chars(delta, typed_chars);
    target.append(prefix.as_str());
    to_chars(prefix.as_str()).len()
}

/// What is told where fewer characters were typed than there were, without an error.
pub open spec fn short_typing(appended: nat, wanted: nat) -> Seq<char> {
    "type_unicode_chunk typed only "@ + decimal(appended) + "/"@ + decimal(wanted)
        + " chars without error"@
}

/// What typing a text came to: what was typed of it, and what went wrong, where anything.
pub open spec fn typed_of(delta: Seq<char>, typed: Result<usize, TypeFailure>) -> Seq<char> {
    match typed {
        Ok(n) => first_chars(delta, n as int),
        Err(e) => first_chars(delta, e.typed_chars as int),
    }
}

/// What went wrong with typing a text, where anything.
pub open spec fn typing_problem(delta: Seq<char>, typed: Result<usize, TypeFailure>) -> Option<
    Seq<char>,
> {
    match typed {
        Ok(n) => if n < delta.len() {
            Some(short_typing(n as nat, delta.len()))
        } else {
            None
        },
        Err(e) => Some(e.message@),
    }
}

/// Types the text that waits, and keeps what was typed of it. Nothing waits afterwards. Where
/// nothing waits, nothing is typed.
pub fn flush_streaming_insert_buffer_with<F>(
    pending: &mut String,
    typed_text: &mut String,
    type_chunk: F,
) -> (r: Option<String>) where F: FnOnce(&str) -> Result<usize, TypeFailure>
    requires
        old(pending)@.len() > 0 ==> forall|s: &str|
            s@ == old(pending)@ ==> call_requires(type_chunk, (s,)),
    ensures
        old(pending)@.len() == 0 ==> {
            &&& r is None
            &&& final(pending)@ == old(pending)@
            &&& final(typed_text)@ == old(typed_text)@
        },
        old(pending)@.len() > 0 ==> exists|s: &str, typed: Result<usize, TypeFailure>|
            {
                &&& #[trigger] call_ensures(type_chunk, (s,), typed)
                &&& s@ == old(pending)@
                &&& final(typed_text)@ == old(typed_text)@ + typed_of(old(pending)@, typed)
                &&& opt_text(r) == typing_problem(old(pending)@, typed)
                &&& final(pending)@.len() == 0
            },
{
    if pending.as_str().is_empty() {
        return None;
    }
    let delta = owned(pending.as_str());
    *pending = String::new();
    let delta_chars: usize = to_chars(delta.as_str()).len();
    let typed = type_chunk(delta.as_str());
    match typed {
        Ok(typed_chars) => {
            let appended: usize = append_typed_prefix(typed_text, delta.as_str(), typed_chars);
            if appended < delta_chars {
                let mut reason = owned("type_unicode_chunk typed only ");
                reason.append(decimal_text(appended as u64).as_str());
                reason.append("/");
                reason.append(decimal_text(delta_chars as u64).as_str());
                reason.append(" chars without error");
                Some(reason)
            } else {
                None
            }
        },
        Err(e) => {
            append_typed_prefix(typed_text, delta.as_str(), e.typed_chars);
            Some(e.message)
        },
    }
}

/// Texts that wait to be typed together: those that come within one interval after the first.
#[derive(Debug)]
pub struct StreamingInsert {
    pub pending: String,
    pub typed: String,
    pub failure: Option<String>,
    /// When the texts that wait are typed, in nanoseconds of a monotonic clock.
    pub flush_at: Option<u64>,
}

/// When the texts that wait are typed, once one more came.
pub open spec fn flush_time(flush_at: Option<u64>, failed: bool, now: u64, interval: u64) -> Option<
    u64,
> {
    if !failed && flush_at is None {
        Some((now + interval) as u64)
    } else {
        flush_at
    }
}

/// How long to wait until then.
pub open spec fn wait_until(flush_at: Option<u64>, now: u64) -> Option<u64> {
    match flush_at {
        Some(at) => Some(
            if at > now {
                (at - now) as u64
            } else {
                0
            },
        ),
        None => None,
    }
}

impl StreamingInsert {
    /// Nothing waits and nothing was typed.
    pub fn new() -> (r: StreamingInsert)
        ensures
            r.pending@.len() == 0,
            r.typed@.len() == 0,
            r.failure is None,
            r.flush_at is None,
    {
        StreamingInsert {
            pending: String::new(),
            typed: String::new(),
            failure: None,
            flush_at: None,
        }
    }

    /// A text came. The first one that waits says when all of them are typed. After a failure every
    /// text is dropped.
    pub fn push(&mut self, delta: &str, now: u64, interval: u64)
        requires
            now + interval <= u64::MAX,
        ensures
            old(self).failure is Some ==> *final(self) == *old(self),
            old(self).failure is None ==> final(self).pending@ == old(self).pending@ + delta@,
            final(self).typed == old(self).typed,
            final(self).failure == old(self).failure,
            final(self).flush_at == flush_time(
                old(self).flush_at,
                old(self).failure is Some,
                now,
                interval,
            ),
    {
        if self.failure.is_none() {
            self.pending.append(delta);
            if self.flush_at.is_none() {
                self.flush_at = Some(now + interval);
            }
        }
    }

    /// How long to wait for more texts before those that wait are typed: forever where none does.
    pub fn remaining(&self, now: u64) -> (r: Option<u64>)
        ensures
            r == wait_until(self.flush_at, now),
    {
        match self.flush_at {
            Some(at) => {
                if at > now {
                    Some(at - now)
                } else {
                    Some(0)
                }
            },
            None => None,
        }
    }

    /// The texts so far are typed, unless something went wrong before.
    pub fn flush<F>(&mut self, type_chunk: F) where F: FnOnce(&str) -> Result<usize, TypeFailure>
        requires
            old(self).failure is None && old(self).pending@.len() > 0 ==> forall|s: &str|
                s@ == old(self).pending@ ==> call_requires(type_chunk, (s,)),
        ensures
            final(self).flush_at is None,
            old(self).failure is Some || old(self).pending@.len() == 0 ==> {
                &&& final(self).pending@ == old(self).pending@
                &&& final(self).typed@ == old(self).typed@
                &&& final(self).failure == old(self).failure
            },
            old(self).failure is None && old(self).pending@.len() > 0 ==> exists|
                s: &str,
                typed: Result<usize, TypeFailure>,
            |
                {
                    &&& #[trigger] call_ensures(type_chunk, (s,), typed)
                    &&& s@ == old(self).pending@
                    &&& final(self).typed@ == old(self).typed@ + typed_of(
                        old(self).pending@,
                        typed,
                    )
                    &&& opt_text(final(self).failure) == typing_problem(old(self).pending@, typed)
                    &&& final(self).pending@.len() == 0
                },
    {
        self.flush_at = None;
        if self.failure.is_none() {
            self.failure =
            flush_streaming_insert_buffer_with(&mut self.pending, &mut self.typed, type_chunk);
        }
    }
}

/// What is typed is always the beginning of what was to be typed, and all of it where nothing went
/// wrong.
pub proof fn law_typed_text_is_what_came(delta: Seq<char>, typed: Result<usize, TypeFailure>)
    ensures
        typed_of(delta, typed).is_prefix_of(delta),
        typing_problem(delta, typed) is None ==> typed_of(delta, typed) == delta,
{
}

/// What is typed is counted in characters: as many as were typed stand at the cursor, and it is told
/// where they are fewer than there were.
pub proof fn law_typed_characters_are_counted(delta: Seq<char>, typed: Result<usize, TypeFailure>)
    ensures
        ({
            let n: usize = match typed {
                Ok(n) => n,
                Err(e) => e.typed_chars,
            };
            let stands = typed_of(delta, typed);
            &&& n <= delta.len() ==> stands.len() == n
            &&& n > delta.len() ==> stands == delta
            &&& forall|i: int| 0 <= i < stands.len() ==> stands[i] == delta[i]
            &&& typed is Ok ==> (typing_problem(delta, typed) is None <==> n >= delta.len())
            &&& typed matches Err(e) ==> typing_problem(delta, typed) == Some(e.message@)
        }),
{
}

/// Text that stands at the cursor already is not changed any more, and neither is a translation; any
/// other text, and the original that takes the place of a translation that failed, is written in the
/// preferred script.
pub proof fn law_inserted_text_is_final(
    polished: Seq<char>,
    translation_active: bool,
    polish_failed: bool,
    pref: ChineseScriptPreference,
)
    ensures
        finalized(polished, translation_active, polish_failed, pref, true) == polished,
        finalized(polished, true, false, pref, false) == polished,
        finalized(polished, false, polish_failed, pref, false) == script_preferred(polished, pref),
        finalized(polished, translation_active, true, pref, false) == script_preferred(
            polished,
            pref,
        ),
{
}

/// Typing that stopped short without an error is told with how many characters were typed of how
/// many.
pub proof fn law_short_typing_is_told(appended: nat, wanted: nat)
    ensures
        short_typing(appended, wanted) == "type_unicode_chunk typed only "@ + decimal(appended)
            + "/"@ + decimal(wanted) + " chars without error"@,
{
}

/// A text for debugging takes the place of a transcript only where that is blank.
pub proof fn law_transcript_is_not_overridden(text: Seq<char>, debug_text: Seq<char>)
    ensures
        !blank(text) ==> overridden(text, debug_text) == text,
        blank(debug_text) ==> overridden(text, debug_text) == text,
        blank(text) && !blank(debug_text) ==> overridden(text, debug_text) == trimmed(debug_text),
{
}

/// The first text that waits says when all of them are typed: one interval after it came. Those that
/// come later do not put it off, and the wait is never longer than the interval.
pub proof fn law_texts_wait_one_interval(at: u64, now: u64, interval: u64)
    requires
        now + interval <= u64::MAX,
    ensures
        flush_time(None, false, now, interval) == Some((now + interval) as u64),
        wait_until(flush_time(None, false, now, interval), now) == Some(interval),
        flush_time(Some(at), false, now, interval) == Some(at),
        flush_time(None, true, now, interval) is None,
        wait_until(None, now) is None,
        wait_until(Some(at), now) matches Some(w) && now + w >= at && (w > 0 ==> now + w == at),
{
}

/// What the user is told of an insertion: nothing where the text arrived, what to do where it is on
/// the clipboard, and before all else that the text was not reworked.
pub proof fn law_user_is_told_what_to_do(
    platform: Platform,
    status: InsertStatus,
    polish_failed: bool,
)
    ensures
        polish_failed ==> done_message(platform, status, polish_failed) == Some(
            "润色失败，已插入原文"@,
        ),
        done_message(platform, InsertStatus::Inserted, false) is None,
        done_message(platform, InsertStatus::PasteSent, false) == Some("已尝试粘贴"@),
        done_message(platform, InsertStatus::Failed, false) == Some("插入失败"@),
        done_message(Platform::Windows, InsertStatus::CopiedFallback, false) == Some(
            "已复制，请 Ctrl+V"@,
        ),
        platform != Platform::Windows ==> done_message(
            platform,
            InsertStatus::CopiedFallback,
            false,
        ) == Some("已复制，请粘贴"@),
{
}

/// What the history keeps of an insertion that went wrong: a window that did not come back before a
/// missing input method, and either before text that was not reworked.
pub proof fn law_error_codes(
    platform: Platform,
    status: InsertStatus,
    polish_failed: bool,
    focus_ready: bool,
    allow_fallback: bool,
    mode: WindowsInsertionMode,
)
    ensures
        ({
            let code = error_code(
                platform,
                status,
                polish_failed,
                focus_ready,
                allow_fallback,
                mode,
            );
            let no_method = platform == Platform::Windows && !allow_fallback && mode
                == WindowsInsertionMode::Tsf;
            &&& status == InsertStatus::Failed && !focus_ready ==> code == Some(
                "focusRestoreFailed"@,
            )
            &&& status == InsertStatus::Failed && focus_ready && no_method ==> code == Some(
                "windowsImeTsfRequired"@,
            )
            &&& status != InsertStatus::Failed || (focus_ready && !no_method) ==> code == (
            if polish_failed {
                Some("polishFailed"@)
            } else {
                None
            })
        }),
{
}

} // verus!
