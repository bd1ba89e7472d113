//! Recognising a recording anew: an engine of its own is opened, fed and closed.
use vstd::prelude::*;
use vstd::string::*;

use crate::coordinator::end::TranscribeReply;
use crate::coordinator::inner::{AsrCallLabel, COORDINATOR_GLOBAL_TIMEOUT_SECS};
use crate::persistence::history::{entries, first_entry, in_history, update_entry};
use crate::text::{blank, is_blank, owned, same};
use crate::types::{opt_copy, DictationSession, SessionRecord};

verus! {

/// What is to be done next with the engine.
#[derive(Debug)]
pub enum RetranscribeStep {
    /// Hand over the samples and say that they are all.
    Feed,
    /// Wait for the result, for so many seconds.
    Await { timeout_secs: u64 },
    /// The text or the error. The engine is closed where it was open, and cancelled on top of that
    /// where it belongs to a retry that failed.
    Done { result: Result<String, String>, close: bool, cancel: bool },
}

/// A step, with its texts as sequences.
pub ghost enum RetranscribeStepView {
    Feed,
    Await { timeout_secs: u64 },
    Done { result: Result<Seq<char>, Seq<char>>, close: bool, cancel: bool },
}

impl View for RetranscribeStep {
    type V = RetranscribeStepView;

    open spec fn view(&self) -> RetranscribeStepView {
        match *self {
            RetranscribeStep::Feed => RetranscribeStepView::Feed,
            RetranscribeStep::Await { timeout_secs } => RetranscribeStepView::Await {
                timeout_secs,
            },
            RetranscribeStep::Done { result, close, cancel } => RetranscribeStepView::Done {
                result: match result {
                    Ok(text) => Ok(text@),
                    Err(e) => Err(e@),
                },
                close,
                cancel,
            },
        }
    }
}

/// The text of the error, where there is one.
pub open spec fn error_text(r: Result<(), String>) -> Option<Seq<char>> {
    match r {
        Ok(_) => None,
        Err(e) => Some(e@),
    }
}

/// What follows once the engine was to be opened.
pub open spec fn after_opening(error: Option<Seq<char>>, guarded: bool) -> RetranscribeStepView {
    match error {
        None => RetranscribeStepView::Feed,
        Some(e) => RetranscribeStepView::Done { result: Err(e), close: false, cancel: guarded },
    }
}

/// What follows once the samples were to be handed over.
pub open spec fn after_feeding(error: Option<Seq<char>>, guarded: bool) -> RetranscribeStepView {
    match error {
        None => RetranscribeStepView::Await { timeout_secs: COORDINATOR_GLOBAL_TIMEOUT_SECS },
        Some(e) => RetranscribeStepView::Done { result: Err(e), close: true, cancel: guarded },
    }
}

/// What follows once the engine was to answer.
pub open spec fn after_answer(reply: TranscribeReply, guarded: bool) -> RetranscribeStepView {
    match reply {
        TranscribeReply::Text { text, .. } => RetranscribeStepView::Done {
            result: Ok(text@),
            close: true,
            cancel: false,
        },
        TranscribeReply::Failed(e) => RetranscribeStepView::Done {
            result: Err(e@),
            close: true,
            cancel: guarded,
        },
        TranscribeReply::TimedOut => RetranscribeStepView::Done {
            result: Err("重新转录超时"@),
            close: true,
            cancel: guarded,
        },
    }
}

/// The engine was opened or could not be. `guarded` tells that it belongs to a silent retry.
pub fn retranscription_opened(opened: Result<(), String>, guarded: bool) -> (r: RetranscribeStep)
    ensures
        r@ == after_opening(error_text(opened), guarded),
{
    match opened {
        Ok(_) => RetranscribeStep::Feed,
        Err(e) => RetranscribeStep::Done { result: Err(e), close: false, cancel: guarded },
    }
}

/// The samples were handed over or could not be.
pub fn retranscription_fed(fed: Result<(), String>, guarded: bool) -> (r: RetranscribeStep)
    ensures
        r@ == after_feeding(error_text(fed), guarded),
{
    match fed {
        Ok(_) => RetranscribeStep::Await { timeout_secs: COORDINATOR_GLOBAL_TIMEOUT_SECS },
        Err(e) => RetranscribeStep::Done { result: Err(e), close: true, cancel: guarded },
    }
}

/// The engine has answered, or has not in time.
pub fn retranscription_answered(reply: TranscribeReply, guarded: bool) -> (r: RetranscribeStep)
    ensures
        r@ == after_answer(reply, guarded),
{
    match reply {
        TranscribeReply::Text { text, .. } => RetranscribeStep::Done {
            result: Ok(text),
            close: true,
            cancel: false,
        },
        TranscribeReply::Failed(e) => RetranscribeStep::Done {
            result: Err(e),
            close: true,
            cancel: guarded,
        },
        TranscribeReply::TimedOut => RetranscribeStep::Done {
            result: Err(owned("重新转录超时")),
            close: true,
            cancel: guarded,
        },
    }
}

/// An entry with a text that was recognised anew: the engine and the time it took are those of now,
/// and neither an error nor anything of a language model is left.
pub open spec fn recognised_anew(
    entry: SessionRecord,
    text: Seq<char>,
    provider: Seq<char>,
    model: Option<Seq<char>>,
    asr_ms: u64,
) -> SessionRecord {
    SessionRecord {
        raw_transcript: text,
        final_text: text,
        error_code: None,
        asr_provider: Some(provider),
        asr_model: model,
        asr_ms: Some(asr_ms),
        llm_provider: None,
        llm_model: None,
        polish_ms: None,
        ..entry
    }
}

/// Puts a text that was recognised anew into the history. The entry comes back as it now is, or
/// the error that the user is told; then the history is as it was.
pub fn apply_retranscription(
    sessions: &mut Vec<DictationSession>,
    session_id: &str,
    result: Result<(String, AsrCallLabel), String>,
    asr_ms: u64,
) -> (r: Result<DictationSession, String>)
    ensures
        match result {
            Err(e) => r matches Err(m) && m@ == e@,
            Ok((text, label)) => if blank(text@) {
                r matches Err(m) && m@ == "重新转录仍未识别到语音"@
            } else if !in_history(entries(old(sessions)@), session_id@) {
                r matches Err(m) && m@ == "history entry not found"@
            } else {
                &&& r matches Ok(entry)
                &&& exists|i: int|
                    {
                        &&& #[trigger] first_entry(entries(old(sessions)@), session_id@, i)
                        &&& entry@ == recognised_anew(
                            entries(old(sessions)@)[i],
                            text@,
                            label@.provider,
                            label@.model,
                            asr_ms,
                        )
                        &&& entries(final(sessions)@) == entries(old(sessions)@).update(i, entry@)
                    }
            },
        },
        r is Err ==> final(sessions)@ == old(sessions)@,
{
    let (text, label) = match result {
        Ok(pair) => pair,
        Err(e) => {
            return Err(e);
        },
    };
    if is_blank(text.as_str()) {
        return Err(owned("重新转录仍未识别到语音"));
    }
    let ghost all = entries(sessions@);
    let n: usize = sessions.len();
    let mut i: usize = 0;
    while i < n
        invariant
            i <= n == sessions@.len(),
            sessions@ == old(sessions)@,
            all == entries(sessions@),
            forall|j: int| 0 <= j < i ==> (#[trigger] all[j]).id != session_id@,
            result == Ok::<(String, AsrCallLabel), String>((text, label)),
            !blank(text@),
        decreases n - i,
    {
        if same(sessions[i].id.as_str(), session_id) {
            assert(all[i as int] == sessions@[i as int]@);
            assert(first_entry(all, session_id@, i as int));
            let mut entry = sessions[i].copy();
            entry.raw_transcript = owned(text.as_str());
            entry.final_text = owned(text.as_str());
            entry.error_code = None;
            entry.asr_provider = Some(owned(label.provider.as_str()));
            entry.asr_model = opt_copy(&label.model);
            entry.asr_ms = Some(asr_ms);
            entry.llm_provider = None;
            entry.llm_model = None;
            entry.polish_ms = None;
            let kept = entry.copy();
            assert(kept@ == recognised_anew(
                all[i as int],
                text@,
                label@.provider,
                label@.model,
                asr_ms,
            ));
            let updated = update_entry(sessions, entry);
            proof {
                assert(all[i as int].id == session_id@);
                assert(in_history(all, session_id@));
                let k = choose|k: int|
                    {
                        &&& #[trigger] first_entry(all, session_id@, k)
                        &&& entries(sessions@) == all.update(k, kept@)
                    };
                assert(all[k].id == session_id@);
                assert(k == i);
            }
            return Ok(kept);
        }
        i += 1;
    }
    Err(owned("history entry not found"))
}

/// An engine that was opened is closed however the recognition ends, and one of a silent retry is
/// cancelled exactly if it brought no text.
pub proof fn law_opened_engine_is_closed(
    error: Option<Seq<char>>,
    reply: TranscribeReply,
    guarded: bool,
)
    ensures
        after_feeding(error, guarded) matches RetranscribeStepView::Done { result, close, cancel }
            ==> close && cancel == (guarded && result is Err),
        after_answer(reply, guarded) matches RetranscribeStepView::Done { result, close, cancel }
            && close && cancel == (guarded && result is Err),
{
}

/// An engine that was opened is fed, one that was fed is waited for, for half a minute at most, and
/// its answer is the result. What went wrong on the way is told as it is.
pub proof fn law_recognition_runs_to_its_end(error: Seq<char>, reply: TranscribeReply, guarded: bool)
    ensures
        after_opening(None, guarded) == RetranscribeStepView::Feed,
        after_feeding(None, guarded) == (RetranscribeStepView::Await { timeout_secs: 30 }),
        after_opening(Some(error), guarded) == (RetranscribeStepView::Done {
            result: Err(error),
            close: false,
            cancel: guarded,
        }),
        after_feeding(Some(error), guarded) matches RetranscribeStepView::Done { result, .. }
            && result == Err::<Seq<char>, Seq<char>>(error),
        after_answer(reply, guarded) matches RetranscribeStepView::Done { result, .. } && {
            &&& reply matches TranscribeReply::Text { text, .. } ==> result == Ok::<
                Seq<char>,
                Seq<char>,
            >(text@)
            &&& reply matches TranscribeReply::Failed(e) ==> result == Err::<Seq<char>, Seq<char>>(
                e@,
            )
            &&& reply is TimedOut ==> result is Err
        },
{
}

/// Recognising a recording anew replaces the text of its entry and what is told of the engine, and
/// takes the error away; what the entry tells of the session stays.
pub proof fn law_entry_is_recognised_anew(
    entry: SessionRecord,
    text: Seq<char>,
    provider: Seq<char>,
    model: Option<Seq<char>>,
    asr_ms: u64,
)
    ensures
        ({
            let e = recognised_anew(entry, text, provider, model, asr_ms);
            &&& e.raw_transcript == text && e.final_text == text
            &&& e.error_code is None
            &&& e.asr_provider == Some(provider) && e.asr_model == model
            &&& e.asr_ms == Some(asr_ms)
            &&& e.llm_provider is None && e.llm_model is None && e.polish_ms is None
            &&& e.id == entry.id && e.created_at == entry.created_at
            &&& e.insert_status == entry.insert_status && e.mode == entry.mode
            &&& e.duration_ms == entry.duration_ms
            &&& e.has_audio_recording == entry.has_audio_recording
            &&& e.app_name == entry.app_name && e.source == entry.source
        }),
{
}

/// An engine that does not answer in time is told as such; its own error is told as it is.
pub proof fn law_missing_answer_is_told(e: String, guarded: bool)
    ensures
        after_answer(TranscribeReply::TimedOut, guarded) == (RetranscribeStepView::Done {
            result: Err("重新转录超时"@),
            close: true,
            cancel: guarded,
        }),
        after_answer(TranscribeReply::Failed(e), guarded) == (RetranscribeStepView::Done {
            result: Err(e@),
            close: true,
            cancel: guarded,
        }),
{
}

} // verus!
