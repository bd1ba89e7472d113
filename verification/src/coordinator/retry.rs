//! Silent retries: where the engine failed, the recording is recognised anew, a few times.
use vstd::prelude::*;
use vstd::string::*;

use crate::asr::RawTranscript;
use crate::coordinator::inner::{opt_label, AsrCallLabel, Coordinator, LabelRecord};
use crate::text::{blank, contains, has_substring, is_blank};
use crate::wav::{duration, pcm_duration_ms, pcm_from_wav_bytes, samples_in};

verus! {

/// How often a recording is recognised anew.
pub const SILENT_RETRY_MAX: u32 = 2;

/// The wait before the first retry; before the next one it is twice as long, in milliseconds.
pub const SILENT_RETRY_BACKOFF_MS: u64 = 500;

/// Whether a retry makes sense.
#[derive(Clone, Copy, PartialEq, Eq, Structural, Debug)]
pub enum RetryGate {
    Cancelled,
    /// The recording was not kept.
    Exhausted,
    /// Read the recording.
    ReadRecording,
}

/// Whether a retry makes sense.
pub open spec fn gate(cancelled: bool, recording_kept: bool) -> RetryGate {
    if cancelled {
        RetryGate::Cancelled
    } else if !recording_kept {
        RetryGate::Exhausted
    } else {
        RetryGate::ReadRecording
    }
}

impl Coordinator {
    /// Whether a retry makes sense: not where the user has cancelled or nothing was kept.
    pub fn retry_gate(&self) -> (r: RetryGate)
        ensures
            r == gate(self.state.cancelled, self.audio_archive_active),
    {
        if self.state.cancelled {
            RetryGate::Cancelled
        } else if !self.audio_archive_active {
            RetryGate::Exhausted
        } else {
            RetryGate::ReadRecording
        }
    }
}

/// Retries of one recording.
#[derive(Debug)]
pub struct SilentRetry {
    /// Which retry comes next, counted from one.
    pub attempt: u32,
    /// How long the recording is.
    pub duration_ms: u64,
    /// The engine that was tried last.
    pub last_label: Option<AsrCallLabel>,
}

/// What comes after a retry.
#[derive(Debug)]
pub enum RetryStep {
    Transcript { raw: RawTranscript, label: AsrCallLabel },
    /// No more retries; the engine that was tried last.
    Exhausted(Option<AsrCallLabel>),
    /// Try once more after this wait.
    Again { backoff_ms: u64 },
}

/// The engine that was tried last, after one more try.
pub open spec fn last_tried(before: Option<LabelRecord>, tried: Option<LabelRecord>) -> Option<
    LabelRecord,
> {
    if tried is Some {
        tried
    } else {
        before
    }
}

/// An error after which no retry helps: too many sessions are open.
pub open spec fn gives_up(error: Seq<char>) -> bool {
    has_substring(error, "40200011"@)
}

/// A retry that failed so is followed by another.
pub open spec fn tries_again(error: Seq<char>, attempt: u32) -> bool {
    !gives_up(error) && attempt != SILENT_RETRY_MAX
}

/// The wait before a retry, in milliseconds.
pub open spec fn wait_before(attempt: u32) -> u64 {
    (SILENT_RETRY_BACKOFF_MS * attempt) as u64
}

impl SilentRetry {
    /// The next retry is one of those that are allowed.
    pub open spec fn valid(self) -> bool {
        1 <= self.attempt <= SILENT_RETRY_MAX
    }

    /// The retries of a recording, given as the contents of a WAV file, and its samples; none
    /// where it holds no samples.
    pub fn start(wav: &[u8]) -> (r: Option<(SilentRetry, Vec<u8>)>)
        ensures
            match r {
                Some((retry, pcm)) => {
                    &&& samples_in(wav@) == Some(pcm@)
                    &&& retry == (SilentRetry {
                        attempt: 1,
                        duration_ms: duration(pcm@.len() as int) as u64,
                        last_label: None,
                    })
                    &&& retry.valid()
                },
                None => samples_in(wav@) is None,
            },
    {
        match pcm_from_wav_bytes(wav) {
            Some(pcm) => {
                let duration_ms: u64 = pcm_duration_ms(pcm.len());
                Some((SilentRetry { attempt: 1, duration_ms, last_label: None }, pcm))
            },
            None => None,
        }
    }

    /// The wait before the next retry, in milliseconds.
    pub fn backoff_ms(&self) -> (r: u64)
        requires
            self.valid(),
        ensures
            r == wait_before(self.attempt),
    {
        SILENT_RETRY_BACKOFF_MS * self.attempt as u64
    }

    /// A retry came out so, with that engine. A recognised text always has one.
    pub fn attempt_done(&mut self, result: Result<String, String>, tried: Option<AsrCallLabel>) -> (r:
        RetryStep)
        requires
            old(self).valid(),
            result matches Ok(text) ==> blank(text@) || tried is Some,
        ensures
            final(self).valid(),
            final(self).duration_ms == old(self).duration_ms,
            ({
                let tried_last = last_tried(opt_label(old(self).last_label), opt_label(tried));
                match result {
                    Ok(text) => if blank(text@) {
                        r matches RetryStep::Exhausted(l) && opt_label(l) == tried_last
                    } else {
                        &&& r matches RetryStep::Transcript { raw, label }
                        &&& raw.text@ == text@
                        &&& raw.duration_ms == old(self).duration_ms
                        &&& Some(label@) == opt_label(tried)
                    },
                    Err(e) => if !tries_again(e@, old(self).attempt) {
                        r matches RetryStep::Exhausted(l) && opt_label(l) == tried_last
                    } else {
                        &&& r == (RetryStep::Again {
                            backoff_ms: wait_before((old(self).attempt + 1) as u32),
                        })
                        &&& final(self).attempt == old(self).attempt + 1
                        &&& opt_label(final(self).last_label) == tried_last
                    },
                }
            }),
    {
        match result {
            Ok(text) => {
                if !is_blank(text.as_str()) {
                    match tried {
                        Some(label) => {
                            return RetryStep::Transcript {
                                raw: RawTranscript { text, duration_ms: self.duration_ms },
                                label,
                            };
                        },
                        None => {},
                    }
                }
                let kept = match tried {
                    Some(label) => Some(label),
                    None => self.last_label.take(),
                };
                RetryStep::Exhausted(kept)
            },
            Err(e) => {
                let kept = match tried {
                    Some(label) => Some(label),
                    None => self.last_label.take(),
                };
                if contains(e.as_str(), "40200011") || self.attempt >= SILENT_RETRY_MAX {
                    return RetryStep::Exhausted(kept);
                }
                self.attempt = self.attempt + 1;
                self.last_label = kept;
                RetryStep::Again { backoff_ms: self.backoff_ms() }
            },
        }
    }
}

/// A text that a retry brought counts as the transcript, and its engine as the one that was used.
pub fn accept_silent_retry_transcript(
    raw: RawTranscript,
    retry_label: AsrCallLabel,
    label: &mut Option<AsrCallLabel>,
) -> (r: RawTranscript)
    ensures
        r == raw,
        *final(label) == Some(retry_label),
{
    *label = Some(retry_label);
    raw
}

/// The wait before each retry from that one on, all together, in milliseconds.
pub open spec fn waits_from(attempt: int) -> int
    decreases SILENT_RETRY_MAX + 1 - attempt,
{
    if attempt < 1 || attempt > SILENT_RETRY_MAX {
        0
    } else {
        SILENT_RETRY_BACKOFF_MS * attempt + waits_from(attempt + 1)
    }
}

/// However often the engine fails, all waits together take no more than a second and a half.
pub proof fn law_retries_come_to_an_end(attempt: int)
    ensures
        waits_from(attempt) <= 1500,
{
    reveal_with_fuel(waits_from, 4);
}

/// A recording is recognised anew twice at most, after half a second and after another second; where
/// too many sessions are open, a retry would only make it worse. The engine that is told is the one
/// that was tried last.
pub proof fn law_retries_are_few(
    retry: SilentRetry,
    error: Seq<char>,
    before: Option<LabelRecord>,
    tried: LabelRecord,
)
    ensures
        retry.valid() <==> retry.attempt == 1 || retry.attempt == 2,
        waits_from(1) == 500 + 1000,
        waits_from(2) == 1000,
        waits_from(3) == 0,
        gives_up(error) <==> has_substring(error, seq!['4', '0', '2', '0', '0', '0', '1', '1']),
        last_tried(before, Some(tried)) == Some(tried),
        last_tried(before, None) == before,
{
    reveal_strlit("40200011");
    assert("40200011"@ =~= seq!['4', '0', '2', '0', '0', '0', '1', '1']);
    reveal_with_fuel(waits_from, 4);
}

/// A recording is read for a retry only where it was kept and the user has not cancelled.
pub proof fn law_cancelled_recording_is_not_read(cancelled: bool, recording_kept: bool)
    ensures
        gate(cancelled, recording_kept) == RetryGate::ReadRecording <==> !cancelled
            && recording_kept,
        cancelled ==> gate(cancelled, recording_kept) == RetryGate::Cancelled,
{
}

/// After the first retry there is a second one, unless too many sessions are open, and after the
/// second none; the first comes after half a second, the second after another second.
pub proof fn law_second_retry_is_the_last(error: Seq<char>)
    ensures
        tries_again(error, 1) <==> !has_substring(
            error,
            seq!['4', '0', '2', '0', '0', '0', '1', '1'],
        ),
        !tries_again(error, 2),
        wait_before(1) == 500,
        wait_before(2) == 1000,
{
    reveal_strlit("40200011");
    assert("40200011"@ =~= seq!['4', '0', '2', '0', '0', '0', '1', '1']);
}

} // verus!
