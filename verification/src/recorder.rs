//! Rules of the recorder: its errors, its watchdog and its archive.
use vstd::prelude::*;
use vstd::string::*;

use crate::permissions::{is_no_device_error, tells_no_device};
use crate::text::{
    blank, contains, decimal, decimal_text, has_substring, is_blank, join2, join3, lowercase, owned,
    same, trim, trimmed,
};
use crate::types::opt_text;
use crate::wav::appended_size;

verus! {

/// Takes in 16-bit PCM, the lower byte of each sample first.
pub trait AudioConsumer: Send + Sync {
    /// The bytes make whole samples.
    fn consume_pcm_chunk(&self, pcm: &[u8]);
}

/// A microphone.
#[derive(Debug)]
pub struct MicrophoneDevice {
    pub name: String,
    pub is_default: bool,
}

/// What can go wrong with a recording.
#[derive(Debug)]
pub enum RecorderError {
    PermissionDenied,
    NoInputDevice,
    EngineFailed(String),
}

impl RecorderError {
    /// The text of the error.
    pub open spec fn text(self) -> Seq<char> {
        match self {
            RecorderError::PermissionDenied => "microphone permission denied"@,
            RecorderError::NoInputDevice => "no microphone input device detected"@,
            RecorderError::EngineFailed(m) => "audio engine failed: "@ + m@,
        }
    }

    /// The text of the error.
    pub fn message(&self) -> (r: String)
        ensures
            r@ == self.text(),
    {
        match self {
            RecorderError::PermissionDenied => owned("microphone permission denied"),
            RecorderError::NoInputDevice => owned("no microphone input device detected"),
            RecorderError::EngineFailed(m) => join2("audio engine failed: ", m.as_str()),
        }
    }

    /// What the user is told when a recording does not start: what to do, or what went wrong.
    pub open spec fn user_text(self) -> Seq<char> {
        match self {
            RecorderError::NoInputDevice => "未检测到麦克风，请连接麦克风后重试"@,
            RecorderError::PermissionDenied =>
                "需要麦克风权限，请在系统设置中允许 OpenLess 使用麦克风"@,
            RecorderError::EngineFailed(_) => "录音启动失败: "@ + self.text(),
        }
    }

    /// What the user is told when a recording does not start.
    pub fn user_message(&self) -> (r: String)
        ensures
            r@ == self.user_text(),
    {
        match self {
            RecorderError::NoInputDevice => owned("未检测到麦克风，请连接麦克风后重试"),
            RecorderError::PermissionDenied => owned(
                "需要麦克风权限，请在系统设置中允许 OpenLess 使用麦克风",
            ),
            RecorderError::EngineFailed(_) => join2("录音启动失败: ", self.message().as_str()),
        }
    }
}

/// Whether the (lower-case) text of an error tells of a missing permission.
pub open spec fn tells_no_permission(lower: Seq<char>) -> bool {
    has_substring(lower, "permission"@) || has_substring(lower, "denied"@) || has_substring(
        lower,
        "authoriz"@,
    )
}

/// The error for the text of an audio failure, its lower-case text and the step that failed.
pub open spec fn classified(e: RecorderError, msg: Seq<char>, lower: Seq<char>, step: Seq<char>) -> bool {
    if tells_no_device(lower) {
        e is NoInputDevice
    } else if tells_no_permission(lower) {
        e is PermissionDenied
    } else {
        e matches RecorderError::EngineFailed(m) && m@ == step + msg
    }
}

/// What an audio failure means, given its text, its lower-case text and the step that failed.
pub fn classify_lower_error(msg: &str, lower: &str, step: &str) -> (e: RecorderError)
    ensures
        classified(e, msg@, lower@, step@),
{
    if is_no_device_error(lower) {
        RecorderError::NoInputDevice
    } else if contains(lower, "permission") || contains(lower, "denied") || contains(
        lower,
        "authoriz",
    ) {
        RecorderError::PermissionDenied
    } else {
        RecorderError::EngineFailed(join2(step, msg))
    }
}

/// What a failure to read the default input configuration means.
pub fn classify_default_config_err(msg: &str) -> (e: RecorderError)
    ensures
        classified(e, msg@, lowercase(msg@), "default_input_config: "@),
{
    let lower = msg.to_lowercase();
    classify_lower_error(msg, lower.as_str(), "default_input_config: ")
}

/// What a failure to build the input stream means.
pub fn classify_build_stream_err(msg: &str) -> (e: RecorderError)
    ensures
        classified(e, msg@, lowercase(msg@), "build_input_stream: "@),
{
    let lower = msg.to_lowercase();
    classify_lower_error(msg, lower.as_str(), "build_input_stream: ")
}

/// Seconds without a callback after which a recording has died.
pub const CALLBACK_TIMEOUT_SECS: u64 = 3;

/// Seconds within which the first callback must come.
pub const FIRST_CALLBACK_DEADLINE_SECS: u64 = 5;

/// Milliseconds between two looks of the watchdog.
pub const WATCHDOG_CHECK_INTERVAL_MS: u64 = 1000;

/// Milliseconds that the watchdog sleeps at a time, so that a stop need not wait for it.
pub const WATCHDOG_SLEEP_SLICE_MS: u64 = 50;

/// What the watchdog does after a look.
pub enum WatchdogStep {
    /// The recording was stopped on purpose: be silent.
    Stop,
    /// All is well: look again later.
    Continue,
    /// The recording has died: report it, once.
    Report(RecorderError),
}

/// What the watchdog does after a look is right.
pub open spec fn watched(
    stopping: bool,
    since_last: Option<u64>,
    since_start: u64,
    r: WatchdogStep,
) -> bool {
    match r {
        WatchdogStep::Stop => stopping,
        WatchdogStep::Continue => !stopping && match since_last {
            Some(s) => s <= CALLBACK_TIMEOUT_SECS,
            None => since_start <= FIRST_CALLBACK_DEADLINE_SECS,
        },
        WatchdogStep::Report(e) => {
            &&& !stopping
            &&& e is EngineFailed
            &&& match since_last {
                Some(s) => s > CALLBACK_TIMEOUT_SECS && e->EngineFailed_0@ == "录音回调静默停止 "@
                    + decimal(s as nat) + " 秒"@,
                None => since_start > FIRST_CALLBACK_DEADLINE_SECS && e->EngineFailed_0@
                    == "录音启动后 "@ + decimal(since_start as nat) + " 秒内未收到回调"@,
            }
        },
    }
}

/// What the watchdog does. `since_last` is the number of whole seconds since the last callback,
/// where there was one; `since_start` that since the recording began. A stop comes first, so that
/// a recording that was ended is not taken for a dead one.
pub fn watchdog_step(stopping: bool, since_last: Option<u64>, since_start: u64) -> (r: WatchdogStep)
    ensures
        watched(stopping, since_last, since_start, r),
{
    if stopping {
        return WatchdogStep::Stop;
    }
    match since_last {
        Some(s) => {
            if s > CALLBACK_TIMEOUT_SECS {
                return WatchdogStep::Report(
                    RecorderError::EngineFailed(
                        join3("录音回调静默停止 ", decimal_text(s).as_str(), " 秒"),
                    ),
                );
            }
        },
        None => {
            if since_start > FIRST_CALLBACK_DEADLINE_SECS {
                return WatchdogStep::Report(
                    RecorderError::EngineFailed(
                        join3(
                            "录音启动后 ",
                            decimal_text(since_start).as_str(),
                            " 秒内未收到回调",
                        ),
                    ),
                );
            }
        },
    }
    WatchdogStep::Continue
}

/// How long the watchdog sleeps next.
pub open spec fn next_slice(slept_ms: u64) -> Option<u64> {
    if slept_ms >= WATCHDOG_CHECK_INTERVAL_MS {
        None::<u64>
    } else if WATCHDOG_CHECK_INTERVAL_MS - slept_ms < WATCHDOG_SLEEP_SLICE_MS {
        Some((WATCHDOG_CHECK_INTERVAL_MS - slept_ms) as u64)
    } else {
        Some(WATCHDOG_SLEEP_SLICE_MS)
    }
}

/// How long the watchdog sleeps next, having slept that long since its last look; `None` where the
/// next look is due.
pub fn watchdog_slice(slept_ms: u64) -> (r: Option<u64>)
    ensures
        r == next_slice(slept_ms),
{
    if slept_ms >= WATCHDOG_CHECK_INTERVAL_MS {
        return None;
    }
    let rest: u64 = WATCHDOG_CHECK_INTERVAL_MS - slept_ms;
    if rest < WATCHDOG_SLEEP_SLICE_MS {
        Some(rest)
    } else {
        Some(WATCHDOG_SLEEP_SLICE_MS)
    }
}

/// A device of the preferred name, the first of them, stands at `i`.
pub open spec fn preferred_at(names: Seq<Option<Seq<char>>>, name: Seq<char>, i: int) -> bool {
    &&& 0 <= i < names.len()
    &&& names[i] == Some(name)
    &&& forall|j: int| 0 <= j < i ==> names[j] != Some(name)
}

/// The names of devices; some cannot be read.
pub open spec fn device_names(v: Seq<Option<String>>) -> Seq<Option<Seq<char>>> {
    v.map_values(|s: Option<String>| opt_text(s))
}

/// The name of the device that the user prefers, where they have named one.
pub fn preferred_device_name(name: Option<&str>) -> (r: Option<String>)
    ensures
        r is Some <==> name is Some && !blank(name->0@),
        r matches Some(s) ==> s@ == trimmed(name->0@),
{
    match name {
        Some(n) => {
            if is_blank(n) {
                None
            } else {
                Some(trim(n))
            }
        },
        None => None,
    }
}

/// Which of the input devices to record from: the preferred one. `None` stands for the default.
pub fn select_input_device(preferred: Option<&str>, names: &[Option<String>]) -> (r: Option<usize>)
    ensures
        match r {
            Some(i) => preferred is Some && !blank(preferred->0@) && preferred_at(
                device_names(names@),
                trimmed(preferred->0@),
                i as int,
            ),
            None => preferred is Some && !blank(preferred->0@) ==> forall|i: int|
                0 <= i < names@.len() ==> #[trigger] device_names(names@)[i] != Some(
                    trimmed(preferred->0@),
                ),
        },
{
    let wanted = match preferred_device_name(preferred) {
        Some(w) => w,
        None => {
            return None;
        },
    };
    let mut i: usize = 0;
    while i < names.len()
        invariant
            i <= names@.len(),
            preferred is Some && !blank(preferred->0@),
            wanted@ == trimmed(preferred->0@),
            forall|j: int| 0 <= j < i ==> #[trigger] device_names(names@)[j] != Some(wanted@),
        decreases names@.len() - i,
    {
        let hit = match &names[i] {
            Some(name) => same(name.as_str(), wanted.as_str()),
            None => false,
        };
        assert(device_names(names@)[i as int] == opt_text(names@[i as int]));
        if hit {
            return Some(i);
        }
        i += 1;
    }
    None
}

/// The input devices whose names can be read, and which of them is the default one.
pub open spec fn readable_devices(
    names: Seq<Option<Seq<char>>>,
    default: Option<Seq<char>>,
) -> Seq<(Seq<char>, bool)>
    decreases names.len(),
{
    if names.len() == 0 {
        seq![]
    } else {
        let before = readable_devices(names.drop_last(), default);
        match names.last() {
            Some(n) => before.push((n, default == Some(n))),
            None => before,
        }
    }
}

/// The contents of a list of devices.
pub open spec fn devices_view(v: Seq<MicrophoneDevice>) -> Seq<(Seq<char>, bool)> {
    v.map_values(|d: MicrophoneDevice| (d.name@, d.is_default))
}

/// Lists the input devices, given their names and that of the default one.
pub fn list_input_devices(names: &[Option<String>], default_name: &Option<String>) -> (r: Vec<
    MicrophoneDevice,
>)
    ensures
        devices_view(r@) == readable_devices(device_names(names@), opt_text(*default_name)),
{
    let ghost all = device_names(names@);
    let mut r: Vec<MicrophoneDevice> = Vec::new();
    let mut i: usize = 0;
    assert(devices_view(r@) =~= readable_devices(all.take(0), opt_text(*default_name)));
    while i < names.len()
        invariant
            i <= names@.len(),
            all == device_names(names@),
            devices_view(r@) == readable_devices(all.take(i as int), opt_text(*default_name)),
        decreases names@.len() - i,
    {
        proof {
            assert(all.take(i + 1).drop_last() =~= all.take(i as int));
            assert(all.take(i + 1).last() == opt_text(names@[i as int]));
        }
        match &names[i] {
            Some(name) => {
                let is_default = match default_name {
                    Some(d) => same(d.as_str(), name.as_str()),
                    None => false,
                };
                let ghost before = devices_view(r@);
                r.push(MicrophoneDevice { name: name.clone(), is_default });
                assert(devices_view(r@) =~= before.push((name@, is_default)));
            },
            None => {},
        }
        i += 1;
    }
    assert(all.take(i as int) =~= all);
    r
}

/// How much of a recording has been written after so many bytes were to be appended.
pub open spec fn archived(bytes_written: u32, len: int, written: bool) -> int {
    if !written {
        bytes_written as int
    } else if bytes_written + len > u32::MAX {
        u32::MAX as int
    } else {
        bytes_written + len
    }
}

/// The archive of a recording: how much of it has been written.
pub struct WavArchive {
    pub bytes_written: u32,
}

impl WavArchive {
    /// Counts bytes that were to be appended; those that could not be written do not count.
    pub fn append(&mut self, len: usize, written: bool)
        ensures
            final(self).bytes_written == archived(old(self).bytes_written, len as int, written),
    {
        if written {
            self.bytes_written = appended_size(self.bytes_written, len);
        }
    }
}

/// A recording that was stopped on purpose is never reported. Else it is reported exactly where no
/// callback came for more than three seconds, or not even a first one within five seconds.
pub proof fn law_dead_recording_is_reported(
    stopping: bool,
    since_last: Option<u64>,
    since_start: u64,
    r: WatchdogStep,
)
    requires
        watched(stopping, since_last, since_start, r),
    ensures
        stopping <==> r is Stop,
        !stopping && since_last is Some ==> (r is Report <==> since_last->0 > 3),
        !stopping && since_last is None ==> (r is Report <==> since_start > 5),
        r matches WatchdogStep::Report(RecorderError::EngineFailed(m)) ==> (match since_last {
            Some(s) => m@ == "录音回调静默停止 "@ + decimal(s as nat) + " 秒"@,
            None => m@ == "录音启动后 "@ + decimal(since_start as nat) + " 秒内未收到回调"@,
        }),
        r matches WatchdogStep::Report(e) ==> e is EngineFailed,
{
}

/// The watchdog looks once a second. Until then it sleeps in slices of at most 50 milliseconds, so
/// that a stop is noticed soon, and never past the second.
pub proof fn law_watchdog_looks_every_second(slept_ms: u64)
    ensures
        next_slice(slept_ms) is None <==> slept_ms >= 1000,
        next_slice(slept_ms) matches Some(w) ==> 0 < w <= 50 && slept_ms + w <= 1000 && (w < 50
            ==> slept_ms + w == 1000),
{
}

/// Bytes that could not be written do not count; the others do, as far as the number can hold them.
pub proof fn law_written_bytes_count(bytes_written: u32, len: int)
    requires
        len >= 0,
    ensures
        archived(bytes_written, len, false) == bytes_written,
        bytes_written + len <= u32::MAX ==> archived(bytes_written, len, true) == bytes_written
            + len,
        bytes_written <= archived(bytes_written, len, true) <= u32::MAX,
        bytes_written + len > u32::MAX ==> archived(bytes_written, len, true) == u32::MAX,
{
}

/// The preferred device is the first one of its name.
pub proof fn law_first_device_of_the_name(
    names: Seq<Option<Seq<char>>>,
    name: Seq<char>,
    i: int,
    j: int,
)
    requires
        preferred_at(names, name, i),
        0 <= j < names.len(),
        names[j] == Some(name),
    ensures
        0 <= i <= j,
        names[i] == Some(name),
        (forall|k: int| 0 <= k < j ==> names[k] != Some(name)) ==> preferred_at(names, name, j),
{
}

/// Devices are listed in their order, but for those whose names cannot be read; one is the default
/// exactly where it has the name of the default device.
pub proof fn law_readable_devices_are_listed(
    names: Seq<Option<Seq<char>>>,
    default: Option<Seq<char>>,
    name: Seq<char>,
)
    ensures
        readable_devices(Seq::empty(), default).len() == 0,
        readable_devices(names.push(None), default) == readable_devices(names, default),
        readable_devices(names.push(Some(name)), default).drop_last() == readable_devices(
            names,
            default,
        ),
        readable_devices(names.push(Some(name)), default).last().0 == name,
        readable_devices(names.push(Some(name)), default).last().1 <==> default is Some
            && default->0 == name,
{
    assert(names.push(None).drop_last() =~= names);
    assert(names.push(Some(name)).drop_last() =~= names);
    let before = readable_devices(names, default);
    assert(before.push((name, default == Some(name))).drop_last() =~= before);
}

/// What an audio failure is taken for: a missing device before a missing permission, and either
/// before anything else, of which the step that failed and the system's own words are told.
pub proof fn law_failure_is_classified(
    e: RecorderError,
    msg: Seq<char>,
    lower: Seq<char>,
    step: Seq<char>,
)
    requires
        classified(e, msg, lower, step),
    ensures
        e is NoInputDevice <==> tells_no_device(lower),
        e is PermissionDenied <==> !tells_no_device(lower) && (has_substring(lower, "permission"@)
            || has_substring(lower, "denied"@) || has_substring(lower, "authoriz"@)),
        e matches RecorderError::EngineFailed(m) ==> m@ == step + msg,
{
}

/// The user is told what to do where there is something to do, and else what went wrong.
pub proof fn law_failure_is_told(e: RecorderError)
    ensures
        e is NoInputDevice ==> e.user_text() == "未检测到麦克风，请连接麦克风后重试"@,
        e is PermissionDenied ==> e.user_text()
            == "需要麦克风权限，请在系统设置中允许 OpenLess 使用麦克风"@,
        e matches RecorderError::EngineFailed(m) ==> e.user_text() == "录音启动失败: "@
            + ("audio engine failed: "@ + m@),
        e is NoInputDevice ==> e.text() == "no microphone input device detected"@,
        e is PermissionDenied ==> e.text() == "microphone permission denied"@,
{
}

} // verus!
