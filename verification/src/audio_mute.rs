//! Muting the system's output while a recording runs.
use vstd::prelude::*;
use vstd::string::*;

use crate::text::{
    ascii_lowered, contains, has_substring, join2, law_substring_has_surroundings, lower_ascii,
    owned, same, texts, trim, trimmed,
};
use crate::types::Platform;

verus! {

/// By what the output is muted.
#[derive(Clone, Copy, PartialEq, Eq, Structural, Debug)]
pub enum Backend {
    /// The volume of the default endpoint, on Windows.
    Endpoint,
    /// The scripting of macOS.
    Osascript,
    /// PipeWire's tool, on Linux.
    Wpctl,
    /// PulseAudio's tool, on Linux.
    Pactl,
}

/// Output that was muted, and how it was before.
#[derive(Clone, Copy, PartialEq, Eq, Structural, Debug)]
pub struct PlatformMuteGuard {
    pub backend: Backend,
    pub was_muted: bool,
}

/// What is to be done next to mute the output.
#[derive(Debug)]
pub enum MuteStep {
    /// Find out whether the output is muted.
    Read(Backend),
    /// Mute the output.
    Mute(Backend),
    Done(Result<PlatformMuteGuard, String>),
}

/// A step, with its error as a text.
pub ghost enum MuteStepView {
    Read(Backend),
    Mute(Backend),
    Done(Result<PlatformMuteGuard, Seq<char>>),
}

/// The output that was muted, or the text of the error in its stead.
pub open spec fn outcome(r: Result<PlatformMuteGuard, String>) -> Result<
    PlatformMuteGuard,
    Seq<char>,
> {
    match r {
        Ok(guard) => Ok(guard),
        Err(e) => Err(e@),
    }
}

impl View for MuteStep {
    type V = MuteStepView;

    open spec fn view(&self) -> MuteStepView {
        match *self {
            MuteStep::Read(backend) => MuteStepView::Read(backend),
            MuteStep::Mute(backend) => MuteStepView::Mute(backend),
            MuteStep::Done(r) => MuteStepView::Done(outcome(r)),
        }
    }
}

/// The first step: by what the platform offers, on Linux PipeWire first.
pub open spec fn first_step(platform: Platform) -> MuteStepView {
    match platform {
        Platform::Macos => MuteStepView::Read(Backend::Osascript),
        Platform::Windows => MuteStepView::Read(Backend::Endpoint),
        Platform::Linux => MuteStepView::Read(Backend::Wpctl),
        Platform::Other => MuteStepView::Done(
            Err("output mute is not supported on this platform"@),
        ),
    }
}

/// The step once it is known whether the output is muted. Where PipeWire does not tell, PulseAudio
/// is asked; output that is muted already is left alone.
pub open spec fn step_after_read(backend: Backend, muted: Result<bool, Seq<char>>) -> MuteStepView {
    match muted {
        Ok(true) => MuteStepView::Done(Ok(PlatformMuteGuard { backend, was_muted: true })),
        Ok(false) => MuteStepView::Mute(backend),
        Err(e) => if backend == Backend::Wpctl {
            MuteStepView::Read(Backend::Pactl)
        } else {
            MuteStepView::Done(Err(e))
        },
    }
}

/// The end once output that was not muted was to be muted.
pub open spec fn end_after_mute(backend: Backend, done: Result<(), Seq<char>>) -> Result<
    PlatformMuteGuard,
    Seq<char>,
> {
    match done {
        Ok(_) => Ok(PlatformMuteGuard { backend, was_muted: false }),
        Err(e) => Err(e),
    }
}

/// Starts muting the output.
pub fn activate(platform: Platform) -> (r: MuteStep)
    ensures
        r@ == first_step(platform),
{
    match platform {
        Platform::Macos => MuteStep::Read(Backend::Osascript),
        Platform::Windows => MuteStep::Read(Backend::Endpoint),
        Platform::Linux => MuteStep::Read(Backend::Wpctl),
        Platform::Other => MuteStep::Done(
            Err(owned("output mute is not supported on this platform")),
        ),
    }
}

/// Goes on once it is known whether the output is muted.
pub fn output_read(backend: Backend, muted: Result<bool, String>) -> (r: MuteStep)
    ensures
        r@ == step_after_read(
            backend,
            match muted {
                Ok(m) => Ok(m),
                Err(e) => Err(e@),
            },
        ),
{
    match muted {
        Ok(was_muted) => {
            if was_muted {
                MuteStep::Done(Ok(PlatformMuteGuard { backend, was_muted: true }))
            } else {
                MuteStep::Mute(backend)
            }
        },
        Err(e) => {
            if backend == Backend::Wpctl {
                MuteStep::Read(Backend::Pactl)
            } else {
                MuteStep::Done(Err(e))
            }
        },
    }
}

/// Ends once the output, which was not muted, was to be muted.
pub fn output_muted(backend: Backend, done: Result<(), String>) -> (r: Result<
    PlatformMuteGuard,
    String,
>)
    ensures
        outcome(r) == end_after_mute(
            backend,
            match done {
                Ok(_) => Ok(()),
                Err(e) => Err(e@),
            },
        ),
{
    match done {
        Ok(_) => Ok(PlatformMuteGuard { backend, was_muted: false }),
        Err(e) => Err(e),
    }
}

impl PlatformMuteGuard {
    /// What makes the output as it was before: by what, and whether it is to be muted.
    pub open spec fn restoring(self) -> (Backend, bool) {
        (self.backend, self.was_muted)
    }

    /// What makes the output as it was before: by what, and whether it is to be muted.
    pub fn restore(self) -> (r: (Backend, bool))
        ensures
            r == self.restoring(),
    {
        (self.backend, self.was_muted)
    }
}

/// Output that is muted until this is let go.
#[derive(Debug)]
pub struct AudioMuteGuard {
    inner: Option<PlatformMuteGuard>,
}

impl AudioMuteGuard {
    /// What is still to be made as it was.
    pub closed spec fn held(self) -> Option<PlatformMuteGuard> {
        self.inner
    }

    /// Holds output that was muted; the error where it could not be.
    pub fn activate(muted: Result<PlatformMuteGuard, String>) -> (r: Result<AudioMuteGuard, String>)
        ensures
            match muted {
                Ok(guard) => r matches Ok(g) && g.held() == Some(guard),
                Err(e) => r == Err::<AudioMuteGuard, String>(e),
            },
    {
        match muted {
            Ok(guard) => Ok(AudioMuteGuard { inner: Some(guard) }),
            Err(e) => Err(e),
        }
    }

    /// Lets go: what makes the output as it was, the first time.
    pub fn release(&mut self) -> (r: Option<(Backend, bool)>)
        ensures
            final(self).held() is None,
            r == match old(self).held() {
                Some(guard) => Some(guard.restoring()),
                None => None,
            },
    {
        match self.inner.take() {
            Some(guard) => Some(guard.restore()),
            None => None,
        }
    }
}

/// A program and its arguments.
pub open spec fn read_command_line(backend: Backend) -> Seq<Seq<char>> {
    match backend {
        Backend::Endpoint => seq![],
        Backend::Osascript => seq![
            "osascript"@,
            "-e"@,
            "output muted of (get volume settings)"@,
        ],
        Backend::Wpctl => seq!["wpctl"@, "get-volume"@, "@DEFAULT_AUDIO_SINK@"@],
        Backend::Pactl => seq!["pactl"@, "get-sink-mute"@, "@DEFAULT_SINK@"@],
    }
}

/// A program and its arguments.
pub open spec fn set_command_line(backend: Backend, muted: bool) -> Seq<Seq<char>> {
    let value = if muted {
        "1"@
    } else {
        "0"@
    };
    match backend {
        Backend::Endpoint => seq![],
        Backend::Osascript => seq![
            "osascript"@,
            "-e"@,
            if muted {
                "set volume output muted true"@
            } else {
                "set volume output muted false"@
            },
        ],
        Backend::Wpctl => seq!["wpctl"@, "set-mute"@, "@DEFAULT_AUDIO_SINK@"@, value],
        Backend::Pactl => seq!["pactl"@, "set-sink-mute"@, "@DEFAULT_SINK@"@, value],
    }
}

/// Three texts as a list.
fn three(a: &str, b: &str, c: &str) -> (v: Vec<String>)
    ensures
        texts(v@) == seq![a@, b@, c@],
{
    let mut v: Vec<String> = Vec::new();
    v.push(owned(a));
    v.push(owned(b));
    v.push(owned(c));
    assert(texts(v@) =~= seq![a@, b@, c@]);
    v
}

/// Four texts as a list.
fn four(a: &str, b: &str, c: &str, d: &str) -> (v: Vec<String>)
    ensures
        texts(v@) == seq![a@, b@, c@, d@],
{
    let mut v = three(a, b, c);
    let ghost before = texts(v@);
    v.push(owned(d));
    assert(texts(v@) =~= before.push(d@));
    assert(texts(v@) =~= seq![a@, b@, c@, d@]);
    v
}

/// The program that tells whether the output is muted, and its arguments; nothing for an endpoint.
pub fn read_command(backend: Backend) -> (r: Vec<String>)
    ensures
        texts(r@) == read_command_line(backend),
{
    match backend {
        Backend::Endpoint => {
            let v: Vec<String> = Vec::new();
            assert(texts(v@) =~= seq![]);
            v
        },
        Backend::Osascript => three("osascript", "-e", "output muted of (get volume settings)"),
        Backend::Wpctl => three("wpctl", "get-volume", "@DEFAULT_AUDIO_SINK@"),
        Backend::Pactl => three("pactl", "get-sink-mute", "@DEFAULT_SINK@"),
    }
}

/// The program that mutes the output or makes it heard, and its arguments; nothing for an endpoint.
pub fn set_command(backend: Backend, muted: bool) -> (r: Vec<String>)
    ensures
        texts(r@) == set_command_line(backend, muted),
{
    let value = if muted {
        "1"
    } else {
        "0"
    };
    match backend {
        Backend::Endpoint => {
            let v: Vec<String> = Vec::new();
            assert(texts(v@) =~= seq![]);
            v
        },
        Backend::Osascript => {
            if muted {
                three("osascript", "-e", "set volume output muted true")
            } else {
                three("osascript", "-e", "set volume output muted false")
            }
        },
        Backend::Wpctl => four("wpctl", "set-mute", "@DEFAULT_AUDIO_SINK@", value),
        Backend::Pactl => four("pactl", "set-sink-mute", "@DEFAULT_SINK@", value),
    }
}

/// Output is muted, by what the program that was asked has written.
pub open spec fn says_muted(backend: Backend, stdout: Seq<char>) -> bool {
    match backend {
        Backend::Endpoint => false,
        Backend::Osascript => trimmed(stdout) == "true"@,
        Backend::Wpctl => has_substring(stdout, "[MUTED]"@),
        Backend::Pactl => has_substring(ascii_lowered(stdout), "yes"@) || has_substring(
            ascii_lowered(stdout),
            "是"@,
        ),
    }
}

/// What the program that was asked whether the output is muted has answered.
pub fn read_answer(backend: Backend, success: bool, stdout: &str, stderr: &str) -> (r: Result<
    bool,
    String,
>)
    ensures
        match r {
            Ok(muted) => success && muted == says_muted(backend, stdout@),
            Err(e) => !success && e@ == trimmed(stderr@),
        },
{
    if !success {
        return Err(trim(stderr));
    }
    Ok(
        match backend {
            Backend::Endpoint => false,
            Backend::Osascript => same(trim(stdout).as_str(), "true"),
            Backend::Wpctl => contains(stdout, "[MUTED]"),
            Backend::Pactl => {
                let lower = lower_ascii(stdout);
                contains(lower.as_str(), "yes") || contains(lower.as_str(), "是")
            },
        },
    )
}

/// Whether the program that was to mute the output has done it.
pub fn set_answer(success: bool, stderr: &str) -> (r: Result<(), String>)
    ensures
        match r {
            Ok(_) => success,
            Err(e) => !success && e@ == trimmed(stderr@),
        },
{
    if success {
        Ok(())
    } else {
        Err(trim(stderr))
    }
}

/// What is told of a program that could not be asked.
pub open spec fn read_failure(backend: Backend) -> Seq<char> {
    match backend {
        Backend::Endpoint => "read endpoint mute state failed: "@,
        Backend::Osascript => "query output mute failed: "@,
        Backend::Wpctl => "wpctl get-volume failed: "@,
        Backend::Pactl => "pactl get-sink-mute failed: "@,
    }
}

/// What is told of a program that could not be run to mute the output.
pub open spec fn set_failure(backend: Backend) -> Seq<char> {
    match backend {
        Backend::Endpoint => "set endpoint mute failed: "@,
        Backend::Osascript => "set output mute failed: "@,
        Backend::Wpctl => "wpctl set-mute failed: "@,
        Backend::Pactl => "pactl set-sink-mute failed: "@,
    }
}

/// What is told where the program could not even be run.
pub fn not_run(backend: Backend, reading: bool, error: &str) -> (r: String)
    ensures
        r@ == (if reading {
            read_failure(backend)
        } else {
            set_failure(backend)
        }) + error@,
{
    let what = match backend {
        Backend::Endpoint => if reading {
            "read endpoint mute state failed: "
        } else {
            "set endpoint mute failed: "
        },
        Backend::Osascript => if reading {
            "query output mute failed: "
        } else {
            "set output mute failed: "
        },
        Backend::Wpctl => if reading {
            "wpctl get-volume failed: "
        } else {
            "wpctl set-mute failed: "
        },
        Backend::Pactl => if reading {
            "pactl get-sink-mute failed: "
        } else {
            "pactl set-sink-mute failed: "
        },
    };
    join2(what, error)
}

/// The output ends as it began: whatever mutes it, letting go makes it muted exactly if it was
/// found muted, by the same means. Output that was found muted is not muted again.
pub proof fn law_output_ends_as_it_began(backend: Backend, muted: bool)
    ensures
        muted ==> (step_after_read(backend, Ok(muted)) matches MuteStepView::Done(Ok(guard))
            && guard.restoring() == (backend, muted)),
        !muted ==> {
            &&& step_after_read(backend, Ok(muted)) == MuteStepView::Mute(backend)
            &&& end_after_mute(backend, Ok(())) matches Ok(guard)
            &&& guard.restoring() == (backend, muted)
        },
{
}

/// Each system mutes by what it offers: Linux by PipeWire, and by PulseAudio only where PipeWire
/// does not answer. No other failure is followed by another attempt.
pub proof fn law_means_of_muting(platform: Platform, backend: Backend, error: Seq<char>)
    ensures
        platform == Platform::Macos ==> first_step(platform) == MuteStepView::Read(
            Backend::Osascript,
        ),
        platform == Platform::Windows ==> first_step(platform) == MuteStepView::Read(
            Backend::Endpoint,
        ),
        platform == Platform::Linux ==> first_step(platform) == MuteStepView::Read(Backend::Wpctl),
        platform == Platform::Other ==> first_step(platform) matches MuteStepView::Done(Err(_)),
        backend == Backend::Wpctl ==> step_after_read(backend, Err(error)) == MuteStepView::Read(
            Backend::Pactl,
        ),
        backend != Backend::Wpctl ==> step_after_read(backend, Err(error)) == MuteStepView::Done(
            Err(error),
        ),
        end_after_mute(backend, Err(error)) == Err::<PlatformMuteGuard, Seq<char>>(error),
{
}

/// A program is asked and told about the same output: it is the program of the means that was
/// chosen, and it is told to mute exactly where that is wanted.
pub proof fn law_program_is_told_what_is_wanted(backend: Backend, muted: bool)
    ensures
        backend == Backend::Endpoint <==> read_command_line(backend).len() == 0,
        backend == Backend::Endpoint <==> set_command_line(backend, muted).len() == 0,
        backend == Backend::Osascript ==> {
            &&& read_command_line(backend).len() == 3
            &&& set_command_line(backend, muted).len() == 3
            &&& read_command_line(backend)[0] == "osascript"@
            &&& set_command_line(backend, muted)[0] == "osascript"@
            &&& read_command_line(backend)[1] == "-e"@
            &&& set_command_line(backend, muted)[1] == "-e"@
            &&& read_command_line(backend)[2] == "output muted of (get volume settings)"@
            &&& muted ==> set_command_line(backend, muted)[2] == "set volume output muted true"@
            &&& !muted ==> set_command_line(backend, muted)[2] == "set volume output muted false"@
        },
        backend == Backend::Wpctl || backend == Backend::Pactl ==> {
            &&& read_command_line(backend).len() == 3
            &&& set_command_line(backend, muted).len() == 4
            &&& read_command_line(backend)[0] == set_command_line(backend, muted)[0]
            &&& read_command_line(backend)[2] == set_command_line(backend, muted)[2]
            &&& muted ==> set_command_line(backend, muted)[3] == "1"@
            &&& !muted ==> set_command_line(backend, muted)[3] == "0"@
        },
        backend == Backend::Wpctl ==> {
            &&& read_command_line(backend)[0] == "wpctl"@
            &&& read_command_line(backend)[1] == "get-volume"@
            &&& read_command_line(backend)[2] == "@DEFAULT_AUDIO_SINK@"@
            &&& set_command_line(backend, muted)[1] == "set-mute"@
        },
        backend == Backend::Pactl ==> {
            &&& read_command_line(backend)[0] == "pactl"@
            &&& read_command_line(backend)[1] == "get-sink-mute"@
            &&& read_command_line(backend)[2] == "@DEFAULT_SINK@"@
            &&& set_command_line(backend, muted)[1] == "set-sink-mute"@
        },
{
}

/// What the programs write where output is muted: macOS just `true`, PipeWire its mark somewhere,
/// PulseAudio its word in either language, whatever the case of letters.
pub proof fn law_muted_output_is_recognised(before: Seq<char>, after: Seq<char>)
    ensures
        says_muted(Backend::Wpctl, before + "[MUTED]"@ + after),
        says_muted(Backend::Pactl, before + "yes"@ + after),
        says_muted(Backend::Pactl, before + "是"@ + after),
        trimmed(before) == "true"@ <==> says_muted(Backend::Osascript, before),
        !says_muted(Backend::Endpoint, before),
        !has_substring(before, "[MUTED]"@) ==> !says_muted(Backend::Wpctl, before),
        !has_substring(ascii_lowered(before), "yes"@) && !has_substring(
            ascii_lowered(before),
            "是"@,
        ) ==> !says_muted(Backend::Pactl, before),
{
    law_substring_has_surroundings(before + "[MUTED]"@ + after, "[MUTED]"@);
    reveal_strlit("yes");
    reveal_strlit("是");
    let yes = before + "yes"@ + after;
    assert(ascii_lowered(yes) =~= ascii_lowered(before) + "yes"@ + ascii_lowered(after));
    law_substring_has_surroundings(ascii_lowered(yes), "yes"@);
    let shi = before + "是"@ + after;
    assert(ascii_lowered(shi) =~= ascii_lowered(before) + "是"@ + ascii_lowered(after));
    law_substring_has_surroundings(ascii_lowered(shi), "是"@);
}

/// A program that could not be run is told by its name and by what it was to do.
pub proof fn law_missing_program_is_told(backend: Backend)
    ensures
        read_failure(Backend::Endpoint) == "read endpoint mute state failed: "@,
        read_failure(Backend::Osascript) == "query output mute failed: "@,
        read_failure(Backend::Wpctl) == "wpctl get-volume failed: "@,
        read_failure(Backend::Pactl) == "pactl get-sink-mute failed: "@,
        set_failure(Backend::Endpoint) == "set endpoint mute failed: "@,
        set_failure(Backend::Osascript) == "set output mute failed: "@,
        set_failure(Backend::Wpctl) == "wpctl set-mute failed: "@,
        set_failure(Backend::Pactl) == "pactl set-sink-mute failed: "@,
{
}

} // verus!
