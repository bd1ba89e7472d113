//! Permissions of the system: microphone and accessibility.
use vstd::prelude::*;
use vstd::string::*;

use crate::text::{
    ascii_lowered, contains, eq_ignore_ascii_case, from_char_range, has_substring, join2, lowercase,
    occurs_at, owned, replace_char, replaced, same, texts, to_chars,
};
use crate::types::Platform;

verus! {

/// What the system says about a permission.
#[derive(Clone, Copy, PartialEq, Eq, Structural, Debug)]
pub enum PermissionStatus {
    Granted,
    Denied,
    NotDetermined,
    Restricted,
    /// The system has no such permission.
    NotApplicable,
    /// There is no microphone, whatever the permission.
    NoDevice,
}

/// Whether the (lower-case) text of an error tells that no input device is there.
pub open spec fn tells_no_device(lower: Seq<char>) -> bool {
    ||| has_substring(lower, "no default input device"@)
    ||| has_substring(lower, "no default input"@)
    ||| has_substring(lower, "no input device"@)
    ||| has_substring(lower, "no device"@)
    ||| has_substring(lower, "device not found"@)
    ||| has_substring(lower, "device not available"@)
    ||| has_substring(lower, "not connected"@)
    ||| has_substring(lower, "unplugged"@)
    ||| has_substring(lower, "disconnected"@)
}

/// Whether the (lower-case) text of an error tells that no input device is there, as opposed to
/// one that may not be used.
pub fn is_no_device_error(lower: &str) -> (r: bool)
    ensures
        r == tells_no_device(lower@),
{
    contains(lower, "no default input device") || contains(lower, "no default input") || contains(
        lower,
        "no input device",
    ) || contains(lower, "no device") || contains(lower, "device not found") || contains(
        lower,
        "device not available",
    ) || contains(lower, "not connected") || contains(lower, "unplugged") || contains(
        lower,
        "disconnected",
    )
}

/// What an error of trying out the microphone means, given its lower-case text.
pub open spec fn probe_status(lower: Seq<char>) -> PermissionStatus {
    if tells_no_device(lower) {
        PermissionStatus::NoDevice
    } else if has_substring(lower, "denied"@) || has_substring(lower, "permission"@)
        || has_substring(lower, "authoriz"@) || has_substring(lower, "access"@) {
        PermissionStatus::Denied
    } else {
        PermissionStatus::NotDetermined
    }
}

/// What an error of trying out the microphone means, given its lower-case text.
pub fn classify_lower_probe_error(lower: &str) -> (r: PermissionStatus)
    ensures
        r == probe_status(lower@),
{
    if is_no_device_error(lower) {
        PermissionStatus::NoDevice
    } else if contains(lower, "denied") || contains(lower, "permission") || contains(
        lower,
        "authoriz",
    ) || contains(lower, "access") {
        PermissionStatus::Denied
    } else {
        PermissionStatus::NotDetermined
    }
}

/// What an error of trying out the microphone means.
pub fn classify_audio_probe_error(message: &str) -> (r: PermissionStatus)
    ensures
        r == probe_status(lowercase(message@)),
{
    let lower = message.to_lowercase();
    classify_lower_probe_error(lower.as_str())
}

/// The accessibility permission, where the system has one.
pub open spec fn accessibility(platform: Platform, trusted: bool) -> PermissionStatus {
    if platform != Platform::Macos {
        PermissionStatus::NotApplicable
    } else if trusted {
        PermissionStatus::Granted
    } else {
        PermissionStatus::Denied
    }
}

/// The accessibility permission, where the system has one.
pub fn check_accessibility(platform: Platform, trusted: bool) -> (r: PermissionStatus)
    ensures
        r == accessibility(platform, trusted),
{
    if platform != Platform::Macos {
        PermissionStatus::NotApplicable
    } else if trusted {
        PermissionStatus::Granted
    } else {
        PermissionStatus::Denied
    }
}

/// The accessibility permission after asking for it: `trusted` is what the dialogue came to.
pub fn request_accessibility(platform: Platform, trusted: bool) -> (r: PermissionStatus)
    ensures
        r == accessibility(platform, trusted),
{
    check_accessibility(platform, trusted)
}

/// What the code of the recording permission means: `grnt`, `deny` or anything else.
pub open spec fn record_permission(code: i64) -> PermissionStatus {
    if code == 0x6772_6e74 {
        PermissionStatus::Granted
    } else if code == 0x6465_6e79 {
        PermissionStatus::Denied
    } else {
        PermissionStatus::NotDetermined
    }
}

/// What the authorisation status of the capture device means; `None` where the class is missing.
pub open spec fn capture_permission(status: Option<i64>) -> PermissionStatus {
    match status {
        Some(3) => PermissionStatus::Granted,
        Some(2) => PermissionStatus::Denied,
        Some(1) => PermissionStatus::Restricted,
        _ => PermissionStatus::NotDetermined,
    }
}

/// What the system was found to say about the microphone.
pub enum MicrophoneProbe {
    /// The code of the recording permission, where the system has that class, and the status of
    /// the capture device, where it has that one.
    Codes { record: Option<i64>, capture: Option<i64> },
    /// The privacy settings deny it.
    SettingsDeny,
    NoDefaultDevice,
    /// Opening the device failed.
    Failed { message: String },
    /// The device could be opened.
    Opened,
}

/// What a probe of the microphone means.
pub open spec fn microphone_status(probe: MicrophoneProbe) -> PermissionStatus {
    match probe {
        MicrophoneProbe::Codes { record: Some(code), .. } => record_permission(code),
        MicrophoneProbe::Codes { record: None, capture } => capture_permission(capture),
        MicrophoneProbe::SettingsDeny => PermissionStatus::Denied,
        MicrophoneProbe::NoDefaultDevice => PermissionStatus::NoDevice,
        MicrophoneProbe::Failed { message } => probe_status(lowercase(message@)),
        MicrophoneProbe::Opened => PermissionStatus::Granted,
    }
}

/// The microphone permission.
pub fn check_microphone(probe: &MicrophoneProbe) -> (r: PermissionStatus)
    ensures
        r == microphone_status(*probe),
{
    match probe {
        MicrophoneProbe::Codes { record, capture } => {
            match record {
                Some(code) => {
                    if *code == 0x6772_6e74 {
                        PermissionStatus::Granted
                    } else if *code == 0x6465_6e79 {
                        PermissionStatus::Denied
                    } else {
                        PermissionStatus::NotDetermined
                    }
                },
                None => match capture {
                    Some(3) => PermissionStatus::Granted,
                    Some(2) => PermissionStatus::Denied,
                    Some(1) => PermissionStatus::Restricted,
                    _ => PermissionStatus::NotDetermined,
                },
            }
        },
        MicrophoneProbe::SettingsDeny => PermissionStatus::Denied,
        MicrophoneProbe::NoDefaultDevice => PermissionStatus::NoDevice,
        MicrophoneProbe::Failed { message } => classify_audio_probe_error(message.as_str()),
        MicrophoneProbe::Opened => PermissionStatus::Granted,
    }
}

/// The microphone permission after asking for it.
pub open spec fn answered(
    answer: Option<bool>,
    probe: MicrophoneProbe,
) -> PermissionStatus {
    match answer {
        Some(true) => PermissionStatus::Granted,
        Some(false) => PermissionStatus::Denied,
        None => microphone_status(probe),
    }
}

/// The microphone permission after asking for it: the answer, or else what a new probe says.
pub fn request_microphone(answer: Option<bool>, probe: &MicrophoneProbe) -> (r: PermissionStatus)
    ensures
        r == answered(answer, *probe),
{
    match answer {
        Some(true) => PermissionStatus::Granted,
        Some(false) => PermissionStatus::Denied,
        None => check_microphone(probe),
    }
}

/// The registry keys that can deny the microphone: the general ones, and the one of this program.
pub open spec fn registry_paths(exe: Option<Seq<char>>) -> Seq<Seq<char>> {
    let general = seq![
        "HKCU\\Software\\Microsoft\\Windows\\CurrentVersion\\CapabilityAccessManager\\ConsentStore\\microphone"@,
        "HKCU\\Software\\Microsoft\\Windows\\CurrentVersion\\CapabilityAccessManager\\ConsentStore\\microphone\\NonPackaged"@,
        "HKLM\\SOFTWARE\\Microsoft\\Windows\\CurrentVersion\\CapabilityAccessManager\\ConsentStore\\microphone"@,
    ];
    match exe {
        Some(path) => general.push(
            "HKCU\\Software\\Microsoft\\Windows\\CurrentVersion\\CapabilityAccessManager\\ConsentStore\\microphone\\NonPackaged\\"@
                + replaced(path, '\\', '#'),
        ),
        None => general,
    }
}

/// The contents of an optional text.
pub open spec fn opt_str(s: Option<&str>) -> Option<Seq<char>> {
    match s {
        Some(t) => Some(t@),
        None => None,
    }
}

/// The registry keys that can deny the microphone to the program at that path.
pub fn candidate_microphone_registry_paths(exe: Option<&str>) -> (paths: Vec<String>)
    ensures
        texts(paths@) == registry_paths(opt_str(exe)),
{
    let mut paths: Vec<String> = Vec::new();
    paths.push(
        owned(
            "HKCU\\Software\\Microsoft\\Windows\\CurrentVersion\\CapabilityAccessManager\\ConsentStore\\microphone",
        ),
    );
    paths.push(
        owned(
            "HKCU\\Software\\Microsoft\\Windows\\CurrentVersion\\CapabilityAccessManager\\ConsentStore\\microphone\\NonPackaged",
        ),
    );
    paths.push(
        owned(
            "HKLM\\SOFTWARE\\Microsoft\\Windows\\CurrentVersion\\CapabilityAccessManager\\ConsentStore\\microphone",
        ),
    );
    match exe {
        Some(path) => {
            let encoded = replace_char(path, '\\', '#');
            paths.push(
                join2(
                    "HKCU\\Software\\Microsoft\\Windows\\CurrentVersion\\CapabilityAccessManager\\ConsentStore\\microphone\\NonPackaged\\",
                    encoded.as_str(),
                ),
            );
        },
        None => {},
    }
    assert(texts(paths@) =~= registry_paths(opt_str(exe)));
    paths
}

/// A root of the registry.
#[derive(Clone, Copy, PartialEq, Eq, Structural, Debug)]
pub enum RegistryHive {
    CurrentUser,
    LocalMachine,
}

/// `path` is the name of a root, a backslash and the key below it.
pub open spec fn splits_at(path: Seq<char>, i: int) -> bool {
    &&& 0 <= i < path.len()
    &&& path[i] == '\\'
    &&& forall|j: int| 0 <= j < i ==> path[j] != '\\'
}

/// `path` names that key below that root.
pub open spec fn names_key(path: Seq<char>, hive: RegistryHive, key: Seq<char>) -> bool {
    exists|i: int| #[trigger]
        splits_at(path, i) && key == path.skip(i + 1) && path.take(i) == match hive {
            RegistryHive::CurrentUser => "HKCU"@,
            RegistryHive::LocalMachine => "HKLM"@,
        }
}

/// `path` has no root that is known.
pub open spec fn names_no_key(path: Seq<char>) -> bool {
    forall|i: int| #[trigger]
        splits_at(path, i) ==> path.take(i) != "HKCU"@ && path.take(i) != "HKLM"@
}

/// The root and the key of a registry path. `None` where it has no root that is known.
pub fn registry_key(path: &str) -> (r: Option<(RegistryHive, String)>)
    ensures
        match r {
            Some((hive, key)) => names_key(path@, hive, key@),
            None => names_no_key(path@),
        },
{
    let v = to_chars(path);
    let n: usize = v.len();
    let mut i: usize = 0;
    while i < n && v[i] != '\\'
        invariant
            i <= n == v@.len(),
            v@ == path@,
            forall|j: int| 0 <= j < i ==> path@[j] != '\\',
        decreases n - i,
    {
        i += 1;
    }
    if i == n {
        return None;
    }
    let root = from_char_range(v.as_slice(), 0, i);
    let key = from_char_range(v.as_slice(), i + 1, n);
    proof {
        assert(splits_at(path@, i as int));
        assert(root@ =~= path@.take(i as int));
        assert(key@ =~= path@.skip(i + 1));
        assert forall|k: int| splits_at(path@, k) implies k == i by {
            if k < i {
                assert(path@[k] != '\\');
            }
        }
    }
    if same(root.as_str(), "HKCU") {
        Some((RegistryHive::CurrentUser, key))
    } else if same(root.as_str(), "HKLM") {
        Some((RegistryHive::LocalMachine, key))
    } else {
        None
    }
}

/// A registry value denies the microphone.
pub open spec fn denies(value: Option<Seq<char>>) -> bool {
    match value {
        Some(v) => ascii_lowered(v) == ascii_lowered("Deny"@),
        None => false,
    }
}

/// Whether a registry value denies the microphone.
pub fn is_deny_value(value: Option<&str>) -> (r: bool)
    ensures
        r == denies(opt_str(value)),
{
    match value {
        Some(v) => eq_ignore_ascii_case(v, "Deny"),
        None => false,
    }
}

/// Whether the privacy settings deny the microphone, given what each registry key says.
pub fn windows_microphone_access_explicitly_denied(platform: Platform, denials: &[bool]) -> (r: bool)
    ensures
        r == (platform == Platform::Windows && denials@.contains(true)),
{
    if platform != Platform::Windows {
        return false;
    }
    let mut i: usize = 0;
    while i < denials.len()
        invariant
            i <= denials@.len(),
            platform == Platform::Windows,
            forall|j: int| 0 <= j < i ==> !denials@[j],
        decreases denials@.len() - i,
    {
        if denials[i] {
            assert(denials@[i as int]);
            return true;
        }
        i += 1;
    }
    false
}

/// An error tells of a missing device by one of these phrases and by nothing else, wherever in its
/// text the phrase stands.
pub proof fn law_missing_device_is_told(lower: Seq<char>)
    ensures
        tells_no_device(lower) <==> {
            ||| has_substring(lower, "no default input"@)
            ||| has_substring(lower, "no input device"@)
            ||| has_substring(lower, "no device"@)
            ||| has_substring(lower, "device not found"@)
            ||| has_substring(lower, "device not available"@)
            ||| has_substring(lower, "not connected"@)
            ||| has_substring(lower, "unplugged"@)
            ||| has_substring(lower, "disconnected"@)
        },
{
    let long = "no default input device"@;
    let short = "no default input"@;
    reveal_strlit("no default input device");
    reveal_strlit("no default input");
    if has_substring(lower, long) {
        let i = choose|i: int| occurs_at(lower, long, i);
        assert(lower.subrange(i, i + long.len()) == long);
        assert(long.take(short.len() as int) =~= short);
        assert(lower.subrange(i, i + short.len()) =~= long.take(short.len() as int)) by {
            assert forall|k: int| 0 <= k < short.len() implies lower[i + k] == long[k] by {
                assert(lower.subrange(i, i + long.len())[k] == lower[i + k]);
            }
        }
        assert(occurs_at(lower, short, i));
    }
}

/// What a failed attempt to open the microphone means: a missing device before a missing
/// permission, and neither where the text tells of neither.
pub proof fn law_failed_probe_is_understood(lower: Seq<char>)
    ensures
        probe_status(lower) == PermissionStatus::NoDevice <==> tells_no_device(lower),
        probe_status(lower) == PermissionStatus::Denied <==> !tells_no_device(lower) && (
        has_substring(lower, "denied"@) || has_substring(lower, "permission"@) || has_substring(
            lower,
            "authoriz"@,
        ) || has_substring(lower, "access"@)),
        probe_status(lower) != PermissionStatus::NoDevice && probe_status(lower)
            != PermissionStatus::Denied ==> probe_status(lower) == PermissionStatus::NotDetermined,
{
}

/// The recording permission is told by four letters, `grnt` or `deny`, each in a byte of its own;
/// any other code leaves it open.
pub proof fn law_permission_is_told_by_letters(code: i64)
    ensures
        record_permission(code) == PermissionStatus::Granted <==> code == (('g' as int * 256
            + 'r' as int) * 256 + 'n' as int) * 256 + 't' as int,
        record_permission(code) == PermissionStatus::Denied <==> code == (('d' as int * 256
            + 'e' as int) * 256 + 'n' as int) * 256 + 'y' as int,
        record_permission(code) == PermissionStatus::Granted || record_permission(code)
            == PermissionStatus::Denied || record_permission(code)
            == PermissionStatus::NotDetermined,
{
}

/// The status of the capture device is a number from 0 to 3; without the class nothing is known.
pub proof fn law_capture_status(status: Option<i64>)
    ensures
        capture_permission(status) == PermissionStatus::Granted <==> status == Some(3i64),
        capture_permission(status) == PermissionStatus::Denied <==> status == Some(2i64),
        capture_permission(status) == PermissionStatus::Restricted <==> status == Some(1i64),
        capture_permission(None) == PermissionStatus::NotDetermined,
{
}

/// The code of the recording permission counts before the status of the capture device. A device
/// that could be opened is one that may be used; settings that deny it and a missing device are
/// told apart.
pub proof fn law_microphone_status(code: i64, capture: Option<i64>)
    ensures
        microphone_status(MicrophoneProbe::Codes { record: Some(code), capture })
            == record_permission(code),
        microphone_status(MicrophoneProbe::Codes { record: None, capture }) == capture_permission(
            capture,
        ),
        microphone_status(MicrophoneProbe::Opened) == PermissionStatus::Granted,
        microphone_status(MicrophoneProbe::SettingsDeny) == PermissionStatus::Denied,
        microphone_status(MicrophoneProbe::NoDefaultDevice) == PermissionStatus::NoDevice,
{
}

/// The user's answer counts, whatever a probe says; without one the probe does.
pub proof fn law_answer_counts(answer: bool, probe: MicrophoneProbe)
    ensures
        answered(Some(answer), probe) == PermissionStatus::Granted <==> answer,
        answered(Some(answer), probe) == PermissionStatus::Denied <==> !answer,
        answered(None, probe) == microphone_status(probe),
{
}

/// Only macOS has a permission for accessibility; there it is granted or denied.
pub proof fn law_accessibility_is_of_macos(platform: Platform, trusted: bool)
    ensures
        accessibility(platform, trusted) == PermissionStatus::NotApplicable <==> platform
            != Platform::Macos,
        accessibility(Platform::Macos, trusted) == PermissionStatus::Granted <==> trusted,
        accessibility(Platform::Macos, trusted) == PermissionStatus::Denied <==> !trusted,
{
}

/// The general keys are looked at in any case. The key of this program is looked at last: it stands
/// below that of programs outside packages, and its name has no separator in it.
pub proof fn law_registry_keys_are_looked_at(path: Seq<char>)
    ensures
        registry_paths(None).len() == 3,
        registry_paths(Some(path)).len() == 4,
        registry_paths(Some(path)).drop_last() == registry_paths(None),
        registry_paths(None)[0] + "\\NonPackaged"@ == registry_paths(None)[1],
        registry_paths(Some(path))[3] == registry_paths(None)[1] + "\\"@ + replaced(
            path,
            '\\',
            '#',
        ),
        !replaced(path, '\\', '#').contains('\\'),
        registry_paths(None)[0]
            == "HKCU\\Software\\Microsoft\\Windows\\CurrentVersion\\CapabilityAccessManager\\ConsentStore\\microphone"@,
        registry_paths(None)[2]
            == "HKLM\\SOFTWARE\\Microsoft\\Windows\\CurrentVersion\\CapabilityAccessManager\\ConsentStore\\microphone"@,
{
    reveal_strlit("\\NonPackaged");
    reveal_strlit("\\");
    reveal_strlit(
        "HKCU\\Software\\Microsoft\\Windows\\CurrentVersion\\CapabilityAccessManager\\ConsentStore\\microphone",
    );
    reveal_strlit(
        "HKCU\\Software\\Microsoft\\Windows\\CurrentVersion\\CapabilityAccessManager\\ConsentStore\\microphone\\NonPackaged",
    );
    reveal_strlit(
        "HKCU\\Software\\Microsoft\\Windows\\CurrentVersion\\CapabilityAccessManager\\ConsentStore\\microphone\\NonPackaged\\",
    );
    assert(registry_paths(Some(path)).drop_last() =~= registry_paths(None));
    assert(registry_paths(None)[0] + "\\NonPackaged"@ =~= registry_paths(None)[1]);
    assert(registry_paths(None)[1] + "\\"@ + replaced(path, '\\', '#') =~= registry_paths(
        Some(path),
    )[3]);
}

/// A value denies the microphone however its letters are written, and a missing one does not.
pub proof fn law_denial_is_recognised(value: Seq<char>)
    ensures
        denies(Some(value)) <==> ascii_lowered(value) == seq!['d', 'e', 'n', 'y'],
        !denies(None),
{
    reveal_strlit("Deny");
    assert(ascii_lowered("Deny"@) =~= seq!['d', 'e', 'n', 'y']);
}

/// A registry path is the short name of its root, a backslash and the key, whatever the key holds.
pub proof fn law_registry_path_names_its_root(path: Seq<char>, hive: RegistryHive, key: Seq<char>)
    ensures
        names_key("HKCU\\"@ + key, RegistryHive::CurrentUser, key),
        names_key("HKLM\\"@ + key, RegistryHive::LocalMachine, key),
        names_key(path, RegistryHive::CurrentUser, key) ==> path == "HKCU\\"@ + key,
        names_key(path, RegistryHive::LocalMachine, key) ==> path == "HKLM\\"@ + key,
        names_key(path, hive, key) ==> !names_no_key(path),
        !path.contains('\\') ==> names_no_key(path),
{
    reveal_strlit("HKCU\\");
    reveal_strlit("HKLM\\");
    reveal_strlit("HKCU");
    reveal_strlit("HKLM");
    let user = "HKCU\\"@ + key;
    assert(splits_at(user, 4));
    assert(user.skip(5) =~= key);
    assert(user.take(4) =~= "HKCU"@);
    let machine = "HKLM\\"@ + key;
    assert(splits_at(machine, 4));
    assert(machine.skip(5) =~= key);
    assert(machine.take(4) =~= "HKLM"@);
    assert forall|h: RegistryHive| #[trigger] names_key(path, h, key) implies path == (match h {
        RegistryHive::CurrentUser => "HKCU\\"@,
        RegistryHive::LocalMachine => "HKLM\\"@,
    }) + key by {
        let i = choose|i: int| #[trigger]
            splits_at(path, i) && key == path.skip(i + 1) && path.take(i) == match h {
                RegistryHive::CurrentUser => "HKCU"@,
                RegistryHive::LocalMachine => "HKLM"@,
            };
        assert(path.take(i).len() == i);
        assert(path =~= path.take(i) + seq!['\\'] + path.skip(i + 1));
        assert("HKCU\\"@ =~= "HKCU"@ + seq!['\\']);
        assert("HKLM\\"@ =~= "HKLM"@ + seq!['\\']);
    }
    assert(!path.contains('\\') ==> forall|i: int| !(#[trigger] splits_at(path, i)));
}

} // verus!
