use zhunji::permissions::{
    candidate_microphone_registry_paths, check_accessibility, check_microphone,
    classify_audio_probe_error, is_deny_value, is_no_device_error, registry_key,
    request_accessibility, request_microphone, windows_microphone_access_explicitly_denied,
    MicrophoneProbe, PermissionStatus, RegistryHive,
};
use zhunji::recorder::{
    classify_build_stream_err, classify_default_config_err, list_input_devices,
    preferred_device_name, select_input_device, watchdog_slice, watchdog_step, RecorderError,
    WatchdogStep, WavArchive,
};
use zhunji::types::Platform;
use zhunji::wav::{
    appended_size, build_wav_header, pcm_duration_ms, pcm_from_wav_bytes, wav_from_pcm,
};

#[test]
fn pcm_from_wav_strips_44_byte_header() {
    let mut wav = vec![0u8; 44];
    wav.extend_from_slice(&[1, 2, 3, 4]);
    assert_eq!(pcm_from_wav_bytes(&wav), Some(vec![1, 2, 3, 4]));
}

#[test]
fn pcm_from_wav_rejects_headeronly_or_truncated() {
    assert_eq!(pcm_from_wav_bytes(&[0u8; 44]), None);
    assert_eq!(pcm_from_wav_bytes(&[0u8; 10]), None);
    assert_eq!(pcm_from_wav_bytes(&[]), None);
}

#[test]
fn pcm_duration_ms_matches_16k_mono_16bit_rate() {
    assert_eq!(pcm_duration_ms(32_000), 1000);
    assert_eq!(pcm_duration_ms(16_000), 500);
    assert_eq!(pcm_duration_ms(32), 1);
    assert_eq!(pcm_duration_ms(0), 0);
}

#[test]
fn wav_gives_back_its_samples() {
    let pcm = vec![1u8, 2, 3, 4];
    let wav = wav_from_pcm(&pcm);
    assert_eq!(&wav[..4], b"RIFF");
    assert_eq!(&wav[4..8], &[40, 0, 0, 0]);
    assert_eq!(&wav[8..16], b"WAVEfmt ");
    assert_eq!(&wav[24..28], &[0x80, 0x3e, 0, 0]);
    assert_eq!(&wav[36..40], b"data");
    assert_eq!(&wav[40..44], &[4, 0, 0, 0]);
    assert_eq!(pcm_from_wav_bytes(&wav), Some(pcm));
    assert_eq!(build_wav_header(4), wav[..44].to_vec());
    assert_eq!(build_wav_header(9).len(), 44);
}

#[test]
fn archive_counts_what_was_written() {
    let mut archive = WavArchive { bytes_written: 0 };
    archive.append(10, true);
    archive.append(10, false);
    assert_eq!(archive.bytes_written, 10);
    assert_eq!(appended_size(u32::MAX - 1, 5), u32::MAX);
}

#[test]
fn no_device_errors_are_recognized() {
    for message in [
        "no default input device",
        "No input device is available",
        "device not found",
        "default device is not connected",
        "unplugged microphone",
    ] {
        assert!(
            is_no_device_error(&message.to_lowercase()),
            "should classify as no-device: {message}"
        );
    }
}

#[test]
fn permission_errors_are_not_no_device() {
    for message in ["access denied", "permission denied", "not authorized"] {
        assert!(
            !is_no_device_error(&message.to_lowercase()),
            "should NOT classify as no-device: {message}"
        );
    }
}

#[test]
fn recorder_errors_are_told_apart() {
    assert!(matches!(
        classify_default_config_err("No Default Input Device"),
        RecorderError::NoInputDevice
    ));
    assert!(matches!(
        classify_build_stream_err("Permission denied"),
        RecorderError::PermissionDenied
    ));
    match classify_build_stream_err("Busy") {
        RecorderError::EngineFailed(m) => assert_eq!(m, "build_input_stream: Busy"),
        _ => panic!("another error"),
    }
    assert_eq!(
        RecorderError::EngineFailed("x".to_string()).user_message(),
        "录音启动失败: audio engine failed: x"
    );
    assert_eq!(RecorderError::PermissionDenied.message(), "microphone permission denied");
}

#[test]
fn dead_recordings_are_reported_once_they_are_silent() {
    assert!(matches!(watchdog_step(true, Some(100), 100), WatchdogStep::Stop));
    assert!(matches!(watchdog_step(false, Some(3), 100), WatchdogStep::Continue));
    match watchdog_step(false, Some(4), 100) {
        WatchdogStep::Report(RecorderError::EngineFailed(m)) => {
            assert_eq!(m, "录音回调静默停止 4 秒")
        },
        _ => panic!("not reported"),
    }
    assert!(matches!(watchdog_step(false, None, 5), WatchdogStep::Continue));
    match watchdog_step(false, None, 6) {
        WatchdogStep::Report(RecorderError::EngineFailed(m)) => {
            assert_eq!(m, "录音启动后 6 秒内未收到回调")
        },
        _ => panic!("not reported"),
    }
    assert_eq!(watchdog_slice(0), Some(50));
    assert_eq!(watchdog_slice(980), Some(20));
    assert_eq!(watchdog_slice(1000), None);
}

#[test]
fn preferred_microphone_is_found_by_its_name() {
    let names = vec![None, Some("Built-in".to_string()), Some("USB".to_string())];
    assert_eq!(select_input_device(Some(" USB "), &names), Some(2));
    assert_eq!(select_input_device(Some("gone"), &names), None);
    assert_eq!(select_input_device(None, &names), None);
    assert_eq!(preferred_device_name(Some(" ")), None);
    let devices = list_input_devices(&names, &Some("USB".to_string()));
    assert_eq!(devices.len(), 2);
    assert_eq!(devices[0].name, "Built-in");
    assert!(!devices[0].is_default);
    assert!(devices[1].is_default);
}

#[test]
fn permissions_are_read_from_what_the_system_says() {
    assert_eq!(check_accessibility(Platform::Linux, false), PermissionStatus::NotApplicable);
    assert_eq!(check_accessibility(Platform::Macos, false), PermissionStatus::Denied);
    assert_eq!(request_accessibility(Platform::Macos, true), PermissionStatus::Granted);
    let granted = MicrophoneProbe::Codes { record: Some(0x6772_6e74), capture: None };
    assert_eq!(check_microphone(&granted), PermissionStatus::Granted);
    let restricted = MicrophoneProbe::Codes { record: None, capture: Some(1) };
    assert_eq!(check_microphone(&restricted), PermissionStatus::Restricted);
    assert_eq!(request_microphone(Some(false), &granted), PermissionStatus::Denied);
    assert_eq!(request_microphone(None, &granted), PermissionStatus::Granted);
    assert_eq!(classify_audio_probe_error("ACCESS is refused"), PermissionStatus::Denied);
    assert_eq!(classify_audio_probe_error("Odd"), PermissionStatus::NotDetermined);
    assert_eq!(classify_audio_probe_error("Unplugged"), PermissionStatus::NoDevice);
}

#[test]
fn windows_settings_can_deny_the_microphone() {
    let paths = candidate_microphone_registry_paths(Some("C:\\a\\b.exe"));
    assert_eq!(paths.len(), 4);
    assert!(paths[3].ends_with("\\NonPackaged\\C:#a#b.exe"));
    match registry_key("HKLM\\SOFTWARE\\x") {
        Some((hive, key)) => {
            assert_eq!(hive, RegistryHive::LocalMachine);
            assert_eq!(key, "SOFTWARE\\x");
        },
        None => panic!("no key"),
    }
    assert!(registry_key("HKCR\\x").is_none());
    assert!(is_deny_value(Some("deny")));
    assert!(!is_deny_value(Some("Allow")));
    assert!(windows_microphone_access_explicitly_denied(Platform::Windows, &[false, true]));
    assert!(!windows_microphone_access_explicitly_denied(Platform::Macos, &[true]));
}
