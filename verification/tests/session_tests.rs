use wizscribe::devices::AudioDevice;
use wizscribe::errors::RecorderError;
use wizscribe::session::{AudioSource, DualAudioRecorder};

fn mic_device(index: usize) -> AudioDevice {
    AudioDevice { name: format!("Mic {}", index), index, is_monitor: false }
}

fn monitor_device(index: usize) -> AudioDevice {
    AudioDevice { name: format!("Monitor {}", index), index, is_monitor: true }
}

#[test]
fn mono_fallback_without_monitor() {
    // one plain microphone, no monitor source anywhere: start succeeds
    // degraded to mono, and stop reports no system capture
    let devices = vec![mic_device(0)];
    let mut recorder = DualAudioRecorder::new("/tmp/audio".to_owned());
    let status = recorder.start("meeting-1", Some(0), None, &devices).unwrap();
    assert!(status.mic_active);
    assert!(!status.system_active);
    assert_eq!(status.system_device, "Not available");

    let handoff = recorder.stop().unwrap();
    assert!(handoff.mic_captured);
    assert!(!handoff.system_captured);
    let result = recorder.complete_stop(handoff, 12);
    assert_eq!(result.meeting_id, "meeting-1");
    assert_eq!(result.duration_secs, 12);
    assert!(result.mic_captured);
    assert!(!result.system_captured);
    assert!(!result.is_dual_audio);
}

#[test]
fn no_mic_failure_leaves_idle() {
    let devices: Vec<AudioDevice> = Vec::new();
    let mut recorder = DualAudioRecorder::new("/tmp/audio".to_owned());
    let err = recorder.start("meeting-2", None, None, &devices).unwrap_err();
    assert_eq!(err, RecorderError::NoMicrophoneDevice);
    assert_eq!(err.message(), "No microphone device available");
    let status = recorder.get_status();
    assert!(!status.is_recording);
    assert!(status.meeting_id.is_none());
}

#[test]
fn double_stop_second_fails() {
    let devices = vec![mic_device(0), monitor_device(1)];
    let mut recorder = DualAudioRecorder::new("/tmp/audio".to_owned());
    recorder.start("meeting-3", None, None, &devices).unwrap();

    let handoff = recorder.stop().unwrap();
    let result = recorder.complete_stop(handoff, 42);
    assert_eq!(result.duration_secs, 42);
    assert!(result.is_dual_audio);

    let second = recorder.stop();
    assert_eq!(second.unwrap_err(), RecorderError::NotRecording);
    // the first result is a finished value, untouched by the failed call
    assert_eq!(result.meeting_id, "meeting-3");
    assert_eq!(result.duration_secs, 42);
}

#[test]
fn start_while_recording_fails() {
    let devices = vec![mic_device(0)];
    let mut recorder = DualAudioRecorder::new("/tmp/audio".to_owned());
    recorder.start("meeting-4", Some(0), None, &devices).unwrap();
    let err = recorder.start("meeting-5", Some(0), None, &devices).unwrap_err();
    assert_eq!(err, RecorderError::AlreadyRecording);
    let status = recorder.get_status();
    assert_eq!(status.meeting_id.as_deref(), Some("meeting-4"));
}

#[test]
fn explicit_mic_index_out_of_range() {
    let devices = vec![mic_device(0)];
    let mut recorder = DualAudioRecorder::new("/tmp".to_owned());
    let err = recorder.start("m", Some(7), None, &devices).unwrap_err();
    assert_eq!(err, RecorderError::DeviceNotFound);
    assert!(!recorder.get_status().is_recording);
}

#[test]
fn defaults_pick_first_of_each_role() {
    // catalog: monitor, mic, monitor, mic — default mic is index 1,
    // default monitor index 0
    let devices = vec![monitor_device(0), mic_device(1), monitor_device(2), mic_device(3)];
    let mut recorder = DualAudioRecorder::new("/tmp".to_owned());
    let status = recorder.start("m", None, None, &devices).unwrap();
    assert_eq!(status.mic_device, "Mic 1");
    assert_eq!(status.system_device, "Monitor 0");
    assert!(status.system_active);
}

#[test]
fn unavailable_system_index_degrades_to_mono() {
    let devices = vec![mic_device(0)];
    let mut recorder = DualAudioRecorder::new("/tmp".to_owned());
    let status = recorder.start("m", Some(0), Some(9), &devices).unwrap();
    assert!(!status.system_active);
    assert_eq!(status.system_device, "Not available");
}

#[test]
fn start_reports_audio_path() {
    let devices = vec![mic_device(0)];
    let mut recorder = DualAudioRecorder::new("/data/audio".to_owned());
    let status = recorder.start("abc-123", Some(0), None, &devices).unwrap();
    assert_eq!(status.audio_path, "/data/audio/abc-123.wav");
    let handoff = recorder.stop().unwrap();
    assert_eq!(handoff.audio_path, "/data/audio/abc-123.wav");
}

#[test]
fn source_failure_flips_flag_and_reports() {
    let devices = vec![mic_device(0), monitor_device(1)];
    let mut recorder = DualAudioRecorder::new("/tmp".to_owned());
    recorder.start("m", None, None, &devices).unwrap();

    let event = recorder.report_source_failure(
        AudioSource::System,
        "device disconnected".to_owned(),
        99,
    );
    assert_eq!(event.source, "system");
    assert_eq!(event.error, "device disconnected");
    assert_eq!(event.timestamp, 99);
    assert!(event.recording_continues);

    let status = recorder.get_status();
    assert!(status.is_recording);
    assert!(status.mic_active);
    assert!(!status.system_active);

    // losing the mic too: nothing is left to record from
    let event2 = recorder.report_source_failure(AudioSource::Mic, "gone".to_owned(), 100);
    assert_eq!(event2.source, "mic");
    assert!(!event2.recording_continues);
}

#[test]
fn stop_reports_liveness_at_stop_time() {
    let devices = vec![mic_device(0), monitor_device(1)];
    let mut recorder = DualAudioRecorder::new("/tmp".to_owned());
    recorder.start("m", None, None, &devices).unwrap();
    recorder.report_source_failure(AudioSource::System, "lost".to_owned(), 1);
    let handoff = recorder.stop().unwrap();
    assert!(handoff.mic_captured);
    assert!(!handoff.system_captured);
    let result = recorder.complete_stop(handoff, 5);
    assert!(!result.is_dual_audio);
}
