use wizscribe::devices::{filter_devices, get_default_devices, validate_device_selection, AudioDevice};
use wizscribe::errors::ConfigError;

fn device(index: usize, is_monitor: bool) -> AudioDevice {
    AudioDevice { name: format!("dev{}", index), index, is_monitor }
}

#[test]
fn defaults_first_of_each_kind() {
    let devices = vec![device(0, true), device(1, false), device(2, true), device(3, false)];
    let (mic, monitor) = get_default_devices(&devices);
    assert_eq!(mic, Some(1));
    assert_eq!(monitor, Some(0));
}

#[test]
fn defaults_none_when_kind_missing() {
    let only_mics = vec![device(0, false), device(1, false)];
    let (mic, monitor) = get_default_devices(&only_mics);
    assert_eq!(mic, Some(0));
    assert_eq!(monitor, None);

    let empty: Vec<AudioDevice> = Vec::new();
    let (mic, monitor) = get_default_devices(&empty);
    assert_eq!(mic, None);
    assert_eq!(monitor, None);
}

#[test]
fn filter_keeps_requested_role_in_order() {
    let devices = vec![device(0, true), device(1, false), device(2, true)];
    let monitors = filter_devices(devices, true);
    assert_eq!(monitors.len(), 2);
    assert_eq!(monitors[0].index, 0);
    assert_eq!(monitors[1].index, 2);

    let devices = vec![device(0, true), device(1, false), device(2, true)];
    let mics = filter_devices(devices, false);
    assert_eq!(mics.len(), 1);
    assert_eq!(mics[0].index, 1);
}

#[test]
fn validate_accepts_good_selection() {
    let devices = vec![device(0, false), device(1, true)];
    assert!(validate_device_selection(&devices, Some(0), Some(1)).is_ok());
    assert!(validate_device_selection(&devices, None, None).is_ok());
    assert!(validate_device_selection(&devices, Some(1), None).is_ok());
}

#[test]
fn validate_rejects_mic_out_of_range() {
    let devices = vec![device(0, false)];
    let err = validate_device_selection(&devices, Some(5), None).unwrap_err();
    assert_eq!(err, ConfigError::InvalidMicIndex);
    assert_eq!(err.message(), "Invalid mic device index");
}

#[test]
fn validate_rejects_system_out_of_range() {
    let devices = vec![device(0, false)];
    let err = validate_device_selection(&devices, None, Some(5)).unwrap_err();
    assert_eq!(err, ConfigError::InvalidSystemIndex);
}

#[test]
fn validate_rejects_non_monitor_system() {
    let devices = vec![device(0, false), device(1, false)];
    let err = validate_device_selection(&devices, None, Some(1)).unwrap_err();
    assert_eq!(err, ConfigError::NotMonitorSource);
    assert_eq!(err.message(), "Device is not a monitor source");
}
