//! Error values of the recording sessions and of device configuration.

use vstd::prelude::*;

verus! {

/// Why a session operation was rejected. These are caller errors or missing
/// hardware, reported synchronously and without mutating session state.
#[derive(Clone, Copy, Debug, PartialEq, Eq, Structural)]
pub enum RecorderError {
    /// `start` was called while a session is already live.
    AlreadyRecording,
    /// `stop` was called while no session is live.
    NotRecording,
    /// `resume` was called while not paused.
    NotPaused,
    /// No microphone could be resolved: none chosen and none to default to.
    NoMicrophoneDevice,
    /// A chosen device index does not exist in the catalog.
    DeviceNotFound,
}

/// The message text of a recorder error.
pub open spec fn recorder_error_message(e: RecorderError) -> Seq<char> {
    match e {
        RecorderError::AlreadyRecording => "Already recording"@,
        RecorderError::NotRecording => "Not recording"@,
        RecorderError::NotPaused => "Not paused"@,
        RecorderError::NoMicrophoneDevice => "No microphone device available"@,
        RecorderError::DeviceNotFound => "Device not found"@,
    }
}

impl RecorderError {
    /// The user-visible message for this error.
    pub fn message(&self) -> (s: String)
        ensures
            s@ == recorder_error_message(*self),
    {
        match self {
            RecorderError::AlreadyRecording => "Already recording".to_owned(),
            RecorderError::NotRecording => "Not recording".to_owned(),
            RecorderError::NotPaused => "Not paused".to_owned(),
            RecorderError::NoMicrophoneDevice => "No microphone device available".to_owned(),
            RecorderError::DeviceNotFound => "Device not found".to_owned(),
        }
    }
}

/// Why a chosen device pair was rejected.
#[derive(Clone, Copy, Debug, PartialEq, Eq, Structural)]
pub enum ConfigError {
    /// The chosen mic index does not exist in the catalog.
    InvalidMicIndex,
    /// The chosen system index does not exist in the catalog.
    InvalidSystemIndex,
    /// The chosen system device is not a monitor source.
    NotMonitorSource,
}

/// The message text of a configuration error.
pub open spec fn config_error_message(e: ConfigError) -> Seq<char> {
    match e {
        ConfigError::InvalidMicIndex => "Invalid mic device index"@,
        ConfigError::InvalidSystemIndex => "Invalid system device index"@,
        ConfigError::NotMonitorSource => "Device is not a monitor source"@,
    }
}

impl ConfigError {
    /// The user-visible message for this error.
    pub fn message(&self) -> (s: String)
        ensures
            s@ == config_error_message(*self),
    {
        match self {
            ConfigError::InvalidMicIndex => "Invalid mic device index".to_owned(),
            ConfigError::InvalidSystemIndex => "Invalid system device index".to_owned(),
            ConfigError::NotMonitorSource => "Device is not a monitor source".to_owned(),
        }
    }
}

} // verus!
