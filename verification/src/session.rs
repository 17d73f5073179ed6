//! The dual-capture recording session: a state machine over the liveness
//! flags `is_recording`, `mic_active` and `system_active`.
//!
//! `start` resolves the two devices against a catalog snapshot and moves the
//! session to recording; a missing microphone is fatal while a missing
//! monitor source only degrades the session to mono capture. `stop` clears
//! the recording flag and hands the caller what it needs to finalize the
//! sink and measure the file; `complete_stop` then folds the measured
//! duration into the final result. Only the decisions live here: opening
//! devices, running capture threads and waiting out the stop grace period
//! happen outside the library, driven by these contracts.

use vstd::prelude::*;
use vstd::string::StringExecFns;

use crate::devices::{first_role_index, AudioDevice};
use crate::errors::RecorderError;

verus! {

/// The `.wav` file path for a meeting inside the audio directory.
pub open spec fn audio_file_path(dir: Seq<char>, meeting_id: Seq<char>) -> Seq<char> {
    dir + "/"@ + meeting_id + ".wav"@
}

/// The mic device index the session will use: the explicit choice if one
/// was made, else the catalog's default mic.
pub open spec fn resolved_mic_index(
    devices: Seq<AudioDevice>,
    explicit: Option<usize>,
) -> Option<int> {
    match explicit {
        Some(i) => Some(i as int),
        None => first_role_index(devices, false),
    }
}

/// The monitor device index the session will use: the explicit choice if
/// one was made, else the catalog's default monitor source.
pub open spec fn resolved_system_index(
    devices: Seq<AudioDevice>,
    explicit: Option<usize>,
) -> Option<int> {
    match explicit {
        Some(i) => Some(i as int),
        None => first_role_index(devices, true),
    }
}

/// Whether the session captures the system channel at all: a monitor
/// device was resolved and exists in the catalog.
pub open spec fn has_system_audio(devices: Seq<AudioDevice>, explicit: Option<usize>) -> bool {
    match resolved_system_index(devices, explicit) {
        Some(i) => 0 <= i < devices.len(),
        None => false,
    }
}

/// Status returned when dual recording starts.
#[derive(Debug)]
pub struct DualRecordingStatus {
    pub audio_path: String,
    pub mic_active: bool,
    pub system_active: bool,
    pub mic_device: String,
    pub system_device: String,
}

/// Result returned once a stopped recording has been measured.
#[derive(Debug)]
pub struct DualRecordingResult {
    pub meeting_id: String,
    pub duration_secs: u64,
    pub is_dual_audio: bool,
    pub mic_captured: bool,
    pub system_captured: bool,
}

/// What `stop` hands the caller: the identity of the finished recording
/// and which sources were live when it was stopped. The caller finalizes
/// the sink, measures the file, and passes this to `complete_stop`.
#[derive(Debug)]
pub struct DualStopHandoff {
    pub meeting_id: String,
    pub audio_path: String,
    pub mic_captured: bool,
    pub system_captured: bool,
}

/// A read-only snapshot of the session's flags and resolved device names.
#[derive(Debug)]
pub struct DualStatusSnapshot {
    pub is_recording: bool,
    pub mic_active: bool,
    pub system_active: bool,
    pub mic_device: String,
    pub system_device: String,
    pub meeting_id: Option<String>,
}

/// Which physical source an event concerns.
#[derive(Clone, Copy, Debug, PartialEq, Eq, Structural)]
pub enum AudioSource {
    Mic,
    System,
}

/// The name a source reports itself under in error events.
pub open spec fn source_label(s: AudioSource) -> Seq<char> {
    match s {
        AudioSource::Mic => "mic"@,
        AudioSource::System => "system"@,
    }
}

/// Error event reported when a source fails mid-session.
#[derive(Debug)]
pub struct AudioSourceError {
    pub source: String,
    pub error: String,
    pub timestamp: u64,
    pub recording_continues: bool,
}

/// Coordinates dual audio stream recording. Only one session may be live
/// at a time; starting while live and stopping while idle are caller
/// errors, rejected without touching the state.
pub struct DualAudioRecorder {
    pub audio_dir: String,
    pub current_meeting_id: Option<String>,
    pub is_recording: bool,
    pub mic_active: bool,
    pub system_active: bool,
    pub mic_device_name: String,
    pub system_device_name: String,
    pub sample_rate: u32,
}

impl DualAudioRecorder {
    /// An idle session that will record into `audio_dir`.
    pub fn new(audio_dir: String) -> (r: DualAudioRecorder)
        ensures
            r.audio_dir == audio_dir,
            r.current_meeting_id is None,
            !r.is_recording,
            !r.mic_active,
            !r.system_active,
            r.mic_device_name@ == Seq::<char>::empty(),
            r.system_device_name@ == Seq::<char>::empty(),
            r.sample_rate == 16000,
    {
        DualAudioRecorder {
            audio_dir,
            current_meeting_id: None,
            is_recording: false,
            mic_active: false,
            system_active: false,
            mic_device_name: String::new(),
            system_device_name: String::new(),
            sample_rate: 16000,
        }
    }

    /// Start recording `meeting_id` from the given catalog snapshot.
    ///
    /// Fails while already recording, when no microphone can be resolved,
    /// and when the resolved microphone is not in the catalog — all
    /// without mutating the session. A missing or unresolvable monitor
    /// source is not an error: the session degrades to mic-only capture
    /// and reports the system channel inactive.
    pub fn start(
        &mut self,
        meeting_id: &str,
        mic_device_index: Option<usize>,
        system_device_index: Option<usize>,
        devices: &Vec<AudioDevice>,
    ) -> (r: Result<DualRecordingStatus, RecorderError>)
        ensures
            old(self).is_recording ==> r == Result::<
                DualRecordingStatus,
                RecorderError,
            >::Err(RecorderError::AlreadyRecording) && *final(self) == *old(self),
            !old(self).is_recording && resolved_mic_index(devices@, mic_device_index) is None
                ==> r == Result::<DualRecordingStatus, RecorderError>::Err(
                RecorderError::NoMicrophoneDevice,
            ) && *final(self) == *old(self),
            !old(self).is_recording && resolved_mic_index(devices@, mic_device_index) is Some
                && resolved_mic_index(devices@, mic_device_index)->0 >= devices@.len() ==> r
                == Result::<DualRecordingStatus, RecorderError>::Err(
                RecorderError::DeviceNotFound,
            ) && *final(self) == *old(self),
            ({
                let mic = resolved_mic_index(devices@, mic_device_index);
                &&& !old(self).is_recording
                &&& mic is Some
                &&& mic->0 < devices@.len()
            }) ==> ({
                let mic_i = resolved_mic_index(devices@, mic_device_index)->0;
                let has_system = has_system_audio(devices@, system_device_index);
                let sys_i = resolved_system_index(devices@, system_device_index)->0;
                let path = audio_file_path(old(self).audio_dir@, meeting_id@);
                &&& r is Ok
                &&& final(self).is_recording
                &&& final(self).mic_active
                &&& final(self).system_active == has_system
                &&& final(self).current_meeting_id is Some
                &&& final(self).current_meeting_id->0@ == meeting_id@
                &&& final(self).mic_device_name == devices@[mic_i].name
                &&& (has_system ==> final(self).system_device_name == devices@[sys_i].name)
                &&& (!has_system ==> final(self).system_device_name@ == "Not available"@)
                &&& final(self).audio_dir == old(self).audio_dir
                &&& final(self).sample_rate == old(self).sample_rate
                &&& r->Ok_0.audio_path@ == path
                &&& r->Ok_0.mic_active
                &&& r->Ok_0.system_active == has_system
                &&& r->Ok_0.mic_device == final(self).mic_device_name
                &&& r->Ok_0.system_device == final(self).system_device_name
            }),
    {
        if self.is_recording {
            return Err(RecorderError::AlreadyRecording);
        }

        let (default_mic, default_system) = crate::devices::get_default_devices(devices);
        let mic_idx: usize = match mic_device_index {
            Some(i) => i,
            None => match default_mic {
                Some(i) => i,
                None => {
                    return Err(RecorderError::NoMicrophoneDevice);
                },
            },
        };
        if mic_idx >= devices.len() {
            return Err(RecorderError::DeviceNotFound);
        }
        self.mic_device_name = devices[mic_idx].name.clone();

        let system_idx: Option<usize> = match system_device_index {
            Some(i) => Some(i),
            None => default_system,
        };
        let has_system: bool = match system_idx {
            Some(i) => {
                if i < devices.len() {
                    self.system_device_name = devices[i].name.clone();
                    true
                } else {
                    self.system_device_name = "Not available".to_owned();
                    false
                }
            },
            None => {
                self.system_device_name = "Not available".to_owned();
                false
            },
        };

        self.current_meeting_id = Some(meeting_id.to_owned());
        self.is_recording = true;
        self.mic_active = true;
        self.system_active = has_system;

        let audio_path = self.audio_dir.clone().concat("/").concat(meeting_id).concat(".wav");
        assert(audio_path@ == audio_file_path(old(self).audio_dir@, meeting_id@));

        Ok(
            DualRecordingStatus {
                audio_path,
                mic_active: true,
                system_active: has_system,
                mic_device: self.mic_device_name.clone(),
                system_device: self.system_device_name.clone(),
            },
        )
    }

    /// Begin stopping: fails while idle; otherwise clears the recording
    /// flag (capture threads observe this and wind down) and hands back
    /// which sources were live and where the file is. The active flags
    /// stay readable until `complete_stop`.
    pub fn stop(&mut self) -> (r: Result<DualStopHandoff, RecorderError>)
        ensures
            !old(self).is_recording ==> r == Result::<DualStopHandoff, RecorderError>::Err(
                RecorderError::NotRecording,
            ) && *final(self) == *old(self),
            old(self).is_recording ==> ({
                &&& r is Ok
                &&& !final(self).is_recording
                &&& final(self).current_meeting_id is None
                &&& final(self).mic_active == old(self).mic_active
                &&& final(self).system_active == old(self).system_active
                &&& final(self).audio_dir == old(self).audio_dir
                &&& final(self).mic_device_name == old(self).mic_device_name
                &&& final(self).system_device_name == old(self).system_device_name
                &&& final(self).sample_rate == old(self).sample_rate
                &&& (old(self).current_meeting_id is Some ==> r->Ok_0.meeting_id == old(
                    self,
                ).current_meeting_id->0)
                &&& (old(self).current_meeting_id is None ==> r->Ok_0.meeting_id@ == Seq::<
                    char,
                >::empty())
                &&& r->Ok_0.mic_captured == old(self).mic_active
                &&& r->Ok_0.system_captured == old(self).system_active
                &&& r->Ok_0.audio_path@ == audio_file_path(
                    old(self).audio_dir@,
                    r->Ok_0.meeting_id@,
                )
            }),
    {
        if !self.is_recording {
            return Err(RecorderError::NotRecording);
        }

        let mic_captured = self.mic_active;
        let system_captured = self.system_active;
        self.is_recording = false;

        let meeting_id: String = match self.current_meeting_id.take() {
            Some(id) => id,
            None => String::new(),
        };
        let audio_path = self.audio_dir.clone().concat("/").concat(meeting_id.as_str()).concat(
            ".wav",
        );

        Ok(DualStopHandoff { meeting_id, audio_path, mic_captured, system_captured })
    }

    /// Finish stopping once the finalized file has been measured: clears
    /// the per-source flags and reports what was captured, with
    /// `is_dual_audio` exactly when both sources were live at stop time.
    pub fn complete_stop(
        &mut self,
        handoff: DualStopHandoff,
        duration_secs: u64,
    ) -> (r: DualRecordingResult)
        ensures
            !final(self).mic_active,
            !final(self).system_active,
            final(self).is_recording == old(self).is_recording,
            final(self).current_meeting_id == old(self).current_meeting_id,
            final(self).audio_dir == old(self).audio_dir,
            final(self).mic_device_name == old(self).mic_device_name,
            final(self).system_device_name == old(self).system_device_name,
            final(self).sample_rate == old(self).sample_rate,
            r.meeting_id == handoff.meeting_id,
            r.duration_secs == duration_secs,
            r.mic_captured == handoff.mic_captured,
            r.system_captured == handoff.system_captured,
            r.is_dual_audio == (handoff.mic_captured && handoff.system_captured),
    {
        self.mic_active = false;
        self.system_active = false;
        DualRecordingResult {
            meeting_id: handoff.meeting_id,
            duration_secs,
            is_dual_audio: handoff.mic_captured && handoff.system_captured,
            mic_captured: handoff.mic_captured,
            system_captured: handoff.system_captured,
        }
    }

    /// A non-blocking read-only snapshot of the session.
    pub fn get_status(&self) -> (s: DualStatusSnapshot)
        ensures
            s.is_recording == self.is_recording,
            s.mic_active == self.mic_active,
            s.system_active == self.system_active,
            s.mic_device == self.mic_device_name,
            s.system_device == self.system_device_name,
            s.meeting_id is Some <==> self.current_meeting_id is Some,
            s.meeting_id is Some ==> s.meeting_id->0 == self.current_meeting_id->0,
    {
        let meeting_id: Option<String> = match &self.current_meeting_id {
            Some(id) => Some(id.clone()),
            None => None,
        };
        DualStatusSnapshot {
            is_recording: self.is_recording,
            mic_active: self.mic_active,
            system_active: self.system_active,
            mic_device: self.mic_device_name.clone(),
            system_device: self.system_device_name.clone(),
            meeting_id,
        }
    }

    /// Record that a capture source failed mid-session: its liveness flag
    /// goes down, the other source is untouched, and the returned event
    /// says whether recording continues on a remaining live source.
    pub fn report_source_failure(
        &mut self,
        source: AudioSource,
        error: String,
        timestamp: u64,
    ) -> (ev: AudioSourceError)
        ensures
            source == AudioSource::Mic ==> !final(self).mic_active && final(self).system_active
                == old(self).system_active,
            source == AudioSource::System ==> !final(self).system_active && final(self).mic_active
                == old(self).mic_active,
            final(self).is_recording == old(self).is_recording,
            final(self).current_meeting_id == old(self).current_meeting_id,
            final(self).audio_dir == old(self).audio_dir,
            final(self).mic_device_name == old(self).mic_device_name,
            final(self).system_device_name == old(self).system_device_name,
            final(self).sample_rate == old(self).sample_rate,
            ev.source@ == source_label(source),
            ev.error == error,
            ev.timestamp == timestamp,
            ev.recording_continues == (final(self).is_recording && (final(self).mic_active
                || final(self).system_active)),
    {
        let label: String = match source {
            AudioSource::Mic => {
                self.mic_active = false;
                "mic".to_owned()
            },
            AudioSource::System => {
                self.system_active = false;
                "system".to_owned()
            },
        };
        let recording_continues = self.is_recording && (self.mic_active || self.system_active);
        AudioSourceError { source: label, error, timestamp, recording_continues }
    }
}

} // verus!
