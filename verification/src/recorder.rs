//! The single-source recording session: a three-state machine
//! (idle / recording / paused) over one capture device.
//!
//! As in the dual session, only the decisions live here; spawning the
//! capture thread, the stop grace period and measuring the finished file
//! happen outside the library.

use vstd::prelude::*;
use vstd::string::StringExecFns;

use crate::errors::RecorderError;
use crate::session::audio_file_path;

verus! {

/// Lifecycle state of the single-source recorder.
#[derive(Clone, Copy, Debug, PartialEq, Eq, Structural)]
pub enum RecordingState {
    Idle,
    Recording,
    Paused,
}

/// A read-only snapshot of the recorder: its state and the meeting being
/// recorded, if any.
#[derive(Debug)]
pub struct RecorderStateSnapshot {
    pub state: RecordingState,
    pub meeting_id: Option<String>,
}

/// Records one meeting at a time from a single capture device.
pub struct AudioRecorder {
    pub audio_dir: String,
    pub state: RecordingState,
    pub current_meeting_id: Option<String>,
    pub sample_rate: u32,
    pub is_recording: bool,
}

/// Away from `Idle` the recorder always knows which meeting it records.
pub open spec fn recorder_wf(r: AudioRecorder) -> bool {
    r.state != RecordingState::Idle ==> r.current_meeting_id is Some
}

impl AudioRecorder {
    /// An idle recorder that will record into `audio_dir`.
    pub fn new(audio_dir: String) -> (r: AudioRecorder)
        ensures
            r.audio_dir == audio_dir,
            r.state == RecordingState::Idle,
            r.current_meeting_id is None,
            r.sample_rate == 16000,
            !r.is_recording,
            recorder_wf(r),
    {
        AudioRecorder {
            audio_dir,
            state: RecordingState::Idle,
            current_meeting_id: None,
            sample_rate: 16000,
            is_recording: false,
        }
    }

    /// A non-blocking read-only snapshot of the state and meeting id.
    pub fn get_state(&self) -> (s: RecorderStateSnapshot)
        ensures
            s.state == self.state,
            s.meeting_id is Some <==> self.current_meeting_id is Some,
            s.meeting_id is Some ==> s.meeting_id->0 == self.current_meeting_id->0,
    {
        let meeting_id: Option<String> = match &self.current_meeting_id {
            Some(id) => Some(id.clone()),
            None => None,
        };
        RecorderStateSnapshot { state: self.state, meeting_id }
    }

    /// Start recording `meeting_id`: fails only while already recording,
    /// without mutating the state; otherwise moves to `Recording`, raises
    /// the shared flag the capture thread polls, and returns the path the
    /// audio file will be written to.
    pub fn start_recording(&mut self, meeting_id: &str) -> (r: Result<String, RecorderError>)
        ensures
            old(self).state == RecordingState::Recording ==> r == Result::<
                String,
                RecorderError,
            >::Err(RecorderError::AlreadyRecording) && *final(self) == *old(self),
            old(self).state != RecordingState::Recording ==> ({
                &&& r is Ok
                &&& r->Ok_0@ == audio_file_path(old(self).audio_dir@, meeting_id@)
                &&& final(self).state == RecordingState::Recording
                &&& final(self).is_recording
                &&& final(self).current_meeting_id is Some
                &&& final(self).current_meeting_id->0@ == meeting_id@
                &&& final(self).audio_dir == old(self).audio_dir
                &&& final(self).sample_rate == old(self).sample_rate
            }),
            recorder_wf(*old(self)) ==> recorder_wf(*final(self)),
    {
        if self.state == RecordingState::Recording {
            return Err(RecorderError::AlreadyRecording);
        }

        self.current_meeting_id = Some(meeting_id.to_owned());
        self.state = RecordingState::Recording;
        self.is_recording = true;

        let audio_path = self.audio_dir.clone().concat("/").concat(meeting_id).concat(".wav");
        Ok(audio_path)
    }

    /// Begin stopping: fails while idle; otherwise clears the shared flag
    /// (the capture thread observes this and finalizes the file), returns
    /// to `Idle`, and hands back the meeting id so the caller can measure
    /// the finished file.
    pub fn stop_recording(&mut self) -> (r: Result<String, RecorderError>)
        requires
            recorder_wf(*old(self)),
        ensures
            old(self).state == RecordingState::Idle ==> r == Result::<
                String,
                RecorderError,
            >::Err(RecorderError::NotRecording) && *final(self) == *old(self),
            old(self).state != RecordingState::Idle ==> ({
                &&& r is Ok
                &&& r->Ok_0 == old(self).current_meeting_id->0
                &&& final(self).state == RecordingState::Idle
                &&& !final(self).is_recording
                &&& final(self).current_meeting_id is None
                &&& final(self).audio_dir == old(self).audio_dir
                &&& final(self).sample_rate == old(self).sample_rate
            }),
            recorder_wf(*final(self)),
    {
        if self.state == RecordingState::Idle {
            return Err(RecorderError::NotRecording);
        }

        self.is_recording = false;
        self.state = RecordingState::Idle;
        let meeting_id: String = match self.current_meeting_id.take() {
            Some(id) => id,
            None => String::new(),
        };
        Ok(meeting_id)
    }

    /// Pause a live recording: fails unless currently `Recording`; only
    /// the state changes.
    pub fn pause_recording(&mut self) -> (r: Result<(), RecorderError>)
        ensures
            old(self).state != RecordingState::Recording ==> r == Result::<
                (),
                RecorderError,
            >::Err(RecorderError::NotRecording) && *final(self) == *old(self),
            old(self).state == RecordingState::Recording ==> ({
                &&& r is Ok
                &&& final(self).state == RecordingState::Paused
                &&& final(self).is_recording == old(self).is_recording
                &&& final(self).current_meeting_id == old(self).current_meeting_id
                &&& final(self).audio_dir == old(self).audio_dir
                &&& final(self).sample_rate == old(self).sample_rate
            }),
            recorder_wf(*old(self)) ==> recorder_wf(*final(self)),
    {
        if self.state != RecordingState::Recording {
            return Err(RecorderError::NotRecording);
        }
        self.state = RecordingState::Paused;
        Ok(())
    }

    /// Resume a paused recording: fails unless currently `Paused`; only
    /// the state changes.
    pub fn resume_recording(&mut self) -> (r: Result<(), RecorderError>)
        ensures
            old(self).state != RecordingState::Paused ==> r == Result::<(), RecorderError>::Err(
                RecorderError::NotPaused,
            ) && *final(self) == *old(self),
            old(self).state == RecordingState::Paused ==> ({
                &&& r is Ok
                &&& final(self).state == RecordingState::Recording
                &&& final(self).is_recording == old(self).is_recording
                &&& final(self).current_meeting_id == old(self).current_meeting_id
                &&& final(self).audio_dir == old(self).audio_dir
                &&& final(self).sample_rate == old(self).sample_rate
            }),
            recorder_wf(*old(self)) ==> recorder_wf(*final(self)),
    {
        if self.state != RecordingState::Paused {
            return Err(RecorderError::NotPaused);
        }
        self.state = RecordingState::Recording;
        Ok(())
    }
}

} // verus!
