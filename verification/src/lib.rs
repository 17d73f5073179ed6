//! Core logic of a dual-source meeting recorder: fixed-point sample
//! processing, linear resampling, stereo frame synchronization, the
//! recording session state machines, transcript-line parsing, and the
//! speaker-segment merge engine.

pub mod ai;
pub mod capture;
pub mod config;
pub mod devices;
pub mod errors;
pub mod merge;
pub mod parse;
pub mod recorder;
pub mod resample;
pub mod sample;
pub mod session;
pub mod writer;
