//! Verified core of a C ABI bridge to an audio engine.
//!
//! The bridge keeps one error slot, one engine slot and a handle table per kind
//! of object. Each entry point that can fail has a step function in [`entry`]
//! that empties the error slot, runs the checks in order, hands the audio work
//! to a closure from the host (or, for waveform peaks, hands back the work
//! left to do on success only) and returns the host's code; its contract states
//! that the code reports success exactly when the error slot is empty
//! afterwards. The entry points that only read a float (latency, clip length,
//! playback position) are left to the host, which reads them through
//! [`engine::EngineSlot::manager`] and [`handles::HandleTable::get`].

pub mod error;
pub mod handles;
pub mod engine;
pub mod clip;
pub mod entry;
