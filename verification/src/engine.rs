//! The slot that holds the running audio engine.
//!
//! There is at most one engine. Starting it while it runs is a success that
//! changes nothing; operations that need it while it is stopped fail with
//! [`Failure::NotInitialized`].

use vstd::prelude::*;
use crate::error::{ErrorInfo, Failure, set_error, clear_error, stored_message, message_of};

verus! {

/// How a configuration value from the host is handed to the audio backend:
/// 0 leaves the choice to the backend.
pub open spec fn backend_choice(v: u32) -> Option<u32> {
    if v == 0 {
        None
    } else {
        Some(v)
    }
}

/// The value for the backend of a configuration value from the host.
pub fn backend_option(v: u32) -> (r: Option<u32>)
    ensures
        r == backend_choice(v),
        v == 0 ==> r is None,
        v != 0 ==> r == Some(v),
{
    if v == 0 {
        None
    } else {
        Some(v)
    }
}

/// The capacity the engine is asked for when a sound effect is created
/// with `buffer_size` from the host: 0 leaves it to the engine's default.
pub open spec fn capacity_choice(buffer_size: u32) -> Option<usize> {
    if buffer_size == 0 {
        None
    } else {
        Some(buffer_size as usize)
    }
}

/// The capacity of a new sound effect, in instances that can play at once,
/// for the value from the host: 0 leaves it to the engine's default.
pub fn sfx_capacity(buffer_size: u32) -> (r: Option<usize>)
    ensures
        r == capacity_choice(buffer_size),
        buffer_size == 0 ==> r is None,
        buffer_size != 0 ==> r == Some(buffer_size as usize),
{
    if buffer_size == 0 {
        None
    } else {
        Some(buffer_size as usize)
    }
}

/// What the host is told of whether a music track is paused: 1 when it is,
/// or when the handle named no track; 0 when it plays.
pub fn paused_status(paused: Option<bool>) -> (r: u8)
    ensures
        r == (match paused {
            Some(false) => 0u8,
            _ => 1u8,
        }),
{
    match paused {
        Some(false) => 0,
        _ => 1,
    }
}

/// A nonzero setting from the host reaches the backend unchanged; only 0
/// leaves the choice to the backend.
pub proof fn lemma_settings_pass_through(v: u32)
    ensures
        v != 0 ==> backend_choice(v) == Some(v),
        backend_choice(v) is None <==> v == 0,
{
}

/// A nonzero sound effect capacity from the host reaches the engine
/// unchanged; only 0 leaves it to the engine's default.
pub proof fn lemma_capacity_passes_through(buffer_size: u32)
    ensures
        buffer_size != 0 ==> capacity_choice(buffer_size) == Some(buffer_size as usize),
        capacity_choice(buffer_size) is None <==> buffer_size == 0,
        capacity_choice(buffer_size) matches Some(n) ==> n == buffer_size,
{
}

/// The settings a new engine is to be started with.
pub struct BackendSettings {
    /// The preferred sample rate, or the backend's choice.
    pub sample_rate: Option<u32>,
    /// The buffer size in frames, or the backend's choice.
    pub buffer_size: Option<u32>,
}

/// The engine of the bridge, when one runs.
pub struct EngineSlot<M> {
    manager: Option<M>,
}

impl<M> View for EngineSlot<M> {
    type V = Option<M>;

    closed spec fn view(&self) -> Option<M> {
        self.manager
    }
}

impl<M> EngineSlot<M> {
    /// A slot with no engine in it.
    pub fn new() -> (r: EngineSlot<M>)
        ensures
            r@ is None,
    {
        EngineSlot { manager: None }
    }

    /// Starts a request to run the engine: empties the error slot, and
    /// hands back the settings to start an engine with, or `None` when one
    /// already runs and nothing is to be started.
    pub fn initialize_request(&self, errors: &mut ErrorInfo, sample_rate: u32, buffer_size: u32) -> (r: Option<BackendSettings>)
        ensures
            final(errors)@ is None,
            match r {
                None => self@ is Some,
                Some(s) => {
                    &&& self@ is None
                    &&& s.sample_rate == backend_choice(sample_rate)
                    &&& s.buffer_size == backend_choice(buffer_size)
                },
            },
    {
        clear_error(errors);
        if self.manager.is_some() {
            None
        } else {
            Some(BackendSettings {
                sample_rate: backend_option(sample_rate),
                buffer_size: backend_option(buffer_size),
            })
        }
    }

    /// Completes a request to run the engine with what starting it gave:
    /// 1 with the engine in the slot, or 0 with the failure recorded.
    pub fn install(&mut self, errors: &mut ErrorInfo, outcome: Result<M, Failure>) -> (r: u8)
        requires
            old(self)@ is None,
        ensures
            match outcome {
                Ok(m) => r == 1 && final(self)@ == Some(m) && final(errors)@ == old(errors)@,
                Err(f) => {
                    &&& r == 0
                    &&& final(self)@ is None
                    &&& final(errors)@ == Some(stored_message(message_of(f)))
                },
            },
    {
        match outcome {
            Ok(m) => {
                self.manager = Some(m);
                1
            },
            Err(f) => {
                set_error(errors, f);
                0
            },
        }
    }

    /// Stops the engine, if one runs, and empties the error slot.
    #[allow(non_snake_case)]
    pub fn SasaUnity_Shutdown(&mut self, errors: &mut ErrorInfo)
        ensures
            final(self)@ is None,
            final(errors)@ is None,
    {
        clear_error(errors);
        self.manager = None;
    }

    /// 1 when an engine runs, 0 when none does.
    #[allow(non_snake_case)]
    pub fn SasaUnity_IsValid(&self) -> (r: u8)
        ensures
            r == (if self@ is Some { 1u8 } else { 0u8 }),
    {
        if self.manager.is_some() {
            1
        } else {
            0
        }
    }

    /// The running engine, if any; the error slot is left alone.
    pub fn manager(&self) -> (r: Option<&M>)
        ensures
            match r {
                Some(m) => self@ == Some(*m),
                None => self@ is None,
            },
    {
        match &self.manager {
            Some(m) => Some(m),
            None => None,
        }
    }

    /// The running engine, to operate on; when none runs, records
    /// [`Failure::NotInitialized`] instead.
    pub fn manager_mut(&mut self, errors: &mut ErrorInfo) -> (r: Option<&mut M>)
        ensures
            match r {
                Some(m) => {
                    &&& old(self)@ == Some(*m)
                    &&& final(self)@ == Some(*final(m))
                    &&& final(errors)@ == old(errors)@
                },
                None => {
                    &&& old(self)@ is None
                    &&& final(self)@ is None
                    &&& final(errors)@ == Some(stored_message(message_of(Failure::NotInitialized)))
                },
            },
    {
        match self.manager.as_mut() {
            Some(m) => Some(m),
            None => {
                set_error(errors, Failure::NotInitialized);
                None
            },
        }
    }
}

} // verus!
