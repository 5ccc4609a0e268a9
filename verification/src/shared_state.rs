//! Shared state for the plugin GUI ↔ audio thread communication.
//!
//! The plugin GUI only needs three numbers from the audio thread: the CPU
//! load, the number of active voices and the maximum number of voices.
//! Each lives in its own atomic; the values read back are whatever the
//! other thread stored last.

use std::sync::atomic::{AtomicU32, AtomicUsize, Ordering};
use std::sync::Arc;
use vstd::prelude::*;

verus! {

/// Lightweight state shared between the plugin GUI and the audio thread.
#[derive(Clone)]
pub struct PluginSharedState {
    /// CPU load as a percentage (0–100), stored as f32 bits in an atomic u32.
    cpu_load: Arc<AtomicU32>,
    /// Number of currently active voices.
    voice_count: Arc<AtomicUsize>,
    /// Maximum number of voices the engine can play.
    max_voices: Arc<AtomicUsize>,
}

impl PluginSharedState {
    /// The shared cell holding the CPU load (f32 bits).
    pub closed spec fn cpu_load_cell(&self) -> Arc<AtomicU32> {
        self.cpu_load
    }

    pub fn new() -> Self {
        Self {
            cpu_load: Arc::new(AtomicU32::new(0)),
            voice_count: Arc::new(AtomicUsize::new(0)),
            max_voices: Arc::new(AtomicUsize::new(0)),
        }
    }

    pub fn voice_count(&self) -> usize {
        self.voice_count.load(Ordering::Relaxed)
    }

    pub fn set_voice_count(&self, count: usize) {
        self.voice_count.store(count, Ordering::Relaxed);
    }

    pub fn max_voices(&self) -> usize {
        self.max_voices.load(Ordering::Relaxed)
    }

    pub fn set_max_voices(&self, max: usize) {
        self.max_voices.store(max, Ordering::Relaxed);
    }

    /// Returns a clone of the inner `Arc` so the audio thread can write to it.
    pub fn cpu_load_arc(&self) -> (r: Arc<AtomicU32>)
        ensures
            r == self.cpu_load_cell(),
    {
        Arc::clone(&self.cpu_load)
    }
}

} // verus!
