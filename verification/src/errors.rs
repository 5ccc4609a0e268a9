//! Error types of the audio engine and of the preset store, with their
//! human-readable descriptions.

use vstd::prelude::*;

verus! {

/// Error type for audio engine operations
#[derive(Debug)]
pub enum AudioError {
    NoDevice,
    NoConfig,
    StreamError(String),
}

impl AudioError {
    /// Human-readable description of the error.
    pub fn describe(&self) -> (r: String)
        ensures
            r@ == match self {
                AudioError::NoDevice => "No audio output device found"@,
                AudioError::NoConfig => "No supported audio config found"@,
                AudioError::StreamError(e) => "Audio stream error: "@ + e@,
            },
    {
        match self {
            AudioError::NoDevice => String::from_str("No audio output device found"),
            AudioError::NoConfig => String::from_str("No supported audio config found"),
            AudioError::StreamError(e) => String::from_str("Audio stream error: ").concat(e.as_str()),
        }
    }
}

/// Error type for preset operations
#[derive(Debug, Clone, PartialEq)]
pub enum PresetError {
    Io(String),
    Serialization(String),
    Deserialization(String),
}

impl PresetError {
    /// Human-readable description of the error.
    pub fn describe(&self) -> (r: String)
        ensures
            r@ == match self {
                PresetError::Io(msg) => "IO error: "@ + msg@,
                PresetError::Serialization(msg) => "Serialization error: "@ + msg@,
                PresetError::Deserialization(msg) => "Deserialization error: "@ + msg@,
            },
    {
        match self {
            PresetError::Io(msg) => String::from_str("IO error: ").concat(msg.as_str()),
            PresetError::Serialization(msg) => String::from_str("Serialization error: ").concat(msg.as_str()),
            PresetError::Deserialization(msg) => String::from_str("Deserialization error: ").concat(msg.as_str()),
        }
    }
}

} // verus!
