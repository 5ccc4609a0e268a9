//! A Minimoog-style synthesizer's control logic: parameters and their MIDI
//! CC mappings (and the file that keeps them), MIDI message parsing, keyboard
//! note mapping, voice allocation and note routing, envelope stages and the
//! delay line of the effects.

pub mod param_spec;
pub mod params;
pub mod event;
pub mod filter;
pub mod lfo;
pub mod shared_state;
pub mod envelope;
pub mod midi;
pub mod keyboard;
pub mod voice;
pub mod delay_line;
pub mod cc_file;
pub mod gui;
pub mod errors;
