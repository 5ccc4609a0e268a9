//! Standard MIDI CC numbers with their conventional meanings.
//!
//! These serve as documentation and as the reference for the default
//! CC assignments made by `CCMapping::default_mappings`.

use vstd::prelude::*;

verus! {

// Standard MIDI CCs (0-31 are MSB, 32-63 are LSB for 14-bit)
pub const MODULATION: u8 = 1;
pub const BREATH: u8 = 2;
pub const FOOT: u8 = 4;
pub const PORTAMENTO_TIME: u8 = 5;
pub const VOLUME: u8 = 7;
pub const BALANCE: u8 = 8;
pub const PAN: u8 = 10;
pub const EXPRESSION: u8 = 11;

// Sound Controllers (70-79) - commonly used for synth parameters
pub const SOUND_CTRL_1: u8 = 70;  // Sound Variation
pub const SOUND_CTRL_2: u8 = 71;  // Timbre/Resonance
pub const SOUND_CTRL_3: u8 = 72;  // Release Time
pub const SOUND_CTRL_4: u8 = 73;  // Attack Time
pub const SOUND_CTRL_5: u8 = 74;  // Brightness/Cutoff
pub const SOUND_CTRL_6: u8 = 75;  // Decay Time
pub const SOUND_CTRL_7: u8 = 76;  // Vibrato Rate
pub const SOUND_CTRL_8: u8 = 77;  // Vibrato Depth
pub const SOUND_CTRL_9: u8 = 78;  // Vibrato Delay
pub const SOUND_CTRL_10: u8 = 79;  // Undefined

// General Purpose Controllers (80-83)
pub const GP_CTRL_5: u8 = 80;
pub const GP_CTRL_6: u8 = 81;
pub const GP_CTRL_7: u8 = 82;
pub const GP_CTRL_8: u8 = 83;

// Portamento Control (84)
pub const PORTAMENTO_CTRL: u8 = 84;

// Undefined CCs good for custom use (85-87, 89-90, 102-119)
pub const UNDEFINED_85: u8 = 85;
pub const UNDEFINED_86: u8 = 86;
pub const UNDEFINED_87: u8 = 87;
pub const UNDEFINED_89: u8 = 89;
pub const UNDEFINED_90: u8 = 90;
pub const UNDEFINED_102: u8 = 102;
pub const UNDEFINED_103: u8 = 103;
pub const UNDEFINED_104: u8 = 104;
pub const UNDEFINED_105: u8 = 105;
pub const UNDEFINED_106: u8 = 106;
pub const UNDEFINED_107: u8 = 107;
pub const UNDEFINED_108: u8 = 108;
pub const UNDEFINED_109: u8 = 109;
pub const UNDEFINED_110: u8 = 110;
pub const UNDEFINED_111: u8 = 111;

// Effects (91-95)
pub const REVERB: u8 = 91;
pub const TREMOLO: u8 = 92;
pub const CHORUS: u8 = 93;
pub const DETUNE: u8 = 94;
pub const PHASER: u8 = 95;

} // verus!
