//! Raw MIDI message decoding and the MIDI input's plain decisions
//! (channel filter selection, port selection), independent of the MIDI
//! driver.

use vstd::prelude::*;

verus! {

/// MIDI channel (0-15, displayed as 1-16 to user)
pub type MidiChannel = u8;

/// A decoded channel message, in MIDI units.
#[derive(Debug, Clone, Copy, PartialEq, Eq, Structural)]
pub enum MidiMessage {
    /// Note On with a non-zero velocity (1-127).
    NoteOn { note: u8, velocity: u8 },
    /// Note Off (or Note On with velocity 0).
    NoteOff { note: u8 },
    /// Control Change.
    ControlChange { cc: u8, value: u8 },
    /// Pitch Bend, 14-bit value (0-16383, centre 8192).
    PitchBend { bend: u16 },
}

/// Error type for MIDI operations
#[derive(Debug)]
pub enum MidiError {
    NoPortsAvailable,
    InvalidPortIndex,
    ConnectionFailed(String),
    InitFailed(String),
}

/// Message type nibble (upper four bits) of a status byte.
pub open spec fn status_kind(status: u8) -> u8 {
    status / 16
}

/// Channel nibble (lower four bits) of a status byte.
pub open spec fn status_channel(status: u8) -> u8 {
    status % 16
}

/// 14-bit pitch bend value assembled from its two data bytes.
pub open spec fn bend_value(lsb: u8, msb: u8) -> u16 {
    ((msb as u16) << 7u16) | (lsb as u16)
}

/// The event a raw MIDI message decodes to, given an optional channel filter.
///
/// Empty messages, messages on another channel than the filter's, unknown
/// message types and messages missing their data bytes decode to nothing.
pub open spec fn decode_midi(message: Seq<u8>, channel_filter: Option<MidiChannel>) -> Option<MidiMessage> {
    if message.len() == 0 {
        None
    } else if channel_filter matches Some(f) && status_channel(message[0]) != f {
        None
    } else {
        let kind = status_kind(message[0]);
        if kind == 9 {
            if message.len() >= 3 {
                if message[2] > 0 {
                    Some(MidiMessage::NoteOn { note: message[1], velocity: message[2] })
                } else {
                    Some(MidiMessage::NoteOff { note: message[1] })
                }
            } else {
                None
            }
        } else if kind == 8 {
            if message.len() >= 2 { Some(MidiMessage::NoteOff { note: message[1] }) } else { None }
        } else if kind == 11 {
            if message.len() >= 3 {
                Some(MidiMessage::ControlChange { cc: message[1], value: message[2] })
            } else {
                None
            }
        } else if kind == 14 {
            if message.len() >= 3 {
                Some(MidiMessage::PitchBend { bend: bend_value(message[1], message[2]) })
            } else {
                None
            }
        } else {
            None
        }
    }
}

proof fn lemma_status_nibbles(status: u8)
    ensures
        status & 0xF0u8 == status_kind(status) * 16,
        status & 0x0Fu8 == status_channel(status),
{
    assert(status & 0xF0u8 == (status / 16) * 16) by (bit_vector);
    assert(status & 0x0Fu8 == status % 16) by (bit_vector);
}

/// Parse a raw MIDI message into an event
pub fn parse_midi_message(message: &[u8], channel_filter: Option<MidiChannel>) -> (r: Option<MidiMessage>)
    ensures
        r == decode_midi(message@, channel_filter),
{
    if message.len() == 0 {
        return None;
    }
    let status = message[0];
    let message_type = status & 0xF0;
    let channel = status & 0x0F;
    proof { lemma_status_nibbles(status); }

    // Apply channel filter
    if let Some(filter_channel) = channel_filter {
        if channel != filter_channel {
            return None;
        }
    }

    match message_type {
        0x90 => {
            // Note On
            if message.len() >= 3 {
                let note = message[1];
                let velocity = message[2];
                if velocity > 0 {
                    Some(MidiMessage::NoteOn { note, velocity })
                } else {
                    // Note On with velocity 0 is equivalent to Note Off
                    Some(MidiMessage::NoteOff { note })
                }
            } else {
                None
            }
        },
        0x80 => {
            // Note Off
            if message.len() >= 2 {
                Some(MidiMessage::NoteOff { note: message[1] })
            } else {
                None
            }
        },
        0xB0 => {
            // Control Change
            if message.len() >= 3 {
                Some(MidiMessage::ControlChange { cc: message[1], value: message[2] })
            } else {
                None
            }
        },
        0xE0 => {
            // Pitch Bend
            if message.len() >= 3 {
                let lsb = message[1] as u16;
                let msb = message[2] as u16;
                let value = (msb << 7u16) | lsb;  // 14-bit value (0-16383)
                Some(MidiMessage::PitchBend { bend: value })
            } else {
                None
            }
        },
        _ => None,  // Ignore other message types for now
    }
}

/// What the MIDI monitor shows for a raw message (any message type, not
/// only the ones the synth plays).
#[derive(Debug, Clone, Copy, PartialEq, Eq, Structural)]
pub enum MidiDebugKind {
    NoteOff { note: u8, velocity: u8 },
    NoteOn { note: u8, velocity: u8 },
    /// A Note On with velocity 0, which acts as a Note Off.
    ZeroVelocityNoteOn { note: u8 },
    Aftertouch { note: u8, pressure: u8 },
    ControlChange { cc: u8, value: u8 },
    ProgramChange { program: u8 },
    ChannelPressure { pressure: u8 },
    /// Pitch bend with its raw 14-bit value (centre 8192).
    PitchBend { raw: u16 },
    /// A channel message missing data bytes; `kind` is the status byte's
    /// upper nibble (8 = Note Off ... 14 = Pitch Bend).
    Incomplete { kind: u8 },
    /// Start of a system exclusive message of `len` bytes.
    SysExStart { len: usize },
    SysExEnd,
    TimingClock,
    Start,
    Continue,
    Stop,
    ActiveSensing,
    SystemReset,
    /// Another system message.
    OtherSystem { status: u8 },
    /// A first byte that is no status byte.
    Unknown { status: u8 },
}

/// A monitored message: the channel as shown to users (1-16) and its kind.
#[derive(Debug, Clone, Copy, PartialEq, Eq, Structural)]
pub struct MidiDebugInfo {
    pub channel: u8,
    pub kind: MidiDebugKind,
}

/// The monitor's reading of a non-empty raw message.
pub open spec fn debug_kind_of(message: Seq<u8>) -> MidiDebugKind {
    let status = message[0];
    let kind = status_kind(status);
    let n = message.len();
    if kind == 8 {
        if n >= 3 { MidiDebugKind::NoteOff { note: message[1], velocity: message[2] } } else { MidiDebugKind::Incomplete { kind } }
    } else if kind == 9 {
        if n >= 3 {
            if message[2] == 0 {
                MidiDebugKind::ZeroVelocityNoteOn { note: message[1] }
            } else {
                MidiDebugKind::NoteOn { note: message[1], velocity: message[2] }
            }
        } else {
            MidiDebugKind::Incomplete { kind }
        }
    } else if kind == 10 {
        if n >= 3 { MidiDebugKind::Aftertouch { note: message[1], pressure: message[2] } } else { MidiDebugKind::Incomplete { kind } }
    } else if kind == 11 {
        if n >= 3 { MidiDebugKind::ControlChange { cc: message[1], value: message[2] } } else { MidiDebugKind::Incomplete { kind } }
    } else if kind == 12 {
        if n >= 2 { MidiDebugKind::ProgramChange { program: message[1] } } else { MidiDebugKind::Incomplete { kind } }
    } else if kind == 13 {
        if n >= 2 { MidiDebugKind::ChannelPressure { pressure: message[1] } } else { MidiDebugKind::Incomplete { kind } }
    } else if kind == 14 {
        if n >= 3 { MidiDebugKind::PitchBend { raw: bend_value(message[1], message[2]) } } else { MidiDebugKind::Incomplete { kind } }
    } else if kind == 15 {
        if status == 0xF0 {
            MidiDebugKind::SysExStart { len: n as usize }
        } else if status == 0xF7 {
            MidiDebugKind::SysExEnd
        } else if status == 0xF8 {
            MidiDebugKind::TimingClock
        } else if status == 0xFA {
            MidiDebugKind::Start
        } else if status == 0xFB {
            MidiDebugKind::Continue
        } else if status == 0xFC {
            MidiDebugKind::Stop
        } else if status == 0xFE {
            MidiDebugKind::ActiveSensing
        } else if status == 0xFF {
            MidiDebugKind::SystemReset
        } else {
            MidiDebugKind::OtherSystem { status }
        }
    } else {
        MidiDebugKind::Unknown { status }
    }
}

/// Classify a raw MIDI message for the debug monitor; `None` for an empty
/// message.
pub fn midi_debug_info(message: &[u8]) -> (r: Option<MidiDebugInfo>)
    ensures
        r is None <==> message@.len() == 0,
        r matches Some(info) ==> info.channel == status_channel(message@[0]) + 1
            && info.kind == debug_kind_of(message@),
{
    if message.len() == 0 {
        return None;
    }
    let status = message[0];
    proof { lemma_status_nibbles(status); }
    let message_type = status & 0xF0;
    let channel = (status & 0x0F) + 1;
    let n = message.len();
    let kind = match message_type {
        0x80 => if n >= 3 {
            MidiDebugKind::NoteOff { note: message[1], velocity: message[2] }
        } else {
            MidiDebugKind::Incomplete { kind: 8 }
        },
        0x90 => if n >= 3 {
            if message[2] == 0 {
                MidiDebugKind::ZeroVelocityNoteOn { note: message[1] }
            } else {
                MidiDebugKind::NoteOn { note: message[1], velocity: message[2] }
            }
        } else {
            MidiDebugKind::Incomplete { kind: 9 }
        },
        0xA0 => if n >= 3 {
            MidiDebugKind::Aftertouch { note: message[1], pressure: message[2] }
        } else {
            MidiDebugKind::Incomplete { kind: 10 }
        },
        0xB0 => if n >= 3 {
            MidiDebugKind::ControlChange { cc: message[1], value: message[2] }
        } else {
            MidiDebugKind::Incomplete { kind: 11 }
        },
        0xC0 => if n >= 2 {
            MidiDebugKind::ProgramChange { program: message[1] }
        } else {
            MidiDebugKind::Incomplete { kind: 12 }
        },
        0xD0 => if n >= 2 {
            MidiDebugKind::ChannelPressure { pressure: message[1] }
        } else {
            MidiDebugKind::Incomplete { kind: 13 }
        },
        0xE0 => if n >= 3 {
            let lsb = message[1] as u16;
            let msb = message[2] as u16;
            MidiDebugKind::PitchBend { raw: (msb << 7u16) | lsb }
        } else {
            MidiDebugKind::Incomplete { kind: 14 }
        },
        0xF0 => match status {
            0xF0 => MidiDebugKind::SysExStart { len: n },
            0xF7 => MidiDebugKind::SysExEnd,
            0xF8 => MidiDebugKind::TimingClock,
            0xFA => MidiDebugKind::Start,
            0xFB => MidiDebugKind::Continue,
            0xFC => MidiDebugKind::Stop,
            0xFE => MidiDebugKind::ActiveSensing,
            0xFF => MidiDebugKind::SystemReset,
            _ => MidiDebugKind::OtherSystem { status },
        },
        _ => MidiDebugKind::Unknown { status },
    };
    Some(MidiDebugInfo { channel, kind })
}

/// For proper (7-bit) data bytes the bend value is `msb * 128 + lsb`, a
/// 14-bit number.
pub proof fn lemma_bend_value(lsb: u8, msb: u8)
    requires
        lsb < 128,
        msb < 128,
    ensures
        bend_value(lsb, msb) == msb * 128 + lsb,
        bend_value(lsb, msb) < 16384,
{
    let l = lsb as u16;
    let m = msb as u16;
    assert((m << 7u16) | l == m * 128 + l) by (bit_vector)
        requires l < 128, m < 128;
}

/// The channel filter only accepts or rejects: a message that passes a
/// filter decodes exactly as it does with no filter, and a message on
/// another channel than the filter's is always rejected.
pub proof fn lemma_channel_filter(message: Seq<u8>, f: MidiChannel)
    requires
        message.len() > 0,
    ensures
        status_channel(message[0]) == f ==> decode_midi(message, Some(f)) == decode_midi(message, None),
        status_channel(message[0]) != f ==> decode_midi(message, Some(f)) is None,
{
}

/// Channel filter chosen from a prompt answer: 0 means all channels, 1-16 a
/// specific (0-indexed) channel, anything else all channels.
pub open spec fn filter_for_selection(selection: u8) -> Option<MidiChannel> {
    if 1 <= selection <= 16 { Some((selection - 1) as u8) } else { None }
}

/// Channel filter selected by a prompt answer (0 = all, 1-16 = one channel).
pub fn channel_filter_from_selection(selection: u8) -> (r: Option<MidiChannel>)
    ensures
        r == filter_for_selection(selection),
{
    if selection == 0 {
        None
    } else if selection <= 16 {
        Some(selection - 1)  // Convert to 0-indexed
    } else {
        None
    }
}

/// Display index of a channel filter: 0 = all channels, 1-16 = channel.
pub fn channel_display(filter: Option<MidiChannel>) -> (r: u8)
    requires
        filter matches Some(c) ==> c < 16,
    ensures
        r == match filter {
            Some(c) => c + 1,
            None => 0,
        },
{
    match filter {
        Some(c) => c + 1,
        None => 0,
    }
}

/// Displaying a filter and selecting it again gives back the same filter.
pub proof fn lemma_channel_display_round_trip(c: MidiChannel)
    requires
        c < 16,
    ensures
        filter_for_selection((c + 1) as u8) == Some(c),
        filter_for_selection(0) is None,
{
}

/// Port index chosen by a 1-based prompt answer among `num_ports` ports.
pub fn port_index_from_selection(selection: usize, num_ports: usize) -> (r: Result<usize, MidiError>)
    ensures
        1 <= selection <= num_ports ==> (r matches Ok(i) && i == selection - 1),
        !(1 <= selection <= num_ports) ==> r matches Err(MidiError::InvalidPortIndex),
{
    if selection < 1 || selection > num_ports {
        return Err(MidiError::InvalidPortIndex);
    }
    Ok(selection - 1)
}

/// Name of a pitch class (0-11).
pub open spec fn pitch_class_name(pc: int) -> Seq<char> {
    if pc == 0 { "C"@ }
    else if pc == 1 { "C#"@ }
    else if pc == 2 { "D"@ }
    else if pc == 3 { "D#"@ }
    else if pc == 4 { "E"@ }
    else if pc == 5 { "F"@ }
    else if pc == 6 { "F#"@ }
    else if pc == 7 { "G"@ }
    else if pc == 8 { "G#"@ }
    else if pc == 9 { "A"@ }
    else if pc == 10 { "A#"@ }
    else { "B"@ }
}

/// Decimal text of an octave number (-1 to 20, the octaves of notes 0-255).
pub open spec fn octave_text(octave: int) -> Seq<char> {
    if octave == -1 { "-1"@ }
    else if octave == 0 { "0"@ }
    else if octave == 1 { "1"@ }
    else if octave == 2 { "2"@ }
    else if octave == 3 { "3"@ }
    else if octave == 4 { "4"@ }
    else if octave == 5 { "5"@ }
    else if octave == 6 { "6"@ }
    else if octave == 7 { "7"@ }
    else if octave == 8 { "8"@ }
    else if octave == 9 { "9"@ }
    else if octave == 10 { "10"@ }
    else if octave == 11 { "11"@ }
    else if octave == 12 { "12"@ }
    else if octave == 13 { "13"@ }
    else if octave == 14 { "14"@ }
    else if octave == 15 { "15"@ }
    else if octave == 16 { "16"@ }
    else if octave == 17 { "17"@ }
    else if octave == 18 { "18"@ }
    else if octave == 19 { "19"@ }
    else { "20"@ }
}

/// Name of a MIDI note, e.g. 60 → "C4", 69 → "A4".
pub open spec fn spec_note_name(note: u8) -> Seq<char> {
    pitch_class_name((note % 12) as int) + octave_text(note / 12 - 1)
}

fn pitch_class_str(pc: u8) -> (r: &'static str)
    requires
        pc < 12,
    ensures
        r@ == pitch_class_name(pc as int),
{
    match pc {
        0 => "C",
        1 => "C#",
        2 => "D",
        3 => "D#",
        4 => "E",
        5 => "F",
        6 => "F#",
        7 => "G",
        8 => "G#",
        9 => "A",
        10 => "A#",
        _ => "B",
    }
}

fn octave_str(octave_plus_one: u8) -> (r: &'static str)
    requires
        octave_plus_one <= 21,
    ensures
        r@ == octave_text(octave_plus_one - 1),
{
    match octave_plus_one {
        0 => "-1",
        1 => "0",
        2 => "1",
        3 => "2",
        4 => "3",
        5 => "4",
        6 => "5",
        7 => "6",
        8 => "7",
        9 => "8",
        10 => "9",
        11 => "10",
        12 => "11",
        13 => "12",
        14 => "13",
        15 => "14",
        16 => "15",
        17 => "16",
        18 => "17",
        19 => "18",
        20 => "19",
        _ => "20",
    }
}

/// Convert MIDI note number to note name
pub fn note_name(note: u8) -> (r: String)
    ensures
        r@ == spec_note_name(note),
{
    let name = pitch_class_str(note % 12);
    let octave = octave_str(note / 12);
    String::from_str(name).concat(octave)
}

/// Common name of a CC number (empty when it has none).
pub open spec fn spec_cc_name(cc: u8) -> Seq<char> {
    if cc == 0 { "Bank Select MSB"@ }
    else if cc == 1 { "Mod Wheel"@ }
    else if cc == 2 { "Breath"@ }
    else if cc == 7 { "Volume"@ }
    else if cc == 10 { "Pan"@ }
    else if cc == 11 { "Expression"@ }
    else if cc == 32 { "Bank Select LSB"@ }
    else if cc == 64 { "Sustain Pedal"@ }
    else if cc == 65 { "Portamento"@ }
    else if cc == 66 { "Sostenuto"@ }
    else if cc == 67 { "Soft Pedal"@ }
    else if cc == 70 { "Sound Ctrl 1 (Waveform)"@ }
    else if cc == 71 { "Sound Ctrl 2 (Resonance)"@ }
    else if cc == 72 { "Sound Ctrl 3 (Release)"@ }
    else if cc == 73 { "Sound Ctrl 4 (Attack)"@ }
    else if cc == 74 { "Sound Ctrl 5 (Cutoff)"@ }
    else if cc == 91 { "Reverb"@ }
    else if cc == 93 { "Chorus"@ }
    else if cc == 120 { "All Sound Off"@ }
    else if cc == 121 { "Reset All Ctrl"@ }
    else if cc == 123 { "All Notes Off"@ }
    else { ""@ }
}

/// Get common CC name
pub fn cc_name(cc: u8) -> (r: &'static str)
    ensures
        r@ == spec_cc_name(cc),
{
    match cc {
        0 => "Bank Select MSB",
        1 => "Mod Wheel",
        2 => "Breath",
        7 => "Volume",
        10 => "Pan",
        11 => "Expression",
        32 => "Bank Select LSB",
        64 => "Sustain Pedal",
        65 => "Portamento",
        66 => "Sostenuto",
        67 => "Soft Pedal",
        70 => "Sound Ctrl 1 (Waveform)",
        71 => "Sound Ctrl 2 (Resonance)",
        72 => "Sound Ctrl 3 (Release)",
        73 => "Sound Ctrl 4 (Attack)",
        74 => "Sound Ctrl 5 (Cutoff)",
        91 => "Reverb",
        93 => "Chorus",
        120 => "All Sound Off",
        121 => "Reset All Ctrl",
        123 => "All Notes Off",
        _ => "",
    }
}

impl MidiError {
    /// Human-readable description of the error.
    pub fn describe(&self) -> (r: String)
        ensures
            r@ == match self {
                MidiError::NoPortsAvailable => "No MIDI input ports available"@,
                MidiError::InvalidPortIndex => "Invalid port index"@,
                MidiError::ConnectionFailed(e) => "MIDI connection failed: "@ + e@,
                MidiError::InitFailed(e) => "MIDI initialization failed: "@ + e@,
            },
    {
        match self {
            MidiError::NoPortsAvailable => String::from_str("No MIDI input ports available"),
            MidiError::InvalidPortIndex => String::from_str("Invalid port index"),
            MidiError::ConnectionFailed(e) => String::from_str("MIDI connection failed: ").concat(e.as_str()),
            MidiError::InitFailed(e) => String::from_str("MIDI initialization failed: ").concat(e.as_str()),
        }
    }
}

/// What each channel message decodes to, in terms of its raw bytes: a Note
/// On (status 0x90-0x9F) with a non-zero velocity byte keeps its note and
/// velocity bytes, one with velocity 0 and a Note Off (0x80-0x8F) release the
/// note byte, a Control Change (0xB0-0xBF) keeps its controller and value
/// bytes, and a Pitch Bend (0xE0-0xEF) with 7-bit data bytes carries
/// `msb * 128 + lsb`. Without a filter every channel passes; with one, only
/// its channel (the status byte's low nibble) does.
pub proof fn lemma_decoded_bytes(message: Seq<u8>, filter: Option<MidiChannel>)
    requires
        message.len() >= 3,
        filter matches Some(f) ==> message[0] % 16 == f,
    ensures
        0x90 <= message[0] < 0xA0 && message[2] > 0 ==> decode_midi(message, filter)
            == Some(MidiMessage::NoteOn { note: message[1], velocity: message[2] }),
        0x90 <= message[0] < 0xA0 && message[2] == 0 ==> decode_midi(message, filter)
            == Some(MidiMessage::NoteOff { note: message[1] }),
        0x80 <= message[0] < 0x90 ==> decode_midi(message, filter) == Some(MidiMessage::NoteOff { note: message[1] }),
        0xB0 <= message[0] < 0xC0 ==> decode_midi(message, filter)
            == Some(MidiMessage::ControlChange { cc: message[1], value: message[2] }),
        0xE0 <= message[0] < 0xF0 && message[1] < 128 && message[2] < 128 ==> decode_midi(message, filter)
            == Some(MidiMessage::PitchBend { bend: (message[2] * 128 + message[1]) as u16 }),
        message[0] < 0x80 || (0xA0 <= message[0] < 0xB0) || (0xC0 <= message[0] < 0xE0) || message[0] >= 0xF0
            ==> decode_midi(message, filter) is None,
{
    if 0xE0 <= message[0] < 0xF0 && message[1] < 128 && message[2] < 128 {
        lemma_bend_value(message[1], message[2]);
    }
}

} // verus!
