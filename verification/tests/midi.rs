use rust_in_synth::midi::{
    cc_name, channel_display, channel_filter_from_selection, note_name, parse_midi_message,
    port_index_from_selection, midi_debug_info, MidiDebugInfo, MidiDebugKind, MidiError, MidiMessage,
};

#[test]
fn test_parse_note_on() {
    let message = [0x90, 60, 100]; // Note On, C4, velocity 100
    let event = parse_midi_message(&message, None).unwrap();
    match event {
        MidiMessage::NoteOn { note, velocity } => {
            assert_eq!(note, 60);
            assert!(velocity > 0);
        }
        other => panic!("expected a note on, got {:?}", other),
    }
}

#[test]
fn test_parse_note_off() {
    let message = [0x80, 60, 0]; // Note Off, C4
    let event = parse_midi_message(&message, None).unwrap();
    assert_eq!(event, MidiMessage::NoteOff { note: 60 });
}

#[test]
fn test_channel_filter() {
    let message = [0x91, 60, 100]; // Note On, channel 1

    // Should pass with no filter
    assert!(parse_midi_message(&message, None).is_some());

    // Should pass with matching channel
    assert!(parse_midi_message(&message, Some(1)).is_some());

    // Should fail with different channel
    assert!(parse_midi_message(&message, Some(0)).is_none());
}

#[test]
fn note_on_with_zero_velocity_is_note_off() {
    assert_eq!(parse_midi_message(&[0x90, 64, 0], None), Some(MidiMessage::NoteOff { note: 64 }));
}

#[test]
fn control_change_and_pitch_bend() {
    assert_eq!(
        parse_midi_message(&[0xB3, 74, 127], Some(3)),
        Some(MidiMessage::ControlChange { cc: 74, value: 127 })
    );
    // centre
    assert_eq!(parse_midi_message(&[0xE0, 0x00, 0x40], None), Some(MidiMessage::PitchBend { bend: 8192 }));
    // extremes
    assert_eq!(parse_midi_message(&[0xE0, 0x00, 0x00], None), Some(MidiMessage::PitchBend { bend: 0 }));
    assert_eq!(parse_midi_message(&[0xE0, 0x7F, 0x7F], None), Some(MidiMessage::PitchBend { bend: 16383 }));
}

#[test]
fn short_empty_and_unknown_messages_decode_to_nothing() {
    assert_eq!(parse_midi_message(&[], None), None);
    assert_eq!(parse_midi_message(&[0x90, 60], None), None);
    assert_eq!(parse_midi_message(&[0x80], None), None);
    assert_eq!(parse_midi_message(&[0x80, 60], None), Some(MidiMessage::NoteOff { note: 60 }));
    assert_eq!(parse_midi_message(&[0xB0, 7], None), None);
    assert_eq!(parse_midi_message(&[0xE0, 1], None), None);
    assert_eq!(parse_midi_message(&[0xA0, 60, 10], None), None); // aftertouch
    assert_eq!(parse_midi_message(&[0xC0, 5], None), None); // program change
    assert_eq!(parse_midi_message(&[0xF8], None), None); // timing clock
}

#[test]
fn filter_passes_exactly_its_channel() {
    for status in [0x90u8, 0x9F, 0x85, 0xBA, 0xE7] {
        let msg = [status, 10, 20];
        let ch = status & 0x0F;
        assert_eq!(parse_midi_message(&msg, Some(ch)), parse_midi_message(&msg, None));
        assert_eq!(parse_midi_message(&msg, Some((ch + 1) % 16)), None);
    }
}

#[test]
fn note_names() {
    assert_eq!(note_name(60), "C4");
    assert_eq!(note_name(69), "A4");
    assert_eq!(note_name(61), "C#4");
    assert_eq!(note_name(0), "C-1");
    assert_eq!(note_name(127), "G9");
    assert_eq!(note_name(11), "B-1");
    // data bytes above 127 (malformed messages) still get a name
    assert_eq!(note_name(200), "G#15");
    assert_eq!(note_name(255), "D#20");
}

#[test]
fn cc_names() {
    assert_eq!(cc_name(1), "Mod Wheel");
    assert_eq!(cc_name(74), "Sound Ctrl 5 (Cutoff)");
    assert_eq!(cc_name(123), "All Notes Off");
    assert_eq!(cc_name(3), "");
}

#[test]
fn channel_selection() {
    assert_eq!(channel_filter_from_selection(0), None);
    assert_eq!(channel_filter_from_selection(1), Some(0));
    assert_eq!(channel_filter_from_selection(16), Some(15));
    assert_eq!(channel_filter_from_selection(17), None);
    for c in 0..16u8 {
        assert_eq!(channel_filter_from_selection(channel_display(Some(c))), Some(c));
    }
    assert_eq!(channel_display(None), 0);
}

#[test]
fn port_selection() {
    assert_eq!(port_index_from_selection(1, 3).unwrap(), 0);
    assert_eq!(port_index_from_selection(3, 3).unwrap(), 2);
    assert!(matches!(port_index_from_selection(0, 3), Err(MidiError::InvalidPortIndex)));
    assert!(matches!(port_index_from_selection(4, 3), Err(MidiError::InvalidPortIndex)));
    assert!(matches!(port_index_from_selection(1, 0), Err(MidiError::InvalidPortIndex)));
}

#[test]
fn midi_error_descriptions() {
    assert_eq!(MidiError::NoPortsAvailable.describe(), "No MIDI input ports available");
    assert_eq!(MidiError::InvalidPortIndex.describe(), "Invalid port index");
    assert_eq!(
        MidiError::ConnectionFailed("busy".to_string()).describe(),
        "MIDI connection failed: busy"
    );
    assert_eq!(MidiError::InitFailed("x".to_string()).describe(), "MIDI initialization failed: x");
}

#[test]
fn debug_info_classifies_channel_messages() {
    assert_eq!(midi_debug_info(&[]), None);
    let on = midi_debug_info(&[0x93, 60, 100]).unwrap();
    assert_eq!(on.channel, 4);
    assert_eq!(on.kind, MidiDebugKind::NoteOn { note: 60, velocity: 100 });
    assert_eq!(midi_debug_info(&[0x90, 60, 0]).unwrap().kind, MidiDebugKind::ZeroVelocityNoteOn { note: 60 });
    assert_eq!(midi_debug_info(&[0x80, 61, 64]).unwrap().kind, MidiDebugKind::NoteOff { note: 61, velocity: 64 });
    assert_eq!(midi_debug_info(&[0xA0, 61, 7]).unwrap().kind, MidiDebugKind::Aftertouch { note: 61, pressure: 7 });
    assert_eq!(midi_debug_info(&[0xBF, 74, 5]).unwrap(), MidiDebugInfo { channel: 16, kind: MidiDebugKind::ControlChange { cc: 74, value: 5 } });
    assert_eq!(midi_debug_info(&[0xC2, 9]).unwrap().kind, MidiDebugKind::ProgramChange { program: 9 });
    assert_eq!(midi_debug_info(&[0xD0, 33]).unwrap().kind, MidiDebugKind::ChannelPressure { pressure: 33 });
    assert_eq!(midi_debug_info(&[0xE0, 0x00, 0x40]).unwrap().kind, MidiDebugKind::PitchBend { raw: 8192 });
    assert_eq!(midi_debug_info(&[0xE0, 0x7F, 0x7F]).unwrap().kind, MidiDebugKind::PitchBend { raw: 16383 });
}

#[test]
fn debug_info_reports_incomplete_and_system_messages() {
    assert_eq!(midi_debug_info(&[0x90, 60]).unwrap().kind, MidiDebugKind::Incomplete { kind: 9 });
    assert_eq!(midi_debug_info(&[0xC0]).unwrap().kind, MidiDebugKind::Incomplete { kind: 12 });
    assert_eq!(midi_debug_info(&[0xE0, 1]).unwrap().kind, MidiDebugKind::Incomplete { kind: 14 });
    assert_eq!(midi_debug_info(&[0xF0, 1, 2, 3, 0xF7]).unwrap().kind, MidiDebugKind::SysExStart { len: 5 });
    assert_eq!(midi_debug_info(&[0xF7]).unwrap().kind, MidiDebugKind::SysExEnd);
    assert_eq!(midi_debug_info(&[0xF8]).unwrap().kind, MidiDebugKind::TimingClock);
    assert_eq!(midi_debug_info(&[0xFA]).unwrap().kind, MidiDebugKind::Start);
    assert_eq!(midi_debug_info(&[0xFB]).unwrap().kind, MidiDebugKind::Continue);
    assert_eq!(midi_debug_info(&[0xFC]).unwrap().kind, MidiDebugKind::Stop);
    assert_eq!(midi_debug_info(&[0xFE]).unwrap().kind, MidiDebugKind::ActiveSensing);
    assert_eq!(midi_debug_info(&[0xFF]).unwrap().kind, MidiDebugKind::SystemReset);
    assert_eq!(midi_debug_info(&[0xF1, 3]).unwrap().kind, MidiDebugKind::OtherSystem { status: 0xF1 });
    let data = midi_debug_info(&[0x45, 1, 2]).unwrap();
    assert_eq!(data.kind, MidiDebugKind::Unknown { status: 0x45 });
    assert_eq!(data.channel, 6);
}
