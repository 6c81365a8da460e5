use drift::engine::midi::{select_port, MidiConfig, MidiMessage, PortError};

#[test]
fn test_midi_message_note_on() {
    let msg = MidiMessage::NoteOn(0, 60, 100);
    assert_eq!(msg.to_bytes(), vec![0x90, 60, 100]);
}

#[test]
fn test_midi_message_note_on_channel() {
    let msg = MidiMessage::NoteOn(5, 72, 80);
    assert_eq!(msg.to_bytes(), vec![0x95, 72, 80]);
}

#[test]
fn test_midi_message_note_off() {
    let msg = MidiMessage::NoteOff(0, 60, 0);
    assert_eq!(msg.to_bytes(), vec![0x80, 60, 0]);
}

#[test]
fn test_midi_message_cc() {
    let msg = MidiMessage::ControlChange(0, 1, 64);
    assert_eq!(msg.to_bytes(), vec![0xB0, 1, 64]);
}

#[test]
fn test_midi_message_program_change() {
    let msg = MidiMessage::ProgramChange(0, 42);
    assert_eq!(msg.to_bytes(), vec![0xC0, 42]);
}

#[test]
fn test_midi_message_pitch_bend_center() {
    let msg = MidiMessage::PitchBend(0, 8192);
    let bytes = msg.to_bytes();
    assert_eq!(bytes[0], 0xE0);
    // 8192 = 0x2000, LSB = 0x00, MSB = 0x40
    assert_eq!(bytes[1], 0x00);
    assert_eq!(bytes[2], 0x40);
}

#[test]
fn test_midi_config_default() {
    let config = MidiConfig::default();
    assert_eq!(config.channel, 0);
    assert_eq!(config.base_note, 48);
    assert_eq!(config.note_range, 36);
    assert_eq!(config.velocity, 100);
}

#[test]
fn midi_config_default_controller() {
    let config = MidiConfig::default();
    assert!(!config.use_cc);
    assert_eq!(config.cc_number, 1);
}

#[test]
fn midi_bytes_are_masked() {
    assert_eq!(MidiMessage::NoteOn(0x1F, 0xFF, 0x80).to_bytes(), vec![0x9F, 0x7F, 0x00]);
    assert_eq!(MidiMessage::ControlChange(16, 200, 255).to_bytes(), vec![0xB0, 72, 127]);
    assert_eq!(MidiMessage::ProgramChange(0xF3, 0x81).to_bytes(), vec![0xC3, 0x01]);
    assert_eq!(MidiMessage::PitchBend(2, 0x3FFF).to_bytes(), vec![0xE2, 0x7F, 0x7F]);
    assert_eq!(MidiMessage::PitchBend(2, 0xFFFF).to_bytes(), vec![0xE2, 0x7F, 0x7F]);
    assert_eq!(MidiMessage::PitchBend(0, 0x0081).to_bytes(), vec![0xE0, 0x01, 0x01]);
}

#[test]
fn midi_framing_for_many_messages() {
    for ch in [0u8, 7, 15, 16, 255] {
        for a in [0u8, 1, 127, 128, 255] {
            for b in [0u8, 64, 200] {
                for msg in [
                    MidiMessage::NoteOn(ch, a, b),
                    MidiMessage::NoteOff(ch, a, b),
                    MidiMessage::ControlChange(ch, a, b),
                    MidiMessage::ProgramChange(ch, a),
                    MidiMessage::PitchBend(ch, (a as u16) << 8 | b as u16),
                ] {
                    let bytes = msg.to_bytes();
                    assert!(bytes.len() == 2 || bytes.len() == 3);
                    assert!(bytes[0] >= 0x80);
                    assert_eq!(bytes[0] & 0x0F, ch & 0x0F);
                    assert!(bytes[1..].iter().all(|&byte| byte < 0x80));
                }
            }
        }
    }
}

#[test]
fn midi_note_mapping() {
    let config = MidiConfig::default();
    assert_eq!(config.note_for(0), 48);
    assert_eq!(config.note_for(36), 84);
    assert_eq!(config.note_for(79), 127);
    assert_eq!(config.note_for(200), 127);
    assert_eq!(config.note_on(12).to_bytes(), vec![0x90, 60, 100]);
    assert_eq!(config.note_off(12).to_bytes(), vec![0x80, 60, 0]);
    assert_eq!(config.control_change(64).to_bytes(), vec![0xB0, 1, 64]);
}

fn ports(names: &[Option<&str>]) -> Vec<Option<String>> {
    names.iter().map(|name| name.map(|n| n.to_string())).collect()
}

#[test]
fn midi_port_selection() {
    let names = ports(&[Some("Midi Through Port-0"), None, Some("Synth input port"), Some("synth 2")]);
    assert_eq!(select_port(&names, None), Ok(0));
    assert_eq!(select_port(&names, Some("Synth")), Ok(2));
    assert_eq!(select_port(&names, Some("synth")), Ok(3));
    assert_eq!(select_port(&names, Some("port")), Ok(2));
    assert_eq!(select_port(&names, Some("Port")), Ok(0));
    assert_eq!(select_port(&names, Some("")), Ok(0));
    assert_eq!(select_port(&names, Some("organ")), Err(PortError::NotFound));
    // A port without a readable name is still the default one.
    assert_eq!(select_port(&ports(&[None]), None), Ok(0));
    assert_eq!(select_port(&ports(&[None]), Some("")), Err(PortError::NotFound));
}

#[test]
fn midi_port_selection_without_ports() {
    assert_eq!(select_port(&Vec::new(), None), Err(PortError::NoPorts));
    assert_eq!(select_port(&Vec::new(), Some("Synth")), Err(PortError::NoPorts));
    assert_eq!(PortError::NoPorts.describe("Synth"), "No MIDI output ports available");
    assert_eq!(PortError::NotFound.describe("Synth"), "MIDI port 'Synth' not found");
}
