//! MIDI messages and their wire encoding.

use crate::text::{occurs_in, str_contains};
use vstd::prelude::*;
use vstd::string::*;

verus! {

/// MIDI message types.
#[derive(Debug, Clone, Copy)]
pub enum MidiMessage {
    /// Note on: channel (0-15), note (0-127), velocity (0-127)
    NoteOn(u8, u8, u8),
    /// Note off: channel (0-15), note (0-127), velocity (0-127)
    NoteOff(u8, u8, u8),
    /// Control change: channel (0-15), controller (0-127), value (0-127)
    ControlChange(u8, u8, u8),
    /// Program change: channel (0-15), program (0-127)
    ProgramChange(u8, u8),
    /// Pitch bend: channel (0-15), value (0-16383, center at 8192)
    PitchBend(u8, u16),
}

/// Status byte: the message kind in the high nibble, the channel in the low one.
pub open spec fn status_byte(kind: u8, channel: u8) -> u8 {
    kind | (channel & 0x0F)
}

/// A data byte: the low seven bits of `value`.
pub open spec fn data_byte(value: u8) -> u8 {
    value & 0x7F
}

/// Low seven bits of a 14-bit pitch-bend value.
pub open spec fn bend_lsb(value: u16) -> u8 {
    (value & 0x7F) as u8
}

/// Bits 7..14 of a 14-bit pitch-bend value.
pub open spec fn bend_msb(value: u16) -> u8 {
    ((value >> 7) & 0x7F) as u8
}

impl MidiMessage {
    /// The bytes this message is sent as.
    pub open spec fn wire(self) -> Seq<u8> {
        match self {
            MidiMessage::NoteOn(ch, note, vel) => seq![
                status_byte(0x90, ch),
                data_byte(note),
                data_byte(vel),
            ],
            MidiMessage::NoteOff(ch, note, vel) => seq![
                status_byte(0x80, ch),
                data_byte(note),
                data_byte(vel),
            ],
            MidiMessage::ControlChange(ch, ctrl, val) => seq![
                status_byte(0xB0, ch),
                data_byte(ctrl),
                data_byte(val),
            ],
            MidiMessage::ProgramChange(ch, prog) => seq![status_byte(0xC0, ch), data_byte(prog)],
            MidiMessage::PitchBend(ch, val) => seq![
                status_byte(0xE0, ch),
                bend_lsb(val),
                bend_msb(val),
            ],
        }
    }

    /// Convert to raw MIDI bytes.
    pub fn to_bytes(&self) -> (bytes: Vec<u8>)
        ensures
            bytes@ == self.wire(),
    {
        match *self {
            MidiMessage::NoteOn(ch, note, vel) => vec![0x90u8 | (ch & 0x0F), note & 0x7F, vel & 0x7F],
            MidiMessage::NoteOff(ch, note, vel) => vec![0x80u8 | (ch & 0x0F), note & 0x7F, vel & 0x7F],
            MidiMessage::ControlChange(ch, ctrl, val) => vec![
                0xB0u8 | (ch & 0x0F),
                ctrl & 0x7F,
                val & 0x7F,
            ],
            MidiMessage::ProgramChange(ch, prog) => vec![0xC0u8 | (ch & 0x0F), prog & 0x7F],
            MidiMessage::PitchBend(ch, val) => {
                let lsb: u8 = (val & 0x7F) as u8;
                let msb: u8 = ((val >> 7) & 0x7F) as u8;
                vec![0xE0u8 | (ch & 0x0F), lsb, msb]
            },
        }
    }

    /// Every encoded message is one status byte (high bit set) followed by
    /// data bytes (high bit clear), whatever the field values are.
    pub proof fn lemma_wire_framing(self)
        ensures
            2 <= self.wire().len() <= 3,
            self.wire()[0] >= 0x80,
            forall|i: int| 1 <= i < self.wire().len() ==> #[trigger] self.wire()[i] < 0x80,
    {
        assert forall|k: u8, c: u8| k >= 0x80 implies #[trigger] status_byte(k, c) >= 0x80 by {
            assert(k >= 0x80 ==> (k | (c & 0x0F)) >= 0x80) by (bit_vector);
        }
        assert forall|v: u8| #[trigger] data_byte(v) < 0x80 by {
            assert((v & 0x7F) < 0x80) by (bit_vector);
        }
        assert forall|v: u16| #[trigger] bend_lsb(v) < 0x80 && #[trigger] bend_msb(v) < 0x80 by {
            assert(((v & 0x7F) as u8) < 0x80) by (bit_vector);
            assert((((v >> 7) & 0x7F) as u8) < 0x80) by (bit_vector);
        }
    }
}

/// Configuration for MIDI output.
#[derive(Debug, Clone)]
pub struct MidiConfig {
    /// MIDI channel (0-15)
    pub channel: u8,
    /// Base note for mapping (default: 60 = middle C)
    pub base_note: u8,
    /// Note range (how many semitones above base)
    pub note_range: u8,
    /// Velocity (0-127)
    pub velocity: u8,
    /// Use CC messages for continuous data
    pub use_cc: bool,
    /// CC controller number for continuous data
    pub cc_number: u8,
}

impl Default for MidiConfig {
    fn default() -> (config: MidiConfig)
        ensures
            config.channel == 0,
            config.base_note == 48,
            config.note_range == 36,
            config.velocity == 100,
            !config.use_cc,
            config.cc_number == 1,
    {
        MidiConfig {
            channel: 0,
            base_note: 48,
            note_range: 36,
            velocity: 100,
            use_cc: false,
            cc_number: 1,
        }
    }
}

/// Highest note number a MIDI message can carry.
pub open spec fn top_note() -> u8 {
    127
}

impl MidiConfig {
    /// The note `offset` semitones above the base note, held at the top
    /// note where it would lie above it.
    pub open spec fn note_at(self, offset: u8) -> u8 {
        if self.base_note + offset < top_note() {
            (self.base_note + offset) as u8
        } else {
            top_note()
        }
    }

    /// The note for an offset above the base note.
    pub fn note_for(&self, offset: u8) -> (note: u8)
        requires
            self.base_note + offset <= u8::MAX,
        ensures
            note == self.note_at(offset),
            note <= 127,
    {
        let note: u8 = self.base_note + offset;
        if note < 127 {
            note
        } else {
            127
        }
    }

    /// Note-on for the note at `offset`, on the configured channel and
    /// with the configured velocity.
    pub fn note_on(&self, offset: u8) -> (msg: MidiMessage)
        requires
            self.base_note + offset <= u8::MAX,
        ensures
            msg == MidiMessage::NoteOn(self.channel, self.note_at(offset), self.velocity),
    {
        MidiMessage::NoteOn(self.channel, self.note_for(offset), self.velocity)
    }

    /// Note-off for the note at `offset`, on the configured channel,
    /// with velocity zero.
    pub fn note_off(&self, offset: u8) -> (msg: MidiMessage)
        requires
            self.base_note + offset <= u8::MAX,
        ensures
            msg == MidiMessage::NoteOff(self.channel, self.note_at(offset), 0),
    {
        MidiMessage::NoteOff(self.channel, self.note_for(offset), 0)
    }

    /// Control change carrying `value` on the configured channel and
    /// controller.
    pub fn control_change(&self, value: u8) -> (msg: MidiMessage)
        ensures
            msg == MidiMessage::ControlChange(self.channel, self.cc_number, value),
    {
        MidiMessage::ControlChange(self.channel, self.cc_number, value)
    }
}

/// Why no output port can be chosen.
#[derive(Debug, Clone, Copy, PartialEq, Eq, Structural)]
pub enum PortError {
    /// There is no output port at all.
    NoPorts,
    /// No port's name holds the name that was asked for.
    NotFound,
}

impl PortError {
    /// The message for the error, given the name that was asked for.
    pub open spec fn description(self, wanted: Seq<char>) -> Seq<char> {
        match self {
            PortError::NoPorts => "No MIDI output ports available"@,
            PortError::NotFound => "MIDI port '"@ + wanted + "' not found"@,
        }
    }

    /// The message shown for the error, given the name that was asked for.
    pub fn describe(&self, wanted: &str) -> (text: String)
        ensures
            text@ == self.description(wanted@),
    {
        match self {
            PortError::NoPorts => String::from_str("No MIDI output ports available"),
            PortError::NotFound => {
                let mut text = String::from_str("MIDI port '");
                text.append(wanted);
                text.append("' not found");
                text
            },
        }
    }
}

/// Whether the port with this name, `None` where it cannot be read, is
/// one that `wanted` asks for.
pub open spec fn port_matches(name: Option<String>, wanted: Seq<char>) -> bool {
    match name {
        Some(name) => occurs_in(wanted, name@),
        None => false,
    }
}

/// The port to connect to: the first one where no name is asked for,
/// else the first whose name holds the name that is asked for.
pub open spec fn chosen_port(names: Seq<Option<String>>, wanted: Option<Seq<char>>, port: int) -> bool {
    &&& 0 <= port < names.len()
    &&& match wanted {
        None => port == 0,
        Some(wanted) => port_matches(names[port], wanted) && forall|i: int|
            0 <= i < port ==> !port_matches(#[trigger] names[i], wanted),
    }
}

/// Chooses the output port among the ports with the given names; a name
/// that could not be read is `None` and matches nothing.
pub fn select_port(names: &Vec<Option<String>>, wanted: Option<&str>) -> (choice: Result<
    usize,
    PortError,
>)
    ensures
        match choice {
            Ok(port) => chosen_port(
                names@,
                match wanted {
                    Some(wanted) => Some(wanted@),
                    None => None,
                },
                port as int,
            ),
            Err(PortError::NoPorts) => names@.len() == 0,
            Err(PortError::NotFound) => names@.len() > 0 && wanted.is_some() && forall|i: int|
                0 <= i < names@.len() ==> !port_matches(#[trigger] names@[i], wanted.unwrap()@),
        },
{
    if names.len() == 0 {
        return Err(PortError::NoPorts);
    }
    match wanted {
        None => Ok(0),
        Some(text) => {
            let mut i: usize = 0;
            while i < names.len()
                invariant
                    i <= names.len(),
                    wanted == Some(text),
                    forall|k: int| 0 <= k < i ==> !port_matches(#[trigger] names@[k], text@),
                decreases names.len() - i,
            {
                let found = match &names[i] {
                    Some(name) => str_contains(name.as_str(), text),
                    None => false,
                };
                assert(found == port_matches(names@[i as int], text@));
                if found {
                    return Ok(i);
                }
                i += 1;
            }
            Err(PortError::NotFound)
        },
    }
}

} // verus!
