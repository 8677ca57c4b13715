//! The Channel Voice message codec: note, controller, program, pressure and
//! pitch-bend messages, each tied to one of 16 channels.
//!
//! A Channel Voice message owns a status nibble in `0x8..=0xE`; on the wire
//! the status byte is the nibble in the high half and the channel in the low
//! half, followed by one or two 7-bit data bytes depending on the nibble.

use vstd::prelude::*;

use crate::MidiError;

verus! {

/// A Channel Voice message, without its channel.
///
/// All payload fields are 7-bit quantities (the pitch-bend value is 14-bit);
/// [`MidiMessage::wf`] states those bounds.
#[derive(Copy, Clone, PartialEq, Eq, Structural, Debug)]
pub enum MidiMessage {
    /// Stop sounding a note. Status nibble `0x8`.
    NoteOff { key: u8, vel: u8 },
    /// Start sounding a note. Status nibble `0x9`.
    NoteOn { key: u8, vel: u8 },
    /// Polyphonic key pressure. Status nibble `0xA`.
    Aftertouch { key: u8, vel: u8 },
    /// Control change. Status nibble `0xB`.
    Controller { controller: u8, value: u8 },
    /// Program change; one data byte only. Status nibble `0xC`.
    ProgramChange { program: u8 },
    /// Channel-wide pressure; one data byte only. Status nibble `0xD`.
    ChannelAftertouch { vel: u8 },
    /// Pitch-bend change, a 14-bit value sent little 7-bit half first.
    /// Status nibble `0xE`.
    PitchBend { bend: u16 },
}

impl MidiMessage {
    /// Every payload field is in the range its wire encoding can carry.
    pub open spec fn wf(self) -> bool {
        match self {
            MidiMessage::NoteOff { key, vel } => key < 0x80 && vel < 0x80,
            MidiMessage::NoteOn { key, vel } => key < 0x80 && vel < 0x80,
            MidiMessage::Aftertouch { key, vel } => key < 0x80 && vel < 0x80,
            MidiMessage::Controller { controller, value } => controller < 0x80 && value < 0x80,
            MidiMessage::ProgramChange { program } => program < 0x80,
            MidiMessage::ChannelAftertouch { vel } => vel < 0x80,
            MidiMessage::PitchBend { bend } => bend < 0x4000,
        }
    }

    /// The status nibble this message kind occupies on the wire.
    pub open spec fn spec_status_nibble(self) -> u8 {
        match self {
            MidiMessage::NoteOff { .. } => 0x8,
            MidiMessage::NoteOn { .. } => 0x9,
            MidiMessage::Aftertouch { .. } => 0xA,
            MidiMessage::Controller { .. } => 0xB,
            MidiMessage::ProgramChange { .. } => 0xC,
            MidiMessage::ChannelAftertouch { .. } => 0xD,
            MidiMessage::PitchBend { .. } => 0xE,
        }
    }

    /// The data bytes this message puts after its status byte.
    pub open spec fn data_bytes(self) -> Seq<u8> {
        match self {
            MidiMessage::NoteOff { key, vel } => seq![key, vel],
            MidiMessage::NoteOn { key, vel } => seq![key, vel],
            MidiMessage::Aftertouch { key, vel } => seq![key, vel],
            MidiMessage::Controller { controller, value } => seq![controller, value],
            MidiMessage::ProgramChange { program } => seq![program],
            MidiMessage::ChannelAftertouch { vel } => seq![vel],
            MidiMessage::PitchBend { bend } => seq![(bend % 0x80) as u8, (bend / 0x80) as u8],
        }
    }

    /// The message read from a Channel Voice status byte and its data bytes.
    ///
    /// Only the first `spec_data_len(status / 16)` data bytes matter; extra
    /// bytes are ignored.
    pub open spec fn spec_read(status: u8, data: Seq<u8>) -> MidiMessage
        recommends
            0x80 <= status <= 0xEF,
            data.len() >= spec_data_len(status / 16),
    {
        let nibble = status / 16;
        if nibble == 0x8 {
            MidiMessage::NoteOff { key: data[0], vel: data[1] }
        } else if nibble == 0x9 {
            MidiMessage::NoteOn { key: data[0], vel: data[1] }
        } else if nibble == 0xA {
            MidiMessage::Aftertouch { key: data[0], vel: data[1] }
        } else if nibble == 0xB {
            MidiMessage::Controller { controller: data[0], value: data[1] }
        } else if nibble == 0xC {
            MidiMessage::ProgramChange { program: data[0] }
        } else if nibble == 0xD {
            MidiMessage::ChannelAftertouch { vel: data[0] }
        } else {
            MidiMessage::PitchBend { bend: (data[0] + data[1] * 0x80) as u16 }
        }
    }

    /// The status nibble, as executable code.
    pub fn status_nibble(&self) -> (r: u8)
        ensures
            r == self.spec_status_nibble(),
    {
        match self {
            MidiMessage::NoteOff { .. } => 0x8,
            MidiMessage::NoteOn { .. } => 0x9,
            MidiMessage::Aftertouch { .. } => 0xA,
            MidiMessage::Controller { .. } => 0xB,
            MidiMessage::ProgramChange { .. } => 0xC,
            MidiMessage::ChannelAftertouch { .. } => 0xD,
            MidiMessage::PitchBend { .. } => 0xE,
        }
    }

    /// Append this message's data bytes (not the status byte) to `out`.
    pub fn write(&self, out: &mut Vec<u8>)
        ensures
            final(out)@ == old(out)@ + self.data_bytes(),
    {
        match self {
            MidiMessage::NoteOff { key, vel } => {
                out.push(*key);
                out.push(*vel);
            }
            MidiMessage::NoteOn { key, vel } => {
                out.push(*key);
                out.push(*vel);
            }
            MidiMessage::Aftertouch { key, vel } => {
                out.push(*key);
                out.push(*vel);
            }
            MidiMessage::Controller { controller, value } => {
                out.push(*controller);
                out.push(*value);
            }
            MidiMessage::ProgramChange { program } => {
                out.push(*program);
            }
            MidiMessage::ChannelAftertouch { vel } => {
                out.push(*vel);
            }
            MidiMessage::PitchBend { bend } => {
                out.push((bend % 0x80) as u8);
                out.push((bend / 0x80) as u8);
            }
        }
        proof {
            assert(final(out)@ =~= old(out)@ + self.data_bytes());
        }
    }

    /// Whether this value satisfies [`MidiMessage::wf`].
    pub fn is_well_formed(&self) -> (r: bool)
        ensures
            r == self.wf(),
    {
        match self {
            MidiMessage::NoteOff { key, vel } => *key < 0x80 && *vel < 0x80,
            MidiMessage::NoteOn { key, vel } => *key < 0x80 && *vel < 0x80,
            MidiMessage::Aftertouch { key, vel } => *key < 0x80 && *vel < 0x80,
            MidiMessage::Controller { controller, value } => *controller < 0x80 && *value < 0x80,
            MidiMessage::ProgramChange { program } => *program < 0x80,
            MidiMessage::ChannelAftertouch { vel } => *vel < 0x80,
            MidiMessage::PitchBend { bend } => *bend < 0x4000,
        }
    }

    /// Read a Channel Voice message and its channel from a status byte in
    /// `0x80..=0xEF` and 7-bit data bytes.
    ///
    /// Fails with [`MidiError::InvalidData`] when `data` holds fewer bytes
    /// than the status nibble's message shape needs; extra bytes are ignored.
    pub fn read(status: u8, data: &[u8]) -> (r: Result<(u8, MidiMessage), MidiError>)
        requires
            0x80 <= status <= 0xEF,
            seven_bit(data@),
        ensures
            data@.len() >= spec_data_len(status / 16) ==> r == Ok::<(u8, MidiMessage), MidiError>(
                ((status % 16) as u8, MidiMessage::spec_read(status, data@)),
            ),
            data@.len() < spec_data_len(status / 16) ==> r == Err::<(u8, MidiMessage), MidiError>(
                MidiError::InvalidData,
            ),
            r matches Ok(p) ==> p.0 < 16 && p.1.wf() && p.1.spec_status_nibble() == status / 16,
    {
        let nibble: u8 = status / 16;
        let channel: u8 = status % 16;
        let needed: usize = if nibble == 0xC || nibble == 0xD { 1 } else { 2 };
        if data.len() < needed {
            return Err(MidiError::InvalidData);
        }
        let message = if nibble == 0x8 {
            MidiMessage::NoteOff { key: data[0], vel: data[1] }
        } else if nibble == 0x9 {
            MidiMessage::NoteOn { key: data[0], vel: data[1] }
        } else if nibble == 0xA {
            MidiMessage::Aftertouch { key: data[0], vel: data[1] }
        } else if nibble == 0xB {
            MidiMessage::Controller { controller: data[0], value: data[1] }
        } else if nibble == 0xC {
            MidiMessage::ProgramChange { program: data[0] }
        } else if nibble == 0xD {
            MidiMessage::ChannelAftertouch { vel: data[0] }
        } else {
            let bend: u16 = data[0] as u16 + data[1] as u16 * 0x80;
            MidiMessage::PitchBend { bend }
        };
        Ok((channel, message))
    }
}

/// Every byte of `d` has its top bit clear.
pub open spec fn seven_bit(d: Seq<u8>) -> bool {
    forall|i: int| 0 <= i < d.len() ==> d[i] < 0x80
}

/// How many data bytes a Channel Voice status nibble calls for.
pub open spec fn spec_data_len(nibble: u8) -> int {
    if nibble == 0xC || nibble == 0xD {
        1
    } else {
        2
    }
}

/// A well-formed message together with a channel serializes to the status
/// byte its nibble and channel make up, followed by its data bytes, and
/// reading those bytes back yields the same channel and message.
pub proof fn lemma_message_round_trip(m: MidiMessage, channel: u8)
    requires
        m.wf(),
        channel < 16,
    ensures
        0x80 <= m.spec_status_nibble() * 16 + channel <= 0xEF,
        ((m.spec_status_nibble() * 16 + channel) as u8) / 16 == m.spec_status_nibble(),
        ((m.spec_status_nibble() * 16 + channel) as u8) % 16 == channel,
        m.data_bytes().len() == spec_data_len(m.spec_status_nibble()),
        seven_bit(m.data_bytes()),
        MidiMessage::spec_read((m.spec_status_nibble() * 16 + channel) as u8, m.data_bytes())
            == m,
{
    match m {
        MidiMessage::PitchBend { bend } => {
            assert(bend == (bend / 0x80) * 0x80 + bend % 0x80) by {
                vstd::arithmetic::div_mod::lemma_fundamental_div_mod(bend as int, 0x80);
            }
            assert(seven_bit(m.data_bytes()));
        }
        _ => {}
    }
}

} // verus!
