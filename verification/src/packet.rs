//! The USB-MIDI packet format: fixed 4-byte frames, each a header byte (a
//! 4-bit cable number and a 4-bit Code Index Number) followed by 3 payload
//! bytes, unused trailing payload bytes zero.
//!
//! The Code Index Number (CIN) selects both the event category and how many
//! of the payload bytes are meaningful; the cable number is a pure
//! multiplexing tag for one of up to 16 virtual ports and has no effect on
//! decoding.

use vstd::prelude::*;

use crate::MidiError;
use crate::live::{
    LiveEvent, LiveEventView, SystemCommon, SystemCommonView, SystemRealtime,
    lemma_common_round_trip,
    lemma_mask7, lemma_realtime_round_trip, mask7, mask_bytes, midi_status, spec_common_read,
    sysex_strip,
};
use crate::message::{MidiMessage, lemma_message_round_trip, spec_data_len};

verus! {

/// The Code Index Number of a USB-MIDI packet header.
#[derive(Copy, Clone, PartialEq, Eq, Structural, Debug)]
pub enum CIN {
    /// Miscellaneous function code; the frame carries no event. Value 0x0.
    MiscFunction,
    /// Cable event; the frame carries no event. Value 0x1.
    CableEvent,
    /// Two-byte System Common message. Value 0x2.
    TwoByteSysCom,
    /// Three-byte System Common message. Value 0x3.
    ThreeByteSysCom,
    /// System Exclusive starts or continues. Value 0x4.
    SysExStartOrContinue,
    /// Single-byte System Common message, or System Exclusive ends with
    /// one byte. Value 0x5.
    SingleByteSysComOrSysExEnd,
    /// System Exclusive ends with the following two bytes. Value 0x6.
    TwoByteSysExEnd,
    /// System Exclusive ends with the following three bytes. Value 0x7.
    ThreeByteSysExEnd,
    /// Note-off message. Value 0x8.
    NoteOff,
    /// Note-on message. Value 0x9.
    NoteOn,
    /// Polyphonic key pressure. Value 0xA.
    PolyKeypress,
    /// Control change. Value 0xB.
    ControlChange,
    /// Program change. Value 0xC.
    ProgramChange,
    /// Channel pressure. Value 0xD.
    ChannelPressure,
    /// Pitch-bend change. Value 0xE.
    PitchbendChange,
    /// Single byte, including System Realtime. Value 0xF.
    SingleByte,
}

/// The CIN a 4-bit header value selects; values above 15 never come from a
/// header nibble and fall back to [`CIN::MiscFunction`].
pub open spec fn spec_cin_from(cin: u8) -> CIN {
    if cin == 0x0 {
        CIN::MiscFunction
    } else if cin == 0x1 {
        CIN::CableEvent
    } else if cin == 0x2 {
        CIN::TwoByteSysCom
    } else if cin == 0x3 {
        CIN::ThreeByteSysCom
    } else if cin == 0x4 {
        CIN::SysExStartOrContinue
    } else if cin == 0x5 {
        CIN::SingleByteSysComOrSysExEnd
    } else if cin == 0x6 {
        CIN::TwoByteSysExEnd
    } else if cin == 0x7 {
        CIN::ThreeByteSysExEnd
    } else if cin == 0x8 {
        CIN::NoteOff
    } else if cin == 0x9 {
        CIN::NoteOn
    } else if cin == 0xA {
        CIN::PolyKeypress
    } else if cin == 0xB {
        CIN::ControlChange
    } else if cin == 0xC {
        CIN::ProgramChange
    } else if cin == 0xD {
        CIN::ChannelPressure
    } else if cin == 0xE {
        CIN::PitchbendChange
    } else if cin == 0xF {
        CIN::SingleByte
    } else {
        CIN::MiscFunction
    }
}

/// The 4-bit value a CIN occupies in the header byte.
pub open spec fn spec_cin_as_int(c: CIN) -> u8 {
    match c {
        CIN::MiscFunction => 0x0,
        CIN::CableEvent => 0x1,
        CIN::TwoByteSysCom => 0x2,
        CIN::ThreeByteSysCom => 0x3,
        CIN::SysExStartOrContinue => 0x4,
        CIN::SingleByteSysComOrSysExEnd => 0x5,
        CIN::TwoByteSysExEnd => 0x6,
        CIN::ThreeByteSysExEnd => 0x7,
        CIN::NoteOff => 0x8,
        CIN::NoteOn => 0x9,
        CIN::PolyKeypress => 0xA,
        CIN::ControlChange => 0xB,
        CIN::ProgramChange => 0xC,
        CIN::ChannelPressure => 0xD,
        CIN::PitchbendChange => 0xE,
        CIN::SingleByte => 0xF,
    }
}

/// How many of the 3 payload bytes are meaningful under a CIN.
pub open spec fn spec_payload_length(c: CIN) -> int {
    match c {
        CIN::MiscFunction => 0,
        CIN::CableEvent => 0,
        CIN::TwoByteSysCom => 2,
        CIN::ThreeByteSysCom => 3,
        CIN::SysExStartOrContinue => 3,
        CIN::SingleByteSysComOrSysExEnd => 1,
        CIN::TwoByteSysExEnd => 2,
        CIN::ThreeByteSysExEnd => 3,
        CIN::NoteOff => 3,
        CIN::NoteOn => 3,
        CIN::PolyKeypress => 3,
        CIN::ControlChange => 3,
        CIN::ProgramChange => 2,
        CIN::ChannelPressure => 2,
        CIN::PitchbendChange => 3,
        CIN::SingleByte => 1,
    }
}

impl CIN {
    /// The CIN a 4-bit value selects. Total: values above 15, which never
    /// come from a header nibble, fall back to [`CIN::MiscFunction`].
    pub fn from(cin: u8) -> (r: CIN)
        ensures
            r == spec_cin_from(cin),
    {
        match cin {
            0x0 => CIN::MiscFunction,
            0x1 => CIN::CableEvent,
            0x2 => CIN::TwoByteSysCom,
            0x3 => CIN::ThreeByteSysCom,
            0x4 => CIN::SysExStartOrContinue,
            0x5 => CIN::SingleByteSysComOrSysExEnd,
            0x6 => CIN::TwoByteSysExEnd,
            0x7 => CIN::ThreeByteSysExEnd,
            0x8 => CIN::NoteOff,
            0x9 => CIN::NoteOn,
            0xA => CIN::PolyKeypress,
            0xB => CIN::ControlChange,
            0xC => CIN::ProgramChange,
            0xD => CIN::ChannelPressure,
            0xE => CIN::PitchbendChange,
            0xF => CIN::SingleByte,
            _ => CIN::MiscFunction,
        }
    }

    /// The 4-bit value this CIN occupies in the header byte.
    pub fn as_int(&self) -> (r: u8)
        ensures
            r == spec_cin_as_int(*self),
            r < 16,
    {
        match self {
            CIN::MiscFunction => 0x0,
            CIN::CableEvent => 0x1,
            CIN::TwoByteSysCom => 0x2,
            CIN::ThreeByteSysCom => 0x3,
            CIN::SysExStartOrContinue => 0x4,
            CIN::SingleByteSysComOrSysExEnd => 0x5,
            CIN::TwoByteSysExEnd => 0x6,
            CIN::ThreeByteSysExEnd => 0x7,
            CIN::NoteOff => 0x8,
            CIN::NoteOn => 0x9,
            CIN::PolyKeypress => 0xA,
            CIN::ControlChange => 0xB,
            CIN::ProgramChange => 0xC,
            CIN::ChannelPressure => 0xD,
            CIN::PitchbendChange => 0xE,
            CIN::SingleByte => 0xF,
        }
    }
}

/// The payload-length table is total over the 16 CIN values and maps each
/// to one of 0, 1, 2 and 3; the CIN encodings are the 16 header nibbles,
/// and the two directions invert each other.
pub proof fn lemma_cin_table()
    ensures
        forall|c: CIN| 0 <= #[trigger] spec_payload_length(c) <= 3,
        forall|c: CIN| #[trigger] spec_cin_as_int(c) < 16,
        forall|c: CIN| spec_cin_from(#[trigger] spec_cin_as_int(c)) == c,
        forall|b: u8| b < 16 ==> spec_cin_as_int(#[trigger] spec_cin_from(b)) == b,
{
}

/// A USB-MIDI packet that carries an event: one of up to 16 cables, the
/// CIN, and the live event the payload holds.
#[derive(Clone, PartialEq, Eq, Debug)]
pub struct UsbMidiPacket {
    pub cable_number: u8,
    pub code_index_number: CIN,
    pub event: LiveEvent,
}

/// The mathematical model of a [`UsbMidiPacket`] value.
pub struct UsbMidiPacketView {
    pub cable_number: u8,
    pub code_index_number: CIN,
    pub event: LiveEventView,
}

impl View for UsbMidiPacket {
    type V = UsbMidiPacketView;

    open spec fn view(&self) -> UsbMidiPacketView {
        UsbMidiPacketView {
            cable_number: self.cable_number,
            code_index_number: self.code_index_number,
            event: self.event@,
        }
    }
}

/// The canonical CIN for an event that fits one packet: the status nibble
/// for Channel Voice, the single-byte CIN for Realtime, and the System
/// Common CIN matching the message's length, with the System Exclusive end
/// CINs for a complete System Exclusive run. `None` when the event's bytes
/// do not fit the 3 payload bytes.
pub open spec fn spec_cin_for(e: LiveEventView) -> Option<CIN> {
    match e {
        LiveEventView::Midi { channel: _, message } => {
            Some(spec_cin_from(message.spec_status_nibble()))
        }
        LiveEventView::Realtime(_) => Some(CIN::SingleByte),
        LiveEventView::Common(c) => match c {
            SystemCommonView::SysEx(d) => {
                if d.len() == 0 {
                    Some(CIN::TwoByteSysExEnd)
                } else if d.len() == 1 {
                    Some(CIN::ThreeByteSysExEnd)
                } else {
                    None
                }
            }
            SystemCommonView::MidiTimeCodeQuarterFrame(..) => Some(CIN::TwoByteSysCom),
            SystemCommonView::SongPosition(_) => Some(CIN::ThreeByteSysCom),
            SystemCommonView::SongSelect(_) => Some(CIN::TwoByteSysCom),
            SystemCommonView::TuneRequest => Some(CIN::SingleByteSysComOrSysExEnd),
            SystemCommonView::Undefined(_, d) => {
                if d.len() == 0 {
                    Some(CIN::SingleByteSysComOrSysExEnd)
                } else if d.len() == 1 {
                    Some(CIN::TwoByteSysCom)
                } else if d.len() == 2 {
                    Some(CIN::ThreeByteSysCom)
                } else {
                    None
                }
            }
        },
    }
}

/// The packet model assembled from its parts.
pub open spec fn packet_view(cable_number: u8, code_index_number: CIN, event: LiveEventView)
    -> UsbMidiPacketView {
    UsbMidiPacketView { cable_number, code_index_number, event }
}

impl UsbMidiPacketView {
    /// The cable fits in four bits, the event is well-formed, its wire
    /// bytes fill exactly the meaningful payload bytes of the CIN, and the
    /// CIN's category matches the event's: Channel Voice for `0x8..=0xE`,
    /// System Common for `0x2..=0x7`, System Realtime for `0xF`.
    pub open spec fn wf(self) -> bool {
        &&& self.cable_number < 16
        &&& self.event.wf()
        &&& self.event.bytes().len() == spec_payload_length(self.code_index_number)
        &&& match self.event {
            LiveEventView::Midi { .. } => 0x8 <= spec_cin_as_int(self.code_index_number) <= 0xE,
            LiveEventView::Common(_) => 0x2 <= spec_cin_as_int(self.code_index_number) <= 0x7,
            LiveEventView::Realtime(_) => spec_cin_as_int(self.code_index_number) == 0xF,
        }
    }

    /// The 4 bytes this packet puts on the wire: the header byte, the
    /// event's bytes, and zero padding.
    pub open spec fn frame_bytes(self) -> Seq<u8>
        recommends
            self.wf(),
    {
        seq![
            (self.cable_number * 16 + spec_cin_as_int(self.code_index_number)) as u8,
        ] + self.event.bytes() + Seq::new((3 - self.event.bytes().len()) as nat, |i: int| 0u8)
    }
}

/// The decode of a 4-byte frame: the frame's cable number and event, `None`
/// when the CIN says the frame carries no event.
///
/// The CIN selects the category: for Channel Voice CINs the status byte
/// must be a Channel Voice status; for CIN `0xF` the status byte decodes as
/// System Realtime; for the System Common CINs the payload decodes as a
/// System Common message, with a System Exclusive terminator stripped.
/// Payload bytes beyond the CIN's count are padding and are ignored.
pub open spec fn spec_frame_read(f: Seq<u8>) -> Result<Option<UsbMidiPacketView>, MidiError>
    recommends
        f.len() == 4,
{
    let cable = (f[0] / 16) as u8;
    let ci = (f[0] % 16) as u8;
    let cin = spec_cin_from(ci);
    let n = spec_payload_length(cin);
    if n == 0 {
        Ok(None)
    } else {
        let status = f[1];
        let rest = f.subrange(2, 1 + n);
        if 0x8 <= ci <= 0xE {
            if !(0x80 <= status <= 0xEF) {
                Err(MidiError::InvalidStatus)
            } else if mask7(rest).len() >= spec_data_len(status / 16) {
                Ok(Some(UsbMidiPacketView {
                    cable_number: cable,
                    code_index_number: cin,
                    event: LiveEventView::Midi {
                        channel: (status % 16) as u8,
                        message: MidiMessage::spec_read(status, mask7(rest)),
                    },
                }))
            } else {
                Err(MidiError::InvalidData)
            }
        } else if ci == 0xF {
            Ok(Some(UsbMidiPacketView {
                cable_number: cable,
                code_index_number: cin,
                event: LiveEventView::Realtime(SystemRealtime::spec_new(status)),
            }))
        } else {
            match spec_common_read(status, mask7(sysex_strip(status, rest))) {
                Ok(c) => Ok(Some(UsbMidiPacketView {
                    cable_number: cable,
                    code_index_number: cin,
                    event: LiveEventView::Common(c),
                })),
                Err(e) => Err(e),
            }
        }
    }
}

/// The view of a frame decode result.
pub open spec fn frame_result_view(r: Result<Option<UsbMidiPacket>, MidiError>) -> Result<
    Option<UsbMidiPacketView>,
    MidiError,
> {
    match r {
        Ok(Some(p)) => Ok(Some(p@)),
        Ok(None) => Ok(None),
        Err(e) => Err(e),
    }
}

impl UsbMidiPacket {
    /// Assemble a packet from its parts. The CIN must agree with the event
    /// in category and payload length, so that the packet frames to 4 bytes
    /// and decodes back to itself.
    pub fn new(cable_number: u8, code_index_number: CIN, event: LiveEvent) -> (r: UsbMidiPacket)
        requires
            packet_view(cable_number, code_index_number, event@).wf(),
        ensures
            r@ == packet_view(cable_number, code_index_number, event@),
            r@.wf(),
    {
        UsbMidiPacket { cable_number, code_index_number, event }
    }

    /// How many of the 3 payload bytes are meaningful under a CIN.
    pub fn packet_length(cin: CIN) -> (r: usize)
        ensures
            r == spec_payload_length(cin),
    {
        match cin {
            CIN::MiscFunction | CIN::CableEvent => 0,
            CIN::TwoByteSysCom => 2,
            CIN::ThreeByteSysCom | CIN::SysExStartOrContinue => 3,
            CIN::SingleByteSysComOrSysExEnd => 1,
            CIN::TwoByteSysExEnd => 2,
            CIN::ThreeByteSysExEnd => 3,
            CIN::NoteOff | CIN::NoteOn | CIN::PolyKeypress | CIN::ControlChange
                | CIN::PitchbendChange => 3,
            CIN::ChannelPressure | CIN::ProgramChange => 2,
            CIN::SingleByte => 1,
        }
    }

    /// The canonical CIN for this event, per [`spec_cin_for`]: `None` when
    /// the event's bytes do not fit the 3 payload bytes, and otherwise a
    /// CIN that makes a well-formed packet with any cable number.
    pub fn cin_for(event: &LiveEvent) -> (r: Option<CIN>)
        requires
            event@.wf(),
        ensures
            r == spec_cin_for(event@),
            r matches Some(c) ==> (forall|cable: u8|
                cable < 16 ==> #[trigger] packet_view(cable, c, event@).wf()),
            (r is None ==> event@.bytes().len() > 3),
    {
        match event {
            LiveEvent::Midi { channel: _, message } => {
                proof {
                    match event@ {
                        LiveEventView::Midi { channel: c, message: m } => {
                            lemma_message_round_trip(m, c);
                        }
                        _ => {}
                    }
                }
                Some(CIN::from(message.status_nibble()))
            }
            LiveEvent::Realtime(_) => Some(CIN::SingleByte),
            LiveEvent::Common(c) => {
                match c {
                    SystemCommon::SysEx(d) => {
                        if d.len() == 0 {
                            Some(CIN::TwoByteSysExEnd)
                        } else if d.len() == 1 {
                            Some(CIN::ThreeByteSysExEnd)
                        } else {
                            None
                        }
                    }
                    SystemCommon::MidiTimeCodeQuarterFrame(..) => Some(CIN::TwoByteSysCom),
                    SystemCommon::SongPosition(_) => Some(CIN::ThreeByteSysCom),
                    SystemCommon::SongSelect(_) => Some(CIN::TwoByteSysCom),
                    SystemCommon::TuneRequest => Some(CIN::SingleByteSysComOrSysExEnd),
                    SystemCommon::Undefined(_, d) => {
                        if d.len() == 0 {
                            Some(CIN::SingleByteSysComOrSysExEnd)
                        } else if d.len() == 1 {
                            Some(CIN::TwoByteSysCom)
                        } else if d.len() == 2 {
                            Some(CIN::ThreeByteSysCom)
                        } else {
                            None
                        }
                    }
                }
            }
        }
    }

    /// Decode a 4-byte USB-MIDI frame.
    ///
    /// A frame whose CIN says it carries no event yields `Ok(None)`
    /// whatever its payload bytes hold. Payload bytes beyond the CIN's
    /// meaningful count are padding and are ignored.
    pub fn read(packet: &[u8]) -> (r: Result<Option<UsbMidiPacket>, MidiError>)
        requires
            packet@.len() == 4,
        ensures
            frame_result_view(r) == spec_frame_read(packet@),
            (match r {
                Ok(Some(pk)) => pk@.cable_number < 16,
                _ => true,
            }),
    {
        let header = packet[0];
        let cable: u8 = header / 16;
        let ci: u8 = header % 16;
        let cin = CIN::from(ci);
        let n: usize = Self::packet_length(cin);
        if n == 0 {
            return Ok(None);
        }
        let status = packet[1];
        if ci >= 0x8 && ci <= 0xE {
            if !(status >= 0x80 && status <= 0xEF) {
                return Err(MidiError::InvalidStatus);
            }
            let data = mask_bytes(packet, 2, 1 + n);
            proof {
                lemma_mask7(packet@.subrange(2, 1 + n as int));
            }
            match MidiMessage::read(status, data.as_slice()) {
                Ok((channel, message)) => Ok(Some(UsbMidiPacket {
                    cable_number: cable,
                    code_index_number: cin,
                    event: LiveEvent::Midi { channel, message },
                })),
                Err(e) => Err(e),
            }
        } else if ci == 0xF {
            Ok(Some(UsbMidiPacket {
                cable_number: cable,
                code_index_number: cin,
                event: LiveEvent::Realtime(SystemRealtime::new(status)),
            }))
        } else {
            let mut end: usize = 1 + n;
            if status == 0xF0 && n >= 2 && packet[n] == 0xF7 {
                end = n;
            }
            let data = mask_bytes(packet, 2, end);
            proof {
                let rest = packet@.subrange(2, 1 + n as int);
                assert(rest.len() > 0 ==> rest[rest.len() - 1] == packet@[n as int]);
                if status == 0xF0 && n >= 2 && packet@[n as int] == 0xF7 {
                    assert(rest.drop_last() =~= packet@.subrange(2, end as int));
                } else {
                    assert(rest =~= packet@.subrange(2, end as int));
                }
                assert(data@ == mask7(sysex_strip(status, rest)));
                lemma_mask7(sysex_strip(status, rest));
            }
            match SystemCommon::read(status, data.as_slice()) {
                Ok(c) => Ok(Some(UsbMidiPacket {
                    cable_number: cable,
                    code_index_number: cin,
                    event: LiveEvent::Common(c),
                })),
                Err(e) => Err(e),
            }
        }
    }

    /// Append this packet's 4-byte frame to `out`: the header byte, the
    /// event's wire bytes, and zero padding.
    pub fn write(&self, out: &mut Vec<u8>)
        requires
            self@.wf(),
        ensures
            final(out)@ == old(out)@ + self@.frame_bytes(),
            self@.frame_bytes().len() == 4,
    {
        let header: u8 = self.cable_number * 16 + self.code_index_number.as_int();
        out.push(header);
        self.event.write(out);
        let n: usize = Self::packet_length(self.code_index_number);
        let ghost mid = out@;
        let mut i: usize = n;
        while i < 3
            invariant
                n <= i <= 3,
                out@ == mid + Seq::new((i - n) as nat, |k: int| 0u8),
            decreases 3 - i,
        {
            out.push(0x00);
            i = i + 1;
            proof {
                assert(out@ =~= mid + Seq::new((i - n) as nat, |k: int| 0u8));
            }
        }
        proof {
            assert(out@ =~= old(out)@ + self@.frame_bytes());
        }
    }
}

/// Frame round trip: a well-formed packet's 4-byte frame decodes back to
/// the packet.
pub proof fn lemma_frame_round_trip(p: UsbMidiPacketView)
    requires
        p.wf(),
    ensures
        p.frame_bytes().len() == 4,
        spec_frame_read(p.frame_bytes()) == Ok::<Option<UsbMidiPacketView>, MidiError>(Some(p)),
{
    let f = p.frame_bytes();
    let eb = p.event.bytes();
    let ci = spec_cin_as_int(p.code_index_number);
    let n = spec_payload_length(p.code_index_number);
    lemma_cin_table();
    assert(f[0] == (p.cable_number * 16 + ci) as u8);
    assert(f[0] / 16 == p.cable_number && f[0] % 16 == ci);
    assert(spec_cin_from(ci) == p.code_index_number);
    assert(n == eb.len());
    assert(n >= 1);
    assert(f[1] == eb[0]);
    let rest = f.subrange(2, 1 + n);
    assert(rest =~= eb.subrange(1, n));
    match p.event {
        LiveEventView::Midi { channel, message } => {
            lemma_message_round_trip(message, channel);
            assert(eb[0] == midi_status(channel, message));
            assert(rest =~= message.data_bytes());
            lemma_mask7(rest);
        }
        LiveEventView::Realtime(r) => {
            lemma_realtime_round_trip(r);
        }
        LiveEventView::Common(c) => {
            lemma_common_round_trip(c);
            assert(rest =~= c.bytes().subrange(1, c.bytes().len() as int));
            lemma_mask7(sysex_strip(eb[0], rest));
        }
    }
}

} // verus!
