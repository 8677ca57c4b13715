//! Live MIDI messages: the event model, its parse and serialize rules, and
//! the running-status optimization for output streams.
//!
//! A live message is a status byte in `0x80..=0xFF` followed by 7-bit data
//! bytes. Status bytes `0x80..=0xEF` carry Channel Voice messages,
//! `0xF0..=0xF7` System Common messages, and `0xF8..=0xFF` one-byte System
//! Realtime messages.

use vstd::prelude::*;

use crate::MidiError;
use crate::message::{MidiMessage, lemma_message_round_trip, seven_bit, spec_data_len};

verus! {

/// A one-byte System Realtime message.
///
/// Realtime messages are time-critical, may legally interleave with any
/// other message on the wire, and never carry data bytes.
#[derive(Copy, Clone, PartialEq, Eq, Structural, Debug)]
pub enum SystemRealtime {
    /// Sent 24 times per quarter note while a sequence runs. Byte `0xF8`.
    TimingClock,
    /// Start the sequence from the beginning. Byte `0xFA`.
    Start,
    /// Resume the sequence from where it stopped. Byte `0xFB`.
    Continue,
    /// Stop the sequence. Byte `0xFC`.
    Stop,
    /// Once sent, one must arrive every 300 ms or the connection is
    /// considered broken. Byte `0xFE`.
    ActiveSensing,
    /// Reset the receiver to its power-up state. Byte `0xFF`.
    Reset,
    /// A realtime status byte the MIDI specification leaves unassigned.
    Undefined(u8),
}

impl SystemRealtime {
    /// An `Undefined` value holds a byte of the realtime range that no named
    /// variant claims, so that decoding its encoding yields it back.
    pub open spec fn wf(self) -> bool {
        match self {
            SystemRealtime::Undefined(b) => b == 0xF9 || b == 0xFD,
            _ => true,
        }
    }

    /// The realtime message a status byte decodes to.
    pub open spec fn spec_new(status: u8) -> SystemRealtime {
        if status == 0xF8 {
            SystemRealtime::TimingClock
        } else if status == 0xFA {
            SystemRealtime::Start
        } else if status == 0xFB {
            SystemRealtime::Continue
        } else if status == 0xFC {
            SystemRealtime::Stop
        } else if status == 0xFE {
            SystemRealtime::ActiveSensing
        } else if status == 0xFF {
            SystemRealtime::Reset
        } else {
            SystemRealtime::Undefined(status)
        }
    }

    /// The status byte this realtime message encodes to.
    pub open spec fn spec_encode(self) -> u8 {
        match self {
            SystemRealtime::TimingClock => 0xF8,
            SystemRealtime::Start => 0xFA,
            SystemRealtime::Continue => 0xFB,
            SystemRealtime::Stop => 0xFC,
            SystemRealtime::ActiveSensing => 0xFE,
            SystemRealtime::Reset => 0xFF,
            SystemRealtime::Undefined(b) => b,
        }
    }

    /// Create a realtime message from its status byte. Total: unassigned
    /// bytes yield [`SystemRealtime::Undefined`].
    pub fn new(status: u8) -> (r: SystemRealtime)
        ensures
            r == SystemRealtime::spec_new(status),
    {
        match status {
            0xF8 => SystemRealtime::TimingClock,
            0xFA => SystemRealtime::Start,
            0xFB => SystemRealtime::Continue,
            0xFC => SystemRealtime::Stop,
            0xFE => SystemRealtime::ActiveSensing,
            0xFF => SystemRealtime::Reset,
            _ => SystemRealtime::Undefined(status),
        }
    }

    /// The status byte for this realtime message; `Undefined(b)` returns `b`
    /// unchanged.
    pub fn encode(self) -> (r: u8)
        ensures
            r == self.spec_encode(),
    {
        match self {
            SystemRealtime::TimingClock => 0xF8,
            SystemRealtime::Start => 0xFA,
            SystemRealtime::Continue => 0xFB,
            SystemRealtime::Stop => 0xFC,
            SystemRealtime::ActiveSensing => 0xFE,
            SystemRealtime::Reset => 0xFF,
            SystemRealtime::Undefined(b) => b,
        }
    }

    /// Whether this value satisfies [`SystemRealtime::wf`].
    pub fn is_well_formed(&self) -> (r: bool)
        ensures
            r == self.wf(),
    {
        match self {
            SystemRealtime::Undefined(b) => *b == 0xF9 || *b == 0xFD,
            _ => true,
        }
    }
}

/// Decoding the encoding of a well-formed realtime message yields it back,
/// and the encoded byte is always in the realtime range `0xF8..=0xFF`.
pub proof fn lemma_realtime_round_trip(r: SystemRealtime)
    requires
        r.wf(),
    ensures
        SystemRealtime::spec_new(r.spec_encode()) == r,
        0xF8 <= r.spec_encode(),
{
}

/// The field a MIDI Time Code Quarter Frame message carries: one nibble of
/// the frame, second, minute or hour count.
#[derive(Copy, Clone, PartialEq, Eq, Structural, Debug)]
pub enum MtcQuarterFrameMessage {
    /// The low nibble of the frame count. Code 0.
    FramesLow,
    /// The high nibble of the frame count. Code 1.
    FramesHigh,
    /// The low nibble of the second count. Code 2.
    SecondsLow,
    /// The high nibble of the second count. Code 3.
    SecondsHigh,
    /// The low nibble of the minute count. Code 4.
    MinutesLow,
    /// The high nibble of the minute count. Code 5.
    MinutesHigh,
    /// The low nibble of the hour count. Code 6.
    HoursLow,
    /// The high nibble of the hour count. Code 7.
    HoursHigh,
}

impl MtcQuarterFrameMessage {
    /// The 3-bit code this field occupies in the data byte's high nibble.
    pub open spec fn spec_as_code(self) -> u8 {
        match self {
            MtcQuarterFrameMessage::FramesLow => 0,
            MtcQuarterFrameMessage::FramesHigh => 1,
            MtcQuarterFrameMessage::SecondsLow => 2,
            MtcQuarterFrameMessage::SecondsHigh => 3,
            MtcQuarterFrameMessage::MinutesLow => 4,
            MtcQuarterFrameMessage::MinutesHigh => 5,
            MtcQuarterFrameMessage::HoursLow => 6,
            MtcQuarterFrameMessage::HoursHigh => 7,
        }
    }

    /// The field a code below 8 selects; codes 7 and above all fall to the
    /// last field, so use this only under that bound.
    pub open spec fn spec_from_code(code: u8) -> MtcQuarterFrameMessage
        recommends
            code < 8,
    {
        if code == 0 {
            MtcQuarterFrameMessage::FramesLow
        } else if code == 1 {
            MtcQuarterFrameMessage::FramesHigh
        } else if code == 2 {
            MtcQuarterFrameMessage::SecondsLow
        } else if code == 3 {
            MtcQuarterFrameMessage::SecondsHigh
        } else if code == 4 {
            MtcQuarterFrameMessage::MinutesLow
        } else if code == 5 {
            MtcQuarterFrameMessage::MinutesHigh
        } else if code == 6 {
            MtcQuarterFrameMessage::HoursLow
        } else {
            MtcQuarterFrameMessage::HoursHigh
        }
    }

    /// The code for this field, as executable code.
    pub fn as_code(self) -> (r: u8)
        ensures
            r == self.spec_as_code(),
    {
        match self {
            MtcQuarterFrameMessage::FramesLow => 0,
            MtcQuarterFrameMessage::FramesHigh => 1,
            MtcQuarterFrameMessage::SecondsLow => 2,
            MtcQuarterFrameMessage::SecondsHigh => 3,
            MtcQuarterFrameMessage::MinutesLow => 4,
            MtcQuarterFrameMessage::MinutesHigh => 5,
            MtcQuarterFrameMessage::HoursLow => 6,
            MtcQuarterFrameMessage::HoursHigh => 7,
        }
    }

    /// The field for a code, or `None` when the code is 8 or more.
    pub fn from_code(code: u8) -> (r: Option<MtcQuarterFrameMessage>)
        ensures
            code < 8 ==> r == Some(MtcQuarterFrameMessage::spec_from_code(code)),
            code >= 8 ==> r is None,
    {
        match code {
            0 => Some(MtcQuarterFrameMessage::FramesLow),
            1 => Some(MtcQuarterFrameMessage::FramesHigh),
            2 => Some(MtcQuarterFrameMessage::SecondsLow),
            3 => Some(MtcQuarterFrameMessage::SecondsHigh),
            4 => Some(MtcQuarterFrameMessage::MinutesLow),
            5 => Some(MtcQuarterFrameMessage::MinutesHigh),
            6 => Some(MtcQuarterFrameMessage::HoursLow),
            7 => Some(MtcQuarterFrameMessage::HoursHigh),
            _ => None,
        }
    }
}

/// A System Common message.
#[derive(Clone, PartialEq, Eq, Debug)]
pub enum SystemCommon {
    /// A System Exclusive run. On the wire it is bounded by `0xF0` and
    /// `0xF7`; the stored bytes exclude both delimiters.
    SysEx(Vec<u8>),
    /// A MIDI Time Code Quarter Frame: a field selector and a 4-bit value.
    MidiTimeCodeQuarterFrame(MtcQuarterFrameMessage, u8),
    /// The count of MIDI beats since the start of the sequence, 14-bit,
    /// sent little 7-bit half first.
    SongPosition(u16),
    /// Select a song index.
    SongSelect(u8),
    /// Ask analog synthesizers to retune. No data bytes.
    TuneRequest,
    /// A System Common status byte the MIDI specification leaves
    /// unassigned, with its raw data bytes.
    Undefined(u8, Vec<u8>),
}

/// The mathematical model of a [`SystemCommon`] value: the same shape with
/// the byte sequences as [`Seq`].
pub enum SystemCommonView {
    SysEx(Seq<u8>),
    MidiTimeCodeQuarterFrame(MtcQuarterFrameMessage, u8),
    SongPosition(u16),
    SongSelect(u8),
    TuneRequest,
    Undefined(u8, Seq<u8>),
}

impl View for SystemCommon {
    type V = SystemCommonView;

    open spec fn view(&self) -> SystemCommonView {
        match self {
            SystemCommon::SysEx(d) => SystemCommonView::SysEx(d@),
            SystemCommon::MidiTimeCodeQuarterFrame(t, v) => {
                SystemCommonView::MidiTimeCodeQuarterFrame(*t, *v)
            }
            SystemCommon::SongPosition(p) => SystemCommonView::SongPosition(*p),
            SystemCommon::SongSelect(s) => SystemCommonView::SongSelect(*s),
            SystemCommon::TuneRequest => SystemCommonView::TuneRequest,
            SystemCommon::Undefined(s, d) => SystemCommonView::Undefined(*s, d@),
        }
    }
}

/// `s` with the top bit of every byte cleared.
pub open spec fn mask7(s: Seq<u8>) -> Seq<u8> {
    Seq::new(s.len(), |i: int| (s[i] % 0x80) as u8)
}

/// Masking clears every top bit, and leaves bytes that already are 7-bit
/// unchanged.
pub proof fn lemma_mask7(s: Seq<u8>)
    ensures
        seven_bit(mask7(s)),
        seven_bit(s) ==> mask7(s) == s,
{
    assert(seven_bit(mask7(s)));
    if seven_bit(s) {
        assert(mask7(s) =~= s);
    }
}

/// The data bytes of a System Exclusive run, with a terminating `0xF7`
/// dropped: the delimiter is part of the wire framing, not of the data.
pub open spec fn sysex_strip(status: u8, rest: Seq<u8>) -> Seq<u8> {
    if status == 0xF0 && rest.len() > 0 && rest[rest.len() - 1] == 0xF7 {
        rest.drop_last()
    } else {
        rest
    }
}

impl SystemCommonView {
    /// Data bytes are 7-bit, values fit their wire fields, and an
    /// `Undefined` value has none of the shapes that decode to a named
    /// variant, so that decoding its encoding yields it back.
    pub open spec fn wf(self) -> bool {
        match self {
            SystemCommonView::SysEx(d) => seven_bit(d),
            SystemCommonView::MidiTimeCodeQuarterFrame(_, v) => v < 0x10,
            SystemCommonView::SongPosition(p) => p < 0x4000,
            SystemCommonView::SongSelect(s) => s < 0x80,
            SystemCommonView::TuneRequest => true,
            SystemCommonView::Undefined(status, d) => {
                &&& 0xF1 <= status <= 0xF5
                &&& seven_bit(d)
                &&& !(status == 0xF1 && d.len() >= 1)
                &&& !(status == 0xF2 && d.len() >= 2)
                &&& !(status == 0xF3 && d.len() >= 1)
            }
        }
    }

    /// The bytes this message writes: its status byte, then its data; a
    /// System Exclusive run is bounded by `0xF0` and `0xF7`.
    pub open spec fn bytes(self) -> Seq<u8> {
        match self {
            SystemCommonView::SysEx(d) => seq![0xF0u8] + d + seq![0xF7u8],
            SystemCommonView::MidiTimeCodeQuarterFrame(t, v) => {
                seq![0xF1u8, (t.spec_as_code() * 16 + v) as u8]
            }
            SystemCommonView::SongPosition(p) => {
                seq![0xF2u8, (p % 0x80) as u8, (p / 0x80) as u8]
            }
            SystemCommonView::SongSelect(s) => seq![0xF3u8, s],
            SystemCommonView::TuneRequest => seq![0xF6u8],
            SystemCommonView::Undefined(status, d) => seq![status] + d,
        }
    }
}

/// The System Common message a status byte and its 7-bit data bytes decode
/// to.
///
/// `0xF0` takes all data bytes as a System Exclusive run; `0xF1..=0xF3`
/// decode their fixed shapes when enough data is there and otherwise fall,
/// with `0xF4` and `0xF5`, to [`SystemCommonView::Undefined`]; `0xF6` is
/// a Tune Request; every other status byte is refused.
pub open spec fn spec_common_read(status: u8, data: Seq<u8>) -> Result<SystemCommonView, MidiError> {
    if status == 0xF0 {
        Ok(SystemCommonView::SysEx(data))
    } else if status == 0xF1 && data.len() >= 1 {
        Ok(SystemCommonView::MidiTimeCodeQuarterFrame(
            MtcQuarterFrameMessage::spec_from_code(data[0] / 16),
            (data[0] % 16) as u8,
        ))
    } else if status == 0xF2 && data.len() >= 2 {
        Ok(SystemCommonView::SongPosition((data[0] + data[1] * 0x80) as u16))
    } else if status == 0xF3 && data.len() >= 1 {
        Ok(SystemCommonView::SongSelect(data[0]))
    } else if status == 0xF6 {
        Ok(SystemCommonView::TuneRequest)
    } else if 0xF1 <= status <= 0xF5 {
        Ok(SystemCommonView::Undefined(status, data))
    } else {
        Err(MidiError::InvalidStatus)
    }
}

/// The view of a [`SystemCommon`] decode result.
pub open spec fn common_result_view(r: Result<SystemCommon, MidiError>) -> Result<
    SystemCommonView,
    MidiError,
> {
    match r {
        Ok(c) => Ok(c@),
        Err(e) => Err(e),
    }
}

/// A copy of `data` as an owned vector.
fn copy_bytes(data: &[u8]) -> (r: Vec<u8>)
    ensures
        r@ == data@,
{
    let mut out: Vec<u8> = Vec::new();
    let mut i: usize = 0;
    while i < data.len()
        invariant
            i <= data@.len(),
            out@ == data@.subrange(0, i as int),
        decreases data@.len() - i,
    {
        out.push(data[i]);
        i = i + 1;
        proof {
            assert(out@ =~= data@.subrange(0, i as int));
        }
    }
    proof {
        assert(out@ =~= data@);
    }
    out
}

impl SystemCommon {
    /// Whether this value satisfies [`SystemCommonView::wf`].
    pub fn is_well_formed(&self) -> (r: bool)
        ensures
            r == self@.wf(),
    {
        match self {
            SystemCommon::SysEx(d) => all_seven_bit(d.as_slice()),
            SystemCommon::MidiTimeCodeQuarterFrame(_, v) => *v < 0x10,
            SystemCommon::SongPosition(p) => *p < 0x4000,
            SystemCommon::SongSelect(s) => *s < 0x80,
            SystemCommon::TuneRequest => true,
            SystemCommon::Undefined(status, d) => {
                0xF1 <= *status && *status <= 0xF5 && all_seven_bit(d.as_slice())
                    && !(*status == 0xF1 && d.len() >= 1) && !(*status == 0xF2 && d.len() >= 2)
                    && !(*status == 0xF3 && d.len() >= 1)
            }
        }
    }

    /// Decode a System Common message from its status byte and its 7-bit
    /// data bytes.
    ///
    /// The data must already exclude a System Exclusive terminator; see
    /// [`crate::live::LiveEvent::parse`] for the raw-bytes entry point that
    /// strips it.
    pub fn read(status: u8, data: &[u8]) -> (r: Result<SystemCommon, MidiError>)
        requires
            seven_bit(data@),
        ensures
            common_result_view(r) == spec_common_read(status, data@),
            r matches Ok(c) ==> c@.wf(),
    {
        if status == 0xF0 {
            Ok(SystemCommon::SysEx(copy_bytes(data)))
        } else if status == 0xF1 && data.len() >= 1 {
            let code: u8 = data[0] / 16;
            let field = match MtcQuarterFrameMessage::from_code(code) {
                Some(f) => f,
                None => {
                    // Unreachable: a 7-bit data byte has a high nibble below 8.
                    return Err(MidiError::InvalidData);
                }
            };
            Ok(SystemCommon::MidiTimeCodeQuarterFrame(field, data[0] % 16))
        } else if status == 0xF2 && data.len() >= 2 {
            let pos: u16 = data[0] as u16 + data[1] as u16 * 0x80;
            Ok(SystemCommon::SongPosition(pos))
        } else if status == 0xF3 && data.len() >= 1 {
            Ok(SystemCommon::SongSelect(data[0]))
        } else if status == 0xF6 {
            Ok(SystemCommon::TuneRequest)
        } else if 0xF1 <= status && status <= 0xF5 {
            Ok(SystemCommon::Undefined(status, copy_bytes(data)))
        } else {
            Err(MidiError::InvalidStatus)
        }
    }

    /// Append this message's wire bytes to `out`.
    pub fn write(&self, out: &mut Vec<u8>)
        requires
            self@.wf(),
        ensures
            final(out)@ == old(out)@ + self@.bytes(),
    {
        match self {
            SystemCommon::SysEx(d) => {
                out.push(0xF0);
                let mut i: usize = 0;
                while i < d.len()
                    invariant
                        i <= d@.len(),
                        out@ == old(out)@ + seq![0xF0u8] + d@.subrange(0, i as int),
                    decreases d@.len() - i,
                {
                    out.push(d[i]);
                    i = i + 1;
                    proof {
                        assert(out@ =~= old(out)@ + seq![0xF0u8] + d@.subrange(0, i as int));
                    }
                }
                out.push(0xF7);
                proof {
                    assert(d@.subrange(0, d@.len() as int) =~= d@);
                    assert(out@ =~= old(out)@ + self@.bytes());
                }
            }
            SystemCommon::MidiTimeCodeQuarterFrame(t, v) => {
                out.push(0xF1);
                out.push(t.as_code() * 16 + *v);
                proof {
                    assert(out@ =~= old(out)@ + self@.bytes());
                }
            }
            SystemCommon::SongPosition(p) => {
                out.push(0xF2);
                out.push((*p % 0x80) as u8);
                out.push((*p / 0x80) as u8);
                proof {
                    assert(out@ =~= old(out)@ + self@.bytes());
                }
            }
            SystemCommon::SongSelect(s) => {
                out.push(0xF3);
                out.push(*s);
                proof {
                    assert(out@ =~= old(out)@ + self@.bytes());
                }
            }
            SystemCommon::TuneRequest => {
                out.push(0xF6);
                proof {
                    assert(out@ =~= old(out)@ + self@.bytes());
                }
            }
            SystemCommon::Undefined(status, d) => {
                out.push(*status);
                let mut i: usize = 0;
                while i < d.len()
                    invariant
                        i <= d@.len(),
                        out@ == old(out)@ + seq![self.status_byte_spec()] + d@.subrange(
                            0,
                            i as int,
                        ),
                    decreases d@.len() - i,
                {
                    out.push(d[i]);
                    i = i + 1;
                    proof {
                        assert(out@ =~= old(out)@ + seq![self.status_byte_spec()] + d@.subrange(
                            0,
                            i as int,
                        ));
                    }
                }
                proof {
                    assert(d@.subrange(0, d@.len() as int) =~= d@);
                    assert(out@ =~= old(out)@ + self@.bytes());
                }
            }
        }
    }

    /// The status byte of an `Undefined` message, for loop invariants.
    spec fn status_byte_spec(&self) -> u8 {
        match self {
            SystemCommon::Undefined(status, _) => *status,
            _ => 0,
        }
    }
}

/// Whether every byte of `data` has its top bit clear.
pub fn all_seven_bit(data: &[u8]) -> (r: bool)
    ensures
        r == seven_bit(data@),
{
    let mut i: usize = 0;
    while i < data.len()
        invariant
            i <= data@.len(),
            forall|j: int| 0 <= j < i ==> data@[j] < 0x80,
        decreases data@.len() - i,
    {
        if data[i] >= 0x80 {
            return false;
        }
        i = i + 1;
    }
    true
}

/// A well-formed System Common message serializes to a status byte in
/// `0xF0..=0xF6` followed by 7-bit data; stripping a System Exclusive
/// terminator and decoding yields the message back.
pub proof fn lemma_common_round_trip(c: SystemCommonView)
    requires
        c.wf(),
    ensures
        c.bytes().len() >= 1,
        0xF0 <= c.bytes()[0] <= 0xF6,
        seven_bit(sysex_strip(c.bytes()[0], c.bytes().subrange(1, c.bytes().len() as int))),
        spec_common_read(
            c.bytes()[0],
            sysex_strip(c.bytes()[0], c.bytes().subrange(1, c.bytes().len() as int)),
        ) == Ok::<SystemCommonView, MidiError>(c),
{
    let b = c.bytes();
    let rest = b.subrange(1, b.len() as int);
    match c {
        SystemCommonView::SysEx(d) => {
            assert(rest =~= d + seq![0xF7u8]);
            assert(rest[rest.len() - 1] == 0xF7);
            assert(sysex_strip(0xF0, rest) =~= d);
        }
        SystemCommonView::MidiTimeCodeQuarterFrame(t, v) => {
            let d0 = (t.spec_as_code() * 16 + v) as u8;
            assert(rest =~= seq![d0]);
            assert(d0 / 16 == t.spec_as_code() && d0 % 16 == v);
            assert(MtcQuarterFrameMessage::spec_from_code(t.spec_as_code()) == t);
        }
        SystemCommonView::SongPosition(p) => {
            assert(rest =~= seq![(p % 0x80) as u8, (p / 0x80) as u8]);
            assert(p == (p / 0x80) * 0x80 + p % 0x80) by {
                vstd::arithmetic::div_mod::lemma_fundamental_div_mod(p as int, 0x80);
            }
        }
        SystemCommonView::SongSelect(s) => {
            assert(rest =~= seq![s]);
        }
        SystemCommonView::TuneRequest => {
            assert(rest =~= Seq::<u8>::empty());
        }
        SystemCommonView::Undefined(status, d) => {
            assert(rest =~= d);
        }
    }
}

/// A live event: a Channel Voice message with its channel, a System Common
/// message, or a System Realtime message.
#[derive(Clone, PartialEq, Eq, Debug)]
pub enum LiveEvent {
    /// A Channel Voice message, carrying musical data.
    Midi { channel: u8, message: MidiMessage },
    /// A System Common message, including System Exclusive runs.
    Common(SystemCommon),
    /// A one-byte System Realtime message.
    Realtime(SystemRealtime),
}

/// The mathematical model of a [`LiveEvent`] value.
pub enum LiveEventView {
    Midi { channel: u8, message: MidiMessage },
    Common(SystemCommonView),
    Realtime(SystemRealtime),
}

impl View for LiveEvent {
    type V = LiveEventView;

    open spec fn view(&self) -> LiveEventView {
        match self {
            LiveEvent::Midi { channel, message } => {
                LiveEventView::Midi { channel: *channel, message: *message }
            }
            LiveEvent::Common(c) => LiveEventView::Common(c@),
            LiveEvent::Realtime(r) => LiveEventView::Realtime(*r),
        }
    }
}

/// The status byte of a Channel Voice message: the message's status nibble
/// in the high half, the channel in the low half.
pub open spec fn midi_status(channel: u8, message: MidiMessage) -> u8 {
    (message.spec_status_nibble() * 16 + channel) as u8
}

impl LiveEventView {
    /// The channel fits in four bits and the carried message is well-formed.
    pub open spec fn wf(self) -> bool {
        match self {
            LiveEventView::Midi { channel, message } => channel < 16 && message.wf(),
            LiveEventView::Common(c) => c.wf(),
            LiveEventView::Realtime(r) => r.wf(),
        }
    }

    /// The bytes this event writes when no running status is in effect:
    /// its status byte, then its data bytes.
    pub open spec fn bytes(self) -> Seq<u8> {
        match self {
            LiveEventView::Midi { channel, message } => {
                seq![midi_status(channel, message)] + message.data_bytes()
            }
            LiveEventView::Common(c) => c.bytes(),
            LiveEventView::Realtime(r) => seq![r.spec_encode()],
        }
    }
}

/// The bytes an event writes under a running status: a Channel Voice
/// message whose status byte equals the running status omits it; System
/// Common messages always write their status; Realtime messages are their
/// single byte.
pub open spec fn running_status_bytes(e: LiveEventView, rs: Option<u8>) -> Seq<u8> {
    match e {
        LiveEventView::Midi { channel, message } => {
            if rs == Some(midi_status(channel, message)) {
                message.data_bytes()
            } else {
                seq![midi_status(channel, message)] + message.data_bytes()
            }
        }
        _ => e.bytes(),
    }
}

/// The running status after an event is written: a Channel Voice message
/// sets it to its status byte, a System Common message clears it, and a
/// Realtime message leaves it untouched.
pub open spec fn running_status_after(e: LiveEventView, rs: Option<u8>) -> Option<u8> {
    match e {
        LiveEventView::Midi { channel, message } => Some(midi_status(channel, message)),
        LiveEventView::Common(_) => None,
        LiveEventView::Realtime(_) => rs,
    }
}

/// The event a status byte and its 7-bit data bytes decode to: Channel
/// Voice for `0x80..=0xEF`, System Realtime for `0xF8..=0xFF`, and System
/// Common for everything else (which refuses status bytes below `0xF0`).
pub open spec fn spec_live_read(status: u8, data: Seq<u8>) -> Result<LiveEventView, MidiError> {
    if 0x80 <= status <= 0xEF {
        if data.len() >= spec_data_len(status / 16) {
            Ok(LiveEventView::Midi {
                channel: (status % 16) as u8,
                message: MidiMessage::spec_read(status, data),
            })
        } else {
            Err(MidiError::InvalidData)
        }
    } else if status >= 0xF8 {
        Ok(LiveEventView::Realtime(SystemRealtime::spec_new(status)))
    } else {
        match spec_common_read(status, data) {
            Ok(c) => Ok(LiveEventView::Common(c)),
            Err(e) => Err(e),
        }
    }
}

/// The event a raw byte buffer decodes to: the first byte is the status
/// byte; the rest, after a System Exclusive terminator is stripped, are
/// taken as 7-bit data with the top bit of each byte cleared.
pub open spec fn spec_live_parse(raw: Seq<u8>) -> Result<LiveEventView, MidiError> {
    if raw.len() == 0 {
        Err(MidiError::InvalidData)
    } else {
        let status = raw[0];
        spec_live_read(status, mask7(sysex_strip(status, raw.subrange(1, raw.len() as int))))
    }
}

/// The view of a [`LiveEvent`] decode result.
pub open spec fn live_result_view(r: Result<LiveEvent, MidiError>) -> Result<
    LiveEventView,
    MidiError,
> {
    match r {
        Ok(e) => Ok(e@),
        Err(e) => Err(e),
    }
}

/// The masked bytes `raw[start..end]`, each with its top bit cleared.
pub(crate) fn mask_bytes(raw: &[u8], start: usize, end: usize) -> (r: Vec<u8>)
    requires
        start <= end <= raw@.len(),
    ensures
        r@ == mask7(raw@.subrange(start as int, end as int)),
{
    let mut out: Vec<u8> = Vec::new();
    let mut i: usize = start;
    while i < end
        invariant
            start <= i <= end <= raw@.len(),
            out@ == mask7(raw@.subrange(start as int, i as int)),
        decreases end - i,
    {
        out.push(raw[i] % 0x80);
        i = i + 1;
        proof {
            assert(out@ =~= mask7(raw@.subrange(start as int, i as int)));
        }
    }
    out
}

impl LiveEvent {
    /// Whether this value satisfies [`LiveEventView::wf`].
    pub fn is_well_formed(&self) -> (r: bool)
        ensures
            r == self@.wf(),
    {
        match self {
            LiveEvent::Midi { channel, message } => *channel < 16 && message.is_well_formed(),
            LiveEvent::Common(c) => c.is_well_formed(),
            LiveEvent::Realtime(rt) => rt.is_well_formed(),
        }
    }

    /// Decode an event from its status byte and its 7-bit data bytes.
    pub fn read(status: u8, data: &[u8]) -> (r: Result<LiveEvent, MidiError>)
        requires
            seven_bit(data@),
        ensures
            live_result_view(r) == spec_live_read(status, data@),
            r matches Ok(e) ==> e@.wf(),
    {
        if status >= 0x80 && status <= 0xEF {
            match MidiMessage::read(status, data) {
                Ok((channel, message)) => Ok(LiveEvent::Midi { channel, message }),
                Err(e) => Err(e),
            }
        } else if status >= 0xF8 {
            Ok(LiveEvent::Realtime(SystemRealtime::new(status)))
        } else {
            match SystemCommon::read(status, data) {
                Ok(c) => Ok(LiveEvent::Common(c)),
                Err(e) => Err(e),
            }
        }
    }

    /// Parse a complete MIDI message from its raw bytes.
    ///
    /// The first byte is the status byte; an empty buffer is refused. The
    /// entry point dispatches over the full status range: Channel Voice,
    /// System Common and System Realtime all decode here. The remaining
    /// bytes are taken as 7-bit data with the top bit of each cleared; for
    /// a System Exclusive run a terminating `0xF7` is dropped first, so
    /// that the parsed run holds the data bytes alone.
    pub fn parse(raw: &[u8]) -> (r: Result<LiveEvent, MidiError>)
        ensures
            live_result_view(r) == spec_live_parse(raw@),
            r matches Ok(e) ==> e@.wf(),
    {
        if raw.len() == 0 {
            return Err(MidiError::InvalidData);
        }
        let status = raw[0];
        let mut end: usize = raw.len();
        if status == 0xF0 && end > 1 && raw[end - 1] == 0xF7 {
            end = end - 1;
        }
        let data = mask_bytes(raw, 1, end);
        proof {
            let rest = raw@.subrange(1, raw@.len() as int);
            assert(rest.len() > 0 ==> rest[rest.len() - 1] == raw@[raw@.len() - 1]);
            if status == 0xF0 && raw@.len() > 1 && raw@[raw@.len() - 1] == 0xF7 {
                assert(rest.drop_last() =~= raw@.subrange(1, end as int));
            } else {
                assert(rest =~= raw@.subrange(1, end as int));
            }
            assert(data@ == mask7(sysex_strip(status, rest)));
            lemma_mask7(sysex_strip(status, rest));
        }
        Self::read(status, data.as_slice())
    }

    /// Write this event to `out`, always emitting the status byte.
    pub fn write(&self, out: &mut Vec<u8>)
        requires
            self@.wf(),
        ensures
            final(out)@ == old(out)@ + self@.bytes(),
    {
        let mut rs: Option<u8> = None;
        self.write_with_running_status(&mut rs, out);
    }

    /// Write this event to `out`, omitting the status byte of a Channel
    /// Voice message when it equals the running status.
    ///
    /// The running-status cell is owned by the caller and threaded through
    /// one output stream: a Channel Voice message updates it to its status
    /// byte, a System Common message clears it, and a Realtime message
    /// leaves it untouched.
    pub fn write_with_running_status(&self, running_status: &mut Option<u8>, out: &mut Vec<u8>)
        requires
            self@.wf(),
        ensures
            final(out)@ == old(out)@ + running_status_bytes(self@, *old(running_status)),
            *final(running_status) == running_status_after(self@, *old(running_status)),
    {
        match self {
            LiveEvent::Midi { channel, message } => {
                let status: u8 = message.status_nibble() * 16 + *channel;
                let emit: bool = match running_status {
                    Some(rs) => *rs != status,
                    None => true,
                };
                if emit {
                    *running_status = Some(status);
                    out.push(status);
                }
                message.write(out);
                proof {
                    assert(final(out)@ =~= old(out)@ + running_status_bytes(
                        self@,
                        *old(running_status),
                    ));
                }
            }
            LiveEvent::Common(common) => {
                *running_status = None;
                common.write(out);
            }
            LiveEvent::Realtime(realtime) => {
                out.push(realtime.encode());
                proof {
                    assert(final(out)@ =~= old(out)@ + running_status_bytes(
                        self@,
                        *old(running_status),
                    ));
                }
            }
        }
    }
}

/// An event's bytes under no running status are exactly its standalone
/// bytes: the status byte is never omitted.
pub proof fn lemma_running_status_none(e: LiveEventView)
    ensures
        running_status_bytes(e, None) == e.bytes(),
{
}

/// Round trip: parsing the bytes written for a well-formed event yields
/// that event back.
pub proof fn lemma_live_event_round_trip(e: LiveEventView)
    requires
        e.wf(),
    ensures
        spec_live_parse(e.bytes()) == Ok::<LiveEventView, MidiError>(e),
{
    let b = e.bytes();
    match e {
        LiveEventView::Midi { channel, message } => {
            lemma_message_round_trip(message, channel);
            let st = midi_status(channel, message);
            assert(b[0] == st);
            let rest = b.subrange(1, b.len() as int);
            assert(rest =~= message.data_bytes());
            assert(sysex_strip(st, rest) == rest);
            lemma_mask7(rest);
        }
        LiveEventView::Common(c) => {
            lemma_common_round_trip(c);
            assert(b == c.bytes());
            let rest = b.subrange(1, b.len() as int);
            assert(rest =~= c.bytes().subrange(1, c.bytes().len() as int));
            lemma_mask7(sysex_strip(b[0], rest));
        }
        LiveEventView::Realtime(r) => {
            lemma_realtime_round_trip(r);
            let rest = b.subrange(1, b.len() as int);
            assert(rest =~= Seq::<u8>::empty());
            assert(sysex_strip(b[0], rest) == rest);
            lemma_mask7(rest);
        }
    }
}

/// Running-status round trip: of two consecutive Channel Voice events that
/// share a status byte, the first emits the status byte and sets the
/// running status, the second emits its data bytes alone, and decoding each
/// against that status byte yields the two events back.
pub proof fn lemma_running_status_round_trip(e1: LiveEventView, e2: LiveEventView)
    requires
        e1.wf(),
        e2.wf(),
        e1 matches LiveEventView::Midi { channel: c1, message: m1 } && e2 matches
            LiveEventView::Midi { channel: c2, message: m2 } && midi_status(c1, m1)
            == midi_status(c2, m2),
    ensures
        running_status_bytes(e1, None) == e1.bytes(),
        running_status_after(e1, None) == Some(e1.bytes()[0]),
        running_status_bytes(e2, running_status_after(e1, None)) == (match e2 {
            LiveEventView::Midi { message, .. } => message.data_bytes(),
            _ => Seq::empty(),
        }),
        spec_live_parse(e1.bytes()) == Ok::<LiveEventView, MidiError>(e1),
        spec_live_read(
            e1.bytes()[0],
            running_status_bytes(e2, running_status_after(e1, None)),
        ) == Ok::<LiveEventView, MidiError>(e2),
{
    let (c1, m1) = match e1 {
        LiveEventView::Midi { channel, message } => (channel, message),
        _ => arbitrary(),
    };
    let (c2, m2) = match e2 {
        LiveEventView::Midi { channel, message } => (channel, message),
        _ => arbitrary(),
    };
    lemma_message_round_trip(m1, c1);
    lemma_message_round_trip(m2, c2);
    lemma_live_event_round_trip(e1);
    assert(e1.bytes()[0] == midi_status(c1, m1));
    assert(running_status_bytes(e2, running_status_after(e1, None)) == m2.data_bytes());
}

/// Running-status reset: after a System Common message, the next Channel
/// Voice event re-emits its status byte even when it equals the status in
/// effect before the System Common message.
pub proof fn lemma_running_status_reset(e1: LiveEventView, mid: LiveEventView, e2: LiveEventView)
    requires
        e1.wf(),
        mid.wf(),
        e2.wf(),
        e1 matches LiveEventView::Midi { channel: c1, message: m1 } && e2 matches
            LiveEventView::Midi { channel: c2, message: m2 } && midi_status(c1, m1)
            == midi_status(c2, m2),
        mid matches LiveEventView::Common(_),
    ensures
        running_status_after(mid, running_status_after(e1, None)) == None::<u8>,
        running_status_bytes(e2, running_status_after(mid, running_status_after(e1, None)))
            == e2.bytes(),
{
}

} // verus!

