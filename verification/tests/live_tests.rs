use usb_midi::MidiError;
use usb_midi::live::{LiveEvent, MtcQuarterFrameMessage, SystemCommon, SystemRealtime};
use usb_midi::message::MidiMessage;

#[test]
fn realtime_decode_assigned() {
    assert_eq!(SystemRealtime::new(0xF8), SystemRealtime::TimingClock);
    assert_eq!(SystemRealtime::TimingClock.encode(), 0xF8);
    assert_eq!(SystemRealtime::new(0xF9), SystemRealtime::Undefined(0xF9));
}

#[test]
fn realtime_all_codes_round_trip() {
    let cases = [
        (0xF8u8, SystemRealtime::TimingClock),
        (0xFA, SystemRealtime::Start),
        (0xFB, SystemRealtime::Continue),
        (0xFC, SystemRealtime::Stop),
        (0xFE, SystemRealtime::ActiveSensing),
        (0xFF, SystemRealtime::Reset),
        (0xF9, SystemRealtime::Undefined(0xF9)),
        (0xFD, SystemRealtime::Undefined(0xFD)),
    ];
    for (byte, value) in cases {
        assert_eq!(SystemRealtime::new(byte), value);
        assert_eq!(value.encode(), byte);
    }
}

#[test]
fn song_position_decode() {
    let ev = SystemCommon::read(0xF2, &[0x01, 0x02]);
    assert_eq!(ev, Ok(SystemCommon::SongPosition(257)));
}

#[test]
fn song_position_write() {
    let mut out: Vec<u8> = Vec::new();
    LiveEvent::Common(SystemCommon::SongPosition(257)).write(&mut out);
    assert_eq!(out, vec![0xF2, 0x01, 0x02]);
}

#[test]
fn sysex_write_bytes() {
    let mut out: Vec<u8> = Vec::new();
    LiveEvent::Common(SystemCommon::SysEx(vec![0x01, 0x02, 0x03])).write(&mut out);
    assert_eq!(out, vec![0xF0, 0x01, 0x02, 0x03, 0xF7]);
}

#[test]
fn sysex_decode_data() {
    let ev = SystemCommon::read(0xF0, &[0x01, 0x02, 0x03]);
    assert_eq!(ev, Ok(SystemCommon::SysEx(vec![0x01, 0x02, 0x03])));
}

#[test]
fn sysex_parse_round_trip() {
    let ev = LiveEvent::Common(SystemCommon::SysEx(vec![0x01, 0x02, 0x03]));
    let mut out: Vec<u8> = Vec::new();
    ev.write(&mut out);
    assert_eq!(LiveEvent::parse(&out), Ok(ev));
}

#[test]
fn parse_round_trip_many() {
    let events = [
        LiveEvent::Midi {
            channel: 2,
            message: MidiMessage::NoteOn { key: 0x40, vel: 0x45 },
        },
        LiveEvent::Midi {
            channel: 0,
            message: MidiMessage::NoteOff { key: 0x30, vel: 0x00 },
        },
        LiveEvent::Midi { channel: 15, message: MidiMessage::ProgramChange { program: 0x07 } },
        LiveEvent::Midi { channel: 9, message: MidiMessage::ChannelAftertouch { vel: 0x33 } },
        LiveEvent::Midi { channel: 4, message: MidiMessage::Aftertouch { key: 0x10, vel: 0x20 } },
        LiveEvent::Midi {
            channel: 7,
            message: MidiMessage::Controller { controller: 0x07, value: 0x64 },
        },
        LiveEvent::Midi { channel: 1, message: MidiMessage::PitchBend { bend: 0x1234 } },
        LiveEvent::Common(SystemCommon::SongSelect(0x12)),
        LiveEvent::Common(SystemCommon::TuneRequest),
        LiveEvent::Common(SystemCommon::Undefined(0xF5, vec![])),
        LiveEvent::Realtime(SystemRealtime::Stop),
        LiveEvent::Realtime(SystemRealtime::Undefined(0xFD)),
    ];
    for ev in events {
        let mut out: Vec<u8> = Vec::new();
        ev.write(&mut out);
        assert_eq!(LiveEvent::parse(&out), Ok(ev.clone()));
    }
}

#[test]
fn parse_empty_is_invalid_data() {
    assert_eq!(LiveEvent::parse(&[]), Err(MidiError::InvalidData));
}

#[test]
fn parse_truncated_is_invalid_data() {
    assert_eq!(LiveEvent::parse(&[0x90, 0x40]), Err(MidiError::InvalidData));
}

#[test]
fn parse_data_byte_status_is_invalid_status() {
    assert_eq!(LiveEvent::parse(&[0x55]), Err(MidiError::InvalidStatus));
}

#[test]
fn parse_sysex_end_status_is_invalid_status() {
    assert_eq!(LiveEvent::parse(&[0xF7]), Err(MidiError::InvalidStatus));
    assert_eq!(SystemCommon::read(0xF7, &[]), Err(MidiError::InvalidStatus));
}

#[test]
fn parse_masks_data_bytes() {
    let ev = LiveEvent::parse(&[0x90, 0xC0, 0xC5]);
    assert_eq!(
        ev,
        Ok(LiveEvent::Midi { channel: 0, message: MidiMessage::NoteOn { key: 0x40, vel: 0x45 } })
    );
}

#[test]
fn parse_realtime_status() {
    assert_eq!(
        LiveEvent::parse(&[0xF8]),
        Ok(LiveEvent::Realtime(SystemRealtime::TimingClock))
    );
}

#[test]
fn mtc_codes_round_trip() {
    let fields = [
        MtcQuarterFrameMessage::FramesLow,
        MtcQuarterFrameMessage::FramesHigh,
        MtcQuarterFrameMessage::SecondsLow,
        MtcQuarterFrameMessage::SecondsHigh,
        MtcQuarterFrameMessage::MinutesLow,
        MtcQuarterFrameMessage::MinutesHigh,
        MtcQuarterFrameMessage::HoursLow,
        MtcQuarterFrameMessage::HoursHigh,
    ];
    for (i, field) in fields.iter().enumerate() {
        assert_eq!(field.as_code(), i as u8);
        assert_eq!(MtcQuarterFrameMessage::from_code(i as u8), Some(*field));
    }
    assert_eq!(MtcQuarterFrameMessage::from_code(8), None);
}

#[test]
fn mtc_decode_and_write() {
    let ev = SystemCommon::read(0xF1, &[0x35]);
    assert_eq!(
        ev,
        Ok(SystemCommon::MidiTimeCodeQuarterFrame(MtcQuarterFrameMessage::SecondsHigh, 5))
    );
    let mut out: Vec<u8> = Vec::new();
    LiveEvent::Common(SystemCommon::MidiTimeCodeQuarterFrame(
        MtcQuarterFrameMessage::SecondsHigh,
        5,
    ))
    .write(&mut out);
    assert_eq!(out, vec![0xF1, 0x35]);
}

#[test]
fn common_undefined_insufficient_data() {
    let ev = SystemCommon::read(0xF2, &[0x01]);
    assert_eq!(ev, Ok(SystemCommon::Undefined(0xF2, vec![0x01])));
}

#[test]
fn common_undefined_round_trip() {
    let ev = LiveEvent::Common(SystemCommon::Undefined(0xF4, vec![0x11, 0x22]));
    let mut out: Vec<u8> = Vec::new();
    ev.write(&mut out);
    assert_eq!(out, vec![0xF4, 0x11, 0x22]);
    assert_eq!(LiveEvent::parse(&out), Ok(ev));
}

#[test]
fn running_status_pair() {
    let e1 = LiveEvent::Midi { channel: 2, message: MidiMessage::NoteOn { key: 0x40, vel: 0x45 } };
    let e2 = LiveEvent::Midi { channel: 2, message: MidiMessage::NoteOn { key: 0x41, vel: 0x50 } };
    let mut rs: Option<u8> = None;
    let mut out: Vec<u8> = Vec::new();
    e1.write_with_running_status(&mut rs, &mut out);
    e2.write_with_running_status(&mut rs, &mut out);
    assert_eq!(out, vec![0x92, 0x40, 0x45, 0x41, 0x50]);
    assert_eq!(rs, Some(0x92));
    // Decode the two-message stream while tracking the running status.
    assert_eq!(LiveEvent::parse(&out[0..3]), Ok(e1));
    assert_eq!(LiveEvent::read(0x92, &out[3..5]), Ok(e2));
}

#[test]
fn running_status_reset_by_common() {
    let e1 = LiveEvent::Midi { channel: 2, message: MidiMessage::NoteOn { key: 0x40, vel: 0x45 } };
    let mid = LiveEvent::Common(SystemCommon::TuneRequest);
    let e2 = LiveEvent::Midi { channel: 2, message: MidiMessage::NoteOn { key: 0x41, vel: 0x50 } };
    let mut rs: Option<u8> = None;
    let mut out: Vec<u8> = Vec::new();
    e1.write_with_running_status(&mut rs, &mut out);
    mid.write_with_running_status(&mut rs, &mut out);
    assert_eq!(rs, None);
    e2.write_with_running_status(&mut rs, &mut out);
    // The second Midi event re-emits its status byte after the Common one.
    assert_eq!(out, vec![0x92, 0x40, 0x45, 0xF6, 0x92, 0x41, 0x50]);
}

#[test]
fn running_status_untouched_by_realtime() {
    let e1 = LiveEvent::Midi { channel: 2, message: MidiMessage::NoteOn { key: 0x40, vel: 0x45 } };
    let clock = LiveEvent::Realtime(SystemRealtime::TimingClock);
    let e2 = LiveEvent::Midi { channel: 2, message: MidiMessage::NoteOn { key: 0x41, vel: 0x50 } };
    let mut rs: Option<u8> = None;
    let mut out: Vec<u8> = Vec::new();
    e1.write_with_running_status(&mut rs, &mut out);
    clock.write_with_running_status(&mut rs, &mut out);
    assert_eq!(rs, Some(0x92));
    e2.write_with_running_status(&mut rs, &mut out);
    assert_eq!(out, vec![0x92, 0x40, 0x45, 0xF8, 0x41, 0x50]);
}

#[test]
fn well_formedness_checks() {
    let ok = LiveEvent::Midi { channel: 2, message: MidiMessage::NoteOn { key: 0x40, vel: 0x45 } };
    assert!(ok.is_well_formed());
    let bad_channel =
        LiveEvent::Midi { channel: 16, message: MidiMessage::NoteOn { key: 0x40, vel: 0x45 } };
    assert!(!bad_channel.is_well_formed());
    let bad_key =
        LiveEvent::Midi { channel: 0, message: MidiMessage::NoteOn { key: 0x80, vel: 0x45 } };
    assert!(!bad_key.is_well_formed());
    let bad_bend = MidiMessage::PitchBend { bend: 0x4000 };
    assert!(!bad_bend.is_well_formed());
    let bad_sysex = LiveEvent::Common(SystemCommon::SysEx(vec![0x01, 0x80]));
    assert!(!bad_sysex.is_well_formed());
    let good_sysex = LiveEvent::Common(SystemCommon::SysEx(vec![0x01, 0x7F]));
    assert!(good_sysex.is_well_formed());
    assert!(!SystemRealtime::Undefined(0xF8).is_well_formed());
    assert!(SystemRealtime::Undefined(0xFD).is_well_formed());
}

#[test]
fn pitch_bend_wire_format() {
    let ev = LiveEvent::Midi { channel: 1, message: MidiMessage::PitchBend { bend: 0x2000 } };
    let mut out: Vec<u8> = Vec::new();
    ev.write(&mut out);
    assert_eq!(out, vec![0xE1, 0x00, 0x40]);
    assert_eq!(LiveEvent::parse(&out), Ok(ev));
}
