use usb_midi::MidiError;
use usb_midi::live::{LiveEvent, MtcQuarterFrameMessage, SystemCommon, SystemRealtime};
use usb_midi::message::MidiMessage;
use usb_midi::packet::{CIN, UsbMidiPacket};

#[test]
fn cin_table_total() {
    let expected: [usize; 16] = [0, 0, 2, 3, 3, 1, 2, 3, 3, 3, 3, 3, 2, 2, 3, 1];
    for b in 0u8..16 {
        let cin = CIN::from(b);
        assert_eq!(cin.as_int(), b);
        let n = UsbMidiPacket::packet_length(cin);
        assert!(n <= 3);
        assert_eq!(n, expected[b as usize]);
    }
}

#[test]
fn frame_note_off() {
    let r = UsbMidiPacket::read(&[0x08, 0x80, 0x30, 0x40]).unwrap().unwrap();
    assert_eq!(r.cable_number, 0);
    assert_eq!(r.code_index_number, CIN::NoteOff);
    assert_eq!(
        r.event,
        LiveEvent::Midi { channel: 0, message: MidiMessage::NoteOff { key: 0x30, vel: 0x40 } }
    );
}

#[test]
fn frame_without_event_is_none() {
    assert_eq!(UsbMidiPacket::read(&[0x00, 0xAA, 0xBB, 0xCC]), Ok(None));
    assert_eq!(UsbMidiPacket::read(&[0x01, 0xFF, 0xFF, 0xFF]), Ok(None));
    assert_eq!(UsbMidiPacket::read(&[0x51, 0x00, 0x00, 0x00]), Ok(None));
}

#[test]
fn frame_realtime() {
    let r = UsbMidiPacket::read(&[0x3F, 0xF8, 0x00, 0x00]).unwrap().unwrap();
    assert_eq!(r.cable_number, 3);
    assert_eq!(r.code_index_number, CIN::SingleByte);
    assert_eq!(r.event, LiveEvent::Realtime(SystemRealtime::TimingClock));
}

#[test]
fn frame_ignores_padding() {
    let a = UsbMidiPacket::read(&[0x2F, 0xF8, 0x00, 0x00]).unwrap().unwrap();
    let b = UsbMidiPacket::read(&[0x2F, 0xF8, 0x55, 0x66]).unwrap().unwrap();
    assert_eq!(a, b);
}

#[test]
fn frame_write_note_on() {
    let event = LiveEvent::Midi { channel: 2, message: MidiMessage::NoteOn { key: 0x40, vel: 0x45 } };
    let cin = UsbMidiPacket::cin_for(&event).unwrap();
    assert_eq!(cin, CIN::NoteOn);
    let packet = UsbMidiPacket::new(5, cin, event);
    let mut out: Vec<u8> = Vec::new();
    packet.write(&mut out);
    assert_eq!(out, vec![0x59, 0x92, 0x40, 0x45]);
}

#[test]
fn frame_write_pads_with_zeros() {
    let event = LiveEvent::Realtime(SystemRealtime::Start);
    let packet = UsbMidiPacket::new(0, CIN::SingleByte, event);
    let mut out: Vec<u8> = Vec::new();
    packet.write(&mut out);
    assert_eq!(out, vec![0x0F, 0xFA, 0x00, 0x00]);
}

#[test]
fn frame_round_trip_many() {
    let events = [
        LiveEvent::Midi { channel: 2, message: MidiMessage::NoteOn { key: 0x40, vel: 0x45 } },
        LiveEvent::Midi { channel: 0, message: MidiMessage::ProgramChange { program: 0x10 } },
        LiveEvent::Midi { channel: 8, message: MidiMessage::PitchBend { bend: 0x3FFF } },
        LiveEvent::Common(SystemCommon::TuneRequest),
        LiveEvent::Common(SystemCommon::SongPosition(257)),
        LiveEvent::Common(SystemCommon::SongSelect(0x12)),
        LiveEvent::Common(SystemCommon::MidiTimeCodeQuarterFrame(
            MtcQuarterFrameMessage::HoursLow,
            9,
        )),
        LiveEvent::Common(SystemCommon::SysEx(vec![])),
        LiveEvent::Common(SystemCommon::SysEx(vec![0x05])),
        LiveEvent::Common(SystemCommon::Undefined(0xF4, vec![0x11])),
        LiveEvent::Realtime(SystemRealtime::ActiveSensing),
    ];
    for cable in [0u8, 7, 15] {
        for event in &events {
            let cin = UsbMidiPacket::cin_for(event).unwrap();
            let packet = UsbMidiPacket::new(cable, cin, event.clone());
            let mut out: Vec<u8> = Vec::new();
            packet.write(&mut out);
            assert_eq!(out.len(), 4);
            let back = UsbMidiPacket::read(&out).unwrap().unwrap();
            assert_eq!(back, packet);
        }
    }
}

#[test]
fn frame_sysex_one_packet() {
    let event = LiveEvent::Common(SystemCommon::SysEx(vec![0x05]));
    let cin = UsbMidiPacket::cin_for(&event).unwrap();
    assert_eq!(cin, CIN::ThreeByteSysExEnd);
    let packet = UsbMidiPacket::new(0, cin, event.clone());
    let mut out: Vec<u8> = Vec::new();
    packet.write(&mut out);
    assert_eq!(out, vec![0x07, 0xF0, 0x05, 0xF7]);
    let back = UsbMidiPacket::read(&out).unwrap().unwrap();
    assert_eq!(back.event, event);
}

#[test]
fn frame_sysex_start_cin_decodes_short_run() {
    let r = UsbMidiPacket::read(&[0x04, 0xF0, 0x01, 0xF7]).unwrap().unwrap();
    assert_eq!(r.code_index_number, CIN::SysExStartOrContinue);
    assert_eq!(r.event, LiveEvent::Common(SystemCommon::SysEx(vec![0x01])));
}

#[test]
fn cin_for_rejects_long_sysex() {
    let event = LiveEvent::Common(SystemCommon::SysEx(vec![0x01, 0x02, 0x03]));
    assert_eq!(UsbMidiPacket::cin_for(&event), None);
}

#[test]
fn frame_channel_voice_bad_status() {
    assert_eq!(
        UsbMidiPacket::read(&[0x08, 0xF0, 0x00, 0x00]),
        Err(MidiError::InvalidStatus)
    );
    assert_eq!(
        UsbMidiPacket::read(&[0x09, 0x55, 0x00, 0x00]),
        Err(MidiError::InvalidStatus)
    );
}

#[test]
fn frame_channel_voice_truncated() {
    // CIN 0xC carries one data byte, but a note-on status needs two.
    assert_eq!(
        UsbMidiPacket::read(&[0x0C, 0x92, 0x40, 0x00]),
        Err(MidiError::InvalidData)
    );
}

#[test]
fn frame_common_cin_bad_status() {
    // A System Common CIN whose status byte is a data byte is refused.
    assert_eq!(
        UsbMidiPacket::read(&[0x04, 0x01, 0x02, 0x03]),
        Err(MidiError::InvalidStatus)
    );
}

#[test]
fn frame_common_two_byte() {
    let r = UsbMidiPacket::read(&[0x02, 0xF1, 0x35, 0x00]).unwrap().unwrap();
    assert_eq!(
        r.event,
        LiveEvent::Common(SystemCommon::MidiTimeCodeQuarterFrame(
            MtcQuarterFrameMessage::SecondsHigh,
            5
        ))
    );
}

#[test]
fn frame_masks_channel_voice_data() {
    let r = UsbMidiPacket::read(&[0x09, 0x92, 0xC0, 0xC5]).unwrap().unwrap();
    assert_eq!(
        r.event,
        LiveEvent::Midi { channel: 2, message: MidiMessage::NoteOn { key: 0x40, vel: 0x45 } }
    );
}
