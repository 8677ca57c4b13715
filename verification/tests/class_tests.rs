use usb_midi::class::{
    ControlRequestInfo, ControlTransferAction, DescriptorPart, DeviceEndpoint, DeviceInterface,
    CS_ENDPOINT, CS_INTERFACE, MIDI_PROTOCOL_NONE, REQ_GET_LINE_CODING,
    REQ_SEND_ENCAPSULATED_COMMAND, REQ_SET_CONTROL_LINE_STATE, REQ_SET_LINE_CODING,
    USB_CLASS_AUDIO, USB_SUBCLASS_MIDISTREAMING, control_in_action, control_out_action,
    get_configuration_descriptors, line_coding_response,
};

fn class_request(request: u8, index: u16, length: u16) -> ControlRequestInfo {
    ControlRequestInfo {
        class_request: true,
        interface_recipient: true,
        index,
        request,
        length,
    }
}

#[test]
fn descriptor_set_layout() {
    let parts = get_configuration_descriptors();
    assert_eq!(parts.len(), 11);
    assert_eq!(
        parts[0],
        DescriptorPart::Interface {
            which: DeviceInterface::AudioControl,
            class: USB_CLASS_AUDIO,
            subclass: 0x01,
            protocol: MIDI_PROTOCOL_NONE,
        }
    );
    assert_eq!(
        parts[1],
        DescriptorPart::ClassSpecific {
            descriptor_type: CS_INTERFACE,
            payload: vec![0x01, 0x00, 0x01, 0x09, 0x00, 0x01, 0x01],
        }
    );
    assert_eq!(
        parts[2],
        DescriptorPart::Interface {
            which: DeviceInterface::MidiStreaming,
            class: USB_CLASS_AUDIO,
            subclass: USB_SUBCLASS_MIDISTREAMING,
            protocol: MIDI_PROTOCOL_NONE,
        }
    );
    assert_eq!(
        parts[3],
        DescriptorPart::ClassSpecific {
            descriptor_type: CS_INTERFACE,
            payload: vec![0x02, 0x01, 0x01, 0x00],
        }
    );
    assert_eq!(
        parts[4],
        DescriptorPart::ClassSpecific {
            descriptor_type: CS_INTERFACE,
            payload: vec![0x02, 0x02, 0x02, 0x00],
        }
    );
    assert_eq!(
        parts[5],
        DescriptorPart::ClassSpecific {
            descriptor_type: CS_INTERFACE,
            payload: vec![0x03, 0x01, 0x03, 0x01, 0x02, 0x01, 0x00],
        }
    );
    assert_eq!(
        parts[6],
        DescriptorPart::ClassSpecific {
            descriptor_type: CS_INTERFACE,
            payload: vec![0x03, 0x02, 0x04, 0x01, 0x02, 0x01, 0x00],
        }
    );
    assert_eq!(parts[7], DescriptorPart::Endpoint { which: DeviceEndpoint::BulkOut });
    assert_eq!(
        parts[8],
        DescriptorPart::ClassSpecific {
            descriptor_type: CS_ENDPOINT,
            payload: vec![0x01, 0x01, 0x01],
        }
    );
    assert_eq!(parts[9], DescriptorPart::Endpoint { which: DeviceEndpoint::BulkIn });
    assert_eq!(
        parts[10],
        DescriptorPart::ClassSpecific {
            descriptor_type: CS_ENDPOINT,
            payload: vec![0x01, 0x01, 0x03],
        }
    );
}

#[test]
fn control_in_accepts_line_coding_probe() {
    let req = class_request(REQ_GET_LINE_CODING, 0, 7);
    assert_eq!(control_in_action(&req, 0), ControlTransferAction::Accept);
}

#[test]
fn control_in_rejects_wrong_length() {
    let req = class_request(REQ_GET_LINE_CODING, 0, 8);
    assert_eq!(control_in_action(&req, 0), ControlTransferAction::Reject);
}

#[test]
fn control_in_ignores_other_interface() {
    let req = class_request(REQ_GET_LINE_CODING, 1, 7);
    assert_eq!(control_in_action(&req, 0), ControlTransferAction::Ignore);
}

#[test]
fn control_in_ignores_standard_request() {
    let mut req = class_request(REQ_GET_LINE_CODING, 0, 7);
    req.class_request = false;
    assert_eq!(control_in_action(&req, 0), ControlTransferAction::Ignore);
    let mut req = class_request(REQ_GET_LINE_CODING, 0, 7);
    req.interface_recipient = false;
    assert_eq!(control_in_action(&req, 0), ControlTransferAction::Ignore);
}

#[test]
fn control_in_rejects_unknown_request() {
    let req = class_request(REQ_SEND_ENCAPSULATED_COMMAND, 0, 7);
    assert_eq!(control_in_action(&req, 0), ControlTransferAction::Reject);
}

#[test]
fn control_out_accepts_stubs() {
    let req = class_request(REQ_SEND_ENCAPSULATED_COMMAND, 0, 0);
    assert_eq!(control_out_action(&req, 0, 0), ControlTransferAction::Accept);
    let req = class_request(REQ_SET_LINE_CODING, 0, 7);
    assert_eq!(control_out_action(&req, 0, 7), ControlTransferAction::Accept);
    let req = class_request(REQ_SET_CONTROL_LINE_STATE, 0, 0);
    assert_eq!(control_out_action(&req, 0, 0), ControlTransferAction::Accept);
}

#[test]
fn control_out_rejects_short_line_coding() {
    let req = class_request(REQ_SET_LINE_CODING, 0, 7);
    assert_eq!(control_out_action(&req, 0, 6), ControlTransferAction::Reject);
}

#[test]
fn control_out_rejects_unknown_request() {
    let req = class_request(0x99, 0, 0);
    assert_eq!(control_out_action(&req, 0, 0), ControlTransferAction::Reject);
}

#[test]
fn control_out_ignores_other_interface() {
    let req = class_request(REQ_SET_CONTROL_LINE_STATE, 2, 0);
    assert_eq!(control_out_action(&req, 0, 0), ControlTransferAction::Ignore);
}

#[test]
fn line_coding_stub_is_seven_zero_bytes() {
    assert_eq!(line_coding_response(), vec![0u8; 7]);
}
