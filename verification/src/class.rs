//! The MIDI-Streaming class surface: the configuration descriptor parts
//! that advertise an Audio-class device with one MIDI-Streaming interface,
//! and the decisions for the small set of control requests a host issues
//! during enumeration.
//!
//! The device carries one Audio-Control interface and one MIDI-Streaming
//! interface with two embedded MIDI-IN and two MIDI-OUT jacks, one pair
//! routed through the bulk endpoints. The control surface answers
//! serial-class probe requests with fixed stub responses for host-driver
//! compatibility; they have no effect on MIDI data flow.

use vstd::prelude::*;

verus! {

/// `device_class` to advertise in the device descriptor.
pub const USB_CLASS_AUDIO: u8 = 0x01;

/// The MIDI-Streaming subclass of the Audio class.
pub const USB_SUBCLASS_MIDISTREAMING: u8 = 0x03;

/// No class-specific protocol.
pub const MIDI_PROTOCOL_NONE: u8 = 0x00;

/// Class-specific interface descriptor type.
pub const CS_INTERFACE: u8 = 0x24;

/// Class-specific endpoint descriptor type.
pub const CS_ENDPOINT: u8 = 0x25;

/// Serial-class control request: send an encapsulated command.
pub const REQ_SEND_ENCAPSULATED_COMMAND: u8 = 0x00;

/// Serial-class control request: set line coding.
pub const REQ_SET_LINE_CODING: u8 = 0x20;

/// Serial-class control request: get line coding.
pub const REQ_GET_LINE_CODING: u8 = 0x21;

/// Serial-class control request: set control line state.
pub const REQ_SET_CONTROL_LINE_STATE: u8 = 0x22;

/// One of the device's two interfaces.
#[derive(Copy, Clone, PartialEq, Eq, Structural, Debug)]
pub enum DeviceInterface {
    /// The Audio-Control interface, first in the configuration.
    AudioControl,
    /// The MIDI-Streaming interface that owns the jacks and endpoints.
    MidiStreaming,
}

/// One of the device's two bulk endpoints.
#[derive(Copy, Clone, PartialEq, Eq, Structural, Debug)]
pub enum DeviceEndpoint {
    /// The bulk OUT endpoint the host writes packets to.
    BulkOut,
    /// The bulk IN endpoint the host reads packets from.
    BulkIn,
}

/// One part of the configuration descriptor set, in writing order: a
/// standard interface descriptor, a class-specific descriptor with its raw
/// payload, or a standard endpoint descriptor.
#[derive(Clone, PartialEq, Eq, Debug)]
pub enum DescriptorPart {
    Interface { which: DeviceInterface, class: u8, subclass: u8, protocol: u8 },
    ClassSpecific { descriptor_type: u8, payload: Vec<u8> },
    Endpoint { which: DeviceEndpoint },
}

/// The mathematical model of a [`DescriptorPart`] value.
pub enum DescriptorPartView {
    Interface { which: DeviceInterface, class: u8, subclass: u8, protocol: u8 },
    ClassSpecific { descriptor_type: u8, payload: Seq<u8> },
    Endpoint { which: DeviceEndpoint },
}

impl View for DescriptorPart {
    type V = DescriptorPartView;

    open spec fn view(&self) -> DescriptorPartView {
        match self {
            DescriptorPart::Interface { which, class, subclass, protocol } => {
                DescriptorPartView::Interface {
                    which: *which,
                    class: *class,
                    subclass: *subclass,
                    protocol: *protocol,
                }
            }
            DescriptorPart::ClassSpecific { descriptor_type, payload } => {
                DescriptorPartView::ClassSpecific {
                    descriptor_type: *descriptor_type,
                    payload: payload@,
                }
            }
            DescriptorPart::Endpoint { which } => DescriptorPartView::Endpoint { which: *which },
        }
    }
}

/// The full configuration descriptor set, in writing order: the
/// Audio-Control interface and its class-specific header; the
/// MIDI-Streaming interface with two embedded MIDI-IN jacks, two MIDI-OUT
/// jacks fed from the second IN jack, and the two bulk endpoints, each
/// followed by the class-specific endpoint descriptor naming its embedded
/// jack.
pub open spec fn spec_configuration_descriptors() -> Seq<DescriptorPartView> {
    seq![
        DescriptorPartView::Interface {
            which: DeviceInterface::AudioControl,
            class: USB_CLASS_AUDIO,
            subclass: 0x01,
            protocol: MIDI_PROTOCOL_NONE,
        },
        DescriptorPartView::ClassSpecific {
            descriptor_type: CS_INTERFACE,
            payload: seq![0x01u8, 0x00, 0x01, 0x09, 0x00, 0x01, 0x01],
        },
        DescriptorPartView::Interface {
            which: DeviceInterface::MidiStreaming,
            class: USB_CLASS_AUDIO,
            subclass: USB_SUBCLASS_MIDISTREAMING,
            protocol: MIDI_PROTOCOL_NONE,
        },
        DescriptorPartView::ClassSpecific {
            descriptor_type: CS_INTERFACE,
            payload: seq![0x02u8, 0x01, 0x01, 0x00],
        },
        DescriptorPartView::ClassSpecific {
            descriptor_type: CS_INTERFACE,
            payload: seq![0x02u8, 0x02, 0x02, 0x00],
        },
        DescriptorPartView::ClassSpecific {
            descriptor_type: CS_INTERFACE,
            payload: seq![0x03u8, 0x01, 0x03, 0x01, 0x02, 0x01, 0x00],
        },
        DescriptorPartView::ClassSpecific {
            descriptor_type: CS_INTERFACE,
            payload: seq![0x03u8, 0x02, 0x04, 0x01, 0x02, 0x01, 0x00],
        },
        DescriptorPartView::Endpoint { which: DeviceEndpoint::BulkOut },
        DescriptorPartView::ClassSpecific {
            descriptor_type: CS_ENDPOINT,
            payload: seq![0x01u8, 0x01, 0x01],
        },
        DescriptorPartView::Endpoint { which: DeviceEndpoint::BulkIn },
        DescriptorPartView::ClassSpecific {
            descriptor_type: CS_ENDPOINT,
            payload: seq![0x01u8, 0x01, 0x03],
        },
    ]
}

/// Build the configuration descriptor set a device implementation writes
/// at enumeration time.
pub fn get_configuration_descriptors() -> (r: Vec<DescriptorPart>)
    ensures
        r@.map_values(|p: DescriptorPart| p@) == spec_configuration_descriptors(),
{
    let mut parts: Vec<DescriptorPart> = Vec::new();
    parts.push(DescriptorPart::Interface {
        which: DeviceInterface::AudioControl,
        class: USB_CLASS_AUDIO,
        subclass: 0x01,
        protocol: MIDI_PROTOCOL_NONE,
    });
    let mut ac_header: Vec<u8> = Vec::new();
    ac_header.push(0x01);
    ac_header.push(0x00);
    ac_header.push(0x01);
    ac_header.push(0x09);
    ac_header.push(0x00);
    ac_header.push(0x01);
    ac_header.push(0x01);
    proof {
        assert(ac_header@ =~= seq![0x01u8, 0x00, 0x01, 0x09, 0x00, 0x01, 0x01]);
    }
    parts.push(DescriptorPart::ClassSpecific {
        descriptor_type: CS_INTERFACE,
        payload: ac_header,
    });
    parts.push(DescriptorPart::Interface {
        which: DeviceInterface::MidiStreaming,
        class: USB_CLASS_AUDIO,
        subclass: USB_SUBCLASS_MIDISTREAMING,
        protocol: MIDI_PROTOCOL_NONE,
    });
    let mut in_jack_embedded: Vec<u8> = Vec::new();
    in_jack_embedded.push(0x02);
    in_jack_embedded.push(0x01);
    in_jack_embedded.push(0x01);
    in_jack_embedded.push(0x00);
    proof {
        assert(in_jack_embedded@ =~= seq![0x02u8, 0x01, 0x01, 0x00]);
    }
    parts.push(DescriptorPart::ClassSpecific {
        descriptor_type: CS_INTERFACE,
        payload: in_jack_embedded,
    });
    let mut in_jack_external: Vec<u8> = Vec::new();
    in_jack_external.push(0x02);
    in_jack_external.push(0x02);
    in_jack_external.push(0x02);
    in_jack_external.push(0x00);
    proof {
        assert(in_jack_external@ =~= seq![0x02u8, 0x02, 0x02, 0x00]);
    }
    parts.push(DescriptorPart::ClassSpecific {
        descriptor_type: CS_INTERFACE,
        payload: in_jack_external,
    });
    let mut out_jack_embedded: Vec<u8> = Vec::new();
    out_jack_embedded.push(0x03);
    out_jack_embedded.push(0x01);
    out_jack_embedded.push(0x03);
    out_jack_embedded.push(0x01);
    out_jack_embedded.push(0x02);
    out_jack_embedded.push(0x01);
    out_jack_embedded.push(0x00);
    proof {
        assert(out_jack_embedded@ =~= seq![0x03u8, 0x01, 0x03, 0x01, 0x02, 0x01, 0x00]);
    }
    parts.push(DescriptorPart::ClassSpecific {
        descriptor_type: CS_INTERFACE,
        payload: out_jack_embedded,
    });
    let mut out_jack_external: Vec<u8> = Vec::new();
    out_jack_external.push(0x03);
    out_jack_external.push(0x02);
    out_jack_external.push(0x04);
    out_jack_external.push(0x01);
    out_jack_external.push(0x02);
    out_jack_external.push(0x01);
    out_jack_external.push(0x00);
    proof {
        assert(out_jack_external@ =~= seq![0x03u8, 0x02, 0x04, 0x01, 0x02, 0x01, 0x00]);
    }
    parts.push(DescriptorPart::ClassSpecific {
        descriptor_type: CS_INTERFACE,
        payload: out_jack_external,
    });
    parts.push(DescriptorPart::Endpoint { which: DeviceEndpoint::BulkOut });
    let mut out_ep: Vec<u8> = Vec::new();
    out_ep.push(0x01);
    out_ep.push(0x01);
    out_ep.push(0x01);
    proof {
        assert(out_ep@ =~= seq![0x01u8, 0x01, 0x01]);
    }
    parts.push(DescriptorPart::ClassSpecific { descriptor_type: CS_ENDPOINT, payload: out_ep });
    parts.push(DescriptorPart::Endpoint { which: DeviceEndpoint::BulkIn });
    let mut in_ep: Vec<u8> = Vec::new();
    in_ep.push(0x01);
    in_ep.push(0x01);
    in_ep.push(0x03);
    proof {
        assert(in_ep@ =~= seq![0x01u8, 0x01, 0x03]);
    }
    parts.push(DescriptorPart::ClassSpecific { descriptor_type: CS_ENDPOINT, payload: in_ep });
    proof {
        assert(parts@.map_values(|p: DescriptorPart| p@) =~= spec_configuration_descriptors());
    }
    parts
}

/// What to do with a control transfer.
#[derive(Copy, Clone, PartialEq, Eq, Structural, Debug)]
pub enum ControlTransferAction {
    /// Accept the transfer (for an IN transfer, with the fixed stub
    /// response).
    Accept,
    /// Reject the transfer.
    Reject,
    /// Leave the transfer alone: it is not addressed to this class's
    /// control interface.
    Ignore,
}

/// The fields of a control request that the decisions read.
#[derive(Copy, Clone, PartialEq, Eq, Structural, Debug)]
pub struct ControlRequestInfo {
    /// The request type is Class (not Standard or Vendor).
    pub class_request: bool,
    /// The recipient is an interface.
    pub interface_recipient: bool,
    /// The request's target index (the interface number for interface
    /// recipients).
    pub index: u16,
    /// The request code.
    pub request: u8,
    /// The length field of the setup packet.
    pub length: u16,
}

/// The decision for an IN control transfer: requests not addressed to the
/// control interface are left alone; a get-line-coding probe of the right
/// length is accepted (answered with the stub response); everything else
/// is rejected.
pub open spec fn spec_control_in_action(req: ControlRequestInfo, comm_if: u16)
    -> ControlTransferAction {
    if !(req.class_request && req.interface_recipient && req.index == comm_if) {
        ControlTransferAction::Ignore
    } else if req.request == REQ_GET_LINE_CODING && req.length == 7 {
        ControlTransferAction::Accept
    } else {
        ControlTransferAction::Reject
    }
}

/// The decision for an OUT control transfer: requests not addressed to the
/// control interface are left alone; the serial-class stubs (send
/// encapsulated command, set line coding with at least 7 data bytes, set
/// control line state) are accepted and discarded; everything else is
/// rejected.
pub open spec fn spec_control_out_action(req: ControlRequestInfo, comm_if: u16, data_len: int)
    -> ControlTransferAction {
    if !(req.class_request && req.interface_recipient && req.index == comm_if) {
        ControlTransferAction::Ignore
    } else if req.request == REQ_SEND_ENCAPSULATED_COMMAND {
        ControlTransferAction::Accept
    } else if req.request == REQ_SET_LINE_CODING && data_len >= 7 {
        ControlTransferAction::Accept
    } else if req.request == REQ_SET_CONTROL_LINE_STATE {
        ControlTransferAction::Accept
    } else {
        ControlTransferAction::Reject
    }
}

/// Decide an IN control transfer addressed to interface `comm_if`.
pub fn control_in_action(req: &ControlRequestInfo, comm_if: u16) -> (r: ControlTransferAction)
    ensures
        r == spec_control_in_action(*req, comm_if),
{
    if !(req.class_request && req.interface_recipient && req.index == comm_if) {
        ControlTransferAction::Ignore
    } else if req.request == REQ_GET_LINE_CODING && req.length == 7 {
        ControlTransferAction::Accept
    } else {
        ControlTransferAction::Reject
    }
}

/// Decide an OUT control transfer addressed to interface `comm_if`, with
/// `data_len` bytes of request data.
pub fn control_out_action(req: &ControlRequestInfo, comm_if: u16, data_len: usize)
    -> (r: ControlTransferAction)
    ensures
        r == spec_control_out_action(*req, comm_if, data_len as int),
{
    if !(req.class_request && req.interface_recipient && req.index == comm_if) {
        ControlTransferAction::Ignore
    } else if req.request == REQ_SEND_ENCAPSULATED_COMMAND {
        ControlTransferAction::Accept
    } else if req.request == REQ_SET_LINE_CODING && data_len >= 7 {
        ControlTransferAction::Accept
    } else if req.request == REQ_SET_CONTROL_LINE_STATE {
        ControlTransferAction::Accept
    } else {
        ControlTransferAction::Reject
    }
}

/// The fixed all-zero stub answered to an accepted get-line-coding probe.
pub fn line_coding_response() -> (r: Vec<u8>)
    ensures
        r@ == Seq::new(7, |i: int| 0u8),
{
    let mut out: Vec<u8> = Vec::new();
    let mut i: usize = 0;
    while i < 7
        invariant
            i <= 7,
            out@ == Seq::new(i as nat, |k: int| 0u8),
        decreases 7 - i,
    {
        out.push(0x00);
        i = i + 1;
        proof {
            assert(out@ =~= Seq::new(i as nat, |k: int| 0u8));
        }
    }
    out
}

} // verus!
