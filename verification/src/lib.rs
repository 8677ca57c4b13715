//! Codec for live MIDI messages and their USB-MIDI packet framing.
//!
//! The crate models three layers:
//! - the live-event codec ([`live`]): parsing and serializing single MIDI
//!   messages, including the running-status optimization for output streams;
//! - the USB-MIDI framing layer ([`packet`]): the fixed 4-byte packet format
//!   that multiplexes up to 16 virtual cables over one endpoint pair, keyed
//!   by a 4-bit Code Index Number;
//! - the MIDI-Streaming class surface ([`class`]): the configuration
//!   descriptor contents and the control-request decisions that a USB device
//!   implementation needs during enumeration.

use vstd::prelude::*;

pub mod class;
pub mod live;
pub mod message;
pub mod packet;

verus! {

/// Why a decode operation failed.
#[derive(Copy, Clone, PartialEq, Eq, Structural, Debug)]
pub enum MidiError {
    /// The input is empty or too short for the message shape its status byte
    /// indicates.
    InvalidData,
    /// The status byte is outside every range the entry point recognizes.
    InvalidStatus,
}

} // verus!
