//! The request-type byte of a control transfer, and the transfer built from it.

use vstd::prelude::*;

verus! {

/// Who defined a control request: bits 5 and 6 of the request-type byte.
#[derive(Clone, Copy, Debug, PartialEq, Eq, Structural)]
pub enum ControlType {
    Standard,
    Class,
    Vendor,
}

/// What a control request is addressed to: bits 0 and 1 of the request-type byte.
#[derive(Clone, Copy, Debug, PartialEq, Eq, Structural)]
pub enum Recipient {
    Device,
    Interface,
    Endpoint,
    Other,
}

/// The direction of a control transfer, seen from the host.
#[derive(Clone, Copy, Debug, PartialEq, Eq, Structural)]
pub enum Direction {
    In,
    Out,
}

/// One blocking control transfer, ready to be issued on the claimed interface.
#[derive(Clone, Copy, Debug, PartialEq, Eq, Structural)]
pub struct ControlRequest {
    pub direction: Direction,
    pub control_type: ControlType,
    pub recipient: Recipient,
    pub request: u8,
    pub value: u16,
    /// The wIndex field: the number of the interface the transfer goes to.
    pub index: u16,
    /// How long the transfer may block, in milliseconds.
    pub timeout_ms: u64,
}

/// The control type that a request-type byte encodes.
pub open spec fn control_type_of(request_type: u8) -> ControlType {
    let bits = (request_type >> 5u8) & 0b11u8;
    if bits == 0 {
        ControlType::Standard
    } else if bits == 1 {
        ControlType::Class
    } else {
        ControlType::Vendor
    }
}

/// The recipient that a request-type byte encodes.
pub open spec fn recipient_of(request_type: u8) -> Recipient {
    let bits = request_type & 0b11u8;
    if bits == 0 {
        Recipient::Device
    } else if bits == 1 {
        Recipient::Interface
    } else if bits == 2 {
        Recipient::Endpoint
    } else {
        Recipient::Other
    }
}

/// Splits a request-type byte into control type and recipient. Every byte has exactly
/// one such pair; the direction bit and the reserved bits play no part.
pub fn explode_request_type(request_type: u8) -> (r: (ControlType, Recipient))
    ensures
        r.0 == control_type_of(request_type),
        r.1 == recipient_of(request_type),
{
    let class_bits: u8 = (request_type >> 5u8) & 0b11u8;
    let control_type = if class_bits == 0 {
        ControlType::Standard
    } else if class_bits == 1 {
        ControlType::Class
    } else {
        ControlType::Vendor
    };
    let recipient_bits: u8 = request_type & 0b11u8;
    let recipient = if recipient_bits == 0 {
        Recipient::Device
    } else if recipient_bits == 1 {
        Recipient::Interface
    } else if recipient_bits == 2 {
        Recipient::Endpoint
    } else {
        Recipient::Other
    };
    (control_type, recipient)
}

/// The decoding in plain arithmetic: the control type is the byte divided by 32, taken
/// modulo 4, with 2 and 3 both read as vendor; the recipient is the byte modulo 4.
/// Bit 7 and bits 2 to 4 change neither.
pub proof fn request_type_decoding_is_positional(request_type: u8)
    ensures
        control_type_of(request_type) == (if (request_type / 32) % 4 == 0 {
            ControlType::Standard
        } else if (request_type / 32) % 4 == 1 {
            ControlType::Class
        } else {
            ControlType::Vendor
        }),
        recipient_of(request_type) == (if request_type % 4 == 0 {
            Recipient::Device
        } else if request_type % 4 == 1 {
            Recipient::Interface
        } else if request_type % 4 == 2 {
            Recipient::Endpoint
        } else {
            Recipient::Other
        }),
        control_type_of(request_type) == control_type_of(request_type & 0x60u8),
        recipient_of(request_type) == recipient_of(request_type & 0x03u8),
{
    assert((request_type >> 5u8) & 0b11u8 == (request_type / 32) % 4) by (bit_vector);
    assert(request_type & 0b11u8 == request_type % 4) by (bit_vector);
    assert(((request_type & 0x60u8) >> 5u8) & 0b11u8 == (request_type >> 5u8) & 0b11u8)
        by (bit_vector);
    assert((request_type & 0x03u8) & 0b11u8 == request_type & 0b11u8) by (bit_vector);
}

} // verus!
