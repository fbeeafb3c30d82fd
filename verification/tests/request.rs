use dfu_nusb::{explode_request_type, ControlType, Recipient};

#[test]
fn every_byte_decodes_by_position() {
    for b in 0u16..256 {
        let b = b as u8;
        let (control_type, recipient) = explode_request_type(b);
        let expected_type = match (b / 32) % 4 {
            0 => ControlType::Standard,
            1 => ControlType::Class,
            _ => ControlType::Vendor,
        };
        let expected_recipient = match b % 4 {
            0 => Recipient::Device,
            1 => Recipient::Interface,
            2 => Recipient::Endpoint,
            _ => Recipient::Other,
        };
        assert_eq!(control_type, expected_type);
        assert_eq!(recipient, expected_recipient);
        assert_eq!(explode_request_type(b), (control_type, recipient));
    }
}

#[test]
fn class_request_to_interface() {
    assert_eq!(explode_request_type(0x21), (ControlType::Class, Recipient::Interface));
    assert_eq!(explode_request_type(0xA1), (ControlType::Class, Recipient::Interface));
}

#[test]
fn standard_request_to_device_and_endpoint() {
    assert_eq!(explode_request_type(0x00), (ControlType::Standard, Recipient::Device));
    assert_eq!(explode_request_type(0x80), (ControlType::Standard, Recipient::Device));
    assert_eq!(explode_request_type(0x02), (ControlType::Standard, Recipient::Endpoint));
}

#[test]
fn vendor_covers_both_upper_patterns() {
    assert_eq!(explode_request_type(0x40), (ControlType::Vendor, Recipient::Device));
    assert_eq!(explode_request_type(0x60), (ControlType::Vendor, Recipient::Device));
    assert_eq!(explode_request_type(0x63), (ControlType::Vendor, Recipient::Other));
}

#[test]
fn reserved_bits_do_not_matter() {
    assert_eq!(explode_request_type(0x1C), (ControlType::Standard, Recipient::Device));
    assert_eq!(explode_request_type(0x3D), (ControlType::Class, Recipient::Interface));
}
