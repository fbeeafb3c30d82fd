use dfu_nusb::device::{STRING_TIMEOUT_MS, TRANSFER_TIMEOUT_MS};
use dfu_nusb::protocol::{check_layout_in_range, check_protocol_input, trim_trailing_nul};
use dfu_nusb::{
    AltSetting, Configuration, ControlType, DescriptorError, DeviceId, DfuNusb, Direction,
    FunctionalDescriptor, InterfaceGroup, ProtocolVariant, Recipient, Target, TransportError,
};

fn functional(minor: u8) -> Vec<u8> {
    vec![0x09, 0x21, 0x0b, 0xff, 0x00, 0x00, 0x08, minor, 0x01]
}

fn other_descriptor() -> Vec<u8> {
    vec![0x09, 0x04, 0x00, 0x00, 0x00, 0xfe, 0x01, 0x02, 0x04]
}

fn group(number: u8, alts: &[(u8, Option<u8>)]) -> InterfaceGroup {
    InterfaceGroup {
        interface_number: number,
        alt_settings: alts
            .iter()
            .map(|&(alternate_setting, string_index)| AltSetting { alternate_setting, string_index })
            .collect(),
    }
}

fn config(descriptors: Vec<u8>, interfaces: Vec<InterfaceGroup>) -> Configuration {
    Configuration { descriptors, interfaces }
}

fn target(version: (u8, u8)) -> Target {
    Target {
        configuration: 0,
        functional_descriptor: FunctionalDescriptor {
            can_download: true,
            can_upload: false,
            manifestation_tolerant: false,
            will_detach: false,
            detach_timeout: 255,
            transfer_size: 1024,
            dfu_version: version,
        },
        string_index: 4,
    }
}

const DFUSE_STRING: &str = "@Internal Flash  /0x08000000/04*016Kg,01*064Kg,07*128Kg";

#[test]
fn open_picks_the_first_matching_device() {
    let devices = vec![
        DeviceId { vendor_id: 0x1209, product_id: 0x0001 },
        DeviceId { vendor_id: 0x0483, product_id: 0xdf11 },
        DeviceId { vendor_id: 0x0483, product_id: 0xdf11 },
    ];
    assert!(matches!(DfuNusb::open(&devices, 0x0483, 0xdf11), Ok(1)));
    assert!(matches!(DfuNusb::open(&devices, 0x1209, 0x0001), Ok(0)));
}

#[test]
fn open_fails_without_a_matching_device() {
    let devices = vec![DeviceId { vendor_id: 0x0483, product_id: 0xdf11 }];
    assert!(matches!(
        DfuNusb::open(&devices, 0x0483, 0xdf12),
        Err(TransportError::CouldNotOpenDevice)
    ));
    assert!(matches!(
        DfuNusb::open(&devices, 0xdf11, 0x0483),
        Err(TransportError::CouldNotOpenDevice)
    ));
    assert!(matches!(DfuNusb::open(&[].to_vec(), 1, 2), Err(TransportError::CouldNotOpenDevice)));
}

#[test]
fn third_configuration_is_bound_when_the_first_two_have_no_descriptor() {
    let configs = vec![
        config(other_descriptor(), vec![group(0, &[(0, Some(9))])]),
        config(vec![], vec![]),
        config(functional(0x1a), vec![group(1, &[(0, Some(7))]), group(0, &[(1, Some(5)), (0, Some(6))])]),
    ];
    let t = DfuNusb::select_target(&configs, 0, 0).unwrap();
    assert_eq!(t.configuration, 2);
    assert_eq!(t.string_index, 6);
    assert_eq!(t.functional_descriptor.dfu_version, (0x01, 0x1a));
    let bound = DfuNusb::from_usb_device(&t, 0, 0, DFUSE_STRING).unwrap();
    assert!(matches!(bound.protocol(), ProtocolVariant::Dfuse { address: 0x0800_0000, .. }));
    assert_eq!(bound.functional_descriptor().dfu_version, (0x01, 0x1a));
}

#[test]
fn missing_interface_is_reported() {
    let configs = vec![config(functional(0x10), vec![group(1, &[(0, Some(1))])])];
    assert!(matches!(
        DfuNusb::select_target(&configs, 0, 0),
        Err(TransportError::InvalidInterface)
    ));
}

#[test]
fn missing_alt_setting_is_reported() {
    let configs = vec![config(functional(0x10), vec![group(0, &[(0, Some(1)), (2, Some(3))])])];
    assert!(matches!(DfuNusb::select_target(&configs, 0, 1), Err(TransportError::InvalidAlt)));
}

#[test]
fn missing_interface_in_a_later_configuration_is_not_looked_past() {
    let configs = vec![
        config(functional(0x10), vec![group(1, &[(0, Some(1))])]),
        config(functional(0x10), vec![group(0, &[(0, Some(1))])]),
    ];
    assert!(matches!(
        DfuNusb::select_target(&configs, 0, 0),
        Err(TransportError::InvalidInterface)
    ));
}

#[test]
fn setting_without_string_moves_on_to_the_next_configuration() {
    let configs = vec![
        config(functional(0x10), vec![group(0, &[(0, None)])]),
        config(functional(0x1a), vec![group(0, &[(0, Some(3))])]),
    ];
    let t = DfuNusb::select_target(&configs, 0, 0).unwrap();
    assert_eq!(t.configuration, 1);
    assert_eq!(t.string_index, 3);
    assert_eq!(t.functional_descriptor.dfu_version, (0x01, 0x1a));
}

#[test]
fn nothing_usable_means_no_device_found() {
    assert!(matches!(
        DfuNusb::select_target(&[].to_vec(), 0, 0),
        Err(TransportError::NoDfuCapableDeviceFound)
    ));
    let configs = vec![
        config(other_descriptor(), vec![group(0, &[(0, Some(1))])]),
        config(functional(0x10), vec![group(0, &[(0, None)])]),
    ];
    assert!(matches!(
        DfuNusb::select_target(&configs, 0, 0),
        Err(TransportError::NoDfuCapableDeviceFound)
    ));
}

#[test]
fn truncated_descriptor_is_passed_over() {
    let configs = vec![
        config(vec![0x09, 0x21, 0x0b], vec![group(1, &[(0, Some(1))])]),
        config(functional(0x10), vec![group(0, &[(0, Some(2))])]),
    ];
    let t = DfuNusb::select_target(&configs, 0, 0).unwrap();
    assert_eq!(t.configuration, 1);
    assert_eq!(t.string_index, 2);
}

#[test]
fn language_is_the_first_listed() {
    assert!(matches!(DfuNusb::string_language(&vec![0x0409, 0x0407]), Ok(0x0409)));
    assert!(matches!(DfuNusb::string_language(&vec![0x0407]), Ok(0x0407)));
}

#[test]
fn no_language_is_reported() {
    assert!(matches!(
        DfuNusb::string_language(&Vec::new()),
        Err(TransportError::MissingLanguage)
    ));
}

#[test]
fn first_alt_setting_of_the_first_matching_group_is_used() {
    let configs = vec![config(
        functional(0x10),
        vec![group(2, &[(1, Some(8)), (1, Some(9))]), group(2, &[(1, Some(10))])],
    )];
    let t = DfuNusb::select_target(&configs, 2, 1).unwrap();
    assert_eq!(t.string_index, 8);
}

#[test]
fn plain_dfu_binds_whatever_the_string() {
    let bound = DfuNusb::from_usb_device(&target((0x01, 0x10)), 0, 0, "DFU-mode-string").unwrap();
    assert_eq!(bound.protocol(), &ProtocolVariant::Dfu);
    assert_eq!(bound.interface_number(), 0);
    assert_eq!(bound.alt_setting(), 0);
    assert_eq!(bound.functional_descriptor(), &target((0x01, 0x10)).functional_descriptor);
}

#[test]
fn binding_is_the_same_every_time() {
    let first = DfuNusb::from_usb_device(&target((0x01, 0x1a)), 0, 0, DFUSE_STRING).unwrap();
    let second = DfuNusb::from_usb_device(&target((0x01, 0x1a)), 0, 0, DFUSE_STRING).unwrap();
    assert_eq!(first.protocol(), second.protocol());
    let plain = DfuNusb::from_usb_device(&target((0x01, 0x10)), 0, 0, "DFU-mode-string").unwrap();
    let again = DfuNusb::from_usb_device(&target((0x01, 0x10)), 0, 0, "DFU-mode-string").unwrap();
    assert_eq!(plain.protocol(), again.protocol());
}

#[test]
fn dfuse_string_gives_address_and_pages() {
    let bound = DfuNusb::from_usb_device(&target((0x01, 0x1a)), 3, 1, DFUSE_STRING).unwrap();
    let mut pages = vec![16 * 1024u32; 4];
    pages.push(64 * 1024);
    pages.extend_from_slice(&[128 * 1024u32; 7]);
    assert_eq!(
        bound.protocol(),
        &ProtocolVariant::Dfuse { address: 0x0800_0000, memory_layout: pages }
    );
    assert_eq!(bound.interface_number(), 3);
    assert_eq!(bound.alt_setting(), 1);
}

#[test]
fn trailing_nul_is_removed_before_parsing() {
    let with_nul = format!("{}\0", DFUSE_STRING);
    let bound = DfuNusb::from_usb_device(&target((0x01, 0x1a)), 0, 0, &with_nul).unwrap();
    let plain = DfuNusb::from_usb_device(&target((0x01, 0x1a)), 0, 0, DFUSE_STRING).unwrap();
    assert_eq!(bound.protocol(), plain.protocol());
}

#[test]
fn unknown_version_is_refused() {
    assert!(matches!(
        DfuNusb::from_usb_device(&target((0x01, 0x00)), 0, 0, DFUSE_STRING),
        Err(TransportError::Dfu(dfu_core::Error::UnknownProtocol))
    ));
    assert!(matches!(
        DfuNusb::from_usb_device(&target((0x1a, 0x01)), 0, 0, DFUSE_STRING),
        Err(TransportError::Dfu(dfu_core::Error::UnknownProtocol))
    ));
}

#[test]
fn dfuse_string_without_layout_is_refused() {
    assert!(matches!(
        DfuNusb::from_usb_device(&target((0x01, 0x1a)), 0, 0, "DFU-mode-string"),
        Err(TransportError::Dfu(dfu_core::Error::InvalidInterfaceString))
    ));
    assert!(matches!(
        DfuNusb::from_usb_device(&target((0x01, 0x1a)), 0, 0, "@Flash /08000000/04*016Kg"),
        Err(TransportError::Dfu(dfu_core::Error::InvalidAddress))
    ));
    assert!(matches!(
        DfuNusb::from_usb_device(&target((0x01, 0x1a)), 0, 0, "@Flash /0x08000000/04x016Kg"),
        Err(TransportError::Dfu(dfu_core::Error::MemoryLayout(_)))
    ));
}

#[test]
fn string_without_slash_is_handed_to_the_parser() {
    let bound = DfuNusb::try_from_usb_device(&target((0x01, 0x1a)), 0, 0, "DFU \u{e9} 123456");
    assert!(matches!(
        bound,
        Some(Err(TransportError::Dfu(dfu_core::Error::InvalidInterfaceString)))
    ));
}

#[test]
fn layout_beyond_the_limits_is_not_parsed() {
    let huge = "@Flash /0x08000000/1*4096Mg";
    assert!(!check_layout_in_range(huge));
    assert!(!check_protocol_input(huge, (0x01, 0x1a)));
    assert!(check_protocol_input(huge, (0x01, 0x10)));
    assert!(DfuNusb::try_from_usb_device(&target((0x01, 0x1a)), 0, 0, huge).is_none());
    let plain = DfuNusb::try_from_usb_device(&target((0x01, 0x10)), 0, 0, huge);
    assert!(matches!(plain, Some(Ok(_))));
    let fine = DfuNusb::try_from_usb_device(&target((0x01, 0x1a)), 0, 0, DFUSE_STRING);
    assert!(matches!(fine, Some(Ok(_))));
}

#[test]
fn layout_range_is_where_a_page_size_fits_32_bits() {
    assert!(check_layout_in_range(DFUSE_STRING));
    assert!(check_layout_in_range(""));
    assert!(check_layout_in_range("/1*4095Mg"));
    assert!(!check_layout_in_range("/1*4096Mg"));
    assert!(check_layout_in_range("/1*4194303Kg"));
    assert!(!check_layout_in_range("/1*4194304Kg"));
    assert!(check_layout_in_range("/1*0000004095Mg"));
    assert!(check_layout_in_range("/1*99999999999999999999999Kg"));
    assert!(check_layout_in_range("/1*4294967296Kg"));
    assert!(!check_layout_in_range("/1*4294967295Kg"));
    assert!(!check_layout_in_range("/1*+4096Mg"));
    assert!(check_layout_in_range("/4096Mg"));
    assert!(check_layout_in_range("/1*x4096Mg"));
    assert!(check_layout_in_range("/1*++4096Mg"));
    assert!(check_layout_in_range("/1*4096M"));
    assert!(check_layout_in_range("/1*4096Mgg"));
    assert!(check_layout_in_range("/1*4096M,g"));
    assert!(!check_layout_in_range("/1*4096Mg,1*1Kg"));
    assert!(check_layout_in_range("/1*4294967295 g"));
    assert!(check_layout_in_range("/4294967295*1Kg"));
    assert!(check_layout_in_range("/0x0/16384*004Kg"));
    assert!(check_layout_in_range("/1*4Kg,1*4096Mg/1*4Kg"));
    assert!(!check_layout_in_range("/1*4Kg/1*4Kg,1*4096Mg"));
}

#[test]
fn layout_range_looks_only_behind_the_last_slash() {
    assert!(check_layout_in_range("1*9999Mg"));
    assert!(check_layout_in_range("no layout \u{e9} 1*9999Mg"));
    assert!(!check_layout_in_range("/1*9999Mg"));
    assert!(!check_layout_in_range("a/b/1*9999Mg"));
    assert!(check_layout_in_range("1*9999Mg/567"));
    assert!(check_layout_in_range("\u{e9}/1*1Kg"));
    assert!(!check_layout_in_range("/1*1K\u{e9}"));
}

#[test]
fn many_small_pages_are_parsed() {
    let bound = DfuNusb::try_from_usb_device(&target((0x01, 0x1a)), 0, 0, "/0x0/16384*004Kg");
    match bound {
        Some(Ok(b)) => match b.protocol() {
            ProtocolVariant::Dfuse { address, memory_layout } => {
                assert_eq!(*address, 0);
                assert_eq!(memory_layout.len(), 16384);
                assert_eq!(memory_layout[0], 4096);
                assert_eq!(memory_layout[16383], 4096);
            }
            other => panic!("expected DfuSe, got {:?}", other),
        },
        other => panic!("expected a bound device, got {:?}", other),
    }
}

#[test]
fn largest_page_sizes_are_parsed() {
    let bound =
        DfuNusb::try_from_usb_device(&target((0x01, 0x1a)), 0, 0, "/0x0/1*4095Mg,1*4194303Kg");
    match bound {
        Some(Ok(b)) => assert_eq!(
            b.protocol(),
            &ProtocolVariant::Dfuse {
                address: 0,
                memory_layout: vec![4095 * 1024 * 1024, 4194303 * 1024],
            }
        ),
        other => panic!("expected a bound device, got {:?}", other),
    }
}

#[test]
fn refusal_by_the_parser_inside_the_range_is_a_dfu_error() {
    for s in ["/0x0/1*99999Xg", "/0x0/1*4096M", "/0x0/1*99999999999Kg", "/0x0/4096Mg", "/0x0/1*x4096Mg"] {
        let r = DfuNusb::try_from_usb_device(&target((0x01, 0x1a)), 0, 0, s);
        assert!(matches!(r, Some(Err(TransportError::Dfu(dfu_core::Error::MemoryLayout(_))))));
    }
}

#[test]
fn largest_layout_within_the_limits_is_parsed() {
    let bound =
        DfuNusb::try_from_usb_device(&target((0x01, 0x1a)), 0, 0, "@F/0x0/1024*002Kg,0002*999Mg");
    match bound {
        Some(Ok(b)) => match b.protocol() {
            ProtocolVariant::Dfuse { address, memory_layout } => {
                assert_eq!(*address, 0);
                assert_eq!(memory_layout.len(), 1026);
                assert_eq!(memory_layout[0], 2048);
                assert_eq!(memory_layout[1025], 999 * 1024 * 1024);
            }
            other => panic!("expected DfuSe, got {:?}", other),
        },
        other => panic!("expected a bound device, got {:?}", other),
    }
}

#[test]
fn errors_describe_themselves() {
    assert_eq!(
        TransportError::CouldNotOpenDevice.description(),
        "Could not find device or an error occurred."
    );
    assert_eq!(TransportError::MissingLanguage.description(), "The device has no languages.");
    assert_eq!(TransportError::InvalidInterface.description(), "Could not find interface.");
    assert_eq!(TransportError::InvalidAlt.description(), "Could not find alt interface.");
    assert_eq!(
        TransportError::NoDfuCapableDeviceFound.description(),
        "No DFU capable device found."
    );
    assert_eq!(
        TransportError::FunctionalDescriptor(DescriptorError::DataTooShort(5)).description(),
        "Could not parse functional descriptor: The data is too short (got: 5, expected: 9)."
    );
    assert_eq!(
        TransportError::Dfu(dfu_core::Error::UnknownProtocol).description(),
        format!("{}", dfu_core::Error::UnknownProtocol)
    );
}

#[test]
fn trimming_removes_only_trailing_nul() {
    assert_eq!(trim_trailing_nul("abc\0\0"), "abc");
    assert_eq!(trim_trailing_nul("a\0b"), "a\0b");
    assert_eq!(trim_trailing_nul("\0"), "");
    assert_eq!(trim_trailing_nul(""), "");
    assert_eq!(trim_trailing_nul("\u{e9}t\u{e9}\0"), "\u{e9}t\u{e9}");
}

#[test]
fn transfers_go_to_the_bound_interface() {
    let bound = DfuNusb::from_usb_device(&target((0x01, 0x10)), 5, 0, "x").unwrap();
    for b in 0u16..256 {
        let read = bound.read_control(b as u8, 3, 0x1234);
        assert_eq!(read.index, 5);
        assert_eq!(read.direction, Direction::In);
        assert_eq!(read.timeout_ms, 3000);
        let write = bound.write_control(b as u8, 1, 7);
        assert_eq!(write.index, 5);
        assert_eq!(write.direction, Direction::Out);
        assert_eq!(write.timeout_ms, 3000);
    }
}

#[test]
fn transfer_carries_request_and_value() {
    let bound = DfuNusb::from_usb_device(&target((0x01, 0x10)), 2, 0, "x").unwrap();
    let read = bound.read_control(0xA1, 3, 0);
    assert_eq!(read.control_type, ControlType::Class);
    assert_eq!(read.recipient, Recipient::Interface);
    assert_eq!(read.request, 3);
    assert_eq!(read.value, 0);
    let write = bound.write_control(0x40, 1, 0xBEEF);
    assert_eq!(write.control_type, ControlType::Vendor);
    assert_eq!(write.recipient, Recipient::Device);
    assert_eq!(write.request, 1);
    assert_eq!(write.value, 0xBEEF);
    assert_eq!(write.index, 2);
}

#[test]
fn timeouts_are_three_seconds_and_one_second() {
    assert_eq!(TRANSFER_TIMEOUT_MS, 3000);
    assert_eq!(STRING_TIMEOUT_MS, 1000);
}
