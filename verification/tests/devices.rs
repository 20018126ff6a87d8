use keyboard_splitter::input::devices::{
    enumerate, enumerate_with_handles, friendly_name, is_keyboard_type, parse_vid_pid, RawDevice,
    RawDeviceInfo, RIM_TYPEHID, RIM_TYPEKEYBOARD,
};

#[test]
fn parses_vid_pid_from_typical_usb_paths() {
    let path = r"\\?\USB#VID_046D&PID_C52B#6&2a3b4c&0&1#{884b96c3-56ef-11d1-bc8c-00a0c91405dd}";
    assert_eq!(parse_vid_pid(path), (0x046D, 0xC52B));
}

#[test]
fn truncated_markers_do_not_panic() {
    assert_eq!(parse_vid_pid(r"\\?\ACPI#VID_"), (0, 0));
    assert_eq!(parse_vid_pid(r"\\?\ACPI#PID_1"), (0, 0));
    assert_eq!(parse_vid_pid(r"\\?\ACPI#VID_04"), (0, 0));
    assert_eq!(parse_vid_pid(r"\\?\ACPI#PID_123"), (0, 0));
    assert_eq!(parse_vid_pid(r"\\?\ACPI#VID_046D"), (0x046D, 0));
    assert_eq!(parse_vid_pid(r"\\?\ACPI#PID_C52B"), (0, 0xC52B));
}

#[test]
fn non_hex_and_missing_markers_yield_zero() {
    assert_eq!(parse_vid_pid(r"\\?\ACPI#PNP0303#..."), (0, 0));
    assert_eq!(parse_vid_pid(""), (0, 0));
    assert_eq!(parse_vid_pid(r"\\?\USB#VID_ZZZZ&PID_0000#x"), (0, 0));
}

#[test]
fn takes_the_first_marker_occurrence() {
    assert_eq!(parse_vid_pid("VID_0001&PID_0002&VID_0003"), (0x0001, 0x0002));
}

#[test]
fn friendly_names() {
    assert_eq!(friendly_name("x", 0x46D, 0xC52B), "Keyboard (046D:C52B)");
    assert_eq!(friendly_name("x", 0x1, 0x2), "Keyboard (0001:0002)");
    assert_eq!(friendly_name("ACPI#PNP0303", 0, 0), "Keyboard (PNP0303)");
    assert_eq!(friendly_name(r"\\?\ACPI#PNP0303#{884b96c3}", 0, 0), "Keyboard (PNP0303)");
    assert_eq!(friendly_name(r"\\?\ACPI#PNP0303#4&1d8e&0", 0, 0), "Keyboard (4&1d8e&0)");
    assert_eq!(friendly_name(r"#{abc}#HID\MyKeyboard", 0, 0), "MyKeyboard");
    assert_eq!(friendly_name("", 0, 0), "Keyboard");
}

fn info(dw_type: u32, page: u16, usage: u16, vid: u32, pid: u32) -> RawDeviceInfo {
    RawDeviceInfo {
        dw_type,
        hid_usage_page: page,
        hid_usage: usage,
        hid_vendor_id: vid,
        hid_product_id: pid,
    }
}

#[test]
fn keyboard_types() {
    assert!(is_keyboard_type(&info(RIM_TYPEKEYBOARD, 0, 0, 0, 0)));
    assert!(is_keyboard_type(&info(RIM_TYPEHID, 0x01, 0x06, 0, 0)));
    assert!(!is_keyboard_type(&info(RIM_TYPEHID, 0x01, 0x02, 0, 0)));
    assert!(!is_keyboard_type(&info(0, 0x01, 0x06, 0, 0)));
}

fn raw(handle: usize, path: Option<&str>, i: Option<RawDeviceInfo>) -> RawDevice {
    RawDevice { handle, path: path.map(|p| p.to_string()), info: i }
}

#[test]
fn enumeration_dedupes_filters_and_sorts() {
    let usb = r"\\?\HID#VID_046D&PID_C52B#1";
    let entries = vec![
        raw(1, Some(r"\\?\ACPI#PNP0303#x"), Some(info(RIM_TYPEKEYBOARD, 0, 0, 0, 0))),
        raw(2, Some(usb), Some(info(RIM_TYPEKEYBOARD, 0, 0, 0, 0))),
        raw(3, Some(usb), Some(info(RIM_TYPEHID, 0x01, 0x06, 0, 0))),
        raw(4, Some(r"\\?\HID#mouse"), Some(info(RIM_TYPEHID, 0x01, 0x02, 0, 0))),
        raw(5, None, Some(info(RIM_TYPEKEYBOARD, 0, 0, 0, 0))),
        raw(6, Some(r"\\?\HID#Other"), None),
        raw(7, Some(r"\\?\HID#Plain#y"), Some(info(RIM_TYPEHID, 0x01, 0x06, 0x12, 0x34))),
    ];
    let listed = enumerate_with_handles(&entries);
    let names: Vec<(usize, String)> = listed.iter().map(|(h, d)| (*h, d.name.clone())).collect();
    assert_eq!(
        names,
        vec![
            (7, "Keyboard (0012:0034)".to_string()),
            (2, "Keyboard (046D:C52B)".to_string()),
            (1, "Keyboard (x)".to_string()),
        ]
    );
    assert_eq!(listed[0].1.vendor_id, 0x12);
    assert_eq!(listed[0].1.id, r"\\?\HID#Plain#y");
    let devices = enumerate(&entries);
    assert_eq!(devices.len(), 3);
    assert_eq!(devices[1].id, usb);
    assert!(enumerate(&[]).is_empty());
}
