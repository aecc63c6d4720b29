use hxlinux::path1_io_live_write::{
    build_ed03_dd_preamble_sub10, build_f0_dd_post_commit_sub08, build_f0_dd_preamble_sub10,
    build_special_slot_focus_packet, is_path1_input_scroll_notify_21, scan_path1_input_source_wire,
};
use hxlinux::state::HelixState;
#[test]
fn dd_preamble_sub10_shape() {
    let mut s = HelixState::new();
    s.counters.session_no = 0x70;
    let ed = build_ed03_dd_preamble_sub10(&mut s);
    assert_eq!(ed[11], 0x10);
    assert_eq!(ed[12], 0x70);
    assert_eq!(&ed[4..8], &[0x80, 0x10, 0xed, 0x03]);
    let f0 = build_f0_dd_preamble_sub10(&mut s);
    assert_eq!(f0[11], 0x10);
    assert_eq!(&f0[4..8], &[0x02, 0x10, 0xf0, 0x03]);
}

#[test]
fn dd_post_f0_sub08_shape() {
    let mut s = HelixState::new();
    let f0 = build_f0_dd_post_commit_sub08(&mut s);
    assert_eq!(f0[11], 0x08);
    assert_eq!(&f0[4..8], &[0x02, 0x10, 0xf0, 0x03]);
}

#[test]
fn special_focus_packet_targets_input_bus() {
    let mut state = HelixState::new();
    let p = build_special_slot_focus_packet(&mut state, 0x00);
    assert_eq!(p[34], 0x00);
    assert_eq!(p[35], 0x1a);
}

#[test]
fn scan_input_wire_from_in_capture() {
    let hex = "21000018f00302100053000409020000000004001100000082691b6a845200440779176a82620033010081cd";
    let buf: Vec<u8> = (0..hex.len())
        .step_by(2)
        .map(|i| u8::from_str_radix(&hex[i..i + 2], 16).unwrap())
        .collect();
    assert_eq!(scan_path1_input_source_wire(&buf), Some(1));
}

#[test]
fn scroll_input_notify_21_from_capture() {
    for (hex, wire) in [
        (
            "21000018f00302100011000409020000000004001100000082691b6a845200440779176a826200330193c240",
            1u8,
        ),
        (
            "21000018f00302100013000409020000000004001100000082691b6a845200440779176a826200330493c240",
            4u8,
        ),
        (
            "21000018f00302100015000409020000000004001100000082691b6a845200440779176a826200330693c240",
            6u8,
        ),
    ] {
        let buf: Vec<u8> = (0..hex.len())
            .step_by(2)
            .map(|i| u8::from_str_radix(&hex[i..i + 2], 16).unwrap())
            .collect();
        assert!(is_path1_input_scroll_notify_21(&buf), "scroll 21 {wire}");
        assert_eq!(scan_path1_input_source_wire(&buf), Some(wire));
    }
}
