use hxlinux::matrix_routing_dd::{
    build_matrix_routing_path2_commit_packet, is_routing_dd_device_ed03_ack08, is_routing_dd_in19,
    is_routing_dd_in21, is_routing_dd_in25, is_routing_dd_pipeline_in,
};
use hxlinux::matrix_routing_move::RoutingMarkerKind;
use hxlinux::state::HelixState;
#[test]
fn path2_commit_split_shape() {
    let mut s = HelixState::new();
    s.counters.session_no = 0x70;
    s.lanes.editor_ed03_double = 0x64f2;
    let pkt = build_matrix_routing_path2_commit_packet(
        &mut s,
        RoutingMarkerKind::Split,
        0,
        [0x70, 0x2a, 0x00],
    );
    assert_eq!(pkt.len(), 36);
    assert_eq!(pkt[0], 0x1b);
    assert_eq!(pkt[12], 0x81);
    assert_eq!(pkt[20], 0x0b);
    assert_eq!(pkt[27], 0x03);
    assert_eq!(pkt[28], 0xf3);
    assert_eq!(&pkt[29..32], &[0x64, 0x2e, 0x65]);
    assert_eq!(&pkt[32..36], &[0x81, 0x62, 0x01, 0x00]);
}

#[test]
fn path2_commit_merge_shape() {
    let mut s = HelixState::new();
    s.lanes.editor_ed03_double = 0x64f2;
    let pkt = build_matrix_routing_path2_commit_packet(
        &mut s,
        RoutingMarkerKind::Merge,
        6,
        [0xe7, 0x2a, 0x00],
    );
    assert_eq!(pkt[27], 0x03);
    assert_eq!(pkt[28], 0xf3);
    assert_eq!(pkt[32], 0x81);
    assert_eq!(pkt[34], 0x07);
    assert_eq!(pkt[30], 0x2f);
}

#[test]
fn path2_commit_split_dest_col_wire_byte() {
    let mut s = HelixState::new();
    s.lanes.editor_ed03_double = 0x64f1;
    let pkt = build_matrix_routing_path2_commit_packet(
        &mut s,
        RoutingMarkerKind::Split,
        4,
        [0x9e, 0x1c, 0x00],
    );
    assert_eq!(pkt[34], 0x05);
    assert_eq!(pkt[30], 0x2e);
}

#[test]
fn in19_in21_in25_matchers() {
    let in19 = [
        0x19, 0x00, 0x00, 0x18, 0xed, 0x03, 0x80, 0x10, 0x00, 0x13, 0x00, 0x04, 0x86, 0x1d,
        0x00, 0x00, 0x00, 0x00, 0x06, 0x00, 0x09, 0x00, 0x00, 0x00, 0x83, 0x66, 0xcd, 0x04,
        0x12, 0x67, 0x00, 0x68, 0xc0, 0x79, 0x13, 0x6a,
    ];
    assert!(is_routing_dd_in19(&in19));
    let in21 = [
        0x21, 0x00, 0x00, 0x18, 0xf0, 0x03, 0x02, 0x10, 0x00, 0x36, 0x00, 0x04, 0x09, 0x02,
        0x00, 0x00, 0x00, 0x00, 0x04, 0x00, 0x11, 0x00, 0x00, 0x00, 0x82, 0x69, 0x27, 0x6a,
        0x84, 0x52, 0x01, 0x44, 0x03, 0x79, 0x13, 0x6a, 0x82, 0x62, 0x0a, 0x1a, 0x00, 0xab,
        0x4e, 0x65,
    ];
    assert!(is_routing_dd_in21(&in21));
    let in25 = [
        0x25, 0x00, 0x00, 0x18, 0xf0, 0x03, 0x02, 0x10, 0x00, 0xdd, 0x00, 0x04, 0x09, 0x02,
        0x00, 0x00, 0x00, 0x00, 0x04, 0x00, 0x15, 0x00, 0x00, 0x00, 0x82, 0x69, 0x1a, 0x6a,
        0x84, 0x52, 0x00, 0x44, 0x03, 0x79, 0x13, 0x6a, 0x82, 0x62, 0x0a, 0x1a, 0x00, 0xab,
        0x4e, 0x65, 0x00, 0x00, 0x00, 0x00,
    ];
    assert!(is_routing_dd_in25(&in25));
    assert!(!is_routing_dd_in21(&in25));
    let dev_ed08 = [
        0x08, 0x00, 0x00, 0x18, 0xed, 0x03, 0x80, 0x10, 0x00, 0x49, 0x00, 0x08, 0x2b, 0x03,
        0x00, 0x00,
    ];
    assert!(is_routing_dd_device_ed03_ack08(&dev_ed08));
    assert!(is_routing_dd_pipeline_in(&dev_ed08));
    assert!(!is_routing_dd_device_ed03_ack08(&in19));
}

#[test]
fn merge_1b_ack_hi_is_out_byte13_plus_one() {
    let out_1b: [u8; 36] = [
        0x1b, 0x00, 0x00, 0x18, 0x80, 0x10, 0xed, 0x03, 0x00, 0x4d, 0x00, 0x04, 0xf8, 0x2a,
        0x00, 0x00, 0x01, 0x00, 0x06, 0x00, 0x0b, 0x00, 0x00, 0x00, 0x83, 0x66, 0xcd, 0x04,
        0x1a, 0x64, 0x2f, 0x65, 0x81, 0x62, 0x07, 0x00,
    ];
    let ack_lo = out_1b[12].wrapping_add(0x11);
    let ack_hi_merge = out_1b[13].wrapping_add(1);
    assert_eq!(ack_lo, 0x09);
    assert_eq!(ack_hi_merge, 0x2b);
    assert_eq!(out_1b[13].wrapping_add(0), 0x2a);
}
