use hxlinux::matrix_routing_dd::build_matrix_routing_path2_commit_packet;
use hxlinux::matrix_routing_move::{
    build_matrix_routing_marker_move_packet, validate_routing_marker_move, RoutingMarkerKind,
};
use hxlinux::state::HelixState;
fn test_state() -> HelixState {
    let mut s = HelixState::new();
    s.counters.session_no = 0xdc;
    s.counters.live_write_yy = 0x13;
    s.lanes.editor_ed03_double = 0x64f1;
    s
}

#[test]
fn routing_move_split_capture_shape() {
    let mut s = test_state();
    let (pkt, tag) =
        build_matrix_routing_marker_move_packet(&mut s, RoutingMarkerKind::Split, 1).unwrap();
    assert_eq!(tag, 0xf2);
    assert_eq!(pkt.len(), 40);
    assert_eq!(pkt[0], 0x1d);
    assert_eq!(pkt[27], 0x03);
    assert_eq!(pkt[28], 0xf2);
    assert_eq!(&pkt[20..24], &[0x0d, 0x00, 0x00, 0x00]);
    assert_eq!(&pkt[29..32], &[0x64, 0x4e, 0x65]);
    assert_eq!(&pkt[32..40], &[0x82, 0x62, 0x0a, 0x1a, 0x00, 0x00, 0x00, 0x00]);
}

#[test]
fn routing_move_merge_capture_shape() {
    let mut s = test_state();
    let (pkt, tag) =
        build_matrix_routing_marker_move_packet(&mut s, RoutingMarkerKind::Merge, 8).unwrap();
    assert_eq!(tag, 0xf2);
    assert_eq!(pkt[27], 0x03);
    assert_eq!(pkt[28], 0xf2);
    assert_eq!(&pkt[32..40], &[0x82, 0x62, 0x13, 0x1a, 0x00, 0x00, 0x00, 0x00]);
}

#[test]
fn routing_move_ack_lo_is_session_plus_11() {
    let mut s = test_state();
    s.counters.session_no = 0x70;
    let (pkt, _) =
        build_matrix_routing_marker_move_packet(&mut s, RoutingMarkerKind::Split, 1).unwrap();
    assert_eq!(pkt[12], 0x70);
    assert_eq!(pkt[12].wrapping_add(0x11), 0x81);
    s.counters.session_no = 0xe7;
    s.lanes.editor_ed03_double = 0x64f1;
    let (pkt, _) =
        build_matrix_routing_marker_move_packet(&mut s, RoutingMarkerKind::Merge, 8).unwrap();
    assert_eq!(pkt[12], 0xe7);
    assert_eq!(pkt[12].wrapping_add(0x11), 0xf8);
}

#[test]
fn routing_move_split_guard_first_path2() {
    let err = validate_routing_marker_move(RoutingMarkerKind::Split, 3, 2, 5, 1, 7).unwrap_err();
    assert!(err.contains("premier slot path 2"));
}

#[test]
fn routing_move_merge_guard_last_path2() {
    let err = validate_routing_marker_move(RoutingMarkerKind::Merge, 4, 2, 5, 1, 7).unwrap_err();
    assert!(err.contains("fin path 2"));
}

#[test]
fn routing_move_two_cycles_advance_double_twice_per_gesture() {
    let mut s = test_state();
    s.lanes.editor_ed03_double = 0x64f7;
    let (_, tag1d) =
        build_matrix_routing_marker_move_packet(&mut s, RoutingMarkerKind::Split, 0).unwrap();
    assert_eq!(tag1d, 0xf8);
    let pkt1b = build_matrix_routing_path2_commit_packet(
        &mut s,
        RoutingMarkerKind::Split,
        0,
        [0xdc, 0xf8, 0x64],
    );
    assert_eq!(pkt1b[28], 0xf9);
    let (_, tag2d) =
        build_matrix_routing_marker_move_packet(&mut s, RoutingMarkerKind::Split, 1).unwrap();
    assert_eq!(tag2d, 0xfa, "2ᵉ 1d ne doit pas réutiliser le tag du 1b précédent");
}
