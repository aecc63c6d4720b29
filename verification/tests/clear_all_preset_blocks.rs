use hxlinux::clear_all_preset_blocks::{
    clear_all_await_ack_after, clear_all_lane, is_clear_all_ed03_ack08, is_clear_all_in19,
    is_clear_all_pipeline_in, patch_clear_all_packet, CLEAR_ALL_AWAIT_ACK_AFTER,
    CLEAR_ALL_LANE_BUMP_AFTER_PACKET, CLEAR_ALL_LANE_BUMP_DELTA,
};

#[test]
fn await_frontiers_are_group_boundaries() {
    let expected = [1usize, 3, 5, 6, 8, 10, 12];
    for (idx, &flag) in CLEAR_ALL_AWAIT_ACK_AFTER.iter().enumerate() {
        assert_eq!(flag, expected.contains(&idx), "idx {idx}");
        assert_eq!(clear_all_await_ack_after(idx), flag, "idx {idx}");
    }
    assert!(!clear_all_await_ack_after(14));
}

#[test]
fn bump_lane_starts_at_idx_6() {
    let base: u16 = 0x2a94;
    for idx in 0..CLEAR_ALL_AWAIT_ACK_AFTER.len() {
        let lane = if idx >= CLEAR_ALL_LANE_BUMP_AFTER_PACKET {
            base.wrapping_add(CLEAR_ALL_LANE_BUMP_DELTA)
        } else {
            base
        };
        let want = if idx >= 6 { 0x2aa5 } else { 0x2a94 };
        assert_eq!(lane, want, "idx {idx}");
        assert_eq!(clear_all_lane(base, idx), want, "idx {idx}");
    }
}

#[test]
fn ed03_ack08_matcher() {
    let ack = [
        0x08, 0x00, 0x00, 0x18, 0xed, 0x03, 0x80, 0x10, 0x00, 0x5d, 0x00, 0x08, 0xe5, 0x04,
        0x00, 0x00,
    ];
    assert!(is_clear_all_ed03_ack08(&ack));
    assert!(is_clear_all_pipeline_in(&ack));

    let heartbeat = [
        0x08, 0x00, 0x00, 0x18, 0xed, 0x03, 0x80, 0x10, 0x00, 0x5d, 0x00, 0x10, 0xe5, 0x02,
        0x00, 0x00,
    ];
    assert!(!is_clear_all_ed03_ack08(&heartbeat));
    assert!(!is_clear_all_pipeline_in(&heartbeat));
}

#[test]
fn in19_matcher_group_c() {
    let in19 = [
        0x19, 0x00, 0x00, 0x18, 0xed, 0x03, 0x80, 0x10, 0x00, 0x5f, 0x00, 0x04, 0xed, 0x06,
        0x00, 0x00, 0x00, 0x00, 0x06, 0x00, 0x09, 0x00, 0x00, 0x00, 0x83, 0x66, 0xcd, 0x03,
        0xf4, 0x67, 0x01, 0x68, 0xc0, 0x93, 0xc2, 0x40,
    ];
    assert!(is_clear_all_in19(&in19));
    assert!(is_clear_all_pipeline_in(&in19));
}

#[test]
fn f0_page_counter_is_not_absorbed() {
    let f0 = [
        0x08, 0x00, 0x00, 0x18, 0xf0, 0x03, 0x02, 0x10, 0x00, 0x3d, 0x00, 0x10, 0x09, 0x02,
        0x00, 0x00,
    ];
    assert!(!is_clear_all_pipeline_in(&f0));
}

#[test]
fn patch_lane_and_double_on_a_cd_frame() {
    let mut pkt = vec![0u8; 32];
    pkt[4..8].copy_from_slice(&[0x80, 0x10, 0xed, 0x03]);
    pkt[24..28].copy_from_slice(&[0x83, 0x66, 0xcd, 0x03]);
    patch_clear_all_packet(&mut pkt, 0xab, 0xbeef, Some([0x11, 0x64]));
    assert_eq!(pkt[9], 0xab);
    assert_eq!(pkt[12], 0xef);
    assert_eq!(pkt[13], 0xbe);
    assert_eq!(pkt[28], 0x11);
    assert_eq!(pkt[29], 0x64);
}

#[test]
fn patch_without_double_leaves_marker_tail() {
    let mut pkt = vec![0u8; 32];
    pkt[24..30].copy_from_slice(&[0x83, 0x66, 0xcd, 0x03, 0x55, 0x66]);
    patch_clear_all_packet(&mut pkt, 0x01, 0x0102, None);
    assert_eq!(&pkt[28..30], &[0x55, 0x66]);
    let mut short = vec![0u8; 10];
    patch_clear_all_packet(&mut short, 0x01, 0x0102, None);
    assert_eq!(short, vec![0u8; 10]);
}
