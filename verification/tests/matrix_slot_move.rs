use hxlinux::matrix_slot_move::{
    build_ed03_lane08, build_matrix_move_lane, build_matrix_slot_move_packet,
    build_select_source_lane, prime_dump_ack_lane_after_interpath, send_matrix_slot_move,
    BRANCH_COMMIT_19_MERGE, BRANCH_COMMIT_19_SPLIT,
};
use hxlinux::state::HelixState;
fn test_state() -> HelixState {
    let mut s = HelixState::new();
    s.counters.session_no = 0xdc;
    s.counters.live_write_yy = 0x13;
    s.counters.live_write_ctr = 0x4c00;
    s
}

#[test]
fn matrix_move_same_path_slot1_to_2_shape() {
    let mut s = test_state();
    s.lanes.preset_dump_ack_ctr = 0x4c00;
    let pkt = build_matrix_slot_move_packet(&mut s, 0, 1).unwrap();
    assert_eq!(pkt.len(), 40);
    assert_eq!(pkt[0], 0x1d);
    assert_eq!(pkt[27], 0x04);
    assert_eq!(&pkt[32..40], &[0x82, 0x4b, 0x01, 0x4c, 0x02, 0x00, 0x00, 0x00]);
    assert_eq!(pkt[28], 0x13);
    assert_eq!(s.counters.live_write_yy, 0x14);
}

#[test]
fn matrix_move_same_path_slot3_to_8_shape() {
    let mut s = test_state();
    let pkt = build_matrix_slot_move_packet(&mut s, 2, 7).unwrap();
    assert_eq!(&pkt[32..40], &[0x82, 0x4b, 0x03, 0x4c, 0x08, 0x00, 0x00, 0x00]);
}

#[test]
fn create_split_select_and_move_lane_shape() {
    let mut s = test_state(); // live_write_ctr=0x4c00, live_write_yy=0x13
    let l0 = s.counters.live_write_ctr;
    let sel = build_select_source_lane(&mut s, 0x03, l0);
    assert_eq!(sel.len(), 40);
    assert_eq!(sel[0], 0x1d);
    assert_eq!(&sel[12..16], &[(l0 & 0xff) as u8, (l0 >> 8) as u8, 0x00, 0x00], "lane offset12-13 + 00 00");
    assert_eq!(sel[27], 0x03, "cd03");
    assert_eq!(sel[28], 0x13, "yy = live_write_yy initial");
    assert_eq!(&sel[29..36], &[0x64, 0x4e, 0x65, 0x82, 0x62, 0x03, 0x1a]);

    let l1 = l0.wrapping_add(0x11);
    let mv = build_matrix_move_lane(&mut s, 1, 9, l1).unwrap();
    assert_eq!(&mv[12..16], &[(l1 & 0xff) as u8, (l1 >> 8) as u8, 0x00, 0x00], "lane +0x11 + 00 00");
    assert_eq!(mv[27], 0x03, "cd03");
    assert_eq!(mv[28], 0x14, "yy séquentiel = SELECT+1");
    assert_eq!(&mv[32..37], &[0x82, 0x4b, 0x02, 0x4c, 0x0c], "82 4b <src_bus> 4c <dst_bus>");

    let pre = build_ed03_lane08(&mut s, 0x10, l0);
    assert_eq!(pre.len(), 16);
    assert_eq!(pre[11], 0x10);
    assert_eq!(&pre[12..16], &[(l0 & 0xff) as u8, (l0 >> 8) as u8, 0x00, 0x00]);
}

#[test]
fn matrix_move_inter_path_uses_cd03() {
    let mut s = test_state();
    let pkt = build_matrix_slot_move_packet(&mut s, 1, 9).unwrap();
    assert_eq!(pkt[27], 0x03);
    assert_eq!(pkt[34], 0x02);
    assert_eq!(pkt[36], 0x0c);
}

#[test]
fn branch_commit_merge_differs_from_split() {
    assert_ne!(BRANCH_COMMIT_19_SPLIT[30], BRANCH_COMMIT_19_MERGE[30]);
    assert_eq!(BRANCH_COMMIT_19_SPLIT[30], 0x17);
    assert_eq!(BRANCH_COMMIT_19_MERGE[30], 0x16);
}

#[test]
fn prime_dump_ack_lane_after_interpath_sets_editor_lane() {
    let mut s = test_state();
    s.counters.session_no = 0xdc;
    let double = s.preset_data_packet_double();
    prime_dump_ack_lane_after_interpath(&mut s);
    let [lo, hi] = s.editor_ed03_lane_bytes();
    assert_eq!(lo, 0xdcu8.wrapping_add(0x42));
    assert_eq!(hi, double[0].wrapping_add(1));
    assert_eq!(s.lanes.editor_ed03_lane_b14, 0);
}

#[test]
fn dd_dump_ack_prime_follows_option() {
    let mut s = test_state();
    s.tx.dd_dump_ack_prime = false;
    let lane_before = s.lanes.editor_ed03_lane;
    let line = send_matrix_slot_move(&mut s, 1, 9, false).unwrap();
    assert_eq!(line, "move_1d 1->9 bus 0x02->0x0c | branch_commit_19x2");
    assert_eq!(s.lanes.editor_ed03_lane, lane_before);
    assert_eq!(s.outbox.len(), 4);
    let mut s2 = test_state();
    let line2 = send_matrix_slot_move(&mut s2, 1, 9, false).unwrap();
    assert_eq!(line2, "move_1d 1->9 bus 0x02->0x0c | branch_commit_19x2 | prime_dump_ack_lane");
    assert_eq!(s2.slot.hw_active_slot_index, Some(9));
}

#[test]
fn create_split_sends_select_and_move_without_commit() {
    let mut s = test_state();
    let line = send_matrix_slot_move(&mut s, 1, 9, true).unwrap();
    assert_eq!(
        line,
        "create_split_faithful select_src bus 0x02 | move_1d 1->9 bus 0x02->0x0c | lane 0x4c00->0x4c11 | no_commit"
    );
    assert_eq!(s.outbox.len(), 6);
    assert_eq!(s.counters.live_write_ctr, 0x4c22);
    assert_eq!(s.outbox[5].data[12..14], [0x22, 0x4c]);
}

#[test]
fn matrix_move_rejects_same_and_out_of_grid() {
    let mut s = test_state();
    assert_eq!(
        build_matrix_slot_move_packet(&mut s, 3, 3).unwrap_err(),
        "matrix move : source et destination identiques"
    );
    assert_eq!(
        build_matrix_slot_move_packet(&mut s, 3, 16).unwrap_err(),
        "matrix move : index slot hors plage 0..15"
    );
    assert!(s.outbox.is_empty());
}
