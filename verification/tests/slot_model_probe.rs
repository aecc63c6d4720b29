use hxlinux::edit_slot_model::{
    build_amp_cab_legacy_create_bulk, build_cab_dual_create_bulk, build_slot_model_probe_packets,
    SlotModelProbeOp, ADD_MODEL_BULK_TEMPLATE, CAB_DUAL_CREATE_BULK60_HEAD31_TEMPLATE,
};
use hxlinux::state::HelixState;

fn header(head: u8, lane: u8) -> Vec<u8> {
    vec![
        head, 0x00, 0x00, 0x18, 0x80, 0x10, 0xed, 0x03, 0x00, 0x55, 0x00, 0x04, 0x48, 0x2a, 0x02, 0x00,
        0x01, 0x00, 0x06, 0x00, 0x13, 0x00, 0x00, 0x00, 0x83, 0x66, 0xcd, lane,
    ]
}

/// Compact legacy amp+cab assign bulk (44 bytes, `cd:07`, one-byte cab `31`).
fn legacy_assign() -> Vec<u8> {
    let mut b = header(0x23, 0x07);
    b.extend_from_slice(&[0xfb, 0x64, 0x28, 0x65, 0x82, 0x62, 0x04, 0x64, 0x83, 0x17, 0xc3, 0x19, 0x2c, 0x1a, 0x31, 0x00]);
    assert_eq!(b.len(), 44);
    b
}

#[test]
fn amp_cab_legacy_create_bulk_from_assign() {
    let create = build_amp_cab_legacy_create_bulk(&legacy_assign()).expect("create 2d");
    assert_eq!(create.len(), 56);
    assert_eq!(create[0], 0x2d);
    assert_eq!(create[20], 0x1d);
    assert_eq!(&create[24..28], &[0x83, 0x66, 0xcd, 0x03]);
    assert_eq!(&create[32..36], &[0x82, 0x62, 0x04, 0x63]);
    assert_eq!(&create[36..42], &[0x82, 0x13, 0x06, 0x14, 0x83, 0x18]);
    assert_eq!(&create[42..49], &[0x83, 0x17, 0xc3, 0x19, 0x2c, 0x1a, 0x31]);
    assert_eq!(&create[49..56], &[0x09, 0x12, 0x0a, 0xc3, 0x00, 0x00, 0x00]);
}

#[test]
fn amp_cab_legacy_create_refuses_other_bulks() {
    let mut b = legacy_assign();
    b[0] = 0x25;
    assert!(build_amp_cab_legacy_create_bulk(&b).is_none());
    assert!(build_amp_cab_legacy_create_bulk(&ADD_MODEL_BULK_TEMPLATE).is_none());
}

#[test]
fn cab_dual_create_takes_cab1_of_the_assign_bulk() {
    let mut dual = header(0x27, 0x0a);
    dual.extend_from_slice(&[0x59, 0x64, 0x27, 0x65, 0x82, 0x62, 0x01, 0x63, 0x83, 0x17, 0xc3, 0x19, 0xcd, 0x03, 0x2a, 0x1a, 0xcd, 0x02, 0xd6, 0x09, 0x00]);
    let create = build_cab_dual_create_bulk(&dual).expect("create 31");
    assert_eq!(create.len(), 60);
    assert_eq!(create[0], 0x31);
    assert_eq!(&create[44..50], &[0xc3, 0x19, 0xcd, 0x03, 0x2a, 0x1a]);
    let mut expected = CAB_DUAL_CREATE_BULK60_HEAD31_TEMPLATE.to_vec();
    expected[48] = 0x2a;
    assert_eq!(create, expected);
    assert!(build_cab_dual_create_bulk(&[0x00, 0x01]).is_none());
}

#[test]
fn add_on_template_sends_bulk_then_closing_short() {
    let mut state = HelixState::new();
    let packs = build_slot_model_probe_packets(&mut state, SlotModelProbeOp::AddToEmpty, 2, 0x03, None, None, false);
    assert_eq!(packs.len(), 2);
    let mut bulk = ADD_MODEL_BULK_TEMPLATE.to_vec();
    bulk[9] = 0x02;
    bulk[12] = 0xbd;
    bulk[13] = 0x6c;
    bulk[34] = 0x03;
    assert_eq!(packs[0], bulk);
    assert_eq!(
        packs[1],
        vec![0x08, 0x00, 0x00, 0x18, 0x80, 0x10, 0xed, 0x03, 0x00, 0x03, 0x00, 0x08, 0xdc, 0x6c, 0x00, 0x00]
    );
    assert_eq!(state.counters.x80_cnt, 4);
    assert_eq!(state.counters.live_write_ctr, 0x6cdc);
}

#[test]
fn remove_on_template_opens_and_closes_with_shorts() {
    let mut state = HelixState::new();
    let packs = build_slot_model_probe_packets(&mut state, SlotModelProbeOp::RemoveFromOccupied, 3, 0x04, None, None, false);
    assert_eq!(packs.len(), 3);
    assert_eq!(packs[0][11], 0x10);
    assert_eq!(packs[0][9], 0x02);
    assert_eq!(packs[1].len(), 36);
    assert_eq!(packs[1][9], 0x03);
    assert_eq!(packs[1][28], 0x06, "lane byte of slot index 3");
    assert_eq!(packs[1][34], 0x04);
    assert_eq!(&packs[2][11..14], &[0x08, 0xce, 0x6c]);
    assert_eq!(state.counters.live_write_ctr, 0x6cce);
}

#[test]
fn replace_replays_assign_bulk_with_session_lane() {
    let mut state = HelixState::new();
    let mut assign = header(0x25, 0x04);
    assign.extend_from_slice(&[0x26, 0x64, 0x28, 0x65, 0x82, 0x62, 0x01, 0x64, 0x83, 0x17, 0xc2, 0x19, 0xcd, 0x01, 0xfe, 0x1a, 0xff, 0x00, 0x00, 0x00]);
    assert_eq!(assign.len(), 48);
    let packs = build_slot_model_probe_packets(
        &mut state,
        SlotModelProbeOp::ReplaceOccupied,
        0,
        0x05,
        None,
        Some(&assign),
        false,
    );
    assert_eq!(packs.len(), 3);
    assert_eq!(&packs[0][4..8], &[0xef, 0x03, 0x01, 0x10]);
    assert_eq!(&packs[1][4..8], &[0x02, 0x10, 0xf0, 0x03]);
    let bulk = &packs[2];
    assert_eq!(bulk[9], 0x02);
    assert_eq!(&bulk[12..16], &[0x48, 0x2a, 0x02, 0x00], "model identity kept");
    assert_eq!(bulk[28], 0x26);
    assert_eq!(bulk[34], 0x05);
    assert_eq!(state.counters.slot_model_lane_seq, Some(0x27));
    assert_eq!(state.counters.live_write_ctr, 0x6cdc);
    let again = build_slot_model_probe_packets(&mut state, SlotModelProbeOp::ReplaceOccupied, 0, 0x05, None, Some(&assign), true);
    assert_eq!(again.len(), 1);
    assert_eq!(again[0][28], 0x27);
    assert_eq!(state.counters.live_write_ctr, 0x6cdc + 0x3e);
}

#[test]
fn change_model_test_bulk_is_the_capture() {
    let b = hxlinux::edit_slot_model::change_model_hxedit_replace_test_bulk();
    assert_eq!(b.len(), 44);
    assert_eq!(&b[0..8], &[0x23, 0x00, 0x00, 0x18, 0x03, 0x10, 0xed, 0x03]);
    assert_eq!(&b[24..28], &[0x83, 0x66, 0xcd, 0x03]);
    assert_eq!(b[34], 0x04);
}
