use hxlinux::cab_dual::legacy::wire::{
    accepted_cab2_replace_heads, build_legacy_cab2_replace_bulk, chain_hint_to_cab_field_bytes,
    is_legacy_cab2_replace_bulk, is_legacy_dual_bulk_head, reframe_cd0a_to_cd04,
    CAB2_REPLACE_HEAD_LEGACY,
};
use hxlinux::cab_dual::replace_fire::{cab2_replace_fire_ed08, cab2_replace_fire_focus, find_cab2_replace_bulk};
use hxlinux::state::HelixState;

#[test]
fn chain_hint_one_byte_legacy() {
    assert_eq!(chain_hint_to_cab_field_bytes("33"), Some(vec![0x33]));
    assert_eq!(chain_hint_to_cab_field_bytes("2e"), Some(vec![0x2e]));
}

#[test]
fn chain_hint_three_byte_ir() {
    assert_eq!(
        chain_hint_to_cab_field_bytes("cd031b"),
        Some(vec![0xcd, 0x03, 0x1b])
    );
}

#[test]
fn chain_hint_rejects_odd_and_empty() {
    assert_eq!(chain_hint_to_cab_field_bytes("  "), None);
    assert_eq!(chain_hint_to_cab_field_bytes("cd0"), None);
    assert_eq!(chain_hint_to_cab_field_bytes("zz"), None);
    assert_eq!(chain_hint_to_cab_field_bytes(" 7 "), Some(vec![0x07]));
}

#[test]
fn reframe_cd0a_to_cd04_only_touches_lane_byte() {
    let mut bulk = vec![
        0x23, 0x00, 0x00, 0x18, 0x80, 0x10, 0xed, 0x03, 0x83, 0x66, 0xcd, 0x0a, 0x59,
    ];
    reframe_cd0a_to_cd04(&mut bulk);
    assert_eq!(&bulk[8..12], &[0x83, 0x66, 0xcd, 0x04]);
    assert_eq!(bulk[12], 0x59);
}

#[test]
fn legacy_heads() {
    assert_eq!(accepted_cab2_replace_heads(), vec![0x27, 0x23, 0x25]);
    assert!(is_legacy_dual_bulk_head(0x25));
    assert!(!is_legacy_dual_bulk_head(0x27));
    assert!(is_legacy_cab2_replace_bulk(&[CAB2_REPLACE_HEAD_LEGACY, 0x00]));
    assert!(!is_legacy_cab2_replace_bulk(&[]));
}

#[test]
fn legacy_cab2_one_byte_patch_keeps_cab1() {
    let mut parent = vec![0u8; 44];
    parent[0] = 0x23;
    parent[24..28].copy_from_slice(&[0x83, 0x66, 0xcd, 0x0a]);
    parent[38..43].copy_from_slice(&[0xc3, 0x19, 0x33, 0x1a, 0x30]);
    let bulk = build_legacy_cab2_replace_bulk(&parent, &[], &[0x2e]).expect("bulk");
    assert_eq!(bulk.len(), 44);
    assert_eq!(&bulk[24..28], &[0x83, 0x66, 0xcd, 0x04]);
    assert_eq!(&bulk[38..43], &[0xc3, 0x19, 0x33, 0x1a, 0x2e]);
    assert!(build_legacy_cab2_replace_bulk(&parent, &[], &[0x2e, 0x01]).is_err());
}

#[test]
fn replace_fire_focus_on_l_then_ed08_on_l_plus_0x11() {
    let mut state = HelixState::new();
    state.counters.live_write_ctr = 0x6e7d;
    let l = cab2_replace_fire_focus(&mut state, 1, 0x02);
    assert_eq!(l, 0x6e7d);
    assert_eq!(&state.outbox[0].data[12..15], &[0x7d, 0x6e, 0x00]);
    assert_eq!(state.cab.cab_dual_cab2_focus_sent_for_slot, Some(1));
    let model = cab2_replace_fire_ed08(&mut state, l);
    assert_eq!(model, 0x6e8e);
    assert_eq!(state.counters.live_write_ctr, 0x6e8e);
    assert_eq!(&state.outbox[1].data[12..14], &[0x8e, 0x6e]);
}

#[test]
fn replace_bulk_is_first_accepted_head() {
    let packs = vec![vec![0x1d, 0x00], vec![0x27; 20], vec![0x23; 20]];
    let bulk = find_cab2_replace_bulk(&packs).expect("bulk");
    assert_eq!(bulk[0], 0x27);
    assert_eq!(&bulk[14..16], &[0x00, 0x00]);
    assert!(find_cab2_replace_bulk(&vec![vec![0x19u8; 4]]).is_err());
}
