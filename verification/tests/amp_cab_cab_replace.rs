use hxlinux::amp_cab_cab_replace::{
    amp_cab_cab_replace_focus, amp_cab_replace_bulk_implies_legacy, finalize_amp_cab_replace_bulk,
    reframe_legacy_replace_cd07_to_cd03,
};
use hxlinux::state::HelixState;

#[test]
fn legacy_replace_reframes_cd07_to_cd03() {
    let mut bulk = vec![
        0x23, 0x00, 0x00, 0x18, 0x80, 0x10, 0xed, 0x03, 0x00, 0x39, 0x00, 0x04, 0xbd, 0x6c,
        0x02, 0x00, 0x01, 0x00, 0x06, 0x00, 0x13, 0x00, 0x00, 0x00, 0x83, 0x66, 0xcd, 0x07,
        0xfb, 0x64, 0x28, 0x65, 0x82, 0x62, 0x01, 0x64, 0x83, 0x17, 0xc3, 0x19, 0x2c, 0x1a,
        0x47, 0x00,
    ];
    reframe_legacy_replace_cd07_to_cd03(&mut bulk);
    assert_eq!(&bulk[24..28], &[0x83, 0x66, 0xcd, 0x03]);
}

#[test]
fn legacy_bulk_head_23_implies_legacy_path() {
    assert!(amp_cab_replace_bulk_implies_legacy(&[0x23, 0x00]));
    assert!(!amp_cab_replace_bulk_implies_legacy(&[0x25, 0x00]));
    assert!(!amp_cab_replace_bulk_implies_legacy(&[0x27, 0x00]));
    assert!(!amp_cab_replace_bulk_implies_legacy(&[]));
}

#[test]
fn finalize_keeps_assign_heads() {
    let mut a = vec![0x27u8; 20];
    finalize_amp_cab_replace_bulk(&mut a);
    assert_eq!(a, vec![0x27u8; 20]);
    let mut b = vec![0x1bu8; 20];
    finalize_amp_cab_replace_bulk(&mut b);
    assert_eq!(&b[14..16], &[0x00, 0x00]);
}

#[test]
fn replace_focus_is_cab_tab_on_lane_l() {
    let mut state = HelixState::new();
    state.counters.live_write_ctr = 0x1c82;
    let l = amp_cab_cab_replace_focus(&mut state, 4, 0x05);
    assert_eq!(l, 0x1c82);
    let f = &state.outbox[0].data;
    assert_eq!(&f[12..15], &[0x82, 0x1c, 0x00]);
    assert_eq!(f[27], 0x03);
    assert_eq!(f[36], 0x01);
    assert_eq!(state.cab.amp_cab_cab_focus_sent_for_slot, Some(4));
}
