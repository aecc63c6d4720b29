use hxlinux::ed03_lane::{build_ed08_short, force_ed03_ctr};
use hxlinux::state::HelixState;

#[test]
fn ed08_short_carries_ctr_on_bytes_12_13() {
    let mut s = HelixState::new();
    let ed08 = build_ed08_short(&mut s, 0x6e8e);
    assert_eq!(ed08[0], 0x08);
    assert_eq!(&ed08[4..8], &[0x80, 0x10, 0xed, 0x03]);
    assert_eq!(ed08[11], 0x08);
    assert_eq!(ed08[12], 0x8e);
    assert_eq!(ed08[13], 0x6e);
}

#[test]
fn force_ctr_sets_bytes_12_14() {
    let mut pkt = vec![0u8; 40];
    force_ed03_ctr(&mut pkt, 0x6e7d);
    assert_eq!(pkt[12], 0x7d);
    assert_eq!(pkt[13], 0x6e);
    assert_eq!(pkt[14], 0x00);
}

#[test]
fn force_ctr_leaves_short_packets() {
    let mut pkt = vec![0x11u8; 14];
    force_ed03_ctr(&mut pkt, 0x6e7d);
    assert_eq!(pkt, vec![0x11u8; 14]);
}

#[test]
fn lane_model_focus_l_ed08_bulk_l_plus_0x11() {
    let l = 0x6e7du16;
    assert_eq!(l.wrapping_add(0x11), 0x6e8e);
}
