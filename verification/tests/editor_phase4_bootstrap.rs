use hxlinux::editor_phase4_bootstrap::{
    is_phase4_bootstrap_trailer_in, LANE_DELTA_E8_TO_E9, LANE_DELTA_E9_TO_EA, LANE_DELTA_EA_TO_EB,
};
use hxlinux::state::HelixState;
#[test]
fn phase4_trailer_7a_132() {
    let mut b = vec![0u8; 132];
    b[0] = 0x7a;
    b[1] = 0x00;
    b[2] = 0x00;
    b[3] = 0x18;
    b[4] = 0xed;
    b[5] = 0x03;
    b[6] = 0x80;
    b[7] = 0x10;
    assert!(is_phase4_bootstrap_trailer_in(&b));
    b[0] = 0x08;
    assert!(!is_phase4_bootstrap_trailer_in(&b));
}

#[test]
fn phase4_trailer_6a_116() {
    let mut b = vec![0u8; 116];
    b[0] = 0x6a;
    b[1] = 0x00;
    b[2] = 0x00;
    b[3] = 0x18;
    b[4] = 0xed;
    b[5] = 0x03;
    b[6] = 0x80;
    b[7] = 0x10;
    assert!(is_phase4_bootstrap_trailer_in(&b));
}

#[test]
fn lane_progression_before_dump() {
    let mut s = HelixState::new();
    s.reset_editor_ed03_lane();
    assert_eq!(s.editor_ed03_lane_bytes(), [0x09, 0x10]); // e8
    let _ = s.advance_editor_ed03_lane_lo(LANE_DELTA_E8_TO_E9);
    assert_eq!(s.editor_ed03_lane_bytes(), [0x55, 0x10]); // e9
    let _ = s.advance_editor_ed03_lane_lo(LANE_DELTA_E9_TO_EA);
    assert_eq!(s.editor_ed03_lane_bytes(), [0x6c, 0x10]); // ea
    let _ = s.advance_editor_ed03_lane_lo(LANE_DELTA_EA_TO_EB);
    assert_eq!(s.editor_ed03_lane_bytes(), [0x9d, 0x10]); // eb (lo figé ensuite)
}
