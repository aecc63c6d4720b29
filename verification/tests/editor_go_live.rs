use hxlinux::editor_go_live::{build_go_live_19, build_go_live_1b, send_if_enabled};
use hxlinux::state::HelixState;
#[test]
fn packets_have_expected_structure() {
    let mut s = HelixState::new();
    let p1 = build_go_live_19(&mut s, 0xbe, 0x1d);
    assert_eq!(p1.len(), 36);
    assert_eq!(&p1[0..8], &[0x19, 0x00, 0x00, 0x18, 0x01, 0x10, 0xef, 0x03]);
    assert_eq!(&p1[10..12], &[0x00, 0x0c]);
    assert_eq!(&p1[12..14], &[0xbe, 0x1d]);
    assert_eq!(&p1[24..28], &[0x83, 0x66, 0xcd, 0x03]);
    assert_eq!(p1[29], 0x64);
    assert_eq!(&p1[30..36], &[0x70, 0x65, 0xc0, 0x00, 0x00, 0x00]);

    let p2 = build_go_live_1b(&mut s, 0xcf, 0x1d);
    assert_eq!(p2.len(), 36);
    assert_eq!(p2[0], 0x1b);
    assert_eq!(&p2[12..14], &[0xcf, 0x1d]);
    assert_eq!(&p2[30..36], &[0x0d, 0x65, 0x81, 0x65, 0x02, 0x00]);
}

#[test]
fn disabled_by_default_no_send() {
    let mut s = HelixState::new();
    let lane_before = s.lanes.editor_ed03_lane;
    let sent = send_if_enabled(&mut s);
    assert!(!sent, "go-live ne doit rien envoyer sans HX_EDITOR_GO_LIVE");
    assert_eq!(s.lanes.editor_ed03_lane, lane_before);
}

#[test]
fn double_advances_eb_then_ec() {
    let mut s = HelixState::new();
    s.lanes.editor_ed03_double = 0x64ea;
    let p1 = build_go_live_19(&mut s, 0xbe, 0x1d);
    assert_eq!(&p1[28..30], &[0xeb, 0x64], "GO_LIVE #1 double = eb:64");
    let p2 = build_go_live_1b(&mut s, 0xcf, 0x1d);
    assert_eq!(&p2[28..30], &[0xec, 0x64], "GO_LIVE #2 double = ec:64");
}
