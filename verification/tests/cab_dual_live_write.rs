use hxlinux::cab_dual_live_write::{
    build_cab_dual_cab2_focus_packet, build_cab_dual_cab2_focus_packet_with_lane,
    build_cab_dual_cab2_focus_packet_with_source, build_cab_dual_cab2_tab_focus_packet_with_lane,
    cab_dual_ed08_ctr_for_handshake, cab_dual_ed08_ctr_from_focus, cab_dual_ed08_ctr_from_in36,
    cab_dual_in36_uses_cd04_lane, resolve_cab_dual_live_write_route, Cab2FocusLane,
};
use hxlinux::state::HelixState;
#[test]
fn cab2_level_uses_pp_04_and_offset_selector() {
    let state = HelixState::new();
    let route = resolve_cab_dual_live_write_route(&state, 1, 5, 3).expect("route");
    assert_eq!(route.pp, 0x04);
    assert_eq!(route.param_selector, 0x05);
    assert_eq!(route.model_block[3], 0x04);
}

#[test]
fn cab2_focus_default_editor_lane() {
    let mut state = HelixState::new();
    state.lanes.editor_ed03_lane = 0x2f55; // valeur observée côté Linux
    state.lanes.editor_ed03_lane_b14 = 0x00;
    let pkt = build_cab_dual_cab2_focus_packet(&mut state, 1);
    assert_eq!(pkt[0], 0x1d);
    assert_eq!(pkt.len(), 40);
    assert_eq!(pkt[11], 0x04);
    assert_eq!(pkt[12..15], [0x55, 0x2f, 0x00], "lane editor");
}

#[test]
fn cab2_focus_session_quadruple_temoin() {
    let mut state = HelixState::new();
    state.counters.session_quadruple = [0x05, 0x1f, 0x00, 0x00];
    let pkt = build_cab_dual_cab2_focus_packet_with_lane(
        &mut state,
        1,
        Cab2FocusLane::SessionQuadruple,
        0x04,
    );
    assert_eq!(pkt[12..15], [0x05, 0x1f, 0x00]);
    assert_eq!(cab_dual_ed08_ctr_from_focus(&pkt), Some(0x1f16));
}

#[test]
fn cab2_focus_editor_temoin_form() {
    let mut state = HelixState::new();
    state.lanes.editor_ed03_lane = 0x8a14;
    state.lanes.editor_ed03_lane_b14 = 0x1c;
    let pkt =
        build_cab_dual_cab2_focus_packet_with_lane(&mut state, 1, Cab2FocusLane::Editor, 0x04);
    assert_eq!(pkt[12..15], [0x14, 0x8a, 0x1c]);
}

#[test]
fn cab2_focus_keepalive_temoin_form() {
    let mut state = HelixState::new();
    let pkt =
        build_cab_dual_cab2_focus_packet_with_lane(&mut state, 1, Cab2FocusLane::Keepalive, 0x14);
    assert_eq!(pkt[11], 0x14);
    assert_eq!(pkt[12..15], [0x7e, 0x1c, 0x00]);
    assert_eq!(cab_dual_ed08_ctr_from_focus(&pkt), Some(0x1c8f));
}

#[test]
fn cab2_focus_packet_embeds_live_write_ctr_for_ed08() {
    let mut state = HelixState::new();
    state.counters.live_write_ctr = 0x0370;
    let pkt = build_cab_dual_cab2_focus_packet_with_source(&mut state, 1, false);
    assert_eq!(pkt[11], 0x04);
    assert_eq!(pkt[12..15], [0x5f, 0x03, 0x00]);
    assert_eq!(cab_dual_ed08_ctr_from_focus(&pkt), Some(0x0370));
}

#[test]
fn cab2_replace_focus_packet_uses_cd04_and_cab2_suffix() {
    let mut state = HelixState::new();
    let pkt = build_cab_dual_cab2_focus_packet_with_source(&mut state, 3, false);
    assert_eq!(pkt[0], 0x1d);
    assert_eq!(pkt.len(), 40);
    assert_eq!(pkt[24], 0x83);
    assert_eq!(pkt[27], 0x04);
    assert_eq!(pkt[34], 0x03);
    assert_eq!(pkt[35], 0x1a);
    assert_eq!(pkt[36], 0x01);
}

#[test]
fn cab1_tab_focus_matches_hx_cab2_cab1_change_capture() {
    let focus = [
        0x1d, 0x00, 0x00, 0x18, 0x80, 0x10, 0xed, 0x03, 0x00, 0x26, 0x00, 0x04, 0x82, 0x1c,
        0x00, 0x00, 0x01, 0x00, 0x06, 0x00, 0x0d, 0x00, 0x00, 0x00, 0x83, 0x66, 0xcd, 0x03,
        0xf2, 0x64, 0x4e, 0x65, 0x82, 0x62, 0x01, 0x1a, 0x00, 0x00, 0x00, 0x00,
    ];
    assert_eq!(focus[27], 0x03);
    assert_eq!(focus[36], 0x00);
    assert_eq!(cab_dual_ed08_ctr_from_focus(&focus), Some(0x1c93));
}

#[test]
fn cab2_tab_focus_matches_hx_cab2_cab1_change_capture() {
    let focus = [
        0x1d, 0x00, 0x00, 0x18, 0x80, 0x10, 0xed, 0x03, 0x00, 0x22, 0x00, 0x04, 0x71, 0x1c,
        0x00, 0x00, 0x01, 0x00, 0x06, 0x00, 0x0d, 0x00, 0x00, 0x00, 0x83, 0x66, 0xcd, 0x03,
        0xf1, 0x64, 0x4e, 0x65, 0x82, 0x62, 0x01, 0x1a, 0x01, 0x00, 0x00, 0x00,
    ];
    assert_eq!(focus[27], 0x03);
    assert_eq!(focus[36], 0x01);
    assert_eq!(cab_dual_ed08_ctr_from_focus(&focus), Some(0x1c82));
    let mut state = HelixState::new();
    state.counters.live_write_ctr = 0x1c82;
    state.counters.live_write_yy = 0xf1;
    let pkt = build_cab_dual_cab2_tab_focus_packet_with_lane(
        &mut state,
        1,
        Cab2FocusLane::LiveWrite,
        0x04,
    );
    assert_eq!(pkt[27], 0x03);
    assert_eq!(pkt[36], 0x01);
    assert_eq!(pkt[12..15], [0x71, 0x1c, 0x00]);
}

#[test]
fn cab2_focus_editor_lane_form_matches_hx_soup_pro() {
    let mut state = HelixState::new();
    state.lanes.editor_ed03_lane = 0x8a14; // LE(0x14, 0x8a)
    state.lanes.editor_ed03_lane_b14 = 0x1c;
    let pkt = build_cab_dual_cab2_focus_packet_with_source(&mut state, 1, true);
    assert_eq!(pkt[12..15], [0x14, 0x8a, 0x1c]);
    assert_eq!(cab_dual_ed08_ctr_from_focus(&pkt), Some(0x1c9b));
}

#[test]
fn ed08_ctr_from_in36_cd04_lane_linux_capture() {
    let in36 = [
        0x19, 0x00, 0x00, 0x18, 0xed, 0x03, 0x80, 0x10, 0x00, 0x46, 0x00, 0x04, 0x5f, 0x03,
        0x00, 0x00, 0x00, 0x00, 0x06, 0x00, 0x09, 0x00, 0x00, 0x00, 0x83, 0x66, 0xcd, 0x04,
        0x18, 0x67, 0x00, 0x68, 0xc0, 0x0d, 0x01, 0x18,
    ];
    assert!(cab_dual_in36_uses_cd04_lane(&in36));
    assert_eq!(cab_dual_ed08_ctr_from_in36(&in36), Some(0x0370));
}

#[test]
fn ed08_ctr_matches_hx_cab_dual_change_right_focus() {
    let focus = [
        0x1d, 0x00, 0x00, 0x18, 0x80, 0x10, 0xed, 0x03, 0x00, 0x99, 0x00, 0x04, 0x7d, 0x6e,
        0x00, 0x01, 0x00, 0x06, 0x00, 0x0d, 0x00, 0x00, 0x00, 0x83, 0x66, 0xcd, 0x04, 0x59,
        0x64, 0x4e, 0x65, 0x82, 0x62, 0x01, 0x1a, 0x01, 0x00, 0x00, 0x00,
    ];
    assert_eq!(cab_dual_ed08_ctr_from_focus(&focus), Some(0x6e8e));
}

#[test]
fn handshake_uses_focus_keepalive_not_in36() {
    let focus = [
        0x1d, 0x00, 0x00, 0x18, 0x80, 0x10, 0xed, 0x03, 0x00, 0x4f, 0x00, 0x14, 0x7e, 0x1c,
        0x00, 0x00, 0x01, 0x00, 0x06, 0x00, 0x0d, 0x00, 0x00, 0x00, 0x83, 0x66, 0xcd, 0x04,
        0x18, 0x64, 0x4e, 0x65, 0x82, 0x62, 0x01, 0x1a, 0x01, 0x00, 0x00, 0x00,
    ];
    let in36 = [
        0x19, 0x00, 0x00, 0x18, 0xed, 0x03, 0x80, 0x10, 0x00, 0x46, 0x00, 0x04, 0x5f, 0x03,
        0x00, 0x00, 0x00, 0x00, 0x06, 0x00, 0x09, 0x00, 0x00, 0x00, 0x83, 0x66, 0xcd, 0x04,
        0x18, 0x67, 0x00, 0x68, 0xc0, 0x0d, 0x01, 0x18,
    ];
    assert_eq!(cab_dual_ed08_ctr_for_handshake(&focus, &in36), 0x1c8f);
}

#[test]
fn cab1_mic_is_pp_03_sel_00() {
    let state = HelixState::new();
    let route = resolve_cab_dual_live_write_route(&state, 0, 0, 3).expect("route");
    assert_eq!(route.pp, 0x03);
    assert_eq!(route.param_selector, 0x00);
}

#[test]
fn cab1_focus_and_poke_queues_focus_then_f0() {
    let mut state = HelixState::new();
    state.cab.cab_dual_cab2_focus_sent_for_slot = Some(2);
    hxlinux::cab_dual_live_write::send_cab_dual_cab1_focus_and_poke(&mut state, 2, 0x03);
    assert_eq!(state.outbox.len(), 2);
    assert_eq!(state.outbox[0].data[27], 0x03);
    assert_eq!(state.outbox[0].data[36], 0x00);
    assert_eq!(&state.outbox[1].data[4..8], &[0x02, 0x10, 0xf0, 0x03]);
    assert_eq!(state.cab.cab_dual_cab2_focus_sent_for_slot, None);
}

#[test]
fn cab2_focus_takes_lane_from_in36() {
    let mut state = HelixState::new();
    let in36 = [
        0x19, 0x00, 0x00, 0x18, 0xed, 0x03, 0x80, 0x10, 0x00, 0x46, 0x00, 0x04, 0x5f, 0x03,
        0x00, 0x00, 0x00, 0x00, 0x06, 0x00, 0x09, 0x00, 0x00, 0x00, 0x83, 0x66, 0xcd, 0x04,
        0x18, 0x67, 0x00, 0x68, 0xc0, 0x0d, 0x01, 0x18,
    ];
    hxlinux::cab_dual_live_write::ingest_cab_dual_cab2_in36(&mut state, &in36);
    assert_eq!(state.cab.cab_dual_cab2_last_in36_ed08_ctr, Some(0x0370));
    state.cab.cab2_focus_lane = Cab2FocusLane::LiveWrite;
    hxlinux::cab_dual_live_write::send_cab_dual_cab2_focus(&mut state, 4, 0x05);
    assert_eq!(state.counters.live_write_ctr, 0x0370);
    assert_eq!(state.outbox.len(), 1);
    assert_eq!(&state.outbox[0].data[12..15], &[0x5f, 0x03, 0x00]);
    assert_eq!(state.cab.cab_dual_cab2_focus_sent_for_slot, Some(4));
}
