use hxlinux::amp_cab_live_write::{
    amp_cab_focus_lane_tags, build_amp_cab_amp_focus_packet, build_amp_cab_ir_cab_focus_packet,
    build_amp_cab_legacy_param_model_block, build_legacy_hybrid_23_packet,
    build_standalone_legacy_23_packet, build_standalone_legacy_57_packet, bulk_is_dual_legacy_wire,
    legacy_cab_wire_pair, legacy_mark_byte_after_1a, patch_amp_cab_tab_focus_lane_tag,
    record_amp_cab_assign_session, resolve_cab_live_write_route,
    resolve_standalone_legacy_cab_live_write_route,
    resolve_standalone_legacy_cab_live_write_route_from_probe,
    standalone_legacy_57_model_prefix, standalone_legacy_assign_is_one_byte_hint,
    standalone_legacy_assign_uses_cd03ff,
};
use hxlinux::state::HelixState;
use hxlinux::amp_cab_live_write::{build_dual_legacy_minimal_param_packets, build_standalone_legacy_minimal_param_packets};
use hxlinux::cab_dual_live_write::resolve_cab_dual_live_write_route;
#[test]
fn record_assign_session_reads_cd07_lane_tag() {
    let mut state = HelixState::new();
    let bulk = [
        0x23, 0x00, 0x00, 0x18, 0x80, 0x10, 0xed, 0x03, 0x00, 0x33, 0x00, 0x04, 0xd1, 0xa7,
        0x02, 0x00, 0x01, 0x00, 0x06, 0x00, 0x13, 0x00, 0x00, 0x00, 0x83, 0x66, 0xcd, 0x07,
        0xfb, 0x64, 0x28, 0x65, 0x82, 0x62, 0x01, 0x64, 0x83, 0x17, 0xc3, 0x19, 0x2c, 0x1a,
        0x47, 0x00,
    ];
    record_amp_cab_assign_session(&mut state, 0, &bulk);
    assert_eq!(
        amp_cab_focus_lane_tags(&state, 0),
        Some((0xfb, 0xfb))
    );
}

#[test]
fn ir_cab_level_is_sel_00_pp_03() {
    let state = HelixState::new();
    let route = resolve_cab_live_write_route(&state, 0, "amp+cab", 3, Some(12)).expect("route");
    assert_eq!(route.pp, 0x03);
    assert_eq!(route.param_selector, 0x00);
    assert_eq!(route.model_block[3], 0x03);
    assert_eq!(&route.model_block[11..16], &[0x1d, 0xc3, 0x1a, 0x01, 0x1c]);
}

#[test]
fn amp_cab_tab_focus_cab_uses_1d_cd03_1a01() {
    let mut state = HelixState::new();
    let pkt = build_amp_cab_ir_cab_focus_packet(&mut state, 0x01);
    assert_eq!(pkt.first(), Some(&0x1d));
    assert_eq!(&pkt[24..28], &[0x83, 0x66, 0xcd, 0x03]);
    assert_eq!(pkt[35], 0x1a);
    assert_eq!(pkt[36], 0x01);
}

#[test]
fn amp_cab_tab_focus_amp_uses_1d_cd03_1a00() {
    let mut state = HelixState::new();
    let pkt = build_amp_cab_amp_focus_packet(&mut state, 0x01);
    assert_eq!(pkt.first(), Some(&0x1d));
    assert_eq!(&pkt[24..28], &[0x83, 0x66, 0xcd, 0x03]);
    assert_eq!(pkt[35], 0x1a);
    assert_eq!(pkt[36], 0x00);
}

#[test]
fn legacy_guitar_cab_level_is_sel_25_tag_05() {
    let pair = legacy_cab_wire_pair(0, 21).expect("route");
    assert_eq!(pair, (0x25, 0x05));
}

#[test]
fn standalone_legacy_param0_is_sel_00_byte4() {
    let state = HelixState::new();
    let route =
        resolve_standalone_legacy_cab_live_write_route(&state, 0, 3).expect("route");
    assert_eq!(route.pp, 0x04);
    assert_eq!(route.param_selector, 0x00);
    assert_eq!(route.model_block[4], 0x00);
    assert_eq!(&route.model_block[14..16], &[0xc2, 0x19]);
}

#[test]
fn standalone_legacy_23_packet_matches_capture_tail() {
    let assign = [
        0x83, 0x66, 0xcd, 0x04, 0x00, 0x64, 0x28, 0x65, 0x82, 0x62, 0x01, 0x64, 0x83, 0x17,
        0xc2, 0x19,
    ];
    let p = build_standalone_legacy_23_packet(0x48, 0x6f0a, assign, &[0x34], 0xff);
    assert_eq!(p.len(), 44);
    assert_eq!(
        &p[24..44],
        &[
            0x83, 0x66, 0xcd, 0x04, 0x00, 0x64, 0x28, 0x65, 0x82, 0x62, 0x01, 0x64, 0x83, 0x17,
            0xc2, 0x19, 0x34, 0x1a, 0xff, 0x00,
        ]
    );
}

#[test]
fn standalone_legacy_soup_pro_57_tail_matches_capture() {
    let assign = [
        0x83, 0x66, 0xcd, 0x03, 0xff, 0x64, 0x28, 0x65, 0x82, 0x62, 0x01, 0x64, 0x83, 0x17,
        0xc2, 0x19,
    ];
    let prefix = standalone_legacy_57_model_prefix(assign, 0x00, 0x01);
    let p = build_standalone_legacy_57_packet(
        0x98,
        0x0401,
        &prefix,
        &[0x33],
        0xff,
        0x40200000u32.to_be_bytes(),
        0x33,
    );
    assert_eq!(p.len(), 98);
    assert_eq!(
        &p[p.len() - 10..],
        &[0x06, 0x0c, 0x83, 0x02, 0x00, 0x03, 0x00, 0x04, 0x90, 0x00]
    );
}

#[test]
fn standalone_legacy_probe_route_uses_assign_block_not_ir_static() {
    let mut state = HelixState::new();
    state.cab.standalone_legacy_assign_model_block_by_slot.push((
        0,
        [
            0x83, 0x66, 0xcd, 0x03, 0xff, 0x64, 0x28, 0x65, 0x82, 0x62, 0x01, 0x64, 0x83,
            0x17, 0xc2, 0x19,
        ],
    ));
    let route =
        resolve_standalone_legacy_cab_live_write_route_from_probe(&state, 0, 0).expect("route");
    assert_eq!(route.pp_source, "legacy_cab:assign_probe");
    assert_eq!(route.pp, 0x03);
    assert_eq!(route.param_selector, 0x00);
    assert_eq!(route.model_block[14], 0xc2);
    assert_eq!(route.model_block[15], 0x19);
    assert_eq!(route.model_block[10], 0x01);
}

#[test]
fn standalone_legacy_soup_pro_57_keeps_cd03ff() {
    let assign = [
        0x83, 0x66, 0xcd, 0x03, 0xff, 0x64, 0x28, 0x65, 0x82, 0x62, 0x01, 0x64, 0x83, 0x17,
        0xc2, 0x19,
    ];
    assert!(standalone_legacy_assign_uses_cd03ff(assign));
    let prefix = standalone_legacy_57_model_prefix(assign, 0x00, 0x01);
    assert_eq!(&prefix[0..5], &[0x83, 0x66, 0xcd, 0x03, 0xff]);
}

#[test]
fn standalone_legacy_one_byte_hint_detects_compact_cab() {
    let bulk = [0xc2, 0x19, 0x33, 0x1a];
    assert!(standalone_legacy_assign_is_one_byte_hint(&bulk));
    assert!(standalone_legacy_assign_is_one_byte_hint(&[0x33]));
}

#[test]
fn standalone_legacy_one_byte_hint_rejects_mic_ir_modern() {
    let bulk = [0xc2, 0x19, 0xcd, 0x03, 0x1b, 0x1a];
    assert!(!standalone_legacy_assign_is_one_byte_hint(&bulk));
    assert!(!standalone_legacy_assign_is_one_byte_hint(&[0xcd, 0x03, 0x1b]));
}

#[test]
fn dual_legacy_wire_detects_short_c319_hints() {
    let ir_dual = [
        0x83u8, 0x18, 0x83, 0x17, 0xc3, 0x19, 0xcd, 0x03, 0x1c, 0x1a, 0xcd, 0x02, 0xd6,
    ];
    let legacy_dual = [
        0x64, 0x83, 0x17, 0xc3, 0x19, 0x33, 0x1a, 0x30, 0x00,
    ];
    assert!(!bulk_is_dual_legacy_wire(&ir_dual));
    assert!(bulk_is_dual_legacy_wire(&legacy_dual));
}

#[test]
fn dual_legacy_23_packet_matches_capture_tail() {
    let model = build_amp_cab_legacy_param_model_block(0x04, 0x2b, 0x01);
    let p = build_legacy_hybrid_23_packet(0x48, 0x6e31, model, &[0x33], 0x30);
    assert_eq!(p.len(), 44);
    assert_eq!(
        &p[24..44],
        &[
            0x83, 0x66, 0xcd, 0x04, 0x2b, 0x64, 0x28, 0x65, 0x82, 0x62, 0x01, 0x64, 0x83,
            0x17, 0xc3, 0x19, 0x33, 0x1a, 0x30, 0x00,
        ]
    );
}

#[test]
fn legacy_mark_single_is_ff_dual_is_peer_hint() {
    let mut state = HelixState::new();
    state
        .cab.dual_legacy_cab_module_field_by_slot
        .push(((0, 0), vec![0x34]));
    state
        .cab.dual_legacy_cab_module_field_by_slot
        .push(((0, 1), vec![0x30]));
    assert_eq!(legacy_mark_byte_after_1a(&state, 0, None).expect("single"), 0xff);
    assert_eq!(
        legacy_mark_byte_after_1a(&state, 0, Some(0)).expect("cab1"),
        0x30
    );
    assert_eq!(
        legacy_mark_byte_after_1a(&state, 0, Some(1)).expect("cab2"),
        0x34
    );
}

#[test]
fn cab_replace_session_keeps_amp_tag() {
    let mut state = HelixState::new();
    let assign = [0x00u8, 0x00, 0x83, 0x66, 0xcd, 0x07, 0xfb, 0x64, 0x00, 0x00];
    record_amp_cab_assign_session(&mut state, 2, &assign);
    let replace = [0x00u8, 0x83, 0x66, 0xcd, 0x03, 0xf9, 0x64, 0x00, 0x00, 0x00];
    hxlinux::amp_cab_live_write::record_amp_cab_cab_replace_session(&mut state, 2, &replace);
    assert_eq!(amp_cab_focus_lane_tags(&state, 2), Some((0xfb, 0xf9)));
    assert_eq!(amp_cab_focus_lane_tags(&state, 1), None);
}

#[test]
fn focus_lane_tag_patch_targets_cd03() {
    let mut state = HelixState::new();
    state.counters.live_write_yy = 0xfe;
    let mut pkt = build_amp_cab_amp_focus_packet(&mut state, 0x01);
    patch_amp_cab_tab_focus_lane_tag(&mut pkt, 0xfb);
    assert_eq!(pkt[28], 0xfb);
    assert_eq!(pkt[36], 0x00);
}

#[test]
fn legacy_variant_route_uses_lane_08() {
    let state = HelixState::new();
    let route = resolve_cab_live_write_route(&state, 0, "AMP+CAB-Legacy", 3, Some(12)).expect("route");
    assert_eq!(route.pp, 0x08);
    assert_eq!(route.param_selector, 0x25);
    assert_eq!(route.model_block[4], 0x05);
    assert!(resolve_cab_live_write_route(&state, 7, "amp+cab-legacy", 3, Some(12)).is_none());
    assert!(resolve_cab_live_write_route(&state, 0, "amp+cab", 16, None).is_none());
}

fn legacy_value(norm: f32, lo: f64, hi: f64) -> hxlinux::amp_cab_live_write::LegacyLiveValue {
    let leg_b = (lo + f64::from(norm) * (hi - lo)) as f32;
    hxlinux::amp_cab_live_write::LegacyLiveValue {
        float_be: leg_b.to_bits().to_be_bytes(),
        range_steps: Some(((hi - lo).round() as u8) + 1),
    }
}

#[test]
fn standalone_legacy_cd03ff_uses_async_commit_not_minimal_burst() {
    let mut state = HelixState::new();
    state.cab.standalone_legacy_cab_module_field_by_slot.insert(0, (0, vec![0x33]));
    state.cab.standalone_legacy_assign_model_block_by_slot.insert(
        0,
        (
            0,
            [
                0x83, 0x66, 0xcd, 0x03, 0xff, 0x64, 0x28, 0x65, 0x82, 0x62, 0x01, 0x64, 0x83, 0x17, 0xc2,
                0x19,
            ],
        ),
    );
    let route = resolve_standalone_legacy_cab_live_write_route(&state, 0, 0).expect("route");
    let cfg = hxlinux::live_write_config::HelixLiveWriteCfg::defaults();
    let err = build_standalone_legacy_minimal_param_packets(
        &mut state,
        &cfg,
        &legacy_value(13.0 / 15.0, 0.0, 15.0),
        0,
        Some("mic"),
        Some(0),
        &route,
    )
    .err()
    .expect("cd03ff ne doit pas passer par minimal burst");
    assert!(err.contains("legacy_cab_param_commit"));
}

#[test]
fn standalone_legacy_minimal_needs_cab_hint() {
    let mut state = HelixState::new();
    let route = resolve_standalone_legacy_cab_live_write_route(&state, 0, 0).expect("route");
    let cfg = hxlinux::live_write_config::HelixLiveWriteCfg::defaults();
    let err = build_standalone_legacy_minimal_param_packets(
        &mut state,
        &cfg,
        &legacy_value(0.5, 0.0, 15.0),
        0,
        Some("mic"),
        Some(0),
        &route,
    )
    .err()
    .expect("hint cab");
    assert!(err.contains("hint cab"));
}

#[test]
fn dual_legacy_minimal_needs_cab_hint() {
    let state = HelixState::new();
    let route = resolve_cab_dual_live_write_route(&state, 1, 0, 0).expect("route");
    let mut state = HelixState::new();
    let cfg = hxlinux::live_write_config::HelixLiveWriteCfg::defaults();
    let err = build_dual_legacy_minimal_param_packets(
        &mut state,
        &cfg,
        &legacy_value(0.5, 0.0, 15.0),
        0,
        1,
        Some("mic"),
        Some(0),
        &route,
    )
    .err()
    .expect("hint");
    assert!(err.contains("hint cab"));
    assert_eq!(err, "Cab dual legacy cab2 : hint cab inconnu (assign dual legacy requis avant write param)");
}

#[test]
fn standalone_legacy_minimal_burst_is_ed08_23_then_57() {
    let mut state = HelixState::new();
    state.cab.standalone_legacy_cab_module_field_by_slot.insert(0, (0, vec![0x33]));
    state.cab.standalone_legacy_assign_model_block_by_slot.insert(
        0,
        (
            0,
            [
                0x83, 0x66, 0xcd, 0x04, 0x00, 0x64, 0x28, 0x65, 0x82, 0x62, 0x01, 0x64, 0x83, 0x17, 0xc2,
                0x19,
            ],
        ),
    );
    let route = resolve_standalone_legacy_cab_live_write_route(&state, 0, 0).expect("route");
    let cfg = hxlinux::live_write_config::HelixLiveWriteCfg::defaults();
    let w = build_standalone_legacy_minimal_param_packets(
        &mut state,
        &cfg,
        &legacy_value(13.0 / 15.0, 0.0, 15.0),
        0,
        Some("mic"),
        Some(0),
        &route,
    )
    .expect("burst");
    assert_eq!(w.packets.len(), 3);
    assert_eq!(&w.packets[0][..12], &[0x08, 0x00, 0x00, 0x18, 0x80, 0x10, 0xed, 0x03, 0x00, 0x02, 0x00, 0x08]);
    assert_eq!(&w.packets[0][12..14], &[0xbd, 0x6c]);
    assert_eq!(w.packets[1][0], 0x23);
    assert_eq!(w.packets[1][9], 0x03);
    assert_eq!(w.packets[2][0], 0x57);
    assert_eq!(w.packets[2][9], 0x04);
    assert_eq!(&w.packets[2][12..14], &[0xdc, 0x6c]);
    assert_eq!(w.primary_opcode, 0x57);
    assert_eq!(w.slot_bus, 0x01);
    assert_eq!(state.counters.x80_cnt, 5);
    assert_eq!(state.counters.live_write_ctr, 0x6cfb);
    assert_eq!(state.counters.live_write_yy, 0x19);
}
