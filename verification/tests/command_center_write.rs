use hxlinux::command_center_write::{
    build_controller_color_write_packet, build_controller_create_real_param_write_packets,
    build_controller_delete_bypass_write_packet, build_controller_delete_real_param_write_packet,
    build_controller_name_write_packet, build_controller_source_and_confirm_write_packets,
    build_controller_min_max_write_packet, build_controller_type_write_packet,
};
use hxlinux::state::HelixState;
#[test]
fn builds_expected_bytes_for_delete_real_param() {
    let mut state = HelixState::new();
    state.counters.live_write_ctr = 0xa8b0;
    state.counters.live_write_yy = 0x27;
    let pkt = build_controller_delete_real_param_write_packet(&mut state, 0x01, 0x00);
    assert_eq!(pkt.len(), 48);
    assert_eq!(pkt[0], 0x28);
    assert_eq!(&pkt[12..14], &[0xb0, 0xa8]);
    assert_eq!(&pkt[24..32], &[0x83, 0x66, 0xcd, 0x04, 0x27, 0x64, 0x25, 0x65]);
    assert_eq!(
        &pkt[32..],
        &[0x87, 0x62, 0x01, 0x1d, 0xc3, 0x1a, 0x00, 0x1c, 0x00, 0x4a, 0x00, 0x47, 0x00, 0xcc, 0x81, 0xc2],
        "4a=0 (source None) et 47=0 = suppression"
    );
    assert_eq!(state.counters.live_write_ctr, 0xa8c1);
    assert_eq!(state.counters.live_write_yy, 0x28);
}

#[test]
fn builds_expected_bytes_for_delete_bypass() {
    let mut state = HelixState::new();
    state.counters.live_write_ctr = 0xa9c7;
    state.counters.live_write_yy = 0x2e;
    let pkt = build_controller_delete_bypass_write_packet(&mut state, 0x01, 5);
    assert_eq!(pkt.len(), 40);
    assert_eq!(pkt[0], 0x1d);
    assert_eq!(&pkt[10..14], &[0x00, 0x0c, 0xc7, 0xa9]);
    assert_eq!(&pkt[24..32], &[0x83, 0x66, 0xcd, 0x04, 0x2e, 0x64, 0x39, 0x65]);
    assert_eq!(&pkt[32..40], &[0x82, 0x62, 0x01, 0x66, 0x04, 0x00, 0x00, 0x00]);
    assert_eq!(state.counters.live_write_ctr, 0xa9d8);
    assert_eq!(state.counters.live_write_yy, 0x2f);
}

#[test]
fn builds_expected_bytes_for_footswitch1() {
    let mut state = HelixState::new();
    state.counters.live_write_ctr = 0x1f65;
    state.counters.live_write_yy = 0xf9;
    let (pkt, _confirm) = build_controller_source_and_confirm_write_packets(&mut state, 0x0b, 1);
    assert_eq!(pkt.len(), 40);
    assert_eq!(&pkt[0..8], &[0x1d, 0x00, 0x00, 0x18, 0x80, 0x10, 0xed, 0x03]);
    assert_eq!(&pkt[12..14], &[0x65, 0x1f]);
    assert_eq!(&pkt[24..30], &[0x83, 0x66, 0xcd, 0x03, 0xf9, 0x64]);
    assert_eq!(&pkt[30..32], &[0x38, 0x65]);
    assert_eq!(&pkt[32..40], &[0x82, 0x62, 0x0b, 0x66, 0x00, 0x00, 0x00, 0x00]);
}

#[test]
fn builds_expected_bytes_for_footswitch4() {
    let mut state = HelixState::new();
    state.counters.live_write_ctr = 0x206a;
    state.counters.live_write_yy = 0xff;
    let (pkt, _confirm) = build_controller_source_and_confirm_write_packets(&mut state, 0x0b, 4);
    assert_eq!(&pkt[12..14], &[0x6a, 0x20]);
    assert_eq!(&pkt[24..30], &[0x83, 0x66, 0xcd, 0x03, 0xff, 0x64]);
    assert_eq!(&pkt[32..40], &[0x82, 0x62, 0x0b, 0x66, 0x03, 0x00, 0x00, 0x00]);
}

#[test]
fn builds_expected_bytes_for_type_momentary_and_latching() {
    let mut state = HelixState::new();
    state.counters.live_write_ctr = 0x1e5f;
    state.counters.live_write_yy = 0xf4;
    let momentary_pkt = build_controller_type_write_packet(&mut state, true);
    assert_eq!(momentary_pkt.len(), 40);
    assert_eq!(&momentary_pkt[0..9], &[0x1d, 0x00, 0x00, 0x18, 0x80, 0x10, 0xed, 0x03, 0x00]);
    assert_eq!(&momentary_pkt[10..14], &[0x00, 0x04, 0x5f, 0x1e]);
    assert_eq!(&momentary_pkt[24..32], &[0x83, 0x66, 0xcd, 0x03, 0xf4, 0x64, 0x3a, 0x65]);
    assert_eq!(&momentary_pkt[32..40], &[0x82, 0x66, 0x00, 0x41, 0xc3, 0x00, 0x00, 0x00]);

    state.counters.live_write_ctr = 0x1e70;
    state.counters.live_write_yy = 0xf5;
    let latching_pkt = build_controller_type_write_packet(&mut state, false);
    assert_eq!(&latching_pkt[12..14], &[0x70, 0x1e]);
    assert_eq!(&latching_pkt[32..40], &[0x82, 0x66, 0x00, 0x41, 0xc2, 0x00, 0x00, 0x00]);
}

#[test]
fn builds_expected_bytes_for_color_white() {
    let mut state = HelixState::new();
    state.counters.live_write_ctr = 0x1f07;
    state.counters.live_write_yy = 0xfa;
    let pkt = build_controller_color_write_packet(&mut state, 1);
    assert_eq!(&pkt[12..14], &[0x07, 0x1f]);
    assert_eq!(&pkt[24..32], &[0x83, 0x66, 0xcd, 0x03, 0xfa, 0x64, 0x3d, 0x65]);
    assert_eq!(&pkt[32..40], &[0x82, 0x66, 0x00, 0x42, 0x01, 0x00, 0x00, 0x00]);
}

#[test]
fn builds_expected_bytes_for_name_toto() {
    let mut state = HelixState::new();
    state.counters.live_write_ctr = 0x2f79;
    state.counters.live_write_yy = 0x16;
    let pkt = build_controller_name_write_packet(&mut state, "toto");
    assert_eq!(pkt.len(), 44);
    assert_eq!(pkt[0], 0x22);
    assert_eq!(&pkt[12..14], &[0x79, 0x2f]);
    assert_eq!(pkt[20], 0x12);
    assert_eq!(&pkt[24..32], &[0x83, 0x66, 0xcd, 0x03, 0x16, 0x64, 0x3b, 0x65]);
    assert_eq!(
        &pkt[32..],
        &[0x82, 0x66, 0x00, 0x6d, 0xa5, b't', b'o', b't', b'o', 0x00, 0x00, 0x00]
    );
}

#[test]
fn name_write_scales_byte0_and_length_field_with_name_length() {
    let mut state = HelixState::new();
    let pkt = build_controller_name_write_packet(&mut state, "AB");
    assert_eq!(pkt[0], 0x20);
    assert_eq!(pkt[20], 0x10);
    assert_eq!(pkt.len(), 24 + 0x10 + 2);
    assert_eq!(&pkt[32..], &[0x82, 0x66, 0x00, 0x6d, 0xa3, b'A', b'B', 0x00, 0x00, 0x00]);
}

#[test]
fn builds_expected_bytes_for_create_real_param_drive_slot1_fs1() {
    let mut state = HelixState::new();
    state.counters.live_write_ctr = 0x6f97;
    state.counters.live_write_yy = 0x0a;
    let (create, link, confirm) =
        build_controller_create_real_param_write_packets(&mut state, 0x01, 0x00, 1);

    assert_eq!(create.len(), 48);
    assert_eq!(create[0], 0x28);
    assert_eq!(&create[12..14], &[0x97, 0x6f]);
    assert_eq!(&create[24..32], &[0x83, 0x66, 0xcd, 0x04, 0x0a, 0x64, 0x25, 0x65]);
    assert_eq!(
        &create[32..],
        &[0x87, 0x62, 0x01, 0x1d, 0xc3, 0x1a, 0x00, 0x1c, 0x00, 0x4a, 0x03, 0x47, 0x04, 0xcc, 0x81, 0xc2]
    );

    assert_eq!(link.len(), 44);
    assert_eq!(link[0], 0x21);
    assert_eq!(&link[12..14], &[0xc8, 0x6f], "ctr = create_ctr + 0x31");
    assert_eq!(&link[24..32], &[0x83, 0x66, 0xcd, 0x04, 0x0b, 0x64, 0x24, 0x65]);
    assert_eq!(&link[32..], &[0x84, 0x62, 0x01, 0x1d, 0xc3, 0x1a, 0x00, 0x1c, 0x00, 0x00, 0x00, 0x00]);

    assert_eq!(confirm.len(), 36);
    assert_eq!(confirm[0], 0x1b);
    assert_eq!(&confirm[12..14], &[0xf9, 0x6f], "ctr = link_ctr + 0x31");
    assert_eq!(&confirm[24..32], &[0x83, 0x66, 0xcd, 0x04, 0x0c, 0x64, 0x21, 0x65]);
    assert_eq!(&confirm[32..], &[0x81, 0x66, 0x01, 0x00], "N = footswitch_number brut = 1");
}

#[test]
fn builds_expected_bytes_for_create_real_param_level_slot2_fs2() {
    let mut state = HelixState::new();
    state.counters.live_write_ctr = 0x7048;
    state.counters.live_write_yy = 0x0e;
    let (create, link, confirm) =
        build_controller_create_real_param_write_packets(&mut state, 0x02, 0x05, 2);

    assert_eq!(
        &create[32..],
        &[0x87, 0x62, 0x02, 0x1d, 0xc3, 0x1a, 0x00, 0x1c, 0x05, 0x4a, 0x04, 0x47, 0x04, 0xcc, 0x81, 0xc2]
    );
    assert_eq!(&link[32..], &[0x84, 0x62, 0x02, 0x1d, 0xc3, 0x1a, 0x00, 0x1c, 0x05, 0x00, 0x00, 0x00]);
    assert_eq!(&confirm[32..], &[0x81, 0x66, 0x02, 0x00]);
}

#[test]
fn create_ordinal_and_confirm_n_follow_chosen_footswitch_not_bus_or_creation_order() {
    let mut state = HelixState::new();
    state.counters.live_write_ctr = 0x7cb4;
    state.counters.live_write_yy = 0x54;
    let (create, _link, confirm) =
        build_controller_create_real_param_write_packets(&mut state, 0x08, 0x00, 1);
    assert_eq!(create[34], 0x08, "bus du bloc contrôlé = slot8");
    assert_eq!(create[42], 0x03, "4a = FS1+2 = 3, PAS lié au bus (8) ni à l'ordre (1er)");
    assert_eq!(confirm[34], 0x01, "N = FS1 brut");

    let mut state2 = HelixState::new();
    state2.counters.live_write_ctr = 0x7d65;
    state2.counters.live_write_yy = 0x58;
    let (create2, _link2, confirm2) =
        build_controller_create_real_param_write_packets(&mut state2, 0x04, 0x05, 8);
    assert_eq!(create2[34], 0x04, "bus du bloc contrôlé = slot4");
    assert_eq!(create2[42], 0x0a, "4a = FS8+2 = 10, PAS lié au bus (4) ni à l'ordre (2e)");
    assert_eq!(confirm2[34], 0x08, "N = FS8 brut");
}

#[test]
fn param_selector_byte_reflects_chosen_parameter() {
    let mut state = HelixState::new();
    let (create, link, _confirm) =
        build_controller_create_real_param_write_packets(&mut state, 0x05, 0x07, 3);
    assert_eq!(create[39], 0x1c);
    assert_eq!(create[40], 0x07, "param_selector = index du paramètre choisi");
    assert_eq!(create[34], 0x05, "bus du bloc contrôlé");
    assert_eq!(link[40], 0x07, "le paquet 0x24 porte le même param_selector que le 0x25");
}

#[test]
fn create_link_confirm_trio_advances_shared_live_write_counters_by_0x31_each_step() {
    let mut state = HelixState::new();
    let ctr_before = state.counters.live_write_ctr;
    let yy_before = state.counters.live_write_yy;
    let _ = build_controller_create_real_param_write_packets(&mut state, 0x01, 0x00, 1);
    let confirm_ctr = ctr_before.wrapping_add(0x62);
    assert_eq!(state.counters.live_write_ctr, confirm_ctr.wrapping_add(0x44));
    assert_eq!(state.counters.live_write_yy, yy_before.wrapping_add(2).wrapping_add(1));
}

#[test]
fn source_and_confirm_pair_uses_direct_offset_not_shared_state_after_source_advance() {
    let mut state = HelixState::new();
    state.counters.live_write_ctr = 0x419c;
    state.counters.live_write_yy = 0x01;
    let (source_pkt, confirm_pkt) =
        build_controller_source_and_confirm_write_packets(&mut state, 0x01, 1);

    assert_eq!(&source_pkt[12..14], &[0x9c, 0x41]);
    assert_eq!(source_pkt[28], 0x01);
    assert_eq!(&source_pkt[24..29], &[0x83, 0x66, 0xcd, 0x03, 0x01], "cd Source = 0x0301");
    assert_eq!(&source_pkt[32..40], &[0x82, 0x62, 0x01, 0x66, 0x00, 0x00, 0x00, 0x00]);

    assert_eq!(confirm_pkt.len(), 36);
    assert_eq!(confirm_pkt[0], 0x1b);
    assert_eq!(&confirm_pkt[10..14], &[0x00, 0x0c, 0xad, 0x41]);
    assert_eq!(pkt_confirm_yy(&confirm_pkt), 0x02);
    assert_eq!(&confirm_pkt[24..32], &[0x83, 0x66, 0xcd, 0x03, 0x02, 0x64, 0x21, 0x65]);
    assert_eq!(&confirm_pkt[32..36], &[0x81, 0x66, 0x01, 0x00]);
}

fn pkt_confirm_yy(pkt: &[u8]) -> u8 {
    pkt[28]
}

#[test]
fn bypass_confirm_n_follows_footswitch_number_not_hardcoded_one() {
    let mut state = HelixState::new();
    let (_source, confirm_pkt) =
        build_controller_source_and_confirm_write_packets(&mut state, 0x01, 4);
    assert_eq!(&confirm_pkt[32..36], &[0x81, 0x66, 0x04, 0x00]);
}

#[test]
fn source_and_confirm_pair_advances_shared_state_past_confirm() {
    let mut state = HelixState::new();
    state.counters.live_write_ctr = 0x419c;
    state.counters.live_write_yy = 0x01;
    let _ = build_controller_source_and_confirm_write_packets(&mut state, 0x01, 1);
    assert_eq!(state.counters.live_write_ctr, 0x41ad_u16.wrapping_add(0x44));
    assert_eq!(state.counters.live_write_yy, 0x03);
}

#[test]
fn builds_expected_bytes_for_min_max_write_drive() {
    // Frame 3281 : Min = 0.0, ctr=0x6012, yy=0x07.
    let mut state = HelixState::new();
    state.counters.live_write_ctr = 0x6012;
    state.counters.live_write_yy = 0x07;
    let min0 = build_controller_min_max_write_packet(&mut state, 0x01, 0x00, false, 0.0f32.to_be_bytes());
    assert_eq!(min0.len(), 48);
    assert_eq!(min0[0], 0x27);
    assert_eq!(&min0[10..14], &[0x00, 0x04, 0x12, 0x60]);
    assert_eq!(min0[20], 0x17);
    assert_eq!(&min0[24..32], &[0x83, 0x66, 0xcd, 0x04, 0x07, 0x64, 0x41, 0x65]);
    assert_eq!(
        &min0[32..],
        &[0x85, 0x62, 0x01, 0x1d, 0xc3, 0x1a, 0x00, 0x1c, 0x00, 0x77, 0xca, 0x00, 0x00, 0x00, 0x00, 0x00]
    );
    // avancement partagé : ctr +0x11, yy +1
    assert_eq!(state.counters.live_write_ctr, 0x6023);
    assert_eq!(state.counters.live_write_yy, 0x08);

    // Frame 3329 : Min = 0.4 (0x3ecccccd), ctr=0x6034, yy=0x09.
    let mut state = HelixState::new();
    state.counters.live_write_ctr = 0x6034;
    state.counters.live_write_yy = 0x09;
    let min04 = build_controller_min_max_write_packet(&mut state, 0x01, 0x00, false, 0.4f32.to_be_bytes());
    assert_eq!(&min04[24..32], &[0x83, 0x66, 0xcd, 0x04, 0x09, 0x64, 0x41, 0x65]);
    assert_eq!(
        &min04[41..48],
        &[0x77, 0xca, 0x3e, 0xcc, 0xcc, 0xcd, 0x00],
        "flottant 0.4 encodé big-endian ca:3e:cc:cc:cd"
    );

    // Frame 3969 : Max = 1.0 (0x3f800000), ctr=0x6045, yy=0x0a.
    let mut state = HelixState::new();
    state.counters.live_write_ctr = 0x6045;
    state.counters.live_write_yy = 0x0a;
    let max1 = build_controller_min_max_write_packet(&mut state, 0x01, 0x00, true, 1.0f32.to_be_bytes());
    assert_eq!(&max1[24..32], &[0x83, 0x66, 0xcd, 0x04, 0x0a, 0x64, 0x42, 0x65]);
    assert_eq!(
        &max1[41..48],
        &[0x77, 0xca, 0x3f, 0x80, 0x00, 0x00, 0x00],
        "term 0x42 (Max) + flottant 1.0 = ca:3f:80:00:00"
    );
    assert_eq!(max1[34], 0x01, "bus du bloc contrôlé");
    assert_eq!(max1[40], 0x00, "param_selector");
}
