use hxlinux::live_write::{build_live_write_frames, diff_packet_hex, LiveWriteValue};
use hxlinux::live_write_config::HelixLiveWriteCfg;
use hxlinux::state::HelixState;

fn half() -> LiveWriteValue {
    LiveWriteValue {
        float_be_a: 0.5f32.to_bits().to_be_bytes(),
        float_be_b: 0.5f32.to_bits().to_be_bytes(),
        bool_on: true,
        discrete_index: 1,
    }
}

#[test]
fn float_write_frames_from_fresh_state() {
    let mut state = HelixState::new();
    let cfg = HelixLiveWriteCfg::defaults();
    let f = build_live_write_frames(&mut state, &cfg, &half(), 0, 3, Some("knob"), Some(1));
    assert_eq!(f.primary_opcode, 0x27);
    assert_eq!(f.model_block_kind, "replay_static");
    assert_eq!(f.slot_bus, 1);
    assert_eq!(
        f.pre_packet_x80,
        vec![0x08, 0x00, 0x00, 0x18, 0x80, 0x10, 0xed, 0x03, 0x00, 0x02, 0x00, 0x10, 0x1a, 0xe7, 0x64, 0x00]
    );
    assert_eq!(
        f.pre_packet_x2,
        vec![0x08, 0x00, 0x00, 0x18, 0x02, 0x10, 0xf0, 0x03, 0x00, 0x02, 0x00, 0x10, 0x09, 0x10, 0x00, 0x00]
    );
    assert_eq!(
        f.pre_packet_x80_sel,
        vec![0x08, 0x00, 0x00, 0x18, 0x80, 0x10, 0xed, 0x03, 0x00, 0x03, 0x00, 0x08, 0xbd, 0x6c, 0x00, 0x00]
    );
    assert_eq!(
        f.packet_27,
        vec![
            0x27, 0x00, 0x00, 0x18, 0x80, 0x10, 0xed, 0x03, 0x00, 0x04, 0x00, 0x04, 0xbd, 0x6c, 0x00, 0x00,
            0x01, 0x00, 0x06, 0x00, 0x17, 0x00, 0x00, 0x00, 0x83, 0x66, 0xcd, 0x03, 0x17, 0x64, 0x1e, 0x65,
            0x85, 0x62, 0x01, 0x1d, 0xc3, 0x1a, 0x00, 0x1c, 0x03, 0x77, 0xca, 0x3f, 0x00, 0x00, 0x00, 0x00,
        ]
    );
    assert_eq!(f.packet_27_b[9], 0x05);
    assert_eq!(f.packet_27_b[11], 0x0c);
    assert_eq!(&f.packet_27_b[12..14], &[0xdc, 0x6c]);
    assert_eq!(f.packet_27_b[28], 0x18);
    assert_eq!(
        f.post_packet_x80_sel,
        vec![0x08, 0x00, 0x00, 0x18, 0x80, 0x10, 0xed, 0x03, 0x00, 0x06, 0x00, 0x08, 0xfb, 0x6c, 0x00, 0x00]
    );
    assert_eq!(f.frame27_diff_vs_static, "9:8f->04");
    assert_eq!(state.counters.x80_cnt, 7);
    assert_eq!(state.counters.x2_cnt, 3);
    assert_eq!(state.counters.live_write_ctr, 0x6cfb);
    assert_eq!(state.counters.live_write_yy, 0x19);
}

#[test]
fn bool_write_uses_23_frame_with_marker() {
    let mut state = HelixState::new();
    let cfg = HelixLiveWriteCfg::defaults();
    let f = build_live_write_frames(&mut state, &cfg, &half(), 9, 300, Some("off_on"), None);
    assert_eq!(f.primary_opcode, 0x23);
    assert_eq!(f.packet_27.len(), 44);
    assert_eq!(f.slot_bus, 12);
    assert_eq!(f.param_selector, 0xff);
    assert_eq!(&f.packet_27[40..44], &[0xff, 0x77, 0xc3, 0x00]);
}

#[test]
fn echoed_model_block_replaces_bytes_24_to_39() {
    let mut state = HelixState::new();
    let mut block = [0u8; 16];
    for (i, b) in block.iter_mut().enumerate() {
        *b = 0x40 + i as u8;
    }
    state.cab.last_ed03_echo_model = Some(block);
    let cfg = HelixLiveWriteCfg::defaults();
    let f = build_live_write_frames(&mut state, &cfg, &half(), 2, 5, None, Some(0));
    assert_eq!(f.model_block_kind, "in_echo_strict");
    assert_eq!(f.packet_27[24], 0x40);
    assert_eq!(f.packet_27[28], 0x45);
    assert_eq!(f.packet_27[34], 0x03);
    assert_eq!(f.packet_27[39], 0x4f);
    assert_eq!(f.packet_27[40], 0x05);
    assert_eq!(f.packet_27_b[28], 0x46);
    assert_eq!(state.counters.ed03_live_write_seq_sent, Some(0x46));
}

#[test]
fn diff_text_lists_positions_and_lengths() {
    assert_eq!(diff_packet_hex(&[1, 2, 3], &[1, 2, 3]), "none");
    assert_eq!(diff_packet_hex(&[1, 2, 3], &[1, 9, 3, 4]), "1:02->09,len:3->4");
    let a = [0u8; 20];
    let b = [1u8; 20];
    let t = diff_packet_hex(&a, &b);
    assert!(t.starts_with("0:00->01,1:00->01,"));
    assert!(t.ends_with("11:00->01,+8 more"));
}
