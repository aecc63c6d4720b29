use hxlinux::pull_frames::{
    extract_first_module_hex_from_bulk, is_hw_model_change_notify_1f, is_hw_model_change_notify_40,
    is_hw_model_post_assign_21, is_hw_model_pull_trigger_notify, is_hw_model_slot_cleared_notify,
    looks_like_first_pull_reply, looks_like_second_pull_reply, parse_slot_bus_from_model_notify,
};
use hxlinux::slot_model_hw_pull::{
    ack_hw_model_scroll_in, advance_scroll_ack_after_pull_interstitial_f0, arm_post_pull_stream_settling,
    build_pull_19, build_pull_1b, build_pull_f0_interstitial, ingest_slot_model_hw_in,
    slot_bus_for_model_pull, try_ack_pull_interstitial_echo, PULL_CAPTURE_MS,
    PULL_COOLDOWN_AFTER_DONE_MS,
};
use hxlinux::state::HelixState;

const T0: u64 = 100_000;

const IN1D: &[u8] = &[
    0x1d, 0x00, 0x00, 0x18, 0xf0, 0x03, 0x02, 0x10, 0x00, 0xc0, 0x00, 0x04, 0x09, 0x02, 0x00,
    0x00, 0x00, 0x00, 0x04, 0x00, 0x0d, 0x00, 0x00, 0x00, 0x82, 0x69, 0x31, 0x6a, 0x84, 0x52,
    0x00, 0x44, 0x05, 0x79, 0x0a, 0x6a, 0x81, 0x62, 0x01, 0x93,
];
const IN1F: &[u8] = &[
    0x1f, 0x00, 0x00, 0x18, 0xf0, 0x03, 0x02, 0x10, 0x00, 0xc1, 0x00, 0x04, 0x09, 0x02, 0x00,
    0x00, 0x00, 0x00, 0x04, 0x00, 0x0f, 0x00, 0x00, 0x00, 0x82, 0x69, 0x31, 0x6a, 0x84, 0x52,
    0x00, 0x44, 0x05, 0x79, 0x0a, 0x6a, 0x81, 0x62, 0x01, 0x93,
];
const IN1F_NONE: &[u8] = &[
    0x1f, 0x00, 0x00, 0x18, 0xf0, 0x03, 0x02, 0x10, 0x00, 0x34, 0x00, 0x04, 0x09, 0x02, 0x00,
    0x00, 0x00, 0x00, 0x04, 0x00, 0x0f, 0x00, 0x00, 0x00, 0x82, 0x69, 0x31, 0x6a, 0x84, 0x52,
    0x00, 0x44, 0x05, 0x79, 0x0e, 0x6a, 0x81, 0x62, 0x01, 0xc0,
];
const IN92_ASSIGN: &[u8] = &[
    0x53, 0x00, 0x00, 0x18, 0xed, 0x03, 0x80, 0x10, 0x00, 0xf9, 0x00, 0x04, 0x88, 0x03, 0x00,
    0x00, 0x00, 0x00, 0x06, 0x00, 0x43, 0x00, 0x00, 0x00, 0x83, 0x66, 0xcd, 0x03, 0xfc, 0x67,
    0x00, 0x68, 0x82, 0x0d, 0x01, 0x18, 0x82, 0x13, 0x06, 0x14, 0x85, 0x18, 0x83, 0x17, 0xc2,
    0x19, 0xcd, 0x01, 0xfe, 0x1a, 0xff, 0x09, 0x01, 0x0a, 0xc3, 0x0b, 0x83, 0x02, 0x04, 0x03,
    0x04, 0x04, 0x94,
];
const IN68_META: &[u8] = &[
    0x39, 0x00, 0x00, 0x18, 0xed, 0x03, 0x80, 0x10, 0x00, 0x35, 0x00, 0x04, 0xb5, 0x02, 0x00,
    0x00, 0x00, 0x00, 0x06, 0x00, 0x29, 0x00, 0x00, 0x00, 0x83, 0x66, 0xcd, 0x03, 0xfc, 0x67,
    0x00, 0x68, 0x86, 0x6b, 0xcd, 0x00, 0x00, 0x6c, 0xcd, 0x00, 0x20, 0x6d, 0xac, 0x50, 0x72,
    0x65, 0x73, 0x65, 0x00,
];

fn test_final_bulk_272(module: &[u8; 3]) -> Vec<u8> {
    let mut buf = vec![0u8; 272];
    buf[0] = 0x08;
    buf[1] = 0x01;
    buf[2..5].copy_from_slice(&[0x00, 0x00, 0x18]);
    buf[6..10].copy_from_slice(&[0xed, 0x03, 0x80, 0x10]);
    let off = 200;
    buf[off..off + 3].copy_from_slice(&[0x83, 0x66, 0xcd]);
    buf[off + 3] = 0x03;
    buf[off + 10] = 0x19;
    buf[off + 11..off + 14].copy_from_slice(module);
    buf[off + 14] = 0x1a;
    buf
}

fn state_at_t0() -> HelixState {
    let mut state = HelixState::new();
    state.now_ms = T0;
    state
}

#[test]
fn detects_1d_and_1f_notify() {
    assert!(is_hw_model_change_notify_40(IN1D));
    assert!(is_hw_model_change_notify_40(IN1F));
    assert!(!is_hw_model_change_notify_1f(IN1D));
    assert!(is_hw_model_change_notify_1f(IN1F));
}

#[test]
fn parses_slot_bus_from_1f() {
    assert_eq!(parse_slot_bus_from_model_notify(IN1F), Some(0x01));
}

#[test]
fn slot_bus_for_pull_prefers_hw_active_over_notify_8162() {
    let mut state = state_at_t0();
    state.slot.hw_active_slot_bus = Some(0x02);
    state.slot.hw_active_slot_index = Some(1);
    assert_eq!(slot_bus_for_model_pull(&state, IN1F), Some(0x02));
}

#[test]
fn slot_bus_for_pull_falls_back_to_8162_when_hw_active_none() {
    let state = state_at_t0();
    assert_eq!(slot_bus_for_model_pull(&state, IN1F), Some(0x01));
}

#[test]
fn extracts_module_hex_from_capture_bulk() {
    assert_eq!(extract_first_module_hex_from_bulk(IN92_ASSIGN).as_deref(), Some("cd01fe"));
}

#[test]
fn ingest_1d_does_not_trigger_pull() {
    let mut state = state_at_t0();
    state.preset.preset_content_only = false;
    state.slot.hw_active_slot_index = Some(0);
    state.slot.hw_active_slot_bus = Some(0x01);
    ingest_slot_model_hw_in(&mut state, IN1D);
    assert!(state.pull.hw_model_pull_last_at.is_none());
    assert!(state.pull.hw_model_pull_capture_deadline.is_none());
    assert_eq!(state.pull.hw_model_pull_step, 0);
}

#[test]
fn pull_f0_interstitial_uses_hw_model_scroll_ack_double() {
    let mut state = state_at_t0();
    state.scroll.hw_model_scroll_ack_ctr = 0x108f;
    let ctr_before = state.scroll.hw_model_scroll_ack_ctr;
    let pkt = build_pull_f0_interstitial(&mut state);
    assert_eq!(pkt[12], 0x8f);
    assert_eq!(pkt[13], 0x10);
    assert_eq!(state.scroll.hw_model_scroll_ack_ctr, ctr_before);
}

#[test]
fn advance_scroll_ack_after_interstitial_f0_matches_hx_second_f0() {
    let mut state = state_at_t0();
    state.scroll.hw_model_scroll_ack_ctr = 0x1035;
    advance_scroll_ack_after_pull_interstitial_f0(&mut state);
    assert_eq!(state.scroll.hw_model_scroll_ack_ctr, 0x1063);
}

#[test]
fn ack_pull_interstitial_echo_16o() {
    const IN_ECHO: &[u8] = &[
        0x08, 0x00, 0x00, 0x18, 0xed, 0x03, 0x80, 0x10, 0x00, 0x40, 0x00, 0x08, 0xea, 0x02, 0x00,
        0x00,
    ];
    let mut state = state_at_t0();
    state.pull.hw_model_pull_step = 1;
    try_ack_pull_interstitial_echo(&mut state, IN_ECHO);
    let sent = &state.outbox.last().expect("ack").data;
    assert_eq!(&sent[4..8], &[0x02, 0x10, 0xf0, 0x03]);
    assert_eq!(&sent[11..14], &[0x08, 0xea, 0x02]);
}

#[test]
fn post_assign_21_matches_user_capture() {
    const IN21_POST: &[u8] = &[
        0x21, 0x00, 0x00, 0x18, 0xf0, 0x03, 0x02, 0x10, 0x00, 0x23, 0x00, 0x04, 0x09, 0x02, 0x00,
        0x00, 0x00, 0x00, 0x04, 0x00, 0x11, 0x00, 0x00, 0x00, 0x82, 0x69, 0x27, 0x6a, 0x84, 0x52,
        0x01, 0x44, 0x03, 0x79, 0x13, 0x6a, 0x82, 0x62, 0x01, 0x1a, 0x00, 0x6d, 0xac, 0x50,
    ];
    assert!(is_hw_model_post_assign_21(IN21_POST));
}

#[test]
fn pull_trigger_1f_skips_scroll_ack_lane_unchanged() {
    let mut state = state_at_t0();
    state.preset.preset_content_only = false;
    state.slot.hw_active_slot_bus = Some(0x01);
    state.scroll.hw_model_scroll_ack_ctr = 0x1035;
    assert!(!ack_hw_model_scroll_in(&mut state, IN1D));
    assert!(state.pull.hw_model_scroll_deferred_1d.is_some());
    assert_eq!(state.scroll.hw_model_scroll_ack_ctr, 0x1035);
    assert_eq!(state.scroll.hw_model_scroll_ack_prev, None);
    assert!(!ack_hw_model_scroll_in(&mut state, IN1F));
    assert!(state.pull.hw_model_scroll_deferred_1d.is_none());
    assert_eq!(state.scroll.hw_model_scroll_ack_ctr, 0x1035);
    assert_eq!(state.scroll.hw_model_scroll_ack_prev, None);
    let pkt = build_pull_f0_interstitial(&mut state);
    assert_eq!(pkt[12], 0x35);
    assert_eq!(pkt[13], 0x10);
}

#[test]
fn deferred_1d_flushed_when_1f_not_pull_trigger() {
    let mut state = state_at_t0();
    state.preset.preset_content_only = false;
    state.slot.hw_active_slot_bus = Some(0x01);
    state.scroll.hw_model_scroll_ack_ctr = 0x1035;
    assert!(!ack_hw_model_scroll_in(&mut state, IN1D));
    assert!(ack_hw_model_scroll_in(&mut state, IN1F_NONE));
    assert!(state.pull.hw_model_scroll_deferred_1d.is_none());
    assert_eq!(state.scroll.hw_model_scroll_ack_ctr, 0x104c);
    assert_eq!(state.scroll.hw_model_scroll_ack_prev, Some(0x1f));
}

#[test]
fn ack_1d_suppressed_during_active_pull() {
    let mut state = state_at_t0();
    state.pull.hw_model_pull_capture_deadline = Some(T0 + PULL_CAPTURE_MS);
    let ctr_before = state.scroll.hw_model_scroll_ack_ctr;
    assert!(!ack_hw_model_scroll_in(&mut state, IN1D));
    assert_eq!(state.scroll.hw_model_scroll_ack_ctr, ctr_before);
    assert_eq!(state.scroll.hw_model_scroll_ack_prev, None);
}

#[test]
fn ack_scroll_ignores_21_44o_post_assign() {
    const IN21_POST: &[u8] = &[
        0x21, 0x00, 0x00, 0x18, 0xf0, 0x03, 0x02, 0x10, 0x00, 0x30, 0x00, 0x04, 0x09, 0x02, 0x00,
        0x00, 0x00, 0x00, 0x04, 0x00, 0x11, 0x00, 0x00, 0x00, 0x82, 0x69, 0x27, 0x6a, 0x84, 0x52,
        0x01, 0x44, 0x03, 0x79, 0x13, 0x6a, 0x82, 0x62, 0x01, 0x1a, 0x00, 0x6d, 0xac, 0x50,
    ];
    let mut state = state_at_t0();
    assert!(!ack_hw_model_scroll_in(&mut state, IN21_POST));
    assert_eq!(state.scroll.hw_model_scroll_ack_prev, None);
}

#[test]
fn ingest_hw_slot_notify_ignores_post_assign_21() {
    const IN21_POST: &[u8] = &[
        0x21, 0x00, 0x00, 0x18, 0xf0, 0x03, 0x02, 0x10, 0x00, 0x30, 0x00, 0x04, 0x09, 0x02, 0x00,
        0x00, 0x00, 0x00, 0x04, 0x00, 0x11, 0x00, 0x00, 0x00, 0x82, 0x69, 0x27, 0x6a, 0x84, 0x52,
        0x01, 0x44, 0x03, 0x79, 0x13, 0x6a, 0x82, 0x62, 0x01, 0x1a, 0x00, 0x6d, 0xac, 0x50,
    ];
    let mut state = state_at_t0();
    state.slot.hw_active_slot_bus = Some(0x02);
    state.slot.hw_active_slot_sequence = 5;
    assert!(state.ingest_hw_slot_notify_in(IN21_POST).is_none());
    assert_eq!(state.slot.hw_active_slot_sequence, 5);
    assert_eq!(state.slot.hw_active_slot_bus, Some(0x02));
}

#[test]
fn ingest_21_preset_frame_does_not_trigger_pull() {
    const IN21: &[u8] = &[
        0x21, 0x00, 0x00, 0x18, 0xf0, 0x03, 0x02, 0x10, 0x00, 0x29, 0x00, 0x04, 0x09, 0x02, 0x00,
        0x00, 0x00, 0x00, 0x04, 0x00, 0x11, 0x00, 0x00, 0x00, 0x82, 0x69, 0x27, 0x6a, 0x84, 0x52,
        0x01, 0x44, 0x03, 0x79, 0x13, 0x6a, 0x82, 0x62, 0x01, 0x1a, 0x00, 0x00, 0x21, 0x37,
    ];
    let mut state = state_at_t0();
    state.preset.preset_content_only = false;
    state.slot.hw_active_slot_index = Some(0);
    state.slot.hw_active_slot_bus = Some(0x01);
    ingest_slot_model_hw_in(&mut state, IN21);
    assert!(state.pull.hw_model_pull_capture_deadline.is_none());
}

#[test]
fn detects_none_notify_from_capture_frame_1315() {
    assert!(is_hw_model_slot_cleared_notify(IN1F_NONE));
    assert!(!is_hw_model_slot_cleared_notify(IN1F));
    assert!(!is_hw_model_pull_trigger_notify(IN1F_NONE));
    assert!(is_hw_model_pull_trigger_notify(IN1F));
}

#[test]
fn ingest_1f_none_emits_empty_without_pull() {
    let mut state = state_at_t0();
    state.slot.hw_active_slot_index = Some(0);
    state.slot.hw_active_slot_bus = Some(0x01);
    let payload = ingest_slot_model_hw_in(&mut state, IN1F_NONE).expect("payload");
    assert!(payload.module_hex.is_none());
    assert!(state.pull.hw_model_pull_capture_deadline.is_none());
    assert_eq!(state.pull.hw_model_pull_step, 0);
}

#[test]
fn ingest_1f_arms_capture() {
    let mut state = state_at_t0();
    state.preset.preset_data_ready = true;
    state.preset.preset_content_only = false;
    state.slot.hw_active_slot_index = Some(0);
    state.slot.hw_active_slot_bus = Some(0x01);
    assert!(ingest_slot_model_hw_in(&mut state, IN1F).is_none());
    assert!(state.pull.hw_model_pull_last_at.is_none());
    assert_eq!(state.pull.hw_model_pull_step, 1);
}

#[test]
fn pull_final_272_is_not_first_reply() {
    let mut buf = vec![0u8; 272];
    buf[0] = 0x08;
    buf[4..8].copy_from_slice(&[0xed, 0x03, 0x80, 0x10]);
    buf[24..28].copy_from_slice(&[0x83, 0x66, 0xcd, 0x03]);
    buf[28..32].copy_from_slice(&[0x19, 0xcd, 0x01, 0xfe]);
    assert!(!looks_like_first_pull_reply(&buf));
    assert!(!looks_like_second_pull_reply(&buf));
}

#[test]
fn rapid_1f_after_finalize_ignored_during_settling_not_immediate_pull() {
    let mut state = state_at_t0();
    state.preset.preset_data_ready = true;
    state.preset.preset_content_only = false;
    state.slot.hw_active_slot_index = Some(0);
    state.slot.hw_active_slot_bus = Some(0x01);
    ingest_slot_model_hw_in(&mut state, IN1F);
    assert!(ingest_slot_model_hw_in(&mut state, IN92_ASSIGN).is_none());
    assert!(ingest_slot_model_hw_in(&mut state, IN68_META).is_none());
    let _ = ingest_slot_model_hw_in(&mut state, &test_final_bulk_272(&[0xcd, 0x01, 0xfe]))
        .expect("payload");
    assert!(state.pull.hw_model_post_pull_settling);
    ingest_slot_model_hw_in(&mut state, IN1F);
    assert!(state.pull.hw_model_pull_pending_slot_bus.is_none());
    assert!(state.pull.hw_model_pull_capture_deadline.is_none());
}

#[test]
fn ingest_1f_during_pull_queues_pending_then_flushes() {
    let mut state = state_at_t0();
    state.preset.preset_data_ready = true;
    state.preset.preset_content_only = false;
    state.slot.hw_active_slot_index = Some(0);
    state.slot.hw_active_slot_bus = Some(0x01);
    ingest_slot_model_hw_in(&mut state, IN1F);
    assert_eq!(state.pull.hw_model_pull_step, 1);
    ingest_slot_model_hw_in(&mut state, IN1F);
    assert_eq!(state.pull.hw_model_pull_pending_slot_bus, Some(0x01));
    assert!(ingest_slot_model_hw_in(&mut state, IN92_ASSIGN).is_none());
    assert!(ingest_slot_model_hw_in(&mut state, IN68_META).is_none());
    let payload = ingest_slot_model_hw_in(&mut state, &test_final_bulk_272(&[0xcd, 0x01, 0xfe]))
        .expect("payload");
    assert_eq!(payload.module_hex.as_deref(), Some("cd01fe"));
    assert_eq!(state.pull.hw_model_pull_pending_slot_bus, Some(0x01));
    state.pull.hw_model_post_pull_settling = false;
    state.pull.hw_model_post_pull_deadline = None;
    state.pull.hw_model_pull_quiet_until = Some(state.now_ms);
    state.pull.hw_model_pull_last_at = Some(state.now_ms - (PULL_COOLDOWN_AFTER_DONE_MS + 10));
    ingest_slot_model_hw_in(&mut state, IN1F);
    assert_eq!(state.pull.hw_model_pull_step, 1);
    assert!(state.pull.hw_model_pull_pending_slot_bus.is_none());
}

#[test]
fn post_pull_settling_ignores_1f_then_drops_pending_without_pull() {
    let mut state = state_at_t0();
    state.preset.preset_data_ready = true;
    state.preset.preset_content_only = false;
    state.slot.hw_active_slot_index = Some(0);
    state.slot.hw_active_slot_bus = Some(0x01);
    arm_post_pull_stream_settling(&mut state);
    state.pull.hw_model_pull_pending_slot_bus = Some(0x01);
    ingest_slot_model_hw_in(&mut state, IN1F);
    assert_eq!(state.pull.hw_model_pull_pending_slot_bus, Some(0x01));
    assert!(state.pull.hw_model_pull_capture_deadline.is_none());
    state.pull.hw_model_post_pull_deadline = Some(state.now_ms - 1);
    ingest_slot_model_hw_in(&mut state, &[0x08, 0x00, 0x00, 0x18, 0xef, 0x03, 0x01, 0x10]);
    assert_eq!(state.pull.hw_model_pull_step, 0);
    assert!(state.pull.hw_model_pull_pending_slot_bus.is_none());
}

#[test]
fn fresh_1f_after_settling_starts_pull_not_stale_pending_flush() {
    let mut state = state_at_t0();
    state.preset.preset_data_ready = true;
    state.preset.preset_content_only = false;
    state.slot.hw_active_slot_index = Some(0);
    state.slot.hw_active_slot_bus = Some(0x01);
    arm_post_pull_stream_settling(&mut state);
    state.pull.hw_model_pull_pending_slot_bus = Some(0x01);
    state.pull.hw_model_post_pull_deadline = Some(state.now_ms - 1);
    ingest_slot_model_hw_in(&mut state, &[0x08, 0x00, 0x00, 0x18, 0xef, 0x03, 0x01, 0x10]);
    assert!(state.pull.hw_model_pull_pending_slot_bus.is_none());
    state.pull.hw_model_pull_last_at = Some(state.now_ms - (PULL_COOLDOWN_AFTER_DONE_MS + 10));
    ingest_slot_model_hw_in(&mut state, IN1F);
    assert_eq!(state.pull.hw_model_pull_step, 1);
}

#[test]
fn ingest_1f_without_8162_in_notify_and_no_hw_active_does_not_send() {
    let mut state = state_at_t0();
    state.preset.preset_content_only = false;
    let mut no_slot = IN1F.to_vec();
    if let Some(i) = no_slot.windows(3).position(|w| w == [0x81, 0x62, 0x01]) {
        no_slot[i..i + 3].copy_from_slice(&[0x00, 0x00, 0x00]);
    }
    ingest_slot_model_hw_in(&mut state, &no_slot);
    assert!(state.pull.hw_model_pull_last_at.is_none());
    assert!(state.outbox.is_empty());
}

#[test]
fn cd_lane_04_survives_arm_pull_capture_after_finalize() {
    let mut state = state_at_t0();
    state.pull.hw_model_pull_cd_lane = Some(0x04);
    hxlinux::slot_model_hw_pull::send_pull_sequence(&mut state, 0x01);
    assert_eq!(state.pull.hw_model_pull_cd_lane, Some(0x04));
    let pkt = build_pull_1b(&mut state, 0x01);
    assert_eq!(pkt[27], 0x04);
}

#[test]
fn cd_lane_switches_to_04_on_editor_double_wrap() {
    let mut state = state_at_t0();
    state.lanes.editor_ed03_double = 0x64fd;
    let p = build_pull_1b(&mut state, 0x01);
    assert_eq!(p[27], 0x04);
    assert_eq!(p[28], 0x00);
    assert_eq!(state.pull.hw_model_pull_cd_lane, Some(0x04));
    state.pull.hw_model_pull_cd_lane = None;
    state.lanes.editor_ed03_double = 0x6403;
    let p2 = build_pull_19(&mut state, false);
    assert_eq!(p2[27], 0x03);
    state.pull.hw_model_pull_cd_lane = Some(0x04);
    let p3 = build_pull_19(&mut state, false);
    assert_eq!(p3[27], 0x04);
}

#[test]
fn pull_1b_advances_editor_double_by_three_19_reuses_same() {
    let mut state = state_at_t0();
    state.lanes.editor_ed03_double = 0x64ee;
    let p1b = build_pull_1b(&mut state, 0x01);
    assert_eq!(p1b[28], 0xf1);
    assert_eq!(p1b[29], 0x64);
    let p19 = build_pull_19(&mut state, false);
    assert_eq!(p19[28], 0xf1);
    assert_eq!(p19[29], 0x64);
    let p1b2 = build_pull_1b(&mut state, 0x01);
    assert_eq!(p1b2[28], 0xf4);
    assert_eq!(p1b2[29], 0x64);
    state.lanes.editor_ed03_double = 0x64fd;
    let p_wrap = build_pull_1b(&mut state, 0x01);
    assert_eq!(p_wrap[28], 0x00);
    assert_eq!(p_wrap[29], 0x64);
}

#[test]
fn pull_19_uses_hw_model_pull_ctr_and_advances() {
    let mut state = state_at_t0();
    state.pull.hw_model_pull_ctr = 0x413f;
    let p1 = build_pull_19(&mut state, false);
    assert_eq!(p1[12], 0x3f);
    assert_eq!(p1[13], 0x41);
    assert_eq!(state.pull.hw_model_pull_ctr, 0x4170);
    let p2 = build_pull_19(&mut state, true);
    assert_eq!(p2[12], 0x70);
    assert_eq!(p2[13], 0x41);
    assert_eq!(state.pull.hw_model_pull_ctr, 0x41a1);
    assert_eq!(state.counters.live_write_ctr, 0x6cbd);
}

#[test]
fn ingest_1d_then_1f_single_pull() {
    let mut state = state_at_t0();
    state.preset.preset_data_ready = true;
    state.preset.preset_content_only = false;
    state.slot.hw_active_slot_index = Some(0);
    state.slot.hw_active_slot_bus = Some(0x01);
    ingest_slot_model_hw_in(&mut state, IN1D);
    assert!(state.pull.hw_model_pull_capture_deadline.is_none());
    ingest_slot_model_hw_in(&mut state, IN1F);
    assert_eq!(state.pull.hw_model_pull_step, 1);
    assert!(state.pull.hw_model_pull_capture_deadline.is_some());
}

#[test]
fn capture_finalize_on_assign_bulk() {
    let mut state = state_at_t0();
    state.preset.preset_data_ready = true;
    state.preset.preset_content_only = false;
    state.slot.hw_active_slot_index = Some(0);
    state.slot.hw_active_slot_bus = Some(0x01);
    ingest_slot_model_hw_in(&mut state, IN1F);
    assert!(ingest_slot_model_hw_in(&mut state, IN92_ASSIGN).is_none());
    assert_eq!(state.pull.hw_model_pull_step, 2);
    assert!(ingest_slot_model_hw_in(&mut state, IN68_META).is_none());
    assert_eq!(state.pull.hw_model_pull_step, 3);
    assert!(!state.pull.hw_model_pull_saw_final_bulk);
    let final272 = test_final_bulk_272(&[0xcd, 0x01, 0xfe]);
    let payload = ingest_slot_model_hw_in(&mut state, &final272).expect("payload");
    assert_eq!(payload.slot_index, 0);
    assert_eq!(payload.module_hex.as_deref(), Some("cd01fe"));
    assert_eq!(state.pull.hw_model_pull_step, 0);
}
