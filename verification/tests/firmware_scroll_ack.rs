use hxlinux::firmware_scroll_ack::{handle_in_layer, scroll_ack_step};
use hxlinux::pipeline::LayerResult;
use hxlinux::slot_model_hw_pull::would_start_hw_model_pull_on_1f;
use hxlinux::state::HelixState;
#[test]
fn first_1d_after_bootstrap_advances_to_1048() {
    let mut state = HelixState::new();
    state.note_firmware_scroll_bootstrap_sent();
    let d = state.advance_firmware_scroll_lane(0x1d);
    assert_eq!(d, [0x48, 0x10]);
    assert_eq!(state.scroll.firmware_scroll_ack_ctr, 0x1048);
}

#[test]
fn scroll_ack_step_1d_to_1d_is_0x15() {
    assert_eq!(scroll_ack_step(Some(0x1d), 0x1d, false).0, 0x0015);
}

#[test]
fn scroll_ack_step_none_1d_is_0x3f() {
    assert_eq!(scroll_ack_step(None, 0x1d, false).0, 0x003f);
}

fn sample_scroll_1d() -> Vec<u8> {
    let mut b = vec![0u8; 40];
    b[0] = 0x1d;
    b[4..8].copy_from_slice(&[0xf0, 0x03, 0x02, 0x10]);
    b
}

#[test]
fn fond_skips_pre_scroll_1d_but_advances_lane() {
    let mut b = vec![0u8; 40];
    b[0] = 0x1d;
    b[4..8].copy_from_slice(&[0xf0, 0x03, 0x02, 0x10]);
    b[24..28].copy_from_slice(&[0x82, 0x69, 0x31, 0x6a]);
    let mut state = HelixState::new();
    state.session.editor_ready = true;
    state.note_firmware_scroll_bootstrap_sent();
    let r = handle_in_layer(&mut state, &b);
    assert!(matches!(r, LayerResult::Ignored), "pas d'ACK sur pré-scroll 1d");
    assert_eq!(
        state.scroll.firmware_scroll_ack_ctr, 0x1048,
        "lane AVANCÉE même sans ACK (sync compteur device)"
    );
}

#[test]
fn fond_skips_during_preset_read() {
    let mut state = HelixState::new();
    state.session.editor_ready = true;
    state.note_firmware_scroll_bootstrap_sent();
    state.set_preset_usb_read_modes_active(true);
    let r = handle_in_layer(&mut state, &sample_scroll_1d());
    assert!(matches!(r, LayerResult::Ignored));
    assert_eq!(state.scroll.firmware_scroll_ack_ctr, 0x1009);
}

#[test]
fn fond_silent_after_arm_before_editor_ready() {
    let mut state = HelixState::new();
    state.session.editor_ready = false;
    state.note_firmware_scroll_bootstrap_sent();
    let r = handle_in_layer(&mut state, &sample_scroll_1d());
    assert!(matches!(r, LayerResult::Ignored));
    assert_eq!(state.scroll.firmware_scroll_ack_ctr, 0x1009);
}

#[test]
fn fond_silent_during_settle() {
    let mut state = HelixState::new();
    state.note_firmware_scroll_bootstrap_sent();
    state.begin_init_usb_settle();
    let r = handle_in_layer(&mut state, &sample_scroll_1d());
    assert!(matches!(r, LayerResult::Ignored));
    assert_eq!(state.scroll.firmware_scroll_ack_ctr, 0x1009);
}

#[test]
fn fond_acks_once_editor_ready() {
    let mut state = HelixState::new();
    state.note_firmware_scroll_bootstrap_sent();
    state.session.editor_ready = true;
    state.end_init_usb_settle();
    let r = handle_in_layer(&mut state, &sample_scroll_1d());
    assert!(matches!(r, LayerResult::Consumed { .. }));
    assert_eq!(state.scroll.firmware_scroll_ack_ctr, 0x1048);
}

#[test]
fn fond_silent_before_bootstrap_arm() {
    let mut state = HelixState::new();
    let r = handle_in_layer(&mut state, &sample_scroll_1d());
    assert!(matches!(r, LayerResult::Ignored));
    assert_eq!(state.scroll.firmware_scroll_ack_ctr, 0x1009);
}

#[test]
fn fond_silent_during_pull_capture() {
    let mut state = HelixState::new();
    state.session.editor_ready = true;
    state.note_firmware_scroll_bootstrap_sent();
    state.pull.hw_model_pull_capture_deadline =
        Some(state.now_ms + 1000);

    let r = handle_in_layer(&mut state, &sample_scroll_1d());
    assert!(matches!(r, LayerResult::Ignored));
    assert_eq!(state.scroll.firmware_scroll_ack_ctr, 0x1009);
}

#[test]
fn fond_skips_1f_when_pull_will_start() {
    const IN1F_PULL: &[u8] = &[
        0x1f, 0x00, 0x00, 0x18, 0xf0, 0x03, 0x02, 0x10, 0x00, 0xc1, 0x00, 0x04, 0x09, 0x02, 0x00,
        0x00, 0x00, 0x00, 0x04, 0x00, 0x0f, 0x00, 0x00, 0x00, 0x82, 0x69, 0x31, 0x6a, 0x84, 0x52,
        0x00, 0x44, 0x05, 0x79, 0x0a, 0x6a, 0x81, 0x62, 0x01, 0x93,
    ];
    let mut state = HelixState::new();
    state.session.editor_ready = true;
    state.note_firmware_scroll_bootstrap_sent();
    state.slot.hw_active_slot_bus = Some(0x01);

    assert!(would_start_hw_model_pull_on_1f(&state, IN1F_PULL));
    let r = handle_in_layer(&mut state, IN1F_PULL);
    assert!(matches!(r, LayerResult::Ignored));
    assert_eq!(state.scroll.firmware_scroll_ack_ctr, 0x1009);
}
