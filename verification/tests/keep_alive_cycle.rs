use hxlinux::keep_alive::KeepAliveCycle;
use hxlinux::state::HelixState;

#[test]
fn cycle_polls_f0_then_ed_then_ef_on_the_clock() {
    let mut state = HelixState::new();
    let mut k = KeepAliveCycle::new(0);
    assert!(k.poll_due(&mut state));
    assert_eq!(&state.outbox[0].data[4..8], &[0x02, 0x10, 0xf0, 0x03]);
    assert_eq!(state.outbox[0].data[11], 0x10);
    assert_eq!(k.lane, 1);
    assert_eq!(k.due_ms, 453);
    state.now_ms = 452;
    assert!(!k.poll_due(&mut state));
    assert_eq!(state.outbox.len(), 1);
    state.now_ms = 453;
    assert!(k.poll_due(&mut state));
    assert_eq!(&state.outbox[1].data[4..8], &[0x80, 0x10, 0xed, 0x03]);
    assert_eq!(&state.outbox[1].data[12..14], &[0x7e, 0x1c]);
    state.now_ms = 719;
    assert!(k.poll_due(&mut state));
    assert_eq!(&state.outbox[2].data[4..8], &[0x01, 0x10, 0xef, 0x03]);
    assert_eq!(k.lane, 0);
    assert_eq!(k.due_ms, 1047);
}

#[test]
fn cycle_is_skipped_during_a_preset_body_read() {
    let mut state = HelixState::new();
    state.preset.preset_content_only = true;
    let mut k = KeepAliveCycle::new(10);
    state.now_ms = 10;
    assert!(!k.poll_due(&mut state));
    assert!(state.outbox.is_empty());
    assert_eq!(k.lane, 0);
    assert_eq!(k.due_ms, 1057);
}
