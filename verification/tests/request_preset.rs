use hxlinux::modes::request_preset::RequestPreset;
use hxlinux::state::{HelixState, Mode};

/// Phase 2 answer seen on the wire (36 bytes, head `1c`): not preset data.
fn sample_phase2_envelope_36() -> Vec<u8> {
    vec![
        0x1c, 0x00, 0x00, 0x18, 0xed, 0x03, 0x80, 0x10, 0x00, 0x47, 0x00, 0x04, 0x19, 0x06,
        0x00, 0x00, 0x00, 0x00, 0x06, 0x00, 0x0c, 0x00, 0x00, 0x00, 0x83, 0x66, 0xcd, 0x11,
        0x14, 0x67, 0xcc, 0xff, 0x68, 0x81, 0x6f, 0xf6,
    ]
}

fn minimal_helix_state() -> HelixState {
    let mut s = HelixState::new();
    s.session.connecting = false;
    s
}

fn full_272_chunk() -> Vec<u8> {
    let mut full = vec![0u8; 272];
    full[0] = 0x08;
    full[1] = 0x01;
    full[3] = 0x18;
    full[4] = 0xed;
    full[5] = 0x03;
    full[6] = 0x80;
    full[7] = 0x10;
    full[11] = 0x04;
    for b in full[16..].iter_mut() {
        *b = 0xAB;
    }
    full
}

fn echo_sub08_16() -> Vec<u8> {
    vec![
        0x08, 0x00, 0x00, 0x18, 0xed, 0x03, 0x80, 0x10, 0x00, 0x29, 0x00, 0x08, 0x00, 0x06,
        0x00, 0x00,
    ]
}

#[test]
fn phase2_envelope_36_not_treated_as_preset_chunk() {
    let mut rp = RequestPreset::new();
    let mut state = minimal_helix_state();
    rp.waiting_phase1_response = false;
    assert!(rp.data_in(&sample_phase2_envelope_36(), &mut state));
    assert!(rp.preset_data.is_empty());
    assert!(!rp.saw_full_272_chunk);
}

#[test]
fn stream_272_then_partial_trailer_completes_transfer() {
    let mut rp = RequestPreset::new();
    let mut state = minimal_helix_state();
    rp.waiting_phase1_response = false;

    let full = full_272_chunk();
    assert!(rp.data_in(&full, &mut state));
    assert_eq!(rp.preset_data.len(), 256);
    assert!(rp.saw_full_272_chunk);

    let mut trailer = full.clone();
    trailer.truncate(140);
    assert!(rp.data_in(&trailer, &mut state));
    assert!(rp.preset_data.len() > 256);
}

#[test]
fn stray_sub08_midstream_does_not_truncate() {
    let mut rp = RequestPreset::new();
    let mut state = minimal_helix_state();
    rp.waiting_phase1_response = false;

    for _ in 0..5 {
        assert!(rp.data_in(&full_272_chunk(), &mut state));
    }
    assert_eq!(rp.preset_data.len(), 5 * 256);
    assert!(rp.await_dump_end_after_full_chunk);

    assert!(rp.data_in(&echo_sub08_16(), &mut state));
    assert!(rp.dump_end_pending, "the stray echo opens the confirmation window");
    assert_eq!(rp.preset_data.len(), 5 * 256, "nothing is cut");

    assert!(rp.data_in(&full_272_chunk(), &mut state));
    assert!(!rp.dump_end_pending, "the next chunk closes the confirmation window");
    assert_eq!(rp.preset_data.len(), 6 * 256, "the sixth chunk is kept");
}

#[test]
fn confirm_zero_restores_immediate_finish() {
    let mut rp = RequestPreset::new();
    rp.dump_end_confirm_ms = 0;
    let mut state = minimal_helix_state();
    rp.waiting_phase1_response = false;

    for _ in 0..3 {
        assert!(rp.data_in(&full_272_chunk(), &mut state));
    }
    assert!(rp.data_in(&echo_sub08_16(), &mut state));
    assert!(!rp.dump_end_pending);
    assert!(!rp.await_dump_end_after_full_chunk);
}
