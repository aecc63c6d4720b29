use hxlinux::live_write::lookup_echo_model_block;
use hxlinux::state::HelixState;

fn echo_frame() -> Vec<u8> {
    let mut d = vec![0x2c, 0x00, 0x00, 0x18, 0x80, 0x10, 0xed, 0x03, 0x00, 0x11, 0x00, 0x04, 0, 0, 0, 0];
    d.extend_from_slice(&[0x01, 0x00, 0x06, 0x00, 0x17, 0x00, 0x00, 0x00]);
    d.extend_from_slice(&[0x83, 0x66, 0xcd, 0x03, 0x31, 0x64, 0x1e, 0x65, 0x85, 0x62, 0x02, 0x1d, 0xc3, 0x1a, 0x00, 0x1c]);
    d.extend_from_slice(&[0x05, 0x77, 0xca, 0x3f, 0x00, 0x00, 0x00, 0x00]);
    d
}

#[test]
fn echo_block_is_remembered_and_cached() {
    let mut state = HelixState::new();
    state.counters.ed03_live_write_seq_sent = Some(0x40);
    state.ingest_ed03_param_echo(&echo_frame(), &vec![(0x02, 0x05), (0x03, 0x07)]);
    let block = state.cab.last_ed03_echo_model.expect("block");
    assert_eq!(&block[..5], &[0x83, 0x66, 0xcd, 0x03, 0x31]);
    assert_eq!(state.counters.ed03_live_write_seq_sent, None);
    let list = &state.cab.ed03_echo_model_by_slot_param;
    assert_eq!(list.len(), 2);
    assert_eq!(lookup_echo_model_block(list, (0x02, 0x03, 0x05)), Some(block));
    assert_eq!(lookup_echo_model_block(list, (0x03, 0x03, 0x07)), Some(block));
    assert_eq!(lookup_echo_model_block(list, (0x02, 0x04, 0x05)), None);
}

#[test]
fn frame_without_marker_changes_nothing() {
    let mut state = HelixState::new();
    let mut d = echo_frame();
    d[4] = 0x81;
    state.ingest_ed03_param_echo(&d, &vec![(0x02, 0x05)]);
    assert!(state.cab.last_ed03_echo_model.is_none());
    assert!(state.cab.ed03_echo_model_by_slot_param.is_empty());
}

#[test]
fn path1_input_source_reports_changes_only() {
    let mut state = HelixState::new();
    let frame = vec![0x00, 0x82, 0x62, 0x00, 0x33, 0x02, 0x00];
    let first = state.ingest_path1_input_source_wire_in(&frame);
    let second = state.ingest_path1_input_source_wire_in(&frame);
    assert_eq!(second, None);
    if let Some(w) = first {
        assert_eq!(state.slot.path1_input_source_wire, Some(w));
        let p = state.path1_input_source_changed_payload(w, &frame);
        assert_eq!(p.wire_value, w);
    }
}
