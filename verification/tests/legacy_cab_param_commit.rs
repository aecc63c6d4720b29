use hxlinux::amp_cab_live_write::standalone_legacy_assign_uses_cd03ff;
use hxlinux::legacy_cab_param_commit::{
    handle_in_layer, start_standalone_legacy_cd03ff_write, tick_commit_timeouts, CommitStep,
};
use hxlinux::pipeline::LayerResult;
use hxlinux::state::HelixState;

const ASSIGN: [u8; 16] = [
    0x83, 0x66, 0xcd, 0x03, 0xff, 0x64, 0x28, 0x65, 0x82, 0x62, 0x01, 0x64, 0x83, 0x17, 0xc2,
    0x19,
];

#[test]
fn start_leaves_two_out_packets_only() {
    let mut state = HelixState::new();
    assert!(standalone_legacy_assign_uses_cd03ff(ASSIGN));
    start_standalone_legacy_cd03ff_write(&mut state, 0, ASSIGN, 0x00).expect("start");
    assert!(state.tx.standalone_legacy_param_commit.is_some());
    assert_eq!(state.outbox.len(), 2);
    assert_eq!(state.outbox[0].data[0], 0x1b);
    assert_eq!(state.outbox[0].data.len(), 36);
    assert_eq!(state.outbox[0].data[28], 0xfe);
    assert_eq!(state.outbox[1].data[4..8], [0x02, 0x10, 0xf0, 0x03]);
    assert_eq!(state.outbox[1].delay_ms, 8);
}

#[test]
fn start_rejects_slot_out_of_grid() {
    let mut state = HelixState::new();
    let err = start_standalone_legacy_cd03ff_write(&mut state, 16, ASSIGN, 0x00).unwrap_err();
    assert_eq!(err, "slotIndex invalide");
    assert!(state.tx.standalone_legacy_param_commit.is_none());
    assert!(state.outbox.is_empty());
}

#[test]
fn handshake_walks_dump_in21_then_272() {
    let mut state = HelixState::new();
    state.now_ms = 1_000;
    start_standalone_legacy_cd03ff_write(&mut state, 0, ASSIGN, 0x05).unwrap();
    let mut dump = vec![0u8; 40];
    dump[0] = 0x53;
    dump[4..8].copy_from_slice(&[0xed, 0x03, 0x80, 0x10]);
    let r = handle_in_layer(&mut state, &dump);
    assert!(matches!(r, LayerResult::Consumed { .. }));
    assert_eq!(state.outbox.len(), 3);
    assert_eq!(state.outbox[2].data[0], 0x19);
    assert_eq!(&state.outbox[2].data[27..29], &[0x03, 0xff]);
    let c = state.tx.standalone_legacy_param_commit.unwrap();
    assert_eq!(c.step, CommitStep::WaitIn21);

    let mut in21 = vec![0u8; 44];
    in21[0] = 0x21;
    let r = handle_in_layer(&mut state, &in21);
    assert!(matches!(r, LayerResult::Consumed { .. }));
    assert_eq!(state.outbox.len(), 5);
    assert_eq!(&state.outbox[3].data[27..29], &[0x04, 0x05]);
    assert_eq!(state.outbox[4].data[6], 0xf0);
    assert_eq!(
        state.tx.standalone_legacy_param_commit.unwrap().step,
        CommitStep::Await272Done
    );
}

#[test]
fn expired_commit_is_dropped_by_tick() {
    let mut state = HelixState::new();
    start_standalone_legacy_cd03ff_write(&mut state, 3, ASSIGN, 0x00).unwrap();
    state.now_ms += 800;
    tick_commit_timeouts(&mut state);
    assert!(state.tx.standalone_legacy_param_commit.is_none());
}
