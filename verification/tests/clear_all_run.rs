use hxlinux::clear_all_preset_blocks::{
    clear_all_advance, clear_all_run_of, clear_all_timeout_message, open_clear_all_wait, ClearAllInEvent,
    ClearAllStep,
};
use hxlinux::state::HelixState;

fn template() -> Vec<u8> {
    let mut t = vec![0u8; 36];
    t[0] = 0x19;
    t[3] = 0x18;
    t[4] = 0x80;
    t[5] = 0x10;
    t[6] = 0xed;
    t[7] = 0x03;
    t
}

#[test]
fn clear_all_waits_after_group_and_times_out() {
    let mut st = HelixState::new();
    st.now_ms = 1_000;
    open_clear_all_wait(&mut st);
    let run = clear_all_run_of(&st, true);
    let templates = vec![template(), template(), template()];
    let s1 = clear_all_advance(&mut st, &run, &templates, ClearAllStep::Send(0));
    assert_eq!(s1, ClearAllStep::Send(1));
    let s2 = clear_all_advance(&mut st, &run, &templates, s1);
    assert_eq!(s2, ClearAllStep::AwaitAck(1, 1_500));
    assert_eq!(st.outbox.len(), 2);
    st.now_ms = 1_499;
    assert_eq!(clear_all_advance(&mut st, &run, &templates, s2), s2);
    st.now_ms = 1_500;
    assert_eq!(clear_all_advance(&mut st, &run, &templates, s2), ClearAllStep::TimedOut(1));
    assert_eq!(clear_all_timeout_message(1), "clear all idx=1 : timeout 500 ms sans ack device");
}

#[test]
fn clear_all_ack_moves_on_and_ends_with_bumped_lane() {
    let mut st = HelixState::new();
    let base = st.counters.live_write_ctr;
    open_clear_all_wait(&mut st);
    let run = clear_all_run_of(&st, true);
    let templates = vec![template(), template(), template()];
    let mut step = ClearAllStep::Send(0);
    step = clear_all_advance(&mut st, &run, &templates, step);
    step = clear_all_advance(&mut st, &run, &templates, step);
    assert!(matches!(step, ClearAllStep::AwaitAck(1, _)));
    st.tx.clear_all_wait.as_mut().unwrap().events.push(ClearAllInEvent::DeviceAck);
    step = clear_all_advance(&mut st, &run, &templates, step);
    assert_eq!(step, ClearAllStep::Send(2));
    step = clear_all_advance(&mut st, &run, &templates, step);
    assert_eq!(step, ClearAllStep::Send(3));
    step = clear_all_advance(&mut st, &run, &templates, step);
    assert_eq!(step, ClearAllStep::Done);
    assert_eq!(st.outbox.len(), 3);
    assert_eq!(st.counters.live_write_ctr, base.wrapping_add(0x11));
}

#[test]
fn clear_all_without_handshake_never_waits() {
    let mut st = HelixState::new();
    let run = clear_all_run_of(&st, false);
    let templates = vec![template(), template(), template()];
    let mut step = ClearAllStep::Send(0);
    for _ in 0..4 {
        step = clear_all_advance(&mut st, &run, &templates, step);
    }
    assert_eq!(step, ClearAllStep::Done);
}
