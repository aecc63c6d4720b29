use hxlinux::hx_edit_console_cmds::{hx_console_change_cab2, CAB2_BULK_27, CAB2_FOCUS_1D};
use hxlinux::state::HelixState;

#[test]
fn change_cab2_core_is_coherent_on_live_write_lane() {
    let mut st = HelixState::new();
    st.counters.live_write_ctr = 0x6e7d;
    st.counters.x80_cnt = 0x99;
    let r = hx_console_change_cab2(&mut st, 0, false);
    assert_eq!(r, Ok(3));
    assert_eq!(st.outbox.len(), 3);

    let focus = &st.outbox[0];
    assert_eq!(focus.data.len(), CAB2_FOCUS_1D.len());
    assert_eq!(focus.data[0], 0x1d);
    assert_eq!(focus.data[9], 0x99);
    assert_eq!(&focus.data[12..14], &[0x7d, 0x6e]);
    assert_eq!(focus.data[28], 0x00);
    assert_eq!(focus.data[34], 0x01);
    assert_eq!(focus.delay_ms, 0);

    let ed08 = &st.outbox[1];
    assert_eq!(ed08.data.len(), 16);
    assert_eq!(ed08.data[9], 0x9a);
    assert_eq!(&ed08.data[12..14], &[0x8e, 0x6e]);
    assert_eq!(ed08.delay_ms, 93);

    let bulk = &st.outbox[2];
    assert_eq!(bulk.data.len(), CAB2_BULK_27.len());
    assert_eq!(bulk.data[9], 0x9b);
    assert_eq!(&bulk.data[12..14], &[0x8e, 0x6e]);
    assert_eq!(&bulk.data[38..47], &[0xc3, 0x19, 0xcd, 0x03, 0x1c, 0x1a, 0xcd, 0x03, 0x1c]);
    assert_eq!(bulk.delay_ms, 400);

    assert_eq!(st.counters.live_write_ctr, 0x6e8e);
    assert_eq!(st.counters.x80_cnt, 0x9c);
}

#[test]
fn change_cab2_patches_slot_bus_and_lane_of_path_two() {
    let mut st = HelixState::new();
    st.counters.live_write_ctr = 0xfff0;
    let r = hx_console_change_cab2(&mut st, 9, false);
    assert_eq!(r, Ok(3));
    // grid index 9 -> slot bus 0x0c, lane 2 * 9
    assert_eq!(st.outbox[0].data[34], 0x0c);
    assert_eq!(st.outbox[0].data[28], 18);
    assert_eq!(st.outbox[2].data[34], 0x0c);
    assert_eq!(st.outbox[2].data[28], 18);
    // L + 0x11 wraps on 16 bits
    assert_eq!(&st.outbox[1].data[12..14], &[0x01, 0x00]);
    assert_eq!(st.counters.live_write_ctr, 0x0001);
}

#[test]
fn change_cab2_full_sends_post_sequence_on_lanes() {
    let mut st = HelixState::new();
    st.counters.live_write_ctr = 0x1000;
    st.counters.x80_cnt = 0x10;
    st.counters.x2_cnt = 0x40;
    let r = hx_console_change_cab2(&mut st, 3, true);
    assert_eq!(r, Ok(18));
    assert_eq!(st.outbox.len(), 18);
    // firmware ACK f0:03 on the x2 lane, counters untouched otherwise
    let ack = &st.outbox[4];
    assert_eq!(&ack.data[4..8], &[0x02, 0x10, 0xf0, 0x03]);
    assert_eq!(ack.data[9], 0x40);
    assert_eq!(&ack.data[12..14], &[0x38, 0x29]);
    // the 80:10:ed:03 frames take consecutive x80 counters
    assert_eq!(st.outbox[3].data[9], 0x13);
    assert_eq!(st.outbox[5].data[9], 0x14);
    assert_eq!(st.outbox[17].data[9], 0x20);
    assert_eq!(&st.outbox[17].data[12..14], &[0x11, 0x10]);
    let delays: Vec<u64> = st.outbox.iter().map(|p| p.delay_ms).collect();
    assert_eq!(delays, vec![0, 93, 400, 140, 0, 32, 15, 3, 0, 1, 0, 1, 0, 1, 0, 1, 0, 7]);
    assert_eq!(st.counters.x2_cnt, 0x41);
    assert_eq!(st.counters.x80_cnt, 0x21);
}

#[test]
fn change_cab2_refuses_index_out_of_grid() {
    let mut st = HelixState::new();
    let ctr = st.counters.live_write_ctr;
    let r = hx_console_change_cab2(&mut st, 16, true);
    assert_eq!(r, Err("slotIndex hors plage (0..15)".to_string()));
    assert!(st.outbox.is_empty());
    assert_eq!(st.counters.live_write_ctr, ctr);
}
