use hxlinux::amp_cab_live_write::{
    amp_cab_tab_focus_after_ed08_delay, amp_cab_tab_focus_begin, build_amp_cab_amp_focus_packet,
    patch_amp_cab_tab_focus_lane_tag,
};
use hxlinux::state::HelixState;

fn connected_state() -> HelixState {
    let mut st = HelixState::new();
    st.session.connected = true;
    st.now_ms = 1_000;
    st.counters.live_write_ctr = 0x6e7d;
    st.counters.live_write_yy = 0x59;
    st.counters.x80_cnt = 0x20;
    st.counters.x2_cnt = 0x40;
    st.scroll.firmware_scroll_ack_ctr = 0x2938;
    st
}

#[test]
fn tab_focus_needs_a_connected_device() {
    let mut st = HelixState::new();
    st.session.connected = false;
    assert_eq!(amp_cab_tab_focus_begin(&mut st, 0, 0x01, true), None);
    assert!(st.outbox.is_empty());
    let mut st = connected_state();
    st.preset.preset_content_only = true;
    assert_eq!(amp_cab_tab_focus_begin(&mut st, 0, 0x01, true), None);
    assert!(st.outbox.is_empty());
}

#[test]
fn cab_tab_focus_uses_recorded_cab_tag_and_lane_l() {
    let mut st = connected_state();
    st.cab.amp_cab_focus_lane_tags_by_slot.push((2, (0xa1, 0xb2)));
    let l = amp_cab_tab_focus_begin(&mut st, 2, 0x03, true);
    assert_eq!(l, Some(0x6e7d));
    assert_eq!(st.outbox.len(), 1);
    let f = &st.outbox[0].data;
    assert_eq!(f[0], 0x1d);
    assert_eq!(f[9], 0x20);
    assert_eq!(&f[12..15], &[0x7d, 0x6e, 0x00]);
    assert_eq!(&f[24..29], &[0x83, 0x66, 0xcd, 0x03, 0xb2]);
    assert_eq!(st.counters.live_write_yy, 0x5a);
    assert_eq!(st.counters.slot_model_lane_seq, Some(0x5a));
    assert_eq!(st.cab.amp_cab_cab_focus_sent_for_slot, Some(2));
    assert_eq!(st.cab.cab_dual_cab2_suppress_standard_ed08_until, Some(1_450));

    amp_cab_tab_focus_after_ed08_delay(&mut st, 0x6e7d, true);
    assert_eq!(st.outbox.len(), 3);
    assert_eq!(
        st.outbox[1].data,
        vec![0x08, 0x00, 0x00, 0x18, 0x80, 0x10, 0xed, 0x03, 0x00, 0x21, 0x00, 0x08, 0x8e, 0x6e, 0x00, 0x00]
    );
    assert_eq!(
        st.outbox[2].data,
        vec![0x08, 0x00, 0x00, 0x18, 0x02, 0x10, 0xf0, 0x03, 0x00, 0x40, 0x00, 0x08, 0x38, 0x29, 0x00, 0x00]
    );
    assert_eq!(st.counters.live_write_ctr, 0x6e8e);
}

#[test]
fn amp_tab_focus_sends_f010_then_f008() {
    let mut st = connected_state();
    st.cab.amp_cab_focus_lane_tags_by_slot.push((2, (0xa1, 0xb2)));
    let l = amp_cab_tab_focus_begin(&mut st, 2, 0x03, false).unwrap();
    assert_eq!(st.outbox[0].data[28], 0xa1);
    assert_eq!(st.cab.amp_cab_cab_focus_sent_for_slot, None);
    amp_cab_tab_focus_after_ed08_delay(&mut st, l, false);
    assert_eq!(st.outbox.len(), 4);
    assert_eq!(st.outbox[2].data[11], 0x10);
    assert_eq!(st.outbox[2].data[9], 0x40);
    assert_eq!(st.outbox[2].delay_ms, 0);
    assert_eq!(st.outbox[3].data[11], 0x08);
    assert_eq!(st.outbox[3].data[9], 0x41);
    assert_eq!(st.outbox[3].delay_ms, 30);
    assert_eq!(st.counters.x2_cnt, 0x42);
}

#[test]
fn tab_focus_without_recorded_tags_uses_live_write_tag() {
    let mut st = connected_state();
    amp_cab_tab_focus_begin(&mut st, 5, 0x06, true).unwrap();
    assert_eq!(st.outbox[0].data[28], 0x59);
}

#[test]
fn amp_cab_tab_focus_amp_uses_stored_amp_lane_tag() {
    let mut s = HelixState::new();
    s.counters.live_write_yy = 0xfe;
    s.cab.amp_cab_focus_lane_tags_by_slot.insert(0, (3, (0xfb, 0xf9)));
    let _ = amp_cab_tab_focus_begin(&mut s, 3, 0x01, false);
    let mut state = HelixState::new();
    state.counters.live_write_yy = 0xfe;
    state.cab.amp_cab_focus_lane_tags_by_slot.insert(0, (3, (0xfb, 0xf9)));
    let mut pkt = build_amp_cab_amp_focus_packet(&mut state, 0x01);
    patch_amp_cab_tab_focus_lane_tag(&mut pkt, 0xfb);
    assert_eq!(pkt[28], 0xfb);
    assert_eq!(pkt[36], 0x00, "onglet Amp");
}
