//! Live write routing of a dual IR cab: cab 1 on lane `PP=03` with the local parameter index as
//! selector, cab 2 on `PP=04` with the offset selector; model block
//! `83:66:cd:PP:YY:64:1e:65:85:62:bus:1d:c3:1a:01:1c`. Both cab tabs are focused by a `1d`
//! carrying `83:66:cd:03` and `82:62:bus:1a:XX` (`XX=00` cab 1, `01` cab 2); the cab 2 model
//! replace focus carries `cd:04` and `1a:01`.
use vstd::prelude::*;
use crate::amp_cab_live_write::{build_amp_cab_ir_param_model_block, ir_param_model_block, legacy_f0_interstitial_spec};
use crate::bytes::{from_le, hi8, le16, lo8, lo_byte, hi_byte, wadd16, wadd8};
use crate::keep_alive::keepalive_ed_lane;
use crate::live_write::{echo_block_lookup, lookup_echo_model_block, LiveWriteRouteOverride};
use crate::packet::OutPacket;
use crate::slots::{echo_model_cache_key, kempline_index_to_slot_bus, kempline_index_to_slot_bus_spec};
use crate::state::{deadline_after, deadline_from, CabSession, Counters, HelixState};

verus! {

/// Source of the lane (bytes 12-14) that a cab focus `1d` carries.
#[derive(PartialEq, Eq, Structural, Clone, Copy, Debug)]
pub enum Cab2FocusLane {
    /// `session_quadruple` (bytes 0-2): the model lane that the device validates.
    SessionQuadruple,
    /// `editor_ed03_lane` + `editor_ed03_lane_b14`: the lane that makes the device dump.
    Editor,
    /// Keep-alive `ed:03` lane (`7e 1c`).
    Keepalive,
    /// `live_write_ctr` (low byte minus `0x11`, byte 14 = 0).
    LiveWrite,
}

/// Byte 11 of a configured focus: `0x14` when the option is on, else `0x04`.
pub fn cab2_focus_sub(state: &HelixState) -> (r: u8)
    ensures
        r == (if state.cab.cab2_focus_sub14 { 0x14u8 } else { 0x04u8 }),
{
    if state.cab.cab2_focus_sub14 { 0x14 } else { 0x04 }
}

/// Cab 2 model block of a dual IR cab slot.
pub fn build_cab_dual_cab2_ir_param_model_block(slot_bus: u8, tag_yy: u8) -> (r: [u8; 16])
    ensures
        r@ == ir_param_model_block(0x04, tag_yy, slot_bus),
{
    let r = [0x83, 0x66, 0xcd, 0x04, tag_yy, 0x64, 0x1e, 0x65, 0x85, 0x62, slot_bus, 0x1d, 0xc3, 0x1a, 0x01, 0x1c];
    assert(r@ == ir_param_model_block(0x04, tag_yy, slot_bus));
    r
}

/// Bytes 12-14 of a focus for the lane source.
pub open spec fn focus_triple_spec(s: HelixState, lane: Cab2FocusLane) -> (u8, u8, u8) {
    match lane {
        Cab2FocusLane::SessionQuadruple => (
            s.counters.session_quadruple@[0],
            s.counters.session_quadruple@[1],
            s.counters.session_quadruple@[2],
        ),
        Cab2FocusLane::Keepalive => (0x7eu8, 0x1cu8, 0x00u8),
        Cab2FocusLane::Editor => (lo8(s.lanes.editor_ed03_lane), hi8(s.lanes.editor_ed03_lane), s.lanes.editor_ed03_lane_b14),
        Cab2FocusLane::LiveWrite => (wadd8(lo8(s.counters.live_write_ctr), -0x11), hi8(s.counters.live_write_ctr), 0x00u8),
    }
}

/// Bytes 12-14 of a focus for the lane source.
pub fn cab2_focus_ctr_triple_for(state: &HelixState, lane_src: Cab2FocusLane) -> (r: (u8, u8, u8))
    ensures
        r == focus_triple_spec(*state, lane_src),
{
    match lane_src {
        Cab2FocusLane::SessionQuadruple => {
            let sq = state.counters.session_quadruple;
            (sq[0], sq[1], sq[2])
        },
        Cab2FocusLane::Keepalive => {
            let ka = keepalive_ed_lane();
            (ka[0], ka[1], 0x00)
        },
        Cab2FocusLane::Editor => {
            let lane = state.editor_ed03_lane_bytes();
            (lane[0], lane[1], state.lanes.editor_ed03_lane_b14)
        },
        Cab2FocusLane::LiveWrite => {
            let ctr = state.counters.live_write_ctr;
            (lo_byte(ctr).wrapping_sub(0x11), hi_byte(ctr), 0x00)
        },
    }
}

/// Focus `1d` of a cab tab or cab replace.
pub open spec fn cab_dual_focus_spec(cnt: u8, t: (u8, u8, u8), sub: u8, cd: u8, tag: u8, slot_bus: u8, suffix: u8) -> Seq<u8> {
    seq![
        0x1du8, 0x00, 0x00, 0x18, 0x80, 0x10, 0xed, 0x03, 0x00, cnt, 0x00, sub, t.0, t.1, t.2,
        0x00, 0x01, 0x00, 0x06, 0x00, 0x0d, 0x00, 0x00, 0x00, 0x83, 0x66, 0xcd, cd, tag,
        0x64, 0x4e, 0x65, 0x82, 0x62, slot_bus, 0x1a, suffix, 0x00, 0x00, 0x00,
    ]
}

/// The state after one x80 counter step.
pub open spec fn after_x80(s: HelixState) -> HelixState {
    HelixState { counters: Counters { x80_cnt: wadd8(s.counters.x80_cnt, 1), ..s.counters }, ..s }
}

/// Focus `1d`: lane `cd`, suffix `1a:suffix`, next x80 counter, live write tag.
pub fn build_cab_dual_focus_packet_with_lane(
    state: &mut HelixState,
    slot_bus: u8,
    lane_src: Cab2FocusLane,
    sub: u8,
    cd: u8,
    suffix_after_1a: u8,
) -> (r: Vec<u8>)
    ensures
        r@ == cab_dual_focus_spec(
            old(state).counters.x80_cnt,
            focus_triple_spec(*old(state), lane_src),
            sub,
            cd,
            old(state).counters.live_write_yy,
            slot_bus,
            suffix_after_1a,
        ),
        *final(state) == after_x80(*old(state)),
{
    let cnt = state.next_x80_cnt();
    let (b12, b13, b14) = cab2_focus_ctr_triple_for(state, lane_src);
    let tag = state.counters.live_write_yy;
    let r = vec![
        0x1d, 0x00, 0x00, 0x18, 0x80, 0x10, 0xed, 0x03, 0x00, cnt, 0x00, sub, b12, b13, b14,
        0x00, 0x01, 0x00, 0x06, 0x00, 0x0d, 0x00, 0x00, 0x00, 0x83, 0x66, 0xcd, cd, tag,
        0x64, 0x4e, 0x65, 0x82, 0x62, slot_bus, 0x1a, suffix_after_1a, 0x00, 0x00, 0x00,
    ];
    assert(r@ == cab_dual_focus_spec(cnt, (b12, b13, b14), sub, cd, tag, slot_bus, suffix_after_1a));
    r
}

/// Cab 2 tab focus (`cd:03`, `1a:01`) with the configured lane and byte 11.
pub fn build_cab_dual_cab2_tab_focus_packet(state: &mut HelixState, slot_bus: u8) -> (r: Vec<u8>)
    ensures
        r@ == cab_dual_focus_spec(
            old(state).counters.x80_cnt,
            focus_triple_spec(*old(state), old(state).cab.cab2_focus_lane),
            if old(state).cab.cab2_focus_sub14 { 0x14u8 } else { 0x04u8 },
            0x03,
            old(state).counters.live_write_yy,
            slot_bus,
            0x01,
        ),
        *final(state) == after_x80(*old(state)),
{
    let lane = state.cab.cab2_focus_lane;
    let sub = cab2_focus_sub(state);
    build_cab_dual_cab2_tab_focus_packet_with_lane(state, slot_bus, lane, sub)
}

/// Cab 2 tab focus (`cd:03`, `1a:01`).
pub fn build_cab_dual_cab2_tab_focus_packet_with_lane(
    state: &mut HelixState,
    slot_bus: u8,
    lane_src: Cab2FocusLane,
    sub: u8,
) -> (r: Vec<u8>)
    ensures
        r@ == cab_dual_focus_spec(
            old(state).counters.x80_cnt,
            focus_triple_spec(*old(state), lane_src),
            sub,
            0x03,
            old(state).counters.live_write_yy,
            slot_bus,
            0x01,
        ),
        *final(state) == after_x80(*old(state)),
{
    build_cab_dual_focus_packet_with_lane(state, slot_bus, lane_src, sub, 0x03, 0x01)
}

/// Cab 2 replace focus (`cd:04`, `1a:01`) with the configured lane and byte 11.
pub fn build_cab_dual_cab2_replace_focus_packet(state: &mut HelixState, slot_bus: u8) -> (r: Vec<u8>)
    ensures
        r@ == cab_dual_focus_spec(
            old(state).counters.x80_cnt,
            focus_triple_spec(*old(state), old(state).cab.cab2_focus_lane),
            if old(state).cab.cab2_focus_sub14 { 0x14u8 } else { 0x04u8 },
            0x04,
            old(state).counters.live_write_yy,
            slot_bus,
            0x01,
        ),
        *final(state) == after_x80(*old(state)),
{
    let lane = state.cab.cab2_focus_lane;
    let sub = cab2_focus_sub(state);
    build_cab_dual_cab2_replace_focus_packet_with_lane(state, slot_bus, lane, sub)
}

/// Cab 2 sub-block focus before a replace (same as the replace focus).
pub fn build_cab_dual_cab2_focus_packet(state: &mut HelixState, slot_bus: u8) -> (r: Vec<u8>)
    ensures
        r@ == cab_dual_focus_spec(
            old(state).counters.x80_cnt,
            focus_triple_spec(*old(state), old(state).cab.cab2_focus_lane),
            if old(state).cab.cab2_focus_sub14 { 0x14u8 } else { 0x04u8 },
            0x04,
            old(state).counters.live_write_yy,
            slot_bus,
            0x01,
        ),
        *final(state) == after_x80(*old(state)),
{
    build_cab_dual_cab2_replace_focus_packet(state, slot_bus)
}

/// Cab 2 replace focus with the given lane source and byte 11.
pub fn build_cab_dual_cab2_focus_packet_with_lane(
    state: &mut HelixState,
    slot_bus: u8,
    lane_src: Cab2FocusLane,
    sub: u8,
) -> (r: Vec<u8>)
    ensures
        r@ == cab_dual_focus_spec(
            old(state).counters.x80_cnt,
            focus_triple_spec(*old(state), lane_src),
            sub,
            0x04,
            old(state).counters.live_write_yy,
            slot_bus,
            0x01,
        ),
        *final(state) == after_x80(*old(state)),
{
    build_cab_dual_cab2_replace_focus_packet_with_lane(state, slot_bus, lane_src, sub)
}

/// Cab 2 replace focus (`cd:04`, `1a:01`).
pub fn build_cab_dual_cab2_replace_focus_packet_with_lane(
    state: &mut HelixState,
    slot_bus: u8,
    lane_src: Cab2FocusLane,
    sub: u8,
) -> (r: Vec<u8>)
    ensures
        r@ == cab_dual_focus_spec(
            old(state).counters.x80_cnt,
            focus_triple_spec(*old(state), lane_src),
            sub,
            0x04,
            old(state).counters.live_write_yy,
            slot_bus,
            0x01,
        ),
        *final(state) == after_x80(*old(state)),
{
    build_cab_dual_focus_packet_with_lane(state, slot_bus, lane_src, sub, 0x04, 0x01)
}

/// Cab 2 replace focus on the editor lane (`true`) or the live write lane, byte 11 = `0x04`.
pub fn build_cab_dual_cab2_focus_packet_with_source(state: &mut HelixState, slot_bus: u8, use_editor_lane: bool) -> (r: Vec<u8>)
    ensures
        r@ == cab_dual_focus_spec(
            old(state).counters.x80_cnt,
            focus_triple_spec(*old(state), if use_editor_lane { Cab2FocusLane::Editor } else { Cab2FocusLane::LiveWrite }),
            0x04,
            0x04,
            old(state).counters.live_write_yy,
            slot_bus,
            0x01,
        ),
        *final(state) == after_x80(*old(state)),
{
    let lane_src = if use_editor_lane { Cab2FocusLane::Editor } else { Cab2FocusLane::LiveWrite };
    build_cab_dual_cab2_focus_packet_with_lane(state, slot_bus, lane_src, 0x04)
}

pub open spec fn in36_cd04_spec(d: Seq<u8>) -> bool {
    d.len() >= 28 && d[24] == 0x83 && d[25] == 0x66 && d[26] == 0xcd && d[27] == 0x04
}

/// IN `19`/36 on the occupied lane `cd:04`.
pub fn cab_dual_in36_uses_cd04_lane(in36: &[u8]) -> (r: bool)
    ensures
        r == in36_cd04_spec(in36@),
{
    in36.len() >= 28 && in36[24] == 0x83 && in36[25] == 0x66 && in36[26] == 0xcd && in36[27] == 0x04
}

/// `ed:08` counter derived from an IN 36: `LE(in36[12] + 0x11, in36[13])` (diagnostic only).
pub fn cab_dual_ed08_ctr_from_in36(in36: &[u8]) -> (r: Option<u16>)
    ensures
        in36@.len() < 14 ==> r is None,
        in36@.len() >= 14 ==> r == Some(le16(wadd8(in36@[12], 0x11), in36@[13])),
{
    if in36.len() < 14 {
        return None;
    }
    Some(from_le(in36[12].wrapping_add(0x11), in36[13]))
}

/// `ed:08` counter derived from a focus `1d`: from bytes 13-14 when byte 14 is not zero, else
/// from bytes 12-13 (low byte plus `0x11`).
pub open spec fn ed08_from_focus_spec(f: Seq<u8>) -> Option<u16> {
    if f.len() < 15 || f[0] != 0x1d {
        None
    } else if f[14] != 0 {
        Some(le16(wadd8(f[13], 0x11), f[14]))
    } else {
        Some(le16(wadd8(f[12], 0x11), f[13]))
    }
}

/// `ed:08` counter derived from a focus `1d`.
pub fn cab_dual_ed08_ctr_from_focus(focus: &[u8]) -> (r: Option<u16>)
    ensures
        r == ed08_from_focus_spec(focus@),
{
    if focus.len() < 15 || focus[0] != 0x1d {
        return None;
    }
    if focus[14] != 0 {
        Some(from_le(focus[13].wrapping_add(0x11), focus[14]))
    } else {
        Some(from_le(focus[12].wrapping_add(0x11), focus[13]))
    }
}

/// `ed:08` counter of the IN `21` handshake: always derived from the focus (0 without one);
/// the IN 36 is not used.
pub fn cab_dual_ed08_ctr_for_handshake(focus: &[u8], in36: &[u8]) -> (r: u16)
    ensures
        r == (match ed08_from_focus_spec(focus@) {
            Some(c) => c,
            None => 0u16,
        }),
{
    match cab_dual_ed08_ctr_from_focus(focus) {
        Some(c) => c,
        None => 0,
    }
}

/// Records the cab 2 counter of an IN `19`/36 on lane `cd:04`.
pub fn ingest_cab_dual_cab2_in36(state: &mut HelixState, data: &[u8])
    ensures
        !(data@.len() == 36 && data@[0] == 0x19 && in36_cd04_spec(data@)) ==> *final(state) == *old(state),
        (data@.len() == 36 && data@[0] == 0x19 && in36_cd04_spec(data@)) ==> {
            &&& final(state).cab.cab_dual_cab2_last_in36_frame matches Some(f) && f@ == data@
            &&& final(state).cab.cab_dual_cab2_last_in36_ed08_ctr == Some(le16(wadd8(data@[12], 0x11), data@[13]))
            &&& *final(state) == (HelixState {
                cab: CabSession {
                    cab_dual_cab2_last_in36_frame: final(state).cab.cab_dual_cab2_last_in36_frame,
                    cab_dual_cab2_last_in36_ed08_ctr: final(state).cab.cab_dual_cab2_last_in36_ed08_ctr,
                    ..old(state).cab
                },
                ..*old(state)
            })
        },
{
    if data.len() != 36 || data[0] != 0x19 || !cab_dual_in36_uses_cd04_lane(data) {
        return;
    }
    state.cab.cab_dual_cab2_last_in36_frame = Some(vstd::slice::slice_to_vec(data));
    if let Some(ctr) = cab_dual_ed08_ctr_from_in36(data) {
        state.cab.cab_dual_cab2_last_in36_ed08_ctr = Some(ctr);
    }
}

/// Queues the `f0:03` sub=`08` poke after a cab focus (next x2 counter, scroll lane).
pub fn send_cab_dual_cab2_f008_poke(state: &mut HelixState)
    ensures
        final(state).outbox@.len() == old(state).outbox@.len() + 1,
        final(state).outbox@.drop_last() == old(state).outbox@,
        final(state).outbox@.last().data@ == legacy_f0_interstitial_spec(old(state).counters.x2_cnt, old(state).scroll.firmware_scroll_ack_ctr),
        final(state).outbox@.last().delay_ms == 0,
        *final(state) == (HelixState {
            counters: Counters { x2_cnt: wadd8(old(state).counters.x2_cnt, 1), ..old(state).counters },
            outbox: final(state).outbox,
            ..*old(state)
        }),
{
    let d = state.firmware_scroll_lane_double();
    let ctr = from_le(d[0], d[1]);
    let seq = state.next_x2_cnt();
    let pkt = vec![0x08, 0x00, 0x00, 0x18, 0x02, 0x10, 0xf0, 0x03, 0x00, seq, 0x00, 0x08, lo_byte(ctr), hi_byte(ctr), 0x00, 0x00];
    proof {
        let c = old(state).scroll.firmware_scroll_ack_ctr;
        assert(le16(lo8(c), hi8(c)) == c) by (bit_vector)
            requires true;
    }
    assert(pkt@ == legacy_f0_interstitial_spec(old(state).counters.x2_cnt, old(state).scroll.firmware_scroll_ack_ctr));
    state.send(OutPacket::new(pkt));
}

/// `f0:03` poke with sub-command `sub` (byte 11): x2 counter `cnt`, scroll lane `lane`.
pub open spec fn f0_poke_spec(cnt: u8, lane: u16, sub: u8) -> Seq<u8> {
    seq![0x08u8, 0x00, 0x00, 0x18, 0x02, 0x10, 0xf0, 0x03, 0x00, cnt, 0x00, sub, lo8(lane), hi8(lane), 0x00, 0x00]
}

/// `f0:03` poke with sub-command `sub`: next x2 counter, current scroll lane.
pub fn build_cab_dual_f0_poke(state: &mut HelixState, sub: u8) -> (r: Vec<u8>)
    ensures
        r@ == f0_poke_spec(old(state).counters.x2_cnt, old(state).scroll.firmware_scroll_ack_ctr, sub),
        *final(state) == (HelixState {
            counters: Counters { x2_cnt: wadd8(old(state).counters.x2_cnt, 1), ..old(state).counters },
            ..*old(state)
        }),
{
    let d = state.firmware_scroll_lane_double();
    let ctr = from_le(d[0], d[1]);
    let seq = state.next_x2_cnt();
    let pkt = vec![0x08, 0x00, 0x00, 0x18, 0x02, 0x10, 0xf0, 0x03, 0x00, seq, 0x00, sub, lo_byte(ctr), hi_byte(ctr), 0x00, 0x00];
    proof {
        let c = old(state).scroll.firmware_scroll_ack_ctr;
        assert(le16(lo8(c), hi8(c)) == c) by (bit_vector)
            requires true;
    }
    assert(pkt@ == f0_poke_spec(old(state).counters.x2_cnt, old(state).scroll.firmware_scroll_ack_ctr, sub));
    pkt
}

/// Queues the `f0:03` poke with sub-command `sub` (next x2 counter, scroll lane).
pub fn send_cab_dual_f0_poke(state: &mut HelixState, sub: u8)
    ensures
        final(state).outbox@.len() == old(state).outbox@.len() + 1,
        final(state).outbox@.drop_last() == old(state).outbox@,
        final(state).outbox@.last().data@ == f0_poke_spec(old(state).counters.x2_cnt, old(state).scroll.firmware_scroll_ack_ctr, sub),
        final(state).outbox@.last().delay_ms == 0,
        final(state).outbox@.last().tail_burst@.len() == 0,
        *final(state) == (HelixState {
            counters: Counters { x2_cnt: wadd8(old(state).counters.x2_cnt, 1), ..old(state).counters },
            outbox: final(state).outbox,
            ..*old(state)
        }),
{
    let pkt = build_cab_dual_f0_poke(state, sub);
    state.send(OutPacket::new(pkt));
}

/// Cab 1 tab focus (`cd:03`, `1a:00`) with the configured lane and byte 11.
fn build_cab_dual_cab1_focus_packet(state: &mut HelixState, slot_bus: u8) -> (r: Vec<u8>)
    ensures
        r@ == cab_dual_focus_spec(
            old(state).counters.x80_cnt,
            focus_triple_spec(*old(state), old(state).cab.cab2_focus_lane),
            if old(state).cab.cab2_focus_sub14 { 0x14u8 } else { 0x04u8 },
            0x03,
            old(state).counters.live_write_yy,
            slot_bus,
            0x00,
        ),
        *final(state) == after_x80(*old(state)),
{
    let lane = state.cab.cab2_focus_lane;
    let sub = cab2_focus_sub(state);
    build_cab_dual_focus_packet_with_lane(state, slot_bus, lane, sub, 0x03, 0x00)
}

/// Cab 1 tab focus then the `f0:08` poke; the cab 2 handshake and focus records are cleared
/// and the live write tag moves on.
pub fn send_cab_dual_cab1_focus_and_poke(state: &mut HelixState, slot_index: u32, slot_bus: u8)
    ensures
        ({
            let s = *old(state);
            let n = s.outbox@.len() as int;
            &&& final(state).outbox@.len() == n + 2
            &&& final(state).outbox@.subrange(0, n) == s.outbox@
            &&& final(state).outbox@[n].data@ == cab_dual_focus_spec(
                s.counters.x80_cnt,
                focus_triple_spec(s, s.cab.cab2_focus_lane),
                if s.cab.cab2_focus_sub14 { 0x14u8 } else { 0x04u8 },
                0x03,
                s.counters.live_write_yy,
                slot_bus,
                0x00,
            )
            &&& final(state).outbox@[n + 1].data@ == legacy_f0_interstitial_spec(s.counters.x2_cnt, s.scroll.firmware_scroll_ack_ctr)
            &&& final(state).counters == (Counters {
                x80_cnt: wadd8(s.counters.x80_cnt, 1),
                x2_cnt: wadd8(s.counters.x2_cnt, 1),
                live_write_yy: wadd8(s.counters.live_write_yy, 1),
                ..s.counters
            })
            &&& final(state).cab.cab_dual_cab2_handshake_capture@.len() == 0
            &&& final(state).cab == (CabSession {
                cab_dual_cab2_handshake_capture: final(state).cab.cab_dual_cab2_handshake_capture,
                cab_dual_cab2_handshake_until: None,
                cab_dual_cab2_focus_sent_for_slot: None,
                last_cab_dual_cab2_focus_packet: None,
                cab_dual_cab2_suppress_standard_ed08_until: None,
                ..s.cab
            })
            &&& *final(state) == (HelixState {
                counters: final(state).counters,
                cab: final(state).cab,
                outbox: final(state).outbox,
                ..s
            })
        }),
{
    state.cab.cab_dual_cab2_handshake_capture = Vec::new();
    state.cab.cab_dual_cab2_handshake_until = None;
    state.cab.cab_dual_cab2_focus_sent_for_slot = None;
    state.cab.last_cab_dual_cab2_focus_packet = None;
    state.cab.cab_dual_cab2_suppress_standard_ed08_until = None;
    let ghost mid = *state;
    assert(focus_triple_spec(mid, mid.cab.cab2_focus_lane) == focus_triple_spec(*old(state), old(state).cab.cab2_focus_lane));
    let focus = build_cab_dual_cab1_focus_packet(state, slot_bus);
    let ghost n0 = state.outbox@.len();
    state.send(OutPacket::new(focus));
    assert(state.outbox@[n0 as int].data@ == focus@);
    state.counters.live_write_yy = state.counters.live_write_yy.wrapping_add(1);
    send_cab_dual_cab2_f008_poke(state);
    assert(state.outbox@.subrange(0, old(state).outbox@.len() as int) == old(state).outbox@);
}

/// Cab 2 tab focus then the `f0:08` poke; opens a 700 ms handshake window and records the
/// focus for the slot.
pub fn send_cab_dual_cab2_focus_and_poke(state: &mut HelixState, slot_index: u32, slot_bus: u8)
    ensures
        ({
            let s = *old(state);
            let n = s.outbox@.len() as int;
            let yy = wadd8(s.counters.live_write_yy, 1);
            &&& final(state).outbox@.len() == n + 2
            &&& final(state).outbox@.subrange(0, n) == s.outbox@
            &&& final(state).outbox@[n].data@ == cab_dual_focus_spec(
                s.counters.x80_cnt,
                focus_triple_spec(s, s.cab.cab2_focus_lane),
                if s.cab.cab2_focus_sub14 { 0x14u8 } else { 0x04u8 },
                0x03,
                s.counters.live_write_yy,
                slot_bus,
                0x01,
            )
            &&& final(state).outbox@[n + 1].data@ == legacy_f0_interstitial_spec(s.counters.x2_cnt, s.scroll.firmware_scroll_ack_ctr)
            &&& final(state).counters == (Counters {
                x80_cnt: wadd8(s.counters.x80_cnt, 1),
                x2_cnt: wadd8(s.counters.x2_cnt, 1),
                live_write_yy: yy,
                slot_model_lane_seq: Some(yy),
                ..s.counters
            })
            &&& final(state).cab.cab_dual_cab2_handshake_capture@.len() == 0
            &&& final(state).cab == (CabSession {
                cab_dual_cab2_handshake_capture: final(state).cab.cab_dual_cab2_handshake_capture,
                cab_dual_cab2_handshake_until: Some(deadline_after(s.now_ms, 700)),
                cab_dual_cab2_focus_sent_for_slot: Some(slot_index),
                ..s.cab
            })
            &&& *final(state) == (HelixState {
                counters: final(state).counters,
                cab: final(state).cab,
                outbox: final(state).outbox,
                ..s
            })
        }),
{
    state.cab.cab_dual_cab2_handshake_capture = Vec::new();
    state.cab.cab_dual_cab2_handshake_until = Some(deadline_from(state.now_ms, 700));
    let ghost mid = *state;
    assert(focus_triple_spec(mid, mid.cab.cab2_focus_lane) == focus_triple_spec(*old(state), old(state).cab.cab2_focus_lane));
    let focus = build_cab_dual_cab2_tab_focus_packet(state, slot_bus);
    let ghost n0 = state.outbox@.len();
    state.send(OutPacket::new(focus));
    assert(state.outbox@[n0 as int].data@ == focus@);
    state.counters.live_write_yy = state.counters.live_write_yy.wrapping_add(1);
    state.counters.slot_model_lane_seq = Some(state.counters.live_write_yy);
    state.cab.cab_dual_cab2_focus_sent_for_slot = Some(slot_index);
    send_cab_dual_cab2_f008_poke(state);
    assert(state.outbox@.subrange(0, old(state).outbox@.len() as int) == old(state).outbox@);
}

/// Cab 2 focus right before a replace or a live write: holds back the standard `ed:08`
/// auto-ACK for 45 s, takes the live write lane from the last IN 36 when there is one, and
/// records the focus for the slot.
pub fn send_cab_dual_cab2_focus(state: &mut HelixState, slot_index: u32, slot_bus: u8)
    ensures
        ({
            let s = *old(state);
            let s1 = HelixState {
                counters: Counters {
                    live_write_ctr: match s.cab.cab_dual_cab2_last_in36_ed08_ctr {
                        Some(c) => c,
                        None => s.counters.live_write_ctr,
                    },
                    ..s.counters
                },
                ..s
            };
            let yy = wadd8(s.counters.live_write_yy, 1);
            let pkt = cab_dual_focus_spec(
                s.counters.x80_cnt,
                focus_triple_spec(s1, s.cab.cab2_focus_lane),
                if s.cab.cab2_focus_sub14 { 0x14u8 } else { 0x04u8 },
                0x04,
                s.counters.live_write_yy,
                slot_bus,
                0x01,
            );
            &&& final(state).outbox@.len() == s.outbox@.len() + 1
            &&& final(state).outbox@.drop_last() == s.outbox@
            &&& final(state).outbox@.last().data@ == pkt
            &&& final(state).cab.last_cab_dual_cab2_focus_packet matches Some(f) && f@ == pkt
            &&& final(state).counters == (Counters {
                x80_cnt: wadd8(s.counters.x80_cnt, 1),
                live_write_yy: yy,
                slot_model_lane_seq: Some(yy),
                ..s1.counters
            })
            &&& final(state).cab == (CabSession {
                cab_dual_cab2_suppress_standard_ed08_until: Some(deadline_after(s.now_ms, 45000)),
                cab_dual_cab2_handshake_ed08_ctr: None,
                last_cab_dual_cab2_focus_packet: final(state).cab.last_cab_dual_cab2_focus_packet,
                cab_dual_cab2_focus_sent_for_slot: Some(slot_index),
                ..s.cab
            })
            &&& *final(state) == (HelixState {
                counters: final(state).counters,
                cab: final(state).cab,
                outbox: final(state).outbox,
                ..s
            })
        }),
{
    state.cab.cab_dual_cab2_suppress_standard_ed08_until = Some(deadline_from(state.now_ms, 45000));
    state.cab.cab_dual_cab2_handshake_ed08_ctr = None;
    if let Some(ctr) = state.cab.cab_dual_cab2_last_in36_ed08_ctr {
        state.counters.live_write_ctr = ctr;
    }
    let focus = build_cab_dual_cab2_focus_packet(state, slot_bus);
    state.cab.last_cab_dual_cab2_focus_packet = Some(crate::bytes::copy_bytes(&focus));
    state.send(OutPacket::new(focus));
    state.counters.live_write_yy = state.counters.live_write_yy.wrapping_add(1);
    state.counters.slot_model_lane_seq = Some(state.counters.live_write_yy);
    state.cab.cab_dual_cab2_focus_sent_for_slot = Some(slot_index);
}

/// Live write route of a dual cab parameter: the cached echo block when there is one for the
/// slot, the lane (`03` cab 1, `04` cab 2) and the selector, else the IR model block with the
/// live write tag. `None` for a cab index above 1 or a slot out of the grid.
pub fn resolve_cab_dual_live_write_route(state: &HelixState, cab_index: u8, param_index: u32, slot_index: u32) -> (r: Option<LiveWriteRouteOverride>)
    ensures
        (cab_index > 1 || kempline_index_to_slot_bus_spec(slot_index as int) is None) ==> r is None,
        (cab_index <= 1 && kempline_index_to_slot_bus_spec(slot_index as int) is Some) ==> ({
            let bus = kempline_index_to_slot_bus_spec(slot_index as int)->0;
            let sel: u8 = if param_index > 255 { 255u8 } else { param_index as u8 };
            let pp: u8 = if cab_index == 0 { 0x03u8 } else { 0x04u8 };
            &&& r matches Some(route)
            &&& route.param_selector == sel
            &&& route.discrete_wants_c2 == false
            &&& match echo_block_lookup(state.cab.ed03_echo_model_by_slot_param@, (bus, pp, sel)) {
                Some(b) => route.pp == b@[3] && route.model_block == b && route.preserve_model_tag
                    && route.pp_source@ == "cab_dual:echo_cache"@
                    && route.param_selector_source@ == (if cab_index == 0 { "cab_dual:cab1_echo_sel"@ } else { "cab_dual:cab2_echo_sel"@ }),
                None => route.pp == pp && route.model_block@ == ir_param_model_block(pp, state.counters.live_write_yy, bus)
                    && !route.preserve_model_tag
                    && route.pp_source@ == (if cab_index == 0 { "cab_dual:cab1_capture"@ } else { "cab_dual:cab2_capture"@ })
                    && route.param_selector_source@ == (if cab_index == 0 { "cab_dual:cab1_local_index"@ } else { "cab_dual:cab2_offset_index"@ }),
            }
        }),
{
    if cab_index > 1 {
        return None;
    }
    let slot_bus = match kempline_index_to_slot_bus(slot_index as usize) {
        Some(b) => b,
        None => return None,
    };
    let param_selector: u8 = if param_index > 255 { 255 } else { param_index as u8 };
    let pp: u8 = if cab_index == 0 { 0x03 } else { 0x04 };
    let key = echo_model_cache_key(slot_bus, pp, param_selector);
    if let Some(block) = lookup_echo_model_block(&state.cab.ed03_echo_model_by_slot_param, key) {
        return Some(LiveWriteRouteOverride {
            pp: block[3],
            pp_source: "cab_dual:echo_cache",
            param_selector,
            param_selector_source: if cab_index == 0 { "cab_dual:cab1_echo_sel" } else { "cab_dual:cab2_echo_sel" },
            model_block: block,
            preserve_model_tag: true,
            discrete_wants_c2: false,
        });
    }
    let model_block = if cab_index == 0 {
        build_amp_cab_ir_param_model_block(slot_bus, state.counters.live_write_yy)
    } else {
        build_cab_dual_cab2_ir_param_model_block(slot_bus, state.counters.live_write_yy)
    };
    Some(LiveWriteRouteOverride {
        pp,
        pp_source: if cab_index == 0 { "cab_dual:cab1_capture" } else { "cab_dual:cab2_capture" },
        param_selector,
        param_selector_source: if cab_index == 0 { "cab_dual:cab1_local_index" } else { "cab_dual:cab2_offset_index" },
        model_block,
        preserve_model_tag: false,
        discrete_wants_c2: false,
    })
}

} // verus!
