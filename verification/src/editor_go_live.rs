//! Editor "go live": two ED03 commands on the `ef:03` lane that HX Edit sends after the
//! names read and before the active preset read (`19` then `1b`), on the next editor
//! doubles and on the lane low byte in `+0x11` steps (high byte kept). Off unless
//! `editor_go_live` is set.
use vstd::prelude::*;
use crate::bytes::{lo8, hi8, wadd8, from_le, lo_byte, hi_byte};
use crate::packet::OutPacket;
use crate::state::{next_editor_double_spec, Counters, EditorLanes, HelixState};

verus! {

/// Step of the `ef:03` lane low byte between two go-live commands.
pub const GO_LIVE_LANE_LO_DELTA: u8 = 0x11;

/// Go-live command (`19`: term `70`, tail `c0 00 00 00`; `1b`: term `0d`, tail `81 65 02 00`).
pub open spec fn go_live_packet(head: u8, cnt: u8, lane_lo: u8, lane_hi: u8, d_lo: u8, d_hi: u8) -> Seq<u8> {
    let (len_byte, term, t0, t1, t2) = if head == 0x19 {
        (0x09u8, 0x70u8, 0xc0u8, 0x00u8, 0x00u8)
    } else {
        (0x0bu8, 0x0du8, 0x81u8, 0x65u8, 0x02u8)
    };
    seq![
        head, 0x00, 0x00, 0x18, 0x01, 0x10, 0xef, 0x03, 0x00, cnt, 0x00, 0x0c, lane_lo, lane_hi, 0x00,
        0x00, 0x01, 0x00, 0x02, 0x00, len_byte, 0x00, 0x00, 0x00, 0x83, 0x66, 0xcd, 0x03, d_lo, d_hi,
        term, 0x65, t0, t1, t2, 0x00,
    ]
}

/// The go-live `19` from the current state (next x1 counter, next editor double).
pub fn build_go_live_19(state: &mut HelixState, lane_lo: u8, lane_hi: u8) -> (r: Vec<u8>)
    ensures
        ({
            let s = *old(state);
            let d = next_editor_double_spec(s.lanes.editor_ed03_double, s.lanes.editor_double_pin_hi, s.lanes.editor_double_skip_00);
            &&& r@ == go_live_packet(0x19, s.counters.x1_cnt, lane_lo, lane_hi, lo8(d), hi8(d))
            &&& *final(state) == (HelixState {
                counters: Counters { x1_cnt: wadd8(s.counters.x1_cnt, 1), ..s.counters },
                lanes: EditorLanes { editor_ed03_double: d, ..s.lanes },
                ..s
            })
        }),
{
    let cnt = state.next_x1_cnt();
    let dbl = state.next_editor_ed03_double();
    vec![
        0x19, 0x00, 0x00, 0x18, 0x01, 0x10, 0xef, 0x03, 0x00, cnt, 0x00, 0x0c, lane_lo, lane_hi,
        0x00, 0x00, 0x01, 0x00, 0x02, 0x00, 0x09, 0x00, 0x00, 0x00, 0x83, 0x66, 0xcd, 0x03, dbl[0],
        dbl[1], 0x70, 0x65, 0xc0, 0x00, 0x00, 0x00,
    ]
}

/// The go-live `1b` from the current state (next x1 counter, next editor double).
pub fn build_go_live_1b(state: &mut HelixState, lane_lo: u8, lane_hi: u8) -> (r: Vec<u8>)
    ensures
        ({
            let s = *old(state);
            let d = next_editor_double_spec(s.lanes.editor_ed03_double, s.lanes.editor_double_pin_hi, s.lanes.editor_double_skip_00);
            &&& r@ == go_live_packet(0x1b, s.counters.x1_cnt, lane_lo, lane_hi, lo8(d), hi8(d))
            &&& *final(state) == (HelixState {
                counters: Counters { x1_cnt: wadd8(s.counters.x1_cnt, 1), ..s.counters },
                lanes: EditorLanes { editor_ed03_double: d, ..s.lanes },
                ..s
            })
        }),
{
    let cnt = state.next_x1_cnt();
    let dbl = state.next_editor_ed03_double();
    vec![
        0x1b, 0x00, 0x00, 0x18, 0x01, 0x10, 0xef, 0x03, 0x00, cnt, 0x00, 0x0c, lane_lo, lane_hi,
        0x00, 0x00, 0x01, 0x00, 0x02, 0x00, 0x0b, 0x00, 0x00, 0x00, 0x83, 0x66, 0xcd, 0x03, dbl[0],
        dbl[1], 0x0d, 0x65, 0x81, 0x65, 0x02, 0x00,
    ]
}

/// Sends the two go-live commands when `editor_go_live` is set; returns whether it did.
/// The commands take the lane low byte `lo` and `lo + 0x11`; afterwards the lane low byte
/// is `lo + 0x22` (high byte kept).
pub fn send_if_enabled(state: &mut HelixState) -> (r: bool)
    ensures
        r == old(state).lanes.editor_go_live,
        !r ==> *final(state) == *old(state),
        r ==> ({
            let s = *old(state);
            let lo = lo8(s.lanes.editor_ed03_lane);
            let hi = hi8(s.lanes.editor_ed03_lane);
            let d1 = next_editor_double_spec(s.lanes.editor_ed03_double, s.lanes.editor_double_pin_hi, s.lanes.editor_double_skip_00);
            let d2 = next_editor_double_spec(d1, s.lanes.editor_double_pin_hi, s.lanes.editor_double_skip_00);
            &&& final(state).outbox@.len() == s.outbox@.len() + 2
            &&& final(state).outbox@.subrange(0, s.outbox@.len() as int) == s.outbox@
            &&& final(state).outbox@[s.outbox@.len() as int].data@ == go_live_packet(0x19, s.counters.x1_cnt, lo, hi, lo8(d1), hi8(d1))
            &&& final(state).outbox@[s.outbox@.len() as int + 1].data@ == go_live_packet(
                0x1b,
                wadd8(s.counters.x1_cnt, 1),
                wadd8(lo, 0x11),
                hi,
                lo8(d2),
                hi8(d2),
            )
            &&& lo8(final(state).lanes.editor_ed03_lane) == wadd8(lo, 0x22)
            &&& hi8(final(state).lanes.editor_ed03_lane) == hi
            &&& final(state).lanes.editor_ed03_double == d2
            &&& final(state).counters == (Counters { x1_cnt: wadd8(s.counters.x1_cnt, 2), ..s.counters })
        }),
{
    if !state.lanes.editor_go_live {
        return false;
    }
    let lane = state.editor_ed03_lane_bytes();
    let hi = lane[1];
    let lo1 = lane[0];
    let lo2 = lo1.wrapping_add(GO_LIVE_LANE_LO_DELTA);
    let pkt1 = build_go_live_19(state, lo1, hi);
    state.send(OutPacket::new(pkt1));
    let pkt2 = build_go_live_1b(state, lo2, hi);
    state.send(OutPacket::new(pkt2));
    let new_lo = lo2.wrapping_add(GO_LIVE_LANE_LO_DELTA);
    state.lanes.editor_ed03_lane = from_le(new_lo, hi);
    proof {
        crate::bytes::lemma_wadd8_twice(lo1, 0x11, 0x11);
        crate::bytes::lemma_wadd8_twice(old(state).counters.x1_cnt, 1, 1);
    }
    true
}

} // verus!
