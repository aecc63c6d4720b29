//! Insertion and removal of the Path 1 Split and Merge blocks (the path 2 branch).
use vstd::prelude::*;
use crate::bytes::{hi8, lo8, lo_byte, hi_byte, wadd16, wadd8};
use crate::packet::OutPacket;
use crate::path1_io_live_write::{build_post_1d_ack08, build_special_slot_focus_packet, post_1d_ack08_packet, special_focus_packet};
use crate::state::{next_editor_double_spec, Counters, EditorLanes, HelixState, SlotTracking};
use crate::text::{hex_of, string_push_str, text_of};

verus! {

pub const SPLIT_SLOT_BUS: u8 = 0x0a;
pub const MERGE_SLOT_BUS: u8 = 0x13;

/// Prelude `25` of the Split insertion.
pub const TEMPLATE_SPLIT_INSERT_PRELUDE_25: [u8; 48] = [
    0x25, 0x00, 0x00, 0x18, 0x80, 0x10, 0xed, 0x03, 0x00, 0x82, 0x00, 0x04, 0xe8, 0x74, 0x00,
    0x00, 0x01, 0x00, 0x06, 0x00, 0x15, 0x00, 0x00, 0x00, 0x83, 0x66, 0xcd, 0x05, 0x09, 0x64,
    0x28, 0x65, 0x82, 0x62, 0x01, 0x64, 0x83, 0x17, 0xc2, 0x19, 0xcd, 0x01, 0x9b, 0x1a, 0xff,
    0x00, 0x00, 0x00,
];

/// Split insertion `1b`.
pub const TEMPLATE_SPLIT_INSERT_1B: [u8; 36] = [
    0x1b, 0x00, 0x00, 0x18, 0x80, 0x10, 0xed, 0x03, 0x00, 0x83, 0x00, 0x0c, 0x41, 0x75, 0x00,
    0x00, 0x01, 0x00, 0x06, 0x00, 0x0b, 0x00, 0x00, 0x00, 0x83, 0x66, 0xcd, 0x05, 0x0a, 0x64,
    0x21, 0x65, 0x81, 0x66, 0x08, 0x00,
];

/// Merge insertion `25`.
pub const TEMPLATE_MERGE_INSERT_25: [u8; 48] = [
    0x25, 0x00, 0x00, 0x18, 0x80, 0x10, 0xed, 0x03, 0x00, 0x95, 0x00, 0x04, 0xfc, 0x77, 0x00,
    0x00, 0x01, 0x00, 0x06, 0x00, 0x15, 0x00, 0x00, 0x00, 0x83, 0x66, 0xcd, 0x05, 0x13, 0x64,
    0x28, 0x65, 0x82, 0x62, 0x01, 0x64, 0x83, 0x17, 0xc2, 0x19, 0xcd, 0x01, 0x97, 0x1a, 0xff,
    0x00, 0x00, 0x00,
];

/// Removal `19` of a structural block.
pub const TEMPLATE_STRUCTURAL_REMOVE_19: [u8; 36] = [
    0x19, 0x00, 0x00, 0x18, 0x80, 0x10, 0xed, 0x03, 0x00, 0x08, 0x00, 0x0c, 0x63, 0x59, 0x01,
    0x00, 0x01, 0x00, 0x06, 0x00, 0x09, 0x00, 0x00, 0x00, 0x83, 0x66, 0xcd, 0x06, 0x0a, 0x64,
    0x16, 0x65, 0xc0, 0x00, 0x00, 0x00,
];

pub const STRUCTURAL_REMOVE_SLOT_BUS_OFFSET: usize = 28;
pub const STRUCTURAL_INSERT_SLOT_BUS_OFFSET: usize = 32;

/// A template with the x80 counter (byte 9), the live write lane (12-13) and tag (28).
pub open spec fn lw_patched(t: Seq<u8>, cnt: u8, ctr: u16, yy: u8) -> Seq<u8> {
    let p = t.update(9, cnt).update(12, lo8(ctr)).update(13, hi8(ctr));
    if t.len() > 28 { p.update(28, yy) } else { p }
}

/// The counters after one patched write (`x80 + 1`, lane `+ step`, tag `+ 1`).
pub open spec fn after_lw(c: Counters, step: u16) -> Counters {
    Counters {
        x80_cnt: wadd8(c.x80_cnt, 1),
        live_write_ctr: wadd16(c.live_write_ctr, step as int),
        live_write_yy: wadd8(c.live_write_yy, 1),
        ..c
    }
}

/// Patches the x80 counter, the live write lane and tag into a template; the lane moves on
/// by `ctr_step`, the tag by 1.
pub fn patch_live_write_counters(pkt: &mut Vec<u8>, state: &mut HelixState, ctr_step: u16)
    requires
        old(pkt)@.len() > 13,
    ensures
        final(pkt)@ == lw_patched(old(pkt)@, old(state).counters.x80_cnt, old(state).counters.live_write_ctr, old(state).counters.live_write_yy),
        *final(state) == (HelixState { counters: after_lw(old(state).counters, ctr_step), ..*old(state) }),
{
    let cnt = state.next_x80_cnt();
    pkt.set(9, cnt);
    let ctr = state.counters.live_write_ctr;
    pkt.set(12, lo_byte(ctr));
    pkt.set(13, hi_byte(ctr));
    if pkt.len() > 28 {
        pkt.set(28, state.counters.live_write_yy);
    }
    state.counters.live_write_ctr = ctr.wrapping_add(ctr_step);
    state.counters.live_write_yy = state.counters.live_write_yy.wrapping_add(1);
}

/// Sets the slot bus of a structural template at `offset` (when the template reaches it).
pub fn patch_structural_slot_bus(pkt: &mut Vec<u8>, slot_bus: u8, offset: usize)
    ensures
        final(pkt)@ == if old(pkt)@.len() > offset { old(pkt)@.update(offset as int, slot_bus) } else { old(pkt)@ },
{
    if pkt.len() > offset {
        pkt.set(offset, slot_bus);
    }
}

/// The state after the focus of a structural slot (nothing when it is already the active one).
pub open spec fn focused_on(s: HelixState, f: HelixState, slot_bus: u8) -> bool {
    if s.slot.hw_active_slot_bus == Some(slot_bus) {
        f == s
    } else {
        let d = next_editor_double_spec(s.lanes.editor_ed03_double, s.lanes.editor_double_pin_hi, s.lanes.editor_double_skip_00);
        &&& f.outbox@.len() == s.outbox@.len() + 1
        &&& f.outbox@.drop_last() == s.outbox@
        &&& f.outbox@.last().data@ == special_focus_packet(s.counters.x80_cnt, s.counters.session_no,
            lo8(s.lanes.editor_ed03_double), hi8(s.lanes.editor_ed03_double), lo8(d), slot_bus)
        &&& f == (HelixState {
            counters: Counters { x80_cnt: wadd8(s.counters.x80_cnt, 1), ..s.counters },
            lanes: EditorLanes { editor_ed03_double: d, ..s.lanes },
            slot: SlotTracking { hw_active_slot_bus: Some(slot_bus), hw_active_slot_index: None, ..s.slot },
            outbox: f.outbox,
            ..s
        })
    }
}

/// Focuses a structural slot unless it is already the active one.
pub fn focus_special_slot(state: &mut HelixState, slot_bus: u8)
    ensures
        focused_on(*old(state), *final(state), slot_bus),
{
    if state.slot.hw_active_slot_bus == Some(slot_bus) {
        return;
    }
    let focus = build_special_slot_focus_packet(state, slot_bus);
    let ghost o0 = state.outbox@;
    state.send(OutPacket::new(focus));
    assert(state.outbox@.drop_last() == o0);
    state.slot.hw_active_slot_bus = Some(slot_bus);
    state.slot.hw_active_slot_index = None;
}

/// The state after the removal of one structural block: focus, removal `19` on the slot bus
/// (8 ms), and its ACK (8 ms).
pub open spec fn removed(s: HelixState, f: HelixState, slot_bus: u8) -> bool {
    exists|m: HelixState| #![trigger focused_on(s, m, slot_bus)] {
        &&& focused_on(s, m, slot_bus)
        &&& {
            let c = m.counters;
            let rem = lw_patched(TEMPLATE_STRUCTURAL_REMOVE_19@, c.x80_cnt, c.live_write_ctr, c.live_write_yy).update(28, slot_bus);
            let n = m.outbox@.len() as int;
            &&& f.outbox@.len() == n + 2
            &&& f.outbox@.subrange(0, n) == m.outbox@
            &&& f.outbox@[n].data@ == rem && f.outbox@[n].delay_ms == 8
            &&& f.outbox@[n + 1].data@ == post_1d_ack08_packet(wadd8(c.x80_cnt, 1), lo8(c.live_write_ctr), hi8(c.live_write_ctr))
            &&& f.outbox@[n + 1].delay_ms == 8
            &&& f == (HelixState {
                counters: Counters { x80_cnt: wadd8(c.x80_cnt, 2), ..after_lw(c, 0x11) },
                outbox: f.outbox,
                ..m
            })
        }
    }
}

/// Removes one structural block (Split or Merge).
pub fn remove_structural_block(state: &mut HelixState, slot_bus: u8)
    ensures
        removed(*old(state), *final(state), slot_bus),
{
    focus_special_slot(state, slot_bus);
    let ghost m = *state;
    let t = TEMPLATE_STRUCTURAL_REMOVE_19;
    let mut rem = vstd::slice::slice_to_vec(&t);
    patch_live_write_counters(&mut rem, state, 0x11);
    patch_structural_slot_bus(&mut rem, slot_bus, STRUCTURAL_REMOVE_SLOT_BUS_OFFSET);
    let r_lo = rem[12];
    let r_hi = rem[13];
    let r_ack = build_post_1d_ack08(state, r_lo, r_hi);
    state.send(OutPacket::with_delay(rem, 8));
    state.send(OutPacket::with_delay(r_ack, 8));
    assert(state.outbox@.subrange(0, m.outbox@.len() as int) == m.outbox@);
    proof { crate::bytes::lemma_wadd8_twice(m.counters.x80_cnt, 1, 1); }
    assert(focused_on(*old(state), m, slot_bus));
}

/// Removes the Merge then the Split block; the Path 1 split type is forgotten.
pub fn teardown_path2_dual_routing(state: &mut HelixState) -> (r: Result<String, String>)
    ensures
        r matches Ok(line) && line@ == "remove_19 slot_bus=0x13 | remove_19 slot_bus=0x0a"@,
        exists|m1: HelixState, m2: HelixState| #![trigger removed(*old(state), m1, 0x13), removed(m1, m2, 0x0a)]
            removed(*old(state), m1, 0x13) && removed(m1, m2, 0x0a)
            && *final(state) == (HelixState { slot: SlotTracking { path1_split_type_wire: None, ..m2.slot }, ..m2 }),
{
    remove_structural_block(state, MERGE_SLOT_BUS);
    let ghost m1 = *state;
    remove_structural_block(state, SPLIT_SLOT_BUS);
    let ghost m2 = *state;
    state.slot.path1_split_type_wire = None;
    assert(removed(*old(state), m1, 0x13) && removed(m1, m2, 0x0a));
    Ok(text_of("remove_19 slot_bus=0x13 | remove_19 slot_bus=0x0a"))
}

} // verus!
