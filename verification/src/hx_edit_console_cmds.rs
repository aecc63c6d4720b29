//! Cab 2 replace on a dual cab slot, on a coherent lane: the captured focus / `ed:08` / bulk
//! frames, with every `80:10:ed:03` counter rewritten on the live write lane `L`
//! (focus = `L`, `ed:08` and bulk = `L + 0x11`) and the short firmware ACKs renumbered on
//! their own lane.
use vstd::prelude::*;
use crate::bytes::{append_bytes, hi8, hi_byte, lo8, lo_byte, wadd16, wadd8};
use crate::edit_slot_model::{
    first_bus_marker, kempline_lane_spec, lemma_first_bus_marker,
    patch_kempline_lane_after_cd03_or_cd04,
};
use crate::packet::{op_is, OutPacket};
use crate::slots::{kempline_index_to_slot_bus, kempline_index_to_slot_bus_spec};
use crate::state::{Counters, HelixState};

verus! {

/// Frame with the byte after its first `82 62` / `81 62` set to the slot bus (no fallback).
pub open spec fn bus_only_spec(b: Seq<u8>, bus: u8) -> Seq<u8> {
    let k = first_bus_marker(b, 0);
    if k >= 0 {
        b.update(k + 2, bus)
    } else {
        b
    }
}

fn patch_slot_bus_only(buf: &mut Vec<u8>, slot_bus: u8)
    ensures
        final(buf)@ == bus_only_spec(old(buf)@, slot_bus),
{
    let len: usize = buf.len();
    let lim: usize = if len >= 2 { len - 2 } else { 0 };
    let mut i: usize = 0;
    proof { lemma_first_bus_marker(buf@, 0); }
    while i < lim
        invariant
            buf@ == old(buf)@,
            len == buf@.len(),
            lim == (if len >= 2 { len - 2 } else { 0 }),
            i <= lim || lim == 0,
            first_bus_marker(buf@, 0) == first_bus_marker(buf@, i as int),
        decreases len - i,
    {
        if (buf[i] == 0x82 || buf[i] == 0x81) && buf[i + 1] == 0x62 {
            buf.set(i + 2, slot_bus);
            return;
        }
        i = i + 1;
    }
}

/// Counter of an `80:10:ed:03` frame on the live write lane `l`: `l` for the focus `1d`,
/// `l + 0x11` for every other head.
pub open spec fn ed03_ctr_for_head_spec(l: u16, head: u8) -> u16 {
    if head == 0x1d {
        l
    } else {
        wadd16(l, 0x11)
    }
}

fn ed03_ctr_for_head(state: &HelixState, head: u8) -> (r: u16)
    ensures
        r == ed03_ctr_for_head_spec(state.counters.live_write_ctr, head),
{
    let l = state.counters.live_write_ctr;
    if head == 0x1d {
        l
    } else {
        l.wrapping_add(0x11)
    }
}

/// A frame of the `80:10:ed:03` framing with its counter bytes (12-13).
pub open spec fn is_ed03_counter_frame(b: Seq<u8>) -> bool {
    b.len() >= 14 && op_is(b, 0x80, 0x10, 0xed, 0x03)
}

/// One frame of the sequence patched for the session, and the counters after it.
///
/// The slot bus goes after the first `82 62` / `81 62`. An `80:10:ed:03` frame takes the next
/// x80 counter (byte 9), its live write counter (bytes 12-13) and, when longer than 16 bytes,
/// the slot lane after `83 66 cd 03|04`. A 16-byte `08` frame takes the next counter of its
/// lane: x2 for `02:10:f0:03` and `ef:03:01:10`, x1 for `01:10:ef:03`, x80 otherwise. Any
/// other frame keeps its counters.
pub open spec fn patch_live_spec(c: Counters, pkt: Seq<u8>, bus: u8, idx: usize) -> (Seq<u8>, Counters) {
    let p = bus_only_spec(pkt, bus);
    if is_ed03_counter_frame(p) {
        let ctr = ed03_ctr_for_head_spec(c.live_write_ctr, p[0]);
        let q = p.update(9, c.x80_cnt).update(12, lo8(ctr)).update(13, hi8(ctr));
        (
            if q.len() > 16 { kempline_lane_spec(q, idx) } else { q },
            Counters { x80_cnt: wadd8(c.x80_cnt, 1), ..c },
        )
    } else if p.len() == 16 && p[0] == 0x08 {
        if op_is(p, 0x02, 0x10, 0xf0, 0x03) || op_is(p, 0xef, 0x03, 0x01, 0x10) {
            (p.update(9, c.x2_cnt), Counters { x2_cnt: wadd8(c.x2_cnt, 1), ..c })
        } else if op_is(p, 0x01, 0x10, 0xef, 0x03) {
            (p.update(9, c.x1_cnt), Counters { x1_cnt: wadd8(c.x1_cnt, 1), ..c })
        } else {
            (p.update(9, c.x80_cnt), Counters { x80_cnt: wadd8(c.x80_cnt, 1), ..c })
        }
    } else {
        (p, c)
    }
}

fn patch_packet_live(state: &mut HelixState, pkt: &mut Vec<u8>, slot_bus: u8, kempline_index: usize)
    ensures
        ({
            let r = patch_live_spec(old(state).counters, old(pkt)@, slot_bus, kempline_index);
            &&& final(pkt)@ == r.0
            &&& *final(state) == (HelixState { counters: r.1, ..*old(state) })
        }),
{
    patch_slot_bus_only(pkt, slot_bus);
    let ghost p = pkt@;
    if pkt.len() >= 14 && pkt[4] == 0x80 && pkt[5] == 0x10 && pkt[6] == 0xed && pkt[7] == 0x03 {
        let seq = state.next_x80_cnt();
        pkt.set(9, seq);
        let ctr = ed03_ctr_for_head(state, pkt[0]);
        pkt.set(12, lo_byte(ctr));
        pkt.set(13, hi_byte(ctr));
        if pkt.len() > 16 {
            patch_kempline_lane_after_cd03_or_cd04(pkt, kempline_index);
        }
        return;
    }
    if pkt.len() == 16 && pkt[0] == 0x08 {
        let seq = if pkt[4] == 0x02 && pkt[5] == 0x10 && pkt[6] == 0xf0 && pkt[7] == 0x03 {
            state.next_x2_cnt()
        } else if pkt[4] == 0x01 && pkt[5] == 0x10 && pkt[6] == 0xef && pkt[7] == 0x03 {
            state.next_x1_cnt()
        } else if pkt[4] == 0xef && pkt[5] == 0x03 && pkt[6] == 0x01 && pkt[7] == 0x10 {
            state.next_x2_cnt()
        } else {
            state.next_x80_cnt()
        };
        pkt.set(9, seq);
    }
}

/// Focus `1d` of the captured Cab 2 replace.
pub const CAB2_FOCUS_1D: [u8; 40] = [
    0x1d, 0x00, 0x00, 0x18, 0x80, 0x10, 0xed, 0x03, 0x00, 0x99, 0x00, 0x04, 0x7d, 0x6e, 0x00,
    0x00, 0x01, 0x00, 0x06, 0x00, 0x0d, 0x00, 0x00, 0x00, 0x83, 0x66, 0xcd, 0x04, 0x59, 0x64,
    0x4e, 0x65, 0x82, 0x62, 0x01, 0x1a, 0x01, 0x00, 0x00, 0x00,
];

/// `ed:08` short frame of the captured Cab 2 replace. The post-sequence's `08` frames on
/// `80:10:ed:03` differ from it only in the counter bytes (9, 12, 13), which the patch
/// rewrites, so they are sent from this one template.
pub const CAB2_ED08: [u8; 16] = [
    0x08, 0x00, 0x00, 0x18, 0x80, 0x10, 0xed, 0x03, 0x00, 0x9a, 0x00, 0x08, 0x8e, 0x6e, 0x00,
    0x00,
];

/// Bulk `27` (48 bytes) replacing Cab 2: cab 1 and cab 2 `cd 03 1c`.
pub const CAB2_BULK_27: [u8; 48] = [
    0x27, 0x00, 0x00, 0x18, 0x80, 0x10, 0xed, 0x03, 0x00, 0x9c, 0x00, 0x04, 0x8e, 0x6e, 0x00,
    0x00, 0x01, 0x00, 0x06, 0x00, 0x17, 0x00, 0x00, 0x00, 0x83, 0x66, 0xcd, 0x04, 0x5a, 0x64,
    0x28, 0x65, 0x82, 0x62, 0x01, 0x64, 0x83, 0x17, 0xc3, 0x19, 0xcd, 0x03, 0x1c, 0x1a, 0xcd,
    0x03, 0x1c, 0x00,
];

/// First `19` frame of the post-sequence.
pub const CAB2_POST_19_A: [u8; 36] = [
    0x19, 0x00, 0x00, 0x18, 0x80, 0x10, 0xed, 0x03, 0x00, 0x9d, 0x00, 0x0c, 0x19, 0x6f, 0x00,
    0x00, 0x01, 0x00, 0x06, 0x00, 0x09, 0x00, 0x00, 0x00, 0x83, 0x66, 0xcd, 0x04, 0x5b, 0x64,
    0x17, 0x65, 0xc0, 0x00, 0x00, 0x00,
];

/// Firmware ACK `f0:03` of the post-sequence.
pub const CAB2_POST_ACK_F0: [u8; 16] = [
    0x08, 0x00, 0x00, 0x18, 0x02, 0x10, 0xf0, 0x03, 0x00, 0x7c, 0x00, 0x08, 0x38, 0x29, 0x00,
    0x00,
];

/// Second `19` frame of the post-sequence.
pub const CAB2_POST_19_B: [u8; 36] = [
    0x19, 0x00, 0x00, 0x18, 0x80, 0x10, 0xed, 0x03, 0x00, 0x9e, 0x00, 0x0c, 0x4a, 0x6f, 0x00,
    0x00, 0x01, 0x00, 0x06, 0x00, 0x09, 0x00, 0x00, 0x00, 0x83, 0x66, 0xcd, 0x04, 0x5c, 0x64,
    0x16, 0x65, 0xc0, 0x00, 0x00, 0x00,
];

/// Frames always sent (focus, `ed:08`, bulk).
pub const CAB2_CORE_LEN: usize = 3;

/// Frames of the full sequence (core, then the post-sequence).
pub const CAB2_FULL_LEN: usize = 18;

/// Delay before each frame of the sequence, in milliseconds.
pub open spec fn cab2_delay_spec(i: int) -> u64 {
    if i == 1 { 93 }
    else if i == 2 { 400 }
    else if i == 3 { 140 }
    else if i == 5 { 32 }
    else if i == 6 { 15 }
    else if i == 7 { 3 }
    else if i == 17 { 7 }
    else if 9 <= i <= 15 && i % 2 == 1 { 1 }
    else { 0 }
}

/// Template of frame `i` of the sequence, before patching.
pub open spec fn cab2_frame_spec(i: int) -> Seq<u8> {
    if i == 0 { CAB2_FOCUS_1D@ }
    else if i == 2 { CAB2_BULK_27@ }
    else if i == 3 { CAB2_POST_19_A@ }
    else if i == 4 { CAB2_POST_ACK_F0@ }
    else if i == 5 { CAB2_POST_19_B@ }
    else { CAB2_ED08@ }
}

fn cab2_frame(i: usize) -> (r: (Vec<u8>, u64))
    requires
        i < CAB2_FULL_LEN,
    ensures
        r.0@ == cab2_frame_spec(i as int),
        r.1 == cab2_delay_spec(i as int),
{
    let mut v: Vec<u8> = Vec::new();
    if i == 0 {
        append_bytes(&mut v, &CAB2_FOCUS_1D);
    } else if i == 2 {
        append_bytes(&mut v, &CAB2_BULK_27);
    } else if i == 3 {
        append_bytes(&mut v, &CAB2_POST_19_A);
    } else if i == 4 {
        append_bytes(&mut v, &CAB2_POST_ACK_F0);
    } else if i == 5 {
        append_bytes(&mut v, &CAB2_POST_19_B);
    } else {
        append_bytes(&mut v, &CAB2_ED08);
    }
    let d: u64 = if i == 1 {
        93
    } else if i == 2 {
        400
    } else if i == 3 {
        140
    } else if i == 5 {
        32
    } else if i == 6 {
        15
    } else if i == 7 {
        3
    } else if i == 17 {
        7
    } else if 9 <= i && i <= 15 && i % 2 == 1 {
        1
    } else {
        0
    };
    (v, d)
}

/// Frames `0..n` of the sequence patched in order, with their delays, and the counters after
/// them.
pub open spec fn cab2_run_spec(c: Counters, n: nat, bus: u8, idx: usize) -> (Seq<(Seq<u8>, u64)>, Counters)
    decreases n,
{
    if n == 0 {
        (Seq::empty(), c)
    } else {
        let prev = cab2_run_spec(c, (n - 1) as nat, bus, idx);
        let step = patch_live_spec(prev.1, cab2_frame_spec(n - 1), bus, idx);
        (prev.0.push((step.0, cab2_delay_spec(n - 1))), step.1)
    }
}

/// Patching leaves the live write counter alone.
proof fn lemma_run_keeps_live_write(c: Counters, n: nat, bus: u8, idx: usize)
    ensures
        cab2_run_spec(c, n, bus, idx).1.live_write_ctr == c.live_write_ctr,
        cab2_run_spec(c, n, bus, idx).0.len() == n,
    decreases n,
{
    if n > 0 {
        lemma_run_keeps_live_write(c, (n - 1) as nat, bus, idx);
    }
}

/// Queues frames `0..n` of the sequence, each patched for the session and delayed as
/// captured, then moves the live write lane to `L + 0x11`, where the bulk left the model lane.
#[verifier::rlimit(40)]
fn send_timed_sequence(state: &mut HelixState, slot_bus: u8, kempline_index: usize, n: usize) -> (sent: u32)
    requires
        n <= CAB2_FULL_LEN,
    ensures
        sent == n,
        ({
            let run = cab2_run_spec(old(state).counters, n as nat, slot_bus, kempline_index);
            &&& final(state).outbox@.len() == old(state).outbox@.len() + n
            &&& forall|j: int| 0 <= j < old(state).outbox@.len() ==> final(state).outbox@[j] == old(state).outbox@[j]
            &&& forall|j: int| 0 <= j < n ==> {
                let o = #[trigger] final(state).outbox@[old(state).outbox@.len() + j];
                &&& o.data@ == run.0[j].0
                &&& o.delay_ms == run.0[j].1
                &&& o.tail_burst@.len() == 0
            }
            &&& final(state).counters == Counters {
                live_write_ctr: wadd16(old(state).counters.live_write_ctr, 0x11),
                ..run.1
            }
            &&& *final(state) == (HelixState {
                counters: final(state).counters,
                outbox: final(state).outbox,
                ..*old(state)
            })
        }),
{
    let ghost s0 = *state;
    let mut sent: u32 = 0;
    let mut i: usize = 0;
    while i < n
        invariant
            i <= n <= CAB2_FULL_LEN,
            sent == i,
            ({
                let run = cab2_run_spec(s0.counters, i as nat, slot_bus, kempline_index);
                &&& state.outbox@.len() == s0.outbox@.len() + i
                &&& forall|j: int| 0 <= j < s0.outbox@.len() ==> state.outbox@[j] == s0.outbox@[j]
                &&& forall|j: int| 0 <= j < i ==> {
                    let o = #[trigger] state.outbox@[s0.outbox@.len() + j];
                    &&& o.data@ == run.0[j].0
                    &&& o.delay_ms == run.0[j].1
                    &&& o.tail_burst@.len() == 0
                }
                &&& state.counters == run.1
                &&& *state == (HelixState { counters: state.counters, outbox: state.outbox, ..s0 })
            }),
        decreases n - i,
    {
        let ghost before = *state;
        let (mut pkt, delay) = cab2_frame(i);
        patch_packet_live(state, &mut pkt, slot_bus, kempline_index);
        state.send(OutPacket::with_delay(pkt, delay));
        proof {
            lemma_run_keeps_live_write(s0.counters, i as nat, slot_bus, kempline_index);
            lemma_run_keeps_live_write(s0.counters, (i + 1) as nat, slot_bus, kempline_index);
            let run = cab2_run_spec(s0.counters, (i + 1) as nat, slot_bus, kempline_index);
            let prev = cab2_run_spec(s0.counters, i as nat, slot_bus, kempline_index);
            assert(run.0 == prev.0.push((pkt@, delay)));
            assert forall|j: int| 0 <= j < i + 1 implies {
                let o = #[trigger] state.outbox@[s0.outbox@.len() + j];
                &&& o.data@ == run.0[j].0
                &&& o.delay_ms == run.0[j].1
                &&& o.tail_burst@.len() == 0
            } by {
                if j < i {
                    assert(state.outbox@[s0.outbox@.len() + j] == before.outbox@[s0.outbox@.len() + j]);
                    assert(run.0[j] == prev.0[j]);
                }
            }
        }
        sent = sent + 1;
        i = i + 1;
    }
    proof { lemma_run_keeps_live_write(s0.counters, n as nat, slot_bus, kempline_index); }
    state.counters.live_write_ctr = state.counters.live_write_ctr.wrapping_add(0x11);
    sent
}

/// Slot bus of a grid index, refused outside `0..15`.
pub open spec fn console_slot_bus_spec(slot_index: u32) -> Option<u8> {
    if slot_index < 16 {
        kempline_index_to_slot_bus_spec(slot_index as int)
    } else {
        None
    }
}

fn slot_bus_for_index(slot_index: u32) -> (r: Result<u8, String>)
    ensures
        slot_index < 16 ==> r == Ok::<u8, String>(console_slot_bus_spec(slot_index)->0),
        slot_index >= 16 ==> (r matches Err(e) && e@ == "slotIndex hors plage (0..15)"@),
{
    if slot_index >= 16 {
        return Err(crate::text::text_of("slotIndex hors plage (0..15)"));
    }
    match kempline_index_to_slot_bus(slot_index as usize) {
        Some(b) => Ok(b),
        None => Err(crate::text::text_of("slotIndex invalide")),
    }
}

/// Replaces Cab 2 of the dual cab at grid index `slot_index`: queues the focus, the `ed:08`
/// and the bulk (and, with `full`, the captured post-sequence) patched on the live write
/// lane, then moves that lane to `L + 0x11`. Returns the number of frames queued; an index
/// outside `0..15` is refused and nothing is sent.
pub fn hx_console_change_cab2(state: &mut HelixState, slot_index: u32, full: bool) -> (r: Result<u32, String>)
    ensures
        slot_index >= 16 ==> (r matches Err(e) && e@ == "slotIndex hors plage (0..15)"@) && *final(state) == *old(state),
        slot_index < 16 ==> ({
            let n: nat = if full { CAB2_FULL_LEN as nat } else { CAB2_CORE_LEN as nat };
            let bus = console_slot_bus_spec(slot_index)->0;
            let run = cab2_run_spec(old(state).counters, n, bus, slot_index as usize);
            &&& r == Ok::<u32, String>(n as u32)
            &&& final(state).outbox@.len() == old(state).outbox@.len() + n
            &&& forall|j: int| 0 <= j < old(state).outbox@.len() ==> final(state).outbox@[j] == old(state).outbox@[j]
            &&& forall|j: int| 0 <= j < n ==> {
                let o = #[trigger] final(state).outbox@[old(state).outbox@.len() + j];
                &&& o.data@ == run.0[j].0
                &&& o.delay_ms == run.0[j].1
                &&& o.tail_burst@.len() == 0
            }
            &&& final(state).counters == Counters {
                live_write_ctr: wadd16(old(state).counters.live_write_ctr, 0x11),
                ..run.1
            }
            &&& *final(state) == (HelixState {
                counters: final(state).counters,
                outbox: final(state).outbox,
                ..*old(state)
            })
        }),
{
    let slot_bus = match slot_bus_for_index(slot_index) {
        Ok(b) => b,
        Err(e) => return Err(e),
    };
    let n: usize = if full { CAB2_FULL_LEN } else { CAB2_CORE_LEN };
    let sent = send_timed_sequence(state, slot_bus, slot_index as usize, n);
    Ok(sent)
}

proof fn lemma_core_frame(c: Counters, t: Seq<u8>, bus: u8, idx: usize)
    requires
        t == CAB2_FOCUS_1D@ || t == CAB2_ED08@ || t == CAB2_BULK_27@,
    ensures
        ({
            let r = patch_live_spec(c, t, bus, idx);
            let ctr = ed03_ctr_for_head_spec(c.live_write_ctr, t[0]);
            &&& r.0[9] == c.x80_cnt
            &&& r.0[12] == lo8(ctr)
            &&& r.0[13] == hi8(ctr)
            &&& r.1 == Counters { x80_cnt: wadd8(c.x80_cnt, 1), ..c }
        }),
{
    reveal_with_fuel(first_bus_marker, 50);
    reveal_with_fuel(crate::edit_slot_model::first_cd_lane, 50);
    let p = bus_only_spec(t, bus);
    if t == CAB2_ED08@ {
        assert(t.len() == 16);
        assert(first_bus_marker(t, 0) == -1);
        assert(p == t);
    } else {
        assert(t.len() >= 40);
        assert(first_bus_marker(t, 0) == 32);
        assert(p == t.update(34, bus));
        let ctr = ed03_ctr_for_head_spec(c.live_write_ctr, t[0]);
        let q = p.update(9, c.x80_cnt).update(12, lo8(ctr)).update(13, hi8(ctr));
        assert(crate::edit_slot_model::first_cd_lane(q, 0, 0) == 24);
    }
}

/// The core of the Cab 2 replace is coherent on the live write lane `L`: the focus carries
/// `L`, the `ed:08` and the bulk carry `L + 0x11` (bytes 12-13, little-endian), and the three
/// frames take consecutive x80 counters (byte 9).
pub proof fn law_cab2_core_lane(c: Counters, bus: u8, idx: usize)
    ensures
        ({
            let run = cab2_run_spec(c, 3, bus, idx);
            let l = c.live_write_ctr;
            let l2 = wadd16(l, 0x11);
            &&& run.0[0].0[12] == lo8(l) && run.0[0].0[13] == hi8(l)
            &&& run.0[1].0[12] == lo8(l2) && run.0[1].0[13] == hi8(l2)
            &&& run.0[2].0[12] == lo8(l2) && run.0[2].0[13] == hi8(l2)
            &&& run.0[0].0[9] == c.x80_cnt
            &&& run.0[1].0[9] == wadd8(c.x80_cnt, 1)
            &&& run.0[2].0[9] == wadd8(c.x80_cnt, 2)
        }),
{
    let r0 = cab2_run_spec(c, 0, bus, idx);
    let r1 = cab2_run_spec(c, 1, bus, idx);
    let r2 = cab2_run_spec(c, 2, bus, idx);
    lemma_core_frame(c, CAB2_FOCUS_1D@, bus, idx);
    lemma_core_frame(r1.1, CAB2_ED08@, bus, idx);
    lemma_core_frame(r2.1, CAB2_BULK_27@, bus, idx);
    crate::bytes::lemma_wadd8_twice(c.x80_cnt, 1, 1);
}

} // verus!
