//! Matrix drag & drop of a block: opcode `1d` (40 bytes). On one path: `1d`
//! (`82:4b:<src_bus>:4c:<dst_bus>`) + ACK `08`. Across the paths: `1d`, then two `19` branch
//! commits (anchor `64:17:65:c0` / `64:16:65:c0`). A move that creates the split sends the
//! source SELECT and the MOVE on the editor lane, each between a preamble and an ACK, and no
//! commit.
use vstd::prelude::*;
use crate::bytes::{hi8, lo8, lo_byte, hi_byte, wadd16, wadd8};
use crate::packet::OutPacket;
use crate::path1_io_live_write::{build_post_1d_ack08, post_1d_ack08_packet};
use crate::slots::{kempline_index_to_slot_bus, kempline_index_to_slot_bus_spec};
use crate::state::{Counters, EditorLanes, HelixState, SlotTracking};
use crate::text::{decimal_of, hex_of, hex_string, push_decimal, string_push_str, text_of};

verus! {

/// Branch commit `19` of a split (anchor `64:17:65:c0`).
pub const BRANCH_COMMIT_19_SPLIT: [u8; 36] = [
    0x19, 0x00, 0x00, 0x18, 0x80, 0x10, 0xed, 0x03, 0x00, 0x00, 0x00, 0x0c, 0x00, 0x00, 0x00,
    0x00, 0x01, 0x00, 0x06, 0x00, 0x09, 0x00, 0x00, 0x00, 0x83, 0x66, 0xcd, 0x03, 0x00, 0x64,
    0x17, 0x65, 0xc0, 0x00, 0x00, 0x00,
];

/// Branch commit `19` of a merge (anchor `64:16:65:c0`).
pub const BRANCH_COMMIT_19_MERGE: [u8; 36] = [
    0x19, 0x00, 0x00, 0x18, 0x80, 0x10, 0xed, 0x03, 0x00, 0x00, 0x00, 0x0c, 0x00, 0x00, 0x00,
    0x00, 0x01, 0x00, 0x06, 0x00, 0x09, 0x00, 0x00, 0x00, 0x83, 0x66, 0xcd, 0x03, 0x00, 0x64,
    0x16, 0x65, 0xc0, 0x00, 0x00, 0x00,
];

/// Lane of the move: `04` on one path, `03` across the paths.
pub open spec fn move_cd_spec(src_index: usize, dst_index: usize) -> u8 {
    if (src_index >= 8) == (dst_index >= 8) { 0x04 } else { 0x03 }
}

/// Lane of the move: `04` on one path, `03` across the paths.
pub fn matrix_move_cd_variant(src_index: usize, dst_index: usize) -> (r: u8)
    ensures
        r == move_cd_spec(src_index, dst_index),
{
    if (src_index >= 8) == (dst_index >= 8) { 0x04 } else { 0x03 }
}

/// Move `1d` (40 bytes).
pub open spec fn move_packet_spec(cnt: u8, b12: u8, b13: u8, b14: u8, cd: u8, yy: u8, src_bus: u8, dst_bus: u8) -> Seq<u8> {
    seq![
        0x1du8, 0x00, 0x00, 0x18, 0x80, 0x10, 0xed, 0x03, 0x00, cnt, 0x00, 0x04, b12, b13, b14, 0x00,
        0x01, 0x00, 0x06, 0x00, 0x0d, 0x00, 0x00, 0x00, 0x83, 0x66, 0xcd, cd, yy, 0x64, 0x2b, 0x65,
        0x82, 0x4b, src_bus, 0x4c, dst_bus, 0x00, 0x00, 0x00,
    ]
}

/// A move packet addresses the source and destination slots on their buses (bytes 34 and
/// 36: grid `0..7` is bus `1..8`, grid `8..15` is bus `0x0b..0x12`) and takes the same-path
/// lane `cd:04` (byte 27) exactly when both slots are on the same path, else the inter-path
/// lane `cd:03`.
pub proof fn law_move_lane_follows_paths(cnt: u8, b12: u8, b13: u8, b14: u8, yy: u8, src_index: usize, dst_index: usize)
    requires
        src_index < 16,
        dst_index < 16,
        src_index != dst_index,
    ensures
        ({
            let p = move_packet_spec(
                cnt,
                b12,
                b13,
                b14,
                move_cd_spec(src_index, dst_index),
                yy,
                kempline_index_to_slot_bus_spec(src_index as int)->0,
                kempline_index_to_slot_bus_spec(dst_index as int)->0,
            );
            &&& p.len() == 40
            &&& p[24] == 0x83 && p[25] == 0x66 && p[26] == 0xcd
            &&& ((src_index < 8 && dst_index < 8) || (src_index >= 8 && dst_index >= 8)) ==> p[27] == 0x04
            &&& ((src_index < 8 && dst_index >= 8) || (src_index >= 8 && dst_index < 8)) ==> p[27] == 0x03
            &&& p[34] == (if src_index < 8 { src_index + 1 } else { src_index + 3 })
            &&& p[36] == (if dst_index < 8 { dst_index + 1 } else { dst_index + 3 })
        }),
{
}

/// Move packet of block `src_index` to `dst_index` (session + editor double on bytes 12-14);
/// the live write tag moves on. Fails on an index out of the grid or equal indices.
pub fn build_matrix_slot_move_packet(state: &mut HelixState, src_index: usize, dst_index: usize) -> (r: Result<Vec<u8>, String>)
    ensures
        (src_index >= 16 || dst_index >= 16) ==> (r matches Err(e) && e@ == "matrix move : index slot hors plage 0..15"@)
            && *final(state) == *old(state),
        (src_index < 16 && dst_index < 16 && src_index == dst_index) ==> (r matches Err(e)
            && e@ == "matrix move : source et destination identiques"@) && *final(state) == *old(state),
        (src_index < 16 && dst_index < 16 && src_index != dst_index) ==> ({
            let s = *old(state);
            &&& r matches Ok(p) && p@ == move_packet_spec(
                s.counters.x80_cnt,
                s.counters.session_no,
                lo8(s.lanes.editor_ed03_double),
                hi8(s.lanes.editor_ed03_double),
                move_cd_spec(src_index, dst_index),
                s.counters.live_write_yy,
                kempline_index_to_slot_bus_spec(src_index as int)->0,
                kempline_index_to_slot_bus_spec(dst_index as int)->0,
            )
            &&& *final(state) == (HelixState {
                counters: Counters {
                    x80_cnt: wadd8(s.counters.x80_cnt, 1),
                    live_write_yy: wadd8(s.counters.live_write_yy, 1),
                    ..s.counters
                },
                ..s
            })
        }),
{
    if src_index >= 16 || dst_index >= 16 {
        return Err(text_of("matrix move : index slot hors plage 0..15"));
    }
    if src_index == dst_index {
        return Err(text_of("matrix move : source et destination identiques"));
    }
    let src_bus = kempline_index_to_slot_bus(src_index).unwrap();
    let dst_bus = kempline_index_to_slot_bus(dst_index).unwrap();
    let cd = matrix_move_cd_variant(src_index, dst_index);
    let cnt = state.next_x80_cnt();
    let session = state.counters.session_no;
    let double = state.preset_data_packet_double();
    let yy = state.counters.live_write_yy;
    let pkt = vec![
        0x1d, 0x00, 0x00, 0x18, 0x80, 0x10, 0xed, 0x03, 0x00, cnt, 0x00, 0x04, session, double[0], double[1], 0x00,
        0x01, 0x00, 0x06, 0x00, 0x0d, 0x00, 0x00, 0x00, 0x83, 0x66, 0xcd, cd, yy, 0x64, 0x2b, 0x65,
        0x82, 0x4b, src_bus, 0x4c, dst_bus, 0x00, 0x00, 0x00,
    ];
    assert(pkt@ == move_packet_spec(cnt, session, double@[0], double@[1], cd, yy, src_bus, dst_bus));
    state.counters.live_write_yy = yy.wrapping_add(1);
    Ok(pkt)
}

/// A branch commit template with the x80 counter, the live write lane and tag patched in.
pub open spec fn branch_commit_spec(template: Seq<u8>, cnt: u8, ctr: u16, yy: u8) -> Seq<u8> {
    template.update(9, cnt).update(12, lo8(ctr)).update(13, hi8(ctr)).update(28, yy)
}

/// Patches a branch commit with the next x80 counter, the live write lane and tag, which
/// move on by `0x11` and 1.
pub fn patch_branch_commit_19(pkt: &mut Vec<u8>, state: &mut HelixState)
    requires
        old(pkt)@.len() == 36,
    ensures
        final(pkt)@ == branch_commit_spec(old(pkt)@, old(state).counters.x80_cnt, old(state).counters.live_write_ctr, old(state).counters.live_write_yy),
        *final(state) == (HelixState {
            counters: Counters {
                x80_cnt: wadd8(old(state).counters.x80_cnt, 1),
                live_write_ctr: wadd16(old(state).counters.live_write_ctr, 0x11),
                live_write_yy: wadd8(old(state).counters.live_write_yy, 1),
                ..old(state).counters
            },
            ..*old(state)
        }),
{
    let cnt = state.next_x80_cnt();
    pkt.set(9, cnt);
    let ctr = state.counters.live_write_ctr;
    pkt.set(12, lo_byte(ctr));
    pkt.set(13, hi_byte(ctr));
    pkt.set(28, state.counters.live_write_yy);
    state.counters.live_write_ctr = ctr.wrapping_add(0x11);
    state.counters.live_write_yy = state.counters.live_write_yy.wrapping_add(1);
}

/// Queues the split then the merge branch commits (8 ms apart).
pub fn send_branch_commit_pair(state: &mut HelixState)
    ensures
        ({
            let s = *old(state);
            let n = s.outbox@.len() as int;
            &&& final(state).outbox@.len() == n + 2
            &&& final(state).outbox@.subrange(0, n) == s.outbox@
            &&& final(state).outbox@[n].data@ == branch_commit_spec(BRANCH_COMMIT_19_SPLIT@, s.counters.x80_cnt, s.counters.live_write_ctr, s.counters.live_write_yy)
            &&& final(state).outbox@[n + 1].data@ == branch_commit_spec(BRANCH_COMMIT_19_MERGE@, wadd8(s.counters.x80_cnt, 1),
                wadd16(s.counters.live_write_ctr, 0x11), wadd8(s.counters.live_write_yy, 1))
            &&& final(state).outbox@[n].delay_ms == 8 && final(state).outbox@[n + 1].delay_ms == 8
            &&& final(state).counters == (Counters {
                x80_cnt: wadd8(s.counters.x80_cnt, 2),
                live_write_ctr: wadd16(s.counters.live_write_ctr, 0x22),
                live_write_yy: wadd8(s.counters.live_write_yy, 2),
                ..s.counters
            })
            &&& *final(state) == (HelixState { counters: final(state).counters, outbox: final(state).outbox, ..s })
        }),
{
    let split = BRANCH_COMMIT_19_SPLIT;
    let mut a = vstd::slice::slice_to_vec(&split);
    patch_branch_commit_19(&mut a, state);
    state.send(OutPacket::with_delay(a, 8));
    let merge = BRANCH_COMMIT_19_MERGE;
    let mut b = vstd::slice::slice_to_vec(&merge);
    patch_branch_commit_19(&mut b, state);
    let ghost o1 = state.outbox@;
    state.send(OutPacket::with_delay(b, 8));
    assert(state.outbox@.subrange(0, old(state).outbox@.len() as int) == old(state).outbox@);
    proof {
        crate::bytes::lemma_wadd8_twice(old(state).counters.x80_cnt, 1, 1);
        crate::bytes::lemma_wadd8_twice(old(state).counters.live_write_yy, 1, 1);
        crate::bytes::lemma_wadd16_twice(old(state).counters.live_write_ctr, 0x11, 0x11);
    }
}

/// Editor lane primed for the ACKs of the automatic dump after an inter-path commit:
/// low byte `session_no + 0x42`, high byte `double[0] + 1`, byte 14 = 0.
pub open spec fn primed_lane(s: HelixState) -> u16 {
    (wadd8(s.counters.session_no, 0x42) + 256 * wadd8(lo8(s.lanes.editor_ed03_double), 1)) as u16
}

/// Primes the editor lane for the dump ACKs after an inter-path commit.
pub fn prime_dump_ack_lane_after_interpath(state: &mut HelixState)
    ensures
        *final(state) == (HelixState {
            lanes: EditorLanes {
                editor_ed03_lane: primed_lane(*old(state)),
                editor_ed03_lane_b14: 0,
                ..old(state).lanes
            },
            ..*old(state)
        }),
{
    let double = state.preset_data_packet_double();
    let lane_lo = state.counters.session_no.wrapping_add(0x42);
    let lane_hi = double[0].wrapping_add(1);
    state.lanes.editor_ed03_lane = crate::bytes::from_le(lane_lo, lane_hi);
    state.lanes.editor_ed03_lane_b14 = 0;
}

/// `ed:03` frame `08` carrying the editor lane on bytes 12-13 (preamble sub=`10`, ACK sub=`08`).
pub open spec fn lane08_spec(cnt: u8, sub: u8, lane: u16) -> Seq<u8> {
    seq![0x08u8, 0x00, 0x00, 0x18, 0x80, 0x10, 0xed, 0x03, 0x00, cnt, 0x00, sub, lo8(lane), hi8(lane), 0x00, 0x00]
}

/// `ed:03` frame `08` on the editor lane.
pub fn build_ed03_lane08(state: &mut HelixState, sub: u8, lane: u16) -> (r: Vec<u8>)
    ensures
        r@ == lane08_spec(old(state).counters.x80_cnt, sub, lane),
        *final(state) == crate::cab_dual_live_write::after_x80(*old(state)),
{
    let cnt = state.next_x80_cnt();
    let r = vec![0x08, 0x00, 0x00, 0x18, 0x80, 0x10, 0xed, 0x03, 0x00, cnt, 0x00, sub, lo_byte(lane), hi_byte(lane), 0x00, 0x00];
    assert(r@ == lane08_spec(cnt, sub, lane));
    r
}

/// SELECT of the source before the move that creates the split.
pub open spec fn select_source_spec(cnt: u8, lane: u16, yy: u8, src_bus: u8) -> Seq<u8> {
    seq![
        0x1du8, 0x00, 0x00, 0x18, 0x80, 0x10, 0xed, 0x03, 0x00, cnt, 0x00, 0x04, lo8(lane), hi8(lane), 0x00, 0x00,
        0x01, 0x00, 0x06, 0x00, 0x0d, 0x00, 0x00, 0x00, 0x83, 0x66, 0xcd, 0x03, yy, 0x64, 0x4e, 0x65,
        0x82, 0x62, src_bus, 0x1a, 0x00, 0x00, 0x00, 0x00,
    ]
}

/// The state after one x80 step and one live write tag step.
pub open spec fn after_x80_yy(s: HelixState) -> HelixState {
    HelixState {
        counters: Counters {
            x80_cnt: wadd8(s.counters.x80_cnt, 1),
            live_write_yy: wadd8(s.counters.live_write_yy, 1),
            ..s.counters
        },
        ..s
    }
}

/// SELECT `1d` of the source on the editor lane (the live write tag moves on).
pub fn build_select_source_lane(state: &mut HelixState, src_bus: u8, lane: u16) -> (r: Vec<u8>)
    ensures
        r@ == select_source_spec(old(state).counters.x80_cnt, lane, old(state).counters.live_write_yy, src_bus),
        *final(state) == after_x80_yy(*old(state)),
{
    let cnt = state.next_x80_cnt();
    let yy = state.counters.live_write_yy;
    state.counters.live_write_yy = yy.wrapping_add(1);
    let r = vec![
        0x1d, 0x00, 0x00, 0x18, 0x80, 0x10, 0xed, 0x03, 0x00, cnt, 0x00, 0x04, lo_byte(lane), hi_byte(lane), 0x00, 0x00,
        0x01, 0x00, 0x06, 0x00, 0x0d, 0x00, 0x00, 0x00, 0x83, 0x66, 0xcd, 0x03, yy, 0x64, 0x4e, 0x65,
        0x82, 0x62, src_bus, 0x1a, 0x00, 0x00, 0x00, 0x00,
    ];
    assert(r@ == select_source_spec(cnt, lane, yy, src_bus));
    r
}

/// MOVE `1d` on the editor lane (`cd:03`) for the move that creates the split.
pub fn build_matrix_move_lane(state: &mut HelixState, src_index: usize, dest_index: usize, lane: u16) -> (r: Result<Vec<u8>, String>)
    ensures
        src_index >= 16 ==> r is Err && *final(state) == *old(state),
        src_index < 16 && dest_index >= 16 ==> r is Err && *final(state) == *old(state),
        (src_index < 16 && dest_index < 16) ==> (r matches Ok(p) && p@ == move_packet_spec(
            old(state).counters.x80_cnt,
            lo8(lane),
            hi8(lane),
            0x00,
            0x03,
            old(state).counters.live_write_yy,
            kempline_index_to_slot_bus_spec(src_index as int)->0,
            kempline_index_to_slot_bus_spec(dest_index as int)->0,
        )) && *final(state) == after_x80_yy(*old(state)),
{
    let src_bus = match kempline_index_to_slot_bus(src_index) {
        Some(b) => b,
        None => {
            let mut e = text_of("matrix move : bus source invalide pour index ");
            push_decimal(&mut e, src_index as u64);
            return Err(e);
        },
    };
    let dst_bus = match kempline_index_to_slot_bus(dest_index) {
        Some(b) => b,
        None => {
            let mut e = text_of("matrix move : bus destination invalide pour index ");
            push_decimal(&mut e, dest_index as u64);
            return Err(e);
        },
    };
    let cnt = state.next_x80_cnt();
    let yy = state.counters.live_write_yy;
    state.counters.live_write_yy = yy.wrapping_add(1);
    let r = vec![
        0x1d, 0x00, 0x00, 0x18, 0x80, 0x10, 0xed, 0x03, 0x00, cnt, 0x00, 0x04, lo_byte(lane), hi_byte(lane), 0x00, 0x00,
        0x01, 0x00, 0x06, 0x00, 0x0d, 0x00, 0x00, 0x00, 0x83, 0x66, 0xcd, 0x03, yy, 0x64, 0x2b, 0x65,
        0x82, 0x4b, src_bus, 0x4c, dst_bus, 0x00, 0x00, 0x00,
    ];
    assert(r@ == move_packet_spec(cnt, lo8(lane), hi8(lane), 0x00, 0x03, yy, src_bus, dst_bus));
    Ok(r)
}

/// `0x` and two hex digits.
pub open spec fn hex2(b: u8) -> Seq<char> {
    "0x"@ + hex_of(seq![b])
}

/// `0x` and four hex digits.
pub open spec fn hex4(v: u16) -> Seq<char> {
    "0x"@ + hex_of(seq![hi8(v), lo8(v)])
}

fn push_hex2(s: &mut String, b: u8)
    ensures
        final(s)@ == old(s)@ + hex2(b),
{
    string_push_str(s, "0x");
    let arr: [u8; 1] = [b];
    assert(arr@ == seq![b]);
    let h = hex_string(&arr);
    string_push_str(s, h.as_str());
}

fn push_hex4(s: &mut String, v: u16)
    ensures
        final(s)@ == old(s)@ + hex4(v),
{
    string_push_str(s, "0x");
    let arr: [u8; 2] = [hi_byte(v), lo_byte(v)];
    assert(arr@ == seq![hi8(v), lo8(v)]);
    let h = hex_string(&arr);
    string_push_str(s, h.as_str());
}

/// `move_1d <src>-><dst> bus <src bus>-><dst bus>`.
pub open spec fn move_line(src: usize, dst: usize, sb: u8, db: u8) -> Seq<char> {
    "move_1d "@ + decimal_of(src as nat) + "->"@ + decimal_of(dst as nat) + " bus "@ + hex2(sb) + "->"@ + hex2(db)
}

fn push_move_line(s: &mut String, src: usize, dst: usize, sb: u8, db: u8)
    ensures
        final(s)@ == old(s)@ + move_line(src, dst, sb, db),
{
    string_push_str(s, "move_1d ");
    push_decimal(s, src as u64);
    string_push_str(s, "->");
    push_decimal(s, dst as u64);
    string_push_str(s, " bus ");
    push_hex2(s, sb);
    string_push_str(s, "->");
    push_hex2(s, db);
}

/// The move creates the split with the SELECT + MOVE sequence.
pub open spec fn faithful_split(s: HelixState, src_index: usize, dest_index: usize, create_split: bool) -> bool {
    create_split && ((src_index >= 8) != (dest_index >= 8)) && s.tx.dd_create_split_faithful
}

/// Slot tracking once the block sits on `dest_index`.
pub open spec fn tracking_on(t: SlotTracking, dest_index: usize) -> SlotTracking {
    SlotTracking {
        hw_active_slot_index: Some(dest_index),
        hw_active_slot_bus: kempline_index_to_slot_bus_spec(dest_index as int),
        hw_active_slot_sequence: crate::bytes::wadd32(t.hw_active_slot_sequence, 1),
        ..t
    }
}

/// Outcome of the move that creates the split (SELECT + MOVE on the editor lane).
pub open spec fn create_split_outcome(s: HelixState, f: HelixState, src_index: usize, dest_index: usize, r: Result<String, String>) -> bool {
    let n = s.outbox@.len() as int;
    let o = f.outbox@;
    let c = s.counters;
    let l0 = c.live_write_ctr;
    let l1 = wadd16(l0, 0x11);
    let l2 = wadd16(l1, 0x11);
    if src_index >= 16 {
        r is Err && f == s
    } else {
        let sb = kempline_index_to_slot_bus_spec(src_index as int)->0;
        &&& o.subrange(0, n) == s.outbox@
        &&& o[n].data@ == lane08_spec(c.x80_cnt, 0x10, l0)
        &&& o[n + 1].data@ == select_source_spec(wadd8(c.x80_cnt, 1), l0, c.live_write_yy, sb)
        &&& o[n + 2].data@ == lane08_spec(wadd8(c.x80_cnt, 2), 0x08, l1) && o[n + 2].delay_ms == 8
        &&& o[n + 3].data@ == lane08_spec(wadd8(c.x80_cnt, 3), 0x10, l1)
        &&& if dest_index >= 16 {
            &&& r is Err
            &&& o.len() == n + 4
            &&& f == (HelixState {
                counters: Counters { x80_cnt: wadd8(c.x80_cnt, 4), live_write_yy: wadd8(c.live_write_yy, 1), ..c },
                outbox: f.outbox,
                ..s
            })
        } else {
            let db = kempline_index_to_slot_bus_spec(dest_index as int)->0;
            &&& r matches Ok(line) && line@ == "create_split_faithful select_src bus "@ + hex2(sb) + " | "@
                + move_line(src_index, dest_index, sb, db) + " | lane "@ + hex4(l0) + "->"@ + hex4(l1) + " | no_commit"@
            &&& o.len() == n + 6
            &&& o[n + 4].data@ == move_packet_spec(wadd8(c.x80_cnt, 4), lo8(l1), hi8(l1), 0x00, 0x03, wadd8(c.live_write_yy, 1), sb, db)
            &&& o[n + 5].data@ == lane08_spec(wadd8(c.x80_cnt, 5), 0x08, l2) && o[n + 5].delay_ms == 8
            &&& f == (HelixState {
                counters: Counters {
                    x80_cnt: wadd8(c.x80_cnt, 6),
                    live_write_yy: wadd8(c.live_write_yy, 2),
                    live_write_ctr: l2,
                    ..c
                },
                slot: tracking_on(s.slot, dest_index),
                outbox: f.outbox,
                ..s
            })
        }
    }
}

/// Outcome of a move on a path or towards an existing split.
pub open spec fn plain_move_outcome(s: HelixState, f: HelixState, src_index: usize, dest_index: usize, r: Result<String, String>) -> bool {
    let n = s.outbox@.len() as int;
    let o = f.outbox@;
    let c = s.counters;
    if src_index >= 16 || dest_index >= 16 || src_index == dest_index {
        r is Err && f == s
    } else {
        let sb = kempline_index_to_slot_bus_spec(src_index as int)->0;
        let db = kempline_index_to_slot_bus_spec(dest_index as int)->0;
        let inter = (src_index >= 8) != (dest_index >= 8);
        let prime = inter && s.tx.dd_dump_ack_prime;
        &&& o.subrange(0, n) == s.outbox@
        &&& o[n].data@ == move_packet_spec(c.x80_cnt, c.session_no, lo8(s.lanes.editor_ed03_double),
            hi8(s.lanes.editor_ed03_double), move_cd_spec(src_index, dest_index), c.live_write_yy, sb, db)
        &&& o[n + 1].data@ == post_1d_ack08_packet(wadd8(c.x80_cnt, 1), c.session_no, lo8(s.lanes.editor_ed03_double))
        &&& o[n + 1].delay_ms == 8
        &&& r matches Ok(line) && line@ == move_line(src_index, dest_index, sb, db) + (if inter {
            " | branch_commit_19x2"@ + (if s.tx.dd_dump_ack_prime { " | prime_dump_ack_lane"@ } else { ""@ })
        } else {
            ""@
        })
        &&& !inter ==> o.len() == n + 2 && f == (HelixState {
            counters: Counters { x80_cnt: wadd8(c.x80_cnt, 2), live_write_yy: wadd8(c.live_write_yy, 1), ..c },
            slot: tracking_on(s.slot, dest_index),
            outbox: f.outbox,
            ..s
        })
        &&& inter ==> {
            &&& o.len() == n + 4
            &&& o[n + 2].data@ == branch_commit_spec(BRANCH_COMMIT_19_SPLIT@, wadd8(c.x80_cnt, 2), c.live_write_ctr, wadd8(c.live_write_yy, 1))
            &&& o[n + 3].data@ == branch_commit_spec(BRANCH_COMMIT_19_MERGE@, wadd8(c.x80_cnt, 3),
                wadd16(c.live_write_ctr, 0x11), wadd8(c.live_write_yy, 2))
            &&& f.counters == (Counters {
                x80_cnt: wadd8(c.x80_cnt, 4),
                live_write_ctr: wadd16(c.live_write_ctr, 0x22),
                live_write_yy: wadd8(c.live_write_yy, 3),
                ..c
            })
            &&& f.lanes == (if prime {
                EditorLanes { editor_ed03_lane: primed_lane(s), editor_ed03_lane_b14: 0, ..s.lanes }
            } else {
                s.lanes
            })
            &&& f == (HelixState {
                counters: f.counters,
                lanes: f.lanes,
                slot: tracking_on(s.slot, dest_index),
                outbox: f.outbox,
                ..s
            })
        }
    }
}

/// The move that creates the split: SELECT then MOVE, each between a preamble on lane `L`
/// and an ACK on `L + 0x11`; the live write lane ends two steps on.
#[verifier::rlimit(100)]
#[verifier::spinoff_prover]
pub fn send_matrix_slot_move_create_split(state: &mut HelixState, src_index: usize, dest_index: usize) -> (r: Result<String, String>)
    ensures
        create_split_outcome(*old(state), *final(state), src_index, dest_index, r),
{
    let src_bus = match kempline_index_to_slot_bus(src_index) {
        Some(b) => b,
        None => {
            let mut e = text_of("matrix move : bus source invalide pour index ");
            push_decimal(&mut e, src_index as u64);
            return Err(e);
        },
    };
    let l0 = state.counters.live_write_ctr;
    let l1 = l0.wrapping_add(0x11);
    let l2 = l1.wrapping_add(0x11);
    let pre_sel = build_ed03_lane08(state, 0x10, l0);
    state.send(OutPacket::new(pre_sel));
    let sel = build_select_source_lane(state, src_bus, l0);
    state.send(OutPacket::new(sel));
    let ack_sel = build_ed03_lane08(state, 0x08, l1);
    state.send(OutPacket::with_delay(ack_sel, 8));
    let pre_mv = build_ed03_lane08(state, 0x10, l1);
    state.send(OutPacket::new(pre_mv));
    proof {
        crate::bytes::lemma_wadd8_twice(old(state).counters.x80_cnt, 1, 1);
        crate::bytes::lemma_wadd8_twice(old(state).counters.x80_cnt, 2, 1);
        crate::bytes::lemma_wadd8_twice(old(state).counters.x80_cnt, 3, 1);
    }
    let ghost mid = state.outbox@;
    assert(mid.subrange(0, old(state).outbox@.len() as int) == old(state).outbox@);
    let mv = match build_matrix_move_lane(state, src_index, dest_index, l1) {
        Ok(p) => p,
        Err(e) => return Err(e),
    };
    let mv_src = mv[34];
    let mv_dst = mv[36];
    state.send(OutPacket::new(mv));
    let ack_mv = build_ed03_lane08(state, 0x08, l2);
    state.send(OutPacket::with_delay(ack_mv, 8));
    assert(state.outbox@.subrange(0, old(state).outbox@.len() as int) == old(state).outbox@);
    state.counters.live_write_ctr = l2;
    proof {
        crate::bytes::lemma_wadd8_twice(old(state).counters.x80_cnt, 4, 1);
        crate::bytes::lemma_wadd8_twice(old(state).counters.x80_cnt, 5, 1);
        crate::bytes::lemma_wadd8_twice(old(state).counters.live_write_yy, 1, 1);
    }
    let dst_bus = kempline_index_to_slot_bus(dest_index).unwrap();
    state.slot.hw_active_slot_index = Some(dest_index);
    state.slot.hw_active_slot_bus = Some(dst_bus);
    state.slot.hw_active_slot_sequence = state.slot.hw_active_slot_sequence.wrapping_add(1);
    let mut line = text_of("create_split_faithful select_src bus ");
    push_hex2(&mut line, mv_src);
    string_push_str(&mut line, " | ");
    push_move_line(&mut line, src_index, dest_index, mv_src, mv_dst);
    string_push_str(&mut line, " | lane ");
    push_hex4(&mut line, l0);
    string_push_str(&mut line, "->");
    push_hex4(&mut line, l1);
    string_push_str(&mut line, " | no_commit");
    Ok(line)
}

/// A move on a path, or towards an existing split: the move, its ACK and, across the paths,
/// the branch commits and the primed dump ACK lane.
#[verifier::rlimit(50)]
pub fn send_matrix_slot_move_plain(state: &mut HelixState, src_index: usize, dest_index: usize) -> (r: Result<String, String>)
    ensures
        plain_move_outcome(*old(state), *final(state), src_index, dest_index, r),
{
    let inter_path = (src_index >= 8) != (dest_index >= 8);
    let pkt = match build_matrix_slot_move_packet(state, src_index, dest_index) {
        Ok(p) => p,
        Err(e) => return Err(e),
    };
    let ack_lo = pkt[12];
    let ack_hi = pkt[13];
    let src_bus = pkt[34];
    let dst_bus = pkt[36];
    let post = build_post_1d_ack08(state, ack_lo, ack_hi);
    state.send(OutPacket::new(pkt));
    state.send(OutPacket::with_delay(post, 8));
    assert(state.outbox@.subrange(0, old(state).outbox@.len() as int) == old(state).outbox@);
    proof { crate::bytes::lemma_wadd8_twice(old(state).counters.x80_cnt, 1, 1); }
    let mut line = String::new();
    push_move_line(&mut line, src_index, dest_index, src_bus, dst_bus);
    let ghost o2 = state.outbox@;
    let ghost n0 = old(state).outbox@.len() as int;
    if inter_path {
        send_branch_commit_pair(state);
        assert(state.outbox@.subrange(0, o2.len() as int) == o2);
        assert(state.outbox@[n0] == o2[n0]);
        assert(state.outbox@[n0 + 1] == o2[n0 + 1]);
        assert(state.outbox@.subrange(0, n0) == o2.subrange(0, n0));
        proof {
            crate::bytes::lemma_wadd8_twice(old(state).counters.x80_cnt, 2, 2);
            crate::bytes::lemma_wadd8_twice(old(state).counters.x80_cnt, 2, 1);
            crate::bytes::lemma_wadd8_twice(old(state).counters.live_write_yy, 1, 2);
            crate::bytes::lemma_wadd8_twice(old(state).counters.live_write_yy, 1, 1);
        }
        if state.tx.dd_dump_ack_prime {
            prime_dump_ack_lane_after_interpath(state);
        }
        string_push_str(&mut line, " | branch_commit_19x2");
        if state.tx.dd_dump_ack_prime {
            string_push_str(&mut line, " | prime_dump_ack_lane");
        }
    }
    proof {
        reveal_strlit("");
        let a = move_line(src_index, dest_index, src_bus, dst_bus);
        assert(a + ""@ == a);
        assert(" | branch_commit_19x2"@ + ""@ == " | branch_commit_19x2"@);
        assert(a + " | branch_commit_19x2"@ + " | prime_dump_ack_lane"@ == a + (" | branch_commit_19x2"@ + " | prime_dump_ack_lane"@));
    }
    let dst = kempline_index_to_slot_bus(dest_index).unwrap();
    state.slot.hw_active_slot_index = Some(dest_index);
    state.slot.hw_active_slot_bus = Some(dst);
    state.slot.hw_active_slot_sequence = state.slot.hw_active_slot_sequence.wrapping_add(1);
    Ok(line)
}

/// Moves a matrix block (HX Edit drag & drop). With `create_split` across the paths (the
/// destination is an empty path 2) and the faithful option on, the split is created with
/// SELECT + MOVE and no commit; otherwise the plain move. The active slot becomes the
/// destination. Returns a log line.
pub fn send_matrix_slot_move(state: &mut HelixState, src_index: usize, dest_index: usize, create_split: bool) -> (r: Result<String, String>)
    ensures
        faithful_split(*old(state), src_index, dest_index, create_split) ==> create_split_outcome(*old(state), *final(state), src_index, dest_index, r),
        !faithful_split(*old(state), src_index, dest_index, create_split) ==> plain_move_outcome(*old(state), *final(state), src_index, dest_index, r),
{
    let inter_path = (src_index >= 8) != (dest_index >= 8);
    if create_split && inter_path && state.tx.dd_create_split_faithful {
        send_matrix_slot_move_create_split(state, src_index, dest_index)
    } else {
        send_matrix_slot_move_plain(state, src_index, dest_index)
    }
}

} // verus!
