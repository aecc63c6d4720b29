//! Cab 2 replace on the live write lane: focus on `L`, then `ed:08` and the bulk on
//! `L + 0x11`. Accepted bulk heads: `0x27` (IR), `0x23` (legacy, one byte), `0x25` (legacy
//! `cd02xx`). The delays between the steps belong to the caller.
use vstd::prelude::*;
use crate::bytes::{hi8, lo8, wadd16, wadd8};
use crate::cab_dual_live_write::{after_x80, build_cab_dual_cab2_focus_packet_with_lane, cab_dual_focus_spec, focus_triple_spec, Cab2FocusLane};
use crate::ed03_lane::{build_ed08_short, ed08_short_spec, force_ed03_ctr};
use crate::packet::OutPacket;
use crate::state::{CabSession, Counters, HelixState};

verus! {

/// Default delay before the `ed:08`, in milliseconds.
pub const CAB2_DELAY_ED08_MS: u64 = 93;

/// Default delay before the bulk, in milliseconds.
pub const CAB2_DELAY_BULK_MS: u64 = 400;

/// First step: queues the cab 2 focus on lane `L = live_write_ctr` (bytes 12-14 forced to
/// `L`), moves the live write tag on and records the focus for the slot. Returns `L`.
pub fn cab2_replace_fire_focus(state: &mut HelixState, slot_index: u32, slot_bus: u8) -> (l: u16)
    ensures
        ({
            let s = *old(state);
            let yy = wadd8(s.counters.live_write_yy, 1);
            let focus = cab_dual_focus_spec(
                s.counters.x80_cnt,
                focus_triple_spec(s, Cab2FocusLane::LiveWrite),
                0x04,
                0x04,
                s.counters.live_write_yy,
                slot_bus,
                0x01,
            );
            &&& l == s.counters.live_write_ctr
            &&& final(state).outbox@.len() == s.outbox@.len() + 1
            &&& final(state).outbox@.drop_last() == s.outbox@
            &&& final(state).outbox@.last().data@ == focus.update(12, lo8(l)).update(13, hi8(l)).update(14, 0u8)
            &&& final(state).counters == (Counters {
                x80_cnt: wadd8(s.counters.x80_cnt, 1),
                live_write_yy: yy,
                slot_model_lane_seq: Some(yy),
                ..s.counters
            })
            &&& *final(state) == (HelixState {
                counters: final(state).counters,
                cab: CabSession { cab_dual_cab2_focus_sent_for_slot: Some(slot_index), ..s.cab },
                outbox: final(state).outbox,
                ..s
            })
        }),
{
    let l = state.counters.live_write_ctr;
    let mut focus = build_cab_dual_cab2_focus_packet_with_lane(state, slot_bus, Cab2FocusLane::LiveWrite, 0x04);
    force_ed03_ctr(&mut focus, l);
    state.counters.live_write_yy = state.counters.live_write_yy.wrapping_add(1);
    state.counters.slot_model_lane_seq = Some(state.counters.live_write_yy);
    state.cab.cab_dual_cab2_focus_sent_for_slot = Some(slot_index);
    state.send(OutPacket::new(focus));
    l
}

/// Second step: queues the `ed:08` on `L + 0x11`, which becomes the live write lane.
pub fn cab2_replace_fire_ed08(state: &mut HelixState, l: u16) -> (ctr_model: u16)
    ensures
        ctr_model == wadd16(l, 0x11),
        final(state).outbox@.len() == old(state).outbox@.len() + 1,
        final(state).outbox@.drop_last() == old(state).outbox@,
        final(state).outbox@.last().data@ == ed08_short_spec(old(state).counters.x80_cnt, wadd16(l, 0x11)),
        *final(state) == (HelixState {
            counters: Counters {
                x80_cnt: wadd8(old(state).counters.x80_cnt, 1),
                live_write_ctr: wadd16(l, 0x11),
                ..old(state).counters
            },
            outbox: final(state).outbox,
            ..*old(state)
        }),
{
    let ctr_model = l.wrapping_add(0x11);
    let ed08 = build_ed08_short(state, ctr_model);
    state.send(OutPacket::new(ed08));
    state.counters.live_write_ctr = ctr_model;
    ctr_model
}

/// Index of the first packet whose head is an accepted cab 2 replace head, or `-1`.
pub open spec fn first_cab2_bulk(packs: Seq<Vec<u8>>, i: int) -> int
    decreases packs.len() - i,
{
    if i < 0 || i >= packs.len() {
        -1
    } else if packs[i]@.len() > 0 && (packs[i]@[0] == 0x27 || packs[i]@[0] == 0x23 || packs[i]@[0] == 0x25) {
        i
    } else {
        first_cab2_bulk(packs, i + 1)
    }
}

/// The cab 2 replace bulk among the probe packets: the first with head `0x27`, `0x23` or `0x25`,
/// its bytes 14-15 zeroed.
pub fn find_cab2_replace_bulk(packs: &Vec<Vec<u8>>) -> (r: Result<Vec<u8>, String>)
    ensures
        ({
            let k = first_cab2_bulk(packs@, 0);
            &&& k < 0 ==> r is Err
            &&& k >= 0 ==> (r matches Ok(b) && b@ == (if packs@[k]@.len() > 15 {
                packs@[k]@.update(14, 0u8).update(15, 0u8)
            } else {
                packs@[k]@
            }))
        }),
{
    let mut i: usize = 0;
    while i < packs.len()
        invariant
            0 <= i <= packs@.len(),
            first_cab2_bulk(packs@, 0) == first_cab2_bulk(packs@, i as int),
        decreases packs.len() - i,
    {
        let p = &packs[i];
        if p.len() > 0 && (p[0] == 0x27 || p[0] == 0x23 || p[0] == 0x25) {
            let mut bulk = crate::bytes::copy_bytes(p);
            if bulk.len() > 15 {
                bulk.set(14, 0x00);
                bulk.set(15, 0x00);
            }
            return Ok(bulk);
        }
        i = i + 1;
    }
    Err(crate::text::text_of("cab dual cab2 replace : bulk introuvable (attendu head 0x27, 0x23 ou 0x25)"))
}

/// Index of the first packet bytes whose head is `0x27`, `0x23` or `0x25`, or `-1`.
pub open spec fn first_replace_head(ps: Seq<Seq<u8>>, i: int) -> int
    decreases ps.len() - i,
{
    if i < 0 || i >= ps.len() {
        -1
    } else if ps[i].len() > 0 && (ps[i][0] == 0x27 || ps[i][0] == 0x23 || ps[i][0] == 0x25) {
        i
    } else {
        first_replace_head(ps, i + 1)
    }
}

pub proof fn lemma_first_replace_head(r: Seq<Vec<u8>>, ps: Seq<Seq<u8>>, i: int)
    requires
        crate::edit_slot_model::packets_are(r, ps),
    ensures
        first_cab2_bulk(r, i) == first_replace_head(ps, i),
        first_replace_head(ps, i) == -1 || (i <= first_replace_head(ps, i) < ps.len()),
        first_replace_head(ps, i) >= 0 ==> ps[first_replace_head(ps, i)].len() > 0 && (ps[first_replace_head(ps, i)][0]
            == 0x27 || ps[first_replace_head(ps, i)][0] == 0x23 || ps[first_replace_head(ps, i)][0] == 0x25),
    decreases ps.len() - i,
{
    if !(i < 0 || i >= ps.len()) {
        assert(r[i]@ == ps[i]);
        lemma_first_replace_head(r, ps, i + 1);
    }
}

/// Bytes 14-15 zeroed (when the bulk has them).
pub open spec fn zero_14_15(b: Seq<u8>) -> Seq<u8> {
    if b.len() > 15 { b.update(14, 0u8).update(15, 0u8) } else { b }
}

/// Probe of a replace on an occupied slot with `bulk` right after a focus, from counters `c`.
pub open spec fn replace_probe(s: HelixState, c: Counters, slot_index: u32, slot_bus: u8, bulk: Seq<u8>)
    -> (Seq<Seq<u8>>, Counters)
{
    crate::edit_slot_model::probe_spec(
        c,
        s.tx.cab_dual_create_head31,
        s.tx.amp_cab_legacy_create_head2d,
        crate::edit_slot_model::SlotModelProbeOp::ReplaceOccupied,
        slot_index as usize,
        slot_bus,
        None,
        Some(bulk),
        true,
    )
}

/// Last step: on lane `ctr_model`, the catalogue bulk (lane `cd:0a` → `cd:04`) goes through the
/// replace probe; the first packet with an accepted head, bytes 14-15 zeroed, is queued and
/// returned. Fails, with nothing queued, when the probe has no such packet.
pub fn cab2_replace_fire_bulk(state: &mut HelixState, slot_index: u32, slot_bus: u8, usb_bulk: &[u8], ctr_model: u16)
    -> (r: Result<Vec<u8>, String>)
    ensures
        ({
            let s = *old(state);
            let c = Counters { live_write_ctr: ctr_model, ..s.counters };
            let p = replace_probe(s, c, slot_index, slot_bus, crate::edit_slot_model::reframe_cd0a_spec(usb_bulk@));
            let k = first_replace_head(p.0, 0);
            &&& final(state).counters == p.1
            &&& k < 0 ==> r is Err && *final(state) == (HelixState { counters: final(state).counters, ..s })
            &&& k >= 0 ==> (r matches Ok(b) && b@ == zero_14_15(p.0[k]) && final(state).outbox@ == s.outbox@.push(
                final(state).outbox@.last()) && final(state).outbox@.last().data@ == b@
                && *final(state) == (HelixState { counters: final(state).counters, outbox: final(state).outbox, ..s }))
        }),
{
    state.counters.live_write_ctr = ctr_model;
    let mut bulk_in: Vec<u8> = Vec::new();
    crate::bytes::append_bytes(&mut bulk_in, usb_bulk);
    assert(bulk_in@ =~= usb_bulk@);
    crate::cab_dual::legacy::wire::prepare_cab2_replace_bulk(&mut bulk_in);
    let packs = crate::edit_slot_model::build_slot_model_probe_packets(
        state,
        crate::edit_slot_model::SlotModelProbeOp::ReplaceOccupied,
        slot_index as usize,
        slot_bus,
        None,
        Some(bulk_in.as_slice()),
        true,
    );
    let ghost ps = crate::edit_slot_model::probe_spec(
        Counters { live_write_ctr: ctr_model, ..old(state).counters },
        old(state).tx.cab_dual_create_head31,
        old(state).tx.amp_cab_legacy_create_head2d,
        crate::edit_slot_model::SlotModelProbeOp::ReplaceOccupied,
        slot_index as usize,
        slot_bus,
        None,
        Some(bulk_in@),
        true,
    ).0;
    proof { lemma_first_replace_head(packs@, ps, 0); }
    let mut bulk = match find_cab2_replace_bulk(&packs) {
        Ok(b) => b,
        Err(e) => return Err(e),
    };
    if bulk.len() > 15 {
        bulk.set(14, 0x00);
        bulk.set(15, 0x00);
    }
    let out = crate::bytes::copy_bytes(&bulk);
    state.send(OutPacket::new(out));
    Ok(bulk)
}

} // verus!
