//! Cab-only replace on an occupied Amp+Cab slot: cab focus `1d` → `ed:08` → bulk (heads
//! `0x27` IR, `0x23` / `0x25` legacy). A legacy replace puts the catalogue bulk's `cd:07`
//! lane (assign form) back to `cd:03`. The delays between the steps belong to the caller.
use vstd::prelude::*;
use crate::bytes::{hi8, lo8, wadd16, wadd8};
use crate::cab_dual_live_write::{cab_dual_focus_spec, focus_triple_spec, Cab2FocusLane};
use crate::ed03_lane::force_ed03_ctr;
use crate::packet::OutPacket;
use crate::state::{CabSession, Counters, HelixState};

verus! {

/// Default delay before the bulk of a legacy replace, in milliseconds.
pub const AMP_CAB_LEGACY_REPLACE_BULK_MS: u64 = 1100;

/// Compact legacy Amp+Cab bulk (head `0x23`).
pub fn amp_cab_replace_bulk_implies_legacy(bulk: &[u8]) -> (r: bool)
    ensures
        r == (bulk@.len() > 0 && bulk@[0] == 0x23),
{
    bulk.len() > 0 && bulk[0] == 0x23
}

/// Heads accepted for the cab replace bulk.
pub fn accepted_amp_cab_cab_replace_heads() -> (r: Vec<u8>)
    ensures
        r@ == seq![0x27u8, 0x23, 0x25],
{
    vec![0x27, 0x23, 0x25]
}

/// Position of the first `83 66 cd 07` below `len - 4`, or `-1`.
pub open spec fn first_cd07_from(s: Seq<u8>, i: int) -> int
    decreases s.len() - i,
{
    if i < 0 || i >= s.len() - 4 {
        -1
    } else if s[i] == 0x83 && s[i + 1] == 0x66 && s[i + 2] == 0xcd && s[i + 3] == 0x07 {
        i
    } else {
        first_cd07_from(s, i + 1)
    }
}

/// Legacy cab replace: the first `83:66:cd:07` becomes `cd:03`.
pub fn reframe_legacy_replace_cd07_to_cd03(bulk: &mut Vec<u8>)
    ensures
        final(bulk)@ == (if first_cd07_from(old(bulk)@, 0) < 0 {
            old(bulk)@
        } else {
            old(bulk)@.update(first_cd07_from(old(bulk)@, 0) + 3, 0x03u8)
        }),
{
    let n: usize = if bulk.len() >= 4 { bulk.len() - 4 } else { 0 };
    let mut i: usize = 0;
    while i < n
        invariant
            bulk@ == old(bulk)@,
            n == (if bulk@.len() >= 4 { bulk@.len() - 4 } else { 0 }),
            n == 0 || n + 4 == bulk.len(),
            0 <= i <= n,
            first_cd07_from(bulk@, 0) == first_cd07_from(bulk@, i as int),
        decreases n - i,
    {
        if bulk[i] == 0x83 && bulk[i + 1] == 0x66 && bulk[i + 2] == 0xcd && bulk[i + 3] == 0x07 {
            bulk.set(i + 3, 0x03);
            return;
        }
        i = i + 1;
    }
}

/// Prepares the bulk of an IR replace (lane `cd:0a` → `cd:04`).
pub fn prepare_amp_cab_cab_replace_bulk(bulk: &mut Vec<u8>)
    ensures
        final(bulk)@ == crate::edit_slot_model::reframe_cd0a_spec(old(bulk)@),
{
    crate::cab_dual::legacy::wire::reframe_cd0a_to_cd04(bulk)
}

/// Bytes 14-15 are zeroed, except on the assign heads `0x23` / `0x25` / `0x27`.
pub fn finalize_amp_cab_replace_bulk(bulk: &mut Vec<u8>)
    ensures
        ({
            let b = old(bulk)@;
            let head: u8 = if b.len() > 0 { b[0] } else { 0 };
            final(bulk)@ == (if head == 0x23 || head == 0x25 || head == 0x27 || b.len() <= 15 {
                b
            } else {
                b.update(14, 0u8).update(15, 0u8)
            })
        }),
{
    let head: u8 = if bulk.len() > 0 { bulk[0] } else { 0 };
    if head == 0x23 || head == 0x25 || head == 0x27 {
        return;
    }
    if bulk.len() > 15 {
        bulk.set(14, 0x00);
        bulk.set(15, 0x00);
    }
}

/// First step of the replace: queues the cab focus on lane `L = live_write_ctr` (bytes 12-14
/// forced to `L`), moves the live write tag on and records the focus for the slot. Returns `L`.
pub fn amp_cab_cab_replace_focus(state: &mut HelixState, slot_index: u32, slot_bus: u8) -> (l: u16)
    ensures
        ({
            let s = *old(state);
            let yy = wadd8(s.counters.live_write_yy, 1);
            let focus = cab_dual_focus_spec(
                s.counters.x80_cnt,
                focus_triple_spec(s, Cab2FocusLane::LiveWrite),
                0x04,
                0x03,
                s.counters.live_write_yy,
                slot_bus,
                0x01,
            );
            &&& l == s.counters.live_write_ctr
            &&& final(state).outbox@.len() == s.outbox@.len() + 1
            &&& final(state).outbox@.drop_last() == s.outbox@
            &&& final(state).outbox@.last().data@ == focus.update(12, lo8(l)).update(13, hi8(l)).update(14, 0u8)
            &&& final(state).counters == (Counters {
                x80_cnt: wadd8(s.counters.x80_cnt, 1),
                live_write_yy: yy,
                slot_model_lane_seq: Some(yy),
                ..s.counters
            })
            &&& *final(state) == (HelixState {
                counters: final(state).counters,
                cab: CabSession { amp_cab_cab_focus_sent_for_slot: Some(slot_index), ..s.cab },
                outbox: final(state).outbox,
                ..s
            })
        }),
{
    let l = state.counters.live_write_ctr;
    let mut focus = crate::amp_cab_live_write::build_amp_cab_ir_cab_focus_packet(state, slot_bus);
    force_ed03_ctr(&mut focus, l);
    state.counters.live_write_yy = state.counters.live_write_yy.wrapping_add(1);
    state.counters.slot_model_lane_seq = Some(state.counters.live_write_yy);
    state.cab.amp_cab_cab_focus_sent_for_slot = Some(slot_index);
    state.send(OutPacket::new(focus));
    l
}

/// The cab replace bulk among the probe packets: the first with an accepted head.
pub fn find_amp_cab_cab_replace_bulk(packs: &Vec<Vec<u8>>) -> (r: Result<Vec<u8>, String>)
    ensures
        ({
            let k = crate::cab_dual::replace_fire::first_cab2_bulk(packs@, 0);
            &&& k < 0 ==> (r matches Err(e) && e@ == "amp+cab cab replace : bulk introuvable (attendu head [39, 35, 37])"@)
            &&& k >= 0 ==> (r matches Ok(b) && b@ == packs@[k]@)
        }),
{
    let mut i: usize = 0;
    while i < packs.len()
        invariant
            0 <= i <= packs@.len(),
            crate::cab_dual::replace_fire::first_cab2_bulk(packs@, 0) == crate::cab_dual::replace_fire::first_cab2_bulk(packs@, i as int),
        decreases packs.len() - i,
    {
        let p = &packs[i];
        if p.len() > 0 && (p[0] == 0x27 || p[0] == 0x23 || p[0] == 0x25) {
            return Ok(crate::bytes::copy_bytes(p));
        }
        i = i + 1;
    }
    Err(crate::text::text_of("amp+cab cab replace : bulk introuvable (attendu head [39, 35, 37])"))
}

/// Second step: queues the `ed:08` on `L + 0x11`, which becomes the live write lane.
pub fn amp_cab_cab_replace_ed08(state: &mut HelixState, l: u16) -> (ctr_model: u16)
    ensures
        ctr_model == wadd16(l, 0x11),
        final(state).outbox@.len() == old(state).outbox@.len() + 1,
        final(state).outbox@.drop_last() == old(state).outbox@,
        final(state).outbox@.last().data@ == crate::ed03_lane::ed08_short_spec(old(state).counters.x80_cnt, wadd16(l, 0x11)),
        *final(state) == (HelixState {
            counters: Counters {
                x80_cnt: wadd8(old(state).counters.x80_cnt, 1),
                live_write_ctr: wadd16(l, 0x11),
                ..old(state).counters
            },
            outbox: final(state).outbox,
            ..*old(state)
        }),
{
    let ctr_model = l.wrapping_add(0x11);
    let ed08 = crate::ed03_lane::build_ed08_short(state, ctr_model);
    state.send(OutPacket::new(ed08));
    state.counters.live_write_ctr = ctr_model;
    ctr_model
}

/// The catalogue bulk of a cab replace, reframed: a legacy bulk's first `cd:07` becomes
/// `cd:03`, an IR bulk's first `cd:0a` becomes `cd:04`.
pub open spec fn replace_bulk_in(usb: Seq<u8>, legacy: bool) -> Seq<u8> {
    if legacy {
        if first_cd07_from(usb, 0) < 0 { usb } else { usb.update(first_cd07_from(usb, 0) + 3, 0x03u8) }
    } else {
        crate::edit_slot_model::reframe_cd0a_spec(usb)
    }
}

/// Last step: on lane `ctr_model`, the reframed catalogue bulk goes through the replace probe;
/// the first packet with an accepted head is queued, returned, and its `cd:03` lane tag
/// recorded for the slot's cab (the amp tag kept). Fails, with nothing queued, when the probe
/// has no such packet.
pub fn amp_cab_cab_replace_bulk(
    state: &mut HelixState,
    slot_index: u32,
    slot_bus: u8,
    usb_bulk: &[u8],
    legacy: bool,
    ctr_model: u16,
) -> (r: Result<Vec<u8>, String>)
    ensures
        ({
            let s = *old(state);
            let c = Counters { live_write_ctr: ctr_model, ..s.counters };
            let p = crate::cab_dual::replace_fire::replace_probe(s, c, slot_index, slot_bus, replace_bulk_in(usb_bulk@, legacy));
            let k = crate::cab_dual::replace_fire::first_replace_head(p.0, 0);
            &&& final(state).counters == p.1
            &&& k < 0 ==> r is Err && *final(state) == (HelixState { counters: final(state).counters, ..s })
            &&& k >= 0 ==> (r matches Ok(b) && b@ == p.0[k] && final(state).outbox@ == s.outbox@.push(
                final(state).outbox@.last()) && final(state).outbox@.last().data@ == b@
                && (crate::amp_cab_live_write::lane_tag_after_cd03_spec(b@) is None ==> final(state).cab == s.cab)
                && (crate::amp_cab_live_write::lane_tag_after_cd03_spec(b@) matches Some(tag) ==>
                    final(state).cab.amp_cab_focus_lane_tags_by_slot@ == seq![(slot_index, (match crate::amp_cab_live_write::assoc_get(
                        s.cab.amp_cab_focus_lane_tags_by_slot@, slot_index) {
                        Some(q) => q.0,
                        None => tag,
                    }, tag))] + s.cab.amp_cab_focus_lane_tags_by_slot@
                    && final(state).cab == (CabSession { amp_cab_focus_lane_tags_by_slot: final(state).cab.amp_cab_focus_lane_tags_by_slot, ..s.cab }))
                && *final(state) == (HelixState {
                    counters: final(state).counters,
                    outbox: final(state).outbox,
                    cab: final(state).cab,
                    ..s
                }))
        }),
{
    state.counters.live_write_ctr = ctr_model;
    let mut bulk_in: Vec<u8> = Vec::new();
    crate::bytes::append_bytes(&mut bulk_in, usb_bulk);
    assert(bulk_in@ =~= usb_bulk@);
    if legacy {
        reframe_legacy_replace_cd07_to_cd03(&mut bulk_in);
    } else {
        prepare_amp_cab_cab_replace_bulk(&mut bulk_in);
    }
    let packs = crate::edit_slot_model::build_slot_model_probe_packets(
        state,
        crate::edit_slot_model::SlotModelProbeOp::ReplaceOccupied,
        slot_index as usize,
        slot_bus,
        None,
        Some(bulk_in.as_slice()),
        true,
    );
    let ghost ps = crate::edit_slot_model::probe_spec(
        Counters { live_write_ctr: ctr_model, ..old(state).counters },
        old(state).tx.cab_dual_create_head31,
        old(state).tx.amp_cab_legacy_create_head2d,
        crate::edit_slot_model::SlotModelProbeOp::ReplaceOccupied,
        slot_index as usize,
        slot_bus,
        None,
        Some(bulk_in@),
        true,
    ).0;
    proof { crate::cab_dual::replace_fire::lemma_first_replace_head(packs@, ps, 0); }
    let mut bulk = match find_amp_cab_cab_replace_bulk(&packs) {
        Ok(b) => b,
        Err(e) => return Err(e),
    };
    finalize_amp_cab_replace_bulk(&mut bulk);
    let out = crate::bytes::copy_bytes(&bulk);
    state.send(OutPacket::new(out));
    crate::amp_cab_live_write::record_amp_cab_cab_replace_session(state, slot_index, bulk.as_slice());
    Ok(bulk)
}

} // verus!
