//! Live write routing of the cab part of a slot: Amp+Cab IR (`cd:03`, `…c3:1a:01:1c`),
//! Amp+Cab legacy hybrid (`…c3:19`) and single/dual legacy cabs (`…c2:19` / `…c3:19`).
use vstd::prelude::*;
use crate::bytes::{append_bytes, hi8, lo8, lo_byte, hi_byte, wadd16, wadd8};
use crate::packet::{window3_at, window4_at};
use crate::live_write::{echo_block_lookup, lookup_echo_model_block, LiveWriteRouteOverride};
use crate::slots::{echo_model_cache_key, kempline_index_to_slot_bus, kempline_index_to_slot_bus_spec};
use crate::state::{CabSession, Counters, HelixState};
use crate::live_write_config::{bool_payload_spec, discrete_23_step_count, discrete_steps_spec, infer_bool_wire_payload, HelixLiveWriteCfg};
use crate::ed03_lane::ed08_short_spec;
use crate::text::decimal_of;
use vstd::string::StringSliceAdditionalSpecFns;

verus! {

/// `(param_selector, model_tag)` of the guitar legacy hybrid cab.
pub open spec fn legacy_guitar_cab_routes() -> Seq<(u8, u8)> {
    seq![(0x25u8, 0x05u8), (0x26, 0x03), (0x27, 0x1b), (0x28, 0x1d), (0x29, 0x1f), (0x2a, 0x21), (0x2b, 0x13)]
}

/// `(param_selector, model_tag)` of the compact legacy cab.
pub open spec fn legacy_compact_cab_routes() -> Seq<(u8, u8)> {
    seq![(0x00u8, 0xcbu8), (0x01, 0xcd), (0x02, 0xc9), (0x03, 0xcf), (0x04, 0xbb), (0x05, 0xb9), (0x06, 0xb7)]
}

/// Wire pair `(param_selector, model_tag)` of a legacy cab parameter: the guitar table for an
/// amp block of 10 parameters or more, else the compact table.
pub fn legacy_cab_wire_pair(local_param_index: u32, amp_block_len: usize) -> (r: Option<(u8, u8)>)
    ensures
        ({
            let t = if amp_block_len >= 10 { legacy_guitar_cab_routes() } else { legacy_compact_cab_routes() };
            r == if local_param_index < 7 { Some(t[local_param_index as int]) } else { None::<(u8, u8)> }
        }),
{
    if local_param_index >= 7 {
        return None;
    }
    let i = local_param_index as usize;
    if amp_block_len >= 10 {
        let t: [(u8, u8); 7] = [(0x25, 0x05), (0x26, 0x03), (0x27, 0x1b), (0x28, 0x1d), (0x29, 0x1f), (0x2a, 0x21), (0x2b, 0x13)];
        assert(t@ == legacy_guitar_cab_routes());
        Some(t[i])
    } else {
        let t: [(u8, u8); 7] = [(0x00, 0xcb), (0x01, 0xcd), (0x02, 0xc9), (0x03, 0xcf), (0x04, 0xbb), (0x05, 0xb9), (0x06, 0xb7)];
        assert(t@ == legacy_compact_cab_routes());
        Some(t[i])
    }
}

/// IR cab model block on lane `pp` (`03` cab 1 / Amp+Cab, `04` cab 2).
pub open spec fn ir_param_model_block(pp: u8, tag: u8, slot_bus: u8) -> Seq<u8> {
    seq![0x83u8, 0x66, 0xcd, pp, tag, 0x64, 0x1e, 0x65, 0x85, 0x62, slot_bus, 0x1d, 0xc3, 0x1a, 0x01, 0x1c]
}

/// IR cab model block of an Amp+Cab slot.
pub fn build_amp_cab_ir_param_model_block(slot_bus: u8, tag_yy: u8) -> (r: [u8; 16])
    ensures
        r@ == ir_param_model_block(0x03, tag_yy, slot_bus),
{
    let r = [0x83, 0x66, 0xcd, 0x03, tag_yy, 0x64, 0x1e, 0x65, 0x85, 0x62, slot_bus, 0x1d, 0xc3, 0x1a, 0x01, 0x1c];
    assert(r@ == ir_param_model_block(0x03, tag_yy, slot_bus));
    r
}

/// Legacy hybrid cab model block (`…c3:19`).
pub fn build_amp_cab_legacy_param_model_block(pp: u8, tag: u8, slot_bus: u8) -> (r: [u8; 16])
    ensures
        r@ == seq![0x83u8, 0x66, 0xcd, pp, tag, 0x64, 0x28, 0x65, 0x82, 0x62, slot_bus, 0x64, 0x83, 0x17, 0xc3, 0x19],
{
    let r = [0x83, 0x66, 0xcd, pp, tag, 0x64, 0x28, 0x65, 0x82, 0x62, slot_bus, 0x64, 0x83, 0x17, 0xc3, 0x19];
    assert(r@ == seq![0x83u8, 0x66, 0xcd, pp, tag, 0x64, 0x28, 0x65, 0x82, 0x62, slot_bus, 0x64, 0x83, 0x17, 0xc3, 0x19]);
    r
}

/// Single legacy cab model block (`…c2:19`); byte 4 is the wire parameter selector.
pub fn build_standalone_legacy_cab_param_model_block(param_selector: u8, slot_bus: u8) -> (r: [u8; 16])
    ensures
        r@ == seq![0x83u8, 0x66, 0xcd, 0x04, param_selector, 0x64, 0x28, 0x65, 0x82, 0x62, slot_bus, 0x64, 0x83, 0x17, 0xc2, 0x19],
{
    let r = [0x83, 0x66, 0xcd, 0x04, param_selector, 0x64, 0x28, 0x65, 0x82, 0x62, slot_bus, 0x64, 0x83, 0x17, 0xc2, 0x19];
    assert(r@ == seq![0x83u8, 0x66, 0xcd, 0x04, param_selector, 0x64, 0x28, 0x65, 0x82, 0x62, slot_bus, 0x64, 0x83, 0x17, 0xc2, 0x19]);
    r
}

/// `len - 5`, or 0 for shorter data.
pub open spec fn scan_end5(len: int) -> int {
    if len >= 5 { len - 5 } else { 0 }
}

/// First index in `[i, end)` where `83 66 cd` starts, or `-1`.
pub open spec fn first_cd_from(s: Seq<u8>, i: int, end: int) -> int
    decreases end - i,
{
    if i < 0 || i >= end {
        -1
    } else if window3_at(s, i, 0x83, 0x66, 0xcd) {
        i
    } else {
        first_cd_from(s, i + 1, end)
    }
}

/// First index in `[i, end)` where `83 66 cd 03` starts, or `-1`.
pub open spec fn first_cd03_from(s: Seq<u8>, i: int, end: int) -> int
    decreases end - i,
{
    if i < 0 || i >= end {
        -1
    } else if window4_at(s, i, 0x83, 0x66, 0xcd, 0x03) {
        i
    } else {
        first_cd03_from(s, i + 1, end)
    }
}

/// Session tag after the first `83:66:cd:XX` (searched below `len - 5`).
pub open spec fn lane_tag_after_cd_spec(s: Seq<u8>) -> Option<u8> {
    let k = first_cd_from(s, 0, scan_end5(s.len() as int));
    if k < 0 { None } else { Some(s[k + 4]) }
}

/// Session tag after the first `83:66:cd:03` (searched below `len - 5`).
pub open spec fn lane_tag_after_cd03_spec(s: Seq<u8>) -> Option<u8> {
    let k = first_cd03_from(s, 0, scan_end5(s.len() as int));
    if k < 0 { None } else { Some(s[k + 4]) }
}

/// Session tag (byte after `83:66:cd:XX`) in an Amp+Cab assign/replace bulk.
pub fn lane_tag_after_cd_lane_in_bulk(bulk: &[u8]) -> (r: Option<u8>)
    ensures
        r == lane_tag_after_cd_spec(bulk@),
{
    let end: usize = if bulk.len() >= 5 { bulk.len() - 5 } else { 0 };
    let mut i: usize = 0;
    while i < end
        invariant
            end == scan_end5(bulk@.len() as int),
            0 <= i <= end,
            first_cd_from(bulk@, 0, end as int) == first_cd_from(bulk@, i as int, end as int),
        decreases end - i,
    {
        if bulk[i] == 0x83 && bulk[i + 1] == 0x66 && bulk[i + 2] == 0xcd {
            return Some(bulk[i + 4]);
        }
        i = i + 1;
    }
    None
}

/// Session tag after `83:66:cd:03` (cab replace / focus).
pub fn lane_tag_after_cd03_in_bulk(bulk: &[u8]) -> (r: Option<u8>)
    ensures
        r == lane_tag_after_cd03_spec(bulk@),
{
    let end: usize = if bulk.len() >= 5 { bulk.len() - 5 } else { 0 };
    let mut i: usize = 0;
    while i < end
        invariant
            end == scan_end5(bulk@.len() as int),
            0 <= i <= end,
            first_cd03_from(bulk@, 0, end as int) == first_cd03_from(bulk@, i as int, end as int),
        decreases end - i,
    {
        if bulk[i] == 0x83 && bulk[i + 1] == 0x66 && bulk[i + 2] == 0xcd && bulk[i + 3] == 0x03 {
            return Some(bulk[i + 4]);
        }
        i = i + 1;
    }
    None
}

/// Value of the first entry of `list` whose key is `k`.
pub open spec fn assoc_get<K, V>(list: Seq<(K, V)>, k: K) -> Option<V>
    decreases list.len(),
{
    if list.len() == 0 {
        None
    } else if list[0].0 == k {
        Some(list[0].1)
    } else {
        assoc_get(list.drop_first(), k)
    }
}

/// Amp and cab focus tags of `slot_index`, recorded after an assign or a cab replace.
pub fn amp_cab_focus_lane_tags(state: &HelixState, slot_index: u32) -> (r: Option<(u8, u8)>)
    ensures
        r == assoc_get(state.cab.amp_cab_focus_lane_tags_by_slot@, slot_index),
{
    let list = &state.cab.amp_cab_focus_lane_tags_by_slot;
    let mut i: usize = 0;
    assert(list@.subrange(0, list@.len() as int) == list@);
    while i < list.len()
        invariant
            list@ == state.cab.amp_cab_focus_lane_tags_by_slot@,
            0 <= i <= list@.len(),
            assoc_get(list@, slot_index) == assoc_get(list@.subrange(i as int, list@.len() as int), slot_index),
        decreases list.len() - i,
    {
        assert(list@.subrange(i as int, list@.len() as int).drop_first() == list@.subrange(i + 1, list@.len() as int));
        assert(list@.subrange(i as int, list@.len() as int)[0] == list@[i as int]);
        if list[i].0 == slot_index {
            assert(assoc_get(list@.subrange(i as int, list@.len() as int), slot_index) == Some(list@[i as int].1));
            return Some(list[i].1);
        }
        i = i + 1;
    }
    assert(list@.subrange(i as int, list@.len() as int).len() == 0);
    None
}

/// The tags recorded for a slot are the ones found for it next: an assign records its lane
/// tag for both the amp and the cab; a cab replace records its tag for the cab and keeps the
/// amp tag already known for the slot.
pub proof fn law_recorded_focus_tags_are_found(list: Seq<(u32, (u8, u8))>, slot: u32, tag: u8)
    ensures
        assoc_get(seq![(slot, (tag, tag))] + list, slot) == Some((tag, tag)),
        assoc_get(seq![(slot, (match assoc_get(list, slot) {
            Some(p) => p.0,
            None => tag,
        }, tag))] + list, slot) == Some((match assoc_get(list, slot) {
            Some(p) => p.0,
            None => tag,
        }, tag)),
        forall|other: u32| other != slot ==> assoc_get(seq![(slot, (tag, tag))] + list, other) == assoc_get(list, other),
{
    assert((seq![(slot, (tag, tag))] + list).drop_first() =~= list);
}

/// After an Amp+Cab assign: records the amp and cab tags of the slot (both the bulk's tag).
pub fn record_amp_cab_assign_session(state: &mut HelixState, slot_index: u32, bulk: &[u8])
    ensures
        lane_tag_after_cd_spec(bulk@) is None ==> *final(state) == *old(state),
        lane_tag_after_cd_spec(bulk@) matches Some(tag) ==> final(state).cab.amp_cab_focus_lane_tags_by_slot@
            == seq![(slot_index, (tag, tag))] + old(state).cab.amp_cab_focus_lane_tags_by_slot@,
        *final(state) == (HelixState {
            cab: CabSession {
                amp_cab_focus_lane_tags_by_slot: final(state).cab.amp_cab_focus_lane_tags_by_slot,
                ..old(state).cab
            },
            ..*old(state)
        }),
{
    if let Some(tag) = lane_tag_after_cd_lane_in_bulk(bulk) {
        state.cab.amp_cab_focus_lane_tags_by_slot.insert(0, (slot_index, (tag, tag)));
    }
}

/// Single legacy assign of the `cd:03:ff` kind: its parameter writes go through the
/// asynchronous `19`/`272` handshake.
pub fn standalone_legacy_assign_uses_cd03ff(assign: [u8; 16]) -> (r: bool)
    ensures
        r == (assign@[3] == 0x03 && assign@[4] == 0xff),
{
    assign[3] == 0x03 && assign[4] == 0xff
}

/// Interstitial `f0:03` sub=`08` on the background scroll lane.
pub open spec fn legacy_f0_interstitial_spec(cnt: u8, lane: u16) -> Seq<u8> {
    seq![0x08u8, 0x00, 0x00, 0x18, 0x02, 0x10, 0xf0, 0x03, 0x00, cnt, 0x00, 0x08, lo8(lane), hi8(lane), 0x00, 0x00]
}

/// Interstitial `f0:03` sub=`08` (next x2 counter, current scroll lane).
pub fn build_legacy_f0_interstitial_packet(state: &mut HelixState) -> (r: Vec<u8>)
    ensures
        r@ == legacy_f0_interstitial_spec(old(state).counters.x2_cnt, old(state).scroll.firmware_scroll_ack_ctr),
        *final(state) == (HelixState {
            counters: Counters { x2_cnt: wadd8(old(state).counters.x2_cnt, 1), ..old(state).counters },
            ..*old(state)
        }),
{
    let cnt = state.next_x2_cnt();
    let double = state.firmware_scroll_lane_double();
    let r = vec![0x08, 0x00, 0x00, 0x18, 0x02, 0x10, 0xf0, 0x03, 0x00, cnt, 0x00, 0x08, double[0], double[1], 0x00, 0x00];
    assert(r@ == legacy_f0_interstitial_spec(old(state).counters.x2_cnt, old(state).scroll.firmware_scroll_ack_ctr));
    r
}

/// OUT `1b` that opens a `cd:03:ff` parameter commit.
pub open spec fn cd03ff_1b_spec(seq: u8, ctr: u16, assign: Seq<u8>, slot_bus: u8) -> Seq<u8> {
    seq![
        0x1bu8, 0x00, 0x00, 0x18, 0x80, 0x10, 0xed, 0x03, 0x00, seq, 0x00, 0x04, lo8(ctr), hi8(ctr),
        0x00, 0x00, 0x01, 0x00, 0x06, 0x00, 0x0b, 0x00, 0x00, 0x00, 0x83, 0x66, 0xcd, assign[3],
        wadd8(assign[4], -1), 0x64, 0x2d, 0x65, 0x81, 0x62, slot_bus, 0x00,
    ]
}

/// OUT `1b` before a `cd:03:ff` parameter commit; the live write lane moves on by `0x4b`.
pub fn build_standalone_legacy_cd03ff_param_1b(state: &mut HelixState, assign_block: [u8; 16], slot_bus: u8) -> (r: Vec<u8>)
    ensures
        r@ == cd03ff_1b_spec(old(state).counters.x80_cnt, old(state).counters.live_write_ctr, assign_block@, slot_bus),
        *final(state) == (HelixState {
            counters: Counters {
                x80_cnt: wadd8(old(state).counters.x80_cnt, 1),
                live_write_ctr: wadd16(old(state).counters.live_write_ctr, 0x4b),
                ..old(state).counters
            },
            ..*old(state)
        }),
{
    let seq = state.next_x80_cnt();
    let ctr = state.counters.live_write_ctr;
    state.counters.live_write_ctr = state.counters.live_write_ctr.wrapping_add(0x004b);
    let pre_tag = assign_block[4].wrapping_sub(1);
    let r = vec![
        0x1b, 0x00, 0x00, 0x18, 0x80, 0x10, 0xed, 0x03, 0x00, seq, 0x00, 0x04, lo_byte(ctr), hi_byte(ctr),
        0x00, 0x00, 0x01, 0x00, 0x06, 0x00, 0x0b, 0x00, 0x00, 0x00, 0x83, 0x66, 0xcd, assign_block[3],
        pre_tag, 0x64, 0x2d, 0x65, 0x81, 0x62, slot_bus, 0x00,
    ];
    assert(r@ == cd03ff_1b_spec(old(state).counters.x80_cnt, old(state).counters.live_write_ctr, assign_block@, slot_bus));
    r
}

/// OUT `19` of a `cd:03:ff` commit: first `cd:03:ff`, then `cd:04:<selector>`.
pub open spec fn cd03ff_19_spec(seq: u8, ctr: u16, assign: Seq<u8>, param_selector: u8, second: bool) -> Seq<u8> {
    let cd_lane = if second { 0x04u8 } else { assign[3] };
    let tag = if second { param_selector } else { assign[4] };
    let pre_65 = if second { 0x16u8 } else { 0x17u8 };
    seq![
        0x19u8, 0x00, 0x00, 0x18, 0x80, 0x10, 0xed, 0x03, 0x00, seq, 0x00, 0x0c, lo8(ctr), hi8(ctr),
        0x00, 0x00, 0x01, 0x00, 0x06, 0x00, 0x09, 0x00, 0x00, 0x00, 0x83, 0x66, 0xcd, cd_lane, tag,
        0x64, pre_65, 0x65, 0xc0, 0x00, 0x00, 0x00,
    ]
}

/// OUT `19` of a `cd:03:ff` parameter commit; the live write lane moves on by `0x31`.
pub fn build_standalone_legacy_cd03ff_param_19(
    state: &mut HelixState,
    assign_block: [u8; 16],
    param_selector: u8,
    second: bool,
) -> (r: Vec<u8>)
    ensures
        r@ == cd03ff_19_spec(old(state).counters.x80_cnt, old(state).counters.live_write_ctr, assign_block@, param_selector, second),
        *final(state) == (HelixState {
            counters: Counters {
                x80_cnt: wadd8(old(state).counters.x80_cnt, 1),
                live_write_ctr: wadd16(old(state).counters.live_write_ctr, 0x31),
                ..old(state).counters
            },
            ..*old(state)
        }),
{
    let seq = state.next_x80_cnt();
    let ctr = state.counters.live_write_ctr;
    state.counters.live_write_ctr = state.counters.live_write_ctr.wrapping_add(0x0031);
    let cd_lane: u8 = if second { 0x04 } else { assign_block[3] };
    let tag: u8 = if second { param_selector } else { assign_block[4] };
    let pre_65: u8 = if second { 0x16 } else { 0x17 };
    let r = vec![
        0x19, 0x00, 0x00, 0x18, 0x80, 0x10, 0xed, 0x03, 0x00, seq, 0x00, 0x0c, lo_byte(ctr), hi_byte(ctr),
        0x00, 0x00, 0x01, 0x00, 0x06, 0x00, 0x09, 0x00, 0x00, 0x00, 0x83, 0x66, 0xcd, cd_lane, tag,
        0x64, pre_65, 0x65, 0xc0, 0x00, 0x00, 0x00,
    ];
    assert(r@ == cd03ff_19_spec(old(state).counters.x80_cnt, old(state).counters.live_write_ctr, assign_block@, param_selector, second));
    r
}

/// After a cab replace: updates the cab tag of the slot (the amp tag stays the assign's, or
/// the cab tag for a slot seen for the first time).
pub fn record_amp_cab_cab_replace_session(state: &mut HelixState, slot_index: u32, bulk: &[u8])
    ensures
        lane_tag_after_cd03_spec(bulk@) is None ==> *final(state) == *old(state),
        lane_tag_after_cd03_spec(bulk@) matches Some(tag) ==> final(state).cab.amp_cab_focus_lane_tags_by_slot@
            == seq![(slot_index, (match assoc_get(old(state).cab.amp_cab_focus_lane_tags_by_slot@, slot_index) {
                Some(p) => p.0,
                None => tag,
            }, tag))] + old(state).cab.amp_cab_focus_lane_tags_by_slot@,
        *final(state) == (HelixState {
            cab: CabSession {
                amp_cab_focus_lane_tags_by_slot: final(state).cab.amp_cab_focus_lane_tags_by_slot,
                ..old(state).cab
            },
            ..*old(state)
        }),
{
    if let Some(cab_tag) = lane_tag_after_cd03_in_bulk(bulk) {
        let amp_tag = match amp_cab_focus_lane_tags(state, slot_index) {
            Some(p) => p.0,
            None => cab_tag,
        };
        state.cab.amp_cab_focus_lane_tags_by_slot.insert(0, (slot_index, (amp_tag, cab_tag)));
    }
}

/// Replaces the tag after the first `83:66:cd:03` (below `len - 5`) of a tab focus.
pub fn patch_amp_cab_tab_focus_lane_tag(focus: &mut Vec<u8>, tag: u8)
    ensures
        ({
            let k = first_cd03_from(old(focus)@, 0, scan_end5(old(focus)@.len() as int));
            final(focus)@ == if k < 0 { old(focus)@ } else { old(focus)@.update(k + 4, tag) }
        }),
{
    let end: usize = if focus.len() >= 5 { focus.len() - 5 } else { 0 };
    let mut i: usize = 0;
    while i < end
        invariant
            focus@ == old(focus)@,
            end == scan_end5(focus@.len() as int),
            end == 0 || end + 5 == focus.len(),
            0 <= i <= end,
            first_cd03_from(focus@, 0, end as int) == first_cd03_from(focus@, i as int, end as int),
        decreases end - i,
    {
        if focus[i] == 0x83 && focus[i + 1] == 0x66 && focus[i + 2] == 0xcd && focus[i + 3] == 0x03 {
            focus.set(i + 4, tag);
            return;
        }
        i = i + 1;
    }
}

/// Cab tab focus of an Amp+Cab slot (`1d`, `cd:03`, `1a:01`) on the live write lane.
pub fn build_amp_cab_ir_cab_focus_packet(state: &mut HelixState, slot_bus: u8) -> (r: Vec<u8>)
    ensures
        r@ == crate::cab_dual_live_write::cab_dual_focus_spec(
            old(state).counters.x80_cnt,
            crate::cab_dual_live_write::focus_triple_spec(*old(state), crate::cab_dual_live_write::Cab2FocusLane::LiveWrite),
            0x04,
            0x03,
            old(state).counters.live_write_yy,
            slot_bus,
            0x01,
        ),
        *final(state) == crate::cab_dual_live_write::after_x80(*old(state)),
{
    crate::cab_dual_live_write::build_cab_dual_cab2_tab_focus_packet_with_lane(
        state,
        slot_bus,
        crate::cab_dual_live_write::Cab2FocusLane::LiveWrite,
        0x04,
    )
}

/// Amp tab focus of an Amp+Cab slot (`1d`, `cd:03`, `1a:00`) on the live write lane.
pub fn build_amp_cab_amp_focus_packet(state: &mut HelixState, slot_bus: u8) -> (r: Vec<u8>)
    ensures
        r@ == crate::cab_dual_live_write::cab_dual_focus_spec(
            old(state).counters.x80_cnt,
            crate::cab_dual_live_write::focus_triple_spec(*old(state), crate::cab_dual_live_write::Cab2FocusLane::LiveWrite),
            0x04,
            0x03,
            old(state).counters.live_write_yy,
            slot_bus,
            0x00,
        ),
        *final(state) == crate::cab_dual_live_write::after_x80(*old(state)),
{
    crate::cab_dual_live_write::build_cab_dual_focus_packet_with_lane(
        state,
        slot_bus,
        crate::cab_dual_live_write::Cab2FocusLane::LiveWrite,
        0x04,
        0x03,
        0x00,
    )
}

/// Lane tag of an Amp / Cab tab focus: the amp or cab tag recorded for the slot, else the
/// live write tag.
pub open spec fn tab_focus_tag_spec(s: HelixState, slot_index: u32, cab: bool) -> u8 {
    match assoc_get(s.cab.amp_cab_focus_lane_tags_by_slot@, slot_index) {
        Some(p) => if cab { p.1 } else { p.0 },
        None => s.counters.live_write_yy,
    }
}

/// Focus with its tag after the first `83:66:cd:03` replaced.
pub open spec fn focus_tag_patched(f: Seq<u8>, tag: u8) -> Seq<u8> {
    let k = first_cd03_from(f, 0, scan_end5(f.len() as int));
    if k < 0 { f } else { f.update(k + 4, tag) }
}

/// Frame with bytes 12-13 set to `ctr` (LE) and byte 14 cleared, when longer than 14 bytes.
pub open spec fn forced_ctr_spec(f: Seq<u8>, ctr: u16) -> Seq<u8> {
    if f.len() > 14 { f.update(12, lo8(ctr)).update(13, hi8(ctr)).update(14, 0u8) } else { f }
}

/// Amp (`1a:00`) or Cab (`1a:01`) tab focus of an Amp+Cab slot: `cd:03` focus on the live
/// write lane, the slot's recorded tag, counter `L`.
pub open spec fn amp_cab_tab_focus_spec(s: HelixState, slot_index: u32, slot_bus: u8, cab: bool) -> Seq<u8> {
    let f = crate::cab_dual_live_write::cab_dual_focus_spec(
        s.counters.x80_cnt,
        crate::cab_dual_live_write::focus_triple_spec(s, crate::cab_dual_live_write::Cab2FocusLane::LiveWrite),
        0x04,
        0x03,
        s.counters.live_write_yy,
        slot_bus,
        if cab { 0x01u8 } else { 0x00u8 },
    );
    forced_ctr_spec(focus_tag_patched(f, tab_focus_tag_spec(s, slot_index, cab)), s.counters.live_write_ctr)
}

/// Delay between the tab focus and its `ed:08`, in milliseconds.
pub const AMP_CAB_TAB_FOCUS_ED08_DELAY_MS: u64 = 93;

/// Hold of the standard `ed:08` auto ACK after a tab focus, in milliseconds.
pub const AMP_CAB_TAB_FOCUS_SUPPRESS_ED08_MS: u64 = 450;

/// First step of the Amp / Cab tab focus: holds back the standard `ed:08` auto ACK for
/// 450 ms, queues the focus `1d` (recorded tag, counter `L`), moves the live write tag on and
/// records which tab has the focus. Returns `L`, for the `ed:08` that follows after
/// `AMP_CAB_TAB_FOCUS_ED08_DELAY_MS`; nothing happens when the device is not connected or a
/// preset content read is running.
pub fn amp_cab_tab_focus_begin(state: &mut HelixState, slot_index: u32, slot_bus: u8, cab: bool) -> (r: Option<u16>)
    ensures
        (!old(state).session.connected || old(state).preset.preset_content_only) ==> r is None && *final(state) == *old(state),
        (old(state).session.connected && !old(state).preset.preset_content_only) ==> ({
            let s = *old(state);
            let yy = wadd8(s.counters.live_write_yy, 1);
            &&& r == Some(s.counters.live_write_ctr)
            &&& final(state).outbox@.len() == s.outbox@.len() + 1
            &&& final(state).outbox@.drop_last() == s.outbox@
            &&& final(state).outbox@.last().data@ == amp_cab_tab_focus_spec(s, slot_index, slot_bus, cab)
            &&& final(state).outbox@.last().delay_ms == 0
            &&& final(state).outbox@.last().tail_burst@.len() == 0
            &&& final(state).counters == (Counters {
                x80_cnt: wadd8(s.counters.x80_cnt, 1),
                live_write_yy: yy,
                slot_model_lane_seq: Some(yy),
                ..s.counters
            })
            &&& final(state).cab == (CabSession {
                cab_dual_cab2_suppress_standard_ed08_until: Some(crate::state::deadline_after(s.now_ms, 450)),
                cab_dual_live_write_tab_focus: None,
                amp_cab_cab_focus_sent_for_slot: if cab { Some(slot_index) } else { None },
                ..s.cab
            })
            &&& *final(state) == (HelixState {
                counters: final(state).counters,
                cab: final(state).cab,
                outbox: final(state).outbox,
                ..s
            })
        }),
{
    if !state.session.connected || state.preset.preset_content_only {
        return None;
    }
    state.cab.cab_dual_cab2_suppress_standard_ed08_until = Some(crate::state::deadline_from(state.now_ms, AMP_CAB_TAB_FOCUS_SUPPRESS_ED08_MS));
    let lane_tag = match amp_cab_focus_lane_tags(state, slot_index) {
        Some(p) => if cab { p.1 } else { p.0 },
        None => state.counters.live_write_yy,
    };
    let l = state.counters.live_write_ctr;
    let mut focus = if cab {
        build_amp_cab_ir_cab_focus_packet(state, slot_bus)
    } else {
        build_amp_cab_amp_focus_packet(state, slot_bus)
    };
    patch_amp_cab_tab_focus_lane_tag(&mut focus, lane_tag);
    crate::ed03_lane::force_ed03_ctr(&mut focus, l);
    state.counters.live_write_yy = state.counters.live_write_yy.wrapping_add(1);
    state.counters.slot_model_lane_seq = Some(state.counters.live_write_yy);
    state.cab.cab_dual_live_write_tab_focus = None;
    if cab {
        state.cab.amp_cab_cab_focus_sent_for_slot = Some(slot_index);
    } else {
        state.cab.amp_cab_cab_focus_sent_for_slot = None;
    }
    state.send(crate::packet::OutPacket::new(focus));
    Some(l)
}

/// Second step of the Amp / Cab tab focus, after the delay: queues the `ed:08` on `L + 0x11`,
/// moves the live write lane there, then the `f0:03` pokes: sub `08` for the Cab tab; sub
/// `10`, then sub `08` 30 ms later, for the Amp tab.
pub fn amp_cab_tab_focus_after_ed08_delay(state: &mut HelixState, l: u16, cab: bool)
    ensures
        ({
            let s = *old(state);
            let m = wadd16(l, 0x11);
            let n = s.outbox@.len() as int;
            let x2 = s.counters.x2_cnt;
            let lane = s.scroll.firmware_scroll_ack_ctr;
            &&& final(state).outbox@.len() == n + if cab { 2int } else { 3int }
            &&& final(state).outbox@.subrange(0, n) == s.outbox@
            &&& final(state).outbox@[n].data@ == ed08_short_spec(s.counters.x80_cnt, m)
            &&& final(state).outbox@[n].delay_ms == 0
            &&& cab ==> final(state).outbox@[n + 1].data@ == crate::cab_dual_live_write::f0_poke_spec(x2, lane, 0x08)
                && final(state).outbox@[n + 1].delay_ms == 0
            &&& !cab ==> final(state).outbox@[n + 1].data@ == crate::cab_dual_live_write::f0_poke_spec(x2, lane, 0x10)
                && final(state).outbox@[n + 1].delay_ms == 0
                && final(state).outbox@[n + 2].data@ == crate::cab_dual_live_write::f0_poke_spec(wadd8(x2, 1), lane, 0x08)
                && final(state).outbox@[n + 2].delay_ms == 30
            &&& final(state).counters == (Counters {
                x80_cnt: wadd8(s.counters.x80_cnt, 1),
                x2_cnt: wadd8(x2, if cab { 1int } else { 2int }),
                live_write_ctr: m,
                ..s.counters
            })
            &&& *final(state) == (HelixState { counters: final(state).counters, outbox: final(state).outbox, ..s })
        }),
{
    let ghost s0 = *state;
    let ctr_model = l.wrapping_add(0x11);
    let ed08 = crate::ed03_lane::build_ed08_short(state, ctr_model);
    state.send(crate::packet::OutPacket::new(ed08));
    state.counters.live_write_ctr = ctr_model;
    let ghost s1 = *state;
    assert(s1.outbox@.subrange(0, s0.outbox@.len() as int) == s0.outbox@);
    if cab {
        crate::cab_dual_live_write::send_cab_dual_f0_poke(state, 0x08);
        assert(state.outbox@.drop_last() == s1.outbox@);
        assert(state.outbox@[s0.outbox@.len() as int] == s1.outbox@[s0.outbox@.len() as int]);
        assert(state.outbox@.subrange(0, s0.outbox@.len() as int) == s0.outbox@);
    } else {
        crate::cab_dual_live_write::send_cab_dual_f0_poke(state, 0x10);
        let ghost s2 = *state;
        let poke = crate::cab_dual_live_write::build_cab_dual_f0_poke(state, 0x08);
        state.send(crate::packet::OutPacket::with_delay(poke, 30));
        proof { crate::bytes::lemma_wadd8_twice(s0.counters.x2_cnt, 1, 1); }
        assert(s2.outbox@.drop_last() == s1.outbox@);
        assert(state.outbox@.drop_last() == s2.outbox@);
        assert(state.outbox@[s0.outbox@.len() as int] == s1.outbox@[s0.outbox@.len() as int]);
        assert(state.outbox@[s0.outbox@.len() + 1int] == s2.outbox@[s0.outbox@.len() + 1int]);
        assert(state.outbox@.subrange(0, s0.outbox@.len() as int) == s0.outbox@);
    }
}

/// Model block of a single legacy assign bulk: 16 bytes from the first `83 66 cd`, when the
/// bulk holds them.
pub open spec fn assign_block_from_bulk_spec(s: Seq<u8>) -> Option<Seq<u8>> {
    let p = first_cd_from(s, 0, s.len() as int);
    if p < 0 || p + 16 > s.len() { None } else { Some(s.subrange(p, p + 16)) }
}

/// Model block of a single legacy assign bulk.
pub fn legacy_assign_model_block_from_bulk(bulk: &[u8]) -> (r: Option<[u8; 16]>)
    ensures
        match assign_block_from_bulk_spec(bulk@) {
            None => r is None,
            Some(b) => r matches Some(a) && a@ == b,
        },
{
    let n = bulk.len();
    let mut i: usize = 0;
    while i < n
        invariant
            n == bulk@.len(),
            0 <= i <= n,
            first_cd_from(bulk@, 0, n as int) == first_cd_from(bulk@, i as int, n as int),
        decreases n - i,
    {
        if n - i >= 3 && bulk[i] == 0x83 && bulk[i + 1] == 0x66 && bulk[i + 2] == 0xcd {
            if n - i < 16 {
                return None;
            }
            let mut block = [0u8; 16];
            let mut k: usize = 0;
            while k < 16
                invariant
                    n == bulk@.len(),
                    i + 16 <= n,
                    0 <= k <= 16,
                    forall|j: int| 0 <= j < k ==> block@[j] == bulk@[i + j],
                decreases 16 - k,
            {
                block.set(k, bulk[i + k]);
                k = k + 1;
            }
            assert(block@ == bulk@.subrange(i as int, i + 16));
            return Some(block);
        }
        i = i + 1;
    }
    None
}

/// Records, from a single legacy probe bulk, the cab hint after `c2:19` and the assign model
/// block of the slot.
pub fn record_standalone_legacy_cab_module_field(state: &mut HelixState, slot_index: u32, bulk: &[u8])
    ensures
        ({
            let s = *old(state);
            let f = crate::edit_slot_model::module_field_after_c219_spec(bulk@);
            let b = assign_block_from_bulk_spec(bulk@);
            &&& f is None ==> final(state).cab.standalone_legacy_cab_module_field_by_slot == s.cab.standalone_legacy_cab_module_field_by_slot
            &&& f matches Some(field) ==> (final(state).cab.standalone_legacy_cab_module_field_by_slot@.len()
                == s.cab.standalone_legacy_cab_module_field_by_slot@.len() + 1
                && final(state).cab.standalone_legacy_cab_module_field_by_slot@[0].0 == slot_index
                && final(state).cab.standalone_legacy_cab_module_field_by_slot@[0].1@ == field
                && final(state).cab.standalone_legacy_cab_module_field_by_slot@.drop_first()
                == s.cab.standalone_legacy_cab_module_field_by_slot@)
            &&& b is None ==> final(state).cab.standalone_legacy_assign_model_block_by_slot == s.cab.standalone_legacy_assign_model_block_by_slot
            &&& b matches Some(block) ==> (final(state).cab.standalone_legacy_assign_model_block_by_slot@.len()
                == s.cab.standalone_legacy_assign_model_block_by_slot@.len() + 1
                && final(state).cab.standalone_legacy_assign_model_block_by_slot@[0].0 == slot_index
                && final(state).cab.standalone_legacy_assign_model_block_by_slot@[0].1@ == block
                && final(state).cab.standalone_legacy_assign_model_block_by_slot@.drop_first()
                == s.cab.standalone_legacy_assign_model_block_by_slot@)
            &&& *final(state) == (HelixState {
                cab: CabSession {
                    standalone_legacy_cab_module_field_by_slot: final(state).cab.standalone_legacy_cab_module_field_by_slot,
                    standalone_legacy_assign_model_block_by_slot: final(state).cab.standalone_legacy_assign_model_block_by_slot,
                    ..s.cab
                },
                ..s
            })
        }),
{
    if let Some(field) = crate::edit_slot_model::module_field_bytes_after_c219(bulk) {
        state.cab.standalone_legacy_cab_module_field_by_slot.insert(0, (slot_index, field));
    }
    if let Some(block) = legacy_assign_model_block_from_bulk(bulk) {
        state.cab.standalone_legacy_assign_model_block_by_slot.insert(0, (slot_index, block));
    }
}

/// A single legacy assign whose cab field is a one-byte hint (`c2 19 33 1a`), as opposed to
/// the three bytes of a modern mic IR; without a `c2:19` marker, `data` is the field itself.
pub fn standalone_legacy_assign_is_one_byte_hint(data: &[u8]) -> (r: bool)
    ensures
        r == match crate::edit_slot_model::module_field_after_c219_spec(data@) {
            Some(f) => f.len() == 1,
            None => data@.len() == 1,
        },
{
    match crate::edit_slot_model::module_field_bytes_after_c219(data) {
        Some(f) => f.len() == 1,
        None => data.len() == 1,
    }
}

/// Model block of a single legacy `23` write: the assign block on the slot bus, with the
/// selector in byte 4 for a `cd:04` assign.
pub fn standalone_legacy_23_model_block(assign: [u8; 16], param_selector: u8, slot_bus: u8) -> (r: [u8; 16])
    ensures
        r@ == (if assign@[3] == 0x04 {
            assign@.update(10, slot_bus).update(4, param_selector)
        } else {
            assign@.update(10, slot_bus)
        }),
{
    let mut block = assign;
    block.set(10, slot_bus);
    if block[3] == 0x04 {
        block.set(4, param_selector);
    }
    block
}

/// Model prefix (22 bytes) of a single legacy `57` float write.
pub open spec fn legacy_57_prefix_spec(assign: Seq<u8>, param_selector: u8, slot_bus: u8) -> Seq<u8> {
    let tag = if assign[3] == 0x04 { param_selector } else { assign[4] };
    seq![
        0x83u8, 0x66, 0xcd, assign[3], tag, 0x67, 0x00, 0x68, 0x82, 0x0d, slot_bus, 0x18, 0x82,
        0x13, 0x06, 0x14, 0x85, 0x18, 0x83, 0x17, 0xc2, 0x19,
    ]
}

/// Model prefix (22 bytes) of a single legacy `57` float write.
pub fn standalone_legacy_57_model_prefix(assign: [u8; 16], param_selector: u8, slot_bus: u8) -> (r: [u8; 22])
    ensures
        r@ == legacy_57_prefix_spec(assign@, param_selector, slot_bus),
{
    let tag = if assign[3] == 0x04 { param_selector } else { assign[4] };
    let r = [
        0x83, 0x66, 0xcd, assign[3], tag, 0x67, 0x00, 0x68, 0x82, 0x0d, slot_bus, 0x18, 0x82,
        0x13, 0x06, 0x14, 0x85, 0x18, 0x83, 0x17, 0xc2, 0x19,
    ];
    assert(r@ == legacy_57_prefix_spec(assign@, param_selector, slot_bus));
    r
}

/// `bulk` holds the two-byte marker.
pub fn bulk_has_wire_marker(bulk: &[u8], marker: [u8; 2]) -> (r: bool)
    ensures
        r == (crate::edit_slot_model::first_pair_from(bulk@, marker@[0], marker@[1], 0) >= 0),
{
    crate::edit_slot_model::find_pair_from(bulk, marker[0], marker[1], 0).is_some()
}

/// Dual legacy hybrid assign bulk: a `c3:19` not followed by `cd` (the IR form).
pub open spec fn dual_legacy_wire_spec(s: Seq<u8>) -> bool {
    let p = crate::edit_slot_model::first_pair_from(s, 0xc3, 0x19, 0);
    p >= 0 && !(p + 2 < s.len() && s[p + 2] == 0xcd)
}

/// Dual legacy hybrid assign bulk (`c3:19` + short hint, not `cd:03…` IR).
pub fn bulk_is_dual_legacy_wire(bulk: &[u8]) -> (r: bool)
    ensures
        r == dual_legacy_wire_spec(bulk@),
{
    match crate::edit_slot_model::find_pair_from(bulk, 0xc3, 0x19, 0) {
        None => false,
        Some(p) => !(bulk.len() - p > 2 && bulk[p + 2] == 0xcd),
    }
}

/// A `23` (44 bytes) or `25` (48 bytes) legacy write: header, model block, cab field, `1a`,
/// the mark byte and the padding.
pub open spec fn legacy_discrete_spec(head: u8, len_field: u8, seq: u8, ctr: u16, model: Seq<u8>, cab: Seq<u8>, value: u8, pad: Seq<u8>) -> Seq<u8> {
    seq![
        head, 0x00, 0x00, 0x18, 0x80, 0x10, 0xed, 0x03, 0x00, seq, 0x00, 0x04, lo8(ctr), hi8(ctr),
        0x00, 0x00, 0x01, 0x00, 0x06, 0x00, len_field, 0x00, 0x00, 0x00,
    ] + model + cab + seq![0x1au8, value] + pad
}

fn legacy_discrete_packet(head: u8, len_field: u8, seq: u8, ctr: u16, model_block: [u8; 16], cab_module: &[u8], value_byte: u8, pad: &[u8]) -> (r: Vec<u8>)
    ensures
        r@ == legacy_discrete_spec(head, len_field, seq, ctr, model_block@, cab_module@, value_byte, pad@),
{
    let mut p = vec![
        head, 0x00, 0x00, 0x18, 0x80, 0x10, 0xed, 0x03, 0x00, seq, 0x00, 0x04, lo_byte(ctr), hi_byte(ctr),
        0x00, 0x00, 0x01, 0x00, 0x06, 0x00, len_field, 0x00, 0x00, 0x00,
    ];
    append_bytes(&mut p, &model_block);
    append_bytes(&mut p, cab_module);
    p.push(0x1a);
    p.push(value_byte);
    append_bytes(&mut p, pad);
    assert(p@ == legacy_discrete_spec(head, len_field, seq, ctr, model_block@, cab_module@, value_byte, pad@));
    p
}

/// `23` frame of a legacy hybrid cab (`c2:19` or `c3:19`).
pub fn build_legacy_hybrid_23_packet(seq: u8, ctr: u16, model_block: [u8; 16], cab_module: &[u8], value_byte: u8) -> (r: Vec<u8>)
    ensures
        r@ == legacy_discrete_spec(0x23, 0x13, seq, ctr, model_block@, cab_module@, value_byte, seq![0x00u8]),
{
    let pad: [u8; 1] = [0x00];
    assert(pad@ == seq![0x00u8]);
    legacy_discrete_packet(0x23, 0x13, seq, ctr, model_block, cab_module, value_byte, &pad)
}

/// `25` frame (48 bytes) of a legacy hybrid cab with a `cd02xx` hint.
pub fn build_legacy_hybrid_25_packet(seq: u8, ctr: u16, model_block: [u8; 16], cab_module: &[u8], value_byte: u8) -> (r: Vec<u8>)
    ensures
        r@ == legacy_discrete_spec(0x25, 0x15, seq, ctr, model_block@, cab_module@, value_byte, seq![0x00u8, 0x00, 0x00]),
{
    let pad: [u8; 3] = [0x00, 0x00, 0x00];
    assert(pad@ == seq![0x00u8, 0x00, 0x00]);
    legacy_discrete_packet(0x25, 0x15, seq, ctr, model_block, cab_module, value_byte, &pad)
}

/// `23` frame (44 bytes) of a single legacy cab, model block from the assign bulk.
pub fn build_standalone_legacy_23_packet(seq: u8, ctr: u16, model_block: [u8; 16], cab_module: &[u8], value_byte: u8) -> (r: Vec<u8>)
    ensures
        r@ == legacy_discrete_spec(0x23, 0x13, seq, ctr, model_block@, cab_module@, value_byte, seq![0x00u8]),
{
    build_legacy_hybrid_23_packet(seq, ctr, model_block, cab_module, value_byte)
}

/// `25` frame (48 bytes) of a single legacy cab with a `cd02xx` hint.
pub fn build_standalone_legacy_25_packet(seq: u8, ctr: u16, model_block: [u8; 16], cab_module: &[u8], value_byte: u8) -> (r: Vec<u8>)
    ensures
        r@ == legacy_discrete_spec(0x25, 0x15, seq, ctr, model_block@, cab_module@, value_byte, seq![0x00u8, 0x00, 0x00]),
{
    build_legacy_hybrid_25_packet(seq, ctr, model_block, cab_module, value_byte)
}

/// Byte before `0x0c` at the end of a single legacy `57` frame, per cab hint.
pub open spec fn tail_prefix_spec(h: u8) -> u8 {
    if h == 0x2d || h == 0x3f || h == 0x42 || h == 0x44 || h == 0x47 {
        0x00
    } else if h == 0x2e || h == 0x43 {
        0x0b
    } else if h == 0x2f || h == 0x30 || h == 0x3e || h == 0x45 || h == 0x46 || h == 0x48 {
        0x01
    } else if h == 0x32 {
        0x0a
    } else if h == 0x33 || h == 0x31 || h == 0x38 || h == 0x3d || h == 0x40 {
        0x06
    } else if h == 0x34 {
        0x08
    } else if h == 0x35 {
        0x03
    } else if h == 0x36 || h == 0x39 || h == 0x3a || h == 0x41 {
        0x05
    } else if h == 0x37 || h == 0x3c {
        0x02
    } else if h == 0x3b {
        0x04
    } else if h == 0x49 || h == 0x4a {
        0x0c
    } else {
        0x06
    }
}

/// Byte before `0x0c` at the end of a single legacy `57` frame, per cab hint.
pub fn legacy_single_57_tail_prefix_byte(cab_hint: u8) -> (r: u8)
    ensures
        r == tail_prefix_spec(cab_hint),
{
    let h = cab_hint;
    if h == 0x2d || h == 0x3f || h == 0x42 || h == 0x44 || h == 0x47 {
        0x00
    } else if h == 0x2e || h == 0x43 {
        0x0b
    } else if h == 0x2f || h == 0x30 || h == 0x3e || h == 0x45 || h == 0x46 || h == 0x48 {
        0x01
    } else if h == 0x32 {
        0x0a
    } else if h == 0x33 || h == 0x31 || h == 0x38 || h == 0x3d || h == 0x40 {
        0x06
    } else if h == 0x34 {
        0x08
    } else if h == 0x35 {
        0x03
    } else if h == 0x36 || h == 0x39 || h == 0x3a || h == 0x41 {
        0x05
    } else if h == 0x37 || h == 0x3c {
        0x02
    } else if h == 0x3b {
        0x04
    } else if h == 0x49 || h == 0x4a {
        0x0c
    } else {
        0x06
    }
}

/// Middle of a legacy float frame after the cab field: `1a`, the mark byte and the fixed
/// bytes up to `ca`.
pub open spec fn float_mid_spec(mark: u8, b3: u8) -> Seq<u8> {
    seq![0x1au8, mark, 0x09, b3, 0x0a, 0xc3, 0x0b, 0x83, 0x02, 0x06, 0x03, 0x05, 0x04, 0x96, 0xca]
}

/// Single legacy `57` float frame (98 bytes with a one-byte hint).
pub open spec fn legacy_57_spec(seq: u8, ctr: u16, prefix: Seq<u8>, cab: Seq<u8>, mark: u8, float_be: Seq<u8>, cab_hint: u8) -> Seq<u8> {
    seq![
        0x57u8, 0x00, 0x00, 0x18, 0xed, 0x03, 0x80, 0x10, 0x00, seq, 0x00, 0x04, lo8(ctr), hi8(ctr),
        0x00, 0x00, 0x00, 0x00, 0x06, 0x00, 0x47, 0x00, 0x00, 0x00,
    ] + prefix + cab + float_mid_spec(mark, 0x0f) + float_be + seq![
        0x00u8, 0x00, 0xca, 0x42, 0xa0, 0x00, 0x00, 0xca, 0x45, 0xfa, 0x00, 0x00, 0xca, 0x00, 0x00,
        0x00, 0x00, 0xca, 0x00, 0x00, 0x00, 0x00, tail_prefix_spec(cab_hint), 0x0c, 0x83, 0x02, 0x00, 0x03, 0x00, 0x04,
        0x90, 0x00,
    ]
}

/// Single legacy `57` float frame.
pub fn build_standalone_legacy_57_packet(
    seq: u8,
    ctr: u16,
    model_prefix: &[u8],
    cab_module: &[u8],
    mark_after_1a: u8,
    float_be: [u8; 4],
    cab_hint: u8,
) -> (r: Vec<u8>)
    ensures
        r@ == legacy_57_spec(seq, ctr, model_prefix@, cab_module@, mark_after_1a, float_be@, cab_hint),
{
    let tail_pre = legacy_single_57_tail_prefix_byte(cab_hint);
    let mut p = vec![
        0x57, 0x00, 0x00, 0x18, 0xed, 0x03, 0x80, 0x10, 0x00, seq, 0x00, 0x04, lo_byte(ctr), hi_byte(ctr),
        0x00, 0x00, 0x00, 0x00, 0x06, 0x00, 0x47, 0x00, 0x00, 0x00,
    ];
    append_bytes(&mut p, model_prefix);
    append_bytes(&mut p, cab_module);
    let mid: [u8; 15] = [0x1a, mark_after_1a, 0x09, 0x0f, 0x0a, 0xc3, 0x0b, 0x83, 0x02, 0x06, 0x03, 0x05, 0x04, 0x96, 0xca];
    assert(mid@ == float_mid_spec(mark_after_1a, 0x0f));
    append_bytes(&mut p, &mid);
    append_bytes(&mut p, &float_be);
    let tail: [u8; 32] = [
        0x00, 0x00, 0xca, 0x42, 0xa0, 0x00, 0x00, 0xca, 0x45, 0xfa, 0x00, 0x00, 0xca, 0x00, 0x00,
        0x00, 0x00, 0xca, 0x00, 0x00, 0x00, 0x00, tail_pre, 0x0c, 0x83, 0x02, 0x00, 0x03, 0x00, 0x04,
        0x90, 0x00,
    ];
    append_bytes(&mut p, &tail);
    assert(p@ == legacy_57_spec(seq, ctr, model_prefix@, cab_module@, mark_after_1a, float_be@, cab_hint));
    p
}

/// Dual legacy `71` float frame (124 bytes with a one-byte hint).
pub open spec fn dual_71_spec(seq: u8, ctr: u16, pp: u8, param_selector: u8, slot_bus: u8, cab: Seq<u8>, mark: u8, float_be: Seq<u8>) -> Seq<u8> {
    seq![
        0x71u8, 0x00, 0x00, 0x18, 0xed, 0x03, 0x80, 0x10, 0x00, seq, 0x00, 0x04, lo8(ctr), hi8(ctr),
        0x00, 0x00, 0x00, 0x00, 0x06, 0x00, 0x61, 0x00, 0x00, 0x00, 0x83, 0x66, 0xcd, pp,
        param_selector, 0x67, 0x00, 0x68, 0x82, 0x0d, slot_bus, 0x18, 0x82, 0x13, 0x06, 0x14,
        0x85, 0x18, 0x83, 0x17, 0xc3, 0x19,
    ] + cab + float_mid_spec(mark, 0x10) + float_be + dual_71_tail()
}

pub open spec fn dual_71_tail() -> Seq<u8> {
    seq![
        0x00u8, 0x00, 0xca, 0x42, 0xa0, 0x00, 0x00, 0xca, 0x45, 0xfa, 0x00, 0x00, 0xca, 0x00, 0x00,
        0x00, 0x00, 0xca, 0x00, 0x00, 0x00, 0x00, 0x06, 0x0c, 0x83, 0x02, 0x06, 0x03, 0x05, 0x04, 0x96, 0xca,
        0x40, 0x80, 0x00, 0x00, 0xca, 0x42, 0xa0, 0x00, 0x00, 0xca, 0x45, 0xfa, 0x00, 0x00, 0xca, 0x00, 0x00,
        0x00, 0x00, 0xca, 0x00, 0x00, 0x00, 0x00, 0x01, 0x00, 0x01, 0x00,
    ]
}

/// Dual legacy `71` float frame (pair after a `23`).
pub fn build_dual_legacy_71_packet(
    seq: u8,
    ctr: u16,
    pp: u8,
    param_selector: u8,
    slot_bus: u8,
    cab_module: &[u8],
    mark_after_1a: u8,
    float_be: [u8; 4],
) -> (r: Vec<u8>)
    ensures
        r@ == dual_71_spec(seq, ctr, pp, param_selector, slot_bus, cab_module@, mark_after_1a, float_be@),
{
    let mut p = vec![
        0x71, 0x00, 0x00, 0x18, 0xed, 0x03, 0x80, 0x10, 0x00, seq, 0x00, 0x04, lo_byte(ctr), hi_byte(ctr),
        0x00, 0x00, 0x00, 0x00, 0x06, 0x00, 0x61, 0x00, 0x00, 0x00, 0x83, 0x66, 0xcd, pp,
        param_selector, 0x67, 0x00, 0x68, 0x82, 0x0d, slot_bus, 0x18, 0x82, 0x13, 0x06, 0x14,
        0x85, 0x18, 0x83, 0x17, 0xc3, 0x19,
    ];
    append_bytes(&mut p, cab_module);
    let mid: [u8; 15] = [0x1a, mark_after_1a, 0x09, 0x10, 0x0a, 0xc3, 0x0b, 0x83, 0x02, 0x06, 0x03, 0x05, 0x04, 0x96, 0xca];
    assert(mid@ == float_mid_spec(mark_after_1a, 0x10));
    append_bytes(&mut p, &mid);
    append_bytes(&mut p, &float_be);
    let tail: [u8; 60] = [
        0x00, 0x00, 0xca, 0x42, 0xa0, 0x00, 0x00, 0xca, 0x45, 0xfa, 0x00, 0x00, 0xca, 0x00, 0x00,
        0x00, 0x00, 0xca, 0x00, 0x00, 0x00, 0x00, 0x06, 0x0c, 0x83, 0x02, 0x06, 0x03, 0x05, 0x04, 0x96, 0xca,
        0x40, 0x80, 0x00, 0x00, 0xca, 0x42, 0xa0, 0x00, 0x00, 0xca, 0x45, 0xfa, 0x00, 0x00, 0xca, 0x00, 0x00,
        0x00, 0x00, 0xca, 0x00, 0x00, 0x00, 0x00, 0x01, 0x00, 0x01, 0x00,
    ];
    assert(tail@ == dual_71_tail());
    append_bytes(&mut p, &tail);
    p
}

/// A float follow-up is sent, except after a bool `23` that is neither discrete nor of value
/// type 0 or 1.
pub fn legacy_send_float_followup(bool_23: bool, disc_steps: Option<u8>, value_type: Option<i32>) -> (r: bool)
    ensures
        r == (!bool_23 || disc_steps is Some || value_type == Some(0i32) || value_type == Some(1i32)),
{
    if !bool_23 {
        return true;
    }
    match value_type {
        Some(v) => disc_steps.is_some() || v == 0 || v == 1,
        None => disc_steps.is_some(),
    }
}

/// Single legacy cab hint of a slot, as recorded from the assign bulk.
pub fn standalone_legacy_cab_module_field(state: &HelixState, slot_index: u32) -> (r: Option<Vec<u8>>)
    ensures
        match assoc_get(state.cab.standalone_legacy_cab_module_field_by_slot@, slot_index) {
            None => r is None,
            Some(f) => r matches Some(v) && v@ == f@,
        },
{
    let list = &state.cab.standalone_legacy_cab_module_field_by_slot;
    let mut i: usize = 0;
    assert(list@.subrange(0, list@.len() as int) == list@);
    while i < list.len()
        invariant
            list@ == state.cab.standalone_legacy_cab_module_field_by_slot@,
            0 <= i <= list@.len(),
            assoc_get(list@, slot_index) == assoc_get(list@.subrange(i as int, list@.len() as int), slot_index),
        decreases list.len() - i,
    {
        assert(list@.subrange(i as int, list@.len() as int).drop_first() == list@.subrange(i + 1, list@.len() as int));
        assert(list@.subrange(i as int, list@.len() as int)[0] == list@[i as int]);
        let entry = &list[i];
        if entry.0 == slot_index {
            return Some(crate::bytes::copy_bytes(&entry.1));
        }
        i = i + 1;
    }
    assert(list@.subrange(i as int, list@.len() as int).len() == 0);
    None
}

/// Dual legacy cab hint of `(slot, cab_index)`, as recorded from the assign bulk.
pub fn dual_legacy_cab_module_field(state: &HelixState, slot_index: u32, cab_index: u8) -> (r: Option<Vec<u8>>)
    ensures
        match assoc_get(state.cab.dual_legacy_cab_module_field_by_slot@, (slot_index, cab_index)) {
            None => r is None,
            Some(f) => r matches Some(v) && v@ == f@,
        },
{
    let list = &state.cab.dual_legacy_cab_module_field_by_slot;
    let key = (slot_index, cab_index);
    let mut i: usize = 0;
    assert(list@.subrange(0, list@.len() as int) == list@);
    while i < list.len()
        invariant
            list@ == state.cab.dual_legacy_cab_module_field_by_slot@,
            key == (slot_index, cab_index),
            0 <= i <= list@.len(),
            assoc_get(list@, key) == assoc_get(list@.subrange(i as int, list@.len() as int), key),
        decreases list.len() - i,
    {
        assert(list@.subrange(i as int, list@.len() as int).drop_first() == list@.subrange(i + 1, list@.len() as int));
        assert(list@.subrange(i as int, list@.len() as int)[0] == list@[i as int]);
        let entry = &list[i];
        assert(*entry == list@[i as int]);
        if (entry.0).0 == slot_index && (entry.0).1 == cab_index {
            assert(entry.0 == key);
            return Some(crate::bytes::copy_bytes(&entry.1));
        }
        assert(entry.0 != key);
        i = i + 1;
    }
    assert(list@.subrange(i as int, list@.len() as int).len() == 0);
    None
}

/// The other cab's one-byte hint follows `1a` in a dual legacy write; a single legacy write
/// carries `ff`.
pub open spec fn mark_after_1a_spec(s: HelixState, slot_index: u32, dual_cab_index: Option<u8>) -> Result<u8, Seq<char>> {
    match dual_cab_index {
        None => Ok(0xffu8),
        Some(cab_index) => {
            let other: u8 = if cab_index == 0 { 1 } else { 0 };
            match assoc_get(s.cab.dual_legacy_cab_module_field_by_slot@, (slot_index, other)) {
                None => Err(if other == 1 {
                    "Cab dual legacy cab2 : hint cab pair introuvable"@
                } else {
                    "Cab dual legacy cab1 : hint cab pair introuvable"@
                }),
                Some(f) => if f@.len() == 0 {
                    Err(if other == 1 {
                        "Cab dual legacy cab2 : hint cab pair vide"@
                    } else {
                        "Cab dual legacy cab1 : hint cab pair vide"@
                    })
                } else {
                    Ok(f@[0])
                },
            }
        },
    }
}

/// Byte after `1a` in legacy `23`/`57` frames (not the discrete UI index).
pub fn legacy_mark_byte_after_1a(state: &HelixState, slot_index: u32, dual_cab_index: Option<u8>) -> (r: Result<u8, String>)
    ensures
        match mark_after_1a_spec(*state, slot_index, dual_cab_index) {
            Ok(b) => r == Ok::<u8, String>(b),
            Err(m) => r matches Err(e) && e@ == m,
        },
{
    match dual_cab_index {
        None => Ok(0xff),
        Some(cab_index) => {
            let other: u8 = if cab_index == 0 { 1 } else { 0 };
            match dual_legacy_cab_module_field(state, slot_index, other) {
                None => Err(crate::text::text_of(if other == 1 {
                    "Cab dual legacy cab2 : hint cab pair introuvable"
                } else {
                    "Cab dual legacy cab1 : hint cab pair introuvable"
                })),
                Some(f) => if f.len() == 0 {
                    Err(crate::text::text_of(if other == 1 {
                        "Cab dual legacy cab2 : hint cab pair vide"
                    } else {
                        "Cab dual legacy cab1 : hint cab pair vide"
                    }))
                } else {
                    Ok(f[0])
                },
            }
        },
    }
}

/// Records the cab 1 and cab 2 hints (`c3:19 <cab1> 1a <cab2>`) of a dual legacy assign bulk.
pub fn record_dual_legacy_cab_module_fields(state: &mut HelixState, slot_index: u32, bulk: &[u8])
    ensures
        ({
            let s = *old(state);
            let l0 = s.cab.dual_legacy_cab_module_field_by_slot@;
            let l = final(state).cab.dual_legacy_cab_module_field_by_slot@;
            let r1 = crate::edit_slot_model::cab1_range_spec(bulk@);
            let r2 = crate::edit_slot_model::cab2_range_spec(bulk@);
            let n1: int = if r1 is Some { 1 } else { 0 };
            let n2: int = if r2 is Some { 1 } else { 0 };
            &&& l.len() == l0.len() + n1 + n2
            &&& l.subrange(n1 + n2, l.len() as int) == l0
            &&& r2 matches Some(p) ==> l[0].0 == (slot_index, 1u8) && l[0].1@ == bulk@.subrange(p.0, p.1)
            &&& r1 matches Some(p) ==> l[n2].0 == (slot_index, 0u8) && l[n2].1@ == bulk@.subrange(p.0, p.1)
            &&& *final(state) == (HelixState {
                cab: CabSession { dual_legacy_cab_module_field_by_slot: final(state).cab.dual_legacy_cab_module_field_by_slot, ..s.cab },
                ..s
            })
        }),
{
    proof {
        crate::edit_slot_model::lemma_cab1_range_bounds(bulk@);
        crate::edit_slot_model::lemma_cab2_range_bounds(bulk@);
    }
    let ghost l0 = state.cab.dual_legacy_cab_module_field_by_slot@;
    if let Some((start, end)) = crate::edit_slot_model::cab_dual_cab1_field_range_in_bulk(bulk) {
        let f = crate::pull_frames::slice_range(bulk, start, end);
        state.cab.dual_legacy_cab_module_field_by_slot.insert(0, ((slot_index, 0), f));
    }
    let ghost l1 = state.cab.dual_legacy_cab_module_field_by_slot@;
    if let Some((start, end)) = crate::edit_slot_model::cab_dual_cab2_field_range_in_bulk(bulk) {
        let f = crate::pull_frames::slice_range(bulk, start, end);
        state.cab.dual_legacy_cab_module_field_by_slot.insert(0, ((slot_index, 1), f));
        assert(state.cab.dual_legacy_cab_module_field_by_slot@.subrange(1, state.cab.dual_legacy_cab_module_field_by_slot@.len() as int) == l1);
    }
}

/// Updates the cab 2 hint of a dual legacy slot after a cab 2 replace.
pub fn record_dual_legacy_cab2_module_field(state: &mut HelixState, slot_index: u32, bulk: &[u8])
    ensures
        ({
            let s = *old(state);
            let l0 = s.cab.dual_legacy_cab_module_field_by_slot@;
            let l = final(state).cab.dual_legacy_cab_module_field_by_slot@;
            &&& crate::edit_slot_model::cab2_range_spec(bulk@) is None ==> l == l0
            &&& crate::edit_slot_model::cab2_range_spec(bulk@) matches Some(p) ==> (l.len() == l0.len() + 1
                && l.drop_first() == l0 && l[0].0 == (slot_index, 1u8) && l[0].1@ == bulk@.subrange(p.0, p.1))
            &&& *final(state) == (HelixState {
                cab: CabSession { dual_legacy_cab_module_field_by_slot: final(state).cab.dual_legacy_cab_module_field_by_slot, ..s.cab },
                ..s
            })
        }),
{
    proof { crate::edit_slot_model::lemma_cab2_range_bounds(bulk@); }
    if let Some((start, end)) = crate::edit_slot_model::cab_dual_cab2_field_range_in_bulk(bulk) {
        let f = crate::pull_frames::slice_range(bulk, start, end);
        state.cab.dual_legacy_cab_module_field_by_slot.insert(0, ((slot_index, 1), f));
    }
}

/// ASCII bytes of `legacy_cab:`.
pub open spec fn legacy_cab_prefix() -> Seq<u8> {
    seq![0x6c, 0x65, 0x67, 0x61, 0x63, 0x79, 0x5f, 0x63, 0x61, 0x62, 0x3a]
}

/// ASCII bytes of `legacy`.
pub open spec fn legacy_word() -> Seq<u8> {
    seq![0x6c, 0x65, 0x67, 0x61, 0x63, 0x79]
}

/// ASCII bytes of `amp+cab-legacy`.
pub open spec fn amp_cab_legacy_variant() -> Seq<u8> {
    seq![0x61, 0x6d, 0x70, 0x2b, 0x63, 0x61, 0x62, 0x2d, 0x6c, 0x65, 0x67, 0x61, 0x63, 0x79]
}

/// ASCII lower case of a byte.
pub open spec fn ascii_lower(b: u8) -> u8 {
    if 0x41 <= b <= 0x5a { (b + 32) as u8 } else { b }
}

/// `b` equals `pat` (lower case) ignoring ASCII case.
pub open spec fn eq_ignore_case_spec(b: Seq<u8>, pat: Seq<u8>) -> bool {
    b.len() == pat.len() && forall|i: int| 0 <= i < b.len() ==> ascii_lower(#[trigger] b[i]) == pat[i]
}

/// The route was resolved for a single legacy cab (`pp_source` starts with `legacy_cab:`).
pub fn route_is_standalone_legacy_cab(route: &LiveWriteRouteOverride) -> (r: bool)
    ensures
        r == (legacy_cab_prefix().len() <= route.pp_source.spec_bytes().len()
            && route.pp_source.spec_bytes().subrange(0, legacy_cab_prefix().len() as int) == legacy_cab_prefix()),
{
    let b = route.pp_source.as_bytes();
    let pat: [u8; 11] = [0x6c, 0x65, 0x67, 0x61, 0x63, 0x79, 0x5f, 0x63, 0x61, 0x62, 0x3a];
    assert(pat@ == legacy_cab_prefix());
    if b.len() < 11 {
        return false;
    }
    let mut i: usize = 0;
    while i < 11
        invariant
            b@ == route.pp_source.spec_bytes(),
            pat@ == legacy_cab_prefix(),
            11 <= b@.len(),
            0 <= i <= 11,
            forall|j: int| 0 <= j < i ==> b@[j] == pat@[j],
        decreases 11 - i,
    {
        if b[i] != pat[i] {
            assert(b@.subrange(0, 11)[i as int] != pat@[i as int]);
            return false;
        }
        i = i + 1;
    }
    assert(b@.subrange(0, 11) == pat@);
    true
}

/// The route was resolved for a dual legacy cab (`pp_source` holds `legacy`).
pub fn route_is_dual_legacy_cab(route: &LiveWriteRouteOverride) -> (r: bool)
    ensures
        r == crate::packet::has_window(route.pp_source.spec_bytes(), legacy_word()),
{
    let pat: [u8; 6] = [0x6c, 0x65, 0x67, 0x61, 0x63, 0x79];
    assert(pat@ == legacy_word());
    crate::packet::contains_window(route.pp_source.as_bytes(), &pat)
}

/// `amp+cab-legacy`, ignoring ASCII case.
pub fn is_legacy_variant(assign_variant: &str) -> (r: bool)
    ensures
        r == eq_ignore_case_spec(assign_variant.spec_bytes(), amp_cab_legacy_variant()),
{
    let b = assign_variant.as_bytes();
    let pat: [u8; 14] = [0x61, 0x6d, 0x70, 0x2b, 0x63, 0x61, 0x62, 0x2d, 0x6c, 0x65, 0x67, 0x61, 0x63, 0x79];
    assert(pat@ == amp_cab_legacy_variant());
    if b.len() != 14 {
        return false;
    }
    let mut i: usize = 0;
    while i < 14
        invariant
            b@ == assign_variant.spec_bytes(),
            pat@ == amp_cab_legacy_variant(),
            b@.len() == 14,
            0 <= i <= 14,
            forall|j: int| 0 <= j < i ==> ascii_lower(#[trigger] b@[j]) == pat@[j],
        decreases 14 - i,
    {
        let c = b[i];
        let lower: u8 = if 0x41 <= c && c <= 0x5a { c + 32 } else { c };
        if lower != pat[i] {
            return false;
        }
        i = i + 1;
    }
    true
}

/// Assign model block of a single legacy slot, as recorded from the probe bulk.
pub fn standalone_legacy_assign_model_block(state: &HelixState, slot_index: u32) -> (r: Option<[u8; 16]>)
    ensures
        r == assoc_get(state.cab.standalone_legacy_assign_model_block_by_slot@, slot_index),
{
    let list = &state.cab.standalone_legacy_assign_model_block_by_slot;
    let mut i: usize = 0;
    assert(list@.subrange(0, list@.len() as int) == list@);
    while i < list.len()
        invariant
            list@ == state.cab.standalone_legacy_assign_model_block_by_slot@,
            0 <= i <= list@.len(),
            assoc_get(list@, slot_index) == assoc_get(list@.subrange(i as int, list@.len() as int), slot_index),
        decreases list.len() - i,
    {
        assert(list@.subrange(i as int, list@.len() as int).drop_first() == list@.subrange(i + 1, list@.len() as int));
        assert(list@.subrange(i as int, list@.len() as int)[0] == list@[i as int]);
        if list[i].0 == slot_index {
            return Some(list[i].1);
        }
        i = i + 1;
    }
    assert(list@.subrange(i as int, list@.len() as int).len() == 0);
    None
}

/// Route of a single legacy cab parameter when a legacy assign was probed on the slot: the
/// cached echo block, or the assign block (selector from the compact table).
pub fn resolve_standalone_legacy_cab_live_write_route_from_probe(state: &HelixState, local_param_index: u32, slot_index: u32) -> (r: Option<LiveWriteRouteOverride>)
    ensures
        ({
            let bus = kempline_index_to_slot_bus_spec(slot_index as int);
            let assign = assoc_get(state.cab.standalone_legacy_assign_model_block_by_slot@, slot_index);
            if bus is None || assign is None || local_param_index >= 7 {
                r is None
            } else {
                let sel = legacy_compact_cab_routes()[local_param_index as int].0;
                let a = assign->0;
                &&& r matches Some(route)
                &&& route.param_selector == sel
                &&& route.preserve_model_tag
                &&& !route.discrete_wants_c2
                &&& match echo_block_lookup(state.cab.ed03_echo_model_by_slot_param@, (bus->0, a@[3], sel)) {
                    Some(b) => route.pp == b@[3] && route.model_block == b && route.pp_source@ == "legacy_cab:echo_cache"@
                        && route.param_selector_source@ == "legacy_cab:echo_sel"@,
                    None => route.pp == route.model_block@[3] && route.pp_source@ == "legacy_cab:assign_probe"@
                        && route.param_selector_source@ == "legacy_cab:compact_sel"@
                        && route.model_block@ == (if a@[3] == 0x04 {
                            a@.update(10, bus->0).update(4, sel)
                        } else {
                            a@.update(10, bus->0)
                        }),
                }
            }
        }),
{
    let slot_bus = match kempline_index_to_slot_bus(slot_index as usize) {
        Some(b) => b,
        None => return None,
    };
    let assign = match standalone_legacy_assign_model_block(state, slot_index) {
        Some(a) => a,
        None => return None,
    };
    let (param_selector, _tag) = match legacy_cab_wire_pair(local_param_index, 0) {
        Some(p) => p,
        None => return None,
    };
    let key = echo_model_cache_key(slot_bus, assign[3], param_selector);
    if let Some(block) = lookup_echo_model_block(&state.cab.ed03_echo_model_by_slot_param, key) {
        return Some(LiveWriteRouteOverride {
            pp: block[3],
            pp_source: "legacy_cab:echo_cache",
            param_selector,
            param_selector_source: "legacy_cab:echo_sel",
            model_block: block,
            preserve_model_tag: true,
            discrete_wants_c2: false,
        });
    }
    let model_block = standalone_legacy_23_model_block(assign, param_selector, slot_bus);
    Some(LiveWriteRouteOverride {
        pp: model_block[3],
        pp_source: "legacy_cab:assign_probe",
        param_selector,
        param_selector_source: "legacy_cab:compact_sel",
        model_block,
        preserve_model_tag: true,
        discrete_wants_c2: false,
    })
}

/// Route of a single legacy cab parameter: the cached echo block on lane `04`, or the single
/// legacy model block with the compact selector.
pub fn resolve_standalone_legacy_cab_live_write_route(state: &HelixState, local_param_index: u32, slot_index: u32) -> (r: Option<LiveWriteRouteOverride>)
    ensures
        ({
            let bus = kempline_index_to_slot_bus_spec(slot_index as int);
            if bus is None || local_param_index >= 7 {
                r is None
            } else {
                let sel = legacy_compact_cab_routes()[local_param_index as int].0;
                &&& r matches Some(route)
                &&& route.param_selector == sel
                &&& route.preserve_model_tag
                &&& !route.discrete_wants_c2
                &&& match echo_block_lookup(state.cab.ed03_echo_model_by_slot_param@, (bus->0, 0x04u8, sel)) {
                    Some(b) => route.pp == b@[3] && route.model_block == b && route.pp_source@ == "legacy_cab:echo_cache"@
                        && route.param_selector_source@ == "legacy_cab:echo_sel"@,
                    None => route.pp == 0x04 && route.pp_source@ == "legacy_cab:standalone_compact"@
                        && route.param_selector_source@ == "legacy_cab:compact_sel"@
                        && route.model_block@ == seq![0x83u8, 0x66, 0xcd, 0x04, sel, 0x64, 0x28, 0x65, 0x82, 0x62, bus->0, 0x64, 0x83, 0x17, 0xc2, 0x19],
                }
            }
        }),
{
    let slot_bus = match kempline_index_to_slot_bus(slot_index as usize) {
        Some(b) => b,
        None => return None,
    };
    let (param_selector, _tag) = match legacy_cab_wire_pair(local_param_index, 0) {
        Some(p) => p,
        None => return None,
    };
    let key = echo_model_cache_key(slot_bus, 0x04, param_selector);
    if let Some(block) = lookup_echo_model_block(&state.cab.ed03_echo_model_by_slot_param, key) {
        return Some(LiveWriteRouteOverride {
            pp: block[3],
            pp_source: "legacy_cab:echo_cache",
            param_selector,
            param_selector_source: "legacy_cab:echo_sel",
            model_block: block,
            preserve_model_tag: true,
            discrete_wants_c2: false,
        });
    }
    let model_block = build_standalone_legacy_cab_param_model_block(param_selector, slot_bus);
    Some(LiveWriteRouteOverride {
        pp: 0x04,
        pp_source: "legacy_cab:standalone_compact",
        param_selector,
        param_selector_source: "legacy_cab:compact_sel",
        model_block,
        preserve_model_tag: true,
        discrete_wants_c2: false,
    })
}

/// Route of the cab part of an Amp+Cab slot: for the legacy variant the guitar or compact
/// table on lane `08`, else the IR block on lane `03` with the local index as selector; a
/// cached echo block wins in both cases.
pub fn resolve_cab_live_write_route(
    state: &HelixState,
    local_param_index: u32,
    assign_variant: &str,
    slot_index: u32,
    amp_param_count: Option<u32>,
) -> (r: Option<LiveWriteRouteOverride>)
    ensures
        ({
            let bus = kempline_index_to_slot_bus_spec(slot_index as int);
            let legacy = eq_ignore_case_spec(assign_variant.spec_bytes(), amp_cab_legacy_variant());
            let amp_len: int = match amp_param_count { Some(n) => n as int, None => 0 };
            let cache = state.cab.ed03_echo_model_by_slot_param@;
            if bus is None || (legacy && local_param_index >= 7) {
                r is None
            } else if legacy {
                let t = if amp_len >= 10 { legacy_guitar_cab_routes() } else { legacy_compact_cab_routes() };
                let pair = t[local_param_index as int];
                &&& r matches Some(route)
                &&& route.param_selector == pair.0
                &&& route.preserve_model_tag
                &&& !route.discrete_wants_c2
                &&& match echo_block_lookup(cache, (bus->0, 0x08u8, pair.0)) {
                    Some(b) => route.pp == b@[3] && route.model_block == b
                        && route.pp_source@ == "amp_cab:legacy_echo_cache"@
                        && route.param_selector_source@ == "amp_cab:legacy_echo_sel"@,
                    None => route.pp == 0x08 && route.model_block@ == seq![0x83u8, 0x66, 0xcd, 0x08, pair.1, 0x64, 0x28, 0x65, 0x82, 0x62, bus->0, 0x64, 0x83, 0x17, 0xc3, 0x19]
                        && route.pp_source@ == "amp_cab:legacy_table"@
                        && route.param_selector_source@ == (if amp_len >= 10 { "amp_cab:legacy_guitar_sel"@ } else { "amp_cab:legacy_compact_sel"@ }),
                }
            } else {
                let sel: u8 = if local_param_index > 255 { 255u8 } else { local_param_index as u8 };
                &&& r matches Some(route)
                &&& route.param_selector == sel
                &&& !route.discrete_wants_c2
                &&& match echo_block_lookup(cache, (bus->0, 0x03u8, sel)) {
                    Some(b) => route.pp == b@[3] && route.model_block == b && route.preserve_model_tag
                        && route.pp_source@ == "amp_cab:ir_echo_cache"@
                        && route.param_selector_source@ == "amp_cab:ir_echo_sel"@,
                    None => route.pp == 0x03 && route.model_block@ == ir_param_model_block(0x03, state.counters.live_write_yy, bus->0)
                        && !route.preserve_model_tag
                        && route.pp_source@ == "amp_cab:ir_capture"@
                        && route.param_selector_source@ == "amp_cab:ir_local_index"@,
                }
            }
        }),
{
    let slot_bus = match kempline_index_to_slot_bus(slot_index as usize) {
        Some(b) => b,
        None => return None,
    };
    let legacy = is_legacy_variant(assign_variant);
    let amp_block_len: usize = match amp_param_count {
        Some(n) => if n as u64 > usize::MAX as u64 { usize::MAX } else { n as usize },
        None => 0,
    };
    if legacy {
        let (param_selector, tag) = match legacy_cab_wire_pair(local_param_index, amp_block_len) {
            Some(p) => p,
            None => return None,
        };
        let key = echo_model_cache_key(slot_bus, 0x08, param_selector);
        if let Some(block) = lookup_echo_model_block(&state.cab.ed03_echo_model_by_slot_param, key) {
            return Some(LiveWriteRouteOverride {
                pp: block[3],
                pp_source: "amp_cab:legacy_echo_cache",
                param_selector,
                param_selector_source: "amp_cab:legacy_echo_sel",
                model_block: block,
                preserve_model_tag: true,
                discrete_wants_c2: false,
            });
        }
        let model_block = build_amp_cab_legacy_param_model_block(0x08, tag, slot_bus);
        return Some(LiveWriteRouteOverride {
            pp: 0x08,
            pp_source: "amp_cab:legacy_table",
            param_selector,
            param_selector_source: if amp_block_len >= 10 { "amp_cab:legacy_guitar_sel" } else { "amp_cab:legacy_compact_sel" },
            model_block,
            preserve_model_tag: true,
            discrete_wants_c2: false,
        });
    }
    let param_selector: u8 = if local_param_index > 255 { 255 } else { local_param_index as u8 };
    let key = echo_model_cache_key(slot_bus, 0x03, param_selector);
    if let Some(block) = lookup_echo_model_block(&state.cab.ed03_echo_model_by_slot_param, key) {
        return Some(LiveWriteRouteOverride {
            pp: block[3],
            pp_source: "amp_cab:ir_echo_cache",
            param_selector,
            param_selector_source: "amp_cab:ir_echo_sel",
            model_block: block,
            preserve_model_tag: true,
            discrete_wants_c2: false,
        });
    }
    let model_block = build_amp_cab_ir_param_model_block(slot_bus, state.counters.live_write_yy);
    Some(LiveWriteRouteOverride {
        pp: 0x03,
        pp_source: "amp_cab:ir_capture",
        param_selector,
        param_selector_source: "amp_cab:ir_local_index",
        model_block,
        preserve_model_tag: false,
        discrete_wants_c2: false,
    })
}

/// Values of a legacy cab live write taken from the float value and the chain range.
pub struct LegacyLiveValue {
    /// IEEE-754 big-endian bytes of the value in chain units (the norm when the range is unknown).
    pub float_be: [u8; 4],
    /// Positions of the chain range, `round(max − min) + 1`, when the range is known.
    pub range_steps: Option<u8>,
}

/// Packets of a minimal legacy cab live write.
pub struct StandaloneLegacyMinimalLiveWrite {
    pub packets: Vec<Vec<u8>>,
    pub primary_opcode: u8,
    pub slot_bus: u8,
    pub param_selector: u8,
}

/// Positions of a legacy segmented write: the configured ones, else for value type 0 those of
/// the chain range.
pub open spec fn legacy_disc_steps(cfg: HelixLiveWriteCfg, dt: Option<&str>, vt: Option<i32>, range_steps: Option<u8>) -> Option<u8> {
    match discrete_steps_spec(cfg, dt) {
        Some(n) => Some(n),
        None => if vt == Some(0i32) { range_steps } else { None },
    }
}

/// Packets and counters of a minimal legacy write from counters `c`: the `ed:08` on the live
/// write lane, then the segmented frame `disc` when `w23`, then the float frame `flt` (built
/// on the sequence and lane it gets) when `sf`.
pub open spec fn minimal_burst(c: Counters, w23: bool, sf: bool, disc: Seq<u8>, flt: spec_fn(u8, u16) -> Seq<u8>, default_op: u8)
    -> (Seq<Seq<u8>>, u8, Counters)
{
    let ctr = c.live_write_ctr;
    let fseq = if w23 { wadd8(c.x80_cnt, 2) } else { wadd8(c.x80_cnt, 1) };
    let fctr = if w23 { wadd16(ctr, 0x1f) } else { ctr };
    let pk = seq![ed08_short_spec(c.x80_cnt, ctr)] + (if w23 { seq![disc] } else { Seq::empty() }) + (if sf {
        seq![flt(fseq, fctr)]
    } else {
        Seq::empty()
    });
    let op = if sf { default_op } else if w23 { disc[0] } else { default_op };
    let n_x80: int = 1 + (if w23 { 1int } else { 0 }) + (if sf { 1int } else { 0 });
    let steps: int = if w23 && sf { 2 } else { 1 };
    (pk, op, Counters {
        x80_cnt: wadd8(c.x80_cnt, n_x80),
        live_write_ctr: wadd16(ctr, 0x1f * steps),
        live_write_yy: wadd8(c.live_write_yy, steps),
        ..c
    })
}

/// A minimal burst opens with `ed:08` on the current lane and `x80` counter, then has the
/// segmented frame exactly when one is written and the float frame exactly when one follows;
/// the `x80` counter moves on by one per frame and the float frame carries the last of them,
/// on the lane moved on by `0x1f` when a segmented frame precedes it. The primary opcode is
/// the head of the segmented frame when no float frame follows it.
pub proof fn law_minimal_burst_frames(
    c: Counters,
    w23: bool,
    sf: bool,
    disc: Seq<u8>,
    flt: spec_fn(u8, u16) -> Seq<u8>,
    default_op: u8,
)
    ensures
        ({
            let b = minimal_burst(c, w23, sf, disc, flt, default_op);
            let n: int = 1 + (if w23 { 1int } else { 0 }) + (if sf { 1int } else { 0 });
            &&& b.0.len() == n
            &&& b.0[0] == ed08_short_spec(c.x80_cnt, c.live_write_ctr)
            &&& w23 ==> b.0[1] == disc
            &&& sf ==> b.0[n - 1] == flt(
                wadd8(c.x80_cnt, n - 1),
                if w23 { wadd16(c.live_write_ctr, 0x1f) } else { c.live_write_ctr },
            )
            &&& b.2.x80_cnt == wadd8(c.x80_cnt, n)
            &&& w23 && !sf ==> b.1 == disc[0]
            &&& sf ==> b.1 == default_op
            &&& b.2.x2_cnt == c.x2_cnt && b.2.x1_cnt == c.x1_cnt
        }),
{
}

/// Minimal live write of a single legacy cab (`ed:08`, segmented `23`/`25`, float `57`), or
/// why it cannot be sent.
pub open spec fn standalone_minimal_spec(
    s: HelixState,
    cfg: HelixLiveWriteCfg,
    v: LegacyLiveValue,
    slot_index: u32,
    dt: Option<&str>,
    vt: Option<i32>,
    sel: u8,
) -> Result<(Seq<Seq<u8>>, u8, u8, Counters), Seq<char>> {
    match kempline_index_to_slot_bus_spec(slot_index as int) {
        None => Err("slotIndex invalide"@),
        Some(bus) => match assoc_get(s.cab.standalone_legacy_cab_module_field_by_slot@, slot_index) {
            None => Err("Cab single legacy : hint cab inconnu (assign legacy requis avant write param)"@),
            Some(cab_vec) => if cab_vec@.len() == 0 {
                Err("Cab single legacy : champ cab vide"@)
            } else {
                match assoc_get(s.cab.standalone_legacy_assign_model_block_by_slot@, slot_index) {
                    None => Err("Cab single legacy : bloc modèle assign inconnu (assign legacy requis avant write param)"@),
                    Some(assign) => if assign@[3] == 0x03 && assign@[4] == 0xff {
                        Err("Cab single legacy cd:03:ff : utiliser legacy_cab_param_commit (handshake asynchrone)"@)
                    } else {
                        let cab = cab_vec@;
                        let b23 = bool_payload_spec(cfg, dt, vt);
                        let disc = legacy_disc_steps(cfg, dt, vt, v.range_steps);
                        let w23 = b23 || disc is Some;
                        let sf = !b23 || disc is Some || vt == Some(0i32) || vt == Some(1i32);
                        let c = s.counters;
                        let m23 = if assign@[3] == 0x04 {
                            assign@.update(10, bus).update(4, sel)
                        } else {
                            assign@.update(10, bus)
                        };
                        let dpkt = if cab.len() == 3 {
                            legacy_discrete_spec(0x25, 0x15, wadd8(c.x80_cnt, 1), c.live_write_ctr, m23, cab, 0xff, seq![0x00u8, 0x00, 0x00])
                        } else {
                            legacy_discrete_spec(0x23, 0x13, wadd8(c.x80_cnt, 1), c.live_write_ctr, m23, cab, 0xff, seq![0x00u8])
                        };
                        let prefix = legacy_57_prefix_spec(assign@, sel, bus);
                        let b = minimal_burst(c, w23, sf, dpkt, |q: u8, l: u16| legacy_57_spec(q, l, prefix, cab, 0xff, v.float_be@, cab[0]), 0x57);
                        Ok((b.0, b.1, bus, b.2))
                    },
                }
            },
        },
    }
}

/// What a minimal write leaves: the error and the state unchanged, or the packets, opcode,
/// slot bus and selector, with the counters stepped.
pub open spec fn minimal_outcome(
    spec: Result<(Seq<Seq<u8>>, u8, u8, Counters), Seq<char>>,
    s: HelixState,
    f: HelixState,
    sel: u8,
    r: Result<StandaloneLegacyMinimalLiveWrite, String>,
) -> bool {
    match spec {
        Err(m) => r matches Err(e) && e@ == m && f == s,
        Ok(t) => {
            &&& r matches Ok(w) && crate::edit_slot_model::packets_are(w.packets@, t.0) && w.primary_opcode == t.1
                && w.slot_bus == t.2 && w.param_selector == sel
            &&& f.counters == t.3
            &&& f == (HelixState { counters: f.counters, ..s })
        },
    }
}

/// The burst of a minimal write: `ed:08`, then the segmented frame when `w23`, then the float
/// frame (`57` single, `71` dual) when `sf`; steps the counters.
#[verifier::spinoff_prover]
fn minimal_burst_packets(
    state: &mut HelixState,
    w23: bool,
    sf: bool,
    cab: &[u8],
    model_block: [u8; 16],
    float_kind_57: bool,
    prefix: &[u8],
    pp: u8,
    sel: u8,
    bus: u8,
    mark: u8,
    float_be: [u8; 4],
) -> (r: (Vec<Vec<u8>>, u8))
    requires
        cab@.len() > 0,
    ensures
        ({
            let c = old(state).counters;
            let dpkt = if cab@.len() == 3 {
                legacy_discrete_spec(0x25, 0x15, wadd8(c.x80_cnt, 1), c.live_write_ctr, model_block@, cab@, mark, seq![0x00u8, 0x00, 0x00])
            } else {
                legacy_discrete_spec(0x23, 0x13, wadd8(c.x80_cnt, 1), c.live_write_ctr, model_block@, cab@, mark, seq![0x00u8])
            };
            let b = if float_kind_57 {
                minimal_burst(c, w23, sf, dpkt, |q: u8, l: u16| legacy_57_spec(q, l, prefix@, cab@, mark, float_be@, cab@[0]), 0x57)
            } else {
                minimal_burst(c, w23, sf, dpkt, |q: u8, l: u16| dual_71_spec(q, l, pp, sel, bus, cab@, mark, float_be@), 0x71)
            };
            &&& crate::edit_slot_model::packets_are(r.0@, b.0)
            &&& r.1 == b.1
            &&& final(state).counters == b.2
            &&& *final(state) == (HelixState { counters: final(state).counters, ..*old(state) })
        }),
{
    let ghost c = state.counters;
    let mut packets: Vec<Vec<u8>> = Vec::new();
    let ctr = state.counters.live_write_ctr;
    let ed08_seq = state.next_x80_cnt();
    let e = vec![0x08, 0x00, 0x00, 0x18, 0x80, 0x10, 0xed, 0x03, 0x00, ed08_seq, 0x00, 0x08, lo_byte(ctr), hi_byte(ctr), 0x00, 0x00];
    assert(e@ =~= ed08_short_spec(ed08_seq, ctr));
    packets.push(e);
    let mut op: u8 = if float_kind_57 { 0x57 } else { 0x71 };
    if w23 {
        let seq = state.next_x80_cnt();
        let d = if cab.len() == 3 {
            build_legacy_hybrid_25_packet(seq, ctr, model_block, cab, mark)
        } else {
            build_legacy_hybrid_23_packet(seq, ctr, model_block, cab, mark)
        };
        op = d[0];
        packets.push(d);
    }
    if sf {
        let seq = state.next_x80_cnt();
        let fctr = if w23 { state.counters.live_write_ctr.wrapping_add(0x1f) } else { ctr };
        let f = if float_kind_57 {
            build_standalone_legacy_57_packet(seq, fctr, prefix, cab, mark, float_be, cab[0])
        } else {
            build_dual_legacy_71_packet(seq, fctr, pp, sel, bus, cab, mark, float_be)
        };
        op = if float_kind_57 { 0x57 } else { 0x71 };
        packets.push(f);
        if w23 {
            state.counters.live_write_ctr = state.counters.live_write_ctr.wrapping_add(0x1f);
            state.counters.live_write_yy = state.counters.live_write_yy.wrapping_add(1);
        }
    }
    state.counters.live_write_ctr = state.counters.live_write_ctr.wrapping_add(0x1f);
    state.counters.live_write_yy = state.counters.live_write_yy.wrapping_add(1);
    proof {
        crate::bytes::lemma_wadd16_twice(c.live_write_ctr, 0x1f, 0x1f);
        crate::bytes::lemma_wadd8_twice(c.live_write_yy, 1, 1);
    }
    (packets, op)
}

/// Minimal live write of a dual legacy cab (`ed:08`, segmented `23`/`25`, float `71`), or why it
/// cannot be sent.
pub open spec fn dual_minimal_spec(
    s: HelixState,
    cfg: HelixLiveWriteCfg,
    v: LegacyLiveValue,
    slot_index: u32,
    cab_index: u8,
    dt: Option<&str>,
    vt: Option<i32>,
    route: LiveWriteRouteOverride,
) -> Result<(Seq<Seq<u8>>, u8, u8, Counters), Seq<char>> {
    let n = decimal_of(wadd8(cab_index, 1) as nat);
    match kempline_index_to_slot_bus_spec(slot_index as int) {
        None => Err("slotIndex invalide"@),
        Some(bus) => match assoc_get(s.cab.dual_legacy_cab_module_field_by_slot@, (slot_index, cab_index)) {
            None => Err("Cab dual legacy cab"@ + n + " : hint cab inconnu (assign dual legacy requis avant write param)"@),
            Some(cab_vec) => if cab_vec@.len() == 0 {
                Err("Cab dual legacy cab"@ + n + " : champ cab vide"@)
            } else {
                match mark_after_1a_spec(s, slot_index, Some(cab_index)) {
                    Err(m) => Err(m),
                    Ok(mark) => {
                        let cab = cab_vec@;
                        let b23 = bool_payload_spec(cfg, dt, vt);
                        let disc = legacy_disc_steps(cfg, dt, vt, v.range_steps);
                        let w23 = b23 || disc is Some;
                        let sf = !b23 || disc is Some || vt == Some(0i32) || vt == Some(1i32);
                        if !w23 && !sf {
                            Err("Cab dual legacy : write float non implémenté (capture manquante)"@)
                        } else {
                            let c = s.counters;
                            let dpkt = if cab.len() == 3 {
                                legacy_discrete_spec(0x25, 0x15, wadd8(c.x80_cnt, 1), c.live_write_ctr, route.model_block@, cab, mark, seq![0x00u8, 0x00, 0x00])
                            } else {
                                legacy_discrete_spec(0x23, 0x13, wadd8(c.x80_cnt, 1), c.live_write_ctr, route.model_block@, cab, mark, seq![0x00u8])
                            };
                            let b = minimal_burst(c, w23, sf, dpkt, |q: u8, l: u16| dual_71_spec(q, l, route.pp, route.param_selector, bus, cab, mark, v.float_be@), 0x71);
                            Ok((b.0, b.1, bus, b.2))
                        }
                    },
                }
            },
        },
    }
}

fn err_text(t: &str) -> (r: Result<StandaloneLegacyMinimalLiveWrite, String>)
    ensures
        r matches Err(e) && e@ == t@,
{
    Err(crate::text::text_of(t))
}

fn cab_numbered_error(cab_index: u8, tail: &str) -> (r: Result<StandaloneLegacyMinimalLiveWrite, String>)
    ensures
        r matches Err(e) && e@ == "Cab dual legacy cab"@ + decimal_of(wadd8(cab_index, 1) as nat) + tail@,
{
    let mut e = crate::text::text_of("Cab dual legacy cab");
    crate::text::push_decimal(&mut e, cab_index.wrapping_add(1) as u64);
    crate::text::string_push_str(&mut e, tail);
    Err(e)
}

/// Minimal live write of a single legacy cab: `ed:08` on the live write lane, the segmented
/// frame (`25` with a three-byte cab hint, else `23`) for bool or segmented values, and the
/// float frame `57` unless the value is a pure bool. A `cd:03:ff` assign goes through the
/// asynchronous commit instead (error).
#[verifier::spinoff_prover]
#[verifier::rlimit(60)]
pub fn build_standalone_legacy_minimal_param_packets(
    state: &mut HelixState,
    cfg: &HelixLiveWriteCfg,
    value: &LegacyLiveValue,
    slot_index: u32,
    display_type: Option<&str>,
    value_type: Option<i32>,
    route: &LiveWriteRouteOverride,
) -> (r: Result<StandaloneLegacyMinimalLiveWrite, String>)
    ensures
        minimal_outcome(
            standalone_minimal_spec(*old(state), *cfg, *value, slot_index, display_type, value_type, route.param_selector),
            *old(state),
            *final(state),
            route.param_selector,
            r,
        ),
{
    let bus = match kempline_index_to_slot_bus(slot_index as usize) {
        Some(b) => b,
        None => return err_text("slotIndex invalide"),
    };
    let cab = match standalone_legacy_cab_module_field(state, slot_index) {
        Some(c) => c,
        None => return err_text("Cab single legacy : hint cab inconnu (assign legacy requis avant write param)"),
    };
    if cab.len() == 0 {
        return err_text("Cab single legacy : champ cab vide");
    }
    let assign = match standalone_legacy_assign_model_block(state, slot_index) {
        Some(a) => a,
        None => return err_text("Cab single legacy : bloc modèle assign inconnu (assign legacy requis avant write param)"),
    };
    if standalone_legacy_assign_uses_cd03ff(assign) {
        return err_text("Cab single legacy cd:03:ff : utiliser legacy_cab_param_commit (handshake asynchrone)");
    }
    let sel = route.param_selector;
    let b23 = infer_bool_wire_payload(cfg, display_type, value_type);
    let disc = match discrete_23_step_count(cfg, display_type) {
        Some(n) => Some(n),
        None => if value_type == Some(0i32) { value.range_steps } else { None },
    };
    let w23 = b23 || disc.is_some();
    let sf = legacy_send_float_followup(b23, disc, value_type);
    let m23 = standalone_legacy_23_model_block(assign, sel, bus);
    let prefix = standalone_legacy_57_model_prefix(assign, sel, bus);
    let (packets, op) = minimal_burst_packets(state, w23, sf, cab.as_slice(), m23, true, &prefix, 0, sel, bus, 0xff, value.float_be);
    Ok(StandaloneLegacyMinimalLiveWrite { packets, primary_opcode: op, slot_bus: bus, param_selector: sel })
}

/// Minimal live write of cab `cab_index` of a dual legacy cab: `ed:08`, the segmented frame for
/// bool or segmented values, the float frame `71` unless the value is a pure bool; the byte
/// after `1a` is the other cab's hint. Error texts number the cab `cab_index + 1`, on 8 bits.
#[verifier::spinoff_prover]
#[verifier::rlimit(60)]
pub fn build_dual_legacy_minimal_param_packets(
    state: &mut HelixState,
    cfg: &HelixLiveWriteCfg,
    value: &LegacyLiveValue,
    slot_index: u32,
    cab_index: u8,
    display_type: Option<&str>,
    value_type: Option<i32>,
    route: &LiveWriteRouteOverride,
) -> (r: Result<StandaloneLegacyMinimalLiveWrite, String>)
    ensures
        minimal_outcome(
            dual_minimal_spec(*old(state), *cfg, *value, slot_index, cab_index, display_type, value_type, *route),
            *old(state),
            *final(state),
            route.param_selector,
            r,
        ),
{
    let bus = match kempline_index_to_slot_bus(slot_index as usize) {
        Some(b) => b,
        None => return err_text("slotIndex invalide"),
    };
    let cab = match dual_legacy_cab_module_field(state, slot_index, cab_index) {
        Some(c) => c,
        None => return cab_numbered_error(cab_index, " : hint cab inconnu (assign dual legacy requis avant write param)"),
    };
    if cab.len() == 0 {
        return cab_numbered_error(cab_index, " : champ cab vide");
    }
    let mark = match legacy_mark_byte_after_1a(state, slot_index, Some(cab_index)) {
        Ok(m) => m,
        Err(e) => return Err(e),
    };
    let b23 = infer_bool_wire_payload(cfg, display_type, value_type);
    let disc = match discrete_23_step_count(cfg, display_type) {
        Some(n) => Some(n),
        None => if value_type == Some(0i32) { value.range_steps } else { None },
    };
    let w23 = b23 || disc.is_some();
    let sf = legacy_send_float_followup(b23, disc, value_type);
    if !w23 && !sf {
        return err_text("Cab dual legacy : write float non implémenté (capture manquante)");
    }
    let sel = route.param_selector;
    let empty: [u8; 0] = [];
    let (packets, op) = minimal_burst_packets(state, w23, sf, cab.as_slice(), route.model_block, false, &empty, route.pp, sel, bus, mark, value.float_be);
    Ok(StandaloneLegacyMinimalLiveWrite { packets, primary_opcode: op, slot_bus: bus, param_selector: sel })
}

} // verus!
