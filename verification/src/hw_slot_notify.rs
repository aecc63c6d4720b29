//! Active slot tracking from IN traffic (`82:62:SS:1a`) and the short keep-alive frames.
use vstd::prelude::*;
use crate::bytes::wadd32;
use crate::pull_frames::{is_hw_model_post_assign_21, post_assign_21_spec};
use crate::slots::{
    is_special_slot_bus, is_special_slot_bus_spec, slot_bus_to_kempline_index,
    slot_bus_to_kempline_index_spec,
};
use crate::state::{HardwareSlotChangedPayload, HelixState, SlotTracking};

verus! {

/// Active slot registers `(bus, index, sequence, changed)` during the scan of a frame.
pub type SlotScan = (Option<u8>, Option<usize>, u32, bool);

/// One scan position: a `82:62:SS:1a` marker on an effect or structural bus that differs
/// from the current bus becomes the active slot and moves the sequence on.
pub open spec fn slot_scan_step(st: SlotScan, data: Seq<u8>, i: int) -> SlotScan {
    if data[i] == 0x82 && data[i + 1] == 0x62 && data[i + 3] == 0x1a {
        let bus = data[i + 2];
        let index = slot_bus_to_kempline_index_spec(bus);
        if (index is Some || is_special_slot_bus_spec(bus)) && st.0 != Some(bus) {
            (Some(bus), index, wadd32(st.2, 1), true)
        } else {
            st
        }
    } else {
        st
    }
}

/// The registers after the positions `0..k` of the frame.
pub open spec fn slot_scan_upto(data: Seq<u8>, k: int, st: SlotScan) -> SlotScan
    decreases k,
{
    if k <= 0 {
        st
    } else {
        slot_scan_step(slot_scan_upto(data, k - 1, st), data, k - 1)
    }
}

/// The registers after the whole frame (positions below `len - 3`).
pub open spec fn slot_scan(data: Seq<u8>, st: SlotScan) -> SlotScan {
    if data.len() >= 4 {
        slot_scan_upto(data, data.len() - 3, st)
    } else {
        st
    }
}

/// A `82:62:SS:1a` marker at `i` on an effect or structural bus.
pub open spec fn slot_marker_at(data: Seq<u8>, i: int) -> bool {
    &&& data[i] == 0x82 && data[i + 1] == 0x62 && data[i + 3] == 0x1a
    &&& (slot_bus_to_kempline_index_spec(data[i + 2]) is Some || is_special_slot_bus_spec(data[i + 2]))
}

proof fn lemma_scan_without_markers(data: Seq<u8>, k: int, st: SlotScan)
    requires
        forall|i: int| 0 <= i < k ==> !#[trigger] slot_marker_at(data, i),
    ensures
        slot_scan_upto(data, k, st) == st,
    decreases k,
{
    if k > 0 {
        lemma_scan_without_markers(data, k - 1, st);
        assert(!slot_marker_at(data, k - 1));
    }
}

proof fn lemma_scan_keeps_last_marker(data: Seq<u8>, j: int, k: int, st: SlotScan)
    requires
        0 <= j < k,
        slot_marker_at(data, j),
        forall|i: int| j < i < k ==> !#[trigger] slot_marker_at(data, i),
    ensures
        slot_scan_upto(data, k, st).0 == Some(data[j + 2]),
        slot_scan_upto(data, k, st).1 == slot_bus_to_kempline_index_spec(data[j + 2])
            || slot_scan_upto(data, j, st).0 == Some(data[j + 2]),
    decreases k,
{
    if k > j + 1 {
        lemma_scan_keeps_last_marker(data, j, k - 1, st);
        assert(!slot_marker_at(data, k - 1));
    }
}

/// The active slot after a frame is the bus of its last `82:62:SS:1a` marker on an effect or
/// structural bus (the last one wins, with that bus's grid index when the slot changes on it);
/// a frame without such a marker leaves the active slot, its index and its sequence as they
/// were.
pub proof fn law_last_slot_marker_wins(data: Seq<u8>, j: int, st: SlotScan)
    requires
        data.len() >= 4,
    ensures
        0 <= j < data.len() - 3 && slot_marker_at(data, j) && (forall|i: int|
            j < i < data.len() - 3 ==> !#[trigger] slot_marker_at(data, i)) ==> ({
            let r = slot_scan(data, st);
            &&& r.0 == Some(data[j + 2])
            &&& slot_scan_upto(data, j, st).0 != Some(data[j + 2]) ==> r.1
                == slot_bus_to_kempline_index_spec(data[j + 2])
        }),
        (forall|i: int| 0 <= i < data.len() - 3 ==> !#[trigger] slot_marker_at(data, i)) ==> slot_scan(data, st)
            == st,
{
    if 0 <= j < data.len() - 3 && slot_marker_at(data, j) && (forall|i: int|
        j < i < data.len() - 3 ==> !#[trigger] slot_marker_at(data, i)) {
        lemma_scan_keeps_last_marker(data, j, data.len() - 3, st);
    }
    if forall|i: int| 0 <= i < data.len() - 3 ==> !#[trigger] slot_marker_at(data, i) {
        lemma_scan_without_markers(data, data.len() - 3, st);
    }
}

/// The registers `after` follow `before` for a short keep-alive frame: a 16-byte
/// `08 00 00 18` frame records the device counter (byte 9) of its lane; an `ed` frame is
/// kept as the first half of a notification pair, an `ef` frame as the second half, which
/// moves the pair sequence on when a first half is known.
pub open spec fn short_frame_registers(before: SlotTracking, after: SlotTracking, data: Seq<u8>) -> bool {
    if data.len() != 16 || !(data[0] == 0x08 && data[1] == 0x00 && data[2] == 0x00 && data[3] == 0x18) {
        after == before
    } else {
        let is_ed = data[4] == 0xed && data[5] == 0x03 && data[6] == 0x80 && data[7] == 0x10;
        let is_ef = data[4] == 0xef && data[5] == 0x03 && data[6] == 0x01 && data[7] == 0x10;
        let is_f0 = data[4] == 0xf0 && data[5] == 0x03 && data[6] == 0x02 && data[7] == 0x10;
        &&& after.dev_keepalive_cnt_ed == if is_ed { Some(data[9]) } else { before.dev_keepalive_cnt_ed }
        &&& after.dev_keepalive_cnt_ef == if is_ef { Some(data[9]) } else { before.dev_keepalive_cnt_ef }
        &&& after.dev_keepalive_cnt_f0 == if is_f0 { Some(data[9]) } else { before.dev_keepalive_cnt_f0 }
        &&& is_ed ==> (after.hw_slot_notify_ed_in matches Some(a) && a@ == data) && after.hw_slot_notify_ef_in is None
            && after.hw_slot_notify_sequence == before.hw_slot_notify_sequence
        &&& is_ef ==> (after.hw_slot_notify_ef_in matches Some(a) && a@ == data)
            && after.hw_slot_notify_ed_in == before.hw_slot_notify_ed_in
            && after.hw_slot_notify_sequence == (if before.hw_slot_notify_ed_in is Some {
            wadd32(before.hw_slot_notify_sequence, 1)
        } else {
            before.hw_slot_notify_sequence
        })
        &&& !is_ed && !is_ef ==> after.hw_slot_notify_ed_in == before.hw_slot_notify_ed_in
            && after.hw_slot_notify_ef_in == before.hw_slot_notify_ef_in
            && after.hw_slot_notify_sequence == before.hw_slot_notify_sequence
        &&& after.hw_active_slot_bus == before.hw_active_slot_bus
        &&& after.hw_active_slot_index == before.hw_active_slot_index
        &&& after.hw_active_slot_sequence == before.hw_active_slot_sequence
        &&& after.hw_slot_content_sequence == before.hw_slot_content_sequence
        &&& after.path1_input_source_wire == before.path1_input_source_wire
        &&& after.path1_split_type_wire == before.path1_split_type_wire
    }
}

impl HelixState {
    /// Updates the active slot (only path) and the keep-alive registers from one IN frame.
    ///
    /// Every `82:62:SS:1a` marker on an effect or structural bus that differs from the
    /// current one becomes the active slot (the last one wins) and moves the slot sequence
    /// on; the payload reports the final registers when the slot changed. The 44-byte `21`
    /// post-assign notice is ignored. A 16-byte `08 00 00 18` frame also records the device
    /// counter of its keep-alive lane and the `ed`/`ef` notification pair.
    pub fn ingest_hw_slot_notify_in(&mut self, data: &[u8]) -> (r: Option<HardwareSlotChangedPayload>)
        ensures
            post_assign_21_spec(data@) ==> r is None && *final(self) == *old(self),
            !post_assign_21_spec(data@) ==> {
                let s = old(self).slot;
                let st = slot_scan(
                    data@,
                    (s.hw_active_slot_bus, s.hw_active_slot_index, s.hw_active_slot_sequence, false),
                );
                let scanned = SlotTracking {
                    hw_active_slot_bus: st.0,
                    hw_active_slot_index: st.1,
                    hw_active_slot_sequence: st.2,
                    ..s
                };
                &&& short_frame_registers(scanned, final(self).slot, data@)
                &&& *final(self) == (HelixState { slot: final(self).slot, ..*old(self) })
                &&& st.3 ==> (r matches Some(p) && p.sequence == st.2 && p.slot_index == st.1 && p.slot_bus == st.0)
                &&& !st.3 ==> r is None
            },
    {
        if is_hw_model_post_assign_21(data) {
            return None;
        }
        let mut changed: Option<HardwareSlotChangedPayload> = None;
        if data.len() >= 4 {
            let n: usize = data.len() - 3;
            let mut i: usize = 0;
            let ghost st0: SlotScan = (
                self.slot.hw_active_slot_bus,
                self.slot.hw_active_slot_index,
                self.slot.hw_active_slot_sequence,
                false,
            );
            let ghost old_self = *self;
            while i < n
                invariant
                    n == data.len() - 3,
                    i <= n,
                    ({
                        let st = slot_scan_upto(data@, i as int, st0);
                        &&& self.slot.hw_active_slot_bus == st.0
                        &&& self.slot.hw_active_slot_index == st.1
                        &&& self.slot.hw_active_slot_sequence == st.2
                        &&& st.3 ==> (changed matches Some(p) && p.sequence == st.2 && p.slot_index == st.1
                            && p.slot_bus == st.0)
                        &&& !st.3 ==> changed is None
                    }),
                    *self == (HelixState {
                        slot: SlotTracking {
                            hw_active_slot_bus: self.slot.hw_active_slot_bus,
                            hw_active_slot_index: self.slot.hw_active_slot_index,
                            hw_active_slot_sequence: self.slot.hw_active_slot_sequence,
                            ..old_self.slot
                        },
                        ..old_self
                    }),
                decreases n - i,
            {
                if data[i] == 0x82 && data[i + 1] == 0x62 && data[i + 3] == 0x1a {
                    let slot_bus = data[i + 2];
                    let slot_index = slot_bus_to_kempline_index(slot_bus);
                    let is_special = is_special_slot_bus(slot_bus);
                    if slot_index.is_some() || is_special {
                        if self.slot.hw_active_slot_bus != Some(slot_bus) {
                            self.slot.hw_active_slot_index = slot_index;
                            self.slot.hw_active_slot_bus = Some(slot_bus);
                            self.slot.hw_active_slot_sequence = self.slot.hw_active_slot_sequence.wrapping_add(1);
                            changed = Some(HardwareSlotChangedPayload {
                                sequence: self.slot.hw_active_slot_sequence,
                                slot_index: self.slot.hw_active_slot_index,
                                slot_bus: self.slot.hw_active_slot_bus,
                            });
                        }
                    }
                }
                i = i + 1;
            }
        }
        if data.len() != 16 {
            return changed;
        }
        if data[0] != 0x08 || data[1] != 0x00 || data[2] != 0x00 || data[3] != 0x18 {
            return changed;
        }
        let mut b = [0u8; 16];
        let mut k: usize = 0;
        while k < 16
            invariant
                k <= 16,
                data@.len() == 16,
                forall|j: int| 0 <= j < k ==> b@[j] == data@[j],
            decreases 16 - k,
        {
            b.set(k, data[k]);
            k = k + 1;
        }
        assert(b@ =~= data@);
        if data[4] == 0xed && data[5] == 0x03 && data[6] == 0x80 && data[7] == 0x10 {
            self.slot.dev_keepalive_cnt_ed = Some(data[9]);
        } else if data[4] == 0xef && data[5] == 0x03 && data[6] == 0x01 && data[7] == 0x10 {
            self.slot.dev_keepalive_cnt_ef = Some(data[9]);
        } else if data[4] == 0xf0 && data[5] == 0x03 && data[6] == 0x02 && data[7] == 0x10 {
            self.slot.dev_keepalive_cnt_f0 = Some(data[9]);
        }
        if data[4] == 0xed && data[5] == 0x03 && data[6] == 0x80 && data[7] == 0x10 {
            self.slot.hw_slot_notify_ed_in = Some(b);
            self.slot.hw_slot_notify_ef_in = None;
            return changed;
        }
        if data[4] == 0xef && data[5] == 0x03 && data[6] == 0x01 && data[7] == 0x10 {
            self.slot.hw_slot_notify_ef_in = Some(b);
            if self.slot.hw_slot_notify_ed_in.is_some() {
                self.slot.hw_slot_notify_sequence = self.slot.hw_slot_notify_sequence.wrapping_add(1);
            }
        }
        changed
    }
}

} // verus!
