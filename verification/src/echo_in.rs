//! What the session learns from IN frames outside the modes: the model block a parameter
//! echo carries (replayed in the next live writes) and the Path 1 input source.
use vstd::prelude::*;
use crate::live_write::echo_block_lookup;
use crate::path1_io_live_write::{input_scroll_21_spec, is_path1_input_scroll_notify_21, scan_input_from, scan_path1_input_source_wire};
use crate::state::{CabSession, Counters, HelixState, Path1InputSourceChangedPayload, SlotTracking};

verus! {

/// An `ed:03` marker at `i`: `ed 03 03 10`, `03 10 ed 03` or `80 10 ed 03`.
pub open spec fn ed03_marker_at(d: Seq<u8>, i: int) -> bool {
    &&& 0 <= i && i + 4 <= d.len()
    &&& ((d[i] == 0xed && d[i + 1] == 0x03 && d[i + 2] == 0x03 && d[i + 3] == 0x10)
        || (d[i] == 0x03 && d[i + 1] == 0x10 && d[i + 2] == 0xed && d[i + 3] == 0x03)
        || (d[i] == 0x80 && d[i + 1] == 0x10 && d[i + 2] == 0xed && d[i + 3] == 0x03))
}

/// First `ed:03` marker at or after `from`, or -1.
pub open spec fn first_ed03_marker(d: Seq<u8>, from: int) -> int
    decreases d.len() - from,
{
    if from < 0 || from + 4 > d.len() {
        -1
    } else if ed03_marker_at(d, from) {
        from
    } else {
        first_ed03_marker(d, from + 1)
    }
}

/// First `83 66 cd` at or after `from` with 16 bytes from it, or -1.
pub open spec fn first_model_block(d: Seq<u8>, from: int) -> int
    decreases d.len() - from,
{
    if from < 0 || from + 16 > d.len() {
        -1
    } else if d[from] == 0x83 && d[from + 1] == 0x66 && d[from + 2] == 0xcd {
        from
    } else {
        first_model_block(d, from + 1)
    }
}

proof fn lemma_first_ed03_marker(d: Seq<u8>, from: int)
    ensures
        first_ed03_marker(d, from) == -1 || (from <= first_ed03_marker(d, from) && first_ed03_marker(d, from) + 4 <= d.len()),
    decreases d.len() - from,
{
    if !(from < 0 || from + 4 > d.len()) {
        lemma_first_ed03_marker(d, from + 1);
    }
}

proof fn lemma_first_model_block(d: Seq<u8>, from: int)
    ensures
        first_model_block(d, from) == -1 || (from <= first_model_block(d, from) && first_model_block(d, from) + 16 <= d.len()),
    decreases d.len() - from,
{
    if !(from < 0 || from + 16 > d.len()) {
        lemma_first_model_block(d, from + 1);
    }
}

/// The model block (16 bytes `83 66 cd …`) that a parameter echo carries after its `ed:03`
/// marker.
pub open spec fn echo_block_spec(d: Seq<u8>) -> Option<Seq<u8>> {
    if d.len() < 16 {
        None
    } else {
        let e = first_ed03_marker(d, 0);
        if e < 0 {
            None
        } else {
            let m = first_model_block(d, e + 1);
            if m < 0 { None } else { Some(d.subrange(m, m + 16)) }
        }
    }
}

/// The echo cache after `block` was stored for each sampled `(slot_bus, param_selector)`
/// of a frame whose model block has page `pp`: the latest entry comes first.
pub open spec fn echo_cache_after(
    cache: Seq<((u8, u8, u8), [u8; 16])>,
    samples: Seq<(u8, u8)>,
    pp: u8,
    block: [u8; 16],
) -> Seq<((u8, u8, u8), [u8; 16])> {
    Seq::new(samples.len(), |i: int| ((samples[samples.len() - 1 - i].0, pp, samples[samples.len() - 1 - i].1), block)) + cache
}

/// Stores the model block of an echo under each sampled slot bus and parameter selector
/// (page byte from the block).
pub fn cache_ed03_model_blocks_from_echo(
    cache: &mut Vec<((u8, u8, u8), [u8; 16])>,
    samples: &Vec<(u8, u8)>,
    model_block: [u8; 16],
)
    ensures
        final(cache)@ == echo_cache_after(old(cache)@, samples@, model_block@[3], model_block),
{
    let route_pp = model_block[3];
    let mut i: usize = 0;
    while i < samples.len()
        invariant
            i <= samples@.len(),
            route_pp == model_block@[3],
            cache@ =~= echo_cache_after(old(cache)@, samples@.subrange(0, i as int), route_pp, model_block),
        decreases samples.len() - i,
    {
        let (bus, sel) = samples[i];
        let key = crate::slots::echo_model_cache_key(bus, route_pp, sel);
        cache.insert(0, (key, model_block));
        i = i + 1;
        assert(cache@ =~= echo_cache_after(old(cache)@, samples@.subrange(0, i as int), route_pp, model_block));
    }
    assert(samples@.subrange(0, samples@.len() as int) =~= samples@);
}

/// What the echo cache gives back is what was stored: after an echo, every sampled slot bus
/// and parameter selector finds the echo's model block; other keys find what they found before.
pub proof fn law_echo_cache_finds_stored_block(
    cache: Seq<((u8, u8, u8), [u8; 16])>,
    samples: Seq<(u8, u8)>,
    pp: u8,
    block: [u8; 16],
    key: (u8, u8, u8),
)
    ensures
        (exists|j: int| 0 <= j < samples.len() && key == (samples[j].0, pp, samples[j].1)) ==> echo_block_lookup(
            echo_cache_after(cache, samples, pp, block),
            key,
        ) == Some(block),
        (forall|j: int| 0 <= j < samples.len() ==> key != (samples[j].0, pp, samples[j].1)) ==> echo_block_lookup(
            echo_cache_after(cache, samples, pp, block),
            key,
        ) == echo_block_lookup(cache, key),
{
    let n = samples.len() as int;
    let front = Seq::new(samples.len(), |i: int| ((samples[n - 1 - i].0, pp, samples[n - 1 - i].1), block));
    lemma_lookup_front(front, cache, key, block);
    if exists|j: int| 0 <= j < samples.len() && key == (samples[j].0, pp, samples[j].1) {
        let j = choose|j: int| 0 <= j < samples.len() && key == (samples[j].0, pp, samples[j].1);
        assert(front[n - 1 - j].0 == key);
    }
}

/// Looking a key up in `front + rest`, where every value of `front` is `block`: `block` when
/// some key of `front` matches, else the lookup in `rest`.
proof fn lemma_lookup_front(
    front: Seq<((u8, u8, u8), [u8; 16])>,
    rest: Seq<((u8, u8, u8), [u8; 16])>,
    key: (u8, u8, u8),
    block: [u8; 16],
)
    requires
        forall|i: int| 0 <= i < front.len() ==> (#[trigger] front[i]).1 == block,
    ensures
        (exists|i: int| 0 <= i < front.len() && (#[trigger] front[i]).0 == key) ==> echo_block_lookup(front + rest, key)
            == Some(block),
        (forall|i: int| 0 <= i < front.len() ==> (#[trigger] front[i]).0 != key) ==> echo_block_lookup(front + rest, key)
            == echo_block_lookup(rest, key),
    decreases front.len(),
{
    if front.len() > 0 {
        assert((front + rest).drop_first() =~= front.drop_first() + rest);
        assert((front + rest)[0] == front[0]);
        lemma_lookup_front(front.drop_first(), rest, key, block);
        if exists|i: int| 0 <= i < front.len() && (#[trigger] front[i]).0 == key {
            let i = choose|i: int| 0 <= i < front.len() && (#[trigger] front[i]).0 == key;
            if i > 0 {
                assert(front.drop_first()[i - 1] == front[i]);
            }
        }
        if forall|i: int| 0 <= i < front.len() ==> (#[trigger] front[i]).0 != key {
            assert forall|i: int| 0 <= i < front.drop_first().len() implies (#[trigger] front.drop_first()[i]).0 != key by {
                assert(front.drop_first()[i] == front[i + 1]);
            }
        }
        assert forall|i: int| 0 <= i < front.drop_first().len() implies (#[trigger] front.drop_first()[i]).1 == block by {
            assert(front.drop_first()[i] == front[i + 1]);
        }
    } else {
        assert(front + rest =~= rest);
    }
}

fn find_ed03_marker(data: &[u8]) -> (r: Option<usize>)
    ensures
        match r {
            Some(i) => i as int == first_ed03_marker(data@, 0),
            None => first_ed03_marker(data@, 0) < 0,
        },
{
    let len: usize = data.len();
    let mut i: usize = 0;
    proof { lemma_first_ed03_marker(data@, 0); }
    while len >= 4 && i <= len - 4
        invariant
            len == data@.len(),
            i <= len,
            first_ed03_marker(data@, 0) == first_ed03_marker(data@, i as int),
        decreases len - i,
    {
        if (data[i] == 0xed && data[i + 1] == 0x03 && data[i + 2] == 0x03 && data[i + 3] == 0x10) || (data[i] == 0x03
            && data[i + 1] == 0x10 && data[i + 2] == 0xed && data[i + 3] == 0x03) || (data[i] == 0x80 && data[i + 1]
            == 0x10 && data[i + 2] == 0xed && data[i + 3] == 0x03) {
            return Some(i);
        }
        i = i + 1;
    }
    None
}

fn find_model_block(data: &[u8], from: usize) -> (r: Option<usize>)
    requires
        from <= data@.len(),
    ensures
        match r {
            Some(i) => i as int == first_model_block(data@, from as int) && i + 16 <= data@.len(),
            None => first_model_block(data@, from as int) < 0,
        },
{
    let len: usize = data.len();
    let mut i: usize = from;
    proof { lemma_first_model_block(data@, from as int); }
    while len >= 16 && i <= len - 16
        invariant
            len == data@.len(),
            from <= i <= len,
            first_model_block(data@, from as int) == first_model_block(data@, i as int),
        decreases len - i,
    {
        if data[i] == 0x83 && data[i + 1] == 0x66 && data[i + 2] == 0xcd {
            return Some(i);
        }
        i = i + 1;
    }
    None
}

impl HelixState {
    /// Remembers the model block that a parameter echo carries, to replay it in the next live
    /// writes: it becomes the last echo, is cached under each sampled `(slot_bus,
    /// param_selector)` of the frame, and the live write tag restarts from it. Frames without
    /// an `ed:03` marker followed by a model block change nothing.
    pub fn ingest_ed03_param_echo(&mut self, data: &[u8], samples: &Vec<(u8, u8)>)
        ensures
            match echo_block_spec(data@) {
                None => *final(self) == *old(self),
                Some(b) => {
                    &&& final(self).cab.last_ed03_echo_model matches Some(x) && x@ == b
                    &&& final(self).cab.ed03_echo_model_by_slot_param@ == echo_cache_after(
                        old(self).cab.ed03_echo_model_by_slot_param@,
                        samples@,
                        b[3],
                        final(self).cab.last_ed03_echo_model->0,
                    )
                    &&& final(self).counters == (Counters { ed03_live_write_seq_sent: None, ..old(self).counters })
                    &&& final(self).cab == (CabSession {
                        last_ed03_echo_model: final(self).cab.last_ed03_echo_model,
                        ed03_echo_model_by_slot_param: final(self).cab.ed03_echo_model_by_slot_param,
                        ..old(self).cab
                    })
                    &&& *final(self) == (HelixState { counters: final(self).counters, cab: final(self).cab, ..*old(self) })
                },
            },
    {
        if data.len() < 16 {
            return;
        }
        let e = match find_ed03_marker(data) {
            Some(e) => e,
            None => return,
        };
        proof { lemma_first_ed03_marker(data@, 0); }
        let m = match find_model_block(data, e + 1) {
            Some(m) => m,
            None => return,
        };
        let mut b = [0u8; 16];
        let dlen: usize = data.len();
        let mut k: usize = 0;
        while k < 16
            invariant
                k <= 16,
                dlen == data@.len(),
                m + 16 <= data@.len(),
                forall|j: int| 0 <= j < k ==> b@[j] == data@[m + j],
            decreases 16 - k,
        {
            b.set(k, data[m + k]);
            k = k + 1;
        }
        assert(b@ =~= data@.subrange(m as int, m + 16));
        self.cab.last_ed03_echo_model = Some(b);
        cache_ed03_model_blocks_from_echo(&mut self.cab.ed03_echo_model_by_slot_param, samples, b);
        self.counters.ed03_live_write_seq_sent = None;
    }

    /// Path 1 input source from an IN frame (`82:62:00:33:XX`): the new value when it changed.
    pub fn ingest_path1_input_source_wire_in(&mut self, data: &[u8]) -> (r: Option<u8>)
        ensures
            match scan_input_from(data@, 0) {
                None => r is None && *final(self) == *old(self),
                Some(w) => if old(self).slot.path1_input_source_wire == Some(w) {
                    r is None && *final(self) == *old(self)
                } else {
                    r == Some(w) && *final(self) == (HelixState {
                        slot: SlotTracking { path1_input_source_wire: Some(w), ..old(self).slot },
                        ..*old(self)
                    })
                },
            },
    {
        let wire = match scan_path1_input_source_wire(data) {
            Some(w) => w,
            None => return None,
        };
        if self.slot.path1_input_source_wire == Some(wire) {
            return None;
        }
        self.slot.path1_input_source_wire = Some(wire);
        Some(wire)
    }

    /// Event payload of a Path 1 input source change.
    pub fn path1_input_source_changed_payload(&self, wire: u8, data: &[u8]) -> (r: Path1InputSourceChangedPayload)
        ensures
            r.wire_value == wire,
            r.from_scroll_21 == input_scroll_21_spec(data@),
    {
        Path1InputSourceChangedPayload { wire_value: wire, from_scroll_21: is_path1_input_scroll_notify_21(data) }
    }

}

} // verus!
