//! Counter patches of the `80:10:ed:03` lane (focus / `ed:08` before a bulk replace).
use vstd::prelude::*;
use crate::bytes::{lo8, hi8, lo_byte, hi_byte};
use crate::state::HelixState;

verus! {

/// Patches bytes 12-13 (counter, LE) and byte 14 (= 0) of an `80:10:ed:03` packet.
pub fn force_ed03_ctr(pkt: &mut Vec<u8>, ctr: u16)
    ensures
        old(pkt)@.len() > 14 ==> final(pkt)@ == old(pkt)@.update(12, lo8(ctr)).update(13, hi8(ctr)).update(
            14,
            0u8,
        ),
        old(pkt)@.len() <= 14 ==> final(pkt)@ == old(pkt)@,
{
    if pkt.len() > 14 {
        pkt.set(12, lo_byte(ctr));
        pkt.set(13, hi_byte(ctr));
        pkt.set(14, 0x00);
    }
}

/// Short `08 … 80:10:ed:03` frame (`ed:08`) carrying `ctr` on bytes 12-13.
pub open spec fn ed08_short_spec(seq: u8, ctr: u16) -> Seq<u8> {
    seq![
        0x08u8, 0x00, 0x00, 0x18, 0x80, 0x10, 0xed, 0x03, 0x00, seq, 0x00, 0x08,
        lo8(ctr), hi8(ctr), 0x00, 0x00,
    ]
}

/// Short `ed:08` frame; the sequence byte is the next x80 counter.
pub fn build_ed08_short(state: &mut HelixState, ctr: u16) -> (r: Vec<u8>)
    ensures
        r@ == ed08_short_spec(old(state).counters.x80_cnt, ctr),
        final(state).counters.x80_cnt == crate::bytes::wadd8(old(state).counters.x80_cnt, 1),
        *final(state) == (HelixState { counters: final(state).counters, ..*old(state) }),
        final(state).counters == (crate::state::Counters {
            x80_cnt: final(state).counters.x80_cnt,
            ..old(state).counters
        }),
{
    let seq = state.next_x80_cnt();
    let r = vec![
        0x08, 0x00, 0x00, 0x18, 0x80, 0x10, 0xed, 0x03, 0x00, seq, 0x00, 0x08,
        lo_byte(ctr), hi_byte(ctr), 0x00, 0x00,
    ];
    assert(r@ == ed08_short_spec(old(state).counters.x80_cnt, ctr));
    r
}

} // verus!
