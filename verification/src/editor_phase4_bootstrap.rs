//! Editor exchange before the preset dump (phase 4): `19 e8` → `1c e9` (`76:cc:80`) →
//! `19 ea` → `19 eb`, on the editor double `0x64xx` and the ED03 lane anchored at `09:10`,
//! whose low byte moves on by `0x4c`, `0x17`, `0x31` before the dump freezes it.
use vstd::prelude::*;
use crate::bytes::{lo8, hi8, wadd8};
use crate::packet::OutPacket;
use crate::state::{BootGates, Counters, EditorLanes, HelixState};

verus! {

pub const INTER_PACKET_DELAY_MS: u64 = 20;
pub const LANE_DELTA_E8_TO_E9: u16 = 0x004c;
pub const LANE_DELTA_E9_TO_EA: u16 = 0x0017;
pub const LANE_DELTA_EA_TO_EB: u16 = 0x0031;

/// End of the phase-4 burst: 132-byte `7a` (usual) or 116-byte `6a` on `ed:03:80:10`.
pub open spec fn phase4_trailer_spec(data: Seq<u8>) -> bool {
    data.len() >= 8 && data[4] == 0xed && data[5] == 0x03 && data[6] == 0x80 && data[7] == 0x10
        && ((data.len() == 132 && data[0] == 0x7a) || (data.len() == 116 && data[0] == 0x6a))
}

pub fn is_phase4_bootstrap_trailer_in(data: &[u8]) -> (r: bool)
    ensures
        r == phase4_trailer_spec(data@),
{
    data.len() >= 8 && data[4] == 0xed && data[5] == 0x03 && data[6] == 0x80 && data[7] == 0x10
        && ((data.len() == 132 && data[0] == 0x7a) || (data.len() == 116 && data[0] == 0x6a))
}

/// One 36-byte phase-4 request on the ED03 lane.
pub open spec fn phase4_packet(
    head: u8,
    cnt: u8,
    sub: u8,
    lane_lo: u8,
    len_byte: u8,
    d_lo: u8,
    term: u8,
    tail: Seq<u8>,
) -> Seq<u8> {
    seq![
        head, 0x00, 0x00, 0x18, 0x80, 0x10, 0xed, 0x03, 0x00, cnt, 0x00, sub, lane_lo, 0x10, 0x00, 0x00,
        0x01, 0x00, 0x06, 0x00, len_byte, 0x00, 0x00, 0x00, 0x83, 0x66, 0xcd, 0x03, d_lo, 0x64, term,
        0x65,
    ] + tail
}

/// The four phase-4 requests sent from x80 counter `c`.
pub open spec fn phase4_requests(c: u8) -> Seq<Seq<u8>> {
    seq![
        phase4_packet(0x19, c, 0x04, 0x09, 0x09, 0xe8, 0x4c, seq![0x80u8, 0x00, 0x00, 0x00]),
        phase4_packet(0x1c, wadd8(c, 1), 0x0c, 0x55, 0x0c, 0xe9, 0x18, seq![0x81u8, 0x76, 0xcc, 0x80]),
        phase4_packet(0x19, wadd8(c, 2), 0x0c, 0x6c, 0x09, 0xea, 0x17, seq![0xc0u8, 0x00, 0x00, 0x00]),
        phase4_packet(0x19, wadd8(c, 3), 0x0c, 0x9d, 0x09, 0xeb, 0x16, seq![0xc0u8, 0x00, 0x00, 0x00]),
    ]
}

/// Sends the four requests that set up the preset state before the dump. Afterwards the
/// editor double is `0x64eb` and the lane stands at `9d:10` (its low byte stays frozen
/// during the dump; chunk ACKs move the high byte).
pub fn send(state: &mut HelixState)
    ensures
        final(state).outbox@.len() == old(state).outbox@.len() + 4,
        final(state).outbox@.subrange(0, old(state).outbox@.len() as int) == old(state).outbox@,
        forall|k: int|
            0 <= k < 4 ==> (#[trigger] final(state).outbox@[old(state).outbox@.len() + k]).data@
                == phase4_requests(old(state).counters.x80_cnt)[k]
                && final(state).outbox@[old(state).outbox@.len() + k].delay_ms == INTER_PACKET_DELAY_MS,
        *final(state) == (HelixState {
            counters: Counters {
                x80_cnt: wadd8(old(state).counters.x80_cnt, 4),
                ..old(state).counters
            },
            lanes: EditorLanes {
                editor_ed03_double: 0x64eb,
                editor_ed03_lane: 0x109d,
                editor_ed03_lane_b14: 0,
                ..old(state).lanes
            },
            outbox: final(state).outbox,
            ..*old(state)
        }),
{
    let ghost start = state.outbox@.len();
    let ghost c = state.counters.x80_cnt;
    state.lanes.editor_ed03_double = 0x64e7;
    state.reset_editor_ed03_lane();

    let d_e8 = state.next_editor_ed03_double();
    let lane_e8 = state.advance_editor_ed03_lane_lo(LANE_DELTA_E8_TO_E9);
    let c0 = state.next_x80_cnt();
    let p1 = vec![
        0x19, 0x00, 0x00, 0x18, 0x80, 0x10, 0xed, 0x03, 0x00, c0, 0x00, 0x04, lane_e8[0],
        lane_e8[1], 0x00, 0x00, 0x01, 0x00, 0x06, 0x00, 0x09, 0x00, 0x00, 0x00, 0x83, 0x66, 0xcd,
        0x03, d_e8[0], d_e8[1], 0x4c, 0x65, 0x80, 0x00, 0x00, 0x00,
    ];
    assert(p1@ == phase4_requests(c)[0]);
    state.send(OutPacket::with_delay(p1, INTER_PACKET_DELAY_MS));

    state.lanes.editor_ed03_double = 0x64e9;
    let d_e9 = state.editor_ed03_double_val();
    let lane_e9 = state.advance_editor_ed03_lane_lo(LANE_DELTA_E9_TO_EA);
    let c_1c = state.next_x80_cnt();
    let p2 = vec![
        0x1c, 0x00, 0x00, 0x18, 0x80, 0x10, 0xed, 0x03, 0x00, c_1c, 0x00, 0x0c, lane_e9[0],
        lane_e9[1], 0x00, 0x00, 0x01, 0x00, 0x06, 0x00, 0x0c, 0x00, 0x00, 0x00, 0x83, 0x66, 0xcd,
        0x03, d_e9[0], d_e9[1], 0x18, 0x65, 0x81, 0x76, 0xcc, 0x80,
    ];
    assert(p2@ == phase4_requests(c)[1]);
    state.send(OutPacket::with_delay(p2, INTER_PACKET_DELAY_MS));

    state.lanes.editor_ed03_double = 0x64ea;
    let d_ea = state.editor_ed03_double_val();
    let lane_ea = state.advance_editor_ed03_lane_lo(LANE_DELTA_EA_TO_EB);
    let c1 = state.next_x80_cnt();
    let p3 = vec![
        0x19, 0x00, 0x00, 0x18, 0x80, 0x10, 0xed, 0x03, 0x00, c1, 0x00, 0x0c, lane_ea[0],
        lane_ea[1], 0x00, 0x00, 0x01, 0x00, 0x06, 0x00, 0x09, 0x00, 0x00, 0x00, 0x83, 0x66, 0xcd,
        0x03, d_ea[0], d_ea[1], 0x17, 0x65, 0xc0, 0x00, 0x00, 0x00,
    ];
    assert(p3@ == phase4_requests(c)[2]);
    state.send(OutPacket::with_delay(p3, INTER_PACKET_DELAY_MS));

    let d_eb = state.next_editor_ed03_double();
    let lane_eb = state.editor_ed03_lane_bytes();
    let c2 = state.next_x80_cnt();
    let p4 = vec![
        0x19, 0x00, 0x00, 0x18, 0x80, 0x10, 0xed, 0x03, 0x00, c2, 0x00, 0x0c, lane_eb[0],
        lane_eb[1], 0x00, 0x00, 0x01, 0x00, 0x06, 0x00, 0x09, 0x00, 0x00, 0x00, 0x83, 0x66, 0xcd,
        0x03, d_eb[0], d_eb[1], 0x16, 0x65, 0xc0, 0x00, 0x00, 0x00,
    ];
    assert(p4@ == phase4_requests(c)[3]);
    state.send(OutPacket::with_delay(p4, INTER_PACKET_DELAY_MS));
    assert(state.lanes.editor_ed03_lane == 0x109d);
}

impl HelixState {
    /// Phase-4 OUT requests; the end is signalled by `note_phase4_bootstrap_complete`.
    pub fn start_phase4_bootstrap(&mut self)
        ensures
            final(self).gates == (BootGates {
                phase4_bootstrap_active: true,
                phase4_dump_full_272_count: 0,
                ..old(self).gates
            }),
            final(self).outbox@.len() == old(self).outbox@.len() + 4,
            final(self).outbox@.subrange(0, old(self).outbox@.len() as int) == old(self).outbox@,
            forall|k: int|
                0 <= k < 4 ==> (#[trigger] final(self).outbox@[old(self).outbox@.len() + k]).data@
                    == phase4_requests(old(self).counters.x80_cnt)[k]
                    && final(self).outbox@[old(self).outbox@.len() + k].delay_ms == INTER_PACKET_DELAY_MS,
            *final(self) == (HelixState {
                counters: Counters { x80_cnt: wadd8(old(self).counters.x80_cnt, 4), ..old(self).counters },
                lanes: EditorLanes {
                    editor_ed03_double: 0x64eb,
                    editor_ed03_lane: 0x109d,
                    editor_ed03_lane_b14: 0,
                    ..old(self).lanes
                },
                gates: final(self).gates,
                outbox: final(self).outbox,
                ..*old(self)
            }),
    {
        self.gates.phase4_bootstrap_active = true;
        self.gates.phase4_dump_full_272_count = 0;
        send(self);
    }
}

} // verus!
