//! Connection sequence: subscribes the x1 (`ef:03`), x80 (`ed:03`) and x2 (`f0:03`) lanes in
//! turn and answers each device step; once the `11` ACK came on both x80 and x2, the session
//! is connected and asks for the x1 reconfiguration.
use vstd::prelude::*;
use crate::amorcage::{arm_packet, send_arm_ed};
use crate::bytes::wadd8;
use crate::modes::standard::{head_lane, keep_alive_spec, Standard};
use crate::packet::OutPacket;
use crate::state::{mode_requests_after, BootGates, Counters, HelixState, Mode, ModeRequest, ScrollLanes, SessionFlags};

verus! {

/// Device step of the connection, in the order the mode checks them.
#[derive(PartialEq, Eq, Structural, Clone, Copy, Debug)]
pub enum ConnectIn {
    /// `0c` answer to the x1 subscribe.
    X1Subscribed,
    /// `28` reconfiguration on x1.
    X1Reconfig,
    /// Second reconfiguration ACK on x1 (counter 3).
    X1ReconfigAck,
    /// x1 step 4: start of the x80 subscribe.
    X80Init,
    /// `0c` answer to the x80 subscribe.
    X80Subscribed,
    /// `11` on x80.
    X80Eleven,
    /// `0c` answer to the x2 subscribe.
    X2Subscribed,
    /// `11` on x2.
    X2Eleven,
    /// `54` on x80.
    X80Frame54,
    /// `1f` on x80.
    X80Frame1f,
    KeepAlive,
    Other,
}

/// `0c 00 00 28 <lane> 00 00 00 02 00 01 00 01 00 02 00 00` (20 bytes).
pub open spec fn subscribe_answer(d: Seq<u8>, a: u8, b: u8, c: u8, e: u8) -> bool {
    d.len() >= 20 && d[0] == 0x0c && d[1] == 0x00 && d[2] == 0x00 && d[3] == 0x28 && d[4] == a && d[5] == b
        && d[6] == c && d[7] == e && d[8] == 0x00 && d[9] == 0x00 && d[10] == 0x00 && d[11] == 0x02
        && d[12] == 0x00 && d[13] == 0x01 && d[14] == 0x00 && d[15] == 0x01 && d[16] == 0x00 && d[17] == 0x02
        && d[18] == 0x00 && d[19] == 0x00
}

fn subscribe_answer_exec(d: &[u8], a: u8, b: u8, c: u8, e: u8) -> (r: bool)
    ensures
        r == subscribe_answer(d@, a, b, c, e),
{
    d.len() >= 20 && d[0] == 0x0c && d[1] == 0x00 && d[2] == 0x00 && d[3] == 0x28 && d[4] == a && d[5] == b
        && d[6] == c && d[7] == e && d[8] == 0x00 && d[9] == 0x00 && d[10] == 0x00 && d[11] == 0x02
        && d[12] == 0x00 && d[13] == 0x01 && d[14] == 0x00 && d[15] == 0x01 && d[16] == 0x00 && d[17] == 0x02
        && d[18] == 0x00 && d[19] == 0x00
}

/// `08 00 00 18 ef 03 01 10 00 <k> 00 XX 09 02 00 00` (16 bytes).
pub open spec fn x1_step(d: Seq<u8>, k: u8) -> bool {
    d.len() >= 16 && d[0] == 0x08 && head_lane(d, 0xef, 0x03, 0x01, 0x10) && d[8] == 0x00 && d[9] == k
        && d[10] == 0x00 && d[12] == 0x09 && d[13] == 0x02 && d[14] == 0x00 && d[15] == 0x00
}

fn x1_step_exec(d: &[u8], k: u8) -> (r: bool)
    ensures
        r == x1_step(d@, k),
{
    d.len() >= 16 && d[0] == 0x08 && d[1] == 0x00 && d[2] == 0x00 && d[3] == 0x18 && d[4] == 0xef && d[5] == 0x03
        && d[6] == 0x01 && d[7] == 0x10 && d[8] == 0x00 && d[9] == k && d[10] == 0x00 && d[12] == 0x09
        && d[13] == 0x02 && d[14] == 0x00 && d[15] == 0x00
}

/// Kind of an IN frame during the connection.
pub open spec fn connect_in_spec(connecting: bool, d: Seq<u8>) -> ConnectIn {
    if subscribe_answer(d, 0xef, 0x03, 0x01, 0x10) {
        ConnectIn::X1Subscribed
    } else if d.len() >= 14 && d[0] == 0x28 && head_lane(d, 0xef, 0x03, 0x01, 0x10) && d[8] == 0x00 && d[9] == 0x02
        && d[10] == 0x00 && d[11] == 0x04 && d[12] == 0x09 && d[13] == 0x02 {
        ConnectIn::X1Reconfig
    } else if x1_step(d, 0x03) {
        ConnectIn::X1ReconfigAck
    } else if x1_step(d, 0x04) {
        ConnectIn::X80Init
    } else if subscribe_answer(d, 0xed, 0x03, 0x80, 0x10) {
        ConnectIn::X80Subscribed
    } else if d.len() >= 10 && d[0] == 0x11 && head_lane(d, 0xed, 0x03, 0x80, 0x10) && d[8] == 0x00 && d[9] == 0x02 {
        ConnectIn::X80Eleven
    } else if subscribe_answer(d, 0xf0, 0x03, 0x02, 0x10) {
        ConnectIn::X2Subscribed
    } else if d.len() >= 14 && d[0] == 0x11 && head_lane(d, 0xf0, 0x03, 0x02, 0x10) && d[8] == 0x00 && d[9] == 0x02
        && d[10] == 0x00 && d[11] == 0x04 && d[12] == 0x09 && d[13] == 0x02 {
        ConnectIn::X2Eleven
    } else if d.len() >= 9 && d[0] == 0x54 && head_lane(d, 0xed, 0x03, 0x80, 0x10) && d[8] == 0x00 {
        ConnectIn::X80Frame54
    } else if d.len() >= 9 && d[0] == 0x1f && head_lane(d, 0xed, 0x03, 0x80, 0x10) && d[8] == 0x00 {
        ConnectIn::X80Frame1f
    } else if keep_alive_spec(connecting, d) {
        ConnectIn::KeepAlive
    } else {
        ConnectIn::Other
    }
}

/// Kind of an IN frame during the connection.
pub fn classify_connect_in(connecting: bool, d: &[u8]) -> (r: ConnectIn)
    ensures
        r == connect_in_spec(connecting, d@),
{
    if subscribe_answer_exec(d, 0xef, 0x03, 0x01, 0x10) {
        ConnectIn::X1Subscribed
    } else if d.len() >= 14 && d[0] == 0x28 && d[1] == 0x00 && d[2] == 0x00 && d[3] == 0x18 && d[4] == 0xef
        && d[5] == 0x03 && d[6] == 0x01 && d[7] == 0x10 && d[8] == 0x00 && d[9] == 0x02 && d[10] == 0x00
        && d[11] == 0x04 && d[12] == 0x09 && d[13] == 0x02 {
        ConnectIn::X1Reconfig
    } else if x1_step_exec(d, 0x03) {
        ConnectIn::X1ReconfigAck
    } else if x1_step_exec(d, 0x04) {
        ConnectIn::X80Init
    } else if subscribe_answer_exec(d, 0xed, 0x03, 0x80, 0x10) {
        ConnectIn::X80Subscribed
    } else if d.len() >= 10 && d[0] == 0x11 && d[1] == 0x00 && d[2] == 0x00 && d[3] == 0x18 && d[4] == 0xed
        && d[5] == 0x03 && d[6] == 0x80 && d[7] == 0x10 && d[8] == 0x00 && d[9] == 0x02 {
        ConnectIn::X80Eleven
    } else if subscribe_answer_exec(d, 0xf0, 0x03, 0x02, 0x10) {
        ConnectIn::X2Subscribed
    } else if d.len() >= 14 && d[0] == 0x11 && d[1] == 0x00 && d[2] == 0x00 && d[3] == 0x18 && d[4] == 0xf0
        && d[5] == 0x03 && d[6] == 0x02 && d[7] == 0x10 && d[8] == 0x00 && d[9] == 0x02 && d[10] == 0x00
        && d[11] == 0x04 && d[12] == 0x09 && d[13] == 0x02 {
        ConnectIn::X2Eleven
    } else if d.len() >= 9 && d[0] == 0x54 && d[1] == 0x00 && d[2] == 0x00 && d[3] == 0x18 && d[4] == 0xed
        && d[5] == 0x03 && d[6] == 0x80 && d[7] == 0x10 && d[8] == 0x00 {
        ConnectIn::X80Frame54
    } else if d.len() >= 9 && d[0] == 0x1f && d[1] == 0x00 && d[2] == 0x00 && d[3] == 0x18 && d[4] == 0xed
        && d[5] == 0x03 && d[6] == 0x80 && d[7] == 0x10 && d[8] == 0x00 {
        ConnectIn::X80Frame1f
    } else if Standard::keep_alive(connecting, d) {
        ConnectIn::KeepAlive
    } else {
        ConnectIn::Other
    }
}

/// Subscribe `0c` of a lane (`<a b c d>` = bytes 4-7).
pub open spec fn subscribe_packet(a: u8, b: u8, c: u8, d: u8) -> Seq<u8> {
    seq![0x0cu8, 0x00, 0x00, 0x28, a, b, c, d, 0x00, 0x00, 0x00, 0x02, 0x00, 0x01, 0x00, 0x21, 0x00, 0x10, 0x00, 0x00]
}

/// `11` ACK of a subscribe on a lane, with the lane number `k`.
pub open spec fn eleven_packet(a: u8, b: u8, c: u8, e: u8, cnt: u8, k: u8) -> Seq<u8> {
    seq![
        0x11u8, 0x00, 0x00, 0x18, a, b, c, e, 0x00, cnt, 0x00, 0x04, 0x00, 0x10, 0x00, 0x00,
        0x01, 0x00, k, 0x00, 0x01, 0x00, 0x00, 0x00, k, 0x00, 0x00, 0x00,
    ]
}

/// `08` ACK on x1 (`sub` = byte 11) carrying `20 10`.
pub open spec fn x1_ack_packet(cnt: u8, sub: u8) -> Seq<u8> {
    seq![0x08u8, 0x00, 0x00, 0x18, 0x01, 0x10, 0xef, 0x03, 0x00, cnt, 0x00, sub, 0x20, 0x10, 0x00, 0x00]
}

/// `1c` answer to the x80 frame `54`.
pub open spec fn answer_54(cnt: u8) -> Seq<u8> {
    seq![
        0x1cu8, 0x00, 0x00, 0x18, 0x80, 0x10, 0xed, 0x03, 0x00, cnt, 0x00, 0x0c, 0x55, 0x10, 0x00, 0x00,
        0x01, 0x00, 0x06, 0x00, 0x0c, 0x00, 0x00, 0x00, 0x83, 0x66, 0xcd, 0x03, 0xe9, 0x64, 0x18, 0x65,
        0x81, 0x76, 0xcc, 0x80,
    ]
}

/// `19` answer to the x80 frame `1f`.
pub open spec fn answer_1f(cnt: u8) -> Seq<u8> {
    seq![
        0x19u8, 0x00, 0x00, 0x18, 0x80, 0x10, 0xed, 0x03, 0x00, cnt, 0x00, 0x0c, 0x6c, 0x10, 0x00, 0x00,
        0x01, 0x00, 0x06, 0x00, 0x09, 0x00, 0x00, 0x00, 0x83, 0x66, 0xcd, 0x03, 0xea, 0x64, 0x17, 0x65,
        0xc0, 0x00, 0x00, 0x00,
    ]
}

/// Queues the answer of one connection step.
#[verifier::rlimit(100)]
pub fn answer_connect_step(state: &mut HelixState, k: ConnectIn)
    ensures
        queued(old(state).outbox@, final(state).outbox@, connect_step_packets(*old(state), k)),
        *final(state) == (HelixState {
            counters: connect_step_counters(*old(state), k),
            outbox: final(state).outbox,
            ..*old(state)
        }),
{
    let ghost o0 = state.outbox@;
    match k {
        ConnectIn::X1Subscribed => {
            let cnt = state.next_x1_cnt();
            let p = vec![0x11, 0x00, 0x00, 0x18, 0x01, 0x10, 0xef, 0x03, 0x00, cnt, 0x00, 0x04, 0x00, 0x10, 0x00, 0x00, 0x01, 0x00, 0x05, 0x00, 0x01, 0x00, 0x00, 0x00, 0x05, 0x00, 0x00, 0x00];
            assert(p@ == eleven_packet(0x01, 0x10, 0xef, 0x03, cnt, 0x05));
            state.send(OutPacket::new(p));
        },
        ConnectIn::X1Reconfig => {
            let cnt = state.next_x1_cnt();
            let p = vec![0x08, 0x00, 0x00, 0x18, 0x01, 0x10, 0xef, 0x03, 0x00, cnt, 0x00, 0x08, 0x20, 0x10, 0x00, 0x00];
            assert(p@ == x1_ack_packet(cnt, 0x08));
            state.send(OutPacket::new(p));
        },
        ConnectIn::X1ReconfigAck => {
            let cnt = state.next_x1_cnt();
            let p = vec![0x08, 0x00, 0x00, 0x18, 0x01, 0x10, 0xef, 0x03, 0x00, cnt, 0x00, 0x02, 0x20, 0x10, 0x00, 0x00];
            assert(p@ == x1_ack_packet(cnt, 0x02));
            state.send(OutPacket::new(p));
        },
        ConnectIn::X80Init => {
            let p = vec![0x0c, 0x00, 0x00, 0x28, 0x80, 0x10, 0xed, 0x03, 0x00, 0x00, 0x00, 0x02, 0x00, 0x01, 0x00, 0x21, 0x00, 0x10, 0x00, 0x00];
            assert(p@ == subscribe_packet(0x80, 0x10, 0xed, 0x03));
            state.send(OutPacket::new(p));
        },
        ConnectIn::X80Subscribed => {
            let cnt = state.next_x80_cnt();
            let p = vec![0x11, 0x00, 0x00, 0x18, 0x80, 0x10, 0xed, 0x03, 0x00, cnt, 0x00, 0x04, 0x00, 0x10, 0x00, 0x00, 0x01, 0x00, 0x06, 0x00, 0x01, 0x00, 0x00, 0x00, 0x06, 0x00, 0x00, 0x00];
            assert(p@ == eleven_packet(0x80, 0x10, 0xed, 0x03, cnt, 0x06));
            state.send(OutPacket::new(p));
        },
        ConnectIn::X80Eleven => {
            let p = vec![0x0c, 0x00, 0x00, 0x28, 0x02, 0x10, 0xf0, 0x03, 0x00, 0x00, 0x00, 0x02, 0x00, 0x01, 0x00, 0x21, 0x00, 0x10, 0x00, 0x00];
            assert(p@ == subscribe_packet(0x02, 0x10, 0xf0, 0x03));
            state.send(OutPacket::new(p));
        },
        ConnectIn::X2Subscribed => {
            send_arm_ed(state);
            let ghost o1 = state.outbox@;
            let cnt = state.next_x2_cnt();
            let p = vec![0x11, 0x00, 0x00, 0x18, 0x02, 0x10, 0xf0, 0x03, 0x00, cnt, 0x00, 0x04, 0x00, 0x10, 0x00, 0x00, 0x01, 0x00, 0x04, 0x00, 0x01, 0x00, 0x00, 0x00, 0x04, 0x00, 0x00, 0x00];
            assert(p@ == eleven_packet(0x02, 0x10, 0xf0, 0x03, cnt, 0x04));
            state.send(OutPacket::new(p));
            assert(state.outbox@[o0.len() as int] == o1[o0.len() as int]);
        },
        ConnectIn::X2Eleven => {
            if state.session.f0_arm_early {
                let cnt = state.next_x2_cnt();
                let p = vec![0x08, 0x00, 0x00, 0x18, 0x02, 0x10, 0xf0, 0x03, 0x00, cnt, 0x00, 0x08, 0x09, 0x10, 0x00, 0x00];
                assert(p@ == arm_packet(0x02, 0x10, 0xf0, 0x03, cnt));
                state.send(OutPacket::new(p));
            }
        },
        ConnectIn::X80Frame54 => {
            let cnt = state.counters.x80_cnt;
            let p = vec![
                0x1c, 0x00, 0x00, 0x18, 0x80, 0x10, 0xed, 0x03, 0x00, cnt, 0x00, 0x0c, 0x55, 0x10, 0x00, 0x00,
                0x01, 0x00, 0x06, 0x00, 0x0c, 0x00, 0x00, 0x00, 0x83, 0x66, 0xcd, 0x03, 0xe9, 0x64, 0x18, 0x65,
                0x81, 0x76, 0xcc, 0x80,
            ];
            assert(p@ == answer_54(cnt));
            state.send(OutPacket::new(p));
        },
        ConnectIn::X80Frame1f => {
            let cnt = state.counters.x80_cnt;
            let p = vec![
                0x19, 0x00, 0x00, 0x18, 0x80, 0x10, 0xed, 0x03, 0x00, cnt, 0x00, 0x0c, 0x6c, 0x10, 0x00, 0x00,
                0x01, 0x00, 0x06, 0x00, 0x09, 0x00, 0x00, 0x00, 0x83, 0x66, 0xcd, 0x03, 0xea, 0x64, 0x17, 0x65,
                0xc0, 0x00, 0x00, 0x00,
            ];
            assert(p@ == answer_1f(cnt));
            state.send(OutPacket::new(p));
        },
        _ => {},
    }
    assert(state.outbox@.subrange(0, o0.len() as int) == o0);
}

/// Connection mode: which lanes already answered `11`.
pub struct Connect {
    pub received_x11_on_x2: bool,
    pub received_x11_on_x80: bool,
}

/// Packets that one connection step queues, with the counters it takes.
pub open spec fn connect_step_packets(s: HelixState, k: ConnectIn) -> Seq<Seq<u8>> {
    let c = s.counters;
    match k {
        ConnectIn::X1Subscribed => seq![eleven_packet(0x01, 0x10, 0xef, 0x03, c.x1_cnt, 0x05)],
        ConnectIn::X1Reconfig => seq![x1_ack_packet(c.x1_cnt, 0x08)],
        ConnectIn::X1ReconfigAck => seq![x1_ack_packet(c.x1_cnt, 0x02)],
        ConnectIn::X80Init => seq![subscribe_packet(0x80, 0x10, 0xed, 0x03)],
        ConnectIn::X80Subscribed => seq![eleven_packet(0x80, 0x10, 0xed, 0x03, c.x80_cnt, 0x06)],
        ConnectIn::X80Eleven => seq![subscribe_packet(0x02, 0x10, 0xf0, 0x03)],
        ConnectIn::X2Subscribed => seq![
            arm_packet(0x80, 0x10, 0xed, 0x03, c.x80_cnt),
            eleven_packet(0x02, 0x10, 0xf0, 0x03, c.x2_cnt, 0x04),
        ],
        ConnectIn::X2Eleven => if s.session.f0_arm_early {
            seq![arm_packet(0x02, 0x10, 0xf0, 0x03, c.x2_cnt)]
        } else {
            Seq::empty()
        },
        ConnectIn::X80Frame54 => seq![answer_54(c.x80_cnt)],
        ConnectIn::X80Frame1f => seq![answer_1f(c.x80_cnt)],
        _ => Seq::empty(),
    }
}

/// Counters after one connection step.
pub open spec fn connect_step_counters(s: HelixState, k: ConnectIn) -> Counters {
    let c = s.counters;
    match k {
        ConnectIn::X1Subscribed | ConnectIn::X1Reconfig | ConnectIn::X1ReconfigAck => Counters { x1_cnt: wadd8(c.x1_cnt, 1), ..c },
        ConnectIn::X80Subscribed => Counters { x80_cnt: wadd8(c.x80_cnt, 1), ..c },
        ConnectIn::X2Subscribed => Counters { x80_cnt: wadd8(c.x80_cnt, 1), x2_cnt: wadd8(c.x2_cnt, 1), ..c },
        ConnectIn::X2Eleven => if s.session.f0_arm_early { Counters { x2_cnt: wadd8(c.x2_cnt, 1), ..c } } else { c },
        _ => c,
    }
}

/// The queued packets are `pkts` after the old ones, without delay.
pub open spec fn queued(old_box: Seq<OutPacket>, new_box: Seq<OutPacket>, pkts: Seq<Seq<u8>>) -> bool {
    &&& new_box.len() == old_box.len() + pkts.len()
    &&& new_box.subrange(0, old_box.len() as int) == old_box
    &&& forall|i: int| 0 <= i < pkts.len() ==> #[trigger] new_box[old_box.len() + i].data@ == pkts[i]
        && new_box[old_box.len() + i].delay_ms == 0
}

impl Connect {
    pub fn new() -> (r: Self)
        ensures
            !r.received_x11_on_x2 && !r.received_x11_on_x80,
    {
        Connect { received_x11_on_x2: false, received_x11_on_x80: false }
    }

    /// Starts the connection: the lane counters restart at 2, the bootstrap flags and gates
    /// are cleared and the x1 subscribe is queued.
    pub fn begin(&mut self, state: &mut HelixState)
        ensures
            !final(self).received_x11_on_x2 && !final(self).received_x11_on_x80,
            queued(old(state).outbox@, final(state).outbox@, seq![subscribe_packet(0x01, 0x10, 0xef, 0x03)]),
            *final(state) == (HelixState {
                counters: Counters { x1_cnt: 2, x2_cnt: 2, x80_cnt: 2, ..old(state).counters },
                session: SessionFlags { connecting: true, editor_ready: false, post_arm_sequence_started: false, ..old(state).session },
                scroll: ScrollLanes { firmware_scroll_armed: false, ..old(state).scroll },
                gates: BootGates {
                    post_ef_arm_ack_mask: 0,
                    post_ef_arm_gate_active: false,
                    post_ef_gate_signalled: false,
                    phase4_bootstrap_active: false,
                    phase4_complete_gate_armed: false,
                    phase4_complete_signalled: false,
                    ..old(state).gates
                },
                outbox: final(state).outbox,
                ..*old(state)
            }),
    {
        state.counters.x1_cnt = 0x02;
        state.counters.x2_cnt = 0x02;
        state.counters.x80_cnt = 0x02;
        state.session.connecting = true;
        state.session.editor_ready = false;
        state.scroll.firmware_scroll_armed = false;
        state.session.post_arm_sequence_started = false;
        state.gates.post_ef_arm_ack_mask = 0;
        state.gates.post_ef_arm_gate_active = false;
        state.gates.post_ef_gate_signalled = false;
        state.gates.phase4_bootstrap_active = false;
        state.gates.phase4_complete_gate_armed = false;
        state.gates.phase4_complete_signalled = false;
        self.received_x11_on_x2 = false;
        self.received_x11_on_x80 = false;
        let pkt = vec![0x0c, 0x00, 0x00, 0x28, 0x01, 0x10, 0xef, 0x03, 0x00, 0x00, 0x00, 0x02, 0x00, 0x01, 0x00, 0x21, 0x00, 0x10, 0x00, 0x00];
        assert(pkt@ == subscribe_packet(0x01, 0x10, 0xef, 0x03));
        let ghost o0 = state.outbox@;
        state.send(OutPacket::new(pkt));
        assert(state.outbox@.subrange(0, o0.len() as int) == o0);
    }

    /// Handles one IN frame of the connection. A keep-alive frame is swallowed (`false`).
    /// Any other frame answers its step; once both lanes sent `11`, the session leaves the
    /// connecting phase, is connected and asks for the x1 reconfiguration.
    pub fn handle_in(&mut self, data: &[u8], state: &mut HelixState) -> (r: bool)
        ensures
            ({
                let s = *old(state);
                let k = connect_in_spec(s.session.connecting, data@);
                let x2 = old(self).received_x11_on_x2 || k == ConnectIn::X2Eleven;
                let x80 = old(self).received_x11_on_x80 || k == ConnectIn::X80Eleven;
                if k == ConnectIn::KeepAlive {
                    !r && *final(state) == s && *final(self) == *old(self)
                } else {
                    let s1 = HelixState { counters: connect_step_counters(s, k), ..s };
                    &&& r
                    &&& final(self).received_x11_on_x2 == x2
                    &&& final(self).received_x11_on_x80 == x80
                    &&& queued(s.outbox@, final(state).outbox@, connect_step_packets(s, k))
                    &&& final(state).counters == connect_step_counters(s, k)
                    &&& (x2 && x80) ==> final(state).session == (SessionFlags { connecting: false, connected: true, ..s.session })
                        && final(state).mode_requests@ == mode_requests_after(s1, ModeRequest::ReconfigureX1)
                    &&& !(x2 && x80) ==> final(state).session == s.session && final(state).mode_requests == s.mode_requests
                    &&& *final(state) == (HelixState {
                        counters: final(state).counters,
                        session: final(state).session,
                        outbox: final(state).outbox,
                        mode_requests: final(state).mode_requests,
                        ..s
                    })
                }
            }),
    {
        let k = classify_connect_in(state.session.connecting, data);
        if k == ConnectIn::KeepAlive {
            return false;
        }
        answer_connect_step(state, k);
        if k == ConnectIn::X80Eleven {
            self.received_x11_on_x80 = true;
        }
        if k == ConnectIn::X2Eleven {
            self.received_x11_on_x2 = true;
        }
        if self.received_x11_on_x2 && self.received_x11_on_x80 {
            state.session.connecting = false;
            state.session.connected = true;
            state.switch_mode(ModeRequest::ReconfigureX1);
        }
        true
    }
}

impl Mode for Connect {
    fn start(&mut self, state: &mut HelixState) {
        self.begin(state)
    }

    fn data_in(&mut self, data: &[u8], state: &mut HelixState) -> bool {
        self.handle_in(data, state)
    }

    fn shutdown(&mut self, state: &mut HelixState) {
    }
}

} // verus!
