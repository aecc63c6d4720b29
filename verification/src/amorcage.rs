//! USB bootstrap arming: `ARM_ed` after the x2 init reply, `ARM_f0` at the end of the x1
//! reconfiguration, `ARM_ef` right after it, then the post-ARM_ef gate, phase 4 and the
//! settle window (the waits themselves belong to the caller).
use vstd::prelude::*;
use crate::bytes::wadd8;
use crate::packet::OutPacket;
use crate::state::{EditorLanes, 
    deadline_after, deadline_from, BootGates, Counters, HelixState, KeepAliveCommand, ModeRequest,
    ScrollLanes, SessionFlags, POST_PHASE4_SETTLE_MS, SCROLL_LANE_BOOT,
};

verus! {

/// `ARM_ef` follows `ARM_f0` by about 16 ms on the HX Edit wire.
pub const ARM_EF_DELAY_AFTER_F0_MS: u64 = 16;
/// First phase-4 OUT about 235 ms after `ARM_f0`.
pub const PHASE4_DELAY_AFTER_ARM_F0_MS: u64 = 235;
/// About 200 ms of host silence once the post-`ARM_ef` ACKs are in, before phase 4.
pub const PHASE4_DELAY_AFTER_GATE_MS: u64 = 200;

/// ARM packet on lane `a b c d` (bytes 4-7) with trailer `09 10`.
pub open spec fn arm_packet(a: u8, b: u8, c: u8, d: u8, cnt: u8) -> Seq<u8> {
    seq![0x08u8, 0x00, 0x00, 0x18, a, b, c, d, 0x00, cnt, 0x00, 0x08, 0x09, 0x10, 0x00, 0x00]
}

fn arm_packet_ed(cnt: u8) -> (r: Vec<u8>)
    ensures
        r@ == arm_packet(0x80, 0x10, 0xed, 0x03, cnt),
{
    vec![0x08, 0x00, 0x00, 0x18, 0x80, 0x10, 0xed, 0x03, 0x00, cnt, 0x00, 0x08, 0x09, 0x10, 0x00, 0x00]
}

fn arm_packet_f0(cnt: u8) -> (r: Vec<u8>)
    ensures
        r@ == arm_packet(0x02, 0x10, 0xf0, 0x03, cnt),
{
    vec![0x08, 0x00, 0x00, 0x18, 0x02, 0x10, 0xf0, 0x03, 0x00, cnt, 0x00, 0x08, 0x09, 0x10, 0x00, 0x00]
}

fn arm_packet_ef(cnt: u8) -> (r: Vec<u8>)
    ensures
        r@ == arm_packet(0x01, 0x10, 0xef, 0x03, cnt),
{
    vec![0x08, 0x00, 0x00, 0x18, 0x01, 0x10, 0xef, 0x03, 0x00, cnt, 0x00, 0x08, 0x09, 0x10, 0x00, 0x00]
}

/// `ARM_ed` on the x80 lane.
pub fn send_arm_ed(state: &mut HelixState)
    ensures
        final(state).outbox@.len() == old(state).outbox@.len() + 1,
        final(state).outbox@.drop_last() == old(state).outbox@,
        final(state).outbox@.last().data@ == arm_packet(0x80, 0x10, 0xed, 0x03, old(state).counters.x80_cnt),
        final(state).outbox@.last().delay_ms == 0,
        *final(state) == (HelixState {
            counters: Counters { x80_cnt: wadd8(old(state).counters.x80_cnt, 1), ..old(state).counters },
            outbox: final(state).outbox,
            ..*old(state)
        }),
{
    let cnt = state.next_x80_cnt();
    state.send(OutPacket::new(arm_packet_ed(cnt)));
}

/// `ARM_f0` on the x2 lane; the background scroll lane is re-armed on its boot value.
pub fn send_arm_f0(state: &mut HelixState)
    ensures
        final(state).outbox@.len() == old(state).outbox@.len() + 1,
        final(state).outbox@.drop_last() == old(state).outbox@,
        final(state).outbox@.last().data@ == arm_packet(0x02, 0x10, 0xf0, 0x03, old(state).counters.x2_cnt),
        final(state).outbox@.last().delay_ms == 0,
        *final(state) == (HelixState {
            counters: Counters { x2_cnt: wadd8(old(state).counters.x2_cnt, 1), ..old(state).counters },
            scroll: ScrollLanes {
                firmware_scroll_ack_ctr: SCROLL_LANE_BOOT,
                firmware_scroll_ack_prev: None,
                firmware_scroll_skip_inc_once: false,
                firmware_scroll_armed: true,
                ..old(state).scroll
            },
            outbox: final(state).outbox,
            ..*old(state)
        }),
{
    state.scroll.firmware_scroll_armed = false;
    let cnt = state.next_x2_cnt();
    state.send(OutPacket::new(arm_packet_f0(cnt)));
    state.note_firmware_scroll_bootstrap_sent();
}

/// `ARM_ef` on the x1 lane, delayed by `ARM_EF_DELAY_AFTER_F0_MS`.
pub fn send_arm_ef(state: &mut HelixState)
    ensures
        final(state).outbox@.len() == old(state).outbox@.len() + 1,
        final(state).outbox@.drop_last() == old(state).outbox@,
        final(state).outbox@.last().data@ == arm_packet(0x01, 0x10, 0xef, 0x03, old(state).counters.x1_cnt),
        final(state).outbox@.last().delay_ms == ARM_EF_DELAY_AFTER_F0_MS,
        *final(state) == (HelixState {
            counters: Counters { x1_cnt: wadd8(old(state).counters.x1_cnt, 1), ..old(state).counters },
            outbox: final(state).outbox,
            ..*old(state)
        }),
{
    let cnt = state.next_x1_cnt();
    state.send(OutPacket::with_delay(arm_packet_ef(cnt), ARM_EF_DELAY_AFTER_F0_MS));
}

/// End of the ARM sequence: (`ARM_f0` when `send_f0`), `ARM_ef`, both gates armed, then
/// the request to wait for the post-bootstrap settle.
pub fn finish_usb_bootstrap(state: &mut HelixState, send_f0: bool)
    ensures
        final(state).outbox@.len() == old(state).outbox@.len() + if send_f0 { 2int } else { 1int },
        final(state).outbox@.last().data@ == arm_packet(
            0x01,
            0x10,
            0xef,
            0x03,
            old(state).counters.x1_cnt,
        ),
        send_f0 ==> final(state).outbox@[old(state).outbox@.len() as int].data@ == arm_packet(
            0x02,
            0x10,
            0xf0,
            0x03,
            old(state).counters.x2_cnt,
        ),
        final(state).gates == (BootGates {
            post_ef_arm_ack_mask: 0,
            post_ef_arm_gate_active: true,
            post_ef_gate_signalled: false,
            phase4_bootstrap_active: false,
            phase4_complete_gate_armed: true,
            phase4_complete_signalled: false,
            ..old(state).gates
        }),
        final(state).mode_requests@ == old(state).mode_requests@.push(ModeRequest::AwaitPostBootstrapSettle),
{
    if send_f0 {
        send_arm_f0(state);
    }
    send_arm_ef(state);
    state.arm_post_ef_gate();
    state.arm_phase4_complete_gate();
    state.switch_mode(ModeRequest::AwaitPostBootstrapSettle);
}

/// Longest wait for the phase-4 trailer before the settle starts anyway, in milliseconds.
pub const PHASE4_COMPLETE_TIMEOUT_MS: u64 = 3500;

/// Where the phase-4 bootstrap and the settle after it stand, on the session clock.
#[derive(PartialEq, Eq, Structural, Clone, Copy, Debug)]
pub enum Phase4Settle {
    /// Phase-4 requests sent; the trailer is awaited until the deadline.
    AwaitTrailer(u64),
    /// Settle window open until the deadline.
    Settling(u64),
    /// Editor ready, keep-alive started.
    Ready,
    /// The device went away.
    Aborted,
}

/// Starts phase 4 when the device is connected: its requests go out and the trailer is awaited
/// until `PHASE4_COMPLETE_TIMEOUT_MS` from now.
pub fn begin_phase4_then_settle(state: &mut HelixState) -> (r: Phase4Settle)
    ensures
        !old(state).session.connected ==> r == Phase4Settle::Aborted && *final(state) == *old(state),
        old(state).session.connected ==> {
            &&& r == Phase4Settle::AwaitTrailer(deadline_after(old(state).now_ms, PHASE4_COMPLETE_TIMEOUT_MS))
            &&& final(state).gates == (BootGates {
                phase4_bootstrap_active: true,
                phase4_dump_full_272_count: 0,
                ..old(state).gates
            })
            &&& final(state).outbox@.len() == old(state).outbox@.len() + 4
            &&& final(state).outbox@.subrange(0, old(state).outbox@.len() as int) == old(state).outbox@
            &&& forall|k: int| 0 <= k < 4 ==> (#[trigger] final(state).outbox@[old(state).outbox@.len() + k]).data@
                == crate::editor_phase4_bootstrap::phase4_requests(old(state).counters.x80_cnt)[k]
                && final(state).outbox@[old(state).outbox@.len() + k].delay_ms == crate::editor_phase4_bootstrap::INTER_PACKET_DELAY_MS
            &&& *final(state) == (HelixState {
                counters: Counters { x80_cnt: wadd8(old(state).counters.x80_cnt, 4), ..old(state).counters },
                lanes: EditorLanes {
                    editor_ed03_double: 0x64eb,
                    editor_ed03_lane: 0x109d,
                    editor_ed03_lane_b14: 0,
                    ..old(state).lanes
                },
                gates: final(state).gates,
                outbox: final(state).outbox,
                ..*old(state)
            })
        },
{
    if !state.session.connected {
        return Phase4Settle::Aborted;
    }
    let now = state.now_ms;
    state.start_phase4_bootstrap();
    Phase4Settle::AwaitTrailer(deadline_from(now, PHASE4_COMPLETE_TIMEOUT_MS))
}

/// The state once the settle window opened at `s.now_ms`.
pub open spec fn settle_opened(s: HelixState) -> HelixState {
    HelixState {
        session: SessionFlags {
            init_usb_settle_until: Some(deadline_after(s.now_ms, POST_PHASE4_SETTLE_MS)),
            ..s.session
        },
        ..s
    }
}

/// One step of the phase-4 settle at the current clock: the trailer (or the timeout, which
/// ends phase 4) opens the settle window; once it has passed, the editor is ready, the window
/// closed and the ordered keep-alive started. A disconnection aborts.
pub fn phase4_settle_step(step: Phase4Settle, state: &mut HelixState) -> (r: Phase4Settle)
    ensures
        ({
            let s = *old(state);
            match step {
                Phase4Settle::AwaitTrailer(d) => {
                    let signalled = s.gates.phase4_complete_signalled;
                    let timed_out = !signalled && s.now_ms >= d;
                    let s1 = if timed_out {
                        HelixState { gates: BootGates { phase4_bootstrap_active: false, ..s.gates }, ..s }
                    } else {
                        s
                    };
                    &&& !signalled && !timed_out ==> r == step && *final(state) == s
                    &&& (signalled || timed_out) && !s.session.connected ==> r == Phase4Settle::Aborted && *final(state) == s1
                    &&& (signalled || timed_out) && s.session.connected ==> r == Phase4Settle::Settling(
                        deadline_after(s.now_ms, POST_PHASE4_SETTLE_MS)) && *final(state) == settle_opened(s1)
                },
                Phase4Settle::Settling(u) => {
                    &&& s.now_ms < u ==> r == step && *final(state) == s
                    &&& s.now_ms >= u && !s.session.connected ==> r == Phase4Settle::Aborted && *final(state) == s
                    &&& s.now_ms >= u && s.session.connected ==> {
                        &&& r == Phase4Settle::Ready
                        &&& final(state).keepalive_commands@ == s.keepalive_commands@.push(KeepAliveCommand::StartOrdered)
                        &&& *final(state) == (HelixState {
                            session: SessionFlags { editor_ready: true, init_usb_settle_until: None, ..s.session },
                            keepalive_commands: final(state).keepalive_commands,
                            ..s
                        })
                    }
                },
                _ => r == step && *final(state) == s,
            }
        }),
{
    match step {
        Phase4Settle::AwaitTrailer(d) => {
            let signalled = state.gates.phase4_complete_signalled;
            if !signalled && state.now_ms < d {
                return step;
            }
            if !signalled {
                state.gates.phase4_bootstrap_active = false;
            }
            if !state.session.connected {
                return Phase4Settle::Aborted;
            }
            let now = state.now_ms;
            state.begin_init_usb_settle();
            Phase4Settle::Settling(deadline_from(now, POST_PHASE4_SETTLE_MS))
        },
        Phase4Settle::Settling(u) => {
            if state.now_ms < u {
                return step;
            }
            if !state.session.connected {
                return Phase4Settle::Aborted;
            }
            state.session.editor_ready = true;
            state.end_init_usb_settle();
            state.start_keepalive(KeepAliveCommand::StartOrdered);
            Phase4Settle::Ready
        },
        _ => step,
    }
}

} // verus!
