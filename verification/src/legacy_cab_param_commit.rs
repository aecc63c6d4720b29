//! Parameter commit of a single legacy cab assigned as `cd:03:ff`: `1b` → `f0` → (IN dump) →
//! `19` → (IN `21`) → `19` → `f0` → burst of IN `272` chunks and their ACK echo. There is no
//! OUT `57`: the synchronous burst does not work for this assign.
use vstd::prelude::*;
use crate::amp_cab_live_write::{
    build_legacy_f0_interstitial_packet, build_standalone_legacy_cd03ff_param_1b,
    build_standalone_legacy_cd03ff_param_19, cd03ff_19_spec, cd03ff_1b_spec, legacy_f0_interstitial_spec,
};
use crate::bytes::{wadd16, wadd8};
use crate::packet::OutPacket;
use crate::pipeline::{LayerEffect, LayerResult};
use crate::preset_dump_stream_ack::{
    is_preset_dump_stream_ack_echo_in, is_preset_dump_stream_chunk_in, stream_ack_echo_spec, stream_chunk_spec,
};
use crate::slots::{kempline_index_to_slot_bus, kempline_index_to_slot_bus_spec};
use crate::state::{deadline_after, deadline_from, Counters, HelixState, Transactions};

verus! {

/// Timeout of each step of the commit, in milliseconds.
pub const COMMIT_TIMEOUT_MS: u64 = 800;

/// Delay between the packets of one step, in milliseconds.
pub const INTER_PKT_DELAY_MS: u64 = 8;

/// Step of the commit handshake.
#[derive(PartialEq, Eq, Structural, Clone, Copy, Debug)]
pub enum CommitStep {
    /// `1b` + `f0` sent; waits for the IN dump (`53`, `3c`, `39`, `4e`, `4c`).
    WaitDumpIn,
    /// First `19` sent; waits for the IN `21` stub (44 bytes).
    WaitIn21,
    /// Second `19` + `f0` sent; waits for the end of the `272` burst.
    Await272Done,
}

/// A running `cd:03:ff` parameter commit.
#[derive(Clone, Copy, Debug)]
pub struct StandaloneLegacyParamCommit {
    pub slot_index: u32,
    pub slot_bus: u8,
    pub assign_block: [u8; 16],
    pub param_selector: u8,
    pub step: CommitStep,
    /// Clock value at which the current step gives up.
    pub deadline: u64,
    pub saw_272: bool,
}

pub open spec fn commit_dump_in_spec(data: Seq<u8>) -> bool {
    data.len() >= 36 && data[4] == 0xed && data[5] == 0x03 && data[6] == 0x80 && data[7] == 0x10
        && (data[0] == 0x53 || data[0] == 0x3c || data[0] == 0x39 || data[0] == 0x4e || data[0] == 0x4c)
}

pub open spec fn commit_in21_spec(data: Seq<u8>) -> bool {
    data.len() == 44 && data[0] == 0x21
}

/// IN dump that answers the opening `1b`.
pub fn is_legacy_commit_dump_in(data: &[u8]) -> (r: bool)
    ensures
        r == commit_dump_in_spec(data@),
{
    if data.len() < 36 {
        return false;
    }
    if !(data[4] == 0xed && data[5] == 0x03 && data[6] == 0x80 && data[7] == 0x10) {
        return false;
    }
    let h = data[0];
    h == 0x53 || h == 0x3c || h == 0x39 || h == 0x4e || h == 0x4c
}

/// IN `21` stub (44 bytes) that answers the first `19`.
pub fn is_legacy_commit_in21_stub(data: &[u8]) -> (r: bool)
    ensures
        r == commit_in21_spec(data@),
{
    data.len() == 44 && data[0] == 0x21
}

/// The outbox gained `pkt` with a delay of `delay` after the packets of `old`.
pub open spec fn queued_one(old_box: Seq<OutPacket>, new_box: Seq<OutPacket>, pkt: Seq<u8>, delay: u64) -> bool {
    &&& new_box.len() == old_box.len() + 1
    &&& new_box.drop_last() == old_box
    &&& new_box.last().data@ == pkt
    &&& new_box.last().delay_ms == delay
    &&& new_box.last().tail_burst@.len() == 0
}

/// Starts a live write of a single legacy cab assigned as `cd:03:ff`: records the commit
/// (a running one is dropped) and queues `1b` then `f0`. Fails on a slot index out of the grid.
pub fn start_standalone_legacy_cd03ff_write(
    state: &mut HelixState,
    slot_index: u32,
    assign_block: [u8; 16],
    param_selector: u8,
) -> (r: Result<(), String>)
    ensures
        ({
            let s = *old(state);
            match kempline_index_to_slot_bus_spec(slot_index as int) {
                None => (r matches Err(e) && e@ == "slotIndex invalide"@) && *final(state) == s,
                Some(bus) => {
                    &&& r is Ok
                    &&& final(state).tx == (Transactions {
                        standalone_legacy_param_commit: Some(StandaloneLegacyParamCommit {
                            slot_index,
                            slot_bus: bus,
                            assign_block,
                            param_selector,
                            step: CommitStep::WaitDumpIn,
                            deadline: deadline_after(s.now_ms, 800),
                            saw_272: false,
                        }),
                        ..s.tx
                    })
                    &&& final(state).outbox@.len() == s.outbox@.len() + 2
                    &&& queued_one(s.outbox@, final(state).outbox@.drop_last(),
                        cd03ff_1b_spec(s.counters.x80_cnt, s.counters.live_write_ctr, assign_block@, bus), 0)
                    &&& queued_one(final(state).outbox@.drop_last(), final(state).outbox@,
                        legacy_f0_interstitial_spec(s.counters.x2_cnt, s.scroll.firmware_scroll_ack_ctr), 8)
                    &&& final(state).counters == (Counters {
                        x80_cnt: wadd8(s.counters.x80_cnt, 1),
                        x2_cnt: wadd8(s.counters.x2_cnt, 1),
                        live_write_ctr: wadd16(s.counters.live_write_ctr, 0x4b),
                        ..s.counters
                    })
                    &&& *final(state) == (HelixState {
                        counters: final(state).counters,
                        tx: final(state).tx,
                        outbox: final(state).outbox,
                        ..s
                    })
                },
            }
        }),
{
    let slot_bus = match kempline_index_to_slot_bus(slot_index as usize) {
        Some(b) => b,
        None => return Err(crate::text::text_of("slotIndex invalide")),
    };
    let deadline = deadline_from(state.now_ms, COMMIT_TIMEOUT_MS);
    state.tx.standalone_legacy_param_commit = Some(StandaloneLegacyParamCommit {
        slot_index,
        slot_bus,
        assign_block,
        param_selector,
        step: CommitStep::WaitDumpIn,
        deadline,
        saw_272: false,
    });
    let pkt1b = build_standalone_legacy_cd03ff_param_1b(state, assign_block, slot_bus);
    let pkt_f0 = build_legacy_f0_interstitial_packet(state);
    let ghost o0 = state.outbox@;
    state.send(OutPacket::new(pkt1b));
    let ghost o1 = state.outbox@;
    state.send(OutPacket::with_delay(pkt_f0, INTER_PKT_DELAY_MS));
    assert(state.outbox@.drop_last() == o1);
    assert(o1.drop_last() == o0);
    Ok(())
}

/// Ends the running commit, if any.
pub fn finish_commit(state: &mut HelixState)
    ensures
        *final(state) == (HelixState {
            tx: Transactions { standalone_legacy_param_commit: None, ..old(state).tx },
            ..*old(state)
        }),
{
    state.tx.standalone_legacy_param_commit = None;
}

/// The commit after an IN frame at clock `now`: `None` once ended.
pub open spec fn commit_after_in(c: StandaloneLegacyParamCommit, now: u64, data: Seq<u8>) -> Option<StandaloneLegacyParamCommit> {
    if now >= c.deadline {
        None
    } else {
        match c.step {
            CommitStep::WaitDumpIn => if commit_dump_in_spec(data) {
                Some(StandaloneLegacyParamCommit { step: CommitStep::WaitIn21, deadline: deadline_after(now, 800), ..c })
            } else {
                Some(c)
            },
            CommitStep::WaitIn21 => if commit_in21_spec(data) {
                Some(StandaloneLegacyParamCommit { step: CommitStep::Await272Done, deadline: deadline_after(now, 800), ..c })
            } else {
                Some(c)
            },
            CommitStep::Await272Done => if stream_chunk_spec(data) {
                Some(StandaloneLegacyParamCommit { saw_272: true, deadline: deadline_after(now, 800), ..c })
            } else if c.saw_272 && stream_ack_echo_spec(data) {
                None
            } else {
                Some(c)
            },
        }
    }
}

/// The IN frame moves the handshake to the next step (and the layer consumes it).
pub open spec fn commit_step_sends(c: StandaloneLegacyParamCommit, now: u64, data: Seq<u8>) -> bool {
    now < c.deadline && ((c.step == CommitStep::WaitDumpIn && commit_dump_in_spec(data)) || (c.step
        == CommitStep::WaitIn21 && commit_in21_spec(data)))
}

/// Rank of a step in the handshake.
pub open spec fn step_rank(step: CommitStep) -> int {
    match step {
        CommitStep::WaitDumpIn => 0,
        CommitStep::WaitIn21 => 1,
        CommitStep::Await272Done => 2,
    }
}

/// The handshake only moves forward, one step per IN frame, and keeps the slot, its bus, the
/// assign block and the parameter it commits; a move or a `272` chunk gives the step a fresh
/// timeout from now. Before its deadline a commit ends only on the ACK echo after a `272`
/// chunk, and a commit past its deadline ends on any frame.
pub proof fn law_commit_moves_forward(c: StandaloneLegacyParamCommit, now: u64, data: Seq<u8>)
    ensures
        commit_after_in(c, now, data) matches Some(n) ==> {
            &&& now < c.deadline
            &&& step_rank(c.step) <= step_rank(n.step) <= step_rank(c.step) + 1
            &&& n.slot_index == c.slot_index && n.slot_bus == c.slot_bus
            &&& n.assign_block == c.assign_block && n.param_selector == c.param_selector
            &&& n.step != c.step ==> n.deadline == deadline_after(now, COMMIT_TIMEOUT_MS)
                && n.deadline >= now
            &&& c.saw_272 ==> n.saw_272
        },
        commit_after_in(c, now, data) is None ==> now >= c.deadline || (c.step == CommitStep::Await272Done
            && c.saw_272 && stream_ack_echo_spec(data)),
        now >= c.deadline ==> commit_after_in(c, now, data) is None,
        commit_step_sends(c, now, data) ==> (commit_after_in(c, now, data) matches Some(n)
            && step_rank(n.step) == step_rank(c.step) + 1),
{
}

/// IN layer of the commit: moves the handshake on when a commit is running. The dump moves
/// it to the first `19`, the `21` stub to the second `19` + `f0` (both frames are consumed);
/// `272` chunks push the deadline, and their ACK echo ends the commit; a passed deadline
/// ends it too.
pub fn handle_in_layer(state: &mut HelixState, data: &[u8]) -> (r: LayerResult)
    ensures
        ({
            let s = *old(state);
            match s.tx.standalone_legacy_param_commit {
                None => r == LayerResult::Ignored && *final(state) == s,
                Some(c) => {
                    &&& final(state).tx == (Transactions {
                        standalone_legacy_param_commit: commit_after_in(c, s.now_ms, data@),
                        ..s.tx
                    })
                    &&& r == if commit_step_sends(c, s.now_ms, data@) {
                        LayerResult::Consumed { effect: LayerEffect::Nothing }
                    } else {
                        LayerResult::Ignored
                    }
                    &&& (now_before_and_step(c, s.now_ms, data@, CommitStep::WaitDumpIn) ==> {
                        &&& queued_one(s.outbox@, final(state).outbox@,
                            cd03ff_19_spec(s.counters.x80_cnt, s.counters.live_write_ctr, c.assign_block@, c.param_selector, false), 8)
                        &&& final(state).counters == (Counters {
                            x80_cnt: wadd8(s.counters.x80_cnt, 1),
                            live_write_ctr: wadd16(s.counters.live_write_ctr, 0x31),
                            ..s.counters
                        })
                    })
                    &&& (now_before_and_step(c, s.now_ms, data@, CommitStep::WaitIn21) ==> {
                        &&& final(state).outbox@.len() == s.outbox@.len() + 2
                        &&& queued_one(s.outbox@, final(state).outbox@.drop_last(),
                            cd03ff_19_spec(s.counters.x80_cnt, s.counters.live_write_ctr, c.assign_block@, c.param_selector, true), 8)
                        &&& queued_one(final(state).outbox@.drop_last(), final(state).outbox@,
                            legacy_f0_interstitial_spec(s.counters.x2_cnt, s.scroll.firmware_scroll_ack_ctr), 8)
                        &&& final(state).counters == (Counters {
                            x80_cnt: wadd8(s.counters.x80_cnt, 1),
                            x2_cnt: wadd8(s.counters.x2_cnt, 1),
                            live_write_ctr: wadd16(s.counters.live_write_ctr, 0x31),
                            ..s.counters
                        })
                    })
                    &&& !commit_step_sends(c, s.now_ms, data@) ==> final(state).outbox == s.outbox
                        && final(state).counters == s.counters
                    &&& *final(state) == (HelixState {
                        counters: final(state).counters,
                        tx: final(state).tx,
                        outbox: final(state).outbox,
                        ..s
                    })
                },
            }
        }),
{
    let c = match state.tx.standalone_legacy_param_commit {
        None => return LayerResult::Ignored,
        Some(c) => c,
    };
    if state.now_ms >= c.deadline {
        finish_commit(state);
        return LayerResult::Ignored;
    }
    let next_deadline = deadline_from(state.now_ms, COMMIT_TIMEOUT_MS);
    match c.step {
        CommitStep::WaitDumpIn => {
            if is_legacy_commit_dump_in(data) {
                state.tx.standalone_legacy_param_commit = Some(StandaloneLegacyParamCommit {
                    step: CommitStep::WaitIn21,
                    deadline: next_deadline,
                    ..c
                });
                let pkt = build_standalone_legacy_cd03ff_param_19(state, c.assign_block, c.param_selector, false);
                let ghost o0 = state.outbox@;
                state.send(OutPacket::with_delay(pkt, INTER_PKT_DELAY_MS));
                assert(state.outbox@.drop_last() == o0);
                return LayerResult::Consumed { effect: LayerEffect::Nothing };
            }
        },
        CommitStep::WaitIn21 => {
            if is_legacy_commit_in21_stub(data) {
                state.tx.standalone_legacy_param_commit = Some(StandaloneLegacyParamCommit {
                    step: CommitStep::Await272Done,
                    deadline: next_deadline,
                    ..c
                });
                let pkt19 = build_standalone_legacy_cd03ff_param_19(state, c.assign_block, c.param_selector, true);
                let pkt_f0 = build_legacy_f0_interstitial_packet(state);
                let ghost o0 = state.outbox@;
                state.send(OutPacket::with_delay(pkt19, INTER_PKT_DELAY_MS));
                let ghost o1 = state.outbox@;
                state.send(OutPacket::with_delay(pkt_f0, INTER_PKT_DELAY_MS));
                assert(state.outbox@.drop_last() == o1);
                assert(o1.drop_last() == o0);
                return LayerResult::Consumed { effect: LayerEffect::Nothing };
            }
        },
        CommitStep::Await272Done => {
            if is_preset_dump_stream_chunk_in(data) {
                state.tx.standalone_legacy_param_commit = Some(StandaloneLegacyParamCommit {
                    saw_272: true,
                    deadline: next_deadline,
                    ..c
                });
                return LayerResult::Ignored;
            }
            if c.saw_272 && is_preset_dump_stream_ack_echo_in(data) {
                finish_commit(state);
                return LayerResult::Ignored;
            }
        },
    }
    LayerResult::Ignored
}

/// Before the deadline, at step `step`, with the frame that moves that step on.
pub open spec fn now_before_and_step(c: StandaloneLegacyParamCommit, now: u64, data: Seq<u8>, step: CommitStep) -> bool {
    now < c.deadline && c.step == step && (match step {
        CommitStep::WaitDumpIn => commit_dump_in_spec(data),
        CommitStep::WaitIn21 => commit_in21_spec(data),
        CommitStep::Await272Done => false,
    })
}

/// A commit whose deadline passed ends, unless it still waits for its first `272` chunk.
pub open spec fn commit_expired(c: StandaloneLegacyParamCommit, now: u64) -> bool {
    now >= c.deadline && (c.step != CommitStep::Await272Done || c.saw_272)
}

/// Ends a stuck commit (called on every IN frame).
pub fn tick_commit_timeouts(state: &mut HelixState)
    ensures
        (old(state).tx.standalone_legacy_param_commit matches Some(c) && commit_expired(c, old(state).now_ms))
            ==> *final(state) == (HelixState {
            tx: Transactions { standalone_legacy_param_commit: None, ..old(state).tx },
            ..*old(state)
        }),
        !(old(state).tx.standalone_legacy_param_commit matches Some(c) && commit_expired(c, old(state).now_ms))
            ==> *final(state) == *old(state),
{
    let done = match &state.tx.standalone_legacy_param_commit {
        Some(c) => state.now_ms >= c.deadline && (c.step != CommitStep::Await272Done || c.saw_272),
        None => false,
    };
    if done {
        finish_commit(state);
    }
}

} // verus!
