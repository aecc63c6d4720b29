//! Read of the active preset body, two-phase `ed:03` protocol: phase 1 (sub=`04`, byte 30 =
//! `17`), phase 2 (sub=`0c`, byte 30 = `16`) on the phase 1 answer, then a stream of 272-byte
//! chunks, each ACKed, ended by a partial chunk, a fin-de-transfert frame `a1`, or the `sub=08`
//! echo after a burst of full chunks once nothing follows it.
//!
//! Watchdogs are clock deadlines: `tick` checks them and asks for the next mode.
use vstd::prelude::*;
use crate::bytes::{hi8, lo8, wadd8};
use crate::modes::connect::queued;
use crate::modes::standard::{keep_alive_spec, led_ack, standard_outcome, x2_ack, Standard};
use crate::packet::OutPacket;
use crate::preset_dump_stream_ack::{is_preset_dump_stream_chunk_in, stream_chunk_spec};
use crate::state::{
    deadline_after, deadline_from, quadruple_plus_x11, session_no_from, session_no_from_spec, Counters, EditorLanes, HelixState, Mode,
    ModeRequest, PresetRead, SlotTracking, EDITOR_ED03_LANE_CMD_DELTA, PRESET_ED03_TRANSACTION_FIRST,
};

verus! {

/// Watchdog of a read transaction (phases and chunks), in milliseconds.
pub const WATCHDOG_MS: u64 = 2000;

/// Default confirmation window of the end of a dump after a `sub=08` echo, in milliseconds.
pub const DUMP_END_CONFIRM_MS: u64 = 150;

/// Preset body read.
pub struct RequestPreset {
    pub preset_data: Vec<u8>,
    /// Phase 1 sent, its answer awaited.
    pub waiting_phase1_response: bool,
    /// Bytes 12-13 of the last chunk ACK (for the fin-de-transfert ACK).
    pub last_ack_lane: [u8; 2],
    /// Watchdog deadline and the mode it asks for when it passes.
    pub watchdog: Option<(u64, ModeRequest)>,
    /// The last chunk was a full 272-byte one: the end comes as an IN `sub=08` echo.
    pub await_dump_end_after_full_chunk: bool,
    /// At least one full 272-byte chunk came.
    pub saw_full_272_chunk: bool,
    /// A `sub=08` echo came after a burst; the end waits for the confirmation window.
    pub dump_end_pending: bool,
    /// Confirmation window of the dump end (0: the echo ends the dump at once).
    pub dump_end_confirm_ms: u64,
}

/// Mode asked for at the end of the read: back to the preset read caller for a content-only
/// read, else the standard mode.
pub open spec fn next_mode_spec(s: HelixState) -> ModeRequest {
    if s.preset.preset_content_only {
        ModeRequest::StandardPresetRead(s.preset.preset_read_generation)
    } else {
        ModeRequest::Standard
    }
}

/// Phase 1 request.
pub open spec fn phase1_packet(cnt: u8, sess: u8, d0: u8, d1: u8, cmd_type: u8, sess_id: u8) -> Seq<u8> {
    seq![
        0x19u8, 0x00, 0x00, 0x18, 0x80, 0x10, 0xed, 0x03, 0x00, cnt, 0x00, 0x04, sess, d0, d1, 0x00,
        0x01, 0x00, 0x06, 0x00, 0x09, 0x00, 0x00, 0x00, 0x83, 0x66, 0xcd, cmd_type, sess_id, 0x64, 0x17, 0x65,
        0xc0, 0x00, 0x00, 0x00,
    ]
}

/// Phase 2 request: bytes 12-14 and 28-29 depend on the ACK lane choice.
pub open spec fn phase2_packet(cnt: u8, b12: u8, b13: u8, b14: u8, cmd_type: u8, b28: u8, b29: u8) -> Seq<u8> {
    seq![
        0x19u8, 0x00, 0x00, 0x18, 0x80, 0x10, 0xed, 0x03, 0x00, cnt, 0x00, 0x0c, b12, b13, b14, 0x00,
        0x01, 0x00, 0x06, 0x00, 0x09, 0x00, 0x00, 0x00, 0x83, 0x66, 0xcd, cmd_type, b28, b29, 0x16, 0x65,
        0xc0, 0x00, 0x00, 0x00,
    ]
}

/// `ed:03` ACK `08` with bytes 12-15.
pub open spec fn ed_ack08(cnt: u8, b12: u8, b13: u8, b14: u8, b15: u8) -> Seq<u8> {
    seq![0x08u8, 0x00, 0x00, 0x18, 0x80, 0x10, 0xed, 0x03, 0x00, cnt, 0x00, 0x08, b12, b13, b14, b15]
}

/// `XX XX 00 18 ed 03 80 10 00 XX 00 XX XX XX 00 00`.
pub open spec fn ed03_header(d: Seq<u8>) -> bool {
    d.len() >= 16 && d[2] == 0x00 && d[3] == 0x18 && d[4] == 0xed && d[5] == 0x03 && d[6] == 0x80 && d[7] == 0x10
        && d[8] == 0x00 && d[10] == 0x00 && d[14] == 0x00 && d[15] == 0x00
}

/// Kind of an IN frame during the preset read, in the order the mode checks them.
#[derive(PartialEq, Eq, Structural, Clone, Copy, Debug)]
pub enum PresetIn {
    KeepAlive,
    /// x2 frame during a content-only read.
    X2ContentOnly,
    /// Frame for the standard mode (x2 frame, or any lane other than x80).
    ToStandard,
    /// x80 frame without the `ed:03` header.
    NotEd03,
    LedColor,
    DumpEndEcho,
    Phase1Response,
    /// Other frame while phase 1 is awaited.
    Phase1Wait,
    FinDeTransfert,
    Chunk,
    /// Idle `sub=10` while the dump end is pending.
    IdleConfirm,
    Other,
}

/// Kind of an IN frame during the preset read.
pub open spec fn preset_in_spec(m: RequestPreset, s: HelixState, d: Seq<u8>) -> PresetIn {
    if keep_alive_spec(s.session.connecting, d) {
        PresetIn::KeepAlive
    } else if d.len() > 6 && d[6] == 0x02 {
        if s.preset.preset_content_only { PresetIn::X2ContentOnly } else { PresetIn::ToStandard }
    } else if d.len() > 6 && d[6] != 0x80 {
        PresetIn::ToStandard
    } else if !ed03_header(d) {
        PresetIn::NotEd03
    } else if d[11] == 0x04 && d.len() == 16 {
        PresetIn::LedColor
    } else if !m.waiting_phase1_response && m.await_dump_end_after_full_chunk && d[11] == 0x08 && d.len() == 16
        && m.preset_data@.len() > 0 {
        PresetIn::DumpEndEcho
    } else if m.waiting_phase1_response {
        if d[11] == 0x04 && d.len() >= 36 { PresetIn::Phase1Response } else { PresetIn::Phase1Wait }
    } else if d.len() == 32 && d[11] == 0x04 && d[16] == 0xa1 {
        PresetIn::FinDeTransfert
    } else if d[11] == 0x04 && stream_chunk_spec(d) {
        PresetIn::Chunk
    } else if d[11] == 0x10 && m.dump_end_pending {
        PresetIn::IdleConfirm
    } else {
        PresetIn::Other
    }
}

/// The mode after the end of the transfer.
pub open spec fn finished(m: RequestPreset) -> RequestPreset {
    RequestPreset { await_dump_end_after_full_chunk: false, dump_end_pending: false, watchdog: None, ..m }
}

/// `f` is `s` once the transfer ended: the next mode was asked for, nothing else changed.
pub open spec fn transfer_finished(s: HelixState, f: HelixState) -> bool {
    &&& f.mode_requests@ =~= s.mode_requests@.push(next_mode_spec(s))
    &&& f == (HelixState { mode_requests: f.mode_requests, ..s })
}

/// `XX 00 00 18 f0 03 02 10 00 XX 00 04`: an x2 frame ACKed during a content-only read.
pub open spec fn x2_content_sub04(d: Seq<u8>) -> bool {
    d.len() >= 12 && d[1] == 0x00 && d[2] == 0x00 && d[3] == 0x18 && d[4] == 0xf0 && d[5] == 0x03 && d[6] == 0x02
        && d[7] == 0x10 && d[8] == 0x00 && d[10] == 0x00 && d[11] == 0x04
}

/// `f` is `s` after one packet with bytes `p` and delay `delay` was queued.
pub open spec fn queued_one(s: HelixState, f: HelixState, p: Seq<u8>, delay: u64) -> bool {
    &&& f.outbox@.len() == s.outbox@.len() + 1
    &&& f.outbox@.drop_last() =~= s.outbox@
    &&& f.outbox@.last().data@ =~= p
    &&& f.outbox@.last().delay_ms == delay
}

/// The LED colour notification ACKed as the standard mode does: session quadruple + `0x11`.
pub open spec fn led_acked(s: HelixState, f: HelixState) -> bool {
    &&& queued_one(s, f, led_ack(s.counters.x80_cnt, quadruple_plus_x11(s.counters.session_quadruple@)), 0)
    &&& f.counters.session_quadruple@ =~= quadruple_plus_x11(s.counters.session_quadruple@)
    &&& f.counters == (Counters {
        x80_cnt: wadd8(s.counters.x80_cnt, 1),
        session_quadruple: f.counters.session_quadruple,
        ..s.counters
    })
    &&& f == (HelixState { counters: f.counters, outbox: f.outbox, ..s })
}

/// An x2 frame during a content-only read: the `sub=04` ones are ACKed on the `f4` lane.
pub open spec fn x2_content_acked(s: HelixState, f: HelixState, d: Seq<u8>) -> bool {
    &&& x2_content_sub04(d) ==> {
        &&& queued_one(s, f, x2_ack(s.counters.x2_cnt, lo8(s.lanes.preset_dump_ack_ctr), hi8(s.lanes.preset_dump_ack_ctr)), 0)
        &&& f.counters == (Counters { x2_cnt: wadd8(s.counters.x2_cnt, 1), ..s.counters })
        &&& lo8(f.lanes.preset_dump_ack_ctr) == s.counters.request_preset_session_id
        &&& hi8(f.lanes.preset_dump_ack_ctr) == wadd8(hi8(s.lanes.preset_dump_ack_ctr), 1)
        &&& f.lanes == (EditorLanes { preset_dump_ack_ctr: f.lanes.preset_dump_ack_ctr, ..s.lanes })
        &&& f == (HelixState { counters: f.counters, lanes: f.lanes, outbox: f.outbox, ..s })
    }
    &&& !x2_content_sub04(d) ==> f == s
}

/// The `sub=08` echo after a burst of full chunks: with no confirmation window the dump ends at
/// once; else the first echo opens the window (its watchdog ends the dump unless a chunk comes).
pub open spec fn dump_end_echo_outcome(m: RequestPreset, m2: RequestPreset, s: HelixState, f: HelixState) -> bool {
    &&& m.dump_end_confirm_ms == 0 ==> m2 == finished(m) && transfer_finished(s, f)
    &&& m.dump_end_confirm_ms != 0 && !m.dump_end_pending ==> f == s && m2 == (RequestPreset {
        dump_end_pending: true,
        watchdog: Some((deadline_after(s.now_ms, m.dump_end_confirm_ms), next_mode_spec(s))),
        ..m
    })
    &&& m.dump_end_confirm_ms != 0 && m.dump_end_pending ==> f == s && m2 == m
}

/// The state with the preset named by the phase 1 answer, when the answer carries a name.
pub open spec fn named(s: HelixState, name: Option<(usize, String)>) -> HelixState {
    match name {
        Some((idx, n)) => HelixState {
            preset: PresetRead { preset_index: idx, active_preset_name: Some(n), ..s.preset },
            ..s
        },
        None => s,
    }
}

/// Bytes 12-15 of the fin-de-transfert ACK, from the last chunk ACK lane.
pub open spec fn fdt_ack_lane(m: RequestPreset, s: HelixState) -> Seq<u8> {
    if s.lanes.dump_ack_use_editor_lane {
        seq![wadd8(m.last_ack_lane@[0], 0x10), m.last_ack_lane@[1], s.lanes.editor_ed03_lane_b14, 0u8]
    } else {
        seq![wadd8(m.last_ack_lane@[0], 0x10), m.last_ack_lane@[0], m.last_ack_lane@[1], 0u8]
    }
}

/// Fin-de-transfert: ACKed with the last chunk lane, then the transfer ends.
pub open spec fn fdt_outcome(m: RequestPreset, m2: RequestPreset, s: HelixState, f: HelixState) -> bool {
    let l = fdt_ack_lane(m, s);
    let s1 = HelixState { counters: Counters { x80_cnt: wadd8(s.counters.x80_cnt, 1), ..s.counters }, outbox: f.outbox, ..s };
    &&& queued_one(s, f, ed_ack08(s.counters.x80_cnt, l[0], l[1], l[2], l[3]), 0)
    &&& transfer_finished(s1, f)
    &&& m2 == finished(m)
}

/// Bytes 12-14 of the ACK of one stream chunk.
pub open spec fn chunk_ack_lane(s: HelixState) -> Seq<u8> {
    if s.lanes.dump_ack_use_editor_lane {
        seq![lo8(s.lanes.editor_ed03_lane), hi8(s.lanes.editor_ed03_lane), s.lanes.editor_ed03_lane_b14]
    } else {
        seq![lo8(s.lanes.preset_dump_ack_ctr), hi8(s.lanes.preset_dump_ack_ctr), 0u8]
    }
}

/// How the lanes step for one chunk ACK (`s` before, `f` after).
pub open spec fn chunk_lanes_step(s: HelixState, f: HelixState) -> bool {
    &&& s.lanes.dump_ack_use_editor_lane ==> f.lanes.preset_dump_ack_ctr == s.lanes.preset_dump_ack_ctr
    &&& !s.lanes.dump_ack_use_editor_lane ==> lo8(f.lanes.preset_dump_ack_ctr) == s.counters.request_preset_session_id
        && hi8(f.lanes.preset_dump_ack_ctr) == wadd8(hi8(s.lanes.preset_dump_ack_ctr), 1)
    &&& (s.lanes.dump_ack_use_editor_lane || s.gates.phase4_bootstrap_active) ==> lo8(f.lanes.editor_ed03_lane)
        == lo8(s.lanes.editor_ed03_lane) && hi8(f.lanes.editor_ed03_lane) == wadd8(hi8(s.lanes.editor_ed03_lane), 1)
    &&& !(s.lanes.dump_ack_use_editor_lane || s.gates.phase4_bootstrap_active) ==> f.lanes.editor_ed03_lane
        == s.lanes.editor_ed03_lane
    &&& f.lanes.editor_ed03_double == s.lanes.editor_ed03_double
}

/// One stream chunk: its payload (bytes 16 on) is appended and ACKed; a partial chunk after a
/// full one ends the transfer, a full chunk rearms the watchdog and waits for the end echo.
pub open spec fn chunk_outcome(m: RequestPreset, m2: RequestPreset, s: HelixState, f: HelixState, d: Seq<u8>) -> bool {
    let payload = d.subrange(16, d.len() as int);
    let saw = m.saw_full_272_chunk || d.len() == 272;
    let l = chunk_ack_lane(s);
    let m1 = RequestPreset {
        preset_data: m2.preset_data,
        dump_end_pending: false,
        saw_full_272_chunk: saw,
        last_ack_lane: m2.last_ack_lane,
        ..m
    };
    let s1 = HelixState {
        counters: Counters { x80_cnt: wadd8(s.counters.x80_cnt, 1), ..s.counters },
        lanes: f.lanes,
        outbox: f.outbox,
        ..s
    };
    &&& m2.preset_data@ =~= m.preset_data@ + payload
    &&& m2.last_ack_lane@ =~= seq![l[0], l[1]]
    &&& queued_one(s, f, ed_ack08(s.counters.x80_cnt, l[0], l[1], l[2], 0), 0)
    &&& chunk_lanes_step(s, f)
    &&& payload.len() < 256 && saw ==> m2 == finished(m1) && transfer_finished(s1, f)
    &&& payload.len() < 256 && !saw ==> m2 == m1 && f == s1
    &&& payload.len() >= 256 ==> f == s1 && m2 == (RequestPreset {
        await_dump_end_after_full_chunk: true,
        watchdog: Some((deadline_after(s.now_ms, WATCHDOG_MS), next_mode_spec(s))),
        ..m1
    })
}

/// A stray `sub=08` echo in the middle of a dump does not cut it: with a confirmation window,
/// the echo asks for no mode and keeps the body; a full chunk that follows closes the window,
/// and its payload is appended to the same body.
pub proof fn law_stray_echo_does_not_truncate(
    m: RequestPreset,
    m1: RequestPreset,
    m2: RequestPreset,
    s: HelixState,
    s1: HelixState,
    s2: HelixState,
    d: Seq<u8>,
)
    requires
        m.dump_end_confirm_ms != 0,
        dump_end_echo_outcome(m, m1, s, s1),
        chunk_outcome(m1, m2, s1, s2, d),
        d.len() == 272,
    ensures
        s1 == s,
        m1.preset_data == m.preset_data,
        m2.preset_data@ == m.preset_data@ + d.subrange(16, 272),
        !m2.dump_end_pending,
        m2.await_dump_end_after_full_chunk,
        s2.mode_requests == s.mode_requests,
{
}

/// What the read does with one IN frame `d` (`name`: the preset named by a phase 1 answer):
/// `m`, `s` before; `m2`, `f` after; `r` its result.
pub open spec fn preset_outcome(
    m: RequestPreset,
    m2: RequestPreset,
    s: HelixState,
    f: HelixState,
    d: Seq<u8>,
    name: Option<(usize, String)>,
    r: bool,
) -> bool {
    let k = preset_in_spec(m, s, d);
    &&& k != PresetIn::ToStandard ==> r == !(k == PresetIn::KeepAlive || k == PresetIn::X2ContentOnly)
    &&& (k == PresetIn::KeepAlive || k == PresetIn::NotEd03 || k == PresetIn::Phase1Wait || k == PresetIn::Other)
        ==> m2 == m && f == s
    &&& k == PresetIn::X2ContentOnly ==> m2 == m && x2_content_acked(s, f, d)
    &&& k == PresetIn::ToStandard ==> m2 == m && standard_outcome(s, f, d, r)
    &&& k == PresetIn::LedColor ==> m2 == m && led_acked(s, f)
    &&& k == PresetIn::DumpEndEcho ==> dump_end_echo_outcome(m, m2, s, f)
    &&& k == PresetIn::Phase1Response ==> phase2_sent(m, m2, named(s, name), f)
    &&& k == PresetIn::FinDeTransfert ==> fdt_outcome(m, m2, s, f)
    &&& k == PresetIn::Chunk ==> chunk_outcome(m, m2, s, f, d)
    &&& k == PresetIn::IdleConfirm ==> m2 == finished(m) && transfer_finished(s, f)
}

/// Phase 2 sent from state `s0` with the mode in `m`: `f` and `m2` are the state and the mode after it.
pub open spec fn phase2_sent(m: RequestPreset, m2: RequestPreset, s0: HelixState, f: HelixState) -> bool {
    let s = s0;
    let d = crate::state::next_editor_double_spec(s.lanes.editor_ed03_double, s.lanes.editor_double_pin_hi, s.lanes.editor_double_skip_00);
    &&& f.outbox@.len() == s.outbox@.len() + 1
    &&& f.outbox@.drop_last() =~= s.outbox@
    &&& s.lanes.dump_ack_use_editor_lane ==> f.outbox@.last().data@ =~= phase2_packet(
        s.counters.x80_cnt, lo8(s.lanes.editor_ed03_lane), hi8(s.lanes.editor_ed03_lane),
        s.lanes.editor_ed03_lane_b14, s.counters.ed03_cmd_type, lo8(d), hi8(d))
    &&& !s.lanes.dump_ack_use_editor_lane ==> exists|rnd: u8| f.outbox@.last().data@ =~= phase2_packet(
        s.counters.x80_cnt, session_no_from_spec(rnd), lo8(d), hi8(d), s.counters.ed03_cmd_type,
        s.counters.request_preset_session_id, 0x64)
    &&& f.counters == (Counters {
        x80_cnt: wadd8(s.counters.x80_cnt, 1),
        request_preset_session_id: wadd8(s.counters.request_preset_session_id, 1),
        ..s.counters
    })
    &&& f.lanes.editor_ed03_double == d
    &&& !s.lanes.dump_ack_use_editor_lane ==> f.lanes == (EditorLanes { editor_ed03_double: d, ..s.lanes })
    &&& s.lanes.dump_ack_use_editor_lane ==> hi8(f.lanes.editor_ed03_lane) == hi8(s.lanes.editor_ed03_lane)
        && lo8(f.lanes.editor_ed03_lane) == (lo8(s.lanes.editor_ed03_lane) + EDITOR_ED03_LANE_CMD_DELTA) % 256
        && f.lanes == (EditorLanes {
            editor_ed03_double: d,
            editor_ed03_lane: f.lanes.editor_ed03_lane,
            ..s.lanes
        })
    &&& f == (HelixState {
        counters: f.counters,
        lanes: f.lanes,
        outbox: f.outbox,
        ..s
    })
    &&& m2 == (RequestPreset {
        waiting_phase1_response: false,
        watchdog: Some((deadline_after(s.now_ms, WATCHDOG_MS), next_mode_spec(s))),
        ..m
    })
}

impl RequestPreset {
    pub fn new() -> (r: Self)
        ensures
            r.preset_data@.len() == 0 && !r.waiting_phase1_response && r.last_ack_lane@ == seq![0u8, 0u8]
                && r.watchdog is None && !r.await_dump_end_after_full_chunk && !r.saw_full_272_chunk
                && !r.dump_end_pending && r.dump_end_confirm_ms == DUMP_END_CONFIRM_MS,
    {
        let r = RequestPreset {
            preset_data: Vec::new(),
            waiting_phase1_response: false,
            last_ack_lane: [0, 0],
            watchdog: None,
            await_dump_end_after_full_chunk: false,
            saw_full_272_chunk: false,
            dump_end_pending: false,
            dump_end_confirm_ms: DUMP_END_CONFIRM_MS,
        };
        assert(r.last_ack_lane@ == seq![0u8, 0u8]);
        r
    }

    /// Arms the watchdog: after `timeout_ms`, the read ends towards the next mode.
    pub fn arm_watchdog(&mut self, state: &HelixState, timeout_ms: u64)
        ensures
            *final(self) == (RequestPreset {
                watchdog: Some((deadline_after(state.now_ms, timeout_ms), next_mode_spec(*state))),
                ..*old(self)
            }),
    {
        let next = if state.preset.preset_content_only {
            ModeRequest::StandardPresetRead(state.preset.preset_read_generation)
        } else {
            ModeRequest::Standard
        };
        self.watchdog = Some((deadline_from(state.now_ms, timeout_ms), next));
    }

    /// Ends the transfer: the watchdog is dropped and the next mode asked for.
    pub fn finish_preset_transfer(&mut self, state: &mut HelixState)
        ensures
            *final(self) == finished(*old(self)),
            final(state).mode_requests@ == old(state).mode_requests@.push(next_mode_spec(*old(state))),
            *final(state) == (HelixState { mode_requests: final(state).mode_requests, ..*old(state) }),
    {
        self.await_dump_end_after_full_chunk = false;
        self.dump_end_pending = false;
        self.watchdog = None;
        let next = if state.preset.preset_content_only {
            ModeRequest::StandardPresetRead(state.preset.preset_read_generation)
        } else {
            ModeRequest::Standard
        };
        state.mode_requests.push(next);
    }

    /// Checks the watchdog at the current clock: once its deadline passed, it asks for its mode.
    pub fn tick(&mut self, state: &mut HelixState) -> (r: bool)
        ensures
            ({
                let fired = old(self).watchdog matches Some(w) && old(state).now_ms >= w.0;
                &&& r == fired
                &&& fired ==> final(self).watchdog is None && final(state).mode_requests@
                    == old(state).mode_requests@.push((old(self).watchdog->0).1)
                    && *final(self) == (RequestPreset { watchdog: None, ..*old(self) })
                    && *final(state) == (HelixState { mode_requests: final(state).mode_requests, ..*old(state) })
                &&& !fired ==> *final(self) == *old(self) && *final(state) == *old(state)
            }),
    {
        match self.watchdog {
            Some((deadline, next)) => {
                if state.now_ms >= deadline {
                    self.watchdog = None;
                    state.mode_requests.push(next);
                    true
                } else {
                    false
                }
            },
            None => false,
        }
    }

    /// Phase 2 request (on the editor lane, or on a random session byte), then the watchdog.
    pub fn send_phase2(&mut self, state: &mut HelixState)
        ensures
            phase2_sent(*old(self), *final(self), *old(state), *final(state)),
    {
        let cnt = state.next_x80_cnt();
        let d = state.next_editor_ed03_double();
        let sess_id = state.counters.request_preset_session_id;
        state.counters.request_preset_session_id = state.counters.request_preset_session_id.wrapping_add(1);
        let cmd_type = state.counters.ed03_cmd_type;
        if state.preset_dump_ack_use_editor_lane() {
            let lane = state.advance_editor_ed03_lane_lo(EDITOR_ED03_LANE_CMD_DELTA);
            let b14 = state.lanes.editor_ed03_lane_b14;
            let p = vec![
                0x19, 0x00, 0x00, 0x18, 0x80, 0x10, 0xed, 0x03, 0x00, cnt, 0x00, 0x0c, lane[0], lane[1], b14, 0x00,
                0x01, 0x00, 0x06, 0x00, 0x09, 0x00, 0x00, 0x00, 0x83, 0x66, 0xcd, cmd_type, d[0], d[1], 0x16, 0x65,
                0xc0, 0x00, 0x00, 0x00,
            ];
            assert(p@ == phase2_packet(cnt, lane@[0], lane@[1], b14, cmd_type, d@[0], d@[1]));
            state.send(OutPacket::new(p));
        } else {
            let rnd = crate::state::random_u8();
            let phase2_session = session_no_from(rnd);
            let p = vec![
                0x19, 0x00, 0x00, 0x18, 0x80, 0x10, 0xed, 0x03, 0x00, cnt, 0x00, 0x0c, phase2_session, d[0], d[1], 0x00,
                0x01, 0x00, 0x06, 0x00, 0x09, 0x00, 0x00, 0x00, 0x83, 0x66, 0xcd, cmd_type, sess_id, 0x64, 0x16, 0x65,
                0xc0, 0x00, 0x00, 0x00,
            ];
            assert(p@ == phase2_packet(cnt, session_no_from_spec(rnd), d@[0], d@[1], cmd_type, sess_id, 0x64));
            state.send(OutPacket::new(p));
        }
        self.waiting_phase1_response = false;
        self.arm_watchdog(state, WATCHDOG_MS);
    }
}

impl RequestPreset {
    /// Kind of an IN frame during the read.
    pub fn classify(&self, data: &[u8], state: &HelixState) -> (r: PresetIn)
        ensures
            r == preset_in_spec(*self, *state, data@),
    {
        if Standard::keep_alive(state.session.connecting, data) {
            return PresetIn::KeepAlive;
        }
        let len: usize = data.len();
        if len > 6 && data[6] == 0x02 {
            if state.preset.preset_content_only {
                return PresetIn::X2ContentOnly;
            }
            return PresetIn::ToStandard;
        }
        if len > 6 && data[6] != 0x80 {
            return PresetIn::ToStandard;
        }
        if !(len >= 16 && data[2] == 0x00 && data[3] == 0x18 && data[4] == 0xed && data[5] == 0x03 && data[6] == 0x80
            && data[7] == 0x10 && data[8] == 0x00 && data[10] == 0x00 && data[14] == 0x00 && data[15] == 0x00) {
            return PresetIn::NotEd03;
        }
        let sub = data[11];
        if sub == 0x04 && len == 16 {
            return PresetIn::LedColor;
        }
        if !self.waiting_phase1_response && self.await_dump_end_after_full_chunk && sub == 0x08 && len == 16
            && self.preset_data.len() > 0 {
            return PresetIn::DumpEndEcho;
        }
        if self.waiting_phase1_response {
            if sub == 0x04 && len >= 36 {
                return PresetIn::Phase1Response;
            }
            return PresetIn::Phase1Wait;
        }
        if len == 32 && sub == 0x04 && data[16] == 0xa1 {
            return PresetIn::FinDeTransfert;
        }
        if sub == 0x04 && is_preset_dump_stream_chunk_in(data) {
            return PresetIn::Chunk;
        }
        if sub == 0x10 && self.dump_end_pending {
            return PresetIn::IdleConfirm;
        }
        PresetIn::Other
    }

    /// ACK of an LED colour notification (the standard mode's ACK).
    fn ack_led_color(state: &mut HelixState)
        ensures
            led_acked(*old(state), *final(state)),
    {
        state.increase_session_quadruple_x11();
        let sq = state.counters.session_quadruple;
        let cnt = state.next_x80_cnt();
        let pkt = vec![0x08, 0x00, 0x00, 0x18, 0x80, 0x10, 0xed, 0x03, 0x00, cnt, 0x00, 0x08, sq[0], sq[1], sq[2], sq[3]];
        assert(pkt@ == led_ack(old(state).counters.x80_cnt, sq@));
        state.send(OutPacket::with_delay(pkt, 0));
    }

    /// x2 frame during a content-only read.
    fn ack_x2_content_only(data: &[u8], state: &mut HelixState)
        ensures
            x2_content_acked(*old(state), *final(state), data@),
    {
        if data.len() >= 12 && data[1] == 0x00 && data[2] == 0x00 && data[3] == 0x18 && data[4] == 0xf0
            && data[5] == 0x03 && data[6] == 0x02 && data[7] == 0x10 && data[8] == 0x00 && data[10] == 0x00
            && data[11] == 0x04 {
            let cnt = state.next_x2_cnt();
            let double = state.next_preset_dump_ack_double();
            let pkt = vec![0x08, 0x00, 0x00, 0x18, 0x02, 0x10, 0xf0, 0x03, 0x00, cnt, 0x00, 0x08, double[0], double[1], 0x00, 0x00];
            assert(pkt@ == x2_ack(cnt, double@[0], double@[1]));
            state.send(OutPacket::new(pkt));
        }
    }

    /// The `sub=08` echo after a burst of full chunks.
    fn on_dump_end_echo(&mut self, state: &mut HelixState)
        ensures
            dump_end_echo_outcome(*old(self), *final(self), *old(state), *final(state)),
    {
        if self.dump_end_confirm_ms == 0 {
            self.finish_preset_transfer(state);
        } else if !self.dump_end_pending {
            self.dump_end_pending = true;
            let ms = self.dump_end_confirm_ms;
            self.arm_watchdog(state, ms);
        }
    }

    /// Answer to phase 1: the preset it names, if any, becomes the active one; then phase 2.
    fn on_phase1_response(&mut self, name: Option<(usize, String)>, state: &mut HelixState)
        ensures
            phase2_sent(*old(self), *final(self), named(*old(state), name), *final(state)),
    {
        match name {
            Some((idx, n)) => {
                state.preset.preset_index = idx;
                state.preset.active_preset_name = Some(n);
            },
            None => {},
        }
        self.send_phase2(state);
    }

    /// Fin-de-transfert frame: ACK on the last chunk lane, then the end of the transfer.
    fn on_fin_de_transfert(&mut self, state: &mut HelixState)
        ensures
            fdt_outcome(*old(self), *final(self), *old(state), *final(state)),
    {
        let cnt = state.next_x80_cnt();
        let b12 = self.last_ack_lane[0].wrapping_add(0x10);
        let (b13, b14) = if state.preset_dump_ack_use_editor_lane() {
            (self.last_ack_lane[1], state.lanes.editor_ed03_lane_b14)
        } else {
            (self.last_ack_lane[0], self.last_ack_lane[1])
        };
        let pkt = vec![0x08, 0x00, 0x00, 0x18, 0x80, 0x10, 0xed, 0x03, 0x00, cnt, 0x00, 0x08, b12, b13, b14, 0x00];
        assert(pkt@ == ed_ack08(cnt, b12, b13, b14, 0));
        state.send(OutPacket::new(pkt));
        self.finish_preset_transfer(state);
    }

    /// One stream chunk.
    fn on_chunk(&mut self, data: &[u8], state: &mut HelixState)
        requires
            stream_chunk_spec(data@),
        ensures
            chunk_outcome(*old(self), *final(self), *old(state), *final(state), data@),
    {
        let ghost s0 = *state;
        let len: usize = data.len();
        self.dump_end_pending = false;
        let mut i: usize = 16;
        while i < len
            invariant
                16 <= i <= len,
                len == data.len(),
                self.preset_data@ =~= old(self).preset_data@ + data@.subrange(16, i as int),
                *self == (RequestPreset { preset_data: self.preset_data, dump_end_pending: false, ..*old(self) }),
            decreases len - i,
        {
            self.preset_data.push(data[i]);
            i = i + 1;
        }
        if len == 272 {
            self.saw_full_272_chunk = true;
        }
        let cnt = state.next_x80_cnt();
        let lane = state.next_preset_stream_chunk_ack_lane();
        let pkt = vec![0x08, 0x00, 0x00, 0x18, 0x80, 0x10, 0xed, 0x03, 0x00, cnt, 0x00, 0x08, lane[0], lane[1], lane[2], 0x00];
        assert(pkt@ == ed_ack08(cnt, lane@[0], lane@[1], lane@[2], 0));
        state.send(OutPacket::new(pkt));
        self.last_ack_lane = [lane[0], lane[1]];
        assert(self.last_ack_lane@ == seq![lane@[0], lane@[1]]);
        assert(lane@ == chunk_ack_lane(s0));
        if len - 16 < 256 {
            if self.saw_full_272_chunk {
                self.finish_preset_transfer(state);
            }
        } else {
            self.await_dump_end_after_full_chunk = true;
            self.arm_watchdog(state, WATCHDOG_MS);
        }
    }
}

impl RequestPreset {
    /// Starts the read: phase 1 request on the editor double (not advanced), then the watchdog.
    /// The Path 1 wires remembered from the last dump no longer hold.
    pub fn begin(&mut self, state: &mut HelixState)
        ensures
            ({
                let s = *old(state);
                let f = *final(state);
                &&& queued_one(s, f, phase1_packet(
                    s.counters.x80_cnt,
                    s.counters.session_no,
                    lo8(s.lanes.editor_ed03_double),
                    hi8(s.lanes.editor_ed03_double),
                    s.counters.ed03_cmd_type,
                    s.counters.request_preset_session_id,
                ), 0)
                &&& f.counters == (Counters {
                    x80_cnt: wadd8(s.counters.x80_cnt, 1),
                    request_preset_session_id: wadd8(s.counters.request_preset_session_id, 1),
                    ..s.counters
                })
                &&& f.slot == (SlotTracking { path1_input_source_wire: None, path1_split_type_wire: None, ..s.slot })
                &&& f == (HelixState { counters: f.counters, slot: f.slot, outbox: f.outbox, ..s })
                &&& final(self).preset_data@.len() == 0
                &&& *final(self) == (RequestPreset {
                    preset_data: final(self).preset_data,
                    waiting_phase1_response: true,
                    watchdog: Some((deadline_after(s.now_ms, WATCHDOG_MS), next_mode_spec(s))),
                    await_dump_end_after_full_chunk: false,
                    saw_full_272_chunk: false,
                    dump_end_pending: false,
                    ..*old(self)
                })
            }),
    {
        self.preset_data.clear();
        self.waiting_phase1_response = true;
        self.watchdog = None;
        self.await_dump_end_after_full_chunk = false;
        self.saw_full_272_chunk = false;
        self.dump_end_pending = false;
        let cnt = state.next_x80_cnt();
        let sess1 = state.counters.session_no;
        let double1 = state.editor_ed03_double_val();
        let sess_id1 = state.counters.request_preset_session_id;
        let cmd_type = state.counters.ed03_cmd_type;
        state.counters.request_preset_session_id = state.counters.request_preset_session_id.wrapping_add(1);
        state.slot.path1_input_source_wire = None;
        state.slot.path1_split_type_wire = None;
        let pkt = vec![
            0x19, 0x00, 0x00, 0x18, 0x80, 0x10, 0xed, 0x03, 0x00, cnt, 0x00, 0x04, sess1, double1[0], double1[1], 0x00,
            0x01, 0x00, 0x06, 0x00, 0x09, 0x00, 0x00, 0x00, 0x83, 0x66, 0xcd, cmd_type, sess_id1, 0x64, 0x17, 0x65,
            0xc0, 0x00, 0x00, 0x00,
        ];
        assert(pkt@ == phase1_packet(cnt, sess1, double1@[0], double1@[1], cmd_type, sess_id1));
        state.send(OutPacket::new(pkt));
        self.arm_watchdog(state, WATCHDOG_MS);
    }

    /// Handles one IN frame; `phase1_name` is the preset (index, name) that a phase 1 answer
    /// names, when the caller decoded one. Returns `false` for the frames the read swallows.
    pub fn handle_in(&mut self, data: &[u8], phase1_name: Option<(usize, String)>, state: &mut HelixState) -> (r: bool)
        ensures
            preset_outcome(*old(self), *final(self), *old(state), *final(state), data@, phase1_name, r),
    {
        let k = self.classify(data, state);
        match k {
            PresetIn::KeepAlive => false,
            PresetIn::X2ContentOnly => {
                Self::ack_x2_content_only(data, state);
                false
            },
            PresetIn::ToStandard => {
                let mut std = Standard;
                std.handle_in(data, state)
            },
            PresetIn::NotEd03 | PresetIn::Phase1Wait | PresetIn::Other => true,
            PresetIn::LedColor => {
                Self::ack_led_color(state);
                true
            },
            PresetIn::DumpEndEcho => {
                self.on_dump_end_echo(state);
                true
            },
            PresetIn::Phase1Response => {
                self.on_phase1_response(phase1_name, state);
                true
            },
            PresetIn::FinDeTransfert => {
                self.on_fin_de_transfert(state);
                true
            },
            PresetIn::Chunk => {
                self.on_chunk(data, state);
                true
            },
            PresetIn::IdleConfirm => {
                self.finish_preset_transfer(state);
                true
            },
        }
    }

    /// Ends the read: the body goes to the state. With a body, the next session number follows
    /// the last chunk ACK; without one, the editor double and the ACK lane start over.
    pub fn close(&mut self, state: &mut HelixState)
        ensures
            ({
                let m = *old(self);
                let s = *old(state);
                let f = *final(state);
                let with_body = m.preset_data@.len() > 0;
                let lane_set = m.last_ack_lane@ != seq![0u8, 0u8];
                &&& final(self).preset_data@.len() == 0
                &&& *final(self) == (RequestPreset { preset_data: final(self).preset_data, watchdog: None, ..m })
                &&& f.preset.preset_data@ == m.preset_data@
                &&& f.preset == (PresetRead {
                    preset_data: f.preset.preset_data,
                    got_preset: with_body,
                    preset_data_ready: with_body,
                    preset_content_only: false,
                    ..s.preset
                })
                &&& with_body ==> f.counters.session_no == wadd8(m.last_ack_lane@[0], 0x10)
                &&& !with_body && s.lanes.dump_ack_use_editor_lane ==> f.counters.session_no == s.counters.session_no
                &&& !with_body && !s.lanes.dump_ack_use_editor_lane ==> exists|rnd: u8|
                    f.counters.session_no == session_no_from_spec(rnd)
                &&& f.counters == (Counters {
                    session_no: f.counters.session_no,
                    ed03_cmd_type: wadd8(s.counters.ed03_cmd_type, 1),
                    request_preset_session_id: if with_body { s.counters.request_preset_session_id } else { 0xf4 },
                    ..s.counters
                })
                &&& with_body && lane_set ==> f.lanes.preset_last_ack_double@ == m.last_ack_lane@
                &&& with_body && !lane_set ==> f.lanes.preset_last_ack_double == s.lanes.preset_last_ack_double
                &&& !with_body ==> f.lanes.preset_last_ack_double@ == seq![0u8, 0u8]
                &&& f.lanes == (EditorLanes {
                    preset_last_ack_double: f.lanes.preset_last_ack_double,
                    editor_ed03_double: if with_body { s.lanes.editor_ed03_double } else { (PRESET_ED03_TRANSACTION_FIRST - 1) as u16 },
                    ..s.lanes
                })
                &&& f == (HelixState { counters: f.counters, lanes: f.lanes, preset: f.preset, ..s })
            }),
    {
        self.watchdog = None;
        let mut body: Vec<u8> = Vec::new();
        std::mem::swap(&mut body, &mut self.preset_data);
        let with_body = body.len() > 0;
        let use_editor = state.preset_dump_ack_use_editor_lane();
        let sn = close_session_no(with_body, self.last_ack_lane[0], use_editor, state.counters.session_no);
        let last = close_last_ack_double(with_body, self.last_ack_lane, state.lanes.preset_last_ack_double);
        state.preset.preset_data = body;
        state.preset.got_preset = with_body;
        state.preset.preset_data_ready = with_body;
        state.preset.preset_content_only = false;
        state.counters.session_no = sn;
        state.counters.ed03_cmd_type = state.counters.ed03_cmd_type.wrapping_add(1);
        state.lanes.preset_last_ack_double = last;
        if !with_body {
            state.lanes.editor_ed03_double = PRESET_ED03_TRANSACTION_FIRST - 1;
            state.counters.request_preset_session_id = 0xf4;
        }
    }
}

/// Session number after a read: it follows the last chunk ACK when a body came; without a
/// body it stays on the editor lane, else it is drawn anew.
fn close_session_no(with_body: bool, lane0: u8, use_editor: bool, current: u8) -> (r: u8)
    ensures
        with_body ==> r == wadd8(lane0, 0x10),
        !with_body && use_editor ==> r == current,
        !with_body && !use_editor ==> exists|rnd: u8| r == session_no_from_spec(rnd),
{
    if with_body {
        lane0.wrapping_add(0x10)
    } else if use_editor {
        current
    } else {
        let rnd = crate::state::random_u8();
        session_no_from(rnd)
    }
}

/// Last ACK double after a read: the last chunk lane when a body came on a set lane, reset
/// without a body.
fn close_last_ack_double(with_body: bool, lane: [u8; 2], current: [u8; 2]) -> (r: [u8; 2])
    ensures
        with_body && lane@ != seq![0u8, 0u8] ==> r@ == lane@,
        with_body && lane@ == seq![0u8, 0u8] ==> r == current,
        !with_body ==> r@ == seq![0u8, 0u8],
{
    if with_body {
        if lane[0] != 0 || lane[1] != 0 {
            lane
        } else {
            assert(lane@ =~= seq![0u8, 0u8]);
            current
        }
    } else {
        let r = [0u8, 0u8];
        assert(r@ == seq![0u8, 0u8]);
        r
    }
}

impl Mode for RequestPreset {
    fn start(&mut self, state: &mut HelixState) {
        self.begin(state)
    }

    fn data_in(&mut self, data: &[u8], state: &mut HelixState) -> bool {
        self.handle_in(data, None, state)
    }

    fn shutdown(&mut self, state: &mut HelixState) {
        self.close(state)
    }
}

} // verus!
