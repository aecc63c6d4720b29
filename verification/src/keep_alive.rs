//! Idle keep-alive on three lanes, as HX Edit does it: one poll `sub=10` per lane and per
//! cycle (~1047 ms) in the order `f0 → ed → ef`, each lane on its own counter, with fixed
//! trailers; and the graceful close, one last round with `sub=02` whose counter is the
//! device's last counter on the lane plus one (a request the device handles, not an ACK).
use vstd::prelude::*;
use crate::bytes::wadd8;
use crate::state::{deadline_after, deadline_from, Counters, HelixState};
use crate::packet::OutPacket;

verus! {

/// Period of one cycle (sum of the three inter-lane delays).
pub const KEEP_ALIVE_CYCLE_MS: u64 = 1047;
pub const DELAY_F0_TO_ED_MS: u64 = 453;
pub const DELAY_ED_TO_EF_MS: u64 = 266;
pub const DELAY_EF_TO_NEXT_F0_MS: u64 = 328;
/// Delay after the phase-4 bootstrap before the first poll.
pub const POST_PHASE4_SETTLE_MS: u64 = 700;
/// Idle poll sub-type (byte 11).
pub const POLL_SUB: u8 = 0x10;
/// Close (editor unsubscribe) sub-type (byte 11).
pub const CLOSE_SUB: u8 = 0x02;

/// Keep-alive frame on lane `a b c d` with counter `cnt`, sub-type `sub` and trailer `t0 t1`.
pub open spec fn lane_frame(a: u8, b: u8, c: u8, d: u8, cnt: u8, sub: u8, t0: u8, t1: u8) -> Seq<u8> {
    seq![0x08u8, 0x00, 0x00, 0x18, a, b, c, d, 0x00, cnt, 0x00, sub, t0, t1, 0x00, 0x00]
}

pub open spec fn f0_frame(cnt: u8, sub: u8) -> Seq<u8> {
    lane_frame(0x02, 0x10, 0xf0, 0x03, cnt, sub, 0x09, 0x10)
}

pub open spec fn ed_frame(cnt: u8, sub: u8) -> Seq<u8> {
    lane_frame(0x80, 0x10, 0xed, 0x03, cnt, sub, 0x7e, 0x1c)
}

pub open spec fn ef_frame(cnt: u8, sub: u8) -> Seq<u8> {
    lane_frame(0x01, 0x10, 0xef, 0x03, cnt, sub, 0xe0, 0x1d)
}

/// Lane `ed:03` (bytes 12-13) that the idle keep-alive declares (`7e 1c`); the Cab 2
/// focus and its `ed:08` take it up.
pub fn keepalive_ed_lane() -> (r: [u8; 2])
    ensures
        r@ == seq![0x7eu8, 0x1c],
{
    let r = [0x7e, 0x1c];
    assert(r@ == seq![0x7eu8, 0x1c]);
    r
}

fn frame_f0(cnt: u8, sub: u8) -> (r: Vec<u8>)
    ensures
        r@ == f0_frame(cnt, sub),
{
    vec![0x08, 0x00, 0x00, 0x18, 0x02, 0x10, 0xf0, 0x03, 0x00, cnt, 0x00, sub, 0x09, 0x10, 0x00, 0x00]
}

fn frame_ed(cnt: u8, sub: u8) -> (r: Vec<u8>)
    ensures
        r@ == ed_frame(cnt, sub),
{
    vec![0x08, 0x00, 0x00, 0x18, 0x80, 0x10, 0xed, 0x03, 0x00, cnt, 0x00, sub, 0x7e, 0x1c, 0x00, 0x00]
}

fn frame_ef(cnt: u8, sub: u8) -> (r: Vec<u8>)
    ensures
        r@ == ef_frame(cnt, sub),
{
    vec![0x08, 0x00, 0x00, 0x18, 0x01, 0x10, 0xef, 0x03, 0x00, cnt, 0x00, sub, 0xe0, 0x1d, 0x00, 0x00]
}

/// Close counter of a lane: the device's last counter plus one, else the host counter.
pub open spec fn close_cnt(dev: Option<u8>, host: u8) -> u8 {
    match dev {
        Some(c) => wadd8(c, 1),
        None => host,
    }
}

/// The three close frames `[f0, ed, ef]` (`sub=02`). A lane with no device counter seen
/// uses (and steps) the host counter of the lane instead.
pub fn graceful_close_packets(state: &mut HelixState) -> (r: [Vec<u8>; 3])
    ensures
        ({
            let s = *old(state);
            let c = s.counters;
            &&& r@[0]@ == f0_frame(close_cnt(s.slot.dev_keepalive_cnt_f0, c.x2_cnt), CLOSE_SUB)
            &&& r@[1]@ == ed_frame(close_cnt(s.slot.dev_keepalive_cnt_ed, c.x80_cnt), CLOSE_SUB)
            &&& r@[2]@ == ef_frame(close_cnt(s.slot.dev_keepalive_cnt_ef, c.x1_cnt), CLOSE_SUB)
            &&& *final(state) == (HelixState {
                counters: Counters {
                    x2_cnt: if s.slot.dev_keepalive_cnt_f0 is Some { c.x2_cnt } else { wadd8(c.x2_cnt, 1) },
                    x80_cnt: if s.slot.dev_keepalive_cnt_ed is Some { c.x80_cnt } else { wadd8(c.x80_cnt, 1) },
                    x1_cnt: if s.slot.dev_keepalive_cnt_ef is Some { c.x1_cnt } else { wadd8(c.x1_cnt, 1) },
                    ..c
                },
                ..s
            })
        }),
{
    let c_f0 = match state.slot.dev_keepalive_cnt_f0 {
        Some(c) => c.wrapping_add(1),
        None => state.next_x2_cnt(),
    };
    let c_ed = match state.slot.dev_keepalive_cnt_ed {
        Some(c) => c.wrapping_add(1),
        None => state.next_x80_cnt(),
    };
    let c_ef = match state.slot.dev_keepalive_cnt_ef {
        Some(c) => c.wrapping_add(1),
        None => state.next_x1_cnt(),
    };
    [frame_f0(c_f0, CLOSE_SUB), frame_ed(c_ed, CLOSE_SUB), frame_ef(c_ef, CLOSE_SUB)]
}

/// Idle poll of the `f0` lane (origin of the cycle).
pub fn poll_f0_packet(state: &mut HelixState) -> (r: Vec<u8>)
    ensures
        r@ == f0_frame(old(state).counters.x2_cnt, POLL_SUB),
        *final(state) == (HelixState {
            counters: Counters { x2_cnt: wadd8(old(state).counters.x2_cnt, 1), ..old(state).counters },
            ..*old(state)
        }),
{
    let cnt = state.next_x2_cnt();
    frame_f0(cnt, POLL_SUB)
}

/// Idle poll of the `ed` lane.
pub fn poll_ed_packet(state: &mut HelixState) -> (r: Vec<u8>)
    ensures
        r@ == ed_frame(old(state).counters.x80_cnt, POLL_SUB),
        *final(state) == (HelixState {
            counters: Counters { x80_cnt: wadd8(old(state).counters.x80_cnt, 1), ..old(state).counters },
            ..*old(state)
        }),
{
    let cnt = state.next_x80_cnt();
    frame_ed(cnt, POLL_SUB)
}

/// Idle poll of the `ef` lane.
pub fn poll_ef_packet(state: &mut HelixState) -> (r: Vec<u8>)
    ensures
        r@ == ef_frame(old(state).counters.x1_cnt, POLL_SUB),
        *final(state) == (HelixState {
            counters: Counters { x1_cnt: wadd8(old(state).counters.x1_cnt, 1), ..old(state).counters },
            ..*old(state)
        }),
{
    let cnt = state.next_x1_cnt();
    frame_ef(cnt, POLL_SUB)
}

/// A cycle is skipped while a preset body is read (no proactive poll).
pub fn keepalive_skip_cycle(state: &HelixState) -> (r: bool)
    ensures
        r == state.preset.preset_content_only,
{
    state.preset.preset_content_only
}

/// Stop flag of the idle keep-alive cycle, read by the thread that runs it.
pub struct KeepAliveManager {
    pub stop_ordered: bool,
}

impl KeepAliveManager {
    pub fn new() -> (r: Self)
        ensures
            !r.stop_ordered,
    {
        KeepAliveManager { stop_ordered: false }
    }

    /// Clears the stop flag when the ordered cycle starts.
    pub fn start_ordered(&mut self)
        ensures
            !final(self).stop_ordered,
    {
        self.stop_ordered = false;
    }

    /// Asks the cycle to stop.
    pub fn stop_all(&mut self)
        ensures
            final(self).stop_ordered,
    {
        self.stop_ordered = true;
    }
}

/// The idle keep-alive cycle on the session clock: the lane that polls next (`0` = `f0`,
/// `1` = `ed`, `2` = `ef`) and when.
pub struct KeepAliveCycle {
    pub lane: u8,
    pub due_ms: u64,
}

/// One poll of the cycle at the current clock (`s` before, `f` after; `c` the cycle before,
/// `c2` after, `r` whether a poll went out).
pub open spec fn cycle_step(c: KeepAliveCycle, c2: KeepAliveCycle, s: HelixState, f: HelixState, r: bool) -> bool {
    if s.now_ms < c.due_ms || c.lane > 2 {
        !r && c2 == c && f == s
    } else if c.lane == 0 && s.preset.preset_content_only {
        !r && f == s && c2 == (KeepAliveCycle { lane: 0, due_ms: deadline_after(s.now_ms, KEEP_ALIVE_CYCLE_MS) })
    } else {
        let p = if c.lane == 0 {
            f0_frame(s.counters.x2_cnt, POLL_SUB)
        } else if c.lane == 1 {
            ed_frame(s.counters.x80_cnt, POLL_SUB)
        } else {
            ef_frame(s.counters.x1_cnt, POLL_SUB)
        };
        let counters = if c.lane == 0 {
            Counters { x2_cnt: wadd8(s.counters.x2_cnt, 1), ..s.counters }
        } else if c.lane == 1 {
            Counters { x80_cnt: wadd8(s.counters.x80_cnt, 1), ..s.counters }
        } else {
            Counters { x1_cnt: wadd8(s.counters.x1_cnt, 1), ..s.counters }
        };
        let delay = if c.lane == 0 { DELAY_F0_TO_ED_MS } else if c.lane == 1 { DELAY_ED_TO_EF_MS } else { DELAY_EF_TO_NEXT_F0_MS };
        &&& r
        &&& f.outbox@.len() == s.outbox@.len() + 1
        &&& f.outbox@.drop_last() =~= s.outbox@
        &&& f.outbox@.last().data@ =~= p
        &&& f == (HelixState { counters, outbox: f.outbox, ..s })
        &&& c2 == (KeepAliveCycle { lane: if c.lane == 2 { 0 } else { (c.lane + 1) as u8 }, due_ms: deadline_after(s.now_ms, delay) })
    }
}

/// A due poll goes to the lane of the cycle, in the order `f0 → ed → ef → f0`: its frame
/// names that lane (byte 6 `f0`, `ed` or `ef`), is a `sub=10` poll and carries the lane's own
/// counter (byte 9), which alone steps on; the three inter-lane delays add up to one cycle.
/// The close frames are `sub=02` requests whose counter is the device's last one plus one.
pub proof fn law_keepalive_lane_order(c: KeepAliveCycle, c2: KeepAliveCycle, s: HelixState, f: HelixState, r: bool)
    requires
        cycle_step(c, c2, s, f, r),
        c.lane <= 2,
        s.now_ms >= c.due_ms,
        !(c.lane == 0 && s.preset.preset_content_only),
    ensures
        r,
        c2.lane == (c.lane + 1) % 3,
        ({
            let p = f.outbox@.last().data@;
            let lane_cnt = if c.lane == 0 { s.counters.x2_cnt } else if c.lane == 1 { s.counters.x80_cnt } else { s.counters.x1_cnt };
            &&& f.outbox@.len() == s.outbox@.len() + 1
            &&& p.len() == 16
            &&& p[6] == (if c.lane == 0 { 0xf0u8 } else if c.lane == 1 { 0xedu8 } else { 0xefu8 })
            &&& p[11] == POLL_SUB
            &&& p[9] == lane_cnt
            &&& f.counters.x2_cnt == (if c.lane == 0 { wadd8(s.counters.x2_cnt, 1) } else { s.counters.x2_cnt })
            &&& f.counters.x80_cnt == (if c.lane == 1 { wadd8(s.counters.x80_cnt, 1) } else { s.counters.x80_cnt })
            &&& f.counters.x1_cnt == (if c.lane == 2 { wadd8(s.counters.x1_cnt, 1) } else { s.counters.x1_cnt })
        }),
        DELAY_F0_TO_ED_MS + DELAY_ED_TO_EF_MS + DELAY_EF_TO_NEXT_F0_MS == KEEP_ALIVE_CYCLE_MS,
        forall|dev: u8, host: u8| #[trigger] f0_frame(close_cnt(Some(dev), host), CLOSE_SUB)[9] == wadd8(dev, 1)
            && f0_frame(close_cnt(Some(dev), host), CLOSE_SUB)[11] == 0x02,
{
}

impl KeepAliveCycle {
    /// A cycle whose first poll (`f0`) is due at `now_ms`.
    pub fn new(now_ms: u64) -> (r: Self)
        ensures
            r.lane == 0 && r.due_ms == now_ms,
    {
        KeepAliveCycle { lane: 0, due_ms: now_ms }
    }

    /// Polls the due lane when its time has come (see `cycle_step`); a cycle that starts while
    /// a preset body is read is skipped.
    pub fn poll_due(&mut self, state: &mut HelixState) -> (r: bool)
        ensures
            cycle_step(*old(self), *final(self), *old(state), *final(state), r),
    {
        if state.now_ms < self.due_ms || self.lane > 2 {
            return false;
        }
        let now = state.now_ms;
        if self.lane == 0 && keepalive_skip_cycle(state) {
            self.due_ms = deadline_from(now, KEEP_ALIVE_CYCLE_MS);
            return false;
        }
        let (pkt, delay) = if self.lane == 0 {
            (poll_f0_packet(state), DELAY_F0_TO_ED_MS)
        } else if self.lane == 1 {
            (poll_ed_packet(state), DELAY_ED_TO_EF_MS)
        } else {
            (poll_ef_packet(state), DELAY_EF_TO_NEXT_F0_MS)
        };
        state.send(OutPacket::new(pkt));
        self.lane = if self.lane == 2 { 0 } else { self.lane + 1 };
        self.due_ms = deadline_from(now, delay);
        true
    }
}

} // verus!
