//! Clears every FX block of the active preset (14 OUT packets, in 8 groups). The host sends a
//! group of chunks, waits for the device ACK (`ed:03:80:10` sub=`08`, or the IN `19` sub=`04`
//! of group C), then sends the next group. Only the lane, `x80` counter and, on the first
//! packet, the editor double are patched into the packet templates.
//!
//! The waits and the lock belong to the caller; the IN layer records the awaited ACK in the
//! wait session and each step of the sequence is a function here.
use vstd::prelude::*;
use crate::bytes::{lo8, hi8, wadd8, wadd16};
use crate::packet::OutPacket;
use crate::slot_model_hw_pull::{hw_model_usb_busy, usb_busy_spec};
use crate::state::{Counters, HelixState, Transactions};

verus! {

/// Timeout of one device ACK, in milliseconds.
pub const CLEAR_ALL_ACK_TIMEOUT_MS: u64 = 500;

/// Poll period of the wait session, in milliseconds.
pub const CLEAR_ALL_POLL_MS: u64 = 5;

/// The lane moves on by `CLEAR_ALL_LANE_BUMP_DELTA` from this packet index on.
pub const CLEAR_ALL_LANE_BUMP_AFTER_PACKET: usize = 6;

/// Lane step of the sequence.
pub const CLEAR_ALL_LANE_BUMP_DELTA: u16 = 0x11;

/// Whether the host waits for a device ACK after each OUT packet (group boundaries A..G;
/// group H, the last packet, is best-effort).
pub const CLEAR_ALL_AWAIT_ACK_AFTER: [bool; 14] = [
    false, true, false, true, false, true, true, false, true, false, true, false, true, false,
];

/// Packet indices after which the host waits.
pub open spec fn await_ack_after_spec(idx: int) -> bool {
    idx == 1 || idx == 3 || idx == 5 || idx == 6 || idx == 8 || idx == 10 || idx == 12
}

/// Whether the host waits for an ACK after packet `idx`.
pub fn clear_all_await_ack_after(idx: usize) -> (r: bool)
    ensures
        r == (idx < 14 && await_ack_after_spec(idx as int)),
{
    if idx >= 14 {
        return false;
    }
    let table = CLEAR_ALL_AWAIT_ACK_AFTER;
    assert(table@ == seq![false, true, false, true, false, true, true, false, true, false, true, false, true, false]);
    table[idx]
}

/// The single IN event of the dialogue: both ACK forms are unambiguous in it.
#[derive(PartialEq, Eq, Structural, Clone, Copy, Debug)]
pub enum ClearAllInEvent {
    DeviceAck,
}

#[derive(PartialEq, Eq, Structural, Clone, Copy, Debug)]
pub enum ClearAllAwaiting {
    Idle,
    Ack,
}

/// IN wait of a clear-all: whether an ACK is awaited, and the ACKs received for the caller.
pub struct ClearAllWait {
    pub events: Vec<ClearAllInEvent>,
    pub awaiting: ClearAllAwaiting,
}

impl ClearAllWait {
    pub fn arm_await(&mut self)
        ensures
            final(self).awaiting == ClearAllAwaiting::Ack,
            final(self).events@ == old(self).events@,
    {
        self.awaiting = ClearAllAwaiting::Ack;
    }
}

pub open spec fn clear_all_ack08_spec(data: Seq<u8>) -> bool {
    data.len() == 16 && data[0] == 0x08 && data[1] == 0x00 && data[2] == 0x00 && data[3] == 0x18
        && data[4] == 0xed && data[5] == 0x03 && data[6] == 0x80 && data[7] == 0x10 && data[11] == 0x08
}

pub open spec fn clear_all_in19_spec(data: Seq<u8>) -> bool {
    data.len() == 36 && data[0] == 0x19 && data[4] == 0xed && data[5] == 0x03 && data[6] == 0x80
        && data[7] == 0x10 && data[11] == 0x04
}

/// Short device echo `ed:03` sub=`08` after a group of chunks (the idle heartbeat has sub=`10`).
pub fn is_clear_all_ed03_ack08(data: &[u8]) -> (r: bool)
    ensures
        r == clear_all_ack08_spec(data@),
{
    data.len() == 16 && data[0] == 0x08 && data[1] == 0x00 && data[2] == 0x00 && data[3] == 0x18
        && data[4] == 0xed && data[5] == 0x03 && data[6] == 0x80 && data[7] == 0x10 && data[11]
        == 0x08
}

/// IN `19` (36 bytes) sub=`04` of group C, just before the lane bump.
pub fn is_clear_all_in19(data: &[u8]) -> (r: bool)
    ensures
        r == clear_all_in19_spec(data@),
{
    data.len() == 36 && data[0] == 0x19 && data[4] == 0xed && data[5] == 0x03 && data[6] == 0x80
        && data[7] == 0x10 && data[11] == 0x04
}

/// IN that the clear-all layer absorbs; the `f0:03:02:10` page counter is left to the page
/// state machine.
pub fn is_clear_all_pipeline_in(data: &[u8]) -> (r: bool)
    ensures
        r == (clear_all_ack08_spec(data@) || clear_all_in19_spec(data@)),
{
    is_clear_all_ed03_ack08(data) || is_clear_all_in19(data)
}

/// Records an awaited ACK in the wait session (the wait goes idle). Returns `true` when it did.
pub fn try_notify_clear_all_in(state: &mut HelixState, data: &[u8]) -> (r: bool)
    ensures
        ({
            let s = *old(state);
            match s.tx.clear_all_wait {
                Some(w) => if w.awaiting == ClearAllAwaiting::Ack && (clear_all_ack08_spec(data@)
                    || clear_all_in19_spec(data@)) {
                    r && (final(state).tx.clear_all_wait matches Some(w2) && w2.awaiting
                        == ClearAllAwaiting::Idle && w2.events@ == w.events@.push(ClearAllInEvent::DeviceAck))
                } else {
                    !r && *final(state) == s
                },
                None => !r && *final(state) == s,
            }
        }),
        final(state).tx.usb_host_transaction_hold == old(state).tx.usb_host_transaction_hold,
        *final(state) == (HelixState { tx: final(state).tx, ..*old(state) }),
{
    let awaiting = match &state.tx.clear_all_wait {
        None => return false,
        Some(w) => w.awaiting,
    };
    if awaiting != ClearAllAwaiting::Ack {
        return false;
    }
    if !is_clear_all_pipeline_in(data) {
        return false;
    }
    let mut w = state.tx.clear_all_wait.take().unwrap();
    w.awaiting = ClearAllAwaiting::Idle;
    w.events.push(ClearAllInEvent::DeviceAck);
    state.tx.clear_all_wait = Some(w);
    true
}

/// `83 66 cd` at `i`.
pub open spec fn cd_marker_at(s: Seq<u8>, i: int) -> bool {
    0 <= i && i + 2 < s.len() && s[i] == 0x83 && s[i + 1] == 0x66 && s[i + 2] == 0xcd
}

/// First `83 66 cd` at an index in `[i, len - 6)`, or `-1`.
pub open spec fn first_cd_marker(s: Seq<u8>, i: int) -> int
    decreases s.len() - i,
{
    if i < 0 || i >= s.len() - 6 {
        -1
    } else if cd_marker_at(s, i) {
        i
    } else {
        first_cd_marker(s, i + 1)
    }
}

/// The counters patched into a packet of 14 bytes or more.
pub open spec fn with_counters(s: Seq<u8>, seq_x80: u8, lane: u16) -> Seq<u8> {
    if s.len() >= 14 {
        s.update(9, seq_x80).update(12, lo8(lane)).update(13, hi8(lane))
    } else {
        s
    }
}

/// A packet template once patched.
pub open spec fn patched_clear_all_packet(s: Seq<u8>, seq_x80: u8, lane: u16, double: Option<[u8; 2]>) -> Seq<u8> {
    let c = with_counters(s, seq_x80, lane);
    match double {
        None => c,
        Some(d) => {
            let k = first_cd_marker(c, 0);
            if k < 0 {
                c
            } else {
                c.update(k + 4, d[0]).update(k + 5, d[1])
            }
        },
    }
}

proof fn lemma_first_cd_marker_bounds(s: Seq<u8>, i: int)
    requires
        0 <= i,
    ensures
        first_cd_marker(s, i) == -1 || (i <= first_cd_marker(s, i) < s.len() - 6 && cd_marker_at(
            s,
            first_cd_marker(s, i),
        )),
    decreases s.len() - i,
{
    if i < s.len() - 6 && !cd_marker_at(s, i) {
        lemma_first_cd_marker_bounds(s, i + 1);
    }
}

/// Patching a clear-all template keeps its length and every byte but the `x80` counter
/// (byte 9), the lane (bytes 12-13, little-endian) and, when an editor double is given, the
/// two bytes 4 and 5 past the first `83 66 cd` of the counter-patched packet (which win over
/// the counters should that marker start below byte 14).
pub proof fn law_clear_all_patches_only_counters(t: Seq<u8>, seq_x80: u8, lane: u16, double: Option<[u8; 2]>, j: int)
    requires
        t.len() >= 14,
    ensures
        ({
            let p = patched_clear_all_packet(t, seq_x80, lane, double);
            let k = first_cd_marker(with_counters(t, seq_x80, lane), 0);
            &&& p.len() == t.len()
            &&& double is None || k < 0 || k > 13 ==> p[9] == seq_x80 && p[12] == lo8(lane) && p[13] == hi8(lane)
            &&& double is Some && k >= 0 ==> k + 5 < t.len() && p[k + 4] == double->0@[0] && p[k + 5] == double->0@[1]
            &&& (0 <= j < t.len() && j != 9 && j != 12 && j != 13 && (double is None || k < 0 || (j != k + 4 && j
                != k + 5))) ==> p[j] == t[j]
        }),
{
    lemma_first_cd_marker_bounds(with_counters(t, seq_x80, lane), 0);
}

/// Patches the `x80` counter (byte 9), the lane (bytes 12-13, LE) and, when given, the editor
/// double after the first `83 66 cd` (bytes +4 and +5).
pub fn patch_clear_all_packet(out: &mut Vec<u8>, seq_x80: u8, lane: u16, editor_double: Option<[u8; 2]>)
    ensures
        final(out)@ == patched_clear_all_packet(old(out)@, seq_x80, lane, editor_double),
{
    if out.len() >= 14 {
        out.set(9, seq_x80);
        out.set(12, crate::bytes::lo_byte(lane));
        out.set(13, crate::bytes::hi_byte(lane));
    }
    let ghost c = out@;
    assert(c == with_counters(old(out)@, seq_x80, lane));
    if let Some(d) = editor_double {
        let n: usize = if out.len() >= 6 { out.len() - 6 } else { 0 };
        let mut i: usize = 0;
        while i < n
            invariant
                out@ == c,
                editor_double == Some(d),
                c == with_counters(old(out)@, seq_x80, lane),
                n == (if c.len() >= 6 { c.len() - 6 } else { 0 }),
                n == 0 || n + 6 == out.len(),
                0 <= i <= n,
                first_cd_marker(c, 0) == first_cd_marker(c, i as int),
            decreases n - i,
        {
            if out[i] == 0x83 && out[i + 1] == 0x66 && out[i + 2] == 0xcd {
                assert(cd_marker_at(c, i as int));
                assert(first_cd_marker(c, i as int) == i);
                out.set(i + 4, d[0]);
                out.set(i + 5, d[1]);
                assert(out@ == c.update(i + 4, d@[0]).update(i + 5, d@[1]));
                assert(first_cd_marker(c, 0) == i);
                return;
            }
            assert(!cd_marker_at(c, i as int));
            assert(first_cd_marker(c, i as int) == first_cd_marker(c, i + 1));
            i = i + 1;
        }
        assert(first_cd_marker(c, i as int) == -1);
    }
}

/// Lane of packet `idx`: the base lane, moved on by the bump from packet 6 on.
pub fn clear_all_lane(base_lane: u16, idx: usize) -> (r: u16)
    ensures
        r == (if idx >= 6 { wadd16(base_lane, 0x11) } else { base_lane }),
{
    if idx >= CLEAR_ALL_LANE_BUMP_AFTER_PACKET {
        base_lane.wrapping_add(CLEAR_ALL_LANE_BUMP_DELTA)
    } else {
        base_lane
    }
}

/// Why a clear-all cannot start now, if it cannot.
pub open spec fn clear_all_refusal(s: HelixState) -> Option<Seq<char>> {
    if !s.session.editor_ready {
        Some("Amorçage USB en cours — clear all indisponible"@)
    } else if s.preset.preset_content_only {
        Some("Lecture preset en cours — reportez clear all"@)
    } else if usb_busy_spec(s) {
        Some("Scroll modèle hardware en cours — reportez clear all"@)
    } else {
        None
    }
}

/// Checks that a clear-all may start: the editor is ready, no preset read and no hardware
/// model scroll is in progress.
pub fn check_clear_all_allowed(state: &HelixState) -> (r: Result<(), String>)
    ensures
        clear_all_refusal(*state) is None ==> r is Ok,
        clear_all_refusal(*state) matches Some(m) ==> (r matches Err(e) && e@ == m),
{
    if !state.session.editor_ready {
        return Err(crate::text::text_of("Amorçage USB en cours — clear all indisponible"));
    }
    if state.preset.preset_content_only {
        return Err(crate::text::text_of("Lecture preset en cours — reportez clear all"));
    }
    if hw_model_usb_busy(state) {
        return Err(crate::text::text_of("Scroll modèle hardware en cours — reportez clear all"));
    }
    Ok(())
}

/// Opens the clear-all wait session and holds the host transaction.
pub fn open_clear_all_wait(state: &mut HelixState)
    ensures
        final(state).tx.usb_host_transaction_hold,
        final(state).tx.clear_all_wait matches Some(w) && w.awaiting == ClearAllAwaiting::Idle && w.events@.len() == 0,
        final(state).tx.matrix_routing_dd_wait == old(state).tx.matrix_routing_dd_wait,
        final(state).tx.standalone_legacy_param_commit == old(state).tx.standalone_legacy_param_commit,
        *final(state) == (HelixState { tx: final(state).tx, ..*old(state) }),
{
    state.tx.usb_host_transaction_hold = true;
    state.tx.clear_all_wait = Some(ClearAllWait { events: Vec::new(), awaiting: ClearAllAwaiting::Idle });
}

/// Drops the ACKs left in the wait session.
pub fn drain_clear_all_events(state: &mut HelixState)
    ensures
        old(state).tx.clear_all_wait is None ==> *final(state) == *old(state),
        old(state).tx.clear_all_wait matches Some(w) ==> (final(state).tx.clear_all_wait matches Some(w2)
            && w2.events@.len() == 0 && w2.awaiting == w.awaiting),
        final(state).tx.usb_host_transaction_hold == old(state).tx.usb_host_transaction_hold,
        *final(state) == (HelixState { tx: final(state).tx, ..*old(state) }),
{
    if let Some(mut w) = state.tx.clear_all_wait.take() {
        w.events = Vec::new();
        state.tx.clear_all_wait = Some(w);
    }
}

/// Takes the next received ACK, if any.
pub fn take_clear_all_event(state: &mut HelixState) -> (r: Option<ClearAllInEvent>)
    ensures
        ({
            let s = *old(state);
            match s.tx.clear_all_wait {
                None => r is None && *final(state) == s,
                Some(w) => if w.events@.len() == 0 {
                    r is None && *final(state) == s
                } else {
                    r == Some(w.events@[0]) && (final(state).tx.clear_all_wait matches Some(w2)
                        && w2.events@ == w.events@.drop_first() && w2.awaiting == w.awaiting)
                },
            }
        }),
        final(state).tx.usb_host_transaction_hold == old(state).tx.usb_host_transaction_hold,
        *final(state) == (HelixState { tx: final(state).tx, ..*old(state) }),
{
    let n = match &state.tx.clear_all_wait {
        None => return None,
        Some(w) => w.events.len(),
    };
    if n == 0 {
        return None;
    }
    let mut w = state.tx.clear_all_wait.take().unwrap();
    let ev = w.events.remove(0);
    state.tx.clear_all_wait = Some(w);
    Some(ev)
}

/// Closes the wait session and releases the host transaction.
pub fn close_clear_all_wait(state: &mut HelixState)
    ensures
        !final(state).tx.usb_host_transaction_hold,
        final(state).tx.clear_all_wait is None,
        final(state).tx.matrix_routing_dd_wait == old(state).tx.matrix_routing_dd_wait,
        final(state).tx.standalone_legacy_param_commit == old(state).tx.standalone_legacy_param_commit,
        *final(state) == (HelixState { tx: final(state).tx, ..*old(state) }),
{
    state.tx.clear_all_wait = None;
    state.tx.usb_host_transaction_hold = false;
}

/// One step of the sequence: patches template `idx` (lane from the base lane, next `x80`
/// counter, editor double on the first packet), arms the ACK wait when asked, and queues the
/// packet. Arming before queueing keeps the ACK from arriving ahead of the wait.
pub fn send_clear_all_packet(
    state: &mut HelixState,
    template: &[u8],
    idx: usize,
    base_lane: u16,
    editor_double: [u8; 2],
    await_after: bool,
)
    ensures
        ({
            let s = *old(state);
            let double = if idx == 0 { Some(editor_double) } else { None };
            let lane = if idx >= 6 { wadd16(base_lane, 0x11) } else { base_lane };
            let pkt = patched_clear_all_packet(template@, s.counters.x80_cnt, lane, double);
            &&& final(state).outbox@.len() == s.outbox@.len() + 1
            &&& final(state).outbox@.drop_last() == s.outbox@
            &&& final(state).outbox@.last().data@ == pkt
            &&& final(state).outbox@.last().delay_ms == 0
            &&& final(state).outbox@.last().tail_burst@.len() == 0
            &&& final(state).counters == (Counters { x80_cnt: wadd8(s.counters.x80_cnt, 1), ..s.counters })
            &&& (await_after && s.tx.clear_all_wait is Some) ==> (final(state).tx.clear_all_wait matches Some(w2)
                && w2.awaiting == ClearAllAwaiting::Ack && w2.events@ == s.tx.clear_all_wait->0.events@)
            &&& !(await_after && s.tx.clear_all_wait is Some) ==> final(state).tx == s.tx
            &&& final(state).tx == (Transactions { clear_all_wait: final(state).tx.clear_all_wait, ..s.tx })
            &&& *final(state) == (HelixState {
                counters: final(state).counters,
                tx: final(state).tx,
                outbox: final(state).outbox,
                ..s
            })
        }),
{
    let mut pkt = vstd::slice::slice_to_vec(template);
    let lane = clear_all_lane(base_lane, idx);
    let double = if idx == 0 { Some(editor_double) } else { None };
    let x80 = state.next_x80_cnt();
    patch_clear_all_packet(&mut pkt, x80, lane, double);
    if await_after {
        if let Some(mut w) = state.tx.clear_all_wait.take() {
            w.arm_await();
            state.tx.clear_all_wait = Some(w);
        }
    }
    state.send(OutPacket::new(pkt));
}

/// After the last packet: the live write lane keeps the bumped lane.
pub fn finish_clear_all(state: &mut HelixState, base_lane: u16)
    ensures
        *final(state) == (HelixState {
            counters: Counters { live_write_ctr: wadd16(base_lane, 0x11), ..old(state).counters },
            ..*old(state)
        }),
{
    state.counters.live_write_ctr = base_lane.wrapping_add(CLEAR_ALL_LANE_BUMP_DELTA);
}

/// Where a clear-all stands.
#[derive(PartialEq, Eq, Structural, Clone, Copy, Debug)]
pub enum ClearAllStep {
    /// Packet `idx` goes out next.
    Send(usize),
    /// The ACK after packet `idx` is awaited until the deadline (session clock).
    AwaitAck(usize, u64),
    /// Every packet went out; the live write lane moved on.
    Done,
    /// No ACK came after packet `idx` before the deadline.
    TimedOut(usize),
}

/// Fixed inputs of a clear-all: the lane and editor double at its start, and whether ACKs are
/// awaited.
#[derive(Clone, Copy, Debug)]
pub struct ClearAllRun {
    pub base_lane: u16,
    pub editor_double: [u8; 2],
    pub handshake: bool,
}

/// The run of a clear-all started now: the current live write lane and editor double.
pub fn clear_all_run_of(state: &HelixState, handshake: bool) -> (r: ClearAllRun)
    ensures
        r.base_lane == state.counters.live_write_ctr,
        r.editor_double@ == seq![lo8(state.lanes.editor_ed03_double), hi8(state.lanes.editor_ed03_double)],
        r.handshake == handshake,
{
    ClearAllRun {
        base_lane: state.counters.live_write_ctr,
        editor_double: state.editor_ed03_double_val(),
        handshake,
    }
}

/// Index after `i`, staying at `usize::MAX`.
pub open spec fn next_index(i: usize) -> usize {
    if i < usize::MAX { (i + 1) as usize } else { i }
}

/// One step of a clear-all over `templates`. `Send(i)`: past the last template the lane
/// moves on and the run is done; else the ACKs left are dropped when one is awaited after
/// this packet, the packet goes out (see `send_clear_all_packet`) and the run waits for the
/// ACK until `CLEAR_ALL_ACK_TIMEOUT_MS` from now, or moves to the next packet. `AwaitAck`: a
/// received ACK moves to the next packet; without one the run times out at the deadline.
/// `Done` and `TimedOut` stay as they are.
pub fn clear_all_advance(state: &mut HelixState, run: &ClearAllRun, templates: &[Vec<u8>], step: ClearAllStep) -> (r: ClearAllStep)
    ensures
        ({
            let s = *old(state);
            match step {
                ClearAllStep::Send(i) => if i >= templates@.len() {
                    &&& r == ClearAllStep::Done
                    &&& *final(state) == (HelixState {
                        counters: Counters { live_write_ctr: wadd16(run.base_lane, 0x11), ..s.counters },
                        ..s
                    })
                } else {
                    let aw = run.handshake && i < 14 && await_ack_after_spec(i as int);
                    let double = if i == 0 { Some(run.editor_double) } else { None };
                    let lane = if i >= 6 { wadd16(run.base_lane, 0x11) } else { run.base_lane };
                    &&& r == (if aw {
                        ClearAllStep::AwaitAck(i, crate::state::deadline_after(s.now_ms, CLEAR_ALL_ACK_TIMEOUT_MS))
                    } else {
                        ClearAllStep::Send((i + 1) as usize)
                    })
                    &&& final(state).outbox@.len() == s.outbox@.len() + 1
                    &&& final(state).outbox@.drop_last() == s.outbox@
                    &&& final(state).outbox@.last().data@ == patched_clear_all_packet(templates@[i as int]@, s.counters.x80_cnt, lane, double)
                    &&& final(state).outbox@.last().delay_ms == 0
                    &&& final(state).counters == (Counters { x80_cnt: wadd8(s.counters.x80_cnt, 1), ..s.counters })
                    &&& (aw && s.tx.clear_all_wait is Some) ==> (final(state).tx.clear_all_wait matches Some(w2)
                        && w2.awaiting == ClearAllAwaiting::Ack && w2.events@.len() == 0)
                    &&& !aw ==> final(state).tx == s.tx
                    &&& final(state).tx.usb_host_transaction_hold == s.tx.usb_host_transaction_hold
                    &&& *final(state) == (HelixState {
                        counters: final(state).counters,
                        tx: final(state).tx,
                        outbox: final(state).outbox,
                        ..s
                    })
                },
                ClearAllStep::AwaitAck(i, d) => match s.tx.clear_all_wait {
                    Some(w) if w.events@.len() > 0 => {
                        &&& r == ClearAllStep::Send(next_index(i))
                        &&& final(state).tx.clear_all_wait matches Some(w2)
                        &&& w2.events@ == w.events@.drop_first() && w2.awaiting == w.awaiting
                        &&& final(state).tx.usb_host_transaction_hold == s.tx.usb_host_transaction_hold
                        &&& *final(state) == (HelixState { tx: final(state).tx, ..s })
                    },
                    _ => {
                        &&& r == (if s.now_ms >= d { ClearAllStep::TimedOut(i) } else { step })
                        &&& *final(state) == s
                    },
                },
                _ => r == step && *final(state) == s,
            }
        }),
{
    match step {
        ClearAllStep::Send(i) => {
            if i >= templates.len() {
                finish_clear_all(state, run.base_lane);
                return ClearAllStep::Done;
            }
            let await_after = run.handshake && clear_all_await_ack_after(i);
            if await_after {
                drain_clear_all_events(state);
            }
            let now = state.now_ms;
            send_clear_all_packet(state, templates[i].as_slice(), i, run.base_lane, run.editor_double, await_after);
            if await_after {
                ClearAllStep::AwaitAck(i, crate::state::deadline_from(now, CLEAR_ALL_ACK_TIMEOUT_MS))
            } else {
                ClearAllStep::Send(i + 1)
            }
        },
        ClearAllStep::AwaitAck(i, d) => {
            match take_clear_all_event(state) {
                Some(_) => ClearAllStep::Send(if i < usize::MAX { i + 1 } else { i }),
                None => if state.now_ms >= d { ClearAllStep::TimedOut(i) } else { step },
            }
        },
        _ => step,
    }
}

/// Text of a clear-all timeout after packet `idx`.
pub open spec fn clear_all_timeout_text(idx: usize) -> Seq<char> {
    "clear all idx="@ + crate::text::decimal_of(idx as nat) + " : timeout "@
        + crate::text::decimal_of(CLEAR_ALL_ACK_TIMEOUT_MS as nat) + " ms sans ack device"@
}

/// Error of a clear-all that timed out after packet `idx`.
pub fn clear_all_timeout_message(idx: usize) -> (r: String)
    ensures
        r@ == clear_all_timeout_text(idx),
{
    let mut e = crate::text::text_of("clear all idx=");
    crate::text::push_decimal(&mut e, idx as u64);
    crate::text::string_push_str(&mut e, " : timeout ");
    crate::text::push_decimal(&mut e, CLEAR_ALL_ACK_TIMEOUT_MS);
    crate::text::string_push_str(&mut e, " ms sans ack device");
    e
}

} // verus!
