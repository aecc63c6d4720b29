//! Split/merge drag & drop handshake. Per gesture: arm `ed`+`f0` sub=`10`; write #1 `1d`
//! `cd:03` → IN `19` → ACK `ed` → IN `21` → ACK `f0`; write #2 `1b` `cd:03` → IN `19` →
//! ACK `ed` → IN `25` → ACK `f0`. The waits belong to the caller; the IN layer records the
//! awaited events in the wait session.
use vstd::prelude::*;
use crate::bytes::{lo8, hi8, wadd8};
use crate::matrix_routing_move::RoutingMarkerKind;
use crate::packet::OutPacket;
use crate::path1_io_live_write::{build_f0_dd_post_commit_sub08, build_post_1d_ack08, post_1d_ack08_packet};
use crate::state::{next_editor_double_spec, Counters, EditorLanes, HelixState, Transactions};

verus! {

pub const DD_TIMEOUT_MS: u64 = 800;
pub const DD_POLL_MS: u64 = 5;
pub const DD_DELAY_AFTER_ARM_MS: u64 = 35;
pub const DD_INTER_ACK_MS: u64 = 15;

#[derive(PartialEq, Eq, Structural, Clone, Copy, Debug)]
pub enum DdInEvent {
    In19,
    In21,
    In25,
}

#[derive(PartialEq, Eq, Structural, Clone, Copy, Debug)]
pub enum DdAwaiting {
    Idle,
    In19,
    In21,
    In25,
}

/// IN wait of a routing move: the event awaited and the events received for the caller.
pub struct MatrixRoutingDdWait {
    pub events: Vec<DdInEvent>,
    pub awaiting: DdAwaiting,
}

impl MatrixRoutingDdWait {
    pub fn arm_await(&mut self, kind: DdAwaiting)
        ensures
            final(self).awaiting == kind,
            final(self).events@ == old(self).events@,
    {
        self.awaiting = kind;
    }
}

pub open spec fn dd_in19_spec(data: Seq<u8>) -> bool {
    data.len() == 36 && data[0] == 0x19 && data[4] == 0xed && data[5] == 0x03 && data[6] == 0x80
        && data[7] == 0x10 && data[11] == 0x04
}

pub open spec fn dd_in21_spec(data: Seq<u8>) -> bool {
    data.len() == 44 && data[0] == 0x21 && data[4] == 0xf0 && data[5] == 0x03 && data[6] == 0x02
        && data[7] == 0x10 && data[11] == 0x04
}

pub open spec fn dd_in25_spec(data: Seq<u8>) -> bool {
    data.len() == 48 && data[0] == 0x25 && data[4] == 0xf0 && data[5] == 0x03 && data[6] == 0x02
        && data[7] == 0x10 && data[11] == 0x04
}

pub open spec fn dd_device_ack08_spec(data: Seq<u8>) -> bool {
    data.len() == 16 && data[0] == 0x08 && data[1] == 0x00 && data[2] == 0x00 && data[3] == 0x18
        && data[4] == 0xed && data[5] == 0x03 && data[6] == 0x80 && data[7] == 0x10 && data[11] == 0x08
}

pub fn is_routing_dd_in19(data: &[u8]) -> (r: bool)
    ensures
        r == dd_in19_spec(data@),
{
    data.len() == 36 && data[0] == 0x19 && data[4] == 0xed && data[5] == 0x03 && data[6] == 0x80
        && data[7] == 0x10 && data[11] == 0x04
}

pub fn is_routing_dd_in21(data: &[u8]) -> (r: bool)
    ensures
        r == dd_in21_spec(data@),
{
    data.len() == 44 && data[0] == 0x21 && data[4] == 0xf0 && data[5] == 0x03 && data[6] == 0x02
        && data[7] == 0x10 && data[11] == 0x04
}

/// Post-commit dump after write #2.
pub fn is_routing_dd_in25(data: &[u8]) -> (r: bool)
    ensures
        r == dd_in25_spec(data@),
{
    data.len() == 48 && data[0] == 0x25 && data[4] == 0xf0 && data[5] == 0x03 && data[6] == 0x02
        && data[7] == 0x10 && data[11] == 0x04
}

/// Any IN `19`/`21`/`25` of the routing dialogue.
pub fn is_routing_dd_session_in(data: &[u8]) -> (r: bool)
    ensures
        r == (dd_in19_spec(data@) || dd_in21_spec(data@) || dd_in25_spec(data@)),
{
    is_routing_dd_in19(data) || is_routing_dd_in21(data) || is_routing_dd_in25(data)
}

/// Short device echo `ed:03` sub=`08` after a routing bulk.
pub fn is_routing_dd_device_ed03_ack08(data: &[u8]) -> (r: bool)
    ensures
        r == dd_device_ack08_spec(data@),
{
    data.len() == 16 && data[0] == 0x08 && data[1] == 0x00 && data[2] == 0x00 && data[3] == 0x18
        && data[4] == 0xed && data[5] == 0x03 && data[6] == 0x80 && data[7] == 0x10 && data[11]
        == 0x08
}

/// IN that the routing layer absorbs (dialogue and device echoes).
pub fn is_routing_dd_pipeline_in(data: &[u8]) -> (r: bool)
    ensures
        r == (dd_in19_spec(data@) || dd_in21_spec(data@) || dd_in25_spec(data@) || dd_device_ack08_spec(data@)),
{
    is_routing_dd_session_in(data) || is_routing_dd_device_ed03_ack08(data)
}

/// The event an awaited IN frame brings, if any.
pub open spec fn dd_event_for(awaiting: DdAwaiting, data: Seq<u8>) -> Option<DdInEvent> {
    match awaiting {
        DdAwaiting::In19 => if dd_in19_spec(data) { Some(DdInEvent::In19) } else { None },
        DdAwaiting::In21 => if dd_in21_spec(data) { Some(DdInEvent::In21) } else { None },
        DdAwaiting::In25 => if dd_in25_spec(data) { Some(DdInEvent::In25) } else { None },
        DdAwaiting::Idle => None,
    }
}

/// Records the awaited event of an IN frame in the wait session (the wait goes idle).
pub fn try_notify_routing_dd_in(state: &mut HelixState, data: &[u8]) -> (r: bool)
    ensures
        ({
            let s = *old(state);
            match s.tx.matrix_routing_dd_wait {
                None => !r && *final(state) == s,
                Some(w) => match dd_event_for(w.awaiting, data@) {
                    None => !r && *final(state) == s,
                    Some(ev) => r && (final(state).tx.matrix_routing_dd_wait matches Some(w2)
                        && w2.awaiting == DdAwaiting::Idle && w2.events@ == w.events@.push(ev))
                        && *final(state) == (HelixState { tx: final(state).tx, ..s })
                        && final(state).tx.usb_host_transaction_hold == s.tx.usb_host_transaction_hold
                        && final(state).tx.clear_all_wait == s.tx.clear_all_wait
                        && final(state).tx.standalone_legacy_param_commit == s.tx.standalone_legacy_param_commit,
                },
            }
        }),
{
    let mut wait = match state.tx.matrix_routing_dd_wait.take() {
        Some(w) => w,
        None => return false,
    };
    let event = match wait.awaiting {
        DdAwaiting::In19 => if is_routing_dd_in19(data) { Some(DdInEvent::In19) } else { None },
        DdAwaiting::In21 => if is_routing_dd_in21(data) { Some(DdInEvent::In21) } else { None },
        DdAwaiting::In25 => if is_routing_dd_in25(data) { Some(DdInEvent::In25) } else { None },
        DdAwaiting::Idle => None,
    };
    match event {
        None => {
            state.tx.matrix_routing_dd_wait = Some(wait);
            false
        },
        Some(ev) => {
            wait.awaiting = DdAwaiting::Idle;
            wait.events.push(ev);
            state.tx.matrix_routing_dd_wait = Some(wait);
            true
        },
    }
}

/// Write #2 `1b` (36 bytes): lane `(lo + 0x11, b13, b14)` of write #1, the next editor
/// double low byte as tag, `2e` (split) / `2f` (merge), destination column + 1 on byte 34.
pub open spec fn path2_commit_packet(cnt: u8, lane0: u8, lane1: u8, lane2: u8, tag: u8, mid: u8, dest_wire: u8) -> Seq<u8> {
    seq![
        0x1bu8, 0x00, 0x00, 0x18, 0x80, 0x10, 0xed, 0x03, 0x00, cnt, 0x00, 0x04, wadd8(lane0, 0x11),
        lane1, lane2, 0x00, 0x01, 0x00, 0x06, 0x00, 0x0b, 0x00, 0x00, 0x00, 0x83, 0x66, 0xcd, 0x03,
        tag, 0x64, mid, 0x65, 0x81, 0x62, dest_wire, 0x00,
    ]
}

/// Write #2 marks the marker it moves (byte 30: `2e` for the split, `2f` for the merge) and
/// addresses the destination boundary column plus one (byte 34) on the `81:62` bus; it rides
/// the lane of write #1 moved on by `0x11` (byte 12) on the assign lane `83 66 cd 03`.
pub proof fn law_path2_commit_names_marker_and_column(
    cnt: u8,
    lane: Seq<u8>,
    tag: u8,
    kind: RoutingMarkerKind,
    dest_boundary_col: u8,
)
    requires
        lane.len() == 3,
        dest_boundary_col < 255,
    ensures
        ({
            let p = path2_commit_packet(
                cnt,
                lane[0],
                lane[1],
                lane[2],
                tag,
                if kind == RoutingMarkerKind::Split { 0x2eu8 } else { 0x2fu8 },
                wadd8(dest_boundary_col, 1),
            );
            &&& p.len() == 36
            &&& (p[30] == 0x2e) == (kind == RoutingMarkerKind::Split)
            &&& (p[30] == 0x2f) == (kind == RoutingMarkerKind::Merge)
            &&& p[32] == 0x81 && p[33] == 0x62 && p[34] == dest_boundary_col + 1
            &&& p[12] == (lane[0] + 0x11) % 256 && p[13] == lane[1] && p[14] == lane[2]
            &&& p[24] == 0x83 && p[25] == 0x66 && p[26] == 0xcd && p[27] == 0x03
            &&& p[28] == tag && p[9] == cnt
        }),
{
}

pub fn build_matrix_routing_path2_commit_packet(
    state: &mut HelixState,
    kind: RoutingMarkerKind,
    dest_boundary_col: u8,
    path1_lane: [u8; 3],
) -> (r: Vec<u8>)
    ensures
        ({
            let s = *old(state);
            let d = next_editor_double_spec(s.lanes.editor_ed03_double, s.lanes.editor_double_pin_hi, s.lanes.editor_double_skip_00);
            &&& r@ == path2_commit_packet(
                s.counters.x80_cnt,
                path1_lane@[0],
                path1_lane@[1],
                path1_lane@[2],
                lo8(d),
                if kind == RoutingMarkerKind::Split { 0x2eu8 } else { 0x2fu8 },
                wadd8(dest_boundary_col, 1),
            )
            &&& *final(state) == (HelixState {
                counters: Counters { x80_cnt: wadd8(s.counters.x80_cnt, 1), ..s.counters },
                lanes: EditorLanes { editor_ed03_double: d, ..s.lanes },
                ..s
            })
        }),
{
    let tag = state.next_editor_ed03_double()[0];
    let mid_byte: u8 = match kind {
        RoutingMarkerKind::Split => 0x2e,
        RoutingMarkerKind::Merge => 0x2f,
    };
    let dest_wire = dest_boundary_col.wrapping_add(1);
    let cnt = state.next_x80_cnt();
    let lane_lo = path1_lane[0].wrapping_add(0x11);
    vec![
        0x1b, 0x00, 0x00, 0x18, 0x80, 0x10, 0xed, 0x03, 0x00, cnt, 0x00, 0x04, lane_lo,
        path1_lane[1], path1_lane[2], 0x00, 0x01, 0x00, 0x06, 0x00, 0x0b, 0x00, 0x00, 0x00, 0x83,
        0x66, 0xcd, 0x03, tag, 0x64, mid_byte, 0x65, 0x81, 0x62, dest_wire, 0x00,
    ]
}

/// ACK `ed` of a routing write: bytes 12-13 = `out[12] + 0x11`, `out[13]` (+ 1 for a merge
/// write #2).
pub fn send_ed_ack(state: &mut HelixState, out_pkt: &[u8], ack_hi_plus_one: bool)
    requires
        old(state).outbox@.len() < usize::MAX,
        out_pkt@.len() >= 14,
    ensures
        final(state).outbox@.len() == old(state).outbox@.len() + 1,
        final(state).outbox@.drop_last() == old(state).outbox@,
        final(state).outbox@.last().data@ == post_1d_ack08_packet(
            old(state).counters.x80_cnt,
            wadd8(out_pkt@[12], 0x11),
            if ack_hi_plus_one { wadd8(out_pkt@[13], 1) } else { out_pkt@[13] },
        ),
        *final(state) == (HelixState {
            counters: Counters { x80_cnt: wadd8(old(state).counters.x80_cnt, 1), ..old(state).counters },
            outbox: final(state).outbox,
            ..*old(state)
        }),
{
    let ack_lo = out_pkt[12].wrapping_add(0x11);
    let ack_hi = if ack_hi_plus_one { out_pkt[13].wrapping_add(1) } else { out_pkt[13] };
    let post_ed = build_post_1d_ack08(state, ack_lo, ack_hi);
    state.send(OutPacket::new(post_ed));
}

/// ACK `f0` sub=`08` after a routing dump, on the background scroll lane.
pub fn send_f0_ack(state: &mut HelixState)
    ensures
        final(state).outbox@.len() == old(state).outbox@.len() + 1,
        final(state).outbox@.drop_last() == old(state).outbox@,
        final(state).outbox@.last().data@ == crate::path1_io_live_write::f0_dd_packet(
            old(state).counters.x2_cnt,
            0x08,
            lo8(old(state).scroll.firmware_scroll_ack_ctr),
            hi8(old(state).scroll.firmware_scroll_ack_ctr),
        ),
        final(state).outbox@.last().delay_ms == DD_INTER_ACK_MS,
        *final(state) == (HelixState {
            counters: Counters { x2_cnt: wadd8(old(state).counters.x2_cnt, 1), ..old(state).counters },
            outbox: final(state).outbox,
            ..*old(state)
        }),
{
    let post_f0 = build_f0_dd_post_commit_sub08(state);
    state.send(OutPacket::with_delay(post_f0, DD_INTER_ACK_MS));
}

/// Opens the routing wait session and holds the host transaction.
pub fn open_routing_dd_wait(state: &mut HelixState)
    ensures
        final(state).tx.usb_host_transaction_hold,
        final(state).tx.matrix_routing_dd_wait matches Some(w) && w.awaiting == DdAwaiting::Idle && w.events@.len() == 0,
        final(state).tx.clear_all_wait == old(state).tx.clear_all_wait,
        final(state).tx.standalone_legacy_param_commit == old(state).tx.standalone_legacy_param_commit,
        *final(state) == (HelixState { tx: final(state).tx, ..*old(state) }),
{
    state.tx.usb_host_transaction_hold = true;
    state.tx.matrix_routing_dd_wait = Some(MatrixRoutingDdWait { events: Vec::new(), awaiting: DdAwaiting::Idle });
}

/// Sets the awaited event of an open routing wait session.
pub fn arm_routing_dd_await(state: &mut HelixState, kind: DdAwaiting)
    ensures
        old(state).tx.matrix_routing_dd_wait is None ==> *final(state) == *old(state),
        old(state).tx.matrix_routing_dd_wait matches Some(w) ==> (final(state).tx.matrix_routing_dd_wait matches Some(
            w2,
        ) && w2.awaiting == kind && w2.events@ == w.events@),
        final(state).tx.usb_host_transaction_hold == old(state).tx.usb_host_transaction_hold,
        *final(state) == (HelixState { tx: final(state).tx, ..*old(state) }),
{
    if let Some(mut w) = state.tx.matrix_routing_dd_wait.take() {
        w.arm_await(kind);
        state.tx.matrix_routing_dd_wait = Some(w);
    }
}

/// Takes the next received routing event, oldest first.
pub fn take_routing_dd_event(state: &mut HelixState) -> (r: Option<DdInEvent>)
    ensures
        ({
            let s = *old(state);
            match s.tx.matrix_routing_dd_wait {
                None => r is None && *final(state) == s,
                Some(w) => if w.events@.len() == 0 {
                    r is None && (final(state).tx.matrix_routing_dd_wait matches Some(w2) && w2.events@.len() == 0
                        && w2.awaiting == w.awaiting)
                } else {
                    r == Some(w.events@[0]) && (final(state).tx.matrix_routing_dd_wait matches Some(w2)
                        && w2.events@ == w.events@.drop_first() && w2.awaiting == w.awaiting)
                },
            }
        }),
        *final(state) == (HelixState { tx: final(state).tx, ..*old(state) }),
        final(state).tx.usb_host_transaction_hold == old(state).tx.usb_host_transaction_hold,
{
    let mut w = match state.tx.matrix_routing_dd_wait.take() {
        Some(w) => w,
        None => return None,
    };
    let r = if w.events.len() == 0 {
        None
    } else {
        Some(w.events.remove(0))
    };
    state.tx.matrix_routing_dd_wait = Some(w);
    r
}

/// Closes the routing wait session and releases the host transaction.
pub fn close_routing_dd_wait(state: &mut HelixState)
    ensures
        !final(state).tx.usb_host_transaction_hold,
        final(state).tx.matrix_routing_dd_wait is None,
        final(state).tx.clear_all_wait == old(state).tx.clear_all_wait,
        final(state).tx.standalone_legacy_param_commit == old(state).tx.standalone_legacy_param_commit,
        *final(state) == (HelixState { tx: final(state).tx, ..*old(state) }),
{
    state.tx.matrix_routing_dd_wait = None;
    state.tx.usb_host_transaction_hold = false;
}

} // verus!
