//! Model change on the active hardware slot.
//!
//! Flow: IN `1d` then `1f` 40-byte notifications (often in the same USB read); one host
//! pull per `1f`: `1b` 36 bytes + short `f0:03` (one burst) → IN ~92 → `19` → IN ~68 →
//! `19` → IN ~272 holding the module id `19 … 1a`. The three `19` must not be sent before
//! the reply to the `1b`. After a pull, a settling window (the device still streams 272-byte
//! chunks) holds back the next `1b`.
use vstd::prelude::*;
use crate::bytes::{lo8, hi8, wadd8, wadd16, lo_byte, hi_byte, from_le};
use crate::packet::{OutPacket, byte_cmp, byte_cmp_spec};
use crate::preset_dump_stream_ack::{is_preset_dump_stream_chunk_in, stream_chunk_spec};
use crate::pull_frames::{
    assign_marker_spec, cd_lane_byte, cd_lane_from, change_notify_loose_spec,
    double_after_cd_from, extract_first_module_hex_from_bulk, first_pull_reply_spec,
    final_meta_bulk_spec, frame_has_assign_marker, in_1c_stub_spec, is_hw_model_change_notify_loose,
    is_hw_model_post_assign_21, is_hw_model_pull_trigger_notify, is_hw_model_slot_cleared_notify,
    is_in_1c_stub, is_pull_final_meta_bulk, looks_like_first_pull_reply,
    looks_like_second_pull_reply, module_hex_spec, parse_slot_bus_from_model_notify,
    post_assign_21_spec, preset_double_after_cd, pull_trigger_spec, second_pull_reply_spec,
    slot_bus_from_notify_spec, slot_cleared_spec,
};
use crate::slots::{
    is_special_slot_bus, is_special_slot_bus_spec, kempline_index_to_slot_bus,
    kempline_index_to_slot_bus_spec, slot_bus_to_kempline_index, slot_bus_to_kempline_index_spec,
};
use crate::state::{
    before_deadline, deadline_after, deadline_from, elapsed_below, elapsed_is_below, is_before,
    Counters, EditorLanes, HelixState, ModelPull, ScrollLanes, SlotTracking,
};

verus! {

/// Delay between the two `19` (after an IN reply).
pub const INTER_19_DELAY_MS: u64 = 4;
/// No new pull right after a pull is done.
pub const PULL_COOLDOWN_AFTER_DONE_MS: u64 = 40;
/// After finalize: no pending pull and no `1d` ACK.
pub const PULL_POST_FINALIZE_QUIET_MS: u64 = 85;
/// Silence required after a pull before the next `1b`.
pub const PULL_POST_PULL_SETTLING_MS: u64 = 50;
/// No preset content request during and after a hardware scroll.
pub const HW_MODEL_USB_BUSY_AFTER_SCROLL_MS: u64 = 700;
/// Wait for the ~272-byte bulk after `19` #2.
pub const PULL_CAPTURE_MS: u64 = 600;
pub const PULL_CAPTURE_MAX_FRAMES: usize = 48;
/// Pull counter step from the `1b` to the first `19`.
pub const PULL_CTR_DELTA_AFTER_1B: u16 = 0x004b;
/// Pull counter step between the two `19`.
pub const PULL_CTR_DELTA_AFTER_19: u16 = 0x0031;
/// Scroll lane step of the second interstitial `f0` that HX Edit sends after `19` #1.
pub const PULL_SCROLL_ACK_ADVANCE_AFTER_INTERSTITIAL_F0: u16 = 0x002e;

/// Emitted when the model of a hardware slot changed (or the slot was emptied).
pub struct SlotModelHwChangedPayload {
    pub sequence: u32,
    pub slot_index: u32,
    pub slot_bus: u8,
    pub module_hex: Option<String>,
}

/// Step of the pull scroll-ACK lane: none on the first ACK of the lane, then `0x17` after
/// a `1f`, `0x15` after a `1d`, `0x2e` from a `1f`/`21` to a `1d`; after a `1f` "None",
/// the next `1d` keeps the lane once.
pub open spec fn pull_scroll_step_spec(prev: Option<u8>, head: u8, skip_inc_once: bool) -> (u16, bool) {
    if skip_inc_once && prev == Some(0x1fu8) && head == 0x1d {
        (0, false)
    } else {
        match prev {
            None => (0, skip_inc_once),
            Some(p) => if head == 0x1f {
                (0x17, skip_inc_once)
            } else if head == 0x1d && (p == 0x1f || p == 0x21) {
                (0x2e, skip_inc_once)
            } else {
                (0x15, skip_inc_once)
            },
        }
    }
}

/// The pull scroll-ACK lanes after an ACK of `head`.
pub open spec fn pull_scroll_lanes_after(s: ScrollLanes, head: u8) -> ScrollLanes {
    let (step, skip) = pull_scroll_step_spec(
        s.hw_model_scroll_ack_prev,
        head,
        s.hw_model_scroll_skip_inc_once,
    );
    ScrollLanes {
        hw_model_scroll_ack_ctr: wadd16(s.hw_model_scroll_ack_ctr, step as int),
        hw_model_scroll_ack_prev: Some(head),
        hw_model_scroll_skip_inc_once: skip,
        ..s
    }
}

/// Editor double of a pull `1b`: three steps on the low byte, high byte `0x64`.
pub open spec fn pull_double_spec(d: u16) -> u16 {
    (0x6400 + (d % 256 + 3) % 256) as u16
}

impl HelixState {
    /// Bytes of the pull scroll-ACK lane (low, high).
    pub fn hw_model_scroll_ack_double(&self) -> (r: [u8; 2])
        ensures
            r@ == seq![lo8(self.scroll.hw_model_scroll_ack_ctr), hi8(self.scroll.hw_model_scroll_ack_ctr)],
    {
        let r = [lo_byte(self.scroll.hw_model_scroll_ack_ctr), hi_byte(self.scroll.hw_model_scroll_ack_ctr)];
        assert(r@ == seq![lo8(self.scroll.hw_model_scroll_ack_ctr), hi8(self.scroll.hw_model_scroll_ack_ctr)]);
        r
    }

    /// Steps the pull scroll-ACK lane for an ACK of `head` and returns its new bytes.
    pub fn next_hw_model_scroll_ack_double(&mut self, head: u8) -> (r: [u8; 2])
        ensures
            *final(self) == (HelixState { scroll: pull_scroll_lanes_after(old(self).scroll, head), ..*old(self) }),
            r@ == seq![lo8(final(self).scroll.hw_model_scroll_ack_ctr), hi8(final(self).scroll.hw_model_scroll_ack_ctr)],
    {
        let prev = self.scroll.hw_model_scroll_ack_prev;
        let skip = self.scroll.hw_model_scroll_skip_inc_once;
        let (step, skip_next): (u16, bool) = if skip && prev == Some(0x1fu8) && head == 0x1d {
            (0, false)
        } else {
            match prev {
                None => (0, skip),
                Some(p) => if head == 0x1f {
                    (0x17, skip)
                } else if head == 0x1d && (p == 0x1f || p == 0x21) {
                    (0x2e, skip)
                } else {
                    (0x15, skip)
                },
            }
        };
        self.scroll.hw_model_scroll_ack_ctr = self.scroll.hw_model_scroll_ack_ctr.wrapping_add(step);
        self.scroll.hw_model_scroll_ack_prev = Some(head);
        self.scroll.hw_model_scroll_skip_inc_once = skip_next;
        self.hw_model_scroll_ack_double()
    }

    /// Editor double of a pull `1b` (three steps on the low byte, high byte `0x64`).
    pub fn next_editor_ed03_double_for_hw_model_pull(&mut self) -> (r: [u8; 2])
        ensures
            *final(self) == (HelixState {
                lanes: EditorLanes {
                    editor_ed03_double: pull_double_spec(old(self).lanes.editor_ed03_double),
                    ..old(self).lanes
                },
                ..*old(self)
            }),
            r@ == seq![lo8(final(self).lanes.editor_ed03_double), 0x64u8],
    {
        let lo: u16 = (self.lanes.editor_ed03_double % 256 + 3) % 256;
        self.lanes.editor_ed03_double = 0x6400 + lo;
        self.editor_ed03_double_val()
    }
}

/// USB busy with a model scroll or pull: no preset dump in parallel.
pub open spec fn usb_busy_spec(s: HelixState) -> bool {
    s.settle_active_spec() || (!s.session.suppress_1d_firmware_notify_ack && (
    s.pull.hw_model_pull_capture_deadline is Some || (s.pull.hw_model_last_scroll_in_at matches Some(
        t,
    ) && elapsed_below(s.now_ms, t, HW_MODEL_USB_BUSY_AFTER_SCROLL_MS)) || (
    s.pull.hw_model_pull_last_at matches Some(t) && elapsed_below(s.now_ms, t, PULL_COOLDOWN_AFTER_DONE_MS))))
}

pub fn hw_model_usb_busy(state: &HelixState) -> (r: bool)
    ensures
        r == usb_busy_spec(*state),
{
    if state.init_usb_settle_active() {
        return true;
    }
    if state.preset_usb_read_in_progress() {
        return false;
    }
    if state.pull.hw_model_pull_capture_deadline.is_some() {
        return true;
    }
    if let Some(t) = state.pull.hw_model_last_scroll_in_at {
        if elapsed_is_below(state.now_ms, t, HW_MODEL_USB_BUSY_AFTER_SCROLL_MS) {
            return true;
        }
    }
    if let Some(t) = state.pull.hw_model_pull_last_at {
        if elapsed_is_below(state.now_ms, t, PULL_COOLDOWN_AFTER_DONE_MS) {
            return true;
        }
    }
    false
}

/// Bus of the active effect slot (from `82:62:SS:1a`).
pub open spec fn active_effect_slot_bus_spec(s: HelixState) -> Option<u8> {
    if s.slot.hw_active_slot_bus matches Some(bus) && !is_special_slot_bus_spec(bus) {
        s.slot.hw_active_slot_bus
    } else {
        match s.slot.hw_active_slot_index {
            Some(i) => kempline_index_to_slot_bus_spec(i as int),
            None => None,
        }
    }
}

pub fn active_effect_slot_bus(state: &HelixState) -> (r: Option<u8>)
    ensures
        r == active_effect_slot_bus_spec(*state),
{
    if let Some(bus) = state.slot.hw_active_slot_bus {
        if !is_special_slot_bus(bus) {
            return Some(bus);
        }
    }
    match state.slot.hw_active_slot_index {
        Some(i) => kempline_index_to_slot_bus(i),
        None => None,
    }
}

/// Slot bus put in the OUT `1b`: the active slot, else the `81:62` of the notification.
pub open spec fn pull_slot_bus_spec(s: HelixState, notify: Seq<u8>) -> Option<u8> {
    if active_effect_slot_bus_spec(s) is Some {
        active_effect_slot_bus_spec(s)
    } else {
        slot_bus_from_notify_spec(notify)
    }
}

pub fn slot_bus_for_model_pull(state: &HelixState, notify: &[u8]) -> (r: Option<u8>)
    ensures
        r == pull_slot_bus_spec(*state, notify@),
{
    if let Some(hw) = active_effect_slot_bus(state) {
        return Some(hw);
    }
    parse_slot_bus_from_model_notify(notify)
}

/// The post-pull settling window is open.
pub open spec fn settling_active_spec(s: HelixState) -> bool {
    s.pull.hw_model_post_pull_settling && before_deadline(s.now_ms, s.pull.hw_model_post_pull_deadline)
}

pub fn post_pull_stream_settling_active(state: &HelixState) -> (r: bool)
    ensures
        r == settling_active_spec(*state),
{
    state.pull.hw_model_post_pull_settling && is_before(state.now_ms, state.pull.hw_model_post_pull_deadline)
}

/// This `1f` starts a pull (`1b` + `f0`).
pub open spec fn would_start_spec(s: HelixState, data: Seq<u8>) -> bool {
    &&& pull_trigger_spec(data)
    &&& !s.settle_active_spec()
    &&& !s.session.suppress_1d_firmware_notify_ack
    &&& !s.preset.preset_content_only
    &&& pull_slot_bus_spec(s, data) is Some
    &&& !settling_active_spec(s)
    &&& s.pull.hw_model_pull_capture_deadline is None
}

pub fn would_start_hw_model_pull_on_1f(state: &HelixState, data: &[u8]) -> (r: bool)
    ensures
        r == would_start_spec(*state, data@),
{
    if !is_hw_model_pull_trigger_notify(data) {
        return false;
    }
    if state.init_usb_settle_active() || state.preset_usb_read_in_progress()
        || state.preset.preset_content_only {
        return false;
    }
    if slot_bus_for_model_pull(state, data).is_none() {
        return false;
    }
    if post_pull_stream_settling_active(state) {
        return false;
    }
    if state.pull.hw_model_pull_capture_deadline.is_some() {
        return false;
    }
    true
}

/// Pattern of a scroll notification ACKed by the pull path.
pub open spec fn scroll_ack_pattern() -> Seq<Option<u8>> {
    seq![
        None, Some(0x00u8), Some(0x00u8), Some(0x18u8), Some(0xf0u8), Some(0x03u8), Some(0x02u8),
        Some(0x10u8), Some(0x00u8), None, Some(0x00u8), Some(0x04u8), Some(0x09u8), Some(0x02u8),
    ]
}

/// ACK `f0:03` sub=`08` with counter `cnt` and lane bytes `d0 d1`.
pub open spec fn f0_ack_packet(cnt: u8, d0: u8, d1: u8) -> Seq<u8> {
    seq![0x08u8, 0x00, 0x00, 0x18, 0x02, 0x10, 0xf0, 0x03, 0x00, cnt, 0x00, 0x08, d0, d1, 0x00, 0x00]
}

/// Sends the pull-path scroll ACK of `data` and steps the pull scroll-ACK lane.
fn send_hw_model_scroll_ack(state: &mut HelixState, data: &[u8]) -> (r: bool)
    ensures
        r,
        ({
            let s = *old(state);
            let head = if data@.len() >= 1 { data@[0] } else { 0u8 };
            let skip = head == 0x1f && slot_cleared_spec(data@);
            let sc0 = ScrollLanes {
                hw_model_scroll_skip_inc_once: s.scroll.hw_model_scroll_skip_inc_once || skip,
                ..s.scroll
            };
            let sc = pull_scroll_lanes_after(sc0, head);
            &&& final(state).scroll == sc
            &&& final(state).counters == (Counters { x2_cnt: wadd8(s.counters.x2_cnt, 1), ..s.counters })
            &&& final(state).pull == (ModelPull {
                hw_model_last_scroll_in_at: if s.preset.preset_data_ready {
                    Some(s.now_ms)
                } else {
                    s.pull.hw_model_last_scroll_in_at
                },
                ..s.pull
            })
            &&& final(state).outbox@ == s.outbox@.push(OutPacket {
                data: final(state).outbox@.last().data,
                delay_ms: 0,
                tail_burst: final(state).outbox@.last().tail_burst,
            })
            &&& final(state).outbox@.last().data@ == f0_ack_packet(
                s.counters.x2_cnt,
                lo8(sc.hw_model_scroll_ack_ctr),
                hi8(sc.hw_model_scroll_ack_ctr),
            )
            &&& final(state).outbox@.last().tail_burst@.len() == 0
            &&& *final(state) == (HelixState {
                scroll: final(state).scroll,
                counters: final(state).counters,
                pull: final(state).pull,
                outbox: final(state).outbox,
                ..s
            })
        }),
{
    let head = if data.len() >= 1 { data[0] } else { 0 };
    if state.preset.preset_data_ready {
        state.pull.hw_model_last_scroll_in_at = Some(state.now_ms);
    }
    let cnt = state.next_x2_cnt();
    if head == 0x1f && is_hw_model_slot_cleared_notify(data) {
        state.scroll.hw_model_scroll_skip_inc_once = true;
    }
    let double = state.next_hw_model_scroll_ack_double(head);
    let pkt = vec![
        0x08, 0x00, 0x00, 0x18,
        0x02, 0x10, 0xf0, 0x03,
        0x00, cnt, 0x00, 0x08,
        double[0], double[1], 0x00, 0x00,
    ];
    state.send(OutPacket::new(pkt));
    true
}


/// The notification is eligible for the pull-path scroll ACK.
pub open spec fn scroll_ack_eligible(data: Seq<u8>) -> bool {
    data.len() == 40 && (data[0] == 0x1d || data[0] == 0x1f) && byte_cmp_spec(
        data,
        scroll_ack_pattern(),
        14,
    )
}

/// A `1d` that the pull path holds back: the ACK is allowed, no capture, no quiet window.
pub open spec fn pull_1d_may_ack(s: HelixState) -> bool {
    s.settle_active_spec() || !s.session.suppress_1d_firmware_notify_ack
}

/// ACK `f0:03` sub=`08` of the firmware `1d` / `1f` 40-byte notifications on the pull path.
///
/// The IN `21` 44-byte post-assign notice is one-way (no ACK). A `1d` is never ACKed at
/// once: when the ACK is allowed (no preset read, or the settle window) and no pull capture
/// or quiet window is active, it is kept back (a previously kept `1d` is ACKed first), since
/// a `1f` that starts a pull follows it unacknowledged in HX Edit. A `1f` that starts a pull
/// drops the kept `1d` and is not ACKed; any other `1f` flushes the kept `1d`, then is ACKed.
pub fn ack_hw_model_scroll_in(state: &mut HelixState, data: &[u8]) -> (r: bool)
    ensures
        ({
            let s = *old(state);
            let head = data@[0];
            &&& !scroll_ack_eligible(data@) ==> !r && *final(state) == s
            &&& scroll_ack_eligible(data@) && head == 0x1d && (!pull_1d_may_ack(s)
                || s.pull.hw_model_pull_capture_deadline is Some || before_deadline(
                s.now_ms,
                s.pull.hw_model_pull_quiet_until,
            )) ==> !r && *final(state) == s
            &&& scroll_ack_eligible(data@) && head == 0x1d && pull_1d_may_ack(s)
                && s.pull.hw_model_pull_capture_deadline is None && !before_deadline(
                s.now_ms,
                s.pull.hw_model_pull_quiet_until,
            ) ==> !r && (final(state).pull.hw_model_scroll_deferred_1d matches Some(v) && v@ == data@)
            &&& scroll_ack_eligible(data@) && head == 0x1f && would_start_spec(s, data@) ==> !r
                && *final(state) == (HelixState {
                pull: ModelPull { hw_model_scroll_deferred_1d: None, ..s.pull },
                ..s
            })
            &&& scroll_ack_eligible(data@) && head == 0x1f && !would_start_spec(s, data@) ==> r
                && final(state).pull.hw_model_scroll_deferred_1d is None
                && final(state).outbox@.len() == s.outbox@.len() + (if s.pull.hw_model_scroll_deferred_1d is Some {
                2int
            } else {
                1int
            })
        }),
{
    if data.len() != 40 {
        return false;
    }
    let head = data[0];
    if head != 0x1d && head != 0x1f {
        return false;
    }
    let pattern: [Option<u8>; 14] = [
        None, Some(0x00), Some(0x00), Some(0x18), Some(0xf0), Some(0x03), Some(0x02), Some(0x10),
        Some(0x00), None, Some(0x00), Some(0x04), Some(0x09), Some(0x02),
    ];
    assert(pattern@ == scroll_ack_pattern());
    if !byte_cmp(data, &pattern, 14) {
        return false;
    }
    if head == 0x1d {
        if !state.should_ack_firmware_1d_notify() {
            return false;
        }
        if state.pull.hw_model_pull_capture_deadline.is_some() || is_before(
            state.now_ms,
            state.pull.hw_model_pull_quiet_until,
        ) {
            return false;
        }
        let prev = state.pull.hw_model_scroll_deferred_1d.take();
        if let Some(prev) = prev {
            let _ = send_hw_model_scroll_ack(state, &prev);
        }
        state.pull.hw_model_scroll_deferred_1d = Some(vstd::slice::slice_to_vec(data));
        return false;
    }
    if would_start_hw_model_pull_on_1f(state, data) {
        state.pull.hw_model_scroll_deferred_1d = None;
        return false;
    }
    let deferred = state.pull.hw_model_scroll_deferred_1d.take();
    if let Some(d1d) = deferred {
        let _ = send_hw_model_scroll_ack(state, &d1d);
    }
    send_hw_model_scroll_ack(state, data)
}


/// Pull `1b`: slot bus at the `81:62` bytes, editor double `d0 d1` on lane `cd_lane`.
pub open spec fn pull_1b_packet(cnt: u8, ctr: u16, cd_lane: u8, d0: u8, d1: u8, slot_bus: u8) -> Seq<u8> {
    seq![
        0x1bu8, 0x00, 0x00, 0x18, 0x80, 0x10, 0xed, 0x03, 0x00, cnt, 0x00, 0x04, lo8(ctr), hi8(ctr), 0x00,
        0x00, 0x01, 0x00, 0x06, 0x00, 0x0b, 0x00, 0x00, 0x00, 0x83, 0x66, 0xcd, cd_lane, d0, d1,
        0x2d, 0x65, 0x81, 0x62, slot_bus, 0x00,
    ]
}

/// Pull `19` (`pre_65` = `0x17` for the first, `0x16` for the second).
pub open spec fn pull_19_packet(cnt: u8, ctr: u16, cd_lane: u8, d0: u8, d1: u8, pre_65: u8) -> Seq<u8> {
    seq![
        0x19u8, 0x00, 0x00, 0x18, 0x80, 0x10, 0xed, 0x03, 0x00, cnt, 0x00, 0x0c, lo8(ctr), hi8(ctr), 0x00,
        0x00, 0x01, 0x00, 0x06, 0x00, 0x09, 0x00, 0x00, 0x00, 0x83, 0x66, 0xcd, cd_lane, d0, d1,
        pre_65, 0x65, 0xc0, 0x00, 0x00, 0x00,
    ]
}

/// Lane byte of the pull OUT frames (`03` unless learnt otherwise).
pub open spec fn cd_lane_out_spec(p: ModelPull) -> u8 {
    match p.hw_model_pull_cd_lane {
        Some(l) => l,
        None => 0x03,
    }
}

fn cd_lane_for_out(state: &HelixState) -> (r: u8)
    ensures
        r == cd_lane_out_spec(state.pull),
{
    match state.pull.hw_model_pull_cd_lane {
        Some(l) => l,
        None => 0x03,
    }
}

/// Pull `1b` and the state after it: x80 counter, editor double three steps on, lane `04`
/// from the low wrap of the double on, pull counter `+0x4b`.
pub fn build_pull_1b(state: &mut HelixState, slot_bus: u8) -> (r: Vec<u8>)
    ensures
        ({
            let s = *old(state);
            let d = pull_double_spec(s.lanes.editor_ed03_double);
            let wrapped = lo8(d) < lo8(s.lanes.editor_ed03_double);
            let pull = if wrapped {
                ModelPull { hw_model_pull_cd_lane: Some(0x04u8), ..s.pull }
            } else {
                s.pull
            };
            &&& r@ == pull_1b_packet(
                s.counters.x80_cnt,
                s.pull.hw_model_pull_ctr,
                cd_lane_out_spec(pull),
                lo8(d),
                0x64,
                slot_bus,
            )
            &&& *final(state) == (HelixState {
                counters: Counters { x80_cnt: wadd8(s.counters.x80_cnt, 1), ..s.counters },
                lanes: EditorLanes { editor_ed03_double: d, ..s.lanes },
                pull: ModelPull {
                    hw_model_pull_ctr: wadd16(s.pull.hw_model_pull_ctr, 0x4b),
                    ..pull
                },
                ..s
            })
        }),
{
    let cnt0 = state.next_x80_cnt();
    let prev_lo = lo_byte(state.lanes.editor_ed03_double);
    let d0 = state.next_editor_ed03_double_for_hw_model_pull();
    if d0[0] < prev_lo {
        state.pull.hw_model_pull_cd_lane = Some(0x04);
    }
    let cd_lane = cd_lane_for_out(state);
    let ctr = state.pull.hw_model_pull_ctr;
    state.pull.hw_model_pull_ctr = state.pull.hw_model_pull_ctr.wrapping_add(PULL_CTR_DELTA_AFTER_1B);
    vec![
        0x1b, 0x00, 0x00, 0x18, 0x80, 0x10, 0xed, 0x03, 0x00, cnt0, 0x00, 0x04, lo_byte(ctr),
        hi_byte(ctr), 0x00, 0x00, 0x01, 0x00, 0x06, 0x00, 0x0b, 0x00, 0x00, 0x00, 0x83, 0x66, 0xcd,
        cd_lane, d0[0], d0[1], 0x2d, 0x65, 0x81, 0x62, slot_bus, 0x00,
    ]
}

/// Short `f0:03` between the `1b` and the first IN bulk, on the pull scroll-ACK lane as it
/// stands (no step).
pub fn build_pull_f0_interstitial(state: &mut HelixState) -> (r: Vec<u8>)
    ensures
        r@ == f0_ack_packet(
            old(state).counters.x2_cnt,
            lo8(old(state).scroll.hw_model_scroll_ack_ctr),
            hi8(old(state).scroll.hw_model_scroll_ack_ctr),
        ),
        *final(state) == (HelixState {
            counters: Counters { x2_cnt: wadd8(old(state).counters.x2_cnt, 1), ..old(state).counters },
            ..*old(state)
        }),
{
    let cnt = state.next_x2_cnt();
    let double = state.hw_model_scroll_ack_double();
    vec![
        0x08, 0x00, 0x00, 0x18, 0x02, 0x10, 0xf0, 0x03, 0x00, cnt, 0x00, 0x08, double[0], double[1],
        0x00, 0x00,
    ]
}

/// Accounts for the second interstitial `f0` of HX Edit (after `19` #1), which is not sent.
pub fn advance_scroll_ack_after_pull_interstitial_f0(state: &mut HelixState)
    ensures
        *final(state) == (HelixState {
            scroll: ScrollLanes {
                hw_model_scroll_ack_ctr: wadd16(old(state).scroll.hw_model_scroll_ack_ctr, 0x2e),
                ..old(state).scroll
            },
            ..*old(state)
        }),
{
    state.scroll.hw_model_scroll_ack_ctr = state.scroll.hw_model_scroll_ack_ctr.wrapping_add(
        PULL_SCROLL_ACK_ADVANCE_AFTER_INTERSTITIAL_F0,
    );
}

/// Pull `19` on the current editor double and lane; pull counter `+0x31`.
pub fn build_pull_19(state: &mut HelixState, second: bool) -> (r: Vec<u8>)
    ensures
        ({
            let s = *old(state);
            &&& r@ == pull_19_packet(
                s.counters.x80_cnt,
                s.pull.hw_model_pull_ctr,
                cd_lane_out_spec(s.pull),
                lo8(s.lanes.editor_ed03_double),
                hi8(s.lanes.editor_ed03_double),
                if second { 0x16u8 } else { 0x17u8 },
            )
            &&& *final(state) == (HelixState {
                counters: Counters { x80_cnt: wadd8(s.counters.x80_cnt, 1), ..s.counters },
                pull: ModelPull { hw_model_pull_ctr: wadd16(s.pull.hw_model_pull_ctr, 0x31), ..s.pull },
                ..s
            })
        }),
{
    let cnt = state.next_x80_cnt();
    let d = state.editor_ed03_double_val();
    let cd_lane = cd_lane_for_out(state);
    let ctr = state.pull.hw_model_pull_ctr;
    state.pull.hw_model_pull_ctr = state.pull.hw_model_pull_ctr.wrapping_add(PULL_CTR_DELTA_AFTER_19);
    let pre_65: u8 = if second { 0x16 } else { 0x17 };
    vec![
        0x19, 0x00, 0x00, 0x18, 0x80, 0x10, 0xed, 0x03, 0x00, cnt, 0x00, 0x0c, lo_byte(ctr),
        hi_byte(ctr), 0x00, 0x00, 0x01, 0x00, 0x06, 0x00, 0x09, 0x00, 0x00, 0x00, 0x83, 0x66, 0xcd,
        cd_lane, d[0], d[1], pre_65, 0x65, 0xc0, 0x00, 0x00, 0x00,
    ]
}

fn send_pull_19_first(state: &mut HelixState)
    ensures
        final(state).pull.hw_model_pull_step == 2,
        final(state).outbox@.len() == old(state).outbox@.len() + 1,
        final(state).outbox@.last().delay_ms == INTER_19_DELAY_MS,
        final(state).slot == old(state).slot,
        final(state).session == old(state).session,
        final(state).preset == old(state).preset,
        final(state).now_ms == old(state).now_ms,
        final(state).pull == (ModelPull {
            hw_model_pull_step: 2,
            hw_model_pull_ctr: final(state).pull.hw_model_pull_ctr,
            ..old(state).pull
        }),
{
    advance_scroll_ack_after_pull_interstitial_f0(state);
    let pkt = build_pull_19(state, false);
    state.send(OutPacket::with_delay(pkt, INTER_19_DELAY_MS));
    state.pull.hw_model_pull_step = 2;
}

fn send_pull_19_second(state: &mut HelixState)
    ensures
        final(state).pull.hw_model_pull_step == 3,
        final(state).outbox@.len() == old(state).outbox@.len() + 1,
        final(state).outbox@.last().delay_ms == INTER_19_DELAY_MS,
        final(state).slot == old(state).slot,
        final(state).session == old(state).session,
        final(state).preset == old(state).preset,
        final(state).now_ms == old(state).now_ms,
        final(state).pull == (ModelPull {
            hw_model_pull_step: 3,
            hw_model_pull_ctr: final(state).pull.hw_model_pull_ctr,
            ..old(state).pull
        }),
{
    let pkt = build_pull_19(state, true);
    state.send(OutPacket::with_delay(pkt, INTER_19_DELAY_MS));
    state.pull.hw_model_pull_step = 3;
}

/// `1b` followed by the interstitial `f0` in one USB burst.
fn send_pull_1b_f0_burst(state: &mut HelixState, slot_bus: u8)
    ensures
        final(state).outbox@.len() == old(state).outbox@.len() + 1,
        final(state).outbox@.last().tail_burst@.len() == 1,
        final(state).outbox@.last().data@[34] == slot_bus,
        final(state).outbox@.last().data@.len() == 36,
        final(state).slot == old(state).slot,
        final(state).session == old(state).session,
        final(state).preset == old(state).preset,
        final(state).scroll == old(state).scroll,
        final(state).now_ms == old(state).now_ms,
        final(state).pull == (ModelPull {
            hw_model_pull_ctr: final(state).pull.hw_model_pull_ctr,
            hw_model_pull_cd_lane: final(state).pull.hw_model_pull_cd_lane,
            ..old(state).pull
        }),
        old(state).pull.hw_model_pull_cd_lane == Some(0x04u8) ==> final(state).pull.hw_model_pull_cd_lane
            == Some(0x04u8),
{
    let pkt1b = build_pull_1b(state, slot_bus);
    let pkt_f0 = build_pull_f0_interstitial(state);
    let mut tail: Vec<Vec<u8>> = Vec::new();
    tail.push(pkt_f0);
    state.send(OutPacket::with_tail_burst(pkt1b, tail));
}

/// Opens the pull capture: step 1, slot bus, capture emptied, lane kept at `04` once learnt.
fn arm_pull_capture(state: &mut HelixState, slot_bus: u8)
    ensures
        *final(state) == (HelixState {
            pull: ModelPull {
                hw_model_pull_capture: final(state).pull.hw_model_pull_capture,
                hw_model_pull_slot_bus: Some(slot_bus),
                hw_model_pull_step: 1,
                hw_model_pull_cd_lane: if old(state).pull.hw_model_pull_cd_lane == Some(0x04u8) {
                    Some(0x04u8)
                } else {
                    None
                },
                hw_model_pull_echo_double: None,
                hw_model_pull_retried_1b: false,
                hw_model_pull_saw_final_bulk: false,
                hw_model_pull_capture_deadline: Some(deadline_after(old(state).now_ms, PULL_CAPTURE_MS)),
                ..old(state).pull
            },
            ..*old(state)
        }),
        final(state).pull.hw_model_pull_capture@.len() == 0,
{
    state.pull.hw_model_pull_capture = Vec::new();
    state.pull.hw_model_pull_slot_bus = Some(slot_bus);
    state.pull.hw_model_pull_step = 1;
    if state.pull.hw_model_pull_cd_lane != Some(0x04u8) {
        state.pull.hw_model_pull_cd_lane = None;
    }
    state.pull.hw_model_pull_echo_double = None;
    state.pull.hw_model_pull_retried_1b = false;
    state.pull.hw_model_pull_saw_final_bulk = false;
    state.pull.hw_model_pull_capture_deadline = Some(deadline_from(state.now_ms, PULL_CAPTURE_MS));
}

/// Starts the pull (`1b` + `f0`), unless the settle window is open (nothing) or the
/// post-pull settling runs (the slot bus is queued).
pub fn send_pull_sequence(state: &mut HelixState, slot_bus: u8)
    ensures
        old(state).settle_active_spec() ==> *final(state) == *old(state),
        !old(state).settle_active_spec() && settling_active_spec(*old(state)) ==> *final(state) == (HelixState {
            pull: ModelPull { hw_model_pull_pending_slot_bus: Some(slot_bus), ..old(state).pull },
            ..*old(state)
        }),
        !old(state).settle_active_spec() && !settling_active_spec(*old(state)) ==> {
            &&& final(state).pull.hw_model_pull_step == 1
            &&& final(state).pull.hw_model_pull_slot_bus == Some(slot_bus)
            &&& final(state).pull.hw_model_pull_capture_deadline == Some(deadline_after(old(state).now_ms, PULL_CAPTURE_MS))
            &&& final(state).pull.hw_model_pull_capture@.len() == 0
            &&& final(state).pull.hw_model_pull_pending_slot_bus == old(state).pull.hw_model_pull_pending_slot_bus
            &&& final(state).pull.hw_model_post_pull_settling == old(state).pull.hw_model_post_pull_settling
            &&& final(state).pull.hw_model_post_pull_deadline == old(state).pull.hw_model_post_pull_deadline
            &&& final(state).pull.hw_model_pull_last_at == old(state).pull.hw_model_pull_last_at
            &&& final(state).pull.hw_model_pull_quiet_until == old(state).pull.hw_model_pull_quiet_until
            &&& final(state).outbox@.len() == old(state).outbox@.len() + 1
            &&& final(state).outbox@.last().data@[34] == slot_bus
        },
        final(state).slot == old(state).slot,
        final(state).session == old(state).session,
        final(state).preset == old(state).preset,
        final(state).now_ms == old(state).now_ms,
{
    if state.init_usb_settle_active() {
        return;
    }
    if post_pull_stream_settling_active(state) {
        queue_pending_hw_model_pull(state, slot_bus);
        return;
    }
    arm_pull_capture(state, slot_bus);
    send_pull_1b_f0_burst(state, slot_bus);
}

/// Keep-alive resume after a pull: `ef:03` sub=`08` then `f0:03` sub=`10`.
pub open spec fn resume_ef_packet(cnt: u8) -> Seq<u8> {
    seq![0x08u8, 0x00, 0x00, 0x18, 0x01, 0x10, 0xef, 0x03, 0x00, cnt, 0x00, 0x08, 0x72, 0x1e, 0x00, 0x00]
}

pub open spec fn resume_f0_packet(cnt: u8) -> Seq<u8> {
    seq![0x08u8, 0x00, 0x00, 0x18, 0x02, 0x10, 0xf0, 0x03, 0x00, cnt, 0x00, 0x10, 0x09, 0x10, 0x00, 0x00]
}

fn send_post_pull_resume_traffic(state: &mut HelixState)
    ensures
        final(state).outbox@.len() == old(state).outbox@.len() + 2,
        final(state).outbox@[old(state).outbox@.len() as int].data@ == resume_ef_packet(old(state).counters.x1_cnt),
        final(state).outbox@[old(state).outbox@.len() as int + 1].data@ == resume_f0_packet(old(state).counters.x2_cnt),
        *final(state) == (HelixState {
            counters: Counters {
                x1_cnt: wadd8(old(state).counters.x1_cnt, 1),
                x2_cnt: wadd8(old(state).counters.x2_cnt, 1),
                ..old(state).counters
            },
            outbox: final(state).outbox,
            ..*old(state)
        }),
{
    let cnt_x1 = state.next_x1_cnt();
    state.send(OutPacket::new(vec![
        0x08, 0x00, 0x00, 0x18, 0x01, 0x10, 0xef, 0x03, 0x00, cnt_x1, 0x00, 0x08, 0x72, 0x1e, 0x00, 0x00,
    ]));
    let cnt_x2 = state.next_x2_cnt();
    state.send(OutPacket::new(vec![
        0x08, 0x00, 0x00, 0x18, 0x02, 0x10, 0xf0, 0x03, 0x00, cnt_x2, 0x00, 0x10, 0x09, 0x10, 0x00, 0x00,
    ]));
}

/// IN 16-byte `ed:03` sub=`08` echo of the interstitial `f0`.
pub open spec fn interstitial_echo_spec(data: Seq<u8>) -> bool {
    data.len() == 16 && data[4] == 0xed && data[5] == 0x03 && data[6] == 0x80 && data[7] == 0x10
        && data[11] == 0x08
}

/// ACKs the IN echo of the interstitial `f0` with its own double.
pub fn try_ack_pull_interstitial_echo(state: &mut HelixState, data: &[u8])
    ensures
        !interstitial_echo_spec(data@) ==> *final(state) == *old(state),
        interstitial_echo_spec(data@) ==> {
            &&& final(state).outbox@.len() == old(state).outbox@.len() + 1
            &&& final(state).outbox@.last().data@ == f0_ack_packet(old(state).counters.x2_cnt, data@[12], data@[13])
            &&& *final(state) == (HelixState {
                counters: Counters { x2_cnt: wadd8(old(state).counters.x2_cnt, 1), ..old(state).counters },
                outbox: final(state).outbox,
                ..*old(state)
            })
        },
{
    if data.len() != 16 {
        return;
    }
    if data[4] != 0xed || data[5] != 0x03 || data[6] != 0x80 || data[7] != 0x10 || data[11] != 0x08 {
        return;
    }
    let cnt = state.next_x2_cnt();
    let d0 = data[12];
    let d1 = data[13];
    state.send(OutPacket::new(vec![
        0x08, 0x00, 0x00, 0x18, 0x02, 0x10, 0xf0, 0x03, 0x00, cnt, 0x00, 0x08, d0, d1, 0x00, 0x00,
    ]));
}

fn queue_pending_hw_model_pull(state: &mut HelixState, slot_bus: u8)
    ensures
        *final(state) == (HelixState {
            pull: ModelPull { hw_model_pull_pending_slot_bus: Some(slot_bus), ..old(state).pull },
            ..*old(state)
        }),
{
    state.pull.hw_model_pull_pending_slot_bus = Some(slot_bus);
}


/// Keeps the longest assignable frame holding a module id (the first among equals).
pub open spec fn best_step(best: Option<(int, Seq<char>)>, f: Seq<u8>) -> Option<(int, Seq<char>)> {
    if !assign_marker_spec(f) {
        best
    } else {
        match module_hex_spec(f) {
            None => best,
            Some(h) => match best {
                None => Some((f.len() as int, h)),
                Some(b) => if f.len() > b.0 {
                    Some((f.len() as int, h))
                } else {
                    best
                },
            },
        }
    }
}

/// Best module id over the first `n` frames.
pub open spec fn best_upto(frames: Seq<Seq<u8>>, n: int) -> Option<(int, Seq<char>)>
    decreases n,
{
    if n <= 0 || n > frames.len() {
        None
    } else {
        best_step(best_upto(frames, n - 1), frames[n - 1])
    }
}

/// Views of captured frames.
pub open spec fn frame_views(frames: Seq<Vec<u8>>) -> Seq<Seq<u8>> {
    frames.map_values(|f: Vec<u8>| f@)
}

/// Module id text of the best capture frame.
pub open spec fn best_hex_spec(frames: Seq<Seq<u8>>) -> Option<Seq<char>> {
    match best_upto(frames, frames.len() as int) {
        Some(b) => Some(b.1),
        None => None,
    }
}

/// A frame that can name the model: it holds the assign marker and a module id.
pub open spec fn naming_frame(f: Seq<u8>) -> bool {
    assign_marker_spec(f) && module_hex_spec(f) is Some
}

proof fn lemma_best_upto(frames: Seq<Seq<u8>>, n: int) -> (j: int)
    requires
        0 <= n <= frames.len(),
    ensures
        best_upto(frames, n) is None <==> (forall|k: int| 0 <= k < n ==> !naming_frame(#[trigger] frames[k])),
        best_upto(frames, n) is Some ==> {
            &&& 0 <= j < n
            &&& naming_frame(frames[j])
            &&& best_upto(frames, n) == Some((frames[j].len() as int, module_hex_spec(frames[j])->0))
            &&& forall|k: int| 0 <= k < n && naming_frame(#[trigger] frames[k]) ==> frames[k].len() <= frames[j].len()
            &&& forall|k: int| 0 <= k < j && naming_frame(#[trigger] frames[k]) ==> frames[k].len() < frames[j].len()
        },
    decreases n,
{
    if n == 0 {
        0
    } else {
        let j0 = lemma_best_upto(frames, n - 1);
        let f = frames[n - 1];
        let prev = best_upto(frames, n - 1);
        if naming_frame(f) && (match prev { None => true, Some(pb) => f.len() > pb.0 }) {
            n - 1
        } else {
            j0
        }
    }
}

/// The module id reported for a slot is the one of a frame that holds the assign marker and a
/// module id, the longest such frame (the first one among equally long frames); there is none
/// exactly when no frame holds both.
pub proof fn law_best_module_hex_is_longest_naming_frame(frames: Seq<Seq<u8>>)
    ensures
        best_hex_spec(frames) is None <==> (forall|k: int| 0 <= k < frames.len() ==> !naming_frame(#[trigger] frames[k])),
        best_hex_spec(frames) matches Some(h) ==> exists|j: int| {
            &&& 0 <= j < frames.len()
            &&& #[trigger] naming_frame(frames[j])
            &&& module_hex_spec(frames[j]) == Some(h)
            &&& forall|k: int| 0 <= k < frames.len() && naming_frame(#[trigger] frames[k]) ==> frames[k].len() <= frames[j].len()
            &&& forall|k: int| 0 <= k < j && naming_frame(#[trigger] frames[k]) ==> frames[k].len() < frames[j].len()
        },
{
    let j = lemma_best_upto(frames, frames.len() as int);
    if best_hex_spec(frames) is Some {
        assert(naming_frame(frames[j]));
    }
}

/// Module id of the longest assignable frame that holds one (`Some(Some(hex))`), else `None`.
pub fn best_module_hex_from_frames(frames: &Vec<Vec<u8>>) -> (r: Option<Option<String>>)
    ensures
        r is Some <==> best_hex_spec(frame_views(frames@)) is Some,
        r matches Some(h) ==> (h matches Some(t) && best_hex_spec(frame_views(frames@)) == Some(t@)),
{
    let ghost views = frame_views(frames@);
    let mut best: Option<(usize, String)> = None;
    let mut i: usize = 0;
    while i < frames.len()
        invariant
            i <= frames@.len(),
            views == frame_views(frames@),
            views.len() == frames@.len(),
            match best_upto(views, i as int) {
                None => best is None,
                Some(b) => best matches Some(e) && e.0 == b.0 && e.1@ == b.1,
            },
        decreases frames.len() - i,
    {
        let f = &frames[i];
        assert(views[i as int] == f@);
        if frame_has_assign_marker(f.as_slice()) {
            let hex = extract_first_module_hex_from_bulk(f.as_slice());
            let score = f.len();
            match hex {
                Some(h) => {
                    let replace = match &best {
                        None => true,
                        Some(b) => score > b.0,
                    };
                    if replace {
                        best = Some((score, h));
                    }
                },
                None => {},
            }
        }
        i = i + 1;
    }
    match best {
        Some(b) => Some(Some(b.1)),
        None => None,
    }
}

/// Remembers the lane and double of an IN capture frame (not from a `1c` stub; lane `04`
/// is never taken back to another value).
pub fn remember_cd_lane_from_in(state: &mut HelixState, data: &[u8])
    ensures
        in_1c_stub_spec(data@) ==> *final(state) == *old(state),
        !in_1c_stub_spec(data@) ==> *final(state) == (HelixState {
            pull: ModelPull {
                hw_model_pull_cd_lane: match cd_lane_from(data@, 0) {
                    Some(l) => if old(state).pull.hw_model_pull_cd_lane != Some(0x04u8) || l == 0x04 {
                        Some(l)
                    } else {
                        old(state).pull.hw_model_pull_cd_lane
                    },
                    None => old(state).pull.hw_model_pull_cd_lane,
                },
                hw_model_pull_echo_double: match double_after_cd_from(data@, 0) {
                    Some(d) => Some(final(state).pull.hw_model_pull_echo_double.unwrap()),
                    None => old(state).pull.hw_model_pull_echo_double,
                },
                ..old(state).pull
            },
            ..*old(state)
        }),
        !in_1c_stub_spec(data@) ==> (double_after_cd_from(data@, 0) matches Some(d) ==> (
        final(state).pull.hw_model_pull_echo_double matches Some(e) && e@ == seq![d.0, d.1])),
{
    if is_in_1c_stub(data) {
        return;
    }
    if let Some(lane) = cd_lane_byte(data) {
        if state.pull.hw_model_pull_cd_lane != Some(0x04u8) || lane == 0x04 {
            state.pull.hw_model_pull_cd_lane = Some(lane);
        }
    }
    if let Some(d) = preset_double_after_cd(data) {
        state.pull.hw_model_pull_echo_double = Some(d);
        assert(d@ == seq![d@[0], d@[1]]);
    }
}

fn arm_pull_post_finalize_quiet(state: &mut HelixState)
    ensures
        *final(state) == (HelixState {
            pull: ModelPull {
                hw_model_pull_quiet_until: Some(deadline_after(old(state).now_ms, PULL_POST_FINALIZE_QUIET_MS)),
                ..old(state).pull
            },
            ..*old(state)
        }),
{
    state.pull.hw_model_pull_quiet_until = Some(deadline_from(state.now_ms, PULL_POST_FINALIZE_QUIET_MS));
}

/// Opens (or extends) the post-pull settling window.
pub fn arm_post_pull_stream_settling(state: &mut HelixState)
    ensures
        *final(state) == (HelixState {
            pull: ModelPull {
                hw_model_post_pull_settling: true,
                hw_model_post_pull_deadline: Some(deadline_after(old(state).now_ms, PULL_POST_PULL_SETTLING_MS)),
                ..old(state).pull
            },
            ..*old(state)
        }),
{
    state.pull.hw_model_post_pull_settling = true;
    state.pull.hw_model_post_pull_deadline = Some(deadline_from(state.now_ms, PULL_POST_PULL_SETTLING_MS));
}

/// The pull state after the settling tick: a settling window whose deadline passed (or
/// that has none) is closed, and a window that just expired drops the pending pull.
pub open spec fn after_settling_tick(s: HelixState) -> HelixState {
    if !s.pull.hw_model_post_pull_settling {
        s
    } else {
        match s.pull.hw_model_post_pull_deadline {
            None => HelixState { pull: ModelPull { hw_model_post_pull_settling: false, ..s.pull }, ..s },
            Some(d) => if s.now_ms < d {
                s
            } else {
                HelixState {
                    pull: ModelPull {
                        hw_model_post_pull_settling: false,
                        hw_model_post_pull_deadline: None,
                        hw_model_pull_pending_slot_bus: None,
                        ..s.pull
                    },
                    ..s
                }
            },
        }
    }
}

/// Closes an expired settling window; returns `true` when it just expired.
fn tick_post_pull_stream_settling(state: &mut HelixState) -> (r: bool)
    ensures
        r == (old(state).pull.hw_model_post_pull_settling && (old(state).pull.hw_model_post_pull_deadline matches Some(
            d,
        ) && old(state).now_ms >= d)),
        !r ==> *final(state) == after_settling_tick(*old(state)),
        r ==> *final(state) == (HelixState {
            pull: ModelPull {
                hw_model_post_pull_settling: false,
                hw_model_post_pull_deadline: None,
                ..old(state).pull
            },
            ..*old(state)
        }),
{
    if !state.pull.hw_model_post_pull_settling {
        return false;
    }
    let deadline = match state.pull.hw_model_post_pull_deadline {
        Some(d) => d,
        None => {
            state.pull.hw_model_post_pull_settling = false;
            return false;
        },
    };
    if state.now_ms < deadline {
        return false;
    }
    state.pull.hw_model_post_pull_settling = false;
    state.pull.hw_model_post_pull_deadline = None;
    true
}

/// End of settling: a pending pull from an old `1f` is dropped (wait for a fresh one).
fn clear_stale_pending_after_post_pull_settling(state: &mut HelixState)
    ensures
        *final(state) == (HelixState {
            pull: ModelPull { hw_model_pull_pending_slot_bus: None, ..old(state).pull },
            ..*old(state)
        }),
{
    state.pull.hw_model_pull_pending_slot_bus = None;
}

/// Payload of a model change of slot `bus` (grid `index`).
pub open spec fn payload_matches(p: SlotModelHwChangedPayload, sequence: u32, index: int, bus: u8, hex: Option<Seq<char>>) -> bool {
    &&& p.sequence == sequence
    &&& p.slot_index == index
    &&& p.slot_bus == bus
    &&& match hex {
        None => p.module_hex is None,
        Some(h) => p.module_hex matches Some(t) && t@ == h,
    }
}


/// Frames that finalize reads: the capture, plus `extra` while below the frame limit.
pub open spec fn final_frames(capture: Seq<Vec<u8>>, extra: Option<Seq<u8>>) -> Seq<Seq<u8>> {
    match extra {
        Some(e) => if capture.len() < PULL_CAPTURE_MAX_FRAMES {
            frame_views(capture).push(e)
        } else {
            frame_views(capture)
        },
        None => frame_views(capture),
    }
}

/// Ends the pull capture: keeps the lane `04`, resets the pull step, reads the module id of
/// the best frame and reports it for the pulled slot.
///
/// Without a pulled slot nothing happens. Without an assignable frame the pull failed: the
/// pending pull is dropped, the keep-alive resume traffic is sent, the quiet and settling
/// windows open and `None` comes back. A structural bus drops the pending pull and opens
/// the quiet window only. Otherwise the resume traffic is sent, the content sequence moves
/// on by one and the payload carries it, the grid index, the bus and the module id.
pub fn finalize_pull_capture(state: &mut HelixState, extra: Option<&[u8]>) -> (r: Option<SlotModelHwChangedPayload>)
    ensures
        ({
            let s = *old(state);
            let frames = final_frames(s.pull.hw_model_pull_capture@, match extra {
                Some(e) => Some(e@),
                None => None,
            });
            let f = *final(state);
            &&& s.pull.hw_model_pull_slot_bus is None ==> r is None && f == s
            &&& s.pull.hw_model_pull_slot_bus matches Some(bus) ==> {
                &&& f.pull.hw_model_pull_slot_bus is None
                &&& f.pull.hw_model_pull_capture_deadline is None
                &&& f.pull.hw_model_pull_step == 0
                &&& f.pull.hw_model_pull_capture@.len() == 0
                &&& f.pull.hw_model_pull_cd_lane == (if s.pull.hw_model_pull_cd_lane == Some(0x04u8) {
                    Some(0x04u8)
                } else {
                    None
                })
                &&& f.pull.hw_model_pull_last_at == Some(s.now_ms)
                &&& f.pull.hw_model_pull_quiet_until == Some(deadline_after(s.now_ms, PULL_POST_FINALIZE_QUIET_MS))
                &&& f.slot.hw_active_slot_bus == s.slot.hw_active_slot_bus
                &&& f.slot.hw_active_slot_index == s.slot.hw_active_slot_index
                &&& f.session == s.session
                &&& f.preset == s.preset
                &&& f.now_ms == s.now_ms
                &&& best_hex_spec(frames) is None ==> {
                    &&& r is None
                    &&& f.pull.hw_model_pull_pending_slot_bus is None
                    &&& f.pull.hw_model_post_pull_settling
                    &&& f.pull.hw_model_post_pull_deadline == Some(deadline_after(s.now_ms, PULL_POST_PULL_SETTLING_MS))
                    &&& f.outbox@.len() == s.outbox@.len() + 2
                    &&& f.slot.hw_slot_content_sequence == s.slot.hw_slot_content_sequence
                }
                &&& best_hex_spec(frames) matches Some(hex) ==> match slot_bus_to_kempline_index_spec(bus) {
                    None => r is None && f.pull.hw_model_pull_pending_slot_bus is None
                        && f.outbox@ == s.outbox@
                        && f.slot.hw_slot_content_sequence == s.slot.hw_slot_content_sequence,
                    Some(index) => {
                        &&& f.slot.hw_slot_content_sequence == crate::bytes::wadd32(s.slot.hw_slot_content_sequence, 1)
                        &&& r matches Some(p) && payload_matches(p, f.slot.hw_slot_content_sequence, index as int, bus, Some(hex))
                        &&& f.pull.hw_model_pull_pending_slot_bus == s.pull.hw_model_pull_pending_slot_bus
                        &&& f.pull.hw_model_post_pull_settling
                        &&& f.pull.hw_model_post_pull_deadline == Some(deadline_after(s.now_ms, PULL_POST_PULL_SETTLING_MS))
                        &&& f.outbox@.len() == s.outbox@.len() + 2
                    },
                }
            }
        }),
{
    let slot_bus = match state.pull.hw_model_pull_slot_bus {
        Some(b) => b,
        None => return None,
    };
    state.pull.hw_model_pull_slot_bus = None;
    state.pull.hw_model_pull_capture_deadline = None;
    state.pull.hw_model_pull_step = 0;
    if state.pull.hw_model_pull_cd_lane != Some(0x04u8) {
        state.pull.hw_model_pull_cd_lane = None;
    }
    state.pull.hw_model_pull_echo_double = None;
    state.pull.hw_model_pull_retried_1b = false;
    state.pull.hw_model_pull_saw_final_bulk = false;

    let mut frames: Vec<Vec<u8>> = Vec::new();
    std::mem::swap(&mut frames, &mut state.pull.hw_model_pull_capture);
    let ghost captured = frames@;
    if let Some(e) = extra {
        if frames.len() < PULL_CAPTURE_MAX_FRAMES {
            frames.push(vstd::slice::slice_to_vec(e));
        }
    }
    assert(frame_views(frames@) =~= final_frames(captured, match extra {
        Some(e) => Some(e@),
        None => None,
    }));

    let module_hex = match best_module_hex_from_frames(&frames) {
        Some(h) => h,
        None => {
            state.pull.hw_model_pull_pending_slot_bus = None;
            send_post_pull_resume_traffic(state);
            arm_pull_post_finalize_quiet(state);
            arm_post_pull_stream_settling(state);
            state.pull.hw_model_pull_last_at = Some(state.now_ms);
            return None;
        },
    };
    let slot_index = match slot_bus_to_kempline_index(slot_bus) {
        Some(i) => i as u32,
        None => {
            state.pull.hw_model_pull_pending_slot_bus = None;
            arm_pull_post_finalize_quiet(state);
            state.pull.hw_model_pull_last_at = Some(state.now_ms);
            return None;
        },
    };
    send_post_pull_resume_traffic(state);
    state.slot.hw_slot_content_sequence = state.slot.hw_slot_content_sequence.wrapping_add(1);
    let sequence = state.slot.hw_slot_content_sequence;
    let payload = SlotModelHwChangedPayload { sequence, slot_index, slot_bus, module_hex };
    arm_pull_post_finalize_quiet(state);
    arm_post_pull_stream_settling(state);
    state.pull.hw_model_pull_last_at = Some(state.now_ms);
    Some(payload)
}


/// Pull step after one capture frame: `1 → 2` on a first reply (not a `1c` stub), `2 → 3`
/// on a second reply.
pub open spec fn capture_step_after(step: u8, data: Seq<u8>) -> u8 {
    if step == 1 && first_pull_reply_spec(data) && !in_1c_stub_spec(data) {
        2
    } else if step == 2 && second_pull_reply_spec(data) {
        3
    } else {
        step
    }
}

/// One IN frame during a pull capture: records it, learns the lane, ACKs the interstitial
/// echo at step 1, sends `19` #1 on the first reply and `19` #2 on the second, and
/// finalizes once the ~272-byte bulk came after `19` #2, or when the capture deadline passed.
pub fn ingest_pull_capture(state: &mut HelixState, data: &[u8]) -> (r: Option<SlotModelHwChangedPayload>)
    ensures
        ({
            let s = *old(state);
            let f = *final(state);
            &&& s.pull.hw_model_pull_capture_deadline is None ==> r is None && f == s
            &&& s.pull.hw_model_pull_capture_deadline matches Some(deadline) ==> {
                let step = capture_step_after(s.pull.hw_model_pull_step, data@);
                let saw = s.pull.hw_model_pull_saw_final_bulk || final_meta_bulk_spec(data@);
                let done = (step >= 3 && saw) || s.now_ms >= deadline;
                &&& !done ==> r is None && f.pull.hw_model_pull_step == step
                    && f.pull.hw_model_pull_saw_final_bulk == saw
                    && f.pull.hw_model_pull_capture_deadline == s.pull.hw_model_pull_capture_deadline
                    && f.pull.hw_model_pull_slot_bus == s.pull.hw_model_pull_slot_bus
                    && f.pull.hw_model_pull_capture@.len() == if s.pull.hw_model_pull_capture@.len() < PULL_CAPTURE_MAX_FRAMES {
                    s.pull.hw_model_pull_capture@.len() + 1int
                } else {
                    s.pull.hw_model_pull_capture@.len() as int
                }
                &&& done && s.pull.hw_model_pull_slot_bus is Some ==> f.pull.hw_model_pull_step == 0
                    && f.pull.hw_model_pull_capture_deadline is None
                    && f.pull.hw_model_pull_slot_bus is None
                    && f.pull.hw_model_pull_last_at == Some(s.now_ms)
                &&& r matches Some(p) ==> done && s.pull.hw_model_pull_slot_bus == Some(p.slot_bus)
                    && p.module_hex is Some
                    && f.slot.hw_slot_content_sequence == p.sequence
            }
            &&& f.session == s.session
            &&& f.preset == s.preset
            &&& f.now_ms == s.now_ms
            &&& f.slot.hw_active_slot_bus == s.slot.hw_active_slot_bus
            &&& f.slot.hw_active_slot_index == s.slot.hw_active_slot_index
        }),
{
    let deadline = match state.pull.hw_model_pull_capture_deadline {
        Some(d) => d,
        None => return None,
    };
    let now = state.now_ms;
    let ghost s0 = *state;
    if state.pull.hw_model_pull_capture.len() < PULL_CAPTURE_MAX_FRAMES {
        state.pull.hw_model_pull_capture.push(vstd::slice::slice_to_vec(data));
    }
    let ghost capture_len = state.pull.hw_model_pull_capture@.len();
    remember_cd_lane_from_in(state, data);
    if state.pull.hw_model_pull_step == 1 {
        try_ack_pull_interstitial_echo(state, data);
    }
    let step = state.pull.hw_model_pull_step;
    if step == 1 && looks_like_first_pull_reply(data) {
        if !is_in_1c_stub(data) {
            send_pull_19_first(state);
        }
    } else if step == 2 && looks_like_second_pull_reply(data) {
        send_pull_19_second(state);
    }
    if is_pull_final_meta_bulk(data) {
        state.pull.hw_model_pull_saw_final_bulk = true;
    }
    assert(state.pull.hw_model_pull_capture@.len() == capture_len);
    if state.pull.hw_model_pull_step >= 3 && state.pull.hw_model_pull_saw_final_bulk {
        return finalize_pull_capture(state, None);
    }
    if now >= deadline {
        return finalize_pull_capture(state, Some(data));
    }
    None
}

/// Flushes a queued pull once nothing holds it back (settle, preset read, content-only
/// read, capture, quiet window, cooldown after the last pull); otherwise it stays queued.
pub fn flush_pending_hw_model_pull(state: &mut HelixState)
    ensures
        ({
            let s = *old(state);
            let held = s.settle_active_spec() || s.session.suppress_1d_firmware_notify_ack
                || s.preset.preset_content_only || s.pull.hw_model_pull_capture_deadline is Some
                || before_deadline(s.now_ms, s.pull.hw_model_pull_quiet_until)
                || (s.pull.hw_model_pull_last_at matches Some(t) && elapsed_below(s.now_ms, t, PULL_COOLDOWN_AFTER_DONE_MS));
            &&& s.pull.hw_model_pull_pending_slot_bus is None ==> *final(state) == s
            &&& s.pull.hw_model_pull_pending_slot_bus is Some && held ==> *final(state) == s
            &&& (s.pull.hw_model_pull_pending_slot_bus is Some && !held) ==> ({
                let bus = s.pull.hw_model_pull_pending_slot_bus.unwrap();
                final(state).pull.hw_model_pull_pending_slot_bus == (if settling_active_spec(s) {
                    Some(bus)
                } else {
                    None
                }) && (!settling_active_spec(s) ==> final(state).pull.hw_model_pull_step == 1
                    && final(state).pull.hw_model_pull_slot_bus == Some(bus)
                    && final(state).outbox@.len() == s.outbox@.len() + 1)
            })
        }),
{
    let slot_bus = match state.pull.hw_model_pull_pending_slot_bus {
        Some(b) => b,
        None => return,
    };
    if state.init_usb_settle_active() || state.preset_usb_read_in_progress()
        || state.preset.preset_content_only || state.pull.hw_model_pull_capture_deadline.is_some()
        || is_before(state.now_ms, state.pull.hw_model_pull_quiet_until) {
        return;
    }
    if let Some(last) = state.pull.hw_model_pull_last_at {
        if elapsed_is_below(state.now_ms, last, PULL_COOLDOWN_AFTER_DONE_MS) {
            return;
        }
    }
    state.pull.hw_model_pull_pending_slot_bus = None;
    send_pull_sequence(state, slot_bus);
}

/// IN `1f` "None": reports the slot emptied (no pull); adopts the notified bus as the
/// active slot when none is known.
pub fn emit_slot_cleared_from_hw_notify(state: &mut HelixState, data: &[u8]) -> (r: Option<SlotModelHwChangedPayload>)
    ensures
        ({
            let s = *old(state);
            match pull_slot_bus_spec(s, data@) {
                None => r is None && *final(state) == s,
                Some(bus) => match slot_bus_to_kempline_index_spec(bus) {
                    None => r is None && *final(state) == s,
                    Some(index) => {
                        let seq = crate::bytes::wadd32(s.slot.hw_slot_content_sequence, 1);
                        &&& r matches Some(p) && payload_matches(p, seq, index as int, bus, None)
                        &&& *final(state) == (HelixState {
                            slot: SlotTracking {
                                hw_slot_content_sequence: seq,
                                hw_active_slot_index: if active_effect_slot_bus_spec(s) is None {
                                    Some(bus as usize)
                                } else {
                                    s.slot.hw_active_slot_index
                                },
                                hw_active_slot_bus: if active_effect_slot_bus_spec(s) is None {
                                    Some(bus)
                                } else {
                                    s.slot.hw_active_slot_bus
                                },
                                ..s.slot
                            },
                            ..s
                        })
                    },
                },
            }
        }),
{
    let slot_bus = match slot_bus_for_model_pull(state, data) {
        Some(b) => b,
        None => return None,
    };
    let slot_index = match slot_bus_to_kempline_index(slot_bus) {
        Some(i) => i as u32,
        None => return None,
    };
    if active_effect_slot_bus(state).is_none() {
        state.slot.hw_active_slot_index = Some(slot_bus as usize);
        state.slot.hw_active_slot_bus = Some(slot_bus);
    }
    state.slot.hw_slot_content_sequence = state.slot.hw_slot_content_sequence.wrapping_add(1);
    Some(SlotModelHwChangedPayload {
        sequence: state.slot.hw_slot_content_sequence,
        slot_index,
        slot_bus,
        module_hex: None,
    })
}


/// The notification handling holds the pull back entirely.
pub open spec fn notify_ignored(s: HelixState, data: Seq<u8>) -> bool {
    s.settle_active_spec() || s.session.suppress_1d_firmware_notify_ack || s.preset.preset_content_only
        || pull_slot_bus_spec(s, data) is None
}

/// Active slot after a pull notification: the notified bus is adopted when none is known.
pub open spec fn slot_after_notify(s: HelixState, bus: u8) -> SlotTracking {
    if active_effect_slot_bus_spec(s) is None && slot_bus_to_kempline_index_spec(bus) is Some {
        SlotTracking {
            hw_active_slot_index: slot_bus_to_kempline_index_spec(bus),
            hw_active_slot_bus: Some(bus),
            ..s.slot
        }
    } else {
        s.slot
    }
}

/// IN `1f` pull trigger: ignored during the settle window, a preset read, a content-only
/// read or without a slot bus; otherwise the notified bus may become the active slot, then
/// the notification is dropped during the post-pull settling, queued while a capture runs,
/// and else starts a pull (dropping any pending one).
fn ingest_slot_model_hw_notify(state: &mut HelixState, data: &[u8]) -> (r: bool)
    ensures
        r,
        ({
            let s = *old(state);
            let f = *final(state);
            &&& notify_ignored(s, data@) ==> f == s
            &&& !notify_ignored(s, data@) ==> {
                let bus = pull_slot_bus_spec(s, data@).unwrap();
                &&& f.slot == slot_after_notify(s, bus)
                &&& f.session == s.session
                &&& f.preset == s.preset
                &&& f.now_ms == s.now_ms
                &&& settling_active_spec(s) ==> f.pull == s.pull && f.outbox@ == s.outbox@
                &&& !settling_active_spec(s) && s.pull.hw_model_pull_capture_deadline is Some ==> f.pull == (ModelPull {
                    hw_model_pull_pending_slot_bus: Some(bus),
                    ..s.pull
                }) && f.outbox@ == s.outbox@
                &&& !settling_active_spec(s) && s.pull.hw_model_pull_capture_deadline is None ==> {
                    &&& f.pull.hw_model_pull_pending_slot_bus is None
                    &&& f.pull.hw_model_pull_step == 1
                    &&& f.pull.hw_model_pull_slot_bus == Some(bus)
                    &&& f.pull.hw_model_pull_capture_deadline == Some(deadline_after(s.now_ms, PULL_CAPTURE_MS))
                    &&& f.pull.hw_model_pull_last_at == s.pull.hw_model_pull_last_at
                    &&& f.outbox@.len() == s.outbox@.len() + 1
                    &&& f.outbox@.last().data@[34] == bus
                }
            }
        }),
{
    if state.init_usb_settle_active() {
        return true;
    }
    if state.preset_usb_read_in_progress() {
        return true;
    }
    if state.preset.preset_content_only {
        return true;
    }
    let slot_bus = match slot_bus_for_model_pull(state, data) {
        Some(b) => b,
        None => return true,
    };
    if active_effect_slot_bus(state).is_none() {
        if let Some(idx) = slot_bus_to_kempline_index(slot_bus) {
            state.slot.hw_active_slot_index = Some(idx);
            state.slot.hw_active_slot_bus = Some(slot_bus);
        }
    }
    if post_pull_stream_settling_active(state) {
        return true;
    }
    if state.pull.hw_model_pull_capture_deadline.is_some() {
        queue_pending_hw_model_pull(state, slot_bus);
        return true;
    }
    state.pull.hw_model_pull_pending_slot_bus = None;
    send_pull_sequence(state, slot_bus);
    true
}

/// Entry of the hardware model layer for one IN frame.
///
/// First an expired post-pull settling window is closed (dropping a stale pending pull).
/// Outside a capture, a preset dump stream chunk extends the settling window. A model
/// notification is then handled: the `21` post-assign notice is ignored, a `1d` opens the
/// quiet window, a `1f` "None" reports the emptied slot, a `1f` trigger starts, queues or
/// drops a pull. Any other frame feeds a running capture.
pub fn ingest_slot_model_hw_in(state: &mut HelixState, data: &[u8]) -> (r: Option<SlotModelHwChangedPayload>)
    ensures
        ({
            let s0 = *old(state);
            let s = after_settling_tick(s0);
            let f = *final(state);
            let chunk = s.pull.hw_model_pull_capture_deadline is None && stream_chunk_spec(data@);
            let notify = !chunk && change_notify_loose_spec(data@);
            &&& chunk ==> r is None && f == (HelixState {
                pull: ModelPull {
                    hw_model_post_pull_settling: true,
                    hw_model_post_pull_deadline: Some(deadline_after(s.now_ms, PULL_POST_PULL_SETTLING_MS)),
                    ..s.pull
                },
                ..s
            })
            &&& notify && data@[0] == 0x21 && post_assign_21_spec(data@) ==> r is None && f == s
            &&& notify && data@[0] == 0x1d ==> r is None && f == (HelixState {
                pull: ModelPull {
                    hw_model_pull_quiet_until: Some(deadline_after(s.now_ms, PULL_POST_FINALIZE_QUIET_MS)),
                    ..s.pull
                },
                ..s
            })
            &&& notify && slot_cleared_spec(data@) ==> match pull_slot_bus_spec(s, data@) {
                Some(bus) => match slot_bus_to_kempline_index_spec(bus) {
                    Some(index) => r matches Some(p) && payload_matches(
                        p,
                        crate::bytes::wadd32(s.slot.hw_slot_content_sequence, 1),
                        index as int,
                        bus,
                        None,
                    ) && f.slot.hw_slot_content_sequence == crate::bytes::wadd32(s.slot.hw_slot_content_sequence, 1)
                        && f.pull == s.pull && f.outbox@ == s.outbox@,
                    None => r is None && f == s,
                },
                None => r is None && f == s,
            }
            &&& notify && pull_trigger_spec(data@) ==> r is None && (notify_ignored(s, data@) ==> f == s) && (
                !notify_ignored(s, data@) && !settling_active_spec(s) && s.pull.hw_model_pull_capture_deadline is None
                ==> f.pull.hw_model_pull_step == 1 && f.pull.hw_model_pull_slot_bus == pull_slot_bus_spec(s, data@)
                && f.pull.hw_model_pull_pending_slot_bus is None && f.outbox@.len() == s.outbox@.len() + 1) && (
                !notify_ignored(s, data@) && !settling_active_spec(s) && s.pull.hw_model_pull_capture_deadline is Some
                ==> f.pull.hw_model_pull_pending_slot_bus == pull_slot_bus_spec(s, data@) && f.outbox@ == s.outbox@) && (
                !notify_ignored(s, data@) && settling_active_spec(s) ==> f.pull == s.pull && f.outbox@ == s.outbox@)
            &&& notify && data@[0] == 0x21 && !post_assign_21_spec(data@) ==> r is None && f == s
            &&& !chunk && !notify && s.pull.hw_model_pull_capture_deadline is None ==> r is None && f == s
            &&& !chunk && !notify && s.pull.hw_model_pull_capture_deadline is Some ==> (r matches Some(p) ==> (p.module_hex is Some
                && s.pull.hw_model_pull_slot_bus == Some(p.slot_bus)))
            &&& f.session == s0.session
            &&& f.preset == s0.preset
            &&& f.now_ms == s0.now_ms
        }),
{
    if tick_post_pull_stream_settling(state) {
        clear_stale_pending_after_post_pull_settling(state);
    }
    if state.pull.hw_model_pull_capture_deadline.is_none() && is_preset_dump_stream_chunk_in(data) {
        arm_post_pull_stream_settling(state);
        return None;
    }
    if is_hw_model_change_notify_loose(data) {
        if data[0] == 0x21 && is_hw_model_post_assign_21(data) {
            return None;
        }
        if data[0] == 0x1d {
            arm_pull_post_finalize_quiet(state);
        } else if is_hw_model_slot_cleared_notify(data) {
            return emit_slot_cleared_from_hw_notify(state, data);
        } else if is_hw_model_pull_trigger_notify(data) {
            let _ = ingest_slot_model_hw_notify(state, data);
        }
        return None;
    }
    if state.pull.hw_model_pull_capture_deadline.is_some() {
        return ingest_pull_capture(state, data);
    }
    None
}

} // verus!
