//! Background scroll ACK: IN `1d` / `1f` 40-byte notifications → OUT `f0:03` sub=`08` on
//! a dedicated lane (bytes 12-13 LE).
//!
//! The lane advances on every notification the device emits (`0x15` after a `1d`, `0x17`
//! after a `1f`, with the transitions of `scroll_ack_step`), even when the host does not
//! ACK it, so that the `f0` sent with a pull `1b` carries the device's own count. The
//! background ACK is silent until the editor is ready, during the init settle window,
//! while a preset is read and while a pull capture runs.
use vstd::prelude::*;
use crate::bytes::{lo8, hi8, wadd8, wadd16, lo_byte, hi_byte};
use crate::packet::OutPacket;
use crate::pipeline::{LayerEffect, LayerResult};
use crate::pull_frames::{is_hw_model_scroll_1d, scroll_1d_spec};
use crate::slot_model_hw_pull::{would_start_hw_model_pull_on_1f, would_start_spec};
use crate::state::{Counters, HelixState, ScrollLanes, SCROLL_LANE_BOOT};

verus! {

/// Lane step per `(previous head, head)`, from HX Edit captures; the `bool` is the
/// "skip one increment" flag after the step.
pub open spec fn scroll_ack_step_spec(prev: Option<u8>, head: u8, skip_inc_once: bool) -> (u16, bool) {
    if skip_inc_once && prev == Some(0x1fu8) && head == 0x1d {
        (0, false)
    } else {
        let step: u16 = match prev {
            None => if head == 0x1d {
                0x3f
            } else if head == 0x1f {
                0x17
            } else {
                0x15
            },
            Some(p) => if head == 0x1f && (p == 0x1d || p == 0x1f || p == 0x21) {
                0x17
            } else if head == 0x1d && (p == 0x1f || p == 0x21) {
                0x2e
            } else {
                0x15
            },
        };
        (step, skip_inc_once)
    }
}

pub fn scroll_ack_step(prev: Option<u8>, head: u8, skip_inc_once: bool) -> (r: (u16, bool))
    ensures
        r == scroll_ack_step_spec(prev, head, skip_inc_once),
{
    if skip_inc_once && prev == Some(0x1fu8) && head == 0x1d {
        return (0, false);
    }
    let step: u16 = match prev {
        None => if head == 0x1d {
            0x003f
        } else if head == 0x1f {
            0x0017
        } else {
            0x0015
        },
        Some(p) => if head == 0x1f && (p == 0x1d || p == 0x1f || p == 0x21) {
            0x0017
        } else if head == 0x1d && (p == 0x1f || p == 0x21) {
            0x002e
        } else {
            0x0015
        },
    };
    (step, skip_inc_once)
}

/// The background lane after one notification `head`.
pub open spec fn scroll_lanes_after(s: ScrollLanes, head: u8) -> ScrollLanes {
    let (step, skip) = scroll_ack_step_spec(
        s.firmware_scroll_ack_prev,
        head,
        s.firmware_scroll_skip_inc_once,
    );
    ScrollLanes {
        firmware_scroll_ack_ctr: wadd16(s.firmware_scroll_ack_ctr, step as int),
        firmware_scroll_ack_prev: Some(head),
        firmware_scroll_skip_inc_once: skip,
        ..s
    }
}

/// Every notification moves the lane on and is remembered as the previous head: `0x15` after
/// a `1d` is followed by a `1d`, `0x17` when a `1f` follows a `1d`, `1f` or `21`, and the
/// first `1d` after the bootstrap lands on `0x1048`. The skip-one-increment flag is used up
/// by the `1f` → `1d` pair it is armed for and is never armed by a notification; the lane
/// stays armed or not as it was, and the pull's own lane is not touched.
pub proof fn law_scroll_lane_follows_notifications(s: ScrollLanes, head: u8)
    ensures
        ({
            let n = scroll_lanes_after(s, head);
            &&& n.firmware_scroll_ack_prev == Some(head)
            &&& n.firmware_scroll_armed == s.firmware_scroll_armed
            &&& n.hw_model_scroll_ack_ctr == s.hw_model_scroll_ack_ctr
            &&& n.hw_model_scroll_ack_prev == s.hw_model_scroll_ack_prev
            &&& n.hw_model_scroll_skip_inc_once == s.hw_model_scroll_skip_inc_once
            &&& s.firmware_scroll_ack_prev == Some(0x1du8) && head == 0x1d ==> n.firmware_scroll_ack_ctr
                == wadd16(s.firmware_scroll_ack_ctr, 0x15)
            &&& (s.firmware_scroll_ack_prev == Some(0x1du8) || s.firmware_scroll_ack_prev == Some(0x1fu8)
                || s.firmware_scroll_ack_prev == Some(0x21u8)) && head == 0x1f ==> n.firmware_scroll_ack_ctr
                == wadd16(s.firmware_scroll_ack_ctr, 0x17)
            &&& s.firmware_scroll_ack_ctr == SCROLL_LANE_BOOT && s.firmware_scroll_ack_prev is None && head
                == 0x1d ==> n.firmware_scroll_ack_ctr == 0x1048
            &&& !s.firmware_scroll_skip_inc_once ==> !n.firmware_scroll_skip_inc_once
            &&& s.firmware_scroll_skip_inc_once && s.firmware_scroll_ack_prev == Some(0x1fu8) && head == 0x1d
                ==> !n.firmware_scroll_skip_inc_once && n.firmware_scroll_ack_ctr == s.firmware_scroll_ack_ctr
        }),
{
    assert(wadd16(0x1009, 0x3f) == 0x1048);
}

impl HelixState {
    pub fn firmware_scroll_lane_double(&self) -> (r: [u8; 2])
        ensures
            r@ == seq![lo8(self.scroll.firmware_scroll_ack_ctr), hi8(self.scroll.firmware_scroll_ack_ctr)],
    {
        let r = [lo_byte(self.scroll.firmware_scroll_ack_ctr), hi_byte(self.scroll.firmware_scroll_ack_ctr)];
        assert(r@ == seq![lo8(self.scroll.firmware_scroll_ack_ctr), hi8(self.scroll.firmware_scroll_ack_ctr)]);
        r
    }

    /// Advances the scroll lane by one step for notification `head`, without sending;
    /// returns the new lane bytes.
    pub fn advance_firmware_scroll_lane(&mut self, head: u8) -> (r: [u8; 2])
        ensures
            *final(self) == (HelixState { scroll: scroll_lanes_after(old(self).scroll, head), ..*old(self) }),
            r@ == seq![lo8(final(self).scroll.firmware_scroll_ack_ctr), hi8(final(self).scroll.firmware_scroll_ack_ctr)],
    {
        let (step, skip_next) = scroll_ack_step(
            self.scroll.firmware_scroll_ack_prev,
            head,
            self.scroll.firmware_scroll_skip_inc_once,
        );
        self.scroll.firmware_scroll_skip_inc_once = skip_next;
        self.scroll.firmware_scroll_ack_ctr = self.scroll.firmware_scroll_ack_ctr.wrapping_add(step);
        self.scroll.firmware_scroll_ack_prev = Some(head);
        self.firmware_scroll_lane_double()
    }

    /// Arms the lane at bootstrap (`ARM_f0`): lane back to its boot value, armed.
    pub fn note_firmware_scroll_bootstrap_sent(&mut self)
        ensures
            *final(self) == (HelixState {
                scroll: ScrollLanes {
                    firmware_scroll_ack_ctr: SCROLL_LANE_BOOT,
                    firmware_scroll_ack_prev: None,
                    firmware_scroll_skip_inc_once: false,
                    firmware_scroll_armed: true,
                    ..old(self).scroll
                },
                ..*old(self)
            }),
    {
        self.scroll.firmware_scroll_ack_ctr = SCROLL_LANE_BOOT;
        self.scroll.firmware_scroll_ack_prev = None;
        self.scroll.firmware_scroll_skip_inc_once = false;
        self.scroll.firmware_scroll_armed = true;
    }
}

/// A 40-byte `1d` / `1f` on `f0:03:02:10`.
pub open spec fn scroll_fond_notify_spec(data: Seq<u8>) -> bool {
    data.len() == 40 && (data[0] == 0x1d || data[0] == 0x1f) && data[4] == 0xf0 && data[5]
        == 0x03 && data[6] == 0x02 && data[7] == 0x10
}

fn is_scroll_fond_notify(data: &[u8]) -> (r: bool)
    ensures
        r == scroll_fond_notify_spec(data@),
{
    data.len() == 40 && (data[0] == 0x1d || data[0] == 0x1f) && data[4] == 0xf0 && data[5]
        == 0x03 && data[6] == 0x02 && data[7] == 0x10
}

/// ACK `f0:03` sub=`08` with counter `cnt` and lane `double`.
pub open spec fn scroll_ack_packet(cnt: u8, d0: u8, d1: u8) -> Seq<u8> {
    seq![0x08u8, 0x00, 0x00, 0x18, 0x02, 0x10, 0xf0, 0x03, 0x00, cnt, 0x00, 0x08, d0, d1, 0x00, 0x00]
}

fn send_hw_model_scroll_ack(state: &mut HelixState, data: &[u8]) -> (r: LayerResult)
    ensures
        r == (LayerResult::Consumed { effect: LayerEffect::ScrollLaneAndAck }),
        ({
            let head = if data@.len() >= 1 { data@[0] } else { 0u8 };
            let lanes = scroll_lanes_after(old(state).scroll, head);
            &&& final(state).counters == (Counters {
                x2_cnt: wadd8(old(state).counters.x2_cnt, 1),
                ..old(state).counters
            })
            &&& final(state).scroll == lanes
            &&& final(state).outbox@.len() == old(state).outbox@.len() + 1
            &&& final(state).outbox@.drop_last() == old(state).outbox@
            &&& final(state).outbox@.last().data@ == scroll_ack_packet(
                old(state).counters.x2_cnt,
                lo8(lanes.firmware_scroll_ack_ctr),
                hi8(lanes.firmware_scroll_ack_ctr),
            )
            &&& *final(state) == (HelixState {
                counters: final(state).counters,
                scroll: final(state).scroll,
                outbox: final(state).outbox,
                ..*old(state)
            })
        }),
{
    let head = if data.len() >= 1 { data[0] } else { 0 };
    let cnt = state.next_x2_cnt();
    let double = state.advance_firmware_scroll_lane(head);
    let pkt = vec![
        0x08, 0x00, 0x00, 0x18,
        0x02, 0x10, 0xf0, 0x03,
        0x00, cnt, 0x00, 0x08,
        double[0], double[1], 0x00, 0x00,
    ];
    state.send(OutPacket::new(pkt));
    LayerResult::Consumed { effect: LayerEffect::ScrollLaneAndAck }
}

/// Background layer: IN `1d` / `1f` scroll → lane step + ACK `f0:03` sub=`08`.
///
/// Ignored (state unchanged) unless the frame is a 40-byte scroll notification, the lane is
/// armed, the editor is ready, the settle window is closed, no preset read is running and
/// no pull capture is active. Then a pre-scroll `1d` (marker `82:69:31:6a`) only advances
/// the lane, a `1f` that starts a pull is left to the pull, and any other notification is
/// ACKed.
pub fn handle_in_layer(state: &mut HelixState, data: &[u8]) -> (r: LayerResult)
    ensures
        ({
            let s = *old(state);
            let gate = scroll_fond_notify_spec(data@) && s.scroll.firmware_scroll_armed
                && s.session.editor_ready && !s.settle_active_spec()
                && !s.session.suppress_1d_firmware_notify_ack
                && s.pull.hw_model_pull_capture_deadline is None;
            let head = data@[0];
            &&& !gate ==> r == LayerResult::Ignored && *final(state) == s
            &&& gate && head == 0x1d && scroll_1d_spec(data@) ==> r == LayerResult::Ignored
                && *final(state) == (HelixState { scroll: scroll_lanes_after(s.scroll, 0x1d), ..s })
            &&& gate && head == 0x1f && would_start_spec(s, data@) ==> r == LayerResult::Ignored
                && *final(state) == s
            &&& gate && ((head == 0x1d && !scroll_1d_spec(data@)) || (head == 0x1f
                && !would_start_spec(s, data@))) ==> r == (LayerResult::Consumed {
                effect: LayerEffect::ScrollLaneAndAck,
            }) && final(state).scroll == scroll_lanes_after(s.scroll, head)
                && final(state).counters.x2_cnt == wadd8(s.counters.x2_cnt, 1)
                && final(state).outbox@.len() == s.outbox@.len() + 1
                && final(state).outbox@.last().data@ == scroll_ack_packet(
                s.counters.x2_cnt,
                lo8(final(state).scroll.firmware_scroll_ack_ctr),
                hi8(final(state).scroll.firmware_scroll_ack_ctr),
            )
        }),
{
    if !is_scroll_fond_notify(data) {
        return LayerResult::Ignored;
    }
    if !state.scroll.firmware_scroll_armed {
        return LayerResult::Ignored;
    }
    if !state.session.editor_ready || state.init_usb_settle_active() {
        return LayerResult::Ignored;
    }
    if !state.should_ack_firmware_1d_notify() {
        return LayerResult::Ignored;
    }
    if state.pull.hw_model_pull_capture_deadline.is_some() {
        return LayerResult::Ignored;
    }
    let head = data[0];
    if head == 0x1d {
        if is_hw_model_scroll_1d(data) {
            let _ = state.advance_firmware_scroll_lane(0x1d);
            return LayerResult::Ignored;
        }
        return send_hw_model_scroll_ack(state, data);
    }
    if would_start_hw_model_pull_on_1f(state, data) {
        return LayerResult::Ignored;
    }
    send_hw_model_scroll_ack(state, data)
}

} // verus!
