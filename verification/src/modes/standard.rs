//! Nominal mode after the connection: ACKs LED colour changes, preset switches and late
//! preset-name frames, and lets the other frames of the session through.
use vstd::prelude::*;
use crate::bytes::wadd8;
use crate::packet::OutPacket;
use crate::state::{mode_requests_after, Counters, HelixState, Mode, ModeRequest, PresetRead};

verus! {

/// `XX 00 00 18 a b c d` (bytes 1-7).
pub open spec fn head_lane(d: Seq<u8>, a: u8, b: u8, c: u8, e: u8) -> bool {
    d.len() >= 8 && d[1] == 0x00 && d[2] == 0x00 && d[3] == 0x18 && d[4] == a && d[5] == b && d[6] == c && d[7] == e
}

/// Keep-alive frames that the session swallows: while connecting, any frame on the three
/// lanes; otherwise the `08 … 10` ACKs of the x1 and x2 lanes.
pub open spec fn keep_alive_spec(connecting: bool, d: Seq<u8>) -> bool {
    (connecting && (head_lane(d, 0xef, 0x03, 0x01, 0x10) || head_lane(d, 0xed, 0x03, 0x80, 0x10) || head_lane(d, 0xf0, 0x03, 0x02, 0x10)))
        || (d.len() >= 12 && d[0] == 0x08 && head_lane(d, 0xef, 0x03, 0x01, 0x10) && d[8] == 0x00 && d[10] == 0x00 && d[11] == 0x10)
        || (d.len() >= 12 && d[0] == 0x08 && head_lane(d, 0xf0, 0x03, 0x02, 0x10) && d[8] == 0x00 && d[10] == 0x00 && d[11] == 0x10)
}

/// Kind of an IN frame in the standard mode, in the order the mode checks them.
#[derive(PartialEq, Eq, Structural, Clone, Copy, Debug)]
pub enum StandardIn {
    LedColor,
    X2Ack17,
    ViewChange,
    UiModeChange,
    PresetSwitch,
    PresetSwitchSecondary,
    PresetSwitchQuiet,
    X2Quiet,
    Ed03ShortAck,
    LateNames,
    KeepAlive,
    Other,
}

/// `… 00 XX 00 04` (bytes 8-11) on the x2 lane with `09 02 00 00` (bytes 12-15).
pub open spec fn x2_sub04(d: Seq<u8>) -> bool {
    d.len() >= 16 && head_lane(d, 0xf0, 0x03, 0x02, 0x10) && d[8] == 0x00 && d[10] == 0x00 && d[11] == 0x04
        && d[12] == 0x09 && d[13] == 0x02 && d[14] == 0x00 && d[15] == 0x00
}

/// A preset-switch frame `21` up to byte 29 (`… 82 69 k 6a 84 52`).
pub open spec fn switch21(d: Seq<u8>, k: u8) -> bool {
    d.len() >= 30 && d[0] == 0x21 && x2_sub04(d) && d[16] == 0x00 && d[17] == 0x00 && d[18] == 0x04 && d[19] == 0x00
        && d[20] == 0x11 && d[21] == 0x00 && d[22] == 0x00 && d[23] == 0x00 && d[24] == 0x82 && d[25] == 0x69
        && d[26] == k && d[27] == 0x6a && d[28] == 0x84 && d[29] == 0x52
}

/// The view / UI mode change frame `23` (42 bytes of pattern) with byte 40 = `sel`.
pub open spec fn view23(d: Seq<u8>, sel: u8) -> bool {
    d.len() >= 42 && d[0] == 0x23 && x2_sub04(d) && d[16] == 0x00 && d[17] == 0x00 && d[18] == 0x04 && d[19] == 0x00
        && d[20] == 0x13 && d[21] == 0x00 && d[22] == 0x00 && d[23] == 0x00 && d[24] == 0x82 && d[25] == 0x69
        && d[26] == 0x16 && d[27] == 0x6a && d[28] == 0x84 && d[29] == 0x52 && d[30] == 0x00 && d[31] == 0x44
        && d[32] == 0x09 && d[33] == 0x79 && d[34] == 0x19 && d[35] == 0x6a && d[36] == 0x82 && d[37] == 0x76
        && d[38] == 0xcd && d[39] == 0x00 && d[40] == sel && d[41] == 0x77
}

/// Late preset-name frame on the x1 lane (`XX 00 00 18 ef 03 01 10 00 XX 00 04 XX 02 00 00`;
/// the 17-byte form with `08 01` is covered by the same bytes once byte 1 is set aside).
pub open spec fn late_names(d: Seq<u8>) -> bool {
    ||| (d.len() >= 17 && d[0] == 0x08 && d[1] == 0x01 && d[2] == 0x00 && d[3] == 0x18 && d[4] == 0xef
        && d[5] == 0x03 && d[6] == 0x01 && d[7] == 0x10 && d[8] == 0x00 && d[10] == 0x00 && d[11] == 0x04
        && d[13] == 0x02 && d[14] == 0x00 && d[15] == 0x00)
    ||| (d.len() >= 16 && head_lane(d, 0xef, 0x03, 0x01, 0x10) && d[8] == 0x00 && d[10] == 0x00 && d[11] == 0x04
        && d[13] == 0x02 && d[14] == 0x00 && d[15] == 0x00)
}

/// Kind of an IN frame in the standard mode.
pub open spec fn standard_in_spec(connecting: bool, d: Seq<u8>) -> StandardIn {
    if d.len() >= 16 && head_lane(d, 0xed, 0x03, 0x80, 0x10) && d[8] == 0x00 && d[10] == 0x00 && d[11] == 0x04 {
        StandardIn::LedColor
    } else if d.len() >= 16 && d[0] == 0x17 && x2_sub04(d) {
        StandardIn::X2Ack17
    } else if view23(d, 0x13) {
        StandardIn::ViewChange
    } else if view23(d, 0x15) {
        StandardIn::UiModeChange
    } else if switch21(d, 0x04) {
        StandardIn::PresetSwitch
    } else if switch21(d, 0x27) && d.len() >= 38 && d[30] == 0x01 && d[31] == 0x44 && d[32] == 0x03
        && d[33] == 0x79 && d[34] == 0x13 && d[35] == 0x6a && d[36] == 0x82 && d[37] == 0x62 {
        StandardIn::PresetSwitchSecondary
    } else if switch21(d, 0x08) && d.len() >= 40 && d[30] == 0x01 && d[31] == 0x44 && d[32] == 0x01
        && d[33] == 0x79 && d[34] == 0x05 && d[35] == 0x6a && d[36] == 0x82 && d[37] == 0x6b && d[38] == 0x00
        && d[39] == 0x6c {
        StandardIn::PresetSwitchQuiet
    } else if (d.len() >= 8 && d[0] == 0x27 && head_lane(d, 0xf0, 0x03, 0x02, 0x10)) || (d.len() >= 8 && d[0] == 0x23
        && head_lane(d, 0xf0, 0x03, 0x02, 0x10)) {
        StandardIn::X2Quiet
    } else if d.len() >= 16 && d[0] == 0x08 && head_lane(d, 0xed, 0x03, 0x80, 0x10) && d[8] == 0x00 && d[10] == 0x00
        && (d[11] == 0x08 || d[11] == 0x10) && d[14] == 0x00 && d[15] == 0x00 {
        StandardIn::Ed03ShortAck
    } else if late_names(d) {
        StandardIn::LateNames
    } else if keep_alive_spec(connecting, d) {
        StandardIn::KeepAlive
    } else {
        StandardIn::Other
    }
}

fn head_lane_exec(d: &[u8], a: u8, b: u8, c: u8, e: u8) -> (r: bool)
    ensures
        r == head_lane(d@, a, b, c, e),
{
    d.len() >= 8 && d[1] == 0x00 && d[2] == 0x00 && d[3] == 0x18 && d[4] == a && d[5] == b && d[6] == c && d[7] == e
}

fn x2_sub04_exec(d: &[u8]) -> (r: bool)
    ensures
        r == x2_sub04(d@),
{
    d.len() >= 16 && head_lane_exec(d, 0xf0, 0x03, 0x02, 0x10) && d[8] == 0x00 && d[10] == 0x00 && d[11] == 0x04
        && d[12] == 0x09 && d[13] == 0x02 && d[14] == 0x00 && d[15] == 0x00
}

fn switch21_exec(d: &[u8], k: u8) -> (r: bool)
    ensures
        r == switch21(d@, k),
{
    d.len() >= 30 && d[0] == 0x21 && x2_sub04_exec(d) && d[16] == 0x00 && d[17] == 0x00 && d[18] == 0x04 && d[19] == 0x00
        && d[20] == 0x11 && d[21] == 0x00 && d[22] == 0x00 && d[23] == 0x00 && d[24] == 0x82 && d[25] == 0x69
        && d[26] == k && d[27] == 0x6a && d[28] == 0x84 && d[29] == 0x52
}

fn view23_exec(d: &[u8], sel: u8) -> (r: bool)
    ensures
        r == view23(d@, sel),
{
    d.len() >= 42 && d[0] == 0x23 && x2_sub04_exec(d) && d[16] == 0x00 && d[17] == 0x00 && d[18] == 0x04 && d[19] == 0x00
        && d[20] == 0x13 && d[21] == 0x00 && d[22] == 0x00 && d[23] == 0x00 && d[24] == 0x82 && d[25] == 0x69
        && d[26] == 0x16 && d[27] == 0x6a && d[28] == 0x84 && d[29] == 0x52 && d[30] == 0x00 && d[31] == 0x44
        && d[32] == 0x09 && d[33] == 0x79 && d[34] == 0x19 && d[35] == 0x6a && d[36] == 0x82 && d[37] == 0x76
        && d[38] == 0xcd && d[39] == 0x00 && d[40] == sel && d[41] == 0x77
}

fn late_names_exec(d: &[u8]) -> (r: bool)
    ensures
        r == late_names(d@),
{
    (d.len() >= 17 && d[0] == 0x08 && d[1] == 0x01 && d[2] == 0x00 && d[3] == 0x18 && d[4] == 0xef
        && d[5] == 0x03 && d[6] == 0x01 && d[7] == 0x10 && d[8] == 0x00 && d[10] == 0x00 && d[11] == 0x04
        && d[13] == 0x02 && d[14] == 0x00 && d[15] == 0x00)
    || (d.len() >= 16 && head_lane_exec(d, 0xef, 0x03, 0x01, 0x10) && d[8] == 0x00 && d[10] == 0x00 && d[11] == 0x04
        && d[13] == 0x02 && d[14] == 0x00 && d[15] == 0x00)
}

/// Kind of an IN frame in the standard mode.
pub fn classify_standard_in(connecting: bool, d: &[u8]) -> (r: StandardIn)
    ensures
        r == standard_in_spec(connecting, d@),
{
    if d.len() >= 16 && head_lane_exec(d, 0xed, 0x03, 0x80, 0x10) && d[8] == 0x00 && d[10] == 0x00 && d[11] == 0x04 {
        StandardIn::LedColor
    } else if d.len() >= 16 && d[0] == 0x17 && x2_sub04_exec(d) {
        StandardIn::X2Ack17
    } else if view23_exec(d, 0x13) {
        StandardIn::ViewChange
    } else if view23_exec(d, 0x15) {
        StandardIn::UiModeChange
    } else if switch21_exec(d, 0x04) {
        StandardIn::PresetSwitch
    } else if switch21_exec(d, 0x27) && d.len() >= 38 && d[30] == 0x01 && d[31] == 0x44 && d[32] == 0x03
        && d[33] == 0x79 && d[34] == 0x13 && d[35] == 0x6a && d[36] == 0x82 && d[37] == 0x62 {
        StandardIn::PresetSwitchSecondary
    } else if switch21_exec(d, 0x08) && d.len() >= 40 && d[30] == 0x01 && d[31] == 0x44 && d[32] == 0x01
        && d[33] == 0x79 && d[34] == 0x05 && d[35] == 0x6a && d[36] == 0x82 && d[37] == 0x6b && d[38] == 0x00
        && d[39] == 0x6c {
        StandardIn::PresetSwitchQuiet
    } else if (d.len() >= 8 && d[0] == 0x27 && head_lane_exec(d, 0xf0, 0x03, 0x02, 0x10)) || (d.len() >= 8
        && d[0] == 0x23 && head_lane_exec(d, 0xf0, 0x03, 0x02, 0x10)) {
        StandardIn::X2Quiet
    } else if d.len() >= 16 && d[0] == 0x08 && head_lane_exec(d, 0xed, 0x03, 0x80, 0x10) && d[8] == 0x00 && d[10]
        == 0x00 && (d[11] == 0x08 || d[11] == 0x10) && d[14] == 0x00 && d[15] == 0x00 {
        StandardIn::Ed03ShortAck
    } else if late_names_exec(d) {
        StandardIn::LateNames
    } else if Standard::keep_alive(connecting, d) {
        StandardIn::KeepAlive
    } else {
        StandardIn::Other
    }
}

/// The nominal mode.
pub struct Standard;

/// ACK `08 … 01 10 ef 03` of a late preset-name frame (counter byte = frame counter + 9).
pub open spec fn late_names_ack(cnt: u8, frame_cnt: u8) -> Seq<u8> {
    seq![0x08u8, 0x00, 0x00, 0x18, 0x01, 0x10, 0xef, 0x03, 0x00, cnt, 0x00, 0x08, 0x38, wadd8(frame_cnt, 9), 0x00, 0x00]
}

/// ACK `08 … 02 10 f0 03` sub=`08` on the preset dump ACK lane.
pub open spec fn x2_ack(cnt: u8, d0: u8, d1: u8) -> Seq<u8> {
    seq![0x08u8, 0x00, 0x00, 0x18, 0x02, 0x10, 0xf0, 0x03, 0x00, cnt, 0x00, 0x08, d0, d1, 0x00, 0x00]
}

/// ACK `08 … 80 10 ed 03` sub=`08` carrying the session quadruple.
pub open spec fn led_ack(cnt: u8, sq: Seq<u8>) -> Seq<u8> {
    seq![0x08u8, 0x00, 0x00, 0x18, 0x80, 0x10, 0xed, 0x03, 0x00, cnt, 0x00, 0x08, sq[0], sq[1], sq[2], sq[3]]
}

/// What the standard mode does with one IN frame `data` in state `s`: `f` is the state
/// after it and `r` its result.
pub open spec fn standard_outcome(s: HelixState, f: HelixState, data: Seq<u8>, r: bool) -> bool {
    let k = standard_in_spec(s.session.connecting, data);
        &&& r == (k == StandardIn::LedColor || k == StandardIn::X2Ack17 || k == StandardIn::ViewChange
            || k == StandardIn::UiModeChange || k == StandardIn::PresetSwitch
            || k == StandardIn::PresetSwitchSecondary || k == StandardIn::Other)
        &&& (k == StandardIn::ViewChange || k == StandardIn::UiModeChange || k == StandardIn::PresetSwitchQuiet
            || k == StandardIn::X2Quiet || k == StandardIn::Ed03ShortAck || k == StandardIn::KeepAlive
            || k == StandardIn::Other) ==> f == s
        &&& k == StandardIn::LedColor ==> {
            &&& f.outbox@.len() == s.outbox@.len() + 1
            &&& f.outbox@.drop_last() =~= s.outbox@
            &&& f.outbox@.last().data@ =~= led_ack(s.counters.x80_cnt, crate::state::quadruple_plus_x11(s.counters.session_quadruple@))
            &&& f.counters == (Counters {
                x80_cnt: wadd8(s.counters.x80_cnt, 1),
                session_quadruple: f.counters.session_quadruple,
                ..s.counters
            })
            &&& f.counters.session_quadruple@ =~= crate::state::quadruple_plus_x11(s.counters.session_quadruple@)
            &&& f == (HelixState { counters: f.counters, outbox: f.outbox, ..s })
        }
        &&& (k == StandardIn::X2Ack17 || k == StandardIn::PresetSwitch || k == StandardIn::PresetSwitchSecondary) ==> {
            &&& f.outbox@.len() == s.outbox@.len() + 1
            &&& f.outbox@.drop_last() =~= s.outbox@
            &&& f.outbox@.last().data@ =~= x2_ack(
                s.counters.x2_cnt,
                crate::bytes::lo8(s.lanes.preset_dump_ack_ctr),
                crate::bytes::hi8(s.lanes.preset_dump_ack_ctr),
            )
            &&& f.outbox@.last().delay_ms == (if k == StandardIn::PresetSwitch { 0u64 } else { 10u64 })
            &&& f.counters == (Counters { x2_cnt: wadd8(s.counters.x2_cnt, 1), ..s.counters })
            &&& crate::bytes::lo8(f.lanes.preset_dump_ack_ctr) == s.counters.request_preset_session_id
            &&& crate::bytes::hi8(f.lanes.preset_dump_ack_ctr) == wadd8(crate::bytes::hi8(s.lanes.preset_dump_ack_ctr), 1)
        }
        &&& k == StandardIn::PresetSwitch ==> {
            let s1 = HelixState {
                preset: PresetRead {
                    preset_index: if data.len() > 40 { data[40] as usize } else { s.preset.preset_index },
                    want_content_only_after_x2: false,
                    preset_content_only: s.preset.want_content_only_after_x2 || s.preset.preset_content_only,
                    ..s.preset
                },
                ..s
            };
            &&& f.preset == s1.preset
            &&& f.mode_requests@ =~= mode_requests_after(s1, if s.preset.want_content_only_after_x2 {
                ModeRequest::RequestPreset(true)
            } else {
                ModeRequest::RequestPresetName
            })
        }
        &&& k == StandardIn::LateNames ==> {
            &&& f.outbox@.len() == s.outbox@.len() + 1
            &&& f.outbox@.drop_last() =~= s.outbox@
            &&& f.outbox@.last().data@ =~= late_names_ack(s.counters.x1_cnt, data[9])
            &&& f == (HelixState {
                counters: Counters { x1_cnt: wadd8(s.counters.x1_cnt, 1), ..s.counters },
                outbox: f.outbox,
                ..s
            })
        }
}

impl Standard {
    /// Keep-alive frames to swallow (see `keep_alive_spec`).
    pub fn keep_alive(connecting: bool, data: &[u8]) -> (r: bool)
        ensures
            r == keep_alive_spec(connecting, data@),
    {
        if connecting {
            if head_lane_exec(data, 0xef, 0x03, 0x01, 0x10) || head_lane_exec(data, 0xed, 0x03, 0x80, 0x10)
                || head_lane_exec(data, 0xf0, 0x03, 0x02, 0x10) {
                return true;
            }
        }
        (data.len() >= 12 && data[0] == 0x08 && head_lane_exec(data, 0xef, 0x03, 0x01, 0x10) && data[8] == 0x00
            && data[10] == 0x00 && data[11] == 0x10)
            || (data.len() >= 12 && data[0] == 0x08 && head_lane_exec(data, 0xf0, 0x03, 0x02, 0x10) && data[8] == 0x00
            && data[10] == 0x00 && data[11] == 0x10)
    }

    /// Whether an IN frame is a keep-alive frame to swallow in the current phase.
    pub fn check_keep_alive(data: &[u8], state: &mut HelixState) -> (r: bool)
        ensures
            r == keep_alive_spec(old(state).session.connecting, data@),
            *final(state) == *old(state),
    {
        Self::keep_alive(state.session.connecting, data)
    }

    /// Handles one IN frame; returns whether the frame still counts as unhandled for the
    /// pipeline (`false` for the quiet and ACKed background frames).
    pub fn handle_in(&mut self, data: &[u8], state: &mut HelixState) -> (r: bool)
        ensures
            standard_outcome(*old(state), *final(state), data@, r),
    {
        let k = classify_standard_in(state.session.connecting, data);
        match k {
            StandardIn::LedColor => {
                state.increase_session_quadruple_x11();
                let sq = state.counters.session_quadruple;
                let cnt = state.next_x80_cnt();
                let pkt = vec![0x08, 0x00, 0x00, 0x18, 0x80, 0x10, 0xed, 0x03, 0x00, cnt, 0x00, 0x08, sq[0], sq[1], sq[2], sq[3]];
                assert(pkt@ == led_ack(old(state).counters.x80_cnt, sq@));
                state.send(OutPacket::with_delay(pkt, 0));
                true
            },
            StandardIn::X2Ack17 | StandardIn::PresetSwitchSecondary => {
                let cnt = state.next_x2_cnt();
                let double = state.next_preset_dump_ack_double();
                let pkt = vec![0x08, 0x00, 0x00, 0x18, 0x02, 0x10, 0xf0, 0x03, 0x00, cnt, 0x00, 0x08, double[0], double[1], 0x00, 0x00];
                assert(pkt@ == x2_ack(cnt, double@[0], double@[1]));
                state.send(OutPacket::with_delay(pkt, 10));
                true
            },
            StandardIn::PresetSwitch => {
                let cnt = state.next_x2_cnt();
                let double = state.next_preset_dump_ack_double();
                let pkt = vec![0x08, 0x00, 0x00, 0x18, 0x02, 0x10, 0xf0, 0x03, 0x00, cnt, 0x00, 0x08, double[0], double[1], 0x00, 0x00];
                assert(pkt@ == x2_ack(cnt, double@[0], double@[1]));
                state.send(OutPacket::new(pkt));
                if data.len() > 40 {
                    state.preset.preset_index = data[40] as usize;
                }
                if state.preset.want_content_only_after_x2 {
                    state.preset.want_content_only_after_x2 = false;
                    state.preset.preset_content_only = true;
                    state.switch_mode(ModeRequest::RequestPreset(true));
                } else {
                    state.switch_mode(ModeRequest::RequestPresetName);
                }
                true
            },
            StandardIn::LateNames => {
                let next_cnt = state.next_x1_cnt();
                let ack_cnt = data[9].wrapping_add(9);
                let pkt = vec![0x08, 0x00, 0x00, 0x18, 0x01, 0x10, 0xef, 0x03, 0x00, next_cnt, 0x00, 0x08, 0x38, ack_cnt, 0x00, 0x00];
                assert(pkt@ == late_names_ack(next_cnt, data@[9]));
                state.send(OutPacket::new(pkt));
                false
            },
            StandardIn::ViewChange | StandardIn::UiModeChange | StandardIn::Other => true,
            _ => false,
        }
    }
}

impl Mode for Standard {
    fn start(&mut self, state: &mut HelixState) {
    }

    fn data_in(&mut self, data: &[u8], state: &mut HelixState) -> bool {
        self.handle_in(data, state)
    }

    fn shutdown(&mut self, state: &mut HelixState) {
    }
}

} // verus!
