//! Live write of the Path 1 I/O blocks (opcode `1d`, 40 bytes): Input source selection,
//! plus the short frames of the matrix drag & drop (preamble `sub=10`, `ed` ACK, `f0` ACK).
use vstd::prelude::*;
use crate::bytes::{lo8, hi8, wadd8, wadd16, lo_byte, hi_byte};
use crate::packet::{OutPacket, has_window, contains_window};
use crate::state::{next_editor_double_spec, Counters, EditorLanes, HelixState, SlotTracking};
use crate::text::{decimal_of, push_decimal, string_push_str, text_of};

verus! {

/// `@input` value byte in the `1d` frame (bus `0x00`, selector `0x33`).
pub const PATH1_INPUT_WIRE_VALUE_OFFSET: usize = 36;
/// `yy` byte of the model block `83:66:cd:03:yy:…` in the frame.
pub const PATH1_IO_MODEL_YY_OFFSET: usize = 28;

/// One Input source of the Stomp (`ioSources[]` of the USB assign table).
pub struct IoSourceEntry {
    pub id: String,
    pub parent_model_id: String,
    pub wire_value: u8,
    /// 40-byte `1d` live write template.
    pub template: Vec<u8>,
}

/// Value of a hexadecimal digit.
pub open spec fn hex_value(c: char) -> Option<u8> {
    if '0' <= c && c <= '9' {
        Some((c as u32 - 48) as u8)
    } else if 'a' <= c && c <= 'f' {
        Some((c as u32 - 87) as u8)
    } else if 'A' <= c && c <= 'F' {
        Some((c as u32 - 55) as u8)
    } else {
        None
    }
}

/// Bytes of an even-length hexadecimal text (`None` on an odd length or a bad digit).
pub open spec fn parse_hex_spec(t: Seq<char>) -> Option<Seq<u8>>
    decreases t.len(),
{
    if t.len() == 0 {
        Some(Seq::empty())
    } else if t.len() == 1 {
        None
    } else {
        match (hex_value(t[0]), hex_value(t[1]), parse_hex_spec(t.subrange(2, t.len() as int))) {
            (Some(h), Some(l), Some(rest)) => Some(seq![(h * 16 + l) as u8] + rest),
            _ => None,
        }
    }
}

fn hex_digit_value(c: char) -> (r: Option<u8>)
    ensures
        r == hex_value(c),
{
    if '0' <= c && c <= '9' {
        Some((c as u32 - 48) as u8)
    } else if 'a' <= c && c <= 'f' {
        Some((c as u32 - 87) as u8)
    } else if 'A' <= c && c <= 'F' {
        Some((c as u32 - 55) as u8)
    } else {
        None
    }
}

/// Bytes of a hexadecimal text given as its chars; an empty text is refused.
pub fn parse_hex_bytes(t: &Vec<char>) -> (r: Option<Vec<u8>>)
    ensures
        t@.len() == 0 ==> r is None,
        t@.len() > 0 ==> (r is Some <==> parse_hex_spec(t@) is Some),
        r matches Some(v) ==> parse_hex_spec(t@) == Some(v@),
{
    if t.len() == 0 || t.len() % 2 != 0 {
        if t.len() % 2 != 0 {
            proof { lemma_parse_hex_odd(t@); }
        }
        return None;
    }
    let mut out: Vec<u8> = Vec::new();
    let mut i: usize = 0;
    assert(t@.subrange(0, t@.len() as int) == t@);
    proof {
        match parse_hex_spec(t@) {
            Some(rest) => { assert(out@ + rest == rest); },
            None => {},
        }
    }
    while i < t.len()
        invariant
            i <= t@.len(),
            i % 2 == 0,
            t@.len() % 2 == 0,
            parse_hex_spec(t@) == (match parse_hex_spec(t@.subrange(i as int, t@.len() as int)) {
                Some(rest) => Some(out@ + rest),
                None => None::<Seq<u8>>,
            }),
        decreases t.len() - i,
    {
        let h = hex_digit_value(t[i]);
        let l = hex_digit_value(t[i + 1]);
        let ghost tail = t@.subrange(i as int, t@.len() as int);
        assert(tail.subrange(2, tail.len() as int) == t@.subrange(i + 2, t@.len() as int));
        match (h, l) {
            (Some(h), Some(l)) => {
                let ghost before = out@;
                out.push(h * 16 + l);
                proof {
                    match parse_hex_spec(t@.subrange(i + 2, t@.len() as int)) {
                        Some(rest) => {
                            assert(before + (seq![(h * 16 + l) as u8] + rest) == out@ + rest);
                        },
                        None => {},
                    }
                }
                i = i + 2;
            },
            _ => {
                return None;
            },
        }
    }
    assert(t@.subrange(i as int, t@.len() as int).len() == 0);
    Some(out)
}

proof fn lemma_parse_hex_odd(t: Seq<char>)
    requires
        t.len() % 2 == 1,
    ensures
        parse_hex_spec(t) is None,
    decreases t.len(),
{
    if t.len() > 1 {
        lemma_parse_hex_odd(t.subrange(2, t.len() as int));
    }
}

/// `@input` of Path 1 in an IN buffer (`82:62:00:33:XX`), first occurrence from `i` on.
pub open spec fn scan_input_from(buf: Seq<u8>, i: int) -> Option<u8>
    decreases buf.len() - i,
{
    if i < 0 || i + 5 > buf.len() {
        None
    } else if buf[i] == 0x82 && buf[i + 1] == 0x62 && buf[i + 2] == 0x00 && buf[i + 3] == 0x33 {
        Some(buf[i + 4])
    } else {
        scan_input_from(buf, i + 1)
    }
}

pub fn scan_path1_input_source_wire(buf: &[u8]) -> (r: Option<u8>)
    ensures
        r == scan_input_from(buf@, 0),
{
    if buf.len() < 5 {
        return None;
    }
    let n: usize = buf.len() - 4;
    let mut i: usize = 0;
    while i < n
        invariant
            n == buf.len() - 4,
            i <= n,
            scan_input_from(buf@, 0) == scan_input_from(buf@, i as int),
        decreases n - i,
    {
        if buf[i] == 0x82 && buf[i + 1] == 0x62 && buf[i + 2] == 0x00 && buf[i + 3] == 0x33 {
            return Some(buf[i + 4]);
        }
        i = i + 1;
    }
    None
}

/// Anchor of the hardware scroll of the Input source (`82:69:1b:6a:84:52…`).
pub open spec fn input_scroll_anchor() -> Seq<u8> {
    seq![0x82u8, 0x69, 0x1b, 0x6a, 0x84, 0x52, 0x00, 0x44, 0x07, 0x79, 0x17, 0x6a]
}

/// IN `21` (44 bytes) sent when the Input source is scrolled on the hardware.
pub open spec fn input_scroll_21_spec(data: Seq<u8>) -> bool {
    data.len() == 44 && data[0] == 0x21 && data[4] == 0xf0 && data[5] == 0x03 && data[6] == 0x02
        && data[7] == 0x10 && has_window(data, input_scroll_anchor()) && scan_input_from(data, 0) is Some
}

pub fn is_path1_input_scroll_notify_21(data: &[u8]) -> (r: bool)
    ensures
        r == input_scroll_21_spec(data@),
{
    if !(data.len() == 44 && data[0] == 0x21 && data[4] == 0xf0 && data[5] == 0x03 && data[6] == 0x02
        && data[7] == 0x10) {
        return false;
    }
    let anchor: [u8; 12] = [0x82, 0x69, 0x1b, 0x6a, 0x84, 0x52, 0x00, 0x44, 0x07, 0x79, 0x17, 0x6a];
    assert(anchor@ == input_scroll_anchor());
    contains_window(data, &anchor) && scan_path1_input_source_wire(data).is_some()
}

/// Model block of the Input block (`82:62:00` on bytes 8-10).
pub open spec fn input_model_block_spec(block: Seq<u8>) -> bool {
    block[8] == 0x82 && block[9] == 0x62 && block[10] == 0x00
}

fn is_path1_input_model_block(block: &[u8; 16]) -> (r: bool)
    ensures
        r == input_model_block_spec(block@),
{
    block[8] == 0x82 && block[9] == 0x62 && block[10] == 0x00
}

/// Focus of a structural slot (`82:62:bus:1a`).
pub open spec fn special_focus_packet(cnt: u8, session: u8, d_lo: u8, d_hi: u8, tag: u8, bus: u8) -> Seq<u8> {
    seq![
        0x1du8, 0x00, 0x00, 0x18, 0x80, 0x10, 0xed, 0x03, 0x00, cnt, 0x00, 0x04, session, d_lo, d_hi,
        0x00, 0x01, 0x00, 0x06, 0x00, 0x0d, 0x00, 0x00, 0x00, 0x83, 0x66, 0xcd, 0x03, tag, 0x64, 0x4e,
        0x65, 0x82, 0x62, bus, 0x1a, 0x00, 0x00, 0x00, 0x00,
    ]
}

/// Focus packet of a structural slot (Input/Output/Split/Merge): the double as it stands
/// on bytes 13-14, the next double low byte as tag.
pub fn build_special_slot_focus_packet(state: &mut HelixState, slot_bus: u8) -> (r: Vec<u8>)
    ensures
        ({
            let s = *old(state);
            let d = next_editor_double_spec(s.lanes.editor_ed03_double, s.lanes.editor_double_pin_hi, s.lanes.editor_double_skip_00);
            &&& r@ == special_focus_packet(
                s.counters.x80_cnt,
                s.counters.session_no,
                lo8(s.lanes.editor_ed03_double),
                hi8(s.lanes.editor_ed03_double),
                lo8(d),
                slot_bus,
            )
            &&& *final(state) == (HelixState {
                counters: Counters { x80_cnt: wadd8(s.counters.x80_cnt, 1), ..s.counters },
                lanes: EditorLanes { editor_ed03_double: d, ..s.lanes },
                ..s
            })
        }),
{
    let cnt = state.next_x80_cnt();
    let session = state.counters.session_no;
    let double = state.preset_data_packet_double();
    let ed_tag = state.next_editor_ed03_double()[0];
    vec![
        0x1d, 0x00, 0x00, 0x18, 0x80, 0x10, 0xed, 0x03, 0x00, cnt, 0x00, 0x04, session, double[0],
        double[1], 0x00, 0x01, 0x00, 0x06, 0x00, 0x0d, 0x00, 0x00, 0x00, 0x83, 0x66, 0xcd, 0x03,
        ed_tag, 0x64, 0x4e, 0x65, 0x82, 0x62, slot_bus, 0x1a, 0x00, 0x00, 0x00, 0x00,
    ]
}

/// `ed:03` ACK `08` after a `1d` write.
pub open spec fn post_1d_ack08_packet(seq: u8, ctr_lo: u8, ctr_hi: u8) -> Seq<u8> {
    seq![0x08u8, 0x00, 0x00, 0x18, 0x80, 0x10, 0xed, 0x03, 0x00, seq, 0x00, 0x08, ctr_lo, ctr_hi, 0x00, 0x00]
}

pub fn build_post_1d_ack08(state: &mut HelixState, ctr_lo: u8, ctr_hi: u8) -> (r: Vec<u8>)
    ensures
        r@ == post_1d_ack08_packet(old(state).counters.x80_cnt, ctr_lo, ctr_hi),
        *final(state) == (HelixState {
            counters: Counters { x80_cnt: wadd8(old(state).counters.x80_cnt, 1), ..old(state).counters },
            ..*old(state)
        }),
{
    let seq = state.next_x80_cnt();
    vec![0x08, 0x00, 0x00, 0x18, 0x80, 0x10, 0xed, 0x03, 0x00, seq, 0x00, 0x08, ctr_lo, ctr_hi, 0x00, 0x00]
}

/// `ed:08` sub=`10` preamble of a matrix drag.
pub open spec fn ed03_preamble_packet(seq: u8, session: u8, d_lo: u8, d_hi: u8) -> Seq<u8> {
    seq![0x08u8, 0x00, 0x00, 0x18, 0x80, 0x10, 0xed, 0x03, 0x00, seq, 0x00, 0x10, session, d_lo, d_hi, 0x00]
}

pub fn build_ed03_dd_preamble_sub10(state: &mut HelixState) -> (r: Vec<u8>)
    ensures
        r@ == ed03_preamble_packet(
            old(state).counters.x80_cnt,
            old(state).counters.session_no,
            lo8(old(state).lanes.editor_ed03_double),
            hi8(old(state).lanes.editor_ed03_double),
        ),
        *final(state) == (HelixState {
            counters: Counters { x80_cnt: wadd8(old(state).counters.x80_cnt, 1), ..old(state).counters },
            ..*old(state)
        }),
{
    let seq = state.next_x80_cnt();
    let session = state.counters.session_no;
    let double = state.preset_data_packet_double();
    vec![0x08, 0x00, 0x00, 0x18, 0x80, 0x10, 0xed, 0x03, 0x00, seq, 0x00, 0x10, session, double[0], double[1], 0x00]
}

/// `f0:03` frame of the matrix drag on the background scroll lane (`sub` = `10` / `08`).
pub open spec fn f0_dd_packet(seq: u8, sub: u8, d_lo: u8, d_hi: u8) -> Seq<u8> {
    seq![0x08u8, 0x00, 0x00, 0x18, 0x02, 0x10, 0xf0, 0x03, 0x00, seq, 0x00, sub, d_lo, d_hi, 0x00, 0x00]
}

fn build_f0_dd(state: &mut HelixState, sub: u8) -> (r: Vec<u8>)
    ensures
        r@ == f0_dd_packet(
            old(state).counters.x2_cnt,
            sub,
            lo8(old(state).scroll.firmware_scroll_ack_ctr),
            hi8(old(state).scroll.firmware_scroll_ack_ctr),
        ),
        *final(state) == (HelixState {
            counters: Counters { x2_cnt: wadd8(old(state).counters.x2_cnt, 1), ..old(state).counters },
            ..*old(state)
        }),
{
    let seq = state.next_x2_cnt();
    let double = state.firmware_scroll_lane_double();
    vec![0x08, 0x00, 0x00, 0x18, 0x02, 0x10, 0xf0, 0x03, 0x00, seq, 0x00, sub, double[0], double[1], 0x00, 0x00]
}

/// `f0:03` sub=`10` preamble of a matrix drag.
pub fn build_f0_dd_preamble_sub10(state: &mut HelixState) -> (r: Vec<u8>)
    ensures
        r@ == f0_dd_packet(
            old(state).counters.x2_cnt,
            0x10,
            lo8(old(state).scroll.firmware_scroll_ack_ctr),
            hi8(old(state).scroll.firmware_scroll_ack_ctr),
        ),
        *final(state) == (HelixState {
            counters: Counters { x2_cnt: wadd8(old(state).counters.x2_cnt, 1), ..old(state).counters },
            ..*old(state)
        }),
{
    build_f0_dd(state, 0x10)
}

/// `f0:03` sub=`08` after the `ed:08` ACK of a matrix commit.
pub fn build_f0_dd_post_commit_sub08(state: &mut HelixState) -> (r: Vec<u8>)
    ensures
        r@ == f0_dd_packet(
            old(state).counters.x2_cnt,
            0x08,
            lo8(old(state).scroll.firmware_scroll_ack_ctr),
            hi8(old(state).scroll.firmware_scroll_ack_ctr),
        ),
        *final(state) == (HelixState {
            counters: Counters { x2_cnt: wadd8(old(state).counters.x2_cnt, 1), ..old(state).counters },
            ..*old(state)
        }),
{
    build_f0_dd(state, 0x08)
}

/// Arms the matrix drag at pointer-down: `ed` then `f0` preambles (`sub=10`, the second 30 ms later).
pub fn send_matrix_dd_drag_arm(state: &mut HelixState) -> (r: Result<(), String>)
    ensures
        r is Ok,
        final(state).outbox@.len() == old(state).outbox@.len() + 2,
        final(state).outbox@.subrange(0, old(state).outbox@.len() as int) == old(state).outbox@,
        final(state).outbox@[old(state).outbox@.len() as int].data@ == ed03_preamble_packet(
            old(state).counters.x80_cnt,
            old(state).counters.session_no,
            lo8(old(state).lanes.editor_ed03_double),
            hi8(old(state).lanes.editor_ed03_double),
        ),
        final(state).outbox@[old(state).outbox@.len() as int + 1].data@ == f0_dd_packet(
            old(state).counters.x2_cnt,
            0x10,
            lo8(old(state).scroll.firmware_scroll_ack_ctr),
            hi8(old(state).scroll.firmware_scroll_ack_ctr),
        ),
        final(state).outbox@[old(state).outbox@.len() as int + 1].delay_ms == 30,
        *final(state) == (HelixState {
            counters: Counters {
                x80_cnt: wadd8(old(state).counters.x80_cnt, 1),
                x2_cnt: wadd8(old(state).counters.x2_cnt, 1),
                ..old(state).counters
            },
            outbox: final(state).outbox,
            ..*old(state)
        }),
{
    let pre_ed = build_ed03_dd_preamble_sub10(state);
    let pre_f0 = build_f0_dd_preamble_sub10(state);
    state.send(OutPacket::new(pre_ed));
    state.send(OutPacket::with_delay(pre_f0, 30));
    Ok(())
}

/// Message of a commit frame that is not a 40-byte `1d`.
pub open spec fn commit_frame_message(len: nat) -> Seq<char> {
    "send_matrix_dd_1d_commit_only: attendu 1d 40o, reçu "@ + decimal_of(len) + "o"@
}

/// Commit at pointer-up: the `1d`, then the `ed` ACK (`lo + 0x11`, 50 ms), then the `f0` ACK
/// (15 ms). Anything but a 40-byte `1d` is refused with no change.
pub fn send_matrix_dd_1d_commit_only(state: &mut HelixState, pkt: Vec<u8>) -> (r: Result<(), String>)
    ensures
        !(pkt@.len() == 40 && pkt@[0] == 0x1d) ==> *final(state) == *old(state) && (r matches Err(e)
            && e@ == commit_frame_message(pkt@.len())),
        pkt@.len() == 40 && pkt@[0] == 0x1d ==> {
            let n = old(state).outbox@.len() as int;
            &&& r is Ok
            &&& final(state).outbox@.len() == n + 3
            &&& final(state).outbox@.subrange(0, n) == old(state).outbox@
            &&& final(state).outbox@[n].data@ == pkt@
            &&& final(state).outbox@[n + 1].data@ == post_1d_ack08_packet(
                old(state).counters.x80_cnt,
                wadd8(pkt@[12], 0x11),
                pkt@[13],
            )
            &&& final(state).outbox@[n + 1].delay_ms == 50
            &&& final(state).outbox@[n + 2].data@ == f0_dd_packet(
                old(state).counters.x2_cnt,
                0x08,
                lo8(old(state).scroll.firmware_scroll_ack_ctr),
                hi8(old(state).scroll.firmware_scroll_ack_ctr),
            )
            &&& final(state).outbox@[n + 2].delay_ms == 15
            &&& *final(state) == (HelixState {
                counters: Counters {
                    x80_cnt: wadd8(old(state).counters.x80_cnt, 1),
                    x2_cnt: wadd8(old(state).counters.x2_cnt, 1),
                    ..old(state).counters
                },
                outbox: final(state).outbox,
                ..*old(state)
            })
        },
{
    if pkt.len() != 40 || pkt[0] != 0x1d {
        let mut e = String::new();
        string_push_str(&mut e, "send_matrix_dd_1d_commit_only: attendu 1d 40o, reçu ");
        push_decimal(&mut e, pkt.len() as u64);
        string_push_str(&mut e, "o");
        return Err(e);
    }
    let ack_lo = pkt[12].wrapping_add(0x11);
    let ack_hi = pkt[13];
    let post_ed = build_post_1d_ack08(state, ack_lo, ack_hi);
    let post_f0 = build_f0_dd_post_commit_sub08(state);
    state.send(OutPacket::new(pkt));
    state.send(OutPacket::with_delay(post_ed, 50));
    state.send(OutPacket::with_delay(post_f0, 15));
    Ok(())
}

/// Arm then commit in one go.
pub fn send_matrix_dd_1d_preamble_commit(state: &mut HelixState, pkt: Vec<u8>) -> (r: Result<(), String>)
    ensures
        !(pkt@.len() == 40 && pkt@[0] == 0x1d) ==> (r matches Err(e) && e@ == commit_frame_message(pkt@.len()))
            && final(state).outbox@.len() == old(state).outbox@.len() + 2,
        pkt@.len() == 40 && pkt@[0] == 0x1d ==> r is Ok && final(state).outbox@.len() == old(state).outbox@.len() + 5
            && final(state).outbox@[old(state).outbox@.len() + 2int].data@ == pkt@,
{
    match send_matrix_dd_drag_arm(state) {
        Err(e) => return Err(e),
        Ok(()) => {},
    }
    send_matrix_dd_1d_commit_only(state, pkt)
}

/// Message of a template that is not 40 bytes long.
pub open spec fn template_len_message(len: nat) -> Seq<char> {
    "liveWriteHex attendu 40 octets (opcode 1d), reçu "@ + decimal_of(len)
}

/// Input source frame: the template with the x80 counter (byte 9), the live write counter
/// (bytes 12-13), the model block (bytes 24-39: the last ED03 echo when it is an Input
/// block, else the template block with the live `yy`), the `@input` value on bytes 36 (and
/// 12 of the block), the live `yy` on byte 28.
pub open spec fn input_source_frame(template: Seq<u8>, x80: u8, ctr: u16, yy: u8, echo: Option<[u8; 16]>, wire: u8) -> Seq<u8> {
    let model: Seq<u8> = match echo {
        Some(e) => if input_model_block_spec(e@) {
            e@
        } else {
            template.subrange(24, 40).update(4, yy)
        },
        None => template.subrange(24, 40).update(4, yy),
    };
    let model2 = model.update(12, wire);
    (template.subrange(0, 24) + model2).update(9, x80).update(12, lo8(ctr)).update(13, hi8(ctr)).update(36, wire).update(28, yy)
}

/// The Input source frame keeps the template's header and, in its model block (bytes 24-39),
/// takes the last echoed block only when that block is the Input block (`82 62 00` at its
/// bytes 8-10); for any other echo, or none, the block is the template's. Either way byte 28
/// is the live tag, byte 36 the `@input` value, byte 9 the x80 counter and bytes 12-13 the
/// live write counter.
pub proof fn law_input_frame_only_takes_input_echo(template: Seq<u8>, x80: u8, ctr: u16, yy: u8, echo: Option<[u8; 16]>, wire: u8)
    requires
        template.len() == 40,
    ensures
        ({
            let f = input_source_frame(template, x80, ctr, yy, echo, wire);
            let input_echo = echo matches Some(e) && e@[8] == 0x82 && e@[9] == 0x62 && e@[10] == 0x00;
            &&& f.len() == 40
            &&& forall|i: int| 0 <= i < 24 && i != 9 && i != 12 && i != 13 ==> #[trigger] f[i] == template[i]
            &&& f[9] == x80 && f[12] == lo8(ctr) && f[13] == hi8(ctr)
            &&& f[28] == yy && f[36] == wire
            &&& input_echo ==> forall|i: int| 24 <= i < 40 && i != 28 && i != 36 ==> #[trigger] f[i] == echo->0@[i - 24]
            &&& !input_echo ==> forall|i: int| 24 <= i < 40 && i != 28 && i != 36 ==> #[trigger] f[i] == template[i]
            &&& input_echo ==> f[32] == 0x82 && f[33] == 0x62 && f[34] == 0x00
            &&& !input_echo ==> f[34] == template[34]
        }),
{
    match echo {
        Some(e) => { assert(e@.len() == 16); },
        None => {},
    }
}

/// Builds the Input source `1d`; refuses a template that is not a 40-byte `1d`.
pub fn build_path1_input_source_packet(state: &mut HelixState, template: &[u8], wire_value: u8) -> (r: Result<Vec<u8>, String>)
    ensures
        template@.len() != 40 ==> *final(state) == *old(state) && (r matches Err(e) && e@ == template_len_message(template@.len())),
        template@.len() == 40 && template@[0] != 0x1d ==> *final(state) == *old(state) && (r matches Err(e)
            && e@ == "liveWriteHex : premier octet doit être 0x1d"@),
        template@.len() == 40 && template@[0] == 0x1d ==> {
            let s = *old(state);
            &&& r matches Ok(p) && p@ == input_source_frame(
                template@,
                s.counters.x80_cnt,
                s.counters.live_write_ctr,
                s.counters.live_write_yy,
                s.cab.last_ed03_echo_model,
                wire_value,
            )
            &&& *final(state) == (HelixState {
                counters: Counters {
                    x80_cnt: wadd8(s.counters.x80_cnt, 1),
                    live_write_ctr: wadd16(s.counters.live_write_ctr, 0x11),
                    live_write_yy: wadd8(s.counters.live_write_yy, 1),
                    ..s.counters
                },
                ..s
            })
        },
{
    if template.len() != 40 {
        let mut e = String::new();
        string_push_str(&mut e, "liveWriteHex attendu 40 octets (opcode 1d), reçu ");
        push_decimal(&mut e, template.len() as u64);
        return Err(e);
    }
    if template[0] != 0x1d {
        return Err(text_of("liveWriteHex : premier octet doit être 0x1d"));
    }
    let ghost s = *state;
    let yy = state.counters.live_write_yy;
    let ctr = state.counters.live_write_ctr;
    let seq = state.next_x80_cnt();
    let mut model: Vec<u8> = Vec::new();
    let use_echo = match &state.cab.last_ed03_echo_model {
        Some(echo) => is_path1_input_model_block(echo),
        None => false,
    };
    if use_echo {
        let echo = state.cab.last_ed03_echo_model.unwrap();
        let mut k: usize = 0;
        while k < 16
            invariant
                k <= 16,
                model@ == echo@.subrange(0, k as int),
            decreases 16 - k,
        {
            model.push(echo[k]);
            assert(echo@.subrange(0, k + 1) == echo@.subrange(0, k as int).push(echo@[k as int]));
            k = k + 1;
        }
        assert(echo@.subrange(0, 16) == echo@);
    } else {
        model = crate::pull_frames::slice_range(template, 24, 40);
        model.set(4, yy);
    }
    model.set(12, wire_value);
    let mut pkt = crate::pull_frames::slice_range(template, 0, 24);
    let mut k: usize = 0;
    while k < 16
        invariant
            k <= 16,
            model@.len() == 16,
            pkt@ == template@.subrange(0, 24) + model@.subrange(0, k as int),
        decreases 16 - k,
    {
        pkt.push(model[k]);
        assert(model@.subrange(0, k + 1) == model@.subrange(0, k as int).push(model@[k as int]));
        k = k + 1;
    }
    assert(model@.subrange(0, 16) == model@);
    pkt.set(9, seq);
    pkt.set(12, lo_byte(ctr));
    pkt.set(13, hi_byte(ctr));
    pkt.set(PATH1_INPUT_WIRE_VALUE_OFFSET, wire_value);
    pkt.set(PATH1_IO_MODEL_YY_OFFSET, yy);
    assert(pkt@ =~= input_source_frame(template@, s.counters.x80_cnt, ctr, yy, s.cab.last_ed03_echo_model, wire_value));
    state.counters.live_write_ctr = ctr.wrapping_add(0x11);
    state.counters.live_write_yy = yy.wrapping_add(1);
    Ok(pkt)
}

/// Sends the Input source `entry`: a focus on the Input bus first when it is not the active
/// slot, then the `1d` and its `ed` ACK (8 ms later); the Input wire value is remembered.
pub fn send_path1_input_source(state: &mut HelixState, entry: &IoSourceEntry) -> (r: Result<(), String>)
    ensures
        !(entry.template@.len() == 40 && entry.template@[0] == 0x1d) ==> r is Err,
        entry.template@.len() == 40 && entry.template@[0] == 0x1d ==> {
            let focused = old(state).slot.hw_active_slot_bus != Some(0u8);
            let n = old(state).outbox@.len() as int;
            &&& r is Ok
            &&& final(state).outbox@.len() == n + if focused { 3int } else { 2int }
            &&& final(state).outbox@.subrange(0, n) == old(state).outbox@
            &&& final(state).slot.hw_active_slot_bus == Some(0u8)
            &&& focused ==> final(state).slot.hw_active_slot_index is None
            &&& final(state).slot.path1_input_source_wire == Some(entry.wire_value)
            &&& final(state).outbox@[final(state).outbox@.len() - 2].data@[36] == entry.wire_value
        },
{
    if entry.template.len() != 40 || entry.template[0] != 0x1d {
        return build_path1_input_source_packet(state, entry.template.as_slice(), entry.wire_value).map(|_p: Vec<u8>| ());
    }
    if state.slot.hw_active_slot_bus != Some(0u8) {
        let focus = build_special_slot_focus_packet(state, 0x00);
        state.send(OutPacket::new(focus));
        state.slot.hw_active_slot_bus = Some(0u8);
        state.slot.hw_active_slot_index = None;
    }
    let pkt = match build_path1_input_source_packet(state, entry.template.as_slice(), entry.wire_value) {
        Ok(p) => p,
        Err(e) => return Err(e),
    };
    let ctr_lo = pkt[12];
    let ctr_hi = pkt[13];
    let post = build_post_1d_ack08(state, ctr_lo, ctr_hi);
    state.send(OutPacket::new(pkt));
    state.send(OutPacket::with_delay(post, 8));
    state.slot.path1_input_source_wire = Some(entry.wire_value);
    Ok(())
}

} // verus!
