//! Live writes of the Command Center assignment fields (Controllers tab).
//!
//! Creating an assignment on a real parameter is a trio of packets (terms `0x25`, `0x24`,
//! `0x21`) that carries both the parameter selector and the chosen footswitch; a Bypass
//! assignment is a Source packet (term `0x38`) followed by its Confirm (term `0x21`).
//! Type, colour and name packets carry no bus: the device applies them to the switch of the
//! last Source or creation packet.
use vstd::prelude::*;
use crate::bytes::{lo8, hi8, lo_byte, hi_byte, wadd8, wadd16, lemma_wadd16_twice, lemma_wadd8_twice};
use crate::state::{Counters, HelixState};
use vstd::string::StringSliceAdditionalSpecFns;

verus! {

/// The `term=0x25` creation packet (binds bus + parameter, field `4a` = footswitch + 2).
pub open spec fn create_real_param_spec(
    seq: u8,
    ctr: u16,
    yy: u8,
    slot_bus: u8,
    param_selector: u8,
    source_value: u8,
    tail47: u8,
) -> Seq<u8> {
    seq![
        0x28u8, 0x00, 0x00, 0x18, 0x80, 0x10, 0xed, 0x03, 0x00, seq, 0x00, 0x04,
        lo8(ctr), hi8(ctr), 0x00, 0x00,
        0x01, 0x00, 0x06, 0x00, 0x18, 0x00, 0x00, 0x00,
        0x83, 0x66, 0xcd, 0x04, yy, 0x64, 0x25, 0x65,
        0x87, 0x62, slot_bus, 0x1d, 0xc3, 0x1a, 0x00, 0x1c, param_selector,
        0x4a, source_value, 0x47, tail47, 0xcc, 0x81, 0xc2,
    ]
}

/// The `term=0x24` link packet (same bus and parameter, no source).
pub open spec fn link_real_param_spec(seq: u8, ctr: u16, yy: u8, slot_bus: u8, param_selector: u8) -> Seq<u8> {
    seq![
        0x21u8, 0x00, 0x00, 0x18, 0x80, 0x10, 0xed, 0x03, 0x00, seq, 0x00, 0x0c,
        lo8(ctr), hi8(ctr), 0x00, 0x00,
        0x01, 0x00, 0x06, 0x00, 0x11, 0x00, 0x00, 0x00,
        0x83, 0x66, 0xcd, 0x04, yy, 0x64, 0x24, 0x65,
        0x84, 0x62, slot_bus, 0x1d, 0xc3, 0x1a, 0x00, 0x1c, param_selector,
        0x00, 0x00, 0x00,
    ]
}

/// The `term=0x21` Confirm packet (payload `81:66:<N>:00`, `N` = raw footswitch number).
pub open spec fn confirm_spec(seq: u8, ctr: u16, pp: u8, yy: u8, footswitch_number: u8) -> Seq<u8> {
    seq![
        0x1bu8, 0x00, 0x00, 0x18, 0x80, 0x10, 0xed, 0x03, 0x00, seq, 0x00, 0x0c,
        lo8(ctr), hi8(ctr), 0x00, 0x00,
        0x01, 0x00, 0x06, 0x00, 0x0b, 0x00, 0x00, 0x00,
        0x83, 0x66, 0xcd, pp, yy, 0x64, 0x21, 0x65,
        0x81, 0x66, footswitch_number, 0x00,
    ]
}

/// Compact Footswitch Source packet (term `0x38`, or `0x39` = clear, with its own `sub`/`pp`).
pub open spec fn source_packet_spec(
    seq: u8,
    sub: u8,
    ctr: u16,
    pp: u8,
    yy: u8,
    term: u8,
    slot_bus: u8,
    fs_index: u8,
) -> Seq<u8> {
    seq![
        0x1du8, 0x00, 0x00, 0x18, 0x80, 0x10, 0xed, 0x03, 0x00, seq, 0x00, sub,
        lo8(ctr), hi8(ctr), 0x00, 0x00,
        0x01, 0x00, 0x06, 0x00, 0x0d, 0x00, 0x00, 0x00,
        0x83, 0x66, 0xcd, pp, yy, 0x64, term, 0x65,
        0x82, 0x62, slot_bus, 0x66, fs_index, 0x00, 0x00, 0x00,
    ]
}

/// Single-byte field packet `82:66:00:<field_id>:<value>` (Type, Colour).
pub open spec fn single_field_spec(seq: u8, ctr: u16, yy: u8, term: u8, field_id: u8, value: u8) -> Seq<u8> {
    seq![
        0x1du8, 0x00, 0x00, 0x18, 0x80, 0x10, 0xed, 0x03, 0x00, seq, 0x00, 0x04,
        lo8(ctr), hi8(ctr), 0x00, 0x00,
        0x01, 0x00, 0x06, 0x00, 0x0d, 0x00, 0x00, 0x00,
        0x83, 0x66, 0xcd, 0x03, yy, 0x64, term, 0x65,
        0x82, 0x66, 0x00, field_id, value, 0x00, 0x00, 0x00,
    ]
}

/// One footswitch number, 0-based (saturating at 0).
pub open spec fn fs_index_spec(footswitch_number: u8) -> u8 {
    if footswitch_number == 0 { 0 } else { (footswitch_number - 1) as u8 }
}

/// Bytes of a creation packet (`term=0x25`).
fn create_packet(
    seq: u8,
    ctr: u16,
    yy: u8,
    slot_bus: u8,
    param_selector: u8,
    source_value: u8,
    tail47: u8,
) -> (r: Vec<u8>)
    ensures
        r@ == create_real_param_spec(seq, ctr, yy, slot_bus, param_selector, source_value, tail47),
{
    vec![
        0x28, 0x00, 0x00, 0x18, 0x80, 0x10, 0xed, 0x03,
        0x00, seq, 0x00, 0x04,
        lo_byte(ctr), hi_byte(ctr),
        0x00, 0x00,
        0x01, 0x00, 0x06, 0x00, 0x18, 0x00, 0x00, 0x00,
        0x83, 0x66, 0xcd, 0x04, yy, 0x64, 0x25, 0x65,
        0x87, 0x62, slot_bus, 0x1d, 0xc3, 0x1a, 0x00, 0x1c, param_selector,
        0x4a, source_value, 0x47, tail47, 0xcc, 0x81, 0xc2,
    ]
}

/// Bytes of a link packet (`term=0x24`).
fn link_packet(seq: u8, ctr: u16, yy: u8, slot_bus: u8, param_selector: u8) -> (r: Vec<u8>)
    ensures
        r@ == link_real_param_spec(seq, ctr, yy, slot_bus, param_selector),
{
    vec![
        0x21, 0x00, 0x00, 0x18, 0x80, 0x10, 0xed, 0x03,
        0x00, seq, 0x00, 0x0c,
        lo_byte(ctr), hi_byte(ctr),
        0x00, 0x00,
        0x01, 0x00, 0x06, 0x00, 0x11, 0x00, 0x00, 0x00,
        0x83, 0x66, 0xcd, 0x04, yy, 0x64, 0x24, 0x65,
        0x84, 0x62, slot_bus, 0x1d, 0xc3, 0x1a, 0x00, 0x1c, param_selector,
        0x00, 0x00, 0x00,
    ]
}

/// Bytes of a Confirm packet (`term=0x21`).
fn confirm_packet(seq: u8, ctr: u16, pp: u8, yy: u8, footswitch_number: u8) -> (r: Vec<u8>)
    ensures
        r@ == confirm_spec(seq, ctr, pp, yy, footswitch_number),
{
    vec![
        0x1b, 0x00, 0x00, 0x18, 0x80, 0x10, 0xed, 0x03,
        0x00, seq, 0x00, 0x0c,
        lo_byte(ctr), hi_byte(ctr),
        0x00, 0x00,
        0x01, 0x00, 0x06, 0x00, 0x0b, 0x00, 0x00, 0x00,
        0x83, 0x66, 0xcd, pp, yy, 0x64, 0x21, 0x65,
        0x81, 0x66, footswitch_number, 0x00,
    ]
}

/// Builds the trio that links a switch to a real catalogue parameter and assigns it a
/// footswitch: creation (`ctr`, `yy`), link (`ctr + 0x31`, `yy + 1`) and Confirm
/// (`ctr + 0x62`, `yy + 2`); the shared counters then stand at `ctr + 0xa6`, `yy + 3`.
#[verifier::rlimit(60)]
pub fn build_controller_create_real_param_write_packets(
    state: &mut HelixState,
    slot_bus: u8,
    param_selector: u8,
    footswitch_number: u8,
) -> (r: (Vec<u8>, Vec<u8>, Vec<u8>))
    requires
        footswitch_number <= 253,
    ensures
        ({
            let c = old(state).counters;
            let ctr = c.live_write_ctr;
            let yy = c.live_write_yy;
            &&& r.0@ == create_real_param_spec(
                c.x80_cnt,
                ctr,
                yy,
                slot_bus,
                param_selector,
                (footswitch_number + 2) as u8,
                0x04,
            )
            &&& r.1@ == link_real_param_spec(
                wadd8(c.x80_cnt, 1),
                wadd16(ctr, 0x31),
                wadd8(yy, 1),
                slot_bus,
                param_selector,
            )
            &&& r.2@ == confirm_spec(
                wadd8(c.x80_cnt, 2),
                wadd16(ctr, 0x62),
                0x04,
                wadd8(yy, 2),
                footswitch_number,
            )
            &&& *final(state) == (HelixState {
                counters: Counters {
                    x80_cnt: wadd8(c.x80_cnt, 3),
                    live_write_ctr: wadd16(ctr, 0xa6),
                    live_write_yy: wadd8(yy, 3),
                    ..c
                },
                ..*old(state)
            })
        }),
{
    let source_value = footswitch_number + 2;
    let create_seq = state.next_x80_cnt();
    let create_ctr = state.counters.live_write_ctr;
    let create_yy = state.counters.live_write_yy;
    let create = create_packet(
        create_seq,
        create_ctr,
        create_yy,
        slot_bus,
        param_selector,
        source_value,
        0x04,
    );
    let link_seq = state.next_x80_cnt();
    let link_ctr = create_ctr.wrapping_add(0x31);
    let link_yy = create_yy.wrapping_add(1);
    let link = link_packet(link_seq, link_ctr, link_yy, slot_bus, param_selector);
    let confirm_seq = state.next_x80_cnt();
    let confirm_ctr = link_ctr.wrapping_add(0x31);
    let confirm_yy = link_yy.wrapping_add(1);
    let confirm = confirm_packet(confirm_seq, confirm_ctr, 0x04, confirm_yy, footswitch_number);
    state.counters.live_write_ctr = confirm_ctr.wrapping_add(0x44);
    state.counters.live_write_yy = confirm_yy.wrapping_add(1);
    proof {
        lemma_wadd16_twice(create_ctr, 0x31, 0x31);
        lemma_wadd16_twice(create_ctr, 0x62, 0x44);
        lemma_wadd8_twice(create_yy, 1, 1);
        lemma_wadd8_twice(create_yy, 2, 1);
        lemma_wadd8_twice(create_seq, 1, 1);
        lemma_wadd8_twice(create_seq, 2, 1);
    }
    (create, link, confirm)
}

/// Compact Footswitch Source packet bytes, with no change to the shared state.
fn source_footswitch_packet_bytes(
    seq: u8,
    ctr: u16,
    yy: u8,
    slot_bus: u8,
    footswitch_number: u8,
) -> (r: Vec<u8>)
    ensures
        r@ == source_packet_spec(seq, 0x04, ctr, 0x03, yy, 0x38, slot_bus, fs_index_spec(footswitch_number)),
{
    let pp: u8 = 0x03;
    let term: u8 = 0x38;
    let fs_index_0based = footswitch_number.saturating_sub(1);
    vec![
        0x1d, 0x00, 0x00, 0x18, 0x80, 0x10, 0xed, 0x03,
        0x00, seq, 0x00, 0x04,
        lo_byte(ctr), hi_byte(ctr),
        0x00, 0x00,
        0x01, 0x00, 0x06, 0x00, 0x0d, 0x00, 0x00, 0x00,
        0x83, 0x66, 0xcd, pp, yy, 0x64, term, 0x65,
        0x82, 0x62, slot_bus, 0x66, fs_index_0based, 0x00, 0x00, 0x00,
    ]
}

/// Builds the Source + Confirm pair of a Footswitch source: Confirm takes `ctr + 0x11` and
/// the 16-bit `cd:pp:yy` field of the Source plus one; the shared counters then stand at
/// `ctr + 0x55` and `yy` of the Confirm plus one.
pub fn build_controller_source_and_confirm_write_packets(
    state: &mut HelixState,
    slot_bus: u8,
    footswitch_number: u8,
) -> (r: (Vec<u8>, Vec<u8>))
    ensures
        ({
            let c = old(state).counters;
            let ctr = c.live_write_ctr;
            let yy = c.live_write_yy;
            let confirm_cd = 0x0300 + yy + 1;
            let confirm_pp = (confirm_cd / 256) as u8;
            let confirm_yy = (confirm_cd % 256) as u8;
            &&& r.0@ == source_packet_spec(
                c.x80_cnt,
                0x04,
                ctr,
                0x03,
                yy,
                0x38,
                slot_bus,
                fs_index_spec(footswitch_number),
            )
            &&& r.1@ == confirm_spec(
                wadd8(c.x80_cnt, 1),
                wadd16(ctr, 0x11),
                confirm_pp,
                confirm_yy,
                footswitch_number,
            )
            &&& *final(state) == (HelixState {
                counters: Counters {
                    x80_cnt: wadd8(c.x80_cnt, 2),
                    live_write_ctr: wadd16(ctr, 0x55),
                    live_write_yy: wadd8(confirm_yy, 1),
                    ..c
                },
                ..*old(state)
            })
        }),
{
    let source_seq = state.next_x80_cnt();
    let source_ctr = state.counters.live_write_ctr;
    let source_yy = state.counters.live_write_yy;
    let source_packet = source_footswitch_packet_bytes(
        source_seq,
        source_ctr,
        source_yy,
        slot_bus,
        footswitch_number,
    );

    let confirm_seq = state.next_x80_cnt();
    let confirm_ctr = source_ctr.wrapping_add(0x11);
    let source_cd: u16 = 0x0300 + source_yy as u16;
    let confirm_cd = source_cd + 1;
    let confirm_pp = hi_byte(confirm_cd);
    let confirm_yy = lo_byte(confirm_cd);

    let confirm = confirm_packet(confirm_seq, confirm_ctr, confirm_pp, confirm_yy, footswitch_number);

    state.counters.live_write_ctr = confirm_ctr.wrapping_add(0x44);
    state.counters.live_write_yy = confirm_yy.wrapping_add(1);
    proof {
        lemma_wadd16_twice(source_ctr, 0x11, 0x44);
        lemma_wadd8_twice(source_seq, 1, 1);
    }
    (source_packet, confirm)
}

/// Generic single-byte field write; shared counters `ctr + 0x11`, `yy + 1`.
fn build_controller_single_byte_field_write_packet(
    state: &mut HelixState,
    field_id: u8,
    term: u8,
    value: u8,
) -> (r: Vec<u8>)
    ensures
        ({
            let c = old(state).counters;
            &&& r@ == single_field_spec(c.x80_cnt, c.live_write_ctr, c.live_write_yy, term, field_id, value)
            &&& *final(state) == (HelixState {
                counters: Counters {
                    x80_cnt: wadd8(c.x80_cnt, 1),
                    live_write_ctr: wadd16(c.live_write_ctr, 0x11),
                    live_write_yy: wadd8(c.live_write_yy, 1),
                    ..c
                },
                ..*old(state)
            })
        }),
{
    let seq = state.next_x80_cnt();
    let ctr = state.counters.live_write_ctr;
    let yy = state.counters.live_write_yy;
    let packet = vec![
        0x1d, 0x00, 0x00, 0x18, 0x80, 0x10, 0xed, 0x03,
        0x00, seq, 0x00, 0x04,
        lo_byte(ctr), hi_byte(ctr),
        0x00, 0x00,
        0x01, 0x00, 0x06, 0x00, 0x0d, 0x00, 0x00, 0x00,
        0x83, 0x66, 0xcd, 0x03, yy, 0x64, term, 0x65,
        0x82, 0x66, 0x00, field_id, value, 0x00, 0x00, 0x00,
    ];
    state.counters.live_write_ctr = state.counters.live_write_ctr.wrapping_add(0x11);
    state.counters.live_write_yy = state.counters.live_write_yy.wrapping_add(1);
    packet
}

/// Type write (Latching `c2` / Momentary `c3`) of the switch in context: field `0x41`, term `0x3a`.
pub fn build_controller_type_write_packet(state: &mut HelixState, momentary: bool) -> (r: Vec<u8>)
    ensures
        ({
            let c = old(state).counters;
            &&& r@ == single_field_spec(
                c.x80_cnt,
                c.live_write_ctr,
                c.live_write_yy,
                0x3a,
                0x41,
                if momentary { 0xc3u8 } else { 0xc2u8 },
            )
            &&& *final(state) == (HelixState {
                counters: Counters {
                    x80_cnt: wadd8(c.x80_cnt, 1),
                    live_write_ctr: wadd16(c.live_write_ctr, 0x11),
                    live_write_yy: wadd8(c.live_write_yy, 1),
                    ..c
                },
                ..*old(state)
            })
        }),
{
    let value = if momentary { 0xc3 } else { 0xc2 };
    build_controller_single_byte_field_write_packet(state, 0x41, 0x3a, value)
}

/// LED colour write (0-based index) of the switch in context: field `0x42`, term `0x3d`.
pub fn build_controller_color_write_packet(state: &mut HelixState, color_index: u8) -> (r: Vec<u8>)
    ensures
        ({
            let c = old(state).counters;
            &&& r@ == single_field_spec(c.x80_cnt, c.live_write_ctr, c.live_write_yy, 0x3d, 0x42, color_index)
            &&& *final(state) == (HelixState {
                counters: Counters {
                    x80_cnt: wadd8(c.x80_cnt, 1),
                    live_write_ctr: wadd16(c.live_write_ctr, 0x11),
                    live_write_yy: wadd8(c.live_write_yy, 1),
                    ..c
                },
                ..*old(state)
            })
        }),
{
    build_controller_single_byte_field_write_packet(state, 0x42, 0x3d, color_index)
}

/// Largest char boundary of `bytes` at or below `end`.
pub open spec fn boundary_at_or_below(bytes: Seq<u8>, end: int) -> int
    decreases end,
{
    if end <= 0 {
        0
    } else if vstd::utf8::is_char_boundary(bytes, end) {
        end
    } else {
        boundary_at_or_below(bytes, end - 1)
    }
}

/// Length of the name kept by a name write: at most 30 bytes, cut on a char boundary.
pub open spec fn truncated_name_len(bytes: Seq<u8>) -> int {
    boundary_at_or_below(bytes, if bytes.len() < 30 { bytes.len() as int } else { 30 })
}

pub proof fn lemma_boundary_bounds(bytes: Seq<u8>, end: int)
    ensures
        end >= 0 ==> 0 <= boundary_at_or_below(bytes, end) <= end,
    decreases end,
{
    if end > 0 {
        lemma_boundary_bounds(bytes, end - 1);
    }
}

/// Bytes that are all ASCII.
pub open spec fn all_ascii(bytes: Seq<u8>) -> bool {
    forall|k: int| 0 <= k < bytes.len() ==> #[trigger] bytes[k] < 0x80
}

/// ASCII bytes are valid UTF-8 and every position up to their end is a char boundary.
pub proof fn lemma_ascii_boundaries(bytes: Seq<u8>, i: int)
    requires
        all_ascii(bytes),
        0 <= i <= bytes.len(),
    ensures
        vstd::utf8::valid_utf8(bytes),
        vstd::utf8::is_char_boundary(bytes, i),
    decreases bytes.len(),
{
    if bytes.len() > 0 {
        let b0 = bytes[0];
        assert(b0 < 0x80);
        assert(((b0 & 0x7F) as u32) <= 0x7f) by (bit_vector);
        let t = bytes.subrange(1, bytes.len() as int);
        assert(all_ascii(t)) by {
            assert forall|k: int| 0 <= k < t.len() implies #[trigger] t[k] < 0x80 by {
                assert(t[k] == bytes[k + 1]);
            }
        }
        assert(vstd::utf8::pop_first_scalar(bytes) == t);
        lemma_ascii_boundaries(t, if i > 0 { i - 1 } else { 0 });
    }
}

/// For an ASCII name, a name write keeps `min(len, 30)` bytes of it.
pub proof fn law_ascii_name_kept_up_to_30(bytes: Seq<u8>)
    requires
        all_ascii(bytes),
    ensures
        truncated_name_len(bytes) == if bytes.len() < 30 { bytes.len() as int } else { 30 },
{
    let end: int = if bytes.len() < 30 { bytes.len() as int } else { 30 };
    lemma_ascii_boundaries(bytes, end);
}

/// Name write packet of the custom name (term `0x3b`, field `0x6d`, fixstr `<name>\0`),
/// followed by two padding bytes; shared counters `ctr + 0x11`, `yy + 1`.
pub open spec fn name_packet_spec(seq: u8, ctr: u16, yy: u8, name: Seq<u8>) -> Seq<u8> {
    let fixstr_len = name.len() + 1;
    let payload_len = 8 + 4 + 1 + fixstr_len;
    seq![
        (payload_len + 16) as u8, 0x00, 0x00, 0x18, 0x80, 0x10, 0xed, 0x03, 0x00, seq, 0x00, 0x04,
        lo8(ctr), hi8(ctr), 0x00, 0x00,
        0x01, 0x00, 0x06, 0x00, payload_len as u8, 0x00, 0x00, 0x00,
        0x83, 0x66, 0xcd, 0x03, yy, 0x64, 0x3b, 0x65,
        0x82, 0x66, 0x00, 0x6d, (0xa0 + fixstr_len) as u8,
    ] + name + seq![0x00u8, 0x00, 0x00]
}

/// Name write of the switch in context; the name is cut to 30 bytes on a char boundary.
pub fn build_controller_name_write_packet(state: &mut HelixState, name: &str) -> (r: Vec<u8>)
    ensures
        ({
            let c = old(state).counters;
            let kept = name.spec_bytes().subrange(0, truncated_name_len(name.spec_bytes()));
            &&& r@ == name_packet_spec(c.x80_cnt, c.live_write_ctr, c.live_write_yy, kept)
            &&& *final(state) == (HelixState {
                counters: Counters {
                    x80_cnt: wadd8(c.x80_cnt, 1),
                    live_write_ctr: wadd16(c.live_write_ctr, 0x11),
                    live_write_yy: wadd8(c.live_write_yy, 1),
                    ..c
                },
                ..*old(state)
            })
        }),
{
    let seq = state.next_x80_cnt();
    let ctr = state.counters.live_write_ctr;
    let yy = state.counters.live_write_yy;
    let bytes = name.as_bytes();
    let mut end: usize = if bytes.len() < 30 { bytes.len() } else { 30 };
    assert(end as int == (if bytes@.len() < 30 { bytes@.len() as int } else { 30 }));
    while end > 0 && !name.is_char_boundary(end)
        invariant
            end <= 30,
            end <= bytes@.len(),
            bytes@ == name.spec_bytes(),
            boundary_at_or_below(bytes@, end as int) == truncated_name_len(bytes@),
        decreases end,
    {
        end = end - 1;
    }
    proof {
        lemma_boundary_bounds(bytes@, end as int);
    }
    let fixstr_len: u8 = (end + 1) as u8;
    let payload_len: u8 = 13 + fixstr_len;
    let mut packet: Vec<u8> = vec![
        payload_len + 16, 0x00, 0x00, 0x18, 0x80, 0x10, 0xed, 0x03,
        0x00, seq, 0x00, 0x04,
        lo_byte(ctr), hi_byte(ctr),
        0x00, 0x00,
        0x01, 0x00, 0x06, 0x00, payload_len, 0x00, 0x00, 0x00,
        0x83, 0x66, 0xcd, 0x03, yy, 0x64, 0x3b, 0x65,
        0x82, 0x66, 0x00, 0x6d, 0xa0 | fixstr_len,
    ];
    assert((0xa0u8 | fixstr_len) == 0xa0 + fixstr_len) by (bit_vector)
        requires
            fixstr_len < 32,
    ;
    let ghost head = packet@;
    let mut i: usize = 0;
    while i < end
        invariant
            i <= end,
            end <= bytes@.len(),
            packet@ == head + bytes@.subrange(0, i as int),
        decreases end - i,
    {
        packet.push(bytes[i]);
        assert(bytes@.subrange(0, i + 1) == bytes@.subrange(0, i as int).push(bytes@[i as int]));
        i = i + 1;
    }
    packet.push(0x00);
    packet.push(0x00);
    packet.push(0x00);
    state.counters.live_write_ctr = state.counters.live_write_ctr.wrapping_add(0x11);
    state.counters.live_write_yy = state.counters.live_write_yy.wrapping_add(1);
    assert(packet@ == name_packet_spec(
        old(state).counters.x80_cnt,
        ctr,
        yy,
        name.spec_bytes().subrange(0, truncated_name_len(name.spec_bytes())),
    ));
    packet
}

/// Min (term `0x41`) or Max (term `0x42`) packet of an assignment: bus and parameter selector,
/// `pp = 0x04`, and the value as a 32-bit float, big-endian (`ca:<f32>`).
pub open spec fn min_max_spec(seq: u8, ctr: u16, yy: u8, slot_bus: u8, param_selector: u8, is_max: bool, f: Seq<u8>) -> Seq<u8> {
    seq![
        0x27u8, 0x00, 0x00, 0x18, 0x80, 0x10, 0xed, 0x03, 0x00, seq, 0x00, 0x04,
        lo8(ctr), hi8(ctr), 0x00, 0x00,
        0x01, 0x00, 0x06, 0x00, 0x17, 0x00, 0x00, 0x00,
        0x83, 0x66, 0xcd, 0x04, yy, 0x64, if is_max { 0x42u8 } else { 0x41u8 }, 0x65,
        0x85, 0x62, slot_bus, 0x1d, 0xc3, 0x1a, 0x00, 0x1c, param_selector,
        0x77, 0xca, f[0], f[1], f[2], f[3], 0x00,
    ]
}

/// Writes the Min or Max of the assignment on `slot_bus` / `param_selector`; `value_be` is the
/// value's 32-bit float in big-endian order. The packet carries its own bus and parameter;
/// shared counters `ctr + 0x11`, `yy + 1`.
pub fn build_controller_min_max_write_packet(
    state: &mut HelixState,
    slot_bus: u8,
    param_selector: u8,
    is_max: bool,
    value_be: [u8; 4],
) -> (r: Vec<u8>)
    ensures
        ({
            let c = old(state).counters;
            &&& r@ == min_max_spec(c.x80_cnt, c.live_write_ctr, c.live_write_yy, slot_bus, param_selector, is_max, value_be@)
            &&& *final(state) == (HelixState {
                counters: Counters {
                    x80_cnt: wadd8(c.x80_cnt, 1),
                    live_write_ctr: wadd16(c.live_write_ctr, 0x11),
                    live_write_yy: wadd8(c.live_write_yy, 1),
                    ..c
                },
                ..*old(state)
            })
        }),
{
    let seq = state.next_x80_cnt();
    let ctr = state.counters.live_write_ctr;
    let yy = state.counters.live_write_yy;
    let term: u8 = if is_max { 0x42 } else { 0x41 };
    let f = value_be;
    let packet = vec![
        0x27, 0x00, 0x00, 0x18, 0x80, 0x10, 0xed, 0x03,
        0x00, seq, 0x00, 0x04,
        lo_byte(ctr), hi_byte(ctr),
        0x00, 0x00,
        0x01, 0x00, 0x06, 0x00, 0x17, 0x00, 0x00, 0x00,
        0x83, 0x66, 0xcd, 0x04, yy, 0x64, term, 0x65,
        0x85, 0x62, slot_bus, 0x1d, 0xc3, 0x1a, 0x00, 0x1c, param_selector,
        0x77, 0xca, f[0], f[1], f[2], f[3], 0x00,
    ];
    assert(packet@ == min_max_spec(old(state).counters.x80_cnt, ctr, yy, slot_bus, param_selector, is_max, value_be@));
    state.counters.live_write_ctr = state.counters.live_write_ctr.wrapping_add(0x11);
    state.counters.live_write_yy = state.counters.live_write_yy.wrapping_add(1);
    packet
}

/// Deletes a real-parameter assignment: the creation packet with source `4a = 0` and
/// `47 = 0`; shared counters `ctr + 0x11`, `yy + 1`.
pub fn build_controller_delete_real_param_write_packet(
    state: &mut HelixState,
    slot_bus: u8,
    param_selector: u8,
) -> (r: Vec<u8>)
    ensures
        ({
            let c = old(state).counters;
            &&& r@ == create_real_param_spec(
                c.x80_cnt,
                c.live_write_ctr,
                c.live_write_yy,
                slot_bus,
                param_selector,
                0,
                0,
            )
            &&& *final(state) == (HelixState {
                counters: Counters {
                    x80_cnt: wadd8(c.x80_cnt, 1),
                    live_write_ctr: wadd16(c.live_write_ctr, 0x11),
                    live_write_yy: wadd8(c.live_write_yy, 1),
                    ..c
                },
                ..*old(state)
            })
        }),
{
    let seq = state.next_x80_cnt();
    let ctr = state.counters.live_write_ctr;
    let yy = state.counters.live_write_yy;
    let packet = create_packet(seq, ctr, yy, slot_bus, param_selector, 0x00, 0x00);
    state.counters.live_write_ctr = state.counters.live_write_ctr.wrapping_add(0x11);
    state.counters.live_write_yy = state.counters.live_write_yy.wrapping_add(1);
    packet
}

/// Deletes a Bypass assignment: the compact Source with term `0x39` (clear source) at the
/// footswitch position; shared counters `ctr + 0x11`, `yy + 1`.
pub fn build_controller_delete_bypass_write_packet(
    state: &mut HelixState,
    slot_bus: u8,
    footswitch_number: u8,
) -> (r: Vec<u8>)
    ensures
        ({
            let c = old(state).counters;
            &&& r@ == source_packet_spec(
                c.x80_cnt,
                0x0c,
                c.live_write_ctr,
                0x04,
                c.live_write_yy,
                0x39,
                slot_bus,
                fs_index_spec(footswitch_number),
            )
            &&& *final(state) == (HelixState {
                counters: Counters {
                    x80_cnt: wadd8(c.x80_cnt, 1),
                    live_write_ctr: wadd16(c.live_write_ctr, 0x11),
                    live_write_yy: wadd8(c.live_write_yy, 1),
                    ..c
                },
                ..*old(state)
            })
        }),
{
    let seq = state.next_x80_cnt();
    let ctr = state.counters.live_write_ctr;
    let yy = state.counters.live_write_yy;
    let fs_index = footswitch_number.saturating_sub(1);
    let packet = vec![
        0x1d, 0x00, 0x00, 0x18, 0x80, 0x10, 0xed, 0x03,
        0x00, seq, 0x00, 0x0c,
        lo_byte(ctr), hi_byte(ctr),
        0x00, 0x00,
        0x01, 0x00, 0x06, 0x00, 0x0d, 0x00, 0x00, 0x00,
        0x83, 0x66, 0xcd, 0x04, yy, 0x64, 0x39, 0x65,
        0x82, 0x62, slot_bus, 0x66, fs_index, 0x00, 0x00, 0x00,
    ];
    state.counters.live_write_ctr = state.counters.live_write_ctr.wrapping_add(0x11);
    state.counters.live_write_yy = state.counters.live_write_yy.wrapping_add(1);
    packet
}

} // verus!
