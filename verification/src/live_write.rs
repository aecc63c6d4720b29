//! Route of a live parameter write: the `PP` lane, the wire parameter selector and the model
//! block that the write frames carry, with where each came from.
use vstd::prelude::*;
use crate::text::{decimal_of, hex_of, push_decimal, push_hex_byte, string_push_str};
use crate::bytes::{hi8, hi_byte, lo8, lo_byte, wadd16, wadd8};
use crate::live_write_config::{
    bool_payload_spec, discrete_23_step_count, discrete_steps_spec, infer_bool_wire_payload, HelixLiveWriteCfg,
};
use crate::slots::kempline_index_to_slot_bus;
use crate::state::{Counters, HelixState};

verus! {

/// Route chosen for a live parameter write.
pub struct LiveWriteRouteOverride {
    /// Lane byte after `83:66:cd`.
    pub pp: u8,
    pub pp_source: &'static str,
    pub param_selector: u8,
    pub param_selector_source: &'static str,
    /// Model block `83:66:cd:PP:…` (16 bytes).
    pub model_block: [u8; 16],
    /// Keep the model tag (byte 4) of the block instead of the live write tag.
    pub preserve_model_tag: bool,
    /// Discrete values want the `c2` marker.
    pub discrete_wants_c2: bool,
}

/// Model block cached from an `ed:03` echo for `(slot_bus, route_pp, param_selector)`: the
/// value of the first entry with that key (latest entries come first).
pub open spec fn echo_block_lookup(list: Seq<((u8, u8, u8), [u8; 16])>, key: (u8, u8, u8)) -> Option<[u8; 16]>
    decreases list.len(),
{
    if list.len() == 0 {
        None
    } else if list[0].0 == key {
        Some(list[0].1)
    } else {
        echo_block_lookup(list.drop_first(), key)
    }
}

/// Looks a model block up in the echo cache.
pub fn lookup_echo_model_block(list: &Vec<((u8, u8, u8), [u8; 16])>, key: (u8, u8, u8)) -> (r: Option<[u8; 16]>)
    ensures
        r == echo_block_lookup(list@, key),
{
    let mut i: usize = 0;
    assert(list@.subrange(0, list@.len() as int) == list@);
    while i < list.len()
        invariant
            0 <= i <= list@.len(),
            echo_block_lookup(list@, key) == echo_block_lookup(list@.subrange(i as int, list@.len() as int), key),
        decreases list.len() - i,
    {
        assert(list@.subrange(i as int, list@.len() as int).drop_first() == list@.subrange(i + 1, list@.len() as int));
        assert(list@.subrange(i as int, list@.len() as int)[0] == list@[i as int]);
        let k = list[i].0;
        if k.0 == key.0 && k.1 == key.1 && k.2 == key.2 {
            assert(k == key);
            return Some(list[i].1);
        }
        i = i + 1;
    }
    assert(list@.subrange(i as int, list@.len() as int).len() == 0);
    None
}

/// Text of one differing position: `i:rr->aa` (decimal index, two hex digits each).
pub open spec fn diff_item(i: int, r: u8, a: u8) -> Seq<char> {
    decimal_of(i as nat) + ":"@ + hex_of(seq![r]) + "->"@ + hex_of(seq![a])
}

/// Texts of the positions below `n` where `r` and `a` differ, in order.
pub open spec fn diff_items(r: Seq<u8>, a: Seq<u8>, n: int) -> Seq<Seq<char>>
    decreases n,
{
    if n <= 0 {
        Seq::empty()
    } else if r[n - 1] != a[n - 1] {
        diff_items(r, a, n - 1).push(diff_item(n - 1, r[n - 1], a[n - 1]))
    } else {
        diff_items(r, a, n - 1)
    }
}

/// Items joined by `,`.
pub open spec fn join_comma(items: Seq<Seq<char>>) -> Seq<char>
    decreases items.len(),
{
    if items.len() == 0 {
        Seq::empty()
    } else if items.len() == 1 {
        items[0]
    } else {
        join_comma(items.drop_last()) + ","@ + items.last()
    }
}

/// All the differences of `a` against `r`: differing positions, then the lengths if they differ.
pub open spec fn all_diffs(r: Seq<u8>, a: Seq<u8>) -> Seq<Seq<char>> {
    let n = if r.len() < a.len() { r.len() } else { a.len() };
    let d = diff_items(r, a, n as int);
    if r.len() != a.len() {
        d.push("len:"@ + decimal_of(r.len()) + "->"@ + decimal_of(a.len()))
    } else {
        d
    }
}

/// Text of the differences of `a` against `r`: `none`, or the first 12 joined by `,`, then
/// `+N more` when there are more.
pub open spec fn diff_text(r: Seq<u8>, a: Seq<u8>) -> Seq<char> {
    let d = all_diffs(r, a);
    if d.len() == 0 {
        "none"@
    } else if d.len() > 12 {
        join_comma(d.subrange(0, 12).push("+"@ + decimal_of((d.len() - 12) as nat) + " more"@))
    } else {
        join_comma(d)
    }
}

proof fn join_push(items: Seq<Seq<char>>, x: Seq<char>)
    ensures
        join_comma(items.push(x)) == if items.len() == 0 { x } else { join_comma(items) + ","@ + x },
{
    assert(items.push(x).drop_last() =~= items);
}

/// Text of the differences of `actual` against `reference` (see `diff_text`).
pub fn diff_packet_hex(reference: &[u8], actual: &[u8]) -> (r: String)
    ensures
        r@ == diff_text(reference@, actual@),
{
    let ghost d = all_diffs(reference@, actual@);
    let n: usize = if reference.len() < actual.len() { reference.len() } else { actual.len() };
    let mut items: Vec<String> = Vec::new();
    let mut i: usize = 0;
    while i < n
        invariant
            i <= n,
            n as int == (if reference@.len() < actual@.len() { reference@.len() } else { actual@.len() }),
            items@.len() == diff_items(reference@, actual@, i as int).len(),
            forall|k: int| 0 <= k < items@.len() ==> #[trigger] items@[k]@ == diff_items(reference@, actual@, i as int)[k],
        decreases n - i,
    {
        if reference[i] != actual[i] {
            let mut t = String::new();
            push_decimal(&mut t, i as u64);
            string_push_str(&mut t, ":");
            push_hex_byte(&mut t, reference[i]);
            string_push_str(&mut t, "->");
            push_hex_byte(&mut t, actual[i]);
            assert(t@ =~= diff_item(i as int, reference@[i as int], actual@[i as int]));
            items.push(t);
        }
        i = i + 1;
    }
    if reference.len() != actual.len() {
        let mut t = String::new();
        string_push_str(&mut t, "len:");
        push_decimal(&mut t, reference.len() as u64);
        string_push_str(&mut t, "->");
        push_decimal(&mut t, actual.len() as u64);
        items.push(t);
    }
    assert(items@.len() == d.len());
    assert(forall|k: int| 0 <= k < items@.len() ==> #[trigger] items@[k]@ == d[k]);
    let m: usize = items.len();
    if m == 0 {
        let mut t = String::new();
        string_push_str(&mut t, "none");
        return t;
    }
    let shown: usize = if m > 12 { 12 } else { m };
    let mut out = String::new();
    let mut j: usize = 0;
    while j < shown
        invariant
            j <= shown <= m == items@.len() == d.len(),
            forall|k: int| 0 <= k < items@.len() ==> #[trigger] items@[k]@ == d[k],
            out@ == join_comma(d.subrange(0, j as int)),
        decreases shown - j,
    {
        let ghost before = out@;
        if j > 0 {
            string_push_str(&mut out, ",");
        }
        string_push_str(&mut out, items[j].as_str());
        proof {
            join_push(d.subrange(0, j as int), d[j as int]);
            assert(d.subrange(0, j as int).push(d[j as int]) =~= d.subrange(0, j + 1));
        }
        j = j + 1;
    }
    if m > 12 {
        let mut t = String::new();
        string_push_str(&mut t, "+");
        push_decimal(&mut t, (m - 12) as u64);
        string_push_str(&mut t, " more");
        string_push_str(&mut out, ",");
        string_push_str(&mut out, t.as_str());
        proof {
            join_push(d.subrange(0, 12), t@);
        }
    } else {
        assert(d.subrange(0, m as int) =~= d);
    }
    out
}

/// Values of a live write taken from the normalised value.
pub struct LiveWriteValue {
    /// IEEE-754 big-endian bytes of the normalised value (first leg).
    pub float_be_a: [u8; 4],
    /// IEEE-754 big-endian bytes of the second leg (chain units when the range is known).
    pub float_be_b: [u8; 4],
    /// The normalised value is at least 0.5 (bool on).
    pub bool_on: bool,
    /// Position of a segmented value.
    pub discrete_index: u8,
}

/// The frames of one live parameter write.
pub struct LiveWriteFrames {
    pub model_block_kind: &'static str,
    /// First byte of the main pair: `0x27` (float) or `0x23` (bool or segmented index).
    pub primary_opcode: u8,
    /// Slot bus byte under `85:62:XX:1d`.
    pub slot_bus: u8,
    pub pp: u8,
    pub pp_source: &'static str,
    pub param_selector: u8,
    pub param_selector_source: &'static str,
    pub pre_packet_x80: Vec<u8>,
    pub pre_packet_x2: Vec<u8>,
    pub pre_packet_x80_sel: Vec<u8>,
    /// First leg: byte 11 = `0x04`.
    pub packet_27: Vec<u8>,
    /// Second leg: byte 11 = `0x0c`.
    pub packet_27_b: Vec<u8>,
    pub post_packet_x80_sel: Vec<u8>,
    pub frame27_diff_vs_static: String,
}

/// Float write `27` on `80:10:ed:03` (48 bytes): value after `77 ca`.
pub open spec fn write27(seq: u8, b11: u8, ctr: u16, yy: u8, pp: u8, sel: u8, bus: u8, f: Seq<u8>) -> Seq<u8> {
    seq![
        0x27u8, 0x00, 0x00, 0x18, 0x80, 0x10, 0xed, 0x03, 0x00, seq, 0x00, b11, lo8(ctr), hi8(ctr), 0x00, 0x00,
        0x01, 0x00, 0x06, 0x00, 0x17, 0x00, 0x00, 0x00, 0x83, 0x66, 0xcd, pp, yy, 0x64, 0x1e, 0x65,
        0x85, 0x62, bus, 0x1d, 0xc3, 0x1a, 0x00, 0x1c, sel, 0x77, 0xca, f[0], f[1], f[2], f[3], 0x00,
    ]
}

/// Bool or segmented write `23` (44 bytes): marker or index after `77`.
pub open spec fn write23(seq: u8, b11: u8, ctr: u16, yy: u8, pp: u8, sel: u8, bus: u8, mark: u8) -> Seq<u8> {
    seq![
        0x23u8, 0x00, 0x00, 0x18, 0x80, 0x10, 0xed, 0x03, 0x00, seq, 0x00, b11, lo8(ctr), hi8(ctr), 0x00, 0x00,
        0x01, 0x00, 0x06, 0x00, 0x13, 0x00, 0x00, 0x00, 0x83, 0x66, 0xcd, pp, yy, 0x64, 0x1e, 0x65,
        0x85, 0x62, bus, 0x1d, 0xc3, 0x1a, 0x00, 0x1c, sel, 0x77, mark, 0x00,
    ]
}

/// A write frame with bytes 24-39 taken from a model block echoed by the device, its byte 4
/// set to `tag` and the slot bus (byte 34) kept.
pub open spec fn with_echo_block(p: Seq<u8>, block: Seq<u8>, tag: u8, bus: u8) -> Seq<u8> {
    p.subrange(0, 24) + block.update(4, tag).update(10, bus) + p.subrange(40, p.len() as int)
}

/// Slot bus of a live write: the bus of the slot index, capped at 15.
pub open spec fn live_slot_bus(slot_index: u32) -> u8 {
    if slot_index < 8 {
        (slot_index + 1) as u8
    } else if slot_index < 15 {
        (slot_index + 3) as u8
    } else {
        18
    }
}

/// Parameter selector: the parameter index, capped at `0xff`.
pub open spec fn live_selector(param_index: u32) -> u8 {
    if param_index > 0xff { 0xff } else { param_index as u8 }
}

/// The write uses the `23` frame (bool or segmented).
pub open spec fn wire23_spec(cfg: HelixLiveWriteCfg, dt: Option<&str>, vt: Option<i32>) -> bool {
    bool_payload_spec(cfg, dt, vt) || discrete_steps_spec(cfg, dt) is Some
}

/// Byte after `77` of a `23` write: bool marker, segmented index, else `00`.
pub open spec fn mark23_spec(cfg: HelixLiveWriteCfg, v: LiveWriteValue, dt: Option<&str>, vt: Option<i32>) -> u8 {
    if bool_payload_spec(cfg, dt, vt) {
        if v.bool_on { cfg.bool_mark_on } else { cfg.bool_mark_off }
    } else if discrete_steps_spec(cfg, dt) is Some {
        v.discrete_index
    } else {
        0
    }
}

/// Main write frame before the echoed model block.
pub open spec fn primary_bytes(w23: bool, seq: u8, b11: u8, ctr: u16, yy: u8, pp: u8, sel: u8, bus: u8, f: Seq<u8>, mark: u8) -> Seq<u8> {
    if w23 {
        write23(seq, b11, ctr, yy, pp, sel, bus, mark)
    } else {
        write27(seq, b11, ctr, yy, pp, sel, bus, f)
    }
}

/// The two write frames of a live write from state `s`: the primary frame (`23` with the
/// marker or index after `77`, else `27` with the float) on the first and second legs, with the
/// last echoed model block when there is one.
pub open spec fn live_write_pair(
    s: HelixState,
    cfg: HelixLiveWriteCfg,
    v: LiveWriteValue,
    slot_index: u32,
    param_index: u32,
    dt: Option<&str>,
    vt: Option<i32>,
) -> (Seq<u8>, Seq<u8>) {
    let c = s.counters.x80_cnt;
    let w23 = wire23_spec(cfg, dt, vt);
    let mark = mark23_spec(cfg, v, dt, vt);
    let bus = live_slot_bus(slot_index);
    let sel = live_selector(param_index);
    let ctr_a = s.counters.live_write_ctr;
    let ctr_b = wadd16(ctr_a, 0x1f);
    let yy_a = s.counters.live_write_yy;
    let base_a = primary_bytes(w23, wadd8(c, 2), 0x04, ctr_a, yy_a, cfg.pp_default, sel, bus, v.float_be_a@, mark);
    let base_b = primary_bytes(w23, wadd8(c, 3), 0x0c, ctr_b, wadd8(yy_a, 1), cfg.pp_default, sel, bus, v.float_be_b@, mark);
    match s.cab.last_ed03_echo_model {
        None => (base_a, base_b),
        Some(e) => {
            let tag_a = next_echo_tag(s.counters.ed03_live_write_seq_sent, e@);
            (with_echo_block(base_a, e@, tag_a, bus), with_echo_block(base_b, e@, wadd8(tag_a, 1), bus))
        },
    }
}

/// What a live write writes: a segmented value (configured steps, not a bool payload) goes in
/// a `23` frame whose byte after `77` is the segment index; a bool payload carries the on/off
/// marker there; any other value goes in a `27` frame with the float of each leg after
/// `77 ca`. Both legs address the slot bus (byte 34) and the parameter selector (byte 40).
pub proof fn law_live_write_value_byte(
    s: HelixState,
    cfg: HelixLiveWriteCfg,
    v: LiveWriteValue,
    slot_index: u32,
    param_index: u32,
    dt: Option<&str>,
    vt: Option<i32>,
)
    ensures
        ({
            let (a, b) = live_write_pair(s, cfg, v, slot_index, param_index, dt, vt);
            let bool_payload = bool_payload_spec(cfg, dt, vt);
            let segmented = discrete_steps_spec(cfg, dt) is Some;
            &&& a[34] == live_slot_bus(slot_index) && b[34] == live_slot_bus(slot_index)
            &&& a[40] == live_selector(param_index) && b[40] == live_selector(param_index)
            &&& bool_payload ==> a.len() == 44 && b.len() == 44 && a[0] == 0x23 && b[0] == 0x23
                && a[41] == 0x77 && a[42] == (if v.bool_on { cfg.bool_mark_on } else { cfg.bool_mark_off })
                && b[42] == a[42]
            &&& (segmented && !bool_payload) ==> a.len() == 44 && b.len() == 44 && a[0] == 0x23 && b[0] == 0x23
                && a[41] == 0x77 && b[41] == 0x77 && a[42] == v.discrete_index && b[42] == v.discrete_index
            &&& (!segmented && !bool_payload) ==> a.len() == 48 && b.len() == 48 && a[0] == 0x27 && b[0] == 0x27
                && a[41] == 0x77 && a[42] == 0xca && b[41] == 0x77 && b[42] == 0xca
                && a.subrange(43, 47) == v.float_be_a@ && b.subrange(43, 47) == v.float_be_b@
        }),
{
    let (a, b) = live_write_pair(s, cfg, v, slot_index, param_index, dt, vt);
    match s.cab.last_ed03_echo_model {
        Some(e) => {
            assert(e@.len() == 16);
        },
        None => {},
    }
    if !(discrete_steps_spec(cfg, dt) is Some) && !bool_payload_spec(cfg, dt, vt) {
        assert(a.subrange(43, 47) =~= v.float_be_a@);
        assert(b.subrange(43, 47) =~= v.float_be_b@);
    }
}

/// Model tag of the next live write that carries an echoed block.
pub open spec fn next_echo_tag(sent: Option<u8>, block: Seq<u8>) -> u8 {
    match sent {
        Some(p) => wadd8(p, 1),
        None => wadd8(block[4], 1),
    }
}

/// `08` selector frame carrying the live write counter.
pub open spec fn sel08(seq: u8, ctr: u16) -> Seq<u8> {
    seq![0x08u8, 0x00, 0x00, 0x18, 0x80, 0x10, 0xed, 0x03, 0x00, seq, 0x00, 0x08, lo8(ctr), hi8(ctr), 0x00, 0x00]
}

fn assemble_27_write(seq: u8, byte11: u8, ctr: u16, yy: u8, pp: u8, sel: u8, bus: u8, f: [u8; 4]) -> (r: Vec<u8>)
    ensures
        r@ == write27(seq, byte11, ctr, yy, pp, sel, bus, f@),
{
    let r = vec![
        0x27, 0x00, 0x00, 0x18, 0x80, 0x10, 0xed, 0x03, 0x00, seq, 0x00, byte11, lo_byte(ctr), hi_byte(ctr), 0x00, 0x00,
        0x01, 0x00, 0x06, 0x00, 0x17, 0x00, 0x00, 0x00, 0x83, 0x66, 0xcd, pp, yy, 0x64, 0x1e, 0x65,
        0x85, 0x62, bus, 0x1d, 0xc3, 0x1a, 0x00, 0x1c, sel, 0x77, 0xca, f[0], f[1], f[2], f[3], 0x00,
    ];
    assert(r@ =~= write27(seq, byte11, ctr, yy, pp, sel, bus, f@));
    r
}

fn assemble_23_bool_write(seq: u8, byte11: u8, ctr: u16, yy: u8, pp: u8, sel: u8, bus: u8, mark: u8) -> (r: Vec<u8>)
    ensures
        r@ == write23(seq, byte11, ctr, yy, pp, sel, bus, mark),
{
    let r = vec![
        0x23, 0x00, 0x00, 0x18, 0x80, 0x10, 0xed, 0x03, 0x00, seq, 0x00, byte11, lo_byte(ctr), hi_byte(ctr), 0x00, 0x00,
        0x01, 0x00, 0x06, 0x00, 0x13, 0x00, 0x00, 0x00, 0x83, 0x66, 0xcd, pp, yy, 0x64, 0x1e, 0x65,
        0x85, 0x62, bus, 0x1d, 0xc3, 0x1a, 0x00, 0x1c, sel, 0x77, mark, 0x00,
    ];
    assert(r@ =~= write23(seq, byte11, ctr, yy, pp, sel, bus, mark));
    r
}

/// One main write frame: assembled, then, when the device echoed a model block, bytes 24-39
/// from that block with the next model tag (remembered in the state).
#[verifier::rlimit(50)]
fn primary_packet(
    state: &mut HelixState,
    w23: bool,
    seq: u8,
    byte11: u8,
    ctr: u16,
    yy: u8,
    pp: u8,
    sel: u8,
    bus: u8,
    f: [u8; 4],
    mark: u8,
) -> (r: Vec<u8>)
    ensures
        ({
            let s = *old(state);
            let base = primary_bytes(w23, seq, byte11, ctr, yy, pp, sel, bus, f@, mark);
            match s.cab.last_ed03_echo_model {
                Some(e) => {
                    let tag = next_echo_tag(s.counters.ed03_live_write_seq_sent, e@);
                    &&& r@ == with_echo_block(base, e@, tag, bus)
                    &&& *final(state) == (HelixState {
                        counters: Counters { ed03_live_write_seq_sent: Some(tag), ..s.counters },
                        ..s
                    })
                },
                None => r@ == base && *final(state) == s,
            }
        }),
{
    let mut p = if w23 {
        assemble_23_bool_write(seq, byte11, ctr, yy, pp, sel, bus, mark)
    } else {
        assemble_27_write(seq, byte11, ctr, yy, pp, sel, bus, f)
    };
    let ghost base = p@;
    match state.cab.last_ed03_echo_model {
        Some(e) => {
            let tag = match state.counters.ed03_live_write_seq_sent {
                Some(prev) => prev.wrapping_add(1),
                None => e[4].wrapping_add(1),
            };
            state.counters.ed03_live_write_seq_sent = Some(tag);
            let mut k: usize = 0;
            while k < 16
                invariant
                    k <= 16,
                    p@.len() == base.len(),
                    base.len() >= 44,
                    forall|j: int| 0 <= j < 24 ==> p@[j] == base[j],
                    forall|j: int| 40 <= j < base.len() ==> p@[j] == base[j],
                    forall|j: int| 24 <= j < 24 + k ==> p@[j] == e@[j - 24],
                    forall|j: int| 24 + k <= j < 40 ==> p@[j] == base[j],
                decreases 16 - k,
            {
                p.set(24 + k, e[k]);
                k = k + 1;
            }
            p.set(28, tag);
            p.set(34, bus);
            assert(p@ =~= with_echo_block(base, e@, tag, bus));
        },
        None => {},
    }
    p
}

/// Slot bus of a live write (slot index capped at 15).
fn slot_bus_of(slot_index: u32) -> (r: u8)
    ensures
        r == live_slot_bus(slot_index),
{
    let i: usize = if slot_index > 15 { 15 } else { slot_index as usize };
    match kempline_index_to_slot_bus(i) {
        Some(b) => b,
        None => 1,
    }
}

/// The main pair of a live write: first leg (byte 11 `04`) and second leg (`0c`), each on the
/// next x80 counter; the live write counter steps by `0x1f` and the tag byte by 1 after each.
#[verifier::rlimit(80)]
#[verifier::spinoff_prover]
fn write_pair(
    state: &mut HelixState,
    w23: bool,
    pp: u8,
    sel: u8,
    bus: u8,
    value: &LiveWriteValue,
    mark: u8,
) -> (r: (Vec<u8>, Vec<u8>))
    ensures
        ({
            let s = *old(state);
            let c = s.counters.x80_cnt;
            let ctr_a = s.counters.live_write_ctr;
            let ctr_b = wadd16(ctr_a, 0x1f);
            let yy_a = s.counters.live_write_yy;
            let yy_b = wadd8(yy_a, 1);
            let base_a = primary_bytes(w23, c, 0x04, ctr_a, yy_a, pp, sel, bus, value.float_be_a@, mark);
            let base_b = primary_bytes(w23, wadd8(c, 1), 0x0c, ctr_b, yy_b, pp, sel, bus, value.float_be_b@, mark);
            let tag_a = next_echo_tag(s.counters.ed03_live_write_seq_sent, s.cab.last_ed03_echo_model->0@);
            &&& s.cab.last_ed03_echo_model is None ==> r.0@ == base_a && r.1@ == base_b
            &&& s.cab.last_ed03_echo_model is Some ==> {
                let e = s.cab.last_ed03_echo_model->0@;
                &&& r.0@ == with_echo_block(base_a, e, tag_a, bus)
                &&& r.1@ == with_echo_block(base_b, e, wadd8(tag_a, 1), bus)
            }
            &&& final(state).counters == (Counters {
                x80_cnt: wadd8(c, 2),
                live_write_ctr: wadd16(ctr_b, 0x1f),
                live_write_yy: wadd8(yy_b, 1),
                ed03_live_write_seq_sent: if s.cab.last_ed03_echo_model is Some {
                    Some(wadd8(tag_a, 1))
                } else {
                    s.counters.ed03_live_write_seq_sent
                },
                ..s.counters
            })
            &&& *final(state) == (HelixState { counters: final(state).counters, ..s })
        }),
{
    let seq_a = state.next_x80_cnt();
    let ctr_a = state.counters.live_write_ctr;
    let yy_a = state.counters.live_write_yy;
    let packet_a = primary_packet(state, w23, seq_a, 0x04, ctr_a, yy_a, pp, sel, bus, value.float_be_a, mark);
    state.counters.live_write_ctr = state.counters.live_write_ctr.wrapping_add(0x1f);
    state.counters.live_write_yy = state.counters.live_write_yy.wrapping_add(1);
    let seq_b = state.next_x80_cnt();
    let ctr_b = state.counters.live_write_ctr;
    let yy_b = state.counters.live_write_yy;
    let packet_b = primary_packet(state, w23, seq_b, 0x0c, ctr_b, yy_b, pp, sel, bus, value.float_be_b, mark);
    state.counters.live_write_ctr = state.counters.live_write_ctr.wrapping_add(0x1f);
    state.counters.live_write_yy = state.counters.live_write_yy.wrapping_add(1);
    (packet_a, packet_b)
}

/// The `08` frames before the pair: x80 with the session and the editor double, x2, then the
/// x80 selector frame with the live write counter.
#[verifier::rlimit(50)]
fn pre_frames(state: &mut HelixState) -> (r: (Vec<u8>, Vec<u8>, Vec<u8>))
    ensures
        ({
            let s = *old(state);
            let c = s.counters.x80_cnt;
            &&& r.0@ == seq![0x08u8, 0x00, 0x00, 0x18, 0x80, 0x10, 0xed, 0x03, 0x00, c, 0x00, 0x10,
                s.counters.session_no, lo8(s.lanes.editor_ed03_double), hi8(s.lanes.editor_ed03_double), 0x00]
            &&& r.1@ == seq![0x08u8, 0x00, 0x00, 0x18, 0x02, 0x10, 0xf0, 0x03, 0x00, s.counters.x2_cnt,
                0x00, 0x10, 0x09, 0x10, 0x00, 0x00]
            &&& r.2@ == sel08(wadd8(c, 1), s.counters.live_write_ctr)
            &&& *final(state) == (HelixState {
                counters: Counters { x80_cnt: wadd8(c, 2), x2_cnt: wadd8(s.counters.x2_cnt, 1), ..s.counters },
                ..s
            })
        }),
{
    let pre_cnt_x80 = state.next_x80_cnt();
    let pre_cnt_x2 = state.next_x2_cnt();
    let pre_session = state.counters.session_no;
    let pre_double = state.preset_data_packet_double();
    let pre_packet_x80 = vec![
        0x08, 0x00, 0x00, 0x18, 0x80, 0x10, 0xed, 0x03, 0x00, pre_cnt_x80, 0x00, 0x10, pre_session, pre_double[0],
        pre_double[1], 0x00,
    ];
    let pre_packet_x2 = vec![0x08, 0x00, 0x00, 0x18, 0x02, 0x10, 0xf0, 0x03, 0x00, pre_cnt_x2, 0x00, 0x10, 0x09, 0x10, 0x00, 0x00];
    let seq_sel = state.next_x80_cnt();
    let ctr_a = state.counters.live_write_ctr;
    let sel_frame = vec![0x08, 0x00, 0x00, 0x18, 0x80, 0x10, 0xed, 0x03, 0x00, seq_sel, 0x00, 0x08, lo_byte(ctr_a), hi_byte(ctr_a), 0x00, 0x00];
    assert(pre_packet_x80@ =~= seq![0x08u8, 0x00, 0x00, 0x18, 0x80, 0x10, 0xed, 0x03, 0x00, pre_cnt_x80, 0x00, 0x10,
        pre_session, pre_double@[0], pre_double@[1], 0x00]);
    assert(pre_packet_x2@ =~= seq![0x08u8, 0x00, 0x00, 0x18, 0x02, 0x10, 0xf0, 0x03, 0x00, pre_cnt_x2, 0x00, 0x10, 0x09, 0x10, 0x00, 0x00]);
    assert(sel_frame@ =~= sel08(seq_sel, ctr_a));
    (pre_packet_x80, pre_packet_x2, sel_frame)
}

/// Frames of a live parameter write (pair `04`/`0c` between `08` selector frames), from the
/// state counters, the configuration and the value.
#[verifier::rlimit(100)]
#[verifier::spinoff_prover]
pub fn build_live_write_frames(
    state: &mut HelixState,
    cfg: &HelixLiveWriteCfg,
    value: &LiveWriteValue,
    slot_index: u32,
    param_index: u32,
    display_type: Option<&str>,
    value_type: Option<i32>,
) -> (r: LiveWriteFrames)
    ensures
        ({
            let s = *old(state);
            let c = s.counters.x80_cnt;
            let w23 = wire23_spec(*cfg, display_type, value_type);
            let mark = mark23_spec(*cfg, *value, display_type, value_type);
            let bus = live_slot_bus(slot_index);
            let sel = live_selector(param_index);
            let pp = cfg.pp_default;
            let ctr_a = s.counters.live_write_ctr;
            let ctr_b = wadd16(ctr_a, 0x1f);
            let ctr_c = wadd16(ctr_b, 0x1f);
            let yy_a = s.counters.live_write_yy;
            let yy_b = wadd8(yy_a, 1);
            let base_a = primary_bytes(w23, wadd8(c, 2), 0x04, ctr_a, yy_a, pp, sel, bus, value.float_be_a@, mark);
            let base_b = primary_bytes(w23, wadd8(c, 3), 0x0c, ctr_b, yy_b, pp, sel, bus, value.float_be_b@, mark);
            let reference = primary_bytes(w23, 0x8f, 0x04, 0x6cbd, 0x17, pp, sel, bus, value.float_be_a@, mark);
            let tag_a = next_echo_tag(s.counters.ed03_live_write_seq_sent, s.cab.last_ed03_echo_model->0@);
            &&& r.primary_opcode == (if w23 { 0x23u8 } else { 0x27u8 })
            &&& r.slot_bus == bus && r.pp == pp && r.param_selector == sel
            &&& r.pp_source@ == "config:HelixLiveWrite.ppDefault"@
            &&& r.param_selector_source@ == "index_to_offset40"@
            &&& r.pre_packet_x80@ == seq![0x08u8, 0x00, 0x00, 0x18, 0x80, 0x10, 0xed, 0x03, 0x00, c, 0x00, 0x10,
                s.counters.session_no, lo8(s.lanes.editor_ed03_double), hi8(s.lanes.editor_ed03_double), 0x00]
            &&& r.pre_packet_x2@ == seq![0x08u8, 0x00, 0x00, 0x18, 0x02, 0x10, 0xf0, 0x03, 0x00, s.counters.x2_cnt,
                0x00, 0x10, 0x09, 0x10, 0x00, 0x00]
            &&& r.pre_packet_x80_sel@ == sel08(wadd8(c, 1), ctr_a)
            &&& r.post_packet_x80_sel@ == sel08(wadd8(c, 4), ctr_c)
            &&& s.cab.last_ed03_echo_model is None ==> {
                &&& r.model_block_kind@ == "replay_static"@
                &&& r.packet_27@ == base_a && r.packet_27_b@ == base_b
            }
            &&& s.cab.last_ed03_echo_model is Some ==> {
                let e = s.cab.last_ed03_echo_model->0@;
                &&& r.model_block_kind@ == "in_echo_strict"@
                &&& r.packet_27@ == with_echo_block(base_a, e, tag_a, bus)
                &&& r.packet_27_b@ == with_echo_block(base_b, e, wadd8(tag_a, 1), bus)
            }
            &&& r.packet_27@ == live_write_pair(s, *cfg, *value, slot_index, param_index, display_type, value_type).0
            &&& r.packet_27_b@ == live_write_pair(s, *cfg, *value, slot_index, param_index, display_type, value_type).1
            &&& r.frame27_diff_vs_static@ == diff_text(reference, r.packet_27@)
            &&& final(state).counters == (Counters {
                x80_cnt: wadd8(c, 5),
                x2_cnt: wadd8(s.counters.x2_cnt, 1),
                live_write_ctr: ctr_c,
                live_write_yy: wadd8(yy_b, 1),
                ed03_live_write_seq_sent: if s.cab.last_ed03_echo_model is Some {
                    Some(wadd8(tag_a, 1))
                } else {
                    s.counters.ed03_live_write_seq_sent
                },
                ..s.counters
            })
            &&& *final(state) == (HelixState { counters: final(state).counters, ..s })
        }),
{
    let bool_23 = infer_bool_wire_payload(cfg, display_type, value_type);
    let disc = discrete_23_step_count(cfg, display_type);
    let wire_23 = bool_23 || disc.is_some();
    let mark: u8 = if bool_23 {
        if value.bool_on { cfg.bool_mark_on } else { cfg.bool_mark_off }
    } else if disc.is_some() {
        value.discrete_index
    } else {
        0
    };
    let bus = slot_bus_of(slot_index);
    let (pre_packet_x80, pre_packet_x2, pre_packet_x80_sel) = pre_frames(state);
    let pp = cfg.pp_default;
    let sel: u8 = if param_index > 0xff { 0xff } else { param_index as u8 };
    let primary_opcode: u8 = if wire_23 { 0x23 } else { 0x27 };
    let echoed = state.cab.last_ed03_echo_model.is_some();
    let (packet_a, packet_b) = write_pair(state, wire_23, pp, sel, bus, value, mark);
    let seq_post_sel = state.next_x80_cnt();
    let ctr_post = state.counters.live_write_ctr;
    let post_packet_x80_sel = vec![0x08, 0x00, 0x00, 0x18, 0x80, 0x10, 0xed, 0x03, 0x00, seq_post_sel, 0x00, 0x08, lo_byte(ctr_post), hi_byte(ctr_post), 0x00, 0x00];
    assert(post_packet_x80_sel@ =~= sel08(seq_post_sel, ctr_post));
    let reference = if wire_23 {
        assemble_23_bool_write(0x8f, 0x04, 0x6cbd, 0x17, pp, sel, bus, mark)
    } else {
        assemble_27_write(0x8f, 0x04, 0x6cbd, 0x17, pp, sel, bus, value.float_be_a)
    };
    let diff = diff_packet_hex(&reference, &packet_a);
    LiveWriteFrames {
        model_block_kind: if echoed { "in_echo_strict" } else { "replay_static" },
        primary_opcode,
        slot_bus: bus,
        pp,
        pp_source: "config:HelixLiveWrite.ppDefault",
        param_selector: sel,
        param_selector_source: "index_to_offset40",
        pre_packet_x80,
        pre_packet_x2,
        pre_packet_x80_sel,
        packet_27: packet_a,
        packet_27_b: packet_b,
        post_packet_x80_sel,
        frame27_diff_vs_static: diff,
    }
}

} // verus!
