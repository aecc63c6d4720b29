//! Legacy dual cab wire: cab 2 patch (head `0x23`), dual parent (`0x25`), create (`0x2d`).
use vstd::prelude::*;
use crate::live_write_config::{lead_ws_len, trail_ws_len, trim_end, trim_start};
use crate::edit_slot_model::{
    cab1_range_spec, cab2_range_spec, cab_dual_cab1_field_range_in_bulk, lemma_cab1_range_bounds,
    patch_cab_dual_bulk_cab_field, splice_spec,
};
use vstd::string::StringSliceAdditionalSpecFns;

verus! {

/// Cab 2 replace on an occupied dual legacy slot.
pub const CAB2_REPLACE_HEAD_LEGACY: u8 = 0x23;

/// Dual parent replace (whole slot picker).
pub const DUAL_PARENT_REPLACE_HEAD: u8 = 0x25;

/// Dual assign / create on an empty slot.
pub const DUAL_CREATE_HEAD: u8 = 0x2d;

/// Cab 2 replace of a dual IR cab.
pub const CAB2_REPLACE_HEAD_IR: u8 = 0x27;

/// Bulk heads accepted by the cab 2 replace (IR, legacy one byte, legacy three bytes).
pub fn accepted_cab2_replace_heads() -> (r: Vec<u8>)
    ensures
        r@ == seq![0x27u8, 0x23, 0x25],
{
    vec![CAB2_REPLACE_HEAD_IR, CAB2_REPLACE_HEAD_LEGACY, DUAL_PARENT_REPLACE_HEAD]
}

/// Head of a legacy dual bulk (`0x23` or `0x25`).
pub fn is_legacy_dual_bulk_head(head: u8) -> (r: bool)
    ensures
        r == (head == 0x23 || head == 0x25),
{
    head == CAB2_REPLACE_HEAD_LEGACY || head == DUAL_PARENT_REPLACE_HEAD
}

/// Legacy cab 2 replace bulk (head `0x23`).
pub fn is_legacy_cab2_replace_bulk(bulk: &[u8]) -> (r: bool)
    ensures
        r == (bulk@.len() > 0 && bulk@[0] == 0x23),
{
    bulk.len() > 0 && bulk[0] == CAB2_REPLACE_HEAD_LEGACY
}

/// Occupied slot: the first `83:66:cd:0a` becomes `cd:04` (as for the IR cab).
pub fn reframe_cd0a_to_cd04(bulk: &mut Vec<u8>)
    ensures
        final(bulk)@ == crate::edit_slot_model::reframe_cd0a_spec(old(bulk)@),
{
    crate::edit_slot_model::reframe_cab_dual_bulk_cd0a_to_cd04_for_replace(bulk)
}

/// Prepares a cab 2 replace bulk before sending it (lane reframe).
pub fn prepare_cab2_replace_bulk(bulk: &mut Vec<u8>)
    ensures
        final(bulk)@ == crate::edit_slot_model::reframe_cd0a_spec(old(bulk)@),
{
    reframe_cd0a_to_cd04(bulk)
}

/// Legacy cab 2 replace bulk: a one-byte selector patches cab 2 of the parent `0x23` bulk
/// (44 bytes); a three-byte `cd02xx` hint patches the picked `0x25` dual bulk (48 bytes) with
/// the parent's cab 1 and the new cab 2.
pub open spec fn legacy_cab2_replace_spec(parent: Seq<u8>, picked: Seq<u8>, cab: Seq<u8>) -> Option<Seq<u8>> {
    if cab.len() == 1 {
        match cab2_range_spec(parent) {
            None => None,
            Some(p) => {
                let b = crate::edit_slot_model::reframe_cd0a_spec(splice_spec(parent, p.0, p.1, cab));
                if b.len() == 44 && b[0] == 0x23 { Some(b) } else { None }
            },
        }
    } else if cab.len() != 3 || picked.len() == 0 || picked[0] != 0x25 {
        None
    } else {
        match cab1_range_spec(parent) {
            None => None,
            Some(p1) => match cab1_range_spec(picked) {
                None => None,
                Some(q1) => {
                    let b1 = splice_spec(picked, q1.0, q1.1, parent.subrange(p1.0, p1.1));
                    match cab2_range_spec(b1) {
                        None => None,
                        Some(q2) => {
                            let b = crate::edit_slot_model::reframe_cd0a_spec(splice_spec(b1, q2.0, q2.1, cab));
                            if b.len() == 48 && b[0] == 0x25 { Some(b) } else { None }
                        },
                    }
                },
            },
        }
    }
}

/// Builds the legacy cab 2 replace bulk; fails (with the reason) when the spec gives none.
pub fn build_legacy_cab2_replace_bulk(parent_dual_bulk: &[u8], picked_cab_dual_bulk: &[u8], cab_field: &[u8]) -> (r: Result<Vec<u8>, String>)
    ensures
        match legacy_cab2_replace_spec(parent_dual_bulk@, picked_cab_dual_bulk@, cab_field@) {
            None => r is Err,
            Some(b) => r matches Ok(v) && v@ == b,
        },
{
    if cab_field.len() == 1 {
        let mut bulk = vstd::slice::slice_to_vec(parent_dual_bulk);
        match patch_cab_dual_bulk_cab_field(&mut bulk, 1, cab_field) {
            Err(e) => return Err(e),
            Ok(()) => {},
        }
        prepare_cab2_replace_bulk(&mut bulk);
        if bulk.len() != 44 || bulk[0] != CAB2_REPLACE_HEAD_LEGACY {
            return Err(crate::text::text_of("legacy cab2 1 o : attendu head 0x23 / 44 o"));
        }
        return Ok(bulk);
    }
    if cab_field.len() != 3 {
        return Err(crate::text::text_of("legacy cab2 : hint attendu sur 1 ou 3 octets"));
    }
    if picked_cab_dual_bulk.len() == 0 || picked_cab_dual_bulk[0] != DUAL_PARENT_REPLACE_HEAD {
        return Err(crate::text::text_of(
            "legacy cab2 3 o (cd02xx) : entrée dual variant head 0x25 requise dans HX_ModelUsbAssign",
        ));
    }
    proof { lemma_cab1_range_bounds(parent_dual_bulk@); }
    let (p1s, p1e) = match cab_dual_cab1_field_range_in_bulk(parent_dual_bulk) {
        Some(p) => p,
        None => return Err(crate::text::text_of("parent dual sans cab1 exploitable")),
    };
    let parent_cab1 = crate::pull_frames::slice_range(parent_dual_bulk, p1s, p1e);
    let mut bulk = vstd::slice::slice_to_vec(picked_cab_dual_bulk);
    match patch_cab_dual_bulk_cab_field(&mut bulk, 0, parent_cab1.as_slice()) {
        Err(e) => return Err(e),
        Ok(()) => {},
    }
    match patch_cab_dual_bulk_cab_field(&mut bulk, 1, cab_field) {
        Err(e) => return Err(e),
        Ok(()) => {},
    }
    prepare_cab2_replace_bulk(&mut bulk);
    if bulk.len() != 48 || bulk[0] != DUAL_PARENT_REPLACE_HEAD {
        return Err(crate::text::text_of("legacy cab2 3 o : attendu head 0x25 / 48 o"));
    }
    Ok(bulk)
}

/// Value of an ASCII hex digit.
pub open spec fn hex_val(c: u8) -> Option<u8> {
    if 0x30 <= c <= 0x39 {
        Some((c - 0x30) as u8)
    } else if 0x61 <= c <= 0x66 {
        Some((c - 0x57) as u8)
    } else if 0x41 <= c <= 0x46 {
        Some((c - 0x37) as u8)
    } else {
        None
    }
}

pub(crate) fn hex_val_exec(c: u8) -> (r: Option<u8>)
    ensures
        r == hex_val(c),
{
    if 0x30 <= c && c <= 0x39 {
        Some(c - 0x30)
    } else if 0x61 <= c && c <= 0x66 {
        Some(c - 0x57)
    } else if 0x41 <= c && c <= 0x46 {
        Some(c - 0x37)
    } else {
        None
    }
}

/// Bytes of pairs of hex digits.
pub open spec fn hex_pairs(t: Seq<u8>) -> Option<Seq<u8>>
    decreases t.len(),
{
    if t.len() == 0 {
        Some(Seq::empty())
    } else if t.len() == 1 {
        None
    } else {
        match (hex_val(t[0]), hex_val(t[1]), hex_pairs(t.subrange(2, t.len() as int))) {
            (Some(h), Some(l), Some(rest)) => Some(seq![(h * 16 + l) as u8] + rest),
            _ => None,
        }
    }
}

/// Cab field bytes of a catalogue `chainHexHint` (trimmed of ASCII whitespace): one or two hex
/// digits give one byte (legacy); an even number of digits gives the pairs (IR / hybrid long).
pub open spec fn chain_hint_spec(t: Seq<u8>) -> Option<Seq<u8>> {
    if t.len() == 0 {
        None
    } else if t.len() == 1 {
        match hex_val(t[0]) { Some(v) => Some(seq![v]), None => None }
    } else {
        hex_pairs(t)
    }
}

/// Decodes a catalogue `chainHexHint`, trimmed of whitespace as `str::trim` does, into cab
/// field bytes.
pub fn chain_hint_to_cab_field_bytes(chain_hex_hint: &str) -> (r: Option<Vec<u8>>)
    ensures
        match chain_hint_spec(trim_end(trim_start(chain_hex_hint.spec_bytes()))) {
            None => r is None,
            Some(v) => r matches Some(w) && w@ == v,
        },
{
    chain_hint_bytes_to_cab_field_bytes(chain_hex_hint.as_bytes())
}

/// Same as `chain_hint_to_cab_field_bytes`, on the UTF-8 bytes of the hint.
pub fn chain_hint_bytes_to_cab_field_bytes(b: &[u8]) -> (r: Option<Vec<u8>>)
    ensures
        match chain_hint_spec(trim_end(trim_start(b@))) {
            None => r is None,
            Some(v) => r matches Some(w) && w@ == v,
        },
{
    let (start, end) = crate::live_write_config::trim_range(b);
    let t = crate::pull_frames::slice_range(b, start, end);
    decode_chain_hint(&t)
}

pub(crate) fn decode_chain_hint(t: &Vec<u8>) -> (r: Option<Vec<u8>>)
    ensures
        match chain_hint_spec(t@) {
            None => r is None,
            Some(v) => r matches Some(w) && w@ == v,
        },
{
    if t.len() == 0 {
        return None;
    }
    if t.len() == 1 {
        return match hex_val_exec(t[0]) {
            Some(v) => Some(vec![v]),
            None => None,
        };
    }
    if t.len() % 2 != 0 {
        proof { lemma_hex_pairs_odd(t@); }
        return None;
    }
    let mut out: Vec<u8> = Vec::new();
    let mut i: usize = 0;
    assert(t@.subrange(0, t@.len() as int) == t@);
    proof {
        match hex_pairs(t@) {
            Some(rest) => { assert(out@ + rest == rest); },
            None => {},
        }
    }
    while i < t.len()
        invariant
            i <= t@.len(),
            i % 2 == 0,
            t@.len() % 2 == 0,
            t@.len() >= 2,
            hex_pairs(t@) == (match hex_pairs(t@.subrange(i as int, t@.len() as int)) {
                Some(rest) => Some(out@ + rest),
                None => None::<Seq<u8>>,
            }),
        decreases t.len() - i,
    {
        let h = hex_val_exec(t[i]);
        let l = hex_val_exec(t[i + 1]);
        let ghost tail = t@.subrange(i as int, t@.len() as int);
        assert(tail.subrange(2, tail.len() as int) == t@.subrange(i + 2, t@.len() as int));
        match (h, l) {
            (Some(h), Some(l)) => {
                let ghost before = out@;
                out.push(h * 16 + l);
                proof {
                    match hex_pairs(t@.subrange(i + 2, t@.len() as int)) {
                        Some(rest) => {
                            assert(before + (seq![(h * 16 + l) as u8] + rest) == out@ + rest);
                        },
                        None => {},
                    }
                }
                i = i + 2;
            },
            _ => {
                return None;
            },
        }
    }
    assert(t@.subrange(i as int, t@.len() as int).len() == 0);
    Some(out)
}

proof fn lemma_hex_pairs_odd(t: Seq<u8>)
    requires
        t.len() % 2 == 1,
    ensures
        hex_pairs(t) is None,
    decreases t.len(),
{
    if t.len() > 1 {
        lemma_hex_pairs_odd(t.subrange(2, t.len() as int));
    }
}

/// ASCII hex digit of a nibble, lowercase or uppercase.
pub open spec fn hex_digit_byte(n: u8, upper: bool) -> u8 {
    if n < 10 { (0x30 + n) as u8 } else if upper { (0x37 + n) as u8 } else { (0x57 + n) as u8 }
}

/// Two ASCII hex digits per byte, in order.
pub open spec fn hex_text(b: Seq<u8>, upper: bool) -> Seq<u8>
    decreases b.len(),
{
    if b.len() == 0 {
        Seq::empty()
    } else {
        seq![hex_digit_byte(b[0] / 16, upper), hex_digit_byte(b[0] % 16, upper)] + hex_text(b.drop_first(), upper)
    }
}

pub(crate) proof fn lemma_hex_text_pairs(b: Seq<u8>, upper: bool)
    ensures
        hex_text(b, upper).len() == 2 * b.len(),
        hex_pairs(hex_text(b, upper)) == Some(b),
    decreases b.len(),
{
    if b.len() > 0 {
        lemma_hex_text_pairs(b.drop_first(), upper);
        let t = hex_text(b, upper);
        assert(t.subrange(2, t.len() as int) =~= hex_text(b.drop_first(), upper));
        let x = b[0];
        assert(hex_val(hex_digit_byte(x / 16, upper)) == Some(x / 16));
        assert(hex_val(hex_digit_byte(x % 16, upper)) == Some(x % 16));
        assert(((x / 16) * 16 + x % 16) as u8 == x);
        assert(seq![x] + b.drop_first() =~= b);
    }
}

/// `n` ASCII spaces.
pub open spec fn spaces(n: nat) -> Seq<u8> {
    Seq::new(n, |i: int| 0x20u8)
}

proof fn lemma_trim_leading_spaces(n: nat, t: Seq<u8>)
    ensures
        trim_start(spaces(n) + t) == trim_start(t),
    decreases n,
{
    if n > 0 {
        let u = spaces(n) + t;
        assert(u[0] == 0x20u8);
        assert(u.subrange(1, u.len() as int) =~= spaces((n - 1) as nat) + t);
        lemma_trim_leading_spaces((n - 1) as nat, t);
    }
}

proof fn lemma_trim_trailing_spaces(t: Seq<u8>, m: nat)
    ensures
        trim_end(t + spaces(m)) == trim_end(t),
    decreases m,
{
    if m > 0 {
        let u = t + spaces(m);
        assert(u[u.len() - 1] == 0x20u8);
        assert(u.subrange(0, u.len() - 1) =~= t + spaces((m - 1) as nat));
        lemma_trim_trailing_spaces(t, (m - 1) as nat);
    }
}

proof fn lemma_hex_text_untrimmed(b: Seq<u8>, upper: bool, m: nat)
    requires
        b.len() >= 1,
    ensures
        trim_start(hex_text(b, upper) + spaces(m)) == hex_text(b, upper) + spaces(m),
        trim_end(hex_text(b, upper)) == hex_text(b, upper),
{
    lemma_hex_text_pairs(b, upper);
    let t = hex_text(b, upper);
    let x = b[0];
    assert(t[0] == hex_digit_byte(x / 16, upper));
    assert((t + spaces(m))[0] == t[0]);
    assert(lead_ws_len(t + spaces(m)) == 0);
    lemma_hex_text_last(b, upper);
    assert(trail_ws_len(t) == 0);
}

proof fn lemma_hex_text_last(b: Seq<u8>, upper: bool)
    requires
        b.len() >= 1,
    ensures
        hex_text(b, upper).len() >= 2,
        hex_text(b, upper).last() == hex_digit_byte(b.last() % 16, upper),
        hex_text(b, upper)[hex_text(b, upper).len() - 2] == hex_digit_byte(b.last() / 16, upper),
    decreases b.len(),
{
    lemma_hex_text_pairs(b, upper);
    if b.len() > 1 {
        lemma_hex_text_last(b.drop_first(), upper);
        lemma_hex_text_pairs(b.drop_first(), upper);
    }
}

/// Round trip of a chain hint: the hex text of non-empty bytes (two digits per byte, either
/// case), with any number of spaces around it, decodes back to those bytes; a hint that is
/// empty, or of odd length above 2, decodes to nothing.
pub proof fn law_chain_hint_round_trip(b: Seq<u8>, upper: bool, n: nat, m: nat, h: Seq<u8>)
    requires
        b.len() >= 1,
    ensures
        chain_hint_spec(trim_end(trim_start(spaces(n) + hex_text(b, upper) + spaces(m)))) == Some(b),
        h.len() == 0 ==> chain_hint_spec(h) is None,
        h.len() > 2 && h.len() % 2 == 1 ==> chain_hint_spec(h) is None,
{
    lemma_hex_text_pairs(b, upper);
    let t = hex_text(b, upper);
    assert(spaces(n) + t + spaces(m) =~= spaces(n) + (t + spaces(m)));
    lemma_trim_leading_spaces(n, t + spaces(m));
    lemma_hex_text_untrimmed(b, upper, m);
    lemma_trim_trailing_spaces(t, m);
    if h.len() > 2 && h.len() % 2 == 1 {
        lemma_hex_pairs_odd(h);
    }
}

} // verus!
