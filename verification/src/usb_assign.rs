//! USB assign catalogue (`HX_ModelUsbAssign`): the assign bulk and the chain hint of a model
//! id and variant, and the Amp+Cab cab replace bulk built from them.
use vstd::prelude::*;
use crate::cab_dual::legacy::wire::{decode_chain_hint, hex_digit_byte, hex_pairs, hex_text, hex_val, lemma_hex_text_pairs};
use crate::live_write_config::lower;
use crate::edit_slot_model::{
    cab1_range_spec, cab2_range_spec, cab_dual_cab1_field_range_in_bulk, cab_dual_cab2_field_range_in_bulk,
    lemma_cab1_range_bounds, lemma_cab2_range_bounds, splice_bytes, splice_spec,
};
use crate::text::bytes_debug;
use crate::model_catalog::{bytes_equal, key_bytes, trimmed, trimmed_bytes};
use vstd::string::StringSliceAdditionalSpecFns;

verus! {

/// One assign entry: model id (trimmed), variant (trimmed, ASCII lowercase), assign bulk and
/// chain hint (trimmed).
pub struct UsbAssignEntry {
    pub id: Vec<u8>,
    pub variant: Vec<u8>,
    pub bulk: Vec<u8>,
    pub chain_hex_hint: String,
}

/// The ASCII hex digits of `s`, in order.
pub open spec fn hex_digits(s: Seq<u8>) -> Seq<u8>
    decreases s.len(),
{
    if s.len() == 0 {
        Seq::empty()
    } else if hex_val(s.last()) is Some {
        hex_digits(s.drop_last()).push(s.last())
    } else {
        hex_digits(s.drop_last())
    }
}

/// Bytes of a hex text: its hex digits taken by pairs; none when there is no digit or an odd
/// number of them.
pub open spec fn parse_hex_spec(s: Seq<u8>) -> Option<Seq<u8>> {
    let d = hex_digits(s);
    if d.len() == 0 || d.len() % 2 == 1 {
        None
    } else {
        hex_pairs(d)
    }
}

/// Bytes of a hex text (see `parse_hex_spec`); characters other than hex digits are skipped.
pub fn parse_hex_bytes(s: &str) -> (r: Option<Vec<u8>>)
    ensures
        match parse_hex_spec(s.spec_bytes()) {
            None => r is None,
            Some(v) => r matches Some(w) && w@ == v,
        },
{
    let b = s.as_bytes();
    let mut d: Vec<u8> = Vec::new();
    let mut i: usize = 0;
    while i < b.len()
        invariant
            i <= b@.len(),
            b@ == s.spec_bytes(),
            d@ == hex_digits(b@.subrange(0, i as int)),
        decreases b.len() - i,
    {
        let ghost t = b@.subrange(0, i + 1);
        assert(t.drop_last() =~= b@.subrange(0, i as int));
        assert(t.last() == b@[i as int]);
        if crate::cab_dual::legacy::wire::hex_val_exec(b[i]).is_some() {
            d.push(b[i]);
        }
        i = i + 1;
    }
    assert(b@.subrange(0, b@.len() as int) =~= b@);
    if d.len() == 0 || d.len() % 2 == 1 {
        return None;
    }
    decode_chain_hint(&d)
}

proof fn lemma_hex_digits_concat(s1: Seq<u8>, s2: Seq<u8>)
    ensures
        hex_digits(s1 + s2) == hex_digits(s1) + hex_digits(s2),
    decreases s2.len(),
{
    if s2.len() == 0 {
        assert(s1 + s2 =~= s1);
        assert(hex_digits(s1) + hex_digits(s2) =~= hex_digits(s1));
    } else {
        let u = s1 + s2;
        assert(u.drop_last() =~= s1 + s2.drop_last());
        assert(u.last() == s2.last());
        lemma_hex_digits_concat(s1, s2.drop_last());
        if hex_val(s2.last()) is Some {
            assert(hex_digits(s1) + hex_digits(s2.drop_last()).push(s2.last()) =~= (hex_digits(s1)
                + hex_digits(s2.drop_last())).push(s2.last()));
        }
    }
}

proof fn lemma_hex_digits_of_digits(s: Seq<u8>)
    requires
        forall|i: int| 0 <= i < s.len() ==> #[trigger] hex_val(s[i]) is Some,
    ensures
        hex_digits(s) == s,
    decreases s.len(),
{
    if s.len() > 0 {
        assert(hex_val(s[s.len() - 1]) is Some);
        lemma_hex_digits_of_digits(s.drop_last());
        assert(s.drop_last().push(s.last()) =~= s);
    }
}

proof fn lemma_hex_text_is_digits(b: Seq<u8>, upper: bool)
    ensures
        forall|i: int| 0 <= i < hex_text(b, upper).len() ==> #[trigger] hex_val(hex_text(b, upper)[i]) is Some,
    decreases b.len(),
{
    if b.len() > 0 {
        lemma_hex_text_is_digits(b.drop_first(), upper);
        let x = b[0];
        let h = seq![hex_digit_byte(x / 16, upper), hex_digit_byte(x % 16, upper)];
        let t = hex_text(b.drop_first(), upper);
        assert(hex_text(b, upper) == h + t);
        assert(hex_val(h[0]) is Some);
        assert(hex_val(h[1]) is Some);
        assert forall|i: int| 0 <= i < (h + t).len() implies #[trigger] hex_val((h + t)[i]) is Some by {
            if i >= 2 {
                assert((h + t)[i] == t[i - 2]);
            }
        }
    }
}

/// Reading back the hex text of a non-empty byte string, lower or upper case, gives the bytes;
/// a character that is not a hex digit, wherever it stands, changes nothing; text without
/// digits, or with an odd number of them, is refused.
pub proof fn law_hex_text_reads_back(b: Seq<u8>, upper: bool, s1: Seq<u8>, c: u8, s2: Seq<u8>)
    requires
        b.len() >= 1,
    ensures
        parse_hex_spec(hex_text(b, upper)) == Some(b),
        hex_val(c) is None ==> parse_hex_spec(s1 + seq![c] + s2) == parse_hex_spec(s1 + s2),
        (forall|i: int| 0 <= i < s1.len() ==> #[trigger] hex_val(s1[i]) is None) ==> parse_hex_spec(s1) is None,
        hex_digits(s1).len() % 2 == 1 ==> parse_hex_spec(s1) is None,
{
    lemma_hex_text_is_digits(b, upper);
    lemma_hex_digits_of_digits(hex_text(b, upper));
    lemma_hex_text_pairs(b, upper);
    lemma_hex_digits_concat(s1 + seq![c], s2);
    lemma_hex_digits_concat(s1, seq![c]);
    lemma_hex_digits_concat(s1, s2);
    let one = seq![c];
    assert(one.drop_last() =~= Seq::<u8>::empty());
    assert(hex_digits(Seq::<u8>::empty()) =~= Seq::<u8>::empty());
    if hex_val(c) is None {
        assert(hex_digits(one) =~= Seq::<u8>::empty());
        assert(hex_digits(s1) + hex_digits(one) =~= hex_digits(s1));
    }
    if forall|i: int| 0 <= i < s1.len() ==> #[trigger] hex_val(s1[i]) is None {
        lemma_no_hex_digits(s1);
    }
}

proof fn lemma_no_hex_digits(s: Seq<u8>)
    requires
        forall|i: int| 0 <= i < s.len() ==> #[trigger] hex_val(s[i]) is None,
    ensures
        hex_digits(s).len() == 0,
    decreases s.len(),
{
    if s.len() > 0 {
        assert(hex_val(s[s.len() - 1]) is None);
        assert forall|i: int| 0 <= i < s.drop_last().len() implies #[trigger] hex_val(s.drop_last()[i]) is None by {
            assert(s.drop_last()[i] == s[i]);
        }
        lemma_no_hex_digits(s.drop_last());
    }
}

/// Text of an optional field, or the default.
pub open spec fn text_or(o: Option<&str>, d: &str) -> Seq<u8> {
    match o {
        Some(t) => t.spec_bytes(),
        None => d.spec_bytes(),
    }
}

/// The assign entry of a catalogue record: none without a non-empty trimmed id, without a bulk
/// text, or when the bulk is not hex of at least 32 bytes. The variant defaults to `mono`, the
/// chain hint to empty.
pub open spec fn usb_assign_entry_spec(
    id: Option<&str>,
    variant: Option<&str>,
    bulk_hex: Option<&str>,
    chain_hex_hint: Option<&str>,
) -> Option<(Seq<u8>, Seq<u8>, Seq<u8>, Seq<u8>)> {
    match (id, bulk_hex) {
        (Some(i), Some(h)) => {
            let tid = trimmed(i.spec_bytes());
            match parse_hex_spec(h.spec_bytes()) {
                Some(b) => if tid.len() == 0 || b.len() < 32 {
                    None
                } else {
                    Some((tid, lower(trimmed(text_or(variant, "mono"))), b, trimmed(text_or(chain_hex_hint, ""))))
                },
                None => None,
            }
        },
        _ => None,
    }
}

/// `str::trim` (std) as an owned string: the text without leading and trailing Unicode
/// `White_Space` characters.
#[verifier::external_body]
fn trimmed_string(s: &str) -> (r: String)
    ensures
        r@ == vstd::utf8::decode_utf8(trimmed(s.spec_bytes())),
{
    s.trim().to_string()
}

/// Assign entry of a catalogue record (see `usb_assign_entry_spec`).
pub fn usb_assign_entry_from_record(
    id: Option<&str>,
    variant: Option<&str>,
    bulk_hex: Option<&str>,
    chain_hex_hint: Option<&str>,
) -> (r: Option<UsbAssignEntry>)
    ensures
        match usb_assign_entry_spec(id, variant, bulk_hex, chain_hex_hint) {
            None => r is None,
            Some(t) => r matches Some(e) && e.id@ == t.0 && e.variant@ == t.1 && e.bulk@ == t.2
                && e.chain_hex_hint@ == vstd::utf8::decode_utf8(t.3),
        },
{
    let i = match id {
        Some(i) => i,
        None => return None,
    };
    let h = match bulk_hex {
        Some(h) => h,
        None => return None,
    };
    let tid = trimmed_bytes(i.as_bytes());
    let bulk = match parse_hex_bytes(h) {
        Some(b) => b,
        None => return None,
    };
    if tid.len() == 0 || bulk.len() < 32 {
        return None;
    }
    let v = key_bytes(match variant { Some(v) => v, None => "mono" }.as_bytes());
    let hint = trimmed_string(match chain_hex_hint { Some(c) => c, None => "" });
    Some(UsbAssignEntry { id: tid, variant: v, bulk, chain_hex_hint: hint })
}

/// Position of the first entry from `i` with id `id` and variant `v`, or -1.
pub open spec fn assign_pos(entries: Seq<UsbAssignEntry>, id: Seq<u8>, v: Seq<u8>, i: int) -> int
    decreases entries.len() - i,
{
    if i < 0 || i >= entries.len() {
        -1
    } else if entries[i].id@ == id && entries[i].variant@ == v {
        i
    } else {
        assign_pos(entries, id, v, i + 1)
    }
}

proof fn lemma_assign_pos(entries: Seq<UsbAssignEntry>, id: Seq<u8>, v: Seq<u8>, i: int)
    ensures
        assign_pos(entries, id, v, i) == -1 || (i <= assign_pos(entries, id, v, i) < entries.len()),
    decreases entries.len() - i,
{
    if 0 <= i < entries.len() && !(entries[i].id@ == id && entries[i].variant@ == v) {
        lemma_assign_pos(entries, id, v, i + 1);
    }
}

/// The entry of model id bytes `m` and variant bytes `v` (trimmed; the variant ASCII
/// lowercase): the first one that matches; none (-1) for an empty id.
pub open spec fn assign_lookup_bytes(entries: Seq<UsbAssignEntry>, m: Seq<u8>, v: Seq<u8>) -> int {
    let id = trimmed(m);
    if id.len() == 0 {
        -1
    } else {
        assign_pos(entries, id, lower(trimmed(v)), 0)
    }
}

/// `assign_lookup_bytes` on the texts `model_id` and `variant`.
pub open spec fn assign_lookup(entries: Seq<UsbAssignEntry>, model_id: &str, variant: &str) -> int {
    assign_lookup_bytes(entries, model_id.spec_bytes(), variant.spec_bytes())
}

proof fn lemma_assign_pos_first(entries: Seq<UsbAssignEntry>, id: Seq<u8>, v: Seq<u8>, i: int)
    requires
        0 <= i,
    ensures
        assign_pos(entries, id, v, i) == -1 ==> forall|k: int| i <= k < entries.len() ==> !(#[trigger] entries[k].id@
            == id && entries[k].variant@ == v),
        assign_pos(entries, id, v, i) != -1 ==> ({
            let p = assign_pos(entries, id, v, i);
            &&& i <= p < entries.len()
            &&& entries[p].id@ == id && entries[p].variant@ == v
            &&& forall|k: int| i <= k < p ==> !(#[trigger] entries[k].id@ == id && entries[k].variant@ == v)
        }),
    decreases entries.len() - i,
{
    if i < entries.len() && !(entries[i].id@ == id && entries[i].variant@ == v) {
        lemma_assign_pos_first(entries, id, v, i + 1);
    }
}

/// The assign entry found for a model id and variant is the first entry whose id is the
/// trimmed model id and whose variant is the trimmed, lowercased variant; none is found when
/// no entry matches or the model id is blank.
pub proof fn law_assign_lookup_takes_first_match(entries: Seq<UsbAssignEntry>, m: Seq<u8>, v: Seq<u8>)
    ensures
        ({
            let id = trimmed(m);
            let key = lower(trimmed(v));
            let p = assign_lookup_bytes(entries, m, v);
            &&& id.len() == 0 ==> p == -1
            &&& id.len() > 0 && p == -1 ==> forall|k: int| 0 <= k < entries.len() ==> !(#[trigger] entries[k].id@
                == id && entries[k].variant@ == key)
            &&& p != -1 ==> {
                &&& 0 <= p < entries.len()
                &&& entries[p].id@ == id && entries[p].variant@ == key
                &&& forall|k: int| 0 <= k < p ==> !(#[trigger] entries[k].id@ == id && entries[k].variant@ == key)
            }
        }),
{
    lemma_assign_pos_first(entries, trimmed(m), lower(trimmed(v)), 0);
}

fn find_assign(entries: &Vec<UsbAssignEntry>, model_id: &str, variant: &str) -> (r: Option<usize>)
    ensures
        match r {
            None => assign_lookup(entries@, model_id, variant) == -1,
            Some(k) => k as int == assign_lookup(entries@, model_id, variant) && k < entries@.len(),
        },
{
    let id = trimmed_bytes(model_id.as_bytes());
    if id.len() == 0 {
        return None;
    }
    let v = key_bytes(variant.as_bytes());
    proof { lemma_assign_pos(entries@, id@, v@, 0); }
    let mut k: usize = 0;
    while k < entries.len()
        invariant
            k <= entries@.len(),
            id@ == trimmed(model_id.spec_bytes()),
            id@.len() > 0,
            v@ == lower(trimmed(variant.spec_bytes())),
            assign_pos(entries@, id@, v@, 0) == assign_pos(entries@, id@, v@, k as int),
        decreases entries.len() - k,
    {
        if bytes_equal(entries[k].id.as_slice(), id.as_slice()) && bytes_equal(entries[k].variant.as_slice(), v.as_slice()) {
            assert(assign_pos(entries@, id@, v@, k as int) == k as int);
            return Some(k);
        }
        k = k + 1;
    }
    None
}

/// Full assign bulk of `model_id` + `variant` (`mono` | `stereo` | `legacy` …).
pub fn resolve_usb_assign_bulk(entries: &Vec<UsbAssignEntry>, model_id: &str, variant: &str) -> (r: Option<Vec<u8>>)
    ensures
        assign_lookup(entries@, model_id, variant) < 0 ==> r is None,
        assign_lookup(entries@, model_id, variant) >= 0 ==> (r matches Some(b)
            && b@ == entries@[assign_lookup(entries@, model_id, variant)].bulk@),
{
    match find_assign(entries, model_id, variant) {
        Some(k) => Some(crate::bytes::copy_bytes(&entries[k].bulk)),
        None => None,
    }
}

/// Catalogue `chainHexHint` of `model_id` + `variant`, trimmed; none when empty.
pub fn resolve_usb_assign_chain_hex_hint(entries: &Vec<UsbAssignEntry>, model_id: &str, variant: &str) -> (r: Option<String>)
    ensures
        assign_lookup(entries@, model_id, variant) < 0 ==> r is None,
        assign_lookup(entries@, model_id, variant) >= 0 ==> ({
            let h = vstd::utf8::decode_utf8(trimmed(vstd::utf8::encode_utf8(entries@[assign_lookup(entries@, model_id, variant)].chain_hex_hint@)));
            if h.len() == 0 { r is None } else { r matches Some(t) && t@ == h }
        }),
{
    match find_assign(entries, model_id, variant) {
        Some(k) => {
            let h = trimmed_string(entries[k].chain_hex_hint.as_str());
            if h.as_str().is_empty() { None } else { Some(h) }
        },
        None => None,
    }
}

/// Wire bytes before `1a` of the first `amp+cab-legacy` entry (from `i`) whose cab field is
/// `cab`; none as soon as a legacy entry has no cab field or no wire range.
pub open spec fn legacy_wire_from(entries: Seq<UsbAssignEntry>, cab: Seq<u8>, i: int) -> Option<Seq<u8>>
    decreases entries.len() - i,
{
    if i < 0 || i >= entries.len() {
        None
    } else if entries[i].variant@ != "amp+cab-legacy".spec_bytes() {
        legacy_wire_from(entries, cab, i + 1)
    } else {
        let b = entries[i].bulk@;
        match cab2_range_spec(b) {
            None => None,
            Some(r) => if b.subrange(r.0, r.1) != cab {
                legacy_wire_from(entries, cab, i + 1)
            } else {
                match cab1_range_spec(b) {
                    None => None,
                    Some(w) => Some(b.subrange(w.0, w.1)),
                }
            },
        }
    }
}

/// Wire before `1a` taken from a catalogue `amp+cab-legacy` entry that carries this cab.
pub fn legacy_amp_cab_wire_before_1a_for_cab_field(entries: &Vec<UsbAssignEntry>, cab_field: &[u8]) -> (r: Option<Vec<u8>>)
    ensures
        match legacy_wire_from(entries@, cab_field@, 0) {
            None => r is None,
            Some(w) => r matches Some(x) && x@ == w,
        },
{
    let mut i: usize = 0;
    while i < entries.len()
        invariant
            i <= entries@.len(),
            legacy_wire_from(entries@, cab_field@, 0) == legacy_wire_from(entries@, cab_field@, i as int),
        decreases entries.len() - i,
    {
        let e = &entries[i];
        if bytes_equal(e.variant.as_slice(), "amp+cab-legacy".as_bytes()) {
            proof {
                lemma_cab2_range_bounds(e.bulk@);
                lemma_cab1_range_bounds(e.bulk@);
            }
            let (cs, ce) = match cab_dual_cab2_field_range_in_bulk(e.bulk.as_slice()) {
                Some(p) => p,
                None => return None,
            };
            let field = crate::pull_frames::slice_range(e.bulk.as_slice(), cs, ce);
            if bytes_equal(field.as_slice(), cab_field) {
                let (ws, we) = match cab_dual_cab1_field_range_in_bulk(e.bulk.as_slice()) {
                    Some(p) => p,
                    None => return None,
                };
                return Some(crate::pull_frames::slice_range(e.bulk.as_slice(), ws, we));
            }
        }
        i = i + 1;
    }
    None
}

/// Text of a missing legacy wire.
pub open spec fn no_legacy_wire_text(cab: Seq<u8>) -> Seq<char> {
    "wire legacy avant 1a introuvable pour cab "@ + bytes_debug(cab) + " — aucune entrée amp+cab-legacy catalogue"@
}

/// Legacy replace: also puts the catalogue's wire before `1a` (e.g. `2c` → `23`) for the cab.
pub fn patch_amp_cab_bulk_legacy_cab_wire(entries: &Vec<UsbAssignEntry>, bulk: &mut Vec<u8>, cab_field: &[u8]) -> (r: Result<(), String>)
    ensures
        match legacy_wire_from(entries@, cab_field@, 0) {
            None => (r matches Err(e) && e@ == no_legacy_wire_text(cab_field@)) && final(bulk)@ == old(bulk)@,
            Some(w) => match cab1_range_spec(old(bulk)@) {
                None => (r matches Err(e) && e@ == "bulk ampli sans marqueur amp+cab (c319/1a)"@) && final(bulk)@ == old(bulk)@,
                Some(p) => r is Ok && final(bulk)@ == splice_spec(old(bulk)@, p.0, p.1, w),
            },
        },
{
    let wire = match legacy_amp_cab_wire_before_1a_for_cab_field(entries, cab_field) {
        Some(w) => w,
        None => {
            let mut e = crate::text::text_of("wire legacy avant 1a introuvable pour cab ");
            crate::text::push_bytes_debug(&mut e, cab_field);
            crate::text::string_push_str(&mut e, " — aucune entrée amp+cab-legacy catalogue");
            return Err(e);
        },
    };
    proof { lemma_cab1_range_bounds(bulk@); }
    let (ws, we) = match cab_dual_cab1_field_range_in_bulk(bulk.as_slice()) {
        Some(p) => p,
        None => return Err(crate::text::text_of("bulk ampli sans marqueur amp+cab (c319/1a)")),
    };
    splice_bytes(bulk, ws, we, wire.as_slice());
    Ok(())
}

/// Chars of the chain hint the catalogue gives for `model_id` + `variant` (trimmed), empty
/// when there is none.
pub open spec fn hint_chars(entries: Seq<UsbAssignEntry>, model_id: &str, variant: &str) -> Seq<char> {
    let k = assign_lookup(entries, model_id, variant);
    if k < 0 {
        Seq::empty()
    } else {
        vstd::utf8::decode_utf8(trimmed(vstd::utf8::encode_utf8(entries[k].chain_hex_hint@)))
    }
}

/// Cab field of an Amp+Cab replace: its length is the parent slot's cab field length. For the
/// legacy variant the catalogue hint of the cab is taken when its bytes have that length (a
/// three-byte hint on a one-byte compact slot is refused); else the module field after `c2:19`
/// of the cab bulk, when it has that length or the variant is `amp+cab`.
pub open spec fn cab_field_spec(
    entries: Seq<UsbAssignEntry>,
    parent: Seq<u8>,
    amp_variant: Seq<u8>,
    cab_model_id: &str,
    cab_variant: &str,
    cab_bulk: Seq<u8>,
) -> Result<Seq<u8>, Seq<char>> {
    match cab2_range_spec(parent) {
        None => Err("bulk ampli sans marqueur amp+cab (c319/1a)"@),
        Some(rg) => {
            let target = rg.1 - rg.0;
            let legacy = lower(amp_variant) == "amp+cab-legacy".spec_bytes();
            let h = hint_chars(entries, cab_model_id, cab_variant);
            let field = crate::cab_dual::legacy::wire::chain_hint_spec(trimmed(vstd::utf8::encode_utf8(h)));
            if legacy && h.len() > 0 && field is Some && field->0.len() == target {
                Ok(field->0)
            } else if legacy && h.len() > 0 && field is Some && target == 1 && field->0.len() == 3 {
                Err("cab legacy "@ + crate::text::str_debug(cab_model_id@) + " (hint "@ + h
                    + ") incompatible avec ampli compact legacy (cab 1 o) — choisir un cab hybrid court"@)
            } else {
                match crate::edit_slot_model::module_field_after_c219_spec(cab_bulk) {
                    None => Err("bulk cab sans bloc c219 exploitable ("@ + cab_model_id@ + ")"@),
                    Some(f) => if f.len() == target || lower(amp_variant) == "amp+cab".spec_bytes() {
                        Ok(f)
                    } else {
                        Err("cab "@ + crate::text::str_debug(cab_model_id@) + " : champ "@ + bytes_debug(f) + " ("@
                            + crate::text::decimal_of(f.len()) + " o) incompatible avec le slot parent ("@
                            + crate::text::decimal_of(target as nat) + " o)"@)
                    },
                }
            }
        },
    }
}

fn lower_equals_lit(b: &[u8], lit: &str) -> (r: bool)
    ensures
        r == (lower(b@) == lit.spec_bytes()),
{
    let k = crate::model_catalog::lower_bytes(b);
    bytes_equal(k.as_slice(), lit.as_bytes())
}

/// Cab field of an Amp+Cab replace (see `cab_field_spec`).
pub fn cab_field_bytes_for_amp_cab_replace(
    entries: &Vec<UsbAssignEntry>,
    parent_amp_bulk: &[u8],
    amp_cab_variant: &str,
    cab_model_id: &str,
    cab_variant: &str,
    cab_bulk: &[u8],
) -> (r: Result<Vec<u8>, String>)
    ensures
        match cab_field_spec(entries@, parent_amp_bulk@, amp_cab_variant.spec_bytes(), cab_model_id, cab_variant, cab_bulk@) {
            Ok(v) => r matches Ok(x) && x@ == v,
            Err(m) => r matches Err(e) && e@ == m,
        },
{
    proof { lemma_cab2_range_bounds(parent_amp_bulk@); }
    let target_len: usize = match cab_dual_cab2_field_range_in_bulk(parent_amp_bulk) {
        Some((start, end)) => end - start,
        None => return Err(crate::text::text_of("bulk ampli sans marqueur amp+cab (c319/1a)")),
    };
    if lower_equals_lit(amp_cab_variant.as_bytes(), "amp+cab-legacy") {
        match resolve_usb_assign_chain_hex_hint(entries, cab_model_id, cab_variant) {
            Some(hint) => {
                let hs = hint.as_str();
                match crate::cab_dual::legacy::wire::chain_hint_to_cab_field_bytes(hs) {
                    Some(field) => {
                        if field.len() == target_len {
                            return Ok(field);
                        }
                        if target_len == 1 && field.len() == 3 {
                            let mut e = crate::text::text_of("cab legacy ");
                            crate::text::push_str_debug(&mut e, cab_model_id);
                            crate::text::string_push_str(&mut e, " (hint ");
                            crate::text::string_push_str(&mut e, hs);
                            crate::text::string_push_str(&mut e, ") incompatible avec ampli compact legacy (cab 1 o) — choisir un cab hybrid court");
                            return Err(e);
                        }
                    },
                    None => {},
                }
            },
            None => {},
        }
    }
    let from_c219 = match crate::edit_slot_model::module_field_bytes_after_c219(cab_bulk) {
        Some(f) => f,
        None => {
            let mut e = crate::text::text_of("bulk cab sans bloc c219 exploitable (");
            crate::text::string_push_str(&mut e, cab_model_id);
            crate::text::string_push_str(&mut e, ")");
            return Err(e);
        },
    };
    if from_c219.len() == target_len || lower_equals_lit(amp_cab_variant.as_bytes(), "amp+cab") {
        return Ok(from_c219);
    }
    let mut e = crate::text::text_of("cab ");
    crate::text::push_str_debug(&mut e, cab_model_id);
    crate::text::string_push_str(&mut e, " : champ ");
    crate::text::push_bytes_debug(&mut e, from_c219.as_slice());
    crate::text::string_push_str(&mut e, " (");
    crate::text::push_decimal(&mut e, from_c219.len() as u64);
    crate::text::string_push_str(&mut e, " o) incompatible avec le slot parent (");
    crate::text::push_decimal(&mut e, target_len as u64);
    crate::text::string_push_str(&mut e, " o)");
    Err(e)
}

/// The amp variant of a replace: trimmed, ASCII lowercase.
pub open spec fn amp_variant_chars(amp_cab_variant: &str) -> Seq<char> {
    crate::text::chars_ascii_lower(vstd::utf8::decode_utf8(trimmed(amp_cab_variant.spec_bytes())))
}

/// Amp+Cab replace bulk: the amp's assign bulk (`amp+cab` or `amp+cab-legacy`) with the cab
/// field of the chosen cab (see `cab_field_spec`) in place of its own, and for the legacy
/// variant the catalogue's wire before `1a` for that cab.
pub open spec fn amp_cab_replace_spec(
    entries: Seq<UsbAssignEntry>,
    amp_model_id: &str,
    amp_cab_variant: &str,
    cab_model_id: &str,
    cab_variant: &str,
) -> Result<Seq<u8>, Seq<char>> {
    let av = amp_variant_chars(amp_cab_variant);
    let avb = vstd::utf8::encode_utf8(av);
    let legacy = avb == "amp+cab-legacy".spec_bytes();
    if avb != "amp+cab".spec_bytes() && !legacy {
        Err("variante ampli attendue amp+cab ou amp+cab-legacy, reçu "@ + crate::text::str_debug(amp_cab_variant@))
    } else {
        let ka = assign_lookup_bytes(entries, amp_model_id.spec_bytes(), avb);
        let kc = assign_lookup_bytes(entries, cab_model_id.spec_bytes(), trimmed(cab_variant.spec_bytes()));
        if ka < 0 {
            Err("Pas d'entrée HX_ModelUsbAssign pour ampli "@ + crate::text::str_debug(amp_model_id@) + " variant "@
                + crate::text::str_debug(av))
        } else if kc < 0 {
            Err("Pas d'entrée HX_ModelUsbAssign pour cab "@ + crate::text::str_debug(cab_model_id@) + " variant "@
                + crate::text::str_debug(cab_variant@))
        } else {
            let bulk = entries[ka].bulk@;
            match cab_field_spec(entries, bulk, avb, cab_model_id, cab_variant, entries[kc].bulk@) {
                Err(m) => Err(m),
                Ok(f) => if f.len() == 0 {
                    Err("champ cab vide"@)
                } else {
                    match cab2_range_spec(bulk) {
                        None => Err("marqueur amp+cab (c319/1a) introuvable"@),
                        Some(p) => {
                            let b2 = splice_spec(bulk, p.0, p.1, f);
                            if !legacy {
                                Ok(b2)
                            } else {
                                match legacy_wire_from(entries, f, 0) {
                                    None => Err(no_legacy_wire_text(f)),
                                    Some(w) => match cab1_range_spec(b2) {
                                        None => Err("bulk ampli sans marqueur amp+cab (c319/1a)"@),
                                        Some(q) => Ok(splice_spec(b2, q.0, q.1, w)),
                                    },
                                }
                            }
                        },
                    }
                },
            }
        }
    }
}

fn debug_text(prefix: &str, a: &str, mid: &str, b: &str) -> (r: String)
    ensures
        r@ == prefix@ + crate::text::str_debug(a@) + mid@ + crate::text::str_debug(b@),
{
    let mut e = crate::text::text_of(prefix);
    crate::text::push_str_debug(&mut e, a);
    crate::text::string_push_str(&mut e, mid);
    crate::text::push_str_debug(&mut e, b);
    e
}

/// Amp+Cab replace bulk (see `amp_cab_replace_spec`).
#[verifier::rlimit(40)]
pub fn build_amp_cab_replace_cab_bulk(
    entries: &Vec<UsbAssignEntry>,
    amp_model_id: &str,
    amp_cab_variant: &str,
    cab_model_id: &str,
    cab_variant: &str,
) -> (r: Result<Vec<u8>, String>)
    ensures
        match amp_cab_replace_spec(entries@, amp_model_id, amp_cab_variant, cab_model_id, cab_variant) {
            Ok(v) => r matches Ok(x) && x@ == v,
            Err(m) => r matches Err(e) && e@ == m,
        },
{
    let t = crate::model_catalog::str_trim(amp_cab_variant);
    let amp_v = crate::text::ascii_lowercase_string(t);
    proof {
        broadcast use vstd::utf8::encode_utf8_decode_utf8;
        assert(vstd::utf8::decode_utf8(t.spec_bytes()) == t@);
    }
    let avs = amp_v.as_str();
    let avb = avs.as_bytes();
    let legacy = bytes_equal(avb, "amp+cab-legacy".as_bytes());
    if !bytes_equal(avb, "amp+cab".as_bytes()) && !legacy {
        let mut e = crate::text::text_of("variante ampli attendue amp+cab ou amp+cab-legacy, reçu ");
        crate::text::push_str_debug(&mut e, amp_cab_variant);
        return Err(e);
    }
    let mut bulk = match resolve_usb_assign_bulk(entries, amp_model_id, avs) {
        Some(b) => b,
        None => return Err(debug_text("Pas d'entrée HX_ModelUsbAssign pour ampli ", amp_model_id, " variant ", avs)),
    };
    let cv = crate::model_catalog::str_trim(cab_variant);
    let cab_bulk = match resolve_usb_assign_bulk(entries, cab_model_id, cv) {
        Some(b) => b,
        None => return Err(debug_text("Pas d'entrée HX_ModelUsbAssign pour cab ", cab_model_id, " variant ", cab_variant)),
    };
    let cab_field = match cab_field_bytes_for_amp_cab_replace(entries, bulk.as_slice(), avs, cab_model_id, cab_variant, cab_bulk.as_slice()) {
        Ok(f) => f,
        Err(e) => return Err(e),
    };
    match crate::edit_slot_model::patch_amp_cab_bulk_cab_field(&mut bulk, cab_field.as_slice()) {
        Ok(()) => {},
        Err(e) => return Err(e),
    }
    if legacy {
        match patch_amp_cab_bulk_legacy_cab_wire(entries, &mut bulk, cab_field.as_slice()) {
            Ok(()) => {},
            Err(e) => return Err(e),
        }
    }
    Ok(bulk)
}

} // verus!
