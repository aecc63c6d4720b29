//! Cab fields of assign/replace bulks: the module bytes after the `c2:19` marker of a single
//! cab, and the `<cab1> 1a <cab2>` fields after the `c3:19` marker of an Amp+Cab or dual cab
//! bulk, with the patches that replace them.
use vstd::prelude::*;
use crate::bytes::{append_bytes, hi8, hi_byte, lo8, lo_byte, wadd16, wadd8};
use crate::packet::{contains_window4, has_window4};
use crate::state::{Counters, HelixState};

verus! {

/// Marker of an Amp+Cab / dual cab bulk.
pub const AMP_CAB_BULK_MARKER: [u8; 2] = [0xc3, 0x19];

/// Marker of a single cab bulk.
pub const C219_BULK_MARKER: [u8; 2] = [0xc2, 0x19];

/// First index `k >= i` with `s[k] == a` and `s[k + 1] == b`, or `-1`.
pub open spec fn first_pair_from(s: Seq<u8>, a: u8, b: u8, i: int) -> int
    decreases s.len() - i,
{
    if i < 0 || i + 1 >= s.len() {
        -1
    } else if s[i] == a && s[i + 1] == b {
        i
    } else {
        first_pair_from(s, a, b, i + 1)
    }
}

/// First index `k >= i` with `s[k] == b`, or `-1`.
pub open spec fn first_byte_from(s: Seq<u8>, b: u8, i: int) -> int
    decreases s.len() - i,
{
    if i < 0 || i >= s.len() {
        -1
    } else if s[i] == b {
        i
    } else {
        first_byte_from(s, b, i + 1)
    }
}

proof fn lemma_first_pair_bounds(s: Seq<u8>, a: u8, b: u8, i: int)
    ensures
        first_pair_from(s, a, b, i) == -1 || (i <= first_pair_from(s, a, b, i) && first_pair_from(s, a, b, i) + 1 < s.len()),
    decreases s.len() - i,
{
    if !(i < 0 || i + 1 >= s.len()) && !(s[i] == a && s[i + 1] == b) {
        lemma_first_pair_bounds(s, a, b, i + 1);
    }
}

proof fn lemma_first_byte_bounds(s: Seq<u8>, b: u8, i: int)
    ensures
        first_byte_from(s, b, i) == -1 || (i <= first_byte_from(s, b, i) && first_byte_from(s, b, i) < s.len()),
    decreases s.len() - i,
{
    if !(i < 0 || i >= s.len()) && s[i] != b {
        lemma_first_byte_bounds(s, b, i + 1);
    }
}

/// Finds the first `a b` pair at or after `from`.
pub fn find_pair_from(s: &[u8], a: u8, b: u8, from: usize) -> (r: Option<usize>)
    ensures
        r matches Some(k) ==> k as int == first_pair_from(s@, a, b, from as int) && k + 1 < s@.len(),
        r is None ==> first_pair_from(s@, a, b, from as int) == -1,
{
    if s.len() < 2 {
        return None;
    }
    let last = s.len() - 1;
    let mut i = from;
    proof { lemma_first_pair_bounds(s@, a, b, from as int); }
    while i < last
        invariant
            last + 1 == s@.len(),
            from <= i,
            first_pair_from(s@, a, b, from as int) == first_pair_from(s@, a, b, i as int),
        decreases s.len() - i,
    {
        if s[i] == a && s[i + 1] == b {
            return Some(i);
        }
        i = i + 1;
    }
    None
}

/// Finds the first byte `b` at or after `from`.
pub fn find_byte_from(s: &[u8], b: u8, from: usize) -> (r: Option<usize>)
    ensures
        r matches Some(k) ==> k as int == first_byte_from(s@, b, from as int) && k < s@.len(),
        r is None ==> first_byte_from(s@, b, from as int) == -1,
{
    let mut i = from;
    while i < s.len()
        invariant
            from <= i,
            first_byte_from(s@, b, from as int) == first_byte_from(s@, b, i as int),
        decreases s.len() - i,
    {
        if s[i] == b {
            return Some(i);
        }
        i = i + 1;
    }
    None
}

/// Module bytes after the first `c2:19`, up to the next `1a` (or the end); none when empty.
pub open spec fn module_field_after_c219_spec(s: Seq<u8>) -> Option<Seq<u8>> {
    let p = first_pair_from(s, 0xc2, 0x19, 0);
    if p < 0 {
        None
    } else {
        let start = p + 2;
        let e = first_byte_from(s, 0x1a, start);
        let end = if e < 0 { s.len() as int } else { e };
        if end == start { None } else { Some(s.subrange(start, end)) }
    }
}

/// Module field (`<hex…>`) after a `c2:19` marker of a single / legacy cab bulk.
pub fn module_field_bytes_after_c219(bulk: &[u8]) -> (r: Option<Vec<u8>>)
    ensures
        match module_field_after_c219_spec(bulk@) {
            None => r is None,
            Some(f) => r matches Some(v) && v@ == f,
        },
{
    proof { lemma_first_pair_bounds(bulk@, 0xc2, 0x19, 0); }
    let p = match find_pair_from(bulk, 0xc2, 0x19, 0) {
        Some(p) => p,
        None => return None,
    };
    let len: usize = bulk.len();
    assert(p + 2 <= len);
    let start = p + 2;
    proof { lemma_first_byte_bounds(bulk@, 0x1a, start as int); }
    let end = match find_byte_from(bulk, 0x1a, start) {
        Some(e) => e,
        None => bulk.len(),
    };
    if end == start {
        return None;
    }
    Some(crate::pull_frames::slice_range(bulk, start, end))
}

/// Cab 1 field `[start, end)` after `c3:19`, before the next `1a` (none when empty or without
/// a `1a`); it is also the amp wire before `1a` of an Amp+Cab bulk.
pub open spec fn cab1_range_spec(s: Seq<u8>) -> Option<(int, int)> {
    let p = first_pair_from(s, 0xc3, 0x19, 0);
    if p < 0 {
        None
    } else {
        let cursor = p + 2;
        let sep = first_byte_from(s, 0x1a, cursor);
        if sep < 0 || sep <= cursor { None } else { Some((cursor, sep)) }
    }
}

/// Cab 2 field after `c3:19 … 1a`: up to the next `09`; else 3 bytes from a `cd`; none from a
/// `00`; else one byte.
pub open spec fn cab2_range_spec(s: Seq<u8>) -> Option<(int, int)> {
    let p = first_pair_from(s, 0xc3, 0x19, 0);
    if p < 0 {
        None
    } else {
        let sep = first_byte_from(s, 0x1a, p + 2);
        if sep < 0 {
            None
        } else {
            let cab_start = sep + 1;
            if cab_start >= s.len() {
                None
            } else {
                let p9 = first_byte_from(s, 0x09, cab_start);
                if p9 >= 0 {
                    if p9 <= cab_start { None } else { Some((cab_start, p9)) }
                } else if s[cab_start] == 0xcd && s.len() - cab_start >= 3 {
                    Some((cab_start, cab_start + 3))
                } else if s[cab_start] == 0x00 {
                    None
                } else {
                    Some((cab_start, cab_start + 1))
                }
            }
        }
    }
}

/// Bounds of the first cab (`<cab1> 1a <cab2>`) of a dual cab bulk.
pub fn cab_dual_cab1_field_range_in_bulk(bulk: &[u8]) -> (r: Option<(usize, usize)>)
    ensures
        match cab1_range_spec(bulk@) {
            None => r is None,
            Some(p) => r matches Some(q) && q.0 as int == p.0 && q.1 as int == p.1,
        },
{
    proof { lemma_first_pair_bounds(bulk@, 0xc3, 0x19, 0); }
    let p = match find_pair_from(bulk, 0xc3, 0x19, 0) {
        Some(p) => p,
        None => return None,
    };
    let len: usize = bulk.len();
    assert(p + 2 <= len);
    let cursor = p + 2;
    proof { lemma_first_byte_bounds(bulk@, 0x1a, cursor as int); }
    let sep = match find_byte_from(bulk, 0x1a, cursor) {
        Some(e) => e,
        None => return None,
    };
    if sep <= cursor {
        return None;
    }
    Some((cursor, sep))
}

/// Bounds of the cab 2 field (`… 1a <cab2> …`) of a dual cab / Amp+Cab bulk.
pub fn cab_dual_cab2_field_range_in_bulk(bulk: &[u8]) -> (r: Option<(usize, usize)>)
    ensures
        match cab2_range_spec(bulk@) {
            None => r is None,
            Some(p) => r matches Some(q) && q.0 as int == p.0 && q.1 as int == p.1,
        },
{
    proof { lemma_first_pair_bounds(bulk@, 0xc3, 0x19, 0); }
    let p = match find_pair_from(bulk, 0xc3, 0x19, 0) {
        Some(p) => p,
        None => return None,
    };
    let len: usize = bulk.len();
    assert(p + 2 <= len);
    proof { lemma_first_byte_bounds(bulk@, 0x1a, p + 2); }
    let sep = match find_byte_from(bulk, 0x1a, p + 2) {
        Some(e) => e,
        None => return None,
    };
    let cab_start = sep + 1;
    if cab_start >= bulk.len() {
        return None;
    }
    proof { lemma_first_byte_bounds(bulk@, 0x09, cab_start as int); }
    let cab_end = match find_byte_from(bulk, 0x09, cab_start) {
        Some(p9) => p9,
        None => {
            if bulk[cab_start] == 0xcd && bulk.len() - cab_start >= 3 {
                cab_start + 3
            } else if bulk[cab_start] == 0x00 {
                return None;
            } else {
                cab_start + 1
            }
        },
    };
    if cab_end <= cab_start {
        return None;
    }
    Some((cab_start, cab_end))
}

/// `s` with `[start, end)` replaced by `new`.
pub open spec fn splice_spec(s: Seq<u8>, start: int, end: int, new: Seq<u8>) -> Seq<u8> {
    s.subrange(0, start) + new + s.subrange(end, s.len() as int)
}

/// Replaces `bulk[start..end]` by `new`.
pub fn splice_bytes(bulk: &mut Vec<u8>, start: usize, end: usize, new: &[u8])
    requires
        start <= end <= old(bulk)@.len(),
    ensures
        final(bulk)@ == splice_spec(old(bulk)@, start as int, end as int, new@),
{
    let mut out: Vec<u8> = Vec::new();
    let head = crate::pull_frames::slice_range(bulk.as_slice(), 0, start);
    let tail = crate::pull_frames::slice_range(bulk.as_slice(), end, bulk.len());
    append_bytes(&mut out, head.as_slice());
    append_bytes(&mut out, new);
    append_bytes(&mut out, tail.as_slice());
    *bulk = out;
}

/// Replaces the cab field (`… 1a <cab> …`) of an Amp+Cab bulk. Fails on an empty field or a
/// bulk without the marker.
pub fn patch_amp_cab_bulk_cab_field(bulk: &mut Vec<u8>, new_cab: &[u8]) -> (r: Result<(), String>)
    ensures
        new_cab@.len() == 0 ==> (r matches Err(e) && e@ == "champ cab vide"@) && final(bulk)@ == old(bulk)@,
        new_cab@.len() > 0 && cab2_range_spec(old(bulk)@) is None ==> (r matches Err(e)
            && e@ == "marqueur amp+cab (c319/1a) introuvable"@) && final(bulk)@ == old(bulk)@,
        cab2_range_spec(old(bulk)@) matches Some(p) ==> (new_cab@.len() > 0 ==> r is Ok && final(bulk)@
            == splice_spec(old(bulk)@, p.0, p.1, new_cab@)),
{
    if new_cab.len() == 0 {
        return Err(crate::text::text_of("champ cab vide"));
    }
    let (start, end) = match cab_dual_cab2_field_range_in_bulk(bulk.as_slice()) {
        Some(p) => p,
        None => return Err(crate::text::text_of("marqueur amp+cab (c319/1a) introuvable")),
    };
    proof { lemma_cab2_range_bounds(old(bulk)@); }
    splice_bytes(bulk, start, end, new_cab);
    Ok(())
}

pub proof fn lemma_cab2_range_bounds(s: Seq<u8>)
    ensures
        cab2_range_spec(s) matches Some(p) ==> 0 <= p.0 < p.1 <= s.len(),
{
    lemma_first_pair_bounds(s, 0xc3, 0x19, 0);
    let p = first_pair_from(s, 0xc3, 0x19, 0);
    if p >= 0 {
        lemma_first_byte_bounds(s, 0x1a, p + 2);
        let sep = first_byte_from(s, 0x1a, p + 2);
        if sep >= 0 {
            lemma_first_byte_bounds(s, 0x09, sep + 1);
        }
    }
}

pub proof fn lemma_cab1_range_bounds(s: Seq<u8>)
    ensures
        cab1_range_spec(s) matches Some(p) ==> 0 <= p.0 < p.1 <= s.len(),
{
    lemma_first_pair_bounds(s, 0xc3, 0x19, 0);
    let p = first_pair_from(s, 0xc3, 0x19, 0);
    if p >= 0 {
        lemma_first_byte_bounds(s, 0x1a, p + 2);
    }
}

/// Patching cab 2 of a dual cab bulk leaves cab 1 untouched: the cab 1 field ends before
/// the cab 2 field starts, and its bytes are the same after the splice.
pub proof fn law_cab2_patch_keeps_cab1(bulk: Seq<u8>, new_cab: Seq<u8>)
    requires
        cab1_range_spec(bulk) is Some,
        cab2_range_spec(bulk) is Some,
    ensures
        ({
            let c1 = cab1_range_spec(bulk)->0;
            let c2 = cab2_range_spec(bulk)->0;
            &&& c1.1 < c2.0
            &&& splice_spec(bulk, c2.0, c2.1, new_cab).subrange(c1.0, c1.1) == bulk.subrange(c1.0, c1.1)
        }),
{
    lemma_cab1_range_bounds(bulk);
    lemma_cab2_range_bounds(bulk);
    let c1 = cab1_range_spec(bulk)->0;
    let c2 = cab2_range_spec(bulk)->0;
    let out = splice_spec(bulk, c2.0, c2.1, new_cab);
    assert(out.subrange(c1.0, c1.1) =~= bulk.subrange(c1.0, c1.1));
}

/// Replaces cab `cab_index` (0 or 1) of a dual cab bulk. Fails on an empty field, another
/// index or a bulk without the marker.
pub fn patch_cab_dual_bulk_cab_field(bulk: &mut Vec<u8>, cab_index: u8, new_cab: &[u8]) -> (r: Result<(), String>)
    ensures
        ({
            let range = if cab_index == 0 {
                cab1_range_spec(old(bulk)@)
            } else if cab_index == 1 {
                cab2_range_spec(old(bulk)@)
            } else {
                None
            };
            &&& new_cab@.len() == 0 ==> (r matches Err(e) && e@ == "champ cab vide"@) && final(bulk)@ == old(bulk)@
            &&& new_cab@.len() > 0 && range is None ==> r is Err && final(bulk)@ == old(bulk)@
            &&& range matches Some(p) ==> (new_cab@.len() > 0 ==> r is Ok && final(bulk)@ == splice_spec(old(bulk)@, p.0, p.1, new_cab@))
        }),
{
    if new_cab.len() == 0 {
        return Err(crate::text::text_of("champ cab vide"));
    }
    let range = if cab_index == 0 {
        cab_dual_cab1_field_range_in_bulk(bulk.as_slice())
    } else if cab_index == 1 {
        cab_dual_cab2_field_range_in_bulk(bulk.as_slice())
    } else {
        None
    };
    let (start, end) = match range {
        Some(p) => p,
        None => {
            let mut e = crate::text::text_of("marqueur cab dual (c319/1a) introuvable pour cab ");
            crate::text::push_decimal(&mut e, cab_index as u64);
            return Err(e);
        },
    };
    proof {
        lemma_cab1_range_bounds(old(bulk)@);
        lemma_cab2_range_bounds(old(bulk)@);
    }
    splice_bytes(bulk, start, end, new_cab);
    Ok(())
}

/// Position of the first `83 66 cd 0a` below `len - 4`, or `-1`.
pub open spec fn first_cd0a_from(s: Seq<u8>, i: int) -> int
    decreases s.len() - i,
{
    if i < 0 || i >= s.len() - 4 {
        -1
    } else if s[i] == 0x83 && s[i + 1] == 0x66 && s[i + 2] == 0xcd && s[i + 3] == 0x0a {
        i
    } else {
        first_cd0a_from(s, i + 1)
    }
}

/// The bulk with its first `83:66:cd:0a` moved to `cd:04`.
pub open spec fn reframe_cd0a_spec(s: Seq<u8>) -> Seq<u8> {
    let k = first_cd0a_from(s, 0);
    if k < 0 { s } else { s.update(k + 3, 0x04) }
}

/// On an occupied slot: the first `83:66:cd:0a` of the bulk becomes `cd:04`.
pub fn reframe_cab_dual_bulk_cd0a_to_cd04_for_replace(bulk: &mut Vec<u8>)
    ensures
        final(bulk)@ == reframe_cd0a_spec(old(bulk)@),
{
    let n: usize = if bulk.len() >= 4 { bulk.len() - 4 } else { 0 };
    let mut i: usize = 0;
    while i < n
        invariant
            bulk@ == old(bulk)@,
            n == (if bulk@.len() >= 4 { bulk@.len() - 4 } else { 0 }),
            n == 0 || n + 4 == bulk.len(),
            0 <= i <= n,
            first_cd0a_from(bulk@, 0) == first_cd0a_from(bulk@, i as int),
        decreases n - i,
    {
        if bulk[i] == 0x83 && bulk[i + 1] == 0x66 && bulk[i + 2] == 0xcd && bulk[i + 3] == 0x0a {
            bulk.set(i + 3, 0x04);
            return;
        }
        i = i + 1;
    }
}

/// Probe operation on a slot (slot target = byte `82 62 **bus**` of the bulk).
#[derive(PartialEq, Eq, Structural, Clone, Copy, Debug)]
pub enum SlotModelProbeOp {
    /// Empty slot: `80 10 ed 03` family (add model).
    AddToEmpty,
    /// Occupied slot: `80:10` sequence with a 48-byte `83:66:cd:04` bulk.
    ReplaceOccupied,
    /// Occupied slot: model removal (36-byte bulk).
    RemoveFromOccupied,
}

/// Add model bulk (56 bytes).
pub const ADD_MODEL_BULK_TEMPLATE: [u8; 56] = [
    0x2f, 0x00, 0x00, 0x18, 0x80, 0x10, 0xed, 0x03, 0x00, 0x83, 0x00, 0x04, 0xcc, 0x2a, 0x00, 0x00,
    0x01, 0x00, 0x06, 0x00, 0x1f, 0x00, 0x00, 0x00, 0x83, 0x66, 0xcd, 0x03, 0xfb, 0x64, 0x27, 0x65,
    0x82, 0x62, 0x04, 0x63, 0x82, 0x13, 0x06, 0x14, 0x83, 0x18, 0x83, 0x17, 0xc2, 0x19, 0xcd, 0x01,
    0xfe, 0x1a, 0xff, 0x09, 0x01, 0x0a, 0xc3, 0x00,
];

/// Model assign bulk on an occupied slot (48 bytes, body `cd:01:fe`).
pub const REPLACE_MODEL_BULK48_CD04_TEMPLATE: [u8; 48] = [
    0x25, 0x00, 0x00, 0x18, 0x80, 0x10, 0xed, 0x03, 0x00, 0xd1, 0x00, 0x04, 0x8f, 0x35, 0x00, 0x00,
    0x01, 0x00, 0x06, 0x00, 0x15, 0x00, 0x00, 0x00, 0x83, 0x66, 0xcd, 0x04, 0x00, 0x64, 0x28, 0x65,
    0x82, 0x62, 0x01, 0x64, 0x83, 0x17, 0xc2, 0x19, 0xcd, 0x01, 0xfe, 0x1a, 0xff, 0x00, 0x00, 0x00,
];

/// Remove model bulk (36 bytes).
pub const REMOVE_MODEL_BULK36_CD03_TEMPLATE: [u8; 36] = [
    0x1b, 0x00, 0x00, 0x18, 0x80, 0x10, 0xed, 0x03, 0x00, 0x5c, 0x00, 0x04, 0xbb, 0x2a, 0x00, 0x00,
    0x01, 0x00, 0x06, 0x00, 0x0b, 0x00, 0x00, 0x00, 0x83, 0x66, 0xcd, 0x03, 0xfa, 0x64, 0x1c, 0x65,
    0x81, 0x62, 0x04, 0x00,
];

/// Dual cab create bulk (head `31`, 60 bytes): the full create segment `82 13 06 14 83 18` and
/// trailer `09 20 0a c3`; cab 1 (the dual's identity) is patched in, cab 2 stays `cd 02 d6`.
pub const CAB_DUAL_CREATE_BULK60_HEAD31_TEMPLATE: [u8; 60] = [
    0x31, 0x00, 0x00, 0x18, 0x80, 0x10, 0xed, 0x03, 0x00, 0x24, 0x00, 0x04, 0xff, 0x1b, 0x00, 0x00,
    0x01, 0x00, 0x06, 0x00, 0x21, 0x00, 0x00, 0x00, 0x83, 0x66, 0xcd, 0x03, 0xf1, 0x64, 0x27, 0x65,
    0x82, 0x62, 0x01, 0x63, 0x82, 0x13, 0x06, 0x14, 0x83, 0x18, 0x83, 0x17, 0xc3, 0x19, 0xcd, 0x03,
    0x1c, 0x1a, 0xcd, 0x02, 0xd6, 0x09, 0x20, 0x0a, 0xc3, 0x00, 0x00, 0x00,
];

/// Create segment inserted before `83 17` in a legacy amp+cab create bulk.
pub const AMP_CAB_LEGACY_CREATE_SEGMENT: [u8; 6] = [0x82, 0x13, 0x06, 0x14, 0x83, 0x18];

/// Trailer after the cab field of a legacy amp+cab create bulk.
pub const AMP_CAB_LEGACY_CREATE_TRAILER: [u8; 7] = [0x09, 0x12, 0x0a, 0xc3, 0x00, 0x00, 0x00];

/// Captured "change model" replace bulk (44 bytes, `03:10`, `83:66:cd:03`, slot bus `0x04`),
/// kept as a reference for probing the replace sequence.
pub const CHANGE_MODEL_HXEDIT_REPLACE_TEST_BULK: [u8; 44] = [
    0x23, 0x00, 0x00, 0x18, 0x03, 0x10, 0xed, 0x03, 0x00, 0x55, 0x00, 0x04, 0x48, 0x2a, 0x00, 0x00,
    0x01, 0x00, 0x06, 0x00, 0x13, 0x00, 0x00, 0x00, 0x83, 0x66, 0xcd, 0x03, 0xf6, 0x64, 0x28, 0x65,
    0x82, 0x62, 0x04, 0x64, 0x83, 0x17, 0xc2, 0x19, 0x64, 0x1a, 0xff, 0x00,
];

/// The captured "change model" replace bulk.
pub fn change_model_hxedit_replace_test_bulk() -> (r: Vec<u8>)
    ensures
        r@ == CHANGE_MODEL_HXEDIT_REPLACE_TEST_BULK@,
{
    let mut v: Vec<u8> = Vec::new();
    append_bytes(&mut v, &CHANGE_MODEL_HXEDIT_REPLACE_TEST_BULK);
    v
}

/// Minimum length of a catalog chain patched into a bulk (a short module id is not one).
pub const MIN_CATALOG_CHAIN_USB_PATCH_LEN: usize = 12;

/// 16-byte `ed:03` short frame with opcode bytes `op` (bytes 4-7).
pub open spec fn short16(op: Seq<u8>, b11: u8, seq_x80: u8, ctr: u16) -> Seq<u8> {
    seq![0x08u8, 0x00, 0x00, 0x18, op[0], op[1], op[2], op[3], 0x00, seq_x80, 0x00, b11, lo8(ctr), hi8(ctr), 0x00, 0x00]
}

fn patch_short_ed03_16(op: [u8; 4], byte11: u8, seq_x80: u8, ctr: u16) -> (r: Vec<u8>)
    ensures
        r@ == short16(op@, byte11, seq_x80, ctr),
{
    let r = vec![0x08, 0x00, 0x00, 0x18, op[0], op[1], op[2], op[3], 0x00, seq_x80, 0x00, byte11, lo_byte(ctr), hi_byte(ctr), 0x00, 0x00];
    assert(r@ =~= short16(op@, byte11, seq_x80, ctr));
    r
}

/// Bulk header with its x80 counter (byte 9) and live write counter (bytes 12-13).
pub open spec fn header_counters_spec(b: Seq<u8>, seq_x80: u8, ctr: u16) -> Seq<u8> {
    if b.len() >= 14 { b.update(9, seq_x80).update(12, lo8(ctr)).update(13, hi8(ctr)) } else { b }
}

fn patch_bulk_header_counters(buf: &mut Vec<u8>, seq_x80: u8, ctr: u16)
    ensures
        final(buf)@ == header_counters_spec(old(buf)@, seq_x80, ctr),
{
    if buf.len() >= 14 {
        buf.set(9, seq_x80);
        buf.set(12, lo_byte(ctr));
        buf.set(13, hi_byte(ctr));
    }
}

/// Bulk with only its x80 counter (byte 9) set: bytes 12-15 keep the captured model identity.
pub open spec fn header_seq_spec(b: Seq<u8>, seq_x80: u8) -> Seq<u8> {
    if b.len() > 9 { b.update(9, seq_x80) } else { b }
}

fn patch_bulk_header_seq_x80_only(buf: &mut Vec<u8>, seq_x80: u8)
    ensures
        final(buf)@ == header_seq_spec(old(buf)@, seq_x80),
{
    if buf.len() > 9 {
        buf.set(9, seq_x80);
    }
}

/// First `i >= from` with `82 62` or `81 62` at `i` and a byte after (`i + 2 < len`), or -1.
pub open spec fn first_bus_marker(b: Seq<u8>, from: int) -> int
    decreases b.len() - from,
{
    if from < 0 || from + 2 >= b.len() {
        -1
    } else if (b[from] == 0x82 || b[from] == 0x81) && b[from + 1] == 0x62 {
        from
    } else {
        first_bus_marker(b, from + 1)
    }
}

/// Bulk with its slot bus set: the byte after the first `82 62` / `81 62`, else byte 34.
pub open spec fn slot_bus_spec(b: Seq<u8>, bus: u8) -> Seq<u8> {
    let k = first_bus_marker(b, 0);
    if k >= 0 {
        b.update(k + 2, bus)
    } else if b.len() > 34 {
        b.update(34, bus)
    } else {
        b
    }
}

pub(crate) proof fn lemma_first_bus_marker(b: Seq<u8>, from: int)
    ensures
        first_bus_marker(b, from) == -1 || (from <= first_bus_marker(b, from) && first_bus_marker(b, from) + 2 < b.len()),
    decreases b.len() - from,
{
    if !(from < 0 || from + 2 >= b.len()) && !((b[from] == 0x82 || b[from] == 0x81) && b[from + 1] == 0x62) {
        lemma_first_bus_marker(b, from + 1);
    }
}

fn patch_slot_bus_in_bulk(buf: &mut Vec<u8>, slot_bus: u8)
    ensures
        final(buf)@ == slot_bus_spec(old(buf)@, slot_bus),
{
    let len: usize = buf.len();
    let lim: usize = if len >= 2 { len - 2 } else { 0 };
    let mut i: usize = 0;
    proof { lemma_first_bus_marker(buf@, 0); }
    while i < lim
        invariant
            buf@ == old(buf)@,
            len == buf@.len(),
            lim == (if len >= 2 { len - 2 } else { 0 }),
            i <= lim || lim == 0,
            first_bus_marker(buf@, 0) == first_bus_marker(buf@, i as int),
        decreases len - i,
    {
        if (buf[i] == 0x82 || buf[i] == 0x81) && buf[i + 1] == 0x62 {
            buf.set(i + 2, slot_bus);
            return;
        }
        i = i + 1;
    }
    if len > 34 {
        buf.set(34, slot_bus);
    }
}

/// First `i >= from` with `i + 5 < len` and `83 66 cd` then `03` or `04` at `i`, or -1 (when
/// `code` is 0) ; `83 66 cd 08` when `code` is 8.
pub open spec fn first_cd_lane(b: Seq<u8>, from: int, code: u8) -> int
    decreases b.len() - from,
{
    if from < 0 || from + 5 >= b.len() {
        -1
    } else if b[from] == 0x83 && b[from + 1] == 0x66 && b[from + 2] == 0xcd && (if code == 8 {
        b[from + 3] == 0x08
    } else {
        b[from + 3] == 0x04 || b[from + 3] == 0x03
    }) {
        from
    } else {
        first_cd_lane(b, from + 1, code)
    }
}

proof fn lemma_first_cd_lane(b: Seq<u8>, from: int, code: u8)
    ensures
        first_cd_lane(b, from, code) == -1 || (from <= first_cd_lane(b, from, code) && first_cd_lane(b, from, code) + 5 < b.len()),
    decreases b.len() - from,
{
    if !(from < 0 || from + 5 >= b.len()) {
        lemma_first_cd_lane(b, from + 1, code);
    }
}

/// Offset of the lane byte after `83 66 cd 03|04`.
pub open spec fn cd_lane_offset_spec(b: Seq<u8>) -> Option<int> {
    let k = first_cd_lane(b, 0, 0);
    if k >= 0 { Some(k + 4) } else { None }
}

/// Offset of the session tag after `83 66 cd 08`.
pub open spec fn cd08_tag_offset_spec(b: Seq<u8>) -> Option<int> {
    let k = first_cd_lane(b, 0, 8);
    if k >= 0 { Some(k + 4) } else { None }
}

fn find_cd_lane(bulk: &Vec<u8>, code: u8) -> (r: Option<usize>)
    ensures
        match r {
            Some(i) => i as int == first_cd_lane(bulk@, 0, code) && i + 5 < bulk@.len(),
            None => first_cd_lane(bulk@, 0, code) < 0,
        },
{
    let len: usize = bulk.len();
    let lim: usize = if len >= 5 { len - 5 } else { 0 };
    let mut i: usize = 0;
    proof { lemma_first_cd_lane(bulk@, 0, code); }
    while i < lim
        invariant
            len == bulk@.len(),
            lim == (if len >= 5 { len - 5 } else { 0 }),
            i <= lim || lim == 0,
            first_cd_lane(bulk@, 0, code) == first_cd_lane(bulk@, i as int, code),
        decreases len - i,
    {
        let t = bulk[i + 3];
        let hit = if code == 8 { t == 0x08 } else { t == 0x04 || t == 0x03 };
        if bulk[i] == 0x83 && bulk[i + 1] == 0x66 && bulk[i + 2] == 0xcd && hit {
            return Some(i);
        }
        i = i + 1;
    }
    None
}

fn cd_lane_offset_after_cd03_or_cd04(bulk: &Vec<u8>) -> (r: Option<usize>)
    ensures
        match cd_lane_offset_spec(bulk@) {
            Some(o) => r matches Some(x) && x as int == o && o < bulk@.len(),
            None => r is None,
        },
{
    proof { lemma_first_cd_lane(bulk@, 0, 0); }
    let n: usize = bulk.len();
    match find_cd_lane(bulk, 0) {
        Some(k) => Some(k + 4),
        None => None,
    }
}

fn cd_lane_tag_offset_after_cd08(bulk: &Vec<u8>) -> (r: Option<usize>)
    ensures
        match cd08_tag_offset_spec(bulk@) {
            Some(o) => r matches Some(x) && x as int == o && o < bulk@.len(),
            None => r is None,
        },
{
    proof { lemma_first_cd_lane(bulk@, 0, 8); }
    let n: usize = bulk.len();
    match find_cd_lane(bulk, 8) {
        Some(k) => Some(k + 4),
        None => None,
    }
}

/// Lane byte of a slot index for the catalog and template paths: twice the index byte,
/// saturated.
pub open spec fn kempline_lane(kempline_index: usize) -> u8 {
    let i = kempline_index % 256;
    if 2 * i > 255 { 255 } else { (2 * i) as u8 }
}

/// Bulk with the lane byte after the first `83 66 cd 03|04` set to the slot index lane.
pub open spec fn kempline_lane_spec(b: Seq<u8>, kempline_index: usize) -> Seq<u8> {
    match cd_lane_offset_spec(b) {
        Some(o) => b.update(o, kempline_lane(kempline_index)),
        None => b,
    }
}

pub(crate) fn patch_kempline_lane_after_cd03_or_cd04(bulk: &mut Vec<u8>, kempline_index: usize)
    ensures
        final(bulk)@ == kempline_lane_spec(old(bulk)@, kempline_index),
{
    let i: u8 = (kempline_index % 256) as u8;
    assert(i as int == kempline_index % 256);
    let lane: u8 = if i > 127 { 255 } else { 2 * i };
    assert(lane == kempline_lane(kempline_index));
    let ghost b0 = bulk@;
    match cd_lane_offset_after_cd03_or_cd04(bulk) {
        Some(o) => {
            assert(cd_lane_offset_spec(b0) == Some(o as int));
            bulk.set(o, lane);
        },
        None => {
            assert(cd_lane_offset_spec(b0) is None);
        },
    }
}

/// Opcode bytes of the short frames from an assign bulk: `ed 03` and bytes 4-5 of the bulk.
pub open spec fn ed_op_spec(b: Seq<u8>) -> Seq<u8> {
    if b.len() >= 6 { seq![0xedu8, 0x03, b[4], b[5]] } else { seq![0xedu8, 0x03, 0x80, 0x10] }
}

fn ed_op_from_assign_bulk_prefix(bulk: &[u8]) -> (r: [u8; 4])
    ensures
        r@ == ed_op_spec(bulk@),
{
    let r = if bulk.len() >= 6 { [0xed, 0x03, bulk[4], bulk[5]] } else { [0xed, 0x03, 0x80, 0x10] };
    assert(r@ =~= ed_op_spec(bulk@));
    r
}

/// A dual cab assign bulk: it holds `83 66 cd 0a`.
pub fn bulk_is_cab_dual_cd0a(bulk: &[u8]) -> (r: bool)
    ensures
        r == has_window4(bulk@, 0x83, 0x66, 0xcd, 0x0a),
{
    contains_window4(bulk, 0x83, 0x66, 0xcd, 0x0a)
}

/// Dual cab create bulk from its assign bulk: the create template with the assign bulk's
/// cab 1 in place of the template's.
pub open spec fn cab_dual_create_spec(dual: Seq<u8>) -> Option<Seq<u8>> {
    let t = CAB_DUAL_CREATE_BULK60_HEAD31_TEMPLATE@;
    match (cab1_range_spec(dual), cab1_range_spec(t)) {
        (Some(c), Some(tc)) => Some(splice_spec(t, tc.0, tc.1, dual.subrange(c.0, c.1))),
        _ => None,
    }
}

/// Dual cab create bulk (head `31`) from its assign bulk; `None` when either has no cab 1.
pub fn build_cab_dual_create_bulk(dual_assign_bulk: &[u8]) -> (r: Option<Vec<u8>>)
    ensures
        match cab_dual_create_spec(dual_assign_bulk@) {
            Some(v) => r matches Some(x) && x@ == v,
            None => r is None,
        },
{
    let (c1s, c1e) = match cab_dual_cab1_field_range_in_bulk(dual_assign_bulk) {
        Some(p) => p,
        None => return None,
    };
    proof { lemma_cab1_range_bounds(dual_assign_bulk@); }
    let cab1 = crate::pull_frames::slice_range(dual_assign_bulk, c1s, c1e);
    let mut create: Vec<u8> = Vec::new();
    append_bytes(&mut create, &CAB_DUAL_CREATE_BULK60_HEAD31_TEMPLATE);
    assert(create@ =~= CAB_DUAL_CREATE_BULK60_HEAD31_TEMPLATE@);
    let (t1s, t1e) = match cab_dual_cab1_field_range_in_bulk(create.as_slice()) {
        Some(p) => p,
        None => return None,
    };
    proof { lemma_cab1_range_bounds(create@); }
    splice_bytes(&mut create, t1s, t1e, cab1.as_slice());
    Some(create)
}

/// First `i >= from` with `i + 4 < len` and `a b c d` at `i`, or -1.
pub open spec fn first_quad_before_last(s: Seq<u8>, a: u8, b: u8, c: u8, d: u8, from: int) -> int
    decreases s.len() - from,
{
    if from < 0 || from + 4 >= s.len() {
        -1
    } else if s[from] == a && s[from + 1] == b && s[from + 2] == c && s[from + 3] == d {
        from
    } else {
        first_quad_before_last(s, a, b, c, d, from + 1)
    }
}

/// First `i >= from` with `i + 4 < len` and `82 62 _ 64` at `i` (slot type `64`), or -1.
pub open spec fn first_slot_type64(s: Seq<u8>, from: int) -> int
    decreases s.len() - from,
{
    if from < 0 || from + 4 >= s.len() {
        -1
    } else if s[from] == 0x82 && s[from + 1] == 0x62 && s[from + 3] == 0x64 {
        from
    } else {
        first_slot_type64(s, from + 1)
    }
}

proof fn lemma_first_quad(s: Seq<u8>, a: u8, b: u8, c: u8, d: u8, from: int)
    ensures
        first_quad_before_last(s, a, b, c, d, from) == -1 || (from <= first_quad_before_last(s, a, b, c, d, from)
            && first_quad_before_last(s, a, b, c, d, from) + 4 < s.len()),
    decreases s.len() - from,
{
    if !(from < 0 || from + 4 >= s.len()) {
        lemma_first_quad(s, a, b, c, d, from + 1);
    }
}

proof fn lemma_first_slot_type64(s: Seq<u8>, from: int)
    ensures
        first_slot_type64(s, from) == -1 || (from <= first_slot_type64(s, from) && first_slot_type64(s, from) + 4 < s.len()),
    decreases s.len() - from,
{
    if !(from < 0 || from + 4 >= s.len()) {
        lemma_first_slot_type64(s, from + 1);
    }
}

/// A compact legacy amp+cab assign bulk: 44 bytes, head `23`, lane `cd:07`, marker `c3:19`.
pub open spec fn amp_cab_legacy_assign_spec(b: Seq<u8>) -> bool {
    &&& b.len() == 44
    &&& b[0] == 0x23
    &&& has_window4(b, 0x83, 0x66, 0xcd, 0x07)
    &&& first_pair_from(b, 0xc3, 0x19, 0) >= 0
}

/// Whether `bulk` is a compact legacy amp+cab assign bulk.
pub fn bulk_is_amp_cab_legacy_assign(bulk: &[u8]) -> (r: bool)
    ensures
        r == amp_cab_legacy_assign_spec(bulk@),
{
    bulk.len() == 44 && bulk[0] == 0x23 && contains_window4(bulk, 0x83, 0x66, 0xcd, 0x07)
        && find_pair_from(bulk, 0xc3, 0x19, 0).is_some()
}

/// Legacy amp+cab create bulk (head `2d`, lane `cd:03`, slot type `63`) from its assign bulk:
/// the create segment before `83 17`, the bulk cut after the cab field, then the trailer, and
/// byte 20 = the payload length.
pub open spec fn amp_cab_legacy_create_spec(a: Seq<u8>) -> Option<Seq<u8>> {
    if !amp_cab_legacy_assign_spec(a) {
        None
    } else {
        let s0 = a.update(0, 0x2d);
        let k1 = first_quad_before_last(s0, 0x83, 0x66, 0xcd, 0x07, 0);
        let s1 = if k1 >= 0 { s0.update(k1 + 3, 0x03) } else { s0 };
        let k2 = first_slot_type64(s1, 0);
        let s2 = if k2 >= 0 { s1.update(k2 + 3, 0x63) } else { s1 };
        let k3 = first_pair_from(s2, 0x83, 0x17, 0);
        if k3 < 0 {
            None
        } else {
            let s3 = s2.subrange(0, k3) + AMP_CAB_LEGACY_CREATE_SEGMENT@ + s2.subrange(k3, s2.len() as int);
            match cab2_range_spec(s3) {
                None => None,
                Some(c) => {
                    let s4 = s3.subrange(0, c.1) + AMP_CAB_LEGACY_CREATE_TRAILER@;
                    let n: int = if s4.len() >= 27 { s4.len() - 27 } else { 0 };
                    Some(if s4.len() >= 21 { s4.update(20, (n % 256) as u8) } else { s4 })
                },
            }
        }
    }
}

/// Frame of a legacy amp+cab create bulk: only a compact legacy assign bulk gives one; it
/// starts with head `2d`, ends with the trailer `09 12 0a c3 00 00 00` (when at least 28
/// bytes long) and carries its payload length `len - 27` in byte 20.
pub proof fn law_legacy_create_frame(a: Seq<u8>)
    ensures
        !amp_cab_legacy_assign_spec(a) ==> amp_cab_legacy_create_spec(a) is None,
        amp_cab_legacy_create_spec(a) matches Some(c) ==> {
            &&& c.len() >= 8
            &&& c[0] == 0x2d
            &&& c.len() >= 28 ==> c.subrange(c.len() - 7, c.len() as int) == AMP_CAB_LEGACY_CREATE_TRAILER@
            &&& c.len() >= 27 ==> c[20] == (c.len() - 27) as u8
        },
{
    if amp_cab_legacy_assign_spec(a) {
        let s0 = a.update(0, 0x2d);
        lemma_first_quad(s0, 0x83, 0x66, 0xcd, 0x07, 0);
        let k1 = first_quad_before_last(s0, 0x83, 0x66, 0xcd, 0x07, 0);
        let s1 = if k1 >= 0 { s0.update(k1 + 3, 0x03) } else { s0 };
        lemma_first_slot_type64(s1, 0);
        let k2 = first_slot_type64(s1, 0);
        let s2 = if k2 >= 0 { s1.update(k2 + 3, 0x63) } else { s1 };
        lemma_first_pair_bounds(s2, 0x83, 0x17, 0);
        let k3 = first_pair_from(s2, 0x83, 0x17, 0);
        if k3 >= 0 {
            assert(s2[0] == 0x2d);
            assert(s2.len() == 44);
            assert(k3 == first_pair_from(s2, 0x83, 0x17, 1));
            lemma_first_pair_bounds(s2, 0x83, 0x17, 1);
            assert(k3 != 0);
            let s3 = s2.subrange(0, k3) + AMP_CAB_LEGACY_CREATE_SEGMENT@ + s2.subrange(k3, s2.len() as int);
            assert(s3[0] == 0x2d);
            lemma_cab2_range_bounds(s3);
            match cab2_range_spec(s3) {
                None => {},
                Some(c) => {
                    let s4 = s3.subrange(0, c.1) + AMP_CAB_LEGACY_CREATE_TRAILER@;
                    assert(c.1 >= 1);
                    assert(s4[0] == 0x2d);
                    if s4.len() >= 28 {
                        let n: int = s4.len() - 27;
                        let r = s4.update(20, (n % 256) as u8);
                        assert(r.subrange(r.len() - 7, r.len() as int) =~= AMP_CAB_LEGACY_CREATE_TRAILER@);
                    }
                },
            }
        }
    }
}

/// Legacy amp+cab create bulk (head `2d`) from a compact assign bulk; `None` on another bulk.
#[verifier::rlimit(50)]
#[verifier::spinoff_prover]
pub fn build_amp_cab_legacy_create_bulk(assign_bulk: &[u8]) -> (r: Option<Vec<u8>>)
    ensures
        match amp_cab_legacy_create_spec(assign_bulk@) {
            Some(v) => r matches Some(x) && x@ == v,
            None => r is None,
        },
{
    if !bulk_is_amp_cab_legacy_assign(assign_bulk) {
        return None;
    }
    let mut out: Vec<u8> = Vec::new();
    append_bytes(&mut out, assign_bulk);
    assert(out@ =~= assign_bulk@);
    out.set(0, 0x2d);
    let ghost s0 = out@;
    let len: usize = out.len();
    let mut i: usize = 0;
    proof { lemma_first_quad(s0, 0x83, 0x66, 0xcd, 0x07, 0); }
    while i < 40
        invariant
            i <= 40,
            len == out@.len() == 44,
            out@ == s0,
            first_quad_before_last(s0, 0x83, 0x66, 0xcd, 0x07, 0) == first_quad_before_last(s0, 0x83, 0x66, 0xcd, 0x07, i as int),
        ensures
            i <= 40,
            out@ == s0,
            i < 40 ==> first_quad_before_last(s0, 0x83, 0x66, 0xcd, 0x07, 0) == i,
            i == 40 ==> first_quad_before_last(s0, 0x83, 0x66, 0xcd, 0x07, 0) == -1,
        decreases 40 - i,
    {
        if out[i] == 0x83 && out[i + 1] == 0x66 && out[i + 2] == 0xcd && out[i + 3] == 0x07 {
            break;
        }
        i = i + 1;
    }
    if i < 40 {
        out.set(i + 3, 0x03);
    }
    let ghost s1 = out@;
    let mut j: usize = 0;
    proof { lemma_first_slot_type64(s1, 0); }
    while j < 40
        invariant
            j <= 40,
            len == out@.len() == 44,
            out@ == s1,
            first_slot_type64(s1, 0) == first_slot_type64(s1, j as int),
        ensures
            j <= 40,
            out@ == s1,
            j < 40 ==> first_slot_type64(s1, 0) == j,
            j == 40 ==> first_slot_type64(s1, 0) == -1,
        decreases 40 - j,
    {
        if out[j] == 0x82 && out[j + 1] == 0x62 && out[j + 3] == 0x64 {
            break;
        }
        j = j + 1;
    }
    if j < 40 {
        out.set(j + 3, 0x63);
    }
    let ghost s2 = out@;
    let k3 = match find_pair_from(out.as_slice(), 0x83, 0x17, 0) {
        Some(k) => k,
        None => return None,
    };
    proof { lemma_first_pair_bounds(s2, 0x83, 0x17, 0); }
    let mut s3: Vec<u8> = crate::pull_frames::slice_range(out.as_slice(), 0, k3);
    append_bytes(&mut s3, &AMP_CAB_LEGACY_CREATE_SEGMENT);
    let tail = crate::pull_frames::slice_range(out.as_slice(), k3, len);
    append_bytes(&mut s3, tail.as_slice());
    let (_cs, ce) = match cab_dual_cab2_field_range_in_bulk(s3.as_slice()) {
        Some(p) => p,
        None => return None,
    };
    proof { lemma_cab2_range_bounds(s3@); }
    let mut s4 = crate::pull_frames::slice_range(s3.as_slice(), 0, ce);
    append_bytes(&mut s4, &AMP_CAB_LEGACY_CREATE_TRAILER);
    let n4: usize = s4.len();
    if n4 >= 21 {
        let n: usize = if n4 >= 27 { n4 - 27 } else { 0 };
        s4.set(20, (n % 256) as u8);
    }
    Some(s4)
}

/// First `i >= from` with `83 66 cd` at `i` (`i + 3 <= len`), or -1.
pub open spec fn first_83_66_cd(s: Seq<u8>, from: int) -> int
    decreases s.len() - from,
{
    if from < 0 || from + 3 > s.len() {
        -1
    } else if s[from] == 0x83 && s[from + 1] == 0x66 && s[from + 2] == 0xcd {
        from
    } else {
        first_83_66_cd(s, from + 1)
    }
}

proof fn lemma_first_83_66_cd(s: Seq<u8>, from: int)
    ensures
        first_83_66_cd(s, from) == -1 || (from <= first_83_66_cd(s, from) && first_83_66_cd(s, from) + 3 <= s.len()),
    decreases s.len() - from,
{
    if !(from < 0 || from + 3 > s.len()) {
        lemma_first_83_66_cd(s, from + 1);
    }
}

/// A catalog chain copied over the bulk from its first `83 66 cd` (cut at the end of the
/// bulk); `None` when the chain is shorter than 12 bytes, does not start with `83 66 cd`, or
/// the bulk has no `83 66 cd`.
pub open spec fn catalog_chain_spec(b: Seq<u8>, ch: Seq<u8>) -> Option<Seq<u8>> {
    if ch.len() < MIN_CATALOG_CHAIN_USB_PATCH_LEN || !(ch[0] == 0x83 && ch[1] == 0x66 && ch[2] == 0xcd) {
        None
    } else {
        let k = first_83_66_cd(b, 0);
        if k < 0 {
            None
        } else {
            let n = if b.len() - k < ch.len() { b.len() - k } else { ch.len() as int };
            Some(b.subrange(0, k) + ch.subrange(0, n) + b.subrange(k + n, b.len() as int))
        }
    }
}

/// Copies a catalog chain over the bulk (see `catalog_chain_spec`); `false` when refused.
fn patch_catalog_chain_into_bulk(bulk: &mut Vec<u8>, chain: &[u8]) -> (r: bool)
    ensures
        match catalog_chain_spec(old(bulk)@, chain@) {
            Some(v) => r && final(bulk)@ == v,
            None => !r && final(bulk)@ == old(bulk)@,
        },
{
    if chain.len() < MIN_CATALOG_CHAIN_USB_PATCH_LEN {
        return false;
    }
    if !(chain[0] == 0x83 && chain[1] == 0x66 && chain[2] == 0xcd) {
        return false;
    }
    let len: usize = bulk.len();
    let lim: usize = if len >= 2 { len - 2 } else { 0 };
    let mut i: usize = 0;
    proof { lemma_first_83_66_cd(bulk@, 0); }
    while i < lim
        invariant
            i <= lim,
            lim == (if len >= 2 { len - 2 } else { 0 }),
            len == bulk@.len(),
            bulk@ == old(bulk)@,
            first_83_66_cd(bulk@, 0) == first_83_66_cd(bulk@, i as int),
        ensures
            i <= lim,
            bulk@ == old(bulk)@,
            i < lim ==> first_83_66_cd(bulk@, 0) == i,
            i == lim ==> first_83_66_cd(bulk@, 0) == -1,
        decreases lim - i,
    {
        if bulk[i] == 0x83 && bulk[i + 1] == 0x66 && bulk[i + 2] == 0xcd {
            break;
        }
        i = i + 1;
    }
    if i == lim {
        return false;
    }
    let start = i;
    let n: usize = if len - start < chain.len() { len - start } else { chain.len() };
    let mut k: usize = 0;
    while k < n
        invariant
            k <= n,
            start + n <= len == bulk@.len(),
            n <= chain@.len(),
            forall|j: int| 0 <= j < start ==> bulk@[j] == old(bulk)@[j],
            forall|j: int| start <= j < start + k ==> bulk@[j] == chain@[j - start],
            forall|j: int| start + k <= j < len ==> bulk@[j] == old(bulk)@[j],
        decreases n - k,
    {
        bulk.set(start + k, chain[k]);
        k = k + 1;
    }
    assert(bulk@ =~= old(bulk)@.subrange(0, start as int) + chain@.subrange(0, n as int) + old(bulk)@.subrange(start + n, len as int));
    true
}

/// View of an optional byte slice.
pub open spec fn opt_bytes(o: Option<&[u8]>) -> Option<Seq<u8>> {
    match o {
        Some(b) => Some(b@),
        None => None,
    }
}

/// The assign bulk a probe sends: on an empty slot, a dual cab assign bulk is replaced by its
/// create bulk, else a compact legacy amp+cab assign bulk by its create bulk (each when the
/// state enables it and the create bulk can be built).
pub open spec fn probe_source(create31: bool, create2d: bool, op: SlotModelProbeOp, usb: Option<Seq<u8>>) -> Option<Seq<u8>> {
    match usb {
        None => None,
        Some(b) => {
            let dual = if op == SlotModelProbeOp::AddToEmpty && create31 && has_window4(b, 0x83, 0x66, 0xcd, 0x0a) {
                cab_dual_create_spec(b)
            } else {
                None
            };
            let legacy = if op == SlotModelProbeOp::AddToEmpty && create2d && dual is None && amp_cab_legacy_assign_spec(b) {
                amp_cab_legacy_create_spec(b)
            } else {
                None
            };
            if dual is Some { dual } else if legacy is Some { legacy } else { Some(b) }
        },
    }
}

/// The probe replays an assign bulk (32 bytes or more) rather than a template.
pub open spec fn probe_uses_bulk(src: Option<Seq<u8>>) -> bool {
    src matches Some(b) && b.len() >= 32
}

/// Bulk a probe starts from: the assign bulk, else the template of the operation.
pub open spec fn probe_template(op: SlotModelProbeOp, src: Option<Seq<u8>>) -> Seq<u8> {
    if probe_uses_bulk(src) {
        src->0
    } else if op == SlotModelProbeOp::AddToEmpty {
        ADD_MODEL_BULK_TEMPLATE@
    } else if op == SlotModelProbeOp::RemoveFromOccupied {
        REMOVE_MODEL_BULK36_CD03_TEMPLATE@
    } else {
        REPLACE_MODEL_BULK48_CD04_TEMPLATE@
    }
}

/// Opcode bytes of the short frames of a probe.
pub open spec fn probe_op_short(src: Option<Seq<u8>>) -> Seq<u8> {
    if probe_uses_bulk(src) { ed_op_spec(src->0) } else { seq![0x80u8, 0x10, 0xed, 0x03] }
}

/// Live write counter step after a bulk of `len` bytes.
pub open spec fn bulk_ctr_delta(len: int) -> u16 {
    if len == 44 { 0x44 } else if len == 48 { 0x3e } else { 0x1f }
}

/// Lane step of a replayed assign bulk: the byte after `83 66 cd 03|04` takes the session
/// lane (or keeps its value, which starts the lane); else, on a replace, the tag after
/// `83 66 cd 08` takes the lane (or the live write tag byte), which the tag byte follows.
pub open spec fn json_lane_step(c: Counters, op: SlotModelProbeOp, b: Seq<u8>) -> (Seq<u8>, Counters) {
    match cd_lane_offset_spec(b) {
        Some(o) => {
            let l = match c.slot_model_lane_seq { Some(x) => x, None => b[o] };
            (b.update(o, l), Counters { slot_model_lane_seq: Some(wadd8(l, 1)), ..c })
        },
        None => if op == SlotModelProbeOp::ReplaceOccupied {
            match cd08_tag_offset_spec(b) {
                Some(o) => {
                    let t = match c.slot_model_lane_seq { Some(x) => x, None => c.live_write_yy };
                    (b.update(o, t), Counters { slot_model_lane_seq: Some(wadd8(t, 1)), live_write_yy: wadd8(t, 1), ..c })
                },
                None => (b, c),
            }
        } else {
            (b, c)
        },
    }
}

/// Body of a template bulk: slot bus, then the catalog chain when it applies (slot bus again),
/// then on an occupied slot the lane byte of the slot index (slot bus again).
pub open spec fn template_body(b: Seq<u8>, op: SlotModelProbeOp, chain: Option<Seq<u8>>, idx: usize, bus: u8) -> Seq<u8> {
    let b1 = slot_bus_spec(b, bus);
    let b2 = match chain {
        Some(ch) => match catalog_chain_spec(b1, ch) {
            Some(v) => slot_bus_spec(v, bus),
            None => b1,
        },
        None => b1,
    };
    if op != SlotModelProbeOp::AddToEmpty { slot_bus_spec(kempline_lane_spec(b2, idx), bus) } else { b2 }
}

/// A probe built on the template of its operation (no catalog chain) carries the slot bus at
/// byte 34 and, on an occupied slot, the lane of the slot index at byte 28 — unless the
/// live write counter itself reads `81 62` / `82 62` (bytes 12-13), where the slot bus goes.
pub proof fn law_template_probe_bus_and_lane(op: SlotModelProbeOp, x80: u8, ctr: u16, idx: usize, bus: u8)
    requires
        !(hi8(ctr) == 0x62 && (lo8(ctr) == 0x81 || lo8(ctr) == 0x82)),
    ensures
        ({
            let t = probe_template(op, None);
            let body = template_body(header_counters_spec(t, x80, ctr), op, None, idx, bus);
            &&& body.len() == t.len()
            &&& body[34] == bus
            &&& op != SlotModelProbeOp::AddToEmpty ==> body[28] == kempline_lane(idx)
        }),
{
    reveal_with_fuel(first_bus_marker, 40);
    reveal_with_fuel(first_cd_lane, 30);
    let t = probe_template(op, None);
    let h = header_counters_spec(t, x80, ctr);
    if op == SlotModelProbeOp::AddToEmpty {
        assert(t == ADD_MODEL_BULK_TEMPLATE@);
        assert(t.len() == 56);
    } else if op == SlotModelProbeOp::RemoveFromOccupied {
        assert(t == REMOVE_MODEL_BULK36_CD03_TEMPLATE@);
        assert(t.len() == 36);
    } else {
        assert(t == REPLACE_MODEL_BULK48_CD04_TEMPLATE@);
        assert(t.len() == 48);
    }
    assert(h == t.update(9, x80).update(12, lo8(ctr)).update(13, hi8(ctr)));
    assert(first_bus_marker(h, 0) == 32);
    let b1 = slot_bus_spec(h, bus);
    assert(b1 == h.update(34, bus));
    if op != SlotModelProbeOp::AddToEmpty {
        assert(first_cd_lane(b1, 0, 0) == 24);
        let b3 = kempline_lane_spec(b1, idx);
        assert(b3 == b1.update(28, kempline_lane(idx)));
        assert(first_bus_marker(b3, 0) == 32);
    }
}

/// Packets and counters of a probe that replays the assign bulk `t`.
pub open spec fn probe_replay_spec(c: Counters, op: SlotModelProbeOp, t: Seq<u8>, bus: u8, after_focus: bool) -> (Seq<Seq<u8>>, Counters) {
    let pre = !after_focus;
    let pre_pkts = if pre {
        seq![
            short16(seq![0xefu8, 0x03, 0x01, 0x10], 0x10, c.x2_cnt, c.live_write_ctr),
            short16(seq![0x02u8, 0x10, 0xf0, 0x03], 0x10, wadd8(c.x2_cnt, 1), wadd16(c.live_write_ctr, 0x1f)),
        ]
    } else {
        Seq::empty()
    };
    let c1 = Counters { x2_cnt: if pre { wadd8(c.x2_cnt, 2) } else { c.x2_cnt }, x80_cnt: wadd8(c.x80_cnt, 1), ..c };
    let stepped = json_lane_step(c1, op, header_seq_spec(t, c.x80_cnt));
    let body = slot_bus_spec(slot_bus_spec(stepped.0, bus), bus);
    let delta = if pre { 0x1fu16 } else { bulk_ctr_delta(body.len() as int) };
    (pre_pkts.push(body), Counters { live_write_ctr: wadd16(c.live_write_ctr, delta as int), ..stepped.1 })
}

/// Packets and counters of a probe built on the template of the operation.
pub open spec fn probe_template_spec(c: Counters, op: SlotModelProbeOp, idx: usize, bus: u8, chain: Option<Seq<u8>>) -> (Seq<Seq<u8>>, Counters) {
    let opx = seq![0x80u8, 0x10, 0xed, 0x03];
    let t = probe_template(op, None);
    let rm = op == SlotModelProbeOp::RemoveFromOccupied;
    let rm_pkts = if rm { seq![short16(opx, 0x10, c.x80_cnt, c.live_write_ctr)] } else { Seq::empty() };
    let x1 = if rm { wadd8(c.x80_cnt, 1) } else { c.x80_cnt };
    let body = template_body(header_counters_spec(t, x1, c.live_write_ctr), op, chain, idx, bus);
    let delta: u16 = if op == SlotModelProbeOp::ReplaceOccupied {
        bulk_ctr_delta(body.len() as int)
    } else if rm {
        0x11
    } else {
        0x1f
    };
    let ctr1 = wadd16(c.live_write_ctr, delta as int);
    (
        rm_pkts.push(body).push(short16(opx, 0x08, wadd8(x1, 1), ctr1)),
        Counters { x80_cnt: wadd8(x1, 2), live_write_ctr: ctr1, ..c },
    )
}

/// Packets of a slot model probe and the counters after it, from the counters before it.
pub open spec fn probe_spec(
    c: Counters,
    create31: bool,
    create2d: bool,
    op: SlotModelProbeOp,
    idx: usize,
    bus: u8,
    chain: Option<Seq<u8>>,
    usb: Option<Seq<u8>>,
    after_focus: bool,
) -> (Seq<Seq<u8>>, Counters) {
    let src = probe_source(create31, create2d, op, usb);
    if probe_uses_bulk(src) {
        probe_replay_spec(c, op, src->0, bus, after_focus)
    } else {
        probe_template_spec(c, op, idx, bus, chain)
    }
}

/// Each packet of `r` has the bytes of `p`.
pub open spec fn packets_are(r: Seq<Vec<u8>>, p: Seq<Seq<u8>>) -> bool {
    &&& r.len() == p.len()
    &&& forall|i: int| 0 <= i < r.len() ==> #[trigger] r[i]@ == p[i]
}

fn probe_source_bulk(create31: bool, create2d: bool, op: SlotModelProbeOp, usb: Option<&[u8]>) -> (r: Option<Vec<u8>>)
    ensures
        match probe_source(create31, create2d, op, opt_bytes(usb)) {
            Some(v) => r matches Some(x) && x@ == v,
            None => r is None,
        },
{
    match usb {
        None => None,
        Some(b) => {
            if op == SlotModelProbeOp::AddToEmpty && create31 && bulk_is_cab_dual_cd0a(b) {
                let dual = build_cab_dual_create_bulk(b);
                if dual.is_some() {
                    return dual;
                }
            }
            if op == SlotModelProbeOp::AddToEmpty && create2d && bulk_is_amp_cab_legacy_assign(b) {
                let legacy = build_amp_cab_legacy_create_bulk(b);
                if legacy.is_some() {
                    return legacy;
                }
            }
            let mut v: Vec<u8> = Vec::new();
            append_bytes(&mut v, b);
            assert(v@ =~= b@);
            Some(v)
        },
    }
}

fn probe_template_of(op: SlotModelProbeOp) -> (r: Vec<u8>)
    ensures
        r@ == probe_template(op, None),
{
    let mut v: Vec<u8> = Vec::new();
    if op == SlotModelProbeOp::AddToEmpty {
        append_bytes(&mut v, &ADD_MODEL_BULK_TEMPLATE);
    } else if op == SlotModelProbeOp::RemoveFromOccupied {
        append_bytes(&mut v, &REMOVE_MODEL_BULK36_CD03_TEMPLATE);
    } else {
        append_bytes(&mut v, &REPLACE_MODEL_BULK48_CD04_TEMPLATE);
    }
    v
}

/// Replayed assign bulk: x80 counter, session lane step, slot bus (twice, as sent).
#[verifier::rlimit(50)]
fn probe_json_bulk(state: &mut HelixState, op: SlotModelProbeOp, template: Vec<u8>, bus: u8) -> (r: Vec<u8>)
    ensures
        ({
            let c = old(state).counters;
            let c1 = Counters { x80_cnt: wadd8(c.x80_cnt, 1), ..c };
            let st = json_lane_step(c1, op, header_seq_spec(template@, c.x80_cnt));
            &&& r@ == slot_bus_spec(slot_bus_spec(st.0, bus), bus)
            &&& final(state).counters == st.1
            &&& *final(state) == (HelixState { counters: final(state).counters, ..*old(state) })
        }),
{
    let mut bulk = template;
    let seq_used = state.next_x80_cnt();
    patch_bulk_header_seq_x80_only(&mut bulk, seq_used);
    match cd_lane_offset_after_cd03_or_cd04(&bulk) {
        Some(off) => {
            let next_lane = match state.counters.slot_model_lane_seq {
                Some(x) => x,
                None => bulk[off],
            };
            bulk.set(off, next_lane);
            state.counters.slot_model_lane_seq = Some(next_lane.wrapping_add(1));
        },
        None => {
            if op == SlotModelProbeOp::ReplaceOccupied {
                match cd_lane_tag_offset_after_cd08(&bulk) {
                    Some(off) => {
                        let tag = match state.counters.slot_model_lane_seq {
                            Some(x) => x,
                            None => state.counters.live_write_yy,
                        };
                        bulk.set(off, tag);
                        let next = tag.wrapping_add(1);
                        state.counters.slot_model_lane_seq = Some(next);
                        state.counters.live_write_yy = next;
                    },
                    None => {},
                }
            }
        },
    }
    patch_slot_bus_in_bulk(&mut bulk, bus);
    patch_slot_bus_in_bulk(&mut bulk, bus);
    bulk
}

/// Template bulk body (see `template_body`).
fn probe_template_bulk(bulk: Vec<u8>, op: SlotModelProbeOp, chain: Option<&[u8]>, idx: usize, bus: u8) -> (r: Vec<u8>)
    ensures
        r@ == template_body(bulk@, op, opt_bytes(chain), idx, bus),
{
    let mut b = bulk;
    patch_slot_bus_in_bulk(&mut b, bus);
    match chain {
        Some(ch) => {
            if patch_catalog_chain_into_bulk(&mut b, ch) {
                patch_slot_bus_in_bulk(&mut b, bus);
            }
        },
        None => {},
    }
    if op != SlotModelProbeOp::AddToEmpty {
        patch_kempline_lane_after_cd03_or_cd04(&mut b, idx);
        patch_slot_bus_in_bulk(&mut b, bus);
    }
    b
}

fn bulk_ctr_delta_of(len: usize) -> (r: u16)
    ensures
        r == bulk_ctr_delta(len as int),
{
    if len == 44 { 0x44 } else if len == 48 { 0x3e } else { 0x1f }
}

#[verifier::rlimit(80)]
#[verifier::spinoff_prover]
fn probe_replay(state: &mut HelixState, op: SlotModelProbeOp, template: Vec<u8>, bus: u8, after_focus: bool) -> (r: Vec<Vec<u8>>)
    ensures
        ({
            let p = probe_replay_spec(old(state).counters, op, template@, bus, after_focus);
            &&& packets_are(r@, p.0)
            &&& final(state).counters == p.1
            &&& *final(state) == (HelixState { counters: final(state).counters, ..*old(state) })
        }),
{
    let mut packets: Vec<Vec<u8>> = Vec::new();
    let pre = !after_focus;
    if pre {
        let ctr0 = state.counters.live_write_ctr;
        let ctr1 = ctr0.wrapping_add(0x1f);
        let x2a = state.next_x2_cnt();
        let pre_ef = patch_short_ed03_16([0xef, 0x03, 0x01, 0x10], 0x10, x2a, ctr0);
        let x2b = state.next_x2_cnt();
        let pre_f0 = patch_short_ed03_16([0x02, 0x10, 0xf0, 0x03], 0x10, x2b, ctr1);
        assert([0xefu8, 0x03, 0x01, 0x10]@ =~= seq![0xefu8, 0x03, 0x01, 0x10]);
        assert([0x02u8, 0x10, 0xf0, 0x03]@ =~= seq![0x02u8, 0x10, 0xf0, 0x03]);
        packets.push(pre_ef);
        packets.push(pre_f0);
    }
    let bulk = probe_json_bulk(state, op, template, bus);
    let delta: u16 = if pre { 0x1f } else { bulk_ctr_delta_of(bulk.len()) };
    packets.push(bulk);
    state.counters.live_write_ctr = state.counters.live_write_ctr.wrapping_add(delta);
    packets
}

#[verifier::rlimit(80)]
#[verifier::spinoff_prover]
fn probe_on_template(state: &mut HelixState, op: SlotModelProbeOp, idx: usize, bus: u8, chain: Option<&[u8]>) -> (r: Vec<Vec<u8>>)
    ensures
        ({
            let p = probe_template_spec(old(state).counters, op, idx, bus, opt_bytes(chain));
            &&& packets_are(r@, p.0)
            &&& final(state).counters == p.1
            &&& *final(state) == (HelixState { counters: final(state).counters, ..*old(state) })
        }),
{
    let mut packets: Vec<Vec<u8>> = Vec::new();
    let op_short: [u8; 4] = [0x80, 0x10, 0xed, 0x03];
    assert(op_short@ =~= seq![0x80u8, 0x10, 0xed, 0x03]);
    let rm = op == SlotModelProbeOp::RemoveFromOccupied;
    if rm {
        let seq1 = state.next_x80_cnt();
        let ctr0 = state.counters.live_write_ctr;
        let short1 = patch_short_ed03_16(op_short, 0x10, seq1, ctr0);
        packets.push(short1);
    }
    let ctr0 = state.counters.live_write_ctr;
    let seq2 = state.next_x80_cnt();
    let mut bulk = probe_template_of(op);
    patch_bulk_header_counters(&mut bulk, seq2, ctr0);
    let bulk = probe_template_bulk(bulk, op, chain, idx, bus);
    let delta: u16 = if op == SlotModelProbeOp::ReplaceOccupied {
        bulk_ctr_delta_of(bulk.len())
    } else if rm {
        0x11
    } else {
        0x1f
    };
    packets.push(bulk);
    let ctr1 = ctr0.wrapping_add(delta);
    let seq3 = state.next_x80_cnt();
    let short2 = patch_short_ed03_16(op_short, 0x08, seq3, ctr1);
    packets.push(short2);
    state.counters.live_write_ctr = state.counters.live_write_ctr.wrapping_add(delta);
    packets
}

/// Packets of a slot model probe (add, replace or remove a model on slot `slot_bus`):
/// with an assign bulk (`usb_assign_full_bulk`, 32 bytes or more, or the create bulk that
/// replaces it on an empty slot), the `ef`/`f0` preamble (left out right after a cab 2 focus)
/// and the replayed bulk; else the template of the operation with its counters, the catalog
/// chain and the slot lane, between `ed:03` short frames.
pub fn build_slot_model_probe_packets(
    state: &mut HelixState,
    op: SlotModelProbeOp,
    kempline_index: usize,
    slot_bus: u8,
    catalog_chain_bytes: Option<&[u8]>,
    usb_assign_full_bulk: Option<&[u8]>,
    cab_dual_cab2_replace_after_focus: bool,
) -> (r: Vec<Vec<u8>>)
    ensures
        ({
            let p = probe_spec(
                old(state).counters,
                old(state).tx.cab_dual_create_head31,
                old(state).tx.amp_cab_legacy_create_head2d,
                op,
                kempline_index,
                slot_bus,
                opt_bytes(catalog_chain_bytes),
                opt_bytes(usb_assign_full_bulk),
                cab_dual_cab2_replace_after_focus,
            );
            &&& packets_are(r@, p.0)
            &&& final(state).counters == p.1
            &&& *final(state) == (HelixState { counters: final(state).counters, ..*old(state) })
        }),
{
    let src = probe_source_bulk(state.tx.cab_dual_create_head31, state.tx.amp_cab_legacy_create_head2d, op, usb_assign_full_bulk);
    match src {
        Some(b) => {
            if b.len() >= 32 {
                return probe_replay(state, op, b, slot_bus, cab_dual_cab2_replace_after_focus);
            }
        },
        None => {},
    }
    probe_on_template(state, op, kempline_index, slot_bus, catalog_chain_bytes)
}

/// `ef` then `f0` short frames (16 bytes each) before a legacy cab replace on an occupied
/// slot: x2 counter of each, live write lane `L` then `L + 0x1f`.
pub fn build_ef_f0_slot_preamble_packets(state: &mut HelixState) -> (r: Vec<Vec<u8>>)
    ensures
        ({
            let c = old(state).counters;
            &&& packets_are(r@, seq![
                short16(seq![0xefu8, 0x03, 0x01, 0x10], 0x10, c.x2_cnt, c.live_write_ctr),
                short16(seq![0x02u8, 0x10, 0xf0, 0x03], 0x10, wadd8(c.x2_cnt, 1), wadd16(c.live_write_ctr, 0x1f)),
            ])
            &&& *final(state) == (HelixState { counters: Counters { x2_cnt: wadd8(c.x2_cnt, 2), ..c }, ..*old(state) })
        }),
{
    let ctr0 = state.counters.live_write_ctr;
    let ctr1 = ctr0.wrapping_add(0x1f);
    let x2a = state.next_x2_cnt();
    let pre_ef = patch_short_ed03_16([0xef, 0x03, 0x01, 0x10], 0x10, x2a, ctr0);
    let x2b = state.next_x2_cnt();
    let pre_f0 = patch_short_ed03_16([0x02, 0x10, 0xf0, 0x03], 0x10, x2b, ctr1);
    assert([0xefu8, 0x03, 0x01, 0x10]@ =~= seq![0xefu8, 0x03, 0x01, 0x10]);
    assert([0x02u8, 0x10, 0xf0, 0x03]@ =~= seq![0x02u8, 0x10, 0xf0, 0x03]);
    proof { crate::bytes::lemma_wadd8_twice(old(state).counters.x2_cnt, 1, 1); }
    let mut v: Vec<Vec<u8>> = Vec::new();
    v.push(pre_ef);
    v.push(pre_f0);
    v
}

} // verus!
