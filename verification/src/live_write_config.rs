//! Configuration of the live parameter writes: parameter page byte, bool markers, the display
//! types written as bool or as segmented index (`23` frame), and the value types accepted on the
//! float frame (`27`).
//!
//! Display types are matched as `str::trim` then ASCII lowercase does it: leading and trailing
//! Unicode whitespace dropped, `A`-`Z` folded to `a`-`z`, on the UTF-8 bytes.
use vstd::prelude::*;
use crate::text::{decimal_of, push_decimal, string_push_str};
use vstd::string::StringSliceAdditionalSpecFns;

verus! {

/// Live write configuration; display type keys are UTF-8 bytes.
pub struct HelixLiveWriteCfg {
    pub pp_default: u8,
    pub bool_mark_off: u8,
    pub bool_mark_on: u8,
    /// Display types written as bool (`c2`/`c3`).
    pub bool_display_types: Vec<Vec<u8>>,
    /// Value types accepted on the float frame `0x27`.
    pub allowed_float_value_types: Vec<i32>,
    /// Display type → number of positions of a segmented `23` write (index after `77`).
    pub discrete_23_display_types: Vec<(Vec<u8>, u8)>,
    /// Display type → parameter page byte (after `83:66:cd`) that overrides `pp_default`.
    pub pp_by_display_type: Vec<(Vec<u8>, u8)>,
}

impl HelixLiveWriteCfg {
    /// Defaults: page `03`, markers `c2`/`c3`, bool display types `off_on` and `polarity`,
    /// float value types 0 and 1, no segmented type, no page override.
    pub fn defaults() -> (r: Self)
        ensures
            r.pp_default == 0x03,
            r.bool_mark_off == 0xc2,
            r.bool_mark_on == 0xc3,
            r.bool_display_types@.len() == 2,
            r.bool_display_types@[0]@ == seq![0x6fu8, 0x66, 0x66, 0x5f, 0x6f, 0x6e],
            r.bool_display_types@[1]@ == seq![0x70u8, 0x6f, 0x6c, 0x61, 0x72, 0x69, 0x74, 0x79],
            r.allowed_float_value_types@ == seq![0i32, 1],
            r.discrete_23_display_types@.len() == 0,
            r.pp_by_display_type@.len() == 0,
    {
        let off_on: Vec<u8> = vec![0x6f, 0x66, 0x66, 0x5f, 0x6f, 0x6e];
        let polarity: Vec<u8> = vec![0x70, 0x6f, 0x6c, 0x61, 0x72, 0x69, 0x74, 0x79];
        let r = HelixLiveWriteCfg {
            pp_default: 0x03,
            bool_mark_off: 0xc2,
            bool_mark_on: 0xc3,
            bool_display_types: vec![off_on, polarity],
            allowed_float_value_types: vec![0, 1],
            discrete_23_display_types: Vec::new(),
            pp_by_display_type: Vec::new(),
        };
        assert(r.allowed_float_value_types@ == seq![0i32, 1]);
        r
    }
}

/// Three-byte UTF-8 whitespace: U+1680, U+2000–U+200A, U+2028, U+2029, U+202F, U+205F, U+3000.
pub open spec fn ws3(a: u8, b: u8, c: u8) -> bool {
    ||| (a == 0xe1 && b == 0x9a && c == 0x80)
    ||| (a == 0xe2 && b == 0x80 && ((0x80 <= c && c <= 0x8a) || c == 0xa8 || c == 0xa9 || c == 0xaf))
    ||| (a == 0xe2 && b == 0x81 && c == 0x9f)
    ||| (a == 0xe3 && b == 0x80 && c == 0x80)
}

/// ASCII whitespace of `char::is_whitespace`: tab, line feed, vertical tab, form feed, carriage
/// return, space.
pub open spec fn ws1(a: u8) -> bool {
    a == 0x20 || (0x09 <= a && a <= 0x0d)
}

/// Byte length of the whitespace char that starts `s` (0 when `s` does not start with one).
pub open spec fn lead_ws_len(s: Seq<u8>) -> int {
    if s.len() >= 1 && ws1(s[0]) {
        1
    } else if s.len() >= 2 && s[0] == 0xc2 && (s[1] == 0x85 || s[1] == 0xa0) {
        2
    } else if s.len() >= 3 && ws3(s[0], s[1], s[2]) {
        3
    } else {
        0
    }
}

/// Byte length of the whitespace char that ends `s` (0 when `s` does not end with one).
pub open spec fn trail_ws_len(s: Seq<u8>) -> int {
    let n = s.len() as int;
    if n >= 1 && ws1(s[n - 1]) {
        1
    } else if n >= 2 && s[n - 2] == 0xc2 && (s[n - 1] == 0x85 || s[n - 1] == 0xa0) {
        2
    } else if n >= 3 && ws3(s[n - 3], s[n - 2], s[n - 1]) {
        3
    } else {
        0
    }
}

/// `s` without its leading whitespace.
pub open spec fn trim_start(s: Seq<u8>) -> Seq<u8>
    decreases s.len(),
{
    if lead_ws_len(s) > 0 {
        trim_start(s.subrange(lead_ws_len(s), s.len() as int))
    } else {
        s
    }
}

/// `s` without its trailing whitespace.
pub open spec fn trim_end(s: Seq<u8>) -> Seq<u8>
    decreases s.len(),
{
    if trail_ws_len(s) > 0 {
        trim_end(s.subrange(0, s.len() - trail_ws_len(s)))
    } else {
        s
    }
}

/// ASCII lowercase of one byte.
pub open spec fn ascii_lower(b: u8) -> u8 {
    if 0x41 <= b && b <= 0x5a {
        (b + 32) as u8
    } else {
        b
    }
}

/// ASCII lowercase of a byte string.
pub open spec fn lower(s: Seq<u8>) -> Seq<u8> {
    s.map_values(|b: u8| ascii_lower(b))
}

/// The key a display type is matched by: trimmed, then lowercased (empty when absent).
pub open spec fn display_key(display_type: Option<&str>) -> Seq<u8> {
    match display_type {
        Some(t) => lower(trim_end(trim_start(t.spec_bytes()))),
        None => Seq::empty(),
    }
}

/// Value of the first entry whose lowercased key is `key`.
pub open spec fn first_match(list: Seq<(Vec<u8>, u8)>, key: Seq<u8>) -> Option<u8>
    decreases list.len(),
{
    if list.len() == 0 {
        None
    } else if lower(list[0].0@) == key {
        Some(list[0].1)
    } else {
        first_match(list.drop_first(), key)
    }
}

/// Number of positions of the segmented `23` write of a display type, if configured (at least 1).
pub open spec fn discrete_steps_spec(cfg: HelixLiveWriteCfg, display_type: Option<&str>) -> Option<u8> {
    let key = display_key(display_type);
    if key.len() == 0 {
        None
    } else {
        match first_match(cfg.discrete_23_display_types@, key) {
            Some(n) => if n >= 1 { Some(n) } else { None },
            None => None,
        }
    }
}

/// Whether the write carries a bool payload (`c2`/`c3`): not for segmented types; yes for value
/// type 2; else when the display type is a configured bool type.
pub open spec fn bool_payload_spec(cfg: HelixLiveWriteCfg, display_type: Option<&str>, value_type: Option<i32>) -> bool {
    let key = display_key(display_type);
    if discrete_steps_spec(cfg, display_type) is Some {
        false
    } else if value_type == Some(2i32) {
        true
    } else if key.len() == 0 {
        false
    } else {
        exists|i: int| 0 <= i < cfg.bool_display_types@.len() && lower(#[trigger] cfg.bool_display_types@[i]@) == key
    }
}

/// A segmented display type is never written as bool, whatever its value type (value type 2
/// included); a display type is matched whatever its case and surrounding whitespace.
pub proof fn law_segmented_wins_over_bool(cfg: HelixLiveWriteCfg, a: Option<&str>, b: Option<&str>, vt: Option<i32>)
    ensures
        discrete_steps_spec(cfg, a) is Some ==> !bool_payload_spec(cfg, a, vt),
        display_key(a) == display_key(b) ==> discrete_steps_spec(cfg, a) == discrete_steps_spec(cfg, b)
            && bool_payload_spec(cfg, a, vt) == bool_payload_spec(cfg, b, vt),
{
}

/// Parameter page override of a display type, if configured.
pub open spec fn pp_override_spec(cfg: HelixLiveWriteCfg, display_type: Option<&str>) -> Option<u8> {
    let key = display_key(display_type);
    if key.len() == 0 {
        None
    } else {
        first_match(cfg.pp_by_display_type@, key)
    }
}

/// Start and end of `b` once trimmed of whitespace.
pub(crate) fn trim_range(b: &[u8]) -> (r: (usize, usize))
    ensures
        r.0 <= r.1 <= b@.len(),
        b@.subrange(r.0 as int, r.1 as int) == trim_end(trim_start(b@)),
{
    let len: usize = b.len();
    let mut lo: usize = 0;
    assert(b@.subrange(0, len as int) =~= b@);
    while lo < len
        invariant
            lo <= len == b@.len(),
            trim_start(b@) == trim_start(b@.subrange(lo as int, len as int)),
        ensures
            lo <= len == b@.len(),
            trim_start(b@) == trim_start(b@.subrange(lo as int, len as int)),
            lo == len || lead_ws_len(b@.subrange(lo as int, len as int)) == 0,
        decreases len - lo,
    {
        let ghost rest = b@.subrange(lo as int, len as int);
        let step: usize = lead_ws_at(b, lo);
        if step == 0 {
            break;
        }
        assert(rest.subrange(step as int, rest.len() as int) =~= b@.subrange(lo + step, len as int));
        lo = lo + step;
    }
    let ghost front = b@.subrange(lo as int, len as int);
    assert(lead_ws_len(front) == 0);
    assert(trim_start(b@) == front);
    let mut hi: usize = len;
    while hi > lo
        invariant
            lo <= hi <= len == b@.len(),
            trim_start(b@) == b@.subrange(lo as int, len as int),
            trim_end(trim_start(b@)) == trim_end(b@.subrange(lo as int, hi as int)),
        ensures
            lo <= hi <= len == b@.len(),
            trim_end(trim_start(b@)) == trim_end(b@.subrange(lo as int, hi as int)),
            hi == lo || trail_ws_len(b@.subrange(lo as int, hi as int)) == 0,
        decreases hi - lo,
    {
        let ghost cur = b@.subrange(lo as int, hi as int);
        let step: usize = trail_ws_at(b, lo, hi);
        if step == 0 {
            break;
        }
        assert(cur.subrange(0, cur.len() - step) =~= b@.subrange(lo as int, hi - step));
        hi = hi - step;
    }
    proof {
        let cur = b@.subrange(lo as int, hi as int);
        if hi == lo {
            assert(trail_ws_len(cur) == 0);
        }
    }
    (lo, hi)
}

/// Byte length of the whitespace char at `b[i..]` (0 when none).
fn lead_ws_at(b: &[u8], i: usize) -> (r: usize)
    requires
        i < b@.len(),
    ensures
        r as int == lead_ws_len(b@.subrange(i as int, b@.len() as int)),
        r <= 3,
{
    let ghost s = b@.subrange(i as int, b@.len() as int);
    let n: usize = b.len() - i;
    let a = b[i];
    if a == 0x20 || (0x09 <= a && a <= 0x0d) {
        return 1;
    }
    if n >= 2 && a == 0xc2 && (b[i + 1] == 0x85 || b[i + 1] == 0xa0) {
        assert(s[1] == b[i + 1]);
        return 2;
    }
    if n >= 3 {
        let c1 = b[i + 1];
        let c2 = b[i + 2];
        assert(s[1] == c1 && s[2] == c2);
        if (a == 0xe1 && c1 == 0x9a && c2 == 0x80) || (a == 0xe2 && c1 == 0x80 && ((0x80 <= c2 && c2 <= 0x8a)
            || c2 == 0xa8 || c2 == 0xa9 || c2 == 0xaf)) || (a == 0xe2 && c1 == 0x81 && c2 == 0x9f) || (a == 0xe3
            && c1 == 0x80 && c2 == 0x80) {
            return 3;
        }
    }
    proof {
        if n >= 2 {
            assert(s[1] == b[i + 1]);
        }
    }
    0
}

/// Byte length of the whitespace char that ends `b[lo..hi]` (0 when none).
fn trail_ws_at(b: &[u8], lo: usize, hi: usize) -> (r: usize)
    requires
        lo < hi <= b@.len(),
    ensures
        r as int == trail_ws_len(b@.subrange(lo as int, hi as int)),
        r <= hi - lo,
{
    let ghost s = b@.subrange(lo as int, hi as int);
    let n: usize = hi - lo;
    let z = b[hi - 1];
    assert(s[n - 1] == z);
    if z == 0x20 || (0x09 <= z && z <= 0x0d) {
        return 1;
    }
    if n >= 2 && b[hi - 2] == 0xc2 && (z == 0x85 || z == 0xa0) {
        assert(s[n - 2] == b[hi - 2]);
        return 2;
    }
    if n >= 3 {
        let a = b[hi - 3];
        let c1 = b[hi - 2];
        assert(s[n - 3] == a && s[n - 2] == c1);
        if (a == 0xe1 && c1 == 0x9a && z == 0x80) || (a == 0xe2 && c1 == 0x80 && ((0x80 <= z && z <= 0x8a)
            || z == 0xa8 || z == 0xa9 || z == 0xaf)) || (a == 0xe2 && c1 == 0x81 && z == 0x9f) || (a == 0xe3
            && c1 == 0x80 && z == 0x80) {
            return 3;
        }
    }
    proof {
        if n >= 2 {
            assert(s[n - 2] == b[hi - 2]);
        }
    }
    0
}

pub(crate) fn lower_byte(x: u8) -> (r: u8)
    ensures
        r == ascii_lower(x),
{
    if 0x41 <= x && x <= 0x5a {
        x + 32
    } else {
        x
    }
}

/// The lowercased, trimmed display type (empty when absent).
fn display_key_bytes(display_type: Option<&str>) -> (r: Vec<u8>)
    ensures
        r@ == display_key(display_type),
{
    match display_type {
        None => Vec::new(),
        Some(t) => {
            let b = t.as_bytes();
            let (lo, hi) = trim_range(b);
            let mut out: Vec<u8> = Vec::new();
            let mut i: usize = lo;
            while i < hi
                invariant
                    lo <= i <= hi <= b@.len(),
                    out@ =~= lower(b@.subrange(lo as int, i as int)),
                decreases hi - i,
            {
                out.push(lower_byte(b[i]));
                i = i + 1;
            }
            out
        },
    }
}

/// Whether the lowercase of `k` is `key`.
fn lower_equals(k: &Vec<u8>, key: &Vec<u8>) -> (r: bool)
    ensures
        r == (lower(k@) == key@),
{
    if k.len() != key.len() {
        assert(lower(k@).len() == k@.len());
        return false;
    }
    let mut i: usize = 0;
    while i < k.len()
        invariant
            i <= k@.len() == key@.len(),
            forall|j: int| 0 <= j < i ==> ascii_lower(k@[j]) == key@[j],
        decreases k.len() - i,
    {
        if lower_byte(k[i]) != key[i] {
            assert(lower(k@)[i as int] != key@[i as int]);
            return false;
        }
        i = i + 1;
    }
    assert(lower(k@) =~= key@);
    true
}

/// Value of the first entry of `list` whose lowercased key is `key`.
fn find_first(list: &Vec<(Vec<u8>, u8)>, key: &Vec<u8>) -> (r: Option<u8>)
    ensures
        r == first_match(list@, key@),
{
    let mut i: usize = 0;
    assert(list@.subrange(0, list@.len() as int) =~= list@);
    while i < list.len()
        invariant
            i <= list@.len(),
            first_match(list@, key@) == first_match(list@.subrange(i as int, list@.len() as int), key@),
        decreases list.len() - i,
    {
        let ghost rest = list@.subrange(i as int, list@.len() as int);
        assert(rest[0] == list@[i as int]);
        if lower_equals(&list[i].0, key) {
            return Some(list[i].1);
        }
        assert(rest.drop_first() =~= list@.subrange(i + 1, list@.len() as int));
        i = i + 1;
    }
    None
}

/// Number of positions of the segmented `23` write of a display type, if configured.
pub fn discrete_23_step_count(cfg: &HelixLiveWriteCfg, display_type: Option<&str>) -> (r: Option<u8>)
    ensures
        r == discrete_steps_spec(*cfg, display_type),
{
    let key = display_key_bytes(display_type);
    if key.len() == 0 {
        return None;
    }
    match find_first(&cfg.discrete_23_display_types, &key) {
        Some(n) => if n >= 1 { Some(n) } else { None },
        None => None,
    }
}

/// Whether a live write carries a bool payload (`c2`/`c3` after `77`).
pub fn infer_bool_wire_payload(cfg: &HelixLiveWriteCfg, display_type: Option<&str>, value_type: Option<i32>) -> (r: bool)
    ensures
        r == bool_payload_spec(*cfg, display_type, value_type),
{
    if discrete_23_step_count(cfg, display_type).is_some() {
        return false;
    }
    if value_type == Some(2i32) {
        return true;
    }
    let key = display_key_bytes(display_type);
    if key.len() == 0 {
        return false;
    }
    let mut i: usize = 0;
    while i < cfg.bool_display_types.len()
        invariant
            i <= cfg.bool_display_types@.len(),
            key@ == display_key(display_type),
            key@.len() != 0,
            discrete_steps_spec(*cfg, display_type) is None,
            value_type != Some(2i32),
            forall|j: int| 0 <= j < i ==> lower(#[trigger] cfg.bool_display_types@[j]@) != key@,
        decreases cfg.bool_display_types.len() - i,
    {
        if lower_equals(&cfg.bool_display_types[i], &key) {
            assert(lower(cfg.bool_display_types@[i as int]@) == key@);
            return true;
        }
        i = i + 1;
    }
    false
}

/// Parameter page override of a display type, if configured.
pub fn pp_override_for_display_type(cfg: &HelixLiveWriteCfg, display_type: Option<&str>) -> (r: Option<u8>)
    ensures
        r == pp_override_spec(*cfg, display_type),
{
    let key = display_key_bytes(display_type);
    if key.len() == 0 {
        return None;
    }
    find_first(&cfg.pp_by_display_type, &key)
}

/// Decimal text of a signed value.
pub open spec fn int_text(v: i32) -> Seq<char> {
    if v < 0 {
        seq!['-'] + decimal_of((-v) as nat)
    } else {
        decimal_of(v as nat)
    }
}

/// Items of a list, separated by `, `.
pub open spec fn items_text(l: Seq<i32>) -> Seq<char>
    decreases l.len(),
{
    if l.len() == 0 {
        Seq::empty()
    } else if l.len() == 1 {
        int_text(l[0])
    } else {
        items_text(l.drop_last()) + ", "@ + int_text(l.last())
    }
}

/// Message of a write refused for a missing value type.
pub open spec fn missing_value_type_message() -> Seq<char> {
    "Live write USB refusé : valueType absent. Ajoute valueType dans le .models ou désactive l’écriture USB pour ce param."@
}

/// Message of a write refused for a value type outside the float list.
pub open spec fn value_type_refused_message(vt: i32, allowed: Seq<i32>) -> Seq<char> {
    "Live write USB refusé : valueType="@ + int_text(vt) + " hors liste allowedFloatValueTypes ["@ + items_text(allowed)
        + "] — le chemin float 0x27 n’est pas validé pour ce type. Capture HX Edit ou étends HelixLiveWrite.json ; sinon risque de comportement erratique sur le hardware."@
}

fn push_int(s: &mut String, v: i32)
    ensures
        final(s)@ == old(s)@ + int_text(v),
{
    if v < 0 {
        string_push_str(s, "-");
        proof {
            reveal_strlit("-");
        }
        let m: i64 = -(v as i64);
        push_decimal(s, m as u64);
        assert(old(s)@ + seq!['-'] + decimal_of((-v) as nat) =~= old(s)@ + int_text(v));
    } else {
        push_decimal(s, v as u64);
    }
}

/// Refuses a live write whose metadata matches no known wire path: a bool or segmented write
/// always passes; a float write needs a value type from the configured list.
pub fn validate_usb_live_write_metadata(
    cfg: &HelixLiveWriteCfg,
    display_type: Option<&str>,
    value_type: Option<i32>,
) -> (r: Result<(), String>)
    ensures
        (bool_payload_spec(*cfg, display_type, value_type) || discrete_steps_spec(*cfg, display_type) is Some) ==> r
            is Ok,
        !(bool_payload_spec(*cfg, display_type, value_type) || discrete_steps_spec(*cfg, display_type) is Some) ==> {
            match value_type {
                None => r matches Err(e) && e@ == missing_value_type_message(),
                Some(vt) => if cfg.allowed_float_value_types@.contains(vt) {
                    r is Ok
                } else {
                    r matches Err(e) && e@ == value_type_refused_message(vt, cfg.allowed_float_value_types@)
                },
            }
        },
{
    if infer_bool_wire_payload(cfg, display_type, value_type) {
        return Ok(());
    }
    if discrete_23_step_count(cfg, display_type).is_some() {
        return Ok(());
    }
    let vt = match value_type {
        None => {
            let mut e = String::new();
            string_push_str(&mut e, "Live write USB refusé : valueType absent. Ajoute valueType dans le .models ou désactive l’écriture USB pour ce param.");
            assert(e@ =~= missing_value_type_message());
            return Err(e);
        },
        Some(vt) => vt,
    };
    let allowed = &cfg.allowed_float_value_types;
    let mut i: usize = 0;
    while i < allowed.len()
        invariant
            i <= allowed@.len(),
            allowed == &cfg.allowed_float_value_types,
            value_type == Some(vt),
            !(bool_payload_spec(*cfg, display_type, value_type) || discrete_steps_spec(*cfg, display_type) is Some),
            forall|j: int| 0 <= j < i ==> allowed@[j] != vt,
        decreases allowed.len() - i,
    {
        if allowed[i] == vt {
            assert(allowed@.contains(vt));
            return Ok(());
        }
        i = i + 1;
    }
    let mut e = String::new();
    string_push_str(&mut e, "Live write USB refusé : valueType=");
    push_int(&mut e, vt);
    string_push_str(&mut e, " hors liste allowedFloatValueTypes [");
    let mut k: usize = 0;
    let ghost head = e@;
    while k < allowed.len()
        invariant
            k <= allowed@.len(),
            e@ =~= head + items_text(allowed@.subrange(0, k as int)),
        decreases allowed.len() - k,
    {
        let ghost before = e@;
        if k > 0 {
            string_push_str(&mut e, ", ");
        }
        push_int(&mut e, allowed[k]);
        proof {
            let sub = allowed@.subrange(0, k + 1);
            assert(sub.drop_last() =~= allowed@.subrange(0, k as int));
            if k == 0 {
                assert(items_text(allowed@.subrange(0, 0)) =~= Seq::<char>::empty());
                assert(sub.len() == 1);
            }
        }
        k = k + 1;
    }
    assert(allowed@.subrange(0, allowed@.len() as int) =~= allowed@);
    string_push_str(&mut e, "] — le chemin float 0x27 n’est pas validé pour ce type. Capture HX Edit ou étends HelixLiveWrite.json ; sinon risque de comportement erratique sur le hardware.");
    assert(!allowed@.contains(vt));
    assert(e@ =~= value_type_refused_message(vt, allowed@));
    Err(e)
}

} // verus!
