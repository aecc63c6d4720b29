//! Model metadata of the USB assign catalogue, indexed by chain hint: the entries kept from
//! the catalogue's records, the index by hint where the preferred variant wins, and the
//! lookup of a module id read from the device.
//!
//! Text fields are held as their UTF-8 bytes.
use vstd::prelude::*;
use crate::live_write_config::{lower, lower_byte, trim_end, trim_range, trim_start};
use vstd::string::StringSliceAdditionalSpecFns;

verus! {

/// One catalogue entry indexed by its chain hint.
pub struct ChainHexCatalogEntry {
    pub chain_hex: Vec<u8>,
    pub name: Vec<u8>,
    pub category: Vec<u8>,
    pub sub_category: Vec<u8>,
    pub model_id: Vec<u8>,
    pub variant: Vec<u8>,
}

/// `s` without its leading and trailing whitespace (Unicode `White_Space`).
pub open spec fn trimmed(s: Seq<u8>) -> Seq<u8> {
    trim_end(trim_start(s))
}

/// Name of the result of `str::to_lowercase` (std): the Unicode lowercase of a string.
pub uninterp spec fn unicode_lowercase(s: Seq<char>) -> Seq<char>;

/// `str::to_lowercase` (std): the string lowercased by Unicode rules. The contract only names
/// the result; the rules are not restated.
#[verifier::external_body]
fn str_to_lowercase(s: &str) -> (r: String)
    ensures
        r@ == unicode_lowercase(s@),
{
    s.to_lowercase()
}

/// `str::trim` (std): the slice without leading and trailing whitespace, whitespace being the
/// Unicode `White_Space` characters (the ones `trim_start` and `trim_end` remove).
#[verifier::external_body]
pub(crate) fn str_trim(s: &str) -> (r: &str)
    ensures
        r.spec_bytes() == trimmed(s.spec_bytes()),
{
    s.trim()
}

/// UTF-8 bytes of `s.trim().to_lowercase()` for the UTF-8 text `s`.
pub open spec fn trim_lowercase(s: Seq<u8>) -> Seq<u8> {
    vstd::utf8::encode_utf8(unicode_lowercase(vstd::utf8::decode_utf8(trimmed(s))))
}

/// `s.trim().to_lowercase()`, as UTF-8 bytes.
fn trim_lowercase_bytes(s: &str) -> (r: Vec<u8>)
    ensures
        r@ == trim_lowercase(s.spec_bytes()),
{
    let t = str_trim(s);
    let l = str_to_lowercase(t);
    proof {
        broadcast use vstd::utf8::encode_utf8_decode_utf8;
        assert(vstd::utf8::decode_utf8(t.spec_bytes()) == t@);
    }
    let b = l.as_str().as_bytes();
    vstd::slice::slice_to_vec(b)
}

/// Bytes of `b` without leading and trailing whitespace.
pub fn trimmed_bytes(b: &[u8]) -> (r: Vec<u8>)
    ensures
        r@ == trimmed(b@),
{
    let (lo, hi) = trim_range(b);
    crate::pull_frames::slice_range(b, lo, hi)
}

/// Bytes of `b` trimmed, then lowercased ASCII-wise.
pub fn key_bytes(b: &[u8]) -> (r: Vec<u8>)
    ensures
        r@ == lower(trimmed(b@)),
{
    let t = trimmed_bytes(b);
    let mut out: Vec<u8> = Vec::new();
    let mut i: usize = 0;
    while i < t.len()
        invariant
            i <= t@.len(),
            out@ =~= lower(t@.subrange(0, i as int)),
        decreases t.len() - i,
    {
        out.push(lower_byte(t[i]));
        i = i + 1;
    }
    assert(t@.subrange(0, t@.len() as int) =~= t@);
    out
}

/// Whether two byte strings are equal.
pub fn bytes_equal(a: &[u8], b: &[u8]) -> (r: bool)
    ensures
        r == (a@ == b@),
{
    if a.len() != b.len() {
        return false;
    }
    let mut i: usize = 0;
    while i < a.len()
        invariant
            i <= a@.len() == b@.len(),
            forall|j: int| 0 <= j < i ==> a@[j] == b@[j],
        decreases a.len() - i,
    {
        if a[i] != b[i] {
            return false;
        }
        i = i + 1;
    }
    assert(a@ =~= b@);
    true
}

/// Key of a variant: trimmed, ASCII lowercase.
pub open spec fn variant_key(v: &str) -> Seq<u8> {
    lower(trimmed(v.spec_bytes()))
}

/// Variants whose chain hint repeats the amp's (`amp+cab`, `amp+cab-legacy`).
pub open spec fn shared_with_amp_key(k: Seq<u8>) -> bool {
    k == "amp+cab".spec_bytes() || k == "amp+cab-legacy".spec_bytes()
}

/// Picker variants whose `chainHexHint` repeats the `amp` entry's: they are not indexed alone.
pub fn chain_hex_hint_shared_with_amp(variant: &str) -> (r: bool)
    ensures
        r == shared_with_amp_key(variant_key(variant)),
{
    let k = key_bytes(variant.as_bytes());
    shared_with_amp_bytes(&k)
}

fn shared_with_amp_bytes(k: &Vec<u8>) -> (r: bool)
    ensures
        r == shared_with_amp_key(k@),
{
    bytes_equal(k.as_slice(), "amp+cab".as_bytes()) || bytes_equal(k.as_slice(), "amp+cab-legacy".as_bytes())
}

/// Variants whose hint is their own on the USB wire, the only ones indexed by hint.
pub fn chain_hex_hint_index_eligible(variant: &str) -> (r: bool)
    ensures
        r == !shared_with_amp_key(variant_key(variant)),
{
    !chain_hex_hint_shared_with_amp(variant)
}

/// Priority of a variant key when several entries share a chain hint.
pub open spec fn priority_of_key(k: Seq<u8>) -> i32 {
    if k == "amp".spec_bytes() {
        100
    } else if k == "preamp".spec_bytes() {
        95
    } else if k == "stereo".spec_bytes() {
        50
    } else if k == "dual".spec_bytes() {
        49
    } else if k == "mono".spec_bytes() {
        48
    } else if k == "single".spec_bytes() {
        47
    } else if k == "legacy".spec_bytes() {
        46
    } else {
        1
    }
}

fn priority_of_key_bytes(k: &[u8]) -> (r: i32)
    ensures
        r == priority_of_key(k@),
{
    if bytes_equal(k, "amp".as_bytes()) {
        100
    } else if bytes_equal(k, "preamp".as_bytes()) {
        95
    } else if bytes_equal(k, "stereo".as_bytes()) {
        50
    } else if bytes_equal(k, "dual".as_bytes()) {
        49
    } else if bytes_equal(k, "mono".as_bytes()) {
        48
    } else if bytes_equal(k, "single".as_bytes()) {
        47
    } else if bytes_equal(k, "legacy".as_bytes()) {
        46
    } else {
        1
    }
}

/// Priority of a variant (trimmed, ASCII lowercase) when a chain hint is shared: `amp` 100,
/// `preamp` 95, `stereo` 50, `dual` 49, `mono` 48, `single` 47, `legacy` 46, any other 1.
pub fn usb_assign_variant_priority(variant: &str) -> (r: i32)
    ensures
        r == priority_of_key(variant_key(variant)),
{
    let k = key_bytes(variant.as_bytes());
    priority_of_key_bytes(k.as_slice())
}

/// Priority of an entry's variant bytes.
pub open spec fn entry_priority(e: ChainHexCatalogEntry) -> i32 {
    priority_of_key(lower(trimmed(e.variant@)))
}

/// Text of an optional field, or the default.
pub open spec fn field_or(o: Option<&str>, d: &str) -> Seq<u8> {
    match o {
        Some(t) => t.spec_bytes(),
        None => d.spec_bytes(),
    }
}

/// The entry a catalogue record gives, as `(chain_hex, name, category, sub_category,
/// model_id, variant)`: none without a non-empty trimmed id, a chain hint that is not empty
/// once trimmed and lowercased, a non-empty trimmed name, or for a variant shared with the amp.
/// The variant defaults to `mono`, the category to `Unknown`, the sub-category to empty.
pub open spec fn entry_from_record_spec(
    id: Option<&str>,
    variant: Option<&str>,
    chain_hex_hint: Option<&str>,
    name: Option<&str>,
    category: Option<&str>,
    sub_category: Option<&str>,
) -> Option<(Seq<u8>, Seq<u8>, Seq<u8>, Seq<u8>, Seq<u8>, Seq<u8>)> {
    match (id, chain_hex_hint) {
        (Some(i), Some(h)) => {
            let tid = trimmed(i.spec_bytes());
            let v = lower(trimmed(field_or(variant, "mono")));
            let hint = trim_lowercase(h.spec_bytes());
            let nm = trimmed(field_or(name, ""));
            if tid.len() == 0 || hint.len() == 0 || nm.len() == 0 || shared_with_amp_key(lower(trimmed(v))) {
                None
            } else {
                Some((hint, nm, trimmed(field_or(category, "Unknown")), trimmed(field_or(sub_category, "")), tid, v))
            }
        },
        _ => None,
    }
}

fn str_or<'a>(o: Option<&'a str>, d: &'a str) -> (r: &'a str)
    ensures
        r.spec_bytes() == field_or(o, d),
{
    match o {
        Some(t) => t,
        None => d,
    }
}

/// Entry of a catalogue record (see `entry_from_record_spec`).
pub fn chain_hex_entry_from_record(
    id: Option<&str>,
    variant: Option<&str>,
    chain_hex_hint: Option<&str>,
    name: Option<&str>,
    category: Option<&str>,
    sub_category: Option<&str>,
) -> (r: Option<ChainHexCatalogEntry>)
    ensures
        match entry_from_record_spec(id, variant, chain_hex_hint, name, category, sub_category) {
            None => r is None,
            Some(t) => r matches Some(e) && e.chain_hex@ == t.0 && e.name@ == t.1 && e.category@ == t.2
                && e.sub_category@ == t.3 && e.model_id@ == t.4 && e.variant@ == t.5,
        },
{
    let i = match id {
        Some(i) => i,
        None => return None,
    };
    let h = match chain_hex_hint {
        Some(h) => h,
        None => return None,
    };
    let tid = trimmed_bytes(i.as_bytes());
    if tid.len() == 0 {
        return None;
    }
    let v = key_bytes(str_or(variant, "mono").as_bytes());
    let hint = trim_lowercase_bytes(h);
    if hint.len() == 0 {
        return None;
    }
    let nm = trimmed_bytes(str_or(name, "").as_bytes());
    if nm.len() == 0 {
        return None;
    }
    let category_b = trimmed_bytes(str_or(category, "Unknown").as_bytes());
    let sub_b = trimmed_bytes(str_or(sub_category, "").as_bytes());
    let vk = key_bytes(v.as_slice());
    if shared_with_amp_bytes(&vk) {
        return None;
    }
    Some(ChainHexCatalogEntry { chain_hex: hint, name: nm, category: category_b, sub_category: sub_b, model_id: tid, variant: v })
}

/// Index of the entry that holds chain hint `k` once the first `n` entries are indexed: an
/// entry with hint `k` replaces the current holder when its priority is at least the holder's.
pub open spec fn winner(entries: Seq<ChainHexCatalogEntry>, n: usize, k: Seq<u8>) -> Option<usize>
    decreases n,
{
    if n == 0 {
        None
    } else {
        let prev = winner(entries, (n - 1) as usize, k);
        let e = entries[n - 1];
        if e.chain_hex@ == k && (match prev {
            None => true,
            Some(p) => entry_priority(e) >= entry_priority(entries[p as int]),
        }) {
            Some((n - 1) as usize)
        } else {
            prev
        }
    }
}

/// Value of the first pair of `list` whose key is `k`.
pub open spec fn key_lookup<V>(list: Seq<(Vec<u8>, V)>, k: Seq<u8>) -> Option<V>
    decreases list.len(),
{
    if list.len() == 0 {
        None
    } else if list[0].0@ == k {
        Some(list[0].1)
    } else {
        key_lookup(list.drop_first(), k)
    }
}

/// Position of the first pair of `list` whose key is `k`, or -1.
pub open spec fn key_pos<V>(list: Seq<(Vec<u8>, V)>, k: Seq<u8>, from: int) -> int
    decreases list.len() - from,
{
    if from < 0 || from >= list.len() {
        -1
    } else if list[from].0@ == k {
        from
    } else {
        key_pos(list, k, from + 1)
    }
}

proof fn lemma_key_pos<V>(list: Seq<(Vec<u8>, V)>, k: Seq<u8>, from: int)
    requires
        0 <= from <= list.len(),
    ensures
        key_pos(list, k, from) == -1 ==> key_lookup(list.subrange(from, list.len() as int), k) is None,
        key_pos(list, k, from) != -1 ==> from <= key_pos(list, k, from) < list.len()
            && list[key_pos(list, k, from)].0@ == k
            && key_lookup(list.subrange(from, list.len() as int), k) == Some(list[key_pos(list, k, from)].1),
    decreases list.len() - from,
{
    let t = list.subrange(from, list.len() as int);
    if from < list.len() {
        assert(t[0] == list[from]);
        assert(t.drop_first() =~= list.subrange(from + 1, list.len() as int));
        if list[from].0@ != k {
            lemma_key_pos(list, k, from + 1);
        }
    }
}

proof fn lemma_key_lookup_update<V>(list: Seq<(Vec<u8>, V)>, j: int, kv: (Vec<u8>, V), k2: Seq<u8>)
    requires
        0 <= j < list.len(),
        list[j].0@ == kv.0@,
        key_pos(list, kv.0@, 0) == j,
    ensures
        key_lookup(list.update(j, kv), k2) == if k2 == kv.0@ { Some(kv.1) } else { key_lookup(list, k2) },
    decreases list.len(),
{
    let l2 = list.update(j, kv);
    if j == 0 {
        assert(l2.drop_first() =~= list.drop_first());
    } else {
        assert(list[0].0@ != kv.0@);
        assert(key_pos(list.drop_first(), kv.0@, 0) == j - 1) by {
            lemma_key_pos_shift(list, kv.0@, 1);
        }
        lemma_key_lookup_update(list.drop_first(), j - 1, kv, k2);
        assert(l2.drop_first() =~= list.drop_first().update(j - 1, kv));
    }
}

proof fn lemma_key_pos_shift<V>(list: Seq<(Vec<u8>, V)>, k: Seq<u8>, from: int)
    requires
        1 <= from <= list.len(),
    ensures
        key_pos(list, k, from) == (if key_pos(list.drop_first(), k, from - 1) == -1 { -1 } else { key_pos(list.drop_first(), k, from - 1) + 1 }),
    decreases list.len() - from,
{
    if from < list.len() {
        assert(list.drop_first()[from - 1] == list[from]);
        if list[from].0@ != k {
            lemma_key_pos_shift(list, k, from + 1);
        }
    }
}

proof fn lemma_key_lookup_push<V>(list: Seq<(Vec<u8>, V)>, kv: (Vec<u8>, V), k2: Seq<u8>)
    requires
        key_lookup(list, kv.0@) is None,
    ensures
        key_lookup(list.push(kv), k2) == if key_lookup(list, k2) is Some { key_lookup(list, k2) } else if k2 == kv.0@ { Some(kv.1) } else { None::<V> },
    decreases list.len(),
{
    if list.len() == 0 {
        assert(list.push(kv).drop_first() =~= Seq::<(Vec<u8>, V)>::empty());
    } else {
        assert(list.push(kv).drop_first() =~= list.drop_first().push(kv));
        assert(list.push(kv)[0] == list[0]);
        if list[0].0@ != k2 {
            lemma_key_lookup_push(list.drop_first(), kv, k2);
        }
    }
}

fn find_key<V>(list: &Vec<(Vec<u8>, V)>, k: &[u8]) -> (r: Option<usize>)
    ensures
        match r {
            None => key_pos(list@, k@, 0) == -1 && key_lookup(list@, k@) is None,
            Some(j) => j as int == key_pos(list@, k@, 0) && j < list@.len() && list@[j as int].0@ == k@
                && key_lookup(list@, k@) == Some(list@[j as int].1),
        },
{
    proof {
        lemma_key_pos(list@, k@, 0);
        assert(list@.subrange(0, list@.len() as int) =~= list@);
    }
    let mut j: usize = 0;
    while j < list.len()
        invariant
            j <= list@.len(),
            key_pos(list@, k@, 0) == key_pos(list@, k@, j as int),
        decreases list.len() - j,
    {
        if bytes_equal(list[j].0.as_slice(), k) {
            assert(key_pos(list@, k@, j as int) == j as int);
            proof {
                lemma_key_pos(list@, k@, 0);
                assert(list@.subrange(0, list@.len() as int) =~= list@);
            }
            return Some(j);
        }
        j = j + 1;
    }
    None
}

/// Index by chain hint of `entries`: each hint with the position of the entry that holds it
/// (see `winner`).
pub fn chain_hex_index(entries: &Vec<ChainHexCatalogEntry>) -> (r: Vec<(Vec<u8>, usize)>)
    ensures
        forall|k: Seq<u8>| #[trigger] key_lookup(r@, k) == winner(entries@, entries@.len() as usize, k),
{
    let mut idx: Vec<(Vec<u8>, usize)> = Vec::new();
    let mut i: usize = 0;
    while i < entries.len()
        invariant
            i <= entries@.len(),
            forall|k: Seq<u8>| #[trigger] key_lookup(idx@, k) == winner(entries@, i, k),
            forall|j: int| 0 <= j < idx@.len() ==> (#[trigger] idx@[j]).1 < i,
        decreases entries.len() - i,
    {
        let e = &entries[i];
        let key = crate::bytes::copy_bytes(&e.chain_hex);
        let pri = priority_of_key_bytes(key_bytes(e.variant.as_slice()).as_slice());
        let ghost before = idx@;
        match find_key(&idx, key.as_slice()) {
            Some(j) => {
                let holder = idx[j].1;
                let cur = priority_of_key_bytes(key_bytes(entries[holder].variant.as_slice()).as_slice());
                if pri >= cur {
                    let k2 = crate::bytes::copy_bytes(&e.chain_hex);
                    idx.set(j, (k2, i));
                    proof {
                        assert forall|k: Seq<u8>| #[trigger] key_lookup(idx@, k) == winner(entries@, (i + 1) as usize, k) by {
                            lemma_key_lookup_update(before, j as int, (k2, i), k);
                            assert(key_lookup(before, k) == winner(entries@, i, k));
                        }
                    }
                } else {
                    proof {
                        assert forall|k: Seq<u8>| #[trigger] key_lookup(idx@, k) == winner(entries@, (i + 1) as usize, k) by {
                            assert(key_lookup(before, k) == winner(entries@, i, k));
                        }
                    }
                }
            },
            None => {
                let k2 = crate::bytes::copy_bytes(&e.chain_hex);
                idx.push((k2, i));
                proof {
                    assert forall|k: Seq<u8>| #[trigger] key_lookup(idx@, k) == winner(entries@, (i + 1) as usize, k) by {
                        lemma_key_lookup_push(before, (k2, i), k);
                        assert(key_lookup(before, k) == winner(entries@, i, k));
                    }
                }
            },
        }
        i = i + 1;
    }
    idx
}

/// Views of byte vectors.
pub open spec fn views(s: Seq<Vec<u8>>) -> Seq<Seq<u8>> {
    s.map_values(|v: Vec<u8>| v@)
}

/// `cd` followed by four bytes starts at `i`.
pub open spec fn cd_at(h: Seq<u8>, i: int) -> bool {
    0 <= i && i + 6 <= h.len() && h[i] == 0x63 && h[i + 1] == 0x64
}

/// The six-byte windows `cd…` of `h` that start below `n`, in order.
pub open spec fn cd_windows(h: Seq<u8>, n: int) -> Seq<Seq<u8>>
    decreases n,
{
    if n <= 0 {
        Seq::empty()
    } else if cd_at(h, n - 1) {
        cd_windows(h, n - 1).push(h.subrange(n - 1, n + 5))
    } else {
        cd_windows(h, n - 1)
    }
}

/// Candidates before ordering: the whole text, its part before the first `1a` (when not
/// empty and not the whole), then every `cd` window.
pub open spec fn raw_candidates(h: Seq<u8>) -> Seq<Seq<u8>> {
    if h.len() == 0 {
        Seq::empty()
    } else {
        let p = crate::edit_slot_model::first_pair_from(h, 0x31, 0x61, 0);
        let base = if p >= 0 && p > 0 && h.subrange(0, p) != h { seq![h, h.subrange(0, p)] } else { seq![h] };
        base + cd_windows(h, h.len() - 5)
    }
}

/// The items of `s` of length `d`, in order.
pub open spec fn with_len(s: Seq<Seq<u8>>, d: int) -> Seq<Seq<u8>>
    decreases s.len(),
{
    if s.len() == 0 {
        Seq::empty()
    } else if s.last().len() == d {
        with_len(s.drop_last(), d).push(s.last())
    } else {
        with_len(s.drop_last(), d)
    }
}

/// The items of `s` with lengths from `top` down to `d`, longer first, each length in order
/// (a stable sort by decreasing length when `top` is the greatest length).
pub open spec fn by_len_desc(s: Seq<Seq<u8>>, top: int, d: int) -> Seq<Seq<u8>>
    decreases top - d + 1,
{
    if d > top {
        Seq::empty()
    } else {
        by_len_desc(s, top, d + 1) + with_len(s, d)
    }
}

/// `s` without consecutive repeats.
pub open spec fn dedup(s: Seq<Seq<u8>>) -> Seq<Seq<u8>>
    decreases s.len(),
{
    if s.len() <= 1 {
        s
    } else if s.last() == s[s.len() - 2] {
        dedup(s.drop_last())
    } else {
        dedup(s.drop_last()).push(s.last())
    }
}

/// Lookup candidates of a module id text `h` (already trimmed and lowercased): the raw
/// candidates sorted longest first (stable), without consecutive repeats.
pub open spec fn candidates_spec(h: Seq<u8>) -> Seq<Seq<u8>> {
    dedup(by_len_desc(raw_candidates(h), h.len() as int, 0))
}

proof fn lemma_dedup_last(s: Seq<Seq<u8>>)
    requires
        s.len() >= 1,
    ensures
        dedup(s).len() >= 1,
        dedup(s).last() == s.last(),
    decreases s.len(),
{
    if s.len() > 1 {
        lemma_dedup_last(s.drop_last());
    }
}

fn push_view(v: &mut Vec<Vec<u8>>, x: Vec<u8>)
    ensures
        views(final(v)@) == views(old(v)@).push(x@),
{
    let ghost x_view = x@;
    v.push(x);
    assert(views(v@) =~= views(old(v)@).push(x_view));
}

fn raw_candidates_exec(h: &Vec<u8>) -> (r: Vec<Vec<u8>>)
    ensures
        views(r@) == raw_candidates(h@),
{
    let mut out: Vec<Vec<u8>> = Vec::new();
    if h.len() == 0 {
        assert(views(out@) =~= Seq::<Seq<u8>>::empty());
        return out;
    }
    push_view(&mut out, crate::bytes::copy_bytes(h));
    match crate::edit_slot_model::find_pair_from(h.as_slice(), 0x31, 0x61, 0) {
        Some(p) => {
            let prefix = crate::pull_frames::slice_range(h.as_slice(), 0, p);
            if p > 0 && !bytes_equal(prefix.as_slice(), h.as_slice()) {
                push_view(&mut out, prefix);
            }
        },
        None => {},
    }
    let ghost base = views(out@);
    let n: usize = if h.len() >= 5 { h.len() - 5 } else { 0 };
    let hl: usize = h.len();
    let mut i: usize = 0;
    while i < n
        invariant
            i <= n,
            hl == h@.len(),
            n == (if h@.len() >= 5 { h@.len() - 5 } else { 0 }),
            n == 0 || n + 5 == h@.len(),
            views(out@) == base + cd_windows(h@, i as int),
        decreases n - i,
    {
        if h[i] == 0x63 && h[i + 1] == 0x64 {
            assert(i + 6 <= hl);
            let w = crate::pull_frames::slice_range(h.as_slice(), i, i + 6);
            push_view(&mut out, w);
            assert(base + cd_windows(h@, i + 1) =~= (base + cd_windows(h@, i as int)).push(h@.subrange(i as int, i + 6)));
        }
        i = i + 1;
    }
    proof {
        if h@.len() < 5 {
            assert(cd_windows(h@, h@.len() - 5) =~= Seq::<Seq<u8>>::empty());
            assert(cd_windows(h@, 0) =~= Seq::<Seq<u8>>::empty());
        }
    }
    out
}

fn append_with_len(res: &mut Vec<Vec<u8>>, s: &Vec<Vec<u8>>, d: usize)
    ensures
        views(final(res)@) == views(old(res)@) + with_len(views(s@), d as int),
{
    let ghost r0 = views(res@);
    let mut i: usize = 0;
    while i < s.len()
        invariant
            i <= s@.len(),
            views(res@) == r0 + with_len(views(s@).subrange(0, i as int), d as int),
        decreases s.len() - i,
    {
        let ghost t = views(s@).subrange(0, i + 1);
        assert(t.drop_last() =~= views(s@).subrange(0, i as int));
        assert(t.last() == s@[i as int]@);
        if s[i].len() == d {
            let c = crate::bytes::copy_bytes(&s[i]);
            push_view(res, c);
            assert(r0 + with_len(t, d as int) =~= (r0 + with_len(views(s@).subrange(0, i as int), d as int)).push(s@[i as int]@));
        }
        i = i + 1;
    }
    assert(views(s@).subrange(0, s@.len() as int) =~= views(s@));
}

fn sort_by_len_desc(s: &Vec<Vec<u8>>, top: usize) -> (r: Vec<Vec<u8>>)
    ensures
        views(r@) == by_len_desc(views(s@), top as int, 0),
{
    let mut res: Vec<Vec<u8>> = Vec::new();
    let mut d: usize = top;
    proof {
        assert(by_len_desc(views(s@), top as int, top + 1) =~= Seq::<Seq<u8>>::empty());
        assert(views(res@) =~= Seq::<Seq<u8>>::empty());
    }
    loop
        invariant_except_break
            d <= top,
            views(res@) == by_len_desc(views(s@), top as int, d + 1),
        ensures
            views(res@) == by_len_desc(views(s@), top as int, 0),
        decreases d,
    {
        append_with_len(&mut res, s, d);
        if d == 0 {
            break;
        }
        d = d - 1;
    }
    res
}

fn dedup_views(s: &Vec<Vec<u8>>) -> (r: Vec<Vec<u8>>)
    ensures
        views(r@) == dedup(views(s@)),
{
    let mut res: Vec<Vec<u8>> = Vec::new();
    let mut i: usize = 0;
    assert(views(res@) =~= dedup(views(s@).subrange(0, 0)));
    while i < s.len()
        invariant
            i <= s@.len(),
            views(res@) == dedup(views(s@).subrange(0, i as int)),
        decreases s.len() - i,
    {
        let ghost t = views(s@).subrange(0, i + 1);
        assert(t.drop_last() =~= views(s@).subrange(0, i as int));
        assert(t.last() == s@[i as int]@);
        if i == 0 {
            let c = crate::bytes::copy_bytes(&s[i]);
            push_view(&mut res, c);
            assert(dedup(t) =~= seq![s@[0]@]);
        } else {
            proof {
                lemma_dedup_last(views(s@).subrange(0, i as int));
                assert(t[t.len() - 2] == s@[i - 1]@);
            }
            if !bytes_equal(s[i].as_slice(), s[i - 1].as_slice()) {
                let c = crate::bytes::copy_bytes(&s[i]);
                push_view(&mut res, c);
            }
        }
        i = i + 1;
    }
    assert(views(s@).subrange(0, s@.len() as int) =~= views(s@));
    res
}

/// Candidates to join a module id read from the device with the catalogue: the text trimmed
/// and lowercased, its part before the first `1a`, and each `cd` window of six bytes; longest
/// first (stable), without consecutive repeats. Empty for an empty text.
pub fn chain_hex_lookup_candidates(hex_norm: &str) -> (r: Vec<Vec<u8>>)
    ensures
        views(r@) == candidates_spec(trim_lowercase(hex_norm.spec_bytes())),
{
    let h = trim_lowercase_bytes(hex_norm);
    let raw = raw_candidates_exec(&h);
    let sorted = sort_by_len_desc(&raw, h.len());
    dedup_views(&sorted)
}

/// Position of the entry found for the first candidate (from `i`) that the index holds.
pub open spec fn first_hit(cands: Seq<Seq<u8>>, entries: Seq<ChainHexCatalogEntry>, i: int) -> Option<usize>
    decreases cands.len() - i,
{
    if i < 0 || i >= cands.len() {
        None
    } else {
        match winner(entries, entries.len() as usize, cands[i]) {
            Some(p) => Some(p),
            None => first_hit(cands, entries, i + 1),
        }
    }
}

/// The entry whose hint matches a module id read from the device: the holder of the first
/// lookup candidate found in the index by hint.
pub open spec fn resolve_spec(entries: Seq<ChainHexCatalogEntry>, module_hex: &str) -> Option<usize> {
    first_hit(candidates_spec(trim_lowercase(module_hex.spec_bytes())), entries, 0)
}

proof fn lemma_winner_bound(entries: Seq<ChainHexCatalogEntry>, n: usize, k: Seq<u8>)
    ensures
        winner(entries, n, k) matches Some(p) ==> p < n,
    decreases n,
{
    if n > 0 {
        lemma_winner_bound(entries, (n - 1) as usize, k);
    }
}

/// A copy of an entry.
pub fn copy_entry(e: &ChainHexCatalogEntry) -> (r: ChainHexCatalogEntry)
    ensures
        r.chain_hex@ == e.chain_hex@ && r.name@ == e.name@ && r.category@ == e.category@
            && r.sub_category@ == e.sub_category@ && r.model_id@ == e.model_id@ && r.variant@ == e.variant@,
{
    ChainHexCatalogEntry {
        chain_hex: crate::bytes::copy_bytes(&e.chain_hex),
        name: crate::bytes::copy_bytes(&e.name),
        category: crate::bytes::copy_bytes(&e.category),
        sub_category: crate::bytes::copy_bytes(&e.sub_category),
        model_id: crate::bytes::copy_bytes(&e.model_id),
        variant: crate::bytes::copy_bytes(&e.variant),
    }
}

fn resolve_index(entries: &Vec<ChainHexCatalogEntry>, module_hex: &str) -> (r: Option<usize>)
    ensures
        r == resolve_spec(entries@, module_hex),
        r matches Some(p) ==> p < entries@.len(),
{
    let index = chain_hex_index(entries);
    let cands = chain_hex_lookup_candidates(module_hex);
    let ghost cs = views(cands@);
    let mut i: usize = 0;
    while i < cands.len()
        invariant
            i <= cands@.len(),
            cs == views(cands@),
            cs == candidates_spec(trim_lowercase(module_hex.spec_bytes())),
            first_hit(cs, entries@, 0) == first_hit(cs, entries@, i as int),
            forall|k: Seq<u8>| #[trigger] key_lookup(index@, k) == winner(entries@, entries@.len() as usize, k),
        decreases cands.len() - i,
    {
        assert(cs[i as int] == cands@[i as int]@);
        match find_key(&index, cands[i].as_slice()) {
            Some(j) => {
                proof { lemma_winner_bound(entries@, entries@.len() as usize, cs[i as int]); }
                return Some(index[j].1);
            },
            None => {},
        }
        i = i + 1;
    }
    None
}

/// The catalogue entry of a module id read from the device (see `resolve_spec`).
pub fn resolve_chain_hex_entry(entries: &Vec<ChainHexCatalogEntry>, module_hex: &str) -> (r: Option<ChainHexCatalogEntry>)
    ensures
        match resolve_spec(entries@, module_hex) {
            None => r is None,
            Some(p) => r matches Some(e) && e.chain_hex@ == entries@[p as int].chain_hex@
                && e.name@ == entries@[p as int].name@ && e.category@ == entries@[p as int].category@
                && e.sub_category@ == entries@[p as int].sub_category@
                && e.model_id@ == entries@[p as int].model_id@ && e.variant@ == entries@[p as int].variant@,
        },
{
    match resolve_index(entries, module_hex) {
        Some(p) => Some(copy_entry(&entries[p])),
        None => None,
    }
}

/// `(chainHexHint, model name)` of a module id read from the device.
pub fn resolve_chain_hex_and_name(entries: &Vec<ChainHexCatalogEntry>, module_hex: &str) -> (r: Option<(Vec<u8>, Vec<u8>)>)
    ensures
        match resolve_spec(entries@, module_hex) {
            None => r is None,
            Some(p) => r matches Some(t) && t.0@ == entries@[p as int].chain_hex@ && t.1@ == entries@[p as int].name@,
        },
{
    match resolve_index(entries, module_hex) {
        Some(p) => Some((crate::bytes::copy_bytes(&entries[p].chain_hex), crate::bytes::copy_bytes(&entries[p].name))),
        None => None,
    }
}

proof fn lemma_same_keys_pos<V, W>(l: Seq<(Vec<u8>, V)>, m: Seq<(Vec<u8>, W)>, k: Seq<u8>, from: int)
    requires
        l.len() == m.len(),
        forall|j: int| 0 <= j < l.len() ==> (#[trigger] l[j]).0@ == m[j].0@,
        0 <= from <= l.len(),
    ensures
        key_pos(l, k, from) == key_pos(m, k, from),
    decreases l.len() - from,
{
    if from < l.len() {
        lemma_same_keys_pos(l, m, k, from + 1);
    }
}

/// Lookups in a list with the same keys as the index `l` find the pair at the same place.
proof fn lemma_same_keys_lookup<V, W>(l: Seq<(Vec<u8>, V)>, m: Seq<(Vec<u8>, W)>, k: Seq<u8>)
    requires
        l.len() == m.len(),
        forall|j: int| 0 <= j < l.len() ==> (#[trigger] l[j]).0@ == m[j].0@,
    ensures
        key_lookup(l, k) is None <==> key_lookup(m, k) is None,
        key_lookup(l, k) is Some ==> 0 <= key_pos(l, k, 0) < l.len() && key_lookup(l, k) == Some(l[key_pos(l, k, 0)].1)
            && key_lookup(m, k) == Some(m[key_pos(l, k, 0)].1),
{
    lemma_same_keys_pos(l, m, k, 0);
    lemma_key_pos(l, k, 0);
    lemma_key_pos(m, k, 0);
    assert(l.subrange(0, l.len() as int) =~= l);
    assert(m.subrange(0, m.len() as int) =~= m);
}

/// Hint → `(category, name)` of the entry that holds it (see `winner`), for the preset
/// parser and the scroll.
pub fn module_by_hex_map(entries: &Vec<ChainHexCatalogEntry>) -> (r: Vec<(Vec<u8>, (Vec<u8>, Vec<u8>))>)
    ensures
        forall|k: Seq<u8>| match winner(entries@, entries@.len() as usize, k) {
            None => #[trigger] key_lookup(r@, k) is None,
            Some(p) => key_lookup(r@, k) matches Some(v) && v.0@ == entries@[p as int].category@ && v.1@ == entries@[p as int].name@,
        },
{
    let index = chain_hex_index(entries);
    let mut out: Vec<(Vec<u8>, (Vec<u8>, Vec<u8>))> = Vec::new();
    let mut i: usize = 0;
    while i < index.len()
        invariant
            i <= index@.len(),
            out@.len() == i,
            forall|j: int| 0 <= j < i ==> (#[trigger] out@[j]).0@ == index@[j].0@,
            forall|j: int| 0 <= j < i ==> index@[j].1 < entries@.len() ==> (#[trigger] out@[j]).1.0@ == entries@[index@[j].1 as int].category@
                && out@[j].1.1@ == entries@[index@[j].1 as int].name@,
            forall|k: Seq<u8>| #[trigger] key_lookup(index@, k) == winner(entries@, entries@.len() as usize, k),
        decreases index.len() - i,
    {
        let p = index[i].1;
        let key = crate::bytes::copy_bytes(&index[i].0);
        let v = if p < entries.len() {
            (crate::bytes::copy_bytes(&entries[p].category), crate::bytes::copy_bytes(&entries[p].name))
        } else {
            (Vec::new(), Vec::new())
        };
        out.push((key, v));
        i = i + 1;
    }
    proof {
        assert forall|k: Seq<u8>| match winner(entries@, entries@.len() as usize, k) {
            None => #[trigger] key_lookup(out@, k) is None,
            Some(p) => key_lookup(out@, k) matches Some(v) && v.0@ == entries@[p as int].category@ && v.1@ == entries@[p as int].name@,
        } by {
            lemma_same_keys_lookup(index@, out@, k);
            lemma_winner_bound(entries@, entries@.len() as usize, k);
        }
    }
    out
}

/// Hint → model id (symbolic id) of the entry that holds it (see `winner`).
pub fn model_id_by_hex_map(entries: &Vec<ChainHexCatalogEntry>) -> (r: Vec<(Vec<u8>, Vec<u8>)>)
    ensures
        forall|k: Seq<u8>| match winner(entries@, entries@.len() as usize, k) {
            None => #[trigger] key_lookup(r@, k) is None,
            Some(p) => key_lookup(r@, k) matches Some(v) && v@ == entries@[p as int].model_id@,
        },
{
    let index = chain_hex_index(entries);
    let mut out: Vec<(Vec<u8>, Vec<u8>)> = Vec::new();
    let mut i: usize = 0;
    while i < index.len()
        invariant
            i <= index@.len(),
            out@.len() == i,
            forall|j: int| 0 <= j < i ==> (#[trigger] out@[j]).0@ == index@[j].0@,
            forall|j: int| 0 <= j < i ==> index@[j].1 < entries@.len() ==> (#[trigger] out@[j]).1@ == entries@[index@[j].1 as int].model_id@,
            forall|k: Seq<u8>| #[trigger] key_lookup(index@, k) == winner(entries@, entries@.len() as usize, k),
        decreases index.len() - i,
    {
        let p = index[i].1;
        let key = crate::bytes::copy_bytes(&index[i].0);
        let v = if p < entries.len() { crate::bytes::copy_bytes(&entries[p].model_id) } else { Vec::new() };
        out.push((key, v));
        i = i + 1;
    }
    proof {
        assert forall|k: Seq<u8>| match winner(entries@, entries@.len() as usize, k) {
            None => #[trigger] key_lookup(out@, k) is None,
            Some(p) => key_lookup(out@, k) matches Some(v) && v@ == entries@[p as int].model_id@,
        } by {
            lemma_same_keys_lookup(index@, out@, k);
            lemma_winner_bound(entries@, entries@.len() as usize, k);
        }
    }
    out
}

/// The index keeps, for each hint, an entry with that hint and the highest priority among the
/// entries with that hint; a hint no entry carries is not indexed.
pub proof fn law_index_holder_has_top_priority(entries: Seq<ChainHexCatalogEntry>, n: usize, k: Seq<u8>)
    requires
        n <= entries.len(),
    ensures
        winner(entries, n, k) is None <==> (forall|q: int| 0 <= q < n ==> (#[trigger] entries[q]).chain_hex@ != k),
        winner(entries, n, k) matches Some(p) ==> p < n && entries[p as int].chain_hex@ == k
            && (forall|q: int| 0 <= q < n && (#[trigger] entries[q]).chain_hex@ == k ==> entry_priority(entries[q]) <= entry_priority(entries[p as int])),
    decreases n,
{
    if n > 0 {
        law_index_holder_has_top_priority(entries, (n - 1) as usize, k);
        let prev = winner(entries, (n - 1) as usize, k);
        let e = entries[n - 1];
        if e.chain_hex@ == k {
            assert(!(forall|q: int| 0 <= q < n ==> (#[trigger] entries[q]).chain_hex@ != k)) by {
                assert(entries[n - 1].chain_hex@ == k);
            }
        }
    }
}

/// ASCII lowercase of `b`.
pub fn lower_bytes(b: &[u8]) -> (r: Vec<u8>)
    ensures
        r@ == lower(b@),
{
    let mut out: Vec<u8> = Vec::new();
    let mut i: usize = 0;
    while i < b.len()
        invariant
            i <= b@.len(),
            out@ =~= lower(b@.subrange(0, i as int)),
        decreases b.len() - i,
    {
        out.push(lower_byte(b[i]));
        i = i + 1;
    }
    assert(b@.subrange(0, b@.len() as int) =~= b@);
    out
}

} // verus!
