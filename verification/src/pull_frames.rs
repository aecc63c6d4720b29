//! IN frame classifiers of the hardware model change flow (`1d` / `1f` notifications,
//! `21` post-assign notice, pull replies) and the extractors the pull reads from them.
use vstd::prelude::*;
use crate::packet::{has_window3, has_window4, has_window, contains_window, contains_window3, contains_window4};
use crate::slots::{is_special_slot_bus, is_special_slot_bus_spec};
use crate::text::{hex_of, hex_string};

verus! {

/// IN `21` 44-byte "model stored on this slot" notice (the host does not answer it).
pub open spec fn post_assign_21_spec(data: Seq<u8>) -> bool {
    &&& data.len() == 44
    &&& data[0] == 0x21
    &&& data[24] == 0x82 && data[25] == 0x69 && data[26] == 0x27 && data[27] == 0x6a
    &&& has_window4(data, 0x82, 0x62, 0x01, 0x1a)
}

pub fn is_hw_model_post_assign_21(data: &[u8]) -> (r: bool)
    ensures
        r == post_assign_21_spec(data@),
{
    data.len() == 44 && data[0] == 0x21 && data[24] == 0x82 && data[25] == 0x69 && data[26]
        == 0x27 && data[27] == 0x6a && contains_window4(data, 0x82, 0x62, 0x01, 0x1a)
}

/// Model change notification `1d` / `1f` / `21` on `f0:03:02:10` with marker `09 02`.
pub open spec fn change_notify_loose_spec(data: Seq<u8>) -> bool {
    &&& data.len() >= 32
    &&& (data[0] == 0x1d || data[0] == 0x1f || data[0] == 0x21)
    &&& data[1] == 0x00 && data[2] == 0x00 && data[3] == 0x18
    &&& data[4] == 0xf0 && data[5] == 0x03 && data[6] == 0x02 && data[7] == 0x10
    &&& data[12] == 0x09 && data[13] == 0x02
}

pub fn is_hw_model_change_notify_loose(data: &[u8]) -> (r: bool)
    ensures
        r == change_notify_loose_spec(data@),
{
    data.len() >= 32 && (data[0] == 0x1d || data[0] == 0x1f || data[0] == 0x21) && data[1]
        == 0x00 && data[2] == 0x00 && data[3] == 0x18 && data[4] == 0xf0 && data[5] == 0x03
        && data[6] == 0x02 && data[7] == 0x10 && data[12] == 0x09 && data[13] == 0x02
}

/// The 40-byte form of a model change notification.
pub fn is_hw_model_change_notify_40(data: &[u8]) -> (r: bool)
    ensures
        r == (data@.len() == 40 && change_notify_loose_spec(data@) && data@[8] == 0x00
            && data@[10] == 0x00 && data@[11] == 0x04),
{
    data.len() == 40 && is_hw_model_change_notify_loose(data) && data[8] == 0x00 && data[10]
        == 0x00 && data[11] == 0x04
}

pub open spec fn change_notify_1f_spec(data: Seq<u8>) -> bool {
    change_notify_loose_spec(data) && data[0] == 0x1f
}

pub fn is_hw_model_change_notify_1f(data: &[u8]) -> (r: bool)
    ensures
        r == change_notify_1f_spec(data@),
{
    is_hw_model_change_notify_loose(data) && data[0] == 0x1f
}

/// Suffix of the IN `1f` "None" notification (slot emptied on the hardware).
pub open spec fn none_notify_mark() -> Seq<u8> {
    seq![0x82u8, 0x69, 0x31, 0x6a, 0x84, 0x52, 0x00, 0x44, 0x05, 0x79, 0x0e, 0x6a]
}

pub open spec fn slot_cleared_spec(data: Seq<u8>) -> bool {
    change_notify_1f_spec(data) && has_window(data, none_notify_mark())
}

pub fn is_hw_model_slot_cleared_notify(data: &[u8]) -> (r: bool)
    ensures
        r == slot_cleared_spec(data@),
{
    if !is_hw_model_change_notify_1f(data) {
        return false;
    }
    let mark: [u8; 12] = [0x82, 0x69, 0x31, 0x6a, 0x84, 0x52, 0x00, 0x44, 0x05, 0x79, 0x0e, 0x6a];
    assert(mark@ == none_notify_mark());
    contains_window(data, &mark)
}

/// The only entry that starts a pull: a `1f` that is not the "None" notification.
pub open spec fn pull_trigger_spec(data: Seq<u8>) -> bool {
    change_notify_1f_spec(data) && !slot_cleared_spec(data)
}

pub fn is_hw_model_pull_trigger_notify(data: &[u8]) -> (r: bool)
    ensures
        r == pull_trigger_spec(data@),
{
    is_hw_model_change_notify_1f(data) && !is_hw_model_slot_cleared_notify(data)
}

/// `1d` notification of a hardware scroll (marker `82:69:31:6a`).
pub open spec fn scroll_1d_spec(data: Seq<u8>) -> bool {
    data.len() >= 1 && data[0] == 0x1d && has_window4(data, 0x82, 0x69, 0x31, 0x6a)
}

pub fn is_hw_model_scroll_1d(data: &[u8]) -> (r: bool)
    ensures
        r == scroll_1d_spec(data@),
{
    data.len() >= 1 && data[0] == 0x1d && contains_window4(data, 0x82, 0x69, 0x31, 0x6a)
}

/// First non-structural bus after `81:62` at a position below `len - 3`, from `i` on.
pub open spec fn scan_8162_from(data: Seq<u8>, i: int) -> Option<u8>
    decreases data.len() - i,
{
    if i < 0 || i >= data.len() - 3 {
        None
    } else if data[i] == 0x81 && data[i + 1] == 0x62 && !is_special_slot_bus_spec(data[i + 2]) {
        Some(data[i + 2])
    } else {
        scan_8162_from(data, i + 1)
    }
}

/// Bus in a `1d`/`1f` notification (`81:62:SS`), fallback of the pull.
pub open spec fn slot_bus_from_notify_spec(data: Seq<u8>) -> Option<u8> {
    if change_notify_loose_spec(data) {
        scan_8162_from(data, 0)
    } else {
        None
    }
}

pub fn parse_slot_bus_from_model_notify(data: &[u8]) -> (r: Option<u8>)
    ensures
        r == slot_bus_from_notify_spec(data@),
{
    if !is_hw_model_change_notify_loose(data) {
        return None;
    }
    let n: usize = data.len() - 3;
    let mut i: usize = 0;
    while i < n
        invariant
            n == data.len() - 3,
            i <= n,
            change_notify_loose_spec(data@),
            scan_8162_from(data@, 0) == scan_8162_from(data@, i as int),
        decreases n - i,
    {
        if data[i] == 0x81 && data[i + 1] == 0x62 {
            let bus = data[i + 2];
            if !is_special_slot_bus(bus) {
                return Some(bus);
            }
        }
        i = i + 1;
    }
    None
}

/// Position of the first `b` in `buf` at or after `from`.
pub open spec fn find_byte_from(buf: Seq<u8>, from: int, b: u8) -> Option<int>
    decreases buf.len() - from,
{
    if from < 0 || from >= buf.len() {
        None
    } else if buf[from] == b {
        Some(from)
    } else {
        find_byte_from(buf, from + 1, b)
    }
}

fn find_byte(buf: &[u8], from: usize, b: u8) -> (r: Option<usize>)
    ensures
        r matches Some(k) ==> find_byte_from(buf@, from as int, b) == Some(k as int),
        r is None ==> find_byte_from(buf@, from as int, b) is None,
{
    let mut k = from;
    while k < buf.len()
        invariant
            from <= k,
            find_byte_from(buf@, from as int, b) == find_byte_from(buf@, k as int, b),
        decreases buf.len() - k,
    {
        if buf[k] == b {
            return Some(k);
        }
        k = k + 1;
    }
    None
}

/// First module id `19 <id> 1a` of a bulk (1 to 12 bytes, not preceded by `83 17 c3`),
/// scanning from `cursor`.
pub open spec fn first_module_id_from(buf: Seq<u8>, cursor: int) -> Option<Seq<u8>>
    decreases buf.len() - cursor, 1int,
{
    if cursor < 0 || cursor >= buf.len() {
        None
    } else if buf[cursor] != 0x19 {
        first_module_id_from(buf, cursor + 1)
    } else if cursor >= 3 && buf[cursor - 3] == 0x83 && buf[cursor - 2] == 0x17 && buf[cursor
        - 1] == 0xc3 {
        first_module_id_from(buf, cursor + 1)
    } else {
        match find_byte_from(buf, cursor + 1, 0x1a) {
            None => first_module_id_from(buf, cursor + 1),
            Some(end) => {
                if cursor < end && end < buf.len() {
                    let id = buf.subrange(cursor + 1, end);
                    if id.len() == 0 || id.len() > 12 {
                        first_module_id_from(buf, end + 1)
                    } else {
                        Some(id)
                    }
                } else {
                    None
                }
            },
        }
    }
}

proof fn lemma_find_byte_bounds(buf: Seq<u8>, from: int, b: u8)
    ensures
        find_byte_from(buf, from, b) matches Some(k) ==> from <= k < buf.len() && buf[k] == b,
    decreases buf.len() - from,
{
    if from >= 0 && from < buf.len() && buf[from] != b {
        lemma_find_byte_bounds(buf, from + 1, b);
    }
}

proof fn lemma_find_byte_first(buf: Seq<u8>, from: int, b: u8)
    ensures
        find_byte_from(buf, from, b) matches Some(k) ==> forall|i: int| from <= i < k ==> buf[i] != b,
    decreases buf.len() - from,
{
    if from >= 0 && from < buf.len() && buf[from] != b {
        lemma_find_byte_first(buf, from + 1, b);
    }
}

/// A module id framed in `buf` at `c`: `19`, then the id (1 to 12 bytes, no `1a`), then `1a`,
/// the `19` not preceded by `83 17 c3`.
pub open spec fn framed_module_id_at(buf: Seq<u8>, c: int, id: Seq<u8>) -> bool {
    &&& 0 <= c && c + id.len() + 1 < buf.len()
    &&& 1 <= id.len() <= 12
    &&& buf[c] == 0x19
    &&& buf.subrange(c + 1, c + 1 + id.len()) == id
    &&& buf[c + 1 + id.len()] == 0x1a
    &&& forall|i: int| 0 <= i < id.len() ==> id[i] != 0x1a
    &&& !(c >= 3 && buf[c - 3] == 0x83 && buf[c - 2] == 0x17 && buf[c - 1] == 0xc3)
}

proof fn lemma_first_module_id_framed(buf: Seq<u8>, cursor: int) -> (c: int)
    ensures
        first_module_id_from(buf, cursor) matches Some(id) ==> cursor <= c && framed_module_id_at(buf, c, id),
    decreases buf.len() - cursor,
{
    if cursor < 0 || cursor >= buf.len() {
        cursor
    } else if buf[cursor] != 0x19 {
        lemma_first_module_id_framed(buf, cursor + 1)
    } else if cursor >= 3 && buf[cursor - 3] == 0x83 && buf[cursor - 2] == 0x17 && buf[cursor - 1] == 0xc3 {
        lemma_first_module_id_framed(buf, cursor + 1)
    } else {
        lemma_find_byte_bounds(buf, cursor + 1, 0x1a);
        lemma_find_byte_first(buf, cursor + 1, 0x1a);
        match find_byte_from(buf, cursor + 1, 0x1a) {
            None => lemma_first_module_id_framed(buf, cursor + 1),
            Some(end) => {
                let id = buf.subrange(cursor + 1, end);
                if id.len() == 0 || id.len() > 12 {
                    lemma_first_module_id_framed(buf, end + 1)
                } else {
                    assert forall|i: int| 0 <= i < id.len() implies id[i] != 0x1a by {
                        assert(id[i] == buf[cursor + 1 + i]);
                    }
                    cursor
                }
            },
        }
    }
}

/// The module id read from a bulk is framed in it: a `19` (not right after `83 17 c3`), the
/// id of 1 to 12 bytes without `1a`, then `1a`; the text is its lowercase hex.
pub proof fn law_module_hex_is_framed_id(buf: Seq<u8>)
    ensures
        module_hex_spec(buf) is Some ==> exists|c: int, id: Seq<u8>| #[trigger] framed_module_id_at(buf, c, id)
            && module_hex_spec(buf) == Some(hex_of(id)),
        (forall|i: int| 0 <= i < buf.len() ==> buf[i] != 0x19) ==> module_hex_spec(buf) is None,
{
    let c = lemma_first_module_id_framed(buf, 0);
    if let Some(id) = first_module_id_from(buf, 0) {
        assert(framed_module_id_at(buf, c, id));
    }
    if forall|i: int| 0 <= i < buf.len() ==> buf[i] != 0x19 {
        let c2 = lemma_first_module_id_framed(buf, 0);
        if first_module_id_from(buf, 0) is Some {
            assert(buf[c2] == 0x19);
        }
    }
}

/// Hexadecimal text of the first module id of a bulk.
pub open spec fn module_hex_spec(buf: Seq<u8>) -> Option<Seq<char>> {
    match first_module_id_from(buf, 0) {
        Some(id) => Some(hex_of(id)),
        None => None,
    }
}

pub fn extract_first_module_hex_from_bulk(buf: &[u8]) -> (r: Option<String>)
    ensures
        r is Some <==> module_hex_spec(buf@) is Some,
        r matches Some(s) ==> module_hex_spec(buf@) == Some(s@),
{
    let mut cursor: usize = 0;
    while cursor < buf.len()
        invariant
            first_module_id_from(buf@, 0) == first_module_id_from(buf@, cursor as int),
        decreases buf.len() - cursor,
    {
        if buf[cursor] != 0x19 {
            cursor = cursor + 1;
            continue;
        }
        if cursor >= 3 && buf[cursor - 3] == 0x83 && buf[cursor - 2] == 0x17 && buf[cursor - 1]
            == 0xc3 {
            cursor = cursor + 1;
            continue;
        }
        let id_start = cursor + 1;
        proof {
            lemma_find_byte_bounds(buf@, id_start as int, 0x1a);
        }
        match find_byte(buf, id_start, 0x1a) {
            None => {
                cursor = cursor + 1;
                continue;
            },
            Some(end) => {
                let id_len = end - id_start;
                if id_len == 0 || id_len > 12 {
                    cursor = end + 1;
                    continue;
                }
                let id = slice_range(buf, id_start, end);
                let hex = hex_string(&id);
                return Some(hex);
            },
        }
    }
    None
}

/// Copy of `buf[from..to]`.
pub fn slice_range(buf: &[u8], from: usize, to: usize) -> (r: Vec<u8>)
    requires
        from <= to <= buf@.len(),
    ensures
        r@ == buf@.subrange(from as int, to as int),
{
    let mut out: Vec<u8> = Vec::new();
    let mut k = from;
    while k < to
        invariant
            from <= k <= to,
            to <= buf@.len(),
            out@ == buf@.subrange(from as int, k as int),
        decreases to - k,
    {
        out.push(buf[k]);
        assert(buf@.subrange(from as int, k + 1) == buf@.subrange(from as int, k as int).push(
            buf@[k as int],
        ));
        k = k + 1;
    }
    out
}

/// Frame holding the assign marker `83 66 cd`.
pub open spec fn assign_marker_spec(data: Seq<u8>) -> bool {
    has_window3(data, 0x83, 0x66, 0xcd)
}

pub fn frame_has_assign_marker(data: &[u8]) -> (r: bool)
    ensures
        r == assign_marker_spec(data@),
{
    contains_window3(data, 0x83, 0x66, 0xcd)
}

/// Assignable bulk: 48 bytes or more with the assign marker.
pub open spec fn assign_response_spec(data: Seq<u8>) -> bool {
    data.len() >= 48 && assign_marker_spec(data)
}

pub fn bulk_looks_like_assign_response(data: &[u8]) -> (r: bool)
    ensures
        r == assign_response_spec(data@),
{
    data.len() >= 48 && frame_has_assign_marker(data)
}

/// Byte after the first `83:66:cd` (block lane), from `i` on.
pub open spec fn cd_lane_from(data: Seq<u8>, i: int) -> Option<u8>
    decreases data.len() - i,
{
    if i < 0 || i + 4 > data.len() {
        None
    } else if data[i] == 0x83 && data[i + 1] == 0x66 && data[i + 2] == 0xcd {
        Some(data[i + 3])
    } else {
        cd_lane_from(data, i + 1)
    }
}

pub fn cd_lane_byte(data: &[u8]) -> (r: Option<u8>)
    ensures
        r == cd_lane_from(data@, 0),
{
    if data.len() < 4 {
        return None;
    }
    let n: usize = data.len() - 3;
    let mut i: usize = 0;
    while i < n
        invariant
            n == data.len() - 3,
            i <= n,
            cd_lane_from(data@, 0) == cd_lane_from(data@, i as int),
        decreases n - i,
    {
        if data[i] == 0x83 && data[i + 1] == 0x66 && data[i + 2] == 0xcd {
            return Some(data[i + 3]);
        }
        i = i + 1;
    }
    None
}

/// Final pull bulk (~272 bytes): 180 bytes or more.
pub open spec fn final_meta_bulk_spec(data: Seq<u8>) -> bool {
    data.len() >= 180
}

pub fn is_pull_final_meta_bulk(data: &[u8]) -> (r: bool)
    ensures
        r == final_meta_bulk_spec(data@),
{
    data.len() >= 180
}

/// IN `1c` 36-byte stub holding the assign marker (a rejection).
pub open spec fn in_1c_stub_spec(data: Seq<u8>) -> bool {
    data.len() == 36 && data[0] == 0x1c && assign_marker_spec(data)
}

pub fn is_in_1c_stub(data: &[u8]) -> (r: bool)
    ensures
        r == in_1c_stub_spec(data@),
{
    data.len() == 36 && data[0] == 0x1c && frame_has_assign_marker(data)
}

pub open spec fn first_pull_reply_spec(data: Seq<u8>) -> bool {
    !final_meta_bulk_spec(data) && ((data.len() >= 1 && (data[0] == 0x53 || data[0] == 0x51
        || data[0] == 0x47 || data[0] == 0x6c || data[0] == 0x50)) || (90 <= data.len() < 120
        && data[0] == 0x56) || (80 <= data.len() < 120 && assign_response_spec(data))
        || in_1c_stub_spec(data))
}

pub fn looks_like_first_pull_reply(data: &[u8]) -> (r: bool)
    ensures
        r == first_pull_reply_spec(data@),
{
    if is_pull_final_meta_bulk(data) {
        return false;
    }
    (data.len() >= 1 && (data[0] == 0x53 || data[0] == 0x51 || data[0] == 0x47 || data[0]
        == 0x6c || data[0] == 0x50)) || (data.len() >= 90 && data.len() < 120 && data[0]
        == 0x56) || (data.len() >= 80 && data.len() < 120 && bulk_looks_like_assign_response(
        data,
    )) || is_in_1c_stub(data)
}

pub open spec fn second_pull_reply_spec(data: Seq<u8>) -> bool {
    !final_meta_bulk_spec(data) && ((data.len() >= 1 && data[0] == 0x39) || in_1c_stub_spec(
        data,
    ) || (48 <= data.len() < 120 && assign_response_spec(data)))
}

pub fn looks_like_second_pull_reply(data: &[u8]) -> (r: bool)
    ensures
        r == second_pull_reply_spec(data@),
{
    if is_pull_final_meta_bulk(data) {
        return false;
    }
    (data.len() >= 1 && data[0] == 0x39) || is_in_1c_stub(data) || (data.len() >= 48
        && data.len() < 120 && bulk_looks_like_assign_response(data))
}

/// Two bytes after the first `83:66:cd:PP` at a position below `len - 5`, from `i` on.
pub open spec fn double_after_cd_from(data: Seq<u8>, i: int) -> Option<(u8, u8)>
    decreases data.len() - i,
{
    if i < 0 || i >= data.len() - 5 {
        None
    } else if data[i] == 0x83 && data[i + 1] == 0x66 && data[i + 2] == 0xcd {
        Some((data[i + 4], data[i + 5]))
    } else {
        double_after_cd_from(data, i + 1)
    }
}

pub fn preset_double_after_cd(data: &[u8]) -> (r: Option<[u8; 2]>)
    ensures
        r is Some <==> double_after_cd_from(data@, 0) is Some,
        r matches Some(d) ==> double_after_cd_from(data@, 0) == Some((d@[0], d@[1])),
{
    if data.len() < 6 {
        return None;
    }
    let n: usize = data.len() - 5;
    let mut i: usize = 0;
    while i < n
        invariant
            n == data.len() - 5,
            i <= n,
            double_after_cd_from(data@, 0) == double_after_cd_from(data@, i as int),
        decreases n - i,
    {
        if data[i] == 0x83 && data[i + 1] == 0x66 && data[i + 2] == 0xcd {
            let d = [data[i + 4], data[i + 5]];
            assert(d@[0] == data@[i + 4] && d@[1] == data@[i + 5]);
            return Some(d);
        }
        i = i + 1;
    }
    None
}

} // verus!
