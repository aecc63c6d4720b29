use vstd::prelude::*;

verus! {

/// A packet to send to the device on the OUT endpoint.
pub struct OutPacket {
    pub data: Vec<u8>,
    /// Delay before sending, in milliseconds.
    pub delay_ms: u64,
    /// Packets sent on the wire right after `data`, with nothing from the queue in between.
    pub tail_burst: Vec<Vec<u8>>,
}

impl OutPacket {
    /// Packet without delay.
    pub fn new(data: Vec<u8>) -> (r: Self)
        ensures
            r.data@ == data@,
            r.delay_ms == 0,
            r.tail_burst@.len() == 0,
    {
        OutPacket { data, delay_ms: 0, tail_burst: Vec::new() }
    }

    /// Packet with a delay in milliseconds.
    pub fn with_delay(data: Vec<u8>, delay_ms: u64) -> (r: Self)
        ensures
            r.data@ == data@,
            r.delay_ms == delay_ms,
            r.tail_burst@.len() == 0,
    {
        OutPacket { data, delay_ms, tail_burst: Vec::new() }
    }

    /// `head` then each element of `tail` as one USB burst (one queue entry).
    pub fn with_tail_burst(head: Vec<u8>, tail: Vec<Vec<u8>>) -> (r: Self)
        ensures
            r.data@ == head@,
            r.delay_ms == 0,
            r.tail_burst@ == tail@,
    {
        OutPacket { data: head, delay_ms: 0, tail_burst: tail }
    }
}

/// `true` when `data` starts with the internal frame header `08 00 00 18`.
pub open spec fn starts_with_frame_header(data: Seq<u8>) -> bool {
    data.len() >= 4 && data[0] == 0x08 && data[1] == 0x00 && data[2] == 0x00 && data[3] == 0x18
}

/// Bytes 4..8 of `data` equal `a b c d`.
pub open spec fn op_is(data: Seq<u8>, a: u8, b: u8, c: u8, d: u8) -> bool {
    data.len() >= 8 && data[4] == a && data[5] == b && data[6] == c && data[7] == d
}

/// The rolling counter of a frame (byte 9) for the framings that carry it.
pub open spec fn packet_counter_spec(data: Seq<u8>) -> Option<u8> {
    if data.len() >= 10 && (starts_with_frame_header(data) || data[0] == 0x1d || data[0]
        == 0x19 || data[0] == 0x21 || data[0] == 0x27) {
        Some(data[9])
    } else {
        None
    }
}

pub fn packet_counter(data: &[u8]) -> (r: Option<u8>)
    ensures
        r == packet_counter_spec(data@),
{
    if data.len() >= 10 && data[0] == 0x08 && data[1] == 0x00 && data[2] == 0x00 && data[3]
        == 0x18 {
        return Some(data[9]);
    }
    if data.len() >= 10 && (data[0] == 0x1d || data[0] == 0x19 || data[0] == 0x21 || data[0]
        == 0x27) {
        return Some(data[9]);
    }
    None
}

/// `data` holds the 4-byte window `a b c d` at some position.
pub open spec fn has_window4(data: Seq<u8>, a: u8, b: u8, c: u8, d: u8) -> bool {
    exists|i: int| #[trigger] window4_at(data, i, a, b, c, d)
}

/// `data[i..i + 4] == a b c d`.
pub open spec fn window4_at(data: Seq<u8>, i: int, a: u8, b: u8, c: u8, d: u8) -> bool {
    0 <= i && i + 4 <= data.len() && data[i] == a && data[i + 1] == b && data[i + 2] == c
        && data[i + 3] == d
}

/// `data[i..i + 3] == a b c`.
pub open spec fn window3_at(data: Seq<u8>, i: int, a: u8, b: u8, c: u8) -> bool {
    0 <= i && i + 3 <= data.len() && data[i] == a && data[i + 1] == b && data[i + 2] == c
}

/// `data` holds the 3-byte window `a b c` at some position.
pub open spec fn has_window3(data: Seq<u8>, a: u8, b: u8, c: u8) -> bool {
    exists|i: int| #[trigger] window3_at(data, i, a, b, c)
}

/// Finds whether `data` holds the window `a b c d`.
pub fn contains_window4(data: &[u8], a: u8, b: u8, c: u8, d: u8) -> (r: bool)
    ensures
        r == has_window4(data@, a, b, c, d),
{
    if data.len() < 4 {
        return false;
    }
    let n: usize = data.len() - 3;
    let mut i: usize = 0;
    while i < n
        invariant
            n == data.len() - 3,
            i <= n,
            forall|j: int| 0 <= j < i ==> !#[trigger] window4_at(data@, j, a, b, c, d),
        decreases n - i,
    {
        if data[i] == a && data[i + 1] == b && data[i + 2] == c && data[i + 3] == d {
            assert(window4_at(data@, i as int, a, b, c, d));
            return true;
        }
        i = i + 1;
    }
    false
}

/// Finds whether `data` holds the window `a b c`.
pub fn contains_window3(data: &[u8], a: u8, b: u8, c: u8) -> (r: bool)
    ensures
        r == has_window3(data@, a, b, c),
{
    if data.len() < 3 {
        return false;
    }
    let n: usize = data.len() - 2;
    let mut i: usize = 0;
    while i < n
        invariant
            n == data.len() - 2,
            i <= n,
            forall|j: int| 0 <= j < i ==> !#[trigger] window3_at(data@, j, a, b, c),
        decreases n - i,
    {
        if data[i] == a && data[i + 1] == b && data[i + 2] == c {
            assert(window3_at(data@, i as int, a, b, c));
            return true;
        }
        i = i + 1;
    }
    false
}

/// Classification label of an OUT packet.
pub open spec fn classify_out_spec(data: Seq<u8>) -> Seq<char> {
    if data.len() >= 8 {
        if op_is(data, 0x01, 0x10, 0xef, 0x03) {
            "out_keepalive_x1"@
        } else if op_is(data, 0x02, 0x10, 0xf0, 0x03) {
            "out_keepalive_x2"@
        } else if op_is(data, 0x80, 0x10, 0xed, 0x03) {
            if has_window4(data, 0x82, 0x62, 0x00, 0x1a) {
                "out_slot_switch"@
            } else if data.len() >= 48 && data[0] == 0x27 {
                "out_live_write_27"@
            } else {
                "out_keepalive_x80_or_ed03"@
            }
        } else if op_is(data, 0xf0, 0x03, 0x02, 0x10) {
            "out_preset_or_routing"@
        } else {
            "out_other"@
        }
    } else {
        "out_other"@
    }
}

pub fn classify_out_packet(data: &[u8]) -> (r: &'static str)
    ensures
        r@ == classify_out_spec(data@),
{
    if data.len() >= 8 {
        if data[4] == 0x01 && data[5] == 0x10 && data[6] == 0xef && data[7] == 0x03 {
            return "out_keepalive_x1";
        }
        if data[4] == 0x02 && data[5] == 0x10 && data[6] == 0xf0 && data[7] == 0x03 {
            return "out_keepalive_x2";
        }
        if data[4] == 0x80 && data[5] == 0x10 && data[6] == 0xed && data[7] == 0x03 {
            if contains_window4(data, 0x82, 0x62, 0x00, 0x1a) {
                return "out_slot_switch";
            }
            if data.len() >= 48 && data[0] == 0x27 {
                return "out_live_write_27";
            }
            return "out_keepalive_x80_or_ed03";
        }
        if data[4] == 0xf0 && data[5] == 0x03 && data[6] == 0x02 && data[7] == 0x10 {
            return "out_preset_or_routing";
        }
    }
    "out_other"
}

/// Classification label of an IN packet.
pub open spec fn classify_in_spec(data: Seq<u8>) -> Seq<char> {
    if op_is(data, 0xef, 0x03, 0x01, 0x10) {
        "in_ack_x1_or_slot"@
    } else if op_is(data, 0xed, 0x03, 0x80, 0x10) {
        "in_ack_x80_or_slot"@
    } else if op_is(data, 0xf0, 0x03, 0x02, 0x10) {
        "in_x2_stream"@
    } else {
        "in_other"@
    }
}

pub fn classify_in_packet(data: &[u8]) -> (r: &'static str)
    ensures
        r@ == classify_in_spec(data@),
{
    if data.len() >= 8 {
        if data[4] == 0xef && data[5] == 0x03 && data[6] == 0x01 && data[7] == 0x10 {
            return "in_ack_x1_or_slot";
        }
        if data[4] == 0xed && data[5] == 0x03 && data[6] == 0x80 && data[7] == 0x10 {
            return "in_ack_x80_or_slot";
        }
        if data[4] == 0xf0 && data[5] == 0x03 && data[6] == 0x02 && data[7] == 0x10 {
            return "in_x2_stream";
        }
    }
    "in_other"
}

/// The first `length` bytes of `data` match `pattern`, `None` being a wildcard.
pub open spec fn byte_cmp_spec(data: Seq<u8>, pattern: Seq<Option<u8>>, length: usize) -> bool {
    &&& data.len() >= length
    &&& pattern.len() >= length
    &&& forall|i: int| 0 <= i < length ==> (#[trigger] pattern[i] matches Some(v) ==> data[i] == v)
}

/// Compares the first `length` bytes of `data` with `pattern` (`None` = any byte).
pub fn byte_cmp(data: &[u8], pattern: &[Option<u8>], length: usize) -> (r: bool)
    ensures
        r == byte_cmp_spec(data@, pattern@, length),
{
    if data.len() < length || pattern.len() < length {
        return false;
    }
    let mut i: usize = 0;
    while i < length
        invariant
            i <= length,
            data.len() >= length,
            pattern.len() >= length,
            forall|j: int| 0 <= j < i ==> (#[trigger] pattern@[j] matches Some(v) ==> data@[j] == v),
        decreases length - i,
    {
        match pattern[i] {
            Some(expected) => {
                if data[i] != expected {
                    return false;
                }
            },
            None => {},
        }
        i = i + 1;
    }
    true
}

/// `data[i..i + pat.len()] == pat`.
pub open spec fn window_at(data: Seq<u8>, i: int, pat: Seq<u8>) -> bool {
    0 <= i && i + pat.len() <= data.len() && data.subrange(i, i + pat.len()) == pat
}

/// `data` holds `pat` as a contiguous window.
pub open spec fn has_window(data: Seq<u8>, pat: Seq<u8>) -> bool {
    exists|i: int| #[trigger] window_at(data, i, pat)
}

/// Finds whether `data` holds `pat` as a contiguous window (an empty `pat` is found).
pub fn contains_window(data: &[u8], pat: &[u8]) -> (r: bool)
    ensures
        r == has_window(data@, pat@),
{
    if pat.len() > data.len() {
        assert forall|i: int| !window_at(data@, i, pat@) by {}
        return false;
    }
    if pat.len() == 0 {
        assert(data@.subrange(0, 0) =~= pat@);
        assert(window_at(data@, 0, pat@));
        return true;
    }
    let n: usize = data.len() - pat.len() + 1;
    let mut i: usize = 0;
    while i < n
        invariant
            pat.len() >= 1,
            n == data.len() - pat.len() + 1,
            i <= n,
            forall|j: int| 0 <= j < i ==> !#[trigger] window_at(data@, j, pat@),
        decreases n - i,
    {
        let mut k: usize = 0;
        let mut same = true;
        while k < pat.len()
            invariant
                k <= pat.len(),
                i + pat.len() <= data.len(),
                same == (forall|m: int| 0 <= m < k ==> data@[i + m] == pat@[m]),
            decreases pat.len() - k,
        {
            if data[i + k] != pat[k] {
                same = false;
            }
            k = k + 1;
        }
        if same {
            assert(data@.subrange(i as int, i + pat.len()) =~= pat@);
            assert(window_at(data@, i as int, pat@));
            return true;
        }
        assert(!window_at(data@, i as int, pat@)) by {
            if window_at(data@, i as int, pat@) {
                assert forall|m: int| 0 <= m < pat.len() implies data@[i + m] == pat@[m] by {
                    assert(data@.subrange(i as int, i + pat.len())[m] == data@[i + m]);
                }
                assert(same);
            }
        }
        i = i + 1;
    }
    false
}

} // verus!
