//! Recognition of the preset dump stream: chunks `08 01 00 18 ed 03 80 10` sub=`04` (272
//! bytes, the last one shorter) and the 16-byte `ed:03` sub=`08` echo that
//! closes a burst.
use vstd::prelude::*;

verus! {

/// A preset dump stream chunk: head `08 01` (the stream marker, also on the last, partial
/// chunk), `00 18 ed 03 80 10`, sub=`04`, with a payload after byte 16.
pub open spec fn stream_chunk_spec(data: Seq<u8>) -> bool {
    &&& data.len() > 16
    &&& data[0] == 0x08 && data[1] == 0x01
    &&& data[2] == 0x00 && data[3] == 0x18
    &&& data[4] == 0xed && data[5] == 0x03 && data[6] == 0x80 && data[7] == 0x10
    &&& data[11] == 0x04
}

pub fn is_preset_dump_stream_chunk_in(data: &[u8]) -> (r: bool)
    ensures
        r == stream_chunk_spec(data@),
{
    data.len() > 16 && data[0] == 0x08 && data[1] == 0x01 && data[2]
        == 0x00 && data[3] == 0x18 && data[4] == 0xed && data[5] == 0x03 && data[6] == 0x80
        && data[7] == 0x10 && data[11] == 0x04
}

/// The 16-byte `ed:03:80:10` sub=`08` echo of the stream.
pub open spec fn stream_ack_echo_spec(data: Seq<u8>) -> bool {
    &&& data.len() == 16
    &&& data[0] == 0x08 && data[1] == 0x00 && data[2] == 0x00 && data[3] == 0x18
    &&& data[4] == 0xed && data[5] == 0x03 && data[6] == 0x80 && data[7] == 0x10
    &&& data[11] == 0x08
}

pub fn is_preset_dump_stream_ack_echo_in(data: &[u8]) -> (r: bool)
    ensures
        r == stream_ack_echo_spec(data@),
{
    data.len() == 16 && data[0] == 0x08 && data[1] == 0x00 && data[2] == 0x00 && data[3] == 0x18
        && data[4] == 0xed && data[5] == 0x03 && data[6] == 0x80 && data[7] == 0x10 && data[11]
        == 0x08
}

} // verus!
