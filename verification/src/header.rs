use crate::error::WavError;
use vstd::prelude::*;

verus! {

/// Number of bytes in the fixed container header.
pub const HEADER_LEN: usize = 44;

/// The unsigned value of the 2-byte little-endian field at `off`.
pub open spec fn spec_le16(b: Seq<u8>, off: int) -> int {
    b[off] + b[off + 1] * 0x100
}

/// The unsigned value of the 4-byte little-endian field at `off`.
pub open spec fn spec_le32(b: Seq<u8>, off: int) -> int {
    b[off] + b[off + 1] * 0x100 + b[off + 2] * 0x10000 + b[off + 3] * 0x1000000
}

/// Both magic markers of the fixed header: ASCII `RIFF` at bytes [0,4)
/// and ASCII `WAVE` at bytes [8,12).
pub open spec fn spec_magic_ok(b: Seq<u8>) -> bool {
    &&& b[0] == 0x52u8
    &&& b[1] == 0x49u8
    &&& b[2] == 0x46u8
    &&& b[3] == 0x46u8
    &&& b[8] == 0x57u8
    &&& b[9] == 0x41u8
    &&& b[10] == 0x56u8
    &&& b[11] == 0x45u8
}

/// The triple a well-formed header encodes, in the order the decoder
/// returns it: channel count, bits per sample, sample rate.
pub open spec fn spec_header_fields(b: Seq<u8>) -> (u16, u16, u32) {
    (
        spec_le16(b, 22) as u16,
        spec_le16(b, 34) as u16,
        spec_le32(b, 24) as u32,
    )
}

/// Decode the fixed 44-byte container header.
///
/// A buffer shorter than 44 bytes stands for a stream that ended before
/// the header was complete and yields `IoError`.  A complete header
/// whose magic markers are wrong yields `MalformedContainer` and no
/// partial metadata.  Otherwise the result is exactly the three fields
/// encoded little-endian at their fixed offsets: channel count at byte
/// 22, bits per sample at byte 34, sample rate at byte 24.
pub fn decode_header(header: &[u8]) -> (r: Result<(u16, u16, u32), WavError>)
    ensures
        header@.len() < HEADER_LEN ==> r == Err::<(u16, u16, u32), WavError>(WavError::IoError),
        header@.len() >= HEADER_LEN && !spec_magic_ok(header@) ==> r == Err::<(u16, u16, u32), WavError>(
            WavError::MalformedContainer,
        ),
        header@.len() >= HEADER_LEN && spec_magic_ok(header@) ==> r == Ok::<(u16, u16, u32), WavError>(
            spec_header_fields(header@),
        ),
{
    if header.len() < HEADER_LEN {
        return Err(WavError::IoError);
    }
    let riff_ok = header[0] == 0x52 && header[1] == 0x49 && header[2] == 0x46
        && header[3] == 0x46;
    let wave_ok = header[8] == 0x57 && header[9] == 0x41 && header[10] == 0x56
        && header[11] == 0x45;
    if !riff_ok || !wave_ok {
        return Err(WavError::MalformedContainer);
    }
    let channels = le16_at(header, 22);
    let bits_per_sample = le16_at(header, 34);
    let rate = le32_at(header, 24);
    Ok((channels, bits_per_sample, rate))
}

/// Read the 2-byte little-endian field at `off`.
fn le16_at(b: &[u8], off: usize) -> (r: u16)
    requires
        off + 2 <= b@.len(),
    ensures
        r == spec_le16(b@, off as int),
{
    b[off] as u16 + (b[off + 1] as u16) * 0x100
}

/// Read the 4-byte little-endian field at `off`.
fn le32_at(b: &[u8], off: usize) -> (r: u32)
    requires
        off + 4 <= b@.len(),
    ensures
        r == spec_le32(b@, off as int),
{
    b[off] as u32 + (b[off + 1] as u32) * 0x100 + (b[off + 2] as u32) * 0x10000
        + (b[off + 3] as u32) * 0x1000000
}

} // verus!
