use vstd::prelude::*;

verus! {

/// Byte `b` of a payload, or zero past its end. The payload of one frame is
/// 22 bytes long, and the window of three bytes read by `channel_ref` may
/// reach one byte past it for the last channel; those bits fall outside the
/// 11-bit mask, so their value does not matter.
pub open spec fn byte_at(p: Seq<u8>, b: int) -> u8 {
    if 0 <= b < p.len() {
        p[b]
    } else {
        0
    }
}

/// The reference value of channel `i` of a packed payload `p`: the 11 bits
/// at bit offset `11 * i` of the little-endian bitstream formed by the bytes
/// of `p`, least-significant bit first. The three consecutive bytes covering
/// that window are assembled low byte first, the in-byte offset is shifted
/// off, and the result is masked to 11 bits.
pub open spec fn channel_ref(p: Seq<u8>, i: int) -> u16 {
    let lo = 11 * i;
    let b = lo / 8;
    let r = (lo % 8) as u32;
    let window = (byte_at(p, b) as u32) | ((byte_at(p, b + 1) as u32) << 8u32) | ((byte_at(
        p,
        b + 2,
    ) as u32) << 16u32);
    (((window >> r) & 0x7ff) as u16)
}

} // verus!
