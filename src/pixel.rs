//! Pixels in the compositor's native channel order, and the in-place swap of
//! blue and red that turns a BGRA byte stream into an RGBA one.
use vstd::prelude::*;

verus! {

/// A pixel color in BGRA8 format: blue, green, red, alpha, one byte each.
#[derive(Copy, Clone, Debug, PartialOrd, PartialEq, Eq, Ord, Structural)]
pub struct BGRA8 {
    /// Blue channel.
    pub b: u8,
    /// Green channel.
    pub g: u8,
    /// Red channel.
    pub r: u8,
    /// Alpha channel (0 is transparent, 255 opaque).
    pub a: u8,
}

/// Whether byte `k` lies in a complete group of four bytes of a buffer of `len` bytes.
pub open spec fn in_full_chunk(k: int, len: int) -> bool {
    k - k % 4 + 4 <= len
}

/// Byte `k` of `s` after the first and third byte of every complete group of
/// four have been exchanged; a trailing partial group is left as it is.
pub open spec fn swapped_byte(s: Seq<u8>, k: int) -> u8 {
    if in_full_chunk(k, s.len() as int) && k % 4 == 0 {
        s[k + 2]
    } else if in_full_chunk(k, s.len() as int) && k % 4 == 2 {
        s[k - 2]
    } else {
        s[k]
    }
}

/// The byte stream `s` with blue and red exchanged in every complete pixel.
pub open spec fn rgba_order(s: Seq<u8>) -> Seq<u8> {
    Seq::new(s.len(), |k: int| swapped_byte(s, k))
}

/// Converts a BGRA byte stream to RGBA in place, one pixel at a time.
pub fn bgra_to_rgba_scalar(buf: &mut [u8])
    ensures
        final(buf)@ == rgba_order(old(buf)@),
{
    let ghost orig = buf@;
    let len = buf.len();
    let mut i: usize = 0;
    while len - i >= 4
        invariant
            len == buf@.len(),
            len == orig.len(),
            i % 4 == 0,
            i <= len,
            forall|k: int| 0 <= k < i ==> #[trigger] buf@[k] == swapped_byte(orig, k),
            forall|k: int| i <= k < len ==> #[trigger] buf@[k] == orig[k],
        decreases len - i,
    {
        let first = buf[i];
        let third = buf[i + 2];
        buf[i] = third;
        buf[i + 2] = first;
        i = i + 4;
    }
    assert forall|k: int| i <= k < len implies !in_full_chunk(k, len as int) by {}
    assert(buf@ =~= rgba_order(orig));
}

/// Converts a BGRA byte stream to RGBA in place.
///
/// Every complete group of four bytes has its first and third byte exchanged;
/// a trailing partial group is left unchanged.
pub fn bgra_to_rgba(s: &mut [u8])
    ensures
        final(s)@ == rgba_order(old(s)@),
{
    bgra_to_rgba_scalar(s);
}

} // verus!
