use rgb::FromSlice;
use vstd::prelude::*;

verus! {

/// An 8-bit colour with alpha, in the byte order of an RGBA framebuffer.
#[derive(PartialEq, Eq, Structural, Clone, Copy, Debug)]
pub struct Rgba8 {
    pub r: u8,
    pub g: u8,
    pub b: u8,
    pub a: u8,
}

/// `frame` with pixel `idx` (bytes `4 * idx .. 4 * idx + 4`) set to `color`.
pub open spec fn with_pixel(frame: Seq<u8>, idx: int, color: Rgba8) -> Seq<u8> {
    frame.update(4 * idx, color.r).update(4 * idx + 1, color.g).update(4 * idx + 2, color.b).update(
        4 * idx + 3,
        color.a,
    )
}

/// Number of whole pixels that a byte frame holds.
pub open spec fn pixel_count(frame: Seq<u8>) -> int {
    frame.len() as int / 4
}

/// Writes `color` as pixel `idx` of `frame`, through rgb's
/// `FromSlice::as_rgba_mut`, which views the bytes as `RGBA<u8>` pixels of
/// four bytes each in the order red, green, blue, alpha (the type is
/// `#[repr(C)]`) and drops a trailing incomplete pixel. The contract claims
/// that the write changes exactly those four bytes; indexing past the last
/// whole pixel panics, which `requires` rules out.
#[verifier::external_body]
fn store_rgba(frame: &mut [u8], idx: usize, color: Rgba8)
    requires
        idx < pixel_count(old(frame)@),
    ensures
        final(frame)@ == with_pixel(old(frame)@, idx as int, color),
{
    frame.as_rgba_mut()[idx] = rgb::RGBA8 { r: color.r, g: color.g, b: color.b, a: color.a };
}

/// Sets the pixel at column `x` and row `y` of a framebuffer `width` pixels
/// wide, stored row after row as RGBA bytes.
pub fn put_pixel(frame: &mut [u8], width: usize, x: usize, y: usize, color: Rgba8)
    requires
        width * y + x < pixel_count(old(frame)@),
    ensures
        final(frame)@ == with_pixel(old(frame)@, width * y + x, color),
{
    let len: usize = frame.len();
    assert(width * y + x <= len);
    let idx: usize = width * y + x;
    store_rgba(frame, idx, color);
}

} // verus!
