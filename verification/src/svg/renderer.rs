//! Pixel data between the renderer, which writes RGBA, and the tray, which
//! takes ARGB.

use vstd::prelude::*;

verus! {

/// The pixels of `rgba` with the alpha byte of each pixel moved from the end
/// of its four bytes to their front.
pub open spec fn spec_rgba_to_argb(rgba: Seq<u8>) -> Seq<u8> {
    Seq::new(
        rgba.len(),
        |i: int|
            if i % 4 == 0 {
                rgba[i + 3]
            } else {
                rgba[i - 1]
            },
    )
}

/// Turns pixels of four bytes each from RGBA into ARGB.
pub fn rgba_to_argb(rgba: &[u8]) -> (argb: Vec<u8>)
    requires
        rgba@.len() % 4 == 0,
    ensures
        argb@ == spec_rgba_to_argb(rgba@),
{
    let mut argb: Vec<u8> = Vec::new();
    let mut i: usize = 0;
    while i < rgba.len()
        invariant
            i <= rgba.len(),
            i % 4 == 0,
            rgba@.len() % 4 == 0,
            argb@ == spec_rgba_to_argb(rgba@).take(i as int),
        decreases rgba.len() - i,
    {
        argb.push(rgba[i + 3]);
        argb.push(rgba[i]);
        argb.push(rgba[i + 1]);
        argb.push(rgba[i + 2]);
        assert(argb@ =~= spec_rgba_to_argb(rgba@).take(i as int + 4));
        i += 4;
    }
    assert(spec_rgba_to_argb(rgba@).take(rgba@.len() as int) =~= spec_rgba_to_argb(rgba@));
    argb
}

} // verus!
