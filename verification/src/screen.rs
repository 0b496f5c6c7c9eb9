//! Palette conversion for the renderer: 12-bit hardware palette entries to
//! 32-bit opaque RGB colours.

use vstd::prelude::*;

verus! {

/// The 32-bit opaque RGB colour a 12-bit hardware palette entry expands to:
/// each 4-bit component is widened into its byte of the result, under a fully
/// opaque alpha byte.
pub open spec fn spec_rgb_of(st_col: u16) -> u32 {
    0xff00_0000u32 | (((st_col as u32) & 0xf) << 4) << 16 | ((st_col as u32) & 0xf0) << 8 | (((
    st_col as u32) & 0xf00) >> 4)
}

/// Expands the first `st_palette_len` hardware palette entries into 32-bit
/// opaque RGB colours; the rest of the output palette is untouched.
pub fn build_rgb_palette(rgb_palette: &mut Vec<u32>, st_palette: &Vec<u16>, st_palette_len: usize)
    requires
        st_palette_len <= st_palette@.len(),
        st_palette_len <= old(rgb_palette)@.len(),
    ensures
        final(rgb_palette)@.len() == old(rgb_palette)@.len(),
        forall|i: int|
            0 <= i < st_palette_len ==> final(rgb_palette)@[i] == spec_rgb_of(st_palette@[i]),
        forall|i: int|
            st_palette_len <= i < old(rgb_palette)@.len() ==> final(rgb_palette)@[i] == old(
                rgb_palette,
            )@[i],
{
    let mut i: usize = 0;
    while i < st_palette_len
        invariant
            i <= st_palette_len,
            st_palette_len <= st_palette@.len(),
            st_palette_len <= old(rgb_palette)@.len(),
            rgb_palette@.len() == old(rgb_palette)@.len(),
            forall|t: int| 0 <= t < i ==> rgb_palette@[t] == spec_rgb_of(st_palette@[t]),
            forall|t: int|
                i <= t < old(rgb_palette)@.len() ==> rgb_palette@[t] == old(rgb_palette)@[t],
        decreases st_palette_len - i,
    {
        let st_col = st_palette[i];
        let b = ((st_col as u32) & 0xf) << 4;
        let g = (st_col as u32) & 0xf0;
        let r = ((st_col as u32) & 0xf00) >> 4;
        rgb_palette[i] = 0xff00_0000u32 | b << 16 | g << 8 | r;
        i += 1;
    }
}

} // verus!
