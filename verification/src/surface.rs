//! True-color pixel surfaces and how pixels are combined onto them.
use vstd::prelude::*;

verus! {

/// A color: red, green, blue and alpha.
pub type Color = [u8; 4];

/// How a source pixel is combined with the pixel below it.
#[derive(Clone, Copy, PartialEq, Eq, Structural, Debug)]
pub enum SurfaceBlendOps {
    Copy,
    CopyAlpha,
    Blend,
}

/// A surface of four bytes per pixel, red, green, blue and alpha, row by row.
pub struct Surface {
    pub width: u32,
    pub height: u32,
    pub data: Vec<u8>,
}

impl Surface {
    /// A surface of the given size with every byte 0.
    pub fn new(width: u32, height: u32) -> (s: Surface)
        requires
            width * height * 4 <= usize::MAX,
        ensures
            s.width == width,
            s.height == height,
            s.data@ == Seq::new((width * height * 4) as nat, |i: int| 0u8),
    {
        let len = (width as usize) * (height as usize) * 4;
        let mut data: Vec<u8> = Vec::with_capacity(len);
        let mut i: usize = 0;
        while i < len
            invariant
                i <= len,
                data@ == Seq::new(i as nat, |k: int| 0u8),
            decreases len - i,
        {
            data.push(0);
            i = i + 1;
            assert(data@ =~= Seq::new(i as nat, |k: int| 0u8));
        }
        Surface { width, height, data }
    }
}

} // verus!
