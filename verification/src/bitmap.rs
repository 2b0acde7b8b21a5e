//! Paletted pixel bitmaps.
use vstd::prelude::*;

verus! {

/// A bitmap of one palette index per pixel, row by row.
pub struct Bitmap {
    pub width: u32,
    pub height: u32,
    pub data: Vec<u8>,
}

impl Bitmap {
    /// A bitmap of the given size with every pixel 0.
    pub fn new(width: u32, height: u32) -> (b: Bitmap)
        requires
            width * height <= usize::MAX,
        ensures
            b.width == width,
            b.height == height,
            b.data@ == Seq::new((width * height) as nat, |i: int| 0u8),
    {
        let len = (width as usize) * (height as usize);
        let mut data: Vec<u8> = Vec::with_capacity(len);
        let mut i: usize = 0;
        while i < len
            invariant
                i <= len,
                data@ == Seq::new(i as nat, |k: int| 0u8),
            decreases len - i,
        {
            data.push(0);
            i = i + 1;
            assert(data@ =~= Seq::new(i as nat, |k: int| 0u8));
        }
        Bitmap { width, height, data }
    }

    /// A bitmap of the given size over the given pixels.
    pub fn from_raw_data(width: u32, height: u32, data: Vec<u8>) -> (b: Bitmap)
        ensures
            b.width == width,
            b.height == height,
            b.data@ == data@,
    {
        Bitmap { width, height, data }
    }
}

} // verus!
