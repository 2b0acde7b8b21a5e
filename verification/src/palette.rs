//! Color palettes and the SNES color format.
use crate::reader::{le16, ByteReader};
use crate::surface::Color;
use vstd::prelude::*;

verus! {

/// A list of colors.
pub struct Palette {
    pub colors: Vec<Color>,
}

/// A five bit color component scaled to eight bits and rounded to the nearest value.
pub open spec fn component8(v: int) -> u8 {
    ((v * 255 + 15) / 31) as u8
}

/// The color of a 15 bit SNES color word: five bits each of red, green and blue, opaque.
pub open spec fn snes_color(word: u16) -> Color {
    [component8((word & 0x1F) as int), component8(((word >> 5u16) & 0x1F) as int), component8(((word >> 10u16) & 0x1F) as int), 0xFF]
}

/// A five bit color component scaled to eight bits.
fn scale_component(v: u16) -> (c: u8)
    requires
        v < 32,
    ensures
        c == component8(v as int),
{
    ((v as u32 * 255 + 15) / 31) as u8
}

impl Palette {
    /// A palette of `count` transparent black colors.
    pub fn new(count: usize) -> (p: Palette)
        ensures
            p.colors@ == Seq::new(count as nat, |i: int| [0u8, 0u8, 0u8, 0u8]),
    {
        let mut colors: Vec<Color> = Vec::with_capacity(count);
        let mut i: usize = 0;
        while i < count
            invariant
                i <= count,
                colors@ == Seq::new(i as nat, |k: int| [0u8, 0u8, 0u8, 0u8]),
            decreases count - i,
        {
            colors.push([0, 0, 0, 0]);
            i = i + 1;
            assert(colors@ =~= Seq::new(i as nat, |k: int| [0u8, 0u8, 0u8, 0u8]));
        }
        Palette { colors }
    }

    /// A palette of the given colors.
    pub fn from_colors(colors: &Vec<Color>) -> (p: Palette)
        ensures
            p.colors@ == colors@,
    {
        let mut copy: Vec<Color> = Vec::with_capacity(colors.len());
        let mut i: usize = 0;
        while i < colors.len()
            invariant
                i <= colors@.len(),
                copy@ == colors@.subrange(0, i as int),
            decreases colors@.len() - i,
        {
            copy.push(colors[i]);
            i = i + 1;
        }
        assert(copy@ =~= colors@);
        Palette { colors: copy }
    }
}

/// Reads an SNES color: a little-endian word of five bits per component.
pub fn read_color(reader: &mut ByteReader) -> (c: Color)
    requires
        old(reader).pos + 2 <= old(reader).data@.len(),
    ensures
        final(reader).data@ == old(reader).data@,
        final(reader).pos == old(reader).pos + 2,
        c == snes_color(le16(old(reader).data@, old(reader).pos as int) as u16),
{
    let data = reader.read_u16_le();
    assert((data & 0x1F) < 32 && ((data >> 5) & 0x1F) < 32 && ((data >> 10) & 0x1F) < 32) by (bit_vector);
    [scale_component(data & 0x1F), scale_component((data >> 5) & 0x1F), scale_component((data >> 10) & 0x1F), 0xFF]
}

/// Reads all whole colors of the data, one after the other.
pub fn read_colors(data: &Vec<u8>) -> (colors: Vec<Color>)
    ensures
        colors@.len() == data@.len() / 2,
        forall|i: int| 0 <= i < colors@.len() ==> #[trigger] colors@[i] == snes_color(le16(data@, 2 * i) as u16),
{
    let count = data.len() / 2;
    let mut reader = ByteReader::new(data.clone());
    let mut colors: Vec<Color> = Vec::with_capacity(count);
    let mut i: usize = 0;
    while i < count
        invariant
            count == data@.len() / 2,
            i <= count,
            reader.data@ == data@,
            reader.pos == 2 * i,
            colors@.len() == i,
            forall|k: int| 0 <= k < i ==> #[trigger] colors@[k] == snes_color(le16(data@, 2 * k) as u16),
        decreases count - i,
    {
        let c = read_color(&mut reader);
        colors.push(c);
        i = i + 1;
    }
    colors
}

} // verus!
