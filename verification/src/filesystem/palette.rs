//! Palettes of worlds and scenes, and the scene palette animation sets.
use crate::game_palette::GamePalette;
use crate::palette::{read_color, read_colors, snes_color, Palette};
use crate::palette_anim::{PaletteAnim, PaletteAnimSet, PaletteAnimType};
use crate::reader::{le16, ByteReader};
use crate::surface::Color;
use vstd::prelude::*;

verus! {

/// A world's animation palette: all whole colors of its data.
pub fn read_world_palette_anim_data(palette_anim_index: usize, data: &Vec<u8>) -> (p: GamePalette)
    ensures
        p.index == palette_anim_index,
        p.palette.colors@.len() == data@.len() / 2,
        forall|i: int| 0 <= i < p.palette.colors@.len() ==> #[trigger] p.palette.colors@[i] == snes_color(le16(data@, 2 * i) as u16),
{
    let colors = read_colors(data);
    GamePalette { index: palette_anim_index, palette: Palette::from_colors(&colors) }
}

/// The animation type an id byte gives by its high nibble: 0x80 and 0x10 are sequences, 0x30
/// forward and 0x20 backward cycles; others are no animation.
pub open spec fn anim_type_of(id: u8) -> Option<PaletteAnimType> {
    let t = id & 0xF0;
    if t == 0x80 || t == 0x10 {
        Some(PaletteAnimType::Sequence)
    } else if t == 0x30 {
        Some(PaletteAnimType::CycleForward)
    } else if t == 0x20 {
        Some(PaletteAnimType::CycleBackward)
    } else {
        None
    }
}

/// The number of frame bytes a sequence stores: its frame count plus one for a stored sequence
/// (0x80), none for a linear one.
pub open spec fn stored_frame_count(id: u8) -> int {
    if id & 0xF0 == 0x80 { (id & 0x0F) + 1 } else { 0 }
}

/// The frames of a sequence with frame bytes at `pos`: as stored, or 0 up to the frame count
/// for a linear sequence.
pub open spec fn sequence_frames(d: Seq<u8>, pos: int, id: u8) -> Seq<usize> {
    let count = ((id & 0x0F) + 1) as nat;
    if id & 0xF0 == 0x80 {
        Seq::new(count, |k: int| d[pos + k] as usize)
    } else {
        Seq::new(count, |k: int| k as usize)
    }
}

/// The greatest frame number, 0 for none.
pub open spec fn max_frame(s: Seq<usize>) -> int
    decreases s.len(),
{
    if s.len() == 0 {
        0
    } else {
        let m = max_frame(s.drop_last());
        if s.last() > m { s.last() as int } else { m }
    }
}

/// A palette animation as read: its type, colors, delay in 60ths of a second, frames and the
/// color sets of a sequence.
pub struct AnimModel {
    pub anim_type: PaletteAnimType,
    pub color_index: int,
    pub color_count: int,
    pub delay: int,
    pub frames: Seq<usize>,
    pub colors: Seq<Color>,
}

/// The animations of a set from `pos` on, up to the zero that ends it; `None` where the data
/// ends first, a sequence address lies below 0x7380 or the colors it reads lie past the color
/// data.
/// Bytes of no animation type are skipped.
pub open spec fn parse_anim_list(d: Seq<u8>, pos: int, cd: Seq<u8>) -> Option<Seq<AnimModel>>
    decreases d.len() - pos,
{
    if pos < 0 || pos >= d.len() {
        None
    } else {
        let id = d[pos];
        if id == 0 {
            Some(Seq::empty())
        } else {
            match anim_type_of(id) {
                None => parse_anim_list(d, pos + 1, cd),
                Some(t) => {
                    if pos + 4 > d.len() {
                        None
                    } else if t != PaletteAnimType::Sequence {
                        let anim = AnimModel {
                            anim_type: t,
                            color_index: d[pos + 1] as int,
                            color_count: d[pos + 2] as int,
                            delay: d[pos + 3] as int,
                            frames: Seq::empty(),
                            colors: Seq::empty(),
                        };
                        match parse_anim_list(d, pos + 4, cd) {
                            Some(rest) => Some(seq![anim] + rest),
                            None => None,
                        }
                    } else if pos + 7 + stored_frame_count(id) > d.len() || le16(d, pos + 4) < 0x7380 {
                        None
                    } else {
                        let address = le16(d, pos + 4) - 0x7380;
                        let frames = sequence_frames(d, pos + 7, id);
                        let total = (max_frame(frames) + 1) * d[pos + 2];
                        if total > 0 && address + 2 * total > cd.len() {
                            None
                        } else {
                            let anim = AnimModel {
                                anim_type: t,
                                color_index: d[pos + 1] as int,
                                color_count: d[pos + 2] as int,
                                delay: d[pos + 3] as int,
                                frames,
                                colors: Seq::new(total as nat, |k: int| snes_color(le16(cd, address + 2 * k) as u16)),
                            };
                            match parse_anim_list(d, pos + 7 + stored_frame_count(id), cd) {
                                Some(rest) => Some(seq![anim] + rest),
                                None => None,
                            }
                        }
                    }
                },
            }
        }
    }
}

/// The animations of set `index`: the address table gives where they start in the animation
/// data; `None` where the index is past the table or the set cannot be read.
pub open spec fn palette_anim_set_model(ad: Seq<u8>, index: int, d: Seq<u8>, cd: Seq<u8>) -> Option<Seq<AnimModel>> {
    if index >= ad.len() / 2 {
        None
    } else {
        parse_anim_list(d, le16(ad, 2 * index), cd)
    }
}

/// Whether an animation holds what was read, as animation `index` of its set, at its first frame.
pub open spec fn anim_matches(a: PaletteAnim, m: AnimModel, index: int) -> bool {
    &&& a.index == index
    &&& a.anim_type == m.anim_type
    &&& a.color_index == m.color_index
    &&& a.color_count == m.color_count
    &&& a.delay_frames == m.delay
    &&& a.frames@ == m.frames
    &&& a.colors@ == m.colors
    &&& a.current_frame == 0
}

/// `acc` followed by what a parse gives, if it gives anything.
pub open spec fn prepended(acc: Seq<AnimModel>, rest: Option<Seq<AnimModel>>) -> Option<Seq<AnimModel>> {
    match rest {
        Some(r) => Some(acc + r),
        None => None,
    }
}

/// Reads `total` colors from `address` on.
fn read_sequence_colors(color_data: &Vec<u8>, address: usize, total: usize) -> (colors: Vec<Color>)
    requires
        address + 2 * total <= color_data@.len(),
    ensures
        colors@ == Seq::new(total as nat, |k: int| snes_color(le16(color_data@, address + 2 * k) as u16)),
{
    let mut reader = ByteReader::new(color_data.clone());
    reader.seek(address);
    let mut colors: Vec<Color> = Vec::with_capacity(total);
    let mut k: usize = 0;
    while k < total
        invariant
            reader.data@ == color_data@,
            address + 2 * total <= color_data@.len(),
            k <= total,
            reader.pos == address + 2 * k,
            colors@ == Seq::new(k as nat, |j: int| snes_color(le16(color_data@, address + 2 * j) as u16)),
        decreases total - k,
    {
        let c = read_color(&mut reader);
        colors.push(c);
        k = k + 1;
        assert(colors@ =~= Seq::new(k as nat, |j: int| snes_color(le16(color_data@, address + 2 * j) as u16)));
    }
    colors
}

/// What an animation holds, as read.
pub open spec fn model_of(a: PaletteAnim) -> AnimModel {
    AnimModel {
        anim_type: a.anim_type,
        color_index: a.color_index as int,
        color_count: a.color_count as int,
        delay: a.delay_frames as int,
        frames: a.frames@,
        colors: a.colors@,
    }
}

/// What one step of reading a set finds.
pub enum AnimEntry {
    /// The zero that ends the set.
    End,
    /// A byte of no animation type.
    Skip,
    /// Data that cannot be read.
    Fail,
    /// An animation.
    Anim(PaletteAnim),
}

/// Reads the entry at the reader's position as animation `anim_index` of its set.
fn read_anim_entry(data: &mut ByteReader, color_data: &Vec<u8>, anim_index: usize) -> (entry: AnimEntry)
    ensures
        final(data).data@ == old(data).data@,
        match entry {
            AnimEntry::End => parse_anim_list(old(data).data@, old(data).pos as int, color_data@) == Some(Seq::<AnimModel>::empty()),
            AnimEntry::Skip => {
                &&& final(data).pos == old(data).pos + 1
                &&& old(data).pos < old(data).data@.len()
                &&& parse_anim_list(old(data).data@, old(data).pos as int, color_data@) == parse_anim_list(old(data).data@, final(data).pos as int, color_data@)
            },
            AnimEntry::Fail => parse_anim_list(old(data).data@, old(data).pos as int, color_data@) is None,
            AnimEntry::Anim(a) => {
                &&& final(data).pos > old(data).pos
                &&& final(data).pos <= old(data).data@.len()
                &&& a.index == anim_index
                &&& a.current_frame == 0
                &&& parse_anim_list(old(data).data@, old(data).pos as int, color_data@) == prepended(seq![model_of(a)], parse_anim_list(old(data).data@, final(data).pos as int, color_data@))
            },
        },
{
    let ghost d = data.data@;
    let ghost cd = color_data@;
    let ghost pos = data.pos as int;
    if !data.has(1) {
        return AnimEntry::Fail;
    }
    let id = data.read_u8();
    if id == 0 {
        return AnimEntry::End;
    }
    let t = id & 0xF0;
    let anim_type = if t == 0x80 || t == 0x10 {
        PaletteAnimType::Sequence
    } else if t == 0x30 {
        PaletteAnimType::CycleForward
    } else if t == 0x20 {
        PaletteAnimType::CycleBackward
    } else {
        return AnimEntry::Skip;
    };
    if !data.has(3) {
        return AnimEntry::Fail;
    }
    let color_index = data.read_u8() as usize;
    let color_count = data.read_u8() as usize;
    let delay = data.read_u8() as u32;
    let mut frames: Vec<usize> = Vec::new();
    let mut colors: Vec<Color> = Vec::new();
    if anim_type == PaletteAnimType::Sequence {
        if !data.has(3) {
            return AnimEntry::Fail;
        }
        let raw = data.read_u16_le() as usize;
        data.read_u8();
        let frame_count = (id & 0x0F) as usize;
        assert(id & 0x0F <= 15) by (bit_vector);
        if id & 0xF0 == 0x80 {
            if !data.has(frame_count + 1) {
                return AnimEntry::Fail;
            }
        }
        if raw < 0x7380 {
            return AnimEntry::Fail;
        }
        let address = raw - 0x7380;
        if id & 0xF0 == 0x80 {
            let mut f: usize = 0;
            while f <= frame_count
                invariant
                    data.data@ == d,
                    frame_count <= 15,
                    f <= frame_count + 1,
                    data.pos == pos + 7 + f,
                    pos + 7 + frame_count + 1 <= d.len(),
                    frames@ == Seq::new(f as nat, |k: int| d[pos + 7 + k] as usize),
                decreases frame_count + 1 - f,
            {
                let v = data.read_u8() as usize;
                frames.push(v);
                f = f + 1;
                assert(frames@ =~= Seq::new(f as nat, |k: int| d[pos + 7 + k] as usize));
            }
        } else {
            let mut f: usize = 0;
            while f <= frame_count
                invariant
                    frame_count <= 15,
                    f <= frame_count + 1,
                    frames@ == Seq::new(f as nat, |k: int| k as usize),
                decreases frame_count + 1 - f,
            {
                frames.push(f);
                f = f + 1;
                assert(frames@ =~= Seq::new(f as nat, |k: int| k as usize));
            }
        }
        assert(frames@ =~= sequence_frames(d, pos + 7, id));
        let mut set_count: usize = 0;
        let mut g: usize = 0;
        while g < frames.len()
            invariant
                g <= frames@.len(),
                set_count == max_frame(frames@.take(g as int)),
                set_count <= 255,
                forall|k: int| 0 <= k < frames@.len() ==> #[trigger] frames@[k] <= 255,
            decreases frames@.len() - g,
        {
            assert(frames@.take(g as int + 1).drop_last() =~= frames@.take(g as int));
            if frames[g] > set_count {
                set_count = frames[g];
            }
            g = g + 1;
        }
        assert(frames@.take(frames@.len() as int) =~= frames@);
        assert((set_count + 1) * color_count <= 65280) by (nonlinear_arith)
            requires
                set_count <= 255,
                color_count <= 255,
        ;
        let total = (set_count + 1) * color_count;
        if total > 0 && address + 2 * total > color_data.len() {
            return AnimEntry::Fail;
        }
        if total > 0 {
            colors = read_sequence_colors(color_data, address, total);
        } else {
            assert(colors@ =~= Seq::new(0, |k: int| snes_color(le16(color_data@, address + 2 * k) as u16)));
        }
    }
    let anim = PaletteAnim {
        index: anim_index,
        anim_type,
        color_index,
        color_count,
        delay_frames: delay,
        frames,
        colors,
        current_frame: 0,
    };
    AnimEntry::Anim(anim)
}

/// Reads palette animation set `index`: `address_data` holds where each set starts in
/// `anim_data`, and sequences take their colors from `color_data`. `None` where the set cannot
/// be read.
pub fn read_palette_anim_set(index: usize, address_data: &Vec<u8>, anim_data: &Vec<u8>, color_data: &Vec<u8>) -> (set: Option<PaletteAnimSet>)
    ensures
        match set {
            Some(s) => {
                &&& palette_anim_set_model(address_data@, index as int, anim_data@, color_data@) matches Some(anims)
                &&& s.index == index
                &&& s.anims@.len() == anims.len()
                &&& forall|i: int| 0 <= i < anims.len() ==> anim_matches(#[trigger] s.anims@[i], anims[i], i)
            },
            None => palette_anim_set_model(address_data@, index as int, anim_data@, color_data@) is None,
        },
{
    let anim_count = address_data.len() / 2;
    if index >= anim_count {
        return None;
    }
    let mut addresses = ByteReader::new(address_data.clone());
    addresses.seek(index * 2);
    let offset = addresses.read_u16_le() as usize;
    let ghost d = anim_data@;
    let ghost cd = color_data@;
    let mut data = ByteReader::new(anim_data.clone());
    data.seek(offset);
    let mut anims: Vec<PaletteAnim> = Vec::new();
    let ghost mut acc: Seq<AnimModel> = Seq::empty();
    assert(palette_anim_set_model(address_data@, index as int, d, cd) == parse_anim_list(d, offset as int, cd));
    assert(parse_anim_list(d, offset as int, cd) == prepended(acc, parse_anim_list(d, offset as int, cd))) by {
        match parse_anim_list(d, offset as int, cd) {
            Some(r) => {
                assert(acc + r =~= r);
            },
            None => {},
        }
    }
    loop
        invariant
            data.data@ == d,
            d == anim_data@,
            cd == color_data@,
            anims@.len() == acc.len(),
            forall|i: int| 0 <= i < acc.len() ==> anim_matches(#[trigger] anims@[i], acc[i], i),
            parse_anim_list(d, offset as int, cd) == prepended(acc, parse_anim_list(d, data.pos as int, cd)),
            palette_anim_set_model(address_data@, index as int, d, cd) == parse_anim_list(d, offset as int, cd),
        decreases d.len() - data.pos,
    {
        let ghost before = data.pos as int;
        let entry = read_anim_entry(&mut data, color_data, anims.len());
        match entry {
            AnimEntry::End => {
                assert(acc + Seq::<AnimModel>::empty() =~= acc);
                return Some(PaletteAnimSet { index, anims });
            },
            AnimEntry::Fail => {
                return None;
            },
            AnimEntry::Skip => {},
            AnimEntry::Anim(anim) => {
                let ghost model = model_of(anim);
                proof {
                    match parse_anim_list(d, data.pos as int, cd) {
                        Some(r) => {
                            assert(acc + (seq![model] + r) =~= acc.push(model) + r);
                        },
                        None => {},
                    }
                    acc = acc.push(model);
                }
                anims.push(anim);
            },
        }
    }
}

} // verus!
