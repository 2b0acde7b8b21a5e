//! The PC release's data: how its files are laid out and what is decoded from them.
use crate::filesystem::resourcesbin::ResourcesBin;
use crate::fmt::{push_decimal, string_from};
use crate::palette::{read_color, snes_color, Palette};
use crate::reader::{le16, le32, ByteReader};
use crate::surface::Color;
use vstd::prelude::*;

verus! {

/// Where the PC release's files are read from: a directory, or the packed resources archive.
#[derive(Clone, Copy, PartialEq, Eq, Structural, Debug)]
pub enum FileSystemBackendPcMode {
    FileSystem,
    ResourcesBin,
}

/// The PC release's data: its base directory, how files are read, and the archive when files
/// come from one.
pub struct FileSystemBackendPc {
    pub base_path: String,
    pub mode: FileSystemBackendPcMode,
    pub resources: Option<ResourcesBin>,
}

impl FileSystemBackendPc {
    /// A backend over a base directory; in archive mode, `resources` holds the opened archive.
    pub fn new(base_path: String, mode: FileSystemBackendPcMode, resources: Option<ResourcesBin>) -> (b: FileSystemBackendPc)
        requires
            resources is Some <==> mode == FileSystemBackendPcMode::ResourcesBin,
        ensures
            b.base_path@ == base_path@,
            b.mode == mode,
            b.resources == resources,
    {
        FileSystemBackendPc { base_path, mode, resources }
    }
}

/// Unpacks 4 bit pixels, the high nibble of each byte first.
pub fn unpack_4bpp_graphics(data: &Vec<u8>) -> (pixels: Vec<u8>)
    requires
        2 * data@.len() <= usize::MAX,
    ensures
        pixels@.len() == 2 * data@.len(),
        forall|i: int| 0 <= i < data@.len() ==> #[trigger] pixels@[2 * i] == data@[i] / 16 && pixels@[2 * i + 1] == data@[i] % 16,
{
    let mut pixels: Vec<u8> = Vec::with_capacity(data.len() * 2);
    let mut i: usize = 0;
    while i < data.len()
        invariant
            i <= data@.len(),
            pixels@.len() == 2 * i,
            forall|k: int| 0 <= k < i ==> #[trigger] pixels@[2 * k] == data@[k] / 16 && pixels@[2 * k + 1] == data@[k] % 16,
        decreases data@.len() - i,
    {
        let src = data[i];
        assert((src & 0xF0) >> 4 == src / 16 && src & 0x0F == src % 16) by (bit_vector);
        let ghost prev = pixels@;
        pixels.push((src & 0xF0) >> 4);
        pixels.push(src & 0x0F);
        assert forall|k: int| 0 <= k < i + 1 implies #[trigger] pixels@[2 * k] == data@[k] / 16 && pixels@[2 * k + 1] == data@[k] % 16 by {
            if k < i {
                assert(pixels@[2 * k] == prev[2 * k]);
                assert(pixels@[2 * k + 1] == prev[2 * k + 1]);
            }
        }
        i = i + 1;
    }
    pixels
}

/// The first position of a character in a text.
pub open spec fn first_index_of(s: Seq<char>, c: char, i: int) -> bool {
    0 <= i < s.len() && s[i] == c && forall|k: int| 0 <= k < i ==> s[k] != c
}

/// A text after its first comma.
pub open spec fn after_first_comma(s: Seq<char>) -> Seq<char> {
    let i = choose|i: int| first_index_of(s, ',', i);
    s.subrange(i + 1, s.len() as int)
}

/// The value of a `key,value` line: what follows the first comma.
fn remove_key(line: &String) -> (value: String)
    requires
        line@.contains(','),
    ensures
        value@ == after_first_comma(line@),
{
    let text = line.as_str();
    let len = text.unicode_len();
    let mut i: usize = 0;
    while i < len
        invariant
            len == text@.len(),
            text@ == line@,
            i <= len,
            line@.contains(','),
            forall|k: int| 0 <= k < i ==> text@[k] != ',',
        decreases len - i,
    {
        if text.get_char(i) == ',' {
            assert(first_index_of(line@, ',', i as int));
            let value = text.substring_char(i + 1, len).to_owned();
            proof {
                let j = choose|j: int| first_index_of(line@, ',', j);
                assert(j == i) by {
                    if j < i {
                        assert(line@[j] != ',');
                    } else if j > i {
                        assert(line@[i as int] != ',');
                    }
                }
            }
            return value;
        }
        i = i + 1;
    }
    proof {
        let k = choose|k: int| 0 <= k < line@.len() && line@[k] == ',';
        assert(text@[k] != ',');
    }
    string_from("")
}

/// Drops the key of each `key,value` line, keeping what follows the first comma.
pub fn remove_string_list_keys(strings: &Vec<String>) -> (values: Vec<String>)
    requires
        forall|i: int| 0 <= i < strings@.len() ==> (#[trigger] strings@[i])@.contains(','),
    ensures
        values@.len() == strings@.len(),
        forall|i: int| 0 <= i < strings@.len() ==> (#[trigger] values@[i])@ == after_first_comma(strings@[i]@),
{
    let mut values: Vec<String> = Vec::with_capacity(strings.len());
    let mut i: usize = 0;
    while i < strings.len()
        invariant
            i <= strings@.len(),
            values@.len() == i,
            forall|k: int| 0 <= k < strings@.len() ==> (#[trigger] strings@[k])@.contains(','),
            forall|k: int| 0 <= k < i ==> (#[trigger] values@[k])@ == after_first_comma(strings@[k]@),
        decreases strings@.len() - i,
    {
        assert(strings@[i as int]@.contains(','));
        let value = remove_key(&strings[i]);
        values.push(value);
        i = i + 1;
    }
    values
}

/// The offset of scene `i`'s exits in the exit data: the offset table counts eight byte exits
/// after a four byte header.
pub open spec fn exit_offset(offsets_data: Seq<u8>, i: int) -> int {
    le16(offsets_data, 4 + 2 * i) * 8 + 4
}

/// Where the exits of a scene are in the exit data, as a start and a length: up to the next
/// scene's exits, or to the end of the data for the last scene.
pub fn scene_exit_range(offsets_data: &Vec<u8>, data_len: usize, scene_index: usize) -> (range: (usize, usize))
    requires
        4 <= offsets_data@.len(),
        4 + 2 * le32(offsets_data@, 0) <= offsets_data@.len(),
        scene_index < le32(offsets_data@, 0),
        scene_index + 1 == le32(offsets_data@, 0) ==> exit_offset(offsets_data@, scene_index as int) <= data_len,
        scene_index + 1 < le32(offsets_data@, 0) ==> exit_offset(offsets_data@, scene_index as int) <= exit_offset(offsets_data@, scene_index + 1),
    ensures
        range.0 == exit_offset(offsets_data@, scene_index as int),
        scene_index + 1 == le32(offsets_data@, 0) ==> range.1 == data_len - range.0,
        scene_index + 1 < le32(offsets_data@, 0) ==> range.1 == exit_offset(offsets_data@, scene_index + 1) - range.0,
{
    let mut reader = ByteReader::new(offsets_data.clone());
    let ptr_count = reader.read_u32_le() as usize;
    reader.seek(4 + 2 * scene_index);
    let offset = reader.read_u16_le() as usize * 8 + 4;
    if scene_index == ptr_count - 1 {
        (offset, data_len - offset)
    } else {
        let next = reader.read_u16_le() as usize * 8 + 4;
        (offset, next - offset)
    }
}

/// The treasure offsets of the PC release: six byte entries after a four byte header, with the
/// last offset repeated so that each scene's count follows from the next offset.
pub fn treasure_offsets(offsets_data: &Vec<u8>) -> (offsets: Vec<u32>)
    requires
        4 <= offsets_data@.len(),
        le32(offsets_data@, 0) > 0,
        4 + 2 * le32(offsets_data@, 0) <= offsets_data@.len(),
    ensures
        offsets@.len() == le32(offsets_data@, 0) + 1,
        forall|i: int| 0 <= i < le32(offsets_data@, 0) ==> #[trigger] offsets@[i] == le16(offsets_data@, 4 + 2 * i) * 6 + 4,
        offsets@.last() == offsets@[offsets@.len() - 2],
{
    let mut reader = ByteReader::new(offsets_data.clone());
    let ptr_count = reader.read_u32_le() as usize;
    let mut offsets: Vec<u32> = Vec::with_capacity(ptr_count + 1);
    let mut i: usize = 0;
    while i < ptr_count
        invariant
            reader.data@ == offsets_data@,
            ptr_count == le32(offsets_data@, 0),
            4 + 2 * ptr_count <= offsets_data@.len(),
            i <= ptr_count,
            reader.pos == 4 + 2 * i,
            offsets@.len() == i,
            forall|k: int| 0 <= k < i ==> #[trigger] offsets@[k] == le16(offsets_data@, 4 + 2 * k) * 6 + 4,
        decreases ptr_count - i,
    {
        let v = reader.read_u16_le() as u32;
        offsets.push(v * 6 + 4);
        i = i + 1;
    }
    let last = offsets[ptr_count - 1];
    offsets.push(last);
    offsets
}

/// The palette of a PC palette file: 256 colors after a two byte header.
pub fn read_palette_file(data: &Vec<u8>) -> (p: Palette)
    requires
        514 <= data@.len(),
    ensures
        p.colors@.len() == 256,
        forall|i: int| 0 <= i < 256 ==> #[trigger] p.colors@[i] == snes_color(le16(data@, 2 + 2 * i) as u16),
{
    let mut reader = ByteReader::new(data.clone());
    reader.seek(2);
    let mut colors: Vec<Color> = Vec::with_capacity(256);
    let mut i: usize = 0;
    while i < 256
        invariant
            reader.data@ == data@,
            514 <= data@.len(),
            i <= 256,
            reader.pos == 2 + 2 * i,
            colors@.len() == i,
            forall|k: int| 0 <= k < i ==> #[trigger] colors@[k] == snes_color(le16(data@, 2 + 2 * k) as u16),
        decreases 256 - i,
    {
        let c = read_color(&mut reader);
        colors.push(c);
        i = i + 1;
    }
    Palette::from_colors(&colors)
}

/// The bitmap file that holds world sprite tile set `tiles_index`, if the PC release has one;
/// set 7 depends on the world.
pub open spec fn world_sprite_bitmap_text(world_index: usize, tiles_index: usize) -> Option<Seq<char>> {
    match tiles_index {
        0 => Some("Game/common/worldChara.bmp"@),
        1 => Some("Game/common/silbird.bmp"@),
        2 => Some("Game/common/lavos.bmp"@),
        3 => Some("Game/common/blackdream.bmp"@),
        4 => Some("Game/world/gif/0_wobj0.bmp"@),
        5 => Some("Game/world/gif/0_wobj1.bmp"@),
        7 => Some("Game/world/gif/"@ + crate::fmt::digits(world_index as nat, 10, false) + "_wboa.bmp"@),
        8 => Some("Game/world/gif/1_wobj0.bmp"@),
        9 => Some("Game/world/gif/1_wobj1.bmp"@),
        10 => Some("Game/world/gif/3_wobj0.bmp"@),
        11 => Some("Game/world/gif/4_wobj0.bmp"@),
        12 => Some("Game/world/gif/4_wobj1.bmp"@),
        13 => Some("Game/world/gif/4_kodai_break.bmp"@),
        _ => None,
    }
}

/// The bitmap file that holds a world sprite tile set.
pub fn world_sprite_bitmap_name(world_index: usize, tiles_index: usize) -> (name: Option<String>)
    ensures
        match name {
            Some(n) => world_sprite_bitmap_text(world_index, tiles_index) == Some(n@),
            None => world_sprite_bitmap_text(world_index, tiles_index) is None,
        },
{
    let name = match tiles_index {
        0 => "Game/common/worldChara.bmp",
        1 => "Game/common/silbird.bmp",
        2 => "Game/common/lavos.bmp",
        3 => "Game/common/blackdream.bmp",
        4 => "Game/world/gif/0_wobj0.bmp",
        5 => "Game/world/gif/0_wobj1.bmp",
        7 => {
            let mut world_bitmap = string_from("Game/world/gif/");
            push_decimal(&mut world_bitmap, world_index as u64);
            world_bitmap.push_str("_wboa.bmp");
            return Some(world_bitmap);
        },
        8 => "Game/world/gif/1_wobj0.bmp",
        9 => "Game/world/gif/1_wobj1.bmp",
        10 => "Game/world/gif/3_wobj0.bmp",
        11 => "Game/world/gif/4_wobj0.bmp",
        12 => "Game/world/gif/4_wobj1.bmp",
        13 => "Game/world/gif/4_kodai_break.bmp",
        _ => return None,
    };
    Some(string_from(name))
}

} // verus!
