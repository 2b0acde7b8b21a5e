//! Sprite data: headers, animations, assemblies of graphics chips, palettes.
use crate::assets::{frame_key, Assets};
use crate::bitmap::Bitmap;
use crate::palette::Palette;
use crate::reader::{le16, signed8, ByteReader};
use crate::sprites::{
    SpriteAnim, SpriteAnimFrame, SpriteAnimSet, SpriteAssembly, SpriteAssemblyChip, SpriteAssemblyFrame, SpriteHeader,
    CHIP_FLIP_X, CHIP_FLIP_Y, CHIP_IS_BOTTOM, CHIP_IS_TOP, CHIP_UNKNOWN, CHIP_UNUSED,
};
use crate::surface::Color;
use crate::GameMode;
use std::collections::HashMap;
use vstd::prelude::*;

verus! {

broadcast use vstd::std_specs::hash::group_hash_axioms;

/// The sprite header stored in `data`. The PC version names its graphics, assembly and palette
/// after the sprite itself and stores flags; enemy sprites have a hand position and three more
/// bytes.
pub open spec fn sprite_header_of(data: Seq<u8>, mode: GameMode, index: usize) -> SpriteHeader {
    let base = match mode {
        GameMode::Pc => SpriteHeader {
            index,
            bitmap_index: index,
            assembly_index: index,
            palette_index: index,
            size_flags: data[3] as u32,
            anim_index: data[4] as usize,
            flags: data[5] as u32,
            hand_x: 0,
            hand_y: 0,
            enemy_unknown1: 0,
            enemy_unknown2: 0,
            enemy_unknown3: 0,
        },
        GameMode::Snes => SpriteHeader {
            index,
            bitmap_index: data[0] as usize,
            assembly_index: data[1] as usize,
            palette_index: data[2] as usize,
            anim_index: data[3] as usize,
            size_flags: data[4] as u32,
            flags: 0,
            hand_x: 0,
            hand_y: 0,
            enemy_unknown1: 0,
            enemy_unknown2: 0,
            enemy_unknown3: 0,
        },
    };
    let p = match mode {
        GameMode::Pc => 6int,
        GameMode::Snes => 5int,
    };
    if data.len() > 6 {
        SpriteHeader {
            hand_x: signed8(data[p]) as i32,
            hand_y: signed8(data[p + 1]) as i32,
            enemy_unknown1: data[p + 2] as u32,
            enemy_unknown2: data[p + 3] as u32,
            enemy_unknown3: data[p + 4] as u32,
            ..base
        }
    } else {
        base
    }
}

/// Whether the header data is long enough: the enemy part, where there is one, is read in full.
pub open spec fn sprite_header_readable(data: Seq<u8>, mode: GameMode) -> bool {
    let p = match mode {
        GameMode::Pc => 6int,
        GameMode::Snes => 5int,
    };
    data.len() >= p && (data.len() > 6 ==> p + 5 <= data.len())
}

/// Reads a sprite header.
pub fn read_sprite_header(data: &Vec<u8>, mode: GameMode, index: usize) -> (header: SpriteHeader)
    requires
        sprite_header_readable(data@, mode),
    ensures
        header == sprite_header_of(data@, mode, index),
{
    let mut reader = ByteReader::new(data.clone());
    let mut header = match mode {
        GameMode::Pc => {
            let _bitmap = reader.read_u8();
            let _assembly = reader.read_u8();
            let _palette = reader.read_u8();
            let size_flags = reader.read_u8() as u32;
            let anim_index = reader.read_u8() as usize;
            let flags = reader.read_u8() as u32;
            SpriteHeader {
                index,
                bitmap_index: index,
                assembly_index: index,
                palette_index: index,
                size_flags,
                anim_index,
                flags,
                hand_x: 0,
                hand_y: 0,
                enemy_unknown1: 0,
                enemy_unknown2: 0,
                enemy_unknown3: 0,
            }
        },
        GameMode::Snes => {
            let bitmap_index = reader.read_u8() as usize;
            let assembly_index = reader.read_u8() as usize;
            let palette_index = reader.read_u8() as usize;
            let anim_index = reader.read_u8() as usize;
            let size_flags = reader.read_u8() as u32;
            SpriteHeader {
                index,
                bitmap_index,
                assembly_index,
                palette_index,
                anim_index,
                size_flags,
                flags: 0,
                hand_x: 0,
                hand_y: 0,
                enemy_unknown1: 0,
                enemy_unknown2: 0,
                enemy_unknown3: 0,
            }
        },
    };
    if data.len() > 6 {
        header.hand_x = reader.read_i8() as i32;
        header.hand_y = reader.read_i8() as i32;
        header.enemy_unknown1 = reader.read_u8() as u32;
        header.enemy_unknown2 = reader.read_u8() as u32;
        header.enemy_unknown3 = reader.read_u8() as u32;
    }
    header
}

/// The first frame, from `frame` on, whose delay is zero, within the data: it ends the animation.
pub open spec fn anim_end(interval_data: Seq<u8>, interval_start: int, frame: int, fuel: nat) -> Option<int>
    decreases fuel,
{
    if interval_start + frame >= interval_data.len() || interval_start + frame < 0 {
        None
    } else if interval_data[interval_start + frame] == 0 {
        Some(frame)
    } else if fuel == 0 {
        None
    } else {
        anim_end(interval_data, interval_start, frame + 1, (fuel - 1) as nat)
    }
}

/// `anim_end` finds a frame with a delay of zero, from the one it starts at on.
pub proof fn lemma_anim_end(interval_data: Seq<u8>, interval_start: int, frame: int, fuel: nat)
    requires
        anim_end(interval_data, interval_start, frame, fuel) is Some,
    ensures
        frame <= anim_end(interval_data, interval_start, frame, fuel).unwrap(),
        interval_start + anim_end(interval_data, interval_start, frame, fuel).unwrap() < interval_data.len(),
        interval_data[interval_start + anim_end(interval_data, interval_start, frame, fuel).unwrap()] == 0,
    decreases fuel,
{
    if interval_start + frame < interval_data.len() && interval_start + frame >= 0 && interval_data[interval_start + frame] != 0 && fuel > 0 {
        lemma_anim_end(interval_data, interval_start, frame + 1, (fuel - 1) as nat);
    }
}

/// The slot offset of a frame of an animation for a direction.
pub open spec fn slot_offset(start_slot_offset: int, data_per_facing: int, facing: int, anim_index: int, frame: int) -> int {
    start_slot_offset + data_per_facing * facing + anim_index * 4 + frame
}

/// The frame `frame` of an animation: the slot bytes of the four directions and the delay.
pub open spec fn anim_frame_at(
    slot_data: Seq<u8>,
    start_slot_offset: int,
    interval_data: Seq<u8>,
    start_interval_offset: int,
    anim_index: int,
    data_per_facing: int,
    frame: int,
) -> (Seq<usize>, u32) {
    (
        Seq::new(4, |facing: int| slot_data[slot_offset(start_slot_offset, data_per_facing, facing, anim_index, frame)] as usize),
        interval_data[start_interval_offset + anim_index * 4 + frame] as u32,
    )
}

/// Reads the frames of an animation, up to the first frame with a delay of zero.
pub fn parse_sprite_animation_frames(
    slot_data: &Vec<u8>,
    start_slot_offset: usize,
    interval_data: &Vec<u8>,
    start_interval_offset: usize,
    anim_index: usize,
    data_per_facing: usize,
) -> (frames: Vec<SpriteAnimFrame>)
    requires
        start_interval_offset + anim_index * 4 <= usize::MAX,
        anim_end(interval_data@, start_interval_offset + anim_index * 4, 0, interval_data@.len() as nat) is Some,
        forall|frame: int, facing: int|
            0 <= frame < anim_end(interval_data@, start_interval_offset + anim_index * 4, 0, interval_data@.len() as nat).unwrap() + 1
                && 0 <= facing < 4 ==> #[trigger] slot_offset(
                start_slot_offset as int,
                data_per_facing as int,
                facing,
                anim_index as int,
                frame,
            ) < slot_data@.len(),
    ensures
        ({
            let n = anim_end(interval_data@, start_interval_offset + anim_index * 4, 0, interval_data@.len() as nat).unwrap();
            &&& frames@.len() == n
            &&& forall|f: int| 0 <= f < n ==> {
                let (slots, delay) = #[trigger] anim_frame_at(
                    slot_data@,
                    start_slot_offset as int,
                    interval_data@,
                    start_interval_offset as int,
                    anim_index as int,
                    data_per_facing as int,
                    f,
                );
                frames@[f].sprite_frames@ == slots && frames@[f].delay == delay
            }
        }),
{
    let ghost base = start_interval_offset + anim_index * 4;
    let ghost n = anim_end(interval_data@, base, 0, interval_data@.len() as nat).unwrap();
    proof {
        lemma_anim_end(interval_data@, base, 0, interval_data@.len() as nat);
    }
    let slots_len = slot_data.len();
    let intervals_len = interval_data.len();
    let mut frame_index: usize = 0;
    let mut frames: Vec<SpriteAnimFrame> = Vec::new();
    loop
        invariant_except_break
            base == start_interval_offset + anim_index * 4,
            base <= usize::MAX,
            slots_len == slot_data@.len(),
            intervals_len == interval_data@.len(),
            base + n < interval_data@.len(),
            interval_data@[base + n] == 0,
            frame_index <= n,
            anim_end(interval_data@, base, frame_index as int, (interval_data@.len() - frame_index) as nat) == Some(n),
            frames@.len() == frame_index,
            forall|frame: int, facing: int|
                0 <= frame < n + 1 && 0 <= facing < 4 ==> #[trigger] slot_offset(
                    start_slot_offset as int,
                    data_per_facing as int,
                    facing,
                    anim_index as int,
                    frame,
                ) < slot_data@.len(),
            forall|f: int| 0 <= f < frame_index ==> {
                let (slots, delay) = #[trigger] anim_frame_at(
                    slot_data@,
                    start_slot_offset as int,
                    interval_data@,
                    start_interval_offset as int,
                    anim_index as int,
                    data_per_facing as int,
                    f,
                );
                frames@[f].sprite_frames@ == slots && frames@[f].delay == delay
            },
        ensures
            frames@.len() == n,
            forall|f: int| 0 <= f < n ==> {
                let (slots, delay) = #[trigger] anim_frame_at(
                    slot_data@,
                    start_slot_offset as int,
                    interval_data@,
                    start_interval_offset as int,
                    anim_index as int,
                    data_per_facing as int,
                    f,
                );
                frames@[f].sprite_frames@ == slots && frames@[f].delay == delay
            },
        decreases n - frame_index,
    {
        assert(slot_offset(start_slot_offset as int, data_per_facing as int, 0, anim_index as int, frame_index as int) < slot_data@.len());
        assert(slot_offset(start_slot_offset as int, data_per_facing as int, 1, anim_index as int, frame_index as int) < slot_data@.len());
        assert(slot_offset(start_slot_offset as int, data_per_facing as int, 2, anim_index as int, frame_index as int) < slot_data@.len());
        assert(slot_offset(start_slot_offset as int, data_per_facing as int, 3, anim_index as int, frame_index as int) < slot_data@.len());
        let s0 = slot_data[start_slot_offset + anim_index * 4 + frame_index] as usize;
        let s1 = slot_data[start_slot_offset + data_per_facing + anim_index * 4 + frame_index] as usize;
        let s2 = slot_data[start_slot_offset + data_per_facing * 2 + anim_index * 4 + frame_index] as usize;
        let s3 = slot_data[start_slot_offset + data_per_facing * 3 + anim_index * 4 + frame_index] as usize;
        let delay = interval_data[start_interval_offset + anim_index * 4 + frame_index] as u32;
        if delay == 0 {
            break;
        }
        assert(frame_index < n);
        assert(anim_end(interval_data@, base, frame_index + 1, (interval_data@.len() - (frame_index + 1)) as nat) == Some(n));
        let sprite_frames = [s0, s1, s2, s3];
        assert(sprite_frames@ =~= anim_frame_at(
            slot_data@,
            start_slot_offset as int,
            interval_data@,
            start_interval_offset as int,
            anim_index as int,
            data_per_facing as int,
            frame_index as int,
        ).0);
        frames.push(SpriteAnimFrame { sprite_frames, delay });
        frame_index = frame_index + 1;
    }
    frames
}

/// Whether animation `anim_index` of a set can be read: its intervals end with a zero delay
/// within the data, and every frame up to that one has its slot bytes for all four directions.
pub open spec fn anim_readable(slot_data: Seq<u8>, slot_start: int, interval_data: Seq<u8>, interval_start: int, anim_index: int, data_per_facing: int) -> bool {
    &&& interval_start + anim_index * 4 <= usize::MAX
    &&& anim_end(interval_data, interval_start + anim_index * 4, 0, interval_data.len() as nat) is Some
    &&& forall|frame: int, facing: int|
        0 <= frame < anim_end(interval_data, interval_start + anim_index * 4, 0, interval_data.len() as nat).unwrap() + 1
            && 0 <= facing < 4 ==> #[trigger] slot_offset(slot_start, data_per_facing, facing, anim_index, frame) < slot_data.len()
}

/// Whether `frames` are the frames of animation `anim_index` of a set: one per nonzero delay
/// before the first zero, each with its slot bytes and delay.
pub open spec fn anim_frames_read(frames: Seq<SpriteAnimFrame>, slot_data: Seq<u8>, slot_start: int, interval_data: Seq<u8>, interval_start: int, anim_index: int, data_per_facing: int) -> bool {
    let n = anim_end(interval_data, interval_start + anim_index * 4, 0, interval_data.len() as nat).unwrap();
    &&& frames.len() == n
    &&& forall|f: int| 0 <= f < n ==> {
        let (slots, delay) = #[trigger] anim_frame_at(slot_data, slot_start, interval_data, interval_start, anim_index, data_per_facing, f);
        frames[f].sprite_frames@ == slots && frames[f].delay == delay
    }
}

/// How many bytes of slot data set `i` has: up to where the next set starts.
pub open spec fn set_data_len(ptrs: Seq<usize>, i: int) -> int {
    ptrs[i + 1] - ptrs[i]
}

/// How many animations a set with `len` bytes of slot data has: each direction has four bytes
/// per animation, and the four directions follow each other; a last part counts whole.
pub open spec fn set_anim_count(len: int) -> int {
    (len / 4 + 3) / 4
}

/// Reads all sprite animation sets, one per slot pointer but the last, which only ends the
/// one before. Each set's animations start four bytes apart in its slot and interval data.
pub fn read_sprite_animations(slot_ptrs: &Vec<usize>, slot_data: &Vec<u8>, interval_ptrs: &Vec<usize>, interval_data: &Vec<u8>) -> (sets: Vec<SpriteAnimSet>)
    requires
        slot_ptrs@.len() >= 1,
        interval_ptrs@.len() + 1 >= slot_ptrs@.len(),
        forall|i: int| 0 <= i < slot_ptrs@.len() - 1 ==> #[trigger] set_data_len(slot_ptrs@, i) >= 0,
        forall|i: int, a: int|
            0 <= i < slot_ptrs@.len() - 1 && 0 <= a < set_anim_count(set_data_len(slot_ptrs@, i)) ==> #[trigger] anim_readable(
                slot_data@,
                slot_ptrs@[i] as int,
                interval_data@,
                interval_ptrs@[i] as int,
                a,
                set_data_len(slot_ptrs@, i) / 4,
            ),
    ensures
        sets@.len() == slot_ptrs@.len() - 1,
        forall|i: int| 0 <= i < sets@.len() ==> (#[trigger] sets@[i]).index == i && sets@[i].anims@.len() == set_anim_count(set_data_len(slot_ptrs@, i)),
        forall|i: int, a: int|
            0 <= i < sets@.len() && 0 <= a < set_anim_count(set_data_len(slot_ptrs@, i)) ==> #[trigger] anim_frames_read(
                sets@[i].anims@[a].frames@,
                slot_data@,
                slot_ptrs@[i] as int,
                interval_data@,
                interval_ptrs@[i] as int,
                a,
                set_data_len(slot_ptrs@, i) / 4,
            ),
{
    let set_count = slot_ptrs.len() - 1;
    let mut sets: Vec<SpriteAnimSet> = Vec::with_capacity(set_count);
    let mut set_index: usize = 0;
    while set_index < set_count
        invariant
            set_count == slot_ptrs@.len() - 1,
            interval_ptrs@.len() + 1 >= slot_ptrs@.len(),
            set_index <= set_count,
            sets@.len() == set_index,
            forall|i: int| 0 <= i < slot_ptrs@.len() - 1 ==> #[trigger] set_data_len(slot_ptrs@, i) >= 0,
            forall|i: int, a: int|
                0 <= i < slot_ptrs@.len() - 1 && 0 <= a < set_anim_count(set_data_len(slot_ptrs@, i)) ==> #[trigger] anim_readable(
                    slot_data@,
                    slot_ptrs@[i] as int,
                    interval_data@,
                    interval_ptrs@[i] as int,
                    a,
                    set_data_len(slot_ptrs@, i) / 4,
                ),
            forall|i: int| 0 <= i < set_index ==> (#[trigger] sets@[i]).index == i && sets@[i].anims@.len() == set_anim_count(set_data_len(slot_ptrs@, i)),
            forall|i: int, a: int|
                0 <= i < set_index && 0 <= a < set_anim_count(set_data_len(slot_ptrs@, i)) ==> #[trigger] anim_frames_read(
                    sets@[i].anims@[a].frames@,
                    slot_data@,
                    slot_ptrs@[i] as int,
                    interval_data@,
                    interval_ptrs@[i] as int,
                    a,
                    set_data_len(slot_ptrs@, i) / 4,
                ),
        decreases set_count - set_index,
    {
        assert(set_data_len(slot_ptrs@, set_index as int) >= 0);
        let slot_start = slot_ptrs[set_index];
        let interval_start = interval_ptrs[set_index];
        let anim_data_len = slot_ptrs[set_index + 1] - slot_start;
        let data_per_facing = anim_data_len / 4;
        let anim_count = (data_per_facing + 3) / 4;
        let ghost len = set_data_len(slot_ptrs@, set_index as int);
        assert(anim_data_len == len);
        let mut set = SpriteAnimSet::new(set_index);
        let mut anim_index: usize = 0;
        while anim_index < anim_count
            invariant
                anim_count == set_anim_count(len),
                data_per_facing == len / 4,
                len == set_data_len(slot_ptrs@, set_index as int),
                slot_start == slot_ptrs@[set_index as int],
                interval_start == interval_ptrs@[set_index as int],
                set_index < set_count,
                set_count == slot_ptrs@.len() - 1,
                anim_index <= anim_count,
                set.index == set_index,
                set.anims@.len() == anim_index,
                forall|i: int, a: int|
                    0 <= i < slot_ptrs@.len() - 1 && 0 <= a < set_anim_count(set_data_len(slot_ptrs@, i)) ==> #[trigger] anim_readable(
                        slot_data@,
                        slot_ptrs@[i] as int,
                        interval_data@,
                        interval_ptrs@[i] as int,
                        a,
                        set_data_len(slot_ptrs@, i) / 4,
                    ),
                forall|a: int| 0 <= a < anim_index ==> #[trigger] anim_frames_read(
                    set.anims@[a].frames@,
                    slot_data@,
                    slot_start as int,
                    interval_data@,
                    interval_start as int,
                    a,
                    data_per_facing as int,
                ),
            decreases anim_count - anim_index,
        {
            assert(anim_readable(slot_data@, slot_start as int, interval_data@, interval_start as int, anim_index as int, data_per_facing as int));
            let frames = parse_sprite_animation_frames(slot_data, slot_start, interval_data, interval_start, anim_index, data_per_facing);
            assert(anim_frames_read(frames@, slot_data@, slot_start as int, interval_data@, interval_start as int, anim_index as int, data_per_facing as int));
            let ghost before = set.anims@;
            set.add_anim(SpriteAnim { frames });
            assert forall|a: int| 0 <= a < anim_index + 1 implies #[trigger] anim_frames_read(
                set.anims@[a].frames@,
                slot_data@,
                slot_start as int,
                interval_data@,
                interval_start as int,
                a,
                data_per_facing as int,
            ) by {
                if a < anim_index {
                    assert(set.anims@[a] == before[a]);
                }
            }
            anim_index = anim_index + 1;
        }
        let ghost before_sets = sets@;
        sets.push(set);
        assert forall|i: int, a: int|
            0 <= i < set_index + 1 && 0 <= a < set_anim_count(set_data_len(slot_ptrs@, i)) implies #[trigger] anim_frames_read(
                sets@[i].anims@[a].frames@,
                slot_data@,
                slot_ptrs@[i] as int,
                interval_data@,
                interval_ptrs@[i] as int,
                a,
                set_data_len(slot_ptrs@, i) / 4,
            ) by {
            if i < set_index {
                assert(sets@[i] == before_sets[i]);
            }
        }
        set_index = set_index + 1;
    }
    sets
}

/// The chip of a PC assembly record at `q`: a 16 bit chip value that leaves out bit 3, which
/// marks the chip unknown, a signed position and flags.
pub open spec fn pc_chip_at(data: Seq<u8>, q: int) -> SpriteAssemblyChip {
    let value = le16(data, q) as usize;
    let chip = (value & 0x07) | ((value & 0xFFF0) >> 1usize);
    let fv = data[q + 4];
    SpriteAssemblyChip {
        src_index: chip,
        x: signed8(data[q + 2]) as i32,
        y: signed8(data[q + 3]) as i32,
        src_x: ((chip % 32) * 8) as i32,
        src_y: ((chip / 32) * 16) as i32,
        width: 16,
        height: 16,
        flags: (if fv & 0x01 != 0 { CHIP_FLIP_X } else { 0 }) | (if fv & 0x02 != 0 { CHIP_UNUSED } else { 0 }) | (if value & 0x8
            != 0 {
            CHIP_UNKNOWN
        } else {
            0
        }),
    }
}

/// Where frame `f` of a PC assembly starts, the first at `first`: each has a chip count and five
/// bytes per chip.
pub open spec fn pc_frame_start(data: Seq<u8>, first: int, f: nat) -> int
    decreases f,
{
    if f == 0 {
        first
    } else {
        let prev = pc_frame_start(data, first, (f - 1) as nat);
        prev + 1 + 5 * data[prev]
    }
}

/// The chips of the PC assembly frame at `start`.
pub open spec fn pc_frame_chips(data: Seq<u8>, start: int) -> Seq<SpriteAssemblyChip> {
    Seq::new(data[start] as nat, |t: int| pc_chip_at(data, start + 1 + 5 * t))
}

/// The larger of two numbers.
pub open spec fn max_usize(a: usize, b: usize) -> usize {
    if a < b { b } else { a }
}

/// The highest chip index of a list of chips, at least `m`.
pub open spec fn chips_max(chips: Seq<SpriteAssemblyChip>, m: usize) -> usize
    decreases chips.len(),
{
    if chips.len() == 0 {
        m
    } else {
        max_usize(chips_max(chips.drop_last(), m), chips.last().src_index)
    }
}

/// The highest chip index of the first `f` frames of a PC assembly.
pub open spec fn pc_chip_max(data: Seq<u8>, first: int, f: nat) -> usize
    decreases f,
{
    if f == 0 {
        0
    } else {
        chips_max(pc_frame_chips(data, pc_frame_start(data, first, (f - 1) as nat)), pc_chip_max(data, first, (f - 1) as nat))
    }
}

/// Whether the first `count` frames of a PC assembly lie in the data.
pub open spec fn pc_frames_readable(data: Seq<u8>, first: int, count: nat) -> bool {
    forall|f: nat| f < count ==> {
        let s = #[trigger] pc_frame_start(data, first, f);
        0 <= s < data.len() && s + 1 + 5 * data[s] <= data.len()
    }
}


/// Reads one chip of a PC assembly frame.
fn read_pc_chip(data: &mut ByteReader) -> (chip: SpriteAssemblyChip)
    requires
        old(data).pos + 5 <= old(data).data@.len(),
    ensures
        final(data).data@ == old(data).data@,
        final(data).pos == old(data).pos + 5,
        chip == pc_chip_at(old(data).data@, old(data).pos as int),
{
    let value = data.read_u16_le() as usize;
    let x = data.read_i8() as i32;
    let y = data.read_i8() as i32;
    let flags_value = data.read_u8();
    let weird_bit = value & 0x8;
    let chip = (value & 0x07) | (value & 0xFFF0) >> 1;
    assert(chip <= 0xFFFF) by (bit_vector)
        requires
            chip == (value & 0x07) | (value & 0xFFF0) >> 1usize,
            value <= 0xFFFF,
    ;
    let flags: u32 = (if flags_value & 0x01 != 0 { CHIP_FLIP_X } else { 0 }) | (if flags_value & 0x02 != 0 {
        CHIP_UNUSED
    } else {
        0
    }) | (if weird_bit != 0 { CHIP_UNKNOWN } else { 0 });
    SpriteAssemblyChip {
        src_index: chip,
        x,
        y,
        src_x: ((chip % 32) * 8) as i32,
        src_y: ((chip / 32) * 16) as i32,
        width: 16,
        height: 16,
        flags,
    }
}

/// Reads a PC sprite assembly: a frame count, a value that is skipped, then the frames, each a
/// chip count followed by its chips. Each frame is kept under its asset key.
pub fn parse_pc_sprite_assembly(assembly_index: usize, data: &mut ByteReader) -> (result: (SpriteAssembly, HashMap<u64, SpriteAssemblyFrame>))
    requires
        old(data).pos + 4 <= old(data).data@.len(),
        pc_frames_readable(old(data).data@, old(data).pos + 4, le16(old(data).data@, old(data).pos as int) as nat),
    ensures
        final(data).data@ == old(data).data@,
        ({
            let d = old(data).data@;
            let first = old(data).pos + 4;
            let count = le16(d, old(data).pos as int) as nat;
            let (assembly, frames) = result;
            &&& assembly.index == assembly_index
            &&& assembly.frame_keys@ == Seq::new(count, |f: int| frame_key(assembly_index, f as usize))
            &&& assembly.chip_max == pc_chip_max(d, first, count)
            &&& frames@.dom() == Set::new(|k: u64| exists|f: usize| f < count && k == #[trigger] frame_key(assembly_index, f))
            &&& forall|f: int| 0 <= f < count ==> (#[trigger] frames@[frame_key(assembly_index, f as usize)]).chips@ == pc_frame_chips(d, pc_frame_start(d, first, f as nat))
            &&& final(data).pos == pc_frame_start(d, first, count)
        }),
{
    let ghost d = data.data@;
    let ghost first = data.pos + 4;
    let frame_count = data.read_u16_le() as usize;
    let _skipped = data.read_u16_le();
    let _total = data.len();
    let mut assembly = SpriteAssembly { index: assembly_index, chip_max: 0, frame_keys: Vec::new() };
    let mut frames: HashMap<u64, SpriteAssemblyFrame> = HashMap::new();
    let mut frame_index: usize = 0;
    while frame_index < frame_count
        invariant
            data.data@ == d,
            _total == d.len(),
            frame_count <= 0xFFFF,
            frame_index <= frame_count,
            pc_frames_readable(d, first, frame_count as nat),
            data.pos == pc_frame_start(d, first, frame_index as nat),
            assembly.index == assembly_index,
            assembly.frame_keys@ == Seq::new(frame_index as nat, |f: int| frame_key(assembly_index, f as usize)),
            assembly.chip_max == pc_chip_max(d, first, frame_index as nat),
            frames@.dom() == Set::new(|k: u64| exists|f: usize| f < frame_index && k == #[trigger] frame_key(assembly_index, f)),
            forall|f: int| 0 <= f < frame_index ==> (#[trigger] frames@[frame_key(assembly_index, f as usize)]).chips@ == pc_frame_chips(d, pc_frame_start(d, first, f as nat)),
        decreases frame_count - frame_index,
    {
        let ghost start = data.pos as int;
        assert(pc_frame_start(d, first, frame_index as nat) == start);
        let mut frame = SpriteAssemblyFrame::new();
        let tile_count = data.read_u8();
        let mut chip_max = assembly.chip_max;
        let mut t: u8 = 0;
        while t < tile_count
            invariant
                data.data@ == d,
                _total == d.len(),
                t <= tile_count,
                tile_count == d[start],
                start + 1 + 5 * d[start] <= d.len(),
                data.pos == start + 1 + 5 * t,
                frame.chips@ == pc_frame_chips(d, start).take(t as int),
                chip_max == chips_max(pc_frame_chips(d, start).take(t as int), pc_chip_max(d, first, frame_index as nat)),
            decreases tile_count - t,
        {
            let chip = read_pc_chip(data);
            if chip_max < chip.src_index {
                chip_max = chip.src_index;
            }
            frame.chips.push(chip);
            assert(pc_frame_chips(d, start).take(t + 1).drop_last() =~= pc_frame_chips(d, start).take(t as int));
            t = t + 1;
            assert(frame.chips@ =~= pc_frame_chips(d, start).take(t as int));
        }
        assert(pc_frame_chips(d, start).take(t as int) =~= pc_frame_chips(d, start));
        assembly.chip_max = chip_max;
        let key = Assets::asset_key_sprite_assembly_frame_scene(assembly_index, frame_index);
        assembly.frame_keys.push(key);
        let ghost before = frames@;
        frames.insert(key, frame);
        proof {
            assert forall|f: int| 0 <= f < frame_index implies #[trigger] frame_key(assembly_index, f as usize) != key by {
                crate::assets::law_frame_keys_distinct(assembly_index, f as usize, frame_index);
            }
            let target = Set::new(|k: u64| exists|f: usize| f < frame_index + 1 && k == #[trigger] frame_key(assembly_index, f));
            assert forall|k: u64| frames@.dom().contains(k) implies target.contains(k) by {
                if k == key {
                    assert(frame_index < frame_index + 1 && k == frame_key(assembly_index, frame_index));
                } else {
                    assert(before.dom().contains(k));
                    let f = choose|f: usize| f < frame_index && k == #[trigger] frame_key(assembly_index, f);
                    assert(f < frame_index + 1 && k == frame_key(assembly_index, f));
                }
            }
            assert forall|k: u64| target.contains(k) implies frames@.dom().contains(k) by {
                let f = choose|f: usize| f < frame_index + 1 && k == #[trigger] frame_key(assembly_index, f);
                if f < frame_index {
                    assert(before.dom().contains(k));
                }
            }
            assert(frames@.dom() =~= target);
            assert(assembly.frame_keys@ =~= Seq::new((frame_index + 1) as nat, |f: int| frame_key(assembly_index, f as usize)));
        }
        frame_index = frame_index + 1;
    }
    (assembly, frames)
}


/// Where the chip word of chip `j` of an SNES assembly frame at `fs` is: each group stores the
/// left and right chips of its tiles' upper halves, then those of their lower halves; chip `j`
/// is corner `j % 4` of tile `j / 4`.
pub open spec fn snes_chip_word_pos(fs: int, tpg: int, j: int) -> int {
    let cpg = tpg * 4;
    let g = j / cpg;
    let t = (j % cpg) / 4;
    let c = j % 4;
    fs + g * (tpg * 8) + (if c < 2 { 0 } else { tpg * 4 }) + t * 4 + (c % 2) * 2
}

/// Chip `j` of the SNES assembly frame at `fs` with `tpf` tiles of which `tpg` to a group: its
/// chip word gives the source chip, 16 to a row, and the flips; the offsets of its tile, stored
/// after all chip words, move it from its corner; a tile more than 24 pixels up is the top of
/// the sprite.
pub open spec fn snes_chip(d: Seq<u8>, fs: int, tpf: int, tpg: int, j: int) -> SpriteAssemblyChip {
    let w = le16(d, snes_chip_word_pos(fs, tpg, j)) as u16;
    let chip = (w & 0x3FF) as usize;
    let op = fs + tpf * 8 + (j / 4) * 2;
    let ox = signed8(d[op]);
    let oy = signed8(d[op + 1]);
    let c = j % 4;
    SpriteAssemblyChip {
        src_index: chip,
        x: ((c % 2) * 8 + ox) as i32,
        y: ((c / 2) * 8 + oy) as i32,
        src_x: ((chip % 16) * 8) as i32,
        src_y: ((chip / 16) * 8) as i32,
        width: 8,
        height: 8,
        flags: (if w & 0x4000 != 0 { CHIP_FLIP_X } else { 0 }) | (if w & 0x8000 != 0 { CHIP_FLIP_Y } else { 0 }) | (if oy < -24 {
            CHIP_IS_TOP
        } else {
            CHIP_IS_BOTTOM
        }),
    }
}

/// The chips of SNES assembly frame `f`; frames are `tpf * 10` bytes each from the start.
pub open spec fn snes_frame_chips(d: Seq<u8>, f: int, tpf: int, tpg: int) -> Seq<SpriteAssemblyChip> {
    Seq::new((tpf * 4) as nat, |j: int| snes_chip(d, f * tpf * 10, tpf, tpg, j))
}

/// The highest chip index of the first `f` frames of an SNES assembly.
pub open spec fn snes_chip_max(d: Seq<u8>, f: nat, tpf: int, tpg: int) -> usize
    decreases f,
{
    if f == 0 {
        0
    } else {
        chips_max(snes_frame_chips(d, f - 1, tpf, tpg), snes_chip_max(d, (f - 1) as nat, tpf, tpg))
    }
}

proof fn lemma_snes_positions(fs: int, tpf: int, tpg: int, groups: int, j: int)
    requires
        1 <= groups <= 3,
        1 <= tpg <= 8,
        tpf == groups * tpg,
        0 <= j < tpf * 4,
        fs >= 0,
    ensures
        fs <= snes_chip_word_pos(fs, tpg, j),
        snes_chip_word_pos(fs, tpg, j) + 2 <= fs + tpf * 8,
        fs + tpf * 8 + (j / 4) * 2 + 2 <= fs + tpf * 10,
{
    let cpg = tpg * 4;
    let g = j / cpg;
    let t = (j % cpg) / 4;
    assert(0 <= g < groups) by (nonlinear_arith)
        requires
            g == j / cpg,
            cpg == tpg * 4,
            0 <= j < groups * tpg * 4,
            tpg >= 1,
    ;
    assert(0 <= t < tpg) by (nonlinear_arith)
        requires
            t == (j % cpg) / 4,
            cpg == tpg * 4,
            tpg >= 1,
    ;
    assert(g * (tpg * 8) + tpg * 8 <= tpf * 8) by (nonlinear_arith)
        requires
            0 <= g < groups,
            tpf == groups * tpg,
            tpg >= 1,
    ;
    assert(g * (tpg * 8) >= 0) by (nonlinear_arith)
        requires
            g >= 0,
            tpg >= 1,
    ;
    assert(j / 4 < tpf) by (nonlinear_arith)
        requires
            0 <= j < tpf * 4,
    ;
}

/// Reads chip `j` of the SNES assembly frame at `fs`.
fn read_snes_chip(reader: &mut ByteReader, fs: usize, tpf: usize, tpg: usize, groups: usize, j: usize) -> (chip: SpriteAssemblyChip)
    requires
        1 <= groups <= 3,
        1 <= tpg <= 8,
        tpf == groups * tpg,
        j < tpf * 4,
        fs + tpf * 10 <= old(reader).data@.len(),
    ensures
        final(reader).data@ == old(reader).data@,
        chip == snes_chip(old(reader).data@, fs as int, tpf as int, tpg as int, j as int),
{
    proof {
        lemma_snes_positions(fs as int, tpf as int, tpg as int, groups as int, j as int);
    }
    assert(tpf <= 24) by (nonlinear_arith)
        requires
            tpf == groups * tpg,
            groups <= 3,
            tpg <= 8,
    ;
    let _total = reader.data.len();
    let cpg = tpg * 4;
    let g = j / cpg;
    let t = (j % cpg) / 4;
    let c = j % 4;
    assert(g < 3 && t < 8) by (nonlinear_arith)
        requires
            g == j / cpg,
            t == (j % cpg) / 4,
            cpg == tpg * 4,
            j < tpf * 4,
            tpf == groups * tpg,
            groups <= 3,
            1 <= tpg <= 8,
    ;
    assert(g * (tpg * 8) <= 128) by (nonlinear_arith)
        requires
            g < 3,
            tpg <= 8,
    ;
    let pos = fs + g * (tpg * 8) + (if c < 2 { 0 } else { tpg * 4 }) + t * 4 + (c % 2) * 2;
    reader.seek(pos);
    let w = reader.read_u16_le();
    reader.seek(fs + tpf * 8 + (j / 4) * 2);
    let ox = reader.read_i8() as i32;
    let oy = reader.read_i8() as i32;
    let chip = (w & 0x3FF) as usize;
    assert(w & 0x3FF <= 0x3FF) by (bit_vector);
    let flags: u32 = (if w & 0x4000 != 0 { CHIP_FLIP_X } else { 0 }) | (if w & 0x8000 != 0 { CHIP_FLIP_Y } else { 0 }) | (if oy < -24 {
        CHIP_IS_TOP
    } else {
        CHIP_IS_BOTTOM
    });
    SpriteAssemblyChip {
        src_index: chip,
        x: ((c % 2) * 8) as i32 + ox,
        y: ((c / 2) * 8) as i32 + oy,
        src_x: ((chip % 16) * 8) as i32,
        src_y: ((chip / 16) * 8) as i32,
        width: 8,
        height: 8,
        flags,
    }
}

/// The tile layout of an SNES sprite assembly by its size flags: groups per frame and tiles per
/// group.
pub fn snes_assembly_layout(size_flags: u32) -> (layout: (usize, usize))
    ensures
        layout == (match size_flags & 0x3 {
            0 => (1usize, 4usize),
            1 => (1usize, 8usize),
            2 => (3usize, 4usize),
            _ => (3usize, 8usize),
        }),
{
    match size_flags & 0x3 {
        0 => (1, 4),
        1 => (1, 8),
        2 => (3, 4),
        _ => (3, 8),
    }
}

/// Reads an SNES sprite assembly: as many whole frames as the data holds, each of
/// `groups_per_frame` groups of `tiles_per_group` tiles of four 8 by 8 pixel chips, with the
/// chip words before the tile offsets. Each frame is kept under its asset key.
pub fn parse_snes_sprite_assembly(assembly_index: usize, groups_per_frame: usize, tiles_per_group: usize, data: &Vec<u8>) -> (result: (SpriteAssembly, HashMap<u64, SpriteAssemblyFrame>))
    requires
        1 <= groups_per_frame <= 3,
        1 <= tiles_per_group <= 8,
        data@.len() <= u32::MAX,
    ensures
        ({
            let d = data@;
            let tpf = (groups_per_frame * tiles_per_group) as int;
            let count = (d.len() / (tpf * 10) as nat) as nat;
            let (assembly, frames) = result;
            &&& assembly.index == assembly_index
            &&& assembly.frame_keys@ == Seq::new(count, |f: int| frame_key(assembly_index, f as usize))
            &&& assembly.chip_max == snes_chip_max(d, count, tpf, tiles_per_group as int)
            &&& frames@.dom() == Set::new(|k: u64| exists|f: usize| f < count && k == #[trigger] frame_key(assembly_index, f))
            &&& forall|f: int| 0 <= f < count ==> (#[trigger] frames@[frame_key(assembly_index, f as usize)]).chips@ == snes_frame_chips(d, f, tpf, tiles_per_group as int)
        }),
{
    let ghost d = data@;
    assert(1 <= groups_per_frame * tiles_per_group <= 24) by (nonlinear_arith)
        requires
            1 <= groups_per_frame <= 3,
            1 <= tiles_per_group <= 8,
    ;
    let tiles_per_frame = groups_per_frame * tiles_per_group;
    let frame_count = data.len() / (tiles_per_frame * 10);
    let ghost tpf = tiles_per_frame as int;
    let ghost tpg = tiles_per_group as int;
    let mut reader = ByteReader::new(data.clone());
    let mut assembly = SpriteAssembly { index: assembly_index, chip_max: 0, frame_keys: Vec::new() };
    let mut frames: HashMap<u64, SpriteAssemblyFrame> = HashMap::new();
    let mut frame_index: usize = 0;
    while frame_index < frame_count
        invariant
            reader.data@ == d,
            d == data@,
            d.len() <= u32::MAX,
            1 <= groups_per_frame <= 3,
            1 <= tiles_per_group <= 8,
            tiles_per_frame == groups_per_frame * tiles_per_group,
            1 <= tiles_per_frame <= 24,
            tpf == tiles_per_frame,
            tpg == tiles_per_group,
            frame_count == d.len() / (tiles_per_frame * 10) as nat,
            frame_index <= frame_count,
            assembly.index == assembly_index,
            assembly.frame_keys@ == Seq::new(frame_index as nat, |f: int| frame_key(assembly_index, f as usize)),
            assembly.chip_max == snes_chip_max(d, frame_index as nat, tpf, tpg),
            frames@.dom() == Set::new(|k: u64| exists|f: usize| f < frame_index && k == #[trigger] frame_key(assembly_index, f)),
            forall|f: int| 0 <= f < frame_index ==> (#[trigger] frames@[frame_key(assembly_index, f as usize)]).chips@ == snes_frame_chips(d, f, tpf, tpg),
        decreases frame_count - frame_index,
    {
        assert(frame_index * (tiles_per_frame * 10) + tiles_per_frame * 10 <= d.len()) by (nonlinear_arith)
            requires
                frame_index < frame_count,
                frame_count == d.len() / (tiles_per_frame * 10) as nat,
                tiles_per_frame >= 1,
        ;
        let fs = frame_index * (tiles_per_frame * 10);
        assert(fs == frame_index * tpf * 10) by (nonlinear_arith)
            requires
                fs == frame_index * (tiles_per_frame * 10),
                tpf == tiles_per_frame,
        ;
        let mut frame = SpriteAssemblyFrame::new();
        let mut chip_max = assembly.chip_max;
        let chip_count = tiles_per_frame * 4;
        let mut j: usize = 0;
        while j < chip_count
            invariant
                reader.data@ == d,
                1 <= groups_per_frame <= 3,
                1 <= tiles_per_group <= 8,
                tiles_per_frame == groups_per_frame * tiles_per_group,
                1 <= tiles_per_frame <= 24,
                tpf == tiles_per_frame,
                tpg == tiles_per_group,
                chip_count == tiles_per_frame * 4,
                fs + tiles_per_frame * 10 <= d.len(),
                fs == frame_index * tpf * 10,
                j <= chip_count,
                frame.chips@ == snes_frame_chips(d, frame_index as int, tpf, tpg).take(j as int),
                chip_max == chips_max(snes_frame_chips(d, frame_index as int, tpf, tpg).take(j as int), snes_chip_max(d, frame_index as nat, tpf, tpg)),
            decreases chip_count - j,
        {
            let chip = read_snes_chip(&mut reader, fs, tiles_per_frame, tiles_per_group, groups_per_frame, j);
            if chip_max < chip.src_index {
                chip_max = chip.src_index;
            }
            frame.chips.push(chip);
            assert(snes_frame_chips(d, frame_index as int, tpf, tpg).take(j + 1).drop_last() =~= snes_frame_chips(d, frame_index as int, tpf, tpg).take(j as int));
            j = j + 1;
            assert(frame.chips@ =~= snes_frame_chips(d, frame_index as int, tpf, tpg).take(j as int));
        }
        assert(snes_frame_chips(d, frame_index as int, tpf, tpg).take(j as int) =~= snes_frame_chips(d, frame_index as int, tpf, tpg));
        assembly.chip_max = chip_max;
        let key = Assets::asset_key_sprite_assembly_frame_scene(assembly_index, frame_index);
        assembly.frame_keys.push(key);
        let ghost before = frames@;
        frames.insert(key, frame);
        proof {
            assert(frame_index < 0x1_0000_0000);
            assert forall|f: int| 0 <= f < frame_index implies #[trigger] frame_key(assembly_index, f as usize) != key by {
                crate::assets::law_frame_keys_distinct(assembly_index, f as usize, frame_index);
            }
            let target = Set::new(|k: u64| exists|f: usize| f < frame_index + 1 && k == #[trigger] frame_key(assembly_index, f));
            assert forall|k: u64| frames@.dom().contains(k) implies target.contains(k) by {
                if k == key {
                    assert(frame_index < frame_index + 1 && k == frame_key(assembly_index, frame_index));
                } else {
                    assert(before.dom().contains(k));
                    let f = choose|f: usize| f < frame_index && k == #[trigger] frame_key(assembly_index, f);
                    assert(f < frame_index + 1 && k == frame_key(assembly_index, f));
                }
            }
            assert forall|k: u64| target.contains(k) implies frames@.dom().contains(k) by {
                let f = choose|f: usize| f < frame_index + 1 && k == #[trigger] frame_key(assembly_index, f);
                if f < frame_index {
                    assert(before.dom().contains(k));
                }
            }
            assert(frames@.dom() =~= target);
            assert(assembly.frame_keys@ =~= Seq::new((frame_index + 1) as nat, |f: int| frame_key(assembly_index, f as usize)));
        }
        frame_index = frame_index + 1;
    }
    (assembly, frames)
}


/// The 16 colors of a sprite palette taken from a source palette from `offset` on; colors past
/// the source's length are opaque black.
pub fn sprite_palette_of(source: &Palette, offset: usize) -> (palette: Palette)
    requires
        source.colors@.len() > 0 ==> (if source.colors@.len() < 16 { source.colors@.len() as int } else { 16 }) + offset <= source.colors@.len(),
    ensures
        palette.colors@ == Seq::new(16, |i: int| if i < source.colors@.len() { source.colors@[i + offset] } else { [0u8, 0u8, 0u8, 0xFFu8] }),
{
    let mut colors: Vec<Color> = Vec::with_capacity(16);
    let mut i: usize = 0;
    while i < 16
        invariant
            i <= 16,
            source.colors@.len() > 0 ==> (if source.colors@.len() < 16 { source.colors@.len() as int } else { 16 }) + offset <= source.colors@.len(),
            colors@ == Seq::new(i as nat, |k: int| if k < source.colors@.len() { source.colors@[k + offset] } else { [0u8, 0u8, 0u8, 0xFFu8] }),
        decreases 16 - i,
    {
        if i < source.colors.len() {
            colors.push(source.colors[i + offset]);
        } else {
            colors.push([0, 0, 0, 0xFF]);
        }
        i = i + 1;
        assert(colors@ =~= Seq::new(i as nat, |k: int| if k < source.colors@.len() { source.colors@[k + offset] } else { [0u8, 0u8, 0u8, 0xFFu8] }));
    }
    Palette::from_colors(&colors)
}

/// A sprite's graphics as a bitmap: 256 pixels wide on the PC, 128 on the SNES, as many rows as
/// the pixels fill, the last one possibly in part.
pub fn sprite_tiles_bitmap(data: Vec<u8>, mode: GameMode) -> (bitmap: Bitmap)
    requires
        data@.len() <= u32::MAX,
    ensures
        bitmap.width == (if mode == GameMode::Pc { 256u32 } else { 128u32 }),
        bitmap.height == (data@.len() as int) / (bitmap.width as int) + (if (data@.len() as int) % (bitmap.width as int) == 0 { 0int } else { 1int }),
        bitmap.data@ == data@,
{
    let width: u32 = match mode {
        GameMode::Pc => 256,
        GameMode::Snes => 128,
    };
    let len = data.len();
    let full = len / (width as usize);
    let height = if len % (width as usize) == 0 { full as u32 } else { (full + 1) as u32 };
    Bitmap::from_raw_data(width, height, data)
}

/// Places a world sprite tile set's pixels at `offset` in the sprite bitmap data; sets with bit
/// 7 of their index set, and missing sets, are left out.
pub fn place_world_sprite_tiles(bitmap_data: &mut Vec<u8>, tiles_index: usize, offset: usize, pixels: Option<Vec<u8>>)
    requires
        pixels matches Some(p) ==> tiles_index & 0x80 == 0 ==> offset + p@.len() <= old(bitmap_data)@.len(),
    ensures
        final(bitmap_data)@ == match pixels {
            Some(p) => if tiles_index & 0x80 == 0 {
                Seq::new(old(bitmap_data)@.len(), |i: int| if offset <= i < offset + p@.len() { p@[i - offset] } else { old(bitmap_data)@[i] })
            } else {
                old(bitmap_data)@
            },
            None => old(bitmap_data)@,
        },
{
    if tiles_index & 0x80 > 0 {
        return;
    }
    match pixels {
        Some(p) => {
            let ghost before = bitmap_data@;
            let total: usize = bitmap_data.len();
            let mut i: usize = 0;
            while i < p.len()
                invariant
                    i <= p@.len(),
                    before.len() == total,
                    offset + p@.len() <= before.len(),
                    bitmap_data@.len() == before.len(),
                    forall|k: int| 0 <= k < before.len() ==> #[trigger] bitmap_data@[k] == if offset <= k < offset + i { p@[k - offset] } else { before[k] },
                decreases p@.len() - i,
            {
                bitmap_data.set(offset + i, p[i]);
                i = i + 1;
            }
            assert(bitmap_data@ =~= Seq::new(before.len(), |k: int| if offset <= k < offset + p@.len() { p@[k - offset] } else { before[k] }));
        },
        None => {},
    }
}

} // verus!
