//! Decoding of the palette operations.
use vstd::prelude::*;
use crate::reader::ByteReader;
use crate::scene::ops::{avail, ColorMathMode, Op, SubPalette};
use crate::scene::scene_script_decoder::{read_script_blob, spec_read_script_blob};

verus! {

/// The palette operation `op` read from the bytes at `p`, and the position after it; `None` for
/// an operation that is not a palette operation, that runs past the end of the data, or whose
/// sub-command is rejected.
///
/// Color math (mode bit 0x40) is always additive: the mode test for it also passes for bit 0x40.
pub open spec fn spec_op_decode_palette(op: u8, s: Seq<u8>, p: int) -> Option<(Op, int)> {
    if op == 0x2E && avail(s, p, 1) {
        let mode = s[p];
        if mode & 0x40 > 0 {
            if avail(s, p, 5) {
                Some(
                    (
                        Op::ColorMath {
                            mode: ColorMathMode::Additive,
                            r: (mode & 0x1) > 0,
                            g: ((mode & 0x2) >> 1) > 0,
                            b: ((mode & 0x4) >> 2) > 0,
                            color_start: s[p + 1],
                            color_count: s[p + 2],
                            intensity_start: (s[p + 3] & 0xF0) >> 4,
                            intensity_end: s[p + 3] & 0xF,
                            duration: s[p + 4],
                        },
                        p + 5,
                    ),
                )
            } else {
                None
            }
        } else if mode & 0x80 > 0 {
            if avail(s, p, 2) && spec_read_script_blob(s, p + 2) is Some {
                let (blob, q) = spec_read_script_blob(s, p + 2).unwrap();
                Some(
                    (
                        Op::PaletteSetImmediate {
                            sub_palette: SubPalette::Index(((s[p + 1] & 0xF0) >> 4) as usize),
                            color_index: (s[p + 1] & 0xF) as usize,
                            data: blob,
                        },
                        q,
                    ),
                )
            } else {
                None
            }
        } else {
            Some((Op::NOP, p + 1))
        }
    } else if op == 0x33 && avail(s, p, 1) {
        Some((Op::PaletteSet { palette: s[p] as usize }, p + 1))
    } else if op == 0x88 && avail(s, p, 1) {
        let cmd = s[p];
        if cmd == 0 {
            Some((Op::PaletteRestore, p + 1))
        } else if (cmd == 0x20 || cmd == 0x30) && avail(s, p, 3) {
            Some((Op::Unknown { code: 0x88, data: [cmd, s[p + 1], s[p + 2], 0] }, p + 3))
        } else if 0x40 < cmd < 0x60 && avail(s, p, 4) {
            Some((Op::Unknown { code: 0x88, data: [cmd, s[p + 1], s[p + 2], s[p + 3]] }, p + 4))
        } else if 0x80 < cmd < 0x90 && spec_read_script_blob(s, p + 1) is Some {
            let (blob, q) = spec_read_script_blob(s, p + 1).unwrap();
            Some(
                (
                    Op::PaletteSetImmediate {
                        color_index: (cmd & 0xF) as usize,
                        sub_palette: SubPalette::This,
                        data: blob,
                    },
                    q,
                ),
            )
        } else {
            None
        }
    } else {
        None
    }
}

/// Decodes a palette operation whose operation byte `op` was just read.
pub fn op_decode_palette(op: u8, data: &mut ByteReader) -> (result: Op)
    requires
        spec_op_decode_palette(op, old(data).data@, old(data).pos as int) is Some,
    ensures
        final(data).data@ == old(data).data@,
        spec_op_decode_palette(op, old(data).data@, old(data).pos as int) == Some(
            (result, final(data).pos as int),
        ),
{
    match op {
        // Dual mode palette command.
        0x2E => {
            let mode = data.read_u8();
            if mode & 0x40 > 0 {
                let b = ((mode & 0x4) >> 2) > 0;
                let g = ((mode & 0x2) >> 1) > 0;
                let r = ((mode & 0x1) >> 0) > 0;

                let color_start = data.read_u8();
                let color_count = data.read_u8();

                let intensity_bits = data.read_u8();
                let intensity_end = intensity_bits & 0xF;
                let intensity_start = (intensity_bits & 0xF0) >> 4;

                // In 60 Hz frames.
                let duration = data.read_u8();

                assert(mode & 0x40 > 0 ==> mode & 0x50 > 0) by (bit_vector);
                assert((mode & 0x1) >> 0 == mode & 0x1) by (bit_vector);
                Op::ColorMath {
                    mode: if mode & 0x50 > 0 {
                        ColorMathMode::Additive
                    } else {
                        ColorMathMode::Subtractive
                    },
                    r,
                    g,
                    b,
                    color_start,
                    color_count,
                    intensity_start,
                    intensity_end,
                    duration,
                }
            } else if mode & 0x80 > 0 {
                let bits = data.read_u8() as usize;
                let color_index = bits & 0xF;
                let sub_palette = (bits & 0xF0) >> 4;
                let ghost b8 = bits as u8;
                assert(b8 as usize & 0xF == (b8 & 0xF) as usize) by (bit_vector);
                assert((b8 as usize & 0xF0) >> 4 == ((b8 & 0xF0) >> 4) as usize) by (bit_vector);

                Op::PaletteSetImmediate {
                    sub_palette: SubPalette::Index(sub_palette),
                    color_index,
                    data: read_script_blob(data),
                }
            } else {
                Op::NOP
            }
        },
        0x33 => Op::PaletteSet { palette: data.read_u8() as usize },

        // 0x88 sub ops.
        _ => {
            let cmd = data.read_u8();
            if cmd == 0 {
                Op::PaletteRestore
            } else if cmd == 0x20 {
                Op::Unknown { code: 0x88, data: [cmd, data.read_u8(), data.read_u8(), 0] }
            } else if cmd == 0x30 {
                Op::Unknown { code: 0x88, data: [cmd, data.read_u8(), data.read_u8(), 0] }
            } else if cmd > 0x40 && cmd < 0x60 {
                Op::Unknown {
                    code: 0x88,
                    data: [cmd, data.read_u8(), data.read_u8(), data.read_u8()],
                }
            } else {
                assert((cmd as usize) & 0xF == (cmd & 0xF) as usize) by (bit_vector);
                Op::PaletteSetImmediate {
                    color_index: cmd as usize & 0xF,
                    sub_palette: SubPalette::This,
                    data: read_script_blob(data),
                }
            }
        },
    }
}

} // verus!
