//! How the map layers of the main and sub screen are combined, as the SNES does it.
use crate::bitmap::Bitmap;
use crate::map::{
    TileMap, EFFECT_DEFAULT_COL, EFFECT_HALF_INTENSITY, EFFECT_L1, EFFECT_L2, EFFECT_L3, EFFECT_SPR,
    EFFECT_SUBTRACT, SCREEN_L1_MAIN, SCREEN_L1_SUB, SCREEN_L2_MAIN, SCREEN_L2_SUB, SCREEN_L3_MAIN,
    SCREEN_L3_SUB, SCREEN_SPR_MAIN, SCREEN_SPR_SUB,
};
use crate::map::{MapChip, MapLayer, CHIP_FLIP_X, CHIP_FLIP_Y, CHIP_PRIORITY};
use crate::scene::scene_renderer::{lemma_wrapped_index_fits, wrap_tile, wrapped_tile};
use crate::surface::{Color, Surface};
use vstd::prelude::*;

verus! {

/// How the sub screen is combined with the main screen.
#[derive(Clone, Copy, PartialEq, Eq, Structural, Debug)]
pub enum LayerBlendMode {
    Add,
    AddHalf,
    Sub,
    SubHalf,
}

/// Layer bits; the background means that nothing was drawn for a pixel.
pub const LAYER_1: u8 = 0x01;
pub const LAYER_2: u8 = 0x02;
pub const LAYER_3: u8 = 0x04;
pub const LAYER_SPRITES: u8 = 0x08;
pub const LAYER_BACKGROUND: u8 = 0x10;

/// `bit` where `set`, else nothing.
pub open spec fn bit_if(set: bool, bit: u8) -> u8 {
    if set { bit } else { 0 }
}

/// The layers that the screen flags send to the main screen.
pub open spec fn main_layers(screen_flags: u32) -> u8 {
    bit_if(screen_flags & SCREEN_L1_MAIN != 0, LAYER_1) | bit_if(screen_flags & SCREEN_L2_MAIN != 0, LAYER_2)
        | bit_if(screen_flags & SCREEN_L3_MAIN != 0, LAYER_3) | bit_if(screen_flags & SCREEN_SPR_MAIN != 0, LAYER_SPRITES)
}

/// The layers that the screen flags send to the sub screen.
pub open spec fn sub_layers(screen_flags: u32) -> u8 {
    bit_if(screen_flags & SCREEN_L1_SUB != 0, LAYER_1) | bit_if(screen_flags & SCREEN_L2_SUB != 0, LAYER_2)
        | bit_if(screen_flags & SCREEN_L3_SUB != 0, LAYER_3) | bit_if(screen_flags & SCREEN_SPR_SUB != 0, LAYER_SPRITES)
}

/// The layers that the effect flags blend.
pub open spec fn blended_layers(effect_flags: u32) -> u8 {
    bit_if(effect_flags & EFFECT_L1 != 0, LAYER_1) | bit_if(effect_flags & EFFECT_L2 != 0, LAYER_2) | bit_if(
        effect_flags & EFFECT_L3 != 0,
        LAYER_3,
    ) | bit_if(effect_flags & EFFECT_SPR != 0, LAYER_SPRITES) | bit_if(
        effect_flags & EFFECT_DEFAULT_COL != 0,
        LAYER_BACKGROUND,
    )
}

/// The blend mode that the effect flags select.
pub open spec fn blend_mode_of(effect_flags: u32) -> LayerBlendMode {
    if effect_flags & EFFECT_SUBTRACT != 0 {
        if effect_flags & EFFECT_HALF_INTENSITY != 0 { LayerBlendMode::SubHalf } else { LayerBlendMode::Sub }
    } else {
        if effect_flags & EFFECT_HALF_INTENSITY != 0 { LayerBlendMode::AddHalf } else { LayerBlendMode::Add }
    }
}

/// `a + b`, at most 255.
pub open spec fn sat_add(a: u8, b: u8) -> u8 {
    if a + b > 255 { 255 } else { (a + b) as u8 }
}

/// `a - b`, at least 0.
pub open spec fn sat_sub(a: u8, b: u8) -> u8 {
    if a < b { 0 } else { (a - b) as u8 }
}

/// A color channel of the main screen combined with one of the sub screen.
pub open spec fn blend_channel(d: u8, input: u8, mode: LayerBlendMode) -> u8 {
    match mode {
        LayerBlendMode::Add => sat_add(d, input),
        LayerBlendMode::AddHalf => sat_add(d / 2, input / 2),
        LayerBlendMode::Sub => sat_sub(d, input),
        LayerBlendMode::SubHalf => sat_sub(d / 2, input / 2),
    }
}

/// The sub screen input of pixel `i`, channel `c`: the clear color where nothing was drawn.
pub open spec fn sub_input(sub: Seq<u8>, sub_screen: Seq<u8>, color: Color, i: int, c: int) -> u8 {
    if sub[i] == 0 { color@[c] } else { sub_screen[4 * i + c] }
}

/// The main screen after color math: each pixel whose main layer is blended and that has a sub
/// screen pixel is combined with it; a main pixel where nothing was drawn takes the sub screen.
pub open spec fn blended_surface(
    dest: Seq<u8>,
    main: Seq<u8>,
    sub: Seq<u8>,
    sub_screen: Seq<u8>,
    color: Color,
    enable: u8,
    mode: LayerBlendMode,
) -> Seq<u8> {
    Seq::new(
        dest.len(),
        |k: int|
            {
                let i = k / 4;
                let c = k % 4;
                if i < main.len() && c < 3 {
                    let input = sub_input(sub, sub_screen, color, i, c);
                    if main[i] & enable > 0 && sub[i] > 0 {
                        blend_channel(dest[k], input, mode)
                    } else if main[i] == 0 && sub[i] > 0 {
                        input
                    } else {
                        dest[k]
                    }
                } else {
                    dest[k]
                }
            },
    )
}

/// Layer flags for the main and sub screen and the color math settings.
pub struct MapRenderer {
    pub screen_sub: Surface,
    pub pixels_main: Bitmap,
    pub pixels_sub: Bitmap,
    pub layer_enabled: u8,
    pub layer_target_main: u8,
    pub layer_target_sub: u8,
    pub layer3_priority: bool,
    pub layer_blend_enable: u8,
    pub layer_blend_mode: LayerBlendMode,
    pub layer_blend_color: Color,
}

impl MapRenderer {
    /// A renderer for a screen of the given size: all layers and sprites enabled, nothing
    /// targeted or blended yet, additive blending with a black clear color.
    pub fn new(width: u32, height: u32) -> (r: MapRenderer)
        requires
            width * height * 4 <= usize::MAX,
        ensures
            r.screen_sub.width == width && r.screen_sub.height == height,
            r.screen_sub.data@ == Seq::new((width * height * 4) as nat, |i: int| 0u8),
            r.pixels_main.width == width && r.pixels_main.height == height,
            r.pixels_main.data@ == Seq::new((width * height) as nat, |i: int| 0u8),
            r.pixels_sub.width == width && r.pixels_sub.height == height,
            r.pixels_sub.data@ == Seq::new((width * height) as nat, |i: int| 0u8),
            r.layer3_priority,
            r.layer_enabled == LAYER_1 | LAYER_2 | LAYER_3 | LAYER_SPRITES,
            r.layer_target_main == 0,
            r.layer_target_sub == 0,
            r.layer_blend_enable == 0,
            r.layer_blend_mode == LayerBlendMode::Add,
            r.layer_blend_color == [0u8, 0u8, 0u8, 0u8],
    {
        MapRenderer {
            screen_sub: Surface::new(width, height),
            pixels_main: Bitmap::new(width, height),
            pixels_sub: Bitmap::new(width, height),
            layer3_priority: true,
            layer_enabled: LAYER_1 | LAYER_2 | LAYER_3 | LAYER_SPRITES,
            layer_target_main: 0,
            layer_target_sub: 0,
            layer_blend_enable: 0,
            layer_blend_mode: LayerBlendMode::Add,
            layer_blend_color: [0, 0, 0, 0],
        }
    }

    /// Adds the screen targets and blended layers that a map asks for, and takes its blend mode.
    pub fn setup_for_map(&mut self, map: &TileMap)
        ensures
            final(self).layer_target_main == old(self).layer_target_main | main_layers(map.screen_flags),
            final(self).layer_target_sub == old(self).layer_target_sub | sub_layers(map.screen_flags),
            final(self).layer_blend_enable == old(self).layer_blend_enable | blended_layers(map.effect_flags),
            final(self).layer_blend_mode == blend_mode_of(map.effect_flags),
            final(self).layer_enabled == old(self).layer_enabled,
            final(self).layer3_priority == old(self).layer3_priority,
            final(self).layer_blend_color == old(self).layer_blend_color,
            final(self).screen_sub == old(self).screen_sub,
            final(self).pixels_main == old(self).pixels_main,
            final(self).pixels_sub == old(self).pixels_sub,
    {
        let sf = map.screen_flags;
        let ef = map.effect_flags;
        let main: u8 = (if sf & SCREEN_L1_MAIN != 0 { LAYER_1 } else { 0 }) | (if sf & SCREEN_L2_MAIN != 0 {
            LAYER_2
        } else {
            0
        }) | (if sf & SCREEN_L3_MAIN != 0 { LAYER_3 } else { 0 }) | (if sf & SCREEN_SPR_MAIN != 0 {
            LAYER_SPRITES
        } else {
            0
        });
        let sub: u8 = (if sf & SCREEN_L1_SUB != 0 { LAYER_1 } else { 0 }) | (if sf & SCREEN_L2_SUB != 0 {
            LAYER_2
        } else {
            0
        }) | (if sf & SCREEN_L3_SUB != 0 { LAYER_3 } else { 0 }) | (if sf & SCREEN_SPR_SUB != 0 {
            LAYER_SPRITES
        } else {
            0
        });
        let blend: u8 = (if ef & EFFECT_L1 != 0 { LAYER_1 } else { 0 }) | (if ef & EFFECT_L2 != 0 {
            LAYER_2
        } else {
            0
        }) | (if ef & EFFECT_L3 != 0 { LAYER_3 } else { 0 }) | (if ef & EFFECT_SPR != 0 {
            LAYER_SPRITES
        } else {
            0
        }) | (if ef & EFFECT_DEFAULT_COL != 0 { LAYER_BACKGROUND } else { 0 });
        self.layer_target_main = self.layer_target_main | main;
        self.layer_target_sub = self.layer_target_sub | sub;
        self.layer_blend_enable = self.layer_blend_enable | blend;
        self.layer_blend_mode = if ef & EFFECT_SUBTRACT != 0 {
            if ef & EFFECT_HALF_INTENSITY != 0 { LayerBlendMode::SubHalf } else { LayerBlendMode::Sub }
        } else {
            if ef & EFFECT_HALF_INTENSITY != 0 { LayerBlendMode::AddHalf } else { LayerBlendMode::Add }
        };
    }
}


/// One color channel of the main screen combined with the sub screen.
fn blend_value(d: u8, input: u8, mode: LayerBlendMode) -> (v: u8)
    ensures
        v == blend_channel(d, input, mode),
{
    assert(d >> 1 == d / 2 && input >> 1 == input / 2) by (bit_vector);
    match mode {
        LayerBlendMode::Add => d.saturating_add(input),
        LayerBlendMode::AddHalf => (d >> 1).saturating_add(input >> 1),
        LayerBlendMode::Sub => d.saturating_sub(input),
        LayerBlendMode::SubHalf => (d >> 1).saturating_sub(input >> 1),
    }
}

impl MapRenderer {
    /// Applies color math between the main screen, drawn into `dest_surface`, and the sub screen.
    pub fn blend_surfaces(&self, dest_surface: &mut Surface)
        requires
            old(dest_surface).data@.len() >= 4 * self.pixels_main.data@.len(),
            self.screen_sub.data@.len() >= 4 * self.pixels_main.data@.len(),
            self.pixels_sub.data@.len() >= self.pixels_main.data@.len(),
        ensures
            final(dest_surface).width == old(dest_surface).width,
            final(dest_surface).height == old(dest_surface).height,
            final(dest_surface).data@ == blended_surface(
                old(dest_surface).data@,
                self.pixels_main.data@,
                self.pixels_sub.data@,
                self.screen_sub.data@,
                self.layer_blend_color,
                self.layer_blend_enable,
                self.layer_blend_mode,
            ),
    {
        let ghost old_data = dest_surface.data@;
        let ghost target = blended_surface(
            old_data,
            self.pixels_main.data@,
            self.pixels_sub.data@,
            self.screen_sub.data@,
            self.layer_blend_color,
            self.layer_blend_enable,
            self.layer_blend_mode,
        );
        let n = self.pixels_main.data.len();
        let total = dest_surface.data.len();
        let mut index: usize = 0;
        while index < n
            invariant
                n == self.pixels_main.data@.len(),
                index <= n,
                dest_surface.width == old(dest_surface).width,
                dest_surface.height == old(dest_surface).height,
                old_data.len() >= 4 * n,
                self.screen_sub.data@.len() >= 4 * n,
                self.pixels_sub.data@.len() >= n,
                dest_surface.data@.len() == old_data.len(),
                total == old_data.len(),
                target == blended_surface(
                    old_data,
                    self.pixels_main.data@,
                    self.pixels_sub.data@,
                    self.screen_sub.data@,
                    self.layer_blend_color,
                    self.layer_blend_enable,
                    self.layer_blend_mode,
                ),
                forall|k: int| 0 <= k < old_data.len() ==> #[trigger] dest_surface.data@[k] == (if k / 4 < index { target[k] } else { old_data[k] }),
            decreases n - index,
        {
            let src = self.pixels_main.data[index];
            let sub = self.pixels_sub.data[index];
            let dest = index * 4;
            let mut c: usize = 0;
            while c < 3
                invariant
                    c <= 3,
                    dest == index * 4,
                    index < n,
                    n == self.pixels_main.data@.len(),
                    src == self.pixels_main.data@[index as int],
                    sub == self.pixels_sub.data@[index as int],
                    old_data.len() >= 4 * n,
                    self.screen_sub.data@.len() >= 4 * n,
                    self.pixels_sub.data@.len() >= n,
                    dest_surface.data@.len() == old_data.len(),
                    dest_surface.width == old(dest_surface).width,
                    dest_surface.height == old(dest_surface).height,
                    target == blended_surface(
                        old_data,
                        self.pixels_main.data@,
                        self.pixels_sub.data@,
                        self.screen_sub.data@,
                        self.layer_blend_color,
                        self.layer_blend_enable,
                        self.layer_blend_mode,
                    ),
                    forall|k: int| 0 <= k < old_data.len() ==> #[trigger] dest_surface.data@[k] == (if k / 4 < index || (k / 4 == index && k % 4 < c) {
                        target[k]
                    } else {
                        old_data[k]
                    }),
                decreases 3 - c,
            {
                let input = if sub == 0 { self.layer_blend_color[c] } else { self.screen_sub.data[dest + c] };
                let d = dest_surface.data[dest + c];
                let ghost k = (dest + c) as int;
                assert(k / 4 == index && k % 4 == c);
                if src & self.layer_blend_enable > 0 && sub > 0 {
                    let v = blend_value(d, input, self.layer_blend_mode);
                    dest_surface.data.set(dest + c, v);
                } else if src == 0 && sub > 0 {
                    dest_surface.data.set(dest + c, input);
                }
                assert(dest_surface.data@[k] == target[k]);
                c = c + 1;
            }
            index = index + 1;
        }
        assert(dest_surface.data@ =~= target) by {
            assert forall|k: int| 0 <= k < old_data.len() implies #[trigger] dest_surface.data@[k] == target[k] by {
                if k / 4 >= n {
                    assert(target[k] == old_data[k]);
                }
            }
        }
    }
}

} // verus!

verus! {

/// One chip of a layer drawn to the screen: its graphic, its first palette entry, the pixel
/// position it goes to, and whether it is mirrored.
#[derive(Clone, Copy, PartialEq, Eq, Structural, Debug)]
pub struct ChipBlit {
    pub chip: usize,
    pub palette: usize,
    pub x: i32,
    pub y: i32,
    pub flip_x: bool,
    pub flip_y: bool,
}

/// Whether a chip is drawn in the pass for `priority`: chip 0 and chips past the tileset's are
/// never drawn; priority chips only in pass 1, the others only in pass 0; other passes draw all.
pub open spec fn chip_drawn(c: MapChip, chip_count: int, priority: u8) -> bool {
    &&& c.chip != 0
    &&& c.chip < chip_count
    &&& !(priority == 0 && c.flags & CHIP_PRIORITY != 0)
    &&& !(priority == 1 && c.flags & CHIP_PRIORITY == 0)
}

/// The chip shown at a chip position of the wrapped layer.
pub open spec fn wrapped_chip(chips: Seq<MapChip>, width: int, height: int, cx: int, cy: int) -> MapChip {
    chips[wrapped_tile(cx, width) + wrapped_tile(cy, height) * width]
}

/// What chip position `(cx, cy)` draws with the layer at pixel `pos`.
pub open spec fn chip_blits(c: MapChip, chip_count: int, priority: u8, cx: int, cy: int, pos: (i32, i32)) -> Seq<ChipBlit> {
    if chip_drawn(c, chip_count, priority) {
        seq![ChipBlit {
            chip: c.chip,
            palette: c.palette,
            x: (cx * 8 - pos.0) as i32,
            y: (cy * 8 - pos.1) as i32,
            flip_x: c.flags & CHIP_FLIP_X != 0,
            flip_y: c.flags & CHIP_FLIP_Y != 0,
        }]
    } else {
        Seq::empty()
    }
}

/// What the chips of row `cy` from `x_from` up to `x_to` draw, left to right.
pub open spec fn row_chip_blits(chips: Seq<MapChip>, width: int, height: int, chip_count: int, priority: u8, cy: int, x_from: int, x_to: int, pos: (i32, i32)) -> Seq<ChipBlit>
    decreases x_to - x_from,
{
    if x_to <= x_from {
        Seq::empty()
    } else {
        row_chip_blits(chips, width, height, chip_count, priority, cy, x_from, x_to - 1, pos)
            + chip_blits(wrapped_chip(chips, width, height, x_to - 1, cy), chip_count, priority, x_to - 1, cy, pos)
    }
}

/// What the rows from `y_from` up to `y_to` draw, top to bottom.
pub open spec fn area_chip_blits(chips: Seq<MapChip>, width: int, height: int, chip_count: int, priority: u8, x_from: int, x_to: int, y_from: int, y_to: int, pos: (i32, i32)) -> Seq<ChipBlit>
    decreases y_to - y_from,
{
    if y_to <= y_from {
        Seq::empty()
    } else {
        area_chip_blits(chips, width, height, chip_count, priority, x_from, x_to, y_from, y_to - 1, pos)
            + row_chip_blits(chips, width, height, chip_count, priority, y_to - 1, x_from, x_to, pos)
    }
}

/// The chips that a layer draws in the pass for `priority`, for the chip positions from `chip1`
/// up to `chip2`, the layer wrapping around, row by row, with the layer scrolled to pixel
/// `pos`; `chip_count` is the number of chip graphics of the tileset.
pub fn layer_chip_blits(layer: &MapLayer, chip_count: usize, priority: u8, chip1: (i32, i32), chip2: (i32, i32), pos: (i32, i32)) -> (blits: Vec<ChipBlit>)
    requires
        chip1.1 < chip2.1 ==> chip1.1 > i32::MIN && 0 < layer.chip_height <= i32::MAX,
        chip1.1 < chip2.1 ==> i32::MIN <= chip1.1 * 8 - pos.1 && (chip2.1 - 1) * 8 - pos.1 <= i32::MAX,
        chip1.1 < chip2.1 ==> i32::MIN <= chip1.1 * 8 && (chip2.1 - 1) * 8 <= i32::MAX,
        chip1.1 < chip2.1 && chip1.0 < chip2.0 ==> {
            &&& chip1.0 > i32::MIN
            &&& layer.chip_width > 0
            &&& layer.chip_width * layer.chip_height <= i32::MAX
            &&& layer.chip_width * layer.chip_height <= layer.chips@.len()
            &&& i32::MIN <= chip1.0 * 8 - pos.0 && (chip2.0 - 1) * 8 - pos.0 <= i32::MAX
            &&& i32::MIN <= chip1.0 * 8 && (chip2.0 - 1) * 8 <= i32::MAX
        },
    ensures
        blits@ == area_chip_blits(
            layer.chips@,
            layer.chip_width as int,
            layer.chip_height as int,
            chip_count as int,
            priority,
            chip1.0 as int,
            chip2.0 as int,
            chip1.1 as int,
            chip2.1 as int,
            pos,
        ),
{
    let ghost ch = layer.chips@;
    let ghost w = layer.chip_width as int;
    let ghost h = layer.chip_height as int;
    let ghost n = chip_count as int;
    let mut blits: Vec<ChipBlit> = Vec::new();
    if chip1.1 >= chip2.1 {
        return blits;
    }
    let chip_height = layer.chip_height as i32;
    let mut chip_y = chip1.1;
    while chip_y < chip2.1
        invariant
            chip1.1 <= chip_y <= chip2.1,
            chip1.1 < chip2.1,
            chip_height == h,
            ch == layer.chips@,
            w == layer.chip_width,
            h == layer.chip_height,
            n == chip_count,
            chip1.1 > i32::MIN && 0 < layer.chip_height <= i32::MAX,
            i32::MIN <= chip1.1 * 8 - pos.1 && (chip2.1 - 1) * 8 - pos.1 <= i32::MAX,
            i32::MIN <= chip1.1 * 8 && (chip2.1 - 1) * 8 <= i32::MAX,
            chip1.0 < chip2.0 ==> {
                &&& chip1.0 > i32::MIN
                &&& layer.chip_width > 0
                &&& layer.chip_width * layer.chip_height <= i32::MAX
                &&& layer.chip_width * layer.chip_height <= layer.chips@.len()
                &&& i32::MIN <= chip1.0 * 8 - pos.0 && (chip2.0 - 1) * 8 - pos.0 <= i32::MAX
                &&& i32::MIN <= chip1.0 * 8 && (chip2.0 - 1) * 8 <= i32::MAX
            },
            blits@ == area_chip_blits(ch, w, h, n, priority, chip1.0 as int, chip2.0 as int, chip1.1 as int, chip_y as int, pos),
        decreases chip2.1 - chip_y,
    {
        let chip_y_wrap = wrap_tile(chip_y, chip_height);
        let ghost before_row = blits@;
        let mut chip_x = chip1.0;
        if chip1.0 < chip2.0 {
            assert(layer.chip_width <= layer.chip_width * layer.chip_height) by (nonlinear_arith)
                requires
                    layer.chip_height > 0,
            ;
            let chip_width = layer.chip_width as i32;
            while chip_x < chip2.0
                invariant
                    chip1.0 <= chip_x <= chip2.0,
                    chip1.1 <= chip_y < chip2.1,
                    chip_width == w,
                    chip_height == h,
                    chip_y_wrap == wrapped_tile(chip_y as int, h),
                    0 <= chip_y_wrap < h,
                    ch == layer.chips@,
                    w == layer.chip_width,
                    h == layer.chip_height,
                    n == chip_count,
                    chip1.0 > i32::MIN,
                    layer.chip_width > 0,
                    layer.chip_width * layer.chip_height <= i32::MAX,
                    layer.chip_width * layer.chip_height <= layer.chips@.len(),
                    i32::MIN <= chip1.0 * 8 - pos.0 && (chip2.0 - 1) * 8 - pos.0 <= i32::MAX,
                    i32::MIN <= chip1.0 * 8 && (chip2.0 - 1) * 8 <= i32::MAX,
                    i32::MIN <= chip1.1 * 8 - pos.1 && (chip2.1 - 1) * 8 - pos.1 <= i32::MAX,
                    i32::MIN <= chip1.1 * 8 && (chip2.1 - 1) * 8 <= i32::MAX,
                    blits@ == before_row + row_chip_blits(ch, w, h, n, priority, chip_y as int, chip1.0 as int, chip_x as int, pos),
                decreases chip2.0 - chip_x,
            {
                let chip_x_wrap = wrap_tile(chip_x, chip_width);
                proof {
                    lemma_wrapped_index_fits(chip_x_wrap as int, chip_y_wrap as int, w, h);
                }
                let chip_offset = (chip_x_wrap + chip_y_wrap * chip_width) as usize;
                let chip = layer.chips[chip_offset];
                let ghost prev = blits@;
                let drawn = chip.chip != 0 && chip.chip < chip_count
                    && !(priority == 0 && chip.flags & CHIP_PRIORITY != 0)
                    && !(priority == 1 && chip.flags & CHIP_PRIORITY == 0);
                if drawn {
                    blits.push(ChipBlit {
                        chip: chip.chip,
                        palette: chip.palette,
                        x: chip_x * 8 - pos.0,
                        y: chip_y * 8 - pos.1,
                        flip_x: chip.flags & CHIP_FLIP_X != 0,
                        flip_y: chip.flags & CHIP_FLIP_Y != 0,
                    });
                }
                assert(blits@ == prev + chip_blits(wrapped_chip(ch, w, h, chip_x as int, chip_y as int), n, priority, chip_x as int, chip_y as int, pos));
                chip_x = chip_x + 1;
            }
        }
        assert(blits@ == before_row + row_chip_blits(ch, w, h, n, priority, chip_y as int, chip1.0 as int, chip2.0 as int, pos));
        chip_y = chip_y + 1;
    }
    blits
}

} // verus!
