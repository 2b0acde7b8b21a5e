//! Palette animations: colors that cycle through a range, or sequences of color sets.
use crate::palette::Palette;
use crate::surface::Color;
use vstd::prelude::*;

verus! {

/// How a palette animation changes its colors.
#[derive(Clone, Copy, PartialEq, Eq, Structural, Debug)]
pub enum PaletteAnimType {
    Sequence,
    CycleForward,
    CycleBackward,
}

impl PaletteAnimType {
    /// The name of the type.
    pub fn to_string(&self) -> (s: &'static str)
        ensures
            s@ == match *self {
                PaletteAnimType::Sequence => "Sequence"@,
                PaletteAnimType::CycleForward => "Cycle forwards"@,
                PaletteAnimType::CycleBackward => "Cycle backwards"@,
            },
    {
        match self {
            PaletteAnimType::Sequence => "Sequence",
            PaletteAnimType::CycleForward => "Cycle forwards",
            PaletteAnimType::CycleBackward => "Cycle backwards",
        }
    }
}

/// A palette animation over `color_count` colors from `color_index`. Cycles move one more color
/// than the count; sequences copy color sets from `colors`, in the order of `frames`.
pub struct PaletteAnim {
    pub index: usize,
    pub anim_type: PaletteAnimType,
    pub color_index: usize,
    pub color_count: usize,
    pub delay_frames: u32,
    pub frames: Vec<usize>,
    pub colors: Vec<Color>,
    pub current_frame: usize,
}

/// The colors from `start` to `start + count`, inclusive, moved one place up, the last one
/// wrapping around to `start`.
pub open spec fn rotated_forward(s: Seq<Color>, start: int, count: int) -> Seq<Color> {
    Seq::new(s.len(), |k: int| if k == start { s[start + count] } else if start < k <= start + count { s[k - 1] } else { s[k] })
}

/// The colors from `start` to `start + count`, inclusive, moved one place down, the first one
/// wrapping around to `start + count`.
pub open spec fn rotated_backward(s: Seq<Color>, start: int, count: int) -> Seq<Color> {
    Seq::new(s.len(), |k: int| if k == start + count { s[start] } else if start <= k < start + count { s[k + 1] } else { s[k] })
}

/// The frame after `frame` in a sequence of `len` frames, wrapping to the first.
pub open spec fn next_frame(frame: int, len: int) -> int {
    if frame + 1 >= len { 0 } else { frame + 1 }
}

/// `s` with `count` colors from `start` replaced by those of `src` from `from`.
pub open spec fn copied_colors(s: Seq<Color>, start: int, src: Seq<Color>, from: int, count: int) -> Seq<Color> {
    Seq::new(s.len(), |k: int| if start <= k < start + count { src[from + k - start] } else { s[k] })
}

impl PaletteAnim {
    /// Whether the animation can step on a palette of `len` colors without leaving it.
    pub open spec fn fits(&self, len: int) -> bool {
        match self.anim_type {
            PaletteAnimType::CycleForward | PaletteAnimType::CycleBackward => self.color_index + self.color_count < len,
            PaletteAnimType::Sequence => {
                &&& self.frames@.len() > 0
                &&& self.current_frame < usize::MAX
                &&& self.color_index + self.color_count <= len
                &&& forall|f: int| 0 <= f < self.frames@.len() ==> #[trigger] self.frames@[f] * self.color_count
                    + self.color_count <= self.colors@.len()
            },
        }
    }

    /// Steps the animation by one frame, changing the palette.
    pub fn advance(&mut self, palette: &mut Palette)
        requires
            old(self).fits(old(palette).colors@.len() as int),
        ensures
            final(self).anim_type == old(self).anim_type,
            final(self).color_index == old(self).color_index,
            final(self).color_count == old(self).color_count,
            final(self).frames@ == old(self).frames@,
            final(self).colors@ == old(self).colors@,
            final(self).index == old(self).index,
            final(self).delay_frames == old(self).delay_frames,
            match old(self).anim_type {
                PaletteAnimType::CycleForward => final(palette).colors@ == rotated_forward(
                    old(palette).colors@,
                    old(self).color_index as int,
                    old(self).color_count as int,
                ) && final(self).current_frame == old(self).current_frame,
                PaletteAnimType::CycleBackward => final(palette).colors@ == rotated_backward(
                    old(palette).colors@,
                    old(self).color_index as int,
                    old(self).color_count as int,
                ) && final(self).current_frame == old(self).current_frame,
                PaletteAnimType::Sequence => {
                    let f = next_frame(old(self).current_frame as int, old(self).frames@.len() as int);
                    &&& final(self).current_frame == f
                    &&& final(palette).colors@ == copied_colors(
                        old(palette).colors@,
                        old(self).color_index as int,
                        old(self).colors@,
                        old(self).frames@[f] * old(self).color_count,
                        old(self).color_count as int,
                    )
                },
            },
    {
        let start = self.color_index;
        let count = self.color_count;
        let palette_len = palette.colors.len();
        let colors_len = self.colors.len();
        match self.anim_type {
            PaletteAnimType::CycleForward => {
                let ghost s = palette.colors@;
                let last = palette.colors[start + count];
                let mut k: usize = start + count;
                while k > start
                    invariant
                        start <= k <= start + count,
                        start + count < s.len(),
                        s.len() == palette_len,
                        palette.colors@.len() == s.len(),
                        forall|j: int| 0 <= j < s.len() ==> #[trigger] palette.colors@[j] == (if k < j <= start + count {
                            s[j - 1]
                        } else {
                            s[j]
                        }),
                    decreases k,
                {
                    let prev = palette.colors[k - 1];
                    palette.colors.set(k, prev);
                    k = k - 1;
                }
                palette.colors.set(start, last);
                assert(palette.colors@ =~= rotated_forward(s, start as int, count as int));
            },
            PaletteAnimType::CycleBackward => {
                let ghost s = palette.colors@;
                let first = palette.colors[start];
                let mut k: usize = start;
                while k < start + count
                    invariant
                        start <= k <= start + count,
                        start + count < s.len(),
                        s.len() == palette_len,
                        palette.colors@.len() == s.len(),
                        forall|j: int| 0 <= j < s.len() ==> #[trigger] palette.colors@[j] == (if start <= j < k {
                            s[j + 1]
                        } else {
                            s[j]
                        }),
                    decreases start + count - k,
                {
                    let next = palette.colors[k + 1];
                    palette.colors.set(k, next);
                    k = k + 1;
                }
                palette.colors.set(start + count, first);
                assert(palette.colors@ =~= rotated_backward(s, start as int, count as int));
            },
            PaletteAnimType::Sequence => {
                self.current_frame = self.current_frame + 1;
                if self.current_frame >= self.frames.len() {
                    self.current_frame = 0;
                }
                let set_index = self.frames[self.current_frame];
                assert(set_index * count + count <= self.colors@.len());
                assert(set_index * count + count <= colors_len);
                let src = set_index * count;
                let ghost s = palette.colors@;
                let mut k: usize = 0;
                while k < count
                    invariant
                        k <= count,
                        start + count <= s.len(),
                        s.len() == palette_len,
                        src + count <= self.colors@.len(),
                        self.colors@.len() == colors_len,
                        palette.colors@.len() == s.len(),
                        forall|j: int| 0 <= j < s.len() ==> #[trigger] palette.colors@[j] == (if start <= j < start + k {
                            self.colors@[src + j - start]
                        } else {
                            s[j]
                        }),
                    decreases count - k,
                {
                    let c = self.colors[src + k];
                    palette.colors.set(start + k, c);
                    k = k + 1;
                }
                assert(palette.colors@ =~= copied_colors(s, start as int, self.colors@, src as int, count as int));
            },
        }
    }
}

/// Cycling colors forward and then backward over the same range gives the colors back.
pub proof fn law_cycle_back_and_forth(s: Seq<Color>, start: int, count: int)
    requires
        0 <= start,
        0 <= count,
        start + count < s.len(),
    ensures
        rotated_backward(rotated_forward(s, start, count), start, count) == s,
        rotated_forward(rotated_backward(s, start, count), start, count) == s,
{
    assert(rotated_backward(rotated_forward(s, start, count), start, count) =~= s);
    assert(rotated_forward(rotated_backward(s, start, count), start, count) =~= s);
}

/// A set of palette animations.
pub struct PaletteAnimSet {
    pub index: usize,
    pub anims: Vec<PaletteAnim>,
}

} // verus!
