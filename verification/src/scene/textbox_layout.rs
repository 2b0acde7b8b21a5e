//! The layout of a text box page: where each piece of text goes, which lines are centered, and
//! where the choices are.
use crate::renderer::{TextFont, TextRenderable, TEXT_DRAW_SHADOW};
use crate::surface::Color;
use crate::util::vec2di32::Vec2Di32;
use vstd::prelude::*;

verus! {

/// The color of text box text.
pub const TEXTBOX_TEXT_COLOR: Color = [231, 231, 231, 255];

/// How far right of the line start a choice marker goes, in pixels.
pub const TEXTBOX_CHOICE_OFFSET: i32 = 24;

/// A part of a text box page.
pub enum TextPart {
    /// Text to show.
    Text { text: String },
    /// The end of a line.
    LineBreak,
    /// A pause after the text before it, in ticks.
    Delay { ticks: u32 },
    /// The next line is centered.
    CenterNextLine,
}

/// A piece of text placed on the page, with the pause after it.
pub struct TextBoxLayoutItem {
    pub renderable: TextRenderable,
    pub pos: Vec2Di32,
    pub size: Vec2Di32,
    pub wait: u32,
}

/// A choice: where its marker goes and the line it selects.
#[derive(Clone, Copy, PartialEq, Eq, Structural, Debug)]
pub struct TextBoxChoice {
    pub pos: Vec2Di32,
    pub line: usize,
}

/// The placed text and the choices of a page.
pub struct TextBoxLayout {
    pub items: Vec<TextBoxLayoutItem>,
    pub choices: Vec<TextBoxChoice>,
}

/// A placed piece of text as numbers: its position, size, text and pause.
pub struct LaidOutText {
    pub x: int,
    pub y: int,
    pub width: int,
    pub height: int,
    pub text: Seq<char>,
    pub wait: u32,
}

/// A choice as numbers.
pub struct LaidOutChoice {
    pub x: int,
    pub y: int,
    pub line: int,
}

/// A placed item as numbers.
pub open spec fn item_model(it: TextBoxLayoutItem) -> LaidOutText {
    LaidOutText {
        x: it.pos.x as int,
        y: it.pos.y as int,
        width: it.size.x as int,
        height: it.size.y as int,
        text: it.renderable.text@,
        wait: it.wait,
    }
}

/// Placed items as numbers.
pub open spec fn items_model(items: Seq<TextBoxLayoutItem>) -> Seq<LaidOutText> {
    items.map_values(|it: TextBoxLayoutItem| item_model(it))
}

/// A choice as numbers.
pub open spec fn choice_model(c: TextBoxChoice) -> LaidOutChoice {
    LaidOutChoice { x: c.pos.x as int, y: c.pos.y as int, line: c.line as int }
}

/// Choices as numbers.
pub open spec fn choices_model(choices: Seq<TextBoxChoice>) -> Seq<LaidOutChoice> {
    choices.map_values(|c: TextBoxChoice| choice_model(c))
}

/// Whether an item's text is drawn as text box text: regular font, text box color, shadowed,
/// unwrapped, all of it shown and nothing drawn yet.
pub open spec fn textbox_renderable(it: TextBoxLayoutItem) -> bool {
    &&& it.renderable.font == TextFont::Regular
    &&& it.renderable.color == TEXTBOX_TEXT_COLOR
    &&& it.renderable.flags == TEXT_DRAW_SHADOW
    &&& it.renderable.wrap_width == 0
    &&& it.renderable.surface is None
    &&& it.renderable.char_count == it.renderable.text@.len()
    &&& it.renderable.char_count_show == it.renderable.text@.len()
}

/// Half a number, rounded toward zero.
pub open spec fn trunc_half(v: int) -> int {
    if v >= 0 { v / 2 } else { -((-v) / 2) }
}

/// The total width of the items from `start` up to `end`.
pub open spec fn widths_sum(items: Seq<LaidOutText>, start: int, end: int) -> int
    decreases end - start,
{
    if end <= start {
        0
    } else {
        widths_sum(items, start, end - 1) + items[end - 1].width
    }
}

/// The items with those from `start` up to `end` moved right so that their total width is
/// centered on `page_width`: by half the page width less half the line width, each half
/// rounded toward zero.
pub open spec fn centered(items: Seq<LaidOutText>, start: int, end: int, page_width: int) -> Seq<LaidOutText> {
    let offset = trunc_half(page_width) - trunc_half(widths_sum(items, start, end));
    Seq::new(
        items.len(),
        |i: int|
            if start <= i < end {
                LaidOutText { x: items[i].x + offset, ..items[i] }
            } else {
                items[i]
            },
    )
}

/// The choices with one for line `line` added where the line is within the choice lines; its
/// marker goes right of the line start.
pub open spec fn with_choice(choices: Seq<LaidOutChoice>, choice_lines: Option<[usize; 2]>, line: int, x: int, y: int) -> Seq<LaidOutChoice> {
    match choice_lines {
        Some(cl) => if cl[0] <= line <= cl[1] {
            choices.push(LaidOutChoice { x: x + 24, y, line })
        } else {
            choices
        },
        None => choices,
    }
}

impl TextBoxLayout {
    /// A layout without items or choices.
    pub fn empty() -> (layout: TextBoxLayout)
        ensures
            layout.items@.len() == 0,
            layout.choices@.len() == 0,
    {
        TextBoxLayout { items: Vec::new(), choices: Vec::new() }
    }
}

/// Adds a choice for line `line` where the line is within the choice lines.
fn add_choice_line_choice(choice_lines: Option<[usize; 2]>, line: usize, layout: &mut TextBoxLayout, x: i32, y: i32)
    requires
        x + 24 <= i32::MAX,
    ensures
        choices_model(final(layout).choices@) == with_choice(choices_model(old(layout).choices@), choice_lines, line as int, x as int, y as int),
        final(layout).items@ == old(layout).items@,
{
    if let Some(choice_lines) = choice_lines {
        if line >= choice_lines[0] && line <= choice_lines[1] {
            layout.choices.push(TextBoxChoice { pos: Vec2Di32::new(x + 24, y), line });
            assert(choices_model(layout.choices@) =~= choices_model(old(layout).choices@).push(
                LaidOutChoice { x: x + 24, y: y as int, line: line as int },
            ));
        }
    }
}

proof fn lemma_widths_sum_nonneg(items: Seq<LaidOutText>, start: int, end: int)
    requires
        forall|i: int| start <= i < end ==> (#[trigger] items[i]).width >= 0,
    ensures
        widths_sum(items, start, end) >= 0,
    decreases end - start,
{
    if end > start {
        lemma_widths_sum_nonneg(items, start, end - 1);
    }
}

/// Centers the items from `start` up to `end` on `textbox_width`.
fn center_line(items: &mut Vec<TextBoxLayoutItem>, start: usize, end: usize, textbox_width: i32)
    requires
        start <= end <= old(items)@.len(),
        forall|i: int| start <= i < end ==> (#[trigger] old(items)@[i]).size.x >= 0,
        widths_sum(items_model(old(items)@), start as int, end as int) <= i32::MAX,
        forall|i: int| start <= i < end ==> {
            &&& 0 <= (#[trigger] old(items)@[i]).pos.x
            &&& old(items)@[i].pos.x + trunc_half(textbox_width as int) <= i32::MAX
        },
        textbox_width > i32::MIN,
    ensures
        final(items)@.len() == old(items)@.len(),
        items_model(final(items)@) == centered(items_model(old(items)@), start as int, end as int, textbox_width as int),
        forall|i: int| 0 <= i < final(items)@.len() ==> (#[trigger] final(items)@[i]).renderable == old(items)@[i].renderable
            && final(items)@[i].size == old(items)@[i].size,
{
    let ghost model = items_model(items@);
    let mut line_width: i32 = 0;
    let mut i: usize = start;
    while i < end
        invariant
            start <= i <= end,
            end <= items@.len(),
            items@ == old(items)@,
            model == items_model(items@),
            forall|k: int| start <= k < end ==> (#[trigger] items@[k]).size.x >= 0,
            widths_sum(model, start as int, end as int) <= i32::MAX,
            line_width == widths_sum(model, start as int, i as int),
        decreases end - i,
    {
        proof {
            lemma_widths_sum_nonneg(model, i as int + 1, end as int);
            lemma_widths_sum_split(model, start as int, i as int + 1, end as int);
        }
        line_width = line_width + items[i].size.x;
        i = i + 1;
    }
    proof {
        lemma_widths_sum_nonneg(model, start as int, end as int);
    }
    let offset = (textbox_width / 2) - line_width / 2;
    assert(offset == trunc_half(textbox_width as int) - trunc_half(widths_sum(model, start as int, end as int)));
    let mut j: usize = start;
    while j < end
        invariant
            start <= j <= end,
            end <= items@.len(),
            items@.len() == old(items)@.len(),
            model == items_model(old(items)@),
            offset == trunc_half(textbox_width as int) - trunc_half(widths_sum(model, start as int, end as int)),
            widths_sum(model, start as int, end as int) >= 0,
            forall|k: int| start <= k < end ==> {
                &&& 0 <= (#[trigger] old(items)@[k]).pos.x
                &&& old(items)@[k].pos.x + trunc_half(textbox_width as int) <= i32::MAX
            },
            forall|k: int| 0 <= k < items@.len() ==> (#[trigger] items@[k]).renderable == old(items)@[k].renderable
                && items@[k].size == old(items)@[k].size && items@[k].wait == old(items)@[k].wait
                && items@[k].pos.y == old(items)@[k].pos.y,
            forall|k: int| 0 <= k < items@.len() ==> (#[trigger] items@[k]).pos.x == if start <= k < j {
                old(items)@[k].pos.x + offset
            } else {
                old(items)@[k].pos.x as int
            },
        decreases end - j,
    {
        let x = items[j].pos.x;
        items[j].pos.x = x + offset;
        j = j + 1;
    }
    assert(items_model(items@) =~= centered(model, start as int, end as int, textbox_width as int));
}

proof fn lemma_widths_sum_split(items: Seq<LaidOutText>, a: int, b: int, c: int)
    requires
        a <= b <= c,
    ensures
        widths_sum(items, a, c) == widths_sum(items, a, b) + widths_sum(items, b, c),
    decreases c - b,
{
    if c > b {
        lemma_widths_sum_split(items, a, b, c - 1);
    }
}


/// The state of laying out a page: the pen position, the line, where centering starts, and
/// what has been placed.
pub struct LayoutModel {
    pub x: int,
    pub y: int,
    pub line: int,
    pub center_start: Option<int>,
    pub items: Seq<LaidOutText>,
    pub choices: Seq<LaidOutChoice>,
}

/// The state before the first part: at the top left, with a choice for the first line if it is
/// a choice line.
pub open spec fn layout_start(choice_lines: Option<[usize; 2]>) -> LayoutModel {
    LayoutModel {
        x: 0,
        y: 0,
        line: 0,
        center_start: None,
        items: Seq::empty(),
        choices: with_choice(Seq::empty(), choice_lines, 0, 0, 0),
    }
}

/// The state after one more part: text is placed at the pen, which moves right by its width; a
/// line break centers the finished line where that was asked for, moves the pen to the start
/// of the next line and adds its choice; a delay sets the pause after the last text; a
/// centering mark makes the following text centered.
pub open spec fn layout_step(
    st: LayoutModel,
    part: TextPart,
    size: (u32, u32),
    page_width: int,
    line_height: int,
    choice_lines: Option<[usize; 2]>,
) -> LayoutModel {
    match part {
        TextPart::Text { text } => LayoutModel {
            x: st.x + size.0,
            items: st.items.push(LaidOutText { x: st.x, y: st.y, width: size.0 as int, height: size.1 as int, text: text@, wait: 0 }),
            ..st
        },
        TextPart::LineBreak => LayoutModel {
            x: 0,
            y: st.y + line_height,
            line: st.line + 1,
            center_start: None,
            items: match st.center_start {
                Some(c) => centered(st.items, c, st.items.len() as int, page_width),
                None => st.items,
            },
            choices: with_choice(st.choices, choice_lines, st.line + 1, 0, st.y + line_height),
        },
        TextPart::Delay { ticks } => LayoutModel {
            items: st.items.update(st.items.len() - 1, LaidOutText { wait: ticks, ..st.items.last() }),
            ..st
        },
        TextPart::CenterNextLine => LayoutModel { center_start: Some(st.items.len() as int), ..st },
    }
}

/// The state after the first `n` parts, with `sizes[i]` the measured size of text part `i`.
pub open spec fn layout_run(
    parts: Seq<TextPart>,
    sizes: Seq<(u32, u32)>,
    n: nat,
    page_width: int,
    line_height: int,
    choice_lines: Option<[usize; 2]>,
) -> LayoutModel
    decreases n,
{
    if n == 0 {
        layout_start(choice_lines)
    } else {
        layout_step(
            layout_run(parts, sizes, (n - 1) as nat, page_width, line_height, choice_lines),
            parts[n - 1],
            sizes[n - 1],
            page_width,
            line_height,
            choice_lines,
        )
    }
}

/// The placed text of a page: after all parts, a last line still to be centered is centered.
pub open spec fn page_items(
    parts: Seq<TextPart>,
    sizes: Seq<(u32, u32)>,
    page_width: int,
    line_height: int,
    choice_lines: Option<[usize; 2]>,
) -> Seq<LaidOutText> {
    let st = layout_run(parts, sizes, parts.len(), page_width, line_height, choice_lines);
    match st.center_start {
        Some(c) => centered(st.items, c, st.items.len() as int, page_width),
        None => st.items,
    }
}

/// The number of text parts among the first `n`.
pub open spec fn text_count(parts: Seq<TextPart>, n: int) -> int
    decreases n,
{
    if n <= 0 {
        0
    } else {
        text_count(parts, n - 1) + if parts[n - 1] is Text { 1int } else { 0int }
    }
}

/// The total measured width of the first `n` parts.
pub open spec fn total_width(sizes: Seq<(u32, u32)>, n: int) -> int
    decreases n,
{
    if n <= 0 {
        0
    } else {
        total_width(sizes, n - 1) + sizes[n - 1].0
    }
}

proof fn lemma_total_width_mono(sizes: Seq<(u32, u32)>, a: int, b: int)
    requires
        0 <= a <= b,
    ensures
        0 <= total_width(sizes, a) <= total_width(sizes, b),
    decreases b - a,
{
    lemma_total_width_nonneg(sizes, a);
    if b > a {
        lemma_total_width_mono(sizes, a, b - 1);
    }
}

proof fn lemma_total_width_nonneg(sizes: Seq<(u32, u32)>, a: int)
    ensures
        0 <= total_width(sizes, a),
    decreases a,
{
    if a > 0 {
        lemma_total_width_nonneg(sizes, a - 1);
    }
}

proof fn lemma_widths_sum_same(a: Seq<LaidOutText>, b: Seq<LaidOutText>, start: int, end: int)
    requires
        forall|k: int| start <= k < end ==> (#[trigger] a[k]).width == b[k].width,
    ensures
        widths_sum(a, start, end) == widths_sum(b, start, end),
    decreases end - start,
{
    if end > start {
        lemma_widths_sum_same(a, b, start, end - 1);
    }
}

proof fn lemma_line_offset(k: int, n: int, h: int)
    requires
        0 <= k <= n,
        i32::MIN <= h * n <= i32::MAX,
    ensures
        i32::MIN <= h * k <= i32::MAX,
{
    if h >= 0 {
        assert(0 <= h * k <= h * n) by (nonlinear_arith)
            requires
                0 <= k <= n,
                h >= 0,
        ;
    } else {
        assert(h * n <= h * k <= 0) by (nonlinear_arith)
            requires
                0 <= k <= n,
                h < 0,
        ;
    }
}

impl TextBoxLayout {
    /// Lays out a page: `sizes[i]` is the measured width and height of text part `i`, lines are
    /// `line_height` apart and centered lines are centered on `page_width`; the lines within
    /// `choice_lines` get choices.
    pub fn from_page(page: &Vec<TextPart>, sizes: &Vec<(u32, u32)>, page_width: i32, line_height: i32, choice_lines: Option<[usize; 2]>) -> (layout: TextBoxLayout)
        requires
            sizes@.len() == page@.len(),
            forall|i: int| 0 <= i < sizes@.len() ==> (#[trigger] sizes@[i]).0 <= i32::MAX && sizes@[i].1 <= i32::MAX,
            forall|i: int| 0 <= i < page@.len() && (#[trigger] page@[i]) is Delay ==> text_count(page@, i) > 0,
            2 * total_width(sizes@, page@.len() as int) + 2 * trunc_half(page_width as int) + 48 <= i32::MAX,
            page_width > i32::MIN,
            i32::MIN <= line_height * page@.len() <= i32::MAX,
        ensures
            items_model(layout.items@) == page_items(page@, sizes@, page_width as int, line_height as int, choice_lines),
            choices_model(layout.choices@) == layout_run(page@, sizes@, page@.len(), page_width as int, line_height as int, choice_lines).choices,
            forall|i: int| 0 <= i < layout.items@.len() ==> textbox_renderable(#[trigger] layout.items@[i]),
    {
        let ghost pw = page_width as int;
        let ghost lh = line_height as int;
        let ghost n = page@.len() as int;
        let mut x: i32 = 0;
        let mut y: i32 = 0;
        let mut line: usize = 0;
        let mut center_start: Option<usize> = None;
        let mut layout = TextBoxLayout::empty();
        assert(items_model(layout.items@) =~= Seq::<LaidOutText>::empty());
        assert(choices_model(layout.choices@) =~= Seq::<LaidOutChoice>::empty());
        add_choice_line_choice(choice_lines, line, &mut layout, x, y);
        let ghost mut line_start: int = 0;
        let mut i: usize = 0;
        while i < page.len()
            invariant
                i <= page@.len(),
                n == page@.len(),
                sizes@.len() == n,
                pw == page_width,
                lh == line_height,
                forall|k: int| 0 <= k < sizes@.len() ==> (#[trigger] sizes@[k]).0 <= i32::MAX && sizes@[k].1 <= i32::MAX,
                forall|k: int| 0 <= k < page@.len() && (#[trigger] page@[k]) is Delay ==> text_count(page@, k) > 0,
                2 * total_width(sizes@, n) + 2 * trunc_half(pw) + 48 <= i32::MAX,
                page_width > i32::MIN,
                i32::MIN <= lh * n <= i32::MAX,
                ({
                    let st = layout_run(page@, sizes@, i as nat, pw, lh, choice_lines);
                    &&& x == st.x
                    &&& y == st.y
                    &&& line == st.line
                    &&& (match center_start {
                        Some(c) => st.center_start == Some(c as int),
                        None => st.center_start is None,
                    })
                    &&& items_model(layout.items@) == st.items
                    &&& choices_model(layout.choices@) == st.choices
                }),
                layout.items@.len() == text_count(page@, i as int),
                forall|k: int| 0 <= k < layout.items@.len() ==> textbox_renderable(#[trigger] layout.items@[k]),
                forall|k: int| 0 <= k < layout.items@.len() ==> (#[trigger] layout.items@[k]).size.x >= 0,
                line <= i,
                y == line * lh,
                0 <= line_start <= layout.items@.len(),
                center_start matches Some(c) ==> line_start <= c <= layout.items@.len(),
                widths_sum(items_model(layout.items@), line_start, layout.items@.len() as int) == x,
                0 <= x <= total_width(sizes@, i as int),
                forall|k: int| line_start <= k < layout.items@.len() ==> 0 <= (#[trigger] layout.items@[k]).pos.x <= x,
            decreases page@.len() - i,
        {
            let ghost st = layout_run(page@, sizes@, i as nat, pw, lh, choice_lines);
            let ghost before = layout.items@;
            proof {
                lemma_total_width_mono(sizes@, i as int + 1, n);
                lemma_total_width_mono(sizes@, 0, i as int);
            }
            match &page[i] {
                TextPart::Text { text } => {
                    let (width, height) = sizes[i];
                    let w = width as i32;
                    let renderable = TextRenderable::new(text.clone(), TextFont::Regular, TEXTBOX_TEXT_COLOR, TEXT_DRAW_SHADOW, 0);
                    layout.items.push(TextBoxLayoutItem { pos: Vec2Di32::new(x, y), size: Vec2Di32::new(w, height as i32), renderable, wait: 0 });
                    assert(items_model(layout.items@) =~= items_model(before).push(item_model(layout.items@.last())));
                    proof {
                        lemma_widths_sum_same(items_model(layout.items@), items_model(before), line_start, before.len() as int);
                    }
                    x = x + w;
                },
                TextPart::LineBreak => {
                    if let Some(c) = center_start {
                        let end = layout.items.len();
                        proof {
                            let m = items_model(layout.items@);
                            lemma_widths_sum_split(m, line_start, c as int, end as int);
                            lemma_widths_sum_nonneg(m, line_start, c as int);
                            assert forall|k: int| c <= k < end implies 0 <= (#[trigger] layout.items@[k]).pos.x
                                && layout.items@[k].pos.x + trunc_half(page_width as int) <= i32::MAX by {
                                assert(line_start <= k);
                            }
                            assert forall|k: int| line_start <= k < end implies (#[trigger] m[k]).width >= 0 by {
                                assert(m[k].width == layout.items@[k].size.x);
                            }
                        }
                        center_line(&mut layout.items, c, end, page_width);
                    }
                    center_start = None;
                    proof {
                        lemma_line_offset(line as int + 1, n, lh);
                        assert((line + 1) * lh == line * lh + lh) by (nonlinear_arith);
                    }
                    x = 0;
                    y = y + line_height;
                    line = line + 1;
                    proof {
                        line_start = layout.items@.len() as int;
                    }
                    add_choice_line_choice(choice_lines, line, &mut layout, x, y);
                },
                TextPart::Delay { ticks } => {
                    assert(text_count(page@, i as int) > 0);
                    let last = layout.items.len() - 1;
                    layout.items[last].wait = *ticks;
                    assert(items_model(layout.items@) =~= items_model(before).update(last as int, LaidOutText { wait: *ticks, ..items_model(before).last() }));
                    proof {
                        lemma_widths_sum_same(items_model(layout.items@), items_model(before), line_start, before.len() as int);
                    }
                },
                TextPart::CenterNextLine => {
                    center_start = Some(layout.items.len());
                },
            }
            i = i + 1;
        }
        if let Some(c) = center_start {
            let end = layout.items.len();
            proof {
                let m = items_model(layout.items@);
                lemma_total_width_mono(sizes@, 0, n);
                lemma_widths_sum_split(m, line_start, c as int, end as int);
                lemma_widths_sum_nonneg(m, line_start, c as int);
                assert forall|k: int| c <= k < end implies 0 <= (#[trigger] layout.items@[k]).pos.x
                    && layout.items@[k].pos.x + trunc_half(page_width as int) <= i32::MAX by {
                    assert(line_start <= k);
                }
                assert forall|k: int| line_start <= k < end implies (#[trigger] m[k]).width >= 0 by {
                    assert(m[k].width == layout.items@[k].size.x);
                }
            }
            center_line(&mut layout.items, c, end, page_width);
        }
        layout
    }
}


proof fn lemma_run_item_count(parts: Seq<TextPart>, sizes: Seq<(u32, u32)>, n: nat, pw: int, lh: int, cl: Option<[usize; 2]>)
    requires
        n <= parts.len(),
        forall|i: int| 0 <= i < parts.len() && (#[trigger] parts[i]) is Delay ==> text_count(parts, i) > 0,
    ensures
        layout_run(parts, sizes, n, pw, lh, cl).items.len() == text_count(parts, n as int),
    decreases n,
{
    if n > 0 {
        lemma_run_item_count(parts, sizes, (n - 1) as nat, pw, lh, cl);
    }
}

/// Each text part of a page becomes exactly one placed item, and no other part does.
pub proof fn law_one_item_per_text(parts: Seq<TextPart>, sizes: Seq<(u32, u32)>, page_width: int, line_height: int, choice_lines: Option<[usize; 2]>)
    requires
        forall|i: int| 0 <= i < parts.len() && (#[trigger] parts[i]) is Delay ==> text_count(parts, i) > 0,
    ensures
        page_items(parts, sizes, page_width, line_height, choice_lines).len() == text_count(parts, parts.len() as int),
{
    lemma_run_item_count(parts, sizes, parts.len(), page_width, line_height, choice_lines);
}

} // verus!
