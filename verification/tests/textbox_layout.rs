use ctviewer::renderer::{TextFont, TEXT_DRAW_SHADOW};
use ctviewer::scene::textbox_layout::{TextBoxLayout, TextPart, TEXTBOX_TEXT_COLOR};

fn text(s: &str) -> TextPart {
    TextPart::Text { text: s.to_string() }
}

#[test]
fn text_flows_right_and_lines_go_down() {
    let page = vec![text("ab"), text("cd"), TextPart::LineBreak, text("ef")];
    let sizes = vec![(10, 8), (12, 8), (0, 0), (7, 8)];
    let layout = TextBoxLayout::from_page(&page, &sizes, 200, 16, None);
    let pos: Vec<(i32, i32)> = layout.items.iter().map(|i| (i.pos.x, i.pos.y)).collect();
    assert_eq!(pos, vec![(0, 0), (10, 0), (0, 16)]);
    assert_eq!(layout.items[1].size.x, 12);
    assert_eq!(layout.items[2].renderable.text, "ef");
    assert_eq!(layout.items[0].renderable.font, TextFont::Regular);
    assert_eq!(layout.items[0].renderable.color, TEXTBOX_TEXT_COLOR);
    assert_eq!(layout.items[0].renderable.flags, TEXT_DRAW_SHADOW);
    assert!(layout.choices.is_empty());
}

#[test]
fn centered_lines_move_by_half_the_free_width() {
    let page = vec![TextPart::CenterNextLine, text("ab"), text("c"), TextPart::LineBreak, TextPart::CenterNextLine, text("d")];
    let sizes = vec![(0, 0), (20, 8), (11, 8), (0, 0), (0, 0), (9, 8)];
    let layout = TextBoxLayout::from_page(&page, &sizes, 101, 10, None);
    // First line: 31 wide, offset 50 - 15 = 35. Last line: 9 wide, offset 50 - 4 = 46.
    let xs: Vec<i32> = layout.items.iter().map(|i| i.pos.x).collect();
    assert_eq!(xs, vec![35, 55, 46]);
}

#[test]
fn delays_and_choices() {
    let page = vec![text("a"), TextPart::Delay { ticks: 30 }, TextPart::LineBreak, text("b"), TextPart::LineBreak, text("c")];
    let sizes = vec![(5, 8); 6];
    let layout = TextBoxLayout::from_page(&page, &sizes, 100, 12, Some([1, 2]));
    assert_eq!(layout.items[0].wait, 30);
    assert_eq!(layout.items[1].wait, 0);
    let choices: Vec<(i32, i32, usize)> = layout.choices.iter().map(|c| (c.pos.x, c.pos.y, c.line)).collect();
    assert_eq!(choices, vec![(24, 12, 1), (24, 24, 2)]);
}

#[test]
fn first_line_choice() {
    let layout = TextBoxLayout::from_page(&vec![text("x")], &vec![(3, 3)], 10, 10, Some([0, 0]));
    assert_eq!(layout.choices.len(), 1);
    assert_eq!((layout.choices[0].pos.x, layout.choices[0].line), (24, 0));
    assert!(TextBoxLayout::empty().items.is_empty());
}
