use ctviewer::renderer::{TextFont, TextRenderable};
use ctviewer::scene::textbox::{TextBox, TextBoxPosition, TextBoxState};
use ctviewer::scene::textbox_layout::{TextBoxChoice, TextBoxLayout, TextBoxLayoutItem};
use ctviewer::util::vec2di32::Vec2Di32;

fn item(text: &str, wait: u32) -> TextBoxLayoutItem {
    TextBoxLayoutItem {
        renderable: TextRenderable::new(text.to_string(), TextFont::Regular, [255, 255, 255, 255], 0, 0),
        pos: Vec2Di32::new(0, 0),
        size: Vec2Di32::new(0, 0),
        wait,
    }
}

fn layout(items: Vec<TextBoxLayoutItem>, choice_lines: &[usize]) -> TextBoxLayout {
    let mut l = TextBoxLayout::empty();
    l.items = items;
    for line in choice_lines {
        l.choices.push(TextBoxChoice { pos: Vec2Di32::new(0, 0), line: *line });
    }
    l
}

#[test]
fn a_box_opens_types_waits_and_closes() {
    let mut tb = TextBox::new();
    assert!(!tb.is_active());
    tb.show(TextBoxPosition::Top, 7, None, 1, layout(vec![item("ab", 0)], &[]));
    assert!(tb.is_active());
    assert_eq!(tb.get_source_actor_index(), Some(7));
    assert!(!tb.tick(false));
    assert_eq!(tb.state, TextBoxState::Showing);
    tb.tick(true);
    assert_eq!(tb.state, TextBoxState::Typing { current_item: 0, current_character: 0 });
    tb.tick(false);
    assert_eq!(tb.state, TextBoxState::Typing { current_item: 0, current_character: 1 });
    tb.tick(false);
    assert_eq!(tb.state, TextBoxState::Waiting);
    assert!(!tb.progress());
    assert_eq!(tb.state, TextBoxState::Hiding);
    tb.tick(true);
    assert_eq!(tb.state, TextBoxState::Disabled);
    assert_eq!(tb.get_source_actor_index(), None);
}

#[test]
fn item_pauses_advance_to_the_next_page() {
    let mut tb = TextBox::new();
    tb.show(TextBoxPosition::Bottom, 1, None, 2, layout(vec![item("a", 2), item("b", 0)], &[]));
    tb.tick(true);
    tb.tick(false);
    assert_eq!(tb.wait, 2);
    assert_eq!(tb.state, TextBoxState::Typing { current_item: 1, current_character: 0 });
    assert!(!tb.tick(false));
    assert_eq!(tb.wait, 1);
    assert!(tb.tick(false));
    assert_eq!(tb.current_page, 1);
    assert_eq!(tb.state, TextBoxState::Typing { current_item: 0, current_character: 0 });
}

#[test]
fn choices_wrap_around() {
    let mut tb = TextBox::new();
    tb.show(TextBoxPosition::Auto, 0, Some([1, 3]), 1, layout(vec![item("x", 0)], &[1, 2, 3]));
    assert!(tb.has_choices());
    assert_eq!(tb.get_choice(), 1);
    tb.choice_previous();
    assert_eq!(tb.get_choice(), 3);
    tb.choice_next();
    assert_eq!(tb.get_choice(), 1);
    tb.choice_next();
    tb.choice_next();
    assert_eq!(tb.get_choice(), 3);
    tb.choice_next();
    assert_eq!(tb.current_choice, 0);
}

#[test]
fn progress_only_moves_on_while_waiting() {
    let mut tb = TextBox::new();
    tb.show(TextBoxPosition::Top, 0, None, 2, layout(vec![item("x", 0)], &[]));
    assert!(!tb.progress());
    assert_eq!(tb.state, TextBoxState::Showing);
    tb.state = TextBoxState::Waiting;
    assert!(tb.progress());
    assert_eq!(tb.current_page, 1);
}
