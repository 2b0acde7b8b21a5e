//! The dialogue box: where it is placed, its pages, its choices, and the stages it goes through
//! from opening to closing. The window's opening and closing animation runs outside it; it is
//! told when that animation has finished.
use crate::scene::textbox_layout::TextBoxLayout;
use vstd::prelude::*;

verus! {

/// The place of a dialogue box on the screen.
#[derive(Clone, Copy, PartialEq, Eq, Structural, Debug)]
pub enum TextBoxPosition {
    Top,
    Bottom,
    Auto,
}

/// The stage a dialogue box is in: closed, its window opening, typing the items of a page one
/// character per tick, waiting for the player, or its window closing.
#[derive(Clone, Copy, PartialEq, Eq, Structural, Debug)]
pub enum TextBoxState {
    Disabled,
    Showing,
    Typing { current_item: usize, current_character: usize },
    Waiting,
    Hiding,
}

/// A dialogue box: its stage, how many pages its text has and the layout of the current one,
/// the actor that speaks, a pause in ticks, and the choices.
pub struct TextBox {
    pub state: TextBoxState,
    pub page_count: usize,
    pub current_page: usize,
    pub layout: TextBoxLayout,
    pub position: TextBoxPosition,
    pub source_actor_index: Option<usize>,
    pub wait: u32,
    pub choice_lines: Option<[usize; 2]>,
    pub current_choice: usize,
}

/// The choice before `c` among `n`, the last one before the first.
pub open spec fn previous_choice(c: int, n: int) -> int {
    if c == 0 { n - 1 } else { c - 1 }
}

/// The choice after `c` among `n`, the first one after the last.
pub open spec fn next_choice(c: int, n: int) -> int {
    if c == n - 1 { 0 } else { c + 1 }
}

/// Going to the next choice and back returns to the same choice, and so does the other way
/// round.
pub proof fn law_choice_next_then_previous(c: int, n: int)
    requires
        0 <= c < n,
    ensures
        previous_choice(next_choice(c, n), n) == c,
        next_choice(previous_choice(c, n), n) == c,
        0 <= next_choice(c, n) < n,
        0 <= previous_choice(c, n) < n,
{
}

/// The stage, page and choice after the box moves past its page: the next page starts typing
/// at its first item with the first choice selected; after the last page the box closes.
pub open spec fn advanced(state: TextBoxState, page: int, choice: int, page_count: int) -> (TextBoxState, int, int) {
    if page < page_count - 1 {
        (TextBoxState::Typing { current_item: 0, current_character: 0 }, page + 1, 0)
    } else {
        (TextBoxState::Hiding, page, choice)
    }
}

impl TextBox {
    /// A closed box without text.
    pub fn new() -> (tb: TextBox)
        ensures
            tb.state == TextBoxState::Disabled,
            tb.page_count == 0,
            tb.current_page == 0,
            tb.layout.items@.len() == 0,
            tb.layout.choices@.len() == 0,
            tb.position == TextBoxPosition::Bottom,
            tb.source_actor_index is None,
            tb.wait == 0,
            tb.choice_lines is None,
            tb.current_choice == 0,
    {
        TextBox {
            state: TextBoxState::Disabled,
            page_count: 0,
            current_page: 0,
            layout: TextBoxLayout::empty(),
            position: TextBoxPosition::Bottom,
            source_actor_index: None,
            wait: 0,
            choice_lines: None,
            current_choice: 0,
        }
    }

    /// Opens the box for a text of `page_count` pages spoken by an actor, with the layout of
    /// its first page; the first choice is selected.
    pub fn show(&mut self, position: TextBoxPosition, actor_index: usize, choice_lines: Option<[usize; 2]>, page_count: usize, layout: TextBoxLayout)
        ensures
            final(self).state == TextBoxState::Showing,
            final(self).position == position,
            final(self).page_count == page_count,
            final(self).current_page == 0,
            final(self).source_actor_index == Some(actor_index),
            final(self).current_choice == 0,
            final(self).choice_lines == choice_lines,
            final(self).layout == layout,
            final(self).wait == old(self).wait,
    {
        self.state = TextBoxState::Showing;
        self.position = position;
        self.page_count = page_count;
        self.current_page = 0;
        self.source_actor_index = Some(actor_index);
        self.current_choice = 0;
        self.choice_lines = choice_lines;
        self.layout = layout;
    }

    /// Whether the box is open, or opening or closing.
    pub fn is_active(&self) -> (b: bool)
        ensures
            b == (self.state != TextBoxState::Disabled),
    {
        match self.state {
            TextBoxState::Disabled => false,
            _ => true,
        }
    }

    /// The actor whose text the box shows.
    pub fn get_source_actor_index(&self) -> (index: Option<usize>)
        ensures
            index == self.source_actor_index,
    {
        self.source_actor_index
    }

    /// Selects the previous choice, the last one before the first.
    pub fn choice_previous(&mut self)
        requires
            old(self).layout.choices@.len() > 0,
        ensures
            final(self).current_choice == previous_choice(old(self).current_choice as int, old(self).layout.choices@.len() as int),
            final(self).state == old(self).state,
            final(self).layout == old(self).layout,
            final(self).current_page == old(self).current_page,
            final(self).page_count == old(self).page_count,
            final(self).wait == old(self).wait,
            final(self).source_actor_index == old(self).source_actor_index,
            final(self).choice_lines == old(self).choice_lines,
            final(self).position == old(self).position,
    {
        if self.current_choice == 0 {
            self.current_choice = self.layout.choices.len() - 1;
        } else {
            self.current_choice = self.current_choice - 1;
        }
    }

    /// Selects the next choice, the first one after the last.
    pub fn choice_next(&mut self)
        requires
            old(self).layout.choices@.len() > 0,
            old(self).current_choice < usize::MAX,
        ensures
            final(self).current_choice == next_choice(old(self).current_choice as int, old(self).layout.choices@.len() as int),
            final(self).state == old(self).state,
            final(self).layout == old(self).layout,
            final(self).current_page == old(self).current_page,
            final(self).page_count == old(self).page_count,
            final(self).wait == old(self).wait,
            final(self).source_actor_index == old(self).source_actor_index,
            final(self).choice_lines == old(self).choice_lines,
            final(self).position == old(self).position,
    {
        if self.current_choice == self.layout.choices.len() - 1 {
            self.current_choice = 0;
        } else {
            self.current_choice = self.current_choice + 1;
        }
    }

    /// Whether the current page offers choices.
    pub fn has_choices(&self) -> (b: bool)
        ensures
            b == (self.layout.choices@.len() > 0),
    {
        self.layout.choices.len() > 0
    }

    /// The line that the selected choice stands for.
    pub fn get_choice(&self) -> (line: usize)
        requires
            self.current_choice < self.layout.choices@.len(),
        ensures
            line == self.layout.choices@[self.current_choice as int].line,
    {
        self.layout.choices[self.current_choice].line
    }

    /// Moves past the current page: to the next page, whose layout the caller then sets, or,
    /// after the last one, to closing. Says whether a new page was reached.
    fn advance(&mut self) -> (new_page: bool)
        requires
            old(self).page_count > 0,
        ensures
            (final(self).state, final(self).current_page as int, final(self).current_choice as int) == advanced(
                old(self).state,
                old(self).current_page as int,
                old(self).current_choice as int,
                old(self).page_count as int,
            ),
            new_page == (old(self).current_page < old(self).page_count - 1),
            final(self).layout == old(self).layout,
            final(self).page_count == old(self).page_count,
            final(self).wait == old(self).wait,
            final(self).source_actor_index == old(self).source_actor_index,
            final(self).choice_lines == old(self).choice_lines,
            final(self).position == old(self).position,
    {
        if self.current_page < self.page_count - 1 {
            self.current_page = self.current_page + 1;
            self.current_choice = 0;
            self.state = TextBoxState::Typing { current_item: 0, current_character: 0 };
            true
        } else {
            self.state = TextBoxState::Hiding;
            false
        }
    }

    /// The player's request to go on: a box that waits, with no pause running, moves past its
    /// page. Says whether a new page was reached, whose layout the caller then sets.
    pub fn progress(&mut self) -> (new_page: bool)
        requires
            old(self).state == TextBoxState::Waiting && old(self).wait == 0 ==> old(self).page_count > 0,
        ensures
            old(self).state == TextBoxState::Waiting && old(self).wait == 0 ==> {
                &&& (final(self).state, final(self).current_page as int, final(self).current_choice as int) == advanced(
                    old(self).state,
                    old(self).current_page as int,
                    old(self).current_choice as int,
                    old(self).page_count as int,
                )
                &&& new_page == (old(self).current_page < old(self).page_count - 1)
            },
            !(old(self).state == TextBoxState::Waiting && old(self).wait == 0) ==> {
                &&& final(self).state == old(self).state
                &&& final(self).current_page == old(self).current_page
                &&& final(self).current_choice == old(self).current_choice
                &&& !new_page
            },
            final(self).layout == old(self).layout,
            final(self).page_count == old(self).page_count,
            final(self).wait == old(self).wait,
            final(self).source_actor_index == old(self).source_actor_index,
            final(self).choice_lines == old(self).choice_lines,
            final(self).position == old(self).position,
    {
        if self.state == TextBoxState::Disabled {
            return false;
        }
        if self.state == TextBoxState::Waiting && self.wait == 0 {
            return self.advance();
        }
        false
    }

    /// One tick of the box. A running pause counts down, and when it ends the box moves past
    /// its page. Otherwise an opening window that has finished (`window_done`) starts typing;
    /// typing shows one more character, and at the end of an item takes up the item's pause and
    /// goes on to the next item, or waits after the last; a closing window that has finished
    /// closes the box and forgets the speaker. Says whether a new page was reached, whose layout
    /// the caller then sets.
    pub fn tick(&mut self, window_done: bool) -> (new_page: bool)
        requires
            old(self).state != TextBoxState::Disabled && old(self).wait == 1 ==> old(self).page_count > 0,
            old(self).state matches TextBoxState::Typing { current_item, current_character } ==> {
                &&& current_item < old(self).layout.items@.len()
                &&& current_character < usize::MAX
            },
        ensures
            final(self).layout == old(self).layout,
            final(self).page_count == old(self).page_count,
            final(self).choice_lines == old(self).choice_lines,
            final(self).position == old(self).position,
            old(self).state == TextBoxState::Disabled ==> {
                &&& final(self).state == old(self).state
                &&& final(self).wait == old(self).wait
                &&& final(self).current_page == old(self).current_page
                &&& final(self).current_choice == old(self).current_choice
                &&& final(self).source_actor_index == old(self).source_actor_index
                &&& !new_page
            },
            old(self).state != TextBoxState::Disabled && old(self).wait > 1 ==> {
                &&& final(self).wait == old(self).wait - 1
                &&& final(self).state == old(self).state
                &&& final(self).current_page == old(self).current_page
                &&& final(self).current_choice == old(self).current_choice
                &&& final(self).source_actor_index == old(self).source_actor_index
                &&& !new_page
            },
            old(self).state != TextBoxState::Disabled && old(self).wait == 1 ==> {
                &&& final(self).wait == 0
                &&& (final(self).state, final(self).current_page as int, final(self).current_choice as int) == advanced(
                    old(self).state,
                    old(self).current_page as int,
                    old(self).current_choice as int,
                    old(self).page_count as int,
                )
                &&& final(self).source_actor_index == old(self).source_actor_index
                &&& new_page == (old(self).current_page < old(self).page_count - 1)
            },
            old(self).state != TextBoxState::Disabled && old(self).wait == 0 ==> {
                &&& final(self).current_page == old(self).current_page
                &&& final(self).current_choice == old(self).current_choice
                &&& !new_page
                &&& match old(self).state {
                    TextBoxState::Showing => {
                        &&& final(self).wait == 0
                        &&& final(self).source_actor_index == old(self).source_actor_index
                        &&& final(self).state == if window_done {
                            TextBoxState::Typing { current_item: 0, current_character: 0 }
                        } else {
                            TextBoxState::Showing
                        }
                    },
                    TextBoxState::Typing { current_item, current_character } => {
                        let item = old(self).layout.items@[current_item as int];
                        let shown = current_character + 1;
                        &&& final(self).source_actor_index == old(self).source_actor_index
                        &&& if shown >= item.renderable.char_count {
                            &&& final(self).wait == item.wait
                            &&& final(self).state == if current_item + 1 < old(self).layout.items@.len() {
                                TextBoxState::Typing { current_item: (current_item + 1) as usize, current_character: 0 }
                            } else {
                                TextBoxState::Waiting
                            }
                        } else {
                            &&& final(self).wait == 0
                            &&& final(self).state == TextBoxState::Typing { current_item, current_character: shown as usize }
                        }
                    },
                    TextBoxState::Hiding => {
                        &&& final(self).wait == 0
                        &&& final(self).state == if window_done { TextBoxState::Disabled } else { TextBoxState::Hiding }
                        &&& final(self).source_actor_index == if window_done { None } else { old(self).source_actor_index }
                    },
                    _ => {
                        &&& final(self).wait == 0
                        &&& final(self).state == old(self).state
                        &&& final(self).source_actor_index == old(self).source_actor_index
                    },
                }
            },
    {
        if self.state == TextBoxState::Disabled {
            return false;
        }
        if self.wait > 0 {
            self.wait = self.wait - 1;
            if self.wait == 0 {
                return self.advance();
            }
            return false;
        }
        match self.state {
            TextBoxState::Showing => {
                if window_done {
                    self.state = TextBoxState::Typing { current_item: 0, current_character: 0 };
                }
            },
            TextBoxState::Typing { current_item, current_character } => {
                let shown = current_character + 1;
                let char_count = self.layout.items[current_item].renderable.get_char_count();
                if shown >= char_count {
                    let item_wait = self.layout.items[current_item].wait;
                    if item_wait > 0 {
                        self.wait = item_wait;
                    }
                    if current_item < self.layout.items.len() - 1 {
                        self.state = TextBoxState::Typing { current_item: current_item + 1, current_character: 0 };
                    } else {
                        self.state = TextBoxState::Waiting;
                    }
                } else {
                    self.state = TextBoxState::Typing { current_item, current_character: shown };
                }
            },
            TextBoxState::Hiding => {
                if window_done {
                    self.source_actor_index = None;
                    self.state = TextBoxState::Disabled;
                }
            },
            _ => {},
        }
        false
    }
}

} // verus!
