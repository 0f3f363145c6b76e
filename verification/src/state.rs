//! The viewport state machine: the scroll offset and its pure transitions.
//! Upward transitions saturate at zero; downward line and page transitions
//! are deliberately not clamped at the document's end, and only the jump to
//! the bottom enforces the upper bound.

use crate::styled::StyledLine;
use vstd::prelude::*;

verus! {

/// The viewer's state: the styled document, the terminal's row count, the
/// raw input's line count, and the scroll offset (the index of the first
/// document line visible at the top of the viewport).
pub struct State {
    pub text: Vec<StyledLine>,
    pub terminal_lines: u16,
    pub input_lines: usize,
    pub vertical_scroll: usize,
}

/// Scrolling up by `distance` saturates at the top of the document.
pub open spec fn scrolled_up(offset: int, distance: int) -> int {
    if offset >= distance {
        offset - distance
    } else {
        0
    }
}

/// The offset that the jump to the bottom lands on: the input's line count
/// minus the viewport height, saturated at zero.
pub open spec fn bottom_offset(input_lines: int, terminal_lines: int) -> int {
    if input_lines >= terminal_lines {
        input_lines - terminal_lines
    } else {
        0
    }
}

/// A scroll transition changes the offset alone: the document, the viewport
/// height and the input's line count stay as they were.
pub open spec fn scroll_only(pre: State, post: State) -> bool {
    &&& post.text == pre.text
    &&& post.terminal_lines == pre.terminal_lines
    &&& post.input_lines == pre.input_lines
}

/// The jump to the top of the document.
pub open spec fn spec_scroll_to_top(s: State) -> State {
    State { vertical_scroll: 0, ..s }
}

/// The jump to the bottom of the document.
pub open spec fn spec_scroll_to_bottom(s: State) -> State {
    State {
        vertical_scroll: bottom_offset(s.input_lines as int, s.terminal_lines as int) as usize,
        ..s
    }
}

impl State {
    pub fn scroll_up(&mut self, distance: usize)
        ensures
            scroll_only(*old(self), *final(self)),
            final(self).vertical_scroll == scrolled_up(
                old(self).vertical_scroll as int,
                distance as int,
            ),
    {
        self.vertical_scroll = self.vertical_scroll.saturating_sub(distance);
    }

    pub fn scroll_down(&mut self, distance: usize)
        requires
            old(self).vertical_scroll + distance <= usize::MAX,
        ensures
            scroll_only(*old(self), *final(self)),
            final(self).vertical_scroll == old(self).vertical_scroll + distance,
    {
        self.vertical_scroll = self.vertical_scroll + distance;
    }

    pub fn scroll_half_page_up(&mut self)
        ensures
            scroll_only(*old(self), *final(self)),
            final(self).vertical_scroll == scrolled_up(
                old(self).vertical_scroll as int,
                old(self).terminal_lines as int / 2,
            ),
    {
        let distance: usize = self.terminal_lines as usize / 2;
        self.scroll_up(distance);
    }

    pub fn scroll_half_page_down(&mut self)
        requires
            old(self).vertical_scroll + old(self).terminal_lines as int / 2 <= usize::MAX,
        ensures
            scroll_only(*old(self), *final(self)),
            final(self).vertical_scroll == old(self).vertical_scroll + old(
                self,
            ).terminal_lines as int / 2,
    {
        let distance: usize = self.terminal_lines as usize / 2;
        self.scroll_down(distance);
    }

    pub fn scroll_full_page_up(&mut self)
        ensures
            scroll_only(*old(self), *final(self)),
            final(self).vertical_scroll == scrolled_up(
                old(self).vertical_scroll as int,
                old(self).terminal_lines as int,
            ),
    {
        let distance: usize = self.terminal_lines as usize;
        self.scroll_up(distance);
    }

    pub fn scroll_full_page_down(&mut self)
        requires
            old(self).vertical_scroll + old(self).terminal_lines <= usize::MAX,
        ensures
            scroll_only(*old(self), *final(self)),
            final(self).vertical_scroll == old(self).vertical_scroll + old(
                self,
            ).terminal_lines,
    {
        let distance: usize = self.terminal_lines as usize;
        self.scroll_down(distance);
    }

    pub fn scroll_to_top(&mut self)
        ensures
            *final(self) == spec_scroll_to_top(*old(self)),
    {
        self.vertical_scroll = 0;
    }

    pub fn scroll_to_bottom(&mut self)
        ensures
            *final(self) == spec_scroll_to_bottom(*old(self)),
    {
        self.vertical_scroll = self.input_lines.saturating_sub(self.terminal_lines as usize);
    }
}

/// Jumping to the bottom and then to the top always yields offset zero: the
/// jump to the top does not depend on where the view stood.
pub proof fn lemma_bottom_then_top(s: State)
    ensures
        spec_scroll_to_top(spec_scroll_to_bottom(s)).vertical_scroll == 0,
{
}

/// Jumping to the top and then to the bottom yields the input's line count
/// minus the viewport height, saturated at zero.
pub proof fn lemma_top_then_bottom(s: State)
    ensures
        spec_scroll_to_bottom(spec_scroll_to_top(s)).vertical_scroll == bottom_offset(
            s.input_lines as int,
            s.terminal_lines as int,
        ),
{
}

/// The offset after scrolling down one line at a time, `times` times.
pub open spec fn down_repeated(offset: int, times: nat) -> int
    decreases times,
{
    if times == 0 {
        offset
    } else {
        down_repeated(offset + 1, (times - 1) as nat)
    }
}

/// Scrolling down one line at a time, viewport-height many times, lands on
/// the same offset as one full-page downward scroll: downward scrolling is
/// not clamped, so each step adds exactly one.
pub proof fn lemma_lines_make_a_page(offset: int, height: nat)
    ensures
        down_repeated(offset, height) == offset + height,
    decreases height,
{
    if height > 0 {
        lemma_lines_make_a_page(offset + 1, (height - 1) as nat);
    }
}

/// An upward scroll from offset zero leaves the offset at zero, whatever
/// the distance.
pub proof fn lemma_up_from_top(distance: int)
    requires
        0 <= distance,
    ensures
        scrolled_up(0, distance) == 0,
{
}

} // verus!
