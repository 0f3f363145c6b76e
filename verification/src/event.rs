//! The event classifier: terminal events modelled as plain values, the
//! filter for noisy events, the key and mouse dispatch into scroll
//! transitions, and the single step that the render/event loop takes for
//! each event it receives.

use crate::state::{bottom_offset, scroll_only, scrolled_up, State};
use vstd::prelude::*;

verus! {

/// A key: the character it produces, or any other key.
#[derive(Clone, Copy, Debug, PartialEq, Eq, Structural)]
pub enum KeyCode {
    Char(char),
    Other,
}

/// The modifiers held during a key press or mouse event.
#[derive(Clone, Copy, Debug, PartialEq, Eq, Structural)]
pub enum Modifiers {
    Plain,
    Shift,
    Control,
    Other,
}

/// What a mouse event reports.
#[derive(Clone, Copy, Debug, PartialEq, Eq, Structural)]
pub enum MouseKind {
    ScrollUp,
    ScrollDown,
    ScrollLeft,
    ScrollRight,
    Moved,
    Other,
}

/// A terminal event: a key press, a mouse event, or a resize to a new
/// width and height.
#[derive(Clone, Copy, Debug, PartialEq, Eq, Structural)]
pub enum Event {
    Key(KeyCode, Modifiers),
    Mouse(MouseKind, Modifiers),
    Resize(u16, u16),
}

/// Noisy events are discarded without a re-render: pointer movement and
/// horizontal wheel scrolling.
pub open spec fn spec_should_skip(event: Event) -> bool {
    match event {
        Event::Mouse(kind, _) => kind == MouseKind::Moved || kind == MouseKind::ScrollLeft
            || kind == MouseKind::ScrollRight,
        _ => false,
    }
}

/// Whether the event is one of the noisy kinds that the loop discards
/// without re-rendering.
pub fn should_skip_event(event: &Event) -> (skip: bool)
    ensures
        skip == spec_should_skip(*event),
{
    match event {
        Event::Mouse(kind, _) => match kind {
            MouseKind::Moved => true,
            MouseKind::ScrollLeft => true,
            MouseKind::ScrollRight => true,
            _ => false,
        },
        _ => false,
    }
}

/// The events that end the viewer: `q` with no modifier, or Ctrl+C.
pub open spec fn is_quit(event: Event) -> bool {
    ||| event == Event::Key(KeyCode::Char('q'), Modifiers::Plain)
    ||| event == Event::Key(KeyCode::Char('c'), Modifiers::Control)
}

/// The scroll offset after dispatching one event, as a function of the
/// offset, the viewport height, the input's line count and the event.
pub open spec fn offset_after(
    offset: int,
    terminal_lines: int,
    input_lines: int,
    event: Event,
) -> int {
    match event {
        Event::Key(code, mods) => match (mods, code) {
            (Modifiers::Plain, KeyCode::Char(c)) => if c == 'k' {
                scrolled_up(offset, 1)
            } else if c == 'j' {
                offset + 1
            } else if c == 'u' {
                scrolled_up(offset, terminal_lines / 2)
            } else if c == 'd' {
                offset + terminal_lines / 2
            } else if c == 'b' {
                scrolled_up(offset, terminal_lines)
            } else if c == 'f' {
                offset + terminal_lines
            } else if c == 'g' {
                0
            } else if c == 'G' {
                bottom_offset(input_lines, terminal_lines)
            } else {
                offset
            },
            (Modifiers::Shift, KeyCode::Char(c)) => if c == 'g' || c == 'G' {
                bottom_offset(input_lines, terminal_lines)
            } else {
                offset
            },
            _ => offset,
        },
        Event::Mouse(kind, mods) => match (mods, kind) {
            (Modifiers::Plain, MouseKind::ScrollUp) => scrolled_up(offset, 1),
            (Modifiers::Plain, MouseKind::ScrollDown) => offset + 1,
            _ => offset,
        },
        Event::Resize(_, _) => offset,
    }
}

/// Dispatch one consumed event: map keys and mouse wheel movement to
/// scroll transitions, and report whether the event asks the viewer to
/// quit. Unmapped events are consumed without a state change; a quit
/// request leaves the state unchanged.
pub fn handle_event(state: &mut State, event: &Event) -> (quit: bool)
    requires
        old(state).vertical_scroll + old(state).terminal_lines + 1 <= usize::MAX,
    ensures
        scroll_only(*old(state), *final(state)),
        final(state).vertical_scroll == offset_after(
            old(state).vertical_scroll as int,
            old(state).terminal_lines as int,
            old(state).input_lines as int,
            *event,
        ),
        quit == is_quit(*event),
{
    let mut quit: bool = false;
    match event {
        Event::Key(code, mods) => match (mods, code) {
            (Modifiers::Plain, KeyCode::Char('k')) => state.scroll_up(1),
            (Modifiers::Plain, KeyCode::Char('j')) => state.scroll_down(1),
            (Modifiers::Plain, KeyCode::Char('u')) => state.scroll_half_page_up(),
            (Modifiers::Plain, KeyCode::Char('d')) => state.scroll_half_page_down(),
            (Modifiers::Plain, KeyCode::Char('b')) => state.scroll_full_page_up(),
            (Modifiers::Plain, KeyCode::Char('f')) => state.scroll_full_page_down(),
            (Modifiers::Plain, KeyCode::Char('g')) => state.scroll_to_top(),
            (Modifiers::Plain, KeyCode::Char('G')) => state.scroll_to_bottom(),
            (Modifiers::Shift, KeyCode::Char('g')) => state.scroll_to_bottom(),
            (Modifiers::Shift, KeyCode::Char('G')) => state.scroll_to_bottom(),
            (Modifiers::Control, KeyCode::Char('c')) => {
                quit = true;
            },
            (Modifiers::Plain, KeyCode::Char('q')) => {
                quit = true;
            },
            _ => {},
        },
        Event::Mouse(kind, mods) => match (mods, kind) {
            (Modifiers::Plain, MouseKind::ScrollUp) => state.scroll_up(1),
            (Modifiers::Plain, MouseKind::ScrollDown) => state.scroll_down(1),
            _ => {},
        },
        _ => {},
    }
    quit
}

/// What the render/event loop does after classifying one event.
#[derive(Clone, Copy, Debug, PartialEq, Eq, Structural)]
pub enum StepResult {
    /// Render a new frame, then wait for the next event.
    Redraw,
    /// Discard the event and resume waiting without a re-render.
    Wait,
    /// Leave the viewer with success.
    Quit,
}

/// The state after one loop step: a resize updates the viewport height and
/// nothing else; a noisy event changes nothing; any other event is
/// dispatched to the scroll transitions.
pub open spec fn spec_step_state(s: State, event: Event) -> State {
    match event {
        Event::Resize(_, h) => State { terminal_lines: h, ..s },
        _ => if spec_should_skip(event) {
            s
        } else {
            State {
                vertical_scroll: offset_after(
                    s.vertical_scroll as int,
                    s.terminal_lines as int,
                    s.input_lines as int,
                    event,
                ) as usize,
                ..s
            }
        },
    }
}

/// What one loop step answers: a resize re-renders at once, a noisy event
/// resumes the wait, a quit request ends the loop, and every other event is
/// consumed and followed by a re-render.
pub open spec fn spec_step_result(event: Event) -> StepResult {
    if event matches Event::Resize(_, _) {
        StepResult::Redraw
    } else if spec_should_skip(event) {
        StepResult::Wait
    } else if is_quit(event) {
        StepResult::Quit
    } else {
        StepResult::Redraw
    }
}

/// One step of the render/event loop, taken after blocking for exactly one
/// terminal event: classify the event, apply its transition, and say
/// whether to re-render, to keep waiting, or to quit.
pub fn step(state: &mut State, event: &Event) -> (r: StepResult)
    requires
        old(state).vertical_scroll + old(state).terminal_lines + 1 <= usize::MAX,
    ensures
        *final(state) == spec_step_state(*old(state), *event),
        r == spec_step_result(*event),
{
    match event {
        Event::Resize(_, h) => {
            state.terminal_lines = *h;
            StepResult::Redraw
        },
        _ => {
            if should_skip_event(event) {
                StepResult::Wait
            } else if handle_event(state, event) {
                StepResult::Quit
            } else {
                StepResult::Redraw
            }
        },
    }
}

/// A resize event never changes the scroll offset: it updates the viewport
/// height alone, and with it the number of document lines the next frame
/// shows.
pub proof fn lemma_resize_keeps_offset(s: State, width: u16, height: u16)
    ensures
        spec_step_state(s, Event::Resize(width, height)).vertical_scroll == s.vertical_scroll,
        spec_step_state(s, Event::Resize(width, height)).terminal_lines == height,
        spec_step_state(s, Event::Resize(width, height)).input_lines == s.input_lines,
        spec_step_state(s, Event::Resize(width, height)).text == s.text,
{
}

} // verus!
