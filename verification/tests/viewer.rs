use pager::event::{Event, KeyCode, Modifiers, MouseKind, StepResult};
use pager::render::render;
use pager::size::{count_input_lines, fits_on_screen};
use pager::state::State;
use pager::styled::{parse_input, StyledLine};
use ratatui::style::Color;

fn doc_of(input: &[u8]) -> Vec<StyledLine> {
    parse_input(input).unwrap()
}

fn line_text(line: &StyledLine) -> String {
    let mut s = String::new();
    for run in &line.runs {
        s.push_str(&run.text);
    }
    s
}

fn numbered_input(lines: usize) -> Vec<u8> {
    let mut input = Vec::new();
    for i in 0..lines {
        input.extend_from_slice(format!("line {i}\n").as_bytes());
    }
    input
}

fn state_for(input: &[u8], terminal_lines: u16) -> State {
    State {
        text: doc_of(input),
        terminal_lines,
        input_lines: count_input_lines(input),
        vertical_scroll: 0,
    }
}

fn key(c: char, mods: Modifiers) -> Event {
    Event::Key(KeyCode::Char(c), mods)
}

#[test]
fn counts_line_separators() {
    assert_eq!(count_input_lines(b"a\nb\nc"), 2);
    assert_eq!(count_input_lines(b""), 0);
    assert_eq!(count_input_lines(b"\n\n\n"), 3);
    assert_eq!(count_input_lines(b"no newline"), 0);
}

#[test]
fn equality_counts_as_fitting() {
    let input = numbered_input(24);
    assert_eq!(count_input_lines(&input), 24);
    assert!(fits_on_screen(&input, 24));
    let larger = numbered_input(25);
    assert!(!fits_on_screen(&larger, 24));
}

#[test]
fn ten_lines_fit_on_twenty_four_rows() {
    let input = numbered_input(10);
    assert!(fits_on_screen(&input, 24));
}

#[test]
fn parse_splits_on_line_separators() {
    let doc = doc_of(b"one\ntwo\nthree");
    assert_eq!(doc.len(), 3);
    assert_eq!(line_text(&doc[0]), "one");
    assert_eq!(line_text(&doc[1]), "two");
    assert_eq!(line_text(&doc[2]), "three");
}

#[test]
fn parse_keeps_colors() {
    let doc = doc_of(b"\x1b[31mred\x1b[0m plain");
    assert_eq!(doc.len(), 1);
    assert!(doc[0].runs.iter().any(|run| run.text == "red" && run.style.fg == Some(Color::Red)));
    assert_eq!(line_text(&doc[0]), "red plain");
}

#[test]
fn malformed_escapes_do_not_abort_parsing() {
    let doc = parse_input(b"before\n\x1b[9999zafter").unwrap();
    assert_eq!(doc.len(), 2);
    assert_eq!(line_text(&doc[0]), "before");
}

#[test]
fn first_frame_shows_first_viewport_lines() {
    let input = numbered_input(100);
    let state = state_for(&input, 24);
    let frame = render(&state);
    assert_eq!(frame.len(), 24);
    for (i, line) in frame.iter().enumerate() {
        assert_eq!(line_text(line), format!("line {i}"));
    }
}

#[test]
fn frame_is_cut_off_at_document_end() {
    let input = numbered_input(30);
    let mut state = state_for(&input, 24);
    state.vertical_scroll = 28;
    let frame = render(&state);
    assert_eq!(frame.len(), 2);
    assert_eq!(line_text(&frame[0]), "line 28");

    state.vertical_scroll = 1000;
    let frame = render(&state);
    assert!(frame.is_empty());
}

#[test]
fn bottom_then_top_yields_zero() {
    let input = numbered_input(100);
    let mut state = state_for(&input, 24);
    state.scroll_to_bottom();
    state.scroll_to_top();
    assert_eq!(state.vertical_scroll, 0);
}

#[test]
fn top_then_bottom_yields_clamped_end() {
    let input = numbered_input(100);
    let mut state = state_for(&input, 24);
    state.scroll_to_top();
    state.scroll_to_bottom();
    assert_eq!(state.vertical_scroll, 76);

    let short = numbered_input(10);
    let mut state = state_for(&short, 24);
    state.scroll_to_top();
    state.scroll_to_bottom();
    assert_eq!(state.vertical_scroll, 0);
}

#[test]
fn single_lines_add_up_to_a_page() {
    let input = numbered_input(100);
    let mut by_lines = state_for(&input, 24);
    by_lines.vertical_scroll = 5;
    for _ in 0..24 {
        by_lines.scroll_down(1);
    }
    let mut by_page = state_for(&input, 24);
    by_page.vertical_scroll = 5;
    by_page.scroll_full_page_down();
    assert_eq!(by_lines.vertical_scroll, by_page.vertical_scroll);
    assert_eq!(by_page.vertical_scroll, 29);
}

#[test]
fn scroll_up_from_top_stays_at_top() {
    let input = numbered_input(100);
    let mut state = state_for(&input, 24);
    state.scroll_up(1);
    assert_eq!(state.vertical_scroll, 0);
    state.scroll_full_page_up();
    assert_eq!(state.vertical_scroll, 0);
}

#[test]
fn half_and_full_pages_use_viewport_height() {
    let input = numbered_input(100);
    let mut state = state_for(&input, 25);
    state.scroll_half_page_down();
    assert_eq!(state.vertical_scroll, 12);
    state.scroll_half_page_up();
    assert_eq!(state.vertical_scroll, 0);
    state.scroll_full_page_down();
    assert_eq!(state.vertical_scroll, 25);
    state.scroll_full_page_up();
    assert_eq!(state.vertical_scroll, 0);
}

#[test]
fn downward_scrolling_is_not_clamped() {
    let input = numbered_input(30);
    let mut state = state_for(&input, 24);
    state.scroll_to_bottom();
    assert_eq!(state.vertical_scroll, 6);
    state.scroll_down(1);
    assert_eq!(state.vertical_scroll, 7);
    state.scroll_full_page_down();
    assert_eq!(state.vertical_scroll, 31);
}

#[test]
fn resize_keeps_offset_and_changes_height() {
    let input = numbered_input(100);
    let mut state = state_for(&input, 24);
    state.vertical_scroll = 7;
    let r = pager::event::step(&mut state, &Event::Resize(80, 30));
    assert_eq!(r, StepResult::Redraw);
    assert_eq!(state.vertical_scroll, 7);
    assert_eq!(state.terminal_lines, 30);
    let frame = render(&state);
    assert_eq!(frame.len(), 30);
}

#[test]
fn noisy_events_are_discarded_without_redraw() {
    let input = numbered_input(100);
    let mut state = state_for(&input, 24);
    state.vertical_scroll = 3;
    for kind in [MouseKind::Moved, MouseKind::ScrollLeft, MouseKind::ScrollRight] {
        let r = pager::event::step(&mut state, &Event::Mouse(kind, Modifiers::Plain));
        assert_eq!(r, StepResult::Wait);
        assert_eq!(state.vertical_scroll, 3);
    }
}

#[test]
fn mouse_wheel_scrolls_by_one_line() {
    let input = numbered_input(100);
    let mut state = state_for(&input, 24);
    let r = pager::event::step(&mut state, &Event::Mouse(MouseKind::ScrollDown, Modifiers::Plain));
    assert_eq!(r, StepResult::Redraw);
    assert_eq!(state.vertical_scroll, 1);
    let r = pager::event::step(&mut state, &Event::Mouse(MouseKind::ScrollUp, Modifiers::Plain));
    assert_eq!(r, StepResult::Redraw);
    assert_eq!(state.vertical_scroll, 0);
    let r = pager::event::step(&mut state, &Event::Mouse(MouseKind::ScrollDown, Modifiers::Shift));
    assert_eq!(r, StepResult::Redraw);
    assert_eq!(state.vertical_scroll, 0);
}

#[test]
fn unmapped_keys_redraw_without_state_change() {
    let input = numbered_input(100);
    let mut state = state_for(&input, 24);
    state.vertical_scroll = 9;
    let r = pager::event::step(&mut state, &key('x', Modifiers::Plain));
    assert_eq!(r, StepResult::Redraw);
    assert_eq!(state.vertical_scroll, 9);
    let r = pager::event::step(&mut state, &Event::Key(KeyCode::Other, Modifiers::Plain));
    assert_eq!(r, StepResult::Redraw);
    assert_eq!(state.vertical_scroll, 9);
}

#[test]
fn key_bindings_scroll_as_documented() {
    let input = numbered_input(100);
    let mut state = state_for(&input, 24);
    assert!(!pager::event::handle_event(&mut state, &key('j', Modifiers::Plain)));
    assert_eq!(state.vertical_scroll, 1);
    assert!(!pager::event::handle_event(&mut state, &key('k', Modifiers::Plain)));
    assert_eq!(state.vertical_scroll, 0);
    assert!(!pager::event::handle_event(&mut state, &key('d', Modifiers::Plain)));
    assert_eq!(state.vertical_scroll, 12);
    assert!(!pager::event::handle_event(&mut state, &key('u', Modifiers::Plain)));
    assert_eq!(state.vertical_scroll, 0);
    assert!(!pager::event::handle_event(&mut state, &key('f', Modifiers::Plain)));
    assert_eq!(state.vertical_scroll, 24);
    assert!(!pager::event::handle_event(&mut state, &key('b', Modifiers::Plain)));
    assert_eq!(state.vertical_scroll, 0);
    assert!(!pager::event::handle_event(&mut state, &key('G', Modifiers::Shift)));
    assert_eq!(state.vertical_scroll, 76);
    assert!(!pager::event::handle_event(&mut state, &key('g', Modifiers::Plain)));
    assert_eq!(state.vertical_scroll, 0);
}

#[test]
fn quit_keys_end_the_loop() {
    let input = numbered_input(100);
    let mut state = state_for(&input, 24);
    state.vertical_scroll = 5;
    let r = pager::event::step(&mut state, &key('q', Modifiers::Plain));
    assert_eq!(r, StepResult::Quit);
    assert_eq!(state.vertical_scroll, 5);
    let r = pager::event::step(&mut state, &key('c', Modifiers::Control));
    assert_eq!(r, StepResult::Quit);
    assert_eq!(state.vertical_scroll, 5);
    let r = pager::event::step(&mut state, &key('q', Modifiers::Control));
    assert_eq!(r, StepResult::Redraw);
}

#[test]
fn interactive_session_scenario() {
    let input = numbered_input(100);
    assert!(!fits_on_screen(&input, 24));
    let mut state = state_for(&input, 24);

    let r = pager::event::step(&mut state, &key('G', Modifiers::Plain));
    assert_eq!(r, StepResult::Redraw);
    assert_eq!(state.vertical_scroll, 76);

    let r = pager::event::step(&mut state, &key('g', Modifiers::Plain));
    assert_eq!(r, StepResult::Redraw);
    assert_eq!(state.vertical_scroll, 0);

    let r = pager::event::step(&mut state, &key('q', Modifiers::Plain));
    assert_eq!(r, StepResult::Quit);
}

#[test]
fn empty_input_parses_to_a_single_empty_line() {
    let doc = doc_of(b"");
    assert_eq!(doc.len(), 1);
    assert_eq!(line_text(&doc[0]), "");
}
