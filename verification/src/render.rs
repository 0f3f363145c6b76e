//! The renderer: computes the contiguous sub-range of document lines that
//! the current frame shows, one line per row. Rows beyond the document's
//! end are left blank, so the frame holds only the lines that exist.

use crate::state::State;
use crate::styled::{doc_view, RunView, StyledLine};
use vstd::prelude::*;

verus! {

/// The sub-range of a document that a frame shows: the lines from
/// `offset` up to `offset + height`, cut off at the document's end. An
/// offset past the end shows nothing.
pub open spec fn visible_slice(doc: Seq<Seq<RunView>>, offset: int, height: int) -> Seq<
    Seq<RunView>,
> {
    let start = if offset <= doc.len() {
        offset
    } else {
        doc.len() as int
    };
    let end = if offset + height <= doc.len() {
        offset + height
    } else {
        doc.len() as int
    };
    if start <= end {
        doc.subrange(start, end)
    } else {
        doc.subrange(start, start)
    }
}

/// Compute the frame's contents: the document lines from the scroll offset
/// down, at most one viewport height of them.
pub fn render(state: &State) -> (frame: Vec<StyledLine>)
    ensures
        doc_view(frame@) == visible_slice(
            doc_view(state.text@),
            state.vertical_scroll as int,
            state.terminal_lines as int,
        ),
{
    let mut frame: Vec<StyledLine> = Vec::new();
    let mut i: usize = state.vertical_scroll;
    while i < state.text.len() && i - state.vertical_scroll < state.terminal_lines as usize
        invariant
            state.vertical_scroll <= i,
            i - state.vertical_scroll <= state.terminal_lines,
            i <= state.text.len() || i == state.vertical_scroll,
            frame@.len() == i - state.vertical_scroll,
            forall|j: int|
                0 <= j < frame@.len() ==> #[trigger] frame@[j]@ == state.text@[state.vertical_scroll
                    + j]@,
        decreases state.text.len() - i,
    {
        frame.push(state.text[i].clone());
        i = i + 1;
    }
    proof {
        assert(doc_view(frame@) =~= visible_slice(
            doc_view(state.text@),
            state.vertical_scroll as int,
            state.terminal_lines as int,
        ));
    }
    frame
}

/// When the document is longer than the viewport, the frame at offset zero
/// shows exactly the first viewport-height lines of the document.
pub proof fn lemma_first_frame(doc: Seq<Seq<RunView>>, height: int)
    requires
        0 <= height <= doc.len(),
    ensures
        visible_slice(doc, 0, height) == doc.subrange(0, height),
{
}

} // verus!
