//! The style parser's output model: a document is a sequence of lines, each
//! line a sequence of styled runs (a text span plus one set of display
//! attributes). The parsing itself is done by an outside ANSI parser behind
//! a trusted wrapper; the attribute set is carried through opaquely.

use ansi_to_tui::IntoText;
use vstd::prelude::*;

verus! {

/// The outside attribute-set type (ratatui's `Style`, holding foreground
/// and background color and text attributes such as bold, italic and
/// underline). The viewer only carries it through, so it stays opaque.
#[verifier::external_type_specification]
#[verifier::external_body]
pub struct ExStyle(ratatui::style::Style);

/// A contiguous text span sharing one set of display attributes.
pub struct StyledRun {
    pub text: String,
    pub style: ratatui::style::Style,
}

/// The mathematical model of a run: its characters and its attributes.
pub struct RunView {
    pub text: Seq<char>,
    pub style: ratatui::style::Style,
}

impl View for StyledRun {
    type V = RunView;

    open spec fn view(&self) -> RunView {
        RunView { text: self.text@, style: self.style }
    }
}

impl Clone for StyledRun {
    fn clone(&self) -> (r: Self)
        ensures
            r == *self,
    {
        StyledRun { text: self.text.clone(), style: self.style }
    }
}

/// One line of the document: an ordered sequence of styled runs.
pub struct StyledLine {
    pub runs: Vec<StyledRun>,
}

impl View for StyledLine {
    type V = Seq<RunView>;

    open spec fn view(&self) -> Seq<RunView> {
        self.runs@.map_values(|r: StyledRun| r@)
    }
}

impl Clone for StyledLine {
    fn clone(&self) -> (r: Self)
        ensures
            r@ == self@,
    {
        let mut runs: Vec<StyledRun> = Vec::new();
        let mut i: usize = 0;
        while i < self.runs.len()
            invariant
                i <= self.runs.len(),
                runs@ =~= self.runs@.take(i as int),
            decreases self.runs.len() - i,
        {
            runs.push(self.runs[i].clone());
            i = i + 1;
        }
        proof {
            assert(runs@ =~= self.runs@);
        }
        StyledLine { runs }
    }
}

/// The model of a whole document: each line viewed as its runs.
pub open spec fn doc_view(d: Seq<StyledLine>) -> Seq<Seq<RunView>> {
    d.map_values(|l: StyledLine| l@)
}

/// The error returned when the input bytes cannot be parsed.
#[derive(Clone, Copy, Debug, PartialEq, Eq, Structural)]
pub struct ParseError;

/// The styled lines that the outside ANSI parser produces for the given
/// bytes: a function of the bytes alone.
pub uninterp spec fn ansi_styled(bytes: Seq<u8>) -> Seq<Seq<RunView>>;

/// Relies on ansi_to_tui::IntoText::into_text for byte slices: it parses the
/// bytes' embedded ANSI escape sequences into styled lines, degrading
/// malformed sequences to literal text; the result depends on the bytes
/// alone, and in the version relied on its parser accepts every byte input,
/// so the call always returns Ok.
#[verifier::external_body]
fn parse_ansi(input: &[u8]) -> (r: Result<Vec<StyledLine>, ParseError>)
    ensures
        r is Ok,
        r matches Ok(doc) ==> doc_view(doc@) == ansi_styled(input@),
{
    match input.into_text() {
        Ok(text) => Ok(text.lines.into_iter().map(|line: ratatui::text::Line<'_>| StyledLine {
            runs: line.spans.into_iter().map(|span: ratatui::text::Span<'_>| StyledRun {
                text: span.content.into_owned(),
                style: span.style,
            }).collect(),
        }).collect()),
        Err(_) => Err(ParseError),
    }
}

/// The style parser: converts the raw input bytes into the styled document.
/// Malformed escape sequences degrade to literal text inside the outside
/// parser, so construction never aborts and every input yields a document.
pub fn parse_input(input: &[u8]) -> (r: Result<Vec<StyledLine>, ParseError>)
    ensures
        r is Ok,
        r matches Ok(doc) ==> doc_view(doc@) == ansi_styled(input@),
{
    parse_ansi(input)
}

} // verus!
