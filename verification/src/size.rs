//! The size decider: compares the input's line count to the terminal's row
//! count to choose between printing directly and entering the viewer.

use vstd::prelude::*;

verus! {

/// Number of occurrences of the byte `b` in `s`.
pub open spec fn count_byte(s: Seq<u8>, b: u8) -> nat
    decreases s.len(),
{
    if s.len() == 0 {
        0
    } else {
        count_byte(s.drop_last(), b) + if s.last() == b {
            1nat
        } else {
            0nat
        }
    }
}

/// Relies on bytecount::count: returns the number of occurrences of `byte`
/// in `haystack`.
#[verifier::external_body]
fn byte_occurrences(haystack: &[u8], byte: u8) -> (n: usize)
    ensures
        n == count_byte(haystack@, byte),
{
    bytecount::count(haystack, byte)
}

/// The input's line count: the number of line-separator bytes in it.
pub fn count_input_lines(input: &[u8]) -> (n: usize)
    ensures
        n == count_byte(input@, 10),
{
    byte_occurrences(input, 10)
}

/// The direct-print decision: the input fits on the screen when its line
/// count is at most the terminal's row count; exact equality counts as
/// fitting.
pub fn fits_on_screen(input: &[u8], terminal_lines: u16) -> (fits: bool)
    ensures
        fits == (count_byte(input@, 10) <= terminal_lines),
{
    count_input_lines(input) <= terminal_lines as usize
}

} // verus!
