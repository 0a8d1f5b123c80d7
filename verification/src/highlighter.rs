//! The highlighter prepares the buffer for painting: it hands the frontend
//! the text split at the insertion point. Styling the two halves is the
//! frontend's business.

use vstd::prelude::*;

verus! {

/// Prepares a line for painting around the insertion point.
pub trait Highlighter {
    /// The line split at the cursor: the part before it and the part from
    /// it on. A cursor past the end of the line is clamped to its end.
    fn highlight(&self, line: &str, cursor: usize) -> (String, String);
}

/// The default highlighter: a plain split at the cursor, no styling.
#[derive(Debug, Clone, Copy, Default)]
pub struct DefaultHighlighter;

impl Highlighter for DefaultHighlighter {
    /// The line split at the cursor, unstyled.
    fn highlight(&self, line: &str, cursor: usize) -> (r: (String, String))
        ensures
            ({
                let cut = if cursor as int <= line@.len() {
                    cursor as int
                } else {
                    line@.len() as int
                };
                r.0@ == line@.subrange(0, cut) && r.1@ == line@.subrange(cut, line@.len() as int)
            }),
    {
        let n = line.unicode_len();
        let cut = if cursor <= n {
            cursor
        } else {
            n
        };
        let before = line.substring_char(0, cut).to_owned();
        let after = line.substring_char(cut, n).to_owned();
        (before, after)
    }
}

} // verus!
