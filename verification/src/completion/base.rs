//! The vocabulary shared by every completer: text spans and the completer
//! traits.

use vstd::prelude::*;

use crate::core_editor::line_buffer::LineBuffer;

verus! {

/// A region of a line, described by character positions.
#[derive(Debug, Default, Clone, Copy, PartialEq, Eq, Structural)]
pub struct Span {
    /// The starting position of the span.
    pub start: usize,

    /// The ending position of the span.
    pub end: usize,
}

impl Span {
    /// Creates a new `Span` from start and end inputs.
    /// The end parameter must be greater than or equal to the start
    /// parameter: a caller that violates this has a programming error,
    /// so the bound is demanded up front rather than checked at run time.
    pub fn new(start: usize, end: usize) -> (span: Span)
        requires
            start <= end,
        ensures
            span.start == start,
            span.end == end,
    {
        Span { start, end }
    }
}

/// The handler for when the user begins a completion action, often with the
/// tab key: it may rewrite the line buffer with its chosen completion.
pub trait CompletionActionHandler {
    /// Handle the completion action on the given line buffer.
    fn handle(&mut self, line: &mut LineBuffer)
        requires
            old(line).wf(),
        ensures
            final(line).wf(),
    ;
}

/// A trait that defines how to convert a line and position to a list of
/// potential completions in that position.
pub trait Completer {
    /// The action that will take the line and position and convert it to a
    /// vector of completions, which include the span to replace and the
    /// contents of that replacement.
    fn complete(&self, line: &str, pos: usize) -> Vec<(Span, String)>;
}

} // verus!
