//! A completion action handler that rewrites the line with the first
//! completion on offer.

use vstd::prelude::*;

use crate::completion::base::{Completer, CompletionActionHandler, Span};
use crate::completion::default::{completions_spec, DefaultCompleter};
use crate::core_editor::line_buffer::{BufState, LineBuffer};

verus! {

/// What accepting the first completion leaves in the buffer: the span of
/// the first candidate replaced by that candidate, with the cursor behind
/// the replacement; the buffer is untouched when there is no candidate (or
/// its span does not fit the buffer, which the completion spec rules out).
pub open spec fn tab_completion_result(dict: Seq<Seq<char>>, b: BufState) -> BufState {
    let cut = if b.cur <= b.text.len() {
        b.cur
    } else {
        b.text.len() as int
    };
    let pairs = completions_spec(dict, b.text.subrange(0, cut));
    if pairs.len() == 0 {
        b
    } else {
        let span = pairs[0].0;
        let repl = pairs[0].1;
        if span.start <= span.end && span.end <= b.text.len() {
            BufState {
                text: b.text.subrange(0, span.start as int) + repl + b.text.subrange(
                    span.end as int,
                    b.text.len() as int,
                ),
                cur: span.start + repl.len(),
            }
        } else {
            b
        }
    }
}

/// A handler that asks its completer for the candidates at the cursor and
/// replaces the matched span with the first one.
#[derive(Debug)]
pub struct CircularCompletionHandler {
    completer: DefaultCompleter,
}

impl Default for CircularCompletionHandler {
    /// The default handler completes from an empty dictionary.
    fn default() -> (r: CircularCompletionHandler)
        ensures
            r.completer_spec() == Seq::<Seq<char>>::empty(),
    {
        CircularCompletionHandler { completer: DefaultCompleter::default() }
    }
}

impl CircularCompletionHandler {
    /// The dictionary the handler takes its candidates from.
    pub closed spec fn completer_spec(&self) -> Seq<Seq<char>> {
        self.completer@
    }

    /// A builder that sets the completer this handler takes its candidates
    /// from.
    pub fn with_completer(self, completer: DefaultCompleter) -> (r: CircularCompletionHandler)
        ensures
            r.completer_spec() == completer@,
    {
        CircularCompletionHandler { completer }
    }
}

impl CompletionActionHandler for CircularCompletionHandler {
    /// Replaces the span of the first completion at the cursor with that
    /// completion (see [`tab_completion_result`]); the buffer stays as it is
    /// when there is none.
    fn handle(&mut self, line: &mut LineBuffer)
        ensures
            final(line).wf(),
            final(line)@ == tab_completion_result(old(self).completer_spec(), old(line)@),
            final(self).completer_spec() == old(self).completer_spec(),
    {
        let buffer = line.get_buffer();
        let pos = line.offset();
        let completions = self.completer.complete(buffer.as_str(), pos);
        if completions.len() > 0 {
            let (span, replacement) = &completions[0];
            let count = line.char_count();
            if span.start <= span.end && span.end <= count {
                line.replace_range(span.start, span.end, replacement.as_str());
            }
        }
    }
}

} // verus!
