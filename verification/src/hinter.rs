//! Hints: ghost text offered after the cursor, taken from a completer or
//! from the history, and painted with a terminal style.

use vstd::prelude::*;

use crate::completion::base::{Completer, Span};
use crate::completion::default::{completions_spec, history_matches, DefaultCompleter, HistoryCompleter};
use crate::history::History;
use crate::text_manipulation::string_from_chars;

verus! {

/// A terminal text style of the `nu_ansi_term` crate, carried through the
/// engine and used only when the hint is painted.
#[verifier::external_type_specification]
#[verifier::external_body]
pub struct ExStyle(nu_ansi_term::Style);

/// What `strip_ansi_escapes::strip_str` leaves of a string: the text with
/// its ANSI escape sequences removed, a function of the characters alone.
pub uninterp spec fn ansi_stripped(s: Seq<char>) -> Seq<char>;

/// Relies on `strip_ansi_escapes::strip_str`: it removes the ANSI escape
/// sequences from the text and leaves the rest, depending on the input
/// characters alone. Its parser never prints the escape character itself,
/// so none remains in the result.
#[verifier::external_body]
fn strip_ansi(s: &str) -> (r: String)
    ensures
        r@ == ansi_stripped(s@),
        forall|i: int| 0 <= i < r@.len() ==> r@[i] != '\u{1b}',
{
    strip_ansi_escapes::strip_str(s)
}

/// Relies on `nu_ansi_term::Style::paint` and the display of the painted
/// string: it writes the style's prefix codes, the text unchanged, and the
/// style's suffix codes.
#[verifier::external_body]
fn paint_with(style: &nu_ansi_term::Style, text: &str) -> (r: String)
    ensures
        exists|pre: Seq<char>, suf: Seq<char>| r@ == pre + text@ + suf,
{
    style.paint(text).to_string()
}

/// Relies on `nu_ansi_term::Style::new` and `Style::fg`: builds the style
/// hints are painted with by default (light gray foreground).
#[verifier::external_body]
fn default_hint_style() -> nu_ansi_term::Style {
    nu_ansi_term::Style::new().fg(nu_ansi_term::Color::LightGray)
}

/// `s` with every newline turned into a carriage return and newline, as the
/// terminal wants it.
pub open spec fn crlf_of(s: Seq<char>) -> Seq<char>
    decreases s.len(),
{
    if s.len() == 0 {
        s
    } else {
        (if s[0] == '\n' {
            seq!['\r', '\n']
        } else {
            seq![s[0]]
        }) + crlf_of(s.drop_first())
    }
}

/// How a hint on display relates to the hint that was computed: an empty
/// hint is shown as nothing; otherwise the display carries the hint wrapped
/// in the style's codes (with ANSI colouring), or that painted form stripped
/// of its escape sequences again (without).
pub open spec fn displayed_hint_ok(shown: Seq<char>, computed: Seq<char>, ansi: bool) -> bool {
    &&& (computed.len() == 0 ==> shown == Seq::<char>::empty())
    &&& (computed.len() > 0 && ansi ==> exists|pre: Seq<char>, suf: Seq<char>|
        shown == pre + computed + suf)
    &&& (computed.len() > 0 && !ansi ==> exists|pre: Seq<char>, suf: Seq<char>|
        shown == ansi_stripped(pre + computed + suf))
}

/// The ghost text the first completion yields: what reaches past its span,
/// with newlines adjusted; completions that do not reach past their span
/// give no hint.
pub open spec fn ghost_hint(pairs: Seq<(Span, Seq<char>)>) -> Seq<char> {
    if pairs.len() == 0 {
        Seq::empty()
    } else {
        let span = pairs[0].0;
        let text = pairs[0].1;
        if span.start <= span.end && text.len() > span.end - span.start {
            crlf_of(text.skip(span.end as int - span.start as int))
        } else {
            Seq::empty()
        }
    }
}

/// Responsible for the hint at the current line and position. Hints are
/// shown in line as part of the buffer, as text the user can accept or
/// ignore.
pub trait Hinter {
    /// Computes the hint for the line, cursor and history, painted for the
    /// terminal (or stripped of colour when ANSI colouring is off).
    fn handle(&mut self, line: &str, pos: usize, history: &History, use_ansi_coloring: bool) -> (r:
        String)
        requires
            history.wf(),
    ;

    /// The hint currently being shown.
    fn current_hint(&self) -> String;
}

/// The default hinter: hints from a completer when one is set, else from
/// the history when that is enabled, shown when the cursor stands at the
/// end of the line (or anywhere, when configured so).
pub struct DefaultHinter {
    completer: Option<DefaultCompleter>,
    history: bool,
    style: nu_ansi_term::Style,
    inside_line: bool,
    current_hint: String,
}

impl DefaultHinter {
    /// The stored last hint.
    pub closed spec fn current_hint_spec(&self) -> Seq<char> {
        self.current_hint@
    }

    /// Whether hints are offered with the cursor inside the line.
    pub closed spec fn inside_line_spec(&self) -> bool {
        self.inside_line
    }

    /// Whether hints are taken from the history.
    pub closed spec fn history_spec(&self) -> bool {
        self.history
    }

    /// The dictionary of the configured completer, when one is set.
    pub closed spec fn completer_spec(&self) -> Option<Seq<Seq<char>>> {
        match self.completer {
            Some(c) => Some(c@),
            None => None,
        }
    }

    /// A builder that configures the hint to be shown with the cursor
    /// anywhere in the line, not only at its end.
    pub fn with_inside_line(self) -> (r: DefaultHinter)
        ensures
            r.inside_line_spec(),
            r.history_spec() == self.history_spec(),
            r.completer_spec() == self.completer_spec(),
            r.current_hint_spec() == self.current_hint_spec(),
    {
        DefaultHinter { inside_line: true, ..self }
    }

    /// A builder that configures the completer used by this hinter.
    pub fn with_completer(self, completer: DefaultCompleter) -> (r: DefaultHinter)
        ensures
            r.completer_spec() == Some(completer@),
            r.history_spec() == self.history_spec(),
            r.inside_line_spec() == self.inside_line_spec(),
            r.current_hint_spec() == self.current_hint_spec(),
    {
        DefaultHinter { completer: Some(completer), ..self }
    }

    /// A builder that configures the hinter to hint from the history.
    pub fn with_history(self) -> (r: DefaultHinter)
        ensures
            r.history_spec(),
            r.completer_spec() == self.completer_spec(),
            r.inside_line_spec() == self.inside_line_spec(),
            r.current_hint_spec() == self.current_hint_spec(),
    {
        DefaultHinter { history: true, ..self }
    }

    /// A builder that sets the style the hint is painted with.
    pub fn with_style(self, style: nu_ansi_term::Style) -> (r: DefaultHinter)
        ensures
            r.history_spec() == self.history_spec(),
            r.completer_spec() == self.completer_spec(),
            r.inside_line_spec() == self.inside_line_spec(),
            r.current_hint_spec() == self.current_hint_spec(),
    {
        DefaultHinter { style, ..self }
    }
}

impl Default for DefaultHinter {
    /// The default hinter: no completer, no history hints, hint only at the
    /// end of the line, light gray style.
    fn default() -> (r: DefaultHinter)
        ensures
            r.completer_spec() is None,
            !r.history_spec(),
            !r.inside_line_spec(),
            r.current_hint_spec() == Seq::<char>::empty(),
    {
        DefaultHinter {
            completer: None,
            history: false,
            style: default_hint_style(),
            inside_line: false,
            current_hint: String::new(),
        }
    }
}

/// The hint the default hinter shows: the ghost text of the first completion
/// of the configured source, when the cursor may hint at all.
pub open spec fn default_hint_spec(
    completer: Option<Seq<Seq<char>>>,
    history_on: bool,
    entries: Seq<Seq<char>>,
    line: Seq<char>,
    pos: int,
    inside_line: bool,
) -> Seq<char> {
    if !(pos == line.len() || inside_line) || pos > line.len() {
        Seq::empty()
    } else {
        match completer {
            Some(dict) => ghost_hint(completions_spec(dict, line.subrange(0, pos))),
            None => if history_on {
                ghost_hint(history_completion_pairs(entries, line, pos))
            } else {
                Seq::empty()
            },
        }
    }
}

/// The completion pairs the history completer yields (see
/// [`HistoryCompleter::complete`]): the most recent entry extending the text
/// left of the cursor, or nothing.
pub open spec fn history_completion_pairs(entries: Seq<Seq<char>>, line: Seq<char>, pos: int) -> Seq<
    (Span, Seq<char>),
> {
    let ms = history_matches(entries, line.subrange(0, pos));
    if line.len() == 0 || pos > line.len() || ms.len() == 0 {
        Seq::empty()
    } else {
        seq![(Span { start: pos as usize, end: line.len() as usize }, ms.last().skip(pos))]
    }
}

impl Hinter for DefaultHinter {
    /// Computes and remembers the hint (see [`default_hint_spec`]), and
    /// returns it painted with the configured style; with ANSI colouring
    /// off, the painted text is stripped of escape codes again.
    fn handle(&mut self, line: &str, pos: usize, history: &History, use_ansi_coloring: bool) -> (r:
        String)
        ensures
            final(self).current_hint_spec() == default_hint_spec(
                old(self).completer_spec(),
                old(self).history_spec(),
                history@.entries,
                line@,
                pos as int,
                old(self).inside_line_spec(),
            ),
            final(self).completer_spec() == old(self).completer_spec(),
            final(self).history_spec() == old(self).history_spec(),
            final(self).inside_line_spec() == old(self).inside_line_spec(),
            displayed_hint_ok(r@, final(self).current_hint_spec(), use_ansi_coloring),
            !use_ansi_coloring ==> forall|i: int| 0 <= i < r@.len() ==> r@[i] != '\u{1b}',
    {
        let n = line.unicode_len();
        let mut hint_chars: Vec<char> = Vec::new();
        if (pos == n || self.inside_line) && pos <= n {
            let completions: Vec<(Span, String)> = match &self.completer {
                Some(c) => c.complete(line, pos),
                None => {
                    if self.history {
                        let entries = history.iter_chronologic().clone();
                        proof {
                            assert(entries@.map_values(|s: String| s@) =~= history@.entries);
                        }
                        HistoryCompleter::new(entries).complete(line, pos)
                    } else {
                        Vec::new()
                    }
                },
            };
            if completions.len() > 0 {
                let (span, text) = &completions[0];
                let tlen = text.unicode_len();
                if span.start <= span.end && tlen > span.end - span.start {
                    hint_chars = crlf_exec(text, span.end - span.start);
                }
            }
            proof {
                if self.completer is None && !self.history {
                    assert(ghost_hint(Seq::<(Span, Seq<char>)>::empty()) =~= Seq::<char>::empty());
                }
            }
        }
        let hint = string_from_chars(&hint_chars);
        self.current_hint = hint;
        if hint_chars.len() == 0 {
            String::new()
        } else {
            let output = paint_with(&self.style, self.current_hint.as_str());
            if use_ansi_coloring {
                output
            } else {
                strip_ansi(output.as_str())
            }
        }
    }

    /// The hint currently being shown.
    fn current_hint(&self) -> (r: String)
        ensures
            r@ == self.current_hint_spec(),
    {
        self.current_hint.clone()
    }
}

/// The characters of `text` from position `from` on, with newlines turned
/// into carriage return and newline.
fn crlf_exec(text: &String, from: usize) -> (out: Vec<char>)
    requires
        from <= text@.len(),
    ensures
        out@ == crlf_of(text@.skip(from as int)),
{
    let n = text.unicode_len();
    let mut out: Vec<char> = Vec::new();
    let mut i = from;
    proof {
        assert(Seq::<char>::empty() + crlf_of(text@.skip(from as int)) =~= crlf_of(
            text@.skip(from as int),
        ));
    }
    while i < n
        invariant
            from <= i <= n,
            n == text@.len(),
            out@ + crlf_of(text@.skip(i as int)) == crlf_of(text@.skip(from as int)),
        decreases n - i,
    {
        let c = text.get_char(i);
        let ghost tail = text@.skip(i as int);
        proof {
            assert(tail[0] == text@[i as int]);
            assert(tail.drop_first() =~= text@.skip(i + 1));
        }
        let ghost pre = out@;
        if c == '\n' {
            out.push('\r');
            out.push('\n');
            proof {
                assert(out@ =~= pre + seq!['\r', '\n']);
                assert(pre + (seq!['\r', '\n'] + crlf_of(text@.skip(i + 1))) =~= (pre + seq![
                    '\r',
                    '\n',
                ]) + crlf_of(text@.skip(i + 1)));
            }
        } else {
            out.push(c);
            proof {
                assert(out@ =~= pre + seq![c]);
                assert(pre + (seq![c] + crlf_of(text@.skip(i + 1))) =~= (pre + seq![c]) + crlf_of(
                    text@.skip(i + 1),
                ));
            }
        }
        i = i + 1;
    }
    proof {
        assert(crlf_of(text@.skip(n as int)) =~= Seq::<char>::empty());
        assert(out@ + Seq::<char>::empty() =~= out@);
    }
    out
}

} // verus!
