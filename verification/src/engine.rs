//! The line editor engine: the event-driven orchestrator that classifies
//! bursts of raw input, drives the three-mode state machine, dispatches edit
//! commands with the undo-checkpoint policy, walks the history under the
//! active navigation query, and decides what the screen should show.
//!
//! The engine does no I/O itself: a frontend feeds it decoded raw events and
//! renders the paint operations it queues.

use vstd::prelude::*;

use crate::completion::base::CompletionActionHandler;
use crate::completion::circular::{tab_completion_result, CircularCompletionHandler};
use crate::core_editor::editor::{
    checkpoint_effect, command_effect, editor_wf, lemma_run_commands_snoc, reset_undo_st,
    run_commands_st, step_command, Editor, EditorState,
};
use crate::core_editor::line_buffer::{
    clear_to_end_st, insert_seq_st, line_end_of, line_start_of, move_line_down_st,
    move_line_up_st, BufState,
};
use crate::edit_mode::{emacs_flat_of, EditMode, Emacs, Event};
use crate::enums::{
    flat_view, undo_behavior_spec, ClassifiedView, EditCommand, InputMode, PromptEditMode,
    ReedlineEvent, Signal, UndoBehavior,
};
use crate::highlighter::{DefaultHighlighter, Highlighter};
use crate::hinter::{displayed_hint_ok, DefaultHinter, Hinter};
use crate::history::{
    back_cursor, forward_cursor, History, HistoryNavigationQuery, HistoryState, NavQuery,
};
use crate::painter::{PaintOp, Painter, PromptHistorySearch, PromptHistorySearchStatus};
use crate::validator::{incomplete_spec, DefaultValidator, ValidationResult, Validator};

verus! {

/// How many raw events a drained burst may hold before the whole burst is
/// treated as a paste.
pub const EVENTS_THRESHOLD: usize = 10;

/// The query the engine enters history traversal with: plain walking when
/// the buffer is empty or the cursor stands mid-line (the user is editing),
/// else a prefix search seeded from the whole buffer.
pub open spec fn chosen_query(b: BufState) -> NavQuery {
    if b.text.len() == 0 || b.cur != b.text.len() {
        NavQuery::Normal(b)
    } else {
        NavQuery::Prefix(b.text)
    }
}

/// What the buffer shows while traversing history: the entry under the
/// cursor; past the newest entry, what the query preserves (the original
/// buffer under plain walking, the prefix under prefix search, the current
/// buffer under substring search, whose display the search prompt owns).
pub open spec fn history_display_buffer(
    q: NavQuery,
    entries: Seq<Seq<char>>,
    cursor: int,
    current: BufState,
) -> BufState {
    if 0 <= cursor < entries.len() {
        BufState { text: entries[cursor], cur: entries[cursor].len() as int }
    } else {
        match q {
            NavQuery::Normal(orig) => orig,
            NavQuery::Prefix(p) => BufState { text: p, cur: p.len() as int },
            NavQuery::Substring(_) => current,
        }
    }
}

/// The buffer an edit command works on: entering the dispatcher from history
/// traversal first materializes the displayed history entry into the buffer.
pub open spec fn materialized(ed: EditorState, mode: InputMode, hist: HistoryState) -> EditorState {
    if mode == InputMode::HistoryTraversal {
        EditorState { buf: history_display_buffer(hist.query, hist.entries, hist.cursor, ed.buf), ..ed }
    } else {
        ed
    }
}

/// Running any edit command demotes history traversal to regular input.
pub open spec fn mode_after_commands(mode: InputMode) -> InputMode {
    if mode == InputMode::HistoryTraversal {
        InputMode::Regular
    } else {
        mode
    }
}

/// The line editor engine. One instance owns the text buffer, the history,
/// the input mode and the paint queue for the whole session.
pub struct Reedline {
    editor: Editor,
    history: History,
    input_mode: InputMode,
    validator: DefaultValidator,
    painter: Painter,
    edit_mode: Emacs,
    tab_handler: CircularCompletionHandler,
    highlighter: DefaultHighlighter,
    hinter: DefaultHinter,
    animate: bool,
    use_ansi_coloring: bool,
}

/// The hint the engine shows for buffer `b`: the freshly computed one in
/// regular mode, nothing in the other modes.
pub open spec fn shown_hint_source(pre: Reedline, b: BufState) -> Seq<char> {
    if pre.mode_spec() == InputMode::Regular {
        pre.computed_hint(b.text, b.cur)
    } else {
        Seq::<char>::empty()
    }
}

/// `op` redraws the buffer region: buffer `b` split at its cursor, with a
/// hint displayed per [`displayed_hint_ok`].
pub open spec fn is_buffer_paint_of(op: PaintOp, b: BufState, computed: Seq<char>, ansi: bool) -> bool {
    op matches PaintOp::BufferPaint { line_before_cursor, line_after_cursor, hint }
        && line_before_cursor@ == b.text.subrange(0, b.cur) && line_after_cursor@
        == b.text.subrange(b.cur, b.text.len() as int) && displayed_hint_ok(hint@, computed, ansi)
}

/// `op` redraws everything: the prompt style, buffer `b` split at its
/// cursor, and a hint displayed per [`displayed_hint_ok`].
pub open spec fn is_full_repaint_of(op: PaintOp, b: BufState, computed: Seq<char>, ansi: bool) -> bool {
    op matches PaintOp::RepaintEverything { prompt_mode, line_before_cursor, line_after_cursor, hint }
        && prompt_mode == PromptEditMode::Emacs && line_before_cursor@ == b.text.subrange(0, b.cur)
        && line_after_cursor@ == b.text.subrange(b.cur, b.text.len() as int)
        && displayed_hint_ok(hint@, computed, ansi)
}

/// `op` redraws after a wrap: buffer `b` split at its cursor, with a hint
/// displayed per [`displayed_hint_ok`].
pub open spec fn is_wrap_paint_of(op: PaintOp, b: BufState, computed: Seq<char>, ansi: bool) -> bool {
    op matches PaintOp::Wrap { line_before_cursor, line_after_cursor, hint } && line_before_cursor@
        == b.text.subrange(0, b.cur) && line_after_cursor@ == b.text.subrange(
        b.cur,
        b.text.len() as int,
    ) && displayed_hint_ok(hint@, computed, ansi)
}

/// `op` redraws the reverse-search indicator for the given history state:
/// the needle as the term, a failing marker exactly when a non-empty needle
/// selects nothing, and the selected entry as the result (or none).
pub open spec fn is_search_paint_of(op: PaintOp, hist: HistoryState) -> bool {
    hist.query matches NavQuery::Substring(needle) && (op matches PaintOp::SearchPaint {
        search,
        result,
    } && search.term@ == needle && (search.status == PromptHistorySearchStatus::Failing <==> (
    needle.len() > 0 && hist.cursor == hist.entries.len())) && (match result {
        Some(s) => hist.cursor < hist.entries.len() && s@ == hist.entries[hist.cursor],
        None => hist.cursor == hist.entries.len(),
    }))
}

impl Reedline {
    /// The editor's model: buffer, cut buffer and undo stack.
    pub closed spec fn editor_view(&self) -> EditorState {
        self.editor@
    }

    /// The history's model: entries, cursor and query.
    pub closed spec fn history_view(&self) -> HistoryState {
        self.history@
    }

    /// The active input mode.
    pub closed spec fn mode_spec(&self) -> InputMode {
        self.input_mode
    }

    /// The queued paint operations.
    pub closed spec fn ops(&self) -> Seq<PaintOp> {
        self.painter.ops()
    }

    /// The hint currently on display.
    pub closed spec fn hint_spec(&self) -> Seq<char> {
        self.hinter.current_hint_spec()
    }

    /// The hint the configured hinter would compute for the given line and
    /// cursor (see [`crate::hinter::default_hint_spec`]).
    pub closed spec fn computed_hint(&self, line: Seq<char>, pos: int) -> Seq<char> {
        crate::hinter::default_hint_spec(
            self.hinter.completer_spec(),
            self.hinter.history_spec(),
            self.history@.entries,
            line,
            pos,
            self.hinter.inside_line_spec(),
        )
    }

    /// Whether a poll timeout repaints the prompt.
    pub closed spec fn animate_spec(&self) -> bool {
        self.animate
    }

    /// Whether output is painted with ANSI colours.
    pub closed spec fn ansi_spec(&self) -> bool {
        self.use_ansi_coloring
    }

    /// The terminal width the engine believes in.
    pub closed spec fn screen_width(&self) -> u16 {
        self.painter.width_spec()
    }

    /// The terminal height the engine believes in.
    pub closed spec fn screen_height(&self) -> u16 {
        self.painter.height_spec()
    }

    /// The dictionary the tab-completion handler draws from.
    pub closed spec fn tab_dict(&self) -> Seq<Seq<char>> {
        self.tab_handler.completer_spec()
    }

    /// The engine invariant: a well-formed editor and history.
    pub open spec fn wf(&self) -> bool {
        editor_wf(self.editor_view()) && crate::history::history_wf(self.history_view())
    }

    /// A fresh engine: empty buffer and history, regular mode, default
    /// collaborators, animation and colour on.
    pub fn create() -> (r: Reedline)
        ensures
            r.wf(),
            r.mode_spec() == InputMode::Regular,
            r.editor_view().buf.text == Seq::<char>::empty(),
            r.editor_view().buf.cur == 0,
            r.editor_view().cut == Seq::<char>::empty(),
            r.editor_view() == reset_undo_st(r.editor_view()),
            r.history_view().entries == Seq::<Seq<char>>::empty(),
            r.history_view().cursor == 0,
            r.hint_spec() == Seq::<char>::empty(),
            r.ops() == Seq::<PaintOp>::empty(),
            r.animate_spec(),
            r.ansi_spec(),
            r.screen_width() == 80,
            r.screen_height() == 24,
    {
        Reedline {
            editor: Editor::new(),
            history: History::new(),
            input_mode: InputMode::Regular,
            validator: DefaultValidator,
            painter: Painter::new(),
            edit_mode: Emacs::new(),
            tab_handler: CircularCompletionHandler::default(),
            highlighter: DefaultHighlighter,
            hinter: DefaultHinter::default(),
            animate: true,
            use_ansi_coloring: true,
        }
    }

    /// A builder to include your own hinter in the engine.
    pub fn with_hinter(self, hinter: DefaultHinter) -> (r: Reedline)
        ensures
            r.editor_view() == self.editor_view(),
            r.history_view() == self.history_view(),
            r.mode_spec() == self.mode_spec(),
            r.hint_spec() == hinter.current_hint_spec(),
            r.ops() == self.ops(),
            r.animate_spec() == self.animate_spec(),
            r.ansi_spec() == self.ansi_spec(),
            r.tab_dict() == self.tab_dict(),
    {
        Reedline { hinter, ..self }
    }

    /// A builder to configure the completion action handler the tab key
    /// triggers.
    pub fn with_completion_action_handler(self, tab_handler: CircularCompletionHandler) -> (r:
        Reedline)
        ensures
            r.editor_view() == self.editor_view(),
            r.history_view() == self.history_view(),
            r.mode_spec() == self.mode_spec(),
            r.hint_spec() == self.hint_spec(),
            r.ops() == self.ops(),
            r.animate_spec() == self.animate_spec(),
            r.ansi_spec() == self.ansi_spec(),
            r.tab_dict() == tab_handler.completer_spec(),
    {
        Reedline { tab_handler, ..self }
    }

    /// A builder which enables or disables the use of ANSI coloring in the
    /// prompt and the hint.
    pub fn with_ansi_colors(self, use_ansi_coloring: bool) -> (r: Reedline)
        ensures
            r.editor_view() == self.editor_view(),
            r.history_view() == self.history_view(),
            r.mode_spec() == self.mode_spec(),
            r.ansi_spec() == use_ansi_coloring,
            r.hint_spec() == self.hint_spec(),
            r.ops() == self.ops(),
            r.animate_spec() == self.animate_spec(),
            r.tab_dict() == self.tab_dict(),
    {
        Reedline { use_ansi_coloring, ..self }
    }

    /// A builder which enables or disables automatic repainting on a poll
    /// timeout.
    pub fn with_animation(self, repaint: bool) -> (r: Reedline)
        ensures
            r.editor_view() == self.editor_view(),
            r.history_view() == self.history_view(),
            r.mode_spec() == self.mode_spec(),
            r.animate_spec() == repaint,
            r.hint_spec() == self.hint_spec(),
            r.ops() == self.ops(),
            r.ansi_spec() == self.ansi_spec(),
            r.tab_dict() == self.tab_dict(),
    {
        Reedline { animate: repaint, ..self }
    }

    /// A builder that configures the highlighter.
    pub fn with_highlighter(self, highlighter: DefaultHighlighter) -> (r: Reedline)
        ensures
            r.editor_view() == self.editor_view(),
            r.history_view() == self.history_view(),
            r.mode_spec() == self.mode_spec(),
            r.hint_spec() == self.hint_spec(),
            r.ops() == self.ops(),
            r.animate_spec() == self.animate_spec(),
            r.ansi_spec() == self.ansi_spec(),
            r.tab_dict() == self.tab_dict(),
    {
        Reedline { highlighter, ..self }
    }

    /// A builder which configures the history of the engine.
    pub fn with_history(self, history: History) -> (r: Reedline)
        ensures
            r.editor_view() == self.editor_view(),
            r.history_view() == history@,
            r.mode_spec() == self.mode_spec(),
            r.hint_spec() == self.hint_spec(),
            r.ops() == self.ops(),
            r.animate_spec() == self.animate_spec(),
            r.ansi_spec() == self.ansi_spec(),
            r.tab_dict() == self.tab_dict(),
    {
        Reedline { history, ..self }
    }

    /// A builder that configures the validator deciding when a buffer is
    /// finished.
    pub fn with_validator(self, validator: DefaultValidator) -> (r: Reedline)
        ensures
            r.editor_view() == self.editor_view(),
            r.history_view() == self.history_view(),
            r.mode_spec() == self.mode_spec(),
            r.hint_spec() == self.hint_spec(),
            r.ops() == self.ops(),
            r.animate_spec() == self.animate_spec(),
            r.ansi_spec() == self.ansi_spec(),
            r.tab_dict() == self.tab_dict(),
    {
        Reedline { validator, ..self }
    }

    /// A builder which configures the edit mode (the key-binding parser).
    pub fn with_edit_mode(self, edit_mode: Emacs) -> (r: Reedline)
        ensures
            r.editor_view() == self.editor_view(),
            r.history_view() == self.history_view(),
            r.mode_spec() == self.mode_spec(),
            r.hint_spec() == self.hint_spec(),
            r.ops() == self.ops(),
            r.animate_spec() == self.animate_spec(),
            r.ansi_spec() == self.ansi_spec(),
            r.tab_dict() == self.tab_dict(),
    {
        Reedline { edit_mode, ..self }
    }

    /// The prompt style matching the active edit mode.
    pub fn prompt_edit_mode(&self) -> (r: PromptEditMode)
        ensures
            r == PromptEditMode::Emacs,
    {
        self.edit_mode.edit_mode()
    }

    /// The active input mode.
    pub fn input_mode(&self) -> (r: InputMode)
        ensures
            r == self.mode_spec(),
    {
        self.input_mode
    }

    /// The editor, for observation.
    pub fn editor(&self) -> (r: &Editor)
        ensures
            r@ == self.editor_view(),
    {
        &self.editor
    }

    /// The history, for observation.
    pub fn history(&self) -> (r: &History)
        ensures
            r@ == self.history_view(),
    {
        &self.history
    }

    /// Hands the queued paint operations to the frontend.
    pub fn take_paint_ops(&mut self) -> (ops: Vec<PaintOp>)
        ensures
            ops@ == old(self).ops(),
            final(self).ops() == Seq::<PaintOp>::empty(),
            final(self).editor_view() == old(self).editor_view(),
            final(self).history_view() == old(self).history_view(),
            final(self).mode_spec() == old(self).mode_spec(),
            old(self).wf() ==> final(self).wf(),
    {
        self.painter.take_ops()
    }

    /// Records new terminal dimensions for the wrap heuristic.
    pub fn set_terminal_size(&mut self, width: u16, height: u16)
        ensures
            final(self).screen_width() == width,
            final(self).screen_height() == height,
            final(self).editor_view() == old(self).editor_view(),
            final(self).history_view() == old(self).history_view(),
            final(self).mode_spec() == old(self).mode_spec(),
            final(self).hint_spec() == old(self).hint_spec(),
            final(self).ops() == old(self).ops(),
            old(self).wf() ==> final(self).wf(),
    {
        self.painter.handle_resize(width, height);
    }

    /// Queues a clear of the whole screen.
    pub fn clear_screen(&mut self)
        ensures
            final(self).ops() == old(self).ops().push(PaintOp::ClearScreen),
            final(self).editor_view() == old(self).editor_view(),
            final(self).history_view() == old(self).history_view(),
            final(self).mode_spec() == old(self).mode_spec(),
            old(self).wf() ==> final(self).wf(),
    {
        self.painter.clear_screen();
    }

    /// Based on the current buffer, the content that shall be painted: the
    /// buffer split at the cursor, and the freshly computed hint (hints are
    /// suppressed outside regular mode).
    fn prepare_buffer_content(&mut self) -> (r: ((String, String), String))
        requires
            old(self).wf(),
        ensures
            final(self).wf(),
            r.0.0@ == old(self).editor_view().buf.text.subrange(0, old(self).editor_view().buf.cur),
            r.0.1@ == old(self).editor_view().buf.text.subrange(
                old(self).editor_view().buf.cur,
                old(self).editor_view().buf.text.len() as int,
            ),
            final(self).editor_view() == old(self).editor_view(),
            final(self).history_view() == old(self).history_view(),
            final(self).mode_spec() == old(self).mode_spec(),
            final(self).ops() == old(self).ops(),
            old(self).mode_spec() != InputMode::Regular ==> r.1@ == Seq::<char>::empty()
                && final(self).hint_spec() == old(self).hint_spec(),
            old(self).mode_spec() == InputMode::Regular ==> final(self).hint_spec() == old(
                self,
            ).computed_hint(old(self).editor_view().buf.text, old(self).editor_view().buf.cur),
            final(self).computed_hint(old(self).editor_view().buf.text, old(self).editor_view().buf.cur)
                == old(self).computed_hint(old(self).editor_view().buf.text, old(self).editor_view().buf.cur),
            displayed_hint_ok(
                r.1@,
                shown_hint_source(*old(self), old(self).editor_view().buf),
                old(self).ansi_spec(),
            ),
            final(self).ansi_spec() == old(self).ansi_spec(),
            final(self).screen_width() == old(self).screen_width(),
            final(self).screen_height() == old(self).screen_height(),
    {
        let cursor = self.editor.offset();
        let buffer = self.editor.get_buffer();
        let highlighted = self.highlighter.highlight(buffer.as_str(), cursor);
        let hint: String = if matches!(self.input_mode, InputMode::Regular) {
            self.hinter.handle(buffer.as_str(), cursor, &self.history, self.use_ansi_coloring)
        } else {
            String::new()
        };
        (highlighted, hint)
    }

    /// Queues a redraw of the buffer region.
    fn buffer_paint(&mut self)
        requires
            old(self).wf(),
        ensures
            final(self).wf(),
            final(self).editor_view() == old(self).editor_view(),
            final(self).history_view() == old(self).history_view(),
            final(self).mode_spec() == old(self).mode_spec(),
            final(self).ops().len() == old(self).ops().len() + 1,
            old(self).ops().is_prefix_of(final(self).ops()),
            is_buffer_paint_of(
                final(self).ops().last(),
                old(self).editor_view().buf,
                shown_hint_source(*old(self), old(self).editor_view().buf),
                old(self).ansi_spec(),
            ),
            old(self).mode_spec() == InputMode::Regular ==> final(self).hint_spec() == old(
                self,
            ).computed_hint(old(self).editor_view().buf.text, old(self).editor_view().buf.cur),
            final(self).ansi_spec() == old(self).ansi_spec(),
            final(self).screen_width() == old(self).screen_width(),
            final(self).screen_height() == old(self).screen_height(),
    {
        let ((before, after), hint) = self.prepare_buffer_content();
        self.painter.queue_buffer(before, after, hint);
        proof {
            assert(old(self).ops().is_prefix_of(self.ops())) by {
                assert(self.ops().subrange(0, old(self).ops().len() as int) =~= old(self).ops());
            }
        }
    }

    /// Queues a full redraw: prompt, mode indicator, buffer and hint.
    pub fn full_repaint(&mut self)
        requires
            old(self).wf(),
        ensures
            final(self).wf(),
            final(self).editor_view() == old(self).editor_view(),
            final(self).history_view() == old(self).history_view(),
            final(self).mode_spec() == old(self).mode_spec(),
            final(self).ops().len() == old(self).ops().len() + 1,
            old(self).ops().is_prefix_of(final(self).ops()),
            is_full_repaint_of(
                final(self).ops().last(),
                old(self).editor_view().buf,
                shown_hint_source(*old(self), old(self).editor_view().buf),
                old(self).ansi_spec(),
            ),
            old(self).mode_spec() == InputMode::Regular ==> final(self).hint_spec() == old(
                self,
            ).computed_hint(old(self).editor_view().buf.text, old(self).editor_view().buf.cur),
            final(self).ansi_spec() == old(self).ansi_spec(),
            final(self).screen_width() == old(self).screen_width(),
            final(self).screen_height() == old(self).screen_height(),
    {
        let prompt_mode = self.prompt_edit_mode();
        let ((before, after), hint) = self.prepare_buffer_content();
        self.painter.repaint_everything(prompt_mode, before, after, hint);
        proof {
            assert(old(self).ops().is_prefix_of(self.ops())) by {
                assert(self.ops().subrange(0, old(self).ops().len() as int) =~= old(self).ops());
            }
        }
    }

    /// Queues a redraw of the reverse-search indicator: the search term, a
    /// failing marker when a non-empty term matches nothing, and the matched
    /// entry (or a cleared result line).
    fn history_search_paint(&mut self)
        requires
            old(self).wf(),
        ensures
            final(self).wf(),
            final(self).editor_view() == old(self).editor_view(),
            final(self).history_view() == old(self).history_view(),
            final(self).mode_spec() == old(self).mode_spec(),
            old(self).ops().is_prefix_of(final(self).ops()),
            old(self).history_view().query matches NavQuery::Substring(_) ==> final(self).ops().len() == old(self).ops().len() + 1 && is_search_paint_of(
                final(self).ops().last(),
                old(self).history_view(),
            ),
            !(old(self).history_view().query matches NavQuery::Substring(_)) ==> final(self).ops()
                == old(self).ops(),
            final(self).hint_spec() == old(self).hint_spec(),
            final(self).ansi_spec() == old(self).ansi_spec(),
            final(self).screen_width() == old(self).screen_width(),
            final(self).screen_height() == old(self).screen_height(),
    {
        let navigation = self.history.get_navigation();
        match navigation {
            HistoryNavigationQuery::SubstringSearch(substring) => {
                let at_cursor = self.history.string_at_cursor();
                let failing = substring.unicode_len() > 0 && at_cursor.is_none();
                let status = if failing {
                    PromptHistorySearchStatus::Failing
                } else {
                    PromptHistorySearchStatus::Passing
                };
                let search = PromptHistorySearch::new(status, substring);
                self.painter.queue_history_search(search, at_cursor);
                proof {
                    assert(old(self).ops().is_prefix_of(self.ops())) by {
                        assert(self.ops().subrange(0, old(self).ops().len() as int) =~= old(
                            self,
                        ).ops());
                    }
                }
            },
            _ => {
                proof {
                    assert(old(self).ops().is_prefix_of(self.ops())) by {
                        assert(self.ops().subrange(0, old(self).ops().len() as int) =~= old(
                            self,
                        ).ops());
                    }
                }
            },
        }
    }

    /// A partial repaint: the search indicator in history-search mode, the
    /// buffer region otherwise.
    pub fn repaint(&mut self)
        requires
            old(self).wf(),
        ensures
            final(self).wf(),
            final(self).editor_view() == old(self).editor_view(),
            final(self).history_view() == old(self).history_view(),
            final(self).mode_spec() == old(self).mode_spec(),
            old(self).ops().is_prefix_of(final(self).ops()),
            old(self).mode_spec() != InputMode::HistorySearch ==> final(self).ops().len() == old(
                self,
            ).ops().len() + 1 && is_buffer_paint_of(
                final(self).ops().last(),
                old(self).editor_view().buf,
                shown_hint_source(*old(self), old(self).editor_view().buf),
                old(self).ansi_spec(),
            ),
            old(self).mode_spec() == InputMode::HistorySearch && (
            old(self).history_view().query matches NavQuery::Substring(_)) ==> final(self).ops().len() == old(self).ops().len() + 1 && is_search_paint_of(
                final(self).ops().last(),
                old(self).history_view(),
            ),
            old(self).mode_spec() == InputMode::HistorySearch && !(
            old(self).history_view().query matches NavQuery::Substring(_)) ==> final(self).ops()
                == old(self).ops(),
            old(self).mode_spec() == InputMode::Regular ==> final(self).hint_spec() == old(
                self,
            ).computed_hint(old(self).editor_view().buf.text, old(self).editor_view().buf.cur),
            final(self).ansi_spec() == old(self).ansi_spec(),
            final(self).screen_width() == old(self).screen_width(),
            final(self).screen_height() == old(self).screen_height(),
    {
        if matches!(self.input_mode, InputMode::HistorySearch) {
            self.history_search_paint();
        } else {
            self.buffer_paint();
        }
    }

    /// Queues a wrap-aware redraw after the line reached the terminal's
    /// right edge.
    fn handle_wrap(&mut self)
        requires
            old(self).wf(),
        ensures
            final(self).wf(),
            final(self).editor_view() == old(self).editor_view(),
            final(self).history_view() == old(self).history_view(),
            final(self).mode_spec() == old(self).mode_spec(),
            old(self).ops().is_prefix_of(final(self).ops()),
            final(self).ops().len() == old(self).ops().len() + 1,
            is_wrap_paint_of(
                final(self).ops().last(),
                old(self).editor_view().buf,
                shown_hint_source(*old(self), old(self).editor_view().buf),
                old(self).ansi_spec(),
            ),
            final(self).ansi_spec() == old(self).ansi_spec(),
            final(self).screen_width() == old(self).screen_width(),
            final(self).screen_height() == old(self).screen_height(),
    {
        let ((before, after), hint) = self.prepare_buffer_content();
        self.painter.wrap(before, after, hint);
        proof {
            assert(old(self).ops().is_prefix_of(self.ops())) by {
                assert(self.ops().subrange(0, old(self).ops().len() as int) =~= old(self).ops());
            }
        }
    }
}

} // verus!

verus! {

/// What entering older/newer history from the given state leaves behind:
/// traversal mode, the query chosen on entry (kept when already traversing),
/// the cursor stepped by `back` (or `forward`), and the buffer showing the
/// selected entry or the query's fallback.
pub open spec fn history_step_post(
    c_ed: EditorState,
    c_mode: InputMode,
    c_hist: HistoryState,
    f_ed: EditorState,
    f_mode: InputMode,
    f_hist: HistoryState,
    backward: bool,
) -> bool {
    let q = if c_mode != InputMode::HistoryTraversal {
        chosen_query(c_ed.buf)
    } else {
        c_hist.query
    };
    let start = if c_mode != InputMode::HistoryTraversal {
        c_hist.entries.len() as int
    } else {
        c_hist.cursor
    };
    let after = if backward {
        back_cursor(q, c_hist.entries, start)
    } else {
        forward_cursor(q, c_hist.entries, start)
    };
    &&& f_mode == InputMode::HistoryTraversal
    &&& f_hist.entries == c_hist.entries
    &&& f_hist.query == q
    &&& f_hist.cursor == after
    &&& f_ed == (EditorState {
        buf: history_display_buffer(q, c_hist.entries, after, c_ed.buf),
        ..c_ed
    })
}

impl Reedline {
    /// Appends the current buffer to the history.
    fn append_to_history(&mut self)
        requires
            old(self).wf(),
        ensures
            final(self).wf(),
            final(self).history_view() == (HistoryState {
                entries: old(self).history_view().entries.push(old(self).editor_view().buf.text),
                cursor: old(self).history_view().entries.len() + 1 as int,
                ..old(self).history_view()
            }),
            final(self).editor_view() == old(self).editor_view(),
            final(self).mode_spec() == old(self).mode_spec(),
            final(self).ops() == old(self).ops(),
            final(self).ansi_spec() == old(self).ansi_spec(),
    {
        let buffer = self.editor.get_buffer();
        self.history.append(buffer);
    }

    /// Places the buffer cursor at the given character offset.
    fn set_offset(&mut self, pos: usize)
        requires
            old(self).wf(),
            pos <= old(self).editor_view().buf.text.len(),
        ensures
            final(self).wf(),
            final(self).editor_view() == (EditorState {
                buf: BufState { text: old(self).editor_view().buf.text, cur: pos as int },
                ..old(self).editor_view()
            }),
            final(self).history_view() == old(self).history_view(),
            final(self).mode_spec() == old(self).mode_spec(),
            final(self).ops() == old(self).ops(),
            final(self).ansi_spec() == old(self).ansi_spec(),
    {
        self.editor.set_insertion_point(pos);
    }

    /// Chooses the navigation query for a plain history step: plain walking
    /// when the buffer is empty or the cursor stands mid-line, else a prefix
    /// search seeded from the whole buffer.
    fn set_history_navigation_based_on_line_buffer(&mut self)
        requires
            old(self).wf(),
        ensures
            final(self).wf(),
            final(self).history_view() == (HistoryState {
                query: chosen_query(old(self).editor_view().buf),
                cursor: old(self).history_view().entries.len() as int,
                ..old(self).history_view()
            }),
            final(self).editor_view() == old(self).editor_view(),
            final(self).mode_spec() == old(self).mode_spec(),
            final(self).ops() == old(self).ops(),
            final(self).ansi_spec() == old(self).ansi_spec(),
    {
        let empty = self.editor.is_empty();
        let count = self.editor.char_count();
        let at_end = self.editor.offset() == count;
        if empty || !at_end {
            let snapshot = self.editor.clone_line_buffer();
            self.history.set_navigation(HistoryNavigationQuery::Normal(snapshot));
        } else {
            let buffer = self.editor.get_buffer();
            self.history.set_navigation(HistoryNavigationQuery::PrefixSearch(buffer));
        }
    }

    /// Switches into reverse history search mode, with an empty search
    /// string.
    fn enter_history_search(&mut self)
        requires
            old(self).wf(),
        ensures
            final(self).wf(),
            final(self).mode_spec() == InputMode::HistorySearch,
            final(self).history_view() == (HistoryState {
                query: NavQuery::Substring(Seq::<char>::empty()),
                cursor: old(self).history_view().entries.len() as int,
                ..old(self).history_view()
            }),
            final(self).editor_view() == old(self).editor_view(),
            final(self).ops() == old(self).ops(),
            final(self).ansi_spec() == old(self).ansi_spec(),
    {
        self.input_mode = InputMode::HistorySearch;
        self.history.set_navigation(HistoryNavigationQuery::SubstringSearch(String::new()));
    }

    /// Sets the buffer contents from the history for traversal in the
    /// standard prompt: the selected entry with the cursor at its end, or
    /// the query's fallback past the newest entry.
    fn update_buffer_from_history(&mut self)
        requires
            old(self).wf(),
        ensures
            final(self).wf(),
            final(self).editor_view() == (EditorState {
                buf: history_display_buffer(
                    old(self).history_view().query,
                    old(self).history_view().entries,
                    old(self).history_view().cursor,
                    old(self).editor_view().buf,
                ),
                ..old(self).editor_view()
            }),
            final(self).history_view() == old(self).history_view(),
            final(self).mode_spec() == old(self).mode_spec(),
            final(self).ops() == old(self).ops(),
            final(self).ansi_spec() == old(self).ansi_spec(),
    {
        match self.history.string_at_cursor() {
            Some(buffer_to_paint) => {
                self.editor.set_buffer(buffer_to_paint);
                let n = self.editor.char_count();
                self.set_offset(n);
            },
            None => {
                match self.history.get_navigation() {
                    HistoryNavigationQuery::Normal(original) => {
                        self.editor.set_line_buffer(original);
                    },
                    HistoryNavigationQuery::PrefixSearch(prefix) => {
                        self.editor.set_buffer(prefix);
                        self.editor.move_to_end();
                    },
                    HistoryNavigationQuery::SubstringSearch(_) => {},
                }
            },
        }
    }

    /// Steps to the previous (older) history entry, entering traversal mode
    /// and choosing the query first when coming from another mode.
    pub fn previous_history(&mut self)
        requires
            old(self).wf(),
        ensures
            final(self).wf(),
            history_step_post(
                old(self).editor_view(),
                old(self).mode_spec(),
                old(self).history_view(),
                final(self).editor_view(),
                final(self).mode_spec(),
                final(self).history_view(),
                true,
            ),
            final(self).ops() == old(self).ops(),
            final(self).ansi_spec() == old(self).ansi_spec(),
    {
        if !matches!(self.input_mode, InputMode::HistoryTraversal) {
            self.input_mode = InputMode::HistoryTraversal;
            self.set_history_navigation_based_on_line_buffer();
        }
        self.history.back();
        self.update_buffer_from_history();
    }

    /// Steps to the next (newer) history entry, entering traversal mode and
    /// choosing the query first when coming from another mode.
    pub fn next_history(&mut self)
        requires
            old(self).wf(),
        ensures
            final(self).wf(),
            history_step_post(
                old(self).editor_view(),
                old(self).mode_spec(),
                old(self).history_view(),
                final(self).editor_view(),
                final(self).mode_spec(),
                final(self).history_view(),
                false,
            ),
            final(self).ops() == old(self).ops(),
            final(self).ansi_spec() == old(self).ansi_spec(),
    {
        if !matches!(self.input_mode, InputMode::HistoryTraversal) {
            self.input_mode = InputMode::HistoryTraversal;
            self.set_history_navigation_based_on_line_buffer();
        }
        self.history.forward();
        self.update_buffer_from_history();
    }

    /// Moves up a line, or to the previous history entry on the first line.
    pub fn up_command(&mut self)
        requires
            old(self).wf(),
        ensures
            final(self).wf(),
            line_start_of(old(self).editor_view().buf.text, old(self).editor_view().buf.cur) == 0
                ==> history_step_post(
                old(self).editor_view(),
                old(self).mode_spec(),
                old(self).history_view(),
                final(self).editor_view(),
                final(self).mode_spec(),
                final(self).history_view(),
                true,
            ),
            line_start_of(old(self).editor_view().buf.text, old(self).editor_view().buf.cur) != 0
                ==> {
                &&& final(self).editor_view() == (EditorState {
                    buf: move_line_up_st(old(self).editor_view().buf),
                    ..old(self).editor_view()
                })
                &&& final(self).history_view() == old(self).history_view()
                &&& final(self).mode_spec() == old(self).mode_spec()
            },
            final(self).ops() == old(self).ops(),
            final(self).ansi_spec() == old(self).ansi_spec(),
    {
        if self.editor.is_cursor_at_first_line() {
            self.previous_history();
        } else {
            self.editor.move_line_up();
        }
    }

    /// Moves down a line, or to the next history entry on the last line.
    pub fn down_command(&mut self)
        requires
            old(self).wf(),
        ensures
            final(self).wf(),
            line_end_of(old(self).editor_view().buf.text, old(self).editor_view().buf.cur) == old(
                self,
            ).editor_view().buf.text.len() ==> history_step_post(
                old(self).editor_view(),
                old(self).mode_spec(),
                old(self).history_view(),
                final(self).editor_view(),
                final(self).mode_spec(),
                final(self).history_view(),
                false,
            ),
            line_end_of(old(self).editor_view().buf.text, old(self).editor_view().buf.cur) != old(
                self,
            ).editor_view().buf.text.len() ==> {
                &&& final(self).editor_view() == (EditorState {
                    buf: move_line_down_st(old(self).editor_view().buf),
                    ..old(self).editor_view()
                })
                &&& final(self).history_view() == old(self).history_view()
                &&& final(self).mode_spec() == old(self).mode_spec()
            },
            final(self).ops() == old(self).ops(),
            final(self).ansi_spec() == old(self).ansi_spec(),
    {
        if self.editor.is_cursor_at_last_line() {
            self.next_history();
        } else {
            self.editor.move_line_down();
        }
    }

    /// Executes the edit commands of one batch against the buffer. Coming
    /// from history traversal, the displayed entry is materialized into the
    /// buffer first and the mode drops back to regular input. After each
    /// command its undo policy runs, and an insertion that reaches the right
    /// edge queues a wrap-aware redraw before the partial one.
    pub fn run_edit_commands(&mut self, commands: &[EditCommand])
        requires
            old(self).wf(),
        ensures
            final(self).wf(),
            final(self).editor_view() == run_commands_st(
                materialized(
                    old(self).editor_view(),
                    old(self).mode_spec(),
                    old(self).history_view(),
                ),
                commands@,
            ),
            final(self).mode_spec() == mode_after_commands(old(self).mode_spec()),
            final(self).history_view() == old(self).history_view(),
            old(self).ops().is_prefix_of(final(self).ops()),
            final(self).ansi_spec() == old(self).ansi_spec(),
    {
        if matches!(self.input_mode, InputMode::HistoryTraversal) {
            match self.history.string_at_cursor() {
                Some(buffer_to_paint) => {
                    self.editor.set_buffer(buffer_to_paint);
                    let n = self.editor.char_count();
                    self.set_offset(n);
                },
                None => {
                    match self.history.get_navigation() {
                        HistoryNavigationQuery::Normal(original) => {
                            self.editor.set_line_buffer(original);
                        },
                        HistoryNavigationQuery::PrefixSearch(prefix) => {
                            self.editor.set_buffer(prefix);
                            self.editor.move_to_end();
                        },
                        HistoryNavigationQuery::SubstringSearch(_) => {},
                    }
                },
            }
            self.input_mode = InputMode::Regular;
        }
        proof {
            assert(self.editor_view() == materialized(
                old(self).editor_view(),
                old(self).mode_spec(),
                old(self).history_view(),
            ));
            assert(self.ops().subrange(0, old(self).ops().len() as int) =~= old(self).ops());
        }
        let ghost start = self.editor_view();
        let n = commands.len();
        let mut i: usize = 0;
        while i < n
            invariant
                i <= n,
                n == commands@.len(),
                self.wf(),
                self.editor_view() == run_commands_st(start, commands@.subrange(0, i as int)),
                self.mode_spec() == mode_after_commands(old(self).mode_spec()),
                self.history_view() == old(self).history_view(),
                old(self).ops().is_prefix_of(self.ops()),
                self.ansi_spec() == old(self).ansi_spec(),
            decreases n - i,
        {
            let ghost pre = self.editor_view();
            let ghost mid_ops = self.ops();
            proof {
                assert(commands@.subrange(0, i as int).push(commands@[i as int])
                    =~= commands@.subrange(0, i + 1));
            }
            let cmd = &commands[i];
            match cmd {
                EditCommand::MoveToStart => self.editor.move_to_start(),
                EditCommand::MoveToEnd => self.editor.move_to_end(),
                EditCommand::MoveToLineStart => self.editor.move_to_line_start(),
                EditCommand::MoveToLineEnd => self.editor.move_to_line_end(),
                EditCommand::MoveLeft => self.editor.move_left(),
                EditCommand::MoveRight => self.editor.move_right(),
                EditCommand::MoveWordLeft => self.editor.move_word_left(),
                EditCommand::MoveWordRight => self.editor.move_word_right(),
                EditCommand::InsertChar(c) => {
                    self.editor.insert_char(*c);
                    let cursor = self.editor.offset();
                    if self.painter.require_wrapping(cursor) {
                        self.handle_wrap();
                    }
                    self.repaint();
                },
                EditCommand::InsertString(s) => {
                    self.editor.insert_str(s.as_str());
                    let cursor = self.editor.offset();
                    if self.painter.require_wrapping(cursor) {
                        self.handle_wrap();
                    }
                    self.repaint();
                },
                EditCommand::Backspace => self.editor.backspace(),
                EditCommand::Delete => self.editor.delete(),
                EditCommand::BackspaceWord => self.editor.backspace_word(),
                EditCommand::DeleteWord => self.editor.delete_word(),
                EditCommand::Clear => self.editor.clear(),
                EditCommand::ClearToLineEnd => self.editor.clear_to_line_end(),
                EditCommand::CutCurrentLine => self.editor.cut_current_line(),
                EditCommand::CutFromStart => self.editor.cut_from_start(),
                EditCommand::CutFromLineStart => self.editor.cut_from_line_start(),
                EditCommand::CutToEnd => self.editor.cut_from_end(),
                EditCommand::CutToLineEnd => self.editor.cut_to_line_end(),
                EditCommand::CutWordLeft => self.editor.cut_word_left(),
                EditCommand::CutWordRight => self.editor.cut_word_right(),
                EditCommand::PasteCutBufferBefore => self.editor.insert_cut_buffer_before(),
                EditCommand::PasteCutBufferAfter => self.editor.insert_cut_buffer_after(),
                EditCommand::UppercaseWord => self.editor.uppercase_word(),
                EditCommand::LowercaseWord => self.editor.lowercase_word(),
                EditCommand::CapitalizeChar => self.editor.capitalize_char(),
                EditCommand::SwapWords => self.editor.swap_words(),
                EditCommand::SwapGraphemes => self.editor.swap_graphemes(),
                EditCommand::Undo => self.editor.undo(),
                EditCommand::Redo => self.editor.redo(),
                EditCommand::CutRightUntil(c) => self.editor.cut_right_until_char(*c, false),
                EditCommand::CutRightBefore(c) => self.editor.cut_right_until_char(*c, true),
                EditCommand::MoveRightUntil(c) => self.editor.move_right_until_char(*c, false),
                EditCommand::MoveRightBefore(c) => self.editor.move_right_until_char(*c, true),
                EditCommand::CutLeftUntil(c) => self.editor.cut_left_until_char(*c, false),
                EditCommand::CutLeftBefore(c) => self.editor.cut_left_until_char(*c, true),
                EditCommand::MoveLeftUntil(c) => self.editor.move_left_until_char(*c, false),
                EditCommand::MoveLeftBefore(c) => self.editor.move_left_until_char(*c, true),
            }
            proof {
                assert(self.editor_view() == command_effect(pre, commands@[i as int]));
                lemma_prefix_trans(old(self).ops(), mid_ops, self.ops());
            }
            let ghost mid_ops2 = self.ops();
            match cmd.undo_behavior() {
                UndoBehavior::Ignore => self.editor.close_undo_group(),
                UndoBehavior::Full => self.editor.remember_undo_state(true),
                UndoBehavior::Coalesce => self.editor.remember_undo_state(false),
            }
            proof {
                assert(self.editor_view() == step_command(pre, commands@[i as int]));
                lemma_run_commands_snoc(start, commands@.subrange(0, i as int), commands@[i as int]);
                assert(self.ops() == mid_ops2);
            }
            i = i + 1;
        }
        proof {
            assert(commands@.subrange(0, n as int) =~= commands@);
        }
    }
}

/// A prefix of a prefix is a prefix.
proof fn lemma_prefix_trans(a: Seq<PaintOp>, b: Seq<PaintOp>, c: Seq<PaintOp>)
    requires
        a.is_prefix_of(b),
        b.is_prefix_of(c),
    ensures
        a.is_prefix_of(c),
{
    assert(c.subrange(0, a.len() as int) =~= a);
}

} // verus!

verus! {

/// The effect of one edit command on the reverse-search state: a character
/// insert extends the needle (or starts one) and re-searches from the top, a
/// backspace shortens it and re-searches, and any other command aborts the
/// search back to regular input.
pub open spec fn search_step(mode: InputMode, hist: HistoryState, cmd: EditCommand) -> (
    InputMode,
    HistoryState,
) {
    match cmd {
        EditCommand::InsertChar(c) => {
            let needle = match hist.query {
                NavQuery::Substring(s) => s.push(c),
                _ => seq![c],
            };
            let fresh = HistoryState {
                query: NavQuery::Substring(needle),
                cursor: hist.entries.len() as int,
                ..hist
            };
            (
                mode,
                HistoryState {
                    cursor: back_cursor(fresh.query, fresh.entries, fresh.cursor),
                    ..fresh
                },
            )
        },
        EditCommand::Backspace => match hist.query {
            NavQuery::Substring(s) => {
                let needle = if s.len() > 0 {
                    s.subrange(0, s.len() - 1)
                } else {
                    s
                };
                let fresh = HistoryState {
                    query: NavQuery::Substring(needle),
                    cursor: hist.entries.len() as int,
                    ..hist
                };
                (
                    mode,
                    HistoryState {
                        cursor: back_cursor(fresh.query, fresh.entries, fresh.cursor),
                        ..fresh
                    },
                )
            },
            _ => (mode, hist),
        },
        _ => (InputMode::Regular, hist),
    }
}

/// A whole batch of commands against the reverse-search state, in order.
pub open spec fn run_search_commands(
    mode: InputMode,
    hist: HistoryState,
    cmds: Seq<EditCommand>,
) -> (InputMode, HistoryState)
    decreases cmds.len(),
{
    if cmds.len() == 0 {
        (mode, hist)
    } else {
        let prev = run_search_commands(mode, hist, cmds.drop_last());
        search_step(prev.0, prev.1, cmds.last())
    }
}

impl Reedline {
    /// Dispatches the applicable edit commands for editing the history
    /// search string: see [`search_step`]. Only internal state changes; no
    /// repaint is queued.
    pub fn run_history_commands(&mut self, commands: &[EditCommand])
        requires
            old(self).wf(),
        ensures
            final(self).wf(),
            (final(self).mode_spec(), final(self).history_view()) == run_search_commands(
                old(self).mode_spec(),
                old(self).history_view(),
                commands@,
            ),
            final(self).editor_view() == old(self).editor_view(),
            final(self).ops() == old(self).ops(),
            final(self).ansi_spec() == old(self).ansi_spec(),
    {
        let n = commands.len();
        let mut i: usize = 0;
        proof {
            assert(commands@.subrange(0, 0) =~= Seq::<EditCommand>::empty());
        }
        while i < n
            invariant
                i <= n,
                n == commands@.len(),
                self.wf(),
                (self.mode_spec(), self.history_view()) == run_search_commands(
                    old(self).mode_spec(),
                    old(self).history_view(),
                    commands@.subrange(0, i as int),
                ),
                self.editor_view() == old(self).editor_view(),
                self.ops() == old(self).ops(),
                self.ansi_spec() == old(self).ansi_spec(),
            decreases n - i,
        {
            proof {
                assert(commands@.subrange(0, i + 1).drop_last() =~= commands@.subrange(0, i as int));
                assert(commands@.subrange(0, i + 1).last() == commands@[i as int]);
            }
            let cmd = &commands[i];
            match cmd {
                EditCommand::InsertChar(c) => {
                    let navigation = self.history.get_navigation();
                    match navigation {
                        HistoryNavigationQuery::SubstringSearch(substring) => {
                            let mut chars = crate::text_manipulation::chars_of(substring.as_str());
                            chars.push(*c);
                            let grown = crate::text_manipulation::string_from_chars(&chars);
                            self.history.set_navigation(
                                HistoryNavigationQuery::SubstringSearch(grown),
                            );
                        },
                        _ => {
                            let mut chars: Vec<char> = Vec::new();
                            chars.push(*c);
                            let started = crate::text_manipulation::string_from_chars(&chars);
                            proof {
                                assert(chars@ =~= seq![*c]);
                            }
                            self.history.set_navigation(
                                HistoryNavigationQuery::SubstringSearch(started),
                            );
                        },
                    }
                    self.history.back();
                },
                EditCommand::Backspace => {
                    let navigation = self.history.get_navigation();
                    match navigation {
                        HistoryNavigationQuery::SubstringSearch(substring) => {
                            let shrunk = crate::text_manipulation::remove_last_grapheme(
                                substring.as_str(),
                            );
                            self.history.set_navigation(
                                HistoryNavigationQuery::SubstringSearch(shrunk),
                            );
                            self.history.back();
                        },
                        _ => {},
                    }
                },
                _ => {
                    self.input_mode = InputMode::Regular;
                },
            }
            i = i + 1;
        }
        proof {
            assert(commands@.subrange(0, n as int) =~= commands@);
        }
    }
}

} // verus!

verus! {

/// The hint a freshly queued paint operation was computed from: the stored
/// hint in regular mode, nothing in the other modes.
pub open spec fn posted_hint(post: Reedline) -> Seq<char> {
    if post.mode_spec() == InputMode::Regular {
        post.hint_spec()
    } else {
        Seq::<char>::empty()
    }
}

/// The whole effect of dispatching one event in reverse-search mode: for
/// every event, the resulting editor, history, mode, signal, and what the
/// paint queue gained. `pre` and `post` are the engine before and after.
pub open spec fn search_event_post(
    pre: Reedline,
    post: Reedline,
    event: ReedlineEvent,
    signal: Option<Signal>,
) -> bool {
    &&& (event == ReedlineEvent::CtrlD && pre.editor_view().buf.text.len() == 0 ==> {
        &&& signal == Some(Signal::CtrlD)
        &&& post.mode_spec() == InputMode::Regular
        &&& post.editor_view() == reset_undo_st(pre.editor_view())
        &&& post.history_view() == pre.history_view()
        &&& post.ops() == pre.ops()
    })
    &&& (event == ReedlineEvent::CtrlD && pre.editor_view().buf.text.len() > 0 ==> {
        &&& signal is None
        &&& (post.mode_spec(), post.history_view()) == run_search_commands(
            pre.mode_spec(),
            pre.history_view(),
            seq![EditCommand::Delete],
        )
        &&& post.editor_view() == pre.editor_view()
        &&& post.ops() == pre.ops()
    })
    &&& (event == ReedlineEvent::CtrlC ==> {
        &&& signal == Some(Signal::CtrlC)
        &&& post.mode_spec() == InputMode::Regular
        &&& post.editor_view() == pre.editor_view()
        &&& post.history_view() == pre.history_view()
        &&& post.ops() == pre.ops()
    })
    &&& (event == ReedlineEvent::ClearScreen ==> signal == Some(Signal::CtrlL)
        && post.editor_view() == pre.editor_view() && post.history_view() == pre.history_view()
        && post.mode_spec() == pre.mode_spec() && post.ops() == pre.ops())
    &&& (event == ReedlineEvent::Enter || event == ReedlineEvent::HandleTab ==> {
        &&& signal is None
        &&& post.mode_spec() == InputMode::Regular
        &&& post.history_view() == pre.history_view()
        &&& (pre.history_view().cursor < pre.history_view().entries.len()
            ==> post.editor_view() == checkpoint_effect(
            EditorState {
                buf: BufState {
                    text: pre.history_view().entries[pre.history_view().cursor],
                    cur: if pre.editor_view().buf.cur <= pre.history_view().entries[pre.history_view().cursor].len() {
                        pre.editor_view().buf.cur
                    } else {
                        pre.history_view().entries[pre.history_view().cursor].len() as int
                    },
                },
                ..pre.editor_view()
            },
            UndoBehavior::Full,
        ))
        &&& (pre.history_view().cursor == pre.history_view().entries.len()
            ==> post.editor_view() == pre.editor_view())
        &&& post.ops().len() == pre.ops().len() + 1
        &&& is_full_repaint_of(
            post.ops().last(),
            post.editor_view().buf,
            posted_hint(post),
            pre.ansi_spec(),
        )
    })
    &&& (event matches ReedlineEvent::Edit(cmds) ==> {
        let stepped = run_search_commands(pre.mode_spec(), pre.history_view(), cmds@);
        &&& signal is None
        &&& (post.mode_spec(), post.history_view()) == stepped
        &&& post.editor_view() == pre.editor_view()
        &&& (stepped.0 != InputMode::HistorySearch ==> post.ops().len() == pre.ops().len() + 1
            && is_buffer_paint_of(
            post.ops().last(),
            post.editor_view().buf,
            posted_hint(post),
            pre.ansi_spec(),
        ))
        &&& (stepped.0 == InputMode::HistorySearch && (stepped.1.query matches NavQuery::Substring(
            _,
        )) ==> post.ops().len() == pre.ops().len() + 1 && is_search_paint_of(
            post.ops().last(),
            post.history_view(),
        ))
        &&& (stepped.0 == InputMode::HistorySearch && !(stepped.1.query matches
        NavQuery::Substring(_)) ==> post.ops() == pre.ops())
    })
    &&& (event == ReedlineEvent::PreviousHistory || event == ReedlineEvent::Up || event
        == ReedlineEvent::SearchHistory ==> {
        &&& signal is None
        &&& post.history_view() == (HistoryState {
            cursor: back_cursor(
                pre.history_view().query,
                pre.history_view().entries,
                pre.history_view().cursor,
            ),
            ..pre.history_view()
        })
        &&& post.editor_view() == pre.editor_view()
        &&& post.mode_spec() == pre.mode_spec()
        &&& search_step_repaint(pre, post)
    })
    &&& (event == ReedlineEvent::NextHistory || event == ReedlineEvent::Down ==> {
        &&& signal is None
        &&& post.history_view() == (HistoryState {
            cursor: ({
                let fwd = forward_cursor(
                    pre.history_view().query,
                    pre.history_view().entries,
                    pre.history_view().cursor,
                );
                if fwd < pre.history_view().entries.len() {
                    fwd
                } else {
                    back_cursor(pre.history_view().query, pre.history_view().entries, fwd)
                }
            }),
            ..pre.history_view()
        })
        &&& post.editor_view() == pre.editor_view()
        &&& post.mode_spec() == pre.mode_spec()
        &&& search_step_repaint(pre, post)
    })
    &&& (event == ReedlineEvent::Mouse || event == ReedlineEvent::Noop || (event matches
    ReedlineEvent::Paste(_)) || (event matches ReedlineEvent::Multiple(_)) ==> signal is None
        && post.editor_view() == pre.editor_view() && post.history_view() == pre.history_view()
        && post.mode_spec() == pre.mode_spec() && post.ops() == pre.ops())
    &&& (event == ReedlineEvent::Repaint ==> {
        &&& signal is None
        &&& post.editor_view() == pre.editor_view()
        &&& post.history_view() == pre.history_view()
        &&& post.mode_spec() == pre.mode_spec()
        &&& (pre.mode_spec() == InputMode::HistorySearch ==> post.ops() == pre.ops())
        &&& (pre.mode_spec() != InputMode::HistorySearch ==> post.ops().len() == pre.ops().len()
            + 1 && is_full_repaint_of(
            post.ops().last(),
            post.editor_view().buf,
            posted_hint(post),
            pre.ansi_spec(),
        ))
    })
    &&& (event matches ReedlineEvent::Resize(w, h) ==> {
        &&& signal is None
        &&& post.editor_view() == pre.editor_view()
        &&& post.history_view() == pre.history_view()
        &&& post.mode_spec() == pre.mode_spec()
        &&& post.screen_width() == w
        &&& post.screen_height() == h
        &&& post.ops().len() == pre.ops().len() + 1
        &&& is_full_repaint_of(
            post.ops().last(),
            post.editor_view().buf,
            posted_hint(post),
            pre.ansi_spec(),
        )
    })
}

/// What a partial repaint after a search step queues: the search indicator
/// for the stepped history under a substring query, the buffer region
/// outside search mode, and nothing under another query.
pub open spec fn search_step_repaint(pre: Reedline, post: Reedline) -> bool {
    &&& (pre.mode_spec() != InputMode::HistorySearch ==> post.ops().len() == pre.ops().len() + 1
        && is_buffer_paint_of(
        post.ops().last(),
        post.editor_view().buf,
        posted_hint(post),
        pre.ansi_spec(),
    ))
    &&& (pre.mode_spec() == InputMode::HistorySearch && (post.history_view().query matches
    NavQuery::Substring(_)) ==> post.ops().len() == pre.ops().len() + 1 && is_search_paint_of(
        post.ops().last(),
        post.history_view(),
    ))
    &&& (pre.mode_spec() == InputMode::HistorySearch && !(post.history_view().query matches
    NavQuery::Substring(_)) ==> post.ops() == pre.ops())
}

impl Reedline {
    /// Dispatches one event in reverse-search mode: interrupts end the read,
    /// enter or tab commit the matched entry into the buffer, edit batches
    /// edit the search string, and the step events walk the matches; a
    /// forward step past the newest match immediately steps back, so no dead
    /// position is shown.
    #[verifier::rlimit(60)]
    pub fn handle_history_search_event(&mut self, event: &ReedlineEvent) -> (signal: Option<
        Signal,
    >)
        requires
            old(self).wf(),
        ensures
            final(self).wf(),
            old(self).ops().is_prefix_of(final(self).ops()),
            final(self).ansi_spec() == old(self).ansi_spec(),
            search_event_post(*old(self), *final(self), *event, signal),
    {
        match event {
            ReedlineEvent::CtrlD => {
                if self.editor.is_empty() {
                    self.input_mode = InputMode::Regular;
                    self.editor.reset_undo_stack();
                    Some(Signal::CtrlD)
                } else {
                    let mut commands: Vec<EditCommand> = Vec::new();
                    commands.push(EditCommand::Delete);
                    proof {
                        assert(commands@ =~= seq![EditCommand::Delete]);
                    }
                    self.run_history_commands(commands.as_slice());
                    None
                }
            },
            ReedlineEvent::CtrlC => {
                self.input_mode = InputMode::Regular;
                Some(Signal::CtrlC)
            },
            ReedlineEvent::ClearScreen => Some(Signal::CtrlL),
            ReedlineEvent::Enter | ReedlineEvent::HandleTab => {
                match self.history.string_at_cursor() {
                    Some(string) => {
                        self.editor.set_buffer(string);
                        self.editor.remember_undo_state(true);
                    },
                    None => {},
                }
                self.input_mode = InputMode::Regular;
                self.full_repaint();
                None
            },
            ReedlineEvent::Edit(commands) => {
                self.run_history_commands(commands.as_slice());
                self.repaint();
                None
            },
            ReedlineEvent::Mouse => None,
            ReedlineEvent::Resize(width, height) => {
                self.painter.handle_resize(*width, *height);
                self.full_repaint();
                None
            },
            ReedlineEvent::Repaint => {
                if !matches!(self.input_mode, InputMode::HistorySearch) {
                    self.full_repaint();
                }
                None
            },
            ReedlineEvent::PreviousHistory | ReedlineEvent::Up | ReedlineEvent::SearchHistory => {
                self.history.back();
                self.repaint();
                None
            },
            ReedlineEvent::NextHistory | ReedlineEvent::Down => {
                self.history.forward();
                match self.history.string_at_cursor() {
                    None => {
                        // Do not fall off into a failed search going
                        // forward: step straight back to the newest match.
                        self.history.back();
                    },
                    Some(_) => {},
                }
                self.repaint();
                None
            },
            ReedlineEvent::Paste(_) => {
                // Pasting is defined only for normal editing.
                None
            },
            ReedlineEvent::Multiple(_) => {
                // Multiplied operations are not defined in the search.
                None
            },
            ReedlineEvent::Noop => None,
        }
    }
}

} // verus!

verus! {

broadcast use vstd::std_specs::vec::group_vec_axioms;

/// The whole effect of dispatching one event in regular or traversal mode:
/// for every event, the resulting editor, history, mode, signal, and what
/// the paint queue gained. `pre` and `post` are the engine before and
/// after. The carried events of a paste or multiple wrapper run through
/// this same dispatch one by one (edit batches through the command
/// dispatcher), so only the closing full repaint is pinned here.
pub open spec fn editor_event_post(
    pre: Reedline,
    post: Reedline,
    event: ReedlineEvent,
    signal: Option<Signal>,
) -> bool {
    &&& (event == ReedlineEvent::CtrlD && pre.editor_view().buf.text.len() == 0 ==> {
        &&& signal == Some(Signal::CtrlD)
        &&& post.editor_view() == reset_undo_st(pre.editor_view())
        &&& post.mode_spec() == pre.mode_spec()
        &&& post.history_view() == pre.history_view()
        &&& post.ops() == pre.ops()
    })
    &&& (event == ReedlineEvent::CtrlD && pre.editor_view().buf.text.len() > 0 ==> {
        &&& signal is None
        &&& post.editor_view() == run_commands_st(
            materialized(pre.editor_view(), pre.mode_spec(), pre.history_view()),
            seq![EditCommand::Delete],
        )
        &&& post.mode_spec() == mode_after_commands(pre.mode_spec())
        &&& post.history_view() == pre.history_view()
    })
    &&& (event == ReedlineEvent::CtrlC ==> {
        &&& signal == Some(Signal::CtrlC)
        &&& post.editor_view() == reset_undo_st(
            run_commands_st(
                materialized(pre.editor_view(), pre.mode_spec(), pre.history_view()),
                seq![EditCommand::Clear],
            ),
        )
        &&& post.mode_spec() == mode_after_commands(pre.mode_spec())
        &&& post.history_view() == pre.history_view()
    })
    &&& (event == ReedlineEvent::ClearScreen ==> signal == Some(Signal::CtrlL)
        && post.editor_view() == pre.editor_view() && post.history_view() == pre.history_view()
        && post.mode_spec() == pre.mode_spec() && post.ops() == pre.ops())
    &&& (event == ReedlineEvent::Enter && !incomplete_spec(pre.editor_view().buf.text) ==> {
        &&& signal matches Some(Signal::Success(s)) && s@ == pre.editor_view().buf.text
        &&& post.history_view().entries == pre.history_view().entries.push(
            pre.editor_view().buf.text,
        )
        &&& post.editor_view() == reset_undo_st(
            run_commands_st(
                materialized(
                    pre.editor_view(),
                    pre.mode_spec(),
                    HistoryState {
                        entries: pre.history_view().entries.push(pre.editor_view().buf.text),
                        cursor: pre.history_view().entries.len() + 1 as int,
                        ..pre.history_view()
                    },
                ),
                seq![EditCommand::Clear],
            ),
        )
        &&& post.mode_spec() == mode_after_commands(pre.mode_spec())
        &&& post.ops().len() > pre.ops().len()
        &&& post.ops().last() == PaintOp::Crlf
    })
    &&& (event == ReedlineEvent::Enter && incomplete_spec(pre.editor_view().buf.text) ==> {
        &&& signal is None
        &&& post.editor_view() == run_commands_st(
            materialized(pre.editor_view(), pre.mode_spec(), pre.history_view()),
            seq![EditCommand::InsertChar('\n')],
        )
        &&& post.mode_spec() == mode_after_commands(pre.mode_spec())
        &&& post.history_view() == pre.history_view()
        &&& post.ops().len() > pre.ops().len()
        &&& is_full_repaint_of(
            post.ops().last(),
            post.editor_view().buf,
            posted_hint(post),
            pre.ansi_spec(),
        )
    })
    &&& (event matches ReedlineEvent::Edit(cmds) ==> {
        &&& signal is None
        &&& post.editor_view() == run_commands_st(
            materialized(pre.editor_view(), pre.mode_spec(), pre.history_view()),
            cmds@,
        )
        &&& post.mode_spec() == mode_after_commands(pre.mode_spec())
        &&& post.history_view() == pre.history_view()
        &&& (mode_after_commands(pre.mode_spec()) != InputMode::HistorySearch ==> post.ops().len()
            > pre.ops().len() && is_buffer_paint_of(
            post.ops().last(),
            post.editor_view().buf,
            posted_hint(post),
            pre.ansi_spec(),
        ))
    })
    &&& (event == ReedlineEvent::HandleTab ==> {
        &&& signal is None
        &&& post.mode_spec() == pre.mode_spec()
        &&& post.history_view() == pre.history_view()
        &&& (pre.hint_spec().len() > 0 && pre.mode_spec() == InputMode::Regular
            ==> post.editor_view() == checkpoint_effect(
            EditorState {
                buf: insert_seq_st(clear_to_end_st(pre.editor_view().buf), pre.hint_spec()),
                ..pre.editor_view()
            },
            UndoBehavior::Coalesce,
        ))
        &&& (!(pre.hint_spec().len() > 0 && pre.mode_spec() == InputMode::Regular) ==> {
            &&& post.editor_view().buf == tab_completion_result(
                pre.tab_dict(),
                pre.editor_view().buf,
            )
            &&& post.editor_view().cut == pre.editor_view().cut
            &&& post.editor_view().edits == pre.editor_view().edits
            &&& post.editor_view().index == pre.editor_view().index
            &&& post.editor_view().open_group == pre.editor_view().open_group
        })
        &&& post.ops().len() > pre.ops().len()
        &&& is_full_repaint_of(
            post.ops().last(),
            post.editor_view().buf,
            posted_hint(post),
            pre.ansi_spec(),
        )
    })
    &&& (event == ReedlineEvent::Mouse || event == ReedlineEvent::Noop ==> signal is None
        && post.editor_view() == pre.editor_view() && post.history_view() == pre.history_view()
        && post.mode_spec() == pre.mode_spec() && post.ops() == pre.ops())
    &&& (event matches ReedlineEvent::Resize(w, h) ==> {
        &&& signal is None
        &&& post.editor_view() == pre.editor_view()
        &&& post.history_view() == pre.history_view()
        &&& post.mode_spec() == pre.mode_spec()
        &&& post.screen_width() == w
        &&& post.screen_height() == h
        &&& post.ops().len() == pre.ops().len() + 1
        &&& is_full_repaint_of(
            post.ops().last(),
            post.editor_view().buf,
            posted_hint(post),
            pre.ansi_spec(),
        )
    })
    &&& (event == ReedlineEvent::Repaint ==> {
        &&& signal is None
        &&& post.editor_view() == pre.editor_view()
        &&& post.history_view() == pre.history_view()
        &&& post.mode_spec() == pre.mode_spec()
        &&& (pre.mode_spec() == InputMode::HistorySearch ==> post.ops() == pre.ops())
        &&& (pre.mode_spec() != InputMode::HistorySearch ==> post.ops().len() == pre.ops().len()
            + 1 && is_full_repaint_of(
            post.ops().last(),
            post.editor_view().buf,
            posted_hint(post),
            pre.ansi_spec(),
        ))
    })
    &&& (event == ReedlineEvent::PreviousHistory ==> signal is None && history_step_post(
        pre.editor_view(),
        pre.mode_spec(),
        pre.history_view(),
        post.editor_view(),
        post.mode_spec(),
        post.history_view(),
        true,
    ) && nav_repaint(pre, post))
    &&& (event == ReedlineEvent::NextHistory ==> signal is None && history_step_post(
        pre.editor_view(),
        pre.mode_spec(),
        pre.history_view(),
        post.editor_view(),
        post.mode_spec(),
        post.history_view(),
        false,
    ) && nav_repaint(pre, post))
    &&& (event == ReedlineEvent::Up ==> signal is None && (line_start_of(
        pre.editor_view().buf.text,
        pre.editor_view().buf.cur,
    ) == 0 ==> history_step_post(
        pre.editor_view(),
        pre.mode_spec(),
        pre.history_view(),
        post.editor_view(),
        post.mode_spec(),
        post.history_view(),
        true,
    )) && (line_start_of(pre.editor_view().buf.text, pre.editor_view().buf.cur) != 0
        ==> post.editor_view() == (EditorState {
        buf: move_line_up_st(pre.editor_view().buf),
        ..pre.editor_view()
    }) && post.history_view() == pre.history_view() && post.mode_spec() == pre.mode_spec())
        && nav_repaint(pre, post))
    &&& (event == ReedlineEvent::Down ==> signal is None && (line_end_of(
        pre.editor_view().buf.text,
        pre.editor_view().buf.cur,
    ) == pre.editor_view().buf.text.len() ==> history_step_post(
        pre.editor_view(),
        pre.mode_spec(),
        pre.history_view(),
        post.editor_view(),
        post.mode_spec(),
        post.history_view(),
        false,
    )) && (line_end_of(pre.editor_view().buf.text, pre.editor_view().buf.cur)
        != pre.editor_view().buf.text.len() ==> post.editor_view() == (EditorState {
        buf: move_line_down_st(pre.editor_view().buf),
        ..pre.editor_view()
    }) && post.history_view() == pre.history_view() && post.mode_spec() == pre.mode_spec())
        && nav_repaint(pre, post))
    &&& (event == ReedlineEvent::SearchHistory ==> {
        &&& signal is None
        &&& post.mode_spec() == InputMode::HistorySearch
        &&& post.editor_view() == checkpoint_effect(pre.editor_view(), UndoBehavior::Full)
        &&& post.history_view() == (HistoryState {
            query: NavQuery::Substring(Seq::<char>::empty()),
            cursor: pre.history_view().entries.len() as int,
            ..pre.history_view()
        })
        &&& post.ops().len() == pre.ops().len() + 1
        &&& is_search_paint_of(post.ops().last(), post.history_view())
    })
    &&& ((event matches ReedlineEvent::Paste(_)) || (event matches ReedlineEvent::Multiple(_))
        ==> post.ops().len() > pre.ops().len() && is_full_repaint_of(
        post.ops().last(),
        post.editor_view().buf,
        posted_hint(post),
        pre.ansi_spec(),
    ))
}

/// What follows a history-step event: a full repaint of the recalled
/// buffer.
pub open spec fn nav_repaint(pre: Reedline, post: Reedline) -> bool {
    &&& post.ops().len() == pre.ops().len() + 1
    &&& is_full_repaint_of(
        post.ops().last(),
        post.editor_view().buf,
        posted_hint(post),
        pre.ansi_spec(),
    )
}

impl Reedline {
    /// Dispatches one event in regular or traversal mode, per the engine's
    /// transition table: interrupts end the read (end-of-input deletes
    /// forward on a non-empty buffer), enter submits a complete buffer into
    /// the history or continues an incomplete one with a newline, edit
    /// batches run through the command dispatcher, the step events walk the
    /// history, search entry opens the reverse search, and paste or multiple
    /// wrappers are unwrapped recursively through this same dispatch.
    #[verifier::loop_isolation(false)]
    pub fn handle_editor_event(&mut self, event: &ReedlineEvent) -> (signal: Option<Signal>)
        requires
            old(self).wf(),
        ensures
            final(self).wf(),
            old(self).ops().is_prefix_of(final(self).ops()),
            final(self).ansi_spec() == old(self).ansi_spec(),
            editor_event_post(*old(self), *final(self), *event, signal),
        decreases *event,
    {
        match event {
            ReedlineEvent::HandleTab => {
                let current_hint = self.hinter.current_hint();
                if current_hint.unicode_len() > 0 && matches!(
                    self.input_mode,
                    InputMode::Regular,
                ) {
                    self.editor.clear_to_end();
                    let mut commands: Vec<EditCommand> = Vec::new();
                    commands.push(EditCommand::InsertString(current_hint));
                    self.run_edit_commands(commands.as_slice());
                    proof {
                        let st = EditorState {
                            buf: clear_to_end_st(old(self).editor_view().buf),
                            ..old(self).editor_view()
                        };
                        assert(commands@.drop_first() =~= Seq::<EditCommand>::empty());
                        assert(run_commands_st(
                            step_command(st, commands@[0]),
                            commands@.drop_first(),
                        ) == step_command(st, commands@[0]));
                        assert(run_commands_st(st, commands@) == step_command(st, commands@[0]));
                        assert(undo_behavior_spec(commands@[0]) == UndoBehavior::Coalesce);
                    }
                } else {
                    let line_buffer = self.editor.line_buffer();
                    self.tab_handler.handle(line_buffer);
                }
                self.full_repaint();
                None
            },
            ReedlineEvent::CtrlD => {
                if self.editor.is_empty() {
                    self.editor.reset_undo_stack();
                    Some(Signal::CtrlD)
                } else {
                    let mut commands: Vec<EditCommand> = Vec::new();
                    commands.push(EditCommand::Delete);
                    proof {
                        assert(commands@ =~= seq![EditCommand::Delete]);
                    }
                    self.run_edit_commands(commands.as_slice());
                    None
                }
            },
            ReedlineEvent::CtrlC => {
                let mut commands: Vec<EditCommand> = Vec::new();
                commands.push(EditCommand::Clear);
                proof {
                    assert(commands@ =~= seq![EditCommand::Clear]);
                }
                self.run_edit_commands(commands.as_slice());
                self.editor.reset_undo_stack();
                Some(Signal::CtrlC)
            },
            ReedlineEvent::ClearScreen => Some(Signal::CtrlL),
            ReedlineEvent::Enter => {
                let buffer = self.editor.get_buffer();
                match self.validator.validate(buffer.as_str()) {
                    ValidationResult::Complete => {
                        self.append_to_history();
                        let mut commands: Vec<EditCommand> = Vec::new();
                        commands.push(EditCommand::Clear);
                        proof {
                            assert(commands@ =~= seq![EditCommand::Clear]);
                        }
                        self.run_edit_commands(commands.as_slice());
                        self.painter.print_crlf();
                        self.editor.reset_undo_stack();
                        proof {
                            assert(self.ops().subrange(0, old(self).ops().len() as int) =~= old(
                                self,
                            ).ops());
                        }
                        Some(Signal::Success(buffer))
                    },
                    ValidationResult::Incomplete => {
                        let mut commands: Vec<EditCommand> = Vec::new();
                        commands.push(EditCommand::InsertChar('\n'));
                        proof {
                            assert(commands@ =~= seq![EditCommand::InsertChar('\n')]);
                        }
                        self.run_edit_commands(commands.as_slice());
                        self.full_repaint();
                        None
                    },
                }
            },
            ReedlineEvent::Edit(commands) => {
                self.run_edit_commands(commands.as_slice());
                self.repaint();
                None
            },
            ReedlineEvent::Mouse => None,
            ReedlineEvent::Resize(width, height) => {
                self.painter.handle_resize(*width, *height);
                self.full_repaint();
                None
            },
            ReedlineEvent::Repaint => {
                if !matches!(self.input_mode, InputMode::HistorySearch) {
                    self.full_repaint();
                }
                None
            },
            ReedlineEvent::PreviousHistory => {
                self.previous_history();
                self.full_repaint();
                None
            },
            ReedlineEvent::NextHistory => {
                self.next_history();
                self.full_repaint();
                None
            },
            ReedlineEvent::Up => {
                self.up_command();
                self.full_repaint();
                None
            },
            ReedlineEvent::Down => {
                self.down_command();
                self.full_repaint();
                None
            },
            ReedlineEvent::SearchHistory => {
                // Make sure the result of the reverse search can be undone.
                self.editor.remember_undo_state(true);
                self.enter_history_search();
                self.repaint();
                None
            },
            ReedlineEvent::Paste(events) => {
                let mut latest_signal: Option<Signal> = None;
                let n = events.len();
                let mut i: usize = 0;
                while i < n
                    invariant
                        *event == ReedlineEvent::Paste(*events),
                        n == events@.len(),
                        i <= n,
                        self.wf(),
                        old(self).ops().is_prefix_of(self.ops()),
                        self.ansi_spec() == old(self).ansi_spec(),
                    decreases n - i,
                {
                    let ghost mid_ops = self.ops();
                    match &events[i] {
                        ReedlineEvent::Edit(commands) => {
                            self.run_edit_commands(commands.as_slice());
                        },
                        inner => {
                            proof {
                                assert(decreases_to!(ReedlineEvent::Paste(*events) => *events));
                                assert(decreases_to!(*events => events[i as int]));
                                assert(decreases_to!(*event => events[i as int]));
                            }
                            latest_signal = self.handle_editor_event(inner);
                        },
                    }
                    proof {
                        lemma_prefix_trans(old(self).ops(), mid_ops, self.ops());
                    }
                    i = i + 1;
                }
                self.full_repaint();
                proof {
                    lemma_prefix_trans(old(self).ops(), self.ops().subrange(0, self.ops().len() - 1), self.ops());
                }
                latest_signal
            },
            ReedlineEvent::Multiple(events) => {
                let mut latest_signal: Option<Signal> = None;
                let n = events.len();
                let mut i: usize = 0;
                while i < n
                    invariant
                        *event == ReedlineEvent::Multiple(*events),
                        n == events@.len(),
                        i <= n,
                        self.wf(),
                        old(self).ops().is_prefix_of(self.ops()),
                        self.ansi_spec() == old(self).ansi_spec(),
                    decreases n - i,
                {
                    let ghost mid_ops = self.ops();
                    proof {
                        assert(decreases_to!(ReedlineEvent::Multiple(*events) => *events));
                        assert(decreases_to!(*events => events[i as int]));
                        assert(decreases_to!(*event => events[i as int]));
                    }
                    latest_signal = self.handle_editor_event(&events[i]);
                    proof {
                        lemma_prefix_trans(old(self).ops(), mid_ops, self.ops());
                    }
                    i = i + 1;
                }
                self.full_repaint();
                proof {
                    lemma_prefix_trans(old(self).ops(), self.ops().subrange(0, self.ops().len() - 1), self.ops());
                }
                latest_signal
            },
            ReedlineEvent::Noop => None,
        }
    }

    /// Dispatches one event through the mode state machine: in reverse
    /// search the event edits the search (see
    /// [`Reedline::handle_history_search_event`]), everywhere else it drives
    /// the editor (see [`Reedline::handle_editor_event`]).
    pub fn handle_event(&mut self, event: &ReedlineEvent) -> (signal: Option<Signal>)
        requires
            old(self).wf(),
        ensures
            final(self).wf(),
            old(self).ops().is_prefix_of(final(self).ops()),
            final(self).ansi_spec() == old(self).ansi_spec(),
            dispatch_post(*old(self), *final(self), *event, signal),
    {
        if matches!(self.input_mode, InputMode::HistorySearch) {
            self.handle_history_search_event(event)
        } else {
            self.handle_editor_event(event)
        }
    }
}

/// The whole effect of dispatching one event: it is routed by the mode
/// state machine — handled as a search-string edit in reverse search, as an
/// editor event everywhere else — and the engine stays well formed with the
/// paint queue only growing.
pub open spec fn dispatch_post(
    pre: Reedline,
    post: Reedline,
    event: ReedlineEvent,
    signal: Option<Signal>,
) -> bool {
    &&& post.wf()
    &&& pre.ops().is_prefix_of(post.ops())
    &&& post.ansi_spec() == pre.ansi_spec()
    &&& (pre.mode_spec() == InputMode::HistorySearch ==> search_event_post(
        pre,
        post,
        event,
        signal,
    ))
    &&& (pre.mode_spec() != InputMode::HistorySearch ==> editor_event_post(
        pre,
        post,
        event,
        signal,
    ))
}

} // verus!

verus! {

/// The last resize in a drained burst, if any: only final dimensions matter.
pub open spec fn last_resize(events: Seq<Event>) -> Option<(u16, u16)>
    decreases events.len(),
{
    if events.len() == 0 {
        None
    } else {
        match events.last() {
            Event::Resize(w, h) => Some((w, h)),
            _ => last_resize(events.drop_last()),
        }
    }
}

/// The burst without its resize notifications, in order.
pub open spec fn non_resize(events: Seq<Event>) -> Seq<Event>
    decreases events.len(),
{
    if events.len() == 0 {
        Seq::empty()
    } else {
        non_resize(events.drop_last()) + (match events.last() {
            Event::Resize(_, _) => Seq::<Event>::empty(),
            _ => seq![events.last()],
        })
    }
}

/// Consecutive edit batches merged into one combined batch; a non-edit event
/// breaks the merge.
pub open spec fn merge_views(s: Seq<ClassifiedView>) -> Seq<ClassifiedView>
    decreases s.len(),
{
    if s.len() == 0 {
        Seq::empty()
    } else {
        let m = merge_views(s.drop_last());
        let e = s.last();
        if m.len() == 0 {
            m.push(e)
        } else {
            match (m.last(), e) {
                (ClassifiedView::Edit(c1), ClassifiedView::Edit(c2)) => m.update(
                    m.len() - 1,
                    ClassifiedView::Edit(c1 + c2),
                ),
                _ => m.push(e),
            }
        }
    }
}

/// A burst stripped of resizes holds no resize event.
proof fn lemma_non_resize_has_no_resize(events: Seq<Event>)
    ensures
        forall|i: int|
            0 <= i < non_resize(events).len() ==> !(#[trigger] non_resize(events)[i] matches
                Event::Resize(_, _)),
    decreases events.len(),
{
    if events.len() > 0 {
        lemma_non_resize_has_no_resize(events.drop_last());
    }
}

/// The parser maps a non-resize event to a non-resize view.
proof fn lemma_flat_of_non_resize(ev: Event)
    requires
        !(ev matches Event::Resize(_, _)),
    ensures
        !(emacs_flat_of(ev) matches ClassifiedView::Resize(_, _)),
{
}

/// Merging edit batches introduces no resize view.
proof fn lemma_merge_views_no_resize(s: Seq<ClassifiedView>)
    requires
        forall|i: int|
            0 <= i < s.len() ==> !(#[trigger] s[i] matches ClassifiedView::Resize(_, _)),
    ensures
        forall|i: int|
            0 <= i < merge_views(s).len() ==> !(#[trigger] merge_views(s)[i] matches
                ClassifiedView::Resize(_, _)),
    decreases s.len(),
{
    if s.len() > 0 {
        assert(forall|i: int|
            0 <= i < s.drop_last().len() ==> !(#[trigger] s.drop_last()[i] matches
                ClassifiedView::Resize(_, _)));
        lemma_merge_views_no_resize(s.drop_last());
    }
}

/// What classifying a drained burst yields: the last resize (if any) comes
/// first and no other resize appears; more than [`EVENTS_THRESHOLD`] other
/// events become one atomic paste of their parsed events; otherwise the
/// parsed events follow in order with consecutive edit batches merged.
pub open spec fn classified(events: Seq<Event>, out: Seq<ReedlineEvent>) -> bool {
    let nr = non_resize(events);
    let base: int = if last_resize(events) is Some {
        1int
    } else {
        0int
    };
    &&& out.len() >= base
    &&& (last_resize(events) matches Some(wh) ==> out[0] == ReedlineEvent::Resize(wh.0, wh.1))
    &&& (nr.len() > EVENTS_THRESHOLD ==> out.len() == base + 1 && (out[base] matches
        ReedlineEvent::Paste(subs) && subs@.len() == nr.len() && forall|k: int|
        0 <= k < nr.len() ==> flat_view(#[trigger] subs@[k]) == emacs_flat_of(nr[k])))
    &&& (nr.len() <= EVENTS_THRESHOLD ==> out.subrange(base, out.len() as int).map_values(
        |e: ReedlineEvent| flat_view(e),
    ) == merge_views(nr.map_values(|ev: Event| emacs_flat_of(ev))))
    &&& forall|i: int|
        base <= i < out.len() ==> !(#[trigger] out[i] matches ReedlineEvent::Resize(_, _))
}

impl Reedline {
    /// Parses every event of a paste burst and wraps the results as one
    /// atomic paste event.
    fn handle_paste(&mut self, events: Vec<Event>) -> (r: ReedlineEvent)
        ensures
            r matches ReedlineEvent::Paste(subs) && subs@.len() == events@.len() && forall|k: int|
                0 <= k < events@.len() ==> flat_view(#[trigger] subs@[k]) == emacs_flat_of(
                    events@[k],
                ),
            *final(self) == *old(self),
    {
        let n = events.len();
        let mut subs: Vec<ReedlineEvent> = Vec::new();
        let mut i: usize = 0;
        while i < n
            invariant
                i <= n,
                n == events@.len(),
                subs@.len() == i,
                forall|k: int|
                    0 <= k < i ==> flat_view(#[trigger] subs@[k]) == emacs_flat_of(events@[k]),
                *self == *old(self),
            decreases n - i,
        {
            let parsed = self.edit_mode.parse_event(events[i]);
            subs.push(parsed);
            i = i + 1;
        }
        ReedlineEvent::Paste(subs)
    }

    /// Classifies a drained burst of raw events: only the last resize
    /// notification survives, and comes first; a burst with more than
    /// [`EVENTS_THRESHOLD`] other events is wrapped as one atomic paste of
    /// its parsed events; below the threshold the events are parsed in
    /// order, with consecutive edit batches merged into one.
    pub fn classify_burst(&mut self, events: Vec<Event>) -> (out: Vec<ReedlineEvent>)
        ensures
            *final(self) == *old(self),
            classified(events@, out@),
    {
        let n = events.len();
        let mut latest_resize: Option<(u16, u16)> = None;
        let mut raw: Vec<Event> = Vec::new();
        let mut i: usize = 0;
        proof {
            assert(non_resize(events@.subrange(0, 0)) =~= Seq::<Event>::empty());
        }
        while i < n
            invariant
                i <= n,
                n == events@.len(),
                raw@ == non_resize(events@.subrange(0, i as int)),
                latest_resize == last_resize(events@.subrange(0, i as int)),
            decreases n - i,
        {
            proof {
                assert(events@.subrange(0, i + 1).drop_last() =~= events@.subrange(0, i as int));
                assert(events@.subrange(0, i + 1).last() == events@[i as int]);
            }
            match events[i] {
                Event::Resize(w, h) => {
                    latest_resize = Some((w, h));
                    proof {
                        assert(raw@ + Seq::<Event>::empty() =~= raw@);
                    }
                },
                other => {
                    raw.push(other);
                },
            }
            i = i + 1;
        }
        proof {
            assert(events@.subrange(0, n as int) =~= events@);
        }
        let mut out: Vec<ReedlineEvent> = Vec::new();
        match latest_resize {
            Some((w, h)) => {
                out.push(ReedlineEvent::Resize(w, h));
            },
            None => {},
        }
        let ghost base: int = out@.len() as int;
        proof {
            lemma_non_resize_has_no_resize(events@);
        }
        if raw.len() > EVENTS_THRESHOLD {
            let paste = self.handle_paste(raw);
            out.push(paste);
            proof {
                assert(out@[base] == paste);
            }
            return out;
        }
        let m = raw.len();
        let ghost head = out@;
        let mut pending: Vec<EditCommand> = Vec::new();
        let mut has_pending = false;
        let mut j: usize = 0;
        proof {
            assert(raw@.subrange(0, 0).map_values(|ev: Event| emacs_flat_of(ev)) =~= Seq::<
                ClassifiedView,
            >::empty());
            assert(out@.subrange(base, out@.len() as int).map_values(|e: ReedlineEvent| flat_view(e))
                =~= Seq::<ClassifiedView>::empty());
            assert(out@.subrange(base, out@.len() as int).map_values(|e: ReedlineEvent| flat_view(e))
                + Seq::<ClassifiedView>::empty() =~= Seq::<ClassifiedView>::empty());
            assert(out@.subrange(0, base) =~= head);
        }
        while j < m
            invariant
                j <= m,
                m == raw@.len(),
                *self == *old(self),
                out@.len() >= base,
                base == head.len(),
                out@.subrange(0, base) == head,
                ({
                    let done = out@.subrange(base, out@.len() as int).map_values(
                        |e: ReedlineEvent| flat_view(e),
                    );
                    let pend = if has_pending {
                        seq![ClassifiedView::Edit(pending@)]
                    } else {
                        Seq::<ClassifiedView>::empty()
                    };
                    done + pend == merge_views(
                        raw@.subrange(0, j as int).map_values(|ev: Event| emacs_flat_of(ev)),
                    )
                }),
                out@.len() > base ==> !(flat_view(out@.last()) matches ClassifiedView::Edit(_)),
            decreases m - j,
        {
            let ghost prefix_views = raw@.subrange(0, j as int).map_values(
                |ev: Event| emacs_flat_of(ev),
            );
            let ghost done0 = out@.subrange(base, out@.len() as int).map_values(
                |e: ReedlineEvent| flat_view(e),
            );
            proof {
                assert(raw@.subrange(0, j + 1).map_values(|ev: Event| emacs_flat_of(ev)).drop_last()
                    =~= prefix_views);
                assert(raw@.subrange(0, j + 1).map_values(|ev: Event| emacs_flat_of(ev)).last()
                    == emacs_flat_of(raw@[j as int]));
            }
            let parsed = self.edit_mode.parse_event(raw[j]);
            match parsed {
                ReedlineEvent::Edit(mut ec) => {
                    let ghost e0 = ec@;
                    if has_pending {
                        let ghost p0 = pending@;
                        pending.append(&mut ec);
                        proof {
                            assert(pending@ =~= p0 + e0);
                            let mv = merge_views(prefix_views);
                            assert(mv == done0 + seq![ClassifiedView::Edit(p0)]);
                            assert(mv.len() > 0 && mv.last() == ClassifiedView::Edit(p0));
                            assert(merge_views(
                                raw@.subrange(0, j + 1).map_values(|ev: Event| emacs_flat_of(ev)),
                            ) =~= done0 + seq![ClassifiedView::Edit(p0 + e0)]);
                        }
                    } else {
                        pending = ec;
                        has_pending = true;
                        proof {
                            let mv = merge_views(prefix_views);
                            assert(mv == done0 + Seq::<ClassifiedView>::empty());
                            assert(mv =~= done0);
                            if done0.len() > 0 {
                                assert(done0.last() == flat_view(out@.last()));
                            }
                            assert(merge_views(
                                raw@.subrange(0, j + 1).map_values(|ev: Event| emacs_flat_of(ev)),
                            ) =~= done0 + seq![ClassifiedView::Edit(e0)]);
                        }
                    }
                },
                other_event => {
                    let ghost ov = flat_view(other_event);
                    proof {
                        assert(!(ov matches ClassifiedView::Edit(_)));
                    }
                    if has_pending {
                        let ghost p0 = pending@;
                        out.push(ReedlineEvent::Edit(pending));
                        pending = Vec::new();
                        has_pending = false;
                        out.push(other_event);
                        proof {
                            assert(out@.subrange(0, base) =~= head);
                            assert(out@.subrange(base, out@.len() as int).map_values(
                                |e: ReedlineEvent| flat_view(e),
                            ) =~= done0 + seq![ClassifiedView::Edit(p0), ov]);
                            let mv = merge_views(prefix_views);
                            assert(mv == done0 + seq![ClassifiedView::Edit(p0)]);
                            assert(mv.len() > 0);
                            assert(merge_views(
                                raw@.subrange(0, j + 1).map_values(|ev: Event| emacs_flat_of(ev)),
                            ) =~= (done0 + seq![ClassifiedView::Edit(p0), ov]));
                            assert((done0 + seq![ClassifiedView::Edit(p0), ov]) + Seq::<
                                ClassifiedView,
                            >::empty() =~= done0 + seq![ClassifiedView::Edit(p0), ov]);
                        }
                    } else {
                        out.push(other_event);
                        proof {
                            assert(out@.subrange(0, base) =~= head);
                            assert(out@.subrange(base, out@.len() as int).map_values(
                                |e: ReedlineEvent| flat_view(e),
                            ) =~= done0 + seq![ov]);
                            let mv = merge_views(prefix_views);
                            assert(mv =~= done0);
                            assert(merge_views(
                                raw@.subrange(0, j + 1).map_values(|ev: Event| emacs_flat_of(ev)),
                            ) =~= done0 + seq![ov]);
                            assert((done0 + seq![ov]) + Seq::<ClassifiedView>::empty() =~= done0
                                + seq![ov]);
                        }
                    }
                },
            }
            j = j + 1;
        }
        proof {
            assert(raw@.subrange(0, m as int) =~= raw@);
        }
        if has_pending {
            let ghost done0 = out@.subrange(base, out@.len() as int).map_values(
                |e: ReedlineEvent| flat_view(e),
            );
            let ghost p0 = pending@;
            out.push(ReedlineEvent::Edit(pending));
            proof {
                assert(out@.subrange(0, base) =~= head);
                assert(out@.subrange(base, out@.len() as int).map_values(
                    |e: ReedlineEvent| flat_view(e),
                ) =~= done0 + seq![ClassifiedView::Edit(p0)]);
            }
        }
        proof {
            if base == 1 {
                assert(out@[0] == head[0]);
            }
            let nr = raw@;
            let flats = nr.map_values(|ev: Event| emacs_flat_of(ev));
            assert(forall|i: int|
                0 <= i < flats.len() ==> !(#[trigger] flats[i] matches ClassifiedView::Resize(
                    _,
                    _,
                ))) by {
                assert forall|i: int|
                    0 <= i < flats.len() implies !(#[trigger] flats[i] matches
                    ClassifiedView::Resize(_, _)) by {
                    lemma_flat_of_non_resize(nr[i]);
                }
            }
            lemma_merge_views_no_resize(flats);
            assert forall|i: int| base <= i < out@.len() implies !(#[trigger] out@[i] matches
                ReedlineEvent::Resize(_, _)) by {
                let tail_views = out@.subrange(base, out@.len() as int).map_values(
                    |e: ReedlineEvent| flat_view(e),
                );
                assert(tail_views[i - base] == flat_view(out@[i]));
            }
        }
        out
    }

    /// Classifies a drained burst and dispatches the resulting events in
    /// order, stopping at the first terminal signal: there is a classified
    /// event sequence and a chain of engine states, one dispatch step apiece,
    /// every step but the last silent, ending in the returned signal (or
    /// covering the whole burst when there is none).
    pub fn process_events(&mut self, events: Vec<Event>) -> (signal: Option<Signal>)
        requires
            old(self).wf(),
        ensures
            final(self).wf(),
            old(self).ops().is_prefix_of(final(self).ops()),
            exists|out: Seq<ReedlineEvent>, states: Seq<Reedline>|
                {
                    &&& #[trigger] classified(events@, out)
                    &&& #[trigger] burst_dispatched(states, out, signal)
                    &&& states[0] == *old(self)
                    &&& states.last() == *final(self)
                },
    {
        let ghost evs = events@;
        let reedline_events = self.classify_burst(events);
        let ghost out_seq = reedline_events@;
        let ghost mut states: Seq<Reedline> = seq![*old(self)];
        let n = reedline_events.len();
        let mut i: usize = 0;
        while i < n
            invariant
                self.wf(),
                i <= n,
                n == reedline_events@.len(),
                reedline_events@ == out_seq,
                classified(evs, out_seq),
                evs == events@,
                states.len() == i + 1,
                states[0] == *old(self),
                states.last() == *self,
                old(self).ops().is_prefix_of(self.ops()),
                forall|j: int|
                    0 <= j < i ==> #[trigger] dispatch_post(
                        states[j],
                        states[j + 1],
                        out_seq[j],
                        Option::<Signal>::None,
                    ),
            decreases n - i,
        {
            let ghost pre_ops = self.ops();
            let signal = self.handle_event(&reedline_events[i]);
            proof {
                states = states.push(*self);
                lemma_prefix_trans(old(self).ops(), pre_ops, self.ops());
            }
            if signal.is_some() {
                proof {
                    let k = states.len() - 1;
                    assert(k == i + 1);
                    assert forall|j: int|
                        0 <= j < k - 1 implies #[trigger] dispatch_post(
                        states[j],
                        states[j + 1],
                        out_seq[j],
                        Option::<Signal>::None,
                    ) by {}
                    assert(dispatch_post(states[k - 1], states[k], out_seq[k - 1], signal));
                    assert(burst_dispatched(states, out_seq, signal));
                    assert(classified(events@, out_seq));
                    assert(states[0] == *old(self));
                    assert(states.last() == *self);
                }
                return signal;
            }
            i = i + 1;
        }
        proof {
            let k = states.len() - 1;
            assert(states.len() >= 1);
            assert(k == out_seq.len());
            assert forall|j: int|
                0 <= j < k - 1 implies #[trigger] dispatch_post(
                states[j],
                states[j + 1],
                out_seq[j],
                Option::<Signal>::None,
            ) by {}
            if k >= 1 {
                assert(dispatch_post(
                    states[k - 1],
                    states[k - 1 + 1],
                    out_seq[k - 1],
                    Option::<Signal>::None,
                ));
                assert(states[k - 1 + 1] == states[k as int]);
            }
            assert(burst_dispatched(states, out_seq, Option::<Signal>::None));
            assert(classified(events@, out_seq));
            assert(states[0] == *old(self));
            assert(states.last() == *self);
        }
        None
    }

    /// What a poll timeout does: with animation enabled, a periodic repaint
    /// event runs through the dispatch; without it, nothing. Either way no
    /// signal arises and the state is kept; the repaint queues a full redraw
    /// outside the reverse search.
    pub fn process_poll_timeout(&mut self) -> (signal: Option<Signal>)
        requires
            old(self).wf(),
        ensures
            final(self).wf(),
            signal is None,
            final(self).editor_view() == old(self).editor_view(),
            final(self).history_view() == old(self).history_view(),
            final(self).mode_spec() == old(self).mode_spec(),
            !(old(self).animate_spec() && old(self).mode_spec() != InputMode::HistorySearch)
                ==> final(self).ops() == old(self).ops(),
            old(self).animate_spec() && old(self).mode_spec() != InputMode::HistorySearch ==> final(self).ops().len() == old(self).ops().len() + 1 && is_full_repaint_of(
                final(self).ops().last(),
                final(self).editor_view().buf,
                posted_hint(*final(self)),
                old(self).ansi_spec(),
            ),
    {
        if self.animate {
            self.handle_event(&ReedlineEvent::Repaint)
        } else {
            None
        }
    }
}

/// A chain of dispatch steps over a classified event sequence: `states`
/// holds the engine before and after each dispatched event, every step but
/// the last returned nothing, the last returned `signal`, and dispatch
/// stopped at the first signal (with none, the whole sequence ran).
pub open spec fn burst_dispatched(
    states: Seq<Reedline>,
    events: Seq<ReedlineEvent>,
    signal: Option<Signal>,
) -> bool {
    let k = states.len() - 1;
    &&& states.len() >= 1
    &&& k <= events.len()
    &&& forall|i: int|
        0 <= i < k - 1 ==> #[trigger] dispatch_post(
            states[i],
            states[i + 1],
            events[i],
            Option::<Signal>::None,
        )
    &&& (k >= 1 ==> dispatch_post(states[k - 1], states[k], events[k - 1], signal))
    &&& (signal is None ==> k == events.len())
    &&& (signal is Some ==> k >= 1)
}

} // verus!
