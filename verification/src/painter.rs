//! The repaint coordinator's outward face: the engine decides here what the
//! screen should show and queues paint operations; a frontend drains the
//! queue and does the drawing. Physical cell math (wrapping pixels to cells,
//! cursor placement) stays outside the engine.

use vstd::prelude::*;

use crate::enums::PromptEditMode;

verus! {

/// Whether the current reverse search has a match.
#[derive(Debug, Clone, Copy, PartialEq, Eq, Structural)]
pub enum PromptHistorySearchStatus {
    /// The search string matches an entry.
    Passing,
    /// The search string matches nothing.
    Failing,
}

/// What the reverse-search indicator should show: the search status and the
/// current search term.
#[derive(Debug)]
pub struct PromptHistorySearch {
    /// Whether the search currently matches.
    pub status: PromptHistorySearchStatus,
    /// The current search string.
    pub term: String,
}

impl PromptHistorySearch {
    /// Bundles a search status and term for the painter.
    pub fn new(status: PromptHistorySearchStatus, term: String) -> (r: Self)
        ensures
            r.status == status,
            r.term@ == term@,
    {
        PromptHistorySearch { status, term }
    }
}

/// One drawing instruction for the frontend. The buffer is carried already
/// split at the cursor, with the freshly computed hint.
#[derive(Debug)]
pub enum PaintOp {
    /// Redraw everything: prompt, mode indicator, buffer and hint.
    RepaintEverything {
        /// The prompt style matching the active edit mode.
        prompt_mode: PromptEditMode,
        /// The buffer up to the cursor.
        line_before_cursor: String,
        /// The buffer from the cursor on.
        line_after_cursor: String,
        /// The current hint text.
        hint: String,
    },
    /// Redraw the buffer region only.
    BufferPaint {
        /// The buffer up to the cursor.
        line_before_cursor: String,
        /// The buffer from the cursor on.
        line_after_cursor: String,
        /// The current hint text.
        hint: String,
    },
    /// Redraw the reverse-search indicator and its current result line (or
    /// clear the result line when there is none).
    SearchPaint {
        /// The search status and term.
        search: PromptHistorySearch,
        /// The matched history entry, if any.
        result: Option<String>,
    },
    /// Redraw after the line grew past the terminal width.
    Wrap {
        /// The buffer up to the cursor.
        line_before_cursor: String,
        /// The buffer from the cursor on.
        line_after_cursor: String,
        /// The current hint text.
        hint: String,
    },
    /// Clear the whole screen.
    ClearScreen,
    /// Move to the start of the next line.
    Crlf,
}

/// The engine's model of the screen: its dimensions and the queue of paint
/// operations awaiting the frontend.
#[derive(Debug)]
pub struct Painter {
    width: u16,
    height: u16,
    ops: Vec<PaintOp>,
}

impl Painter {
    /// The queued paint operations, oldest first.
    pub closed spec fn ops(&self) -> Seq<PaintOp> {
        self.ops@
    }

    /// The terminal width the engine believes in.
    pub closed spec fn width_spec(&self) -> u16 {
        self.width
    }

    /// The terminal height the engine believes in.
    pub closed spec fn height_spec(&self) -> u16 {
        self.height
    }

    /// A painter for a conventional 80 by 24 screen with nothing queued.
    pub fn new() -> (p: Painter)
        ensures
            p.ops() == Seq::<PaintOp>::empty(),
            p.width_spec() == 80,
            p.height_spec() == 24,
    {
        Painter { width: 80, height: 24, ops: Vec::new() }
    }

    /// Records the terminal dimensions.
    pub fn handle_resize(&mut self, width: u16, height: u16)
        ensures
            final(self).width_spec() == width,
            final(self).height_spec() == height,
            final(self).ops() == old(self).ops(),
    {
        self.width = width;
        self.height = height;
    }

    /// Whether the buffer's cursor has reached the right edge, so the next
    /// insertion needs a wrap-aware redraw. The engine's rule is the cursor
    /// column against the width; exact cell math belongs to the frontend.
    pub fn require_wrapping(&self, cursor: usize) -> (r: bool)
        ensures
            r == (cursor + 1 >= self.width_spec()),
    {
        let w = self.width as usize;
        w == 0 || cursor >= w - 1
    }

    /// Queues a full redraw.
    pub fn repaint_everything(
        &mut self,
        prompt_mode: PromptEditMode,
        line_before_cursor: String,
        line_after_cursor: String,
        hint: String,
    )
        ensures
            final(self).ops() == old(self).ops().push(
                PaintOp::RepaintEverything { prompt_mode, line_before_cursor, line_after_cursor, hint },
            ),
            final(self).width_spec() == old(self).width_spec(),
            final(self).height_spec() == old(self).height_spec(),
    {
        self.ops.push(
            PaintOp::RepaintEverything { prompt_mode, line_before_cursor, line_after_cursor, hint },
        );
    }

    /// Queues a redraw of the buffer region.
    pub fn queue_buffer(&mut self, line_before_cursor: String, line_after_cursor: String, hint: String)
        ensures
            final(self).ops() == old(self).ops().push(
                PaintOp::BufferPaint { line_before_cursor, line_after_cursor, hint },
            ),
            final(self).width_spec() == old(self).width_spec(),
            final(self).height_spec() == old(self).height_spec(),
    {
        self.ops.push(PaintOp::BufferPaint { line_before_cursor, line_after_cursor, hint });
    }

    /// Queues a redraw of the reverse-search indicator and result line.
    pub fn queue_history_search(&mut self, search: PromptHistorySearch, result: Option<String>)
        ensures
            final(self).ops() == old(self).ops().push(PaintOp::SearchPaint { search, result }),
            final(self).width_spec() == old(self).width_spec(),
            final(self).height_spec() == old(self).height_spec(),
    {
        self.ops.push(PaintOp::SearchPaint { search, result });
    }

    /// Queues a wrap-aware redraw.
    pub fn wrap(&mut self, line_before_cursor: String, line_after_cursor: String, hint: String)
        ensures
            final(self).ops() == old(self).ops().push(
                PaintOp::Wrap { line_before_cursor, line_after_cursor, hint },
            ),
            final(self).width_spec() == old(self).width_spec(),
            final(self).height_spec() == old(self).height_spec(),
    {
        self.ops.push(PaintOp::Wrap { line_before_cursor, line_after_cursor, hint });
    }

    /// Queues a clear of the whole screen.
    pub fn clear_screen(&mut self)
        ensures
            final(self).ops() == old(self).ops().push(PaintOp::ClearScreen),
            final(self).width_spec() == old(self).width_spec(),
            final(self).height_spec() == old(self).height_spec(),
    {
        self.ops.push(PaintOp::ClearScreen);
    }

    /// Queues a move to the start of the next line.
    pub fn print_crlf(&mut self)
        ensures
            final(self).ops() == old(self).ops().push(PaintOp::Crlf),
            final(self).width_spec() == old(self).width_spec(),
            final(self).height_spec() == old(self).height_spec(),
    {
        self.ops.push(PaintOp::Crlf);
    }

    /// Hands the queued operations to the frontend and empties the queue.
    pub fn take_ops(&mut self) -> (ops: Vec<PaintOp>)
        ensures
            ops@ == old(self).ops(),
            final(self).ops() == Seq::<PaintOp>::empty(),
            final(self).width_spec() == old(self).width_spec(),
            final(self).height_spec() == old(self).height_spec(),
    {
        let ops = self.ops.split_off(0);
        proof {
            assert(ops@ =~= old(self).ops());
            assert(self.ops@ =~= Seq::<PaintOp>::empty());
        }
        ops
    }
}

impl Default for Painter {
    /// The default painter: see [`Painter::new`].
    fn default() -> (p: Painter)
        ensures
            p.ops() == Seq::<PaintOp>::empty(),
            p.width_spec() == 80,
            p.height_spec() == 24,
    {
        Painter::new()
    }
}

} // verus!
