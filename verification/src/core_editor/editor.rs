//! The editor: a line buffer together with a cut buffer and an undo
//! checkpoint stack.
//!
//! The model of an editor is an [`EditorState`]. The effect of every edit
//! command on that model is the spec function [`command_effect`]; the undo
//! policy that runs after a command is [`checkpoint_effect`]. The dispatcher
//! in the engine is specified as a fold of these two over the command batch.

use vstd::prelude::*;

use crate::core_editor::line_buffer::{
    backspace_st, backspace_word_st, buf_wf, capitalize_char_st, clear_st, clear_to_end_st,
    clear_to_line_end_st, cut_end_of, cut_left_until_st, cut_right_until_st, cut_start_of,
    delete_st, delete_word_st, find_char_left, find_char_right, insert_at_st, insert_char_st,
    insert_seq_st, line_end_of, line_start_of, lowercase_word_st, move_left_st,
    move_left_until_st, move_line_down_st, move_line_up_st, move_right_st, move_right_until_st,
    remove_range_st, swap_graphemes_st,
    swap_words_st, uppercase_word_st, with_cursor_st, word_left_index, word_right_index, BufState,
    LineBuffer,
};
use crate::enums::{EditCommand, UndoBehavior};

verus! {

/// The mathematical state of an editor: the live buffer, the cut buffer, and
/// the undo checkpoint stack with its current position and whether the top
/// checkpoint is still open for coalescing.
pub struct EditorState {
    /// The live line buffer.
    pub buf: BufState,
    /// The cut buffer (local clipboard).
    pub cut: Seq<char>,
    /// The undo checkpoints, oldest first; never empty.
    pub edits: Seq<BufState>,
    /// The checkpoint the editor currently stands on.
    pub index: int,
    /// Whether the checkpoint at `index` is open for coalescing.
    pub open_group: bool,
}

/// The editor state invariant: a well-formed live buffer, a non-empty stack
/// of well-formed checkpoints, and the position inside the stack.
pub open spec fn editor_wf(st: EditorState) -> bool {
    &&& buf_wf(st.buf)
    &&& st.edits.len() >= 1
    &&& 0 <= st.index < st.edits.len()
    &&& forall|i: int| 0 <= i < st.edits.len() ==> buf_wf(#[trigger] st.edits[i])
}

/// The undo policy applied after a command: an ignored command closes the
/// open coalescing group, a full command opens a fresh checkpoint, and a
/// coalescing command merges into the open checkpoint, opening one first if
/// the group was closed. Opening a checkpoint discards the redo tail.
pub open spec fn checkpoint_effect(st: EditorState, behavior: UndoBehavior) -> EditorState {
    match behavior {
        UndoBehavior::Ignore => EditorState { open_group: false, ..st },
        UndoBehavior::Full => EditorState {
            edits: st.edits.subrange(0, st.index + 1).push(st.buf),
            index: st.index + 1,
            open_group: false,
            ..st
        },
        UndoBehavior::Coalesce => if st.open_group {
            EditorState { edits: st.edits.subrange(0, st.index).push(st.buf), ..st }
        } else {
            EditorState {
                edits: st.edits.subrange(0, st.index + 1).push(st.buf),
                index: st.index + 1,
                open_group: true,
                ..st
            }
        },
    }
}

/// One undo step: move back one checkpoint (staying on the first) and
/// restore the buffer recorded there; the coalescing group closes.
pub open spec fn undo_st(st: EditorState) -> EditorState {
    let i = if st.index > 0 {
        st.index - 1
    } else {
        0
    };
    EditorState { buf: st.edits[i], index: i, open_group: false, ..st }
}

/// One redo step: move forward one checkpoint, if there is one, and restore
/// the buffer recorded there; the coalescing group closes.
pub open spec fn redo_st(st: EditorState) -> EditorState {
    if st.index + 1 < st.edits.len() {
        EditorState { buf: st.edits[st.index + 1], index: st.index + 1, open_group: false, ..st }
    } else {
        EditorState { open_group: false, ..st }
    }
}

/// The undo stack reduced to a single empty checkpoint.
pub open spec fn reset_undo_st(st: EditorState) -> EditorState {
    EditorState {
        edits: seq![BufState { text: Seq::empty(), cur: 0 }],
        index: 0,
        open_group: false,
        ..st
    }
}

/// Where a cut of the current line ends: past the line's newline, or at the
/// end of the buffer on the last line.
pub open spec fn current_line_cut_end(b: BufState) -> int {
    let e = line_end_of(b.text, b.cur);
    if e < b.text.len() {
        e + 1
    } else {
        e
    }
}

/// Where the cut buffer lands when pasted after the cursor: one step right,
/// clamped to the end of the buffer.
pub open spec fn paste_after_pos(b: BufState) -> int {
    if b.cur < b.text.len() {
        b.cur + 1
    } else {
        b.cur
    }
}

/// The effect of one edit command on the editor state: the buffer mutation,
/// the cut-buffer update of the cut and paste commands, and the stack
/// stepping of undo and redo. The checkpoint policy is applied separately,
/// by [`checkpoint_effect`].
pub open spec fn command_effect(st: EditorState, cmd: EditCommand) -> EditorState {
    let b = st.buf;
    match cmd {
        EditCommand::MoveToStart => EditorState { buf: with_cursor_st(b, 0), ..st },
        EditCommand::MoveToEnd => EditorState {
            buf: with_cursor_st(b, b.text.len() as int),
            ..st
        },
        EditCommand::MoveToLineStart => EditorState {
            buf: with_cursor_st(b, line_start_of(b.text, b.cur)),
            ..st
        },
        EditCommand::MoveToLineEnd => EditorState {
            buf: with_cursor_st(b, line_end_of(b.text, b.cur)),
            ..st
        },
        EditCommand::MoveLeft => EditorState { buf: move_left_st(b), ..st },
        EditCommand::MoveRight => EditorState { buf: move_right_st(b), ..st },
        EditCommand::MoveWordLeft => EditorState {
            buf: with_cursor_st(b, word_left_index(b.text, b.cur)),
            ..st
        },
        EditCommand::MoveWordRight => EditorState {
            buf: with_cursor_st(b, word_right_index(b.text, b.cur)),
            ..st
        },
        EditCommand::InsertChar(c) => EditorState { buf: insert_char_st(b, c), ..st },
        EditCommand::InsertString(s) => EditorState { buf: insert_seq_st(b, s@), ..st },
        EditCommand::Backspace => EditorState { buf: backspace_st(b), ..st },
        EditCommand::Delete => EditorState { buf: delete_st(b), ..st },
        EditCommand::BackspaceWord => EditorState { buf: backspace_word_st(b), ..st },
        EditCommand::DeleteWord => EditorState { buf: delete_word_st(b), ..st },
        EditCommand::Clear => EditorState { buf: clear_st(b), ..st },
        EditCommand::ClearToLineEnd => EditorState { buf: clear_to_line_end_st(b), ..st },
        EditCommand::CutCurrentLine => {
            let a = line_start_of(b.text, b.cur);
            let e = current_line_cut_end(b);
            EditorState {
                buf: remove_range_st(b, a, e),
                cut: b.text.subrange(a, e),
                ..st
            }
        },
        EditCommand::CutFromStart => EditorState {
            buf: remove_range_st(b, 0, b.cur),
            cut: b.text.subrange(0, b.cur),
            ..st
        },
        EditCommand::CutFromLineStart => {
            let a = line_start_of(b.text, b.cur);
            EditorState {
                buf: remove_range_st(b, a, b.cur),
                cut: b.text.subrange(a, b.cur),
                ..st
            }
        },
        EditCommand::CutToEnd => EditorState {
            buf: remove_range_st(b, b.cur, b.text.len() as int),
            cut: b.text.subrange(b.cur, b.text.len() as int),
            ..st
        },
        EditCommand::CutToLineEnd => {
            let e = line_end_of(b.text, b.cur);
            EditorState {
                buf: remove_range_st(b, b.cur, e),
                cut: b.text.subrange(b.cur, e),
                ..st
            }
        },
        EditCommand::CutWordLeft => {
            let a = word_left_index(b.text, b.cur);
            EditorState {
                buf: remove_range_st(b, a, b.cur),
                cut: b.text.subrange(a, b.cur),
                ..st
            }
        },
        EditCommand::CutWordRight => {
            let e = word_right_index(b.text, b.cur);
            EditorState {
                buf: remove_range_st(b, b.cur, e),
                cut: b.text.subrange(b.cur, e),
                ..st
            }
        },
        EditCommand::PasteCutBufferBefore => EditorState {
            buf: insert_at_st(b, b.cur, st.cut),
            ..st
        },
        EditCommand::PasteCutBufferAfter => EditorState {
            buf: insert_at_st(b, paste_after_pos(b), st.cut),
            ..st
        },
        EditCommand::UppercaseWord => EditorState { buf: uppercase_word_st(b), ..st },
        EditCommand::LowercaseWord => EditorState { buf: lowercase_word_st(b), ..st },
        EditCommand::CapitalizeChar => EditorState { buf: capitalize_char_st(b), ..st },
        EditCommand::SwapWords => EditorState { buf: swap_words_st(b), ..st },
        EditCommand::SwapGraphemes => EditorState { buf: swap_graphemes_st(b), ..st },
        EditCommand::Undo => undo_st(st),
        EditCommand::Redo => redo_st(st),
        EditCommand::CutRightUntil(c) => {
            if find_char_right(b.text, b.cur + 1, c) == -1 {
                st
            } else {
                EditorState {
                    buf: cut_right_until_st(b, c, false),
                    cut: b.text.subrange(b.cur, cut_end_of(b, c, false)),
                    ..st
                }
            }
        },
        EditCommand::CutRightBefore(c) => {
            if find_char_right(b.text, b.cur + 1, c) == -1 {
                st
            } else {
                EditorState {
                    buf: cut_right_until_st(b, c, true),
                    cut: b.text.subrange(b.cur, cut_end_of(b, c, true)),
                    ..st
                }
            }
        },
        EditCommand::MoveRightUntil(c) => EditorState {
            buf: move_right_until_st(b, c, false),
            ..st
        },
        EditCommand::MoveRightBefore(c) => EditorState {
            buf: move_right_until_st(b, c, true),
            ..st
        },
        EditCommand::CutLeftUntil(c) => {
            if find_char_left(b.text, b.cur - 1, c) == -1 {
                st
            } else {
                EditorState {
                    buf: cut_left_until_st(b, c, false),
                    cut: b.text.subrange(cut_start_of(b, c, false), b.cur),
                    ..st
                }
            }
        },
        EditCommand::CutLeftBefore(c) => {
            if find_char_left(b.text, b.cur - 1, c) == -1 {
                st
            } else {
                EditorState {
                    buf: cut_left_until_st(b, c, true),
                    cut: b.text.subrange(cut_start_of(b, c, true), b.cur),
                    ..st
                }
            }
        },
        EditCommand::MoveLeftUntil(c) => EditorState {
            buf: move_left_until_st(b, c, false),
            ..st
        },
        EditCommand::MoveLeftBefore(c) => EditorState {
            buf: move_left_until_st(b, c, true),
            ..st
        },
    }
}

/// One dispatcher step: the command's effect followed by its undo policy.
pub open spec fn step_command(st: EditorState, cmd: EditCommand) -> EditorState {
    checkpoint_effect(command_effect(st, cmd), crate::enums::undo_behavior_spec(cmd))
}

/// A whole batch of commands, applied in order.
pub open spec fn run_commands_st(st: EditorState, cmds: Seq<EditCommand>) -> EditorState
    decreases cmds.len(),
{
    if cmds.len() == 0 {
        st
    } else {
        run_commands_st(step_command(st, cmds[0]), cmds.drop_first())
    }
}

/// Appending one command to a batch runs it after the batch.
pub proof fn lemma_run_commands_snoc(st: EditorState, cmds: Seq<EditCommand>, cmd: EditCommand)
    ensures
        run_commands_st(st, cmds.push(cmd)) == step_command(run_commands_st(st, cmds), cmd),
    decreases cmds.len(),
{
    if cmds.len() == 0 {
        assert(cmds.push(cmd).drop_first() =~= cmds);
        assert(cmds.push(cmd)[0] == cmd);
        assert(run_commands_st(st, cmds.push(cmd)) == run_commands_st(
            step_command(st, cmd),
            cmds,
        ));
        assert(run_commands_st(step_command(st, cmd), cmds) == step_command(st, cmd));
        assert(run_commands_st(st, cmds) == st);
    } else {
        assert(cmds.push(cmd).drop_first() =~= cmds.drop_first().push(cmd));
        assert(cmds.push(cmd)[0] == cmds[0]);
        assert(run_commands_st(st, cmds.push(cmd)) == run_commands_st(
            step_command(st, cmds[0]),
            cmds.drop_first().push(cmd),
        ));
        lemma_run_commands_snoc(step_command(st, cmds[0]), cmds.drop_first(), cmd);
        assert(run_commands_st(st, cmds) == run_commands_st(
            step_command(st, cmds[0]),
            cmds.drop_first(),
        ));
    }
}

} // verus!

verus! {

/// A line buffer together with the cut buffer and the undo checkpoint stack.
#[derive(Debug)]
pub struct Editor {
    line_buffer: LineBuffer,
    cut_buffer: Vec<char>,
    edits: Vec<LineBuffer>,
    index: usize,
    open_group: bool,
}

impl View for Editor {
    type V = EditorState;

    closed spec fn view(&self) -> EditorState {
        EditorState {
            buf: self.line_buffer@,
            cut: self.cut_buffer@,
            edits: self.edits@.map_values(|lb: LineBuffer| lb@),
            index: self.index as int,
            open_group: self.open_group,
        }
    }
}

impl Editor {
    /// The editor's state invariant.
    pub open spec fn wf(&self) -> bool {
        editor_wf(self@)
    }

    /// A fresh editor: empty buffer, empty cut buffer, one empty checkpoint.
    pub fn new() -> (ed: Editor)
        ensures
            ed.wf(),
            ed@.buf.text == Seq::<char>::empty(),
            ed@.buf.cur == 0,
            ed@.cut == Seq::<char>::empty(),
            ed@ == reset_undo_st(ed@),
    {
        let mut edits: Vec<LineBuffer> = Vec::new();
        edits.push(LineBuffer::new());
        let ed = Editor {
            line_buffer: LineBuffer::new(),
            cut_buffer: Vec::new(),
            edits,
            index: 0,
            open_group: false,
        };
        proof {
            assert(ed@.edits =~= seq![BufState { text: Seq::empty(), cur: 0 }]);
        }
        ed
    }

    /// The cursor position in the buffer.
    pub fn offset(&self) -> (p: usize)
        ensures
            p == self@.buf.cur,
    {
        self.line_buffer.offset()
    }

    /// The number of characters in the buffer.
    pub fn char_count(&self) -> (n: usize)
        ensures
            n == self@.buf.text.len(),
    {
        self.line_buffer.char_count()
    }

    /// Whether the buffer is empty.
    pub fn is_empty(&self) -> (r: bool)
        ensures
            r == (self@.buf.text.len() == 0),
    {
        self.line_buffer.is_empty()
    }

    /// The buffer's contents as a string.
    pub fn get_buffer(&self) -> (s: String)
        ensures
            s@ == self@.buf.text,
    {
        self.line_buffer.get_buffer()
    }

    /// A copy of the live line buffer.
    pub fn clone_line_buffer(&self) -> (lb: LineBuffer)
        ensures
            lb@ == self@.buf,
    {
        self.line_buffer.clone()
    }

    /// Exclusive access to the live line buffer; the rest of the editor is
    /// untouched.
    pub fn line_buffer(&mut self) -> (ret: &mut LineBuffer)
        ensures
            ret@ == old(self)@.buf,
            final(self)@ == (EditorState { buf: final(ret)@, ..old(self)@ }),
    {
        &mut self.line_buffer
    }

    /// Replaces the buffer's text; the cursor keeps its position, clamped to
    /// the new end.
    pub fn set_buffer(&mut self, buffer: String)
        ensures
            final(self)@ == (EditorState {
                buf: BufState {
                    text: buffer@,
                    cur: if old(self)@.buf.cur <= buffer@.len() {
                        old(self)@.buf.cur
                    } else {
                        buffer@.len() as int
                    },
                },
                ..old(self)@
            }),
            old(self).wf() ==> final(self).wf(),
    {
        self.line_buffer.set_buffer(buffer);
    }

    /// Replaces the live line buffer whole (text and cursor).
    pub fn set_line_buffer(&mut self, line_buffer: LineBuffer)
        ensures
            final(self)@ == (EditorState { buf: line_buffer@, ..old(self)@ }),
    {
        self.line_buffer = line_buffer;
    }

    /// Places the cursor at the given character offset.
    pub fn set_insertion_point(&mut self, pos: usize)
        requires
            pos <= old(self)@.buf.text.len(),
        ensures
            final(self)@ == (EditorState {
                buf: with_cursor_st(old(self)@.buf, pos as int),
                ..old(self)@
            }),
    {
        self.line_buffer.set_insertion_point(pos);
    }

    /// Applies the undo policy of the command that just ran: a full command
    /// opens a fresh checkpoint, a coalescing one merges into the open
    /// checkpoint (opening one if the group was closed).
    pub fn remember_undo_state(&mut self, is_full: bool)
        requires
            old(self).wf(),
        ensures
            final(self)@ == checkpoint_effect(
                old(self)@,
                if is_full {
                    UndoBehavior::Full
                } else {
                    UndoBehavior::Coalesce
                },
            ),
            final(self).wf(),
    {
        let n = self.edits.len();
        proof {
            assert(self.index < n);
        }
        if is_full || !self.open_group {
            self.edits.truncate(self.index + 1);
            self.edits.push(self.line_buffer.clone());
            self.index = self.index + 1;
            self.open_group = !is_full;
        } else {
            self.edits.truncate(self.index);
            self.edits.push(self.line_buffer.clone());
        }
        proof {
            if is_full || !old(self)@.open_group {
                assert(self@.edits =~= old(self)@.edits.subrange(0, old(self)@.index + 1).push(
                    old(self)@.buf,
                ));
            } else {
                assert(self@.edits =~= old(self)@.edits.subrange(0, old(self)@.index).push(
                    old(self)@.buf,
                ));
            }
        }
    }

    /// Closes the open coalescing group, so the next coalescing command
    /// opens a checkpoint of its own.
    pub fn close_undo_group(&mut self)
        ensures
            final(self)@ == checkpoint_effect(old(self)@, UndoBehavior::Ignore),
    {
        self.open_group = false;
    }

    /// Steps back one undo checkpoint and restores the buffer recorded
    /// there.
    pub fn undo(&mut self)
        requires
            old(self).wf(),
        ensures
            final(self)@ == undo_st(old(self)@),
            final(self).wf(),
    {
        self.open_group = false;
        if self.index > 0 {
            self.index = self.index - 1;
        }
        self.line_buffer = self.edits[self.index].clone();
        proof {
            assert(buf_wf(old(self)@.edits[self.index as int]));
        }
    }

    /// Steps forward one undo checkpoint, if there is one, and restores the
    /// buffer recorded there.
    pub fn redo(&mut self)
        requires
            old(self).wf(),
        ensures
            final(self)@ == redo_st(old(self)@),
            final(self).wf(),
    {
        self.open_group = false;
        let n = self.edits.len();
        if self.index + 1 < n {
            self.index = self.index + 1;
            self.line_buffer = self.edits[self.index].clone();
        }
    }

    /// Drops every checkpoint and starts over from a single empty one.
    pub fn reset_undo_stack(&mut self)
        ensures
            final(self)@ == reset_undo_st(old(self)@),
            old(self).wf() || buf_wf(old(self)@.buf) ==> final(self).wf(),
    {
        let mut edits: Vec<LineBuffer> = Vec::new();
        edits.push(LineBuffer::new());
        self.edits = edits;
        self.index = 0;
        self.open_group = false;
        proof {
            assert(self@.edits =~= seq![BufState { text: Seq::empty(), cur: 0 }]);
        }
    }
}

impl Default for Editor {
    /// The default editor is fresh: see [`Editor::new`].
    fn default() -> (ed: Editor)
        ensures
            ed.wf(),
            ed@.buf.text == Seq::<char>::empty(),
            ed@.buf.cur == 0,
            ed@.cut == Seq::<char>::empty(),
            ed@ == reset_undo_st(ed@),
    {
        Editor::new()
    }
}

} // verus!

verus! {

impl Editor {
    /// Moves the cursor to the start of the buffer.
    pub fn move_to_start(&mut self)
        requires
            old(self).wf(),
        ensures
            final(self)@ == command_effect(old(self)@, EditCommand::MoveToStart),
            final(self).wf(),
    {
        self.line_buffer.move_to_start();
    }

    /// Moves the cursor to the end of the buffer.
    pub fn move_to_end(&mut self)
        requires
            old(self).wf(),
        ensures
            final(self)@ == command_effect(old(self)@, EditCommand::MoveToEnd),
            final(self).wf(),
    {
        self.line_buffer.move_to_end();
    }

    /// Moves the cursor to the start of the current line.
    pub fn move_to_line_start(&mut self)
        requires
            old(self).wf(),
        ensures
            final(self)@ == command_effect(old(self)@, EditCommand::MoveToLineStart),
            final(self).wf(),
    {
        self.line_buffer.move_to_line_start();
    }

    /// Moves the cursor to the end of the current line.
    pub fn move_to_line_end(&mut self)
        requires
            old(self).wf(),
        ensures
            final(self)@ == command_effect(old(self)@, EditCommand::MoveToLineEnd),
            final(self).wf(),
    {
        self.line_buffer.move_to_line_end();
    }

    /// Moves the cursor one character to the left.
    pub fn move_left(&mut self)
        requires
            old(self).wf(),
        ensures
            final(self)@ == command_effect(old(self)@, EditCommand::MoveLeft),
            final(self).wf(),
    {
        self.line_buffer.move_left();
    }

    /// Moves the cursor one character to the right.
    pub fn move_right(&mut self)
        requires
            old(self).wf(),
        ensures
            final(self)@ == command_effect(old(self)@, EditCommand::MoveRight),
            final(self).wf(),
    {
        self.line_buffer.move_right();
    }

    /// Moves the cursor one word to the left.
    pub fn move_word_left(&mut self)
        requires
            old(self).wf(),
        ensures
            final(self)@ == command_effect(old(self)@, EditCommand::MoveWordLeft),
            final(self).wf(),
    {
        self.line_buffer.move_word_left();
    }

    /// Moves the cursor one word to the right.
    pub fn move_word_right(&mut self)
        requires
            old(self).wf(),
        ensures
            final(self)@ == command_effect(old(self)@, EditCommand::MoveWordRight),
            final(self).wf(),
    {
        self.line_buffer.move_word_right();
    }

    /// Inserts a character at the cursor.
    pub fn insert_char(&mut self, c: char)
        requires
            old(self).wf(),
        ensures
            final(self)@ == command_effect(old(self)@, EditCommand::InsertChar(c)),
            final(self).wf(),
    {
        self.line_buffer.insert_char(c);
    }

    /// Inserts a string at the cursor.
    pub fn insert_str(&mut self, s: &str)
        requires
            old(self).wf(),
        ensures
            final(self)@ == (EditorState {
                buf: insert_seq_st(old(self)@.buf, s@),
                ..old(self)@
            }),
            final(self).wf(),
    {
        self.line_buffer.insert_str(s);
    }

    /// Removes the character left of the cursor.
    pub fn backspace(&mut self)
        requires
            old(self).wf(),
        ensures
            final(self)@ == command_effect(old(self)@, EditCommand::Backspace),
            final(self).wf(),
    {
        self.line_buffer.backspace();
    }

    /// Removes the character under the cursor.
    pub fn delete(&mut self)
        requires
            old(self).wf(),
        ensures
            final(self)@ == command_effect(old(self)@, EditCommand::Delete),
            final(self).wf(),
    {
        self.line_buffer.delete();
    }

    /// Removes the word left of the cursor.
    pub fn backspace_word(&mut self)
        requires
            old(self).wf(),
        ensures
            final(self)@ == command_effect(old(self)@, EditCommand::BackspaceWord),
            final(self).wf(),
    {
        self.line_buffer.backspace_word();
    }

    /// Removes the word right of the cursor.
    pub fn delete_word(&mut self)
        requires
            old(self).wf(),
        ensures
            final(self)@ == command_effect(old(self)@, EditCommand::DeleteWord),
            final(self).wf(),
    {
        self.line_buffer.delete_word();
    }

    /// Empties the buffer.
    pub fn clear(&mut self)
        requires
            old(self).wf(),
        ensures
            final(self)@ == command_effect(old(self)@, EditCommand::Clear),
            final(self).wf(),
    {
        self.line_buffer.clear();
    }

    /// Removes everything from the cursor to the end of the buffer.
    pub fn clear_to_end(&mut self)
        requires
            old(self).wf(),
        ensures
            final(self)@ == (EditorState {
                buf: clear_to_end_st(old(self)@.buf),
                ..old(self)@
            }),
            final(self).wf(),
    {
        self.line_buffer.clear_to_end();
    }

    /// Removes everything from the cursor to the end of the current line.
    pub fn clear_to_line_end(&mut self)
        requires
            old(self).wf(),
        ensures
            final(self)@ == command_effect(old(self)@, EditCommand::ClearToLineEnd),
            final(self).wf(),
    {
        self.line_buffer.clear_to_line_end();
    }

    /// Cuts the current line, newline included, into the cut buffer.
    pub fn cut_current_line(&mut self)
        requires
            old(self).wf(),
        ensures
            final(self)@ == command_effect(old(self)@, EditCommand::CutCurrentLine),
            final(self).wf(),
    {
        let a = self.line_buffer.line_start_pos();
        let e = self.line_buffer.line_end_pos();
        let n = self.line_buffer.char_count();
        let end = if e < n {
            e + 1
        } else {
            e
        };
        self.cut_buffer = self.line_buffer.cut_range(a, end);
    }

    /// Cuts everything from the start of the buffer to the cursor.
    pub fn cut_from_start(&mut self)
        requires
            old(self).wf(),
        ensures
            final(self)@ == command_effect(old(self)@, EditCommand::CutFromStart),
            final(self).wf(),
    {
        let p = self.line_buffer.offset();
        self.cut_buffer = self.line_buffer.cut_range(0, p);
    }

    /// Cuts everything from the start of the current line to the cursor.
    pub fn cut_from_line_start(&mut self)
        requires
            old(self).wf(),
        ensures
            final(self)@ == command_effect(old(self)@, EditCommand::CutFromLineStart),
            final(self).wf(),
    {
        let a = self.line_buffer.line_start_pos();
        let p = self.line_buffer.offset();
        self.cut_buffer = self.line_buffer.cut_range(a, p);
    }

    /// Cuts everything from the cursor to the end of the buffer.
    pub fn cut_from_end(&mut self)
        requires
            old(self).wf(),
        ensures
            final(self)@ == command_effect(old(self)@, EditCommand::CutToEnd),
            final(self).wf(),
    {
        let p = self.line_buffer.offset();
        let n = self.line_buffer.char_count();
        self.cut_buffer = self.line_buffer.cut_range(p, n);
    }

    /// Cuts everything from the cursor to the end of the current line.
    pub fn cut_to_line_end(&mut self)
        requires
            old(self).wf(),
        ensures
            final(self)@ == command_effect(old(self)@, EditCommand::CutToLineEnd),
            final(self).wf(),
    {
        let p = self.line_buffer.offset();
        let e = self.line_buffer.line_end_pos();
        self.cut_buffer = self.line_buffer.cut_range(p, e);
    }

    /// Cuts the word left of the cursor.
    pub fn cut_word_left(&mut self)
        requires
            old(self).wf(),
        ensures
            final(self)@ == command_effect(old(self)@, EditCommand::CutWordLeft),
            final(self).wf(),
    {
        let a = self.line_buffer.word_left_pos();
        let p = self.line_buffer.offset();
        self.cut_buffer = self.line_buffer.cut_range(a, p);
    }

    /// Cuts the word right of the cursor.
    pub fn cut_word_right(&mut self)
        requires
            old(self).wf(),
        ensures
            final(self)@ == command_effect(old(self)@, EditCommand::CutWordRight),
            final(self).wf(),
    {
        let p = self.line_buffer.offset();
        let e = self.line_buffer.word_right_pos();
        self.cut_buffer = self.line_buffer.cut_range(p, e);
    }

    /// Pastes the cut buffer in front of the cursor.
    pub fn insert_cut_buffer_before(&mut self)
        requires
            old(self).wf(),
        ensures
            final(self)@ == command_effect(old(self)@, EditCommand::PasteCutBufferBefore),
            final(self).wf(),
    {
        let p = self.line_buffer.offset();
        self.line_buffer.insert_chars_at(p, &self.cut_buffer);
    }

    /// Pastes the cut buffer behind the cursor.
    pub fn insert_cut_buffer_after(&mut self)
        requires
            old(self).wf(),
        ensures
            final(self)@ == command_effect(old(self)@, EditCommand::PasteCutBufferAfter),
            final(self).wf(),
    {
        let p = self.line_buffer.offset();
        let n = self.line_buffer.char_count();
        let at = if p < n {
            p + 1
        } else {
            p
        };
        self.line_buffer.insert_chars_at(at, &self.cut_buffer);
    }

    /// Upper-cases from the cursor to the end of the word.
    pub fn uppercase_word(&mut self)
        requires
            old(self).wf(),
        ensures
            final(self)@ == command_effect(old(self)@, EditCommand::UppercaseWord),
            final(self).wf(),
    {
        self.line_buffer.uppercase_word();
    }

    /// Lower-cases from the cursor to the end of the word.
    pub fn lowercase_word(&mut self)
        requires
            old(self).wf(),
        ensures
            final(self)@ == command_effect(old(self)@, EditCommand::LowercaseWord),
            final(self).wf(),
    {
        self.line_buffer.lowercase_word();
    }

    /// Upper-cases the character under the cursor and steps over it.
    pub fn capitalize_char(&mut self)
        requires
            old(self).wf(),
        ensures
            final(self)@ == command_effect(old(self)@, EditCommand::CapitalizeChar),
            final(self).wf(),
    {
        self.line_buffer.capitalize_char();
    }

    /// Exchanges the words around the cursor.
    pub fn swap_words(&mut self)
        requires
            old(self).wf(),
        ensures
            final(self)@ == command_effect(old(self)@, EditCommand::SwapWords),
            final(self).wf(),
    {
        self.line_buffer.swap_words();
    }

    /// Exchanges the characters around the cursor and steps right.
    pub fn swap_graphemes(&mut self)
        requires
            old(self).wf(),
        ensures
            final(self)@ == command_effect(old(self)@, EditCommand::SwapGraphemes),
            final(self).wf(),
    {
        self.line_buffer.swap_graphemes();
    }

    /// Cuts from the cursor to the next occurrence of `c` (through it, or up
    /// to it with `before`); the cut buffer is left alone when there is none.
    pub fn cut_right_until_char(&mut self, c: char, before: bool)
        requires
            old(self).wf(),
        ensures
            final(self)@ == command_effect(
                old(self)@,
                if before {
                    EditCommand::CutRightBefore(c)
                } else {
                    EditCommand::CutRightUntil(c)
                },
            ),
            final(self).wf(),
    {
        match self.line_buffer.cut_right_until(c, before) {
            Some(cut) => {
                self.cut_buffer = cut;
            },
            None => {},
        }
    }

    /// Cuts from the previous occurrence of `c` (from it, or from just right
    /// of it with `before`) up to the cursor; the cut buffer is left alone
    /// when there is none.
    pub fn cut_left_until_char(&mut self, c: char, before: bool)
        requires
            old(self).wf(),
        ensures
            final(self)@ == command_effect(
                old(self)@,
                if before {
                    EditCommand::CutLeftBefore(c)
                } else {
                    EditCommand::CutLeftUntil(c)
                },
            ),
            final(self).wf(),
    {
        match self.line_buffer.cut_left_until(c, before) {
            Some(cut) => {
                self.cut_buffer = cut;
            },
            None => {},
        }
    }

    /// Moves the cursor onto (or, with `before`, just left of) the next
    /// occurrence of `c`.
    pub fn move_right_until_char(&mut self, c: char, before: bool)
        requires
            old(self).wf(),
        ensures
            final(self)@ == command_effect(
                old(self)@,
                if before {
                    EditCommand::MoveRightBefore(c)
                } else {
                    EditCommand::MoveRightUntil(c)
                },
            ),
            final(self).wf(),
    {
        self.line_buffer.move_right_until(c, before);
    }

    /// Moves the cursor onto (or, with `before`, just right of) the previous
    /// occurrence of `c`.
    pub fn move_left_until_char(&mut self, c: char, before: bool)
        requires
            old(self).wf(),
        ensures
            final(self)@ == command_effect(
                old(self)@,
                if before {
                    EditCommand::MoveLeftBefore(c)
                } else {
                    EditCommand::MoveLeftUntil(c)
                },
            ),
            final(self).wf(),
    {
        self.line_buffer.move_left_until(c, before);
    }

    /// Moves the cursor up one line, keeping the column where possible.
    pub fn move_line_up(&mut self)
        requires
            old(self).wf(),
        ensures
            final(self)@ == (EditorState {
                buf: move_line_up_st(old(self)@.buf),
                ..old(self)@
            }),
            final(self).wf(),
    {
        self.line_buffer.move_line_up();
    }

    /// Moves the cursor down one line, keeping the column where possible.
    pub fn move_line_down(&mut self)
        requires
            old(self).wf(),
        ensures
            final(self)@ == (EditorState {
                buf: move_line_down_st(old(self)@.buf),
                ..old(self)@
            }),
            final(self).wf(),
    {
        self.line_buffer.move_line_down();
    }

    /// Whether the cursor stands on the first line of the buffer.
    pub fn is_cursor_at_first_line(&self) -> (r: bool)
        requires
            self.wf(),
        ensures
            r == (line_start_of(self@.buf.text, self@.buf.cur) == 0),
    {
        self.line_buffer.is_cursor_at_first_line()
    }

    /// Whether the cursor stands on the last line of the buffer.
    pub fn is_cursor_at_last_line(&self) -> (r: bool)
        requires
            self.wf(),
        ensures
            r == (line_end_of(self@.buf.text, self@.buf.cur) == self@.buf.text.len()),
    {
        self.line_buffer.is_cursor_at_last_line()
    }
}

} // verus!

verus! {

/// Undo coalescing: two coalescing checkpoints taken while no group is open
/// merge into a single step, so one undo returns the buffer to the
/// checkpoint the editor stood on before either of them.
pub proof fn lemma_undo_coalesce_merges(st: EditorState, b1: BufState, b2: BufState)
    requires
        editor_wf(st),
        !st.open_group,
    ensures
        ({
            let s1 = checkpoint_effect(EditorState { buf: b1, ..st }, UndoBehavior::Coalesce);
            let s2 = checkpoint_effect(EditorState { buf: b2, ..s1 }, UndoBehavior::Coalesce);
            undo_st(s2).buf == st.edits[st.index]
        }),
{
    let s1 = checkpoint_effect(EditorState { buf: b1, ..st }, UndoBehavior::Coalesce);
    let s2 = checkpoint_effect(EditorState { buf: b2, ..s1 }, UndoBehavior::Coalesce);
    assert(s1.edits =~= st.edits.subrange(0, st.index + 1).push(b1));
    assert(s2.edits =~= st.edits.subrange(0, st.index + 1).push(b2));
    assert(s2.edits[st.index] == st.edits[st.index]);
}

/// Full checkpoints stack: after two full checkpoints, one undo restores the
/// first checkpointed buffer, and a second undo restores the checkpoint the
/// editor stood on before both.
pub proof fn lemma_undo_full_stacks(st: EditorState, b1: BufState, b2: BufState)
    requires
        editor_wf(st),
    ensures
        ({
            let s1 = checkpoint_effect(EditorState { buf: b1, ..st }, UndoBehavior::Full);
            let s2 = checkpoint_effect(EditorState { buf: b2, ..s1 }, UndoBehavior::Full);
            undo_st(s2).buf == b1 && undo_st(undo_st(s2)).buf == st.edits[st.index]
        }),
{
    let s1 = checkpoint_effect(EditorState { buf: b1, ..st }, UndoBehavior::Full);
    let s2 = checkpoint_effect(EditorState { buf: b2, ..s1 }, UndoBehavior::Full);
    assert(s1.edits =~= st.edits.subrange(0, st.index + 1).push(b1));
    assert(s2.edits =~= st.edits.subrange(0, st.index + 1).push(b1).push(b2));
    assert(s2.edits[st.index + 1] == b1);
    assert(s2.edits[st.index] == st.edits[st.index]);
}

} // verus!
