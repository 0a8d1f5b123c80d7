//! The shared vocabulary of the engine: the signal a finished interaction
//! reports, the abstract events the key-binding parser produces, the edit
//! commands the dispatcher applies, and the undo policy attached to each
//! command.

use vstd::prelude::*;

verus! {

/// Terminal outcome of one completed interaction: the engine hands it to the
/// caller and the read cycle ends.
#[derive(Debug, Clone, PartialEq, Eq)]
pub enum Signal {
    /// The user submitted a finished line; it is carried here.
    Success(String),
    /// The interaction was interrupted.
    CtrlC,
    /// End of input was signalled on an empty buffer.
    CtrlD,
    /// The user asked for the screen to be cleared.
    CtrlL,
}

/// Governs whether an edit command opens an undo checkpoint.
#[derive(Debug, Clone, Copy, PartialEq, Eq, Structural)]
pub enum UndoBehavior {
    /// No checkpoint: the command is pure navigation.
    Ignore,
    /// Always opens a new undo step.
    Full,
    /// Merges into the currently open step, unless that step was just closed
    /// by a full or ignored command.
    Coalesce,
}

/// An atomic mutation of the line buffer, each with a fixed undo policy
/// (see [`EditCommand::undo_behavior`]).
#[derive(Debug, Clone, PartialEq, Eq)]
pub enum EditCommand {
    /// Move the cursor to the start of the buffer.
    MoveToStart,
    /// Move the cursor to the end of the buffer.
    MoveToEnd,
    /// Move the cursor to the start of the current line.
    MoveToLineStart,
    /// Move the cursor to the end of the current line.
    MoveToLineEnd,
    /// Move the cursor one character to the left.
    MoveLeft,
    /// Move the cursor one character to the right.
    MoveRight,
    /// Move the cursor one word to the left.
    MoveWordLeft,
    /// Move the cursor one word to the right.
    MoveWordRight,
    /// Insert a character at the cursor.
    InsertChar(char),
    /// Insert a string at the cursor.
    InsertString(String),
    /// Delete the character to the left of the cursor.
    Backspace,
    /// Delete the character under the cursor.
    Delete,
    /// Delete the word to the left of the cursor.
    BackspaceWord,
    /// Delete the word to the right of the cursor.
    DeleteWord,
    /// Clear the whole buffer.
    Clear,
    /// Remove everything from the cursor to the end of the current line.
    ClearToLineEnd,
    /// Cut the current line into the cut buffer.
    CutCurrentLine,
    /// Cut everything from the start of the buffer to the cursor.
    CutFromStart,
    /// Cut everything from the start of the current line to the cursor.
    CutFromLineStart,
    /// Cut everything from the cursor to the end of the buffer.
    CutToEnd,
    /// Cut everything from the cursor to the end of the current line.
    CutToLineEnd,
    /// Cut the word to the left of the cursor.
    CutWordLeft,
    /// Cut the word to the right of the cursor.
    CutWordRight,
    /// Paste the cut buffer in front of the cursor.
    PasteCutBufferBefore,
    /// Paste the cut buffer behind the cursor.
    PasteCutBufferAfter,
    /// Upper-case the letters from the cursor to the end of the word.
    UppercaseWord,
    /// Lower-case the letters from the cursor to the end of the word.
    LowercaseWord,
    /// Capitalize the character under the cursor and step over it.
    CapitalizeChar,
    /// Swap the words around the cursor.
    SwapWords,
    /// Swap the characters around the cursor and step right.
    SwapGraphemes,
    /// Step back one undo checkpoint.
    Undo,
    /// Step forward one undo checkpoint.
    Redo,
    /// Cut from the cursor up to and including the next occurrence of the
    /// character.
    CutRightUntil(char),
    /// Cut from the cursor up to (excluding) the next occurrence of the
    /// character.
    CutRightBefore(char),
    /// Move the cursor onto the next occurrence of the character.
    MoveRightUntil(char),
    /// Move the cursor just before the next occurrence of the character.
    MoveRightBefore(char),
    /// Cut back to and including the previous occurrence of the character.
    CutLeftUntil(char),
    /// Cut back to (excluding) the previous occurrence of the character.
    CutLeftBefore(char),
    /// Move the cursor onto the previous occurrence of the character.
    MoveLeftUntil(char),
    /// Move the cursor just after the previous occurrence of the character.
    MoveLeftBefore(char),
}

/// The fixed lookup table from command to undo policy: cursor motion and the
/// undo steps themselves leave the checkpoint stack alone, plain typing
/// coalesces into the open checkpoint, and every other mutation opens a
/// checkpoint of its own.
pub open spec fn undo_behavior_spec(cmd: EditCommand) -> UndoBehavior {
    match cmd {
        EditCommand::MoveToStart => UndoBehavior::Ignore,
        EditCommand::MoveToEnd => UndoBehavior::Ignore,
        EditCommand::MoveToLineStart => UndoBehavior::Ignore,
        EditCommand::MoveToLineEnd => UndoBehavior::Ignore,
        EditCommand::MoveLeft => UndoBehavior::Ignore,
        EditCommand::MoveRight => UndoBehavior::Ignore,
        EditCommand::MoveWordLeft => UndoBehavior::Ignore,
        EditCommand::MoveWordRight => UndoBehavior::Ignore,
        EditCommand::MoveRightUntil(_) => UndoBehavior::Ignore,
        EditCommand::MoveRightBefore(_) => UndoBehavior::Ignore,
        EditCommand::MoveLeftUntil(_) => UndoBehavior::Ignore,
        EditCommand::MoveLeftBefore(_) => UndoBehavior::Ignore,
        EditCommand::Undo => UndoBehavior::Ignore,
        EditCommand::Redo => UndoBehavior::Ignore,
        EditCommand::InsertChar(_) => UndoBehavior::Coalesce,
        EditCommand::InsertString(_) => UndoBehavior::Coalesce,
        EditCommand::Backspace => UndoBehavior::Coalesce,
        EditCommand::Delete => UndoBehavior::Coalesce,
        _ => UndoBehavior::Full,
    }
}

impl EditCommand {
    /// The undo policy of this command, as given by the fixed lookup table
    /// [`undo_behavior_spec`].
    pub fn undo_behavior(&self) -> (behavior: UndoBehavior)
        ensures
            behavior == undo_behavior_spec(*self),
    {
        match self {
            EditCommand::MoveToStart => UndoBehavior::Ignore,
            EditCommand::MoveToEnd => UndoBehavior::Ignore,
            EditCommand::MoveToLineStart => UndoBehavior::Ignore,
            EditCommand::MoveToLineEnd => UndoBehavior::Ignore,
            EditCommand::MoveLeft => UndoBehavior::Ignore,
            EditCommand::MoveRight => UndoBehavior::Ignore,
            EditCommand::MoveWordLeft => UndoBehavior::Ignore,
            EditCommand::MoveWordRight => UndoBehavior::Ignore,
            EditCommand::MoveRightUntil(_) => UndoBehavior::Ignore,
            EditCommand::MoveRightBefore(_) => UndoBehavior::Ignore,
            EditCommand::MoveLeftUntil(_) => UndoBehavior::Ignore,
            EditCommand::MoveLeftBefore(_) => UndoBehavior::Ignore,
            EditCommand::Undo => UndoBehavior::Ignore,
            EditCommand::Redo => UndoBehavior::Ignore,
            EditCommand::InsertChar(_) => UndoBehavior::Coalesce,
            EditCommand::InsertString(_) => UndoBehavior::Coalesce,
            EditCommand::Backspace => UndoBehavior::Coalesce,
            EditCommand::Delete => UndoBehavior::Coalesce,
            _ => UndoBehavior::Full,
        }
    }
}

/// A device-independent input event, as the key-binding parser hands it to
/// the engine.
#[derive(Debug)]
pub enum ReedlineEvent {
    /// Trigger the completion action, or accept the current hint.
    HandleTab,
    /// End-of-input was requested.
    CtrlD,
    /// The interaction was interrupted.
    CtrlC,
    /// Clear the screen.
    ClearScreen,
    /// Submit the buffer.
    Enter,
    /// A batch of edit commands.
    Edit(Vec<EditCommand>),
    /// A pointer event; the engine ignores it.
    Mouse,
    /// The terminal was resized to the carried width and height.
    Resize(u16, u16),
    /// A periodic repaint tick.
    Repaint,
    /// Step to the previous (older) history entry.
    PreviousHistory,
    /// Step to the next (newer) history entry.
    NextHistory,
    /// Move up a line, or to older history on the first line.
    Up,
    /// Move down a line, or to newer history on the last line.
    Down,
    /// Enter the interactive history search.
    SearchHistory,
    /// A burst of events recognised as a paste, to be handled atomically.
    Paste(Vec<ReedlineEvent>),
    /// Several events to be handled in order.
    Multiple(Vec<ReedlineEvent>),
    /// No operation.
    Noop,
}

/// Which of the three interpretation modes the engine is in.
#[derive(Debug, Clone, Copy, PartialEq, Eq, Structural)]
pub enum InputMode {
    /// Regular input by user typing; undo tracking is active.
    Regular,
    /// Reverse search: editing affects the search string, and matched
    /// history entries are offered for the buffer.
    HistorySearch,
    /// History is walked through in the standard prompt; any edit switches
    /// straight back to [`InputMode::Regular`].
    HistoryTraversal,
}

/// The prompt style matching the active edit mode.
#[derive(Debug, Clone, Copy, PartialEq, Eq, Structural)]
pub enum PromptEditMode {
    /// Emacs-style key bindings are active.
    Emacs,
    /// Vi-style key bindings are active.
    Vi,
}

} // verus!

verus! {

/// A ghost, payload-flattened picture of one abstract event: edit batches
/// carry their command sequence, the wrapper variants collapse to a marker,
/// everything else maps one to one. It lets contracts pin an event without
/// building vectors in specifications.
pub enum ClassifiedView {
    /// See [`ReedlineEvent::HandleTab`].
    HandleTab,
    /// See [`ReedlineEvent::CtrlD`].
    CtrlD,
    /// See [`ReedlineEvent::CtrlC`].
    CtrlC,
    /// See [`ReedlineEvent::ClearScreen`].
    ClearScreen,
    /// See [`ReedlineEvent::Enter`].
    Enter,
    /// The commands of a [`ReedlineEvent::Edit`] batch.
    Edit(Seq<EditCommand>),
    /// See [`ReedlineEvent::Mouse`].
    Mouse,
    /// See [`ReedlineEvent::Resize`].
    Resize(u16, u16),
    /// See [`ReedlineEvent::Repaint`].
    Repaint,
    /// See [`ReedlineEvent::PreviousHistory`].
    PreviousHistory,
    /// See [`ReedlineEvent::NextHistory`].
    NextHistory,
    /// See [`ReedlineEvent::Up`].
    Up,
    /// See [`ReedlineEvent::Down`].
    Down,
    /// See [`ReedlineEvent::SearchHistory`].
    SearchHistory,
    /// A paste or multi-event wrapper.
    Wrapper,
    /// See [`ReedlineEvent::Noop`].
    Noop,
}

/// The flattened picture of an abstract event.
pub open spec fn flat_view(e: ReedlineEvent) -> ClassifiedView {
    match e {
        ReedlineEvent::HandleTab => ClassifiedView::HandleTab,
        ReedlineEvent::CtrlD => ClassifiedView::CtrlD,
        ReedlineEvent::CtrlC => ClassifiedView::CtrlC,
        ReedlineEvent::ClearScreen => ClassifiedView::ClearScreen,
        ReedlineEvent::Enter => ClassifiedView::Enter,
        ReedlineEvent::Edit(cmds) => ClassifiedView::Edit(cmds@),
        ReedlineEvent::Mouse => ClassifiedView::Mouse,
        ReedlineEvent::Resize(w, h) => ClassifiedView::Resize(w, h),
        ReedlineEvent::Repaint => ClassifiedView::Repaint,
        ReedlineEvent::PreviousHistory => ClassifiedView::PreviousHistory,
        ReedlineEvent::NextHistory => ClassifiedView::NextHistory,
        ReedlineEvent::Up => ClassifiedView::Up,
        ReedlineEvent::Down => ClassifiedView::Down,
        ReedlineEvent::SearchHistory => ClassifiedView::SearchHistory,
        ReedlineEvent::Paste(_) => ClassifiedView::Wrapper,
        ReedlineEvent::Multiple(_) => ClassifiedView::Wrapper,
        ReedlineEvent::Noop => ClassifiedView::Noop,
    }
}

} // verus!
