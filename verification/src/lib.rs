//! A line-editing engine for interactive terminal programs.
//!
//! The engine turns already-decoded input events into a managed multi-line
//! text buffer with history recall, completion, hinting and an undo stack,
//! and reports a finished line (or an interrupt) back to the caller.
//! Terminal I/O itself stays outside: a frontend feeds raw events in and
//! renders the paint operations the engine queues up.

mod completion;
mod core_editor;
mod edit_mode;
mod engine;
mod enums;
mod highlighter;
mod hinter;
mod history;
mod painter;
mod text_manipulation;
mod validator;

pub use completion::base::{Completer, CompletionActionHandler, Span};
pub use completion::circular::CircularCompletionHandler;
pub use completion::default::{DefaultCompleter, HistoryCompleter};
pub use core_editor::editor::Editor;
pub use core_editor::line_buffer::LineBuffer;
pub use edit_mode::{EditMode, Emacs, Event, KeyCode, KeyEvent, KeyModifiers};
pub use engine::{Reedline, EVENTS_THRESHOLD};
pub use enums::{ClassifiedView, EditCommand, InputMode, PromptEditMode, ReedlineEvent, Signal, UndoBehavior};
pub use highlighter::{DefaultHighlighter, Highlighter};
pub use hinter::{DefaultHinter, Hinter};
pub use history::{History, HistoryNavigationQuery};
pub use painter::{PaintOp, Painter, PromptHistorySearch, PromptHistorySearchStatus};
pub use validator::{DefaultValidator, ValidationResult, Validator};
