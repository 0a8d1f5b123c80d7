//! The device-independent model of raw terminal input, and the Emacs-style
//! key-binding parser that turns one raw event into an abstract event.

use vstd::prelude::*;

use crate::enums::{flat_view, ClassifiedView, EditCommand, PromptEditMode, ReedlineEvent};

verus! {

/// The modifier held with a key press.
#[derive(Debug, Clone, Copy, PartialEq, Eq, Structural)]
pub enum KeyModifiers {
    /// No modifier.
    Plain,
    /// Shift.
    Shift,
    /// Control.
    Control,
    /// Alt.
    Alt,
}

/// The key that was pressed.
#[derive(Debug, Clone, Copy, PartialEq, Eq, Structural)]
pub enum KeyCode {
    /// A printable character.
    Char(char),
    /// The enter key.
    Enter,
    /// The tab key.
    Tab,
    /// The backspace key.
    Backspace,
    /// The delete key.
    Delete,
    /// The left arrow.
    Left,
    /// The right arrow.
    Right,
    /// The up arrow.
    Up,
    /// The down arrow.
    Down,
    /// The home key.
    Home,
    /// The end key.
    End,
    /// The escape key.
    Esc,
}

/// One key press: the key and the modifier held with it.
#[derive(Debug, Clone, Copy, PartialEq, Eq, Structural)]
pub struct KeyEvent {
    /// The key.
    pub code: KeyCode,
    /// The modifier.
    pub modifiers: KeyModifiers,
}

/// One raw terminal event, already decoded from the wire.
#[derive(Debug, Clone, Copy, PartialEq, Eq, Structural)]
pub enum Event {
    /// A key press.
    Key(KeyEvent),
    /// The terminal was resized to the carried width and height.
    Resize(u16, u16),
    /// A pointer event.
    Mouse,
    /// Anything the frontend could not classify.
    Unknown,
}

/// The single edit command an Emacs-style key press maps to, or none.
pub open spec fn emacs_edit_of(key: KeyEvent) -> Option<EditCommand> {
    match key.modifiers {
        KeyModifiers::Plain | KeyModifiers::Shift => match key.code {
            KeyCode::Char(c) => Some(EditCommand::InsertChar(c)),
            KeyCode::Backspace => Some(EditCommand::Backspace),
            KeyCode::Delete => Some(EditCommand::Delete),
            KeyCode::Left => Some(EditCommand::MoveLeft),
            KeyCode::Right => Some(EditCommand::MoveRight),
            KeyCode::Home => Some(EditCommand::MoveToLineStart),
            KeyCode::End => Some(EditCommand::MoveToLineEnd),
            _ => None,
        },
        KeyModifiers::Control => match key.code {
            KeyCode::Char('a') => Some(EditCommand::MoveToStart),
            KeyCode::Char('e') => Some(EditCommand::MoveToEnd),
            KeyCode::Char('b') => Some(EditCommand::MoveLeft),
            KeyCode::Char('f') => Some(EditCommand::MoveRight),
            KeyCode::Char('h') => Some(EditCommand::Backspace),
            KeyCode::Char('k') => Some(EditCommand::CutToEnd),
            KeyCode::Char('u') => Some(EditCommand::CutFromStart),
            KeyCode::Char('w') => Some(EditCommand::CutWordLeft),
            KeyCode::Char('y') => Some(EditCommand::PasteCutBufferBefore),
            KeyCode::Char('t') => Some(EditCommand::SwapGraphemes),
            KeyCode::Char('z') => Some(EditCommand::Undo),
            KeyCode::Char('g') => Some(EditCommand::Redo),
            KeyCode::Left => Some(EditCommand::MoveWordLeft),
            KeyCode::Right => Some(EditCommand::MoveWordRight),
            KeyCode::Delete => Some(EditCommand::DeleteWord),
            KeyCode::Backspace => Some(EditCommand::BackspaceWord),
            _ => None,
        },
        KeyModifiers::Alt => match key.code {
            KeyCode::Char('b') => Some(EditCommand::MoveWordLeft),
            KeyCode::Char('f') => Some(EditCommand::MoveWordRight),
            KeyCode::Char('d') => Some(EditCommand::DeleteWord),
            KeyCode::Char('u') => Some(EditCommand::UppercaseWord),
            KeyCode::Char('l') => Some(EditCommand::LowercaseWord),
            KeyCode::Char('c') => Some(EditCommand::CapitalizeChar),
            KeyCode::Char('t') => Some(EditCommand::SwapWords),
            _ => None,
        },
    }
}

/// The non-edit abstract event an Emacs-style key press maps to, when
/// [`emacs_edit_of`] gives none. These are the events that do not touch the
/// buffer through the command dispatcher.
pub open spec fn emacs_special_of(key: KeyEvent) -> ClassifiedView {
    match key.modifiers {
        KeyModifiers::Plain | KeyModifiers::Shift => match key.code {
            KeyCode::Enter => ClassifiedView::Enter,
            KeyCode::Tab => ClassifiedView::HandleTab,
            KeyCode::Up => ClassifiedView::Up,
            KeyCode::Down => ClassifiedView::Down,
            _ => ClassifiedView::Noop,
        },
        KeyModifiers::Control => match key.code {
            KeyCode::Char('c') => ClassifiedView::CtrlC,
            KeyCode::Char('d') => ClassifiedView::CtrlD,
            KeyCode::Char('l') => ClassifiedView::ClearScreen,
            KeyCode::Char('r') => ClassifiedView::SearchHistory,
            KeyCode::Char('p') => ClassifiedView::PreviousHistory,
            KeyCode::Char('n') => ClassifiedView::NextHistory,
            _ => ClassifiedView::Noop,
        },
        KeyModifiers::Alt => ClassifiedView::Noop,
    }
}

/// The flattened view of what the Emacs parser hands back for a raw event:
/// a resize passes through, a pointer event stays a pointer event, a key
/// with an edit binding becomes a batch of exactly that command, and any
/// other key becomes its payload-free event.
pub open spec fn emacs_flat_of(event: Event) -> ClassifiedView {
    match event {
        Event::Resize(w, h) => ClassifiedView::Resize(w, h),
        Event::Mouse => ClassifiedView::Mouse,
        Event::Unknown => ClassifiedView::Noop,
        Event::Key(key) => match emacs_edit_of(key) {
            Some(cmd) => ClassifiedView::Edit(seq![cmd]),
            None => emacs_special_of(key),
        },
    }
}

/// Whether `r` is what the Emacs parser must hand back for `event`: its
/// flattened view is the one the binding table gives.
pub open spec fn emacs_parses_to(event: Event, r: ReedlineEvent) -> bool {
    flat_view(r) == emacs_flat_of(event)
}

/// Translates raw events into abstract events.
pub trait EditMode {
    /// Turns one raw event into the abstract event it is bound to.
    fn parse_event(&mut self, event: Event) -> ReedlineEvent;

    /// The prompt style this edit mode asks for.
    fn edit_mode(&self) -> PromptEditMode;
}

/// The Emacs-style key bindings.
#[derive(Debug, Clone, Copy, Default)]
pub struct Emacs;

impl Emacs {
    /// A parser with the default Emacs-style bindings.
    pub fn new() -> (r: Emacs)
        ensures
            r == Emacs,
    {
        Emacs
    }

    /// Turns one raw event into the abstract event it is bound to; the
    /// binding table is [`emacs_edit_of`] and [`emacs_special_of`].
    pub fn parse(&self, event: Event) -> (r: ReedlineEvent)
        ensures
            emacs_parses_to(event, r),
    {
        match event {
            Event::Resize(w, h) => ReedlineEvent::Resize(w, h),
            Event::Mouse => ReedlineEvent::Mouse,
            Event::Unknown => ReedlineEvent::Noop,
            Event::Key(key) => match key.modifiers {
                KeyModifiers::Plain | KeyModifiers::Shift => match key.code {
                    KeyCode::Char(c) => edit_batch(EditCommand::InsertChar(c)),
                    KeyCode::Backspace => edit_batch(EditCommand::Backspace),
                    KeyCode::Delete => edit_batch(EditCommand::Delete),
                    KeyCode::Left => edit_batch(EditCommand::MoveLeft),
                    KeyCode::Right => edit_batch(EditCommand::MoveRight),
                    KeyCode::Home => edit_batch(EditCommand::MoveToLineStart),
                    KeyCode::End => edit_batch(EditCommand::MoveToLineEnd),
                    KeyCode::Enter => ReedlineEvent::Enter,
                    KeyCode::Tab => ReedlineEvent::HandleTab,
                    KeyCode::Up => ReedlineEvent::Up,
                    KeyCode::Down => ReedlineEvent::Down,
                    KeyCode::Esc => ReedlineEvent::Noop,
                },
                KeyModifiers::Control => match key.code {
                    KeyCode::Char('a') => edit_batch(EditCommand::MoveToStart),
                    KeyCode::Char('e') => edit_batch(EditCommand::MoveToEnd),
                    KeyCode::Char('b') => edit_batch(EditCommand::MoveLeft),
                    KeyCode::Char('f') => edit_batch(EditCommand::MoveRight),
                    KeyCode::Char('h') => edit_batch(EditCommand::Backspace),
                    KeyCode::Char('k') => edit_batch(EditCommand::CutToEnd),
                    KeyCode::Char('u') => edit_batch(EditCommand::CutFromStart),
                    KeyCode::Char('w') => edit_batch(EditCommand::CutWordLeft),
                    KeyCode::Char('y') => edit_batch(EditCommand::PasteCutBufferBefore),
                    KeyCode::Char('t') => edit_batch(EditCommand::SwapGraphemes),
                    KeyCode::Char('z') => edit_batch(EditCommand::Undo),
                    KeyCode::Char('g') => edit_batch(EditCommand::Redo),
                    KeyCode::Left => edit_batch(EditCommand::MoveWordLeft),
                    KeyCode::Right => edit_batch(EditCommand::MoveWordRight),
                    KeyCode::Delete => edit_batch(EditCommand::DeleteWord),
                    KeyCode::Backspace => edit_batch(EditCommand::BackspaceWord),
                    KeyCode::Char('c') => ReedlineEvent::CtrlC,
                    KeyCode::Char('d') => ReedlineEvent::CtrlD,
                    KeyCode::Char('l') => ReedlineEvent::ClearScreen,
                    KeyCode::Char('r') => ReedlineEvent::SearchHistory,
                    KeyCode::Char('p') => ReedlineEvent::PreviousHistory,
                    KeyCode::Char('n') => ReedlineEvent::NextHistory,
                    _ => ReedlineEvent::Noop,
                },
                KeyModifiers::Alt => match key.code {
                    KeyCode::Char('b') => edit_batch(EditCommand::MoveWordLeft),
                    KeyCode::Char('f') => edit_batch(EditCommand::MoveWordRight),
                    KeyCode::Char('d') => edit_batch(EditCommand::DeleteWord),
                    KeyCode::Char('u') => edit_batch(EditCommand::UppercaseWord),
                    KeyCode::Char('l') => edit_batch(EditCommand::LowercaseWord),
                    KeyCode::Char('c') => edit_batch(EditCommand::CapitalizeChar),
                    KeyCode::Char('t') => edit_batch(EditCommand::SwapWords),
                    _ => ReedlineEvent::Noop,
                },
            },
        }
    }
}

/// A batch holding exactly the given command.
fn edit_batch(cmd: EditCommand) -> (r: ReedlineEvent)
    ensures
        r matches ReedlineEvent::Edit(cmds) && cmds@ == seq![cmd],
{
    let mut cmds: Vec<EditCommand> = Vec::new();
    cmds.push(cmd);
    proof {
        assert(cmds@ =~= seq![cmd]);
    }
    ReedlineEvent::Edit(cmds)
}

impl EditMode for Emacs {
    /// See [`Emacs::parse`].
    fn parse_event(&mut self, event: Event) -> (r: ReedlineEvent)
        ensures
            emacs_parses_to(event, r),
            *final(self) == *old(self),
    {
        self.parse(event)
    }

    /// The Emacs prompt style.
    fn edit_mode(&self) -> (r: PromptEditMode)
        ensures
            r == PromptEditMode::Emacs,
    {
        PromptEditMode::Emacs
    }
}

} // verus!
