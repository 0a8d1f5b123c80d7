use reedline::{
    CircularCompletionHandler, DefaultCompleter, EditCommand, Editor, Event, History, InputMode,
    KeyCode, KeyEvent, KeyModifiers, PaintOp, Reedline, ReedlineEvent, Signal, Span,
};

fn key(c: char) -> Event {
    Event::Key(KeyEvent { code: KeyCode::Char(c), modifiers: KeyModifiers::Plain })
}

fn edit(commands: Vec<EditCommand>) -> ReedlineEvent {
    ReedlineEvent::Edit(commands)
}

fn type_str(engine: &mut Reedline, s: &str) {
    let commands: Vec<EditCommand> = s.chars().map(EditCommand::InsertChar).collect();
    engine.run_edit_commands(&commands);
}

#[test]
fn span_construction_stores_bounds() {
    let span = Span::new(2, 5);
    assert_eq!(span.start, 2);
    assert_eq!(span.end, 5);
    let empty = Span::new(3, 3);
    assert_eq!(empty.start, 3);
    assert_eq!(empty.end, 3);
}

#[test]
fn undo_coalesce_merges_two_inserts_into_one_step() {
    let mut editor = Editor::new();
    editor.insert_char('a');
    editor.remember_undo_state(false);
    editor.insert_char('b');
    editor.remember_undo_state(false);
    assert_eq!(editor.get_buffer(), "ab");
    editor.undo();
    assert_eq!(editor.get_buffer(), "");
}

#[test]
fn undo_full_needs_two_steps() {
    let mut editor = Editor::new();
    editor.insert_char('a');
    editor.remember_undo_state(true);
    editor.insert_char('b');
    editor.remember_undo_state(true);
    editor.undo();
    assert_eq!(editor.get_buffer(), "a");
    editor.undo();
    assert_eq!(editor.get_buffer(), "");
}

#[test]
fn paste_detection_wraps_burst_above_threshold() {
    let mut engine = Reedline::create();
    let events: Vec<Event> = (0..11).map(|_| key('x')).collect();
    let out = engine.classify_burst(events);
    assert_eq!(out.len(), 1);
    match &out[0] {
        ReedlineEvent::Paste(subs) => {
            assert_eq!(subs.len(), 11);
            for sub in subs {
                match sub {
                    ReedlineEvent::Edit(commands) => {
                        assert_eq!(commands.len(), 1);
                        assert_eq!(commands[0], EditCommand::InsertChar('x'));
                    },
                    other => panic!("expected an edit batch, got {:?}", other),
                }
            }
        },
        other => panic!("expected a paste wrapper, got {:?}", other),
    }
}

#[test]
fn resize_coalescing_keeps_only_latest_resize_first() {
    let mut engine = Reedline::create();
    let events = vec![Event::Resize(80, 24), Event::Resize(100, 30), key('a'), key('b')];
    let out = engine.classify_burst(events);
    assert_eq!(out.len(), 2);
    match &out[0] {
        ReedlineEvent::Resize(w, h) => {
            assert_eq!((*w, *h), (100, 30));
        },
        other => panic!("expected the resize first, got {:?}", other),
    }
    match &out[1] {
        ReedlineEvent::Edit(commands) => {
            assert_eq!(
                commands.as_slice(),
                &[EditCommand::InsertChar('a'), EditCommand::InsertChar('b')]
            );
        },
        other => panic!("expected one merged edit batch, got {:?}", other),
    }
}

#[test]
fn below_threshold_merges_consecutive_edits_and_breaks_on_other() {
    let mut engine = Reedline::create();
    let enter = Event::Key(KeyEvent { code: KeyCode::Enter, modifiers: KeyModifiers::Plain });
    let events = vec![key('a'), key('b'), enter, key('c')];
    let out = engine.classify_burst(events);
    assert_eq!(out.len(), 3);
    match &out[0] {
        ReedlineEvent::Edit(commands) => assert_eq!(commands.len(), 2),
        other => panic!("expected merged edits, got {:?}", other),
    }
    assert!(matches!(out[1], ReedlineEvent::Enter));
    match &out[2] {
        ReedlineEvent::Edit(commands) => {
            assert_eq!(commands.as_slice(), &[EditCommand::InsertChar('c')])
        },
        other => panic!("expected trailing edit, got {:?}", other),
    }
}

#[test]
fn eof_on_empty_buffer_signals_end_of_input() {
    let mut engine = Reedline::create();
    let signal = engine.handle_editor_event(&ReedlineEvent::CtrlD);
    assert_eq!(signal, Some(Signal::CtrlD));
    assert_eq!(engine.input_mode(), InputMode::Regular);
}

#[test]
fn eof_on_nonempty_buffer_deletes_at_cursor() {
    let mut engine = Reedline::create();
    type_str(&mut engine, "hi");
    engine.run_edit_commands(&[EditCommand::MoveToStart]);
    let signal = engine.handle_editor_event(&ReedlineEvent::CtrlD);
    assert_eq!(signal, None);
    assert_eq!(engine.editor().get_buffer(), "i");
    assert_eq!(engine.input_mode(), InputMode::Regular);
}

#[test]
fn eof_in_history_search_with_empty_buffer_signals_and_leaves_search() {
    let mut engine = Reedline::create();
    engine.handle_editor_event(&ReedlineEvent::SearchHistory);
    assert_eq!(engine.input_mode(), InputMode::HistorySearch);
    let signal = engine.handle_event(&ReedlineEvent::CtrlD);
    assert_eq!(signal, Some(Signal::CtrlD));
    assert_eq!(engine.input_mode(), InputMode::Regular);
}

#[test]
fn traversal_demotion_snapshots_then_edits_then_regular() {
    let mut history = History::new();
    history.append("ls -la".to_string());
    let mut engine = Reedline::create().with_history(history);
    let signal = engine.handle_editor_event(&ReedlineEvent::PreviousHistory);
    assert_eq!(signal, None);
    assert_eq!(engine.input_mode(), InputMode::HistoryTraversal);
    assert_eq!(engine.editor().get_buffer(), "ls -la");
    engine.handle_editor_event(&edit(vec![EditCommand::InsertChar('!')]));
    assert_eq!(engine.input_mode(), InputMode::Regular);
    assert_eq!(engine.editor().get_buffer(), "ls -la!");
}

#[test]
fn prefix_search_steps_to_matching_entries_and_stops_at_oldest() {
    let mut history = History::new();
    history.append("ls -la".to_string());
    history.append("ls -l".to_string());
    history.append("pwd".to_string());
    let mut engine = Reedline::create().with_history(history);
    type_str(&mut engine, "ls");
    assert_eq!(engine.editor().offset(), 2);
    engine.previous_history();
    assert_eq!(engine.editor().get_buffer(), "ls -l");
    engine.previous_history();
    assert_eq!(engine.editor().get_buffer(), "ls -la");
    engine.previous_history();
    assert_eq!(engine.editor().get_buffer(), "ls -la");
}

#[test]
fn plain_traversal_forward_past_newest_restores_typed_input() {
    let mut history = History::new();
    history.append("older".to_string());
    let mut engine = Reedline::create().with_history(history);
    type_str(&mut engine, "draft");
    engine.run_edit_commands(&[EditCommand::MoveToStart]);
    engine.previous_history();
    assert_eq!(engine.editor().get_buffer(), "older");
    engine.next_history();
    assert_eq!(engine.editor().get_buffer(), "draft");
}

#[test]
fn incomplete_submit_inserts_newline_instead_of_signal() {
    let mut engine = Reedline::create();
    type_str(&mut engine, "echo (");
    let signal = engine.handle_editor_event(&ReedlineEvent::Enter);
    assert_eq!(signal, None);
    assert_eq!(engine.editor().get_buffer(), "echo (\n");
    assert_eq!(engine.input_mode(), InputMode::Regular);
}

#[test]
fn complete_submit_appends_to_history_and_clears() {
    let mut engine = Reedline::create();
    type_str(&mut engine, "echo ok");
    let signal = engine.handle_editor_event(&ReedlineEvent::Enter);
    assert_eq!(signal, Some(Signal::Success("echo ok".to_string())));
    assert_eq!(engine.editor().get_buffer(), "");
    let entries = engine.history().iter_chronologic();
    assert_eq!(entries.as_slice(), &["echo ok".to_string()]);
}

#[test]
fn interrupt_clears_buffer_and_signals() {
    let mut engine = Reedline::create();
    type_str(&mut engine, "half a line");
    let signal = engine.handle_editor_event(&ReedlineEvent::CtrlC);
    assert_eq!(signal, Some(Signal::CtrlC));
    assert_eq!(engine.editor().get_buffer(), "");
}

#[test]
fn substring_search_tracks_needle_edits() {
    let mut history = History::new();
    history.append("foo".to_string());
    history.append("bar".to_string());
    history.append("foobar".to_string());
    let mut engine = Reedline::create().with_history(history);
    engine.handle_editor_event(&ReedlineEvent::SearchHistory);
    assert_eq!(engine.input_mode(), InputMode::HistorySearch);
    engine.handle_event(&edit(vec![EditCommand::InsertChar('b')]));
    assert_eq!(engine.history().string_at_cursor(), Some("foobar".to_string()));
    engine.handle_event(&edit(vec![EditCommand::InsertChar('a')]));
    assert_eq!(engine.history().string_at_cursor(), Some("foobar".to_string()));
    engine.handle_event(&edit(vec![EditCommand::Backspace]));
    assert_eq!(engine.history().string_at_cursor(), Some("foobar".to_string()));
    engine.handle_event(&ReedlineEvent::Enter);
    assert_eq!(engine.input_mode(), InputMode::Regular);
    assert_eq!(engine.editor().get_buffer(), "foobar");
}

#[test]
fn search_back_past_oldest_match_stays_put() {
    let mut history = History::new();
    history.append("alpha".to_string());
    history.append("beta".to_string());
    let mut engine = Reedline::create().with_history(history);
    engine.handle_editor_event(&ReedlineEvent::SearchHistory);
    engine.handle_event(&edit(vec![EditCommand::InsertChar('a')]));
    assert_eq!(engine.history().string_at_cursor(), Some("beta".to_string()));
    engine.handle_event(&ReedlineEvent::PreviousHistory);
    assert_eq!(engine.history().string_at_cursor(), Some("alpha".to_string()));
    engine.handle_event(&ReedlineEvent::PreviousHistory);
    assert_eq!(engine.history().string_at_cursor(), Some("alpha".to_string()));
    engine.handle_event(&ReedlineEvent::NextHistory);
    assert_eq!(engine.history().string_at_cursor(), Some("beta".to_string()));
    // A forward step past the newest match immediately steps back.
    engine.handle_event(&ReedlineEvent::NextHistory);
    assert_eq!(engine.history().string_at_cursor(), Some("beta".to_string()));
}

#[test]
fn full_repaint_carries_buffer_split_at_cursor() {
    let mut engine = Reedline::create();
    type_str(&mut engine, "hello");
    engine.run_edit_commands(&[EditCommand::MoveLeft, EditCommand::MoveLeft]);
    engine.take_paint_ops();
    engine.full_repaint();
    let ops = engine.take_paint_ops();
    assert_eq!(ops.len(), 1);
    match &ops[0] {
        PaintOp::RepaintEverything { line_before_cursor, line_after_cursor, .. } => {
            assert_eq!(line_before_cursor, "hel");
            assert_eq!(line_after_cursor, "lo");
        },
        other => panic!("expected a full repaint, got {:?}", other),
    }
}

#[test]
fn process_events_runs_a_whole_burst() {
    let mut engine = Reedline::create();
    let mut events: Vec<Event> = "echo hi".chars().map(key).collect();
    events.push(Event::Key(KeyEvent { code: KeyCode::Enter, modifiers: KeyModifiers::Plain }));
    let signal = engine.process_events(events);
    assert_eq!(signal, Some(Signal::Success("echo hi".to_string())));
}

#[test]
fn clear_screen_event_signals_caller() {
    let mut engine = Reedline::create();
    let signal = engine.handle_editor_event(&ReedlineEvent::ClearScreen);
    assert_eq!(signal, Some(Signal::CtrlL));
}

#[test]
fn undo_command_through_dispatcher() {
    let mut engine = Reedline::create();
    engine.run_edit_commands(&[EditCommand::InsertChar('a'), EditCommand::InsertChar('b')]);
    assert_eq!(engine.editor().get_buffer(), "ab");
    engine.run_edit_commands(&[EditCommand::Undo]);
    assert_eq!(engine.editor().get_buffer(), "");
    engine.run_edit_commands(&[EditCommand::Redo]);
    assert_eq!(engine.editor().get_buffer(), "ab");
}

#[test]
fn empty_burst_classifies_to_nothing() {
    let mut engine = Reedline::create();
    let out = engine.classify_burst(Vec::new());
    assert!(out.is_empty());
}

#[test]
fn resize_only_burst_yields_one_resize() {
    let mut engine = Reedline::create();
    let out = engine.classify_burst(vec![Event::Resize(10, 5), Event::Resize(42, 7)]);
    assert_eq!(out.len(), 1);
    assert!(matches!(out[0], ReedlineEvent::Resize(42, 7)));
}

#[test]
fn edits_on_empty_buffer_are_harmless() {
    let mut engine = Reedline::create();
    engine.run_edit_commands(&[
        EditCommand::Backspace,
        EditCommand::Delete,
        EditCommand::BackspaceWord,
        EditCommand::MoveLeft,
        EditCommand::CutToEnd,
        EditCommand::SwapGraphemes,
    ]);
    assert_eq!(engine.editor().get_buffer(), "");
    assert_eq!(engine.editor().offset(), 0);
}

#[test]
fn poll_timeout_repaints_only_with_animation() {
    let mut engine = Reedline::create().with_animation(false);
    engine.take_paint_ops();
    assert_eq!(engine.process_poll_timeout(), None);
    assert!(engine.take_paint_ops().is_empty());

    let mut engine = Reedline::create().with_animation(true);
    engine.take_paint_ops();
    assert_eq!(engine.process_poll_timeout(), None);
    assert!(!engine.take_paint_ops().is_empty());
}

#[test]
fn exact_threshold_burst_is_not_a_paste() {
    let mut engine = Reedline::create();
    let events: Vec<Event> = (0..10).map(|_| key('x')).collect();
    let out = engine.classify_burst(events);
    assert_eq!(out.len(), 1);
    match &out[0] {
        ReedlineEvent::Edit(commands) => assert_eq!(commands.len(), 10),
        other => panic!("expected one merged batch, got {:?}", other),
    }
}

#[test]
fn paste_event_dispatches_atomically() {
    let mut engine = Reedline::create();
    let events: Vec<Event> = (0..11).map(|_| key('y')).collect();
    let out = engine.classify_burst(events);
    let signal = engine.handle_editor_event(&out[0]);
    assert_eq!(signal, None);
    assert_eq!(engine.editor().get_buffer(), "yyyyyyyyyyy");
}

#[test]
fn tab_without_hint_accepts_first_completion() {
    let mut dict = DefaultCompleter::default();
    dict.insert(vec!["batcave".to_string(), "batman".to_string()]);
    let handler = CircularCompletionHandler::default().with_completer(dict);
    let mut engine = Reedline::create().with_completion_action_handler(handler);
    type_str(&mut engine, "bat");
    let signal = engine.handle_editor_event(&ReedlineEvent::HandleTab);
    assert_eq!(signal, None);
    assert_eq!(engine.editor().get_buffer(), "batcave");
    assert_eq!(engine.editor().offset(), 7);
}

#[test]
fn repaint_in_search_mode_queues_search_indicator() {
    let mut history = History::new();
    history.append("alpha".to_string());
    let mut engine = Reedline::create().with_history(history);
    engine.handle_editor_event(&ReedlineEvent::SearchHistory);
    engine.handle_event(&edit(vec![EditCommand::InsertChar('a')]));
    engine.take_paint_ops();
    engine.repaint();
    let ops = engine.take_paint_ops();
    assert_eq!(ops.len(), 1);
    match &ops[0] {
        PaintOp::SearchPaint { search, result } => {
            assert_eq!(search.term, "a");
            assert_eq!(result.as_deref(), Some("alpha"));
        },
        other => panic!("expected a search indicator, got {:?}", other),
    }
}

#[test]
fn process_events_without_submit_updates_buffer_only() {
    let mut engine = Reedline::create();
    let events: Vec<Event> = "abc".chars().map(key).collect();
    let signal = engine.process_events(events);
    assert_eq!(signal, None);
    assert_eq!(engine.editor().get_buffer(), "abc");
    assert!(engine.history().iter_chronologic().is_empty());
}
