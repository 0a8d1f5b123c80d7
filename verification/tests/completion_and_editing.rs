use reedline::{
    Completer, DefaultCompleter, DefaultHinter, DefaultValidator, EditCommand, Editor, Hinter,
    History, HistoryCompleter, Span, ValidationResult, Validator,
};

fn words(list: &[&str]) -> Vec<String> {
    list.iter().map(|s| s.to_string()).collect()
}

#[test]
fn default_completer_completes_sorted_candidates() {
    let mut completions = DefaultCompleter::default();
    completions.insert(words(&["batman", "robin", "batmobile", "batcave", "robber"]));
    assert_eq!(
        completions.complete("bat", 3),
        vec![
            (Span { start: 0, end: 3 }, "batcave".into()),
            (Span { start: 0, end: 3 }, "batman".into()),
            (Span { start: 0, end: 3 }, "batmobile".into()),
        ]
    );
    assert_eq!(
        completions.complete("to the bat", 10),
        vec![
            (Span { start: 7, end: 10 }, "batcave".into()),
            (Span { start: 7, end: 10 }, "batman".into()),
            (Span { start: 7, end: 10 }, "batmobile".into()),
        ]
    );
}

#[test]
fn default_completer_counts_words_and_nodes() {
    let mut completions = DefaultCompleter::default();
    completions.insert(words(&["batman", "robin", "batmobile", "batcave", "robber"]));
    assert_eq!(completions.word_count(), 5);
    assert_eq!(completions.size(), 24);
    completions.clear();
    assert_eq!(completions.size(), 1);
    assert_eq!(completions.word_count(), 0);
}

#[test]
fn default_completer_truncates_at_disallowed_characters() {
    let mut completions = DefaultCompleter::default();
    completions.insert(words(&["test-hyphen", "test_underscore"]));
    assert_eq!(completions.complete("te", 2), vec![(Span { start: 0, end: 2 }, "test".into())]);

    let mut completions = DefaultCompleter::with_inclusions(&['-', '_']);
    completions.insert(words(&["test-hyphen", "test_underscore"]));
    assert_eq!(
        completions.complete("te", 2),
        vec![
            (Span { start: 0, end: 2 }, "test-hyphen".into()),
            (Span { start: 0, end: 2 }, "test_underscore".into()),
        ]
    );
}

#[test]
fn default_completer_minimum_word_length() {
    let mut completions = DefaultCompleter::default().set_min_word_len(4);
    completions.insert(words(&["one", "two", "three", "four", "five"]));
    assert_eq!(completions.word_count(), 3);

    let mut completions = DefaultCompleter::default().set_min_word_len(1);
    completions.insert(words(&["one", "two", "three", "four", "five"]));
    assert_eq!(completions.word_count(), 5);
}

#[test]
fn default_completer_deduplicates() {
    let mut completions = DefaultCompleter::default();
    completions.insert(words(&["same", "same", "same"]));
    assert_eq!(completions.word_count(), 1);
}

#[test]
fn history_completer_offers_most_recent_match() {
    let completer = HistoryCompleter::new(words(&["ls -la", "ls -l", "pwd"]));
    assert_eq!(completer.complete("ls", 2), vec![(Span { start: 2, end: 2 }, " -l".into())]);
    assert_eq!(completer.complete("", 0), vec![]);
    assert_eq!(completer.complete("zz", 2), vec![]);
}

#[test]
fn default_validator_flags_open_brackets() {
    let validator = DefaultValidator;
    assert_eq!(validator.validate("echo ("), ValidationResult::Incomplete);
    assert_eq!(validator.validate("echo ()"), ValidationResult::Complete);
    assert_eq!(validator.validate("[1, {2}]"), ValidationResult::Complete);
    assert_eq!(validator.validate("{ ["), ValidationResult::Incomplete);
    assert_eq!(validator.validate(")"), ValidationResult::Complete);
    assert_eq!(validator.validate(""), ValidationResult::Complete);
}

#[test]
fn hinter_offers_ghost_text_from_completer() {
    let mut completer = DefaultCompleter::default();
    completer.insert(words(&["batcave", "batman"]));
    let mut hinter = DefaultHinter::default().with_completer(completer);
    let history = History::new();
    let shown = hinter.handle("bat", 3, &history, false);
    assert_eq!(hinter.current_hint(), "cave");
    assert_eq!(shown, "cave");
}

#[test]
fn hinter_paints_and_strips_ansi_codes() {
    let mut completer = DefaultCompleter::default();
    completer.insert(words(&["batcave"]));
    let style = nu_ansi_term::Style::new().fg(nu_ansi_term::Color::Red);
    let mut hinter = DefaultHinter::default().with_completer(completer).with_style(style);
    let history = History::new();
    let painted = hinter.handle("bat", 3, &history, true);
    assert!(painted.contains("cave"));
    assert_ne!(painted, "cave");
    let stripped = hinter.handle("bat", 3, &history, false);
    assert_eq!(stripped, "cave");
}

#[test]
fn hinter_silent_away_from_line_end() {
    let mut completer = DefaultCompleter::default();
    completer.insert(words(&["batcave"]));
    let mut hinter = DefaultHinter::default().with_completer(completer);
    let history = History::new();
    let shown = hinter.handle("bat", 1, &history, false);
    assert_eq!(shown, "");
    assert_eq!(hinter.current_hint(), "");
}

#[test]
fn hinter_hints_from_history_when_enabled() {
    let mut history = History::new();
    history.append("cargo build".to_string());
    let mut hinter = DefaultHinter::default().with_history();
    let shown = hinter.handle("car", 3, &history, false);
    assert_eq!(shown, "go build");
    assert_eq!(hinter.current_hint(), "go build");
}

#[test]
fn editor_word_motions_and_cuts() {
    let mut editor = Editor::new();
    editor.insert_str("one two three");
    editor.move_word_left();
    assert_eq!(editor.offset(), 8);
    editor.cut_word_right();
    assert_eq!(editor.get_buffer(), "one two ");
    editor.insert_cut_buffer_before();
    assert_eq!(editor.get_buffer(), "one two three");
}

#[test]
fn editor_cut_to_end_and_paste() {
    let mut editor = Editor::new();
    editor.insert_str("hello world");
    editor.set_insertion_point(5);
    editor.cut_from_end();
    assert_eq!(editor.get_buffer(), "hello");
    editor.move_to_start();
    editor.insert_cut_buffer_before();
    assert_eq!(editor.get_buffer(), " worldhello");
}

#[test]
fn editor_case_transforms() {
    let mut editor = Editor::new();
    editor.insert_str("make it loud");
    editor.set_insertion_point(8);
    editor.uppercase_word();
    assert_eq!(editor.get_buffer(), "make it LOUD");
    editor.set_insertion_point(8);
    editor.lowercase_word();
    assert_eq!(editor.get_buffer(), "make it loud");
}

#[test]
fn editor_swap_graphemes_steps_right() {
    let mut editor = Editor::new();
    editor.insert_str("ab");
    editor.set_insertion_point(1);
    editor.swap_graphemes();
    assert_eq!(editor.get_buffer(), "ba");
    assert_eq!(editor.offset(), 2);
}

#[test]
fn editor_swap_words_around_cursor() {
    let mut editor = Editor::new();
    editor.insert_str("first second");
    editor.set_insertion_point(6);
    editor.swap_words();
    assert_eq!(editor.get_buffer(), "second first");
}

#[test]
fn editor_until_char_motions() {
    let mut editor = Editor::new();
    editor.insert_str("a,b,c");
    editor.move_to_start();
    editor.move_right_until_char(',', false);
    assert_eq!(editor.offset(), 1);
    editor.move_right_until_char(',', false);
    assert_eq!(editor.offset(), 3);
    editor.cut_right_until_char('c', true);
    assert_eq!(editor.get_buffer(), "a,bc");
}

#[test]
fn editor_line_motions_across_newlines() {
    let mut editor = Editor::new();
    editor.insert_str("short\nlonger line");
    editor.set_insertion_point(9);
    assert!(!editor.is_cursor_at_first_line());
    editor.move_line_up();
    assert_eq!(editor.offset(), 3);
    editor.move_line_down();
    assert_eq!(editor.offset(), 9);
}

#[test]
fn editor_backspace_word_removes_left_word() {
    let mut editor = Editor::new();
    editor.insert_str("keep drop");
    editor.backspace_word();
    assert_eq!(editor.get_buffer(), "keep ");
}

#[test]
fn history_navigation_queries() {
    let mut history = History::new();
    history.append("one".to_string());
    history.append("two".to_string());
    assert_eq!(history.string_at_cursor(), None);
    history.back();
    assert_eq!(history.string_at_cursor(), Some("two".to_string()));
    history.back();
    assert_eq!(history.string_at_cursor(), Some("one".to_string()));
    history.back();
    assert_eq!(history.string_at_cursor(), Some("one".to_string()));
    history.forward();
    assert_eq!(history.string_at_cursor(), Some("two".to_string()));
    history.forward();
    assert_eq!(history.string_at_cursor(), None);
}

#[test]
fn default_completer_keeps_words_beyond_ascii() {
    let mut completions = DefaultCompleter::default();
    completions.insert(words(&["caf\u{e9}s", "cafeteria"]));
    assert_eq!(
        completions.complete("caf", 3),
        vec![
            (Span { start: 0, end: 3 }, "cafeteria".into()),
            (Span { start: 0, end: 3 }, "caf\u{e9}s".into()),
        ]
    );
}
