use chat_agent::action::{classify, Action, CommandError};

fn message(raw: &str) -> Option<String> {
    match classify(raw) {
        Ok(Action::Message(t)) => Some(t),
        _ => None,
    }
}

#[test]
fn classify_recognizes_each_command_token() {
    assert!(matches!(classify("/help\n"), Ok(Action::ShowHelp)));
    assert!(matches!(classify("/history"), Ok(Action::ShowHistory)));
    assert!(matches!(classify("/clear"), Ok(Action::ClearContext)));
    assert!(matches!(classify("/save"), Ok(Action::SaveHistory)));
    assert!(matches!(classify("/tokens"), Ok(Action::ShowTokenUsage)));
    assert!(matches!(classify("/model"), Ok(Action::SwitchModel)));
    assert!(matches!(classify("/summary"), Ok(Action::ShowContextSummary)));
    assert!(matches!(classify("/compact"), Ok(Action::CompactContext)));
    assert!(matches!(classify("  /exit \r\n"), Ok(Action::ExitProcess)));
}

#[test]
fn classify_import_with_numeric_id() {
    assert!(matches!(classify("/import 42"), Ok(Action::ImportHistory(42))));
    assert!(matches!(classify("/import\t7\n"), Ok(Action::ImportHistory(7))));
    assert!(matches!(classify("/import 65535"), Ok(Action::ImportHistory(65535))));
}

#[test]
fn classify_import_without_id_is_invalid() {
    assert!(matches!(classify("/import"), Err(CommandError::MissingArgument)));
    assert!(matches!(classify("/import   \n"), Err(CommandError::MissingArgument)));
}

#[test]
fn classify_import_with_bad_id_is_invalid() {
    assert!(matches!(classify("/import abc"), Err(CommandError::InvalidArgument)));
    assert!(matches!(classify("/import 4 2"), Err(CommandError::InvalidArgument)));
    assert!(matches!(classify("/import 65536"), Err(CommandError::InvalidArgument)));
    assert!(matches!(classify("/import -1"), Err(CommandError::InvalidArgument)));
}

#[test]
fn classify_empty_and_blank_lines() {
    assert!(matches!(classify(""), Ok(Action::Empty)));
    assert!(matches!(classify(" \t\r\n"), Ok(Action::Empty)));
}

#[test]
fn classify_other_lines_are_messages_trimmed_at_the_ends() {
    assert_eq!(message("hello\n"), Some("hello".to_string()));
    assert_eq!(message("  two  words \n"), Some("two  words".to_string()));
    assert_eq!(message("/Help"), Some("/Help".to_string()));
    assert_eq!(message("/help me"), Some("/help me".to_string()));
    assert_eq!(message("/importx 3"), Some("/importx 3".to_string()));
    assert_eq!(message("héllo wörld"), Some("héllo wörld".to_string()));
}

#[test]
fn classify_trims_unicode_whitespace() {
    assert!(matches!(classify("\u{a0}/help\u{3000}"), Ok(Action::ShowHelp)));
    assert!(matches!(classify("\u{a0}"), Ok(Action::Empty)));
    assert!(matches!(classify("\u{2003}\u{85}\u{2028}"), Ok(Action::Empty)));
    assert!(matches!(classify("/import\u{a0}12"), Ok(Action::ImportHistory(12))));
    assert_eq!(message("\u{a0}hi\u{a0}there\u{a0}"), Some("hi\u{a0}there".to_string()));
}

#[test]
fn classify_trims_exactly_like_str_trim() {
    for line in ["\u{a0} hi \u{200b}", "\u{1680}x\u{205f}", "\u{feff}y ", " a\tb\r\n"] {
        match classify(line) {
            Ok(Action::Message(t)) => assert_eq!(t, line.trim()),
            _ => panic!("expected a message"),
        }
    }
}
