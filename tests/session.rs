use chat_agent::action::{Action, CommandError};
use chat_agent::commands::{
    ClearContext, ImportChatHistory, LoadError, Model, ModelSelection, SaveChatHistory,
    COMPACT_PROMPT, SUMMARY_PROMPT,
};
use chat_agent::config::Config;
use chat_agent::history::{
    AttachmentKind, History, PersistedRecord, RecordEntry, Role, Segment, Turn,
};
use chat_agent::runner::{Runner, Step};
use chat_agent::state::State;
use chat_agent::turn::{StreamEvent, StreamOutput, StreamingTurn, TurnPhase, TurnPurpose, TurnRequest};

fn options() -> Vec<String> {
    vec!["model-a".to_string(), "model-b".to_string(), "model-c".to_string()]
}

fn new_state() -> State {
    let config = Config::new(
        "You are helpful.".to_string(),
        "SECRET-REDACTED".to_string(),
        options(),
        "model-a".to_string(),
    );
    State::new(config, 9)
}

fn text_of(t: &Turn) -> String {
    let mut out = String::new();
    for s in &t.content {
        if let Segment::Text(x) = s {
            out.push_str(x);
        }
    }
    out
}

fn roles_and_texts(turns: &[Turn]) -> Vec<(Role, String)> {
    turns.iter().map(|t| (t.role, text_of(t))).collect()
}

fn send(state: &mut State, line: &str) -> (StreamingTurn, TurnRequest) {
    state.receive_input(line).unwrap();
    match Runner::dispatch(state) {
        Step::Stream(t, q) => (t, q),
        _ => panic!("expected a streamed turn"),
    }
}

fn text(x: &str) -> StreamEvent {
    StreamEvent::Text(x.to_string())
}

#[test]
fn streamed_reply_is_assembled_and_recorded() {
    let mut s = new_state();
    let (mut turn, req) = send(&mut s, "hello\n");
    assert_eq!(req.prompt, "hello");
    assert!(req.history.is_empty());
    assert!(matches!(turn.phase(), TurnPhase::Sent));
    assert_eq!(roles_and_texts(s.history()), vec![(Role::User, "hello".to_string())]);
    match s.on_stream_event(&mut turn, text("Hi")) {
        StreamOutput::Print(x) => assert_eq!(x, "Hi"),
        _ => panic!("expected a fragment to print"),
    }
    match s.on_stream_event(&mut turn, text(" there")) {
        StreamOutput::Print(x) => assert_eq!(x, " there"),
        _ => panic!("expected a fragment to print"),
    }
    assert!(matches!(turn.phase(), TurnPhase::Streaming));
    assert_eq!(s.history().len(), 1);
    let out = s.on_stream_event(
        &mut turn,
        StreamEvent::Usage { input_tokens: Some(5), output_tokens: 2 },
    );
    assert!(matches!(out, StreamOutput::Completed));
    assert_eq!(
        roles_and_texts(s.history()),
        vec![(Role::User, "hello".to_string()), (Role::Assistant, "Hi there".to_string())]
    );
    assert_eq!(s.total_input_tokens_used(), 5);
    assert_eq!(s.total_output_tokens_used(), 2);
}

#[test]
fn aborted_stream_keeps_only_the_user_turn() {
    let mut s = new_state();
    let (mut turn, _) = send(&mut s, "tell me a story");
    assert!(matches!(s.on_stream_event(&mut turn, text("Once")), StreamOutput::Print(_)));
    assert!(matches!(s.on_stream_event(&mut turn, StreamEvent::Failure), StreamOutput::Aborted));
    assert!(matches!(turn.phase(), TurnPhase::Aborted));
    assert!(matches!(
        s.on_stream_event(&mut turn, StreamEvent::Usage { input_tokens: Some(9), output_tokens: 9 }),
        StreamOutput::Ignored
    ));
    assert_eq!(roles_and_texts(s.history()), vec![(Role::User, "tell me a story".to_string())]);
    assert_eq!(s.total_input_tokens_used(), 0);
    assert_eq!(s.total_output_tokens_used(), 0);
    // the loop goes on, and the next transcript still holds the unanswered message
    let (_, req) = send(&mut s, "are you there?");
    assert_eq!(roles_and_texts(&req.history), vec![(Role::User, "tell me a story".to_string())]);
    assert_eq!(req.prompt, "are you there?");
}

#[test]
fn compact_on_empty_history_leaves_one_summary_turn() {
    let mut s = new_state();
    let (mut turn, req) = send(&mut s, "/compact");
    assert!(matches!(turn.purpose(), TurnPurpose::Compaction));
    assert_eq!(req.prompt, COMPACT_PROMPT);
    assert!(req.history.is_empty());
    s.on_stream_event(&mut turn, text("Nothing was discussed."));
    let out = s.on_stream_event(&mut turn, StreamEvent::Usage { input_tokens: Some(40), output_tokens: 6 });
    assert!(matches!(out, StreamOutput::Completed));
    assert_eq!(
        roles_and_texts(s.history()),
        vec![(Role::Assistant, "Nothing was discussed.".to_string())]
    );
    assert_eq!(s.total_output_tokens_used(), 6);
    assert_eq!(s.total_input_tokens_used(), 40);
}

#[test]
fn compact_replaces_a_long_history() {
    let mut s = new_state();
    for i in 0..3 {
        let (mut turn, _) = send(&mut s, &format!("message {}", i));
        s.on_stream_event(&mut turn, text("ok"));
        s.on_stream_event(&mut turn, StreamEvent::Usage { input_tokens: None, output_tokens: 1 });
    }
    assert_eq!(s.history().len(), 6);
    let (mut turn, req) = send(&mut s, "/compact");
    assert_eq!(req.history.len(), 6);
    s.on_stream_event(&mut turn, text("Short summary."));
    s.on_stream_event(&mut turn, StreamEvent::Usage { input_tokens: None, output_tokens: 3 });
    assert_eq!(roles_and_texts(s.history()), vec![(Role::Assistant, "Short summary.".to_string())]);
    assert_eq!(s.total_output_tokens_used(), 6);
    assert_eq!(s.total_input_tokens_used(), 0);
}

#[test]
fn summary_needs_history_and_does_not_change_it() {
    let mut s = new_state();
    s.receive_input("/summary").unwrap();
    assert!(matches!(Runner::dispatch(&mut s), Step::NothingToSummarize));
    assert!(matches!(s.input(), Action::Empty));
    let (mut turn, _) = send(&mut s, "hi");
    s.on_stream_event(&mut turn, text("hello"));
    s.on_stream_event(&mut turn, StreamEvent::Usage { input_tokens: Some(1), output_tokens: 1 });
    let (mut turn, req) = send(&mut s, "/summary");
    assert!(matches!(turn.purpose(), TurnPurpose::Summary));
    assert_eq!(req.prompt, SUMMARY_PROMPT);
    assert_eq!(req.history.len(), 2);
    s.on_stream_event(&mut turn, text("We said hello."));
    s.on_stream_event(&mut turn, StreamEvent::Usage { input_tokens: Some(2), output_tokens: 4 });
    assert_eq!(
        roles_and_texts(s.history()),
        vec![(Role::User, "hi".to_string()), (Role::Assistant, "hello".to_string())]
    );
    assert_eq!(s.total_output_tokens_used(), 5);
}

#[test]
fn import_of_missing_record_changes_nothing() {
    let mut s = new_state();
    let (mut turn, _) = send(&mut s, "keep me");
    s.on_stream_event(&mut turn, StreamEvent::Usage { input_tokens: None, output_tokens: 0 });
    s.receive_input("/import 42").unwrap();
    let id = match Runner::dispatch(&mut s) {
        Step::Import(id) => id,
        _ => panic!("expected an import"),
    };
    assert_eq!(id, 42);
    let before = roles_and_texts(s.history());
    assert_eq!(s.import_chat_history(id, Err(LoadError::NotFound)), Err(LoadError::NotFound));
    assert_eq!(roles_and_texts(s.history()), before);
    assert_eq!(s.import_chat_history(id, Err(LoadError::Corrupt)), Err(LoadError::Corrupt));
    assert_eq!(roles_and_texts(s.history()), before);
    // the loop goes on
    assert!(s.receive_input("/tokens").is_ok());
}

#[test]
fn import_of_record_with_other_id_is_corrupt() {
    let mut s = new_state();
    let record = PersistedRecord { id: 3, entries: Vec::new() };
    s.add_to_history(Turn::user("stay".to_string()));
    assert_eq!(s.import_chat_history(4, Ok(record)), Err(LoadError::Corrupt));
    assert_eq!(roles_and_texts(s.history()), vec![(Role::User, "stay".to_string())]);
}

#[test]
fn import_replaces_history() {
    let mut s = new_state();
    s.add_to_history(Turn::user("old".to_string()));
    let record = PersistedRecord {
        id: 42,
        entries: vec![
            RecordEntry { role: Role::User, texts: vec!["question".to_string()] },
            RecordEntry { role: Role::Assistant, texts: vec!["answer".to_string()] },
        ],
    };
    assert_eq!(s.import_chat_history(42, Ok(record)), Ok(()));
    assert_eq!(
        roles_and_texts(s.history()),
        vec![(Role::User, "question".to_string()), (Role::Assistant, "answer".to_string())]
    );
}

#[test]
fn invalid_import_command_is_reported_and_not_pending() {
    let mut s = new_state();
    assert_eq!(s.receive_input("/import x"), Err(CommandError::InvalidArgument));
    assert!(matches!(s.input(), Action::Empty));
    assert_eq!(s.receive_input("/import"), Err(CommandError::MissingArgument));
    assert!(matches!(Runner::dispatch(&mut s), Step::Idle));
}

#[test]
fn model_selection_reprompts_until_in_range() {
    let mut s = new_state();
    s.receive_input("/model").unwrap();
    assert!(matches!(Runner::dispatch(&mut s), Step::SelectModel));
    for bad in ["4", "0", "abc", "", "-1", "99999999999999999999999"] {
        assert_eq!(Model::execute(&mut s, bad), ModelSelection::Reprompt);
        assert_eq!(s.model(), "model-a");
    }
    assert_eq!(Model::execute(&mut s, "2\n"), ModelSelection::Selected);
    assert_eq!(s.model(), "model-b");
    assert_eq!(s.config().model(), "model-b");
    assert_eq!(Model::execute(&mut s, "+3"), ModelSelection::Selected);
    assert_eq!(s.model(), "model-c");
}

#[test]
fn model_selection_reprompts_on_commands() {
    let mut s = new_state();
    s.add_to_history(Turn::user("keep".to_string()));
    for line in ["/help", "/clear", "/exit", "/import 3", "/import"] {
        assert_eq!(Model::execute(&mut s, line), ModelSelection::Reprompt);
        assert!(matches!(s.input(), Action::Empty));
        assert_eq!(s.model(), "model-a");
        assert_eq!(s.history().len(), 1);
    }
    match Runner::dispatch(&mut s) {
        Step::Idle => {}
        _ => panic!("nothing should be pending"),
    }
}

#[test]
fn default_model_is_the_first_option() {
    let config = Config::with_default_model("p".to_string(), "k".to_string(), options());
    assert_eq!(config.model(), "model-a");
    assert_eq!(config.model_options().len(), 3);
}

#[test]
fn selection_numbers_options_from_one() {
    assert_eq!(Model::selection("1", 3), Some(0));
    assert_eq!(Model::selection(" 3 ", 3), Some(2));
    assert_eq!(Model::selection("4", 3), None);
    assert_eq!(Model::selection("0", 3), None);
    assert_eq!(Model::selection("1", 0), None);
}

#[test]
fn history_shows_the_last_ten_turns() {
    let mut s = new_state();
    for i in 0..12 {
        s.add_to_history(Turn::user(format!("m{}", i)));
    }
    s.receive_input("/history").unwrap();
    match Runner::dispatch(&mut s) {
        Step::ShowHistory(turns) => {
            let texts: Vec<String> = turns.iter().map(text_of).collect();
            let expected: Vec<String> = (2..12).map(|i| format!("m{}", i)).collect();
            assert_eq!(texts, expected);
        }
        _ => panic!("expected the history"),
    }
    assert_eq!(s.history().len(), 12);
}

#[test]
fn snapshot_returns_last_turns_in_order() {
    let mut h = History::new();
    assert!(h.snapshot(3).is_empty());
    for i in 0..5 {
        h.append(Turn::assistant(format!("t{}", i)));
    }
    let texts = |v: Vec<Turn>| v.iter().map(text_of).collect::<Vec<_>>();
    assert_eq!(texts(h.snapshot(2)), vec!["t3", "t4"]);
    assert_eq!(texts(h.snapshot(5)), vec!["t0", "t1", "t2", "t3", "t4"]);
    assert_eq!(texts(h.snapshot(50)), vec!["t0", "t1", "t2", "t3", "t4"]);
    assert!(h.snapshot(0).is_empty());
    h.clear();
    assert!(h.is_empty());
}

#[test]
fn record_round_trip_keeps_roles_and_text() {
    let mut h = History::new();
    h.append(Turn::user("first".to_string()));
    h.append(Turn {
        role: Role::Assistant,
        content: vec![Segment::Text("two ".to_string()), Segment::Text("parts".to_string())],
    });
    h.append(Turn::user(String::new()));
    let record = h.to_persisted_record(11);
    assert_eq!(record.id, 11);
    let back = History::from_persisted_record(&record);
    assert_eq!(back.len(), 3);
    let turns = back.turns();
    assert_eq!(turns[1].content.len(), 2);
    assert_eq!(
        roles_and_texts(turns),
        vec![
            (Role::User, "first".to_string()),
            (Role::Assistant, "two parts".to_string()),
            (Role::User, String::new()),
        ]
    );
}

#[test]
fn record_drops_attachments() {
    let mut h = History::new();
    h.append(Turn {
        role: Role::User,
        content: vec![
            Segment::Attachment(AttachmentKind::Image, "{\"png\":1}".to_string()),
            Segment::Text("see picture".to_string()),
        ],
    });
    let record = h.to_persisted_record(1);
    assert_eq!(record.entries.len(), 1);
    assert_eq!(record.entries[0].texts, vec!["see picture".to_string()]);
}

#[test]
fn save_and_exit_hand_out_the_record() {
    let mut s = new_state();
    s.add_to_history(Turn::user("a".to_string()));
    let record = s.save_chat_history();
    assert_eq!(record.id, 9);
    assert_eq!(record.entries.len(), 1);
    s.receive_input("/save").unwrap();
    assert!(matches!(Runner::dispatch(&mut s), Step::Save(r) if r.id == 9 && r.entries.len() == 1));
    s.receive_input("/exit").unwrap();
    assert!(matches!(Runner::dispatch(&mut s), Step::Exit(r) if r.entries[0].texts == vec!["a".to_string()]));
    assert_eq!(s.history().len(), 1);
}

#[test]
fn clear_empties_history_and_pending_input() {
    let mut s = new_state();
    s.add_to_history(Turn::user("x".to_string()));
    s.receive_input("/clear").unwrap();
    assert!(matches!(Runner::dispatch(&mut s), Step::HistoryCleared));
    assert!(s.history().is_empty());
    assert!(matches!(s.input(), Action::Empty));
    s.add_to_history(Turn::user("y".to_string()));
    s.clear_context();
    assert!(s.history().is_empty());
}

#[test]
fn token_usage_sums_completed_turns_only() {
    let mut s = new_state();
    let reports = [(Some(10usize), 20usize, true), (Some(1), 2, false), (None, 7, true), (Some(1000), 3000, true)];
    for (input, output, completes) in reports {
        let (mut turn, _) = send(&mut s, "q");
        if completes {
            s.on_stream_event(&mut turn, StreamEvent::Usage { input_tokens: input, output_tokens: output });
        } else {
            s.on_stream_event(&mut turn, StreamEvent::Failure);
        }
    }
    assert_eq!(s.total_input_tokens_used(), 1010);
    assert_eq!(s.total_output_tokens_used(), 3027);
    s.receive_input("/tokens").unwrap();
    match Runner::dispatch(&mut s) {
        Step::ShowTokenUsage(report) => {
            assert_eq!(report.input, "1,010");
            assert_eq!(report.output, "3,027");
        }
        _ => panic!("expected the token report"),
    }
}

#[test]
fn token_counters_saturate() {
    let mut s = new_state();
    s.add_input_tokens_used(usize::MAX - 1);
    s.add_input_tokens_used(5);
    assert_eq!(s.total_input_tokens_used(), usize::MAX);
    s.add_output_tokens_used(3);
    s.add_output_tokens_used(usize::MAX);
    assert_eq!(s.total_output_tokens_used(), usize::MAX);
}

#[test]
fn empty_line_dispatches_to_nothing() {
    let mut s = new_state();
    s.receive_input("   \n").unwrap();
    assert!(matches!(Runner::dispatch(&mut s), Step::Idle));
    assert!(s.history().is_empty());
}

#[test]
fn empty_pending_message_prompts_again() {
    let mut s = new_state();
    s.set_input(Action::Message(String::new()));
    assert!(matches!(Runner::dispatch(&mut s), Step::Prompt));
    assert!(s.history().is_empty());
    assert!(matches!(s.input(), Action::Empty));
}

#[test]
fn requests_name_the_selected_model() {
    let mut s = new_state();
    let (_, req) = send(&mut s, "first");
    assert_eq!(req.model, "model-a");
    assert_eq!(req.preamble, "You are helpful.");
    s.receive_input("/model").unwrap();
    assert!(matches!(Runner::dispatch(&mut s), Step::SelectModel));
    assert_eq!(Model::execute(&mut s, "7"), ModelSelection::Reprompt);
    let (_, req) = send(&mut s, "second");
    assert_eq!(req.model, "model-a");
    assert_eq!(Model::execute(&mut s, "3"), ModelSelection::Selected);
    let (_, req) = send(&mut s, "third");
    assert_eq!(req.model, "model-c");
    assert_eq!(req.prompt, "third");
}

#[test]
fn help_lists_every_command_once() {
    let mut s = new_state();
    s.receive_input("/help").unwrap();
    match Runner::dispatch(&mut s) {
        Step::ShowHelp(entries) => {
            let commands: Vec<&str> = entries.iter().map(|e| e.command.as_str()).collect();
            assert_eq!(
                commands,
                vec![
                    "/help", "/history", "/clear", "/save", "/import", "/tokens", "/model",
                    "/summary", "/compact", "/exit"
                ]
            );
        }
        _ => panic!("expected the help list"),
    }
}
