use vstd::prelude::*;
use vstd::string::*;
use crate::action::{
    Action,
    ActionView,
    bounded_numeral,
    chars_of,
    classify,
    classify_spec,
    command_of,
    parse_bounded,
    trim,
    trim_bounds,
};
use crate::config::ConfigView;
use crate::format::{Formatted, grouped};
use crate::history::{History, PersistedRecord, history_of, record_of};
use crate::runner::Step;
use crate::state::{State, StateView, request_in, submitted};
use crate::turn::{StreamingTurn, StreamingTurnView, TurnPhase, TurnPurpose, TurnRequest};

verus! {

/// How many turns the history display shows.
pub const HISTORY_LEN: usize = 10;

/// The instruction sent to obtain a summary that replaces the history.
pub const COMPACT_PROMPT: &'static str = "Provide a concise context summary of our conversation that could be used to continue this chat. Include key decisions made, current task state, and any important details. Write it as a brief paragraph, not a list.";

/// The instruction sent to obtain a summary to show.
pub const SUMMARY_PROMPT: &'static str = "Summarize our conversation so far in 2-4 sentences. Focus on the key topics discussed and any conclusions reached.";

/// Why a persisted record could not be imported.
#[derive(Debug, Clone, Copy, PartialEq, Eq, Structural)]
pub enum LoadError {
    /// No record is stored under the id.
    NotFound,
    /// A record is stored but cannot be read, or is keyed by another id.
    Corrupt,
}

/// The two totals, written for people to read.
pub struct TokenUsageReport {
    pub input: String,
    pub output: String,
}

/// The session once the pending input has been handled.
pub open spec fn handled(s: StateView) -> StateView {
    StateView { input: ActionView::Empty, ..s }
}

pub trait ClearContext {
    fn clear_context(&mut self);
}

impl ClearContext for State {
    /// Forgets the whole conversation.
    fn clear_context(&mut self)
        ensures
            final(self)@ == (StateView { history: Seq::empty(), ..handled(old(self)@) }),
    {
        self.clear_history();
        self.clear_input();
    }
}

pub trait SaveChatHistory {
    fn save_chat_history(&mut self) -> PersistedRecord;
}

impl SaveChatHistory for State {
    /// The record to store for this session.
    fn save_chat_history(&mut self) -> (r: PersistedRecord)
        ensures
            final(self)@ == handled(old(self)@),
            r@ == record_of(old(self)@.id, old(self)@.history),
    {
        self.clear_input();
        self.persisted_record()
    }
}

pub trait ImportChatHistory {
    fn import_chat_history(
        &mut self,
        id: u16,
        loaded: Result<PersistedRecord, LoadError>,
    ) -> Result<(), LoadError>;
}

impl ImportChatHistory for State {
    /// Puts the history of the record stored under `id` in place of the
    /// current one; when it could not be loaded, or is keyed by another id, the
    /// history is left as it was and the reason is returned.
    fn import_chat_history(
        &mut self,
        id: u16,
        loaded: Result<PersistedRecord, LoadError>,
    ) -> (r: Result<(), LoadError>)
        ensures
            match loaded {
                Ok(rec) => if rec.id == id {
                    &&& r is Ok
                    &&& final(self)@ == (StateView {
                        history: history_of(rec@),
                        ..handled(old(self)@)
                    })
                } else {
                    &&& r == Err::<(), LoadError>(LoadError::Corrupt)
                    &&& final(self)@ == handled(old(self)@)
                },
                Err(e) => r == Err::<(), LoadError>(e) && final(self)@ == handled(old(self)@),
            },
    {
        self.clear_input();
        match loaded {
            Ok(rec) => {
                if rec.id == id {
                    let h = History::from_persisted_record(&rec);
                    self.replace_history(h);
                    Ok(())
                } else {
                    Err(LoadError::Corrupt)
                }
            },
            Err(e) => Err(e),
        }
    }
}

pub trait ShowTokenUsage {
    fn show_token_usage(&mut self) -> TokenUsageReport;
}

impl ShowTokenUsage for State {
    /// The totals so far, with thousands separators.
    fn show_token_usage(&mut self) -> (r: TokenUsageReport)
        ensures
            final(self)@ == handled(old(self)@),
            r.input@ == grouped(old(self)@.usage.input),
            r.output@ == grouped(old(self)@.usage.output),
    {
        self.clear_input();
        TokenUsageReport {
            input: self.total_input_tokens_used().formatted(),
            output: self.total_output_tokens_used().formatted(),
        }
    }
}

pub trait ShowContextSummary {
    fn show_context_summary(&mut self) -> Option<(StreamingTurn, TurnRequest)>;
}

impl ShowContextSummary for State {
    /// A summary turn over the history, or nothing when there is nothing to
    /// summarize; either way the history stays as it is.
    fn show_context_summary(&mut self) -> (r: Option<(StreamingTurn, TurnRequest)>)
        ensures
            final(self)@ == handled(old(self)@),
            old(self)@.history.len() == 0 <==> r is None,
            r matches Some(p) ==> {
                &&& p.0@ == (StreamingTurnView {
                    purpose: TurnPurpose::Summary,
                    phase: TurnPhase::Sent,
                    text: Seq::empty(),
                })
                &&& request_in(old(self)@, SUMMARY_PROMPT@, p.1@)
            },
    {
        self.clear_input();
        if self.history().len() == 0 {
            None
        } else {
            Some(self.begin_turn(String::from_str(SUMMARY_PROMPT), TurnPurpose::Summary))
        }
    }
}

pub trait CompactContext {
    fn compact_context(&mut self) -> (StreamingTurn, TurnRequest);
}

impl CompactContext for State {
    /// A summarization turn whose reply, on completion, becomes the whole
    /// history.
    fn compact_context(&mut self) -> (r: (StreamingTurn, TurnRequest))
        ensures
            final(self)@ == (StateView {
                history: submitted(old(self)@.history, TurnPurpose::Compaction, COMPACT_PROMPT@),
                ..handled(old(self)@)
            }),
            r.0@ == (StreamingTurnView {
                purpose: TurnPurpose::Compaction,
                phase: TurnPhase::Sent,
                text: Seq::empty(),
            }),
            request_in(old(self)@, COMPACT_PROMPT@, r.1@),
    {
        self.clear_input();
        self.begin_turn(String::from_str(COMPACT_PROMPT), TurnPurpose::Compaction)
    }
}

pub trait ExitProcess {
    fn exit_process(&mut self) -> PersistedRecord;
}

impl ExitProcess for State {
    /// The record to save, on a best-effort basis, before leaving.
    fn exit_process(&mut self) -> (r: PersistedRecord)
        ensures
            final(self)@ == handled(old(self)@),
            r@ == record_of(old(self)@.id, old(self)@.history),
    {
        self.save_chat_history()
    }
}

/// The option index that a line picks among `n` options numbered from 1.
pub open spec fn selection_spec(line: Seq<char>, n: nat) -> Option<nat> {
    match bounded_numeral(trim(line), n) {
        Some(k) => if k >= 1 {
            Some((k - 1) as nat)
        } else {
            None
        },
        None => None,
    }
}

/// What became of one line read while a model is being chosen.
#[derive(Debug, Clone, Copy, PartialEq, Eq, Structural)]
pub enum ModelSelection {
    /// The line picked a model, which is now selected.
    Selected,
    /// The line picked nothing; ask again.
    Reprompt,
}

/// The switch-model command.
pub struct Model;

impl Model {
    /// The option index that `line` picks among `n` options numbered from 1.
    pub fn selection(line: &str, n: usize) -> (r: Option<usize>)
        ensures
            r == (match selection_spec(line@, n as nat) {
                Some(k) => Some(k as usize),
                None => None::<usize>,
            }),
    {
        let v = chars_of(line);
        let (a, b) = trim_bounds(&v, 0, v.len());
        proof {
            assert(v@.subrange(0, v@.len() as int) =~= line@);
        }
        match parse_bounded(&v, a, b, n as u64) {
            Some(k) => if k >= 1 {
                Some((k - 1) as usize)
            } else {
                None
            },
            None => None,
        }
    }

    /// Handles one line read while a model is being chosen: a number in range
    /// selects that model; any other line changes nothing and asks again.
    pub fn execute(state: &mut State, line: &str) -> (r: ModelSelection)
        ensures
            (match classify_spec(line@) {
                Ok(ActionView::Message(t)) => selection_spec(
                    t,
                    old(state)@.config.model_options.len(),
                ),
                _ => None,
            }) matches Some(k) ==> {
                &&& r == ModelSelection::Selected
                &&& final(state)@ == (StateView {
                    config: ConfigView {
                        model: old(state)@.config.model_options[k as int],
                        ..old(state)@.config
                    },
                    ..handled(old(state)@)
                })
            },
            (match classify_spec(line@) {
                Ok(ActionView::Message(t)) => selection_spec(
                    t,
                    old(state)@.config.model_options.len(),
                ),
                _ => None,
            }) is None ==> r == ModelSelection::Reprompt && final(state)@ == old(state)@,
    {
        match classify(line) {
            Ok(Action::Message(t)) => {
                let n = state.model_options().len();
                match Model::selection(t.as_str(), n) {
                    Some(k) => {
                        let chosen = state.model_options()[k].clone();
                        state.set_model(chosen);
                        state.clear_input();
                        ModelSelection::Selected
                    },
                    None => ModelSelection::Reprompt,
                }
            },
            _ => ModelSelection::Reprompt,
        }
    }
}

/// A command handler: it acts on the session and says what the loop around it
/// must do next.
pub trait Command {
    fn execute(state: &mut State) -> Step;
}

/// The clear-context command.
pub struct Clear;

impl Command for Clear {
    fn execute(state: &mut State) -> (r: Step)
        ensures
            final(state)@ == (StateView { history: Seq::empty(), ..handled(old(state)@) }),
            r is HistoryCleared,
    {
        state.clear_context();
        Step::HistoryCleared
    }
}

/// The compaction command.
pub struct Compact;

impl Command for Compact {
    fn execute(state: &mut State) -> (r: Step)
        ensures
            final(state)@ == (StateView {
                history: submitted(old(state)@.history, TurnPurpose::Compaction, COMPACT_PROMPT@),
                ..handled(old(state)@)
            }),
            r matches Step::Stream(t, q) && t@ == (StreamingTurnView {
                purpose: TurnPurpose::Compaction,
                phase: TurnPhase::Sent,
                text: Seq::empty(),
            }) && request_in(old(state)@, COMPACT_PROMPT@, q@),
    {
        let (t, q) = state.compact_context();
        Step::Stream(t, q)
    }
}

/// The context-summary command.
pub struct Summarize;

impl Command for Summarize {
    fn execute(state: &mut State) -> (r: Step)
        ensures
            final(state)@ == handled(old(state)@),
            old(state)@.history.len() == 0 ==> r is NothingToSummarize,
            old(state)@.history.len() > 0 ==> (r matches Step::Stream(t, q) && t@ == (
            StreamingTurnView {
                purpose: TurnPurpose::Summary,
                phase: TurnPhase::Sent,
                text: Seq::empty(),
            }) && request_in(old(state)@, SUMMARY_PROMPT@, q@)),
    {
        match state.show_context_summary() {
            Some((t, q)) => Step::Stream(t, q),
            None => Step::NothingToSummarize,
        }
    }
}

/// The token-usage command.
pub struct Tokens;

impl Command for Tokens {
    fn execute(state: &mut State) -> (r: Step)
        ensures
            final(state)@ == handled(old(state)@),
            r matches Step::ShowTokenUsage(u) && u.input@ == grouped(old(state)@.usage.input)
                && u.output@ == grouped(old(state)@.usage.output),
    {
        Step::ShowTokenUsage(state.show_token_usage())
    }
}

/// The exit command.
pub struct Exit;

impl Command for Exit {
    fn execute(state: &mut State) -> (r: Step)
        ensures
            final(state)@ == handled(old(state)@),
            r matches Step::Exit(rec) && rec@ == record_of(old(state)@.id, old(state)@.history),
    {
        Step::Exit(state.exit_process())
    }
}

/// One line of the command list: the command and what it does.
pub struct HelpEntry {
    pub command: String,
    pub description: String,
}

impl HelpEntry {
    fn new(command: &str, description: &str) -> (r: HelpEntry)
        ensures
            r.command@ == command@,
            r.description@ == description@,
    {
        HelpEntry { command: String::from_str(command), description: String::from_str(description) }
    }
}

/// A command word of the input classifier.
pub open spec fn is_command_word(t: Seq<char>) -> bool {
    command_of(t) is Some || t == "/import"@
}

/// A command list that names exactly the command words of the input
/// classifier: each entry is one, and each one has an entry.
pub open spec fn lists_all_commands(v: Seq<HelpEntry>) -> bool {
    &&& forall|i: int| 0 <= i < v.len() ==> is_command_word(#[trigger] v[i].command@)
    &&& forall|t: Seq<char>|
        is_command_word(t) ==> exists|i: int| 0 <= i < v.len() && #[trigger] v[i].command@ == t
}

/// The help command.
pub struct Help;

impl Help {
    /// The commands, each with what it does: exactly the command words that
    /// the input classifier knows.
    pub fn entries() -> (r: Vec<HelpEntry>)
        ensures
            lists_all_commands(r@),
    {
        let mut r: Vec<HelpEntry> = Vec::new();
        r.push(HelpEntry::new("/help", "show this list"));
        r.push(HelpEntry::new("/history", "show the most recent messages"));
        r.push(HelpEntry::new("/clear", "clear the context"));
        r.push(HelpEntry::new("/save", "save the chat history"));
        r.push(HelpEntry::new("/import", "<id> - replace the chat history with a saved one"));
        r.push(HelpEntry::new("/tokens", "show the tokens used"));
        r.push(HelpEntry::new("/model", "switch models"));
        r.push(HelpEntry::new("/summary", "summarize the chat history"));
        r.push(HelpEntry::new("/compact", "replace the chat history with a summary of it"));
        r.push(HelpEntry::new("/exit", "save and end the application"));
        assert forall|t: Seq<char>| is_command_word(t) implies exists|i: int|
            0 <= i < r@.len() && #[trigger] r@[i].command@ == t by {
            if t == "/help"@ {
                assert(r@[0].command@ == t);
            } else if t == "/history"@ {
                assert(r@[1].command@ == t);
            } else if t == "/clear"@ {
                assert(r@[2].command@ == t);
            } else if t == "/save"@ {
                assert(r@[3].command@ == t);
            } else if t == "/import"@ {
                assert(r@[4].command@ == t);
            } else if t == "/tokens"@ {
                assert(r@[5].command@ == t);
            } else if t == "/model"@ {
                assert(r@[6].command@ == t);
            } else if t == "/summary"@ {
                assert(r@[7].command@ == t);
            } else if t == "/compact"@ {
                assert(r@[8].command@ == t);
            } else {
                assert(r@[9].command@ == t);
            }
        }
        r
    }
}

impl Command for Help {
    fn execute(state: &mut State) -> (r: Step)
        ensures
            final(state)@ == handled(old(state)@),
            r matches Step::ShowHelp(v) && lists_all_commands(v@),
    {
        state.clear_input();
        Step::ShowHelp(Help::entries())
    }
}

} // verus!
