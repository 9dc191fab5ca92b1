use vstd::prelude::*;
use crate::action::{Action, ActionView};
use crate::commands::{
    COMPACT_PROMPT,
    Clear,
    Command,
    Compact,
    Exit,
    HISTORY_LEN,
    Help,
    HelpEntry,
    SaveChatHistory,
    Summarize,
    TokenUsageReport,
    Tokens,
    handled,
    lists_all_commands,
};
use crate::format::grouped;
use crate::history::{PersistedRecord, Role, Turn, last_turns, record_of, text_turn, turn_views};
use crate::state::{State, StateView, request_in};
use crate::turn::{StreamingTurn, StreamingTurnView, TurnPhase, TurnPurpose, TurnRequest};

verus! {

/// What the loop around the session must do after one dispatch.
pub enum Step {
    /// Nothing was pending.
    Idle,
    /// The history was cleared.
    HistoryCleared,
    /// Show the list of commands.
    ShowHelp(Vec<HelpEntry>),
    /// Show these turns, the most recent ones.
    ShowHistory(Vec<Turn>),
    /// Show the token totals.
    ShowTokenUsage(TokenUsageReport),
    /// Store this record under its id.
    Save(PersistedRecord),
    /// Load the record stored under this id and hand it to the session.
    Import(u16),
    /// Show the models and read a choice.
    SelectModel,
    /// The history is empty: there is nothing to summarize.
    NothingToSummarize,
    /// Send this request and feed the response stream to the turn.
    Stream(StreamingTurn, TurnRequest),
    /// The message was empty: ask for one.
    Prompt,
    /// Try to store this record, then leave the loop.
    Exit(PersistedRecord),
}

/// The session after its pending action has been dispatched.
pub open spec fn dispatched(s: StateView) -> StateView {
    match s.input {
        ActionView::Empty => s,
        ActionView::ClearContext => StateView { history: Seq::empty(), ..handled(s) },
        ActionView::CompactContext => StateView {
            history: s.history.push(text_turn(Role::User, COMPACT_PROMPT@)),
            ..handled(s)
        },
        ActionView::Message(t) => if t.len() == 0 {
            handled(s)
        } else {
            StateView { history: s.history.push(text_turn(Role::User, t)), ..handled(s) }
        },
        _ => handled(s),
    }
}

/// The step that dispatching the pending action of `s` yields.
pub open spec fn step_for(s: StateView, r: Step) -> bool {
    let sent = StreamingTurnView {
        purpose: TurnPurpose::Chat,
        phase: TurnPhase::Sent,
        text: Seq::empty(),
    };
    match s.input {
        ActionView::Empty => r is Idle,
        ActionView::ClearContext => r is HistoryCleared,
        ActionView::ShowHelp => r matches Step::ShowHelp(v) && lists_all_commands(v@),
        ActionView::ShowHistory => r matches Step::ShowHistory(v) && turn_views(v@) == last_turns(
            s.history,
            HISTORY_LEN as nat,
        ),
        ActionView::ShowTokenUsage => r matches Step::ShowTokenUsage(u) && u.input@ == grouped(
            s.usage.input,
        ) && u.output@ == grouped(s.usage.output),
        ActionView::SaveHistory => r matches Step::Save(rec) && rec@ == record_of(s.id, s.history),
        ActionView::ImportHistory(id) => r == Step::Import(id),
        ActionView::SwitchModel => r is SelectModel,
        ActionView::ShowContextSummary => if s.history.len() == 0 {
            r is NothingToSummarize
        } else {
            r matches Step::Stream(t, q) && t@ == StreamingTurnView {
                purpose: TurnPurpose::Summary,
                ..sent
            } && request_in(s, crate::commands::SUMMARY_PROMPT@, q@)
        },
        ActionView::CompactContext => r matches Step::Stream(t, q) && t@ == StreamingTurnView {
            purpose: TurnPurpose::Compaction,
            ..sent
        } && request_in(s, COMPACT_PROMPT@, q@),
        ActionView::Message(m) => if m.len() == 0 {
            r is Prompt
        } else {
            r matches Step::Stream(t, q) && t@ == sent && request_in(s, m, q@)
        },
        ActionView::ExitProcess => r matches Step::Exit(rec) && rec@ == record_of(s.id, s.history),
    }
}

/// The command dispatcher.
pub struct Runner;

impl Runner {
    /// Routes the pending action to its handler; every action leaves the
    /// pending slot empty, a message before its request is issued.
    pub fn dispatch(state: &mut State) -> (r: Step)
        ensures
            final(state)@ == dispatched(old(state)@),
            step_for(old(state)@, r),
    {
        match state.input() {
            Action::Empty => return Step::Idle,
            _ => {},
        }
        let action = state.take_input();
        match action {
            Action::Empty => Step::Idle,
            Action::ClearContext => Clear::execute(state),
            Action::ShowHelp => Help::execute(state),
            Action::ShowHistory => Step::ShowHistory(state.recent_history(HISTORY_LEN)),
            Action::ShowTokenUsage => Tokens::execute(state),
            Action::SaveHistory => Step::Save(state.save_chat_history()),
            Action::ImportHistory(id) => Step::Import(id),
            Action::SwitchModel => Step::SelectModel,
            Action::ShowContextSummary => Summarize::execute(state),
            Action::CompactContext => Compact::execute(state),
            Action::Message(text) => {
                if text.as_str().unicode_len() == 0 {
                    Step::Prompt
                } else {
                    let (t, q) = state.begin_turn(text, TurnPurpose::Chat);
                    Step::Stream(t, q)
                }
            },
            Action::ExitProcess => Exit::execute(state),
        }
    }
}

} // verus!
