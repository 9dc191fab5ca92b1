use vstd::prelude::*;
use vstd::string::*;
use crate::action::{Action, ActionView, CommandError, classify, classify_spec};
use crate::config::{Config, ConfigView};
use crate::history::{History, Role, Turn, TurnView, text_turn, turn_views, clone_turns};
use crate::ledger::{LedgerView, TokenLedger, TurnOutcome, recorded, sat_add};
use crate::turn::{
    EventView,
    OutputView,
    RequestView,
    StreamEvent,
    StreamOutput,
    StreamingTurn,
    StreamingTurnView,
    TurnPhase,
    TurnPurpose,
    TurnRequest,
    is_finished,
};

verus! {

pub struct StateView {
    pub id: u16,
    pub config: ConfigView,
    pub history: Seq<TurnView>,
    pub input: ActionView,
    pub usage: LedgerView,
}

/// The live session: its id, configuration, history, the pending classified
/// input and the token totals.
pub struct State {
    id: u16,
    config: Config,
    history: History,
    input: Action,
    usage: TokenLedger,
}

impl View for State {
    type V = StateView;

    closed spec fn view(&self) -> StateView {
        StateView {
            id: self.id,
            config: self.config@,
            history: self.history@,
            input: self.input@,
            usage: self.usage@,
        }
    }
}

/// A request for `prompt` made in session `s`: it names the selected model and
/// the preamble, and carries the history as it stood.
pub open spec fn request_in(s: StateView, prompt: Seq<char>, q: RequestView) -> bool {
    &&& q.model == s.config.model
    &&& q.preamble == s.config.preamble
    &&& q.history == s.history
    &&& q.prompt == prompt
}

/// The history once a turn of `purpose` has been submitted with `prompt`.
pub open spec fn submitted(h: Seq<TurnView>, purpose: TurnPurpose, prompt: Seq<char>) -> Seq<
    TurnView,
> {
    match purpose {
        TurnPurpose::Summary => h,
        _ => h.push(text_turn(Role::User, prompt)),
    }
}

/// The history once a turn of `purpose` has completed with `reply`.
pub open spec fn committed(h: Seq<TurnView>, purpose: TurnPurpose, reply: Seq<char>) -> Seq<
    TurnView,
> {
    match purpose {
        TurnPurpose::Chat => h.push(text_turn(Role::Assistant, reply)),
        TurnPurpose::Summary => h,
        TurnPurpose::Compaction => seq![text_turn(Role::Assistant, reply)],
    }
}

/// One event taken in by a turn in flight.
pub open spec fn stream_step(s: StateView, t: StreamingTurnView, e: EventView) -> (
    StateView,
    StreamingTurnView,
    OutputView,
) {
    if is_finished(t.phase) {
        (s, t, OutputView::Ignored)
    } else {
        match e {
            EventView::Text(x) => (
                s,
                StreamingTurnView { phase: TurnPhase::Streaming, text: t.text + x, ..t },
                OutputView::Print(x),
            ),
            EventView::Usage { input_tokens, output_tokens } => (
                StateView {
                    history: committed(s.history, t.purpose, t.text),
                    usage: recorded(s.usage, input_tokens, output_tokens),
                    ..s
                },
                StreamingTurnView { phase: TurnPhase::Completed, ..t },
                OutputView::Completed,
            ),
            EventView::Failure => (
                s,
                StreamingTurnView { phase: TurnPhase::Aborted, ..t },
                OutputView::Aborted,
            ),
        }
    }
}

/// The session and the turn after the events of `events`, in order.
pub open spec fn run_events(s: StateView, t: StreamingTurnView, events: Seq<EventView>) -> (
    StateView,
    StreamingTurnView,
)
    decreases events.len(),
{
    if events.len() == 0 {
        (s, t)
    } else {
        let p = run_events(s, t, events.drop_last());
        let r = stream_step(p.0, p.1, events.last());
        (r.0, r.1)
    }
}

/// How the first final event of `events`, if any, ends a turn.
pub open spec fn outcome_of(events: Seq<EventView>) -> Option<TurnOutcome>
    decreases events.len(),
{
    if events.len() == 0 {
        None
    } else {
        match events[0] {
            EventView::Text(_) => outcome_of(events.drop_first()),
            EventView::Usage { input_tokens, output_tokens } => Some(
                TurnOutcome::Completed { input: input_tokens, output: output_tokens },
            ),
            EventView::Failure => Some(TurnOutcome::Aborted),
        }
    }
}

/// The text fragments of `events` before the first final event.
pub open spec fn streamed_text(events: Seq<EventView>) -> Seq<char>
    decreases events.len(),
{
    if events.len() == 0 {
        Seq::empty()
    } else {
        match events[0] {
            EventView::Text(x) => x + streamed_text(events.drop_first()),
            _ => Seq::empty(),
        }
    }
}

proof fn lemma_run_events_unfold_first(s: StateView, t: StreamingTurnView, events: Seq<EventView>)
    requires
        events.len() > 0,
    ensures
        run_events(s, t, events) == ({
            let r = stream_step(s, t, events[0]);
            run_events(r.0, r.1, events.drop_first())
        }),
    decreases events.len(),
{
    if events.len() > 1 {
        let d = events.drop_last();
        let e = events.drop_first();
        lemma_run_events_unfold_first(s, t, d);
        assert(d.drop_first() =~= e.drop_last());
        assert(e.last() == events.last());
    } else {
        assert(events.drop_last() =~= Seq::<EventView>::empty());
        assert(events.drop_first() =~= Seq::<EventView>::empty());
        let r = stream_step(s, t, events[0]);
        assert(events.last() == events[0]);
        assert(run_events(s, t, events.drop_last()) == (s, t));
        assert(run_events(s, t, events) == (r.0, r.1));
    }
}

proof fn lemma_finished_turn_ignores(s: StateView, t: StreamingTurnView, events: Seq<EventView>)
    requires
        is_finished(t.phase),
    ensures
        run_events(s, t, events) == (s, t),
    decreases events.len(),
{
    if events.len() > 0 {
        lemma_finished_turn_ignores(s, t, events.drop_last());
    }
}

/// A turn in flight ends as its first final event says: the usage of a
/// completed turn is added to the ledger and its reply, made of the fragments
/// streamed before, is committed to the history; an aborted turn, or one that
/// has not ended, leaves both as they were.
pub proof fn lemma_turn_events(s: StateView, t: StreamingTurnView, events: Seq<EventView>)
    requires
        !is_finished(t.phase),
    ensures
        ({
            let r = run_events(s, t, events);
            match outcome_of(events) {
                Some(TurnOutcome::Completed { input, output }) => {
                    &&& r.0 == (StateView {
                        history: committed(s.history, t.purpose, t.text + streamed_text(events)),
                        usage: recorded(s.usage, input, output),
                        ..s
                    })
                    &&& r.1.phase == TurnPhase::Completed
                },
                Some(TurnOutcome::Aborted) => r.0 == s && r.1.phase == TurnPhase::Aborted,
                None => r.0 == s && !is_finished(r.1.phase),
            }
        }),
    decreases events.len(),
{
    if events.len() > 0 {
        lemma_run_events_unfold_first(s, t, events);
        let st = stream_step(s, t, events[0]);
        match events[0] {
            EventView::Text(x) => {
                lemma_turn_events(st.0, st.1, events.drop_first());
                assert(t.text + x + streamed_text(events.drop_first()) =~= t.text + streamed_text(
                    events,
                ));
            },
            _ => {
                lemma_finished_turn_ignores(st.0, st.1, events.drop_first());
                assert(t.text + streamed_text(events) =~= t.text);
            },
        }
    }
}

/// One turn as the session sees it: what it is for, its prompt, and the events
/// of its response stream.
pub struct TurnRun {
    pub purpose: TurnPurpose,
    pub prompt: Seq<char>,
    pub events: Seq<EventView>,
}

/// The session after each turn of `runs` was submitted and fed its events, in
/// order.
pub open spec fn run_turns(s: StateView, runs: Seq<TurnRun>) -> StateView
    decreases runs.len(),
{
    if runs.len() == 0 {
        s
    } else {
        let p = run_turns(s, runs.drop_last());
        let r = runs.last();
        let sent = StateView { history: submitted(p.history, r.purpose, r.prompt), ..p };
        run_events(
            sent,
            StreamingTurnView { purpose: r.purpose, phase: TurnPhase::Sent, text: Seq::empty() },
            r.events,
        ).0
    }
}

/// How a turn ended for the ledger: a turn whose stream stopped without a
/// final event counts as aborted.
pub open spec fn ledger_outcome(events: Seq<EventView>) -> TurnOutcome {
    match outcome_of(events) {
        Some(o) => o,
        None => TurnOutcome::Aborted,
    }
}

/// Over any sequence of turns, the token totals are what the ledger law gives
/// for their outcomes: each completed turn adds what it reported, and an
/// aborted one adds nothing.
pub proof fn lemma_session_totals(s: StateView, runs: Seq<TurnRun>)
    ensures
        run_turns(s, runs).usage == crate::ledger::after_turns(
            s.usage,
            runs.map_values(|r: TurnRun| ledger_outcome(r.events)),
        ),
    decreases runs.len(),
{
    let outcomes = runs.map_values(|r: TurnRun| ledger_outcome(r.events));
    if runs.len() > 0 {
        lemma_session_totals(s, runs.drop_last());
        assert(runs.drop_last().map_values(|r: TurnRun| ledger_outcome(r.events))
            =~= outcomes.drop_last());
        let p = run_turns(s, runs.drop_last());
        let r = runs.last();
        let sent = StateView { history: submitted(p.history, r.purpose, r.prompt), ..p };
        lemma_turn_events(
            sent,
            StreamingTurnView { purpose: r.purpose, phase: TurnPhase::Sent, text: Seq::empty() },
            r.events,
        );
        assert(outcomes.last() == ledger_outcome(r.events));
    } else {
        assert(outcomes =~= Seq::<TurnOutcome>::empty());
    }
}

/// The final chunk of a turn in flight adds exactly the counts it reports,
/// whenever the totals stay within a `usize`.
pub proof fn lemma_completion_adds_usage(
    s: StateView,
    t: StreamingTurnView,
    input: Option<usize>,
    output: usize,
)
    requires
        !is_finished(t.phase),
        s.usage.input + (match input {
            Some(n) => n as nat,
            None => 0nat,
        }) <= usize::MAX,
        s.usage.output + output <= usize::MAX,
    ensures
        stream_step(
            s,
            t,
            EventView::Usage { input_tokens: input, output_tokens: output },
        ).0.usage == (LedgerView {
            input: s.usage.input + (match input {
                Some(n) => n as nat,
                None => 0nat,
            }),
            output: s.usage.output + output as nat,
        }),
{
}

/// From empty totals, after any sequence of turns whose reported counts sum
/// to no more than the largest `usize`, the totals are exactly those sums:
/// each completed turn adds what it reported, and an aborted one adds nothing.
pub proof fn lemma_session_totals_exact(s: StateView, runs: Seq<TurnRun>)
    requires
        s.usage == (LedgerView { input: 0, output: 0 }),
        crate::ledger::reported_input(runs.map_values(|r: TurnRun| ledger_outcome(r.events)))
            <= usize::MAX,
        crate::ledger::reported_output(runs.map_values(|r: TurnRun| ledger_outcome(r.events)))
            <= usize::MAX,
    ensures
        run_turns(s, runs).usage == (LedgerView {
            input: crate::ledger::reported_input(
                runs.map_values(|r: TurnRun| ledger_outcome(r.events)),
            ),
            output: crate::ledger::reported_output(
                runs.map_values(|r: TurnRun| ledger_outcome(r.events)),
            ),
        }),
{
    lemma_session_totals(s, runs);
    crate::ledger::lemma_totals_are_sums(runs.map_values(|r: TurnRun| ledger_outcome(r.events)));
}

/// A compaction turn that completes leaves exactly one assistant turn, the
/// summary it streamed, and adds the counts it reported (exactly, whenever
/// the totals stay within a `usize`); one that does not complete leaves the
/// totals as they were.
pub proof fn lemma_compaction_turn(s: StateView, events: Seq<EventView>)
    ensures
        ({
            let sent = StateView {
                history: submitted(s.history, TurnPurpose::Compaction, crate::commands::COMPACT_PROMPT@),
                ..s
            };
            let t = StreamingTurnView {
                purpose: TurnPurpose::Compaction,
                phase: TurnPhase::Sent,
                text: Seq::empty(),
            };
            let r = run_events(sent, t, events).0;
            match outcome_of(events) {
                Some(TurnOutcome::Completed { input, output }) => {
                    &&& r.history == seq![text_turn(Role::Assistant, streamed_text(events))]
                    &&& r.usage == recorded(s.usage, input, output)
                    &&& s.usage.output + output <= usize::MAX ==> r.usage.output == s.usage.output
                        + output
                },
                _ => r.usage == s.usage,
            }
        }),
{
    let sent = StateView {
        history: submitted(s.history, TurnPurpose::Compaction, crate::commands::COMPACT_PROMPT@),
        ..s
    };
    let t = StreamingTurnView {
        purpose: TurnPurpose::Compaction,
        phase: TurnPhase::Sent,
        text: Seq::empty(),
    };
    lemma_turn_events(sent, t, events);
    assert(Seq::<char>::empty() + streamed_text(events) =~= streamed_text(events));
}

impl State {
    pub fn new(config: Config, id: u16) -> (r: State)
        ensures
            r@ == (StateView {
                id,
                config: config@,
                history: Seq::empty(),
                input: ActionView::Empty,
                usage: LedgerView { input: 0, output: 0 },
            }),
    {
        State {
            id,
            config,
            history: History::new(),
            input: Action::Empty,
            usage: TokenLedger::new(),
        }
    }

    /// The key under which this session's history is persisted.
    pub fn id(&self) -> (r: u16)
        ensures
            r == self@.id,
    {
        self.id
    }

    pub fn config(&self) -> (r: &Config)
        ensures
            r@ == self@.config,
    {
        &self.config
    }

    pub fn model_options(&self) -> (r: &[String])
        ensures
            r@.map_values(|s: String| s@) == self@.config.model_options,
    {
        self.config.model_options()
    }

    pub fn model(&self) -> (r: &str)
        ensures
            r@ == self@.config.model,
            self@.config.model_options.contains(r@),
    {
        self.config.model()
    }

    pub fn set_model(&mut self, model: String)
        requires
            old(self)@.config.model_options.contains(model@),
        ensures
            final(self)@ == (StateView {
                config: ConfigView { model: model@, ..old(self)@.config },
                ..old(self)@
            }),
    {
        self.config.set_model(model);
    }

    pub fn history(&self) -> (r: &[Turn])
        ensures
            turn_views(r@) == self@.history,
    {
        self.history.turns()
    }

    /// The last `limit` turns, in their original order.
    pub fn recent_history(&self, limit: usize) -> (r: Vec<Turn>)
        ensures
            turn_views(r@) == crate::history::last_turns(self@.history, limit as nat),
    {
        self.history.snapshot(limit)
    }

    pub fn clear_history(&mut self)
        ensures
            final(self)@ == (StateView { history: Seq::empty(), ..old(self)@ }),
    {
        self.history.clear();
    }

    pub fn add_to_history(&mut self, turn: Turn)
        ensures
            final(self)@ == (StateView { history: old(self)@.history.push(turn@), ..old(self)@ }),
    {
        self.history.append(turn);
    }

    pub fn replace_history(&mut self, history: History)
        ensures
            final(self)@ == (StateView { history: history@, ..old(self)@ }),
    {
        self.history = history;
    }

    pub(crate) fn persisted_record(&self) -> (r: crate::history::PersistedRecord)
        ensures
            r@ == crate::history::record_of(self@.id, self@.history),
    {
        self.history.to_persisted_record(self.id)
    }

    /// The pending classified input.
    pub fn input(&self) -> (r: &Action)
        ensures
            r@ == self@.input,
    {
        &self.input
    }

    /// Classifies one line of input and holds it as the pending action; a line
    /// that names a command wrongly is refused and changes nothing.
    pub fn receive_input(&mut self, line: &str) -> (r: Result<(), CommandError>)
        ensures
            match classify_spec(line@) {
                Ok(a) => r is Ok && final(self)@ == (StateView { input: a, ..old(self)@ }),
                Err(e) => r == Err::<(), CommandError>(e) && final(self)@ == old(self)@,
            },
    {
        match classify(line) {
            Ok(a) => {
                self.input = a;
                Ok(())
            },
            Err(e) => Err(e),
        }
    }

    /// Hands out the pending action and leaves the slot empty.
    pub fn take_input(&mut self) -> (r: Action)
        ensures
            r@ == old(self)@.input,
            final(self)@ == (StateView { input: ActionView::Empty, ..old(self)@ }),
    {
        let mut taken = Action::Empty;
        core::mem::swap(&mut taken, &mut self.input);
        taken
    }

    pub fn set_input(&mut self, action: Action)
        ensures
            final(self)@ == (StateView { input: action@, ..old(self)@ }),
    {
        self.input = action;
    }

    pub fn clear_input(&mut self)
        ensures
            final(self)@ == (StateView { input: ActionView::Empty, ..old(self)@ }),
    {
        self.input = Action::Empty;
    }

    pub fn total_input_tokens_used(&self) -> (r: usize)
        ensures
            r == self@.usage.input,
    {
        self.usage.totals().0
    }

    pub fn add_input_tokens_used(&mut self, input_tokens: usize)
        ensures
            final(self)@ == (StateView {
                usage: LedgerView {
                    input: sat_add(old(self)@.usage.input, input_tokens as nat),
                    ..old(self)@.usage
                },
                ..old(self)@
            }),
            final(self)@.usage.input >= old(self)@.usage.input,
    {
        self.usage.add_input(input_tokens);
    }

    pub fn total_output_tokens_used(&self) -> (r: usize)
        ensures
            r == self@.usage.output,
    {
        self.usage.totals().1
    }

    pub fn add_output_tokens_used(&mut self, output_tokens: usize)
        ensures
            final(self)@ == (StateView {
                usage: LedgerView {
                    output: sat_add(old(self)@.usage.output, output_tokens as nat),
                    ..old(self)@.usage
                },
                ..old(self)@
            }),
            final(self)@.usage.output >= old(self)@.usage.output,
    {
        self.usage.add_output(output_tokens);
    }

    /// Submits a turn: the user's prompt is recorded before any reply arrives
    /// (except for a summary, which leaves the history alone), and the request
    /// carries the history as it stood before.
    pub fn begin_turn(&mut self, prompt: String, purpose: TurnPurpose) -> (r: (
        StreamingTurn,
        TurnRequest,
    ))
        ensures
            final(self)@ == (StateView {
                history: submitted(old(self)@.history, purpose, prompt@),
                ..old(self)@
            }),
            r.0@ == (StreamingTurnView { purpose, phase: TurnPhase::Sent, text: Seq::empty() }),
            request_in(old(self)@, prompt@, r.1@),
    {
        let n = self.history.len();
        let all = self.history.turns();
        let earlier = clone_turns(all, 0, n);
        proof {
            assert(all@.subrange(0, n as int) =~= all@);
        }
        match purpose {
            TurnPurpose::Summary => {},
            _ => {
                let user = Turn::user(prompt.clone());
                self.history.append(user);
            },
        }
        let model = String::from_str(self.config.model());
        let preamble = String::from_str(self.config.preamble());
        (StreamingTurn::new(purpose), TurnRequest { model, preamble, history: earlier, prompt })
    }

    /// Takes in one event of the turn in flight.
    pub fn on_stream_event(&mut self, turn: &mut StreamingTurn, event: StreamEvent) -> (r:
        StreamOutput)
        ensures
            (final(self)@, final(turn)@, r@) == stream_step(old(self)@, old(turn)@, event@),
    {
        if turn.is_finished() {
            return StreamOutput::Ignored;
        }
        match event {
            StreamEvent::Text(fragment) => {
                turn.extend(fragment.as_str());
                StreamOutput::Print(fragment)
            },
            StreamEvent::Usage { input_tokens, output_tokens } => {
                let reply = String::from_str(turn.text());
                match turn.purpose() {
                    TurnPurpose::Chat => {
                        self.history.append(Turn::assistant(reply));
                    },
                    TurnPurpose::Summary => {},
                    TurnPurpose::Compaction => {
                        let mut only: Vec<Turn> = Vec::new();
                        only.push(Turn::assistant(reply));
                        self.history.replace(only);
                        assert(turn_views(only@) =~= seq![text_turn(Role::Assistant, turn@.text)]);
                    },
                }
                self.usage.record(input_tokens, output_tokens);
                turn.finish(TurnPhase::Completed);
                StreamOutput::Completed
            },
            StreamEvent::Failure => {
                turn.finish(TurnPhase::Aborted);
                StreamOutput::Aborted
            },
        }
    }
}

} // verus!
