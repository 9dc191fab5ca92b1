use vstd::prelude::*;
use vstd::string::*;
use crate::history::{Turn, TurnView, turn_views};

verus! {

/// What a streamed turn is for, which decides what its completion does to the
/// history.
#[derive(Debug, Clone, Copy, PartialEq, Eq, Structural)]
pub enum TurnPurpose {
    /// An ordinary message: the reply is appended.
    Chat,
    /// A summary to show: the history is left as it is.
    Summary,
    /// A summary that takes the place of the whole history.
    Compaction,
}

/// Where a streamed turn stands.
#[derive(Debug, Clone, Copy, PartialEq, Eq, Structural)]
pub enum TurnPhase {
    Sent,
    Streaming,
    Completed,
    Aborted,
}

/// One event of a provider's response stream.
pub enum StreamEvent {
    /// A fragment of the reply's text.
    Text(String),
    /// The final chunk, with the token counts of the turn.
    Usage { input_tokens: Option<usize>, output_tokens: usize },
    /// A transport or provider error.
    Failure,
}

pub enum EventView {
    Text(Seq<char>),
    Usage { input_tokens: Option<usize>, output_tokens: usize },
    Failure,
}

impl View for StreamEvent {
    type V = EventView;

    open spec fn view(&self) -> EventView {
        match self {
            StreamEvent::Text(t) => EventView::Text(t@),
            StreamEvent::Usage { input_tokens, output_tokens } => EventView::Usage {
                input_tokens: *input_tokens,
                output_tokens: *output_tokens,
            },
            StreamEvent::Failure => EventView::Failure,
        }
    }
}

/// What to do with one event once it has been taken in.
pub enum StreamOutput {
    /// Show this fragment now.
    Print(String),
    /// The turn completed; its reply and usage are recorded.
    Completed,
    /// The turn failed; nothing of the reply is recorded.
    Aborted,
    /// The turn had already ended; the event changes nothing.
    Ignored,
}

pub enum OutputView {
    Print(Seq<char>),
    Completed,
    Aborted,
    Ignored,
}

impl View for StreamOutput {
    type V = OutputView;

    open spec fn view(&self) -> OutputView {
        match self {
            StreamOutput::Print(t) => OutputView::Print(t@),
            StreamOutput::Completed => OutputView::Completed,
            StreamOutput::Aborted => OutputView::Aborted,
            StreamOutput::Ignored => OutputView::Ignored,
        }
    }
}

pub struct StreamingTurnView {
    pub purpose: TurnPurpose,
    pub phase: TurnPhase,
    pub text: Seq<char>,
}

/// One turn in flight: its purpose, its phase and the reply text so far.
pub struct StreamingTurn {
    purpose: TurnPurpose,
    phase: TurnPhase,
    text: String,
}

impl View for StreamingTurn {
    type V = StreamingTurnView;

    closed spec fn view(&self) -> StreamingTurnView {
        StreamingTurnView { purpose: self.purpose, phase: self.phase, text: self.text@ }
    }
}

impl StreamingTurn {
    pub fn new(purpose: TurnPurpose) -> (r: StreamingTurn)
        ensures
            r@ == (StreamingTurnView { purpose, phase: TurnPhase::Sent, text: Seq::empty() }),
    {
        StreamingTurn { purpose, phase: TurnPhase::Sent, text: String::new() }
    }

    pub fn purpose(&self) -> (r: TurnPurpose)
        ensures
            r == self@.purpose,
    {
        self.purpose
    }

    pub fn phase(&self) -> (r: TurnPhase)
        ensures
            r == self@.phase,
    {
        self.phase
    }

    /// The reply text received so far.
    pub fn text(&self) -> (r: &str)
        ensures
            r@ == self@.text,
    {
        self.text.as_str()
    }

    pub fn is_finished(&self) -> (r: bool)
        ensures
            r == is_finished(self@.phase),
    {
        match self.phase {
            TurnPhase::Completed | TurnPhase::Aborted => true,
            _ => false,
        }
    }

    /// Adds a fragment to the reply.
    pub(crate) fn extend(&mut self, fragment: &str)
        ensures
            final(self)@ == (StreamingTurnView {
                phase: TurnPhase::Streaming,
                text: old(self)@.text + fragment@,
                ..old(self)@
            }),
    {
        self.text.append(fragment);
        self.phase = TurnPhase::Streaming;
    }

    pub(crate) fn finish(&mut self, phase: TurnPhase)
        ensures
            final(self)@ == (StreamingTurnView { phase, ..old(self)@ }),
    {
        self.phase = phase;
    }
}

pub open spec fn is_finished(phase: TurnPhase) -> bool {
    phase == TurnPhase::Completed || phase == TurnPhase::Aborted
}

/// What is sent to the provider: the model that serves the turn, the system
/// preamble, the earlier turns and the new prompt.
pub struct TurnRequest {
    pub model: String,
    pub preamble: String,
    pub history: Vec<Turn>,
    pub prompt: String,
}

pub struct RequestView {
    pub model: Seq<char>,
    pub preamble: Seq<char>,
    pub history: Seq<TurnView>,
    pub prompt: Seq<char>,
}

impl View for TurnRequest {
    type V = RequestView;

    open spec fn view(&self) -> RequestView {
        RequestView {
            model: self.model@,
            preamble: self.preamble@,
            history: turn_views(self.history@),
            prompt: self.prompt@,
        }
    }
}

} // verus!
