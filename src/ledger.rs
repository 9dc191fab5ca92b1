use vstd::prelude::*;

verus! {

/// The saturating sum of two counters of width `usize`.
pub open spec fn sat_add(a: nat, b: nat) -> nat {
    if a + b > usize::MAX {
        usize::MAX as nat
    } else {
        a + b
    }
}

/// `n`, or the largest `usize` when `n` is larger.
pub open spec fn clamp(n: nat) -> nat {
    if n > usize::MAX {
        usize::MAX as nat
    } else {
        n
    }
}

/// The two totals that a ledger holds.
pub struct LedgerView {
    pub input: nat,
    pub output: nat,
}

/// Running totals of the input and output tokens that completed turns reported.
pub struct TokenLedger {
    input: usize,
    output: usize,
}

impl View for TokenLedger {
    type V = LedgerView;

    closed spec fn view(&self) -> LedgerView {
        LedgerView { input: self.input as nat, output: self.output as nat }
    }
}

impl TokenLedger {
    pub fn new() -> (r: TokenLedger)
        ensures
            r@ == (LedgerView { input: 0, output: 0 }),
    {
        TokenLedger { input: 0, output: 0 }
    }

    pub fn add_input(&mut self, n: usize)
        ensures
            final(self)@.input == sat_add(old(self)@.input, n as nat),
            final(self)@.output == old(self)@.output,
            final(self)@.input >= old(self)@.input,
    {
        self.input = self.input.saturating_add(n);
    }

    pub fn add_output(&mut self, n: usize)
        ensures
            final(self)@.output == sat_add(old(self)@.output, n as nat),
            final(self)@.input == old(self)@.input,
            final(self)@.output >= old(self)@.output,
    {
        self.output = self.output.saturating_add(n);
    }

    /// Adds what one completed turn reported.
    pub fn record(&mut self, input: Option<usize>, output: usize)
        ensures
            final(self)@ == recorded(old(self)@, input, output),
            final(self)@.input >= old(self)@.input,
            final(self)@.output >= old(self)@.output,
    {
        match input {
            Some(n) => self.add_input(n),
            None => {},
        }
        self.add_output(output);
    }

    pub fn totals(&self) -> (r: (usize, usize))
        ensures
            r.0 == self@.input,
            r.1 == self@.output,
    {
        (self.input, self.output)
    }
}

/// The ledger after a completed turn reported `input` (when known) and `output`.
pub open spec fn recorded(l: LedgerView, input: Option<usize>, output: usize) -> LedgerView {
    LedgerView {
        input: sat_add(
            l.input,
            match input {
                Some(n) => n as nat,
                None => 0,
            },
        ),
        output: sat_add(l.output, output as nat),
    }
}

/// How a turn ended, as far as the ledger is concerned.
pub enum TurnOutcome {
    Completed { input: Option<usize>, output: usize },
    Aborted,
}

/// The ledger after the turns of `outcomes`, in order, starting from `l`.
pub open spec fn after_turns(l: LedgerView, outcomes: Seq<TurnOutcome>) -> LedgerView
    decreases outcomes.len(),
{
    if outcomes.len() == 0 {
        l
    } else {
        let p = after_turns(l, outcomes.drop_last());
        match outcomes.last() {
            TurnOutcome::Completed { input, output } => recorded(p, input, output),
            TurnOutcome::Aborted => p,
        }
    }
}

/// The input tokens that the completed turns of `outcomes` reported.
pub open spec fn reported_input(outcomes: Seq<TurnOutcome>) -> nat
    decreases outcomes.len(),
{
    if outcomes.len() == 0 {
        0
    } else {
        reported_input(outcomes.drop_last()) + match outcomes.last() {
            TurnOutcome::Completed { input: Some(n), output: _ } => n as nat,
            _ => 0,
        }
    }
}

/// The output tokens that the completed turns of `outcomes` reported.
pub open spec fn reported_output(outcomes: Seq<TurnOutcome>) -> nat
    decreases outcomes.len(),
{
    if outcomes.len() == 0 {
        0
    } else {
        reported_output(outcomes.drop_last()) + match outcomes.last() {
            TurnOutcome::Completed { input: _, output } => output as nat,
            TurnOutcome::Aborted => 0,
        }
    }
}

/// From an empty ledger, the totals after any sequence of turns are the sums of
/// what the completed turns reported (held at the largest `usize`); an aborted
/// turn adds nothing.
pub proof fn lemma_totals_are_sums(outcomes: Seq<TurnOutcome>)
    ensures
        after_turns(LedgerView { input: 0, output: 0 }, outcomes) == (LedgerView {
            input: clamp(reported_input(outcomes)),
            output: clamp(reported_output(outcomes)),
        }),
        reported_input(outcomes) <= usize::MAX ==> after_turns(
            LedgerView { input: 0, output: 0 },
            outcomes,
        ).input == reported_input(outcomes),
        reported_output(outcomes) <= usize::MAX ==> after_turns(
            LedgerView { input: 0, output: 0 },
            outcomes,
        ).output == reported_output(outcomes),
    decreases outcomes.len(),
{
    if outcomes.len() > 0 {
        lemma_totals_are_sums(outcomes.drop_last());
    }
}

} // verus!
