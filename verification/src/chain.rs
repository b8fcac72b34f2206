//! The chain executor: the segments of `a && b && c` run one after the
//! other, and the first one that does not succeed ends the chain.

use crate::alias::AliasManager;
use crate::command::{
    cause_of, has_succeeded, launch_of, outcome_cause, parse_segment, seen, succeeded, Action,
    ActionView, Cause, End, IoMode, Launch, LaunchView, Outcome,
};
use crate::text::{pieces, split, texts, trim, trimmed};
use vstd::prelude::*;

verus! {

/// The segments of the chain `input`: its pieces between `&&`, each
/// trimmed and parsed under `table`. A piece without a word gives `None`.
pub open spec fn chain_segments(table: Map<Seq<char>, Seq<char>>, input: Seq<char>) -> Seq<
    Option<LaunchView>,
> {
    let parts = pieces(input, "&&"@);
    Seq::new(parts.len(), |i: int| launch_of(table, trimmed(parts[i]), IoMode::Inherit, true))
}

/// The state of a chain: its segments, the index of the segment that is
/// running, and how the chain ended once it has.
pub struct ChainState {
    pub segments: Seq<Option<LaunchView>>,
    pub position: nat,
    pub end: Option<End>,
}

impl ChainState {
    /// The chain as it turns to the segment at `position`: over with
    /// success after the last segment, over with a failure at a segment
    /// without a word, else with that segment to launch.
    pub open spec fn entering(segments: Seq<Option<LaunchView>>, position: nat) -> ChainState {
        if position >= segments.len() {
            ChainState { segments, position, end: Some(End::Succeeded) }
        } else if segments[position as int] is None {
            ChainState {
                segments,
                position,
                end: Some(End::Failed { stage: position as usize, cause: Cause::EmptyCommand }),
            }
        } else {
            ChainState { segments, position, end: None }
        }
    }

    /// The chain before anything was launched.
    pub open spec fn start(segments: Seq<Option<LaunchView>>) -> ChainState {
        Self::entering(segments, 0)
    }

    /// Whether a segment is running, or about to be launched.
    pub open spec fn running(self) -> bool {
        &&& self.end is None
        &&& self.position < self.segments.len()
        &&& self.segments[self.position as int] is Some
    }

    /// What the caller is to do in this state.
    pub open spec fn action(self) -> ActionView {
        match self.end {
            Some(end) => ActionView::Done(end),
            None => ActionView::Launch(self.segments[self.position as int]->0),
        }
    }

    /// The state after the running segment ended with `outcome`: the next
    /// segment after a success, the end of the chain otherwise. A chain
    /// that is over stays as it is.
    pub open spec fn advance(self, outcome: Outcome) -> ChainState {
        if self.end is Some {
            self
        } else if succeeded(outcome) {
            Self::entering(self.segments, self.position + 1)
        } else {
            ChainState {
                segments: self.segments,
                position: self.position,
                end: Some(
                    End::Failed { stage: self.position as usize, cause: cause_of(outcome) },
                ),
            }
        }
    }

    /// The state after the outcomes `outcomes`, oldest first.
    pub open spec fn run(self, outcomes: Seq<Outcome>) -> ChainState
        decreases outcomes.len(),
    {
        if outcomes.len() == 0 {
            self
        } else {
            self.advance(outcomes[0]).run(outcomes.drop_first())
        }
    }
}

/// A chain in execution.
pub struct ChainRun {
    segments: Vec<Option<Launch>>,
    position: usize,
    end: Option<End>,
}

impl View for ChainRun {
    type V = ChainState;

    closed spec fn view(&self) -> ChainState {
        ChainState {
            segments: Seq::new(self.segments@.len(), |i: int| seen(self.segments@[i])),
            position: self.position as nat,
            end: self.end,
        }
    }
}

impl ChainRun {
    #[verifier::type_invariant]
    spec fn consistent(&self) -> bool {
        self.end is None ==> self.position < self.segments@.len()
            && self.segments@[self.position as int] is Some
    }

    fn enter(segments: Vec<Option<Launch>>, position: usize) -> (out: (ChainRun, Action))
        ensures
            out.0@ == ChainState::entering(
                Seq::new(segments@.len(), |i: int| seen(segments@[i])),
                position as nat,
            ),
            out.1@ == out.0@.action(),
    {
        if position >= segments.len() {
            (ChainRun { segments, position, end: Some(End::Succeeded) }, Action::Done(End::Succeeded))
        } else {
            match &segments[position] {
                None => {
                    let end = End::Failed { stage: position, cause: Cause::EmptyCommand };
                    (ChainRun { segments, position, end: Some(end) }, Action::Done(end))
                },
                Some(launch) => {
                    let action = Action::Launch(launch.duplicate());
                    (ChainRun { segments, position, end: None }, action)
                },
            }
        }
    }

    /// How the chain ended, once it has.
    pub fn end(&self) -> (out: Option<End>)
        ensures
            out == self@.end,
    {
        self.end
    }

    /// Takes the outcome of the segment that was launched last and says
    /// what to do next: launch the following segment after a success, and
    /// nothing more otherwise.
    pub fn advance(&mut self, outcome: &Outcome) -> (action: Action)
        ensures
            final(self)@ == old(self)@.advance(*outcome),
            action@ == final(self)@.action(),
    {
        proof {
            use_type_invariant(&*self);
        }
        match self.end {
            Some(end) => Action::Done(end),
            None => {
                if has_succeeded(outcome) {
                    let count: usize = self.segments.len();
                    let next: usize = self.position + 1;
                    if next >= count {
                        self.end = Some(End::Succeeded);
                        self.position = next;
                        Action::Done(End::Succeeded)
                    } else {
                        match &self.segments[next] {
                            None => {
                                let end = End::Failed { stage: next, cause: Cause::EmptyCommand };
                                self.end = Some(end);
                                self.position = next;
                                Action::Done(end)
                            },
                            Some(launch) => {
                                let action = Action::Launch(launch.duplicate());
                                self.position = next;
                                action
                            },
                        }
                    }
                } else {
                    let end = End::Failed { stage: self.position, cause: outcome_cause(outcome) };
                    self.end = Some(end);
                    Action::Done(end)
                }
            },
        }
    }
}

/// Begins the chain `input`: splits it on `&&`, trims and parses each
/// segment, and asks for the first one to be launched on the terminal. The
/// caller launches what is asked for, waits for its exit, and hands the
/// outcome to `ChainRun::advance`, until the answer is `Action::Done`.
pub fn execute_chain(input: &str, aliases: &AliasManager) -> (out: (ChainRun, Action))
    ensures
        out.0@ == ChainState::start(chain_segments(aliases@, input@)),
        out.1@ == out.0@.action(),
{
    let parts = split(input, "&&");
    let mut segments: Vec<Option<Launch>> = Vec::new();
    let mut at: usize = 0;
    let ghost wanted = chain_segments(aliases@, input@);
    while at < parts.len()
        invariant
            at <= parts@.len(),
            segments@.len() == at,
            texts(parts@) == pieces(input@, "&&"@),
            wanted == chain_segments(aliases@, input@),
            forall|i: int| 0 <= i < at ==> seen(#[trigger] segments@[i]) == wanted[i],
        decreases parts@.len() - at,
    {
        let segment = parse_segment(trim(parts[at].as_str()), aliases, IoMode::Inherit, true);
        assert(texts(parts@)[at as int] == parts@[at as int]@);
        segments.push(segment);
        at += 1;
    }
    assert(texts(parts@).len() == parts@.len());
    assert(Seq::new(segments@.len(), |i: int| seen(segments@[i])) =~= wanted);
    ChainRun::enter(segments, 0)
}

/// A chain that is over stays over: whatever is reported to it, it asks
/// for nothing more.
pub proof fn lemma_chain_over_is_final(state: ChainState, outcomes: Seq<Outcome>)
    requires
        state.end is Some,
    ensures
        state.run(outcomes) == state,
        state.run(outcomes).action() == ActionView::Done(state.end->0),
    decreases outcomes.len(),
{
    if outcomes.len() > 0 {
        lemma_chain_over_is_final(state, outcomes.drop_first());
    }
}

/// A segment that does not succeed ends the chain: the chain fails at that
/// segment, and no later segment is ever launched, whatever is reported
/// afterwards.
pub proof fn lemma_chain_stops_at_failure(state: ChainState, failed: Outcome, later: Seq<Outcome>)
    requires
        state.running(),
        !succeeded(failed),
    ensures
        state.advance(failed).run(later).action() == ActionView::Done(
            End::Failed { stage: state.position as usize, cause: cause_of(failed) },
        ),
        state.advance(failed).run(later) == state.advance(failed),
{
    lemma_chain_over_is_final(state.advance(failed), later);
}

/// While every segment succeeds, the segments are launched one at a time,
/// in their order: after `outcomes.len()` successes the chain turns to the
/// segment of that index, and it has succeeded once every segment has.
pub proof fn lemma_chain_runs_in_order(segments: Seq<Option<LaunchView>>, outcomes: Seq<Outcome>)
    requires
        outcomes.len() <= segments.len(),
        forall|i: int| 0 <= i < outcomes.len() ==> succeeded(#[trigger] outcomes[i]),
        forall|i: int| 0 <= i < outcomes.len() ==> #[trigger] segments[i] is Some,
    ensures
        ChainState::start(segments).run(outcomes) == ChainState::entering(
            segments,
            outcomes.len(),
        ),
{
    lemma_chain_runs_from(segments, 0, outcomes);
}

proof fn lemma_chain_runs_from(segments: Seq<Option<LaunchView>>, from: nat, outcomes: Seq<Outcome>)
    requires
        from + outcomes.len() <= segments.len(),
        forall|i: int| 0 <= i < outcomes.len() ==> succeeded(#[trigger] outcomes[i]),
        forall|i: int| from <= i < from + outcomes.len() ==> #[trigger] segments[i] is Some,
    ensures
        ChainState::entering(segments, from).run(outcomes) == ChainState::entering(
            segments,
            from + outcomes.len(),
        ),
    decreases outcomes.len(),
{
    if outcomes.len() > 0 {
        assert(segments[from as int] is Some);
        let rest = outcomes.drop_first();
        assert forall|i: int| 0 <= i < rest.len() implies succeeded(#[trigger] rest[i]) by {
            assert(rest[i] == outcomes[i + 1]);
        }
        lemma_chain_runs_from(segments, from + 1, rest);
    }
}

} // verus!
