//! The pipeline executor: the stages of `a | b | c` are created left to
//! right, each reading what the stage before it writes, and are then
//! awaited left to right. The pipeline succeeds exactly when its last
//! stage does.
//!
//! Every stage is created before any exit status is asked for, so the
//! stages run side by side. A stage that cannot be created ends the
//! pipeline at once, and no later stage is created. Once all stages exist,
//! all of them are awaited: a stage that exits without success does not
//! end the run, and does not show in the result unless it is the last.

use crate::alias::AliasManager;
use crate::command::{
    cause_of, launch_of, outcome_cause, parse_segment, seen, Action, ActionView, Cause, End,
    IoMode, Launch, LaunchView, Outcome,
};
use crate::text::{pieces, split, texts, trim, trimmed};
use vstd::prelude::*;

verus! {

/// The wiring of stage `index` among `count` stages: every stage but the
/// first reads from the stage before it, and every stage but the last has
/// its output kept for the stage after it.
pub open spec fn stage_mode(index: int, count: int) -> IoMode {
    IoMode::Piped { takes_input: index > 0, captures_output: index + 1 < count }
}

/// The stages of the pipeline `input`: its pieces between `|`, each
/// trimmed and parsed under `table`. A piece without a word gives `None`.
pub open spec fn pipe_stages(table: Map<Seq<char>, Seq<char>>, input: Seq<char>) -> Seq<
    Option<LaunchView>,
> {
    let parts = pieces(input, "|"@);
    Seq::new(
        parts.len(),
        |i: int| launch_of(table, trimmed(parts[i]), stage_mode(i, parts.len() as int), false),
    )
}

/// What a pipeline is doing.
#[derive(Clone, Copy, Debug, PartialEq, Eq, Structural)]
pub enum Phase {
    /// The stages before `stage` exist; `stage` is to be created.
    Spawning { stage: usize },
    /// Every stage exists, and those before `stage` have exited.
    Waiting { stage: usize },
    /// The run is over.
    Over { end: End },
}

/// The state of a pipeline: its stages and what it is doing.
pub struct PipeState {
    pub stages: Seq<Option<LaunchView>>,
    pub phase: Phase,
}

impl PipeState {
    /// The pipeline as it turns to creating the stage at `stage`: waiting
    /// for the first stage once all exist, over with a failure at a stage
    /// without a word, else with that stage to create.
    pub open spec fn spawning(stages: Seq<Option<LaunchView>>, stage: nat) -> PipeState {
        if stages.len() == 0 {
            PipeState { stages, phase: Phase::Over { end: End::Succeeded } }
        } else if stage >= stages.len() {
            PipeState { stages, phase: Phase::Waiting { stage: 0 } }
        } else if stages[stage as int] is None {
            PipeState {
                stages,
                phase: Phase::Over {
                    end: End::Failed { stage: stage as usize, cause: Cause::EmptyCommand },
                },
            }
        } else {
            PipeState { stages, phase: Phase::Spawning { stage: stage as usize } }
        }
    }

    /// The pipeline before anything was created.
    pub open spec fn start(stages: Seq<Option<LaunchView>>) -> PipeState {
        Self::spawning(stages, 0)
    }

    /// What the caller is to do in this state.
    pub open spec fn action(self) -> ActionView {
        match self.phase {
            Phase::Spawning { stage } => ActionView::Launch(self.stages[stage as int]->0),
            Phase::Waiting { stage } => ActionView::Await { stage },
            Phase::Over { end } => ActionView::Done(end),
        }
    }

    /// How the pipeline ends when its last stage, of index `stage`, exits.
    pub open spec fn result(stage: usize, success: bool) -> End {
        if success {
            End::Succeeded
        } else {
            End::Failed { stage, cause: Cause::UnsuccessfulExit }
        }
    }

    /// The state after `outcome` was reported.
    ///
    /// While stages are created, a stage that exists lets the next one be
    /// created, and one that could not be created ends the pipeline. While
    /// stages are awaited, an exit lets the next stage be awaited, whatever
    /// its status, and the exit of the last stage decides the result; a
    /// stage whose status cannot be had ends the pipeline. A pipeline that
    /// is over stays as it is.
    pub open spec fn advance(self, outcome: Outcome) -> PipeState {
        match self.phase {
            Phase::Spawning { stage } => match outcome {
                Outcome::Started { .. } => Self::spawning(self.stages, (stage + 1) as nat),
                Outcome::Exited { .. } => Self::spawning(self.stages, (stage + 1) as nat),
                _ => PipeState {
                    stages: self.stages,
                    phase: Phase::Over { end: End::Failed { stage, cause: cause_of(outcome) } },
                },
            },
            Phase::Waiting { stage } => match outcome {
                Outcome::Exited { success } => if stage + 1 < self.stages.len() {
                    PipeState {
                        stages: self.stages,
                        phase: Phase::Waiting { stage: (stage + 1) as usize },
                    }
                } else {
                    PipeState {
                        stages: self.stages,
                        phase: Phase::Over { end: Self::result(stage, success) },
                    }
                },
                Outcome::Started { .. } => self,
                _ => PipeState {
                    stages: self.stages,
                    phase: Phase::Over { end: End::Failed { stage, cause: cause_of(outcome) } },
                },
            },
            Phase::Over { .. } => self,
        }
    }

    /// The state after the outcomes `outcomes`, oldest first.
    pub open spec fn run(self, outcomes: Seq<Outcome>) -> PipeState
        decreases outcomes.len(),
    {
        if outcomes.len() == 0 {
            self
        } else {
            self.advance(outcomes[0]).run(outcomes.drop_first())
        }
    }
}

/// A pipeline in execution.
pub struct PipeRun {
    stages: Vec<Option<Launch>>,
    phase: Phase,
}

impl View for PipeRun {
    type V = PipeState;

    closed spec fn view(&self) -> PipeState {
        PipeState {
            stages: Seq::new(self.stages@.len(), |i: int| seen(self.stages@[i])),
            phase: self.phase,
        }
    }
}

impl PipeRun {
    #[verifier::type_invariant]
    spec fn consistent(&self) -> bool {
        match self.phase {
            Phase::Spawning { stage } => stage < self.stages@.len() && self.stages@[stage as int]
                is Some,
            Phase::Waiting { stage } => stage < self.stages@.len(),
            Phase::Over { .. } => true,
        }
    }

    fn phase_at(stages: &Vec<Option<Launch>>, stage: usize) -> (out: Phase)
        ensures
            out == PipeState::spawning(
                Seq::new(stages@.len(), |i: int| seen(stages@[i])),
                stage as nat,
            ).phase,
    {
        if stages.len() == 0 {
            Phase::Over { end: End::Succeeded }
        } else if stage >= stages.len() {
            Phase::Waiting { stage: 0 }
        } else if stages[stage].is_none() {
            Phase::Over { end: End::Failed { stage, cause: Cause::EmptyCommand } }
        } else {
            Phase::Spawning { stage }
        }
    }

    /// What the pipeline is doing.
    pub fn phase(&self) -> (out: Phase)
        ensures
            out == self@.phase,
    {
        self.phase
    }

    /// What the caller is to do now.
    pub fn action(&self) -> (out: Action)
        ensures
            out@ == self@.action(),
    {
        proof {
            use_type_invariant(self);
        }
        match self.phase {
            Phase::Spawning { stage } => match &self.stages[stage] {
                Some(launch) => Action::Launch(launch.duplicate()),
                None => Action::Await { stage },
            },
            Phase::Waiting { stage } => Action::Await { stage },
            Phase::Over { end } => Action::Done(end),
        }
    }

    /// Takes the outcome of what was asked for last and says what to do
    /// next.
    pub fn advance(&mut self, outcome: &Outcome) -> (action: Action)
        ensures
            final(self)@ == old(self)@.advance(*outcome),
            action@ == final(self)@.action(),
    {
        proof {
            use_type_invariant(&*self);
        }
        let count: usize = self.stages.len();
        let next = match self.phase {
            Phase::Spawning { stage } => match outcome {
                Outcome::Started { .. } => Self::phase_at(&self.stages, stage + 1),
                Outcome::Exited { .. } => Self::phase_at(&self.stages, stage + 1),
                _ => Phase::Over { end: End::Failed { stage, cause: outcome_cause(outcome) } },
            },
            Phase::Waiting { stage } => match outcome {
                Outcome::Exited { success } => if stage + 1 < count {
                    Phase::Waiting { stage: stage + 1 }
                } else if *success {
                    Phase::Over { end: End::Succeeded }
                } else {
                    Phase::Over { end: End::Failed { stage, cause: Cause::UnsuccessfulExit } }
                },
                Outcome::Started { .. } => self.phase,
                _ => Phase::Over { end: End::Failed { stage, cause: outcome_cause(outcome) } },
            },
            Phase::Over { .. } => self.phase,
        };
        self.phase = next;
        self.action()
    }
}

/// Begins the pipeline `input`: splits it on `|`, trims and parses each
/// stage, and asks for the first stage to be created. The caller does what
/// is asked for and hands the outcome to `PipeRun::advance`, until the
/// answer is `Action::Done`.
///
/// A stage is created without waiting for it. What a stage that
/// `captures_output` writes is to be handed, and to nobody else, to the
/// stage created next, which `takes_input`.
pub fn execute_pipe(input: &str, aliases: &AliasManager) -> (out: (PipeRun, Action))
    ensures
        out.0@ == PipeState::start(pipe_stages(aliases@, input@)),
        out.1@ == out.0@.action(),
{
    let parts = split(input, "|");
    let count: usize = parts.len();
    let mut stages: Vec<Option<Launch>> = Vec::new();
    let mut at: usize = 0;
    let ghost wanted = pipe_stages(aliases@, input@);
    assert(texts(parts@).len() == parts@.len());
    while at < count
        invariant
            at <= count,
            count == parts@.len(),
            stages@.len() == at,
            texts(parts@) == pieces(input@, "|"@),
            wanted == pipe_stages(aliases@, input@),
            forall|i: int| 0 <= i < at ==> seen(#[trigger] stages@[i]) == wanted[i],
        decreases count - at,
    {
        let mode = IoMode::Piped { takes_input: at > 0, captures_output: at + 1 < count };
        let stage = parse_segment(trim(parts[at].as_str()), aliases, mode, false);
        assert(texts(parts@)[at as int] == parts@[at as int]@);
        stages.push(stage);
        at += 1;
    }
    assert(Seq::new(stages@.len(), |i: int| seen(stages@[i])) =~= wanted);
    let phase = PipeRun::phase_at(&stages, 0);
    let run = PipeRun { stages, phase };
    let action = run.action();
    (run, action)
}

/// The outcomes of stages that were all created, with these process
/// identifiers.
pub open spec fn all_started(pids: Seq<u32>) -> Seq<Outcome> {
    Seq::new(pids.len(), |i: int| Outcome::Started { pid: pids[i] })
}

/// The outcomes of stages that all exited, with success or not.
pub open spec fn all_exited(exits: Seq<bool>) -> Seq<Outcome> {
    Seq::new(exits.len(), |i: int| Outcome::Exited { success: exits[i] })
}

/// Running through `first` and then `second` is running through both.
pub proof fn lemma_pipe_run_concat(state: PipeState, first: Seq<Outcome>, second: Seq<Outcome>)
    ensures
        state.run(first + second) == state.run(first).run(second),
    decreases first.len(),
{
    if first.len() == 0 {
        assert(first + second =~= second);
    } else {
        assert((first + second).drop_first() =~= first.drop_first() + second);
        lemma_pipe_run_concat(state.advance(first[0]), first.drop_first(), second);
    }
}

/// A pipeline that is over stays over: whatever is reported to it, it asks
/// for nothing more.
pub proof fn lemma_pipe_over_is_final(state: PipeState, outcomes: Seq<Outcome>)
    requires
        state.phase is Over,
    ensures
        state.run(outcomes) == state,
    decreases outcomes.len(),
{
    if outcomes.len() > 0 {
        lemma_pipe_over_is_final(state, outcomes.drop_first());
    }
}

proof fn lemma_pipe_spawns_from(stages: Seq<Option<LaunchView>>, from: nat, pids: Seq<u32>)
    requires
        0 < stages.len() <= usize::MAX,
        from < stages.len(),
        pids.len() == stages.len(),
        forall|i: int| 0 <= i < stages.len() ==> #[trigger] stages[i] is Some,
    ensures
        PipeState::spawning(stages, from).run(all_started(pids).skip(from as int)) == (PipeState {
            stages,
            phase: Phase::Waiting { stage: 0 },
        }),
    decreases stages.len() - from,
{
    let outcomes = all_started(pids).skip(from as int);
    let state = PipeState::spawning(stages, from);
    assert(stages[from as int] is Some);
    assert(outcomes[0] == Outcome::Started { pid: pids[from as int] });
    assert(outcomes.drop_first() =~= all_started(pids).skip(from as int + 1));
    let next = state.advance(outcomes[0]);
    assert(next == PipeState::spawning(stages, from + 1));
    if from + 1 < stages.len() {
        lemma_pipe_spawns_from(stages, from + 1, pids);
    } else {
        assert(outcomes.drop_first().len() == 0);
        assert(next.run(outcomes.drop_first()) == next);
    }
}

proof fn lemma_pipe_waits_from(stages: Seq<Option<LaunchView>>, from: nat, exits: Seq<bool>)
    requires
        0 < stages.len() <= usize::MAX,
        from < stages.len(),
        exits.len() == stages.len(),
    ensures
        (PipeState { stages, phase: Phase::Waiting { stage: from as usize } }).run(
            all_exited(exits).skip(from as int),
        ) == (PipeState {
            stages,
            phase: Phase::Over {
                end: PipeState::result((stages.len() - 1) as usize, exits.last()),
            },
        }),
    decreases stages.len() - from,
{
    let outcomes = all_exited(exits).skip(from as int);
    let state = PipeState { stages, phase: Phase::Waiting { stage: from as usize } };
    assert(outcomes[0] == Outcome::Exited { success: exits[from as int] });
    assert(outcomes.drop_first() =~= all_exited(exits).skip(from as int + 1));
    let next = state.advance(outcomes[0]);
    if from + 1 < stages.len() {
        lemma_pipe_waits_from(stages, from + 1, exits);
    } else {
        assert(outcomes.drop_first().len() == 0);
        assert(next.run(outcomes.drop_first()) == next);
    }
}

/// Where every stage of a pipeline can be created and awaited, the
/// pipeline succeeds exactly when its last stage exits with success,
/// whatever the exit status of the stages before it.
pub proof fn lemma_pipeline_reports_last_stage(
    stages: Seq<Option<LaunchView>>,
    pids: Seq<u32>,
    exits: Seq<bool>,
)
    requires
        0 < stages.len() <= usize::MAX,
        pids.len() == stages.len(),
        exits.len() == stages.len(),
        forall|i: int| 0 <= i < stages.len() ==> #[trigger] stages[i] is Some,
    ensures
        PipeState::start(stages).run(all_started(pids) + all_exited(exits)).phase == (Phase::Over {
            end: PipeState::result((stages.len() - 1) as usize, exits.last()),
        }),
        PipeState::start(stages).run(all_started(pids) + all_exited(exits)).action()
            == ActionView::Done(End::Succeeded) <==> exits.last(),
{
    let state = PipeState::start(stages);
    lemma_pipe_run_concat(state, all_started(pids), all_exited(exits));
    assert(all_started(pids).skip(0) =~= all_started(pids));
    assert(all_exited(exits).skip(0) =~= all_exited(exits));
    lemma_pipe_spawns_from(stages, 0, pids);
    lemma_pipe_waits_from(stages, 0, exits);
}

/// A stage that cannot be created ends the pipeline: it fails at that
/// stage, and no later stage is ever created, whatever is reported
/// afterwards.
pub proof fn lemma_pipeline_aborts_on_launch_failure(
    state: PipeState,
    reason: String,
    later: Seq<Outcome>,
)
    requires
        state.phase is Spawning,
    ensures
        state.advance(Outcome::LaunchFailed { reason }).run(later).action() == ActionView::Done(
            End::Failed { stage: state.phase->Spawning_stage, cause: Cause::LaunchFailed },
        ),
{
    lemma_pipe_over_is_final(state.advance(Outcome::LaunchFailed { reason }), later);
}

} // verus!
