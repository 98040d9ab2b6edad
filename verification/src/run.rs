//! A whole run: the mods of a list, one after the other.
//!
//! The mods are installed strictly in the order of the list. A mod that is
//! skipped never holds up the run. What a failed mod does to the rest of
//! the run is the caller's choice, see [`FailurePolicy`].

use vstd::prelude::*;
use crate::config::{ModList, ModListView};
use crate::pipeline::{advance, next_step};
use crate::pipeline::{Action, ActionView, Event, EventView, Outcome, Stage, StageView, Step, StepView};

verus! {

/// What becomes of a run when the installation of a mod fails.
#[derive(Clone, Copy, Debug, PartialEq, Eq, Structural)]
pub enum FailurePolicy {
    /// The run ends with the mod that failed.
    AbortRun,
    /// The failure is recorded and the run goes on with the next mod.
    ContinueRun,
}

/// The state of a run.
#[derive(Clone, Debug, PartialEq, Eq)]
pub struct Run {
    /// How the mods that are done ended, in the order of the list. The
    /// mod that is being installed is the one after them.
    pub outcomes: Vec<Outcome>,
    /// The stage of the mod that is being installed.
    pub stage: Stage,
    /// Whether the run was ended by a failure.
    pub aborted: bool,
}

/// The mathematical value of a [`Run`].
pub ghost struct RunView {
    pub outcomes: Seq<Outcome>,
    pub stage: StageView,
    pub aborted: bool,
}

impl View for Run {
    type V = RunView;

    open spec fn view(&self) -> RunView {
        RunView { outcomes: self.outcomes@, stage: self.stage@, aborted: self.aborted }
    }
}

/// What the caller of a run does next.
#[derive(Clone, Debug, PartialEq, Eq)]
pub enum Directive {
    /// Carry out `action` for the mod at `mod_index` and report the
    /// result.
    Perform { mod_index: usize, action: Action },
    /// Nothing: the run has ended.
    Finish,
}

/// The mathematical value of a [`Directive`].
pub ghost enum DirectiveView {
    Perform { mod_index: usize, action: ActionView },
    Finish,
}

impl View for Directive {
    type V = DirectiveView;

    open spec fn view(&self) -> DirectiveView {
        match self {
            Directive::Perform { mod_index, action } => DirectiveView::Perform {
                mod_index: *mod_index,
                action: action@,
            },
            Directive::Finish => DirectiveView::Finish,
        }
    }
}

/// The state that a run moves to and what it asks for.
#[derive(Clone, Debug, PartialEq, Eq)]
pub struct RunStep {
    pub run: Run,
    pub directive: Directive,
}

/// The mathematical value of a [`RunStep`].
pub ghost struct RunStepView {
    pub run: RunView,
    pub directive: DirectiveView,
}

impl View for RunStep {
    type V = RunStepView;

    open spec fn view(&self) -> RunStepView {
        RunStepView { run: self.run@, directive: self.directive@ }
    }
}

/// Whether a run has nothing left to do: it was aborted, or every mod of
/// the list is done.
pub open spec fn ended(list: ModListView, run: RunView) -> bool {
    run.aborted || run.outcomes.len() >= list.mods.len()
}

/// Where a run stands once the mod after `outcomes` has taken `step`.
/// While the step asks for work, the run asks for the same. When the step
/// ends the mod, its outcome is recorded; the run then ends if the mod
/// failed under [`FailurePolicy::AbortRun`] or was the last one, and else
/// goes on with the first step of the next mod.
pub open spec fn settled(list: ModListView, policy: FailurePolicy, outcomes: Seq<Outcome>, step: StepView) -> RunStepView
    decreases list.mods.len() - outcomes.len(),
{
    match step.stage {
        StageView::Finished(outcome) => {
            let done = outcomes.push(outcome);
            if outcome is Failed && policy == FailurePolicy::AbortRun {
                RunStepView {
                    run: RunView { outcomes: done, stage: StageView::NotStarted, aborted: true },
                    directive: DirectiveView::Finish,
                }
            } else if done.len() >= list.mods.len() {
                RunStepView {
                    run: RunView { outcomes: done, stage: StageView::NotStarted, aborted: false },
                    directive: DirectiveView::Finish,
                }
            } else {
                settled(
                    list,
                    policy,
                    done,
                    next_step(list.mods[done.len() as int], list.install_dir, StageView::NotStarted, EventView::Start),
                )
            }
        },
        stage => RunStepView {
            run: RunView { outcomes, stage, aborted: false },
            directive: DirectiveView::Perform { mod_index: outcomes.len() as usize, action: step.action },
        },
    }
}

/// The step that a run takes on `event`. A run that has ended stays as it
/// is. Else the mod that is being installed takes its step, and the run
/// settles as [`settled`] says.
pub open spec fn next_run_step(list: ModListView, policy: FailurePolicy, run: RunView, event: EventView) -> RunStepView {
    if ended(list, run) {
        RunStepView { run, directive: DirectiveView::Finish }
    } else {
        settled(
            list,
            policy,
            run.outcomes,
            next_step(list.mods[run.outcomes.len() as int], list.install_dir, run.stage, event),
        )
    }
}

impl Run {
    /// A run that has not begun. Its first event is [`Event::Start`].
    pub fn new() -> (run: Run)
        ensures
            run@ == (RunView { outcomes: Seq::empty(), stage: StageView::NotStarted, aborted: false }),
    {
        Run { outcomes: Vec::new(), stage: Stage::NotStarted, aborted: false }
    }
}

/// Takes one step of a run over `list`: from `run`, on `event`, to the
/// next state and what to do. Mods that end without any work, as skipped
/// mods do, are passed over within the step.
pub fn run_step(list: &ModList, policy: FailurePolicy, run: Run, event: Event) -> (next: RunStep)
    ensures
        next@ == next_run_step(list@, policy, run@, event@),
{
    let Run { outcomes, stage, aborted } = run;
    let mut outcomes = outcomes;
    if aborted || outcomes.len() >= list.mods.len() {
        return RunStep { run: Run { outcomes, stage, aborted }, directive: Directive::Finish };
    }
    let base = list.install_dir.as_str();
    let ghost goal = next_run_step(list@, policy, run@, event@);
    let mut step = advance(&list.mods[outcomes.len()], base, stage, event);
    loop
        invariant
            outcomes@.len() < list.mods@.len(),
            base@ == list@.install_dir,
            settled(list@, policy, outcomes@, step@) == goal,
            goal == next_run_step(list@, policy, run@, event@),
        decreases list.mods@.len() - outcomes@.len(),
    {
        let Step { stage, action } = step;
        match stage {
            Stage::Finished(outcome) => {
                outcomes.push(outcome);
                let failed = match outcome {
                    Outcome::Failed(_) => true,
                    _ => false,
                };
                let abort = match policy {
                    FailurePolicy::AbortRun => failed,
                    FailurePolicy::ContinueRun => false,
                };
                if abort {
                    return RunStep {
                        run: Run { outcomes, stage: Stage::NotStarted, aborted: true },
                        directive: Directive::Finish,
                    };
                }
                if outcomes.len() >= list.mods.len() {
                    return RunStep {
                        run: Run { outcomes, stage: Stage::NotStarted, aborted: false },
                        directive: Directive::Finish,
                    };
                }
                step = advance(&list.mods[outcomes.len()], base, Stage::NotStarted, Event::Start);
            },
            stage => {
                let mod_index = outcomes.len();
                return RunStep {
                    run: Run { outcomes, stage, aborted: false },
                    directive: Directive::Perform { mod_index, action },
                };
            },
        }
    }
}

/// A run keeps what it has recorded and works on the mods in the order of
/// the list: the outcomes after a step begin with the outcomes before it,
/// the outcome of a mod that ends is recorded next, and work is asked for
/// the mod that follows the recorded ones. Under
/// [`FailurePolicy::ContinueRun`] no step aborts the run.
pub proof fn lemma_run_goes_in_order(list: ModListView, policy: FailurePolicy, outcomes: Seq<Outcome>, step: StepView)
    requires
        outcomes.len() < list.mods.len() <= usize::MAX,
    ensures
        ({
            let next = settled(list, policy, outcomes, step);
            &&& outcomes.len() <= next.run.outcomes.len() <= list.mods.len()
            &&& next.run.outcomes.take(outcomes.len() as int) == outcomes
            &&& step.stage matches StageView::Finished(outcome) ==> next.run.outcomes.len() > outcomes.len()
                && next.run.outcomes[outcomes.len() as int] == outcome
            &&& next.directive matches DirectiveView::Perform { mod_index, .. } ==> mod_index
                == next.run.outcomes.len() < list.mods.len()
            &&& policy == FailurePolicy::ContinueRun ==> !next.run.aborted
        }),
    decreases list.mods.len() - outcomes.len(),
{
    match step.stage {
        StageView::Finished(outcome) => {
            let done = outcomes.push(outcome);
            assert(done.take(outcomes.len() as int) =~= outcomes);
            if !(outcome is Failed && policy == FailurePolicy::AbortRun) && done.len() < list.mods.len() {
                let following = next_step(
                    list.mods[done.len() as int],
                    list.install_dir,
                    StageView::NotStarted,
                    EventView::Start,
                );
                lemma_run_goes_in_order(list, policy, done, following);
                let next = settled(list, policy, done, following);
                assert(next.run.outcomes.take(outcomes.len() as int) =~= next.run.outcomes.take(
                    done.len() as int,
                ).take(outcomes.len() as int));
                assert(next.run.outcomes.take(done.len() as int)[outcomes.len() as int] == outcome);
            }
        },
        _ => {
            assert(outcomes.take(outcomes.len() as int) =~= outcomes);
        },
    }
}

/// A run is aborted only by a step that records a failed mod as the last
/// outcome.
pub proof fn lemma_abort_records_failure(list: ModListView, policy: FailurePolicy, outcomes: Seq<Outcome>, step: StepView)
    requires
        outcomes.len() < list.mods.len() <= usize::MAX,
        settled(list, policy, outcomes, step).run.aborted,
    ensures
        policy == FailurePolicy::AbortRun,
        settled(list, policy, outcomes, step).run.outcomes.len() > outcomes.len(),
        settled(list, policy, outcomes, step).run.outcomes.last() is Failed,
    decreases list.mods.len() - outcomes.len(),
{
    match step.stage {
        StageView::Finished(outcome) => {
            let done = outcomes.push(outcome);
            if !(outcome is Failed && policy == FailurePolicy::AbortRun) && done.len() < list.mods.len() {
                let following = next_step(
                    list.mods[done.len() as int],
                    list.install_dir,
                    StageView::NotStarted,
                    EventView::Start,
                );
                lemma_abort_records_failure(list, policy, done, following);
            }
        },
        _ => {},
    }
}

} // verus!
