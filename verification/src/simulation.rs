use vstd::prelude::*;
use crate::timeline::{Timeline, TimelineView, valid_checkpoints, final_checkpoint};

verus! {

/// Whether the list of modifiers fits the process group: either there are
/// none, or there is one for each process.
pub open spec fn modifiers_fit(n_modifiers: usize, size: i32) -> bool {
    n_modifiers == 0 || (0 <= size && n_modifiers == size)
}

/// Checks that there are no modifiers or exactly one per process.
pub fn modifiers_consistent(n_modifiers: usize, size: i32) -> (ok: bool)
    ensures
        ok == modifiers_fit(n_modifiers, size),
{
    n_modifiers == 0 || (0 <= size && n_modifiers == size as usize)
}

/// Whether a process of this rank can pick its modifier: there are none to
/// apply, or its rank indexes one of them.
pub open spec fn rank_fits(n_modifiers: usize, rank: i32) -> bool {
    n_modifiers == 0 || (0 <= rank && rank < n_modifiers)
}

/// Checks that the rank of this process indexes a modifier, when there are any.
pub fn rank_has_modifier(n_modifiers: usize, rank: i32) -> (ok: bool)
    ensures
        ok == rank_fits(n_modifiers, rank),
{
    n_modifiers == 0 || (0 <= rank && (rank as usize) < n_modifiers)
}

/// What the host runs next.
#[derive(PartialEq, Eq, Debug, Clone, Copy, Structural)]
pub enum Action {
    /// Run the modifier with this index (the one of this process's rank).
    ApplyModifier(usize),
    /// The timeline has moved on to this step.
    BeginStep(u32),
    /// Run the transition with this index.
    RunTransition(usize),
    /// Evaluate the check with this index and report whether it held.
    RunCheck(usize),
    /// Run the checkpoint callback with this index.
    RunCheckpoint(usize),
    /// The run is complete.
    Finished,
    /// The check with this index failed; the run stops.
    CheckFailed(usize),
}

/// Where a run stands.
#[derive(PartialEq, Eq, Debug, Clone, Copy, Structural)]
pub enum Stage {
    /// The modifier is still to be applied.
    Modifier,
    /// The timeline is to move to its next step.
    Advance,
    /// The transitions from this index on are still to run in this step.
    Transition(usize),
    /// The checks from this index on are still to run in this step.
    Check(usize),
    /// The check with this index was handed out and its result is awaited.
    AwaitCheck(usize),
    /// The checkpoint callbacks from this index on are still to run in this step.
    Checkpoint(usize),
    /// Everything of this step has run.
    EndOfStep,
    /// The run is complete.
    Finished,
    /// The check with this index failed.
    Failed(usize),
}

/// The abstract state of a run.
pub struct SimulationView {
    pub timeline: TimelineView,
    pub modifier: Option<usize>,
    pub n_transitions: usize,
    pub n_checks: usize,
    pub n_checkpoints: usize,
    pub stage: Stage,
}

/// A state of a run is consistent: the timeline is valid, and where the run
/// stands agrees with the step it is at.
pub open spec fn sim_wf(v: SimulationView) -> bool {
    let n = final_checkpoint(v.timeline.checkpoints);
    let i = v.timeline.index;
    &&& valid_checkpoints(v.timeline.checkpoints)
    &&& match v.stage {
        Stage::Modifier => v.modifier is Some && i < n,
        Stage::Advance => i < n,
        Stage::Transition(k) => 1 <= i <= n && k <= v.n_transitions,
        Stage::Check(k) => 1 <= i <= n && k <= v.n_checks,
        Stage::AwaitCheck(k) => 1 <= i <= n && k < v.n_checks,
        Stage::Checkpoint(k) => 1 <= i <= n && k <= v.n_checkpoints && v.timeline.checkpoints.contains(i),
        Stage::EndOfStep => 1 <= i <= n,
        Stage::Finished => i == n,
        Stage::Failed(k) => 1 <= i <= n && k < v.n_checks,
    }
}

/// The run with its stage replaced.
pub open spec fn with_stage(v: SimulationView, s: Stage) -> SimulationView {
    SimulationView { stage: s, ..v }
}

/// Passes over the parts of a step that have nothing left to run: after the
/// last transition come the checks, after the last check come the checkpoint
/// callbacks (only at a checkpoint), and after those the step ends; at the
/// end of a step the run either finishes (at the final step) or moves on.
pub open spec fn settle(v: SimulationView) -> SimulationView {
    let v1 = if v.stage matches Stage::Transition(k) && k >= v.n_transitions {
        with_stage(v, Stage::Check(0))
    } else {
        v
    };
    let v2 = if v1.stage matches Stage::Check(k) && k >= v1.n_checks {
        if v1.timeline.checkpoints.contains(v1.timeline.index) {
            with_stage(v1, Stage::Checkpoint(0))
        } else {
            with_stage(v1, Stage::EndOfStep)
        }
    } else {
        v1
    };
    let v3 = if v2.stage matches Stage::Checkpoint(k) && k >= v2.n_checkpoints {
        with_stage(v2, Stage::EndOfStep)
    } else {
        v2
    };
    if v3.stage is EndOfStep {
        if v3.timeline.index == final_checkpoint(v3.timeline.checkpoints) {
            with_stage(v3, Stage::Finished)
        } else {
            with_stage(v3, Stage::Advance)
        }
    } else {
        v3
    }
}

/// The action handed out from a settled stage, and the state after it.
pub open spec fn emit(v: SimulationView) -> (SimulationView, Action) {
    match v.stage {
        Stage::Modifier => (with_stage(v, Stage::Advance), Action::ApplyModifier(v.modifier->0)),
        Stage::Advance => {
            let t = TimelineView { checkpoints: v.timeline.checkpoints, index: (v.timeline.index + 1) as u32 };
            (SimulationView { timeline: t, stage: Stage::Transition(0), ..v }, Action::BeginStep(t.index))
        },
        Stage::Transition(k) => (with_stage(v, Stage::Transition((k + 1) as usize)), Action::RunTransition(k)),
        Stage::Check(k) => (with_stage(v, Stage::AwaitCheck(k)), Action::RunCheck(k)),
        Stage::Checkpoint(k) => (with_stage(v, Stage::Checkpoint((k + 1) as usize)), Action::RunCheckpoint(k)),
        Stage::Failed(k) => (v, Action::CheckFailed(k)),
        _ => (v, Action::Finished),
    }
}

/// The next action of a run and the state after it.
pub open spec fn next_spec(v: SimulationView) -> (SimulationView, Action) {
    emit(settle(v))
}

/// The state after the result of the awaited check comes back: the next
/// check when it held, the failed state when it did not.
pub open spec fn record_spec(v: SimulationView, passed: bool) -> SimulationView {
    match v.stage {
        Stage::AwaitCheck(k) => if passed {
            with_stage(v, Stage::Check((k + 1) as usize))
        } else {
            with_stage(v, Stage::Failed(k))
        },
        _ => v,
    }
}

/// A run of a model: it walks the timeline and, at each step, hands out the
/// transitions, then the checks, then (at checkpoints) the checkpoint
/// callbacks, one at a time, for the host to run.
pub struct Simulation {
    timeline: Timeline,
    modifier: Option<usize>,
    n_transitions: usize,
    n_checks: usize,
    n_checkpoints: usize,
    stage: Stage,
}

impl View for Simulation {
    type V = SimulationView;

    closed spec fn view(&self) -> SimulationView {
        SimulationView {
            timeline: self.timeline@,
            modifier: self.modifier,
            n_transitions: self.n_transitions,
            n_checks: self.n_checks,
            n_checkpoints: self.n_checkpoints,
            stage: self.stage,
        }
    }
}

impl Simulation {
    /// A run over `timeline` with the given numbers of transitions, checks and
    /// checkpoint callbacks. When there are modifiers, the one of this
    /// process's rank is applied first.
    pub fn new(
        timeline: Timeline,
        n_modifiers: usize,
        rank: i32,
        n_transitions: usize,
        n_checks: usize,
        n_checkpoints: usize,
    ) -> (sim: Simulation)
        requires
            timeline.wf(),
            timeline@.index < timeline.spec_nsteps(),
            rank_fits(n_modifiers, rank),
        ensures
            sim_wf(sim@),
            sim@.timeline == timeline@,
            sim@.n_transitions == n_transitions,
            sim@.n_checks == n_checks,
            sim@.n_checkpoints == n_checkpoints,
            n_modifiers == 0 ==> sim@.modifier is None && sim@.stage == Stage::Advance,
            n_modifiers > 0 ==> sim@.modifier == Some(rank as usize) && sim@.stage == Stage::Modifier,
    {
        let (modifier, stage) = if n_modifiers == 0 {
            (None, Stage::Advance)
        } else {
            (Some(rank as usize), Stage::Modifier)
        };
        Simulation { timeline, modifier, n_transitions, n_checks, n_checkpoints, stage }
    }

    /// The timeline of the run, at the step the run has reached.
    pub fn timeline(&self) -> (t: &Timeline)
        ensures
            t@ == self@.timeline,
    {
        &self.timeline
    }

    /// Where the run stands.
    pub fn stage(&self) -> (s: Stage)
        ensures
            s == self@.stage,
    {
        self.stage
    }

    /// Hands out the next thing to run. After `RunCheck`, the host reports
    /// the check's result with `check_result` before asking again.
    pub fn next_action(&mut self) -> (a: Action)
        requires
            sim_wf(old(self)@),
            !(old(self)@.stage is AwaitCheck),
        ensures
            sim_wf(final(self)@),
            (final(self)@, a) == next_spec(old(self)@),
    {
        // pass over the parts of the step that are done
        if let Stage::Transition(k) = self.stage {
            if k >= self.n_transitions {
                self.stage = Stage::Check(0);
            }
        }
        if let Stage::Check(k) = self.stage {
            if k >= self.n_checks {
                if self.timeline.at_checkpoint() {
                    self.stage = Stage::Checkpoint(0);
                } else {
                    self.stage = Stage::EndOfStep;
                }
            }
        }
        if let Stage::Checkpoint(k) = self.stage {
            if k >= self.n_checkpoints {
                self.stage = Stage::EndOfStep;
            }
        }
        if let Stage::EndOfStep = self.stage {
            if self.timeline.at_end() {
                self.stage = Stage::Finished;
            } else {
                self.stage = Stage::Advance;
            }
        }
        match self.stage {
            Stage::Modifier => {
                self.stage = Stage::Advance;
                match self.modifier {
                    Some(m) => Action::ApplyModifier(m),
                    None => Action::Finished,
                }
            },
            Stage::Advance => {
                self.timeline.advance();
                self.stage = Stage::Transition(0);
                Action::BeginStep(self.timeline.index())
            },
            Stage::Transition(k) => {
                self.stage = Stage::Transition(k + 1);
                Action::RunTransition(k)
            },
            Stage::Check(k) => {
                self.stage = Stage::AwaitCheck(k);
                Action::RunCheck(k)
            },
            Stage::Checkpoint(k) => {
                self.stage = Stage::Checkpoint(k + 1);
                Action::RunCheckpoint(k)
            },
            Stage::Failed(k) => Action::CheckFailed(k),
            _ => Action::Finished,
        }
    }

    /// Reports whether the check that was handed out held.
    pub fn check_result(&mut self, passed: bool)
        requires
            sim_wf(old(self)@),
            old(self)@.stage is AwaitCheck,
        ensures
            sim_wf(final(self)@),
            final(self)@ == record_spec(old(self)@, passed),
    {
        if let Stage::AwaitCheck(k) = self.stage {
            if passed {
                self.stage = Stage::Check(k + 1);
            } else {
                self.stage = Stage::Failed(k);
            }
        }
    }
}

/// The run has stopped: it finished, or a check failed.
pub open spec fn is_terminal(v: SimulationView) -> bool {
    v.stage is Finished || v.stage is Failed
}

/// The most calls (of `next_action` and `check_result` together) that one
/// step of the run can take: the step itself, each transition, each check
/// and its result, each checkpoint callback, and the end of the step.
pub open spec fn step_weight(v: SimulationView) -> int {
    v.n_transitions + 2 * v.n_checks + v.n_checkpoints + 2
}

/// A bound on the calls still needed before the run stops.
pub open spec fn remaining_work(v: SimulationView) -> int {
    let n = final_checkpoint(v.timeline.checkpoints) as int;
    let i = v.timeline.index as int;
    let base = (n - i) * step_weight(v);
    match v.stage {
        Stage::Modifier => base + 1,
        Stage::Advance => base,
        Stage::Transition(k) => base + (v.n_transitions - k) + 2 * v.n_checks + v.n_checkpoints + 1,
        Stage::Check(k) => base + 2 * (v.n_checks - k) + v.n_checkpoints + 1,
        Stage::AwaitCheck(k) => base + 2 * (v.n_checks - k) + v.n_checkpoints,
        Stage::Checkpoint(k) => base + (v.n_checkpoints - k) + 1,
        Stage::EndOfStep => base + 1,
        Stage::Finished => 0,
        Stage::Failed(_) => 0,
    }
}

proof fn lemma_base_shift(n: int, i: int, w: int)
    by (nonlinear_arith)
    requires
        0 <= i < n,
        w >= 0,
    ensures
        (n - (i + 1)) * w + w == (n - i) * w,
        (n - i) * w >= w,
{
}

proof fn lemma_base_nonneg(n: int, i: int, w: int)
    by (nonlinear_arith)
    requires
        0 <= i <= n,
        w >= 0,
    ensures
        (n - i) * w >= 0,
{
}

/// Settling a consistent run keeps it consistent, never adds work, and leaves
/// it at a stage that hands something out.
proof fn lemma_settle(v: SimulationView)
    requires
        sim_wf(v),
        !(v.stage is AwaitCheck),
    ensures
        sim_wf(settle(v)),
        remaining_work(settle(v)) <= remaining_work(v),
        settle(v).timeline == v.timeline,
        settle(v).modifier == v.modifier,
        settle(v).n_transitions == v.n_transitions,
        settle(v).n_checks == v.n_checks,
        settle(v).n_checkpoints == v.n_checkpoints,
        !(settle(v).stage is AwaitCheck),
        !(settle(v).stage is EndOfStep),
        settle(v).stage matches Stage::Transition(k) ==> k < v.n_transitions,
        settle(v).stage matches Stage::Check(k) ==> k < v.n_checks,
        settle(v).stage matches Stage::Checkpoint(k) ==> k < v.n_checkpoints,
        settle(v).stage is Failed ==> v.stage is Failed,
{
    let n = final_checkpoint(v.timeline.checkpoints) as int;
    let i = v.timeline.index as int;
    let w = step_weight(v);
    lemma_base_nonneg(n, i, w);
    if i < n {
        lemma_base_shift(n, i, w);
    }
}

/// Each call on a run that has not stopped brings it strictly closer to its
/// end: `next_action` (from any stage but an awaited check) and
/// `check_result` (on an awaited check) both lower the remaining work, which
/// is never negative and is zero exactly when the run has stopped. A run
/// therefore stops, finished or on a failed check, after at most
/// `remaining_work` calls.
pub proof fn law_progress(v: SimulationView, passed: bool)
    requires
        sim_wf(v),
    ensures
        remaining_work(v) >= 0,
        remaining_work(v) == 0 <==> is_terminal(v),
        !is_terminal(v) && !(v.stage is AwaitCheck) ==> remaining_work(next_spec(v).0) < remaining_work(v),
        v.stage is AwaitCheck ==> remaining_work(record_spec(v, passed)) < remaining_work(v),
{
    let n = final_checkpoint(v.timeline.checkpoints) as int;
    let i = v.timeline.index as int;
    let w = step_weight(v);
    lemma_base_nonneg(n, i, w);
    if i < n {
        lemma_base_shift(n, i, w);
    }
    if !is_terminal(v) && !(v.stage is AwaitCheck) {
        lemma_settle(v);
    }
}

/// A run just started by `new` stops within
/// `(steps left) * (transitions + 2 * checks + checkpoints + 2) + 1` calls.
pub proof fn law_run_length_bound(v: SimulationView)
    requires
        sim_wf(v),
        v.stage is Modifier || v.stage is Advance,
    ensures
        remaining_work(v) <= (final_checkpoint(v.timeline.checkpoints) - v.timeline.index) * (
        v.n_transitions + 2 * v.n_checks + v.n_checkpoints + 2) + 1,
{
}

/// A stopped run stays stopped: asking it for more hands out the same final
/// action and changes nothing.
pub proof fn law_stopped_runs_stay_stopped(v: SimulationView)
    requires
        sim_wf(v),
        is_terminal(v),
    ensures
        next_spec(v).0 == v,
        v.stage is Finished ==> next_spec(v).1 == Action::Finished,
        v.stage matches Stage::Failed(k) ==> next_spec(v).1 == Action::CheckFailed(k),
{
}

/// What a run hands out agrees with its timeline: a new step is the one after
/// the previous step and at most the final one; checkpoint callbacks run only
/// at checkpoints; the run finishes only at the final step; a failure is only
/// ever reported for a check that was handed out and failed; and the
/// callbacks handed out are ones that exist.
pub proof fn law_actions_follow_timeline(v: SimulationView, passed: bool)
    requires
        sim_wf(v),
        !(v.stage is AwaitCheck),
    ensures
        next_spec(v).1 matches Action::BeginStep(j) ==> j == v.timeline.index + 1 && j
            <= final_checkpoint(v.timeline.checkpoints) && j == next_spec(v).0.timeline.index,
        next_spec(v).1 matches Action::RunCheckpoint(k) ==> k < v.n_checkpoints
            && v.timeline.checkpoints.contains(v.timeline.index),
        next_spec(v).1 matches Action::RunTransition(k) ==> k < v.n_transitions,
        next_spec(v).1 matches Action::RunCheck(k) ==> k < v.n_checks,
        next_spec(v).1 is Finished ==> v.timeline.index == final_checkpoint(v.timeline.checkpoints),
        next_spec(v).1 is CheckFailed ==> v.stage is Failed,
        next_spec(v).0.stage is Failed ==> v.stage is Failed,
        !(next_spec(v).1 is BeginStep) ==> next_spec(v).0.timeline == v.timeline,
{
    lemma_settle(v);
}

/// One call of the host loop when every check holds: the next action, with
/// the awaited check (if one was handed out) answered as holding.
pub open spec fn advance_passing(v: SimulationView) -> (SimulationView, Action) {
    let (v2, a) = next_spec(v);
    if a is RunCheck {
        (record_spec(v2, true), a)
    } else {
        (v2, a)
    }
}

/// The state after `fuel` calls of the host loop when every check holds, and
/// the actions handed out on the way.
pub open spec fn run_passing(v: SimulationView, fuel: nat) -> (SimulationView, Seq<Action>)
    decreases fuel,
{
    if fuel == 0 {
        (v, seq![])
    } else {
        let (v2, a) = advance_passing(v);
        let (v3, rest) = run_passing(v2, (fuel - 1) as nat);
        (v3, seq![a] + rest)
    }
}

/// The actions of one step that starts at timestep `i`, when every check
/// holds: every transition, then every check, then (when `i` is a checkpoint)
/// every checkpoint callback, each in index order; then the run finishes if
/// `i` is the final step, or moves on to step `i + 1`.
pub open spec fn step_actions(v: SimulationView) -> Seq<Action> {
    let i = v.timeline.index;
    Seq::new(v.n_transitions as nat, |j: int| Action::RunTransition(j as usize))
        + Seq::new(v.n_checks as nat, |j: int| Action::RunCheck(j as usize))
        + (if v.timeline.checkpoints.contains(i) {
            Seq::new(v.n_checkpoints as nat, |j: int| Action::RunCheckpoint(j as usize))
        } else {
            Seq::<Action>::empty()
        })
        + seq![
            if i == final_checkpoint(v.timeline.checkpoints) {
                Action::Finished
            } else {
                Action::BeginStep((i + 1) as u32)
            },
        ]
}

/// The number of host-loop calls that one step takes when every check holds.
pub open spec fn step_calls(v: SimulationView) -> nat {
    (v.n_transitions + v.n_checks + (if v.timeline.checkpoints.contains(v.timeline.index) {
        v.n_checkpoints as int
    } else {
        0
    }) + 1) as nat
}

proof fn lemma_same_settle(v1: SimulationView, v2: SimulationView, r: nat)
    requires
        settle(v1) == settle(v2),
        r >= 1,
    ensures
        run_passing(v1, r) == run_passing(v2, r),
{
    assert(advance_passing(v1) == advance_passing(v2));
}

proof fn lemma_transitions(v: SimulationView, k: usize, r: nat)
    requires
        v.stage == Stage::Transition(k),
        k <= v.n_transitions,
        r >= 1,
    ensures
        ({
            let c = with_stage(v, Stage::Check(0));
            run_passing(v, (v.n_transitions - k + r) as nat) == (
                run_passing(c, r).0,
                Seq::new((v.n_transitions - k) as nat, |j: int| Action::RunTransition((k + j) as usize))
                    + run_passing(c, r).1,
            )
        }),
    decreases v.n_transitions - k,
{
    let c = with_stage(v, Stage::Check(0));
    if k == v.n_transitions {
        assert(settle(v) == settle(c));
        lemma_same_settle(v, c, r);
        assert(Seq::new(0nat, |j: int| Action::RunTransition((k + j) as usize)) + run_passing(c, r).1
            =~= run_passing(c, r).1);
    } else {
        let v1 = with_stage(v, Stage::Transition((k + 1) as usize));
        assert(advance_passing(v) == (v1, Action::RunTransition(k)));
        lemma_transitions(v1, (k + 1) as usize, r);
        assert(with_stage(v1, Stage::Check(0)) == c);
        let fuel = (v.n_transitions - k + r) as nat;
        assert((fuel - 1) as nat == (v.n_transitions - (k + 1) + r) as nat);
        assert(seq![Action::RunTransition(k)] + (Seq::new(
            (v.n_transitions - (k + 1)) as nat,
            |j: int| Action::RunTransition((k + 1 + j) as usize),
        ) + run_passing(c, r).1) =~= Seq::new(
            (v.n_transitions - k) as nat,
            |j: int| Action::RunTransition((k + j) as usize),
        ) + run_passing(c, r).1);
    }
}

/// The stage that follows the checks of a step: the checkpoint callbacks at a
/// checkpoint, the end of the step otherwise.
pub open spec fn after_checks(v: SimulationView) -> SimulationView {
    if v.timeline.checkpoints.contains(v.timeline.index) {
        with_stage(v, Stage::Checkpoint(0))
    } else {
        with_stage(v, Stage::EndOfStep)
    }
}

proof fn lemma_checks(v: SimulationView, k: usize, r: nat)
    requires
        v.stage == Stage::Check(k),
        k <= v.n_checks,
        r >= 1,
    ensures
        ({
            let c = after_checks(v);
            run_passing(v, (v.n_checks - k + r) as nat) == (
                run_passing(c, r).0,
                Seq::new((v.n_checks - k) as nat, |j: int| Action::RunCheck((k + j) as usize))
                    + run_passing(c, r).1,
            )
        }),
    decreases v.n_checks - k,
{
    let c = after_checks(v);
    if k == v.n_checks {
        assert(settle(v) == settle(c));
        lemma_same_settle(v, c, r);
        assert(Seq::new(0nat, |j: int| Action::RunCheck((k + j) as usize)) + run_passing(c, r).1
            =~= run_passing(c, r).1);
    } else {
        let v1 = with_stage(v, Stage::Check((k + 1) as usize));
        assert(advance_passing(v) == (v1, Action::RunCheck(k)));
        lemma_checks(v1, (k + 1) as usize, r);
        assert(after_checks(v1) == c);
        let fuel = (v.n_checks - k + r) as nat;
        assert((fuel - 1) as nat == (v.n_checks - (k + 1) + r) as nat);
        assert(seq![Action::RunCheck(k)] + (Seq::new(
            (v.n_checks - (k + 1)) as nat,
            |j: int| Action::RunCheck((k + 1 + j) as usize),
        ) + run_passing(c, r).1) =~= Seq::new(
            (v.n_checks - k) as nat,
            |j: int| Action::RunCheck((k + j) as usize),
        ) + run_passing(c, r).1);
    }
}

proof fn lemma_checkpoints(v: SimulationView, k: usize, r: nat)
    requires
        v.stage == Stage::Checkpoint(k),
        k <= v.n_checkpoints,
        r >= 1,
    ensures
        ({
            let c = with_stage(v, Stage::EndOfStep);
            run_passing(v, (v.n_checkpoints - k + r) as nat) == (
                run_passing(c, r).0,
                Seq::new((v.n_checkpoints - k) as nat, |j: int| Action::RunCheckpoint((k + j) as usize))
                    + run_passing(c, r).1,
            )
        }),
    decreases v.n_checkpoints - k,
{
    let c = with_stage(v, Stage::EndOfStep);
    if k == v.n_checkpoints {
        assert(settle(v) == settle(c));
        lemma_same_settle(v, c, r);
        assert(Seq::new(0nat, |j: int| Action::RunCheckpoint((k + j) as usize)) + run_passing(c, r).1
            =~= run_passing(c, r).1);
    } else {
        let v1 = with_stage(v, Stage::Checkpoint((k + 1) as usize));
        assert(advance_passing(v) == (v1, Action::RunCheckpoint(k)));
        lemma_checkpoints(v1, (k + 1) as usize, r);
        assert(with_stage(v1, Stage::EndOfStep) == c);
        let fuel = (v.n_checkpoints - k + r) as nat;
        assert((fuel - 1) as nat == (v.n_checkpoints - (k + 1) + r) as nat);
        assert(seq![Action::RunCheckpoint(k)] + (Seq::new(
            (v.n_checkpoints - (k + 1)) as nat,
            |j: int| Action::RunCheckpoint((k + 1 + j) as usize),
        ) + run_passing(c, r).1) =~= Seq::new(
            (v.n_checkpoints - k) as nat,
            |j: int| Action::RunCheckpoint((k + j) as usize),
        ) + run_passing(c, r).1);
    }
}

/// The run at the first transition of the step after this one.
pub open spec fn next_step_view(v: SimulationView) -> SimulationView {
    SimulationView {
        timeline: TimelineView { checkpoints: v.timeline.checkpoints, index: (v.timeline.index + 1) as u32 },
        stage: Stage::Transition(0),
        ..v
    }
}

/// One step of a run, when every check holds, hands out exactly
/// `step_actions`: the transitions, then the checks, then the checkpoint
/// callbacks if the step is a checkpoint, and finally the end of the run (at
/// the final step) or the start of the next step, after which the run stands
/// at the first transition of that step.
pub proof fn law_step_order(v: SimulationView)
    requires
        sim_wf(v),
        v.stage == Stage::Transition(0),
    ensures
        run_passing(v, step_calls(v)).1 == step_actions(v),
        v.timeline.index == final_checkpoint(v.timeline.checkpoints) ==>
            run_passing(v, step_calls(v)).0.stage is Finished,
        v.timeline.index < final_checkpoint(v.timeline.checkpoints) ==>
            run_passing(v, step_calls(v)).0 == next_step_view(v),
{
    let nt = v.n_transitions;
    let nc = v.n_checks;
    let nk = v.n_checkpoints;
    let i = v.timeline.index;
    let n = final_checkpoint(v.timeline.checkpoints);
    let cp = v.timeline.checkpoints.contains(i);
    let kk: nat = if cp { nk as nat } else { 0 };
    let e = with_stage(v, Stage::EndOfStep);
    // the end of the step
    let (ve, ae) = advance_passing(e);
    assert(run_passing(e, 1) == (ve, seq![ae])) by {
        assert(run_passing(ve, 0) == (ve, Seq::<Action>::empty()));
        assert(seq![ae] + Seq::<Action>::empty() =~= seq![ae]);
    }
    let last = if i == n { Action::Finished } else { Action::BeginStep((i + 1) as u32) };
    assert(ae == last);
    // checkpoint callbacks, if any
    let c0 = with_stage(v, Stage::Check(0));
    let ac = after_checks(c0);
    let tail_k = if cp { Seq::new(nk as nat, |j: int| Action::RunCheckpoint(j as usize)) } else { Seq::<Action>::empty() };
    assert(run_passing(ac, kk + 1) == (ve, tail_k + seq![ae])) by {
        if cp {
            lemma_checkpoints(ac, 0, 1);
            assert(with_stage(ac, Stage::EndOfStep) == e);
            assert(Seq::new(nk as nat, |j: int| Action::RunCheckpoint((0 + j) as usize))
                =~= tail_k);
        } else {
            assert(ac == e);
            assert(tail_k + seq![ae] =~= seq![ae]);
        }
    }
    // checks
    lemma_checks(c0, 0, kk + 1);
    assert((nc - 0 + (kk + 1)) as nat == nc + kk + 1);
    let checks = Seq::new(nc as nat, |j: int| Action::RunCheck(j as usize));
    assert(Seq::new((nc - 0) as nat, |j: int| Action::RunCheck((0 + j) as usize)) =~= checks);
    // transitions
    lemma_transitions(v, 0, (nc + kk + 1) as nat);
    assert((nt - 0 + (nc + kk + 1)) as nat == step_calls(v));
    let trans = Seq::new(nt as nat, |j: int| Action::RunTransition(j as usize));
    assert(Seq::new((nt - 0) as nat, |j: int| Action::RunTransition((0 + j) as usize)) =~= trans);
    assert(trans + (checks + (tail_k + seq![ae])) =~= step_actions(v));
}

proof fn lemma_run_split(v: SimulationView, a: nat, b: nat)
    ensures
        run_passing(v, a + b) == (
            run_passing(run_passing(v, a).0, b).0,
            run_passing(v, a).1 + run_passing(run_passing(v, a).0, b).1,
        ),
    decreases a,
{
    if a == 0 {
        assert(Seq::<Action>::empty() + run_passing(v, b).1 =~= run_passing(v, b).1);
    } else {
        let (v2, x) = advance_passing(v);
        lemma_run_split(v2, (a - 1) as nat, b);
        assert((a + b - 1) as nat == (a - 1) as nat + b);
        assert(seq![x] + (run_passing(v2, (a - 1) as nat).1 + run_passing(run_passing(v2, (a - 1) as nat).0, b).1)
            =~= (seq![x] + run_passing(v2, (a - 1) as nat).1) + run_passing(run_passing(v2, (a - 1) as nat).0, b).1);
    }
}

/// The actions of a whole run from the first transition of step `i` on, when
/// every check holds: the actions of step `i`, then those of each later step
/// up to the final one.
pub open spec fn run_actions(v: SimulationView) -> Seq<Action>
    decreases final_checkpoint(v.timeline.checkpoints) - v.timeline.index,
{
    if v.timeline.index < final_checkpoint(v.timeline.checkpoints) {
        step_actions(v) + run_actions(next_step_view(v))
    } else {
        step_actions(v)
    }
}

/// The number of host-loop calls of that whole run.
pub open spec fn run_calls(v: SimulationView) -> nat
    decreases final_checkpoint(v.timeline.checkpoints) - v.timeline.index,
{
    if v.timeline.index < final_checkpoint(v.timeline.checkpoints) {
        step_calls(v) + run_calls(next_step_view(v))
    } else {
        step_calls(v)
    }
}

/// From the first transition of a step, a run in which every check holds
/// hands out, step after step up to the final one, exactly the actions of
/// each step in turn, and then stands finished.
pub proof fn law_whole_run(v: SimulationView)
    requires
        sim_wf(v),
        v.stage == Stage::Transition(0),
    ensures
        run_passing(v, run_calls(v)).1 == run_actions(v),
        run_passing(v, run_calls(v)).0.stage is Finished,
    decreases final_checkpoint(v.timeline.checkpoints) - v.timeline.index,
{
    law_step_order(v);
    if v.timeline.index < final_checkpoint(v.timeline.checkpoints) {
        let w = next_step_view(v);
        law_whole_run(w);
        lemma_run_split(v, step_calls(v), run_calls(w));
    }
}

/// A run just started (with its modifier, if any, still to apply) in which
/// every check holds hands out the modifier, then the start of the first
/// step, then the actions of every step up to the final one, and stands
/// finished.
pub proof fn law_run_from_start(v: SimulationView)
    requires
        sim_wf(v),
        v.stage is Advance,
    ensures
        ({
            let w = next_step_view(v);
            &&& run_passing(v, 1 + run_calls(w)).1 == seq![Action::BeginStep(w.timeline.index)] + run_actions(w)
            &&& run_passing(v, 1 + run_calls(w)).0.stage is Finished
        }),
{
    let w = next_step_view(v);
    assert(advance_passing(v) == (w, Action::BeginStep(w.timeline.index)));
    law_whole_run(w);
    lemma_run_split(v, 1, run_calls(w));
    assert(run_passing(v, 1) == (w, seq![Action::BeginStep(w.timeline.index)])) by {
        assert(run_passing(w, 0) == (w, Seq::<Action>::empty()));
        assert(seq![Action::BeginStep(w.timeline.index)] + Seq::<Action>::empty()
            =~= seq![Action::BeginStep(w.timeline.index)]);
    }
}

/// A run that still has its modifier to apply hands out that very modifier
/// (the one `new` chose: the index of this process's rank), and nothing else
/// happens: the timeline does not move and the run goes on to its first step.
pub proof fn law_modifier_applied_first(v: SimulationView, m: usize)
    requires
        sim_wf(v),
        v.stage is Modifier,
        v.modifier == Some(m),
    ensures
        next_spec(v).1 == Action::ApplyModifier(m),
        next_spec(v).0.timeline == v.timeline,
        next_spec(v).0.stage is Advance,
        next_spec(v).0.modifier == Some(m),
{
}

/// A run of the process of rank `r` with a list of modifiers first applies
/// modifier `r`, then starts its first step and hands out the actions of
/// every step up to the final one, when every check holds.
pub proof fn law_run_with_modifier(v: SimulationView, r: usize)
    requires
        sim_wf(v),
        v.stage is Modifier,
        v.modifier == Some(r),
    ensures
        ({
            let a = with_stage(v, Stage::Advance);
            let w = next_step_view(a);
            &&& run_passing(v, 2 + run_calls(w)).1
                == seq![Action::ApplyModifier(r), Action::BeginStep(w.timeline.index)] + run_actions(w)
            &&& run_passing(v, 2 + run_calls(w)).0.stage is Finished
        }),
{
    let a = with_stage(v, Stage::Advance);
    let w = next_step_view(a);
    assert(advance_passing(v) == (a, Action::ApplyModifier(r)));
    law_run_from_start(a);
    lemma_run_split(v, 1, 1 + run_calls(w));
    assert(run_passing(v, 1) == (a, seq![Action::ApplyModifier(r)])) by {
        assert(run_passing(a, 0) == (a, Seq::<Action>::empty()));
        assert(seq![Action::ApplyModifier(r)] + Seq::<Action>::empty() =~= seq![Action::ApplyModifier(r)]);
    }
    assert((1 + (1 + run_calls(w))) as nat == 2 + run_calls(w));
    assert(seq![Action::ApplyModifier(r)] + (seq![Action::BeginStep(w.timeline.index)] + run_actions(w))
        =~= seq![Action::ApplyModifier(r), Action::BeginStep(w.timeline.index)] + run_actions(w));
}

/// Exactly the ranks that index a list of modifiers are accepted: when there
/// are `n > 0` modifiers, rank `r` fits if and only if `r` is one of
/// `0, 1, ..., n - 1`; when there are none, every rank fits.
pub proof fn law_rank_indexes_modifiers(n: usize, r: i32)
    ensures
        n > 0 ==> (rank_fits(n, r) <==> (0 <= r && r < n)),
        n > 0 && 0 <= r && r < n ==> rank_fits(n, r),
        n > 0 ==> rank_fits(n, 0),
        n > 0 && r < 0 ==> !rank_fits(n, r),
        n > 0 && r >= n ==> !rank_fits(n, r),
        n == 0 ==> rank_fits(n, r),
{
}

/// A list of modifiers fits a group of `s >= 0` processes exactly when it is
/// empty or has one modifier per process: `s` modifiers always fit, no other
/// non-empty length does, and no non-empty list fits a negative size.
pub proof fn law_one_modifier_per_process(n: usize, s: i32)
    ensures
        s >= 0 ==> modifiers_fit(s as usize, s),
        modifiers_fit(0, s),
        n > 0 && modifiers_fit(n, s) ==> n == s,
        n > 0 && s >= 0 && n != s ==> !modifiers_fit(n, s),
        n > 0 && s < 0 ==> !modifiers_fit(n, s),
{
}

/// In a group with one modifier per process, every process (rank `0` to
/// `size - 1`) finds its own modifier, so a run can start on every process.
pub proof fn law_every_process_has_its_modifier(n: usize, size: i32, rank: i32)
    requires
        modifiers_fit(n, size),
        0 <= rank < size,
    ensures
        rank_fits(n, rank),
{
}

/// A check that holds never stops the run; one that fails always does.
pub proof fn law_check_outcome(v: SimulationView)
    requires
        sim_wf(v),
        v.stage is AwaitCheck,
    ensures
        !(record_spec(v, true).stage is Failed),
        record_spec(v, false).stage == Stage::Failed(v.stage->AwaitCheck_0),
        record_spec(v, true).timeline == v.timeline,
{
}

} // verus!
