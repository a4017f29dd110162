//! Batches of chart units: levels are applied one after the other, the
//! units of a level side by side.

use crate::cloud_provider::helm::{HelmAction, HelmChart};
use crate::error::{other_error, SimpleError, SimpleErrorView};
use vstd::prelude::*;

verus! {

/// How the run of one unit of a level ended.
#[derive(Debug)]
pub enum UnitOutcome {
    /// The run returned without a failure.
    Succeeded,
    /// The run returned this failure.
    Failed(SimpleError),
    /// The worker of the run ended abnormally.
    Panicked,
}

/// What a [`UnitOutcome`] holds, as mathematical values.
pub enum UnitOutcomeView {
    Succeeded,
    Failed(SimpleErrorView),
    Panicked,
}

impl View for UnitOutcome {
    type V = UnitOutcomeView;

    open spec fn view(&self) -> UnitOutcomeView {
        match *self {
            UnitOutcome::Succeeded => UnitOutcomeView::Succeeded,
            UnitOutcome::Failed(e) => UnitOutcomeView::Failed(e@),
            UnitOutcome::Panicked => UnitOutcomeView::Panicked,
        }
    }
}

/// The views of a sequence of outcomes.
pub open spec fn outcome_views(s: Seq<UnitOutcome>) -> Seq<UnitOutcomeView> {
    Seq::new(s.len(), |i: int| s[i]@)
}

/// The failure that stands for a worker that ended abnormally.
pub open spec fn worker_panicked() -> SimpleErrorView {
    other_error("thread panicked during parallel charts deployments"@)
}

/// The failure that an outcome stands for, if any.
pub open spec fn failure_of(o: UnitOutcomeView) -> Option<SimpleErrorView> {
    match o {
        UnitOutcomeView::Succeeded => None,
        UnitOutcomeView::Failed(e) => Some(e),
        UnitOutcomeView::Panicked => Some(worker_panicked()),
    }
}

/// One level in progress: how many units it has, how many have reported,
/// and the first failure among the reports.
#[derive(Debug)]
pub struct LevelRun {
    pub expected: usize,
    pub reported: usize,
    pub failure: Option<SimpleError>,
}

/// What a [`LevelRun`] holds, as mathematical values.
pub struct LevelRunView {
    pub expected: nat,
    pub reported: nat,
    pub failure: Option<SimpleErrorView>,
}

impl View for LevelRun {
    type V = LevelRunView;

    open spec fn view(&self) -> LevelRunView {
        LevelRunView {
            expected: self.expected as nat,
            reported: self.reported as nat,
            failure: match self.failure {
                Some(e) => Some(e@),
                None => None,
            },
        }
    }
}

impl LevelRunView {
    /// The level with one more report: the first failure stays.
    pub open spec fn record(self, outcome: UnitOutcomeView) -> LevelRunView {
        if self.reported >= self.expected {
            self
        } else {
            LevelRunView {
                reported: self.reported + 1,
                failure: if self.failure is Some {
                    self.failure
                } else {
                    failure_of(outcome)
                },
                ..self
            }
        }
    }

    /// The outcome of the level: none before every unit has reported, then
    /// the first failure, or success where there is none.
    pub open spec fn outcome(self) -> Option<Result<(), SimpleErrorView>> {
        if self.reported < self.expected {
            None
        } else {
            Some(
                match self.failure {
                    Some(e) => Err(e),
                    None => Ok(()),
                },
            )
        }
    }

    /// The level after these reports, in the order in which they came.
    pub open spec fn record_all(self, outcomes: Seq<UnitOutcomeView>) -> LevelRunView
        decreases outcomes.len(),
    {
        if outcomes.len() == 0 {
            self
        } else {
            self.record_all(outcomes.drop_last()).record(outcomes.last())
        }
    }
}

/// The failure of the first outcome that stands for one.
pub open spec fn first_failure(outcomes: Seq<UnitOutcomeView>) -> Option<SimpleErrorView>
    decreases outcomes.len(),
{
    if outcomes.len() == 0 {
        None
    } else if failure_of(outcomes[0]) is Some {
        failure_of(outcomes[0])
    } else {
        first_failure(outcomes.drop_first())
    }
}

fn panic_failure() -> (r: SimpleError)
    ensures
        r@ == worker_panicked(),
{
    SimpleError::other(String::from_str("thread panicked during parallel charts deployments"))
}

impl LevelRun {
    /// A level of `units` units, none of which has reported.
    pub fn new(units: usize) -> (r: LevelRun)
        ensures
            r@ == (LevelRunView { expected: units as nat, reported: 0, failure: None }),
    {
        LevelRun { expected: units, reported: 0, failure: None }
    }

    /// Takes the report of one unit. The first failure is kept; a worker
    /// that ended abnormally counts as a failure of its own. A report beyond
    /// the number of units changes nothing.
    pub fn record(&mut self, outcome: UnitOutcome)
        ensures
            final(self)@ == old(self)@.record(outcome@),
    {
        if self.reported < self.expected {
            self.reported = self.reported + 1;
            if self.failure.is_none() {
                match outcome {
                    UnitOutcome::Succeeded => {},
                    UnitOutcome::Failed(e) => {
                        self.failure = Some(e);
                    },
                    UnitOutcome::Panicked => {
                        self.failure = Some(panic_failure());
                    },
                }
            }
        }
    }

    /// Whether every unit has reported.
    pub fn is_complete(&self) -> (r: bool)
        ensures
            r == (self@.reported >= self@.expected),
            r == (self@.outcome() is Some),
    {
        self.reported >= self.expected
    }

    /// The outcome of the level, once every unit has reported.
    pub fn into_outcome(self) -> (r: Option<Result<(), SimpleError>>)
        ensures
            match r {
                Some(Ok(())) => self@.outcome() == Some(Ok::<(), SimpleErrorView>(())),
                Some(Err(e)) => self@.outcome() == Some(Err::<(), SimpleErrorView>(e@)),
                None => self@.outcome() is None,
            },
    {
        if self.reported < self.expected {
            None
        } else {
            match self.failure {
                Some(e) => Some(Err(e)),
                None => Some(Ok(())),
            }
        }
    }
}

/// A level that takes its reports one by one holds the first failure of
/// the reports so far, in the order in which they came, and is complete
/// exactly when all of them are in.
pub proof fn law_level_keeps_first_failure(units: nat, outcomes: Seq<UnitOutcomeView>)
    requires
        outcomes.len() <= units,
    ensures
        ({
            let run = (LevelRunView { expected: units, reported: 0, failure: None }).record_all(
                outcomes,
            );
            &&& run.expected == units
            &&& run.reported == outcomes.len()
            &&& run.failure == first_failure(outcomes)
            &&& run.outcome() is Some <==> outcomes.len() == units
        }),
    decreases outcomes.len(),
{
    if outcomes.len() > 0 {
        law_level_keeps_first_failure(units, outcomes.drop_last());
        lemma_first_failure_by_last(outcomes);
    }
}

/// The first failure of a sequence, told from its last outcome.
pub proof fn lemma_first_failure_by_last(outcomes: Seq<UnitOutcomeView>)
    requires
        outcomes.len() > 0,
    ensures
        first_failure(outcomes) == if first_failure(outcomes.drop_last()) is Some {
            first_failure(outcomes.drop_last())
        } else {
            failure_of(outcomes.last())
        },
    decreases outcomes.len(),
{
    if outcomes.len() == 1 {
        assert(outcomes.drop_last().len() == 0);
        assert(outcomes.drop_first().len() == 0);
    } else {
        assert(outcomes.drop_last()[0] == outcomes[0]);
        if failure_of(outcomes[0]) is None {
            lemma_first_failure_by_last(outcomes.drop_first());
            assert(outcomes.drop_first().drop_last() =~= outcomes.drop_last().drop_first());
            assert(outcomes.drop_first().last() == outcomes.last());
        }
    }
}

/// The first failure is the failure of an outcome before which none failed;
/// there is none exactly where no outcome failed.
pub proof fn law_first_failure_is_the_earliest(outcomes: Seq<UnitOutcomeView>)
    ensures
        match first_failure(outcomes) {
            Some(e) => exists|i: int|
                0 <= i < outcomes.len() && failure_of(#[trigger] outcomes[i]) == Some(e)
                    && forall|j: int| 0 <= j < i ==> failure_of(#[trigger] outcomes[j]) is None,
            None => forall|j: int|
                0 <= j < outcomes.len() ==> failure_of(#[trigger] outcomes[j]) is None,
        },
    decreases outcomes.len(),
{
    if outcomes.len() > 0 {
        if failure_of(outcomes[0]) is Some {
            assert(failure_of(outcomes[0]) == first_failure(outcomes));
        } else {
            let tail = outcomes.drop_first();
            law_first_failure_is_the_earliest(tail);
            match first_failure(tail) {
                Some(e) => {
                    let i = choose|i: int|
                        0 <= i < tail.len() && failure_of(#[trigger] tail[i]) == Some(e)
                            && forall|j: int|
                            0 <= j < i ==> failure_of(#[trigger] tail[j]) is None;
                    assert(outcomes[i + 1] == tail[i]);
                    assert forall|j: int| 0 <= j < i + 1 implies failure_of(
                        #[trigger] outcomes[j],
                    ) is None by {
                        if j > 0 {
                            assert(outcomes[j] == tail[j - 1]);
                        }
                    }
                },
                None => {
                    assert forall|j: int| 0 <= j < outcomes.len() implies failure_of(
                        #[trigger] outcomes[j],
                    ) is None by {
                        if j > 0 {
                            assert(outcomes[j] == tail[j - 1]);
                        }
                    }
                },
            }
        }
    }
}

/// Where an outcome fails and none before it does, its failure is the first.
pub proof fn lemma_first_failure_found(outcomes: Seq<UnitOutcomeView>, i: int)
    requires
        0 <= i < outcomes.len(),
        failure_of(outcomes[i]) is Some,
        forall|j: int| 0 <= j < i ==> failure_of(#[trigger] outcomes[j]) is None,
    ensures
        first_failure(outcomes) == failure_of(outcomes[i]),
    decreases i,
{
    if i > 0 {
        let tail = outcomes.drop_first();
        assert(failure_of(outcomes[0]) is None);
        assert(tail[i - 1] == outcomes[i]);
        assert forall|j: int| 0 <= j < i - 1 implies failure_of(#[trigger] tail[j]) is None by {
            assert(tail[j] == outcomes[j + 1]);
        }
        lemma_first_failure_found(tail, i - 1);
    }
}

/// Where no outcome fails there is no first failure.
pub proof fn lemma_no_failure(outcomes: Seq<UnitOutcomeView>)
    requires
        forall|j: int| 0 <= j < outcomes.len() ==> failure_of(#[trigger] outcomes[j]) is None,
    ensures
        first_failure(outcomes) is None,
    decreases outcomes.len(),
{
    if outcomes.len() > 0 {
        let tail = outcomes.drop_first();
        assert(failure_of(outcomes[0]) is None);
        assert forall|j: int| 0 <= j < tail.len() implies failure_of(#[trigger] tail[j]) is None by {
            assert(tail[j] == outcomes[j + 1]);
        }
        lemma_no_failure(tail);
    }
}

/// The outcome of a level from the outcomes of all its units, in the order
/// in which the units finished: the first failure, or success where no unit
/// failed. Every unit has run to its end by then; none is cancelled for the
/// failure of another.
pub fn deploy_parallel_charts(outcomes: &Vec<UnitOutcome>) -> (r: Result<(), SimpleError>)
    ensures
        match r {
            Ok(()) => first_failure(outcome_views(outcomes@)) is None,
            Err(e) => first_failure(outcome_views(outcomes@)) == Some(e@),
        },
{
    let ghost all = outcome_views(outcomes@);
    let n: usize = outcomes.len();
    let mut i: usize = 0;
    while i < n
        invariant
            n == outcomes@.len(),
            all == outcome_views(outcomes@),
            i <= n,
            forall|j: int| 0 <= j < i ==> failure_of(#[trigger] all[j]) is None,
        decreases n - i,
    {
        match &outcomes[i] {
            UnitOutcome::Succeeded => {},
            UnitOutcome::Failed(e) => {
                proof {
                    lemma_first_failure_found(all, i as int);
                }
                return Err(e.duplicate());
            },
            UnitOutcome::Panicked => {
                proof {
                    lemma_first_failure_found(all, i as int);
                }
                return Err(panic_failure());
            },
        }
        i = i + 1;
    }
    proof {
        lemma_no_failure(all);
    }
    Ok(())
}

/// What a batch waits for, or `Finished`.
#[derive(Clone, Copy, Debug, PartialEq, Eq, Structural)]
pub enum PlanStep {
    /// Show the difference between this unit and what is live.
    Diff { level: usize, unit: usize },
    /// Run all units of this level and report the level's outcome.
    Apply { level: usize },
    /// Nothing is pending: the batch has its outcome.
    Finished,
}

/// A batch in progress: what is pending, and the failure it ended with.
#[derive(Debug)]
pub struct Plan {
    pub step: PlanStep,
    pub failure: Option<SimpleError>,
}

/// What a [`Plan`] holds, as mathematical values.
pub struct PlanView {
    pub step: PlanStep,
    pub failure: Option<SimpleErrorView>,
}

impl View for Plan {
    type V = PlanView;

    open spec fn view(&self) -> PlanView {
        PlanView {
            step: self.step,
            failure: match self.failure {
                Some(e) => Some(e@),
                None => None,
            },
        }
    }
}

/// The actions of the units of a batch, level by level.
pub open spec fn actions<C: HelmChart>(charts: Seq<Vec<C>>) -> Seq<Seq<HelmAction>> {
    Seq::new(charts.len(), |l: int| Seq::new(charts[l]@.len(), |u: int| charts[l]@[u].chart_view().action))
}

/// Whether `(l, u)` is the place of a unit of the batch.
pub open spec fn is_place(actions: Seq<Seq<HelmAction>>, l: int, u: int) -> bool {
    0 <= l < actions.len() && 0 <= u < actions[l].len()
}

/// Whether the place `(l, u)` is at or behind `(level, unit)`, level by
/// level and unit by unit.
pub open spec fn at_or_behind(l: int, u: int, level: int, unit: int) -> bool {
    l > level || (l == level && u >= unit)
}

/// The first unit to deploy at or behind the place `(level, unit)`.
pub open spec fn next_deploy(actions: Seq<Seq<HelmAction>>, level: int, unit: int) -> Option<
    (int, int),
>
    decreases actions.len() - level, actions[level].len() - unit,
{
    if level < 0 || unit < 0 || level >= actions.len() {
        None
    } else if unit >= actions[level].len() {
        next_deploy(actions, level + 1, 0)
    } else if actions[level][unit] == HelmAction::Deploy {
        Some((level, unit))
    } else {
        next_deploy(actions, level, unit + 1)
    }
}

/// What the batch waits for once the differences from `found` on are the
/// only ones left to show: the next difference, else, unless this is a dry
/// run, the first level.
pub open spec fn after_diff(levels: nat, dry_run: bool, found: Option<(int, int)>) -> PlanStep {
    match found {
        Some((l, u)) => PlanStep::Diff { level: l as usize, unit: u as usize },
        None => if dry_run || levels == 0 {
            PlanStep::Finished
        } else {
            PlanStep::Apply { level: 0 }
        },
    }
}

/// The batch before anything was done.
pub open spec fn plan_start_spec(actions: Seq<Seq<HelmAction>>, dry_run: bool) -> PlanView {
    PlanView { step: after_diff(actions.len(), dry_run, next_deploy(actions, 0, 0)), failure: None }
}

/// The batch after the report on what was pending. The outcome of a
/// difference is of no account; the failure of a level ends the batch.
pub open spec fn plan_advance_spec(
    actions: Seq<Seq<HelmAction>>,
    dry_run: bool,
    plan: PlanView,
    report: Option<SimpleErrorView>,
) -> PlanView {
    match plan.step {
        PlanStep::Diff { level, unit } => PlanView {
            step: after_diff(actions.len(), dry_run, next_deploy(actions, level as int, unit + 1)),
            ..plan
        },
        PlanStep::Apply { level } => match report {
            Some(e) => PlanView { step: PlanStep::Finished, failure: Some(e) },
            None => if level + 1 < actions.len() {
                PlanView { step: PlanStep::Apply { level: (level + 1) as usize }, ..plan }
            } else {
                PlanView { step: PlanStep::Finished, ..plan }
            },
        },
        PlanStep::Finished => plan,
    }
}

impl PlanView {
    /// The outcome of the batch, once nothing is pending.
    pub open spec fn outcome(self) -> Option<Result<(), SimpleErrorView>> {
        if self.step is Finished {
            Some(
                match self.failure {
                    Some(e) => Err(e),
                    None => Ok(()),
                },
            )
        } else {
            None
        }
    }
}

/// The report of a level or of a difference, as a failure that may be absent.
pub open spec fn report_view(report: Result<(), SimpleError>) -> Option<SimpleErrorView> {
    match report {
        Ok(_) => None,
        Err(e) => Some(e@),
    }
}

/// What `next_deploy` finds is the place of a unit to deploy, at or behind
/// the place asked for, and no unit to deploy lies between the two; it
/// finds nothing only where no unit to deploy is left.
pub proof fn lemma_next_deploy(actions: Seq<Seq<HelmAction>>, level: int, unit: int)
    requires
        0 <= level,
        0 <= unit,
    ensures
        match next_deploy(actions, level, unit) {
            Some((l, u)) => is_place(actions, l, u) && actions[l][u] == HelmAction::Deploy
                && at_or_behind(l, u, level, unit) && forall|a: int, b: int|
                #![trigger actions[a][b]]
                is_place(actions, a, b) && at_or_behind(a, b, level, unit) && !at_or_behind(
                    a,
                    b,
                    l,
                    u,
                ) ==> actions[a][b] != HelmAction::Deploy,
            None => forall|a: int, b: int|
                #![trigger actions[a][b]]
                is_place(actions, a, b) && at_or_behind(a, b, level, unit) ==> actions[a][b]
                    != HelmAction::Deploy,
        },
    decreases actions.len() - level, actions[level].len() - unit,
{
    if level >= actions.len() {
    } else if unit >= actions[level].len() {
        lemma_next_deploy(actions, level + 1, 0);
    } else if actions[level][unit] == HelmAction::Deploy {
    } else {
        lemma_next_deploy(actions, level, unit + 1);
    }
}

/// Behind the last unit of a level the search goes on with the next level,
/// from wherever behind it the search was asked to begin.
pub proof fn lemma_beyond_every_unit(actions: Seq<Seq<HelmAction>>, level: int, a: int, b: int)
    requires
        0 <= level,
        0 <= a,
        0 <= b,
        level < actions.len() ==> a >= actions[level].len() && b >= actions[level].len(),
    ensures
        next_deploy(actions, level, a) == next_deploy(actions, level, b),
{
}

fn find_deploy<C: HelmChart>(charts: &Vec<Vec<C>>, level: usize, unit: usize) -> (r: Option<
    (usize, usize),
>)
    ensures
        match r {
            Some((l, u)) => next_deploy(actions(charts@), level as int, unit as int) == Some(
                (l as int, u as int),
            ),
            None => next_deploy(actions(charts@), level as int, unit as int) is None,
        },
{
    let ghost acts = actions(charts@);
    let mut l: usize = level;
    let mut u: usize = unit;
    let levels: usize = charts.len();
    while l < levels
        invariant
            levels == charts@.len(),
            acts == actions(charts@),
            next_deploy(acts, level as int, unit as int) == next_deploy(acts, l as int, u as int),
        decreases levels - l, charts@[l as int]@.len() - u,
    {
        let units: usize = charts[l].len();
        assert(acts[l as int].len() == units);
        if u >= units {
            l = l + 1;
            u = 0;
        } else {
            assert(acts[l as int][u as int] == charts@[l as int]@[u as int].chart_view().action);
            match charts[l][u].get_chart_info().action {
                HelmAction::Deploy => {
                    return Some((l, u));
                },
                _ => {
                    u = u + 1;
                },
            }
        }
    }
    None
}

fn step_after_diff(levels: usize, dry_run: bool, found: Option<(usize, usize)>) -> (r: PlanStep)
    ensures
        r == after_diff(
            levels as nat,
            dry_run,
            match found {
                Some((l, u)) => Some((l as int, u as int)),
                None => None,
            },
        ),
{
    match found {
        Some((l, u)) => PlanStep::Diff { level: l, unit: u },
        None => {
            if dry_run || levels == 0 {
                PlanStep::Finished
            } else {
                PlanStep::Apply { level: 0 }
            }
        },
    }
}

/// Begins a batch: the differences of all units to deploy are shown first,
/// level by level.
pub fn deploy_charts_levels<C: HelmChart>(charts: &Vec<Vec<C>>, dry_run: bool) -> (plan: Plan)
    ensures
        plan@ == plan_start_spec(actions(charts@), dry_run),
{
    let found = find_deploy(charts, 0, 0);
    Plan { step: step_after_diff(charts.len(), dry_run, found), failure: None }
}

/// Takes the report on what was pending and says what the batch waits for
/// next. Differences are shown for every unit to deploy before any level is
/// applied, and their outcome is of no account. A dry run ends after them.
/// Levels are applied in order, each after the one before it has succeeded;
/// the first failure of a level ends the batch with that failure.
pub fn plan_advance<C: HelmChart>(
    charts: &Vec<Vec<C>>,
    dry_run: bool,
    plan: Plan,
    report: Result<(), SimpleError>,
) -> (next: Plan)
    ensures
        next@ == plan_advance_spec(actions(charts@), dry_run, plan@, report_view(report)),
{
    match plan.step {
        PlanStep::Diff { level, unit } => {
            let found = if unit < usize::MAX {
                find_deploy(charts, level, unit + 1)
            } else {
                // No level has a unit at this place: the search goes on
                // with the next level either way.
                if level < charts.len() {
                    let units: usize = charts[level].len();
                    assert(actions(charts@)[level as int].len() == units);
                }
                proof {
                    lemma_beyond_every_unit(actions(charts@), level as int, unit as int, unit + 1);
                }
                find_deploy(charts, level, unit)
            };
            Plan { step: step_after_diff(charts.len(), dry_run, found), failure: plan.failure }
        },
        PlanStep::Apply { level } => match report {
            Err(e) => Plan { step: PlanStep::Finished, failure: Some(e) },
            Ok(_) => {
                let levels: usize = charts.len();
                if level < levels && level + 1 < levels {
                    Plan { step: PlanStep::Apply { level: level + 1 }, failure: plan.failure }
                } else {
                    Plan { step: PlanStep::Finished, failure: plan.failure }
                }
            },
        },
        PlanStep::Finished => plan,
    }
}

/// The batch after a sequence of reports, each on what was pending when it
/// came.
pub open spec fn plan_after(
    actions: Seq<Seq<HelmAction>>,
    dry_run: bool,
    reports: Seq<Option<SimpleErrorView>>,
) -> PlanView
    decreases reports.len(),
{
    if reports.len() == 0 {
        plan_start_spec(actions, dry_run)
    } else {
        plan_advance_spec(
            actions,
            dry_run,
            plan_after(actions, dry_run, reports.drop_last()),
            reports.last(),
        )
    }
}

/// The views of a sequence of reports.
pub open spec fn report_views(reports: Seq<Result<(), SimpleError>>) -> Seq<Option<SimpleErrorView>> {
    Seq::new(reports.len(), |i: int| report_view(reports[i]))
}

/// Goes through a batch with reports that are known beforehand: each is
/// taken as the report on what is pending when its turn comes.
pub fn replay_batch<C: HelmChart>(
    charts: &Vec<Vec<C>>,
    dry_run: bool,
    reports: Vec<Result<(), SimpleError>>,
) -> (plan: Plan)
    ensures
        plan@ == plan_after(actions(charts@), dry_run, report_views(reports@)),
{
    let ghost all = report_views(reports@);
    let count: usize = reports.len();
    let mut rest = reports;
    let mut plan = deploy_charts_levels(charts, dry_run);
    let mut done: usize = 0;
    assert(all.take(0) =~= Seq::<Option<SimpleErrorView>>::empty());
    while rest.len() > 0
        invariant
            all.len() == count,
            done + rest@.len() == all.len(),
            forall|i: int| 0 <= i < rest@.len() ==> report_view(#[trigger] rest@[i]) == all[done + i],
            plan@ == plan_after(actions(charts@), dry_run, all.take(done as int)),
        decreases rest@.len(),
    {
        let ghost head = all.take(done + 1);
        assert(head.drop_last() =~= all.take(done as int));
        assert(head.last() == all[done as int]);
        let report = rest.remove(0);
        plan = plan_advance(charts, dry_run, plan, report);
        done = done + 1;
    }
    assert(all.take(done as int) =~= all);
    plan
}

} // verus!
