//! What holds of every batch, whatever is reported.

use crate::cloud_provider::chart_plan::{
    at_or_behind, is_place, lemma_next_deploy, next_deploy, plan_advance_spec, plan_after,
    plan_start_spec, PlanStep, PlanView,
};
use crate::cloud_provider::helm::HelmAction;
use crate::error::SimpleErrorView;
use vstd::prelude::*;

verus! {

/// Whether a batch is one that an engine can hold: the number of its
/// levels and of the units of each level fit in the engine's integers.
pub open spec fn holdable(actions: Seq<Seq<HelmAction>>) -> bool {
    &&& actions.len() <= usize::MAX
    &&& forall|l: int| 0 <= l < actions.len() ==> (#[trigger] actions[l]).len() <= usize::MAX
}

/// A level is asked for only after the level before it has been reported
/// as a success, and the first level only after the last difference.
pub proof fn law_levels_are_applied_in_order(
    actions: Seq<Seq<HelmAction>>,
    dry_run: bool,
    plan: PlanView,
    report: Option<SimpleErrorView>,
)
    requires
        holdable(actions),
    ensures
        plan_advance_spec(actions, dry_run, plan, report).step matches PlanStep::Apply {
            level: m,
        } ==> (plan.step is Diff && m == 0) || (plan.step == (PlanStep::Apply {
            level: (m - 1) as usize,
        }) && m > 0 && report is None),
{
}

/// Whenever a batch waits for a level other than the first, the report
/// before was the success of the level before it.
pub proof fn law_level_waits_for_the_level_before(
    actions: Seq<Seq<HelmAction>>,
    dry_run: bool,
    reports: Seq<Option<SimpleErrorView>>,
)
    requires
        holdable(actions),
    ensures
        plan_after(actions, dry_run, reports).step matches PlanStep::Apply { level: m } ==> m
            < actions.len() && (m > 0 ==> reports.len() > 0 && reports.last() is None
            && plan_after(actions, dry_run, reports.drop_last()).step == (PlanStep::Apply {
            level: (m - 1) as usize,
        })),
    decreases reports.len(),
{
    if reports.len() > 0 {
        law_level_waits_for_the_level_before(actions, dry_run, reports.drop_last());
        law_levels_are_applied_in_order(
            actions,
            dry_run,
            plan_after(actions, dry_run, reports.drop_last()),
            reports.last(),
        );
    }
}

/// The differences come first: once a batch waits for a level or is
/// finished, it never waits for a difference again; and it leaves the
/// differences only when no unit to deploy is left behind the last one shown.
pub proof fn law_differences_come_first(
    actions: Seq<Seq<HelmAction>>,
    dry_run: bool,
    plan: PlanView,
    report: Option<SimpleErrorView>,
)
    requires
        holdable(actions),
    ensures
        !(plan.step is Diff) ==> !(plan_advance_spec(actions, dry_run, plan, report).step is Diff),
        plan.step matches PlanStep::Diff { level, unit } ==> (match plan_advance_spec(
            actions,
            dry_run,
            plan,
            report,
        ).step {
            PlanStep::Diff { level: l, unit: u } => next_deploy(actions, level as int, unit + 1)
                == Some((l as int, u as int)),
            _ => forall|a: int, b: int|
                #![trigger actions[a][b]]
                is_place(actions, a, b) && at_or_behind(a, b, level as int, unit + 1)
                    ==> actions[a][b] != HelmAction::Deploy,
        }),
{
    if let PlanStep::Diff { level, unit } = plan.step {
        lemma_next_deploy(actions, level as int, unit + 1);
        match next_deploy(actions, level as int, unit + 1) {
            Some((l, u)) => {
                assert(actions[l].len() <= usize::MAX);
            },
            None => {},
        }
    }
}

/// The first difference shown is that of the first unit to deploy; a batch
/// without a unit to deploy shows none.
pub proof fn law_first_difference(actions: Seq<Seq<HelmAction>>, dry_run: bool)
    ensures
        match next_deploy(actions, 0, 0) {
            Some((l, u)) => is_place(actions, l, u) && actions[l][u] == HelmAction::Deploy
                && forall|a: int, b: int|
                #![trigger actions[a][b]]
                is_place(actions, a, b) && !at_or_behind(a, b, l, u) ==> actions[a][b]
                    != HelmAction::Deploy,
            None => !(plan_start_spec(actions, dry_run).step is Diff) && forall|a: int, b: int|
                #![trigger actions[a][b]]
                is_place(actions, a, b) ==> actions[a][b] != HelmAction::Deploy,
        },
{
    lemma_next_deploy(actions, 0, 0);
}

/// A dry run shows the differences and applies nothing, whatever is
/// reported, and it ends without a failure.
pub proof fn law_dry_run_applies_nothing(
    actions: Seq<Seq<HelmAction>>,
    reports: Seq<Option<SimpleErrorView>>,
)
    ensures
        !(plan_after(actions, true, reports).step is Apply),
        plan_after(actions, true, reports).failure is None,
    decreases reports.len(),
{
    if reports.len() > 0 {
        law_dry_run_applies_nothing(actions, reports.drop_last());
    }
}

/// The failure of a level ends the batch with that failure: no level
/// behind it is asked for.
pub proof fn law_level_failure_ends_the_batch(
    actions: Seq<Seq<HelmAction>>,
    dry_run: bool,
    plan: PlanView,
    failure: SimpleErrorView,
)
    requires
        plan.step is Apply,
    ensures
        plan_advance_spec(actions, dry_run, plan, Some(failure)).outcome() == Some(
            Err::<(), SimpleErrorView>(failure),
        ),
{
}

/// The failure of a difference is of no account: the batch goes on as
/// after a difference that succeeded.
pub proof fn law_difference_failure_is_ignored(
    actions: Seq<Seq<HelmAction>>,
    dry_run: bool,
    plan: PlanView,
    failure: SimpleErrorView,
)
    requires
        plan.step is Diff,
    ensures
        plan_advance_spec(actions, dry_run, plan, Some(failure)) == plan_advance_spec(
            actions,
            dry_run,
            plan,
            None,
        ),
        plan_advance_spec(actions, dry_run, plan, Some(failure)).failure == plan.failure,
{
}

} // verus!
