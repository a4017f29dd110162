//! What holds of every run of a chart unit, whatever the replies.

use crate::cloud_provider::chart_request::{request_spec, ChartRequestView};
use crate::cloud_provider::chart_run::{
    advance_spec, enter_exec, enter_post_exec, run_after, start_spec, ChartReplyView,
    ChartRunView, ChartStep,
};
use crate::cloud_provider::helm::{version_precedes, ChartInfoView, ChartKind, HelmAction};
use vstd::prelude::*;

verus! {

/// Whether a pending request removes a release or what it left behind.
pub open spec fn removes_release(step: ChartStep) -> bool {
    step is DestroyBeforeUpgrade || step is Uninstall || step is DeleteCrd
}

/// The execute phase asks for nothing where the action is to skip, and
/// leaves the run as it is: the run is at once where post-execute begins,
/// with the same payload.
pub proof fn law_skip_passes_through(kind: ChartKind, chart: ChartInfoView, run: ChartRunView)
    requires
        chart.action == HelmAction::Skip,
    ensures
        enter_exec(kind, chart, run) == enter_post_exec(kind, run),
        enter_exec(kind, chart, run).payload == run.payload,
        kind != ChartKind::CoreDnsConfig ==> enter_exec(kind, chart, run) == run.at(
            ChartStep::Finished,
        ),
{
}

/// A skipped unit never touches what is live: whatever its kind and
/// whatever is replied, its run is finished from the start, asks for
/// nothing, and ends in success without a payload.
pub proof fn law_skipped_unit_asks_for_nothing(
    kind: ChartKind,
    chart: ChartInfoView,
    replies: Seq<ChartReplyView>,
)
    requires
        chart.action == HelmAction::Skip,
    ensures
        run_after(kind, chart, start_spec(chart), replies) == start_spec(chart),
        start_spec(chart).step is Finished,
        request_spec(chart, run_after(kind, chart, start_spec(chart), replies).step) is None,
        run_after(kind, chart, start_spec(chart), replies).outcome() == Some(
            Ok::<Option<Map<Seq<char>, Seq<char>>>, crate::error::SimpleErrorView>(None),
        ),
    decreases replies.len(),
{
    if replies.len() > 0 {
        law_skipped_unit_asks_for_nothing(kind, chart, replies.drop_last());
    }
}

/// Every run that belongs to a skipped unit is finished: there is no
/// request that could be made for it.
pub proof fn law_skipped_unit_has_no_request(chart: ChartInfoView, run: ChartRunView)
    requires
        chart.action == HelmAction::Skip,
        run.wf(chart),
    ensures
        request_spec(chart, run.step) is None,
{
}

/// Where the release of a unit to destroy is not deployed, nothing is
/// uninstalled: the run goes on to post-execute, and a plain or monitoring
/// unit ends there without a failure.
pub proof fn law_absent_release_is_not_uninstalled(
    kind: ChartKind,
    chart: ChartInfoView,
    run: ChartRunView,
)
    requires
        run.step is ReadDeployed,
    ensures
        advance_spec(kind, chart, run, ChartReplyView::Deployed(false)) == enter_post_exec(
            kind,
            run,
        ),
        !removes_release(advance_spec(kind, chart, run, ChartReplyView::Deployed(false)).step),
        kind != ChartKind::CoreDnsConfig && run.failure is None ==> advance_spec(
            kind,
            chart,
            run,
            ChartReplyView::Deployed(false),
        ).outcome() == Some(
            Ok::<Option<Map<Seq<char>, Seq<char>>>, crate::error::SimpleErrorView>(run.payload),
        ),
{
}

/// A run of a unit to destroy never waits for an uninstall, nor for what
/// follows one, as long as no reply says that the release is deployed.
pub proof fn law_destroy_without_release_never_uninstalls(
    kind: ChartKind,
    chart: ChartInfoView,
    replies: Seq<ChartReplyView>,
)
    requires
        chart.action == HelmAction::Destroy,
        forall|i: int| 0 <= i < replies.len() ==> replies[i] != ChartReplyView::Deployed(true),
    ensures
        !removes_release(run_after(kind, chart, start_spec(chart), replies).step),
        !(run_after(kind, chart, start_spec(chart), replies).step is Upgrade),
        !(run_after(kind, chart, start_spec(chart), replies).step is ReadInstalledVersion),
    decreases replies.len(),
{
    if replies.len() > 0 {
        let head = replies.drop_last();
        assert forall|i: int| 0 <= i < head.len() implies head[i] != ChartReplyView::Deployed(
            true,
        ) by {
            assert(head[i] == replies[i]);
        }
        law_destroy_without_release_never_uninstalls(kind, chart, head);
    }
}

/// Where the live release is older than the unit's marker, a deploy asks
/// for the release to be uninstalled before it asks for the upgrade, and it
/// asks for the upgrade whatever became of the uninstall.
pub proof fn law_breaking_change_destroys_before_upgrade(
    kind: ChartKind,
    chart: ChartInfoView,
    run: ChartRunView,
    installed: semver::Version,
    destroyed: ChartReplyView,
)
    requires
        run.step is ReadInstalledVersion,
        chart.last_breaking_version_requiring_restart is Some,
        version_precedes(installed, chart.last_breaking_version_requiring_restart->0),
    ensures
        ({
            let first = advance_spec(
                kind,
                chart,
                run,
                ChartReplyView::InstalledVersion(Some(installed)),
            );
            let second = advance_spec(kind, chart, first, destroyed);
            &&& first.step == ChartStep::DestroyBeforeUpgrade
            &&& request_spec(chart, first.step) == Some(ChartRequestView::Uninstall)
            &&& second.step == ChartStep::Upgrade
            &&& request_spec(chart, second.step) == Some(ChartRequestView::Upgrade)
            &&& second.failure == run.failure
        }),
{
}

/// A deploy reaches the upgrade from the entry of the execute phase
/// whatever is replied on the way: nothing there can end the run.
pub proof fn law_deploy_always_attempts_the_upgrade(
    kind: ChartKind,
    chart: ChartInfoView,
    run: ChartRunView,
    first: ChartReplyView,
    second: ChartReplyView,
)
    requires
        chart.action == HelmAction::Deploy,
    ensures
        ({
            let entered = enter_exec(kind, chart, run);
            let a = advance_spec(kind, chart, entered, first);
            let b = advance_spec(kind, chart, a, second);
            entered.step is Upgrade || a.step is Upgrade || b.step is Upgrade
        }),
{
}

/// A failed execute starts the failure hook. The run then ends with the
/// failure of the hook where the hook fails, else with the failure of the
/// execute phase.
pub proof fn law_failure_hook_reports_the_last_failure(
    kind: ChartKind,
    chart: ChartInfoView,
    run: ChartRunView,
    failure: crate::error::SimpleErrorView,
    hook: ChartReplyView,
)
    requires
        run.step is Upgrade || run.step is ReadDeployed || run.step is Uninstall
            || run.step is DeleteCrd,
    ensures
        ({
            let failed = advance_spec(kind, chart, run, ChartReplyView::Failed(failure));
            let ended = advance_spec(kind, chart, failed, hook);
            &&& failed.step == ChartStep::CollectEvents
            &&& ended.outcome() == Some(
                Err::<Option<Map<Seq<char>, Seq<char>>>, crate::error::SimpleErrorView>(
                    match hook {
                        ChartReplyView::Failed(d) => d,
                        _ => failure,
                    },
                ),
            )
        }),
{
}

/// A failure of the prerequisites or of pre-execute ends the run at once:
/// the execute phase is not attempted.
pub proof fn law_early_failure_ends_the_run(
    kind: ChartKind,
    chart: ChartInfoView,
    run: ChartRunView,
    failure: crate::error::SimpleErrorView,
)
    requires
        run.step is CheckValuesFile || run.step is CleanCrashLoopingPods
            || run.step is ReadConfigBefore || run.step is AnnotateReleaseName
            || run.step is AnnotateReleaseNamespace || run.step is LabelManagedBy,
    ensures
        advance_spec(kind, chart, run, ChartReplyView::Failed(failure)).step is Finished,
        advance_spec(kind, chart, run, ChartReplyView::Failed(failure)).failure is Some,
        !(run.step is CheckValuesFile) ==> advance_spec(
            kind,
            chart,
            run,
            ChartReplyView::Failed(failure),
        ).failure == Some(failure),
{
}

/// A deploy of a plain or monitoring unit has no failure as long as no
/// request of it failed: run twice with the same replies, it succeeds twice.
pub proof fn law_deploy_succeeds_when_every_request_succeeds(
    kind: ChartKind,
    chart: ChartInfoView,
    replies: Seq<ChartReplyView>,
)
    requires
        chart.action == HelmAction::Deploy,
        kind != ChartKind::CoreDnsConfig,
        forall|i: int| 0 <= i < replies.len() ==> !(#[trigger] replies[i] is Failed),
    ensures
        run_after(kind, chart, start_spec(chart), replies).failure is None,
        !(run_after(kind, chart, start_spec(chart), replies).step is ReadDeployed),
        !(run_after(kind, chart, start_spec(chart), replies).step is CollectEvents),
    decreases replies.len(),
{
    if replies.len() > 0 {
        let head = replies.drop_last();
        assert forall|i: int| 0 <= i < head.len() implies !(#[trigger] head[i] is Failed) by {
            assert(head[i] == replies[i]);
        }
        law_deploy_succeeds_when_every_request_succeeds(kind, chart, head);
        assert(!(replies.last() is Failed)) by {
            assert(replies.last() == replies[replies.len() - 1]);
        }
    }
}

/// Once a run is finished, further replies change nothing.
pub proof fn law_finished_run_stays(
    kind: ChartKind,
    chart: ChartInfoView,
    run: ChartRunView,
    replies: Seq<ChartReplyView>,
)
    requires
        run.step is Finished,
    ensures
        run_after(kind, chart, run, replies) == run,
    decreases replies.len(),
{
    if replies.len() > 0 {
        law_finished_run_stays(kind, chart, run, replies.drop_last());
    }
}

/// Whether a pending request is one that only the DNS unit makes.
pub open spec fn dns_only(step: ChartStep) -> bool {
    step is ReadConfigBefore || step is AnnotateReleaseName || step is AnnotateReleaseNamespace
        || step is LabelManagedBy || step is ReadConfigAfter || step is RolloutRestart
}

/// The payload of a plain or monitoring unit is handed from phase to phase
/// as it is: no reply changes it, and the run never makes a request of the
/// DNS unit.
pub proof fn law_payload_is_handed_on(
    kind: ChartKind,
    chart: ChartInfoView,
    run: ChartRunView,
    reply: ChartReplyView,
)
    requires
        kind != ChartKind::CoreDnsConfig,
        !dns_only(run.step),
    ensures
        advance_spec(kind, chart, run, reply).payload == run.payload,
        !dns_only(advance_spec(kind, chart, run, reply).step),
{
}

/// How many requests a run can still make at most, from what it waits for.
pub open spec fn requests_left(chart: ChartInfoView, step: ChartStep) -> nat {
    match step {
        ChartStep::CheckValuesFile(i) => (chart.values_files.len() - i + 20) as nat,
        ChartStep::CleanCrashLoopingPods => 19,
        ChartStep::ReadConfigBefore => 18,
        ChartStep::AnnotateReleaseName => 17,
        ChartStep::AnnotateReleaseNamespace => 16,
        ChartStep::LabelManagedBy => 15,
        ChartStep::ReadInstalledVersion => 14,
        ChartStep::DestroyBeforeUpgrade => 13,
        ChartStep::Upgrade => 12,
        ChartStep::ReadDeployed => 11,
        ChartStep::Uninstall => 10,
        ChartStep::DeleteCrd(i) => (9 - i) as nat,
        ChartStep::ReadConfigAfter => 3,
        ChartStep::RolloutRestart => 2,
        ChartStep::CollectEvents => 1,
        ChartStep::Finished => 0,
    }
}

/// Every reply brings a run nearer to its end: a run makes no more
/// requests than its unit has values files and twenty more, whatever the
/// replies, and nothing is ever tried again.
pub proof fn law_every_reply_brings_the_end_nearer(
    kind: ChartKind,
    chart: ChartInfoView,
    run: ChartRunView,
    reply: ChartReplyView,
)
    requires
        !(run.step is Finished),
        run.wf(chart),
        chart.values_files.len() <= usize::MAX,
    ensures
        requests_left(chart, advance_spec(kind, chart, run, reply).step) < requests_left(
            chart,
            run.step,
        ),
{
}

/// A run has finished once it has had as many replies as it could make
/// requests.
pub proof fn law_run_finishes(
    kind: ChartKind,
    chart: ChartInfoView,
    replies: Seq<ChartReplyView>,
)
    requires
        chart.values_files.len() <= usize::MAX,
    ensures
        run_after(kind, chart, start_spec(chart), replies).wf(chart),
        requests_left(chart, run_after(kind, chart, start_spec(chart), replies).step)
            + replies.len() <= chart.values_files.len() + 20 || run_after(
            kind,
            chart,
            start_spec(chart),
            replies,
        ).step is Finished,
        replies.len() >= chart.values_files.len() + 20 ==> run_after(
            kind,
            chart,
            start_spec(chart),
            replies,
        ).step is Finished,
    decreases replies.len(),
{
    if replies.len() > 0 {
        let before = run_after(kind, chart, start_spec(chart), replies.drop_last());
        law_run_finishes(kind, chart, replies.drop_last());
        crate::cloud_provider::chart_run::lemma_advance_keeps_wf(
            kind,
            chart,
            before,
            replies.last(),
        );
        if !(before.step is Finished) {
            law_every_reply_brings_the_end_nearer(kind, chart, before, replies.last());
        }
    }
}

} // verus!
