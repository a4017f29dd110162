use qovery_engine::cloud_provider::chart_request::{request, ChartRequest};
use qovery_engine::cloud_provider::chart_run::{
    advance, phase, replay, start, ChartPhase, ChartReply, ChartRun, ChartStep,
};
use qovery_engine::cloud_provider::helm::{
    ChartInfo, ChartKind, ChartPayload, CommonChart, CoreDNSConfigChart, HelmAction, HelmChart,
    HelmChartNamespaces, PrometheusOperatorConfigChart,
};
use qovery_engine::error::{SimpleError, SimpleErrorKind};
use qovery_engine::utilities::calculate_hash;

fn chart(action: HelmAction) -> ChartInfo {
    ChartInfo { name: "my-chart".to_string(), action, ..ChartInfo::default() }
}

fn failure(message: &str) -> SimpleError {
    SimpleError { kind: SimpleErrorKind::Command, message: Some(message.to_string()) }
}

/// Runs a unit against scripted replies and returns the steps it waited
/// for, in order, and the run at the end.
fn drive(kind: ChartKind, chart: &ChartInfo, replies: Vec<ChartReply>) -> (Vec<ChartStep>, ChartRun) {
    let mut run = start(chart);
    let mut steps = vec![];
    for reply in replies {
        if run.is_finished() {
            break;
        }
        steps.push(run.step);
        assert!(request(chart, &run).is_some());
        run = advance(kind, chart, run, reply);
    }
    (steps, run)
}

fn outcome(run: ChartRun) -> Result<Option<ChartPayload>, SimpleError> {
    assert!(run.is_finished());
    assert!(request(&ChartInfo::default(), &run).is_none());
    run.into_outcome().unwrap()
}

#[test]
fn skip_makes_no_external_call() {
    for kind in [ChartKind::Common, ChartKind::CoreDnsConfig, ChartKind::PrometheusOperatorConfig] {
        let mut chart = chart(HelmAction::Skip);
        let run = start(&chart);
        assert!(run.is_finished());
        assert!(request(&chart, &run).is_none());
        assert!(outcome(run).unwrap().is_none());

        chart.values_files = vec!["a.yaml".to_string(), "b.yaml".to_string()];
        let (steps, run) = drive(kind, &chart, vec![ChartReply::Done, ChartReply::Done]);
        assert!(steps.is_empty());
        assert!(request(&chart, &run).is_none());
        assert!(outcome(run).unwrap().is_none());
    }
}

#[test]
fn destroy_of_absent_release_does_not_uninstall() {
    let chart = chart(HelmAction::Destroy);
    let (steps, run) =
        drive(ChartKind::Common, &chart, vec![ChartReply::Done, ChartReply::Deployed(false)]);
    assert_eq!(steps, vec![ChartStep::CleanCrashLoopingPods, ChartStep::ReadDeployed]);
    assert!(outcome(run).is_ok());
}

#[test]
fn destroy_of_deployed_release_uninstalls() {
    let chart = chart(HelmAction::Destroy);
    let (steps, run) = drive(
        ChartKind::Common,
        &chart,
        vec![ChartReply::Done, ChartReply::Deployed(true), ChartReply::Done],
    );
    assert_eq!(
        steps,
        vec![ChartStep::CleanCrashLoopingPods, ChartStep::ReadDeployed, ChartStep::Uninstall]
    );
    assert!(outcome(run).is_ok());
}

#[test]
fn deploy_upgrades() {
    let chart = chart(HelmAction::Deploy);
    let (steps, run) = drive(ChartKind::Common, &chart, vec![ChartReply::Done, ChartReply::Done]);
    assert_eq!(steps, vec![ChartStep::CleanCrashLoopingPods, ChartStep::Upgrade]);
    assert!(outcome(run).unwrap().is_none());
}

#[test]
fn deploy_twice_succeeds_twice() {
    let chart = chart(HelmAction::Deploy);
    for _ in 0..2 {
        let (steps, run) =
            drive(ChartKind::Common, &chart, vec![ChartReply::Done, ChartReply::Done]);
        assert_eq!(steps, vec![ChartStep::CleanCrashLoopingPods, ChartStep::Upgrade]);
        assert!(outcome(run).is_ok());
    }
}

#[test]
fn breaking_change_destroys_before_upgrade() {
    let mut chart = chart(HelmAction::Deploy);
    chart.last_breaking_version_requiring_restart = Some(semver::Version::new(2, 0, 0));
    let (steps, run) = drive(
        ChartKind::Common,
        &chart,
        vec![
            ChartReply::Done,
            ChartReply::InstalledVersion(Some(semver::Version::new(1, 9, 3))),
            ChartReply::Failed(failure("uninstall failed")),
            ChartReply::Done,
        ],
    );
    assert_eq!(
        steps,
        vec![
            ChartStep::CleanCrashLoopingPods,
            ChartStep::ReadInstalledVersion,
            ChartStep::DestroyBeforeUpgrade,
            ChartStep::Upgrade
        ]
    );
    assert!(outcome(run).is_ok());
}

#[test]
fn no_destroy_when_installed_version_is_not_older() {
    for installed in [Some(semver::Version::new(2, 0, 0)), Some(semver::Version::new(2, 1, 0)), None] {
        let mut chart = chart(HelmAction::Deploy);
        chart.last_breaking_version_requiring_restart = Some(semver::Version::new(2, 0, 0));
        let (steps, run) = drive(
            ChartKind::Common,
            &chart,
            vec![ChartReply::Done, ChartReply::InstalledVersion(installed), ChartReply::Done],
        );
        assert_eq!(
            steps,
            vec![
                ChartStep::CleanCrashLoopingPods,
                ChartStep::ReadInstalledVersion,
                ChartStep::Upgrade
            ]
        );
        assert!(outcome(run).is_ok());
    }
}

#[test]
fn prerelease_is_older_than_its_release() {
    let mut chart = chart(HelmAction::Deploy);
    chart.last_breaking_version_requiring_restart = Some(semver::Version::new(2, 0, 0));
    let (steps, _) = drive(
        ChartKind::Common,
        &chart,
        vec![
            ChartReply::Done,
            ChartReply::InstalledVersion(Some(semver::Version::parse("2.0.0-rc.1").unwrap())),
        ],
    );
    assert_eq!(steps, vec![ChartStep::CleanCrashLoopingPods, ChartStep::ReadInstalledVersion]);
    let mut run = start(&chart);
    run = advance(ChartKind::Common, &chart, run, ChartReply::Done);
    run = advance(
        ChartKind::Common,
        &chart,
        run,
        ChartReply::InstalledVersion(Some(semver::Version::parse("2.0.0-rc.1").unwrap())),
    );
    assert_eq!(run.step, ChartStep::DestroyBeforeUpgrade);
}

#[test]
fn failed_version_lookup_does_not_stop_the_upgrade() {
    let mut chart = chart(HelmAction::Deploy);
    chart.last_breaking_version_requiring_restart = Some(semver::Version::new(2, 0, 0));
    let (steps, run) = drive(
        ChartKind::Common,
        &chart,
        vec![ChartReply::Done, ChartReply::Failed(failure("helm list failed")), ChartReply::Done],
    );
    assert_eq!(
        steps,
        vec![ChartStep::CleanCrashLoopingPods, ChartStep::ReadInstalledVersion, ChartStep::Upgrade]
    );
    assert!(outcome(run).is_ok());
}

#[test]
fn missing_values_file_names_file_and_chart() {
    let mut chart = chart(HelmAction::Deploy);
    chart.values_files = vec!["ok.yaml".to_string(), "missing.yaml".to_string()];
    let (steps, run) = drive(
        ChartKind::Common,
        &chart,
        vec![
            ChartReply::Done,
            ChartReply::Failed(SimpleError {
                kind: SimpleErrorKind::Other,
                message: Some("Os { code: 2, kind: NotFound }".to_string()),
            }),
            ChartReply::Done,
        ],
    );
    assert_eq!(steps, vec![ChartStep::CheckValuesFile(0), ChartStep::CheckValuesFile(1)]);
    let err = outcome(run).unwrap_err();
    assert_eq!(err.kind, SimpleErrorKind::Other);
    assert_eq!(
        err.message.unwrap(),
        "Can't access helm chart override file missing.yaml for chart my-chart. Os { code: 2, kind: NotFound }"
    );
}

#[test]
fn pre_exec_failure_aborts_without_execute() {
    let chart = chart(HelmAction::Deploy);
    let (steps, run) = drive(
        ChartKind::Common,
        &chart,
        vec![ChartReply::Failed(failure("kubectl failed")), ChartReply::Done],
    );
    assert_eq!(steps, vec![ChartStep::CleanCrashLoopingPods]);
    let err = outcome(run).unwrap_err();
    assert_eq!(err.kind, SimpleErrorKind::Command);
    assert_eq!(err.message.unwrap(), "kubectl failed");
}

#[test]
fn failed_upgrade_collects_events_and_keeps_its_error() {
    let chart = chart(HelmAction::Deploy);
    let (steps, run) = drive(
        ChartKind::Common,
        &chart,
        vec![ChartReply::Done, ChartReply::Failed(failure("upgrade failed")), ChartReply::Done],
    );
    assert_eq!(
        steps,
        vec![ChartStep::CleanCrashLoopingPods, ChartStep::Upgrade, ChartStep::CollectEvents]
    );
    assert_eq!(outcome(run).unwrap_err().message.unwrap(), "upgrade failed");
}

#[test]
fn failed_diagnostics_replace_the_error() {
    let chart = chart(HelmAction::Deploy);
    let (_, run) = drive(
        ChartKind::Common,
        &chart,
        vec![
            ChartReply::Done,
            ChartReply::Failed(failure("upgrade failed")),
            ChartReply::Failed(failure("events failed")),
        ],
    );
    assert_eq!(outcome(run).unwrap_err().message.unwrap(), "events failed");
}

#[test]
fn failed_is_deployed_runs_the_failure_hook() {
    let chart = chart(HelmAction::Destroy);
    let (steps, run) = drive(
        ChartKind::Common,
        &chart,
        vec![ChartReply::Done, ChartReply::Failed(failure("list failed")), ChartReply::Done],
    );
    assert_eq!(
        steps,
        vec![ChartStep::CleanCrashLoopingPods, ChartStep::ReadDeployed, ChartStep::CollectEvents]
    );
    assert_eq!(outcome(run).unwrap_err().message.unwrap(), "list failed");
}

#[test]
fn malformed_reply_is_a_failure() {
    let chart = chart(HelmAction::Destroy);
    let (_, run) = drive(
        ChartKind::Common,
        &chart,
        vec![ChartReply::Done, ChartReply::Done, ChartReply::Done],
    );
    assert_eq!(
        outcome(run).unwrap_err().message.unwrap(),
        "malformed reply to the pending request"
    );
}

#[test]
fn prometheus_destroy_deletes_the_definitions() {
    let chart = chart(HelmAction::Destroy);
    let mut replies = vec![ChartReply::Done, ChartReply::Deployed(true), ChartReply::Done];
    for _ in 0..6 {
        replies.push(ChartReply::Done);
    }
    let mut run = start(&chart);
    let mut crds = vec![];
    for reply in replies {
        if let Some(ChartRequest::DeleteCrd { crd }) = request(&chart, &run) {
            crds.push(crd);
        }
        run = advance(ChartKind::PrometheusOperatorConfig, &chart, run, reply);
    }
    assert_eq!(
        crds,
        vec![
            "prometheuses.monitoring.coreos.com",
            "prometheusrules.monitoring.coreos.com",
            "servicemonitors.monitoring.coreos.com",
            "podmonitors.monitoring.coreos.com",
            "alertmanagers.monitoring.coreos.com",
            "thanosrulers.monitoring.coreos.com",
        ]
    );
    assert!(outcome(run).is_ok());
}

#[test]
fn prometheus_failed_crd_delete_stops_and_collects_events() {
    let chart = chart(HelmAction::Destroy);
    let (steps, run) = drive(
        ChartKind::PrometheusOperatorConfig,
        &chart,
        vec![
            ChartReply::Done,
            ChartReply::Deployed(true),
            ChartReply::Done,
            ChartReply::Done,
            ChartReply::Failed(failure("crd failed")),
            ChartReply::Done,
        ],
    );
    assert_eq!(
        steps,
        vec![
            ChartStep::CleanCrashLoopingPods,
            ChartStep::ReadDeployed,
            ChartStep::Uninstall,
            ChartStep::DeleteCrd(0),
            ChartStep::DeleteCrd(1),
            ChartStep::CollectEvents,
        ]
    );
    assert_eq!(outcome(run).unwrap_err().message.unwrap(), "crd failed");
}

#[test]
fn prometheus_destroy_of_absent_release_deletes_nothing() {
    let chart = chart(HelmAction::Destroy);
    let (steps, run) = drive(
        ChartKind::PrometheusOperatorConfig,
        &chart,
        vec![ChartReply::Done, ChartReply::Deployed(false), ChartReply::Done],
    );
    assert_eq!(steps, vec![ChartStep::CleanCrashLoopingPods, ChartStep::ReadDeployed]);
    assert!(outcome(run).is_ok());
}

fn coredns_replies_until_upgrade(corefile: &str) -> Vec<ChartReply> {
    vec![
        ChartReply::Done,
        ChartReply::CoreFile(Some(corefile.to_string())),
        ChartReply::Done,
        ChartReply::Done,
        ChartReply::Done,
        ChartReply::Done,
    ]
}

#[test]
fn coredns_unchanged_configuration_does_not_restart() {
    let chart = chart(HelmAction::Deploy);
    let mut replies = coredns_replies_until_upgrade(".:53 { forward . 8.8.8.8 }");
    replies.push(ChartReply::CoreFile(Some(".:53 { forward . 8.8.8.8 }".to_string())));
    replies.push(ChartReply::Done);
    let (steps, run) = drive(ChartKind::CoreDnsConfig, &chart, replies);
    assert_eq!(
        steps,
        vec![
            ChartStep::CleanCrashLoopingPods,
            ChartStep::ReadConfigBefore,
            ChartStep::AnnotateReleaseName,
            ChartStep::AnnotateReleaseNamespace,
            ChartStep::LabelManagedBy,
            ChartStep::Upgrade,
            ChartStep::ReadConfigAfter,
        ]
    );
    assert!(outcome(run).unwrap().is_none());
}

#[test]
fn coredns_changed_configuration_restarts() {
    let chart = chart(HelmAction::Deploy);
    let mut replies = coredns_replies_until_upgrade("before");
    replies.push(ChartReply::CoreFile(Some("after".to_string())));
    replies.push(ChartReply::Done);
    let (steps, run) = drive(ChartKind::CoreDnsConfig, &chart, replies);
    assert_eq!(steps.last(), Some(&ChartStep::RolloutRestart));
    assert!(outcome(run).unwrap().is_none());
}

#[test]
fn coredns_payload_holds_the_checksum() {
    let chart = chart(HelmAction::Deploy);
    let mut run = start(&chart);
    run = advance(ChartKind::CoreDnsConfig, &chart, run, ChartReply::Done);
    run = advance(
        ChartKind::CoreDnsConfig,
        &chart,
        run,
        ChartReply::CoreFile(Some("corefile".to_string())),
    );
    assert_eq!(run.step, ChartStep::AnnotateReleaseName);
    let payload = run.payload.as_ref().unwrap();
    assert_eq!(
        payload.get("checksum").unwrap(),
        &calculate_hash("corefile").to_string()
    );
}

#[test]
fn coredns_without_corefile_fails_in_pre_exec() {
    let chart = chart(HelmAction::Deploy);
    let (steps, run) = drive(
        ChartKind::CoreDnsConfig,
        &chart,
        vec![ChartReply::Done, ChartReply::CoreFile(None), ChartReply::Done],
    );
    assert_eq!(steps, vec![ChartStep::CleanCrashLoopingPods, ChartStep::ReadConfigBefore]);
    assert_eq!(
        outcome(run).unwrap_err().message.unwrap(),
        "Corefile data structure is not found in CoreDNS configmap"
    );
}

#[test]
fn coredns_post_exec_needs_payload_and_checksum() {
    let chart = chart(HelmAction::Deploy);
    let run = ChartRun { step: ChartStep::Upgrade, payload: None, failure: None };
    let run = advance(ChartKind::CoreDnsConfig, &chart, run, ChartReply::Done);
    assert_eq!(
        outcome(run).unwrap_err().message.unwrap(),
        "missing payload, can't check coredns update"
    );
    let run = ChartRun { step: ChartStep::Upgrade, payload: Some(ChartPayload::new()), failure: None };
    let run = advance(ChartKind::CoreDnsConfig, &chart, run, ChartReply::Done);
    assert_eq!(
        outcome(run).unwrap_err().message.unwrap(),
        "missing configmap checksum, can't check coredns diff"
    );
}

#[test]
fn coredns_failed_restart_fails_the_run() {
    let chart = chart(HelmAction::Deploy);
    let mut replies = coredns_replies_until_upgrade("before");
    replies.push(ChartReply::CoreFile(Some("after".to_string())));
    replies.push(ChartReply::Failed(failure("restart failed")));
    let (_, run) = drive(ChartKind::CoreDnsConfig, &chart, replies);
    assert_eq!(outcome(run).unwrap_err().message.unwrap(), "restart failed");
}

#[test]
fn requests_are_written_out() {
    let mut chart = ChartInfo::new_from_custom_namespace(
        "CoreDNS".to_string(),
        "/charts/coredns".to_string(),
        "dns".to_string(),
        180,
        vec!["values.yaml".to_string()],
        true,
    );
    chart.action = HelmAction::Deploy;
    chart.last_breaking_version_requiring_restart = Some(semver::Version::new(1, 0, 0));
    let at = |step: ChartStep| {
        let mut payload = ChartPayload::new();
        payload.insert("checksum".to_string(), "1".to_string());
        let run = ChartRun {
            step,
            payload: Some(payload),
            failure: Some(failure("x")),
        };
        format!("{:?}", request(&chart, &run).unwrap())
    };
    assert_eq!(at(ChartStep::CheckValuesFile(0)), r#"CheckFile { file: "values.yaml" }"#);
    assert_eq!(
        at(ChartStep::CleanCrashLoopingPods),
        r#"DeleteCrashLoopingPods { namespace: "dns", selector: "app=coredns" }"#
    );
    assert_eq!(
        at(ChartStep::ReadConfigBefore),
        r#"GetConfigMap { namespace: "dns", name: "CoreDNS" }"#
    );
    assert_eq!(at(ChartStep::ReadConfigAfter), at(ChartStep::ReadConfigBefore));
    assert_eq!(
        at(ChartStep::AnnotateReleaseName),
        r#"Kubectl { args: ["-n", "kube-system", "annotate", "--overwrite", "configmap", "CoreDNS", "meta.helm.sh/release-name=CoreDNS"] }"#
    );
    assert_eq!(
        at(ChartStep::AnnotateReleaseNamespace),
        r#"Kubectl { args: ["-n", "kube-system", "annotate", "--overwrite", "configmap", "CoreDNS", "meta.helm.sh/release-namespace=kube-system"] }"#
    );
    assert_eq!(
        at(ChartStep::LabelManagedBy),
        r#"Kubectl { args: ["-n", "kube-system", "label", "--overwrite", "configmap", "CoreDNS", "app.kubernetes.io/managed-by=Helm"] }"#
    );
    assert_eq!(
        at(ChartStep::ReadInstalledVersion),
        r#"GetInstalledVersion { namespace: "dns", name: "CoreDNS" }"#
    );
    assert_eq!(at(ChartStep::DestroyBeforeUpgrade), "Uninstall");
    assert_eq!(at(ChartStep::Uninstall), "Uninstall");
    assert_eq!(at(ChartStep::Upgrade), "Upgrade");
    assert_eq!(
        at(ChartStep::ReadDeployed),
        r#"IsDeployed { namespace: "dns", name: "CoreDNS" }"#
    );
    assert_eq!(
        at(ChartStep::DeleteCrd(5)),
        r#"DeleteCrd { crd: "thanosrulers.monitoring.coreos.com" }"#
    );
    assert_eq!(at(ChartStep::CollectEvents), r#"GetEvents { namespace: "dns" }"#);
    assert_eq!(
        at(ChartStep::RolloutRestart),
        r#"RolloutRestart { name: "CoreDNS", namespace: "dns" }"#
    );
}

#[test]
fn charts_know_their_kind() {
    let common = CommonChart::default();
    assert_eq!(common.kind(), ChartKind::Common);
    assert_eq!(common.namespace(), "kube-system");
    assert_eq!(common.get_chart_info().name, "undefined");
    assert_eq!(CoreDNSConfigChart::default().kind(), ChartKind::CoreDnsConfig);
    assert_eq!(
        PrometheusOperatorConfigChart::default().kind(),
        ChartKind::PrometheusOperatorConfig
    );
    let custom = CommonChart {
        chart_info: ChartInfo {
            namespace: HelmChartNamespaces::Custom,
            custom_namespace: Some("mine".to_string()),
            ..ChartInfo::default()
        },
    };
    assert_eq!(custom.namespace(), "mine");
}

#[test]
fn finished_run_ignores_replies() {
    let chart = chart(HelmAction::Deploy);
    let mut run = start(&chart);
    run = advance(ChartKind::Common, &chart, run, ChartReply::Done);
    run = advance(ChartKind::Common, &chart, run, ChartReply::Done);
    assert!(run.is_finished());
    run = advance(ChartKind::Common, &chart, run, ChartReply::Failed(failure("late")));
    assert!(outcome(run).is_ok());
    let skipped = self::chart(HelmAction::Skip);
    let run = advance(
        ChartKind::Common,
        &skipped,
        start(&skipped),
        ChartReply::Failed(failure("late")),
    );
    assert!(outcome(run).is_ok());
}

#[test]
fn unfinished_run_has_no_outcome() {
    let chart = chart(HelmAction::Deploy);
    let run = start(&chart);
    assert!(!run.is_finished());
    assert!(run.into_outcome().is_none());
}

#[test]
fn replay_is_advancing_reply_by_reply() {
    let chart = chart(HelmAction::Destroy);
    let replies = || {
        vec![
            ChartReply::Done,
            ChartReply::Deployed(true),
            ChartReply::Failed(failure("uninstall failed")),
            ChartReply::Failed(failure("events failed")),
            ChartReply::Done,
        ]
    };
    let replayed = replay(ChartKind::Common, &chart, replies());
    let (_, driven) = drive(ChartKind::Common, &chart, replies());
    assert_eq!(replayed.step, driven.step);
    assert_eq!(outcome(replayed).unwrap_err().message.unwrap(), "events failed");
    assert_eq!(outcome(driven).unwrap_err().message.unwrap(), "events failed");
    let fresh = replay(ChartKind::Common, &chart, vec![]);
    assert_eq!(fresh.step, ChartStep::CleanCrashLoopingPods);
}

#[test]
fn skipped_unit_is_never_executed_whatever_the_replies() {
    let mut chart = chart(HelmAction::Skip);
    chart.values_files = vec!["a.yaml".to_string()];
    let scripts: Vec<Vec<ChartReply>> = vec![
        vec![ChartReply::Deployed(true), ChartReply::Deployed(true), ChartReply::Done],
        vec![ChartReply::Done, ChartReply::InstalledVersion(None)],
        vec![ChartReply::CoreFile(None), ChartReply::CoreFile(Some("x".to_string()))],
    ];
    for kind in [ChartKind::Common, ChartKind::CoreDnsConfig, ChartKind::PrometheusOperatorConfig] {
        for script in &scripts {
            let mut run = start(&chart);
            for reply in script {
                let reply = match reply {
                    ChartReply::Done => ChartReply::Done,
                    ChartReply::Deployed(b) => ChartReply::Deployed(*b),
                    ChartReply::InstalledVersion(v) => ChartReply::InstalledVersion(v.clone()),
                    ChartReply::CoreFile(c) => ChartReply::CoreFile(c.clone()),
                    ChartReply::Failed(e) => ChartReply::Failed(e.duplicate()),
                };
                assert_eq!(run.step, ChartStep::Finished);
                assert!(request(&chart, &run).is_none());
                run = advance(kind, &chart, run, reply);
            }
            assert!(run.is_finished());
            assert!(run.failure.is_none());
            assert!(run.payload.is_none());
        }
    }
}

#[test]
fn replies_go_to_the_phase_of_the_request() {
    assert_eq!(phase(ChartStep::CheckValuesFile(3)), ChartPhase::Prerequisites);
    assert_eq!(phase(ChartStep::CleanCrashLoopingPods), ChartPhase::PreExec);
    assert_eq!(phase(ChartStep::LabelManagedBy), ChartPhase::PreExec);
    assert_eq!(phase(ChartStep::ReadInstalledVersion), ChartPhase::Exec);
    assert_eq!(phase(ChartStep::DeleteCrd(0)), ChartPhase::Exec);
    assert_eq!(phase(ChartStep::CollectEvents), ChartPhase::OnDeployFailure);
    assert_eq!(phase(ChartStep::ReadConfigAfter), ChartPhase::PostExec);
    assert_eq!(phase(ChartStep::RolloutRestart), ChartPhase::PostExec);
    assert_eq!(phase(ChartStep::Finished), ChartPhase::Finished);
}

#[test]
fn a_unit_runs_through_its_phases() {
    let mut info = chart(HelmAction::Destroy);
    info.values_files = vec!["v.yaml".to_string()];
    let unit = PrometheusOperatorConfigChart { chart_info: info };
    let mut run = start(unit.get_chart_info());
    let mut steps = vec![];
    let replies = vec![
        ChartReply::Done,
        ChartReply::Done,
        ChartReply::Deployed(true),
        ChartReply::Done,
        ChartReply::Failed(failure("crd failed")),
        ChartReply::Done,
        ChartReply::Done,
    ];
    for reply in replies {
        steps.push(run.step);
        run = unit.run(run, reply);
    }
    assert_eq!(
        steps,
        vec![
            ChartStep::CheckValuesFile(0),
            ChartStep::CleanCrashLoopingPods,
            ChartStep::ReadDeployed,
            ChartStep::Uninstall,
            ChartStep::DeleteCrd(0),
            ChartStep::CollectEvents,
            ChartStep::Finished,
        ]
    );
    assert_eq!(outcome(run).unwrap_err().message.unwrap(), "crd failed");

    let dns = CoreDNSConfigChart { chart_info: chart(HelmAction::Deploy) };
    let run = start(dns.get_chart_info());
    let run = dns.pre_exec(run, ChartReply::Done);
    assert_eq!(run.step, ChartStep::ReadConfigBefore);
    let run = dns.pre_exec(run, ChartReply::CoreFile(Some("x".to_string())));
    let run = dns.pre_exec(run, ChartReply::Done);
    let run = dns.pre_exec(run, ChartReply::Done);
    let run = dns.pre_exec(run, ChartReply::Done);
    assert_eq!(run.step, ChartStep::Upgrade);
    let run = dns.exec(run, ChartReply::Failed(failure("upgrade failed")));
    assert_eq!(run.step, ChartStep::CollectEvents);
    let run = dns.on_deploy_failure(run, ChartReply::Done);
    assert_eq!(outcome(run).unwrap_err().message.unwrap(), "upgrade failed");

    let plain = CommonChart { chart_info: chart(HelmAction::Deploy) };
    let run = plain.pre_exec(start(plain.get_chart_info()), ChartReply::Done);
    let run = plain.exec(run, ChartReply::Done);
    assert!(outcome(run).is_ok());
    let mut with_file = chart(HelmAction::Deploy);
    with_file.values_files = vec!["v.yaml".to_string()];
    let plain = CommonChart { chart_info: with_file };
    let run = plain.check_prerequisites(start(plain.get_chart_info()), ChartReply::Done);
    assert_eq!(run.step, ChartStep::CleanCrashLoopingPods);
}

#[test]
fn post_exec_of_the_dns_unit() {
    let dns = CoreDNSConfigChart { chart_info: chart(HelmAction::Deploy) };
    let mut payload = ChartPayload::new();
    payload.insert("checksum".to_string(), calculate_hash("before").to_string());
    let run = ChartRun { step: ChartStep::ReadConfigAfter, payload: Some(payload), failure: None };
    let run = dns.post_exec(run, ChartReply::CoreFile(Some("after".to_string())));
    assert_eq!(run.step, ChartStep::RolloutRestart);
    let run = dns.post_exec(run, ChartReply::Done);
    assert!(outcome(run).unwrap().is_none());
}

#[test]
fn installed_version_from_the_chart_label() {
    let version = |reply: ChartReply| match reply {
        ChartReply::InstalledVersion(v) => v,
        other => panic!("unexpected reply {:?}", other),
    };
    assert_eq!(
        version(ChartReply::installed(Some("coredns-config-0.1.0"))),
        Some(semver::Version::new(0, 1, 0))
    );
    assert_eq!(version(ChartReply::installed(Some("1.2.3"))), Some(semver::Version::new(1, 2, 3)));
    assert_eq!(version(ChartReply::installed(Some("coredns-config"))), None);
    assert_eq!(version(ChartReply::installed(Some("chart-"))), None);
    assert_eq!(version(ChartReply::installed(Some(""))), None);
    assert_eq!(version(ChartReply::installed(None)), None);
}
