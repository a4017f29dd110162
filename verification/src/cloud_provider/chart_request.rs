//! The outside work that a run asks for, written out for the caller.

use crate::cloud_provider::chart_run::{crd_count, crd_name, ChartRun, ChartStep};
use crate::cloud_provider::helm::{texts, ChartInfo, ChartInfoView};
use crate::text::concat2;
use vstd::prelude::*;

verus! {

/// One piece of outside work.
#[derive(Debug)]
pub enum ChartRequest {
    /// Is this values file there and readable?
    CheckFile { file: String },
    /// Remove the crash-looping instances that the selector matches.
    DeleteCrashLoopingPods { namespace: String, selector: String },
    /// Read the configuration resource of this name.
    GetConfigMap { namespace: String, name: String },
    /// Run the cluster's command-line tool with these arguments.
    Kubectl { args: Vec<String> },
    /// Which version of the release is live?
    GetInstalledVersion { namespace: String, name: String },
    /// Uninstall the release of the unit.
    Uninstall,
    /// Install or upgrade the release of the unit.
    Upgrade,
    /// Is the release deployed?
    IsDeployed { namespace: String, name: String },
    /// Delete this resource definition.
    DeleteCrd { crd: String },
    /// Collect the recent events of the namespace.
    GetEvents { namespace: String },
    /// Restart the workload of this name.
    RolloutRestart { name: String, namespace: String },
}

/// What a [`ChartRequest`] holds, as mathematical values.
pub enum ChartRequestView {
    CheckFile { file: Seq<char> },
    DeleteCrashLoopingPods { namespace: Seq<char>, selector: Seq<char> },
    GetConfigMap { namespace: Seq<char>, name: Seq<char> },
    Kubectl { args: Seq<Seq<char>> },
    GetInstalledVersion { namespace: Seq<char>, name: Seq<char> },
    Uninstall,
    Upgrade,
    IsDeployed { namespace: Seq<char>, name: Seq<char> },
    DeleteCrd { crd: Seq<char> },
    GetEvents { namespace: Seq<char> },
    RolloutRestart { name: Seq<char>, namespace: Seq<char> },
}

impl View for ChartRequest {
    type V = ChartRequestView;

    open spec fn view(&self) -> ChartRequestView {
        match *self {
            ChartRequest::CheckFile { file } => ChartRequestView::CheckFile { file: file@ },
            ChartRequest::DeleteCrashLoopingPods {
                namespace,
                selector,
            } => ChartRequestView::DeleteCrashLoopingPods {
                namespace: namespace@,
                selector: selector@,
            },
            ChartRequest::GetConfigMap { namespace, name } => ChartRequestView::GetConfigMap {
                namespace: namespace@,
                name: name@,
            },
            ChartRequest::Kubectl { args } => ChartRequestView::Kubectl { args: texts(args@) },
            ChartRequest::GetInstalledVersion {
                namespace,
                name,
            } => ChartRequestView::GetInstalledVersion { namespace: namespace@, name: name@ },
            ChartRequest::Uninstall => ChartRequestView::Uninstall,
            ChartRequest::Upgrade => ChartRequestView::Upgrade,
            ChartRequest::IsDeployed { namespace, name } => ChartRequestView::IsDeployed {
                namespace: namespace@,
                name: name@,
            },
            ChartRequest::DeleteCrd { crd } => ChartRequestView::DeleteCrd { crd: crd@ },
            ChartRequest::GetEvents { namespace } => ChartRequestView::GetEvents {
                namespace: namespace@,
            },
            ChartRequest::RolloutRestart { name, namespace } => ChartRequestView::RolloutRestart {
                name: name@,
                namespace: namespace@,
            },
        }
    }
}

/// The arguments that mark the configuration resource `name` of the system
/// namespace: `verb` is `annotate` or `label`, `mark` what is set.
pub open spec fn marking_args(verb: Seq<char>, name: Seq<char>, mark: Seq<char>) -> Seq<Seq<char>> {
    seq!["-n"@, "kube-system"@, verb, "--overwrite"@, "configmap"@, name, mark]
}

/// The work that a run at `step` waits for; none once it is finished.
pub open spec fn request_spec(chart: ChartInfoView, step: ChartStep) -> Option<ChartRequestView> {
    match step {
        ChartStep::CheckValuesFile(i) => Some(
            ChartRequestView::CheckFile { file: chart.values_files[i as int] },
        ),
        ChartStep::CleanCrashLoopingPods => Some(
            ChartRequestView::DeleteCrashLoopingPods {
                namespace: chart.namespace_string(),
                selector: chart.selector_string(),
            },
        ),
        ChartStep::ReadConfigBefore | ChartStep::ReadConfigAfter => Some(
            ChartRequestView::GetConfigMap { namespace: chart.namespace_string(), name: chart.name },
        ),
        ChartStep::AnnotateReleaseName => Some(
            ChartRequestView::Kubectl {
                args: marking_args(
                    "annotate"@,
                    chart.name,
                    "meta.helm.sh/release-name="@ + chart.name,
                ),
            },
        ),
        ChartStep::AnnotateReleaseNamespace => Some(
            ChartRequestView::Kubectl {
                args: marking_args(
                    "annotate"@,
                    chart.name,
                    "meta.helm.sh/release-namespace=kube-system"@,
                ),
            },
        ),
        ChartStep::LabelManagedBy => Some(
            ChartRequestView::Kubectl {
                args: marking_args("label"@, chart.name, "app.kubernetes.io/managed-by=Helm"@),
            },
        ),
        ChartStep::ReadInstalledVersion => Some(
            ChartRequestView::GetInstalledVersion {
                namespace: chart.namespace_string(),
                name: chart.name,
            },
        ),
        ChartStep::DestroyBeforeUpgrade | ChartStep::Uninstall => Some(ChartRequestView::Uninstall),
        ChartStep::Upgrade => Some(ChartRequestView::Upgrade),
        ChartStep::ReadDeployed => Some(
            ChartRequestView::IsDeployed { namespace: chart.namespace_string(), name: chart.name },
        ),
        ChartStep::DeleteCrd(i) => Some(ChartRequestView::DeleteCrd { crd: crd_name(i as int) }),
        ChartStep::CollectEvents => Some(
            ChartRequestView::GetEvents { namespace: chart.namespace_string() },
        ),
        ChartStep::RolloutRestart => Some(
            ChartRequestView::RolloutRestart {
                name: chart.name,
                namespace: chart.namespace_string(),
            },
        ),
        ChartStep::Finished => None,
    }
}

/// The view of a request that may be absent.
pub open spec fn request_view(r: Option<ChartRequest>) -> Option<ChartRequestView> {
    match r {
        Some(q) => Some(q@),
        None => None,
    }
}

fn marking(verb: &str, name: &str, mark: String) -> (r: Vec<String>)
    ensures
        texts(r@) == marking_args(verb@, name@, mark@),
{
    let mut args: Vec<String> = Vec::new();
    args.push(String::from_str("-n"));
    args.push(String::from_str("kube-system"));
    args.push(String::from_str(verb));
    args.push(String::from_str("--overwrite"));
    args.push(String::from_str("configmap"));
    args.push(String::from_str(name));
    args.push(mark);
    assert(texts(args@) =~= marking_args(verb@, name@, mark@));
    args
}

/// The name of the resource definition with index `i`.
fn prometheus_crd(i: usize) -> (r: &'static str)
    requires
        i < crd_count(),
    ensures
        r@ == crd_name(i as int),
{
    if i == 0 {
        "prometheuses.monitoring.coreos.com"
    } else if i == 1 {
        "prometheusrules.monitoring.coreos.com"
    } else if i == 2 {
        "servicemonitors.monitoring.coreos.com"
    } else if i == 3 {
        "podmonitors.monitoring.coreos.com"
    } else if i == 4 {
        "alertmanagers.monitoring.coreos.com"
    } else {
        "thanosrulers.monitoring.coreos.com"
    }
}

/// The work that the run waits for, written out; none once it is finished.
pub fn request(chart: &ChartInfo, run: &ChartRun) -> (r: Option<ChartRequest>)
    requires
        run@.wf(chart@),
    ensures
        request_view(r) == request_spec(chart@, run@.step),
{
    match run.step {
        ChartStep::CheckValuesFile(i) => Some(
            ChartRequest::CheckFile { file: chart.values_files[i].clone() },
        ),
        ChartStep::CleanCrashLoopingPods => Some(
            ChartRequest::DeleteCrashLoopingPods {
                namespace: chart.get_namespace_string(),
                selector: chart.get_selector_string(),
            },
        ),
        ChartStep::ReadConfigBefore | ChartStep::ReadConfigAfter => Some(
            ChartRequest::GetConfigMap {
                namespace: chart.get_namespace_string(),
                name: chart.name.clone(),
            },
        ),
        ChartStep::AnnotateReleaseName => Some(
            ChartRequest::Kubectl {
                args: marking(
                    "annotate",
                    chart.name.as_str(),
                    concat2("meta.helm.sh/release-name=", chart.name.as_str()),
                ),
            },
        ),
        ChartStep::AnnotateReleaseNamespace => Some(
            ChartRequest::Kubectl {
                args: marking(
                    "annotate",
                    chart.name.as_str(),
                    String::from_str("meta.helm.sh/release-namespace=kube-system"),
                ),
            },
        ),
        ChartStep::LabelManagedBy => Some(
            ChartRequest::Kubectl {
                args: marking(
                    "label",
                    chart.name.as_str(),
                    String::from_str("app.kubernetes.io/managed-by=Helm"),
                ),
            },
        ),
        ChartStep::ReadInstalledVersion => Some(
            ChartRequest::GetInstalledVersion {
                namespace: chart.get_namespace_string(),
                name: chart.name.clone(),
            },
        ),
        ChartStep::DestroyBeforeUpgrade | ChartStep::Uninstall => Some(ChartRequest::Uninstall),
        ChartStep::Upgrade => Some(ChartRequest::Upgrade),
        ChartStep::ReadDeployed => Some(
            ChartRequest::IsDeployed {
                namespace: chart.get_namespace_string(),
                name: chart.name.clone(),
            },
        ),
        ChartStep::DeleteCrd(i) => Some(
            ChartRequest::DeleteCrd { crd: String::from_str(prometheus_crd(i)) },
        ),
        ChartStep::CollectEvents => Some(
            ChartRequest::GetEvents { namespace: chart.get_namespace_string() },
        ),
        ChartStep::RolloutRestart => Some(
            ChartRequest::RolloutRestart {
                name: chart.name.clone(),
                namespace: chart.get_namespace_string(),
            },
        ),
        ChartStep::Finished => None,
    }
}

} // verus!
