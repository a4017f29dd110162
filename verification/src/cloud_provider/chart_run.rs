//! The run of one chart unit: prerequisites, pre-execute, execute and
//! post-execute, with the failure hook after a failed execute.
//!
//! The run performs no outside work itself. It says which request is
//! pending; the caller performs it and hands the reply to [`advance`].

use crate::cloud_provider::helm::{
    chart_version, labelled_version, version_is_older, version_precedes, ChartInfo,
    ChartInfoView, ChartKind, ChartPayload, HelmAction,
};
use crate::error::{other_error, SimpleError, SimpleErrorView};
use crate::text::{concat2, decimal, u64_to_string};
use crate::utilities::{calculate_hash, text_hash};
use vstd::prelude::*;

verus! {

/// The request that a run waits for, or `Finished`.
#[derive(Clone, Copy, Debug, PartialEq, Eq, Structural)]
pub enum ChartStep {
    /// Prerequisites: is the values file with this index readable?
    CheckValuesFile(usize),
    /// Pre-execute: remove the unit's crash-looping instances.
    CleanCrashLoopingPods,
    /// Pre-execute of the DNS unit: read the live configuration.
    ReadConfigBefore,
    /// Pre-execute of the DNS unit: hand the configuration to the release.
    AnnotateReleaseName,
    AnnotateReleaseNamespace,
    LabelManagedBy,
    /// Execute, deploy: which version is live?
    ReadInstalledVersion,
    /// Execute, deploy: destroy the live release, it is older than the marker.
    DestroyBeforeUpgrade,
    /// Execute, deploy: install or upgrade the release.
    Upgrade,
    /// Execute, destroy: is the release deployed?
    ReadDeployed,
    /// Execute, destroy: uninstall the release.
    Uninstall,
    /// Execute, destroy of the monitoring unit: delete the resource
    /// definition with this index.
    DeleteCrd(usize),
    /// Failure hook: collect the recent events of the namespace.
    CollectEvents,
    /// Post-execute of the DNS unit: read the live configuration again.
    ReadConfigAfter,
    /// Post-execute of the DNS unit: restart the workload.
    RolloutRestart,
    /// Nothing is pending: the run has its outcome.
    Finished,
}

/// The phases of a run.
#[derive(Clone, Copy, Debug, PartialEq, Eq, Structural)]
pub enum ChartPhase {
    Prerequisites,
    PreExec,
    Exec,
    OnDeployFailure,
    PostExec,
    Finished,
}

/// The phase that a pending request belongs to.
pub open spec fn phase_of(step: ChartStep) -> ChartPhase {
    match step {
        ChartStep::CheckValuesFile(_) => ChartPhase::Prerequisites,
        ChartStep::CleanCrashLoopingPods
        | ChartStep::ReadConfigBefore
        | ChartStep::AnnotateReleaseName
        | ChartStep::AnnotateReleaseNamespace
        | ChartStep::LabelManagedBy => ChartPhase::PreExec,
        ChartStep::ReadInstalledVersion
        | ChartStep::DestroyBeforeUpgrade
        | ChartStep::Upgrade
        | ChartStep::ReadDeployed
        | ChartStep::Uninstall
        | ChartStep::DeleteCrd(_) => ChartPhase::Exec,
        ChartStep::CollectEvents => ChartPhase::OnDeployFailure,
        ChartStep::ReadConfigAfter | ChartStep::RolloutRestart => ChartPhase::PostExec,
        ChartStep::Finished => ChartPhase::Finished,
    }
}

/// The phase that a pending request belongs to.
pub fn phase(step: ChartStep) -> (r: ChartPhase)
    ensures
        r == phase_of(step),
{
    match step {
        ChartStep::CheckValuesFile(_) => ChartPhase::Prerequisites,
        ChartStep::CleanCrashLoopingPods
        | ChartStep::ReadConfigBefore
        | ChartStep::AnnotateReleaseName
        | ChartStep::AnnotateReleaseNamespace
        | ChartStep::LabelManagedBy => ChartPhase::PreExec,
        ChartStep::ReadInstalledVersion
        | ChartStep::DestroyBeforeUpgrade
        | ChartStep::Upgrade
        | ChartStep::ReadDeployed
        | ChartStep::Uninstall
        | ChartStep::DeleteCrd(_) => ChartPhase::Exec,
        ChartStep::CollectEvents => ChartPhase::OnDeployFailure,
        ChartStep::ReadConfigAfter | ChartStep::RolloutRestart => ChartPhase::PostExec,
        ChartStep::Finished => ChartPhase::Finished,
    }
}

/// The key under which the DNS unit keeps the checksum of its configuration.
pub open spec fn checksum_key() -> Seq<char> {
    "checksum"@
}

/// How many resource definitions the monitoring unit leaves behind.
pub open spec fn crd_count() -> nat {
    6
}

/// The name of the resource definition with index `i`.
pub open spec fn crd_name(i: int) -> Seq<char> {
    if i == 0 {
        "prometheuses.monitoring.coreos.com"@
    } else if i == 1 {
        "prometheusrules.monitoring.coreos.com"@
    } else if i == 2 {
        "servicemonitors.monitoring.coreos.com"@
    } else if i == 3 {
        "podmonitors.monitoring.coreos.com"@
    } else if i == 4 {
        "alertmanagers.monitoring.coreos.com"@
    } else {
        "thanosrulers.monitoring.coreos.com"@
    }
}

/// What the caller reports of the request it performed.
#[derive(Debug)]
pub enum ChartReply {
    /// It succeeded and there is nothing to report.
    Done,
    /// It failed.
    Failed(SimpleError),
    /// Whether the release is deployed.
    Deployed(bool),
    /// The version of the live release, where there is one.
    InstalledVersion(Option<semver::Version>),
    /// The `Corefile` entry of the configuration, where it has one.
    CoreFile(Option<String>),
}

/// What a [`ChartReply`] holds, as mathematical values.
pub enum ChartReplyView {
    Done,
    Failed(SimpleErrorView),
    Deployed(bool),
    InstalledVersion(Option<semver::Version>),
    CoreFile(Option<Seq<char>>),
}

impl View for ChartReply {
    type V = ChartReplyView;

    open spec fn view(&self) -> ChartReplyView {
        match *self {
            ChartReply::Done => ChartReplyView::Done,
            ChartReply::Failed(e) => ChartReplyView::Failed(e@),
            ChartReply::Deployed(b) => ChartReplyView::Deployed(b),
            ChartReply::InstalledVersion(v) => ChartReplyView::InstalledVersion(v),
            ChartReply::CoreFile(c) => ChartReplyView::CoreFile(
                match c {
                    Some(t) => Some(t@),
                    None => None,
                },
            ),
        }
    }
}

impl ChartReply {
    /// The reply to the question which version is live, from the label of
    /// the chart of the live release: no version where there is no release,
    /// or where what stands behind the last hyphen of the label is no
    /// version.
    pub fn installed(label: Option<&str>) -> (r: ChartReply)
        ensures
            r@ == ChartReplyView::InstalledVersion(
                match label {
                    Some(l) => labelled_version(l@),
                    None => None,
                },
            ),
    {
        match label {
            Some(l) => ChartReply::InstalledVersion(chart_version(l)),
            None => ChartReply::InstalledVersion(None),
        }
    }
}

/// A run of one unit: the pending request, the payload that the phases hand
/// on, and the failure that the run ends with or that the failure hook is
/// running for.
#[derive(Debug)]
pub struct ChartRun {
    pub step: ChartStep,
    pub payload: Option<ChartPayload>,
    pub failure: Option<SimpleError>,
}

/// What a [`ChartRun`] holds, as mathematical values.
pub struct ChartRunView {
    pub step: ChartStep,
    pub payload: Option<Map<Seq<char>, Seq<char>>>,
    pub failure: Option<SimpleErrorView>,
}

impl View for ChartRun {
    type V = ChartRunView;

    open spec fn view(&self) -> ChartRunView {
        ChartRunView {
            step: self.step,
            payload: match self.payload {
                Some(p) => Some(p@),
                None => None,
            },
            failure: match self.failure {
                Some(e) => Some(e@),
                None => None,
            },
        }
    }
}

/// The message of the prerequisites' error: the file and the unit by name,
/// then what the caller reported.
pub open spec fn unreadable_file_message(file: Seq<char>, unit: Seq<char>, detail: Seq<char>) -> Seq<
    char,
> {
    "Can't access helm chart override file "@ + file + " for chart "@ + unit + ". "@ + detail
}

/// The message of a failure, empty where it has none.
pub open spec fn detail_of(e: SimpleErrorView) -> Seq<char> {
    match e.message {
        Some(m) => m,
        None => Seq::empty(),
    }
}

pub open spec fn missing_corefile() -> SimpleErrorView {
    other_error("Corefile data structure is not found in CoreDNS configmap"@)
}

pub open spec fn missing_payload() -> SimpleErrorView {
    other_error("missing payload, can't check coredns update"@)
}

pub open spec fn missing_checksum() -> SimpleErrorView {
    other_error("missing configmap checksum, can't check coredns diff"@)
}

/// The failure for a reply that does not answer the pending request.
pub open spec fn malformed_reply() -> SimpleErrorView {
    other_error("malformed reply to the pending request"@)
}

/// The checksum of a configuration text, as the payload holds it.
pub open spec fn checksum_of(corefile: Seq<char>) -> Seq<char> {
    decimal(text_hash(corefile) as nat)
}

impl ChartRunView {
    /// Whether the run belongs to a unit with these settings.
    pub open spec fn wf(self, chart: ChartInfoView) -> bool {
        &&& chart.action == HelmAction::Skip ==> self.step is Finished
        &&& self.step matches ChartStep::CheckValuesFile(i) ==> i < chart.values_files.len()
        &&& self.step matches ChartStep::DeleteCrd(i) ==> i < crd_count()
        &&& self.step is CollectEvents ==> self.failure is Some
        &&& self.step is ReadConfigAfter ==> self.payload is Some
            && self.payload->0.dom().contains(checksum_key())
    }

    /// The run at another pending request.
    pub open spec fn at(self, step: ChartStep) -> ChartRunView {
        ChartRunView { step, ..self }
    }

    /// The run ended by a failure outside the execute phase.
    pub open spec fn failed(self, e: SimpleErrorView) -> ChartRunView {
        ChartRunView { step: ChartStep::Finished, failure: Some(e), ..self }
    }

    /// The run after a failed execute: the failure hook is pending and the
    /// failure is kept.
    pub open spec fn execute_failed(self, e: SimpleErrorView) -> ChartRunView {
        ChartRunView { step: ChartStep::CollectEvents, failure: Some(e), ..self }
    }

    /// The outcome of the run once nothing is pending: the failure where
    /// there is one, else the payload.
    pub open spec fn outcome(self) -> Option<
        Result<Option<Map<Seq<char>, Seq<char>>>, SimpleErrorView>,
    > {
        if self.step is Finished {
            Some(
                match self.failure {
                    Some(e) => Err(e),
                    None => Ok(self.payload),
                },
            )
        } else {
            None
        }
    }
}

/// The run of a unit before anything was done. A skipped unit never
/// touches what is live: its run is finished from the start, without a
/// payload and without a failure. For any other unit the first values file
/// is to be checked, or, without values files, pre-execute begins.
pub open spec fn start_spec(chart: ChartInfoView) -> ChartRunView {
    ChartRunView {
        step: if chart.action == HelmAction::Skip {
            ChartStep::Finished
        } else if chart.values_files.len() > 0 {
            ChartStep::CheckValuesFile(0)
        } else {
            ChartStep::CleanCrashLoopingPods
        },
        payload: None,
        failure: None,
    }
}

/// The run at the entry of post-execute. Only the DNS unit has work there:
/// it needs the checksum that its pre-execute left in the payload.
pub open spec fn enter_post_exec(kind: ChartKind, run: ChartRunView) -> ChartRunView {
    if kind == ChartKind::CoreDnsConfig {
        match run.payload {
            None => run.failed(missing_payload()),
            Some(p) => if p.dom().contains(checksum_key()) {
                run.at(ChartStep::ReadConfigAfter)
            } else {
                run.failed(missing_checksum())
            },
        }
    } else {
        run.at(ChartStep::Finished)
    }
}

/// The run at the entry of execute, by the unit's action. A skipped unit
/// passes through to post-execute as it is.
pub open spec fn enter_exec(kind: ChartKind, chart: ChartInfoView, run: ChartRunView) -> ChartRunView {
    match chart.action {
        HelmAction::Deploy => if chart.last_breaking_version_requiring_restart is Some {
            run.at(ChartStep::ReadInstalledVersion)
        } else {
            run.at(ChartStep::Upgrade)
        },
        HelmAction::Destroy => run.at(ChartStep::ReadDeployed),
        HelmAction::Skip => enter_post_exec(kind, run),
    }
}

/// Whether the live release has to go before the upgrade: the unit has a
/// marker and the live version comes before it.
pub open spec fn destroy_first(chart: ChartInfoView, reply: ChartReplyView) -> bool {
    &&& chart.last_breaking_version_requiring_restart matches Some(marker)
    &&& reply matches ChartReplyView::InstalledVersion(Some(installed))
    &&& version_precedes(installed, marker)
}

/// The run after the reply to its pending request.
pub open spec fn advance_spec(
    kind: ChartKind,
    chart: ChartInfoView,
    run: ChartRunView,
    reply: ChartReplyView,
) -> ChartRunView {
    match run.step {
        ChartStep::CheckValuesFile(i) => match reply {
            ChartReplyView::Failed(e) => run.failed(
                other_error(
                    unreadable_file_message(chart.values_files[i as int], chart.name, detail_of(e)),
                ),
            ),
            _ => if i + 1 < chart.values_files.len() {
                run.at(ChartStep::CheckValuesFile((i + 1) as usize))
            } else {
                run.at(ChartStep::CleanCrashLoopingPods)
            },
        },
        ChartStep::CleanCrashLoopingPods => match reply {
            ChartReplyView::Failed(e) => run.failed(e),
            _ => if kind == ChartKind::CoreDnsConfig {
                run.at(ChartStep::ReadConfigBefore)
            } else {
                enter_exec(kind, chart, run)
            },
        },
        ChartStep::ReadConfigBefore => match reply {
            ChartReplyView::Failed(e) => run.failed(e),
            ChartReplyView::CoreFile(Some(corefile)) => ChartRunView {
                step: ChartStep::AnnotateReleaseName,
                payload: Some(Map::empty().insert(checksum_key(), checksum_of(corefile))),
                failure: run.failure,
            },
            ChartReplyView::CoreFile(None) => run.failed(missing_corefile()),
            _ => run.failed(malformed_reply()),
        },
        ChartStep::AnnotateReleaseName => match reply {
            ChartReplyView::Failed(e) => run.failed(e),
            _ => run.at(ChartStep::AnnotateReleaseNamespace),
        },
        ChartStep::AnnotateReleaseNamespace => match reply {
            ChartReplyView::Failed(e) => run.failed(e),
            _ => run.at(ChartStep::LabelManagedBy),
        },
        ChartStep::LabelManagedBy => match reply {
            ChartReplyView::Failed(e) => run.failed(e),
            _ => enter_exec(kind, chart, run),
        },
        ChartStep::ReadInstalledVersion => if destroy_first(chart, reply) {
            run.at(ChartStep::DestroyBeforeUpgrade)
        } else {
            run.at(ChartStep::Upgrade)
        },
        ChartStep::DestroyBeforeUpgrade => run.at(ChartStep::Upgrade),
        ChartStep::Upgrade => match reply {
            ChartReplyView::Failed(e) => run.execute_failed(e),
            _ => enter_post_exec(kind, run),
        },
        ChartStep::ReadDeployed => match reply {
            ChartReplyView::Failed(e) => run.execute_failed(e),
            ChartReplyView::Deployed(true) => run.at(ChartStep::Uninstall),
            ChartReplyView::Deployed(false) => enter_post_exec(kind, run),
            _ => run.execute_failed(malformed_reply()),
        },
        ChartStep::Uninstall => match reply {
            ChartReplyView::Failed(e) => run.execute_failed(e),
            _ => if kind == ChartKind::PrometheusOperatorConfig {
                run.at(ChartStep::DeleteCrd(0))
            } else {
                enter_post_exec(kind, run)
            },
        },
        ChartStep::DeleteCrd(i) => match reply {
            ChartReplyView::Failed(e) => run.execute_failed(e),
            _ => if i + 1 < crd_count() {
                run.at(ChartStep::DeleteCrd((i + 1) as usize))
            } else {
                enter_post_exec(kind, run)
            },
        },
        ChartStep::CollectEvents => match reply {
            ChartReplyView::Failed(e) => run.failed(e),
            _ => run.at(ChartStep::Finished),
        },
        ChartStep::ReadConfigAfter => match reply {
            ChartReplyView::Failed(e) => run.failed(e),
            ChartReplyView::CoreFile(Some(corefile)) => if checksum_of(corefile)
                == run.payload->0[checksum_key()] {
                ChartRunView { step: ChartStep::Finished, payload: None, failure: run.failure }
            } else {
                run.at(ChartStep::RolloutRestart)
            },
            ChartReplyView::CoreFile(None) => run.failed(missing_corefile()),
            _ => run.failed(malformed_reply()),
        },
        ChartStep::RolloutRestart => match reply {
            ChartReplyView::Failed(e) => run.failed(e),
            _ => ChartRunView { step: ChartStep::Finished, payload: None, failure: run.failure },
        },
        ChartStep::Finished => run,
    }
}

/// The run after a sequence of replies, each the reply to the request that
/// was pending when it came.
pub open spec fn run_after(
    kind: ChartKind,
    chart: ChartInfoView,
    run: ChartRunView,
    replies: Seq<ChartReplyView>,
) -> ChartRunView
    decreases replies.len(),
{
    if replies.len() == 0 {
        run
    } else {
        advance_spec(kind, chart, run_after(kind, chart, run, replies.drop_last()), replies.last())
    }
}

/// The views of a sequence of replies.
pub open spec fn reply_views(replies: Seq<ChartReply>) -> Seq<ChartReplyView> {
    Seq::new(replies.len(), |i: int| replies[i]@)
}

/// A run keeps belonging to its unit.
pub proof fn lemma_advance_keeps_wf(
    kind: ChartKind,
    chart: ChartInfoView,
    run: ChartRunView,
    reply: ChartReplyView,
)
    requires
        run.wf(chart),
    ensures
        advance_spec(kind, chart, run, reply).wf(chart),
{
}

impl ChartRun {
    fn at(self, step: ChartStep) -> (r: ChartRun)
        ensures
            r@ == self@.at(step),
    {
        ChartRun { step, payload: self.payload, failure: self.failure }
    }

    fn failed(self, e: SimpleError) -> (r: ChartRun)
        ensures
            r@ == self@.failed(e@),
    {
        ChartRun { step: ChartStep::Finished, payload: self.payload, failure: Some(e) }
    }

    fn execute_failed(self, e: SimpleError) -> (r: ChartRun)
        ensures
            r@ == self@.execute_failed(e@),
    {
        ChartRun { step: ChartStep::CollectEvents, payload: self.payload, failure: Some(e) }
    }

    fn enter_post_exec(self, kind: ChartKind) -> (r: ChartRun)
        ensures
            r@ == enter_post_exec(kind, self@),
    {
        match kind {
            ChartKind::CoreDnsConfig => {
                let has_checksum = match &self.payload {
                    None => None,
                    Some(p) => Some(p.get("checksum").is_some()),
                };
                match has_checksum {
                    None => self.failed(
                        SimpleError::other(
                            String::from_str("missing payload, can't check coredns update"),
                        ),
                    ),
                    Some(true) => self.at(ChartStep::ReadConfigAfter),
                    Some(false) => self.failed(
                        SimpleError::other(
                            String::from_str(
                                "missing configmap checksum, can't check coredns diff",
                            ),
                        ),
                    ),
                }
            },
            _ => self.at(ChartStep::Finished),
        }
    }

    fn enter_exec(self, kind: ChartKind, chart: &ChartInfo) -> (r: ChartRun)
        ensures
            r@ == enter_exec(kind, chart@, self@),
    {
        match chart.action {
            HelmAction::Deploy => {
                if chart.last_breaking_version_requiring_restart.is_some() {
                    self.at(ChartStep::ReadInstalledVersion)
                } else {
                    self.at(ChartStep::Upgrade)
                }
            },
            HelmAction::Destroy => self.at(ChartStep::ReadDeployed),
            HelmAction::Skip => self.enter_post_exec(kind),
        }
    }

    /// Whether the run belongs to a unit with these settings. The runs that
    /// [`start`] and [`advance`] give for a unit do.
    pub fn is_well_formed(&self, chart: &ChartInfo) -> (r: bool)
        ensures
            r == self@.wf(chart@),
    {
        assert(chart@.values_files.len() == chart.values_files@.len());
        let skipped = match chart.action {
            HelmAction::Skip => true,
            _ => false,
        };
        match self.step {
            ChartStep::Finished => true,
            ChartStep::CheckValuesFile(i) => !skipped && i < chart.values_files.len(),
            ChartStep::DeleteCrd(i) => !skipped && i < 6,
            ChartStep::CollectEvents => !skipped && self.failure.is_some(),
            ChartStep::ReadConfigAfter => !skipped && match &self.payload {
                Some(p) => p.get("checksum").is_some(),
                None => false,
            },
            _ => !skipped,
        }
    }

    /// Whether nothing is pending any more.
    pub fn is_finished(&self) -> (r: bool)
        ensures
            r == (self@.step is Finished),
    {
        match self.step {
            ChartStep::Finished => true,
            _ => false,
        }
    }

    /// The outcome of the run, once nothing is pending.
    pub fn into_outcome(self) -> (r: Option<Result<Option<ChartPayload>, SimpleError>>)
        ensures
            match r {
                Some(Ok(Some(p))) => self@.outcome() == Some(
                    Ok::<Option<Map<Seq<char>, Seq<char>>>, SimpleErrorView>(Some(p@)),
                ),
                Some(Ok(None)) => self@.outcome() == Some(
                    Ok::<Option<Map<Seq<char>, Seq<char>>>, SimpleErrorView>(None),
                ),
                Some(Err(e)) => self@.outcome() == Some(
                    Err::<Option<Map<Seq<char>, Seq<char>>>, SimpleErrorView>(e@),
                ),
                None => self@.outcome() is None,
            },
    {
        match self.step {
            ChartStep::Finished => match self.failure {
                Some(e) => Some(Err(e)),
                None => Some(Ok(self.payload)),
            },
            _ => None,
        }
    }
}

/// Whether the live release has to go before the upgrade.
fn must_destroy_first(chart: &ChartInfo, reply: &ChartReply) -> (r: bool)
    ensures
        r == destroy_first(chart@, reply@),
{
    match (&chart.last_breaking_version_requiring_restart, reply) {
        (Some(marker), ChartReply::InstalledVersion(Some(installed))) => version_is_older(
            installed,
            marker,
        ),
        _ => false,
    }
}

/// The failure of the prerequisites for the values file with index `i`.
fn unreadable_file(chart: &ChartInfo, i: usize, e: &SimpleError) -> (r: SimpleError)
    requires
        i < chart.values_files@.len(),
    ensures
        r@ == other_error(
            unreadable_file_message(chart@.values_files[i as int], chart@.name, detail_of(e@)),
        ),
{
    let mut m = concat2("Can't access helm chart override file ", chart.values_files[i].as_str());
    m.append(" for chart ");
    m.append(chart.name.as_str());
    m.append(". ");
    match &e.message {
        Some(d) => {
            m.append(d.as_str());
        },
        None => {
            assert(m@ + Seq::<char>::empty() =~= m@);
        },
    }
    SimpleError::other(m)
}

fn corefile_missing() -> (r: SimpleError)
    ensures
        r@ == missing_corefile(),
{
    SimpleError::other(String::from_str("Corefile data structure is not found in CoreDNS configmap"))
}

fn reply_malformed() -> (r: SimpleError)
    ensures
        r@ == malformed_reply(),
{
    SimpleError::other(String::from_str("malformed reply to the pending request"))
}

/// The checksum of a configuration text, as the payload holds it.
fn checksum(corefile: &str) -> (r: String)
    ensures
        r@ == checksum_of(corefile@),
{
    u64_to_string(calculate_hash(corefile))
}

/// Begins the run of a unit. The run of a skipped unit is finished at once:
/// it asks for nothing and its outcome is success without a payload.
pub fn start(chart: &ChartInfo) -> (run: ChartRun)
    ensures
        run@ == start_spec(chart@),
        run@.wf(chart@),
{
    let step = match chart.action {
        HelmAction::Skip => ChartStep::Finished,
        _ => {
            if chart.values_files.len() > 0 {
                ChartStep::CheckValuesFile(0)
            } else {
                ChartStep::CleanCrashLoopingPods
            }
        },
    };
    ChartRun { step, payload: None, failure: None }
}

/// Takes the reply to the pending request and says what the run waits for
/// next. A failure before or after the execute phase ends the run with that
/// failure. A failure of the execute phase starts the failure hook, and the
/// run ends with the failure of the hook if it fails too, else with the
/// failure of the execute phase. A failure to read the live version or to
/// destroy the live release before an upgrade does not stop the upgrade.
pub fn advance(kind: ChartKind, chart: &ChartInfo, run: ChartRun, reply: ChartReply) -> (next:
    ChartRun)
    requires
        run@.wf(chart@),
    ensures
        next@ == advance_spec(kind, chart@, run@, reply@),
        next@.wf(chart@),
{
    proof {
        lemma_advance_keeps_wf(kind, chart@, run@, reply@);
        assert(chart@.values_files.len() == chart.values_files@.len());
    }
    match run.step {
        ChartStep::CheckValuesFile(i) => match reply {
            ChartReply::Failed(e) => {
                let failure = unreadable_file(chart, i, &e);
                run.failed(failure)
            },
            _ => {
                let count: usize = chart.values_files.len();
                if i + 1 < count {
                    run.at(ChartStep::CheckValuesFile(i + 1))
                } else {
                    run.at(ChartStep::CleanCrashLoopingPods)
                }
            },
        },
        ChartStep::CleanCrashLoopingPods => match reply {
            ChartReply::Failed(e) => run.failed(e),
            _ => match kind {
                ChartKind::CoreDnsConfig => run.at(ChartStep::ReadConfigBefore),
                _ => run.enter_exec(kind, chart),
            },
        },
        ChartStep::ReadConfigBefore => match reply {
            ChartReply::Failed(e) => run.failed(e),
            ChartReply::CoreFile(Some(corefile)) => {
                let mut payload = ChartPayload::new();
                payload.insert(String::from_str("checksum"), checksum(corefile.as_str()));
                ChartRun {
                    step: ChartStep::AnnotateReleaseName,
                    payload: Some(payload),
                    failure: run.failure,
                }
            },
            ChartReply::CoreFile(None) => run.failed(corefile_missing()),
            _ => run.failed(reply_malformed()),
        },
        ChartStep::AnnotateReleaseName => match reply {
            ChartReply::Failed(e) => run.failed(e),
            _ => run.at(ChartStep::AnnotateReleaseNamespace),
        },
        ChartStep::AnnotateReleaseNamespace => match reply {
            ChartReply::Failed(e) => run.failed(e),
            _ => run.at(ChartStep::LabelManagedBy),
        },
        ChartStep::LabelManagedBy => match reply {
            ChartReply::Failed(e) => run.failed(e),
            _ => run.enter_exec(kind, chart),
        },
        ChartStep::ReadInstalledVersion => {
            if must_destroy_first(chart, &reply) {
                run.at(ChartStep::DestroyBeforeUpgrade)
            } else {
                run.at(ChartStep::Upgrade)
            }
        },
        ChartStep::DestroyBeforeUpgrade => run.at(ChartStep::Upgrade),
        ChartStep::Upgrade => match reply {
            ChartReply::Failed(e) => run.execute_failed(e),
            _ => run.enter_post_exec(kind),
        },
        ChartStep::ReadDeployed => match reply {
            ChartReply::Failed(e) => run.execute_failed(e),
            ChartReply::Deployed(true) => run.at(ChartStep::Uninstall),
            ChartReply::Deployed(false) => run.enter_post_exec(kind),
            _ => run.execute_failed(reply_malformed()),
        },
        ChartStep::Uninstall => match reply {
            ChartReply::Failed(e) => run.execute_failed(e),
            _ => match kind {
                ChartKind::PrometheusOperatorConfig => run.at(ChartStep::DeleteCrd(0)),
                _ => run.enter_post_exec(kind),
            },
        },
        ChartStep::DeleteCrd(i) => match reply {
            ChartReply::Failed(e) => run.execute_failed(e),
            _ => {
                if i + 1 < 6 {
                    run.at(ChartStep::DeleteCrd(i + 1))
                } else {
                    run.enter_post_exec(kind)
                }
            },
        },
        ChartStep::CollectEvents => match reply {
            ChartReply::Failed(e) => run.failed(e),
            _ => run.at(ChartStep::Finished),
        },
        ChartStep::ReadConfigAfter => match reply {
            ChartReply::Failed(e) => run.failed(e),
            ChartReply::CoreFile(Some(corefile)) => {
                let now = checksum(corefile.as_str());
                let unchanged = match &run.payload {
                    Some(p) => match p.get("checksum") {
                        Some(before) => *before == now,
                        None => false,
                    },
                    None => false,
                };
                if unchanged {
                    ChartRun { step: ChartStep::Finished, payload: None, failure: run.failure }
                } else {
                    run.at(ChartStep::RolloutRestart)
                }
            },
            ChartReply::CoreFile(None) => run.failed(corefile_missing()),
            _ => run.failed(reply_malformed()),
        },
        ChartStep::RolloutRestart => match reply {
            ChartReply::Failed(e) => run.failed(e),
            _ => ChartRun { step: ChartStep::Finished, payload: None, failure: run.failure },
        },
        ChartStep::Finished => run,
    }
}

/// Runs a unit against replies that are known beforehand: each is taken
/// as the reply to the request that is pending when its turn comes, and
/// those that come after the run has finished are of no account.
pub fn replay(kind: ChartKind, chart: &ChartInfo, replies: Vec<ChartReply>) -> (run: ChartRun)
    ensures
        run@ == run_after(kind, chart@, start_spec(chart@), reply_views(replies@)),
        run@.wf(chart@),
{
    let ghost all = reply_views(replies@);
    let count: usize = replies.len();
    let mut rest = replies;
    let mut run = start(chart);
    let mut done: usize = 0;
    assert(all.take(0) =~= Seq::<ChartReplyView>::empty());
    while rest.len() > 0
        invariant
            all.len() == count,
            done + rest@.len() == all.len(),
            forall|i: int| 0 <= i < rest@.len() ==> (#[trigger] rest@[i])@ == all[done + i],
            run@ == run_after(kind, chart@, start_spec(chart@), all.take(done as int)),
            run@.wf(chart@),
        decreases rest@.len(),
    {
        let ghost head = all.take(done + 1);
        assert(head.drop_last() =~= all.take(done as int));
        assert(head.last() == all[done as int]);
        let reply = rest.remove(0);
        run = advance(kind, chart, run, reply);
        done = done + 1;
    }
    assert(all.take(done as int) =~= all);
    run
}

} // verus!
