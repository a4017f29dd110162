//! Chart units: what is deployed, where, and with which settings.

use crate::cloud_provider::chart_run::{
    advance, advance_spec, phase, ChartPhase, ChartReply, ChartRun,
};
use crate::error::{other_error, SimpleError, SimpleErrorView};
use crate::text::{concat2, lowercase_of, to_lowercase};
use crate::text_map::TextMap;
use crate::utilities::{uuid_hyphenated, uuid_text};
use vstd::prelude::*;

verus! {

/// `semver::Version`: a version as the release tool writes it. Nothing of
/// its inside is known here; versions are only compared.
#[verifier::external_type_specification]
#[verifier::external_body]
pub struct ExVersion(semver::Version);

/// Whether `a` comes before `b` in the order of `semver::Version`.
pub uninterp spec fn version_precedes(a: semver::Version, b: semver::Version) -> bool;

/// `PartialOrd::lt` of `semver::Version`: whether `installed` is ordered
/// strictly before `marker`.
#[verifier::external_body]
pub(crate) fn version_is_older(installed: &semver::Version, marker: &semver::Version) -> (r: bool)
    ensures
        r == version_precedes(*installed, *marker),
{
    installed < marker
}

/// The version that `semver::Version::parse` reads from a text, where the
/// text is a version.
pub uninterp spec fn semver_parsed(text: Seq<char>) -> Option<semver::Version>;

/// `semver::Version::parse`: the version that the text stands for, none
/// where the text is no version. What is read depends on the characters of
/// the text alone.
#[verifier::external_body]
pub(crate) fn parse_version(text: &str) -> (r: Option<semver::Version>)
    ensures
        r == semver_parsed(text@),
{
    semver::Version::parse(text).ok()
}

/// Where the last hyphen of a text stands; -1 where it has none.
pub open spec fn last_hyphen(s: Seq<char>) -> int
    decreases s.len(),
{
    if s.len() == 0 {
        -1
    } else if s.last() == '-' {
        s.len() - 1
    } else {
        last_hyphen(s.drop_last())
    }
}

/// What stands behind the last hyphen of a text; the text itself where it
/// has no hyphen.
pub open spec fn after_last_hyphen(s: Seq<char>) -> Seq<char> {
    s.skip(last_hyphen(s) + 1)
}

/// The version of a release, from the label of its chart: the label is the
/// name of the chart, a hyphen and the version, so the version is what
/// stands behind the last hyphen. None where that is no version.
pub open spec fn labelled_version(label: Seq<char>) -> Option<semver::Version> {
    semver_parsed(after_last_hyphen(label))
}

/// The version of a release, from the label of its chart.
pub fn chart_version(label: &str) -> (r: Option<semver::Version>)
    ensures
        r == labelled_version(label@),
{
    let n: usize = label.unicode_len();
    let mut end: usize = n;
    assert(label@.take(end as int) =~= label@);
    while end > 0 && label.get_char(end - 1) != '-'
        invariant
            n == label@.len(),
            end <= n,
            last_hyphen(label@) == last_hyphen(label@.take(end as int)),
        decreases end,
    {
        assert(label@.take(end as int).drop_last() =~= label@.take(end - 1));
        end = end - 1;
    }
    proof {
        if end > 0 {
            assert(label@.take(end as int).last() == label@[end - 1]);
        } else {
            assert(label@.take(0).len() == 0);
        }
        assert(last_hyphen(label@) + 1 == end);
        assert(label@.subrange(end as int, n as int) =~= label@.skip(end as int));
    }
    parse_version(label.substring_char(end, n))
}

/// The directory of the chart of the shell agent, under the root of the
/// charts.
pub fn shell_agent_chart_directory() -> (r: &'static str)
    ensures
        r@ == "common/charts/qovery-shell-agent"@,
{
    "common/charts/qovery-shell-agent"
}

/// What the engine does with a chart unit.
#[derive(Clone, Copy, Debug, PartialEq, Eq, Structural)]
pub enum HelmAction {
    Deploy,
    Destroy,
    Skip,
}

/// The well-known namespaces, and `Custom` for one given by name.
#[derive(Clone, Copy, Debug, PartialEq, Eq, Structural)]
pub enum HelmChartNamespaces {
    KubeSystem,
    Prometheus,
    Logging,
    CertManager,
    NginxIngress,
    Qovery,
    Custom,
}

impl HelmChartNamespaces {
    /// The name of the namespace in the cluster.
    pub open spec fn name(self) -> Seq<char> {
        match self {
            HelmChartNamespaces::Custom => "custom"@,
            HelmChartNamespaces::KubeSystem => "kube-system"@,
            HelmChartNamespaces::Prometheus => "prometheus"@,
            HelmChartNamespaces::Logging => "logging"@,
            HelmChartNamespaces::CertManager => "cert-manager"@,
            HelmChartNamespaces::NginxIngress => "nginx-ingress"@,
            HelmChartNamespaces::Qovery => "qovery"@,
        }
    }

    pub fn to_string(&self) -> (r: String)
        ensures
            r@ == self.name(),
    {
        let name = match self {
            HelmChartNamespaces::Custom => "custom",
            HelmChartNamespaces::KubeSystem => "kube-system",
            HelmChartNamespaces::Prometheus => "prometheus",
            HelmChartNamespaces::Logging => "logging",
            HelmChartNamespaces::CertManager => "cert-manager",
            HelmChartNamespaces::NginxIngress => "nginx-ingress",
            HelmChartNamespaces::Qovery => "qovery",
        };
        String::from_str(name)
    }
}

/// One value override: a key and its value.
#[derive(Debug)]
pub struct ChartSetValue {
    pub key: String,
    pub value: String,
}

/// A generated values file: its name and its YAML body.
#[derive(Debug)]
pub struct ChartValuesGenerated {
    pub filename: String,
    pub yaml_content: String,
}

/// The characters of each text of `s`.
pub open spec fn texts(s: Seq<String>) -> Seq<Seq<char>> {
    Seq::new(s.len(), |i: int| s[i]@)
}

/// The value overrides of `s` as pairs of key and value.
pub open spec fn set_values(s: Seq<ChartSetValue>) -> Seq<(Seq<char>, Seq<char>)> {
    Seq::new(s.len(), |i: int| (s[i].key@, s[i].value@))
}

/// The generated files of `s` as pairs of name and body.
pub open spec fn generated_values(s: Seq<ChartValuesGenerated>) -> Seq<(Seq<char>, Seq<char>)> {
    Seq::new(s.len(), |i: int| (s[i].filename@, s[i].yaml_content@))
}

/// A chart unit.
pub struct ChartInfo {
    pub name: String,
    pub path: String,
    pub namespace: HelmChartNamespaces,
    pub custom_namespace: Option<String>,
    pub action: HelmAction,
    pub atomic: bool,
    pub force_upgrade: bool,
    pub last_breaking_version_requiring_restart: Option<semver::Version>,
    pub timeout_in_seconds: i64,
    pub dry_run: bool,
    pub wait: bool,
    pub values: Vec<ChartSetValue>,
    pub values_files: Vec<String>,
    pub yaml_files_content: Vec<ChartValuesGenerated>,
    pub parse_stderr_for_error: bool,
}

/// What a [`ChartInfo`] holds, as mathematical values.
pub struct ChartInfoView {
    pub name: Seq<char>,
    pub path: Seq<char>,
    pub namespace: HelmChartNamespaces,
    pub custom_namespace: Option<Seq<char>>,
    pub action: HelmAction,
    pub atomic: bool,
    pub force_upgrade: bool,
    pub last_breaking_version_requiring_restart: Option<semver::Version>,
    pub timeout_in_seconds: int,
    pub dry_run: bool,
    pub wait: bool,
    pub values: Seq<(Seq<char>, Seq<char>)>,
    pub values_files: Seq<Seq<char>>,
    pub yaml_files_content: Seq<(Seq<char>, Seq<char>)>,
    pub parse_stderr_for_error: bool,
}

impl ChartInfoView {
    /// The namespace the unit lives in: the custom one where the unit names
    /// one, else the well-known name.
    pub open spec fn namespace_string(self) -> Seq<char> {
        match self.namespace {
            HelmChartNamespaces::Custom => match self.custom_namespace {
                Some(n) => n,
                None => self.namespace.name(),
            },
            _ => self.namespace.name(),
        }
    }

    /// The label selector of the unit's workloads.
    pub open spec fn selector_string(self) -> Seq<char> {
        "app="@ + lowercase_of(self.name)
    }

    /// The unit that `Default` gives.
    pub open spec fn default_unit() -> ChartInfoView {
        ChartInfoView {
            name: "undefined"@,
            path: "undefined"@,
            namespace: HelmChartNamespaces::KubeSystem,
            custom_namespace: None,
            action: HelmAction::Deploy,
            atomic: true,
            force_upgrade: false,
            last_breaking_version_requiring_restart: None,
            timeout_in_seconds: 180,
            dry_run: false,
            wait: true,
            values: Seq::empty(),
            values_files: Seq::empty(),
            yaml_files_content: Seq::empty(),
            parse_stderr_for_error: true,
        }
    }
}

impl View for ChartInfo {
    type V = ChartInfoView;

    open spec fn view(&self) -> ChartInfoView {
        ChartInfoView {
            name: self.name@,
            path: self.path@,
            namespace: self.namespace,
            custom_namespace: match self.custom_namespace {
                Some(n) => Some(n@),
                None => None,
            },
            action: self.action,
            atomic: self.atomic,
            force_upgrade: self.force_upgrade,
            last_breaking_version_requiring_restart: self.last_breaking_version_requiring_restart,
            timeout_in_seconds: self.timeout_in_seconds as int,
            dry_run: self.dry_run,
            wait: self.wait,
            values: set_values(self.values@),
            values_files: texts(self.values_files@),
            yaml_files_content: generated_values(self.yaml_files_content@),
            parse_stderr_for_error: self.parse_stderr_for_error,
        }
    }
}

impl ChartInfo {
    /// A unit in a namespace given by name; the rest is as in the default unit.
    pub fn new_from_custom_namespace(
        name: String,
        path: String,
        custom_namespace: String,
        timeout_in_seconds: i64,
        values_files: Vec<String>,
        parse_stderr_for_error: bool,
    ) -> (r: ChartInfo)
        ensures
            r@ == (ChartInfoView {
                name: name@,
                path: path@,
                namespace: HelmChartNamespaces::Custom,
                custom_namespace: Some(custom_namespace@),
                timeout_in_seconds: timeout_in_seconds as int,
                values_files: texts(values_files@),
                parse_stderr_for_error,
                ..ChartInfoView::default_unit()
            }),
    {
        let r = ChartInfo {
            name,
            path,
            namespace: HelmChartNamespaces::Custom,
            custom_namespace: Some(custom_namespace),
            action: HelmAction::Deploy,
            atomic: true,
            force_upgrade: false,
            last_breaking_version_requiring_restart: None,
            timeout_in_seconds,
            dry_run: false,
            wait: true,
            values: Vec::new(),
            values_files,
            yaml_files_content: Vec::new(),
            parse_stderr_for_error,
        };
        assert(r@.values =~= Seq::empty());
        assert(r@.yaml_files_content =~= Seq::empty());
        r
    }

    pub fn get_namespace_string(&self) -> (r: String)
        ensures
            r@ == self@.namespace_string(),
    {
        match self.namespace {
            HelmChartNamespaces::Custom => match &self.custom_namespace {
                Some(n) => n.clone(),
                None => self.namespace.to_string(),
            },
            _ => self.namespace.to_string(),
        }
    }

    pub fn get_selector_string(&self) -> (r: String)
        ensures
            r@ == self@.selector_string(),
    {
        let lower = to_lowercase(self.name.as_str());
        concat2("app=", lower.as_str())
    }
}

impl Default for ChartInfo {
    fn default() -> (r: ChartInfo)
        ensures
            r@ == ChartInfoView::default_unit(),
    {
        let r = ChartInfo {
            name: String::from_str("undefined"),
            path: String::from_str("undefined"),
            namespace: HelmChartNamespaces::KubeSystem,
            custom_namespace: None,
            action: HelmAction::Deploy,
            atomic: true,
            force_upgrade: false,
            last_breaking_version_requiring_restart: None,
            timeout_in_seconds: 180,
            dry_run: false,
            wait: true,
            values: Vec::new(),
            values_files: Vec::new(),
            yaml_files_content: Vec::new(),
            parse_stderr_for_error: true,
        };
        assert(r@.values =~= Seq::empty());
        assert(r@.values_files =~= Seq::empty());
        assert(r@.yaml_files_content =~= Seq::empty());
        r
    }
}

/// Data that one phase of a unit's run leaves for the phases after it: a
/// mapping from key to value, owned by that run alone.
#[derive(Debug)]
pub struct ChartPayload {
    data: TextMap,
}

impl View for ChartPayload {
    type V = Map<Seq<char>, Seq<char>>;

    closed spec fn view(&self) -> Map<Seq<char>, Seq<char>> {
        self.data@
    }
}

impl ChartPayload {
    /// The empty payload.
    pub fn new() -> (r: ChartPayload)
        ensures
            r@ == Map::<Seq<char>, Seq<char>>::empty(),
    {
        ChartPayload { data: TextMap::new() }
    }

    /// Sets the value of `key`.
    pub fn insert(&mut self, key: String, value: String)
        ensures
            final(self)@ == old(self)@.insert(key@, value@),
    {
        self.data.insert(key, value);
    }

    /// The value of `key`, where the payload has one.
    pub fn get(&self, key: &str) -> (r: Option<&String>)
        ensures
            match r {
                Some(v) => self@.dom().contains(key@) && self@[key@] == v@,
                None => !self@.dom().contains(key@),
            },
    {
        self.data.get(key)
    }
}

/// One past release attempt of a unit.
#[derive(Debug)]
pub struct HelmHistoryRow {
    pub revision: u16,
    pub updated: String,
    pub status: String,
    pub chart: String,
    pub app_version: String,
}

impl HelmHistoryRow {
    /// Whether this attempt left the release deployed.
    pub open spec fn deployed(&self) -> bool {
        self.status@ == "deployed"@
    }

    /// Whether this attempt left the release deployed.
    pub fn is_successfully_deployed(&self) -> (r: bool)
        ensures
            r == self.deployed(),
    {
        let deployed = String::from_str("deployed");
        self.status == deployed
    }

    /// A copy of this row.
    pub fn duplicate(&self) -> (r: HelmHistoryRow)
        ensures
            r == *self,
    {
        HelmHistoryRow {
            revision: self.revision,
            updated: self.updated.clone(),
            status: self.status.clone(),
            chart: self.chart.clone(),
            app_version: self.app_version.clone(),
        }
    }
}

/// The message of the error for a history without a deployed revision: it
/// names the chart of the most recent row, where the history has one.
pub open spec fn no_successful_revision(history: Seq<HelmHistoryRow>) -> Seq<char> {
    "no succeed revision found for chart "@ + (if history.len() > 0 {
        history.last().chart@
    } else {
        Seq::empty()
    })
}

/// The most recent deployed revision of a history given in chronological
/// order; an error that names the chart where no revision is deployed.
pub fn get_latest_successful_deployment(helm_history_list: &[HelmHistoryRow]) -> (r: Result<
    HelmHistoryRow,
    SimpleError,
>)
    ensures
        match r {
            Ok(row) => exists|i: int|
                0 <= i < helm_history_list@.len() && row == #[trigger] helm_history_list@[i]
                    && row.deployed() && forall|j: int|
                    i < j < helm_history_list@.len() ==> !(#[trigger] helm_history_list@[j]).deployed(),
            Err(e) => e@ == other_error(no_successful_revision(helm_history_list@)) && forall|
                j: int,
            |
                0 <= j < helm_history_list@.len() ==> !(#[trigger] helm_history_list@[j]).deployed(),
        },
{
    let n: usize = helm_history_list.len();
    let mut i: usize = n;
    while i > 0
        invariant
            n == helm_history_list@.len(),
            i <= n,
            forall|j: int| i <= j < n ==> !(#[trigger] helm_history_list@[j]).deployed(),
        decreases i,
    {
        i = i - 1;
        if helm_history_list[i].is_successfully_deployed() {
            let row = helm_history_list[i].duplicate();
            assert(row == helm_history_list@[i as int]);
            return Ok(row);
        }
    }
    let mut message = String::from_str("no succeed revision found for chart ");
    if n > 0 {
        message.append(helm_history_list[n - 1].chart.as_str());
    } else {
        assert(message@ + Seq::<char>::empty() =~= message@);
    }
    Err(SimpleError::other(message))
}

/// Where the engine runs: in the client's cluster or on the operator's side.
#[derive(Clone, Copy, Debug, PartialEq, Eq, Structural)]
pub enum EngineLocation {
    ClientSide,
    QoverySide,
}

/// The engine's own chart is deployed where the engine runs in the client's
/// cluster, and destroyed where it runs on the operator's side.
pub fn get_engine_helm_action_from_location(location: &EngineLocation) -> (r: HelmAction)
    ensures
        r == match *location {
            EngineLocation::ClientSide => HelmAction::Deploy,
            EngineLocation::QoverySide => HelmAction::Destroy,
        },
{
    match location {
        EngineLocation::ClientSide => HelmAction::Deploy,
        EngineLocation::QoverySide => HelmAction::Destroy,
    }
}

/// Which run a chart unit gets.
#[derive(Clone, Copy, Debug, PartialEq, Eq, Structural)]
pub enum ChartKind {
    /// The four phases as they are.
    Common,
    /// Restarts the DNS workload when the run changed its configuration.
    CoreDnsConfig,
    /// Removes the operator's resource definitions after an uninstall.
    PrometheusOperatorConfig,
}

/// A deployable unit: its settings, the kind of run it gets, and the
/// phases of its run. Each phase takes the reply to a pending request and
/// says what the run waits for next; [`HelmChart::run`] hands each reply
/// to the phase that the pending request belongs to. The phases as they are given here
/// are those of the three kinds of units of the library. A unit with
/// phases of its own writes them itself and says so in `is_standard`; of
/// its run it is only known that it keeps belonging to the unit.
pub trait HelmChart {
    /// The unit's settings.
    spec fn chart_view(&self) -> ChartInfoView;

    /// The kind of run of the unit.
    spec fn chart_kind(&self) -> ChartKind;

    /// Whether the phases of the unit are those of its kind, as the
    /// library has them.
    spec fn is_standard(&self) -> bool;

    fn get_chart_info(&self) -> (r: &ChartInfo)
        ensures
            r@ == self.chart_view(),
    ;

    /// The kind of run of the unit.
    fn kind(&self) -> (r: ChartKind)
        ensures
            r == self.chart_kind(),
    ;

    /// The namespace the unit lives in.
    fn namespace(&self) -> (r: String)
        ensures
            r@ == self.chart_view().namespace_string(),
    {
        self.get_chart_info().get_namespace_string()
    }

    /// Prerequisites: takes the reply to the check of a values file.
    fn check_prerequisites(&self, run: ChartRun, reply: ChartReply) -> (next: ChartRun)
        requires
            run@.wf(self.chart_view()),
        ensures
            next@.wf(self.chart_view()),
            self.is_standard() ==> next@ == advance_spec(
                self.chart_kind(),
                self.chart_view(),
                run@,
                reply@,
            ),
    {
        advance(self.kind(), self.get_chart_info(), run, reply)
    }

    /// Pre-execute: takes the reply to a request made before the release
    /// is touched.
    fn pre_exec(&self, run: ChartRun, reply: ChartReply) -> (next: ChartRun)
        requires
            run@.wf(self.chart_view()),
        ensures
            next@.wf(self.chart_view()),
            self.is_standard() ==> next@ == advance_spec(
                self.chart_kind(),
                self.chart_view(),
                run@,
                reply@,
            ),
    {
        advance(self.kind(), self.get_chart_info(), run, reply)
    }

    /// Execute: takes the reply to a request that deploys or destroys the
    /// release.
    fn exec(&self, run: ChartRun, reply: ChartReply) -> (next: ChartRun)
        requires
            run@.wf(self.chart_view()),
        ensures
            next@.wf(self.chart_view()),
            self.is_standard() ==> next@ == advance_spec(
                self.chart_kind(),
                self.chart_view(),
                run@,
                reply@,
            ),
    {
        advance(self.kind(), self.get_chart_info(), run, reply)
    }

    /// Post-execute: takes the reply to a request made after the release
    /// was deployed or destroyed.
    fn post_exec(&self, run: ChartRun, reply: ChartReply) -> (next: ChartRun)
        requires
            run@.wf(self.chart_view()),
        ensures
            next@.wf(self.chart_view()),
            self.is_standard() ==> next@ == advance_spec(
                self.chart_kind(),
                self.chart_view(),
                run@,
                reply@,
            ),
    {
        advance(self.kind(), self.get_chart_info(), run, reply)
    }

    /// The failure hook: takes the reply to the request that collects the
    /// recent events after a failed execute.
    fn on_deploy_failure(&self, run: ChartRun, reply: ChartReply) -> (next: ChartRun)
        requires
            run@.wf(self.chart_view()),
        ensures
            next@.wf(self.chart_view()),
            self.is_standard() ==> next@ == advance_spec(
                self.chart_kind(),
                self.chart_view(),
                run@,
                reply@,
            ),
    {
        advance(self.kind(), self.get_chart_info(), run, reply)
    }

    /// Takes the reply to the pending request of a run and hands it to the
    /// phase that the request belongs to. A finished run stays as it is.
    fn run(&self, run: ChartRun, reply: ChartReply) -> (next: ChartRun)
        requires
            run@.wf(self.chart_view()),
        ensures
            next@.wf(self.chart_view()),
            self.is_standard() ==> next@ == advance_spec(
                self.chart_kind(),
                self.chart_view(),
                run@,
                reply@,
            ),
    {
        match phase(run.step) {
            ChartPhase::Prerequisites => self.check_prerequisites(run, reply),
            ChartPhase::PreExec => self.pre_exec(run, reply),
            ChartPhase::Exec => self.exec(run, reply),
            ChartPhase::OnDeployFailure => self.on_deploy_failure(run, reply),
            ChartPhase::PostExec => self.post_exec(run, reply),
            ChartPhase::Finished => run,
        }
    }
}

/// A unit with the plain run.
pub struct CommonChart {
    pub chart_info: ChartInfo,
}

/// The unit that holds the cluster DNS configuration.
pub struct CoreDNSConfigChart {
    pub chart_info: ChartInfo,
}

/// The unit that holds the monitoring operator's configuration.
pub struct PrometheusOperatorConfigChart {
    pub chart_info: ChartInfo,
}

impl HelmChart for CommonChart {
    open spec fn chart_view(&self) -> ChartInfoView {
        self.chart_info@
    }

    open spec fn chart_kind(&self) -> ChartKind {
        ChartKind::Common
    }

    open spec fn is_standard(&self) -> bool {
        true
    }

    fn get_chart_info(&self) -> (r: &ChartInfo) {
        &self.chart_info
    }

    fn kind(&self) -> (r: ChartKind) {
        ChartKind::Common
    }
}

impl HelmChart for CoreDNSConfigChart {
    open spec fn chart_view(&self) -> ChartInfoView {
        self.chart_info@
    }

    open spec fn chart_kind(&self) -> ChartKind {
        ChartKind::CoreDnsConfig
    }

    open spec fn is_standard(&self) -> bool {
        true
    }

    fn get_chart_info(&self) -> (r: &ChartInfo) {
        &self.chart_info
    }

    fn kind(&self) -> (r: ChartKind) {
        ChartKind::CoreDnsConfig
    }
}

impl HelmChart for PrometheusOperatorConfigChart {
    open spec fn chart_view(&self) -> ChartInfoView {
        self.chart_info@
    }

    open spec fn chart_kind(&self) -> ChartKind {
        ChartKind::PrometheusOperatorConfig
    }

    open spec fn is_standard(&self) -> bool {
        true
    }

    fn get_chart_info(&self) -> (r: &ChartInfo) {
        &self.chart_info
    }

    fn kind(&self) -> (r: ChartKind) {
        ChartKind::PrometheusOperatorConfig
    }
}

/// A unit of any kind, for batches that hold units of several kinds.
pub enum Chart {
    Common(CommonChart),
    CoreDnsConfig(CoreDNSConfigChart),
    PrometheusOperatorConfig(PrometheusOperatorConfigChart),
}

impl HelmChart for Chart {
    open spec fn chart_view(&self) -> ChartInfoView {
        match *self {
            Chart::Common(c) => c.chart_info@,
            Chart::CoreDnsConfig(c) => c.chart_info@,
            Chart::PrometheusOperatorConfig(c) => c.chart_info@,
        }
    }

    open spec fn chart_kind(&self) -> ChartKind {
        match *self {
            Chart::Common(_) => ChartKind::Common,
            Chart::CoreDnsConfig(_) => ChartKind::CoreDnsConfig,
            Chart::PrometheusOperatorConfig(_) => ChartKind::PrometheusOperatorConfig,
        }
    }

    open spec fn is_standard(&self) -> bool {
        true
    }

    fn get_chart_info(&self) -> (r: &ChartInfo) {
        match self {
            Chart::Common(c) => &c.chart_info,
            Chart::CoreDnsConfig(c) => &c.chart_info,
            Chart::PrometheusOperatorConfig(c) => &c.chart_info,
        }
    }

    fn kind(&self) -> (r: ChartKind) {
        match self {
            Chart::Common(_) => ChartKind::Common,
            Chart::CoreDnsConfig(_) => ChartKind::CoreDnsConfig,
            Chart::PrometheusOperatorConfig(_) => ChartKind::PrometheusOperatorConfig,
        }
    }
}

impl Default for CommonChart {
    fn default() -> (r: CommonChart)
        ensures
            r.chart_info@ == ChartInfoView::default_unit(),
    {
        CommonChart { chart_info: ChartInfo::default() }
    }
}

impl Default for CoreDNSConfigChart {
    fn default() -> (r: CoreDNSConfigChart)
        ensures
            r.chart_info@ == ChartInfoView::default_unit(),
    {
        CoreDNSConfigChart { chart_info: ChartInfo::default() }
    }
}

impl Default for PrometheusOperatorConfigChart {
    fn default() -> (r: PrometheusOperatorConfigChart)
        ensures
            r.chart_info@ == ChartInfoView::default_unit(),
    {
        PrometheusOperatorConfigChart { chart_info: ChartInfo::default() }
    }
}

/// What the chart of the shell agent is made from.
pub struct ShellAgentContext<'a> {
    pub api_url: &'a str,
    pub api_token: &'a str,
    pub organization_long_id: &'a uuid::Uuid,
    pub cluster_id: &'a str,
    pub cluster_long_id: &'a uuid::Uuid,
    pub cluster_token: &'a str,
    pub grpc_url: &'a str,
}

/// The value overrides of the shell agent's chart.
pub open spec fn shell_agent_values(
    version: Seq<char>,
    grpc_url: Seq<char>,
    cluster_token: Seq<char>,
    cluster_long_id: uuid::Uuid,
    organization_long_id: uuid::Uuid,
) -> Seq<(Seq<char>, Seq<char>)> {
    seq![
        ("image.tag"@, version),
        ("replicaCount"@, "1"@),
        ("environmentVariables.GRPC_SERVER"@, grpc_url),
        ("environmentVariables.CLUSTER_TOKEN"@, cluster_token),
        ("environmentVariables.CLUSTER_ID"@, uuid_hyphenated(cluster_long_id)),
        ("environmentVariables.ORGANIZATION_ID"@, uuid_hyphenated(organization_long_id)),
        ("resources.limits.cpu"@, "1"@),
        ("resources.requests.cpu"@, "200m"@),
        ("resources.limits.memory"@, "500Mi"@),
        ("resources.requests.memory"@, "100Mi"@),
    ]
}

fn set_value(key: &str, value: String) -> (r: ChartSetValue)
    ensures
        r.key@ == key@,
        r.value@ == value@,
{
    ChartSetValue { key: String::from_str(key), value }
}

/// The chart of the shell agent, from the version of the agent that the
/// caller looked up and the path of the chart: the path is what the caller
/// makes of [`shell_agent_chart_directory`]. Where the version could not be
/// had, the error says so and carries the reason.
pub fn get_chart_for_shell_agent(
    context: ShellAgentContext,
    chart_path: String,
    version: Result<String, String>,
) -> (r: Result<CommonChart, SimpleError>)
    ensures
        match version {
            Ok(v) => r is Ok && r->Ok_0.chart_info@ == (ChartInfoView {
                name: "shell-agent"@,
                path: chart_path@,
                namespace: HelmChartNamespaces::Qovery,
                values: shell_agent_values(
                    v@,
                    context.grpc_url@,
                    context.cluster_token@,
                    *context.cluster_long_id,
                    *context.organization_long_id,
                ),
                ..ChartInfoView::default_unit()
            }),
            Err(e) => r is Err && r->Err_0@ == other_error(
                "Qovery shell agent version couldn't be retrieved. "@ + e@,
            ),
        },
{
    let v = match version {
        Ok(v) => v,
        Err(e) => {
            let msg = concat2("Qovery shell agent version couldn't be retrieved. ", e.as_str());
            return Err(SimpleError::other(msg));
        },
    };
    let mut values: Vec<ChartSetValue> = Vec::new();
    values.push(set_value("image.tag", v));
    values.push(set_value("replicaCount", String::from_str("1")));
    values.push(set_value("environmentVariables.GRPC_SERVER", String::from_str(context.grpc_url)));
    values.push(
        set_value("environmentVariables.CLUSTER_TOKEN", String::from_str(context.cluster_token)),
    );
    values.push(set_value("environmentVariables.CLUSTER_ID", uuid_text(context.cluster_long_id)));
    values.push(
        set_value("environmentVariables.ORGANIZATION_ID", uuid_text(context.organization_long_id)),
    );
    values.push(set_value("resources.limits.cpu", String::from_str("1")));
    values.push(set_value("resources.requests.cpu", String::from_str("200m")));
    values.push(set_value("resources.limits.memory", String::from_str("500Mi")));
    values.push(set_value("resources.requests.memory", String::from_str("100Mi")));
    let chart_info = ChartInfo {
        name: String::from_str("shell-agent"),
        path: chart_path,
        namespace: HelmChartNamespaces::Qovery,
        custom_namespace: None,
        action: HelmAction::Deploy,
        atomic: true,
        force_upgrade: false,
        last_breaking_version_requiring_restart: None,
        timeout_in_seconds: 180,
        dry_run: false,
        wait: true,
        values,
        values_files: Vec::new(),
        yaml_files_content: Vec::new(),
        parse_stderr_for_error: true,
    };
    assert(chart_info@.values =~= shell_agent_values(
        v@,
        context.grpc_url@,
        context.cluster_token@,
        *context.cluster_long_id,
        *context.organization_long_id,
    ));
    assert(chart_info@.values_files =~= Seq::empty());
    assert(chart_info@.yaml_files_content =~= Seq::empty());
    Ok(CommonChart { chart_info })
}

} // verus!
