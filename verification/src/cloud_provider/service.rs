//! What all resources have in common: their kinds, what is asked of them,
//! and the protocol by which an operation on one of them is driven.

use crate::cloud_provider::utilities::action_line;
use crate::cloud_provider::utilities::action_message;
use crate::error::{CommandError, EngineError, Tag};
use crate::events::{EngineEvent, EventDetails, EventMessage, Stage, Transmitter};
use crate::models::{Context, DatabaseMode};
use crate::text::concat2;
use vstd::prelude::*;

verus! {

/// What is asked of a resource.
#[derive(Clone, Copy, Debug, PartialEq, Eq, Structural)]
pub enum Action {
    Create,
    Pause,
    Delete,
    Nothing,
}

/// The engines of the databases.
#[derive(Clone, Copy, Debug, PartialEq, Eq, Structural)]
pub enum DatabaseType {
    PostgreSQL,
    MongoDB,
    MySQL,
    Redis,
}

/// The kinds of resources.
#[derive(Clone, Copy, Debug, PartialEq, Eq, Structural)]
pub enum ServiceType {
    Application,
    Database(DatabaseType),
    Router,
}

impl ServiceType {
    /// The name of the kind, as it is shown.
    pub open spec fn name_spec(self) -> Seq<char> {
        match self {
            ServiceType::Application => "Application"@,
            ServiceType::Database(DatabaseType::PostgreSQL) => "PostgreSQL database"@,
            ServiceType::Database(DatabaseType::MongoDB) => "MongoDB database"@,
            ServiceType::Database(DatabaseType::MySQL) => "MySQL database"@,
            ServiceType::Database(DatabaseType::Redis) => "Redis database"@,
            ServiceType::Router => "Router"@,
        }
    }

    /// The name of the kind, as it is shown.
    pub fn name(&self) -> (r: String)
        ensures
            r@ == self.name_spec(),
    {
        let name = match self {
            ServiceType::Application => "Application",
            ServiceType::Database(DatabaseType::PostgreSQL) => "PostgreSQL database",
            ServiceType::Database(DatabaseType::MongoDB) => "MongoDB database",
            ServiceType::Database(DatabaseType::MySQL) => "MySQL database",
            ServiceType::Database(DatabaseType::Redis) => "Redis database",
            ServiceType::Router => "Router",
        };
        String::from_str(name)
    }

    pub fn to_string(&self) -> (r: String)
        ensures
            r@ == self.name_spec(),
    {
        self.name()
    }
}

/// How long to wait for a release: the default of the release tool, or a
/// number of seconds.
#[derive(Clone, Copy, Debug, PartialEq, Eq, Structural)]
pub enum Timeout {
    Default,
    Value(u32),
}

/// The shape of a workload that is scaled: with volumes of its own it is a
/// stateful set, else a deployment.
#[derive(Clone, Copy, Debug, PartialEq, Eq, Structural)]
pub enum ScalingKind {
    Deployment,
    Statefulset,
}

/// The settings of a database.
#[derive(Debug)]
pub struct DatabaseOptions {
    pub login: String,
    pub password: String,
    pub host: String,
    pub port: u16,
    pub mode: DatabaseMode,
    pub disk_size_in_gib: u32,
    pub database_disk_type: String,
    pub encrypt_disk: bool,
    pub activate_high_availability: bool,
    pub activate_backups: bool,
    pub publicly_accessible: bool,
}

/// The work behind an operation of a resource, for the caller to perform.
#[derive(Clone, Copy, Debug, PartialEq, Eq, Structural)]
pub enum ServiceTask {
    /// Render the configuration and deploy the charts of a stateless service.
    DeployStatelessService,
    /// Clean up after the failed deployment of a stateless service.
    DeployStatelessServiceError,
    /// Scale the workload of an application.
    ScaleDownApplication { replicas: u32, kind: ScalingKind },
    /// Destroy the charts of a stateless service; `is_error` where this
    /// follows a failed delete.
    DeleteStatelessService { is_error: bool },
    /// Provision and deploy a stateful service.
    DeployStatefulService,
    /// Scale a database through the means of its provider.
    ScaleDownDatabase { replicas: u32 },
    /// Destroy a stateful service.
    DeleteStatefulService,
    /// Render, upgrade and check the release of a router.
    DeployRouter,
    /// Destroy the release of a router; `is_error` where this follows a
    /// failed delete.
    DeleteRouter { is_error: bool },
    /// Nothing is to be done.
    Nothing,
}

/// An operation of a resource as it is handed to the caller: the event to
/// log first, the action to report progress for while the work lasts, and
/// the work itself.
#[derive(Debug)]
pub struct ServiceCall {
    pub event: EngineEvent,
    pub progress: Option<Action>,
    pub task: ServiceTask,
}

/// The replicas of a workload that had `before` of them, once a task is
/// performed.
pub open spec fn replicas_after(task: ServiceTask, before: nat) -> nat {
    match task {
        ServiceTask::ScaleDownApplication { replicas, .. } => replicas as nat,
        ServiceTask::ScaleDownDatabase { replicas } => replicas as nat,
        _ => before,
    }
}

/// Whether an event is the line of an operation: a warning for the hook
/// that follows a failure, else an information; with the given details and
/// the line as a message that is safe as a whole.
pub open spec fn is_action_event(
    event: EngineEvent,
    hook: bool,
    details: EventDetails,
    line: Seq<char>,
) -> bool {
    match event {
        EngineEvent::Warning(d, m) => hook && d == details && m.safe_message@ == line
            && m.full_details is None,
        EngineEvent::Info(d, m) => !hook && d == details && m.safe_message@ == line
            && m.full_details is None,
        _ => false,
    }
}

/// The event that says which operation of which resource begins.
pub fn print_action(
    cloud_provider_name: &str,
    struct_name: &str,
    fn_name: &str,
    item_name: &str,
    event_details: EventDetails,
    hook: bool,
) -> (r: EngineEvent)
    ensures
        is_action_event(
            r,
            hook,
            event_details,
            action_line(cloud_provider_name@, struct_name@, fn_name@, item_name@),
        ),
{
    let msg = action_message(cloud_provider_name, struct_name, fn_name, item_name);
    if hook {
        EngineEvent::Warning(event_details, EventMessage::new_from_safe(msg))
    } else {
        EngineEvent::Info(event_details, EventMessage::new_from_safe(msg))
    }
}

/// The details of the events of a resource at a stage: the identifiers of
/// the request, and the resource as the transmitter.
pub fn get_event_details(context: &Context, stage: Stage, transmitter: Transmitter) -> (r:
    EventDetails)
    ensures
        r.provider_kind is None,
        r.organisation_id@ == context.organization_id@,
        r.cluster_id@ == context.cluster_id@,
        r.execution_id@ == context.execution_id@,
        r.region is None,
        r.stage == stage,
        r.transmitter == transmitter,
{
    EventDetails {
        provider_kind: None,
        organisation_id: context.organization_id.clone(),
        cluster_id: context.cluster_id.clone(),
        execution_id: context.execution_id.clone(),
        region: None,
        stage,
        transmitter,
    }
}

/// The details of an event; those of its failure for an error.
pub open spec fn details_of(event: EngineEvent) -> EventDetails {
    match event {
        EngineEvent::Debug(d, _) => d,
        EngineEvent::Info(d, _) => d,
        EngineEvent::Warning(d, _) => d,
        EngineEvent::Error(e, _) => e.event_details,
    }
}

/// Whether an event is a warning with this safe message and these details
/// for operators.
pub open spec fn is_warning(event: EngineEvent, safe: Seq<char>, full: Option<Seq<char>>) -> bool {
    &&& event matches EngineEvent::Warning(_, m)
    &&& m.safe_message@ == safe
    &&& match full {
        Some(f) => m.full_details is Some && m.full_details->0@ == f,
        None => m.full_details is None,
    }
}

/// Whether details are those of a resource of a request at a stage.
pub open spec fn is_details_of(
    details: EventDetails,
    context: Context,
    stage: Stage,
    transmitter: Transmitter,
) -> bool {
    &&& details.provider_kind is None
    &&& details.organisation_id@ == context.organization_id@
    &&& details.cluster_id@ == context.cluster_id@
    &&& details.execution_id@ == context.execution_id@
    &&& details.region is None
    &&& details.stage == stage
    &&& details.transmitter == transmitter
}

/// Whether a call is the operation `fn_name` of a resource: its event is
/// the line of the operation with the details of the resource at the stage,
/// and it asks for the given progress and the given work.
pub open spec fn is_service_call(
    call: ServiceCall,
    context: Context,
    transmitter: Transmitter,
    stage: Stage,
    line: Seq<char>,
    hook: bool,
    progress: Option<Action>,
    task: ServiceTask,
) -> bool {
    &&& is_action_event(call.event, hook, details_of(call.event), line)
    &&& is_details_of(details_of(call.event), context, stage, transmitter)
    &&& call.progress == progress
    &&& call.task == task
}

/// The operation `fn_name` of a resource as it is handed to the caller.
pub fn service_call(
    context: &Context,
    transmitter: Transmitter,
    stage: Stage,
    cloud_provider_name: &str,
    struct_name: &str,
    fn_name: &str,
    item_name: &str,
    hook: bool,
    progress: Option<Action>,
    task: ServiceTask,
) -> (r: ServiceCall)
    ensures
        is_service_call(
            r,
            *context,
            transmitter,
            stage,
            action_line(cloud_provider_name@, struct_name@, fn_name@, item_name@),
            hook,
            progress,
            task,
        ),
{
    let details = get_event_details(context, stage, transmitter);
    let event = print_action(cloud_provider_name, struct_name, fn_name, item_name, details, hook);
    ServiceCall { event, progress, task }
}

/// Whether the domain at place `i` was found to resolve. A domain of which
/// nothing was found out does not count as resolving.
pub open spec fn resolves(resolved: Seq<bool>, i: int) -> bool {
    0 <= i < resolved.len() && resolved[i]
}

/// The place of the first of the domains from `i` up to `n` that was not
/// found to resolve; `n` where all were.
pub open spec fn first_unresolved(resolved: Seq<bool>, i: int, n: int) -> int
    decreases n - i,
{
    if i >= n {
        n
    } else if !resolves(resolved, i) {
        i
    } else {
        first_unresolved(resolved, i + 1, n)
    }
}

/// The first unresolved domain is one that was not found to resolve and
/// before which all were.
pub proof fn law_first_unresolved_is_the_earliest(resolved: Seq<bool>, i: int, n: int)
    requires
        0 <= i <= n,
    ensures
        i <= first_unresolved(resolved, i, n) <= n,
        first_unresolved(resolved, i, n) < n ==> !resolves(
            resolved,
            first_unresolved(resolved, i, n),
        ),
        forall|j: int| i <= j < first_unresolved(resolved, i, n) ==> resolves(resolved, j),
    decreases n - i,
{
    if i < n && resolves(resolved, i) {
        law_first_unresolved_is_the_earliest(resolved, i + 1, n);
    }
}

/// Whether the resource may count as reachable, from what was found out
/// about its domains one by one: it may where all of them resolve; the
/// first that does not blocks it, with a failure that names the domain. A
/// domain of which `resolved` says nothing does not count as resolving,
/// and what `resolved` says beyond the domains is of no account.
pub fn check_domains(domains: &Vec<String>, resolved: &Vec<bool>, event_details: EventDetails) -> (r:
    Result<(), EngineError>)
    ensures
        match r {
            Ok(_) => first_unresolved(resolved@, 0, domains@.len() as int) == domains@.len(),
            Err(e) => 0 <= first_unresolved(resolved@, 0, domains@.len() as int) < domains@.len()
                && e.tag == Tag::DomainNotAvailable && e.event_details == event_details
                && e.user_log_message@ == crate::error::domain_not_available_message(
                domains@[first_unresolved(resolved@, 0, domains@.len() as int)]@,
            ) && e.message is None,
        },
{
    let n: usize = domains.len();
    let known: usize = resolved.len();
    let mut i: usize = 0;
    while i < n
        invariant
            n == domains@.len(),
            known == resolved@.len(),
            i <= n,
            first_unresolved(resolved@, 0, n as int) == first_unresolved(resolved@, i as int, n as int),
        decreases n - i,
    {
        let found = i < known && resolved[i];
        if !found {
            return Err(EngineError::new_domain_not_available(event_details, domains[i].as_str()));
        }
        i = i + 1;
    }
    Ok(())
}

/// The outcome of looking a requested version up: the version that stands
/// for it, and a note where the two differ.
#[derive(Debug)]
pub struct ServiceVersionCheckResult {
    pub requested_version: String,
    pub matched_version: String,
    pub message: Option<String>,
}

/// The note for a requested version that another version stands for.
pub open spec fn version_note(kind: Seq<char>, requested: Seq<char>, matched: Seq<char>) -> Seq<
    char,
> {
    kind + " version `"@ + requested + "` has been requested by the user; but matching version is `"@
        + matched + "`"@
}

/// Turns a look-up of a version into the outcome for the resource: the
/// matched version, with a note where it differs from the requested one; a
/// failure of the engine where the version is not supported.
pub fn check_service_version(
    result: Result<String, CommandError>,
    service_type: ServiceType,
    requested: &str,
    event_details: EventDetails,
) -> (r: Result<ServiceVersionCheckResult, EngineError>)
    ensures
        match result {
            Ok(v) => r is Ok && r->Ok_0.requested_version@ == requested@
                && r->Ok_0.matched_version@ == v@ && (if v@ == requested@ {
                r->Ok_0.message is None
            } else {
                r->Ok_0.message is Some && r->Ok_0.message->0@ == version_note(
                    service_type.name_spec(),
                    requested@,
                    v@,
                )
            }),
            Err(e) => r is Err && r->Err_0.tag == Tag::UnsupportedVersion
                && r->Err_0.event_details == event_details && r->Err_0.user_log_message@
                == e@.message_raw && r->Err_0.message is Some && r->Err_0.message->0@ == e@,
        },
{
    match result {
        Ok(version) => {
            let wanted = String::from_str(requested);
            let message = if version == wanted {
                None
            } else {
                let kind = service_type.name();
                let mut m = concat2(kind.as_str(), " version `");
                m.append(requested);
                m.append("` has been requested by the user; but matching version is `");
                m.append(version.as_str());
                m.append("`");
                Some(m)
            };
            Ok(ServiceVersionCheckResult { requested_version: wanted, matched_version: version, message })
        },
        Err(e) => Err(EngineError::new_unsupported_version_error(event_details, e)),
    }
}

/// Where the operation on a resource stands.
#[derive(Clone, Copy, Debug, PartialEq, Eq, Structural)]
pub enum LifecyclePhase {
    /// Nothing was done yet.
    Idle,
    /// The check of the operation is pending.
    Checking,
    /// The operation itself is pending.
    Executing,
    /// The operation or its check failed; the error hook is pending.
    Recovering,
    /// The operation succeeded.
    Succeeded,
    /// The operation failed.
    Failed,
}

/// The operation on one resource: what is asked, where it stands, the
/// failure it ends with, and the failure of the error hook, which is a
/// warning only.
#[derive(Debug)]
pub struct Lifecycle {
    pub action: Action,
    pub phase: LifecyclePhase,
    pub failure: Option<EngineError>,
    pub warning: Option<EngineError>,
}

/// What the caller is to call next on the resource.
#[derive(Clone, Copy, Debug, PartialEq, Eq, Structural)]
pub enum LifecycleRequest {
    /// The check that belongs to the action.
    Check(Action),
    /// The operation that belongs to the action.
    Execute(Action),
    /// The error hook that belongs to the action.
    Recover(Action),
}

/// The operation once it has begun: its check is pending; where nothing is
/// asked, it has succeeded.
pub open spec fn begin_spec(l: Lifecycle) -> Lifecycle {
    if l.phase == LifecyclePhase::Idle {
        Lifecycle {
            phase: if l.action == Action::Nothing {
                LifecyclePhase::Succeeded
            } else {
                LifecyclePhase::Checking
            },
            ..l
        }
    } else {
        l
    }
}

/// The operation after the report on what was pending.
pub open spec fn lifecycle_advance_spec(l: Lifecycle, report: Result<(), EngineError>) -> Lifecycle {
    match l.phase {
        LifecyclePhase::Checking => match report {
            Ok(_) => Lifecycle { phase: LifecyclePhase::Executing, ..l },
            Err(e) => Lifecycle { phase: LifecyclePhase::Recovering, failure: Some(e), ..l },
        },
        LifecyclePhase::Executing => match report {
            Ok(_) => Lifecycle { phase: LifecyclePhase::Succeeded, ..l },
            Err(e) => Lifecycle { phase: LifecyclePhase::Recovering, failure: Some(e), ..l },
        },
        LifecyclePhase::Recovering => match report {
            Ok(_) => Lifecycle { phase: LifecyclePhase::Failed, ..l },
            Err(w) => Lifecycle { phase: LifecyclePhase::Failed, warning: Some(w), ..l },
        },
        _ => l,
    }
}

/// What is pending in a phase.
pub open spec fn lifecycle_request_spec(l: Lifecycle) -> Option<LifecycleRequest> {
    match l.phase {
        LifecyclePhase::Checking => Some(LifecycleRequest::Check(l.action)),
        LifecyclePhase::Executing => Some(LifecycleRequest::Execute(l.action)),
        LifecyclePhase::Recovering => Some(LifecycleRequest::Recover(l.action)),
        _ => None,
    }
}

impl Lifecycle {
    /// The operation for an action, before anything was done.
    pub fn new(action: Action) -> (r: Lifecycle)
        ensures
            r == (Lifecycle { action, phase: LifecyclePhase::Idle, failure: None, warning: None }),
    {
        Lifecycle { action, phase: LifecyclePhase::Idle, failure: None, warning: None }
    }

    /// Begins the operation.
    pub fn begin(self) -> (r: Lifecycle)
        ensures
            r == begin_spec(self),
    {
        match self.phase {
            LifecyclePhase::Idle => {
                let phase = match self.action {
                    Action::Nothing => LifecyclePhase::Succeeded,
                    _ => LifecyclePhase::Checking,
                };
                Lifecycle {
                    action: self.action,
                    phase,
                    failure: self.failure,
                    warning: self.warning,
                }
            },
            _ => self,
        }
    }

    /// Takes the report on what was pending. A failed check keeps the
    /// operation from being executed. After a failure the error hook is
    /// called; whatever it reports, the operation ends with the failure
    /// that came first, and the hook's own failure is kept as a warning.
    pub fn advance(self, report: Result<(), EngineError>) -> (r: Lifecycle)
        ensures
            r == lifecycle_advance_spec(self, report),
    {
        match self.phase {
            LifecyclePhase::Checking => match report {
                Ok(_) => Lifecycle {
                    action: self.action,
                    phase: LifecyclePhase::Executing,
                    failure: self.failure,
                    warning: self.warning,
                },
                Err(e) => Lifecycle {
                    action: self.action,
                    phase: LifecyclePhase::Recovering,
                    failure: Some(e),
                    warning: self.warning,
                },
            },
            LifecyclePhase::Executing => match report {
                Ok(_) => Lifecycle {
                    action: self.action,
                    phase: LifecyclePhase::Succeeded,
                    failure: self.failure,
                    warning: self.warning,
                },
                Err(e) => Lifecycle {
                    action: self.action,
                    phase: LifecyclePhase::Recovering,
                    failure: Some(e),
                    warning: self.warning,
                },
            },
            LifecyclePhase::Recovering => match report {
                Ok(_) => Lifecycle {
                    action: self.action,
                    phase: LifecyclePhase::Failed,
                    failure: self.failure,
                    warning: self.warning,
                },
                Err(w) => Lifecycle {
                    action: self.action,
                    phase: LifecyclePhase::Failed,
                    failure: self.failure,
                    warning: Some(w),
                },
            },
            _ => self,
        }
    }

    /// What the caller is to call next; nothing before the operation has
    /// begun and after it has ended.
    pub fn request(&self) -> (r: Option<LifecycleRequest>)
        ensures
            r == lifecycle_request_spec(*self),
    {
        match self.phase {
            LifecyclePhase::Checking => Some(LifecycleRequest::Check(self.action)),
            LifecyclePhase::Executing => Some(LifecycleRequest::Execute(self.action)),
            LifecyclePhase::Recovering => Some(LifecycleRequest::Recover(self.action)),
            _ => None,
        }
    }

    /// The outcome of the operation once it has ended: the failure that
    /// came first, or success.
    pub fn into_outcome(self) -> (r: Option<Result<(), EngineError>>)
        ensures
            r == match self.phase {
                LifecyclePhase::Succeeded => Some(Ok::<(), EngineError>(())),
                LifecyclePhase::Failed => match self.failure {
                    Some(e) => Some(Err::<(), EngineError>(e)),
                    None => Some(Ok::<(), EngineError>(())),
                },
                _ => None,
            },
    {
        match self.phase {
            LifecyclePhase::Succeeded => Some(Ok(())),
            LifecyclePhase::Failed => match self.failure {
                Some(e) => Some(Err(e)),
                None => Some(Ok(())),
            },
            _ => None,
        }
    }
}

/// The operation after a sequence of reports.
pub open spec fn lifecycle_after(l: Lifecycle, reports: Seq<Result<(), EngineError>>) -> Lifecycle
    decreases reports.len(),
{
    if reports.len() == 0 {
        l
    } else {
        lifecycle_advance_spec(lifecycle_after(l, reports.drop_last()), reports.last())
    }
}

/// The error hook never changes the failure of an operation: whatever the
/// hook reports, the operation ends as failed with the failure it had.
pub proof fn law_error_hook_keeps_the_failure(l: Lifecycle, report: Result<(), EngineError>)
    requires
        l.phase == LifecyclePhase::Recovering,
    ensures
        lifecycle_advance_spec(l, report).phase == LifecyclePhase::Failed,
        lifecycle_advance_spec(l, report).failure == l.failure,
{
}

/// An operation is executed only after its check has succeeded, and it
/// succeeds only after it was executed with success.
pub proof fn law_check_comes_before_execution(l: Lifecycle, report: Result<(), EngineError>)
    ensures
        lifecycle_advance_spec(l, report).phase == LifecyclePhase::Executing && l.phase
            != LifecyclePhase::Executing ==> l.phase == LifecyclePhase::Checking && report is Ok,
        lifecycle_advance_spec(l, report).phase == LifecyclePhase::Succeeded && l.phase
            != LifecyclePhase::Succeeded ==> l.phase == LifecyclePhase::Executing && report is Ok,
        lifecycle_advance_spec(l, report).phase == LifecyclePhase::Recovering && l.phase
            != LifecyclePhase::Recovering ==> report is Err && lifecycle_advance_spec(
            l,
            report,
        ).failure == Some(report->Err_0),
{
}

/// Once an operation has ended, in success or in failure, no report
/// changes it; and a failure, once it is there, stays whatever follows.
pub proof fn law_outcome_is_final(l: Lifecycle, reports: Seq<Result<(), EngineError>>)
    ensures
        l.phase == LifecyclePhase::Succeeded || l.phase == LifecyclePhase::Failed
            ==> lifecycle_after(l, reports) == l,
        l.phase == LifecyclePhase::Recovering ==> lifecycle_after(l, reports).failure == l.failure
            && (lifecycle_after(l, reports).phase == LifecyclePhase::Recovering || lifecycle_after(
            l,
            reports,
        ).phase == LifecyclePhase::Failed),
    decreases reports.len(),
{
    if reports.len() > 0 {
        law_outcome_is_final(l, reports.drop_last());
    }
}

} // verus!
