//! A router: the stateless service that brings requests to applications.

use crate::cloud_provider::helm::HelmHistoryRow;
use crate::cloud_provider::service::{
    check_domains, details_of, first_unresolved, get_event_details, is_details_of, is_service_call, service_call, Action,
    ServiceCall, ServiceTask, ServiceType, Timeout,
};
use crate::cloud_provider::utilities::{action_line, sanitize_name, sanitized};
use crate::error::{
    cannot_copy_message, domain_not_available_message, CommandError, EngineError, Tag,
};
use crate::events::{EngineEvent, EnvironmentStep, EventDetails, EventMessage, Stage, Transmitter};
use crate::models::{Context, CustomDomain, Route};
use crate::cloud_provider::aws::application::{first_public_port, Application};
use crate::cloud_provider::service::is_warning;
use crate::cloud_provider::template::{
    flag_entry, records_entry, records_view, text_entry, Record, Scalar, ScalarView,
    TemplateContext, TemplateValueView,
};
use crate::text::{concat2, concat3, cut, cut_spec, trim_end, trimmed_end};
use vstd::prelude::*;

verus! {

pub struct Router {
    pub context: Context,
    pub id: String,
    pub name: String,
    pub action: Action,
    pub default_domain: String,
    pub custom_domains: Vec<CustomDomain>,
    pub sticky_sessions_enabled: bool,
    pub routes: Vec<Route>,
}

/// What was found out about the name record of the custom domain at place
/// `i`, where anything was.
pub open spec fn found_at(replies: Seq<Result<String, String>>, i: int) -> Option<
    Result<String, String>,
> {
    if 0 <= i < replies.len() {
        Some(replies[i])
    } else {
        None
    }
}

/// What was found out about a name record, as a text: the name it points
/// to, or why that could not be found out.
pub open spec fn reply_text(reply: Option<Result<String, String>>) -> Option<Seq<char>> {
    match reply {
        Some(Ok(c)) => Some(c@),
        Some(Err(e)) => Some(e@),
        None => None,
    }
}

/// Whether the name record of a custom domain is known to point where it
/// has to: the two names are the same once the dots at their ends are left
/// out.
pub open spec fn points_to(reply: Option<Result<String, String>>, target: Seq<char>) -> bool {
    reply matches Some(Ok(c)) && trimmed_end(c@, '.') == trimmed_end(target, '.')
}

/// The safe message of the warning for a custom domain that does not point
/// where it has to.
pub open spec fn invalid_cname_message(domain: Seq<char>) -> Seq<char> {
    "Invalid CNAME for "@ + domain + ". Might not be an issue if user is using a CDN."@
}

/// The custom domains up to `n` that are not known to point where they
/// have to, by their places.
pub open spec fn misdirected(
    domains: Seq<CustomDomain>,
    replies: Seq<Result<String, String>>,
    n: int,
) -> Seq<int>
    decreases n,
{
    if n <= 0 {
        Seq::empty()
    } else if points_to(found_at(replies, n - 1), domains[n - 1].target_domain@) {
        misdirected(domains, replies, n - 1)
    } else {
        misdirected(domains, replies, n - 1).push(n - 1)
    }
}

/// What a reference to what was found out refers to.
pub open spec fn found(reply: Option<&Result<String, String>>) -> Option<Result<String, String>> {
    match reply {
        Some(r) => Some(*r),
        None => None,
    }
}

/// What the creation of a router waits for.
#[derive(Clone, Copy, Debug, PartialEq, Eq, Structural)]
pub enum RouterCreateStep {
    /// Where is the configuration of the cluster kept?
    GetKubeconfig,
    /// Render the configuration of the router. This comes after the
    /// cluster is known to be reachable: the configuration holds the
    /// address of the ingress controller.
    RenderContext,
    /// Copy the rendered chart into the workspace.
    CopyTemplates,
    /// Upgrade the release and report the last entry of its history.
    UpgradeRelease,
    /// Nothing is pending.
    Finished,
}

/// What the caller reports of the step it performed.
#[derive(Debug)]
pub enum RouterReply {
    /// It succeeded.
    Done,
    /// It failed with a failure of the engine, which is surfaced as it is.
    Failed(EngineError),
    /// An outside command failed.
    CommandFailed(CommandError),
    /// The release was upgraded; this is the last entry of its history,
    /// where it has one.
    History(Option<HelmHistoryRow>),
}

/// The creation of a router in progress.
#[derive(Debug)]
pub struct RouterCreate {
    pub step: RouterCreateStep,
    pub failure: Option<EngineError>,
}

impl Router {
    pub fn new(
        context: Context,
        id: &str,
        name: &str,
        action: Action,
        default_domain: &str,
        custom_domains: Vec<CustomDomain>,
        routes: Vec<Route>,
        sticky_sessions_enabled: bool,
    ) -> (r: Router)
        ensures
            r.context == context,
            r.id@ == id@,
            r.name@ == name@,
            r.action == action,
            r.default_domain@ == default_domain@,
            r.custom_domains == custom_domains,
            r.sticky_sessions_enabled == sticky_sessions_enabled,
            r.routes == routes,
    {
        Router {
            context,
            id: String::from_str(id),
            name: String::from_str(name),
            action,
            default_domain: String::from_str(default_domain),
            custom_domains,
            sticky_sessions_enabled,
            routes,
        }
    }

    pub fn cloud_provider_name(&self) -> (r: &'static str)
        ensures
            r@ == "aws"@,
    {
        "aws"
    }

    pub fn struct_name(&self) -> (r: &'static str)
        ensures
            r@ == "router"@,
    {
        "router"
    }

    pub fn context(&self) -> (r: &Context)
        ensures
            *r == self.context,
    {
        &self.context
    }

    pub fn service_type(&self) -> (r: ServiceType)
        ensures
            r == ServiceType::Router,
    {
        ServiceType::Router
    }

    pub fn id(&self) -> (r: &str)
        ensures
            r@ == self.id@,
    {
        self.id.as_str()
    }

    pub fn name(&self) -> (r: &str)
        ensures
            r@ == self.name@,
    {
        self.name.as_str()
    }

    pub fn sanitized_name(&self) -> (r: String)
        ensures
            r@ == sanitized("router"@, self.name@),
    {
        sanitize_name("router", self.name.as_str())
    }

    pub fn version(&self) -> (r: String)
        ensures
            r@ == "1.0"@,
    {
        String::from_str("1.0")
    }

    pub fn action(&self) -> (r: &Action)
        ensures
            *r == self.action,
    {
        &self.action
    }

    pub fn private_port(&self) -> (r: Option<u16>)
        ensures
            r is None,
    {
        None
    }

    pub fn start_timeout(&self) -> (r: Timeout)
        ensures
            r == Timeout::Default,
    {
        Timeout::Default
    }

    pub fn total_cpus(&self) -> (r: String)
        ensures
            r@ == "1"@,
    {
        String::from_str("1")
    }

    pub fn total_ram_in_mib(&self) -> (r: u32)
        ensures
            r == 1,
    {
        1
    }

    pub fn min_instances(&self) -> (r: u32)
        ensures
            r == 1,
    {
        1
    }

    pub fn max_instances(&self) -> (r: u32)
        ensures
            r == 1,
    {
        1
    }

    pub fn publicly_accessible(&self) -> (r: bool)
        ensures
            !r,
    {
        false
    }

    pub fn selector(&self) -> (r: Option<String>)
        ensures
            r is Some,
            r->0@ == "routerId="@ + self.id@,
    {
        Some(concat2("routerId=", self.id.as_str()))
    }

    pub fn helm_selector(&self) -> (r: Option<String>)
        ensures
            r is Some,
            r->0@ == "routerId="@ + self.id@,
    {
        self.selector()
    }

    /// The domain of the router at a place: the default one first, then
    /// the custom ones.
    pub open spec fn domain_at(&self, i: int) -> Seq<char> {
        if i == 0 {
            self.default_domain@
        } else {
            self.custom_domains@[i - 1].domain@
        }
    }

    /// The domains of the router: the default one, then the custom ones.
    pub fn domains(&self) -> (r: Vec<&str>)
        ensures
            r@.len() == self.custom_domains@.len() + 1,
            forall|i: int| 0 <= i < r@.len() ==> (#[trigger] r@[i])@ == self.domain_at(i),
    {
        let mut domains: Vec<&str> = Vec::new();
        domains.push(self.default_domain.as_str());
        let n: usize = self.custom_domains.len();
        let mut i: usize = 0;
        while i < n
            invariant
                n == self.custom_domains@.len(),
                i <= n,
                domains@.len() == i + 1,
                forall|j: int| 0 <= j < domains@.len() ==> (#[trigger] domains@[j])@ == self.domain_at(j),
            decreases n - i,
        {
            domains.push(self.custom_domains[i].domain.as_str());
            i = i + 1;
        }
        domains
    }

    pub fn has_custom_domains(&self) -> (r: bool)
        ensures
            r == (self.custom_domains@.len() > 0),
    {
        self.custom_domains.len() > 0
    }

    /// The name of the release: `router-<id>`, cut to fifty characters.
    pub fn helm_release_name(&self) -> (r: String)
        ensures
            r@ == cut_spec("router-"@ + self.id@, 50),
    {
        let full = concat2("router-", self.id.as_str());
        cut(full.as_str(), 50)
    }

    pub fn helm_chart_dir(&self) -> (r: String)
        ensures
            r@ == self.context.lib_root_dir@ + "/common/charts/ingress-nginx"@,
    {
        concat2(self.context.lib_root_dir(), "/common/charts/ingress-nginx")
    }

    pub fn helm_chart_values_dir(&self) -> (r: String)
        ensures
            r@ == self.context.lib_root_dir@ + "/aws/chart_values/nginx-ingress"@,
    {
        concat2(self.context.lib_root_dir(), "/aws/chart_values/nginx-ingress")
    }

    pub fn helm_chart_external_name_service_dir(&self) -> (r: String)
        ensures
            r@ == Seq::<char>::empty(),
    {
        String::new()
    }

    /// The directory that the chart of the router is rendered from.
    pub fn template_dir(&self) -> (r: String)
        ensures
            r@ == self.context.lib_root_dir@ + "/aws/charts/q-ingress-tls"@,
    {
        concat2(self.context.lib_root_dir(), "/aws/charts/q-ingress-tls")
    }

    /// The transmitter of the events of this router.
    pub open spec fn transmitter(&self, t: Transmitter) -> bool {
        t matches Transmitter::Router(id, name) && id@ == self.id@ && name@ == self.name@
    }

    pub fn to_transmitter(&self) -> (r: Transmitter)
        ensures
            self.transmitter(r),
    {
        Transmitter::Router(self.id.clone(), self.name.clone())
    }

    /// Whether `details` are those of this router at `step`.
    pub open spec fn is_details(&self, details: EventDetails, step: EnvironmentStep) -> bool {
        exists|t: Transmitter| #[trigger]
            self.transmitter(t) && is_details_of(
                details,
                self.context,
                Stage::Environment(step),
                t,
            )
    }

    fn details(&self, step: EnvironmentStep) -> (r: EventDetails)
        ensures
            self.is_details(r, step),
    {
        let t = self.to_transmitter();
        let r = get_event_details(&self.context, Stage::Environment(step), t);
        assert(self.transmitter(t));
        r
    }

    /// Whether `call` is the operation `fn_name` of this router.
    pub open spec fn is_call(
        &self,
        call: ServiceCall,
        step: EnvironmentStep,
        fn_name: Seq<char>,
        hook: bool,
        progress: Option<Action>,
        task: ServiceTask,
    ) -> bool {
        exists|t: Transmitter| #[trigger]
            self.transmitter(t) && is_service_call(
                call,
                self.context,
                t,
                Stage::Environment(step),
                action_line("aws"@, "router"@, fn_name, self.name@),
                hook,
                progress,
                task,
            )
    }

    fn call(
        &self,
        step: EnvironmentStep,
        fn_name: &str,
        hook: bool,
        progress: Option<Action>,
        task: ServiceTask,
    ) -> (r: ServiceCall)
        ensures
            self.is_call(r, step, fn_name@, hook, progress, task),
    {
        let t = self.to_transmitter();
        let r = service_call(
            &self.context,
            t,
            Stage::Environment(step),
            self.cloud_provider_name(),
            self.struct_name(),
            fn_name,
            self.name.as_str(),
            hook,
            progress,
            task,
        );
        assert(self.transmitter(t));
        r
    }

    /// Begins the creation of the router: the event to log, and the
    /// creation at its first step.
    pub fn on_create(&self) -> (r: (ServiceCall, RouterCreate))
        ensures
            self.is_call(
                r.0,
                EnvironmentStep::Deploy,
                "on_create"@,
                false,
                None,
                ServiceTask::DeployRouter,
            ),
            r.1.step == RouterCreateStep::GetKubeconfig,
            r.1.failure is None,
    {
        let call = self.call(
            EnvironmentStep::Deploy,
            "on_create",
            false,
            None,
            ServiceTask::DeployRouter,
        );
        (call, RouterCreate { step: RouterCreateStep::GetKubeconfig, failure: None })
    }

    /// Whether `next` is the creation `run` after `reply`. The steps follow
    /// one another while they succeed. A failure ends the creation: that
    /// of the engine as it is, that of the copy and that of the upgrade
    /// under their own names. An upgrade whose history does not end in a
    /// deployed entry counts as a failure to deploy.
    pub open spec fn create_advanced(
        &self,
        run: RouterCreate,
        reply: RouterReply,
        workspace_dir: Seq<char>,
        next: RouterCreate,
    ) -> bool {
        match run.step {
            RouterCreateStep::Finished => next == run,
            _ => match reply {
                RouterReply::Failed(e) => next.step == RouterCreateStep::Finished && next.failure
                    == Some(e),
                RouterReply::CommandFailed(c) => next.step == RouterCreateStep::Finished
                    && next.failure is Some && self.is_details(
                    next.failure->0.event_details,
                    EnvironmentStep::Deploy,
                ) && next.failure->0.message is Some && next.failure->0.message->0@ == c@
                    && match run.step {
                    RouterCreateStep::CopyTemplates => next.failure->0.tag
                        == Tag::CannotCopyFilesFromDirectoryToDirectory
                        && next.failure->0.user_log_message@ == cannot_copy_message(
                        self.context.lib_root_dir@ + "/aws/charts/q-ingress-tls"@,
                        workspace_dir,
                    ),
                    RouterCreateStep::UpgradeRelease => next.failure->0.tag
                        == Tag::HelmChartsUpgradeError && next.failure->0.user_log_message@
                        == "Error while trying to upgrade helm charts."@,
                    _ => next.failure->0.tag == Tag::Unknown && next.failure->0.user_log_message@
                        == c@.message_raw,
                },
                _ => match run.step {
                    RouterCreateStep::GetKubeconfig => next.step == RouterCreateStep::RenderContext
                        && next.failure == run.failure,
                    RouterCreateStep::RenderContext => next.step == RouterCreateStep::CopyTemplates
                        && next.failure == run.failure,
                    RouterCreateStep::CopyTemplates => next.step == RouterCreateStep::UpgradeRelease
                        && next.failure == run.failure,
                    _ => next.step == RouterCreateStep::Finished && (if reply matches RouterReply::History(
                        Some(row),
                    ) && row.deployed() {
                        next.failure == run.failure
                    } else {
                        next.failure is Some && next.failure->0.tag == Tag::RouterFailedToDeploy
                            && self.is_details(
                            next.failure->0.event_details,
                            EnvironmentStep::Deploy,
                        ) && next.failure->0.user_log_message@
                            == "Router has failed to be deployed."@ && next.failure->0.message is None
                    }),
                },
            },
        }
    }

    /// Takes the reply to the pending step of the creation.
    pub fn on_create_advance(&self, run: RouterCreate, reply: RouterReply, workspace_dir: &str) -> (next:
        RouterCreate)
        ensures
            self.create_advanced(run, reply, workspace_dir@, next),
    {
        match run.step {
            RouterCreateStep::Finished => run,
            _ => match reply {
                RouterReply::Failed(e) => RouterCreate {
                    step: RouterCreateStep::Finished,
                    failure: Some(e),
                },
                RouterReply::CommandFailed(c) => {
                    let details = self.details(EnvironmentStep::Deploy);
                    let failure = match run.step {
                        RouterCreateStep::CopyTemplates => {
                            EngineError::new_cannot_copy_files_from_one_directory_to_another(
                                details,
                                self.template_dir(),
                                String::from_str(workspace_dir),
                                c,
                            )
                        },
                        RouterCreateStep::UpgradeRelease => {
                            EngineError::new_helm_charts_upgrade_error(details, c)
                        },
                        _ => EngineError::new_from_command(details, c),
                    };
                    RouterCreate { step: RouterCreateStep::Finished, failure: Some(failure) }
                },
                RouterReply::Done | RouterReply::History(_) => match run.step {
                    RouterCreateStep::GetKubeconfig => RouterCreate {
                        step: RouterCreateStep::RenderContext,
                        failure: run.failure,
                    },
                    RouterCreateStep::RenderContext => RouterCreate {
                        step: RouterCreateStep::CopyTemplates,
                        failure: run.failure,
                    },
                    RouterCreateStep::CopyTemplates => RouterCreate {
                        step: RouterCreateStep::UpgradeRelease,
                        failure: run.failure,
                    },
                    _ => {
                        let deployed = match &reply {
                            RouterReply::History(Some(row)) => row.is_successfully_deployed(),
                            _ => false,
                        };
                        if deployed {
                            RouterCreate { step: RouterCreateStep::Finished, failure: run.failure }
                        } else {
                            let details = self.details(EnvironmentStep::Deploy);
                            RouterCreate {
                                step: RouterCreateStep::Finished,
                                failure: Some(EngineError::new_router_failed_to_deploy(details)),
                            }
                        }
                    },
                },
            },
        }
    }

    /// Whether `event` is the warning for a custom domain that is not
    /// known to point where it has to: the warning names the domain and
    /// carries what was found out about it, where anything was, as its
    /// details.
    pub open spec fn is_cname_warning(
        &self,
        event: EngineEvent,
        domain: Seq<char>,
        reply: Option<Result<String, String>>,
    ) -> bool {
        &&& self.is_details(details_of(event), EnvironmentStep::Deploy)
        &&& is_warning(event, invalid_cname_message(domain), reply_text(reply))
    }

    /// The warning for one custom domain, from what was found out about
    /// its name record: none where the record points to the target of the
    /// domain. A record that points elsewhere, one that could not be read,
    /// and one of which nothing was found out give a warning.
    pub fn check_cname(&self, domain: &CustomDomain, reply: Option<&Result<String, String>>) -> (r:
        Option<EngineEvent>)
        ensures
            match r {
                None => points_to(found(reply), domain.target_domain@),
                Some(event) => !points_to(found(reply), domain.target_domain@)
                    && self.is_cname_warning(event, domain.domain@, found(reply)),
            },
    {
        let details = match reply {
            Some(Ok(cname)) => {
                let a = trim_end(cname.as_str(), '.');
                let b = trim_end(domain.target_domain.as_str(), '.');
                if a == b {
                    return None;
                }
                Some(cname.clone())
            },
            Some(Err(e)) => Some(e.clone()),
            None => None,
        };
        let message = concat3(
            "Invalid CNAME for ",
            domain.domain.as_str(),
            ". Might not be an issue if user is using a CDN.",
        );
        Some(
            EngineEvent::Warning(
                self.details(EnvironmentStep::Deploy),
                EventMessage::new(message, details),
            ),
        )
    }

    /// Checks the router after its creation. Only the domain that the
    /// router has of its own has to be reachable: where it does not
    /// resolve, the check fails and names it. The custom domains never
    /// fail the check. `cnames` holds what was found out about the name
    /// record of each of them, in their order: one that is not known to
    /// point to its target gives a warning, since a domain may well be
    /// fronted by someone else. A custom domain of which `cnames` says
    /// nothing gives a warning without details, and what `cnames` says
    /// beyond the custom domains is of no account.
    pub fn on_create_check(&self, default_resolved: bool, cnames: &Vec<Result<String, String>>) -> (r:
        Result<Vec<EngineEvent>, EngineError>)
        ensures
            match r {
                Err(e) => !default_resolved && e.tag == Tag::DomainNotAvailable && self.is_details(
                    e.event_details,
                    EnvironmentStep::Deploy,
                ) && e.user_log_message@ == domain_not_available_message(self.default_domain@)
                    && e.message is None,
                Ok(warnings) => default_resolved && ({
                    let places = misdirected(
                        self.custom_domains@,
                        cnames@,
                        self.custom_domains@.len() as int,
                    );
                    &&& warnings@.len() == places.len()
                    &&& forall|k: int|
                        0 <= k < places.len() ==> self.is_cname_warning(
                            #[trigger] warnings@[k],
                            self.custom_domains@[places[k]].domain@,
                            found_at(cnames@, places[k]),
                        )
                }),
            },
    {
        let mut own: Vec<String> = Vec::new();
        own.push(self.default_domain.clone());
        let mut resolved: Vec<bool> = Vec::new();
        resolved.push(default_resolved);
        proof {
            reveal_with_fuel(first_unresolved, 3);
        }
        match check_domains(&own, &resolved, self.details(EnvironmentStep::Deploy)) {
            Err(e) => {
                return Err(e);
            },
            Ok(_) => {},
        }
        let mut warnings: Vec<EngineEvent> = Vec::new();
        let n: usize = self.custom_domains.len();
        let known: usize = cnames.len();
        let mut i: usize = 0;
        while i < n
            invariant
                n == self.custom_domains@.len(),
                known == cnames@.len(),
                i <= n,
                warnings@.len() == misdirected(self.custom_domains@, cnames@, i as int).len(),
                forall|k: int|
                    0 <= k < warnings@.len() ==> self.is_cname_warning(
                        #[trigger] warnings@[k],
                        self.custom_domains@[misdirected(
                            self.custom_domains@,
                            cnames@,
                            i as int,
                        )[k]].domain@,
                        found_at(cnames@, misdirected(self.custom_domains@, cnames@, i as int)[k]),
                    ),
            decreases n - i,
        {
            let reply = if i < known {
                Some(&cnames[i])
            } else {
                None
            };
            assert(found(reply) == found_at(cnames@, i as int));
            match self.check_cname(&self.custom_domains[i], reply) {
                Some(event) => {
                    warnings.push(event);
                },
                None => {},
            }
            i = i + 1;
        }
        Ok(warnings)
    }

    /// Cleans up after a failed creation.
    pub fn on_create_error(&self) -> (r: ServiceCall)
        ensures
            self.is_call(
                r,
                EnvironmentStep::Deploy,
                "on_create_error"@,
                true,
                Some(Action::Create),
                ServiceTask::DeployStatelessServiceError,
            ),
    {
        self.call(
            EnvironmentStep::Deploy,
            "on_create_error",
            true,
            Some(Action::Create),
            ServiceTask::DeployStatelessServiceError,
        )
    }

    /// A router has nothing to pause.
    pub fn on_pause(&self) -> (r: ServiceCall)
        ensures
            self.is_call(r, EnvironmentStep::Pause, "on_pause"@, false, None, ServiceTask::Nothing),
    {
        self.call(EnvironmentStep::Pause, "on_pause", false, None, ServiceTask::Nothing)
    }

    /// There is nothing to check before a router is paused.
    pub fn on_pause_check(&self) -> (r: Result<(), EngineError>)
        ensures
            r is Ok,
    {
        Ok(())
    }

    /// After a failed pause there is nothing to do but to say so.
    pub fn on_pause_error(&self) -> (r: ServiceCall)
        ensures
            self.is_call(
                r,
                EnvironmentStep::Pause,
                "on_pause_error"@,
                true,
                None,
                ServiceTask::Nothing,
            ),
    {
        self.call(EnvironmentStep::Pause, "on_pause_error", true, None, ServiceTask::Nothing)
    }

    /// Deletes the router.
    pub fn on_delete(&self) -> (r: ServiceCall)
        ensures
            self.is_call(
                r,
                EnvironmentStep::Delete,
                "on_delete"@,
                false,
                None,
                ServiceTask::DeleteRouter { is_error: false },
            ),
    {
        self.call(
            EnvironmentStep::Delete,
            "on_delete",
            false,
            None,
            ServiceTask::DeleteRouter { is_error: false },
        )
    }

    /// There is nothing to check before a router is deleted.
    pub fn on_delete_check(&self) -> (r: Result<(), EngineError>)
        ensures
            r is Ok,
    {
        Ok(())
    }

    /// Deletes what a failed delete left behind.
    pub fn on_delete_error(&self) -> (r: ServiceCall)
        ensures
            self.is_call(
                r,
                EnvironmentStep::Delete,
                "on_delete_error"@,
                true,
                None,
                ServiceTask::DeleteRouter { is_error: true },
            ),
    {
        self.call(
            EnvironmentStep::Delete,
            "on_delete_error",
            true,
            None,
            ServiceTask::DeleteRouter { is_error: true },
        )
    }
}

/// The place of the first application of this name, if any.
pub open spec fn find_application(applications: Seq<Application>, name: Seq<char>) -> Option<int>
    decreases applications.len(),
{
    if applications.len() == 0 {
        None
    } else if applications[0].name@ == name {
        Some(0)
    } else {
        match find_application(applications.drop_first(), name) {
            Some(i) => Some(i + 1),
            None => None,
        }
    }
}

/// The first application of a name is one before which none has the name.
pub proof fn lemma_find_application(applications: Seq<Application>, name: Seq<char>, i: int)
    requires
        0 <= i <= applications.len(),
        forall|j: int| 0 <= j < i ==> (#[trigger] applications[j]).name@ != name,
        i < applications.len() ==> applications[i].name@ == name,
    ensures
        find_application(applications, name) == if i < applications.len() {
            Some(i)
        } else {
            None
        },
    decreases i,
{
    if i > 0 {
        let tail = applications.drop_first();
        assert(applications[0].name@ != name);
        assert forall|j: int| 0 <= j < i - 1 implies (#[trigger] tail[j]).name@ != name by {
            assert(tail[j] == applications[j + 1]);
        }
        if i < applications.len() {
            assert(tail[i - 1] == applications[i]);
        }
        lemma_find_application(tail, name, i - 1);
    }
}

/// The record of a route: none where no application has the name that the
/// route asks for, or where the first one of that name has no publicly
/// accessible port.
pub open spec fn route_record(route: Route, applications: Seq<Application>) -> Option<
    Seq<(Seq<char>, ScalarView)>,
> {
    match find_application(applications, route.application_name@) {
        Some(i) => match first_public_port(applications[i].ports@) {
            Some(port) => Some(
                seq![
                    ("path"@, ScalarView::Text(route.path@)),
                    ("application_name"@, ScalarView::Text(sanitized("app"@, applications[i].name@))),
                    ("application_port"@, ScalarView::Number(port as u64)),
                ],
            ),
            None => None,
        },
        None => None,
    }
}

/// The records of the first `n` routes, in order.
pub open spec fn route_records(routes: Seq<Route>, applications: Seq<Application>, n: int) -> Seq<
    Seq<(Seq<char>, ScalarView)>,
>
    decreases n,
{
    if n <= 0 {
        Seq::empty()
    } else {
        match route_record(routes[n - 1], applications) {
            Some(r) => route_records(routes, applications, n - 1).push(r),
            None => route_records(routes, applications, n - 1),
        }
    }
}

/// The checksum of the custom domain at place `i`, where one was given.
pub open spec fn hash_at(domain_hashes: Seq<String>, i: int) -> Option<Seq<char>> {
    if 0 <= i < domain_hashes.len() {
        Some(domain_hashes[i]@)
    } else {
        None
    }
}

/// The record of a custom domain with its checksum; the checksum is absent
/// where none was given.
pub open spec fn custom_domain_record(domain: CustomDomain, hash: Option<Seq<char>>) -> Seq<
    (Seq<char>, ScalarView),
> {
    seq![
        ("domain"@, ScalarView::Text(domain.domain@)),
        (
            "domain_hash"@,
            match hash {
                Some(h) => ScalarView::Text(h),
                None => ScalarView::Absent,
            },
        ),
        ("target_domain"@, ScalarView::Text(domain.target_domain@)),
    ]
}

/// The values of the ingress controller of a router.
pub open spec fn nginx_entries() -> Seq<(Seq<char>, TemplateValueView)> {
    seq![
        text_entry("nginx_enable_horizontal_autoscaler"@, "false"@),
        text_entry("nginx_minimum_replicas"@, "1"@),
        text_entry("nginx_maximum_replicas"@, "10"@),
        text_entry("nginx_requests_cpu"@, "200m"@),
        text_entry("nginx_requests_memory"@, "128Mi"@),
        text_entry("nginx_limit_cpu"@, "200m"@),
        text_entry("nginx_limit_memory"@, "128Mi"@),
    ]
}

/// The directory of the certificate authority: the staging one for a test
/// cluster.
pub open spec fn acme_server(test_cluster: bool) -> Seq<char> {
    if test_cluster {
        "https://acme-staging-v02.api.letsencrypt.org/directory"@
    } else {
        "https://acme-v02.api.letsencrypt.org/directory"@
    }
}

fn find_app<'a>(applications: &'a Vec<Application>, name: &str) -> (r: Option<&'a Application>)
    ensures
        match find_application(applications@, name@) {
            Some(i) => r == Some(&applications@[i]),
            None => r is None,
        },
{
    let wanted = String::from_str(name);
    let n: usize = applications.len();
    let mut i: usize = 0;
    while i < n
        invariant
            n == applications@.len(),
            i <= n,
            wanted@ == name@,
            forall|j: int| 0 <= j < i ==> (#[trigger] applications@[j]).name@ != name@,
        decreases n - i,
    {
        if applications[i].name == wanted {
            proof {
                lemma_find_application(applications@, name@, i as int);
            }
            return Some(&applications[i]);
        }
        i = i + 1;
    }
    proof {
        lemma_find_application(applications@, name@, n as int);
    }
    None
}

impl Router {
    fn route_records(&self, applications: &Vec<Application>) -> (r: Vec<Record>)
        ensures
            records_view(r@) == route_records(
                self.routes@,
                applications@,
                self.routes@.len() as int,
            ),
    {
        let mut records: Vec<Record> = Vec::new();
        let n: usize = self.routes.len();
        let mut i: usize = 0;
        assert(records_view(records@) =~= route_records(self.routes@, applications@, 0));
        while i < n
            invariant
                n == self.routes@.len(),
                i <= n,
                records_view(records@) == route_records(self.routes@, applications@, i as int),
            decreases n - i,
        {
            let route = &self.routes[i];
            match find_app(applications, route.application_name.as_str()) {
                Some(application) => match application.private_port() {
                    Some(port) => {
                        let mut record = Record::new();
                        record.push("path", Scalar::Text(route.path.clone()));
                        record.push("application_name", Scalar::Text(application.sanitized_name()));
                        record.push("application_port", Scalar::Number(port as u64));
                        assert(Some(record@) =~= route_record(self.routes@[i as int], applications@));
                        let ghost before = records_view(records@);
                        records.push(record);
                        assert(records_view(records@) =~= before.push(record@));
                    },
                    None => {},
                },
                None => {},
            }
            i = i + 1;
        }
        records
    }

    fn custom_domain_records(&self, domain_hashes: &Vec<String>) -> (r: Vec<Record>)
        ensures
            records_view(r@) == Seq::new(
                self.custom_domains@.len(),
                |i: int| custom_domain_record(self.custom_domains@[i], hash_at(domain_hashes@, i)),
            ),
    {
        let mut records: Vec<Record> = Vec::new();
        let n: usize = self.custom_domains.len();
        let known: usize = domain_hashes.len();
        let mut i: usize = 0;
        while i < n
            invariant
                n == self.custom_domains@.len(),
                known == domain_hashes@.len(),
                i <= n,
                records@.len() == i,
                forall|j: int|
                    0 <= j < i ==> (#[trigger] records@[j])@ == custom_domain_record(
                        self.custom_domains@[j],
                        hash_at(domain_hashes@, j),
                    ),
            decreases n - i,
        {
            let domain = &self.custom_domains[i];
            let hash = if i < known {
                Scalar::Text(domain_hashes[i].clone())
            } else {
                Scalar::Absent
            };
            let mut record = Record::new();
            record.push("domain", Scalar::Text(domain.domain.clone()));
            record.push("domain_hash", hash);
            record.push("target_domain", Scalar::Text(domain.target_domain.clone()));
            assert(record@ =~= custom_domain_record(
                self.custom_domains@[i as int],
                hash_at(domain_hashes@, i as int),
            ));
            records.push(record);
            i = i + 1;
        }
        assert(records_view(records@) =~= Seq::new(
            self.custom_domains@.len(),
            |i: int| custom_domain_record(self.custom_domains@[i], hash_at(domain_hashes@, i)),
        ));
        records
    }

    /// The values that say under which names the router is reached and
    /// where it brings the requests.
    pub open spec fn domain_entries(
        &self,
        applications: Seq<Application>,
        domain_hashes: Seq<String>,
        default_domain_hash: Seq<char>,
        dns_domain: Seq<char>,
    ) -> Seq<(Seq<char>, TemplateValueView)> {
        seq![
            text_entry("router_tls_domain"@, "*."@ + dns_domain),
            text_entry("router_default_domain"@, self.default_domain@),
            text_entry("router_default_domain_hash"@, default_domain_hash),
            records_entry(
                "custom_domains"@,
                Seq::new(
                    self.custom_domains@.len(),
                    |i: int| custom_domain_record(self.custom_domains@[i], hash_at(domain_hashes, i)),
                ),
            ),
            records_entry(
                "routes"@,
                route_records(self.routes@, applications, self.routes@.len() as int),
            ),
        ]
    }

    /// The values that say how the router gets its certificates.
    pub open spec fn certificate_entries(&self) -> Seq<(Seq<char>, TemplateValueView)> {
        seq![
            text_entry("spec_acme_email"@, "tls@qovery.com"@),
            text_entry("metadata_annotations_cert_manager_cluster_issuer"@, "letsencrypt-qovery"@),
            text_entry("spec_acme_server"@, acme_server(self.context.test_cluster)),
            flag_entry("sticky_sessions_enabled"@, self.sticky_sessions_enabled),
        ]
    }

    /// The values that the router adds to its configuration. The address
    /// of the ingress controller is among them only where it is known.
    pub open spec fn context_entries(
        &self,
        applications: Seq<Application>,
        domain_hashes: Seq<String>,
        default_domain_hash: Seq<char>,
        ingress_hostname: Result<Option<String>, String>,
        dns_domain: Seq<char>,
    ) -> Seq<(Seq<char>, TemplateValueView)> {
        nginx_entries() + (match ingress_hostname {
            Ok(Some(hostname)) => seq![text_entry("external_ingress_hostname_default"@, hostname@)],
            _ => Seq::empty(),
        }) + self.domain_entries(applications, domain_hashes, default_domain_hash, dns_domain)
            + self.certificate_entries()
    }

    fn add_nginx_entries(context: &mut TemplateContext)
        ensures
            final(context)@ == old(context)@ + nginx_entries(),
    {
        context.insert_text("nginx_enable_horizontal_autoscaler", "false");
        context.insert_text("nginx_minimum_replicas", "1");
        context.insert_text("nginx_maximum_replicas", "10");
        context.insert_text("nginx_requests_cpu", "200m");
        context.insert_text("nginx_requests_memory", "128Mi");
        context.insert_text("nginx_limit_cpu", "200m");
        context.insert_text("nginx_limit_memory", "128Mi");
        assert(context@ =~= old(context)@ + nginx_entries());
    }

    fn add_domain_entries(
        &self,
        context: &mut TemplateContext,
        applications: &Vec<Application>,
        domain_hashes: &Vec<String>,
        default_domain_hash: &str,
        dns_domain: &str,
    )
        ensures
            final(context)@ == old(context)@ + self.domain_entries(
                applications@,
                domain_hashes@,
                default_domain_hash@,
                dns_domain@,
            ),
    {
        let tls_domain = concat2("*.", dns_domain);
        context.insert_text("router_tls_domain", tls_domain.as_str());
        context.insert_text("router_default_domain", self.default_domain.as_str());
        context.insert_text("router_default_domain_hash", default_domain_hash);
        context.insert_records("custom_domains", self.custom_domain_records(domain_hashes));
        context.insert_records("routes", self.route_records(applications));
        assert(context@ =~= old(context)@ + self.domain_entries(
            applications@,
            domain_hashes@,
            default_domain_hash@,
            dns_domain@,
        ));
    }

    fn add_certificate_entries(&self, context: &mut TemplateContext)
        ensures
            final(context)@ == old(context)@ + self.certificate_entries(),
    {
        context.insert_text("spec_acme_email", "tls@qovery.com");
        context.insert_text("metadata_annotations_cert_manager_cluster_issuer", "letsencrypt-qovery");
        let lets_encrypt_url = if self.context.is_test_cluster() {
            "https://acme-staging-v02.api.letsencrypt.org/directory"
        } else {
            "https://acme-v02.api.letsencrypt.org/directory"
        };
        context.insert_text("spec_acme_server", lets_encrypt_url);
        context.insert_flag("sticky_sessions_enabled", self.sticky_sessions_enabled);
        assert(context@ =~= old(context)@ + self.certificate_entries());
    }

    /// The safe message of the warning for an address of the ingress
    /// controller that is not known: by whether the cluster answered.
    pub open spec fn no_ingress_message(ingress_hostname: Result<Option<String>, String>) -> Seq<
        char,
    > {
        match ingress_hostname {
            Ok(_) =>
                "unable to get external_ingress_hostname_default - what's wrong? This must never happened"@,
            Err(_) => "can't fetch kubernetes config file - what's wrong? This must never happened"@,
        }
    }

    /// The configuration of the router: the values of `base`, then those
    /// of the router. `applications` are the applications of the
    /// environment, and `ingress_hostname` is what the cluster said of the
    /// address of its ingress controller: where that address is not known,
    /// the configuration does without it and a warning says so.
    /// `domain_hashes` holds the checksums of the custom domains in their
    /// order: a custom domain without one has none in its record, and
    /// checksums beyond the custom domains are of no account.
    pub fn tera_context(
        &self,
        base: TemplateContext,
        applications: &Vec<Application>,
        domain_hashes: &Vec<String>,
        default_domain_hash: &str,
        ingress_hostname: Result<Option<String>, String>,
        dns_domain: &str,
    ) -> (r: (Option<EngineEvent>, TemplateContext))
        ensures
            r.1@ == base@ + self.context_entries(
                applications@,
                domain_hashes@,
                default_domain_hash@,
                ingress_hostname,
                dns_domain@,
            ),
            match r.0 {
                Some(event) => !(ingress_hostname matches Ok(Some(_))) && is_warning(
                    event,
                    Self::no_ingress_message(ingress_hostname),
                    None,
                ) && self.is_details(details_of(event), EnvironmentStep::LoadConfiguration),
                None => ingress_hostname matches Ok(Some(_)),
            },
    {
        let mut context = base;
        Self::add_nginx_entries(&mut context);
        let warning = match &ingress_hostname {
            Ok(Some(hostname)) => {
                context.insert_text("external_ingress_hostname_default", hostname.as_str());
                None
            },
            Ok(None) => Some(
                EngineEvent::Warning(
                    self.details(EnvironmentStep::LoadConfiguration),
                    EventMessage::new_from_safe(
                        String::from_str(
                            "unable to get external_ingress_hostname_default - what's wrong? This must never happened",
                        ),
                    ),
                ),
            ),
            Err(_) => Some(
                EngineEvent::Warning(
                    self.details(EnvironmentStep::LoadConfiguration),
                    EventMessage::new_from_safe(
                        String::from_str(
                            "can't fetch kubernetes config file - what's wrong? This must never happened",
                        ),
                    ),
                ),
            ),
        };
        let ghost middle = context@;
        assert(middle =~= base@ + nginx_entries() + (match ingress_hostname {
            Ok(Some(hostname)) => seq![text_entry("external_ingress_hostname_default"@, hostname@)],
            _ => Seq::empty(),
        }));
        self.add_domain_entries(
            &mut context,
            applications,
            domain_hashes,
            default_domain_hash,
            dns_domain,
        );
        self.add_certificate_entries(&mut context);
        assert(context@ =~= base@ + self.context_entries(
            applications@,
            domain_hashes@,
            default_domain_hash@,
            ingress_hostname,
            dns_domain@,
        ));
        (warning, context)
    }
}

} // verus!
