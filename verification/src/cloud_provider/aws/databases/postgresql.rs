//! A PostgreSQL database: a stateful service, run by the cloud provider or
//! in the cluster.

use crate::cloud_provider::service::{
    check_domains, check_service_version, is_service_call, replicas_after, service_call, version_note, Action,
    DatabaseOptions, DatabaseType, ServiceCall, ServiceTask, ServiceType, ServiceVersionCheckResult,
    Timeout,
};
use crate::cloud_provider::utilities::{
    action_line, get_supported_version_to_use, lookup_view, managed_db_name,
    managed_db_name_sanitizer, supported_version,
};
use crate::cloud_provider::versions::{generate_supported_version, supported_versions};
use crate::error::{CommandError, EngineError, Tag};
use crate::events::{EnvironmentStep, EventDetails, Stage, Transmitter};
use crate::models::{Context, DatabaseMode};
use crate::cloud_provider::service::{get_event_details, is_details_of};
use crate::cloud_provider::template::{
    flag_entry, number_entry, text_entry, TemplateContext, TemplateValueView,
};
use crate::text::{concat2, concat3};
use crate::text_map::TextMap;
use vstd::prelude::*;

verus! {

pub struct PostgreSQL {
    pub context: Context,
    pub id: String,
    pub action: Action,
    pub name: String,
    pub version: String,
    pub fqdn: String,
    pub fqdn_id: String,
    pub total_cpus: String,
    pub total_ram_in_mib: u32,
    pub database_instance_type: String,
    pub options: DatabaseOptions,
}

/// The longest name that a managed database and its workload can have.
pub open spec fn max_name_size() -> nat {
    60
}

impl PostgreSQL {
    pub fn new(
        context: Context,
        id: &str,
        action: Action,
        name: &str,
        version: &str,
        fqdn: &str,
        fqdn_id: &str,
        total_cpus: String,
        total_ram_in_mib: u32,
        database_instance_type: &str,
        options: DatabaseOptions,
    ) -> (r: PostgreSQL)
        ensures
            r.context == context,
            r.id@ == id@,
            r.action == action,
            r.name@ == name@,
            r.version@ == version@,
            r.fqdn@ == fqdn@,
            r.fqdn_id@ == fqdn_id@,
            r.total_cpus == total_cpus,
            r.total_ram_in_mib == total_ram_in_mib,
            r.database_instance_type@ == database_instance_type@,
            r.options == options,
    {
        PostgreSQL {
            context,
            action,
            id: String::from_str(id),
            name: String::from_str(name),
            version: String::from_str(version),
            fqdn: String::from_str(fqdn),
            fqdn_id: String::from_str(fqdn_id),
            total_cpus,
            total_ram_in_mib,
            database_instance_type: String::from_str(database_instance_type),
            options,
        }
    }

    /// The version that stands for the requested one, with a note where
    /// the two differ; a failure where the requested one is not supported.
    pub fn matching_correct_version(
        &self,
        is_managed_services: bool,
        event_details: EventDetails,
    ) -> (r: Result<ServiceVersionCheckResult, EngineError>)
        ensures
            match postgres_version(self.version@, is_managed_services) {
                Ok(v) => r is Ok && r->Ok_0.requested_version@ == self.version@
                    && r->Ok_0.matched_version@ == v && (if v == self.version@ {
                    r->Ok_0.message is None
                } else {
                    r->Ok_0.message is Some && r->Ok_0.message->0@ == version_note(
                        ServiceType::Database(DatabaseType::PostgreSQL).name_spec(),
                        self.version@,
                        v,
                    )
                }),
                Err(e) => r is Err && r->Err_0.tag == Tag::UnsupportedVersion
                    && r->Err_0.event_details == event_details && r->Err_0.user_log_message@
                    == e.message_raw && r->Err_0.message is Some && r->Err_0.message->0@ == e,
            },
    {
        check_service_version(
            get_postgres_version(self.version(), is_managed_services),
            self.service_type(),
            self.version.as_str(),
            event_details,
        )
    }

    pub fn cloud_provider_name(&self) -> (r: &'static str)
        ensures
            r@ == "aws"@,
    {
        "aws"
    }

    pub fn struct_name(&self) -> (r: &'static str)
        ensures
            r@ == "postgresql"@,
    {
        "postgresql"
    }

    /// Whether the cloud provider runs the database.
    pub fn is_managed_service(&self) -> (r: bool)
        ensures
            r == (self.options.mode == DatabaseMode::MANAGED),
    {
        match self.options.mode {
            DatabaseMode::MANAGED => true,
            DatabaseMode::CONTAINER => false,
        }
    }

    /// The transmitter of the events of this database.
    pub open spec fn transmitter(&self, t: Transmitter) -> bool {
        t matches Transmitter::Database(id, db_type, name) && id@ == self.id@ && db_type@
            == ServiceType::Database(DatabaseType::PostgreSQL).name_spec() && name@ == self.name@
    }

    pub fn to_transmitter(&self) -> (r: Transmitter)
        ensures
            self.transmitter(r),
    {
        Transmitter::Database(self.id.clone(), self.service_type().to_string(), self.name.clone())
    }

    pub fn context(&self) -> (r: &Context)
        ensures
            *r == self.context,
    {
        &self.context
    }

    pub fn service_type(&self) -> (r: ServiceType)
        ensures
            r == ServiceType::Database(DatabaseType::PostgreSQL),
    {
        ServiceType::Database(DatabaseType::PostgreSQL)
    }

    pub fn id(&self) -> (r: &str)
        ensures
            r@ == self.id@,
    {
        self.id.as_str()
    }

    pub fn name(&self) -> (r: &str)
        ensures
            r@ == self.name@,
    {
        self.name.as_str()
    }

    /// The name of the database at the cloud provider: `postgresql` and the
    /// name without underscores and hyphens, as far as fifty characters
    /// more.
    pub fn sanitized_name(&self) -> (r: String)
        ensures
            r@ == managed_db_name(max_name_size(), "postgresql"@, self.name@),
    {
        let prefix = "postgresql";
        proof {
            reveal_strlit("postgresql");
        }
        let max_size: usize = 63 - 3;
        managed_db_name_sanitizer(max_size, prefix, self.name.as_str())
    }

    pub fn version(&self) -> (r: String)
        ensures
            r@ == self.version@,
    {
        self.version.clone()
    }

    pub fn action(&self) -> (r: &Action)
        ensures
            *r == self.action,
    {
        &self.action
    }

    pub fn private_port(&self) -> (r: Option<u16>)
        ensures
            r == Some(self.options.port),
    {
        Some(self.options.port)
    }

    pub fn start_timeout(&self) -> (r: Timeout)
        ensures
            r == Timeout::Default,
    {
        Timeout::Default
    }

    pub fn total_cpus(&self) -> (r: String)
        ensures
            r@ == self.total_cpus@,
    {
        self.total_cpus.clone()
    }

    pub fn total_ram_in_mib(&self) -> (r: u32)
        ensures
            r == self.total_ram_in_mib,
    {
        self.total_ram_in_mib
    }

    /// A database runs as one instance.
    pub fn min_instances(&self) -> (r: u32)
        ensures
            r == 1,
    {
        1
    }

    /// A database runs as one instance.
    pub fn max_instances(&self) -> (r: u32)
        ensures
            r == 1,
    {
        1
    }

    pub fn publicly_accessible(&self) -> (r: bool)
        ensures
            r == self.options.publicly_accessible,
    {
        self.options.publicly_accessible
    }

    pub fn selector(&self) -> (r: Option<String>)
        ensures
            r is Some,
            r->0@ == "app="@ + managed_db_name(max_name_size(), "postgresql"@, self.name@),
    {
        let name = self.sanitized_name();
        Some(concat2("app=", name.as_str()))
    }

    pub fn helm_selector(&self) -> (r: Option<String>)
        ensures
            r is Some,
            r->0@ == "app="@ + managed_db_name(max_name_size(), "postgresql"@, self.name@),
    {
        self.selector()
    }

    /// The name of the release: `postgresql-<id>`, cut to fifty characters.
    pub fn helm_release_name(&self) -> (r: String)
        ensures
            r@ == crate::text::cut_spec("postgresql-"@ + self.id@, 50),
    {
        let full = concat2("postgresql-", self.id.as_str());
        crate::text::cut(full.as_str(), 50)
    }

    pub fn helm_chart_dir(&self) -> (r: String)
        ensures
            r@ == self.context.lib_root_dir@ + "/common/services/postgresql"@,
    {
        concat2(self.context.lib_root_dir(), "/common/services/postgresql")
    }

    pub fn helm_chart_values_dir(&self) -> (r: String)
        ensures
            r@ == self.context.lib_root_dir@ + "/aws/chart_values/postgresql"@,
    {
        concat2(self.context.lib_root_dir(), "/aws/chart_values/postgresql")
    }

    pub fn helm_chart_external_name_service_dir(&self) -> (r: String)
        ensures
            r@ == self.context.lib_root_dir@ + "/common/charts/external-name-svc"@,
    {
        concat2(self.context.lib_root_dir(), "/common/charts/external-name-svc")
    }

    pub fn terraform_common_resource_dir_path(&self) -> (r: String)
        ensures
            r@ == self.context.lib_root_dir@ + "/aws/services/common"@,
    {
        concat2(self.context.lib_root_dir(), "/aws/services/common")
    }

    pub fn terraform_resource_dir_path(&self) -> (r: String)
        ensures
            r@ == self.context.lib_root_dir@ + "/aws/services/postgresql"@,
    {
        concat2(self.context.lib_root_dir(), "/aws/services/postgresql")
    }

    /// Whether `call` is the operation `fn_name` of this database.
    pub open spec fn is_call(
        &self,
        call: ServiceCall,
        step: EnvironmentStep,
        fn_name: Seq<char>,
        hook: bool,
        progress: Option<Action>,
        task: ServiceTask,
    ) -> bool {
        exists|t: Transmitter| #[trigger]
            self.transmitter(t) && is_service_call(
                call,
                self.context,
                t,
                Stage::Environment(step),
                action_line("aws"@, "postgresql"@, fn_name, self.name@),
                hook,
                progress,
                task,
            )
    }

    fn call(
        &self,
        step: EnvironmentStep,
        fn_name: &str,
        hook: bool,
        progress: Option<Action>,
        task: ServiceTask,
    ) -> (r: ServiceCall)
        ensures
            self.is_call(r, step, fn_name@, hook, progress, task),
    {
        let t = self.to_transmitter();
        let r = service_call(
            &self.context,
            t,
            Stage::Environment(step),
            self.cloud_provider_name(),
            self.struct_name(),
            fn_name,
            self.name.as_str(),
            hook,
            progress,
            task,
        );
        assert(self.transmitter(t));
        r
    }

    /// Provisions and deploys the database.
    pub fn on_create(&self) -> (r: ServiceCall)
        ensures
            self.is_call(
                r,
                EnvironmentStep::Deploy,
                "on_create"@,
                false,
                Some(Action::Create),
                ServiceTask::DeployStatefulService,
            ),
    {
        self.call(
            EnvironmentStep::Deploy,
            "on_create",
            false,
            Some(Action::Create),
            ServiceTask::DeployStatefulService,
        )
    }

    /// The domains that have to resolve before the database counts as
    /// created: its own.
    pub fn domains(&self) -> (r: Vec<String>)
        ensures
            r@.len() == 1,
            r@[0]@ == self.fqdn@,
    {
        let mut domains: Vec<String> = Vec::new();
        domains.push(self.fqdn.clone());
        domains
    }

    /// Checks the database after its creation, given whether its domain
    /// resolves: a domain that does not blocks the creation.
    pub fn on_create_check(&self, resolved: bool) -> (r: Result<(), EngineError>)
        ensures
            match r {
                Ok(_) => resolved,
                Err(e) => !resolved && e.tag == Tag::DomainNotAvailable && self.is_details(
                    e.event_details,
                    EnvironmentStep::Deploy,
                ) && e.user_log_message@ == crate::error::domain_not_available_message(self.fqdn@)
                    && e.message is None,
            },
    {
        let domains = self.domains();
        let mut found: Vec<bool> = Vec::new();
        found.push(resolved);
        proof {
            reveal_with_fuel(crate::cloud_provider::service::first_unresolved, 3);
        }
        check_domains(&domains, &found, self.details(EnvironmentStep::Deploy))
    }

    /// After a failed creation there is nothing to do but to say so.
    pub fn on_create_error(&self) -> (r: ServiceCall)
        ensures
            self.is_call(
                r,
                EnvironmentStep::Deploy,
                "on_create_error"@,
                true,
                None,
                ServiceTask::Nothing,
            ),
    {
        self.call(EnvironmentStep::Deploy, "on_create_error", true, None, ServiceTask::Nothing)
    }

    /// The task that pauses the database: it is scaled to no replica by the
    /// means of its provider.
    pub open spec fn pause_task(&self) -> ServiceTask {
        ServiceTask::ScaleDownDatabase { replicas: 0 }
    }

    /// Pauses the database.
    pub fn on_pause(&self) -> (r: ServiceCall)
        ensures
            self.is_call(
                r,
                EnvironmentStep::Pause,
                "on_pause"@,
                false,
                Some(Action::Pause),
                self.pause_task(),
            ),
    {
        self.call(
            EnvironmentStep::Pause,
            "on_pause",
            false,
            Some(Action::Pause),
            ServiceTask::ScaleDownDatabase { replicas: 0 },
        )
    }

    /// There is nothing to check before a database is paused.
    pub fn on_pause_check(&self) -> (r: Result<(), EngineError>)
        ensures
            r is Ok,
    {
        Ok(())
    }

    /// After a failed pause there is nothing to do but to say so.
    pub fn on_pause_error(&self) -> (r: ServiceCall)
        ensures
            self.is_call(
                r,
                EnvironmentStep::Pause,
                "on_pause_error"@,
                true,
                None,
                ServiceTask::Nothing,
            ),
    {
        self.call(EnvironmentStep::Pause, "on_pause_error", true, None, ServiceTask::Nothing)
    }

    /// Deletes the database.
    pub fn on_delete(&self) -> (r: ServiceCall)
        ensures
            self.is_call(
                r,
                EnvironmentStep::Delete,
                "on_delete"@,
                false,
                Some(Action::Delete),
                ServiceTask::DeleteStatefulService,
            ),
    {
        self.call(
            EnvironmentStep::Delete,
            "on_delete",
            false,
            Some(Action::Delete),
            ServiceTask::DeleteStatefulService,
        )
    }

    /// There is nothing to check before a database is deleted.
    pub fn on_delete_check(&self) -> (r: Result<(), EngineError>)
        ensures
            r is Ok,
    {
        Ok(())
    }

    /// After a failed delete there is nothing to do but to say so.
    pub fn on_delete_error(&self) -> (r: ServiceCall)
        ensures
            self.is_call(
                r,
                EnvironmentStep::Delete,
                "on_delete_error"@,
                true,
                None,
                ServiceTask::Nothing,
            ),
    {
        self.call(EnvironmentStep::Delete, "on_delete_error", true, None, ServiceTask::Nothing)
    }

    /// Pausing is idempotent: the task of a pause leaves the database
    /// without replicas, so on a database that is paused already it
    /// changes nothing, and performing it twice is performing it once.
    pub proof fn law_pause_is_idempotent(&self, replicas: nat)
        ensures
            replicas_after(self.pause_task(), 0) == 0,
            replicas_after(self.pause_task(), replicas_after(self.pause_task(), replicas))
                == replicas_after(self.pause_task(), replicas),
    {
    }
}

/// The versions that the cloud provider runs: 10.1 to 10.18 without 10.2
/// and 10.8, 11.1 to 11.13 without 11.3, 12.2 to 12.8, and 13.1 to 13.4;
/// each of 10, 11, 12 and 13 stands for its latest.
pub open spec fn managed_postgres_versions() -> Map<Seq<char>, Seq<char>> {
    Map::<Seq<char>, Seq<char>>::empty().union_prefer_right(
        supported_versions(10, 1, 18, None, Seq::empty()).remove("10.2"@).remove("10.8"@),
    ).union_prefer_right(
        supported_versions(11, 1, 13, None, Seq::empty()).remove("11.3"@),
    ).union_prefer_right(supported_versions(12, 2, 8, None, Seq::empty())).union_prefer_right(
        supported_versions(13, 1, 4, None, Seq::empty()),
    )
}

/// The versions that run in the cluster: 10.1 to 10.18, 11.1 to 11.13,
/// 12.2 to 12.8 and 13.1 to 13.4, each as its update 0; each major version
/// and each minor version stands for its latest.
pub open spec fn self_hosted_postgres_versions() -> Map<Seq<char>, Seq<char>> {
    Map::<Seq<char>, Seq<char>>::empty().union_prefer_right(
        supported_versions(10, 1, 18, Some((0, 0)), Seq::empty()),
    ).union_prefer_right(
        supported_versions(11, 1, 13, Some((0, 0)), Seq::empty()),
    ).union_prefer_right(
        supported_versions(12, 2, 8, Some((0, 0)), Seq::empty()),
    ).union_prefer_right(supported_versions(13, 1, 4, Some((0, 0)), Seq::empty()))
}

/// The version that stands for a requested one, or the message of the
/// error, by where the database runs.
pub open spec fn postgres_version(requested: Seq<char>, is_managed_service: bool) -> Result<
    Seq<char>,
    crate::error::CommandErrorView,
> {
    supported_version(
        "Postgresql"@,
        if is_managed_service {
            managed_postgres_versions()
        } else {
            self_hosted_postgres_versions()
        },
        requested,
    )
}

/// The version of PostgreSQL to run for a requested one.
pub fn get_postgres_version(requested_version: String, is_managed_service: bool) -> (r: Result<
    String,
    CommandError,
>)
    ensures
        lookup_view(r) == postgres_version(requested_version@, is_managed_service),
{
    if is_managed_service {
        get_managed_postgres_version(requested_version)
    } else {
        get_self_hosted_postgres_version(requested_version)
    }
}

/// The version that the cloud provider runs for a requested one.
pub fn get_managed_postgres_version(requested_version: String) -> (r: Result<String, CommandError>)
    ensures
        lookup_view(r) == supported_version(
            "Postgresql"@,
            managed_postgres_versions(),
            requested_version@,
        ),
{
    let mut supported_postgres_versions = TextMap::new();

    let mut v10 = generate_supported_version(10, 1, 18, None, None);
    v10.remove("10.2");
    v10.remove("10.8");
    supported_postgres_versions.extend(&v10);

    let mut v11 = generate_supported_version(11, 1, 13, None, None);
    v11.remove("11.3");
    supported_postgres_versions.extend(&v11);

    let v12 = generate_supported_version(12, 2, 8, None, None);
    supported_postgres_versions.extend(&v12);

    let v13 = generate_supported_version(13, 1, 4, None, None);
    supported_postgres_versions.extend(&v13);

    get_supported_version_to_use("Postgresql", &supported_postgres_versions, requested_version)
}

/// The version that runs in the cluster for a requested one.
pub fn get_self_hosted_postgres_version(requested_version: String) -> (r: Result<
    String,
    CommandError,
>)
    ensures
        lookup_view(r) == supported_version(
            "Postgresql"@,
            self_hosted_postgres_versions(),
            requested_version@,
        ),
{
    let mut supported_postgres_versions = TextMap::new();

    let v10 = generate_supported_version(10, 1, 18, Some((0, 0)), None);
    supported_postgres_versions.extend(&v10);

    let v11 = generate_supported_version(11, 1, 13, Some((0, 0)), None);
    supported_postgres_versions.extend(&v11);

    let v12 = generate_supported_version(12, 2, 8, Some((0, 0)), None);
    supported_postgres_versions.extend(&v12);

    let v13 = generate_supported_version(13, 1, 4, Some((0, 0)), None);
    supported_postgres_versions.extend(&v13);

    get_supported_version_to_use("Postgresql", &supported_postgres_versions, requested_version)
}

/// What a database has to know of where it is deployed.
#[derive(Debug)]
pub struct DatabaseTarget {
    /// Where the configuration of the cluster is kept.
    pub kubeconfig_path: String,
    /// The namespace of the environment.
    pub namespace: String,
    pub kubernetes_id: String,
    pub kubernetes_name: String,
    /// The values that the cloud provider adds to every configuration.
    pub cloud_provider_variables: Vec<(String, String)>,
}

/// The values of the cloud provider as entries.
pub open spec fn variable_entries(variables: Seq<(String, String)>) -> Seq<
    (Seq<char>, TemplateValueView),
> {
    Seq::new(variables.len(), |i: int| text_entry(variables[i].0@, variables[i].1@))
}

impl PostgreSQL {
    /// The name under which the database is reached: its own where it is
    /// publicly accessible, else a name inside the cluster.
    pub open spec fn service_fqdn(&self, namespace: Seq<char>) -> Seq<char> {
        if self.options.publicly_accessible {
            self.fqdn@
        } else if self.options.mode == DatabaseMode::MANAGED {
            self.id@ + "-dns."@ + namespace + ".svc.cluster.local"@
        } else {
            managed_db_name(max_name_size(), "postgresql"@, self.name@) + "."@ + namespace
                + ".svc.cluster.local"@
        }
    }

    /// The name under which the database is reached.
    pub fn fqdn(&self, namespace: &str) -> (r: String)
        ensures
            r@ == self.service_fqdn(namespace@),
    {
        if self.options.publicly_accessible {
            self.fqdn.clone()
        } else if self.is_managed_service() {
            let mut r = concat3(self.id.as_str(), "-dns.", namespace);
            r.append(".svc.cluster.local");
            r
        } else {
            let name = self.sanitized_name();
            let mut r = concat3(name.as_str(), ".", namespace);
            r.append(".svc.cluster.local");
            r
        }
    }

    /// The values that say where the database is reached.
    pub open spec fn cluster_entries(&self, target: DatabaseTarget) -> Seq<
        (Seq<char>, TemplateValueView),
    > {
        seq![
            text_entry("kubernetes_cluster_id"@, target.kubernetes_id@),
            text_entry("kubernetes_cluster_name"@, target.kubernetes_name@),
            text_entry("fqdn_id"@, self.fqdn_id@),
            text_entry("fqdn"@, self.service_fqdn(target.namespace@)),
            text_entry("service_name"@, self.fqdn_id@),
        ]
    }

    /// The values that say what the database is made of.
    pub open spec fn database_entries(&self) -> Seq<(Seq<char>, TemplateValueView)> {
        seq![
            text_entry(
                "database_name"@,
                managed_db_name(max_name_size(), "postgresql"@, self.name@),
            ),
            text_entry("database_db_name"@, self.name@),
            text_entry("database_login"@, self.options.login@),
            text_entry("database_password"@, self.options.password@),
            number_entry("database_port"@, self.options.port as u64),
            number_entry("database_disk_size_in_gib"@, self.options.disk_size_in_gib as u64),
            text_entry("database_instance_type"@, self.database_instance_type@),
            text_entry("database_disk_type"@, self.options.database_disk_type@),
            flag_entry("encrypt_disk"@, self.options.encrypt_disk),
            number_entry("database_ram_size_in_mib"@, self.total_ram_in_mib as u64),
            text_entry("database_total_cpus"@, self.total_cpus@),
        ]
    }

    /// The values that say how the state of the database is kept. A final
    /// snapshot is always taken.
    pub open spec fn state_entries(&self) -> Seq<(Seq<char>, TemplateValueView)> {
        seq![
            text_entry("database_fqdn"@, self.options.host@),
            text_entry("database_id"@, self.id@),
            text_entry("tfstate_suffix_name"@, self.id@),
            text_entry("tfstate_name"@, "tfstate-default-"@ + self.id@),
            flag_entry("skip_final_snapshot"@, false),
            text_entry("final_snapshot_name"@, "qovery-"@ + self.id@ + "-final-snap"@),
            flag_entry("delete_automated_backups"@, self.context.test_cluster),
            flag_entry("publicly_accessible"@, self.options.publicly_accessible),
        ]
    }

    /// The values that the database adds to its configuration, given
    /// where it is deployed and the version that is to run.
    pub open spec fn context_entries(&self, target: DatabaseTarget, version: Seq<char>) -> Seq<
        (Seq<char>, TemplateValueView),
    > {
        seq![
            text_entry("kubeconfig_path"@, target.kubeconfig_path@),
            text_entry("namespace"@, target.namespace@),
            text_entry("version"@, version),
        ] + variable_entries(target.cloud_provider_variables@) + self.cluster_entries(target)
            + self.database_entries() + self.state_entries() + (match self.context.expiration() {
            Some(n) => seq![number_entry("resource_expiration_in_seconds"@, n as u64)],
            None => Seq::empty(),
        })
    }

    fn add_cluster_entries(&self, context: &mut TemplateContext, target: &DatabaseTarget)
        ensures
            final(context)@ == old(context)@ + self.cluster_entries(*target),
    {
        context.insert_text("kubernetes_cluster_id", target.kubernetes_id.as_str());
        context.insert_text("kubernetes_cluster_name", target.kubernetes_name.as_str());
        context.insert_text("fqdn_id", self.fqdn_id.as_str());
        let fqdn = self.fqdn(target.namespace.as_str());
        context.insert_text("fqdn", fqdn.as_str());
        context.insert_text("service_name", self.fqdn_id.as_str());
        assert(context@ =~= old(context)@ + self.cluster_entries(*target));
    }

    fn add_database_entries(&self, context: &mut TemplateContext)
        ensures
            final(context)@ == old(context)@ + self.database_entries(),
    {
        let name = self.sanitized_name();
        context.insert_text("database_name", name.as_str());
        context.insert_text("database_db_name", self.name.as_str());
        context.insert_text("database_login", self.options.login.as_str());
        context.insert_text("database_password", self.options.password.as_str());
        context.insert_number("database_port", self.options.port as u64);
        context.insert_number("database_disk_size_in_gib", self.options.disk_size_in_gib as u64);
        context.insert_text("database_instance_type", self.database_instance_type.as_str());
        context.insert_text("database_disk_type", self.options.database_disk_type.as_str());
        context.insert_flag("encrypt_disk", self.options.encrypt_disk);
        context.insert_number("database_ram_size_in_mib", self.total_ram_in_mib as u64);
        context.insert_text("database_total_cpus", self.total_cpus.as_str());
        assert(context@ =~= old(context)@ + self.database_entries());
    }

    fn add_state_entries(&self, context: &mut TemplateContext)
        ensures
            final(context)@ == old(context)@ + self.state_entries(),
    {
        context.insert_text("database_fqdn", self.options.host.as_str());
        context.insert_text("database_id", self.id.as_str());
        context.insert_text("tfstate_suffix_name", self.id.as_str());
        let tfstate = concat2("tfstate-default-", self.id.as_str());
        context.insert_text("tfstate_name", tfstate.as_str());
        context.insert_flag("skip_final_snapshot", false);
        let snapshot = concat3("qovery-", self.id.as_str(), "-final-snap");
        context.insert_text("final_snapshot_name", snapshot.as_str());
        context.insert_flag("delete_automated_backups", self.context.is_test_cluster());
        context.insert_flag("publicly_accessible", self.options.publicly_accessible);
        assert(context@ =~= old(context)@ + self.state_entries());
    }

    /// Whether `details` are those of this database at `step`.
    pub open spec fn is_details(&self, details: EventDetails, step: EnvironmentStep) -> bool {
        exists|t: Transmitter| #[trigger]
            self.transmitter(t) && is_details_of(
                details,
                self.context,
                Stage::Environment(step),
                t,
            )
    }

    fn details(&self, step: EnvironmentStep) -> (r: EventDetails)
        ensures
            self.is_details(r, step),
    {
        let t = self.to_transmitter();
        let r = get_event_details(&self.context, Stage::Environment(step), t);
        assert(self.transmitter(t));
        r
    }

    /// The configuration of the database: the values of `base`, then those
    /// of the database, with the version that stands for the requested
    /// one. With it comes the note on the version, where another version
    /// stands for the requested one. Where the requested version is not
    /// supported there is no configuration.
    pub fn tera_context(&self, base: TemplateContext, target: &DatabaseTarget) -> (r: Result<
        (TemplateContext, Option<String>),
        EngineError,
    >)
        ensures
            match postgres_version(self.version@, self.options.mode == DatabaseMode::MANAGED) {
                Ok(v) => r is Ok && r->Ok_0.0@ == base@ + self.context_entries(*target, v) && (if v
                    == self.version@ {
                    r->Ok_0.1 is None
                } else {
                    r->Ok_0.1 is Some && r->Ok_0.1->0@ == version_note(
                        ServiceType::Database(DatabaseType::PostgreSQL).name_spec(),
                        self.version@,
                        v,
                    )
                }),
                Err(e) => r is Err && r->Err_0.tag == Tag::UnsupportedVersion && self.is_details(
                    r->Err_0.event_details,
                    EnvironmentStep::LoadConfiguration,
                ) && r->Err_0.user_log_message@ == e.message_raw && r->Err_0.message is Some
                    && r->Err_0.message->0@ == e,
            },
    {
        let event_details = self.details(EnvironmentStep::LoadConfiguration);
        let mut context = base;
        context.insert_text("kubeconfig_path", target.kubeconfig_path.as_str());
        context.insert_text("namespace", target.namespace.as_str());
        let version = match self.matching_correct_version(self.is_managed_service(), event_details) {
            Ok(v) => v,
            Err(e) => {
                return Err(e);
            },
        };
        context.insert_text("version", version.matched_version.as_str());
        let ghost head = context@;
        let n: usize = target.cloud_provider_variables.len();
        let mut i: usize = 0;
        while i < n
            invariant
                n == target.cloud_provider_variables@.len(),
                i <= n,
                context@ == head + variable_entries(target.cloud_provider_variables@).take(i as int),
            decreases n - i,
        {
            context.insert_text(
                target.cloud_provider_variables[i].0.as_str(),
                target.cloud_provider_variables[i].1.as_str(),
            );
            assert(context@ =~= head + variable_entries(target.cloud_provider_variables@).take(
                i + 1,
            ));
            i = i + 1;
        }
        assert(variable_entries(target.cloud_provider_variables@).take(n as int)
            =~= variable_entries(target.cloud_provider_variables@));
        self.add_cluster_entries(&mut context, target);
        self.add_database_entries(&mut context);
        self.add_state_entries(&mut context);
        match self.context.resource_expiration_in_seconds() {
            Some(n) => {
                context.insert_number("resource_expiration_in_seconds", n as u64);
            },
            None => {},
        }
        assert(context@ =~= base@ + self.context_entries(*target, version.matched_version@));
        Ok((context, version.message))
    }
}

} // verus!
