//! An application: a stateless service that runs an image.

use crate::cloud_provider::service::{
    is_service_call, replicas_after, service_call, Action, ScalingKind, ServiceCall, ServiceTask,
    ServiceType, Timeout,
};
use crate::cloud_provider::utilities::{action_line, sanitize_name, sanitized};
use crate::events::{EnvironmentStep, Stage, Transmitter};
use crate::models::{Context, EnvironmentVariable, Image, Port, Storage};
use crate::cloud_provider::service::{details_of, get_event_details, is_details_of, is_warning};
use crate::cloud_provider::template::{
    flag_entry, number_entry, records_entry, records_view, text_entry, Record, Scalar, ScalarView,
    TemplateContext, TemplateValueView,
};
use crate::error::{invalid_cpu_message, CommandError, EngineError, Tag};
use crate::events::{EngineEvent, EventDetails, EventMessage};
use crate::text::{concat2, cut, cut_spec};
use vstd::prelude::*;

verus! {

/// The kinds of volumes.
#[derive(Clone, Copy, Debug, PartialEq, Eq, Hash, Structural)]
pub enum StorageType {
    SC1,
    ST1,
    GP2,
    IO1,
}

impl StorageType {
    /// The name of the kind at the cloud provider.
    pub open spec fn name_spec(self) -> Seq<char> {
        match self {
            StorageType::SC1 => "sc1"@,
            StorageType::ST1 => "st1"@,
            StorageType::GP2 => "gp2"@,
            StorageType::IO1 => "io1"@,
        }
    }

    /// The name of the kind at the cloud provider.
    pub fn name(&self) -> (r: String)
        ensures
            r@ == self.name_spec(),
    {
        let name = match self {
            StorageType::SC1 => "sc1",
            StorageType::ST1 => "st1",
            StorageType::GP2 => "gp2",
            StorageType::IO1 => "io1",
        };
        String::from_str(name)
    }
}

pub struct Application {
    pub context: Context,
    pub id: String,
    pub action: Action,
    pub name: String,
    pub ports: Vec<Port>,
    pub total_cpus: String,
    pub cpu_burst: String,
    pub total_ram_in_mib: u32,
    pub min_instances: u32,
    pub max_instances: u32,
    pub start_timeout_in_seconds: u32,
    pub image: Image,
    pub storage: Vec<Storage<StorageType>>,
    pub environment_variables: Vec<EnvironmentVariable>,
}

/// The port of the first publicly accessible port of a list, if any.
pub open spec fn first_public_port(ports: Seq<Port>) -> Option<u16>
    decreases ports.len(),
{
    if ports.len() == 0 {
        None
    } else if ports[0].publicly_accessible {
        Some(ports[0].port)
    } else {
        first_public_port(ports.drop_first())
    }
}

/// The first publicly accessible port is that of a port before which no
/// port is publicly accessible.
pub proof fn lemma_first_public_port(ports: Seq<Port>, i: int)
    requires
        0 <= i <= ports.len(),
        forall|j: int| 0 <= j < i ==> !(#[trigger] ports[j]).publicly_accessible,
        i < ports.len() ==> ports[i].publicly_accessible,
    ensures
        first_public_port(ports) == if i < ports.len() {
            Some(ports[i].port)
        } else {
            None
        },
    decreases i,
{
    if i > 0 {
        let tail = ports.drop_first();
        assert(!ports[0].publicly_accessible);
        assert forall|j: int| 0 <= j < i - 1 implies !(#[trigger] tail[j]).publicly_accessible by {
            assert(tail[j] == ports[j + 1]);
        }
        if i < ports.len() {
            assert(tail[i - 1] == ports[i]);
        }
        lemma_first_public_port(tail, i - 1);
    }
}

impl Application {
    pub fn new(
        context: Context,
        id: &str,
        action: Action,
        name: &str,
        ports: Vec<Port>,
        total_cpus: String,
        cpu_burst: String,
        total_ram_in_mib: u32,
        min_instances: u32,
        max_instances: u32,
        start_timeout_in_seconds: u32,
        image: Image,
        storage: Vec<Storage<StorageType>>,
        environment_variables: Vec<EnvironmentVariable>,
    ) -> (r: Application)
        ensures
            r.context == context,
            r.id@ == id@,
            r.action == action,
            r.name@ == name@,
            r.ports == ports,
            r.total_cpus == total_cpus,
            r.cpu_burst == cpu_burst,
            r.total_ram_in_mib == total_ram_in_mib,
            r.min_instances == min_instances,
            r.max_instances == max_instances,
            r.start_timeout_in_seconds == start_timeout_in_seconds,
            r.image == image,
            r.storage == storage,
            r.environment_variables == environment_variables,
    {
        Application {
            context,
            id: String::from_str(id),
            action,
            name: String::from_str(name),
            ports,
            total_cpus,
            cpu_burst,
            total_ram_in_mib,
            min_instances,
            max_instances,
            start_timeout_in_seconds,
            image,
            storage,
            environment_variables,
        }
    }

    /// Whether the application has volumes of its own.
    pub fn is_stateful(&self) -> (r: bool)
        ensures
            r == (self.storage@.len() > 0),
    {
        self.storage.len() > 0
    }

    pub fn cloud_provider_name(&self) -> (r: &'static str)
        ensures
            r@ == "aws"@,
    {
        "aws"
    }

    pub fn struct_name(&self) -> (r: &'static str)
        ensures
            r@ == "application"@,
    {
        "application"
    }

    pub fn image(&self) -> (r: &Image)
        ensures
            *r == self.image,
    {
        &self.image
    }

    pub fn set_image(&mut self, image: Image)
        ensures
            *final(self) == (Application { image, ..*old(self) }),
    {
        self.image = image;
    }

    pub fn context(&self) -> (r: &Context)
        ensures
            *r == self.context,
    {
        &self.context
    }

    pub fn service_type(&self) -> (r: ServiceType)
        ensures
            r == ServiceType::Application,
    {
        ServiceType::Application
    }

    pub fn id(&self) -> (r: &str)
        ensures
            r@ == self.id@,
    {
        self.id.as_str()
    }

    pub fn name(&self) -> (r: &str)
        ensures
            r@ == self.name@,
    {
        self.name.as_str()
    }

    pub fn sanitized_name(&self) -> (r: String)
        ensures
            r@ == sanitized("app"@, self.name@),
    {
        sanitize_name("app", self.name.as_str())
    }

    /// The version of an application is the commit of its image.
    pub fn version(&self) -> (r: String)
        ensures
            r@ == self.image.commit_id@,
    {
        self.image.commit_id.clone()
    }

    pub fn action(&self) -> (r: &Action)
        ensures
            *r == self.action,
    {
        &self.action
    }

    /// The port of the first publicly accessible port, if any.
    pub fn private_port(&self) -> (r: Option<u16>)
        ensures
            r == first_public_port(self.ports@),
    {
        let n: usize = self.ports.len();
        let mut i: usize = 0;
        while i < n
            invariant
                n == self.ports@.len(),
                i <= n,
                forall|j: int| 0 <= j < i ==> !(#[trigger] self.ports@[j]).publicly_accessible,
            decreases n - i,
        {
            if self.ports[i].publicly_accessible {
                proof {
                    lemma_first_public_port(self.ports@, i as int);
                }
                return Some(self.ports[i].port);
            }
            i = i + 1;
        }
        proof {
            lemma_first_public_port(self.ports@, n as int);
        }
        None
    }

    /// How long to wait for the release: four times the start timeout and
    /// ten seconds, as far as the number can be held.
    pub fn start_timeout(&self) -> (r: Timeout)
        ensures
            r == Timeout::Value(
                if (self.start_timeout_in_seconds + 10) * 4 <= u32::MAX {
                    ((self.start_timeout_in_seconds + 10) * 4) as u32
                } else {
                    u32::MAX
                },
            ),
    {
        let seconds: u64 = (self.start_timeout_in_seconds as u64 + 10) * 4;
        if seconds <= 0xffff_ffff {
            Timeout::Value(seconds as u32)
        } else {
            Timeout::Value(u32::MAX)
        }
    }

    pub fn total_cpus(&self) -> (r: String)
        ensures
            r@ == self.total_cpus@,
    {
        self.total_cpus.clone()
    }

    pub fn cpu_burst(&self) -> (r: String)
        ensures
            r@ == self.cpu_burst@,
    {
        self.cpu_burst.clone()
    }

    pub fn total_ram_in_mib(&self) -> (r: u32)
        ensures
            r == self.total_ram_in_mib,
    {
        self.total_ram_in_mib
    }

    pub fn min_instances(&self) -> (r: u32)
        ensures
            r == self.min_instances,
    {
        self.min_instances
    }

    pub fn max_instances(&self) -> (r: u32)
        ensures
            r == self.max_instances,
    {
        self.max_instances
    }

    pub fn publicly_accessible(&self) -> (r: bool)
        ensures
            r == (first_public_port(self.ports@) is Some),
    {
        self.private_port().is_some()
    }

    pub fn selector(&self) -> (r: Option<String>)
        ensures
            r is Some,
            r->0@ == "appId="@ + self.id@,
    {
        Some(concat2("appId=", self.id.as_str()))
    }

    pub fn helm_selector(&self) -> (r: Option<String>)
        ensures
            r is Some,
            r->0@ == "appId="@ + self.id@,
    {
        self.selector()
    }

    /// The name of the release: `application-<name>-<id>`, cut to fifty
    /// characters.
    pub fn helm_release_name(&self) -> (r: String)
        ensures
            r@ == cut_spec("application-"@ + self.name@ + "-"@ + self.id@, 50),
    {
        let mut full = concat2("application-", self.name.as_str());
        full.append("-");
        full.append(self.id.as_str());
        cut(full.as_str(), 50)
    }

    pub fn helm_chart_dir(&self) -> (r: String)
        ensures
            r@ == self.context.lib_root_dir@ + "/aws/charts/q-application"@,
    {
        concat2(self.context.lib_root_dir(), "/aws/charts/q-application")
    }

    pub fn helm_chart_values_dir(&self) -> (r: String)
        ensures
            r@ == Seq::<char>::empty(),
    {
        String::new()
    }

    pub fn helm_chart_external_name_service_dir(&self) -> (r: String)
        ensures
            r@ == Seq::<char>::empty(),
    {
        String::new()
    }

    /// The transmitter of the events of this application.
    pub open spec fn transmitter(&self, t: Transmitter) -> bool {
        t matches Transmitter::Application(id, name, commit) && id@ == self.id@ && name@
            == self.name@ && commit@ == self.image.commit_id@
    }

    pub fn to_transmitter(&self) -> (r: Transmitter)
        ensures
            self.transmitter(r),
    {
        Transmitter::Application(self.id.clone(), self.name.clone(), self.image.commit_id.clone())
    }

    /// Whether `call` is the operation `fn_name` of this application.
    pub open spec fn is_call(
        &self,
        call: ServiceCall,
        step: EnvironmentStep,
        fn_name: Seq<char>,
        hook: bool,
        progress: Option<Action>,
        task: ServiceTask,
    ) -> bool {
        exists|t: Transmitter| #[trigger]
            self.transmitter(t) && is_service_call(
                call,
                self.context,
                t,
                Stage::Environment(step),
                action_line("aws"@, "application"@, fn_name, self.name@),
                hook,
                progress,
                task,
            )
    }

    fn call(
        &self,
        step: EnvironmentStep,
        fn_name: &str,
        hook: bool,
        progress: Option<Action>,
        task: ServiceTask,
    ) -> (r: ServiceCall)
        ensures
            self.is_call(r, step, fn_name@, hook, progress, task),
    {
        let t = self.to_transmitter();
        let r = service_call(
            &self.context,
            t,
            Stage::Environment(step),
            self.cloud_provider_name(),
            self.struct_name(),
            fn_name,
            self.name.as_str(),
            hook,
            progress,
            task,
        );
        assert(self.transmitter(t));
        r
    }

    /// Deploys the application.
    pub fn on_create(&self) -> (r: ServiceCall)
        ensures
            self.is_call(
                r,
                EnvironmentStep::Deploy,
                "on_create"@,
                false,
                Some(Action::Create),
                ServiceTask::DeployStatelessService,
            ),
    {
        self.call(
            EnvironmentStep::Deploy,
            "on_create",
            false,
            Some(Action::Create),
            ServiceTask::DeployStatelessService,
        )
    }

    /// There is nothing to check before an application is deployed.
    pub fn on_create_check(&self) -> (r: Result<(), crate::error::EngineError>)
        ensures
            r is Ok,
    {
        Ok(())
    }

    /// Cleans up after a failed deployment.
    pub fn on_create_error(&self) -> (r: ServiceCall)
        ensures
            self.is_call(
                r,
                EnvironmentStep::Deploy,
                "on_create_error"@,
                true,
                Some(Action::Create),
                ServiceTask::DeployStatelessServiceError,
            ),
    {
        self.call(
            EnvironmentStep::Deploy,
            "on_create_error",
            true,
            Some(Action::Create),
            ServiceTask::DeployStatelessServiceError,
        )
    }

    /// The task that pauses the application: its workload is scaled to no
    /// replica, as a stateful set where it has volumes, else as a deployment.
    pub open spec fn pause_task(&self) -> ServiceTask {
        ServiceTask::ScaleDownApplication {
            replicas: 0,
            kind: if self.storage@.len() > 0 {
                ScalingKind::Statefulset
            } else {
                ScalingKind::Deployment
            },
        }
    }

    /// Pauses the application.
    pub fn on_pause(&self) -> (r: ServiceCall)
        ensures
            self.is_call(
                r,
                EnvironmentStep::Pause,
                "on_pause"@,
                false,
                Some(Action::Pause),
                self.pause_task(),
            ),
    {
        let kind = if self.is_stateful() {
            ScalingKind::Statefulset
        } else {
            ScalingKind::Deployment
        };
        self.call(
            EnvironmentStep::Pause,
            "on_pause",
            false,
            Some(Action::Pause),
            ServiceTask::ScaleDownApplication { replicas: 0, kind },
        )
    }

    /// There is nothing to check before an application is paused.
    pub fn on_pause_check(&self) -> (r: Result<(), crate::error::EngineError>)
        ensures
            r is Ok,
    {
        Ok(())
    }

    /// After a failed pause there is nothing to do but to say so.
    pub fn on_pause_error(&self) -> (r: ServiceCall)
        ensures
            self.is_call(
                r,
                EnvironmentStep::Pause,
                "on_pause_error"@,
                true,
                None,
                ServiceTask::Nothing,
            ),
    {
        self.call(EnvironmentStep::Pause, "on_pause_error", true, None, ServiceTask::Nothing)
    }

    /// Deletes the application.
    pub fn on_delete(&self) -> (r: ServiceCall)
        ensures
            self.is_call(
                r,
                EnvironmentStep::Delete,
                "on_delete"@,
                false,
                Some(Action::Delete),
                ServiceTask::DeleteStatelessService { is_error: false },
            ),
    {
        self.call(
            EnvironmentStep::Delete,
            "on_delete",
            false,
            Some(Action::Delete),
            ServiceTask::DeleteStatelessService { is_error: false },
        )
    }

    /// There is nothing to check before an application is deleted.
    pub fn on_delete_check(&self) -> (r: Result<(), crate::error::EngineError>)
        ensures
            r is Ok,
    {
        Ok(())
    }

    /// Deletes what a failed delete left behind.
    pub fn on_delete_error(&self) -> (r: ServiceCall)
        ensures
            self.is_call(
                r,
                EnvironmentStep::Delete,
                "on_delete_error"@,
                true,
                Some(Action::Delete),
                ServiceTask::DeleteStatelessService { is_error: true },
            ),
    {
        self.call(
            EnvironmentStep::Delete,
            "on_delete_error",
            true,
            Some(Action::Delete),
            ServiceTask::DeleteStatelessService { is_error: true },
        )
    }

    /// Pausing is idempotent: the task of a pause leaves a workload without
    /// replicas, so on a workload that is paused already it changes
    /// nothing, and performing it twice is performing it once.
    pub proof fn law_pause_is_idempotent(&self, replicas: nat)
        ensures
            replicas_after(self.pause_task(), 0) == 0,
            replicas_after(self.pause_task(), replicas_after(self.pause_task(), replicas))
                == replicas_after(self.pause_task(), replicas),
    {
    }
}

/// An environment variable as a record.
pub open spec fn variable_record(v: EnvironmentVariable) -> Seq<(Seq<char>, ScalarView)> {
    seq![("key"@, ScalarView::Text(v.key@)), ("value"@, ScalarView::Text(v.value@))]
}

/// A port as a record.
pub open spec fn port_record(p: Port) -> Seq<(Seq<char>, ScalarView)> {
    seq![
        ("id"@, ScalarView::Text(p.id@)),
        ("port"@, ScalarView::Number(p.port as u64)),
        (
            "public_port"@,
            match p.public_port {
                Some(n) => ScalarView::Number(n as u64),
                None => ScalarView::Absent,
            },
        ),
        (
            "name"@,
            match p.name {
                Some(n) => ScalarView::Text(n@),
                None => ScalarView::Absent,
            },
        ),
        ("publicly_accessible"@, ScalarView::Flag(p.publicly_accessible)),
    ]
}

/// A volume as a record.
pub open spec fn storage_record(s: Storage<StorageType>) -> Seq<(Seq<char>, ScalarView)> {
    seq![
        ("id"@, ScalarView::Text(s.id@)),
        ("name"@, ScalarView::Text(s.name@)),
        ("storage_type"@, ScalarView::Text(s.storage_type.name_spec())),
        ("size_in_gib"@, ScalarView::Number(s.size_in_gib as u64)),
        ("mount_point"@, ScalarView::Text(s.mount_point@)),
        ("snapshot_retention_in_days"@, ScalarView::Number(s.snapshot_retention_in_days as u64)),
    ]
}

fn variable_records(variables: &Vec<EnvironmentVariable>) -> (r: Vec<Record>)
    ensures
        records_view(r@) == Seq::new(variables@.len(), |i: int| variable_record(variables@[i])),
{
    let mut records: Vec<Record> = Vec::new();
    let n: usize = variables.len();
    let mut i: usize = 0;
    while i < n
        invariant
            n == variables@.len(),
            i <= n,
            records@.len() == i,
            forall|j: int| 0 <= j < i ==> (#[trigger] records@[j])@ == variable_record(variables@[j]),
        decreases n - i,
    {
        let mut record = Record::new();
        record.push("key", Scalar::Text(variables[i].key.clone()));
        record.push("value", Scalar::Text(variables[i].value.clone()));
        assert(record@ =~= variable_record(variables@[i as int]));
        records.push(record);
        i = i + 1;
    }
    assert(records_view(records@) =~= Seq::new(
        variables@.len(),
        |i: int| variable_record(variables@[i]),
    ));
    records
}

fn port_records(ports: &Vec<Port>) -> (r: Vec<Record>)
    ensures
        records_view(r@) == Seq::new(ports@.len(), |i: int| port_record(ports@[i])),
{
    let mut records: Vec<Record> = Vec::new();
    let n: usize = ports.len();
    let mut i: usize = 0;
    while i < n
        invariant
            n == ports@.len(),
            i <= n,
            records@.len() == i,
            forall|j: int| 0 <= j < i ==> (#[trigger] records@[j])@ == port_record(ports@[j]),
        decreases n - i,
    {
        let p = &ports[i];
        let mut record = Record::new();
        record.push("id", Scalar::Text(p.id.clone()));
        record.push("port", Scalar::Number(p.port as u64));
        record.push(
            "public_port",
            match p.public_port {
                Some(n) => Scalar::Number(n as u64),
                None => Scalar::Absent,
            },
        );
        record.push(
            "name",
            match &p.name {
                Some(n) => Scalar::Text(n.clone()),
                None => Scalar::Absent,
            },
        );
        record.push("publicly_accessible", Scalar::Flag(p.publicly_accessible));
        assert(record@ =~= port_record(ports@[i as int]));
        records.push(record);
        i = i + 1;
    }
    assert(records_view(records@) =~= Seq::new(ports@.len(), |i: int| port_record(ports@[i])));
    records
}

fn storage_records(storage: &Vec<Storage<StorageType>>) -> (r: Vec<Record>)
    ensures
        records_view(r@) == Seq::new(storage@.len(), |i: int| storage_record(storage@[i])),
{
    let mut records: Vec<Record> = Vec::new();
    let n: usize = storage.len();
    let mut i: usize = 0;
    while i < n
        invariant
            n == storage@.len(),
            i <= n,
            records@.len() == i,
            forall|j: int| 0 <= j < i ==> (#[trigger] records@[j])@ == storage_record(storage@[j]),
        decreases n - i,
    {
        let s = &storage[i];
        let mut record = Record::new();
        record.push("id", Scalar::Text(s.id.clone()));
        record.push("name", Scalar::Text(s.name.clone()));
        record.push("storage_type", Scalar::Text(s.storage_type.name()));
        record.push("size_in_gib", Scalar::Number(s.size_in_gib as u64));
        record.push("mount_point", Scalar::Text(s.mount_point.clone()));
        record.push(
            "snapshot_retention_in_days",
            Scalar::Number(s.snapshot_retention_in_days as u64),
        );
        assert(record@ =~= storage_record(storage@[i as int]));
        records.push(record);
        i = i + 1;
    }
    assert(records_view(records@) =~= Seq::new(
        storage@.len(),
        |i: int| storage_record(storage@[i]),
    ));
    records
}

impl Application {
    /// The image to run, as the cluster is to pull it: the address at the
    /// registry where the image has one, else its name and tag.
    pub open spec fn image_reference(&self) -> Seq<char> {
        match self.image.registry_url {
            Some(url) => url@,
            None => self.image.name@ + ":"@ + self.image.tag@,
        }
    }

    /// The safe message of the warning for an image without an address at
    /// a registry.
    pub open spec fn no_registry_message(&self) -> Seq<char> {
        "there is no registry url, use image name with tag with the default container registry: "@
            + self.image.name@ + ":"@ + self.image.tag@
    }

    /// The values that the application adds to its configuration, given
    /// the limit of processor shares that was worked out for it.
    pub open spec fn context_entries(&self, cpu_limit: Seq<char>) -> Seq<
        (Seq<char>, TemplateValueView),
    > {
        seq![
            text_entry("helm_app_version"@, cut_spec(self.image.commit_id@, 7)),
            text_entry("image_name_with_tag"@, self.image_reference()),
            records_entry(
                "environment_variables"@,
                Seq::new(
                    self.environment_variables@.len(),
                    |i: int| variable_record(self.environment_variables@[i]),
                ),
            ),
            records_entry(
                "ports"@,
                Seq::new(self.ports@.len(), |i: int| port_record(self.ports@[i])),
            ),
            flag_entry("is_registry_secret"@, self.image.registry_name is Some),
        ] + (match self.image.registry_name {
            Some(name) => seq![text_entry("registry_secret"@, name@)],
            None => Seq::empty(),
        }) + seq![
            text_entry("cpu_burst"@, cpu_limit),
            records_entry(
                "storage"@,
                Seq::new(self.storage@.len(), |i: int| storage_record(self.storage@[i])),
            ),
            flag_entry("is_storage"@, self.storage@.len() > 0),
            flag_entry("clone"@, false),
            number_entry("start_timeout_in_seconds"@, self.start_timeout_in_seconds as u64),
        ] + (match self.context.expiration() {
            Some(n) => seq![number_entry("resource_expiration_in_seconds"@, n as u64)],
            None => Seq::empty(),
        })
    }

    /// Whether `details` are those of this application at `step`.
    pub open spec fn is_details(&self, details: EventDetails, step: EnvironmentStep) -> bool {
        exists|t: Transmitter| #[trigger]
            self.transmitter(t) && is_details_of(
                details,
                self.context,
                Stage::Environment(step),
                t,
            )
    }

    fn details(&self, step: EnvironmentStep) -> (r: EventDetails)
        ensures
            self.is_details(r, step),
    {
        let t = self.to_transmitter();
        let r = get_event_details(&self.context, Stage::Environment(step), t);
        assert(self.transmitter(t));
        r
    }

    /// The configuration of the application: the values of `base`, then
    /// those of the application. `cpu_limit` is the limit of processor
    /// shares that the caller worked out, or why the shares asked for are
    /// not valid; in that case there is no configuration. An image without
    /// an address at a registry gives a warning.
    pub fn tera_context(&self, base: TemplateContext, cpu_limit: Result<String, CommandError>) -> (r:
        (Option<EngineEvent>, Result<TemplateContext, EngineError>))
        ensures
            match r.0 {
                Some(event) => self.image.registry_url is None && is_warning(
                    event,
                    self.no_registry_message(),
                    None,
                ) && self.is_details(details_of(event), EnvironmentStep::LoadConfiguration),
                None => self.image.registry_url is Some,
            },
            match cpu_limit {
                Ok(limit) => r.1 is Ok && r.1->Ok_0@ == base@ + self.context_entries(limit@),
                Err(e) => r.1 is Err && r.1->Err_0.tag == Tag::K8sValidateRequiredCpuAndBurstableError
                    && self.is_details(r.1->Err_0.event_details, EnvironmentStep::LoadConfiguration)
                    && r.1->Err_0.user_log_message@ == invalid_cpu_message(
                    self.total_cpus@,
                    self.cpu_burst@,
                ) && r.1->Err_0.message is Some && r.1->Err_0.message->0@ == e@,
            },
    {
        let mut context = base;
        let version = cut(self.image.commit_id.as_str(), 7);
        context.insert_text("helm_app_version", version.as_str());
        let warning = match &self.image.registry_url {
            Some(url) => {
                context.insert_text("image_name_with_tag", url.as_str());
                None
            },
            None => {
                let image_name_with_tag = self.image.name_with_tag();
                let message = concat2(
                    "there is no registry url, use image name with tag with the default container registry: ",
                    image_name_with_tag.as_str(),
                );
                assert(message@ =~= self.no_registry_message());
                context.insert_text("image_name_with_tag", image_name_with_tag.as_str());
                Some(
                    EngineEvent::Warning(
                        self.details(EnvironmentStep::LoadConfiguration),
                        EventMessage::new_from_safe(message),
                    ),
                )
            },
        };
        context.insert_records("environment_variables", variable_records(&self.environment_variables));
        context.insert_records("ports", port_records(&self.ports));
        match &self.image.registry_name {
            Some(name) => {
                context.insert_flag("is_registry_secret", true);
                context.insert_text("registry_secret", name.as_str());
            },
            None => {
                context.insert_flag("is_registry_secret", false);
            },
        }
        let limit = match cpu_limit {
            Ok(l) => l,
            Err(e) => {
                return (
                    warning,
                    Err(
                        EngineError::new_k8s_validate_required_cpu_and_burstable_error(
                            self.details(EnvironmentStep::LoadConfiguration),
                            self.total_cpus(),
                            self.cpu_burst(),
                            e,
                        ),
                    ),
                );
            },
        };
        context.insert_text("cpu_burst", limit.as_str());
        context.insert_records("storage", storage_records(&self.storage));
        context.insert_flag("is_storage", self.storage.len() > 0);
        context.insert_flag("clone", false);
        context.insert_number("start_timeout_in_seconds", self.start_timeout_in_seconds as u64);
        match self.context.resource_expiration_in_seconds() {
            Some(n) => {
                context.insert_number("resource_expiration_in_seconds", n as u64);
            },
            None => {},
        }
        assert(context@ =~= base@ + self.context_entries(limit@));
        (warning, Ok(context))
    }
}

} // verus!
