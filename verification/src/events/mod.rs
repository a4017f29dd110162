//! What the engine reports while it works: each event says at which stage
//! it arose and which part of the system sends it.

pub mod io;

use vstd::prelude::*;

verus! {

/// The cloud provider a cluster lives at.
#[derive(Clone, Copy, Debug, PartialEq, Eq, Structural)]
pub enum Kind {
    Aws,
    Do,
    Scw,
}

/// The steps that belong to no single cluster or environment.
#[derive(Clone, Copy, Debug, PartialEq, Eq, Structural)]
pub enum GeneralStep {
    RetrieveClusterConfig,
    RetrieveClusterResources,
    ValidateSystemRequirements,
    UnderMigration,
}

/// The steps of work on a cluster.
#[derive(Clone, Copy, Debug, PartialEq, Eq, Structural)]
pub enum InfrastructureStep {
    LoadConfiguration,
    Create,
    Pause,
    Resume,
    Downgrade,
    Upgrade,
    Delete,
}

/// The steps of work on an environment.
#[derive(Clone, Copy, Debug, PartialEq, Eq, Structural)]
pub enum EnvironmentStep {
    Build,
    Deploy,
    Pause,
    Resume,
    Update,
    Delete,
    LoadConfiguration,
    ScaleUp,
    ScaleDown,
}

/// The stage at which an event arose.
#[derive(Clone, Copy, Debug, PartialEq, Eq, Structural)]
pub enum Stage {
    General(GeneralStep),
    Infrastructure(InfrastructureStep),
    Environment(EnvironmentStep),
}

/// The part of the system that sends an event: its identifier and name,
/// for a database its type, for an application its commit.
#[derive(Debug)]
pub enum Transmitter {
    BuildPlatform(String, String),
    ContainerRegistry(String, String),
    CloudProvider(String, String),
    Kubernetes(String, String),
    DnsProvider(String, String),
    ObjectStorage(String, String),
    Environment(String, String),
    Database(String, String, String),
    Application(String, String, String),
    Router(String, String),
}

/// A message in two parts: one that is safe to show to end users, and the
/// full details for operators, kept apart.
#[derive(Debug)]
pub struct EventMessage {
    pub safe_message: String,
    pub full_details: Option<String>,
}

impl EventMessage {
    /// A message with its safe part and, optionally, the full details.
    pub fn new(safe_message: String, full_details: Option<String>) -> (r: EventMessage)
        ensures
            r.safe_message == safe_message,
            r.full_details == full_details,
    {
        EventMessage { safe_message, full_details }
    }

    /// A message that is safe as a whole.
    pub fn new_from_safe(safe_message: String) -> (r: EventMessage)
        ensures
            r.safe_message == safe_message,
            r.full_details is None,
    {
        EventMessage { safe_message, full_details: None }
    }

    /// The part that is safe to show to end users.
    pub fn message_safe(&self) -> (r: String)
        ensures
            r@ == self.safe_message@,
    {
        self.safe_message.clone()
    }

}

/// Where and when an event arose.
#[derive(Debug)]
pub struct EventDetails {
    pub provider_kind: Option<Kind>,
    pub organisation_id: String,
    pub cluster_id: String,
    pub execution_id: String,
    pub region: Option<String>,
    pub stage: Stage,
    pub transmitter: Transmitter,
}

impl Transmitter {
    /// A copy of this transmitter.
    pub fn duplicate(&self) -> (r: Transmitter)
        ensures
            r == *self,
    {
        match self {
            Transmitter::BuildPlatform(id, name) => Transmitter::BuildPlatform(
                id.clone(),
                name.clone(),
            ),
            Transmitter::ContainerRegistry(id, name) => Transmitter::ContainerRegistry(
                id.clone(),
                name.clone(),
            ),
            Transmitter::CloudProvider(id, name) => Transmitter::CloudProvider(
                id.clone(),
                name.clone(),
            ),
            Transmitter::Kubernetes(id, name) => Transmitter::Kubernetes(id.clone(), name.clone()),
            Transmitter::DnsProvider(id, name) => Transmitter::DnsProvider(id.clone(), name.clone()),
            Transmitter::ObjectStorage(id, name) => Transmitter::ObjectStorage(
                id.clone(),
                name.clone(),
            ),
            Transmitter::Environment(id, name) => Transmitter::Environment(id.clone(), name.clone()),
            Transmitter::Database(id, db_type, name) => Transmitter::Database(
                id.clone(),
                db_type.clone(),
                name.clone(),
            ),
            Transmitter::Application(id, name, commit) => Transmitter::Application(
                id.clone(),
                name.clone(),
                commit.clone(),
            ),
            Transmitter::Router(id, name) => Transmitter::Router(id.clone(), name.clone()),
        }
    }
}

impl EventDetails {
    /// A copy of these details.
    pub fn duplicate(&self) -> (r: EventDetails)
        ensures
            r == *self,
    {
        EventDetails {
            provider_kind: self.provider_kind,
            organisation_id: self.organisation_id.clone(),
            cluster_id: self.cluster_id.clone(),
            execution_id: self.execution_id.clone(),
            region: match &self.region {
                Some(r) => Some(r.clone()),
                None => None,
            },
            stage: self.stage,
            transmitter: self.transmitter.duplicate(),
        }
    }

}

/// An event of the engine, by severity. An error has no details of its own:
/// it carries them in its own report, which is kept by the caller.
#[derive(Debug)]
pub enum EngineEvent {
    Debug(EventDetails, EventMessage),
    Info(EventDetails, EventMessage),
    Warning(EventDetails, EventMessage),
    Error(crate::error::EngineError, Option<EventMessage>),
}

} // verus!
