//! The events as they leave the engine: the same values with named fields,
//! ready to be written out.

use crate::events;
use vstd::prelude::*;
use vstd::std_specs::convert::FromSpecImpl;

verus! {

/// The cloud provider a cluster lives at.
#[derive(Clone, Copy, Debug, PartialEq, Eq, Structural)]
pub enum Kind {
    Aws,
    Do,
    Scw,
}

impl From<events::Kind> for Kind {
    fn from(kind: events::Kind) -> (r: Kind) {
        match kind {
            events::Kind::Aws => Kind::Aws,
            events::Kind::Do => Kind::Do,
            events::Kind::Scw => Kind::Scw,
        }
    }
}

impl FromSpecImpl<events::Kind> for Kind {
    open spec fn obeys_from_spec() -> bool {
        true
    }

    open spec fn from_spec(kind: events::Kind) -> Kind {
        kind_out(kind)
    }
}

/// The provider as it leaves the engine.
pub open spec fn kind_out(kind: events::Kind) -> Kind {
    match kind {
        events::Kind::Aws => Kind::Aws,
        events::Kind::Do => Kind::Do,
        events::Kind::Scw => Kind::Scw,
    }
}

#[derive(Debug)]
pub struct EventMessage {
    pub safe_message: String,
    pub full_details: Option<String>,
}

impl From<events::EventMessage> for EventMessage {
    fn from(message: events::EventMessage) -> (r: EventMessage) {
        EventMessage { safe_message: message.safe_message, full_details: message.full_details }
    }
}

impl FromSpecImpl<events::EventMessage> for EventMessage {
    open spec fn obeys_from_spec() -> bool {
        true
    }

    open spec fn from_spec(message: events::EventMessage) -> EventMessage {
        message_out(message)
    }
}

/// The message as it leaves the engine: both parts as they are.
pub open spec fn message_out(message: events::EventMessage) -> EventMessage {
    EventMessage { safe_message: message.safe_message, full_details: message.full_details }
}

#[derive(Clone, Copy, Debug, PartialEq, Eq, Structural)]
pub enum GeneralStep {
    RetrieveClusterConfig,
    RetrieveClusterResources,
    ValidateSystemRequirements,
    UnderMigration,
}

impl From<events::GeneralStep> for GeneralStep {
    fn from(step: events::GeneralStep) -> (r: GeneralStep) {
        match step {
            events::GeneralStep::RetrieveClusterConfig => GeneralStep::RetrieveClusterConfig,
            events::GeneralStep::RetrieveClusterResources => GeneralStep::RetrieveClusterResources,
            events::GeneralStep::ValidateSystemRequirements => GeneralStep::ValidateSystemRequirements,
            events::GeneralStep::UnderMigration => GeneralStep::UnderMigration,
        }
    }
}

impl FromSpecImpl<events::GeneralStep> for GeneralStep {
    open spec fn obeys_from_spec() -> bool {
        true
    }

    open spec fn from_spec(step: events::GeneralStep) -> GeneralStep {
        general_step_out(step)
    }
}

/// The step as it leaves the engine.
pub open spec fn general_step_out(step: events::GeneralStep) -> GeneralStep {
    match step {
        events::GeneralStep::RetrieveClusterConfig => GeneralStep::RetrieveClusterConfig,
        events::GeneralStep::RetrieveClusterResources => GeneralStep::RetrieveClusterResources,
        events::GeneralStep::ValidateSystemRequirements => GeneralStep::ValidateSystemRequirements,
        events::GeneralStep::UnderMigration => GeneralStep::UnderMigration,
    }
}

#[derive(Clone, Copy, Debug, PartialEq, Eq, Structural)]
pub enum InfrastructureStep {
    LoadConfiguration,
    Create,
    Pause,
    Resume,
    Downgrade,
    Upgrade,
    Delete,
}

impl From<events::InfrastructureStep> for InfrastructureStep {
    fn from(step: events::InfrastructureStep) -> (r: InfrastructureStep) {
        match step {
            events::InfrastructureStep::LoadConfiguration => InfrastructureStep::LoadConfiguration,
            events::InfrastructureStep::Create => InfrastructureStep::Create,
            events::InfrastructureStep::Pause => InfrastructureStep::Pause,
            events::InfrastructureStep::Upgrade => InfrastructureStep::Upgrade,
            events::InfrastructureStep::Delete => InfrastructureStep::Delete,
            events::InfrastructureStep::Resume => InfrastructureStep::Resume,
            events::InfrastructureStep::Downgrade => InfrastructureStep::Downgrade,
        }
    }
}

impl FromSpecImpl<events::InfrastructureStep> for InfrastructureStep {
    open spec fn obeys_from_spec() -> bool {
        true
    }

    open spec fn from_spec(step: events::InfrastructureStep) -> InfrastructureStep {
        infrastructure_step_out(step)
    }
}

/// The step as it leaves the engine.
pub open spec fn infrastructure_step_out(step: events::InfrastructureStep) -> InfrastructureStep {
    match step {
        events::InfrastructureStep::LoadConfiguration => InfrastructureStep::LoadConfiguration,
        events::InfrastructureStep::Create => InfrastructureStep::Create,
        events::InfrastructureStep::Pause => InfrastructureStep::Pause,
        events::InfrastructureStep::Upgrade => InfrastructureStep::Upgrade,
        events::InfrastructureStep::Delete => InfrastructureStep::Delete,
        events::InfrastructureStep::Resume => InfrastructureStep::Resume,
        events::InfrastructureStep::Downgrade => InfrastructureStep::Downgrade,
    }
}

#[derive(Clone, Copy, Debug, PartialEq, Eq, Structural)]
pub enum EnvironmentStep {
    Build,
    Deploy,
    Pause,
    Resume,
    Update,
    Delete,
    LoadConfiguration,
    ScaleUp,
    ScaleDown,
}

impl From<events::EnvironmentStep> for EnvironmentStep {
    fn from(step: events::EnvironmentStep) -> (r: EnvironmentStep) {
        match step {
            events::EnvironmentStep::Build => EnvironmentStep::Build,
            events::EnvironmentStep::Deploy => EnvironmentStep::Deploy,
            events::EnvironmentStep::Update => EnvironmentStep::Update,
            events::EnvironmentStep::Delete => EnvironmentStep::Delete,
            events::EnvironmentStep::Pause => EnvironmentStep::Pause,
            events::EnvironmentStep::Resume => EnvironmentStep::Resume,
            events::EnvironmentStep::LoadConfiguration => EnvironmentStep::LoadConfiguration,
            events::EnvironmentStep::ScaleUp => EnvironmentStep::ScaleUp,
            events::EnvironmentStep::ScaleDown => EnvironmentStep::ScaleDown,
        }
    }
}

impl FromSpecImpl<events::EnvironmentStep> for EnvironmentStep {
    open spec fn obeys_from_spec() -> bool {
        true
    }

    open spec fn from_spec(step: events::EnvironmentStep) -> EnvironmentStep {
        environment_step_out(step)
    }
}

/// The step as it leaves the engine.
pub open spec fn environment_step_out(step: events::EnvironmentStep) -> EnvironmentStep {
    match step {
        events::EnvironmentStep::Build => EnvironmentStep::Build,
        events::EnvironmentStep::Deploy => EnvironmentStep::Deploy,
        events::EnvironmentStep::Update => EnvironmentStep::Update,
        events::EnvironmentStep::Delete => EnvironmentStep::Delete,
        events::EnvironmentStep::Pause => EnvironmentStep::Pause,
        events::EnvironmentStep::Resume => EnvironmentStep::Resume,
        events::EnvironmentStep::LoadConfiguration => EnvironmentStep::LoadConfiguration,
        events::EnvironmentStep::ScaleUp => EnvironmentStep::ScaleUp,
        events::EnvironmentStep::ScaleDown => EnvironmentStep::ScaleDown,
    }
}

#[derive(Clone, Copy, Debug, PartialEq, Eq, Structural)]
pub enum Stage {
    General(GeneralStep),
    Infrastructure(InfrastructureStep),
    Environment(EnvironmentStep),
}

impl From<events::Stage> for Stage {
    fn from(stage: events::Stage) -> (r: Stage) {
        match stage {
            events::Stage::General(step) => Stage::General(GeneralStep::from(step)),
            events::Stage::Infrastructure(step) => Stage::Infrastructure(
                InfrastructureStep::from(step),
            ),
            events::Stage::Environment(step) => Stage::Environment(EnvironmentStep::from(step)),
        }
    }
}

impl FromSpecImpl<events::Stage> for Stage {
    open spec fn obeys_from_spec() -> bool {
        true
    }

    open spec fn from_spec(stage: events::Stage) -> Stage {
        stage_out(stage)
    }
}

/// The stage as it leaves the engine.
pub open spec fn stage_out(stage: events::Stage) -> Stage {
    match stage {
        events::Stage::General(step) => Stage::General(general_step_out(step)),
        events::Stage::Infrastructure(step) => Stage::Infrastructure(
            infrastructure_step_out(step),
        ),
        events::Stage::Environment(step) => Stage::Environment(environment_step_out(step)),
    }
}

#[derive(Debug)]
pub enum Transmitter {
    BuildPlatform { id: String, name: String },
    ContainerRegistry { id: String, name: String },
    CloudProvider { id: String, name: String },
    Kubernetes { id: String, name: String },
    DnsProvider { id: String, name: String },
    ObjectStorage { id: String, name: String },
    Environment { id: String, name: String },
    Database { id: String, db_type: String, name: String },
    Application { id: String, name: String, commit: String },
    Router { id: String, name: String },
}

impl From<events::Transmitter> for Transmitter {
    fn from(transmitter: events::Transmitter) -> (r: Transmitter) {
        match transmitter {
            events::Transmitter::BuildPlatform(id, name) => Transmitter::BuildPlatform { id, name },
            events::Transmitter::ContainerRegistry(id, name) => Transmitter::ContainerRegistry {
                id,
                name,
            },
            events::Transmitter::CloudProvider(id, name) => Transmitter::CloudProvider { id, name },
            events::Transmitter::Kubernetes(id, name) => Transmitter::Kubernetes { id, name },
            events::Transmitter::DnsProvider(id, name) => Transmitter::DnsProvider { id, name },
            events::Transmitter::ObjectStorage(id, name) => Transmitter::ObjectStorage { id, name },
            events::Transmitter::Environment(id, name) => Transmitter::Environment { id, name },
            events::Transmitter::Database(id, db_type, name) => Transmitter::Database {
                id,
                db_type,
                name,
            },
            events::Transmitter::Application(id, name, commit) => Transmitter::Application {
                id,
                name,
                commit,
            },
            events::Transmitter::Router(id, name) => Transmitter::Router { id, name },
        }
    }
}

impl FromSpecImpl<events::Transmitter> for Transmitter {
    open spec fn obeys_from_spec() -> bool {
        true
    }

    open spec fn from_spec(transmitter: events::Transmitter) -> Transmitter {
        transmitter_out(transmitter)
    }
}

/// The transmitter as it leaves the engine: the same parts, by name.
pub open spec fn transmitter_out(transmitter: events::Transmitter) -> Transmitter {
    match transmitter {
        events::Transmitter::BuildPlatform(id, name) => Transmitter::BuildPlatform { id, name },
        events::Transmitter::ContainerRegistry(id, name) => Transmitter::ContainerRegistry {
            id,
            name,
        },
        events::Transmitter::CloudProvider(id, name) => Transmitter::CloudProvider { id, name },
        events::Transmitter::Kubernetes(id, name) => Transmitter::Kubernetes { id, name },
        events::Transmitter::DnsProvider(id, name) => Transmitter::DnsProvider { id, name },
        events::Transmitter::ObjectStorage(id, name) => Transmitter::ObjectStorage { id, name },
        events::Transmitter::Environment(id, name) => Transmitter::Environment { id, name },
        events::Transmitter::Database(id, db_type, name) => Transmitter::Database {
            id,
            db_type,
            name,
        },
        events::Transmitter::Application(id, name, commit) => Transmitter::Application {
            id,
            name,
            commit,
        },
        events::Transmitter::Router(id, name) => Transmitter::Router { id, name },
    }
}

#[derive(Debug)]
pub struct EventDetails {
    pub provider_kind: Option<Kind>,
    pub organisation_id: String,
    pub cluster_id: String,
    pub execution_id: String,
    pub region: Option<String>,
    pub stage: Stage,
    pub transmitter: Transmitter,
}

impl From<events::EventDetails> for EventDetails {
    fn from(details: events::EventDetails) -> (r: EventDetails) {
        let provider_kind = match details.provider_kind {
            Some(k) => Some(Kind::from(k)),
            None => None,
        };
        EventDetails {
            provider_kind,
            organisation_id: details.organisation_id,
            cluster_id: details.cluster_id,
            execution_id: details.execution_id,
            region: details.region,
            stage: Stage::from(details.stage),
            transmitter: Transmitter::from(details.transmitter),
        }
    }
}

impl FromSpecImpl<events::EventDetails> for EventDetails {
    open spec fn obeys_from_spec() -> bool {
        true
    }

    open spec fn from_spec(details: events::EventDetails) -> EventDetails {
        details_out(details)
    }
}

/// The details as they leave the engine.
pub open spec fn details_out(details: events::EventDetails) -> EventDetails {
    EventDetails {
        provider_kind: match details.provider_kind {
            Some(k) => Some(kind_out(k)),
            None => None,
        },
        organisation_id: details.organisation_id,
        cluster_id: details.cluster_id,
        execution_id: details.execution_id,
        region: details.region,
        stage: stage_out(details.stage),
        transmitter: transmitter_out(details.transmitter),
    }
}

/// A failure of the engine as it leaves the engine.
#[derive(Debug)]
pub struct EngineError {
    pub tag: crate::error::Tag,
    pub event_details: EventDetails,
    pub user_log_message: String,
    pub raw_message: Option<String>,
    pub raw_message_safe: Option<String>,
}

impl From<crate::error::EngineError> for EngineError {
    fn from(error: crate::error::EngineError) -> (r: EngineError) {
        let (raw_message, raw_message_safe) = match error.message {
            Some(m) => (Some(m.message_raw), m.message_safe),
            None => (None, None),
        };
        EngineError {
            tag: error.tag,
            event_details: EventDetails::from(error.event_details),
            user_log_message: error.user_log_message,
            raw_message,
            raw_message_safe,
        }
    }
}

impl FromSpecImpl<crate::error::EngineError> for EngineError {
    open spec fn obeys_from_spec() -> bool {
        true
    }

    open spec fn from_spec(error: crate::error::EngineError) -> EngineError {
        error_out(error)
    }
}

/// The failure as it leaves the engine: the messages of the command behind
/// it go out as texts, the raw one and the safe one.
pub open spec fn error_out(error: crate::error::EngineError) -> EngineError {
    EngineError {
        tag: error.tag,
        event_details: details_out(error.event_details),
        user_log_message: error.user_log_message,
        raw_message: match error.message {
            Some(m) => Some(m.message_raw),
            None => None,
        },
        raw_message_safe: match error.message {
            Some(m) => m.message_safe,
            None => None,
        },
    }
}

/// An event as it leaves the engine.
#[allow(inconsistent_fields)]
#[derive(Debug)]
pub enum EngineEvent {
    Debug { details: EventDetails, message: EventMessage },
    Info { details: EventDetails, message: EventMessage },
    Warning { details: EventDetails, message: EventMessage },
    Error { error: EngineError, message: Option<EventMessage> },
}

impl From<events::EngineEvent> for EngineEvent {
    fn from(event: events::EngineEvent) -> (r: EngineEvent) {
        match event {
            events::EngineEvent::Debug(d, m) => EngineEvent::Debug {
                details: EventDetails::from(d),
                message: EventMessage::from(m),
            },
            events::EngineEvent::Info(d, m) => EngineEvent::Info {
                details: EventDetails::from(d),
                message: EventMessage::from(m),
            },
            events::EngineEvent::Warning(d, m) => EngineEvent::Warning {
                details: EventDetails::from(d),
                message: EventMessage::from(m),
            },
            events::EngineEvent::Error(e, m) => EngineEvent::Error {
                error: EngineError::from(e),
                message: match m {
                    Some(x) => Some(EventMessage::from(x)),
                    None => None,
                },
            },
        }
    }
}

impl FromSpecImpl<events::EngineEvent> for EngineEvent {
    open spec fn obeys_from_spec() -> bool {
        true
    }

    open spec fn from_spec(event: events::EngineEvent) -> EngineEvent {
        event_out(event)
    }
}

/// The event as it leaves the engine: its severity stays, its details and
/// its message are carried over part by part.
pub open spec fn event_out(event: events::EngineEvent) -> EngineEvent {
    match event {
        events::EngineEvent::Debug(d, m) => EngineEvent::Debug {
            details: details_out(d),
            message: message_out(m),
        },
        events::EngineEvent::Info(d, m) => EngineEvent::Info {
            details: details_out(d),
            message: message_out(m),
        },
        events::EngineEvent::Warning(d, m) => EngineEvent::Warning {
            details: details_out(d),
            message: message_out(m),
        },
        events::EngineEvent::Error(e, m) => EngineEvent::Error {
            error: error_out(e),
            message: match m {
                Some(x) => Some(message_out(x)),
                None => None,
            },
        },
    }
}

} // verus!
