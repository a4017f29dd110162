use qovery_engine::cloud_provider::utilities::{
    action_message, get_supported_version_to_use, managed_db_name_sanitizer, sanitize_name,
    VersionsNumber,
};
use qovery_engine::cloud_provider::versions::generate_supported_version;
use qovery_engine::dns_provider::qoverydns::QoveryDns;
use qovery_engine::dns_provider::{DnsProviderError, Domain, Kind as DnsKind};
use qovery_engine::error::{
    unsupported_version, CommandError, EngineError, SimpleError, SimpleErrorKind, Tag,
};
use qovery_engine::events::io;
use qovery_engine::events::{
    EngineEvent, EnvironmentStep, EventDetails, EventMessage, GeneralStep, InfrastructureStep,
    Kind, Stage, Transmitter,
};
use qovery_engine::models::Context;
use qovery_engine::text::{
    concat2, concat3, cut, remove_char, replace_char, trim_end, u64_to_string,
};
use qovery_engine::text_map::TextMap;

fn context() -> Context {
    Context::new(
        "org".to_string(),
        "cluster".to_string(),
        "exec".to_string(),
        "/workspace".to_string(),
        "/lib".to_string(),
        true,
        Some("tcp://docker".to_string()),
        vec![qovery_engine::models::Features::LogsHistory],
        None,
    )
}

#[test]
fn decimal_notation() {
    assert_eq!(u64_to_string(0), "0");
    assert_eq!(u64_to_string(7), "7");
    assert_eq!(u64_to_string(10), "10");
    assert_eq!(u64_to_string(1234567890), "1234567890");
    assert_eq!(u64_to_string(u64::MAX), "18446744073709551615");
}

#[test]
fn text_helpers() {
    assert_eq!(concat2("a", "b"), "ab");
    assert_eq!(concat3("a", "", "c"), "ac");
    assert_eq!(replace_char("a_b_c", '_', "-"), "a-b-c");
    assert_eq!(replace_char("", '_', "-"), "");
    assert_eq!(replace_char("_é_", '_', "--"), "--é--");
    assert_eq!(replace_char("a_b", '_', ""), "ab");
    assert_eq!(remove_char("a-b--c-", '-'), "abc");
    assert_eq!(remove_char("---", '-'), "");
    assert_eq!(cut("héllo", 2), "hé");
    assert_eq!(cut("héllo", 5), "héllo");
    assert_eq!(cut("héllo", 9), "héllo");
    assert_eq!(cut("héllo", 0), "");
    assert_eq!(trim_end("a.b..", '.'), "a.b");
    assert_eq!(trim_end("...", '.'), "");
    assert_eq!(trim_end("abc", '.'), "abc");
}

#[test]
fn names_are_sanitized() {
    assert_eq!(sanitize_name("app", "my_app_1"), "app-my-app-1");
    assert_eq!(managed_db_name_sanitizer(60, "postgresql", "a_b-c"), "postgresqlabc");
    assert_eq!(managed_db_name_sanitizer(12, "postgresql", "a_b-c"), "po");
    assert_eq!(managed_db_name_sanitizer(22, "postgresql", "a_b-c"), "postgresqlab");
    assert_eq!(managed_db_name_sanitizer(10, "postgresql", "abc"), "");
    assert_eq!(action_message("aws", "router", "on_create", "r"), "aws.router.on_create called for r");
}

#[test]
fn version_numbers_are_split_at_dots() {
    let v = VersionsNumber::from_str("12").unwrap();
    assert_eq!((v.major.as_str(), v.minor, v.patch, v.suffix), ("12", None, None, None));
    let v = VersionsNumber::from_str("12.3").unwrap();
    assert_eq!(v.major, "12");
    assert_eq!(v.minor.as_deref(), Some("3"));
    assert!(v.patch.is_none());
    let v = VersionsNumber::from_str("12.3.0").unwrap();
    assert_eq!(v.patch.as_deref(), Some("0"));
    assert!(v.suffix.is_none());
    let v = VersionsNumber::from_str("1.2.3.rc.1").unwrap();
    assert_eq!(v.patch.as_deref(), Some("3"));
    assert_eq!(v.suffix.as_deref(), Some("rc.1"));
    let v = VersionsNumber::from_str("1..").unwrap();
    assert_eq!(v.minor.as_deref(), Some(""));
    assert_eq!(v.patch.as_deref(), Some(""));
    assert_eq!(VersionsNumber::from_str("").unwrap_err().as_str(), "version cannot be empty");
}

fn lookup(table: &TextMap, key: &str) -> Option<String> {
    table.get(key).cloned()
}

#[test]
fn supported_versions_without_updates() {
    let table = generate_supported_version(12, 2, 4, None, Some("-x".to_string()));
    assert_eq!(lookup(&table, "12"), Some("12.4-x".to_string()));
    assert_eq!(lookup(&table, "12.2"), Some("12.2-x".to_string()));
    assert_eq!(lookup(&table, "12.3"), Some("12.3-x".to_string()));
    assert_eq!(lookup(&table, "12.4"), Some("12.4-x".to_string()));
    assert_eq!(lookup(&table, "12.1"), None);
    assert_eq!(lookup(&table, "12.5"), None);
}

#[test]
fn supported_versions_with_updates() {
    let table = generate_supported_version(5, 6, 7, Some((1, 3)), Some("-s".to_string()));
    assert_eq!(lookup(&table, "5"), Some("5.7.3-s".to_string()));
    assert_eq!(lookup(&table, "5.6"), Some("5.6.3".to_string()));
    assert_eq!(lookup(&table, "5.7"), Some("5.7.3".to_string()));
    assert_eq!(lookup(&table, "5.6.1"), Some("5.6.1-s".to_string()));
    assert_eq!(lookup(&table, "5.7.3"), Some("5.7.3-s".to_string()));
    assert_eq!(lookup(&table, "5.7.4"), None);
    assert_eq!(lookup(&table, "5.6.0"), None);
    let single = generate_supported_version(5, 7, 7, Some((2, 2)), Some("-s".to_string()));
    assert_eq!(lookup(&single, "5.7"), Some("5.7.2-s".to_string()));
    assert_eq!(lookup(&single, "5.7.2"), Some("5.7.2-s".to_string()));
    assert_eq!(lookup(&single, "5"), Some("5.7.2-s".to_string()));
    let empty = generate_supported_version(5, 8, 7, None, None);
    assert_eq!(lookup(&empty, "5"), Some("5.7".to_string()));
    assert_eq!(lookup(&empty, "5.7"), None);
}

#[test]
fn version_lookup() {
    let table = generate_supported_version(12, 2, 4, None, None);
    assert_eq!(
        get_supported_version_to_use("Db", &table, "12.3".to_string()).unwrap(),
        "12.3"
    );
    assert_eq!(
        get_supported_version_to_use("Db", &table, "12.9".to_string()).unwrap_err().as_str(),
        "Db 12.9 version is not supported"
    );
    let err = unsupported_version("Db", "1");
    assert_eq!(err.as_str(), "Db 1 version is not supported");
    assert_eq!(err.message_safe().unwrap(), "Db 1 version is not supported");
}

#[test]
fn text_map_operations() {
    let mut a = TextMap::new();
    a.insert("k1".to_string(), "v1".to_string());
    a.insert("k2".to_string(), "v2".to_string());
    a.insert("k1".to_string(), "v1b".to_string());
    assert_eq!(lookup(&a, "k1"), Some("v1b".to_string()));
    a.remove("k1");
    assert_eq!(lookup(&a, "k1"), None);
    assert_eq!(lookup(&a, "k2"), Some("v2".to_string()));
    a.remove("missing");
    let mut b = TextMap::new();
    b.insert("k2".to_string(), "other".to_string());
    b.insert("k3".to_string(), "v3".to_string());
    a.extend(&b);
    assert_eq!(lookup(&a, "k2"), Some("other".to_string()));
    assert_eq!(lookup(&a, "k3"), Some("v3".to_string()));
}

#[test]
fn errors_and_their_copies() {
    let simple = SimpleError::other("m".to_string());
    assert_eq!(simple.kind, SimpleErrorKind::Other);
    let copy = simple.duplicate();
    assert_eq!(copy.message, simple.message);
    let command = CommandError::new("raw".to_string(), Some("safe".to_string()));
    assert_eq!(command.message(), "raw");
    assert_eq!(command.message_safe().unwrap(), "safe");
    assert_eq!(command.duplicate().as_str(), "raw");
    let as_simple = command.to_simple_error();
    assert_eq!(as_simple.kind, SimpleErrorKind::Command);
    assert_eq!(as_simple.message.unwrap(), "raw");
    let safe_only = CommandError::new_from_safe_message("s".to_string());
    assert_eq!(safe_only.as_str(), "s");
    assert_eq!(safe_only.message_safe().unwrap(), "s");
}

fn details() -> EventDetails {
    EventDetails {
        provider_kind: Some(Kind::Do),
        organisation_id: "org".to_string(),
        cluster_id: "cluster".to_string(),
        execution_id: "exec".to_string(),
        region: Some("ams3".to_string()),
        stage: Stage::Infrastructure(InfrastructureStep::Upgrade),
        transmitter: Transmitter::Database("id".to_string(), "pg".to_string(), "db".to_string()),
    }
}

#[test]
fn event_message_parts() {
    let m = EventMessage::new("safe".to_string(), Some("full".to_string()));
    assert_eq!(m.message_safe(), "safe");
    let m = EventMessage::new_from_safe("safe".to_string());
    assert_eq!(m.message_safe(), "safe");
    let d = details();
    assert_eq!(d.duplicate().cluster_id, "cluster");
}

#[test]
fn events_leave_the_engine_part_by_part() {
    let event = EngineEvent::Warning(
        details(),
        EventMessage::new("safe".to_string(), Some("full".to_string())),
    );
    match io::EngineEvent::from(event) {
        io::EngineEvent::Warning { details, message } => {
            assert_eq!(details.provider_kind, Some(io::Kind::Do));
            assert_eq!(details.organisation_id, "org");
            assert_eq!(details.cluster_id, "cluster");
            assert_eq!(details.execution_id, "exec");
            assert_eq!(details.region.as_deref(), Some("ams3"));
            assert_eq!(details.stage, io::Stage::Infrastructure(io::InfrastructureStep::Upgrade));
            match details.transmitter {
                io::Transmitter::Database { id, db_type, name } => {
                    assert_eq!((id.as_str(), db_type.as_str(), name.as_str()), ("id", "pg", "db"))
                }
                other => panic!("unexpected transmitter {:?}", other),
            }
            assert_eq!(message.safe_message, "safe");
            assert_eq!(message.full_details.as_deref(), Some("full"));
        }
        other => panic!("unexpected event {:?}", other),
    }
    assert!(matches!(
        io::EngineEvent::from(EngineEvent::Debug(details(), EventMessage::new_from_safe("d".to_string()))),
        io::EngineEvent::Debug { .. }
    ));
    assert!(matches!(
        io::EngineEvent::from(EngineEvent::Info(details(), EventMessage::new_from_safe("i".to_string()))),
        io::EngineEvent::Info { .. }
    ));
}

#[test]
fn error_events_leave_the_engine() {
    let error = EngineError::new_helm_charts_upgrade_error(
        details(),
        CommandError::new("raw".to_string(), Some("safe".to_string())),
    );
    let copy = error.duplicate();
    assert_eq!(copy.tag, Tag::HelmChartsUpgradeError);
    let event = EngineEvent::Error(error, Some(EventMessage::new_from_safe("m".to_string())));
    match io::EngineEvent::from(event) {
        io::EngineEvent::Error { error, message } => {
            assert_eq!(error.tag, Tag::HelmChartsUpgradeError);
            assert_eq!(error.user_log_message, "Error while trying to upgrade helm charts.");
            assert_eq!(error.raw_message.as_deref(), Some("raw"));
            assert_eq!(error.raw_message_safe.as_deref(), Some("safe"));
            assert_eq!(error.event_details.execution_id, "exec");
            assert_eq!(message.unwrap().safe_message, "m");
        }
        other => panic!("unexpected event {:?}", other),
    }
    let bare = io::EngineError::from(EngineError::new_router_failed_to_deploy(details()));
    assert!(bare.raw_message.is_none());
    assert!(bare.raw_message_safe.is_none());
}

#[test]
fn steps_and_stages_leave_the_engine() {
    assert_eq!(io::Kind::from(Kind::Aws), io::Kind::Aws);
    assert_eq!(io::Kind::from(Kind::Scw), io::Kind::Scw);
    assert_eq!(
        io::GeneralStep::from(GeneralStep::RetrieveClusterConfig),
        io::GeneralStep::RetrieveClusterConfig
    );
    assert_eq!(
        io::GeneralStep::from(GeneralStep::ValidateSystemRequirements),
        io::GeneralStep::ValidateSystemRequirements
    );
    assert_eq!(
        io::InfrastructureStep::from(InfrastructureStep::Downgrade),
        io::InfrastructureStep::Downgrade
    );
    assert_eq!(
        io::InfrastructureStep::from(InfrastructureStep::Resume),
        io::InfrastructureStep::Resume
    );
    assert_eq!(io::EnvironmentStep::from(EnvironmentStep::ScaleUp), io::EnvironmentStep::ScaleUp);
    assert_eq!(
        io::EnvironmentStep::from(EnvironmentStep::LoadConfiguration),
        io::EnvironmentStep::LoadConfiguration
    );
    assert_eq!(
        io::Stage::from(Stage::Environment(EnvironmentStep::Build)),
        io::Stage::Environment(io::EnvironmentStep::Build)
    );
    assert_eq!(
        io::Stage::from(Stage::General(GeneralStep::RetrieveClusterResources)),
        io::Stage::General(io::GeneralStep::RetrieveClusterResources)
    );
    assert!(matches!(
        io::Transmitter::from(Transmitter::Application(
            "i".to_string(),
            "n".to_string(),
            "c".to_string()
        )),
        io::Transmitter::Application { .. }
    ));
    assert!(matches!(
        io::Transmitter::from(Transmitter::Kubernetes("i".to_string(), "n".to_string())),
        io::Transmitter::Kubernetes { .. }
    ));
    let m = io::EventMessage::from(EventMessage::new("s".to_string(), None));
    assert_eq!(m.safe_message, "s");
    assert!(m.full_details.is_none());
}

#[test]
fn dns_provider() {
    let dns = QoveryDns::new(
        context(),
        "dns1",
        "https://dns.example.com",
        "443",
        "key",
        "secret",
        "my-dns",
        Domain::new("example.com".to_string()),
    );
    assert_eq!(dns.id(), "dns1");
    assert_eq!(dns.name(), "my-dns");
    assert_eq!(dns.provider_name(), "qoverydns");
    assert_eq!(dns.kind(), DnsKind::QoveryDns);
    assert_eq!(dns.domain().raw, "example.com");
    assert_eq!(dns.resolvers(), vec![(8, 8, 8, 8), (8, 8, 4, 4)]);
    assert_eq!(dns.context().execution_id(), "exec");
    let config = dns.provider_configuration();
    assert_eq!(config.api_url, "https://dns.example.com");
    assert_eq!(config.api_port, "443");
    assert_eq!(config.api_key, "key");
    assert_eq!(dns.is_valid(), Ok(()));
    let no_key = QoveryDns::new(
        context(),
        "dns1",
        "u",
        "443",
        "",
        "s",
        "n",
        Domain::new("example.com".to_string()),
    );
    assert_eq!(no_key.is_valid(), Err(DnsProviderError::InvalidCredentials));
    let no_port = QoveryDns::new(
        context(),
        "dns1",
        "u",
        "",
        "k",
        "s",
        "n",
        Domain::new("example.com".to_string()),
    );
    assert_eq!(no_port.is_valid(), Err(DnsProviderError::InvalidCredentials));
}

#[test]
fn context_getters() {
    let c = context();
    assert_eq!(c.organization_id(), "org");
    assert_eq!(c.cluster_id(), "cluster");
    assert_eq!(c.execution_id(), "exec");
    assert_eq!(c.workspace_root_dir(), "/workspace");
    assert_eq!(c.lib_root_dir(), "/lib");
    assert!(c.is_test_cluster());
    assert_eq!(c.resource_expiration_in_seconds(), None);
    assert!(!c.is_dry_run_deploy());
    let d = c.duplicate();
    assert_eq!(d.docker_host.as_deref(), Some("tcp://docker"));
    assert_eq!(d.features, c.features);
}
