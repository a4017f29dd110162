use qovery_engine::cloud_provider::aws::databases::postgresql::{
    get_managed_postgres_version, get_postgres_version, get_self_hosted_postgres_version,
    PostgreSQL,
};
use qovery_engine::cloud_provider::service::{
    Action, DatabaseOptions, ServiceTask, ServiceType, DatabaseType, Timeout,
};
use qovery_engine::error::Tag;
use qovery_engine::events::{EngineEvent, EnvironmentStep, Stage, Transmitter};
use qovery_engine::models::{Context, DatabaseMode};

#[test]
fn check_postgres_version() {
    // managed version
    assert_eq!(get_postgres_version("12".to_string(), true).unwrap(), "12.8");
    assert_eq!(get_postgres_version("12.3".to_string(), true).unwrap(), "12.3");
    assert_eq!(
        get_postgres_version("12.3.0".to_string(), true).unwrap_err().as_str(),
        "Postgresql 12.3.0 version is not supported"
    );
    assert_eq!(
        get_postgres_version("11.3".to_string(), true).unwrap_err().as_str(),
        "Postgresql 11.3 version is not supported"
    );
    // self-hosted version
    assert_eq!(get_postgres_version("12".to_string(), false).unwrap(), "12.8.0");
    assert_eq!(get_postgres_version("12.8".to_string(), false).unwrap(), "12.8.0");
    assert_eq!(get_postgres_version("12.3.0".to_string(), false).unwrap(), "12.3.0");
    assert_eq!(
        get_postgres_version("1.0".to_string(), false).unwrap_err().as_str(),
        "Postgresql 1.0 version is not supported"
    );
}

#[test]
fn version_errors_are_safe_to_show() {
    for managed in [true, false] {
        let err = get_postgres_version("9.9".to_string(), managed).unwrap_err();
        assert_eq!(err.message_safe().unwrap(), "Postgresql 9.9 version is not supported");
        let err = get_postgres_version("".to_string(), managed).unwrap_err();
        assert_eq!(err.message_safe().unwrap(), "version cannot be empty");
    }
}

fn database(name: &str, version: &str, mode: DatabaseMode) -> PostgreSQL {
    PostgreSQL::new(
        Context::new(
            "org".to_string(),
            "cluster".to_string(),
            "exec".to_string(),
            "/workspace".to_string(),
            "/lib".to_string(),
            false,
            None,
            vec![],
            None,
        ),
        "pgid",
        Action::Create,
        name,
        version,
        "pgtest.qovery.io",
        "pgid",
        "1".to_string(),
        512,
        "db.t2.micro",
        DatabaseOptions {
            login: "".to_string(),
            password: "".to_string(),
            host: "".to_string(),
            port: 5432,
            mode,
            disk_size_in_gib: 10,
            database_disk_type: "gp2".to_string(),
            encrypt_disk: false,
            activate_high_availability: false,
            activate_backups: false,
            publicly_accessible: false,
        },
    )
}

#[test]
fn postgres_name_sanitizer() {
    let db_input_name = "test-name_sanitizer-with-too-many-chars-not-allowed-which_will-be-shrinked-at-the-end";
    let db_expected_name = "postgresqltestnamesanitizerwithtoomanycharsnotallo";

    let database = PostgreSQL::new(
        Context::new(
            "".to_string(),
            "".to_string(),
            "".to_string(),
            "".to_string(),
            "".to_string(),
            false,
            None,
            vec![],
            None,
        ),
        "pgid",
        Action::Create,
        db_input_name,
        "8",
        "pgtest.qovery.io",
        "pgid",
        "1".to_string(),
        512,
        "db.t2.micro",
        DatabaseOptions {
            login: "".to_string(),
            password: "".to_string(),
            host: "".to_string(),
            port: 5432,
            mode: DatabaseMode::MANAGED,
            disk_size_in_gib: 10,
            database_disk_type: "gp2".to_string(),
            encrypt_disk: false,
            activate_high_availability: false,
            activate_backups: false,
            publicly_accessible: false,
        },
    );
    assert_eq!(database.sanitized_name(), db_expected_name);
}

#[test]
fn managed_versions_table() {
    assert_eq!(get_managed_postgres_version("10".to_string()).unwrap(), "10.18");
    assert_eq!(get_managed_postgres_version("10.1".to_string()).unwrap(), "10.1");
    assert_eq!(get_managed_postgres_version("10.18".to_string()).unwrap(), "10.18");
    assert!(get_managed_postgres_version("10.2".to_string()).is_err());
    assert!(get_managed_postgres_version("10.8".to_string()).is_err());
    assert!(get_managed_postgres_version("10.19".to_string()).is_err());
    assert!(get_managed_postgres_version("10.0".to_string()).is_err());
    assert_eq!(get_managed_postgres_version("11".to_string()).unwrap(), "11.13");
    assert_eq!(get_managed_postgres_version("13".to_string()).unwrap(), "13.4");
    assert_eq!(get_managed_postgres_version("13.4".to_string()).unwrap(), "13.4");
    assert!(get_managed_postgres_version("13.5".to_string()).is_err());
    assert!(get_managed_postgres_version("12.1".to_string()).is_err());
    assert!(get_managed_postgres_version("14".to_string()).is_err());
    assert!(get_managed_postgres_version("9".to_string()).is_err());
}

#[test]
fn self_hosted_versions_table() {
    assert_eq!(get_self_hosted_postgres_version("10".to_string()).unwrap(), "10.18.0");
    assert_eq!(get_self_hosted_postgres_version("10.2".to_string()).unwrap(), "10.2.0");
    assert_eq!(get_self_hosted_postgres_version("11.13.0".to_string()).unwrap(), "11.13.0");
    assert!(get_self_hosted_postgres_version("11.13.1".to_string()).is_err());
    assert!(get_self_hosted_postgres_version("11.14".to_string()).is_err());
    assert_eq!(get_self_hosted_postgres_version("13.1.0.beta".to_string()).unwrap(), "13.1.0");
}

#[test]
fn empty_version_is_rejected() {
    assert_eq!(
        get_postgres_version("".to_string(), true).unwrap_err().as_str(),
        "version cannot be empty"
    );
    assert_eq!(
        get_postgres_version("".to_string(), false).unwrap_err().as_str(),
        "version cannot be empty"
    );
}

#[test]
fn matching_version_with_note() {
    let db = database("db", "12", DatabaseMode::MANAGED);
    let details = qovery_engine::cloud_provider::service::get_event_details(
        db.context(),
        Stage::Environment(EnvironmentStep::LoadConfiguration),
        db.to_transmitter(),
    );
    let found = db.matching_correct_version(true, details).unwrap();
    assert_eq!(found.requested_version, "12");
    assert_eq!(found.matched_version, "12.8");
    assert_eq!(
        found.message.unwrap(),
        "PostgreSQL database version `12` has been requested by the user; but matching version is `12.8`"
    );

    let db = database("db", "12.8", DatabaseMode::MANAGED);
    let details = qovery_engine::cloud_provider::service::get_event_details(
        db.context(),
        Stage::Environment(EnvironmentStep::LoadConfiguration),
        db.to_transmitter(),
    );
    let found = db.matching_correct_version(true, details).unwrap();
    assert_eq!(found.matched_version, "12.8");
    assert!(found.message.is_none());
}

#[test]
fn unsupported_version_is_an_engine_error() {
    let db = database("db", "11.3", DatabaseMode::MANAGED);
    let details = qovery_engine::cloud_provider::service::get_event_details(
        db.context(),
        Stage::Environment(EnvironmentStep::LoadConfiguration),
        db.to_transmitter(),
    );
    let err = db.matching_correct_version(db.is_managed_service(), details).unwrap_err();
    assert_eq!(err.tag, Tag::UnsupportedVersion);
    assert_eq!(err.user_log_message, "Postgresql 11.3 version is not supported");
    assert_eq!(err.event_details.execution_id, "exec");
}

#[test]
fn postgres_getters() {
    let db = database("my_db-1", "12", DatabaseMode::CONTAINER);
    assert!(!db.is_managed_service());
    assert_eq!(db.id(), "pgid");
    assert_eq!(db.name(), "my_db-1");
    assert_eq!(db.sanitized_name(), "postgresqlmydb1");
    assert_eq!(db.selector().unwrap(), "app=postgresqlmydb1");
    assert_eq!(db.helm_selector().unwrap(), "app=postgresqlmydb1");
    assert_eq!(db.version(), "12");
    assert_eq!(*db.action(), Action::Create);
    assert_eq!(db.private_port(), Some(5432));
    assert_eq!(db.start_timeout(), Timeout::Default);
    assert_eq!(db.total_cpus(), "1");
    assert_eq!(db.total_ram_in_mib(), 512);
    assert_eq!(db.min_instances(), 1);
    assert_eq!(db.max_instances(), 1);
    assert!(!db.publicly_accessible());
    assert_eq!(db.service_type(), ServiceType::Database(DatabaseType::PostgreSQL));
    assert_eq!(db.helm_release_name(), "postgresql-pgid");
    assert_eq!(db.helm_chart_dir(), "/lib/common/services/postgresql");
    assert_eq!(db.helm_chart_values_dir(), "/lib/aws/chart_values/postgresql");
    assert_eq!(db.helm_chart_external_name_service_dir(), "/lib/common/charts/external-name-svc");
    assert_eq!(db.terraform_common_resource_dir_path(), "/lib/aws/services/common");
    assert_eq!(db.terraform_resource_dir_path(), "/lib/aws/services/postgresql");
    assert_eq!(db.cloud_provider_name(), "aws");
    assert_eq!(db.struct_name(), "postgresql");
    assert_eq!(db.domains(), vec!["pgtest.qovery.io".to_string()]);
    assert!(db.on_create_check(true).is_ok());
    let blocked = db.on_create_check(false).unwrap_err();
    assert_eq!(blocked.tag, Tag::DomainNotAvailable);
    assert_eq!(
        blocked.user_log_message,
        "Unable to check domain availability for `pgtest.qovery.io`"
    );
    match db.to_transmitter() {
        Transmitter::Database(id, db_type, name) => {
            assert_eq!(id, "pgid");
            assert_eq!(db_type, "PostgreSQL database");
            assert_eq!(name, "my_db-1");
        }
        other => panic!("unexpected transmitter {:?}", other),
    }
}

#[test]
fn postgres_operations() {
    let db = database("db", "12", DatabaseMode::MANAGED);

    let call = db.on_create();
    assert_eq!(call.task, ServiceTask::DeployStatefulService);
    assert_eq!(call.progress, Some(Action::Create));
    match call.event {
        EngineEvent::Info(details, message) => {
            assert_eq!(message.safe_message, "aws.postgresql.on_create called for db");
            assert!(message.full_details.is_none());
            assert_eq!(details.stage, Stage::Environment(EnvironmentStep::Deploy));
            assert_eq!(details.organisation_id, "org");
            assert_eq!(details.cluster_id, "cluster");
            assert_eq!(details.execution_id, "exec");
        }
        other => panic!("unexpected event {:?}", other),
    }

    let call = db.on_pause();
    assert_eq!(call.task, ServiceTask::ScaleDownDatabase { replicas: 0 });
    assert_eq!(call.progress, Some(Action::Pause));

    let call = db.on_delete();
    assert_eq!(call.task, ServiceTask::DeleteStatefulService);
    assert_eq!(call.progress, Some(Action::Delete));

    for call in [db.on_create_error(), db.on_pause_error(), db.on_delete_error()] {
        assert_eq!(call.task, ServiceTask::Nothing);
        assert_eq!(call.progress, None);
        assert!(matches!(call.event, EngineEvent::Warning(_, _)));
    }
    assert!(db.on_pause_check().is_ok());
    assert!(db.on_delete_check().is_ok());
}
