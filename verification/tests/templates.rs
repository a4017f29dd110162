use qovery_engine::cloud_provider::aws::application::{Application, StorageType};
use qovery_engine::cloud_provider::aws::databases::postgresql::{DatabaseTarget, PostgreSQL};
use qovery_engine::cloud_provider::aws::router::Router;
use qovery_engine::cloud_provider::chart_run::{ChartRun, ChartStep};
use qovery_engine::cloud_provider::helm::{ChartInfo, ChartPayload};
use qovery_engine::cloud_provider::service::{Action, DatabaseOptions};
use qovery_engine::cloud_provider::template::{Record, Scalar, TemplateContext, TemplateValue};
use qovery_engine::container_registry::docker::{docker_retry_failed, DockerOperation, RetryEnd};
use qovery_engine::container_registry::Kind;
use qovery_engine::error::{CommandError, SimpleError, SimpleErrorKind, Tag};
use qovery_engine::events::{EngineEvent, EnvironmentStep, Stage};
use qovery_engine::models::{
    Context, CustomDomain, DatabaseMode, EnvironmentVariable, Image, Metadata, Port, Route,
    Storage,
};

fn context(test_cluster: bool, expiration: Option<u32>) -> Context {
    Context::new(
        "org".to_string(),
        "cluster".to_string(),
        "exec".to_string(),
        "/workspace".to_string(),
        "/lib".to_string(),
        test_cluster,
        None,
        vec![],
        expiration.map(|n| Metadata {
            dry_run_deploy: None,
            resource_expiration_in_seconds: Some(n),
            forced_upgrade: None,
        }),
    )
}

fn scalar(s: &Scalar) -> String {
    match s {
        Scalar::Text(t) => format!("{:?}", t),
        Scalar::Flag(b) => format!("{}", b),
        Scalar::Number(n) => format!("{}", n),
        Scalar::Absent => "null".to_string(),
    }
}

fn record(r: &Record) -> String {
    let fields: Vec<String> =
        r.fields.iter().map(|(k, v)| format!("{}: {}", k, scalar(v))).collect();
    format!("{{{}}}", fields.join(", "))
}

fn value(v: &TemplateValue) -> String {
    match v {
        TemplateValue::Plain(s) => scalar(s),
        TemplateValue::Records(rs) => {
            let records: Vec<String> = rs.iter().map(record).collect();
            format!("[{}]", records.join(", "))
        }
    }
}

fn entries(context: &TemplateContext) -> Vec<String> {
    context.entries.iter().map(|(k, v)| format!("{} = {}", k, value(v))).collect()
}

fn application(name: &str, ports: Vec<Port>, registry: bool, expiration: Option<u32>) -> Application {
    Application::new(
        context(false, expiration),
        "app1",
        Action::Create,
        name,
        ports,
        "1".to_string(),
        "2".to_string(),
        512,
        1,
        3,
        20,
        Image {
            application_id: "app1".to_string(),
            name: "my-image".to_string(),
            tag: "v1".to_string(),
            commit_id: "63d8c437337416a7067d3f358197ac47d003fab9".to_string(),
            registry_name: if registry { Some("my-registry".to_string()) } else { None },
            registry_docker_json_config: None,
            registry_url: if registry {
                Some("registry.example.com/my-image:v1".to_string())
            } else {
                None
            },
        },
        vec![Storage {
            id: "s1".to_string(),
            name: "data".to_string(),
            storage_type: StorageType::IO1,
            size_in_gib: 10,
            mount_point: "/data".to_string(),
            snapshot_retention_in_days: 7,
        }],
        vec![EnvironmentVariable { key: "K".to_string(), value: "V".to_string() }],
    )
}

fn port(number: u16, public: bool) -> Port {
    Port {
        id: format!("p{}", number),
        port: number,
        public_port: if public { Some(443) } else { None },
        name: None,
        publicly_accessible: public,
    }
}

#[test]
fn application_configuration() {
    let app = application("my_app", vec![port(8080, true)], true, Some(3600));
    let mut base = TemplateContext::new();
    base.insert_text("id", "app1");
    let (warning, context) = app.tera_context(base, Ok("2000m".to_string()));
    assert!(warning.is_none());
    let context = context.unwrap();
    assert_eq!(
        entries(&context),
        vec![
            r#"id = "app1""#,
            r#"helm_app_version = "63d8c43""#,
            r#"image_name_with_tag = "registry.example.com/my-image:v1""#,
            r#"environment_variables = [{key: "K", value: "V"}]"#,
            r#"ports = [{id: "p8080", port: 8080, public_port: 443, name: null, publicly_accessible: true}]"#,
            r#"is_registry_secret = true"#,
            r#"registry_secret = "my-registry""#,
            r#"cpu_burst = "2000m""#,
            r#"storage = [{id: "s1", name: "data", storage_type: "io1", size_in_gib: 10, mount_point: "/data", snapshot_retention_in_days: 7}]"#,
            r#"is_storage = true"#,
            r#"clone = false"#,
            r#"start_timeout_in_seconds = 20"#,
            r#"resource_expiration_in_seconds = 3600"#,
        ]
    );
    assert_eq!(value(context.get("clone").unwrap()), "false");
    assert!(context.get("missing").is_none());
}

#[test]
fn application_without_registry_warns() {
    let app = application("my_app", vec![], false, None);
    let (warning, context) = app.tera_context(TemplateContext::new(), Ok("1".to_string()));
    match warning.unwrap() {
        EngineEvent::Warning(details, message) => {
            assert_eq!(
                message.safe_message,
                "there is no registry url, use image name with tag with the default container registry: my-image:v1"
            );
            assert_eq!(details.stage, Stage::Environment(EnvironmentStep::LoadConfiguration));
        }
        other => panic!("unexpected event {:?}", other),
    }
    let all = entries(&context.unwrap());
    assert!(all.contains(&r#"image_name_with_tag = "my-image:v1""#.to_string()));
    assert!(all.contains(&"is_registry_secret = false".to_string()));
    assert!(!all.iter().any(|e| e.starts_with("registry_secret")));
    assert!(!all.iter().any(|e| e.starts_with("resource_expiration_in_seconds")));
}

#[test]
fn application_with_invalid_cpu_has_no_configuration() {
    let app = application("my_app", vec![], true, None);
    let (_, context) = app.tera_context(
        TemplateContext::new(),
        Err(CommandError::new("cpu burst is lower than cpu".to_string(), None)),
    );
    let err = context.unwrap_err();
    assert_eq!(err.tag, Tag::K8sValidateRequiredCpuAndBurstableError);
    assert_eq!(
        err.user_log_message,
        "Error while trying to validate required CPU (1) and burstable (2) CPU."
    );
    assert_eq!(err.message.unwrap().as_str(), "cpu burst is lower than cpu");
}

#[test]
fn later_value_of_a_name_stands() {
    let mut context = TemplateContext::new();
    context.insert_number("n", 1);
    context.insert_optional_number("m", None);
    context.insert_number("n", 2);
    assert_eq!(value(context.get("n").unwrap()), "2");
    assert_eq!(value(context.get("m").unwrap()), "null");
}

fn database(mode: DatabaseMode, public: bool, version: &str) -> PostgreSQL {
    PostgreSQL::new(
        context(true, None),
        "pgid",
        Action::Create,
        "my_db",
        version,
        "pgtest.qovery.io",
        "fqdnid",
        "1".to_string(),
        512,
        "db.t2.micro",
        DatabaseOptions {
            login: "user".to_string(),
            password: "pass".to_string(),
            host: "host".to_string(),
            port: 5432,
            mode,
            disk_size_in_gib: 10,
            database_disk_type: "gp2".to_string(),
            encrypt_disk: true,
            activate_high_availability: false,
            activate_backups: false,
            publicly_accessible: public,
        },
    )
}

fn target() -> DatabaseTarget {
    DatabaseTarget {
        kubeconfig_path: "/kube/config".to_string(),
        namespace: "env-1".to_string(),
        kubernetes_id: "k1".to_string(),
        kubernetes_name: "cluster-1".to_string(),
        cloud_provider_variables: vec![("aws_region".to_string(), "eu-west-3".to_string())],
    }
}

#[test]
fn database_configuration() {
    let db = database(DatabaseMode::MANAGED, false, "12");
    let (context, note) = db.tera_context(TemplateContext::new(), &target()).unwrap();
    assert_eq!(
        note.unwrap(),
        "PostgreSQL database version `12` has been requested by the user; but matching version is `12.8`"
    );
    assert_eq!(
        entries(&context),
        vec![
            r#"kubeconfig_path = "/kube/config""#,
            r#"namespace = "env-1""#,
            r#"version = "12.8""#,
            r#"aws_region = "eu-west-3""#,
            r#"kubernetes_cluster_id = "k1""#,
            r#"kubernetes_cluster_name = "cluster-1""#,
            r#"fqdn_id = "fqdnid""#,
            r#"fqdn = "pgid-dns.env-1.svc.cluster.local""#,
            r#"service_name = "fqdnid""#,
            r#"database_name = "postgresqlmydb""#,
            r#"database_db_name = "my_db""#,
            r#"database_login = "user""#,
            r#"database_password = "pass""#,
            r#"database_port = 5432"#,
            r#"database_disk_size_in_gib = 10"#,
            r#"database_instance_type = "db.t2.micro""#,
            r#"database_disk_type = "gp2""#,
            r#"encrypt_disk = true"#,
            r#"database_ram_size_in_mib = 512"#,
            r#"database_total_cpus = "1""#,
            r#"database_fqdn = "host""#,
            r#"database_id = "pgid""#,
            r#"tfstate_suffix_name = "pgid""#,
            r#"tfstate_name = "tfstate-default-pgid""#,
            r#"skip_final_snapshot = false"#,
            r#"final_snapshot_name = "qovery-pgid-final-snap""#,
            r#"delete_automated_backups = true"#,
            r#"publicly_accessible = false"#,
        ]
    );
}

#[test]
fn database_names_by_mode_and_access() {
    assert_eq!(database(DatabaseMode::MANAGED, true, "12").fqdn("ns"), "pgtest.qovery.io");
    assert_eq!(
        database(DatabaseMode::MANAGED, false, "12").fqdn("ns"),
        "pgid-dns.ns.svc.cluster.local"
    );
    assert_eq!(
        database(DatabaseMode::CONTAINER, false, "12").fqdn("ns"),
        "postgresqlmydb.ns.svc.cluster.local"
    );
}

#[test]
fn database_with_unsupported_version_has_no_configuration() {
    let db = database(DatabaseMode::MANAGED, false, "11.3");
    let err = db.tera_context(TemplateContext::new(), &target()).unwrap_err();
    assert_eq!(err.tag, Tag::UnsupportedVersion);
    assert_eq!(err.user_log_message, "Postgresql 11.3 version is not supported");
    let db = database(DatabaseMode::CONTAINER, false, "11.3");
    let (context, note) = db.tera_context(TemplateContext::new(), &target()).unwrap();
    assert!(note.is_some());
    assert!(entries(&context).contains(&r#"version = "11.3.0""#.to_string()));
}

fn router(test_cluster: bool) -> Router {
    Router::new(
        context(test_cluster, None),
        "r1",
        "my_router",
        Action::Create,
        "default.example.com",
        vec![CustomDomain {
            domain: "www.example.org".to_string(),
            target_domain: "default.example.com".to_string(),
        }],
        vec![
            Route { path: "/".to_string(), application_name: "front".to_string() },
            Route { path: "/hidden".to_string(), application_name: "worker".to_string() },
            Route { path: "/gone".to_string(), application_name: "missing".to_string() },
            Route { path: "/api".to_string(), application_name: "back_end".to_string() },
        ],
        true,
    )
}

fn applications() -> Vec<Application> {
    vec![
        application("front", vec![port(3000, true)], true, None),
        application("worker", vec![port(9000, false)], true, None),
        application("back_end", vec![port(1, false), port(8080, true)], true, None),
        application("front", vec![port(1234, true)], true, None),
    ]
}

#[test]
fn router_configuration() {
    let r = router(false);
    let (warning, context) = r.tera_context(
        TemplateContext::new(),
        &applications(),
        &vec!["hash-www".to_string()],
        "hash-default",
        Ok(Some("lb.example.net".to_string())),
        "cluster.example.com",
    );
    assert!(warning.is_none());
    assert_eq!(
        entries(&context),
        vec![
            r#"nginx_enable_horizontal_autoscaler = "false""#,
            r#"nginx_minimum_replicas = "1""#,
            r#"nginx_maximum_replicas = "10""#,
            r#"nginx_requests_cpu = "200m""#,
            r#"nginx_requests_memory = "128Mi""#,
            r#"nginx_limit_cpu = "200m""#,
            r#"nginx_limit_memory = "128Mi""#,
            r#"external_ingress_hostname_default = "lb.example.net""#,
            r#"router_tls_domain = "*.cluster.example.com""#,
            r#"router_default_domain = "default.example.com""#,
            r#"router_default_domain_hash = "hash-default""#,
            r#"custom_domains = [{domain: "www.example.org", domain_hash: "hash-www", target_domain: "default.example.com"}]"#,
            r#"routes = [{path: "/", application_name: "app-front", application_port: 3000}, {path: "/api", application_name: "app-back-end", application_port: 8080}]"#,
            r#"spec_acme_email = "tls@qovery.com""#,
            r#"metadata_annotations_cert_manager_cluster_issuer = "letsencrypt-qovery""#,
            r#"spec_acme_server = "https://acme-v02.api.letsencrypt.org/directory""#,
            r#"sticky_sessions_enabled = true"#,
        ]
    );
}

#[test]
fn router_without_ingress_address_warns() {
    let r = router(true);
    for (reply, expected) in [
        (
            Ok(None),
            "unable to get external_ingress_hostname_default - what's wrong? This must never happened",
        ),
        (
            Err("no config".to_string()),
            "can't fetch kubernetes config file - what's wrong? This must never happened",
        ),
    ] {
        let (warning, context) = r.tera_context(
            TemplateContext::new(),
            &vec![],
            &vec!["h".to_string()],
            "d",
            reply,
            "c.example.com",
        );
        match warning.unwrap() {
            EngineEvent::Warning(_, message) => assert_eq!(message.safe_message, expected),
            other => panic!("unexpected event {:?}", other),
        }
        let all = entries(&context);
        assert!(!all.iter().any(|e| e.starts_with("external_ingress_hostname_default")));
        assert!(all.contains(
            &r#"spec_acme_server = "https://acme-staging-v02.api.letsencrypt.org/directory""#
                .to_string()
        ));
        assert!(all.contains(&"routes = []".to_string()));
    }
}

#[test]
fn retried_command_ends_with_its_last_failure() {
    let e = docker_retry_failed(DockerOperation::Push, Kind::Ecr, "i:t", RetryEnd::Exhausted, "boom");
    assert_eq!(e.as_str(), "boom");
    assert!(e.message_safe().is_none());
    let e = docker_retry_failed(DockerOperation::Push, Kind::Ecr, "i:t", RetryEnd::Internal, "boom");
    assert_eq!(
        e.message_safe().unwrap(),
        "Unknown error while trying to push image i:t to AWS ECR."
    );
    let e = docker_retry_failed(DockerOperation::Pull, Kind::Docr, "u/i:t", RetryEnd::Internal, "x");
    assert_eq!(
        e.message_safe().unwrap(),
        "Unknown error while trying to pull image u/i:t from DigitalOcean Registry registry."
    );
    let e = docker_retry_failed(DockerOperation::Tag, Kind::Docr, "i:t", RetryEnd::Internal, "x");
    assert!(e.message_safe().is_none());
}

#[test]
fn runs_are_checked_against_their_unit() {
    let mut chart = ChartInfo::default();
    chart.values_files = vec!["a.yaml".to_string()];
    let at = |step: ChartStep, payload: Option<ChartPayload>, failure: Option<SimpleError>| {
        ChartRun { step, payload, failure }.is_well_formed(&chart)
    };
    let failure = || SimpleError { kind: SimpleErrorKind::Other, message: None };
    assert!(at(ChartStep::CheckValuesFile(0), None, None));
    assert!(!at(ChartStep::CheckValuesFile(1), None, None));
    assert!(at(ChartStep::DeleteCrd(5), None, None));
    assert!(!at(ChartStep::DeleteCrd(6), None, None));
    assert!(!at(ChartStep::CollectEvents, None, None));
    assert!(at(ChartStep::CollectEvents, None, Some(failure())));
    assert!(!at(ChartStep::ReadConfigAfter, None, None));
    assert!(!at(ChartStep::ReadConfigAfter, Some(ChartPayload::new()), None));
    let mut payload = ChartPayload::new();
    payload.insert("checksum".to_string(), "1".to_string());
    assert!(at(ChartStep::ReadConfigAfter, Some(payload), None));
    assert!(at(ChartStep::Upgrade, None, None));
    assert!(at(ChartStep::Finished, None, Some(failure())));
}

#[test]
fn custom_domain_without_a_checksum_has_none_in_its_record() {
    let r = router(false);
    let (_, context) = r.tera_context(
        TemplateContext::new(),
        &vec![],
        &vec![],
        "d",
        Ok(Some("lb".to_string())),
        "c.example.com",
    );
    assert!(entries(&context).contains(
        &r#"custom_domains = [{domain: "www.example.org", domain_hash: null, target_domain: "default.example.com"}]"#
            .to_string()
    ));
    let (_, context) = r.tera_context(
        TemplateContext::new(),
        &vec![],
        &vec!["h1".to_string(), "h2".to_string()],
        "d",
        Ok(Some("lb".to_string())),
        "c.example.com",
    );
    assert!(entries(&context).contains(
        &r#"custom_domains = [{domain: "www.example.org", domain_hash: "h1", target_domain: "default.example.com"}]"#
            .to_string()
    ));
}

#[test]
fn no_run_but_a_finished_one_belongs_to_a_skipped_unit() {
    let mut chart = ChartInfo::default();
    chart.action = qovery_engine::cloud_provider::helm::HelmAction::Skip;
    let at = |step: ChartStep| ChartRun { step, payload: None, failure: None }.is_well_formed(&chart);
    assert!(at(ChartStep::Finished));
    assert!(!at(ChartStep::CleanCrashLoopingPods));
    assert!(!at(ChartStep::Upgrade));
    assert!(!at(ChartStep::ReadDeployed));
    assert!(!at(ChartStep::DeleteCrd(0)));
}
