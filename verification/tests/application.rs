use qovery_engine::cloud_provider::aws::application::{Application, StorageType};
use qovery_engine::cloud_provider::service::{
    Action, ScalingKind, ServiceTask, ServiceType, Timeout,
};
use qovery_engine::events::{EngineEvent, EnvironmentStep, Stage, Transmitter};
use qovery_engine::models::{Context, EnvironmentVariable, Image, Metadata, Port, Storage};

fn context() -> Context {
    Context::new(
        "org".to_string(),
        "cluster".to_string(),
        "exec".to_string(),
        "/workspace".to_string(),
        "/lib".to_string(),
        false,
        None,
        vec![],
        Some(Metadata {
            dry_run_deploy: Some(true),
            resource_expiration_in_seconds: Some(3600),
            forced_upgrade: None,
        }),
    )
}

fn port(number: u16, public: bool) -> Port {
    Port {
        id: format!("p{}", number),
        port: number,
        public_port: None,
        name: None,
        publicly_accessible: public,
    }
}

fn image() -> Image {
    Image {
        application_id: "app1".to_string(),
        name: "my-image".to_string(),
        tag: "v1".to_string(),
        commit_id: "63d8c437337416a7067d3f358197ac47d003fab9".to_string(),
        registry_name: None,
        registry_docker_json_config: None,
        registry_url: None,
    }
}

fn application(ports: Vec<Port>, storage: Vec<Storage<StorageType>>) -> Application {
    Application::new(
        context(),
        "app1",
        Action::Create,
        "my_app",
        ports,
        "1".to_string(),
        "2".to_string(),
        512,
        1,
        3,
        20,
        image(),
        storage,
        vec![EnvironmentVariable { key: "K".to_string(), value: "V".to_string() }],
    )
}

fn volume() -> Storage<StorageType> {
    Storage {
        id: "s1".to_string(),
        name: "data".to_string(),
        storage_type: StorageType::GP2,
        size_in_gib: 10,
        mount_point: "/data".to_string(),
        snapshot_retention_in_days: 7,
    }
}

#[test]
fn application_getters() {
    let app = application(vec![port(8080, false), port(80, true), port(443, true)], vec![]);
    assert_eq!(app.id(), "app1");
    assert_eq!(app.name(), "my_app");
    assert_eq!(app.sanitized_name(), "app-my-app");
    assert_eq!(app.version(), "63d8c437337416a7067d3f358197ac47d003fab9");
    assert_eq!(*app.action(), Action::Create);
    assert_eq!(app.private_port(), Some(80));
    assert!(app.publicly_accessible());
    assert_eq!(app.start_timeout(), Timeout::Value(120));
    assert_eq!(app.total_cpus(), "1");
    assert_eq!(app.cpu_burst(), "2");
    assert_eq!(app.total_ram_in_mib(), 512);
    assert_eq!(app.min_instances(), 1);
    assert_eq!(app.max_instances(), 3);
    assert_eq!(app.selector().unwrap(), "appId=app1");
    assert_eq!(app.helm_selector().unwrap(), "appId=app1");
    assert_eq!(app.helm_release_name(), "application-my_app-app1");
    assert_eq!(app.helm_chart_dir(), "/lib/aws/charts/q-application");
    assert_eq!(app.helm_chart_values_dir(), "");
    assert_eq!(app.helm_chart_external_name_service_dir(), "");
    assert_eq!(app.service_type(), ServiceType::Application);
    assert_eq!(app.cloud_provider_name(), "aws");
    assert_eq!(app.struct_name(), "application");
    assert!(!app.is_stateful());
    assert_eq!(app.image().name_with_tag(), "my-image:v1");
    assert_eq!(app.context().resource_expiration_in_seconds(), Some(3600));
    assert!(app.context().is_dry_run_deploy());
    match app.to_transmitter() {
        Transmitter::Application(id, name, commit) => {
            assert_eq!(id, "app1");
            assert_eq!(name, "my_app");
            assert_eq!(commit, "63d8c437337416a7067d3f358197ac47d003fab9");
        }
        other => panic!("unexpected transmitter {:?}", other),
    }
}

#[test]
fn application_without_public_port() {
    let app = application(vec![port(8080, false)], vec![]);
    assert_eq!(app.private_port(), None);
    assert!(!app.publicly_accessible());
    let none = application(vec![], vec![]);
    assert_eq!(none.private_port(), None);
}

#[test]
fn release_name_is_cut_to_fifty_characters() {
    let mut app = application(vec![], vec![]);
    app.name = "n".repeat(60);
    let name = app.helm_release_name();
    assert_eq!(name.chars().count(), 50);
    assert_eq!(name, format!("application-{}", "n".repeat(38)));
}

#[test]
fn start_timeout_saturates() {
    let mut app = application(vec![], vec![]);
    app.start_timeout_in_seconds = 0;
    assert_eq!(app.start_timeout(), Timeout::Value(40));
    app.start_timeout_in_seconds = u32::MAX;
    assert_eq!(app.start_timeout(), Timeout::Value(u32::MAX));
    app.start_timeout_in_seconds = 1_073_741_813;
    assert_eq!(app.start_timeout(), Timeout::Value(4_294_967_292));
    app.start_timeout_in_seconds = 1_073_741_814;
    assert_eq!(app.start_timeout(), Timeout::Value(u32::MAX));
}

#[test]
fn set_image_replaces_the_image() {
    let mut app = application(vec![], vec![]);
    let mut other = image();
    other.tag = "v2".to_string();
    app.set_image(other);
    assert_eq!(app.image().tag, "v2");
    assert_eq!(app.name(), "my_app");
}

#[test]
fn pause_scales_to_zero_by_shape() {
    let stateless = application(vec![], vec![]);
    let call = stateless.on_pause();
    assert_eq!(
        call.task,
        ServiceTask::ScaleDownApplication { replicas: 0, kind: ScalingKind::Deployment }
    );
    assert_eq!(call.progress, Some(Action::Pause));
    let stateful = application(vec![], vec![volume()]);
    assert!(stateful.is_stateful());
    assert_eq!(
        stateful.on_pause().task,
        ServiceTask::ScaleDownApplication { replicas: 0, kind: ScalingKind::Statefulset }
    );
}

/// A workload that performs the tasks it is handed.
fn perform(task: ServiceTask, replicas: u32) -> u32 {
    match task {
        ServiceTask::ScaleDownApplication { replicas, .. } => replicas,
        ServiceTask::ScaleDownDatabase { replicas } => replicas,
        _ => replicas,
    }
}

#[test]
fn pause_of_a_paused_application_is_a_no_op() {
    let app = application(vec![], vec![]);
    assert_eq!(perform(app.on_pause().task, 0), 0);
    let once = perform(app.on_pause().task, 3);
    let twice = perform(app.on_pause().task, once);
    assert_eq!(once, 0);
    assert_eq!(once, twice);
    assert!(app.on_pause_check().is_ok());
}

#[test]
fn application_operations() {
    let app = application(vec![], vec![]);
    let call = app.on_create();
    assert_eq!(call.task, ServiceTask::DeployStatelessService);
    assert_eq!(call.progress, Some(Action::Create));
    match call.event {
        EngineEvent::Info(details, message) => {
            assert_eq!(message.safe_message, "aws.application.on_create called for my_app");
            assert_eq!(details.stage, Stage::Environment(EnvironmentStep::Deploy));
            assert_eq!(details.execution_id, "exec");
            assert!(matches!(details.transmitter, Transmitter::Application(_, _, _)));
        }
        other => panic!("unexpected event {:?}", other),
    }
    assert!(app.on_create_check().is_ok());

    let call = app.on_create_error();
    assert_eq!(call.task, ServiceTask::DeployStatelessServiceError);
    assert_eq!(call.progress, Some(Action::Create));
    match call.event {
        EngineEvent::Warning(_, message) => {
            assert_eq!(message.safe_message, "aws.application.on_create_error called for my_app")
        }
        other => panic!("unexpected event {:?}", other),
    }

    let call = app.on_pause_error();
    assert_eq!(call.task, ServiceTask::Nothing);
    assert_eq!(call.progress, None);

    let call = app.on_delete();
    assert_eq!(call.task, ServiceTask::DeleteStatelessService { is_error: false });
    assert_eq!(call.progress, Some(Action::Delete));
    match call.event {
        EngineEvent::Info(details, _) => {
            assert_eq!(details.stage, Stage::Environment(EnvironmentStep::Delete))
        }
        other => panic!("unexpected event {:?}", other),
    }
    assert!(app.on_delete_check().is_ok());
    let call = app.on_delete_error();
    assert_eq!(call.task, ServiceTask::DeleteStatelessService { is_error: true });
}

#[test]
fn storage_type_names() {
    assert_eq!(StorageType::SC1.name(), "sc1");
    assert_eq!(StorageType::ST1.name(), "st1");
    assert_eq!(StorageType::GP2.name(), "gp2");
    assert_eq!(StorageType::IO1.name(), "io1");
}
