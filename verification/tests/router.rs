use qovery_engine::cloud_provider::aws::router::{
    Router, RouterCreate, RouterCreateStep, RouterReply,
};
use qovery_engine::cloud_provider::helm::HelmHistoryRow;
use qovery_engine::cloud_provider::service::{Action, ServiceTask, ServiceType, Timeout};
use qovery_engine::error::{CommandError, EngineError, Tag};
use qovery_engine::cloud_provider::service::check_domains;
use qovery_engine::events::{EngineEvent, EnvironmentStep, Stage};
use qovery_engine::models::{Context, CustomDomain, Route};

fn router(custom: Vec<(&str, &str)>) -> Router {
    Router::new(
        Context::new(
            "org".to_string(),
            "cluster".to_string(),
            "exec".to_string(),
            "/workspace".to_string(),
            "/lib".to_string(),
            false,
            None,
            vec![],
            None,
        ),
        "r1",
        "my_router",
        Action::Create,
        "default.example.com",
        custom
            .into_iter()
            .map(|(d, t)| CustomDomain { domain: d.to_string(), target_domain: t.to_string() })
            .collect(),
        vec![Route { path: "/".to_string(), application_name: "app".to_string() }],
        true,
    )
}

fn row(status: &str) -> HelmHistoryRow {
    HelmHistoryRow {
        revision: 1,
        updated: "now".to_string(),
        status: status.to_string(),
        chart: "router-1.0".to_string(),
        app_version: "1.0".to_string(),
    }
}

#[test]
fn router_getters() {
    let r = router(vec![("a.example.org", "t.example.com"), ("b.example.org", "t.example.com")]);
    assert_eq!(r.id(), "r1");
    assert_eq!(r.name(), "my_router");
    assert_eq!(r.sanitized_name(), "router-my-router");
    assert_eq!(r.version(), "1.0");
    assert_eq!(*r.action(), Action::Create);
    assert_eq!(r.private_port(), None);
    assert_eq!(r.start_timeout(), Timeout::Default);
    assert_eq!(r.total_cpus(), "1");
    assert_eq!(r.total_ram_in_mib(), 1);
    assert_eq!(r.min_instances(), 1);
    assert_eq!(r.max_instances(), 1);
    assert!(!r.publicly_accessible());
    assert_eq!(r.selector().unwrap(), "routerId=r1");
    assert_eq!(r.helm_selector().unwrap(), "routerId=r1");
    assert_eq!(r.domains(), vec!["default.example.com", "a.example.org", "b.example.org"]);
    assert!(r.has_custom_domains());
    assert!(!router(vec![]).has_custom_domains());
    assert_eq!(router(vec![]).domains(), vec!["default.example.com"]);
    assert_eq!(r.helm_release_name(), "router-r1");
    assert_eq!(r.helm_chart_dir(), "/lib/common/charts/ingress-nginx");
    assert_eq!(r.helm_chart_values_dir(), "/lib/aws/chart_values/nginx-ingress");
    assert_eq!(r.helm_chart_external_name_service_dir(), "");
    assert_eq!(r.template_dir(), "/lib/aws/charts/q-ingress-tls");
    assert_eq!(r.service_type(), ServiceType::Router);
    assert_eq!(r.cloud_provider_name(), "aws");
    assert_eq!(r.struct_name(), "router");
    assert_eq!(r.context().lib_root_dir(), "/lib");
}

fn create(r: &Router, replies: Vec<RouterReply>) -> (Vec<RouterCreateStep>, RouterCreate) {
    let (call, mut run) = r.on_create();
    assert_eq!(call.task, ServiceTask::DeployRouter);
    let mut steps = vec![];
    for reply in replies {
        steps.push(run.step);
        run = r.on_create_advance(run, reply, "/workspace/routers/r1");
    }
    (steps, run)
}

#[test]
fn router_creation_succeeds_when_the_release_is_deployed() {
    let r = router(vec![]);
    let (steps, run) = create(
        &r,
        vec![
            RouterReply::Done,
            RouterReply::Done,
            RouterReply::Done,
            RouterReply::History(Some(row("deployed"))),
        ],
    );
    assert_eq!(
        steps,
        vec![
            RouterCreateStep::GetKubeconfig,
            RouterCreateStep::RenderContext,
            RouterCreateStep::CopyTemplates,
            RouterCreateStep::UpgradeRelease,
        ]
    );
    assert_eq!(run.step, RouterCreateStep::Finished);
    assert!(run.failure.is_none());
}

#[test]
fn router_creation_fails_without_a_deployed_release() {
    let r = router(vec![]);
    for last in [
        RouterReply::History(None),
        RouterReply::History(Some(row("failed"))),
        RouterReply::Done,
    ] {
        let (_, run) =
            create(&r, vec![RouterReply::Done, RouterReply::Done, RouterReply::Done, last]);
        assert_eq!(run.step, RouterCreateStep::Finished);
        let failure = run.failure.unwrap();
        assert_eq!(failure.tag, Tag::RouterFailedToDeploy);
        assert_eq!(failure.user_log_message, "Router has failed to be deployed.");
        assert_eq!(failure.event_details.stage, Stage::Environment(EnvironmentStep::Deploy));
    }
}

#[test]
fn router_creation_failures_have_their_names() {
    let r = router(vec![]);
    let (_, run) = create(
        &r,
        vec![
            RouterReply::Done,
            RouterReply::Done,
            RouterReply::CommandFailed(CommandError::new("disk full".to_string(), None)),
        ],
    );
    let failure = run.failure.unwrap();
    assert_eq!(failure.tag, Tag::CannotCopyFilesFromDirectoryToDirectory);
    assert_eq!(
        failure.user_log_message,
        "Error while trying to copy all files from `/lib/aws/charts/q-ingress-tls` to `/workspace/routers/r1`."
    );
    assert_eq!(failure.message.unwrap().as_str(), "disk full");

    let (_, run) = create(
        &r,
        vec![
            RouterReply::Done,
            RouterReply::Done,
            RouterReply::Done,
            RouterReply::CommandFailed(CommandError::new("helm failed".to_string(), None)),
        ],
    );
    let failure = run.failure.unwrap();
    assert_eq!(failure.tag, Tag::HelmChartsUpgradeError);
    assert_eq!(failure.user_log_message, "Error while trying to upgrade helm charts.");

    let (steps, run) = create(
        &r,
        vec![RouterReply::CommandFailed(CommandError::new("no kubeconfig".to_string(), None))],
    );
    assert_eq!(steps, vec![RouterCreateStep::GetKubeconfig]);
    assert_eq!(run.step, RouterCreateStep::Finished);
    assert_eq!(run.failure.unwrap().tag, Tag::Unknown);
}

#[test]
fn router_creation_surfaces_engine_failures_as_they_are() {
    let r = router(vec![]);
    let details = qovery_engine::cloud_provider::service::get_event_details(
        r.context(),
        Stage::Environment(EnvironmentStep::LoadConfiguration),
        r.to_transmitter(),
    );
    let inner = EngineError::new_router_failed_to_deploy(details);
    let (steps, run) = create(&r, vec![RouterReply::Done, RouterReply::Failed(inner)]);
    assert_eq!(steps, vec![RouterCreateStep::GetKubeconfig, RouterCreateStep::RenderContext]);
    let failure = run.failure.unwrap();
    assert_eq!(
        failure.event_details.stage,
        Stage::Environment(EnvironmentStep::LoadConfiguration)
    );
    let again = r.on_create_advance(
        RouterCreate { step: RouterCreateStep::Finished, failure: None },
        RouterReply::Done,
        "/w",
    );
    assert_eq!(again.step, RouterCreateStep::Finished);
    assert!(again.failure.is_none());
}

#[test]
fn cname_mismatch_is_a_warning_only() {
    let r = router(vec![
        ("a.example.org", "target.example.com"),
        ("b.example.org", "target.example.com."),
        ("c.example.org", "target.example.com"),
        ("d.example.org", "target.example.com"),
    ]);
    let warnings = r
        .on_create_check(
            true,
            &vec![
                Ok("target.example.com.".to_string()),
                Ok("target.example.com".to_string()),
                Ok("cdn.example.net.".to_string()),
                Err("no record".to_string()),
            ],
        )
        .unwrap();
    assert_eq!(warnings.len(), 2);
    match &warnings[0] {
        EngineEvent::Warning(details, message) => {
            assert_eq!(
                message.safe_message,
                "Invalid CNAME for c.example.org. Might not be an issue if user is using a CDN."
            );
            assert_eq!(message.full_details.as_deref(), Some("cdn.example.net."));
            assert_eq!(details.stage, Stage::Environment(EnvironmentStep::Deploy));
        }
        other => panic!("unexpected event {:?}", other),
    }
    match &warnings[1] {
        EngineEvent::Warning(_, message) => {
            assert_eq!(
                message.safe_message,
                "Invalid CNAME for d.example.org. Might not be an issue if user is using a CDN."
            );
            assert_eq!(message.full_details.as_deref(), Some("no record"));
        }
        other => panic!("unexpected event {:?}", other),
    }
    let domain = &r.custom_domains[0];
    assert!(r.check_cname(domain, Some(&Ok("target.example.com...".to_string()))).is_none());
    assert!(r.check_cname(domain, Some(&Ok("target.example.co".to_string()))).is_some());
    assert!(r.check_cname(domain, Some(&Err("timeout".to_string()))).is_some());
}

#[test]
fn custom_domains_never_fail_the_check() {
    let r = router(vec![("a.example.org", "t.example.com"), ("b.example.org", "t.example.com")]);
    let all_wrong = vec![Err("does not resolve".to_string()), Ok("elsewhere.net".to_string())];
    let warnings = r.on_create_check(true, &all_wrong).unwrap();
    assert_eq!(warnings.len(), 2);
    let none_wrong = vec![Ok("t.example.com".to_string()), Ok("t.example.com.".to_string())];
    assert!(r.on_create_check(true, &none_wrong).unwrap().is_empty());
}

#[test]
fn only_the_default_domain_can_fail_the_check() {
    let r = router(vec![("a.example.org", "t.example.com")]);
    let cnames = vec![Ok("t.example.com".to_string())];
    let err = r.on_create_check(false, &cnames).unwrap_err();
    assert_eq!(err.tag, Tag::DomainNotAvailable);
    assert_eq!(
        err.user_log_message,
        "Unable to check domain availability for `default.example.com`"
    );
    assert_eq!(err.event_details.stage, Stage::Environment(EnvironmentStep::Deploy));
    assert!(err.message.is_none());
    assert!(r.on_create_check(true, &cnames).unwrap().is_empty());
}

#[test]
fn custom_domain_without_a_finding_is_warned_about() {
    let r = router(vec![("a.example.org", "t.example.com"), ("b.example.org", "t.example.com")]);
    let warnings = r.on_create_check(true, &vec![Ok("t.example.com".to_string())]).unwrap();
    assert_eq!(warnings.len(), 1);
    match &warnings[0] {
        EngineEvent::Warning(_, message) => {
            assert_eq!(
                message.safe_message,
                "Invalid CNAME for b.example.org. Might not be an issue if user is using a CDN."
            );
            assert!(message.full_details.is_none());
        }
        other => panic!("unexpected event {:?}", other),
    }
    let too_many = vec![
        Ok("t.example.com".to_string()),
        Ok("t.example.com".to_string()),
        Err("beyond".to_string()),
    ];
    assert!(r.on_create_check(true, &too_many).unwrap().is_empty());
    assert_eq!(r.on_create_check(true, &vec![]).unwrap().len(), 2);
    assert!(r.check_cname(&r.custom_domains[0], None).is_some());
}

#[test]
fn router_operations() {
    let r = router(vec![]);
    let call = r.on_pause();
    assert_eq!(call.task, ServiceTask::Nothing);
    assert_eq!(call.progress, None);
    assert!(r.on_pause_check().is_ok());
    assert_eq!(r.on_pause_error().task, ServiceTask::Nothing);
    let call = r.on_create_error();
    assert_eq!(call.task, ServiceTask::DeployStatelessServiceError);
    assert_eq!(call.progress, Some(Action::Create));
    assert_eq!(r.on_delete().task, ServiceTask::DeleteRouter { is_error: false });
    assert!(r.on_delete_check().is_ok());
    let call = r.on_delete_error();
    assert_eq!(call.task, ServiceTask::DeleteRouter { is_error: true });
    match call.event {
        EngineEvent::Warning(details, message) => {
            assert_eq!(message.safe_message, "aws.router.on_delete_error called for my_router");
            assert_eq!(details.stage, Stage::Environment(EnvironmentStep::Delete));
        }
        other => panic!("unexpected event {:?}", other),
    }
}

#[test]
fn first_unresolved_domain_blocks() {
    let r = router(vec![]);
    let details = || {
        qovery_engine::cloud_provider::service::get_event_details(
            r.context(),
            Stage::Environment(EnvironmentStep::Deploy),
            r.to_transmitter(),
        )
    };
    let domains = vec!["a".to_string(), "b".to_string(), "c".to_string()];
    assert!(check_domains(&domains, &vec![true, true, true], details()).is_ok());
    assert!(check_domains(&vec![], &vec![], details()).is_ok());
    let err = check_domains(&domains, &vec![true, false, false], details()).unwrap_err();
    assert_eq!(err.user_log_message, "Unable to check domain availability for `b`");
    assert!(err.message.is_none());
}

#[test]
fn domain_without_a_finding_blocks() {
    let r = router(vec![]);
    let details = || {
        qovery_engine::cloud_provider::service::get_event_details(
            r.context(),
            Stage::Environment(EnvironmentStep::Deploy),
            r.to_transmitter(),
        )
    };
    let domains = vec!["a".to_string(), "b".to_string(), "c".to_string()];
    let err = check_domains(&domains, &vec![true, true], details()).unwrap_err();
    assert_eq!(err.user_log_message, "Unable to check domain availability for `c`");
    let err = check_domains(&domains, &vec![], details()).unwrap_err();
    assert_eq!(err.user_log_message, "Unable to check domain availability for `a`");
    assert!(check_domains(&domains, &vec![true, true, true, false], details()).is_ok());
    assert!(check_domains(&vec![], &vec![false], details()).is_ok());
}
