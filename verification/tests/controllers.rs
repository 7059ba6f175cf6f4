use clair_operator::clairs::{
    self, admin_post, admin_post_check, admin_pre, admin_pre_check, cleanup_one, configuration,
    deployment_ready, promote_image, reconcile_one, AdminPost, AdminPre, Requeue, Step,
};
use clair_operator::condition::{Conditions, Type};
use clair_operator::event::{self, EventType};
use clair_operator::indexers;
use clair_operator::k8s::meta::{Condition, ObjectMeta, OwnerReference, Time};
use clair_operator::k8s::pod::{
    ConfigMap, Container, EnvVar, PodSpec, PodTemplateSpec, Service, TypedLocalObjectReference,
    Volume, VolumeMount,
};
use clair_operator::k8s::workload::{
    Deployment, DeploymentCondition, DeploymentSpec, DeploymentStatus, HorizontalPodAutoscaler,
    HorizontalPodAutoscalerSpec, Job, JobStatus,
};
use clair_operator::maps::KeyMap;
use clair_operator::matchers;
use clair_operator::model::Model;
use clair_operator::mounts::make_volumes;
use clair_operator::owned::{check_owned_resource, how_to_write, Write};
use clair_operator::resource::Resource;
use clair_operator::status::{StatusCommon, SubSpecCommon, SubStatusCommon};
use clair_operator::subresource::{
    self, check_config, check_creation, check_deployment, check_hpa, check_service, check_spec,
    deployment_written, dropin_owner, hooked, lookup_name, needed_config, new_dropin_map,
    object_written, publish, Attempt, Commit, DropinCheck, Hook, HookResult, Published,
};
use clair_operator::testing::{
    AdminPreScenario, Answer, Change, ClairScenario, ClairServerVerifier, ConfigurationScenario,
    SentEvent,
};
use clair_operator::templates::workers::{ConfigMapBuilder, IndexerBuilder, MatcherBuilder};
use clair_operator::templates::Build;
use clair_operator::v1alpha1::{
    Clair, ClairStatus, ConfigMapKeySelector, ConfigSource, DropinSource, Indexer, IndexerSpec,
    IndexerStatus, Matcher, MatcherStatus,
};

fn moment() -> Time {
    Time {
        second: 1,
        nanosecond: 2,
    }
}

fn run(scenario: ClairScenario) -> (Clair, ClairServerVerifier) {
    (
        scenario.object_at(moment()),
        ClairServerVerifier::new_at(scenario, moment()),
    )
}

const CLAIR: &str = "/apis/clairproject.org/v1alpha1/namespaces/default/clairs/test";
const EVENTS: &str = "/apis/events.k8s.io/v1/namespaces/default/events";
const CREATE: &str = "?&fieldManager=clair-controller";
const APPLY: &str = "?&fieldManager=clair-controller&fieldValidation=Strict";

fn sent(ev: &event::Event) -> SentEvent {
    SentEvent {
        type_: Some(ev.type_.as_str().to_string()),
        reason: Some(ev.reason.clone()),
        action: Some(ev.action.clone()),
        note: ev.note.clone(),
    }
}

fn patch(srv: &mut ClairServerVerifier, status: ClairStatus) -> Option<Clair> {
    srv.status_patch("PATCH", &format!("{CLAIR}/status{APPLY}"), status)
}

fn with_condition(cnd: Condition) -> ClairStatus {
    ClairStatus {
        conditions: Some(vec![cnd]),
        ..Default::default()
    }
}

#[test]
fn finalizer() {
    let (c, mut srv) = run(ClairScenario::FinalizerCreation);
    assert_eq!(c.metadata.finalizers, None);
    assert!(!srv.finished());
    let uri = format!("{CLAIR}?");
    let change = |op: &str, value: Option<Vec<String>>| Change {
        op: op.to_string(),
        path: "/metadata/finalizers".to_string(),
        value,
    };
    let ours = Some(vec![clairs::CLAIR_FINALIZER.to_string()]);
    let changes = vec![change("test", None), change("add", ours.clone())];
    assert_eq!(srv.finalizer("PUT", &uri, &changes), None);
    assert_eq!(srv.finalizer("PATCH", CLAIR, &changes), None);
    assert_eq!(srv.finalizer("PATCH", &format!("/api/x{uri}"), &changes), None);
    assert_eq!(srv.finalizer("PATCH", &uri, &vec![change("add", ours.clone())]), None);
    let other = vec![change("test", None), change("add", Some(vec![]))];
    assert_eq!(srv.finalizer("PATCH", &uri, &other), None);
    let answer = srv.finalizer("PATCH", &uri, &changes).unwrap();
    assert_eq!(answer.metadata.finalizers, ours);
    assert_eq!(answer.spec, c.spec);
    assert!(srv.finished());
    assert_eq!(srv.finalizer("PATCH", &uri, &changes), None);
}

#[test]
fn finalized_clairs_causes_event() {
    let (c, mut srv) = run(ClairScenario::Finalize);
    assert_eq!(
        c.metadata.finalizers,
        Some(vec![clairs::CLAIR_FINALIZER.to_string()])
    );
    let plan = reconcile_one(&c);
    assert_eq!(plan.steps, vec![]);
    assert_eq!(plan.next, Requeue::AwaitChange);
    assert_eq!(plan.events.len(), 2);
    for (ev, field) in plan.events.iter().zip(["$.spec.databases", "$.spec.image"]) {
        assert_eq!(
            ev.note,
            Some(format!("Clair `test` missing `{field}`"))
        );
    }
    let (first, second) = (sent(&plan.events[0]), sent(&plan.events[1]));
    assert!(!srv.event("PUT", EVENTS, &first));
    assert!(!srv.event("POST", CLAIR, &first));
    let other = SentEvent {
        reason: Some("Other".to_string()),
        ..sent(&plan.events[0])
    };
    assert!(!srv.event("POST", EVENTS, &other));
    assert!(srv.event("POST", &format!("{EVENTS}?"), &first));
    // The instance has an image by then, so that nothing may say that it is missing.
    assert!(!srv.event("POST", EVENTS, &second));
    // An event that differs in its note alone is sent as a repetition of the one before.
    let repeated = SentEvent {
        note: first.note,
        ..second
    };
    assert!(srv.event("PATCH", &format!("{EVENTS}/test.1?"), &repeated));
    assert!(srv.finished());
}

/// Creates an object that belongs to the instance, as it is expected next.
fn create<R: Resource>(
    srv: &mut ClairServerVerifier,
    c: &Clair,
    wanted: R,
    plural: &str,
) -> Clair {
    let path = format!("/apis/clairproject.org/v1alpha1/namespaces/default/{plural}");
    let kind = R::kind();
    assert_eq!(
        srv.check_resource("GET", &format!("{path}/test")),
        Some(Answer::NotFound(format!(
            "{{\"code\":404,\"details\":{{\"group\":\"clairproject.org\",\"kind\":\"{kind}\",\"name\":\"test\"}},\"reason\":\"NotFound\",\"status\":\"Failure\"}}"
        )))
    );
    let current: Option<R> = None;
    assert_eq!(how_to_write(&current), Write::Create);
    let body = format!("{{\"metadata\":{{\"name\":\"{}\"}}}}", wanted.name_any()).into_bytes();
    let uri = format!("{path}{CREATE}");
    assert!(!srv.create_resource("PUT", &uri, &body));
    assert!(!srv.create_resource("POST", &path, &body));
    assert!(!srv.create_resource("POST", &uri, &b"{}".to_vec()));
    assert!(srv.create_resource("POST", &uri, &body));
    let report = check_owned_resource(c, &wanted, &current, &wanted, moment()).unwrap();
    assert_eq!(report.condition.reason, format!("{kind}Created"));
    let c = patch(srv, with_condition(report.condition)).unwrap();
    assert!(srv.event("POST", EVENTS, &sent(&report.event)));
    c
}

#[test]
fn ready() {
    let (mut c, mut srv) = run(ClairScenario::Ready);
    let plan = reconcile_one(&c);
    assert_eq!(plan.events, vec![]);
    assert_eq!(plan.next, Requeue::After(3_600_000));
    assert_eq!(
        plan.steps,
        vec![
            Step::Configuration,
            Step::AdminPre,
            Step::PromoteImage,
            Step::Indexer,
            Step::Matcher,
            Step::AdminPost,
        ]
    );
    // Configuration
    let cm_path = "/api/v1/namespaces/default/configmaps/test";
    assert!(matches!(
        srv.check_resource("GET", cm_path),
        Some(Answer::Found(ref v)) if v.starts_with(b"{\"data\":{\"config.json\":\"{}\"}")
    ));
    let uri = format!("{cm_path}{APPLY}");
    let change = br#"{"data":{"a.json":"[]"},"metadata":{"name":"test"}}"#.to_vec();
    let other = br#"{"metadata":{"name":"other"}}"#.to_vec();
    assert_eq!(srv.update_resource("PATCH", &uri, &other), None);
    assert_eq!(srv.update_resource("PATCH", cm_path, &change), None);
    assert_eq!(srv.update_resource("PATCH", &uri, &b"{".to_vec()), None);
    let changed = srv.update_resource("PATCH", &uri, &change).unwrap();
    assert_eq!(
        changed,
        br#"{"data":{"a.json":"[]","config.json":"{}"},"kind":"ConfigMap","metadata":{"name":"test","namespace":"default"},"version":"v1"}"#.to_vec()
    );
    let cm = ConfigMapBuilder::try_from(&c).unwrap().build();
    let status = configuration(&c, &cm, moment()).unwrap();
    c = patch(&mut srv, status).unwrap();
    // Job before the upgrade
    match admin_pre(&c, moment()).unwrap() {
        AdminPre::Report(cnd) => {
            c = patch(&mut srv, with_condition(cnd)).unwrap();
        }
        other => panic!("unexpected: {other:?}"),
    }
    assert_eq!(c.status.as_ref().unwrap().conditions.as_ref().unwrap().len(), 2);
    // Image promotion
    let status = promote_image(&c).unwrap();
    assert_eq!(status.image, Some("example.com/clair:1.2.3".to_string()));
    c = patch(&mut srv, status).unwrap();
    assert_eq!(promote_image(&c), None);
    // Indexer
    let indexer = IndexerBuilder::try_from(&c).unwrap().build();
    c = create(&mut srv, &c, indexer, "indexers");
    // Matcher
    let matcher = MatcherBuilder::try_from(&c).unwrap().build();
    c = create(&mut srv, &c, matcher, "matchers");
    assert!(srv.finished());
    assert_eq!(c.status.as_ref().unwrap().conditions.as_ref().unwrap().len(), 4);
    // Nothing more is sent for the job after the upgrade.
    assert!(matches!(admin_post(&c), AdminPost::Stop(_)));

    c.spec.notifier = Some(true);
    assert_eq!(reconcile_one(&c).steps[5], Step::Notifier);
    c.status = None;
    let plan = reconcile_one(&c);
    assert_eq!(plan.steps, vec![Step::Configuration]);
    assert_eq!(plan.next, Requeue::After(250));
}

#[test]
fn configuration_is_created() {
    let scenario = ConfigurationScenario::from_str("create").unwrap();
    assert!(ConfigurationScenario::from_str("created").is_none());
    let (c, mut srv) = run(ClairScenario::Configuration(scenario));
    let path = "/api/v1/namespaces/default/configmaps";
    assert!(matches!(
        srv.check_resource("GET", &format!("{path}/test")),
        Some(Answer::NotFound(_))
    ));
    let body = br#"{"metadata":{"name":"test"}}"#.to_vec();
    assert!(srv.create_resource("POST", &format!("{path}{CREATE}"), &body));
    let wanted = ConfigMapBuilder::try_from(&c).unwrap().build();
    let report = check_owned_resource(&c, &wanted, &None, &wanted, moment()).unwrap();
    assert!(patch(&mut srv, with_condition(report.condition)).is_some());
    assert!(srv.event("POST", EVENTS, &sent(&report.event)));
    let mut data = KeyMap::new();
    data.insert("config.json".to_string(), "{}".to_string());
    data.insert("00-indexer.json-patch".to_string(), "[]".to_string());
    let cm = ConfigMap {
        metadata: ObjectMeta {
            name: Some("test".to_string()),
            ..Default::default()
        },
        data: Some(data),
        binary_data: None,
    };
    let status = configuration(&c, &cm, moment()).unwrap();
    assert!(!srv.finished());
    let after = patch(&mut srv, status.dup()).unwrap();
    assert_eq!(after.status.unwrap().config, status.config);
    assert!(srv.finished());
    let config = status.config.unwrap();
    assert_eq!(config.root.name, "test");
    assert_eq!(
        config.dropins,
        vec![
            DropinSource::secret("test", "database"),
            DropinSource::config_map("test", "00-indexer.json-patch"),
        ]
    );
    let cnd = &status.conditions.unwrap()[0];
    assert_eq!(cnd.type_, "clairproject.org/ConfigReady");
    assert_eq!(cnd.status, "True");
    assert_eq!(cnd.reason, "Reconciled");
    assert_eq!(cnd.observed_generation, Some(2));
    assert_eq!(status.image, None);
}

#[test]
fn admin_pre_scenarios() {
    assert_eq!(ClairScenario::admin_pre().len(), 5);
    let jobs = "/apis/batch/v1/namespaces/default/jobs";
    for name in ["unversioned", "new", "spec_changed", "spec_unchanged_check", "spec_unchanged_done"] {
        let which = AdminPreScenario::from_str(name).unwrap();
        let scenario = ClairScenario::AdminPre(which);
        let (c, mut srv) = run(scenario);
        match (admin_pre(&c, moment()).unwrap(), name) {
            (AdminPre::Skip(ev), "unversioned") => {
                assert_eq!(scenario.run(), vec![]);
                assert_eq!(ev.reason, "ImageRefNotVersioned");
                assert_eq!(ev.type_, EventType::Normal);
            }
            (AdminPre::Report(cnd), "new") => {
                assert_eq!(cnd.reason, "NewClair");
                assert_eq!(cnd.status, "True");
                assert_eq!(patch(&mut srv, ClairStatus::default()), None);
                assert!(patch(&mut srv, with_condition(cnd)).is_some());
            }
            (AdminPre::Create(job, cnd), "spec_changed") => {
                assert_eq!(job.metadata.name, Some("test-admin-pre-1.2.3".to_string()));
                let body = br#"{"metadata":{"name":"test-admin-pre-1.2.3"}}"#.to_vec();
                assert!(srv.create_resource("POST", &format!("{jobs}{CREATE}"), &body));
                assert!(Type::AdminPreJobDone.is(&cnd.type_));
                let mut other = cnd.dup();
                other.status = "True".to_string();
                assert_eq!(patch(&mut srv, with_condition(other)), None);
                let mut other = cnd.dup();
                other.type_ = Type::ConfigReady.to_string();
                assert_eq!(patch(&mut srv, with_condition(other)), None);
                assert!(patch(&mut srv, with_condition(cnd)).is_some());
                assert_eq!(promote_image(&c), None);
            }
            (AdminPre::Check(job), "spec_unchanged_check") => {
                assert_eq!(job, "test-admin-pre-1.2.3");
                assert_eq!(srv.check_resource("GET", jobs), None);
                assert!(matches!(
                    srv.check_resource("GET", &format!("{jobs}/{job}")),
                    Some(Answer::Found(_))
                ));
                let found = Some(Job {
                    status: Some(JobStatus {
                        active: Some(1),
                        ..Default::default()
                    }),
                    ..Default::default()
                });
                let cnd = admin_pre_check(&c, &job, &found, moment());
                let mut other = cnd.dup();
                other.reason = "ImageUpdated".to_string();
                assert_eq!(patch(&mut srv, with_condition(other)), None);
                let c = patch(&mut srv, with_condition(cnd)).unwrap();
                assert_eq!(promote_image(&c), None);
            }
            (AdminPre::Check(job), "spec_unchanged_done") => {
                assert!(matches!(
                    srv.check_resource("GET", &format!("{jobs}/{job}")),
                    Some(Answer::Found(_))
                ));
                let found = Some(Job {
                    status: Some(JobStatus {
                        active: Some(0),
                        succeeded: Some(1),
                        ..Default::default()
                    }),
                    ..Default::default()
                });
                let cnd = admin_pre_check(&c, &job, &found, moment());
                let c = patch(&mut srv, with_condition(cnd)).unwrap();
                // Once that is reported, the image becomes current.
                assert!(promote_image(&c).is_some());
                assert_eq!(admin_pre(&c, moment()).unwrap(), AdminPre::Done);
            }
            other => panic!("unexpected: {other:?}"),
        }
        assert!(srv.finished());
    }
    assert!(AdminPreScenario::from_str("other").is_none());
}

#[test]
fn jobs_may_fail_or_be_missing() {
    let (c, _) = run(ClairScenario::AdminPre(AdminPreScenario::SpecUnchangedCheck));
    let cnd = admin_pre_check(&c, "j", &None, moment());
    assert_eq!(cnd.reason, "JobMissing");
    assert_eq!(cnd.status, "Unknown");
    assert_eq!(cnd.message, "unable to fetch job \"j\"");
    let failed = Some(Job {
        status: Some(JobStatus {
            active: Some(0),
            failed: Some(1),
            succeeded: Some(1),
        }),
        ..Default::default()
    });
    let cnd = admin_pre_check(&c, "j", &failed, moment());
    assert_eq!(cnd.reason, "JobFailed");
    let unknown = Some(Job::default());
    assert_eq!(
        admin_pre_check(&c, "j", &unknown, moment()).reason,
        "JobNotComplete"
    );
}

#[test]
fn images_are_promoted_in_time() {
    let (mut c, _) = run(ClairScenario::AdminPre(AdminPreScenario::SpecUnchangedCheck));
    assert_eq!(promote_image(&c), None);
    let set = |c: &mut Clair, status: &str, generation: i64, image: &str| {
        let s = c.status.as_mut().unwrap();
        s.image = Some(image.to_string());
        let cnd = &mut s.conditions.as_mut().unwrap()[0];
        cnd.status = status.to_string();
        cnd.observed_generation = Some(generation);
    };
    set(&mut c, "True", 2, "example.com/clair:1.2.3");
    assert_eq!(promote_image(&c), None);
    set(&mut c, "True", 1, "old");
    assert_eq!(promote_image(&c), None);
    set(&mut c, "True", 2, "old");
    assert_eq!(
        promote_image(&c),
        Some(ClairStatus {
            image: Some("example.com/clair:1.2.3".to_string()),
            ..Default::default()
        })
    );
    c.status = None;
    assert!(promote_image(&c).is_some());
}

fn done(ty: Type) -> Condition {
    Condition {
        type_: ty.to_string(),
        status: "True".to_string(),
        ..Default::default()
    }
}

#[test]
fn the_last_job_waits() {
    let (mut c, _) = run(ClairScenario::Ready);
    let note = |p: AdminPost| match p {
        AdminPost::Stop(ev) => (ev.reason, ev.note),
        other => panic!("{other:?}"),
    };
    assert_eq!(
        note(admin_post(&c)),
        (
            "AdminPostNotReady".to_string(),
            Some("conditions not met".to_string())
        )
    );
    c.status.as_mut().unwrap().conditions = Some(vec![
        done(Type::AdminPostJobDone),
        done(Type::IndexerCreated),
        done(Type::MatcherCreated),
    ]);
    assert_eq!(
        admin_post(&c),
        AdminPost::Await(vec!["test-Indexer".to_string(), "test-Matcher".to_string()])
    );
    c.spec.notifier = Some(true);
    assert_eq!(note(admin_post(&c)).0, "AdminPostNotReady");
    c.status
        .as_mut()
        .unwrap()
        .conditions
        .as_mut()
        .unwrap()
        .push(done(Type::NotifierCreated));
    assert!(matches!(admin_post(&c), AdminPost::Await(names) if names.len() == 3));
    c.spec.image = Some("clair:latest".to_string());
    assert!(matches!(
        admin_post(&c),
        AdminPost::Publish(ev) if ev.reason == "ImageRefNotVersioned" && ev.note.is_none()
    ));
    assert_eq!(admin_post_check(true), None);
    assert_eq!(
        admin_post_check(false).unwrap().note,
        Some("Deployments not ready".to_string())
    );
    assert!(c.find_condition(Type::NotifierCreated).is_some());
}

#[test]
fn deployments_get_ready() {
    let cond = |t: &str, s: &str| DeploymentCondition {
        type_: t.to_string(),
        status: s.to_string(),
        ..Default::default()
    };
    let mut d = Deployment::default();
    assert!(!deployment_ready(&d));
    d.status = Some(DeploymentStatus {
        conditions: Some(vec![cond("Ready", "False"), cond("Other", "True")]),
    });
    assert!(!deployment_ready(&d));
    d.status = Some(DeploymentStatus {
        conditions: Some(vec![cond("Ready", "False"), cond("Ready", "True")]),
    });
    assert!(deployment_ready(&d));
}

#[test]
fn nothing_is_left_to_clean_up() {
    let (ev, next) = cleanup_one();
    assert_eq!(
        ev,
        event::new(
            EventType::Normal,
            clairs::event::Reason::DeleteRequested,
            clairs::event::Action::Cleanup,
        )
    );
    assert_eq!(next, Requeue::AwaitChange);
    assert_eq!(clairs::error_policy(), Requeue::After(5000));
    assert_eq!(indexers::error_policy(), Requeue::After(5000));
    assert_eq!(subresource::handle_error(), Requeue::AwaitChange);
    assert_eq!(matchers::handle_error(), Requeue::AwaitChange);
}

fn named<T>(f: impl FnOnce(ObjectMeta) -> T, name: &str, generation: i64) -> T {
    f(ObjectMeta {
        name: Some(name.to_string()),
        generation: Some(generation),
        ..Default::default()
    })
}

#[test]
fn owned_objects_are_reported() {
    let clair = named(
        |metadata| Clair {
            metadata,
            ..Default::default()
        },
        "test",
        3,
    );
    let make = |generation| {
        named(
            |metadata| Indexer {
                metadata,
                ..Default::default()
            },
            "test",
            generation,
        )
    };
    assert_eq!(how_to_write::<Indexer>(&None), Write::Create);
    let r = check_owned_resource(&clair, &make(0), &None, &make(1), moment()).unwrap();
    assert_eq!(r.condition.type_, "projectclair.io/IndexerCreated");
    assert_eq!(r.condition.reason, "IndexerCreated");
    assert_eq!(r.condition.message, "created Indexer");
    assert_eq!(r.condition.observed_generation, Some(3));
    assert_eq!(r.event.action, "CreatedIndexer");
    assert_eq!(r.event.reason, "Clair requires Indexer \"test\"");
    assert_eq!(r.event.secondary, Some(make(1).object_ref()));
    let current = Some(make(1));
    assert_eq!(how_to_write(&current), Write::Patch);
    let r = check_owned_resource(&clair, &make(0), &current, &make(2), moment()).unwrap();
    assert_eq!(r.condition.reason, "IndexerUpdated");
    assert_eq!(r.condition.message, "patched Indexer");
    assert_eq!(r.event.action, "UpdatedIndexer");
    assert_eq!(
        check_owned_resource(&clair, &make(0), &current, &make(1), moment()),
        None
    );
}

fn config() -> ConfigSource {
    ConfigSource {
        root: ConfigMapKeySelector {
            name: "root".to_string(),
            key: "config.yaml".to_string(),
        },
        dropins: vec![DropinSource::secret("db", "k")],
    }
}

#[test]
fn statuses_hold_one_of_each() {
    let mut s = IndexerStatus::default();
    let cnd = |t: &str, m: &str| Condition {
        type_: t.to_string(),
        message: m.to_string(),
        ..Default::default()
    };
    s.add_condition(cnd("b", "1"));
    s.add_condition(cnd("a", "2"));
    s.add_condition(cnd("b", "3"));
    assert_eq!(s.conditions, vec![cnd("a", "2"), cnd("b", "3")]);
    assert!(s.has_ref::<Service>().is_none());
    let service = named(
        |metadata| Service {
            metadata,
            spec: None,
        },
        "s",
        1,
    );
    s.add_ref(&service);
    let d = named(
        |metadata| Deployment {
            metadata,
            ..Default::default()
        },
        "d",
        1,
    );
    s.add_ref(&d);
    assert_eq!(
        s.refs[0],
        TypedLocalObjectReference {
            api_group: Some("apps/v1".to_string()),
            kind: "Deployment".to_string(),
            name: "d".to_string(),
        }
    );
    assert_eq!(s.has_ref::<Service>().unwrap().name, "s");
    s.set_config(Some(config()));
    assert_eq!(*SubStatusCommon::get_config(&s), Some(config()));
    let mut spec = IndexerSpec::default();
    assert_eq!(spec.image_default("d"), "d");
    spec.set_values("i", Some(config()));
    assert_eq!(spec.image_default("d"), "i");
    assert_eq!(*SubSpecCommon::get_config(&spec), Some(config()));
}

#[test]
fn steps_run_in_order() {
    let mut seen = vec![];
    let mut next = Some(Hook::first());
    while let Some(h) = next {
        seen.push(h);
        next = h.next(true);
    }
    assert_eq!(
        seen,
        vec![
            Hook::Dropin,
            Hook::Config,
            Hook::Deployment,
            Hook::Service,
            Hook::HPA,
            Hook::Creation,
        ]
    );
    assert_eq!(Hook::Config.next(false), None);
    assert_eq!(hooked(None), None);
    assert_eq!(hooked(Some(HookResult::Continue)), None);
    assert_eq!(hooked(Some(HookResult::Return(false))), Some(false));
    let mut next = Some(matchers::Check::first());
    let mut n = 0;
    while let Some(c) = next {
        n += 1;
        next = c.next(true);
    }
    assert_eq!(n, 5);
    assert_eq!(matchers::Check::HPA.next(false), None);
}

fn indexer() -> Indexer {
    Indexer {
        metadata: ObjectMeta {
            name: Some("test".to_string()),
            namespace: Some("ns".to_string()),
            uid: Some("1".to_string()),
            generation: Some(4),
            ..Default::default()
        },
        ..Default::default()
    }
}

#[test]
fn specs_are_checked() {
    let i = indexer();
    let (next, ev) = check_spec::<Indexer, IndexerStatus>(&i, &None, &None, moment());
    let ev = ev.unwrap();
    assert_eq!(ev.type_, EventType::Warning);
    assert_eq!(ev.note, Some("missing field \"/spec/config\"".to_string()));
    assert_eq!(next.conditions[0].type_, "projectclair.io/SpecOK");
    assert_eq!(next.conditions[0].reason, "SpecIncomplete");
    let (next, ev) = check_spec(&i, &Some(config()), &Some(next), moment());
    assert_eq!(ev, None);
    assert_eq!(next.conditions.len(), 1);
    assert_eq!(next.conditions[0].status, "True");
    assert_eq!(next.conditions[0].observed_generation, Some(4));
}

#[test]
fn writes_are_tried_three_times() {
    assert_eq!(publish(1, "7", &Published::Failed), None);
    assert_eq!(publish(3, "7", &Published::Failed), Some(Requeue::After(5000)));
    assert_eq!(
        publish(1, "7", &Published::Version(Some("7".to_string()))),
        Some(Requeue::After(3_600_000))
    );
    assert_eq!(
        publish(2, "7", &Published::Version(Some("8".to_string()))),
        Some(Requeue::AwaitChange)
    );
    assert_eq!(
        publish(1, "7", &Published::Version(None)),
        Some(Requeue::After(5000))
    );
    assert_eq!(deployment_written(1, Commit::Saved), Attempt::Stop(true));
    assert_eq!(deployment_written(3, Commit::Saved), Attempt::Stop(false));
    assert_eq!(deployment_written(1, Commit::Invalid), Attempt::Again(2));
    assert_eq!(deployment_written(3, Commit::Invalid), Attempt::Stop(false));
    assert_eq!(deployment_written(1, Commit::Failed), Attempt::Fail);
    assert_eq!(object_written(3, Commit::Saved), Attempt::Stop(true));
    assert_eq!(object_written(3, Commit::Invalid), Attempt::Stop(false));
    assert_eq!(object_written(2, Commit::Invalid), Attempt::Again(3));
    assert_eq!(object_written(2, Commit::Failed), Attempt::Fail);
}

#[test]
fn names_are_looked_up() {
    let i = indexer();
    let none: Option<IndexerStatus> = None;
    assert_eq!(
        lookup_name::<Indexer, ConfigMap, IndexerStatus>(&i, &none),
        "test-indexer"
    );
    let status = Some(IndexerStatus {
        refs: vec![TypedLocalObjectReference {
            api_group: None,
            kind: "ConfigMap".to_string(),
            name: "other".to_string(),
        }],
        ..Default::default()
    });
    assert_eq!(
        lookup_name::<Indexer, ConfigMap, IndexerStatus>(&i, &status),
        "other"
    );
    assert_eq!(
        lookup_name::<Indexer, Service, IndexerStatus>(&i, &status),
        "test-indexer"
    );
}

fn dropin_map(key: &str, data: &[&str]) -> ConfigMap {
    let mut annotations = KeyMap::new();
    annotations.insert("projectclair.io/dropin-key".to_string(), key.to_string());
    let mut m = KeyMap::new();
    for k in data {
        m.insert(k.to_string(), "x".to_string());
    }
    ConfigMap {
        metadata: ObjectMeta {
            name: Some("cm".to_string()),
            annotations: Some(annotations),
            ..Default::default()
        },
        data: Some(m),
        binary_data: None,
    }
}

#[test]
fn dropins_are_checked() {
    let mut next = IndexerStatus::default();
    assert_eq!(DropinCheck::start(), DropinCheck::FetchMap(1));
    let (state, ev) = DropinCheck::map_fetched(1, &dropin_map("k", &["k"]), &mut next);
    assert_eq!(state, DropinCheck::SaveMap(1, "k".to_string()));
    assert_eq!(ev, None);
    assert_eq!(next.refs[0].name, "cm");
    let (_, ev) = DropinCheck::map_fetched(1, &dropin_map("k", &[]), &mut next);
    assert_eq!(ev.unwrap().note, Some("missing expected key: k".to_string()));
    let plain = ConfigMap {
        metadata: ObjectMeta::default(),
        ..Default::default()
    };
    let (state, ev) = DropinCheck::map_fetched(1, &plain, &mut next);
    assert_eq!((state, ev), (DropinCheck::Finished(true), None));

    let k = || "k".to_string();
    assert_eq!(
        DropinCheck::map_saved(1, k(), Commit::Saved),
        DropinCheck::FetchOwner(1, k())
    );
    assert_eq!(
        DropinCheck::map_saved(1, k(), Commit::Invalid),
        DropinCheck::FetchMap(2)
    );
    assert_eq!(
        DropinCheck::map_saved(3, k(), Commit::Invalid),
        DropinCheck::Finished(false)
    );
    assert_eq!(DropinCheck::map_saved(1, k(), Commit::Failed), DropinCheck::Failed);
    assert_eq!(DropinCheck::owner_missing(2), DropinCheck::FetchMap(3));
    let mut dropins = vec![DropinSource::secret("cm", "k")];
    assert_eq!(
        DropinCheck::owner_fetched(1, &mut dropins, "cm", "k"),
        DropinCheck::SaveOwner(1)
    );
    assert_eq!(dropins[1], DropinSource::config_map("cm", "k"));
    assert_eq!(
        DropinCheck::owner_fetched(1, &mut dropins, "cm", "k"),
        DropinCheck::Finished(true)
    );
    assert_eq!(dropins.len(), 2);
    assert_eq!(
        DropinCheck::owner_saved(1, Commit::Saved),
        DropinCheck::Finished(true)
    );
    assert_eq!(
        DropinCheck::owner_saved(3, Commit::Invalid),
        DropinCheck::Finished(false)
    );

    let cm = new_dropin_map(dropin_map("k", &["k"]), "k", "service");
    assert_eq!(cm.data.unwrap().get("k"), Some(&"service".to_string()));
    let owner = |controller| OwnerReference {
        controller,
        ..Default::default()
    };
    let mut meta = ObjectMeta::default();
    assert!(dropin_owner(&meta).is_none());
    meta.owner_references = Some(vec![owner(None), owner(Some(false))]);
    assert!(dropin_owner(&meta).is_none());
    meta.owner_references = Some(vec![owner(None), owner(Some(true))]);
    assert!(dropin_owner(&meta).is_some());
}

fn deployment() -> Deployment {
    let env = |name: &str, value: &str| EnvVar {
        name: name.to_string(),
        value: Some(value.to_string()),
        value_from: None,
    };
    Deployment {
        metadata: ObjectMeta {
            name: Some("d".to_string()),
            ..Default::default()
        },
        spec: Some(DeploymentSpec {
            template: PodTemplateSpec {
                metadata: Some(ObjectMeta::default()),
                spec: Some(PodSpec {
                    containers: vec![
                        Container {
                            name: "side".to_string(),
                            ..Default::default()
                        },
                        Container {
                            name: "clair".to_string(),
                            env: Some(vec![env("Z", "z"), env("CLAIR_CONF", "mine")]),
                            volume_mounts: Some(vec![VolumeMount {
                                name: "dropins".to_string(),
                                mount_path: "/mine".to_string(),
                                sub_path: None,
                            }]),
                            ..Default::default()
                        },
                    ],
                    volumes: Some(vec![
                        Volume {
                            name: "dropins".to_string(),
                            ..Default::default()
                        },
                        Volume {
                            name: "a".to_string(),
                            ..Default::default()
                        },
                    ]),
                    ..Default::default()
                }),
            },
            ..Default::default()
        }),
        status: None,
    }
}

#[test]
fn deployments_are_tuned() {
    let cfg = config();
    let (vols, mounts, path) = make_volumes(&cfg);
    assert_eq!(path, "/etc/clair/config.yaml");
    assert_eq!(vols[1].name, "dropins");
    assert_eq!(mounts[1].mount_path, "/etc/clair/config.yaml.d");

    let d = check_deployment(deployment(), "indexer", &cfg, "img");
    let component = "app.kubernetes.io/component";
    assert_eq!(
        d.metadata.labels.as_ref().unwrap().get(component),
        Some(&"indexer".to_string())
    );
    let spec = d.spec.unwrap();
    assert_eq!(
        spec.selector.match_labels.as_ref().unwrap().get(component),
        Some(&"indexer".to_string())
    );
    let pod = spec.template.spec.unwrap();
    let names: Vec<&str> = pod.volumes.as_ref().unwrap().iter().map(|v| v.name.as_str()).collect();
    assert_eq!(names, vec!["a", "dropins", "root-config"]);
    // The volume of the configuration wins over the one that was there.
    assert!(pod.volumes.as_ref().unwrap()[1].projected.is_some());
    assert_eq!(pod.containers[0].image, None);
    let c = &pod.containers[1];
    assert_eq!(c.image, Some("img".to_string()));
    let mounts = c.volume_mounts.as_ref().unwrap();
    assert_eq!(mounts.len(), 2);
    // The mount that was there wins.
    assert_eq!(mounts[0].mount_path, "/mine");
    let env: Vec<(&str, &str)> = c
        .env
        .as_ref()
        .unwrap()
        .iter()
        .map(|e| (e.name.as_str(), e.value.as_deref().unwrap()))
        .collect();
    assert_eq!(
        env,
        vec![("CLAIR_CONF", "mine"), ("CLAIR_MODE", "indexer"), ("Z", "z")]
    );
    assert_eq!(needed_config(&None), Err("missing needed spec field: config"));
    assert_eq!(needed_config(&Some(config())), Ok(&config()));
}

#[test]
fn services_and_autoscalers_are_labelled() {
    let s = check_service(Service::default(), "indexer");
    assert_eq!(
        s.metadata.labels.unwrap().get("app.kubernetes.io/component"),
        Some(&"indexer".to_string())
    );
    let h = check_hpa(
        HorizontalPodAutoscaler {
            spec: Some(HorizontalPodAutoscalerSpec {
                max_replicas: 7,
                ..Default::default()
            }),
            ..Default::default()
        },
        "indexer",
        "d",
    );
    let spec = h.spec.unwrap();
    assert_eq!(spec.scale_target_ref.name, "d");
    assert_eq!(spec.max_replicas, 7);
}

fn refs(kinds: &[&str]) -> Vec<TypedLocalObjectReference> {
    kinds
        .iter()
        .map(|k| TypedLocalObjectReference {
            api_group: None,
            kind: k.to_string(),
            name: "x".to_string(),
        })
        .collect()
}

#[test]
fn creation_is_checked() {
    let i = indexer();
    let mut next = IndexerStatus::default();
    assert!(!check_creation(&i, &None, &mut next, moment()));
    assert_eq!(next.conditions[0].message, "missing: ");
    let some = Some(IndexerStatus {
        refs: refs(&["Service", "ConfigMap"]),
        ..Default::default()
    });
    assert!(!check_creation(&i, &some, &mut next, moment()));
    assert_eq!(next.conditions[0].message, "missing: ConfigMap, Service");
    let all = Some(IndexerStatus {
        refs: refs(&["Service", "ConfigMap", "Deployment", "HorizontalPodAutoscaler"]),
        ..Default::default()
    });
    assert!(check_creation(&i, &all, &mut next, moment()));
    assert_eq!(next.conditions.len(), 1);
    assert_eq!(next.conditions[0].message, "🆗");
    assert_eq!(next.conditions[0].status, "True");
    check_config(&None, &mut next);
    assert_eq!(next.config, None);
    check_config(&Some(config()), &mut next);
    assert_eq!(next.config, Some(config()));
}

#[test]
fn indexers_are_reviewed() {
    let mut i = indexer();
    let r = indexers::check_spec(&i, moment());
    assert_eq!(r.event.note, Some("spec missing ConfigSource".to_string()));
    assert_eq!(r.condition.status, "False");
    assert_eq!(r.stop, Some(Requeue::After(3_600_000)));
    assert_eq!(indexers::reconcile_one(&r), (vec![], Requeue::After(3_600_000)));
    i.spec.config = Some(config());
    let r = indexers::check_spec(&i, moment());
    assert_eq!(r.event.note, Some("spec missing image".to_string()));
    i.spec.image = Some("img".to_string());
    let r = indexers::check_spec(&i, moment());
    assert_eq!(r.event.note, None);
    assert_eq!(r.event.type_, EventType::Normal);
    assert_eq!(r.condition.reason, "SpecComplete");
    assert_eq!(r.stop, None);
    let (parts, next) = indexers::reconcile_one(&r);
    assert_eq!(parts[0], indexers::Part::Deployment);
    assert_eq!(parts[3], indexers::Part::Dropin);
    assert_eq!(next, Requeue::After(3_600_000));
    let (ev, _) = indexers::cleanup_one(&i);
    assert_eq!(ev.note, Some("Delete `test`".to_string()));
}

#[test]
fn indexers_tell_where_they_are() {
    let mut i = indexer();
    i.spec.config = Some(config());
    assert_eq!(indexers::publish_dropin(&i), Ok(None));
    let owned_by = |kind: &str| {
        Some(vec![OwnerReference {
            controller: Some(true),
            kind: kind.to_string(),
            ..Default::default()
        }])
    };
    i.metadata.owner_references = owned_by("Quay");
    assert_eq!(indexers::publish_dropin(&i), Ok(None));
    let mut both = owned_by("Quay").unwrap();
    both.extend(owned_by("Clair").unwrap());
    i.metadata.owner_references = Some(both);
    assert!(indexers::publish_dropin(&i).unwrap().is_some());
    i.metadata.owner_references.as_mut().unwrap()[1].controller = None;
    assert_eq!(indexers::publish_dropin(&i), Ok(None));
    i.metadata.owner_references = owned_by("Clair");
    let p = indexers::publish_dropin(&i).unwrap().unwrap();
    assert_eq!(p.config_map, "root");
    assert_eq!(p.key, "00-indexer.json-patch");
    assert!(p.value.contains("test-indexer.ns.svc.cluster.local"));
    assert_eq!(p.event.action, "DropinReconciled");
    i.metadata.uid = None;
    assert!(indexers::publish_dropin(&i).is_err());
}

#[test]
fn matchers_are_reconciled() {
    let m = Matcher::default();
    let mut next = MatcherStatus::default();
    assert!(!matchers::check_config(&Some(config()), &None, &mut next));
    assert_eq!(next.config, Some(config()));
    let status = Some(next.dup());
    assert!(matchers::check_config(&Some(config()), &status, &mut next));
    assert!(!matchers::check_config(
        &Some(ConfigSource::default()),
        &status,
        &mut next
    ));
    assert_eq!(next.config, Some(ConfigSource::default()));

    assert_eq!(matchers::publish(&None, &next), Requeue::AwaitChange);
    assert_eq!(matchers::publish(&Some(next.dup()), &next), Requeue::AwaitChange);
    assert_eq!(matchers::publish(&status, &next), Requeue::After(3_600_000));

    let d = matchers::check_deployment(deployment(), &config(), "img");
    let pod = d.spec.unwrap().template.spec.unwrap();
    assert_eq!(pod.volumes.as_ref().unwrap().len(), 2);
    assert_eq!(pod.containers[0].image, Some("img".to_string()));
    assert_eq!(
        pod.containers[0].env.as_ref().unwrap()[0].value,
        Some("/etc/clair/config.yaml".to_string())
    );
    assert_eq!(pod.containers[1].image, None);

    assert!(matchers::must_create::<Service>(&None));
    let all = Some(MatcherStatus {
        refs: refs(&["Service", "Deployment", "HorizontalPodAutoscaler"]),
        ..Default::default()
    });
    assert!(!matchers::must_create::<Service>(&all));
    let ev = matchers::check_creation(&m, &all, &mut next, moment());
    assert_eq!(ev.unwrap().note, Some("👍".to_string()));
    assert_eq!(next.conditions[0].message, "");
    assert_eq!(matchers::check_creation(&m, &None, &mut next, moment()), None);
    assert_eq!(next.conditions[0].message, "missing: ");
}

#[test]
fn nothing_is_named_without_a_job() {
    let mut c = Clair::default();
    assert!(matches!(admin_pre(&c, moment()), Ok(AdminPre::Skip(_))));
    c.spec.image = Some("example.com/clair:1.2.3".to_string());
    assert!(matches!(admin_pre(&c, moment()), Ok(AdminPre::Report(_))));
}
