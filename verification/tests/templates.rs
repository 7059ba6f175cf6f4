use clair_operator::k8s::meta::{IntOrString, ObjectMeta};
use clair_operator::k8s::pod::{ConfigMap, Service};
use clair_operator::k8s::workload::{CronJob, Deployment, HorizontalPodAutoscaler, Ingress};
use clair_operator::maps::KeyMap;
use clair_operator::model::Model;
use clair_operator::render::{default_image, render};
use clair_operator::templates::jobs::{CronJobBuilder, JobBuilder};
use clair_operator::templates::sources::ConfigSourceBuilder;
use clair_operator::templates::volumes::make_volumes;
use clair_operator::templates::workers::{
    ConfigMapBuilder, IndexerBuilder, MatcherBuilder, MinimumVersion, NotifierBuilder,
};
use clair_operator::templates::workloads::{
    DeploymentBuilder, HTTPRouteBuilder, HorizontalPodAutoscalerBuilder, ServiceBuilder,
};
use clair_operator::templates::{render_dropin, Build, Error};
use clair_operator::v1alpha1::{
    Clair, ClairSpec, ClairStatus, ConfigMapKeySelector, ConfigSource, DropinSource, Indexer,
    IndexerSpec, Matcher, Notifier, RouteParentRef, Updater, UpdaterSpec, UpdaterStatus,
};
use serde_json::Value;

const IMAGE: &str = "quay.io/projectquay/clair:nightly";

fn meta(name: &str) -> ObjectMeta {
    ObjectMeta {
        name: Some(name.to_string()),
        namespace: Some("default".to_string()),
        uid: Some("6060".to_string()),
        ..Default::default()
    }
}

fn config() -> ConfigSource {
    ConfigSource {
        root: ConfigMapKeySelector {
            name: "clair-config".to_string(),
            key: "config.json".to_string(),
        },
        dropins: vec![
            DropinSource::config_map("extra", "a.json"),
            DropinSource::secret("db", "b.json"),
        ],
    }
}

fn example() -> Clair {
    Clair {
        metadata: meta("example"),
        spec: ClairSpec {
            image: Some(IMAGE.to_string()),
            ..Default::default()
        },
        status: Some(ClairStatus {
            config: Some(config()),
            ..Default::default()
        }),
    }
}

fn example_indexer() -> Indexer {
    Indexer {
        metadata: meta("example"),
        spec: IndexerSpec {
            image: Some(IMAGE.to_string()),
            config: Some(config()),
            gateway: None,
        },
        status: None,
    }
}

fn new_indexer(name: &str) -> Indexer {
    Indexer {
        metadata: ObjectMeta {
            name: Some(name.to_string()),
            ..Default::default()
        },
        ..Default::default()
    }
}

fn label<'a>(m: &'a Option<KeyMap<String>>, key: &str) -> &'a str {
    m.as_ref().unwrap().get(key).unwrap()
}

fn dropin_service() -> Service {
    Service {
        metadata: ObjectMeta {
            name: Some("test-indexer".to_string()),
            namespace: Some("test".to_string()),
            ..Default::default()
        },
        spec: None,
    }
}

fn check_dropin() {
    let got = render_dropin::<Indexer>(&dropin_service()).unwrap();
    let got: Value = serde_json::from_str(&got).unwrap();
    let want: Value = serde_json::from_str(
        r#"[
          { "op": "add", "path": "/matcher/indexer_addr",  "value": "test-indexer.test.svc.cluster.local" },
          { "op": "add", "path": "/notifier/indexer_addr", "value": "test-indexer.test.svc.cluster.local" }
        ]"#,
    )
    .unwrap();
    assert_eq!(got, want);
}

#[test]
fn lib_dropin() {
    check_dropin();
}

#[test]
fn mod_dropin() {
    check_dropin();
}

#[test]
fn dropin_of_a_matcher() {
    let mut srv = dropin_service();
    srv.metadata.name = Some("m".to_string());
    assert_eq!(
        render_dropin::<Matcher>(&srv).unwrap(),
        "[{\"op\":\"add\",\"path\":\"/indexer/matcher_addr\",\"value\":\"m.test.svc.cluster.local\"},\
         {\"op\":\"add\",\"path\":\"/notifier/matcher_addr\",\"value\":\"m.test.svc.cluster.local\"}]"
    );
    assert_eq!(render_dropin::<Notifier>(&srv), None);
    assert_eq!(render_dropin::<Clair>(&srv), None);
}

#[test]
fn dropin_quotes_what_json_cannot_hold() {
    let mut srv = dropin_service();
    srv.metadata.name = Some("a\"b\\c\n\u{8}\u{c}\u{1f}é".to_string());
    let got = render_dropin::<Indexer>(&srv).unwrap();
    assert!(got.contains("\"a\\\"b\\\\c\\n\\b\\f\\u001fé.test.svc.cluster.local\""));
    let got: Value = serde_json::from_str(&got).unwrap();
    assert_eq!(
        got[0]["value"],
        Value::String("a\"b\\c\n\u{8}\u{c}\u{1f}é.test.svc.cluster.local".to_string())
    );
}

#[test]
fn mod_deployment() {
    let indexer = new_indexer("test");
    let got: Deployment = render(&indexer, IMAGE);
    assert_eq!(got.metadata.name, Some("test-indexer".to_string()));
    assert_eq!(got.metadata.owner_references, None);
    let spec = got.spec.unwrap();
    assert_eq!(spec.replicas, Some(1));
    assert_eq!(spec.revision_history_limit, Some(3));
    assert_eq!(
        label(&spec.selector.match_labels, "app.kubernetes.io/component"),
        "indexer"
    );
    assert_eq!(
        spec.selector.match_labels,
        spec.template.metadata.as_ref().unwrap().labels
    );
    let pod = spec.template.spec.unwrap();
    assert_eq!(pod.volumes, Some(vec![]));
    assert_eq!(pod.security_context.unwrap().run_as_user, Some(65532));
    let c = &pod.containers[0];
    assert_eq!(c.image, Some(IMAGE.to_string()));
    let ports = c.ports.as_ref().unwrap();
    assert_eq!(ports[0].container_port, 6060);
    assert_eq!(ports[1].container_port, 8089);
    let env = c.env.as_ref().unwrap();
    assert_eq!(env[0].name, "GOMAXPROCS");
    assert_eq!(
        env[0]
            .value_from
            .as_ref()
            .unwrap()
            .resource_field_ref
            .as_ref()
            .unwrap()
            .resource,
        "requests.cpu"
    );
    assert_eq!(env[1].value, Some("indexer".to_string()));
    assert_eq!(
        c.startup_probe.as_ref().unwrap().tcp_socket.as_ref().unwrap().port,
        IntOrString::String("api".to_string())
    );
}

#[test]
fn mod_service() {
    let got: Service = render(&new_indexer("test"), IMAGE);
    assert_eq!(got.metadata.name, Some("test-indexer".to_string()));
    assert_eq!(label(&got.metadata.labels, "app.kubernetes.io/name"), "clair");
    let spec = got.spec.unwrap();
    let ports = spec.ports.unwrap();
    assert_eq!(ports.len(), 1);
    assert_eq!(ports[0].port, 80);
    assert_eq!(
        ports[0].target_port,
        Some(IntOrString::String("api".to_string()))
    );
    assert_eq!(spec.selector, got.metadata.labels);
}

#[test]
fn mod_horizontal_pod_autoscaler() {
    let got: HorizontalPodAutoscaler = render(&new_indexer("test"), IMAGE);
    let spec = got.spec.unwrap();
    assert_eq!(spec.min_replicas, Some(1));
    assert_eq!(spec.max_replicas, 10);
    assert_eq!(spec.scale_target_ref.name, "test-indexer");
    assert_eq!(spec.scale_target_ref.api_version, Some("apps/v1".to_string()));
    let metric = &spec.metrics.unwrap()[0];
    assert_eq!(metric.resource.as_ref().unwrap().target.average_utilization, Some(80));
}

#[test]
fn cron_job() {
    let got: CronJob = render(&new_indexer("test"), IMAGE);
    assert_eq!(got.metadata.name, Some("test-indexer".to_string()));
    assert_eq!(got.metadata.labels.as_ref().unwrap().len(), 2);
    let spec = got.spec.unwrap();
    assert_eq!(spec.schedule, "0 */8 * * *");
    assert_eq!(spec.time_zone, Some("Etc/UTC".to_string()));
    assert_eq!(spec.concurrency_policy, Some("Forbid".to_string()));
    let job = spec.job_template.spec.unwrap();
    assert_eq!(job.active_deadline_seconds, Some(3600));
    let pod = job.template.spec.unwrap();
    assert_eq!(
        pod.containers[0].startup_probe.as_ref().unwrap().tcp_socket.as_ref().unwrap().port,
        IntOrString::String("http".to_string())
    );
    assert_eq!(pod.containers[0].env.as_ref().unwrap().len(), 1);
}

#[test]
fn rendered_objects_are_owned() {
    let indexer = example_indexer();
    let got: Ingress = render(&indexer, IMAGE);
    assert_eq!(got.metadata.name, None);
    let owner = &got.metadata.owner_references.unwrap()[0];
    assert_eq!(owner.controller, Some(true));
    assert_eq!(owner.kind, "Indexer");
}

#[test]
fn default_images() {
    assert_eq!(
        default_image(None, None, false),
        "quay.io/projectquay/clair:4.7.0"
    );
    assert_eq!(
        default_image(None, None, true),
        "quay.io/projectquay/clair:nightly"
    );
    assert_eq!(default_image(Some("r"), Some("t"), true), "r:t");
}

#[test]
fn components_come_from_a_clair() {
    let c = example();
    let got = IndexerBuilder::try_from(&c).unwrap().build();
    assert_eq!(got.metadata.name, Some("example".to_string()));
    assert_eq!(got.metadata.namespace, Some("default".to_string()));
    assert_eq!(label(&got.metadata.labels, "app.kubernetes.io/component"), "indexer");
    assert_eq!(got.spec.image, Some(IMAGE.to_string()));
    assert_eq!(got.spec.config, Some(config()));
    assert_eq!(got.metadata.owner_references.unwrap()[0].controller, Some(true));
    let got = MatcherBuilder::try_from(&c).unwrap().build();
    assert_eq!(label(&got.metadata.labels, "app.kubernetes.io/component"), "matcher");
    let got = NotifierBuilder::try_from(&c).unwrap().build();
    assert_eq!(label(&got.metadata.labels, "app.kubernetes.io/component"), "notifier");
}

#[test]
fn a_clair_may_lack_something() {
    let mut c = example();
    c.metadata.uid = None;
    let err = IndexerBuilder::try_from(&c).err().unwrap();
    assert_eq!(err, Error::Other("unable to construct controller ref"));
    assert_eq!(err.message(), "other error: unable to construct controller ref");
    c.status = None;
    assert_eq!(MatcherBuilder::try_from(&c).err(), Some(Error::MissingConfigSource));
    c.spec.image = None;
    assert_eq!(NotifierBuilder::try_from(&c).err(), Some(Error::MissingImage));
    c.metadata.namespace = None;
    let err = IndexerBuilder::try_from(&c).err().unwrap();
    assert_eq!(err, Error::Namespace);
    assert_eq!(err.message(), "unable to determine namespace");
    assert_eq!(ConfigMapBuilder::try_from(&c).err(), Some(Error::Namespace));
    assert_eq!(
        Error::MissingImage.message(),
        "missing required information: image"
    );
    assert_eq!(
        Error::MissingConfigSource.message(),
        "missing required information: ConfigSource"
    );
}

#[test]
fn config_maps_hold_a_configuration() {
    let c = example();
    let got = ConfigMapBuilder::try_from(&c).unwrap().build();
    let data = got.data.unwrap();
    let v: Value = serde_json::from_str(data.get("config.json").unwrap()).unwrap();
    assert_eq!(v["http_listen_addr"], Value::String(":6060".to_string()));
    assert_eq!(v["metrics"]["name"], Value::String("prometheus".to_string()));
    let got = ConfigMapBuilder::try_from(&c)
        .unwrap()
        .with_minimum_version(MinimumVersion::V1_5)
        .build();
    let v: Value =
        serde_json::from_str(got.data.unwrap().get("config.json").unwrap()).unwrap();
    assert_eq!(v["api"]["v1"]["enabled"], Value::Bool(true));
    let got = ConfigMapBuilder::try_from(&c)
        .unwrap()
        .with_key("k")
        .with_config("v")
        .build();
    assert_eq!(got.data.unwrap().get("k"), Some(&"v".to_string()));
}

#[test]
fn jobs_run_commands() {
    let mut c = example();
    c.spec.image = Some("example.com/clair:1.2.3".to_string());
    let got = JobBuilder::admin_pre(&c).unwrap().build();
    assert_eq!(got.metadata.name, Some("example-admin-pre-1.2.3".to_string()));
    assert_eq!(
        JobBuilder::admin_pre_name(&c).unwrap(),
        "example-admin-pre-1.2.3"
    );
    let pod = got.spec.unwrap().template.spec.unwrap();
    let container = &pod.containers[0];
    assert_eq!(
        container.command,
        Some(vec!["clairctl".to_string(), "admin".to_string(), "pre".to_string()])
    );
    assert_eq!(container.args, Some(vec!["1.2.3".to_string()]));
    assert_eq!(container.ports, None);
    assert_eq!(container.env.as_ref().unwrap().len(), 1);
    let got = JobBuilder::admin_post(&c).unwrap().build();
    assert_eq!(got.metadata.name, Some("example-admin-post-1.2.3".to_string()));

    c.metadata.uid = None;
    assert_eq!(JobBuilder::admin_pre(&c).err(), Some(Error::OwnerReference));
    c.metadata.namespace = None;
    assert_eq!(JobBuilder::admin_pre(&c).err(), Some(Error::Namespace));
    c.spec.image = Some("clair".to_string());
    assert_eq!(
        JobBuilder::admin_pre(&c).err(),
        Some(Error::Other("image ref missing tag"))
    );
    assert_eq!(
        JobBuilder::admin_pre_name(&c).err(),
        Some(Error::Other("image ref missing tag"))
    );
    c.spec.image = None;
    assert_eq!(JobBuilder::admin_pre(&c).err(), Some(Error::MissingImage));
    c.status = None;
    assert_eq!(
        JobBuilder::admin_pre(&c).err(),
        Some(Error::MissingConfigSource)
    );
}

#[test]
fn updates_run_on_a_schedule() {
    let mut u = Updater {
        metadata: meta("example"),
        spec: UpdaterSpec {
            image: Some(IMAGE.to_string()),
            ..Default::default()
        },
        status: Some(UpdaterStatus {
            config: Some(config()),
            ..Default::default()
        }),
    };
    let got = CronJobBuilder::try_from(&u).unwrap().build();
    assert_eq!(got.metadata.name, Some("example-updater".to_string()));
    let spec = got.spec.unwrap();
    assert_eq!(spec.schedule, "0 */8 * * *");
    assert_eq!(spec.suspend, None);
    let pod = spec.job_template.spec.unwrap().template.spec.unwrap();
    assert_eq!(
        pod.containers[0].env.as_ref().unwrap()[1].value,
        Some("updater".to_string())
    );
    assert_eq!(pod.containers[0].ports.as_ref().unwrap().len(), 1);
    assert_eq!(pod.containers[0].startup_probe, None);
    u.spec.schedule = Some("@daily".to_string());
    u.spec.suspend = Some(true);
    let spec = CronJobBuilder::try_from(&u).unwrap().build().spec.unwrap();
    assert_eq!(spec.schedule, "@daily");
    assert_eq!(spec.suspend, Some(true));
    u.metadata.uid = None;
    assert_eq!(CronJobBuilder::try_from(&u).err(), Some(Error::OwnerReference));
}

#[test]
fn lib_deployment() {
    let i = example_indexer();
    let got = DeploymentBuilder::try_from(&i).unwrap().build();
    assert_eq!(got.metadata.name, Some("example-indexer".to_string()));
    let spec = got.spec.unwrap();
    assert_eq!(spec.strategy.unwrap().type_, Some("Recreate".to_string()));
    assert_eq!(spec.progress_deadline_seconds, Some(60));
    let pod = spec.template.spec.unwrap();
    let volumes = pod.volumes.unwrap();
    let mounts = pod.containers[0].volume_mounts.as_ref().unwrap();
    assert_eq!(volumes.len(), 3);
    assert_eq!(mounts.len(), 3);
    for (v, m) in volumes.iter().zip(mounts) {
        assert_eq!(v.name, m.name);
    }
    assert_eq!(mounts[0].mount_path, "/etc/clair/config.json");
    assert_eq!(mounts[0].sub_path, Some("config.json".to_string()));
    assert_eq!(mounts[1].mount_path, "/etc/clair/config.json.d");
    assert_eq!(mounts[2].mount_path, "/var/tmp");
    let claim = volumes[2].ephemeral.as_ref().unwrap().volume_claim_template.as_ref().unwrap();
    assert_eq!(
        claim.spec.resources.as_ref().unwrap().requests.as_ref().unwrap().get("storage"),
        Some(&"10Gi".to_string())
    );
    assert_eq!(pod.containers[0].liveness_probe.as_ref().unwrap().period_seconds, Some(20));
    assert_eq!(
        pod.containers[0].command,
        Some(vec!["clair".to_string()])
    );

    let m = Matcher {
        metadata: meta("example"),
        ..Default::default()
    };
    assert_eq!(DeploymentBuilder::try_from(&m).err(), Some(Error::MissingImage));
    let got = DeploymentBuilder::try_from(&i)
        .unwrap()
        .image("other")
        .config_source(&ConfigSource::default())
        .build();
    let pod = got.spec.unwrap().template.spec.unwrap();
    assert_eq!(pod.containers[0].image, Some("other".to_string()));
    assert_eq!(pod.volumes.unwrap()[0].config_map.as_ref().unwrap().name, "");
}

#[test]
fn volumes_hold_the_configuration() {
    let got = make_volumes(&config());
    assert_eq!(got.len(), 2);
    assert_eq!(got[0].name, "root-config");
    let root = got[0].config_map.as_ref().unwrap();
    assert_eq!(root.name, "clair-config");
    assert_eq!(root.items.as_ref().unwrap()[0].mode, Some(0o666));
    let dropins = got[1].projected.as_ref().unwrap();
    assert_eq!(dropins.default_mode, Some(0o644));
    let sources = dropins.sources.as_ref().unwrap();
    assert_eq!(sources[0].config_map.as_ref().unwrap().name, "extra");
    assert_eq!(sources[0].secret, None);
    assert_eq!(sources[1].secret.as_ref().unwrap().name, "db");
    assert_eq!(
        sources[1].secret.as_ref().unwrap().items.as_ref().unwrap()[0].path,
        "b.json"
    );
}

#[test]
fn lib_service() {
    let mut i = example_indexer();
    let got = ServiceBuilder::try_from(&i).unwrap().build();
    assert_eq!(got.metadata.name, Some("example-indexer".to_string()));
    assert_eq!(got.metadata.namespace, i.metadata.namespace);
    assert_eq!(got.metadata.owner_references.as_ref().unwrap()[0].kind, "Indexer");
    assert_eq!(label(&got.metadata.labels, "app.kubernetes.io/name"), "clair");
    assert_eq!(label(&got.metadata.labels, "app.kubernetes.io/component"), "indexer");
    let spec = got.spec.unwrap();
    assert_eq!(spec.selector, got.metadata.labels);
    let ports = spec.ports.unwrap();
    assert_eq!(ports.len(), 1);
    assert_eq!(ports[0].name, Some("api".to_string()));
    assert_eq!(ports[0].port, 80);
    assert_eq!(
        ports[0].target_port,
        Some(IntOrString::String("api".to_string()))
    );
    i.metadata.namespace = None;
    assert_eq!(ServiceBuilder::try_from(&i).err(), Some(Error::Namespace));
}

#[test]
fn lib_horizontal_pod_autoscaler() {
    let mut i = example_indexer();
    let got = HorizontalPodAutoscalerBuilder::try_from(&i).unwrap().build();
    assert_eq!(got.metadata.name, Some("example-indexer".to_string()));
    assert_eq!(label(&got.metadata.labels, "app.kubernetes.io/component"), "indexer");
    let spec = got.spec.unwrap();
    assert_eq!((spec.min_replicas, spec.max_replicas), (None, 10));
    assert_eq!(spec.scale_target_ref.name, "example-indexer");
    assert_eq!(spec.scale_target_ref.kind, "Deployment");
    let metrics = spec.metrics.unwrap();
    assert_eq!(metrics.len(), 1);
    assert_eq!(metrics[0].type_, "Resource");
    let cpu = metrics[0].resource.as_ref().unwrap();
    assert_eq!((cpu.name.as_str(), cpu.target.average_utilization), ("cpu", Some(80)));
    i.metadata.uid = None;
    assert_eq!(
        HorizontalPodAutoscalerBuilder::try_from(&i).err(),
        Some(Error::OwnerReference)
    );
}

#[test]
fn routes_lead_to_components() {
    let mut i = example_indexer();
    let got = HTTPRouteBuilder::try_from(&i).unwrap().build();
    assert_eq!(got.spec.parent_refs, None);
    assert_eq!(got.metadata.owner_references.unwrap().len(), 1);
    i.spec.gateway = Some(RouteParentRef {
        kind: Some("Gateway".to_string()),
        namespace: Some("infra".to_string()),
        ..Default::default()
    });
    let got = HTTPRouteBuilder::try_from(&i).unwrap().build();
    assert_eq!(got.metadata.owner_references, None);
    let parent = &got.spec.parent_refs.unwrap()[0];
    assert_eq!(parent.name, "example-indexer");
    assert_eq!(parent.kind, Some("Gateway".to_string()));
    let rule = &got.spec.rules.unwrap()[0];
    let path = rule.matches.as_ref().unwrap()[0].path.as_ref().unwrap();
    assert_eq!(path.type_, Some("PathPrefix".to_string()));
    assert_eq!(path.value, Some("/indexer/api/v1/".to_string()));
    let backend = &rule.backend_refs.as_ref().unwrap()[0];
    assert_eq!(backend.name, "example-indexer");
    assert_eq!(backend.namespace, Some("default".to_string()));
    assert_eq!(backend.group, Some("".to_string()));
    assert_eq!(backend.kind, Some("Service".to_string()));
}

fn config_map(keys: &[&str]) -> ConfigMap {
    let mut data = KeyMap::new();
    for k in keys {
        data.insert(k.to_string(), "{}".to_string());
    }
    ConfigMap {
        metadata: ObjectMeta {
            name: Some("cm".to_string()),
            ..Default::default()
        },
        data: Some(data),
        binary_data: None,
    }
}

#[test]
fn config_source() {
    let cm = config_map(&["z.json", "config.json", "a.json"]);
    let got = ConfigSourceBuilder::try_from(&cm).unwrap().build();
    assert_eq!(got.root.key, "config.json");
    assert_eq!(
        got.dropins,
        vec![
            DropinSource::config_map("cm", "a.json"),
            DropinSource::config_map("cm", "z.json"),
        ]
    );
    let got = ConfigSourceBuilder::try_from(&cm).unwrap().with_key("a.json").build();
    assert_eq!(
        got.dropins,
        vec![
            DropinSource::config_map("cm", "config.json"),
            DropinSource::config_map("cm", "z.json"),
        ]
    );
}

#[test]
fn repeated_dropins_are_additive() {
    let cm = config_map(&["config.json"]);
    let a = vec![DropinSource::secret("s", "2"), DropinSource::secret("s", "1")];
    let b = vec![
        DropinSource::secret("s", "1"),
        DropinSource::config_map("cm", "config.json"),
        DropinSource::config_map("o", "3"),
    ];
    let both: Vec<DropinSource> = a.iter().chain(b.iter()).map(|d| d.dup()).collect();
    let twice = ConfigSourceBuilder::try_from(&cm)
        .unwrap()
        .with_dropins(&a)
        .with_dropins(&b)
        .build();
    let once = ConfigSourceBuilder::try_from(&cm)
        .unwrap()
        .with_dropins(&both)
        .build();
    assert_eq!(twice, once);
    assert_eq!(
        twice.dropins,
        vec![
            DropinSource::secret("s", "1"),
            DropinSource::secret("s", "2"),
            DropinSource::config_map("o", "3"),
        ]
    );
}

#[test]
fn what_comes_before_the_name_is_missed_first() {
    let i = Indexer::default();
    assert_eq!(ServiceBuilder::try_from(&i).err(), Some(Error::Namespace));
    assert_eq!(DeploymentBuilder::try_from(&i).err(), Some(Error::Namespace));
    assert_eq!(
        HorizontalPodAutoscalerBuilder::try_from(&i).err(),
        Some(Error::Namespace)
    );
    assert_eq!(HTTPRouteBuilder::try_from(&i).err(), Some(Error::Namespace));
    let mut c = Clair::default();
    assert_eq!(ConfigMapBuilder::try_from(&c).err(), Some(Error::Namespace));
    assert_eq!(JobBuilder::admin_pre(&c).err(), Some(Error::MissingConfigSource));
    assert_eq!(JobBuilder::admin_pre_name(&c).err(), Some(Error::MissingImage));
    c.spec.image = Some("untagged".to_string());
    assert_eq!(
        JobBuilder::admin_pre_name(&c).err(),
        Some(Error::Other("image ref missing tag"))
    );
}
