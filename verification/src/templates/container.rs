//! Containers that run Clair.

use vstd::prelude::*;

use crate::k8s::meta::{IntOrString, IntOrStringView};
use crate::k8s::pod::{
    Container, ContainerPort, ContainerPortView, ContainerView, EnvVar, EnvVarView, HTTPGetAction,
    HTTPGetActionView, PodSecurityContext, PodSecurityContextView, PodSpec, PodSpecView,
    PodTemplateSpec, PodTemplateSpecView, Probe, ProbeView, ResourceRequirements,
    ResourceRequirementsView, SecurityContext, SecurityContextView, TCPSocketAction,
    TCPSocketActionView, Volume, VolumeMount, VolumeMountView, VolumeView,
};
use crate::maps::KeyMap;
use crate::model::{one, push, three, two, Model};
use crate::templates::{
    labelled, labelled_meta, Build, Component, CONFIG_DROPIN_VOLUME_NAME, CONFIG_FILENAME,
    CONFIG_ROOT_VOLUME_NAME,
};
use crate::text;
use crate::v1alpha1::{ConfigSource, ConfigSourceView};

verus! {

/// ContainerKind enumerates all the ways a Clair container is used.
#[derive(Clone, Copy, Debug, PartialEq, Eq, Structural)]
pub enum ContainerKind {
    /// Container used as an indexer.
    Indexer,
    /// Container used as an matcher.
    Matcher,
    /// Container used as an notifier.
    Notifier,
    /// Container used as an updater.
    Updater,
    /// Container used to run `admin pre`.
    AdminPre,
    /// Container used to run `admin post`.
    AdminPost,
}

impl DeepView for ContainerKind {
    type V = ContainerKind;

    open spec fn deep_view(&self) -> ContainerKind {
        *self
    }
}

impl ContainerKind {
    /// The container serves requests.
    pub open spec fn serves(self) -> bool {
        self == ContainerKind::Indexer || self == ContainerKind::Matcher || self
            == ContainerKind::Notifier
    }

    /// The container runs an administrative command.
    pub open spec fn is_admin(self) -> bool {
        self == ContainerKind::AdminPre || self == ContainerKind::AdminPost
    }

    /// The name of the use, in lower case.
    pub open spec fn name(self) -> Seq<char> {
        match self {
            ContainerKind::Indexer => "indexer"@,
            ContainerKind::Matcher => "matcher"@,
            ContainerKind::Notifier => "notifier"@,
            ContainerKind::Updater => "updater"@,
            ContainerKind::AdminPre => "adminpre"@,
            ContainerKind::AdminPost => "adminpost"@,
        }
    }

    /// The command to run.
    pub open spec fn command(self) -> Seq<Seq<char>> {
        match self {
            ContainerKind::AdminPre => seq!["clairctl"@, "admin"@, "pre"@],
            ContainerKind::AdminPost => seq!["clairctl"@, "admin"@, "post"@],
            _ => seq!["clair"@],
        }
    }

    /// The name of the use, in lower case.
    pub fn as_str(self) -> (r: &'static str)
        ensures
            r@ == self.name(),
    {
        match self {
            ContainerKind::Indexer => "indexer",
            ContainerKind::Matcher => "matcher",
            ContainerKind::Notifier => "notifier",
            ContainerKind::Updater => "updater",
            ContainerKind::AdminPre => "adminpre",
            ContainerKind::AdminPost => "adminpost",
        }
    }

    /// The use of the container that runs a component.
    pub open spec fn of(value: Component) -> ContainerKind {
        match value {
            Component::Indexer => ContainerKind::Indexer,
            Component::Matcher => ContainerKind::Matcher,
            Component::Notifier => ContainerKind::Notifier,
        }
    }

    /// The use of the container that runs a component.
    pub fn from_component(value: Component) -> (r: ContainerKind)
        ensures
            r == ContainerKind::of(value),
    {
        match value {
            Component::Indexer => ContainerKind::Indexer,
            Component::Matcher => ContainerKind::Matcher,
            Component::Notifier => ContainerKind::Notifier,
        }
    }
}

/// ContainerBuilder is a helper to build Container objects for kubernetes.
pub struct ContainerBuilder {
    kind: ContainerKind,
    image: String,
    cfgsrc: ConfigSource,
    argv: Option<Vec<String>>,
}

/// The value of a [`ContainerBuilder`].
pub ghost struct ContainerBuilderView {
    pub kind: ContainerKind,
    pub image: Seq<char>,
    pub cfgsrc: ConfigSourceView,
    pub argv: Option<Seq<Seq<char>>>,
}

impl DeepView for ContainerBuilder {
    type V = ContainerBuilderView;

    closed spec fn deep_view(&self) -> ContainerBuilderView {
        ContainerBuilderView {
            kind: self.kind.deep_view(),
            image: self.image.deep_view(),
            cfgsrc: self.cfgsrc.deep_view(),
            argv: self.argv.deep_view(),
        }
    }
}

impl View for ContainerBuilder {
    type V = ContainerBuilderView;

    open spec fn view(&self) -> ContainerBuilderView {
        self.deep_view()
    }
}

/// A variable with a value.
pub open spec fn env_var(name: Seq<char>, value: Seq<char>) -> EnvVarView {
    EnvVarView { name, value: Some(value), value_from: None }
}

/// A port with a name.
pub open spec fn named_port(name: Seq<char>, container_port: i32) -> ContainerPortView {
    ContainerPortView { name: Some(name), container_port }
}

/// A probe that opens a connection to a named port.
pub open spec fn tcp_probe(port: Seq<char>, delay: i32, period: i32) -> ProbeView {
    ProbeView {
        tcp_socket: Some(
            TCPSocketActionView { host: None, port: IntOrStringView::String(port) },
        ),
        http_get: None,
        initial_delay_seconds: Some(delay),
        period_seconds: Some(period),
    }
}

/// A probe that makes a request to the introspection port.
pub open spec fn http_probe(path: Seq<char>, delay: i32, period: i32) -> ProbeView {
    ProbeView {
        tcp_socket: None,
        http_get: Some(
            HTTPGetActionView {
                host: None,
                path: Some(path),
                port: IntOrStringView::String("introspection"@),
            },
        ),
        initial_delay_seconds: Some(delay),
        period_seconds: Some(period),
    }
}

/// Where a container sees its configuration: the root at a fixed place, the drop-ins beside it.
pub open spec fn config_mounts(cfgsrc: ConfigSourceView) -> Seq<VolumeMountView> {
    seq![
        VolumeMountView {
            name: "root-config"@,
            mount_path: "/etc/clair/config.json"@,
            sub_path: Some(cfgsrc.root.key),
        },
        VolumeMountView {
            name: "dropin-config"@,
            mount_path: "/etc/clair/config.json"@ + ".d"@,
            sub_path: None,
        },
    ]
}

/// The environment of a container.
pub open spec fn environment(kind: ContainerKind) -> Seq<EnvVarView> {
    let conf = env_var("CLAIR_CONF"@, "/etc/clair/config.json"@);
    if kind.is_admin() {
        seq![conf]
    } else {
        seq![conf, env_var("CLAIR_MODE"@, kind.name())]
    }
}

/// The ports of a container; commands have none.
pub open spec fn ports_of(kind: ContainerKind) -> Option<Seq<ContainerPortView>> {
    let introspection = named_port("introspection"@, 8089);
    if kind.is_admin() {
        None
    } else if kind.serves() {
        Some(seq![introspection, named_port("api"@, 6060)])
    } else {
        Some(seq![introspection])
    }
}

/// A request for one processor.
pub open spec fn one_cpu() -> ResourceRequirementsView {
    ResourceRequirementsView { requests: Some(Map::empty().insert("cpu"@, "1"@)) }
}

/// The container that a builder gives.
pub open spec fn container_of(b: ContainerBuilderView) -> ContainerView {
    ContainerView {
        name: "clair"@,
        image: Some(b.image),
        args: b.argv,
        command: Some(b.kind.command()),
        working_dir: Some("/run/clair"@),
        security_context: Some(
            SecurityContextView { allow_privilege_escalation: Some(false) },
        ),
        env: Some(environment(b.kind)),
        volume_mounts: Some(config_mounts(b.cfgsrc)),
        ports: ports_of(b.kind),
        resources: Some(one_cpu()),
        startup_probe: if b.kind.serves() {
            Some(tcp_probe("api"@, 5, 1))
        } else {
            None
        },
        liveness_probe: if b.kind.serves() {
            Some(http_probe("/healthz"@, 15, 20))
        } else {
            None
        },
        readiness_probe: if b.kind.serves() {
            Some(http_probe("/readyz"@, 5, 10))
        } else {
            None
        },
    }
}

/// A probe that opens a connection to a named port.
pub(crate) fn make_tcp_probe(port: &str, delay: i32, period: i32) -> (r: Probe)
    ensures
        r@ == tcp_probe(port@, delay, period),
{
    Probe {
        tcp_socket: Some(TCPSocketAction { host: None, port: IntOrString::String(port.to_owned()) }),
        initial_delay_seconds: Some(delay),
        period_seconds: Some(period),
        ..Default::default()
    }
}

/// A probe that makes a request to the introspection port.
pub(crate) fn make_http_probe(path: &str, delay: i32, period: i32) -> (r: Probe)
    ensures
        r@ == http_probe(path@, delay, period),
{
    Probe {
        http_get: Some(
            HTTPGetAction {
                host: None,
                port: IntOrString::String("introspection".to_owned()),
                path: Some(path.to_owned()),
            },
        ),
        initial_delay_seconds: Some(delay),
        period_seconds: Some(period),
        ..Default::default()
    }
}

/// A request for one processor.
pub(crate) fn request_cpu() -> (r: ResourceRequirements)
    ensures
        r@ == one_cpu(),
{
    let mut requests = KeyMap::new();
    requests.insert("cpu".to_owned(), "1".to_owned());
    ResourceRequirements { requests: Some(requests) }
}

/// Where a container sees its configuration.
fn make_config_mounts(cfgsrc: &ConfigSource) -> (r: Vec<VolumeMount>)
    ensures
        r.deep_view() == config_mounts(cfgsrc@),
{
    two(
        VolumeMount {
            name: CONFIG_ROOT_VOLUME_NAME.to_owned(),
            mount_path: CONFIG_FILENAME.to_owned(),
            sub_path: Some(cfgsrc.root.key.dup()),
        },
        VolumeMount {
            name: CONFIG_DROPIN_VOLUME_NAME.to_owned(),
            mount_path: text::cat(CONFIG_FILENAME, ".d"),
            ..Default::default()
        },
    )
}

impl ContainerBuilder {
    /// A builder for a container without arguments.
    pub fn new(kind: ContainerKind, image: &String, cfgsrc: &ConfigSource) -> (r: Self)
        ensures
            r@ == (ContainerBuilderView { kind, image: image@, cfgsrc: cfgsrc@, argv: None }),
    {
        ContainerBuilder { kind, image: image.dup(), cfgsrc: cfgsrc.dup(), argv: None }
    }

    /// Set the arguments for the Container.
    pub fn args(self, argv: Vec<String>) -> (r: Self)
        ensures
            r@ == (ContainerBuilderView { argv: Some(argv.deep_view()), ..self@ }),
    {
        ContainerBuilder { argv: Some(argv), ..self }
    }
}

impl Build for ContainerBuilder {
    type Output = Container;

    open spec fn built(v: ContainerBuilderView) -> ContainerView {
        container_of(v)
    }

    fn build(self) -> (r: Container) {
        let kind = self.kind;
        let mut c = Container {
            name: "clair".to_owned(),
            image: Some(self.image),
            args: self.argv,
            command: Some(one("clair".to_owned())),
            working_dir: Some("/run/clair".to_owned()),
            security_context: Some(SecurityContext { allow_privilege_escalation: Some(false) }),
            env: None,
            volume_mounts: Some(make_config_mounts(&self.cfgsrc)),
            ports: None,
            resources: Some(request_cpu()),
            ..Default::default()
        };

        // Modify environment:
        let mut env = one(
            EnvVar {
                name: "CLAIR_CONF".to_owned(),
                value: Some(CONFIG_FILENAME.to_owned()),
                ..Default::default()
            },
        );
        match kind {
            ContainerKind::Indexer
            | ContainerKind::Matcher
            | ContainerKind::Notifier
            | ContainerKind::Updater => {
                push(
                    &mut env,
                    EnvVar {
                        name: "CLAIR_MODE".to_owned(),
                        value: Some(kind.as_str().to_owned()),
                        ..Default::default()
                    },
                );
            },
            _ => {},
        }
        assert(env.deep_view() =~= environment(kind));
        c.env = Some(env);

        // Modify ports:
        let mut ports = one(
            ContainerPort {
                name: Some("introspection".to_owned()),
                container_port: 8089,
            },
        );
        match kind {
            ContainerKind::Indexer | ContainerKind::Matcher | ContainerKind::Notifier => {
                push(
                    &mut ports,
                    ContainerPort { name: Some("api".to_owned()), container_port: 6060 },
                );
                assert(Some(ports.deep_view()) == ports_of(kind)) by {
                    assert(ports.deep_view() =~= ports_of(kind)->0);
                }
                c.ports = Some(ports);
                c.startup_probe = Some(make_tcp_probe("api", 5, 1));
                c.liveness_probe = Some(make_http_probe("/healthz", 15, 20));
                c.readiness_probe = Some(make_http_probe("/readyz", 5, 10));
            },
            ContainerKind::Updater => {
                c.ports = Some(ports);
            },
            ContainerKind::AdminPre | ContainerKind::AdminPost => {},
        }

        // Modify container command:
        match kind {
            ContainerKind::AdminPre => {
                c.command = Some(three("clairctl".to_owned(), "admin".to_owned(), "pre".to_owned()));
            },
            ContainerKind::AdminPost => {
                c.command = Some(
                    three("clairctl".to_owned(), "admin".to_owned(), "post".to_owned()),
                );
            },
            _ => {},
        }

        c
    }
}

/// The pods that run one container of Clair.
pub open spec fn clair_pod(
    labels: Map<Seq<char>, Seq<char>>,
    container: ContainerView,
    volumes: Seq<VolumeView>,
) -> PodTemplateSpecView {
    PodTemplateSpecView {
        metadata: Some(labelled(labels)),
        spec: Some(
            PodSpecView {
                termination_grace_period_seconds: Some(10),
                share_process_namespace: Some(true),
                security_context: Some(PodSecurityContextView { run_as_user: Some(65532) }),
                containers: seq![container],
                volumes: Some(volumes),
            },
        ),
    }
}

/// The pods that run one container of Clair.
pub(crate) fn pod_template(
    labels: KeyMap<String>,
    container: Container,
    volumes: Vec<Volume>,
) -> (r: PodTemplateSpec)
    ensures
        r@ == clair_pod(labels@, container@, volumes.deep_view()),
{
    PodTemplateSpec {
        metadata: Some(labelled_meta(labels)),
        spec: Some(
            PodSpec {
                termination_grace_period_seconds: Some(10),
                share_process_namespace: Some(true),
                security_context: Some(PodSecurityContext { run_as_user: Some(65532) }),
                containers: one(container),
                volumes: Some(volumes),
            },
        ),
    }
}

} // verus!
