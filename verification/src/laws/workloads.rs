//! Workloads: what is built for a component runs that component, with the image and the
//! configuration that were asked for, and the parts find each other.

use vstd::prelude::*;

use crate::k8s::meta::{IntOrStringView, ObjectMetaView, OwnerReferenceView};
use crate::k8s::pod::{ContainerView, EnvVarView, PodTemplateSpecView, ProbeView};
use crate::laws::configuration::{shows_dropin, shows_root};
use crate::resource::{self, Resource};
use crate::templates::container::{container_of, ContainerBuilderView, ContainerKind};
use crate::templates::jobs::{
    cron_job_builder, cron_job_of, job_builder, job_of, JobKind,
};
use crate::templates::workers::{
    config_map_builder, worker_parts, ConfigMapBuilder, IndexerBuilder, MatcherBuilder,
    NotifierBuilder,
};
use crate::templates::workloads::{
    deployment_builder, deployment_of, hpa_builder, http_route_builder, path_prefix, route_of,
    service_builder, service_of, HorizontalPodAutoscalerBuilder,
};
use crate::templates::{dropin_for, service_address, Build, Component, Worker};
use crate::text;
use crate::v1alpha1::{
    Clair, ClairView, ConfigSourceView, Indexer, IndexerView, Matcher, MatcherView, Notifier,
    NotifierView, UpdaterView,
};

verus! {

/// A container has a variable of a name and a value, and no other value under that name.
pub open spec fn has_var(c: ContainerView, name: Seq<char>, value: Seq<char>) -> bool {
    &&& c.env is Some
    &&& c.env->0.contains(EnvVarView { name, value: Some(value), value_from: None })
    &&& forall|i: int|
        0 <= i < c.env->0.len() && (#[trigger] c.env->0[i]).name == name ==> c.env->0[i].value
            == Some(value)
}

/// A container has no variable of a name.
pub open spec fn lacks_var(c: ContainerView, name: Seq<char>) -> bool {
    c.env matches Some(env) ==> forall|i: int|
        0 <= i < env.len() ==> (#[trigger] env[i]).name != name
}

/// A container has a port of a name.
pub open spec fn has_port(c: ContainerView, name: Seq<char>) -> bool {
    c.ports is Some && exists|i: int|
        0 <= i < c.ports->0.len() && (#[trigger] c.ports->0[i]).name == Some(name)
}

/// A probe, if there is one, goes to a port that the container has.
pub open spec fn probes_own_port(c: ContainerView, probe: Option<ProbeView>) -> bool {
    probe matches Some(p) ==> {
        &&& p.http_get matches Some(a) ==> (a.port matches IntOrStringView::String(name)
            && has_port(c, name))
        &&& p.tcp_socket matches Some(a) ==> (a.port matches IntOrStringView::String(name)
            && has_port(c, name))
        &&& p.http_get is Some || p.tcp_socket is Some
    }
}

/// A container is told where its configuration is, and sees it there: the root as a file, and the
/// drop-ins in the directory beside it.
pub open spec fn sees_configuration(
    template: PodTemplateSpecView,
    cfgsrc: ConfigSourceView,
) -> bool {
    let pod = template.spec->0;
    let c = pod.containers[0];
    let mounts = c.volume_mounts->0;
    let volumes = pod.volumes->0;
    &&& has_var(c, "CLAIR_CONF"@, mounts[0].mount_path)
    &&& mounts[0].sub_path == Some(cfgsrc.root.key)
    &&& mounts[1].mount_path == mounts[0].mount_path + ".d"@
    &&& mounts[1].sub_path is None
    &&& mounts[0].name == volumes[0].name
    &&& mounts[1].name == volumes[1].name
    &&& shows_root(volumes[0].config_map->0, cfgsrc)
    &&& volumes[1].projected->0.sources->0.len() == cfgsrc.dropins.len()
    &&& forall|i: int|
        0 <= i < cfgsrc.dropins.len() ==> shows_dropin(
            volumes[1].projected->0.sources->0[i],
            #[trigger] cfgsrc.dropins[i],
        )
}

/// Pods run one container without more rights than they need.
pub open spec fn is_confined(template: PodTemplateSpecView) -> bool {
    let pod = template.spec->0;
    &&& template.spec is Some
    &&& pod.containers.len() == 1
    &&& pod.containers[0].name == "clair"@
    &&& pod.security_context is Some
    &&& pod.security_context->0.run_as_user == Some(65532i64)
    &&& pod.containers[0].security_context is Some
    &&& pod.containers[0].security_context->0.allow_privilege_escalation == Some(false)
}

/// An object belongs to the object that it was built for.
pub open spec fn belongs_to(
    meta: ObjectMetaView,
    owner: ObjectMetaView,
    kind: Seq<char>,
    api_version: Seq<char>,
) -> bool {
    &&& meta.owner_references is Some
    &&& meta.owner_references->0.len() == 1
    &&& refers_to(meta.owner_references->0[0], owner, kind, api_version)
}

/// A reference is to an object.
pub open spec fn refers_to(
    r: OwnerReferenceView,
    owner: ObjectMetaView,
    kind: Seq<char>,
    api_version: Seq<char>,
) -> bool {
    &&& Some(r.name) == owner.name
    &&& Some(r.uid) == owner.uid
    &&& r.kind == kind
    &&& r.api_version == api_version
}

/// The use of a container is what its environment says, exactly if it is no administrative command;
/// those are told apart by what they run. What serves requests has ports for them and for its
/// state, and is looked after through ports that it has.
pub proof fn containers_are_what_they_are_for(b: ContainerBuilderView)
    ensures
        ({
            let c = container_of(b);
            let serves = b.kind == ContainerKind::Indexer || b.kind == ContainerKind::Matcher
                || b.kind == ContainerKind::Notifier;
            &&& c.image == Some(b.image)
            &&& c.args == b.argv
            &&& b.kind == ContainerKind::Indexer ==> has_var(c, "CLAIR_MODE"@, "indexer"@)
            &&& b.kind == ContainerKind::Matcher ==> has_var(c, "CLAIR_MODE"@, "matcher"@)
            &&& b.kind == ContainerKind::Notifier ==> has_var(c, "CLAIR_MODE"@, "notifier"@)
            &&& b.kind == ContainerKind::Updater ==> has_var(c, "CLAIR_MODE"@, "updater"@)
            &&& b.kind == ContainerKind::AdminPre ==> c.command == Some(
                seq!["clairctl"@, "admin"@, "pre"@],
            ) && lacks_var(c, "CLAIR_MODE"@) && c.ports is None
            &&& b.kind == ContainerKind::AdminPost ==> c.command == Some(
                seq!["clairctl"@, "admin"@, "post"@],
            ) && lacks_var(c, "CLAIR_MODE"@) && c.ports is None
            &&& b.kind != ContainerKind::AdminPre && b.kind != ContainerKind::AdminPost
                ==> c.command == Some(seq!["clair"@]) && has_port(c, "introspection"@)
            &&& serves <==> has_port(c, "api"@)
            &&& c.ports matches Some(ports) ==> forall|i: int|
                0 <= i < ports.len() ==> {
                    ||| (#[trigger] ports[i]).name == Some("api"@) && ports[i].container_port == 6060
                    ||| ports[i].name == Some("introspection"@) && ports[i].container_port == 8089
                }
            &&& serves <==> c.startup_probe is Some
            &&& serves <==> c.liveness_probe is Some
            &&& serves <==> c.readiness_probe is Some
            &&& probes_own_port(c, c.startup_probe)
            &&& probes_own_port(c, c.liveness_probe)
            &&& probes_own_port(c, c.readiness_probe)
            &&& serves ==> c.liveness_probe->0.http_get->0.path == Some("/healthz"@)
            &&& serves ==> c.readiness_probe->0.http_get->0.path == Some("/readyz"@)
        }),
{
    let c = container_of(b);
    names_differ();
    let env = c.env->0;
    if c.ports is Some {
        let ports = c.ports->0;
        assert(ports[0].name == Some("introspection"@));
        if ports.len() > 1 {
            assert(ports[1].name == Some("api"@));
        }
    }
    if b.kind != ContainerKind::AdminPre && b.kind != ContainerKind::AdminPost {
        assert(env[1].name == "CLAIR_MODE"@);
        assert(env.contains(env[1]));
    }
}

/// Names that are told apart.
proof fn names_differ()
    ensures
        "CLAIR_CONF"@ != "CLAIR_MODE"@,
        "api"@ != "introspection"@,
{
    reveal_strlit("CLAIR_CONF");
    reveal_strlit("CLAIR_MODE");
    reveal_strlit("api");
    reveal_strlit("introspection");
    assert("CLAIR_CONF"@[6] != "CLAIR_MODE"@[6]);
    assert("api"@.len() != "introspection"@.len());
}

/// A deployment runs the component that it was built for: its container runs in the mode that the
/// component's label says, with the image and the configuration of the object. It is named after
/// both, and belongs to the object.
pub proof fn deployments_run_their_component<W: Worker>(v: W::V)
    requires
        deployment_builder::<W>(v) is Ok,
    ensures
        ({
            let d = deployment_of(deployment_builder::<W>(v)->Ok_0);
            let template = d.spec->0.template;
            let c = template.spec->0.containers[0];
            let labels = template.metadata->0.labels->0;
            let component = labels["app.kubernetes.io/component"@];
            &&& d.spec is Some
            &&& is_confined(template)
            &&& labels.dom().contains("app.kubernetes.io/component"@)
            &&& component == W::component_of().name()
            &&& has_var(c, "CLAIR_MODE"@, component)
            &&& c.image == W::image_of(v)
            &&& sees_configuration(template, W::config_of(v)->0)
            &&& d.spec->0.selector.match_labels == Some(labels)
            &&& d.metadata.labels == Some(labels)
            &&& d.metadata.name == Some(W::metadata(v).name->0 + "-"@ + component)
            &&& d.metadata.namespace == W::metadata(v).namespace
            &&& belongs_to(
                d.metadata,
                W::metadata(v),
                W::kind_name(),
                resource::group_version(W::group_name(), W::version_name()),
            )
            &&& has_port(c, "api"@)
            &&& probes_own_port(c, c.startup_probe)
            &&& probes_own_port(c, c.liveness_probe)
            &&& probes_own_port(c, c.readiness_probe)
            &&& W::component_of() == Component::Indexer <==> c.volume_mounts->0.len() == 3
            &&& c.volume_mounts->0.len() == template.spec->0.volumes->0.len()
        }),
{
    let b = deployment_builder::<W>(v)->Ok_0;
    let d = deployment_of(b);
    let c = d.spec->0.template.spec->0.containers[0];
    names_differ();
    containers_are_what_they_are_for(
        ContainerBuilderView {
            kind: ContainerKind::of(b.kind),
            image: b.image,
            cfgsrc: b.cfgsrc,
            argv: None,
        },
    );
    assert(c.env->0[0].name == "CLAIR_CONF"@);
    assert(c.env->0.contains(c.env->0[0]));
    assert(c.ports->0[0].name == Some("introspection"@));
    assert(c.ports->0[1].name == Some("api"@));
}

/// What can be built and what is lacking: nothing is built without a namespace, an image, a
/// configuration and something to refer to.
pub proof fn deployments_need_everything<W: Worker>(v: W::V)
    ensures
        deployment_builder::<W>(v) is Ok <==> {
            &&& W::metadata(v).namespace is Some
            &&& W::image_of(v) is Some
            &&& W::config_of(v) is Some
            &&& W::metadata(v).name is Some
            &&& W::metadata(v).uid is Some
        },
        service_builder::<W>(v) is Ok <==> W::metadata(v).namespace is Some && W::metadata(v).name
            is Some && W::metadata(v).uid is Some,
        hpa_builder::<W>(v) is Ok <==> service_builder::<W>(v) is Ok,
        http_route_builder::<W>(v) is Ok <==> service_builder::<W>(v) is Ok,
{
}

/// The objects that describe components are those of their kinds, and the component is the kind in
/// lower case. Image, configuration and gateway are those of the spec.
pub proof fn workers_are_their_kinds(i: IndexerView, m: MatcherView, n: NotifierView)
    ensures
        Indexer::kind_name() == "Indexer"@ && Indexer::component_of().name() == "indexer"@,
        Matcher::kind_name() == "Matcher"@ && Matcher::component_of().name() == "matcher"@,
        Notifier::kind_name() == "Notifier"@ && Notifier::component_of().name() == "notifier"@,
        Indexer::component_of() == Component::Indexer,
        Matcher::component_of() == Component::Matcher,
        Notifier::component_of() == Component::Notifier,
        Indexer::image_of(i) == i.spec.image && Indexer::config_of(i) == i.spec.config
            && Indexer::gateway_of(i) == i.spec.gateway && Indexer::metadata(i) == i.metadata,
        Matcher::image_of(m) == m.spec.image && Matcher::config_of(m) == m.spec.config
            && Matcher::gateway_of(m) == m.spec.gateway && Matcher::metadata(m) == m.metadata,
        Notifier::image_of(n) == n.spec.image && Notifier::config_of(n) == n.spec.config
            && Notifier::gateway_of(n) == n.spec.gateway && Notifier::metadata(n) == n.metadata,
        Clair::kind_name() == "Clair"@,
        resource::group_version(Clair::group_name(), Clair::version_name()) == "clairproject.org"@
            + "/"@ + "v1alpha1"@,
        Indexer::group_name() == Clair::group_name() && Indexer::version_name()
            == Clair::version_name(),
        Matcher::group_name() == Clair::group_name() && Matcher::version_name()
            == Clair::version_name(),
        Notifier::group_name() == Clair::group_name() && Notifier::version_name()
            == Clair::version_name(),
{
    reveal_strlit("clairproject.org");
}

/// The path prefix of a component is made of its name, so that no two components answer the same
/// requests.
pub proof fn paths_name_the_component(a: Component, b: Component)
    ensures
        path_prefix(a) == "/"@ + a.name() + "/api/v1/"@,
        path_prefix(a) == path_prefix(b) <==> a == b,
        a.name() == b.name() <==> a == b,
        a == Component::Indexer ==> a.name() == "indexer"@,
        a == Component::Matcher ==> a.name() == "matcher"@,
        a == Component::Notifier ==> a.name() == "notifier"@,
{
    reveal_strlit("/");
    reveal_strlit("/api/v1/");
    reveal_strlit("indexer");
    reveal_strlit("matcher");
    reveal_strlit("notifier");
    reveal_strlit("/indexer/api/v1/");
    reveal_strlit("/matcher/api/v1/");
    reveal_strlit("/notifier/api/v1/");
    assert("/indexer/api/v1/"@ =~= "/"@ + "indexer"@ + "/api/v1/"@);
    assert("/matcher/api/v1/"@ =~= "/"@ + "matcher"@ + "/api/v1/"@);
    assert("/notifier/api/v1/"@ =~= "/"@ + "notifier"@ + "/api/v1/"@);
    assert("indexer"@[0] == 'i' && "matcher"@[0] == 'm' && "notifier"@[0] == 'n');
    assert("/indexer/api/v1/"@[1] == 'i');
    assert("/matcher/api/v1/"@[1] == 'm');
    assert("/notifier/api/v1/"@[1] == 'n');
}

/// A route leads the requests for a component, by the prefix that is made of its name, from the
/// gateway of the object to the service of the same component. Without a gateway it leads nowhere
/// and belongs to the object.
pub proof fn routes_lead_to_their_component<W: Worker>(v: W::V)
    requires
        http_route_builder::<W>(v) is Ok,
    ensures
        ({
            let r = route_of(http_route_builder::<W>(v)->Ok_0);
            let service = service_of(service_builder::<W>(v)->Ok_0);
            &&& r.metadata.name == Some(W::metadata(v).name->0 + "-"@ + W::component_of().name())
            &&& match W::gateway_of(v) {
                None => {
                    &&& r.spec.rules is None
                    &&& r.spec.parent_refs is None
                    &&& belongs_to(
                        r.metadata,
                        W::metadata(v),
                        W::kind_name(),
                        resource::group_version(W::group_name(), W::version_name()),
                    )
                },
                Some(gateway) => {
                    let parents = r.spec.parent_refs->0;
                    let rules = r.spec.rules->0;
                    let path = rules[0].matches->0[0].path->0;
                    let backend = rules[0].backend_refs->0[0];
                    &&& r.spec.parent_refs is Some && parents.len() == 1
                    &&& parents[0].group == gateway.group
                    &&& parents[0].kind == gateway.kind
                    &&& parents[0].namespace == gateway.namespace
                    &&& parents[0].section_name == gateway.section_name
                    &&& gateway.name is Some ==> Some(parents[0].name) == gateway.name
                    &&& gateway.name is None ==> Some(parents[0].name) == r.metadata.name
                    &&& r.spec.rules is Some && rules.len() == 1
                    &&& rules[0].matches->0.len() == 1
                    &&& path.type_ == Some("PathPrefix"@)
                    &&& path.value == Some("/"@ + W::component_of().name() + "/api/v1/"@)
                    &&& rules[0].backend_refs->0.len() == 1
                    &&& backend.kind == Some("Service"@)
                    &&& Some(backend.name) == service.metadata.name
                    &&& backend.namespace == service.metadata.namespace
                },
            }
        }),
{
    paths_name_the_component(W::component_of(), W::component_of());
}

/// A service takes requests at one port and hands them to a port that the container of the
/// component has, in the pods of the component's deployment. An autoscaler scales that deployment.
pub proof fn services_reach_their_component<W: Worker>(v: W::V)
    requires
        deployment_builder::<W>(v) is Ok,
    ensures
        ({
            let d = deployment_of(deployment_builder::<W>(v)->Ok_0);
            let s = service_of(service_builder::<W>(v)->Ok_0);
            let h = HorizontalPodAutoscalerBuilder::built(hpa_builder::<W>(v)->Ok_0);
            let owner = W::metadata(v);
            let api_version = resource::group_version(W::group_name(), W::version_name());
            let ports = s.spec->0.ports->0;
            let c = d.spec->0.template.spec->0.containers[0];
            &&& s.spec->0.selector == d.spec->0.template.metadata->0.labels
            &&& s.metadata.labels == d.metadata.labels
            &&& h.metadata.labels == d.metadata.labels
            &&& ports.len() == 1
            &&& ports[0].port == 80
            &&& ports[0].target_port matches Some(IntOrStringView::String(name))
            &&& has_port(c, name)
            &&& name != "introspection"@
            &&& s.metadata.name == d.metadata.name
            &&& s.metadata.namespace == d.metadata.namespace
            &&& h.metadata.name == d.metadata.name
            &&& h.metadata.namespace == d.metadata.namespace
            &&& h.spec->0.scale_target_ref.kind == "Deployment"@
            &&& h.spec->0.scale_target_ref.api_version == Some("apps/v1"@)
            &&& Some(h.spec->0.scale_target_ref.name) == d.metadata.name
            &&& h.spec->0.max_replicas == 10
            &&& h.spec->0.metrics->0.len() == 1
            &&& h.spec->0.metrics->0[0].resource->0.name == "cpu"@
            &&& h.spec->0.metrics->0[0].resource->0.target.average_utilization == Some(80i32)
            &&& belongs_to(s.metadata, owner, W::kind_name(), api_version)
            &&& belongs_to(h.metadata, owner, W::kind_name(), api_version)
        }),
{
    deployments_run_their_component::<W>(v);
    names_differ();
}

/// A command around an upgrade runs once, with the image and the configuration of the instance, for
/// the version that the image is tagged with. It belongs to the instance, and the two commands go
/// by different names.
pub proof fn commands_run_once(c: ClairView, kind: JobKind)
    requires
        job_builder(c, kind) is Ok,
    ensures
        ({
            let job = job_of(job_builder(c, kind)->Ok_0);
            let spec = job.spec->0;
            let container = spec.template.spec->0.containers[0];
            let version = text::after_last(c.spec.image->0, ':')->0;
            &&& is_confined(spec.template)
            &&& sees_configuration(spec.template, c.status->0.config->0)
            &&& container.image == c.spec.image
            &&& container.args == Some(seq![version])
            &&& container.command == Some(
                seq![
                    "clairctl"@,
                    "admin"@,
                    if kind == JobKind::AdminPre {
                        "pre"@
                    } else {
                        "post"@
                    },
                ],
            )
            &&& job.metadata.name == Some(
                c.metadata.name->0 + "-"@ + (if kind == JobKind::AdminPre {
                    "admin-pre"@
                } else {
                    "admin-post"@
                }) + "-"@ + version,
            )
            &&& job.metadata.namespace == c.metadata.namespace
            &&& belongs_to(
                job.metadata,
                c.metadata,
                "Clair"@,
                "clairproject.org"@ + "/"@ + "v1alpha1"@,
            )
            &&& spec.completions == Some(1i32)
            &&& spec.parallelism == Some(1i32)
        }),
{
    reveal_strlit("clairproject.org");
    let job = job_of(job_builder(c, kind)->Ok_0);
    let container = job.spec->0.template.spec->0.containers[0];
    assert(container.env->0[0].name == "CLAIR_CONF"@);
    assert(container.env->0.contains(container.env->0[0]));
}

/// An updater runs on the schedule that it asks for, and else on a default one; it can be suspended.
/// It runs with its own image and the configuration of its status.
pub proof fn updates_run_on_schedule(u: UpdaterView)
    requires
        cron_job_builder(u) is Ok,
    ensures
        ({
            let job = cron_job_of(cron_job_builder(u)->Ok_0);
            let spec = job.spec->0;
            let template = spec.job_template.spec->0.template;
            let c = template.spec->0.containers[0];
            &&& u.spec.schedule is Some ==> Some(spec.schedule) == u.spec.schedule
            &&& u.spec.schedule is None ==> spec.schedule == "0 */8 * * *"@
            &&& spec.suspend == u.spec.suspend
            &&& spec.concurrency_policy == Some("Forbid"@)
            &&& is_confined(template)
            &&& sees_configuration(template, u.status->0.config->0)
            &&& c.image == u.spec.image
            &&& has_var(c, "CLAIR_MODE"@, "updater"@)
            &&& job.metadata.name == Some(u.metadata.name->0 + "-"@ + "updater"@)
            &&& job.metadata.namespace == u.metadata.namespace
            &&& belongs_to(
                job.metadata,
                u.metadata,
                "Updater"@,
                "clairproject.org"@ + "/"@ + "v1alpha1"@,
            )
        }),
{
    reveal_strlit("clairproject.org");
    names_differ();
    let job = cron_job_of(cron_job_builder(u)->Ok_0);
    let c = job.spec->0.job_template.spec->0.template.spec->0.containers[0];
    assert(c.env->0[0].name == "CLAIR_CONF"@);
    assert(c.env->0[1].name == "CLAIR_MODE"@);
    assert(c.env->0.contains(c.env->0[0]));
    assert(c.env->0.contains(c.env->0[1]));
}

/// The components of an instance run its image with the configuration of its status, behind its
/// gateway. They go by its name and are managed by it.
pub proof fn components_take_after_their_instance(c: ClairView)
    requires
        worker_parts(c) is Ok,
    ensures
        ({
            let parts = worker_parts(c)->Ok_0;
            let (i, m, n) = (
                IndexerBuilder::built(parts),
                MatcherBuilder::built(parts),
                NotifierBuilder::built(parts),
            );
            &&& i.spec.image == c.spec.image && m.spec.image == c.spec.image && n.spec.image
                == c.spec.image
            &&& i.spec.config == c.status->0.config && m.spec.config == c.status->0.config
                && n.spec.config == c.status->0.config
            &&& i.spec.gateway == c.spec.gateway && m.spec.gateway == c.spec.gateway
                && n.spec.gateway == c.spec.gateway
            &&& is_managed_by(i.metadata, c, "indexer"@)
            &&& is_managed_by(m.metadata, c, "matcher"@)
            &&& is_managed_by(n.metadata, c, "notifier"@)
            &&& c.spec.image is Some
            &&& c.status is Some && c.status->0.config is Some
        }),
{
    reveal_strlit("clairproject.org");
    labels_differ();
}

/// An object goes by the name of an instance, carries a component's label and is managed by the
/// instance.
pub open spec fn is_managed_by(meta: ObjectMetaView, c: ClairView, component: Seq<char>) -> bool {
    &&& meta.name == c.metadata.name
    &&& meta.namespace == c.metadata.namespace
    &&& meta.labels is Some
    &&& meta.labels->0["app.kubernetes.io/component"@] == component
    &&& meta.labels->0["app.kubernetes.io/name"@] == "clair"@
    &&& belongs_to(meta, c.metadata, "Clair"@, "clairproject.org"@ + "/"@ + "v1alpha1"@)
    &&& meta.owner_references->0[0].controller == Some(true)
}

/// The map of an instance goes by its name, is managed by it and holds one configuration: under the
/// key that the configuration of the instance has as its root.
pub proof fn maps_hold_the_root(c: ClairView)
    requires
        config_map_builder(c) is Ok,
    ensures
        ({
            let cm = ConfigMapBuilder::built(config_map_builder(c)->Ok_0);
            let root = crate::clairs::config_source(c, cm).root;
            &&& is_managed_by(cm.metadata, c, "configmap"@)
            &&& cm.metadata.name == Some(root.name)
            &&& cm.data is Some
            &&& cm.data->0.dom() == set![root.key]
            &&& cm.data->0[root.key].len() > 2
            &&& cm.binary_data is None
        }),
{
    reveal_strlit("clairproject.org");
    labels_differ();
    let cm = ConfigMapBuilder::built(config_map_builder(c)->Ok_0);
    assert(cm.data->0.dom() =~= set!["config.json"@]);
    reveal_strlit(
        "{\"http_listen_addr\":\":6060\",\"indexer\":{\"migrations\":true},\"introspection_addr\":\":8089\",\"log_level\":\"info\",\"matcher\":{\"migrations\":true},\"metrics\":{\"name\":\"prometheus\"},\"notifier\":{\"migrations\":true}}",
    );
}

/// Labels that are told apart.
proof fn labels_differ()
    ensures
        "app.kubernetes.io/name"@ != "app.kubernetes.io/component"@,
        "app.kubernetes.io/name"@ != "app.kubernetes.io/managed-by"@,
        "app.kubernetes.io/component"@ != "app.kubernetes.io/managed-by"@,
{
    reveal_strlit("app.kubernetes.io/name");
    reveal_strlit("app.kubernetes.io/component");
    reveal_strlit("app.kubernetes.io/managed-by");
    assert("app.kubernetes.io/name"@.len() == 22);
    assert("app.kubernetes.io/component"@.len() == 27);
    assert("app.kubernetes.io/managed-by"@.len() == 28);
}

/// The drop-in of a component tells each of the other two where its service is, under the name of
/// the component that is found so; nobody has to find the notifier.
pub proof fn dropins_tell_the_others(addr: Seq<char>)
    ensures
        dropin_for("Indexer"@, addr) == Some(
            both(Component::Indexer, Component::Matcher, Component::Notifier, addr),
        ),
        dropin_for("Matcher"@, addr) == Some(
            both(Component::Matcher, Component::Indexer, Component::Notifier, addr),
        ),
        dropin_for("Notifier"@, addr) is None,
        dropin_for("Clair"@, addr) is None,
        dropin_for("Updater"@, addr) is None,
{
    reveal_strlit("Indexer");
    reveal_strlit("Matcher");
    reveal_strlit("Notifier");
    reveal_strlit("Clair");
    reveal_strlit("Updater");
    reveal_strlit("/");
    reveal_strlit("_addr");
    reveal_strlit("indexer");
    reveal_strlit("matcher");
    reveal_strlit("notifier");
    reveal_strlit("/matcher/indexer_addr");
    reveal_strlit("/notifier/indexer_addr");
    reveal_strlit("/indexer/matcher_addr");
    reveal_strlit("/notifier/matcher_addr");
    assert("/matcher/indexer_addr"@ =~= "/"@ + "matcher"@ + "/"@ + "indexer"@ + "_addr"@);
    assert("/notifier/indexer_addr"@ =~= "/"@ + "notifier"@ + "/"@ + "indexer"@ + "_addr"@);
    assert("/indexer/matcher_addr"@ =~= "/"@ + "indexer"@ + "/"@ + "matcher"@ + "_addr"@);
    assert("/notifier/matcher_addr"@ =~= "/"@ + "notifier"@ + "/"@ + "matcher"@ + "_addr"@);
    assert("Indexer"@[0] == 'I' && "Matcher"@[0] == 'M' && "Notifier"@[0] == 'N');
    assert("Clair"@[0] == 'C' && "Updater"@[0] == 'U');
}

/// Two changes that put the address of one component under its name for two others.
pub open spec fn both(of: Component, first: Component, second: Component, addr: Seq<char>) -> Seq<
    char,
> {
    "["@ + told(of, first, addr) + ","@ + told(of, second, addr) + "]"@
}

/// A change that puts the address of one component under its name for another.
pub open spec fn told(of: Component, to: Component, addr: Seq<char>) -> Seq<char> {
    "{\"op\":\"add\",\"path\":\""@ + ("/"@ + to.name() + "/"@ + of.name() + "_addr"@)
        + "\",\"value\":"@ + crate::json::quoted(addr) + "}"@
}

/// What an indexer that a Clair instance manages publishes: in the map of its root configuration,
/// the changes that lead to its own service. It publishes nothing otherwise.
pub proof fn managed_indexers_are_published(v: IndexerView)
    requires
        service_builder::<Indexer>(v) is Ok,
        v.spec.config is Some,
    ensures
        ({
            let r = crate::indexers::dropin_patch(v);
            let managed = v.metadata.owner_references is Some && exists|i: int|
                {
                    &&& 0 <= i < v.metadata.owner_references->0.len()
                    &&& (#[trigger] v.metadata.owner_references->0[i]).controller == Some(true)
                    &&& v.metadata.owner_references->0[i].kind == "Clair"@
                };
            let host = v.metadata.name->0 + "-"@ + "indexer"@ + "."@ + v.metadata.namespace->0
                + ".svc.cluster.local"@;
            &&& r is Ok
            &&& r->Ok_0 is Some <==> managed
            &&& managed ==> r->Ok_0->0.config_map == v.spec.config->0.root.name
            &&& managed ==> r->Ok_0->0.key == "00-indexer.json-patch"@
            &&& managed ==> r->Ok_0->0.value == both(
                Component::Indexer,
                Component::Matcher,
                Component::Notifier,
                host,
            )
        }),
{
    let service = service_of(service_builder::<Indexer>(v)->Ok_0);
    dropins_tell_the_others(service_address(service));
}

} // verus!
