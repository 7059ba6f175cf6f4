//! Fixed templates for the objects of a component.

use vstd::prelude::*;

use crate::k8s::meta::{
    LabelSelector, LabelSelectorView, ObjectMeta, ObjectMetaView, OwnerReference, OwnerReferenceView,
};
use crate::k8s::pod::{
    Container, ContainerPort, ContainerPortView, ContainerView, EnvVar, EnvVarSource,
    EnvVarSourceView, EnvVarView, PodSecurityContext, PodSecurityContextView, PodSpec, PodSpecView,
    PodTemplateSpec, PodTemplateSpecView, ResourceFieldSelector, ResourceFieldSelectorView,
    SecurityContext, SecurityContextView, Service, ServiceSpec, ServiceSpecView, ServiceView,
};
use crate::k8s::workload::{
    CronJob, CronJobSpec, CronJobSpecView, CronJobView, Deployment, DeploymentSpec,
    DeploymentSpecView, DeploymentView, HorizontalPodAutoscaler, HorizontalPodAutoscalerSpec,
    HorizontalPodAutoscalerSpecView, HorizontalPodAutoscalerView, Ingress, IngressView, JobSpec,
    JobSpecView, JobTemplateSpec, JobTemplateSpecView,
};
use crate::maps::KeyMap;
use crate::model::{none, one, two, Model};
use crate::resource::{self, Resource};
use crate::templates::container::{
    env_var, http_probe, make_http_probe, make_tcp_probe, named_port, one_cpu, request_cpu,
    tcp_probe,
};
use crate::templates::workloads::{
    api_port, cpu_metric, deployment_ref, make_api_port, make_cpu_metric, make_deployment_ref,
};
use crate::templates::{labelled, labelled_meta, labels_of, standard_labels};
use crate::text;

verus! {

/// The repository of the image to use if nothing else is specified.
pub const DEFAULT_CONTAINER_REPOSITORY: &'static str = "quay.io/projectquay/clair";

/// The tag of the image to use if nothing else is specified: that of a release, or the newest in a
/// build for debugging.
pub open spec fn default_tag(debug: bool) -> Seq<char> {
    if debug {
        "nightly"@
    } else {
        "4.7.0"@
    }
}

/// DEFAULT_IMAGE is the container image to use for Clair deployments if not specified in a
/// CRD.
///
/// The repository and tag components can be changed. Without a tag, builds for debugging have
/// another one than releases.
pub fn default_image(repository: Option<&str>, tag: Option<&str>, debug: bool) -> (r: String)
    ensures
        r@ == (match repository {
            Some(repository) => repository@,
            None => "quay.io/projectquay/clair"@,
        }) + ":"@ + (match tag {
            Some(tag) => tag@,
            None => default_tag(debug),
        }),
{
    let repository = match repository {
        Some(repository) => repository,
        None => DEFAULT_CONTAINER_REPOSITORY,
    };
    let tag = match tag {
        Some(tag) => tag,
        None => if debug {
            "nightly"
        } else {
            "4.7.0"
        },
    };
    text::cat3(repository, ":", tag)
}

/// A kind of object that there is a template for.
pub trait Template: Resource {
    /// The template for a component that goes by a name and runs an image.
    spec fn templated(
        component: Seq<char>,
        name: Seq<char>,
        image: Seq<char>,
    ) -> Self::V;

    /// The object with other owners.
    spec fn owned_by(v: Self::V, owners: Option<Seq<OwnerReferenceView>>) -> Self::V;

    /// The template for a component that goes by a name and runs an image.
    fn template(component: &str, name: &str, image: &str) -> (r: Self)
        ensures
            r.deep_view() == Self::templated(component@, name@, image@),
    ;

    /// Replaces the owners of the object.
    fn set_owners(&mut self, owners: Option<Vec<OwnerReference>>)
        ensures
            final(self).deep_view() == Self::owned_by(old(self).deep_view(), owners.deep_view()),
    ;
}

/// The name of what belongs to an object: its own name and its kind in lower case.
pub open spec fn rendered_name<O: Resource>(owner: O::V) -> Seq<char> {
    resource::any_name(O::metadata(owner)) + "-"@ + text::lower(O::kind_name())
}

/// The owners of what belongs to an object: the object itself, once it can be referred to.
pub open spec fn rendered_owners<O: Resource>(owner: O::V) -> Option<Seq<OwnerReferenceView>> {
    match resource::controller_ref_of(
        resource::group_version(O::group_name(), O::version_name()),
        O::kind_name(),
        O::metadata(owner),
    ) {
        Some(r) => Some(seq![r]),
        None => None,
    }
}

/// What is rendered for an object.
pub open spec fn rendered<O: Resource, K: Template>(owner: O::V, image: Seq<char>) -> K::V {
    K::owned_by(
        K::templated(text::lower(O::kind_name()), rendered_name::<O>(owner), image),
        rendered_owners::<O>(owner),
    )
}

/// Render fills in the template of a kind for its owner.
pub fn render<O: Resource, K: Template>(owner: &O, image: &str) -> (r: K)
    ensures
        r.deep_view() == rendered::<O, K>(owner.deep_view(), image@),
{
    let kind = text::to_lower(O::kind());
    let name = text::cat3(owner.name_any().as_str(), "-", kind.as_str());
    let mut k = K::template(kind.as_str(), name.as_str(), image);
    let owners = match owner.controller_owner_ref() {
        Some(r) => Some(one(r)),
        None => None,
    };
    assert(owners.deep_view() == rendered_owners::<O>(owner.deep_view()));
    k.set_owners(owners);
    k
}

/// Metadata of which only the name and the labels are set.
pub open spec fn named(
    name: Seq<char>,
    labels: Map<Seq<char>, Seq<char>>,
) -> ObjectMetaView {
    ObjectMetaView { name: Some(name), labels: Some(labels), ..ObjectMetaView::blank() }
}

/// Metadata of which only the name and the labels are set.
fn named_meta(name: &str, labels: KeyMap<String>) -> (r: ObjectMeta)
    ensures
        r@ == named(name@, labels@),
{
    ObjectMeta { name: Some(name.to_owned()), labels: Some(labels), ..Default::default() }
}

/// The labels of what belongs to no component in particular.
pub open spec fn common_labels() -> Map<Seq<char>, Seq<char>> {
    Map::empty().insert("app.kubernetes.io/name"@, "clair"@).insert(
        "app.kubernetes.io/managed-by"@,
        "clair-operator"@,
    )
}

/// The labels of what belongs to no component in particular.
fn make_common_labels() -> (r: KeyMap<String>)
    ensures
        r@ == common_labels(),
{
    let mut labels = KeyMap::new();
    labels.insert("app.kubernetes.io/name".to_owned(), "clair".to_owned());
    labels.insert("app.kubernetes.io/managed-by".to_owned(), "clair-operator".to_owned());
    labels
}

/// The number of threads to use: as many processors as were asked for.
pub open spec fn threads_var() -> EnvVarView {
    EnvVarView {
        name: "GOMAXPROCS"@,
        value: None,
        value_from: Some(
            EnvVarSourceView {
                resource_field_ref: Some(
                    ResourceFieldSelectorView {
                        container_name: Some("clair"@),
                        resource: "requests.cpu"@,
                    },
                ),
            },
        ),
    }
}

/// The number of threads to use: as many processors as were asked for.
fn make_threads_var() -> (r: EnvVar)
    ensures
        r@ == threads_var(),
{
    EnvVar {
        name: "GOMAXPROCS".to_owned(),
        value: None,
        value_from: Some(
            EnvVarSource {
                resource_field_ref: Some(
                    ResourceFieldSelector {
                        container_name: Some("clair".to_owned()),
                        resource: "requests.cpu".to_owned(),
                    },
                ),
            },
        ),
    }
}

/// The container of a template, by what differs between templates.
pub open spec fn template_container(
    image: Seq<char>,
    ports: Seq<ContainerPortView>,
    env: Seq<EnvVarView>,
    startup_port: Seq<char>,
) -> ContainerView {
    ContainerView {
        name: "clair"@,
        image: Some(image),
        args: None,
        command: None,
        ports: Some(ports),
        env: Some(env),
        volume_mounts: Some(Seq::empty()),
        working_dir: Some("/run/clair"@),
        security_context: Some(SecurityContextView { allow_privilege_escalation: Some(false) }),
        resources: Some(one_cpu()),
        startup_probe: Some(tcp_probe(startup_port, 5, 1)),
        liveness_probe: Some(http_probe("/healthz"@, 15, 20)),
        readiness_probe: Some(http_probe("/readyz"@, 5, 10)),
    }
}

/// The container of a template, by what differs between templates.
fn make_template_container(
    image: &str,
    ports: Vec<ContainerPort>,
    env: Vec<EnvVar>,
    startup_port: &str,
) -> (r: Container)
    ensures
        r@ == template_container(image@, ports.deep_view(), env.deep_view(), startup_port@),
{
    Container {
        name: "clair".to_owned(),
        image: Some(image.to_owned()),
        args: None,
        command: None,
        ports: Some(ports),
        env: Some(env),
        volume_mounts: Some(none()),
        working_dir: Some("/run/clair".to_owned()),
        security_context: Some(SecurityContext { allow_privilege_escalation: Some(false) }),
        resources: Some(request_cpu()),
        startup_probe: Some(make_tcp_probe(startup_port, 5, 1)),
        liveness_probe: Some(make_http_probe("/healthz", 15, 20)),
        readiness_probe: Some(make_http_probe("/readyz", 5, 10)),
    }
}

/// The pods of a template.
pub open spec fn template_pod(container: ContainerView) -> PodSpecView {
    PodSpecView {
        termination_grace_period_seconds: Some(10),
        security_context: Some(PodSecurityContextView { run_as_user: Some(65532) }),
        share_process_namespace: Some(true),
        volumes: Some(Seq::empty()),
        containers: seq![container],
    }
}

/// The pods of a template.
fn make_template_pod(container: Container) -> (r: PodSpec)
    ensures
        r@ == template_pod(container@),
{
    PodSpec {
        termination_grace_period_seconds: Some(10),
        security_context: Some(PodSecurityContext { run_as_user: Some(65532) }),
        share_process_namespace: Some(true),
        volumes: Some(none()),
        containers: one(container),
    }
}

impl Template for CronJob {
    open spec fn templated(
        component: Seq<char>,
        name: Seq<char>,
        image: Seq<char>,
    ) -> CronJobView {
        let metadata = named(name, common_labels());
        let container = template_container(
            image,
            seq![named_port("introspection"@, 8089)],
            seq![threads_var()],
            "http"@,
        );
        CronJobView {
            metadata,
            spec: Some(
                CronJobSpecView {
                    concurrency_policy: Some("Forbid"@),
                    starting_deadline_seconds: Some(10),
                    time_zone: Some("Etc/UTC"@),
                    schedule: "0 */8 * * *"@,
                    suspend: None,
                    job_template: JobTemplateSpecView {
                        metadata: Some(metadata),
                        spec: Some(
                            JobSpecView {
                                active_deadline_seconds: Some(3600),
                                completion_mode: Some("NonIndexed"@),
                                completions: Some(1),
                                parallelism: Some(1),
                                template: PodTemplateSpecView {
                                    metadata: Some(metadata),
                                    spec: Some(template_pod(container)),
                                },
                            },
                        ),
                    },
                },
            ),
        }
    }

    open spec fn owned_by(v: CronJobView, owners: Option<Seq<OwnerReferenceView>>) -> CronJobView {
        CronJobView {
            metadata: ObjectMetaView { owner_references: owners, ..v.metadata },
            ..v
        }
    }

    fn template(component: &str, name: &str, image: &str) -> (r: CronJob) {
        let labels = make_common_labels();
        let container = make_template_container(
            image,
            one(
                ContainerPort { name: Some("introspection".to_owned()), container_port: 8089 },
            ),
            one(make_threads_var()),
            "http",
        );
        CronJob {
            metadata: named_meta(name, labels.dup()),
            spec: Some(
                CronJobSpec {
                    concurrency_policy: Some("Forbid".to_owned()),
                    starting_deadline_seconds: Some(10),
                    time_zone: Some("Etc/UTC".to_owned()),
                    schedule: "0 */8 * * *".to_owned(),
                    suspend: None,
                    job_template: JobTemplateSpec {
                        metadata: Some(named_meta(name, labels.dup())),
                        spec: Some(
                            JobSpec {
                                active_deadline_seconds: Some(3600),
                                completion_mode: Some("NonIndexed".to_owned()),
                                completions: Some(1),
                                parallelism: Some(1),
                                template: PodTemplateSpec {
                                    metadata: Some(named_meta(name, labels)),
                                    spec: Some(make_template_pod(container)),
                                },
                            },
                        ),
                    },
                },
            ),
        }
    }

    fn set_owners(&mut self, owners: Option<Vec<OwnerReference>>) {
        self.metadata.owner_references = owners;
    }
}

impl Template for Deployment {
    open spec fn templated(
        component: Seq<char>,
        name: Seq<char>,
        image: Seq<char>,
    ) -> DeploymentView {
        let labels = labels_of(component);
        let container = template_container(
            image,
            seq![named_port("api"@, 6060), named_port("introspection"@, 8089)],
            seq![threads_var(), env_var("CLAIR_MODE"@, component)],
            "api"@,
        );
        DeploymentView {
            metadata: named(name, labels),
            spec: Some(
                DeploymentSpecView {
                    selector: LabelSelectorView { match_labels: Some(labels) },
                    revision_history_limit: Some(3),
                    replicas: Some(1),
                    template: PodTemplateSpecView {
                        metadata: Some(labelled(labels)),
                        spec: Some(template_pod(container)),
                    },
                    progress_deadline_seconds: None,
                    strategy: None,
                },
            ),
            status: None,
        }
    }

    open spec fn owned_by(
        v: DeploymentView,
        owners: Option<Seq<OwnerReferenceView>>,
    ) -> DeploymentView {
        DeploymentView {
            metadata: ObjectMetaView { owner_references: owners, ..v.metadata },
            ..v
        }
    }

    fn template(component: &str, name: &str, image: &str) -> (r: Deployment) {
        let labels = standard_labels(component);
        let container = make_template_container(
            image,
            two(
                ContainerPort { name: Some("api".to_owned()), container_port: 6060 },
                ContainerPort { name: Some("introspection".to_owned()), container_port: 8089 },
            ),
            two(
                make_threads_var(),
                EnvVar {
                    name: "CLAIR_MODE".to_owned(),
                    value: Some(component.to_owned()),
                    value_from: None,
                },
            ),
            "api",
        );
        Deployment {
            metadata: named_meta(name, labels.dup()),
            spec: Some(
                DeploymentSpec {
                    selector: LabelSelector { match_labels: Some(labels.dup()) },
                    revision_history_limit: Some(3),
                    replicas: Some(1),
                    template: PodTemplateSpec {
                        metadata: Some(labelled_meta(labels)),
                        spec: Some(make_template_pod(container)),
                    },
                    ..Default::default()
                },
            ),
            status: None,
        }
    }

    fn set_owners(&mut self, owners: Option<Vec<OwnerReference>>) {
        self.metadata.owner_references = owners;
    }
}

impl Template for Service {
    open spec fn templated(
        component: Seq<char>,
        name: Seq<char>,
        image: Seq<char>,
    ) -> ServiceView {
        let labels = labels_of(component);
        ServiceView {
            metadata: named(name, labels),
            spec: Some(ServiceSpecView { ports: Some(seq![api_port()]), selector: Some(labels) }),
        }
    }

    open spec fn owned_by(v: ServiceView, owners: Option<Seq<OwnerReferenceView>>) -> ServiceView {
        ServiceView {
            metadata: ObjectMetaView { owner_references: owners, ..v.metadata },
            ..v
        }
    }

    fn template(component: &str, name: &str, image: &str) -> (r: Service) {
        let labels = standard_labels(component);
        Service {
            metadata: named_meta(name, labels.dup()),
            spec: Some(ServiceSpec { ports: Some(one(make_api_port())), selector: Some(labels) }),
        }
    }

    fn set_owners(&mut self, owners: Option<Vec<OwnerReference>>) {
        self.metadata.owner_references = owners;
    }
}

impl Template for HorizontalPodAutoscaler {
    open spec fn templated(
        component: Seq<char>,
        name: Seq<char>,
        image: Seq<char>,
    ) -> HorizontalPodAutoscalerView {
        HorizontalPodAutoscalerView {
            metadata: named(name, labels_of(component)),
            spec: Some(
                HorizontalPodAutoscalerSpecView {
                    min_replicas: Some(1),
                    max_replicas: 10,
                    scale_target_ref: deployment_ref(name),
                    metrics: Some(seq![cpu_metric()]),
                },
            ),
        }
    }

    open spec fn owned_by(
        v: HorizontalPodAutoscalerView,
        owners: Option<Seq<OwnerReferenceView>>,
    ) -> HorizontalPodAutoscalerView {
        HorizontalPodAutoscalerView {
            metadata: ObjectMetaView { owner_references: owners, ..v.metadata },
            ..v
        }
    }

    fn template(component: &str, name: &str, image: &str) -> (r: HorizontalPodAutoscaler) {
        HorizontalPodAutoscaler {
            metadata: named_meta(name, standard_labels(component)),
            spec: Some(
                HorizontalPodAutoscalerSpec {
                    min_replicas: Some(1),
                    max_replicas: 10,
                    scale_target_ref: make_deployment_ref(name.to_owned()),
                    metrics: Some(one(make_cpu_metric())),
                },
            ),
        }
    }

    fn set_owners(&mut self, owners: Option<Vec<OwnerReference>>) {
        self.metadata.owner_references = owners;
    }
}

impl Template for Ingress {
    open spec fn templated(
        component: Seq<char>,
        name: Seq<char>,
        image: Seq<char>,
    ) -> IngressView {
        IngressView::blank()
    }

    open spec fn owned_by(v: IngressView, owners: Option<Seq<OwnerReferenceView>>) -> IngressView {
        IngressView { metadata: ObjectMetaView { owner_references: owners, ..v.metadata } }
    }

    fn template(component: &str, name: &str, image: &str) -> (r: Ingress) {
        Default::default()
    }

    fn set_owners(&mut self, owners: Option<Vec<OwnerReference>>) {
        self.metadata.owner_references = owners;
    }
}

/// What is rendered for one owner fits together: the deployment finds its own pods, the service
/// finds them too, and the autoscaler scales that deployment.
pub proof fn rendered_fits_together<O: Resource>(owner: O::V, image: Seq<char>)
    ensures
        ({
            let deployment = rendered::<O, Deployment>(owner, image);
            let service = rendered::<O, Service>(owner, image);
            let hpa = rendered::<O, HorizontalPodAutoscaler>(owner, image);
            let pods = deployment.spec->0.template.metadata->0.labels;
            &&& deployment.spec->0.selector.match_labels == pods
            &&& service.spec->0.selector == pods
            &&& hpa.spec->0.scale_target_ref.name == deployment.metadata.name->0
            &&& service.metadata.name == deployment.metadata.name
            &&& deployment.metadata.owner_references == service.metadata.owner_references
        }),
{
}

} // verus!
