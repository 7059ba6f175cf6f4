//! What runs a component and leads to it: deployment, autoscaler, service and route.

use vstd::prelude::*;

use crate::k8s::meta::{
    IntOrString, IntOrStringView, LabelSelector, LabelSelectorView, ObjectMeta, ObjectMetaView,
    OwnerReference, OwnerReferenceView,
};
use crate::k8s::pod::{
    EphemeralVolumeSource, EphemeralVolumeSourceView, PersistentVolumeClaimSpec,
    PersistentVolumeClaimSpecView, PersistentVolumeClaimTemplate,
    PersistentVolumeClaimTemplateView, Service, ServicePort, ServicePortView, ServiceSpec,
    ServiceSpecView, ServiceView, Volume, VolumeMount, VolumeMountView, VolumeResourceRequirements,
    VolumeResourceRequirementsView, VolumeView,
};
use crate::k8s::workload::{
    CrossVersionObjectReference, CrossVersionObjectReferenceView, Deployment, DeploymentSpec,
    DeploymentSpecView, DeploymentStrategy, DeploymentStrategyView, DeploymentView, HTTPRoute,
    HTTPRouteView, HorizontalPodAutoscaler, HorizontalPodAutoscalerSpec,
    HorizontalPodAutoscalerSpecView, HorizontalPodAutoscalerView, HttpRouteParentRefs,
    HttpRouteParentRefsView, HttpRouteRules, HttpRouteRulesBackendRefs,
    HttpRouteRulesBackendRefsView, HttpRouteRulesMatches, HttpRouteRulesMatchesPath,
    HttpRouteRulesMatchesPathView, HttpRouteRulesMatchesView, HttpRouteRulesView, HttpRouteSpec,
    HttpRouteSpecView, MetricSpec, MetricSpecView, MetricTarget, MetricTargetView,
    ResourceMetricSource, ResourceMetricSourceView,
};
use crate::maps::KeyMap;
use crate::model::{one, push, Model};
use crate::resource;
use crate::templates::container::{
    clair_pod, container_of, pod_template, ContainerBuilder, ContainerBuilderView, ContainerKind,
};
use crate::templates::volumes::{make_volumes, volumes_for};
use crate::templates::{
    component_name, labels_of, outcome, owned, owned_meta, standard_labels, Build, Component, Error,
    ErrorView, Worker, LAYER_VOLUME_NAME,
};
use crate::text;
use crate::v1alpha1::{ConfigSource, ConfigSourceView, RouteParentRef, RouteParentRefView};

verus! {

/// The reference to a worker as an owner.
pub open spec fn worker_ref<W: Worker>(v: W::V) -> Option<OwnerReferenceView> {
    resource::owner_ref_of(
        resource::group_version(W::group_name(), W::version_name()),
        W::kind_name(),
        W::metadata(v),
    )
}

/// What all objects of a component share: their namespace, name and owner.
pub open spec fn placed<W: Worker>(v: W::V) -> Result<
    (Seq<char>, Seq<char>, OwnerReferenceView),
    ErrorView,
> {
    if W::metadata(v).namespace is None {
        Err(ErrorView::Namespace)
    } else if worker_ref::<W>(v) is None {
        Err(ErrorView::OwnerReference)
    } else {
        Ok((W::metadata(v).namespace->0, component_name::<W>(v), worker_ref::<W>(v)->0))
    }
}

/// What all objects of a component share: their namespace, name and owner.
fn place<W: Worker>(value: &W) -> (r: Result<(String, String, OwnerReference), Error>)
    requires
        W::metadata(value.deep_view()).namespace is Some ==> W::metadata(
            value.deep_view(),
        ).name is Some,
    ensures
        match r {
            Ok((namespace, name, owner_ref)) => placed::<W>(value.deep_view()) == Ok::<
                (Seq<char>, Seq<char>, OwnerReferenceView),
                ErrorView,
            >((namespace@, name@, owner_ref@)),
            Err(e) => placed::<W>(value.deep_view()) == Err::<
                (Seq<char>, Seq<char>, OwnerReferenceView),
                ErrorView,
            >(e@),
        },
{
    let meta = value.meta();
    let namespace = match &meta.namespace {
        Some(namespace) => namespace.dup(),
        None => return Err(Error::Namespace),
    };
    let name = text::cat3(
        meta.name.as_ref().unwrap().as_str(),
        "-",
        W::component().as_str(),
    );
    match value.owner_ref() {
        Some(owner_ref) => Ok((namespace, name, owner_ref)),
        None => Err(Error::OwnerReference),
    }
}

/// HorizontalPodAutoscalerBuilder is a builder for a [`HorizontalPodAutoscaler`].
pub struct HorizontalPodAutoscalerBuilder {
    namespace: String,
    name: String,
    kind: Component,
    owner_ref: OwnerReference,
}

/// The value of a [`HorizontalPodAutoscalerBuilder`].
pub ghost struct HorizontalPodAutoscalerBuilderView {
    pub namespace: Seq<char>,
    pub name: Seq<char>,
    pub kind: Component,
    pub owner_ref: OwnerReferenceView,
}

impl DeepView for HorizontalPodAutoscalerBuilder {
    type V = HorizontalPodAutoscalerBuilderView;

    closed spec fn deep_view(&self) -> HorizontalPodAutoscalerBuilderView {
        HorizontalPodAutoscalerBuilderView {
            namespace: self.namespace.deep_view(),
            name: self.name.deep_view(),
            kind: self.kind.deep_view(),
            owner_ref: self.owner_ref.deep_view(),
        }
    }
}

impl View for HorizontalPodAutoscalerBuilder {
    type V = HorizontalPodAutoscalerBuilderView;

    open spec fn view(&self) -> HorizontalPodAutoscalerBuilderView {
        self.deep_view()
    }
}

/// The builder for the autoscaler of a component.
pub open spec fn hpa_builder<W: Worker>(v: W::V) -> Result<
    HorizontalPodAutoscalerBuilderView,
    ErrorView,
> {
    match placed::<W>(v) {
        Ok((namespace, name, owner_ref)) => Ok(
            HorizontalPodAutoscalerBuilderView {
                namespace,
                name,
                kind: W::component_of(),
                owner_ref,
            },
        ),
        Err(e) => Err(e),
    }
}

/// Most of the processor time that was asked for should be used.
pub open spec fn cpu_metric() -> MetricSpecView {
    MetricSpecView {
        type_: "Resource"@,
        resource: Some(
            ResourceMetricSourceView {
                name: "cpu"@,
                target: MetricTargetView {
                    type_: "Utilization"@,
                    average_utilization: Some(80),
                },
            },
        ),
    }
}

/// The deployment of a name.
pub open spec fn deployment_ref(name: Seq<char>) -> CrossVersionObjectReferenceView {
    CrossVersionObjectReferenceView {
        api_version: Some("apps/v1"@),
        kind: "Deployment"@,
        name,
    }
}

/// Most of the processor time that was asked for should be used.
pub(crate) fn make_cpu_metric() -> (r: MetricSpec)
    ensures
        r@ == cpu_metric(),
{
    MetricSpec {
        type_: "Resource".to_owned(),
        resource: Some(
            ResourceMetricSource {
                name: "cpu".to_owned(),
                target: MetricTarget {
                    type_: "Utilization".to_owned(),
                    average_utilization: Some(80),
                },
            },
        ),
    }
}

/// The deployment of a name.
pub(crate) fn make_deployment_ref(name: String) -> (r: CrossVersionObjectReference)
    ensures
        r@ == deployment_ref(name@),
{
    CrossVersionObjectReference {
        api_version: Some("apps/v1".to_owned()),
        kind: "Deployment".to_owned(),
        name,
    }
}

impl HorizontalPodAutoscalerBuilder {
    /// The builder for the autoscaler of a component.
    pub fn try_from<W: Worker>(value: &W) -> (r: Result<Self, Error>)
        requires
            W::metadata(value.deep_view()).namespace is Some ==> W::metadata(
                value.deep_view(),
            ).name is Some,
        ensures
            outcome(r) == hpa_builder::<W>(value.deep_view()),
    {
        match place(value) {
            Ok((namespace, name, owner_ref)) => Ok(
                HorizontalPodAutoscalerBuilder { namespace, name, kind: W::component(), owner_ref },
            ),
            Err(e) => Err(e),
        }
    }
}

impl Build for HorizontalPodAutoscalerBuilder {
    type Output = HorizontalPodAutoscaler;

    open spec fn built(v: HorizontalPodAutoscalerBuilderView) -> HorizontalPodAutoscalerView {
        HorizontalPodAutoscalerView {
            metadata: owned(v.name, v.namespace, labels_of(v.kind.name()), v.owner_ref),
            spec: Some(
                HorizontalPodAutoscalerSpecView {
                    max_replicas: 10,
                    min_replicas: None,
                    scale_target_ref: deployment_ref(v.name),
                    metrics: Some(seq![cpu_metric()]),
                },
            ),
        }
    }

    fn build(self) -> (r: HorizontalPodAutoscaler) {
        let labels = standard_labels(self.kind.as_str());
        HorizontalPodAutoscaler {
            metadata: owned_meta(self.name.dup(), self.namespace, labels, self.owner_ref),
            spec: Some(
                HorizontalPodAutoscalerSpec {
                    max_replicas: 10,
                    min_replicas: None,
                    scale_target_ref: make_deployment_ref(self.name),
                    metrics: Some(one(make_cpu_metric())),
                },
            ),
        }
    }
}

/// ServiceBuilder is a builder for a [`Service`].
pub struct ServiceBuilder {
    namespace: String,
    name: String,
    kind: Component,
    owner_ref: OwnerReference,
}

/// The value of a [`ServiceBuilder`].
pub ghost struct ServiceBuilderView {
    pub namespace: Seq<char>,
    pub name: Seq<char>,
    pub kind: Component,
    pub owner_ref: OwnerReferenceView,
}

impl DeepView for ServiceBuilder {
    type V = ServiceBuilderView;

    closed spec fn deep_view(&self) -> ServiceBuilderView {
        ServiceBuilderView {
            namespace: self.namespace.deep_view(),
            name: self.name.deep_view(),
            kind: self.kind.deep_view(),
            owner_ref: self.owner_ref.deep_view(),
        }
    }
}

impl View for ServiceBuilder {
    type V = ServiceBuilderView;

    open spec fn view(&self) -> ServiceBuilderView {
        self.deep_view()
    }
}

/// The builder for the service of a component.
pub open spec fn service_builder<W: Worker>(v: W::V) -> Result<ServiceBuilderView, ErrorView> {
    match placed::<W>(v) {
        Ok((namespace, name, owner_ref)) => Ok(
            ServiceBuilderView { namespace, name, kind: W::component_of(), owner_ref },
        ),
        Err(e) => Err(e),
    }
}

/// The port that requests come in by.
pub open spec fn api_port() -> ServicePortView {
    ServicePortView {
        name: Some("api"@),
        port: 80,
        target_port: Some(IntOrStringView::String("api"@)),
    }
}

/// The port that requests come in by.
pub(crate) fn make_api_port() -> (r: ServicePort)
    ensures
        r@ == api_port(),
{
    ServicePort {
        name: Some("api".to_owned()),
        port: 80,
        target_port: Some(IntOrString::String("api".to_owned())),
    }
}

impl ServiceBuilder {
    /// The builder for the service of a component.
    pub fn try_from<W: Worker>(value: &W) -> (r: Result<Self, Error>)
        requires
            W::metadata(value.deep_view()).namespace is Some ==> W::metadata(
                value.deep_view(),
            ).name is Some,
        ensures
            outcome(r) == service_builder::<W>(value.deep_view()),
    {
        match place(value) {
            Ok((namespace, name, owner_ref)) => Ok(
                ServiceBuilder { namespace, name, kind: W::component(), owner_ref },
            ),
            Err(e) => Err(e),
        }
    }
}

/// The service of a component: it sends requests to the pods that carry its own labels.
pub open spec fn service_of(v: ServiceBuilderView) -> ServiceView {
    ServiceView {
        metadata: owned(v.name, v.namespace, labels_of(v.kind.name()), v.owner_ref),
        spec: Some(
            ServiceSpecView {
                selector: Some(labels_of(v.kind.name())),
                ports: Some(seq![api_port()]),
            },
        ),
    }
}

impl Build for ServiceBuilder {
    type Output = Service;

    open spec fn built(v: ServiceBuilderView) -> ServiceView {
        service_of(v)
    }

    fn build(self) -> (r: Service) {
        let labels = standard_labels(self.kind.as_str());
        Service {
            metadata: owned_meta(self.name, self.namespace, labels.dup(), self.owner_ref),
            spec: Some(ServiceSpec { selector: Some(labels), ports: Some(one(make_api_port())) }),
        }
    }
}

/// HTTPRouteBuilder is a builder for a [`HTTPRoute`].
pub struct HTTPRouteBuilder {
    namespace: String,
    name: String,
    kind: Component,
    owner_ref: OwnerReference,
    service: Service,
    gateway: Option<RouteParentRef>,
}

/// The value of a [`HTTPRouteBuilder`].
pub ghost struct HTTPRouteBuilderView {
    pub namespace: Seq<char>,
    pub name: Seq<char>,
    pub kind: Component,
    pub owner_ref: OwnerReferenceView,
    pub service: ServiceView,
    pub gateway: Option<RouteParentRefView>,
}

impl DeepView for HTTPRouteBuilder {
    type V = HTTPRouteBuilderView;

    closed spec fn deep_view(&self) -> HTTPRouteBuilderView {
        HTTPRouteBuilderView {
            namespace: self.namespace.deep_view(),
            name: self.name.deep_view(),
            kind: self.kind.deep_view(),
            owner_ref: self.owner_ref.deep_view(),
            service: self.service.deep_view(),
            gateway: self.gateway.deep_view(),
        }
    }
}

impl View for HTTPRouteBuilder {
    type V = HTTPRouteBuilderView;

    open spec fn view(&self) -> HTTPRouteBuilderView {
        self.deep_view()
    }
}

/// The builder for the route to a component.
pub open spec fn http_route_builder<W: Worker>(v: W::V) -> Result<HTTPRouteBuilderView, ErrorView> {
    match placed::<W>(v) {
        Ok((namespace, name, owner_ref)) => Ok(
            HTTPRouteBuilderView {
                namespace,
                name,
                kind: W::component_of(),
                owner_ref,
                service: service_of(
                    ServiceBuilderView { namespace, name, kind: W::component_of(), owner_ref },
                ),
                gateway: W::gateway_of(v),
            },
        ),
        Err(e) => Err(e),
    }
}

/// The paths that a component answers.
pub open spec fn path_prefix(kind: Component) -> Seq<char> {
    match kind {
        Component::Indexer => "/indexer/api/v1/"@,
        Component::Matcher => "/matcher/api/v1/"@,
        Component::Notifier => "/notifier/api/v1/"@,
    }
}

/// The requests that a component answers.
pub open spec fn path_match(kind: Component) -> HttpRouteRulesMatchesView {
    HttpRouteRulesMatchesView {
        path: Some(
            HttpRouteRulesMatchesPathView {
                type_: Some("PathPrefix"@),
                value: Some(path_prefix(kind)),
            },
        ),
    }
}

/// What a route is attached to; a gateway without a name has that of the route.
pub open spec fn parent_ref(
    gateway: RouteParentRefView,
    name: Seq<char>,
) -> HttpRouteParentRefsView {
    HttpRouteParentRefsView {
        group: gateway.group,
        kind: gateway.kind,
        name: match gateway.name {
            Some(own) => own,
            None => name,
        },
        namespace: gateway.namespace,
        section_name: gateway.section_name,
    }
}

/// The route to a component. Without a gateway it leads nowhere, and is owned by the component.
pub open spec fn route_of(v: HTTPRouteBuilderView) -> HTTPRouteView {
    match v.gateway {
        None => HTTPRouteView {
            metadata: ObjectMetaView {
                name: Some(v.name),
                owner_references: Some(seq![v.owner_ref]),
                ..ObjectMetaView::blank()
            },
            spec: HttpRouteSpecView::blank(),
        },
        Some(gateway) => HTTPRouteView {
            metadata: ObjectMetaView { name: Some(v.name), ..ObjectMetaView::blank() },
            spec: HttpRouteSpecView {
                parent_refs: Some(seq![parent_ref(gateway, v.name)]),
                rules: Some(
                    seq![
                        HttpRouteRulesView {
                            matches: Some(seq![path_match(v.kind)]),
                            backend_refs: Some(
                                seq![
                                    HttpRouteRulesBackendRefsView {
                                        namespace: Some(v.namespace),
                                        name: resource::any_name(v.service.metadata),
                                        group: Some(""@),
                                        kind: Some("Service"@),
                                    },
                                ],
                            ),
                        },
                    ],
                ),
            },
        },
    }
}

/// The requests that a component answers.
fn match_path(kind: Component) -> (r: HttpRouteRulesMatches)
    ensures
        r@ == path_match(kind),
{
    let value = match kind {
        Component::Indexer => "/indexer/api/v1/",
        Component::Matcher => "/matcher/api/v1/",
        Component::Notifier => "/notifier/api/v1/",
    };
    HttpRouteRulesMatches {
        path: Some(
            HttpRouteRulesMatchesPath {
                type_: Some("PathPrefix".to_owned()),
                value: Some(value.to_owned()),
            },
        ),
    }
}

impl HTTPRouteBuilder {
    /// The builder for the route to a component.
    pub fn try_from<W: Worker>(value: &W) -> (r: Result<Self, Error>)
        requires
            W::metadata(value.deep_view()).namespace is Some ==> W::metadata(
                value.deep_view(),
            ).name is Some,
        ensures
            outcome(r) == http_route_builder::<W>(value.deep_view()),
    {
        let service = match ServiceBuilder::try_from(value) {
            Ok(builder) => builder.build(),
            Err(e) => return Err(e),
        };
        match place(value) {
            Ok((namespace, name, owner_ref)) => Ok(
                HTTPRouteBuilder {
                    namespace,
                    name,
                    kind: W::component(),
                    owner_ref,
                    service,
                    gateway: value.gateway().dup(),
                },
            ),
            Err(e) => Err(e),
        }
    }
}

impl Build for HTTPRouteBuilder {
    type Output = HTTPRoute;

    open spec fn built(v: HTTPRouteBuilderView) -> HTTPRouteView {
        route_of(v)
    }

    fn build(self) -> (r: HTTPRoute) {
        let gateway = match self.gateway {
            Some(gateway) => gateway,
            None => {
                return HTTPRoute {
                    metadata: ObjectMeta {
                        name: Some(self.name),
                        owner_references: Some(one(self.owner_ref)),
                        ..Default::default()
                    },
                    spec: Default::default(),
                };
            },
        };
        let parent = HttpRouteParentRefs {
            namespace: gateway.namespace,
            name: match gateway.name {
                Some(own) => own,
                None => self.name.dup(),
            },
            group: gateway.group,
            kind: gateway.kind,
            section_name: gateway.section_name,
        };
        let backend = HttpRouteRulesBackendRefs {
            namespace: Some(self.namespace),
            name: match self.service.metadata.name {
                Some(name) => name,
                None => match self.service.metadata.generate_name {
                    Some(prefix) => prefix,
                    None => String::new(),
                },
            },
            group: Some("".to_owned()),
            kind: Some("Service".to_owned()),
        };
        HTTPRoute {
            metadata: ObjectMeta { name: Some(self.name), ..Default::default() },
            spec: HttpRouteSpec {
                parent_refs: Some(one(parent)),
                rules: Some(
                    one(
                        HttpRouteRules {
                            matches: Some(one(match_path(self.kind))),
                            backend_refs: Some(one(backend)),
                        },
                    ),
                ),
            },
        }
    }
}

/// DeploymentBuilder is a builder for a [`Deployment`].
pub struct DeploymentBuilder {
    namespace: String,
    name: String,
    kind: Component,
    image: String,
    cfgsrc: ConfigSource,
    owner_ref: OwnerReference,
}

/// The value of a [`DeploymentBuilder`].
pub ghost struct DeploymentBuilderView {
    pub namespace: Seq<char>,
    pub name: Seq<char>,
    pub kind: Component,
    pub image: Seq<char>,
    pub cfgsrc: ConfigSourceView,
    pub owner_ref: OwnerReferenceView,
}

impl DeepView for DeploymentBuilder {
    type V = DeploymentBuilderView;

    closed spec fn deep_view(&self) -> DeploymentBuilderView {
        DeploymentBuilderView {
            namespace: self.namespace.deep_view(),
            name: self.name.deep_view(),
            kind: self.kind.deep_view(),
            image: self.image.deep_view(),
            cfgsrc: self.cfgsrc.deep_view(),
            owner_ref: self.owner_ref.deep_view(),
        }
    }
}

impl View for DeploymentBuilder {
    type V = DeploymentBuilderView;

    open spec fn view(&self) -> DeploymentBuilderView {
        self.deep_view()
    }
}

/// The builder for the deployment of a component.
pub open spec fn deployment_builder<W: Worker>(v: W::V) -> Result<
    DeploymentBuilderView,
    ErrorView,
> {
    if W::metadata(v).namespace is None {
        Err(ErrorView::Namespace)
    } else if W::image_of(v) is None {
        Err(ErrorView::MissingImage)
    } else if W::config_of(v) is None {
        Err(ErrorView::MissingConfigSource)
    } else if worker_ref::<W>(v) is None {
        Err(ErrorView::OwnerReference)
    } else {
        Ok(
            DeploymentBuilderView {
                namespace: W::metadata(v).namespace->0,
                name: component_name::<W>(v),
                kind: W::component_of(),
                image: W::image_of(v)->0,
                cfgsrc: W::config_of(v)->0,
                owner_ref: worker_ref::<W>(v)->0,
            },
        )
    }
}

/// Room for an indexer to unpack layers.
pub open spec fn layer_volume() -> VolumeView {
    VolumeView {
        name: "layer-scratch"@,
        ephemeral: Some(
            EphemeralVolumeSourceView {
                volume_claim_template: Some(
                    PersistentVolumeClaimTemplateView {
                        metadata: Some(ObjectMetaView::blank()),
                        spec: PersistentVolumeClaimSpecView {
                            access_modes: Some(seq!["ReadWriteOnce"@]),
                            resources: Some(
                                VolumeResourceRequirementsView {
                                    requests: Some(Map::empty().insert("storage"@, "10Gi"@)),
                                },
                            ),
                        },
                    },
                ),
            },
        ),
        ..VolumeView::blank()
    }
}

/// Where an indexer unpacks layers.
pub open spec fn layer_mount() -> VolumeMountView {
    VolumeMountView { name: "layer-scratch"@, mount_path: "/var/tmp"@, sub_path: None }
}

/// The deployment of a component; an indexer has room to unpack layers.
pub open spec fn deployment_of(v: DeploymentBuilderView) -> DeploymentView {
    let labels = labels_of(v.kind.name());
    let plain = container_of(
        ContainerBuilderView {
            kind: ContainerKind::of(v.kind),
            image: v.image,
            cfgsrc: v.cfgsrc,
            argv: None,
        },
    );
    let container = if v.kind == Component::Indexer {
        crate::k8s::pod::ContainerView {
            volume_mounts: Some(plain.volume_mounts->0.push(layer_mount())),
            ..plain
        }
    } else {
        plain
    };
    let volumes = if v.kind == Component::Indexer {
        volumes_for(v.cfgsrc).push(layer_volume())
    } else {
        volumes_for(v.cfgsrc)
    };
    DeploymentView {
        metadata: owned(v.name, v.namespace, labels, v.owner_ref),
        spec: Some(
            DeploymentSpecView {
                revision_history_limit: Some(3),
                progress_deadline_seconds: Some(60),
                replicas: None,
                strategy: Some(DeploymentStrategyView { type_: Some("Recreate"@) }),
                selector: LabelSelectorView { match_labels: Some(labels) },
                template: clair_pod(labels, container, volumes),
            },
        ),
        status: None,
    }
}

/// Room for an indexer to unpack layers.
fn make_layer_volume() -> (r: Volume)
    ensures
        r@ == layer_volume(),
{
    let mut requests = KeyMap::new();
    requests.insert("storage".to_owned(), "10Gi".to_owned());
    Volume {
        name: LAYER_VOLUME_NAME.to_owned(),
        ephemeral: Some(
            EphemeralVolumeSource {
                volume_claim_template: Some(
                    PersistentVolumeClaimTemplate {
                        metadata: Some(Default::default()),
                        spec: PersistentVolumeClaimSpec {
                            access_modes: Some(one("ReadWriteOnce".to_owned())),
                            resources: Some(
                                VolumeResourceRequirements { requests: Some(requests) },
                            ),
                        },
                    },
                ),
            },
        ),
        ..Default::default()
    }
}

impl DeploymentBuilder {
    /// The builder for the deployment of a component.
    pub fn try_from<W: Worker>(value: &W) -> (r: Result<Self, Error>)
        requires
            W::metadata(value.deep_view()).namespace is Some ==> W::metadata(
                value.deep_view(),
            ).name is Some,
        ensures
            outcome(r) == deployment_builder::<W>(value.deep_view()),
    {
        let meta = value.meta();
        let namespace = match &meta.namespace {
            Some(namespace) => namespace.dup(),
            None => return Err(Error::Namespace),
        };
        let name = text::cat3(
            meta.name.as_ref().unwrap().as_str(),
            "-",
            W::component().as_str(),
        );
        let image = match value.image() {
            Some(image) => image.dup(),
            None => return Err(Error::MissingImage),
        };
        let cfgsrc = match value.config() {
            Some(cfgsrc) => cfgsrc.dup(),
            None => return Err(Error::MissingConfigSource),
        };
        let owner_ref = match value.owner_ref() {
            Some(owner_ref) => owner_ref,
            None => return Err(Error::OwnerReference),
        };
        Ok(DeploymentBuilder { namespace, name, kind: W::component(), image, cfgsrc, owner_ref })
    }

    /// Image sets the "image" for the resulting [`Deployment`].
    pub fn image(self, image: &str) -> (r: Self)
        ensures
            r@ == (DeploymentBuilderView { image: image@, ..self@ }),
    {
        DeploymentBuilder { image: image.to_owned(), ..self }
    }

    /// Config_source sets the "config source" for the resulting [`Deployment`].
    pub fn config_source(self, cfgsrc: &ConfigSource) -> (r: Self)
        ensures
            r@ == (DeploymentBuilderView { cfgsrc: cfgsrc@, ..self@ }),
    {
        DeploymentBuilder { cfgsrc: cfgsrc.dup(), ..self }
    }
}

impl Build for DeploymentBuilder {
    type Output = Deployment;

    open spec fn built(v: DeploymentBuilderView) -> DeploymentView {
        deployment_of(v)
    }

    fn build(self) -> (r: Deployment) {
        let labels = standard_labels(self.kind.as_str());
        let mut container = ContainerBuilder::new(
            ContainerKind::from_component(self.kind),
            &self.image,
            &self.cfgsrc,
        ).build();
        let mut volumes = make_volumes(&self.cfgsrc);
        if self.kind == Component::Indexer {
            push(&mut volumes, make_layer_volume());
            let mut mounts = match container.volume_mounts.take() {
                Some(mounts) => mounts,
                None => Vec::new(),
            };
            push(
                &mut mounts,
                VolumeMount {
                    name: LAYER_VOLUME_NAME.to_owned(),
                    mount_path: "/var/tmp".to_owned(),
                    ..Default::default()
                },
            );
            container.volume_mounts = Some(mounts);
        }
        Deployment {
            metadata: owned_meta(self.name, self.namespace, labels.dup(), self.owner_ref),
            spec: Some(
                DeploymentSpec {
                    revision_history_limit: Some(3),
                    progress_deadline_seconds: Some(60),
                    replicas: None,
                    strategy: Some(DeploymentStrategy { type_: Some("Recreate".to_owned()) }),
                    selector: LabelSelector { match_labels: Some(labels.dup()) },
                    template: pod_template(labels, container, volumes),
                },
            ),
            status: None,
        }
    }
}

/// Every volume that the container of a deployment mounts is there.
pub proof fn mounts_have_volumes(v: DeploymentBuilderView)
    ensures
        ({
            let pod = deployment_of(v).spec->0.template.spec->0;
            let mounts = pod.containers[0].volume_mounts->0;
            let volumes = pod.volumes->0;
            &&& mounts.len() == volumes.len()
            &&& forall|i: int|
                0 <= i < mounts.len() ==> (#[trigger] mounts[i]).name == volumes[i].name
        }),
{
}

/// A deployment finds its own pods, and the service of the same component finds them too; the
/// autoscaler scales that deployment.
pub proof fn workloads_fit_together<W: Worker>(v: W::V)
    requires
        deployment_builder::<W>(v) is Ok,
    ensures
        service_builder::<W>(v) is Ok,
        hpa_builder::<W>(v) is Ok,
        ({
            let deployment = deployment_of(deployment_builder::<W>(v)->Ok_0);
            let service = service_of(service_builder::<W>(v)->Ok_0);
            let hpa = HorizontalPodAutoscalerBuilder::built(hpa_builder::<W>(v)->Ok_0);
            let pods = deployment.spec->0.template.metadata->0.labels;
            &&& deployment.spec->0.selector.match_labels == pods
            &&& service.spec->0.selector == pods
            &&& hpa.spec->0.scale_target_ref.name == deployment.metadata.name->0
            &&& service.metadata.name == deployment.metadata.name
            &&& service.metadata.namespace == deployment.metadata.namespace
        }),
{
}

} // verus!
