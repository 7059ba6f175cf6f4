//! The components of a Clair instance, and its configuration.

use vstd::prelude::*;

use crate::k8s::meta::{OwnerReference, OwnerReferenceView};
use crate::k8s::pod::{ConfigMap, ConfigMapView};
use crate::maps::KeyMap;
use crate::model::Model;
use crate::resource::{self, Resource};
use crate::templates::{
    labels_of, outcome, owned, owned_meta, standard_labels, Build, Error, ErrorView,
    CONFIG_ROOT_KEY,
};
use crate::v1alpha1::{
    Clair, ClairView, ConfigSource, ConfigSourceView, Indexer, IndexerSpec, IndexerSpecView,
    IndexerView, Matcher, MatcherSpec, MatcherSpecView, MatcherView, Notifier, NotifierSpec,
    NotifierSpecView, NotifierView, RouteParentRef, RouteParentRefView,
};

verus! {

/// What a component takes from its Clair instance.
pub struct WorkerParts {
    namespace: String,
    name: String,
    ctl_ref: OwnerReference,
    image: String,
    cfgsrc: ConfigSource,
    gateway: Option<RouteParentRef>,
}

/// The value of a [`WorkerParts`].
pub ghost struct WorkerPartsView {
    pub namespace: Seq<char>,
    pub name: Seq<char>,
    pub ctl_ref: OwnerReferenceView,
    pub image: Seq<char>,
    pub cfgsrc: ConfigSourceView,
    pub gateway: Option<RouteParentRefView>,
}

impl DeepView for WorkerParts {
    type V = WorkerPartsView;

    closed spec fn deep_view(&self) -> WorkerPartsView {
        WorkerPartsView {
            namespace: self.namespace.deep_view(),
            name: self.name.deep_view(),
            ctl_ref: self.ctl_ref.deep_view(),
            image: self.image.deep_view(),
            cfgsrc: self.cfgsrc.deep_view(),
            gateway: self.gateway.deep_view(),
        }
    }
}

impl View for WorkerParts {
    type V = WorkerPartsView;

    open spec fn view(&self) -> WorkerPartsView {
        self.deep_view()
    }
}

/// The reference to a Clair instance as the owner that manages its components.
pub open spec fn clair_controller_ref(c: ClairView) -> Option<OwnerReferenceView> {
    resource::controller_ref_of(
        resource::group_version(Clair::group_name(), Clair::version_name()),
        Clair::kind_name(),
        c.metadata,
    )
}

/// What a component takes from its Clair instance, or what the instance lacks.
pub open spec fn worker_parts(c: ClairView) -> Result<WorkerPartsView, ErrorView> {
    let config = match c.status {
        Some(status) => status.config,
        None => None,
    };
    if c.metadata.namespace is None {
        Err(ErrorView::Namespace)
    } else if c.spec.image is None {
        Err(ErrorView::MissingImage)
    } else if config is None {
        Err(ErrorView::MissingConfigSource)
    } else if clair_controller_ref(c) is None {
        Err(ErrorView::Other("unable to construct controller ref"@))
    } else {
        Ok(
            WorkerPartsView {
                namespace: c.metadata.namespace->0,
                name: c.metadata.name->0,
                ctl_ref: clair_controller_ref(c)->0,
                image: c.spec.image->0,
                cfgsrc: config->0,
                gateway: c.spec.gateway,
            },
        )
    }
}

impl WorkerParts {
    fn new(value: &Clair) -> (r: Result<Self, Error>)
        requires
            value@.metadata.name is Some,
        ensures
            outcome(r) == worker_parts(value@),
    {
        let name = value.metadata.name.as_ref().unwrap().dup();
        let namespace = match &value.metadata.namespace {
            Some(namespace) => namespace.dup(),
            None => return Err(Error::Namespace),
        };
        let image = match &value.spec.image {
            Some(image) => image.dup(),
            None => return Err(Error::MissingImage),
        };
        let config = match &value.status {
            Some(status) => status.config.dup(),
            None => None,
        };
        let cfgsrc = match config {
            Some(cfgsrc) => cfgsrc,
            None => return Err(Error::MissingConfigSource),
        };
        let ctl_ref = match value.controller_owner_ref() {
            Some(ctl_ref) => ctl_ref,
            None => return Err(Error::Other("unable to construct controller ref")),
        };
        Ok(
            WorkerParts {
                namespace,
                name,
                ctl_ref,
                image,
                cfgsrc,
                gateway: value.spec.gateway.dup(),
            },
        )
    }
}

/// IndexerBuilder constructs an [`Indexer`] from a [`Clair`].
pub struct IndexerBuilder {
    parts: WorkerParts,
}

impl DeepView for IndexerBuilder {
    type V = WorkerPartsView;

    closed spec fn deep_view(&self) -> WorkerPartsView {
        self.parts@
    }
}

impl IndexerBuilder {
    /// The builder for the component of a Clair instance.
    pub fn try_from(value: &Clair) -> (r: Result<Self, Error>)
        requires
            value@.metadata.name is Some,
        ensures
            outcome(r) == worker_parts(value@),
    {
        match WorkerParts::new(value) {
            Ok(parts) => Ok(IndexerBuilder { parts }),
            Err(err) => Err(err),
        }
    }
}

impl Build for IndexerBuilder {
    type Output = Indexer;

    open spec fn built(v: WorkerPartsView) -> IndexerView {
        IndexerView {
            metadata: owned(v.name, v.namespace, labels_of("indexer"@), v.ctl_ref),
            spec: IndexerSpecView {
                image: Some(v.image),
                gateway: v.gateway,
                config: Some(v.cfgsrc),
            },
            status: None,
        }
    }

    fn build(self) -> (r: Indexer) {
        let parts = self.parts;
        Indexer {
            metadata: owned_meta(
                parts.name,
                parts.namespace,
                standard_labels("indexer"),
                parts.ctl_ref,
            ),
            spec: IndexerSpec {
                image: Some(parts.image),
                gateway: parts.gateway,
                config: Some(parts.cfgsrc),
            },
            status: None,
        }
    }
}

/// MatcherBuilder constructs a [`Matcher`] from a [`Clair`].
pub struct MatcherBuilder {
    parts: WorkerParts,
}

impl DeepView for MatcherBuilder {
    type V = WorkerPartsView;

    closed spec fn deep_view(&self) -> WorkerPartsView {
        self.parts@
    }
}

impl MatcherBuilder {
    /// The builder for the component of a Clair instance.
    pub fn try_from(value: &Clair) -> (r: Result<Self, Error>)
        requires
            value@.metadata.name is Some,
        ensures
            outcome(r) == worker_parts(value@),
    {
        match WorkerParts::new(value) {
            Ok(parts) => Ok(MatcherBuilder { parts }),
            Err(err) => Err(err),
        }
    }
}

impl Build for MatcherBuilder {
    type Output = Matcher;

    open spec fn built(v: WorkerPartsView) -> MatcherView {
        MatcherView {
            metadata: owned(v.name, v.namespace, labels_of("matcher"@), v.ctl_ref),
            spec: MatcherSpecView {
                image: Some(v.image),
                gateway: v.gateway,
                config: Some(v.cfgsrc),
            },
            status: None,
        }
    }

    fn build(self) -> (r: Matcher) {
        let parts = self.parts;
        Matcher {
            metadata: owned_meta(
                parts.name,
                parts.namespace,
                standard_labels("matcher"),
                parts.ctl_ref,
            ),
            spec: MatcherSpec {
                image: Some(parts.image),
                gateway: parts.gateway,
                config: Some(parts.cfgsrc),
            },
            status: None,
        }
    }
}

/// NotifierBuilder constructs a [`Notifier`] from a [`Clair`].
pub struct NotifierBuilder {
    parts: WorkerParts,
}

impl DeepView for NotifierBuilder {
    type V = WorkerPartsView;

    closed spec fn deep_view(&self) -> WorkerPartsView {
        self.parts@
    }
}

impl NotifierBuilder {
    /// The builder for the component of a Clair instance.
    pub fn try_from(value: &Clair) -> (r: Result<Self, Error>)
        requires
            value@.metadata.name is Some,
        ensures
            outcome(r) == worker_parts(value@),
    {
        match WorkerParts::new(value) {
            Ok(parts) => Ok(NotifierBuilder { parts }),
            Err(err) => Err(err),
        }
    }
}

impl Build for NotifierBuilder {
    type Output = Notifier;

    open spec fn built(v: WorkerPartsView) -> NotifierView {
        NotifierView {
            metadata: owned(v.name, v.namespace, labels_of("notifier"@), v.ctl_ref),
            spec: NotifierSpecView {
                image: Some(v.image),
                gateway: v.gateway,
                config: Some(v.cfgsrc),
            },
            status: None,
        }
    }

    fn build(self) -> (r: Notifier) {
        let parts = self.parts;
        Notifier {
            metadata: owned_meta(
                parts.name,
                parts.namespace,
                standard_labels("notifier"),
                parts.ctl_ref,
            ),
            spec: NotifierSpec {
                image: Some(parts.image),
                gateway: parts.gateway,
                config: Some(parts.cfgsrc),
            },
            status: None,
        }
    }
}

/// The oldest Clair that a default configuration has to work with.
#[derive(Clone, Copy, Debug, PartialEq, Eq, Structural)]
pub enum MinimumVersion {
    /// Addresses are set one by one.
    V1_4,
    /// Addresses are set by server.
    V1_5,
}

impl DeepView for MinimumVersion {
    type V = MinimumVersion;

    open spec fn deep_view(&self) -> MinimumVersion {
        *self
    }
}

impl MinimumVersion {
    /// The minimal default configuration for a Clair system.
    pub open spec fn config(self) -> Seq<char> {
        match self {
            MinimumVersion::V1_4 =>
                "{\"http_listen_addr\":\":6060\",\"indexer\":{\"migrations\":true},\"introspection_addr\":\":8089\",\"log_level\":\"info\",\"matcher\":{\"migrations\":true},\"metrics\":{\"name\":\"prometheus\"},\"notifier\":{\"migrations\":true}}"@,
            MinimumVersion::V1_5 =>
                "{\"api\":{\"v1\":{\"address\":\":6060\",\"enabled\":true,\"network\":\"tcp\"}},\"indexer\":{\"migrations\":true},\"introspection\":{\"address\":\":8089\",\"network\":\"tcp\"},\"log_level\":\"info\",\"matcher\":{\"migrations\":true},\"metrics\":{\"name\":\"prometheus\"},\"notifier\":{\"migrations\":true}}"@,
        }
    }

    /// The minimal default configuration for a Clair system.
    pub fn default_config(self) -> (r: &'static str)
        ensures
            r@ == self.config(),
    {
        match self {
            MinimumVersion::V1_4 =>
                "{\"http_listen_addr\":\":6060\",\"indexer\":{\"migrations\":true},\"introspection_addr\":\":8089\",\"log_level\":\"info\",\"matcher\":{\"migrations\":true},\"metrics\":{\"name\":\"prometheus\"},\"notifier\":{\"migrations\":true}}",
            MinimumVersion::V1_5 =>
                "{\"api\":{\"v1\":{\"address\":\":6060\",\"enabled\":true,\"network\":\"tcp\"}},\"indexer\":{\"migrations\":true},\"introspection\":{\"address\":\":8089\",\"network\":\"tcp\"},\"log_level\":\"info\",\"matcher\":{\"migrations\":true},\"metrics\":{\"name\":\"prometheus\"},\"notifier\":{\"migrations\":true}}",
        }
    }
}

/// ConfigMapBuilder builds a [`ConfigMap`] owned buy the [`Clair`] instance used to construct the
/// builder.
pub struct ConfigMapBuilder {
    namespace: String,
    name: String,
    owner_ref: OwnerReference,
    root_key: Option<String>,
    root_value: Option<String>,
    minimum: MinimumVersion,
}

/// The value of a [`ConfigMapBuilder`].
pub ghost struct ConfigMapBuilderView {
    pub namespace: Seq<char>,
    pub name: Seq<char>,
    pub owner_ref: OwnerReferenceView,
    pub root_key: Option<Seq<char>>,
    pub root_value: Option<Seq<char>>,
    pub minimum: MinimumVersion,
}

impl DeepView for ConfigMapBuilder {
    type V = ConfigMapBuilderView;

    closed spec fn deep_view(&self) -> ConfigMapBuilderView {
        ConfigMapBuilderView {
            namespace: self.namespace.deep_view(),
            name: self.name.deep_view(),
            owner_ref: self.owner_ref.deep_view(),
            root_key: self.root_key.deep_view(),
            root_value: self.root_value.deep_view(),
            minimum: self.minimum.deep_view(),
        }
    }
}

impl View for ConfigMapBuilder {
    type V = ConfigMapBuilderView;

    open spec fn view(&self) -> ConfigMapBuilderView {
        self.deep_view()
    }
}

/// The builder for the configuration of a Clair instance.
pub open spec fn config_map_builder(c: ClairView) -> Result<ConfigMapBuilderView, ErrorView> {
    if c.metadata.namespace is None {
        Err(ErrorView::Namespace)
    } else if clair_controller_ref(c) is None {
        Err(ErrorView::Other("unable to construct controller ref"@))
    } else {
        Ok(
            ConfigMapBuilderView {
                namespace: c.metadata.namespace->0,
                name: c.metadata.name->0,
                owner_ref: clair_controller_ref(c)->0,
                root_key: None,
                root_value: None,
                minimum: MinimumVersion::V1_4,
            },
        )
    }
}

impl ConfigMapBuilder {
    /// The builder for the configuration of a Clair instance.
    pub fn try_from(value: &Clair) -> (r: Result<Self, Error>)
        requires
            value@.metadata.namespace is Some ==> value@.metadata.name is Some,
        ensures
            outcome(r) == config_map_builder(value@),
    {
        let namespace = match &value.metadata.namespace {
            Some(namespace) => namespace.dup(),
            None => return Err(Error::Namespace),
        };
        let name = value.metadata.name.as_ref().unwrap().dup();
        let owner_ref = match value.controller_owner_ref() {
            Some(owner_ref) => owner_ref,
            None => return Err(Error::Other("unable to construct controller ref")),
        };
        Ok(
            ConfigMapBuilder {
                namespace,
                name,
                owner_ref,
                root_key: None,
                root_value: None,
                minimum: MinimumVersion::V1_4,
            },
        )
    }

    /// Set the key for the Clair configuration in the resulting [`ConfigMap`].
    pub fn with_key(self, key: &str) -> (r: Self)
        ensures
            r@ == (ConfigMapBuilderView { root_key: Some(key@), ..self@ }),
    {
        ConfigMapBuilder { root_key: Some(key.to_owned()), ..self }
    }

    /// Set the value for the Clair configuration in the resulting [`ConfigMap`].
    pub fn with_config(self, config: &str) -> (r: Self)
        ensures
            r@ == (ConfigMapBuilderView { root_value: Some(config@), ..self@ }),
    {
        ConfigMapBuilder { root_value: Some(config.to_owned()), ..self }
    }

    /// Set the oldest Clair that the default configuration has to work with.
    pub fn with_minimum_version(self, minimum: MinimumVersion) -> (r: Self)
        ensures
            r@ == (ConfigMapBuilderView { minimum, ..self@ }),
    {
        ConfigMapBuilder { minimum, ..self }
    }
}

impl Build for ConfigMapBuilder {
    type Output = ConfigMap;

    open spec fn built(v: ConfigMapBuilderView) -> ConfigMapView {
        let key = match v.root_key {
            Some(key) => key,
            None => "config.json"@,
        };
        let value = match v.root_value {
            Some(value) => value,
            None => v.minimum.config(),
        };
        ConfigMapView {
            metadata: owned(v.name, v.namespace, labels_of("configmap"@), v.owner_ref),
            data: Some(Map::empty().insert(key, value)),
            binary_data: None,
        }
    }

    fn build(self) -> (r: ConfigMap) {
        let key = match self.root_key {
            Some(key) => key,
            None => CONFIG_ROOT_KEY.to_owned(),
        };
        let value = match self.root_value {
            Some(value) => value,
            None => self.minimum.default_config().to_owned(),
        };
        let mut data = KeyMap::new();
        data.insert(key, value);
        ConfigMap {
            metadata: owned_meta(
                self.name,
                self.namespace,
                standard_labels("configmap"),
                self.owner_ref,
            ),
            data: Some(data),
            ..Default::default()
        }
    }
}

} // verus!
