//! The objects that the operator creates.
//!
//! A builder takes what it needs from a Clair object, or from one of its components, and refuses
//! one that lacks something. Building is total.

use vstd::prelude::*;

use crate::json;
use crate::k8s::meta::{
    ObjectMeta, ObjectMetaView, OwnerReference, OwnerReferenceView,
};
use crate::k8s::pod::{Service, ServiceView};
use crate::maps::KeyMap;
use crate::model::one;
use crate::resource::{self, Resource};
use crate::text;
use crate::v1alpha1::{
    ConfigSource, ConfigSourceView, Indexer, IndexerView, Matcher, MatcherView, Notifier,
    NotifierView, RouteParentRef, RouteParentRefView,
};

pub mod container;
pub mod jobs;
pub mod sources;
pub mod volumes;
pub mod workers;
pub mod workloads;

verus! {

/// The key of the root configuration, where nothing else is asked for.
pub const CONFIG_ROOT_KEY: &'static str = "config.json";

/// The volume that holds the root configuration.
pub const CONFIG_ROOT_VOLUME_NAME: &'static str = "root-config";

/// The volume that holds the drop-ins.
pub const CONFIG_DROPIN_VOLUME_NAME: &'static str = "dropin-config";

/// Where a container finds the root configuration.
pub const CONFIG_FILENAME: &'static str = "/etc/clair/config.json";

/// The volume that an indexer unpacks layers to.
pub const LAYER_VOLUME_NAME: &'static str = "layer-scratch";

/// Error is the error domain for creating templates.
#[derive(Debug, PartialEq)]
pub enum Error {
    /// Unable to determine a namespace.
    Namespace,
    /// Missing an image name.
    MissingImage,
    /// Missing the configuration source.
    MissingConfigSource,
    /// Unable to construct an owner reference.
    OwnerReference,
    /// Any other error.
    Other(&'static str),
}

/// The value of an [`Error`].
pub ghost enum ErrorView {
    Namespace,
    MissingImage,
    MissingConfigSource,
    OwnerReference,
    Other(Seq<char>),
}

impl View for Error {
    type V = ErrorView;

    open spec fn view(&self) -> ErrorView {
        match self {
            Error::Namespace => ErrorView::Namespace,
            Error::MissingImage => ErrorView::MissingImage,
            Error::MissingConfigSource => ErrorView::MissingConfigSource,
            Error::OwnerReference => ErrorView::OwnerReference,
            Error::Other(msg) => ErrorView::Other(msg@),
        }
    }
}

impl ErrorView {
    /// The sentence for people.
    pub open spec fn text(self) -> Seq<char> {
        match self {
            ErrorView::Namespace => "unable to determine namespace"@,
            ErrorView::MissingImage => "missing required information: image"@,
            ErrorView::MissingConfigSource => "missing required information: ConfigSource"@,
            ErrorView::OwnerReference => "unable to construct owner reference"@,
            ErrorView::Other(msg) => "other error: "@ + msg,
        }
    }
}

impl Error {
    /// The sentence for people.
    pub fn message(&self) -> (r: String)
        ensures
            r@ == self@.text(),
    {
        match self {
            Error::Namespace => "unable to determine namespace".to_owned(),
            Error::MissingImage => "missing required information: image".to_owned(),
            Error::MissingConfigSource => "missing required information: ConfigSource".to_owned(),
            Error::OwnerReference => "unable to construct owner reference".to_owned(),
            Error::Other(msg) => text::cat("other error: ", msg),
        }
    }
}

/// What came out, by value.
pub open spec fn outcome<T: DeepView>(r: Result<T, Error>) -> Result<T::V, ErrorView> {
    match r {
        Ok(v) => Ok(v.deep_view()),
        Err(e) => Err(e@),
    }
}

/// Build is a common trait for constructing an object from a builder.
pub trait Build: DeepView + Sized {
    /// Output is the output type.
    type Output: DeepView;

    /// The object that a builder gives.
    spec fn built(v: Self::V) -> <Self::Output as DeepView>::V;

    /// Build constructs and returns the final object.
    ///
    /// This is infallible because values are checked when set on the builder.
    fn build(self) -> (r: Self::Output)
        ensures
            r.deep_view() == Self::built(self.deep_view()),
    ;
}

/// The components that serve requests.
#[derive(Clone, Copy, Debug, PartialEq, Eq, Structural)]
pub enum Component {
    /// Reads images.
    Indexer,
    /// Finds vulnerabilities.
    Matcher,
    /// Reports changes.
    Notifier,
}

impl DeepView for Component {
    type V = Component;

    open spec fn deep_view(&self) -> Component {
        *self
    }
}

impl Component {
    /// The name of the component, in lower case.
    pub open spec fn name(self) -> Seq<char> {
        match self {
            Component::Indexer => "indexer"@,
            Component::Matcher => "matcher"@,
            Component::Notifier => "notifier"@,
        }
    }

    /// The name of the component, in lower case.
    pub fn as_str(self) -> (r: &'static str)
        ensures
            r@ == self.name(),
    {
        match self {
            Component::Indexer => "indexer",
            Component::Matcher => "matcher",
            Component::Notifier => "notifier",
        }
    }
}

/// The object that a component is described by.
pub trait Worker: Resource {
    /// Which component it is.
    spec fn component_of() -> Component;

    /// The image to run.
    spec fn image_of(v: Self::V) -> Option<Seq<char>>;

    /// The configuration to run with.
    spec fn config_of(v: Self::V) -> Option<ConfigSourceView>;

    /// What to attach routes to.
    spec fn gateway_of(v: Self::V) -> Option<RouteParentRefView>;

    /// Which component it is.
    fn component() -> (r: Component)
        ensures
            r == Self::component_of(),
    ;

    /// The image to run.
    fn image(&self) -> (r: &Option<String>)
        ensures
            r.deep_view() == Self::image_of(self.deep_view()),
    ;

    /// The configuration to run with.
    fn config(&self) -> (r: &Option<ConfigSource>)
        ensures
            r.deep_view() == Self::config_of(self.deep_view()),
    ;

    /// What to attach routes to.
    fn gateway(&self) -> (r: &Option<RouteParentRef>)
        ensures
            r.deep_view() == Self::gateway_of(self.deep_view()),
    ;
}

/// The lower-case kind of a worker is the name of its component.
pub proof fn component_is_kind_in_lower_case()
    ensures
        text::lower(Indexer::kind_name()) == Indexer::component_of().name(),
        text::lower(Matcher::kind_name()) == Matcher::component_of().name(),
        text::lower(Notifier::kind_name()) == Notifier::component_of().name(),
{
    reveal_strlit("abcdefghijklmnopqrstuvwxyz");
    reveal_strlit("Indexer");
    reveal_strlit("indexer");
    reveal_strlit("Matcher");
    reveal_strlit("matcher");
    reveal_strlit("Notifier");
    reveal_strlit("notifier");
    assert(text::lower("Indexer"@) =~= "indexer"@);
    assert(text::lower("Matcher"@) =~= "matcher"@);
    assert(text::lower("Notifier"@) =~= "notifier"@);
}

/// The name of what belongs to a component: the object's own name and the component.
pub open spec fn component_name<W: Worker>(v: W::V) -> Seq<char> {
    W::metadata(v).name->0 + "-"@ + W::component_of().name()
}

/// The standard set of labels for resources created by this module.
pub open spec fn labels_of(component: Seq<char>) -> Map<Seq<char>, Seq<char>> {
    Map::empty().insert("app.kubernetes.io/name"@, "clair"@).insert(
        "app.kubernetes.io/managed-by"@,
        "clair-operator"@,
    ).insert("app.kubernetes.io/component"@, component)
}

/// Standard_Labels is the standard set of labels for resources created by this module.
pub(crate) fn standard_labels(component: &str) -> (r: KeyMap<String>)
    ensures
        r@ == labels_of(component@),
{
    let mut labels = KeyMap::new();
    labels.insert("app.kubernetes.io/name".to_owned(), "clair".to_owned());
    labels.insert("app.kubernetes.io/managed-by".to_owned(), "clair-operator".to_owned());
    labels.insert("app.kubernetes.io/component".to_owned(), component.to_owned());
    labels
}

/// The metadata of an object that has a name, labels and one owner.
pub open spec fn owned(
    name: Seq<char>,
    namespace: Seq<char>,
    labels: Map<Seq<char>, Seq<char>>,
    owner: OwnerReferenceView,
) -> ObjectMetaView {
    ObjectMetaView {
        name: Some(name),
        namespace: Some(namespace),
        labels: Some(labels),
        owner_references: Some(seq![owner]),
        ..ObjectMetaView::blank()
    }
}

/// The metadata of an object that has a name, labels and one owner.
pub(crate) fn owned_meta(
    name: String,
    namespace: String,
    labels: KeyMap<String>,
    owner: OwnerReference,
) -> (r: ObjectMeta)
    ensures
        r@ == owned(name@, namespace@, labels@, owner@),
{
    ObjectMeta {
        name: Some(name),
        namespace: Some(namespace),
        labels: Some(labels),
        owner_references: Some(one(owner)),
        ..Default::default()
    }
}

/// Metadata of which only the labels are set.
pub open spec fn labelled(labels: Map<Seq<char>, Seq<char>>) -> ObjectMetaView {
    ObjectMetaView { labels: Some(labels), ..ObjectMetaView::blank() }
}

/// Metadata of which only the labels are set.
pub(crate) fn labelled_meta(labels: KeyMap<String>) -> (r: ObjectMeta)
    ensures
        r@ == labelled(labels@),
{
    ObjectMeta { labels: Some(labels), ..Default::default() }
}

/// The address of a service inside the cluster.
pub open spec fn service_address(srv: ServiceView) -> Seq<char> {
    srv.metadata.name->0 + "."@ + srv.metadata.namespace->0 + ".svc.cluster.local"@
}

/// One change of a drop-in: the address is put at a path.
pub open spec fn address_change(path: Seq<char>, addr: Seq<char>) -> Seq<char> {
    "{\"op\":\"add\",\"path\":\""@ + path + "\",\"value\":"@ + json::quoted(addr) + "}"@
}

/// The drop-in that tells other components where a service is; the kinds that nobody has to find
/// have none.
pub open spec fn dropin_for(kind: Seq<char>, addr: Seq<char>) -> Option<Seq<char>> {
    if kind == "Indexer"@ {
        Some(
            "["@ + address_change("/matcher/indexer_addr"@, addr) + ","@ + address_change(
                "/notifier/indexer_addr"@,
                addr,
            ) + "]"@,
        )
    } else if kind == "Matcher"@ {
        Some(
            "["@ + address_change("/indexer/matcher_addr"@, addr) + ","@ + address_change(
                "/notifier/matcher_addr"@,
                addr,
            ) + "]"@,
        )
    } else {
        None
    }
}

/// One change of a drop-in, for an address that is quoted already.
fn change(path: &str, addr: &str, quoted: &str) -> (r: String)
    requires
        quoted@ == json::quoted(addr@),
    ensures
        r@ == address_change(path@, addr@),
{
    text::cat5("{\"op\":\"add\",\"path\":\"", path, "\",\"value\":", quoted, "}")
}

/// Render_dropin returns a config json-patch as a string.
///
/// If used for a resource that doesn't need a dropin, [`None`] is reported.
pub fn render_dropin<O: Resource>(srv: &Service) -> (r: Option<String>)
    requires
        srv@.metadata.name is Some,
        srv@.metadata.namespace is Some,
    ensures
        r.deep_view() == dropin_for(O::kind_name(), service_address(srv@)),
{
    let name = srv.metadata.name.as_ref().unwrap();
    let ns = srv.metadata.namespace.as_ref().unwrap();
    let addr = text::cat4(name.as_str(), ".", ns.as_str(), ".svc.cluster.local");
    let quoted = match json::quote(addr.as_str()) {
        Ok(quoted) => quoted,
        Err(_) => return None,
    };
    let (first, second) = if text::same(O::kind(), "Indexer") {
        ("/matcher/indexer_addr", "/notifier/indexer_addr")
    } else if text::same(O::kind(), "Matcher") {
        ("/indexer/matcher_addr", "/notifier/matcher_addr")
    } else {
        return None;
    };
    let a = change(first, addr.as_str(), quoted.as_str());
    let b = change(second, addr.as_str(), quoted.as_str());
    proof {
        reveal_strlit("Indexer");
        reveal_strlit("Matcher");
        assert("Indexer"@[0] != "Matcher"@[0]);
    }
    Some(text::cat5("[", a.as_str(), ",", b.as_str(), "]"))
}

impl Worker for Indexer {
    open spec fn component_of() -> Component {
        Component::Indexer
    }

    open spec fn image_of(v: IndexerView) -> Option<Seq<char>> {
        v.spec.image
    }

    open spec fn config_of(v: IndexerView) -> Option<ConfigSourceView> {
        v.spec.config
    }

    open spec fn gateway_of(v: IndexerView) -> Option<RouteParentRefView> {
        v.spec.gateway
    }

    fn component() -> (r: Component) {
        Component::Indexer
    }

    fn image(&self) -> (r: &Option<String>) {
        &self.spec.image
    }

    fn config(&self) -> (r: &Option<ConfigSource>) {
        &self.spec.config
    }

    fn gateway(&self) -> (r: &Option<RouteParentRef>) {
        &self.spec.gateway
    }
}

impl Worker for Matcher {
    open spec fn component_of() -> Component {
        Component::Matcher
    }

    open spec fn image_of(v: MatcherView) -> Option<Seq<char>> {
        v.spec.image
    }

    open spec fn config_of(v: MatcherView) -> Option<ConfigSourceView> {
        v.spec.config
    }

    open spec fn gateway_of(v: MatcherView) -> Option<RouteParentRefView> {
        v.spec.gateway
    }

    fn component() -> (r: Component) {
        Component::Matcher
    }

    fn image(&self) -> (r: &Option<String>) {
        &self.spec.image
    }

    fn config(&self) -> (r: &Option<ConfigSource>) {
        &self.spec.config
    }

    fn gateway(&self) -> (r: &Option<RouteParentRef>) {
        &self.spec.gateway
    }
}

impl Worker for Notifier {
    open spec fn component_of() -> Component {
        Component::Notifier
    }

    open spec fn image_of(v: NotifierView) -> Option<Seq<char>> {
        v.spec.image
    }

    open spec fn config_of(v: NotifierView) -> Option<ConfigSourceView> {
        v.spec.config
    }

    open spec fn gateway_of(v: NotifierView) -> Option<RouteParentRefView> {
        v.spec.gateway
    }

    fn component() -> (r: Component) {
        Component::Notifier
    }

    fn image(&self) -> (r: &Option<String>) {
        &self.spec.image
    }

    fn config(&self) -> (r: &Option<ConfigSource>) {
        &self.spec.config
    }

    fn gateway(&self) -> (r: &Option<RouteParentRef>) {
        &self.spec.gateway
    }
}

} // verus!
