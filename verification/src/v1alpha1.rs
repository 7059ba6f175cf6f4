//! The v1alpha1 version of the Clair API.

use vstd::prelude::*;

use crate::k8s::meta::{Condition, ConditionView, ObjectMeta, ObjectMetaView};
use crate::k8s::pod::{TypedLocalObjectReference, TypedLocalObjectReferenceView};
use crate::lists::contains_concat;
use crate::merge::{self, DeepMerge};
use crate::model::{none, push, Model};
use crate::resource::Resource;
use crate::sort::{self, Ordered};
use crate::text;

verus! {

/// GROUP is the kubernetes API group.
pub const GROUP: &'static str = "clairproject.org";

/// VERSION is the kubernetes API group's version.
pub const VERSION: &'static str = "v1alpha1";

/// ClairSpec describes the desired state of a Clair instance.
#[derive(Debug, PartialEq)]
pub struct ClairSpec {
    /// Databases indicates the Secret keys holding config drop-ins that services should connect to.
    pub databases: Option<Databases>,
    /// Container image to use.
    pub image: Option<String>,
    /// Gateway indicates how the Gateway should be created.
    ///
    /// If unspecified, services will need to have their routing set up manually.
    pub gateway: Option<RouteParentRef>,
    /// Notifier enables the notifier subsystem.
    ///
    /// The operator does not start the notifier by default. If it's configured via a drop-in, this
    /// field should be set to start it.
    pub notifier: Option<bool>,
    /// Dropins references additional config drop-in files.
    pub dropins: Vec<DropinSource>,
}

/// The value of a [`ClairSpec`].
pub ghost struct ClairSpecView {
    pub databases: Option<DatabasesView>,
    pub image: Option<Seq<char>>,
    pub gateway: Option<RouteParentRefView>,
    pub notifier: Option<bool>,
    pub dropins: Seq<DropinSourceView>,
}

impl DeepView for ClairSpec {
    type V = ClairSpecView;

    open spec fn deep_view(&self) -> ClairSpecView {
        ClairSpecView {
            databases: self.databases.deep_view(),
            image: self.image.deep_view(),
            gateway: self.gateway.deep_view(),
            notifier: self.notifier.deep_view(),
            dropins: self.dropins.deep_view(),
        }
    }
}

impl View for ClairSpec {
    type V = ClairSpecView;

    open spec fn view(&self) -> ClairSpecView {
        self.deep_view()
    }
}

impl Model for ClairSpec {
    fn dup(&self) -> (r: Self) {
        ClairSpec {
            databases: self.databases.dup(),
            image: self.image.dup(),
            gateway: self.gateway.dup(),
            notifier: self.notifier.dup(),
            dropins: self.dropins.dup(),
        }
    }

    fn same(&self, other: &Self) -> (r: bool) {
        self.databases.same(&other.databases)
            && self.image.same(&other.image)
            && self.gateway.same(&other.gateway)
            && self.notifier.same(&other.notifier)
            && self.dropins.same(&other.dropins)
    }
}

impl ClairSpecView {
    /// The value with nothing set.
    pub open spec fn blank() -> ClairSpecView {
        ClairSpecView {
            databases: None,
            image: None,
            gateway: None,
            notifier: None,
            dropins: Seq::empty(),
        }
    }
}

impl Default for ClairSpec {
    fn default() -> (r: Self)
        ensures
            r@ == ClairSpecView::blank(),
    {
        ClairSpec {
            databases: None,
            image: None,
            gateway: None,
            notifier: None,
            dropins: none(),
        }
    }
}

/// Databases specifies the config drop-ins for the various databases needed.
///
/// It's fine for all the fields to point to the same Secret key if it contains all the relevant
/// configuration.
#[derive(Debug, PartialEq)]
pub struct Databases {
    /// Indexer references the Secret key holding database details for the indexer database.
    pub indexer: SecretKeySelector,
    /// Matcher references the Secret key holding database details for the matcher database.
    pub matcher: SecretKeySelector,
    /// Notifier references the Secret key holding database details for the notifier database.
    ///
    /// This is only required if the ClairSpec's "notifier" field is set to "true".
    pub notifier: Option<SecretKeySelector>,
}

/// The value of a [`Databases`].
pub ghost struct DatabasesView {
    pub indexer: SecretKeySelectorView,
    pub matcher: SecretKeySelectorView,
    pub notifier: Option<SecretKeySelectorView>,
}

impl DeepView for Databases {
    type V = DatabasesView;

    open spec fn deep_view(&self) -> DatabasesView {
        DatabasesView {
            indexer: self.indexer.deep_view(),
            matcher: self.matcher.deep_view(),
            notifier: self.notifier.deep_view(),
        }
    }
}

impl View for Databases {
    type V = DatabasesView;

    open spec fn view(&self) -> DatabasesView {
        self.deep_view()
    }
}

impl Model for Databases {
    fn dup(&self) -> (r: Self) {
        Databases {
            indexer: self.indexer.dup(),
            matcher: self.matcher.dup(),
            notifier: self.notifier.dup(),
        }
    }

    fn same(&self, other: &Self) -> (r: bool) {
        self.indexer.same(&other.indexer)
            && self.matcher.same(&other.matcher)
            && self.notifier.same(&other.notifier)
    }
}

impl DatabasesView {
    /// The value with nothing set.
    pub open spec fn blank() -> DatabasesView {
        DatabasesView {
            indexer: SecretKeySelectorView::blank(),
            matcher: SecretKeySelectorView::blank(),
            notifier: None,
        }
    }
}

impl Default for Databases {
    fn default() -> (r: Self)
        ensures
            r@ == DatabasesView::blank(),
    {
        Databases {
            indexer: SecretKeySelector::default(),
            matcher: SecretKeySelector::default(),
            notifier: None,
        }
    }
}

/// RouteParentRef serves the same purpose as a Gateway API ParentReference.
#[derive(Debug, PartialEq)]
pub struct RouteParentRef {
    /// Group is the group of the referent.
    pub group: Option<String>,
    /// Kind is kind of the referent.
    pub kind: Option<String>,
    /// Namespace is the namespace of the referent.
    pub namespace: Option<String>,
    /// Name is the name of the referent.
    pub name: Option<String>,
    /// SectionName is the name of a section within the target resource.
    pub section_name: Option<String>,
}

/// The value of a [`RouteParentRef`].
pub ghost struct RouteParentRefView {
    pub group: Option<Seq<char>>,
    pub kind: Option<Seq<char>>,
    pub namespace: Option<Seq<char>>,
    pub name: Option<Seq<char>>,
    pub section_name: Option<Seq<char>>,
}

impl DeepView for RouteParentRef {
    type V = RouteParentRefView;

    open spec fn deep_view(&self) -> RouteParentRefView {
        RouteParentRefView {
            group: self.group.deep_view(),
            kind: self.kind.deep_view(),
            namespace: self.namespace.deep_view(),
            name: self.name.deep_view(),
            section_name: self.section_name.deep_view(),
        }
    }
}

impl View for RouteParentRef {
    type V = RouteParentRefView;

    open spec fn view(&self) -> RouteParentRefView {
        self.deep_view()
    }
}

impl Model for RouteParentRef {
    fn dup(&self) -> (r: Self) {
        RouteParentRef {
            group: self.group.dup(),
            kind: self.kind.dup(),
            namespace: self.namespace.dup(),
            name: self.name.dup(),
            section_name: self.section_name.dup(),
        }
    }

    fn same(&self, other: &Self) -> (r: bool) {
        self.group.same(&other.group)
            && self.kind.same(&other.kind)
            && self.namespace.same(&other.namespace)
            && self.name.same(&other.name)
            && self.section_name.same(&other.section_name)
    }
}

impl RouteParentRefView {
    /// The value with nothing set.
    pub open spec fn blank() -> RouteParentRefView {
        RouteParentRefView {
            group: None,
            kind: None,
            namespace: None,
            name: None,
            section_name: None,
        }
    }
}

impl Default for RouteParentRef {
    fn default() -> (r: Self)
        ensures
            r@ == RouteParentRefView::blank(),
    {
        RouteParentRef {
            group: None,
            kind: None,
            namespace: None,
            name: None,
            section_name: None,
        }
    }
}

/// ClairStatus describes the observed state of a Clair instance.
#[derive(Debug, PartialEq)]
pub struct ClairStatus {
    /// Conditions reports k8s-style conditions for various parts of the system.
    pub conditions: Option<Vec<Condition>>,
    /// Refs holds on to references to objects needed by this instance.
    pub refs: Option<Vec<TypedLocalObjectReference>>,
    /// Indexer is the created Indexer component.
    pub indexer: Option<TypedLocalObjectReference>,
    /// Matcher is the created Matcher component.
    pub matcher: Option<TypedLocalObjectReference>,
    /// Notifier is the created Notifier component.
    pub notifier: Option<TypedLocalObjectReference>,
    /// Config is configuration sources for the Clair instance.
    pub config: Option<ConfigSource>,
    /// Image is the image that should be used in the managed deployment.
    pub image: Option<String>,
}

/// The value of a [`ClairStatus`].
pub ghost struct ClairStatusView {
    pub conditions: Option<Seq<ConditionView>>,
    pub refs: Option<Seq<TypedLocalObjectReferenceView>>,
    pub indexer: Option<TypedLocalObjectReferenceView>,
    pub matcher: Option<TypedLocalObjectReferenceView>,
    pub notifier: Option<TypedLocalObjectReferenceView>,
    pub config: Option<ConfigSourceView>,
    pub image: Option<Seq<char>>,
}

impl DeepView for ClairStatus {
    type V = ClairStatusView;

    open spec fn deep_view(&self) -> ClairStatusView {
        ClairStatusView {
            conditions: self.conditions.deep_view(),
            refs: self.refs.deep_view(),
            indexer: self.indexer.deep_view(),
            matcher: self.matcher.deep_view(),
            notifier: self.notifier.deep_view(),
            config: self.config.deep_view(),
            image: self.image.deep_view(),
        }
    }
}

impl View for ClairStatus {
    type V = ClairStatusView;

    open spec fn view(&self) -> ClairStatusView {
        self.deep_view()
    }
}

impl Model for ClairStatus {
    fn dup(&self) -> (r: Self) {
        ClairStatus {
            conditions: self.conditions.dup(),
            refs: self.refs.dup(),
            indexer: self.indexer.dup(),
            matcher: self.matcher.dup(),
            notifier: self.notifier.dup(),
            config: self.config.dup(),
            image: self.image.dup(),
        }
    }

    fn same(&self, other: &Self) -> (r: bool) {
        self.conditions.same(&other.conditions)
            && self.refs.same(&other.refs)
            && self.indexer.same(&other.indexer)
            && self.matcher.same(&other.matcher)
            && self.notifier.same(&other.notifier)
            && self.config.same(&other.config)
            && self.image.same(&other.image)
    }
}

impl ClairStatusView {
    /// The value with nothing set.
    pub open spec fn blank() -> ClairStatusView {
        ClairStatusView {
            conditions: None,
            refs: None,
            indexer: None,
            matcher: None,
            notifier: None,
            config: None,
            image: None,
        }
    }
}

impl Default for ClairStatus {
    fn default() -> (r: Self)
        ensures
            r@ == ClairStatusView::blank(),
    {
        ClairStatus {
            conditions: None,
            refs: None,
            indexer: None,
            matcher: None,
            notifier: None,
            config: None,
            image: None,
        }
    }
}

/// ConfigSource specifies all the config files that will be arranged for Clair to load.
#[derive(Debug, PartialEq)]
pub struct ConfigSource {
    /// Root is a reference to the main config.
    pub root: ConfigMapKeySelector,
    /// Dropins is a list of references to drop-in configs.
    pub dropins: Vec<DropinSource>,
}

/// The value of a [`ConfigSource`].
pub ghost struct ConfigSourceView {
    pub root: ConfigMapKeySelectorView,
    pub dropins: Seq<DropinSourceView>,
}

impl DeepView for ConfigSource {
    type V = ConfigSourceView;

    open spec fn deep_view(&self) -> ConfigSourceView {
        ConfigSourceView {
            root: self.root.deep_view(),
            dropins: self.dropins.deep_view(),
        }
    }
}

impl View for ConfigSource {
    type V = ConfigSourceView;

    open spec fn view(&self) -> ConfigSourceView {
        self.deep_view()
    }
}

impl Model for ConfigSource {
    fn dup(&self) -> (r: Self) {
        ConfigSource {
            root: self.root.dup(),
            dropins: self.dropins.dup(),
        }
    }

    fn same(&self, other: &Self) -> (r: bool) {
        self.root.same(&other.root)
            && self.dropins.same(&other.dropins)
    }
}

impl ConfigSourceView {
    /// The value with nothing set.
    pub open spec fn blank() -> ConfigSourceView {
        ConfigSourceView {
            root: ConfigMapKeySelectorView::blank(),
            dropins: Seq::empty(),
        }
    }
}

impl Default for ConfigSource {
    fn default() -> (r: Self)
        ensures
            r@ == ConfigSourceView::blank(),
    {
        ConfigSource {
            root: ConfigMapKeySelector::default(),
            dropins: none(),
        }
    }
}

/// DropinSource represents a source for the value of a Clair configuration dropin.
#[derive(Debug, PartialEq)]
pub struct DropinSource {
    /// Selects a key of a ConfigMap.
    pub config_map_key_ref: Option<ConfigMapKeySelector>,
    /// Selects a key of a Secret.
    pub secret_key_ref: Option<SecretKeySelector>,
}

/// The value of a [`DropinSource`].
pub ghost struct DropinSourceView {
    pub config_map_key_ref: Option<ConfigMapKeySelectorView>,
    pub secret_key_ref: Option<SecretKeySelectorView>,
}

impl DeepView for DropinSource {
    type V = DropinSourceView;

    open spec fn deep_view(&self) -> DropinSourceView {
        DropinSourceView {
            config_map_key_ref: self.config_map_key_ref.deep_view(),
            secret_key_ref: self.secret_key_ref.deep_view(),
        }
    }
}

impl View for DropinSource {
    type V = DropinSourceView;

    open spec fn view(&self) -> DropinSourceView {
        self.deep_view()
    }
}

impl Model for DropinSource {
    fn dup(&self) -> (r: Self) {
        DropinSource {
            config_map_key_ref: self.config_map_key_ref.dup(),
            secret_key_ref: self.secret_key_ref.dup(),
        }
    }

    fn same(&self, other: &Self) -> (r: bool) {
        self.config_map_key_ref.same(&other.config_map_key_ref)
            && self.secret_key_ref.same(&other.secret_key_ref)
    }
}

impl DropinSourceView {
    /// The value with nothing set.
    pub open spec fn blank() -> DropinSourceView {
        DropinSourceView {
            config_map_key_ref: None,
            secret_key_ref: None,
        }
    }
}

impl Default for DropinSource {
    fn default() -> (r: Self)
        ensures
            r@ == DropinSourceView::blank(),
    {
        DropinSource {
            config_map_key_ref: None,
            secret_key_ref: None,
        }
    }
}

/// SecretKeySelector selects a key from a Secret.
#[derive(Debug, PartialEq)]
pub struct SecretKeySelector {
    /// The key to select.
    pub key: String,
    /// The name of the referent.
    pub name: String,
}

/// The value of a [`SecretKeySelector`].
pub ghost struct SecretKeySelectorView {
    pub key: Seq<char>,
    pub name: Seq<char>,
}

impl DeepView for SecretKeySelector {
    type V = SecretKeySelectorView;

    open spec fn deep_view(&self) -> SecretKeySelectorView {
        SecretKeySelectorView {
            key: self.key.deep_view(),
            name: self.name.deep_view(),
        }
    }
}

impl View for SecretKeySelector {
    type V = SecretKeySelectorView;

    open spec fn view(&self) -> SecretKeySelectorView {
        self.deep_view()
    }
}

impl Model for SecretKeySelector {
    fn dup(&self) -> (r: Self) {
        SecretKeySelector {
            key: self.key.dup(),
            name: self.name.dup(),
        }
    }

    fn same(&self, other: &Self) -> (r: bool) {
        self.key.same(&other.key)
            && self.name.same(&other.name)
    }
}

impl SecretKeySelectorView {
    /// The value with nothing set.
    pub open spec fn blank() -> SecretKeySelectorView {
        SecretKeySelectorView {
            key: Seq::empty(),
            name: Seq::empty(),
        }
    }
}

impl Default for SecretKeySelector {
    fn default() -> (r: Self)
        ensures
            r@ == SecretKeySelectorView::blank(),
    {
        SecretKeySelector {
            key: String::new(),
            name: String::new(),
        }
    }
}

/// ConfigMapKeySelector selects a key from a ConfigMap.
#[derive(Debug, PartialEq)]
pub struct ConfigMapKeySelector {
    /// The key to select.
    pub key: String,
    /// The name of the referent.
    pub name: String,
}

/// The value of a [`ConfigMapKeySelector`].
pub ghost struct ConfigMapKeySelectorView {
    pub key: Seq<char>,
    pub name: Seq<char>,
}

impl DeepView for ConfigMapKeySelector {
    type V = ConfigMapKeySelectorView;

    open spec fn deep_view(&self) -> ConfigMapKeySelectorView {
        ConfigMapKeySelectorView {
            key: self.key.deep_view(),
            name: self.name.deep_view(),
        }
    }
}

impl View for ConfigMapKeySelector {
    type V = ConfigMapKeySelectorView;

    open spec fn view(&self) -> ConfigMapKeySelectorView {
        self.deep_view()
    }
}

impl Model for ConfigMapKeySelector {
    fn dup(&self) -> (r: Self) {
        ConfigMapKeySelector {
            key: self.key.dup(),
            name: self.name.dup(),
        }
    }

    fn same(&self, other: &Self) -> (r: bool) {
        self.key.same(&other.key)
            && self.name.same(&other.name)
    }
}

impl ConfigMapKeySelectorView {
    /// The value with nothing set.
    pub open spec fn blank() -> ConfigMapKeySelectorView {
        ConfigMapKeySelectorView {
            key: Seq::empty(),
            name: Seq::empty(),
        }
    }
}

impl Default for ConfigMapKeySelector {
    fn default() -> (r: Self)
        ensures
            r@ == ConfigMapKeySelectorView::blank(),
    {
        ConfigMapKeySelector {
            key: String::new(),
            name: String::new(),
        }
    }
}

/// RefConfigOrSecret references either a ConfigMap key or a Secret key.
#[derive(Debug, PartialEq)]
pub struct RefConfigOrSecret {
    /// Secret indicates the Secret and key.
    pub secret: Option<SecretKeySelector>,
    /// Config_map indicates the ConfigMap and key.
    pub config_map: Option<ConfigMapKeySelector>,
}

/// The value of a [`RefConfigOrSecret`].
pub ghost struct RefConfigOrSecretView {
    pub secret: Option<SecretKeySelectorView>,
    pub config_map: Option<ConfigMapKeySelectorView>,
}

impl DeepView for RefConfigOrSecret {
    type V = RefConfigOrSecretView;

    open spec fn deep_view(&self) -> RefConfigOrSecretView {
        RefConfigOrSecretView {
            secret: self.secret.deep_view(),
            config_map: self.config_map.deep_view(),
        }
    }
}

impl View for RefConfigOrSecret {
    type V = RefConfigOrSecretView;

    open spec fn view(&self) -> RefConfigOrSecretView {
        self.deep_view()
    }
}

impl Model for RefConfigOrSecret {
    fn dup(&self) -> (r: Self) {
        RefConfigOrSecret {
            secret: self.secret.dup(),
            config_map: self.config_map.dup(),
        }
    }

    fn same(&self, other: &Self) -> (r: bool) {
        self.secret.same(&other.secret)
            && self.config_map.same(&other.config_map)
    }
}

impl RefConfigOrSecretView {
    /// The value with nothing set.
    pub open spec fn blank() -> RefConfigOrSecretView {
        RefConfigOrSecretView {
            secret: None,
            config_map: None,
        }
    }
}

impl Default for RefConfigOrSecret {
    fn default() -> (r: Self)
        ensures
            r@ == RefConfigOrSecretView::blank(),
    {
        RefConfigOrSecret {
            secret: None,
            config_map: None,
        }
    }
}

/// IndexerSpec describes the desired state of an Indexer instance.
#[derive(Debug, PartialEq)]
pub struct IndexerSpec {
    /// Image is the image that should be used in the managed deployment.
    pub image: Option<String>,
    /// Config is configuration sources for the Clair instance.
    pub config: Option<ConfigSource>,
    /// Gateway is the object to attach Gateway API routes to.
    pub gateway: Option<RouteParentRef>,
}

/// The value of an [`IndexerSpec`].
pub ghost struct IndexerSpecView {
    pub image: Option<Seq<char>>,
    pub config: Option<ConfigSourceView>,
    pub gateway: Option<RouteParentRefView>,
}

impl DeepView for IndexerSpec {
    type V = IndexerSpecView;

    open spec fn deep_view(&self) -> IndexerSpecView {
        IndexerSpecView {
            image: self.image.deep_view(),
            config: self.config.deep_view(),
            gateway: self.gateway.deep_view(),
        }
    }
}

impl View for IndexerSpec {
    type V = IndexerSpecView;

    open spec fn view(&self) -> IndexerSpecView {
        self.deep_view()
    }
}

impl Model for IndexerSpec {
    fn dup(&self) -> (r: Self) {
        IndexerSpec {
            image: self.image.dup(),
            config: self.config.dup(),
            gateway: self.gateway.dup(),
        }
    }

    fn same(&self, other: &Self) -> (r: bool) {
        self.image.same(&other.image)
            && self.config.same(&other.config)
            && self.gateway.same(&other.gateway)
    }
}

impl IndexerSpecView {
    /// The value with nothing set.
    pub open spec fn blank() -> IndexerSpecView {
        IndexerSpecView {
            image: None,
            config: None,
            gateway: None,
        }
    }
}

impl Default for IndexerSpec {
    fn default() -> (r: Self)
        ensures
            r@ == IndexerSpecView::blank(),
    {
        IndexerSpec {
            image: None,
            config: None,
            gateway: None,
        }
    }
}

/// MatcherSpec describes the desired state of an Matcher instance.
#[derive(Debug, PartialEq)]
pub struct MatcherSpec {
    /// Image is the image that should be used in the managed deployment.
    pub image: Option<String>,
    /// Config is configuration sources for the Clair instance.
    pub config: Option<ConfigSource>,
    /// Gateway is the object to attach Gateway API routes to.
    pub gateway: Option<RouteParentRef>,
}

/// The value of a [`MatcherSpec`].
pub ghost struct MatcherSpecView {
    pub image: Option<Seq<char>>,
    pub config: Option<ConfigSourceView>,
    pub gateway: Option<RouteParentRefView>,
}

impl DeepView for MatcherSpec {
    type V = MatcherSpecView;

    open spec fn deep_view(&self) -> MatcherSpecView {
        MatcherSpecView {
            image: self.image.deep_view(),
            config: self.config.deep_view(),
            gateway: self.gateway.deep_view(),
        }
    }
}

impl View for MatcherSpec {
    type V = MatcherSpecView;

    open spec fn view(&self) -> MatcherSpecView {
        self.deep_view()
    }
}

impl Model for MatcherSpec {
    fn dup(&self) -> (r: Self) {
        MatcherSpec {
            image: self.image.dup(),
            config: self.config.dup(),
            gateway: self.gateway.dup(),
        }
    }

    fn same(&self, other: &Self) -> (r: bool) {
        self.image.same(&other.image)
            && self.config.same(&other.config)
            && self.gateway.same(&other.gateway)
    }
}

impl MatcherSpecView {
    /// The value with nothing set.
    pub open spec fn blank() -> MatcherSpecView {
        MatcherSpecView {
            image: None,
            config: None,
            gateway: None,
        }
    }
}

impl Default for MatcherSpec {
    fn default() -> (r: Self)
        ensures
            r@ == MatcherSpecView::blank(),
    {
        MatcherSpec {
            image: None,
            config: None,
            gateway: None,
        }
    }
}

/// NotifierSpec describes the desired state of an Notifier instance.
#[derive(Debug, PartialEq)]
pub struct NotifierSpec {
    /// Image is the image that should be used in the managed deployment.
    pub image: Option<String>,
    /// Config is configuration sources for the Clair instance.
    pub config: Option<ConfigSource>,
    /// Gateway is the object to attach Gateway API routes to.
    pub gateway: Option<RouteParentRef>,
}

/// The value of a [`NotifierSpec`].
pub ghost struct NotifierSpecView {
    pub image: Option<Seq<char>>,
    pub config: Option<ConfigSourceView>,
    pub gateway: Option<RouteParentRefView>,
}

impl DeepView for NotifierSpec {
    type V = NotifierSpecView;

    open spec fn deep_view(&self) -> NotifierSpecView {
        NotifierSpecView {
            image: self.image.deep_view(),
            config: self.config.deep_view(),
            gateway: self.gateway.deep_view(),
        }
    }
}

impl View for NotifierSpec {
    type V = NotifierSpecView;

    open spec fn view(&self) -> NotifierSpecView {
        self.deep_view()
    }
}

impl Model for NotifierSpec {
    fn dup(&self) -> (r: Self) {
        NotifierSpec {
            image: self.image.dup(),
            config: self.config.dup(),
            gateway: self.gateway.dup(),
        }
    }

    fn same(&self, other: &Self) -> (r: bool) {
        self.image.same(&other.image)
            && self.config.same(&other.config)
            && self.gateway.same(&other.gateway)
    }
}

impl NotifierSpecView {
    /// The value with nothing set.
    pub open spec fn blank() -> NotifierSpecView {
        NotifierSpecView {
            image: None,
            config: None,
            gateway: None,
        }
    }
}

impl Default for NotifierSpec {
    fn default() -> (r: Self)
        ensures
            r@ == NotifierSpecView::blank(),
    {
        NotifierSpec {
            image: None,
            config: None,
            gateway: None,
        }
    }
}

/// UpdaterSpec describes the desired state of an Updater instance.
#[derive(Debug, PartialEq)]
pub struct UpdaterSpec {
    /// Update schedule in Cron format, see <https://en.wikipedia.org/wiki/Cron>.
    ///
    /// If not provided, a sensible default will be used.
    pub schedule: Option<String>,
    /// Suspend subsequent runs.
    pub suspend: Option<bool>,
    /// Image is the image that should be used in the managed deployment.
    pub image: Option<String>,
    /// Config is configuration sources for the Clair instance.
    pub config: Option<ConfigSource>,
}

/// The value of a [`UpdaterSpec`].
pub ghost struct UpdaterSpecView {
    pub schedule: Option<Seq<char>>,
    pub suspend: Option<bool>,
    pub image: Option<Seq<char>>,
    pub config: Option<ConfigSourceView>,
}

impl DeepView for UpdaterSpec {
    type V = UpdaterSpecView;

    open spec fn deep_view(&self) -> UpdaterSpecView {
        UpdaterSpecView {
            schedule: self.schedule.deep_view(),
            suspend: self.suspend.deep_view(),
            image: self.image.deep_view(),
            config: self.config.deep_view(),
        }
    }
}

impl View for UpdaterSpec {
    type V = UpdaterSpecView;

    open spec fn view(&self) -> UpdaterSpecView {
        self.deep_view()
    }
}

impl Model for UpdaterSpec {
    fn dup(&self) -> (r: Self) {
        UpdaterSpec {
            schedule: self.schedule.dup(),
            suspend: self.suspend.dup(),
            image: self.image.dup(),
            config: self.config.dup(),
        }
    }

    fn same(&self, other: &Self) -> (r: bool) {
        self.schedule.same(&other.schedule)
            && self.suspend.same(&other.suspend)
            && self.image.same(&other.image)
            && self.config.same(&other.config)
    }
}

impl UpdaterSpecView {
    /// The value with nothing set.
    pub open spec fn blank() -> UpdaterSpecView {
        UpdaterSpecView {
            schedule: None,
            suspend: None,
            image: None,
            config: None,
        }
    }
}

impl Default for UpdaterSpec {
    fn default() -> (r: Self)
        ensures
            r@ == UpdaterSpecView::blank(),
    {
        UpdaterSpec {
            schedule: None,
            suspend: None,
            image: None,
            config: None,
        }
    }
}

/// WorkerStatus describes the observed state of a worker instance.
#[derive(Debug, PartialEq)]
pub struct WorkerStatus {
    /// Conditions reports k8s-style conditions for various parts of the system.
    pub conditions: Option<Vec<Condition>>,
    /// Refs holds on to references to objects needed by this instance.
    pub refs: Option<Vec<TypedLocalObjectReference>>,
    /// Dropin is a generated JSON dropin configuration that a Clair instance may use to construct
    /// its configuration.
    pub dropin: Option<String>,
}

/// The value of a [`WorkerStatus`].
pub ghost struct WorkerStatusView {
    pub conditions: Option<Seq<ConditionView>>,
    pub refs: Option<Seq<TypedLocalObjectReferenceView>>,
    pub dropin: Option<Seq<char>>,
}

impl DeepView for WorkerStatus {
    type V = WorkerStatusView;

    open spec fn deep_view(&self) -> WorkerStatusView {
        WorkerStatusView {
            conditions: self.conditions.deep_view(),
            refs: self.refs.deep_view(),
            dropin: self.dropin.deep_view(),
        }
    }
}

impl View for WorkerStatus {
    type V = WorkerStatusView;

    open spec fn view(&self) -> WorkerStatusView {
        self.deep_view()
    }
}

impl Model for WorkerStatus {
    fn dup(&self) -> (r: Self) {
        WorkerStatus {
            conditions: self.conditions.dup(),
            refs: self.refs.dup(),
            dropin: self.dropin.dup(),
        }
    }

    fn same(&self, other: &Self) -> (r: bool) {
        self.conditions.same(&other.conditions)
            && self.refs.same(&other.refs)
            && self.dropin.same(&other.dropin)
    }
}

impl WorkerStatusView {
    /// The value with nothing set.
    pub open spec fn blank() -> WorkerStatusView {
        WorkerStatusView {
            conditions: None,
            refs: None,
            dropin: None,
        }
    }
}

impl Default for WorkerStatus {
    fn default() -> (r: Self)
        ensures
            r@ == WorkerStatusView::blank(),
    {
        WorkerStatus {
            conditions: None,
            refs: None,
            dropin: None,
        }
    }
}

/// IndexerStatus describes the observed state of a Indexer instance.
#[derive(Debug, PartialEq)]
pub struct IndexerStatus {
    /// Conditions reports k8s-style conditions for various parts of the system.
    pub conditions: Vec<Condition>,
    /// Refs holds on to references to objects needed by this instance.
    pub refs: Vec<TypedLocalObjectReference>,
    /// Config is configuration sources for the Clair instance.
    pub config: Option<ConfigSource>,
    /// Dropin is a generated dropin configuration that a Clair instance may use to construct its
    /// configuration.
    pub dropin: Option<String>,
}

/// The value of an [`IndexerStatus`].
pub ghost struct IndexerStatusView {
    pub conditions: Seq<ConditionView>,
    pub refs: Seq<TypedLocalObjectReferenceView>,
    pub config: Option<ConfigSourceView>,
    pub dropin: Option<Seq<char>>,
}

impl DeepView for IndexerStatus {
    type V = IndexerStatusView;

    open spec fn deep_view(&self) -> IndexerStatusView {
        IndexerStatusView {
            conditions: self.conditions.deep_view(),
            refs: self.refs.deep_view(),
            config: self.config.deep_view(),
            dropin: self.dropin.deep_view(),
        }
    }
}

impl View for IndexerStatus {
    type V = IndexerStatusView;

    open spec fn view(&self) -> IndexerStatusView {
        self.deep_view()
    }
}

impl Model for IndexerStatus {
    fn dup(&self) -> (r: Self) {
        IndexerStatus {
            conditions: self.conditions.dup(),
            refs: self.refs.dup(),
            config: self.config.dup(),
            dropin: self.dropin.dup(),
        }
    }

    fn same(&self, other: &Self) -> (r: bool) {
        self.conditions.same(&other.conditions)
            && self.refs.same(&other.refs)
            && self.config.same(&other.config)
            && self.dropin.same(&other.dropin)
    }
}

impl IndexerStatusView {
    /// The value with nothing set.
    pub open spec fn blank() -> IndexerStatusView {
        IndexerStatusView {
            conditions: Seq::empty(),
            refs: Seq::empty(),
            config: None,
            dropin: None,
        }
    }
}

impl Default for IndexerStatus {
    fn default() -> (r: Self)
        ensures
            r@ == IndexerStatusView::blank(),
    {
        IndexerStatus {
            conditions: none(),
            refs: none(),
            config: None,
            dropin: None,
        }
    }
}

/// MatcherStatus describes the observed state of a Matcher instance.
#[derive(Debug, PartialEq)]
pub struct MatcherStatus {
    /// Conditions reports k8s-style conditions for various parts of the system.
    pub conditions: Vec<Condition>,
    /// Refs holds on to references to objects needed by this instance.
    pub refs: Vec<TypedLocalObjectReference>,
    /// Config is configuration sources for the Clair instance.
    pub config: Option<ConfigSource>,
    /// Dropin is a generated dropin configuration that a Clair instance may use to construct its
    /// configuration.
    pub dropin: Option<String>,
}

/// The value of a [`MatcherStatus`].
pub ghost struct MatcherStatusView {
    pub conditions: Seq<ConditionView>,
    pub refs: Seq<TypedLocalObjectReferenceView>,
    pub config: Option<ConfigSourceView>,
    pub dropin: Option<Seq<char>>,
}

impl DeepView for MatcherStatus {
    type V = MatcherStatusView;

    open spec fn deep_view(&self) -> MatcherStatusView {
        MatcherStatusView {
            conditions: self.conditions.deep_view(),
            refs: self.refs.deep_view(),
            config: self.config.deep_view(),
            dropin: self.dropin.deep_view(),
        }
    }
}

impl View for MatcherStatus {
    type V = MatcherStatusView;

    open spec fn view(&self) -> MatcherStatusView {
        self.deep_view()
    }
}

impl Model for MatcherStatus {
    fn dup(&self) -> (r: Self) {
        MatcherStatus {
            conditions: self.conditions.dup(),
            refs: self.refs.dup(),
            config: self.config.dup(),
            dropin: self.dropin.dup(),
        }
    }

    fn same(&self, other: &Self) -> (r: bool) {
        self.conditions.same(&other.conditions)
            && self.refs.same(&other.refs)
            && self.config.same(&other.config)
            && self.dropin.same(&other.dropin)
    }
}

impl MatcherStatusView {
    /// The value with nothing set.
    pub open spec fn blank() -> MatcherStatusView {
        MatcherStatusView {
            conditions: Seq::empty(),
            refs: Seq::empty(),
            config: None,
            dropin: None,
        }
    }
}

impl Default for MatcherStatus {
    fn default() -> (r: Self)
        ensures
            r@ == MatcherStatusView::blank(),
    {
        MatcherStatus {
            conditions: none(),
            refs: none(),
            config: None,
            dropin: None,
        }
    }
}

/// UpdaterStatus describes the observed state of a Updater instance.
#[derive(Debug, PartialEq)]
pub struct UpdaterStatus {
    /// Conditions reports k8s-style conditions for various parts of the system.
    pub conditions: Vec<Condition>,
    /// Refs holds on to references to objects needed by this instance.
    pub refs: Vec<TypedLocalObjectReference>,
    /// CronJob the operator has configured for this Updater.
    pub cron_job: Option<TypedLocalObjectReference>,
    /// Config is configuration sources for the Clair instance.
    pub config: Option<ConfigSource>,
}

/// The value of a [`UpdaterStatus`].
pub ghost struct UpdaterStatusView {
    pub conditions: Seq<ConditionView>,
    pub refs: Seq<TypedLocalObjectReferenceView>,
    pub cron_job: Option<TypedLocalObjectReferenceView>,
    pub config: Option<ConfigSourceView>,
}

impl DeepView for UpdaterStatus {
    type V = UpdaterStatusView;

    open spec fn deep_view(&self) -> UpdaterStatusView {
        UpdaterStatusView {
            conditions: self.conditions.deep_view(),
            refs: self.refs.deep_view(),
            cron_job: self.cron_job.deep_view(),
            config: self.config.deep_view(),
        }
    }
}

impl View for UpdaterStatus {
    type V = UpdaterStatusView;

    open spec fn view(&self) -> UpdaterStatusView {
        self.deep_view()
    }
}

impl Model for UpdaterStatus {
    fn dup(&self) -> (r: Self) {
        UpdaterStatus {
            conditions: self.conditions.dup(),
            refs: self.refs.dup(),
            cron_job: self.cron_job.dup(),
            config: self.config.dup(),
        }
    }

    fn same(&self, other: &Self) -> (r: bool) {
        self.conditions.same(&other.conditions)
            && self.refs.same(&other.refs)
            && self.cron_job.same(&other.cron_job)
            && self.config.same(&other.config)
    }
}

impl UpdaterStatusView {
    /// The value with nothing set.
    pub open spec fn blank() -> UpdaterStatusView {
        UpdaterStatusView {
            conditions: Seq::empty(),
            refs: Seq::empty(),
            cron_job: None,
            config: None,
        }
    }
}

impl Default for UpdaterStatus {
    fn default() -> (r: Self)
        ensures
            r@ == UpdaterStatusView::blank(),
    {
        UpdaterStatus {
            conditions: none(),
            refs: none(),
            cron_job: None,
            config: None,
        }
    }
}

/// NotifierStatus describes the observed state of a Notifier instance.
#[derive(Debug, PartialEq)]
pub struct NotifierStatus {
    /// Conditions reports k8s-style conditions for various parts of the system.
    pub conditions: Vec<Condition>,
    /// Refs holds on to references to objects needed by this instance.
    pub refs: Vec<TypedLocalObjectReference>,
    /// Config is configuration sources for the Clair instance.
    pub config: Option<ConfigSource>,
}

/// The value of a [`NotifierStatus`].
pub ghost struct NotifierStatusView {
    pub conditions: Seq<ConditionView>,
    pub refs: Seq<TypedLocalObjectReferenceView>,
    pub config: Option<ConfigSourceView>,
}

impl DeepView for NotifierStatus {
    type V = NotifierStatusView;

    open spec fn deep_view(&self) -> NotifierStatusView {
        NotifierStatusView {
            conditions: self.conditions.deep_view(),
            refs: self.refs.deep_view(),
            config: self.config.deep_view(),
        }
    }
}

impl View for NotifierStatus {
    type V = NotifierStatusView;

    open spec fn view(&self) -> NotifierStatusView {
        self.deep_view()
    }
}

impl Model for NotifierStatus {
    fn dup(&self) -> (r: Self) {
        NotifierStatus {
            conditions: self.conditions.dup(),
            refs: self.refs.dup(),
            config: self.config.dup(),
        }
    }

    fn same(&self, other: &Self) -> (r: bool) {
        self.conditions.same(&other.conditions)
            && self.refs.same(&other.refs)
            && self.config.same(&other.config)
    }
}

impl NotifierStatusView {
    /// The value with nothing set.
    pub open spec fn blank() -> NotifierStatusView {
        NotifierStatusView {
            conditions: Seq::empty(),
            refs: Seq::empty(),
            config: None,
        }
    }
}

impl Default for NotifierStatus {
    fn default() -> (r: Self)
        ensures
            r@ == NotifierStatusView::blank(),
    {
        NotifierStatus {
            conditions: none(),
            refs: none(),
            config: None,
        }
    }
}

/// Clair is an installation of all components.
#[derive(Debug, PartialEq)]
pub struct Clair {
    /// Name and owner.
    pub metadata: ObjectMeta,
    /// The desired state.
    pub spec: ClairSpec,
    /// The observed state.
    pub status: Option<ClairStatus>,
}

/// The value of a [`Clair`].
pub ghost struct ClairView {
    pub metadata: ObjectMetaView,
    pub spec: ClairSpecView,
    pub status: Option<ClairStatusView>,
}

impl DeepView for Clair {
    type V = ClairView;

    open spec fn deep_view(&self) -> ClairView {
        ClairView {
            metadata: self.metadata.deep_view(),
            spec: self.spec.deep_view(),
            status: self.status.deep_view(),
        }
    }
}

impl View for Clair {
    type V = ClairView;

    open spec fn view(&self) -> ClairView {
        self.deep_view()
    }
}

impl Model for Clair {
    fn dup(&self) -> (r: Self) {
        Clair {
            metadata: self.metadata.dup(),
            spec: self.spec.dup(),
            status: self.status.dup(),
        }
    }

    fn same(&self, other: &Self) -> (r: bool) {
        self.metadata.same(&other.metadata)
            && self.spec.same(&other.spec)
            && self.status.same(&other.status)
    }
}

impl ClairView {
    /// The value with nothing set.
    pub open spec fn blank() -> ClairView {
        ClairView {
            metadata: ObjectMetaView::blank(),
            spec: ClairSpecView::blank(),
            status: None,
        }
    }
}

impl Default for Clair {
    fn default() -> (r: Self)
        ensures
            r@ == ClairView::blank(),
    {
        Clair {
            metadata: ObjectMeta::default(),
            spec: ClairSpec::default(),
            status: None,
        }
    }
}

/// Indexer is the component that reads images.
#[derive(Debug, PartialEq)]
pub struct Indexer {
    /// Name and owner.
    pub metadata: ObjectMeta,
    /// The desired state.
    pub spec: IndexerSpec,
    /// The observed state.
    pub status: Option<WorkerStatus>,
}

/// The value of an [`Indexer`].
pub ghost struct IndexerView {
    pub metadata: ObjectMetaView,
    pub spec: IndexerSpecView,
    pub status: Option<WorkerStatusView>,
}

impl DeepView for Indexer {
    type V = IndexerView;

    open spec fn deep_view(&self) -> IndexerView {
        IndexerView {
            metadata: self.metadata.deep_view(),
            spec: self.spec.deep_view(),
            status: self.status.deep_view(),
        }
    }
}

impl View for Indexer {
    type V = IndexerView;

    open spec fn view(&self) -> IndexerView {
        self.deep_view()
    }
}

impl Model for Indexer {
    fn dup(&self) -> (r: Self) {
        Indexer {
            metadata: self.metadata.dup(),
            spec: self.spec.dup(),
            status: self.status.dup(),
        }
    }

    fn same(&self, other: &Self) -> (r: bool) {
        self.metadata.same(&other.metadata)
            && self.spec.same(&other.spec)
            && self.status.same(&other.status)
    }
}

impl IndexerView {
    /// The value with nothing set.
    pub open spec fn blank() -> IndexerView {
        IndexerView {
            metadata: ObjectMetaView::blank(),
            spec: IndexerSpecView::blank(),
            status: None,
        }
    }
}

impl Default for Indexer {
    fn default() -> (r: Self)
        ensures
            r@ == IndexerView::blank(),
    {
        Indexer {
            metadata: ObjectMeta::default(),
            spec: IndexerSpec::default(),
            status: None,
        }
    }
}

/// Matcher is the component that finds vulnerabilities.
#[derive(Debug, PartialEq)]
pub struct Matcher {
    /// Name and owner.
    pub metadata: ObjectMeta,
    /// The desired state.
    pub spec: MatcherSpec,
    /// The observed state.
    pub status: Option<WorkerStatus>,
}

/// The value of a [`Matcher`].
pub ghost struct MatcherView {
    pub metadata: ObjectMetaView,
    pub spec: MatcherSpecView,
    pub status: Option<WorkerStatusView>,
}

impl DeepView for Matcher {
    type V = MatcherView;

    open spec fn deep_view(&self) -> MatcherView {
        MatcherView {
            metadata: self.metadata.deep_view(),
            spec: self.spec.deep_view(),
            status: self.status.deep_view(),
        }
    }
}

impl View for Matcher {
    type V = MatcherView;

    open spec fn view(&self) -> MatcherView {
        self.deep_view()
    }
}

impl Model for Matcher {
    fn dup(&self) -> (r: Self) {
        Matcher {
            metadata: self.metadata.dup(),
            spec: self.spec.dup(),
            status: self.status.dup(),
        }
    }

    fn same(&self, other: &Self) -> (r: bool) {
        self.metadata.same(&other.metadata)
            && self.spec.same(&other.spec)
            && self.status.same(&other.status)
    }
}

impl MatcherView {
    /// The value with nothing set.
    pub open spec fn blank() -> MatcherView {
        MatcherView {
            metadata: ObjectMetaView::blank(),
            spec: MatcherSpecView::blank(),
            status: None,
        }
    }
}

impl Default for Matcher {
    fn default() -> (r: Self)
        ensures
            r@ == MatcherView::blank(),
    {
        Matcher {
            metadata: ObjectMeta::default(),
            spec: MatcherSpec::default(),
            status: None,
        }
    }
}

/// Notifier is the component that reports changes.
#[derive(Debug, PartialEq)]
pub struct Notifier {
    /// Name and owner.
    pub metadata: ObjectMeta,
    /// The desired state.
    pub spec: NotifierSpec,
    /// The observed state.
    pub status: Option<WorkerStatus>,
}

/// The value of a [`Notifier`].
pub ghost struct NotifierView {
    pub metadata: ObjectMetaView,
    pub spec: NotifierSpecView,
    pub status: Option<WorkerStatusView>,
}

impl DeepView for Notifier {
    type V = NotifierView;

    open spec fn deep_view(&self) -> NotifierView {
        NotifierView {
            metadata: self.metadata.deep_view(),
            spec: self.spec.deep_view(),
            status: self.status.deep_view(),
        }
    }
}

impl View for Notifier {
    type V = NotifierView;

    open spec fn view(&self) -> NotifierView {
        self.deep_view()
    }
}

impl Model for Notifier {
    fn dup(&self) -> (r: Self) {
        Notifier {
            metadata: self.metadata.dup(),
            spec: self.spec.dup(),
            status: self.status.dup(),
        }
    }

    fn same(&self, other: &Self) -> (r: bool) {
        self.metadata.same(&other.metadata)
            && self.spec.same(&other.spec)
            && self.status.same(&other.status)
    }
}

impl NotifierView {
    /// The value with nothing set.
    pub open spec fn blank() -> NotifierView {
        NotifierView {
            metadata: ObjectMetaView::blank(),
            spec: NotifierSpecView::blank(),
            status: None,
        }
    }
}

impl Default for Notifier {
    fn default() -> (r: Self)
        ensures
            r@ == NotifierView::blank(),
    {
        Notifier {
            metadata: ObjectMeta::default(),
            spec: NotifierSpec::default(),
            status: None,
        }
    }
}

/// Updater is the component that fetches vulnerability data.
#[derive(Debug, PartialEq)]
pub struct Updater {
    /// Name and owner.
    pub metadata: ObjectMeta,
    /// The desired state.
    pub spec: UpdaterSpec,
    /// The observed state.
    pub status: Option<UpdaterStatus>,
}

/// The value of a [`Updater`].
pub ghost struct UpdaterView {
    pub metadata: ObjectMetaView,
    pub spec: UpdaterSpecView,
    pub status: Option<UpdaterStatusView>,
}

impl DeepView for Updater {
    type V = UpdaterView;

    open spec fn deep_view(&self) -> UpdaterView {
        UpdaterView {
            metadata: self.metadata.deep_view(),
            spec: self.spec.deep_view(),
            status: self.status.deep_view(),
        }
    }
}

impl View for Updater {
    type V = UpdaterView;

    open spec fn view(&self) -> UpdaterView {
        self.deep_view()
    }
}

impl Model for Updater {
    fn dup(&self) -> (r: Self) {
        Updater {
            metadata: self.metadata.dup(),
            spec: self.spec.dup(),
            status: self.status.dup(),
        }
    }

    fn same(&self, other: &Self) -> (r: bool) {
        self.metadata.same(&other.metadata)
            && self.spec.same(&other.spec)
            && self.status.same(&other.status)
    }
}

impl UpdaterView {
    /// The value with nothing set.
    pub open spec fn blank() -> UpdaterView {
        UpdaterView {
            metadata: ObjectMetaView::blank(),
            spec: UpdaterSpecView::blank(),
            status: None,
        }
    }
}

impl Default for Updater {
    fn default() -> (r: Self)
        ensures
            r@ == UpdaterView::blank(),
    {
        Updater {
            metadata: ObjectMeta::default(),
            spec: UpdaterSpec::default(),
            status: None,
        }
    }
}

impl Resource for Clair {
    open spec fn group_name() -> Seq<char> {
        "clairproject.org"@
    }

    open spec fn version_name() -> Seq<char> {
        "v1alpha1"@
    }

    open spec fn kind_name() -> Seq<char> {
        "Clair"@
    }

    open spec fn plural_name() -> Seq<char> {
        "clairs"@
    }

    open spec fn metadata(v: ClairView) -> ObjectMetaView {
        v.metadata
    }

    fn group() -> (r: &'static str) {
        GROUP
    }

    fn version() -> (r: &'static str) {
        VERSION
    }

    fn kind() -> (r: &'static str) {
        "Clair"
    }

    fn plural() -> (r: &'static str) {
        "clairs"
    }

    fn meta(&self) -> (r: &ObjectMeta) {
        &self.metadata
    }
}

impl Resource for Indexer {
    open spec fn group_name() -> Seq<char> {
        "clairproject.org"@
    }

    open spec fn version_name() -> Seq<char> {
        "v1alpha1"@
    }

    open spec fn kind_name() -> Seq<char> {
        "Indexer"@
    }

    open spec fn plural_name() -> Seq<char> {
        "indexers"@
    }

    open spec fn metadata(v: IndexerView) -> ObjectMetaView {
        v.metadata
    }

    fn group() -> (r: &'static str) {
        GROUP
    }

    fn version() -> (r: &'static str) {
        VERSION
    }

    fn kind() -> (r: &'static str) {
        "Indexer"
    }

    fn plural() -> (r: &'static str) {
        "indexers"
    }

    fn meta(&self) -> (r: &ObjectMeta) {
        &self.metadata
    }
}

impl Resource for Matcher {
    open spec fn group_name() -> Seq<char> {
        "clairproject.org"@
    }

    open spec fn version_name() -> Seq<char> {
        "v1alpha1"@
    }

    open spec fn kind_name() -> Seq<char> {
        "Matcher"@
    }

    open spec fn plural_name() -> Seq<char> {
        "matchers"@
    }

    open spec fn metadata(v: MatcherView) -> ObjectMetaView {
        v.metadata
    }

    fn group() -> (r: &'static str) {
        GROUP
    }

    fn version() -> (r: &'static str) {
        VERSION
    }

    fn kind() -> (r: &'static str) {
        "Matcher"
    }

    fn plural() -> (r: &'static str) {
        "matchers"
    }

    fn meta(&self) -> (r: &ObjectMeta) {
        &self.metadata
    }
}

impl Resource for Notifier {
    open spec fn group_name() -> Seq<char> {
        "clairproject.org"@
    }

    open spec fn version_name() -> Seq<char> {
        "v1alpha1"@
    }

    open spec fn kind_name() -> Seq<char> {
        "Notifier"@
    }

    open spec fn plural_name() -> Seq<char> {
        "notifiers"@
    }

    open spec fn metadata(v: NotifierView) -> ObjectMetaView {
        v.metadata
    }

    fn group() -> (r: &'static str) {
        GROUP
    }

    fn version() -> (r: &'static str) {
        VERSION
    }

    fn kind() -> (r: &'static str) {
        "Notifier"
    }

    fn plural() -> (r: &'static str) {
        "notifiers"
    }

    fn meta(&self) -> (r: &ObjectMeta) {
        &self.metadata
    }
}

impl Resource for Updater {
    open spec fn group_name() -> Seq<char> {
        "clairproject.org"@
    }

    open spec fn version_name() -> Seq<char> {
        "v1alpha1"@
    }

    open spec fn kind_name() -> Seq<char> {
        "Updater"@
    }

    open spec fn plural_name() -> Seq<char> {
        "updaters"@
    }

    open spec fn metadata(v: UpdaterView) -> ObjectMetaView {
        v.metadata
    }

    fn group() -> (r: &'static str) {
        GROUP
    }

    fn version() -> (r: &'static str) {
        VERSION
    }

    fn kind() -> (r: &'static str) {
        "Updater"
    }

    fn plural() -> (r: &'static str) {
        "updaters"
    }

    fn meta(&self) -> (r: &ObjectMeta) {
        &self.metadata
    }
}

impl Ordered for ConfigMapKeySelector {
    open spec fn before(a: ConfigMapKeySelectorView, b: ConfigMapKeySelectorView) -> bool {
        text::lt(a.key, b.key) || a.key == b.key && text::lt(a.name, b.name)
    }

    proof fn before_irreflexive(a: ConfigMapKeySelectorView) {
        text::lt_irreflexive(a.key);
        text::lt_irreflexive(a.name);
    }

    proof fn before_transitive(
        a: ConfigMapKeySelectorView,
        b: ConfigMapKeySelectorView,
        c: ConfigMapKeySelectorView,
    ) {
        if a.key == b.key && b.key == c.key {
            text::lt_irreflexive(a.key);
            text::lt_transitive(a.name, b.name, c.name);
        } else if a.key != b.key && b.key != c.key {
            text::lt_transitive(a.key, b.key, c.key);
        }
    }

    proof fn before_total(a: ConfigMapKeySelectorView, b: ConfigMapKeySelectorView) {
        text::lt_total(a.key, b.key);
        text::lt_total(a.name, b.name);
    }

    fn is_before(&self, other: &Self) -> (r: bool) {
        text::less(self.key.as_str(), other.key.as_str()) || text::same(
            self.key.as_str(),
            other.key.as_str(),
        ) && text::less(self.name.as_str(), other.name.as_str())
    }
}

impl Ordered for SecretKeySelector {
    open spec fn before(a: SecretKeySelectorView, b: SecretKeySelectorView) -> bool {
        text::lt(a.key, b.key) || a.key == b.key && text::lt(a.name, b.name)
    }

    proof fn before_irreflexive(a: SecretKeySelectorView) {
        text::lt_irreflexive(a.key);
        text::lt_irreflexive(a.name);
    }

    proof fn before_transitive(
        a: SecretKeySelectorView,
        b: SecretKeySelectorView,
        c: SecretKeySelectorView,
    ) {
        if a.key == b.key && b.key == c.key {
            text::lt_irreflexive(a.key);
            text::lt_transitive(a.name, b.name, c.name);
        } else if a.key != b.key && b.key != c.key {
            text::lt_transitive(a.key, b.key, c.key);
        }
    }

    proof fn before_total(a: SecretKeySelectorView, b: SecretKeySelectorView) {
        text::lt_total(a.key, b.key);
        text::lt_total(a.name, b.name);
    }

    fn is_before(&self, other: &Self) -> (r: bool) {
        text::less(self.key.as_str(), other.key.as_str()) || text::same(
            self.key.as_str(),
            other.key.as_str(),
        ) && text::less(self.name.as_str(), other.name.as_str())
    }
}

impl Ordered for DropinSource {
    open spec fn before(a: DropinSourceView, b: DropinSourceView) -> bool {
        ||| <Option<ConfigMapKeySelector>>::before(a.config_map_key_ref, b.config_map_key_ref)
        ||| a.config_map_key_ref == b.config_map_key_ref && <Option<SecretKeySelector>>::before(
            a.secret_key_ref,
            b.secret_key_ref,
        )
    }

    proof fn before_irreflexive(a: DropinSourceView) {
        <Option<ConfigMapKeySelector>>::before_irreflexive(a.config_map_key_ref);
        <Option<SecretKeySelector>>::before_irreflexive(a.secret_key_ref);
    }

    proof fn before_transitive(a: DropinSourceView, b: DropinSourceView, c: DropinSourceView) {
        if a.config_map_key_ref == b.config_map_key_ref && b.config_map_key_ref
            == c.config_map_key_ref {
            <Option<SecretKeySelector>>::before_irreflexive(b.secret_key_ref);
            <Option<ConfigMapKeySelector>>::before_irreflexive(a.config_map_key_ref);
            <Option<SecretKeySelector>>::before_transitive(
                a.secret_key_ref,
                b.secret_key_ref,
                c.secret_key_ref,
            );
        } else if a.config_map_key_ref != b.config_map_key_ref && b.config_map_key_ref
            != c.config_map_key_ref {
            <Option<ConfigMapKeySelector>>::before_transitive(
                a.config_map_key_ref,
                b.config_map_key_ref,
                c.config_map_key_ref,
            );
        }
    }

    proof fn before_total(a: DropinSourceView, b: DropinSourceView) {
        <Option<ConfigMapKeySelector>>::before_total(a.config_map_key_ref, b.config_map_key_ref);
        <Option<SecretKeySelector>>::before_total(a.secret_key_ref, b.secret_key_ref);
    }

    fn is_before(&self, other: &Self) -> (r: bool) {
        self.config_map_key_ref.is_before(&other.config_map_key_ref)
            || self.config_map_key_ref.same(&other.config_map_key_ref)
            && self.secret_key_ref.is_before(&other.secret_key_ref)
    }
}

impl DropinSource {
    /// The drop-in in a key of a ConfigMap.
    pub fn config_map(name: &str, key: &str) -> (r: DropinSource)
        ensures
            r@ == config_map_dropin(name@, key@),
    {
        DropinSource {
            config_map_key_ref: Some(
                ConfigMapKeySelector { key: key.to_owned(), name: name.to_owned() },
            ),
            secret_key_ref: None,
        }
    }

    /// The drop-in in a key of a Secret.
    pub fn secret(name: &str, key: &str) -> (r: DropinSource)
        ensures
            r@ == secret_dropin(SecretKeySelectorView { key: key@, name: name@ }),
    {
        DropinSource {
            config_map_key_ref: None,
            secret_key_ref: Some(SecretKeySelector { key: key.to_owned(), name: name.to_owned() }),
        }
    }
}

/// The drop-in in a key of a ConfigMap.
pub open spec fn config_map_dropin(name: Seq<char>, key: Seq<char>) -> DropinSourceView {
    DropinSourceView {
        config_map_key_ref: Some(ConfigMapKeySelectorView { key, name }),
        secret_key_ref: None,
    }
}

/// The drop-in in a key of a Secret.
pub open spec fn secret_dropin(key: SecretKeySelectorView) -> DropinSourceView {
    DropinSourceView { config_map_key_ref: None, secret_key_ref: Some(key) }
}

/// The drop-ins that describe the databases, one for each reference.
pub open spec fn database_dropins(databases: Option<DatabasesView>) -> Seq<DropinSourceView> {
    match databases {
        None => Seq::empty(),
        Some(db) => {
            let both = seq![secret_dropin(db.indexer), secret_dropin(db.matcher)];
            match db.notifier {
                None => both,
                Some(notifier) => both.push(secret_dropin(notifier)),
            }
        },
    }
}

/// The drop-ins that a spec asks for and those of its databases, each once and in order.
pub open spec fn wanted_dropins(spec: ClairSpecView) -> Seq<DropinSourceView> {
    sort::arranged::<DropinSource>(spec.dropins + database_dropins(spec.databases))
}

impl ClairSpec {
    /// With_root creates the desired ConfigSource, using the provided name as the root ConfigMap.
    pub fn with_root(&self, name: &str) -> (r: ConfigSource)
        ensures
            r@ == (ConfigSourceView {
                root: ConfigMapKeySelectorView { name: name@, key: "config.json"@ },
                dropins: wanted_dropins(self@),
            }),
    {
        let mut dropins = self.dropins.dup();
        let ghost asked = dropins.deep_view();
        if let Some(db) = &self.databases {
            push(
                &mut dropins,
                DropinSource {
                    secret_key_ref: Some(db.indexer.dup()),
                    config_map_key_ref: None,
                },
            );
            push(
                &mut dropins,
                DropinSource {
                    secret_key_ref: Some(db.matcher.dup()),
                    config_map_key_ref: None,
                },
            );
            if let Some(notifier) = &db.notifier {
                push(
                    &mut dropins,
                    DropinSource {
                        secret_key_ref: Some(notifier.dup()),
                        config_map_key_ref: None,
                    },
                );
            }
        }
        assert(dropins.deep_view() =~= asked + database_dropins(self@.databases));
        let dropins = sort::sort_dedup(dropins);
        ConfigSource {
            root: ConfigMapKeySelector { name: name.to_owned(), key: "config.json".to_owned() },
            dropins,
        }
    }
}

/// The drop-ins of a spec are determined by what it asks for: the order of its list, and how
/// often it names a drop-in, do not matter.
pub proof fn dropins_depend_on_items_alone(a: ClairSpecView, b: ClairSpecView)
    requires
        a.databases == b.databases,
        sort::same_items(a.dropins, b.dropins),
    ensures
        wanted_dropins(a) == wanted_dropins(b),
{
    let db = database_dropins(a.databases);
    sort::arranged_exists::<DropinSource>(a.dropins + db);
    assert forall|x: DropinSourceView| #[trigger]
        wanted_dropins(a).contains(x) <==> (b.dropins + db).contains(x) by {
        contains_concat(a.dropins, db, x);
        contains_concat(b.dropins, db, x);
        assert(wanted_dropins(a).contains(x) <==> (a.dropins + db).contains(x));
        assert(a.dropins.contains(x) <==> b.dropins.contains(x));
    }
    sort::arranged_unique::<DropinSource>(wanted_dropins(a), b.dropins + db);
}

/// The drop-ins of a spec are in order, none is there twice, and they are those that the spec
/// lists and those of its databases.
pub proof fn dropins_hold_databases(spec: ClairSpecView)
    ensures
        sort::increasing::<DropinSource>(wanted_dropins(spec)),
        wanted_dropins(spec).no_duplicates(),
        forall|x: DropinSourceView| #[trigger]
            wanted_dropins(spec).contains(x) <==> spec.dropins.contains(x) || database_dropins(
                spec.databases,
            ).contains(x),
        match spec.databases {
            Some(db) => {
                &&& wanted_dropins(spec).contains(secret_dropin(db.indexer))
                &&& wanted_dropins(spec).contains(secret_dropin(db.matcher))
                &&& match db.notifier {
                    Some(notifier) => wanted_dropins(spec).contains(secret_dropin(notifier)),
                    None => true,
                }
            },
            None => true,
        },
{
    let dropins = wanted_dropins(spec);
    let dbs = database_dropins(spec.databases);
    sort::arranged_exists::<DropinSource>(spec.dropins + dbs);
    sort::increasing_no_duplicates::<DropinSource>(dropins);
    assert forall|x: DropinSourceView| #[trigger] dropins.contains(x) <==> spec.dropins.contains(x)
        || dbs.contains(x) by {
        contains_concat(spec.dropins, dbs, x);
        assert(dropins.contains(x) <==> (spec.dropins + dbs).contains(x));
    }
    if let Some(db) = spec.databases {
        assert(dbs[0] == secret_dropin(db.indexer));
        assert(dbs[1] == secret_dropin(db.matcher));
        assert(dbs.contains(dbs[0]));
        assert(dbs.contains(dbs[1]));
        if db.notifier is Some {
            assert(dbs.contains(dbs[2]));
        }
    }
}

impl DeepMerge for SecretKeySelector {
    open spec fn merged(a: SecretKeySelectorView, b: SecretKeySelectorView) -> SecretKeySelectorView {
        SecretKeySelectorView {
            key: if b.key.len() > 0 { b.key } else { a.key },
            name: if b.name.len() > 0 { b.name } else { a.name },
        }
    }

    proof fn merged_self(a: SecretKeySelectorView) {
    }

    proof fn merged_twice(a: SecretKeySelectorView, b: SecretKeySelectorView) {
    }

    fn merge_from(&mut self, other: Self) {
        if !other.key.as_str().is_empty() {
            self.key = other.key;
        }
        if !other.name.as_str().is_empty() {
            self.name = other.name;
        }
    }
}

impl DeepMerge for ConfigMapKeySelector {
    open spec fn merged(
        a: ConfigMapKeySelectorView,
        b: ConfigMapKeySelectorView,
    ) -> ConfigMapKeySelectorView {
        ConfigMapKeySelectorView {
            key: if b.key.len() > 0 { b.key } else { a.key },
            name: if b.name.len() > 0 { b.name } else { a.name },
        }
    }

    proof fn merged_self(a: ConfigMapKeySelectorView) {
    }

    proof fn merged_twice(a: ConfigMapKeySelectorView, b: ConfigMapKeySelectorView) {
    }

    fn merge_from(&mut self, other: Self) {
        if !other.key.as_str().is_empty() {
            self.key = other.key;
        }
        if !other.name.as_str().is_empty() {
            self.name = other.name;
        }
    }
}

impl DeepMerge for Databases {
    open spec fn merged(a: DatabasesView, b: DatabasesView) -> DatabasesView {
        DatabasesView {
            indexer: SecretKeySelector::merged(a.indexer, b.indexer),
            matcher: SecretKeySelector::merged(a.matcher, b.matcher),
            notifier: <Option<SecretKeySelector>>::merged(a.notifier, b.notifier),
        }
    }

    proof fn merged_self(a: DatabasesView) {
    }

    proof fn merged_twice(a: DatabasesView, b: DatabasesView) {
        <Option<SecretKeySelector>>::merged_twice(a.notifier, b.notifier);
    }

    fn merge_from(&mut self, other: Self) {
        self.indexer.merge_from(other.indexer);
        self.matcher.merge_from(other.matcher);
        self.notifier.merge_from(other.notifier);
    }
}

impl DeepMerge for RouteParentRef {
    open spec fn merged(a: RouteParentRefView, b: RouteParentRefView) -> RouteParentRefView {
        RouteParentRefView {
            group: <Option<String>>::merged(a.group, b.group),
            kind: <Option<String>>::merged(a.kind, b.kind),
            namespace: <Option<String>>::merged(a.namespace, b.namespace),
            name: <Option<String>>::merged(a.name, b.name),
            section_name: <Option<String>>::merged(a.section_name, b.section_name),
        }
    }

    proof fn merged_self(a: RouteParentRefView) {
    }

    proof fn merged_twice(a: RouteParentRefView, b: RouteParentRefView) {
    }

    fn merge_from(&mut self, other: Self) {
        self.group.merge_from(other.group);
        self.kind.merge_from(other.kind);
        self.namespace.merge_from(other.namespace);
        self.name.merge_from(other.name);
        self.section_name.merge_from(other.section_name);
    }
}

impl DeepMerge for ConfigSource {
    open spec fn merged(a: ConfigSourceView, b: ConfigSourceView) -> ConfigSourceView {
        ConfigSourceView {
            root: ConfigMapKeySelector::merged(a.root, b.root),
            dropins: merge::united(a.dropins, b.dropins),
        }
    }

    proof fn merged_self(a: ConfigSourceView) {
        merge::united_self(a.dropins);
    }

    proof fn merged_twice(a: ConfigSourceView, b: ConfigSourceView) {
        merge::united_twice(a.dropins, b.dropins);
    }

    fn merge_from(&mut self, other: Self) {
        self.root.merge_from(other.root);
        merge::set(&mut self.dropins, &other.dropins);
    }
}

impl DeepMerge for ClairSpec {
    open spec fn merged(a: ClairSpecView, b: ClairSpecView) -> ClairSpecView {
        ClairSpecView {
            databases: <Option<Databases>>::merged(a.databases, b.databases),
            image: <Option<String>>::merged(a.image, b.image),
            gateway: <Option<RouteParentRef>>::merged(a.gateway, b.gateway),
            notifier: <Option<bool>>::merged(a.notifier, b.notifier),
            dropins: merge::united(a.dropins, b.dropins),
        }
    }

    proof fn merged_self(a: ClairSpecView) {
        if let Some(db) = a.databases {
            Databases::merged_self(db);
        }
        merge::united_self(a.dropins);
    }

    proof fn merged_twice(a: ClairSpecView, b: ClairSpecView) {
        <Option<Databases>>::merged_twice(a.databases, b.databases);
        <Option<RouteParentRef>>::merged_twice(a.gateway, b.gateway);
        merge::united_twice(a.dropins, b.dropins);
    }

    fn merge_from(&mut self, other: Self) {
        self.image.merge_from(other.image);
        self.databases.merge_from(other.databases);
        self.gateway.merge_from(other.gateway);
        self.notifier.merge_from(other.notifier);
        merge::set(&mut self.dropins, &other.dropins);
    }
}

impl DeepMerge for IndexerSpec {
    /// The gateway stays as it is.
    open spec fn merged(a: IndexerSpecView, b: IndexerSpecView) -> IndexerSpecView {
        IndexerSpecView {
            image: <Option<String>>::merged(a.image, b.image),
            config: <Option<ConfigSource>>::merged(a.config, b.config),
            gateway: a.gateway,
        }
    }

    proof fn merged_self(a: IndexerSpecView) {
        if let Some(config) = a.config {
            ConfigSource::merged_self(config);
        }
    }

    proof fn merged_twice(a: IndexerSpecView, b: IndexerSpecView) {
        <Option<ConfigSource>>::merged_twice(a.config, b.config);
    }

    fn merge_from(&mut self, other: Self) {
        self.image.merge_from(other.image);
        self.config.merge_from(other.config);
    }
}

/// Merging a spec in which nothing is set changes nothing.
pub proof fn merging_blank_changes_nothing(a: ClairSpecView)
    ensures
        ClairSpec::merged(a, ClairSpecView::blank()) == a,
{
    reveal_with_fuel(merge::united, 1);
}

} // verus!
