//! Containers, volumes, services and the maps that hold configuration.

use vstd::prelude::*;

use crate::maps::KeyMap;
use crate::model::{none, Model};
use crate::k8s::meta::{IntOrString, IntOrStringView, ObjectMeta, ObjectMetaView};

verus! {

/// TypedLocalObjectReference names an object in the same namespace.
#[derive(Debug, PartialEq)]
pub struct TypedLocalObjectReference {
    /// Group of the object.
    pub api_group: Option<String>,
    /// Kind of the object.
    pub kind: String,
    /// Name of the object.
    pub name: String,
}

/// The value of a [`TypedLocalObjectReference`].
pub ghost struct TypedLocalObjectReferenceView {
    pub api_group: Option<Seq<char>>,
    pub kind: Seq<char>,
    pub name: Seq<char>,
}

impl DeepView for TypedLocalObjectReference {
    type V = TypedLocalObjectReferenceView;

    open spec fn deep_view(&self) -> TypedLocalObjectReferenceView {
        TypedLocalObjectReferenceView {
            api_group: self.api_group.deep_view(),
            kind: self.kind.deep_view(),
            name: self.name.deep_view(),
        }
    }
}

impl View for TypedLocalObjectReference {
    type V = TypedLocalObjectReferenceView;

    open spec fn view(&self) -> TypedLocalObjectReferenceView {
        self.deep_view()
    }
}

impl Model for TypedLocalObjectReference {
    fn dup(&self) -> (r: Self) {
        TypedLocalObjectReference {
            api_group: self.api_group.dup(),
            kind: self.kind.dup(),
            name: self.name.dup(),
        }
    }

    fn same(&self, other: &Self) -> (r: bool) {
        self.api_group.same(&other.api_group)
            && self.kind.same(&other.kind)
            && self.name.same(&other.name)
    }
}

impl TypedLocalObjectReferenceView {
    /// The value with nothing set.
    pub open spec fn blank() -> TypedLocalObjectReferenceView {
        TypedLocalObjectReferenceView {
            api_group: None,
            kind: Seq::empty(),
            name: Seq::empty(),
        }
    }
}

impl Default for TypedLocalObjectReference {
    fn default() -> (r: Self)
        ensures
            r@ == TypedLocalObjectReferenceView::blank(),
    {
        TypedLocalObjectReference {
            api_group: None,
            kind: String::new(),
            name: String::new(),
        }
    }
}

/// ObjectReference names any object.
#[derive(Debug, PartialEq)]
pub struct ObjectReference {
    /// Group and version of the object.
    pub api_version: Option<String>,
    /// Part of the object that is meant.
    pub field_path: Option<String>,
    /// Kind of the object.
    pub kind: Option<String>,
    /// Name of the object.
    pub name: Option<String>,
    /// Namespace of the object.
    pub namespace: Option<String>,
    /// Version of the object.
    pub resource_version: Option<String>,
    /// Unique ID of the object.
    pub uid: Option<String>,
}

/// The value of an [`ObjectReference`].
pub ghost struct ObjectReferenceView {
    pub api_version: Option<Seq<char>>,
    pub field_path: Option<Seq<char>>,
    pub kind: Option<Seq<char>>,
    pub name: Option<Seq<char>>,
    pub namespace: Option<Seq<char>>,
    pub resource_version: Option<Seq<char>>,
    pub uid: Option<Seq<char>>,
}

impl DeepView for ObjectReference {
    type V = ObjectReferenceView;

    open spec fn deep_view(&self) -> ObjectReferenceView {
        ObjectReferenceView {
            api_version: self.api_version.deep_view(),
            field_path: self.field_path.deep_view(),
            kind: self.kind.deep_view(),
            name: self.name.deep_view(),
            namespace: self.namespace.deep_view(),
            resource_version: self.resource_version.deep_view(),
            uid: self.uid.deep_view(),
        }
    }
}

impl View for ObjectReference {
    type V = ObjectReferenceView;

    open spec fn view(&self) -> ObjectReferenceView {
        self.deep_view()
    }
}

impl Model for ObjectReference {
    fn dup(&self) -> (r: Self) {
        ObjectReference {
            api_version: self.api_version.dup(),
            field_path: self.field_path.dup(),
            kind: self.kind.dup(),
            name: self.name.dup(),
            namespace: self.namespace.dup(),
            resource_version: self.resource_version.dup(),
            uid: self.uid.dup(),
        }
    }

    fn same(&self, other: &Self) -> (r: bool) {
        self.api_version.same(&other.api_version)
            && self.field_path.same(&other.field_path)
            && self.kind.same(&other.kind)
            && self.name.same(&other.name)
            && self.namespace.same(&other.namespace)
            && self.resource_version.same(&other.resource_version)
            && self.uid.same(&other.uid)
    }
}

impl ObjectReferenceView {
    /// The value with nothing set.
    pub open spec fn blank() -> ObjectReferenceView {
        ObjectReferenceView {
            api_version: None,
            field_path: None,
            kind: None,
            name: None,
            namespace: None,
            resource_version: None,
            uid: None,
        }
    }
}

impl Default for ObjectReference {
    fn default() -> (r: Self)
        ensures
            r@ == ObjectReferenceView::blank(),
    {
        ObjectReference {
            api_version: None,
            field_path: None,
            kind: None,
            name: None,
            namespace: None,
            resource_version: None,
            uid: None,
        }
    }
}

/// KeyToPath puts one key of a map into a file.
#[derive(Debug, PartialEq)]
pub struct KeyToPath {
    /// Key to read.
    pub key: String,
    /// Permission bits of the file.
    pub mode: Option<i32>,
    /// File to write, below the volume's root.
    pub path: String,
}

/// The value of a [`KeyToPath`].
pub ghost struct KeyToPathView {
    pub key: Seq<char>,
    pub mode: Option<i32>,
    pub path: Seq<char>,
}

impl DeepView for KeyToPath {
    type V = KeyToPathView;

    open spec fn deep_view(&self) -> KeyToPathView {
        KeyToPathView {
            key: self.key.deep_view(),
            mode: self.mode.deep_view(),
            path: self.path.deep_view(),
        }
    }
}

impl View for KeyToPath {
    type V = KeyToPathView;

    open spec fn view(&self) -> KeyToPathView {
        self.deep_view()
    }
}

impl Model for KeyToPath {
    fn dup(&self) -> (r: Self) {
        KeyToPath {
            key: self.key.dup(),
            mode: self.mode.dup(),
            path: self.path.dup(),
        }
    }

    fn same(&self, other: &Self) -> (r: bool) {
        self.key.same(&other.key)
            && self.mode.same(&other.mode)
            && self.path.same(&other.path)
    }
}

impl KeyToPathView {
    /// The value with nothing set.
    pub open spec fn blank() -> KeyToPathView {
        KeyToPathView {
            key: Seq::empty(),
            mode: None,
            path: Seq::empty(),
        }
    }
}

impl Default for KeyToPath {
    fn default() -> (r: Self)
        ensures
            r@ == KeyToPathView::blank(),
    {
        KeyToPath {
            key: String::new(),
            mode: None,
            path: String::new(),
        }
    }
}

/// ConfigMapVolumeSource is a volume that holds keys of a [`ConfigMap`].
#[derive(Debug, PartialEq)]
pub struct ConfigMapVolumeSource {
    /// Permission bits of files without their own.
    pub default_mode: Option<i32>,
    /// Keys to write; all of them if unset.
    pub items: Option<Vec<KeyToPath>>,
    /// Name of the map.
    pub name: String,
    /// Set where the map may be missing.
    pub optional: Option<bool>,
}

/// The value of a [`ConfigMapVolumeSource`].
pub ghost struct ConfigMapVolumeSourceView {
    pub default_mode: Option<i32>,
    pub items: Option<Seq<KeyToPathView>>,
    pub name: Seq<char>,
    pub optional: Option<bool>,
}

impl DeepView for ConfigMapVolumeSource {
    type V = ConfigMapVolumeSourceView;

    open spec fn deep_view(&self) -> ConfigMapVolumeSourceView {
        ConfigMapVolumeSourceView {
            default_mode: self.default_mode.deep_view(),
            items: self.items.deep_view(),
            name: self.name.deep_view(),
            optional: self.optional.deep_view(),
        }
    }
}

impl View for ConfigMapVolumeSource {
    type V = ConfigMapVolumeSourceView;

    open spec fn view(&self) -> ConfigMapVolumeSourceView {
        self.deep_view()
    }
}

impl Model for ConfigMapVolumeSource {
    fn dup(&self) -> (r: Self) {
        ConfigMapVolumeSource {
            default_mode: self.default_mode.dup(),
            items: self.items.dup(),
            name: self.name.dup(),
            optional: self.optional.dup(),
        }
    }

    fn same(&self, other: &Self) -> (r: bool) {
        self.default_mode.same(&other.default_mode)
            && self.items.same(&other.items)
            && self.name.same(&other.name)
            && self.optional.same(&other.optional)
    }
}

impl ConfigMapVolumeSourceView {
    /// The value with nothing set.
    pub open spec fn blank() -> ConfigMapVolumeSourceView {
        ConfigMapVolumeSourceView {
            default_mode: None,
            items: None,
            name: Seq::empty(),
            optional: None,
        }
    }
}

impl Default for ConfigMapVolumeSource {
    fn default() -> (r: Self)
        ensures
            r@ == ConfigMapVolumeSourceView::blank(),
    {
        ConfigMapVolumeSource {
            default_mode: None,
            items: None,
            name: String::new(),
            optional: None,
        }
    }
}

/// ConfigMapProjection is the part of a volume that comes from a [`ConfigMap`].
#[derive(Debug, PartialEq)]
pub struct ConfigMapProjection {
    /// Keys to write; all of them if unset.
    pub items: Option<Vec<KeyToPath>>,
    /// Name of the map.
    pub name: String,
    /// Set where the map may be missing.
    pub optional: Option<bool>,
}

/// The value of a [`ConfigMapProjection`].
pub ghost struct ConfigMapProjectionView {
    pub items: Option<Seq<KeyToPathView>>,
    pub name: Seq<char>,
    pub optional: Option<bool>,
}

impl DeepView for ConfigMapProjection {
    type V = ConfigMapProjectionView;

    open spec fn deep_view(&self) -> ConfigMapProjectionView {
        ConfigMapProjectionView {
            items: self.items.deep_view(),
            name: self.name.deep_view(),
            optional: self.optional.deep_view(),
        }
    }
}

impl View for ConfigMapProjection {
    type V = ConfigMapProjectionView;

    open spec fn view(&self) -> ConfigMapProjectionView {
        self.deep_view()
    }
}

impl Model for ConfigMapProjection {
    fn dup(&self) -> (r: Self) {
        ConfigMapProjection {
            items: self.items.dup(),
            name: self.name.dup(),
            optional: self.optional.dup(),
        }
    }

    fn same(&self, other: &Self) -> (r: bool) {
        self.items.same(&other.items)
            && self.name.same(&other.name)
            && self.optional.same(&other.optional)
    }
}

impl ConfigMapProjectionView {
    /// The value with nothing set.
    pub open spec fn blank() -> ConfigMapProjectionView {
        ConfigMapProjectionView {
            items: None,
            name: Seq::empty(),
            optional: None,
        }
    }
}

impl Default for ConfigMapProjection {
    fn default() -> (r: Self)
        ensures
            r@ == ConfigMapProjectionView::blank(),
    {
        ConfigMapProjection {
            items: None,
            name: String::new(),
            optional: None,
        }
    }
}

/// SecretProjection is the part of a volume that comes from a [`Secret`].
#[derive(Debug, PartialEq)]
pub struct SecretProjection {
    /// Keys to write; all of them if unset.
    pub items: Option<Vec<KeyToPath>>,
    /// Name of the secret.
    pub name: String,
    /// Set where the secret may be missing.
    pub optional: Option<bool>,
}

/// The value of a [`SecretProjection`].
pub ghost struct SecretProjectionView {
    pub items: Option<Seq<KeyToPathView>>,
    pub name: Seq<char>,
    pub optional: Option<bool>,
}

impl DeepView for SecretProjection {
    type V = SecretProjectionView;

    open spec fn deep_view(&self) -> SecretProjectionView {
        SecretProjectionView {
            items: self.items.deep_view(),
            name: self.name.deep_view(),
            optional: self.optional.deep_view(),
        }
    }
}

impl View for SecretProjection {
    type V = SecretProjectionView;

    open spec fn view(&self) -> SecretProjectionView {
        self.deep_view()
    }
}

impl Model for SecretProjection {
    fn dup(&self) -> (r: Self) {
        SecretProjection {
            items: self.items.dup(),
            name: self.name.dup(),
            optional: self.optional.dup(),
        }
    }

    fn same(&self, other: &Self) -> (r: bool) {
        self.items.same(&other.items)
            && self.name.same(&other.name)
            && self.optional.same(&other.optional)
    }
}

impl SecretProjectionView {
    /// The value with nothing set.
    pub open spec fn blank() -> SecretProjectionView {
        SecretProjectionView {
            items: None,
            name: Seq::empty(),
            optional: None,
        }
    }
}

impl Default for SecretProjection {
    fn default() -> (r: Self)
        ensures
            r@ == SecretProjectionView::blank(),
    {
        SecretProjection {
            items: None,
            name: String::new(),
            optional: None,
        }
    }
}

/// VolumeProjection is one source of a projected volume.
#[derive(Debug, PartialEq)]
pub struct VolumeProjection {
    /// Set for a [`ConfigMap`].
    pub config_map: Option<ConfigMapProjection>,
    /// Set for a [`Secret`].
    pub secret: Option<SecretProjection>,
}

/// The value of a [`VolumeProjection`].
pub ghost struct VolumeProjectionView {
    pub config_map: Option<ConfigMapProjectionView>,
    pub secret: Option<SecretProjectionView>,
}

impl DeepView for VolumeProjection {
    type V = VolumeProjectionView;

    open spec fn deep_view(&self) -> VolumeProjectionView {
        VolumeProjectionView {
            config_map: self.config_map.deep_view(),
            secret: self.secret.deep_view(),
        }
    }
}

impl View for VolumeProjection {
    type V = VolumeProjectionView;

    open spec fn view(&self) -> VolumeProjectionView {
        self.deep_view()
    }
}

impl Model for VolumeProjection {
    fn dup(&self) -> (r: Self) {
        VolumeProjection {
            config_map: self.config_map.dup(),
            secret: self.secret.dup(),
        }
    }

    fn same(&self, other: &Self) -> (r: bool) {
        self.config_map.same(&other.config_map)
            && self.secret.same(&other.secret)
    }
}

impl VolumeProjectionView {
    /// The value with nothing set.
    pub open spec fn blank() -> VolumeProjectionView {
        VolumeProjectionView {
            config_map: None,
            secret: None,
        }
    }
}

impl Default for VolumeProjection {
    fn default() -> (r: Self)
        ensures
            r@ == VolumeProjectionView::blank(),
    {
        VolumeProjection {
            config_map: None,
            secret: None,
        }
    }
}

/// ProjectedVolumeSource is a volume put together from several sources.
#[derive(Debug, PartialEq)]
pub struct ProjectedVolumeSource {
    /// Permission bits of files without their own.
    pub default_mode: Option<i32>,
    /// Where the files come from.
    pub sources: Option<Vec<VolumeProjection>>,
}

/// The value of a [`ProjectedVolumeSource`].
pub ghost struct ProjectedVolumeSourceView {
    pub default_mode: Option<i32>,
    pub sources: Option<Seq<VolumeProjectionView>>,
}

impl DeepView for ProjectedVolumeSource {
    type V = ProjectedVolumeSourceView;

    open spec fn deep_view(&self) -> ProjectedVolumeSourceView {
        ProjectedVolumeSourceView {
            default_mode: self.default_mode.deep_view(),
            sources: self.sources.deep_view(),
        }
    }
}

impl View for ProjectedVolumeSource {
    type V = ProjectedVolumeSourceView;

    open spec fn view(&self) -> ProjectedVolumeSourceView {
        self.deep_view()
    }
}

impl Model for ProjectedVolumeSource {
    fn dup(&self) -> (r: Self) {
        ProjectedVolumeSource {
            default_mode: self.default_mode.dup(),
            sources: self.sources.dup(),
        }
    }

    fn same(&self, other: &Self) -> (r: bool) {
        self.default_mode.same(&other.default_mode)
            && self.sources.same(&other.sources)
    }
}

impl ProjectedVolumeSourceView {
    /// The value with nothing set.
    pub open spec fn blank() -> ProjectedVolumeSourceView {
        ProjectedVolumeSourceView {
            default_mode: None,
            sources: None,
        }
    }
}

impl Default for ProjectedVolumeSource {
    fn default() -> (r: Self)
        ensures
            r@ == ProjectedVolumeSourceView::blank(),
    {
        ProjectedVolumeSource {
            default_mode: None,
            sources: None,
        }
    }
}

/// VolumeResourceRequirements is how much room a volume has.
#[derive(Debug, PartialEq)]
pub struct VolumeResourceRequirements {
    /// Amount by resource.
    pub requests: Option<KeyMap<String>>,
}

/// The value of a [`VolumeResourceRequirements`].
pub ghost struct VolumeResourceRequirementsView {
    pub requests: Option<Map<Seq<char>, Seq<char>>>,
}

impl DeepView for VolumeResourceRequirements {
    type V = VolumeResourceRequirementsView;

    open spec fn deep_view(&self) -> VolumeResourceRequirementsView {
        VolumeResourceRequirementsView {
            requests: self.requests.deep_view(),
        }
    }
}

impl View for VolumeResourceRequirements {
    type V = VolumeResourceRequirementsView;

    open spec fn view(&self) -> VolumeResourceRequirementsView {
        self.deep_view()
    }
}

impl Model for VolumeResourceRequirements {
    fn dup(&self) -> (r: Self) {
        VolumeResourceRequirements {
            requests: self.requests.dup(),
        }
    }

    fn same(&self, other: &Self) -> (r: bool) {
        self.requests.same(&other.requests)
    }
}

impl VolumeResourceRequirementsView {
    /// The value with nothing set.
    pub open spec fn blank() -> VolumeResourceRequirementsView {
        VolumeResourceRequirementsView {
            requests: None,
        }
    }
}

impl Default for VolumeResourceRequirements {
    fn default() -> (r: Self)
        ensures
            r@ == VolumeResourceRequirementsView::blank(),
    {
        VolumeResourceRequirements {
            requests: None,
        }
    }
}

/// PersistentVolumeClaimSpec asks for a volume.
#[derive(Debug, PartialEq)]
pub struct PersistentVolumeClaimSpec {
    /// How the volume may be mounted.
    pub access_modes: Option<Vec<String>>,
    /// How large it must be.
    pub resources: Option<VolumeResourceRequirements>,
}

/// The value of a [`PersistentVolumeClaimSpec`].
pub ghost struct PersistentVolumeClaimSpecView {
    pub access_modes: Option<Seq<Seq<char>>>,
    pub resources: Option<VolumeResourceRequirementsView>,
}

impl DeepView for PersistentVolumeClaimSpec {
    type V = PersistentVolumeClaimSpecView;

    open spec fn deep_view(&self) -> PersistentVolumeClaimSpecView {
        PersistentVolumeClaimSpecView {
            access_modes: self.access_modes.deep_view(),
            resources: self.resources.deep_view(),
        }
    }
}

impl View for PersistentVolumeClaimSpec {
    type V = PersistentVolumeClaimSpecView;

    open spec fn view(&self) -> PersistentVolumeClaimSpecView {
        self.deep_view()
    }
}

impl Model for PersistentVolumeClaimSpec {
    fn dup(&self) -> (r: Self) {
        PersistentVolumeClaimSpec {
            access_modes: self.access_modes.dup(),
            resources: self.resources.dup(),
        }
    }

    fn same(&self, other: &Self) -> (r: bool) {
        self.access_modes.same(&other.access_modes)
            && self.resources.same(&other.resources)
    }
}

impl PersistentVolumeClaimSpecView {
    /// The value with nothing set.
    pub open spec fn blank() -> PersistentVolumeClaimSpecView {
        PersistentVolumeClaimSpecView {
            access_modes: None,
            resources: None,
        }
    }
}

impl Default for PersistentVolumeClaimSpec {
    fn default() -> (r: Self)
        ensures
            r@ == PersistentVolumeClaimSpecView::blank(),
    {
        PersistentVolumeClaimSpec {
            access_modes: None,
            resources: None,
        }
    }
}

/// PersistentVolumeClaimTemplate is what a claim is made from.
#[derive(Debug, PartialEq)]
pub struct PersistentVolumeClaimTemplate {
    /// Metadata of the claim.
    pub metadata: Option<ObjectMeta>,
    /// What the claim asks for.
    pub spec: PersistentVolumeClaimSpec,
}

/// The value of a [`PersistentVolumeClaimTemplate`].
pub ghost struct PersistentVolumeClaimTemplateView {
    pub metadata: Option<ObjectMetaView>,
    pub spec: PersistentVolumeClaimSpecView,
}

impl DeepView for PersistentVolumeClaimTemplate {
    type V = PersistentVolumeClaimTemplateView;

    open spec fn deep_view(&self) -> PersistentVolumeClaimTemplateView {
        PersistentVolumeClaimTemplateView {
            metadata: self.metadata.deep_view(),
            spec: self.spec.deep_view(),
        }
    }
}

impl View for PersistentVolumeClaimTemplate {
    type V = PersistentVolumeClaimTemplateView;

    open spec fn view(&self) -> PersistentVolumeClaimTemplateView {
        self.deep_view()
    }
}

impl Model for PersistentVolumeClaimTemplate {
    fn dup(&self) -> (r: Self) {
        PersistentVolumeClaimTemplate {
            metadata: self.metadata.dup(),
            spec: self.spec.dup(),
        }
    }

    fn same(&self, other: &Self) -> (r: bool) {
        self.metadata.same(&other.metadata)
            && self.spec.same(&other.spec)
    }
}

impl PersistentVolumeClaimTemplateView {
    /// The value with nothing set.
    pub open spec fn blank() -> PersistentVolumeClaimTemplateView {
        PersistentVolumeClaimTemplateView {
            metadata: None,
            spec: PersistentVolumeClaimSpecView::blank(),
        }
    }
}

impl Default for PersistentVolumeClaimTemplate {
    fn default() -> (r: Self)
        ensures
            r@ == PersistentVolumeClaimTemplateView::blank(),
    {
        PersistentVolumeClaimTemplate {
            metadata: None,
            spec: PersistentVolumeClaimSpec::default(),
        }
    }
}

/// EphemeralVolumeSource is a volume that lives as long as its pod.
#[derive(Debug, PartialEq)]
pub struct EphemeralVolumeSource {
    /// What the volume is made from.
    pub volume_claim_template: Option<PersistentVolumeClaimTemplate>,
}

/// The value of an [`EphemeralVolumeSource`].
pub ghost struct EphemeralVolumeSourceView {
    pub volume_claim_template: Option<PersistentVolumeClaimTemplateView>,
}

impl DeepView for EphemeralVolumeSource {
    type V = EphemeralVolumeSourceView;

    open spec fn deep_view(&self) -> EphemeralVolumeSourceView {
        EphemeralVolumeSourceView {
            volume_claim_template: self.volume_claim_template.deep_view(),
        }
    }
}

impl View for EphemeralVolumeSource {
    type V = EphemeralVolumeSourceView;

    open spec fn view(&self) -> EphemeralVolumeSourceView {
        self.deep_view()
    }
}

impl Model for EphemeralVolumeSource {
    fn dup(&self) -> (r: Self) {
        EphemeralVolumeSource {
            volume_claim_template: self.volume_claim_template.dup(),
        }
    }

    fn same(&self, other: &Self) -> (r: bool) {
        self.volume_claim_template.same(&other.volume_claim_template)
    }
}

impl EphemeralVolumeSourceView {
    /// The value with nothing set.
    pub open spec fn blank() -> EphemeralVolumeSourceView {
        EphemeralVolumeSourceView {
            volume_claim_template: None,
        }
    }
}

impl Default for EphemeralVolumeSource {
    fn default() -> (r: Self)
        ensures
            r@ == EphemeralVolumeSourceView::blank(),
    {
        EphemeralVolumeSource {
            volume_claim_template: None,
        }
    }
}

/// Volume is a directory that the containers of a pod can mount.
#[derive(Debug, PartialEq)]
pub struct Volume {
    /// Name that mounts refer to.
    pub name: String,
    /// Set for a volume from one [`ConfigMap`].
    pub config_map: Option<ConfigMapVolumeSource>,
    /// Set for scratch space.
    pub ephemeral: Option<EphemeralVolumeSource>,
    /// Set for a volume from several sources.
    pub projected: Option<ProjectedVolumeSource>,
}

/// The value of a [`Volume`].
pub ghost struct VolumeView {
    pub name: Seq<char>,
    pub config_map: Option<ConfigMapVolumeSourceView>,
    pub ephemeral: Option<EphemeralVolumeSourceView>,
    pub projected: Option<ProjectedVolumeSourceView>,
}

impl DeepView for Volume {
    type V = VolumeView;

    open spec fn deep_view(&self) -> VolumeView {
        VolumeView {
            name: self.name.deep_view(),
            config_map: self.config_map.deep_view(),
            ephemeral: self.ephemeral.deep_view(),
            projected: self.projected.deep_view(),
        }
    }
}

impl View for Volume {
    type V = VolumeView;

    open spec fn view(&self) -> VolumeView {
        self.deep_view()
    }
}

impl Model for Volume {
    fn dup(&self) -> (r: Self) {
        Volume {
            name: self.name.dup(),
            config_map: self.config_map.dup(),
            ephemeral: self.ephemeral.dup(),
            projected: self.projected.dup(),
        }
    }

    fn same(&self, other: &Self) -> (r: bool) {
        self.name.same(&other.name)
            && self.config_map.same(&other.config_map)
            && self.ephemeral.same(&other.ephemeral)
            && self.projected.same(&other.projected)
    }
}

impl VolumeView {
    /// The value with nothing set.
    pub open spec fn blank() -> VolumeView {
        VolumeView {
            name: Seq::empty(),
            config_map: None,
            ephemeral: None,
            projected: None,
        }
    }
}

impl Default for Volume {
    fn default() -> (r: Self)
        ensures
            r@ == VolumeView::blank(),
    {
        Volume {
            name: String::new(),
            config_map: None,
            ephemeral: None,
            projected: None,
        }
    }
}

/// VolumeMount is where a container sees a [`Volume`].
#[derive(Debug, PartialEq)]
pub struct VolumeMount {
    /// Where the volume is mounted.
    pub mount_path: String,
    /// Which volume.
    pub name: String,
    /// File or directory in the volume to mount instead of its root.
    pub sub_path: Option<String>,
}

/// The value of a [`VolumeMount`].
pub ghost struct VolumeMountView {
    pub mount_path: Seq<char>,
    pub name: Seq<char>,
    pub sub_path: Option<Seq<char>>,
}

impl DeepView for VolumeMount {
    type V = VolumeMountView;

    open spec fn deep_view(&self) -> VolumeMountView {
        VolumeMountView {
            mount_path: self.mount_path.deep_view(),
            name: self.name.deep_view(),
            sub_path: self.sub_path.deep_view(),
        }
    }
}

impl View for VolumeMount {
    type V = VolumeMountView;

    open spec fn view(&self) -> VolumeMountView {
        self.deep_view()
    }
}

impl Model for VolumeMount {
    fn dup(&self) -> (r: Self) {
        VolumeMount {
            mount_path: self.mount_path.dup(),
            name: self.name.dup(),
            sub_path: self.sub_path.dup(),
        }
    }

    fn same(&self, other: &Self) -> (r: bool) {
        self.mount_path.same(&other.mount_path)
            && self.name.same(&other.name)
            && self.sub_path.same(&other.sub_path)
    }
}

impl VolumeMountView {
    /// The value with nothing set.
    pub open spec fn blank() -> VolumeMountView {
        VolumeMountView {
            mount_path: Seq::empty(),
            name: Seq::empty(),
            sub_path: None,
        }
    }
}

impl Default for VolumeMount {
    fn default() -> (r: Self)
        ensures
            r@ == VolumeMountView::blank(),
    {
        VolumeMount {
            mount_path: String::new(),
            name: String::new(),
            sub_path: None,
        }
    }
}

/// ResourceFieldSelector reads an amount that a container asks for.
#[derive(Debug, PartialEq)]
pub struct ResourceFieldSelector {
    /// Which container.
    pub container_name: Option<String>,
    /// Which amount.
    pub resource: String,
}

/// The value of a [`ResourceFieldSelector`].
pub ghost struct ResourceFieldSelectorView {
    pub container_name: Option<Seq<char>>,
    pub resource: Seq<char>,
}

impl DeepView for ResourceFieldSelector {
    type V = ResourceFieldSelectorView;

    open spec fn deep_view(&self) -> ResourceFieldSelectorView {
        ResourceFieldSelectorView {
            container_name: self.container_name.deep_view(),
            resource: self.resource.deep_view(),
        }
    }
}

impl View for ResourceFieldSelector {
    type V = ResourceFieldSelectorView;

    open spec fn view(&self) -> ResourceFieldSelectorView {
        self.deep_view()
    }
}

impl Model for ResourceFieldSelector {
    fn dup(&self) -> (r: Self) {
        ResourceFieldSelector {
            container_name: self.container_name.dup(),
            resource: self.resource.dup(),
        }
    }

    fn same(&self, other: &Self) -> (r: bool) {
        self.container_name.same(&other.container_name)
            && self.resource.same(&other.resource)
    }
}

impl ResourceFieldSelectorView {
    /// The value with nothing set.
    pub open spec fn blank() -> ResourceFieldSelectorView {
        ResourceFieldSelectorView {
            container_name: None,
            resource: Seq::empty(),
        }
    }
}

impl Default for ResourceFieldSelector {
    fn default() -> (r: Self)
        ensures
            r@ == ResourceFieldSelectorView::blank(),
    {
        ResourceFieldSelector {
            container_name: None,
            resource: String::new(),
        }
    }
}

/// EnvVarSource is where a variable's value comes from.
#[derive(Debug, PartialEq)]
pub struct EnvVarSource {
    /// Set for an amount that a container asks for.
    pub resource_field_ref: Option<ResourceFieldSelector>,
}

/// The value of an [`EnvVarSource`].
pub ghost struct EnvVarSourceView {
    pub resource_field_ref: Option<ResourceFieldSelectorView>,
}

impl DeepView for EnvVarSource {
    type V = EnvVarSourceView;

    open spec fn deep_view(&self) -> EnvVarSourceView {
        EnvVarSourceView {
            resource_field_ref: self.resource_field_ref.deep_view(),
        }
    }
}

impl View for EnvVarSource {
    type V = EnvVarSourceView;

    open spec fn view(&self) -> EnvVarSourceView {
        self.deep_view()
    }
}

impl Model for EnvVarSource {
    fn dup(&self) -> (r: Self) {
        EnvVarSource {
            resource_field_ref: self.resource_field_ref.dup(),
        }
    }

    fn same(&self, other: &Self) -> (r: bool) {
        self.resource_field_ref.same(&other.resource_field_ref)
    }
}

impl EnvVarSourceView {
    /// The value with nothing set.
    pub open spec fn blank() -> EnvVarSourceView {
        EnvVarSourceView {
            resource_field_ref: None,
        }
    }
}

impl Default for EnvVarSource {
    fn default() -> (r: Self)
        ensures
            r@ == EnvVarSourceView::blank(),
    {
        EnvVarSource {
            resource_field_ref: None,
        }
    }
}

/// EnvVar is one environment variable.
#[derive(Debug, PartialEq)]
pub struct EnvVar {
    /// Name of the variable.
    pub name: String,
    /// Its value.
    pub value: Option<String>,
    /// Where to get its value.
    pub value_from: Option<EnvVarSource>,
}

/// The value of an [`EnvVar`].
pub ghost struct EnvVarView {
    pub name: Seq<char>,
    pub value: Option<Seq<char>>,
    pub value_from: Option<EnvVarSourceView>,
}

impl DeepView for EnvVar {
    type V = EnvVarView;

    open spec fn deep_view(&self) -> EnvVarView {
        EnvVarView {
            name: self.name.deep_view(),
            value: self.value.deep_view(),
            value_from: self.value_from.deep_view(),
        }
    }
}

impl View for EnvVar {
    type V = EnvVarView;

    open spec fn view(&self) -> EnvVarView {
        self.deep_view()
    }
}

impl Model for EnvVar {
    fn dup(&self) -> (r: Self) {
        EnvVar {
            name: self.name.dup(),
            value: self.value.dup(),
            value_from: self.value_from.dup(),
        }
    }

    fn same(&self, other: &Self) -> (r: bool) {
        self.name.same(&other.name)
            && self.value.same(&other.value)
            && self.value_from.same(&other.value_from)
    }
}

impl EnvVarView {
    /// The value with nothing set.
    pub open spec fn blank() -> EnvVarView {
        EnvVarView {
            name: Seq::empty(),
            value: None,
            value_from: None,
        }
    }
}

impl Default for EnvVar {
    fn default() -> (r: Self)
        ensures
            r@ == EnvVarView::blank(),
    {
        EnvVar {
            name: String::new(),
            value: None,
            value_from: None,
        }
    }
}

/// ContainerPort is a port that a container listens on.
#[derive(Debug, PartialEq)]
pub struct ContainerPort {
    /// Number of the port.
    pub container_port: i32,
    /// Name that services and probes refer to.
    pub name: Option<String>,
}

/// The value of a [`ContainerPort`].
pub ghost struct ContainerPortView {
    pub container_port: i32,
    pub name: Option<Seq<char>>,
}

impl DeepView for ContainerPort {
    type V = ContainerPortView;

    open spec fn deep_view(&self) -> ContainerPortView {
        ContainerPortView {
            container_port: self.container_port.deep_view(),
            name: self.name.deep_view(),
        }
    }
}

impl View for ContainerPort {
    type V = ContainerPortView;

    open spec fn view(&self) -> ContainerPortView {
        self.deep_view()
    }
}

impl Model for ContainerPort {
    fn dup(&self) -> (r: Self) {
        ContainerPort {
            container_port: self.container_port.dup(),
            name: self.name.dup(),
        }
    }

    fn same(&self, other: &Self) -> (r: bool) {
        self.container_port.same(&other.container_port)
            && self.name.same(&other.name)
    }
}

impl ContainerPortView {
    /// The value with nothing set.
    pub open spec fn blank() -> ContainerPortView {
        ContainerPortView {
            container_port: 0,
            name: None,
        }
    }
}

impl Default for ContainerPort {
    fn default() -> (r: Self)
        ensures
            r@ == ContainerPortView::blank(),
    {
        ContainerPort {
            container_port: 0,
            name: None,
        }
    }
}

/// TCPSocketAction opens a connection.
#[derive(Debug, PartialEq)]
pub struct TCPSocketAction {
    /// Host to connect to; the pod if unset.
    pub host: Option<String>,
    /// Port to connect to.
    pub port: IntOrString,
}

/// The value of a [`TCPSocketAction`].
pub ghost struct TCPSocketActionView {
    pub host: Option<Seq<char>>,
    pub port: IntOrStringView,
}

impl DeepView for TCPSocketAction {
    type V = TCPSocketActionView;

    open spec fn deep_view(&self) -> TCPSocketActionView {
        TCPSocketActionView {
            host: self.host.deep_view(),
            port: self.port.deep_view(),
        }
    }
}

impl View for TCPSocketAction {
    type V = TCPSocketActionView;

    open spec fn view(&self) -> TCPSocketActionView {
        self.deep_view()
    }
}

impl Model for TCPSocketAction {
    fn dup(&self) -> (r: Self) {
        TCPSocketAction {
            host: self.host.dup(),
            port: self.port.dup(),
        }
    }

    fn same(&self, other: &Self) -> (r: bool) {
        self.host.same(&other.host)
            && self.port.same(&other.port)
    }
}

/// HTTPGetAction makes a request.
#[derive(Debug, PartialEq)]
pub struct HTTPGetAction {
    /// Host to ask; the pod if unset.
    pub host: Option<String>,
    /// What to ask for.
    pub path: Option<String>,
    /// Port to ask.
    pub port: IntOrString,
}

/// The value of a [`HTTPGetAction`].
pub ghost struct HTTPGetActionView {
    pub host: Option<Seq<char>>,
    pub path: Option<Seq<char>>,
    pub port: IntOrStringView,
}

impl DeepView for HTTPGetAction {
    type V = HTTPGetActionView;

    open spec fn deep_view(&self) -> HTTPGetActionView {
        HTTPGetActionView {
            host: self.host.deep_view(),
            path: self.path.deep_view(),
            port: self.port.deep_view(),
        }
    }
}

impl View for HTTPGetAction {
    type V = HTTPGetActionView;

    open spec fn view(&self) -> HTTPGetActionView {
        self.deep_view()
    }
}

impl Model for HTTPGetAction {
    fn dup(&self) -> (r: Self) {
        HTTPGetAction {
            host: self.host.dup(),
            path: self.path.dup(),
            port: self.port.dup(),
        }
    }

    fn same(&self, other: &Self) -> (r: bool) {
        self.host.same(&other.host)
            && self.path.same(&other.path)
            && self.port.same(&other.port)
    }
}

/// Probe tells how well a container is.
#[derive(Debug, PartialEq)]
pub struct Probe {
    /// Set for a request.
    pub http_get: Option<HTTPGetAction>,
    /// How long to wait first.
    pub initial_delay_seconds: Option<i32>,
    /// How long to wait between tries.
    pub period_seconds: Option<i32>,
    /// Set for a connection.
    pub tcp_socket: Option<TCPSocketAction>,
}

/// The value of a [`Probe`].
pub ghost struct ProbeView {
    pub http_get: Option<HTTPGetActionView>,
    pub initial_delay_seconds: Option<i32>,
    pub period_seconds: Option<i32>,
    pub tcp_socket: Option<TCPSocketActionView>,
}

impl DeepView for Probe {
    type V = ProbeView;

    open spec fn deep_view(&self) -> ProbeView {
        ProbeView {
            http_get: self.http_get.deep_view(),
            initial_delay_seconds: self.initial_delay_seconds.deep_view(),
            period_seconds: self.period_seconds.deep_view(),
            tcp_socket: self.tcp_socket.deep_view(),
        }
    }
}

impl View for Probe {
    type V = ProbeView;

    open spec fn view(&self) -> ProbeView {
        self.deep_view()
    }
}

impl Model for Probe {
    fn dup(&self) -> (r: Self) {
        Probe {
            http_get: self.http_get.dup(),
            initial_delay_seconds: self.initial_delay_seconds.dup(),
            period_seconds: self.period_seconds.dup(),
            tcp_socket: self.tcp_socket.dup(),
        }
    }

    fn same(&self, other: &Self) -> (r: bool) {
        self.http_get.same(&other.http_get)
            && self.initial_delay_seconds.same(&other.initial_delay_seconds)
            && self.period_seconds.same(&other.period_seconds)
            && self.tcp_socket.same(&other.tcp_socket)
    }
}

impl ProbeView {
    /// The value with nothing set.
    pub open spec fn blank() -> ProbeView {
        ProbeView {
            http_get: None,
            initial_delay_seconds: None,
            period_seconds: None,
            tcp_socket: None,
        }
    }
}

impl Default for Probe {
    fn default() -> (r: Self)
        ensures
            r@ == ProbeView::blank(),
    {
        Probe {
            http_get: None,
            initial_delay_seconds: None,
            period_seconds: None,
            tcp_socket: None,
        }
    }
}

/// SecurityContext limits a container.
#[derive(Debug, PartialEq)]
pub struct SecurityContext {
    /// Whether a process may gain rights.
    pub allow_privilege_escalation: Option<bool>,
}

/// The value of a [`SecurityContext`].
pub ghost struct SecurityContextView {
    pub allow_privilege_escalation: Option<bool>,
}

impl DeepView for SecurityContext {
    type V = SecurityContextView;

    open spec fn deep_view(&self) -> SecurityContextView {
        SecurityContextView {
            allow_privilege_escalation: self.allow_privilege_escalation.deep_view(),
        }
    }
}

impl View for SecurityContext {
    type V = SecurityContextView;

    open spec fn view(&self) -> SecurityContextView {
        self.deep_view()
    }
}

impl Model for SecurityContext {
    fn dup(&self) -> (r: Self) {
        SecurityContext {
            allow_privilege_escalation: self.allow_privilege_escalation.dup(),
        }
    }

    fn same(&self, other: &Self) -> (r: bool) {
        self.allow_privilege_escalation.same(&other.allow_privilege_escalation)
    }
}

impl SecurityContextView {
    /// The value with nothing set.
    pub open spec fn blank() -> SecurityContextView {
        SecurityContextView {
            allow_privilege_escalation: None,
        }
    }
}

impl Default for SecurityContext {
    fn default() -> (r: Self)
        ensures
            r@ == SecurityContextView::blank(),
    {
        SecurityContext {
            allow_privilege_escalation: None,
        }
    }
}

/// ResourceRequirements is what a container asks for.
#[derive(Debug, PartialEq)]
pub struct ResourceRequirements {
    /// Amount by resource.
    pub requests: Option<KeyMap<String>>,
}

/// The value of a [`ResourceRequirements`].
pub ghost struct ResourceRequirementsView {
    pub requests: Option<Map<Seq<char>, Seq<char>>>,
}

impl DeepView for ResourceRequirements {
    type V = ResourceRequirementsView;

    open spec fn deep_view(&self) -> ResourceRequirementsView {
        ResourceRequirementsView {
            requests: self.requests.deep_view(),
        }
    }
}

impl View for ResourceRequirements {
    type V = ResourceRequirementsView;

    open spec fn view(&self) -> ResourceRequirementsView {
        self.deep_view()
    }
}

impl Model for ResourceRequirements {
    fn dup(&self) -> (r: Self) {
        ResourceRequirements {
            requests: self.requests.dup(),
        }
    }

    fn same(&self, other: &Self) -> (r: bool) {
        self.requests.same(&other.requests)
    }
}

impl ResourceRequirementsView {
    /// The value with nothing set.
    pub open spec fn blank() -> ResourceRequirementsView {
        ResourceRequirementsView {
            requests: None,
        }
    }
}

impl Default for ResourceRequirements {
    fn default() -> (r: Self)
        ensures
            r@ == ResourceRequirementsView::blank(),
    {
        ResourceRequirements {
            requests: None,
        }
    }
}

/// Container is a program that a pod runs.
#[derive(Debug, PartialEq)]
pub struct Container {
    /// Arguments of the command.
    pub args: Option<Vec<String>>,
    /// Command in place of the image's own.
    pub command: Option<Vec<String>>,
    /// Environment of the command.
    pub env: Option<Vec<EnvVar>>,
    /// Image to run.
    pub image: Option<String>,
    /// Restarts the container when it fails.
    pub liveness_probe: Option<Probe>,
    /// Name in the pod.
    pub name: String,
    /// Ports the container listens on.
    pub ports: Option<Vec<ContainerPort>>,
    /// Keeps traffic away when it fails.
    pub readiness_probe: Option<Probe>,
    /// What the container asks for.
    pub resources: Option<ResourceRequirements>,
    /// Limits of the container.
    pub security_context: Option<SecurityContext>,
    /// Holds the other probes until it succeeds.
    pub startup_probe: Option<Probe>,
    /// Volumes the container sees.
    pub volume_mounts: Option<Vec<VolumeMount>>,
    /// Directory the command starts in.
    pub working_dir: Option<String>,
}

/// The value of a [`Container`].
pub ghost struct ContainerView {
    pub args: Option<Seq<Seq<char>>>,
    pub command: Option<Seq<Seq<char>>>,
    pub env: Option<Seq<EnvVarView>>,
    pub image: Option<Seq<char>>,
    pub liveness_probe: Option<ProbeView>,
    pub name: Seq<char>,
    pub ports: Option<Seq<ContainerPortView>>,
    pub readiness_probe: Option<ProbeView>,
    pub resources: Option<ResourceRequirementsView>,
    pub security_context: Option<SecurityContextView>,
    pub startup_probe: Option<ProbeView>,
    pub volume_mounts: Option<Seq<VolumeMountView>>,
    pub working_dir: Option<Seq<char>>,
}

impl DeepView for Container {
    type V = ContainerView;

    open spec fn deep_view(&self) -> ContainerView {
        ContainerView {
            args: self.args.deep_view(),
            command: self.command.deep_view(),
            env: self.env.deep_view(),
            image: self.image.deep_view(),
            liveness_probe: self.liveness_probe.deep_view(),
            name: self.name.deep_view(),
            ports: self.ports.deep_view(),
            readiness_probe: self.readiness_probe.deep_view(),
            resources: self.resources.deep_view(),
            security_context: self.security_context.deep_view(),
            startup_probe: self.startup_probe.deep_view(),
            volume_mounts: self.volume_mounts.deep_view(),
            working_dir: self.working_dir.deep_view(),
        }
    }
}

impl View for Container {
    type V = ContainerView;

    open spec fn view(&self) -> ContainerView {
        self.deep_view()
    }
}

impl Model for Container {
    fn dup(&self) -> (r: Self) {
        Container {
            args: self.args.dup(),
            command: self.command.dup(),
            env: self.env.dup(),
            image: self.image.dup(),
            liveness_probe: self.liveness_probe.dup(),
            name: self.name.dup(),
            ports: self.ports.dup(),
            readiness_probe: self.readiness_probe.dup(),
            resources: self.resources.dup(),
            security_context: self.security_context.dup(),
            startup_probe: self.startup_probe.dup(),
            volume_mounts: self.volume_mounts.dup(),
            working_dir: self.working_dir.dup(),
        }
    }

    fn same(&self, other: &Self) -> (r: bool) {
        self.args.same(&other.args)
            && self.command.same(&other.command)
            && self.env.same(&other.env)
            && self.image.same(&other.image)
            && self.liveness_probe.same(&other.liveness_probe)
            && self.name.same(&other.name)
            && self.ports.same(&other.ports)
            && self.readiness_probe.same(&other.readiness_probe)
            && self.resources.same(&other.resources)
            && self.security_context.same(&other.security_context)
            && self.startup_probe.same(&other.startup_probe)
            && self.volume_mounts.same(&other.volume_mounts)
            && self.working_dir.same(&other.working_dir)
    }
}

impl ContainerView {
    /// The value with nothing set.
    pub open spec fn blank() -> ContainerView {
        ContainerView {
            args: None,
            command: None,
            env: None,
            image: None,
            liveness_probe: None,
            name: Seq::empty(),
            ports: None,
            readiness_probe: None,
            resources: None,
            security_context: None,
            startup_probe: None,
            volume_mounts: None,
            working_dir: None,
        }
    }
}

impl Default for Container {
    fn default() -> (r: Self)
        ensures
            r@ == ContainerView::blank(),
    {
        Container {
            args: None,
            command: None,
            env: None,
            image: None,
            liveness_probe: None,
            name: String::new(),
            ports: None,
            readiness_probe: None,
            resources: None,
            security_context: None,
            startup_probe: None,
            volume_mounts: None,
            working_dir: None,
        }
    }
}

/// PodSecurityContext limits all containers of a pod.
#[derive(Debug, PartialEq)]
pub struct PodSecurityContext {
    /// User the containers run as.
    pub run_as_user: Option<i64>,
}

/// The value of a [`PodSecurityContext`].
pub ghost struct PodSecurityContextView {
    pub run_as_user: Option<i64>,
}

impl DeepView for PodSecurityContext {
    type V = PodSecurityContextView;

    open spec fn deep_view(&self) -> PodSecurityContextView {
        PodSecurityContextView {
            run_as_user: self.run_as_user.deep_view(),
        }
    }
}

impl View for PodSecurityContext {
    type V = PodSecurityContextView;

    open spec fn view(&self) -> PodSecurityContextView {
        self.deep_view()
    }
}

impl Model for PodSecurityContext {
    fn dup(&self) -> (r: Self) {
        PodSecurityContext {
            run_as_user: self.run_as_user.dup(),
        }
    }

    fn same(&self, other: &Self) -> (r: bool) {
        self.run_as_user.same(&other.run_as_user)
    }
}

impl PodSecurityContextView {
    /// The value with nothing set.
    pub open spec fn blank() -> PodSecurityContextView {
        PodSecurityContextView {
            run_as_user: None,
        }
    }
}

impl Default for PodSecurityContext {
    fn default() -> (r: Self)
        ensures
            r@ == PodSecurityContextView::blank(),
    {
        PodSecurityContext {
            run_as_user: None,
        }
    }
}

/// PodSpec describes a pod.
#[derive(Debug, PartialEq)]
pub struct PodSpec {
    /// Programs to run.
    pub containers: Vec<Container>,
    /// Limits of the pod.
    pub security_context: Option<PodSecurityContext>,
    /// Whether containers see each other's processes.
    pub share_process_namespace: Option<bool>,
    /// How long containers have to stop.
    pub termination_grace_period_seconds: Option<i64>,
    /// Directories that containers can mount.
    pub volumes: Option<Vec<Volume>>,
}

/// The value of a [`PodSpec`].
pub ghost struct PodSpecView {
    pub containers: Seq<ContainerView>,
    pub security_context: Option<PodSecurityContextView>,
    pub share_process_namespace: Option<bool>,
    pub termination_grace_period_seconds: Option<i64>,
    pub volumes: Option<Seq<VolumeView>>,
}

impl DeepView for PodSpec {
    type V = PodSpecView;

    open spec fn deep_view(&self) -> PodSpecView {
        PodSpecView {
            containers: self.containers.deep_view(),
            security_context: self.security_context.deep_view(),
            share_process_namespace: self.share_process_namespace.deep_view(),
            termination_grace_period_seconds: self.termination_grace_period_seconds.deep_view(),
            volumes: self.volumes.deep_view(),
        }
    }
}

impl View for PodSpec {
    type V = PodSpecView;

    open spec fn view(&self) -> PodSpecView {
        self.deep_view()
    }
}

impl Model for PodSpec {
    fn dup(&self) -> (r: Self) {
        PodSpec {
            containers: self.containers.dup(),
            security_context: self.security_context.dup(),
            share_process_namespace: self.share_process_namespace.dup(),
            termination_grace_period_seconds: self.termination_grace_period_seconds.dup(),
            volumes: self.volumes.dup(),
        }
    }

    fn same(&self, other: &Self) -> (r: bool) {
        self.containers.same(&other.containers)
            && self.security_context.same(&other.security_context)
            && self.share_process_namespace.same(&other.share_process_namespace)
            && self.termination_grace_period_seconds.same(&other.termination_grace_period_seconds)
            && self.volumes.same(&other.volumes)
    }
}

impl PodSpecView {
    /// The value with nothing set.
    pub open spec fn blank() -> PodSpecView {
        PodSpecView {
            containers: Seq::empty(),
            security_context: None,
            share_process_namespace: None,
            termination_grace_period_seconds: None,
            volumes: None,
        }
    }
}

impl Default for PodSpec {
    fn default() -> (r: Self)
        ensures
            r@ == PodSpecView::blank(),
    {
        PodSpec {
            containers: none(),
            security_context: None,
            share_process_namespace: None,
            termination_grace_period_seconds: None,
            volumes: None,
        }
    }
}

/// PodTemplateSpec is what pods are made from.
#[derive(Debug, PartialEq)]
pub struct PodTemplateSpec {
    /// Metadata of the pods.
    pub metadata: Option<ObjectMeta>,
    /// What the pods run.
    pub spec: Option<PodSpec>,
}

/// The value of a [`PodTemplateSpec`].
pub ghost struct PodTemplateSpecView {
    pub metadata: Option<ObjectMetaView>,
    pub spec: Option<PodSpecView>,
}

impl DeepView for PodTemplateSpec {
    type V = PodTemplateSpecView;

    open spec fn deep_view(&self) -> PodTemplateSpecView {
        PodTemplateSpecView {
            metadata: self.metadata.deep_view(),
            spec: self.spec.deep_view(),
        }
    }
}

impl View for PodTemplateSpec {
    type V = PodTemplateSpecView;

    open spec fn view(&self) -> PodTemplateSpecView {
        self.deep_view()
    }
}

impl Model for PodTemplateSpec {
    fn dup(&self) -> (r: Self) {
        PodTemplateSpec {
            metadata: self.metadata.dup(),
            spec: self.spec.dup(),
        }
    }

    fn same(&self, other: &Self) -> (r: bool) {
        self.metadata.same(&other.metadata)
            && self.spec.same(&other.spec)
    }
}

impl PodTemplateSpecView {
    /// The value with nothing set.
    pub open spec fn blank() -> PodTemplateSpecView {
        PodTemplateSpecView {
            metadata: None,
            spec: None,
        }
    }
}

impl Default for PodTemplateSpec {
    fn default() -> (r: Self)
        ensures
            r@ == PodTemplateSpecView::blank(),
    {
        PodTemplateSpec {
            metadata: None,
            spec: None,
        }
    }
}

/// ServicePort is a port that a service offers.
#[derive(Debug, PartialEq)]
pub struct ServicePort {
    /// Name of the port.
    pub name: Option<String>,
    /// Number of the port.
    pub port: i32,
    /// Port of the pods behind it.
    pub target_port: Option<IntOrString>,
}

/// The value of a [`ServicePort`].
pub ghost struct ServicePortView {
    pub name: Option<Seq<char>>,
    pub port: i32,
    pub target_port: Option<IntOrStringView>,
}

impl DeepView for ServicePort {
    type V = ServicePortView;

    open spec fn deep_view(&self) -> ServicePortView {
        ServicePortView {
            name: self.name.deep_view(),
            port: self.port.deep_view(),
            target_port: self.target_port.deep_view(),
        }
    }
}

impl View for ServicePort {
    type V = ServicePortView;

    open spec fn view(&self) -> ServicePortView {
        self.deep_view()
    }
}

impl Model for ServicePort {
    fn dup(&self) -> (r: Self) {
        ServicePort {
            name: self.name.dup(),
            port: self.port.dup(),
            target_port: self.target_port.dup(),
        }
    }

    fn same(&self, other: &Self) -> (r: bool) {
        self.name.same(&other.name)
            && self.port.same(&other.port)
            && self.target_port.same(&other.target_port)
    }
}

impl ServicePortView {
    /// The value with nothing set.
    pub open spec fn blank() -> ServicePortView {
        ServicePortView {
            name: None,
            port: 0,
            target_port: None,
        }
    }
}

impl Default for ServicePort {
    fn default() -> (r: Self)
        ensures
            r@ == ServicePortView::blank(),
    {
        ServicePort {
            name: None,
            port: 0,
            target_port: None,
        }
    }
}

/// ServiceSpec describes a service.
#[derive(Debug, PartialEq)]
pub struct ServiceSpec {
    /// Ports the service offers.
    pub ports: Option<Vec<ServicePort>>,
    /// Labels of the pods behind it.
    pub selector: Option<KeyMap<String>>,
}

/// The value of a [`ServiceSpec`].
pub ghost struct ServiceSpecView {
    pub ports: Option<Seq<ServicePortView>>,
    pub selector: Option<Map<Seq<char>, Seq<char>>>,
}

impl DeepView for ServiceSpec {
    type V = ServiceSpecView;

    open spec fn deep_view(&self) -> ServiceSpecView {
        ServiceSpecView {
            ports: self.ports.deep_view(),
            selector: self.selector.deep_view(),
        }
    }
}

impl View for ServiceSpec {
    type V = ServiceSpecView;

    open spec fn view(&self) -> ServiceSpecView {
        self.deep_view()
    }
}

impl Model for ServiceSpec {
    fn dup(&self) -> (r: Self) {
        ServiceSpec {
            ports: self.ports.dup(),
            selector: self.selector.dup(),
        }
    }

    fn same(&self, other: &Self) -> (r: bool) {
        self.ports.same(&other.ports)
            && self.selector.same(&other.selector)
    }
}

impl ServiceSpecView {
    /// The value with nothing set.
    pub open spec fn blank() -> ServiceSpecView {
        ServiceSpecView {
            ports: None,
            selector: None,
        }
    }
}

impl Default for ServiceSpec {
    fn default() -> (r: Self)
        ensures
            r@ == ServiceSpecView::blank(),
    {
        ServiceSpec {
            ports: None,
            selector: None,
        }
    }
}

/// Service gives a set of pods one address.
#[derive(Debug, PartialEq)]
pub struct Service {
    /// Name and owner.
    pub metadata: ObjectMeta,
    /// What the service offers.
    pub spec: Option<ServiceSpec>,
}

/// The value of a [`Service`].
pub ghost struct ServiceView {
    pub metadata: ObjectMetaView,
    pub spec: Option<ServiceSpecView>,
}

impl DeepView for Service {
    type V = ServiceView;

    open spec fn deep_view(&self) -> ServiceView {
        ServiceView {
            metadata: self.metadata.deep_view(),
            spec: self.spec.deep_view(),
        }
    }
}

impl View for Service {
    type V = ServiceView;

    open spec fn view(&self) -> ServiceView {
        self.deep_view()
    }
}

impl Model for Service {
    fn dup(&self) -> (r: Self) {
        Service {
            metadata: self.metadata.dup(),
            spec: self.spec.dup(),
        }
    }

    fn same(&self, other: &Self) -> (r: bool) {
        self.metadata.same(&other.metadata)
            && self.spec.same(&other.spec)
    }
}

impl ServiceView {
    /// The value with nothing set.
    pub open spec fn blank() -> ServiceView {
        ServiceView {
            metadata: ObjectMetaView::blank(),
            spec: None,
        }
    }
}

impl Default for Service {
    fn default() -> (r: Self)
        ensures
            r@ == ServiceView::blank(),
    {
        Service {
            metadata: ObjectMeta::default(),
            spec: None,
        }
    }
}

/// ConfigMap holds configuration.
#[derive(Debug, PartialEq)]
pub struct ConfigMap {
    /// Values that are no text.
    pub binary_data: Option<KeyMap<Vec<u8>>>,
    /// Values that are text.
    pub data: Option<KeyMap<String>>,
    /// Name and owner.
    pub metadata: ObjectMeta,
}

/// The value of a [`ConfigMap`].
pub ghost struct ConfigMapView {
    pub binary_data: Option<Map<Seq<char>, Seq<u8>>>,
    pub data: Option<Map<Seq<char>, Seq<char>>>,
    pub metadata: ObjectMetaView,
}

impl DeepView for ConfigMap {
    type V = ConfigMapView;

    open spec fn deep_view(&self) -> ConfigMapView {
        ConfigMapView {
            binary_data: self.binary_data.deep_view(),
            data: self.data.deep_view(),
            metadata: self.metadata.deep_view(),
        }
    }
}

impl View for ConfigMap {
    type V = ConfigMapView;

    open spec fn view(&self) -> ConfigMapView {
        self.deep_view()
    }
}

impl Model for ConfigMap {
    fn dup(&self) -> (r: Self) {
        ConfigMap {
            binary_data: self.binary_data.dup(),
            data: self.data.dup(),
            metadata: self.metadata.dup(),
        }
    }

    fn same(&self, other: &Self) -> (r: bool) {
        self.binary_data.same(&other.binary_data)
            && self.data.same(&other.data)
            && self.metadata.same(&other.metadata)
    }
}

impl ConfigMapView {
    /// The value with nothing set.
    pub open spec fn blank() -> ConfigMapView {
        ConfigMapView {
            binary_data: None,
            data: None,
            metadata: ObjectMetaView::blank(),
        }
    }
}

impl Default for ConfigMap {
    fn default() -> (r: Self)
        ensures
            r@ == ConfigMapView::blank(),
    {
        ConfigMap {
            binary_data: None,
            data: None,
            metadata: ObjectMeta::default(),
        }
    }
}

/// Secret holds configuration that is not for everyone.
#[derive(Debug, PartialEq)]
pub struct Secret {
    /// Values.
    pub data: Option<KeyMap<Vec<u8>>>,
    /// Name and owner.
    pub metadata: ObjectMeta,
    /// Values as text, for writing.
    pub string_data: Option<KeyMap<String>>,
}

/// The value of a [`Secret`].
pub ghost struct SecretView {
    pub data: Option<Map<Seq<char>, Seq<u8>>>,
    pub metadata: ObjectMetaView,
    pub string_data: Option<Map<Seq<char>, Seq<char>>>,
}

impl DeepView for Secret {
    type V = SecretView;

    open spec fn deep_view(&self) -> SecretView {
        SecretView {
            data: self.data.deep_view(),
            metadata: self.metadata.deep_view(),
            string_data: self.string_data.deep_view(),
        }
    }
}

impl View for Secret {
    type V = SecretView;

    open spec fn view(&self) -> SecretView {
        self.deep_view()
    }
}

impl Model for Secret {
    fn dup(&self) -> (r: Self) {
        Secret {
            data: self.data.dup(),
            metadata: self.metadata.dup(),
            string_data: self.string_data.dup(),
        }
    }

    fn same(&self, other: &Self) -> (r: bool) {
        self.data.same(&other.data)
            && self.metadata.same(&other.metadata)
            && self.string_data.same(&other.string_data)
    }
}

impl SecretView {
    /// The value with nothing set.
    pub open spec fn blank() -> SecretView {
        SecretView {
            data: None,
            metadata: ObjectMetaView::blank(),
            string_data: None,
        }
    }
}

impl Default for Secret {
    fn default() -> (r: Self)
        ensures
            r@ == SecretView::blank(),
    {
        Secret {
            data: None,
            metadata: ObjectMeta::default(),
            string_data: None,
        }
    }
}

} // verus!
