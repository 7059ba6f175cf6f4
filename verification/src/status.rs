//! What the statuses and specs of all components have in common.

use vstd::prelude::*;

use crate::k8s::meta::{Condition, ConditionView};
use crate::k8s::pod::{TypedLocalObjectReference, TypedLocalObjectReferenceView};
use crate::keyed::{self, Keyed};
use crate::model::Model;
use crate::resource::{self, Resource};
use crate::v1alpha1::{
    ConfigSource, ConfigSourceView, IndexerSpec, IndexerSpecView, IndexerStatus, IndexerStatusView,
    MatcherSpec, MatcherSpecView, MatcherStatus, MatcherStatusView, NotifierSpec, NotifierSpecView,
    NotifierStatus, NotifierStatusView, UpdaterStatus, UpdaterStatusView,
};

verus! {

impl Keyed for Condition {
    open spec fn key_of(v: ConditionView) -> Seq<char> {
        v.type_
    }

    fn key(&self) -> (r: &String) {
        &self.type_
    }
}

impl Keyed for TypedLocalObjectReference {
    open spec fn key_of(v: TypedLocalObjectReferenceView) -> Seq<char> {
        v.kind
    }

    fn key(&self) -> (r: &String) {
        &self.kind
    }
}

/// The reference to an object that a status holds on to.
pub open spec fn ref_to<K: Resource>(obj: K::V) -> TypedLocalObjectReferenceView {
    TypedLocalObjectReferenceView {
        kind: K::kind_name(),
        api_group: Some(resource::group_version(K::group_name(), K::version_name())),
        name: K::metadata(obj).name->0,
    }
}

/// StatusCommon is common helpers for dealing with status objects.
pub trait StatusCommon: DeepView + Model {
    /// The conditions of a status.
    spec fn conditions_in(v: Self::V) -> Seq<ConditionView>;

    /// The status with other conditions.
    spec fn with_conditions(v: Self::V, cs: Seq<ConditionView>) -> Self::V;

    /// The references of a status.
    spec fn refs_in(v: Self::V) -> Seq<TypedLocalObjectReferenceView>;

    /// The status with other references.
    spec fn with_refs(v: Self::V, refs: Seq<TypedLocalObjectReferenceView>) -> Self::V;

    /// The status in which nothing is set.
    spec fn blank_status() -> Self::V;

    /// The conditions of the status.
    fn get_conditions(&self) -> (r: &Vec<Condition>)
        ensures
            r.deep_view() == Self::conditions_in(self.deep_view()),
    ;

    /// Replaces the conditions of the status.
    fn set_conditions(&mut self, cnd: Vec<Condition>)
        ensures
            final(self).deep_view() == Self::with_conditions(
                old(self).deep_view(),
                cnd.deep_view(),
            ),
    ;

    /// The references of the status.
    fn get_refs(&self) -> (r: &Vec<TypedLocalObjectReference>)
        ensures
            r.deep_view() == Self::refs_in(self.deep_view()),
    ;

    /// Replaces the references of the status.
    fn set_refs(&mut self, refs: Vec<TypedLocalObjectReference>)
        ensures
            final(self).deep_view() == Self::with_refs(old(self).deep_view(), refs.deep_view()),
    ;

    /// A status in which nothing is set.
    fn fresh() -> (r: Self)
        ensures
            r.deep_view() == Self::blank_status(),
    ;

    /// Add_condition adds a Condition, ensuring the list is deduplicated.
    fn add_condition(&mut self, cnd: Condition)
        ensures
            final(self).deep_view() == Self::with_conditions(
                old(self).deep_view(),
                keyed::put_in::<Condition>(Self::conditions_in(old(self).deep_view()), cnd@),
            ),
    {
        let out = keyed::put(self.get_conditions(), cnd);
        self.set_conditions(out);
    }

    /// Add_ref adds a reference to `obj`, ensuring the list is deduplicated.
    fn add_ref<K: Resource>(&mut self, obj: &K)
        requires
            K::metadata(obj.deep_view()).name is Some,
        ensures
            final(self).deep_view() == Self::with_refs(
                old(self).deep_view(),
                keyed::put_in::<TypedLocalObjectReference>(
                    Self::refs_in(old(self).deep_view()),
                    ref_to::<K>(obj.deep_view()),
                ),
            ),
    {
        let r = TypedLocalObjectReference {
            kind: K::kind().to_owned(),
            api_group: Some(K::api_version()),
            name: obj.meta().name.as_ref().unwrap().dup(),
        };
        let out = keyed::put(self.get_refs(), r);
        self.set_refs(out);
    }

    /// Has_ref returns the reference for the type `K`, if present.
    fn has_ref<K: Resource>(&self) -> (r: Option<TypedLocalObjectReference>)
        ensures
            r.deep_view() == keyed::found_in::<TypedLocalObjectReference>(
                Self::refs_in(self.deep_view()),
                K::kind_name(),
            ),
    {
        match keyed::find(self.get_refs(), K::kind()) {
            Some(r) => Some(r.dup()),
            None => None,
        }
    }
}

/// SubStatusCommon is helpers for the common "subresource" types.
pub trait SubStatusCommon: StatusCommon {
    /// The configuration of a status.
    spec fn config_in(v: Self::V) -> Option<ConfigSourceView>;

    /// The status with another configuration.
    spec fn with_config(v: Self::V, cfg: Option<ConfigSourceView>) -> Self::V;

    /// The configuration of the status.
    fn get_config(&self) -> (r: &Option<ConfigSource>)
        ensures
            r.deep_view() == Self::config_in(self.deep_view()),
    ;

    /// Replaces the configuration of the status.
    fn set_config(&mut self, cfg: Option<ConfigSource>)
        ensures
            final(self).deep_view() == Self::with_config(old(self).deep_view(), cfg.deep_view()),
    ;
}

/// SubSpecCommon is helpers for the common "subresource" types.
pub trait SubSpecCommon: DeepView + Model {
    /// The image of a spec.
    spec fn image_in(v: Self::V) -> Option<Seq<char>>;

    /// The configuration of a spec.
    spec fn config_in(v: Self::V) -> Option<ConfigSourceView>;

    /// The spec with another image and configuration.
    spec fn with_values(v: Self::V, img: Seq<char>, cfg: Option<ConfigSourceView>) -> Self::V;

    /// The image of the spec.
    fn get_image(&self) -> (r: &Option<String>)
        ensures
            r.deep_view() == Self::image_in(self.deep_view()),
    ;

    /// The configuration of the spec.
    fn get_config(&self) -> (r: &Option<ConfigSource>)
        ensures
            r.deep_view() == Self::config_in(self.deep_view()),
    ;

    /// Set_values sets the common parts of the spec.
    fn set_values(&mut self, img: &str, cfg: Option<ConfigSource>)
        ensures
            final(self).deep_view() == Self::with_values(
                old(self).deep_view(),
                img@,
                cfg.deep_view(),
            ),
    ;

    /// Image_default reports the desired image, or "img" if unspecified.
    fn image_default(&self, img: &str) -> (r: String)
        ensures
            r@ == (match Self::image_in(self.deep_view()) {
                Some(own) => own,
                None => img@,
            }),
    {
        match self.get_image() {
            Some(own) => own.dup(),
            None => img.to_owned(),
        }
    }
}

impl StatusCommon for IndexerStatus {
    open spec fn conditions_in(v: IndexerStatusView) -> Seq<ConditionView> {
        v.conditions
    }

    open spec fn with_conditions(
        v: IndexerStatusView,
        cs: Seq<ConditionView>,
    ) -> IndexerStatusView {
        IndexerStatusView { conditions: cs, ..v }
    }

    open spec fn refs_in(v: IndexerStatusView) -> Seq<TypedLocalObjectReferenceView> {
        v.refs
    }

    open spec fn with_refs(
        v: IndexerStatusView,
        refs: Seq<TypedLocalObjectReferenceView>,
    ) -> IndexerStatusView {
        IndexerStatusView { refs, ..v }
    }

    open spec fn blank_status() -> IndexerStatusView {
        IndexerStatusView::blank()
    }

    fn get_conditions(&self) -> (r: &Vec<Condition>) {
        &self.conditions
    }

    fn set_conditions(&mut self, cnd: Vec<Condition>) {
        self.conditions = cnd;
    }

    fn get_refs(&self) -> (r: &Vec<TypedLocalObjectReference>) {
        &self.refs
    }

    fn set_refs(&mut self, refs: Vec<TypedLocalObjectReference>) {
        self.refs = refs;
    }

    fn fresh() -> (r: Self) {
        Default::default()
    }
}

impl StatusCommon for MatcherStatus {
    open spec fn conditions_in(v: MatcherStatusView) -> Seq<ConditionView> {
        v.conditions
    }

    open spec fn with_conditions(
        v: MatcherStatusView,
        cs: Seq<ConditionView>,
    ) -> MatcherStatusView {
        MatcherStatusView { conditions: cs, ..v }
    }

    open spec fn refs_in(v: MatcherStatusView) -> Seq<TypedLocalObjectReferenceView> {
        v.refs
    }

    open spec fn with_refs(
        v: MatcherStatusView,
        refs: Seq<TypedLocalObjectReferenceView>,
    ) -> MatcherStatusView {
        MatcherStatusView { refs, ..v }
    }

    open spec fn blank_status() -> MatcherStatusView {
        MatcherStatusView::blank()
    }

    fn get_conditions(&self) -> (r: &Vec<Condition>) {
        &self.conditions
    }

    fn set_conditions(&mut self, cnd: Vec<Condition>) {
        self.conditions = cnd;
    }

    fn get_refs(&self) -> (r: &Vec<TypedLocalObjectReference>) {
        &self.refs
    }

    fn set_refs(&mut self, refs: Vec<TypedLocalObjectReference>) {
        self.refs = refs;
    }

    fn fresh() -> (r: Self) {
        Default::default()
    }
}

impl StatusCommon for NotifierStatus {
    open spec fn conditions_in(v: NotifierStatusView) -> Seq<ConditionView> {
        v.conditions
    }

    open spec fn with_conditions(
        v: NotifierStatusView,
        cs: Seq<ConditionView>,
    ) -> NotifierStatusView {
        NotifierStatusView { conditions: cs, ..v }
    }

    open spec fn refs_in(v: NotifierStatusView) -> Seq<TypedLocalObjectReferenceView> {
        v.refs
    }

    open spec fn with_refs(
        v: NotifierStatusView,
        refs: Seq<TypedLocalObjectReferenceView>,
    ) -> NotifierStatusView {
        NotifierStatusView { refs, ..v }
    }

    open spec fn blank_status() -> NotifierStatusView {
        NotifierStatusView::blank()
    }

    fn get_conditions(&self) -> (r: &Vec<Condition>) {
        &self.conditions
    }

    fn set_conditions(&mut self, cnd: Vec<Condition>) {
        self.conditions = cnd;
    }

    fn get_refs(&self) -> (r: &Vec<TypedLocalObjectReference>) {
        &self.refs
    }

    fn set_refs(&mut self, refs: Vec<TypedLocalObjectReference>) {
        self.refs = refs;
    }

    fn fresh() -> (r: Self) {
        Default::default()
    }
}

impl StatusCommon for UpdaterStatus {
    open spec fn conditions_in(v: UpdaterStatusView) -> Seq<ConditionView> {
        v.conditions
    }

    open spec fn with_conditions(
        v: UpdaterStatusView,
        cs: Seq<ConditionView>,
    ) -> UpdaterStatusView {
        UpdaterStatusView { conditions: cs, ..v }
    }

    open spec fn refs_in(v: UpdaterStatusView) -> Seq<TypedLocalObjectReferenceView> {
        v.refs
    }

    open spec fn with_refs(
        v: UpdaterStatusView,
        refs: Seq<TypedLocalObjectReferenceView>,
    ) -> UpdaterStatusView {
        UpdaterStatusView { refs, ..v }
    }

    open spec fn blank_status() -> UpdaterStatusView {
        UpdaterStatusView::blank()
    }

    fn get_conditions(&self) -> (r: &Vec<Condition>) {
        &self.conditions
    }

    fn set_conditions(&mut self, cnd: Vec<Condition>) {
        self.conditions = cnd;
    }

    fn get_refs(&self) -> (r: &Vec<TypedLocalObjectReference>) {
        &self.refs
    }

    fn set_refs(&mut self, refs: Vec<TypedLocalObjectReference>) {
        self.refs = refs;
    }

    fn fresh() -> (r: Self) {
        Default::default()
    }
}

impl SubStatusCommon for IndexerStatus {
    open spec fn config_in(v: IndexerStatusView) -> Option<ConfigSourceView> {
        v.config
    }

    open spec fn with_config(
        v: IndexerStatusView,
        cfg: Option<ConfigSourceView>,
    ) -> IndexerStatusView {
        IndexerStatusView { config: cfg, ..v }
    }

    fn get_config(&self) -> (r: &Option<ConfigSource>) {
        &self.config
    }

    fn set_config(&mut self, cfg: Option<ConfigSource>) {
        self.config = cfg;
    }
}

impl SubSpecCommon for IndexerSpec {
    open spec fn image_in(v: IndexerSpecView) -> Option<Seq<char>> {
        v.image
    }

    open spec fn config_in(v: IndexerSpecView) -> Option<ConfigSourceView> {
        v.config
    }

    open spec fn with_values(
        v: IndexerSpecView,
        img: Seq<char>,
        cfg: Option<ConfigSourceView>,
    ) -> IndexerSpecView {
        IndexerSpecView { image: Some(img), config: cfg, ..v }
    }

    fn get_image(&self) -> (r: &Option<String>) {
        &self.image
    }

    fn get_config(&self) -> (r: &Option<ConfigSource>) {
        &self.config
    }

    fn set_values(&mut self, img: &str, cfg: Option<ConfigSource>) {
        self.image = Some(img.to_owned());
        self.config = cfg;
    }
}

impl SubStatusCommon for MatcherStatus {
    open spec fn config_in(v: MatcherStatusView) -> Option<ConfigSourceView> {
        v.config
    }

    open spec fn with_config(
        v: MatcherStatusView,
        cfg: Option<ConfigSourceView>,
    ) -> MatcherStatusView {
        MatcherStatusView { config: cfg, ..v }
    }

    fn get_config(&self) -> (r: &Option<ConfigSource>) {
        &self.config
    }

    fn set_config(&mut self, cfg: Option<ConfigSource>) {
        self.config = cfg;
    }
}

impl SubSpecCommon for MatcherSpec {
    open spec fn image_in(v: MatcherSpecView) -> Option<Seq<char>> {
        v.image
    }

    open spec fn config_in(v: MatcherSpecView) -> Option<ConfigSourceView> {
        v.config
    }

    open spec fn with_values(
        v: MatcherSpecView,
        img: Seq<char>,
        cfg: Option<ConfigSourceView>,
    ) -> MatcherSpecView {
        MatcherSpecView { image: Some(img), config: cfg, ..v }
    }

    fn get_image(&self) -> (r: &Option<String>) {
        &self.image
    }

    fn get_config(&self) -> (r: &Option<ConfigSource>) {
        &self.config
    }

    fn set_values(&mut self, img: &str, cfg: Option<ConfigSource>) {
        self.image = Some(img.to_owned());
        self.config = cfg;
    }
}

impl SubStatusCommon for NotifierStatus {
    open spec fn config_in(v: NotifierStatusView) -> Option<ConfigSourceView> {
        v.config
    }

    open spec fn with_config(
        v: NotifierStatusView,
        cfg: Option<ConfigSourceView>,
    ) -> NotifierStatusView {
        NotifierStatusView { config: cfg, ..v }
    }

    fn get_config(&self) -> (r: &Option<ConfigSource>) {
        &self.config
    }

    fn set_config(&mut self, cfg: Option<ConfigSource>) {
        self.config = cfg;
    }
}

impl SubSpecCommon for NotifierSpec {
    open spec fn image_in(v: NotifierSpecView) -> Option<Seq<char>> {
        v.image
    }

    open spec fn config_in(v: NotifierSpecView) -> Option<ConfigSourceView> {
        v.config
    }

    open spec fn with_values(
        v: NotifierSpecView,
        img: Seq<char>,
        cfg: Option<ConfigSourceView>,
    ) -> NotifierSpecView {
        NotifierSpecView { image: Some(img), config: cfg, ..v }
    }

    fn get_image(&self) -> (r: &Option<String>) {
        &self.image
    }

    fn get_config(&self) -> (r: &Option<ConfigSource>) {
        &self.config
    }

    fn set_values(&mut self, img: &str, cfg: Option<ConfigSource>) {
        self.image = Some(img.to_owned());
        self.config = cfg;
    }
}

} // verus!
