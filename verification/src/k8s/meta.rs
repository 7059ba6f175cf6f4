//! Names, owners and conditions: what all objects share.

use vstd::prelude::*;

use crate::maps::KeyMap;
use crate::model::Model;

verus! {

/// OwnerReference names an object that another one belongs to.
#[derive(Debug, PartialEq)]
pub struct OwnerReference {
    /// Group and version of the owner.
    pub api_version: String,
    /// Kind of the owner.
    pub kind: String,
    /// Name of the owner.
    pub name: String,
    /// Unique ID of the owner.
    pub uid: String,
    /// Set for the one owner that manages the object.
    pub controller: Option<bool>,
    /// Set where the owner waits for the object to go first.
    pub block_owner_deletion: Option<bool>,
}

/// The value of an [`OwnerReference`].
pub ghost struct OwnerReferenceView {
    pub api_version: Seq<char>,
    pub kind: Seq<char>,
    pub name: Seq<char>,
    pub uid: Seq<char>,
    pub controller: Option<bool>,
    pub block_owner_deletion: Option<bool>,
}

impl DeepView for OwnerReference {
    type V = OwnerReferenceView;

    open spec fn deep_view(&self) -> OwnerReferenceView {
        OwnerReferenceView {
            api_version: self.api_version.deep_view(),
            kind: self.kind.deep_view(),
            name: self.name.deep_view(),
            uid: self.uid.deep_view(),
            controller: self.controller.deep_view(),
            block_owner_deletion: self.block_owner_deletion.deep_view(),
        }
    }
}

impl View for OwnerReference {
    type V = OwnerReferenceView;

    open spec fn view(&self) -> OwnerReferenceView {
        self.deep_view()
    }
}

impl Model for OwnerReference {
    fn dup(&self) -> (r: Self) {
        OwnerReference {
            api_version: self.api_version.dup(),
            kind: self.kind.dup(),
            name: self.name.dup(),
            uid: self.uid.dup(),
            controller: self.controller.dup(),
            block_owner_deletion: self.block_owner_deletion.dup(),
        }
    }

    fn same(&self, other: &Self) -> (r: bool) {
        self.api_version.same(&other.api_version)
            && self.kind.same(&other.kind)
            && self.name.same(&other.name)
            && self.uid.same(&other.uid)
            && self.controller.same(&other.controller)
            && self.block_owner_deletion.same(&other.block_owner_deletion)
    }
}

impl OwnerReferenceView {
    /// The value with nothing set.
    pub open spec fn blank() -> OwnerReferenceView {
        OwnerReferenceView {
            api_version: Seq::empty(),
            kind: Seq::empty(),
            name: Seq::empty(),
            uid: Seq::empty(),
            controller: None,
            block_owner_deletion: None,
        }
    }
}

impl Default for OwnerReference {
    fn default() -> (r: Self)
        ensures
            r@ == OwnerReferenceView::blank(),
    {
        OwnerReference {
            api_version: String::new(),
            kind: String::new(),
            name: String::new(),
            uid: String::new(),
            controller: None,
            block_owner_deletion: None,
        }
    }
}

/// ObjectMeta is the part of an object that is the same for all kinds.
#[derive(Debug, PartialEq)]
pub struct ObjectMeta {
    /// Name, unique for a kind in a namespace.
    pub name: Option<String>,
    /// Prefix for a name that the server picks.
    pub generate_name: Option<String>,
    /// Namespace the object lives in.
    pub namespace: Option<String>,
    /// Unique ID, given by the server.
    pub uid: Option<String>,
    /// Version of the object that was read.
    pub resource_version: Option<String>,
    /// Number of the desired state.
    pub generation: Option<i64>,
    /// Values to select objects by.
    pub labels: Option<KeyMap<String>>,
    /// Values for tools to keep.
    pub annotations: Option<KeyMap<String>>,
    /// Objects that this one belongs to.
    pub owner_references: Option<Vec<OwnerReference>>,
    /// What has to happen before the object may go.
    pub finalizers: Option<Vec<String>>,
}

/// The value of an [`ObjectMeta`].
pub ghost struct ObjectMetaView {
    pub name: Option<Seq<char>>,
    pub generate_name: Option<Seq<char>>,
    pub namespace: Option<Seq<char>>,
    pub uid: Option<Seq<char>>,
    pub resource_version: Option<Seq<char>>,
    pub generation: Option<i64>,
    pub labels: Option<Map<Seq<char>, Seq<char>>>,
    pub annotations: Option<Map<Seq<char>, Seq<char>>>,
    pub owner_references: Option<Seq<OwnerReferenceView>>,
    pub finalizers: Option<Seq<Seq<char>>>,
}

impl DeepView for ObjectMeta {
    type V = ObjectMetaView;

    open spec fn deep_view(&self) -> ObjectMetaView {
        ObjectMetaView {
            name: self.name.deep_view(),
            generate_name: self.generate_name.deep_view(),
            namespace: self.namespace.deep_view(),
            uid: self.uid.deep_view(),
            resource_version: self.resource_version.deep_view(),
            generation: self.generation.deep_view(),
            labels: self.labels.deep_view(),
            annotations: self.annotations.deep_view(),
            owner_references: self.owner_references.deep_view(),
            finalizers: self.finalizers.deep_view(),
        }
    }
}

impl View for ObjectMeta {
    type V = ObjectMetaView;

    open spec fn view(&self) -> ObjectMetaView {
        self.deep_view()
    }
}

impl Model for ObjectMeta {
    fn dup(&self) -> (r: Self) {
        ObjectMeta {
            name: self.name.dup(),
            generate_name: self.generate_name.dup(),
            namespace: self.namespace.dup(),
            uid: self.uid.dup(),
            resource_version: self.resource_version.dup(),
            generation: self.generation.dup(),
            labels: self.labels.dup(),
            annotations: self.annotations.dup(),
            owner_references: self.owner_references.dup(),
            finalizers: self.finalizers.dup(),
        }
    }

    fn same(&self, other: &Self) -> (r: bool) {
        self.name.same(&other.name)
            && self.generate_name.same(&other.generate_name)
            && self.namespace.same(&other.namespace)
            && self.uid.same(&other.uid)
            && self.resource_version.same(&other.resource_version)
            && self.generation.same(&other.generation)
            && self.labels.same(&other.labels)
            && self.annotations.same(&other.annotations)
            && self.owner_references.same(&other.owner_references)
            && self.finalizers.same(&other.finalizers)
    }
}

impl ObjectMetaView {
    /// The value with nothing set.
    pub open spec fn blank() -> ObjectMetaView {
        ObjectMetaView {
            name: None,
            generate_name: None,
            namespace: None,
            uid: None,
            resource_version: None,
            generation: None,
            labels: None,
            annotations: None,
            owner_references: None,
            finalizers: None,
        }
    }
}

impl Default for ObjectMeta {
    fn default() -> (r: Self)
        ensures
            r@ == ObjectMetaView::blank(),
    {
        ObjectMeta {
            name: None,
            generate_name: None,
            namespace: None,
            uid: None,
            resource_version: None,
            generation: None,
            labels: None,
            annotations: None,
            owner_references: None,
            finalizers: None,
        }
    }
}

/// LabelSelector picks objects by their labels.
#[derive(Debug, PartialEq)]
pub struct LabelSelector {
    /// Labels that an object must have.
    pub match_labels: Option<KeyMap<String>>,
}

/// The value of a [`LabelSelector`].
pub ghost struct LabelSelectorView {
    pub match_labels: Option<Map<Seq<char>, Seq<char>>>,
}

impl DeepView for LabelSelector {
    type V = LabelSelectorView;

    open spec fn deep_view(&self) -> LabelSelectorView {
        LabelSelectorView {
            match_labels: self.match_labels.deep_view(),
        }
    }
}

impl View for LabelSelector {
    type V = LabelSelectorView;

    open spec fn view(&self) -> LabelSelectorView {
        self.deep_view()
    }
}

impl Model for LabelSelector {
    fn dup(&self) -> (r: Self) {
        LabelSelector {
            match_labels: self.match_labels.dup(),
        }
    }

    fn same(&self, other: &Self) -> (r: bool) {
        self.match_labels.same(&other.match_labels)
    }
}

impl LabelSelectorView {
    /// The value with nothing set.
    pub open spec fn blank() -> LabelSelectorView {
        LabelSelectorView {
            match_labels: None,
        }
    }
}

impl Default for LabelSelector {
    fn default() -> (r: Self)
        ensures
            r@ == LabelSelectorView::blank(),
    {
        LabelSelector {
            match_labels: None,
        }
    }
}

/// Time is a moment, counted from the start of 1970.
#[derive(Debug, PartialEq)]
pub struct Time {
    /// Whole seconds.
    pub second: i64,
    /// What is left, in billionths of a second.
    pub nanosecond: i32,
}

/// The value of a [`Time`].
pub ghost struct TimeView {
    pub second: i64,
    pub nanosecond: i32,
}

impl DeepView for Time {
    type V = TimeView;

    open spec fn deep_view(&self) -> TimeView {
        TimeView {
            second: self.second.deep_view(),
            nanosecond: self.nanosecond.deep_view(),
        }
    }
}

impl View for Time {
    type V = TimeView;

    open spec fn view(&self) -> TimeView {
        self.deep_view()
    }
}

impl Model for Time {
    fn dup(&self) -> (r: Self) {
        Time {
            second: self.second.dup(),
            nanosecond: self.nanosecond.dup(),
        }
    }

    fn same(&self, other: &Self) -> (r: bool) {
        self.second.same(&other.second)
            && self.nanosecond.same(&other.nanosecond)
    }
}

impl TimeView {
    /// The value with nothing set.
    pub open spec fn blank() -> TimeView {
        TimeView {
            second: 0,
            nanosecond: 0,
        }
    }
}

impl Default for Time {
    fn default() -> (r: Self)
        ensures
            r@ == TimeView::blank(),
    {
        Time {
            second: 0,
            nanosecond: 0,
        }
    }
}

/// Condition is one aspect of an object's observed state.
#[derive(Debug, PartialEq)]
pub struct Condition {
    /// Name of the aspect.
    pub type_: String,
    /// "True", "False" or "Unknown".
    pub status: String,
    /// Generation that the condition was seen for.
    pub observed_generation: Option<i64>,
    /// When the status last changed.
    pub last_transition_time: Time,
    /// A word for why.
    pub reason: String,
    /// A sentence for people.
    pub message: String,
}

/// The value of a [`Condition`].
pub ghost struct ConditionView {
    pub type_: Seq<char>,
    pub status: Seq<char>,
    pub observed_generation: Option<i64>,
    pub last_transition_time: TimeView,
    pub reason: Seq<char>,
    pub message: Seq<char>,
}

impl DeepView for Condition {
    type V = ConditionView;

    open spec fn deep_view(&self) -> ConditionView {
        ConditionView {
            type_: self.type_.deep_view(),
            status: self.status.deep_view(),
            observed_generation: self.observed_generation.deep_view(),
            last_transition_time: self.last_transition_time.deep_view(),
            reason: self.reason.deep_view(),
            message: self.message.deep_view(),
        }
    }
}

impl View for Condition {
    type V = ConditionView;

    open spec fn view(&self) -> ConditionView {
        self.deep_view()
    }
}

impl Model for Condition {
    fn dup(&self) -> (r: Self) {
        Condition {
            type_: self.type_.dup(),
            status: self.status.dup(),
            observed_generation: self.observed_generation.dup(),
            last_transition_time: self.last_transition_time.dup(),
            reason: self.reason.dup(),
            message: self.message.dup(),
        }
    }

    fn same(&self, other: &Self) -> (r: bool) {
        self.type_.same(&other.type_)
            && self.status.same(&other.status)
            && self.observed_generation.same(&other.observed_generation)
            && self.last_transition_time.same(&other.last_transition_time)
            && self.reason.same(&other.reason)
            && self.message.same(&other.message)
    }
}

impl ConditionView {
    /// The value with nothing set.
    pub open spec fn blank() -> ConditionView {
        ConditionView {
            type_: Seq::empty(),
            status: Seq::empty(),
            observed_generation: None,
            last_transition_time: TimeView::blank(),
            reason: Seq::empty(),
            message: Seq::empty(),
        }
    }
}

impl Default for Condition {
    fn default() -> (r: Self)
        ensures
            r@ == ConditionView::blank(),
    {
        Condition {
            type_: String::new(),
            status: String::new(),
            observed_generation: None,
            last_transition_time: Time::default(),
            reason: String::new(),
            message: String::new(),
        }
    }
}

/// IntOrString is a number or a name for one.
#[derive(Debug, PartialEq)]
pub enum IntOrString {
    /// A number.
    Int(i32),
    /// A name.
    String(String),
}

/// The value of an [`IntOrString`].
pub ghost enum IntOrStringView {
    Int(i32),
    String(Seq<char>),
}

impl DeepView for IntOrString {
    type V = IntOrStringView;

    open spec fn deep_view(&self) -> IntOrStringView {
        match self {
            IntOrString::Int(v) => IntOrStringView::Int(v.deep_view()),
            IntOrString::String(v) => IntOrStringView::String(v.deep_view()),
        }
    }
}

impl View for IntOrString {
    type V = IntOrStringView;

    open spec fn view(&self) -> IntOrStringView {
        self.deep_view()
    }
}

impl Model for IntOrString {
    fn dup(&self) -> (r: Self) {
        match self {
            IntOrString::Int(v) => IntOrString::Int(v.dup()),
            IntOrString::String(v) => IntOrString::String(v.dup()),
        }
    }

    fn same(&self, other: &Self) -> (r: bool) {
        match (self, other) {
            (IntOrString::Int(a), IntOrString::Int(b)) => a.same(b),
            (IntOrString::String(a), IntOrString::String(b)) => a.same(b),
            _ => false,
        }
    }
}

} // verus!
