//! Subresource decides what the controllers of the components do next.

use vstd::prelude::*;

use crate::assets::subordinate_name;
use crate::clairs::Requeue;
use crate::event::{Event, EventType, EventView};
use crate::k8s::meta::{
    Condition, ConditionView, LabelSelector, LabelSelectorView, ObjectMeta, ObjectMetaView,
    OwnerReference, OwnerReferenceView, Time, TimeView,
};
use crate::k8s::pod::{
    ConfigMap, ConfigMapView, Container, ContainerView, EnvVar, EnvVarView, PodSpec, PodSpecView,
    PodTemplateSpec, PodTemplateSpecView, Service, ServiceView, TypedLocalObjectReference, Volume,
    VolumeMount, VolumeMountView, VolumeView,
};
use crate::k8s::workload::{
    CrossVersionObjectReference, CrossVersionObjectReferenceView, Deployment, DeploymentSpec,
    DeploymentSpecView, DeploymentView, HorizontalPodAutoscaler, HorizontalPodAutoscalerSpec,
    HorizontalPodAutoscalerSpecView, HorizontalPodAutoscalerView,
};
use crate::keyed::{self, Keyed};
use crate::labels::{self, clair_condition, dashed};
use crate::maps::KeyMap;
use crate::model::{extend, none, push, Model};
use crate::mounts::{
    config_mounts, config_path, config_volumes, is_mountable, make_volumes,
};
use crate::resource::{self, Resource};
use crate::status::{ref_to, StatusCommon, SubStatusCommon};
use crate::templates::container::env_var;
use crate::text;
use crate::v1alpha1::{
    config_map_dropin, ConfigMapKeySelector, ConfigMapKeySelectorView, ConfigSource,
    ConfigSourceView, DropinSource, DropinSourceView,
};

verus! {

/// HookResult is returned from a Hook.
#[derive(Clone, Copy, Debug, PartialEq, Eq, Structural)]
pub enum HookResult {
    /// Continue indicates that the "standard" function should be run.
    Continue,
    /// Return indicates that the function should return a result immediately.
    Return(bool),
}

/// Hook indicates which Hook.
#[derive(Clone, Copy, Debug, PartialEq, Eq, Structural)]
pub enum Hook {
    /// Hook the `check_dropin` step.
    Dropin,
    /// Hook the `check_config` step.
    Config,
    /// Hook the `check_deployment` step.
    Deployment,
    /// Hook the `check_service` step.
    Service,
    /// Hook the `check_hpa` step.
    HPA,
    /// Hook the `check_creation` step.
    Creation,
}

/// Says what a step gives without being run: what its hook says, if there is one and it says
/// something.
pub fn hooked(hook: Option<HookResult>) -> (r: Option<bool>)
    ensures
        r == (match hook {
            Some(HookResult::Return(res)) => Some(res),
            _ => None,
        }),
{
    match hook {
        Some(HookResult::Return(res)) => Some(res),
        _ => None,
    }
}

impl Hook {
    /// The place of a step among the steps.
    pub open spec fn place(self) -> int {
        match self {
            Hook::Dropin => 0,
            Hook::Config => 1,
            Hook::Deployment => 2,
            Hook::Service => 3,
            Hook::HPA => 4,
            Hook::Creation => 5,
        }
    }

    /// The first step.
    pub fn first() -> (r: Hook)
        ensures
            r.place() == 0,
    {
        Hook::Dropin
    }

    /// Says which step follows one that gave a result. A step that gives `false` is the last.
    pub fn next(self, cont: bool) -> (r: Option<Hook>)
        ensures
            match r {
                Some(next) => cont && next.place() == self.place() + 1,
                None => !cont || self.place() == 5,
            },
    {
        if !cont {
            return None;
        }
        match self {
            Hook::Dropin => Some(Hook::Config),
            Hook::Config => Some(Hook::Deployment),
            Hook::Deployment => Some(Hook::Service),
            Hook::Service => Some(Hook::HPA),
            Hook::HPA => Some(Hook::Creation),
            Hook::Creation => None,
        }
    }
}

/// Every step has a place of its own, so the steps run in one order.
pub proof fn steps_have_places(a: Hook, b: Hook)
    ensures
        a.place() == b.place() <==> a == b,
        0 <= a.place() <= 5,
{
}

/// The name of a component: its kind in lower case.
pub open spec fn component_of<O: Resource>() -> Seq<char> {
    text::lower(O::kind_name())
}

/// The name of an object of a kind that belongs to a component: the one its status refers to, or
/// else the usual one.
pub open spec fn looked_up<O: Resource, T: Resource, S: StatusCommon>(
    obj: O::V,
    status: Option<S::V>,
) -> Seq<char> {
    let known = match status {
        Some(s) => keyed::found_in::<TypedLocalObjectReference>(S::refs_in(s), T::kind_name()),
        None => None,
    };
    match known {
        Some(r) => r.name,
        None => subordinate_name::<O>(obj),
    }
}

/// The name of an object of a kind that belongs to a component.
pub fn lookup_name<O: Resource, T: Resource, S: StatusCommon>(obj: &O, status: &Option<S>) -> (r:
    String)
    ensures
        r@ == looked_up::<O, T, S>(obj.deep_view(), status.deep_view()),
{
    let known = match status {
        Some(s) => s.has_ref::<T>(),
        None => None,
    };
    match known {
        Some(r) => r.name,
        None => text::cat3(obj.name_any().as_str(), "-", text::to_lower(O::kind()).as_str()),
    }
}

/// A condition of a component at its present generation.
pub open spec fn component_condition<O: Resource>(
    obj: O::V,
    type_: Seq<char>,
    status: Seq<char>,
    reason: Seq<char>,
    message: Seq<char>,
    now: TimeView,
) -> ConditionView {
    ConditionView {
        type_: "projectclair.io/"@ + dashed(type_),
        status,
        observed_generation: O::metadata(obj).generation,
        last_transition_time: now,
        reason,
        message,
    }
}

/// A condition of a component at its present generation.
pub(crate) fn make_condition<O: Resource>(
    obj: &O,
    type_: &str,
    status: &str,
    reason: &str,
    message: &str,
    now: Time,
) -> (r: Condition)
    ensures
        r@ == component_condition::<O>(
            obj.deep_view(),
            type_@,
            status@,
            reason@,
            message@,
            now@,
        ),
{
    Condition {
        type_: clair_condition(type_),
        status: status.to_owned(),
        observed_generation: obj.meta().generation,
        last_transition_time: now,
        reason: reason.to_owned(),
        message: message.to_owned(),
    }
}

/// The status that a reconciliation starts from.
pub open spec fn starting_status<S: StatusCommon>(status: Option<S::V>) -> S::V {
    match status {
        Some(s) => s,
        None => S::blank_status(),
    }
}

/// The status with a condition put in.
pub open spec fn conditioned<S: StatusCommon>(v: S::V, cnd: ConditionView) -> S::V {
    S::with_conditions(v, keyed::put_in::<Condition>(S::conditions_in(v), cnd))
}

/// The event for a spec without a configuration.
pub open spec fn config_missing() -> EventView {
    EventView {
        type_: EventType::Warning,
        reason: "Initialization"@,
        note: Some("missing field \"/spec/config\""@),
        action: "CheckConfig"@,
        secondary: None,
    }
}

/// Says what a check of the spec leads to: the status to go on with, and an event if there is no
/// configuration. With an event the reconciliation ends there.
pub fn check_spec<O: Resource, S: StatusCommon>(
    obj: &O,
    config: &Option<ConfigSource>,
    status: &Option<S>,
    now: Time,
) -> (r: (S, Option<Event>))
    ensures
        ({
            let start = starting_status::<S>(status.deep_view());
            if config is None {
                &&& r.0.deep_view() == conditioned::<S>(
                    start,
                    component_condition::<O>(
                        obj.deep_view(),
                        "SpecOK"@,
                        "False"@,
                        "SpecIncomplete"@,
                        "\"/spec/config\" missing"@,
                        now@,
                    ),
                )
                &&& r.1.deep_view() == Some(config_missing())
            } else {
                &&& r.0.deep_view() == conditioned::<S>(
                    start,
                    component_condition::<O>(
                        obj.deep_view(),
                        "SpecOK"@,
                        "True"@,
                        "SpecComplete"@,
                        ""@,
                        now@,
                    ),
                )
                &&& r.1 is None
            }
        }),
{
    let mut next = match status {
        Some(s) => s.dup(),
        None => S::fresh(),
    };
    if config.is_none() {
        let ev = Event {
            type_: EventType::Warning,
            reason: "Initialization".to_owned(),
            note: Some("missing field \"/spec/config\"".to_owned()),
            action: "CheckConfig".to_owned(),
            secondary: None,
        };
        next.add_condition(
            make_condition(
                obj,
                "SpecOK",
                "False",
                "SpecIncomplete",
                "\"/spec/config\" missing",
                now,
            ),
        );
        return (next, Some(ev));
    }
    next.add_condition(make_condition(obj, "SpecOK", "True", "SpecComplete", "", now));
    (next, None)
}

/// How often a write is tried.
pub const MAX_ATTEMPTS: u32 = 3;

/// What came of an attempt to update a status.
#[derive(Debug, PartialEq)]
pub enum Published {
    /// It was updated, and this is the version now.
    Version(Option<String>),
    /// It was not updated.
    Failed,
}

/// Says what to do after an attempt to update a status: nothing tells to try again.
///
/// When no attempt worked, or the version is unknown, the object is due again soon. If the version
/// did not change, it is due in an hour. Otherwise the change will come back by itself.
pub fn publish(attempt: u32, prev: &str, outcome: &Published) -> (r: Option<Requeue>)
    ensures
        r == (match outcome {
            Published::Version(Some(cur)) => Some(
                if cur@ == prev@ {
                    Requeue::After(3600000)
                } else {
                    Requeue::AwaitChange
                },
            ),
            Published::Version(None) => Some(Requeue::After(5000)),
            Published::Failed => if attempt < 3 {
                None
            } else {
                Some(Requeue::After(5000))
            },
        }),
{
    match outcome {
        Published::Version(Some(cur)) => if text::same(cur.as_str(), prev) {
            Some(Requeue::After(3600000))
        } else {
            Some(Requeue::AwaitChange)
        },
        Published::Version(None) => Some(Requeue::After(5000)),
        Published::Failed => if attempt < MAX_ATTEMPTS {
            None
        } else {
            Some(Requeue::After(5000))
        },
    }
}

/// When to look again if a reconciliation failed: when the object changes.
pub fn handle_error() -> (r: Requeue)
    ensures
        r == Requeue::AwaitChange,
{
    Requeue::AwaitChange
}

/// What came of an attempt to write an object.
#[derive(Clone, Copy, Debug, PartialEq, Eq, Structural)]
pub enum Commit {
    /// It was written.
    Saved,
    /// It was found invalid before it was sent.
    Invalid,
    /// It was sent and not taken.
    Failed,
}

/// What to do after an attempt to write an object.
#[derive(Clone, Copy, Debug, PartialEq, Eq, Structural)]
pub enum Attempt {
    /// Try again, for the time with that number.
    Again(u32),
    /// The step is over and gives that result.
    Stop(bool),
    /// The reconciliation failed.
    Fail,
}

/// What follows when an object was found invalid.
pub open spec fn after_invalid(attempt: u32) -> Attempt {
    if attempt < 3 {
        Attempt::Again((attempt + 1) as u32)
    } else {
        Attempt::Stop(false)
    }
}

/// Says what follows an attempt to write a deployment. A deployment that took all attempts counts
/// as not done.
pub fn deployment_written(attempt: u32, commit: Commit) -> (r: Attempt)
    ensures
        r == (match commit {
            Commit::Saved => Attempt::Stop(attempt != 3),
            Commit::Invalid => after_invalid(attempt),
            Commit::Failed => Attempt::Fail,
        }),
{
    match commit {
        Commit::Saved => Attempt::Stop(attempt != MAX_ATTEMPTS),
        Commit::Invalid => if attempt < MAX_ATTEMPTS {
            Attempt::Again(attempt + 1)
        } else {
            Attempt::Stop(false)
        },
        Commit::Failed => Attempt::Fail,
    }
}

/// Says what follows an attempt to write a service or an autoscaler.
pub fn object_written(attempt: u32, commit: Commit) -> (r: Attempt)
    ensures
        r == (match commit {
            Commit::Saved => Attempt::Stop(true),
            Commit::Invalid => after_invalid(attempt),
            Commit::Failed => Attempt::Fail,
        }),
{
    match commit {
        Commit::Saved => Attempt::Stop(true),
        Commit::Invalid => if attempt < MAX_ATTEMPTS {
            Attempt::Again(attempt + 1)
        } else {
            Attempt::Stop(false)
        },
        Commit::Failed => Attempt::Fail,
    }
}

/// The owner that manages an object: the first that says so.
pub open spec fn manager_place(refs: Seq<OwnerReferenceView>, i: int) -> int
    decreases refs.len() - i,
{
    if i >= refs.len() || refs[i].controller == Some(true) {
        i
    } else {
        manager_place(refs, i + 1)
    }
}

/// The owner that manages an object.
pub open spec fn managing_owner(meta: ObjectMetaView) -> Option<OwnerReferenceView> {
    match meta.owner_references {
        Some(refs) => if manager_place(refs, 0) < refs.len() {
            Some(refs[manager_place(refs, 0)])
        } else {
            None
        },
        None => None,
    }
}

/// The owner that manages an object. Without one there is no configuration to keep.
pub fn dropin_owner(meta: &ObjectMeta) -> (r: Option<&OwnerReference>)
    ensures
        match r {
            Some(owner) => managing_owner(meta@) == Some(owner@),
            None => managing_owner(meta@) is None,
        },
{
    let refs = match &meta.owner_references {
        Some(refs) => refs,
        None => return None,
    };
    let ghost all = refs.deep_view();
    let mut i: usize = 0;
    while i < refs.len()
        invariant
            all == refs.deep_view(),
            meta@.owner_references == Some(all),
            i <= refs@.len(),
            manager_place(all, 0) == manager_place(all, i as int),
        decreases refs.len() - i,
    {
        assert(all[i as int] == refs@[i as int]@);
        if let Some(true) = refs[i].controller {
            return Some(&refs[i]);
        }
        i = i + 1;
    }
    None
}

/// Says what a new drop-in map holds: under the key of the drop-in, the name of the service.
pub fn new_dropin_map(cm: ConfigMap, key: &str, service: &str) -> (r: ConfigMap)
    ensures
        r@ == (ConfigMapView {
            data: Some(
                match cm@.data {
                    Some(data) => data.insert(key@, service@),
                    None => Map::empty().insert(key@, service@),
                },
            ),
            ..cm@
        }),
{
    let mut data = match cm.data {
        Some(data) => data,
        None => KeyMap::new(),
    };
    data.insert(key.to_owned(), service.to_owned());
    ConfigMap { data: Some(data), binary_data: cm.binary_data, metadata: cm.metadata }
}

/// Where the check of a drop-in is.
#[derive(Debug, PartialEq)]
pub enum DropinCheck {
    /// The map has to be read, for the time with that number.
    FetchMap(u32),
    /// The map has to be written; the drop-in is in that key.
    SaveMap(u32, String),
    /// The owner has to be read.
    FetchOwner(u32, String),
    /// The owner has to be written.
    SaveOwner(u32),
    /// The check is over and gives that result.
    Finished(bool),
    /// The reconciliation failed.
    Failed,
}

/// The value of a [`DropinCheck`].
pub ghost enum DropinCheckView {
    FetchMap(u32),
    SaveMap(u32, Seq<char>),
    FetchOwner(u32, Seq<char>),
    SaveOwner(u32),
    Finished(bool),
    Failed,
}

impl View for DropinCheck {
    type V = DropinCheckView;

    open spec fn view(&self) -> DropinCheckView {
        match self {
            DropinCheck::FetchMap(n) => DropinCheckView::FetchMap(*n),
            DropinCheck::SaveMap(n, key) => DropinCheckView::SaveMap(*n, key@),
            DropinCheck::FetchOwner(n, key) => DropinCheckView::FetchOwner(*n, key@),
            DropinCheck::SaveOwner(n) => DropinCheckView::SaveOwner(*n),
            DropinCheck::Finished(res) => DropinCheckView::Finished(*res),
            DropinCheck::Failed => DropinCheckView::Failed,
        }
    }
}

impl DropinCheckView {
    /// How much there is left to do at most, in steps.
    pub open spec fn budget(self) -> int {
        match self {
            DropinCheckView::FetchMap(n) => 4 * (4 - n),
            DropinCheckView::SaveMap(n, _) => 4 * (4 - n) - 1,
            DropinCheckView::FetchOwner(n, _) => 4 * (4 - n) - 2,
            DropinCheckView::SaveOwner(n) => 4 * (4 - n) - 3,
            DropinCheckView::Finished(_) => 0,
            DropinCheckView::Failed => 0,
        }
    }

    /// The number of the attempt is one of those that there are.
    pub open spec fn in_bounds(self) -> bool {
        match self {
            DropinCheckView::FetchMap(n) => 1 <= n <= 3,
            DropinCheckView::SaveMap(n, _) => 1 <= n <= 3,
            DropinCheckView::FetchOwner(n, _) => 1 <= n <= 3,
            DropinCheckView::SaveOwner(n) => 1 <= n <= 3,
            _ => true,
        }
    }

    /// What follows when an attempt has to be made again.
    pub open spec fn retried(attempt: u32) -> DropinCheckView {
        if attempt < 3 {
            DropinCheckView::FetchMap((attempt + 1) as u32)
        } else {
            DropinCheckView::Finished(false)
        }
    }

    /// What follows once the map was read: nothing if no drop-in is managed in it.
    pub open spec fn after_map(attempt: u32, cm: ConfigMapView) -> DropinCheckView {
        match managed_key(cm) {
            Some(key) => DropinCheckView::SaveMap(attempt, key),
            None => DropinCheckView::Finished(true),
        }
    }

    /// What follows once the map was written.
    pub open spec fn after_map_write(
        attempt: u32,
        key: Seq<char>,
        commit: Commit,
    ) -> DropinCheckView {
        match commit {
            Commit::Saved => DropinCheckView::FetchOwner(attempt, key),
            Commit::Invalid => DropinCheckView::retried(attempt),
            Commit::Failed => DropinCheckView::Failed,
        }
    }

    /// What follows once the owner was read. Without an owner it is tried again.
    pub open spec fn after_owner(
        attempt: u32,
        dropins: Option<Seq<DropinSourceView>>,
        selector: ConfigMapKeySelectorView,
    ) -> DropinCheckView {
        match dropins {
            None => DropinCheckView::retried(attempt),
            Some(dropins) => if refers_to(dropins, selector) {
                DropinCheckView::Finished(true)
            } else {
                DropinCheckView::SaveOwner(attempt)
            },
        }
    }

    /// What follows once the owner was written.
    pub open spec fn after_owner_write(attempt: u32, commit: Commit) -> DropinCheckView {
        match commit {
            Commit::Saved => DropinCheckView::Finished(true),
            Commit::Invalid => DropinCheckView::retried(attempt),
            Commit::Failed => DropinCheckView::Failed,
        }
    }
}

/// The key of a map that holds the managed drop-in.
pub open spec fn managed_key(cm: ConfigMapView) -> Option<Seq<char>> {
    match cm.metadata.annotations {
        Some(annotations) => if annotations.dom().contains(labels::dropin_label_name()) {
            Some(annotations[labels::dropin_label_name()])
        } else {
            None
        },
        None => None,
    }
}

/// The event for a map that lacks the key it is annotated with.
pub open spec fn key_missing(cm: ConfigMapView, key: Seq<char>) -> EventView {
    EventView {
        action: "ReconcileConfig"@,
        reason: "Reconcile"@,
        note: Some("missing expected key: "@ + key),
        secondary: Some(
            resource::object_ref_of(
                resource::group_version(ConfigMap::group_name(), ConfigMap::version_name()),
                ConfigMap::kind_name(),
                cm.metadata,
            ),
        ),
        type_: EventType::Warning,
    }
}

/// The event for a map, if something is wrong with it.
pub open spec fn map_event(cm: ConfigMapView) -> Option<EventView> {
    match (managed_key(cm), cm.data) {
        (Some(key), Some(data)) => if data.dom().contains(key) {
            None
        } else {
            Some(key_missing(cm, key))
        },
        _ => None,
    }
}

/// Some drop-in is found under the selector.
pub open spec fn refers_to(
    dropins: Seq<DropinSourceView>,
    selector: ConfigMapKeySelectorView,
) -> bool {
    exists|i: int|
        0 <= i < dropins.len() && (#[trigger] dropins[i]).config_map_key_ref == Some(selector)
}

/// The drop-ins of an owner, which refer to the managed one in the end.
pub open spec fn with_managed(
    dropins: Seq<DropinSourceView>,
    selector: ConfigMapKeySelectorView,
) -> Seq<DropinSourceView> {
    if refers_to(dropins, selector) {
        dropins
    } else {
        dropins.push(config_map_dropin(selector.name, selector.key))
    }
}

/// Reports whether some drop-in is found under the selector.
fn names_selector(dropins: &Vec<DropinSource>, selector: &ConfigMapKeySelector) -> (r: bool)
    ensures
        r == refers_to(dropins.deep_view(), selector@),
{
    let ghost all = dropins.deep_view();
    let mut i: usize = 0;
    while i < dropins.len()
        invariant
            all == dropins.deep_view(),
            i <= dropins@.len(),
            forall|j: int|
                0 <= j < i ==> (#[trigger] all[j]).config_map_key_ref != Some(selector@),
        decreases dropins.len() - i,
    {
        assert(all[i as int] == dropins@[i as int]@);
        if let Some(r) = &dropins[i].config_map_key_ref {
            if r.same(selector) {
                return true;
            }
        }
        i = i + 1;
    }
    false
}

impl DropinCheck {
    /// Starts a check.
    pub fn start() -> (r: DropinCheck)
        ensures
            r@ == DropinCheckView::FetchMap(1),
    {
        DropinCheck::FetchMap(1)
    }

    /// Makes the attempt again, if there are any left.
    fn retry(attempt: u32) -> (r: DropinCheck)
        ensures
            r@ == DropinCheckView::retried(attempt),
    {
        if attempt < MAX_ATTEMPTS {
            DropinCheck::FetchMap(attempt + 1)
        } else {
            DropinCheck::Finished(false)
        }
    }

    /// Goes on once the map was read, or was made because there was none. A map with a managed
    /// drop-in is referred to in the status.
    pub fn map_fetched<S: StatusCommon>(attempt: u32, cm: &ConfigMap, next: &mut S) -> (r: (
        DropinCheck,
        Option<Event>,
    ))
        requires
            managed_key(cm@) is Some ==> cm@.metadata.name is Some,
        ensures
            r.0@ == DropinCheckView::after_map(attempt, cm@),
            r.1.deep_view() == map_event(cm@),
            final(next).deep_view() == (if managed_key(cm@) is Some {
                S::with_refs(
                    old(next).deep_view(),
                    keyed::put_in::<TypedLocalObjectReference>(
                        S::refs_in(old(next).deep_view()),
                        ref_to::<ConfigMap>(cm@),
                    ),
                )
            } else {
                old(next).deep_view()
            }),
    {
        let annotations = match &cm.metadata.annotations {
            Some(annotations) => annotations,
            None => return (DropinCheck::Finished(true), None),
        };
        let key = match annotations.get(labels::dropin_label().as_str()) {
            Some(key) => key.dup(),
            None => return (DropinCheck::Finished(true), None),
        };
        let missing = match &cm.data {
            Some(data) => !data.contains_key(key.as_str()),
            None => false,
        };
        let ev = if missing {
            Some(
                Event {
                    action: "ReconcileConfig".to_owned(),
                    reason: "Reconcile".to_owned(),
                    note: Some(text::cat("missing expected key: ", key.as_str())),
                    secondary: Some(cm.object_ref()),
                    type_: EventType::Warning,
                },
            )
        } else {
            None
        };
        next.add_ref(cm);
        (DropinCheck::SaveMap(attempt, key), ev)
    }

    /// Goes on once the map was written.
    pub fn map_saved(attempt: u32, key: String, commit: Commit) -> (r: DropinCheck)
        ensures
            r@ == DropinCheckView::after_map_write(attempt, key@, commit),
    {
        match commit {
            Commit::Saved => DropinCheck::FetchOwner(attempt, key),
            Commit::Invalid => DropinCheck::retry(attempt),
            Commit::Failed => DropinCheck::Failed,
        }
    }

    /// Goes on once it turned out that there is no owner to read.
    pub fn owner_missing(attempt: u32) -> (r: DropinCheck)
        ensures
            forall|selector: ConfigMapKeySelectorView|
                r@ == #[trigger] DropinCheckView::after_owner(attempt, None, selector),
    {
        DropinCheck::retry(attempt)
    }

    /// Goes on once the owner was read: its drop-ins have to refer to the managed one.
    pub fn owner_fetched(
        attempt: u32,
        dropins: &mut Vec<DropinSource>,
        name: &str,
        key: &str,
    ) -> (r: DropinCheck)
        ensures
            ({
                let selector = ConfigMapKeySelectorView { name: name@, key: key@ };
                &&& r@ == DropinCheckView::after_owner(
                    attempt,
                    Some(old(dropins).deep_view()),
                    selector,
                )
                &&& final(dropins).deep_view() == with_managed(old(dropins).deep_view(), selector)
            }),
    {
        let selector = ConfigMapKeySelector { name: name.to_owned(), key: key.to_owned() };
        if names_selector(dropins, &selector) {
            return DropinCheck::Finished(true);
        }
        push(dropins, DropinSource::config_map(name, key));
        DropinCheck::SaveOwner(attempt)
    }

    /// Goes on once the owner was written.
    pub fn owner_saved(attempt: u32, commit: Commit) -> (r: DropinCheck)
        ensures
            r@ == DropinCheckView::after_owner_write(attempt, commit),
    {
        match commit {
            Commit::Saved => DropinCheck::Finished(true),
            Commit::Invalid => DropinCheck::retry(attempt),
            Commit::Failed => DropinCheck::Failed,
        }
    }
}

/// Every step of the check brings it nearer to its end, so it ends; and no attempt is made more
/// than three times.
pub proof fn dropin_check_ends(
    attempt: u32,
    cm: ConfigMapView,
    key: Seq<char>,
    commit: Commit,
    dropins: Option<Seq<DropinSourceView>>,
    selector: ConfigMapKeySelectorView,
)
    requires
        1 <= attempt <= 3,
    ensures
        ({
            let map = DropinCheckView::after_map(attempt, cm);
            let map_write = DropinCheckView::after_map_write(attempt, key, commit);
            let owner = DropinCheckView::after_owner(attempt, dropins, selector);
            let owner_write = DropinCheckView::after_owner_write(attempt, commit);
            &&& map.in_bounds() && 0 <= map.budget() < DropinCheckView::FetchMap(attempt).budget()
            &&& map_write.in_bounds() && 0 <= map_write.budget() < DropinCheckView::SaveMap(
                attempt,
                key,
            ).budget()
            &&& owner.in_bounds() && 0 <= owner.budget() < DropinCheckView::FetchOwner(
                attempt,
                key,
            ).budget()
            &&& owner_write.in_bounds() && 0 <= owner_write.budget()
                < DropinCheckView::SaveOwner(attempt).budget()
        }),
{
}

/// Once an owner was read and brought up to date, it refers to the managed drop-in, and nothing it
/// referred to is lost; the same once more changes nothing.
pub proof fn owner_refers_to_managed(
    dropins: Seq<DropinSourceView>,
    selector: ConfigMapKeySelectorView,
)
    ensures
        refers_to(with_managed(dropins, selector), selector),
        with_managed(with_managed(dropins, selector), selector) == with_managed(dropins, selector),
        forall|i: int|
            0 <= i < dropins.len() ==> #[trigger] with_managed(dropins, selector)[i] == dropins[i],
{
    if !refers_to(dropins, selector) {
        let r = with_managed(dropins, selector);
        assert(r[dropins.len() as int].config_map_key_ref == Some(selector));
    }
}

/// Says what the status of a component holds on its configuration: what its spec asks for, if it
/// asks for something.
pub fn check_config<S: SubStatusCommon>(config: &Option<ConfigSource>, next: &mut S)
    ensures
        final(next).deep_view() == (if config is Some {
            S::with_config(old(next).deep_view(), config.deep_view())
        } else {
            old(next).deep_view()
        }),
{
    if let Some(cfg) = config {
        next.set_config(Some(cfg.dup()));
    }
}

impl Keyed for Volume {
    open spec fn key_of(v: VolumeView) -> Seq<char> {
        v.name
    }

    fn key(&self) -> (r: &String) {
        &self.name
    }
}

impl Keyed for VolumeMount {
    open spec fn key_of(v: VolumeMountView) -> Seq<char> {
        v.name
    }

    fn key(&self) -> (r: &String) {
        &self.name
    }
}

impl Keyed for EnvVar {
    open spec fn key_of(v: EnvVarView) -> Seq<char> {
        v.name
    }

    fn key(&self) -> (r: &String) {
        &self.name
    }
}

impl Keyed for Container {
    open spec fn key_of(v: ContainerView) -> Seq<char> {
        v.name
    }

    fn key(&self) -> (r: &String) {
        &self.name
    }
}

/// The items of a list that may be missing.
pub open spec fn or_empty<A>(list: Option<Seq<A>>) -> Seq<A> {
    match list {
        Some(s) => s,
        None => Seq::empty(),
    }
}

/// The container that runs Clair, for a component. What it mounts and what is in its environment
/// already is left as it is.
pub open spec fn tuned_container(
    c: ContainerView,
    component: Seq<char>,
    cfgsrc: ConfigSourceView,
    image: Seq<char>,
) -> ContainerView {
    ContainerView {
        image: Some(image),
        volume_mounts: Some(
            keyed::by_key::<VolumeMount>(or_empty(c.volume_mounts) + config_mounts(cfgsrc)),
        ),
        env: Some(
            keyed::by_key::<EnvVar>(
                or_empty(c.env) + seq![
                    env_var("CLAIR_CONF"@, config_path(cfgsrc)),
                    env_var("CLAIR_MODE"@, component),
                ],
            ),
        ),
        ..c
    }
}

/// The containers of a pod, of which the first one named "clair" runs Clair.
pub open spec fn tuned_containers(
    cs: Seq<ContainerView>,
    component: Seq<char>,
    cfgsrc: ConfigSourceView,
    image: Seq<char>,
) -> Seq<ContainerView> {
    let i = keyed::key_place::<Container>(cs, "clair"@, 0);
    if i < cs.len() {
        cs.update(i, tuned_container(cs[i], component, cfgsrc, image))
    } else {
        cs
    }
}

/// The pods of a component. The volumes of the configuration take the place of those of the same
/// name; a pod without a list of volumes gets none.
pub open spec fn tuned_pod(
    pod: PodSpecView,
    component: Seq<char>,
    cfgsrc: ConfigSourceView,
    image: Seq<char>,
) -> PodSpecView {
    PodSpecView {
        volumes: match pod.volumes {
            Some(vs) => Some(keyed::by_key::<Volume>(config_volumes(cfgsrc) + vs)),
            None => None,
        },
        containers: tuned_containers(pod.containers, component, cfgsrc, image),
        ..pod
    }
}

/// The labels with the component among them.
pub open spec fn component_labels(
    labels: Option<Map<Seq<char>, Seq<char>>>,
    component: Seq<char>,
) -> Map<Seq<char>, Seq<char>> {
    match labels {
        Some(m) => m.insert(labels::component_label_name(), component),
        None => Map::empty().insert(labels::component_label_name(), component),
    }
}

/// The deployment of a component.
pub open spec fn tuned_deployment(
    d: DeploymentView,
    component: Seq<char>,
    cfgsrc: ConfigSourceView,
    image: Seq<char>,
) -> DeploymentView {
    DeploymentView {
        metadata: labels::with_component(d.metadata, component),
        spec: match d.spec {
            Some(spec) => Some(
                DeploymentSpecView {
                    selector: LabelSelectorView {
                        match_labels: Some(
                            component_labels(spec.selector.match_labels, component),
                        ),
                    },
                    template: PodTemplateSpecView {
                        metadata: match spec.template.metadata {
                            Some(meta) => Some(labels::with_component(meta, component)),
                            None => None,
                        },
                        spec: match spec.template.spec {
                            Some(pod) => Some(tuned_pod(pod, component, cfgsrc, image)),
                            None => None,
                        },
                    },
                    ..spec
                },
            ),
            None => None,
        },
        ..d
    }
}

/// Tunes the container that runs Clair.
fn tune_container(
    c: &Container,
    component: &str,
    mounts: &Vec<VolumeMount>,
    config: &str,
    image: &str,
    Ghost(cfgsrc): Ghost<ConfigSourceView>,
) -> (r: Container)
    requires
        mounts.deep_view() == config_mounts(cfgsrc),
        config@ == config_path(cfgsrc),
    ensures
        r@ == tuned_container(c@, component@, cfgsrc, image@),
{
    let mut ms = match &c.volume_mounts {
        Some(ms) => ms.dup(),
        None => none(),
    };
    extend(&mut ms, mounts);
    let mut es = match &c.env {
        Some(es) => es.dup(),
        None => none(),
    };
    let ghost before = es.deep_view();
    push(
        &mut es,
        EnvVar {
            name: "CLAIR_CONF".to_owned(),
            value: Some(config.to_owned()),
            value_from: None,
        },
    );
    push(
        &mut es,
        EnvVar {
            name: "CLAIR_MODE".to_owned(),
            value: Some(component.to_owned()),
            value_from: None,
        },
    );
    assert(es.deep_view() =~= before + seq![
        env_var("CLAIR_CONF"@, config_path(cfgsrc)),
        env_var("CLAIR_MODE"@, component@),
    ]);
    Container {
        image: Some(image.to_owned()),
        volume_mounts: Some(keyed::sort_dedup_by_key(&ms)),
        env: Some(keyed::sort_dedup_by_key(&es)),
        ..c.dup()
    }
}

/// Tunes the pods of a component.
fn tune_pod(pod: PodSpec, component: &str, cfgsrc: &ConfigSource, image: &str) -> (r: PodSpec)
    requires
        is_mountable(cfgsrc@),
    ensures
        r@ == tuned_pod(pod@, component@, cfgsrc@, image@),
{
    let (mut vols, mounts, config) = make_volumes(cfgsrc);
    let volumes = match &pod.volumes {
        Some(vs) => {
            extend(&mut vols, vs);
            Some(keyed::sort_dedup_by_key(&vols))
        },
        None => None,
    };
    let mut containers = pod.containers;
    let ghost all = containers.deep_view();
    let mut i: usize = 0;
    while i < containers.len() && !text::same(containers[i].name.as_str(), "clair")
        invariant
            all == containers.deep_view(),
            i <= containers@.len(),
            keyed::key_place::<Container>(all, "clair"@, 0) == keyed::key_place::<Container>(
                all,
                "clair"@,
                i as int,
            ),
        decreases containers.len() - i,
    {
        assert(all[i as int] == containers@[i as int]@);
        i = i + 1;
    }
    if i < containers.len() {
        assert(all[i as int] == containers@[i as int]@);
        let c = tune_container(
            &containers[i],
            component,
            &mounts,
            config.as_str(),
            image,
            Ghost(cfgsrc@),
        );
        let ghost v = c@;
        containers.set(i, c);
        assert(containers.deep_view() =~= all.update(i as int, v));
    }
    PodSpec {
        volumes,
        containers,
        security_context: pod.security_context,
        share_process_namespace: pod.share_process_namespace,
        termination_grace_period_seconds: pod.termination_grace_period_seconds,
    }
}

/// Sets the component label among labels that may be missing.
fn label_component(labels: Option<KeyMap<String>>, component: &str) -> (r: KeyMap<String>)
    ensures
        r@ == component_labels(labels.deep_view(), component@),
{
    let mut m = match labels {
        Some(m) => m,
        None => KeyMap::new(),
    };
    m.insert(labels::component_label(), component.to_owned());
    m
}

/// The configuration that a deployment needs, or what to report if there is none.
pub fn needed_config(config: &Option<ConfigSource>) -> (r: Result<&ConfigSource, &'static str>)
    ensures
        match r {
            Ok(cfgsrc) => config.deep_view() == Some(cfgsrc@),
            Err(msg) => config is None && msg@ == "missing needed spec field: config"@,
        },
{
    match config {
        Some(cfgsrc) => Ok(cfgsrc),
        None => Err("missing needed spec field: config"),
    }
}

/// Check_deployment says what the deployment of a component should be, by what it is.
pub fn check_deployment(
    d: Deployment,
    component: &str,
    cfgsrc: &ConfigSource,
    image: &str,
) -> (r: Deployment)
    requires
        is_mountable(cfgsrc@),
    ensures
        r@ == tuned_deployment(d@, component@, cfgsrc@, image@),
{
    let mut metadata = d.metadata;
    labels::set_component_label(&mut metadata, component);
    let spec = match d.spec {
        Some(spec) => {
            let template_meta = match spec.template.metadata {
                Some(meta) => {
                    let mut meta = meta;
                    labels::set_component_label(&mut meta, component);
                    Some(meta)
                },
                None => None,
            };
            let pod = match spec.template.spec {
                Some(pod) => Some(tune_pod(pod, component, cfgsrc, image)),
                None => None,
            };
            Some(
                DeploymentSpec {
                    selector: LabelSelector {
                        match_labels: Some(label_component(spec.selector.match_labels, component)),
                    },
                    template: PodTemplateSpec { metadata: template_meta, spec: pod },
                    progress_deadline_seconds: spec.progress_deadline_seconds,
                    replicas: spec.replicas,
                    revision_history_limit: spec.revision_history_limit,
                    strategy: spec.strategy,
                },
            )
        },
        None => None,
    };
    Deployment { metadata, spec, status: d.status }
}

/// A deployment that was checked finds its pods: what it selects by and what they carry agree on
/// the component.
pub proof fn checked_deployment_selects_component(
    d: DeploymentView,
    component: Seq<char>,
    cfgsrc: ConfigSourceView,
    image: Seq<char>,
)
    requires
        d.spec is Some,
        d.spec->0.template.metadata is Some,
    ensures
        ({
            let r = tuned_deployment(d, component, cfgsrc, image).spec->0;
            let key = labels::component_label_name();
            &&& r.selector.match_labels->0[key] == component
            &&& r.template.metadata->0.labels->0[key] == component
        }),
{
}

/// Check_service says what a new service of a component should be: it carries the component's
/// label. One that is there already is left as it is.
pub fn check_service(service: Service, component: &str) -> (r: Service)
    ensures
        r@ == (ServiceView {
            metadata: labels::with_component(service@.metadata, component@),
            ..service@
        }),
{
    let mut metadata = service.metadata;
    labels::set_component_label(&mut metadata, component);
    Service { metadata, spec: service.spec }
}

/// Check_hpa says what the autoscaler of a component should be, by what it is: it carries the
/// component's label and scales the component's deployment.
pub fn check_hpa(h: HorizontalPodAutoscaler, component: &str, deployment: &str) -> (r:
    HorizontalPodAutoscaler)
    ensures
        r@ == (HorizontalPodAutoscalerView {
            metadata: labels::with_component(h@.metadata, component@),
            spec: match h@.spec {
                Some(spec) => Some(
                    HorizontalPodAutoscalerSpecView {
                        scale_target_ref: CrossVersionObjectReferenceView {
                            name: deployment@,
                            ..spec.scale_target_ref
                        },
                        ..spec
                    },
                ),
                None => None,
            },
        }),
{
    let mut metadata = h.metadata;
    labels::set_component_label(&mut metadata, component);
    let spec = match h.spec {
        Some(spec) => Some(
            HorizontalPodAutoscalerSpec {
                scale_target_ref: CrossVersionObjectReference {
                    name: deployment.to_owned(),
                    api_version: spec.scale_target_ref.api_version,
                    kind: spec.scale_target_ref.kind,
                },
                max_replicas: spec.max_replicas,
                metrics: spec.metrics,
                min_replicas: spec.min_replicas,
            },
        ),
        None => None,
    };
    HorizontalPodAutoscaler { metadata, spec }
}

/// A status refers to an object of a kind.
pub open spec fn refers<S: StatusCommon, K: Resource>(status: Option<S::V>) -> bool {
    status is Some && keyed::found_in::<TypedLocalObjectReference>(
        S::refs_in(status->0),
        K::kind_name(),
    ) is Some
}

/// A status refers to everything that belongs to a component.
pub open spec fn all_created<S: StatusCommon>(status: Option<S::V>) -> bool {
    &&& refers::<S, ConfigMap>(status)
    &&& refers::<S, Deployment>(status)
    &&& refers::<S, Service>(status)
    &&& refers::<S, HorizontalPodAutoscaler>(status)
}

/// The list with the kind at its end, if the status refers to one of it.
pub open spec fn listing<S: StatusCommon, K: Resource>(
    kinds: Seq<Seq<char>>,
    status: Option<S::V>,
) -> Seq<Seq<char>> {
    if refers::<S, K>(status) {
        kinds.push(K::kind_name())
    } else {
        kinds
    }
}

/// The kinds, of those that belong to a component, that a status refers to.
pub open spec fn created_kinds<S: StatusCommon>(status: Option<S::V>) -> Seq<Seq<char>> {
    listing::<S, HorizontalPodAutoscaler>(
        listing::<S, Service>(
            listing::<S, Deployment>(listing::<S, ConfigMap>(Seq::empty(), status), status),
            status,
        ),
        status,
    )
}

/// Puts a kind at the end of a list, if the status refers to one of it.
pub(crate) fn list_kind<S: StatusCommon, K: Resource>(kinds: &mut Vec<String>, status: &Option<S>) -> (r: bool)
    ensures
        r == refers::<S, K>(status.deep_view()),
        final(kinds).deep_view() == listing::<S, K>(old(kinds).deep_view(), status.deep_view()),
{
    let known = match status {
        Some(s) => s.has_ref::<K>(),
        None => None,
    };
    match known {
        Some(r) => {
            push(kinds, K::kind().to_owned());
            true
        },
        None => false,
    }
}

/// Check_creation says whether everything that belongs to a component was created, and puts a
/// condition on that in the status.
pub fn check_creation<O: Resource, S: StatusCommon>(
    obj: &O,
    status: &Option<S>,
    next: &mut S,
    now: Time,
) -> (r: bool)
    ensures
        r == all_created::<S>(status.deep_view()),
        final(next).deep_view() == conditioned::<S>(
            old(next).deep_view(),
            component_condition::<O>(
                obj.deep_view(),
                "Initialized"@,
                if all_created::<S>(status.deep_view()) {
                    "True"@
                } else {
                    "False"@
                },
                "ObjectsCreated"@,
                if all_created::<S>(status.deep_view()) {
                    "🆗"@
                } else {
                    "missing: "@ + text::joined(created_kinds::<S>(status.deep_view()), ", "@)
                },
                now@,
            ),
        ),
{
    let mut kinds: Vec<String> = none();
    let a = list_kind::<S, ConfigMap>(&mut kinds, status);
    let b = list_kind::<S, Deployment>(&mut kinds, status);
    let c = list_kind::<S, Service>(&mut kinds, status);
    let d = list_kind::<S, HorizontalPodAutoscaler>(&mut kinds, status);
    let ok = a && b && c && d;
    let message = if ok {
        "🆗".to_owned()
    } else {
        text::cat("missing: ", text::join(&kinds, ", ").as_str())
    };
    let state = if ok {
        "True"
    } else {
        "False"
    };
    next.add_condition(
        make_condition(obj, "Initialized", state, "ObjectsCreated", message.as_str(), now),
    );
    ok
}

} // verus!
