//! Indexers decides what the controller for the "Indexer" CRD does next.

use vstd::prelude::*;

use crate::clairs::{Requeue, DEFAULT_REQUEUE};
use crate::event::{Event, EventType, EventView};
use crate::k8s::meta::{Condition, ConditionView, Time, TimeView};
use crate::labels::{clair_condition, dashed};
use crate::model::Model;
use crate::resource::{self, Resource};
use crate::templates::workloads::{service_builder, service_of, ServiceBuilder};
use crate::templates::{
    self, dropin_for, outcome, render_dropin, service_address, Build, ErrorView,
};
use crate::text;
use crate::v1alpha1::{Clair, Indexer, IndexerView};

verus! {

/// What keeps an indexer from going before it was cleaned up.
pub const INDEXER_FINALIZER: &'static str = "indexers.clairproject.org";

/// When to look again if something failed: after five seconds.
pub fn error_policy() -> (r: Requeue)
    ensures
        r == Requeue::After(5000),
{
    Requeue::After(5000)
}

/// What belongs to an indexer, in the order in which it is looked after.
#[derive(Clone, Copy, Debug, PartialEq, Eq, Structural)]
pub enum Part {
    /// What runs it.
    Deployment,
    /// What leads to it.
    Service,
    /// What scales it.
    HorizontalPodAutoscaler,
    /// What tells others where it is.
    Dropin,
}

/// What was found out about a spec.
#[derive(Debug, PartialEq)]
pub struct SpecReview {
    /// For the status.
    pub condition: Condition,
    /// To be published.
    pub event: Event,
    /// When to look again, if the spec is incomplete.
    pub stop: Option<Requeue>,
}

/// What is missing from a spec.
pub open spec fn spec_lacks(v: IndexerView) -> Option<Seq<char>> {
    if v.spec.config is None {
        Some("spec missing ConfigSource"@)
    } else if v.spec.image is None {
        Some("spec missing image"@)
    } else {
        None
    }
}

/// The condition on a spec.
pub open spec fn spec_condition(v: IndexerView, now: TimeView) -> ConditionView {
    ConditionView {
        last_transition_time: now,
        observed_generation: v.metadata.generation,
        type_: "projectclair.io/"@ + dashed("SpecOK"@),
        message: ""@,
        reason: if spec_lacks(v) is Some {
            "SpecIncomplete"@
        } else {
            "SpecComplete"@
        },
        status: if spec_lacks(v) is Some {
            "False"@
        } else {
            "True"@
        },
    }
}

/// The event on a spec.
pub open spec fn spec_event(v: IndexerView) -> EventView {
    EventView {
        type_: if spec_lacks(v) is Some {
            EventType::Warning
        } else {
            EventType::Normal
        },
        action: "CheckSpec"@,
        reason: ""@,
        note: spec_lacks(v),
        secondary: None,
    }
}

/// Check_spec reports when to look again if the spec is incomplete or `None` if processing can
/// proceed.
pub fn check_spec(indexer: &Indexer, now: Time) -> (r: SpecReview)
    ensures
        r.condition@ == spec_condition(indexer@, now@),
        r.event@ == spec_event(indexer@),
        r.stop == (if spec_lacks(indexer@) is Some {
            Some(Requeue::After(3600000))
        } else {
            None
        }),
{
    let note = if indexer.spec.config.is_none() {
        Some("spec missing ConfigSource".to_owned())
    } else if indexer.spec.image.is_none() {
        Some("spec missing image".to_owned())
    } else {
        None
    };
    assert(note.deep_view() == spec_lacks(indexer@));
    let (status, reason, type_, stop) = if note.is_some() {
        ("False", "SpecIncomplete", EventType::Warning, Some(Requeue::After(3600000)))
    } else {
        ("True", "SpecComplete", EventType::Normal, None)
    };
    let condition = Condition {
        last_transition_time: now,
        observed_generation: indexer.metadata.generation,
        type_: clair_condition("SpecOK"),
        message: "".to_owned(),
        reason: reason.to_owned(),
        status: status.to_owned(),
    };
    let event = Event {
        type_,
        action: "CheckSpec".to_owned(),
        reason: "".to_owned(),
        note,
        secondary: None,
    };
    SpecReview { condition, event, stop }
}

/// Says what to look after, in order, and when the next look is due.
pub fn reconcile_one(review: &SpecReview) -> (r: (Vec<Part>, Requeue))
    ensures
        match review.stop {
            Some(stop) => r.0@ == Seq::<Part>::empty() && r.1 == stop,
            None => r.0@ == seq![
                Part::Deployment,
                Part::Service,
                Part::HorizontalPodAutoscaler,
                Part::Dropin,
            ] && r.1 == Requeue::After(3600000),
        },
{
    let mut parts: Vec<Part> = Vec::new();
    if let Some(stop) = review.stop {
        return (parts, stop);
    }
    parts.push(Part::Deployment);
    parts.push(Part::Service);
    parts.push(Part::HorizontalPodAutoscaler);
    parts.push(Part::Dropin);
    assert(parts@ =~= seq![
        Part::Deployment,
        Part::Service,
        Part::HorizontalPodAutoscaler,
        Part::Dropin,
    ]);
    (parts, Requeue::After(DEFAULT_REQUEUE))
}

/// The event for an indexer that is to go.
pub open spec fn delete_event(v: IndexerView) -> EventView {
    EventView {
        type_: EventType::Normal,
        reason: "DeleteRequested"@,
        note: Some("Delete `"@ + resource::any_name(v.metadata) + "`"@),
        action: "Deleting"@,
        secondary: None,
    }
}

/// Says what to publish when an indexer is to go. There is nothing else to clean up.
pub fn cleanup_one(indexer: &Indexer) -> (r: (Event, Requeue))
    ensures
        r.0@ == delete_event(indexer@),
        r.1 == Requeue::AwaitChange,
{
    let ev = Event {
        type_: EventType::Normal,
        reason: "DeleteRequested".to_owned(),
        note: Some(text::cat3("Delete `", indexer.name_any().as_str(), "`")),
        action: "Deleting".to_owned(),
        secondary: None,
    };
    (ev, Requeue::AwaitChange)
}

/// A key to set in a ConfigMap, and the event to publish then.
#[derive(Debug, PartialEq)]
pub struct DropinPatch {
    /// Which map.
    pub config_map: String,
    /// Which key.
    pub key: String,
    /// What to set it to.
    pub value: String,
    /// To be published.
    pub event: Event,
}

/// The value of a [`DropinPatch`].
pub ghost struct DropinPatchView {
    pub config_map: Seq<char>,
    pub key: Seq<char>,
    pub value: Seq<char>,
    pub event: EventView,
}

impl DeepView for DropinPatch {
    type V = DropinPatchView;

    open spec fn deep_view(&self) -> DropinPatchView {
        DropinPatchView {
            config_map: self.config_map@,
            key: self.key@,
            value: self.value@,
            event: self.event@,
        }
    }
}

/// The indexer is owned by a Clair instance, which manages it.
pub open spec fn serves_clair(v: IndexerView) -> bool {
    v.metadata.owner_references matches Some(refs) && exists|i: int|
        0 <= i < refs.len() && (#[trigger] refs[i]).controller == Some(true) && refs[i].kind
            == "Clair"@
}

/// Reports whether the indexer is owned by a Clair instance, which manages it.
pub fn is_owned_by_clair(indexer: &Indexer) -> (r: bool)
    ensures
        r == serves_clair(indexer@),
{
    let refs = match &indexer.metadata.owner_references {
        Some(refs) => refs,
        None => return false,
    };
    let ghost all = refs.deep_view();
    let mut i: usize = 0;
    while i < refs.len()
        invariant
            all == refs.deep_view(),
            indexer@.metadata.owner_references == Some(all),
            i <= refs@.len(),
            forall|j: int|
                0 <= j < i ==> !((#[trigger] all[j]).controller == Some(true) && all[j].kind
                    == "Clair"@),
        decreases refs.len() - i,
    {
        assert(all[i as int] == refs@[i as int]@);
        if let Some(true) = refs[i].controller {
            if text::same(refs[i].kind.as_str(), Clair::kind()) {
                return true;
            }
        }
        i = i + 1;
    }
    false
}

/// What tells others where an indexer is: changes that point to its service, in the map that holds
/// its root configuration. Nobody has to find an indexer that belongs to no Clair instance.
pub open spec fn dropin_patch(v: IndexerView) -> Result<Option<DropinPatchView>, ErrorView> {
    if !serves_clair(v) {
        Ok(None)
    } else {
        match service_builder::<Indexer>(v) {
            Err(e) => Err(e),
            Ok(builder) => Ok(
                Some(
                    DropinPatchView {
                        config_map: v.spec.config->0.root.name,
                        key: "00-indexer.json-patch"@,
                        value: dropin_for("Indexer"@, service_address(service_of(builder)))->0,
                        event: EventView {
                            type_: EventType::Normal,
                            reason: "Reconcile"@,
                            action: "DropinReconciled"@,
                            note: None,
                            secondary: None,
                        },
                    },
                ),
            ),
        }
    }
}

/// Publish_dropin renders a Clair configuration dropin that points any Indexer URL fields to
/// this Indexer's Service endpoint.
///
/// The dropin is only created if the Indexer is owned by a Clair.
pub fn publish_dropin(indexer: &Indexer) -> (r: Result<Option<DropinPatch>, templates::Error>)
    requires
        serves_clair(indexer@) ==> indexer@.metadata.name is Some
            && indexer@.metadata.namespace is Some && indexer@.spec.config is Some,
    ensures
        outcome(r) == dropin_patch(indexer@),
{
    if !is_owned_by_clair(indexer) {
        return Ok(None);
    }
    let service = match ServiceBuilder::try_from(indexer) {
        Ok(builder) => builder.build(),
        Err(e) => return Err(e),
    };
    let value = render_dropin::<Indexer>(&service).unwrap();
    let config_map = indexer.spec.config.as_ref().unwrap().root.name.dup();
    let event = Event {
        type_: EventType::Normal,
        reason: "Reconcile".to_owned(),
        action: "DropinReconciled".to_owned(),
        note: None,
        secondary: None,
    };
    Ok(Some(DropinPatch { config_map, key: "00-indexer.json-patch".to_owned(), value, event }))
}

} // verus!
