//! Keeping an object that belongs to another one as it should be.

use vstd::prelude::*;

use crate::event::{Event, EventType, EventView};
use crate::k8s::meta::{Condition, ConditionView, Time, TimeView};
use crate::k8s::pod::{ObjectReference, ObjectReferenceView};
use crate::labels::{clair_condition, dashed};
use crate::model::Model;
use crate::resource::{self, Resource};
use crate::text;

verus! {

/// What happened to an owned object.
#[derive(Clone, Copy, Debug, PartialEq, Eq, Structural)]
pub enum Change {
    /// It was not there and was created.
    Created,
    /// It was there and was changed.
    Updated,
}

impl Change {
    /// The word for the change.
    pub open spec fn word(self) -> Seq<char> {
        match self {
            Change::Created => "Created"@,
            Change::Updated => "Updated"@,
        }
    }

    /// What was done, before the kind it was done to.
    pub open spec fn verb(self) -> Seq<char> {
        match self {
            Change::Created => "created "@,
            Change::Updated => "patched "@,
        }
    }
}

/// The condition of the owner after a change to what it owns.
pub open spec fn owner_condition<T: Resource, R: Resource>(
    owner: T::V,
    change: Change,
    now: TimeView,
) -> ConditionView {
    ConditionView {
        type_: "projectclair.io/"@ + dashed(R::kind_name() + "Created"@),
        observed_generation: T::metadata(owner).generation,
        last_transition_time: now,
        status: "True"@,
        message: change.verb() + R::kind_name(),
        reason: R::kind_name() + change.word(),
    }
}

/// The reference to an object.
pub open spec fn reference<R: Resource>(v: R::V) -> ObjectReferenceView {
    resource::object_ref_of(
        resource::group_version(R::group_name(), R::version_name()),
        R::kind_name(),
        R::metadata(v),
    )
}

/// The event for a change to what an object owns.
pub open spec fn change_event<T: Resource, R: Resource>(
    wanted: R::V,
    change: Change,
    result: R::V,
) -> EventView {
    EventView {
        type_: EventType::Normal,
        reason: T::kind_name() + " requires "@ + R::kind_name() + " \""@ + resource::any_name(
            R::metadata(wanted),
        ) + "\""@,
        action: change.word() + R::kind_name(),
        note: None,
        secondary: Some(reference::<R>(result)),
    }
}

/// What to do with an owned object, by whether it is there.
#[derive(Clone, Copy, Debug, PartialEq, Eq, Structural)]
pub enum Write {
    /// Create it.
    Create,
    /// Change the one that is there.
    Patch,
}

/// Says how to write an owned object, by whether one of its name is there.
pub fn how_to_write<R: Resource>(current: &Option<R>) -> (r: Write)
    ensures
        r == (if current is Some {
            Write::Patch
        } else {
            Write::Create
        }),
{
    match current {
        Some(_) => Write::Patch,
        None => Write::Create,
    }
}

/// What to report after an owned object was written.
#[derive(Debug, PartialEq)]
pub struct Report {
    /// For the owner's status.
    pub condition: Condition,
    /// To be published.
    pub event: Event,
    /// What the event is about.
    pub regarding: ObjectReference,
}

/// The value of a [`Report`].
pub ghost struct ReportView {
    pub condition: ConditionView,
    pub event: EventView,
    pub regarding: ObjectReferenceView,
}

impl DeepView for Report {
    type V = ReportView;

    open spec fn deep_view(&self) -> ReportView {
        ReportView {
            condition: self.condition@,
            event: self.event@,
            regarding: self.regarding@,
        }
    }
}

/// What to report after an owned object was written. A patch that led to no new generation changed
/// nothing, and is not reported.
pub open spec fn report_for<T: Resource, R: Resource>(
    owner: T::V,
    wanted: R::V,
    current: Option<R::V>,
    result: R::V,
    now: TimeView,
) -> Option<ReportView> {
    let change = if current is Some {
        Change::Updated
    } else {
        Change::Created
    };
    if current is Some && R::metadata(current->0).generation == R::metadata(result).generation {
        None
    } else {
        Some(
            ReportView {
                condition: owner_condition::<T, R>(owner, change, now),
                event: change_event::<T, R>(wanted, change, result),
                regarding: reference::<R>(result),
            },
        )
    }
}

/// Check_owned_resource says what to report once an owned resource (of type `R`) for `owner` was
/// written: `wanted` is what it should be, `current` what was there and `result` what is there now.
pub fn check_owned_resource<T: Resource, R: Resource>(
    owner: &T,
    wanted: &R,
    current: &Option<R>,
    result: &R,
    now: Time,
) -> (r: Option<Report>)
    ensures
        r.deep_view() == report_for::<T, R>(
            owner.deep_view(),
            wanted.deep_view(),
            current.deep_view(),
            result.deep_view(),
            now@,
        ),
{
    let kind = R::kind();
    let (word, verb) = match current {
        Some(current) => {
            if current.meta().generation.same(&result.meta().generation) {
                return None;
            }
            ("Updated", "patched ")
        },
        None => ("Created", "created "),
    };
    let condition = Condition {
        type_: clair_condition(text::cat(kind, "Created").as_str()),
        observed_generation: owner.meta().generation,
        last_transition_time: now,
        status: "True".to_owned(),
        message: text::cat(verb, kind),
        reason: text::cat(kind, word),
    };
    let start = text::cat3(T::kind(), " requires ", kind);
    let event = Event {
        type_: EventType::Normal,
        reason: text::cat4(start.as_str(), " \"", wanted.name_any().as_str(), "\""),
        action: text::cat(word, kind),
        note: None,
        secondary: Some(result.object_ref()),
    };
    Some(Report { condition, event, regarding: result.object_ref() })
}

} // verus!
