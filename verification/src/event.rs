//! Event holds helpers for working with kubernetes Events.

use vstd::prelude::*;

use crate::k8s::pod::{ObjectReference, ObjectReferenceView};
use crate::model::Model;

verus! {

/// EventType tells what is wrong from what is worth knowing.
#[derive(Clone, Copy, Debug, PartialEq, Eq, Structural)]
pub enum EventType {
    /// Worth knowing.
    Normal,
    /// Something is wrong.
    Warning,
}

impl DeepView for EventType {
    type V = EventType;

    open spec fn deep_view(&self) -> EventType {
        *self
    }
}

impl Model for EventType {
    fn dup(&self) -> (r: Self) {
        *self
    }

    fn same(&self, other: &Self) -> (r: bool) {
        *self == *other
    }
}

/// Event is something that happened to an object.
#[derive(Debug, PartialEq)]
pub struct Event {
    /// How bad it is.
    pub type_: EventType,
    /// Why it happened.
    pub reason: String,
    /// A sentence for people.
    pub note: Option<String>,
    /// What was done.
    pub action: String,
    /// Another object that was involved.
    pub secondary: Option<ObjectReference>,
}

/// The value of an [`Event`].
pub ghost struct EventView {
    pub type_: EventType,
    pub reason: Seq<char>,
    pub note: Option<Seq<char>>,
    pub action: Seq<char>,
    pub secondary: Option<ObjectReferenceView>,
}

impl DeepView for Event {
    type V = EventView;

    open spec fn deep_view(&self) -> EventView {
        EventView {
            type_: self.type_.deep_view(),
            reason: self.reason.deep_view(),
            note: self.note.deep_view(),
            action: self.action.deep_view(),
            secondary: self.secondary.deep_view(),
        }
    }
}

impl View for Event {
    type V = EventView;

    open spec fn view(&self) -> EventView {
        self.deep_view()
    }
}

impl Model for Event {
    fn dup(&self) -> (r: Self) {
        Event {
            type_: self.type_.dup(),
            reason: self.reason.dup(),
            note: self.note.dup(),
            action: self.action.dup(),
            secondary: self.secondary.dup(),
        }
    }

    fn same(&self, other: &Self) -> (r: bool) {
        self.type_.same(&other.type_)
            && self.reason.same(&other.reason)
            && self.note.same(&other.note)
            && self.action.same(&other.action)
            && self.secondary.same(&other.secondary)
    }
}

impl EventType {
    /// The name of the type.
    pub open spec fn name(self) -> Seq<char> {
        match self {
            EventType::Normal => "Normal"@,
            EventType::Warning => "Warning"@,
        }
    }

    /// The name of the type.
    pub fn as_str(self) -> (r: &'static str)
        ensures
            r@ == self.name(),
    {
        match self {
            EventType::Normal => "Normal",
            EventType::Warning => "Warning",
        }
    }
}

/// Reason is a trait for types meant to be used as event reasons.
///
/// It's useful to keep track of them because they're _kind of_ API.
pub trait Reason {
    /// The word for the reason.
    spec fn word(&self) -> Seq<char>;

    /// The word for the reason.
    fn to_string(&self) -> (r: String)
        ensures
            r@ == self.word(),
    ;
}

/// Action is a trait for types meant to be used as event actions.
///
/// It's useful to keep track of them because they're _kind of_ API.
pub trait Action {
    /// The word for the action.
    spec fn word(&self) -> Seq<char>;

    /// The word for the action.
    fn to_string(&self) -> (r: String)
        ensures
            r@ == self.word(),
    ;
}

/// An event without a note.
pub open spec fn event_of(type_: EventType, reason: Seq<char>, action: Seq<char>) -> EventView {
    EventView { type_, reason, action, note: None, secondary: None }
}

/// Common creation function.
pub fn new<R: Reason, A: Action>(type_: EventType, reason: R, action: A) -> (r: Event)
    ensures
        r@ == event_of(type_, reason.word(), action.word()),
{
    Event {
        type_,
        reason: reason.to_string(),
        action: action.to_string(),
        note: None,
        secondary: None,
    }
}

} // verus!
