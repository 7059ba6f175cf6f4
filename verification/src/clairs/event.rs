//! What happens to a Clair instance.

use vstd::prelude::*;

use crate::event;

verus! {

/// Reasons for events.
#[derive(Clone, Copy, Debug)]
pub enum Reason {
    /// The spec lacks something.
    MissingRequiredField,
    /// The instance is to go.
    DeleteRequested,
    /// The image is tagged with no version.
    ImageRefNotVersioned,
    /// It is too early for the job after an upgrade.
    AdminPostNotReady,
}

impl event::Reason for Reason {
    open spec fn word(&self) -> Seq<char> {
        match self {
            Reason::MissingRequiredField => "MissingRequiredField"@,
            Reason::DeleteRequested => "DeleteRequested"@,
            Reason::ImageRefNotVersioned => "ImageRefNotVersioned"@,
            Reason::AdminPostNotReady => "AdminPostNotReady"@,
        }
    }

    fn to_string(&self) -> (r: String) {
        match self {
            Reason::MissingRequiredField => "MissingRequiredField".to_owned(),
            Reason::DeleteRequested => "DeleteRequested".to_owned(),
            Reason::ImageRefNotVersioned => "ImageRefNotVersioned".to_owned(),
            Reason::AdminPostNotReady => "AdminPostNotReady".to_owned(),
        }
    }
}

/// What was done when an event happened.
#[derive(Clone, Copy, Debug)]
pub enum Action {
    /// The spec was checked.
    CheckSpec,
    /// The instance was reconciled.
    Reconcile,
    /// The configuration was put in place.
    Configuration,
    /// The job before an upgrade was looked after.
    AdminPre,
    /// The image was made current.
    PromoteImage,
    /// The indexer was looked after.
    Indexer,
    /// The matcher was looked after.
    Matcher,
    /// The notifier was looked after.
    Notifier,
    /// The job after an upgrade was looked after.
    AdminPost,
    /// The instance was cleaned up.
    Cleanup,
}

impl event::Action for Action {
    open spec fn word(&self) -> Seq<char> {
        match self {
            Action::CheckSpec => "CheckSpec"@,
            Action::Reconcile => "Reconcile"@,
            Action::Configuration => "Configuration"@,
            Action::AdminPre => "AdminPre"@,
            Action::PromoteImage => "PromoteImage"@,
            Action::Indexer => "Indexer"@,
            Action::Matcher => "Matcher"@,
            Action::Notifier => "Notifier"@,
            Action::AdminPost => "AdminPost"@,
            Action::Cleanup => "Cleanup"@,
        }
    }

    fn to_string(&self) -> (r: String) {
        match self {
            Action::CheckSpec => "CheckSpec".to_owned(),
            Action::Reconcile => "Reconcile".to_owned(),
            Action::Configuration => "Configuration".to_owned(),
            Action::AdminPre => "AdminPre".to_owned(),
            Action::PromoteImage => "PromoteImage".to_owned(),
            Action::Indexer => "Indexer".to_owned(),
            Action::Matcher => "Matcher".to_owned(),
            Action::Notifier => "Notifier".to_owned(),
            Action::AdminPost => "AdminPost".to_owned(),
            Action::Cleanup => "Cleanup".to_owned(),
        }
    }
}

} // verus!
