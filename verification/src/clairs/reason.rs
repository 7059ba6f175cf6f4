//! Why the conditions of a Clair instance are as they are.

use vstd::prelude::*;

use crate::condition::Reason;
use crate::text;

verus! {

/// Reasons for the state of the job before an upgrade.
#[derive(Clone, Copy, Debug)]
pub enum AdminPre {
    /// There is nothing to upgrade from.
    NewClair,
    /// The image was changed.
    ImageUpdated,
    /// The job failed.
    JobFailed,
    /// The job succeeded.
    JobSucceeded,
    /// The job still runs.
    JobNotComplete,
    /// The job is not there.
    JobMissing,
}

impl Reason for AdminPre {
    open spec fn word(&self) -> Seq<char> {
        match self {
            AdminPre::NewClair => "NewClair"@,
            AdminPre::ImageUpdated => "ImageUpdated"@,
            AdminPre::JobFailed => "JobFailed"@,
            AdminPre::JobSucceeded => "JobSucceeded"@,
            AdminPre::JobNotComplete => "JobNotComplete"@,
            AdminPre::JobMissing => "JobMissing"@,
        }
    }

    fn to_string(&self) -> (r: String) {
        match self {
            AdminPre::NewClair => "NewClair".to_owned(),
            AdminPre::ImageUpdated => "ImageUpdated".to_owned(),
            AdminPre::JobFailed => "JobFailed".to_owned(),
            AdminPre::JobSucceeded => "JobSucceeded".to_owned(),
            AdminPre::JobNotComplete => "JobNotComplete".to_owned(),
            AdminPre::JobMissing => "JobMissing".to_owned(),
        }
    }
}

impl PartialEq<String> for AdminPre {
    fn eq(&self, other: &String) -> (r: bool) {
        text::same(self.to_string().as_str(), other.as_str())
    }
}

impl vstd::std_specs::cmp::PartialEqSpecImpl<String> for AdminPre {
    open spec fn obeys_eq_spec() -> bool {
        true
    }

    open spec fn eq_spec(&self, other: &String) -> bool {
        self.word() == other@
    }
}

/// Reasons for the state of the configuration.
#[derive(Clone, Copy, Debug)]
pub enum Configuration {
    /// The configuration is as desired.
    Reconciled,
}

impl Reason for Configuration {
    open spec fn word(&self) -> Seq<char> {
        match self {
            Configuration::Reconciled => "Reconciled"@,
        }
    }

    fn to_string(&self) -> (r: String) {
        match self {
            Configuration::Reconciled => "Reconciled".to_owned(),
        }
    }
}

impl PartialEq<String> for Configuration {
    fn eq(&self, other: &String) -> (r: bool) {
        text::same(self.to_string().as_str(), other.as_str())
    }
}

impl vstd::std_specs::cmp::PartialEqSpecImpl<String> for Configuration {
    open spec fn obeys_eq_spec() -> bool {
        true
    }

    open spec fn eq_spec(&self, other: &String) -> bool {
        self.word() == other@
    }
}

} // verus!
