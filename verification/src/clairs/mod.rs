//! Clairs decides what the controller for the "Clair" CRD does next.
//!
//! The functions look at an instance, and at what was found in the cluster, and say what to change
//! there. They change nothing themselves.

use vstd::prelude::*;

use crate::condition::{
    self, condition_at, first_condition, Conditions, Status, Type,
};
use crate::event::{self as events, EventType};
use crate::image::{image_version, version_of};
use crate::k8s::meta::{Condition, ConditionView, Time, TimeView};
use crate::k8s::pod::{ConfigMap, ConfigMapView};
use crate::k8s::workload::{
    Deployment, DeploymentConditionView, DeploymentView, Job, JobStatusView, JobView,
};
use crate::model::{none, one, push, Model};
use crate::resource::{self, Resource};
use crate::templates::jobs::{
    admin_pre_job_name, can_name_job, job_builder, job_of, JobBuilder, JobKind,
};
use crate::templates::sources::{adding, config_source_builder, ConfigSourceBuilder};
use crate::templates::{self, outcome, Build, ErrorView};
use crate::text;
use crate::v1alpha1::{
    database_dropins, Clair, ClairStatus, ClairStatusView, ClairView, ConfigSourceView, DropinSource,
    Indexer, Matcher, Notifier,
};

pub mod event;
pub mod reason;

verus! {

/// What keeps an instance from going before it was cleaned up.
pub const CLAIR_FINALIZER: &'static str = "clairs.clairproject.org";

/// When to look at an object again.
#[derive(Clone, Copy, Debug, PartialEq, Eq, Structural)]
pub enum Requeue {
    /// After that many milliseconds.
    After(u64),
    /// When the object changes.
    AwaitChange,
}

/// When to look again if nothing is left to do: after an hour, in milliseconds.
pub const DEFAULT_REQUEUE: u64 = 3600000;

/// When to look again if something failed: after five seconds.
pub fn error_policy() -> (r: Requeue)
    ensures
        r == Requeue::After(5000),
{
    Requeue::After(5000)
}

/// A step of a reconciliation.
#[derive(Clone, Copy, Debug, PartialEq, Eq, Structural)]
pub enum Step {
    /// Put the configuration in place.
    Configuration,
    /// Look after the job before an upgrade.
    AdminPre,
    /// Make the image current.
    PromoteImage,
    /// Look after the indexer.
    Indexer,
    /// Look after the matcher.
    Matcher,
    /// Look after the notifier.
    Notifier,
    /// Look after the job after an upgrade.
    AdminPost,
}

/// What a reconciliation does, in order, and when the next one is due.
#[derive(Debug, PartialEq)]
pub struct Plan {
    /// Events to publish first.
    pub events: Vec<events::Event>,
    /// Steps to take.
    pub steps: Vec<Step>,
    /// When to look again.
    pub next: Requeue,
}

/// The event for a field that is missing from the spec.
pub open spec fn missing_field(c: ClairView, field: Seq<char>) -> events::EventView {
    events::EventView {
        type_: EventType::Warning,
        reason: "MissingRequiredField"@,
        action: "Reconcile"@,
        note: Some("Clair `"@ + resource::any_name(c.metadata) + "` missing `"@ + field + "`"@),
        secondary: None,
    }
}

/// The events for all fields that are missing from the spec.
pub open spec fn missing_fields(c: ClairView) -> Seq<events::EventView> {
    let databases = if c.spec.databases is None {
        seq![missing_field(c, "$.spec.databases"@)]
    } else {
        Seq::empty()
    };
    if c.spec.image is None {
        databases.push(missing_field(c, "$.spec.image"@))
    } else {
        databases
    }
}

/// The instance has a configuration.
pub open spec fn has_config(c: ClairView) -> bool {
    c.status is Some && c.status->0.config is Some
}

/// The steps for an instance whose spec is complete. Without a configuration there is nothing to do
/// but to put one in place; the notifier is left alone unless it was asked for.
pub open spec fn steps_for(c: ClairView) -> Seq<Step> {
    if !has_config(c) {
        seq![Step::Configuration]
    } else {
        let start = seq![
            Step::Configuration,
            Step::AdminPre,
            Step::PromoteImage,
            Step::Indexer,
            Step::Matcher,
        ];
        if c.spec.notifier == Some(true) {
            start.push(Step::Notifier).push(Step::AdminPost)
        } else {
            start.push(Step::AdminPost)
        }
    }
}

/// The event for a field that is missing from the spec.
fn missing_event(clair: &Clair, field: &str) -> (r: events::Event)
    ensures
        r@ == missing_field(clair@, field@),
{
    let name = clair.name_any();
    let note = text::cat5("Clair `", name.as_str(), "` missing `", field, "`");
    let ev = events::new(
        EventType::Warning,
        event::Reason::MissingRequiredField,
        event::Action::Reconcile,
    );
    events::Event { note: Some(note), ..ev }
}

/// Says what to do for an instance.
pub fn reconcile_one(clair: &Clair) -> (r: Plan)
    ensures
        r.events.deep_view() == missing_fields(clair@),
        missing_fields(clair@).len() > 0 ==> r.steps@ == Seq::<Step>::empty() && r.next
            == Requeue::AwaitChange,
        missing_fields(clair@).len() == 0 ==> r.steps@ == steps_for(clair@) && r.next == (
        if has_config(clair@) {
            Requeue::After(3600000)
        } else {
            Requeue::After(250)
        }),
{
    let mut events: Vec<events::Event> = none();
    if clair.spec.databases.is_none() {
        push(&mut events, missing_event(clair, "$.spec.databases"));
    }
    if clair.spec.image.is_none() {
        push(&mut events, missing_event(clair, "$.spec.image"));
    }
    assert(events.deep_view() =~= missing_fields(clair@));
    assert(events.deep_view().len() == events@.len());
    let mut steps: Vec<Step> = Vec::new();
    if events.len() > 0 {
        return Plan { events, steps, next: Requeue::AwaitChange };
    }
    steps.push(Step::Configuration);
    let configured = match &clair.status {
        Some(status) => status.config.is_some(),
        None => false,
    };
    if !configured {
        assert(steps@ =~= steps_for(clair@));
        return Plan { events, steps, next: Requeue::After(250) };
    }
    steps.push(Step::AdminPre);
    steps.push(Step::PromoteImage);
    steps.push(Step::Indexer);
    steps.push(Step::Matcher);
    if let Some(true) = clair.spec.notifier {
        steps.push(Step::Notifier);
    }
    steps.push(Step::AdminPost);
    assert(steps@ =~= steps_for(clair@));
    Plan { events, steps, next: Requeue::After(DEFAULT_REQUEUE) }
}

/// The configuration sources of an instance: what its own map holds, its databases and what it
/// lists.
pub open spec fn config_source(c: ClairView, cm: ConfigMapView) -> ConfigSourceView {
    ConfigSourceBuilder::built(
        adding(
            adding(config_source_builder(cm), database_dropins(c.spec.databases)),
            c.spec.dropins,
        ),
    )
}

/// The condition of an instance whose configuration is in place.
pub open spec fn config_ready(c: ClairView, now: TimeView) -> ConditionView {
    condition_at(
        c.metadata.generation,
        Type::ConfigReady,
        Status::True,
        "Reconciled"@,
        "ConfigSource object in desired state"@,
        now,
    )
}

/// Says what to put in the status of an instance once its ConfigMap is there.
pub fn configuration(clair: &Clair, cm: &ConfigMap, now: Time) -> (r: Result<
    ClairStatus,
    templates::Error,
>)
    requires
        cm@.metadata.name is Some,
    ensures
        outcome(r) == Ok::<ClairStatusView, ErrorView>(
            ClairStatusView {
                config: Some(config_source(clair@, cm@)),
                conditions: Some(seq![config_ready(clair@, now@)]),
                ..ClairStatusView::blank()
            },
        ),
{
    let mut databases: Vec<DropinSource> = none();
    if let Some(db) = &clair.spec.databases {
        push(&mut databases, DropinSource::secret(db.indexer.name.as_str(), db.indexer.key.as_str()));
        push(&mut databases, DropinSource::secret(db.matcher.name.as_str(), db.matcher.key.as_str()));
        if let Some(s) = &db.notifier {
            push(&mut databases, DropinSource::secret(s.name.as_str(), s.key.as_str()));
        }
    }
    assert(databases.deep_view() =~= database_dropins(clair@.spec.databases));
    let builder = match ConfigSourceBuilder::try_from(cm) {
        Ok(builder) => builder,
        Err(e) => return Err(e),
    };
    let cfgsrc = builder.with_dropins(&databases).with_dropins(&clair.spec.dropins).build();
    let ready = condition::new_at(
        clair,
        Type::ConfigReady,
        Status::True,
        reason::Configuration::Reconciled,
        "ConfigSource object in desired state",
        now,
    );
    Ok(ClairStatus { config: Some(cfgsrc), conditions: Some(one(ready)), ..Default::default() })
}

/// The condition on the job before an upgrade, if there is one.
pub open spec fn pre_job_condition(c: ClairView) -> Option<ConditionView> {
    first_condition(Clair::conditions_of(c), Type::AdminPreJobDone)
}

/// The image that an instance runs.
pub open spec fn current_image(c: ClairView) -> Option<Seq<char>> {
    match c.status {
        Some(status) => status.image,
        None => None,
    }
}

/// The image that an instance should run is tagged with a version.
pub open spec fn is_versioned(c: ClairView) -> bool {
    c.spec.image is Some && version_of(c.spec.image->0) is Some
}

/// The image was changed, and the job before the upgrade was not started for that change yet.
pub open spec fn wants_pre_job(c: ClairView) -> bool {
    pre_job_condition(c) is Some && c.spec.image != current_image(c) && c.metadata.generation
        != pre_job_condition(c)->0.observed_generation
}

/// A condition on the job before an upgrade.
pub open spec fn pre_job_state(
    c: ClairView,
    status: Status,
    reason: Seq<char>,
    message: Seq<char>,
    now: TimeView,
) -> ConditionView {
    condition_at(c.metadata.generation, Type::AdminPreJobDone, status, reason, message, now)
}

/// What to do about the job before an upgrade.
#[derive(Debug, PartialEq)]
pub enum AdminPre {
    /// Nothing, with a word on why not. The word is for the log: nothing is sent to the cluster.
    Skip(events::Event),
    /// Set a condition.
    Report(Condition),
    /// Create the job and set a condition.
    Create(Job, Condition),
    /// Look for the job of that name, and ask again with what was found.
    Check(String),
    /// Nothing: the job is done.
    Done,
}

/// The value of an [`AdminPre`].
pub ghost enum AdminPreView {
    Skip(events::EventView),
    Report(ConditionView),
    Create(JobView, ConditionView),
    Check(Seq<char>),
    Done,
}

impl DeepView for AdminPre {
    type V = AdminPreView;

    open spec fn deep_view(&self) -> AdminPreView {
        match self {
            AdminPre::Skip(ev) => AdminPreView::Skip(ev@),
            AdminPre::Report(cnd) => AdminPreView::Report(cnd@),
            AdminPre::Create(job, cnd) => AdminPreView::Create(job@, cnd@),
            AdminPre::Check(name) => AdminPreView::Check(name@),
            AdminPre::Done => AdminPreView::Done,
        }
    }
}

/// Word that the image is tagged with no version.
pub open spec fn not_versioned(action: Seq<char>, note: Option<Seq<char>>) -> events::EventView {
    events::EventView {
        note,
        ..events::event_of(EventType::Normal, "ImageRefNotVersioned"@, action)
    }
}

/// What to do about the job before an upgrade.
pub open spec fn admin_pre_for(c: ClairView, now: TimeView) -> Result<AdminPreView, ErrorView> {
    if !is_versioned(c) {
        Ok(
            AdminPreView::Skip(
                not_versioned("AdminPre"@, Some("skipping \"admin\" jobs"@)),
            ),
        )
    } else {
        match pre_job_condition(c) {
            None => Ok(
                AdminPreView::Report(
                    pre_job_state(
                        c,
                        Status::True,
                        "NewClair"@,
                        "pre jobs are not needed on a fresh system"@,
                        now,
                    ),
                ),
            ),
            Some(cnd) => if wants_pre_job(c) {
                match job_builder(c, JobKind::AdminPre) {
                    Ok(builder) => Ok(
                        AdminPreView::Create(
                            job_of(builder),
                            pre_job_state(
                                c,
                                Status::False,
                                "ImageUpdated"@,
                                "spec changed, launching \"admin pre\" job"@,
                                now,
                            ),
                        ),
                    ),
                    Err(e) => Err(e),
                }
            } else if cnd.status != "True"@ {
                match admin_pre_job_name(c) {
                    Ok(name) => Ok(AdminPreView::Check(name)),
                    Err(e) => Err(e),
                }
            } else {
                Ok(AdminPreView::Done)
            },
        }
    }
}

/// A job is to be created or looked for, so that it has to be named.
pub open spec fn needs_job_name(c: ClairView) -> bool {
    &&& is_versioned(c)
    &&& pre_job_condition(c) is Some
    &&& if wants_pre_job(c) {
        can_name_job(c)
    } else {
        pre_job_condition(c)->0.status != "True"@
    }
}

/// The admin_pre step is responsible for arranging for the admin pre-upgrade job to run and
/// tracking its state.
pub fn admin_pre(clair: &Clair, now: Time) -> (r: Result<AdminPre, templates::Error>)
    requires
        needs_job_name(clair@) ==> clair@.metadata.name is Some,
    ensures
        outcome(r) == admin_pre_for(clair@, now@),
{
    let versioned = match &clair.spec.image {
        Some(image) => image_version(image.as_str()).is_some(),
        None => false,
    };
    if !versioned {
        let ev = events::new(
            EventType::Normal,
            event::Reason::ImageRefNotVersioned,
            event::Action::AdminPre,
        );
        return Ok(
            AdminPre::Skip(
                events::Event { note: Some("skipping \"admin\" jobs".to_owned()), ..ev },
            ),
        );
    }
    let job_type = Type::AdminPreJobDone;
    let cnd = match clair.find_condition(job_type) {
        Some(cnd) => cnd,
        None => {
            return Ok(
                AdminPre::Report(
                    condition::new_at(
                        clair,
                        job_type,
                        Status::True,
                        reason::AdminPre::NewClair,
                        "pre jobs are not needed on a fresh system",
                        now,
                    ),
                ),
            );
        },
    };
    let status_image = match &clair.status {
        Some(status) => status.image.dup(),
        None => None,
    };
    let create = !clair.spec.image.same(&status_image) && !clair.metadata.generation.same(
        &cnd.observed_generation,
    );
    if create {
        return match JobBuilder::admin_pre(clair) {
            Ok(builder) => Ok(
                AdminPre::Create(
                    builder.build(),
                    condition::new_at(
                        clair,
                        job_type,
                        Status::False,
                        reason::AdminPre::ImageUpdated,
                        "spec changed, launching \"admin pre\" job",
                        now,
                    ),
                ),
            ),
            Err(e) => Err(e),
        };
    }
    if !text::same(cnd.status.as_str(), "True") {
        return match JobBuilder::admin_pre_name(clair) {
            Ok(name) => Ok(AdminPre::Check(name)),
            Err(e) => Err(e),
        };
    }
    Ok(AdminPre::Done)
}

/// A job of which nothing runs any more has succeeded or failed.
pub open spec fn is_settled(status: JobStatusView) -> bool {
    status.active == Some(0i32) ==> status.failed == Some(1i32) || status.succeeded == Some(1i32)
}

/// The state of a job.
pub open spec fn job_status(job: JobView) -> JobStatusView {
    match job.status {
        Some(status) => status,
        None => JobStatusView::blank(),
    }
}

/// The condition on the job before an upgrade, by what was found under its name.
pub open spec fn admin_pre_found(
    c: ClairView,
    name: Seq<char>,
    job: Option<JobView>,
    now: TimeView,
) -> ConditionView {
    match job {
        None => pre_job_state(
            c,
            Status::Unknown,
            "JobMissing"@,
            "unable to fetch job \""@ + name + "\""@,
            now,
        ),
        Some(job) => {
            let status = job_status(job);
            if status.active != Some(0i32) {
                pre_job_state(c, Status::False, "JobNotComplete"@, "job not complete"@, now)
            } else if status.failed == Some(1i32) {
                pre_job_state(
                    c,
                    Status::False,
                    "JobFailed"@,
                    "job failed, please investigate"@,
                    now,
                )
            } else {
                pre_job_state(
                    c,
                    Status::True,
                    "JobSucceeded"@,
                    "job completed successfully"@,
                    now,
                )
            }
        },
    }
}

/// Says what to report of the job before an upgrade, by what was found under its name.
pub fn admin_pre_check(clair: &Clair, name: &str, job: &Option<Job>, now: Time) -> (r: Condition)
    requires
        job matches Some(job) ==> is_settled(job_status(job@)),
    ensures
        r@ == admin_pre_found(clair@, name@, job.deep_view(), now@),
{
    let job_type = Type::AdminPreJobDone;
    let job = match job {
        Some(job) => job,
        None => {
            let message = text::cat3("unable to fetch job \"", name, "\"");
            return condition::new_at(
                clair,
                job_type,
                Status::Unknown,
                reason::AdminPre::JobMissing,
                message.as_str(),
                now,
            );
        },
    };
    let (active, failed) = match &job.status {
        Some(status) => (status.active, status.failed),
        None => (None, None),
    };
    match (active, failed) {
        (Some(0), Some(1)) => condition::new_at(
            clair,
            job_type,
            Status::False,
            reason::AdminPre::JobFailed,
            "job failed, please investigate",
            now,
        ),
        (Some(0), _) => condition::new_at(
            clair,
            job_type,
            Status::True,
            reason::AdminPre::JobSucceeded,
            "job completed successfully",
            now,
        ),
        _ => condition::new_at(
            clair,
            job_type,
            Status::False,
            reason::AdminPre::JobNotComplete,
            "job not complete",
            now,
        ),
    }
}

/// The image that an instance should run is to be made current.
pub open spec fn wants_promotion(c: ClairView) -> bool {
    match pre_job_condition(c) {
        // If there's no condition, assume there's no previous image to update from.
        None => true,
        Some(cnd) => {
            &&& c.spec.image != current_image(c)
            &&& c.metadata.generation == cnd.observed_generation
            &&& cnd.status == "True"@
        },
    }
}

/// What to put in the status of an instance to make its image current.
pub open spec fn promotion(c: ClairView) -> Option<ClairStatusView> {
    if wants_promotion(c) {
        Some(ClairStatusView { image: c.spec.image, ..ClairStatusView::blank() })
    } else {
        None
    }
}

/// Says what to put in the status of an instance to make its image current, if it is time for that.
pub fn promote_image(clair: &Clair) -> (r: Option<ClairStatus>)
    ensures
        r.deep_view() == promotion(clair@),
{
    let status_image = match &clair.status {
        Some(status) => status.image.dup(),
        None => None,
    };
    let image_same = clair.spec.image.same(&status_image);
    let promote = match clair.find_condition(Type::AdminPreJobDone) {
        None => true,
        Some(cnd) => if image_same {
            false
        } else if !clair.metadata.generation.same(&cnd.observed_generation) {
            false
        } else {
            text::same(cnd.status.as_str(), "True")
        },
    };
    if promote {
        Some(ClairStatus { image: clair.spec.image.dup(), ..Default::default() })
    } else {
        None
    }
}

/// While the job before an upgrade is still to be created, the image is not made current.
pub proof fn no_promotion_before_job(c: ClairView)
    requires
        wants_pre_job(c),
    ensures
        !wants_promotion(c),
{
}

/// Once the job that was started for the present generation is reported to have succeeded, the
/// image is made current, unless it is already.
pub proof fn promotion_follows_success(c: ClairView, job: JobView, name: Seq<char>, now: TimeView)
    requires
        pre_job_condition(c) == Some(admin_pre_found(c, name, Some(job), now)),
        job_status(job).active == Some(0i32),
        job_status(job).failed != Some(1i32),
        c.spec.image != current_image(c),
    ensures
        wants_promotion(c),
{
}

/// What an upgrade waits for.
#[derive(Debug, PartialEq)]
pub enum AdminPost {
    /// Nothing to do, and that event to publish.
    Publish(events::Event),
    /// Nothing to do, with a word on why not. The word is for the log: nothing is sent to the
    /// cluster.
    Stop(events::Event),
    /// All deployments of these names have to be ready.
    Await(Vec<String>),
}

/// The value of an [`AdminPost`].
pub ghost enum AdminPostView {
    Publish(events::EventView),
    Stop(events::EventView),
    Await(Seq<Seq<char>>),
}

impl DeepView for AdminPost {
    type V = AdminPostView;

    open spec fn deep_view(&self) -> AdminPostView {
        match self {
            AdminPost::Publish(ev) => AdminPostView::Publish(ev@),
            AdminPost::Stop(ev) => AdminPostView::Stop(ev@),
            AdminPost::Await(names) => AdminPostView::Await(names.deep_view()),
        }
    }
}

/// An instance has a condition of a type, and it is true.
pub open spec fn condition_holds(c: ClairView, ty: Type) -> bool {
    match first_condition(Clair::conditions_of(c), ty) {
        Some(cnd) => Status::of(cnd.status) == Status::True,
        None => false,
    }
}

/// All conditions that the job after an upgrade depends on are true.
pub open spec fn post_conditions_hold(c: ClairView) -> bool {
    &&& condition_holds(c, Type::AdminPostJobDone)
    &&& condition_holds(c, Type::IndexerCreated)
    &&& condition_holds(c, Type::MatcherCreated)
    &&& c.spec.notifier == Some(true) ==> condition_holds(c, Type::NotifierCreated)
}

/// The deployments that the job after an upgrade depends on.
pub open spec fn post_deployments(c: ClairView) -> Seq<Seq<char>> {
    let name = c.metadata.name->0;
    let both = seq![name + "-"@ + "Indexer"@, name + "-"@ + "Matcher"@];
    if c.spec.notifier == Some(true) {
        both.push(name + "-"@ + "Notifier"@)
    } else {
        both
    }
}

/// Word that it is too early for the job after an upgrade.
pub open spec fn post_not_ready(note: Seq<char>) -> events::EventView {
    events::EventView {
        note: Some(note),
        ..events::event_of(EventType::Normal, "AdminPostNotReady"@, "AdminPost"@)
    }
}

/// What the job after an upgrade waits for.
pub open spec fn admin_post_for(c: ClairView) -> AdminPostView {
    if !is_versioned(c) {
        AdminPostView::Publish(not_versioned("AdminPost"@, None))
    } else if !post_conditions_hold(c) {
        AdminPostView::Stop(post_not_ready("conditions not met"@))
    } else {
        AdminPostView::Await(post_deployments(c))
    }
}

/// Reports whether an instance has a condition of a type, and it is true.
fn holds(clair: &Clair, ty: Type) -> (r: bool)
    ensures
        r == condition_holds(clair@, ty),
{
    match clair.find_condition(ty) {
        Some(cnd) => Status::True.is(cnd.status.as_str()),
        None => false,
    }
}

/// Word that it is too early for the job after an upgrade.
fn not_ready(note: &str) -> (r: events::Event)
    ensures
        r@ == post_not_ready(note@),
{
    let ev = events::new(
        EventType::Normal,
        event::Reason::AdminPostNotReady,
        event::Action::AdminPost,
    );
    events::Event { note: Some(note.to_owned()), ..ev }
}

/// Says what the job after an upgrade waits for.
pub fn admin_post(clair: &Clair) -> (r: AdminPost)
    requires
        clair@.metadata.name is Some,
    ensures
        r.deep_view() == admin_post_for(clair@),
{
    let versioned = match &clair.spec.image {
        Some(image) => image_version(image.as_str()).is_some(),
        None => false,
    };
    if !versioned {
        return AdminPost::Publish(
            events::new(
                EventType::Normal,
                event::Reason::ImageRefNotVersioned,
                event::Action::AdminPost,
            ),
        );
    }
    let notifier = match clair.spec.notifier {
        Some(enable) => enable,
        None => false,
    };
    let ok = holds(clair, Type::AdminPostJobDone) && holds(clair, Type::IndexerCreated) && holds(
        clair,
        Type::MatcherCreated,
    ) && (!notifier || holds(clair, Type::NotifierCreated));
    if !ok {
        return AdminPost::Stop(not_ready("conditions not met"));
    }
    let name = clair.metadata.name.as_ref().unwrap();
    let mut names: Vec<String> = none();
    push(&mut names, text::cat3(name.as_str(), "-", Indexer::kind()));
    push(&mut names, text::cat3(name.as_str(), "-", Matcher::kind()));
    if notifier {
        push(&mut names, text::cat3(name.as_str(), "-", Notifier::kind()));
    }
    assert(names.deep_view() =~= post_deployments(clair@));
    AdminPost::Await(names)
}

/// A condition says that its deployment is ready.
pub open spec fn says_ready(cnd: DeploymentConditionView) -> bool {
    cnd.type_ == "Ready"@ && cnd.status == "True"@
}

/// A deployment is ready.
pub open spec fn is_ready(d: DeploymentView) -> bool {
    &&& d.status is Some
    &&& d.status->0.conditions is Some
    &&& exists|i: int|
        0 <= i < d.status->0.conditions->0.len() && says_ready(
            #[trigger] d.status->0.conditions->0[i],
        )
}

/// Reports whether a deployment is ready.
pub fn deployment_ready(d: &Deployment) -> (r: bool)
    ensures
        r == is_ready(d@),
{
    let conditions = match &d.status {
        Some(status) => match &status.conditions {
            Some(conditions) => conditions,
            None => return false,
        },
        None => return false,
    };
    let ghost all = conditions.deep_view();
    let mut i: usize = 0;
    while i < conditions.len()
        invariant
            all == conditions.deep_view(),
            d@.status is Some,
            d@.status->0.conditions == Some(all),
            i <= conditions@.len(),
            forall|j: int| 0 <= j < i ==> !says_ready(#[trigger] all[j]),
        decreases conditions.len() - i,
    {
        assert(all[i as int] == conditions@[i as int]@);
        if text::same(conditions[i].type_.as_str(), "Ready") && text::same(
            conditions[i].status.as_str(),
            "True",
        ) {
            assert(says_ready(d@.status->0.conditions->0[i as int]));
            return true;
        }
        i = i + 1;
    }
    false
}

/// Says what to publish, by whether all deployments that were waited for are ready.
pub fn admin_post_check(ready: bool) -> (r: Option<events::Event>)
    ensures
        r.deep_view() == (if ready {
            None
        } else {
            Some(post_not_ready("Deployments not ready"@))
        }),
{
    if ready {
        None
    } else {
        Some(not_ready("Deployments not ready"))
    }
}

/// Says what to publish when an instance is to go. There is nothing else to clean up.
pub fn cleanup_one() -> (r: (events::Event, Requeue))
    ensures
        r.0@ == events::event_of(EventType::Normal, "DeleteRequested"@, "Cleanup"@),
        r.1 == Requeue::AwaitChange,
{
    (
        events::new(EventType::Normal, event::Reason::DeleteRequested, event::Action::Cleanup),
        Requeue::AwaitChange,
    )
}

} // verus!
