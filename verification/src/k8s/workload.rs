//! Deployments, jobs, autoscalers and routes.

use vstd::prelude::*;

use crate::model::Model;
use crate::k8s::pod::{PodTemplateSpec, PodTemplateSpecView};
use crate::k8s::meta::{LabelSelector, LabelSelectorView, ObjectMeta, ObjectMetaView};

verus! {

/// DeploymentStrategy is how pods are replaced.
#[derive(Debug, PartialEq)]
pub struct DeploymentStrategy {
    /// "Recreate" or "RollingUpdate".
    pub type_: Option<String>,
}

/// The value of a [`DeploymentStrategy`].
pub ghost struct DeploymentStrategyView {
    pub type_: Option<Seq<char>>,
}

impl DeepView for DeploymentStrategy {
    type V = DeploymentStrategyView;

    open spec fn deep_view(&self) -> DeploymentStrategyView {
        DeploymentStrategyView {
            type_: self.type_.deep_view(),
        }
    }
}

impl View for DeploymentStrategy {
    type V = DeploymentStrategyView;

    open spec fn view(&self) -> DeploymentStrategyView {
        self.deep_view()
    }
}

impl Model for DeploymentStrategy {
    fn dup(&self) -> (r: Self) {
        DeploymentStrategy {
            type_: self.type_.dup(),
        }
    }

    fn same(&self, other: &Self) -> (r: bool) {
        self.type_.same(&other.type_)
    }
}

impl DeploymentStrategyView {
    /// The value with nothing set.
    pub open spec fn blank() -> DeploymentStrategyView {
        DeploymentStrategyView {
            type_: None,
        }
    }
}

impl Default for DeploymentStrategy {
    fn default() -> (r: Self)
        ensures
            r@ == DeploymentStrategyView::blank(),
    {
        DeploymentStrategy {
            type_: None,
        }
    }
}

/// DeploymentSpec describes a deployment.
#[derive(Debug, PartialEq)]
pub struct DeploymentSpec {
    /// How long an update may take.
    pub progress_deadline_seconds: Option<i32>,
    /// How many pods to run.
    pub replicas: Option<i32>,
    /// How many old versions to keep.
    pub revision_history_limit: Option<i32>,
    /// Labels of the pods that belong to it.
    pub selector: LabelSelector,
    /// How pods are replaced.
    pub strategy: Option<DeploymentStrategy>,
    /// What the pods are made from.
    pub template: PodTemplateSpec,
}

/// The value of a [`DeploymentSpec`].
pub ghost struct DeploymentSpecView {
    pub progress_deadline_seconds: Option<i32>,
    pub replicas: Option<i32>,
    pub revision_history_limit: Option<i32>,
    pub selector: LabelSelectorView,
    pub strategy: Option<DeploymentStrategyView>,
    pub template: PodTemplateSpecView,
}

impl DeepView for DeploymentSpec {
    type V = DeploymentSpecView;

    open spec fn deep_view(&self) -> DeploymentSpecView {
        DeploymentSpecView {
            progress_deadline_seconds: self.progress_deadline_seconds.deep_view(),
            replicas: self.replicas.deep_view(),
            revision_history_limit: self.revision_history_limit.deep_view(),
            selector: self.selector.deep_view(),
            strategy: self.strategy.deep_view(),
            template: self.template.deep_view(),
        }
    }
}

impl View for DeploymentSpec {
    type V = DeploymentSpecView;

    open spec fn view(&self) -> DeploymentSpecView {
        self.deep_view()
    }
}

impl Model for DeploymentSpec {
    fn dup(&self) -> (r: Self) {
        DeploymentSpec {
            progress_deadline_seconds: self.progress_deadline_seconds.dup(),
            replicas: self.replicas.dup(),
            revision_history_limit: self.revision_history_limit.dup(),
            selector: self.selector.dup(),
            strategy: self.strategy.dup(),
            template: self.template.dup(),
        }
    }

    fn same(&self, other: &Self) -> (r: bool) {
        self.progress_deadline_seconds.same(&other.progress_deadline_seconds)
            && self.replicas.same(&other.replicas)
            && self.revision_history_limit.same(&other.revision_history_limit)
            && self.selector.same(&other.selector)
            && self.strategy.same(&other.strategy)
            && self.template.same(&other.template)
    }
}

impl DeploymentSpecView {
    /// The value with nothing set.
    pub open spec fn blank() -> DeploymentSpecView {
        DeploymentSpecView {
            progress_deadline_seconds: None,
            replicas: None,
            revision_history_limit: None,
            selector: LabelSelectorView::blank(),
            strategy: None,
            template: PodTemplateSpecView::blank(),
        }
    }
}

impl Default for DeploymentSpec {
    fn default() -> (r: Self)
        ensures
            r@ == DeploymentSpecView::blank(),
    {
        DeploymentSpec {
            progress_deadline_seconds: None,
            replicas: None,
            revision_history_limit: None,
            selector: LabelSelector::default(),
            strategy: None,
            template: PodTemplateSpec::default(),
        }
    }
}

/// DeploymentCondition is one aspect of a deployment's observed state.
#[derive(Debug, PartialEq)]
pub struct DeploymentCondition {
    /// A sentence for people.
    pub message: Option<String>,
    /// A word for why.
    pub reason: Option<String>,
    /// "True", "False" or "Unknown".
    pub status: String,
    /// Name of the aspect.
    pub type_: String,
}

/// The value of a [`DeploymentCondition`].
pub ghost struct DeploymentConditionView {
    pub message: Option<Seq<char>>,
    pub reason: Option<Seq<char>>,
    pub status: Seq<char>,
    pub type_: Seq<char>,
}

impl DeepView for DeploymentCondition {
    type V = DeploymentConditionView;

    open spec fn deep_view(&self) -> DeploymentConditionView {
        DeploymentConditionView {
            message: self.message.deep_view(),
            reason: self.reason.deep_view(),
            status: self.status.deep_view(),
            type_: self.type_.deep_view(),
        }
    }
}

impl View for DeploymentCondition {
    type V = DeploymentConditionView;

    open spec fn view(&self) -> DeploymentConditionView {
        self.deep_view()
    }
}

impl Model for DeploymentCondition {
    fn dup(&self) -> (r: Self) {
        DeploymentCondition {
            message: self.message.dup(),
            reason: self.reason.dup(),
            status: self.status.dup(),
            type_: self.type_.dup(),
        }
    }

    fn same(&self, other: &Self) -> (r: bool) {
        self.message.same(&other.message)
            && self.reason.same(&other.reason)
            && self.status.same(&other.status)
            && self.type_.same(&other.type_)
    }
}

impl DeploymentConditionView {
    /// The value with nothing set.
    pub open spec fn blank() -> DeploymentConditionView {
        DeploymentConditionView {
            message: None,
            reason: None,
            status: Seq::empty(),
            type_: Seq::empty(),
        }
    }
}

impl Default for DeploymentCondition {
    fn default() -> (r: Self)
        ensures
            r@ == DeploymentConditionView::blank(),
    {
        DeploymentCondition {
            message: None,
            reason: None,
            status: String::new(),
            type_: String::new(),
        }
    }
}

/// DeploymentStatus is the observed state of a deployment.
#[derive(Debug, PartialEq)]
pub struct DeploymentStatus {
    /// Aspects of the state.
    pub conditions: Option<Vec<DeploymentCondition>>,
}

/// The value of a [`DeploymentStatus`].
pub ghost struct DeploymentStatusView {
    pub conditions: Option<Seq<DeploymentConditionView>>,
}

impl DeepView for DeploymentStatus {
    type V = DeploymentStatusView;

    open spec fn deep_view(&self) -> DeploymentStatusView {
        DeploymentStatusView {
            conditions: self.conditions.deep_view(),
        }
    }
}

impl View for DeploymentStatus {
    type V = DeploymentStatusView;

    open spec fn view(&self) -> DeploymentStatusView {
        self.deep_view()
    }
}

impl Model for DeploymentStatus {
    fn dup(&self) -> (r: Self) {
        DeploymentStatus {
            conditions: self.conditions.dup(),
        }
    }

    fn same(&self, other: &Self) -> (r: bool) {
        self.conditions.same(&other.conditions)
    }
}

impl DeploymentStatusView {
    /// The value with nothing set.
    pub open spec fn blank() -> DeploymentStatusView {
        DeploymentStatusView {
            conditions: None,
        }
    }
}

impl Default for DeploymentStatus {
    fn default() -> (r: Self)
        ensures
            r@ == DeploymentStatusView::blank(),
    {
        DeploymentStatus {
            conditions: None,
        }
    }
}

/// Deployment keeps a number of pods running.
#[derive(Debug, PartialEq)]
pub struct Deployment {
    /// Name and owner.
    pub metadata: ObjectMeta,
    /// What to run.
    pub spec: Option<DeploymentSpec>,
    /// What runs.
    pub status: Option<DeploymentStatus>,
}

/// The value of a [`Deployment`].
pub ghost struct DeploymentView {
    pub metadata: ObjectMetaView,
    pub spec: Option<DeploymentSpecView>,
    pub status: Option<DeploymentStatusView>,
}

impl DeepView for Deployment {
    type V = DeploymentView;

    open spec fn deep_view(&self) -> DeploymentView {
        DeploymentView {
            metadata: self.metadata.deep_view(),
            spec: self.spec.deep_view(),
            status: self.status.deep_view(),
        }
    }
}

impl View for Deployment {
    type V = DeploymentView;

    open spec fn view(&self) -> DeploymentView {
        self.deep_view()
    }
}

impl Model for Deployment {
    fn dup(&self) -> (r: Self) {
        Deployment {
            metadata: self.metadata.dup(),
            spec: self.spec.dup(),
            status: self.status.dup(),
        }
    }

    fn same(&self, other: &Self) -> (r: bool) {
        self.metadata.same(&other.metadata)
            && self.spec.same(&other.spec)
            && self.status.same(&other.status)
    }
}

impl DeploymentView {
    /// The value with nothing set.
    pub open spec fn blank() -> DeploymentView {
        DeploymentView {
            metadata: ObjectMetaView::blank(),
            spec: None,
            status: None,
        }
    }
}

impl Default for Deployment {
    fn default() -> (r: Self)
        ensures
            r@ == DeploymentView::blank(),
    {
        Deployment {
            metadata: ObjectMeta::default(),
            spec: None,
            status: None,
        }
    }
}

/// JobSpec describes a job.
#[derive(Debug, PartialEq)]
pub struct JobSpec {
    /// How long the job may take.
    pub active_deadline_seconds: Option<i64>,
    /// How completions are told apart.
    pub completion_mode: Option<String>,
    /// How many pods must succeed.
    pub completions: Option<i32>,
    /// How many pods may run at once.
    pub parallelism: Option<i32>,
    /// What the pods are made from.
    pub template: PodTemplateSpec,
}

/// The value of a [`JobSpec`].
pub ghost struct JobSpecView {
    pub active_deadline_seconds: Option<i64>,
    pub completion_mode: Option<Seq<char>>,
    pub completions: Option<i32>,
    pub parallelism: Option<i32>,
    pub template: PodTemplateSpecView,
}

impl DeepView for JobSpec {
    type V = JobSpecView;

    open spec fn deep_view(&self) -> JobSpecView {
        JobSpecView {
            active_deadline_seconds: self.active_deadline_seconds.deep_view(),
            completion_mode: self.completion_mode.deep_view(),
            completions: self.completions.deep_view(),
            parallelism: self.parallelism.deep_view(),
            template: self.template.deep_view(),
        }
    }
}

impl View for JobSpec {
    type V = JobSpecView;

    open spec fn view(&self) -> JobSpecView {
        self.deep_view()
    }
}

impl Model for JobSpec {
    fn dup(&self) -> (r: Self) {
        JobSpec {
            active_deadline_seconds: self.active_deadline_seconds.dup(),
            completion_mode: self.completion_mode.dup(),
            completions: self.completions.dup(),
            parallelism: self.parallelism.dup(),
            template: self.template.dup(),
        }
    }

    fn same(&self, other: &Self) -> (r: bool) {
        self.active_deadline_seconds.same(&other.active_deadline_seconds)
            && self.completion_mode.same(&other.completion_mode)
            && self.completions.same(&other.completions)
            && self.parallelism.same(&other.parallelism)
            && self.template.same(&other.template)
    }
}

impl JobSpecView {
    /// The value with nothing set.
    pub open spec fn blank() -> JobSpecView {
        JobSpecView {
            active_deadline_seconds: None,
            completion_mode: None,
            completions: None,
            parallelism: None,
            template: PodTemplateSpecView::blank(),
        }
    }
}

impl Default for JobSpec {
    fn default() -> (r: Self)
        ensures
            r@ == JobSpecView::blank(),
    {
        JobSpec {
            active_deadline_seconds: None,
            completion_mode: None,
            completions: None,
            parallelism: None,
            template: PodTemplateSpec::default(),
        }
    }
}

/// JobStatus is the observed state of a job.
#[derive(Debug, PartialEq)]
pub struct JobStatus {
    /// How many pods run.
    pub active: Option<i32>,
    /// How many pods failed.
    pub failed: Option<i32>,
    /// How many pods succeeded.
    pub succeeded: Option<i32>,
}

/// The value of a [`JobStatus`].
pub ghost struct JobStatusView {
    pub active: Option<i32>,
    pub failed: Option<i32>,
    pub succeeded: Option<i32>,
}

impl DeepView for JobStatus {
    type V = JobStatusView;

    open spec fn deep_view(&self) -> JobStatusView {
        JobStatusView {
            active: self.active.deep_view(),
            failed: self.failed.deep_view(),
            succeeded: self.succeeded.deep_view(),
        }
    }
}

impl View for JobStatus {
    type V = JobStatusView;

    open spec fn view(&self) -> JobStatusView {
        self.deep_view()
    }
}

impl Model for JobStatus {
    fn dup(&self) -> (r: Self) {
        JobStatus {
            active: self.active.dup(),
            failed: self.failed.dup(),
            succeeded: self.succeeded.dup(),
        }
    }

    fn same(&self, other: &Self) -> (r: bool) {
        self.active.same(&other.active)
            && self.failed.same(&other.failed)
            && self.succeeded.same(&other.succeeded)
    }
}

impl JobStatusView {
    /// The value with nothing set.
    pub open spec fn blank() -> JobStatusView {
        JobStatusView {
            active: None,
            failed: None,
            succeeded: None,
        }
    }
}

impl Default for JobStatus {
    fn default() -> (r: Self)
        ensures
            r@ == JobStatusView::blank(),
    {
        JobStatus {
            active: None,
            failed: None,
            succeeded: None,
        }
    }
}

/// Job runs pods until they succeed.
#[derive(Debug, PartialEq)]
pub struct Job {
    /// Name and owner.
    pub metadata: ObjectMeta,
    /// What to run.
    pub spec: Option<JobSpec>,
    /// How far it is.
    pub status: Option<JobStatus>,
}

/// The value of a [`Job`].
pub ghost struct JobView {
    pub metadata: ObjectMetaView,
    pub spec: Option<JobSpecView>,
    pub status: Option<JobStatusView>,
}

impl DeepView for Job {
    type V = JobView;

    open spec fn deep_view(&self) -> JobView {
        JobView {
            metadata: self.metadata.deep_view(),
            spec: self.spec.deep_view(),
            status: self.status.deep_view(),
        }
    }
}

impl View for Job {
    type V = JobView;

    open spec fn view(&self) -> JobView {
        self.deep_view()
    }
}

impl Model for Job {
    fn dup(&self) -> (r: Self) {
        Job {
            metadata: self.metadata.dup(),
            spec: self.spec.dup(),
            status: self.status.dup(),
        }
    }

    fn same(&self, other: &Self) -> (r: bool) {
        self.metadata.same(&other.metadata)
            && self.spec.same(&other.spec)
            && self.status.same(&other.status)
    }
}

impl JobView {
    /// The value with nothing set.
    pub open spec fn blank() -> JobView {
        JobView {
            metadata: ObjectMetaView::blank(),
            spec: None,
            status: None,
        }
    }
}

impl Default for Job {
    fn default() -> (r: Self)
        ensures
            r@ == JobView::blank(),
    {
        Job {
            metadata: ObjectMeta::default(),
            spec: None,
            status: None,
        }
    }
}

/// JobTemplateSpec is what jobs are made from.
#[derive(Debug, PartialEq)]
pub struct JobTemplateSpec {
    /// Metadata of the jobs.
    pub metadata: Option<ObjectMeta>,
    /// What the jobs run.
    pub spec: Option<JobSpec>,
}

/// The value of a [`JobTemplateSpec`].
pub ghost struct JobTemplateSpecView {
    pub metadata: Option<ObjectMetaView>,
    pub spec: Option<JobSpecView>,
}

impl DeepView for JobTemplateSpec {
    type V = JobTemplateSpecView;

    open spec fn deep_view(&self) -> JobTemplateSpecView {
        JobTemplateSpecView {
            metadata: self.metadata.deep_view(),
            spec: self.spec.deep_view(),
        }
    }
}

impl View for JobTemplateSpec {
    type V = JobTemplateSpecView;

    open spec fn view(&self) -> JobTemplateSpecView {
        self.deep_view()
    }
}

impl Model for JobTemplateSpec {
    fn dup(&self) -> (r: Self) {
        JobTemplateSpec {
            metadata: self.metadata.dup(),
            spec: self.spec.dup(),
        }
    }

    fn same(&self, other: &Self) -> (r: bool) {
        self.metadata.same(&other.metadata)
            && self.spec.same(&other.spec)
    }
}

impl JobTemplateSpecView {
    /// The value with nothing set.
    pub open spec fn blank() -> JobTemplateSpecView {
        JobTemplateSpecView {
            metadata: None,
            spec: None,
        }
    }
}

impl Default for JobTemplateSpec {
    fn default() -> (r: Self)
        ensures
            r@ == JobTemplateSpecView::blank(),
    {
        JobTemplateSpec {
            metadata: None,
            spec: None,
        }
    }
}

/// CronJobSpec describes a cron job.
#[derive(Debug, PartialEq)]
pub struct CronJobSpec {
    /// What happens when a run is late.
    pub concurrency_policy: Option<String>,
    /// What the jobs are made from.
    pub job_template: JobTemplateSpec,
    /// When to run, in Cron format.
    pub schedule: String,
    /// How late a run may start.
    pub starting_deadline_seconds: Option<i64>,
    /// Set to stop further runs.
    pub suspend: Option<bool>,
    /// Time zone of the schedule.
    pub time_zone: Option<String>,
}

/// The value of a [`CronJobSpec`].
pub ghost struct CronJobSpecView {
    pub concurrency_policy: Option<Seq<char>>,
    pub job_template: JobTemplateSpecView,
    pub schedule: Seq<char>,
    pub starting_deadline_seconds: Option<i64>,
    pub suspend: Option<bool>,
    pub time_zone: Option<Seq<char>>,
}

impl DeepView for CronJobSpec {
    type V = CronJobSpecView;

    open spec fn deep_view(&self) -> CronJobSpecView {
        CronJobSpecView {
            concurrency_policy: self.concurrency_policy.deep_view(),
            job_template: self.job_template.deep_view(),
            schedule: self.schedule.deep_view(),
            starting_deadline_seconds: self.starting_deadline_seconds.deep_view(),
            suspend: self.suspend.deep_view(),
            time_zone: self.time_zone.deep_view(),
        }
    }
}

impl View for CronJobSpec {
    type V = CronJobSpecView;

    open spec fn view(&self) -> CronJobSpecView {
        self.deep_view()
    }
}

impl Model for CronJobSpec {
    fn dup(&self) -> (r: Self) {
        CronJobSpec {
            concurrency_policy: self.concurrency_policy.dup(),
            job_template: self.job_template.dup(),
            schedule: self.schedule.dup(),
            starting_deadline_seconds: self.starting_deadline_seconds.dup(),
            suspend: self.suspend.dup(),
            time_zone: self.time_zone.dup(),
        }
    }

    fn same(&self, other: &Self) -> (r: bool) {
        self.concurrency_policy.same(&other.concurrency_policy)
            && self.job_template.same(&other.job_template)
            && self.schedule.same(&other.schedule)
            && self.starting_deadline_seconds.same(&other.starting_deadline_seconds)
            && self.suspend.same(&other.suspend)
            && self.time_zone.same(&other.time_zone)
    }
}

impl CronJobSpecView {
    /// The value with nothing set.
    pub open spec fn blank() -> CronJobSpecView {
        CronJobSpecView {
            concurrency_policy: None,
            job_template: JobTemplateSpecView::blank(),
            schedule: Seq::empty(),
            starting_deadline_seconds: None,
            suspend: None,
            time_zone: None,
        }
    }
}

impl Default for CronJobSpec {
    fn default() -> (r: Self)
        ensures
            r@ == CronJobSpecView::blank(),
    {
        CronJobSpec {
            concurrency_policy: None,
            job_template: JobTemplateSpec::default(),
            schedule: String::new(),
            starting_deadline_seconds: None,
            suspend: None,
            time_zone: None,
        }
    }
}

/// CronJob starts jobs on a schedule.
#[derive(Debug, PartialEq)]
pub struct CronJob {
    /// Name and owner.
    pub metadata: ObjectMeta,
    /// What to run and when.
    pub spec: Option<CronJobSpec>,
}

/// The value of a [`CronJob`].
pub ghost struct CronJobView {
    pub metadata: ObjectMetaView,
    pub spec: Option<CronJobSpecView>,
}

impl DeepView for CronJob {
    type V = CronJobView;

    open spec fn deep_view(&self) -> CronJobView {
        CronJobView {
            metadata: self.metadata.deep_view(),
            spec: self.spec.deep_view(),
        }
    }
}

impl View for CronJob {
    type V = CronJobView;

    open spec fn view(&self) -> CronJobView {
        self.deep_view()
    }
}

impl Model for CronJob {
    fn dup(&self) -> (r: Self) {
        CronJob {
            metadata: self.metadata.dup(),
            spec: self.spec.dup(),
        }
    }

    fn same(&self, other: &Self) -> (r: bool) {
        self.metadata.same(&other.metadata)
            && self.spec.same(&other.spec)
    }
}

impl CronJobView {
    /// The value with nothing set.
    pub open spec fn blank() -> CronJobView {
        CronJobView {
            metadata: ObjectMetaView::blank(),
            spec: None,
        }
    }
}

impl Default for CronJob {
    fn default() -> (r: Self)
        ensures
            r@ == CronJobView::blank(),
    {
        CronJob {
            metadata: ObjectMeta::default(),
            spec: None,
        }
    }
}

/// CrossVersionObjectReference names an object that is scaled.
#[derive(Debug, PartialEq)]
pub struct CrossVersionObjectReference {
    /// Group and version of the object.
    pub api_version: Option<String>,
    /// Kind of the object.
    pub kind: String,
    /// Name of the object.
    pub name: String,
}

/// The value of a [`CrossVersionObjectReference`].
pub ghost struct CrossVersionObjectReferenceView {
    pub api_version: Option<Seq<char>>,
    pub kind: Seq<char>,
    pub name: Seq<char>,
}

impl DeepView for CrossVersionObjectReference {
    type V = CrossVersionObjectReferenceView;

    open spec fn deep_view(&self) -> CrossVersionObjectReferenceView {
        CrossVersionObjectReferenceView {
            api_version: self.api_version.deep_view(),
            kind: self.kind.deep_view(),
            name: self.name.deep_view(),
        }
    }
}

impl View for CrossVersionObjectReference {
    type V = CrossVersionObjectReferenceView;

    open spec fn view(&self) -> CrossVersionObjectReferenceView {
        self.deep_view()
    }
}

impl Model for CrossVersionObjectReference {
    fn dup(&self) -> (r: Self) {
        CrossVersionObjectReference {
            api_version: self.api_version.dup(),
            kind: self.kind.dup(),
            name: self.name.dup(),
        }
    }

    fn same(&self, other: &Self) -> (r: bool) {
        self.api_version.same(&other.api_version)
            && self.kind.same(&other.kind)
            && self.name.same(&other.name)
    }
}

impl CrossVersionObjectReferenceView {
    /// The value with nothing set.
    pub open spec fn blank() -> CrossVersionObjectReferenceView {
        CrossVersionObjectReferenceView {
            api_version: None,
            kind: Seq::empty(),
            name: Seq::empty(),
        }
    }
}

impl Default for CrossVersionObjectReference {
    fn default() -> (r: Self)
        ensures
            r@ == CrossVersionObjectReferenceView::blank(),
    {
        CrossVersionObjectReference {
            api_version: None,
            kind: String::new(),
            name: String::new(),
        }
    }
}

/// MetricTarget is the value that a metric should have.
#[derive(Debug, PartialEq)]
pub struct MetricTarget {
    /// Percentage of what was asked for.
    pub average_utilization: Option<i32>,
    /// "Utilization", "Value" or "AverageValue".
    pub type_: String,
}

/// The value of a [`MetricTarget`].
pub ghost struct MetricTargetView {
    pub average_utilization: Option<i32>,
    pub type_: Seq<char>,
}

impl DeepView for MetricTarget {
    type V = MetricTargetView;

    open spec fn deep_view(&self) -> MetricTargetView {
        MetricTargetView {
            average_utilization: self.average_utilization.deep_view(),
            type_: self.type_.deep_view(),
        }
    }
}

impl View for MetricTarget {
    type V = MetricTargetView;

    open spec fn view(&self) -> MetricTargetView {
        self.deep_view()
    }
}

impl Model for MetricTarget {
    fn dup(&self) -> (r: Self) {
        MetricTarget {
            average_utilization: self.average_utilization.dup(),
            type_: self.type_.dup(),
        }
    }

    fn same(&self, other: &Self) -> (r: bool) {
        self.average_utilization.same(&other.average_utilization)
            && self.type_.same(&other.type_)
    }
}

impl MetricTargetView {
    /// The value with nothing set.
    pub open spec fn blank() -> MetricTargetView {
        MetricTargetView {
            average_utilization: None,
            type_: Seq::empty(),
        }
    }
}

impl Default for MetricTarget {
    fn default() -> (r: Self)
        ensures
            r@ == MetricTargetView::blank(),
    {
        MetricTarget {
            average_utilization: None,
            type_: String::new(),
        }
    }
}

/// ResourceMetricSource is a metric on a resource of the pods.
#[derive(Debug, PartialEq)]
pub struct ResourceMetricSource {
    /// Which resource.
    pub name: String,
    /// Value it should have.
    pub target: MetricTarget,
}

/// The value of a [`ResourceMetricSource`].
pub ghost struct ResourceMetricSourceView {
    pub name: Seq<char>,
    pub target: MetricTargetView,
}

impl DeepView for ResourceMetricSource {
    type V = ResourceMetricSourceView;

    open spec fn deep_view(&self) -> ResourceMetricSourceView {
        ResourceMetricSourceView {
            name: self.name.deep_view(),
            target: self.target.deep_view(),
        }
    }
}

impl View for ResourceMetricSource {
    type V = ResourceMetricSourceView;

    open spec fn view(&self) -> ResourceMetricSourceView {
        self.deep_view()
    }
}

impl Model for ResourceMetricSource {
    fn dup(&self) -> (r: Self) {
        ResourceMetricSource {
            name: self.name.dup(),
            target: self.target.dup(),
        }
    }

    fn same(&self, other: &Self) -> (r: bool) {
        self.name.same(&other.name)
            && self.target.same(&other.target)
    }
}

impl ResourceMetricSourceView {
    /// The value with nothing set.
    pub open spec fn blank() -> ResourceMetricSourceView {
        ResourceMetricSourceView {
            name: Seq::empty(),
            target: MetricTargetView::blank(),
        }
    }
}

impl Default for ResourceMetricSource {
    fn default() -> (r: Self)
        ensures
            r@ == ResourceMetricSourceView::blank(),
    {
        ResourceMetricSource {
            name: String::new(),
            target: MetricTarget::default(),
        }
    }
}

/// MetricSpec is one metric that decides the scale.
#[derive(Debug, PartialEq)]
pub struct MetricSpec {
    /// Set for a resource of the pods.
    pub resource: Option<ResourceMetricSource>,
    /// Kind of metric.
    pub type_: String,
}

/// The value of a [`MetricSpec`].
pub ghost struct MetricSpecView {
    pub resource: Option<ResourceMetricSourceView>,
    pub type_: Seq<char>,
}

impl DeepView for MetricSpec {
    type V = MetricSpecView;

    open spec fn deep_view(&self) -> MetricSpecView {
        MetricSpecView {
            resource: self.resource.deep_view(),
            type_: self.type_.deep_view(),
        }
    }
}

impl View for MetricSpec {
    type V = MetricSpecView;

    open spec fn view(&self) -> MetricSpecView {
        self.deep_view()
    }
}

impl Model for MetricSpec {
    fn dup(&self) -> (r: Self) {
        MetricSpec {
            resource: self.resource.dup(),
            type_: self.type_.dup(),
        }
    }

    fn same(&self, other: &Self) -> (r: bool) {
        self.resource.same(&other.resource)
            && self.type_.same(&other.type_)
    }
}

impl MetricSpecView {
    /// The value with nothing set.
    pub open spec fn blank() -> MetricSpecView {
        MetricSpecView {
            resource: None,
            type_: Seq::empty(),
        }
    }
}

impl Default for MetricSpec {
    fn default() -> (r: Self)
        ensures
            r@ == MetricSpecView::blank(),
    {
        MetricSpec {
            resource: None,
            type_: String::new(),
        }
    }
}

/// HorizontalPodAutoscalerSpec describes an autoscaler.
#[derive(Debug, PartialEq)]
pub struct HorizontalPodAutoscalerSpec {
    /// Most pods to run.
    pub max_replicas: i32,
    /// What decides the scale.
    pub metrics: Option<Vec<MetricSpec>>,
    /// Fewest pods to run.
    pub min_replicas: Option<i32>,
    /// What is scaled.
    pub scale_target_ref: CrossVersionObjectReference,
}

/// The value of a [`HorizontalPodAutoscalerSpec`].
pub ghost struct HorizontalPodAutoscalerSpecView {
    pub max_replicas: i32,
    pub metrics: Option<Seq<MetricSpecView>>,
    pub min_replicas: Option<i32>,
    pub scale_target_ref: CrossVersionObjectReferenceView,
}

impl DeepView for HorizontalPodAutoscalerSpec {
    type V = HorizontalPodAutoscalerSpecView;

    open spec fn deep_view(&self) -> HorizontalPodAutoscalerSpecView {
        HorizontalPodAutoscalerSpecView {
            max_replicas: self.max_replicas.deep_view(),
            metrics: self.metrics.deep_view(),
            min_replicas: self.min_replicas.deep_view(),
            scale_target_ref: self.scale_target_ref.deep_view(),
        }
    }
}

impl View for HorizontalPodAutoscalerSpec {
    type V = HorizontalPodAutoscalerSpecView;

    open spec fn view(&self) -> HorizontalPodAutoscalerSpecView {
        self.deep_view()
    }
}

impl Model for HorizontalPodAutoscalerSpec {
    fn dup(&self) -> (r: Self) {
        HorizontalPodAutoscalerSpec {
            max_replicas: self.max_replicas.dup(),
            metrics: self.metrics.dup(),
            min_replicas: self.min_replicas.dup(),
            scale_target_ref: self.scale_target_ref.dup(),
        }
    }

    fn same(&self, other: &Self) -> (r: bool) {
        self.max_replicas.same(&other.max_replicas)
            && self.metrics.same(&other.metrics)
            && self.min_replicas.same(&other.min_replicas)
            && self.scale_target_ref.same(&other.scale_target_ref)
    }
}

impl HorizontalPodAutoscalerSpecView {
    /// The value with nothing set.
    pub open spec fn blank() -> HorizontalPodAutoscalerSpecView {
        HorizontalPodAutoscalerSpecView {
            max_replicas: 0,
            metrics: None,
            min_replicas: None,
            scale_target_ref: CrossVersionObjectReferenceView::blank(),
        }
    }
}

impl Default for HorizontalPodAutoscalerSpec {
    fn default() -> (r: Self)
        ensures
            r@ == HorizontalPodAutoscalerSpecView::blank(),
    {
        HorizontalPodAutoscalerSpec {
            max_replicas: 0,
            metrics: None,
            min_replicas: None,
            scale_target_ref: CrossVersionObjectReference::default(),
        }
    }
}

/// HorizontalPodAutoscaler picks the number of pods of a deployment.
#[derive(Debug, PartialEq)]
pub struct HorizontalPodAutoscaler {
    /// Name and owner.
    pub metadata: ObjectMeta,
    /// What to scale and how.
    pub spec: Option<HorizontalPodAutoscalerSpec>,
}

/// The value of a [`HorizontalPodAutoscaler`].
pub ghost struct HorizontalPodAutoscalerView {
    pub metadata: ObjectMetaView,
    pub spec: Option<HorizontalPodAutoscalerSpecView>,
}

impl DeepView for HorizontalPodAutoscaler {
    type V = HorizontalPodAutoscalerView;

    open spec fn deep_view(&self) -> HorizontalPodAutoscalerView {
        HorizontalPodAutoscalerView {
            metadata: self.metadata.deep_view(),
            spec: self.spec.deep_view(),
        }
    }
}

impl View for HorizontalPodAutoscaler {
    type V = HorizontalPodAutoscalerView;

    open spec fn view(&self) -> HorizontalPodAutoscalerView {
        self.deep_view()
    }
}

impl Model for HorizontalPodAutoscaler {
    fn dup(&self) -> (r: Self) {
        HorizontalPodAutoscaler {
            metadata: self.metadata.dup(),
            spec: self.spec.dup(),
        }
    }

    fn same(&self, other: &Self) -> (r: bool) {
        self.metadata.same(&other.metadata)
            && self.spec.same(&other.spec)
    }
}

impl HorizontalPodAutoscalerView {
    /// The value with nothing set.
    pub open spec fn blank() -> HorizontalPodAutoscalerView {
        HorizontalPodAutoscalerView {
            metadata: ObjectMetaView::blank(),
            spec: None,
        }
    }
}

impl Default for HorizontalPodAutoscaler {
    fn default() -> (r: Self)
        ensures
            r@ == HorizontalPodAutoscalerView::blank(),
    {
        HorizontalPodAutoscaler {
            metadata: ObjectMeta::default(),
            spec: None,
        }
    }
}

/// Ingress routes outside traffic to services.
#[derive(Debug, PartialEq)]
pub struct Ingress {
    /// Name and owner.
    pub metadata: ObjectMeta,
}

/// The value of an [`Ingress`].
pub ghost struct IngressView {
    pub metadata: ObjectMetaView,
}

impl DeepView for Ingress {
    type V = IngressView;

    open spec fn deep_view(&self) -> IngressView {
        IngressView {
            metadata: self.metadata.deep_view(),
        }
    }
}

impl View for Ingress {
    type V = IngressView;

    open spec fn view(&self) -> IngressView {
        self.deep_view()
    }
}

impl Model for Ingress {
    fn dup(&self) -> (r: Self) {
        Ingress {
            metadata: self.metadata.dup(),
        }
    }

    fn same(&self, other: &Self) -> (r: bool) {
        self.metadata.same(&other.metadata)
    }
}

impl IngressView {
    /// The value with nothing set.
    pub open spec fn blank() -> IngressView {
        IngressView {
            metadata: ObjectMetaView::blank(),
        }
    }
}

impl Default for Ingress {
    fn default() -> (r: Self)
        ensures
            r@ == IngressView::blank(),
    {
        Ingress {
            metadata: ObjectMeta::default(),
        }
    }
}

/// HttpRouteParentRefs names what a route is attached to.
#[derive(Debug, PartialEq)]
pub struct HttpRouteParentRefs {
    /// Group of the parent.
    pub group: Option<String>,
    /// Kind of the parent.
    pub kind: Option<String>,
    /// Name of the parent.
    pub name: String,
    /// Namespace of the parent.
    pub namespace: Option<String>,
    /// Part of the parent that is meant.
    pub section_name: Option<String>,
}

/// The value of a [`HttpRouteParentRefs`].
pub ghost struct HttpRouteParentRefsView {
    pub group: Option<Seq<char>>,
    pub kind: Option<Seq<char>>,
    pub name: Seq<char>,
    pub namespace: Option<Seq<char>>,
    pub section_name: Option<Seq<char>>,
}

impl DeepView for HttpRouteParentRefs {
    type V = HttpRouteParentRefsView;

    open spec fn deep_view(&self) -> HttpRouteParentRefsView {
        HttpRouteParentRefsView {
            group: self.group.deep_view(),
            kind: self.kind.deep_view(),
            name: self.name.deep_view(),
            namespace: self.namespace.deep_view(),
            section_name: self.section_name.deep_view(),
        }
    }
}

impl View for HttpRouteParentRefs {
    type V = HttpRouteParentRefsView;

    open spec fn view(&self) -> HttpRouteParentRefsView {
        self.deep_view()
    }
}

impl Model for HttpRouteParentRefs {
    fn dup(&self) -> (r: Self) {
        HttpRouteParentRefs {
            group: self.group.dup(),
            kind: self.kind.dup(),
            name: self.name.dup(),
            namespace: self.namespace.dup(),
            section_name: self.section_name.dup(),
        }
    }

    fn same(&self, other: &Self) -> (r: bool) {
        self.group.same(&other.group)
            && self.kind.same(&other.kind)
            && self.name.same(&other.name)
            && self.namespace.same(&other.namespace)
            && self.section_name.same(&other.section_name)
    }
}

impl HttpRouteParentRefsView {
    /// The value with nothing set.
    pub open spec fn blank() -> HttpRouteParentRefsView {
        HttpRouteParentRefsView {
            group: None,
            kind: None,
            name: Seq::empty(),
            namespace: None,
            section_name: None,
        }
    }
}

impl Default for HttpRouteParentRefs {
    fn default() -> (r: Self)
        ensures
            r@ == HttpRouteParentRefsView::blank(),
    {
        HttpRouteParentRefs {
            group: None,
            kind: None,
            name: String::new(),
            namespace: None,
            section_name: None,
        }
    }
}

/// HttpRouteRulesMatchesPath picks requests by path.
#[derive(Debug, PartialEq)]
pub struct HttpRouteRulesMatchesPath {
    /// "Exact", "PathPrefix" or "RegularExpression".
    pub type_: Option<String>,
    /// Path to compare with.
    pub value: Option<String>,
}

/// The value of a [`HttpRouteRulesMatchesPath`].
pub ghost struct HttpRouteRulesMatchesPathView {
    pub type_: Option<Seq<char>>,
    pub value: Option<Seq<char>>,
}

impl DeepView for HttpRouteRulesMatchesPath {
    type V = HttpRouteRulesMatchesPathView;

    open spec fn deep_view(&self) -> HttpRouteRulesMatchesPathView {
        HttpRouteRulesMatchesPathView {
            type_: self.type_.deep_view(),
            value: self.value.deep_view(),
        }
    }
}

impl View for HttpRouteRulesMatchesPath {
    type V = HttpRouteRulesMatchesPathView;

    open spec fn view(&self) -> HttpRouteRulesMatchesPathView {
        self.deep_view()
    }
}

impl Model for HttpRouteRulesMatchesPath {
    fn dup(&self) -> (r: Self) {
        HttpRouteRulesMatchesPath {
            type_: self.type_.dup(),
            value: self.value.dup(),
        }
    }

    fn same(&self, other: &Self) -> (r: bool) {
        self.type_.same(&other.type_)
            && self.value.same(&other.value)
    }
}

impl HttpRouteRulesMatchesPathView {
    /// The value with nothing set.
    pub open spec fn blank() -> HttpRouteRulesMatchesPathView {
        HttpRouteRulesMatchesPathView {
            type_: None,
            value: None,
        }
    }
}

impl Default for HttpRouteRulesMatchesPath {
    fn default() -> (r: Self)
        ensures
            r@ == HttpRouteRulesMatchesPathView::blank(),
    {
        HttpRouteRulesMatchesPath {
            type_: None,
            value: None,
        }
    }
}

/// HttpRouteRulesMatches picks requests.
#[derive(Debug, PartialEq)]
pub struct HttpRouteRulesMatches {
    /// Set to go by the path.
    pub path: Option<HttpRouteRulesMatchesPath>,
}

/// The value of a [`HttpRouteRulesMatches`].
pub ghost struct HttpRouteRulesMatchesView {
    pub path: Option<HttpRouteRulesMatchesPathView>,
}

impl DeepView for HttpRouteRulesMatches {
    type V = HttpRouteRulesMatchesView;

    open spec fn deep_view(&self) -> HttpRouteRulesMatchesView {
        HttpRouteRulesMatchesView {
            path: self.path.deep_view(),
        }
    }
}

impl View for HttpRouteRulesMatches {
    type V = HttpRouteRulesMatchesView;

    open spec fn view(&self) -> HttpRouteRulesMatchesView {
        self.deep_view()
    }
}

impl Model for HttpRouteRulesMatches {
    fn dup(&self) -> (r: Self) {
        HttpRouteRulesMatches {
            path: self.path.dup(),
        }
    }

    fn same(&self, other: &Self) -> (r: bool) {
        self.path.same(&other.path)
    }
}

impl HttpRouteRulesMatchesView {
    /// The value with nothing set.
    pub open spec fn blank() -> HttpRouteRulesMatchesView {
        HttpRouteRulesMatchesView {
            path: None,
        }
    }
}

impl Default for HttpRouteRulesMatches {
    fn default() -> (r: Self)
        ensures
            r@ == HttpRouteRulesMatchesView::blank(),
    {
        HttpRouteRulesMatches {
            path: None,
        }
    }
}

/// HttpRouteRulesBackendRefs names what answers requests.
#[derive(Debug, PartialEq)]
pub struct HttpRouteRulesBackendRefs {
    /// Group of the backend.
    pub group: Option<String>,
    /// Kind of the backend.
    pub kind: Option<String>,
    /// Name of the backend.
    pub name: String,
    /// Namespace of the backend.
    pub namespace: Option<String>,
}

/// The value of a [`HttpRouteRulesBackendRefs`].
pub ghost struct HttpRouteRulesBackendRefsView {
    pub group: Option<Seq<char>>,
    pub kind: Option<Seq<char>>,
    pub name: Seq<char>,
    pub namespace: Option<Seq<char>>,
}

impl DeepView for HttpRouteRulesBackendRefs {
    type V = HttpRouteRulesBackendRefsView;

    open spec fn deep_view(&self) -> HttpRouteRulesBackendRefsView {
        HttpRouteRulesBackendRefsView {
            group: self.group.deep_view(),
            kind: self.kind.deep_view(),
            name: self.name.deep_view(),
            namespace: self.namespace.deep_view(),
        }
    }
}

impl View for HttpRouteRulesBackendRefs {
    type V = HttpRouteRulesBackendRefsView;

    open spec fn view(&self) -> HttpRouteRulesBackendRefsView {
        self.deep_view()
    }
}

impl Model for HttpRouteRulesBackendRefs {
    fn dup(&self) -> (r: Self) {
        HttpRouteRulesBackendRefs {
            group: self.group.dup(),
            kind: self.kind.dup(),
            name: self.name.dup(),
            namespace: self.namespace.dup(),
        }
    }

    fn same(&self, other: &Self) -> (r: bool) {
        self.group.same(&other.group)
            && self.kind.same(&other.kind)
            && self.name.same(&other.name)
            && self.namespace.same(&other.namespace)
    }
}

impl HttpRouteRulesBackendRefsView {
    /// The value with nothing set.
    pub open spec fn blank() -> HttpRouteRulesBackendRefsView {
        HttpRouteRulesBackendRefsView {
            group: None,
            kind: None,
            name: Seq::empty(),
            namespace: None,
        }
    }
}

impl Default for HttpRouteRulesBackendRefs {
    fn default() -> (r: Self)
        ensures
            r@ == HttpRouteRulesBackendRefsView::blank(),
    {
        HttpRouteRulesBackendRefs {
            group: None,
            kind: None,
            name: String::new(),
            namespace: None,
        }
    }
}

/// HttpRouteRules sends the requests it picks to backends.
#[derive(Debug, PartialEq)]
pub struct HttpRouteRules {
    /// What answers.
    pub backend_refs: Option<Vec<HttpRouteRulesBackendRefs>>,
    /// Which requests.
    pub matches: Option<Vec<HttpRouteRulesMatches>>,
}

/// The value of a [`HttpRouteRules`].
pub ghost struct HttpRouteRulesView {
    pub backend_refs: Option<Seq<HttpRouteRulesBackendRefsView>>,
    pub matches: Option<Seq<HttpRouteRulesMatchesView>>,
}

impl DeepView for HttpRouteRules {
    type V = HttpRouteRulesView;

    open spec fn deep_view(&self) -> HttpRouteRulesView {
        HttpRouteRulesView {
            backend_refs: self.backend_refs.deep_view(),
            matches: self.matches.deep_view(),
        }
    }
}

impl View for HttpRouteRules {
    type V = HttpRouteRulesView;

    open spec fn view(&self) -> HttpRouteRulesView {
        self.deep_view()
    }
}

impl Model for HttpRouteRules {
    fn dup(&self) -> (r: Self) {
        HttpRouteRules {
            backend_refs: self.backend_refs.dup(),
            matches: self.matches.dup(),
        }
    }

    fn same(&self, other: &Self) -> (r: bool) {
        self.backend_refs.same(&other.backend_refs)
            && self.matches.same(&other.matches)
    }
}

impl HttpRouteRulesView {
    /// The value with nothing set.
    pub open spec fn blank() -> HttpRouteRulesView {
        HttpRouteRulesView {
            backend_refs: None,
            matches: None,
        }
    }
}

impl Default for HttpRouteRules {
    fn default() -> (r: Self)
        ensures
            r@ == HttpRouteRulesView::blank(),
    {
        HttpRouteRules {
            backend_refs: None,
            matches: None,
        }
    }
}

/// HttpRouteSpec describes a route.
#[derive(Debug, PartialEq)]
pub struct HttpRouteSpec {
    /// What the route is attached to.
    pub parent_refs: Option<Vec<HttpRouteParentRefs>>,
    /// Which requests go where.
    pub rules: Option<Vec<HttpRouteRules>>,
}

/// The value of a [`HttpRouteSpec`].
pub ghost struct HttpRouteSpecView {
    pub parent_refs: Option<Seq<HttpRouteParentRefsView>>,
    pub rules: Option<Seq<HttpRouteRulesView>>,
}

impl DeepView for HttpRouteSpec {
    type V = HttpRouteSpecView;

    open spec fn deep_view(&self) -> HttpRouteSpecView {
        HttpRouteSpecView {
            parent_refs: self.parent_refs.deep_view(),
            rules: self.rules.deep_view(),
        }
    }
}

impl View for HttpRouteSpec {
    type V = HttpRouteSpecView;

    open spec fn view(&self) -> HttpRouteSpecView {
        self.deep_view()
    }
}

impl Model for HttpRouteSpec {
    fn dup(&self) -> (r: Self) {
        HttpRouteSpec {
            parent_refs: self.parent_refs.dup(),
            rules: self.rules.dup(),
        }
    }

    fn same(&self, other: &Self) -> (r: bool) {
        self.parent_refs.same(&other.parent_refs)
            && self.rules.same(&other.rules)
    }
}

impl HttpRouteSpecView {
    /// The value with nothing set.
    pub open spec fn blank() -> HttpRouteSpecView {
        HttpRouteSpecView {
            parent_refs: None,
            rules: None,
        }
    }
}

impl Default for HttpRouteSpec {
    fn default() -> (r: Self)
        ensures
            r@ == HttpRouteSpecView::blank(),
    {
        HttpRouteSpec {
            parent_refs: None,
            rules: None,
        }
    }
}

/// HTTPRoute routes requests that arrive at a gateway.
#[derive(Debug, PartialEq)]
pub struct HTTPRoute {
    /// Name and owner.
    pub metadata: ObjectMeta,
    /// What to route.
    pub spec: HttpRouteSpec,
}

/// The value of a [`HTTPRoute`].
pub ghost struct HTTPRouteView {
    pub metadata: ObjectMetaView,
    pub spec: HttpRouteSpecView,
}

impl DeepView for HTTPRoute {
    type V = HTTPRouteView;

    open spec fn deep_view(&self) -> HTTPRouteView {
        HTTPRouteView {
            metadata: self.metadata.deep_view(),
            spec: self.spec.deep_view(),
        }
    }
}

impl View for HTTPRoute {
    type V = HTTPRouteView;

    open spec fn view(&self) -> HTTPRouteView {
        self.deep_view()
    }
}

impl Model for HTTPRoute {
    fn dup(&self) -> (r: Self) {
        HTTPRoute {
            metadata: self.metadata.dup(),
            spec: self.spec.dup(),
        }
    }

    fn same(&self, other: &Self) -> (r: bool) {
        self.metadata.same(&other.metadata)
            && self.spec.same(&other.spec)
    }
}

impl HTTPRouteView {
    /// The value with nothing set.
    pub open spec fn blank() -> HTTPRouteView {
        HTTPRouteView {
            metadata: ObjectMetaView::blank(),
            spec: HttpRouteSpecView::blank(),
        }
    }
}

impl Default for HTTPRoute {
    fn default() -> (r: Self)
        ensures
            r@ == HTTPRouteView::blank(),
    {
        HTTPRoute {
            metadata: ObjectMeta::default(),
            spec: HttpRouteSpec::default(),
        }
    }
}

} // verus!
