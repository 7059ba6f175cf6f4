//! Jobs: the periodic update and the commands around an upgrade.

use vstd::prelude::*;

use crate::k8s::meta::{OwnerReference, OwnerReferenceView};
use crate::k8s::workload::{
    CronJob, CronJobSpec, CronJobSpecView, CronJobView, Job, JobSpec, JobSpecView, JobTemplateSpec,
    JobTemplateSpecView, JobView,
};
use crate::k8s::pod::{PodTemplateSpec, PodTemplateSpecView};
use crate::model::{one, Model};
use crate::resource::{self, Resource};
use crate::templates::container::{
    clair_pod, container_of, pod_template, ContainerBuilder, ContainerBuilderView, ContainerKind,
};
use crate::templates::volumes::{make_volumes, volumes_for};
use crate::templates::{
    labelled, labelled_meta, labels_of, outcome, owned, owned_meta, standard_labels, Build, Error,
    ErrorView,
};
use crate::text;
use crate::v1alpha1::{
    Clair, ClairView, ConfigSource, ConfigSourceView, Updater, UpdaterView,
};

verus! {

/// How often an update runs, unless the updater says otherwise.
pub const DEFAULT_SCHEDULE: &'static str = "0 */8 * * *";

/// A job that has to succeed once within the hour.
pub open spec fn single_run(template: PodTemplateSpecView) -> JobSpecView {
    JobSpecView {
        active_deadline_seconds: Some(3600),
        completion_mode: Some("NonIndexed"@),
        completions: Some(1),
        parallelism: Some(1),
        template,
    }
}

/// A job that has to succeed once within the hour.
fn run_once(template: PodTemplateSpec) -> (r: JobSpec)
    ensures
        r@ == single_run(template@),
{
    JobSpec {
        active_deadline_seconds: Some(3600),
        completion_mode: Some("NonIndexed".to_owned()),
        completions: Some(1),
        parallelism: Some(1),
        template,
    }
}

/// CronJobBuilder is a builder for a [`CronJob`].
pub struct CronJobBuilder {
    namespace: String,
    name: String,
    image: String,
    cfgsrc: ConfigSource,
    owner_ref: OwnerReference,
    schedule: Option<String>,
    suspend: Option<bool>,
}

/// The value of a [`CronJobBuilder`].
pub ghost struct CronJobBuilderView {
    pub namespace: Seq<char>,
    pub name: Seq<char>,
    pub image: Seq<char>,
    pub cfgsrc: ConfigSourceView,
    pub owner_ref: OwnerReferenceView,
    pub schedule: Option<Seq<char>>,
    pub suspend: Option<bool>,
}

impl DeepView for CronJobBuilder {
    type V = CronJobBuilderView;

    closed spec fn deep_view(&self) -> CronJobBuilderView {
        CronJobBuilderView {
            namespace: self.namespace.deep_view(),
            name: self.name.deep_view(),
            image: self.image.deep_view(),
            cfgsrc: self.cfgsrc.deep_view(),
            owner_ref: self.owner_ref.deep_view(),
            schedule: self.schedule.deep_view(),
            suspend: self.suspend.deep_view(),
        }
    }
}

impl View for CronJobBuilder {
    type V = CronJobBuilderView;

    open spec fn view(&self) -> CronJobBuilderView {
        self.deep_view()
    }
}

/// The builder for the periodic update of an updater.
pub open spec fn cron_job_builder(u: UpdaterView) -> Result<CronJobBuilderView, ErrorView> {
    let config = match u.status {
        Some(status) => status.config,
        None => None,
    };
    let owner = resource::owner_ref_of(
        resource::group_version(Updater::group_name(), Updater::version_name()),
        Updater::kind_name(),
        u.metadata,
    );
    if u.metadata.namespace is None {
        Err(ErrorView::Namespace)
    } else if u.spec.image is None {
        Err(ErrorView::MissingImage)
    } else if config is None {
        Err(ErrorView::MissingConfigSource)
    } else if owner is None {
        Err(ErrorView::OwnerReference)
    } else {
        Ok(
            CronJobBuilderView {
                namespace: u.metadata.namespace->0,
                name: u.metadata.name->0 + "-"@ + "updater"@,
                image: u.spec.image->0,
                cfgsrc: config->0,
                owner_ref: owner->0,
                schedule: u.spec.schedule,
                suspend: u.spec.suspend,
            },
        )
    }
}

/// The periodic update.
pub open spec fn cron_job_of(b: CronJobBuilderView) -> CronJobView {
    let labels = labels_of("updater"@);
    let container = container_of(
        ContainerBuilderView {
            kind: ContainerKind::Updater,
            image: b.image,
            cfgsrc: b.cfgsrc,
            argv: None,
        },
    );
    CronJobView {
        metadata: owned(b.name, b.namespace, labels, b.owner_ref),
        spec: Some(
            CronJobSpecView {
                concurrency_policy: Some("Forbid"@),
                starting_deadline_seconds: Some(10),
                time_zone: Some("Etc/UTC"@),
                schedule: match b.schedule {
                    Some(schedule) => schedule,
                    None => "0 */8 * * *"@,
                },
                suspend: b.suspend,
                job_template: JobTemplateSpecView {
                    metadata: Some(labelled(labels)),
                    spec: Some(single_run(clair_pod(labels, container, volumes_for(b.cfgsrc)))),
                },
            },
        ),
    }
}

impl CronJobBuilder {
    /// The builder for the periodic update of an updater.
    pub fn try_from(value: &Updater) -> (r: Result<Self, Error>)
        requires
            value@.metadata.namespace is Some ==> value@.metadata.name is Some,
        ensures
            outcome(r) == cron_job_builder(value@),
    {
        let namespace = match &value.metadata.namespace {
            Some(namespace) => namespace.dup(),
            None => return Err(Error::Namespace),
        };
        let name = text::cat3(value.metadata.name.as_ref().unwrap().as_str(), "-", "updater");
        let image = match &value.spec.image {
            Some(image) => image.dup(),
            None => return Err(Error::MissingImage),
        };
        let config = match &value.status {
            Some(status) => status.config.dup(),
            None => None,
        };
        let cfgsrc = match config {
            Some(cfgsrc) => cfgsrc,
            None => return Err(Error::MissingConfigSource),
        };
        let owner_ref = match value.owner_ref() {
            Some(owner_ref) => owner_ref,
            None => return Err(Error::OwnerReference),
        };
        Ok(
            CronJobBuilder {
                namespace,
                name,
                image,
                cfgsrc,
                owner_ref,
                schedule: value.spec.schedule.dup(),
                suspend: value.spec.suspend,
            },
        )
    }
}

impl Build for CronJobBuilder {
    type Output = CronJob;

    open spec fn built(v: CronJobBuilderView) -> CronJobView {
        cron_job_of(v)
    }

    fn build(self) -> (r: CronJob) {
        let labels = standard_labels("updater");
        let container = ContainerBuilder::new(
            ContainerKind::Updater,
            &self.image,
            &self.cfgsrc,
        ).build();
        let volumes = make_volumes(&self.cfgsrc);
        let schedule = match self.schedule {
            Some(schedule) => schedule,
            None => DEFAULT_SCHEDULE.to_owned(),
        };
        CronJob {
            metadata: owned_meta(self.name, self.namespace, labels.dup(), self.owner_ref),
            spec: Some(
                CronJobSpec {
                    concurrency_policy: Some("Forbid".to_owned()),
                    starting_deadline_seconds: Some(10),
                    time_zone: Some("Etc/UTC".to_owned()),
                    schedule,
                    suspend: self.suspend,
                    job_template: JobTemplateSpec {
                        metadata: Some(labelled_meta(labels.dup())),
                        spec: Some(run_once(pod_template(labels, container, volumes))),
                    },
                },
            ),
        }
    }
}

/// The commands that run around an upgrade.
#[derive(Clone, Copy, Debug, PartialEq, Eq, Structural)]
pub enum JobKind {
    /// Runs before.
    AdminPre,
    /// Runs after.
    AdminPost,
}

impl DeepView for JobKind {
    type V = JobKind;

    open spec fn deep_view(&self) -> JobKind {
        *self
    }
}

impl JobKind {
    /// The name of the command.
    pub open spec fn name(self) -> Seq<char> {
        match self {
            JobKind::AdminPre => "admin-pre"@,
            JobKind::AdminPost => "admin-post"@,
        }
    }

    /// The use of the container that runs the command.
    pub open spec fn container(self) -> ContainerKind {
        match self {
            JobKind::AdminPre => ContainerKind::AdminPre,
            JobKind::AdminPost => ContainerKind::AdminPost,
        }
    }

    /// The name of the command.
    pub fn as_str(self) -> (r: &'static str)
        ensures
            r@ == self.name(),
    {
        match self {
            JobKind::AdminPre => "admin-pre",
            JobKind::AdminPost => "admin-post",
        }
    }

    /// The use of the container that runs the command.
    pub fn container_kind(self) -> (r: ContainerKind)
        ensures
            r == self.container(),
    {
        match self {
            JobKind::AdminPre => ContainerKind::AdminPre,
            JobKind::AdminPost => ContainerKind::AdminPost,
        }
    }
}

/// The name of the job that runs a command for a version.
pub open spec fn job_name(clair: Seq<char>, kind: JobKind, version: Seq<char>) -> Seq<char> {
    clair + "-"@ + kind.name() + "-"@ + version
}

/// JobBuilder is a builder for a [`Job`].
pub struct JobBuilder {
    namespace: String,
    name: String,
    kind: JobKind,
    image: String,
    version: String,
    cfgsrc: ConfigSource,
    owner_ref: OwnerReference,
}

/// The value of a [`JobBuilder`].
pub ghost struct JobBuilderView {
    pub namespace: Seq<char>,
    pub name: Seq<char>,
    pub kind: JobKind,
    pub image: Seq<char>,
    pub version: Seq<char>,
    pub cfgsrc: ConfigSourceView,
    pub owner_ref: OwnerReferenceView,
}

impl DeepView for JobBuilder {
    type V = JobBuilderView;

    closed spec fn deep_view(&self) -> JobBuilderView {
        JobBuilderView {
            namespace: self.namespace.deep_view(),
            name: self.name.deep_view(),
            kind: self.kind.deep_view(),
            image: self.image.deep_view(),
            version: self.version.deep_view(),
            cfgsrc: self.cfgsrc.deep_view(),
            owner_ref: self.owner_ref.deep_view(),
        }
    }
}

impl View for JobBuilder {
    type V = JobBuilderView;

    open spec fn view(&self) -> JobBuilderView {
        self.deep_view()
    }
}

/// The image that an instance should run has a tag.
pub open spec fn is_tagged(c: ClairView) -> bool {
    c.spec.image is Some && text::after_last(c.spec.image->0, ':') is Some
}

/// Everything is there that comes before the name of a job.
pub open spec fn can_name_job(c: ClairView) -> bool {
    is_tagged(c) && c.status is Some && c.status->0.config is Some
}

/// The builder for a command that runs for a Clair instance. The version is what follows the last
/// colon of the image.
pub open spec fn job_builder(c: ClairView, kind: JobKind) -> Result<JobBuilderView, ErrorView> {
    let config = match c.status {
        Some(status) => status.config,
        None => None,
    };
    let owner = resource::owner_ref_of(
        resource::group_version(Clair::group_name(), Clair::version_name()),
        Clair::kind_name(),
        c.metadata,
    );
    if config is None {
        Err(ErrorView::MissingConfigSource)
    } else if c.spec.image is None {
        Err(ErrorView::MissingImage)
    } else {
        match text::after_last(c.spec.image->0, ':') {
            None => Err(ErrorView::Other("image ref missing tag"@)),
            Some(version) => if c.metadata.namespace is None {
                Err(ErrorView::Namespace)
            } else if owner is None {
                Err(ErrorView::OwnerReference)
            } else {
                Ok(
                    JobBuilderView {
                        namespace: c.metadata.namespace->0,
                        name: job_name(c.metadata.name->0, kind, version),
                        kind,
                        image: c.spec.image->0,
                        version,
                        cfgsrc: config->0,
                        owner_ref: owner->0,
                    },
                )
            },
        }
    }
}

/// The name of the job that runs before an upgrade.
pub open spec fn admin_pre_job_name(c: ClairView) -> Result<Seq<char>, ErrorView> {
    match c.spec.image {
        None => Err(ErrorView::MissingImage),
        Some(image) => match text::after_last(image, ':') {
            None => Err(ErrorView::Other("image ref missing tag"@)),
            Some(version) => Ok(job_name(c.metadata.name->0, JobKind::AdminPre, version)),
        },
    }
}

/// The name that is looked for is the name of the job that is created.
pub proof fn admin_pre_names_agree(c: ClairView)
    requires
        job_builder(c, JobKind::AdminPre) is Ok,
    ensures
        admin_pre_job_name(c) == Ok::<Seq<char>, ErrorView>(
            job_of(job_builder(c, JobKind::AdminPre)->Ok_0).metadata.name->0,
        ),
{
}

/// The job for a command.
pub open spec fn job_of(b: JobBuilderView) -> JobView {
    let labels = labels_of("clair"@);
    let container = container_of(
        ContainerBuilderView {
            kind: b.kind.container(),
            image: b.image,
            cfgsrc: b.cfgsrc,
            argv: Some(seq![b.version]),
        },
    );
    JobView {
        metadata: owned(b.name, b.namespace, labels, b.owner_ref),
        spec: Some(single_run(clair_pod(labels, container, volumes_for(b.cfgsrc)))),
        status: None,
    }
}

impl JobBuilder {
    /// Admin_pre creates a builder to run a `clairctl admin pre` command.
    pub fn admin_pre(clair: &Clair) -> (r: Result<Self, Error>)
        requires
            can_name_job(clair@) ==> clair@.metadata.name is Some,
        ensures
            outcome(r) == job_builder(clair@, JobKind::AdminPre),
    {
        Self::new(clair, JobKind::AdminPre)
    }

    /// Admin_post creates a builder to run a `clairctl admin post` command.
    pub fn admin_post(clair: &Clair) -> (r: Result<Self, Error>)
        requires
            can_name_job(clair@) ==> clair@.metadata.name is Some,
        ensures
            outcome(r) == job_builder(clair@, JobKind::AdminPost),
    {
        Self::new(clair, JobKind::AdminPost)
    }

    /// Admin_pre_name reports the name of the job that [`JobBuilder::admin_pre`] gives.
    pub fn admin_pre_name(clair: &Clair) -> (r: Result<String, Error>)
        requires
            is_tagged(clair@) ==> clair@.metadata.name is Some,
        ensures
            outcome(r) == admin_pre_job_name(clair@),
    {
        let image = match &clair.spec.image {
            Some(image) => image,
            None => return Err(Error::MissingImage),
        };
        match text::rsplit_once(image.as_str(), ':') {
            Some((_, tag)) => Ok(
                text::cat5(
                    clair.metadata.name.as_ref().unwrap().as_str(),
                    "-",
                    JobKind::AdminPre.as_str(),
                    "-",
                    tag,
                ),
            ),
            None => Err(Error::Other("image ref missing tag")),
        }
    }

    fn new(clair: &Clair, kind: JobKind) -> (r: Result<Self, Error>)
        requires
            can_name_job(clair@) ==> clair@.metadata.name is Some,
        ensures
            outcome(r) == job_builder(clair@, kind),
    {
        let config = match &clair.status {
            Some(status) => status.config.dup(),
            None => None,
        };
        let cfgsrc = match config {
            Some(cfgsrc) => cfgsrc,
            None => return Err(Error::MissingConfigSource),
        };
        let image = match &clair.spec.image {
            Some(image) => image.dup(),
            None => return Err(Error::MissingImage),
        };
        let version = match text::rsplit_once(image.as_str(), ':') {
            Some((_, tag)) => tag.to_owned(),
            None => return Err(Error::Other("image ref missing tag")),
        };
        let name = text::cat5(
            clair.metadata.name.as_ref().unwrap().as_str(),
            "-",
            kind.as_str(),
            "-",
            version.as_str(),
        );
        let namespace = match &clair.metadata.namespace {
            Some(namespace) => namespace.dup(),
            None => return Err(Error::Namespace),
        };
        let owner_ref = match clair.owner_ref() {
            Some(owner_ref) => owner_ref,
            None => return Err(Error::OwnerReference),
        };
        Ok(JobBuilder { namespace, name, kind, image, version, cfgsrc, owner_ref })
    }
}

impl Build for JobBuilder {
    type Output = Job;

    open spec fn built(v: JobBuilderView) -> JobView {
        job_of(v)
    }

    fn build(self) -> (r: Job) {
        let container = ContainerBuilder::new(
            self.kind.container_kind(),
            &self.image,
            &self.cfgsrc,
        ).args(one(self.version)).build();
        let volumes = make_volumes(&self.cfgsrc);
        let labels = standard_labels("clair");
        Job {
            metadata: owned_meta(self.name, self.namespace, labels.dup(), self.owner_ref),
            spec: Some(run_once(pod_template(labels, container, volumes))),
            ..Default::default()
        }
    }
}

} // verus!
