//! Matchers decides what the controller for the "Matcher" CRD does next.

use vstd::prelude::*;

use crate::clairs::Requeue;
use crate::event::{Event, EventType, EventView};
use crate::k8s::meta::Time;
use crate::k8s::pod::{
    ContainerView, EnvVar, PodSpec, PodSpecView, PodTemplateSpec, PodTemplateSpecView, Service,
};
use crate::k8s::workload::{
    Deployment, DeploymentSpec, DeploymentSpecView, DeploymentView, HorizontalPodAutoscaler,
};
use crate::model::{none, push, Model};
use crate::mounts::{
    config_mounts, config_path, config_volumes, is_mountable, make_volumes,
};
use crate::resource::Resource;
use crate::status::StatusCommon;
use crate::subresource::{
    component_condition, conditioned, list_kind, listing, make_condition, or_empty, refers,
};
use crate::templates::container::env_var;
use crate::text;
use crate::v1alpha1::{ConfigSource, ConfigSourceView, Matcher, MatcherStatus, MatcherStatusView};

verus! {

/// The steps of a reconciliation, in their order.
#[derive(Clone, Copy, Debug, PartialEq, Eq, Structural)]
pub enum Check {
    /// The configuration.
    Config,
    /// What runs the matcher.
    Deployment,
    /// What leads to the matcher.
    Service,
    /// What scales the matcher.
    HPA,
    /// Whether all of that is there.
    Creation,
}

impl Check {
    /// The place of a step among the steps.
    pub open spec fn place(self) -> int {
        match self {
            Check::Config => 0,
            Check::Deployment => 1,
            Check::Service => 2,
            Check::HPA => 3,
            Check::Creation => 4,
        }
    }

    /// The first step.
    pub fn first() -> (r: Check)
        ensures
            r.place() == 0,
    {
        Check::Config
    }

    /// Says which step follows one that gave a result. A step that gives `false` is the last.
    pub fn next(self, cont: bool) -> (r: Option<Check>)
        ensures
            match r {
                Some(next) => cont && next.place() == self.place() + 1,
                None => !cont || self.place() == 4,
            },
    {
        if !cont {
            return None;
        }
        match self {
            Check::Config => Some(Check::Deployment),
            Check::Deployment => Some(Check::Service),
            Check::Service => Some(Check::HPA),
            Check::HPA => Some(Check::Creation),
            Check::Creation => None,
        }
    }
}

/// When to look again if a reconciliation failed: when the object changes.
pub fn handle_error() -> (r: Requeue)
    ensures
        r == Requeue::AwaitChange,
{
    Requeue::AwaitChange
}

/// Says when to look again once the status was written: when it comes back, if there was none or it
/// is what it was, and else in an hour.
pub fn publish(status: &Option<MatcherStatus>, next: &MatcherStatus) -> (r: Requeue)
    ensures
        r == (if status is None || status->0@ == next@ {
            Requeue::AwaitChange
        } else {
            Requeue::After(3600000)
        }),
{
    let changed = match status {
        Some(status) => status.same(next),
        None => true,
    };
    if changed {
        Requeue::AwaitChange
    } else {
        Requeue::After(3600000)
    }
}

/// The configuration of a status is the one that the spec asks for.
pub open spec fn config_current(
    config: Option<ConfigSourceView>,
    status: Option<MatcherStatusView>,
) -> bool {
    status is Some && status->0.config is Some && status->0.config == config
}

/// Check_config says whether the configuration is the one that the spec asks for, and puts that one
/// in the status if not.
pub fn check_config(
    config: &Option<ConfigSource>,
    status: &Option<MatcherStatus>,
    next: &mut MatcherStatus,
) -> (r: bool)
    requires
        status is Some && status->0@.config is Some ==> config is Some,
    ensures
        r == config_current(config.deep_view(), status.deep_view()),
        final(next)@ == (if r {
            old(next)@
        } else {
            MatcherStatusView { config: config.deep_view(), ..old(next)@ }
        }),
{
    let current = match status {
        Some(status) => status.config.is_some() && status.config.same(config),
        None => false,
    };
    if !current {
        next.config = config.dup();
    }
    current
}

/// The pods of a new deployment: the first container runs Clair.
pub open spec fn configured_pod(
    pod: PodSpecView,
    cfgsrc: ConfigSourceView,
    image: Seq<char>,
) -> PodSpecView {
    let c = pod.containers[0];
    PodSpecView {
        volumes: Some(config_volumes(cfgsrc)),
        containers: pod.containers.update(
            0,
            ContainerView {
                image: Some(image),
                volume_mounts: Some(config_mounts(cfgsrc)),
                env: Some(or_empty(c.env).push(env_var("CLAIR_CONF"@, config_path(cfgsrc)))),
                ..c
            },
        ),
        ..pod
    }
}

/// A new deployment, with its pods configured.
pub open spec fn configured_deployment(
    d: DeploymentView,
    cfgsrc: ConfigSourceView,
    image: Seq<char>,
) -> DeploymentView {
    match d.spec {
        Some(spec) => match spec.template.spec {
            Some(pod) => DeploymentView {
                spec: Some(
                    DeploymentSpecView {
                        template: PodTemplateSpecView {
                            spec: Some(configured_pod(pod, cfgsrc, image)),
                            ..spec.template
                        },
                        ..spec
                    },
                ),
                ..d
            },
            None => d,
        },
        None => d,
    }
}

/// Check_deployment says what a new deployment should be, by what its template gives.
pub fn check_deployment(d: Deployment, cfgsrc: &ConfigSource, image: &str) -> (r: Deployment)
    requires
        is_mountable(cfgsrc@),
        d@.spec is Some && d@.spec->0.template.spec is Some
            ==> d@.spec->0.template.spec->0.containers.len() > 0,
    ensures
        r@ == configured_deployment(d@, cfgsrc@, image@),
{
    let (vols, mounts, config) = make_volumes(cfgsrc);
    let spec = match d.spec {
        Some(spec) => {
            let pod = match spec.template.spec {
                Some(pod) => {
                    let mut containers = pod.containers;
                    let ghost all = containers.deep_view();
                    assert(all.len() == containers@.len());
                    assert(all[0] == containers@[0]@);
                    let mut c = containers[0].dup();
                    c.image = Some(image.to_owned());
                    c.volume_mounts = Some(mounts);
                    let mut env = match c.env.take() {
                        Some(env) => env,
                        None => none(),
                    };
                    push(
                        &mut env,
                        EnvVar {
                            name: "CLAIR_CONF".to_owned(),
                            value: Some(config),
                            value_from: None,
                        },
                    );
                    c.env = Some(env);
                    let ghost v = c@;
                    containers.set(0, c);
                    assert(containers.deep_view() =~= all.update(0, v));
                    Some(
                        PodSpec {
                            volumes: Some(vols),
                            containers,
                            security_context: pod.security_context,
                            share_process_namespace: pod.share_process_namespace,
                            termination_grace_period_seconds: pod.termination_grace_period_seconds,
                        },
                    )
                },
                None => None,
            };
            Some(
                DeploymentSpec {
                    template: PodTemplateSpec { metadata: spec.template.metadata, spec: pod },
                    selector: spec.selector,
                    progress_deadline_seconds: spec.progress_deadline_seconds,
                    replicas: spec.replicas,
                    revision_history_limit: spec.revision_history_limit,
                    strategy: spec.strategy,
                },
            )
        },
        None => None,
    };
    Deployment { metadata: d.metadata, spec, status: d.status }
}

/// Reports whether an object of a kind has to be created: the status refers to none.
pub fn must_create<K: Resource>(status: &Option<MatcherStatus>) -> (r: bool)
    ensures
        r == !refers::<MatcherStatus, K>(status.deep_view()),
{
    match status {
        Some(status) => status.has_ref::<K>().is_none(),
        None => true,
    }
}

/// A status refers to everything that belongs to a matcher.
pub open spec fn all_created(status: Option<MatcherStatusView>) -> bool {
    &&& refers::<MatcherStatus, Deployment>(status)
    &&& refers::<MatcherStatus, Service>(status)
    &&& refers::<MatcherStatus, HorizontalPodAutoscaler>(status)
}

/// The kinds, of those that belong to a matcher, that a status refers to.
pub open spec fn created_kinds(status: Option<MatcherStatusView>) -> Seq<Seq<char>> {
    listing::<MatcherStatus, HorizontalPodAutoscaler>(
        listing::<MatcherStatus, Service>(
            listing::<MatcherStatus, Deployment>(Seq::empty(), status),
            status,
        ),
        status,
    )
}

/// The event for a matcher of which everything was created.
pub open spec fn created_event() -> EventView {
    EventView {
        type_: EventType::Normal,
        reason: "Initialization"@,
        note: Some("👍"@),
        action: "ObjectCreation"@,
        secondary: None,
    }
}

/// Check_creation says what to publish once everything that belongs to a matcher was created, and
/// puts a condition on that in the status. Without an event, something is not there yet.
pub fn check_creation(
    obj: &Matcher,
    status: &Option<MatcherStatus>,
    next: &mut MatcherStatus,
    now: Time,
) -> (r: Option<Event>)
    ensures
        r.deep_view() == (if all_created(status.deep_view()) {
            Some(created_event())
        } else {
            None
        }),
        final(next)@ == conditioned::<MatcherStatus>(
            old(next)@,
            component_condition::<Matcher>(
                obj@,
                "Initialized"@,
                if all_created(status.deep_view()) {
                    "True"@
                } else {
                    "False"@
                },
                "ObjectsCreated"@,
                if all_created(status.deep_view()) {
                    ""@
                } else {
                    "missing: "@ + text::joined(created_kinds(status.deep_view()), ", "@)
                },
                now@,
            ),
        ),
{
    let mut kinds: Vec<String> = none();
    let a = list_kind::<MatcherStatus, Deployment>(&mut kinds, status);
    let b = list_kind::<MatcherStatus, Service>(&mut kinds, status);
    let c = list_kind::<MatcherStatus, HorizontalPodAutoscaler>(&mut kinds, status);
    let ok = a && b && c;
    let message = if ok {
        "".to_owned()
    } else {
        text::cat("missing: ", text::join(&kinds, ", ").as_str())
    };
    let state = if ok {
        "True"
    } else {
        "False"
    };
    next.add_condition(
        make_condition(obj, "Initialized", state, "ObjectsCreated", message.as_str(), now),
    );
    if ok {
        Some(
            Event {
                type_: EventType::Normal,
                reason: "Initialization".to_owned(),
                note: Some("👍".to_owned()),
                action: "ObjectCreation".to_owned(),
                secondary: None,
            },
        )
    } else {
        None
    }
}

} // verus!
