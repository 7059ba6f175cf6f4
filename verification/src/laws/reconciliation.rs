//! Reconciliation: what belongs to an object is found, completed and reported.

use vstd::prelude::*;

use crate::assets::{self, AssetView};
use crate::event::EventType;
use crate::indexers::{delete_event, spec_condition, spec_event, spec_lacks};
use crate::k8s::meta::{ObjectMetaView, OwnerReferenceView, TimeView};
use crate::k8s::pod::{
    ConfigMap, ConfigMapView, Container, ContainerView, EnvVar, EnvVarView, Service,
    TypedLocalObjectReference, Volume, VolumeMount, VolumeMountView, VolumeView,
};
use crate::k8s::workload::{CronJob, Deployment, DeploymentView, HorizontalPodAutoscaler};
use crate::keyed::{self, Keyed};
use crate::labels::dashed;
use crate::laws::values::{first_is_found, found_is_first, kept_is_first};
use crate::laws::workloads::{belongs_to, has_port, has_var, is_confined, probes_own_port};
use crate::matchers;
use crate::mounts;
use crate::owned::report_for;
use crate::render::{rendered, rendered_name};
use crate::resource::{self, Resource};
use crate::status::StatusCommon;
use crate::subresource::{
    after_invalid, all_created, component_condition, conditioned, created_kinds, looked_up,
    managed_key, managing_owner, manager_place, map_event, refers, tuned_container,
    tuned_containers, tuned_deployment, with_managed, Attempt, Commit, DropinCheckView, Hook,
};
use crate::text;
use crate::v1alpha1::{
    ConfigMapKeySelectorView, ConfigSourceView, DropinSourceView, IndexerView, MatcherStatus,
    MatcherStatusView,
};

verus! {

/// The parts of a component are looked after in one order: what tells others where it is, its
/// configuration, what runs it, what leads to it, what scales it; and last whether all is there.
pub proof fn parts_are_looked_after_in_order()
    ensures
        Hook::Dropin.place() < Hook::Config.place() < Hook::Deployment.place(),
        Hook::Deployment.place() < Hook::Service.place() < Hook::HPA.place(),
        Hook::HPA.place() < Hook::Creation.place(),
        matchers::Check::Config.place() < matchers::Check::Deployment.place(),
        matchers::Check::Deployment.place() < matchers::Check::Service.place(),
        matchers::Check::Service.place() < matchers::Check::HPA.place(),
        matchers::Check::HPA.place() < matchers::Check::Creation.place(),
{
}

/// A status refers to a kind exactly if one of its references is of that kind.
pub proof fn references_are_by_kind<S: StatusCommon, K: Resource>(status: Option<S::V>)
    ensures
        refers::<S, K>(status) <==> status is Some && exists|i: int|
            0 <= i < S::refs_in(status->0).len() && (#[trigger] S::refs_in(status->0)[i]).kind
                == K::kind_name(),
{
    if let Some(s) = status {
        let refs = S::refs_in(s);
        found_is_first::<TypedLocalObjectReference>(refs, K::kind_name());
        if refers::<S, K>(status) {
            let x = keyed::found_in::<TypedLocalObjectReference>(refs, K::kind_name())->0;
            let i = choose|i: int|
                {
                    &&& 0 <= i < refs.len()
                    &&& #[trigger] refs[i] == x
                    &&& TypedLocalObjectReference::key_of(refs[i]) == K::kind_name()
                    &&& forall|j: int|
                        0 <= j < i ==> TypedLocalObjectReference::key_of(#[trigger] refs[j])
                            != K::kind_name()
                };
            assert(refs[i].kind == K::kind_name());
        } else {
            assert forall|i: int| 0 <= i < refs.len() implies (#[trigger] refs[i]).kind
                != K::kind_name() by {
                assert(TypedLocalObjectReference::key_of(refs[i]) != K::kind_name());
            }
        }
    }
}

/// What belongs to a component is looked for under the name that its status has for the kind, and
/// else under the component's own name and kind.
pub proof fn known_names_come_first<O: Resource, T: Resource, S: StatusCommon>(
    obj: O::V,
    status: Option<S::V>,
    i: int,
)
    ensures
        !refers::<S, T>(status) && O::metadata(obj).name is Some ==> looked_up::<O, T, S>(
            obj,
            status,
        ) == O::metadata(obj).name->0 + "-"@ + text::lower(O::kind_name()),
        status is Some && 0 <= i < S::refs_in(status->0).len() && S::refs_in(status->0)[i].kind
            == T::kind_name() && (forall|j: int|
            0 <= j < i ==> (#[trigger] S::refs_in(status->0)[j]).kind != T::kind_name())
            ==> looked_up::<O, T, S>(obj, status) == S::refs_in(status->0)[i].name,
{
    if status is Some {
        let refs = S::refs_in(status->0);
        if 0 <= i < refs.len() && refs[i].kind == T::kind_name() && (forall|j: int|
            0 <= j < i ==> (#[trigger] refs[j]).kind != T::kind_name()) {
            assert forall|j: int| 0 <= j < i implies TypedLocalObjectReference::key_of(
                #[trigger] refs[j],
            ) != TypedLocalObjectReference::key_of(refs[i]) by {
                assert(refs[j].kind != T::kind_name());
            }
            first_is_found::<TypedLocalObjectReference>(refs, i);
        }
    }
}

/// Everything was created exactly if the status refers to each of the kinds that belong to a
/// component, by name.
pub proof fn all_kinds_have_to_be_there<S: StatusCommon>(status: Option<S::V>)
    ensures
        all_created::<S>(status) <==> {
            let has = |kind: Seq<char>|
                status is Some && exists|i: int|
                    0 <= i < S::refs_in(status->0).len() && (#[trigger] S::refs_in(
                        status->0,
                    )[i]).kind == kind;
            &&& has("ConfigMap"@)
            &&& has("Deployment"@)
            &&& has("Service"@)
            &&& has("HorizontalPodAutoscaler"@)
        },
        created_kinds::<S>(status).len() == 4 <==> all_created::<S>(status),
        created_kinds::<S>(status).contains("Deployment"@) ==> refers::<S, Deployment>(status),
{
    references_are_by_kind::<S, ConfigMap>(status);
    references_are_by_kind::<S, Deployment>(status);
    references_are_by_kind::<S, Service>(status);
    references_are_by_kind::<S, HorizontalPodAutoscaler>(status);
    reveal_strlit("ConfigMap");
    reveal_strlit("Deployment");
    reveal_strlit("Service");
    reveal_strlit("HorizontalPodAutoscaler");
    assert("ConfigMap"@.len() == 9 && "Deployment"@.len() == 10 && "Service"@.len() == 7);
    assert("HorizontalPodAutoscaler"@.len() == 23);
}

/// For a matcher that is all but the map.
pub proof fn matchers_have_no_map(status: Option<MatcherStatusView>)
    ensures
        matchers::all_created(status) <==> {
            let has = |kind: Seq<char>|
                status is Some && exists|i: int|
                    0 <= i < status->0.refs.len() && (#[trigger] status->0.refs[i]).kind == kind;
            &&& has("Deployment"@)
            &&& has("Service"@)
            &&& has("HorizontalPodAutoscaler"@)
        },
        matchers::created_kinds(status).len() == 3 <==> matchers::all_created(status),
        matchers::created_event().type_ == EventType::Normal && matchers::created_event().action
            == "ObjectCreation"@,
{
    references_are_by_kind::<MatcherStatus, Deployment>(status);
    references_are_by_kind::<MatcherStatus, Service>(status);
    references_are_by_kind::<MatcherStatus, HorizontalPodAutoscaler>(status);
}

/// The configuration of a matcher is current exactly if its status has the one that the spec asks
/// for.
pub proof fn current_configurations_are_the_same(
    config: Option<ConfigSourceView>,
    status: Option<MatcherStatusView>,
)
    ensures
        matchers::config_current(config, status) <==> config is Some && status is Some
            && status->0.config == config,
{
}

/// A condition on a component goes by its name and says what it was made to say, of the present
/// generation; once it was put into a status it is there, and the references stay.
pub proof fn component_conditions_are_there<O: Resource>(
    obj: O::V,
    type_: Seq<char>,
    status: Seq<char>,
    reason: Seq<char>,
    message: Seq<char>,
    now: TimeView,
    s: MatcherStatusView,
)
    ensures
        ({
            let cnd = component_condition::<O>(obj, type_, status, reason, message, now);
            let r = conditioned::<MatcherStatus>(s, cnd);
            &&& cnd.type_ == "projectclair.io/"@ + dashed(type_)
            &&& cnd.status == status
            &&& cnd.reason == reason
            &&& cnd.message == message
            &&& cnd.observed_generation == O::metadata(obj).generation
            &&& cnd.last_transition_time == now
            &&& r.conditions.contains(cnd)
            &&& r.refs == s.refs
            &&& r.config == s.config
        }),
{
    let cnd = component_condition::<O>(obj, type_, status, reason, message, now);
    crate::laws::values::what_is_put_in_is_there::<crate::k8s::meta::Condition>(
        s.conditions,
        cnd,
        cnd,
    );
}

/// The owner that manages an object is the first that says so, and there is none exactly if none
/// says so.
pub proof fn managers_say_so(meta: ObjectMetaView)
    ensures
        match managing_owner(meta) {
            Some(owner) => {
                &&& meta.owner_references is Some
                &&& exists|i: int|
                    {
                        &&& 0 <= i < meta.owner_references->0.len()
                        &&& #[trigger] meta.owner_references->0[i] == owner
                        &&& owner.controller == Some(true)
                        &&& forall|j: int|
                            0 <= j < i ==> (#[trigger] meta.owner_references->0[j]).controller
                                != Some(true)
                    }
            },
            None => meta.owner_references is None || forall|j: int|
                0 <= j < meta.owner_references->0.len() ==> (#[trigger]
                meta.owner_references->0[j]).controller != Some(true),
        },
{
    if let Some(refs) = meta.owner_references {
        first_manager(refs, 0);
        let i = manager_place(refs, 0);
        if i < refs.len() {
            assert(refs[i] == managing_owner(meta)->0);
        }
    }
}

/// Before the place of the manager nobody manages.
proof fn first_manager(refs: Seq<OwnerReferenceView>, i: int)
    requires
        0 <= i <= refs.len(),
    ensures
        i <= manager_place(refs, i) <= refs.len(),
        manager_place(refs, i) < refs.len() ==> refs[manager_place(refs, i)].controller == Some(
            true,
        ),
        forall|j: int|
            i <= j < manager_place(refs, i) ==> (#[trigger] refs[j]).controller != Some(true),
    decreases refs.len() - i,
{
    if i < refs.len() && refs[i].controller != Some(true) {
        first_manager(refs, i + 1);
    }
}

/// The check of a drop-in goes from the map to the owner: a map that is annotated with a key is
/// written, and then the owner is read with that key; it is written exactly if it does not refer to
/// the drop-in yet. What was not fit to be written starts over, at most three times in all.
pub proof fn dropin_checks_go_on(
    attempt: u32,
    cm: ConfigMapView,
    key: Seq<char>,
    dropins: Seq<DropinSourceView>,
    selector: ConfigMapKeySelectorView,
)
    requires
        1 <= attempt <= 3,
    ensures
        ({
            let annotated = cm.metadata.annotations is Some
                && cm.metadata.annotations->0.dom().contains("projectclair.io/dropin-key"@);
            let named = cm.metadata.annotations->0["projectclair.io/dropin-key"@];
            let after = DropinCheckView::after_map(attempt, cm);
            &&& managed_key(cm) is Some <==> annotated
            &&& annotated ==> managed_key(cm) == Some(named)
            &&& annotated ==> after == DropinCheckView::SaveMap(attempt, named)
            &&& !annotated ==> after == DropinCheckView::Finished(true)
            &&& map_event(cm) is Some <==> annotated && cm.data is Some
                && !cm.data->0.dom().contains(named)
            &&& map_event(cm) matches Some(ev) ==> ev.type_ == EventType::Warning && ev.note
                == Some("missing expected key: "@ + named)
        }),
        DropinCheckView::after_map_write(attempt, key, Commit::Saved)
            == DropinCheckView::FetchOwner(attempt, key),
        DropinCheckView::after_map_write(attempt, key, Commit::Failed) == DropinCheckView::Failed,
        DropinCheckView::after_owner_write(attempt, Commit::Saved) == DropinCheckView::Finished(
            true,
        ),
        DropinCheckView::after_owner_write(attempt, Commit::Failed) == DropinCheckView::Failed,
        ({
            let known = exists|i: int|
                0 <= i < dropins.len() && (#[trigger] dropins[i]).config_map_key_ref == Some(
                    selector,
                );
            let after = DropinCheckView::after_owner(attempt, Some(dropins), selector);
            &&& known ==> after == DropinCheckView::Finished(true)
            &&& !known ==> after == DropinCheckView::SaveOwner(attempt)
        }),
        attempt < 3 ==> ({
            let again = DropinCheckView::FetchMap((attempt + 1) as u32);
            &&& DropinCheckView::after_map_write(attempt, key, Commit::Invalid) == again
            &&& DropinCheckView::after_owner_write(attempt, Commit::Invalid) == again
            &&& DropinCheckView::after_owner(attempt, None, selector) == again
            &&& after_invalid(attempt) == Attempt::Again((attempt + 1) as u32)
        }),
        attempt == 3 ==> ({
            let over = DropinCheckView::Finished(false);
            &&& DropinCheckView::after_map_write(attempt, key, Commit::Invalid) == over
            &&& DropinCheckView::after_owner_write(attempt, Commit::Invalid) == over
            &&& DropinCheckView::after_owner(attempt, None, selector) == over
            &&& after_invalid(attempt) == Attempt::Stop(false)
        }),
{
}

/// An owner that is brought up to date keeps all its drop-ins in their places, and refers to the
/// managed one: by one more drop-in exactly if it did not before.
pub proof fn owners_keep_their_dropins(
    dropins: Seq<DropinSourceView>,
    selector: ConfigMapKeySelectorView,
)
    ensures
        ({
            let r = with_managed(dropins, selector);
            let known = exists|i: int|
                0 <= i < dropins.len() && (#[trigger] dropins[i]).config_map_key_ref == Some(
                    selector,
                );
            &&& known ==> r == dropins
            &&& !known ==> r.len() == dropins.len() + 1 && r.last().config_map_key_ref == Some(
                selector,
            ) && r.last().secret_key_ref is None
            &&& forall|i: int| 0 <= i < dropins.len() ==> #[trigger] r[i] == dropins[i]
        }),
{
}

/// The container that runs Clair gets the image that was asked for. Of its variables and mounts
/// those that it has stay, and those for the configuration and for the mode are added where there
/// are none of their names. Nothing else changes.
pub proof fn containers_are_completed(
    c: ContainerView,
    component: Seq<char>,
    cfgsrc: ConfigSourceView,
    image: Seq<char>,
    e: EnvVarView,
    m: VolumeMountView,
)
    requires
        c.env is Some,
        c.volume_mounts is Some,
    ensures
        ({
            let r = tuned_container(c, component, cfgsrc, image);
            let conf = EnvVarView {
                name: "CLAIR_CONF"@,
                value: Some("/etc/clair/"@ + cfgsrc.root.key),
                value_from: None,
            };
            let mode = EnvVarView { name: "CLAIR_MODE"@, value: Some(component), value_from: None };
            let first_var = keyed::found_in::<EnvVar>(c.env->0, e.name) == Some(e);
            let first_mount = keyed::found_in::<VolumeMount>(c.volume_mounts->0, m.name) == Some(m);
            &&& r.image == Some(image)
            &&& r.name == c.name
            &&& r.command == c.command
            &&& r.args == c.args
            &&& r.ports == c.ports
            &&& first_var ==> r.env->0.contains(e)
            &&& keyed::found_in::<EnvVar>(c.env->0, "CLAIR_CONF"@) is None ==> r.env->0.contains(
                conf,
            )
            &&& keyed::found_in::<EnvVar>(c.env->0, "CLAIR_MODE"@) is None ==> r.env->0.contains(
                mode,
            )
            &&& r.env->0.contains(e) ==> first_var || e == conf || e == mode
            &&& first_mount ==> r.volume_mounts->0.contains(m)
            &&& r.volume_mounts->0.contains(m) ==> first_mount || mounts::config_mounts(
                cfgsrc,
            ).contains(m)
        }),
{
    let conf = EnvVarView {
        name: "CLAIR_CONF"@,
        value: Some("/etc/clair/"@ + cfgsrc.root.key),
        value_from: None,
    };
    let mode = EnvVarView { name: "CLAIR_MODE"@, value: Some(component), value_from: None };
    reveal_strlit("CLAIR_CONF");
    reveal_strlit("CLAIR_MODE");
    assert("CLAIR_CONF"@[6] != "CLAIR_MODE"@[6]);
    let more = seq![conf, mode];
    let all = c.env->0 + more;
    kept_is_first::<EnvVar>(all, e);
    kept_is_first::<EnvVar>(all, conf);
    kept_is_first::<EnvVar>(all, mode);
    found_in_both::<EnvVar>(c.env->0, more, e.name);
    found_in_both::<EnvVar>(c.env->0, more, conf.name);
    found_in_both::<EnvVar>(c.env->0, more, mode.name);
    assert(more[0] == conf && more[1] == mode);
    first_is_found::<EnvVar>(more, 0);
    first_is_found::<EnvVar>(more, 1);
    found_is_first::<EnvVar>(more, e.name);
    let added = mounts::config_mounts(cfgsrc);
    kept_is_first::<VolumeMount>(c.volume_mounts->0 + added, m);
    found_in_both::<VolumeMount>(c.volume_mounts->0, added, m.name);
    found_is_first::<VolumeMount>(added, m.name);
}

/// What is found in two lists one after the other is what is found in the first, and else what is
/// found in the second.
proof fn found_in_both<T: Keyed>(a: Seq<T::V>, b: Seq<T::V>, key: Seq<char>)
    ensures
        keyed::found_in::<T>(a + b, key) == (if keyed::found_in::<T>(a, key) is Some {
            keyed::found_in::<T>(a, key)
        } else {
            keyed::found_in::<T>(b, key)
        }),
{
    let s = a + b;
    found_is_first::<T>(a, key);
    found_is_first::<T>(b, key);
    found_is_first::<T>(s, key);
    if let Some(x) = keyed::found_in::<T>(a, key) {
        let i = choose|i: int|
            {
                &&& 0 <= i < a.len()
                &&& #[trigger] a[i] == x
                &&& T::key_of(a[i]) == key
                &&& forall|j: int| 0 <= j < i ==> T::key_of(#[trigger] a[j]) != key
            };
        assert(s[i] == x);
        assert forall|j: int| 0 <= j < i implies T::key_of(#[trigger] s[j]) != T::key_of(s[i]) by {
            assert(s[j] == a[j]);
        }
        first_is_found::<T>(s, i);
    } else if let Some(x) = keyed::found_in::<T>(b, key) {
        let i = choose|i: int|
            {
                &&& 0 <= i < b.len()
                &&& #[trigger] b[i] == x
                &&& T::key_of(b[i]) == key
                &&& forall|j: int| 0 <= j < i ==> T::key_of(#[trigger] b[j]) != key
            };
        let n = a.len() as int;
        assert(s[n + i] == x);
        assert forall|j: int| 0 <= j < n + i implies T::key_of(#[trigger] s[j]) != T::key_of(
            s[n + i],
        ) by {
            if j < n {
                assert(s[j] == a[j]);
            } else {
                assert(s[j] == b[j - n]);
            }
        }
        first_is_found::<T>(s, n + i);
    } else {
        if keyed::found_in::<T>(s, key) is Some {
            let x = keyed::found_in::<T>(s, key)->0;
            let i = choose|i: int|
                {
                    &&& 0 <= i < s.len()
                    &&& #[trigger] s[i] == x
                    &&& T::key_of(s[i]) == key
                    &&& forall|j: int| 0 <= j < i ==> T::key_of(#[trigger] s[j]) != key
                };
            if i < a.len() {
                assert(a[i] == x);
            } else {
                assert(b[i - a.len()] == x);
            }
        }
    }
}

/// Of the containers of a pod, the first one named "clair" is completed and the others stay as they
/// are, in their places.
pub proof fn only_clair_is_completed(
    cs: Seq<ContainerView>,
    component: Seq<char>,
    cfgsrc: ConfigSourceView,
    image: Seq<char>,
    i: int,
)
    requires
        0 <= i < cs.len(),
    ensures
        ({
            let r = tuned_containers(cs, component, cfgsrc, image);
            &&& r.len() == cs.len()
            &&& cs[i].name == "clair"@ && (forall|j: int|
                0 <= j < i ==> (#[trigger] cs[j]).name != "clair"@) ==> r[i] == tuned_container(
                cs[i],
                component,
                cfgsrc,
                image,
            )
            &&& cs[i].name != "clair"@ ==> r[i] == cs[i]
        }),
{
    found_is_first::<Container>(cs, "clair"@);
    if cs[i].name == "clair"@ && (forall|j: int|
        0 <= j < i ==> (#[trigger] cs[j]).name != "clair"@) {
        place_of_first(cs, i, 0);
    }
    place_has_key(cs, 0);
}

/// The place of the container that runs Clair is that of the first of the name.
proof fn place_of_first(cs: Seq<ContainerView>, i: int, from: int)
    requires
        0 <= from <= i < cs.len(),
        cs[i].name == "clair"@,
        forall|j: int| 0 <= j < i ==> (#[trigger] cs[j]).name != "clair"@,
    ensures
        keyed::key_place::<Container>(cs, "clair"@, from) == i,
    decreases i - from,
{
    if from < i {
        assert(cs[from].name != "clair"@);
        place_of_first(cs, i, from + 1);
    }
}

/// The place of the container that runs Clair has one of the name, or is the end.
proof fn place_has_key(cs: Seq<ContainerView>, from: int)
    requires
        0 <= from <= cs.len(),
    ensures
        from <= keyed::key_place::<Container>(cs, "clair"@, from) <= cs.len(),
        keyed::key_place::<Container>(cs, "clair"@, from) < cs.len()
            ==> cs[keyed::key_place::<Container>(cs, "clair"@, from)].name == "clair"@,
    decreases cs.len() - from,
{
    if from < cs.len() && cs[from].name != "clair"@ {
        place_has_key(cs, from + 1);
    }
}

/// A deployment that is brought up to date is labelled with its component, and so is what it
/// selects and what its pods carry. Its volumes are those of the configuration, and those that it
/// has under other names.
pub proof fn deployments_are_completed(
    d: DeploymentView,
    component: Seq<char>,
    cfgsrc: ConfigSourceView,
    image: Seq<char>,
    v: VolumeView,
)
    requires
        d.spec is Some,
        d.spec->0.template.metadata is Some,
        d.spec->0.template.spec is Some,
    ensures
        ({
            let r = tuned_deployment(d, component, cfgsrc, image);
            let label = "app.kubernetes.io/component"@;
            let (before, after) = (d.spec->0.template.spec->0, r.spec->0.template.spec->0);
            let config = mounts::config_volumes(cfgsrc);
            &&& r.metadata.labels->0[label] == component
            &&& r.metadata.name == d.metadata.name
            &&& r.spec->0.selector.match_labels->0[label] == component
            &&& r.spec->0.template.metadata->0.labels->0[label] == component
            &&& after.containers == tuned_containers(before.containers, component, cfgsrc, image)
            &&& r.spec->0.replicas == d.spec->0.replicas
            &&& before.volumes is None ==> after.volumes is None
            &&& before.volumes is Some ==> {
                &&& after.volumes->0.contains(config[0])
                &&& after.volumes->0.contains(config[1])
                &&& v.name != config[0].name && v.name != config[1].name
                    ==> (after.volumes->0.contains(v) <==> keyed::found_in::<Volume>(
                    before.volumes->0,
                    v.name,
                ) == Some(v))
            }
        }),
{
    let config = mounts::config_volumes(cfgsrc);
    reveal_strlit("root-config");
    reveal_strlit("dropins");
    assert("root-config"@.len() != "dropins"@.len());
    let before = d.spec->0.template.spec->0;
    if let Some(vs) = before.volumes {
        let all = config + vs;
        kept_is_first::<Volume>(all, config[0]);
        kept_is_first::<Volume>(all, config[1]);
        kept_is_first::<Volume>(all, v);
        found_in_both::<Volume>(config, vs, config[0].name);
        found_in_both::<Volume>(config, vs, config[1].name);
        found_in_both::<Volume>(config, vs, v.name);
        first_is_found::<Volume>(config, 0);
        first_is_found::<Volume>(config, 1);
        found_is_first::<Volume>(config, v.name);
    }
}

/// A new deployment of a matcher runs the image that was asked for in its first container, which is
/// told where its configuration is and sees it there. Other containers stay as they are.
pub proof fn new_deployments_are_configured(
    d: DeploymentView,
    cfgsrc: ConfigSourceView,
    image: Seq<char>,
)
    requires
        d.spec is Some,
        d.spec->0.template.spec is Some,
        d.spec->0.template.spec->0.containers.len() > 0,
    ensures
        ({
            let r = matchers::configured_deployment(d, cfgsrc, image);
            let (before, after) = (d.spec->0.template.spec->0, r.spec->0.template.spec->0);
            let c = after.containers[0];
            &&& r.metadata == d.metadata
            &&& r.spec->0.selector == d.spec->0.selector
            &&& r.spec->0.template.metadata == d.spec->0.template.metadata
            &&& c.image == Some(image)
            &&& c.name == before.containers[0].name
            &&& c.env->0.last().name == "CLAIR_CONF"@
            &&& c.env->0.last().value == Some(c.volume_mounts->0[0].mount_path)
            &&& c.volume_mounts == Some(mounts::config_mounts(cfgsrc))
            &&& after.volumes == Some(mounts::config_volumes(cfgsrc))
            &&& after.containers.len() == before.containers.len()
            &&& forall|i: int|
                1 <= i < before.containers.len() ==> #[trigger] after.containers[i]
                    == before.containers[i]
            &&& before.containers[0].env is Some ==> c.env->0.drop_last()
                == before.containers[0].env->0
        }),
{
    let r = matchers::configured_deployment(d, cfgsrc, image);
    let c = r.spec->0.template.spec->0.containers[0];
    let before = d.spec->0.template.spec->0.containers[0];
    if before.env is Some {
        assert(c.env->0.drop_last() =~= before.env->0);
    }
}

/// An indexer is complete exactly if it has a configuration and an image; the condition and the
/// event on its spec say so, of the present generation.
pub proof fn indexers_are_complete(v: IndexerView, now: TimeView)
    ensures
        ({
            let complete = v.spec.config is Some && v.spec.image is Some;
            let (cnd, ev) = (spec_condition(v, now), spec_event(v));
            &&& spec_lacks(v) is None <==> complete
            &&& v.spec.config is None ==> spec_lacks(v) == Some("spec missing ConfigSource"@)
            &&& v.spec.config is Some && v.spec.image is None ==> spec_lacks(v) == Some(
                "spec missing image"@,
            )
            &&& cnd.status == "True"@ <==> complete
            &&& cnd.status == "False"@ <==> !complete
            &&& cnd.reason == "SpecComplete"@ <==> complete
            &&& cnd.type_ == "projectclair.io/"@ + dashed("SpecOK"@)
            &&& cnd.observed_generation == v.metadata.generation
            &&& cnd.last_transition_time == now
            &&& ev.type_ == EventType::Normal <==> complete
            &&& ev.note is None <==> complete
        }),
        v.metadata.name is Some ==> delete_event(v).note == Some(
            "Delete `"@ + v.metadata.name->0 + "`"@,
        ),
{
    reveal_strlit("True");
    reveal_strlit("False");
    reveal_strlit("SpecComplete");
    reveal_strlit("SpecIncomplete");
    assert("True"@.len() != "False"@.len());
    assert("SpecComplete"@.len() != "SpecIncomplete"@.len());
}

/// What was written for an owner is reported exactly if it was created or came to a new generation.
/// The report says which of both, to the owner, with the written object as what it is about.
pub proof fn changes_are_reported<T: Resource, R: Resource>(
    owner: T::V,
    wanted: R::V,
    current: Option<R::V>,
    result: R::V,
    now: TimeView,
)
    ensures
        ({
            let r = report_for::<T, R>(owner, wanted, current, result, now);
            let changed = current is None || R::metadata(current->0).generation != R::metadata(
                result,
            ).generation;
            &&& r is Some <==> changed
            &&& r matches Some(report) ==> {
                &&& report.condition.status == "True"@
                &&& report.condition.type_ == "projectclair.io/"@ + dashed(
                    R::kind_name() + "Created"@,
                )
                &&& report.condition.observed_generation == T::metadata(owner).generation
                &&& report.condition.last_transition_time == now
                &&& report.event.type_ == EventType::Normal
                &&& report.event.secondary == Some(report.regarding)
                &&& report.regarding.name == R::metadata(result).name
                &&& report.regarding.uid == R::metadata(result).uid
                &&& report.regarding.kind == Some(R::kind_name())
                &&& current is None ==> report.condition.reason == R::kind_name() + "Created"@
                    && report.event.action == "Created"@ + R::kind_name()
                    && report.condition.message == "created "@ + R::kind_name()
                &&& current is Some ==> report.condition.reason == R::kind_name() + "Updated"@
                    && report.event.action == "Updated"@ + R::kind_name()
                    && report.condition.message == "patched "@ + R::kind_name()
                &&& R::metadata(wanted).name is Some ==> report.event.reason == T::kind_name()
                    + " requires "@ + R::kind_name() + " \""@ + R::metadata(wanted).name->0 + "\""@
            }
        }),
{
}

/// What is rendered for an object runs the given image in the mode that its kind says, is named
/// after the object and its kind, and is managed by it once it can be referred to.
pub proof fn rendered_runs_its_kind<O: Resource>(owner: O::V, image: Seq<char>)
    requires
        O::metadata(owner).name is Some,
        O::metadata(owner).uid is Some,
    ensures
        ({
            let d = rendered::<O, Deployment>(owner, image);
            let s = rendered::<O, Service>(owner, image);
            let h = rendered::<O, HorizontalPodAutoscaler>(owner, image);
            let j = rendered::<O, CronJob>(owner, image);
            let name = O::metadata(owner).name->0 + "-"@ + text::lower(O::kind_name());
            let api_version = resource::group_version(O::group_name(), O::version_name());
            let template = d.spec->0.template;
            let c = template.spec->0.containers[0];
            &&& rendered_name::<O>(owner) == name
            &&& d.metadata.name == Some(name) && s.metadata.name == Some(name) && h.metadata.name
                == Some(name) && j.metadata.name == Some(name)
            &&& belongs_to(d.metadata, O::metadata(owner), O::kind_name(), api_version)
            &&& belongs_to(s.metadata, O::metadata(owner), O::kind_name(), api_version)
            &&& belongs_to(h.metadata, O::metadata(owner), O::kind_name(), api_version)
            &&& belongs_to(j.metadata, O::metadata(owner), O::kind_name(), api_version)
            &&& d.metadata.owner_references->0[0].controller == Some(true)
            &&& is_confined(template)
            &&& c.image == Some(image)
            &&& has_var(c, "CLAIR_MODE"@, text::lower(O::kind_name()))
            &&& template.metadata->0.labels->0["app.kubernetes.io/component"@] == text::lower(
                O::kind_name(),
            )
            &&& probes_own_port(c, c.startup_probe)
            &&& probes_own_port(c, c.liveness_probe)
            &&& probes_own_port(c, c.readiness_probe)
            &&& has_port(c, "api"@)
            &&& h.spec->0.scale_target_ref.name == name
            &&& h.spec->0.scale_target_ref.kind == "Deployment"@
            &&& h.spec->0.min_replicas == Some(1i32) && h.spec->0.max_replicas == 10
            &&& j.spec->0.schedule == "0 */8 * * *"@
            &&& j.spec->0.job_template.spec->0.template.spec->0.containers[0].image == Some(image)
        }),
{
    let d = rendered::<O, Deployment>(owner, image);
    let c = d.spec->0.template.spec->0.containers[0];
    reveal_strlit("GOMAXPROCS");
    reveal_strlit("CLAIR_MODE");
    assert("GOMAXPROCS"@[0] != "CLAIR_MODE"@[0]);
    assert(c.env->0[1].name == "CLAIR_MODE"@);
    assert(c.env->0.contains(c.env->0[1]));
    assert(c.ports->0[0].name == Some("api"@));
    assert(c.ports->0[1].name == Some("introspection"@));
}

/// Templates are the files below their directory, by the rest of their path; drop-ins are the files
/// that are named so. Where a path is there twice, the last file counts.
pub proof fn files_are_sorted_out(files: Seq<AssetView>, f: AssetView)
    ensures
        ({
            let all = files.push(f);
            let dir = "templates/"@;
            let key = f.relative_path.skip(dir.len() as int);
            &&& text::has_prefix(f.relative_path, dir) ==> assets::templates_in(all)
                == assets::templates_in(files).insert(key, f.bytes)
            &&& !text::has_prefix(f.relative_path, dir) ==> assets::templates_in(all)
                == assets::templates_in(files)
            &&& text::has_suffix(f.relative_path, "_dropin.json-patch"@) ==> assets::dropins_in(all)
                == assets::dropins_in(files).insert(f.relative_path, f.bytes)
            &&& !text::has_suffix(f.relative_path, "_dropin.json-patch"@) ==> assets::dropins_in(
                all,
            ) == assets::dropins_in(files)
        }),
        assets::templates_in(Seq::empty()) == Map::<Seq<char>, Seq<u8>>::empty(),
        assets::dropins_in(Seq::empty()) == Map::<Seq<char>, Seq<u8>>::empty(),
{
    let all = files.push(f);
    assert(all.drop_last() =~= files);
    assert(all.last() == f);
}

/// The map of a default drop-in holds it under one key, and its annotation names that key: the one
/// under which a managed drop-in is looked for.
pub proof fn default_dropins_are_managed<S: Resource>(obj: S::V, key: Seq<char>, value: Seq<char>)
    requires
        S::metadata(obj).name is Some,
        S::metadata(obj).uid is Some,
    ensures
        ({
            let cm = assets::dropin_map::<S>(obj, key, value);
            &&& managed_key(cm) == Some(key)
            &&& map_event(cm) is None
            &&& cm.data->0.dom() == set![key]
            &&& cm.data->0[key] == value
            &&& cm.metadata.name == Some(
                S::metadata(obj).name->0 + "-"@ + text::lower(S::kind_name()),
            )
            &&& belongs_to(
                cm.metadata,
                S::metadata(obj),
                S::kind_name(),
                resource::group_version(S::group_name(), S::version_name()),
            )
        }),
{
    let cm = assets::dropin_map::<S>(obj, key, value);
    assert(cm.data->0.dom() =~= set![key]);
}

} // verus!
