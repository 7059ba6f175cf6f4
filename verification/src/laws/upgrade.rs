//! Upgrades: a new image becomes current once the job before the upgrade succeeded.

use vstd::prelude::*;

use crate::clairs::{
    admin_post_for, admin_pre_for, admin_pre_found, config_ready, has_config, is_ready,
    missing_fields, pre_job_condition, promotion, steps_for, wants_promotion, AdminPostView,
    AdminPreView, Step,
};
use crate::condition::{condition_place, first_condition, Type};
use crate::event::EventType;
use crate::image::version_of;
use crate::k8s::meta::{ConditionView, TimeView};
use crate::k8s::workload::{DeploymentView, JobView};
use crate::render::default_tag;
use crate::text;
use crate::v1alpha1::ClairView;

verus! {

/// The condition that is found for a type is the first one of that type, and none is found exactly
/// if there is none.
pub proof fn conditions_are_found_by_type(cs: Seq<ConditionView>, ty: Type)
    ensures
        match first_condition(Some(cs), ty) {
            Some(cnd) => exists|i: int|
                {
                    &&& 0 <= i < cs.len()
                    &&& #[trigger] cs[i] == cnd
                    &&& cs[i].type_ == ty.name()
                    &&& forall|j: int| 0 <= j < i ==> (#[trigger] cs[j]).type_ != ty.name()
                },
            None => forall|j: int| 0 <= j < cs.len() ==> (#[trigger] cs[j]).type_ != ty.name(),
        },
        first_condition(None, ty) is None,
{
    place_is_first(cs, ty.name(), 0);
    let i = condition_place(cs, ty.name(), 0);
    if i < cs.len() {
        assert(cs[i] == first_condition(Some(cs), ty)->0);
    }
}

/// Before the place of a type there is no condition of that type.
proof fn place_is_first(cs: Seq<ConditionView>, ty: Seq<char>, i: int)
    requires
        0 <= i <= cs.len(),
    ensures
        i <= condition_place(cs, ty, i) <= cs.len(),
        condition_place(cs, ty, i) < cs.len() ==> cs[condition_place(cs, ty, i)].type_ == ty,
        forall|j: int| i <= j < condition_place(cs, ty, i) ==> (#[trigger] cs[j]).type_ != ty,
    decreases cs.len() - i,
{
    if i < cs.len() && cs[i].type_ != ty {
        place_is_first(cs, ty, i + 1);
    }
}

/// A condition that is the first of its type is the one that is found.
proof fn first_is_found(cs: Seq<ConditionView>, ty: Type, i: int)
    requires
        0 <= i < cs.len(),
        cs[i].type_ == ty.name(),
        forall|j: int| 0 <= j < i ==> (#[trigger] cs[j]).type_ != ty.name(),
    ensures
        first_condition(Some(cs), ty) == Some(cs[i]),
{
    place_is_first(cs, ty.name(), 0);
    let p = condition_place(cs, ty.name(), 0);
    if p < i {
        assert(cs[p].type_ != ty.name());
    }
    if p > i {
        assert(cs[i].type_ != ty.name());
    }
}

/// The job before an upgrade is reported as done exactly if nothing of it runs any more and it did
/// not fail, and the reason says which of that holds. The report is about the generation that the
/// instance has.
pub proof fn done_exactly_on_success(c: ClairView, name: Seq<char>, job: JobView, now: TimeView)
    ensures
        ({
            let cnd = admin_pre_found(c, name, Some(job), now);
            let over = job.status is Some && job.status->0.active == Some(0i32);
            let failed = job.status is Some && job.status->0.failed == Some(1i32);
            &&& cnd.type_ == "clairproject.org/"@ + "AdminPreJobDone"@
            &&& cnd.observed_generation == c.metadata.generation
            &&& cnd.last_transition_time == now
            &&& cnd.status == "True"@ <==> over && !failed
            &&& cnd.status == "False"@ <==> !over || failed
            &&& cnd.reason == "JobSucceeded"@ <==> over && !failed
            &&& cnd.reason == "JobFailed"@ <==> over && failed
            &&& cnd.reason == "JobNotComplete"@ <==> !over
        }),
{
    reveal_strlit("True");
    reveal_strlit("False");
    reveal_strlit("JobSucceeded");
    reveal_strlit("JobFailed");
    reveal_strlit("JobNotComplete");
    assert("True"@.len() != "False"@.len());
    assert("JobSucceeded"@.len() != "JobFailed"@.len());
    assert("JobSucceeded"@.len() != "JobNotComplete"@.len());
    assert("JobFailed"@.len() != "JobNotComplete"@.len());
}

/// Of a job that is not there, nothing is known, and the report says which job that is.
pub proof fn missing_job_is_unknown(c: ClairView, name: Seq<char>, now: TimeView)
    ensures
        ({
            let cnd = admin_pre_found(c, name, None, now);
            &&& cnd.type_ == "clairproject.org/"@ + "AdminPreJobDone"@
            &&& cnd.status == "Unknown"@
            &&& cnd.status != "True"@
            &&& cnd.reason == "JobMissing"@
            &&& cnd.message == "unable to fetch job \""@ + name + "\""@
            &&& cnd.observed_generation == c.metadata.generation
        }),
{
    reveal_strlit("True");
    reveal_strlit("Unknown");
    assert("True"@.len() != "Unknown"@.len());
}

/// With the report on a job as the first condition of its type, a changed image is made current
/// exactly if nothing of that job runs any more and it did not fail.
pub proof fn promotion_needs_success(
    c: ClairView,
    name: Seq<char>,
    job: JobView,
    now: TimeView,
    cs: Seq<ConditionView>,
    i: int,
)
    requires
        c.status is Some,
        c.status->0.conditions == Some(cs),
        0 <= i < cs.len(),
        cs[i] == admin_pre_found(c, name, Some(job), now),
        forall|j: int|
            0 <= j < i ==> (#[trigger] cs[j]).type_ != "clairproject.org/"@ + "AdminPreJobDone"@,
    ensures
        promotion(c) is Some <==> {
            &&& c.spec.image != c.status->0.image
            &&& job.status is Some
            &&& job.status->0.active == Some(0i32)
            &&& job.status->0.failed != Some(1i32)
        },
{
    done_exactly_on_success(c, name, job, now);
    first_is_found(cs, Type::AdminPreJobDone, i);
}

/// With the report on a missing job as the first condition of its type, no image is made current.
pub proof fn no_promotion_for_a_missing_job(
    c: ClairView,
    name: Seq<char>,
    now: TimeView,
    cs: Seq<ConditionView>,
    i: int,
)
    requires
        c.status is Some,
        c.status->0.conditions == Some(cs),
        0 <= i < cs.len(),
        cs[i] == admin_pre_found(c, name, None, now),
        forall|j: int|
            0 <= j < i ==> (#[trigger] cs[j]).type_ != "clairproject.org/"@ + "AdminPreJobDone"@,
    ensures
        promotion(c) is None,
{
    missing_job_is_unknown(c, name, now);
    first_is_found(cs, Type::AdminPreJobDone, i);
}

/// What is made current is the image that the spec asks for, and nothing else of the status is
/// touched. Where there is a condition on the job before an upgrade, this happens exactly if the
/// image is another than the current one and the condition is true of the present generation. It
/// happens without such a condition too.
pub proof fn the_asked_image_is_promoted(c: ClairView, cs: Seq<ConditionView>, i: int)
    requires
        c.status is Some,
        c.status->0.conditions == Some(cs),
        0 <= i < cs.len(),
        cs[i].type_ == "clairproject.org/"@ + "AdminPreJobDone"@,
        forall|j: int|
            0 <= j < i ==> (#[trigger] cs[j]).type_ != "clairproject.org/"@ + "AdminPreJobDone"@,
    ensures
        promotion(c) is Some <==> {
            &&& c.spec.image != c.status->0.image
            &&& cs[i].observed_generation == c.metadata.generation
            &&& cs[i].status == "True"@
        },
        promotion(c) matches Some(s) ==> {
            &&& s.image == c.spec.image
            &&& s.conditions is None
            &&& s.refs is None
            &&& s.config is None
            &&& s.indexer is None
            &&& s.matcher is None
            &&& s.notifier is None
        },
{
    first_is_found(cs, Type::AdminPreJobDone, i);
}

/// An instance that has no condition on the job before an upgrade has no image to upgrade from: the
/// image that its spec asks for is made current, and no job is run.
pub proof fn new_instances_need_no_job(c: ClairView, now: TimeView)
    requires
        c.status matches Some(s) ==> (s.conditions matches Some(cs) ==> forall|j: int|
            0 <= j < cs.len() ==> (#[trigger] cs[j]).type_ != "clairproject.org/"@
                + "AdminPreJobDone"@),
    ensures
        promotion(c) is Some && promotion(c)->0.image == c.spec.image,
        c.spec.image is Some && version_of(c.spec.image->0) is Some ==> ({
            &&& admin_pre_for(c, now) matches Ok(AdminPreView::Report(cnd))
            &&& cnd.type_ == "clairproject.org/"@ + "AdminPreJobDone"@
            &&& cnd.status == "True"@
            &&& cnd.reason == "NewClair"@
            &&& cnd.observed_generation == c.metadata.generation
        }),
{
    if c.status is Some && c.status->0.conditions is Some {
        place_is_first(c.status->0.conditions->0, Type::AdminPreJobDone.name(), 0);
    }
    assert(pre_job_condition(c) is None);
}

/// What is done about the job before an upgrade of an instance that has a condition on it. A job is
/// created exactly for an image that is tagged with a version, is not the current one and was not
/// dealt with at this generation. It is named after the instance and the version, runs the image
/// that the spec asks for, and is reported as not done. A job that is not known to be done is
/// looked for by that same name.
pub proof fn a_changed_image_starts_the_job(
    c: ClairView,
    now: TimeView,
    cs: Seq<ConditionView>,
    i: int,
)
    requires
        c.spec.image is Some,
        c.status is Some,
        c.status->0.conditions == Some(cs),
        0 <= i < cs.len(),
        cs[i].type_ == "clairproject.org/"@ + "AdminPreJobDone"@,
        forall|j: int|
            0 <= j < i ==> (#[trigger] cs[j]).type_ != "clairproject.org/"@ + "AdminPreJobDone"@,
    ensures
        ({
            let r = admin_pre_for(c, now);
            let changed = c.spec.image != c.status->0.image && c.metadata.generation
                != cs[i].observed_generation;
            let name = c.metadata.name->0 + "-"@ + "admin-pre"@ + "-"@ + version_of(
                c.spec.image->0,
            )->0;
            match version_of(c.spec.image->0) {
                None => r matches Ok(AdminPreView::Skip(_)),
                Some(version) => {
                    &&& changed ==> (match r {
                        Ok(AdminPreView::Create(job, cnd)) => {
                            let containers = job.spec->0.template.spec->0.containers;
                            &&& job.metadata.name == Some(name)
                            &&& job.metadata.namespace == c.metadata.namespace
                            &&& containers.len() == 1
                            &&& containers[0].image == c.spec.image
                            &&& containers[0].args == Some(seq![version])
                            &&& containers[0].command == Some(seq!["clairctl"@, "admin"@, "pre"@])
                            &&& cnd.type_ == cs[i].type_
                            &&& cnd.status == "False"@
                            &&& cnd.reason == "ImageUpdated"@
                            &&& cnd.observed_generation == c.metadata.generation
                        },
                        Ok(_) => false,
                        Err(_) => c.status->0.config is None || c.metadata.namespace is None
                            || c.metadata.name is None || c.metadata.uid is None,
                    })
                    &&& !changed && cs[i].status != "True"@ ==> (r matches Ok(
                        AdminPreView::Check(looked_for),
                    ) && looked_for == name)
                    &&& !changed && cs[i].status == "True"@ ==> (r matches Ok(AdminPreView::Done))
                },
            }
        }),
{
    first_is_found(cs, Type::AdminPreJobDone, i);
}

/// The job after an upgrade waits for all deployments of the components that run, once every
/// condition that it depends on is there and true. Otherwise it waits for nothing.
pub proof fn the_last_job_waits_for_all(c: ClairView)
    requires
        c.spec.image is Some,
        version_of(c.spec.image->0) is Some,
        c.status is Some,
        c.status->0.conditions is Some,
    ensures
        ({
            let cs = c.status->0.conditions;
            let holds = |ty: Type|
                first_condition(cs, ty) is Some && first_condition(cs, ty)->0.status == "True"@;
            let all = {
                &&& holds(Type::AdminPostJobDone)
                &&& holds(Type::IndexerCreated)
                &&& holds(Type::MatcherCreated)
                &&& c.spec.notifier == Some(true) ==> holds(Type::NotifierCreated)
            };
            match admin_post_for(c) {
                AdminPostView::Await(names) => {
                    &&& all
                    &&& names.contains(c.metadata.name->0 + "-"@ + "Indexer"@)
                    &&& names.contains(c.metadata.name->0 + "-"@ + "Matcher"@)
                    &&& c.spec.notifier == Some(true) <==> names.len() == 3
                    &&& c.spec.notifier == Some(true) ==> names[2] == c.metadata.name->0 + "-"@
                        + "Notifier"@
                    &&& c.spec.notifier != Some(true) ==> names.len() == 2
                },
                AdminPostView::Stop(ev) => !all && ev.note == Some("conditions not met"@),
                AdminPostView::Publish(_) => false,
            }
        }),
{
    reveal_strlit("True");
    reveal_strlit("False");
    reveal_strlit("Unknown");
    assert("True"@.len() != "False"@.len());
    if let AdminPostView::Await(names) = admin_post_for(c) {
        assert(names[0] == c.metadata.name->0 + "-"@ + "Indexer"@);
        assert(names[1] == c.metadata.name->0 + "-"@ + "Matcher"@);
    }
}

/// Without a version in the tag of the image there are no jobs, before or after.
pub proof fn unversioned_images_have_no_jobs(c: ClairView, now: TimeView)
    requires
        c.spec.image is None || version_of(c.spec.image->0) is None,
    ensures
        admin_pre_for(c, now) matches Ok(AdminPreView::Skip(ev)) && ev.reason
            == "ImageRefNotVersioned"@ && ev.type_ == EventType::Normal && ev.action
            == "AdminPre"@,
        admin_post_for(c) matches AdminPostView::Publish(ev) && ev.reason
            == "ImageRefNotVersioned"@ && ev.action == "AdminPost"@,
{
}

/// A deployment is ready exactly if one of its conditions is of the type "Ready" and true.
pub proof fn ready_by_condition(d: DeploymentView)
    ensures
        is_ready(d) <==> d.status is Some && d.status->0.conditions is Some && exists|i: int|
            {
                &&& 0 <= i < d.status->0.conditions->0.len()
                &&& (#[trigger] d.status->0.conditions->0[i]).type_ == "Ready"@
                &&& d.status->0.conditions->0[i].status == "True"@
            },
{
    if is_ready(d) {
        let cs = d.status->0.conditions->0;
        let i = choose|i: int|
            0 <= i < cs.len() && crate::clairs::says_ready(#[trigger] cs[i]);
        assert(cs[i].type_ == "Ready"@);
    }
}

/// A version is what follows the last colon of an image, if that starts with a digit or with a "v"
/// and a digit and is no path.
pub proof fn versions_follow_the_last_colon(repository: Seq<char>, tag: Seq<char>)
    requires
        !tag.contains(':'),
    ensures
        ({
            let digit = |i: int|
                0 <= i < tag.len() && (tag[i] == '0' || tag[i] == '1' || tag[i] == '2' || tag[i]
                    == '3' || tag[i] == '4' || tag[i] == '5' || tag[i] == '6' || tag[i] == '7'
                    || tag[i] == '8' || tag[i] == '9');
            let version = !tag.contains('/') && (digit(0) || (tag.len() > 0 && tag[0] == 'v'
                && digit(1)));
            version_of(repository + seq![':'] + tag) == (if version {
                Some(tag)
            } else {
                None
            })
        }),
{
    let image = repository + seq![':'] + tag;
    let n = repository.len() as int;
    assert(image[n] == ':');
    assert forall|j: int| n < j < image.len() implies image[j] != ':' by {
        assert(image[j] == tag[j - n - 1]);
        assert(tag.contains(tag[j - n - 1]));
    }
    assert(text::last_at(image, ':', n));
    let m = text::last_index(image, ':');
    assert(text::last_at(image, ':', m));
    assert(m == n);
    assert(image.skip(n + 1) =~= tag);
}

/// An image without a colon has no version.
pub proof fn no_version_without_a_colon(image: Seq<char>)
    requires
        !image.contains(':'),
    ensures
        version_of(image) is None,
{
}

/// Nothing is done for a spec without databases or without an image, and every field that is
/// missing is named in an event. Otherwise the configuration comes first, and everything else only
/// once there is one: the job before an upgrade, then the image, then the components, then the job
/// after it. The notifier is looked after exactly if it was asked for.
pub proof fn steps_follow_the_spec(c: ClairView)
    ensures
        missing_fields(c).len() == 0 <==> c.spec.databases is Some && c.spec.image is Some,
        c.spec.databases is None ==> missing_fields(c)[0].note == Some(
            "Clair `"@ + crate::resource::any_name(c.metadata) + "` missing `"@
                + "$.spec.databases"@ + "`"@,
        ),
        c.spec.image is None ==> missing_fields(c).last().note == Some(
            "Clair `"@ + crate::resource::any_name(c.metadata) + "` missing `"@ + "$.spec.image"@
                + "`"@,
        ),
        forall|i: int|
            0 <= i < missing_fields(c).len() ==> (#[trigger] missing_fields(c)[i]).type_
                == EventType::Warning && missing_fields(c)[i].reason == "MissingRequiredField"@,
        has_config(c) <==> c.status is Some && c.status->0.config is Some,
        steps_for(c).len() > 0 && steps_for(c)[0] == Step::Configuration,
        steps_for(c).len() > 1 <==> has_config(c),
        has_config(c) ==> ({
            let steps = steps_for(c);
            &&& steps[1] == Step::AdminPre
            &&& steps[2] == Step::PromoteImage
            &&& steps[3] == Step::Indexer
            &&& steps[4] == Step::Matcher
            &&& steps.last() == Step::AdminPost
            &&& c.spec.notifier == Some(true) ==> steps.len() == 7 && steps[5] == Step::Notifier
            &&& c.spec.notifier != Some(true) ==> steps.len() == 6
        }),
{
}

/// While the image waits for its job, nothing is promoted; and once a job was created for it, no
/// second one is created at the same generation.
pub proof fn one_job_at_a_time(c: ClairView, now: TimeView, later: ClairView)
    requires
        admin_pre_for(c, now) matches Ok(AdminPreView::Create(..)),
        later.spec == c.spec,
        later.metadata == c.metadata,
        later.status is Some,
        later.status->0.conditions == Some(
            seq![admin_pre_for(c, now)->Ok_0->Create_1],
        ),
    ensures
        promotion(c) is None,
        promotion(later) is None,
        !(admin_pre_for(later, now) matches Ok(AdminPreView::Create(..))),
        admin_pre_for(later, now) matches Ok(AdminPreView::Check(_)),
{
    let cs = later.status->0.conditions->0;
    first_is_found(cs, Type::AdminPreJobDone, 0);
    reveal_strlit("True");
    reveal_strlit("False");
    assert("True"@.len() != "False"@.len());
}

/// An image is promoted only where the spec and the status differ in it, or where there is no
/// condition to go by.
pub proof fn promotion_changes_something(c: ClairView)
    requires
        wants_promotion(c),
        pre_job_condition(c) is Some,
    ensures
        promotion(c)->0.image != c.status->0.image,
{
}

/// The default image of a release has a version, so that jobs run for it; that of a build for
/// debugging has none.
pub proof fn releases_have_versions(repository: Seq<char>)
    ensures
        version_of(repository + seq![':'] + default_tag(false)) == Some(default_tag(false)),
        version_of(repository + seq![':'] + default_tag(true)) is None,
{
    let release = default_tag(false);
    let debug = default_tag(true);
    reveal_strlit("4.7.0");
    reveal_strlit("nightly");
    if release.contains(':') || release.contains('/') {
        let i = choose|i: int|
            0 <= i < release.len() && (release[i] == ':' || release[i] == '/');
        assert(i == 0 || i == 1 || i == 2 || i == 3 || i == 4);
    }
    if debug.contains(':') {
        let i = choose|i: int| 0 <= i < debug.len() && debug[i] == ':';
        assert(i == 0 || i == 1 || i == 2 || i == 3 || i == 4 || i == 5 || i == 6);
    }
    versions_follow_the_last_colon(repository, release);
    versions_follow_the_last_colon(repository, debug);
}

/// Once a configuration is in place, the condition on it says so, of the present generation; it is
/// no report on a job, so that it cannot stand in for one.
pub proof fn configurations_are_reported(c: ClairView, now: TimeView)
    ensures
        ({
            let cnd = config_ready(c, now);
            &&& cnd.type_ == "clairproject.org/"@ + "ConfigReady"@
            &&& cnd.status == "True"@
            &&& cnd.observed_generation == c.metadata.generation
            &&& cnd.last_transition_time == now
            &&& first_condition(Some(seq![cnd]), Type::ConfigReady) == Some(cnd)
            &&& first_condition(Some(seq![cnd]), Type::AdminPreJobDone) is None
        }),
{
    let cnd = config_ready(c, now);
    let cs = seq![cnd];
    first_is_found(cs, Type::ConfigReady, 0);
    conditions_are_found_by_type(cs, Type::AdminPreJobDone);
    reveal_strlit("clairproject.org/");
    reveal_strlit("ConfigReady");
    reveal_strlit("AdminPreJobDone");
    let n = "clairproject.org/"@.len() as int;
    assert(("clairproject.org/"@ + "ConfigReady"@)[n] == 'C');
    assert(("clairproject.org/"@ + "AdminPreJobDone"@)[n] == 'A');
}

} // verus!
