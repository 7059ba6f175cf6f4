//! Scenarios: what the API server expects of the controller is what the controller decides.

use vstd::prelude::*;

use crate::clairs::{admin_pre_for, admin_pre_found, missing_fields, AdminPreView};
use crate::k8s::meta::{Condition, ConditionView, TimeView};
use crate::k8s::pod::ConfigMap;
use crate::k8s::workload::{JobStatusView, JobView};
use crate::keyed;
use crate::laws::upgrade::{
    a_changed_image_starts_the_job, done_exactly_on_success, new_instances_need_no_job,
    unversioned_images_have_no_jobs, versions_follow_the_last_colon,
};
use crate::maps;
use crate::testing::{
    adds_finalizer, after_event, answer_for, change, conditions_fit, creation, ends_at, event_fits,
    expected_for, name_in, note_fits, object_path, scenario_object, status_change, stored_for,
    updated_status, AdminPreScenario, ChangeView, ClairScenario, ClairServerVerifierView,
    ExpectedView, SentEventView, StatusCheckView,
};
use crate::text;
use crate::v1alpha1::{ClairSpecView, ClairStatusView};

verus! {

/// Of two items with one key, the first is left.
proof fn one_of_two(a: ConditionView, b: ConditionView)
    requires
        a.type_ == b.type_,
    ensures
        keyed::by_key::<Condition>(seq![a] + seq![b]) == seq![a],
{
    let s = seq![a] + seq![b];
    let t = s.drop_last();
    assert(t =~= seq![a]);
    assert(t.drop_last() =~= Seq::<ConditionView>::empty());
    assert(t.last() == a && s.last() == b);
    reveal_with_fuel(keyed::firsts, 3);
    let m = keyed::firsts::<Condition>(s);
    assert(keyed::firsts::<Condition>(t.drop_last()) == Map::<Seq<char>, ConditionView>::empty());
    assert(m == Map::<Seq<char>, ConditionView>::empty().insert(a.type_, a));
    let ks = seq![a.type_];
    assert forall|k: Seq<char>| #[trigger] ks.contains(k) <==> m.dom().contains(k) by {
        assert(ks[0] == a.type_);
    }
    assert(maps::lists_keys(ks, m));
    maps::sorted_keys_unique(ks, m);
    assert(keyed::by_key::<Condition>(s) =~= seq![a]);
}

/// A status that only sets a condition.
pub open spec fn reports(cnd: ConditionView) -> ClairStatusView {
    ClairStatusView { conditions: Some(seq![cnd]), ..ClairStatusView::blank() }
}

/// In every scenario around the job before an upgrade, the requests that are expected are those
/// that the decisions on the instance lead to, and the conditions that are expected are those that
/// are reported.
pub proof fn expectations_are_decisions(which: AdminPreScenario, now: TimeView)
    ensures
        ({
            let s = ClairScenario::AdminPre(which);
            let c = scenario_object(s, now);
            let e = expected_for(s);
            let jobs = "/batch/v1/namespaces/default/jobs"@;
            match admin_pre_for(c, now) {
                Ok(AdminPreView::Skip(_)) => {
                    &&& which == AdminPreScenario::Unversioned
                    &&& e.len() == 0
                },
                Ok(AdminPreView::Report(cnd)) => {
                    &&& which == AdminPreScenario::New
                    &&& e.len() == 1
                    &&& e[0] is Status
                    &&& e[0]->Status_1 != StatusCheckView::Any
                    &&& conditions_fit(
                        e[0]->Status_1,
                        updated_status(c.status, reports(cnd)).conditions,
                    )
                },
                Ok(AdminPreView::Create(job, cnd)) => {
                    &&& which == AdminPreScenario::SpecChanged
                    &&& e.len() == 2
                    &&& e[0] == ExpectedView::Create(jobs)
                    &&& e[1] is Status
                    &&& e[1]->Status_1 is Only
                    &&& conditions_fit(
                        e[1]->Status_1,
                        updated_status(c.status, reports(cnd)).conditions,
                    )
                },
                Ok(AdminPreView::Check(name)) => {
                    let active = if which == AdminPreScenario::SpecUnchangedCheck {
                        1i32
                    } else {
                        0i32
                    };
                    let job = JobView {
                        status: Some(
                            JobStatusView {
                                active: Some(active),
                                succeeded: Some((1 - active) as i32),
                                failed: None,
                            },
                        ),
                        ..JobView::blank()
                    };
                    let cnd = admin_pre_found(c, name, Some(job), now);
                    &&& which == AdminPreScenario::SpecUnchangedCheck || which
                        == AdminPreScenario::SpecUnchangedDone
                    &&& e.len() == 2
                    &&& e[0] is Get
                    &&& e[0]->Get_0 == jobs + "/"@ + name
                    &&& e[1] is Status
                    &&& e[1]->Status_1 is Only
                    &&& conditions_fit(
                        e[1]->Status_1,
                        updated_status(c.status, reports(cnd)).conditions,
                    )
                },
                _ => false,
            }
        }),
{
    let s = ClairScenario::AdminPre(which);
    let c = scenario_object(s, now);
    let image = c.spec.image->0;
    reveal_strlit("example.com/clair:1.2.3");
    reveal_strlit("example.com/clair:noversion");
    reveal_strlit("example.com/clair:1.0.0");
    reveal_strlit("example.com/clair");
    reveal_strlit("1.2.3");
    reveal_strlit("noversion");
    reveal_strlit("/");
    reveal_strlit("batch");
    reveal_strlit("v1");
    reveal_strlit("jobs");
    reveal_strlit("/namespaces/default/");
    reveal_strlit("/batch/v1/namespaces/default/jobs");
    reveal_strlit("test");
    reveal_strlit("-");
    reveal_strlit("admin-pre");
    reveal_strlit("test-admin-pre-1.2.3");
    assert("/"@ + ("batch"@ + "/"@ + "v1"@) + "/namespaces/default/"@ + "jobs"@
        =~= "/batch/v1/namespaces/default/jobs"@);
    assert("test"@ + "-"@ + "admin-pre"@ + "-"@ + "1.2.3"@ =~= "test-admin-pre-1.2.3"@);
    assert(!"1.2.3"@.contains(':')) by {
        if "1.2.3"@.contains(':') {
            let i = choose|i: int| 0 <= i < "1.2.3"@.len() && "1.2.3"@[i] == ':';
        }
    }
    assert(!"1.2.3"@.contains('/')) by {
        if "1.2.3"@.contains('/') {
            let i = choose|i: int| 0 <= i < "1.2.3"@.len() && "1.2.3"@[i] == '/';
        }
    }
    assert(!"noversion"@.contains(':')) by {
        if "noversion"@.contains(':') {
            let i = choose|i: int| 0 <= i < "noversion"@.len() && "noversion"@[i] == ':';
        }
    }
    versions_follow_the_last_colon("example.com/clair"@, "1.2.3"@);
    versions_follow_the_last_colon("example.com/clair"@, "noversion"@);
    assert("example.com/clair:1.2.3"@ =~= "example.com/clair"@ + seq![':'] + "1.2.3"@);
    assert("example.com/clair:noversion"@ =~= "example.com/clair"@ + seq![':'] + "noversion"@);
    assert("example.com/clair:1.2.3"@[18] != "example.com/clair:1.0.0"@[18]
        || "example.com/clair:1.2.3"@[20] != "example.com/clair:1.0.0"@[20]);
    reveal_strlit("True");
    reveal_strlit("False");
    assert("True"@.len() != "False"@.len());
    match which {
        AdminPreScenario::Unversioned => {
            unversioned_images_have_no_jobs(c, now);
        },
        AdminPreScenario::New => {
            new_instances_need_no_job(c, now);
        },
        _ => {
            let cs = c.status->0.conditions->0;
            a_changed_image_starts_the_job(c, now, cs, 0);
            match admin_pre_for(c, now) {
                Ok(AdminPreView::Create(_, cnd)) => {
                    one_of_two(cnd, cs[0]);
                },
                Ok(AdminPreView::Check(name)) => {
                    let active = if which == AdminPreScenario::SpecUnchangedCheck {
                        1i32
                    } else {
                        0i32
                    };
                    let job = JobView {
                        status: Some(
                            JobStatusView {
                                active: Some(active),
                                succeeded: Some((1 - active) as i32),
                                failed: None,
                            },
                        ),
                        ..JobView::blank()
                    };
                    done_exactly_on_success(c, name, job, now);
                    one_of_two(admin_pre_found(c, name, Some(job), now), cs[0]);
                },
                _ => {},
            }
        },
    }
}

/// In the scenario of an empty spec, an event is expected for every field that is missing.
pub proof fn missing_fields_are_expected(now: TimeView)
    ensures
        ({
            let c = scenario_object(ClairScenario::Finalize, now);
            let e = expected_for(ClairScenario::Finalize);
            &&& e.len() == missing_fields(c).len()
            &&& forall|i: int|
                0 <= i < e.len() ==> {
                    &&& (#[trigger] e[i]) is Event
                    &&& e[i]->Event_0 == missing_fields(c)[i].type_.name()
                    &&& e[i]->Event_1 == missing_fields(c)[i].reason
                    &&& e[i]->Event_2 == missing_fields(c)[i].action
                }
        }),
{
}

/// An event passes only if it is the next that is expected, goes to where events are and does not
/// speak of a field as missing that is there.
pub proof fn only_expected_events_pass(
    srv: ClairServerVerifierView,
    method: Seq<char>,
    uri: Seq<char>,
    ev: SentEventView,
)
    requires
        event_fits(srv, method, uri, ev),
    ensures
        0 <= srv.seen < srv.expected.len(),
        srv.expected[srv.seen] matches ExpectedView::Event(t, r, a, _) && ev.type_ == Some(t)
            && ev.reason == Some(r) && ev.action == Some(a),
        method == "POST"@ || method == "PATCH"@,
        uri.take(48) == "/apis/events.k8s.io/v1/namespaces/default/events"@,
        ev.note matches Some(note) ==> {
            &&& srv.object.spec.databases is Some ==> forall|i: int| #[trigger]
                text::stands_at(note, "$.spec.databases"@, i) ==> false
            &&& srv.object.spec.image is Some ==> forall|i: int| #[trigger]
                text::stands_at(note, "$.spec.image"@, i) ==> false
        },
        after_event(srv.object, srv.expected[srv.seen]).metadata == srv.object.metadata,
        after_event(srv.object, srv.expected[srv.seen]).status == srv.object.status,
{
    reveal_strlit("/apis/events.k8s.io/v1/namespaces/default/events");
}

/// A note that speaks of nothing that is there passes.
pub proof fn other_notes_pass(spec: ClairSpecView, note: Seq<char>)
    requires
        !text::occurs(note, "$.spec.databases"@) || spec.databases is None,
        !text::occurs(note, "$.spec.image"@) || spec.image is None,
    ensures
        note_fits(spec, Some(note)),
        note_fits(spec, None),
{
}

/// A read is answered by what is stored at the path that is expected, and only there.
pub proof fn reads_give_what_is_stored(
    srv: ClairServerVerifierView,
    method: Seq<char>,
    uri: Seq<char>,
)
    ensures
        answer_for(srv, method, uri) matches Some(a) ==> {
            &&& method == "GET"@
            &&& 0 <= srv.seen < srv.expected.len()
            &&& srv.expected[srv.seen] is Get
            &&& ends_at(uri, srv.expected[srv.seen]->Get_0)
            &&& a is Found <==> srv.state.dom().contains(srv.expected[srv.seen]->Get_0)
            &&& a is Found ==> a->Found_0 == srv.state[srv.expected[srv.seen]->Get_0]
        },
        ends_at(uri, Seq::empty()) <==> text::has_prefix(uri, "/api"@),
{
    assert(uri.skip(uri.len() as int) =~= Seq::<char>::empty());
}

/// What is created goes where its name says, and only where nothing is yet; what is changed keeps
/// its place and its name.
pub proof fn writes_go_by_name(
    srv: ClairServerVerifierView,
    method: Seq<char>,
    uri: Seq<char>,
    body: Seq<u8>,
)
    ensures
        creation(srv, method, uri, body) matches Some((path, doc)) ==> {
            &&& method == "POST"@
            &&& srv.expected[srv.seen] is Create
            &&& crate::json::parsed(body) == Ok::<Seq<u8>, Seq<char>>(doc)
            &&& name_in(doc) is Some
            &&& path == srv.expected[srv.seen]->Create_0 + "/"@ + name_in(doc)->0
            &&& !srv.state.dom().contains(path)
        },
        change(srv, method, uri, body) matches Some((path, doc)) ==> {
            &&& method == "PATCH"@
            &&& srv.expected[srv.seen] is Update
            &&& path == srv.expected[srv.seen]->Update_0
            &&& crate::json::parsed(body) matches Ok(sent)
            &&& name_in(sent) == Some(srv.expected[srv.seen]->Update_1)
            &&& !srv.state.dom().contains(path) ==> doc == sent
        },
{
}

/// A change of the status passes only at the address that is expected, changes nothing but the
/// status, and leaves the conditions as they have to be seen. What it sets is there then.
pub proof fn statuses_are_taken_over(
    srv: ClairServerVerifierView,
    method: Seq<char>,
    uri: Seq<char>,
    status: ClairStatusView,
)
    ensures
        status_change(srv, method, uri, status) matches Some(c) ==> {
            &&& method == "PATCH"@
            &&& srv.expected[srv.seen] is Status
            &&& uri == srv.expected[srv.seen]->Status_0
            &&& c.spec == srv.object.spec
            &&& c.metadata == srv.object.metadata
            &&& c.status is Some
            &&& status.image is Some ==> c.status->0.image == status.image
            &&& status.image is None && srv.object.status is Some ==> c.status->0.image
                == srv.object.status->0.image
            &&& status.indexer is Some ==> c.status->0.indexer == status.indexer
            &&& status.matcher is Some ==> c.status->0.matcher == status.matcher
            &&& srv.expected[srv.seen]->Status_1 matches StatusCheckView::Only(ty, st, reason)
                ==> {
                &&& c.status->0.conditions->0.len() == 1
                &&& c.status->0.conditions->0[0].type_ == ty.name()
                &&& c.status->0.conditions->0[0].status == st
                &&& c.status->0.conditions->0[0].reason == reason
            }
        },
{
}

/// A condition that is taken over is there, in the place of the one of its type, and conditions of
/// other types stay.
pub proof fn conditions_are_taken_over(
    before: ClairStatusView,
    cnd: ConditionView,
    other: ConditionView,
)
    requires
        before.conditions is Some,
    ensures
        ({
            let r = updated_status(Some(before), reports(cnd)).conditions->0;
            &&& r.contains(cnd)
            &&& other.type_ == cnd.type_ && other != cnd ==> !r.contains(other)
            &&& other.type_ != cnd.type_ ==> (r.contains(other) <==> keyed::found_in::<Condition>(
                before.conditions->0,
                other.type_,
            ) == Some(other))
        }),
{
    crate::laws::values::what_is_put_in_is_there::<Condition>(before.conditions->0, cnd, other);
}

/// The changes that add the finalizer check that there is none and then add ours.
pub proof fn finalizers_are_added_once(changes: Seq<ChangeView>)
    requires
        adds_finalizer(changes),
    ensures
        changes.len() >= 2,
        changes[0].op == "test"@ && changes[0].value is None,
        changes[1].op == "add"@ && changes[1].value == Some(seq!["clairs.clairproject.org"@]),
        changes[0].path == "/metadata/finalizers"@ && changes[1].path == changes[0].path,
{
}

/// In every scenario around the job before an upgrade, a job that is read is there, and one that is
/// created is not.
pub proof fn reads_are_prepared(which: AdminPreScenario, i: int)
    requires
        0 <= i < expected_for(ClairScenario::AdminPre(which)).len(),
    ensures
        ({
            let s = ClairScenario::AdminPre(which);
            let e = expected_for(s)[i];
            &&& e is Get ==> stored_for(s).dom().contains(e->Get_0)
            &&& e is Create ==> forall|path: Seq<char>|
                stored_for(s).dom().contains(path) && #[trigger] text::has_prefix(
                    path,
                    e->Create_0,
                ) ==> false
        }),
{
    let s = ClairScenario::AdminPre(which);
    let e = expected_for(s)[i];
    reveal_strlit("");
    reveal_strlit("/");
    reveal_strlit("batch");
    reveal_strlit("v1");
    let map = object_path::<ConfigMap>("test"@);
    assert(map[1] == 'v');
    if e is Create {
        let jobs = e->Create_0;
        assert(jobs[1] == 'b');
        assert forall|path: Seq<char>|
            stored_for(s).dom().contains(path) && #[trigger] text::has_prefix(
                path,
                jobs,
            ) implies false by {
            assert(path == map);
            assert(path.take(jobs.len() as int)[1] == path[1]);
        }
    }
}

/// What is expected is seen one by one, in order, until nothing is left. What is stored is there
/// then, and everything else stays.
pub proof fn expectations_are_met_in_order(
    srv: ClairServerVerifierView,
    path: Seq<char>,
    doc: Seq<u8>,
    other: Seq<char>,
)
    requires
        0 <= srv.seen <= srv.expected.len(),
    ensures
        srv.next() is None <==> srv.seen == srv.expected.len(),
        srv.done() <==> srv.next() is None,
        srv.next() is Some ==> srv.next() == Some(srv.expected[srv.seen]),
        srv.advanced().expected == srv.expected && srv.advanced().seen == srv.seen + 1,
        srv.advanced().object == srv.object && srv.advanced().state == srv.state,
        srv.stored(path, doc).seen == srv.seen + 1,
        srv.stored(path, doc).object == srv.object,
        srv.stored(path, doc).state.dom().contains(path),
        srv.stored(path, doc).state[path] == doc,
        other != path ==> {
            &&& srv.stored(path, doc).state.dom().contains(other) <==> srv.state.dom().contains(
                other,
            )
            &&& srv.state.dom().contains(other) ==> srv.stored(path, doc).state[other]
                == srv.state[other]
        },
        srv.with_object(srv.object) == srv.advanced(),
{
}

} // verus!
