//! Admission: what lacks something is denied with a reason, and everything else goes on.

use vstd::prelude::*;

use crate::compose::ConfigDialect;
use crate::config::{self, PartsView, Warnings};
use crate::text;
use crate::v1alpha1::{ClairSpecView, ClairView, IndexerView};
use crate::webhook::{
    bad_dropin, clair_change, clair_review, concluded, default_additions, default_warnings,
    failure_is, first_of, image_default, indexer_answer, is_passed, key_missing, kind_unknown,
    mutated, next_config, present, required_fault, spec_fault, strict_review, strictly_concluded,
    with_all, AdditionView, Either, Operation, ResponseView, ReviewView,
};

verus! {

/// No fault is found in a spec exactly if everything that is required is there: the databases, that
/// of the notifier where the notifier is asked for, an image where one is required, and in every
/// drop-in a reference to a ConfigMap or to a Secret.
pub proof fn complete_specs_have_no_fault(spec: ClairSpecView, image_required: bool)
    ensures
        spec_fault(spec, image_required) is None <==> {
            &&& image_required ==> spec.image is Some
            &&& spec.databases is Some
            &&& spec.notifier == Some(true) ==> spec.databases->0.notifier is Some
            &&& forall|i: int|
                0 <= i < spec.dropins.len() ==> (#[trigger] spec.dropins[i]).config_map_key_ref
                    is Some || spec.dropins[i].secret_key_ref is Some
        },
        required_fault(spec) is None <==> spec.databases is Some && (spec.notifier == Some(true)
            ==> spec.databases->0.notifier is Some),
{
    first_without_ref(spec.dropins, 0);
}

/// The place that is reported is that of the first drop-in without a reference.
proof fn first_without_ref(dropins: Seq<crate::v1alpha1::DropinSourceView>, i: int)
    requires
        0 <= i <= dropins.len(),
    ensures
        i <= bad_dropin(dropins, i) <= dropins.len(),
        bad_dropin(dropins, i) < dropins.len() ==> dropins[bad_dropin(
            dropins,
            i,
        )].config_map_key_ref is None && dropins[bad_dropin(dropins, i)].secret_key_ref is None,
        forall|j: int|
            i <= j < bad_dropin(dropins, i) ==> (#[trigger] dropins[j]).config_map_key_ref is Some
                || dropins[j].secret_key_ref is Some,
    decreases dropins.len() - i,
{
    if i < dropins.len() && !(dropins[i].config_map_key_ref is None && dropins[i].secret_key_ref
        is None) {
        first_without_ref(dropins, i + 1);
    }
}

/// What is wrong with a spec is said of the first thing that is: the image, the databases, that of
/// the notifier, and then the first drop-in without a reference, by its place.
pub proof fn faults_are_named(spec: ClairSpecView, image_required: bool, i: int)
    ensures
        image_required && spec.image is None ==> spec_fault(spec, image_required) == Some(
            "field \"/spec/image\" must be provided"@,
        ),
        !(image_required && spec.image is None) && spec.databases is None ==> spec_fault(
            spec,
            image_required,
        ) == Some("field \"/spec/databases\" must be provided"@),
        !(image_required && spec.image is None) && spec.databases is Some && spec.notifier
            == Some(true) && spec.databases->0.notifier is None ==> spec_fault(spec, image_required)
            == Some("field \"/spec/notifier\" is set but \"/spec/databases/notifier\" is not"@),
        ({
            &&& !(image_required && spec.image is None)
            &&& spec.databases is Some
            &&& spec.notifier == Some(true) ==> spec.databases->0.notifier is Some
            &&& 0 <= i < spec.dropins.len()
            &&& spec.dropins[i].config_map_key_ref is None
            &&& spec.dropins[i].secret_key_ref is None
            &&& forall|j: int|
                0 <= j < i ==> (#[trigger] spec.dropins[j]).config_map_key_ref is Some
                    || spec.dropins[j].secret_key_ref is Some
        }) ==> spec_fault(spec, image_required) == Some(
            "invalid dropin at index "@ + text::decimal(i as nat) + ": no ref specified"@,
        ),
{
    first_without_ref(spec.dropins, 0);
    let p = bad_dropin(spec.dropins, 0);
    if 0 <= i < p {
        assert(spec.dropins[i].config_map_key_ref is Some || spec.dropins[i].secret_key_ref is Some);
    }
    if 0 <= p < i && i < spec.dropins.len() {
        assert(spec.dropins[p].config_map_key_ref is None && spec.dropins[p].secret_key_ref
            is None);
    }
}

/// To allow a request is to answer it without changes and without words; to deny it is to say why;
/// and what is no proper request is denied without being answered by its name.
pub proof fn answers_say_what_they_are(uid: Seq<char>, words: Seq<char>)
    ensures
        ({
            let yes = ResponseView::allow(uid);
            &&& yes.allowed && yes.uid == uid && yes.message.len() == 0 && yes.reason.len() == 0
            &&& yes.warnings is None && yes.additions is None
        }),
        ({
            let no = ResponseView::allow(uid).denied(words);
            &&& !no.allowed && no.uid == uid && no.message == words && no.additions is None
        }),
        ({
            let bad = ResponseView::bad_request(words);
            &&& !bad.allowed && bad.uid.len() == 0 && bad.message == words
            &&& bad.reason == "InvalidRequest"@ && bad.additions is None
        }),
{
    reveal_strlit("");
}

/// A Clair instance that is created or updated is denied exactly if its spec lacks something; it is
/// told what. In all other cases the configuration that it would have is looked into.
pub proof fn incomplete_instances_are_denied(uid: Seq<char>, op: Operation, c: ClairView)
    ensures
        ({
            let written = op == Operation::Create || op == Operation::Update;
            let complete = {
                &&& c.spec.image is Some
                &&& c.spec.databases is Some
                &&& c.spec.notifier == Some(true) ==> c.spec.databases->0.notifier is Some
                &&& forall|i: int|
                    0 <= i < c.spec.dropins.len() ==> (#[trigger]
                    c.spec.dropins[i]).config_map_key_ref is Some
                        || c.spec.dropins[i].secret_key_ref is Some
            };
            match clair_review(uid, op, c) {
                ReviewView::Answer(res) => {
                    &&& written && !complete
                    &&& !res.allowed
                    &&& res.uid == uid
                    &&& Some(res.message) == spec_fault(c.spec, true)
                },
                ReviewView::Load(cfgsrc) => (!written || complete) && cfgsrc == next_config(c),
            }
        }),
{
    complete_specs_have_no_fault(c.spec, true);
}

/// Where dialects can be set, an update that changes the dialect is denied too, and an image need
/// not be given.
pub proof fn dialects_cannot_change(
    uid: Seq<char>,
    op: Operation,
    c: ClairView,
    prev: Option<ConfigDialect>,
    cur: Option<ConfigDialect>,
)
    ensures
        ({
            let written = op == Operation::Create || op == Operation::Update;
            let complete = {
                &&& c.spec.databases is Some
                &&& c.spec.notifier == Some(true) ==> c.spec.databases->0.notifier is Some
                &&& forall|i: int|
                    0 <= i < c.spec.dropins.len() ==> (#[trigger]
                    c.spec.dropins[i]).config_map_key_ref is Some
                        || c.spec.dropins[i].secret_key_ref is Some
            };
            let changed = op == Operation::Update && prev != cur;
            match clair_change(uid, op, c, prev, cur) {
                ReviewView::Answer(res) => {
                    &&& written && !complete || changed
                    &&& !res.allowed
                    &&& res.uid == uid
                    &&& !written || complete ==> res.message
                        == "cannot change field \"/spec/configDialect\""@
                },
                ReviewView::Load(cfgsrc) => {
                    &&& !written || complete
                    &&& !changed
                    &&& cfgsrc == next_config(c)
                },
            }
        }),
{
    complete_specs_have_no_fault(c.spec, false);
}

/// A strict check lets a deletion through and refuses a connection, whatever the spec; what is
/// written goes on exactly if the required fields are there and the dialect stays.
pub proof fn strict_checks_decide_early(
    uid: Seq<char>,
    op: Operation,
    spec: ClairSpecView,
    prev: Option<ConfigDialect>,
    cur: Option<ConfigDialect>,
)
    ensures
        op == Operation::Delete ==> strict_review(uid, op, spec, prev, cur) == Some(
            ResponseView::allow(uid),
        ),
        op == Operation::Connect ==> (strict_review(uid, op, spec, prev, cur) matches Some(res)
            && !res.allowed && res.message == "verb CONNECT makes no sense"@),
        op == Operation::Create || op == Operation::Update ==> (strict_review(
            uid,
            op,
            spec,
            prev,
            cur,
        ) is None <==> {
            &&& spec.databases is Some
            &&& spec.notifier == Some(true) ==> spec.databases->0.notifier is Some
            &&& op == Operation::Update ==> prev == cur
        }),
        op == Operation::Create || op == Operation::Update ==> (strict_review(
            uid,
            op,
            spec,
            prev,
            cur,
        ) matches Some(res) ==> !res.allowed && res.uid == uid),
{
}

/// An indexer that is created or updated is denied exactly if it has no configuration.
pub proof fn indexers_need_a_configuration(uid: Seq<char>, op: Operation, v: IndexerView)
    ensures
        ({
            let res = indexer_answer(uid, op, v);
            &&& res.uid == uid
            &&& !res.allowed <==> (op == Operation::Create || op == Operation::Update)
                && v.spec.config is None
            &&& !res.allowed ==> res.message == "missing configuration source \"/spec/config\""@
        }),
{
}

/// The parts that are loaded are the root and, under its key, every drop-in: the bytes that its map
/// has there, as changes where the key says so. If a key is missing somewhere, the first such key is
/// reported.
pub proof fn loaded_dropins_are_all_there(parts: PartsView, ds: Seq<(Either, String)>)
    ensures
        match with_all(parts, ds) {
            Ok(r) => {
                &&& r.root == parts.root
                &&& forall|i: int| 0 <= i < ds.len() ==> (#[trigger] found(ds[i])) is Some
                &&& forall|i: int|
                    0 <= i < ds.len() ==> r.dropins.dom().contains((#[trigger] ds[i]).1@)
                &&& forall|k: Seq<char>| #[trigger]
                    r.dropins.dom().contains(k) <==> parts.dropins.dom().contains(k) || exists|
                        i: int,
                    |
                        0 <= i < ds.len() && (#[trigger] ds[i]).1@ == k
                &&& forall|i: int|
                    0 <= i < ds.len() && (forall|j: int|
                        i < j < ds.len() ==> (#[trigger] ds[j]).1@ != ds[i].1@) ==> ({
                        let d = r.dropins[(#[trigger] ds[i]).1@];
                        &&& d.buf == found(ds[i])->0
                        &&& d.is_patch <==> text::has_suffix(ds[i].1@, "-patch"@)
                    })
            },
            Err(key) => exists|i: int|
                {
                    &&& 0 <= i < ds.len()
                    &&& (#[trigger] ds[i]).1@ == key
                    &&& found(ds[i]) is None
                    &&& forall|j: int| 0 <= j < i ==> (#[trigger] found(ds[j])) is Some
                },
        },
    decreases ds.len(),
{
    if ds.len() > 0 {
        let t = ds.drop_last();
        let n = ds.len() - 1;
        loaded_dropins_are_all_there(parts, t);
        assert(forall|i: int| 0 <= i < t.len() ==> t[i] == #[trigger] ds[i]);
        assert(ds.last() == ds[n]);
        match with_all(parts, t) {
            Err(key) => {
                let i = choose|i: int|
                    {
                        &&& 0 <= i < t.len()
                        &&& (#[trigger] t[i]).1@ == key
                        &&& found(t[i]) is None
                        &&& forall|j: int| 0 <= j < i ==> (#[trigger] found(t[j])) is Some
                    };
                assert(ds[i] == t[i]);
                assert forall|j: int| 0 <= j < i implies (#[trigger] found(ds[j])) is Some by {
                    assert(found(t[j]) is Some);
                }
            },
            Ok(before) => {
                if found(ds[n]) is None {
                    assert(ds[n].1@ == with_all(parts, ds)->Err_0);
                    assert forall|j: int| 0 <= j < n implies (#[trigger] found(ds[j])) is Some by {
                        assert(found(t[j]) is Some);
                    }
                } else {
                    let r = with_all(parts, ds)->Ok_0;
                    assert forall|i: int| 0 <= i < ds.len() implies (#[trigger] found(ds[i]))
                        is Some by {
                        if i < n {
                            assert(found(t[i]) is Some);
                        }
                    }
                    assert forall|i: int| 0 <= i < ds.len() implies r.dropins.dom().contains(
                        (#[trigger] ds[i]).1@,
                    ) by {
                        if i < n {
                            assert(before.dropins.dom().contains(t[i].1@));
                        }
                    }
                    assert forall|k: Seq<char>| #[trigger]
                        r.dropins.dom().contains(k) <==> parts.dropins.dom().contains(k) || exists|
                            i: int,
                        |
                            0 <= i < ds.len() && (#[trigger] ds[i]).1@ == k by {
                        if r.dropins.dom().contains(k) && k != ds[n].1@ {
                            assert(before.dropins.dom().contains(k));
                            if !parts.dropins.dom().contains(k) {
                                let i = choose|i: int|
                                    0 <= i < t.len() && (#[trigger] t[i]).1@ == k;
                                assert(ds[i].1@ == k);
                            }
                        }
                        if k == ds[n].1@ {
                            assert(ds[n].1@ == k);
                        }
                        if parts.dropins.dom().contains(k) {
                            assert(before.dropins.dom().contains(k));
                        }
                        if exists|i: int| 0 <= i < ds.len() && (#[trigger] ds[i]).1@ == k {
                            let i = choose|i: int| 0 <= i < ds.len() && (#[trigger] ds[i]).1@ == k;
                            assert(r.dropins.dom().contains(ds[i].1@));
                        }
                    }
                    assert forall|i: int|
                        0 <= i < ds.len() && (forall|j: int|
                            i < j < ds.len() ==> (#[trigger] ds[j]).1@ != ds[i].1@) implies ({
                        let d = r.dropins[(#[trigger] ds[i]).1@];
                        &&& d.buf == found(ds[i])->0
                        &&& d.is_patch <==> text::has_suffix(ds[i].1@, "-patch"@)
                    }) by {
                        if i < n {
                            assert(ds[n].1@ != ds[i].1@);
                            assert(t[i] == ds[i]);
                            assert forall|j: int| i < j < t.len() implies (#[trigger] t[j]).1@
                                != t[i].1@ by {
                                assert(ds[j].1@ != ds[i].1@);
                            }
                            assert(before.dropins.dom().contains(t[i].1@));
                            assert(before.dropins[t[i].1@].buf == found(t[i])->0);
                        }
                    }
                }
            },
        }
    }
}

/// What a loaded map has under its key: in a ConfigMap texts come first, a Secret has bytes alone.
pub open spec fn found(d: (Either, String)) -> Option<Seq<u8>> {
    let key = d.1@;
    match d.0 {
        Either::ConfigMap(cm) => if cm@.data is Some && cm@.data->0.dom().contains(key) {
            Some(vstd::utf8::encode_utf8(cm@.data->0[key]))
        } else if cm@.binary_data is Some && cm@.binary_data->0.dom().contains(key) {
            Some(cm@.binary_data->0[key])
        } else {
            None
        },
        Either::Secret(secret) => if secret@.data is Some && secret@.data->0.dom().contains(key) {
            Some(secret@.data->0[key])
        } else {
            None
        },
    }
}

/// The answer on a key that is missing names the key, and that on an unknown kind names the kind.
pub proof fn improper_requests_are_named(word: Seq<char>)
    ensures
        !key_missing(word).allowed && key_missing(word).message == "invalid ConfigSource: "@
            + ("missing key: "@ + word),
        !kind_unknown(word).allowed && kind_unknown(word).message == "unknown kind: "@ + word,
        is_passed(word) ==> word != "Clair"@,
{
    reveal_strlit("Clair");
    reveal_strlit("Indexer");
    reveal_strlit("Matcher");
    reveal_strlit("Notifier");
    reveal_strlit("Updater");
    assert("Clair"@.len() == 5);
    assert("Indexer"@.len() == 7 && "Matcher"@.len() == 7);
    assert("Notifier"@.len() == 8 && "Updater"@.len() == 7);
}

/// Warnings say what failed and nothing else, in the order of the modes.
pub proof fn warnings_are_failures(failures: Seq<Option<Seq<char>>>)
    ensures
        forall|w: Seq<char>| #[trigger] present(failures).contains(w) <==> failures.contains(
            Some(w),
        ),
    decreases failures.len(),
{
    if failures.len() > 0 {
        let t = failures.drop_last();
        warnings_are_failures(t);
        assert forall|w: Seq<char>| #[trigger] present(failures).contains(w) <==> failures.contains(
            Some(w),
        ) by {
            assert(present(t).contains(w) <==> t.contains(Some(w)));
            assert(failures =~= t.push(failures.last()));
            crate::lists::contains_push(t, failures.last(), Some(w));
            if failures.last() is Some {
                crate::lists::contains_push(present(t), failures.last()->0, w);
            }
        }
    }
}

/// A validated change keeps its name, has no additions, warns of every failure, and is denied
/// exactly if it is an update and nothing works with it any more.
pub proof fn only_hopeless_updates_are_denied(
    uid: Seq<char>,
    op: Operation,
    failures: Seq<Option<Seq<char>>>,
)
    ensures
        ({
            let res = concluded(uid, op, failures);
            &&& res.uid == uid
            &&& res.additions is None
            &&& !res.allowed <==> op == Operation::Update && forall|i: int|
                0 <= i < failures.len() ==> (#[trigger] failures[i]) is Some
            &&& res.warnings is None <==> forall|i: int|
                0 <= i < failures.len() ==> (#[trigger] failures[i]) is None
            &&& res.warnings matches Some(ws) ==> forall|w: Seq<char>| #[trigger]
                ws.contains(w) <==> failures.contains(Some(w))
        }),
{
    crate::webhook::denied_only_if_hopeless(uid, op, failures);
    warnings_are_failures(failures);
    let ws = present(failures);
    if ws.len() > 0 {
        assert(ws.contains(ws[0]));
        assert(failures.contains(Some(ws[0])));
        let i = choose|i: int| 0 <= i < failures.len() && failures[i] == Some(ws[0]);
        assert(failures[i] is Some);
    }
    if exists|i: int| 0 <= i < failures.len() && (#[trigger] failures[i]) is Some {
        let i = choose|i: int| 0 <= i < failures.len() && (#[trigger] failures[i]) is Some;
        assert(failures[i] == Some(failures[i]->0));
        assert(failures.contains(Some(failures[i]->0)));
        assert(ws.contains(failures[i]->0));
    }
}

/// A strictly checked change is allowed exactly if nothing failed, and is otherwise told the first
/// failure.
pub proof fn strict_checks_allow_no_failure(uid: Seq<char>, failures: Seq<Option<Seq<char>>>)
    ensures
        ({
            let res = strictly_concluded(uid, failures);
            &&& res.uid == uid
            &&& res.allowed <==> forall|i: int|
                0 <= i < failures.len() ==> (#[trigger] failures[i]) is None
            &&& !res.allowed ==> exists|i: int|
                {
                    &&& 0 <= i < failures.len()
                    &&& (#[trigger] failures[i]) is Some
                    &&& res.message == "validation failed: "@ + failures[i]->0
                    &&& forall|j: int| 0 <= j < i ==> (#[trigger] failures[j]) is None
                }
        }),
{
    first_is_first(failures, 0);
}

/// What failed first is the first of what failed.
proof fn first_is_first(failures: Seq<Option<Seq<char>>>, i: int)
    requires
        0 <= i <= failures.len(),
    ensures
        match first_of(failures, i) {
            Some(text) => exists|k: int|
                {
                    &&& i <= k < failures.len()
                    &&& (#[trigger] failures[k]) == Some(text)
                    &&& forall|j: int| i <= j < k ==> (#[trigger] failures[j]) is None
                },
            None => forall|j: int| i <= j < failures.len() ==> (#[trigger] failures[j]) is None,
        },
    decreases failures.len() - i,
{
    if i < failures.len() && failures[i] is None {
        first_is_first(failures, i + 1);
        if let Some(text) = first_of(failures, i + 1) {
            let k = choose|k: int|
                {
                    &&& i + 1 <= k < failures.len()
                    &&& (#[trigger] failures[k]) == Some(text)
                    &&& forall|j: int| i + 1 <= j < k ==> (#[trigger] failures[j]) is None
                };
            assert(failures[k] == Some(text));
        }
    } else if i < failures.len() {
        assert(failures[i] == Some(first_of(failures, i)->0));
    }
}

/// Defaults are set for what a new instance leaves open, and for nothing else: for each there is
/// one addition and one warning. What is no new instance is left alone.
pub proof fn defaults_fill_what_is_open(
    uid: Seq<char>,
    op: Operation,
    dialect: Option<ConfigDialect>,
    notifier: Option<bool>,
)
    ensures
        ({
            let all = default_additions(dialect, notifier);
            let json = AdditionView { path: "/spec/configDialect"@, value: "json"@ };
            let off = AdditionView { path: "/spec/notifier"@, value: "false"@ };
            &&& all.contains(json) <==> dialect is None
            &&& all.contains(off) <==> notifier is None
            &&& forall|a: AdditionView| #[trigger] all.contains(a) ==> a == json || a == off
            &&& default_warnings(dialect, notifier).len() == all.len()
        }),
        ({
            let res = mutated(uid, op, dialect, notifier);
            &&& res.allowed
            &&& res.uid == uid
            &&& res.additions == (if op == Operation::Create {
                Some(default_additions(dialect, notifier))
            } else {
                None
            })
            &&& res.warnings is Some <==> op == Operation::Create && (dialect is None || notifier
                is None)
        }),
{
    let all = default_additions(dialect, notifier);
    let json = AdditionView { path: "/spec/configDialect"@, value: "json"@ };
    let off = AdditionView { path: "/spec/notifier"@, value: "false"@ };
    reveal_strlit("json");
    reveal_strlit("false");
    assert("json"@.len() != "false"@.len());
    if dialect is None {
        assert(all[0] == json);
    }
    if notifier is None {
        assert(all[all.len() - 1] == off);
    }
}

/// An instance without an image gets the default one, and one that has an image keeps it.
pub proof fn images_are_set_where_missing(uid: Seq<char>, c: ClairView, image: Seq<char>)
    ensures
        ({
            let res = image_default(uid, c, image);
            &&& res.allowed
            &&& res.uid == uid
            &&& c.spec.image is Some ==> res.additions is None
            &&& c.spec.image is None ==> res.additions is Some && res.additions->0.len() == 1
                && res.additions->0[0].path == "/spec/image"@ && res.additions->0[0].value == image
        }),
{
}

/// A mode says something exactly if it failed, and then repeats what the validator said.
pub proof fn only_failures_are_told(r: Result<Warnings, config::Error>, words: Option<Seq<char>>)
    requires
        failure_is(r, words),
    ensures
        words is Some <==> r is Err,
        r matches Err(config::Error::Validation(said)) ==> text::has_suffix(words->0, said@),
{
    if let Err(config::Error::Validation(said)) = r {
        let all = words->0;
        assert(all.skip(all.len() - said@.len()) =~= said@);
    }
}

} // verus!
