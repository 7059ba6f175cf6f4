//! Texts: nothing is lost when they are taken apart and put together.

use vstd::prelude::*;

use crate::assets;
use crate::compose::{self, dialect_is, dropin_key, names_key, ConfigDialect};
use crate::condition::{known_type, ConditionBuilderView, Status, Type};
use crate::config::{indented, WarningsView};
use crate::k8s::meta::{ObjectMetaView, TimeView};
use crate::k8s::pod::{ConfigMap, Secret, Service};
use crate::k8s::workload::{CronJob, Deployment, HorizontalPodAutoscaler, Job};
use crate::resource::Resource;
use crate::templates::ErrorView;
use crate::text;
use crate::v1alpha1::DropinSourceView;

verus! {

/// The texts one after the other, each ended by a line feed.
pub open spec fn ended(parts: Seq<Seq<char>>) -> Seq<char>
    decreases parts.len(),
{
    if parts.len() == 0 {
        Seq::empty()
    } else {
        parts[0] + seq!['\n'] + ended(parts.drop_first())
    }
}

/// A text that is split at its line feeds can be put together again, and no part holds a line feed.
pub proof fn splitting_loses_nothing(s: Seq<char>)
    ensures
        s.len() == 0 || s.last() == '\n' ==> ended(text::parts_from(s, 0)) == s,
        s.len() > 0 && s.last() != '\n' ==> ended(text::parts_from(s, 0)) == s + seq!['\n'],
        forall|i: int|
            0 <= i < text::parts_from(s, 0).len() ==> !(#[trigger] text::parts_from(
                s,
                0,
            )[i]).contains('\n'),
{
    splitting_from(s, 0);
    assert(s.skip(0) =~= s);
}

/// The same from some place on.
proof fn splitting_from(s: Seq<char>, i: int)
    requires
        0 <= i <= s.len(),
    ensures
        i == s.len() || s.last() == '\n' ==> ended(text::parts_from(s, i)) == s.skip(i),
        i < s.len() && s.last() != '\n' ==> ended(text::parts_from(s, i)) == s.skip(i) + seq![
            '\n',
        ],
        forall|k: int|
            0 <= k < text::parts_from(s, i).len() ==> !(#[trigger] text::parts_from(
                s,
                i,
            )[k]).contains('\n'),
    decreases s.len() - i,
{
    let parts = text::parts_from(s, i);
    if i < s.len() {
        let end = text::find_from(s, '\n', i);
        next_is_first(s, '\n', i);
        if end < s.len() {
            let rest = text::parts_from(s, end + 1);
            splitting_from(s, end + 1);
            assert(parts == seq![s.subrange(i, end)] + rest);
            assert(parts[0] == s.subrange(i, end));
            assert(parts.drop_first() =~= rest);
            assert(s.skip(i) =~= s.subrange(i, end) + seq!['\n'] + s.skip(end + 1));
            assert(s.subrange(i, end) + seq!['\n'] + (s.skip(end + 1) + seq!['\n']) =~= s.skip(i)
                + seq!['\n']);
            assert forall|k: int| 0 <= k < parts.len() implies !(#[trigger] parts[k]).contains(
                '\n',
            ) by {
                if k > 0 {
                    assert(parts[k] == rest[k - 1]);
                } else if parts[0].contains('\n') {
                    let j = choose|j: int| 0 <= j < parts[0].len() && parts[0][j] == '\n';
                    assert(s[i + j] == '\n');
                }
            }
        } else {
            assert(parts == seq![s.skip(i)]);
            assert(s.last() != '\n');
            assert(parts.drop_first() =~= Seq::<Seq<char>>::empty());
            assert(ended(parts.drop_first()) =~= Seq::<char>::empty());
            assert(ended(parts) =~= s.skip(i) + seq!['\n']);
            if parts[0].contains('\n') {
                let j = choose|j: int| 0 <= j < parts[0].len() && parts[0][j] == '\n';
                assert(s[i + j] == '\n');
            }
        }
    } else {
        assert(parts =~= Seq::<Seq<char>>::empty());
        assert(ended(parts) =~= s.skip(i));
    }
}

/// What is found from some place on is the first there is.
proof fn next_is_first(s: Seq<char>, c: char, i: int)
    requires
        0 <= i <= s.len(),
    ensures
        i <= text::find_from(s, c, i) <= s.len(),
        text::find_from(s, c, i) < s.len() ==> s[text::find_from(s, c, i)] == c,
        forall|j: int| i <= j < text::find_from(s, c, i) ==> s[j] != c,
    decreases s.len() - i,
{
    if i < s.len() && s[i] != c {
        next_is_first(s, c, i + 1);
    }
}

/// Without carriage returns, lines are what lies between line feeds.
pub proof fn lines_lie_between_line_feeds(s: Seq<char>, i: int)
    requires
        0 <= i <= s.len(),
        !s.contains('\r'),
    ensures
        text::lines_from(s, i) == text::parts_from(s, i),
    decreases s.len() - i,
{
    if i < s.len() {
        next_is_first(s, '\n', i);
        let end = text::find_from(s, '\n', i);
        if end < s.len() {
            lines_lie_between_line_feeds(s, end + 1);
            let line = s.subrange(i, end);
            if line.len() > 0 {
                assert(line.last() == s[end - 1]);
                assert(s.contains(s[end - 1]));
            }
        }
    }
}

/// A carriage return before the end of a line does not belong to the line.
pub proof fn carriage_returns_are_dropped(line: Seq<char>)
    ensures
        text::ended_line(line + seq!['\r']) == line,
        line.len() > 0 && line.last() != '\r' ==> text::ended_line(line) == line,
{
    assert((line + seq!['\r']).drop_last() =~= line);
}

/// Texts are joined with the separator between them, and only there.
pub proof fn separators_stand_between(parts: Seq<Seq<char>>, last: Seq<char>, sep: Seq<char>)
    ensures
        text::joined(Seq::empty(), sep) == Seq::<char>::empty(),
        text::joined(seq![last], sep) == last,
        parts.len() > 0 ==> text::joined(parts.push(last), sep) == text::joined(parts, sep) + sep
            + last,
{
    assert(parts.push(last).drop_last() =~= parts);
}

/// A text is cut only where it is too long, and then to the length that was asked for.
pub proof fn texts_are_cut_at_the_end(s: Seq<char>, n: int)
    requires
        0 <= n,
    ensures
        s.len() <= n ==> text::at_most(s, n) == s,
        s.len() > n ==> text::at_most(s, n) == s.take(n),
{
}

/// Capitals become small letters and everything else that is in a name stays.
pub proof fn capitals_become_small(s: Seq<char>, i: int)
    requires
        0 <= i < s.len(),
    ensures
        text::lower(s).len() == s.len(),
        'A' <= s[i] && s[i] <= 'Z' ==> text::lower(s)[i] as int == s[i] as int + 32,
        !('A' <= s[i] && s[i] <= 'Z') ==> text::lower(s)[i] == s[i],
{
    reveal_strlit("abcdefghijklmnopqrstuvwxyz");
}

/// The sign is written before a number, and only before one below zero.
pub proof fn signs_come_first(n: nat)
    ensures
        text::signed_decimal(n as int) == text::decimal(n),
        n > 0 ==> text::signed_decimal(-n) == seq!['-'] + text::decimal(n),
{
    reveal_strlit("-");
    if n > 0 {
        assert("-"@ =~= seq!['-']);
    }
}

/// Warnings for people have a first line that names the mode, and then every line after a tab.
pub proof fn warnings_have_a_line_each(w: WarningsView, lines: Seq<Seq<char>>, line: Seq<char>)
    ensures
        w.text() == "warnings ("@ + w.mode + " mode):\n"@ + indented(text::lines_of(w.out)),
        indented(lines.push(line)) == indented(lines) + "\t"@ + line + "\n"@,
        indented(Seq::empty()) == Seq::<char>::empty(),
{
    assert(lines.push(line).drop_last() =~= lines);
}

/// The extensions "json" and "yaml" stand for dialects, and nothing else does.
pub proof fn two_extensions_are_known(
    r: Result<ConfigDialect, compose::Error>,
    ext: Option<Seq<char>>,
)
    requires
        dialect_is(r, ext),
    ensures
        r is Ok <==> ext == Some("json"@) || ext == Some("yaml"@),
        r matches Ok(d) ==> Some(d.name()) == ext,
        r matches Err(e) ==> (ext is None <==> e is MissingExtension),
        ConfigDialect::JSON.name() == "json"@ && ConfigDialect::YAML.name() == "yaml"@,
{
    reveal_strlit("json");
    reveal_strlit("yaml");
    assert("json"@[0] != "yaml"@[0]);
}

/// A drop-in is found under the key of the ConfigMap that it names, and else of the Secret.
pub proof fn dropins_have_keys(d: DropinSourceView)
    ensures
        names_key(d) <==> d.config_map_key_ref is Some || d.secret_key_ref is Some,
        d.config_map_key_ref matches Some(r) ==> dropin_key(d) == r.key,
        d.config_map_key_ref is None ==> (d.secret_key_ref matches Some(r) ==> dropin_key(d)
            == r.key),
{
}

/// The files for a kind are named after it, those for an owner after both.
pub proof fn files_are_named_after_kinds(kind: Seq<char>, owner: Seq<char>, d: ConfigDialect)
    ensures
        assets::base_file(kind) == text::lower(kind) + ".yaml"@,
        assets::patch_file(kind, owner) == text::lower(kind) + "-"@ + owner + ".yaml-patch"@,
        assets::dropin_file(kind) == kind + "_dropin.json-patch"@,
        assets::dropin_key(kind, d) == "10-"@ + kind + "-dropin."@ + d.name() + "-patch"@,
        crate::config::names_patch(assets::dropin_key(kind, d)),
        text::has_suffix(assets::dropin_file(kind), "_dropin.json-patch"@),
{
    let key = assets::dropin_key(kind, d);
    assert(key.skip(key.len() - "-patch"@.len()) =~= "-patch"@);
    let file = assets::dropin_file(kind);
    assert(file.skip(file.len() - "_dropin.json-patch"@.len()) =~= "_dropin.json-patch"@);
}

/// What is made from a template is named after its owner and belongs to it; the rest of its
/// metadata is that of the template.
pub proof fn templates_are_adopted<S: Resource>(obj: S::V, meta: ObjectMetaView)
    requires
        S::metadata(obj).name is Some,
        S::metadata(obj).uid is Some,
    ensures
        ({
            let r = assets::adopted::<S>(obj, meta);
            &&& r.name == Some(S::metadata(obj).name->0 + "-"@ + text::lower(S::kind_name()))
            &&& r.owner_references->0.len() == 1
            &&& Some(r.owner_references->0[0].name) == S::metadata(obj).name
            &&& Some(r.owner_references->0[0].uid) == S::metadata(obj).uid
            &&& r.owner_references->0[0].kind == S::kind_name()
            &&& r.owner_references->0[0].controller == Some(true)
            &&& r.labels == meta.labels
            &&& r.annotations == meta.annotations
            &&& r.namespace == meta.namespace
        }),
{
}

/// A condition that is built says what was set; what was not set is unknown or empty.
pub proof fn built_conditions_say_what_was_set(b: ConditionBuilderView, now: TimeView)
    ensures
        ({
            let cnd = b.condition(now);
            &&& cnd.observed_generation == b.generation
            &&& b.time matches Some(t) ==> cnd.last_transition_time == t
            &&& b.time is None ==> cnd.last_transition_time == now
            &&& b.type_ matches Some(t) ==> cnd.type_ == t.name()
            &&& b.type_ is None ==> cnd.type_.len() == 0
            &&& b.status is None ==> cnd.status == "Unknown"@
            &&& b.status == Some(Status::True) ==> cnd.status == "True"@
            &&& b.status == Some(Status::False) ==> cnd.status == "False"@
            &&& b.reason matches Some(r) ==> cnd.reason == r
            &&& b.reason is None ==> cnd.reason.len() == 0
            &&& b.message matches Some(m) ==> cnd.message == m
            &&& b.message is None ==> cnd.message.len() == 0
        }),
{
}

/// The condition type of a kind is that its objects were created.
pub proof fn types_are_of_kinds(name: Seq<char>)
    ensures
        known_type(name) matches Some((path, ty)) ==> {
            &&& ty.name() == "clairproject.org/"@ + (name + "Created"@)
            &&& path.skip(path.len() - name.len()) == name
        },
        known_type(name) is Some <==> {
            ||| name == "ConfigMap"@
            ||| name == "Secret"@
            ||| name == "Service"@
            ||| name == "Deployment"@
            ||| name == "HorizontalPodAutoscaler"@
            ||| name == "Indexer"@
            ||| name == "Matcher"@
            ||| name == "Notifier"@
        },
{
    reveal_strlit("Created");
    reveal_strlit("ConfigMap");
    reveal_strlit("ConfigMapCreated");
    reveal_strlit("Secret");
    reveal_strlit("SecretCreated");
    reveal_strlit("Service");
    reveal_strlit("ServiceCreated");
    reveal_strlit("Deployment");
    reveal_strlit("DeploymentCreated");
    reveal_strlit("HorizontalPodAutoscaler");
    reveal_strlit("HorizontalPodAutoscalerCreated");
    reveal_strlit("Indexer");
    reveal_strlit("IndexerCreated");
    reveal_strlit("Matcher");
    reveal_strlit("MatcherCreated");
    reveal_strlit("Notifier");
    reveal_strlit("NotifierCreated");
    assert("ConfigMap"@ + "Created"@ =~= "ConfigMapCreated"@);
    assert("Secret"@ + "Created"@ =~= "SecretCreated"@);
    assert("Service"@ + "Created"@ =~= "ServiceCreated"@);
    assert("Deployment"@ + "Created"@ =~= "DeploymentCreated"@);
    assert("HorizontalPodAutoscaler"@ + "Created"@ =~= "HorizontalPodAutoscalerCreated"@);
    assert("Indexer"@ + "Created"@ =~= "IndexerCreated"@);
    assert("Matcher"@ + "Created"@ =~= "MatcherCreated"@);
    assert("Notifier"@ + "Created"@ =~= "NotifierCreated"@);
    if let Some((path, ty)) = known_type(name) {
        assert(path.skip(path.len() - name.len()) =~= name);
    }
}

/// The kinds of Kubernetes go by their names, in the groups that have them.
pub proof fn kinds_go_by_their_names()
    ensures
        ConfigMap::kind_name() == "ConfigMap"@ && ConfigMap::group_name().len() == 0,
        Secret::kind_name() == "Secret"@ && Secret::group_name().len() == 0,
        Service::kind_name() == "Service"@ && Service::group_name().len() == 0,
        Deployment::kind_name() == "Deployment"@ && Deployment::group_name() == "apps"@
            && Deployment::version_name() == "v1"@,
        Job::kind_name() == "Job"@ && Job::group_name() == "batch"@ && Job::version_name() == "v1"@,
        CronJob::kind_name() == "CronJob"@ && CronJob::group_name() == "batch"@,
        HorizontalPodAutoscaler::kind_name() == "HorizontalPodAutoscaler"@
            && HorizontalPodAutoscaler::group_name() == "autoscaling"@
            && HorizontalPodAutoscaler::version_name() == "v2"@,
        Type::ConfigReady.name() == "clairproject.org/"@ + "ConfigReady"@,
        Type::AdminPreJobDone.name() == "clairproject.org/"@ + "AdminPreJobDone"@,
        Type::AdminPostJobDone.name() == "clairproject.org/"@ + "AdminPostJobDone"@,
        Type::SpecOk.name() == "clairproject.org/"@ + "SpecOk"@,
{
    reveal_strlit("");
}

/// Every error of the builders has a sentence of its own.
pub proof fn errors_are_told_apart(a: ErrorView, b: ErrorView)
    ensures
        a.text() == b.text() ==> a == b,
{
    reveal_strlit("unable to determine namespace");
    reveal_strlit("missing required information: image");
    reveal_strlit("missing required information: ConfigSource");
    reveal_strlit("unable to construct owner reference");
    reveal_strlit("other error: ");
    assert("unable to determine namespace"@.len() == 29);
    assert("missing required information: image"@.len() == 35);
    assert("missing required information: ConfigSource"@.len() == 42);
    assert("unable to construct owner reference"@.len() == 35);
    assert("unable to determine namespace"@[0] == 'u');
    assert("missing required information: image"@[0] == 'm');
    assert("missing required information: ConfigSource"@[0] == 'm');
    assert("unable to construct owner reference"@[0] == 'u');
    assert("other error: "@[0] == 'o');
    if a is Other {
        assert(a.text()[0] == 'o');
        assert(a.text().skip("other error: "@.len() as int) =~= a->Other_0);
    }
    if b is Other {
        assert(b.text()[0] == 'o');
        assert(b.text().skip("other error: "@.len() as int) =~= b->Other_0);
    }
}

/// Warnings in one piece say the mode and then what was written, from its start; what is short is
/// there in full.
pub proof fn summaries_start_at_the_start(w: WarningsView)
    ensures
        ({
            let head = "warnings("@ + w.mode + "): "@;
            let s = w.summary();
            &&& s.len() <= head.len() + 256
            &&& s.take(head.len() as int) == head
            &&& w.out.len() <= 253 ==> s.len() >= head.len() + w.out.len() && s.subrange(
                head.len() as int,
                (head.len() + w.out.len()) as int,
            ) == w.out
            &&& w.out.len() > 253 ==> s.len() >= head.len() + 253 && s.subrange(
                head.len() as int,
                (head.len() + 253) as int,
            ) == w.out.take(253)
        }),
{
    let head = "warnings("@ + w.mode + "): "@;
    let s = w.summary();
    reveal_strlit("...");
    assert("..."@.len() == 3);
    assert(s.take(head.len() as int) =~= head);
    if w.out.len() <= 253 {
        assert(s.subrange(head.len() as int, (head.len() + w.out.len()) as int) =~= w.out);
    } else {
        assert(s.subrange(head.len() as int, (head.len() + 253) as int) =~= w.out.take(253));
    }
}

} // verus!
