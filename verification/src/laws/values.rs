//! Values: how lists, labels, statuses and specs change when something is put into them.

use vstd::prelude::*;

use crate::condition::{condition_at, Status, Type};
use crate::json::{escaped, hex_digit};
use crate::k8s::meta::{ConditionView, ObjectMetaView, TimeView};
use crate::k8s::pod::{
    TypedLocalObjectReference, TypedLocalObjectReferenceView,
};
use crate::keyed::{self, Keyed};
use crate::labels::{dashed, keyified, with_component};
use crate::maps;
use crate::merge::{self, DeepMerge};
use crate::resource;
use crate::status::{ref_to, StatusCommon, SubSpecCommon, SubStatusCommon};
use crate::text;
use crate::v1alpha1::{
    ClairSpec, ClairSpecView, ConfigMapKeySelector, ConfigMapKeySelectorView, ConfigSource,
    ConfigSourceView, Databases, DatabasesView, DropinSourceView, IndexerSpec, IndexerSpecView,
    IndexerStatus, IndexerStatusView, MatcherSpec, MatcherSpecView, MatcherStatus,
    MatcherStatusView, NotifierSpec, NotifierSpecView, NotifierStatus, NotifierStatusView,
    RouteParentRef, RouteParentRefView, SecretKeySelector, SecretKeySelectorView, UpdaterStatus,
    UpdaterStatusView,
};

verus! {

/// What is found under a key is the first item that has the key; and nothing is found exactly if no
/// item has it.
pub proof fn found_is_first<T: Keyed>(s: Seq<T::V>, key: Seq<char>)
    ensures
        match keyed::found_in::<T>(s, key) {
            Some(x) => exists|i: int|
                {
                    &&& 0 <= i < s.len()
                    &&& #[trigger] s[i] == x
                    &&& T::key_of(s[i]) == key
                    &&& forall|j: int| 0 <= j < i ==> T::key_of(#[trigger] s[j]) != key
                },
            None => forall|j: int| 0 <= j < s.len() ==> T::key_of(#[trigger] s[j]) != key,
        },
{
    place_is_first::<T>(s, key, 0);
    let i = keyed::key_place::<T>(s, key, 0);
    if i < s.len() {
        assert(s[i] == keyed::found_in::<T>(s, key)->0);
    }
}

/// Before the place of a key no item has it.
proof fn place_is_first<T: Keyed>(s: Seq<T::V>, k: Seq<char>, i: int)
    requires
        0 <= i <= s.len(),
    ensures
        i <= keyed::key_place::<T>(s, k, i) <= s.len(),
        keyed::key_place::<T>(s, k, i) < s.len() ==> T::key_of(s[keyed::key_place::<T>(s, k, i)])
            == k,
        forall|j: int| i <= j < keyed::key_place::<T>(s, k, i) ==> T::key_of(#[trigger] s[j]) != k,
    decreases s.len() - i,
{
    if i < s.len() && T::key_of(s[i]) != k {
        place_is_first::<T>(s, k, i + 1);
    }
}

/// An item that is the first with its key is found under it.
pub proof fn first_is_found<T: Keyed>(s: Seq<T::V>, i: int)
    requires
        0 <= i < s.len(),
        forall|j: int| 0 <= j < i ==> T::key_of(#[trigger] s[j]) != T::key_of(s[i]),
    ensures
        keyed::found_in::<T>(s, T::key_of(s[i])) == Some(s[i]),
{
    let k = T::key_of(s[i]);
    place_is_first::<T>(s, k, 0);
    let p = keyed::key_place::<T>(s, k, 0);
    if p < i {
        assert(T::key_of(s[p]) != k);
    }
    if p > i {
        assert(T::key_of(s[i]) != k);
    }
}

/// A list by key holds exactly the items that are the first with their key, and has the keys in
/// order.
pub proof fn kept_is_first<T: Keyed>(s: Seq<T::V>, x: T::V)
    ensures
        keyed::by_key::<T>(s).contains(x) <==> keyed::found_in::<T>(s, T::key_of(x)) == Some(x),
{
    keyed::firsts_holds::<T>(s);
    let m = keyed::firsts::<T>(s);
    keyed::sorted_keys_exist(m);
    let ks = maps::sorted_keys(m);
    let out = keyed::by_key::<T>(s);
    let k = T::key_of(x);
    if out.contains(x) {
        let i = choose|i: int| 0 <= i < out.len() && out[i] == x;
        assert(ks.contains(ks[i]));
        assert(m.dom().contains(ks[i]));
        assert(m[ks[i]] == x);
        assert(T::key_of(m[ks[i]]) == ks[i]);
    }
    if keyed::found_in::<T>(s, k) == Some(x) {
        assert(m.dom().contains(k));
        assert(ks.contains(k));
        let i = choose|i: int| 0 <= i < ks.len() && ks[i] == k;
        assert(out[i] == m[k]);
    }
}

/// After an item was put in, it is there; of the others with its key none is left, and the first of
/// every other key stays.
pub proof fn what_is_put_in_is_there<T: Keyed>(s: Seq<T::V>, x: T::V, y: T::V)
    ensures
        keyed::put_in::<T>(s, x).contains(x),
        T::key_of(y) == T::key_of(x) && y != x ==> !keyed::put_in::<T>(s, x).contains(y),
        T::key_of(y) != T::key_of(x) ==> (keyed::put_in::<T>(s, x).contains(y) <==> keyed::found_in::<
            T,
        >(s, T::key_of(y)) == Some(y)),
{
    let all = seq![x] + s;
    kept_is_first::<T>(all, x);
    kept_is_first::<T>(all, y);
    assert(all[0] == x);
    first_is_found::<T>(all, 0);
    if T::key_of(y) != T::key_of(x) {
        found_is_first::<T>(all, T::key_of(y));
        found_is_first::<T>(s, T::key_of(y));
        if keyed::found_in::<T>(s, T::key_of(y)) == Some(y) {
            let i = choose|i: int|
                {
                    &&& 0 <= i < s.len()
                    &&& #[trigger] s[i] == y
                    &&& T::key_of(s[i]) == T::key_of(y)
                    &&& forall|j: int|
                        0 <= j < i ==> T::key_of(#[trigger] s[j]) != T::key_of(y)
                };
            assert(all[i + 1] == y);
            assert forall|j: int| 0 <= j < i + 1 implies T::key_of(#[trigger] all[j])
                != T::key_of(all[i + 1]) by {
                if j > 0 {
                    assert(all[j] == s[j - 1]);
                }
            }
            first_is_found::<T>(all, i + 1);
        }
        if keyed::found_in::<T>(all, T::key_of(y)) == Some(y) {
            let i = choose|i: int|
                {
                    &&& 0 <= i < all.len()
                    &&& #[trigger] all[i] == y
                    &&& T::key_of(all[i]) == T::key_of(y)
                    &&& forall|j: int|
                        0 <= j < i ==> T::key_of(#[trigger] all[j]) != T::key_of(y)
                };
            assert(s[i - 1] == y);
            assert forall|j: int| 0 <= j < i - 1 implies T::key_of(#[trigger] s[j]) != T::key_of(
                s[i - 1],
            ) by {
                assert(all[j + 1] == s[j]);
            }
            first_is_found::<T>(s, i - 1);
        }
    }
}

/// Conditions are told apart by their type, and references by their kind.
pub proof fn keys_of_a_status(cnd: ConditionView, r: TypedLocalObjectReferenceView)
    ensures
        crate::k8s::meta::Condition::key_of(cnd) == cnd.type_,
        TypedLocalObjectReference::key_of(r) == r.kind,
{
}

/// To set the conditions of a status sets them and nothing else, and the same goes for references.
/// A status starts without either.
pub proof fn statuses_keep_apart(
    i: IndexerStatusView,
    m: MatcherStatusView,
    n: NotifierStatusView,
    u: UpdaterStatusView,
    cs: Seq<ConditionView>,
    refs: Seq<TypedLocalObjectReferenceView>,
)
    ensures
        IndexerStatus::with_conditions(i, cs) == (IndexerStatusView { conditions: cs, ..i }),
        IndexerStatus::with_refs(i, refs) == (IndexerStatusView { refs, ..i }),
        IndexerStatus::conditions_in(i) == i.conditions && IndexerStatus::refs_in(i) == i.refs,
        IndexerStatus::blank_status().conditions.len() == 0 && IndexerStatus::blank_status().refs.len()
            == 0,
        MatcherStatus::with_conditions(m, cs) == (MatcherStatusView { conditions: cs, ..m }),
        MatcherStatus::with_refs(m, refs) == (MatcherStatusView { refs, ..m }),
        MatcherStatus::conditions_in(m) == m.conditions && MatcherStatus::refs_in(m) == m.refs,
        MatcherStatus::blank_status().conditions.len() == 0 && MatcherStatus::blank_status().refs.len()
            == 0,
        NotifierStatus::with_conditions(n, cs) == (NotifierStatusView { conditions: cs, ..n }),
        NotifierStatus::with_refs(n, refs) == (NotifierStatusView { refs, ..n }),
        NotifierStatus::conditions_in(n) == n.conditions && NotifierStatus::refs_in(n) == n.refs,
        NotifierStatus::blank_status().conditions.len() == 0
            && NotifierStatus::blank_status().refs.len() == 0,
        UpdaterStatus::with_conditions(u, cs) == (UpdaterStatusView { conditions: cs, ..u }),
        UpdaterStatus::with_refs(u, refs) == (UpdaterStatusView { refs, ..u }),
        UpdaterStatus::conditions_in(u) == u.conditions && UpdaterStatus::refs_in(u) == u.refs,
{
}

/// The configuration that a status is given is the one that it has then, and nothing else changes.
/// Images and configurations of specs are those in their fields.
pub proof fn configurations_are_taken(
    i: IndexerStatusView,
    m: MatcherStatusView,
    n: NotifierStatusView,
    config: Option<ConfigSourceView>,
    a: IndexerSpecView,
    b: MatcherSpecView,
    c: NotifierSpecView,
)
    ensures
        IndexerStatus::with_config(i, config) == (IndexerStatusView { config, ..i }),
        MatcherStatus::with_config(m, config) == (MatcherStatusView { config, ..m }),
        NotifierStatus::with_config(n, config) == (NotifierStatusView { config, ..n }),
        IndexerSpec::image_in(a) == a.image && <IndexerSpec as SubSpecCommon>::config_in(a)
            == a.config,
        MatcherSpec::image_in(b) == b.image && <MatcherSpec as SubSpecCommon>::config_in(b)
            == b.config,
        NotifierSpec::image_in(c) == c.image && <NotifierSpec as SubSpecCommon>::config_in(c)
            == c.config,
{
}

/// The reference that a status holds on to is to the object: by its kind, its name and the version
/// of its API.
pub proof fn references_are_to_the_object<K: resource::Resource>(obj: K::V)
    ensures
        ({
            let r = ref_to::<K>(obj);
            &&& r.kind == K::kind_name()
            &&& Some(r.name) == K::metadata(obj).name || K::metadata(obj).name is None
            &&& r.api_group == Some(resource::group_version(K::group_name(), K::version_name()))
        }),
{
}

/// A condition says what it was made to say, of the generation that it was made for.
pub proof fn conditions_say_what_they_were_made_for(
    generation: Option<i64>,
    ty: Type,
    status: Status,
    reason: Seq<char>,
    message: Seq<char>,
    now: TimeView,
)
    ensures
        ({
            let cnd = condition_at(generation, ty, status, reason, message, now);
            &&& cnd.type_ == ty.name()
            &&& status == Status::True <==> cnd.status == "True"@
            &&& status == Status::False <==> cnd.status == "False"@
            &&& status == Status::Unknown <==> cnd.status == "Unknown"@
            &&& cnd.observed_generation == generation
            &&& cnd.reason == reason
            &&& cnd.message == message
            &&& cnd.last_transition_time == now
        }),
{
    reveal_strlit("True");
    reveal_strlit("False");
    reveal_strlit("Unknown");
    assert("True"@.len() == 4 && "False"@.len() == 5 && "Unknown"@.len() == 7);
}

/// A name gives the status of that name, and any other word stands for an unknown one.
pub proof fn statuses_by_name(name: Seq<char>)
    ensures
        Status::of(name) == Status::True <==> name == "True"@,
        Status::of(name) == Status::False <==> name == "False"@,
        Status::of(name) == Status::Unknown <==> name != "True"@ && name != "False"@,
{
    reveal_strlit("True");
    reveal_strlit("False");
    assert("True"@.len() != "False"@.len());
}

/// In a label, every separator becomes a dash and every capital a small letter; everything else
/// stays, in its place. In a condition capitals stay too.
pub proof fn labels_keep_their_letters(key: Seq<char>, i: int)
    requires
        0 <= i < key.len(),
    ensures
        keyified(key).len() == key.len() && dashed(key).len() == key.len(),
        key[i] == '_' || key[i] == ' ' || key[i] == '\t' || key[i] == '\n' ==> keyified(key)[i]
            == '-' && dashed(key)[i] == '-',
        'a' <= key[i] && key[i] <= 'z' || '0' <= key[i] && key[i] <= '9' || key[i] == '-'
            || key[i] == '.' ==> keyified(key)[i] == key[i] && dashed(key)[i] == key[i],
        'A' <= key[i] && key[i] <= 'Z' ==> dashed(key)[i] == key[i] && keyified(key)[i] as int
            == key[i] as int + 32,
{
    reveal_strlit("abcdefghijklmnopqrstuvwxyz");
}

/// The component label is set and nothing else of the metadata changes, other labels included.
pub proof fn only_the_component_is_labelled(meta: ObjectMetaView, c: Seq<char>, key: Seq<char>)
    ensures
        ({
            let r = with_component(meta, c);
            &&& r.labels is Some
            &&& r.labels->0.dom().contains("app.kubernetes.io/component"@)
            &&& r.labels->0["app.kubernetes.io/component"@] == c
            &&& key != "app.kubernetes.io/component"@ ==> {
                &&& r.labels->0.dom().contains(key) <==> meta.labels is Some
                    && meta.labels->0.dom().contains(key)
                &&& meta.labels is Some && meta.labels->0.dom().contains(key)
                    ==> r.labels->0[key] == meta.labels->0[key]
            }
            &&& r == (ObjectMetaView { labels: r.labels, ..meta })
        }),
{
}

/// Something is referred to as an owner as soon as it has a name and a unique ID, by both and by
/// its kind; what it manages says so.
pub proof fn owners_are_referred_to(
    api_version: Seq<char>,
    kind: Seq<char>,
    meta: ObjectMetaView,
)
    ensures
        resource::owner_ref_of(api_version, kind, meta) is Some <==> meta.name is Some && meta.uid
            is Some,
        resource::owner_ref_of(api_version, kind, meta) matches Some(r) ==> {
            &&& Some(r.name) == meta.name
            &&& Some(r.uid) == meta.uid
            &&& r.kind == kind
            &&& r.api_version == api_version
            &&& r.controller is None
        },
        resource::controller_ref_of(api_version, kind, meta) is Some <==> meta.name is Some
            && meta.uid is Some,
        resource::controller_ref_of(api_version, kind, meta) matches Some(r) ==> {
            &&& Some(r.name) == meta.name
            &&& Some(r.uid) == meta.uid
            &&& r.kind == kind
            &&& r.api_version == api_version
            &&& r.controller == Some(true)
        },
        ({
            let r = resource::object_ref_of(api_version, kind, meta);
            &&& r.name == meta.name
            &&& r.namespace == meta.namespace
            &&& r.uid == meta.uid
            &&& r.kind == Some(kind)
            &&& r.api_version == Some(api_version)
        }),
{
}

/// What is set in a spec that is merged in wins, and what is not set there stays: field by field.
/// Drop-ins are not lost, neither those that were there nor those that are merged in.
pub proof fn what_is_set_wins(a: ClairSpecView, b: ClairSpecView)
    ensures
        ({
            let r = ClairSpec::merged(a, b);
            &&& r.image == (if b.image is Some {
                b.image
            } else {
                a.image
            })
            &&& r.notifier == (if b.notifier is Some {
                b.notifier
            } else {
                a.notifier
            })
            &&& b.databases is None ==> r.databases == a.databases
            &&& a.databases is None ==> r.databases == b.databases
            &&& a.databases is Some && b.databases is Some ==> r.databases == Some(
                Databases::merged(a.databases->0, b.databases->0),
            )
            &&& b.gateway is None ==> r.gateway == a.gateway
            &&& a.gateway is None ==> r.gateway == b.gateway
            &&& a.gateway is Some && b.gateway is Some ==> r.gateway == Some(
                RouteParentRef::merged(a.gateway->0, b.gateway->0),
            )
            &&& forall|x: DropinSourceView| #[trigger]
                r.dropins.contains(x) <==> a.dropins.contains(x) || b.dropins.contains(x)
            &&& forall|i: int| 0 <= i < a.dropins.len() ==> #[trigger] r.dropins[i] == a.dropins[i]
        }),
{
    united_holds_both(a.dropins, b.dropins);
}

/// A union holds what is in either list, and starts with the first.
proof fn united_holds_both(a: Seq<DropinSourceView>, b: Seq<DropinSourceView>)
    ensures
        forall|x: DropinSourceView| #[trigger]
            merge::united(a, b).contains(x) <==> a.contains(x) || b.contains(x),
        merge::united(a, b).len() >= a.len(),
        forall|i: int| 0 <= i < a.len() ==> #[trigger] merge::united(a, b)[i] == a[i],
    decreases b.len(),
{
    if b.len() > 0 {
        let t = b.drop_last();
        united_holds_both(a, t);
        let c = merge::united(a, t);
        assert(b =~= t.push(b.last()));
        assert forall|x: DropinSourceView| #[trigger] merge::united(a, b).contains(x)
            <==> a.contains(x) || b.contains(x) by {
            crate::lists::contains_push(t, b.last(), x);
            crate::lists::contains_push(c, b.last(), x);
            assert(c.contains(x) <==> a.contains(x) || t.contains(x));
            assert(c.contains(b.last()) <==> a.contains(b.last()) || t.contains(b.last()));
        }
        assert forall|i: int| 0 <= i < a.len() implies #[trigger] merge::united(a, b)[i] == a[i] by {
            assert(c[i] == a[i]);
        }
    }
}

/// The same goes for the parts of specs.
pub proof fn what_is_set_in_parts_wins(
    a: DatabasesView,
    b: DatabasesView,
    s: SecretKeySelectorView,
    t: SecretKeySelectorView,
    p: ConfigMapKeySelectorView,
    q: ConfigMapKeySelectorView,
    g: RouteParentRefView,
    h: RouteParentRefView,
    c: ConfigSourceView,
    d: ConfigSourceView,
    i: IndexerSpecView,
    j: IndexerSpecView,
)
    ensures
        Databases::merged(a, b).indexer == SecretKeySelector::merged(a.indexer, b.indexer),
        Databases::merged(a, b).matcher == SecretKeySelector::merged(a.matcher, b.matcher),
        b.notifier is None ==> Databases::merged(a, b).notifier == a.notifier,
        a.notifier is None ==> Databases::merged(a, b).notifier == b.notifier,
        t.key.len() > 0 ==> SecretKeySelector::merged(s, t).key == t.key,
        t.key.len() == 0 ==> SecretKeySelector::merged(s, t).key == s.key,
        t.name.len() > 0 ==> SecretKeySelector::merged(s, t).name == t.name,
        t.name.len() == 0 ==> SecretKeySelector::merged(s, t).name == s.name,
        q.key.len() > 0 ==> ConfigMapKeySelector::merged(p, q).key == q.key,
        q.key.len() == 0 ==> ConfigMapKeySelector::merged(p, q).key == p.key,
        q.name.len() > 0 ==> ConfigMapKeySelector::merged(p, q).name == q.name,
        q.name.len() == 0 ==> ConfigMapKeySelector::merged(p, q).name == p.name,
        RouteParentRef::merged(g, h).group == (if h.group is Some {
            h.group
        } else {
            g.group
        }),
        RouteParentRef::merged(g, h).kind == (if h.kind is Some {
            h.kind
        } else {
            g.kind
        }),
        RouteParentRef::merged(g, h).namespace == (if h.namespace is Some {
            h.namespace
        } else {
            g.namespace
        }),
        RouteParentRef::merged(g, h).name == (if h.name is Some {
            h.name
        } else {
            g.name
        }),
        RouteParentRef::merged(g, h).section_name == (if h.section_name is Some {
            h.section_name
        } else {
            g.section_name
        }),
        ConfigSource::merged(c, d).root == ConfigMapKeySelector::merged(c.root, d.root),
        forall|x: DropinSourceView| #[trigger]
            ConfigSource::merged(c, d).dropins.contains(x) <==> c.dropins.contains(x)
                || d.dropins.contains(x),
        IndexerSpec::merged(i, j).image == (if j.image is Some {
            j.image
        } else {
            i.image
        }),
        j.config is None ==> IndexerSpec::merged(i, j).config == i.config,
        i.config is None ==> IndexerSpec::merged(i, j).config == j.config,
        IndexerSpec::merged(i, j).gateway == i.gateway,
{
    united_holds_both(c.dropins, d.dropins);
}

/// Between the quotes of a JSON string there is no bare quote, no bare backslash and no control
/// character, and every other character stands for itself.
pub proof fn strings_are_escaped(c: char)
    ensures
        c == '"' ==> escaped(c) == seq!['\\', '"'],
        c == '\\' ==> escaped(c) == seq!['\\', '\\'],
        c == '\n' ==> escaped(c) == seq!['\\', 'n'],
        c == '\r' ==> escaped(c) == seq!['\\', 'r'],
        c == '\t' ==> escaped(c) == seq!['\\', 't'],
        c as int >= 32 && c != '"' && c != '\\' ==> escaped(c) == seq![c],
        (c as int) < 32 ==> escaped(c).len() >= 2 && escaped(c)[0] == '\\',
        escaped(c).len() == 6 ==> escaped(c)[4] == hex_digit(c as int / 16) && escaped(c)[5]
            == hex_digit(c as int % 16),
        hex_digit(0) == '0' && hex_digit(1) == '1' && hex_digit(9) == '9' && hex_digit(10) == 'a'
            && hex_digit(15) == 'f',
{
    reveal_strlit("0123456789abcdef");
}

/// The number that a decimal text stands for.
pub open spec fn number(s: Seq<char>) -> int
    decreases s.len(),
{
    if s.len() == 0 {
        0
    } else {
        10 * number(s.drop_last()) + (s.last() as int - '0' as int)
    }
}

/// A number is written so that it can be read again.
pub proof fn numbers_can_be_read(n: nat)
    ensures
        number(text::decimal(n)) == n,
        text::decimal(n).len() > 0,
    decreases n,
{
    reveal_strlit("0123456789");
    if n >= 10 {
        numbers_can_be_read(n / 10);
        let s = text::decimal(n);
        assert(s.drop_last() =~= text::decimal(n / 10));
        assert(s.last() as int - '0' as int == n % 10);
        assert(n == 10 * (n / 10) + n % 10);
    } else {
        let s = text::decimal(n);
        assert(s.len() == 1);
        assert(s.drop_last() =~= Seq::<char>::empty());
        assert(number(s.drop_last()) == 0);
        assert(s.last() as int - '0' as int == n);
    }
}

} // verus!
