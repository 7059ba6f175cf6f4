//! The configuration sources that a [`ConfigMap`] stands for.

use vstd::prelude::*;

use crate::k8s::pod::{ConfigMap, ConfigMapView};
use crate::lists::{contains_concat, contains_push};
use crate::maps;
use crate::model::{extend, none, push, Model};
use crate::sort;
use crate::templates::{outcome, Build, Error, ErrorView, CONFIG_ROOT_KEY};
use crate::v1alpha1::{
    config_map_dropin, ConfigMapKeySelector, ConfigMapKeySelectorView, ConfigSource,
    ConfigSourceView, DropinSource, DropinSourceView,
};

verus! {

/// ConfigSourceBuilder is a builder for a [`ConfigSource`] based on the [`ConfigMap`] used to
/// create it.
pub struct ConfigSourceBuilder {
    name: String,
    key: String,
    root_dropins: Vec<DropinSource>,
    ext_dropins: Option<Vec<DropinSource>>,
}

/// The value of a [`ConfigSourceBuilder`].
pub ghost struct ConfigSourceBuilderView {
    pub name: Seq<char>,
    pub key: Seq<char>,
    pub root_dropins: Seq<DropinSourceView>,
    pub ext_dropins: Option<Seq<DropinSourceView>>,
}

impl DeepView for ConfigSourceBuilder {
    type V = ConfigSourceBuilderView;

    closed spec fn deep_view(&self) -> ConfigSourceBuilderView {
        ConfigSourceBuilderView {
            name: self.name.deep_view(),
            key: self.key.deep_view(),
            root_dropins: self.root_dropins.deep_view(),
            ext_dropins: self.ext_dropins.deep_view(),
        }
    }
}

impl View for ConfigSourceBuilder {
    type V = ConfigSourceBuilderView;

    open spec fn view(&self) -> ConfigSourceBuilderView {
        self.deep_view()
    }
}

/// The drop-ins in the keys of a map, in the order of the keys.
pub open spec fn keys_as_dropins(
    name: Seq<char>,
    data: Option<Map<Seq<char>, Seq<char>>>,
) -> Seq<DropinSourceView> {
    match data {
        Some(kv) => maps::sorted_keys(kv).map_values(|key: Seq<char>| config_map_dropin(name, key)),
        None => Seq::empty(),
    }
}

/// The builder for a map: every key is a drop-in, and the default key is the root.
pub open spec fn config_source_builder(cm: ConfigMapView) -> ConfigSourceBuilderView {
    ConfigSourceBuilderView {
        name: cm.metadata.name->0,
        key: "config.json"@,
        root_dropins: keys_as_dropins(cm.metadata.name->0, cm.data),
        ext_dropins: None,
    }
}

/// The items of a list that may be missing.
pub open spec fn items<A>(list: Option<Seq<A>>) -> Seq<A> {
    match list {
        Some(s) => s,
        None => Seq::empty(),
    }
}

/// A list that is missing when it would be empty.
pub open spec fn listed<A>(s: Seq<A>) -> Option<Seq<A>> {
    if s.len() == 0 {
        None
    } else {
        Some(s)
    }
}

/// The builder with more drop-ins from elsewhere.
pub open spec fn adding(
    b: ConfigSourceBuilderView,
    more: Seq<DropinSourceView>,
) -> ConfigSourceBuilderView {
    ConfigSourceBuilderView {
        ext_dropins: listed(sort::arranged::<DropinSource>(items(b.ext_dropins) + more)),
        ..b
    }
}

/// `s` without any `x`.
pub open spec fn without<A>(s: Seq<A>, x: A) -> Seq<A>
    decreases s.len(),
{
    if s.len() == 0 {
        s
    } else if s.last() == x {
        without(s.drop_last(), x)
    } else {
        without(s.drop_last(), x).push(s.last())
    }
}

/// Only `x` is missing from [`without`].
proof fn without_contains<A>(s: Seq<A>, x: A, y: A)
    ensures
        without(s, x).contains(y) <==> s.contains(y) && y != x,
    decreases s.len(),
{
    if s.len() > 0 {
        let t = s.drop_last();
        without_contains(t, x, y);
        assert(s =~= t.push(s.last()));
        contains_push(t, s.last(), y);
        contains_push(without(t, x), s.last(), y);
    }
}

/// Repeated calls are additive: adding twice is adding both lists at once.
pub proof fn adding_is_additive(
    b: ConfigSourceBuilderView,
    first: Seq<DropinSourceView>,
    second: Seq<DropinSourceView>,
)
    ensures
        adding(adding(b, first), second) == adding(b, first + second),
{
    let ext = items(b.ext_dropins);
    let once = sort::arranged::<DropinSource>(ext + first);
    let twice = sort::arranged::<DropinSource>(once + second);
    sort::arranged_exists::<DropinSource>(ext + first);
    sort::arranged_exists::<DropinSource>(once + second);
    assert(items(listed(once)) =~= once);
    assert forall|x: DropinSourceView| #[trigger] twice.contains(x) <==> (ext + (first
        + second)).contains(x) by {
        contains_concat(once, second, x);
        contains_concat(ext, first, x);
        contains_concat(first, second, x);
        contains_concat(ext, first + second, x);
        assert(twice.contains(x) <==> (once + second).contains(x));
        assert(once.contains(x) <==> (ext + first).contains(x));
    }
    sort::arranged_unique::<DropinSource>(twice, ext + (first + second));
}

/// The sources hold every drop-in of the builder but the root, each once and in order.
pub proof fn root_is_no_dropin(b: ConfigSourceBuilderView)
    ensures
        ({
            let dropins = ConfigSourceBuilder::built(b).dropins;
            let root = config_map_dropin(b.name, b.key);
            &&& sort::increasing::<DropinSource>(dropins)
            &&& forall|x: DropinSourceView| #[trigger]
                dropins.contains(x) <==> x != root && (b.root_dropins.contains(x) || items(
                    b.ext_dropins,
                ).contains(x))
        }),
{
    let dropins = ConfigSourceBuilder::built(b).dropins;
    let root = config_map_dropin(b.name, b.key);
    let all = b.root_dropins + items(b.ext_dropins);
    sort::arranged_exists::<DropinSource>(without(all, root));
    assert forall|x: DropinSourceView| #[trigger] dropins.contains(x) <==> x != root && (
    b.root_dropins.contains(x) || items(b.ext_dropins).contains(x)) by {
        assert(dropins.contains(x) <==> without(all, root).contains(x));
        without_contains(all, root, x);
        contains_concat(b.root_dropins, items(b.ext_dropins), x);
    }
}

impl ConfigSourceBuilder {
    /// The builder for a map.
    pub fn try_from(value: &ConfigMap) -> (r: Result<Self, Error>)
        requires
            value@.metadata.name is Some,
        ensures
            outcome(r) == Ok::<ConfigSourceBuilderView, ErrorView>(config_source_builder(value@)),
    {
        let name = value.metadata.name.as_ref().unwrap().dup();
        let mut root_dropins: Vec<DropinSource> = none();
        let ghost want = keys_as_dropins(name@, value@.data);
        if let Some(kv) = &value.data {
            let n: usize = kv.len();
            let mut i: usize = 0;
            assert(want.take(0) =~= Seq::empty());
            while i < n
                invariant
                    value@.data == Some(kv@),
                    n == maps::sorted_keys(kv@).len(),
                    want == keys_as_dropins(name@, value@.data),
                    i <= n,
                    root_dropins.deep_view() == want.take(i as int),
                decreases n - i,
            {
                let (key, _) = kv.at(i);
                push(&mut root_dropins, DropinSource::config_map(name.as_str(), key.as_str()));
                i = i + 1;
                assert(root_dropins.deep_view() =~= want.take(i as int));
            }
            assert(want.take(n as int) =~= want);
        }
        Ok(
            ConfigSourceBuilder {
                name,
                key: CONFIG_ROOT_KEY.to_owned(),
                root_dropins,
                ext_dropins: None,
            },
        )
    }

    /// Set the key containing the root the Clair configuration in the original [`ConfigMap`].
    pub fn with_key(self, key: &str) -> (r: Self)
        ensures
            r@ == (ConfigSourceBuilderView { key: key@, ..self@ }),
    {
        ConfigSourceBuilder { key: key.to_owned(), ..self }
    }

    /// Add additional configuration dropins for the resulting [`ConfigSource`].
    ///
    /// Repeated calls are additive.
    pub fn with_dropins(self, dropins: &Vec<DropinSource>) -> (r: Self)
        ensures
            r@ == adding(self@, dropins.deep_view()),
    {
        let mut next = match self.ext_dropins {
            Some(next) => next,
            None => none(),
        };
        extend(&mut next, dropins);
        let next = sort::sort_dedup(next);
        assert(next.deep_view().len() == next@.len());
        ConfigSourceBuilder {
            name: self.name,
            key: self.key,
            root_dropins: self.root_dropins,
            ext_dropins: if next.len() == 0 {
                None
            } else {
                Some(next)
            },
        }
    }
}

impl Build for ConfigSourceBuilder {
    type Output = ConfigSource;

    open spec fn built(v: ConfigSourceBuilderView) -> ConfigSourceView {
        ConfigSourceView {
            root: ConfigMapKeySelectorView { name: v.name, key: v.key },
            dropins: sort::arranged::<DropinSource>(
                without(v.root_dropins + items(v.ext_dropins), config_map_dropin(v.name, v.key)),
            ),
        }
    }

    fn build(self) -> (r: ConfigSource) {
        let ghost v = self@;
        let root = DropinSource::config_map(self.name.as_str(), self.key.as_str());
        let mut all = self.root_dropins;
        if let Some(ext) = &self.ext_dropins {
            extend(&mut all, ext);
        }
        let ghost every = v.root_dropins + items(v.ext_dropins);
        assert(all.deep_view() =~= every);
        let mut dropins: Vec<DropinSource> = none();
        let mut i: usize = 0;
        assert(every.take(0) =~= Seq::empty());
        while i < all.len()
            invariant
                i <= all@.len(),
                all.deep_view() == every,
                dropins.deep_view() == without(every.take(i as int), root@),
            decreases all.len() - i,
        {
            assert(every.take(i as int + 1).drop_last() =~= every.take(i as int));
            assert(every.take(i as int + 1).last() == all@[i as int]@);
            if !all[i].same(&root) {
                push(&mut dropins, all[i].dup());
            }
            i = i + 1;
        }
        assert(every.take(i as int) =~= every);
        let dropins = sort::sort_dedup(dropins);
        ConfigSource { root: ConfigMapKeySelector { name: self.name, key: self.key }, dropins }
    }
}

} // verus!
