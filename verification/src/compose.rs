//! Composing a configuration from what the cluster holds, in the order in which it is loaded.

use json_patch::PatchError;
use serde_json::{Error as JsonError, Value};
use serde_yaml::Error as YamlError;
use vstd::prelude::*;

use crate::config::{applied, names_patch, DropinView, K8sMap};
use crate::json;
use crate::k8s::pod::{ConfigMap, Secret};
use crate::maps::{self, KeyMap};
use crate::model::{none, push, Model};
use crate::sort::{self, Ordered};
use crate::text;
use crate::v1alpha1::{
    ConfigMapKeySelector, DropinSource, DropinSourceView, SecretKeySelector,
};

verus! {

/// Error enumerates what can go wrong while a configuration is composed.
#[derive(Debug)]
pub enum Error {
    /// The root's key has an extension that stands for no dialect.
    UnknownExtension(String),
    /// The root's key has no extension.
    MissingExtension,
    /// A key is missing from where it should be.
    MissingKey,
    /// Some bytes are not JSON.
    JSON(JsonError),
    /// Some bytes are not YAML.
    YAML(YamlError),
    /// A change cannot be made.
    JSONPatch(PatchError),
}

/// The sentence for people that goes with an error.
pub open spec fn sentence(e: Error) -> Seq<char> {
    match e {
        Error::UnknownExtension(ext) => "some other error: unknown file extension: "@ + ext@,
        Error::MissingExtension => "some other error: missing file extension"@,
        Error::MissingKey => "some other error: missing key"@,
        Error::JSON(err) => "json error: "@ + json::json_error_text(err),
        Error::YAML(err) => "yaml error: "@ + json::yaml_error_text(err),
        Error::JSONPatch(err) => "json patch error: "@ + json::patch_error_text(err),
    }
}

impl Error {
    /// The sentence for people.
    pub fn message(&self) -> (r: String)
        ensures
            r@ == sentence(*self),
    {
        match self {
            Error::UnknownExtension(ext) => text::cat(
                "some other error: unknown file extension: ",
                ext.as_str(),
            ),
            Error::MissingExtension => "some other error: missing file extension".to_owned(),
            Error::MissingKey => "some other error: missing key".to_owned(),
            Error::JSON(err) => text::cat("json error: ", json::describe(err).as_str()),
            Error::YAML(err) => text::cat("yaml error: ", json::describe_yaml(err).as_str()),
            Error::JSONPatch(err) => text::cat(
                "json patch error: ",
                json::describe_patch(err).as_str(),
            ),
        }
    }
}

/// ConfigDialect selects between the dialects for a Clair config.
///
/// The default for the operator to create is JSON.
#[derive(Clone, Copy, Debug, PartialEq, Eq, Structural)]
pub enum ConfigDialect {
    /// JSON indicates a JSON config.
    JSON,
    /// YAML indicates a YAML config.
    YAML,
}

impl Default for ConfigDialect {
    fn default() -> (r: Self)
        ensures
            r == ConfigDialect::JSON,
    {
        ConfigDialect::JSON
    }
}

impl ConfigDialect {
    /// The name of the dialect.
    pub open spec fn name(self) -> Seq<char> {
        match self {
            ConfigDialect::JSON => "json"@,
            ConfigDialect::YAML => "yaml"@,
        }
    }

    /// The name of the dialect.
    pub fn as_str(self) -> (r: &'static str)
        ensures
            r@ == self.name(),
    {
        match self {
            ConfigDialect::JSON => "json",
            ConfigDialect::YAML => "yaml",
        }
    }
}

/// The dialect that an extension stands for, or why there is none.
pub open spec fn dialect_is(r: Result<ConfigDialect, Error>, ext: Option<Seq<char>>) -> bool {
    match ext {
        Some(ext) => if ext == "json"@ {
            r matches Ok(d) && d == ConfigDialect::JSON
        } else if ext == "yaml"@ {
            r matches Ok(d) && d == ConfigDialect::YAML
        } else {
            r matches Err(Error::UnknownExtension(m)) && m@ == ext
        },
        None => r matches Err(Error::MissingExtension),
    }
}

/// The dialect that an extension stands for.
pub fn dialect_for(ext: Option<&str>) -> (r: Result<ConfigDialect, Error>)
    ensures
        dialect_is(r, match ext {
            Some(ext) => Some(ext@),
            None => None,
        }),
{
    proof {
        reveal_strlit("json");
        reveal_strlit("yaml");
        assert("json"@[0] != "yaml"@[0]);
    }
    match ext {
        Some(ext) => if text::same(ext, "json") {
            Ok(ConfigDialect::JSON)
        } else if text::same(ext, "yaml") {
            Ok(ConfigDialect::YAML)
        } else {
            Err(Error::UnknownExtension(ext.to_owned()))
        },
        None => Err(Error::MissingExtension),
    }
}

/// The name of the file at the end of a path: what follows its last slash, if that is a name.
pub open spec fn file_name_of(path: Seq<char>) -> Option<Seq<char>> {
    let path = text::trimmed_end(path);
    let name = match text::after_last(path, '/') {
        Some(name) => name,
        None => path,
    };
    if name.len() == 0 || name == "."@ || name == ".."@ {
        None
    } else {
        Some(name)
    }
}

/// The extension of the file at the end of a path: what follows the last dot of its name, unless
/// that dot is where the name starts.
pub open spec fn extension_of(path: Seq<char>) -> Option<Seq<char>> {
    match file_name_of(path) {
        Some(name) => match text::after_last(name, '.') {
            Some(ext) => if ext.len() + 1 == name.len() {
                None
            } else {
                Some(ext)
            },
            None => None,
        },
        None => None,
    }
}

/// The key means the same on all systems: it holds nothing that only some take for a separator.
pub open spec fn is_portable(key: Seq<char>) -> bool {
    !key.contains('\\') && !key.contains(':')
}

/// Calls `std::path::Path::extension`, which looks at the name at the end of a path. This is what
/// follows the last dot there; there is none if there is no name, or if the only dot is its first
/// character. Nothing is said of keys with backslashes and colons, which some systems take for
/// separators and others do not.
#[verifier::external_body]
fn path_extension(key: &str) -> (r: Option<String>)
    ensures
        is_portable(key@) ==> r.deep_view() == extension_of(key@),
{
    let ext = std::path::Path::new(key).extension()?;
    Some(ext.to_string_lossy().into_owned())
}

/// The dialect of a configuration, by the extension of its root's key.
pub fn dialect_of(key: &str) -> (r: Result<ConfigDialect, Error>)
    ensures
        is_portable(key@) ==> dialect_is(r, extension_of(key@)),
{
    match path_extension(key) {
        Some(ext) => dialect_for(Some(ext.as_str())),
        None => dialect_for(None),
    }
}

/// The key that a drop-in is found under.
pub open spec fn dropin_key(d: DropinSourceView) -> Seq<char> {
    match d.config_map_key_ref {
        Some(r) => r.key,
        None => d.secret_key_ref->0.key,
    }
}

/// The drop-in names a key.
pub open spec fn names_key(d: DropinSourceView) -> bool {
    d.config_map_key_ref is Some || d.secret_key_ref is Some
}

/// Source is a discriminator between a ConfigMap and a Secret.
#[derive(Debug, PartialEq)]
pub enum Source {
    /// A key of a ConfigMap.
    ConfigMap(ConfigMapKeySelector),
    /// A key of a Secret.
    Secret(SecretKeySelector),
}

/// Where a drop-in is: in the ConfigMap that it names, or else in the Secret.
pub fn source_of(d: &DropinSource) -> (r: Source)
    requires
        names_key(d@),
    ensures
        match r {
            Source::ConfigMap(r) => d@.config_map_key_ref == Some(r@),
            Source::Secret(r) => d@.config_map_key_ref is None && d@.secret_key_ref == Some(r@),
        },
{
    match &d.config_map_key_ref {
        Some(r) => Source::ConfigMap(r.dup()),
        None => Source::Secret(d.secret_key_ref.as_ref().unwrap().dup()),
    }
}

/// A place in a list of drop-ins, with the key that is there.
#[derive(Debug, PartialEq)]
pub struct Place {
    key: String,
    index: usize,
}

impl DeepView for Place {
    type V = (Seq<char>, usize);

    closed spec fn deep_view(&self) -> (Seq<char>, usize) {
        (self.key@, self.index)
    }
}

impl Ordered for Place {
    /// By key; the earlier place first where the keys are the same.
    open spec fn before(a: (Seq<char>, usize), b: (Seq<char>, usize)) -> bool {
        text::lt(a.0, b.0) || a.0 == b.0 && a.1 < b.1
    }

    proof fn before_irreflexive(a: (Seq<char>, usize)) {
        text::lt_irreflexive(a.0);
    }

    proof fn before_transitive(a: (Seq<char>, usize), b: (Seq<char>, usize), c: (Seq<char>, usize)) {
        if text::lt(a.0, b.0) && text::lt(b.0, c.0) {
            text::lt_transitive(a.0, b.0, c.0);
        }
    }

    proof fn before_total(a: (Seq<char>, usize), b: (Seq<char>, usize)) {
        text::lt_total(a.0, b.0);
    }

    fn is_before(&self, other: &Self) -> (r: bool) {
        text::less(self.key.as_str(), other.key.as_str()) || text::same(
            self.key.as_str(),
            other.key.as_str(),
        ) && self.index < other.index
    }
}

/// `order` lists every place of `dropins` once, by key; the earlier place first where the keys are
/// the same.
pub open spec fn in_key_order(dropins: Seq<DropinSourceView>, order: Seq<usize>) -> bool {
    &&& order.len() == dropins.len()
    &&& forall|i: int| 0 <= i < order.len() ==> #[trigger] order[i] < dropins.len()
    &&& forall|i: int, j: int|
        0 <= i < j < order.len() ==> Place::before(
            (dropin_key(dropins[#[trigger] order[i] as int]), order[i]),
            (dropin_key(dropins[#[trigger] order[j] as int]), order[j]),
        )
}

/// The order in which drop-ins are loaded and applied.
pub fn apply_order(dropins: &Vec<DropinSource>) -> (r: Vec<usize>)
    requires
        forall|i: int| 0 <= i < dropins@.len() ==> names_key(#[trigger] dropins.deep_view()[i]),
    ensures
        in_key_order(dropins.deep_view(), r@),
{
    let ghost all = dropins.deep_view();
    let mut places: Vec<Place> = Vec::new();
    let mut i: usize = 0;
    while i < dropins.len()
        invariant
            all == dropins.deep_view(),
            i <= dropins@.len(),
            forall|i: int| 0 <= i < dropins@.len() ==> names_key(#[trigger] all[i]),
            places@.len() == i,
            forall|j: int|
                0 <= j < i ==> #[trigger] places@[j].deep_view() == (dropin_key(all[j]), j as usize),
        decreases dropins.len() - i,
    {
        assert(names_key(all[i as int]));
        assert(all[i as int] == dropins@[i as int]@);
        let key = match &dropins[i].config_map_key_ref {
            Some(r) => r.key.dup(),
            None => dropins[i].secret_key_ref.as_ref().unwrap().key.dup(),
        };
        places.push(Place { key, index: i });
        i = i + 1;
    }
    let ghost given = places.deep_view();
    assert(forall|j: int| 0 <= j < given.len() ==> given[j] == (dropin_key(all[j]), j as usize));
    let sorted = sort::sort_dedup(places);
    let ghost s = sorted.deep_view();
    proof {
        sort::increasing_no_duplicates::<Place>(s);
        assert(given.no_duplicates());
        same_items_same_len(s, given);
    }
    let mut r: Vec<usize> = Vec::new();
    let mut k: usize = 0;
    while k < sorted.len()
        invariant
            s == sorted.deep_view(),
            k <= sorted@.len(),
            r@.len() == k,
            forall|j: int| 0 <= j < k ==> #[trigger] r@[j] == s[j].1,
        decreases sorted.len() - k,
    {
        assert(s[k as int] == sorted@[k as int].deep_view());
        r.push(sorted[k].index);
        k = k + 1;
    }
    assert forall|j: int| 0 <= j < r@.len() implies #[trigger] r@[j] < all.len() && s[j] == (
        dropin_key(all[r@[j] as int]),
        r@[j],
    ) by {
        assert(s.contains(s[j]));
        assert(given.contains(s[j]));
    }
    assert forall|i: int, j: int| 0 <= i < j < r@.len() implies Place::before(
        (dropin_key(all[#[trigger] r@[i] as int]), r@[i]),
        (dropin_key(all[#[trigger] r@[j] as int]), r@[j]),
    ) by {
        assert(Place::before(s[i], s[j]));
    }
    r
}

/// Two lists without repetition that hold the same values are equally long.
proof fn same_items_same_len<A>(a: Seq<A>, b: Seq<A>)
    requires
        a.no_duplicates(),
        b.no_duplicates(),
        sort::same_items(a, b),
    ensures
        a.len() == b.len(),
{
    a.unique_seq_to_set();
    b.unique_seq_to_set();
    assert(a.to_set() =~= b.to_set()) by {
        assert forall|x: A| #[trigger] a.to_set().contains(x) <==> b.to_set().contains(x) by {
            assert(a.contains(x) <==> b.contains(x));
        }
    }
}

/// There is only one order in which drop-ins are applied.
pub proof fn apply_order_unique(
    dropins: Seq<DropinSourceView>,
    a: Seq<usize>,
    b: Seq<usize>,
)
    requires
        in_key_order(dropins, a),
        in_key_order(dropins, b),
    ensures
        a == b,
{
    let pa = a.map_values(|i: usize| (dropin_key(dropins[i as int]), i));
    let pb = b.map_values(|i: usize| (dropin_key(dropins[i as int]), i));
    places_complete(dropins, a);
    places_complete(dropins, b);
    assert(sort::increasing::<Place>(pa)) by {
        assert forall|i: int, j: int| 0 <= i < j < pa.len() implies Place::before(
            #[trigger] pa[i],
            #[trigger] pa[j],
        ) by {
            let (x, y) = (a[i], a[j]);
        }
    }
    assert(sort::increasing::<Place>(pb)) by {
        assert forall|i: int, j: int| 0 <= i < j < pb.len() implies Place::before(
            #[trigger] pb[i],
            #[trigger] pb[j],
        ) by {
            let (x, y) = (b[i], b[j]);
        }
    }
    assert forall|p: (Seq<char>, usize)| #[trigger] pa.contains(p) <==> pb.contains(p) by {
        if pa.contains(p) {
            let i = choose|i: int| 0 <= i < pa.len() && pa[i] == p;
            assert(a[i] < dropins.len());
            assert(b.contains(a[i]));
            let j = choose|j: int| 0 <= j < b.len() && b[j] == a[i];
            assert(pb[j] == p);
        }
        if pb.contains(p) {
            let i = choose|i: int| 0 <= i < pb.len() && pb[i] == p;
            assert(b[i] < dropins.len());
            assert(a.contains(b[i]));
            let j = choose|j: int| 0 <= j < a.len() && a[j] == b[i];
            assert(pa[j] == p);
        }
    }
    sort::increasing_unique::<Place>(pa, pb);
    assert forall|i: int| 0 <= i < a.len() implies a[i] == b[i] by {
        assert(pa[i] == pb[i]);
    }
    assert(a =~= b);
}

/// Every drop-in has its place in the order.
pub proof fn places_complete(dropins: Seq<DropinSourceView>, order: Seq<usize>)
    requires
        in_key_order(dropins, order),
    ensures
        forall|i: usize| i < dropins.len() ==> #[trigger] order.contains(i),
        order.no_duplicates(),
{
    assert forall|i: int, j: int|
        0 <= i < order.len() && 0 <= j < order.len() && i != j implies order[i] != order[j] by {
        text::lt_irreflexive(dropin_key(dropins[order[i] as int]));
        if i < j {
            let (x, y) = (order[i], order[j]);
        } else {
            let (x, y) = (order[j], order[i]);
        }
    }
    order.unique_seq_to_set();
    let n = dropins.len();
    let ints = order.map_values(|i: usize| i as int);
    let below = vstd::set_lib::set_int_range(0, n as int);
    vstd::set_lib::lemma_int_range(0, n as int);
    assert(ints.no_duplicates());
    ints.unique_seq_to_set();
    assert(ints.to_set().subset_of(below)) by {
        assert forall|x: int| #[trigger] ints.to_set().contains(x) implies below.contains(x) by {
            let k = choose|k: int| 0 <= k < ints.len() && ints[k] == x;
            assert(order[k] < dropins.len());
        }
    }
    vstd::set_lib::lemma_subset_equality(ints.to_set(), below);
    assert forall|i: usize| i < dropins.len() implies #[trigger] order.contains(i) by {
        assert(below.contains(i as int));
        assert(ints.to_set().contains(i as int));
        let k = choose|k: int| 0 <= k < ints.len() && ints[k] == i as int;
        assert(order[k] == i);
    }
}

/// Drop-ins with different keys are applied in the order in which a map of them is walked.
pub proof fn apply_order_follows_keys<A>(
    dropins: Seq<DropinSourceView>,
    order: Seq<usize>,
    m: Map<Seq<char>, A>,
)
    requires
        in_key_order(dropins, order),
        forall|i: int, j: int|
            0 <= i < j < dropins.len() ==> dropin_key(#[trigger] dropins[i]) != dropin_key(
                #[trigger] dropins[j],
            ),
        forall|k: Seq<char>| #[trigger]
            m.dom().contains(k) <==> exists|i: int|
                0 <= i < dropins.len() && dropin_key(#[trigger] dropins[i]) == k,
    ensures
        order.map_values(|i: usize| dropin_key(dropins[i as int])) == maps::sorted_keys(m),
{
    let keys = order.map_values(|i: usize| dropin_key(dropins[i as int]));
    places_complete(dropins, order);
    assert forall|i: int, j: int| 0 <= i < j < keys.len() implies String::before(
        #[trigger] keys[i],
        #[trigger] keys[j],
    ) by {
        let (x, y) = (order[i], order[j]);
        assert(x != y);
        if x < y {
            assert(dropin_key(dropins[x as int]) != dropin_key(dropins[y as int]));
        } else {
            assert(dropin_key(dropins[y as int]) != dropin_key(dropins[x as int]));
        }
    }
    assert forall|k: Seq<char>| #[trigger] keys.contains(k) <==> m.dom().contains(k) by {
        if keys.contains(k) {
            let i = choose|i: int| 0 <= i < keys.len() && keys[i] == k;
            assert(order[i] < dropins.len());
            assert(dropin_key(dropins[order[i] as int]) == k);
        }
        if m.dom().contains(k) {
            let i = choose|i: int|
                0 <= i < dropins.len() && dropin_key(#[trigger] dropins[i]) == k;
            order_fits(dropins, order);
            assert(order.contains(i as usize));
            let j = choose|j: int| 0 <= j < order.len() && order[j] == i as usize;
            assert(keys[j] == k);
        }
    }
    maps::sorted_keys_unique(keys, m);
}

/// There are no more places than numbers for them.
proof fn order_fits(dropins: Seq<DropinSourceView>, order: Seq<usize>)
    requires
        in_key_order(dropins, order),
    ensures
        order.len() <= usize::MAX + 1,
{
    places_complete(dropins, order);
    let ints = order.map_values(|i: usize| i as int);
    let all = vstd::set_lib::set_int_range(0, usize::MAX + 1);
    vstd::set_lib::lemma_int_range(0, usize::MAX + 1);
    assert(ints.no_duplicates());
    ints.unique_seq_to_set();
    assert(ints.to_set().subset_of(all)) by {
        assert forall|x: int| #[trigger] ints.to_set().contains(x) implies all.contains(x) by {
            let k = choose|k: int| 0 <= k < ints.len() && ints[k] == x;
        }
    }
    vstd::set_lib::lemma_len_subset(ints.to_set(), all);
}

/// The JSON of some bytes in a dialect, or what is wrong if they cannot be read.
pub open spec fn jsonified(buf: Seq<u8>, dialect: ConfigDialect) -> Result<Seq<u8>, Seq<char>> {
    match dialect {
        ConfigDialect::JSON => Ok(buf),
        ConfigDialect::YAML => json::parsed_yaml(buf),
    }
}

/// Bytes are not JSON, and that is what is wrong with them.
pub open spec fn json_fault(e: Error, words: Seq<char>) -> bool {
    e matches Error::JSON(err) && json::json_error_text(err) == words
}

/// Bytes are not YAML, and that is what is wrong with them.
pub open spec fn yaml_fault(e: Error, words: Seq<char>) -> bool {
    e matches Error::YAML(err) && json::yaml_error_text(err) == words
}

/// A change cannot be made, and that is what is wrong with it.
pub open spec fn patch_fault(e: Error, words: Seq<char>) -> bool {
    e matches Error::JSONPatch(err) && json::patch_error_text(err) == words
}

/// Why a drop-in cannot be applied to a document.
pub open spec fn dropin_fault(e: Error, doc: Seq<u8>, dropin: DropinView) -> bool {
    if dropin.is_patch {
        match json::parsed_patch(dropin.buf) {
            Ok(patch) => match json::patched(doc, patch) {
                Ok(_) => false,
                Err(words) => patch_fault(e, words),
            },
            Err(words) => json_fault(e, words),
        }
    } else {
        match json::parsed(dropin.buf) {
            Ok(_) => false,
            Err(words) => json_fault(e, words),
        }
    }
}

/// To_json returns the bytes jsonified.
pub fn to_json(buf: Vec<u8>, dialect: ConfigDialect) -> (r: Result<Vec<u8>, Error>)
    ensures
        match jsonified(buf@, dialect) {
            Ok(text) => r matches Ok(out) && out@ == text,
            Err(words) => r matches Err(e) && yaml_fault(e, words),
        },
{
    match dialect {
        ConfigDialect::JSON => Ok(buf),
        ConfigDialect::YAML => match json::parse_yaml(buf.as_slice()) {
            Ok(v) => match json::write(&v) {
                Ok(out) => Ok(out),
                Err(err) => Err(Error::JSON(err)),
            },
            Err(err) => Err(Error::YAML(err)),
        },
    }
}

/// The bytes under a key, and whether they hold changes.
pub open spec fn loaded(
    r: Result<(Vec<u8>, bool), Error>,
    found: Option<Seq<u8>>,
    key: Seq<char>,
) -> bool {
    match r {
        Ok((buf, is_patch)) => found == Some(buf@) && is_patch == names_patch(key),
        Err(e) => found is None && e is MissingKey,
    }
}

/// The bytes under a key of the first map that has it.
pub open spec fn first_of(
    texts: Option<KeyMap<String>>,
    blobs: Option<KeyMap<Vec<u8>>>,
    key: Seq<char>,
) -> Option<Seq<u8>> {
    if texts is Some && texts->0.lookup(key) is Some {
        texts->0.lookup(key)
    } else if blobs is Some {
        blobs->0.lookup(key)
    } else {
        None
    }
}

/// Returns the bytes of the referenced config and whether it should be interpreted as a patch or
/// not. The text values come first.
fn load(texts: &Option<KeyMap<String>>, blobs: &Option<KeyMap<Vec<u8>>>, key: &str) -> (r: Result<
    (Vec<u8>, bool),
    Error,
>)
    ensures
        loaded(r, first_of(*texts, *blobs, key@), key@),
{
    let is_patch = text::ends_with(key, "-patch");
    if let Some(map) = texts {
        if let Some(v) = map.value(key.to_owned()) {
            return Ok((v, is_patch));
        }
    }
    if let Some(map) = blobs {
        if let Some(v) = map.value(key.to_owned()) {
            return Ok((v, is_patch));
        }
    }
    Err(Error::MissingKey)
}

/// Returns the bytes of a config in a ConfigMap and whether it should be interpreted as a patch or
/// not.
pub fn load_config_map(cm: &ConfigMap, key: &str) -> (r: Result<(Vec<u8>, bool), Error>)
    ensures
        loaded(r, first_of(cm.data, cm.binary_data, key@), key@),
{
    load(&cm.data, &cm.binary_data, key)
}

/// Returns the bytes of a config in a Secret and whether it should be interpreted as a patch or
/// not.
pub fn load_secret(secret: &Secret, key: &str) -> (r: Result<(Vec<u8>, bool), Error>)
    ensures
        loaded(r, first_of(secret.string_data, secret.data, key@), key@),
{
    load(&secret.string_data, &secret.data, key)
}

/// A configuration while drop-ins are applied to it.
pub struct Composer {
    dialect: ConfigDialect,
    doc: Value,
}

impl Composer {
    /// The dialect that everything is written in.
    pub closed spec fn dialect(&self) -> ConfigDialect {
        self.dialect
    }

    /// The JSON text of the configuration so far.
    pub closed spec fn doc(&self) -> Seq<u8> {
        json::json_text(self.doc)
    }

    /// Starts with the root configuration.
    pub fn new(root: Vec<u8>, dialect: ConfigDialect) -> (r: Result<Composer, Error>)
        ensures
            match jsonified(root@, dialect) {
                Err(words) => r matches Err(e) && yaml_fault(e, words),
                Ok(buf) => match json::parsed(buf) {
                    Err(words) => r matches Err(e) && json_fault(e, words),
                    Ok(doc) => r matches Ok(c) && c.doc() == doc && c.dialect() == dialect,
                },
            },
    {
        let buf = match to_json(root, dialect) {
            Ok(buf) => buf,
            Err(err) => return Err(err),
        };
        match json::parse(buf.as_slice()) {
            Ok(doc) => Ok(Composer { dialect, doc }),
            Err(err) => Err(Error::JSON(err)),
        }
    }

    /// Applies one drop-in.
    pub fn apply(self, buf: Vec<u8>, is_patch: bool) -> (r: Result<Composer, Error>)
        ensures
            match jsonified(buf@, self.dialect()) {
                Err(words) => r matches Err(e) && yaml_fault(e, words),
                Ok(buf) => match applied(self.doc(), DropinView { buf, is_patch }) {
                    Some(doc) => r matches Ok(c) && c.doc() == doc && c.dialect()
                        == self.dialect(),
                    None => r matches Err(e) && dropin_fault(
                        e,
                        self.doc(),
                        DropinView { buf, is_patch },
                    ),
                },
            },
    {
        let dialect = self.dialect;
        let mut doc = self.doc;
        let buf = match to_json(buf, dialect) {
            Ok(buf) => buf,
            Err(err) => return Err(err),
        };
        if is_patch {
            let p = match json::parse_patch(buf.as_slice()) {
                Ok(p) => p,
                Err(err) => return Err(Error::JSON(err)),
            };
            match json::patch(&mut doc, &p) {
                Ok(_) => {},
                Err(err) => return Err(Error::JSONPatch(err)),
            }
        } else {
            let m = match json::parse(buf.as_slice()) {
                Ok(m) => m,
                Err(err) => return Err(Error::JSON(err)),
            };
            json::merge(&mut doc, &m);
        }
        Ok(Composer { dialect, doc })
    }

    /// The bytes of the configuration.
    pub fn finish(self) -> (r: Result<Vec<u8>, Error>)
        ensures
            r is Ok,
            r->Ok_0@ == self.doc(),
    {
        match json::write(&self.doc) {
            Ok(buf) => Ok(buf),
            Err(err) => Err(Error::JSON(err)),
        }
    }
}

/// Reads the validator's answer for one mode: its warnings, or what is wrong.
pub fn validate_config(exit: i32, out: &str) -> (r: Result<Vec<String>, String>)
    ensures
        match r {
            Ok(warnings) => exit == 0 && warnings.deep_view() == text::parts_from(out@, 0),
            Err(msg) => exit != 0 && msg@ == "some other error: "@ + out@ + " (exit code "@
                + text::signed_decimal(exit as int) + ")"@,
        },
{
    if exit == 0 {
        Ok(text::split_lines(out))
    } else {
        let code = text::show_signed(exit as i64);
        Err(text::cat5("some other error: ", out, " (exit code ", code.as_str(), ")"))
    }
}

} // verus!
