//! The parts of a Clair configuration, how they are put together, and what a validator says of the
//! result.

use json_patch::PatchError;
use serde_json::Error as JsonError;
use vstd::pervasive::unreached;
use vstd::prelude::*;
use vstd::utf8::encode_utf8;

use crate::json;
use crate::k8s::pod::{ConfigMap, Secret};
use crate::maps::{self, KeyMap};
use crate::model::Model;
use crate::text;

verus! {

/// Error enumerates the errors reported by this module.
#[derive(Debug)]
pub enum Error {
    /// Configuration is invalid for some reason.
    Invalid(String),
    /// Validation failed for some reason.
    Validation(String),
    /// JSON serialiization or deserialization error.
    JSON(JsonError),
    /// JSON Patch error.
    Patch(PatchError),
}

impl Error {
    fn invalid(msg: &str) -> (r: Error)
        ensures
            r matches Error::Invalid(m) && m@ == msg@,
    {
        Error::Invalid(msg.to_owned())
    }

    fn validation(msg: &str) -> (r: Error)
        ensures
            r matches Error::Validation(m) && m@ == msg@,
    {
        Error::Validation(msg.to_owned())
    }

    /// The sentence for people.
    pub fn message(&self) -> (r: String)
        ensures
            r@ == sentence(*self),
    {
        match self {
            Error::Invalid(msg) => text::cat("invalid ConfigSource: ", msg.as_str()),
            Error::Validation(msg) => text::cat("validation failure: ", msg.as_str()),
            Error::JSON(err) => text::cat("JSON error: ", json::describe(err).as_str()),
            Error::Patch(err) => text::cat(
                "json patch error: ",
                json::describe_patch(err).as_str(),
            ),
        }
    }
}

/// The sentence for people that goes with an error.
pub open spec fn sentence(e: Error) -> Seq<char> {
    match e {
        Error::Invalid(msg) => "invalid ConfigSource: "@ + msg@,
        Error::Validation(msg) => "validation failure: "@ + msg@,
        Error::JSON(err) => "JSON error: "@ + json::json_error_text(err),
        Error::Patch(err) => "json patch error: "@ + json::patch_error_text(err),
    }
}

/// The key is missing from where it was looked for.
pub open spec fn missing_key(e: Error, key: Seq<char>) -> bool {
    e matches Error::Invalid(m) && m@ == "missing key: "@ + key
}

/// A drop-in: its bytes, and whether they hold changes or a configuration to merge.
#[derive(Debug, PartialEq)]
pub struct Dropin {
    buf: Vec<u8>,
    is_patch: bool,
}

/// The value of a [`Dropin`].
pub ghost struct DropinView {
    pub buf: Seq<u8>,
    pub is_patch: bool,
}

impl DeepView for Dropin {
    type V = DropinView;

    closed spec fn deep_view(&self) -> DropinView {
        DropinView { buf: self.buf@, is_patch: self.is_patch }
    }
}

/// The bytes and the drop-ins of a configuration.
pub ghost struct PartsView {
    pub root: Seq<u8>,
    pub dropins: Map<Seq<char>, DropinView>,
}

/// The document after one drop-in, if it can be applied.
pub open spec fn applied(doc: Seq<u8>, dropin: DropinView) -> Option<Seq<u8>> {
    if dropin.is_patch {
        match json::parsed_patch(dropin.buf) {
            Ok(patch) => match json::patched(doc, patch) {
                Ok(after) => Some(after),
                Err(_) => None,
            },
            Err(_) => None,
        }
    } else {
        match json::parsed(dropin.buf) {
            Ok(other) => Some(json::merged(doc, other)),
            Err(_) => None,
        }
    }
}

/// The document after the drop-ins of the keys, one after the other.
pub open spec fn applied_all(
    doc: Seq<u8>,
    dropins: Map<Seq<char>, DropinView>,
    keys: Seq<Seq<char>>,
) -> Option<Seq<u8>>
    decreases keys.len(),
{
    if keys.len() == 0 {
        Some(doc)
    } else {
        match applied_all(doc, dropins, keys.drop_last()) {
            Some(before) => applied(before, dropins[keys.last()]),
            None => None,
        }
    }
}

impl PartsView {
    /// The configuration: the root, with all drop-ins applied in the order of their keys.
    pub open spec fn composed(self) -> Option<Seq<u8>> {
        match json::parsed(self.root) {
            Ok(doc) => applied_all(doc, self.dropins, maps::sorted_keys(self.dropins)),
            Err(_) => None,
        }
    }

    /// No drop-in stands in the way: the root is no JSON, or everything can be applied to it.
    pub open spec fn dropins_apply(self) -> bool {
        json::parsed(self.root) is Ok ==> self.composed() is Some
    }

    /// The drop-ins have an order: there is a list of all their keys, each once.
    pub open spec fn in_order(self) -> bool {
        maps::lists_keys(maps::sorted_keys(self.dropins), self.dropins)
    }
}

/// Parts is the loaded parts of a Clair config, converted to JSON form.
pub struct Parts {
    root: Vec<u8>,
    dropins: KeyMap<Dropin>,
}

impl View for Parts {
    type V = PartsView;

    closed spec fn view(&self) -> PartsView {
        PartsView { root: self.root@, dropins: self.dropins@ }
    }
}

/// The root is no JSON, and that is what is wrong with it.
pub open spec fn no_root(err: JsonError, parts: PartsView) -> bool {
    json::parsed(parts.root) == Err::<Seq<u8>, Seq<char>>(json::json_error_text(err))
}

/// Why parts could not be put together.
#[derive(Debug)]
enum Fault {
    Root(JsonError),
    Dropin,
}

impl Parts {
    /// The parts that a builder holds.
    pub fn from(b: Builder) -> (r: Parts)
        ensures
            r@ == b@,
    {
        Parts { root: b.root, dropins: b.dropins }
    }

    /// Puts the parts together, as far as they go.
    fn compose(&self) -> (r: Result<Vec<u8>, Fault>)
        ensures
            match r {
                Ok(buf) => self@.composed() == Some(buf@),
                Err(Fault::Root(err)) => no_root(err, self@),
                Err(Fault::Dropin) => json::parsed(self@.root) is Ok && self@.composed() is None,
            },
            self@.in_order(),
    {
        let n: usize = self.dropins.len();
        let mut doc = match json::parse(self.root.as_slice()) {
            Ok(doc) => doc,
            Err(err) => return Err(Fault::Root(err)),
        };
        let ghost first = json::json_text(doc);
        let ghost keys = maps::sorted_keys(self.dropins@);
        let mut i: usize = 0;
        assert(keys.take(0) =~= Seq::empty());
        while i < n
            invariant
                n == keys.len(),
                keys == maps::sorted_keys(self.dropins@),
                json::parsed(self@.root) == Ok::<Seq<u8>, Seq<char>>(first),
                self@.in_order(),
                i <= n,
                applied_all(first, self.dropins@, keys.take(i as int)) == Some(
                    json::json_text(doc),
                ),
            decreases n - i,
        {
            let (_, dropin) = self.dropins.at(i);
            let ghost before = json::json_text(doc);
            let ghost upto = keys.take(i as int + 1);
            assert(upto.drop_last() =~= keys.take(i as int));
            assert(upto.last() == keys[i as int]);
            let ok = dropin.apply(&mut doc);
            if !ok {
                proof {
                    applied_all_stops(first, self.dropins@, keys, i as int + 1);
                }
                return Err(Fault::Dropin);
            }
            i = i + 1;
        }
        assert(keys.take(n as int) =~= keys);
        match json::write(&doc) {
            Ok(buf) => Ok(buf),
            Err(err) => Err(Fault::Root(err)),
        }
    }

    /// The bytes of the configuration that the parts make up.
    pub fn render(&self) -> (r: Result<Vec<u8>, Error>)
        requires
            self@.dropins_apply(),
        ensures
            match r {
                Ok(buf) => self@.composed() == Some(buf@),
                Err(e) => e matches Error::JSON(err) && no_root(err, self@),
            },
            self@.in_order(),
    {
        match self.compose() {
            Ok(buf) => Ok(buf),
            Err(Fault::Root(err)) => Err(Error::JSON(err)),
            Err(Fault::Dropin) => unreached(),
        }
    }

    /// Like [`Parts::render`], for parts that may hold a drop-in that cannot be applied: there is
    /// no result for those.
    pub fn try_render(&self) -> (r: Option<Result<Vec<u8>, Error>>)
        ensures
            match r {
                Some(Ok(buf)) => self@.composed() == Some(buf@),
                Some(Err(e)) => e matches Error::JSON(err) && no_root(err, self@),
                None => !self@.dropins_apply(),
            },
            self@.in_order(),
    {
        match self.compose() {
            Err(Fault::Dropin) => None,
            _ => Some(self.render()),
        }
    }
}

/// Once a drop-in cannot be applied, nothing after it helps.
proof fn applied_all_stops(
    doc: Seq<u8>,
    dropins: Map<Seq<char>, DropinView>,
    keys: Seq<Seq<char>>,
    n: int,
)
    requires
        0 <= n <= keys.len(),
        applied_all(doc, dropins, keys.take(n)) is None,
    ensures
        applied_all(doc, dropins, keys) is None,
    decreases keys.len() - n,
{
    if n == keys.len() {
        assert(keys.take(n) =~= keys);
    } else {
        assert(keys.take(n + 1).drop_last() =~= keys.take(n));
        applied_all_stops(doc, dropins, keys, n + 1);
    }
}

impl Dropin {
    /// Applies the drop-in to a document and reports whether that was possible.
    fn apply(&self, doc: &mut serde_json::Value) -> (r: bool)
        ensures
            match applied(json::json_text(*old(doc)), self.deep_view()) {
                Some(after) => r && json::json_text(*final(doc)) == after,
                None => !r,
            },
    {
        if self.is_patch {
            match json::parse_patch(self.buf.as_slice()) {
                Ok(p) => match json::patch(doc, &p) {
                    Ok(_) => true,
                    Err(_) => false,
                },
                Err(_) => false,
            }
        } else {
            match json::parse(self.buf.as_slice()) {
                Ok(m) => {
                    json::merge(doc, &m);
                    true
                },
                Err(_) => false,
            }
        }
    }
}

/// Builder constructs all the root and dropins for a configuration.
pub struct Builder {
    root: Vec<u8>,
    dropins: KeyMap<Dropin>,
}

impl View for Builder {
    type V = PartsView;

    closed spec fn view(&self) -> PartsView {
        PartsView { root: self.root@, dropins: self.dropins@ }
    }
}

/// A key that holds changes, by its name.
pub open spec fn names_patch(key: Seq<char>) -> bool {
    text::has_suffix(key, "-patch"@)
}

/// The bytes of the root configuration: those of the text values, if there are any.
pub open spec fn root_bytes(v: crate::k8s::pod::ConfigMapView, key: Seq<char>) -> Option<Seq<u8>> {
    match (v.data, v.binary_data) {
        (Some(map), _) => if map.dom().contains(key) {
            Some(encode_utf8(map[key]))
        } else {
            None
        },
        (None, Some(map)) => if map.dom().contains(key) {
            Some(map[key])
        } else {
            None
        },
        (None, None) => None,
    }
}

impl Builder {
    /// From_root constructs a Builder starting with the root config.
    pub fn from_root(v: &ConfigMap, key: &str) -> (r: Result<Self, Error>)
        requires
            v@.data is Some || v@.binary_data is Some,
        ensures
            match r {
                Ok(b) => root_bytes(v@, key@) == Some(b@.root) && b@.dropins == Map::<
                    Seq<char>,
                    DropinView,
                >::empty(),
                Err(e) => root_bytes(v@, key@) is None && missing_key(e, key@),
            },
    {
        let root = if let Some(map) = &v.data {
            map.value(key.to_owned())
        } else if let Some(map) = &v.binary_data {
            map.value(key.to_owned())
        } else {
            None
        };
        match root {
            Some(root) => Ok(Builder { root, dropins: KeyMap::new() }),
            None => Err(Error::invalid(text::cat("missing key: ", key).as_str())),
        }
    }

    /// Add adds a dropin.
    pub fn add<M: K8sMap>(self, map: M, key: &str) -> (r: Result<Self, Error>)
        ensures
            match r {
                Ok(b) => {
                    &&& map.lookup(key@) is Some
                    &&& b@ == (PartsView {
                        root: self@.root,
                        dropins: self@.dropins.insert(
                            key@,
                            DropinView { buf: map.lookup(key@)->0, is_patch: names_patch(key@) },
                        ),
                    })
                },
                Err(e) => map.lookup(key@) is None && missing_key(e, key@),
            },
    {
        let is_patch = text::ends_with(key, "-patch");
        let buf = match map.value(key.to_owned()) {
            Some(buf) => buf,
            None => return Err(Error::invalid(text::cat("missing key: ", key).as_str())),
        };
        let mut dropins = self.dropins;
        dropins.insert(key.to_owned(), Dropin { buf, is_patch });
        Ok(Builder { root: self.root, dropins })
    }
}

/// The order in which drop-ins with different keys are added does not matter.
pub proof fn additions_commute(
    before: PartsView,
    key: Seq<char>,
    dropin: DropinView,
    other_key: Seq<char>,
    other: DropinView,
)
    requires
        key != other_key,
    ensures
        before.dropins.insert(key, dropin).insert(other_key, other) == before.dropins.insert(
            other_key,
            other,
        ).insert(key, dropin),
{
    assert(before.dropins.insert(key, dropin).insert(other_key, other) =~= before.dropins.insert(
        other_key,
        other,
    ).insert(key, dropin));
}

/// Without drop-ins, the configuration is the root.
pub proof fn root_alone(parts: PartsView)
    requires
        parts.dropins == Map::<Seq<char>, DropinView>::empty(),
    ensures
        match json::parsed(parts.root) {
            Ok(doc) => parts.composed() == Some(doc),
            Err(_) => parts.composed() is None,
        },
        parts.dropins_apply(),
{
    let none = Seq::<Seq<char>>::empty();
    assert(maps::lists_keys(none, parts.dropins));
    maps::sorted_keys_unique(none, parts.dropins);
}

/// Sealed keeps [`K8sMap`] to the map-types of this library.
pub trait Sealed {

}

/// K8sMap is a k8s map-type: a ConfigMap or a Secret.
pub trait K8sMap: Sealed {
    /// The bytes that a key holds.
    spec fn lookup(&self, key: Seq<char>) -> Option<Seq<u8>>;

    /// Value returns the value for the key.
    fn value(&self, key: String) -> (r: Option<Vec<u8>>)
        ensures
            match r {
                Some(buf) => self.lookup(key@) == Some(buf@),
                None => self.lookup(key@) is None,
            },
    ;
}

impl Sealed for KeyMap<String> {

}

impl K8sMap for KeyMap<String> {
    open spec fn lookup(&self, key: Seq<char>) -> Option<Seq<u8>> {
        if self@.dom().contains(key) {
            Some(encode_utf8(self@[key]))
        } else {
            None
        }
    }

    fn value(&self, key: String) -> (r: Option<Vec<u8>>) {
        match self.get(key.as_str()) {
            Some(v) => Some(v.as_str().as_bytes_vec()),
            None => None,
        }
    }
}

impl Sealed for KeyMap<Vec<u8>> {

}

impl K8sMap for KeyMap<Vec<u8>> {
    open spec fn lookup(&self, key: Seq<char>) -> Option<Seq<u8>> {
        if self@.dom().contains(key) {
            Some(self@[key])
        } else {
            None
        }
    }

    fn value(&self, key: String) -> (r: Option<Vec<u8>>) {
        match self.get(key.as_str()) {
            Some(v) => {
                let buf = v.dup();
                assert(buf@ =~= buf.deep_view());
                Some(buf)
            },
            None => None,
        }
    }
}

impl Sealed for ConfigMap {

}

impl K8sMap for ConfigMap {
    /// Text values come first.
    open spec fn lookup(&self, key: Seq<char>) -> Option<Seq<u8>> {
        if self.data is Some && self.data->0.lookup(key) is Some {
            self.data->0.lookup(key)
        } else if self.binary_data is Some {
            self.binary_data->0.lookup(key)
        } else {
            None
        }
    }

    fn value(&self, key: String) -> (r: Option<Vec<u8>>) {
        if let Some(data) = &self.data {
            if let Some(buf) = data.value(key.dup()) {
                return Some(buf);
            }
        }
        if let Some(data) = &self.binary_data {
            if let Some(buf) = data.value(key) {
                return Some(buf);
            }
        }
        None
    }
}

impl Sealed for Secret {

}

impl K8sMap for Secret {
    open spec fn lookup(&self, key: Seq<char>) -> Option<Seq<u8>> {
        if self.data is Some {
            self.data->0.lookup(key)
        } else {
            None
        }
    }

    fn value(&self, key: String) -> (r: Option<Vec<u8>>) {
        match &self.data {
            Some(data) => data.value(key),
            None => None,
        }
    }
}

impl<M: K8sMap> Sealed for &M {

}

impl<M: K8sMap> K8sMap for &M {
    open spec fn lookup(&self, key: Seq<char>) -> Option<Seq<u8>> {
        (**self).lookup(key)
    }

    fn value(&self, key: String) -> (r: Option<Vec<u8>>) {
        (**self).value(key)
    }
}

/// Validate reports results for all the Clair operating modes.
///
/// The "updater" mode is not implemented in the upstream config module yet.
#[derive(Debug)]
pub struct Validate {
    /// Result for validating for the "indexer" mode.
    pub indexer: Result<Warnings, Error>,
    /// Result for validating for the "matcher" mode.
    pub matcher: Result<Warnings, Error>,
    /// Result for validating for the "notifier" mode.
    pub notifier: Result<Warnings, Error>,
    /// Result for validating for the "updater" mode.
    ///
    /// *NB* Unimplemented.
    pub updater: Result<Warnings, Error>,
}

/// What the validator gave for one mode: its exit code and what it wrote.
pub struct Run {
    /// Zero if the configuration can be used.
    pub exit: i32,
    /// Warnings, or what is wrong.
    pub out: String,
}

/// The validator's answer for one mode. Everything but the exit code zero is a failure.
pub open spec fn answers(r: Result<Warnings, Error>, mode: Seq<char>, run: Run) -> bool {
    match r {
        Ok(w) => run.exit == 0 && w@ == (WarningsView { mode, out: run.out@ }),
        Err(e) => run.exit != 0 && (e matches Error::Validation(m) && m@ == run.out@
            + " (exit code "@ + text::signed_decimal(run.exit as int) + ")"@),
    }
}

/// Reads the validator's answer for one mode.
pub fn validation_result(mode: &str, run: Run) -> (r: Result<Warnings, Error>)
    ensures
        answers(r, mode@, run),
{
    if run.exit == 0 {
        Ok(Warnings { mode: mode.to_owned(), out: run.out })
    } else {
        let code = text::show_signed(run.exit as i64);
        Err(
            Error::validation(
                text::cat4(run.out.as_str(), " (exit code ", code.as_str(), ")").as_str(),
            ),
        )
    }
}

impl Validate {
    /// Collects the validator's answers for every mode.
    pub fn new(indexer: Run, matcher: Run, notifier: Run, updater: Run) -> (r: Validate)
        ensures
            answers(r.indexer, "indexer"@, indexer),
            answers(r.matcher, "matcher"@, matcher),
            answers(r.notifier, "notifier"@, notifier),
            answers(r.updater, "updater"@, updater),
    {
        Validate {
            indexer: validation_result("indexer", indexer),
            matcher: validation_result("matcher", matcher),
            notifier: validation_result("notifier", notifier),
            updater: validation_result("updater", updater),
        }
    }
}

/// Warnings is the non-fatal warnings produced by the validator.
#[derive(Debug)]
pub struct Warnings {
    mode: String,
    out: String,
}

/// The value of some [`Warnings`].
pub ghost struct WarningsView {
    pub mode: Seq<char>,
    pub out: Seq<char>,
}

impl View for Warnings {
    type V = WarningsView;

    closed spec fn view(&self) -> WarningsView {
        WarningsView { mode: self.mode@, out: self.out@ }
    }
}

/// The lines, each after a tab and with a line feed.
pub open spec fn indented(lines: Seq<Seq<char>>) -> Seq<char>
    decreases lines.len(),
{
    if lines.len() == 0 {
        Seq::empty()
    } else {
        indented(lines.drop_last()) + "\t"@ + lines.last() + "\n"@
    }
}

/// The lines, each after a tab and with a line feed, behind a first line.
fn indent(head: &str, lines: &Vec<String>) -> (r: String)
    ensures
        r@ == head@ + indented(lines.deep_view()),
{
    let ghost all = lines.deep_view();
    let mut out = head.to_owned();
    let mut i: usize = 0;
    assert(all.take(0) =~= Seq::empty());
    assert(head@ + indented(all.take(0)) =~= head@);
    while i < lines.len()
        invariant
            i <= lines@.len(),
            all == lines.deep_view(),
            out@ == head@ + indented(all.take(i as int)),
        decreases lines.len() - i,
    {
        assert(all.take(i as int + 1).drop_last() =~= all.take(i as int));
        out.append("\t");
        out.append(lines[i].as_str());
        out.append("\n");
        i = i + 1;
        assert(out@ =~= head@ + indented(all.take(i as int)));
    }
    assert(all.take(i as int) =~= all);
    out
}

impl WarningsView {
    /// The warnings for people, one to a line.
    pub open spec fn text(self) -> Seq<char> {
        "warnings ("@ + self.mode + " mode):\n"@ + indented(text::lines_of(self.out))
    }

    /// The warnings in one piece. What takes more than 256 bytes is cut to 253 characters.
    pub open spec fn summary(self) -> Seq<char> {
        let start = "warnings("@ + self.mode + "): "@;
        if encode_utf8(self.out).len() > 256 {
            start + text::at_most(self.out, 253) + "..."@
        } else {
            start + text::at_most(self.out, 256)
        }
    }
}

impl Warnings {
    /// The warnings for people, one to a line.
    pub fn display(&self) -> (r: String)
        ensures
            r@ == self@.text(),
    {
        let head = text::cat3("warnings (", self.mode.as_str(), " mode):\n");
        indent(head.as_str(), &text::lines(self.out.as_str()))
    }

    /// The warnings in one piece, cut if they are long.
    pub fn debug(&self) -> (r: String)
        ensures
            r@ == self@.summary(),
    {
        let start = text::cat3("warnings(", self.mode.as_str(), "): ");
        if self.out.as_str().as_bytes().len() > 256 {
            text::cat3(start.as_str(), text::truncate(self.out.as_str(), 253), "...")
        } else {
            text::cat(start.as_str(), text::truncate(self.out.as_str(), 256))
        }
    }
}

/// Formats warnings, one to a line.
pub fn fmt_warnings(v: &Vec<String>) -> (r: String)
    ensures
        r@ == "warnings:\n"@ + indented(v.deep_view()),
{
    indent("warnings:\n", v)
}

} // verus!
