//! Webhook decides on changes to the objects of the Clair API before they are made.

use vstd::prelude::*;

use crate::compose::ConfigDialect;
use crate::config::{self, sentence, Builder, DropinView, K8sMap, PartsView, Sealed, Validate,
    Warnings};
use crate::k8s::pod::{ConfigMap, Secret};
use crate::model::{none, one, push, Model};
use crate::resource::{self, Resource};
use crate::text;
use crate::v1alpha1::{
    wanted_dropins, Clair, ClairSpec, ClairSpecView, ClairView, ConfigMapKeySelectorView,
    ConfigSource, ConfigSourceView, DropinSourceView, Indexer, IndexerView,
};

verus! {

/// The operation that is asked for.
#[derive(Clone, Copy, Debug, PartialEq, Eq, Structural)]
pub enum Operation {
    /// An object is to be created.
    Create,
    /// An object is to be changed.
    Update,
    /// An object is to be deleted.
    Delete,
    /// Someone wants to connect to an object.
    Connect,
}

impl DeepView for Operation {
    type V = Operation;

    open spec fn deep_view(&self) -> Operation {
        *self
    }
}

impl Model for Operation {
    fn dup(&self) -> (r: Self) {
        *self
    }

    fn same(&self, other: &Self) -> (r: bool) {
        *self == *other
    }
}

/// A string that is to be put into an object.
#[derive(Debug, PartialEq)]
pub struct Addition {
    /// Where it goes.
    pub path: String,
    /// What it is.
    pub value: String,
}

/// The value of an [`Addition`].
pub ghost struct AdditionView {
    pub path: Seq<char>,
    pub value: Seq<char>,
}

impl DeepView for Addition {
    type V = AdditionView;

    open spec fn deep_view(&self) -> AdditionView {
        AdditionView {
            path: self.path.deep_view(),
            value: self.value.deep_view(),
        }
    }
}

impl View for Addition {
    type V = AdditionView;

    open spec fn view(&self) -> AdditionView {
        self.deep_view()
    }
}

impl Model for Addition {
    fn dup(&self) -> (r: Self) {
        Addition {
            path: self.path.dup(),
            value: self.value.dup(),
        }
    }

    fn same(&self, other: &Self) -> (r: bool) {
        self.path.same(&other.path)
            && self.value.same(&other.value)
    }
}

/// What is answered.
#[derive(Debug, PartialEq)]
pub struct Response {
    /// The request that is answered.
    pub uid: String,
    /// Whether the operation may go on.
    pub allowed: bool,
    /// A sentence for people, if it may not.
    pub message: String,
    /// A word for why, if there was no proper request.
    pub reason: String,
    /// Sentences for people, whether it may or not.
    pub warnings: Option<Vec<String>>,
    /// What to put into the object first.
    pub additions: Option<Vec<Addition>>,
}

/// The value of a [`Response`].
pub ghost struct ResponseView {
    pub uid: Seq<char>,
    pub allowed: bool,
    pub message: Seq<char>,
    pub reason: Seq<char>,
    pub warnings: Option<Seq<Seq<char>>>,
    pub additions: Option<Seq<AdditionView>>,
}

impl DeepView for Response {
    type V = ResponseView;

    open spec fn deep_view(&self) -> ResponseView {
        ResponseView {
            uid: self.uid.deep_view(),
            allowed: self.allowed.deep_view(),
            message: self.message.deep_view(),
            reason: self.reason.deep_view(),
            warnings: self.warnings.deep_view(),
            additions: self.additions.deep_view(),
        }
    }
}

impl View for Response {
    type V = ResponseView;

    open spec fn view(&self) -> ResponseView {
        self.deep_view()
    }
}

impl Model for Response {
    fn dup(&self) -> (r: Self) {
        Response {
            uid: self.uid.dup(),
            allowed: self.allowed.dup(),
            message: self.message.dup(),
            reason: self.reason.dup(),
            warnings: self.warnings.dup(),
            additions: self.additions.dup(),
        }
    }

    fn same(&self, other: &Self) -> (r: bool) {
        self.uid.same(&other.uid)
            && self.allowed.same(&other.allowed)
            && self.message.same(&other.message)
            && self.reason.same(&other.reason)
            && self.warnings.same(&other.warnings)
            && self.additions.same(&other.additions)
    }
}

impl ResponseView {
    /// The answer that allows what a request asks for.
    pub open spec fn allow(uid: Seq<char>) -> ResponseView {
        ResponseView {
            uid,
            allowed: true,
            message: Seq::empty(),
            reason: Seq::empty(),
            warnings: None,
            additions: None,
        }
    }

    /// The answer that denies what a request asks for.
    pub open spec fn denied(self, message: Seq<char>) -> ResponseView {
        ResponseView { allowed: false, message, ..self }
    }

    /// The answer to what is no proper request.
    pub open spec fn bad_request(message: Seq<char>) -> ResponseView {
        ResponseView {
            uid: Seq::empty(),
            allowed: false,
            message,
            reason: "InvalidRequest"@,
            warnings: None,
            additions: None,
        }
    }
}

impl Response {
    /// Allows what a request asks for.
    pub fn from(uid: &str) -> (r: Response)
        ensures
            r@ == ResponseView::allow(uid@),
    {
        Response {
            uid: uid.to_owned(),
            allowed: true,
            message: String::new(),
            reason: String::new(),
            warnings: None,
            additions: None,
        }
    }

    /// Denies what a request asks for.
    pub fn deny(self, message: &str) -> (r: Response)
        ensures
            r@ == self@.denied(message@),
    {
        Response { allowed: false, message: message.to_owned(), ..self }
    }

    /// Answers what is no proper request.
    pub fn invalid(message: &str) -> (r: Response)
        ensures
            r@ == ResponseView::bad_request(message@),
    {
        Response {
            uid: String::new(),
            allowed: false,
            message: message.to_owned(),
            reason: "InvalidRequest".to_owned(),
            warnings: None,
            additions: None,
        }
    }
}

/// The operation leaves an object behind that has to be right.
pub open spec fn writes(op: Operation) -> bool {
    op == Operation::Create || op == Operation::Update
}

/// Reports whether the operation leaves an object behind that has to be right.
fn is_write(op: Operation) -> (r: bool)
    ensures
        r == writes(op),
{
    op == Operation::Create || op == Operation::Update
}

/// A drop-in refers to nothing.
pub open spec fn lacks_ref(d: DropinSourceView) -> bool {
    d.config_map_key_ref is None && d.secret_key_ref is None
}

/// The place of the first drop-in from `i` on that refers to nothing, or the end.
pub open spec fn bad_dropin(dropins: Seq<DropinSourceView>, i: int) -> int
    decreases dropins.len() - i,
{
    if i >= dropins.len() || lacks_ref(dropins[i]) {
        i
    } else {
        bad_dropin(dropins, i + 1)
    }
}

/// What is wrong with the fields of a spec that must be provided.
pub open spec fn required_fault(spec: ClairSpecView) -> Option<Seq<char>> {
    if spec.databases is None {
        Some("field \"/spec/databases\" must be provided"@)
    } else if spec.notifier == Some(true) && spec.databases->0.notifier is None {
        Some("field \"/spec/notifier\" is set but \"/spec/databases/notifier\" is not"@)
    } else {
        None
    }
}

/// What is wrong with a spec.
pub open spec fn spec_fault(spec: ClairSpecView, image_required: bool) -> Option<Seq<char>> {
    if image_required && spec.image is None {
        Some("field \"/spec/image\" must be provided"@)
    } else if required_fault(spec) is Some {
        required_fault(spec)
    } else if bad_dropin(spec.dropins, 0) < spec.dropins.len() {
        Some(
            "invalid dropin at index "@ + text::decimal(bad_dropin(spec.dropins, 0) as nat)
                + ": no ref specified"@,
        )
    } else {
        None
    }
}

/// Says what is wrong with the fields of a spec that must be provided.
pub fn check_required(op: Operation, spec: &ClairSpec) -> (r: Option<&'static str>)
    ensures
        match r {
            Some(msg) => writes(op) && required_fault(spec@) == Some(msg@),
            None => writes(op) ==> required_fault(spec@) is None,
        },
{
    if !is_write(op) {
        return None;
    }
    let db = match &spec.databases {
        Some(db) => db,
        None => return Some("field \"/spec/databases\" must be provided"),
    };
    if let Some(true) = spec.notifier {
        if db.notifier.is_none() {
            return Some("field \"/spec/notifier\" is set but \"/spec/databases/notifier\" is not");
        }
    }
    None
}

/// Says what is wrong with a change of the spec fields that (currently) cannot be changed after
/// creation.
pub fn check_immutable(
    op: Operation,
    prev: Option<ConfigDialect>,
    cur: Option<ConfigDialect>,
) -> (r: Option<&'static str>)
    ensures
        match r {
            Some(msg) => op == Operation::Update && prev != cur && msg@
                == "cannot change field \"/spec/configDialect\""@,
            None => op != Operation::Update || prev == cur,
        },
{
    if op != Operation::Update {
        return None;
    }
    let same = match (prev, cur) {
        (Some(a), Some(b)) => a == b,
        (None, None) => true,
        _ => false,
    };
    if same {
        None
    } else {
        Some("cannot change field \"/spec/configDialect\"")
    }
}

/// Says what is wrong with a spec.
pub fn check_spec(spec: &ClairSpec, image_required: bool) -> (r: Option<String>)
    ensures
        r.deep_view() == spec_fault(spec@, image_required),
{
    if image_required && spec.image.is_none() {
        return Some("field \"/spec/image\" must be provided".to_owned());
    }
    if let Some(msg) = check_required(Operation::Create, spec) {
        return Some(msg.to_owned());
    }
    let ghost all = spec@.dropins;
    let mut i: usize = 0;
    while i < spec.dropins.len()
        invariant
            all == spec@.dropins,
            i <= spec.dropins@.len(),
            bad_dropin(all, 0) == bad_dropin(all, i as int),
            required_fault(spec@) is None,
            !(image_required && spec@.image is None),
        decreases spec.dropins.len() - i,
    {
        assert(all[i as int] == spec.dropins@[i as int]@);
        let d = &spec.dropins[i];
        if d.config_map_key_ref.is_none() && d.secret_key_ref.is_none() {
            let index = text::show(i as u64);
            return Some(
                text::cat3("invalid dropin at index ", index.as_str(), ": no ref specified"),
            );
        }
        i = i + 1;
    }
    None
}

/// What to do about a change to a Clair instance.
#[derive(Debug, PartialEq)]
pub enum Review {
    /// Answer it.
    Answer(Response),
    /// Load that configuration, and go on.
    Load(ConfigSource),
}

/// The value of a [`Review`].
pub ghost enum ReviewView {
    Answer(ResponseView),
    Load(ConfigSourceView),
}

impl DeepView for Review {
    type V = ReviewView;

    open spec fn deep_view(&self) -> ReviewView {
        match self {
            Review::Answer(res) => ReviewView::Answer(res@),
            Review::Load(cfgsrc) => ReviewView::Load(cfgsrc@),
        }
    }
}

/// The configuration that an instance would have.
pub open spec fn next_config(c: ClairView) -> ConfigSourceView {
    ConfigSourceView {
        root: ConfigMapKeySelectorView {
            name: resource::any_name(c.metadata) + "-config"@,
            key: "config.json"@,
        },
        dropins: wanted_dropins(c.spec),
    }
}

/// The configuration that an instance would have.
pub fn next_config_of(c: &Clair) -> (r: ConfigSource)
    ensures
        r@ == next_config(c@),
{
    c.spec.with_root(text::cat(c.name_any().as_str(), "-config").as_str())
}

/// What to do about a change to a Clair instance: a spec that lacks something is denied.
pub open spec fn clair_review(uid: Seq<char>, op: Operation, cur: ClairView) -> ReviewView {
    if writes(op) && spec_fault(cur.spec, true) is Some {
        ReviewView::Answer(ResponseView::allow(uid).denied(spec_fault(cur.spec, true)->0))
    } else {
        ReviewView::Load(next_config(cur))
    }
}

/// Says what to do about a change to a Clair instance: a spec that lacks something is denied.
pub fn clair(uid: &str, op: Operation, cur: &Clair) -> (r: Review)
    ensures
        r.deep_view() == clair_review(uid@, op, cur@),
{
    if is_write(op) {
        if let Some(msg) = check_spec(&cur.spec, true) {
            return Review::Answer(Response::from(uid).deny(msg.as_str()));
        }
    }
    Review::Load(next_config_of(cur))
}

/// What to do about a change to a Clair instance whose dialect may be set.
pub open spec fn clair_change(
    uid: Seq<char>,
    op: Operation,
    cur: ClairView,
    prev_dialect: Option<ConfigDialect>,
    cur_dialect: Option<ConfigDialect>,
) -> ReviewView {
    if writes(op) && spec_fault(cur.spec, false) is Some {
        ReviewView::Answer(ResponseView::allow(uid).denied(spec_fault(cur.spec, false)->0))
    } else if op == Operation::Update && prev_dialect != cur_dialect {
        ReviewView::Answer(
            ResponseView::allow(uid).denied("cannot change field \"/spec/configDialect\""@),
        )
    } else {
        ReviewView::Load(next_config(cur))
    }
}

/// Says what to do about a change to a Clair instance whose dialect may be set: neither a spec that
/// lacks something nor a change of the dialect is allowed, but an image need not be given.
pub fn validate_v1alpha1_clair(
    uid: &str,
    op: Operation,
    cur: &Clair,
    prev_dialect: Option<ConfigDialect>,
    cur_dialect: Option<ConfigDialect>,
) -> (r: Review)
    ensures
        r.deep_view() == clair_change(uid@, op, cur@, prev_dialect, cur_dialect),
{
    if is_write(op) {
        if let Some(msg) = check_spec(&cur.spec, false) {
            return Review::Answer(Response::from(uid).deny(msg.as_str()));
        }
    }
    if let Some(msg) = check_immutable(op, prev_dialect, cur_dialect) {
        return Review::Answer(Response::from(uid).deny(msg));
    }
    Review::Load(next_config_of(cur))
}

/// Answers that a part of the configuration is not there.
pub fn no_such_config(uid: &str) -> (r: Response)
    ensures
        r@ == ResponseView::allow(uid@).denied("no such config: {name}"@),
{
    Response::from(uid).deny("no such config: {name}")
}

/// The answer to a configuration that lacks a key.
pub open spec fn key_missing(key: Seq<char>) -> ResponseView {
    ResponseView::bad_request("invalid ConfigSource: "@ + ("missing key: "@ + key))
}

/// Says how to go on once the root of a configuration was looked for.
pub fn root_loaded(uid: &str, root: &Option<ConfigMap>, key: &str) -> (r: Result<Builder, Response>)
    requires
        root matches Some(cm) ==> cm@.data is Some || cm@.binary_data is Some,
    ensures
        match root {
            None => r matches Err(res) && res@ == ResponseView::allow(uid@).denied(
                "no such config: {name}"@,
            ),
            Some(cm) => match config::root_bytes(cm@, key@) {
                Some(bytes) => r matches Ok(b) && b@ == (PartsView {
                    root: bytes,
                    dropins: Map::empty(),
                }),
                None => r matches Err(res) && res@ == key_missing(key@),
            },
        },
{
    let cm = match root {
        Some(cm) => cm,
        None => return Err(no_such_config(uid)),
    };
    match Builder::from_root(cm, key) {
        Ok(b) => Ok(b),
        Err(err) => Err(Response::invalid(err.message().as_str())),
    }
}

/// A ConfigMap or a Secret.
#[derive(Debug, PartialEq)]
pub enum Either {
    /// A ConfigMap.
    ConfigMap(ConfigMap),
    /// A Secret.
    Secret(Secret),
}

impl Sealed for Either {

}

impl K8sMap for Either {
    open spec fn lookup(&self, key: Seq<char>) -> Option<Seq<u8>> {
        match self {
            Either::ConfigMap(v) => v.lookup(key),
            Either::Secret(v) => v.lookup(key),
        }
    }

    fn value(&self, key: String) -> (r: Option<Vec<u8>>) {
        match self {
            Either::ConfigMap(v) => v.value(key),
            Either::Secret(v) => v.value(key),
        }
    }
}

/// The parts with drop-ins added, or the first key that is not there.
pub open spec fn with_all(parts: PartsView, ds: Seq<(Either, String)>) -> Result<
    PartsView,
    Seq<char>,
>
    decreases ds.len(),
{
    if ds.len() == 0 {
        Ok(parts)
    } else {
        match with_all(parts, ds.drop_last()) {
            Err(key) => Err(key),
            Ok(before) => {
                let (map, key) = ds.last();
                match map.lookup(key@) {
                    None => Err(key@),
                    Some(buf) => Ok(
                        PartsView {
                            root: before.root,
                            dropins: before.dropins.insert(
                                key@,
                                DropinView { buf, is_patch: config::names_patch(key@) },
                            ),
                        },
                    ),
                }
            },
        }
    }
}

/// Once a key is missing, nothing after it helps.
proof fn with_all_stops(parts: PartsView, ds: Seq<(Either, String)>, n: int)
    requires
        0 <= n <= ds.len(),
        with_all(parts, ds.take(n)) is Err,
    ensures
        with_all(parts, ds) == with_all(parts, ds.take(n)),
    decreases ds.len() - n,
{
    if n == ds.len() {
        assert(ds.take(n) =~= ds);
    } else {
        assert(ds.take(n + 1).drop_last() =~= ds.take(n));
        with_all_stops(parts, ds, n + 1);
    }
}

/// Says how to go on once all drop-ins were loaded.
pub fn dropins_loaded(builder: Builder, ds: &Vec<(Either, String)>) -> (r: Result<Builder, Response>)
    ensures
        match with_all(builder@, ds@) {
            Ok(parts) => r matches Ok(b) && b@ == parts,
            Err(key) => r matches Err(res) && res@ == key_missing(key),
        },
{
    let ghost start = builder@;
    let mut b = builder;
    let mut i: usize = 0;
    assert(ds@.take(0) =~= Seq::empty());
    while i < ds.len()
        invariant
            start == builder@,
            i <= ds@.len(),
            with_all(start, ds@.take(i as int)) == Ok::<PartsView, Seq<char>>(b@),
        decreases ds.len() - i,
    {
        assert(ds@.take(i as int + 1).drop_last() =~= ds@.take(i as int));
        assert(ds@.take(i as int + 1).last() == ds@[i as int]);
        let key = ds[i].1.as_str();
        let added = match &ds[i].0 {
            Either::ConfigMap(v) => b.add(v, key),
            Either::Secret(v) => b.add(v, key),
        };
        b = match added {
            Ok(b) => b,
            Err(err) => {
                proof {
                    with_all_stops(start, ds@, i as int + 1);
                }
                return Err(Response::invalid(err.message().as_str()));
            },
        };
        i = i + 1;
    }
    assert(ds@.take(i as int) =~= ds@);
    Ok(b)
}

/// What the results of a validation say, for each that failed.
pub open spec fn failure_is(r: Result<Warnings, config::Error>, text: Option<Seq<char>>) -> bool {
    match r {
        Ok(_) => text is None,
        Err(e) => text is Some && text->0 == sentence(e),
    }
}

/// What a result of a validation says, if it failed.
fn failure(r: &Result<Warnings, config::Error>) -> (s: Option<String>)
    ensures
        failure_is(*r, s.deep_view()),
{
    match r {
        Ok(_) => None,
        Err(e) => Some(e.message()),
    }
}

/// What the results of a validation say, for each that failed: those for the indexer, the matcher,
/// the notifier and the updater.
pub fn failures(v: &Validate) -> (r: Vec<Option<String>>)
    ensures
        r@.len() == 4,
        failure_is(v.indexer, r@[0].deep_view()),
        failure_is(v.matcher, r@[1].deep_view()),
        failure_is(v.notifier, r@[2].deep_view()),
        failure_is(v.updater, r@[3].deep_view()),
{
    let mut r: Vec<Option<String>> = Vec::new();
    r.push(failure(&v.indexer));
    r.push(failure(&v.matcher));
    r.push(failure(&v.notifier));
    r.push(failure(&v.updater));
    r
}

/// The sentences that are there.
pub open spec fn present(s: Seq<Option<Seq<char>>>) -> Seq<Seq<char>>
    decreases s.len(),
{
    if s.len() == 0 {
        Seq::empty()
    } else {
        match s.last() {
            Some(text) => present(s.drop_last()).push(text),
            None => present(s.drop_last()),
        }
    }
}

/// No more sentences are there than could be.
proof fn present_len(s: Seq<Option<Seq<char>>>)
    ensures
        present(s).len() <= s.len(),
        present(s).len() == s.len() <==> forall|i: int|
            0 <= i < s.len() ==> (#[trigger] s[i]) is Some,
    decreases s.len(),
{
    if s.len() > 0 {
        let t = s.drop_last();
        present_len(t);
        if forall|i: int| 0 <= i < s.len() ==> (#[trigger] s[i]) is Some {
            assert forall|i: int| 0 <= i < t.len() implies (#[trigger] t[i]) is Some by {
                assert(t[i] == s[i]);
            }
            assert(s[s.len() - 1] is Some);
        }
        if present(s).len() == s.len() {
            assert forall|i: int| 0 <= i < s.len() implies (#[trigger] s[i]) is Some by {
                if i < t.len() {
                    assert(t[i] == s[i]);
                }
            }
        }
    }
}

/// The answer to a change whose configuration was validated. What failed is a warning; only a
/// change of an instance with which no mode works is denied.
pub open spec fn concluded(
    uid: Seq<char>,
    op: Operation,
    failures: Seq<Option<Seq<char>>>,
) -> ResponseView {
    let warned = ResponseView {
        warnings: if present(failures).len() > 0 {
            Some(present(failures))
        } else {
            None
        },
        ..ResponseView::allow(uid)
    };
    if op == Operation::Update && present(failures).len() == failures.len() {
        warned.denied("configuration change is extremely invalid"@)
    } else {
        warned
    }
}

/// Answers a change whose configuration was validated.
pub fn conclude(uid: &str, op: Operation, failures: &Vec<Option<String>>) -> (r: Response)
    ensures
        r@ == concluded(uid@, op, failures.deep_view()),
{
    let ghost all = failures.deep_view();
    let mut warn: Vec<String> = none();
    let mut i: usize = 0;
    assert(all.take(0) =~= Seq::empty());
    while i < failures.len()
        invariant
            all == failures.deep_view(),
            i <= failures@.len(),
            warn.deep_view() == present(all.take(i as int)),
        decreases failures.len() - i,
    {
        assert(all.take(i as int + 1).drop_last() =~= all.take(i as int));
        assert(all.take(i as int + 1).last() == failures@[i as int].deep_view());
        if let Some(text) = &failures[i] {
            push(&mut warn, text.dup());
        }
        i = i + 1;
    }
    assert(all.take(i as int) =~= all);
    assert(warn.deep_view().len() == warn@.len());
    assert(all.len() == failures@.len());
    let hopeless = warn.len() == failures.len();
    let res = Response::from(uid);
    let res = if warn.len() > 0 {
        Response { warnings: Some(warn), ..res }
    } else {
        res
    };
    if hopeless && op == Operation::Update {
        res.deny("configuration change is extremely invalid")
    } else {
        res
    }
}

/// Every sentence is there.
proof fn present_contains(s: Seq<Option<Seq<char>>>, i: int)
    requires
        0 <= i < s.len(),
        s[i] is Some,
    ensures
        present(s).contains(s[i]->0),
    decreases s.len(),
{
    let t = s.drop_last();
    if i == t.len() {
        assert(present(s)[present(t).len() as int] == s[i]->0);
    } else {
        assert(t[i] == s[i]);
        present_contains(t, i);
        let k = choose|k: int| 0 <= k < present(t).len() && present(t)[k] == s[i]->0;
        assert(present(s)[k] == s[i]->0);
    }
}

/// A validated change is denied exactly if it is an update with which no mode works, and everything
/// that failed is among the warnings.
pub proof fn denied_only_if_hopeless(
    uid: Seq<char>,
    op: Operation,
    failures: Seq<Option<Seq<char>>>,
)
    ensures
        !concluded(uid, op, failures).allowed <==> op == Operation::Update && forall|i: int|
            0 <= i < failures.len() ==> (#[trigger] failures[i]) is Some,
        forall|i: int|
            0 <= i < failures.len() && (#[trigger] failures[i]) is Some ==> {
                let warnings = concluded(uid, op, failures).warnings;
                warnings is Some && warnings->0.contains(failures[i]->0)
            },
{
    present_len(failures);
    assert forall|i: int| 0 <= i < failures.len() && (#[trigger] failures[i]) is Some implies {
        let warnings = concluded(uid, op, failures).warnings;
        warnings is Some && warnings->0.contains(failures[i]->0)
    } by {
        present_contains(failures, i);
    }
}

/// What failed first, in the order in which the modes are looked at.
pub open spec fn first_of(failures: Seq<Option<Seq<char>>>, i: int) -> Option<Seq<char>>
    decreases failures.len() - i,
{
    if i >= failures.len() {
        None
    } else if failures[i] is Some {
        failures[i]
    } else {
        first_of(failures, i + 1)
    }
}

/// The answer to a change of which everything was checked: denied for the first thing that failed.
pub open spec fn strictly_concluded(
    uid: Seq<char>,
    failures: Seq<Option<Seq<char>>>,
) -> ResponseView {
    match first_of(failures, 0) {
        Some(text) => ResponseView::allow(uid).denied("validation failed: "@ + text),
        None => ResponseView::allow(uid),
    }
}

/// Says what failed first.
fn first_failure(failures: &Vec<Option<String>>) -> (r: Option<&String>)
    ensures
        match r {
            Some(text) => first_of(failures.deep_view(), 0) == Some(text@),
            None => first_of(failures.deep_view(), 0) is None,
        },
{
    let ghost all = failures.deep_view();
    let mut i: usize = 0;
    while i < failures.len()
        invariant
            all == failures.deep_view(),
            i <= failures@.len(),
            first_of(all, 0) == first_of(all, i as int),
        decreases failures.len() - i,
    {
        assert(all[i as int] == failures@[i as int].deep_view());
        if let Some(text) = &failures[i] {
            return Some(text);
        }
        i = i + 1;
    }
    None
}

/// Answers a change of which everything was checked.
pub fn conclude_strictly(uid: &str, failures: &Vec<Option<String>>) -> (r: Response)
    ensures
        r@ == strictly_concluded(uid@, failures.deep_view()),
{
    match first_failure(failures) {
        Some(text) => Response::from(uid).deny(
            text::cat("validation failed: ", text.as_str()).as_str(),
        ),
        None => Response::from(uid),
    }
}

/// What to answer to a request that is checked strictly, before its configuration is looked at.
pub open spec fn strict_review(
    uid: Seq<char>,
    op: Operation,
    spec: ClairSpecView,
    prev_dialect: Option<ConfigDialect>,
    cur_dialect: Option<ConfigDialect>,
) -> Option<ResponseView> {
    if writes(op) && required_fault(spec) is Some {
        Some(ResponseView::allow(uid).denied("validation failed: "@ + required_fault(spec)->0))
    } else if op == Operation::Update && prev_dialect != cur_dialect {
        Some(
            ResponseView::allow(uid).denied(
                "validation failed: "@ + "cannot change field \"/spec/configDialect\""@,
            ),
        )
    } else if op == Operation::Delete {
        Some(ResponseView::allow(uid))
    } else if op == Operation::Connect {
        Some(ResponseView::allow(uid).denied("verb CONNECT makes no sense"@))
    } else {
        None
    }
}

/// Says what to answer to a request that is checked strictly, before its configuration is looked
/// at: nothing, if that decides.
pub fn validate_inner(
    uid: &str,
    op: Operation,
    spec: &ClairSpec,
    prev_dialect: Option<ConfigDialect>,
    cur_dialect: Option<ConfigDialect>,
) -> (r: Option<Response>)
    ensures
        r.deep_view() == strict_review(uid@, op, spec@, prev_dialect, cur_dialect),
{
    if let Some(msg) = check_required(op, spec) {
        return Some(
            Response::from(uid).deny(text::cat("validation failed: ", msg).as_str()),
        );
    }
    if let Some(msg) = check_immutable(op, prev_dialect, cur_dialect) {
        return Some(
            Response::from(uid).deny(text::cat("validation failed: ", msg).as_str()),
        );
    }
    match op {
        Operation::Create | Operation::Update => None,
        Operation::Delete => Some(Response::from(uid)),
        Operation::Connect => Some(Response::from(uid).deny("verb CONNECT makes no sense")),
    }
}

/// The answer to a change to an indexer.
pub open spec fn indexer_answer(uid: Seq<char>, op: Operation, cur: IndexerView) -> ResponseView {
    if writes(op) && cur.spec.config is None {
        ResponseView::allow(uid).denied("missing configuration source \"/spec/config\""@)
    } else {
        ResponseView::allow(uid)
    }
}

/// Answers a change to an indexer: it has to have a configuration.
pub fn indexer(uid: &str, op: Operation, cur: &Indexer) -> (r: Response)
    ensures
        r@ == indexer_answer(uid@, op, cur@),
{
    let res = Response::from(uid);
    if is_write(op) && cur.spec.config.is_none() {
        res.deny("missing configuration source \"/spec/config\"")
    } else {
        res
    }
}

/// Answers a change to anything that is not looked at.
pub fn mutate_ok(uid: &str) -> (r: Response)
    ensures
        r@ == ResponseView::allow(uid@),
{
    Response::from(uid)
}

/// The answer to a request to set the image of a Clair instance that has none.
pub open spec fn image_default(
    uid: Seq<char>,
    cur: ClairView,
    default_image: Seq<char>,
) -> ResponseView {
    if cur.spec.image is None {
        ResponseView {
            additions: Some(seq![AdditionView { path: "/spec/image"@, value: default_image }]),
            ..ResponseView::allow(uid)
        }
    } else {
        ResponseView::allow(uid)
    }
}

/// Sets the default image for a Clair instance that has none.
pub fn mutate_clair_image(uid: &str, cur: &Clair, default_image: &str) -> (r: Response)
    ensures
        r@ == image_default(uid@, cur@, default_image@),
{
    let res = Response::from(uid);
    if cur.spec.image.is_none() {
        Response {
            additions: Some(
                one(
                    Addition {
                        path: "/spec/image".to_owned(),
                        value: default_image.to_owned(),
                    },
                ),
            ),
            ..res
        }
    } else {
        res
    }
}

/// The additions for a new instance: the dialect and the notifier have defaults.
pub open spec fn default_additions(
    dialect: Option<ConfigDialect>,
    notifier: Option<bool>,
) -> Seq<AdditionView> {
    let first = if dialect is None {
        seq![AdditionView { path: "/spec/configDialect"@, value: "json"@ }]
    } else {
        Seq::empty()
    };
    if notifier is None {
        first.push(AdditionView { path: "/spec/notifier"@, value: "false"@ })
    } else {
        first
    }
}

/// The warnings for a new instance: what defaults were set.
pub open spec fn default_warnings(
    dialect: Option<ConfigDialect>,
    notifier: Option<bool>,
) -> Seq<Seq<char>> {
    let first = if dialect is None {
        seq!["set /spec/configDialect to default `\"json\"`"@]
    } else {
        Seq::empty()
    };
    if notifier is None {
        first.push("set /spec/notifier to default `false`"@)
    } else {
        first
    }
}

/// The answer to a request to set defaults.
pub open spec fn mutated(
    uid: Seq<char>,
    op: Operation,
    dialect: Option<ConfigDialect>,
    notifier: Option<bool>,
) -> ResponseView {
    if op != Operation::Create {
        ResponseView::allow(uid)
    } else {
        ResponseView {
            warnings: if default_warnings(dialect, notifier).len() > 0 {
                Some(default_warnings(dialect, notifier))
            } else {
                None
            },
            additions: Some(default_additions(dialect, notifier)),
            ..ResponseView::allow(uid)
        }
    }
}

/// Mutate_clair sets defaults for Clair kinds.
pub fn mutate_clair(
    uid: &str,
    op: Operation,
    dialect: Option<ConfigDialect>,
    notifier: Option<bool>,
) -> (r: Response)
    ensures
        r@ == mutated(uid@, op, dialect, notifier),
{
    let res = Response::from(uid);
    if op != Operation::Create {
        return res;
    }
    let mut warnings: Vec<String> = none();
    let mut additions: Vec<Addition> = none();
    if dialect.is_none() {
        push(&mut warnings, "set /spec/configDialect to default `\"json\"`".to_owned());
        push(
            &mut additions,
            Addition { path: "/spec/configDialect".to_owned(), value: "json".to_owned() },
        );
    }
    if notifier.is_none() {
        push(&mut warnings, "set /spec/notifier to default `false`".to_owned());
        push(
            &mut additions,
            Addition { path: "/spec/notifier".to_owned(), value: "false".to_owned() },
        );
    }
    assert(warnings.deep_view() =~= default_warnings(dialect, notifier));
    assert(additions.deep_view() =~= default_additions(dialect, notifier));
    assert(warnings.deep_view().len() == warnings@.len());
    let warnings = if warnings.len() > 0 {
        Some(warnings)
    } else {
        None
    };
    Response { warnings, additions: Some(additions), ..res }
}

/// The kinds that are decided on.
#[derive(Clone, Copy, Debug, PartialEq, Eq, Structural)]
pub enum Kind {
    /// An installation of all components.
    Clair,
    /// The component that reads images.
    Indexer,
    /// The component that finds vulnerabilities.
    Matcher,
    /// The component that reports changes.
    Notifier,
    /// The component that fetches vulnerability data.
    Updater,
}

impl Kind {
    /// The name of the kind.
    pub open spec fn name(self) -> Seq<char> {
        match self {
            Kind::Clair => "Clair"@,
            Kind::Indexer => "Indexer"@,
            Kind::Matcher => "Matcher"@,
            Kind::Notifier => "Notifier"@,
            Kind::Updater => "Updater"@,
        }
    }

    /// The kind of a name, or what to answer if there is no such kind.
    pub fn find(k: &str) -> (r: Result<Kind, Response>)
        ensures
            match r {
                Ok(kind) => kind.name() == k@,
                Err(res) => {
                    &&& forall|kind: Kind| #[trigger] kind.name() != k@
                    &&& res@ == ResponseView::bad_request("unknown kind: "@ + k@)
                },
            },
    {
        if text::same(k, "Clair") {
            Ok(Kind::Clair)
        } else if text::same(k, "Indexer") {
            Ok(Kind::Indexer)
        } else if text::same(k, "Matcher") {
            Ok(Kind::Matcher)
        } else if text::same(k, "Notifier") {
            Ok(Kind::Notifier)
        } else if text::same(k, "Updater") {
            Ok(Kind::Updater)
        } else {
            Err(Response::invalid(text::cat("unknown kind: ", k).as_str()))
        }
    }
}

/// The kind is known, and none that anything is looked at for.
pub open spec fn is_passed(kind: Seq<char>) -> bool {
    kind == "Indexer"@ || kind == "Matcher"@ || kind == "Notifier"@ || kind == "Updater"@
}

/// The answer to a request about an unknown kind.
pub open spec fn kind_unknown(kind: Seq<char>) -> ResponseView {
    ResponseView::bad_request("unknown kind: "@ + kind)
}

/// Answers a request to set defaults for an object of any kind: only Clair kinds have some.
pub fn mutate_v1alpha1(
    uid: &str,
    kind: &str,
    op: Operation,
    dialect: Option<ConfigDialect>,
    notifier: Option<bool>,
) -> (r: Response)
    ensures
        r@ == (if kind@ == "Clair"@ {
            mutated(uid@, op, dialect, notifier)
        } else if is_passed(kind@) {
            ResponseView::allow(uid@)
        } else {
            kind_unknown(kind@)
        }),
{
    match Kind::find(kind) {
        Ok(Kind::Clair) => mutate_clair(uid, op, dialect, notifier),
        Ok(k) => {
            proof {
                names_differ(k);
            }
            mutate_ok(uid)
        },
        Err(res) => {
            proof {
                names_known(kind@);
            }
            res
        },
    }
}

/// Answers a request to validate an object of any kind but Clair: known kinds are allowed.
pub fn validate_v1alpha1(uid: &str, kind: &str) -> (r: Option<Response>)
    ensures
        r.deep_view() == (if kind@ == "Clair"@ {
            None
        } else if is_passed(kind@) {
            Some(ResponseView::allow(uid@))
        } else {
            Some(kind_unknown(kind@))
        }),
{
    match Kind::find(kind) {
        Ok(Kind::Clair) => None,
        Ok(k) => {
            proof {
                names_differ(k);
            }
            Some(mutate_ok(uid))
        },
        Err(res) => {
            proof {
                names_known(kind@);
            }
            Some(res)
        },
    }
}

/// No other kind has the name of the Clair kind.
proof fn names_differ(k: Kind)
    requires
        k != Kind::Clair,
    ensures
        k.name() != "Clair"@,
{
    reveal_strlit("Clair");
    reveal_strlit("Indexer");
    reveal_strlit("Matcher");
    reveal_strlit("Notifier");
    reveal_strlit("Updater");
    assert("Clair"@.len() != k.name().len());
}

/// The names of the kinds.
proof fn names_known(kind: Seq<char>)
    requires
        forall|k: Kind| #[trigger] k.name() != kind,
    ensures
        kind != "Clair"@,
        !is_passed(kind),
{
    assert(Kind::Clair.name() != kind);
    assert(Kind::Indexer.name() != kind);
    assert(Kind::Matcher.name() != kind);
    assert(Kind::Notifier.name() != kind);
    assert(Kind::Updater.name() != kind);
}

/// Says what to answer to a change of a Clair instance before its configuration is looked at:
/// nothing, if that decides. What is wrong makes the request an improper one.
pub fn validate_clair(
    op: Operation,
    spec: &ClairSpec,
    prev_dialect: Option<ConfigDialect>,
    cur_dialect: Option<ConfigDialect>,
) -> (r: Option<Response>)
    ensures
        r.deep_view() == (if writes(op) && required_fault(spec@) is Some {
            Some(ResponseView::bad_request(required_fault(spec@)->0))
        } else if op == Operation::Update && prev_dialect != cur_dialect {
            Some(ResponseView::bad_request("cannot change field \"/spec/configDialect\""@))
        } else {
            None
        }),
{
    if let Some(msg) = check_required(op, spec) {
        return Some(Response::invalid(msg));
    }
    if let Some(msg) = check_immutable(op, prev_dialect, cur_dialect) {
        return Some(Response::invalid(msg));
    }
    None
}

/// Answers a change of a Clair instance whose configuration was validated: the first failure makes
/// the request an improper one.
pub fn conclude_clair(uid: &str, failures: &Vec<Option<String>>) -> (r: Response)
    ensures
        r@ == (match first_of(failures.deep_view(), 0) {
            Some(text) => ResponseView::bad_request("validation failed: "@ + text),
            None => ResponseView::allow(uid@),
        }),
{
    match first_failure(failures) {
        Some(text) => Response::invalid(text::cat("validation failed: ", text.as_str()).as_str()),
        None => Response::from(uid),
    }
}

/// A spec is found right exactly if everything that must be provided is: the databases, that of the
/// notifier if it is asked for, a reference in every drop-in, and where it is required an image.
pub proof fn right_specs(spec: ClairSpecView, image_required: bool)
    ensures
        spec_fault(spec, image_required) is None <==> {
            &&& image_required ==> spec.image is Some
            &&& spec.databases is Some
            &&& spec.notifier == Some(true) ==> spec.databases->0.notifier is Some
            &&& forall|i: int|
                0 <= i < spec.dropins.len() ==> !lacks_ref(#[trigger] spec.dropins[i])
        },
{
    bad_dropin_found(spec.dropins, 0);
}

/// The place of a drop-in that refers to nothing is the first there is.
proof fn bad_dropin_found(dropins: Seq<DropinSourceView>, i: int)
    requires
        0 <= i <= dropins.len(),
    ensures
        i <= bad_dropin(dropins, i) <= dropins.len(),
        bad_dropin(dropins, i) < dropins.len() ==> lacks_ref(dropins[bad_dropin(dropins, i)]),
        forall|j: int| i <= j < bad_dropin(dropins, i) ==> !lacks_ref(#[trigger] dropins[j]),
    decreases dropins.len() - i,
{
    if i < dropins.len() && !lacks_ref(dropins[i]) {
        bad_dropin_found(dropins, i + 1);
    }
}

/// Whatever is asked for, an answer to a Clair review that allows nothing says why and answers the
/// request that was made.
pub proof fn denials_are_answers(uid: Seq<char>, op: Operation, spec: ClairSpecView)
    requires
        writes(op),
        spec_fault(spec, true) is Some,
    ensures
        ({
            let res = ResponseView::allow(uid).denied(spec_fault(spec, true)->0);
            &&& !res.allowed
            &&& res.uid == uid
            &&& res.message == spec_fault(spec, true)->0
            &&& res.message.len() > 0
            &&& res.additions is None
        }),
{
    reveal_strlit("field \"/spec/image\" must be provided");
    reveal_strlit("field \"/spec/databases\" must be provided");
    reveal_strlit("field \"/spec/notifier\" is set but \"/spec/databases/notifier\" is not");
    reveal_strlit("invalid dropin at index ");
}

} // verus!
