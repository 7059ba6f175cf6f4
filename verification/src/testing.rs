//! Scenarios to try the controllers with.

use serde_json::Value;
use vstd::prelude::*;
use vstd::utf8::encode_utf8;

use crate::clairs::CLAIR_FINALIZER;
use crate::clock;
use crate::condition::Type;
use crate::event::EventType;
use crate::k8s::meta::{
    Condition, ConditionView, ObjectMeta, ObjectMetaView, Time, TimeView,
};
use crate::k8s::pod::{ConfigMap, TypedLocalObjectReference};
use crate::k8s::workload::Job;
use crate::json;
use crate::keyed::{self, Keyed};
use crate::labels::CONTROLLER_NAME;
use crate::maps::KeyMap;
use crate::merge::DeepMerge;
use crate::model::{extend, none, one, push, Model};
use crate::resource::{self, Resource};
use crate::text;
use crate::v1alpha1::{
    Clair, ClairSpec, ClairSpecView, ClairStatus, ClairStatusView, ClairView, ConfigMapKeySelector,
    ConfigMapKeySelectorView, ConfigSource, ConfigSourceView, Databases, DatabasesView, Indexer,
    Matcher, SecretKeySelector, SecretKeySelectorView,
};

verus! {

/// Scenarios we want to test for
#[derive(Clone, Copy, Debug, PartialEq, Eq, Structural)]
pub enum ClairScenario {
    /// The finalizer is added.
    FinalizerCreation,
    /// The spec is empty.
    Finalize,
    /// Everything is in place.
    Ready,
    /// The job before an upgrade is looked after.
    AdminPre(AdminPreScenario),
    /// The configuration is looked after.
    Configuration(ConfigurationScenario),
}

/// Scenarios around the configuration.
#[derive(Clone, Copy, Debug, PartialEq, Eq, Structural)]
pub enum ConfigurationScenario {
    /// There is none.
    Create,
}

/// Scenarios around the job before an upgrade.
#[derive(Clone, Copy, Debug, PartialEq, Eq, Structural)]
pub enum AdminPreScenario {
    /// The image is tagged with no version.
    Unversioned,
    /// The instance is new.
    New,
    /// The image was changed.
    SpecChanged,
    /// The job runs.
    SpecUnchangedCheck,
    /// The job succeeded.
    SpecUnchangedDone,
}

impl ConfigurationScenario {
    /// The scenario of a name.
    pub fn from_str(s: &str) -> (r: Option<ConfigurationScenario>)
        ensures
            r == (if s@ == "create"@ {
                Some(ConfigurationScenario::Create)
            } else {
                None
            }),
    {
        if text::same(s, "create") {
            Some(ConfigurationScenario::Create)
        } else {
            None
        }
    }
}

impl AdminPreScenario {
    /// The name of the scenario.
    pub open spec fn name(self) -> Seq<char> {
        match self {
            AdminPreScenario::Unversioned => "unversioned"@,
            AdminPreScenario::New => "new"@,
            AdminPreScenario::SpecChanged => "spec_changed"@,
            AdminPreScenario::SpecUnchangedCheck => "spec_unchanged_check"@,
            AdminPreScenario::SpecUnchangedDone => "spec_unchanged_done"@,
        }
    }

    /// The scenario of a name.
    pub fn from_str(s: &str) -> (r: Option<AdminPreScenario>)
        ensures
            match r {
                Some(scenario) => scenario.name() == s@,
                None => forall|scenario: AdminPreScenario| #[trigger] scenario.name() != s@,
            },
    {
        if text::same(s, "unversioned") {
            Some(AdminPreScenario::Unversioned)
        } else if text::same(s, "new") {
            Some(AdminPreScenario::New)
        } else if text::same(s, "spec_changed") {
            Some(AdminPreScenario::SpecChanged)
        } else if text::same(s, "spec_unchanged_check") {
            Some(AdminPreScenario::SpecUnchangedCheck)
        } else if text::same(s, "spec_unchanged_done") {
            Some(AdminPreScenario::SpecUnchangedDone)
        } else {
            None
        }
    }
}

/// The instance that all scenarios are about.
pub open spec fn test_meta(generation: i64, finalized: bool) -> ObjectMetaView {
    ObjectMetaView {
        namespace: Some("default"@),
        name: Some("test"@),
        uid: Some("42"@),
        finalizers: if finalized {
            Some(seq!["clairs.clairproject.org"@])
        } else {
            None
        },
        generation: Some(generation),
        ..ObjectMetaView::blank()
    }
}

/// A spec that asks for an image and names its databases.
pub open spec fn test_spec(image: Seq<char>) -> ClairSpecView {
    let database = SecretKeySelectorView { name: "test"@, key: "database"@ };
    ClairSpecView {
        image: Some(image),
        databases: Some(
            DatabasesView { indexer: database, matcher: database, notifier: None },
        ),
        ..ClairSpecView::blank()
    }
}

/// A status with a configuration.
pub open spec fn test_status() -> ClairStatusView {
    ClairStatusView {
        config: Some(
            ConfigSourceView {
                root: ConfigMapKeySelectorView { name: "test"@, key: "config.json"@ },
                dropins: Seq::empty(),
            },
        ),
        ..ClairStatusView::blank()
    }
}

/// A status with a configuration, an older image and a condition on the job before an upgrade.
pub open spec fn upgrading_status(
    observed_generation: i64,
    reason: Seq<char>,
    status: Seq<char>,
    now: TimeView,
) -> ClairStatusView {
    ClairStatusView {
        image: Some("example.com/clair:1.0.0"@),
        conditions: Some(
            seq![
                ConditionView {
                    last_transition_time: now,
                    message: ""@,
                    observed_generation: Some(observed_generation),
                    reason,
                    status,
                    type_: Type::AdminPreJobDone.name(),
                },
            ],
        ),
        ..test_status()
    }
}

/// The instance at the start of a scenario.
pub open spec fn scenario_object(s: ClairScenario, now: TimeView) -> ClairView {
    let image = "example.com/clair:1.2.3"@;
    match s {
        ClairScenario::FinalizerCreation => ClairView {
            metadata: test_meta(1, false),
            spec: test_spec(image),
            status: Some(ClairStatusView::blank()),
        },
        ClairScenario::Finalize => ClairView {
            metadata: test_meta(1, true),
            spec: ClairSpecView::blank(),
            status: Some(ClairStatusView::blank()),
        },
        ClairScenario::Ready => ClairView {
            metadata: test_meta(1, true),
            spec: test_spec(image),
            status: Some(test_status()),
        },
        ClairScenario::Configuration(_) => ClairView {
            metadata: test_meta(2, true),
            spec: test_spec(image),
            status: Some(ClairStatusView::blank()),
        },
        ClairScenario::AdminPre(which) => ClairView {
            metadata: test_meta(2, true),
            spec: test_spec(
                if which == AdminPreScenario::Unversioned {
                    "example.com/clair:noversion"@
                } else {
                    image
                },
            ),
            status: Some(
                match which {
                    AdminPreScenario::Unversioned => test_status(),
                    AdminPreScenario::New => test_status(),
                    AdminPreScenario::SpecChanged => upgrading_status(
                        1,
                        "Testing"@,
                        "True"@,
                        now,
                    ),
                    AdminPreScenario::SpecUnchangedCheck => upgrading_status(
                        2,
                        "ImageUpdated"@,
                        "False"@,
                        now,
                    ),
                    AdminPreScenario::SpecUnchangedDone => upgrading_status(
                        2,
                        "ImageUpdated"@,
                        "False"@,
                        now,
                    ),
                },
            ),
        },
    }
}

/// The instance that all scenarios are about.
fn make_meta(generation: i64, finalized: bool) -> (r: ObjectMeta)
    ensures
        r@ == test_meta(generation, finalized),
{
    ObjectMeta {
        namespace: Some("default".to_owned()),
        name: Some("test".to_owned()),
        uid: Some("42".to_owned()),
        finalizers: if finalized {
            Some(one(CLAIR_FINALIZER.to_owned()))
        } else {
            None
        },
        generation: Some(generation),
        ..Default::default()
    }
}

/// A spec that asks for an image and names its databases.
fn make_spec(image: &str) -> (r: ClairSpec)
    ensures
        r@ == test_spec(image@),
{
    ClairSpec {
        image: Some(image.to_owned()),
        databases: Some(
            Databases {
                indexer: SecretKeySelector { name: "test".to_owned(), key: "database".to_owned() },
                matcher: SecretKeySelector { name: "test".to_owned(), key: "database".to_owned() },
                notifier: None,
            },
        ),
        ..Default::default()
    }
}

/// A status with a configuration.
fn make_status() -> (r: ClairStatus)
    ensures
        r@ == test_status(),
{
    ClairStatus {
        config: Some(
            ConfigSource {
                root: ConfigMapKeySelector {
                    name: "test".to_owned(),
                    key: "config.json".to_owned(),
                },
                dropins: none(),
            },
        ),
        ..Default::default()
    }
}

/// A status with a configuration, an older image and a condition on the job before an upgrade.
fn make_upgrading_status(
    observed_generation: i64,
    reason: &str,
    status: &str,
    now: Time,
) -> (r: ClairStatus)
    ensures
        r@ == upgrading_status(observed_generation, reason@, status@, now@),
{
    ClairStatus {
        image: Some("example.com/clair:1.0.0".to_owned()),
        conditions: Some(
            one(
                Condition {
                    last_transition_time: now,
                    message: "".to_owned(),
                    observed_generation: Some(observed_generation),
                    reason: reason.to_owned(),
                    status: status.to_owned(),
                    type_: Type::AdminPreJobDone.to_string(),
                },
            ),
        ),
        ..make_status()
    }
}

/// What has to be seen in the conditions of the instance once its status was changed.
#[derive(Debug, PartialEq)]
pub enum StatusCheck {
    /// Anything.
    Any,
    /// There is one.
    One,
    /// There is one, of a type, with a status and a reason.
    Only(Type, String, String),
}

/// The value of a [`StatusCheck`].
pub ghost enum StatusCheckView {
    Any,
    One,
    Only(Type, Seq<char>, Seq<char>),
}

impl DeepView for StatusCheck {
    type V = StatusCheckView;

    open spec fn deep_view(&self) -> StatusCheckView {
        match self {
            StatusCheck::Any => StatusCheckView::Any,
            StatusCheck::One => StatusCheckView::One,
            StatusCheck::Only(ty, status, reason) => StatusCheckView::Only(*ty, status@, reason@),
        }
    }
}

/// What an API server is asked during a scenario.
#[derive(Debug, PartialEq)]
pub enum Expected {
    /// The finalizer is added to the object at that address.
    Finalizer(String),
    /// An event of a type, with a reason and an action, is published. With an image, the instance
    /// asks for that one from then on.
    Event(String, String, String, Option<String>),
    /// The object at that path is read. If it is not there, that is the answer.
    Get(String, String),
    /// An object is created among those at that path.
    Create(String),
    /// The object at that path is changed, which has that name.
    Update(String, String),
    /// The status of the instance is changed at that address, with something to be seen then.
    Status(String, StatusCheck),
}

/// The value of an [`Expected`].
pub ghost enum ExpectedView {
    Finalizer(Seq<char>),
    Event(Seq<char>, Seq<char>, Seq<char>, Option<Seq<char>>),
    Get(Seq<char>, Seq<char>),
    Create(Seq<char>),
    Update(Seq<char>, Seq<char>),
    Status(Seq<char>, StatusCheckView),
}

impl DeepView for Expected {
    type V = ExpectedView;

    open spec fn deep_view(&self) -> ExpectedView {
        match self {
            Expected::Finalizer(uri) => ExpectedView::Finalizer(uri@),
            Expected::Event(type_, reason, action, image) => ExpectedView::Event(
                type_@,
                reason@,
                action@,
                image.deep_view(),
            ),
            Expected::Get(path, missing) => ExpectedView::Get(path@, missing@),
            Expected::Create(path) => ExpectedView::Create(path@),
            Expected::Update(path, name) => ExpectedView::Update(path@, name@),
            Expected::Status(uri, check) => ExpectedView::Status(uri@, check.deep_view()),
        }
    }
}

/// The path of all objects of a kind.
pub open spec fn collection_path<R: Resource>() -> Seq<char> {
    "/"@ + resource::group_version(R::group_name(), R::version_name()) + "/namespaces/default/"@
        + R::plural_name()
}

/// The path of an object.
pub open spec fn object_path<R: Resource>(name: Seq<char>) -> Seq<char> {
    collection_path::<R>() + "/"@ + name
}

/// The words of the API server on an object that is not there.
pub open spec fn not_found_text<R: Resource>(name: Seq<char>) -> Seq<char> {
    "{\"code\":404,\"details\":{\"group\":\""@ + R::group_name() + "\",\"kind\":\""@
        + R::kind_name() + ("\",\"name\":"@ + json::quoted(name)
        + "},\"reason\":\"NotFound\",\"status\":\"Failure\"}"@)
}

/// An object is read.
pub open spec fn expect_get<R: Resource>(name: Seq<char>) -> ExpectedView {
    ExpectedView::Get(object_path::<R>(name), not_found_text::<R>(name))
}

/// An object is created.
pub open spec fn expect_create<R: Resource>() -> ExpectedView {
    ExpectedView::Create(collection_path::<R>())
}

/// An object is changed.
pub open spec fn expect_update<R: Resource>(name: Seq<char>) -> ExpectedView {
    ExpectedView::Update(object_path::<R>(name), name)
}

/// What is appended to the address of an object that is changed.
pub open spec fn strict_apply() -> Seq<char> {
    "?&fieldManager="@ + "clair-controller"@ + "&fieldValidation=Strict"@
}

/// The status of the instance is changed.
pub open spec fn expect_status(check: StatusCheckView) -> ExpectedView {
    ExpectedView::Status(
        "/apis"@ + object_path::<Clair>("test"@) + "/status"@ + strict_apply(),
        check,
    )
}

/// The condition on the job before an upgrade is the only one.
pub open spec fn only_pre_job(status: Seq<char>, reason: Seq<char>) -> StatusCheckView {
    StatusCheckView::Only(Type::AdminPreJobDone, status, reason)
}

/// An event says that an object was created.
pub open spec fn expect_created<R: Resource>() -> ExpectedView {
    ExpectedView::Event(
        "Normal"@,
        "Clair requires "@ + R::kind_name() + " \"test\""@,
        "Created"@ + R::kind_name(),
        None,
    )
}

/// An event says that something is missing from the spec.
pub open spec fn expect_missing(image: Option<Seq<char>>) -> ExpectedView {
    ExpectedView::Event("Warning"@, "MissingRequiredField"@, "Reconcile"@, image)
}

/// What is asked during a scenario, in order.
pub open spec fn expected_for(s: ClairScenario) -> Seq<ExpectedView> {
    let status = expect_status(StatusCheckView::Any);
    match s {
        ClairScenario::FinalizerCreation => seq![
            ExpectedView::Finalizer("/apis"@ + object_path::<Clair>("test"@) + "?"@),
        ],
        ClairScenario::Finalize => seq![
            expect_missing(Some("example.com/clair:test"@)),
            expect_missing(None),
        ],
        ClairScenario::Ready => seq![
            expect_get::<ConfigMap>("test"@),
            expect_update::<ConfigMap>("test"@),
            status,
            status,
            status,
            expect_get::<Indexer>("test"@),
            expect_create::<Indexer>(),
            status,
            expect_created::<Indexer>(),
            expect_get::<Matcher>("test"@),
            expect_create::<Matcher>(),
            status,
            expect_created::<Matcher>(),
        ],
        ClairScenario::Configuration(_) => seq![
            expect_get::<ConfigMap>("test"@),
            expect_create::<ConfigMap>(),
            status,
            expect_created::<ConfigMap>(),
            status,
        ],
        ClairScenario::AdminPre(which) => match which {
            AdminPreScenario::Unversioned => Seq::empty(),
            AdminPreScenario::New => seq![expect_status(StatusCheckView::One)],
            AdminPreScenario::SpecChanged => seq![
                expect_create::<Job>(),
                expect_status(only_pre_job("False"@, "ImageUpdated"@)),
            ],
            AdminPreScenario::SpecUnchangedCheck => seq![
                expect_get::<Job>("test-admin-pre-1.2.3"@),
                expect_status(only_pre_job("False"@, "JobNotComplete"@)),
            ],
            AdminPreScenario::SpecUnchangedDone => seq![
                expect_get::<Job>("test-admin-pre-1.2.3"@),
                expect_status(only_pre_job("True"@, "JobSucceeded"@)),
            ],
        },
    }
}

/// The path of all objects of a kind.
fn collection<R: Resource>() -> (r: String)
    ensures
        r@ == collection_path::<R>(),
{
    text::cat4("/", R::api_version().as_str(), "/namespaces/default/", R::plural())
}

/// The path of an object.
fn object<R: Resource>(name: &str) -> (r: String)
    ensures
        r@ == object_path::<R>(name@),
{
    text::cat3(collection::<R>().as_str(), "/", name)
}

/// The words of the API server on an object that is not there.
fn not_found<R: Resource>(name: &str) -> (r: String)
    ensures
        r@ == not_found_text::<R>(name@),
{
    let start = text::cat4(
        "{\"code\":404,\"details\":{\"group\":\"",
        R::group(),
        "\",\"kind\":\"",
        R::kind(),
    );
    let quoted = json::quote(name).unwrap();
    let end = text::cat3(
        "\",\"name\":",
        quoted.as_str(),
        "},\"reason\":\"NotFound\",\"status\":\"Failure\"}",
    );
    text::cat(start.as_str(), end.as_str())
}

fn get<R: Resource>(name: &str) -> (r: Expected)
    ensures
        r.deep_view() == expect_get::<R>(name@),
{
    Expected::Get(object::<R>(name), not_found::<R>(name))
}

fn create<R: Resource>() -> (r: Expected)
    ensures
        r.deep_view() == expect_create::<R>(),
{
    Expected::Create(collection::<R>())
}

fn update<R: Resource>(name: &str) -> (r: Expected)
    ensures
        r.deep_view() == expect_update::<R>(name@),
{
    Expected::Update(object::<R>(name), name.to_owned())
}

/// What is appended to the address of an object that is changed.
fn strictly() -> (r: String)
    ensures
        r@ == strict_apply(),
{
    text::cat3("?&fieldManager=", CONTROLLER_NAME, "&fieldValidation=Strict")
}

fn status(check: StatusCheck) -> (r: Expected)
    ensures
        r.deep_view() == expect_status(check.deep_view()),
{
    let uri = text::cat4(
        "/apis",
        object::<Clair>("test").as_str(),
        "/status",
        strictly().as_str(),
    );
    Expected::Status(uri, check)
}

fn pre_job(status: &str, reason: &str) -> (r: StatusCheck)
    ensures
        r.deep_view() == only_pre_job(status@, reason@),
{
    StatusCheck::Only(Type::AdminPreJobDone, status.to_owned(), reason.to_owned())
}

fn created<R: Resource>() -> (r: Expected)
    ensures
        r.deep_view() == expect_created::<R>(),
{
    Expected::Event(
        EventType::Normal.as_str().to_owned(),
        text::cat3("Clair requires ", R::kind(), " \"test\""),
        text::cat("Created", R::kind()),
        None,
    )
}

fn missing(image: Option<String>) -> (r: Expected)
    ensures
        r.deep_view() == expect_missing(image.deep_view()),
{
    Expected::Event(
        EventType::Warning.as_str().to_owned(),
        "MissingRequiredField".to_owned(),
        "Reconcile".to_owned(),
        image,
    )
}

impl ClairScenario {
    /// All scenarios around the job before an upgrade.
    pub fn admin_pre() -> (r: Vec<ClairScenario>)
        ensures
            r@ == seq![
                ClairScenario::AdminPre(AdminPreScenario::Unversioned),
                ClairScenario::AdminPre(AdminPreScenario::New),
                ClairScenario::AdminPre(AdminPreScenario::SpecChanged),
                ClairScenario::AdminPre(AdminPreScenario::SpecUnchangedCheck),
                ClairScenario::AdminPre(AdminPreScenario::SpecUnchangedDone),
            ],
    {
        let mut r: Vec<ClairScenario> = Vec::new();
        r.push(ClairScenario::AdminPre(AdminPreScenario::Unversioned));
        r.push(ClairScenario::AdminPre(AdminPreScenario::New));
        r.push(ClairScenario::AdminPre(AdminPreScenario::SpecChanged));
        r.push(ClairScenario::AdminPre(AdminPreScenario::SpecUnchangedCheck));
        r.push(ClairScenario::AdminPre(AdminPreScenario::SpecUnchangedDone));
        assert(r@ =~= seq![
            ClairScenario::AdminPre(AdminPreScenario::Unversioned),
            ClairScenario::AdminPre(AdminPreScenario::New),
            ClairScenario::AdminPre(AdminPreScenario::SpecChanged),
            ClairScenario::AdminPre(AdminPreScenario::SpecUnchangedCheck),
            ClairScenario::AdminPre(AdminPreScenario::SpecUnchangedDone),
        ]);
        r
    }

    /// The instance at the start of the scenario, as of now.
    pub fn object(&self) -> (r: Clair)
        ensures
            exists|now: TimeView| r@ == #[trigger] scenario_object(*self, now),
    {
        let now = clock::now();
        let ghost t = now@;
        let r = self.object_at(now);
        assert(r@ == scenario_object(*self, t));
        r
    }

    /// The instance at the start of the scenario, as of a given time.
    pub fn object_at(&self, now: Time) -> (r: Clair)
        ensures
            r@ == scenario_object(*self, now@),
    {
        let image = "example.com/clair:1.2.3";
        match self {
            ClairScenario::FinalizerCreation => Clair {
                metadata: make_meta(1, false),
                spec: make_spec(image),
                status: Some(Default::default()),
            },
            ClairScenario::Finalize => Clair {
                metadata: make_meta(1, true),
                spec: Default::default(),
                status: Some(Default::default()),
            },
            ClairScenario::Ready => Clair {
                metadata: make_meta(1, true),
                spec: make_spec(image),
                status: Some(make_status()),
            },
            ClairScenario::Configuration(_) => Clair {
                metadata: make_meta(2, true),
                spec: make_spec(image),
                status: Some(Default::default()),
            },
            ClairScenario::AdminPre(which) => {
                let (image, status) = match which {
                    AdminPreScenario::Unversioned => (
                        "example.com/clair:noversion",
                        make_status(),
                    ),
                    AdminPreScenario::New => (image, make_status()),
                    AdminPreScenario::SpecChanged => (
                        image,
                        make_upgrading_status(1, "Testing", "True", now),
                    ),
                    AdminPreScenario::SpecUnchangedCheck => (
                        image,
                        make_upgrading_status(2, "ImageUpdated", "False", now),
                    ),
                    AdminPreScenario::SpecUnchangedDone => (
                        image,
                        make_upgrading_status(2, "ImageUpdated", "False", now),
                    ),
                };
                Clair { metadata: make_meta(2, true), spec: make_spec(image), status: Some(status) }
            },
        }
    }

    /// What is asked during the scenario, in order.
    pub fn run(&self) -> (r: Vec<Expected>)
        ensures
            r.deep_view() == expected_for(*self),
    {
        let mut r: Vec<Expected> = none();
        match self {
            ClairScenario::FinalizerCreation => {
                let uri = text::cat3("/apis", object::<Clair>("test").as_str(), "?");
                push(&mut r, Expected::Finalizer(uri));
            },
            ClairScenario::Finalize => {
                push(&mut r, missing(Some("example.com/clair:test".to_owned())));
                push(&mut r, missing(None));
            },
            ClairScenario::Ready => {
                push(&mut r, get::<ConfigMap>("test"));
                push(&mut r, update::<ConfigMap>("test"));
                push(&mut r, status(StatusCheck::Any));
                push(&mut r, status(StatusCheck::Any));
                push(&mut r, status(StatusCheck::Any));
                push(&mut r, get::<Indexer>("test"));
                push(&mut r, create::<Indexer>());
                push(&mut r, status(StatusCheck::Any));
                push(&mut r, created::<Indexer>());
                push(&mut r, get::<Matcher>("test"));
                push(&mut r, create::<Matcher>());
                push(&mut r, status(StatusCheck::Any));
                push(&mut r, created::<Matcher>());
            },
            ClairScenario::Configuration(_) => {
                push(&mut r, get::<ConfigMap>("test"));
                push(&mut r, create::<ConfigMap>());
                push(&mut r, status(StatusCheck::Any));
                push(&mut r, created::<ConfigMap>());
                push(&mut r, status(StatusCheck::Any));
            },
            ClairScenario::AdminPre(which) => match which {
                AdminPreScenario::Unversioned => {},
                AdminPreScenario::New => {
                    push(&mut r, status(StatusCheck::One));
                },
                AdminPreScenario::SpecChanged => {
                    push(&mut r, create::<Job>());
                    push(&mut r, status(pre_job("False", "ImageUpdated")));
                },
                AdminPreScenario::SpecUnchangedCheck => {
                    push(&mut r, get::<Job>("test-admin-pre-1.2.3"));
                    push(&mut r, status(pre_job("False", "JobNotComplete")));
                },
                AdminPreScenario::SpecUnchangedDone => {
                    push(&mut r, get::<Job>("test-admin-pre-1.2.3"));
                    push(&mut r, status(pre_job("True", "JobSucceeded")));
                },
            },
        }
        assert(r.deep_view() =~= expected_for(*self));
        r
    }
}

/// The object that the API server has for a ConfigMap.
pub open spec fn stored_config_map() -> Seq<char> {
    "{\"data\":{\"config.json\":\"{}\"},\"kind\":\"ConfigMap\",\"metadata\":{\"name\":\"test\",\"namespace\":\"default\"},\"version\":\"v1\"}"@
}

/// The object that the API server has for a job that runs.
pub open spec fn stored_running_job() -> Seq<char> {
    "{\"kind\":\"Job\",\"metadata\":{\"name\":\"test\",\"namespace\":\"default\"},\"spec\":{},\"status\":{\"active\":1},\"version\":\"batch/v1\"}"@
}

/// The object that the API server has for a job that succeeded.
pub open spec fn stored_done_job() -> Seq<char> {
    "{\"kind\":\"Job\",\"metadata\":{\"name\":\"test\",\"namespace\":\"default\"},\"spec\":{},\"status\":{\"active\":0,\"succeeded\":1},\"version\":\"batch/v1\"}"@
}

/// What the API server has at the start of a scenario, by path.
pub open spec fn stored_for(s: ClairScenario) -> Map<Seq<char>, Seq<u8>> {
    let config = Map::empty().insert(
        object_path::<ConfigMap>("test"@),
        encode_utf8(stored_config_map()),
    );
    let job = object_path::<Job>("test-admin-pre-1.2.3"@);
    match s {
        ClairScenario::Ready => config,
        ClairScenario::AdminPre(AdminPreScenario::SpecUnchangedCheck) => config.insert(
            job,
            encode_utf8(stored_running_job()),
        ),
        ClairScenario::AdminPre(AdminPreScenario::SpecUnchangedDone) => config.insert(
            job,
            encode_utf8(stored_done_job()),
        ),
        ClairScenario::AdminPre(_) => config,
        _ => Map::empty(),
    }
}

/// Plays the API server in a scenario, and holds the controller to what is expected of it.
pub struct ClairServerVerifier {
    object: Clair,
    state: KeyMap<Vec<u8>>,
    expected: Vec<Expected>,
    seen: usize,
}

/// The value of a [`ClairServerVerifier`].
pub ghost struct ClairServerVerifierView {
    pub object: ClairView,
    pub state: Map<Seq<char>, Seq<u8>>,
    pub expected: Seq<ExpectedView>,
    pub seen: int,
}

impl View for ClairServerVerifier {
    type V = ClairServerVerifierView;

    closed spec fn view(&self) -> ClairServerVerifierView {
        ClairServerVerifierView {
            object: self.object@,
            state: self.state@,
            expected: self.expected.deep_view(),
            seen: self.seen as int,
        }
    }
}

impl ClairServerVerifierView {
    /// The start of a scenario.
    pub open spec fn start(scenario: ClairScenario, now: TimeView) -> ClairServerVerifierView {
        ClairServerVerifierView {
            object: scenario_object(scenario, now),
            state: stored_for(scenario),
            expected: expected_for(scenario),
            seen: 0,
        }
    }

    /// What is expected next.
    pub open spec fn next(self) -> Option<ExpectedView> {
        if 0 <= self.seen < self.expected.len() {
            Some(self.expected[self.seen])
        } else {
            None
        }
    }

    /// What is expected next was seen.
    pub open spec fn advanced(self) -> ClairServerVerifierView {
        ClairServerVerifierView { seen: self.seen + 1, ..self }
    }

    /// What is expected next was seen, and left an object behind.
    pub open spec fn stored(self, path: Seq<char>, doc: Seq<u8>) -> ClairServerVerifierView {
        ClairServerVerifierView { state: self.state.insert(path, doc), ..self.advanced() }
    }

    /// What is expected next was seen, and left the instance behind so.
    pub open spec fn with_object(self, object: ClairView) -> ClairServerVerifierView {
        ClairServerVerifierView { object, ..self.advanced() }
    }

    /// Nothing more is expected.
    pub open spec fn done(self) -> bool {
        self.seen >= self.expected.len()
    }
}

/// The address is one of the API server, and ends so.
pub open spec fn ends_at(uri: Seq<char>, end: Seq<char>) -> bool {
    text::has_prefix(uri, "/api"@) && text::has_suffix(uri, end)
}

/// Reports whether an address is one of the API server, and ends so.
fn leads_to(uri: &str, end: &str) -> (r: bool)
    ensures
        r == ends_at(uri@, end@),
{
    text::strip_prefix(uri, "/api").is_some() && text::ends_with(uri, end)
}

/// A change to the finalizers of an object, in a list of changes.
#[derive(Debug, PartialEq)]
pub struct Change {
    /// What is done.
    pub op: String,
    /// Where.
    pub path: String,
    /// The finalizers that it is done with, if any.
    pub value: Option<Vec<String>>,
}

/// The value of a [`Change`].
pub ghost struct ChangeView {
    pub op: Seq<char>,
    pub path: Seq<char>,
    pub value: Option<Seq<Seq<char>>>,
}

impl DeepView for Change {
    type V = ChangeView;

    open spec fn deep_view(&self) -> ChangeView {
        ChangeView { op: self.op@, path: self.path@, value: self.value.deep_view() }
    }
}

/// The changes start with those that add the finalizer where there is none.
pub open spec fn adds_finalizer(changes: Seq<ChangeView>) -> bool {
    &&& changes.len() >= 2
    &&& changes[0] == (ChangeView {
        op: "test"@,
        path: "/metadata/finalizers"@,
        value: None,
    })
    &&& changes[1] == (ChangeView {
        op: "add"@,
        path: "/metadata/finalizers"@,
        value: Some(seq!["clairs.clairproject.org"@]),
    })
}

/// Reports whether the changes start with those that add the finalizer where there is none.
fn are_for_finalizer(changes: &Vec<Change>) -> (r: bool)
    ensures
        r == adds_finalizer(changes.deep_view()),
{
    let ghost all = changes.deep_view();
    assert(all.len() == changes@.len());
    if changes.len() < 2 {
        return false;
    }
    assert(all[0] == changes@[0].deep_view() && all[1] == changes@[1].deep_view());
    let (first, second) = (&changes[0], &changes[1]);
    let added = Some(one(CLAIR_FINALIZER.to_owned()));
    text::same(first.op.as_str(), "test") && text::same(
        first.path.as_str(),
        "/metadata/finalizers",
    ) && first.value.is_none() && text::same(second.op.as_str(), "add") && text::same(
        second.path.as_str(),
        "/metadata/finalizers",
    ) && second.value.same(&added)
}

/// An event, as it is sent to the API server.
#[derive(Debug, PartialEq)]
pub struct SentEvent {
    /// How bad it is.
    pub type_: Option<String>,
    /// Why it happened.
    pub reason: Option<String>,
    /// What was done.
    pub action: Option<String>,
    /// A sentence for people.
    pub note: Option<String>,
}

/// The value of a [`SentEvent`].
pub ghost struct SentEventView {
    pub type_: Option<Seq<char>>,
    pub reason: Option<Seq<char>>,
    pub action: Option<Seq<char>>,
    pub note: Option<Seq<char>>,
}

impl DeepView for SentEvent {
    type V = SentEventView;

    open spec fn deep_view(&self) -> SentEventView {
        SentEventView {
            type_: self.type_.deep_view(),
            reason: self.reason.deep_view(),
            action: self.action.deep_view(),
            note: self.note.deep_view(),
        }
    }
}

/// A note speaks of the databases and of the image only while they are missing.
pub open spec fn note_fits(spec: ClairSpecView, note: Option<Seq<char>>) -> bool {
    match note {
        Some(note) => {
            &&& text::occurs(note, "$.spec.databases"@) ==> spec.databases is None
            &&& text::occurs(note, "$.spec.image"@) ==> spec.image is None
        },
        None => true,
    }
}

/// An event is the one that is expected.
pub open spec fn event_fits(
    srv: ClairServerVerifierView,
    method: Seq<char>,
    uri: Seq<char>,
    ev: SentEventView,
) -> bool {
    match srv.next() {
        Some(ExpectedView::Event(type_, reason, action, _)) => {
            &&& method == "POST"@ || method == "PATCH"@
            &&& text::has_prefix(uri, "/apis/events.k8s.io/v1/namespaces/default/events"@)
            &&& note_fits(srv.object.spec, ev.note)
            &&& ev.type_ == Some(type_)
            &&& ev.reason == Some(reason)
            &&& ev.action == Some(action)
        },
        _ => false,
    }
}

/// The instance once an event was seen.
pub open spec fn after_event(c: ClairView, e: ExpectedView) -> ClairView {
    match e {
        ExpectedView::Event(_, _, _, Some(image)) => ClairView {
            spec: ClairSpecView { image: Some(image), ..c.spec },
            ..c
        },
        _ => c,
    }
}

/// What the API server answers to a request for an object.
#[derive(Debug, PartialEq)]
pub enum Answer {
    /// The object is there.
    Found(Vec<u8>),
    /// The object is not there, in the words of the API server.
    NotFound(String),
}

/// The value of an [`Answer`].
pub ghost enum AnswerView {
    Found(Seq<u8>),
    NotFound(Seq<char>),
}

impl DeepView for Answer {
    type V = AnswerView;

    open spec fn deep_view(&self) -> AnswerView {
        match self {
            Answer::Found(v) => AnswerView::Found(v.deep_view()),
            Answer::NotFound(v) => AnswerView::NotFound(v@),
        }
    }
}

/// The answer to a request for an object, if that is what is expected.
pub open spec fn answer_for(
    srv: ClairServerVerifierView,
    method: Seq<char>,
    uri: Seq<char>,
) -> Option<AnswerView> {
    match srv.next() {
        Some(ExpectedView::Get(path, missing)) => if method != "GET"@ || !ends_at(uri, path) {
            None
        } else if srv.state.dom().contains(path) {
            Some(AnswerView::Found(srv.state[path]))
        } else {
            Some(AnswerView::NotFound(missing))
        },
        _ => None,
    }
}

/// The name in the metadata of a document, if it has one.
pub open spec fn name_in(doc: Seq<u8>) -> Option<Seq<char>> {
    match json::member(doc, "metadata"@) {
        Some(metadata) => match json::member(metadata, "name"@) {
            Some(name) => json::text_in(name),
            None => None,
        },
        None => None,
    }
}

/// The document that bytes hold, and the name in its metadata, if it has one.
pub open spec fn named_document(body: Seq<u8>) -> Option<(Seq<char>, Seq<u8>)> {
    match json::parsed(body) {
        Ok(doc) => match name_in(doc) {
            Some(name) => Some((name, doc)),
            None => None,
        },
        Err(_) => None,
    }
}

/// Finds the name in the metadata of a document.
fn find_name(doc: &Value) -> (r: Option<&str>)
    ensures
        match r {
            Some(name) => name_in(json::json_text(*doc)) == Some(name@),
            None => name_in(json::json_text(*doc)) is None,
        },
{
    match json::get(doc, "metadata") {
        Some(metadata) => match json::get(metadata, "name") {
            Some(name) => json::as_text(name),
            None => None,
        },
        None => None,
    }
}

/// Where an object that is created goes, and its text, if that is what is expected and there is
/// none of its name yet.
pub open spec fn creation(
    srv: ClairServerVerifierView,
    method: Seq<char>,
    uri: Seq<char>,
    body: Seq<u8>,
) -> Option<(Seq<char>, Seq<u8>)> {
    match srv.next() {
        Some(ExpectedView::Create(all)) => if method != "POST"@ || !ends_at(
            uri,
            all + "?&fieldManager="@ + "clair-controller"@,
        ) {
            None
        } else {
            match named_document(body) {
                Some((name, doc)) => if srv.state.dom().contains(all + "/"@ + name) {
                    None
                } else {
                    Some((all + "/"@ + name, doc))
                },
                None => None,
            }
        },
        _ => None,
    }
}

/// Where an object that is changed is, and its text then, if that is what is expected and the
/// change is for that object.
pub open spec fn change(
    srv: ClairServerVerifierView,
    method: Seq<char>,
    uri: Seq<char>,
    body: Seq<u8>,
) -> Option<(Seq<char>, Seq<u8>)> {
    match srv.next() {
        Some(ExpectedView::Update(path, name)) => if method != "PATCH"@ || !ends_at(
            uri,
            path + strict_apply(),
        ) {
            None
        } else {
            match named_document(body) {
                Some((found, doc)) => if found != name {
                    None
                } else if !srv.state.dom().contains(path) {
                    Some((path, doc))
                } else {
                    match json::parsed(srv.state[path]) {
                        Ok(current) => Some((path, json::merged(current, doc))),
                        Err(_) => None,
                    }
                },
                None => None,
            }
        },
        _ => None,
    }
}

/// The newer of two values, if it is set.
pub open spec fn newer<A>(a: Option<A>, b: Option<A>) -> Option<A> {
    if b is Some {
        b
    } else {
        a
    }
}

/// Two lists in one, in the order of the keys. What is in the newer one takes the place of what has
/// the same key.
pub open spec fn newer_items<T: Keyed>(a: Option<Seq<T::V>>, b: Option<Seq<T::V>>) -> Option<
    Seq<T::V>,
> {
    match (a, b) {
        (Some(a), Some(b)) => Some(keyed::by_key::<T>(b + a)),
        _ => newer(a, b),
    }
}

/// A status after what is set in another has been taken over. Conditions are told apart by their
/// type, and references by their kind.
pub open spec fn updated_status(
    a: Option<ClairStatusView>,
    b: ClairStatusView,
) -> ClairStatusView {
    match a {
        None => b,
        Some(a) => ClairStatusView {
            conditions: newer_items::<Condition>(a.conditions, b.conditions),
            refs: newer_items::<TypedLocalObjectReference>(a.refs, b.refs),
            indexer: newer(a.indexer, b.indexer),
            matcher: newer(a.matcher, b.matcher),
            notifier: newer(a.notifier, b.notifier),
            config: Option::<ConfigSource>::merged(a.config, b.config),
            image: newer(a.image, b.image),
        },
    }
}

/// Takes the newer of two values, if it is set.
fn take_newer<T: Model>(a: &Option<T>, b: Option<T>) -> (r: Option<T>)
    ensures
        r.deep_view() == newer(a.deep_view(), b.deep_view()),
{
    if b.is_some() {
        b
    } else {
        a.dup()
    }
}

/// Puts two lists into one.
fn take_newer_items<T: Keyed>(a: &Option<Vec<T>>, b: Option<Vec<T>>) -> (r: Option<Vec<T>>)
    ensures
        r.deep_view() == newer_items::<T>(a.deep_view(), b.deep_view()),
{
    match (a, b) {
        (Some(a), Some(b)) => {
            let mut all = b;
            extend(&mut all, a);
            Some(keyed::sort_dedup_by_key(&all))
        },
        (a, b) => take_newer(a, b),
    }
}

/// Takes over what is set in a status.
fn update_status(a: &Option<ClairStatus>, b: ClairStatus) -> (r: ClairStatus)
    ensures
        r@ == updated_status(a.deep_view(), b@),
{
    match a {
        None => b,
        Some(a) => {
            let mut config = a.config.dup();
            config.merge_from(b.config);
            ClairStatus {
                conditions: take_newer_items(&a.conditions, b.conditions),
                refs: take_newer_items(&a.refs, b.refs),
                indexer: take_newer(&a.indexer, b.indexer),
                matcher: take_newer(&a.matcher, b.matcher),
                notifier: take_newer(&a.notifier, b.notifier),
                config,
                image: take_newer(&a.image, b.image),
            }
        },
    }
}

/// The conditions are what has to be seen.
pub open spec fn conditions_fit(
    check: StatusCheckView,
    conditions: Option<Seq<ConditionView>>,
) -> bool {
    match check {
        StatusCheckView::Any => true,
        StatusCheckView::One => conditions is Some && conditions->0.len() == 1,
        StatusCheckView::Only(ty, status, reason) => {
            &&& conditions is Some && conditions->0.len() == 1
            &&& conditions->0[0].type_ == ty.name()
            &&& conditions->0[0].status == status
            &&& conditions->0[0].reason == reason
        },
    }
}

/// Reports whether the conditions are what has to be seen.
fn satisfy(conditions: &Option<Vec<Condition>>, check: &StatusCheck) -> (r: bool)
    ensures
        r == conditions_fit(check.deep_view(), conditions.deep_view()),
{
    if let StatusCheck::Any = check {
        return true;
    }
    let all = match conditions {
        Some(all) => all,
        None => return false,
    };
    assert(conditions.deep_view() == Some(all.deep_view()));
    assert(all.deep_view().len() == all@.len());
    if all.len() != 1 {
        return false;
    }
    assert(all.deep_view()[0] == all@[0]@);
    match check {
        StatusCheck::Only(ty, status, reason) => ty.is(all[0].type_.as_str()) && text::same(
            all[0].status.as_str(),
            status.as_str(),
        ) && text::same(all[0].reason.as_str(), reason.as_str()),
        _ => true,
    }
}

/// The instance after a change of its status, if that is what is expected.
pub open spec fn status_change(
    srv: ClairServerVerifierView,
    method: Seq<char>,
    uri: Seq<char>,
    status: ClairStatusView,
) -> Option<ClairView> {
    let after = updated_status(srv.object.status, status);
    match srv.next() {
        Some(ExpectedView::Status(expected, check)) => if method == "PATCH"@ && uri == expected
            && conditions_fit(check, after.conditions) {
            Some(ClairView { status: Some(after), ..srv.object })
        } else {
            None
        },
        _ => None,
    }
}

impl ClairServerVerifier {
    /// Starts a scenario, as of now.
    pub fn new(scenario: ClairScenario) -> (r: ClairServerVerifier)
        ensures
            exists|now: TimeView| r@ == #[trigger] ClairServerVerifierView::start(scenario, now),
    {
        let now = clock::now();
        let ghost t = now@;
        let r = Self::new_at(scenario, now);
        assert(r@ == ClairServerVerifierView::start(scenario, t));
        r
    }

    /// Starts a scenario, as of a given time.
    pub fn new_at(scenario: ClairScenario, now: Time) -> (r: ClairServerVerifier)
        ensures
            r@ == ClairServerVerifierView::start(scenario, now@),
    {
        let config = "{\"data\":{\"config.json\":\"{}\"},\"kind\":\"ConfigMap\",\"metadata\":{\"name\":\"test\",\"namespace\":\"default\"},\"version\":\"v1\"}";
        let mut state: KeyMap<Vec<u8>> = KeyMap::new();
        match scenario {
            ClairScenario::Ready => {
                state.insert(object::<ConfigMap>("test"), bytes_of(config));
            },
            ClairScenario::AdminPre(which) => {
                state.insert(object::<ConfigMap>("test"), bytes_of(config));
                match which {
                    AdminPreScenario::SpecUnchangedCheck => {
                        state.insert(
                            object::<Job>("test-admin-pre-1.2.3"),
                            bytes_of("{\"kind\":\"Job\",\"metadata\":{\"name\":\"test\",\"namespace\":\"default\"},\"spec\":{},\"status\":{\"active\":1},\"version\":\"batch/v1\"}"),
                        );
                    },
                    AdminPreScenario::SpecUnchangedDone => {
                        state.insert(
                            object::<Job>("test-admin-pre-1.2.3"),
                            bytes_of("{\"kind\":\"Job\",\"metadata\":{\"name\":\"test\",\"namespace\":\"default\"},\"spec\":{},\"status\":{\"active\":0,\"succeeded\":1},\"version\":\"batch/v1\"}"),
                        );
                    },
                    _ => {},
                }
            },
            _ => {},
        }
        ClairServerVerifier {
            object: scenario.object_at(now),
            state,
            expected: scenario.run(),
            seen: 0,
        }
    }

    /// What is expected next.
    fn next(&self) -> (r: Option<&Expected>)
        ensures
            match r {
                Some(e) => self@.next() == Some(e.deep_view()) && self.seen < usize::MAX,
                None => self@.next() is None,
            },
    {
        if self.seen < self.expected.len() {
            assert(self@.expected[self.seen as int]
                == self.expected@[self.seen as int].deep_view());
            Some(&self.expected[self.seen])
        } else {
            None
        }
    }

    /// Takes note of the request that adds the finalizer, and answers with the instance then.
    /// There is no answer to a request that is not the one that is expected.
    pub fn finalizer(&mut self, method: &str, uri: &str, changes: &Vec<Change>) -> (r: Option<
        Clair,
    >)
        ensures
            ({
                let before = old(self)@;
                let after = ClairView {
                    metadata: ObjectMetaView {
                        finalizers: Some(seq!["clairs.clairproject.org"@]),
                        ..before.object.metadata
                    },
                    ..before.object
                };
                if method@ == "PATCH"@ && before.next() == Some(ExpectedView::Finalizer(uri@))
                    && adds_finalizer(changes.deep_view()) {
                    r.deep_view() == Some(after) && final(self)@ == before.with_object(after)
                } else {
                    r is None && final(self)@ == before
                }
            }),
    {
        let fits = match self.next() {
            Some(Expected::Finalizer(expected)) => text::same(method, "PATCH") && text::same(
                uri,
                expected.as_str(),
            ) && are_for_finalizer(changes),
            _ => false,
        };
        if !fits {
            return None;
        }
        self.object.metadata.finalizers = Some(one(CLAIR_FINALIZER.to_owned()));
        self.seen = self.seen + 1;
        Some(self.object.dup())
    }

    /// What an event changes, if it is the one that is expected: the image that the instance asks
    /// for from then on.
    fn judge_event(&self, method: &str, uri: &str, ev: &SentEvent) -> (r: Option<Option<String>>)
        ensures
            match r {
                Some(image) => {
                    &&& event_fits(self@, method@, uri@, ev.deep_view())
                    &&& self@.next()->0 is Event
                    &&& self@.next()->0->Event_3 == image.deep_view()
                    &&& self.seen < usize::MAX
                },
                None => !event_fits(self@, method@, uri@, ev.deep_view()),
            },
    {
        let (type_, reason, action, image) = match self.next() {
            Some(Expected::Event(type_, reason, action, image)) => (type_, reason, action, image),
            _ => return None,
        };
        if !text::same(method, "POST") && !text::same(method, "PATCH") {
            return None;
        }
        if text::strip_prefix(uri, "/apis/events.k8s.io/v1/namespaces/default/events").is_none() {
            return None;
        }
        if let Some(note) = &ev.note {
            if text::mentions(note.as_str(), "$.spec.databases") && self.object.spec.databases.is_some() {
                return None;
            }
            if text::mentions(note.as_str(), "$.spec.image") && self.object.spec.image.is_some() {
                return None;
            }
        }
        let same = match (&ev.type_, &ev.reason, &ev.action) {
            (Some(t), Some(r), Some(a)) => t.same(type_) && r.same(reason) && a.same(action),
            _ => false,
        };
        if same {
            Some(image.dup())
        } else {
            None
        }
    }

    /// Takes note of an event, and reports whether it is the one that is expected.
    pub fn event(&mut self, method: &str, uri: &str, ev: &SentEvent) -> (r: bool)
        ensures
            r == event_fits(old(self)@, method@, uri@, ev.deep_view()),
            final(self)@ == (if r {
                old(self)@.with_object(after_event(old(self)@.object, old(self)@.next()->0))
            } else {
                old(self)@
            }),
    {
        match self.judge_event(method, uri, ev) {
            Some(image) => {
                if image.is_some() {
                    self.object.spec.image = image;
                }
                self.seen = self.seen + 1;
                true
            },
            None => false,
        }
    }

    /// The answer to a request for an object, if that is what is expected.
    fn judge_get(&self, method: &str, uri: &str) -> (r: Option<Answer>)
        ensures
            r.deep_view() == answer_for(self@, method@, uri@),
            r is Some ==> self.seen < usize::MAX,
    {
        let (path, missing) = match self.next() {
            Some(Expected::Get(path, missing)) => (path, missing),
            _ => return None,
        };
        if !text::same(method, "GET") || !leads_to(uri, path.as_str()) {
            return None;
        }
        match self.state.get(path.as_str()) {
            Some(doc) => Some(Answer::Found(doc.dup())),
            None => Some(Answer::NotFound(missing.dup())),
        }
    }

    /// Takes note of a request for an object, and answers it. There is no answer to a request that
    /// is not the one that is expected.
    pub fn check_resource(&mut self, method: &str, uri: &str) -> (r: Option<Answer>)
        ensures
            r.deep_view() == answer_for(old(self)@, method@, uri@),
            final(self)@ == (if r is Some {
                old(self)@.advanced()
            } else {
                old(self)@
            }),
    {
        let r = self.judge_get(method, uri);
        if r.is_some() {
            self.seen = self.seen + 1;
        }
        r
    }

    /// Where an object that is created goes, and its text, if that is what is expected.
    fn judge_create(&self, method: &str, uri: &str, body: &Vec<u8>) -> (r: Option<
        (String, Vec<u8>),
    >)
        ensures
            match r {
                Some((path, doc)) => creation(self@, method@, uri@, body@) == Some((path@, doc@))
                    && self.seen < usize::MAX,
                None => creation(self@, method@, uri@, body@) is None,
            },
    {
        let all = match self.next() {
            Some(Expected::Create(all)) => all,
            _ => return None,
        };
        let end = text::cat3(all.as_str(), "?&fieldManager=", CONTROLLER_NAME);
        if !text::same(method, "POST") || !leads_to(uri, end.as_str()) {
            return None;
        }
        let doc = match json::parse(body.as_slice()) {
            Ok(doc) => doc,
            Err(_) => return None,
        };
        let path = match find_name(&doc) {
            Some(name) => text::cat3(all.as_str(), "/", name),
            None => return None,
        };
        if self.state.contains_key(path.as_str()) {
            return None;
        }
        Some((path, json::write(&doc).unwrap()))
    }

    /// Takes in an object that is created, and reports whether that is what is expected and there
    /// was none of its name yet.
    pub fn create_resource(&mut self, method: &str, uri: &str, body: &Vec<u8>) -> (r: bool)
        ensures
            match creation(old(self)@, method@, uri@, body@) {
                Some((path, doc)) => r && final(self)@ == old(self)@.stored(path, doc),
                None => !r && final(self)@ == old(self)@,
            },
    {
        match self.judge_create(method, uri, body) {
            Some((path, doc)) => {
                assert(doc.deep_view() =~= doc@);
                self.state.insert(path, doc);
                self.seen = self.seen + 1;
                true
            },
            None => false,
        }
    }

    /// Where an object that is changed is, and its text then, if that is what is expected.
    fn judge_update(&self, method: &str, uri: &str, body: &Vec<u8>) -> (r: Option<
        (String, Vec<u8>),
    >)
        ensures
            match r {
                Some((path, doc)) => change(self@, method@, uri@, body@) == Some((path@, doc@))
                    && self.seen < usize::MAX,
                None => change(self@, method@, uri@, body@) is None,
            },
    {
        let (path, name) = match self.next() {
            Some(Expected::Update(path, name)) => (path, name),
            _ => return None,
        };
        let end = text::cat(path.as_str(), strictly().as_str());
        if !text::same(method, "PATCH") || !leads_to(uri, end.as_str()) {
            return None;
        }
        let doc = match json::parse(body.as_slice()) {
            Ok(doc) => doc,
            Err(_) => return None,
        };
        match find_name(&doc) {
            Some(found) => if !text::same(found, name.as_str()) {
                return None;
            },
            None => return None,
        }
        match self.state.get(path.as_str()) {
            None => Some((path.dup(), json::write(&doc).unwrap())),
            Some(stored) => {
                assert(stored.deep_view() =~= stored@);
                match json::parse(stored.as_slice()) {
                    Ok(current) => {
                        let mut next = current;
                        json::merge(&mut next, &doc);
                        Some((path.dup(), json::write(&next).unwrap()))
                    },
                    Err(_) => None,
                }
            },
        }
    }

    /// Takes in a change of an object, and answers with the object then. There is no answer to a
    /// change that is not the one that is expected, or that is for another object.
    pub fn update_resource(&mut self, method: &str, uri: &str, body: &Vec<u8>) -> (r: Option<
        Vec<u8>,
    >)
        ensures
            match change(old(self)@, method@, uri@, body@) {
                Some((path, doc)) => {
                    &&& r is Some && r->0@ == doc
                    &&& final(self)@ == old(self)@.stored(path, doc)
                },
                None => r is None && final(self)@ == old(self)@,
            },
    {
        match self.judge_update(method, uri, body) {
            Some((path, doc)) => {
                let answer = doc.dup();
                assert(answer.deep_view() =~= answer@ && doc.deep_view() =~= doc@);
                self.state.insert(path, doc);
                self.seen = self.seen + 1;
                Some(answer)
            },
            None => None,
        }
    }

    /// The instance after a change of its status, if that is what is expected.
    fn judge_status(&self, method: &str, uri: &str, status: ClairStatus) -> (r: Option<Clair>)
        ensures
            r.deep_view() == status_change(self@, method@, uri@, status@),
            r is Some ==> self.seen < usize::MAX,
    {
        let (expected, check) = match self.next() {
            Some(Expected::Status(expected, check)) => (expected, check),
            _ => return None,
        };
        if !text::same(method, "PATCH") || !text::same(uri, expected.as_str()) {
            return None;
        }
        let after = update_status(&self.object.status, status);
        if !satisfy(&after.conditions, check) {
            return None;
        }
        Some(Clair { status: Some(after), ..self.object.dup() })
    }

    /// Takes in a change of the instance's status, and answers with the instance then. There is no
    /// answer to a change that is not the one that is expected.
    pub fn status_patch(&mut self, method: &str, uri: &str, status: ClairStatus) -> (r: Option<
        Clair,
    >)
        ensures
            r.deep_view() == status_change(old(self)@, method@, uri@, status@),
            final(self)@ == (match r {
                Some(c) => old(self)@.with_object(c@),
                None => old(self)@,
            }),
    {
        match self.judge_status(method, uri, status) {
            Some(c) => {
                self.object = c.dup();
                self.seen = self.seen + 1;
                Some(c)
            },
            None => None,
        }
    }

    /// Reports whether everything that was expected happened.
    pub fn finished(&self) -> (r: bool)
        ensures
            r == self@.done(),
    {
        self.seen >= self.expected.len()
    }
}

/// The bytes of a text.
fn bytes_of(s: &str) -> (r: Vec<u8>)
    ensures
        r.deep_view() == encode_utf8(s@),
{
    let r = s.as_bytes_vec();
    assert(r.deep_view() =~= r@);
    r
}

/// What was created is found, once it is asked for.
pub proof fn created_is_found(
    srv: ClairServerVerifierView,
    method: Seq<char>,
    uri: Seq<char>,
    body: Seq<u8>,
    later: ClairServerVerifierView,
    at: Seq<char>,
)
    requires
        creation(srv, method, uri, body) is Some,
        ({
            let (path, doc) = creation(srv, method, uri, body)->0;
            &&& later.state == srv.stored(path, doc).state
            &&& later.next() is Some
            &&& later.next()->0 is Get
            &&& later.next()->0->Get_0 == path
            &&& ends_at(at, path)
        }),
    ensures
        ({
            let (path, doc) = creation(srv, method, uri, body)->0;
            answer_for(later, "GET"@, at) == Some(AnswerView::Found(doc))
        }),
{
}

/// Nothing is created twice: an object that was created is not created again.
pub proof fn created_once(
    srv: ClairServerVerifierView,
    method: Seq<char>,
    uri: Seq<char>,
    body: Seq<u8>,
    later: ClairServerVerifierView,
)
    requires
        creation(srv, method, uri, body) is Some,
        ({
            let (path, doc) = creation(srv, method, uri, body)->0;
            later.state == srv.stored(path, doc).state
        }),
        later.next() == srv.next(),
    ensures
        creation(later, method, uri, body) is None,
{
}

} // verus!
