//! Module condition enumerates and contains helpers for kubernetes `Condition`s used by the
//! controller.

use vstd::prelude::*;

use crate::clock;
use crate::k8s::meta::{Condition, ConditionView, Time, TimeView};
use crate::k8s::pod::{ConfigMap, Secret, Service};
use crate::k8s::workload::{Deployment, HorizontalPodAutoscaler};
use crate::resource::Resource;
use crate::text;
use crate::v1alpha1::{
    Clair, ClairView, Indexer, IndexerView, Matcher, MatcherView, Notifier,
};

verus! {

/// What the types of all conditions start with.
pub const PREFIX: &'static str = "clairproject.org/";

/// Status enumerates the statuses for the kubernetes Conditions used by the controller.
#[derive(Clone, Copy, Debug)]
pub enum Status {
    /// Nothing is known.
    Unknown,
    /// It is so.
    True,
    /// It is not so.
    False,
}

impl Default for Status {
    fn default() -> (r: Self)
        ensures
            r == Status::Unknown,
    {
        Status::Unknown
    }
}

impl Status {
    /// The name of the status.
    pub open spec fn name(self) -> Seq<char> {
        match self {
            Status::Unknown => "Unknown"@,
            Status::True => "True"@,
            Status::False => "False"@,
        }
    }

    /// The status of a name; what is no name of a status stands for [`Status::Unknown`].
    pub open spec fn of(name: Seq<char>) -> Status {
        if name == "True"@ {
            Status::True
        } else if name == "False"@ {
            Status::False
        } else {
            Status::Unknown
        }
    }

    /// The name of the status.
    pub fn as_str(self) -> (r: &'static str)
        ensures
            r@ == self.name(),
    {
        match self {
            Status::Unknown => "Unknown",
            Status::True => "True",
            Status::False => "False",
        }
    }

    /// The status of a name, if it is one.
    pub fn from_str(s: &str) -> (r: Option<Status>)
        ensures
            match r {
                Some(status) => status.name() == s@,
                None => s@ != "Unknown"@ && s@ != "True"@ && s@ != "False"@,
            },
    {
        if text::same(s, "Unknown") {
            Some(Status::Unknown)
        } else if text::same(s, "True") {
            Some(Status::True)
        } else if text::same(s, "False") {
            Some(Status::False)
        } else {
            None
        }
    }

    /// Reports whether a name stands for the status.
    pub fn is(self, name: &str) -> (r: bool)
        ensures
            r == (self == Status::of(name@)),
    {
        proof {
            status_names();
        }
        let other = match Status::from_str(name) {
            Some(status) => status,
            None => Status::Unknown,
        };
        match (self, other) {
            (Status::Unknown, Status::Unknown) => true,
            (Status::True, Status::True) => true,
            (Status::False, Status::False) => true,
            _ => false,
        }
    }
}

/// Every status is known by its name.
pub proof fn status_names()
    ensures
        forall|s: Status| Status::of(#[trigger] s.name()) == s,
        "True"@ != "False"@,
        "True"@ != "Unknown"@,
        "False"@ != "Unknown"@,
{
    reveal_strlit("True");
    reveal_strlit("False");
    reveal_strlit("Unknown");
    assert("True"@[0] != "False"@[0]);
    assert("True"@[0] != "Unknown"@[0]);
    assert("False"@[0] != "Unknown"@[0]);
}

impl PartialEq for Status {
    fn eq(&self, other: &Status) -> (r: bool) {
        match (self, other) {
            (Status::Unknown, Status::Unknown) => true,
            (Status::True, Status::True) => true,
            (Status::False, Status::False) => true,
            _ => false,
        }
    }
}

impl vstd::std_specs::cmp::PartialEqSpecImpl for Status {
    open spec fn obeys_eq_spec() -> bool {
        true
    }

    open spec fn eq_spec(&self, other: &Status) -> bool {
        *self == *other
    }
}

impl PartialEq<&str> for Status {
    fn eq(&self, other: &&str) -> (r: bool) {
        self.is(other)
    }
}

impl vstd::std_specs::cmp::PartialEqSpecImpl<&str> for Status {
    open spec fn obeys_eq_spec() -> bool {
        true
    }

    open spec fn eq_spec(&self, other: &&str) -> bool {
        *self == Status::of(other@)
    }
}

/// Type enumerates the type identifier for the kubernetes Conditions used by the controller.
#[derive(Clone, Copy, Debug)]
pub enum Type {
    /// The configuration is in place.
    ConfigReady,
    /// The command before an upgrade is done.
    AdminPreJobDone,
    /// The command after an upgrade is done.
    AdminPostJobDone,
    /// The spec can be used.
    SpecOk,
    /// The ConfigMap was created.
    ConfigMapCreated,
    /// The Secret was created.
    SecretCreated,
    /// The Indexer was created.
    IndexerCreated,
    /// The Matcher was created.
    MatcherCreated,
    /// The Notifier was created.
    NotifierCreated,
    /// The HorizontalPodAutoscaler was created.
    HorizontalPodAutoscalerCreated,
    /// The Service was created.
    ServiceCreated,
    /// The Deployment was created.
    DeploymentCreated,
}

impl Type {
    /// The name of the type, without the prefix.
    pub open spec fn short(self) -> Seq<char> {
        match self {
            Type::ConfigReady => "ConfigReady"@,
            Type::AdminPreJobDone => "AdminPreJobDone"@,
            Type::AdminPostJobDone => "AdminPostJobDone"@,
            Type::SpecOk => "SpecOk"@,
            Type::ConfigMapCreated => "ConfigMapCreated"@,
            Type::SecretCreated => "SecretCreated"@,
            Type::IndexerCreated => "IndexerCreated"@,
            Type::MatcherCreated => "MatcherCreated"@,
            Type::NotifierCreated => "NotifierCreated"@,
            Type::HorizontalPodAutoscalerCreated => "HorizontalPodAutoscalerCreated"@,
            Type::ServiceCreated => "ServiceCreated"@,
            Type::DeploymentCreated => "DeploymentCreated"@,
        }
    }

    /// The name of the type.
    pub open spec fn name(self) -> Seq<char> {
        "clairproject.org/"@ + self.short()
    }

    /// The name of the type, without the prefix.
    pub fn as_str(self) -> (r: &'static str)
        ensures
            r@ == self.short(),
    {
        match self {
            Type::ConfigReady => "ConfigReady",
            Type::AdminPreJobDone => "AdminPreJobDone",
            Type::AdminPostJobDone => "AdminPostJobDone",
            Type::SpecOk => "SpecOk",
            Type::ConfigMapCreated => "ConfigMapCreated",
            Type::SecretCreated => "SecretCreated",
            Type::IndexerCreated => "IndexerCreated",
            Type::MatcherCreated => "MatcherCreated",
            Type::NotifierCreated => "NotifierCreated",
            Type::HorizontalPodAutoscalerCreated => "HorizontalPodAutoscalerCreated",
            Type::ServiceCreated => "ServiceCreated",
            Type::DeploymentCreated => "DeploymentCreated",
        }
    }

    /// The type of a short name, if it is one.
    pub fn from_str(s: &str) -> (r: Option<Type>)
        ensures
            match r {
                Some(t) => t.short() == s@,
                None => forall|t: Type| #[trigger] t.short() != s@,
            },
    {
        if text::same(s, "ConfigReady") {
            Some(Type::ConfigReady)
        } else if text::same(s, "AdminPreJobDone") {
            Some(Type::AdminPreJobDone)
        } else if text::same(s, "AdminPostJobDone") {
            Some(Type::AdminPostJobDone)
        } else if text::same(s, "SpecOk") {
            Some(Type::SpecOk)
        } else if text::same(s, "ConfigMapCreated") {
            Some(Type::ConfigMapCreated)
        } else if text::same(s, "SecretCreated") {
            Some(Type::SecretCreated)
        } else if text::same(s, "IndexerCreated") {
            Some(Type::IndexerCreated)
        } else if text::same(s, "MatcherCreated") {
            Some(Type::MatcherCreated)
        } else if text::same(s, "NotifierCreated") {
            Some(Type::NotifierCreated)
        } else if text::same(s, "HorizontalPodAutoscalerCreated") {
            Some(Type::HorizontalPodAutoscalerCreated)
        } else if text::same(s, "ServiceCreated") {
            Some(Type::ServiceCreated)
        } else if text::same(s, "DeploymentCreated") {
            Some(Type::DeploymentCreated)
        } else {
            None
        }
    }

    /// The name of the type.
    pub fn to_string(self) -> (r: String)
        ensures
            r@ == self.name(),
    {
        text::cat(PREFIX, self.as_str())
    }

    /// Reports whether a string is the name of the type.
    pub fn is(self, name: &str) -> (r: bool)
        ensures
            r == (name@ == self.name()),
    {
        let r = match text::strip_prefix(name, PREFIX) {
            Some(rest) => {
                let r = text::same(rest, self.as_str());
                proof {
                    assert(name@ =~= name@.take(PREFIX@.len() as int) + rest@);
                    assert(self.name().skip(PREFIX@.len() as int) =~= self.short());
                }
                r
            },
            None => {
                assert(self.name().take(PREFIX@.len() as int) =~= PREFIX@);
                false
            },
        };
        r
    }
}

/// Every type is known by its name.
pub proof fn type_names(a: Type, b: Type)
    ensures
        a.name() == b.name() <==> a == b,
{
    assert(a.name().skip("clairproject.org/"@.len() as int) =~= a.short());
    assert(b.name().skip("clairproject.org/"@.len() as int) =~= b.short());
    type_short_names(a, b);
}

/// Every type is known by its short name.
proof fn type_short_names(a: Type, b: Type)
    ensures
        a.short() == b.short() <==> a == b,
{
    reveal_strlit("ConfigReady");
    reveal_strlit("AdminPreJobDone");
    reveal_strlit("AdminPostJobDone");
    reveal_strlit("SpecOk");
    reveal_strlit("ConfigMapCreated");
    reveal_strlit("SecretCreated");
    reveal_strlit("IndexerCreated");
    reveal_strlit("MatcherCreated");
    reveal_strlit("NotifierCreated");
    reveal_strlit("HorizontalPodAutoscalerCreated");
    reveal_strlit("ServiceCreated");
    reveal_strlit("DeploymentCreated");
    if a.short() == b.short() {
        assert(a.short().len() == b.short().len());
        assert(a.short()[0] == b.short()[0]);
        assert(a.short()[1] == b.short()[1]);
        assert(a.short()[2] == b.short()[2]);
        assert(a.short()[5] == b.short()[5]);
        assert(a.short().len() <= 6 || a.short()[6] == b.short()[6]);
    }
}

impl PartialEq for Type {
    fn eq(&self, other: &Type) -> (r: bool) {
        proof {
            type_short_names(*self, *other);
        }
        text::same(self.as_str(), other.as_str())
    }
}

impl vstd::std_specs::cmp::PartialEqSpecImpl for Type {
    open spec fn obeys_eq_spec() -> bool {
        true
    }

    open spec fn eq_spec(&self, other: &Type) -> bool {
        *self == *other
    }
}

impl PartialEq<&str> for Type {
    fn eq(&self, other: &&str) -> (r: bool) {
        self.is(other)
    }
}

impl vstd::std_specs::cmp::PartialEqSpecImpl<&str> for Type {
    open spec fn obeys_eq_spec() -> bool {
        true
    }

    open spec fn eq_spec(&self, other: &&str) -> bool {
        other@ == self.name()
    }
}

/// ConditionTypeFor associates a [`Type`] with the implementor.
///
/// This trait is implemented on objects that are created by the controller and tracked in the
/// reconciled resource.
pub trait ConditionTypeFor: Resource {
    /// The associated [`Type`].
    spec fn type_of() -> Type;

    /// The type is named after the kind.
    proof fn type_is_kind_created()
        ensures
            Self::type_of().short() == Self::kind_name() + "Created"@,
    ;

    /// The associated [`Type`].
    fn condition_type() -> (r: Type)
        ensures
            r == Self::type_of(),
    ;
}

impl ConditionTypeFor for ConfigMap {
    open spec fn type_of() -> Type {
        Type::ConfigMapCreated
    }

    proof fn type_is_kind_created() {
        reveal_strlit("ConfigMap");
        reveal_strlit("Created");
        reveal_strlit("ConfigMapCreated");
        assert("ConfigMap"@ + "Created"@ =~= "ConfigMapCreated"@);
    }

    fn condition_type() -> (r: Type) {
        Type::ConfigMapCreated
    }
}

impl ConditionTypeFor for Deployment {
    open spec fn type_of() -> Type {
        Type::DeploymentCreated
    }

    proof fn type_is_kind_created() {
        reveal_strlit("Deployment");
        reveal_strlit("Created");
        reveal_strlit("DeploymentCreated");
        assert("Deployment"@ + "Created"@ =~= "DeploymentCreated"@);
    }

    fn condition_type() -> (r: Type) {
        Type::DeploymentCreated
    }
}

impl ConditionTypeFor for Secret {
    open spec fn type_of() -> Type {
        Type::SecretCreated
    }

    proof fn type_is_kind_created() {
        reveal_strlit("Secret");
        reveal_strlit("Created");
        reveal_strlit("SecretCreated");
        assert("Secret"@ + "Created"@ =~= "SecretCreated"@);
    }

    fn condition_type() -> (r: Type) {
        Type::SecretCreated
    }
}

impl ConditionTypeFor for Service {
    open spec fn type_of() -> Type {
        Type::ServiceCreated
    }

    proof fn type_is_kind_created() {
        reveal_strlit("Service");
        reveal_strlit("Created");
        reveal_strlit("ServiceCreated");
        assert("Service"@ + "Created"@ =~= "ServiceCreated"@);
    }

    fn condition_type() -> (r: Type) {
        Type::ServiceCreated
    }
}

impl ConditionTypeFor for Indexer {
    open spec fn type_of() -> Type {
        Type::IndexerCreated
    }

    proof fn type_is_kind_created() {
        reveal_strlit("Indexer");
        reveal_strlit("Created");
        reveal_strlit("IndexerCreated");
        assert("Indexer"@ + "Created"@ =~= "IndexerCreated"@);
    }

    fn condition_type() -> (r: Type) {
        Type::IndexerCreated
    }
}

impl ConditionTypeFor for Matcher {
    open spec fn type_of() -> Type {
        Type::MatcherCreated
    }

    proof fn type_is_kind_created() {
        reveal_strlit("Matcher");
        reveal_strlit("Created");
        reveal_strlit("MatcherCreated");
        assert("Matcher"@ + "Created"@ =~= "MatcherCreated"@);
    }

    fn condition_type() -> (r: Type) {
        Type::MatcherCreated
    }
}

impl ConditionTypeFor for Notifier {
    open spec fn type_of() -> Type {
        Type::NotifierCreated
    }

    proof fn type_is_kind_created() {
        reveal_strlit("Notifier");
        reveal_strlit("Created");
        reveal_strlit("NotifierCreated");
        assert("Notifier"@ + "Created"@ =~= "NotifierCreated"@);
    }

    fn condition_type() -> (r: Type) {
        Type::NotifierCreated
    }
}

impl ConditionTypeFor for HorizontalPodAutoscaler {
    open spec fn type_of() -> Type {
        Type::HorizontalPodAutoscalerCreated
    }

    proof fn type_is_kind_created() {
        reveal_strlit("HorizontalPodAutoscaler");
        reveal_strlit("Created");
        reveal_strlit("HorizontalPodAutoscalerCreated");
        assert("HorizontalPodAutoscaler"@ + "Created"@ =~= "HorizontalPodAutoscalerCreated"@);
    }

    fn condition_type() -> (r: Type) {
        Type::HorizontalPodAutoscalerCreated
    }
}

/// Where the type of a kind is found, and its condition type.
pub open spec fn known_type(name: Seq<char>) -> Option<(Seq<char>, Type)> {
    if name == "ConfigMap"@ {
        Some(("::k8s_openapi::api::core::v1::"@ + name, Type::ConfigMapCreated))
    } else if name == "Secret"@ {
        Some(("::k8s_openapi::api::core::v1::"@ + name, Type::SecretCreated))
    } else if name == "Service"@ {
        Some(("::k8s_openapi::api::core::v1::"@ + name, Type::ServiceCreated))
    } else if name == "Deployment"@ {
        Some(("::k8s_openapi::api::apps::v1::"@ + name, Type::DeploymentCreated))
    } else if name == "HorizontalPodAutoscaler"@ {
        Some(
            (
                "::k8s_openapi::api::autoscaling::v2::"@ + name,
                Type::HorizontalPodAutoscalerCreated,
            ),
        )
    } else if name == "Indexer"@ {
        Some(("::api::v1alpha1::"@ + name, Type::IndexerCreated))
    } else if name == "Matcher"@ {
        Some(("::api::v1alpha1::"@ + name, Type::MatcherCreated))
    } else if name == "Notifier"@ {
        Some(("::api::v1alpha1::"@ + name, Type::NotifierCreated))
    } else {
        None
    }
}

/// Condition_types tells where the type of a kind is found, and its condition type.
///
/// Only a limited set of known types are allowed.
pub fn condition_types(name: &str) -> (r: Result<(String, Type), String>)
    ensures
        match r {
            Ok((path, ty)) => known_type(name@) == Some((path@, ty)),
            Err(msg) => known_type(name@) is None && msg@ == "unknown argument: "@ + name@,
        },
{
    let core = "::k8s_openapi::api::core::v1::";
    let own = "::api::v1alpha1::";
    if text::same(name, "ConfigMap") {
        Ok((text::cat(core, name), Type::ConfigMapCreated))
    } else if text::same(name, "Secret") {
        Ok((text::cat(core, name), Type::SecretCreated))
    } else if text::same(name, "Service") {
        Ok((text::cat(core, name), Type::ServiceCreated))
    } else if text::same(name, "Deployment") {
        Ok((text::cat("::k8s_openapi::api::apps::v1::", name), Type::DeploymentCreated))
    } else if text::same(name, "HorizontalPodAutoscaler") {
        Ok(
            (
                text::cat("::k8s_openapi::api::autoscaling::v2::", name),
                Type::HorizontalPodAutoscalerCreated,
            ),
        )
    } else if text::same(name, "Indexer") {
        Ok((text::cat(own, name), Type::IndexerCreated))
    } else if text::same(name, "Matcher") {
        Ok((text::cat(own, name), Type::MatcherCreated))
    } else if text::same(name, "Notifier") {
        Ok((text::cat(own, name), Type::NotifierCreated))
    } else {
        Err(text::cat("unknown argument: ", name))
    }
}

/// Reason is a trait for types meant to be used as condition reasons.
///
/// It's useful to keep track of them because they're _kind of_ API.
pub trait Reason {
    /// The word for the reason.
    spec fn word(&self) -> Seq<char>;

    /// The word for the reason.
    fn to_string(&self) -> (r: String)
        ensures
            r@ == self.word(),
    ;
}

/// A condition of an object at its present generation.
pub open spec fn condition_at(
    generation: Option<i64>,
    type_: Type,
    status: Status,
    reason: Seq<char>,
    message: Seq<char>,
    now: TimeView,
) -> ConditionView {
    ConditionView {
        type_: type_.name(),
        status: status.name(),
        observed_generation: generation,
        last_transition_time: now,
        reason,
        message,
    }
}

/// A condition of an object at its present generation, as of now.
pub fn new<O: Resource, R: Reason>(
    obj: &O,
    type_: Type,
    status: Status,
    reason: R,
    message: &str,
) -> (r: Condition)
    ensures
        r@ == condition_at(
            O::metadata(obj.deep_view()).generation,
            type_,
            status,
            reason.word(),
            message@,
            r@.last_transition_time,
        ),
{
    new_at(obj, type_, status, reason, message, clock::now())
}

/// A condition of an object at its present generation, as of a given time.
pub fn new_at<O: Resource, R: Reason>(
    obj: &O,
    type_: Type,
    status: Status,
    reason: R,
    message: &str,
    now: Time,
) -> (r: Condition)
    ensures
        r@ == condition_at(
            O::metadata(obj.deep_view()).generation,
            type_,
            status,
            reason.word(),
            message@,
            now@,
        ),
{
    let mut b = ConditionBuilder::new().type_(type_).status(status).reason(reason).message(message);
    if let Some(n) = obj.meta().generation {
        b = b.generation(n);
    }
    b.build_at(now)
}

/// ConditionBuilder is a Builder for controller-produced Conditions.
pub struct ConditionBuilder {
    last_transition_time: Option<Time>,
    observed_generation: Option<i64>,
    type__: Option<Type>,
    status_: Option<Status>,
    reason_: Option<String>,
    message_: Option<String>,
}

/// The value of a [`ConditionBuilder`].
pub ghost struct ConditionBuilderView {
    pub time: Option<TimeView>,
    pub generation: Option<i64>,
    pub type_: Option<Type>,
    pub status: Option<Status>,
    pub reason: Option<Seq<char>>,
    pub message: Option<Seq<char>>,
}

impl View for ConditionBuilder {
    type V = ConditionBuilderView;

    closed spec fn view(&self) -> ConditionBuilderView {
        ConditionBuilderView {
            time: self.last_transition_time.deep_view(),
            generation: self.observed_generation,
            type_: self.type__,
            status: self.status_,
            reason: self.reason_.deep_view(),
            message: self.message_.deep_view(),
        }
    }
}

impl ConditionBuilderView {
    /// The condition that is built; what was not set has a default.
    pub open spec fn condition(self, now: TimeView) -> ConditionView {
        ConditionView {
            observed_generation: self.generation,
            last_transition_time: match self.time {
                Some(time) => time,
                None => now,
            },
            type_: match self.type_ {
                Some(type_) => type_.name(),
                None => Seq::empty(),
            },
            status: match self.status {
                Some(status) => status.name(),
                None => "Unknown"@,
            },
            reason: match self.reason {
                Some(reason) => reason,
                None => Seq::empty(),
            },
            message: match self.message {
                Some(message) => message,
                None => Seq::empty(),
            },
        }
    }
}

impl ConditionBuilder {
    /// Create a ConditionBuilder.
    pub fn new() -> (r: Self)
        ensures
            r@ == (ConditionBuilderView {
                time: None,
                generation: None,
                type_: None,
                status: None,
                reason: None,
                message: None,
            }),
    {
        ConditionBuilder {
            last_transition_time: None,
            observed_generation: None,
            type__: None,
            status_: None,
            reason_: None,
            message_: None,
        }
    }

    /// Set the `last_transition_time`.
    ///
    /// Defaults to when [`Self::build()`] is called.
    pub fn time(self, t: Time) -> (r: Self)
        ensures
            r@ == (ConditionBuilderView { time: Some(t@), ..self@ }),
    {
        ConditionBuilder { last_transition_time: Some(t), ..self }
    }

    /// Set the `observed_generation`.
    ///
    /// Has no default.
    pub fn generation(self, n: i64) -> (r: Self)
        ensures
            r@ == (ConditionBuilderView { generation: Some(n), ..self@ }),
    {
        ConditionBuilder { observed_generation: Some(n), ..self }
    }

    /// Set the `type`.
    ///
    /// Has no default.
    pub fn type_(self, t: Type) -> (r: Self)
        ensures
            r@ == (ConditionBuilderView { type_: Some(t), ..self@ }),
    {
        ConditionBuilder { type__: Some(t), ..self }
    }

    /// Set the `status`.
    ///
    /// Defaults to [`Status::Unknown`].
    pub fn status(self, s: Status) -> (r: Self)
        ensures
            r@ == (ConditionBuilderView { status: Some(s), ..self@ }),
    {
        ConditionBuilder { status_: Some(s), ..self }
    }

    /// Set the `reason`.
    ///
    /// Defaults to the empty string.
    pub fn reason<R: Reason>(self, reason: R) -> (r: Self)
        ensures
            r@ == (ConditionBuilderView { reason: Some(reason.word()), ..self@ }),
    {
        ConditionBuilder { reason_: Some(reason.to_string()), ..self }
    }

    /// Set the `message`.
    ///
    /// Defaults to the empty string.
    pub fn message(self, s: &str) -> (r: Self)
        ensures
            r@ == (ConditionBuilderView { message: Some(s@), ..self@ }),
    {
        ConditionBuilder { message_: Some(s.to_owned()), ..self }
    }

    /// Consume the ConditionBuilder and return the Condition.
    pub fn build(self) -> (r: Condition)
        ensures
            r@ == self@.condition(r@.last_transition_time),
    {
        self.build_at(clock::now())
    }

    /// Consume the ConditionBuilder and return the Condition, as of a given time.
    pub fn build_at(self, now: Time) -> (r: Condition)
        ensures
            r@ == self@.condition(now@),
    {
        Condition {
            observed_generation: self.observed_generation,
            last_transition_time: match self.last_transition_time {
                Some(time) => time,
                None => now,
            },
            type_: match self.type__ {
                Some(type_) => type_.to_string(),
                None => String::new(),
            },
            status: match self.status_ {
                Some(status) => status.as_str().to_owned(),
                None => Status::default().as_str().to_owned(),
            },
            reason: match self.reason_ {
                Some(reason) => reason,
                None => String::new(),
            },
            message: match self.message_ {
                Some(message) => message,
                None => String::new(),
            },
        }
    }
}

/// The place of the first condition of a type from `i` on, or the end.
pub open spec fn condition_place(cs: Seq<ConditionView>, ty: Seq<char>, i: int) -> int
    decreases cs.len() - i,
{
    if i >= cs.len() || cs[i].type_ == ty {
        i
    } else {
        condition_place(cs, ty, i + 1)
    }
}

/// The first condition of a type.
pub open spec fn first_condition(
    cs: Option<Seq<ConditionView>>,
    ty: Type,
) -> Option<ConditionView> {
    match cs {
        Some(cs) => if condition_place(cs, ty.name(), 0) < cs.len() {
            Some(cs[condition_place(cs, ty.name(), 0)])
        } else {
            None
        },
        None => None,
    }
}

/// Conditions is a helper trait for working with kubernetes [`Resource`]s that have a `conditions`
/// member in their status.
pub trait Conditions: Resource {
    /// The conditions, if both the status and conditions are populated.
    spec fn conditions_of(v: Self::V) -> Option<Seq<ConditionView>>;

    /// Return a reference to the Conditions, if both the status and conditions are populated.
    fn get_conditions(&self) -> (r: Option<&Vec<Condition>>)
        ensures
            match r {
                Some(cs) => Self::conditions_of(self.deep_view()) == Some(cs.deep_view()),
                None => Self::conditions_of(self.deep_view()) is None,
            },
    ;

    /// Find the first Condition of the given Type.
    ///
    /// For objects from the API server, there should only be one.
    fn find_condition(&self, ty: Type) -> (r: Option<&Condition>)
        ensures
            match r {
                Some(c) => first_condition(Self::conditions_of(self.deep_view()), ty) == Some(c@),
                None => first_condition(Self::conditions_of(self.deep_view()), ty) is None,
            },
    {
        let cs = match self.get_conditions() {
            Some(cs) => cs,
            None => return None,
        };
        let ghost all = cs.deep_view();
        let mut i: usize = 0;
        while i < cs.len()
            invariant
                all == cs.deep_view(),
                Self::conditions_of(self.deep_view()) == Some(all),
                i <= cs@.len(),
                condition_place(all, ty.name(), 0) == condition_place(all, ty.name(), i as int),
            decreases cs.len() - i,
        {
            assert(all[i as int] == cs@[i as int]@);
            if ty.is(cs[i].type_.as_str()) {
                return Some(&cs[i]);
            }
            i = i + 1;
        }
        None
    }
}

impl Conditions for Clair {
    open spec fn conditions_of(v: ClairView) -> Option<Seq<ConditionView>> {
        match v.status {
            Some(status) => status.conditions,
            None => None,
        }
    }

    fn get_conditions(&self) -> (r: Option<&Vec<Condition>>) {
        match &self.status {
            Some(status) => status.conditions.as_ref(),
            None => None,
        }
    }
}

impl Conditions for Indexer {
    open spec fn conditions_of(v: IndexerView) -> Option<Seq<ConditionView>> {
        match v.status {
            Some(status) => status.conditions,
            None => None,
        }
    }

    fn get_conditions(&self) -> (r: Option<&Vec<Condition>>) {
        match &self.status {
            Some(status) => status.conditions.as_ref(),
            None => None,
        }
    }
}

impl Conditions for Matcher {
    open spec fn conditions_of(v: MatcherView) -> Option<Seq<ConditionView>> {
        match v.status {
            Some(status) => status.conditions,
            None => None,
        }
    }

    fn get_conditions(&self) -> (r: Option<&Vec<Condition>>) {
        match &self.status {
            Some(status) => status.conditions.as_ref(),
            None => None,
        }
    }
}

} // verus!
