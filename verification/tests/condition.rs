use clair_operator::clairs::reason::{AdminPre, Configuration};
use clair_operator::condition::{
    condition_types, new, new_at, ConditionBuilder, ConditionTypeFor, Conditions, Reason, Status,
    Type,
};
use clair_operator::k8s::meta::{Condition, ObjectMeta, Time};
use clair_operator::k8s::pod::ConfigMap;
use clair_operator::k8s::workload::HorizontalPodAutoscaler;
use clair_operator::v1alpha1::{Clair, ClairStatus};

#[test]
fn status_eq() {
    assert_eq!(Status::Unknown, "Unknown");
    assert_eq!(Status::Unknown, "other");
    assert_eq!(Status::True, "True");
    assert_eq!(Status::False, "False");
}

#[test]
fn type_eq() {
    assert!(Type::SpecOk == "clairproject.org/SpecOk");
}

#[test]
fn type_ne() {
    assert!(Type::SpecOk != "SpecOk");
    assert!(Type::SpecOk != "clairproject.org/ConfigReady");
    assert!(Type::SpecOk != "clairproject.org/Other");
    assert!(Type::SpecOk == Type::SpecOk);
    assert!(Type::IndexerCreated != Type::MatcherCreated);
    assert!(Status::True != Status::False);
}

#[test]
fn types_are_known_by_name() {
    assert_eq!(
        Type::AdminPreJobDone.to_string(),
        "clairproject.org/AdminPreJobDone"
    );
    assert!(Type::from_str("ServiceCreated") == Some(Type::ServiceCreated));
    assert!(Type::from_str("Service").is_none());
    assert!(Status::from_str("False") == Some(Status::False));
    assert!(Status::from_str("false").is_none());
    assert!(Status::default() == Status::Unknown);
}

#[test]
fn kinds_have_condition_types() {
    assert!(ConfigMap::condition_type() == Type::ConfigMapCreated);
    assert!(
        HorizontalPodAutoscaler::condition_type() == Type::HorizontalPodAutoscalerCreated
    );
    let (path, ty) = condition_types("Deployment").unwrap();
    assert_eq!(path, "::k8s_openapi::api::apps::v1::Deployment");
    assert!(ty == Type::DeploymentCreated);
    assert_eq!(
        condition_types("Pod").unwrap_err(),
        "unknown argument: Pod"
    );
}

#[test]
fn reasons_equal_their_words() {
    assert!(AdminPre::JobMissing == "JobMissing".to_string());
    assert!(AdminPre::JobMissing != "JobFailed".to_string());
    assert_eq!(Configuration::Reconciled.to_string(), "Reconciled");
}

fn moment() -> Time {
    Time {
        second: 7,
        nanosecond: 9,
    }
}

#[test]
fn builder_has_defaults() {
    let c = ConditionBuilder::new().build_at(moment());
    assert_eq!(
        c,
        Condition {
            type_: "".to_string(),
            status: "Unknown".to_string(),
            observed_generation: None,
            last_transition_time: moment(),
            reason: "".to_string(),
            message: "".to_string(),
        }
    );
}

#[test]
fn builder_keeps_what_is_set() {
    let c = ConditionBuilder::new()
        .time(moment())
        .generation(3)
        .type_(Type::SpecOk)
        .status(Status::False)
        .reason(AdminPre::NewClair)
        .message("m")
        .build();
    assert_eq!(
        c,
        Condition {
            type_: "clairproject.org/SpecOk".to_string(),
            status: "False".to_string(),
            observed_generation: Some(3),
            last_transition_time: moment(),
            reason: "NewClair".to_string(),
            message: "m".to_string(),
        }
    );
}

#[test]
fn conditions_carry_the_generation_and_the_time() {
    let clair = Clair {
        metadata: ObjectMeta {
            generation: Some(5),
            ..Default::default()
        },
        ..Default::default()
    };
    let c = new_at(
        &clair,
        Type::ConfigReady,
        Status::True,
        Configuration::Reconciled,
        "done",
        moment(),
    );
    assert_eq!(c.observed_generation, Some(5));
    assert_eq!(c.last_transition_time, moment());
    let c = new(
        &clair,
        Type::ConfigReady,
        Status::True,
        Configuration::Reconciled,
        "done",
    );
    // The clock has moved on since 2020.
    assert!(c.last_transition_time.second > 1_577_836_800);
    assert!(c.last_transition_time.nanosecond >= 0);
    assert_eq!(c.reason, "Reconciled");
}

#[test]
fn the_first_condition_of_a_type_is_found() {
    let cond = |ty: Type, msg: &str| {
        ConditionBuilder::new()
            .type_(ty)
            .message(msg)
            .build_at(moment())
    };
    let mut clair = Clair::default();
    assert!(clair.find_condition(Type::SpecOk).is_none());
    clair.status = Some(ClairStatus {
        conditions: Some(vec![
            cond(Type::ConfigReady, "a"),
            cond(Type::SpecOk, "b"),
            cond(Type::SpecOk, "c"),
        ]),
        ..Default::default()
    });
    assert_eq!(clair.find_condition(Type::SpecOk).unwrap().message, "b");
    assert!(clair.find_condition(Type::AdminPreJobDone).is_none());
}
