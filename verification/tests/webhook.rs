use clair_operator::compose::ConfigDialect;
use clair_operator::config::{Parts, Run, Validate};
use clair_operator::k8s::meta::ObjectMeta;
use clair_operator::k8s::pod::{ConfigMap, Secret};
use clair_operator::maps::KeyMap;
use clair_operator::v1alpha1::{
    Clair, ClairSpec, ConfigSource, Databases, DropinSource, Indexer, SecretKeySelector,
};
use clair_operator::webhook::{
    check_immutable, check_required, check_spec, clair, conclude, conclude_clair,
    conclude_strictly, dropins_loaded, failures, indexer, mutate_clair, mutate_clair_image,
    mutate_ok, mutate_v1alpha1, no_such_config, root_loaded, validate_clair, validate_inner,
    validate_v1alpha1, validate_v1alpha1_clair, Either, Kind, Operation, Response, Review,
};

fn named(name: &str) -> Clair {
    Clair {
        metadata: ObjectMeta {
            name: Some(name.to_string()),
            ..Default::default()
        },
        ..Default::default()
    }
}

fn selector() -> SecretKeySelector {
    SecretKeySelector {
        name: "configmap".to_string(),
        key: "db.json".to_string(),
    }
}

fn complete() -> Clair {
    let mut c = named("test");
    c.spec.databases = Some(Databases {
        matcher: selector(),
        indexer: selector(),
        ..Default::default()
    });
    c.spec.image = Some("localhost/test:1".to_string());
    c
}

fn answer(r: Review) -> Response {
    match r {
        Review::Answer(res) => res,
        Review::Load(cfg) => panic!("{cfg:?}"),
    }
}

#[test]
fn empty() {
    let res = answer(clair("00", Operation::Create, &named("test")));
    assert!(!res.allowed);
    assert_eq!(res.uid, "00");
    assert_eq!(res.message, "field \"/spec/image\" must be provided");
}

#[test]
fn validate_validate() {
    let res = answer(validate_v1alpha1_clair(
        "00",
        Operation::Create,
        &named("test"),
        None,
        None,
    ));
    assert!(!res.allowed);
    assert_eq!(res.message, "field \"/spec/databases\" must be provided");
}

#[test]
fn none() {
    let res = mutate_clair_image("00", &complete(), "default");
    assert!(res.allowed);
    assert!(res.additions.is_none());
}

#[test]
fn images_have_a_default() {
    let res = mutate_clair_image("00", &named("test"), "default");
    assert!(res.allowed);
    let add = res.additions.unwrap();
    assert_eq!(add.len(), 1);
    assert_eq!(add[0].path, "/spec/image");
    assert_eq!(add[0].value, "default");
    assert_eq!(mutate_ok("1"), Response::from("1"));
}

#[test]
fn specs_may_lack_something() {
    let mut spec = ClairSpec::default();
    let fault = |spec: &ClairSpec| check_spec(spec, true);
    assert_eq!(
        fault(&spec),
        Some("field \"/spec/image\" must be provided".to_string())
    );
    spec.image = Some("i".to_string());
    assert_eq!(
        fault(&spec),
        Some("field \"/spec/databases\" must be provided".to_string())
    );
    spec.databases = Some(Databases::default());
    assert_eq!(fault(&spec), None);
    spec.notifier = Some(true);
    assert_eq!(
        fault(&spec),
        Some("field \"/spec/notifier\" is set but \"/spec/databases/notifier\" is not".to_string())
    );
    spec.databases.as_mut().unwrap().notifier = Some(selector());
    assert_eq!(fault(&spec), None);
    for _ in 0..11 {
        spec.dropins.push(DropinSource::secret("a", "b"));
    }
    spec.dropins.push(DropinSource::default());
    assert_eq!(
        fault(&spec),
        Some("invalid dropin at index 11: no ref specified".to_string())
    );
    assert_eq!(check_required(Operation::Delete, &ClairSpec::default()), None);
    assert!(check_required(Operation::Update, &ClairSpec::default()).is_some());
}

#[test]
fn dialects_do_not_change() {
    let json = Some(ConfigDialect::JSON);
    assert_eq!(check_immutable(Operation::Create, None, json), None);
    assert_eq!(check_immutable(Operation::Update, json, json), None);
    assert_eq!(
        check_immutable(Operation::Update, None, json),
        Some("cannot change field \"/spec/configDialect\"")
    );
    let res = answer(validate_v1alpha1_clair(
        "1",
        Operation::Update,
        &complete(),
        json,
        Some(ConfigDialect::YAML),
    ));
    assert_eq!(res.message, "cannot change field \"/spec/configDialect\"");
}

fn cfg(r: Review) -> ConfigSource {
    match r {
        Review::Load(cfg) => cfg,
        Review::Answer(res) => panic!("{res:?}"),
    }
}

#[test]
fn complete_specs_are_looked_into() {
    let got = cfg(clair("1", Operation::Create, &complete()));
    assert_eq!(got.root.name, "test-config");
    assert_eq!(got.root.key, "config.json");
    assert_eq!(got.dropins, vec![DropinSource::secret("configmap", "db.json")]);
    let got = cfg(clair("1", Operation::Delete, &named("test")));
    assert_eq!(got.dropins, vec![]);
    let got = cfg(validate_v1alpha1_clair("1", Operation::Update, &complete(), None, None));
    assert_eq!(got.dropins.len(), 1);
}

fn map(key: &str, value: &str) -> ConfigMap {
    let mut data = KeyMap::new();
    data.insert(key.to_string(), value.to_string());
    ConfigMap {
        data: Some(data),
        ..Default::default()
    }
}

#[test]
fn configurations_are_loaded() {
    let res = root_loaded("1", &None, "config.json").err().unwrap();
    assert_eq!(res, no_such_config("1"));
    assert_eq!(res.message, "no such config: {name}");
    let res = root_loaded("1", &Some(map("a", "{}")), "config.json").err().unwrap();
    assert_eq!(
        res.message,
        "invalid ConfigSource: missing key: config.json"
    );
    assert_eq!(res.reason, "InvalidRequest");
    assert_eq!(res.uid, "");
    let b = || root_loaded("1", &Some(map("config.json", r#"{"a":1}"#)), "config.json").ok().unwrap();
    let mut data = KeyMap::new();
    data.insert("s.json".to_string(), br#"{"b":2}"#.to_vec());
    let secret = Secret {
        data: Some(data),
        ..Default::default()
    };
    let ds = vec![
        (Either::ConfigMap(map("m.json", r#"{"a":null}"#)), "m.json".to_string()),
        (Either::Secret(secret), "s.json".to_string()),
    ];
    let parts = Parts::from(dropins_loaded(b(), &ds).ok().unwrap());
    assert_eq!(parts.try_render().unwrap().unwrap(), br#"{"b":2}"#.to_vec());
    let ds = vec![(Either::ConfigMap(map("x", "")), "m.json".to_string())];
    let res = dropins_loaded(b(), &ds).err().unwrap();
    assert_eq!(res, Response::invalid("invalid ConfigSource: missing key: m.json"));
}

fn validated(exits: [i32; 4]) -> Validate {
    let run = |exit: i32| Run {
        exit,
        out: "out".to_string(),
    };
    Validate::new(run(exits[0]), run(exits[1]), run(exits[2]), run(exits[3]))
}

#[test]
fn hopeless_updates_are_denied() {
    let all = failures(&validated([1, 1, 1, 1]));
    assert_eq!(
        all[0],
        Some("validation failure: out (exit code 1)".to_string())
    );
    let res = conclude("1", Operation::Update, &all);
    assert!(!res.allowed);
    assert_eq!(res.message, "configuration change is extremely invalid");
    assert_eq!(res.warnings.as_ref().unwrap().len(), 4);
    let res = conclude("1", Operation::Create, &all);
    assert!(res.allowed);
    assert_eq!(res.warnings.unwrap().len(), 4);
    let some = failures(&validated([0, 1, 0, 2]));
    let res = conclude("1", Operation::Update, &some);
    assert!(res.allowed);
    assert_eq!(
        res.warnings,
        Some(vec![
            "validation failure: out (exit code 1)".to_string(),
            "validation failure: out (exit code 2)".to_string(),
        ])
    );
    let res = conclude("1", Operation::Update, &failures(&validated([0, 0, 0, 0])));
    assert_eq!(res, Response::from("1"));
}

#[test]
fn strict_validation_denies_the_first_failure() {
    let res = conclude_strictly("1", &failures(&validated([0, 0, 3, 4])));
    assert_eq!(
        res.message,
        "validation failed: validation failure: out (exit code 3)"
    );
    assert_eq!(
        conclude_strictly("1", &vec![None, None]),
        Response::from("1")
    );
    let inner = |op, spec: &ClairSpec| validate_inner("1", op, spec, None, None);
    assert_eq!(
        inner(Operation::Create, &ClairSpec::default()).unwrap().message,
        "validation failed: field \"/spec/databases\" must be provided"
    );
    assert_eq!(inner(Operation::Create, &complete().spec), None);
    assert_eq!(
        inner(Operation::Delete, &ClairSpec::default()),
        Some(Response::from("1"))
    );
    assert_eq!(
        inner(Operation::Connect, &ClairSpec::default()).unwrap().message,
        "verb CONNECT makes no sense"
    );
    let res = validate_inner(
        "1",
        Operation::Update,
        &complete().spec,
        None,
        Some(ConfigDialect::JSON),
    );
    assert_eq!(
        res.unwrap().message,
        "validation failed: cannot change field \"/spec/configDialect\""
    );
}

#[test]
fn indexers_need_a_configuration() {
    let mut i = Indexer::default();
    let res = indexer("1", Operation::Create, &i);
    assert_eq!(res.message, "missing configuration source \"/spec/config\"");
    assert!(indexer("1", Operation::Delete, &i).allowed);
    i.spec.config = Some(ConfigSource::default());
    assert!(indexer("1", Operation::Update, &i).allowed);
}

#[test]
fn new_instances_get_defaults() {
    let res = mutate_clair("1", Operation::Create, None, None);
    assert!(res.allowed);
    assert_eq!(
        res.warnings,
        Some(vec![
            "set /spec/configDialect to default `\"json\"`".to_string(),
            "set /spec/notifier to default `false`".to_string(),
        ])
    );
    let add = res.additions.unwrap();
    assert_eq!((add[0].path.as_str(), add[0].value.as_str()), ("/spec/configDialect", "json"));
    assert_eq!((add[1].path.as_str(), add[1].value.as_str()), ("/spec/notifier", "false"));
    let res = mutate_clair("1", Operation::Create, Some(ConfigDialect::YAML), Some(true));
    assert_eq!(res.warnings, None);
    assert_eq!(res.additions, Some(vec![]));
    assert_eq!(mutate_clair("1", Operation::Update, None, None), Response::from("1"));
}

#[test]
fn kinds_are_found() {
    assert_eq!(Kind::find("Updater"), Ok(Kind::Updater));
    let res = Kind::find("Pod").unwrap_err();
    assert_eq!(res.message, "unknown kind: Pod");
    assert!(!res.allowed);
}

#[test]
fn kinds_are_dispatched() {
    let mutate = |kind: &str| mutate_v1alpha1("1", kind, Operation::Create, None, Some(true));
    assert_eq!(
        mutate("Clair"),
        mutate_clair("1", Operation::Create, None, Some(true))
    );
    assert_eq!(mutate("Matcher"), Response::from("1"));
    assert_eq!(mutate("Pod"), Response::invalid("unknown kind: Pod"));
    assert_eq!(validate_v1alpha1("1", "Clair"), None);
    assert_eq!(validate_v1alpha1("1", "Notifier"), Some(Response::from("1")));
    assert_eq!(
        validate_v1alpha1("1", "clair"),
        Some(Response::invalid("unknown kind: clair"))
    );
}

#[test]
fn faults_make_requests_improper() {
    let check = |op: Operation, spec: &ClairSpec| validate_clair(op, spec, None, None);
    assert_eq!(
        check(Operation::Create, &ClairSpec::default()),
        Some(Response::invalid("field \"/spec/databases\" must be provided"))
    );
    assert_eq!(check(Operation::Delete, &ClairSpec::default()), None);
    assert_eq!(check(Operation::Update, &complete().spec), None);
    let changed = validate_clair(
        Operation::Update,
        &complete().spec,
        Some(ConfigDialect::YAML),
        Some(ConfigDialect::JSON),
    );
    assert_eq!(
        changed.unwrap().message,
        "cannot change field \"/spec/configDialect\""
    );
    let failed = vec![None, Some("b".to_string()), Some("c".to_string())];
    assert_eq!(
        conclude_clair("1", &failed),
        Response::invalid("validation failed: b")
    );
    assert_eq!(conclude_clair("1", &vec![None]), Response::from("1"));
}
