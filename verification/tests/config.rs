use clair_operator::assets::{
    self, default_dropin, dropin_for, new_templated, resource_for, translate_dropin, Asset,
};
use clair_operator::compose::{
    self, apply_order, dialect_for, dialect_of, load_config_map, load_secret, source_of, to_json,
    Composer, ConfigDialect, Source,
};
use clair_operator::config::{
    fmt_warnings, validation_result, Builder, Error, K8sMap, Parts, Run, Validate,
};
use clair_operator::k8s::meta::ObjectMeta;
use clair_operator::k8s::pod::{ConfigMap, Secret};
use clair_operator::maps::KeyMap;
use clair_operator::v1alpha1::{DropinSource, Indexer};
use serde_json::Value;

fn texts(pairs: &[(&str, &str)]) -> KeyMap<String> {
    let mut m = KeyMap::new();
    for (k, v) in pairs {
        m.insert(k.to_string(), v.to_string());
    }
    m
}

fn blobs(pairs: &[(&str, &str)]) -> KeyMap<Vec<u8>> {
    let mut m = KeyMap::new();
    for (k, v) in pairs {
        m.insert(k.to_string(), v.as_bytes().to_vec());
    }
    m
}

fn root(json: &str) -> ConfigMap {
    ConfigMap {
        data: Some(texts(&[("config.json", json)])),
        ..Default::default()
    }
}

fn json(b: &[u8]) -> Value {
    serde_json::from_slice(b).unwrap()
}

fn parse(s: &str) -> Value {
    serde_json::from_str(s).unwrap()
}

#[test]
fn maps_are_walked_in_order() {
    let m = texts(&[("b", "2"), ("a", "1"), ("b", "3")]);
    assert_eq!(m.len(), 2);
    assert_eq!(m.at(0), (&"a".to_string(), &"1".to_string()));
    assert_eq!(m.at(1), (&"b".to_string(), &"3".to_string()));
    assert!(m.contains_key("a"));
    assert_eq!(m.get("c"), None);
}

#[test]
fn parts_are_put_together_in_key_order() {
    let b = Builder::from_root(&root(r#"{"a":1,"b":{"c":2}}"#), "config.json").unwrap();
    let b = b
        .add(
            texts(&[(
                "20.json-patch",
                r#"[{"op":"add","path":"/b/d","value":"patched"}]"#,
            )]),
            "20.json-patch",
        )
        .unwrap();
    let b = b
        .add(blobs(&[("10.json", r#"{"b":{"d":"merged"},"a":null}"#)]), "10.json")
        .unwrap();
    let got = Parts::from(b).render().unwrap();
    assert_eq!(json(&got), parse(r#"{"b":{"c":2,"d":"patched"}}"#));
}

#[test]
fn the_order_of_additions_does_not_matter() {
    let one = texts(&[("1.json", r#"{"x":1}"#)]);
    let two = texts(&[("2.json", r#"{"x":2}"#)]);
    let a = Builder::from_root(&root("{}"), "config.json")
        .unwrap()
        .add(&one, "1.json")
        .unwrap()
        .add(&two, "2.json")
        .unwrap();
    let b = Builder::from_root(&root("{}"), "config.json")
        .unwrap()
        .add(&two, "2.json")
        .unwrap()
        .add(&one, "1.json")
        .unwrap();
    let a = Parts::from(a).render().unwrap();
    let b = Parts::from(b).render().unwrap();
    assert_eq!(a, b);
    assert_eq!(json(&a), parse(r#"{"x":2}"#));
}

#[test]
fn a_root_alone_is_itself() {
    let b = Builder::from_root(&root(" { \"a\" : [1, 2.5, \"x\"] } "), "config.json").unwrap();
    let got = Parts::from(b).render().unwrap();
    assert_eq!(got, br#"{"a":[1,2.5,"x"]}"#.to_vec());
}

#[test]
fn parts_that_do_not_fit() {
    let b = Builder::from_root(&root("nonsense"), "config.json").unwrap();
    let got = Parts::from(b).try_render().unwrap();
    let err = got.unwrap_err();
    assert!(matches!(err, Error::JSON(_)));
    assert!(err.message().starts_with("JSON error: "));
    assert!(err.message().len() > "JSON error: ".len());

    let bad = |key: &str, text: &str| {
        let b = Builder::from_root(&root("{}"), "config.json").unwrap();
        let b = b.add(texts(&[(key, text)]), key).unwrap();
        Parts::from(b).try_render()
    };
    assert!(bad("a.json", "nonsense").is_none());
    assert!(bad("a.json-patch", "{}").is_none());
    assert!(bad("a.json-patch", r#"[{"op":"remove","path":"/x"}]"#).is_none());
    assert!(bad("a.json-patch", r#"[{"op":"test","path":"/x","value":1}]"#).is_none());
    assert!(bad(
        "a.json-patch",
        r#"[{"op":"add","path":"/a","value":1},{"op":"move","from":"/a","path":""},{"op":"remove","path":"/x"}]"#
    )
    .is_none());
    assert_eq!(bad("a.json", r#"{"ok":true}"#).unwrap().unwrap(), br#"{"ok":true}"#.to_vec());
}

#[test]
fn missing_keys_are_reported() {
    let err = Builder::from_root(&root("{}"), "other").err().unwrap();
    assert_eq!(err.message(), "invalid ConfigSource: missing key: other");
    let b = Builder::from_root(&root("{}"), "config.json").unwrap();
    let err = b.add(texts(&[]), "k").err().unwrap();
    assert!(matches!(err, Error::Invalid(ref m) if m == "missing key: k"));
}

#[test]
fn a_root_may_be_binary() {
    let cm = ConfigMap {
        binary_data: Some(blobs(&[("config.json", "{}")])),
        ..Default::default()
    };
    let b = Builder::from_root(&cm, "config.json").unwrap();
    assert_eq!(Parts::from(b).render().unwrap(), b"{}".to_vec());
    // Text values hide binary ones here.
    let cm = ConfigMap {
        data: Some(texts(&[])),
        binary_data: Some(blobs(&[("config.json", "{}")])),
        ..Default::default()
    };
    assert!(Builder::from_root(&cm, "config.json").is_err());
}

#[test]
fn maps_give_bytes() {
    let cm = ConfigMap {
        data: Some(texts(&[("a", "é")])),
        binary_data: Some(blobs(&[("a", "x"), ("b", "y")])),
        ..Default::default()
    };
    assert_eq!(cm.value("a".to_string()), Some("é".as_bytes().to_vec()));
    assert_eq!(cm.value("b".to_string()), Some(b"y".to_vec()));
    assert_eq!(cm.value("c".to_string()), None);
    let secret = Secret {
        data: Some(blobs(&[("a", "x")])),
        string_data: Some(texts(&[("b", "y")])),
        ..Default::default()
    };
    assert_eq!(secret.value("a".to_string()), Some(b"x".to_vec()));
    assert_eq!(secret.value("b".to_string()), None);
}

#[test]
fn answers_of_the_validator() {
    let ok = |out: &str| Run {
        exit: 0,
        out: out.to_string(),
    };
    let w = validation_result("indexer", ok("one\ntwo\n")).unwrap();
    assert_eq!(w.display(), "warnings (indexer mode):\n\tone\n\ttwo\n");
    assert_eq!(w.debug(), "warnings(indexer): one\ntwo\n");
    let err = validation_result(
        "updater",
        Run {
            exit: -2,
            out: "bad".to_string(),
        },
    )
    .unwrap_err();
    assert_eq!(err.message(), "validation failure: bad (exit code -2)");
    let v = Validate::new(
        ok(""),
        ok(""),
        ok(""),
        Run {
            exit: 1,
            out: "no".to_string(),
        },
    );
    assert!(v.indexer.is_ok() && v.matcher.is_ok() && v.notifier.is_ok());
    assert!(matches!(v.updater, Err(Error::Validation(ref m)) if m == "no (exit code 1)"));
}

#[test]
fn long_warnings_are_cut() {
    let w = validation_result(
        "m",
        Run {
            exit: 0,
            out: "x".repeat(257),
        },
    )
    .unwrap();
    assert_eq!(w.debug(), format!("warnings(m): {}...", "x".repeat(253)));
    let w = validation_result(
        "m",
        Run {
            exit: 0,
            out: "x".repeat(256),
        },
    )
    .unwrap();
    assert_eq!(w.debug(), format!("warnings(m): {}", "x".repeat(256)));
}

#[test]
fn warnings_are_formatted() {
    assert_eq!(
        fmt_warnings(&vec!["a".to_string(), "b".to_string()]),
        "warnings:\n\ta\n\tb\n"
    );
    assert_eq!(fmt_warnings(&vec![]), "warnings:\n");
    assert_eq!(
        compose::validate_config(0, "a\nb\n"),
        Ok(vec!["a".to_string(), "b".to_string()])
    );
    assert_eq!(
        compose::validate_config(3, "a"),
        Err("some other error: a (exit code 3)".to_string())
    );
}

#[test]
fn dialects_go_by_extensions() {
    assert_eq!(dialect_of("config.json").unwrap(), ConfigDialect::JSON);
    assert_eq!(dialect_of("a.b.yaml").unwrap(), ConfigDialect::YAML);
    assert!(matches!(dialect_of("config"), Err(compose::Error::MissingExtension)));
    assert!(matches!(dialect_of(".json"), Err(compose::Error::MissingExtension)));
    assert!(matches!(dialect_of(".."), Err(compose::Error::MissingExtension)));
    assert!(matches!(dialect_of("a.toml"), Err(compose::Error::UnknownExtension(ref e)) if e == "toml"));
    assert!(matches!(dialect_of("a."), Err(compose::Error::UnknownExtension(ref e)) if e.is_empty()));
    assert_eq!(dialect_of("a.yaml/b.json").unwrap(), ConfigDialect::JSON);
    assert_eq!(dialect_of("./b.yaml/").unwrap(), ConfigDialect::YAML);
    assert_eq!(dialect_of("/b.yaml/./.").unwrap(), ConfigDialect::YAML);
    for key in ["", ".", "/", "a.json/..", "a.json/b", "a.json/.b"] {
        assert!(matches!(dialect_of(key), Err(compose::Error::MissingExtension)));
    }
    assert_eq!(dialect_for(Some("yaml")).unwrap(), ConfigDialect::YAML);
    assert_eq!(ConfigDialect::default().as_str(), "json");
}

#[test]
fn yaml_is_turned_into_json() {
    let got = to_json(b"a: [1, x]\n".to_vec(), ConfigDialect::YAML).unwrap();
    assert_eq!(got, br#"{"a":[1,"x"]}"#.to_vec());
    let got = to_json(b"anything".to_vec(), ConfigDialect::JSON).unwrap();
    assert_eq!(got, b"anything".to_vec());
    assert!(matches!(
        to_json(b"a: [".to_vec(), ConfigDialect::YAML),
        Err(compose::Error::YAML(_))
    ));
}

#[test]
fn dropins_are_applied_by_key() {
    let dropins = vec![
        DropinSource::secret("z", "b"),
        DropinSource::config_map("y", "a"),
        DropinSource::config_map("x", "b"),
    ];
    assert_eq!(apply_order(&dropins), vec![1, 0, 2]);
    assert!(matches!(source_of(&dropins[0]), Source::Secret(ref s) if s.name == "z"));
    assert!(matches!(source_of(&dropins[1]), Source::ConfigMap(ref s) if s.name == "y"));
}

#[test]
fn configurations_are_composed_step_by_step() {
    let c = Composer::new(b"a: 1\n".to_vec(), ConfigDialect::YAML).unwrap();
    let c = c.apply(b"b: 2\n".to_vec(), false).unwrap();
    let c = c
        .apply(b"- {op: replace, path: /a, value: 3}\n".to_vec(), true)
        .unwrap();
    assert_eq!(c.finish().unwrap(), br#"{"a":3,"b":2}"#.to_vec());

    assert!(matches!(
        Composer::new(b"{".to_vec(), ConfigDialect::JSON),
        Err(compose::Error::JSON(_))
    ));
    let c = || Composer::new(b"{}".to_vec(), ConfigDialect::JSON).unwrap();
    assert!(matches!(
        c().apply(b"{".to_vec(), false),
        Err(compose::Error::JSON(_))
    ));
    assert!(matches!(
        c().apply(b"{}".to_vec(), true),
        Err(compose::Error::JSON(_))
    ));
    assert!(matches!(
        c().apply(br#"[{"op":"remove","path":"/x"}]"#.to_vec(), true),
        Err(compose::Error::JSONPatch(_))
    ));
}

#[test]
fn keys_are_loaded() {
    let cm = ConfigMap {
        data: Some(texts(&[("a-patch", "x")])),
        binary_data: Some(blobs(&[("b", "y")])),
        ..Default::default()
    };
    assert_eq!(load_config_map(&cm, "a-patch").unwrap(), (b"x".to_vec(), true));
    assert_eq!(load_config_map(&cm, "b").unwrap(), (b"y".to_vec(), false));
    assert!(matches!(
        load_config_map(&cm, "c"),
        Err(compose::Error::MissingKey)
    ));
    let secret = Secret {
        data: Some(blobs(&[("a", "x")])),
        string_data: Some(texts(&[("a", "y")])),
        ..Default::default()
    };
    assert_eq!(load_secret(&secret, "a").unwrap(), (b"y".to_vec(), false));
}

fn asset(path: &str, text: &str) -> Asset {
    Asset {
        relative_path: path.to_string(),
        bytes: text.as_bytes().to_vec(),
    }
}

#[test]
fn templates_are_patched() {
    let assets = vec![
        asset("templates/deployment.yaml", "spec: {replicas: 1}\n"),
        asset(
            "templates/deployment-indexer.yaml-patch",
            "- {op: replace, path: /spec/replicas, value: 2}\n",
        ),
        asset("templates/deployment-matcher.yaml-patch", "nonsense\n"),
        asset(
            "templates/deployment-notifier.yaml-patch",
            "- {op: remove, path: /x}\n",
        ),
        asset("templates/service.yaml", "a: [\n"),
        asset("other/x", ""),
        asset("indexer_dropin.json-patch", "[]"),
    ];
    let templates = assets::templates(&assets);
    assert_eq!(templates.len(), 5);
    let get = |kind: &str, owner: &str| resource_for(&templates, kind, owner);
    assert_eq!(
        get("Deployment", "indexer").unwrap(),
        br#"{"spec":{"replicas":2}}"#.to_vec()
    );
    assert_eq!(
        get("Deployment", "matcher").unwrap(),
        br#"{"spec":{"replicas":1}}"#.to_vec()
    );
    assert_eq!(
        get("Deployment", "updater").unwrap(),
        br#"{"spec":{"replicas":1}}"#.to_vec()
    );
    assert!(matches!(get("Deployment", "notifier"), Err(assets::Error::Patch(_))));
    assert!(matches!(get("Service", "indexer"), Err(assets::Error::YAML(_))));
    let err = get("Ingress", "indexer").unwrap_err();
    assert_eq!(err.message(), "missing template: ingress.yaml");

    let dropins = assets::dropins(&assets);
    assert_eq!(dropins.len(), 1);
    assert_eq!(dropin_for(&dropins, "indexer").unwrap(), b"[]".to_vec());
    let err = dropin_for(&dropins, "matcher").unwrap_err();
    assert_eq!(err.message(), "missing dropin: matcher_dropin.json-patch");
}

#[test]
fn default_dropins_are_annotated() {
    let indexer = Indexer {
        metadata: ObjectMeta {
            name: Some("test".to_string()),
            uid: Some("1".to_string()),
            ..Default::default()
        },
        ..Default::default()
    };
    let text = r#"[{"op":"add","path":"/a","value":1}]"#;
    let dropins = assets::dropins(&vec![asset("indexer_dropin.json-patch", text)]);
    let (key, cm) = default_dropin(&indexer, ConfigDialect::JSON, &dropins).unwrap();
    assert_eq!(key, "10-indexer-dropin.json-patch");
    assert_eq!(cm.metadata.name, Some("test-indexer".to_string()));
    assert_eq!(
        cm.metadata.annotations.as_ref().unwrap().get("projectclair.io/dropin-key"),
        Some(&key)
    );
    assert_eq!(cm.data.as_ref().unwrap().get(&key), Some(&text.to_string()));
    let (key, cm) = default_dropin(&indexer, ConfigDialect::YAML, &dropins).unwrap();
    assert_eq!(key, "10-indexer-dropin.yaml-patch");
    let yaml = cm.data.as_ref().unwrap().get(&key).unwrap().clone();
    assert_eq!(
        to_json(yaml.into_bytes(), ConfigDialect::YAML).unwrap(),
        text.as_bytes().to_vec()
    );
    let err = translate_dropin(vec![0xff], ConfigDialect::JSON).unwrap_err();
    assert_eq!(
        err.message(),
        "invalid utf-8 sequence of 1 bytes from index 0"
    );
    assert!(matches!(
        translate_dropin(b"{".to_vec(), ConfigDialect::YAML),
        Err(assets::Error::JSON(_))
    ));

    let meta = new_templated(
        &indexer,
        ObjectMeta {
            namespace: Some("n".to_string()),
            ..Default::default()
        },
    );
    assert_eq!(meta.name, Some("test-indexer".to_string()));
    assert_eq!(meta.namespace, Some("n".to_string()));
    assert_eq!(meta.owner_references.unwrap()[0].uid, "1");
}

#[test]
fn composing_says_what_is_wrong() {
    let words = |key: &str| dialect_of(key).unwrap_err().message();
    assert_eq!(words("a.toml"), "some other error: unknown file extension: toml");
    assert_eq!(words("config"), "some other error: missing file extension");
    assert_eq!(compose::Error::MissingKey.message(), "some other error: missing key");
    let yaml = to_json(b"a: [".to_vec(), ConfigDialect::YAML).unwrap_err();
    assert!(yaml.message().starts_with("yaml error: "));
    let json = |buf: &[u8]| Composer::new(buf.to_vec(), ConfigDialect::JSON);
    let err = json(b"{").err().unwrap();
    assert_eq!(
        err.message(),
        "json error: EOF while parsing an object at line 1 column 1"
    );
    let patch = br#"[{"op":"remove","path":"/x"}]"#;
    let err = json(b"{}").unwrap().apply(patch.to_vec(), true).err().unwrap();
    assert!(err.message().starts_with("json patch error: "));
}
