use clair_operator::k8s::meta::ObjectMeta;
use clair_operator::merge::DeepMerge;
use clair_operator::model::Model;
use clair_operator::resource::Resource;
use clair_operator::v1alpha1::{
    Clair, ClairSpec, ConfigMapKeySelector, ConfigSource, Databases, DropinSource, Indexer,
    IndexerSpec, Matcher, Notifier, RouteParentRef, SecretKeySelector, Updater,
};

fn secret(name: &str, key: &str) -> SecretKeySelector {
    SecretKeySelector {
        key: key.to_string(),
        name: name.to_string(),
    }
}

#[test]
fn dummy() {
    println!("name = {}", Clair::crd_name());
    println!("kind = {}", Clair::kind());
    assert_eq!(Clair::crd_name(), "clairs.clairproject.org");
    assert_eq!(Clair::kind(), "Clair");
}

#[test]
fn kinds_have_names() {
    assert_eq!(Indexer::crd_name(), "indexers.clairproject.org");
    assert_eq!(Matcher::api_version(), "clairproject.org/v1alpha1");
    assert_eq!(Notifier::plural(), "notifiers");
    assert_eq!(Updater::kind(), "Updater");
    assert_eq!(
        clair_operator::k8s::pod::Service::api_version(),
        "v1".to_string()
    );
    assert_eq!(
        clair_operator::k8s::workload::Deployment::api_version(),
        "apps/v1".to_string()
    );
}

#[test]
fn with_root_sorts_and_deduplicates() {
    let spec = ClairSpec {
        databases: Some(Databases {
            indexer: secret("db", "b"),
            matcher: secret("db", "a"),
            notifier: Some(secret("db", "b")),
        }),
        dropins: vec![
            DropinSource::secret("db", "a"),
            DropinSource::config_map("z", "k"),
            DropinSource::config_map("y", "k"),
            DropinSource::config_map("z", "k"),
        ],
        ..Default::default()
    };
    let got = spec.with_root("root");
    assert_eq!(
        got,
        ConfigSource {
            root: ConfigMapKeySelector {
                name: "root".to_string(),
                key: "config.json".to_string(),
            },
            dropins: vec![
                DropinSource::secret("db", "a"),
                DropinSource::secret("db", "b"),
                DropinSource::config_map("y", "k"),
                DropinSource::config_map("z", "k"),
            ],
        }
    );
}

#[test]
fn with_root_ignores_order_and_repetition() {
    let a = ClairSpec {
        dropins: vec![
            DropinSource::config_map("a", "x"),
            DropinSource::secret("b", "y"),
        ],
        ..Default::default()
    };
    let b = ClairSpec {
        dropins: vec![
            DropinSource::secret("b", "y"),
            DropinSource::config_map("a", "x"),
            DropinSource::secret("b", "y"),
        ],
        ..Default::default()
    };
    assert_eq!(a.with_root("r"), b.with_root("r"));
}

#[test]
fn with_root_of_nothing_is_the_root() {
    let got = ClairSpec::default().with_root("r");
    assert_eq!(got.dropins, vec![]);
    assert_eq!(got.root.name, "r");
}

#[test]
fn merge_takes_over_what_is_set() {
    let mut spec = ClairSpec {
        image: Some("old".to_string()),
        databases: Some(Databases {
            indexer: secret("i", "ik"),
            matcher: secret("m", "mk"),
            notifier: None,
        }),
        gateway: Some(RouteParentRef {
            name: Some("gw".to_string()),
            ..Default::default()
        }),
        notifier: Some(false),
        dropins: vec![DropinSource::config_map("a", "1")],
    };
    let other = ClairSpec {
        image: Some("new".to_string()),
        databases: Some(Databases {
            indexer: secret("", "changed"),
            matcher: secret("other", ""),
            notifier: Some(secret("n", "nk")),
        }),
        gateway: Some(RouteParentRef {
            kind: Some("Gateway".to_string()),
            ..Default::default()
        }),
        notifier: None,
        dropins: vec![
            DropinSource::config_map("a", "1"),
            DropinSource::config_map("b", "2"),
        ],
    };
    let again = other.dup();
    spec.merge_from(other);
    let db = spec.databases.as_ref().unwrap();
    assert_eq!(spec.image, Some("new".to_string()));
    assert_eq!(db.indexer, secret("i", "changed"));
    assert_eq!(db.matcher, secret("other", "mk"));
    assert_eq!(db.notifier, Some(secret("n", "nk")));
    let gateway = spec.gateway.as_ref().unwrap();
    assert_eq!(gateway.name, Some("gw".to_string()));
    assert_eq!(gateway.kind, Some("Gateway".to_string()));
    assert_eq!(spec.notifier, Some(false));
    assert_eq!(
        spec.dropins,
        vec![
            DropinSource::config_map("a", "1"),
            DropinSource::config_map("b", "2"),
        ]
    );

    let once = spec.dup();
    spec.merge_from(again);
    assert_eq!(spec, once);
}

#[test]
fn merge_of_nothing_changes_nothing() {
    let mut spec = ClairSpec {
        image: Some("i".to_string()),
        dropins: vec![DropinSource::secret("a", "1")],
        ..Default::default()
    };
    let before = spec.dup();
    spec.merge_from(ClairSpec::default());
    assert_eq!(spec, before);
}

#[test]
fn merge_of_an_indexer_leaves_the_gateway() {
    let mut spec = IndexerSpec::default();
    spec.merge_from(IndexerSpec {
        image: Some("i".to_string()),
        config: Some(ConfigSource::default()),
        gateway: Some(RouteParentRef::default()),
    });
    assert_eq!(spec.image, Some("i".to_string()));
    assert!(spec.config.is_some());
    assert_eq!(spec.gateway, None);
}

#[test]
fn owner_references_need_a_name_and_a_uid() {
    let mut c = Clair {
        metadata: ObjectMeta {
            name: Some("test".to_string()),
            ..Default::default()
        },
        ..Default::default()
    };
    assert_eq!(c.owner_ref(), None);
    assert_eq!(c.controller_owner_ref(), None);
    c.metadata.uid = Some("42".to_string());
    let owner = c.owner_ref().unwrap();
    assert_eq!(owner.api_version, "clairproject.org/v1alpha1");
    assert_eq!(owner.kind, "Clair");
    assert_eq!(owner.name, "test");
    assert_eq!(owner.uid, "42");
    assert_eq!(owner.controller, None);
    assert_eq!(c.controller_owner_ref().unwrap().controller, Some(true));
}

#[test]
fn name_any_falls_back() {
    let mut c = Clair::default();
    assert_eq!(c.name_any(), "");
    c.metadata.generate_name = Some("clair-".to_string());
    assert_eq!(c.name_any(), "clair-");
    c.metadata.name = Some("clair".to_string());
    assert_eq!(c.name_any(), "clair");
    let r = c.object_ref();
    assert_eq!(r.kind, Some("Clair".to_string()));
    assert_eq!(r.name, Some("clair".to_string()));
    assert_eq!(r.resource_version, None);
}
