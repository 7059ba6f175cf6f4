use clair_operator::image::image_version;
use clair_operator::k8s::meta::ObjectMeta;
use clair_operator::labels::{
    app_name_label, clair_condition, clair_label, component_label, dropin_label, k8s_label,
    set_component_label, CONTROLLER_NAME,
};
use clair_operator::text;

#[test]
fn labels_are_sanitized() {
    assert_eq!(clair_label("Dropin_Key a\tb\n"), "projectclair.io/dropin-key-a-b-");
    assert_eq!(k8s_label("Component"), "app.kubernetes.io/component");
    assert_eq!(clair_condition("Spec OK"), "projectclair.io/Spec-OK");
    assert_eq!(clair_label("É_Z"), "projectclair.io/É-z");
}

#[test]
fn sanitizing_twice_changes_nothing() {
    let once = clair_label("A_b C");
    let key = once.strip_prefix("projectclair.io/").unwrap();
    assert_eq!(clair_label(key), once);
    let once = clair_condition("A_b C");
    let key = once.strip_prefix("projectclair.io/").unwrap();
    assert_eq!(clair_condition(key), once);
}

#[test]
fn well_known_labels() {
    assert_eq!(component_label(), "app.kubernetes.io/component");
    assert_eq!(app_name_label(), "app.kubernetes.io/clair");
    assert_eq!(dropin_label(), "projectclair.io/dropin-key");
    assert_eq!(CONTROLLER_NAME, "clair-controller");
}

#[test]
fn the_component_label_is_set() {
    let mut meta = ObjectMeta::default();
    set_component_label(&mut meta, "indexer");
    set_component_label(&mut meta, "matcher");
    let labels = meta.labels.unwrap();
    assert_eq!(labels.len(), 1);
    assert_eq!(
        labels.get("app.kubernetes.io/component"),
        Some(&"matcher".to_string())
    );
}

#[test]
fn versions_of_images() {
    assert_eq!(image_version("example.com/clair:1.2.3"), Some("1.2.3"));
    assert_eq!(image_version("example.com/clair:v4.7.0"), Some("v4.7.0"));
    assert_eq!(image_version("example.com/clair:noversion"), None);
    assert_eq!(image_version("example.com/clair"), None);
    assert_eq!(image_version("localhost:5000/clair"), None);
    assert_eq!(image_version("clair:"), None);
    assert_eq!(image_version("clair:v"), None);
}

#[test]
fn strings_are_ordered_as_str() {
    for (a, b) in [
        ("", "a"),
        ("a", "b"),
        ("a", "aa"),
        ("Z", "a"),
        ("a", "é"),
        ("z", "日"),
        ("日", "🆗"),
        ("\u{ffff}", "\u{10000}"),
    ] {
        assert!(text::less(a, b));
        assert!(!text::less(b, a));
        assert!(a < b);
    }
    assert!(!text::less("a", "a"));
}

#[test]
fn numbers_are_shown_in_decimal() {
    for n in [0u64, 9, 10, 11, 99, 100, 12345, u64::MAX] {
        assert_eq!(text::show(n), n.to_string());
    }
    for n in [0i64, -1, -10, 42, i64::MIN, i64::MAX] {
        assert_eq!(text::show_signed(n), n.to_string());
    }
}

#[test]
fn lines_are_those_of_str() {
    for s in ["", "a", "a\n", "a\nb", "a\r\nb\r", "\n\n", "a\r", "\r\n"] {
        let want: Vec<String> = s.lines().map(String::from).collect();
        assert_eq!(text::lines(s), want);
        let want: Vec<String> = s.split_terminator('\n').map(String::from).collect();
        assert_eq!(text::split_lines(s), want);
    }
}

#[test]
fn strings_are_taken_apart() {
    assert_eq!(text::rsplit_once("a:b:c", ':'), Some(("a:b", "c")));
    assert_eq!(text::rsplit_once("abc", ':'), None);
    assert_eq!(text::strip_prefix("templates/x", "templates/"), Some("x"));
    assert_eq!(text::strip_prefix("x", "templates/"), None);
    assert!(text::ends_with("a-patch", "-patch"));
    assert!(!text::ends_with("patch", "-patch"));
    assert_eq!(text::truncate("äöü", 2), "äö");
    assert_eq!(text::join(&vec!["a".to_string(), "b".to_string()], ", "), "a, b");
    assert_eq!(text::join(&vec![], ", "), "");
}
