//! Names in the operator's own spaces: labels, annotations and condition types.

use vstd::prelude::*;

use crate::k8s::meta::{ObjectMeta, ObjectMetaView};
use crate::maps::KeyMap;
use crate::text;

verus! {

/// CONTROLLER_NAME is the name the controller uses whenever it needs a human-readable name.
pub const CONTROLLER_NAME: &'static str = "clair-controller";

/// Characters that a name cannot hold and that a dash stands for.
pub open spec fn is_separator(c: char) -> bool {
    c == '_' || c == ' ' || c == '\t' || c == '\n'
}

/// `key` with a dash in place of every separator.
pub open spec fn dashed(key: Seq<char>) -> Seq<char> {
    key.map_values(|c: char| if is_separator(c) { '-' } else { c })
}

/// `key` with a dash in place of every separator and the rest in lower case.
pub open spec fn keyified(key: Seq<char>) -> Seq<char> {
    key.map_values(|c: char| if is_separator(c) { '-' } else { text::lower_char(c) })
}

/// Condition is like [`keyify`], but does not force lower-case.
fn condition(space: &str, key: &str) -> (r: String)
    ensures
        r@ == space@ + dashed(key@),
{
    let n: usize = key.unicode_len();
    let mut out = space.to_owned();
    let mut i: usize = 0;
    assert(out@ =~= space@ + dashed(key@).take(0));
    while i < n
        invariant
            n == key@.len(),
            i <= n,
            out@ == space@ + dashed(key@).take(i as int),
        decreases n - i,
    {
        let c: char = key.get_char(i);
        let part = if c == '_' || c == ' ' || c == '\t' || c == '\n' {
            proof {
                reveal_strlit("-");
            }
            "-"
        } else {
            key.substring_char(i, i + 1)
        };
        assert(part@ =~= seq![dashed(key@)[i as int]]);
        out.append(part);
        i = i + 1;
        assert(space@ + dashed(key@).take(i as int) =~= space@ + dashed(key@).take(i - 1)
            + part@);
    }
    assert(dashed(key@).take(n as int) =~= dashed(key@));
    out
}

/// Keyify sanitizes the key for use in k8s metadata.
fn keyify(space: &str, key: &str) -> (r: String)
    ensures
        r@ == space@ + keyified(key@),
{
    let n: usize = key.unicode_len();
    let mut out = space.to_owned();
    let mut i: usize = 0;
    assert(out@ =~= space@ + keyified(key@).take(0));
    while i < n
        invariant
            n == key@.len(),
            i <= n,
            out@ == space@ + keyified(key@).take(i as int),
        decreases n - i,
    {
        let c: char = key.get_char(i);
        let part = if c == '_' || c == ' ' || c == '\t' || c == '\n' {
            proof {
                reveal_strlit("-");
            }
            "-"
        } else {
            text::lower_at(key, i)
        };
        assert(part@ =~= seq![keyified(key@)[i as int]]);
        out.append(part);
        i = i + 1;
        assert(space@ + keyified(key@).take(i as int) =~= space@ + keyified(key@).take(i - 1)
            + part@);
    }
    assert(keyified(key@).take(n as int) =~= keyified(key@));
    out
}

/// Clair_condition returns the provided argument as a name in the clair-controller's space,
/// sutable for use as a condition type.
pub fn clair_condition(s: &str) -> (r: String)
    ensures
        r@ == "projectclair.io/"@ + dashed(s@),
{
    condition("projectclair.io/", s)
}

/// Clair_label returns the provided argument as a name in the clair-controller's space, sutable
/// for use as an annotation or label.
pub fn clair_label(s: &str) -> (r: String)
    ensures
        r@ == "projectclair.io/"@ + keyified(s@),
{
    keyify("projectclair.io/", s)
}

/// K8s_label returns the provided argument as a name in the "app.kubernetes.io" space, sutable for
/// use as an annotation or label.
pub fn k8s_label(s: &str) -> (r: String)
    ensures
        r@ == "app.kubernetes.io/"@ + keyified(s@),
{
    keyify("app.kubernetes.io/", s)
}

/// Sanitizing a key again changes nothing.
pub proof fn keyified_twice(key: Seq<char>)
    ensures
        keyified(keyified(key)) == keyified(key),
        dashed(dashed(key)) == dashed(key),
{
    assert forall|i: int| 0 <= i < key.len() implies keyified(keyified(key))[i] == keyified(
        key,
    )[i] by {
        text::lower_char_twice(key[i]);
    }
    assert(keyified(keyified(key)) =~= keyified(key));
    assert(dashed(dashed(key)) =~= dashed(key));
}

/// A condition type differs from the label for the same key in its capitals alone.
pub proof fn condition_is_label_with_capitals(key: Seq<char>)
    ensures
        text::lower(dashed(key)) == keyified(key),
{
    assert(text::lower(dashed(key)) =~= keyified(key));
}

/// No name made from a key holds a separator.
pub proof fn no_separators(key: Seq<char>)
    ensures
        forall|i: int| 0 <= i < key.len() ==> !is_separator(#[trigger] keyified(key)[i]),
        forall|i: int| 0 <= i < key.len() ==> !is_separator(#[trigger] dashed(key)[i]),
{
    assert forall|i: int| 0 <= i < key.len() implies !is_separator(#[trigger] keyified(key)[i]) by {
        text::lower_char_twice(key[i]);
    }
}

/// The key of the well-known "component" label.
pub open spec fn component_label_name() -> Seq<char> {
    "app.kubernetes.io/component"@
}

/// The annotation that denotes which key in a ConfigMap is the managed dropin.
pub open spec fn dropin_label_name() -> Seq<char> {
    "projectclair.io/dropin-key"@
}

/// COMPONENT_LABEL is the well-know "component" label.
pub fn component_label() -> (r: String)
    ensures
        r@ == component_label_name(),
{
    proof {
        reveal_strlit("app.kubernetes.io/");
        reveal_strlit("component");
        reveal_strlit("app.kubernetes.io/component");
        assert("app.kubernetes.io/"@ + keyified("component"@) =~= component_label_name());
    }
    k8s_label("component")
}

/// APP_NAME_LABEL is a label for Clair in the "app.kubernetes.io" space.
pub fn app_name_label() -> (r: String)
    ensures
        r@ == "app.kubernetes.io/clair"@,
{
    proof {
        reveal_strlit("app.kubernetes.io/");
        reveal_strlit("clair");
        reveal_strlit("app.kubernetes.io/clair");
        assert("app.kubernetes.io/"@ + keyified("clair"@) =~= "app.kubernetes.io/clair"@);
    }
    k8s_label("clair")
}

/// DROPIN_LABEL is a label denoting which key in a ConfigMap is the managed dropin.
pub fn dropin_label() -> (r: String)
    ensures
        r@ == dropin_label_name(),
{
    proof {
        reveal_strlit("projectclair.io/");
        reveal_strlit("dropin-key");
        reveal_strlit("projectclair.io/dropin-key");
        assert("projectclair.io/"@ + keyified("dropin-key"@) =~= dropin_label_name());
    }
    clair_label("dropin-key")
}

/// The metadata with the component label set, everything else as it was.
pub open spec fn with_component(meta: ObjectMetaView, c: Seq<char>) -> ObjectMetaView {
    let labels = match meta.labels {
        Some(labels) => labels,
        None => Map::empty(),
    };
    ObjectMetaView { labels: Some(labels.insert(component_label_name(), c)), ..meta }
}

/// Set_component_label sets the component label to `c`.
pub fn set_component_label(meta: &mut ObjectMeta, c: &str)
    ensures
        final(meta)@ == with_component(old(meta)@, c@),
{
    let mut labels = match meta.labels.take() {
        Some(labels) => labels,
        None => KeyMap::new(),
    };
    labels.insert(component_label(), c.to_owned());
    meta.labels = Some(labels);
}

} // verus!
