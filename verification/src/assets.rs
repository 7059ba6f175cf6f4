//! The files that templates are made from.

use json_patch::PatchError;
use serde_json::Error as JsonError;
use serde_yaml::Error as YamlError;
use vstd::prelude::*;
use vstd::utf8::{encode_utf8, valid_utf8};

use crate::compose::ConfigDialect;
use crate::json;
use crate::k8s::meta::{ObjectMeta, ObjectMetaView, OwnerReferenceView};
use crate::k8s::pod::{ConfigMap, ConfigMapView};
use crate::labels;
use crate::maps::KeyMap;
use crate::model::{one, Model};
use crate::resource::{self, Resource};
use crate::text;

verus! {

/// Asset is a file that comes with the operator.
#[derive(Debug, PartialEq)]
pub struct Asset {
    /// Where the file is below the directory of all files.
    pub relative_path: String,
    /// What the file holds.
    pub bytes: Vec<u8>,
}

/// The value of an [`Asset`].
pub ghost struct AssetView {
    pub relative_path: Seq<char>,
    pub bytes: Seq<u8>,
}

impl DeepView for Asset {
    type V = AssetView;

    open spec fn deep_view(&self) -> AssetView {
        AssetView { relative_path: self.relative_path@, bytes: self.bytes.deep_view() }
    }
}

/// What can go wrong with templates.
#[derive(Debug)]
pub enum Error {
    /// There is no such template, with the name of the file.
    MissingTemplate(String),
    /// There is no such drop-in, with the name of the file.
    MissingDropin(String),
    /// A file does not hold text, with what is wrong with its bytes.
    NotText(String),
    /// A file does not hold JSON.
    JSON(JsonError),
    /// A file does not hold YAML.
    YAML(YamlError),
    /// A file holds changes that cannot be made.
    Patch(PatchError),
}

impl Error {
    /// The sentence for people.
    pub fn message(&self) -> (r: String)
        ensures
            r@ == sentence(*self),
    {
        match self {
            Error::MissingTemplate(file) => text::cat("missing template: ", file.as_str()),
            Error::MissingDropin(file) => text::cat("missing dropin: ", file.as_str()),
            Error::NotText(words) => words.dup(),
            Error::JSON(err) => json::describe(err),
            Error::YAML(err) => json::describe_yaml(err),
            Error::Patch(err) => json::describe_patch(err),
        }
    }
}

/// The sentence for people that goes with an error.
pub open spec fn sentence(e: Error) -> Seq<char> {
    match e {
        Error::MissingTemplate(file) => "missing template: "@ + file@,
        Error::MissingDropin(file) => "missing dropin: "@ + file@,
        Error::NotText(words) => words@,
        Error::JSON(err) => json::json_error_text(err),
        Error::YAML(err) => json::yaml_error_text(err),
        Error::Patch(err) => json::patch_error_text(err),
    }
}

/// The files below `templates/`, by their path there.
pub open spec fn templates_in(assets: Seq<AssetView>) -> Map<Seq<char>, Seq<u8>>
    decreases assets.len(),
{
    if assets.len() == 0 {
        Map::empty()
    } else {
        let m = templates_in(assets.drop_last());
        let a = assets.last();
        if text::has_prefix(a.relative_path, "templates/"@) {
            m.insert(a.relative_path.skip("templates/"@.len() as int), a.bytes)
        } else {
            m
        }
    }
}

/// The files that hold drop-ins, by their path.
pub open spec fn dropins_in(assets: Seq<AssetView>) -> Map<Seq<char>, Seq<u8>>
    decreases assets.len(),
{
    if assets.len() == 0 {
        Map::empty()
    } else {
        let m = dropins_in(assets.drop_last());
        let a = assets.last();
        if text::has_suffix(a.relative_path, "_dropin.json-patch"@) {
            m.insert(a.relative_path, a.bytes)
        } else {
            m
        }
    }
}

/// The files below `templates/`, by their path there.
pub fn templates(assets: &Vec<Asset>) -> (r: KeyMap<Vec<u8>>)
    ensures
        r@ == templates_in(assets.deep_view()),
{
    let ghost all = assets.deep_view();
    let mut m: KeyMap<Vec<u8>> = KeyMap::new();
    let mut i: usize = 0;
    assert(all.take(0) =~= Seq::empty());
    while i < assets.len()
        invariant
            all == assets.deep_view(),
            i <= assets@.len(),
            m@ == templates_in(all.take(i as int)),
        decreases assets.len() - i,
    {
        assert(all.take(i as int + 1).drop_last() =~= all.take(i as int));
        assert(all.take(i as int + 1).last() == assets@[i as int].deep_view());
        if let Some(path) = text::strip_prefix(assets[i].relative_path.as_str(), "templates/") {
            m.insert(path.to_owned(), assets[i].bytes.dup());
        }
        i = i + 1;
    }
    assert(all.take(i as int) =~= all);
    m
}

/// The files that hold drop-ins, by their path.
pub fn dropins(assets: &Vec<Asset>) -> (r: KeyMap<Vec<u8>>)
    ensures
        r@ == dropins_in(assets.deep_view()),
{
    let ghost all = assets.deep_view();
    let mut m: KeyMap<Vec<u8>> = KeyMap::new();
    let mut i: usize = 0;
    assert(all.take(0) =~= Seq::empty());
    while i < assets.len()
        invariant
            all == assets.deep_view(),
            i <= assets@.len(),
            m@ == dropins_in(all.take(i as int)),
        decreases assets.len() - i,
    {
        assert(all.take(i as int + 1).drop_last() =~= all.take(i as int));
        assert(all.take(i as int + 1).last() == assets@[i as int].deep_view());
        if text::ends_with(assets[i].relative_path.as_str(), "_dropin.json-patch") {
            m.insert(assets[i].relative_path.dup(), assets[i].bytes.dup());
        }
        i = i + 1;
    }
    assert(all.take(i as int) =~= all);
    m
}

/// The file with the template of a kind.
pub open spec fn base_file(kind: Seq<char>) -> Seq<char> {
    text::lower(kind) + ".yaml"@
}

/// The file with the changes to the template of a kind, for what belongs to an owner.
pub open spec fn patch_file(kind: Seq<char>, owner: Seq<char>) -> Seq<char> {
    text::lower(kind) + "-"@ + owner + ".yaml-patch"@
}

/// The changes to a template. A file that holds none is as good as no file.
pub open spec fn changes_in(
    templates: Map<Seq<char>, Seq<u8>>,
    file: Seq<char>,
) -> Option<Seq<u8>> {
    if templates.dom().contains(file) && json::parsed_patch_yaml(templates[file]) is Ok {
        Some(json::parsed_patch_yaml(templates[file])->Ok_0)
    } else {
        None
    }
}

/// The JSON text of the template of a kind for what belongs to an owner, or what is wrong with it.
pub open spec fn resolves(
    r: Result<Vec<u8>, Error>,
    templates: Map<Seq<char>, Seq<u8>>,
    kind: Seq<char>,
    owner: Seq<char>,
) -> bool {
    if !templates.dom().contains(base_file(kind)) {
        r matches Err(Error::MissingTemplate(file)) && file@ == base_file(kind)
    } else {
        match json::parsed_yaml(templates[base_file(kind)]) {
            Err(words) => r matches Err(Error::YAML(err)) && json::yaml_error_text(err) == words,
            Ok(doc) => match changes_in(templates, patch_file(kind, owner)) {
                None => r matches Ok(buf) && buf@ == doc,
                Some(patch) => match json::patched(doc, patch) {
                    Ok(out) => r matches Ok(buf) && buf@ == out,
                    Err(words) => r matches Err(Error::Patch(err)) && json::patch_error_text(err)
                        == words,
                },
            },
        }
    }
}

/// Resource_for gives the JSON text of the template of a kind, for what belongs to an owner.
pub fn resource_for(templates: &KeyMap<Vec<u8>>, kind: &str, owner: &str) -> (r: Result<
    Vec<u8>,
    Error,
>)
    ensures
        resolves(r, templates@, kind@, owner@),
{
    let kn = text::to_lower(kind);
    let base_file = text::cat(kn.as_str(), ".yaml");
    let patch_file = text::cat4(kn.as_str(), "-", owner, ".yaml-patch");
    let base = match templates.get(base_file.as_str()) {
        Some(base) => base,
        None => return Err(Error::MissingTemplate(base_file)),
    };
    assert(base@ =~= base.deep_view());
    let mut doc = match json::parse_yaml(base.as_slice()) {
        Ok(doc) => doc,
        Err(err) => return Err(Error::YAML(err)),
    };
    if let Some(buf) = templates.get(patch_file.as_str()) {
        assert(buf@ =~= buf.deep_view());
        if let Ok(patch) = json::parse_patch_yaml(buf.as_slice()) {
            match json::patch(&mut doc, &patch) {
                Ok(_) => {},
                Err(err) => return Err(Error::Patch(err)),
            }
        }
    }
    match json::write(&doc) {
        Ok(buf) => Ok(buf),
        Err(err) => Err(Error::JSON(err)),
    }
}

/// The file with the drop-in for a kind.
pub open spec fn dropin_file(kind: Seq<char>) -> Seq<char> {
    kind + "_dropin.json-patch"@
}

/// Returns as json.
pub fn dropin_for(dropins: &KeyMap<Vec<u8>>, kind: &str) -> (r: Result<Vec<u8>, Error>)
    ensures
        if dropins@.dom().contains(dropin_file(kind@)) {
            r matches Ok(buf) && buf@ == dropins@[dropin_file(kind@)]
        } else {
            r matches Err(Error::MissingDropin(file)) && file@ == dropin_file(kind@)
        },
{
    let base_file = text::cat(kind, "_dropin.json-patch");
    match dropins.get(base_file.as_str()) {
        Some(buf) => {
            let buf = buf.dup();
            assert(buf@ =~= buf.deep_view());
            Ok(buf)
        },
        None => Err(Error::MissingDropin(base_file)),
    }
}

/// What is wrong with bytes that are not UTF-8.
pub uninterp spec fn utf8_error_text(b: Seq<u8>) -> Seq<char>;

/// Calls `std::str::from_utf8`, which succeeds exactly on valid UTF-8 and gives the text that is
/// encoded so. On other bytes, the words of the error depend on the bytes alone.
#[verifier::external_body]
fn from_utf8(buf: &[u8]) -> (r: Result<String, String>)
    ensures
        match r {
            Ok(s) => encode_utf8(s@) == buf@,
            Err(words) => !valid_utf8(buf@) && words@ == utf8_error_text(buf@),
        },
{
    match std::str::from_utf8(buf) {
        Ok(s) => Ok(s.to_owned()),
        Err(err) => Err(err.to_string()),
    }
}

/// The key that a default drop-in is placed in.
pub open spec fn dropin_key(kind: Seq<char>, flavor: ConfigDialect) -> Seq<char> {
    "10-"@ + kind + "-dropin."@ + flavor.name() + "-patch"@
}

/// The name of what belongs to an object: its own name and its kind in lower case.
pub open spec fn subordinate_name<S: Resource>(obj: S::V) -> Seq<char> {
    resource::any_name(S::metadata(obj)) + "-"@ + text::lower(S::kind_name())
}

/// The reference to an object as the owner that manages what belongs to it.
pub open spec fn manager_of<S: Resource>(obj: S::V) -> Option<OwnerReferenceView> {
    resource::controller_ref_of(
        resource::group_version(S::group_name(), S::version_name()),
        S::kind_name(),
        S::metadata(obj),
    )
}

/// The map for a drop-in: an annotation tells which key it is in.
pub open spec fn dropin_map<S: Resource>(
    obj: S::V,
    key: Seq<char>,
    value: Seq<char>,
) -> ConfigMapView {
    ConfigMapView {
        metadata: ObjectMetaView {
            name: Some(subordinate_name::<S>(obj)),
            owner_references: Some(seq![manager_of::<S>(obj)->0]),
            annotations: Some(Map::empty().insert(labels::dropin_label_name(), key)),
            ..ObjectMetaView::blank()
        },
        data: Some(Map::empty().insert(key, value)),
        binary_data: None,
    }
}

/// The text of a drop-in in a dialect, or what is wrong with it.
pub open spec fn dropin_text(
    r: Result<String, Error>,
    buf: Seq<u8>,
    flavor: ConfigDialect,
) -> bool {
    match flavor {
        ConfigDialect::JSON => match r {
            Ok(text) => encode_utf8(text@) == buf,
            Err(e) => !valid_utf8(buf) && (e matches Error::NotText(words) && words@
                == utf8_error_text(buf)),
        },
        ConfigDialect::YAML => match json::parsed_patch(buf) {
            Ok(patch) => match json::patch_yaml(patch) {
                Ok(yaml) => r matches Ok(text) && text@ == yaml,
                Err(words) => r matches Err(Error::YAML(err)) && json::yaml_error_text(err)
                    == words,
            },
            Err(words) => r matches Err(Error::JSON(err)) && json::json_error_text(err) == words,
        },
    }
}

/// The text of a drop-in in a dialect.
pub fn translate_dropin(buf: Vec<u8>, flavor: ConfigDialect) -> (r: Result<String, Error>)
    ensures
        dropin_text(r, buf@, flavor),
{
    match flavor {
        ConfigDialect::JSON => match from_utf8(buf.as_slice()) {
            Ok(text) => Ok(text),
            Err(words) => Err(Error::NotText(words)),
        },
        ConfigDialect::YAML => {
            let patch = match json::parse_patch(buf.as_slice()) {
                Ok(patch) => patch,
                Err(err) => return Err(Error::JSON(err)),
            };
            match json::write_patch_yaml(&patch) {
                Ok(text) => Ok(text),
                Err(err) => Err(Error::YAML(err)),
            }
        },
    }
}

/// Default_dropin creates a default dropin describing the provided object, returning the name of
/// the ConfigMap key it was placed in and the created ConfigMap.
pub fn default_dropin<S: Resource>(
    obj: &S,
    flavor: ConfigDialect,
    dropins: &KeyMap<Vec<u8>>,
) -> (r: Result<(String, ConfigMap), Error>)
    requires
        manager_of::<S>(obj.deep_view()) is Some,
    ensures
        ({
            let kind = text::lower(S::kind_name());
            let key = dropin_key(kind, flavor);
            if !dropins@.dom().contains(dropin_file(kind)) {
                r matches Err(Error::MissingDropin(file)) && file@ == dropin_file(kind)
            } else {
                match r {
                    Ok((k, cm)) => exists|text: String| #[trigger]
                        dropin_text(Ok(text), dropins@[dropin_file(kind)], flavor) && k@ == key
                            && cm@ == dropin_map::<S>(obj.deep_view(), key, text@),
                    Err(e) => dropin_text(Err(e), dropins@[dropin_file(kind)], flavor),
                }
            }
        }),
{
    let oref = obj.controller_owner_ref().unwrap();
    let okind = text::to_lower(S::kind());
    let buf = match dropin_for(dropins, okind.as_str()) {
        Ok(buf) => buf,
        Err(err) => return Err(err),
    };
    let translated = translate_dropin(buf, flavor);
    let value = match translated {
        Ok(value) => value,
        Err(err) => return Err(err),
    };
    let key = text::cat5("10-", okind.as_str(), "-dropin.", flavor.as_str(), "-patch");
    let mut annotations = KeyMap::new();
    annotations.insert(labels::dropin_label(), key.dup());
    let mut data = KeyMap::new();
    data.insert(key.dup(), value);
    let cm = ConfigMap {
        metadata: ObjectMeta {
            name: Some(text::cat3(obj.name_any().as_str(), "-", okind.as_str())),
            owner_references: Some(one(oref)),
            annotations: Some(annotations),
            ..Default::default()
        },
        data: Some(data),
        ..Default::default()
    };
    Ok((key, cm))
}

/// The metadata of what was made from a template for an object.
pub open spec fn adopted<S: Resource>(obj: S::V, meta: ObjectMetaView) -> ObjectMetaView {
    ObjectMetaView {
        name: Some(subordinate_name::<S>(obj)),
        owner_references: Some(seq![manager_of::<S>(obj)->0]),
        ..meta
    }
}

/// New_templated completes the metadata of what was made from a template: it gets a name, and the
/// owner is set to `obj`.
pub fn new_templated<S: Resource>(obj: &S, meta: ObjectMeta) -> (r: ObjectMeta)
    requires
        manager_of::<S>(obj.deep_view()) is Some,
    ensures
        r@ == adopted::<S>(obj.deep_view(), meta@),
{
    let oref = obj.controller_owner_ref().unwrap();
    let okind = text::to_lower(S::kind());
    ObjectMeta {
        owner_references: Some(one(oref)),
        name: Some(text::cat3(obj.name_any().as_str(), "-", okind.as_str())),
        ..meta
    }
}

} // verus!
