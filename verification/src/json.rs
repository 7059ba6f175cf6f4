//! JSON and YAML documents.
//!
//! Documents are opaque here: they are known by their JSON text. What parsing, merging and patching
//! give is named, and the rest of the library speaks of those names.

use json_patch::{Patch, PatchError};
use serde_json::{Error as JsonError, Value};
use serde_yaml::Error as YamlError;
use vstd::prelude::*;
use vstd::utf8::encode_utf8;

verus! {

/// A JSON document.
#[verifier::external_type_specification]
#[verifier::external_body]
pub struct ExValue(serde_json::Value);

/// What went wrong with JSON.
#[verifier::external_type_specification]
#[verifier::external_body]
pub struct ExJsonError(JsonError);

/// One change to a JSON document.
#[verifier::external_type_specification]
#[verifier::external_body]
pub struct ExPatchOperation(json_patch::PatchOperation);

/// A list of changes to a JSON document.
#[verifier::external_type_specification]
#[verifier::external_body]
pub struct ExPatch(json_patch::Patch);

/// What went wrong with a list of changes.
#[verifier::external_type_specification]
#[verifier::external_body]
pub struct ExPatchError(json_patch::PatchError);

/// What went wrong with YAML.
#[verifier::external_type_specification]
#[verifier::external_body]
pub struct ExYamlError(YamlError);

/// The JSON text of a document, without spaces between its parts.
pub uninterp spec fn json_text(v: Value) -> Seq<u8>;

/// The JSON text of a list of changes.
pub uninterp spec fn patch_text(p: Patch) -> Seq<u8>;

/// The text of the document that the bytes hold, or what is wrong with them if they hold no JSON.
pub uninterp spec fn parsed(b: Seq<u8>) -> Result<Seq<u8>, Seq<char>>;

/// The text of the list of changes that the bytes hold, or what is wrong with them if they hold
/// none.
pub uninterp spec fn parsed_patch(b: Seq<u8>) -> Result<Seq<u8>, Seq<char>>;

/// The JSON text of the list of changes that the bytes hold in YAML, or what is wrong with them if
/// they hold none.
pub uninterp spec fn parsed_patch_yaml(b: Seq<u8>) -> Result<Seq<u8>, Seq<char>>;

/// The JSON text of the document that the bytes hold in YAML, or what is wrong with them if they
/// hold none.
pub uninterp spec fn parsed_yaml(b: Seq<u8>) -> Result<Seq<u8>, Seq<char>>;

/// The text of the first document after the second was merged into it.
pub uninterp spec fn merged(doc: Seq<u8>, other: Seq<u8>) -> Seq<u8>;

/// The text of the document after the changes, or what is wrong with one that cannot be made.
pub uninterp spec fn patched(doc: Seq<u8>, patch: Seq<u8>) -> Result<Seq<u8>, Seq<char>>;

/// The YAML text of a list of changes, or what is wrong if it cannot be written so.
pub uninterp spec fn patch_yaml(patch: Seq<u8>) -> Result<Seq<char>, Seq<char>>;

/// The text of what a document has under a key, if it is an object that has the key.
pub uninterp spec fn member(doc: Seq<u8>, key: Seq<char>) -> Option<Seq<u8>>;

/// The string that a document is, if it is one.
pub uninterp spec fn text_in(doc: Seq<u8>) -> Option<Seq<char>>;

/// What a JSON error says of itself.
pub uninterp spec fn json_error_text(err: JsonError) -> Seq<char>;

/// What a patch error says of itself.
pub uninterp spec fn patch_error_text(err: PatchError) -> Seq<char>;

/// What a YAML error says of itself.
pub uninterp spec fn yaml_error_text(err: YamlError) -> Seq<char>;

/// Calls `serde_json::from_slice` for a document. Whether it succeeds, the document it gives and
/// the words of its error depend on the bytes alone.
#[verifier::external_body]
pub(crate) fn parse(b: &[u8]) -> (r: Result<Value, JsonError>)
    ensures
        match r {
            Ok(v) => parsed(b@) == Ok::<Seq<u8>, Seq<char>>(json_text(v)),
            Err(err) => parsed(b@) == Err::<Seq<u8>, Seq<char>>(json_error_text(err)),
        },
{
    serde_json::from_slice(b)
}

/// Calls `serde_json::from_slice` for a list of changes. Whether it succeeds, the list it gives
/// and the words of its error depend on the bytes alone.
#[verifier::external_body]
pub(crate) fn parse_patch(b: &[u8]) -> (r: Result<Patch, JsonError>)
    ensures
        match r {
            Ok(p) => parsed_patch(b@) == Ok::<Seq<u8>, Seq<char>>(patch_text(p)),
            Err(err) => parsed_patch(b@) == Err::<Seq<u8>, Seq<char>>(json_error_text(err)),
        },
{
    serde_json::from_slice(b)
}

/// Calls `serde_yaml::from_slice` for a document. Whether it succeeds, the document it gives and
/// the words of its error depend on the bytes alone.
#[verifier::external_body]
pub(crate) fn parse_yaml(b: &[u8]) -> (r: Result<Value, YamlError>)
    ensures
        match r {
            Ok(v) => parsed_yaml(b@) == Ok::<Seq<u8>, Seq<char>>(json_text(v)),
            Err(err) => parsed_yaml(b@) == Err::<Seq<u8>, Seq<char>>(yaml_error_text(err)),
        },
{
    serde_yaml::from_slice(b)
}

/// Calls `serde_yaml::from_slice` for a list of changes. Whether it succeeds, the list it gives and
/// the words of its error depend on the bytes alone.
#[verifier::external_body]
pub(crate) fn parse_patch_yaml(b: &[u8]) -> (r: Result<Patch, YamlError>)
    ensures
        match r {
            Ok(p) => parsed_patch_yaml(b@) == Ok::<Seq<u8>, Seq<char>>(patch_text(p)),
            Err(err) => parsed_patch_yaml(b@) == Err::<Seq<u8>, Seq<char>>(yaml_error_text(err)),
        },
{
    serde_yaml::from_slice(b)
}

/// Calls `serde_json::to_vec` for a document, which gives its JSON text. The keys of a document are
/// strings and memory takes all bytes, so nothing can fail.
#[verifier::external_body]
pub(crate) fn write(v: &Value) -> (r: Result<Vec<u8>, JsonError>)
    ensures
        r is Ok,
        r->Ok_0@ == json_text(*v),
{
    serde_json::to_vec(v)
}

/// Calls `serde_json::Value::get` for a key. Whether there is something under the key, and what,
/// depend on the document and the key alone.
#[verifier::external_body]
pub(crate) fn get<'a>(v: &'a Value, key: &str) -> (r: Option<&'a Value>)
    ensures
        match r {
            Some(x) => member(json_text(*v), key@) == Some(json_text(*x)),
            None => member(json_text(*v), key@) is None,
        },
{
    v.get(key)
}

/// Calls `serde_json::Value::as_str`, which gives the string that a document is, and nothing for
/// other documents. The text of such a document is the string in quotes.
#[verifier::external_body]
pub(crate) fn as_text(v: &Value) -> (r: Option<&str>)
    ensures
        match r {
            Some(s) => text_in(json_text(*v)) == Some(s@) && json_text(*v) == encode_utf8(
                quoted(s@),
            ),
            None => text_in(json_text(*v)) is None && forall|s: Seq<char>|
                json_text(*v) != #[trigger] encode_utf8(quoted(s)),
        },
{
    v.as_str()
}

/// Calls `json_patch::merge`, which changes the first document by the second.
#[verifier::external_body]
pub(crate) fn merge(doc: &mut Value, other: &Value)
    ensures
        json_text(*final(doc)) == merged(json_text(*old(doc)), json_text(*other)),
{
    json_patch::merge(doc, other)
}

/// Calls `json_patch::patch_unsafe`, which makes the changes one after the other and stops at the
/// first that cannot be made. Whether that happens, the document after all changes and the words of
/// the error depend on the document and the changes alone. Nothing is said of the document where
/// that happens: the changes before that one stay in it.
#[verifier::external_body]
pub(crate) fn patch(doc: &mut Value, p: &Patch) -> (r: Result<(), PatchError>)
    ensures
        match r {
            Ok(_) => patched(json_text(*old(doc)), patch_text(*p)) == Ok::<Seq<u8>, Seq<char>>(
                json_text(*final(doc)),
            ),
            Err(err) => patched(json_text(*old(doc)), patch_text(*p)) == Err::<
                Seq<u8>,
                Seq<char>,
            >(patch_error_text(err)),
        },
{
    json_patch::patch_unsafe(doc, p)
}

/// Calls `serde_yaml::to_string` for a list of changes. Whether it succeeds, the text it gives and
/// the words of its error depend on the list alone.
#[verifier::external_body]
pub(crate) fn write_patch_yaml(p: &Patch) -> (r: Result<String, YamlError>)
    ensures
        match r {
            Ok(s) => patch_yaml(patch_text(*p)) == Ok::<Seq<char>, Seq<char>>(s@),
            Err(err) => patch_yaml(patch_text(*p)) == Err::<Seq<char>, Seq<char>>(
                yaml_error_text(err),
            ),
        },
{
    serde_yaml::to_string(p)
}

/// Calls the `to_string` of a `serde_json::Error`. The words depend on the error alone.
#[verifier::external_body]
pub(crate) fn describe(err: &JsonError) -> (r: String)
    ensures
        r@ == json_error_text(*err),
{
    err.to_string()
}

/// Calls the `to_string` of a `json_patch::PatchError`. The words depend on the error alone.
#[verifier::external_body]
pub(crate) fn describe_patch(err: &PatchError) -> (r: String)
    ensures
        r@ == patch_error_text(*err),
{
    err.to_string()
}

/// Calls the `to_string` of a `serde_yaml::Error`. The words depend on the error alone.
#[verifier::external_body]
pub(crate) fn describe_yaml(err: &YamlError) -> (r: String)
    ensures
        r@ == yaml_error_text(*err),
{
    err.to_string()
}

/// The digit for a number below sixteen.
pub open spec fn hex_digit(n: int) -> char {
    "0123456789abcdef"@[n]
}

/// How a character is written between the quotes of a JSON string.
pub open spec fn escaped(c: char) -> Seq<char> {
    if c == '"' || c == '\\' {
        seq!['\\', c]
    } else if c == '\n' {
        seq!['\\', 'n']
    } else if c == '\r' {
        seq!['\\', 'r']
    } else if c == '\t' {
        seq!['\\', 't']
    } else if c as int == 8 {
        seq!['\\', 'b']
    } else if c as int == 12 {
        seq!['\\', 'f']
    } else if (c as int) < 32 {
        seq!['\\', 'u', '0', '0', hex_digit(c as int / 16), hex_digit(c as int % 16)]
    } else {
        seq![c]
    }
}

/// The characters of a JSON string between its quotes.
pub open spec fn escaped_all(s: Seq<char>) -> Seq<char>
    decreases s.len(),
{
    if s.len() == 0 {
        Seq::empty()
    } else {
        escaped_all(s.drop_last()) + escaped(s.last())
    }
}

/// `s` as a JSON string.
pub open spec fn quoted(s: Seq<char>) -> Seq<char> {
    seq!['"'] + escaped_all(s) + seq!['"']
}

/// Calls `serde_json::to_string` for a string, which gives it in quotes, with a backslash before
/// quotes and backslashes and with control characters written as escapes. Memory takes all bytes,
/// so nothing can fail.
#[verifier::external_body]
pub(crate) fn quote(s: &str) -> (r: Result<String, JsonError>)
    ensures
        r is Ok,
        r->Ok_0@ == quoted(s@),
{
    serde_json::to_string(s)
}

/// A string without quotes, backslashes and control characters is not changed between its quotes.
pub proof fn plain_is_not_escaped(s: Seq<char>)
    requires
        forall|i: int|
            0 <= i < s.len() ==> s[i] != '"' && s[i] != '\\' && #[trigger] (s[i] as int) >= 32,
    ensures
        quoted(s) == seq!['"'] + s + seq!['"'],
    decreases s.len(),
{
    if s.len() > 0 {
        assert forall|i: int| 0 <= i < s.drop_last().len() implies s.drop_last()[i] != '"'
            && s.drop_last()[i] != '\\' && #[trigger] (s.drop_last()[i] as int) >= 32 by {
            assert((s[i] as int) >= 32);
        }
        plain_is_not_escaped(s.drop_last());
        let t = s.drop_last();
        assert(escaped_all(t) =~= t) by {
            assert(quoted(t).subrange(1, quoted(t).len() - 1) =~= escaped_all(t));
            assert((seq!['"'] + t + seq!['"']).subrange(1, t.len() as int + 1) =~= t);
        }
        assert((s[s.len() - 1] as int) >= 32);
        assert(escaped_all(s) =~= s);
    } else {
        assert(escaped_all(s) =~= s);
    }
}

} // verus!
