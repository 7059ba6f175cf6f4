//! Configurations: everything that was asked for is in them, in an order that does not depend on
//! how it was asked for.

use vstd::prelude::*;
use vstd::utf8::{encode_utf8, valid_utf8};

use crate::assets;
use crate::clairs::config_source;
use crate::compose::{self, extension_of, first_of, jsonified, ConfigDialect};
use crate::config::{
    answers, applied_all, names_patch, root_bytes, DropinView, Error, K8sMap, PartsView, Run,
    Warnings,
};
use crate::json;
use crate::k8s::pod::{ConfigMap, ConfigMapView, Secret};
use crate::keyed;
use crate::lists::{contains_concat, contains_push};
use crate::maps;
use crate::mounts;
use crate::sort::{self, Ordered};
use crate::templates::sources::{
    adding, config_source_builder, items, keys_as_dropins, root_is_no_dropin,
};
use crate::templates::volumes;
use crate::text;
use crate::v1alpha1::{
    database_dropins, ClairView, ConfigMapKeySelectorView, ConfigSourceView, DatabasesView,
    DropinSource, DropinSourceView,
};
use crate::webhook::next_config;

verus! {

/// The drop-ins of databases are the Secrets that they name, and nothing else.
proof fn databases_are_secrets(databases: Option<DatabasesView>, x: DropinSourceView)
    ensures
        database_dropins(databases).contains(x) <==> {
            &&& x.config_map_key_ref is None
            &&& x.secret_key_ref is Some
            &&& databases is Some
            &&& {
                ||| x.secret_key_ref->0 == databases->0.indexer
                ||| x.secret_key_ref->0 == databases->0.matcher
                ||| databases->0.notifier == x.secret_key_ref
            }
        },
{
    let all = database_dropins(databases);
    if let Some(db) = databases {
        assert(all[0].secret_key_ref == Some(db.indexer) && all[0].config_map_key_ref is None);
        assert(all[1].secret_key_ref == Some(db.matcher) && all[1].config_map_key_ref is None);
        assert(db.notifier is Some ==> all[2].secret_key_ref == db.notifier
            && all[2].config_map_key_ref is None);
        assert(all.len() == if db.notifier is Some {
            3int
        } else {
            2int
        });
        if all.contains(x) {
            let i = choose|i: int| 0 <= i < all.len() && all[i] == x;
            assert(i == 0 || i == 1 || i == 2);
        }
        if x.config_map_key_ref is None && x.secret_key_ref == Some(db.indexer) {
            assert(all[0] == x);
        }
        if x.config_map_key_ref is None && x.secret_key_ref == Some(db.matcher) {
            assert(all[1] == x);
        }
        if x.config_map_key_ref is None && x.secret_key_ref is Some && x.secret_key_ref
            == db.notifier {
            assert(all[2] == x);
        }
    }
}

/// The configuration of an instance has the default key of its map as the root. Its drop-ins are
/// those that the spec lists, the Secrets of the databases, and the keys of the map: all of them
/// but the root, each once, in order, and nothing else.
pub proof fn everything_asked_for_is_configured(c: ClairView, cm: ConfigMapView)
    requires
        cm.metadata.name is Some,
        cm.data is Some ==> cm.data->0.dom().finite(),
    ensures
        ({
            let r = config_source(c, cm);
            let root = DropinSourceView {
                config_map_key_ref: Some(
                    ConfigMapKeySelectorView { name: cm.metadata.name->0, key: "config.json"@ },
                ),
                secret_key_ref: None,
            };
            &&& r.root.name == cm.metadata.name->0
            &&& r.root.key == "config.json"@
            &&& sort::increasing::<DropinSource>(r.dropins)
            &&& r.dropins.no_duplicates()
            &&& !r.dropins.contains(root)
            &&& forall|x: DropinSourceView| x != root ==> (#[trigger] r.dropins.contains(x) <==> {
                ||| c.spec.dropins.contains(x)
                ||| {
                    &&& c.spec.databases is Some
                    &&& x.config_map_key_ref is None
                    &&& x.secret_key_ref is Some
                    &&& {
                        ||| x.secret_key_ref->0 == c.spec.databases->0.indexer
                        ||| x.secret_key_ref->0 == c.spec.databases->0.matcher
                        ||| c.spec.databases->0.notifier == x.secret_key_ref
                    }
                }
                ||| {
                    &&& cm.data is Some
                    &&& x.secret_key_ref is None
                    &&& x.config_map_key_ref is Some
                    &&& x.config_map_key_ref->0.name == cm.metadata.name->0
                    &&& cm.data->0.dom().contains(x.config_map_key_ref->0.key)
                }
            })
        }),
{
    let r = config_source(c, cm);
    let b = config_source_builder(cm);
    let db = database_dropins(c.spec.databases);
    let once = adding(b, db);
    let twice = adding(once, c.spec.dropins);
    sort::arranged_exists::<DropinSource>(items(b.ext_dropins) + db);
    sort::arranged_exists::<DropinSource>(items(once.ext_dropins) + c.spec.dropins);
    root_is_no_dropin(twice);
    sort::increasing_no_duplicates::<DropinSource>(r.dropins);
    let root = DropinSourceView {
        config_map_key_ref: Some(
            ConfigMapKeySelectorView { name: cm.metadata.name->0, key: "config.json"@ },
        ),
        secret_key_ref: None,
    };
    assert forall|x: DropinSourceView| x != root implies (#[trigger] r.dropins.contains(x) <==> {
        ||| c.spec.dropins.contains(x)
        ||| {
            &&& c.spec.databases is Some
            &&& x.config_map_key_ref is None
            &&& x.secret_key_ref is Some
            &&& {
                ||| x.secret_key_ref->0 == c.spec.databases->0.indexer
                ||| x.secret_key_ref->0 == c.spec.databases->0.matcher
                ||| c.spec.databases->0.notifier == x.secret_key_ref
            }
        }
        ||| {
            &&& cm.data is Some
            &&& x.secret_key_ref is None
            &&& x.config_map_key_ref is Some
            &&& x.config_map_key_ref->0.name == cm.metadata.name->0
            &&& cm.data->0.dom().contains(x.config_map_key_ref->0.key)
        }
    }) by {
        databases_are_secrets(c.spec.databases, x);
        contains_concat(items(b.ext_dropins), db, x);
        contains_concat(items(once.ext_dropins), c.spec.dropins, x);
        let first = sort::arranged::<DropinSource>(items(b.ext_dropins) + db);
        let second = sort::arranged::<DropinSource>(items(once.ext_dropins) + c.spec.dropins);
        assert(first.contains(x) <==> (items(b.ext_dropins) + db).contains(x));
        assert(second.contains(x) <==> (items(once.ext_dropins) + c.spec.dropins).contains(x));
        assert(items(once.ext_dropins) =~= first);
        assert(items(twice.ext_dropins) =~= second);
        keys_are_dropins(cm, x);
    }
}

/// The drop-ins in a map are its keys, and nothing else.
proof fn keys_are_dropins(cm: ConfigMapView, x: DropinSourceView)
    requires
        cm.data is Some ==> cm.data->0.dom().finite(),
    ensures
        keys_as_dropins(cm.metadata.name->0, cm.data).contains(x) <==> {
            &&& cm.data is Some
            &&& x.secret_key_ref is None
            &&& x.config_map_key_ref is Some
            &&& x.config_map_key_ref->0.name == cm.metadata.name->0
            &&& cm.data->0.dom().contains(x.config_map_key_ref->0.key)
        },
{
    let all = keys_as_dropins(cm.metadata.name->0, cm.data);
    if let Some(data) = cm.data {
        keyed::sorted_keys_exist(data);
        let ks = maps::sorted_keys(data);
        if all.contains(x) {
            let i = choose|i: int| 0 <= i < all.len() && all[i] == x;
            assert(ks.contains(ks[i]));
        }
        if x.secret_key_ref is None && x.config_map_key_ref is Some
            && x.config_map_key_ref->0.name == cm.metadata.name->0 && data.dom().contains(
            x.config_map_key_ref->0.key,
        ) {
            let key = x.config_map_key_ref->0.key;
            assert(ks.contains(key));
            let i = choose|i: int| 0 <= i < ks.len() && ks[i] == key;
            assert(all[i] == x);
        }
    }
}

/// The configuration that an instance would have is the one in the map named after it, with the
/// drop-ins that its spec lists and the Secrets of its databases, and nothing else.
pub proof fn everything_asked_for_is_looked_at(c: ClairView)
    ensures
        ({
            let r = next_config(c);
            &&& c.metadata.name is Some ==> r.root.name == c.metadata.name->0 + "-config"@
            &&& r.root.key == "config.json"@
            &&& sort::increasing::<DropinSource>(r.dropins)
            &&& r.dropins.no_duplicates()
            &&& forall|x: DropinSourceView| #[trigger] r.dropins.contains(x) <==> {
                ||| c.spec.dropins.contains(x)
                ||| {
                    &&& c.spec.databases is Some
                    &&& x.config_map_key_ref is None
                    &&& x.secret_key_ref is Some
                    &&& {
                        ||| x.secret_key_ref->0 == c.spec.databases->0.indexer
                        ||| x.secret_key_ref->0 == c.spec.databases->0.matcher
                        ||| c.spec.databases->0.notifier == x.secret_key_ref
                    }
                }
            }
        }),
{
    let r = next_config(c);
    let db = database_dropins(c.spec.databases);
    sort::arranged_exists::<DropinSource>(c.spec.dropins + db);
    sort::increasing_no_duplicates::<DropinSource>(r.dropins);
    assert forall|x: DropinSourceView| #[trigger] r.dropins.contains(x) <==> {
        ||| c.spec.dropins.contains(x)
        ||| {
            &&& c.spec.databases is Some
            &&& x.config_map_key_ref is None
            &&& x.secret_key_ref is Some
            &&& {
                ||| x.secret_key_ref->0 == c.spec.databases->0.indexer
                ||| x.secret_key_ref->0 == c.spec.databases->0.matcher
                ||| c.spec.databases->0.notifier == x.secret_key_ref
            }
        }
    } by {
        databases_are_secrets(c.spec.databases, x);
        contains_concat(c.spec.dropins, db, x);
        assert(r.dropins.contains(x) <==> (c.spec.dropins + db).contains(x));
    }
}

/// Drop-ins are in order by their ConfigMap, and those without one come first; then by their
/// Secret. Of two keys of the same sort, the key decides before the name.
pub proof fn order_of_dropins(a: DropinSourceView, b: DropinSourceView)
    ensures
        a.config_map_key_ref is None && b.config_map_key_ref is Some ==> DropinSource::before(
            a,
            b,
        ),
        a.config_map_key_ref is Some && b.config_map_key_ref is Some ==> ({
            let (x, y) = (a.config_map_key_ref->0, b.config_map_key_ref->0);
            &&& text::lt(x.key, y.key) ==> DropinSource::before(a, b)
            &&& x.key == y.key && text::lt(x.name, y.name) ==> DropinSource::before(a, b)
        }),
        a.config_map_key_ref == b.config_map_key_ref && a.secret_key_ref is None
            && b.secret_key_ref is Some ==> DropinSource::before(a, b),
        a.config_map_key_ref == b.config_map_key_ref && a.secret_key_ref is Some
            && b.secret_key_ref is Some ==> ({
            let (x, y) = (a.secret_key_ref->0, b.secret_key_ref->0);
            &&& text::lt(x.key, y.key) ==> DropinSource::before(a, b)
            &&& x.key == y.key && text::lt(x.name, y.name) ==> DropinSource::before(a, b)
        }),
{
}

/// The first difference decides which of two texts comes first, and a text comes before those that
/// go on after it.
pub proof fn first_difference_decides(
    start: Seq<char>,
    c: char,
    d: char,
    rest: Seq<char>,
    other: Seq<char>,
)
    ensures
        (c as int) < (d as int) ==> text::lt(start + seq![c] + rest, start + seq![d] + other),
        text::lt(start, start + seq![c] + rest),
    decreases start.len(),
{
    let (a, b) = (start + seq![c] + rest, start + seq![d] + other);
    if start.len() == 0 {
        assert(start + seq![c] + rest =~= seq![c] + rest);
        assert(a[0] == c && b[0] == d);
    } else {
        let t = start.drop_first();
        first_difference_decides(t, c, d, rest, other);
        assert(a.drop_first() =~= t + seq![c] + rest);
        assert(b.drop_first() =~= t + seq![d] + other);
        assert(a.skip(1) =~= t + seq![c] + rest);
        assert(b.skip(1) =~= t + seq![d] + other);
        assert(start.skip(1) =~= t);
        assert(a[0] == start[0] && b[0] == start[0]);
    }
}

/// A key names changes exactly if it ends so.
pub proof fn changes_are_named_so(key: Seq<char>, base: Seq<char>)
    ensures
        names_patch(base + "-patch"@),
        names_patch(key) ==> key == key.take(key.len() - "-patch"@.len()) + "-patch"@,
{
    let k = base + "-patch"@;
    assert(k.skip(k.len() - "-patch"@.len()) =~= "-patch"@);
    if names_patch(key) {
        assert(key =~= key.take(key.len() - "-patch"@.len()) + key.skip(
            key.len() - "-patch"@.len(),
        ));
    }
}

/// A drop-in whose key comes after all others is applied last, to what the others gave: one that
/// holds changes makes them, any other is merged. Where it cannot be applied, there is no
/// configuration.
pub proof fn the_last_key_is_applied_last(parts: PartsView, key: Seq<char>, dropin: DropinView)
    requires
        parts.dropins.dom().finite(),
        forall|k: Seq<char>| #[trigger] parts.dropins.dom().contains(k) ==> text::lt(k, key),
    ensures
        ({
            let more = PartsView { root: parts.root, dropins: parts.dropins.insert(key, dropin) };
            match parts.composed() {
                None => more.composed() is None,
                Some(doc) => if dropin.is_patch {
                    match json::parsed_patch(dropin.buf) {
                        Ok(changes) => match json::patched(doc, changes) {
                            Ok(after) => more.composed() == Some(after),
                            Err(_) => more.composed() is None,
                        },
                        Err(_) => more.composed() is None,
                    }
                } else {
                    match json::parsed(dropin.buf) {
                        Ok(other) => more.composed() == Some(json::merged(doc, other)),
                        Err(_) => more.composed() is None,
                    }
                },
            }
        }),
{
    let more = parts.dropins.insert(key, dropin);
    let ks = maps::sorted_keys(parts.dropins);
    keyed::sorted_keys_exist(parts.dropins);
    let all = ks.push(key);
    assert(!parts.dropins.dom().contains(key)) by {
        text::lt_irreflexive(key);
    }
    assert forall|k: Seq<char>| #[trigger] all.contains(k) <==> more.dom().contains(k) by {
        contains_push(ks, key, k);
        assert(ks.contains(k) <==> parts.dropins.dom().contains(k));
    }
    assert(sort::increasing::<String>(all)) by {
        assert forall|i: int, j: int| 0 <= i < j < all.len() implies String::before(
            #[trigger] all[i],
            #[trigger] all[j],
        ) by {
            if j == ks.len() {
                assert(ks.contains(ks[i]));
                assert(parts.dropins.dom().contains(ks[i]));
            } else {
                assert(String::before(ks[i], ks[j]));
            }
        }
    }
    assert(maps::lists_keys(all, more));
    maps::sorted_keys_unique(all, more);
    assert(all.drop_last() =~= ks);
    if let Ok(doc) = json::parsed(parts.root) {
        assert forall|i: int| 0 <= i < ks.len() implies parts.dropins[#[trigger] ks[i]]
            == more[ks[i]] by {
            assert(ks.contains(ks[i]));
            assert(parts.dropins.dom().contains(ks[i]));
        }
        same_where_listed(doc, parts.dropins, more, ks);
    }
}

/// Only the drop-ins of the keys matter.
proof fn same_where_listed(
    doc: Seq<u8>,
    a: Map<Seq<char>, DropinView>,
    b: Map<Seq<char>, DropinView>,
    keys: Seq<Seq<char>>,
)
    requires
        forall|i: int| 0 <= i < keys.len() ==> a[#[trigger] keys[i]] == b[keys[i]],
    ensures
        applied_all(doc, a, keys) == applied_all(doc, b, keys),
    decreases keys.len(),
{
    if keys.len() > 0 {
        let t = keys.drop_last();
        assert forall|i: int| 0 <= i < t.len() implies a[#[trigger] t[i]] == b[t[i]] by {
            assert(t[i] == keys[i]);
        }
        same_where_listed(doc, a, b, t);
        assert(keys.last() == keys[keys.len() - 1]);
    }
}

/// The root of a configuration is what the map has under its key: as text where the map has texts,
/// and as bytes only where it has none.
pub proof fn roots_are_texts_first(cm: ConfigMapView, key: Seq<char>)
    ensures
        match cm.data {
            Some(texts) => {
                &&& texts.dom().contains(key) ==> root_bytes(cm, key) == Some(
                    encode_utf8(texts[key]),
                )
                &&& !texts.dom().contains(key) ==> root_bytes(cm, key) is None
            },
            None => {
                &&& cm.binary_data is Some && cm.binary_data->0.dom().contains(key)
                    ==> root_bytes(cm, key) == Some(cm.binary_data->0[key])
                &&& cm.binary_data is None || !cm.binary_data->0.dom().contains(key)
                    ==> root_bytes(cm, key) is None
            },
        },
{
}

/// A key of a ConfigMap is looked for among the texts, and then among the bytes. That holds of
/// drop-ins, however they are loaded.
pub proof fn keys_are_texts_first(cm: ConfigMap, key: Seq<char>)
    ensures
        first_of(cm.data, cm.binary_data, key) == cm.lookup(key),
        cm@.data is Some && cm@.data->0.dom().contains(key) ==> cm.lookup(key) == Some(
            encode_utf8(cm@.data->0[key]),
        ),
        (cm@.data is None || !cm@.data->0.dom().contains(key)) && cm@.binary_data is Some
            && cm@.binary_data->0.dom().contains(key) ==> cm.lookup(key) == Some(
            cm@.binary_data->0[key],
        ),
        (cm@.data is None || !cm@.data->0.dom().contains(key)) && (cm@.binary_data is None
            || !cm@.binary_data->0.dom().contains(key)) ==> cm.lookup(key) is None,
{
}

/// A key of a Secret is looked for among the bytes.
pub proof fn secrets_are_bytes(secret: Secret, key: Seq<char>)
    ensures
        match secret.lookup(key) {
            Some(v) => secret@.data is Some && secret@.data->0.dom().contains(key)
                && secret@.data->0[key] == v,
            None => secret@.data is None || !secret@.data->0.dom().contains(key),
        },
        secret@.string_data is Some && secret@.string_data->0.dom().contains(key) ==> first_of(
            secret.string_data,
            secret.data,
            key,
        ) == Some(encode_utf8(secret@.string_data->0[key])),
        secret@.string_data is None || !secret@.string_data->0.dom().contains(key) ==> first_of(
            secret.string_data,
            secret.data,
            key,
        ) == secret.lookup(key),
{
}

/// JSON stays as it is, and YAML is read.
pub proof fn only_yaml_is_turned_into_json(buf: Seq<u8>)
    ensures
        jsonified(buf, ConfigDialect::JSON) == Ok::<Seq<u8>, Seq<char>>(buf),
        jsonified(buf, ConfigDialect::YAML) == json::parsed_yaml(buf),
{
}

/// The extension of a file is what follows the last dot of its name.
pub proof fn extensions_follow_the_last_dot(base: Seq<char>, ext: Seq<char>)
    requires
        base.len() > 0,
        !base.contains('/'),
        !ext.contains('/'),
        !ext.contains('.'),
        ext.len() > 0,
    ensures
        extension_of(base + seq!['.'] + ext) == Some(ext),
{
    let p = base + seq!['.'] + ext;
    let n = base.len() as int;
    reveal_strlit("/.");
    reveal_strlit(".");
    reveal_strlit("..");
    assert(p.last() == ext.last());
    assert(ext.contains(ext.last()));
    assert(!text::has_suffix(p, "/."@)) by {
        if text::has_suffix(p, "/."@) {
            assert(p.skip(p.len() - 2)[1] == '.');
        }
    }
    assert(text::trimmed_end(p) == p);
    assert(!p.contains('/')) by {
        if p.contains('/') {
            let i = choose|i: int| 0 <= i < p.len() && p[i] == '/';
            if i < n {
                assert(base.contains(base[i]));
            } else if i > n {
                assert(ext.contains(ext[i - n - 1]));
            }
        }
    }
    assert(p[n] == '.');
    assert forall|j: int| n < j < p.len() implies p[j] != '.' by {
        assert(ext.contains(ext[j - n - 1]));
    }
    assert(text::last_at(p, '.', n));
    let m = text::last_index(p, '.');
    assert(text::last_at(p, '.', m));
    assert(m == n);
    assert(p.skip(n + 1) =~= ext);
    assert(p.len() >= 3);
}

/// Exactly the exit code zero means that a configuration can be used, and what the validator wrote
/// is kept either way.
pub proof fn zero_is_success(r: Result<Warnings, Error>, mode: Seq<char>, run: Run)
    requires
        answers(r, mode, run),
    ensures
        r is Ok <==> run.exit == 0,
        r matches Ok(w) ==> w@.mode == mode && w@.out == run.out@,
        r matches Err(e) ==> (e matches Error::Validation(msg) && msg@ == run.out@ + " (exit code "@
            + text::signed_decimal(run.exit as int) + ")"@),
{
}

/// A container sees the root of its configuration as one file, under the key that the configuration
/// names in the map that it names, and all drop-ins in a directory beside it. Every drop-in is
/// there, in a file that is named after its key, and comes from where it says.
pub proof fn configurations_are_mounted(cfgsrc: ConfigSourceView)
    ensures
        ({
            let mounts = mounts::config_mounts(cfgsrc);
            let volumes = mounts::config_volumes(cfgsrc);
            &&& mounts[0].mount_path == mounts::config_path(cfgsrc)
            &&& mounts[1].mount_path == mounts::config_path(cfgsrc) + ".d"@
            &&& mounts[0].sub_path == Some(cfgsrc.root.key)
            &&& mounts[1].sub_path is None
            &&& mounts[0].name != mounts[1].name
            &&& volumes[0].name == mounts[0].name
            &&& volumes[1].name == mounts[1].name
            &&& mounts::config_path(cfgsrc) == "/etc/clair/"@ + cfgsrc.root.key
            &&& shows_root(volumes[0].config_map->0, cfgsrc)
            &&& volumes[1].projected->0.sources->0.len() == cfgsrc.dropins.len()
            &&& forall|i: int|
                0 <= i < cfgsrc.dropins.len() ==> shows_dropin(
                    volumes[1].projected->0.sources->0[i],
                    #[trigger] cfgsrc.dropins[i],
                )
            &&& volumes[1].projected->0.default_mode == Some(0o644i32)
        }),
        ({
            let volumes = volumes::volumes_for(cfgsrc);
            &&& volumes[0].name != volumes[1].name
            &&& shows_root(volumes[0].config_map->0, cfgsrc)
            &&& volumes[1].projected->0.sources->0.len() == cfgsrc.dropins.len()
            &&& forall|i: int|
                0 <= i < cfgsrc.dropins.len() ==> shows_dropin(
                    volumes[1].projected->0.sources->0[i],
                    #[trigger] cfgsrc.dropins[i],
                )
            &&& volumes[1].projected->0.default_mode == Some(0o644i32)
        }),
{
    reveal_strlit("root-config");
    reveal_strlit("dropin-config");
    reveal_strlit("dropins");
    assert("root-config"@.len() != "dropins"@.len());
    assert("root-config"@.len() != "dropin-config"@.len());
}

/// A volume shows the root of a configuration: one key of one map, in a file of that name.
pub open spec fn shows_root(
    v: crate::k8s::pod::ConfigMapVolumeSourceView,
    cfgsrc: ConfigSourceView,
) -> bool {
    &&& v.name == cfgsrc.root.name
    &&& v.items is Some
    &&& v.items->0.len() == 1
    &&& v.items->0[0].key == cfgsrc.root.key
    &&& v.items->0[0].path == cfgsrc.root.key
}

/// A volume shows a drop-in: the key that it names, in a file of that name, which has to be there.
pub open spec fn shows_dropin(
    v: crate::k8s::pod::VolumeProjectionView,
    d: DropinSourceView,
) -> bool {
    &&& d.config_map_key_ref matches Some(r) ==> {
        &&& v.secret is None
        &&& v.config_map is Some
        &&& v.config_map->0.name == r.name
        &&& v.config_map->0.optional == Some(false)
        &&& v.config_map->0.items is Some
        &&& v.config_map->0.items->0.len() == 1
        &&& v.config_map->0.items->0[0].key == r.key
        &&& v.config_map->0.items->0[0].path == r.key
    }
    &&& d.config_map_key_ref is None ==> (d.secret_key_ref matches Some(r) ==> {
        &&& v.config_map is None
        &&& v.secret is Some
        &&& v.secret->0.name == r.name
        &&& v.secret->0.optional == Some(false)
        &&& v.secret->0.items is Some
        &&& v.secret->0.items->0.len() == 1
        &&& v.secret->0.items->0[0].key == r.key
        &&& v.secret->0.items->0[0].path == r.key
    })
}

/// What comes from a template is the template, with the changes for the owner where there are some
/// that can be read. Without the template nothing comes, and the answer names the file.
pub proof fn templates_are_taken(
    r: Result<Vec<u8>, assets::Error>,
    templates: Map<Seq<char>, Seq<u8>>,
    kind: Seq<char>,
    owner: Seq<char>,
)
    requires
        assets::resolves(r, templates, kind, owner),
    ensures
        ({
            let base = assets::base_file(kind);
            let change = assets::patch_file(kind, owner);
            let readable = templates.dom().contains(change) && json::parsed_patch_yaml(
                templates[change],
            ) is Ok;
            &&& r is Ok ==> templates.dom().contains(base) && json::parsed_yaml(
                templates[base],
            ) is Ok
            &&& !templates.dom().contains(base) ==> (r matches Err(
                assets::Error::MissingTemplate(file),
            ) && file@ == base)
            &&& r is Ok && !readable ==> r->Ok_0@ == json::parsed_yaml(templates[base])->Ok_0
            &&& r is Ok && readable ==> Ok::<Seq<u8>, Seq<char>>(r->Ok_0@) == json::patched(
                json::parsed_yaml(templates[base])->Ok_0,
                json::parsed_patch_yaml(templates[change])->Ok_0,
            )
            &&& templates.dom().contains(base) && json::parsed_yaml(templates[base]) is Ok
                && !readable ==> r is Ok
        }),
{
}

/// A drop-in for a configuration in JSON is the file as it is, if that is a text.
pub proof fn json_dropins_stay(r: Result<String, assets::Error>, buf: Seq<u8>)
    requires
        assets::dropin_text(r, buf, ConfigDialect::JSON),
    ensures
        r matches Ok(text) ==> encode_utf8(text@) == buf,
        valid_utf8(buf) ==> r is Ok,
        r matches Err(e) ==> e is NotText,
{
}

/// Where a drop-in cannot be applied, the answer tells what cannot be read from changes that can be
/// read but not be made. What is merged only has to be readable.
pub proof fn faults_tell_reading_from_changing(
    e: compose::Error,
    doc: Seq<u8>,
    dropin: DropinView,
)
    requires
        compose::dropin_fault(e, doc, dropin),
    ensures
        !dropin.is_patch ==> e is JSON && json::parsed(dropin.buf) is Err,
        dropin.is_patch && json::parsed_patch(dropin.buf) is Err ==> e is JSON,
        dropin.is_patch && json::parsed_patch(dropin.buf) is Ok ==> e is JSONPatch,
        dropin.is_patch && json::parsed_patch(dropin.buf) is Ok ==> json::patched(
            doc,
            json::parsed_patch(dropin.buf)->Ok_0,
        ) is Err,
{
}

} // verus!
