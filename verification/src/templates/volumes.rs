//! Volumes for the parts of a configuration.

use vstd::prelude::*;

use crate::k8s::pod::{
    ConfigMapProjection, ConfigMapProjectionView, ConfigMapVolumeSource, ConfigMapVolumeSourceView,
    KeyToPath, KeyToPathView, ProjectedVolumeSource, ProjectedVolumeSourceView, SecretProjection,
    SecretProjectionView, Volume, VolumeProjection, VolumeProjectionView, VolumeView,
};
use crate::model::{none, one, push, two, Model};
use crate::templates::{CONFIG_DROPIN_VOLUME_NAME, CONFIG_ROOT_VOLUME_NAME};
use crate::v1alpha1::{ConfigSource, ConfigSourceView, DropinSource, DropinSourceView};

verus! {

/// A key in a file of its own name.
pub open spec fn key_as_file(key: Seq<char>, mode: Option<i32>) -> KeyToPathView {
    KeyToPathView { key, mode, path: key }
}

/// Where a drop-in comes from: the one key that it names, which has to be there.
pub open spec fn projection(d: DropinSourceView) -> VolumeProjectionView {
    match (d.config_map_key_ref, d.secret_key_ref) {
        (Some(r), _) => VolumeProjectionView {
            config_map: Some(
                ConfigMapProjectionView {
                    name: r.name,
                    optional: Some(false),
                    items: Some(seq![key_as_file(r.key, None)]),
                },
            ),
            secret: None,
        },
        (None, Some(r)) => VolumeProjectionView {
            config_map: None,
            secret: Some(
                SecretProjectionView {
                    name: r.name,
                    optional: Some(false),
                    items: Some(seq![key_as_file(r.key, None)]),
                },
            ),
        },
        (None, None) => VolumeProjectionView::blank(),
    }
}

/// The sources of all drop-ins, in their order.
pub open spec fn projections(dropins: Seq<DropinSourceView>) -> Seq<VolumeProjectionView> {
    dropins.map_values(|d: DropinSourceView| projection(d))
}

/// The volume for the root configuration.
pub open spec fn root_volume(cfgsrc: ConfigSourceView) -> VolumeView {
    VolumeView {
        name: "root-config"@,
        config_map: Some(
            ConfigMapVolumeSourceView {
                name: cfgsrc.root.name,
                items: Some(seq![key_as_file(cfgsrc.root.key, Some(0o666))]),
                ..ConfigMapVolumeSourceView::blank()
            },
        ),
        ..VolumeView::blank()
    }
}

/// The volume for the drop-ins.
pub open spec fn dropin_volume(name: Seq<char>, cfgsrc: ConfigSourceView) -> VolumeView {
    VolumeView {
        name,
        projected: Some(
            ProjectedVolumeSourceView {
                sources: Some(projections(cfgsrc.dropins)),
                default_mode: Some(0o644),
            },
        ),
        ..VolumeView::blank()
    }
}

/// The volumes that a configuration needs.
pub open spec fn volumes_for(cfgsrc: ConfigSourceView) -> Seq<VolumeView> {
    seq![root_volume(cfgsrc), dropin_volume("dropin-config"@, cfgsrc)]
}

/// Where a drop-in comes from.
fn project(d: &DropinSource) -> (r: VolumeProjection)
    ensures
        r@ == projection(d@),
{
    if let Some(cfgref) = &d.config_map_key_ref {
        VolumeProjection {
            config_map: Some(
                ConfigMapProjection {
                    name: cfgref.name.dup(),
                    optional: Some(false),
                    items: Some(
                        one(KeyToPath { key: cfgref.key.dup(), mode: None, path: cfgref.key.dup() }),
                    ),
                },
            ),
            secret: None,
        }
    } else if let Some(secref) = &d.secret_key_ref {
        VolumeProjection {
            config_map: None,
            secret: Some(
                SecretProjection {
                    name: secref.name.dup(),
                    optional: Some(false),
                    items: Some(
                        one(KeyToPath { key: secref.key.dup(), mode: None, path: secref.key.dup() }),
                    ),
                },
            ),
        }
    } else {
        Default::default()
    }
}

/// The volume for the root configuration.
pub(crate) fn make_root_volume(cfgsrc: &ConfigSource) -> (r: Volume)
    ensures
        r@ == root_volume(cfgsrc@),
{
    Volume {
        name: CONFIG_ROOT_VOLUME_NAME.to_owned(),
        config_map: Some(
            ConfigMapVolumeSource {
                name: cfgsrc.root.name.dup(),
                items: Some(
                    one(
                        KeyToPath {
                            key: cfgsrc.root.key.dup(),
                            path: cfgsrc.root.key.dup(),
                            mode: Some(0o666),
                        },
                    ),
                ),
                ..Default::default()
            },
        ),
        ..Default::default()
    }
}

/// The volume for the drop-ins.
pub(crate) fn make_dropin_volume(name: &str, cfgsrc: &ConfigSource) -> (r: Volume)
    ensures
        r@ == dropin_volume(name@, cfgsrc@),
{
    let ghost dropins = cfgsrc@.dropins;
    let mut sources: Vec<VolumeProjection> = none();
    let mut i: usize = 0;
    assert(projections(dropins).take(0) =~= Seq::empty());
    while i < cfgsrc.dropins.len()
        invariant
            dropins == cfgsrc@.dropins,
            i <= cfgsrc.dropins@.len(),
            sources.deep_view() == projections(dropins).take(i as int),
        decreases cfgsrc.dropins.len() - i,
    {
        push(&mut sources, project(&cfgsrc.dropins[i]));
        i = i + 1;
        assert(sources.deep_view() =~= projections(dropins).take(i as int));
    }
    assert(projections(dropins).take(i as int) =~= projections(dropins));
    Volume {
        name: name.to_owned(),
        projected: Some(
            ProjectedVolumeSource { sources: Some(sources), default_mode: Some(0o644) },
        ),
        ..Default::default()
    }
}

/// Make_volumes creates a vector of required volume specifications needed to make use of the
/// `ConfigSource`.
pub fn make_volumes(cfgsrc: &ConfigSource) -> (r: Vec<Volume>)
    ensures
        r.deep_view() == volumes_for(cfgsrc@),
{
    two(make_root_volume(cfgsrc), make_dropin_volume(CONFIG_DROPIN_VOLUME_NAME, cfgsrc))
}

} // verus!
