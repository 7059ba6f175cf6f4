//! Where the containers of a component see their configuration.

use vstd::prelude::*;

use crate::compose::names_key;
use crate::k8s::pod::{Volume, VolumeMount, VolumeMountView, VolumeView};
use crate::model::{two, Model};
use crate::templates::volumes::{
    dropin_volume, make_dropin_volume, make_root_volume, root_volume,
};
use crate::text;
use crate::v1alpha1::{ConfigSource, ConfigSourceView};

verus! {

/// The path of the root config.
pub open spec fn config_path(cfgsrc: ConfigSourceView) -> Seq<char> {
    "/etc/clair/"@ + cfgsrc.root.key
}

/// The configuration can be mounted: the root is in a known dialect, and every drop-in names a key.
pub open spec fn is_mountable(cfgsrc: ConfigSourceView) -> bool {
    &&& text::has_suffix(config_path(cfgsrc), ".json"@) || text::has_suffix(
        config_path(cfgsrc),
        ".yaml"@,
    )
    &&& forall|i: int| 0 <= i < cfgsrc.dropins.len() ==> names_key(#[trigger] cfgsrc.dropins[i])
}

/// The volumes for a configuration.
pub open spec fn config_volumes(cfgsrc: ConfigSourceView) -> Seq<VolumeView> {
    seq![root_volume(cfgsrc), dropin_volume("dropins"@, cfgsrc)]
}

/// Where the volumes for a configuration are mounted.
pub open spec fn config_mounts(cfgsrc: ConfigSourceView) -> Seq<VolumeMountView> {
    seq![
        VolumeMountView {
            name: "root-config"@,
            mount_path: config_path(cfgsrc),
            sub_path: Some(cfgsrc.root.key),
        },
        VolumeMountView {
            name: "dropins"@,
            mount_path: config_path(cfgsrc) + ".d"@,
            sub_path: None,
        },
    ]
}

/// Make_volumes generates the Volumes and VolumeMounts for the provided ConfigSource. The created
/// Volumes and VolumeMounts are returned, along with the created path of the root config.
pub fn make_volumes(cfgsrc: &ConfigSource) -> (r: (Vec<Volume>, Vec<VolumeMount>, String))
    requires
        is_mountable(cfgsrc@),
    ensures
        r.0.deep_view() == config_volumes(cfgsrc@),
        r.1.deep_view() == config_mounts(cfgsrc@),
        r.2@ == config_path(cfgsrc@),
{
    let filename = text::cat("/etc/clair/", cfgsrc.root.key.as_str());
    let vols = two(make_root_volume(cfgsrc), make_dropin_volume("dropins", cfgsrc));
    let mounts = two(
        VolumeMount {
            name: "root-config".to_owned(),
            mount_path: filename.dup(),
            sub_path: Some(cfgsrc.root.key.dup()),
        },
        VolumeMount {
            name: "dropins".to_owned(),
            mount_path: text::cat(filename.as_str(), ".d"),
            sub_path: None,
        },
    );
    (vols, mounts, filename)
}

/// Every mount of a configuration is of a volume that is made for it.
pub proof fn mounts_have_volumes(cfgsrc: ConfigSourceView)
    ensures
        forall|i: int|
            0 <= i < config_mounts(cfgsrc).len() ==> (#[trigger] config_mounts(cfgsrc)[i]).name
                == config_volumes(cfgsrc)[i].name,
{
}

} // verus!
