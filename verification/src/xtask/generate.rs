//! Bindings for definitions that others maintain.

use vstd::prelude::*;

use crate::text;

verus! {

/// How bindings for bundles are generated.
#[derive(Clone, Copy, Debug, PartialEq, Eq, Structural)]
pub struct OlmOpts {
    /// Whether to print instead of write.
    pub dry_run: bool,
}

/// How bindings for the gateway API are generated.
#[derive(Clone, Copy, Debug, PartialEq, Eq, Structural)]
pub struct GatewayApiOpts {
    /// Whether to print instead of write.
    pub dry_run: bool,
}

/// Where bindings come from and go to.
#[derive(Debug, PartialEq)]
pub struct Binding {
    /// Where the definition is.
    pub url: String,
    /// Where the binding is written to, below the workspace.
    pub file: String,
}

/// The major version: what precedes the first dot.
pub open spec fn major_version(version: Seq<char>) -> Seq<char> {
    version.take(text::find_from(version, '.', 0))
}

/// The binding of a type for bundles. The name of the definition has no underscores.
pub fn olm(version: &str) -> (r: Binding)
    ensures
        r.url@ == "https://github.com/operator-framework/api/raw/refs/tags/v"@ + version@
            + "/crds/operators.coreos.com_clusterserviceversions.yaml"@,
        r.file@ == "xtask/src/olm/cluster_service_versions.rs"@,
{
    Binding {
        url: text::cat3(
            "https://github.com/operator-framework/api/raw/refs/tags/v",
            version,
            "/crds/operators.coreos.com_clusterserviceversions.yaml",
        ),
        file: "xtask/src/olm/cluster_service_versions.rs".to_owned(),
    }
}

/// The number of types of the gateway API.
pub const GATEWAY_TYPES: usize = 6;

/// The types of the gateway API.
pub open spec fn gateway_type_of(i: int) -> Seq<char> {
    if i == 0 {
        "backendtlspolicies"@
    } else if i == 1 {
        "gatewayclasses"@
    } else if i == 2 {
        "gateways"@
    } else if i == 3 {
        "grpcroutes"@
    } else if i == 4 {
        "httproutes"@
    } else {
        "referencegrants"@
    }
}

/// The types of the gateway API.
pub fn gateway_type(i: usize) -> (r: &'static str)
    requires
        i < 6,
    ensures
        r@ == gateway_type_of(i as int),
{
    match i {
        0 => "backendtlspolicies",
        1 => "gatewayclasses",
        2 => "gateways",
        3 => "grpcroutes",
        4 => "httproutes",
        _ => "referencegrants",
    }
}

/// The binding of a type of the gateway API, in a directory for its major version.
pub fn gateway_api(version: &str, type_: &str) -> (r: Binding)
    requires
        version@.contains('.'),
    ensures
        r.url@ == "https://github.com/kubernetes-sigs/gateway-api/raw/refs/tags/v"@ + version@
            + "/config/crd/standard/gateway.networking.k8s.io_"@ + type_@ + ".yaml"@,
        r.file@ == "gateway_networking_k8s_io/src/v"@ + major_version(version@) + "/"@ + type_@
            + ".rs"@,
{
    let v = text::chars_of(version);
    let n: usize = v.len();
    let mut i: usize = 0;
    while i < n && v[i] != '.'
        invariant
            v@ == version@,
            n == v@.len(),
            i <= n,
            text::find_from(version@, '.', 0) == text::find_from(version@, '.', i as int),
        decreases n - i,
    {
        i = i + 1;
    }
    let major = version.substring_char(0, i);
    assert(major@ =~= major_version(version@));
    Binding {
        url: text::cat5(
            "https://github.com/kubernetes-sigs/gateway-api/raw/refs/tags/v",
            version,
            "/config/crd/standard/gateway.networking.k8s.io_",
            type_,
            ".yaml",
        ),
        file: text::cat5("gateway_networking_k8s_io/src/v", major, "/", type_, ".rs"),
    }
}

} // verus!
