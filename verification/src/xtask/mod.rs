//! Build and task support.

use vstd::prelude::*;

use crate::model::Model;
use crate::text;

pub mod check;
pub mod ci;
pub mod generate;
pub mod kind;

verus! {

/// The versions of the tools that are used.
#[derive(Debug, PartialEq)]
pub struct CiVersions {
    /// Kubernetes itself.
    pub kube: String,
    /// Clusters in containers.
    pub kind: String,
    /// Manifests.
    pub kustomize: String,
    /// Bundles.
    pub operator_sdk: String,
    /// Bindings for bundles.
    pub operator_api: String,
    /// Catalogs.
    pub opm: String,
    /// A gateway.
    pub istio: String,
    /// Routes.
    pub gateway_api: String,
    /// Bindings.
    pub kopium: String,
}

/// The value of a [`CiVersions`].
pub ghost struct CiVersionsView {
    pub kube: Seq<char>,
    pub kind: Seq<char>,
    pub kustomize: Seq<char>,
    pub operator_sdk: Seq<char>,
    pub operator_api: Seq<char>,
    pub opm: Seq<char>,
    pub istio: Seq<char>,
    pub gateway_api: Seq<char>,
    pub kopium: Seq<char>,
}

impl DeepView for CiVersions {
    type V = CiVersionsView;

    open spec fn deep_view(&self) -> CiVersionsView {
        CiVersionsView {
            kube: self.kube.deep_view(),
            kind: self.kind.deep_view(),
            kustomize: self.kustomize.deep_view(),
            operator_sdk: self.operator_sdk.deep_view(),
            operator_api: self.operator_api.deep_view(),
            opm: self.opm.deep_view(),
            istio: self.istio.deep_view(),
            gateway_api: self.gateway_api.deep_view(),
            kopium: self.kopium.deep_view(),
        }
    }
}

impl View for CiVersions {
    type V = CiVersionsView;

    open spec fn view(&self) -> CiVersionsView {
        self.deep_view()
    }
}

impl Model for CiVersions {
    fn dup(&self) -> (r: Self) {
        CiVersions {
            kube: self.kube.dup(),
            kind: self.kind.dup(),
            kustomize: self.kustomize.dup(),
            operator_sdk: self.operator_sdk.dup(),
            operator_api: self.operator_api.dup(),
            opm: self.opm.dup(),
            istio: self.istio.dup(),
            gateway_api: self.gateway_api.dup(),
            kopium: self.kopium.dup(),
        }
    }

    fn same(&self, other: &Self) -> (r: bool) {
        self.kube.same(&other.kube)
            && self.kind.same(&other.kind)
            && self.kustomize.same(&other.kustomize)
            && self.operator_sdk.same(&other.operator_sdk)
            && self.operator_api.same(&other.operator_api)
            && self.opm.same(&other.opm)
            && self.istio.same(&other.istio)
            && self.gateway_api.same(&other.gateway_api)
            && self.kopium.same(&other.kopium)
    }
}

/// What the workspace says about itself.
#[derive(Debug, PartialEq)]
pub struct Metadata {
    /// The versions of the tools that are used.
    pub ci: CiVersions,
}

/// The value of a [`Metadata`].
pub ghost struct MetadataView {
    pub ci: CiVersionsView,
}

impl DeepView for Metadata {
    type V = MetadataView;

    open spec fn deep_view(&self) -> MetadataView {
        MetadataView {
            ci: self.ci.deep_view(),
        }
    }
}

impl View for Metadata {
    type V = MetadataView;

    open spec fn view(&self) -> MetadataView {
        self.deep_view()
    }
}

impl Model for Metadata {
    fn dup(&self) -> (r: Self) {
        Metadata {
            ci: self.ci.dup(),
        }
    }

    fn same(&self, other: &Self) -> (r: bool) {
        self.ci.same(&other.ci)
    }
}

/// What cargo says about the workspace.
#[derive(Debug, PartialEq)]
pub struct CargoMetadata {
    /// What the workspace says about itself.
    pub metadata: Metadata,
}

/// The value of a [`CargoMetadata`].
pub ghost struct CargoMetadataView {
    pub metadata: MetadataView,
}

impl DeepView for CargoMetadata {
    type V = CargoMetadataView;

    open spec fn deep_view(&self) -> CargoMetadataView {
        CargoMetadataView {
            metadata: self.metadata.deep_view(),
        }
    }
}

impl View for CargoMetadata {
    type V = CargoMetadataView;

    open spec fn view(&self) -> CargoMetadataView {
        self.deep_view()
    }
}

impl Model for CargoMetadata {
    fn dup(&self) -> (r: Self) {
        CargoMetadata {
            metadata: self.metadata.dup(),
        }
    }

    fn same(&self, other: &Self) -> (r: bool) {
        self.metadata.same(&other.metadata)
    }
}

impl CargoMetadata {
    /// The version of Kubernetes.
    pub fn kube(&self) -> (r: String)
        ensures
            r@ == self@.metadata.ci.kube,
    {
        self.metadata.ci.kube.dup()
    }

    /// The version of the clusters in containers.
    pub fn kind(&self) -> (r: String)
        ensures
            r@ == self@.metadata.ci.kind,
    {
        self.metadata.ci.kind.dup()
    }

    /// The version of the tool for manifests.
    pub fn kustomize(&self) -> (r: String)
        ensures
            r@ == self@.metadata.ci.kustomize,
    {
        self.metadata.ci.kustomize.dup()
    }

    /// The version of the tool for bundles.
    pub fn operator_sdk(&self) -> (r: String)
        ensures
            r@ == self@.metadata.ci.operator_sdk,
    {
        self.metadata.ci.operator_sdk.dup()
    }

    /// The version of the bindings for bundles.
    pub fn operator_api(&self) -> (r: String)
        ensures
            r@ == self@.metadata.ci.operator_api,
    {
        self.metadata.ci.operator_api.dup()
    }

    /// The version of the tool for catalogs.
    pub fn opm(&self) -> (r: String)
        ensures
            r@ == self@.metadata.ci.opm,
    {
        self.metadata.ci.opm.dup()
    }

    /// The version of the gateway.
    pub fn istio(&self) -> (r: String)
        ensures
            r@ == self@.metadata.ci.istio,
    {
        self.metadata.ci.istio.dup()
    }

    /// The version of the routes.
    pub fn gateway_api(&self) -> (r: String)
        ensures
            r@ == self@.metadata.ci.gateway_api,
    {
        self.metadata.ci.gateway_api.dup()
    }

    /// The version of the tool for bindings.
    pub fn kopium(&self) -> (r: String)
        ensures
            r@ == self@.metadata.ci.kopium,
    {
        self.metadata.ci.kopium.dup()
    }
}

/// Where a bundle is kept.
pub const BUNDLE_IMAGE: &'static str = "quay.io/projectclair/clair-bundle";

/// Where a catalog is kept.
pub const CATALOG_IMAGE: &'static str = "quay.io/projectclair/clair-catalog";

/// The value of a setting: that of the environment, or else the usual one.
pub fn setting(from_env: Option<String>, usual: String) -> (r: String)
    ensures
        r@ == (match from_env {
            Some(v) => v@,
            None => usual@,
        }),
{
    match from_env {
        Some(v) => v,
        None => usual,
    }
}

/// The manifest of the ingress controller.
pub fn ingress_nginx_manifest_url(from_env: Option<String>) -> (r: String)
    ensures
        r@ == (match from_env {
            Some(v) => v@,
            None =>
                "https://raw.githubusercontent.com/kubernetes/ingress-nginx/main/deploy/static/provider/kind/deploy.yaml"@,
        }),
{
    match from_env {
        Some(v) => v,
        None =>
            "https://raw.githubusercontent.com/kubernetes/ingress-nginx/main/deploy/static/provider/kind/deploy.yaml".to_owned(),
    }
}

/// The manifest of the gateway API.
pub fn gateway_api_manifest_url(from_env: Option<String>, version: &str) -> (r: String)
    ensures
        r@ == (match from_env {
            Some(v) => v@,
            None => "https://github.com/kubernetes-sigs/gateway-api/releases/download/v"@
                + version@ + "/standard-install.yaml"@,
        }),
{
    match from_env {
        Some(v) => v,
        None => text::cat3(
            "https://github.com/kubernetes-sigs/gateway-api/releases/download/v",
            version,
            "/standard-install.yaml",
        ),
    }
}

/// `p` is `base`, or a path below it.
pub open spec fn is_within(base: Seq<char>, p: Seq<char>) -> bool {
    &&& base.len() > 0
    &&& text::has_prefix(p, base)
    &&& p.len() == base.len() || p[base.len() as int] == '/' || base.last() == '/'
}

/// The path from `base` to a path within it. At its ends, slashes and dots that mean nothing are
/// left out.
pub open spec fn from_base(base: Seq<char>, p: Seq<char>) -> Seq<char> {
    text::trimmed_start(text::trimmed_end(p.skip(base.len() as int)))
}

/// Rel constructs a path relative to the workspace. That of the workspace itself is empty.
pub fn rel<'a>(workspace: &str, p: &'a str) -> (r: &'a str)
    requires
        is_within(workspace@, p@),
    ensures
        r@ == from_base(workspace@, p@),
{
    let _ = p.unicode_len();
    text::trim_path(p, workspace.unicode_len())
}

/// The path neither starts nor ends with something that means nothing.
pub open spec fn is_trimmed(path: Seq<char>) -> bool {
    &&& path.len() > 0
    &&& path[0] != '/'
    &&& path.last() != '/'
    &&& path != "."@
    &&& !text::has_prefix(path, "./"@)
    &&& !text::has_suffix(path, "/."@)
}

/// The path from a directory to what is joined to it is what was joined; and that to the directory
/// itself is empty.
pub proof fn joined_is_found(base: Seq<char>, path: Seq<char>)
    requires
        base.len() > 0,
        base.last() != '/',
        is_trimmed(path),
    ensures
        is_within(base, base + "/"@ + path),
        from_base(base, base + "/"@ + path) == path,
        from_base(base, base) == Seq::<char>::empty(),
        from_base(base, base + "/"@) == Seq::<char>::empty(),
{
    reveal_strlit("/");
    reveal_strlit(".");
    reveal_strlit("/.");
    let p = base + "/"@ + path;
    let rest = p.skip(base.len() as int);
    assert(p.take(base.len() as int) =~= base);
    assert(rest =~= "/"@ + path);
    assert(!text::has_suffix(rest, "/."@)) by {
        if text::has_suffix(rest, "/."@) {
            let tail = rest.skip(rest.len() - 2);
            assert(tail[0] == '/' && tail[1] == '.');
            if path.len() == 1 {
                assert(path =~= "."@);
            } else {
                assert(path.skip(path.len() - 2) =~= tail);
            }
        }
    }
    assert(rest.last() == path.last());
    assert(text::trimmed_end(rest) == rest);
    assert(rest.skip(1) =~= path);
    assert(text::trimmed_start(path) == path);
    assert(base.skip(base.len() as int) =~= Seq::<char>::empty());
    let slash = (base + "/"@).skip(base.len() as int);
    assert(slash =~= "/"@);
    assert(slash.drop_last() =~= Seq::<char>::empty());
    assert(text::trimmed_end(Seq::<char>::empty()) == Seq::<char>::empty());
}

/// The path is complete by itself.
pub open spec fn is_absolute(path: Seq<char>) -> bool {
    path.len() > 0 && path[0] == '/'
}

/// A path as seen from a directory.
pub open spec fn resolved(dir: Seq<char>, path: Seq<char>) -> Seq<char> {
    if is_absolute(path) {
        path
    } else if dir.len() == 0 || dir.last() == '/' {
        dir + path
    } else {
        dir + "/"@ + path
    }
}

/// A path as seen from a directory.
pub fn resolve(dir: &str, path: &str) -> (r: String)
    ensures
        r@ == resolved(dir@, path@),
{
    let p = text::chars_of(path);
    if p.len() > 0 && p[0] == '/' {
        return path.to_owned();
    }
    let d = text::chars_of(dir);
    if d.len() == 0 || d[d.len() - 1] == '/' {
        text::cat(dir, path)
    } else {
        text::cat3(dir, "/", path)
    }
}

/// Where manifests are written to.
#[derive(Debug, PartialEq)]
pub struct ManifestsOpts {
    out_dir: String,
}

impl ManifestsOpts {
    /// Where manifests are written to.
    pub closed spec fn dir(&self) -> Seq<char> {
        self.out_dir@
    }

    /// The options for a directory, which may be given as seen from the workspace.
    pub fn from(workspace: &str, out_dir: &str) -> (r: ManifestsOpts)
        ensures
            r.dir() == resolved(workspace@, out_dir@),
    {
        ManifestsOpts { out_dir: resolve(workspace, out_dir) }
    }

    /// Where the definitions of the kinds are written to.
    pub fn crd_dir(&self) -> (r: String)
        ensures
            r@ == resolved(self.dir(), "crd"@),
    {
        resolve(self.out_dir.as_str(), "crd")
    }

    /// Where the manifest of the operator is written to.
    pub fn csv_dir(&self) -> (r: String)
        ensures
            r@ == resolved(self.dir(), "csv"@),
    {
        resolve(self.out_dir.as_str(), "csv")
    }
}

/// The reference to an image of a version.
pub fn tag(image: &str, version: &str) -> (r: String)
    ensures
        r@ == image@ + ":"@ + version@,
{
    text::cat3(image, ":", version)
}

/// The words of a command.
pub open spec fn spelled(parts: Seq<&str>) -> Seq<Seq<char>> {
    parts.map_values(|s: &str| s@)
}

/// The words of a command.
pub(crate) fn words(parts: &[&str]) -> (r: Vec<String>)
    ensures
        r.deep_view() == spelled(parts@),
{
    let mut r: Vec<String> = Vec::new();
    let mut i: usize = 0;
    while i < parts.len()
        invariant
            i <= parts@.len(),
            r@.len() == i,
            forall|j: int| 0 <= j < i ==> (#[trigger] r@[j])@ == parts@[j]@,
        decreases parts.len() - i,
    {
        r.push(parts[i].to_owned());
        i = i + 1;
    }
    assert(r.deep_view() =~= spelled(parts@));
    r
}

} // verus!
