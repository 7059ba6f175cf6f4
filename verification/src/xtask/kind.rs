//! Clusters to run tests in.

use vstd::prelude::*;

use crate::model::{none, push};
use crate::text;
use crate::xtask::check::Tool;
use crate::xtask::words;

verus! {

/// KinD is a running KinD cluster.
///
/// It deletes the cluster on drop.
#[derive(Debug, PartialEq)]
pub struct KinD {
    name: String,
}

impl KinD {
    /// The name of the cluster.
    pub closed spec fn cluster(&self) -> Seq<char> {
        self.name@
    }

    /// A cluster of a name.
    pub fn new(name: &str) -> (r: KinD)
        ensures
            r.cluster() == name@,
    {
        KinD { name: name.to_owned() }
    }

    /// The command that deletes the cluster.
    pub fn delete(&self) -> (r: Vec<String>)
        ensures
            r.deep_view() == delete_command(self.cluster()),
    {
        let r = words(&["kind", "--quiet", "delete", "cluster", "--name", self.name.as_str()]);
        assert(r.deep_view() =~= delete_command(self.cluster()));
        r
    }
}

/// The command that deletes a cluster.
pub open spec fn delete_command(name: Seq<char>) -> Seq<Seq<char>> {
    seq!["kind"@, "--quiet"@, "delete"@, "cluster"@, "--name"@, name]
}

/// What a cluster is made with.
#[derive(Debug, PartialEq)]
pub struct KinDBuilder {
    ingress_nginx: bool,
    gateway: bool,
    istio: bool,
}

/// The value of a [`KinDBuilder`].
pub ghost struct KinDBuilderView {
    pub ingress_nginx: bool,
    pub gateway: bool,
    pub istio: bool,
}

impl View for KinDBuilder {
    type V = KinDBuilderView;

    closed spec fn view(&self) -> KinDBuilderView {
        KinDBuilderView {
            ingress_nginx: self.ingress_nginx,
            gateway: self.gateway,
            istio: self.istio,
        }
    }
}

impl Default for KinDBuilder {
    fn default() -> (r: Self)
        ensures
            r@ == (KinDBuilderView { ingress_nginx: false, gateway: false, istio: false }),
    {
        KinDBuilder { ingress_nginx: false, gateway: false, istio: false }
    }
}

/// The facts of the place where a cluster is made.
pub struct Site {
    /// The version of Kubernetes to run.
    pub kube_version: String,
    /// Whether this is a run of a workflow.
    pub github_actions: bool,
    /// The directory of the workspace.
    pub workspace: String,
    /// The manifest of the gateway API.
    pub gateway_manifest: String,
    /// The manifest of the ingress controller.
    pub ingress_manifest: String,
}

/// What to do to make a cluster.
pub struct Setup {
    /// Tools that have to be there.
    pub tools: Vec<Tool>,
    /// What to print.
    pub notice: String,
    /// Commands to run, in order.
    pub commands: Vec<Vec<String>>,
    /// The cluster that is there in the end.
    pub cluster: KinD,
}

/// A version without what follows its last dot.
pub open spec fn minor_version(version: Seq<char>) -> Seq<char> {
    version.take(text::last_index(version, '.'))
}

/// The tools that have to be there.
pub open spec fn tools_for(b: KinDBuilderView) -> Seq<Tool> {
    if b.istio {
        seq![Tool::Kubectl, Tool::Kind, Tool::Istioctl]
    } else {
        seq![Tool::Kubectl, Tool::Kind]
    }
}

/// The command that waits until everything runs.
pub open spec fn wait_command() -> Seq<Seq<char>> {
    seq![
        "kubectl"@,
        "wait"@,
        "pods"@,
        "--for=condition=Ready"@,
        "--timeout=300s"@,
        "--all"@,
        "--all-namespaces"@,
    ]
}

/// The command that applies a manifest.
pub open spec fn apply_command(manifest: Seq<char>) -> Seq<Seq<char>> {
    seq!["kubectl"@, "apply"@, "-f"@, manifest]
}

/// The command that creates a cluster.
pub open spec fn create_command(site: Site) -> Seq<Seq<char>> {
    let config = site.workspace@ + "/etc/tests/kind-"@ + minor_version(site.kube_version@)
        + ".yaml"@;
    if site.github_actions {
        seq!["kind"@, "--config"@, config, "create"@, "cluster"@]
    } else {
        seq!["kind"@, "--quiet"@, "--config"@, config, "create"@, "cluster"@]
    }
}

/// The commands that install what was asked for.
pub open spec fn service_commands(b: KinDBuilderView, site: Site) -> Seq<Seq<Seq<char>>> {
    let ingress = if b.ingress_nginx {
        seq![apply_command(site.ingress_manifest@)]
    } else {
        Seq::empty()
    };
    let istio = if b.istio {
        ingress.push(
            seq!["istioctl"@, "install"@, "--set"@, "profile=minimal"@, "-y"@],
        )
    } else {
        ingress
    };
    if b.ingress_nginx || b.istio {
        istio.push(wait_command())
    } else {
        istio
    }
}

/// All commands that make a cluster, in order.
pub open spec fn setup_commands(b: KinDBuilderView, site: Site) -> Seq<Seq<Seq<char>>> {
    let start = seq![create_command(site), wait_command()];
    let gateway = if b.gateway {
        start.push(apply_command(site.gateway_manifest@))
    } else {
        start
    };
    gateway + service_commands(b, site)
}

/// The command that waits until everything runs.
fn wait() -> (r: Vec<String>)
    ensures
        r.deep_view() == wait_command(),
{
    let r = words(
        &[
            "kubectl",
            "wait",
            "pods",
            "--for=condition=Ready",
            "--timeout=300s",
            "--all",
            "--all-namespaces",
        ],
    );
    assert(r.deep_view() =~= wait_command());
    r
}

/// The command that applies a manifest.
fn apply(manifest: &str) -> (r: Vec<String>)
    ensures
        r.deep_view() == apply_command(manifest@),
{
    let r = words(&["kubectl", "apply", "-f", manifest]);
    assert(r.deep_view() =~= apply_command(manifest@));
    r
}

impl KinDBuilder {
    /// Asks for the ingress controller.
    pub fn with_ingress_nginx(self) -> (r: Self)
        ensures
            r@ == (KinDBuilderView { ingress_nginx: true, ..self@ }),
    {
        KinDBuilder { ingress_nginx: true, ..self }
    }

    /// Asks for the gateway API.
    pub fn with_gateway(self) -> (r: Self)
        ensures
            r@ == (KinDBuilderView { gateway: true, ..self@ }),
    {
        KinDBuilder { gateway: true, ..self }
    }

    /// Asks for a gateway.
    pub fn with_istio(self) -> (r: Self)
        ensures
            r@ == (KinDBuilderView { istio: true, ..self@ }),
    {
        KinDBuilder { istio: true, ..self }
    }

    /// Says what to do to make the cluster.
    pub fn build(self, site: &Site) -> (r: Setup)
        requires
            site.kube_version@.contains('.'),
        ensures
            r.tools@ == tools_for(self@),
            r.notice@ == (if site.github_actions {
                "::notice::"@
            } else {
                "# "@
            }) + "using k8s version: "@ + minor_version(site.kube_version@),
            r.commands.deep_view() == setup_commands(self@, *site),
            r.cluster.cluster() == "ci"@,
    {
        let mut tools: Vec<Tool> = Vec::new();
        tools.push(Tool::Kubectl);
        tools.push(Tool::Kind);
        if self.istio {
            tools.push(Tool::Istioctl);
        }
        assert(tools@ =~= tools_for(self@));
        let (k8s_ver, _) = text::rsplit_once(site.kube_version.as_str(), '.').unwrap();
        let mark = if site.github_actions {
            "::notice::"
        } else {
            "# "
        };
        let notice = text::cat3(mark, "using k8s version: ", k8s_ver);
        let config = text::cat4(site.workspace.as_str(), "/etc/tests/kind-", k8s_ver, ".yaml");
        let create = if site.github_actions {
            words(&["kind", "--config", config.as_str(), "create", "cluster"])
        } else {
            words(&["kind", "--quiet", "--config", config.as_str(), "create", "cluster"])
        };
        assert(create.deep_view() =~= create_command(*site));
        let mut commands: Vec<Vec<String>> = none();
        push(&mut commands, create);
        push(&mut commands, wait());
        if self.gateway {
            push(&mut commands, apply(site.gateway_manifest.as_str()));
        }
        if self.ingress_nginx {
            push(&mut commands, apply(site.ingress_manifest.as_str()));
        }
        if self.istio {
            let install = words(&["istioctl", "install", "--set", "profile=minimal", "-y"]);
            assert(install.deep_view() =~= seq![
                "istioctl"@,
                "install"@,
                "--set"@,
                "profile=minimal"@,
                "-y"@,
            ]);
            push(&mut commands, install);
        }
        if self.ingress_nginx || self.istio {
            push(&mut commands, wait());
        }
        assert(commands.deep_view() =~= setup_commands(self@, *site));
        Setup { tools, notice, commands, cluster: KinD::new("ci") }
    }
}

} // verus!
