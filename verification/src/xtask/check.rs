//! Tools that have to be there, and where to get them.

use vstd::prelude::*;

use crate::text;

verus! {

/// The name that downloads go by for an architecture.
pub open spec fn arch_of(arch: Seq<char>) -> Option<Seq<char>> {
    if arch == "aarch64"@ {
        Some("arm64"@)
    } else if arch == "powerpc64"@ {
        Some("ppc64le"@)
    } else if arch == "s309x"@ {
        Some("s390x"@)
    } else if arch == "x86_64"@ {
        Some("amd64"@)
    } else {
        None
    }
}

/// The name that downloads go by for an architecture, if there are any.
pub fn arch(name: &str) -> (r: Option<&'static str>)
    ensures
        match r {
            Some(known) => arch_of(name@) == Some(known@),
            None => arch_of(name@) is None,
        },
{
    if text::same(name, "aarch64") {
        Some("arm64")
    } else if text::same(name, "powerpc64") {
        Some("ppc64le")
    } else if text::same(name, "s309x") {
        Some("s390x")
    } else if text::same(name, "x86_64") {
        Some("amd64")
    } else {
        None
    }
}

/// The name that the Go toolchain has for an architecture.
pub open spec fn platform_of(p: Seq<char>) -> Option<Seq<char>> {
    if p == "aarch64"@ {
        Some("arm64"@)
    } else if p == "powerpc64"@ {
        Some("ppc64"@)
    } else if p == "x86"@ {
        Some("386"@)
    } else if p == "x86_64"@ {
        Some("amd64"@)
    } else {
        None
    }
}

/// The name that the Go toolchain has for an architecture, if it has one.
pub fn map_platform(p: &str) -> (r: Option<&'static str>)
    ensures
        match r {
            Some(name) => platform_of(p@) == Some(name@),
            None => platform_of(p@) is None,
        },
{
    if text::same(p, "aarch64") {
        Some("arm64")
    } else if text::same(p, "powerpc64") {
        Some("ppc64")
    } else if text::same(p, "x86") {
        Some("386")
    } else if text::same(p, "x86_64") {
        Some("amd64")
    } else {
        None
    }
}

/// A tool.
#[derive(Clone, Copy, Debug, PartialEq, Eq, Structural)]
pub enum Tool {
    /// Clusters in containers.
    Kind,
    /// Access to clusters.
    Kubectl,
    /// Manifests.
    Kustomize,
    /// Bundles.
    OperatorSdk,
    /// Catalogs.
    Opm,
    /// A gateway.
    Istioctl,
}

/// The machine that a tool has to run on.
pub struct Machine {
    /// Its system.
    pub os: String,
    /// Its architecture, by the name that downloads go by.
    pub arch: String,
    /// What the names of programs end in there.
    pub exe_suffix: String,
}

impl Tool {
    /// The name of the program.
    pub open spec fn program(self) -> Seq<char> {
        match self {
            Tool::Kind => "kind"@,
            Tool::Kubectl => "kubectl"@,
            Tool::Kustomize => "kustomize"@,
            Tool::OperatorSdk => "operator-sdk"@,
            Tool::Opm => "opm"@,
            Tool::Istioctl => "istioctl"@,
        }
    }

    /// The tool comes in an archive.
    pub open spec fn archived(self) -> bool {
        self == Tool::Kustomize || self == Tool::Istioctl
    }

    /// Where to get a version of the tool.
    pub open spec fn url_for(self, version: Seq<char>, m: Machine) -> Seq<char> {
        match self {
            Tool::Kind => "https://kind.sigs.k8s.io/dl/v"@ + version + "/kind-"@ + (m.os@ + "-"@
                + m.arch@),
            Tool::Kubectl => "https://dl.k8s.io/release/v"@ + version + "/bin/"@ + (m.os@ + "/"@
                + m.arch@ + "/kubectl"@ + m.exe_suffix@),
            Tool::Kustomize =>
                "https://github.com/kubernetes-sigs/kustomize/releases/download/kustomize%2Fv"@
                + version + "/kustomize_v"@ + (version + "_"@ + m.os@ + "_"@ + m.arch@)
                + ".tar.gz"@,
            Tool::OperatorSdk =>
                "https://github.com/operator-framework/operator-sdk/releases/download/v"@ + version
                + "/operator-sdk_"@ + (m.os@ + "_"@ + m.arch@),
            Tool::Opm =>
                "https://github.com/operator-framework/operator-registry/releases/download/v"@
                + version + "/"@ + (m.os@ + "-"@ + m.arch@) + "-opm"@,
            Tool::Istioctl => "https://github.com/istio/istio/releases/download/"@ + version
                + "/istio-"@ + (version + "-"@ + m.os@ + "-"@ + m.arch@) + ".tar.gz"@,
        }
    }

    /// The name of the program.
    pub fn name(self) -> (r: &'static str)
        ensures
            r@ == self.program(),
    {
        match self {
            Tool::Kind => "kind",
            Tool::Kubectl => "kubectl",
            Tool::Kustomize => "kustomize",
            Tool::OperatorSdk => "operator-sdk",
            Tool::Opm => "opm",
            Tool::Istioctl => "istioctl",
        }
    }

    /// Reports whether the tool comes in an archive.
    pub fn in_archive(self) -> (r: bool)
        ensures
            r == self.archived(),
    {
        self == Tool::Kustomize || self == Tool::Istioctl
    }

    /// Where to get a version of the tool.
    pub fn url(self, version: &str, m: &Machine) -> (r: String)
        ensures
            r@ == self.url_for(version@, *m),
    {
        let (os, arch) = (m.os.as_str(), m.arch.as_str());
        match self {
            Tool::Kind => {
                let at = text::cat3(os, "-", arch);
                text::cat4("https://kind.sigs.k8s.io/dl/v", version, "/kind-", at.as_str())
            },
            Tool::Kubectl => {
                let at = text::cat5(os, "/", arch, "/kubectl", m.exe_suffix.as_str());
                text::cat4("https://dl.k8s.io/release/v", version, "/bin/", at.as_str())
            },
            Tool::Kustomize => {
                let at = text::cat5(version, "_", os, "_", arch);
                text::cat5(
                    "https://github.com/kubernetes-sigs/kustomize/releases/download/kustomize%2Fv",
                    version,
                    "/kustomize_v",
                    at.as_str(),
                    ".tar.gz",
                )
            },
            Tool::OperatorSdk => {
                let at = text::cat3(os, "_", arch);
                text::cat4(
                    "https://github.com/operator-framework/operator-sdk/releases/download/v",
                    version,
                    "/operator-sdk_",
                    at.as_str(),
                )
            },
            Tool::Opm => {
                let at = text::cat3(os, "-", arch);
                text::cat5(
                    "https://github.com/operator-framework/operator-registry/releases/download/v",
                    version,
                    "/",
                    at.as_str(),
                    "-opm",
                )
            },
            Tool::Istioctl => {
                let at = text::cat5(version, "-", os, "-", arch);
                text::cat5(
                    "https://github.com/istio/istio/releases/download/",
                    version,
                    "/istio-",
                    at.as_str(),
                    ".tar.gz",
                )
            },
        }
    }
}

/// The program that builds containers, by which of them are there.
pub fn builder(podman: bool, docker: bool) -> (r: Result<&'static str, &'static str>)
    ensures
        match r {
            Ok(exe) => podman && exe@ == "podman"@ || !podman && docker && exe@ == "docker"@,
            Err(msg) => !podman && !docker && msg@
                == "failed to find \"podman\" or \"docker\""@,
        },
{
    if podman {
        Ok("podman")
    } else if docker {
        Ok("docker")
    } else {
        Err("failed to find \"podman\" or \"docker\"")
    }
}

} // verus!
