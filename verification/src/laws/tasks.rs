//! Tasks: commands do what they were asked for, in an order that works.

use vstd::prelude::*;

use crate::text;
use crate::xtask::check::{arch_of, platform_of, Machine, Tool};
use crate::xtask::ci::{build_command, coverage_command, own_test_args, push_command, Controller};
use crate::xtask::generate::{gateway_type_of, major_version};
use crate::xtask::kind::{
    create_command, delete_command, minor_version, setup_commands, tools_for, wait_command,
    KinDBuilderView, Site,
};
use crate::xtask::{is_absolute, resolved};

verus! {

/// A tool is got from a secure address that names the version and the machine; what comes in an
/// archive is got as one.
pub proof fn tools_are_got_for_the_machine(t: Tool, version: Seq<char>, m: Machine)
    ensures
        ({
            let url = t.url_for(version, m);
            &&& text::has_prefix(url, "https://"@)
            &&& text::occurs(url, version)
            &&& text::occurs(url, m.os@)
            &&& text::occurs(url, m.arch@)
            &&& t.archived() ==> text::has_suffix(url, ".tar.gz"@)
        }),
        t.archived() <==> t == Tool::Kustomize || t == Tool::Istioctl,
{
    let url = t.url_for(version, m);
    let (os, arch) = (m.os@, m.arch@);
    reveal_strlit("https://");
    let (head, rest) = match t {
        Tool::Kind => (
            "https://kind.sigs.k8s.io/dl/v"@,
            version + "/kind-"@ + (os + "-"@ + arch),
        ),
        Tool::Kubectl => (
            "https://dl.k8s.io/release/v"@,
            version + "/bin/"@ + (os + "/"@ + arch + "/kubectl"@ + m.exe_suffix@),
        ),
        Tool::Kustomize => (
            "https://github.com/kubernetes-sigs/kustomize/releases/download/kustomize%2Fv"@,
            version + "/kustomize_v"@ + (version + "_"@ + os + "_"@ + arch) + ".tar.gz"@,
        ),
        Tool::OperatorSdk => (
            "https://github.com/operator-framework/operator-sdk/releases/download/v"@,
            version + "/operator-sdk_"@ + (os + "_"@ + arch),
        ),
        Tool::Opm => (
            "https://github.com/operator-framework/operator-registry/releases/download/v"@,
            version + "/"@ + (os + "-"@ + arch) + "-opm"@,
        ),
        Tool::Istioctl => (
            "https://github.com/istio/istio/releases/download/"@,
            version + "/istio-"@ + (version + "-"@ + os + "-"@ + arch) + ".tar.gz"@,
        ),
    };
    assert(url =~= head + rest);
    reveal_strlit("https://kind.sigs.k8s.io/dl/v");
    reveal_strlit("https://dl.k8s.io/release/v");
    reveal_strlit("https://github.com/kubernetes-sigs/kustomize/releases/download/kustomize%2Fv");
    reveal_strlit("https://github.com/operator-framework/operator-sdk/releases/download/v");
    reveal_strlit("https://github.com/operator-framework/operator-registry/releases/download/v");
    reveal_strlit("https://github.com/istio/istio/releases/download/");
    assert(head.take(8) =~= "https://"@);
    assert(url.take(8) =~= "https://"@);
    assert(text::stands_at(url, version, head.len() as int)) by {
        assert(url.subrange(head.len() as int, (head.len() + version.len()) as int) =~= version);
    }
    let (before_os, before_arch) = match t {
        Tool::Kind => {
            let p = head + version + "/kind-"@;
            (p, p + os + "-"@)
        },
        Tool::Kubectl => {
            let p = head + version + "/bin/"@;
            (p, p + os + "/"@)
        },
        Tool::Kustomize => {
            let p = head + version + "/kustomize_v"@ + version + "_"@;
            (p, p + os + "_"@)
        },
        Tool::OperatorSdk => {
            let p = head + version + "/operator-sdk_"@;
            (p, p + os + "_"@)
        },
        Tool::Opm => {
            let p = head + version + "/"@;
            (p, p + os + "-"@)
        },
        Tool::Istioctl => {
            let p = head + version + "/istio-"@ + version + "-"@;
            (p, p + os + "-"@)
        },
    };
    assert(url.subrange(before_os.len() as int, (before_os.len() + os.len()) as int) =~= os);
    assert(text::stands_at(url, os, before_os.len() as int));
    assert(url.subrange(before_arch.len() as int, (before_arch.len() + arch.len()) as int)
        =~= arch);
    assert(text::stands_at(url, arch, before_arch.len() as int));
    if t.archived() {
        assert(url.skip(url.len() - ".tar.gz"@.len()) =~= ".tar.gz"@);
    }
}

/// Programs go by their names, and no two tools by the same.
pub proof fn tools_go_by_names(a: Tool, b: Tool)
    ensures
        a.program() == b.program() <==> a == b,
{
    reveal_strlit("kind");
    reveal_strlit("kubectl");
    reveal_strlit("kustomize");
    reveal_strlit("operator-sdk");
    reveal_strlit("opm");
    reveal_strlit("istioctl");
    assert("kind"@.len() == 4 && "kubectl"@.len() == 7 && "kustomize"@.len() == 9);
    assert("operator-sdk"@.len() == 12 && "opm"@.len() == 3 && "istioctl"@.len() == 8);
}

/// Architectures that are known under both naming schemes go by the same name, except where the
/// schemes differ in the order of bytes.
pub proof fn architectures_are_known(name: Seq<char>)
    ensures
        name == "x86_64"@ ==> arch_of(name) == Some("amd64"@) && platform_of(name) == Some(
            "amd64"@,
        ),
        name == "aarch64"@ ==> arch_of(name) == Some("arm64"@) && platform_of(name) == Some(
            "arm64"@,
        ),
        name == "powerpc64"@ ==> arch_of(name) == Some("ppc64le"@) && platform_of(name) == Some(
            "ppc64"@,
        ),
        name == "x86"@ ==> arch_of(name) is None && platform_of(name) == Some("386"@),
{
    reveal_strlit("x86_64");
    reveal_strlit("aarch64");
    reveal_strlit("powerpc64");
    reveal_strlit("x86");
    reveal_strlit("s309x");
    assert("x86_64"@.len() == 6 && "aarch64"@.len() == 7 && "powerpc64"@.len() == 9);
    assert("x86"@.len() == 3 && "s309x"@.len() == 5);
}

/// A cluster is created first, and everything waits until it runs; then comes what was asked for,
/// and nothing else. What was installed is waited for at the end.
pub proof fn clusters_come_up_in_order(b: KinDBuilderView, site: Site)
    ensures
        ({
            let all = setup_commands(b, site);
            let apply = |manifest: Seq<char>| seq!["kubectl"@, "apply"@, "-f"@, manifest];
            let services = b.ingress_nginx || b.istio;
            &&& all.len() >= 2
            &&& all[0] == create_command(site)
            &&& all[0][0] == "kind"@
            &&& all[0].last() == "cluster"@
            &&& all[1] == wait_command()
            &&& all[1][0] == "kubectl"@ && all[1][1] == "wait"@
            &&& b.gateway ==> all[2] == apply(site.gateway_manifest@)
            &&& b.ingress_nginx ==> all.contains(apply(site.ingress_manifest@))
            &&& b.istio ==> all.contains(
                seq!["istioctl"@, "install"@, "--set"@, "profile=minimal"@, "-y"@],
            )
            &&& services ==> all.last() == wait_command()
            &&& all.len() == 2 + (if b.gateway {
                1int
            } else {
                0int
            }) + (if b.ingress_nginx {
                1int
            } else {
                0int
            }) + (if b.istio {
                1int
            } else {
                0int
            }) + (if services {
                1int
            } else {
                0int
            })
        }),
        tools_for(b).contains(Tool::Kind) && tools_for(b).contains(Tool::Kubectl),
        tools_for(b).contains(Tool::Istioctl) <==> b.istio,
{
    let all = setup_commands(b, site);
    let g = if b.gateway {
        1int
    } else {
        0int
    };
    let n = if b.ingress_nginx {
        1int
    } else {
        0int
    };
    if b.ingress_nginx {
        assert(all[2 + g] == seq!["kubectl"@, "apply"@, "-f"@, site.ingress_manifest@]);
    }
    if b.istio {
        assert(all[2 + g + n] == seq![
            "istioctl"@,
            "install"@,
            "--set"@,
            "profile=minimal"@,
            "-y"@,
        ]);
    }
    assert(tools_for(b)[0] == Tool::Kubectl && tools_for(b)[1] == Tool::Kind);
    if b.istio {
        assert(tools_for(b)[2] == Tool::Istioctl);
    }
}

/// A cluster is made from the file for its minor version, which a patch level does not change; and
/// it is deleted by its name.
pub proof fn clusters_go_by_versions(minor: Seq<char>, patch: Seq<char>, name: Seq<char>)
    requires
        !patch.contains('.'),
    ensures
        minor_version(minor + seq!['.'] + patch) == minor,
        delete_command(name).last() == name && delete_command(name)[0] == "kind"@
            && delete_command(name).contains("delete"@),
{
    let v = minor + seq!['.'] + patch;
    let n = minor.len() as int;
    assert(v[n] == '.');
    assert forall|j: int| n < j < v.len() implies v[j] != '.' by {
        assert(patch.contains(patch[j - n - 1]));
    }
    assert(text::last_at(v, '.', n));
    let m = text::last_index(v, '.');
    assert(text::last_at(v, '.', m));
    assert(m == n);
    assert(v.take(n) =~= minor);
    assert(delete_command(name)[2] == "delete"@);
}

/// The major version is what precedes the first dot.
pub proof fn major_versions_precede_the_dot(major: Seq<char>, rest: Seq<char>)
    requires
        !major.contains('.'),
    ensures
        major_version(major + seq!['.'] + rest) == major,
{
    let v = major + seq!['.'] + rest;
    first_dot(major, rest, 0);
    assert(v.take(major.len() as int) =~= major);
}

/// The first dot is behind what holds none.
proof fn first_dot(major: Seq<char>, rest: Seq<char>, i: int)
    requires
        !major.contains('.'),
        0 <= i <= major.len(),
    ensures
        text::find_from(major + seq!['.'] + rest, '.', i) == major.len(),
    decreases major.len() - i,
{
    let v = major + seq!['.'] + rest;
    if i < major.len() {
        assert(v[i] == major[i]);
        assert(major.contains(major[i]));
        first_dot(major, rest, i + 1);
    } else {
        assert(v[i] == '.');
    }
}

/// A test run uses the runner that is there. An archive of compiled tests is used exactly if there
/// is one and the runner can; otherwise the tests are built for the run.
pub proof fn test_runs_use_what_is_there(
    use_nextest: bool,
    archive: Option<Seq<char>>,
    workspace: Seq<char>,
)
    ensures
        ({
            let args = own_test_args(use_nextest, archive, workspace);
            &&& use_nextest ==> args[0] == "nextest"@ && args[1] == "run"@
            &&& !use_nextest ==> args[0] == "test"@ && args.last() == "--"@
            &&& use_nextest && archive is Some ==> {
                &&& args[4] == "--archive-file"@
                &&& Some(args[5]) == archive
                &&& args[6] == "--workspace-remap"@
                &&& args[7] == workspace
            }
            &&& !use_nextest || archive is None ==> args.contains("test_ci"@)
        }),
{
    let args = own_test_args(use_nextest, archive, workspace);
    if use_nextest && archive is None {
        assert(args[5] == "test_ci"@);
    }
    if !use_nextest {
        assert(args[2] == "test_ci"@);
    }
}

/// A container is built and pushed under the same tag, by the same program; a report covers the
/// directory that it is written to.
pub proof fn commands_name_what_they_are_about(
    builder: Seq<char>,
    tag: Seq<char>,
    cov_dir: Seq<char>,
    bin_dir: Seq<char>,
    workspace: Seq<char>,
)
    ensures
        build_command(builder, tag)[0] == builder && push_command(builder, tag)[0] == builder,
        build_command(builder, tag)[1] == "build"@ && push_command(builder, tag)[1] == "push"@,
        build_command(builder, tag).contains("--tag="@ + tag) && push_command(builder, tag).last()
            == tag,
        ({
            let c = coverage_command(cov_dir, bin_dir, workspace);
            &&& c[0] == "grcov"@
            &&& c[1] == cov_dir
            &&& c[2] == "--binary-path"@ && c[3] == bin_dir
            &&& c[4] == "--prefix-dir"@ && c[5] == workspace
            &&& c[6] == "--output-path"@ && c[7] == cov_dir
        }),
{
    assert(build_command(builder, tag)[3] == "--tag="@ + tag);
}

/// A controller goes by its name and by the plural of it, and no two go by the same.
pub proof fn controllers_go_by_their_names(a: Controller, b: Controller, name: Seq<char>)
    ensures
        a.goes_by(name) && b.goes_by(name) ==> a == b,
        Controller::Clair.goes_by("clair"@) && Controller::Clair.goes_by("clairs"@),
        Controller::Indexer.goes_by("indexer"@) && Controller::Indexer.goes_by("indexers"@),
        Controller::Matcher.goes_by("matcher"@) && Controller::Matcher.goes_by("matchers"@),
        Controller::Notifier.goes_by("notifier"@) && Controller::Notifier.goes_by("notifiers"@),
        Controller::Updater.goes_by("updater"@) && Controller::Updater.goes_by("updaters"@),
{
    reveal_strlit("clair");
    reveal_strlit("clairs");
    reveal_strlit("indexer");
    reveal_strlit("indexers");
    reveal_strlit("matcher");
    reveal_strlit("matchers");
    reveal_strlit("notifier");
    reveal_strlit("notifiers");
    reveal_strlit("updater");
    reveal_strlit("updaters");
    assert("clair"@[0] == 'c' && "clairs"@[0] == 'c');
    assert("indexer"@[0] == 'i' && "indexers"@[0] == 'i');
    assert("matcher"@[0] == 'm' && "matchers"@[0] == 'm');
    assert("notifier"@[0] == 'n' && "notifiers"@[0] == 'n');
    assert("updater"@[0] == 'u' && "updaters"@[0] == 'u');
}

/// A path that is complete stays as it is, and any other is taken from the directory, with one
/// slash between them.
pub proof fn paths_are_taken_from_the_directory(dir: Seq<char>, path: Seq<char>)
    ensures
        path.len() > 0 && path[0] == '/' ==> resolved(dir, path) == path,
        is_absolute(path) <==> path.len() > 0 && path[0] == '/',
        !(path.len() > 0 && path[0] == '/') && dir.len() > 0 && dir.last() != '/' ==> resolved(
            dir,
            path,
        ) == dir + seq!['/'] + path,
        !(path.len() > 0 && path[0] == '/') && dir.len() > 0 && dir.last() == '/' ==> resolved(
            dir,
            path,
        ) == dir + path,
{
    reveal_strlit("/");
    assert("/"@ =~= seq!['/']);
}

/// No type of the gateway API is there twice.
pub proof fn gateway_types_differ(i: int, j: int)
    requires
        0 <= i < 6,
        0 <= j < 6,
    ensures
        gateway_type_of(i) == gateway_type_of(j) <==> i == j,
{
    reveal_strlit("backendtlspolicies");
    reveal_strlit("gatewayclasses");
    reveal_strlit("gateways");
    reveal_strlit("grpcroutes");
    reveal_strlit("httproutes");
    reveal_strlit("referencegrants");
    assert("backendtlspolicies"@.len() == 18 && "gatewayclasses"@.len() == 14);
    assert("gateways"@.len() == 8 && "grpcroutes"@.len() == 10);
    assert("httproutes"@.len() == 10 && "referencegrants"@.len() == 15);
    assert("grpcroutes"@[0] == 'g' && "httproutes"@[0] == 'h');
}

} // verus!
