use clair_operator::xtask::check::{arch, builder, map_platform, Machine, Tool};
use clair_operator::xtask::ci::{
    bundle, bundle_command, ci, controller_named, run_test_coverage, Controller,
};
use clair_operator::xtask::generate::{
    gateway_api, gateway_type, olm, GatewayApiOpts, OlmOpts, GATEWAY_TYPES,
};
use clair_operator::xtask::kind::{KinD, KinDBuilder, Site};
use clair_operator::xtask::{
    gateway_api_manifest_url, ingress_nginx_manifest_url, rel, resolve, setting, tag, CargoMetadata,
    CiVersions, ManifestsOpts, Metadata, BUNDLE_IMAGE, CATALOG_IMAGE,
};

fn words(s: &str) -> Vec<String> {
    s.split(' ').map(String::from).collect()
}

#[test]
fn versions_come_from_the_workspace() {
    let v = |s: &str| s.to_string();
    let m = CargoMetadata {
        metadata: Metadata {
            ci: CiVersions {
                kube: v("1"),
                kind: v("2"),
                kustomize: v("3"),
                operator_sdk: v("4"),
                operator_api: v("5"),
                opm: v("6"),
                istio: v("7"),
                gateway_api: v("8"),
                kopium: v("9"),
            },
        },
    };
    let got = [
        m.kube(),
        m.kind(),
        m.kustomize(),
        m.operator_sdk(),
        m.operator_api(),
        m.opm(),
        m.istio(),
        m.gateway_api(),
        m.kopium(),
    ];
    assert_eq!(got.concat(), "123456789");
    assert_eq!(setting(Some(v("env")), m.kube()), "env");
    assert_eq!(setting(None, m.kube()), "1");
    assert_eq!(
        gateway_api_manifest_url(None, "1.2.1"),
        "https://github.com/kubernetes-sigs/gateway-api/releases/download/v1.2.1/standard-install.yaml"
    );
    assert_eq!(gateway_api_manifest_url(Some(v("x")), "1"), "x");
    assert!(ingress_nginx_manifest_url(None).ends_with("/provider/kind/deploy.yaml"));
    assert_eq!(BUNDLE_IMAGE, "quay.io/projectclair/clair-bundle");
    assert_eq!(CATALOG_IMAGE, "quay.io/projectclair/clair-catalog");
}

#[test]
fn paths_are_relative_to_the_workspace() {
    assert_eq!(rel("/ws", "/ws/etc/samples"), "etc/samples");
    assert_eq!(rel("/ws", "/ws"), "");
    assert_eq!(rel("/ws", "/ws/"), "");
    assert_eq!(rel("/ws", "/ws/./x"), "x");
    assert_eq!(rel("/ws", "/ws//x/./y/./"), "x/./y");
    assert_eq!(rel("/ws/", "/ws/.x"), ".x");
    assert_eq!(rel("/", "/x/.."), "x/..");
    assert_eq!(resolve("/ws", "target/x"), "/ws/target/x");
    assert_eq!(resolve("/ws/", "target"), "/ws/target");
    assert_eq!(resolve("/ws", "/abs"), "/abs");
    let opts = ManifestsOpts::from("/ws", "out");
    assert_eq!(opts.crd_dir(), "/ws/out/crd");
    assert_eq!(opts.csv_dir(), "/ws/out/csv");
    assert_eq!(tag("img", "v1"), "img:v1");
}

#[test]
fn tools_are_downloaded() {
    assert_eq!(arch("x86_64"), Some("amd64"));
    assert_eq!(arch("aarch64"), Some("arm64"));
    assert_eq!(arch("powerpc64"), Some("ppc64le"));
    assert_eq!(arch("riscv64"), None);
    assert_eq!(map_platform("x86"), Some("386"));
    assert_eq!(map_platform("powerpc64"), Some("ppc64"));
    assert_eq!(map_platform("mips"), None);
    let m = Machine {
        os: "linux".to_string(),
        arch: "amd64".to_string(),
        exe_suffix: ".x".to_string(),
    };
    assert_eq!(
        Tool::Kind.url("0.1", &m),
        "https://kind.sigs.k8s.io/dl/v0.1/kind-linux-amd64"
    );
    assert_eq!(
        Tool::Kubectl.url("1.2.3", &m),
        "https://dl.k8s.io/release/v1.2.3/bin/linux/amd64/kubectl.x"
    );
    assert_eq!(
        Tool::Kustomize.url("5", &m),
        "https://github.com/kubernetes-sigs/kustomize/releases/download/kustomize%2Fv5/kustomize_v5_linux_amd64.tar.gz"
    );
    assert_eq!(
        Tool::OperatorSdk.url("1", &m),
        "https://github.com/operator-framework/operator-sdk/releases/download/v1/operator-sdk_linux_amd64"
    );
    assert_eq!(
        Tool::Opm.url("1", &m),
        "https://github.com/operator-framework/operator-registry/releases/download/v1/linux-amd64-opm"
    );
    assert_eq!(
        Tool::Istioctl.url("1", &m),
        "https://github.com/istio/istio/releases/download/1/istio-1-linux-amd64.tar.gz"
    );
    assert!(Tool::Kustomize.in_archive());
    assert!(!Tool::Kind.in_archive());
    assert_eq!(Tool::OperatorSdk.name(), "operator-sdk");
    assert_eq!(builder(true, true), Ok("podman"));
    assert_eq!(builder(false, true), Ok("docker"));
    assert_eq!(
        builder(false, false),
        Err("failed to find \"podman\" or \"docker\"")
    );
}

fn site(github_actions: bool) -> Site {
    Site {
        kube_version: "1.31.4".to_string(),
        github_actions,
        workspace: "/ws".to_string(),
        gateway_manifest: "gw".to_string(),
        ingress_manifest: "in".to_string(),
    }
}

#[test]
fn clusters_are_set_up() {
    let wait = "kubectl wait pods --for=condition=Ready --timeout=300s --all --all-namespaces";
    let got = KinDBuilder::default().build(&site(false));
    assert_eq!(got.tools, vec![Tool::Kubectl, Tool::Kind]);
    assert_eq!(got.notice, "# using k8s version: 1.31");
    assert_eq!(
        got.commands,
        vec![
            words("kind --quiet --config /ws/etc/tests/kind-1.31.yaml create cluster"),
            words(wait),
        ]
    );
    assert_eq!(
        got.cluster.delete(),
        words("kind --quiet delete cluster --name ci")
    );
    assert_eq!(got.cluster, KinD::new("ci"));
    let got = KinDBuilder::default()
        .with_gateway()
        .with_istio()
        .with_ingress_nginx()
        .build(&site(true));
    assert_eq!(got.tools, vec![Tool::Kubectl, Tool::Kind, Tool::Istioctl]);
    assert_eq!(got.notice, "::notice::using k8s version: 1.31");
    assert_eq!(
        got.commands,
        vec![
            words("kind --config /ws/etc/tests/kind-1.31.yaml create cluster"),
            words(wait),
            words("kubectl apply -f gw"),
            words("kubectl apply -f in"),
            words("istioctl install --set profile=minimal -y"),
            words(wait),
        ]
    );
}

#[test]
fn bindings_are_generated() {
    let b = olm("0.27");
    assert_eq!(
        b.url,
        "https://github.com/operator-framework/api/raw/refs/tags/v0.27/crds/operators.coreos.com_clusterserviceversions.yaml"
    );
    assert_eq!(b.file, "xtask/src/olm/cluster_service_versions.rs");
    let names: Vec<&str> = (0..GATEWAY_TYPES).map(gateway_type).collect();
    assert_eq!(
        names,
        vec![
            "backendtlspolicies",
            "gatewayclasses",
            "gateways",
            "grpcroutes",
            "httproutes",
            "referencegrants",
        ]
    );
    let b = gateway_api("1.2.1", "gateways");
    assert_eq!(
        b.url,
        "https://github.com/kubernetes-sigs/gateway-api/raw/refs/tags/v1.2.1/config/crd/standard/gateway.networking.k8s.io_gateways.yaml"
    );
    assert_eq!(b.file, "gateway_networking_k8s_io/src/v1/gateways.rs");
    assert!(OlmOpts { dry_run: true }.dry_run);
    assert!(!GatewayApiOpts { dry_run: false }.dry_run);
}

#[test]
fn tests_are_run() {
    let pass = vec!["x".to_string()];
    assert_eq!(
        ci(true, Some("/a.zst"), "/ws", &pass),
        words("nextest run --profile ci --archive-file /a.zst --workspace-remap /ws x")
    );
    assert_eq!(
        ci(true, None, "/ws", &pass),
        words("nextest run --profile ci --features test_ci x")
    );
    assert_eq!(
        ci(false, Some("/a.zst"), "/ws", &vec![]),
        words("test --features test_ci --")
    );
    assert_eq!(
        run_test_coverage("cov", "bin", "/ws").join(" "),
        "grcov cov --binary-path bin --prefix-dir /ws --output-path cov --output-types html,lcov,markdown --branch --ignore-not-existing --source-dir . --ignore ../* --ignore /* --ignore xtask/* --ignore */src/tests/*"
    );
}

#[test]
fn bundles_are_built() {
    assert_eq!(
        bundle_command("v1").join(" "),
        "operator-sdk generate bundle --quiet --default-channel=stable --channels=stable,testing,next --package=clair --manifests --metadata --version=v1"
    );
    assert_eq!(bundle(false, false, "podman", "t"), Vec::<Vec<String>>::new());
    assert_eq!(
        bundle(true, true, "podman", "t"),
        vec![
            words("podman build --quiet --tag=t --file=bundle.Dockerfile ."),
            words("podman push t"),
        ]
    );
}

#[test]
fn controllers_have_names() {
    assert_eq!(controller_named("Clairs"), Some(Controller::Clair));
    assert_eq!(controller_named("INDEXER"), Some(Controller::Indexer));
    assert_eq!(controller_named("matchers"), Some(Controller::Matcher));
    assert_eq!(controller_named("notifier"), Some(Controller::Notifier));
    assert_eq!(controller_named("updater"), Some(Controller::Updater));
    assert_eq!(controller_named("other"), None);
}
