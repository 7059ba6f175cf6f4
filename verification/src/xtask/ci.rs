//! Test runs, bundles and the controllers to start.

use vstd::prelude::*;

use crate::model::{extend, none, push};
use crate::text;
use crate::xtask::words;

verus! {

/// The arguments of a test run, without those that are passed on.
pub open spec fn own_test_args(
    use_nextest: bool,
    archive: Option<Seq<char>>,
    workspace: Seq<char>,
) -> Seq<Seq<char>> {
    if use_nextest {
        let start = seq!["nextest"@, "run"@, "--profile"@, "ci"@];
        match archive {
            Some(ar) => start + seq!["--archive-file"@, ar, "--workspace-remap"@, workspace],
            None => start + seq!["--features"@, "test_ci"@],
        }
    } else {
        seq!["test"@, "--features"@, "test_ci"@, "--"@]
    }
}

/// The arguments of a test run. An archive of compiled tests is used if there is one and the runner
/// can.
pub fn ci(use_nextest: bool, archive: Option<&str>, workspace: &str, pass: &Vec<String>) -> (r: Vec<
    String,
>)
    ensures
        r.deep_view() == own_test_args(
            use_nextest,
            match archive {
                Some(ar) => Some(ar@),
                None => None,
            },
            workspace@,
        ) + pass.deep_view(),
{
    let mut args = if use_nextest {
        match archive {
            Some(ar) => words(
                &[
                    "nextest",
                    "run",
                    "--profile",
                    "ci",
                    "--archive-file",
                    ar,
                    "--workspace-remap",
                    workspace,
                ],
            ),
            None => words(&["nextest", "run", "--profile", "ci", "--features", "test_ci"]),
        }
    } else {
        words(&["test", "--features", "test_ci", "--"])
    };
    assert(args.deep_view() =~= own_test_args(
        use_nextest,
        match archive {
            Some(ar) => Some(ar@),
            None => None,
        },
        workspace@,
    ));
    extend(&mut args, pass);
    args
}

/// The command that generates a bundle of a version.
pub fn bundle_command(version: &str) -> (r: Vec<String>)
    ensures
        r.deep_view() == seq![
            "operator-sdk"@,
            "generate"@,
            "bundle"@,
            "--quiet"@,
            "--default-channel=stable"@,
            "--channels=stable,testing,next"@,
            "--package=clair"@,
            "--manifests"@,
            "--metadata"@,
            "--version="@ + version@,
        ],
{
    let v = text::cat("--version=", version);
    let r = words(
        &[
            "operator-sdk",
            "generate",
            "bundle",
            "--quiet",
            "--default-channel=stable",
            "--channels=stable,testing,next",
            "--package=clair",
            "--manifests",
            "--metadata",
            v.as_str(),
        ],
    );
    assert(r.deep_view() =~= seq![
        "operator-sdk"@,
        "generate"@,
        "bundle"@,
        "--quiet"@,
        "--default-channel=stable"@,
        "--channels=stable,testing,next"@,
        "--package=clair"@,
        "--manifests"@,
        "--metadata"@,
        "--version="@ + version@,
    ]);
    r
}

/// The command that builds the container of a bundle.
pub open spec fn build_command(builder: Seq<char>, tag: Seq<char>) -> Seq<Seq<char>> {
    seq![builder, "build"@, "--quiet"@, "--tag="@ + tag, "--file=bundle.Dockerfile"@, "."@]
}

/// The command that pushes the container of a bundle.
pub open spec fn push_command(builder: Seq<char>, tag: Seq<char>) -> Seq<Seq<char>> {
    seq![builder, "push"@, tag]
}

/// The commands for the container of a bundle: it is built and pushed as asked for.
pub fn bundle(build: bool, push_it: bool, builder: &str, tag: &str) -> (r: Vec<Vec<String>>)
    ensures
        r.deep_view() == (if build {
            seq![build_command(builder@, tag@)]
        } else {
            Seq::empty()
        }) + (if push_it {
            seq![push_command(builder@, tag@)]
        } else {
            Seq::empty()
        }),
{
    let mut r: Vec<Vec<String>> = none();
    if build {
        let t = text::cat("--tag=", tag);
        let c = words(&[builder, "build", "--quiet", t.as_str(), "--file=bundle.Dockerfile", "."]);
        assert(c.deep_view() =~= build_command(builder@, tag@));
        push(&mut r, c);
    }
    if push_it {
        let c = words(&[builder, "push", tag]);
        assert(c.deep_view() =~= push_command(builder@, tag@));
        push(&mut r, c);
    }
    assert(r.deep_view() =~= (if build {
        seq![build_command(builder@, tag@)]
    } else {
        Seq::empty()
    }) + (if push_it {
        seq![push_command(builder@, tag@)]
    } else {
        Seq::empty()
    }));
    r
}

/// The command that reports on the coverage of a test run.
pub open spec fn coverage_command(
    cov_dir: Seq<char>,
    bin_dir: Seq<char>,
    workspace: Seq<char>,
) -> Seq<Seq<char>> {
    seq![
        "grcov"@,
        cov_dir,
        "--binary-path"@,
        bin_dir,
        "--prefix-dir"@,
        workspace,
        "--output-path"@,
        cov_dir,
        "--output-types"@,
        "html,lcov,markdown"@,
        "--branch"@,
        "--ignore-not-existing"@,
        "--source-dir"@,
        "."@,
        "--ignore"@,
        "../*"@,
        "--ignore"@,
        "/*"@,
        "--ignore"@,
        "xtask/*"@,
        "--ignore"@,
        "*/src/tests/*"@,
    ]
}

/// The command that reports on the coverage of a test run.
pub fn run_test_coverage(cov_dir: &str, bin_dir: &str, workspace: &str) -> (r: Vec<String>)
    ensures
        r.deep_view() == coverage_command(cov_dir@, bin_dir@, workspace@),
{
    let r = words(
        &[
            "grcov",
            cov_dir,
            "--binary-path",
            bin_dir,
            "--prefix-dir",
            workspace,
            "--output-path",
            cov_dir,
            "--output-types",
            "html,lcov,markdown",
            "--branch",
            "--ignore-not-existing",
            "--source-dir",
            ".",
            "--ignore",
            "../*",
            "--ignore",
            "/*",
            "--ignore",
            "xtask/*",
            "--ignore",
            "*/src/tests/*",
        ],
    );
    assert(r.deep_view() =~= coverage_command(cov_dir@, bin_dir@, workspace@));
    r
}

/// A controller that can be started.
#[derive(Clone, Copy, Debug, PartialEq, Eq, Structural)]
pub enum Controller {
    /// For whole installations.
    Clair,
    /// For indexers.
    Indexer,
    /// For matchers.
    Matcher,
    /// For notifiers.
    Notifier,
    /// For updaters.
    Updater,
}

impl Controller {
    /// The names that a controller goes by.
    pub open spec fn goes_by(self, name: Seq<char>) -> bool {
        match self {
            Controller::Clair => name == "clair"@ || name == "clairs"@,
            Controller::Indexer => name == "indexer"@ || name == "indexers"@,
            Controller::Matcher => name == "matcher"@ || name == "matchers"@,
            Controller::Notifier => name == "notifier"@ || name == "notifiers"@,
            Controller::Updater => name == "updater"@ || name == "updaters"@,
        }
    }
}

/// The controller of a name. Capitals do not matter.
pub fn controller_named(name: &str) -> (r: Option<Controller>)
    ensures
        match r {
            Some(c) => c.goes_by(text::lower(name@)),
            None => forall|c: Controller| !#[trigger] c.goes_by(text::lower(name@)),
        },
{
    let lower = text::to_lower(name);
    let n = lower.as_str();
    if text::same(n, "clair") || text::same(n, "clairs") {
        Some(Controller::Clair)
    } else if text::same(n, "indexer") || text::same(n, "indexers") {
        Some(Controller::Indexer)
    } else if text::same(n, "matcher") || text::same(n, "matchers") {
        Some(Controller::Matcher)
    } else if text::same(n, "notifier") || text::same(n, "notifiers") {
        Some(Controller::Notifier)
    } else if text::same(n, "updater") || text::same(n, "updaters") {
        Some(Controller::Updater)
    } else {
        None
    }
}

} // verus!
