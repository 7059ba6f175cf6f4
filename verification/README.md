# clair-operator

An operator that runs [Clair](https://github.com/quay/clair) on Kubernetes.

The library under `src/` decides: what the objects of an installation look like, what has to be done
to get there, what is said about it, and which changes are allowed. All of it is verified with
[Verus](https://github.com/verus-lang/verus). The program under `app/` talks to the cluster and does
what was decided.

## Layout

| Module | What it holds |
| --- | --- |
| `v1alpha1` | the kinds of the Clair API: installations, indexers, matchers, notifiers, updaters |
| `k8s` | the kinds of Kubernetes that an installation consists of |
| `templates`, `render` | the objects that belong to an installation |
| `config`, `compose`, `json` | configurations, and how they are put together from their parts |
| `condition`, `event`, `status`, `labels` | what is reported, and how it is named |
| `clairs`, `indexers`, `matchers`, `subresource`, `owned` | the steps of a reconciliation |
| `assets`, `mounts` | files that come with the operator, and where configurations are mounted |
| `webhook` | which changes are allowed, and what defaults are set |
| `testing` | a model of the API server's side of a reconciliation |
| `xtask` | plans for tests, bundles and manifests |
| `text`, `sort`, `lists`, `maps`, `keyed`, `merge`, `model`, `resource` | what the others build on |

## Reading the contracts

Every type has a view, and a function's contract says what the view of its result is. Types that are
made of others have a ghost twin, whose name ends in `View`.

JSON documents are opaque. What parsing, merging and patching them gives has a name in `json`, and
contracts speak of these names. What is believed and not proved stands in `json`, `compose`, `assets`
and `clock`, in functions that call another crate and say what they believe of it.

The time is handed to a function as an argument wherever that is possible.
