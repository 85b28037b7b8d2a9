# cnoidc

A Kubernetes operator that manages OIDC applications and roles in a Zitadel
project through custom resources, with its decisions verified by
[Verus](https://github.com/verus-lang/verus).

`src/` is the verified library: everything the operator decides and computes.
It does nothing to the world itself. A sync, a reconcile or the opening of a
session is a value that says what is to be done next and takes what came of
it.

| Module | What it holds |
| --- | --- |
| `text`, `time`, `json`, `address`, `failure` | strings, points and spans of time, JSON values, URLs, and what went wrong |
| `crd`, `oidc`, `settings` | the custom resources, Zitadel's names for their choices, and how desired and reported configuration compare |
| `zitadel`, `application`, `role` | requests to Zitadel and the syncs made of them |
| `config`, `zapp` | the configuration, and sessions: opening, renewing, handing out and dropping them |
| `kubernetes`, `controller`, `application_reconcile`, `role_reconcile` | what is written to the cluster, and the reconciles |

Each module ends with the laws that hold of it, as public proof functions.

`app/` is the program around the library: it reads files, talks to the cluster,
to Zitadel and to zapp, and runs the controllers. `tests/` runs the library.
