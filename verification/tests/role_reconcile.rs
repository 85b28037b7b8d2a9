use cnoidc::controller::{Action, Event, Work};
use cnoidc::crd::{ObjectMeta, ProjectRole, ProjectRoleSpec, ProjectRoleStatus};
use cnoidc::failure::{Failure, HttpError};
use cnoidc::role_reconcile::{
    apply_role, cleanup_role, find_key_defect, immutable_text, ApplyRole, CleanupRole,
};
use cnoidc::time::{Duration, Timestamp};
use cnoidc::zapp::{Lease, Session};
use cnoidc::zitadel::{Method, ProjectClient, Reply, Request, Role};

const NOW: Timestamp = Timestamp { secs: 9, nanos: 0 };
const INTERVAL: Duration = Duration {
    secs: 600,
    nanos: 0,
};

fn role(key: Option<&str>, known: Option<&str>) -> ProjectRole {
    ProjectRole {
        metadata: ObjectMeta {
            name: Some("admin".to_string()),
            generate_name: None,
            namespace: Some("shop".to_string()),
            uid: Some("uid-1".to_string()),
            generation: Some(2),
        },
        spec: ProjectRoleSpec {
            key: key.map(str::to_string),
            display_name: None,
            group: Some("shop".to_string()),
            config_map_name: None,
        },
        status: known.map(|key| ProjectRoleStatus {
            observed_generation: Some(1),
            key: Some(key.to_string()),
            project_id: Some("42".to_string()),
            config_map: Some("admin-role".to_string()),
            conditions: vec![],
        }),
    }
}

fn lease(id: u64) -> Lease {
    Lease {
        id,
        session: Session {
            zitadel: ProjectClient {
                url: "https://z/".to_string(),
                project_id: "42".to_string(),
            },
            project_id: "42".to_string(),
            zitadel_url: "https://z/".to_string(),
            username: "u".to_string(),
            issued_at: NOW,
            expires_at: NOW,
        },
    }
}

fn http(status: u16) -> Failure {
    Failure::answered(HttpError {
        status,
        body: String::new(),
    })
}

fn failed(apply: ApplyRole, role: &ProjectRole) -> String {
    match apply.work(role, NOW) {
        Some(Work::PatchRole(_, _, status)) => {
            assert_eq!(status.conditions[0].status, "False");
            assert_eq!(status.observed_generation, Some(2));
            assert_eq!(
                status.key,
                role.status.as_ref().and_then(|s| s.key.clone())
            );
        }
        other => panic!("{other:?}"),
    }
    match apply.step(role, INTERVAL, Event::Applied(Ok(()))) {
        ApplyRole::Done(Err(failure)) => failure.text(),
        other => panic!("{other:?}"),
    }
}

#[test]
fn a_role_is_synced_and_published() {
    let role = role(Some("shop.admin"), None);
    let apply = apply_role(&role);
    assert!(matches!(apply.work(&role, NOW), Some(Work::ObtainSession)));
    let apply = apply.step(&role, INTERVAL, Event::Session(Ok(lease(1))));
    assert!(matches!(
        apply.work(&role, NOW),
        Some(Work::Ask(1, Request::Call(call))) if call.path == "projects/42/roles/_search"
    ));
    let found = Role {
        key: Some("shop.admin".to_string()),
        display_name: Some("shop.admin".to_string()),
        group: Some("shop".to_string()),
    };
    let apply = apply.step(&role, INTERVAL, Event::Reply(Reply::Roles(Ok(vec![found]))));
    match apply.work(&role, NOW) {
        Some(Work::WriteConfigMap(manifest)) => {
            assert_eq!(manifest.name, "admin-role");
            assert_eq!(manifest.namespace, "shop");
            assert_eq!(manifest.owner.kind, "ProjectRole");
            let mut data: Vec<(&str, &str)> = manifest
                .data
                .iter()
                .map(|(k, v)| (k.as_str(), v.as_str()))
                .collect();
            data.sort();
            assert_eq!(
                data,
                vec![
                    ("ZITADEL_ISSUER", "https://z"),
                    ("ZITADEL_PROJECT_ID", "42"),
                    ("ZITADEL_ROLES_CLAIM", "urn:zitadel:iam:org:project:42:roles"),
                    ("ZITADEL_ROLE_KEY", "shop.admin"),
                    ("ZITADEL_URL", "https://z/"),
                ]
            );
        }
        other => panic!("{other:?}"),
    }
    let apply = apply.step(&role, INTERVAL, Event::Applied(Ok(())));
    match apply.work(&role, NOW) {
        Some(Work::PatchRole(namespace, name, status)) => {
            assert_eq!((namespace.as_str(), name.as_str()), ("shop", "admin"));
            assert_eq!(status.key.as_deref(), Some("shop.admin"));
            assert_eq!(status.project_id.as_deref(), Some("42"));
            assert_eq!(status.config_map.as_deref(), Some("admin-role"));
            assert_eq!(status.conditions[0].reason, "Synced");
            assert_eq!(
                status.conditions[0].message,
                "role shop.admin is in sync with Zitadel"
            );
        }
        other => panic!("{other:?}"),
    }
    let apply = apply.step(&role, INTERVAL, Event::Applied(Ok(())));
    assert!(matches!(
        apply,
        ApplyRole::Done(Ok(Action::Requeue(INTERVAL)))
    ));
}

#[test]
fn a_changed_key_is_rejected() {
    let changed = role(Some("boss"), Some("admin"));
    assert_eq!(
        failed(apply_role(&changed), &changed),
        "role key is immutable: currently \"admin\", spec says \"boss\"; delete and recreate \
         the resource to change it"
    );
    let empty = role(Some(""), None);
    assert_eq!(
        failed(apply_role(&empty), &empty),
        "role key must not be empty"
    );
    assert_eq!(find_key_defect(&role(None, Some("admin"))), None);
    assert_eq!(find_key_defect(&role(None, None)), None);
    let odd = role(Some("a\"b"), Some("admin"));
    assert!(failed(apply_role(&odd), &odd).contains("spec says \"a\\\"b\";"));
    assert_eq!(
        immutable_text("<a>", "<b>"),
        "role key is immutable: currently <a>, spec says <b>; delete and recreate the resource \
         to change it"
    );
}

#[test]
fn role_failures_are_reported() {
    let role = role(None, Some("admin"));
    let run = || apply_role(&role).step(&role, INTERVAL, Event::Session(Ok(lease(1))));
    let apply = run().step(&role, INTERVAL, Event::Reply(Reply::Roles(Err(http(500)))));
    assert_eq!(
        failed(apply, &role),
        "listing roles: Zitadel answered 500 Internal Server Error: "
    );
    let create = run().step(&role, INTERVAL, Event::Reply(Reply::Roles(Ok(vec![]))));
    let config_map = create.step(&role, INTERVAL, Event::Reply(Reply::Done(Ok(()))));
    let apply = config_map.step(
        &role,
        INTERVAL,
        Event::Applied(Err(Failure::new("denied".to_string()))),
    );
    assert_eq!(
        failed(apply, &role),
        "applying ConfigMap shop/admin-role: denied"
    );
    let rejected = run().step(&role, INTERVAL, Event::Reply(Reply::Roles(Err(http(401)))));
    assert!(matches!(
        rejected.work(&role, NOW),
        Some(Work::Invalidate(1))
    ));
}

#[test]
fn a_role_without_namespace_fails_at_once() {
    let mut role = role(None, None);
    role.metadata.namespace = None;
    match apply_role(&role) {
        ApplyRole::Done(Err(failure)) => assert_eq!(failure.text(), "ProjectRole without namespace"),
        other => panic!("{other:?}"),
    }
}

#[test]
fn cleanup_removes_the_key_of_old() {
    let role = role(Some("boss"), Some("admin"));
    let cleanup = cleanup_role();
    assert!(matches!(cleanup.work(&role), Some(Work::ObtainSession)));
    let cleanup = cleanup.step(&role, Event::Session(Ok(lease(1))));
    match cleanup.work(&role) {
        Some(Work::Ask(1, Request::Call(call))) => {
            assert_eq!(call.method, Method::Delete);
            assert_eq!(call.path, "projects/42/roles/admin");
        }
        other => panic!("{other:?}"),
    }
    let cleanup = cleanup.step(&role, Event::Reply(Reply::Done(Ok(()))));
    assert!(matches!(cleanup, CleanupRole::Done(Ok(Action::AwaitChange))));
}

#[test]
fn a_role_that_is_gone_is_clean() {
    let role = role(None, None);
    let run = || cleanup_role().step(&role, Event::Session(Ok(lease(1))));
    let gone = run().step(&role, Event::Reply(Reply::Done(Err(http(404)))));
    assert!(matches!(gone, CleanupRole::Done(Ok(Action::AwaitChange))));
    let rejected = run().step(&role, Event::Reply(Reply::Done(Err(http(401)))));
    assert!(matches!(rejected.work(&role), Some(Work::Invalidate(1))));
    let again = rejected.step(&role, Event::Invalidated);
    let again = again.step(&role, Event::Session(Err(Failure::new("x".to_string()))));
    match again {
        CleanupRole::Done(Err(failure)) => {
            assert_eq!(failure.text(), "obtaining Zitadel credential: x")
        }
        other => panic!("{other:?}"),
    }
}
