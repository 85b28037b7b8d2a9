use cnoidc::controller::{
    application_name, error_policy, role_key, roles_claim, session_obtained, with_session,
    work_finished, Action, Context, Error, WithSession,
};
use cnoidc::crd::{
    OIDCApplication, OIDCApplicationSpec, ObjectMeta, ProjectRole, ProjectRoleSpec,
};
use cnoidc::failure::{Failure, HttpError};
use cnoidc::role::RoleSync;
use cnoidc::time::{Duration, Timestamp};
use cnoidc::zapp::{Lease, Session};
use cnoidc::zitadel::ProjectClient;

fn meta(name: &str, namespace: &str) -> ObjectMeta {
    ObjectMeta {
        name: Some(name.to_string()),
        generate_name: None,
        namespace: Some(namespace.to_string()),
        uid: None,
        generation: None,
    }
}

fn role(key: Option<&str>) -> ProjectRole {
    ProjectRole {
        metadata: meta("admin", "shop"),
        spec: ProjectRoleSpec {
            key: key.map(str::to_string),
            display_name: None,
            group: None,
            config_map_name: None,
        },
        status: None,
    }
}

#[test]
fn names_follow_the_resource() {
    let app = OIDCApplication {
        metadata: meta("frontend", "shop"),
        spec: OIDCApplicationSpec {
            redirect_uris: vec!["https://shop.example.com/cb".to_string()],
            ..OIDCApplicationSpec::default()
        },
        status: None,
    };
    assert_eq!(application_name(&app), "shop/frontend");

    assert_eq!(role_key(&role(None)), "admin");
    assert_eq!(role_key(&role(Some("shop.admin"))), "shop.admin");
}

#[test]
fn names_tell_namespaces_apart() {
    let named = |name: &str, namespace: &str| {
        application_name(&OIDCApplication {
            metadata: meta(name, namespace),
            spec: OIDCApplicationSpec::default(),
            status: None,
        })
    };
    assert_ne!(named("b", "a"), named("a", "b"));
    assert_ne!(named("b", "a-"), named("-b", "a"));
    assert_eq!(named("b", "a"), "a/b");
}

#[test]
fn roles_claim_names_the_project() {
    assert_eq!(roles_claim("123"), "urn:zitadel:iam:org:project:123:roles");
}

#[test]
fn failures_are_retried_soon() {
    let after = |secs| {
        error_policy(&Context {
            sync_interval: Duration::from_secs(secs),
            namespace: None,
        })
    };
    assert_eq!(after(600), Action::Requeue(Duration::from_secs(30)));
    assert_eq!(after(30), Action::Requeue(Duration::from_secs(30)));
    assert_eq!(after(10), Action::Requeue(Duration::from_secs(10)));
}

#[test]
fn controller_errors_have_words() {
    let error = Error::Reconcile(Failure::new("root".to_string()).context("outer"));
    assert_eq!(error.message(), "outer: root");
    let error = Error::Finalizer("gone".to_string());
    assert_eq!(error.message(), "finalizer: gone");
}

fn lease(id: u64) -> Lease {
    let now = Timestamp { secs: 0, nanos: 0 };
    Lease {
        id,
        session: Session {
            zitadel: ProjectClient {
                url: "https://z/".to_string(),
                project_id: "p".to_string(),
            },
            project_id: "p".to_string(),
            zitadel_url: "https://z/".to_string(),
            username: "u".to_string(),
            issued_at: now,
            expires_at: now,
        },
    }
}

fn rejected() -> Failure {
    Failure::answered(HttpError {
        status: 401,
        body: String::new(),
    })
}

#[test]
fn a_rejection_is_retried_once() {
    let start: WithSession<RoleSync, bool> = with_session();
    assert!(matches!(start, WithSession::Obtain(false)));
    let first: WithSession<RoleSync, bool> =
        session_obtained(false, Ok(lease(7)), RoleSync::Find);
    assert!(matches!(&first, WithSession::Run(false, lease, RoleSync::Find) if lease.id == 7));
    let again: WithSession<RoleSync, bool> = work_finished(false, lease(7), Err(rejected()));
    assert!(matches!(again, WithSession::Invalidate(7)));
    let over: WithSession<RoleSync, bool> = work_finished(true, lease(8), Err(rejected()));
    assert!(matches!(over, WithSession::Done(Err(_))));
    let other: WithSession<RoleSync, bool> =
        work_finished(false, lease(7), Err(Failure::new("x".to_string())));
    assert!(matches!(other, WithSession::Done(Err(_))));
    let good: WithSession<RoleSync, bool> = work_finished(false, lease(7), Ok(true));
    assert!(matches!(good, WithSession::Done(Ok((lease, true))) if lease.id == 7));
}

#[test]
fn without_a_session_nothing_runs() {
    let none: WithSession<RoleSync, bool> = session_obtained(
        false,
        Err(Failure::new("zapp is down".to_string())),
        RoleSync::Find,
    );
    match none {
        WithSession::Done(Err(failure)) => {
            assert_eq!(failure.text(), "obtaining Zitadel credential: zapp is down")
        }
        other => panic!("{other:?}"),
    }
}
