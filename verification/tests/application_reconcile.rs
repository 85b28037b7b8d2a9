use cnoidc::application_reconcile::{
    apply_application, cleanup_application, is_current, ApplyApplication, CleanupApplication,
};
use cnoidc::controller::{Action, Event, Work};
use cnoidc::crd::{
    AuthMethod, OIDCApplication, OIDCApplicationSpec, OIDCApplicationStatus, ObjectMeta,
};
use cnoidc::failure::{Failure, HttpError};
use cnoidc::kubernetes::StoredSecret;
use cnoidc::oidc::{
    V1OidcAppType, V1OidcAuthMethodType, V1OidcGrantType, V1OidcResponseType, V1OidcTokenType,
};
use cnoidc::settings::OidcConfig;
use cnoidc::time::{Duration, Timestamp};
use cnoidc::zapp::{Lease, Session};
use cnoidc::zitadel::{App, AppState, CreatedApp, Method, ProjectClient, Reply, Request};

const NOW: Timestamp = Timestamp { secs: 9, nanos: 0 };
const INTERVAL: Duration = Duration {
    secs: 600,
    nanos: 0,
};

fn app(auth_method: AuthMethod) -> OIDCApplication {
    OIDCApplication {
        metadata: ObjectMeta {
            name: Some("frontend".to_string()),
            generate_name: None,
            namespace: Some("shop".to_string()),
            uid: Some("uid-1".to_string()),
            generation: Some(4),
        },
        spec: OIDCApplicationSpec {
            redirect_uris: vec!["https://a/cb".to_string()],
            auth_method,
            ..OIDCApplicationSpec::default()
        },
        status: None,
    }
}

fn remembering(app: OIDCApplication) -> OIDCApplication {
    OIDCApplication {
        status: Some(OIDCApplicationStatus {
            observed_generation: Some(3),
            application_id: Some("app-1".to_string()),
            client_id: Some("client-1".to_string()),
            project_id: Some("42".to_string()),
            config_map: Some("old".to_string()),
            secret: None,
            conditions: vec![],
        }),
        ..app
    }
}

fn lease(id: u64) -> Lease {
    Lease {
        id,
        session: Session {
            zitadel: ProjectClient {
                url: "https://z/".to_string(),
                project_id: "42".to_string(),
            },
            project_id: "42".to_string(),
            zitadel_url: "https://z/".to_string(),
            username: "u".to_string(),
            issued_at: NOW,
            expires_at: NOW,
        },
    }
}

fn http(status: u16) -> Failure {
    Failure::answered(HttpError {
        status,
        body: String::new(),
    })
}

fn plain(text: &str) -> Failure {
    Failure::new(text.to_string())
}

fn created(secret: Option<&str>) -> Event {
    Event::Reply(Reply::Created(Ok(CreatedApp {
        app_id: Some("app-1".to_string()),
        client_id: Some("client-1".to_string()),
        client_secret: secret.map(str::to_string),
    })))
}

fn work(apply: &ApplyApplication, app: &OIDCApplication) -> Work {
    apply.work(app, NOW).expect("work")
}

/// Runs the reconcile up to the point where the ConfigMap is to be written.
fn synced(app: &OIDCApplication, secret: Option<&str>) -> ApplyApplication {
    let apply = apply_application(app);
    assert!(matches!(work(&apply, app), Work::ObtainSession));
    let apply = apply.step(app, INTERVAL, Event::Session(Ok(lease(1))));
    assert!(matches!(
        work(&apply, app),
        Work::Ask(1, Request::ListApplications(name)) if name == "shop/frontend"
    ));
    let apply = apply.step(app, INTERVAL, Event::Reply(Reply::Listed(Ok(vec![]))));
    assert!(matches!(
        work(&apply, app),
        Work::Ask(1, Request::Call(call)) if call.method == Method::Post
    ));
    apply.step(app, INTERVAL, created(secret))
}

fn failed(apply: ApplyApplication, app: &OIDCApplication) -> String {
    let message = match work(&apply, app) {
        Work::PatchApplication(namespace, name, status) => {
            assert_eq!((namespace.as_str(), name.as_str()), ("shop", "frontend"));
            assert_eq!(status.conditions.len(), 1);
            assert_eq!(status.conditions[0].status, "False");
            assert_eq!(status.conditions[0].reason, "SyncFailed");
            assert_eq!(status.observed_generation, Some(4));
            status.conditions[0].message.clone()
        }
        other => panic!("{other:?}"),
    };
    // Whether or not the status could be patched, the failure is the result.
    match apply.step(app, INTERVAL, Event::Applied(Err(plain("no status")))) {
        ApplyApplication::Done(Err(failure)) => assert_eq!(failure.text(), message),
        other => panic!("{other:?}"),
    }
    message
}

#[test]
fn a_public_client_is_published() {
    let app = app(AuthMethod::Public);
    let apply = synced(&app, None);
    match work(&apply, &app) {
        Work::WriteConfigMap(manifest) => {
            assert_eq!(manifest.name, "frontend-oidc");
            assert_eq!(manifest.namespace, "shop");
            assert_eq!(manifest.owner.uid, "uid-1");
            assert_eq!(manifest.owner.kind, "OIDCApplication");
            let mut data: Vec<(&str, &str)> = manifest
                .data
                .iter()
                .map(|(k, v)| (k.as_str(), v.as_str()))
                .collect();
            data.sort();
            assert_eq!(
                data,
                vec![
                    ("OIDC_APPLICATION_ID", "app-1"),
                    ("OIDC_CLIENT_ID", "client-1"),
                    ("ZITADEL_ISSUER", "https://z"),
                    ("ZITADEL_PROJECT_ID", "42"),
                    ("ZITADEL_URL", "https://z/"),
                ]
            );
        }
        other => panic!("{other:?}"),
    }
    let apply = apply.step(&app, INTERVAL, Event::Applied(Ok(())));
    assert!(
        matches!(work(&apply, &app), Work::ReadSecret(ns, name) if ns == "shop" && name == "frontend-oidc")
    );
    let apply = apply.step(&app, INTERVAL, Event::SecretRead(Ok(None)));
    match work(&apply, &app) {
        Work::PatchApplication(_, _, status) => {
            assert_eq!(status.observed_generation, Some(4));
            assert_eq!(status.application_id.as_deref(), Some("app-1"));
            assert_eq!(status.client_id.as_deref(), Some("client-1"));
            assert_eq!(status.project_id.as_deref(), Some("42"));
            assert_eq!(status.config_map.as_deref(), Some("frontend-oidc"));
            assert_eq!(status.secret, None);
            assert_eq!(status.conditions[0].status, "True");
            assert_eq!(status.conditions[0].reason, "Updated");
            assert_eq!(
                status.conditions[0].message,
                "application shop/frontend is in sync with Zitadel"
            );
            assert_eq!(status.conditions[0].last_transition_time, NOW);
        }
        other => panic!("{other:?}"),
    }
    let apply = apply.step(&app, INTERVAL, Event::Applied(Ok(())));
    assert!(apply.work(&app, NOW).is_none());
    assert!(matches!(
        apply,
        ApplyApplication::Done(Ok(Action::Requeue(INTERVAL)))
    ));
}

#[test]
fn a_fresh_secret_is_written() {
    let app = OIDCApplication {
        spec: OIDCApplicationSpec {
            secret_name: Some("creds".to_string()),
            config_map_name: Some("settings".to_string()),
            ..app(AuthMethod::Basic).spec
        },
        ..app(AuthMethod::Basic)
    };
    let apply = synced(&app, Some("s3cret"));
    assert!(matches!(work(&apply, &app), Work::WriteConfigMap(m) if m.name == "settings"));
    let apply = apply.step(&app, INTERVAL, Event::Applied(Ok(())));
    match work(&apply, &app) {
        Work::WriteSecret(manifest) => {
            assert_eq!(manifest.name, "creds");
            assert_eq!(
                manifest.data,
                vec![
                    ("OIDC_CLIENT_ID".to_string(), "client-1".to_string()),
                    ("OIDC_CLIENT_SECRET".to_string(), "s3cret".to_string()),
                ]
            );
        }
        other => panic!("{other:?}"),
    }
    let apply = apply.step(&app, INTERVAL, Event::Applied(Ok(())));
    assert!(
        matches!(work(&apply, &app), Work::PatchApplication(_, _, status) if status.secret.as_deref() == Some("creds"))
    );
}

fn stored(uid: &str, client_id: &str, secret: &str) -> StoredSecret {
    StoredSecret {
        owner_uids: vec![uid.to_string()],
        data: Some(vec![
            ("OIDC_CLIENT_ID".to_string(), client_id.as_bytes().to_vec()),
            ("OIDC_CLIENT_SECRET".to_string(), secret.as_bytes().to_vec()),
        ]),
    }
}

#[test]
fn only_a_current_secret_is_kept() {
    let app = app(AuthMethod::Post);
    assert!(is_current(&Some(stored("uid-1", "client-1", "s")), &app, "client-1"));
    assert!(!is_current(&Some(stored("uid-2", "client-1", "s")), &app, "client-1"));
    assert!(!is_current(&Some(stored("uid-1", "client-0", "s")), &app, "client-1"));
    assert!(!is_current(&Some(stored("uid-1", "client-1", "")), &app, "client-1"));
    assert!(!is_current(&None, &app, "client-1"));

    let read = || synced(&app, None).step(&app, INTERVAL, Event::Applied(Ok(())));
    let kept = read().step(
        &app,
        INTERVAL,
        Event::SecretRead(Ok(Some(stored("uid-1", "client-1", "s")))),
    );
    assert!(matches!(work(&kept, &app), Work::PatchApplication(_, _, _)));
    let lost = read().step(&app, INTERVAL, Event::SecretRead(Ok(None)));
    match work(&lost, &app) {
        Work::Ask(1, Request::Call(call)) => assert_eq!(
            call.path,
            "projects/42/apps/app-1/oidc_config/_generate_client_secret"
        ),
        other => panic!("{other:?}"),
    }
    let fresh = lost.step(
        &app,
        INTERVAL,
        Event::Reply(Reply::Secret(Ok("new".to_string()))),
    );
    assert!(
        matches!(work(&fresh, &app), Work::WriteSecret(m) if m.data[1].1 == "new")
    );
}

#[test]
fn a_secret_without_use_is_removed() {
    let app = app(AuthMethod::Public);
    let read = || synced(&app, None).step(&app, INTERVAL, Event::Applied(Ok(())));
    let own = read().step(
        &app,
        INTERVAL,
        Event::SecretRead(Ok(Some(stored("uid-1", "x", "y")))),
    );
    assert!(
        matches!(work(&own, &app), Work::DeleteSecret(ns, name) if ns == "shop" && name == "frontend-oidc")
    );
    let own = own.step(&app, INTERVAL, Event::Applied(Ok(())));
    assert!(matches!(work(&own, &app), Work::PatchApplication(_, _, _)));
    let foreign = read().step(
        &app,
        INTERVAL,
        Event::SecretRead(Ok(Some(stored("uid-2", "x", "y")))),
    );
    assert!(matches!(work(&foreign, &app), Work::PatchApplication(_, _, _)));
}

fn in_sync() -> App {
    App {
        id: Some("app-1".to_string()),
        state: Some(AppState::Active),
        name: Some("shop/frontend".to_string()),
        oidc_config: Some(OidcConfig {
            client_id: Some("client-1".to_string()),
            redirect_uris: Some(vec!["https://a/cb".to_string()]),
            post_logout_redirect_uris: None,
            app_type: Some(V1OidcAppType::Web),
            auth_method_type: Some(V1OidcAuthMethodType::Post),
            grant_types: Some(vec![V1OidcGrantType::AuthorizationCode]),
            response_types: Some(vec![V1OidcResponseType::Code]),
            access_token_type: Some(V1OidcTokenType::Bearer),
            access_token_role_assertion: None,
            id_token_role_assertion: None,
            id_token_userinfo_assertion: None,
            dev_mode: None,
            additional_origins: None,
            clock_skew: None,
            back_channel_logout_uri: None,
            skip_native_app_success_page: None,
        }),
    }
}

#[test]
fn what_is_in_sync_stays_as_it_is() {
    let app = remembering(app(AuthMethod::Post));
    let apply = apply_application(&app);
    let apply = apply.step(&app, INTERVAL, Event::Session(Ok(lease(1))));
    assert!(matches!(
        work(&apply, &app),
        Work::Ask(1, Request::Call(call)) if call.method == Method::Get
    ));
    let apply = apply.step(
        &app,
        INTERVAL,
        Event::Reply(Reply::Found(Ok(Some(in_sync())))),
    );
    assert!(matches!(work(&apply, &app), Work::WriteConfigMap(_)));
    let apply = apply.step(&app, INTERVAL, Event::Applied(Ok(())));
    let apply = apply.step(
        &app,
        INTERVAL,
        Event::SecretRead(Ok(Some(stored("uid-1", "client-1", "s")))),
    );
    match work(&apply, &app) {
        Work::PatchApplication(_, _, status) => {
            assert_eq!(status.conditions[0].reason, "Synced")
        }
        other => panic!("{other:?}"),
    }
}

#[test]
fn what_is_in_sync_stays_as_it_is_without_a_secret() {
    for secret in [None, Some(stored("uid-2", "client-9", "s"))] {
        let app = app(AuthMethod::Public);
        let apply = apply_application(&app);
        let apply = apply.step(&app, INTERVAL, Event::Session(Ok(lease(1))));
        assert!(matches!(
            work(&apply, &app),
            Work::Ask(1, Request::ListApplications(_))
        ));
        let mut found = in_sync();
        if let Some(config) = found.oidc_config.as_mut() {
            config.auth_method_type = Some(V1OidcAuthMethodType::Public);
        }
        let apply = apply.step(
            &app,
            INTERVAL,
            Event::Reply(Reply::Listed(Ok(vec![found]))),
        );
        assert!(matches!(work(&apply, &app), Work::WriteConfigMap(_)));
        let apply = apply.step(&app, INTERVAL, Event::Applied(Ok(())));
        let apply = apply.step(&app, INTERVAL, Event::SecretRead(Ok(secret)));
        match work(&apply, &app) {
            Work::PatchApplication(_, _, status) => {
                assert_eq!(status.conditions[0].reason, "Synced")
            }
            other => panic!("{other:?}"),
        }
        let apply = apply.step(&app, INTERVAL, Event::Applied(Ok(())));
        assert!(matches!(apply, ApplyApplication::Done(Ok(_))));
    }
}

#[test]
fn a_rejected_credential_is_replaced_once() {
    let app = app(AuthMethod::Public);
    let apply = apply_application(&app);
    let apply = apply.step(&app, INTERVAL, Event::Session(Ok(lease(1))));
    let apply = apply.step(&app, INTERVAL, Event::Reply(Reply::Listed(Err(http(401)))));
    assert!(matches!(work(&apply, &app), Work::Invalidate(1)));
    let apply = apply.step(&app, INTERVAL, Event::Invalidated);
    assert!(matches!(work(&apply, &app), Work::ObtainSession));
    let apply = apply.step(&app, INTERVAL, Event::Session(Ok(lease(2))));
    assert!(matches!(work(&apply, &app), Work::Ask(2, _)));
    let apply = apply.step(&app, INTERVAL, Event::Reply(Reply::Listed(Err(http(401)))));
    assert_eq!(
        failed(apply, &app),
        "listing applications: Zitadel answered 401 Unauthorized: "
    );
}

#[test]
fn every_failure_is_reported() {
    let app = app(AuthMethod::Basic);
    let apply = apply_application(&app);
    let apply = apply.step(&app, INTERVAL, Event::Session(Err(plain("zapp is down"))));
    assert_eq!(
        failed(apply, &app),
        "obtaining Zitadel credential: zapp is down"
    );

    let apply = synced(&app, None).step(&app, INTERVAL, Event::Applied(Err(plain("denied"))));
    assert_eq!(
        failed(apply, &app),
        "applying ConfigMap shop/frontend-oidc: denied"
    );

    let read = || synced(&app, None).step(&app, INTERVAL, Event::Applied(Ok(())));
    let apply = read().step(&app, INTERVAL, Event::SecretRead(Err(plain("denied"))));
    assert_eq!(failed(apply, &app), "denied");

    let regenerate = || read().step(&app, INTERVAL, Event::SecretRead(Ok(None)));
    let apply = regenerate().step(&app, INTERVAL, Event::Reply(Reply::Secret(Err(http(500)))));
    assert_eq!(
        failed(apply, &app),
        "regenerating client secret: Zitadel answered 500 Internal Server Error: "
    );

    let write = regenerate().step(
        &app,
        INTERVAL,
        Event::Reply(Reply::Secret(Ok("s".to_string()))),
    );
    let apply = write.step(&app, INTERVAL, Event::Applied(Err(plain("denied"))));
    assert_eq!(
        failed(apply, &app),
        "applying Secret shop/frontend-oidc: denied"
    );

    let report = read().step(
        &app,
        INTERVAL,
        Event::SecretRead(Ok(Some(stored("uid-1", "client-1", "s")))),
    );
    let apply = report.step(&app, INTERVAL, Event::Applied(Err(plain("denied"))));
    assert_eq!(failed(apply, &app), "patching status: denied");
}

#[test]
fn a_failure_keeps_what_the_status_said() {
    let app = remembering(app(AuthMethod::Basic));
    let apply = apply_application(&app);
    let apply = apply.step(&app, INTERVAL, Event::Session(Err(plain("down"))));
    match work(&apply, &app) {
        Work::PatchApplication(_, _, status) => {
            assert_eq!(status.application_id.as_deref(), Some("app-1"));
            assert_eq!(status.client_id.as_deref(), Some("client-1"));
            assert_eq!(status.config_map.as_deref(), Some("old"));
            assert_eq!(status.observed_generation, Some(4));
        }
        other => panic!("{other:?}"),
    }
}

#[test]
fn an_invalid_spec_is_reported_without_a_session() {
    let mut app = app(AuthMethod::Public);
    app.spec.clock_skew = Some("soon".to_string());
    assert_eq!(
        failed(apply_application(&app), &app),
        "invalid spec: clock skew \"soon\": expected number at 0"
    );
}

#[test]
fn a_resource_without_namespace_fails_at_once() {
    let mut app = app(AuthMethod::Public);
    app.metadata.namespace = None;
    let apply = apply_application(&app);
    assert!(apply.work(&app, NOW).is_none());
    match apply {
        ApplyApplication::Done(Err(failure)) => {
            assert_eq!(failure.text(), "OIDCApplication without namespace")
        }
        other => panic!("{other:?}"),
    }
}

#[test]
fn cleanup_goes_by_the_remembered_id() {
    let app = remembering(app(AuthMethod::Public));
    let cleanup = cleanup_application();
    assert!(matches!(cleanup.work(&app), Some(Work::ObtainSession)));
    let cleanup = cleanup.step(&app, Event::Session(Ok(lease(1))));
    match cleanup.work(&app) {
        Some(Work::Ask(1, Request::Call(call))) => {
            assert_eq!(call.method, Method::Delete);
            assert_eq!(call.path, "projects/42/apps/app-1");
        }
        other => panic!("{other:?}"),
    }
    let cleanup = cleanup.step(&app, Event::Reply(Reply::Done(Err(http(404)))));
    assert!(cleanup.work(&app).is_none());
    assert!(matches!(
        cleanup,
        CleanupApplication::Done(Ok(Action::AwaitChange))
    ));
}

#[test]
fn cleanup_goes_by_name_otherwise() {
    let app = app(AuthMethod::Public);
    let find = || cleanup_application().step(&app, Event::Session(Ok(lease(1))));
    assert!(matches!(
        find().work(&app),
        Some(Work::Ask(1, Request::ListApplications(name))) if name == "shop/frontend"
    ));
    let nothing = find().step(&app, Event::Reply(Reply::Listed(Ok(vec![]))));
    assert!(matches!(
        nothing,
        CleanupApplication::Done(Ok(Action::AwaitChange))
    ));
    let api_app = App {
        id: Some("api".to_string()),
        state: None,
        name: Some("shop/frontend".to_string()),
        oidc_config: None,
    };
    let left = find().step(&app, Event::Reply(Reply::Listed(Ok(vec![api_app]))));
    assert!(matches!(
        left,
        CleanupApplication::Done(Ok(Action::AwaitChange))
    ));
    let rejected = find().step(&app, Event::Reply(Reply::Listed(Err(http(401)))));
    assert!(matches!(rejected.work(&app), Some(Work::Invalidate(1))));
    let again = rejected.step(&app, Event::Invalidated);
    assert!(matches!(again.work(&app), Some(Work::ObtainSession)));
    let broken = find().step(&app, Event::Reply(Reply::Listed(Err(http(500)))));
    assert!(matches!(broken, CleanupApplication::Done(Err(_))));
}
