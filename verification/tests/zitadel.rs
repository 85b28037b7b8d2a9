use cnoidc::application::ApplicationSync;
use cnoidc::crd::{AuthMethod, OIDCApplicationSpec};
use cnoidc::failure::{Failure, HttpError};
use cnoidc::json::Json;
use cnoidc::oidc::{
    V1OidcAppType, V1OidcAuthMethodType, V1OidcGrantType, V1OidcResponseType, V1OidcTokenType,
};
use cnoidc::role::RoleSync;
use cnoidc::settings::{OidcConfig, OidcSettings};
use cnoidc::zitadel::{
    App, AppState, Body, Call, CreatedApp, Method, ProjectClient, Reply, Request, Role,
    SyncedApplication,
};

fn client() -> ProjectClient {
    ProjectClient::new("https://z.example.com/".to_string(), "42".to_string(), Ok(()))
        .expect("authenticated")
}

fn http(status: u16) -> Failure {
    Failure::answered(HttpError {
        status,
        body: "no".to_string(),
    })
}

fn settings(auth_method: AuthMethod) -> OidcSettings {
    let spec = OIDCApplicationSpec {
        redirect_uris: vec!["https://a/cb".to_string()],
        auth_method,
        ..OIDCApplicationSpec::default()
    };
    OidcSettings::from_spec(&spec).expect("valid")
}

fn config(auth: V1OidcAuthMethodType) -> OidcConfig {
    OidcConfig {
        client_id: Some("client-1".to_string()),
        redirect_uris: Some(vec!["https://a/cb".to_string()]),
        post_logout_redirect_uris: None,
        app_type: Some(V1OidcAppType::Web),
        auth_method_type: Some(auth),
        grant_types: Some(vec![V1OidcGrantType::AuthorizationCode]),
        response_types: Some(vec![V1OidcResponseType::Code]),
        access_token_type: Some(V1OidcTokenType::Bearer),
        access_token_role_assertion: None,
        id_token_role_assertion: None,
        id_token_userinfo_assertion: None,
        dev_mode: None,
        additional_origins: None,
        clock_skew: None,
        back_channel_logout_uri: None,
        skip_native_app_success_page: None,
    }
}

fn app(name: &str, auth: V1OidcAuthMethodType) -> App {
    App {
        id: Some("app-1".to_string()),
        state: Some(AppState::Active),
        name: Some(name.to_string()),
        oidc_config: Some(config(auth)),
    }
}

fn call(request: Option<Request>) -> Call {
    match request {
        Some(Request::Call(call)) => call,
        other => panic!("{other:?}"),
    }
}

fn done(sync: ApplicationSync) -> SyncedApplication {
    match sync {
        ApplicationSync::Done(result) => result.expect("synced"),
        other => panic!("{other:?}"),
    }
}

fn failure(sync: ApplicationSync) -> String {
    match sync {
        ApplicationSync::Done(Err(failure)) => failure.text(),
        other => panic!("{other:?}"),
    }
}

const NAME: &str = "shop/frontend";

#[test]
fn an_application_that_is_in_sync_is_left_alone() {
    let settings = settings(AuthMethod::Public);
    let sync = ProjectClient::sync_application(&Some("app-1".to_string()));
    let asked = call(sync.request(&client(), NAME, &settings));
    assert_eq!(asked.method, Method::Get);
    assert_eq!(asked.path, "projects/42/apps/app-1");
    assert!(asked.body.is_none());
    let sync = sync.step(
        NAME,
        &settings,
        Reply::Found(Ok(Some(app(NAME, V1OidcAuthMethodType::Public)))),
    );
    assert!(sync.request(&client(), NAME, &settings).is_none());
    let synced = done(sync);
    assert_eq!(synced.app_id, "app-1");
    assert_eq!(synced.client_id, "client-1");
    assert_eq!(synced.client_secret, None);
    assert!(!synced.changed);
}

#[test]
fn a_missing_application_is_created() {
    let settings = settings(AuthMethod::Basic);
    let sync = ProjectClient::sync_application(&Some("app-0".to_string()));
    // Gone by its ID: looked for by name.
    let sync = sync.step(NAME, &settings, Reply::Found(Err(http(404))));
    assert!(matches!(
        sync.request(&client(), NAME, &settings),
        Some(Request::ListApplications(name)) if name == NAME
    ));
    let api_app = App {
        oidc_config: None,
        ..app(NAME, V1OidcAuthMethodType::Basic)
    };
    let other = app("shop/other", V1OidcAuthMethodType::Basic);
    let sync = sync.step(NAME, &settings, Reply::Listed(Ok(vec![api_app, other])));
    let asked = call(sync.request(&client(), NAME, &settings));
    assert_eq!(asked.method, Method::Post);
    assert_eq!(asked.path, "projects/42/apps/oidc");
    assert_eq!(asked.body, Some(Body::Client(settings.add_body(NAME))));
    let sync = sync.step(
        NAME,
        &settings,
        Reply::Created(Ok(CreatedApp {
            app_id: Some("app-2".to_string()),
            client_id: Some("client-2".to_string()),
            client_secret: Some("s3cret".to_string()),
        })),
    );
    let synced = done(sync);
    assert_eq!(synced.app_id, "app-2");
    assert_eq!(synced.client_id, "client-2");
    assert_eq!(synced.client_secret.as_deref(), Some("s3cret"));
    assert!(synced.changed);
}

#[test]
fn an_empty_secret_is_none() {
    let settings = settings(AuthMethod::Public);
    let create = |created| {
        ApplicationSync::Create.step(NAME, &settings, Reply::Created(Ok(created)))
    };
    let synced = done(create(CreatedApp {
        app_id: Some("a".to_string()),
        client_id: Some("c".to_string()),
        client_secret: Some(String::new()),
    }));
    assert_eq!(synced.client_secret, None);
    assert_eq!(
        failure(create(CreatedApp {
            app_id: None,
            client_id: None,
            client_secret: None,
        })),
        "Zitadel returned no app id"
    );
    assert_eq!(
        failure(create(CreatedApp {
            app_id: Some("a".to_string()),
            client_id: None,
            client_secret: None,
        })),
        "Zitadel returned no client id"
    );
}

#[test]
fn drift_is_repaired_step_by_step() {
    let settings = settings(AuthMethod::Post);
    let drifted = App {
        state: Some(AppState::Inactive),
        ..app("shop/old", V1OidcAuthMethodType::Public)
    };
    let sync = ProjectClient::sync_application(&Some("app-1".to_string()));
    let sync = sync.step(NAME, &settings, Reply::Found(Ok(Some(drifted))));

    let asked = call(sync.request(&client(), NAME, &settings));
    assert_eq!(asked.method, Method::Post);
    assert_eq!(asked.path, "projects/42/apps/app-1/_reactivate");
    assert!(asked.body.is_none());
    let sync = sync.step(NAME, &settings, Reply::Done(Ok(())));

    let asked = call(sync.request(&client(), NAME, &settings));
    assert_eq!(asked.method, Method::Put);
    assert_eq!(asked.path, "projects/42/apps/app-1");
    assert_eq!(
        asked.body,
        object(vec![(
            "name".to_string(),
            Json::Text(NAME.to_string())
        )])
    );
    let sync = sync.step(NAME, &settings, Reply::Done(Ok(())));

    let asked = call(sync.request(&client(), NAME, &settings));
    assert_eq!(asked.method, Method::Put);
    assert_eq!(asked.path, "projects/42/apps/app-1/oidc_config");
    assert_eq!(asked.body, Some(Body::Client(settings.update_body())));
    let sync = sync.step(NAME, &settings, Reply::Done(Ok(())));

    // The method switched to one with a secret.
    let asked = call(sync.request(&client(), NAME, &settings));
    assert_eq!(asked.method, Method::Post);
    assert_eq!(
        asked.path,
        "projects/42/apps/app-1/oidc_config/_generate_client_secret"
    );
    let sync = sync.step(NAME, &settings, Reply::Secret(Ok("fresh".to_string())));
    let synced = done(sync);
    assert_eq!(synced.client_secret.as_deref(), Some("fresh"));
    assert!(synced.changed);
}

#[test]
fn keeping_the_method_keeps_the_secret() {
    let settings = settings(AuthMethod::Basic);
    let drifted = App {
        oidc_config: Some(OidcConfig {
            dev_mode: Some(true),
            ..config(V1OidcAuthMethodType::Basic)
        }),
        ..app(NAME, V1OidcAuthMethodType::Basic)
    };
    let sync = ApplicationSync::Find.step(NAME, &settings, Reply::Listed(Ok(vec![drifted])));
    let sync = sync.step(NAME, &settings, Reply::Done(Ok(())));
    let synced = done(sync);
    assert_eq!(synced.client_secret, None);
    assert!(synced.changed);
}

#[test]
fn failures_name_what_was_being_done() {
    let settings = settings(AuthMethod::Basic);
    let text = "Zitadel answered 500 Internal Server Error: no";
    let found = |app: App| {
        ApplicationSync::Get("7".to_string()).step(NAME, &settings, Reply::Found(Ok(Some(app))))
    };
    let fail = |sync: ApplicationSync| failure(sync.step(NAME, &settings, Reply::Done(Err(http(500)))));
    assert_eq!(
        failure(ApplicationSync::Get("7".to_string()).step(
            NAME,
            &settings,
            Reply::Found(Err(http(500)))
        )),
        format!("looking up application 7: {text}")
    );
    assert_eq!(
        failure(ApplicationSync::Find.step(NAME, &settings, Reply::Listed(Err(http(404))))),
        "listing applications: Zitadel answered 404 Not Found: no"
    );
    assert_eq!(
        failure(ApplicationSync::Create.step(NAME, &settings, Reply::Created(Err(http(500))))),
        format!("creating application: {text}")
    );
    assert_eq!(
        fail(found(App {
            state: Some(AppState::Inactive),
            ..app(NAME, V1OidcAuthMethodType::Basic)
        })),
        format!("reactivating application: {text}")
    );
    assert_eq!(
        fail(found(app("other", V1OidcAuthMethodType::Basic))),
        format!("renaming application: {text}")
    );
    let update = found(app(NAME, V1OidcAuthMethodType::Public));
    assert_eq!(
        fail(found(app(NAME, V1OidcAuthMethodType::Public))),
        format!("updating application configuration: {text}")
    );
    let regenerate = update.step(NAME, &settings, Reply::Done(Ok(())));
    assert_eq!(
        failure(regenerate.step(NAME, &settings, Reply::Secret(Err(http(500))))),
        format!("regenerating client secret: {text}")
    );
}

#[test]
fn incomplete_applications_cannot_be_managed() {
    let settings = settings(AuthMethod::Basic);
    let found = |app: App| {
        failure(ApplicationSync::Get("7".to_string()).step(
            NAME,
            &settings,
            Reply::Found(Ok(Some(app))),
        ))
    };
    assert_eq!(
        found(App {
            id: None,
            ..app(NAME, V1OidcAuthMethodType::Basic)
        }),
        "Zitadel returned an application without id"
    );
    assert_eq!(
        found(App {
            oidc_config: Some(OidcConfig {
                client_id: None,
                ..config(V1OidcAuthMethodType::Basic)
            }),
            ..app(NAME, V1OidcAuthMethodType::Basic)
        }),
        "Zitadel returned no client id"
    );
}

#[test]
fn applications_that_are_gone_count_as_removed() {
    assert!(ProjectClient::remove_application("7", Ok(())).is_ok());
    assert!(ProjectClient::remove_application("7", Err(http(404))).is_ok());
    assert_eq!(
        ProjectClient::remove_application("7", Err(http(409)))
            .unwrap_err()
            .text(),
        "removing application 7: Zitadel answered 409 Conflict: no"
    );
    let asked = client().remove_application_call("7");
    assert_eq!(asked.method, Method::Delete);
    assert_eq!(asked.path, "projects/42/apps/7");
    assert!(ProjectClient::remove_role("r", Err(http(404))).is_ok());
    assert_eq!(
        ProjectClient::remove_role("r", Err(http(500)))
            .unwrap_err()
            .text(),
        "removing role r: Zitadel answered 500 Internal Server Error: no"
    );
    let asked = client().remove_role_call("r");
    assert_eq!(asked.method, Method::Delete);
    assert_eq!(asked.path, "projects/42/roles/r");
}

fn role(display_name: &str, group: Option<&str>) -> Role {
    Role {
        key: Some("admin".to_string()),
        display_name: Some(display_name.to_string()),
        group: group.map(str::to_string),
    }
}

fn pair(key: &str, value: Json) -> (String, Json) {
    (key.to_string(), value)
}

fn object(members: Vec<(String, Json)>) -> Option<Body> {
    Some(Body::Json(Json::Object(members)))
}

fn text(value: &str) -> Json {
    Json::Text(value.to_string())
}

#[test]
fn roles_are_created_when_missing() {
    let group = Some("shop".to_string());
    let sync = ProjectClient::sync_role();
    let asked = sync
        .request(&client(), "admin", "Admin", &group)
        .expect("a request");
    assert_eq!(asked.method, Method::Post);
    assert_eq!(asked.path, "projects/42/roles/_search");
    assert_eq!(
        asked.body,
        object(vec![
            pair("query", Json::Object(vec![pair("limit", Json::Number(100))])),
            pair(
                "queries",
                Json::List(vec![Json::Object(vec![pair(
                    "keyQuery",
                    Json::Object(vec![
                        pair("key", text("admin")),
                        pair("method", text("TEXT_QUERY_METHOD_EQUALS")),
                    ])
                )])])
            ),
        ])
    );
    let other = Role {
        key: Some("administrator".to_string()),
        ..role("Admin", Some("shop"))
    };
    let sync = sync.step("admin", "Admin", &group, Reply::Roles(Ok(vec![other])));
    let asked = sync
        .request(&client(), "admin", "Admin", &group)
        .expect("a request");
    assert_eq!(asked.method, Method::Post);
    assert_eq!(asked.path, "projects/42/roles");
    assert_eq!(
        asked.body,
        object(vec![
            pair("roleKey", text("admin")),
            pair("displayName", text("Admin")),
            pair("group", text("shop")),
        ])
    );
    let sync = sync.step("admin", "Admin", &group, Reply::Done(Ok(())));
    assert!(matches!(sync, RoleSync::Done(Ok(true))));
    assert!(sync.request(&client(), "admin", "Admin", &group).is_none());
}

#[test]
fn losing_a_race_is_no_failure() {
    let sync = RoleSync::Create.step("admin", "Admin", &None, Reply::Done(Err(http(409))));
    assert!(matches!(sync, RoleSync::Done(Ok(false))));
    let sync = RoleSync::Create.step("admin", "Admin", &None, Reply::Done(Err(http(500))));
    match sync {
        RoleSync::Done(Err(failure)) => assert!(failure.text().starts_with("creating role: ")),
        other => panic!("{other:?}"),
    }
    let sync = RoleSync::Update.step("admin", "Admin", &None, Reply::Done(Err(http(409))));
    match sync {
        RoleSync::Done(Err(failure)) => assert!(failure.text().starts_with("updating role: ")),
        other => panic!("{other:?}"),
    }
    let sync = RoleSync::Find.step("admin", "Admin", &None, Reply::Roles(Err(http(500))));
    match sync {
        RoleSync::Done(Err(failure)) => assert!(failure.text().starts_with("listing roles: ")),
        other => panic!("{other:?}"),
    }
}

#[test]
fn roles_are_updated_on_drift() {
    let found = |role: Role, group: &Option<String>| {
        RoleSync::Find.step("admin", "Admin", group, Reply::Roles(Ok(vec![role])))
    };
    let shop = Some("shop".to_string());
    assert!(matches!(
        found(role("Admin", Some("shop")), &shop),
        RoleSync::Done(Ok(false))
    ));
    assert!(matches!(
        found(role("Admin", Some("")), &None),
        RoleSync::Done(Ok(false))
    ));
    assert!(matches!(
        found(role("Admin", None), &None),
        RoleSync::Done(Ok(false))
    ));
    assert!(matches!(
        found(role("Boss", Some("shop")), &shop),
        RoleSync::Update
    ));
    assert!(matches!(
        found(role("Admin", Some("ship")), &shop),
        RoleSync::Update
    ));
    assert!(matches!(found(role("Admin", None), &shop), RoleSync::Update));
    assert!(matches!(
        found(role("Admin", Some("shop")), &None),
        RoleSync::Update
    ));
    // An empty group is an absent one.
    let empty = Some(String::new());
    assert!(matches!(
        found(role("Admin", Some("")), &empty),
        RoleSync::Done(Ok(false))
    ));
    assert!(matches!(
        found(role("Admin", None), &empty),
        RoleSync::Done(Ok(false))
    ));
    assert!(matches!(
        found(role("Admin", Some("shop")), &empty),
        RoleSync::Update
    ));
    let asked = RoleSync::Update
        .request(&client(), "admin", "Admin", &None)
        .expect("a request");
    assert_eq!(asked.method, Method::Put);
    assert_eq!(asked.path, "projects/42/roles/admin");
    assert_eq!(
        asked.body,
        object(vec![
            pair("displayName", text("Admin")),
            pair("group", Json::Null),
        ])
    );
    let sync = RoleSync::Update.step("admin", "Admin", &None, Reply::Done(Ok(())));
    assert!(matches!(sync, RoleSync::Done(Ok(true))));
}

#[test]
fn calls_go_below_the_management_api() {
    assert_eq!(
        client().call_url("projects/42/apps/7").expect("a URL"),
        "https://z.example.com/management/v1/projects/42/apps/7"
    );
    let below = ProjectClient {
        url: "https://example.com/zitadel/".to_string(),
        project_id: "42".to_string(),
    };
    assert_eq!(
        below.call_url("roles").expect("a URL"),
        "https://example.com/zitadel/management/v1/roles"
    );
    let broken = ProjectClient {
        url: "nowhere".to_string(),
        project_id: "42".to_string(),
    };
    assert_eq!(
        broken.call_url("roles").unwrap_err().text(),
        "relative URL without a base"
    );
}

#[test]
fn blank_answers_are_null() {
    assert_eq!(ProjectClient::call(200, "{}".to_string()).unwrap(), "{}");
    assert_eq!(ProjectClient::call(204, " \n".to_string()).unwrap(), "null");
    let failure = ProjectClient::call(404, " ".to_string()).unwrap_err();
    assert!(failure.has_status(404));
    assert_eq!(failure.text(), "Zitadel answered 404 Not Found:  ");
}

#[test]
fn a_failed_login_is_no_client() {
    let failure = ProjectClient::new(
        "https://z/".to_string(),
        "42".to_string(),
        Err(Failure::new("bad key".to_string())),
    )
    .unwrap_err();
    assert_eq!(failure.text(), "authenticating against Zitadel: bad key");
}
