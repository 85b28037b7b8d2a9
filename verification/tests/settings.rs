use cnoidc::crd::{AuthMethod, GrantType, OIDCApplicationSpec, ResponseType};
use cnoidc::oidc::{
    V1OidcAppType, V1OidcAuthMethodType, V1OidcGrantType, V1OidcResponseType, V1OidcTokenType,
};
use cnoidc::settings::{
    clock_skew_to_zitadel, duration_to_zitadel, order_grants, order_responses,
    parsed_skew_to_zitadel, OidcConfig, OidcSettings,
};
use cnoidc::time::Duration;
use famedly_zitadel_rust_client::v2::management as client;
use serde_json::Value;

fn texts(list: &[&str]) -> Vec<String> {
    list.iter().map(|s| s.to_string()).collect()
}

fn spec(uris: &[&str]) -> OIDCApplicationSpec {
    OIDCApplicationSpec {
        redirect_uris: texts(uris),
        ..OIDCApplicationSpec::default()
    }
}

fn blank() -> OidcConfig {
    OidcConfig {
        client_id: None,
        redirect_uris: None,
        post_logout_redirect_uris: None,
        app_type: None,
        auth_method_type: None,
        grant_types: None,
        response_types: None,
        access_token_type: None,
        access_token_role_assertion: None,
        id_token_role_assertion: None,
        id_token_userinfo_assertion: None,
        dev_mode: None,
        additional_origins: None,
        clock_skew: None,
        back_channel_logout_uri: None,
        skip_native_app_success_page: None,
    }
}

fn reported() -> OidcConfig {
    OidcConfig {
        redirect_uris: Some(texts(&["https://b/cb", "https://a/cb"])),
        post_logout_redirect_uris: Some(vec![]),
        app_type: Some(V1OidcAppType::Web),
        auth_method_type: Some(V1OidcAuthMethodType::Public),
        grant_types: Some(vec![
            V1OidcGrantType::AuthorizationCode,
            V1OidcGrantType::RefreshToken,
        ]),
        response_types: Some(vec![V1OidcResponseType::Code]),
        access_token_type: Some(V1OidcTokenType::Bearer),
        clock_skew: Some("0s".to_string()),
        ..blank()
    }
}

fn two_uris() -> OIDCApplicationSpec {
    OIDCApplicationSpec {
        grant_types: vec![GrantType::RefreshToken, GrantType::AuthorizationCode],
        ..spec(&["https://a/cb", "https://b/cb"])
    }
}

fn value(object: serde_json::Map<String, Value>) -> Value {
    Value::Object(object)
}

#[test]
fn clock_skew_is_normalised() {
    assert_eq!(clock_skew_to_zitadel("5s").expect("valid"), "5s");
    assert_eq!(clock_skew_to_zitadel("1m").expect("valid"), "60s");
    assert_eq!(clock_skew_to_zitadel("500ms").expect("valid"), "0.5s");
    assert!(clock_skew_to_zitadel("soon").is_err());
}

#[test]
fn clock_skew_errors_quote_the_text() {
    assert_eq!(
        clock_skew_to_zitadel("so\"on").unwrap_err().text(),
        "clock skew \"so\\\"on\": expected number at 0"
    );
    assert_eq!(
        clock_skew_to_zitadel("").unwrap_err().text(),
        "clock skew \"\": value was empty"
    );
}

#[test]
fn long_clock_skews_are_read_too() {
    assert_eq!(clock_skew_to_zitadel("600000000000ns").expect("valid"), "600s");
    assert_eq!(
        clock_skew_to_zitadel("584542046090y").expect("valid"),
        "18446744073689784000s"
    );
    assert_eq!(
        clock_skew_to_zitadel("99999999999999999999s").unwrap_err().text(),
        format!(
            "clock skew \"99999999999999999999s\": {}",
            humantime::parse_duration("99999999999999999999s").unwrap_err()
        )
    );
    let long = OIDCApplicationSpec {
        clock_skew: Some("600000000000ns".to_string()),
        ..spec(&[])
    };
    assert_eq!(
        OidcSettings::from_spec(&long).expect("valid settings").clock_skew,
        Some("600s".to_string())
    );
}

#[test]
fn what_is_read_in_a_skew_decides() {
    assert_eq!(
        parsed_skew_to_zitadel("1500ms", Ok(Duration { secs: 1, nanos: 500_000_000 }))
            .expect("valid"),
        "1.5s"
    );
    assert_eq!(
        parsed_skew_to_zitadel("x", Err("what?".to_string())).unwrap_err().text(),
        "clock skew \"x\": what?"
    );
}

#[test]
fn fractions_of_seconds_are_written_out() {
    let of = |secs, nanos| duration_to_zitadel(Duration { secs, nanos });
    assert_eq!(of(1, 500_000_000), "1.5s");
    assert_eq!(of(0, 1), "0.000000001s");
    assert_eq!(of(0, 0), "0s");
    assert_eq!(of(3600, 0), "3600s");
}

#[test]
fn settings_match_ignores_order() {
    let settings = OidcSettings::from_spec(&two_uris()).expect("valid settings");
    assert!(settings.matches(&reported()));
    let drifted = OidcConfig {
        dev_mode: Some(true),
        ..reported()
    };
    assert!(!settings.matches(&drifted));
    let drifted = OidcConfig {
        redirect_uris: Some(texts(&["https://a/cb"])),
        ..reported()
    };
    assert!(!settings.matches(&drifted));
}

#[test]
fn every_setting_is_compared() {
    let settings = OidcSettings::from_spec(&two_uris()).expect("valid settings");
    let drifts = vec![
        OidcConfig {
            redirect_uris: Some(texts(&["https://a/cb", "https://a/cb"])),
            ..reported()
        },
        OidcConfig {
            post_logout_redirect_uris: Some(texts(&["https://a"])),
            ..reported()
        },
        OidcConfig {
            app_type: Some(V1OidcAppType::Native),
            ..reported()
        },
        OidcConfig {
            app_type: None,
            ..reported()
        },
        OidcConfig {
            auth_method_type: Some(V1OidcAuthMethodType::Basic),
            ..reported()
        },
        OidcConfig {
            auth_method_type: None,
            ..reported()
        },
        OidcConfig {
            grant_types: None,
            ..reported()
        },
        OidcConfig {
            grant_types: Some(vec![V1OidcGrantType::AuthorizationCode]),
            ..reported()
        },
        OidcConfig {
            response_types: Some(vec![V1OidcResponseType::IdToken]),
            ..reported()
        },
        OidcConfig {
            access_token_type: Some(V1OidcTokenType::Jwt),
            ..reported()
        },
        OidcConfig {
            access_token_type: None,
            ..reported()
        },
        OidcConfig {
            access_token_role_assertion: Some(true),
            ..reported()
        },
        OidcConfig {
            id_token_role_assertion: Some(true),
            ..reported()
        },
        OidcConfig {
            id_token_userinfo_assertion: Some(true),
            ..reported()
        },
        OidcConfig {
            additional_origins: Some(texts(&["https://o"])),
            ..reported()
        },
        OidcConfig {
            clock_skew: Some("1s".to_string()),
            ..reported()
        },
        OidcConfig {
            back_channel_logout_uri: Some("https://b".to_string()),
            ..reported()
        },
        OidcConfig {
            skip_native_app_success_page: Some(true),
            ..reported()
        },
    ];
    for drifted in drifts {
        assert!(!settings.matches(&drifted));
    }
}

#[test]
fn absent_and_empty_are_the_same() {
    let settings = OidcSettings::from_spec(&two_uris()).expect("valid settings");
    let sparse = OidcConfig {
        post_logout_redirect_uris: None,
        access_token_role_assertion: Some(false),
        clock_skew: Some(String::new()),
        back_channel_logout_uri: Some(String::new()),
        ..reported()
    };
    assert!(settings.matches(&sparse));
    let sparse = OidcConfig {
        clock_skew: None,
        ..reported()
    };
    assert!(settings.matches(&sparse));
}

#[test]
fn an_empty_logout_uri_is_an_absent_one() {
    let spec = OIDCApplicationSpec {
        back_channel_logout_uri: Some(String::new()),
        ..two_uris()
    };
    let settings = OidcSettings::from_spec(&spec).expect("valid settings");
    let stored = OidcConfig {
        back_channel_logout_uri: Some(String::new()),
        ..reported()
    };
    assert!(settings.matches(&stored));
    let unset = OidcConfig {
        back_channel_logout_uri: None,
        ..reported()
    };
    assert!(settings.matches(&unset));
    let other = OidcConfig {
        back_channel_logout_uri: Some("https://a/logout".to_string()),
        ..reported()
    };
    assert!(!settings.matches(&other));
}

#[test]
fn stored_settings_are_a_match() {
    let spec = OIDCApplicationSpec {
        clock_skew: Some("1500ms".to_string()),
        back_channel_logout_uri: Some("https://a/logout".to_string()),
        ..two_uris()
    };
    let settings = OidcSettings::from_spec(&spec).expect("valid settings");
    let stored = OidcConfig {
        clock_skew: Some("1.5s".to_string()),
        back_channel_logout_uri: Some("https://a/logout".to_string()),
        ..reported()
    };
    assert!(settings.matches(&stored));
}

#[test]
fn what_is_left_out_is_stored_too() {
    let spec = OIDCApplicationSpec {
        back_channel_logout_uri: Some(String::new()),
        clock_skew: Some("0s".to_string()),
        ..two_uris()
    };
    let settings = OidcSettings::from_spec(&spec).expect("valid settings");
    let sparse = OidcConfig {
        post_logout_redirect_uris: None,
        access_token_role_assertion: None,
        id_token_role_assertion: None,
        id_token_userinfo_assertion: None,
        dev_mode: None,
        additional_origins: None,
        clock_skew: None,
        back_channel_logout_uri: None,
        skip_native_app_success_page: None,
        ..reported()
    };
    assert!(settings.matches(&sparse));
}

#[test]
fn update_body_has_no_name() {
    let settings = OidcSettings::from_spec(&spec(&["https://a/cb"])).expect("valid settings");
    let body = value(settings.update_body());
    assert!(body.get("name").is_none());
    assert_eq!(body["redirectUris"], Value::from(vec!["https://a/cb"]));
    assert_eq!(
        body["grantTypes"],
        Value::from(vec!["OIDC_GRANT_TYPE_AUTHORIZATION_CODE"])
    );
    assert_eq!(
        body["authMethodType"],
        Value::from("OIDC_AUTH_METHOD_TYPE_NONE")
    );
}

#[test]
fn bodies_are_those_of_the_client_library() {
    let rich = OIDCApplicationSpec {
        redirect_uris: texts(&["https://a/cb", "https://b/cb"]),
        post_logout_redirect_uris: texts(&["https://a/"]),
        app_type: cnoidc::crd::AppType::UserAgent,
        auth_method: AuthMethod::Post,
        grant_types: vec![
            GrantType::TokenExchange,
            GrantType::DeviceCode,
            GrantType::Implicit,
            GrantType::RefreshToken,
            GrantType::AuthorizationCode,
        ],
        response_types: vec![
            ResponseType::IdTokenToken,
            ResponseType::IdToken,
            ResponseType::Code,
        ],
        access_token_type: cnoidc::crd::AccessTokenType::Jwt,
        access_token_role_assertion: true,
        id_token_role_assertion: true,
        id_token_userinfo_assertion: true,
        dev_mode: true,
        additional_origins: texts(&["https://o"]),
        clock_skew: Some("2s".to_string()),
        back_channel_logout_uri: Some("https://a/out".to_string()),
        skip_native_app_success_page: true,
        config_map_name: None,
        secret_name: None,
    };
    let settings = OidcSettings::from_spec(&rich).expect("valid settings");
    let body = client::ManagementServiceAddOidcAppBody::new("shop/frontend".to_string())
        .with_redirect_uris(texts(&["https://a/cb", "https://b/cb"]))
        .with_post_logout_redirect_uris(texts(&["https://a/"]))
        .with_response_types(vec![
            client::V1OidcResponseType::Code,
            client::V1OidcResponseType::IdToken,
            client::V1OidcResponseType::IdTokenToken,
        ])
        .with_grant_types(vec![
            client::V1OidcGrantType::AuthorizationCode,
            client::V1OidcGrantType::Implicit,
            client::V1OidcGrantType::RefreshToken,
            client::V1OidcGrantType::DeviceCode,
            client::V1OidcGrantType::TokenExchange,
        ])
        .with_app_type(client::V1OidcAppType::UserAgent)
        .with_auth_method_type(client::V1OidcAuthMethodType::Post)
        .with_version(client::V1OidcVersion::V1_0)
        .with_dev_mode(true)
        .with_access_token_type(client::V1OidcTokenType::Jwt)
        .with_access_token_role_assertion(true)
        .with_id_token_role_assertion(true)
        .with_id_token_userinfo_assertion(true)
        .with_additional_origins(texts(&["https://o"]))
        .with_skip_native_app_success_page(true)
        .with_clock_skew("2s".to_string())
        .with_back_channel_logout_uri("https://a/out".to_string());
    let mut want = serde_json::to_value(body).expect("serializes");
    assert_eq!(value(settings.add_body("shop/frontend")), want);
    let object = want.as_object_mut().expect("object");
    object.remove("name");
    object.remove("version");
    assert_eq!(value(settings.update_body()), want);

    let settings = OidcSettings::from_spec(&spec(&["https://a/cb"])).expect("valid settings");
    let body = client::ManagementServiceAddOidcAppBody::new("a/b".to_string())
        .with_redirect_uris(texts(&["https://a/cb"]))
        .with_post_logout_redirect_uris(vec![])
        .with_response_types(vec![client::V1OidcResponseType::Code])
        .with_grant_types(vec![client::V1OidcGrantType::AuthorizationCode])
        .with_app_type(client::V1OidcAppType::Web)
        .with_auth_method_type(client::V1OidcAuthMethodType::None)
        .with_version(client::V1OidcVersion::V1_0)
        .with_dev_mode(false)
        .with_access_token_type(client::V1OidcTokenType::Bearer)
        .with_access_token_role_assertion(false)
        .with_id_token_role_assertion(false)
        .with_id_token_userinfo_assertion(false)
        .with_additional_origins(vec![])
        .with_skip_native_app_success_page(false);
    assert_eq!(
        value(settings.add_body("a/b")),
        serde_json::to_value(body).expect("serializes")
    );
}

#[test]
fn bodies_hold_every_setting() {
    let settings = OidcSettings::from_spec(&OIDCApplicationSpec {
        auth_method: AuthMethod::Basic,
        clock_skew: Some("1500ms".to_string()),
        ..two_uris()
    })
    .expect("valid settings");
    let want = r#"{
        "name": "a \"b\"",
        "version": "OIDC_VERSION_1_0",
        "redirectUris": ["https://a/cb", "https://b/cb"],
        "responseTypes": ["OIDC_RESPONSE_TYPE_CODE"],
        "grantTypes": ["OIDC_GRANT_TYPE_AUTHORIZATION_CODE", "OIDC_GRANT_TYPE_REFRESH_TOKEN"],
        "appType": "OIDC_APP_TYPE_WEB",
        "authMethodType": "OIDC_AUTH_METHOD_TYPE_BASIC",
        "postLogoutRedirectUris": [],
        "devMode": false,
        "accessTokenType": "OIDC_TOKEN_TYPE_BEARER",
        "accessTokenRoleAssertion": false,
        "idTokenRoleAssertion": false,
        "idTokenUserinfoAssertion": false,
        "clockSkew": "1.5s",
        "additionalOrigins": [],
        "skipNativeAppSuccessPage": false,
        "backChannelLogoutUri": null,
        "loginVersion": null
    }"#;
    let mut want: Value = serde_json::from_str(want).expect("JSON");
    assert_eq!(value(settings.add_body("a \"b\"")), want);
    let object = want.as_object_mut().expect("object");
    object.remove("name");
    object.remove("version");
    assert_eq!(value(settings.update_body()), want);
}

#[test]
fn wire_names_are_those_of_the_client_library() {
    let wire = |v: Value| v.as_str().expect("text").to_string();
    let json = |v| wire(serde_json::to_value::<client::V1OidcAppType>(v).expect("serializes"));
    assert_eq!(V1OidcAppType::Web.wire_name(), json(client::V1OidcAppType::Web));
    assert_eq!(
        V1OidcAppType::UserAgent.wire_name(),
        json(client::V1OidcAppType::UserAgent)
    );
    assert_eq!(
        V1OidcAppType::Native.wire_name(),
        json(client::V1OidcAppType::Native)
    );
    let json =
        |v| wire(serde_json::to_value::<client::V1OidcAuthMethodType>(v).expect("serializes"));
    assert_eq!(
        V1OidcAuthMethodType::Basic.wire_name(),
        json(client::V1OidcAuthMethodType::Basic)
    );
    assert_eq!(
        V1OidcAuthMethodType::Post.wire_name(),
        json(client::V1OidcAuthMethodType::Post)
    );
    assert_eq!(
        V1OidcAuthMethodType::Public.wire_name(),
        json(client::V1OidcAuthMethodType::None)
    );
    assert_eq!(
        V1OidcAuthMethodType::PrivateKeyJwt.wire_name(),
        json(client::V1OidcAuthMethodType::PrivateKeyJwt)
    );
    assert_eq!(
        V1OidcTokenType::Bearer.wire_name(),
        wire(serde_json::to_value(client::V1OidcTokenType::Bearer).expect("serializes"))
    );
    assert_eq!(
        V1OidcTokenType::Jwt.wire_name(),
        wire(serde_json::to_value(client::V1OidcTokenType::Jwt).expect("serializes"))
    );
}

#[test]
fn lists_are_ordered_and_without_duplicates() {
    assert_eq!(
        order_grants(&vec![
            GrantType::DeviceCode,
            GrantType::AuthorizationCode,
            GrantType::DeviceCode,
        ]),
        vec![
            V1OidcGrantType::AuthorizationCode,
            V1OidcGrantType::DeviceCode
        ]
    );
    assert_eq!(order_grants(&vec![]), vec![]);
    assert_eq!(
        order_responses(&vec![ResponseType::IdTokenToken, ResponseType::Code]),
        vec![V1OidcResponseType::Code, V1OidcResponseType::IdTokenToken]
    );
}

#[test]
fn an_invalid_skew_is_refused() {
    let spec = OIDCApplicationSpec {
        clock_skew: Some("5 parsecs".to_string()),
        ..spec(&[])
    };
    let failure = OidcSettings::from_spec(&spec).unwrap_err();
    assert!(failure.text().starts_with("clock skew \"5 parsecs\": unknown time unit"));
}
