use cnoidc::crd::{
    definitions_yaml, AccessTokenType, AppType, AuthMethod, GrantType, OIDCApplicationSpec,
    ObjectMeta, ResponseType,
};

#[test]
fn spec_defaults() {
    let spec = OIDCApplicationSpec {
        redirect_uris: vec!["https://a/cb".to_string()],
        ..OIDCApplicationSpec::default()
    };
    assert_eq!(spec.app_type, AppType::Web);
    assert_eq!(spec.auth_method, AuthMethod::Public);
    assert_eq!(spec.grant_types, vec![GrantType::AuthorizationCode]);
    assert_eq!(spec.response_types, vec![ResponseType::Code]);
    assert_eq!(spec.access_token_type, AccessTokenType::Bearer);
    assert!(!spec.dev_mode);
}

#[test]
fn choices_have_defaults() {
    assert_eq!(AppType::default(), AppType::Web);
    assert_eq!(AuthMethod::default(), AuthMethod::Public);
    assert_eq!(AccessTokenType::default(), AccessTokenType::Bearer);
}

#[test]
fn only_basic_and_post_use_a_secret() {
    assert!(AuthMethod::Basic.uses_client_secret());
    assert!(AuthMethod::Post.uses_client_secret());
    assert!(!AuthMethod::Public.uses_client_secret());
    assert!(!AuthMethod::PrivateKeyJwt.uses_client_secret());
}

#[test]
fn definitions_are_separate_documents() {
    let documents = vec!["a: 1\n".to_string(), "b: 2\n".to_string()];
    assert_eq!(definitions_yaml(&documents), "---\na: 1\n---\nb: 2\n");
    assert_eq!(definitions_yaml(&vec![]), "");
}

fn meta(name: Option<&str>, generate_name: Option<&str>) -> ObjectMeta {
    ObjectMeta {
        name: name.map(str::to_string),
        generate_name: generate_name.map(str::to_string),
        namespace: None,
        uid: None,
        generation: None,
    }
}

#[test]
fn names_fall_back_to_the_prefix() {
    assert_eq!(meta(Some("a"), Some("b-")).name_any(), "a");
    assert_eq!(meta(None, Some("b-")).name_any(), "b-");
    assert_eq!(meta(None, None).name_any(), "");
}

#[test]
fn names_are_those_of_the_cluster_client() {
    for (name, prefix) in [
        (Some("a"), Some("b-")),
        (None, Some("b-")),
        (Some("a"), None),
        (None, None),
    ] {
        let mut object = k8s_openapi::api::core::v1::ConfigMap::default();
        object.metadata.name = name.map(str::to_string);
        object.metadata.generate_name = prefix.map(str::to_string);
        assert_eq!(
            meta(name, prefix).name_any(),
            kube::ResourceExt::name_any(&object)
        );
    }
}
