use cnoidc::crd::ObjectMeta;
use cnoidc::kubernetes::{
    is_owned_by, managed_labels, owned_selector, owner_reference, ready_condition, secret_has,
    secret_is, StoredSecret,
};
use cnoidc::time::Timestamp;

const NOW: Timestamp = Timestamp { secs: 5, nanos: 6 };

fn meta(name: Option<&str>, uid: Option<&str>) -> ObjectMeta {
    ObjectMeta {
        name: name.map(str::to_string),
        generate_name: None,
        namespace: Some("shop".to_string()),
        uid: uid.map(str::to_string),
        generation: None,
    }
}

#[test]
fn conditions_carry_generation() {
    let condition = ready_condition(Some(3), false, "SyncFailed", "boom", NOW);
    assert_eq!(condition.type_, "Ready");
    assert_eq!(condition.status, "False");
    assert_eq!(condition.observed_generation, Some(3));
}

#[test]
fn conditions_say_what_happened() {
    let condition = ready_condition(None, true, "Synced", "all is well", NOW);
    assert_eq!(condition.status, "True");
    assert_eq!(condition.reason, "Synced");
    assert_eq!(condition.message, "all is well");
    assert_eq!(condition.observed_generation, None);
    assert_eq!(condition.last_transition_time, NOW);
}

#[test]
fn long_messages_are_cut() {
    let condition = ready_condition(None, false, "SyncFailed", &"ü".repeat(5000), NOW);
    assert_eq!(condition.message, "ü".repeat(4096));
    let condition = ready_condition(None, false, "SyncFailed", &"x".repeat(4096), NOW);
    assert_eq!(condition.message.len(), 4096);
}

#[test]
fn owners_are_referred_to_as_controllers() {
    let reference = owner_reference("OIDCApplication", &meta(Some("frontend"), Some("u-1")));
    assert_eq!(reference.api_version, "cnoidc.famedly.com/v1alpha1");
    assert_eq!(reference.kind, "OIDCApplication");
    assert_eq!(reference.name, "frontend");
    assert_eq!(reference.uid, "u-1");
    assert_eq!(reference.controller, Some(true));
    assert_eq!(reference.block_owner_deletion, Some(true));
}

#[test]
fn owner_references_are_those_of_the_cluster_client() {
    for (name, uid) in [
        (Some("a"), Some("u")),
        (Some("a"), None),
        (None, Some("u")),
        (None, None),
    ] {
        let mut object = k8s_openapi::api::core::v1::ConfigMap::default();
        object.metadata.name = name.map(str::to_string);
        object.metadata.uid = uid.map(str::to_string);
        let theirs = kube::Resource::controller_owner_ref(&object, &()).unwrap_or_default();
        let ours = owner_reference("ConfigMap", &meta(name, uid));
        assert_eq!(ours.name, theirs.name);
        assert_eq!(ours.uid, theirs.uid);
        assert_eq!(ours.kind, theirs.kind);
        assert_eq!(ours.controller, theirs.controller);
        assert_eq!(ours.api_version.is_empty(), theirs.api_version.is_empty());
        assert_eq!(ours.block_owner_deletion, Some(true));
    }
}

#[test]
fn ownership_goes_by_uid() {
    let owners = vec!["u-0".to_string(), "u-1".to_string()];
    assert!(is_owned_by(&owners, &meta(Some("a"), Some("u-1"))));
    assert!(!is_owned_by(&owners, &meta(Some("a"), Some("u-2"))));
    assert!(!is_owned_by(&owners, &meta(Some("a"), None)));
    assert!(!is_owned_by(&vec![], &meta(Some("a"), Some("u-1"))));
}

#[test]
fn what_is_written_is_labelled() {
    assert_eq!(
        managed_labels(),
        vec![(
            "app.kubernetes.io/managed-by".to_string(),
            "cnoidc".to_string()
        )]
    );
    assert_eq!(owned_selector(), "app.kubernetes.io/managed-by=cnoidc");
}

#[test]
fn secrets_are_compared_by_bytes() {
    let secret = StoredSecret {
        owner_uids: vec![],
        data: Some(vec![
            ("OIDC_CLIENT_ID".to_string(), "ü".as_bytes().to_vec()),
            ("OIDC_CLIENT_SECRET".to_string(), vec![]),
        ]),
    };
    assert!(secret_has(&secret, "OIDC_CLIENT_ID"));
    assert!(!secret_has(&secret, "OIDC_CLIENT_SECRET"));
    assert!(!secret_has(&secret, "OTHER"));
    assert!(secret_is(&secret, "OIDC_CLIENT_ID", "ü"));
    assert!(!secret_is(&secret, "OIDC_CLIENT_ID", "u"));
    assert!(secret_is(&secret, "OIDC_CLIENT_SECRET", ""));
    assert!(!secret_is(&secret, "OTHER", ""));
    let bare = StoredSecret {
        owner_uids: vec![],
        data: None,
    };
    assert!(!secret_has(&bare, "OIDC_CLIENT_ID"));
    assert!(!secret_is(&bare, "OIDC_CLIENT_ID", ""));
}
