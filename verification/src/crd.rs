//! Custom resources. Both kinds live in the API group
//! `cnoidc.famedly.com/v1alpha1` and are namespaced.

use vstd::prelude::*;
use vstd::string::*;

use crate::text::{opt_view, views};
use crate::time::Timestamp;

verus! {

/// API version of both kinds.
pub const API_VERSION: &'static str = "cnoidc.famedly.com/v1alpha1";

/// Kind of [`OIDCApplication`].
pub const APPLICATION_KIND: &'static str = "OIDCApplication";

/// Kind of [`ProjectRole`].
pub const ROLE_KIND: &'static str = "ProjectRole";

/// Finalizer the operator puts on its resources so that the Zitadel side is
/// cleaned up before Kubernetes forgets about them.
pub const FINALIZER: &'static str = "cnoidc.famedly.com/cleanup";

/// Type of the single condition the operator maintains on its resources.
pub const CONDITION_READY: &'static str = "Ready";

/// The part of Kubernetes' object metadata that the operator reads.
#[derive(Clone, Debug)]
pub struct ObjectMeta {
    pub name: Option<String>,
    pub generate_name: Option<String>,
    pub namespace: Option<String>,
    pub uid: Option<String>,
    pub generation: Option<i64>,
}

impl ObjectMeta {
    /// The most useful name there is: the name, else the name prefix, else
    /// nothing.
    pub open spec fn any_name(self) -> Seq<char> {
        match (self.name, self.generate_name) {
            (Some(name), _) => name@,
            (None, Some(prefix)) => prefix@,
            (None, None) => Seq::empty(),
        }
    }

    /// The most useful name there is.
    pub fn name_any(&self) -> (r: String)
        ensures
            r@ == self.any_name(),
    {
        match (&self.name, &self.generate_name) {
            (Some(name), _) => name.clone(),
            (None, Some(prefix)) => prefix.clone(),
            (None, None) => String::new(),
        }
    }
}

/// An OIDC application in the cluster's Zitadel project.
///
/// The operator creates (or adopts, by name) the application in Zitadel,
/// keeps its configuration in sync with the spec and publishes the client
/// ID, project ID and Zitadel URL in a ConfigMap next to the resource. For
/// confidential clients (`authMethod: basic` or `post`) the client secret is
/// placed in a Secret.
#[derive(Clone, Debug)]
pub struct OIDCApplication {
    pub metadata: ObjectMeta,
    pub spec: OIDCApplicationSpec,
    pub status: Option<OIDCApplicationStatus>,
}

#[derive(Clone, Debug)]
pub struct OIDCApplicationSpec {
    /// Allowed redirect URIs after login.
    pub redirect_uris: Vec<String>,
    /// Allowed redirect URIs after logout.
    pub post_logout_redirect_uris: Vec<String>,
    /// Kind of client: `web` (server-side, may hold a secret), `userAgent`
    /// (browser SPA) or `native` (mobile/desktop).
    pub app_type: AppType,
    /// How the client authenticates at the token endpoint. `none` means
    /// public client with PKCE (the default); `basic` and `post` get a client
    /// secret, `privateKeyJwt` uses a key registered on the application.
    pub auth_method: AuthMethod,
    /// OAuth 2.0 grant types the client may use. Defaults to
    /// `[authorizationCode]`.
    pub grant_types: Vec<GrantType>,
    /// OAuth 2.0 response types the client may request. Defaults to `[code]`.
    pub response_types: Vec<ResponseType>,
    /// Format of the access tokens issued to this client.
    pub access_token_type: AccessTokenType,
    /// Put the user's project roles into the access token.
    pub access_token_role_assertion: bool,
    /// Put the user's project roles into the ID token.
    pub id_token_role_assertion: bool,
    /// Put the user info claims (profile, email, ...) into the ID token.
    pub id_token_userinfo_assertion: bool,
    /// Allow `http://` redirect URIs and skip other production checks. Only
    /// for development.
    pub dev_mode: bool,
    /// Additional origins (scheme://host[:port]) allowed for CORS, on top of
    /// those derived from the redirect URIs.
    pub additional_origins: Vec<String>,
    /// Clock skew tolerated when validating tokens, e.g. `5s`. Zitadel allows
    /// at most `5s`.
    pub clock_skew: Option<String>,
    /// URI Zitadel calls for back-channel logout.
    pub back_channel_logout_uri: Option<String>,
    /// Skip the success page shown to native apps after login.
    pub skip_native_app_success_page: bool,
    /// Name of the ConfigMap the operator writes the client ID and related
    /// settings to. Defaults to `<name>-oidc`.
    pub config_map_name: Option<String>,
    /// Name of the Secret the client secret is written to, for `authMethod:
    /// basic` or `post`. Defaults to `<name>-oidc`.
    pub secret_name: Option<String>,
}

impl Default for OIDCApplicationSpec {
    /// A public authorization-code client with PKCE and no redirect URIs.
    fn default() -> (r: OIDCApplicationSpec)
        ensures
            r.redirect_uris@.len() == 0,
            r.post_logout_redirect_uris@.len() == 0,
            r.app_type == AppType::Web,
            r.auth_method == AuthMethod::Public,
            r.grant_types@ == seq![GrantType::AuthorizationCode],
            r.response_types@ == seq![ResponseType::Code],
            r.access_token_type == AccessTokenType::Bearer,
            !r.access_token_role_assertion,
            !r.id_token_role_assertion,
            !r.id_token_userinfo_assertion,
            !r.dev_mode,
            r.additional_origins@.len() == 0,
            r.clock_skew is None,
            r.back_channel_logout_uri is None,
            !r.skip_native_app_success_page,
            r.config_map_name is None,
            r.secret_name is None,
    {
        OIDCApplicationSpec {
            redirect_uris: Vec::new(),
            post_logout_redirect_uris: Vec::new(),
            app_type: AppType::Web,
            auth_method: AuthMethod::Public,
            grant_types: default_grant_types(),
            response_types: default_response_types(),
            access_token_type: AccessTokenType::Bearer,
            access_token_role_assertion: false,
            id_token_role_assertion: false,
            id_token_userinfo_assertion: false,
            dev_mode: false,
            additional_origins: Vec::new(),
            clock_skew: None,
            back_channel_logout_uri: None,
            skip_native_app_success_page: false,
            config_map_name: None,
            secret_name: None,
        }
    }
}

#[derive(Clone, Copy, Debug, PartialEq, Eq, Structural)]
pub enum AppType {
    Web,
    UserAgent,
    Native,
}

#[derive(Clone, Copy, Debug, PartialEq, Eq, Structural)]
pub enum AuthMethod {
    /// `none`: a public client.
    Public,
    Basic,
    Post,
    PrivateKeyJwt,
}

impl AuthMethod {
    /// Whether Zitadel issues a client secret for this method.
    pub open spec fn has_secret(self) -> bool {
        self is Basic || self is Post
    }

    /// Whether Zitadel issues a client secret for this method.
    pub fn uses_client_secret(self) -> (r: bool)
        ensures
            r == self.has_secret(),
    {
        matches!(self, AuthMethod::Basic | AuthMethod::Post)
    }
}

#[derive(Clone, Copy, Debug, PartialEq, Eq, PartialOrd, Ord, Structural)]
pub enum GrantType {
    AuthorizationCode,
    Implicit,
    RefreshToken,
    DeviceCode,
    TokenExchange,
}

#[derive(Clone, Copy, Debug, PartialEq, Eq, PartialOrd, Ord, Structural)]
pub enum ResponseType {
    Code,
    IdToken,
    IdTokenToken,
}

#[derive(Clone, Copy, Debug, PartialEq, Eq, Structural)]
pub enum AccessTokenType {
    Bearer,
    Jwt,
}

impl Default for AppType {
    fn default() -> (r: AppType)
        ensures
            r == AppType::Web,
    {
        AppType::Web
    }
}

impl Default for AuthMethod {
    fn default() -> (r: AuthMethod)
        ensures
            r == AuthMethod::Public,
    {
        AuthMethod::Public
    }
}

impl Default for AccessTokenType {
    fn default() -> (r: AccessTokenType)
        ensures
            r == AccessTokenType::Bearer,
    {
        AccessTokenType::Bearer
    }
}

/// Grant types of an application that names none.
pub fn default_grant_types() -> (r: Vec<GrantType>)
    ensures
        r@ == seq![GrantType::AuthorizationCode],
{
    let mut r: Vec<GrantType> = Vec::new();
    r.push(GrantType::AuthorizationCode);
    assert(r@ =~= seq![GrantType::AuthorizationCode]);
    r
}

/// Response types of an application that names none.
pub fn default_response_types() -> (r: Vec<ResponseType>)
    ensures
        r@ == seq![ResponseType::Code],
{
    let mut r: Vec<ResponseType> = Vec::new();
    r.push(ResponseType::Code);
    assert(r@ =~= seq![ResponseType::Code]);
    r
}

/// A condition in a resource's status.
#[derive(Clone, Debug)]
pub struct Condition {
    pub type_: String,
    pub status: String,
    pub reason: String,
    pub message: String,
    pub observed_generation: Option<i64>,
    pub last_transition_time: Timestamp,
}

/// A condition as seen by contracts.
pub struct ConditionView {
    pub type_: Seq<char>,
    pub status: Seq<char>,
    pub reason: Seq<char>,
    pub message: Seq<char>,
    pub observed_generation: Option<i64>,
    pub last_transition_time: Timestamp,
}

impl View for Condition {
    type V = ConditionView;

    open spec fn view(&self) -> ConditionView {
        ConditionView {
            type_: self.type_@,
            status: self.status@,
            reason: self.reason@,
            message: self.message@,
            observed_generation: self.observed_generation,
            last_transition_time: self.last_transition_time,
        }
    }
}

/// The conditions of a list.
pub open spec fn condition_views(list: Seq<Condition>) -> Seq<ConditionView> {
    list.map_values(|c: Condition| c@)
}

#[derive(Clone, Debug)]
pub struct OIDCApplicationStatus {
    /// Generation of the spec the status reflects.
    pub observed_generation: Option<i64>,
    /// ID of the application in Zitadel.
    pub application_id: Option<String>,
    /// OIDC client ID assigned by Zitadel.
    pub client_id: Option<String>,
    /// ID of the Zitadel project the application lives in.
    pub project_id: Option<String>,
    /// Name of the ConfigMap the settings were written to.
    pub config_map: Option<String>,
    /// Name of the Secret holding the client secret, if any.
    pub secret: Option<String>,
    pub conditions: Vec<Condition>,
}

/// The status of an application as seen by contracts.
#[verifier::ext_equal]
pub struct ApplicationStatusView {
    pub observed_generation: Option<i64>,
    pub application_id: Option<Seq<char>>,
    pub client_id: Option<Seq<char>>,
    pub project_id: Option<Seq<char>>,
    pub config_map: Option<Seq<char>>,
    pub secret: Option<Seq<char>>,
    pub conditions: Seq<ConditionView>,
}

impl View for OIDCApplicationStatus {
    type V = ApplicationStatusView;

    open spec fn view(&self) -> ApplicationStatusView {
        ApplicationStatusView {
            observed_generation: self.observed_generation,
            application_id: opt_view(self.application_id),
            client_id: opt_view(self.client_id),
            project_id: opt_view(self.project_id),
            config_map: opt_view(self.config_map),
            secret: opt_view(self.secret),
            conditions: condition_views(self.conditions@),
        }
    }
}

impl ApplicationStatusView {
    /// The status of an application that was never reconciled.
    pub open spec fn none() -> ApplicationStatusView {
        ApplicationStatusView {
            observed_generation: None,
            application_id: None,
            client_id: None,
            project_id: None,
            config_map: None,
            secret: None,
            conditions: Seq::empty(),
        }
    }
}

impl Default for OIDCApplicationStatus {
    fn default() -> (r: OIDCApplicationStatus)
        ensures
            r@ == ApplicationStatusView::none(),
    {
        OIDCApplicationStatus {
            observed_generation: None,
            application_id: None,
            client_id: None,
            project_id: None,
            config_map: None,
            secret: None,
            conditions: Vec::new(),
        }
    }
}

/// A role in the cluster's Zitadel project.
///
/// Zitadel identifies roles by their key; the operator creates the role and
/// publishes the key together with the project ID, Zitadel URL and the name
/// of the token claim carrying project roles in a ConfigMap. Keys must be
/// unique across the cluster.
#[derive(Clone, Debug)]
pub struct ProjectRole {
    pub metadata: ObjectMeta,
    pub spec: ProjectRoleSpec,
    pub status: Option<ProjectRoleStatus>,
}

#[derive(Clone, Debug)]
pub struct ProjectRoleSpec {
    /// Role key, the identifier Zitadel puts into tokens. Defaults to the
    /// resource name. Immutable once the role exists.
    pub key: Option<String>,
    /// Human-readable name shown in the Zitadel console. Defaults to the key.
    pub display_name: Option<String>,
    /// Optional group the role is sorted into in the console.
    pub group: Option<String>,
    /// Name of the ConfigMap the operator writes the role key and related
    /// settings to. Defaults to `<name>-role`.
    pub config_map_name: Option<String>,
}

#[derive(Clone, Debug)]
pub struct ProjectRoleStatus {
    /// Generation of the spec the status reflects.
    pub observed_generation: Option<i64>,
    /// Key of the role in Zitadel.
    pub key: Option<String>,
    /// ID of the Zitadel project the role belongs to.
    pub project_id: Option<String>,
    /// Name of the ConfigMap the settings were written to.
    pub config_map: Option<String>,
    pub conditions: Vec<Condition>,
}

/// The status of a role as seen by contracts.
#[verifier::ext_equal]
pub struct RoleStatusView {
    pub observed_generation: Option<i64>,
    pub key: Option<Seq<char>>,
    pub project_id: Option<Seq<char>>,
    pub config_map: Option<Seq<char>>,
    pub conditions: Seq<ConditionView>,
}

impl View for ProjectRoleStatus {
    type V = RoleStatusView;

    open spec fn view(&self) -> RoleStatusView {
        RoleStatusView {
            observed_generation: self.observed_generation,
            key: opt_view(self.key),
            project_id: opt_view(self.project_id),
            config_map: opt_view(self.config_map),
            conditions: condition_views(self.conditions@),
        }
    }
}

impl RoleStatusView {
    /// The status of a role that was never reconciled.
    pub open spec fn none() -> RoleStatusView {
        RoleStatusView {
            observed_generation: None,
            key: None,
            project_id: None,
            config_map: None,
            conditions: Seq::empty(),
        }
    }
}

impl Default for ProjectRoleStatus {
    fn default() -> (r: ProjectRoleStatus)
        ensures
            r@ == RoleStatusView::none(),
    {
        ProjectRoleStatus {
            observed_generation: None,
            key: None,
            project_id: None,
            config_map: None,
            conditions: Vec::new(),
        }
    }
}

/// Documents one after the other, each introduced by a line of three dashes.
pub open spec fn multi_document(documents: Seq<Seq<char>>) -> Seq<char>
    decreases documents.len(),
{
    if documents.len() == 0 {
        Seq::empty()
    } else {
        multi_document(documents.drop_last()) + "---\n"@ + documents.last()
    }
}

/// The definitions of the custom resources, each given as a YAML document,
/// as one multi-document YAML text.
pub fn definitions_yaml(documents: &Vec<String>) -> (r: String)
    ensures
        r@ == multi_document(views(documents@)),
{
    let mut out = String::new();
    let mut i: usize = 0;
    let ghost all = views(documents@);
    proof {
        assert(out@ =~= multi_document(all.take(0)));
    }
    while i < documents.len()
        invariant
            i <= documents@.len(),
            all == views(documents@),
            out@ == multi_document(all.take(i as int)),
        decreases documents@.len() - i,
    {
        out.append("---\n");
        out.append(documents[i].as_str());
        proof {
            assert(all.take(i + 1).drop_last() =~= all.take(i as int));
        }
        i = i + 1;
    }
    proof {
        assert(all.take(i as int) =~= all);
    }
    out
}

// --- Laws

/// A resource goes by its name, else by the prefix that its name is generated
/// from.
pub proof fn resources_go_by_their_names(metadata: ObjectMeta)
    ensures
        metadata.name matches Some(name) ==> metadata.any_name() == name@,
        metadata.name is None ==> (metadata.generate_name matches Some(prefix)
            ==> metadata.any_name() == prefix@),
        metadata.name is None && metadata.generate_name is None ==> metadata.any_name().len() == 0,
{
}

/// The methods with a client secret are `basic` and `post`.
pub proof fn basic_and_post_have_secrets(method: AuthMethod)
    ensures
        method.has_secret() <==> method == AuthMethod::Basic || method == AuthMethod::Post,
{
}

/// Definitions are put out one after the other, each behind a line of three
/// dashes.
pub proof fn definitions_follow_each_other(documents: Seq<Seq<char>>, document: Seq<char>)
    ensures
        multi_document(Seq::<Seq<char>>::empty()).len() == 0,
        multi_document(documents.push(document)) == multi_document(documents) + "---\n"@ + document,
{
    assert(documents.push(document).drop_last() =~= documents);
}

/// Contracts speak of conditions and statuses as they are.
pub proof fn statuses_are_seen_as_they_are(
    condition: Condition,
    application: OIDCApplicationStatus,
    role: ProjectRoleStatus,
)
    ensures
        condition@.type_ == condition.type_@,
        condition@.status == condition.status@,
        condition@.reason == condition.reason@,
        condition@.message == condition.message@,
        condition@.observed_generation == condition.observed_generation,
        condition@.last_transition_time == condition.last_transition_time,
        application@.observed_generation == application.observed_generation,
        application@.application_id == opt_view(application.application_id),
        application@.client_id == opt_view(application.client_id),
        application@.project_id == opt_view(application.project_id),
        application@.config_map == opt_view(application.config_map),
        application@.secret == opt_view(application.secret),
        application@.conditions.len() == application.conditions@.len(),
        forall|i: int|
            0 <= i < application.conditions@.len() ==> #[trigger] application@.conditions[i]
                == application.conditions@[i]@,
        role@.observed_generation == role.observed_generation,
        role@.key == opt_view(role.key),
        role@.project_id == opt_view(role.project_id),
        role@.config_map == opt_view(role.config_map),
        role@.conditions.len() == role.conditions@.len(),
        forall|i: int|
            0 <= i < role.conditions@.len() ==> #[trigger] role@.conditions[i]
                == role.conditions@[i]@,
{
}

/// A status that says nothing names nothing.
pub proof fn no_status_names_nothing()
    ensures
        ({
            let none = ApplicationStatusView::none();
            &&& none.observed_generation is None
            &&& none.application_id is None
            &&& none.client_id is None
            &&& none.project_id is None
            &&& none.config_map is None
            &&& none.secret is None
            &&& none.conditions.len() == 0
        }),
        ({
            let none = RoleStatusView::none();
            &&& none.observed_generation is None
            &&& none.key is None
            &&& none.project_id is None
            &&& none.config_map is None
            &&& none.conditions.len() == 0
        }),
{
}

} // verus!
