//! Zitadel's names for the choices that an application's spec offers.

use vstd::prelude::*;
use vstd::std_specs::convert::FromSpec;

use crate::crd::{AccessTokenType, AppType, AuthMethod, GrantType, ResponseType};

verus! {

/// OIDC application type, as Zitadel knows it.
#[derive(Clone, Copy, Debug, PartialEq, Eq, Structural)]
pub enum V1OidcAppType {
    Web,
    UserAgent,
    Native,
}

impl V1OidcAppType {
    /// The value in Zitadel's JSON.
    pub open spec fn wire(self) -> Seq<char> {
        match self {
            V1OidcAppType::Web => "OIDC_APP_TYPE_WEB"@,
            V1OidcAppType::UserAgent => "OIDC_APP_TYPE_USER_AGENT"@,
            V1OidcAppType::Native => "OIDC_APP_TYPE_NATIVE"@,
        }
    }

    /// The value in Zitadel's JSON.
    pub fn wire_name(self) -> (r: &'static str)
        ensures
            r@ == self.wire(),
    {
        match self {
            V1OidcAppType::Web => "OIDC_APP_TYPE_WEB",
            V1OidcAppType::UserAgent => "OIDC_APP_TYPE_USER_AGENT",
            V1OidcAppType::Native => "OIDC_APP_TYPE_NATIVE",
        }
    }
}

impl From<AppType> for V1OidcAppType {
    fn from(value: AppType) -> (r: V1OidcAppType) {
        match value {
            AppType::Web => V1OidcAppType::Web,
            AppType::UserAgent => V1OidcAppType::UserAgent,
            AppType::Native => V1OidcAppType::Native,
        }
    }
}

impl vstd::std_specs::convert::FromSpecImpl<AppType> for V1OidcAppType {
    open spec fn obeys_from_spec() -> bool {
        true
    }

    open spec fn from_spec(value: AppType) -> V1OidcAppType {
        match value {
            AppType::Web => V1OidcAppType::Web,
            AppType::UserAgent => V1OidcAppType::UserAgent,
            AppType::Native => V1OidcAppType::Native,
        }
    }
}

/// OIDC authentication method, as Zitadel knows it.
#[derive(Clone, Copy, Debug, PartialEq, Eq, Structural)]
pub enum V1OidcAuthMethodType {
    Basic,
    Post,
    Public,
    PrivateKeyJwt,
}

impl V1OidcAuthMethodType {
    /// The value in Zitadel's JSON.
    pub open spec fn wire(self) -> Seq<char> {
        match self {
            V1OidcAuthMethodType::Basic => "OIDC_AUTH_METHOD_TYPE_BASIC"@,
            V1OidcAuthMethodType::Post => "OIDC_AUTH_METHOD_TYPE_POST"@,
            V1OidcAuthMethodType::Public => "OIDC_AUTH_METHOD_TYPE_NONE"@,
            V1OidcAuthMethodType::PrivateKeyJwt => "OIDC_AUTH_METHOD_TYPE_PRIVATE_KEY_JWT"@,
        }
    }

    /// The value in Zitadel's JSON.
    pub fn wire_name(self) -> (r: &'static str)
        ensures
            r@ == self.wire(),
    {
        match self {
            V1OidcAuthMethodType::Basic => "OIDC_AUTH_METHOD_TYPE_BASIC",
            V1OidcAuthMethodType::Post => "OIDC_AUTH_METHOD_TYPE_POST",
            V1OidcAuthMethodType::Public => "OIDC_AUTH_METHOD_TYPE_NONE",
            V1OidcAuthMethodType::PrivateKeyJwt => "OIDC_AUTH_METHOD_TYPE_PRIVATE_KEY_JWT",
        }
    }
}

impl From<AuthMethod> for V1OidcAuthMethodType {
    fn from(value: AuthMethod) -> (r: V1OidcAuthMethodType) {
        match value {
            AuthMethod::Basic => V1OidcAuthMethodType::Basic,
            AuthMethod::Post => V1OidcAuthMethodType::Post,
            AuthMethod::Public => V1OidcAuthMethodType::Public,
            AuthMethod::PrivateKeyJwt => V1OidcAuthMethodType::PrivateKeyJwt,
        }
    }
}

impl vstd::std_specs::convert::FromSpecImpl<AuthMethod> for V1OidcAuthMethodType {
    open spec fn obeys_from_spec() -> bool {
        true
    }

    open spec fn from_spec(value: AuthMethod) -> V1OidcAuthMethodType {
        match value {
            AuthMethod::Basic => V1OidcAuthMethodType::Basic,
            AuthMethod::Post => V1OidcAuthMethodType::Post,
            AuthMethod::Public => V1OidcAuthMethodType::Public,
            AuthMethod::PrivateKeyJwt => V1OidcAuthMethodType::PrivateKeyJwt,
        }
    }
}

/// OIDC grant type, as Zitadel knows it.
#[derive(Clone, Copy, Debug, PartialEq, Eq, Structural)]
pub enum V1OidcGrantType {
    AuthorizationCode,
    Implicit,
    RefreshToken,
    DeviceCode,
    TokenExchange,
}

impl V1OidcGrantType {
    /// The value in Zitadel's JSON.
    pub open spec fn wire(self) -> Seq<char> {
        match self {
            V1OidcGrantType::AuthorizationCode => "OIDC_GRANT_TYPE_AUTHORIZATION_CODE"@,
            V1OidcGrantType::Implicit => "OIDC_GRANT_TYPE_IMPLICIT"@,
            V1OidcGrantType::RefreshToken => "OIDC_GRANT_TYPE_REFRESH_TOKEN"@,
            V1OidcGrantType::DeviceCode => "OIDC_GRANT_TYPE_DEVICE_CODE"@,
            V1OidcGrantType::TokenExchange => "OIDC_GRANT_TYPE_TOKEN_EXCHANGE"@,
        }
    }

    /// The value in Zitadel's JSON.
    pub fn wire_name(self) -> (r: &'static str)
        ensures
            r@ == self.wire(),
    {
        match self {
            V1OidcGrantType::AuthorizationCode => "OIDC_GRANT_TYPE_AUTHORIZATION_CODE",
            V1OidcGrantType::Implicit => "OIDC_GRANT_TYPE_IMPLICIT",
            V1OidcGrantType::RefreshToken => "OIDC_GRANT_TYPE_REFRESH_TOKEN",
            V1OidcGrantType::DeviceCode => "OIDC_GRANT_TYPE_DEVICE_CODE",
            V1OidcGrantType::TokenExchange => "OIDC_GRANT_TYPE_TOKEN_EXCHANGE",
        }
    }
}

impl From<GrantType> for V1OidcGrantType {
    fn from(value: GrantType) -> (r: V1OidcGrantType) {
        match value {
            GrantType::AuthorizationCode => V1OidcGrantType::AuthorizationCode,
            GrantType::Implicit => V1OidcGrantType::Implicit,
            GrantType::RefreshToken => V1OidcGrantType::RefreshToken,
            GrantType::DeviceCode => V1OidcGrantType::DeviceCode,
            GrantType::TokenExchange => V1OidcGrantType::TokenExchange,
        }
    }
}

impl vstd::std_specs::convert::FromSpecImpl<GrantType> for V1OidcGrantType {
    open spec fn obeys_from_spec() -> bool {
        true
    }

    open spec fn from_spec(value: GrantType) -> V1OidcGrantType {
        match value {
            GrantType::AuthorizationCode => V1OidcGrantType::AuthorizationCode,
            GrantType::Implicit => V1OidcGrantType::Implicit,
            GrantType::RefreshToken => V1OidcGrantType::RefreshToken,
            GrantType::DeviceCode => V1OidcGrantType::DeviceCode,
            GrantType::TokenExchange => V1OidcGrantType::TokenExchange,
        }
    }
}

/// OIDC response type, as Zitadel knows it.
#[derive(Clone, Copy, Debug, PartialEq, Eq, Structural)]
pub enum V1OidcResponseType {
    Code,
    IdToken,
    IdTokenToken,
}

impl V1OidcResponseType {
    /// The value in Zitadel's JSON.
    pub open spec fn wire(self) -> Seq<char> {
        match self {
            V1OidcResponseType::Code => "OIDC_RESPONSE_TYPE_CODE"@,
            V1OidcResponseType::IdToken => "OIDC_RESPONSE_TYPE_ID_TOKEN"@,
            V1OidcResponseType::IdTokenToken => "OIDC_RESPONSE_TYPE_ID_TOKEN_TOKEN"@,
        }
    }

    /// The value in Zitadel's JSON.
    pub fn wire_name(self) -> (r: &'static str)
        ensures
            r@ == self.wire(),
    {
        match self {
            V1OidcResponseType::Code => "OIDC_RESPONSE_TYPE_CODE",
            V1OidcResponseType::IdToken => "OIDC_RESPONSE_TYPE_ID_TOKEN",
            V1OidcResponseType::IdTokenToken => "OIDC_RESPONSE_TYPE_ID_TOKEN_TOKEN",
        }
    }
}

impl From<ResponseType> for V1OidcResponseType {
    fn from(value: ResponseType) -> (r: V1OidcResponseType) {
        match value {
            ResponseType::Code => V1OidcResponseType::Code,
            ResponseType::IdToken => V1OidcResponseType::IdToken,
            ResponseType::IdTokenToken => V1OidcResponseType::IdTokenToken,
        }
    }
}

impl vstd::std_specs::convert::FromSpecImpl<ResponseType> for V1OidcResponseType {
    open spec fn obeys_from_spec() -> bool {
        true
    }

    open spec fn from_spec(value: ResponseType) -> V1OidcResponseType {
        match value {
            ResponseType::Code => V1OidcResponseType::Code,
            ResponseType::IdToken => V1OidcResponseType::IdToken,
            ResponseType::IdTokenToken => V1OidcResponseType::IdTokenToken,
        }
    }
}

/// OIDC access token type, as Zitadel knows it.
#[derive(Clone, Copy, Debug, PartialEq, Eq, Structural)]
pub enum V1OidcTokenType {
    Bearer,
    Jwt,
}

impl V1OidcTokenType {
    /// The value in Zitadel's JSON.
    pub open spec fn wire(self) -> Seq<char> {
        match self {
            V1OidcTokenType::Bearer => "OIDC_TOKEN_TYPE_BEARER"@,
            V1OidcTokenType::Jwt => "OIDC_TOKEN_TYPE_JWT"@,
        }
    }

    /// The value in Zitadel's JSON.
    pub fn wire_name(self) -> (r: &'static str)
        ensures
            r@ == self.wire(),
    {
        match self {
            V1OidcTokenType::Bearer => "OIDC_TOKEN_TYPE_BEARER",
            V1OidcTokenType::Jwt => "OIDC_TOKEN_TYPE_JWT",
        }
    }
}

impl From<AccessTokenType> for V1OidcTokenType {
    fn from(value: AccessTokenType) -> (r: V1OidcTokenType) {
        match value {
            AccessTokenType::Bearer => V1OidcTokenType::Bearer,
            AccessTokenType::Jwt => V1OidcTokenType::Jwt,
        }
    }
}

impl vstd::std_specs::convert::FromSpecImpl<AccessTokenType> for V1OidcTokenType {
    open spec fn obeys_from_spec() -> bool {
        true
    }

    open spec fn from_spec(value: AccessTokenType) -> V1OidcTokenType {
        match value {
            AccessTokenType::Bearer => V1OidcTokenType::Bearer,
            AccessTokenType::Jwt => V1OidcTokenType::Jwt,
        }
    }
}

// --- Laws

/// Two values are written alike only if they are the same, so that comparing
/// what is written compares the values.
pub proof fn app_type_is_told_by_its_name(a: V1OidcAppType, b: V1OidcAppType)
    requires
        a.wire() == b.wire(),
    ensures
        a == b,
{
    reveal_strlit("OIDC_APP_TYPE_WEB");
    reveal_strlit("OIDC_APP_TYPE_USER_AGENT");
    reveal_strlit("OIDC_APP_TYPE_NATIVE");
    assert("OIDC_APP_TYPE_WEB"@.len() == 17);
    assert("OIDC_APP_TYPE_USER_AGENT"@.len() == 24);
    assert("OIDC_APP_TYPE_NATIVE"@.len() == 20);
}

/// Two values are written alike only if they are the same, so that comparing
/// what is written compares the values.
pub proof fn auth_method_type_is_told_by_its_name(a: V1OidcAuthMethodType, b: V1OidcAuthMethodType)
    requires
        a.wire() == b.wire(),
    ensures
        a == b,
{
    reveal_strlit("OIDC_AUTH_METHOD_TYPE_BASIC");
    reveal_strlit("OIDC_AUTH_METHOD_TYPE_POST");
    reveal_strlit("OIDC_AUTH_METHOD_TYPE_NONE");
    reveal_strlit("OIDC_AUTH_METHOD_TYPE_PRIVATE_KEY_JWT");
    assert("OIDC_AUTH_METHOD_TYPE_BASIC"@.len() == 27);
    assert("OIDC_AUTH_METHOD_TYPE_POST"@.len() == 26);
    assert("OIDC_AUTH_METHOD_TYPE_NONE"@.len() == 26);
    assert("OIDC_AUTH_METHOD_TYPE_PRIVATE_KEY_JWT"@.len() == 37);
    assert("OIDC_AUTH_METHOD_TYPE_POST"@[22] == 'P');
    assert("OIDC_AUTH_METHOD_TYPE_NONE"@[22] == 'N');
}

/// Two values are written alike only if they are the same, so that comparing
/// what is written compares the values.
pub proof fn grant_type_is_told_by_its_name(a: V1OidcGrantType, b: V1OidcGrantType)
    requires
        a.wire() == b.wire(),
    ensures
        a == b,
{
    reveal_strlit("OIDC_GRANT_TYPE_AUTHORIZATION_CODE");
    reveal_strlit("OIDC_GRANT_TYPE_IMPLICIT");
    reveal_strlit("OIDC_GRANT_TYPE_REFRESH_TOKEN");
    reveal_strlit("OIDC_GRANT_TYPE_DEVICE_CODE");
    reveal_strlit("OIDC_GRANT_TYPE_TOKEN_EXCHANGE");
    assert("OIDC_GRANT_TYPE_AUTHORIZATION_CODE"@.len() == 34);
    assert("OIDC_GRANT_TYPE_IMPLICIT"@.len() == 24);
    assert("OIDC_GRANT_TYPE_REFRESH_TOKEN"@.len() == 29);
    assert("OIDC_GRANT_TYPE_DEVICE_CODE"@.len() == 27);
    assert("OIDC_GRANT_TYPE_TOKEN_EXCHANGE"@.len() == 30);
}

/// Two values are written alike only if they are the same, so that comparing
/// what is written compares the values.
pub proof fn response_type_is_told_by_its_name(a: V1OidcResponseType, b: V1OidcResponseType)
    requires
        a.wire() == b.wire(),
    ensures
        a == b,
{
    reveal_strlit("OIDC_RESPONSE_TYPE_CODE");
    reveal_strlit("OIDC_RESPONSE_TYPE_ID_TOKEN");
    reveal_strlit("OIDC_RESPONSE_TYPE_ID_TOKEN_TOKEN");
    assert("OIDC_RESPONSE_TYPE_CODE"@.len() == 23);
    assert("OIDC_RESPONSE_TYPE_ID_TOKEN"@.len() == 27);
    assert("OIDC_RESPONSE_TYPE_ID_TOKEN_TOKEN"@.len() == 33);
}

/// Two values are written alike only if they are the same, so that comparing
/// what is written compares the values.
pub proof fn token_type_is_told_by_its_name(a: V1OidcTokenType, b: V1OidcTokenType)
    requires
        a.wire() == b.wire(),
    ensures
        a == b,
{
    reveal_strlit("OIDC_TOKEN_TYPE_BEARER");
    reveal_strlit("OIDC_TOKEN_TYPE_JWT");
    assert("OIDC_TOKEN_TYPE_BEARER"@.len() == 22);
    assert("OIDC_TOKEN_TYPE_JWT"@.len() == 19);
}

/// A spec's application type is sent under its own name, so that specs that
/// differ in it are sent differently.
pub proof fn app_types_keep_their_names(a: AppType, b: AppType)
    ensures
        V1OidcAppType::from_spec(AppType::Web).wire() == "OIDC_APP_TYPE_WEB"@,
        V1OidcAppType::from_spec(AppType::UserAgent).wire() == "OIDC_APP_TYPE_USER_AGENT"@,
        V1OidcAppType::from_spec(AppType::Native).wire() == "OIDC_APP_TYPE_NATIVE"@,
        V1OidcAppType::from_spec(a).wire() == V1OidcAppType::from_spec(b).wire() ==> a == b,
{
    if V1OidcAppType::from_spec(a).wire() == V1OidcAppType::from_spec(b).wire() {
        app_type_is_told_by_its_name(V1OidcAppType::from_spec(a), V1OidcAppType::from_spec(b));
    }
}

/// A spec's authentication method is sent under its own name, `none` for a
/// public client, so that specs that differ in it are sent differently.
pub proof fn auth_methods_keep_their_names(a: AuthMethod, b: AuthMethod)
    ensures
        V1OidcAuthMethodType::from_spec(AuthMethod::Public).wire()
            == "OIDC_AUTH_METHOD_TYPE_NONE"@,
        V1OidcAuthMethodType::from_spec(AuthMethod::Basic).wire()
            == "OIDC_AUTH_METHOD_TYPE_BASIC"@,
        V1OidcAuthMethodType::from_spec(AuthMethod::Post).wire() == "OIDC_AUTH_METHOD_TYPE_POST"@,
        V1OidcAuthMethodType::from_spec(AuthMethod::PrivateKeyJwt).wire()
            == "OIDC_AUTH_METHOD_TYPE_PRIVATE_KEY_JWT"@,
        V1OidcAuthMethodType::from_spec(a).wire() == V1OidcAuthMethodType::from_spec(b).wire()
            ==> a == b,
{
    if V1OidcAuthMethodType::from_spec(a).wire() == V1OidcAuthMethodType::from_spec(b).wire() {
        auth_method_type_is_told_by_its_name(
            V1OidcAuthMethodType::from_spec(a),
            V1OidcAuthMethodType::from_spec(b),
        );
    }
}

/// A spec's grant types are sent under their own names, so that specs that
/// differ in them are sent differently.
pub proof fn grant_types_keep_their_names(a: GrantType, b: GrantType)
    ensures
        V1OidcGrantType::from_spec(GrantType::AuthorizationCode).wire()
            == "OIDC_GRANT_TYPE_AUTHORIZATION_CODE"@,
        V1OidcGrantType::from_spec(GrantType::Implicit).wire() == "OIDC_GRANT_TYPE_IMPLICIT"@,
        V1OidcGrantType::from_spec(GrantType::RefreshToken).wire()
            == "OIDC_GRANT_TYPE_REFRESH_TOKEN"@,
        V1OidcGrantType::from_spec(GrantType::DeviceCode).wire()
            == "OIDC_GRANT_TYPE_DEVICE_CODE"@,
        V1OidcGrantType::from_spec(GrantType::TokenExchange).wire()
            == "OIDC_GRANT_TYPE_TOKEN_EXCHANGE"@,
        V1OidcGrantType::from_spec(a).wire() == V1OidcGrantType::from_spec(b).wire() ==> a == b,
{
    if V1OidcGrantType::from_spec(a).wire() == V1OidcGrantType::from_spec(b).wire() {
        grant_type_is_told_by_its_name(
            V1OidcGrantType::from_spec(a),
            V1OidcGrantType::from_spec(b),
        );
    }
}

/// A spec's response types are sent under their own names, so that specs that
/// differ in them are sent differently.
pub proof fn response_types_keep_their_names(a: ResponseType, b: ResponseType)
    ensures
        V1OidcResponseType::from_spec(ResponseType::Code).wire() == "OIDC_RESPONSE_TYPE_CODE"@,
        V1OidcResponseType::from_spec(ResponseType::IdToken).wire()
            == "OIDC_RESPONSE_TYPE_ID_TOKEN"@,
        V1OidcResponseType::from_spec(ResponseType::IdTokenToken).wire()
            == "OIDC_RESPONSE_TYPE_ID_TOKEN_TOKEN"@,
        V1OidcResponseType::from_spec(a).wire() == V1OidcResponseType::from_spec(b).wire() ==> a
            == b,
{
    if V1OidcResponseType::from_spec(a).wire() == V1OidcResponseType::from_spec(b).wire() {
        response_type_is_told_by_its_name(
            V1OidcResponseType::from_spec(a),
            V1OidcResponseType::from_spec(b),
        );
    }
}

/// A spec's access token type is sent under its own name, so that specs that
/// differ in it are sent differently.
pub proof fn token_types_keep_their_names(a: AccessTokenType, b: AccessTokenType)
    ensures
        V1OidcTokenType::from_spec(AccessTokenType::Bearer).wire() == "OIDC_TOKEN_TYPE_BEARER"@,
        V1OidcTokenType::from_spec(AccessTokenType::Jwt).wire() == "OIDC_TOKEN_TYPE_JWT"@,
        V1OidcTokenType::from_spec(a).wire() == V1OidcTokenType::from_spec(b).wire() ==> a == b,
{
    if V1OidcTokenType::from_spec(a).wire() == V1OidcTokenType::from_spec(b).wire() {
        token_type_is_told_by_its_name(
            V1OidcTokenType::from_spec(a),
            V1OidcTokenType::from_spec(b),
        );
    }
}

} // verus!
