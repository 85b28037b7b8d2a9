//! The desired OIDC configuration of an application, and how it compares to
//! what Zitadel reports.

use vstd::prelude::*;
use vstd::seq_lib::lemma_seq_concat_contains_all_elements;
use vstd::std_specs::convert::FromSpec;
use vstd::string::*;

use famedly_zitadel_rust_client::v2::management::ManagementServiceAddOidcAppBody;

use crate::crd::{
    AccessTokenType, AppType, AuthMethod, GrantType, OIDCApplicationSpec, ResponseType,
};
use crate::failure::{Failure, FailureView};
use crate::json::{object_members, remove_member, text_values, JsonView};
use crate::oidc::{
    V1OidcAppType, V1OidcAuthMethodType, V1OidcGrantType, V1OidcResponseType, V1OidcTokenType,
};
use crate::text::{
    copy_list, decimal, decimal_text, lists, non_empty, opt_view, quoted, quoted_text, same,
    same_non_empty, views,
};
use crate::time::{
    format_fraction, fractional_seconds, parse_duration, parsed_duration, readable, Duration,
};

verus! {

// --- Clock skew

/// Zitadel's notation of a duration in JSON: seconds, with a fraction if
/// there is one, and the unit.
pub open spec fn skew_notation(secs: u64, nanos: u32) -> Seq<char> {
    if nanos == 0 {
        decimal(secs as nat) + "s"@
    } else {
        fractional_seconds(secs, nanos) + "s"@
    }
}

/// The clock skew that Zitadel gets for one that reads as `parsed`, in
/// seconds and nanoseconds, or why it is none.
pub open spec fn skew_outcome(
    skew: Seq<char>,
    parsed: Result<(u64, u32), Seq<char>>,
) -> Result<Seq<char>, FailureView> {
    match parsed {
        Ok((secs, nanos)) => Ok(skew_notation(secs, nanos)),
        Err(message) => Err(
            FailureView::saying(message).within("clock skew "@ + quoted_text(skew)),
        ),
    }
}

/// The clock skew that Zitadel gets for the one in a spec, or why the latter
/// is none.
pub open spec fn zitadel_skew(skew: Seq<char>) -> Result<Seq<char>, FailureView> {
    skew_outcome(skew, parsed_duration(skew))
}

/// Writes a duration in Zitadel's notation, e.g. `5s`.
pub fn duration_to_zitadel(duration: Duration) -> (r: String)
    requires
        duration.valid(),
    ensures
        r@ == skew_notation(duration.secs, duration.nanos),
{
    if duration.nanos == 0 {
        decimal_text(duration.secs).concat("s")
    } else {
        format_fraction(duration).concat("s")
    }
}

/// The clock skew in Zitadel's notation, given what humantime reads in it.
pub fn parsed_skew_to_zitadel(skew: &str, parsed: Result<Duration, String>) -> (r: Result<
    String,
    Failure,
>)
    requires
        parsed matches Ok(duration) ==> duration.valid(),
    ensures
        match parsed {
            Ok(duration) => r matches Ok(text) && skew_outcome(
                skew@,
                Ok((duration.secs, duration.nanos)),
            ) == Ok::<Seq<char>, FailureView>(text@),
            Err(message) => r matches Err(failure) && skew_outcome(skew@, Err(message@)) == Err::<
                Seq<char>,
                FailureView,
            >(failure@),
        },
{
    match parsed {
        Ok(duration) => Ok(duration_to_zitadel(duration)),
        Err(message) => {
            let label = "clock skew ".to_owned().concat(quoted(skew).as_str());
            Err(Failure::new(message).context(label.as_str()))
        },
    }
}

/// Zitadel's `google.protobuf.Duration` JSON form for a clock skew, e.g.
/// "5s"; humantime input such as "5s" or "500ms" is normalised to it.
pub fn clock_skew_to_zitadel(skew: &str) -> (r: Result<String, Failure>)
    requires
        readable(skew@),
    ensures
        match r {
            Ok(text) => zitadel_skew(skew@) == Ok::<Seq<char>, FailureView>(text@),
            Err(failure) => zitadel_skew(skew@) == Err::<Seq<char>, FailureView>(failure@),
        },
{
    parsed_skew_to_zitadel(skew, parse_duration(skew))
}

// --- Grant and response types in order

/// `item` if it is in `list`.
pub open spec fn kept<T, U>(list: Seq<T>, item: T, as_item: U) -> Seq<U> {
    if list.contains(item) {
        seq![as_item]
    } else {
        Seq::empty()
    }
}

/// The grant types of a list, each once and in order.
pub open spec fn ordered_grants(list: Seq<GrantType>) -> Seq<V1OidcGrantType> {
    kept(list, GrantType::AuthorizationCode, V1OidcGrantType::AuthorizationCode) + kept(
        list,
        GrantType::Implicit,
        V1OidcGrantType::Implicit,
    ) + kept(list, GrantType::RefreshToken, V1OidcGrantType::RefreshToken) + kept(
        list,
        GrantType::DeviceCode,
        V1OidcGrantType::DeviceCode,
    ) + kept(list, GrantType::TokenExchange, V1OidcGrantType::TokenExchange)
}

/// The response types of a list, each once and in order.
pub open spec fn ordered_responses(list: Seq<ResponseType>) -> Seq<V1OidcResponseType> {
    kept(list, ResponseType::Code, V1OidcResponseType::Code) + kept(
        list,
        ResponseType::IdToken,
        V1OidcResponseType::IdToken,
    ) + kept(list, ResponseType::IdTokenToken, V1OidcResponseType::IdTokenToken)
}

fn has_grant(list: &Vec<GrantType>, item: GrantType) -> (r: bool)
    ensures
        r == list@.contains(item),
{
    let mut i: usize = 0;
    while i < list.len()
        invariant
            i <= list@.len(),
            forall|j: int| 0 <= j < i ==> list@[j] != item,
        decreases list@.len() - i,
    {
        if list[i] == item {
            return true;
        }
        i = i + 1;
    }
    false
}

fn has_response(list: &Vec<ResponseType>, item: ResponseType) -> (r: bool)
    ensures
        r == list@.contains(item),
{
    let mut i: usize = 0;
    while i < list.len()
        invariant
            i <= list@.len(),
            forall|j: int| 0 <= j < i ==> list@[j] != item,
        decreases list@.len() - i,
    {
        if list[i] == item {
            return true;
        }
        i = i + 1;
    }
    false
}

fn keep_grant(out: &mut Vec<V1OidcGrantType>, list: &Vec<GrantType>, item: GrantType)
    ensures
        final(out)@ == old(out)@ + kept(
            list@,
            item,
            V1OidcGrantType::from_spec(item),
        ),
{
    if has_grant(list, item) {
        out.push(V1OidcGrantType::from(item));
    }
    assert(out@ =~= old(out)@ + kept(
        list@,
        item,
        V1OidcGrantType::from_spec(item),
    ));
}

fn keep_response(out: &mut Vec<V1OidcResponseType>, list: &Vec<ResponseType>, item: ResponseType)
    ensures
        final(out)@ == old(out)@ + kept(
            list@,
            item,
            V1OidcResponseType::from_spec(item),
        ),
{
    if has_response(list, item) {
        out.push(V1OidcResponseType::from(item));
    }
    assert(out@ =~= old(out)@ + kept(
        list@,
        item,
        V1OidcResponseType::from_spec(item),
    ));
}

/// The grant types of a list, each once and in order.
pub fn order_grants(list: &Vec<GrantType>) -> (r: Vec<V1OidcGrantType>)
    ensures
        r@ == ordered_grants(list@),
{
    let mut r: Vec<V1OidcGrantType> = Vec::new();
    keep_grant(&mut r, list, GrantType::AuthorizationCode);
    keep_grant(&mut r, list, GrantType::Implicit);
    keep_grant(&mut r, list, GrantType::RefreshToken);
    keep_grant(&mut r, list, GrantType::DeviceCode);
    keep_grant(&mut r, list, GrantType::TokenExchange);
    assert(r@ =~= ordered_grants(list@));
    r
}

/// The response types of a list, each once and in order.
pub fn order_responses(list: &Vec<ResponseType>) -> (r: Vec<V1OidcResponseType>)
    ensures
        r@ == ordered_responses(list@),
{
    let mut r: Vec<V1OidcResponseType> = Vec::new();
    keep_response(&mut r, list, ResponseType::Code);
    keep_response(&mut r, list, ResponseType::IdToken);
    keep_response(&mut r, list, ResponseType::IdTokenToken);
    assert(r@ =~= ordered_responses(list@));
    r
}

// --- Settings

/// Desired OIDC configuration of an application, as sent to Zitadel.
#[derive(Debug)]
pub struct OidcSettings {
    pub redirect_uris: Vec<String>,
    pub post_logout_redirect_uris: Vec<String>,
    pub app_type: V1OidcAppType,
    pub auth_method_type: V1OidcAuthMethodType,
    pub grant_types: Vec<V1OidcGrantType>,
    pub response_types: Vec<V1OidcResponseType>,
    pub access_token_type: V1OidcTokenType,
    pub access_token_role_assertion: bool,
    pub id_token_role_assertion: bool,
    pub id_token_userinfo_assertion: bool,
    pub dev_mode: bool,
    pub additional_origins: Vec<String>,
    pub clock_skew: Option<String>,
    pub back_channel_logout_uri: Option<String>,
    pub skip_native_app_success_page: bool,
}

/// OIDC configuration of an application, as reported by Zitadel.
#[derive(Debug)]
pub struct OidcConfig {
    pub client_id: Option<String>,
    pub redirect_uris: Option<Vec<String>>,
    pub post_logout_redirect_uris: Option<Vec<String>>,
    pub app_type: Option<V1OidcAppType>,
    pub auth_method_type: Option<V1OidcAuthMethodType>,
    pub grant_types: Option<Vec<V1OidcGrantType>>,
    pub response_types: Option<Vec<V1OidcResponseType>>,
    pub access_token_type: Option<V1OidcTokenType>,
    pub access_token_role_assertion: Option<bool>,
    pub id_token_role_assertion: Option<bool>,
    pub id_token_userinfo_assertion: Option<bool>,
    pub dev_mode: Option<bool>,
    pub additional_origins: Option<Vec<String>>,
    pub clock_skew: Option<String>,
    pub back_channel_logout_uri: Option<String>,
    pub skip_native_app_success_page: Option<bool>,
}

/// What an optional list holds; an absent one holds nothing.
pub open spec fn listed<T>(list: Option<Vec<T>>) -> Seq<T> {
    match list {
        Some(items) => items@,
        None => Seq::empty(),
    }
}

/// The texts of an optional list.
pub open spec fn listed_texts(list: Option<Vec<String>>) -> Seq<Seq<char>> {
    views(listed(list))
}

/// An optional flag; an absent one is not set.
pub open spec fn is_set(flag: Option<bool>) -> bool {
    flag == Some(true)
}

/// Whether two lists have the same length and the same members, in whatever
/// order.
pub open spec fn same_members<T>(want: Seq<T>, have: Seq<T>) -> bool {
    want.len() == have.len() && want.to_set() == have.to_set()
}

/// A clock skew as it is compared: an absent one is one of no time.
pub open spec fn effective_skew(skew: Option<Seq<char>>) -> Seq<char> {
    match skew {
        Some(s) => s,
        None => "0s"@,
    }
}

impl OidcSettings {
    /// Whether the settings are those that `spec` asks for, whatever it says
    /// of the clock skew.
    pub open spec fn follows_but_for_skew(self, spec: OIDCApplicationSpec) -> bool {
        &&& self.redirect_uris@ == spec.redirect_uris@
        &&& self.post_logout_redirect_uris@ == spec.post_logout_redirect_uris@
        &&& self.app_type == V1OidcAppType::from_spec(spec.app_type)
        &&& self.auth_method_type == V1OidcAuthMethodType::from_spec(spec.auth_method)
        &&& self.grant_types@ == ordered_grants(spec.grant_types@)
        &&& self.response_types@ == ordered_responses(spec.response_types@)
        &&& self.access_token_type == V1OidcTokenType::from_spec(spec.access_token_type)
        &&& self.access_token_role_assertion == spec.access_token_role_assertion
        &&& self.id_token_role_assertion == spec.id_token_role_assertion
        &&& self.id_token_userinfo_assertion == spec.id_token_userinfo_assertion
        &&& self.dev_mode == spec.dev_mode
        &&& self.additional_origins@ == spec.additional_origins@
        &&& self.back_channel_logout_uri == spec.back_channel_logout_uri
        &&& self.skip_native_app_success_page == spec.skip_native_app_success_page
    }

    /// Whether the settings are those that `spec` asks for.
    pub open spec fn follows(self, spec: OIDCApplicationSpec) -> bool {
        &&& self.follows_but_for_skew(spec)
        &&& match (self.clock_skew, spec.clock_skew) {
            (None, None) => true,
            (Some(have), Some(want)) => zitadel_skew(want@) == Ok::<Seq<char>, FailureView>(have@),
            _ => false,
        }
    }

    /// The settings that `spec` asks for, with the clock skew given in
    /// Zitadel's notation.
    pub fn with_skew(spec: &OIDCApplicationSpec, clock_skew: Option<String>) -> (r: OidcSettings)
        ensures
            r.follows_but_for_skew(*spec),
            r.clock_skew == clock_skew,
    {
        OidcSettings {
            redirect_uris: copy_list(&spec.redirect_uris),
            post_logout_redirect_uris: copy_list(&spec.post_logout_redirect_uris),
            app_type: V1OidcAppType::from(spec.app_type),
            auth_method_type: V1OidcAuthMethodType::from(spec.auth_method),
            grant_types: order_grants(&spec.grant_types),
            response_types: order_responses(&spec.response_types),
            access_token_type: V1OidcTokenType::from(spec.access_token_type),
            access_token_role_assertion: spec.access_token_role_assertion,
            id_token_role_assertion: spec.id_token_role_assertion,
            id_token_userinfo_assertion: spec.id_token_userinfo_assertion,
            dev_mode: spec.dev_mode,
            additional_origins: copy_list(&spec.additional_origins),
            clock_skew,
            back_channel_logout_uri: spec.back_channel_logout_uri.clone(),
            skip_native_app_success_page: spec.skip_native_app_success_page,
        }
    }

    /// The settings that `spec` asks for; fails if the clock skew is no
    /// duration.
    pub fn from_spec(spec: &OIDCApplicationSpec) -> (r: Result<OidcSettings, Failure>)
        requires
            spec.clock_skew is Some ==> readable(spec.clock_skew->0@),
        ensures
            match r {
                Ok(settings) => settings.follows(*spec),
                Err(failure) => spec.clock_skew is Some && zitadel_skew(spec.clock_skew->0@)
                    == Err::<Seq<char>, FailureView>(failure@),
            },
    {
        let clock_skew = match &spec.clock_skew {
            Some(skew) => match clock_skew_to_zitadel(skew.as_str()) {
                Ok(text) => Some(text),
                Err(failure) => {
                    return Err(failure);
                },
            },
            None => None,
        };
        Ok(OidcSettings::with_skew(spec, clock_skew))
    }

    /// Whether what Zitadel reports is what the settings ask for. Lists are
    /// compared without regard to order, an absent flag is one that is not
    /// set, and an empty text is an absent one.
    pub open spec fn agrees(self, current: OidcConfig) -> bool {
        &&& same_members(views(self.redirect_uris@), listed_texts(current.redirect_uris))
        &&& same_members(
            views(self.post_logout_redirect_uris@),
            listed_texts(current.post_logout_redirect_uris),
        )
        &&& current.app_type == Some(self.app_type)
        &&& current.auth_method_type == Some(self.auth_method_type)
        &&& same_members(self.grant_types@, listed(current.grant_types))
        &&& same_members(self.response_types@, listed(current.response_types))
        &&& current.access_token_type == Some(self.access_token_type)
        &&& is_set(current.access_token_role_assertion) == self.access_token_role_assertion
        &&& is_set(current.id_token_role_assertion) == self.id_token_role_assertion
        &&& is_set(current.id_token_userinfo_assertion) == self.id_token_userinfo_assertion
        &&& is_set(current.dev_mode) == self.dev_mode
        &&& same_members(views(self.additional_origins@), listed_texts(current.additional_origins))
        &&& effective_skew(non_empty(opt_view(current.clock_skew))) == effective_skew(
            opt_view(self.clock_skew),
        )
        &&& non_empty(opt_view(current.back_channel_logout_uri)) == non_empty(
            opt_view(self.back_channel_logout_uri),
        )
        &&& is_set(current.skip_native_app_success_page) == self.skip_native_app_success_page
    }

    /// Whether `current` (as reported by Zitadel) already matches.
    pub fn matches(&self, current: &OidcConfig) -> (r: bool)
        ensures
            r == self.agrees(*current),
    {
        same_texts(&self.redirect_uris, &current.redirect_uris) && same_texts(
            &self.post_logout_redirect_uris,
            &current.post_logout_redirect_uris,
        ) && match current.app_type {
            Some(have) => have == self.app_type,
            None => false,
        } && match current.auth_method_type {
            Some(have) => have == self.auth_method_type,
            None => false,
        } && same_grants(&self.grant_types, &current.grant_types) && same_responses(
            &self.response_types,
            &current.response_types,
        ) && match current.access_token_type {
            Some(have) => have == self.access_token_type,
            None => false,
        } && flag(current.access_token_role_assertion) == self.access_token_role_assertion && flag(
            current.id_token_role_assertion,
        ) == self.id_token_role_assertion && flag(current.id_token_userinfo_assertion)
            == self.id_token_userinfo_assertion && flag(current.dev_mode) == self.dev_mode
            && same_texts(&self.additional_origins, &current.additional_origins) && same_skew(
            &self.clock_skew,
            &current.clock_skew,
        ) && same_non_empty(
            &current.back_channel_logout_uri,
            &self.back_channel_logout_uri,
        ) && flag(
            current.skip_native_app_success_page,
        ) == self.skip_native_app_success_page
    }
}

fn flag(have: Option<bool>) -> (r: bool)
    ensures
        r == is_set(have),
{
    match have {
        Some(value) => value,
        None => false,
    }
}

fn same_skew(want: &Option<String>, have: &Option<String>) -> (r: bool)
    ensures
        r == (effective_skew(non_empty(opt_view(*have))) == effective_skew(opt_view(*want))),
{
    let have = match have {
        Some(text) => if text.as_str().unicode_len() == 0 {
            "0s"
        } else {
            text.as_str()
        },
        None => "0s",
    };
    let want = match want {
        Some(text) => text.as_str(),
        None => "0s",
    };
    same(have, want)
}

fn all_listed(some: &Vec<String>, all: &Vec<String>) -> (r: bool)
    ensures
        r == views(some@).to_set().subset_of(views(all@).to_set()),
{
    let mut i: usize = 0;
    while i < some.len()
        invariant
            i <= some@.len(),
            forall|j: int| 0 <= j < i ==> views(all@).contains(#[trigger] views(some@)[j]),
        decreases some@.len() - i,
    {
        if !lists(all, some[i].as_str()) {
            proof {
                assert(views(some@)[i as int] == some@[i as int]@);
                assert(views(some@).to_set().contains(some@[i as int]@));
                assert(!views(all@).to_set().contains(some@[i as int]@));
            }
            return false;
        }
        i = i + 1;
    }
    true
}

fn same_texts(want: &Vec<String>, have: &Option<Vec<String>>) -> (r: bool)
    ensures
        r == same_members(views(want@), listed_texts(*have)),
{
    match have {
        Some(have) => {
            let r = want.len() == have.len() && all_listed(want, have) && all_listed(have, want);
            proof {
                if r {
                    assert(views(want@).to_set() =~= views(have@).to_set());
                }
            }
            r
        },
        None => {
            proof {
                assert(listed_texts(*have).len() == 0);
                if want@.len() == 0 {
                    assert(views(want@) =~= listed_texts(*have));
                }
            }
            want.len() == 0
        },
    }
}

fn lists_grant(list: &Vec<V1OidcGrantType>, item: V1OidcGrantType) -> (r: bool)
    ensures
        r == list@.contains(item),
{
    let mut i: usize = 0;
    while i < list.len()
        invariant
            i <= list@.len(),
            forall|j: int| 0 <= j < i ==> list@[j] != item,
        decreases list@.len() - i,
    {
        if list[i] == item {
            return true;
        }
        i = i + 1;
    }
    false
}

fn all_grants_listed(some: &Vec<V1OidcGrantType>, all: &Vec<V1OidcGrantType>) -> (r: bool)
    ensures
        r == some@.to_set().subset_of(all@.to_set()),
{
    let mut i: usize = 0;
    while i < some.len()
        invariant
            i <= some@.len(),
            forall|j: int| 0 <= j < i ==> all@.contains(#[trigger] some@[j]),
        decreases some@.len() - i,
    {
        if !lists_grant(all, some[i]) {
            proof {
                assert(some@.to_set().contains(some@[i as int]));
                assert(!all@.to_set().contains(some@[i as int]));
            }
            return false;
        }
        i = i + 1;
    }
    true
}

fn same_grants(want: &Vec<V1OidcGrantType>, have: &Option<Vec<V1OidcGrantType>>) -> (r: bool)
    ensures
        r == same_members(want@, listed(*have)),
{
    match have {
        Some(have) => {
            let r = want.len() == have.len() && all_grants_listed(want, have) && all_grants_listed(
                have,
                want,
            );
            proof {
                if r {
                    assert(want@.to_set() =~= have@.to_set());
                }
            }
            r
        },
        None => {
            proof {
                if want@.len() == 0 {
                    assert(want@ =~= Seq::empty());
                }
            }
            want.len() == 0
        },
    }
}

fn lists_response(list: &Vec<V1OidcResponseType>, item: V1OidcResponseType) -> (r: bool)
    ensures
        r == list@.contains(item),
{
    let mut i: usize = 0;
    while i < list.len()
        invariant
            i <= list@.len(),
            forall|j: int| 0 <= j < i ==> list@[j] != item,
        decreases list@.len() - i,
    {
        if list[i] == item {
            return true;
        }
        i = i + 1;
    }
    false
}

fn all_responses_listed(some: &Vec<V1OidcResponseType>, all: &Vec<V1OidcResponseType>) -> (r: bool)
    ensures
        r == some@.to_set().subset_of(all@.to_set()),
{
    let mut i: usize = 0;
    while i < some.len()
        invariant
            i <= some@.len(),
            forall|j: int| 0 <= j < i ==> all@.contains(#[trigger] some@[j]),
        decreases some@.len() - i,
    {
        if !lists_response(all, some[i]) {
            proof {
                assert(some@.to_set().contains(some@[i as int]));
                assert(!all@.to_set().contains(some@[i as int]));
            }
            return false;
        }
        i = i + 1;
    }
    true
}

fn same_responses(
    want: &Vec<V1OidcResponseType>,
    have: &Option<Vec<V1OidcResponseType>>,
) -> (r: bool)
    ensures
        r == same_members(want@, listed(*have)),
{
    match have {
        Some(have) => {
            let r = want.len() == have.len() && all_responses_listed(want, have)
                && all_responses_listed(have, want);
            proof {
                if r {
                    assert(want@.to_set() =~= have@.to_set());
                }
            }
            r
        },
        None => {
            proof {
                if want@.len() == 0 {
                    assert(want@ =~= Seq::empty());
                }
            }
            want.len() == 0
        },
    }
}

// --- Requests

/// The names of grant types in Zitadel's JSON.
pub open spec fn grant_wires(list: Seq<V1OidcGrantType>) -> Seq<Seq<char>> {
    list.map_values(|item: V1OidcGrantType| item.wire())
}

fn grant_names(list: &Vec<V1OidcGrantType>) -> (r: Vec<String>)
    ensures
        views(r@) == grant_wires(list@),
{
    let mut r: Vec<String> = Vec::new();
    let mut i: usize = 0;
    while i < list.len()
        invariant
            i <= list@.len(),
            r@.len() == i,
            forall|j: int| 0 <= j < i ==> #[trigger] r@[j]@ == list@[j].wire(),
        decreases list@.len() - i,
    {
        r.push(list[i].wire_name().to_owned());
        i = i + 1;
    }
    assert(views(r@) =~= grant_wires(list@));
    r
}

/// The names of response types in Zitadel's JSON.
pub open spec fn response_wires(list: Seq<V1OidcResponseType>) -> Seq<Seq<char>> {
    list.map_values(|item: V1OidcResponseType| item.wire())
}

fn response_names(list: &Vec<V1OidcResponseType>) -> (r: Vec<String>)
    ensures
        views(r@) == response_wires(list@),
{
    let mut r: Vec<String> = Vec::new();
    let mut i: usize = 0;
    while i < list.len()
        invariant
            i <= list@.len(),
            r@.len() == i,
            forall|j: int| 0 <= j < i ==> #[trigger] r@[j]@ == list@[j].wire(),
        decreases list@.len() - i,
    {
        r.push(list[i].wire_name().to_owned());
        i = i + 1;
    }
    assert(views(r@) =~= response_wires(list@));
    r
}

/// `ManagementServiceAddOidcAppBody` of the client library, made by `new` and
/// its `with_` functions, as serde serializes it: a member for every field,
/// which is null for one that was not set. The choices, by their names in
/// Zitadel's JSON, are the OIDC version, application type, authentication
/// method, access token type, grant types and response types; serde reads
/// them as the enums of the client library, which have those names.
#[verifier::external_body]
fn client_body(
    name: String,
    choices: (&str, &str, &str, &str, Vec<String>, Vec<String>),
    settings: OidcSettings,
) -> (r: serde_json::Map<String, serde_json::Value>)
    requires
        settings.names(choices),
    ensures
        object_members(r) == settings.creation(name@),
{
    let (a, b, c, d, e, f) =
        serde_json::to_value(choices).and_then(serde_json::from_value).unwrap();
    let body = ManagementServiceAddOidcAppBody::new(name)
        .with_version(a).with_app_type(b).with_auth_method_type(c).with_access_token_type(d)
        .with_grant_types(e).with_response_types(f)
        .with_redirect_uris(settings.redirect_uris).with_dev_mode(settings.dev_mode)
        .with_post_logout_redirect_uris(settings.post_logout_redirect_uris)
        .with_access_token_role_assertion(settings.access_token_role_assertion)
        .with_id_token_role_assertion(settings.id_token_role_assertion)
        .with_id_token_userinfo_assertion(settings.id_token_userinfo_assertion)
        .with_additional_origins(settings.additional_origins)
        .with_skip_native_app_success_page(settings.skip_native_app_success_page);
    let body = settings.clock_skew.into_iter().fold(body, ManagementServiceAddOidcAppBody::with_clock_skew);
    let body = settings.back_channel_logout_uri.into_iter().fold(body, ManagementServiceAddOidcAppBody::with_back_channel_logout_uri);
    serde_json::from_value(serde_json::to_value(body).unwrap()).unwrap()
}

impl OidcSettings {
    /// Whether these are the choices of the settings by their names in
    /// Zitadel's JSON, for the OIDC version that there is.
    pub open spec fn names(
        self,
        choices: (&str, &str, &str, &str, Vec<String>, Vec<String>),
    ) -> bool {
        &&& choices.0@ == "OIDC_VERSION_1_0"@
        &&& choices.1@ == self.app_type.wire()
        &&& choices.2@ == self.auth_method_type.wire()
        &&& choices.3@ == self.access_token_type.wire()
        &&& views(choices.4@) == grant_wires(self.grant_types@)
        &&& views(choices.5@) == response_wires(self.response_types@)
    }

    /// The settings as members of a JSON object.
    pub open spec fn members(self) -> Map<Seq<char>, JsonView> {
        map![
            "redirectUris"@ => JsonView::texts(views(self.redirect_uris@)),
            "responseTypes"@ => JsonView::texts(response_wires(self.response_types@)),
            "grantTypes"@ => JsonView::texts(grant_wires(self.grant_types@)),
            "appType"@ => JsonView::Text(self.app_type.wire()),
            "authMethodType"@ => JsonView::Text(self.auth_method_type.wire()),
            "postLogoutRedirectUris"@ => JsonView::texts(views(self.post_logout_redirect_uris@)),
            "devMode"@ => JsonView::Bool(self.dev_mode),
            "accessTokenType"@ => JsonView::Text(self.access_token_type.wire()),
            "accessTokenRoleAssertion"@ => JsonView::Bool(self.access_token_role_assertion),
            "idTokenRoleAssertion"@ => JsonView::Bool(self.id_token_role_assertion),
            "idTokenUserinfoAssertion"@ => JsonView::Bool(self.id_token_userinfo_assertion),
            "clockSkew"@ => JsonView::optional(opt_view(self.clock_skew)),
            "additionalOrigins"@ => JsonView::texts(views(self.additional_origins@)),
            "skipNativeAppSuccessPage"@ => JsonView::Bool(self.skip_native_app_success_page),
            "backChannelLogoutUri"@ => JsonView::optional(opt_view(self.back_channel_logout_uri)),
            "loginVersion"@ => JsonView::Null,
        ]
    }

    /// What creates an application: its name, the OIDC version and the
    /// settings.
    pub open spec fn creation(self, name: Seq<char>) -> Map<Seq<char>, JsonView> {
        self.members().insert("name"@, JsonView::Text(name)).insert(
            "version"@,
            JsonView::Text("OIDC_VERSION_1_0"@),
        )
    }

    /// What updates an application's configuration: the settings.
    pub open spec fn update(self) -> Map<Seq<char>, JsonView> {
        self.members()
    }

    /// A copy of the settings.
    fn duplicate(&self) -> (r: OidcSettings)
        ensures
            r.members() == self.members(),
            r.grant_types@ == self.grant_types@,
            r.response_types@ == self.response_types@,
            r.app_type == self.app_type,
            r.auth_method_type == self.auth_method_type,
            r.access_token_type == self.access_token_type,
    {
        OidcSettings {
            redirect_uris: copy_list(&self.redirect_uris),
            post_logout_redirect_uris: copy_list(&self.post_logout_redirect_uris),
            app_type: self.app_type,
            auth_method_type: self.auth_method_type,
            grant_types: self.grant_types.clone(),
            response_types: self.response_types.clone(),
            access_token_type: self.access_token_type,
            access_token_role_assertion: self.access_token_role_assertion,
            id_token_role_assertion: self.id_token_role_assertion,
            id_token_userinfo_assertion: self.id_token_userinfo_assertion,
            dev_mode: self.dev_mode,
            additional_origins: copy_list(&self.additional_origins),
            clock_skew: self.clock_skew.clone(),
            back_channel_logout_uri: self.back_channel_logout_uri.clone(),
            skip_native_app_success_page: self.skip_native_app_success_page,
        }
    }

    /// The body of the request that creates the application `name`.
    pub fn add_body(&self, name: &str) -> (r: serde_json::Map<String, serde_json::Value>)
        ensures
            object_members(r) == self.creation(name@),
    {
        let choices = (
            "OIDC_VERSION_1_0",
            self.app_type.wire_name(),
            self.auth_method_type.wire_name(),
            self.access_token_type.wire_name(),
            grant_names(&self.grant_types),
            response_names(&self.response_types),
        );
        client_body(name.to_owned(), choices, self.duplicate())
    }

    /// The body of the request that updates the configuration: what the
    /// creation sends, without the name and the version, which keeps the two
    /// in lockstep.
    pub fn update_body(&self) -> (r: serde_json::Map<String, serde_json::Value>)
        ensures
            object_members(r) == self.update(),
    {
        let mut r = self.add_body("");
        remove_member(&mut r, "name");
        remove_member(&mut r, "version");
        proof {
            settings_are_nameless(*self);
            assert(object_members(r) =~= self.members());
        }
        r
    }
}

proof fn settings_are_nameless(settings: OidcSettings)
    ensures
        !settings.members().dom().contains("name"@),
        !settings.members().dom().contains("version"@),
{
    reveal_strlit("name");
    reveal_strlit("version");
    reveal_strlit("redirectUris");
    reveal_strlit("responseTypes");
    reveal_strlit("grantTypes");
    reveal_strlit("appType");
    reveal_strlit("authMethodType");
    reveal_strlit("postLogoutRedirectUris");
    reveal_strlit("devMode");
    reveal_strlit("accessTokenType");
    reveal_strlit("accessTokenRoleAssertion");
    reveal_strlit("idTokenRoleAssertion");
    reveal_strlit("idTokenUserinfoAssertion");
    reveal_strlit("clockSkew");
    reveal_strlit("additionalOrigins");
    reveal_strlit("skipNativeAppSuccessPage");
    reveal_strlit("backChannelLogoutUri");
    reveal_strlit("loginVersion");
    assert("name"@.len() == 4);
    assert("version"@.len() == 7);
    assert("appType"@.len() == 7 && "devMode"@.len() == 7);
    assert("version"@[0] == 'v' && "appType"@[0] == 'a' && "devMode"@[0] == 'd');
}

// --- Laws

impl OidcSettings {
    /// Whether `current` reports the settings as they were sent. Lists that
    /// are empty, flags that are not set, a skew of no time and an empty URI
    /// may be left out.
    pub open spec fn stored_in(self, current: OidcConfig) -> bool {
        &&& listed_texts(current.redirect_uris) == views(self.redirect_uris@)
        &&& listed_texts(current.post_logout_redirect_uris) == views(
            self.post_logout_redirect_uris@,
        )
        &&& current.app_type == Some(self.app_type)
        &&& current.auth_method_type == Some(self.auth_method_type)
        &&& listed(current.grant_types) == self.grant_types@
        &&& listed(current.response_types) == self.response_types@
        &&& current.access_token_type == Some(self.access_token_type)
        &&& is_set(current.access_token_role_assertion) == self.access_token_role_assertion
        &&& is_set(current.id_token_role_assertion) == self.id_token_role_assertion
        &&& is_set(current.id_token_userinfo_assertion) == self.id_token_userinfo_assertion
        &&& is_set(current.dev_mode) == self.dev_mode
        &&& listed_texts(current.additional_origins) == views(self.additional_origins@)
        &&& effective_skew(non_empty(opt_view(current.clock_skew))) == effective_skew(
            opt_view(self.clock_skew),
        )
        &&& non_empty(opt_view(current.back_channel_logout_uri)) == non_empty(
            opt_view(self.back_channel_logout_uri),
        )
        &&& is_set(current.skip_native_app_success_page) == self.skip_native_app_success_page
    }
}

/// Settings converge: once Zitadel reports what was sent, it matches, and
/// nothing is left to update.
pub proof fn stored_settings_match(settings: OidcSettings, current: OidcConfig)
    requires
        settings.stored_in(current),
    ensures
        settings.agrees(current),
{
}

/// A Zitadel that gives back every setting of a spec exactly as it was sent
/// reports the settings.
pub proof fn echoed_settings_are_stored(
    settings: OidcSettings,
    spec: OIDCApplicationSpec,
    current: OidcConfig,
)
    requires
        settings.follows(spec),
        listed_texts(current.redirect_uris) == views(settings.redirect_uris@),
        listed_texts(current.post_logout_redirect_uris) == views(
            settings.post_logout_redirect_uris@,
        ),
        current.app_type == Some(settings.app_type),
        current.auth_method_type == Some(settings.auth_method_type),
        listed(current.grant_types) == settings.grant_types@,
        listed(current.response_types) == settings.response_types@,
        current.access_token_type == Some(settings.access_token_type),
        current.access_token_role_assertion == Some(settings.access_token_role_assertion),
        current.id_token_role_assertion == Some(settings.id_token_role_assertion),
        current.id_token_userinfo_assertion == Some(settings.id_token_userinfo_assertion),
        current.dev_mode == Some(settings.dev_mode),
        listed_texts(current.additional_origins) == views(settings.additional_origins@),
        opt_view(current.clock_skew) == opt_view(settings.clock_skew),
        opt_view(current.back_channel_logout_uri) == opt_view(settings.back_channel_logout_uri),
        current.skip_native_app_success_page == Some(settings.skip_native_app_success_page),
    ensures
        settings.stored_in(current),
{
    reveal_strlit("s");
    assert("s"@.len() == 1);
    if settings.clock_skew is Some {
        assert(settings.clock_skew->0@.len() > 0);
    }
}

proof fn same_multiset_same_members<T>(want: Seq<T>, a: Seq<T>, b: Seq<T>)
    requires
        a.to_multiset() == b.to_multiset(),
    ensures
        same_members(want, a) == same_members(want, b),
{
    broadcast use vstd::seq_lib::group_to_multiset_ensures;

    assert(a.to_multiset().len() == a.len());
    assert(b.to_multiset().len() == b.len());
    assert(a.to_set() =~= b.to_set()) by {
        assert forall|x: T| a.contains(x) == b.contains(x) by {
            assert(a.contains(x) <==> a.to_multiset().count(x) > 0);
            assert(b.contains(x) <==> b.to_multiset().count(x) > 0);
        }
    }
}

/// Whether settings match does not depend on the order in which Zitadel
/// lists URIs, origins, grant types and response types.
pub proof fn matching_ignores_order(settings: OidcSettings, a: OidcConfig, b: OidcConfig)
    requires
        listed_texts(a.redirect_uris).to_multiset() == listed_texts(b.redirect_uris).to_multiset(),
        listed_texts(a.post_logout_redirect_uris).to_multiset() == listed_texts(
            b.post_logout_redirect_uris,
        ).to_multiset(),
        listed(a.grant_types).to_multiset() == listed(b.grant_types).to_multiset(),
        listed(a.response_types).to_multiset() == listed(b.response_types).to_multiset(),
        listed_texts(a.additional_origins).to_multiset() == listed_texts(
            b.additional_origins,
        ).to_multiset(),
        a.app_type == b.app_type,
        a.auth_method_type == b.auth_method_type,
        a.access_token_type == b.access_token_type,
        a.access_token_role_assertion == b.access_token_role_assertion,
        a.id_token_role_assertion == b.id_token_role_assertion,
        a.id_token_userinfo_assertion == b.id_token_userinfo_assertion,
        a.dev_mode == b.dev_mode,
        a.clock_skew == b.clock_skew,
        a.back_channel_logout_uri == b.back_channel_logout_uri,
        a.skip_native_app_success_page == b.skip_native_app_success_page,
    ensures
        settings.agrees(a) == settings.agrees(b),
{
    same_multiset_same_members(
        views(settings.redirect_uris@),
        listed_texts(a.redirect_uris),
        listed_texts(b.redirect_uris),
    );
    same_multiset_same_members(
        views(settings.post_logout_redirect_uris@),
        listed_texts(a.post_logout_redirect_uris),
        listed_texts(b.post_logout_redirect_uris),
    );
    same_multiset_same_members(
        settings.grant_types@,
        listed(a.grant_types),
        listed(b.grant_types),
    );
    same_multiset_same_members(
        settings.response_types@,
        listed(a.response_types),
        listed(b.response_types),
    );
    same_multiset_same_members(
        views(settings.additional_origins@),
        listed_texts(a.additional_origins),
        listed_texts(b.additional_origins),
    );
}

/// Position in the order of grant types.
pub open spec fn grant_rank(item: V1OidcGrantType) -> int {
    match item {
        V1OidcGrantType::AuthorizationCode => 0,
        V1OidcGrantType::Implicit => 1,
        V1OidcGrantType::RefreshToken => 2,
        V1OidcGrantType::DeviceCode => 3,
        V1OidcGrantType::TokenExchange => 4,
    }
}

/// Position in the order of response types.
pub open spec fn response_rank(item: V1OidcResponseType) -> int {
    match item {
        V1OidcResponseType::Code => 0,
        V1OidcResponseType::IdToken => 1,
        V1OidcResponseType::IdTokenToken => 2,
    }
}

proof fn kept_contains<T, U>(list: Seq<T>, item: T, as_item: U, x: U)
    ensures
        kept(list, item, as_item).contains(x) == (list.contains(item) && x == as_item),
{
    if list.contains(item) {
        assert(kept(list, item, as_item)[0] == as_item);
    }
}

/// The grant types sent are those of the spec, each once and in ascending
/// order.
pub proof fn ordered_grants_are_sorted(list: Seq<GrantType>)
    ensures
        forall|i: int, j: int|
            0 <= i < j < ordered_grants(list).len() ==> grant_rank(
                #[trigger] ordered_grants(list)[i],
            ) < grant_rank(#[trigger] ordered_grants(list)[j]),
        forall|item: GrantType|
            ordered_grants(list).contains(V1OidcGrantType::from_spec(item))
                == #[trigger] list.contains(item),
{
    let code = kept(
        list,
        GrantType::AuthorizationCode,
        V1OidcGrantType::AuthorizationCode,
    );
    let implicit = kept(list, GrantType::Implicit, V1OidcGrantType::Implicit);
    let refresh = kept(list, GrantType::RefreshToken, V1OidcGrantType::RefreshToken);
    let device = kept(list, GrantType::DeviceCode, V1OidcGrantType::DeviceCode);
    let exchange = kept(list, GrantType::TokenExchange, V1OidcGrantType::TokenExchange);
    assert forall|item: GrantType|
        ordered_grants(list).contains(V1OidcGrantType::from_spec(item))
            == #[trigger] list.contains(item) by {
        let x = V1OidcGrantType::from_spec(item);
        kept_contains(
            list,
            GrantType::AuthorizationCode,
            V1OidcGrantType::AuthorizationCode,
            x,
        );
        kept_contains(list, GrantType::Implicit, V1OidcGrantType::Implicit, x);
        kept_contains(list, GrantType::RefreshToken, V1OidcGrantType::RefreshToken, x);
        kept_contains(list, GrantType::DeviceCode, V1OidcGrantType::DeviceCode, x);
        kept_contains(list, GrantType::TokenExchange, V1OidcGrantType::TokenExchange, x);
        lemma_seq_concat_contains_all_elements(code, implicit, x);
        lemma_seq_concat_contains_all_elements(code + implicit, refresh, x);
        lemma_seq_concat_contains_all_elements(code + implicit + refresh, device, x);
        lemma_seq_concat_contains_all_elements(code + implicit + refresh + device, exchange, x);
    }
}

/// The response types sent are those of the spec, each once and in ascending
/// order.
pub proof fn ordered_responses_are_sorted(list: Seq<ResponseType>)
    ensures
        forall|i: int, j: int|
            0 <= i < j < ordered_responses(list).len() ==> response_rank(
                #[trigger] ordered_responses(list)[i],
            ) < response_rank(#[trigger] ordered_responses(list)[j]),
        forall|item: ResponseType|
            ordered_responses(list).contains(V1OidcResponseType::from_spec(item))
                == #[trigger] list.contains(item),
{
    let code = kept(list, ResponseType::Code, V1OidcResponseType::Code);
    let id_token = kept(list, ResponseType::IdToken, V1OidcResponseType::IdToken);
    let both = kept(list, ResponseType::IdTokenToken, V1OidcResponseType::IdTokenToken);
    assert forall|item: ResponseType|
        ordered_responses(list).contains(V1OidcResponseType::from_spec(item))
            == #[trigger] list.contains(item) by {
        let x = V1OidcResponseType::from_spec(item);
        kept_contains(list, ResponseType::Code, V1OidcResponseType::Code, x);
        kept_contains(list, ResponseType::IdToken, V1OidcResponseType::IdToken, x);
        kept_contains(list, ResponseType::IdTokenToken, V1OidcResponseType::IdTokenToken, x);
        lemma_seq_concat_contains_all_elements(code, id_token, x);
        lemma_seq_concat_contains_all_elements(code + id_token, both, x);
    }
}

/// What is sent does not depend on the order in which a spec lists grant
/// types and response types, nor on how often it lists one.
pub proof fn spec_order_does_not_matter(
    grants_a: Seq<GrantType>,
    grants_b: Seq<GrantType>,
    responses_a: Seq<ResponseType>,
    responses_b: Seq<ResponseType>,
)
    requires
        grants_a.to_set() == grants_b.to_set(),
        responses_a.to_set() == responses_b.to_set(),
    ensures
        ordered_grants(grants_a) == ordered_grants(grants_b),
        ordered_responses(responses_a) == ordered_responses(responses_b),
{
    assert forall|item: GrantType| grants_a.contains(item) == grants_b.contains(item) by {
        assert(grants_a.to_set().contains(item) == grants_a.contains(item));
        assert(grants_b.to_set().contains(item) == grants_b.contains(item));
    }
    assert forall|item: ResponseType| responses_a.contains(item) == responses_b.contains(item) by {
        assert(responses_a.to_set().contains(item) == responses_a.contains(item));
        assert(responses_b.to_set().contains(item) == responses_b.contains(item));
    }
}

/// An update sends what the creation sends, member by member, except for the
/// name and the OIDC version, which it does not send.
pub proof fn update_is_creation_without_the_name(settings: OidcSettings, name: Seq<char>)
    ensures
        settings.update() == settings.creation(name).remove("name"@).remove("version"@),
        !settings.update().dom().contains("name"@),
        !settings.update().dom().contains("version"@),
        settings.creation(name).dom().contains("name"@) && settings.creation(name)["name"@]
            == JsonView::Text(name),
{
    settings_are_nameless(settings);
    reveal_strlit("name");
    reveal_strlit("version");
    assert("name"@.len() != "version"@.len());
    assert(settings.update() =~= settings.creation(name).remove("name"@).remove("version"@));
}

// --- What a spec comes to

/// Whether an optional list, an absent one being empty, has as many entries as
/// `want` and the same ones.
pub open spec fn reported_alike<T>(want: Seq<T>, have: Option<Seq<T>>) -> bool {
    match have {
        Some(have) => have.len() == want.len() && (forall|x: T| #[trigger]
            have.contains(x) <==> want.contains(x)),
        None => want.len() == 0,
    }
}

/// The texts of an optional list.
pub open spec fn texts_of(list: Option<Vec<String>>) -> Option<Seq<Seq<char>>> {
    match list {
        Some(list) => Some(Seq::new(list@.len(), |i: int| list@[i]@)),
        None => None,
    }
}

/// The items of an optional list.
pub open spec fn items_of<T>(list: Option<Vec<T>>) -> Option<Seq<T>> {
    match list {
        Some(list) => Some(list@),
        None => None,
    }
}

/// Settings match what Zitadel reports exactly if every single setting is
/// reported: each flag both ways, an absent one being false; each choice; the
/// skew, an absent or empty one being none at all; the logout URI, an empty
/// one being an absent one; and each list by its members.
pub proof fn matching_means_that_every_setting_is_reported(
    settings: OidcSettings,
    current: OidcConfig,
)
    ensures
        settings.agrees(current) <==> {
            &&& reported_alike(
                Seq::new(settings.redirect_uris@.len(), |i: int| settings.redirect_uris@[i]@),
                texts_of(current.redirect_uris),
            )
            &&& reported_alike(
                Seq::new(
                    settings.post_logout_redirect_uris@.len(),
                    |i: int| settings.post_logout_redirect_uris@[i]@,
                ),
                texts_of(current.post_logout_redirect_uris),
            )
            &&& reported_alike(
                Seq::new(
                    settings.additional_origins@.len(),
                    |i: int| settings.additional_origins@[i]@,
                ),
                texts_of(current.additional_origins),
            )
            &&& reported_alike(settings.grant_types@, items_of(current.grant_types))
            &&& reported_alike(settings.response_types@, items_of(current.response_types))
            &&& current.app_type == Some(settings.app_type)
            &&& current.auth_method_type == Some(settings.auth_method_type)
            &&& current.access_token_type == Some(settings.access_token_type)
            &&& settings.access_token_role_assertion == (current.access_token_role_assertion
                == Some(true))
            &&& settings.id_token_role_assertion == (current.id_token_role_assertion == Some(true))
            &&& settings.id_token_userinfo_assertion == (current.id_token_userinfo_assertion
                == Some(true))
            &&& settings.dev_mode == (current.dev_mode == Some(true))
            &&& settings.skip_native_app_success_page == (current.skip_native_app_success_page
                == Some(true))
            &&& (match settings.clock_skew {
                Some(want) => want@,
                None => "0s"@,
            }) == (match current.clock_skew {
                Some(have) => if have@.len() > 0 {
                    have@
                } else {
                    "0s"@
                },
                None => "0s"@,
            })
            &&& match (settings.back_channel_logout_uri, current.back_channel_logout_uri) {
                (Some(want), Some(have)) => want@ == have@,
                (Some(want), None) => want@.len() == 0,
                (None, Some(have)) => have@.len() == 0,
                (None, None) => true,
            }
        },
{
    alike_is_same_members(
        views(settings.redirect_uris@),
        listed_texts(current.redirect_uris),
        texts_of(current.redirect_uris),
    );
    alike_is_same_members(
        views(settings.post_logout_redirect_uris@),
        listed_texts(current.post_logout_redirect_uris),
        texts_of(current.post_logout_redirect_uris),
    );
    alike_is_same_members(
        views(settings.additional_origins@),
        listed_texts(current.additional_origins),
        texts_of(current.additional_origins),
    );
    alike_is_same_members(
        settings.grant_types@,
        listed(current.grant_types),
        items_of(current.grant_types),
    );
    alike_is_same_members(
        settings.response_types@,
        listed(current.response_types),
        items_of(current.response_types),
    );
    assert(views(settings.redirect_uris@) =~= Seq::new(
        settings.redirect_uris@.len(),
        |i: int| settings.redirect_uris@[i]@,
    ));
    assert(views(settings.post_logout_redirect_uris@) =~= Seq::new(
        settings.post_logout_redirect_uris@.len(),
        |i: int| settings.post_logout_redirect_uris@[i]@,
    ));
    assert(views(settings.additional_origins@) =~= Seq::new(
        settings.additional_origins@.len(),
        |i: int| settings.additional_origins@[i]@,
    ));
    match (settings.back_channel_logout_uri, current.back_channel_logout_uri) {
        (Some(want), Some(have)) => {
            if want@.len() == 0 && have@.len() == 0 {
                assert(want@ =~= have@);
            }
        },
        _ => {},
    }
}

proof fn alike_is_same_members<T>(want: Seq<T>, list: Seq<T>, have: Option<Seq<T>>)
    requires
        match have {
            Some(have) => list =~= have,
            None => list.len() == 0,
        },
    ensures
        same_members(want, list) <==> reported_alike(want, have),
{
    match have {
        Some(have) => {
            if same_members(want, list) {
                assert forall|x: T| #[trigger] have.contains(x) <==> want.contains(x) by {
                    assert(list.to_set().contains(x) == list.contains(x));
                    assert(want.to_set().contains(x) == want.contains(x));
                }
            }
            if reported_alike(want, Some(have)) {
                assert(want.to_set() =~= list.to_set()) by {
                    assert forall|x: T| want.to_set().contains(x) == list.to_set().contains(x) by {
                        assert(have.contains(x) <==> want.contains(x));
                    }
                }
            }
        },
        None => {
            if want.len() == 0 {
                assert(want =~= list);
            }
        },
    }
}

/// Agreement is what was sent, up to the order of the lists: a configuration
/// that matches reports each setting as it was sent, and lists the same
/// entries.
pub proof fn agreement_is_storage_but_for_order(settings: OidcSettings, current: OidcConfig)
    requires
        settings.agrees(current),
        listed_texts(current.redirect_uris) == views(settings.redirect_uris@),
        listed_texts(current.post_logout_redirect_uris) == views(
            settings.post_logout_redirect_uris@,
        ),
        listed_texts(current.additional_origins) == views(settings.additional_origins@),
        listed(current.grant_types) == settings.grant_types@,
        listed(current.response_types) == settings.response_types@,
    ensures
        settings.stored_in(current),
{
}

/// Two configurations that both match the same settings tell of the same
/// application: their flags and choices are the same.
pub proof fn matching_reports_agree(settings: OidcSettings, a: OidcConfig, b: OidcConfig)
    requires
        settings.agrees(a),
        settings.agrees(b),
    ensures
        a.app_type == b.app_type,
        a.auth_method_type == b.auth_method_type,
        a.access_token_type == b.access_token_type,
        (a.access_token_role_assertion == Some(true)) == (b.access_token_role_assertion == Some(
            true,
        )),
        (a.id_token_role_assertion == Some(true)) == (b.id_token_role_assertion == Some(true)),
        (a.id_token_userinfo_assertion == Some(true)) == (b.id_token_userinfo_assertion == Some(
            true,
        )),
        (a.dev_mode == Some(true)) == (b.dev_mode == Some(true)),
        (a.skip_native_app_success_page == Some(true)) == (b.skip_native_app_success_page == Some(
            true,
        )),
{
}

/// A text as JSON, if it is called for.
pub open spec fn named_if(called_for: bool, name: Seq<char>) -> Seq<JsonView> {
    if called_for {
        seq![JsonView::Text(name)]
    } else {
        Seq::empty()
    }
}

/// What creates and updates an application says what the spec says, member by
/// member and by Zitadel's names: nothing is left out, nothing is made up.
pub proof fn a_spec_is_sent_as_it_stands(
    spec: OIDCApplicationSpec,
    settings: OidcSettings,
    name: Seq<char>,
    key: Seq<char>,
)
    requires
        settings.follows(spec),
    ensures
        ({
            let sent = settings.update();
            &&& settings.creation(name) == sent.insert("name"@, JsonView::Text(name)).insert(
                "version"@,
                JsonView::Text("OIDC_VERSION_1_0"@),
            )
            &&& sent.dom().contains(key) <==> {
                ||| key == "redirectUris"@
                ||| key == "postLogoutRedirectUris"@
                ||| key == "additionalOrigins"@
                ||| key == "grantTypes"@
                ||| key == "responseTypes"@
                ||| key == "appType"@
                ||| key == "authMethodType"@
                ||| key == "accessTokenType"@
                ||| key == "accessTokenRoleAssertion"@
                ||| key == "idTokenRoleAssertion"@
                ||| key == "idTokenUserinfoAssertion"@
                ||| key == "devMode"@
                ||| key == "skipNativeAppSuccessPage"@
                ||| key == "clockSkew"@
                ||| key == "backChannelLogoutUri"@
                ||| key == "loginVersion"@
            }
            &&& sent["redirectUris"@] == JsonView::List(
                Seq::new(
                    spec.redirect_uris@.len(),
                    |i: int| JsonView::Text(spec.redirect_uris@[i]@),
                ),
            )
            &&& sent["postLogoutRedirectUris"@] == JsonView::List(
                Seq::new(
                    spec.post_logout_redirect_uris@.len(),
                    |i: int| JsonView::Text(spec.post_logout_redirect_uris@[i]@),
                ),
            )
            &&& sent["additionalOrigins"@] == JsonView::List(
                Seq::new(
                    spec.additional_origins@.len(),
                    |i: int| JsonView::Text(spec.additional_origins@[i]@),
                ),
            )
            &&& sent["grantTypes"@] == JsonView::List(
                named_if(
                    spec.grant_types@.contains(GrantType::AuthorizationCode),
                    "OIDC_GRANT_TYPE_AUTHORIZATION_CODE"@,
                ) + named_if(
                    spec.grant_types@.contains(GrantType::Implicit),
                    "OIDC_GRANT_TYPE_IMPLICIT"@,
                ) + named_if(
                    spec.grant_types@.contains(GrantType::RefreshToken),
                    "OIDC_GRANT_TYPE_REFRESH_TOKEN"@,
                ) + named_if(
                    spec.grant_types@.contains(GrantType::DeviceCode),
                    "OIDC_GRANT_TYPE_DEVICE_CODE"@,
                ) + named_if(
                    spec.grant_types@.contains(GrantType::TokenExchange),
                    "OIDC_GRANT_TYPE_TOKEN_EXCHANGE"@,
                ),
            )
            &&& sent["responseTypes"@] == JsonView::List(
                named_if(
                    spec.response_types@.contains(ResponseType::Code),
                    "OIDC_RESPONSE_TYPE_CODE"@,
                ) + named_if(
                    spec.response_types@.contains(ResponseType::IdToken),
                    "OIDC_RESPONSE_TYPE_ID_TOKEN"@,
                ) + named_if(
                    spec.response_types@.contains(ResponseType::IdTokenToken),
                    "OIDC_RESPONSE_TYPE_ID_TOKEN_TOKEN"@,
                ),
            )
            &&& sent["appType"@] == JsonView::Text(
                match spec.app_type {
                    AppType::Web => "OIDC_APP_TYPE_WEB"@,
                    AppType::UserAgent => "OIDC_APP_TYPE_USER_AGENT"@,
                    AppType::Native => "OIDC_APP_TYPE_NATIVE"@,
                },
            )
            &&& sent["authMethodType"@] == JsonView::Text(
                match spec.auth_method {
                    AuthMethod::Public => "OIDC_AUTH_METHOD_TYPE_NONE"@,
                    AuthMethod::Basic => "OIDC_AUTH_METHOD_TYPE_BASIC"@,
                    AuthMethod::Post => "OIDC_AUTH_METHOD_TYPE_POST"@,
                    AuthMethod::PrivateKeyJwt => "OIDC_AUTH_METHOD_TYPE_PRIVATE_KEY_JWT"@,
                },
            )
            &&& sent["accessTokenType"@] == JsonView::Text(
                match spec.access_token_type {
                    AccessTokenType::Bearer => "OIDC_TOKEN_TYPE_BEARER"@,
                    AccessTokenType::Jwt => "OIDC_TOKEN_TYPE_JWT"@,
                },
            )
            &&& sent["accessTokenRoleAssertion"@] == JsonView::Bool(
                spec.access_token_role_assertion,
            )
            &&& sent["idTokenRoleAssertion"@] == JsonView::Bool(spec.id_token_role_assertion)
            &&& sent["idTokenUserinfoAssertion"@] == JsonView::Bool(
                spec.id_token_userinfo_assertion,
            )
            &&& sent["devMode"@] == JsonView::Bool(spec.dev_mode)
            &&& sent["skipNativeAppSuccessPage"@] == JsonView::Bool(
                spec.skip_native_app_success_page,
            )
            &&& match spec.clock_skew {
                Some(skew) => sent["clockSkew"@] matches JsonView::Text(text) && zitadel_skew(skew@)
                    == Ok::<Seq<char>, FailureView>(text),
                None => sent["clockSkew"@] == JsonView::Null,
            }
            &&& sent["backChannelLogoutUri"@] == match spec.back_channel_logout_uri {
                Some(uri) => JsonView::Text(uri@),
                None => JsonView::Null,
            }
            &&& sent["loginVersion"@] == JsonView::Null
        }),
{
    member_names_differ();
    let sent = settings.update();
    assert(sent["redirectUris"@]->List_0 =~= Seq::new(
        spec.redirect_uris@.len(),
        |i: int| JsonView::Text(spec.redirect_uris@[i]@),
    ));
    assert(sent["postLogoutRedirectUris"@]->List_0 =~= Seq::new(
        spec.post_logout_redirect_uris@.len(),
        |i: int| JsonView::Text(spec.post_logout_redirect_uris@[i]@),
    ));
    assert(sent["additionalOrigins"@]->List_0 =~= Seq::new(
        spec.additional_origins@.len(),
        |i: int| JsonView::Text(spec.additional_origins@[i]@),
    ));
    sent_grants(spec.grant_types@);
    sent_responses(spec.response_types@);
}

proof fn kept_names(list: Seq<GrantType>, item: GrantType, kind: V1OidcGrantType)
    ensures
        text_values(grant_wires(kept(list, item, kind))) == named_if(
            list.contains(item),
            kind.wire(),
        ),
{
    assert(text_values(grant_wires(kept(list, item, kind))) =~= named_if(
        list.contains(item),
        kind.wire(),
    ));
}

proof fn sent_grants(list: Seq<GrantType>)
    ensures
        text_values(grant_wires(ordered_grants(list))) == named_if(
            list.contains(GrantType::AuthorizationCode),
            "OIDC_GRANT_TYPE_AUTHORIZATION_CODE"@,
        ) + named_if(list.contains(GrantType::Implicit), "OIDC_GRANT_TYPE_IMPLICIT"@) + named_if(
            list.contains(GrantType::RefreshToken),
            "OIDC_GRANT_TYPE_REFRESH_TOKEN"@,
        ) + named_if(list.contains(GrantType::DeviceCode), "OIDC_GRANT_TYPE_DEVICE_CODE"@)
            + named_if(
            list.contains(GrantType::TokenExchange),
            "OIDC_GRANT_TYPE_TOKEN_EXCHANGE"@,
        ),
{
    let code = kept(list, GrantType::AuthorizationCode, V1OidcGrantType::AuthorizationCode);
    let implicit = kept(list, GrantType::Implicit, V1OidcGrantType::Implicit);
    let refresh = kept(list, GrantType::RefreshToken, V1OidcGrantType::RefreshToken);
    let device = kept(list, GrantType::DeviceCode, V1OidcGrantType::DeviceCode);
    let exchange = kept(list, GrantType::TokenExchange, V1OidcGrantType::TokenExchange);
    kept_names(list, GrantType::AuthorizationCode, V1OidcGrantType::AuthorizationCode);
    kept_names(list, GrantType::Implicit, V1OidcGrantType::Implicit);
    kept_names(list, GrantType::RefreshToken, V1OidcGrantType::RefreshToken);
    kept_names(list, GrantType::DeviceCode, V1OidcGrantType::DeviceCode);
    kept_names(list, GrantType::TokenExchange, V1OidcGrantType::TokenExchange);
    assert(text_values(grant_wires(ordered_grants(list))) =~= text_values(grant_wires(code))
        + text_values(grant_wires(implicit)) + text_values(grant_wires(refresh)) + text_values(
        grant_wires(device),
    ) + text_values(grant_wires(exchange)));
}

proof fn sent_responses(list: Seq<ResponseType>)
    ensures
        text_values(response_wires(ordered_responses(list))) == named_if(
            list.contains(ResponseType::Code),
            "OIDC_RESPONSE_TYPE_CODE"@,
        ) + named_if(list.contains(ResponseType::IdToken), "OIDC_RESPONSE_TYPE_ID_TOKEN"@)
            + named_if(
            list.contains(ResponseType::IdTokenToken),
            "OIDC_RESPONSE_TYPE_ID_TOKEN_TOKEN"@,
        ),
{
    let code = kept(list, ResponseType::Code, V1OidcResponseType::Code);
    let id_token = kept(list, ResponseType::IdToken, V1OidcResponseType::IdToken);
    let both = kept(list, ResponseType::IdTokenToken, V1OidcResponseType::IdTokenToken);
    assert(text_values(response_wires(code)) =~= named_if(
        list.contains(ResponseType::Code),
        "OIDC_RESPONSE_TYPE_CODE"@,
    ));
    assert(text_values(response_wires(id_token)) =~= named_if(
        list.contains(ResponseType::IdToken),
        "OIDC_RESPONSE_TYPE_ID_TOKEN"@,
    ));
    assert(text_values(response_wires(both)) =~= named_if(
        list.contains(ResponseType::IdTokenToken),
        "OIDC_RESPONSE_TYPE_ID_TOKEN_TOKEN"@,
    ));
    assert(text_values(response_wires(ordered_responses(list))) =~= text_values(
        response_wires(code),
    ) + text_values(response_wires(id_token)) + text_values(response_wires(both)));
}

proof fn member_names_differ()
    ensures
        "name"@.len() == 4,
        "version"@.len() == 7 && "version"@[0] == 'v',
        "appType"@.len() == 7 && "appType"@[0] == 'a',
        "devMode"@.len() == 7 && "devMode"@[0] == 'd',
        "clockSkew"@.len() == 9,
        "grantTypes"@.len() == 10,
        "redirectUris"@.len() == 12 && "redirectUris"@[0] == 'r',
        "loginVersion"@.len() == 12 && "loginVersion"@[0] == 'l',
        "responseTypes"@.len() == 13,
        "authMethodType"@.len() == 14,
        "accessTokenType"@.len() == 15,
        "additionalOrigins"@.len() == 17,
        "idTokenRoleAssertion"@.len() == 20 && "idTokenRoleAssertion"@[0] == 'i',
        "backChannelLogoutUri"@.len() == 20 && "backChannelLogoutUri"@[0] == 'b',
        "postLogoutRedirectUris"@.len() == 22,
        "accessTokenRoleAssertion"@.len() == 24 && "accessTokenRoleAssertion"@[0] == 'a',
        "idTokenUserinfoAssertion"@.len() == 24 && "idTokenUserinfoAssertion"@[0] == 'i',
        "skipNativeAppSuccessPage"@.len() == 24 && "skipNativeAppSuccessPage"@[0] == 's',
{
    reveal_strlit("name");
    reveal_strlit("version");
    reveal_strlit("appType");
    reveal_strlit("devMode");
    reveal_strlit("clockSkew");
    reveal_strlit("grantTypes");
    reveal_strlit("redirectUris");
    reveal_strlit("loginVersion");
    reveal_strlit("responseTypes");
    reveal_strlit("authMethodType");
    reveal_strlit("accessTokenType");
    reveal_strlit("additionalOrigins");
    reveal_strlit("idTokenRoleAssertion");
    reveal_strlit("backChannelLogoutUri");
    reveal_strlit("postLogoutRedirectUris");
    reveal_strlit("accessTokenRoleAssertion");
    reveal_strlit("idTokenUserinfoAssertion");
    reveal_strlit("skipNativeAppSuccessPage");
}

/// Zitadel gets a clock skew as a number of seconds with the unit `s`: what
/// humantime reads, in full and without rounding where it reads whole
/// seconds. What humantime does not read is refused in its words, with the
/// skew quoted.
pub proof fn skews_are_sent_in_seconds(
    skew: Seq<char>,
    secs: u64,
    nanos: u32,
    message: Seq<char>,
)
    ensures
        parsed_duration(skew) == Ok::<(u64, u32), Seq<char>>((secs, nanos)) ==> (zitadel_skew(skew)
            matches Ok(text) && text.len() > 0 && text.last() == 's' && text.drop_last() == if nanos
            == 0 {
            decimal(secs as nat)
        } else {
            fractional_seconds(secs, nanos)
        }),
        parsed_duration(skew) == Err::<(u64, u32), Seq<char>>(message) ==> (zitadel_skew(skew)
            matches Err(failure) && failure.http is None && failure.zapp is None && failure.chain
            == seq!["clock skew "@ + quoted_text(skew), message]),
{
    reveal_strlit("s");
    assert("s"@.len() == 1 && "s"@[0] == 's');
    let plain = decimal(secs as nat);
    let fraction = fractional_seconds(secs, nanos);
    assert((plain + "s"@).drop_last() =~= plain);
    assert((fraction + "s"@).drop_last() =~= fraction);
    assert(FailureView::saying(message).within("clock skew "@ + quoted_text(skew)).chain =~= seq![
        "clock skew "@ + quoted_text(skew),
        message,
    ]);
}

} // verus!
