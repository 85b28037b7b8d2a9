//! Zitadel management API access scoped to the cluster's project: which
//! requests are made and what their answers mean. Sending them is left to
//! the caller.

use vstd::prelude::*;
use vstd::string::*;

use crate::address::{join_url, joined_url};
use crate::failure::{
    is_success, outcome, success, Failure, FailureView, HttpError, NOT_FOUND,
};
use crate::json::{object_members, Json, JsonView};
use crate::settings::OidcConfig;
use crate::text::{blank_means_white, is_text, opt_view, trim, trimmed, whitespace};

verus! {

// --- What Zitadel reports

/// State of an application.
#[derive(Clone, Copy, Debug, PartialEq, Eq, Structural)]
pub enum AppState {
    Unspecified,
    Active,
    Inactive,
}

/// An application, as reported by Zitadel.
#[derive(Debug)]
pub struct App {
    pub id: Option<String>,
    pub state: Option<AppState>,
    pub name: Option<String>,
    /// Only an OIDC application has one.
    pub oidc_config: Option<OidcConfig>,
}

/// Zitadel's answer to the creation of an application.
#[derive(Debug)]
pub struct CreatedApp {
    pub app_id: Option<String>,
    pub client_id: Option<String>,
    pub client_secret: Option<String>,
}

/// A project role, as reported by Zitadel.
#[derive(Debug)]
pub struct Role {
    pub key: Option<String>,
    pub display_name: Option<String>,
    pub group: Option<String>,
}

/// What Zitadel knows about an application after a sync.
#[derive(Debug)]
pub struct SyncedApplication {
    pub app_id: String,
    pub client_id: String,
    /// Only set when the application was just created (or its secret
    /// regenerated) and uses a client secret; Zitadel never returns it
    /// again.
    pub client_secret: Option<String>,
    /// Whether a change was pushed to Zitadel.
    pub changed: bool,
}

// --- Requests

/// HTTP method of a request.
#[derive(Clone, Copy, Debug, PartialEq, Eq, Structural)]
pub enum Method {
    Get,
    Post,
    Put,
    Delete,
}

/// What the answer to a request holds.
#[derive(Clone, Copy, Debug, PartialEq, Eq, Structural)]
pub enum AnswerKind {
    /// An application, if it is there.
    Found,
    /// Applications.
    Listed,
    /// What is known of a new application.
    Created,
    /// A client secret.
    Secret,
    /// Roles.
    Roles,
    /// Nothing of interest.
    Done,
}

/// What is sent with a management API request.
#[derive(Debug, PartialEq)]
pub enum Body {
    Json(Json),
    /// What the client library makes of the settings of an application.
    Client(serde_json::Map<String, serde_json::Value>),
}

/// What is sent with a management API request, as seen by contracts.
#[verifier::ext_equal]
pub enum BodyView {
    Json(JsonView),
    Client(Map<Seq<char>, JsonView>),
}

impl View for Body {
    type V = BodyView;

    open spec fn view(&self) -> BodyView {
        match *self {
            Body::Json(json) => BodyView::Json(json@),
            Body::Client(object) => BodyView::Client(object_members(object)),
        }
    }
}

/// A management API request.
#[derive(Debug)]
pub struct Call {
    pub method: Method,
    pub answer: AnswerKind,
    /// Relative to `management/v1/`.
    pub path: String,
    pub body: Option<Body>,
}

/// A management API request as seen by contracts.
#[verifier::ext_equal]
pub struct CallView {
    pub method: Method,
    pub answer: AnswerKind,
    pub path: Seq<char>,
    pub body: Option<BodyView>,
}

impl View for Call {
    type V = CallView;

    open spec fn view(&self) -> CallView {
        CallView {
            method: self.method,
            answer: self.answer,
            path: self.path@,
            body: match self.body {
                Some(body) => Some(body@),
                None => None,
            },
        }
    }
}

/// What is asked of Zitadel: a management API request, or the applications
/// of a name, which the client library lists page by page.
#[derive(Debug)]
pub enum Request {
    Call(Call),
    ListApplications(String),
}

/// What is asked of Zitadel, as seen by contracts.
#[verifier::ext_equal]
pub enum RequestView {
    Call(CallView),
    ListApplications(Seq<char>),
}

impl View for Request {
    type V = RequestView;

    open spec fn view(&self) -> RequestView {
        match self {
            Request::Call(call) => RequestView::Call(call@),
            Request::ListApplications(name) => RequestView::ListApplications(name@),
        }
    }
}

impl RequestView {
    /// What the answer holds.
    pub open spec fn answer(self) -> AnswerKind {
        match self {
            RequestView::Call(call) => call.answer,
            RequestView::ListApplications(_) => AnswerKind::Listed,
        }
    }
}

/// What came of a request, by what it asks for.
#[derive(Debug)]
pub enum Reply {
    /// An application by its ID.
    Found(Result<Option<App>, Failure>),
    /// The applications of a name.
    Listed(Result<Vec<App>, Failure>),
    /// A new application.
    Created(Result<CreatedApp, Failure>),
    /// A new client secret.
    Secret(Result<String, Failure>),
    /// Roles.
    Roles(Result<Vec<Role>, Failure>),
    /// A change or removal.
    Done(Result<(), Failure>),
}

impl Reply {
    /// What is replied.
    pub open spec fn kind(self) -> AnswerKind {
        match self {
            Reply::Found(_) => AnswerKind::Found,
            Reply::Listed(_) => AnswerKind::Listed,
            Reply::Created(_) => AnswerKind::Created,
            Reply::Secret(_) => AnswerKind::Secret,
            Reply::Roles(_) => AnswerKind::Roles,
            Reply::Done(_) => AnswerKind::Done,
        }
    }

    /// The reply to a request of some kind that failed.
    pub fn failed(kind: AnswerKind, failure: Failure) -> (r: Reply)
        ensures
            r.kind() == kind,
            fails_with(r, failure@),
    {
        match kind {
            AnswerKind::Found => Reply::Found(Err(failure)),
            AnswerKind::Listed => Reply::Listed(Err(failure)),
            AnswerKind::Created => Reply::Created(Err(failure)),
            AnswerKind::Secret => Reply::Secret(Err(failure)),
            AnswerKind::Roles => Reply::Roles(Err(failure)),
            AnswerKind::Done => Reply::Done(Err(failure)),
        }
    }
}

/// Whether what came of a request is this failure.
pub open spec fn fails_with(reply: Reply, failure: FailureView) -> bool {
    match reply {
        Reply::Found(r) => outcome(r) == Err::<Option<App>, FailureView>(failure),
        Reply::Listed(r) => outcome_of_list(r) == Err::<Seq<App>, FailureView>(failure),
        Reply::Created(r) => outcome(r) == Err::<CreatedApp, FailureView>(failure),
        Reply::Secret(r) => outcome(r) == Err::<String, FailureView>(failure),
        Reply::Roles(r) => outcome_of_list(r) == Err::<Seq<Role>, FailureView>(failure),
        Reply::Done(r) => outcome(r) == Err::<(), FailureView>(failure),
    }
}

/// Zitadel client acting as the project's service account.
#[derive(Debug)]
pub struct ProjectClient {
    /// Base URL of the Zitadel instance, ending in `/`.
    pub url: String,
    pub project_id: String,
}

impl ProjectClient {
    /// The path of the project.
    pub open spec fn project_path(self) -> Seq<char> {
        "projects/"@ + self.project_id@
    }

    /// The path of an application.
    pub open spec fn app_path(self, app_id: Seq<char>) -> Seq<char> {
        self.project_path() + "/apps/"@ + app_id
    }

    /// The path of a role.
    pub open spec fn role_path(self, key: Seq<char>) -> Seq<char> {
        self.project_path() + "/roles/"@ + key
    }

    pub(crate) fn path_of_project(&self) -> (r: String)
        ensures
            r@ == self.project_path(),
    {
        "projects/".to_owned().concat(self.project_id.as_str())
    }

    pub(crate) fn path_of_app(&self, app_id: &str) -> (r: String)
        ensures
            r@ == self.app_path(app_id@),
    {
        self.path_of_project().concat("/apps/").concat(app_id)
    }

    pub(crate) fn path_of_role(&self, key: &str) -> (r: String)
        ensures
            r@ == self.role_path(key@),
    {
        self.path_of_project().concat("/roles/").concat(key)
    }

    /// The client for a project, given what came of authenticating with the
    /// project's machine key.
    pub fn new(url: String, project_id: String, login: Result<(), Failure>) -> (r: Result<
        ProjectClient,
        Failure,
    >)
        ensures
            outcome(r) == authenticated(url, project_id, outcome(login)),
    {
        match login {
            Ok(_) => Ok(ProjectClient { url, project_id }),
            Err(failure) => Err(failure.context("authenticating against Zitadel")),
        }
    }

    // --- Transport

    /// The URL that a path relative to `management/v1/` stands for, or why
    /// there is none.
    pub open spec fn endpoint(self, path: Seq<char>) -> Result<Seq<char>, FailureView> {
        match joined_url(self.url@, "management/v1/"@ + path) {
            Ok(url) => Ok(url),
            Err(words) => Err(FailureView::saying(words)),
        }
    }

    /// The URL of a management API v1 request to `path` (relative to
    /// `management/v1/`).
    pub fn call_url(&self, path: &str) -> (r: Result<String, Failure>)
        ensures
            match r {
                Ok(url) => self.endpoint(path@) == Ok::<Seq<char>, FailureView>(url@),
                Err(failure) => self.endpoint(path@) == Err::<Seq<char>, FailureView>(failure@),
            },
    {
        match join_url(self.url.as_str(), "management/v1/".to_owned().concat(path).as_str()) {
            Ok(url) => Ok(url),
            Err(words) => Err(Failure::new(words)),
        }
    }
}

/// What a management API answer holds: its body, or `null` if that is blank;
/// a non-success answer is a failure of its own.
pub open spec fn answer(status: u16, body: Seq<char>) -> Result<Seq<char>, FailureView> {
    if !success(status) {
        Err(FailureView::answered(status, body))
    } else if trimmed(body).len() == 0 {
        Ok("null"@)
    } else {
        Ok(body)
    }
}

impl ProjectClient {
    /// Takes the JSON out of a management API answer. Non-success answers
    /// surface as [`HttpError`].
    pub fn call(status: u16, body: String) -> (r: Result<String, Failure>)
        ensures
            match r {
                Ok(text) => answer(status, body@) == Ok::<Seq<char>, FailureView>(text@),
                Err(failure) => answer(status, body@) == Err::<Seq<char>, FailureView>(failure@),
            },
    {
        if !is_success(status) {
            return Err(Failure::answered(HttpError { status, body }));
        }
        if trim(body.as_str()).as_str().unicode_len() == 0 {
            Ok("null".to_owned())
        } else {
            Ok(body)
        }
    }

    // --- Applications

    /// The request that lists the applications named `name`.
    pub fn find_application_request(name: &str) -> (r: Request)
        ensures
            r@ == RequestView::ListApplications(name@),
    {
        Request::ListApplications(name.to_owned())
    }

    /// Finds the OIDC application named `name` among those listed, if any.
    ///
    /// The listing is an exact-match query, but nothing is ever adopted that
    /// was not asked for, and only OIDC applications (an API or SAML app of
    /// that name is not ours to touch).
    pub fn find_application(name: &str, listing: Result<Vec<App>, Failure>) -> (r: Result<
        Option<App>,
        Failure,
    >)
        ensures
            outcome(r) == found_by_name(name@, outcome_of_list(listing)),
    {
        match listing {
            Ok(apps) => Ok(take_wanted(apps, name)),
            Err(failure) => Err(failure.context("listing applications")),
        }
    }

    /// The request for the application `app_id`.
    pub open spec fn lookup(self, app_id: Seq<char>) -> CallView {
        CallView {
            method: Method::Get,
            answer: AnswerKind::Found,
            path: self.app_path(app_id),
            body: None,
        }
    }

    /// The request for the application `app_id`.
    pub fn get_application_call(&self, app_id: &str) -> (r: Call)
        ensures
            r@ == self.lookup(app_id@),
    {
        Call {
            method: Method::Get,
            answer: AnswerKind::Found,
            path: self.path_of_app(app_id),
            body: None,
        }
    }

    /// Looks up an application by ID; `None` if it no longer exists.
    pub fn get_application(app_id: &str, reply: Result<Option<App>, Failure>) -> (r: Result<
        Option<App>,
        Failure,
    >)
        ensures
            outcome(r) == found_by_id(app_id@, outcome(reply)),
    {
        match reply {
            Ok(app) => Ok(app),
            Err(failure) => {
                if failure.has_status(NOT_FOUND) {
                    Ok(None)
                } else {
                    Err(
                        failure.context(
                            "looking up application ".to_owned().concat(app_id).as_str(),
                        ),
                    )
                }
            },
        }
    }

    /// The request for a new client secret of the application.
    pub open spec fn regeneration(self, app_id: Seq<char>) -> CallView {
        CallView {
            method: Method::Post,
            answer: AnswerKind::Secret,
            path: self.app_path(app_id) + "/oidc_config/_generate_client_secret"@,
            body: None,
        }
    }

    /// The request for a new client secret of the application; the old one
    /// stops working.
    pub fn regenerate_client_secret_call(&self, app_id: &str) -> (r: Call)
        ensures
            r@ == self.regeneration(app_id@),
    {
        Call {
            method: Method::Post,
            answer: AnswerKind::Secret,
            path: self.path_of_app(app_id).concat("/oidc_config/_generate_client_secret"),
            body: None,
        }
    }

    /// The new client secret of an application.
    pub fn regenerate_client_secret(reply: Result<String, Failure>) -> (r: Result<String, Failure>)
        ensures
            outcome(r) == regenerated(outcome(reply)),
    {
        match reply {
            Ok(secret) => Ok(secret),
            Err(failure) => Err(failure.context("regenerating client secret")),
        }
    }

    /// The request that removes the application.
    pub open spec fn app_removal(self, app_id: Seq<char>) -> CallView {
        CallView {
            method: Method::Delete,
            answer: AnswerKind::Done,
            path: self.app_path(app_id),
            body: None,
        }
    }

    /// The request that removes the application.
    pub fn remove_application_call(&self, app_id: &str) -> (r: Call)
        ensures
            r@ == self.app_removal(app_id@),
    {
        Call {
            method: Method::Delete,
            answer: AnswerKind::Done,
            path: self.path_of_app(app_id),
            body: None,
        }
    }

    /// Removes the application; one that is already gone is fine.
    pub fn remove_application(app_id: &str, reply: Result<(), Failure>) -> (r: Result<(), Failure>)
        ensures
            outcome(r) == removed("removing application "@ + app_id@, outcome(reply)),
    {
        gone(reply, "removing application ".to_owned().concat(app_id).as_str())
    }

    // --- Roles

    /// The request for the roles with `key`.
    pub open spec fn role_search(self, key: Seq<char>) -> CallView {
        CallView {
            method: Method::Post,
            answer: AnswerKind::Roles,
            path: self.project_path() + "/roles/_search"@,
            body: Some(BodyView::Json(role_query(key))),
        }
    }

    /// The request for the roles with `key`.
    pub fn find_role_call(&self, key: &str) -> (r: Call)
        ensures
            r@ == self.role_search(key@),
    {
        let query = Json::object().with("key", Json::text(key)).with(
            "method",
            Json::text("TEXT_QUERY_METHOD_EQUALS"),
        );
        assert(query@->Object_0 =~= seq![
            ("key"@, JsonView::Text(key@)),
            ("method"@, JsonView::Text("TEXT_QUERY_METHOD_EQUALS"@)),
        ]);
        let key_query = Json::object().with("keyQuery", query);
        assert(key_query@->Object_0 =~= seq![("keyQuery"@, query@)]);
        let limit = Json::object().with("limit", Json::Number(100));
        assert(limit@->Object_0 =~= seq![("limit"@, JsonView::Number(100))]);
        let queries = Json::single(key_query);
        let body = Json::object().with("query", limit).with("queries", queries);
        assert(body@->Object_0 =~= seq![("query"@, limit@), ("queries"@, queries@)]);
        Call {
            method: Method::Post,
            answer: AnswerKind::Roles,
            path: self.path_of_project().concat("/roles/_search"),
            body: Some(Body::Json(body)),
        }
    }

    /// Finds the project role with `key` among those listed, if any.
    pub fn find_role(key: &str, listing: Result<Vec<Role>, Failure>) -> (r: Result<
        Option<Role>,
        Failure,
    >)
        ensures
            outcome(r) == role_found(key@, outcome_of_list(listing)),
    {
        match listing {
            Ok(roles) => Ok(take_role(roles, key)),
            Err(failure) => Err(failure.context("listing roles")),
        }
    }

    /// The request that removes the role.
    pub open spec fn role_removal(self, key: Seq<char>) -> CallView {
        CallView {
            method: Method::Delete,
            answer: AnswerKind::Done,
            path: self.role_path(key),
            body: None,
        }
    }

    /// The request that removes the role.
    pub fn remove_role_call(&self, key: &str) -> (r: Call)
        ensures
            r@ == self.role_removal(key@),
    {
        Call {
            method: Method::Delete,
            answer: AnswerKind::Done,
            path: self.path_of_role(key),
            body: None,
        }
    }

    /// Removes the role; one that is already gone is fine.
    pub fn remove_role(key: &str, reply: Result<(), Failure>) -> (r: Result<(), Failure>)
        ensures
            outcome(r) == removed("removing role "@ + key@, outcome(reply)),
    {
        gone(reply, "removing role ".to_owned().concat(key).as_str())
    }
}

// --- What the answers mean

/// The client for a project, given what came of authenticating.
pub open spec fn authenticated(
    url: String,
    project_id: String,
    login: Result<(), FailureView>,
) -> Result<ProjectClient, FailureView> {
    match login {
        Ok(_) => Ok(ProjectClient { url, project_id }),
        Err(failure) => Err(failure.within("authenticating against Zitadel"@)),
    }
}

/// The outcome of a listing as seen by contracts.
pub open spec fn outcome_of_list<T>(result: Result<Vec<T>, Failure>) -> Result<
    Seq<T>,
    FailureView,
> {
    match result {
        Ok(list) => Ok(list@),
        Err(failure) => Err(failure@),
    }
}

/// Whether an application is one to adopt: an OIDC application of that very
/// name.
pub open spec fn wanted(app: App, name: Seq<char>) -> bool {
    opt_view(app.name) == Some(name) && app.oidc_config is Some
}

/// The first application to adopt.
pub open spec fn first_wanted(apps: Seq<App>, name: Seq<char>) -> Option<App>
    decreases apps.len(),
{
    if apps.len() == 0 {
        None
    } else if wanted(apps.first(), name) {
        Some(apps.first())
    } else {
        first_wanted(apps.drop_first(), name)
    }
}

/// What a listing says of the application `name`.
pub open spec fn found_by_name(name: Seq<char>, listing: Result<Seq<App>, FailureView>) -> Result<
    Option<App>,
    FailureView,
> {
    match listing {
        Ok(apps) => Ok(first_wanted(apps, name)),
        Err(failure) => Err(failure.within("listing applications"@)),
    }
}

/// What the answer to a lookup says of the application `app_id`.
pub open spec fn found_by_id(app_id: Seq<char>, reply: Result<Option<App>, FailureView>) -> Result<
    Option<App>,
    FailureView,
> {
    match reply {
        Ok(app) => Ok(app),
        Err(failure) => if failure.has_status(NOT_FOUND) {
            Ok(None)
        } else {
            Err(failure.within("looking up application "@ + app_id))
        },
    }
}

/// What came of the regeneration of a client secret.
pub open spec fn regenerated(reply: Result<String, FailureView>) -> Result<String, FailureView> {
    match reply {
        Ok(secret) => Ok(secret),
        Err(failure) => Err(failure.within("regenerating client secret"@)),
    }
}

/// What came of a removal: what is already gone counts as removed.
pub open spec fn removed(doing: Seq<char>, reply: Result<(), FailureView>) -> Result<
    (),
    FailureView,
> {
    match reply {
        Ok(_) => Ok(()),
        Err(failure) => if failure.has_status(NOT_FOUND) {
            Ok(())
        } else {
            Err(failure.within(doing))
        },
    }
}

/// The query for the roles with `key`.
pub open spec fn role_query(key: Seq<char>) -> JsonView {
    JsonView::Object(
        seq![
            ("query"@, JsonView::Object(seq![("limit"@, JsonView::Number(100))])),
            (
                "queries"@,
                JsonView::List(
                    seq![
                        JsonView::Object(
                            seq![
                                (
                                    "keyQuery"@,
                                    JsonView::Object(
                                        seq![
                                            ("key"@, JsonView::Text(key)),
                                            (
                                                "method"@,
                                                JsonView::Text("TEXT_QUERY_METHOD_EQUALS"@),
                                            ),
                                        ],
                                    ),
                                ),
                            ],
                        ),
                    ],
                ),
            ),
        ],
    )
}

/// The first role with `key`.
pub open spec fn first_role(roles: Seq<Role>, key: Seq<char>) -> Option<Role>
    decreases roles.len(),
{
    if roles.len() == 0 {
        None
    } else if opt_view(roles.first().key) == Some(key) {
        Some(roles.first())
    } else {
        first_role(roles.drop_first(), key)
    }
}

/// What a listing says of the role with `key`.
pub open spec fn role_found(key: Seq<char>, listing: Result<Seq<Role>, FailureView>) -> Result<
    Option<Role>,
    FailureView,
> {
    match listing {
        Ok(roles) => Ok(first_role(roles, key)),
        Err(failure) => Err(failure.within("listing roles"@)),
    }
}

fn take_wanted(apps: Vec<App>, name: &str) -> (r: Option<App>)
    ensures
        r == first_wanted(apps@, name@),
{
    let ghost all = apps@;
    let mut left = apps;
    let mut i: usize = 0;
    proof {
        assert(all.skip(0) =~= all);
    }
    while i < left.len()
        invariant
            i <= left@.len(),
            left@ == all,
            all == apps@,
            first_wanted(all.skip(i as int), name@) == first_wanted(all, name@),
        decreases left@.len() - i,
    {
        proof {
            assert(all.skip(i as int).first() == all[i as int]);
            assert(all.skip(i as int).drop_first() =~= all.skip(i + 1));
        }
        if is_text(&left[i].name, name) && left[i].oidc_config.is_some() {
            return Some(left.remove(i));
        }
        i = i + 1;
    }
    None
}

fn take_role(roles: Vec<Role>, key: &str) -> (r: Option<Role>)
    ensures
        r == first_role(roles@, key@),
{
    let ghost all = roles@;
    let mut left = roles;
    let mut i: usize = 0;
    proof {
        assert(all.skip(0) =~= all);
    }
    while i < left.len()
        invariant
            i <= left@.len(),
            left@ == all,
            all == roles@,
            first_role(all.skip(i as int), key@) == first_role(all, key@),
        decreases left@.len() - i,
    {
        proof {
            assert(all.skip(i as int).first() == all[i as int]);
            assert(all.skip(i as int).drop_first() =~= all.skip(i + 1));
        }
        if is_text(&left[i].key, key) {
            return Some(left.remove(i));
        }
        i = i + 1;
    }
    None
}

fn gone(reply: Result<(), Failure>, doing: &str) -> (r: Result<(), Failure>)
    ensures
        outcome(r) == removed(doing@, outcome(reply)),
{
    match reply {
        Ok(_) => Ok(()),
        Err(failure) => {
            if failure.has_status(NOT_FOUND) {
                Ok(())
            } else {
                Err(failure.context(doing))
            }
        },
    }
}

// --- Laws

/// Only what was asked for is ever adopted: an application that is found has
/// the very name and an OIDC configuration, and was among those listed.
pub proof fn only_oidc_applications_are_adopted(apps: Seq<App>, name: Seq<char>)
    ensures
        match first_wanted(apps, name) {
            Some(app) => wanted(app, name) && apps.contains(app),
            None => forall|i: int| 0 <= i < apps.len() ==> !wanted(#[trigger] apps[i], name),
        },
    decreases apps.len(),
{
    if apps.len() > 0 {
        let rest = apps.drop_first();
        only_oidc_applications_are_adopted(rest, name);
        if wanted(apps.first(), name) {
            assert(apps[0] == apps.first());
        } else {
            match first_wanted(rest, name) {
                Some(app) => {
                    let i = choose|i: int| 0 <= i < rest.len() && rest[i] == app;
                    assert(apps[i + 1] == app);
                },
                None => {
                    assert forall|i: int| 0 <= i < apps.len() implies !wanted(
                        #[trigger] apps[i],
                        name,
                    ) by {
                        if i > 0 {
                            assert(rest[i - 1] == apps[i]);
                        }
                    }
                },
            }
        }
    }
}

/// What is already gone counts as removed, under whatever context the answer
/// comes.
pub proof fn what_is_gone_is_removed(doing: Seq<char>, failure: FailureView)
    ensures
        removed(doing, Err(failure)) is Ok <==> failure.has_status(NOT_FOUND),
{
}

/// Every request says where it goes and what for: what concerns an application
/// or a role goes to it, in the project of the client, and to nothing else.
pub proof fn requests_go_where_they_belong(
    client: ProjectClient,
    app_id: Seq<char>,
    key: Seq<char>,
    path: Seq<char>,
)
    ensures
        client.lookup(app_id) == (CallView {
            method: Method::Get,
            answer: AnswerKind::Found,
            path: "projects/"@ + client.project_id@ + "/apps/"@ + app_id,
            body: None,
        }),
        client.regeneration(app_id) == (CallView {
            method: Method::Post,
            answer: AnswerKind::Secret,
            path: "projects/"@ + client.project_id@ + "/apps/"@ + app_id
                + "/oidc_config/_generate_client_secret"@,
            body: None,
        }),
        client.app_removal(app_id) == (CallView {
            method: Method::Delete,
            answer: AnswerKind::Done,
            path: "projects/"@ + client.project_id@ + "/apps/"@ + app_id,
            body: None,
        }),
        client.role_removal(key) == (CallView {
            method: Method::Delete,
            answer: AnswerKind::Done,
            path: "projects/"@ + client.project_id@ + "/roles/"@ + key,
            body: None,
        }),
        client.endpoint(path) == match joined_url(client.url@, "management/v1/"@ + path) {
            Ok(url) => Ok(url),
            Err(words) => Err(FailureView { http: None, zapp: None, chain: seq![words] }),
        },
{
}

/// Roles are searched for by their very key: the query names the key, asks for
/// equality, and is the only one.
pub proof fn roles_are_searched_for_by_key(client: ProjectClient, key: Seq<char>)
    ensures
        ({
            let search = client.role_search(key);
            &&& search.method == Method::Post
            &&& search.answer == AnswerKind::Roles
            &&& search.path == "projects/"@ + client.project_id@ + "/roles/_search"@
            &&& search.body matches Some(BodyView::Json(JsonView::Object(members)))
            &&& members.len() == 2
            &&& members[0].0 == "query"@
            &&& members[0].1 == JsonView::Object(seq![("limit"@, JsonView::Number(100))])
            &&& members[1].0 == "queries"@
            &&& members[1].1 matches JsonView::List(queries)
            &&& queries.len() == 1
            &&& queries[0] matches JsonView::Object(query)
            &&& query.len() == 1
            &&& query[0].0 == "keyQuery"@
            &&& query[0].1 == JsonView::Object(
                seq![
                    ("key"@, JsonView::Text(key)),
                    ("method"@, JsonView::Text("TEXT_QUERY_METHOD_EQUALS"@)),
                ],
            )
        }),
{
}

/// Of the applications listed, the one that is found is the first that has the
/// name and is an OIDC application; that none is found means that there is
/// none.
pub proof fn the_first_application_of_the_name_is_found(apps: Seq<App>, name: Seq<char>)
    ensures
        match found_by_name(name, Ok(apps)) {
            Ok(Some(app)) => exists|i: int|
                {
                    &&& 0 <= i < apps.len()
                    &&& #[trigger] apps[i] == app
                    &&& app.name is Some && app.name->0@ == name && app.oidc_config is Some
                    &&& forall|j: int|
                        0 <= j < i ==> !((#[trigger] apps[j]).name is Some && apps[j].name->0@
                            == name && apps[j].oidc_config is Some)
                },
            Ok(None) => forall|j: int|
                0 <= j < apps.len() ==> !((#[trigger] apps[j]).name is Some && apps[j].name->0@
                    == name && apps[j].oidc_config is Some),
            Err(_) => false,
        },
    decreases apps.len(),
{
    if apps.len() > 0 {
        let rest = apps.drop_first();
        the_first_application_of_the_name_is_found(rest, name);
        assert(apps.first() == apps[0]);
        assert forall|j: int| 1 <= j < apps.len() implies #[trigger] apps[j] == rest[j - 1] by {}
        if !wanted(apps[0], name) {
            match first_wanted(rest, name) {
                Some(app) => {
                    let i = choose|i: int|
                        {
                            &&& 0 <= i < rest.len()
                            &&& #[trigger] rest[i] == app
                            &&& app.name is Some && app.name->0@ == name && app.oidc_config is Some
                            &&& forall|j: int|
                                0 <= j < i ==> !((#[trigger] rest[j]).name is Some
                                    && rest[j].name->0@ == name && rest[j].oidc_config is Some)
                        };
                    assert(apps[i + 1] == app);
                    assert forall|j: int| 0 <= j < i + 1 implies !((#[trigger] apps[j]).name is Some
                        && apps[j].name->0@ == name && apps[j].oidc_config is Some) by {
                        if j > 0 {
                            assert(apps[j] == rest[j - 1]);
                        }
                    }
                },
                None => {},
            }
        }
    }
}

/// Of the roles listed, the one that is found is the first that has the key;
/// that none is found means that there is none.
pub proof fn the_first_role_of_the_key_is_found(roles: Seq<Role>, key: Seq<char>)
    ensures
        match role_found(key, Ok(roles)) {
            Ok(Some(role)) => exists|i: int|
                {
                    &&& 0 <= i < roles.len()
                    &&& #[trigger] roles[i] == role
                    &&& role.key is Some && role.key->0@ == key
                    &&& forall|j: int|
                        0 <= j < i ==> !((#[trigger] roles[j]).key is Some && roles[j].key->0@
                            == key)
                },
            Ok(None) => forall|j: int|
                0 <= j < roles.len() ==> !((#[trigger] roles[j]).key is Some && roles[j].key->0@
                    == key),
            Err(_) => false,
        },
    decreases roles.len(),
{
    if roles.len() > 0 {
        let rest = roles.drop_first();
        the_first_role_of_the_key_is_found(rest, key);
        assert(roles.first() == roles[0]);
        assert forall|j: int| 1 <= j < roles.len() implies #[trigger] roles[j] == rest[j - 1] by {}
        if opt_view(roles[0].key) != Some(key) {
            match first_role(rest, key) {
                Some(role) => {
                    let i = choose|i: int|
                        {
                            &&& 0 <= i < rest.len()
                            &&& #[trigger] rest[i] == role
                            &&& role.key is Some && role.key->0@ == key
                            &&& forall|j: int|
                                0 <= j < i ==> !((#[trigger] rest[j]).key is Some && rest[j].key->0@
                                    == key)
                        };
                    assert(roles[i + 1] == role);
                    assert forall|j: int| 0 <= j < i + 1 implies !((#[trigger] roles[j]).key is Some
                        && roles[j].key->0@ == key) by {
                        if j > 0 {
                            assert(roles[j] == rest[j - 1]);
                        }
                    }
                },
                None => {},
            }
        }
    }
}

/// What an answer means goes by its status: one of the two hundreds brings its
/// body, `null` standing for a blank one; any other is a failure that keeps
/// status and body.
pub proof fn answers_go_by_their_status(status: u16, body: Seq<char>)
    ensures
        status / 100 == 2 ==> (answer(status, body) matches Ok(text) && if (exists|i: int|
            0 <= i < body.len() && !whitespace(#[trigger] body[i])) {
            text == body
        } else {
            text == "null"@
        }),
        status / 100 != 2 ==> (answer(status, body) matches Err(failure) && failure.http == Some(
            (status, body),
        )),
{
    blank_means_white(body);
}

/// What has no status of its own keeps the words of the call that failed: a
/// listing, a lookup, a regeneration or a removal; only a lookup or removal of
/// what is gone is no failure.
pub proof fn failed_calls_say_what_they_were_for(
    failure: FailureView,
    name: Seq<char>,
    doing: Seq<char>,
    url: String,
    project_id: String,
)
    ensures
        found_by_name(name, Err(failure)) matches Err(e) && e.chain
            == seq!["listing applications"@] + failure.chain && e.http == failure.http,
        role_found(name, Err(failure)) matches Err(e) && e.chain == seq!["listing roles"@]
            + failure.chain && e.http == failure.http,
        regenerated(Err(failure)) matches Err(e) && e.chain == seq!["regenerating client secret"@]
            + failure.chain && e.http == failure.http,
        authenticated(url, project_id, Err(failure)) matches Err(e) && e.chain
            == seq!["authenticating against Zitadel"@] + failure.chain && e.http == failure.http,
        (failure.http matches Some(reply) && reply.0 == 404) ==> found_by_id(name, Err(failure))
            == Ok::<Option<App>, FailureView>(None) && removed(doing, Err(failure)) == Ok::<
            (),
            FailureView,
        >(()),
        !(failure.http matches Some(reply) && reply.0 == 404) ==> {
            &&& found_by_id(name, Err(failure)) matches Err(e) && e.chain
                == seq!["looking up application "@ + name] + failure.chain && e.http
                == failure.http
            &&& removed(doing, Err(failure)) matches Err(e) && e.chain == seq![doing]
                + failure.chain && e.http == failure.http
        },
{
}

/// What succeeds is handed on as it is: the application looked up, the new
/// secret, the removal, and the client of the project.
pub proof fn successful_calls_are_taken_at_their_word(
    name: Seq<char>,
    app: Option<App>,
    secret: String,
    url: String,
    project_id: String,
)
    ensures
        found_by_id(name, Ok(app)) == Ok::<Option<App>, FailureView>(app),
        regenerated(Ok(secret)) == Ok::<String, FailureView>(secret),
        removed(name, Ok(())) == Ok::<(), FailureView>(()),
        authenticated(url, project_id, Ok(())) matches Ok(client) && client.url == url
            && client.project_id == project_id,
{
}

/// Contracts speak of requests as they are sent: method, path, body and the
/// kind of answer.
pub proof fn requests_are_seen_as_they_are(request: Request, call: Call)
    ensures
        call@.method == call.method,
        call@.answer == call.answer,
        call@.path == call.path@,
        match call.body {
            Some(Body::Json(json)) => call@.body == Some(BodyView::Json(json@)),
            Some(Body::Client(object)) => call@.body == Some(
                BodyView::Client(object_members(object)),
            ),
            None => call@.body is None,
        },
        match request {
            Request::Call(call) => request@ == RequestView::Call(call@),
            Request::ListApplications(name) => request@ == RequestView::ListApplications(name@),
        },
{
}

} // verus!
