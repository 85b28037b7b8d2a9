//! Keeping an application in Zitadel in sync with its settings.
//!
//! A sync is a sequence of requests, each depending on what came of those
//! before it. [`ApplicationSync`] is where it stands: it says which request
//! comes next and takes what came of it.

use vstd::prelude::*;
use vstd::string::*;

use crate::failure::{context_keeps_auth_errors, outcome, Failure, FailureView, NOT_FOUND};
use crate::json::{Json, JsonView};
use crate::oidc::V1OidcAuthMethodType;
use crate::settings::{stored_settings_match, OidcSettings};
use crate::text::{is_text, opt_view};
use crate::zitadel::{
    fails_with, first_wanted, found_by_id, found_by_name, only_oidc_applications_are_adopted,
    outcome_of_list, regenerated, AnswerKind, App, AppState, Body, BodyView, Call, CallView,
    CreatedApp, Method, ProjectClient, Reply, Request, RequestView, SyncedApplication,
};

verus! {

/// What is left to change about an application that exists.
#[derive(Debug)]
pub struct AppChange {
    pub app_id: String,
    pub client_id: String,
    pub reactivate: bool,
    pub rename: bool,
    pub update: bool,
    /// Switching to a secret-based method makes Zitadel generate a secret
    /// that is not returned by the update; a fresh one is fetched.
    pub regenerate: bool,
    /// Whether a change was pushed to Zitadel already.
    pub changed: bool,
}

/// A single change to an application.
#[derive(Clone, Copy, Debug, PartialEq, Eq, Structural)]
pub enum AppTask {
    Reactivate,
    Rename,
    Update,
    Regenerate,
}

/// Where a sync stands.
#[derive(Debug)]
pub enum ApplicationSync {
    /// To look for the application by the ID that the resource remembers.
    Get(String),
    /// To look for it by name.
    Find,
    /// To create it.
    Create,
    /// To change it.
    Change(AppChange),
    Done(Result<SyncedApplication, Failure>),
}

/// Where a sync stands, as seen by contracts.
#[verifier::ext_equal]
pub enum SyncState {
    Get(String),
    Find,
    Create,
    Change(AppChange),
    Done(Result<SyncedApplication, FailureView>),
}

impl View for ApplicationSync {
    type V = SyncState;

    open spec fn view(&self) -> SyncState {
        match *self {
            ApplicationSync::Get(id) => SyncState::Get(id),
            ApplicationSync::Find => SyncState::Find,
            ApplicationSync::Create => SyncState::Create,
            ApplicationSync::Change(change) => SyncState::Change(change),
            ApplicationSync::Done(result) => SyncState::Done(outcome(result)),
        }
    }
}

impl AppChange {
    /// The next change, in the order in which they are made.
    pub open spec fn next(self) -> Option<AppTask> {
        if self.reactivate {
            Some(AppTask::Reactivate)
        } else if self.rename {
            Some(AppTask::Rename)
        } else if self.update {
            Some(AppTask::Update)
        } else if self.regenerate {
            Some(AppTask::Regenerate)
        } else {
            None
        }
    }

    /// How many changes are left.
    pub open spec fn left(self) -> nat {
        (if self.reactivate {
            1nat
        } else {
            0nat
        }) + (if self.rename {
            1nat
        } else {
            0nat
        }) + (if self.update {
            1nat
        } else {
            0nat
        }) + (if self.regenerate {
            1nat
        } else {
            0nat
        })
    }

    /// What is left once `task` is done.
    pub open spec fn without(self, task: AppTask) -> AppChange {
        AppChange {
            app_id: self.app_id,
            client_id: self.client_id,
            reactivate: self.reactivate && task != AppTask::Reactivate,
            rename: self.rename && task != AppTask::Rename,
            update: self.update && task != AppTask::Update,
            regenerate: self.regenerate && task != AppTask::Regenerate,
            changed: true,
        }
    }

    /// Where the sync stands with these changes left and this secret at
    /// hand.
    pub open spec fn state(self, client_secret: Option<String>) -> SyncState {
        if self.next() is Some {
            SyncState::Change(self)
        } else {
            SyncState::Done(
                Ok(
                    SyncedApplication {
                        app_id: self.app_id,
                        client_id: self.client_id,
                        client_secret,
                        changed: self.changed,
                    },
                ),
            )
        }
    }

    /// The next change, in the order in which they are made.
    pub fn next_task(&self) -> (r: Option<AppTask>)
        ensures
            r == self.next(),
    {
        if self.reactivate {
            Some(AppTask::Reactivate)
        } else if self.rename {
            Some(AppTask::Rename)
        } else if self.update {
            Some(AppTask::Update)
        } else if self.regenerate {
            Some(AppTask::Regenerate)
        } else {
            None
        }
    }

    fn done_with(self, task: AppTask) -> (r: AppChange)
        ensures
            r == self.without(task),
    {
        AppChange {
            app_id: self.app_id,
            client_id: self.client_id,
            reactivate: self.reactivate && task != AppTask::Reactivate,
            rename: self.rename && task != AppTask::Rename,
            update: self.update && task != AppTask::Update,
            regenerate: self.regenerate && task != AppTask::Regenerate,
            changed: true,
        }
    }

    fn into_sync(self, client_secret: Option<String>) -> (r: ApplicationSync)
        ensures
            r@ == self.state(client_secret),
    {
        if self.next_task().is_some() {
            ApplicationSync::Change(self)
        } else {
            ApplicationSync::Done(
                Ok(
                    SyncedApplication {
                        app_id: self.app_id,
                        client_id: self.client_id,
                        client_secret,
                        changed: self.changed,
                    },
                ),
            )
        }
    }
}

/// What a task is called when it fails.
pub open spec fn task_label(task: AppTask) -> Seq<char> {
    match task {
        AppTask::Reactivate => "reactivating application"@,
        AppTask::Rename => "renaming application"@,
        AppTask::Update => "updating application configuration"@,
        AppTask::Regenerate => "regenerating client secret"@,
    }
}

fn task_text(task: AppTask) -> (r: &'static str)
    ensures
        r@ == task_label(task),
{
    match task {
        AppTask::Reactivate => "reactivating application",
        AppTask::Rename => "renaming application",
        AppTask::Update => "updating application configuration",
        AppTask::Regenerate => "regenerating client secret",
    }
}

/// Whether an authentication method has a client secret.
pub open spec fn secret_based(method: V1OidcAuthMethodType) -> bool {
    method is Basic || method is Post
}

/// What has to change about an application for it to have `name` and
/// `settings`, or why it cannot be managed.
pub open spec fn plan(app: App, name: Seq<char>, settings: OidcSettings) -> Result<
    AppChange,
    FailureView,
> {
    match (app.id, app.oidc_config) {
        (None, _) => Err(FailureView::saying("Zitadel returned an application without id"@)),
        (Some(_), None) => Err(FailureView::saying("application has no OIDC config"@)),
        (Some(app_id), Some(config)) => match config.client_id {
            None => Err(FailureView::saying("Zitadel returned no client id"@)),
            Some(client_id) => Ok(
                AppChange {
                    app_id,
                    client_id,
                    reactivate: app.state == Some(AppState::Inactive),
                    rename: opt_view(app.name) != Some(name),
                    update: !settings.agrees(config),
                    regenerate: !settings.agrees(config) && config.auth_method_type != Some(
                        settings.auth_method_type,
                    ) && secret_based(settings.auth_method_type),
                    changed: false,
                },
            ),
        },
    }
}

/// What has to change about an application for it to have `name` and
/// `settings`, or why it cannot be managed.
pub fn plan_changes(app: App, name: &str, settings: &OidcSettings) -> (r: Result<
    AppChange,
    Failure,
>)
    ensures
        outcome(r) == plan(app, name@, *settings),
{
    let rename = !is_text(&app.name, name);
    let reactivate = match app.state {
        Some(state) => state == AppState::Inactive,
        None => false,
    };
    match (app.id, app.oidc_config) {
        (None, _) => Err(Failure::new("Zitadel returned an application without id".to_owned())),
        (Some(_), None) => Err(Failure::new("application has no OIDC config".to_owned())),
        (Some(app_id), Some(config)) => {
            let update = !settings.matches(&config);
            let method_changed = match config.auth_method_type {
                Some(method) => method != settings.auth_method_type,
                None => true,
            };
            let secret = matches!(
                settings.auth_method_type,
                V1OidcAuthMethodType::Basic | V1OidcAuthMethodType::Post
            );
            match config.client_id {
                None => Err(Failure::new("Zitadel returned no client id".to_owned())),
                Some(client_id) => Ok(
                    AppChange {
                        app_id,
                        client_id,
                        reactivate,
                        rename,
                        update,
                        regenerate: update && method_changed && secret,
                        changed: false,
                    },
                ),
            }
        },
    }
}

/// Where the sync stands once `app` was found.
pub open spec fn adopt(app: App, name: Seq<char>, settings: OidcSettings) -> SyncState {
    match plan(app, name, settings) {
        Ok(change) => change.state(None),
        Err(failure) => SyncState::Done(Err(failure)),
    }
}

fn adopt_app(app: App, name: &str, settings: &OidcSettings) -> (r: ApplicationSync)
    ensures
        r@ == adopt(app, name@, *settings),
{
    match plan_changes(app, name, settings) {
        Ok(change) => change.into_sync(None),
        Err(failure) => ApplicationSync::Done(Err(failure)),
    }
}

/// What Zitadel's answer to the creation says of the new application.
pub open spec fn creation_result(reply: Result<CreatedApp, FailureView>) -> Result<
    SyncedApplication,
    FailureView,
> {
    match reply {
        Err(failure) => Err(failure.within("creating application"@)),
        Ok(created) => match (created.app_id, created.client_id) {
            (None, _) => Err(FailureView::saying("Zitadel returned no app id"@)),
            (Some(_), None) => Err(FailureView::saying("Zitadel returned no client id"@)),
            (Some(app_id), Some(client_id)) => Ok(
                SyncedApplication {
                    app_id,
                    client_id,
                    client_secret: match created.client_secret {
                        Some(secret) => if secret@.len() == 0 {
                            None
                        } else {
                            Some(secret)
                        },
                        None => None,
                    },
                    changed: true,
                },
            ),
        },
    }
}

/// What Zitadel's answer to the creation says of the new application.
pub fn created_application(reply: Result<CreatedApp, Failure>) -> (r: Result<
    SyncedApplication,
    Failure,
>)
    ensures
        outcome(r) == creation_result(outcome(reply)),
{
    match reply {
        Err(failure) => Err(failure.context("creating application")),
        Ok(created) => match (created.app_id, created.client_id) {
            (None, _) => Err(Failure::new("Zitadel returned no app id".to_owned())),
            (Some(_), None) => Err(Failure::new("Zitadel returned no client id".to_owned())),
            (Some(app_id), Some(client_id)) => {
                let client_secret = match created.client_secret {
                    Some(secret) => if secret.as_str().unicode_len() == 0 {
                        None
                    } else {
                        Some(secret)
                    },
                    None => None,
                };
                Ok(SyncedApplication { app_id, client_id, client_secret, changed: true })
            },
        },
    }
}

impl SyncState {
    /// Whether nothing is left to be asked.
    pub open spec fn is_done(self) -> bool {
        self is Done
    }

    /// Whether `reply` answers what is asked in this state.
    pub open spec fn expects(self, reply: Reply) -> bool {
        match self {
            SyncState::Get(_) => reply is Found,
            SyncState::Find => reply is Listed,
            SyncState::Create => reply is Created,
            SyncState::Change(change) => match change.next() {
                Some(AppTask::Regenerate) => reply is Secret,
                Some(_) => reply is Done,
                None => false,
            },
            SyncState::Done(_) => false,
        }
    }

    /// What is asked of Zitadel in this state.
    pub open spec fn asks(
        self,
        client: ProjectClient,
        name: Seq<char>,
        settings: OidcSettings,
    ) -> Option<RequestView> {
        match self {
            SyncState::Get(id) => Some(RequestView::Call(client.lookup(id@))),
            SyncState::Find => Some(RequestView::ListApplications(name)),
            SyncState::Create => Some(RequestView::Call(client.app_creation(name, settings))),
            SyncState::Change(change) => match change.next() {
                Some(task) => Some(
                    RequestView::Call(client.app_change(task, change.app_id@, name, settings)),
                ),
                None => None,
            },
            SyncState::Done(_) => None,
        }
    }

    /// Where the sync stands after `reply`.
    pub open spec fn after(
        self,
        name: Seq<char>,
        settings: OidcSettings,
        reply: Reply,
    ) -> SyncState {
        match (self, reply) {
            (SyncState::Get(id), Reply::Found(reply)) => match found_by_id(id@, outcome(reply)) {
                Ok(Some(app)) => if app.oidc_config is Some {
                    adopt(app, name, settings)
                } else {
                    SyncState::Find
                },
                Ok(None) => SyncState::Find,
                Err(failure) => SyncState::Done(Err(failure)),
            },
            (SyncState::Find, Reply::Listed(listing)) => match found_by_name(
                name,
                outcome_of_list(listing),
            ) {
                Ok(Some(app)) => adopt(app, name, settings),
                Ok(None) => SyncState::Create,
                Err(failure) => SyncState::Done(Err(failure)),
            },
            (SyncState::Create, Reply::Created(reply)) => SyncState::Done(
                creation_result(outcome(reply)),
            ),
            (SyncState::Change(change), Reply::Secret(reply)) => match regenerated(
                outcome(reply),
            ) {
                Ok(secret) => change.without(AppTask::Regenerate).state(Some(secret)),
                Err(failure) => SyncState::Done(Err(failure)),
            },
            (SyncState::Change(change), Reply::Done(reply)) => match outcome(reply) {
                Ok(_) => change.without(change.next()->0).state(None),
                Err(failure) => SyncState::Done(
                    Err(failure.within(task_label(change.next()->0))),
                ),
            },
            _ => self,
        }
    }

    /// An upper bound on the requests that are still to be made.
    pub open spec fn requests_left(self) -> nat {
        match self {
            SyncState::Get(_) => 6,
            SyncState::Find => 5,
            SyncState::Create => 1,
            SyncState::Change(change) => change.left(),
            SyncState::Done(_) => 0,
        }
    }
}

impl ProjectClient {
    /// The request that creates the application.
    pub open spec fn app_creation(self, name: Seq<char>, settings: OidcSettings) -> CallView {
        CallView {
            method: Method::Post,
            answer: AnswerKind::Created,
            path: self.project_path() + "/apps/oidc"@,
            body: Some(BodyView::Client(settings.creation(name))),
        }
    }

    /// The request that makes a change.
    pub open spec fn app_change(
        self,
        task: AppTask,
        app_id: Seq<char>,
        name: Seq<char>,
        settings: OidcSettings,
    ) -> CallView {
        match task {
            AppTask::Reactivate => CallView {
                method: Method::Post,
                answer: AnswerKind::Done,
                path: self.app_path(app_id) + "/_reactivate"@,
                body: None,
            },
            AppTask::Rename => CallView {
                method: Method::Put,
                answer: AnswerKind::Done,
                path: self.app_path(app_id),
                body: Some(BodyView::Json(JsonView::Object(seq![("name"@, JsonView::Text(name))]))),
            },
            AppTask::Update => CallView {
                method: Method::Put,
                answer: AnswerKind::Done,
                path: self.app_path(app_id) + "/oidc_config"@,
                body: Some(BodyView::Client(settings.update())),
            },
            AppTask::Regenerate => self.regeneration(app_id),
        }
    }

    fn create_call(&self, name: &str, settings: &OidcSettings) -> (r: Call)
        ensures
            r@ == self.app_creation(name@, *settings),
    {
        Call {
            method: Method::Post,
            answer: AnswerKind::Created,
            path: self.path_of_project().concat("/apps/oidc"),
            body: Some(Body::Client(settings.add_body(name))),
        }
    }

    fn change_call(
        &self,
        task: AppTask,
        app_id: &str,
        name: &str,
        settings: &OidcSettings,
    ) -> (r: Call)
        ensures
            r@ == self.app_change(task, app_id@, name@, *settings),
    {
        match task {
            AppTask::Reactivate => Call {
                method: Method::Post,
                answer: AnswerKind::Done,
                path: self.path_of_app(app_id).concat("/_reactivate"),
                body: None,
            },
            AppTask::Rename => {
                let body = Json::object().with("name", Json::text(name));
                assert(body@->Object_0 =~= seq![("name"@, JsonView::Text(name@))]);
                Call {
                    method: Method::Put,
                    answer: AnswerKind::Done,
                    path: self.path_of_app(app_id),
                    body: Some(Body::Json(body)),
                }
            },
            AppTask::Update => Call {
                method: Method::Put,
                answer: AnswerKind::Done,
                path: self.path_of_app(app_id).concat("/oidc_config"),
                body: Some(Body::Client(settings.update_body())),
            },
            AppTask::Regenerate => self.regenerate_client_secret_call(app_id),
        }
    }

    /// How a sync begins: with the application of the ID that the resource
    /// remembers, else with that of the name.
    pub open spec fn sync_start(known_id: Option<String>) -> SyncState {
        match known_id {
            Some(id) => SyncState::Get(id),
            None => SyncState::Find,
        }
    }

    /// Ensures that an OIDC application with given settings exists in the
    /// project: created if missing, otherwise adopted by name (or found by
    /// `known_id` if the resource remembers one) and updated on drift. This
    /// is how the sync begins.
    pub fn sync_application(known_id: &Option<String>) -> (r: ApplicationSync)
        ensures
            r@ == ProjectClient::sync_start(*known_id),
    {
        match known_id {
            Some(id) => ApplicationSync::Get(id.clone()),
            None => ApplicationSync::Find,
        }
    }
}

impl ApplicationSync {
    /// What is to be asked of Zitadel next, nothing if the sync is done.
    pub fn request(
        &self,
        client: &ProjectClient,
        name: &str,
        settings: &OidcSettings,
    ) -> (r: Option<
        Request,
    >)
        ensures
            match r {
                Some(request) => self@.asks(*client, name@, *settings) == Some(request@),
                None => self@.asks(*client, name@, *settings) is None,
            },
    {
        match self {
            ApplicationSync::Get(id) => Some(
                Request::Call(client.get_application_call(id.as_str())),
            ),
            ApplicationSync::Find => Some(ProjectClient::find_application_request(name)),
            ApplicationSync::Create => Some(Request::Call(client.create_call(name, settings))),
            ApplicationSync::Change(change) => match change.next_task() {
                Some(task) => Some(
                    Request::Call(client.change_call(task, change.app_id.as_str(), name, settings)),
                ),
                None => None,
            },
            ApplicationSync::Done(_) => None,
        }
    }

    /// Takes what came of the request.
    pub fn step(self, name: &str, settings: &OidcSettings, reply: Reply) -> (r: ApplicationSync)
        requires
            self@.expects(reply),
        ensures
            r@ == self@.after(name@, *settings, reply),
    {
        match (self, reply) {
            (ApplicationSync::Get(id), Reply::Found(reply)) => {
                match ProjectClient::get_application(id.as_str(), reply) {
                    Ok(Some(app)) => {
                        if app.oidc_config.is_some() {
                            adopt_app(app, name, settings)
                        } else {
                            ApplicationSync::Find
                        }
                    },
                    Ok(None) => ApplicationSync::Find,
                    Err(failure) => ApplicationSync::Done(Err(failure)),
                }
            },
            (ApplicationSync::Find, Reply::Listed(listing)) => {
                match ProjectClient::find_application(name, listing) {
                    Ok(Some(app)) => adopt_app(app, name, settings),
                    Ok(None) => ApplicationSync::Create,
                    Err(failure) => ApplicationSync::Done(Err(failure)),
                }
            },
            (ApplicationSync::Create, Reply::Created(reply)) => {
                ApplicationSync::Done(created_application(reply))
            },
            (ApplicationSync::Change(change), Reply::Secret(reply)) => {
                match ProjectClient::regenerate_client_secret(reply) {
                    Ok(secret) => change.done_with(AppTask::Regenerate).into_sync(Some(secret)),
                    Err(failure) => ApplicationSync::Done(Err(failure)),
                }
            },
            (ApplicationSync::Change(change), Reply::Done(reply)) => {
                match (change.next_task(), reply) {
                    (Some(task), Ok(_)) => change.done_with(task).into_sync(None),
                    (Some(task), Err(failure)) => ApplicationSync::Done(
                        Err(failure.context(task_text(task))),
                    ),
                    (None, _) => ApplicationSync::Change(change),
                }
            },
            (sync, _) => sync,
        }
    }
}

// --- Laws

impl SyncState {
    /// What a state that a sync can be in is like: there is something to
    /// change where something is to be changed.
    pub open spec fn live(self) -> bool {
        self matches SyncState::Change(change) ==> change.next() is Some
    }

    /// Whether `replies` answer, one after the other, what a sync asks that
    /// is in this state.
    pub open spec fn answered_by(
        self,
        name: Seq<char>,
        settings: OidcSettings,
        replies: Seq<Reply>,
    ) -> bool
        decreases replies.len(),
    {
        replies.len() > 0 ==> self.expects(replies.first()) && self.after(
            name,
            settings,
            replies.first(),
        ).answered_by(name, settings, replies.drop_first())
    }
}

/// A sync is done exactly when it asks for nothing more, it can take every
/// reply of the kind that it asks for, and it stays in states of which that
/// holds.
pub proof fn sync_asks_until_it_is_done(
    state: SyncState,
    client: ProjectClient,
    name: Seq<char>,
    settings: OidcSettings,
    reply: Reply,
)
    requires
        state.live(),
    ensures
        state.is_done() <==> state.asks(client, name, settings) is None,
        state.asks(client, name, settings) matches Some(request) ==> (state.expects(reply)
            <==> reply.kind() == request.answer()),
        state.expects(reply) ==> state.after(name, settings, reply).live(),
{
}

/// Every answer brings a sync closer to its end.
pub proof fn sync_progresses(
    state: SyncState,
    name: Seq<char>,
    settings: OidcSettings,
    reply: Reply,
)
    requires
        state.live(),
        state.expects(reply),
    ensures
        state.after(name, settings, reply).requests_left() < state.requests_left(),
{
}

/// A sync makes six requests at most: it looks for the application by ID and
/// by name, and makes the four changes there are.
pub proof fn sync_ends(
    known_id: Option<String>,
    name: Seq<char>,
    settings: OidcSettings,
    replies: Seq<Reply>,
)
    requires
        ProjectClient::sync_start(known_id).answered_by(name, settings, replies),
    ensures
        replies.len() <= 6,
{
    requests_are_bounded(ProjectClient::sync_start(known_id), name, settings, replies);
}

proof fn requests_are_bounded(
    state: SyncState,
    name: Seq<char>,
    settings: OidcSettings,
    replies: Seq<Reply>,
)
    requires
        state.live(),
        state.answered_by(name, settings, replies),
    ensures
        replies.len() <= state.requests_left(),
    decreases replies.len(),
{
    if replies.len() > 0 {
        sync_progresses(state, name, settings, replies.first());
        requests_are_bounded(
            state.after(name, settings, replies.first()),
            name,
            settings,
            replies.drop_first(),
        );
    }
}

/// The application of the ID that the resource remembers comes first: it is
/// adopted if it is there and an OIDC application; one that is gone, or is
/// none, is looked for by name, and created if there is none of that name.
pub proof fn the_remembered_id_comes_first(
    id: String,
    client: ProjectClient,
    name: Seq<char>,
    settings: OidcSettings,
    reply: Result<Option<App>, Failure>,
    listing: Vec<App>,
)
    ensures
        ({
            let start = ProjectClient::sync_start(Some(id));
            let next = start.after(name, settings, Reply::Found(reply));
            &&& start.asks(client, name, settings) == Some(RequestView::Call(client.lookup(id@)))
            &&& match reply {
                Ok(Some(app)) => next == if app.oidc_config is Some {
                    adopt(app, name, settings)
                } else {
                    SyncState::Find
                },
                Ok(None) => next == SyncState::Find,
                Err(failure) => failure@.has_status(NOT_FOUND) ==> next == SyncState::Find,
            }
        }),
        ProjectClient::sync_start(None) == SyncState::Find,
        SyncState::Find.asks(client, name, settings) == Some(RequestView::ListApplications(name)),
        SyncState::Find.after(name, settings, Reply::Listed(Ok(listing))) == match first_wanted(
            listing@,
            name,
        ) {
            Some(app) => adopt(app, name, settings),
            None => SyncState::Create,
        },
{
}

/// An application that is active, has the name and matches the settings is
/// left alone: the sync is done, and nothing was changed.
pub proof fn application_in_sync_is_left_alone(app: App, name: Seq<char>, settings: OidcSettings)
    requires
        app.id is Some,
        app.oidc_config is Some,
        app.oidc_config->0.client_id is Some,
        app.state != Some(AppState::Inactive),
        opt_view(app.name) == Some(name),
        settings.agrees(app.oidc_config->0),
    ensures
        adopt(app, name, settings) == SyncState::Done(
            Ok(
                SyncedApplication {
                    app_id: app.id->0,
                    client_id: app.oidc_config->0.client_id->0,
                    client_secret: None,
                    changed: false,
                },
            ),
        ),
{
}

/// Syncs converge: once Zitadel reports an application that is not inactive,
/// under the name and with the configuration that a sync pushes, the next
/// sync changes nothing.
pub proof fn syncs_converge(app: App, name: Seq<char>, settings: OidcSettings)
    requires
        app.id is Some,
        app.state != Some(AppState::Inactive),
        opt_view(app.name) == Some(name),
        app.oidc_config is Some,
        app.oidc_config->0.client_id is Some,
        settings.stored_in(app.oidc_config->0),
    ensures
        adopt(app, name, settings) matches SyncState::Done(Ok(synced)) && !synced.changed,
{
    stored_settings_match(settings, app.oidc_config->0);
}

/// Whether `after` is what a Zitadel that does as it is told makes of `app`
/// by these changes.
pub open spec fn carried_out(
    app: App,
    after: App,
    change: AppChange,
    name: Seq<char>,
    settings: OidcSettings,
) -> bool {
    &&& after.id == app.id
    &&& if change.reactivate {
        after.state != Some(AppState::Inactive)
    } else {
        after.state == app.state
    }
    &&& if change.rename {
        opt_view(after.name) == Some(name)
    } else {
        after.name == app.name
    }
    &&& if change.update {
        after.oidc_config is Some && after.oidc_config->0.client_id
            == app.oidc_config->0.client_id && settings.stored_in(after.oidc_config->0)
    } else {
        after.oidc_config == app.oidc_config
    }
}

/// One sync suffices: once the changes that a sync plans are carried out, the
/// next one plans none.
pub proof fn one_sync_suffices(
    app: App,
    after: App,
    name: Seq<char>,
    settings: OidcSettings,
)
    requires
        plan(app, name, settings) is Ok,
        carried_out(app, after, plan(app, name, settings)->Ok_0, name, settings),
    ensures
        adopt(after, name, settings) matches SyncState::Done(Ok(synced)) && !synced.changed
            && synced.app_id == app.id->0 && synced.client_id == app.oidc_config->0.client_id->0,
{
    if plan(app, name, settings)->Ok_0.update {
        stored_settings_match(settings, after.oidc_config->0);
    }
}

/// A sync says that it changed Zitadel exactly if it made a change: not when
/// it finds an application with nothing to do, but after every change that
/// succeeds and after a creation.
pub proof fn changes_are_reported(
    app: App,
    change: AppChange,
    created: CreatedApp,
    name: Seq<char>,
    settings: OidcSettings,
    reply: Reply,
)
    requires
        SyncState::Change(change).expects(reply),
    ensures
        adopt(app, name, settings) matches SyncState::Done(Ok(synced)) ==> !synced.changed,
        adopt(app, name, settings) matches SyncState::Change(next) ==> !next.changed,
        SyncState::Change(change).after(name, settings, reply) matches SyncState::Done(Ok(synced))
            ==> synced.changed,
        SyncState::Change(change).after(name, settings, reply) matches SyncState::Change(next)
            ==> next.changed,
        creation_result(Ok(created)) matches Ok(synced) ==> synced.changed,
{
}

/// A sync hands out a client secret only if it just created the application
/// or regenerated the secret.
pub proof fn secrets_are_fresh(
    app: App,
    change: AppChange,
    name: Seq<char>,
    settings: OidcSettings,
    reply: Reply,
)
    requires
        SyncState::Change(change).expects(reply),
    ensures
        adopt(app, name, settings) matches SyncState::Done(Ok(synced)) ==> synced.client_secret
            is None,
        SyncState::Change(change).after(name, settings, reply) matches SyncState::Done(Ok(synced))
            ==> (synced.client_secret is Some <==> change.next() == Some(AppTask::Regenerate)),
{
}

/// Whoever switches to a method with a client secret gets a fresh one, after
/// the update that made Zitadel generate another; whoever keeps the method
/// keeps the secret.
pub proof fn switching_to_a_secret_regenerates_it(app: App, name: Seq<char>, settings: OidcSettings)
    requires
        plan(app, name, settings) is Ok,
    ensures
        plan(app, name, settings)->Ok_0.regenerate <==> secret_based(settings.auth_method_type)
            && app.oidc_config->0.auth_method_type != Some(settings.auth_method_type),
        plan(app, name, settings)->Ok_0.regenerate ==> plan(app, name, settings)->Ok_0.update,
{
}

/// A failure ends a sync, with what was being done as context, except that an
/// application which is gone by its ID is looked for by name.
pub proof fn failures_end_a_sync(
    state: SyncState,
    name: Seq<char>,
    settings: OidcSettings,
    reply: Reply,
    failure: FailureView,
)
    requires
        state.live(),
        state.expects(reply),
        fails_with(reply, failure),
    ensures
        if state is Get && failure.has_status(NOT_FOUND) {
            state.after(name, settings, reply) == SyncState::Find
        } else {
            exists|doing: Seq<char>|
                state.after(name, settings, reply) == SyncState::Done(
                    Err(#[trigger] failure.within(doing)),
                )
        },
{
    let doing = match state {
        SyncState::Get(id) => "looking up application "@ + id@,
        SyncState::Find => "listing applications"@,
        SyncState::Create => "creating application"@,
        SyncState::Change(change) => task_label(change.next()->0),
        SyncState::Done(_) => Seq::empty(),
    };
    if !(state is Get && failure.has_status(NOT_FOUND)) {
        assert(state.after(name, settings, reply) == SyncState::Done(Err(failure.within(doing))));
    }
}

/// A rejected credential surfaces: if any request of a sync fails because
/// Zitadel does not accept the credential, so does the sync.
pub proof fn rejections_surface(
    state: SyncState,
    name: Seq<char>,
    settings: OidcSettings,
    reply: Reply,
    failure: FailureView,
)
    requires
        state.live(),
        state.expects(reply),
        fails_with(reply, failure),
        failure.is_auth(),
    ensures
        state.after(name, settings, reply) matches SyncState::Done(Err(e)) && e.is_auth(),
{
    failures_end_a_sync(state, name, settings, reply, failure);
    assert(!failure.has_status(NOT_FOUND));
    let doing = choose|doing: Seq<char>|
        state.after(name, settings, reply) == SyncState::Done(
            Err(#[trigger] failure.within(doing)),
        );
    context_keeps_auth_errors(failure, doing);
}

// --- What a sync is for

/// Whether `reply` is one by which a sync in this state comes across `app`:
/// by its ID, or as the first OIDC application of that name.
pub open spec fn finds(state: SyncState, reply: Reply, name: Seq<char>, app: App) -> bool {
    match (state, reply) {
        (SyncState::Get(_), Reply::Found(Ok(Some(found)))) => found == app,
        (SyncState::Find, Reply::Listed(Ok(listing))) => {
            &&& app.name is Some && app.name->0@ == name
            &&& exists|i: int|
                {
                    &&& 0 <= i < listing@.len()
                    &&& #[trigger] listing@[i] == app
                    &&& forall|j: int|
                        0 <= j < i ==> !((#[trigger] listing@[j]).name is Some
                            && listing@[j].name->0@ == name && listing@[j].oidc_config is Some)
                }
        },
        _ => false,
    }
}

proof fn the_first_wanted_is_it(apps: Seq<App>, name: Seq<char>, i: int)
    requires
        0 <= i < apps.len(),
        apps[i].name is Some && apps[i].name->0@ == name && apps[i].oidc_config is Some,
        forall|j: int|
            0 <= j < i ==> !((#[trigger] apps[j]).name is Some && apps[j].name->0@ == name
                && apps[j].oidc_config is Some),
    ensures
        first_wanted(apps, name) == Some(apps[i]),
    decreases i,
{
    assert(apps.first() == apps[0]);
    if i > 0 {
        let rest = apps.drop_first();
        assert forall|j: int| 0 <= j < i - 1 implies !((#[trigger] rest[j]).name is Some
            && rest[j].name->0@ == name && rest[j].oidc_config is Some) by {
            assert(rest[j] == apps[j + 1]);
        }
        the_first_wanted_is_it(rest, name, i - 1);
    }
}

proof fn what_is_found_is_adopted(
    state: SyncState,
    reply: Reply,
    name: Seq<char>,
    settings: OidcSettings,
    app: App,
)
    requires
        finds(state, reply, name, app),
        app.oidc_config is Some,
    ensures
        state.after(name, settings, reply) == adopt(app, name, settings),
{
    match (state, reply) {
        (SyncState::Find, Reply::Listed(Ok(listing))) => {
            let i = choose|i: int|
                {
                    &&& 0 <= i < listing@.len()
                    &&& #[trigger] listing@[i] == app
                    &&& forall|j: int|
                        0 <= j < i ==> !((#[trigger] listing@[j]).name is Some
                            && listing@[j].name->0@ == name && listing@[j].oidc_config is Some)
                };
            the_first_wanted_is_it(listing@, name, i);
        },
        _ => {},
    }
}

/// The reply to a change that Zitadel makes as it is asked to; `secret` is the
/// client secret that it issues if it is asked for one.
pub open spec fn granted(request: RequestView, secret: String) -> Reply {
    if request.answer() == AnswerKind::Secret {
        Reply::Secret(Ok(secret))
    } else {
        Reply::Done(Ok(()))
    }
}

impl SyncState {
    /// The changes that a sync in this state asks for, `limit` at most, while
    /// Zitadel makes each of them.
    pub open spec fn changes_asked(
        self,
        client: ProjectClient,
        name: Seq<char>,
        settings: OidcSettings,
        secret: String,
        limit: nat,
    ) -> Seq<RequestView>
        decreases limit,
    {
        match self.asks(client, name, settings) {
            Some(request) => if limit == 0 {
                Seq::empty()
            } else {
                seq![request] + self.after(
                    name,
                    settings,
                    granted(request, secret),
                ).changes_asked(client, name, settings, secret, (limit - 1) as nat)
            },
            None => Seq::empty(),
        }
    }

    /// Where a sync in this state ends, after `limit` changes at most, when
    /// Zitadel makes each of them.
    pub open spec fn end(
        self,
        client: ProjectClient,
        name: Seq<char>,
        settings: OidcSettings,
        secret: String,
        limit: nat,
    ) -> SyncState
        decreases limit,
    {
        match self.asks(client, name, settings) {
            Some(request) => if limit == 0 {
                self
            } else {
                self.after(name, settings, granted(request, secret)).end(
                    client,
                    name,
                    settings,
                    secret,
                    (limit - 1) as nat,
                )
            },
            None => self,
        }
    }
}

/// A request, if it is called for.
pub open spec fn asked_if(
    called_for: bool,
    method: Method,
    answer: AnswerKind,
    path: Seq<char>,
    body: Option<BodyView>,
) -> Seq<RequestView> {
    if called_for {
        seq![RequestView::Call(CallView { method, answer, path, body })]
    } else {
        Seq::empty()
    }
}

/// A sync that comes across an application makes every change that is needed,
/// in order, and no other: it reactivates it exactly if it is inactive, renames
/// it exactly if it has another name, updates it exactly if its settings do not
/// match, and has a new secret generated exactly if it switches to a method
/// that has one. So it ends with an application that is not inactive, under the
/// name and with the settings; it says whether anything was changed, and hands
/// out the secret exactly if there is a new one.
#[verifier::rlimit(60)]
pub proof fn a_sync_makes_every_change_that_is_needed(
    state: SyncState,
    reply: Reply,
    app: App,
    client: ProjectClient,
    name: Seq<char>,
    settings: OidcSettings,
    secret: String,
)
    requires
        finds(state, reply, name, app),
        app.id is Some,
        app.oidc_config is Some,
        app.oidc_config->0.client_id is Some,
    ensures
        ({
            let config = app.oidc_config->0;
            let path = "projects/"@ + client.project_id@ + "/apps/"@ + app.id->0@;
            let reactivated = app.state == Some(AppState::Inactive);
            let renamed = !(app.name is Some && app.name->0@ == name);
            let updated = !settings.agrees(config);
            let regenerated = config.auth_method_type != Some(settings.auth_method_type) && (
            settings.auth_method_type == V1OidcAuthMethodType::Basic || settings.auth_method_type
                == V1OidcAuthMethodType::Post);
            let found = state.after(name, settings, reply);
            &&& found.changes_asked(client, name, settings, secret, 5) == asked_if(
                reactivated,
                Method::Post,
                AnswerKind::Done,
                path + "/_reactivate"@,
                None,
            ) + asked_if(
                renamed,
                Method::Put,
                AnswerKind::Done,
                path,
                Some(BodyView::Json(JsonView::Object(seq![("name"@, JsonView::Text(name))]))),
            ) + asked_if(
                updated,
                Method::Put,
                AnswerKind::Done,
                path + "/oidc_config"@,
                Some(BodyView::Client(settings.update())),
            ) + asked_if(
                regenerated,
                Method::Post,
                AnswerKind::Secret,
                path + "/oidc_config/_generate_client_secret"@,
                None,
            )
            &&& found.end(client, name, settings, secret, 5) == SyncState::Done(
                Ok(
                    SyncedApplication {
                        app_id: app.id->0,
                        client_id: config.client_id->0,
                        client_secret: if regenerated {
                            Some(secret)
                        } else {
                            None
                        },
                        changed: reactivated || renamed || updated,
                    },
                ),
            )
        }),
{
    what_is_found_is_adopted(state, reply, name, settings, app);
    reveal_with_fuel(SyncState::changes_asked, 6);
    reveal_with_fuel(SyncState::end, 6);
    let found = state.after(name, settings, reply);
    let config = app.oidc_config->0;
    let path = "projects/"@ + client.project_id@ + "/apps/"@ + app.id->0@;
    let reactivated = app.state == Some(AppState::Inactive);
    let renamed = !(app.name is Some && app.name->0@ == name);
    let updated = !settings.agrees(config);
    let regenerated = config.auth_method_type != Some(settings.auth_method_type) && (
    settings.auth_method_type == V1OidcAuthMethodType::Basic || settings.auth_method_type
        == V1OidcAuthMethodType::Post);
    assert(regenerated ==> updated);
    assert(found.changes_asked(client, name, settings, secret, 5) =~= asked_if(
        reactivated,
        Method::Post,
        AnswerKind::Done,
        path + "/_reactivate"@,
        None,
    ) + asked_if(
        renamed,
        Method::Put,
        AnswerKind::Done,
        path,
        Some(BodyView::Json(JsonView::Object(seq![("name"@, JsonView::Text(name))]))),
    ) + asked_if(
        updated,
        Method::Put,
        AnswerKind::Done,
        path + "/oidc_config"@,
        Some(BodyView::Client(settings.update())),
    ) + asked_if(
        regenerated,
        Method::Post,
        AnswerKind::Secret,
        path + "/oidc_config/_generate_client_secret"@,
        None,
    ));
}

/// An application that Zitadel reports incompletely cannot be managed, and the
/// sync says what is missing, the ID before the client ID.
pub proof fn incomplete_applications_are_refused(
    state: SyncState,
    reply: Reply,
    app: App,
    name: Seq<char>,
    settings: OidcSettings,
)
    requires
        finds(state, reply, name, app),
        app.oidc_config is Some,
        app.id is None || app.oidc_config->0.client_id is None,
    ensures
        state.after(name, settings, reply) matches SyncState::Done(Err(failure)) && failure.http
            is None && failure.zapp is None && failure.chain == seq![
            if app.id is None {
                "Zitadel returned an application without id"@
            } else {
                "Zitadel returned no client id"@
            },
        ],
{
    what_is_found_is_adopted(state, reply, name, settings, app);
}

/// A sync begins with the ID that is remembered; what is not there by its ID,
/// or is no OIDC application, is looked for by name; what is not there by name
/// either is created.
pub proof fn what_is_not_there_is_created(
    known_id: Option<String>,
    id: String,
    client: ProjectClient,
    name: Seq<char>,
    settings: OidcSettings,
    app: App,
    failure: Failure,
    listing: Vec<App>,
)
    ensures
        ProjectClient::sync_start(known_id).asks(client, name, settings) == Some(
            match known_id {
                Some(id) => RequestView::Call(
                    CallView {
                        method: Method::Get,
                        answer: AnswerKind::Found,
                        path: "projects/"@ + client.project_id@ + "/apps/"@ + id@,
                        body: None,
                    },
                ),
                None => RequestView::ListApplications(name),
            },
        ),
        ({
            let missing = SyncState::Get(id).after(name, settings, Reply::Found(Ok(None)));
            let other = SyncState::Get(id).after(name, settings, Reply::Found(Ok(Some(app))));
            let gone = SyncState::Get(id).after(name, settings, Reply::Found(Err(failure)));
            &&& missing.asks(client, name, settings) == Some(RequestView::ListApplications(name))
            &&& app.oidc_config is None ==> other == missing
            &&& (failure@.http matches Some(reply) && reply.0 == 404) ==> gone == missing
            &&& missing == SyncState::Find
        }),
        (forall|i: int|
            0 <= i < listing@.len() ==> !((#[trigger] listing@[i]).name is Some
                && listing@[i].name->0@ == name && listing@[i].oidc_config is Some)) ==> {
            let next = SyncState::Find.after(name, settings, Reply::Listed(Ok(listing)));
            next.asks(client, name, settings) == Some(
                RequestView::Call(
                    CallView {
                        method: Method::Post,
                        answer: AnswerKind::Created,
                        path: "projects/"@ + client.project_id@ + "/apps/oidc"@,
                        body: Some(BodyView::Client(settings.creation(name))),
                    },
                ),
            ) && next == SyncState::Create
        },
{
    only_oidc_applications_are_adopted(listing@, name);
    match first_wanted(listing@, name) {
        Some(found) => {
            let i = choose|i: int| 0 <= i < listing@.len() && listing@[i] == found;
            assert(listing@[i].name is Some && listing@[i].name->0@ == name
                && listing@[i].oidc_config is Some);
        },
        None => {},
    }
}

/// A creation brings the IDs that Zitadel assigned, which it must, and the
/// client secret if there is one; it counts as a change.
pub proof fn creations_bring_what_zitadel_assigned(
    name: Seq<char>,
    settings: OidcSettings,
    created: CreatedApp,
)
    ensures
        ({
            let end = SyncState::Create.after(name, settings, Reply::Created(Ok(created)));
            &&& created.app_id is Some && created.client_id is Some ==> (end
                matches SyncState::Done(Ok(synced)) && {
                &&& created.app_id == Some(synced.app_id)
                &&& created.client_id == Some(synced.client_id)
                &&& synced.changed
                &&& match created.client_secret {
                    Some(secret) => synced.client_secret == if secret@.len() > 0 {
                        Some(secret)
                    } else {
                        None
                    },
                    None => synced.client_secret is None,
                }
            })
            &&& created.app_id is None || created.client_id is None ==> (end
                matches SyncState::Done(Err(failure)) && failure.http is None && failure.zapp
                is None && failure.chain == seq![
                if created.app_id is None {
                    "Zitadel returned no app id"@
                } else {
                    "Zitadel returned no client id"@
                },
            ])
        }),
{
}

/// What fails says what was being done, in these words, and keeps Zitadel's
/// answer.
pub proof fn failed_syncs_say_what_they_were_doing(
    state: SyncState,
    name: Seq<char>,
    settings: OidcSettings,
    reply: Reply,
    failure: FailureView,
)
    requires
        state.live(),
        state.expects(reply),
        fails_with(reply, failure),
        !(state is Get && failure.has_status(NOT_FOUND)),
    ensures
        state.after(name, settings, reply) matches SyncState::Done(Err(e)) && {
            &&& e.http == failure.http
            &&& e.zapp == failure.zapp
            &&& e.chain == seq![
                match state {
                    SyncState::Get(id) => "looking up application "@ + id@,
                    SyncState::Find => "listing applications"@,
                    SyncState::Create => "creating application"@,
                    SyncState::Change(change) => if change.reactivate {
                        "reactivating application"@
                    } else if change.rename {
                        "renaming application"@
                    } else if change.update {
                        "updating application configuration"@
                    } else {
                        "regenerating client secret"@
                    },
                    SyncState::Done(_) => Seq::empty(),
                },
            ] + failure.chain
        },
{
}

/// Contracts speak of a sync as it is.
pub proof fn syncs_are_seen_as_they_are(sync: ApplicationSync)
    ensures
        match sync {
            ApplicationSync::Get(id) => sync@ == SyncState::Get(id),
            ApplicationSync::Find => sync@ == SyncState::Find,
            ApplicationSync::Create => sync@ == SyncState::Create,
            ApplicationSync::Change(change) => sync@ == SyncState::Change(change),
            ApplicationSync::Done(Ok(synced)) => sync@ == SyncState::Done(Ok(synced)),
            ApplicationSync::Done(Err(failure)) => sync@ == SyncState::Done(Err(failure@)),
        },
{
}

} // verus!
