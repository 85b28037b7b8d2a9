//! Reconciling an `OIDCApplication`: syncing it to Zitadel, publishing what
//! Zitadel assigned, and removing it.

use vstd::prelude::*;
use vstd::string::*;
use vstd::utf8::{encode_utf8, encode_utf8_decode_utf8};

use crate::application::{sync_progresses, ApplicationSync, SyncState};
use crate::controller::{
    answers, application_name, applying, applying_text, name_or, named, namespace_of,
    namespace_or_empty, no_namespace, required_namespace, session_invalidated, session_obtained,
    with_session, work_finished, work_view, zitadel_name, Action, Event, WithSession,
    WithSessionView, Work, WorkView,
};
use crate::crd::{
    ApplicationStatusView, AuthMethod, OIDCApplication, OIDCApplicationStatus, APPLICATION_KIND,
};
use crate::failure::{in_context, outcome, Failure, FailureView, NOT_FOUND};
use crate::kubernetes::{
    belongs_to, byte_views, bytes_at, distinct_keys, is_owned_by, labels, manifest,
    manifests_belong_to_their_resource, no_texts, owned_by, owner_reference, pair_views, put,
    readiness, ready_condition, secret_has, secret_is, text_at, Manifest, ManifestView,
    StoredSecret, MAX_MESSAGE_CHARS,
};
use crate::settings::{zitadel_skew, OidcSettings};
use crate::text::{
    capped, opt_view, views, without_trailing, without_trailing_is_the_rest,
};
use crate::time::{readable, Duration, Timestamp};
use crate::zapp::Lease;
use crate::zitadel::{
    first_wanted, found_by_name, outcome_of_list, regenerated, removed,
    the_first_application_of_the_name_is_found, App, AppState, ProjectClient, Reply, Request,
    RequestView, SyncedApplication,
};

verus! {

// --- What is published

/// Name of the ConfigMap of an application.
pub open spec fn config_map_of(app: OIDCApplication) -> Seq<char> {
    named(app.spec.config_map_name, app.metadata, "-oidc"@)
}

/// Name of the Secret of an application.
pub open spec fn secret_of(app: OIDCApplication) -> Seq<char> {
    named(app.spec.secret_name, app.metadata, "-oidc"@)
}

/// What the ConfigMap of an application holds.
pub open spec fn app_data(lease: Lease, synced: SyncedApplication) -> Seq<(Seq<char>, Seq<char>)> {
    seq![
        ("OIDC_APPLICATION_ID"@, synced.app_id@),
        ("OIDC_CLIENT_ID"@, synced.client_id@),
        ("ZITADEL_ISSUER"@, without_trailing(lease.session.zitadel_url@, '/')),
        ("ZITADEL_PROJECT_ID"@, lease.session.project_id@),
        ("ZITADEL_URL"@, lease.session.zitadel_url@),
    ]
}

/// What the Secret of an application holds.
pub open spec fn secret_data(client_id: Seq<char>, client_secret: Seq<char>) -> Seq<
    (Seq<char>, Seq<char>),
> {
    seq![("OIDC_CLIENT_ID"@, client_id), ("OIDC_CLIENT_SECRET"@, client_secret)]
}

/// What the operator writes for an application under a name.
pub open spec fn app_manifest(
    app: OIDCApplication,
    name: Seq<char>,
    data: Seq<(Seq<char>, Seq<char>)>,
) -> ManifestView {
    ManifestView {
        name,
        namespace: namespace_of(app.metadata),
        labels: labels(),
        owner: owned_by(APPLICATION_KIND@, app.metadata),
        data,
    }
}

fn config_map_manifest(
    app: &OIDCApplication,
    lease: &Lease,
    synced: &SyncedApplication,
) -> (r: Manifest)
    ensures
        r@ == app_manifest(*app, config_map_of(*app), app_data(*lease, *synced)),
{
    let issuer = lease.session.issuer();
    let mut data = no_texts();
    put(&mut data, "OIDC_APPLICATION_ID", synced.app_id.as_str());
    put(&mut data, "OIDC_CLIENT_ID", synced.client_id.as_str());
    put(&mut data, "ZITADEL_ISSUER", issuer.as_str());
    put(&mut data, "ZITADEL_PROJECT_ID", lease.session.project_id.as_str());
    put(&mut data, "ZITADEL_URL", lease.session.zitadel_url.as_str());
    assert(pair_views(data@) =~= app_data(*lease, *synced));
    manifest(
        namespace_or_empty(&app.metadata).as_str(),
        name_or(&app.spec.config_map_name, &app.metadata, "-oidc"),
        owner_reference(APPLICATION_KIND, &app.metadata),
        data,
    )
}

fn secret_manifest(app: &OIDCApplication, client_id: &str, client_secret: &str) -> (r: Manifest)
    ensures
        r@ == app_manifest(*app, secret_of(*app), secret_data(client_id@, client_secret@)),
{
    let mut data = no_texts();
    put(&mut data, "OIDC_CLIENT_ID", client_id);
    put(&mut data, "OIDC_CLIENT_SECRET", client_secret);
    assert(pair_views(data@) =~= secret_data(client_id@, client_secret@));
    manifest(
        namespace_or_empty(&app.metadata).as_str(),
        name_or(&app.spec.secret_name, &app.metadata, "-oidc"),
        owner_reference(APPLICATION_KIND, &app.metadata),
        data,
    )
}

/// The status of an application that is in sync.
pub open spec fn synced_status(
    app: OIDCApplication,
    lease: Lease,
    synced: SyncedApplication,
    now: Timestamp,
) -> ApplicationStatusView {
    ApplicationStatusView {
        observed_generation: app.metadata.generation,
        application_id: Some(synced.app_id@),
        client_id: Some(synced.client_id@),
        project_id: Some(lease.session.project_id@),
        config_map: Some(config_map_of(app)),
        secret: if app.spec.auth_method.has_secret() {
            Some(secret_of(app))
        } else {
            None
        },
        conditions: seq![
            readiness(
                app.metadata.generation,
                true,
                if synced.changed {
                    "Updated"@
                } else {
                    "Synced"@
                },
                "application "@ + zitadel_name(app) + " is in sync with Zitadel"@,
                now,
            ),
        ],
    }
}

/// The status that an application has.
pub open spec fn status_of(app: OIDCApplication) -> ApplicationStatusView {
    match app.status {
        Some(status) => status@,
        None => ApplicationStatusView::none(),
    }
}

/// The status of an application whose reconcile failed: what it was, with
/// the failure as its condition.
pub open spec fn failed_status(
    app: OIDCApplication,
    failure: FailureView,
    now: Timestamp,
) -> ApplicationStatusView {
    ApplicationStatusView {
        observed_generation: app.metadata.generation,
        conditions: seq![
            readiness(app.metadata.generation, false, "SyncFailed"@, failure.line(), now),
        ],
        ..status_of(app)
    }
}

fn report_synced(
    app: &OIDCApplication,
    lease: &Lease,
    synced: &SyncedApplication,
    now: Timestamp,
) -> (r: OIDCApplicationStatus)
    ensures
        r@ == synced_status(*app, *lease, *synced, now),
{
    let message = "application ".to_owned().concat(application_name(app).as_str()).concat(
        " is in sync with Zitadel",
    );
    let reason = if synced.changed {
        "Updated"
    } else {
        "Synced"
    };
    let condition = ready_condition(app.metadata.generation, true, reason, message.as_str(), now);
    let secret = if app.spec.auth_method.uses_client_secret() {
        Some(name_or(&app.spec.secret_name, &app.metadata, "-oidc"))
    } else {
        None
    };
    let r = OIDCApplicationStatus {
        observed_generation: app.metadata.generation,
        application_id: Some(synced.app_id.clone()),
        client_id: Some(synced.client_id.clone()),
        project_id: Some(lease.session.project_id.clone()),
        config_map: Some(name_or(&app.spec.config_map_name, &app.metadata, "-oidc")),
        secret,
        conditions: vec![condition],
    };
    assert(r@ =~= synced_status(*app, *lease, *synced, now));
    r
}

fn report_failure(
    app: &OIDCApplication,
    failure: &Failure,
    now: Timestamp,
) -> (r: OIDCApplicationStatus)
    ensures
        r@ == failed_status(*app, failure@, now),
{
    let message = failure.text();
    let condition = ready_condition(
        app.metadata.generation,
        false,
        "SyncFailed",
        message.as_str(),
        now,
    );
    let r = match &app.status {
        Some(status) => OIDCApplicationStatus {
            observed_generation: app.metadata.generation,
            application_id: status.application_id.clone(),
            client_id: status.client_id.clone(),
            project_id: status.project_id.clone(),
            config_map: status.config_map.clone(),
            secret: status.secret.clone(),
            conditions: vec![condition],
        },
        None => OIDCApplicationStatus {
            observed_generation: app.metadata.generation,
            application_id: None,
            client_id: None,
            project_id: None,
            config_map: None,
            secret: None,
            conditions: vec![condition],
        },
    };
    assert(r@ =~= failed_status(*app, failure@, now));
    r
}

// --- Applying

/// Where the reconcile of an application stands.
#[derive(Debug)]
pub enum ApplyApplication {
    /// To sync it to Zitadel.
    Sync(OidcSettings, WithSession<ApplicationSync, SyncedApplication>),
    /// To write the ConfigMap.
    WriteConfigMap(Lease, SyncedApplication),
    /// To look at the Secret that is there.
    ReadSecret(Lease, SyncedApplication),
    /// To have a new client secret generated.
    Regenerate(Lease, SyncedApplication),
    /// To write the client secret, which comes last, to the Secret.
    WriteSecret(Lease, SyncedApplication, String),
    /// To delete the Secret.
    DeleteSecret(Lease, SyncedApplication),
    /// To report success in the status.
    Report(Lease, SyncedApplication),
    /// To report the failure in the status.
    ReportFailure(Failure),
    Done(Result<Action, Failure>),
}

/// Where the reconcile of an application stands, as seen by contracts.
#[verifier::ext_equal]
pub enum ApplyState {
    Sync(OidcSettings, WithSessionView<SyncState, SyncedApplication>),
    WriteConfigMap(Lease, SyncedApplication),
    ReadSecret(Lease, SyncedApplication),
    Regenerate(Lease, SyncedApplication),
    WriteSecret(Lease, SyncedApplication, String),
    DeleteSecret(Lease, SyncedApplication),
    Report(Lease, SyncedApplication),
    ReportFailure(FailureView),
    Done(Result<Action, FailureView>),
}

impl View for ApplyApplication {
    type V = ApplyState;

    open spec fn view(&self) -> ApplyState {
        match *self {
            ApplyApplication::Sync(settings, work) => ApplyState::Sync(settings, work@),
            ApplyApplication::WriteConfigMap(lease, synced) => ApplyState::WriteConfigMap(
                lease,
                synced,
            ),
            ApplyApplication::ReadSecret(lease, synced) => ApplyState::ReadSecret(lease, synced),
            ApplyApplication::Regenerate(lease, synced) => ApplyState::Regenerate(lease, synced),
            ApplyApplication::WriteSecret(lease, synced, secret) => ApplyState::WriteSecret(
                lease,
                synced,
                secret,
            ),
            ApplyApplication::DeleteSecret(lease, synced) => ApplyState::DeleteSecret(
                lease,
                synced,
            ),
            ApplyApplication::Report(lease, synced) => ApplyState::Report(lease, synced),
            ApplyApplication::ReportFailure(failure) => ApplyState::ReportFailure(failure@),
            ApplyApplication::Done(result) => ApplyState::Done(outcome(result)),
        }
    }
}

/// The ID of the application in Zitadel that a resource remembers.
pub open spec fn known_id(app: OIDCApplication) -> Option<String> {
    match app.status {
        Some(status) => status.application_id,
        None => None,
    }
}

fn remembered_id(app: &OIDCApplication) -> (r: Option<String>)
    ensures
        r == known_id(*app),
{
    match &app.status {
        Some(status) => status.application_id.clone(),
        None => None,
    }
}

/// How the reconcile of an application begins. One without namespace fails
/// without further ado; an invalid spec is reported.
pub open spec fn apply_start(
    app: OIDCApplication,
    settings: Result<OidcSettings, FailureView>,
) -> ApplyState {
    if app.metadata.namespace is None {
        ApplyState::Done(Err(no_namespace(APPLICATION_KIND@)))
    } else {
        match settings {
            Ok(settings) => ApplyState::Sync(settings, WithSessionView::Obtain(false)),
            Err(failure) => ApplyState::ReportFailure(failure.within("invalid spec"@)),
        }
    }
}

/// How the reconcile of an application begins, given the settings that its
/// spec asks for.
pub fn apply_with_settings(
    app: &OIDCApplication,
    settings: Result<OidcSettings, Failure>,
) -> (r: ApplyApplication)
    ensures
        r@ == apply_start(*app, outcome(settings)),
{
    match required_namespace(APPLICATION_KIND, &app.metadata) {
        Err(failure) => ApplyApplication::Done(Err(failure)),
        Ok(_) => match settings {
            Ok(settings) => ApplyApplication::Sync(settings, with_session()),
            Err(failure) => ApplyApplication::ReportFailure(failure.context("invalid spec")),
        },
    }
}

/// How the reconcile of an application begins.
pub fn apply_application(app: &OIDCApplication) -> (r: ApplyApplication)
    requires
        app.spec.clock_skew is Some ==> readable(app.spec.clock_skew->0@),
    ensures
        app.metadata.namespace is None ==> r@ == ApplyState::Done(
            Err(no_namespace(APPLICATION_KIND@)),
        ),
        app.metadata.namespace is Some ==> match r@ {
            ApplyState::Sync(settings, work) => settings.follows(app.spec) && work
                == WithSessionView::<SyncState, SyncedApplication>::Obtain(false),
            ApplyState::ReportFailure(failure) => app.spec.clock_skew is Some && zitadel_skew(
                app.spec.clock_skew->0@,
            ) is Err && failure == zitadel_skew(app.spec.clock_skew->0@)->Err_0.within(
                "invalid spec"@,
            ),
            _ => false,
        },
{
    let settings = OidcSettings::from_spec(&app.spec);
    apply_with_settings(app, settings)
}

/// Whether a Secret is there that holds the client secret that Zitadel last
/// issued for an application: it belongs to the application, has a client
/// secret and carries the client ID for which that was issued.
pub open spec fn secret_is_current(
    secret: Option<StoredSecret>,
    app: OIDCApplication,
    client_id: Seq<char>,
) -> bool {
    secret matches Some(existing) && belongs_to(views(existing.owner_uids@), app.metadata)
        && existing.value("OIDC_CLIENT_SECRET"@) is Some && existing.value(
        "OIDC_CLIENT_SECRET"@,
    )->0.len() > 0 && existing.value("OIDC_CLIENT_ID"@) == Some(encode_utf8(client_id))
}

/// Whether a Secret holds the client secret that Zitadel last issued for an
/// application.
pub fn is_current(
    secret: &Option<StoredSecret>,
    app: &OIDCApplication,
    client_id: &str,
) -> (r: bool)
    ensures
        r == secret_is_current(*secret, *app, client_id@),
{
    match secret {
        Some(existing) => is_owned_by(&existing.owner_uids, &app.metadata) && secret_has(
            existing,
            "OIDC_CLIENT_SECRET",
        ) && secret_is(existing, "OIDC_CLIENT_ID", client_id),
        None => false,
    }
}

/// Whether a Secret is there that belongs to an application.
pub open spec fn secret_is_owned(secret: Option<StoredSecret>, app: OIDCApplication) -> bool {
    secret matches Some(existing) && belongs_to(views(existing.owner_uids@), app.metadata)
}

fn is_own_secret(secret: &Option<StoredSecret>, app: &OIDCApplication) -> (r: bool)
    ensures
        r == secret_is_owned(*secret, *app),
{
    match secret {
        Some(existing) => is_owned_by(&existing.owner_uids, &app.metadata),
        None => false,
    }
}

/// Where the reconcile stands while the sync does what it does.
pub open spec fn syncing(
    settings: OidcSettings,
    work: WithSessionView<SyncState, SyncedApplication>,
) -> ApplyState {
    match work {
        WithSessionView::Done(Ok(done)) => ApplyState::WriteConfigMap(done.0, done.1),
        WithSessionView::Done(Err(failure)) => ApplyState::ReportFailure(failure),
        other => ApplyState::Sync(settings, other),
    }
}

fn go_on_syncing(
    settings: OidcSettings,
    work: WithSession<ApplicationSync, SyncedApplication>,
) -> (r: ApplyApplication)
    ensures
        r@ == syncing(settings, work@),
{
    match work {
        WithSession::Done(Ok((lease, synced))) => ApplyApplication::WriteConfigMap(lease, synced),
        WithSession::Done(Err(failure)) => ApplyApplication::ReportFailure(failure),
        other => ApplyApplication::Sync(settings, other),
    }
}

/// The sync in a session, given where it stands.
pub open spec fn sync_in_session(again: bool, lease: Lease, state: SyncState) -> WithSessionView<
    SyncState,
    SyncedApplication,
> {
    match state {
        SyncState::Done(result) => WithSessionView::finished(again, lease, result),
        other => WithSessionView::Run(again, lease, other),
    }
}

fn go_on_in_session(again: bool, lease: Lease, sync: ApplicationSync) -> (r: WithSession<
    ApplicationSync,
    SyncedApplication,
>)
    ensures
        r@ == sync_in_session(again, lease, sync@),
{
    match sync {
        ApplicationSync::Done(result) => work_finished(again, lease, result),
        other => WithSession::Run(again, lease, other),
    }
}

/// What follows the ConfigMap: a client secret that the sync brought is
/// written, else the Secret is looked at.
pub open spec fn after_config_map(
    app: OIDCApplication,
    lease: Lease,
    synced: SyncedApplication,
) -> ApplyState {
    match synced.client_secret {
        Some(secret) if app.spec.auth_method.has_secret() => ApplyState::WriteSecret(
            lease,
            synced,
            secret,
        ),
        _ => ApplyState::ReadSecret(lease, synced),
    }
}

/// What follows from the Secret that is there. Zitadel only ever reveals the
/// client secret once: if the Secret went missing, belongs to another
/// application, or does not carry the client ID the current secret was
/// issued for (the method just switched, or a previous write failed), a new
/// one is generated; otherwise the stored one is kept. An application that
/// uses no client secret has its Secret removed.
pub open spec fn after_secret(
    app: OIDCApplication,
    lease: Lease,
    synced: SyncedApplication,
    secret: Option<StoredSecret>,
) -> ApplyState {
    if app.spec.auth_method.has_secret() {
        if secret_is_current(secret, app, synced.client_id@) {
            ApplyState::Report(lease, synced)
        } else {
            ApplyState::Regenerate(lease, synced)
        }
    } else if secret_is_owned(secret, app) {
        ApplyState::DeleteSecret(lease, synced)
    } else {
        ApplyState::Report(lease, synced)
    }
}

impl ApplyState {
    /// Whether `event` is what can come of the work asked for.
    pub open spec fn expects(self, event: Event) -> bool {
        match self {
            ApplyState::Sync(_, WithSessionView::Obtain(_)) => event is Session,
            ApplyState::Sync(_, WithSessionView::Run(_, _, state)) => event matches Event::Reply(
                reply,
            ) && state.expects(reply),
            ApplyState::Sync(_, WithSessionView::Invalidate(_)) => event is Invalidated,
            ApplyState::Sync(_, WithSessionView::Done(_)) => false,
            ApplyState::WriteConfigMap(_, _) => event is Applied,
            ApplyState::ReadSecret(_, _) => event is SecretRead,
            ApplyState::Regenerate(_, _) => event matches Event::Reply(reply) && reply is Secret,
            ApplyState::WriteSecret(_, _, _) => event is Applied,
            ApplyState::DeleteSecret(_, _) => event is Applied,
            ApplyState::Report(_, _) => event is Applied,
            ApplyState::ReportFailure(_) => event is Applied,
            ApplyState::Done(_) => false,
        }
    }

    /// What is asked for.
    pub open spec fn asks(self, app: OIDCApplication, now: Timestamp) -> Option<WorkView> {
        match self {
            ApplyState::Sync(settings, work) => match work {
                WithSessionView::Obtain(_) => Some(WorkView::ObtainSession),
                WithSessionView::Run(_, lease, state) => match state.asks(
                    lease.session.zitadel,
                    zitadel_name(app),
                    settings,
                ) {
                    Some(request) => Some(WorkView::Ask(lease.id, request)),
                    None => None,
                },
                WithSessionView::Invalidate(id) => Some(WorkView::Invalidate(id)),
                WithSessionView::Done(_) => None,
            },
            ApplyState::WriteConfigMap(lease, synced) => Some(
                WorkView::WriteConfigMap(
                    app_manifest(app, config_map_of(app), app_data(lease, synced)),
                ),
            ),
            ApplyState::ReadSecret(_, _) => Some(
                WorkView::ReadSecret(namespace_of(app.metadata), secret_of(app)),
            ),
            ApplyState::Regenerate(lease, synced) => Some(
                WorkView::Ask(
                    lease.id,
                    RequestView::Call(lease.session.zitadel.regeneration(synced.app_id@)),
                ),
            ),
            ApplyState::WriteSecret(_, synced, secret) => Some(
                WorkView::WriteSecret(
                    app_manifest(app, secret_of(app), secret_data(synced.client_id@, secret@)),
                ),
            ),
            ApplyState::DeleteSecret(_, _) => Some(
                WorkView::DeleteSecret(namespace_of(app.metadata), secret_of(app)),
            ),
            ApplyState::Report(lease, synced) => Some(
                WorkView::PatchApplication(
                    namespace_of(app.metadata),
                    app.metadata.any_name(),
                    synced_status(app, lease, synced, now),
                ),
            ),
            ApplyState::ReportFailure(failure) => Some(
                WorkView::PatchApplication(
                    namespace_of(app.metadata),
                    app.metadata.any_name(),
                    failed_status(app, failure, now),
                ),
            ),
            ApplyState::Done(_) => None,
        }
    }

    /// Where the reconcile stands after `event`.
    pub open spec fn after(
        self,
        app: OIDCApplication,
        sync_interval: Duration,
        event: Event,
    ) -> ApplyState {
        match (self, event) {
            (
                ApplyState::Sync(settings, WithSessionView::Obtain(again)),
                Event::Session(session),
            ) => syncing(
                settings,
                WithSessionView::obtained(
                    again,
                    outcome(session),
                    ProjectClient::sync_start(known_id(app)),
                ),
            ),
            (
                ApplyState::Sync(settings, WithSessionView::Run(again, lease, state)),
                Event::Reply(reply),
            ) => syncing(
                settings,
                sync_in_session(again, lease, state.after(zitadel_name(app), settings, reply)),
            ),
            (ApplyState::Sync(settings, WithSessionView::Invalidate(_)), Event::Invalidated) => {
                ApplyState::Sync(settings, WithSessionView::Obtain(true))
            },
            (ApplyState::WriteConfigMap(lease, synced), Event::Applied(result)) => match outcome(
                result,
            ) {
                Ok(_) => after_config_map(app, lease, synced),
                Err(failure) => ApplyState::ReportFailure(
                    failure.within(
                        applying("ConfigMap"@, namespace_of(app.metadata), config_map_of(app)),
                    ),
                ),
            },
            (ApplyState::ReadSecret(lease, synced), Event::SecretRead(result)) => match outcome(
                result,
            ) {
                Ok(secret) => after_secret(app, lease, synced, secret),
                Err(failure) => ApplyState::ReportFailure(failure),
            },
            (ApplyState::Regenerate(lease, synced), Event::Reply(Reply::Secret(reply))) => {
                match regenerated(outcome(reply)) {
                    Ok(secret) => ApplyState::WriteSecret(lease, synced, secret),
                    Err(failure) => ApplyState::ReportFailure(failure),
                }
            },
            (ApplyState::WriteSecret(lease, synced, _), Event::Applied(result)) => match outcome(
                result,
            ) {
                Ok(_) => ApplyState::Report(lease, synced),
                Err(failure) => ApplyState::ReportFailure(
                    failure.within(applying("Secret"@, namespace_of(app.metadata), secret_of(app))),
                ),
            },
            (ApplyState::DeleteSecret(lease, synced), Event::Applied(result)) => match outcome(
                result,
            ) {
                Ok(_) => ApplyState::Report(lease, synced),
                Err(failure) => ApplyState::ReportFailure(failure),
            },
            (ApplyState::Report(_, _), Event::Applied(result)) => match outcome(result) {
                Ok(_) => ApplyState::Done(Ok(Action::Requeue(sync_interval))),
                Err(failure) => ApplyState::ReportFailure(failure.within("patching status"@)),
            },
            (ApplyState::ReportFailure(failure), Event::Applied(_)) => ApplyState::Done(
                Err(failure),
            ),
            _ => self,
        }
    }
}

impl ApplyApplication {
    /// What is to be done next, nothing if the reconcile is done.
    pub fn work(&self, app: &OIDCApplication, now: Timestamp) -> (r: Option<Work>)
        ensures
            work_view(r) == self@.asks(*app, now),
    {
        match self {
            ApplyApplication::Sync(settings, work) => match work {
                WithSession::Obtain(_) => Some(Work::ObtainSession),
                WithSession::Run(_, lease, sync) => {
                    let name = application_name(app);
                    match sync.request(&lease.session.zitadel, name.as_str(), settings) {
                        Some(request) => Some(Work::Ask(lease.id, request)),
                        None => None,
                    }
                },
                WithSession::Invalidate(id) => Some(Work::Invalidate(*id)),
                WithSession::Done(_) => None,
            },
            ApplyApplication::WriteConfigMap(lease, synced) => Some(
                Work::WriteConfigMap(config_map_manifest(app, lease, synced)),
            ),
            ApplyApplication::ReadSecret(_, _) => Some(
                Work::ReadSecret(
                    namespace_or_empty(&app.metadata),
                    name_or(&app.spec.secret_name, &app.metadata, "-oidc"),
                ),
            ),
            ApplyApplication::Regenerate(lease, synced) => Some(
                Work::Ask(
                    lease.id,
                    Request::Call(
                        lease.session.zitadel.regenerate_client_secret_call(
                            synced.app_id.as_str(),
                        ),
                    ),
                ),
            ),
            ApplyApplication::WriteSecret(_, synced, secret) => Some(
                Work::WriteSecret(
                    secret_manifest(app, synced.client_id.as_str(), secret.as_str()),
                ),
            ),
            ApplyApplication::DeleteSecret(_, _) => Some(
                Work::DeleteSecret(
                    namespace_or_empty(&app.metadata),
                    name_or(&app.spec.secret_name, &app.metadata, "-oidc"),
                ),
            ),
            ApplyApplication::Report(lease, synced) => Some(
                Work::PatchApplication(
                    namespace_or_empty(&app.metadata),
                    app.metadata.name_any(),
                    report_synced(app, lease, synced, now),
                ),
            ),
            ApplyApplication::ReportFailure(failure) => Some(
                Work::PatchApplication(
                    namespace_or_empty(&app.metadata),
                    app.metadata.name_any(),
                    report_failure(app, failure, now),
                ),
            ),
            ApplyApplication::Done(_) => None,
        }
    }

    /// Takes what came of the work.
    pub fn step(
        self,
        app: &OIDCApplication,
        sync_interval: Duration,
        event: Event,
    ) -> (r: ApplyApplication)
        requires
            self@.expects(event),
        ensures
            r@ == self@.after(*app, sync_interval, event),
    {
        match (self, event) {
            (
                ApplyApplication::Sync(settings, WithSession::Obtain(again)),
                Event::Session(session),
            ) => {
                let start = ProjectClient::sync_application(&remembered_id(app));
                go_on_syncing(settings, session_obtained(again, session, start))
            },
            (
                ApplyApplication::Sync(settings, WithSession::Run(again, lease, sync)),
                Event::Reply(reply),
            ) => {
                let name = application_name(app);
                let next = sync.step(name.as_str(), &settings, reply);
                go_on_syncing(settings, go_on_in_session(again, lease, next))
            },
            (ApplyApplication::Sync(settings, WithSession::Invalidate(_)), Event::Invalidated) => {
                ApplyApplication::Sync(settings, session_invalidated())
            },
            (ApplyApplication::WriteConfigMap(lease, synced), Event::Applied(result)) => {
                match result {
                    Ok(_) => match &synced.client_secret {
                        Some(secret) if app.spec.auth_method.uses_client_secret() => {
                            let secret = secret.clone();
                            ApplyApplication::WriteSecret(lease, synced, secret)
                        },
                        _ => ApplyApplication::ReadSecret(lease, synced),
                    },
                    Err(failure) => ApplyApplication::ReportFailure(
                        failure.context(
                            applying_text(
                                "ConfigMap",
                                namespace_or_empty(&app.metadata).as_str(),
                                name_or(&app.spec.config_map_name, &app.metadata, "-oidc").as_str(),
                            ).as_str(),
                        ),
                    ),
                }
            },
            (ApplyApplication::ReadSecret(lease, synced), Event::SecretRead(result)) => {
                match result {
                    Ok(secret) => {
                        if app.spec.auth_method.uses_client_secret() {
                            if is_current(&secret, app, synced.client_id.as_str()) {
                                ApplyApplication::Report(lease, synced)
                            } else {
                                ApplyApplication::Regenerate(lease, synced)
                            }
                        } else if is_own_secret(&secret, app) {
                            ApplyApplication::DeleteSecret(lease, synced)
                        } else {
                            ApplyApplication::Report(lease, synced)
                        }
                    },
                    Err(failure) => ApplyApplication::ReportFailure(failure),
                }
            },
            (ApplyApplication::Regenerate(lease, synced), Event::Reply(Reply::Secret(reply))) => {
                match ProjectClient::regenerate_client_secret(reply) {
                    Ok(secret) => ApplyApplication::WriteSecret(lease, synced, secret),
                    Err(failure) => ApplyApplication::ReportFailure(failure),
                }
            },
            (ApplyApplication::WriteSecret(lease, synced, _), Event::Applied(result)) => {
                match result {
                    Ok(_) => ApplyApplication::Report(lease, synced),
                    Err(failure) => ApplyApplication::ReportFailure(
                        failure.context(
                            applying_text(
                                "Secret",
                                namespace_or_empty(&app.metadata).as_str(),
                                name_or(&app.spec.secret_name, &app.metadata, "-oidc").as_str(),
                            ).as_str(),
                        ),
                    ),
                }
            },
            (ApplyApplication::DeleteSecret(lease, synced), Event::Applied(result)) => {
                match result {
                    Ok(_) => ApplyApplication::Report(lease, synced),
                    Err(failure) => ApplyApplication::ReportFailure(failure),
                }
            },
            (ApplyApplication::Report(_, _), Event::Applied(result)) => match result {
                Ok(_) => ApplyApplication::Done(Ok(Action::Requeue(sync_interval))),
                Err(failure) => ApplyApplication::ReportFailure(
                    failure.context("patching status"),
                ),
            },
            (ApplyApplication::ReportFailure(failure), Event::Applied(_)) => {
                ApplyApplication::Done(Err(failure))
            },
            (apply, _) => apply,
        }
    }
}

// --- Cleaning up

/// Where the removal of an application from Zitadel stands.
#[derive(Debug)]
pub enum ApplicationRemoval {
    /// To look for it by name.
    Find,
    /// To remove the one with this ID.
    Remove(String),
    Done(Result<(), Failure>),
}

/// Where the removal of an application from Zitadel stands, as seen by
/// contracts.
#[verifier::ext_equal]
pub enum RemovalState {
    Find,
    Remove(String),
    Done(Result<(), FailureView>),
}

impl View for ApplicationRemoval {
    type V = RemovalState;

    open spec fn view(&self) -> RemovalState {
        match *self {
            ApplicationRemoval::Find => RemovalState::Find,
            ApplicationRemoval::Remove(id) => RemovalState::Remove(id),
            ApplicationRemoval::Done(result) => RemovalState::Done(outcome(result)),
        }
    }
}

impl RemovalState {
    /// How the removal begins: with the ID that the resource remembers, else
    /// by name.
    pub open spec fn start(known_id: Option<String>) -> RemovalState {
        match known_id {
            Some(id) => RemovalState::Remove(id),
            None => RemovalState::Find,
        }
    }

    /// Whether `reply` answers what is asked in this state.
    pub open spec fn expects(self, reply: Reply) -> bool {
        match self {
            RemovalState::Find => reply is Listed,
            RemovalState::Remove(_) => reply is Done,
            RemovalState::Done(_) => false,
        }
    }

    /// What is asked of Zitadel in this state.
    pub open spec fn asks(self, client: ProjectClient, name: Seq<char>) -> Option<RequestView> {
        match self {
            RemovalState::Find => Some(RequestView::ListApplications(name)),
            RemovalState::Remove(id) => Some(RequestView::Call(client.app_removal(id@))),
            RemovalState::Done(_) => None,
        }
    }

    /// Where the removal stands after `reply`: what is not there, or has no
    /// ID, needs no removal.
    pub open spec fn after(self, name: Seq<char>, reply: Reply) -> RemovalState {
        match (self, reply) {
            (RemovalState::Find, Reply::Listed(listing)) => match found_by_name(
                name,
                outcome_of_list(listing),
            ) {
                Ok(Some(app)) => match app.id {
                    Some(id) => RemovalState::Remove(id),
                    None => RemovalState::Done(Ok(())),
                },
                Ok(None) => RemovalState::Done(Ok(())),
                Err(failure) => RemovalState::Done(Err(failure)),
            },
            (RemovalState::Remove(id), Reply::Done(reply)) => RemovalState::Done(
                removed("removing application "@ + id@, outcome(reply)),
            ),
            _ => self,
        }
    }
}

impl ApplicationRemoval {
    fn request(&self, client: &ProjectClient, name: &str) -> (r: Option<Request>)
        ensures
            match r {
                Some(request) => self@.asks(*client, name@) == Some(request@),
                None => self@.asks(*client, name@) is None,
            },
    {
        match self {
            ApplicationRemoval::Find => Some(ProjectClient::find_application_request(name)),
            ApplicationRemoval::Remove(id) => Some(
                Request::Call(client.remove_application_call(id.as_str())),
            ),
            ApplicationRemoval::Done(_) => None,
        }
    }

    fn step(self, name: &str, reply: Reply) -> (r: ApplicationRemoval)
        requires
            self@.expects(reply),
        ensures
            r@ == self@.after(name@, reply),
    {
        match (self, reply) {
            (ApplicationRemoval::Find, Reply::Listed(listing)) => {
                match ProjectClient::find_application(name, listing) {
                    Ok(Some(app)) => match app.id {
                        Some(id) => ApplicationRemoval::Remove(id),
                        None => ApplicationRemoval::Done(Ok(())),
                    },
                    Ok(None) => ApplicationRemoval::Done(Ok(())),
                    Err(failure) => ApplicationRemoval::Done(Err(failure)),
                }
            },
            (ApplicationRemoval::Remove(id), Reply::Done(reply)) => {
                ApplicationRemoval::Done(ProjectClient::remove_application(id.as_str(), reply))
            },
            (removal, _) => removal,
        }
    }
}

/// Where the cleanup of an application stands. Its ConfigMap and Secret are
/// garbage-collected by Kubernetes.
#[derive(Debug)]
pub enum CleanupApplication {
    Remove(WithSession<ApplicationRemoval, ()>),
    Done(Result<Action, Failure>),
}

/// Where the cleanup of an application stands, as seen by contracts.
#[verifier::ext_equal]
pub enum CleanupState {
    Remove(WithSessionView<RemovalState, ()>),
    Done(Result<Action, FailureView>),
}

impl View for CleanupApplication {
    type V = CleanupState;

    open spec fn view(&self) -> CleanupState {
        match *self {
            CleanupApplication::Remove(work) => CleanupState::Remove(work@),
            CleanupApplication::Done(result) => CleanupState::Done(outcome(result)),
        }
    }
}

/// Where the cleanup stands while the removal does what it does.
pub open spec fn removing(work: WithSessionView<RemovalState, ()>) -> CleanupState {
    match work {
        WithSessionView::Done(Ok(_)) => CleanupState::Done(Ok(Action::AwaitChange)),
        WithSessionView::Done(Err(failure)) => CleanupState::Done(Err(failure)),
        other => CleanupState::Remove(other),
    }
}

fn go_on_removing(work: WithSession<ApplicationRemoval, ()>) -> (r: CleanupApplication)
    ensures
        r@ == removing(work@),
{
    match work {
        WithSession::Done(Ok(_)) => CleanupApplication::Done(Ok(Action::AwaitChange)),
        WithSession::Done(Err(failure)) => CleanupApplication::Done(Err(failure)),
        other => CleanupApplication::Remove(other),
    }
}

/// The removal in a session, given where it stands.
pub open spec fn removal_in_session(
    again: bool,
    lease: Lease,
    state: RemovalState,
) -> WithSessionView<
    RemovalState,
    (),
> {
    match state {
        RemovalState::Done(result) => WithSessionView::finished(again, lease, result),
        other => WithSessionView::Run(again, lease, other),
    }
}

fn remove_in_session(again: bool, lease: Lease, removal: ApplicationRemoval) -> (r: WithSession<
    ApplicationRemoval,
    (),
>)
    ensures
        r@ == removal_in_session(again, lease, removal@),
{
    match removal {
        ApplicationRemoval::Done(result) => work_finished(again, lease, result),
        other => WithSession::Run(again, lease, other),
    }
}

/// How the cleanup of an application begins.
pub fn cleanup_application() -> (r: CleanupApplication)
    ensures
        r@ == CleanupState::Remove(WithSessionView::Obtain(false)),
{
    CleanupApplication::Remove(with_session())
}

impl CleanupState {
    /// Whether `event` is what can come of the work asked for.
    pub open spec fn expects(self, event: Event) -> bool {
        match self {
            CleanupState::Remove(WithSessionView::Obtain(_)) => event is Session,
            CleanupState::Remove(WithSessionView::Run(_, _, state)) => event matches Event::Reply(
                reply,
            ) && state.expects(reply),
            CleanupState::Remove(WithSessionView::Invalidate(_)) => event is Invalidated,
            _ => false,
        }
    }

    /// What is asked for.
    pub open spec fn asks(self, app: OIDCApplication) -> Option<WorkView> {
        match self {
            CleanupState::Remove(WithSessionView::Obtain(_)) => Some(WorkView::ObtainSession),
            CleanupState::Remove(WithSessionView::Run(_, lease, state)) => match state.asks(
                lease.session.zitadel,
                zitadel_name(app),
            ) {
                Some(request) => Some(WorkView::Ask(lease.id, request)),
                None => None,
            },
            CleanupState::Remove(WithSessionView::Invalidate(id)) => Some(
                WorkView::Invalidate(id),
            ),
            _ => None,
        }
    }

    /// Where the cleanup stands after `event`.
    pub open spec fn after(self, app: OIDCApplication, event: Event) -> CleanupState {
        match (self, event) {
            (CleanupState::Remove(WithSessionView::Obtain(again)), Event::Session(session)) => {
                removing(
                    WithSessionView::obtained(
                        again,
                        outcome(session),
                        RemovalState::start(known_id(app)),
                    ),
                )
            },
            (
                CleanupState::Remove(WithSessionView::Run(again, lease, state)),
                Event::Reply(reply),
            ) => removing(
                removal_in_session(again, lease, state.after(zitadel_name(app), reply)),
            ),
            (CleanupState::Remove(WithSessionView::Invalidate(_)), Event::Invalidated) => {
                CleanupState::Remove(WithSessionView::Obtain(true))
            },
            _ => self,
        }
    }
}

impl CleanupApplication {
    /// What is to be done next, nothing if the cleanup is done.
    pub fn work(&self, app: &OIDCApplication) -> (r: Option<Work>)
        ensures
            work_view(r) == self@.asks(*app),
    {
        match self {
            CleanupApplication::Remove(WithSession::Obtain(_)) => Some(Work::ObtainSession),
            CleanupApplication::Remove(WithSession::Run(_, lease, removal)) => {
                let name = application_name(app);
                match removal.request(&lease.session.zitadel, name.as_str()) {
                    Some(request) => Some(Work::Ask(lease.id, request)),
                    None => None,
                }
            },
            CleanupApplication::Remove(WithSession::Invalidate(id)) => Some(Work::Invalidate(*id)),
            _ => None,
        }
    }

    /// Takes what came of the work.
    pub fn step(self, app: &OIDCApplication, event: Event) -> (r: CleanupApplication)
        requires
            self@.expects(event),
        ensures
            r@ == self@.after(*app, event),
    {
        match (self, event) {
            (
                CleanupApplication::Remove(WithSession::Obtain(again)),
                Event::Session(session),
            ) => {
                let start = match remembered_id(app) {
                    Some(id) => ApplicationRemoval::Remove(id),
                    None => ApplicationRemoval::Find,
                };
                go_on_removing(session_obtained(again, session, start))
            },
            (
                CleanupApplication::Remove(WithSession::Run(again, lease, removal)),
                Event::Reply(reply),
            ) => {
                let name = application_name(app);
                go_on_removing(remove_in_session(again, lease, removal.step(name.as_str(), reply)))
            },
            (CleanupApplication::Remove(WithSession::Invalidate(_)), Event::Invalidated) => {
                CleanupApplication::Remove(session_invalidated())
            },
            (cleanup, _) => cleanup,
        }
    }
}

// --- Laws

/// The ConfigMap of an application holds the client ID, the application ID,
/// the Zitadel URL, the issuer and the project ID, and nothing else.
pub proof fn config_map_holds_what_zitadel_assigned(
    lease: Lease,
    synced: SyncedApplication,
    other: Seq<char>,
)
    ensures
        text_at(app_data(lease, synced), "OIDC_CLIENT_ID"@) == Some(synced.client_id@),
        text_at(app_data(lease, synced), "OIDC_APPLICATION_ID"@) == Some(synced.app_id@),
        text_at(app_data(lease, synced), "ZITADEL_URL"@) == Some(lease.session.zitadel_url@),
        text_at(app_data(lease, synced), "ZITADEL_ISSUER"@) == Some(
            without_trailing(lease.session.zitadel_url@, '/'),
        ),
        text_at(app_data(lease, synced), "ZITADEL_PROJECT_ID"@) == Some(
            lease.session.project_id@,
        ),
        distinct_keys(app_data(lease, synced)),
        text_at(app_data(lease, synced), other) is Some ==> other == "OIDC_CLIENT_ID"@ || other
            == "OIDC_APPLICATION_ID"@ || other == "ZITADEL_URL"@ || other == "ZITADEL_ISSUER"@
            || other == "ZITADEL_PROJECT_ID"@,
{
    reveal_strlit("OIDC_APPLICATION_ID");
    reveal_strlit("OIDC_CLIENT_ID");
    reveal_strlit("ZITADEL_ISSUER");
    reveal_strlit("ZITADEL_PROJECT_ID");
    reveal_strlit("ZITADEL_URL");
    assert("OIDC_APPLICATION_ID"@.len() == 19);
    assert("OIDC_CLIENT_ID"@.len() == 14 && "OIDC_CLIENT_ID"@[0] == 'O');
    assert("ZITADEL_ISSUER"@.len() == 14 && "ZITADEL_ISSUER"@[0] == 'Z');
    assert("ZITADEL_PROJECT_ID"@.len() == 18);
    assert("ZITADEL_URL"@.len() == 11);
    let all = app_data(lease, synced);
    reveal_with_fuel(text_at, 6);
    let one = all.drop_first();
    let two = one.drop_first();
    let three = two.drop_first();
    let four = three.drop_first();
    assert(one.first() == all[1]);
    assert(two.first() == all[2]);
    assert(three.first() == all[3]);
    assert(four.first() == all[4]);
    assert(four.drop_first().len() == 0);
}

/// The Secret of an application holds the client ID and the client secret,
/// and nothing else.
pub proof fn secret_holds_id_and_secret(
    client_id: Seq<char>,
    client_secret: Seq<char>,
    other: Seq<char>,
)
    ensures
        text_at(secret_data(client_id, client_secret), "OIDC_CLIENT_ID"@) == Some(client_id),
        text_at(secret_data(client_id, client_secret), "OIDC_CLIENT_SECRET"@) == Some(
            client_secret,
        ),
        distinct_keys(secret_data(client_id, client_secret)),
        text_at(secret_data(client_id, client_secret), other) is Some ==> other
            == "OIDC_CLIENT_ID"@ || other == "OIDC_CLIENT_SECRET"@,
{
    reveal_strlit("OIDC_CLIENT_ID");
    reveal_strlit("OIDC_CLIENT_SECRET");
    assert("OIDC_CLIENT_ID"@.len() == 14);
    assert("OIDC_CLIENT_SECRET"@.len() == 18);
    let all = secret_data(client_id, client_secret);
    reveal_with_fuel(text_at, 3);
    assert(all.drop_first().first() == all[1]);
    assert(all.drop_first().drop_first().len() == 0);
}

/// A Secret that was written is the current one, so the next reconcile keeps
/// it: it belongs to the application, holds the client secret and carries the
/// client ID.
pub proof fn written_secrets_are_kept(
    app: OIDCApplication,
    client_id: Seq<char>,
    client_secret: Seq<char>,
    stored: StoredSecret,
)
    requires
        app.metadata.name is Some,
        app.metadata.uid is Some,
        client_secret.len() > 0,
        views(stored.owner_uids@) == seq![owned_by(APPLICATION_KIND@, app.metadata).uid],
        stored.data matches Some(data) && byte_views(data@) == seq![
            ("OIDC_CLIENT_ID"@, encode_utf8(client_id)),
            ("OIDC_CLIENT_SECRET"@, encode_utf8(client_secret)),
        ],
    ensures
        secret_is_current(Some(stored), app, client_id),
{
    reveal_strlit("OIDC_CLIENT_ID");
    reveal_strlit("OIDC_CLIENT_SECRET");
    assert("OIDC_CLIENT_ID"@.len() == 14);
    assert("OIDC_CLIENT_SECRET"@.len() == 18);
    let all = byte_views(stored.data->0@);
    reveal_with_fuel(bytes_at, 3);
    assert(all.drop_first().first() == all[1]);
    manifests_belong_to_their_resource(APPLICATION_KIND@, app.metadata, app.metadata);
    encode_utf8_is_not_empty(client_secret);
}

proof fn encode_utf8_is_not_empty(text: Seq<char>)
    requires
        text.len() > 0,
    ensures
        encode_utf8(text).len() > 0,
{
    if encode_utf8(text).len() == 0 {
        encode_utf8_decode_utf8(text);
        encode_utf8_decode_utf8(Seq::<char>::empty());
        assert(encode_utf8(Seq::<char>::empty()) =~= Seq::<u8>::empty());
        assert(encode_utf8(text) =~= Seq::<u8>::empty());
    }
}

impl ApplyState {
    /// Whether the step fits the authentication method: a Secret is deleted
    /// only where there is no client secret, and one is regenerated or
    /// written only where there is one.
    pub open spec fn fits_method(self, app: OIDCApplication) -> bool {
        &&& self is WriteSecret || self is Regenerate ==> app.spec.auth_method.has_secret()
        &&& self is DeleteSecret ==> !app.spec.auth_method.has_secret()
    }
}

/// A reconcile only ever makes steps that fit the authentication method.
pub proof fn secret_steps_fit_the_method(
    state: ApplyState,
    app: OIDCApplication,
    settings: Result<OidcSettings, FailureView>,
    sync_interval: Duration,
    event: Event,
)
    requires
        state.fits_method(app),
        state.expects(event),
    ensures
        apply_start(app, settings).fits_method(app),
        state.after(app, sync_interval, event).fits_method(app),
{
}

/// An application with a client secret is reported in sync only once its
/// Secret is known to hold the client secret: it was just written, or it was
/// found to be current. One without is reported only once no Secret of its
/// own is left.
pub proof fn secrets_are_settled_before_success_is_reported(
    state: ApplyState,
    app: OIDCApplication,
    sync_interval: Duration,
    event: Event,
)
    requires
        state.fits_method(app),
        state.expects(event),
        state.after(app, sync_interval, event) is Report,
    ensures
        app.spec.auth_method.has_secret() ==> {
            ||| (state is WriteSecret && event matches Event::Applied(Ok(_)))
            ||| (state matches ApplyState::ReadSecret(_, synced) && (event
                matches Event::SecretRead(Ok(secret)) && secret_is_current(
                secret,
                app,
                synced.client_id@,
            )))
        },
        !app.spec.auth_method.has_secret() ==> {
            ||| (state is DeleteSecret && event matches Event::Applied(Ok(_)))
            ||| (state is ReadSecret && (event matches Event::SecretRead(Ok(secret))
                && !secret_is_owned(secret, app)))
        },
{
}

/// A stored client secret is never thrown away: while the Secret is current
/// and the sync brings no new one, none is generated.
pub proof fn current_secrets_are_not_regenerated(
    app: OIDCApplication,
    lease: Lease,
    synced: SyncedApplication,
    secret: Option<StoredSecret>,
)
    requires
        app.spec.auth_method.has_secret(),
    ensures
        after_secret(app, lease, synced, secret) == ApplyState::Regenerate(lease, synced)
            <==> !secret_is_current(secret, app, synced.client_id@),
        synced.client_secret matches Some(fresh) ==> after_config_map(app, lease, synced)
            == ApplyState::WriteSecret(lease, synced, fresh),
{
}

/// The Secret of another resource is left alone by an application that uses
/// no client secret.
pub proof fn foreign_secrets_are_left_alone(
    app: OIDCApplication,
    lease: Lease,
    synced: SyncedApplication,
    secret: Option<StoredSecret>,
)
    requires
        !app.spec.auth_method.has_secret(),
        !secret_is_owned(secret, app),
    ensures
        after_secret(app, lease, synced, secret) == ApplyState::Report(lease, synced),
{
}

/// Nothing is said to be in sync before the ConfigMap is written: the only
/// way on from the sync leads through it.
pub proof fn the_config_map_is_written_first(
    state: ApplyState,
    app: OIDCApplication,
    sync_interval: Duration,
    event: Event,
)
    requires
        state.expects(event),
    ensures
        state is Sync ==> state.after(app, sync_interval, event) is Sync || state.after(
            app,
            sync_interval,
            event,
        ) is WriteConfigMap || state.after(app, sync_interval, event) is ReportFailure,
        state is WriteConfigMap && !(state.after(app, sync_interval, event) is ReportFailure)
            ==> event matches Event::Applied(Ok(_)),
        state.after(app, sync_interval, event) is ReadSecret ==> state is WriteConfigMap,
        state.after(app, sync_interval, event) is WriteSecret ==> state is WriteConfigMap
            || state is Regenerate,
        state.after(app, sync_interval, event) is Regenerate ==> state is ReadSecret,
        state.after(app, sync_interval, event) is DeleteSecret ==> state is ReadSecret,
        state.after(app, sync_interval, event) is Report ==> state is ReadSecret
            || state is WriteSecret || state is DeleteSecret,
{
}

/// A reconcile succeeds exactly if the status could be set to ready, and is
/// then due again after the sync interval; it fails only after it tried to
/// report the failure.
pub proof fn results_are_reported(
    state: ApplyState,
    app: OIDCApplication,
    sync_interval: Duration,
    event: Event,
    result: Result<Action, FailureView>,
)
    requires
        state.expects(event),
        state.after(app, sync_interval, event) == ApplyState::Done(result),
    ensures
        match result {
            Ok(action) => state is Report && (event matches Event::Applied(Ok(_))) && action
                == Action::Requeue(sync_interval),
            Err(failure) => state == ApplyState::ReportFailure(failure),
        },
{
}

/// The status says `Ready` with the last error when something failed, and
/// otherwise keeps what it said; when all went well it says so and what
/// Zitadel assigned.
pub proof fn status_tells_the_outcome(
    app: OIDCApplication,
    lease: Lease,
    synced: SyncedApplication,
    failure: FailureView,
    now: Timestamp,
)
    ensures
        ({
            let good = synced_status(app, lease, synced, now);
            &&& good.conditions.len() == 1
            &&& good.conditions[0].type_ == "Ready"@
            &&& good.conditions[0].status == "True"@
            &&& good.observed_generation == app.metadata.generation
            &&& good.application_id == Some(synced.app_id@)
            &&& good.client_id == Some(synced.client_id@)
        }),
        ({
            let bad = failed_status(app, failure, now);
            &&& bad.conditions.len() == 1
            &&& bad.conditions[0].type_ == "Ready"@
            &&& bad.conditions[0].status == "False"@
            &&& bad.conditions[0].reason == "SyncFailed"@
            &&& bad.conditions[0].message == capped(failure.line(), MAX_MESSAGE_CHARS as nat)
            &&& bad.observed_generation == app.metadata.generation
            &&& bad.application_id == status_of(app).application_id
            &&& bad.client_id == status_of(app).client_id
            &&& bad.project_id == status_of(app).project_id
            &&& bad.config_map == status_of(app).config_map
            &&& bad.secret == status_of(app).secret
        }),
{
}

impl ApplyState {
    /// What a state that a reconcile can be in is like.
    pub open spec fn live(self) -> bool {
        match self {
            ApplyState::Sync(_, WithSessionView::Run(_, _, state)) => state.live()
                && !state.is_done() && state.requests_left() <= 6,
            ApplyState::Sync(_, WithSessionView::Done(_)) => false,
            _ => true,
        }
    }

    /// An upper bound on the steps that are still to be made.
    pub open spec fn steps_left(self) -> nat {
        match self {
            ApplyState::Sync(_, WithSessionView::Obtain(again)) => if again {
                13
            } else {
                21
            },
            ApplyState::Sync(_, WithSessionView::Run(again, _, state)) => if again {
                6 + state.requests_left()
            } else {
                14 + state.requests_left()
            },
            ApplyState::Sync(_, WithSessionView::Invalidate(_)) => 14,
            ApplyState::Sync(_, WithSessionView::Done(_)) => 0,
            ApplyState::WriteConfigMap(_, _) => 6,
            ApplyState::ReadSecret(_, _) => 5,
            ApplyState::Regenerate(_, _) => 4,
            ApplyState::WriteSecret(_, _, _) => 3,
            ApplyState::DeleteSecret(_, _) => 3,
            ApplyState::Report(_, _) => 2,
            ApplyState::ReportFailure(_) => 1,
            ApplyState::Done(_) => 0,
        }
    }
}

/// A reconcile asks until it is done, it can take whatever comes of the work
/// that it asks for, and every event brings it closer to its end: it takes
/// twenty-one steps at most.
pub proof fn reconcile_ends(
    state: ApplyState,
    app: OIDCApplication,
    sync_interval: Duration,
    event: Event,
    settings: Result<OidcSettings, FailureView>,
    now: Timestamp,
)
    requires
        state.live(),
    ensures
        state is Done <==> state.asks(app, now) is None,
        state.asks(app, now) matches Some(work) ==> (state.expects(event) <==> answers(
            work,
            event,
        )),
        state.expects(event) ==> state.after(app, sync_interval, event).live(),
        state.expects(event) ==> state.after(app, sync_interval, event).steps_left()
            < state.steps_left(),
        apply_start(app, settings).live(),
        apply_start(app, settings).steps_left() <= 21,
{
    if state.expects(event) {
        match (state, event) {
            (
                ApplyState::Sync(settings, WithSessionView::Run(_, _, inner)),
                Event::Reply(reply),
            ) => {
                sync_progresses(inner, zitadel_name(app), settings, reply);
            },
            _ => {},
        }
    }
}

/// Whether `reply` is one by which a sync in this state comes across the
/// application `found`: by the ID that the resource remembers, or by name.
pub open spec fn comes_across(
    app: OIDCApplication,
    state: SyncState,
    reply: Reply,
    found: App,
) -> bool {
    match (state, reply) {
        (SyncState::Get(_), Reply::Found(Ok(Some(one)))) => one == found,
        (SyncState::Find, Reply::Listed(Ok(listing))) => first_wanted(listing@, zitadel_name(app))
            == Some(found),
        _ => false,
    }
}

/// Whether nothing is to be done about the Secret of an application: a
/// client secret that is in use is the current one, and there is none of the
/// application's own if it uses none.
pub open spec fn secret_is_settled(
    secret: Option<StoredSecret>,
    app: OIDCApplication,
    client_id: Seq<char>,
) -> bool {
    if app.spec.auth_method.has_secret() {
        secret_is_current(secret, app, client_id)
    } else {
        !secret_is_owned(secret, app)
    }
}

/// A resource that Zitadel already matches is only looked at, whether its
/// application is found by ID or by name and whether it uses a client secret
/// or not: the sync pushes nothing, the Secret is left as it is, the status
/// says `Synced`, and the next look is due after the sync interval.
pub proof fn in_sync_means_nothing_is_pushed(
    app: OIDCApplication,
    settings: OidcSettings,
    again: bool,
    lease: Lease,
    state: SyncState,
    reply: Reply,
    found: App,
    sync_interval: Duration,
    secret: Option<StoredSecret>,
    now: Timestamp,
)
    requires
        comes_across(app, state, reply, found),
        found.id is Some,
        found.oidc_config is Some,
        found.oidc_config->0.client_id is Some,
        found.state != Some(AppState::Inactive),
        opt_view(found.name) == Some(zitadel_name(app)),
        settings.agrees(found.oidc_config->0),
        secret_is_settled(secret, app, found.oidc_config->0.client_id->0@),
    ensures
        ({
            let synced = SyncedApplication {
                app_id: found.id->0,
                client_id: found.oidc_config->0.client_id->0,
                client_secret: None,
                changed: false,
            };
            let start = ApplyState::Sync(settings, WithSessionView::Run(again, lease, state));
            &&& start.after(app, sync_interval, Event::Reply(reply)) == ApplyState::WriteConfigMap(
                lease,
                synced,
            )
            &&& ApplyState::WriteConfigMap(lease, synced).after(
                app,
                sync_interval,
                Event::Applied(Ok(())),
            ) == ApplyState::ReadSecret(lease, synced)
            &&& ApplyState::ReadSecret(lease, synced).after(
                app,
                sync_interval,
                Event::SecretRead(Ok(secret)),
            ) == ApplyState::Report(lease, synced)
            &&& synced_status(app, lease, synced, now).conditions[0].reason == "Synced"@
            &&& ApplyState::Report(lease, synced).after(
                app,
                sync_interval,
                Event::Applied(Ok(())),
            ) == ApplyState::Done(Ok(Action::Requeue(sync_interval)))
        }),
{
}

impl CleanupState {
    /// What a state that a cleanup can be in is like.
    pub open spec fn live(self) -> bool {
        match self {
            CleanupState::Remove(WithSessionView::Run(_, _, state)) => !(state is Done),
            CleanupState::Remove(WithSessionView::Done(_)) => false,
            _ => true,
        }
    }

    /// An upper bound on the steps that are still to be made.
    pub open spec fn steps_left(self) -> nat {
        match self {
            CleanupState::Remove(WithSessionView::Obtain(again)) => if again {
                3
            } else {
                7
            },
            CleanupState::Remove(WithSessionView::Run(again, _, state)) => (if again {
                0nat
            } else {
                4nat
            }) + (if state is Find {
                2nat
            } else {
                1nat
            }),
            CleanupState::Remove(WithSessionView::Invalidate(_)) => 4,
            _ => 0,
        }
    }
}

/// A cleanup asks until it is done, it can take whatever comes of the work
/// that it asks for, and every event brings it closer to its end: it takes
/// seven steps at most.
pub proof fn cleanup_ends(state: CleanupState, app: OIDCApplication, event: Event)
    requires
        state.live(),
    ensures
        state is Done <==> state.asks(app) is None,
        state.asks(app) matches Some(work) ==> (state.expects(event) <==> answers(work, event)),
        state.expects(event) ==> state.after(app, event).live(),
        state.expects(event) ==> state.after(app, event).steps_left() < state.steps_left(),
        CleanupState::Remove(WithSessionView::Obtain(false)).steps_left() == 7,
{
}

/// A cleanup removes the application that the resource remembers, whatever
/// its name is now, and looks for it by name only if there is none to
/// remember.
pub proof fn cleanup_removes_what_was_created(
    app: OIDCApplication,
    lease: Lease,
    again: bool,
)
    ensures
        ({
            let begun = CleanupState::Remove(WithSessionView::Obtain(again)).after(
                app,
                Event::Session(Ok(lease)),
            );
            match known_id(app) {
                Some(id) => begun.asks(app) == Some(
                    WorkView::Ask(
                        lease.id,
                        RequestView::Call(lease.session.zitadel.app_removal(id@)),
                    ),
                ),
                None => begun.asks(app) == Some(
                    WorkView::Ask(lease.id, RequestView::ListApplications(zitadel_name(app))),
                ),
            }
        }),
{
}

/// A cleanup succeeds only when the application is gone from Zitadel: it was
/// removed, was gone already, or was not found; then only a change brings the
/// resource back.
pub proof fn cleanup_succeeds_when_the_application_is_gone(
    state: CleanupState,
    app: OIDCApplication,
    event: Event,
    action: Action,
)
    requires
        state.expects(event),
        state.after(app, event) == CleanupState::Done(Ok(action)),
    ensures
        action == Action::AwaitChange,
        match event {
            Event::Reply(Reply::Done(reply)) => reply is Ok || reply->Err_0@.has_status(NOT_FOUND),
            Event::Reply(Reply::Listed(Ok(listing))) => match first_wanted(
                listing@,
                zitadel_name(app),
            ) {
                Some(found) => found.id is None,
                None => true,
            },
            _ => false,
        },
{
}

// --- What a reconcile is for

/// The name that a spec gives, else that of the resource with `-oidc`.
pub open spec fn name_given_or_derived(given: Option<String>, app: OIDCApplication) -> Seq<char> {
    match given {
        Some(name) => name@,
        None => app.metadata.any_name() + "-oidc"@,
    }
}

/// The ConfigMap is written next to the resource, under the name that the spec
/// gives or else that of the resource with `-oidc`, as the resource's own, and
/// holds what Zitadel assigned to the application.
pub proof fn the_config_map_is_published(
    app: OIDCApplication,
    lease: Lease,
    synced: SyncedApplication,
    now: Timestamp,
)
    ensures
        ApplyState::WriteConfigMap(lease, synced).asks(
            app,
            now,
        ) matches Some(WorkView::WriteConfigMap(manifest)) && {
            &&& manifest.name == name_given_or_derived(app.spec.config_map_name, app)
            &&& manifest.namespace == namespace_of(app.metadata)
            &&& manifest.labels == seq![("app.kubernetes.io/managed-by"@, "cnoidc"@)]
            &&& manifest.owner == owned_by("OIDCApplication"@, app.metadata)
            &&& manifest.data.len() == 5
            &&& text_at(manifest.data, "OIDC_CLIENT_ID"@) == Some(synced.client_id@)
            &&& text_at(manifest.data, "OIDC_APPLICATION_ID"@) == Some(synced.app_id@)
            &&& text_at(manifest.data, "ZITADEL_URL"@) == Some(lease.session.zitadel_url@)
            &&& text_at(manifest.data, "ZITADEL_PROJECT_ID"@) == Some(lease.session.project_id@)
            &&& text_at(manifest.data, "ZITADEL_ISSUER"@) matches Some(issuer) && {
                &&& issuer.len() <= lease.session.zitadel_url@.len()
                &&& issuer == lease.session.zitadel_url@.take(issuer.len() as int)
                &&& !(issuer.len() > 0 && issuer.last() == '/')
                &&& forall|i: int|
                    issuer.len() <= i < lease.session.zitadel_url@.len()
                        ==> #[trigger] lease.session.zitadel_url@[i] == '/'
            }
        },
{
    config_map_holds_what_zitadel_assigned(lease, synced, Seq::empty());
    without_trailing_is_the_rest(lease.session.zitadel_url@, '/');
}

/// There is one Secret: the one that a reconcile reads, the one that it deletes
/// and the one that it writes are the same object, in the namespace of the
/// resource and under the name that the spec gives or else that of the resource
/// with `-oidc`; the status names it too. It is written as the resource's own
/// and holds the client ID and the client secret, and nothing else.
pub proof fn there_is_one_secret(
    app: OIDCApplication,
    lease: Lease,
    synced: SyncedApplication,
    secret: String,
    now: Timestamp,
)
    ensures
        ({
            let namespace = namespace_of(app.metadata);
            let name = name_given_or_derived(app.spec.secret_name, app);
            &&& ApplyState::ReadSecret(lease, synced).asks(app, now) == Some(
                WorkView::ReadSecret(namespace, name),
            )
            &&& ApplyState::DeleteSecret(lease, synced).asks(app, now) == Some(
                WorkView::DeleteSecret(namespace, name),
            )
            &&& ApplyState::WriteSecret(lease, synced, secret).asks(
                app,
                now,
            ) matches Some(WorkView::WriteSecret(manifest)) && {
                &&& manifest.namespace == namespace
                &&& manifest.name == name
                &&& manifest.labels == seq![("app.kubernetes.io/managed-by"@, "cnoidc"@)]
                &&& manifest.owner == owned_by("OIDCApplication"@, app.metadata)
                &&& manifest.data == seq![
                    ("OIDC_CLIENT_ID"@, synced.client_id@),
                    ("OIDC_CLIENT_SECRET"@, secret@),
                ]
            }
            &&& synced_status(app, lease, synced, now).secret == if app.spec.auth_method
                == AuthMethod::Basic || app.spec.auth_method == AuthMethod::Post {
                Some(name)
            } else {
                None
            }
        }),
{
}

/// Whether a Secret is what the cluster keeps of a manifest: its data encoded,
/// its owner by UID.
pub open spec fn keeps(stored: StoredSecret, manifest: ManifestView) -> bool {
    &&& stored.owner_uids@.len() == 1 && stored.owner_uids@[0]@ == manifest.owner.uid
    &&& stored.data is Some && stored.data->0@.len() == manifest.data.len()
    &&& forall|i: int|
        0 <= i < manifest.data.len() ==> (#[trigger] stored.data->0@[i]).0@ == manifest.data[i].0
            && stored.data->0@[i].1@ == encode_utf8(manifest.data[i].1)
}

/// What one reconcile writes the next one reads and keeps: once the Secret with
/// a client secret is written, a reconcile that finds the same client ID reads
/// that very object and has no new secret generated.
pub proof fn what_is_written_is_read_and_kept(
    app: OIDCApplication,
    lease: Lease,
    synced: SyncedApplication,
    secret: String,
    now: Timestamp,
    next_lease: Lease,
    next: SyncedApplication,
    later: Timestamp,
    stored: StoredSecret,
    sync_interval: Duration,
)
    requires
        app.metadata.name is Some,
        app.metadata.uid is Some,
        app.spec.auth_method == AuthMethod::Basic || app.spec.auth_method == AuthMethod::Post,
        secret@.len() > 0,
        next.client_id@ == synced.client_id@,
        ApplyState::WriteSecret(lease, synced, secret).asks(
            app,
            now,
        ) matches Some(WorkView::WriteSecret(manifest)) && keeps(stored, manifest),
    ensures
        ApplyState::WriteSecret(lease, synced, secret).asks(
            app,
            now,
        ) matches Some(WorkView::WriteSecret(manifest)) && ApplyState::ReadSecret(
            next_lease,
            next,
        ).asks(app, later) == Some(WorkView::ReadSecret(manifest.namespace, manifest.name)),
        ApplyState::ReadSecret(next_lease, next).after(
            app,
            sync_interval,
            Event::SecretRead(Ok(Some(stored))),
        ) == ApplyState::Report(next_lease, next),
{
    let manifest = app_manifest(app, secret_of(app), secret_data(synced.client_id@, secret@));
    assert(views(stored.owner_uids@) =~= seq![owned_by(APPLICATION_KIND@, app.metadata).uid]);
    let data = byte_views(stored.data->0@);
    assert(stored.data->0@[0].0@ == manifest.data[0].0);
    assert(stored.data->0@[1].0@ == manifest.data[1].0);
    assert(data =~= seq![
        ("OIDC_CLIENT_ID"@, encode_utf8(synced.client_id@)),
        ("OIDC_CLIENT_SECRET"@, encode_utf8(secret@)),
    ]);
    written_secrets_are_kept(app, synced.client_id@, secret@, stored);
}

/// A Secret is the current one exactly if it belongs to the resource, holds a
/// client secret that is not empty, and carries the client ID.
pub proof fn current_secrets_are_told_by_owner_and_client(
    secret: Option<StoredSecret>,
    app: OIDCApplication,
    client_id: Seq<char>,
)
    ensures
        secret_is_current(secret, app, client_id) <==> {
            &&& secret is Some
            &&& app.metadata.uid is Some
            &&& exists|i: int|
                0 <= i < secret->0.owner_uids@.len() && (#[trigger] secret->0.owner_uids@[i])@
                    == app.metadata.uid->0@
            &&& secret->0.value("OIDC_CLIENT_SECRET"@) is Some
            &&& secret->0.value("OIDC_CLIENT_SECRET"@)->0.len() > 0
            &&& secret->0.value("OIDC_CLIENT_ID"@) == Some(encode_utf8(client_id))
        },
        secret_is_owned(secret, app) <==> {
            &&& secret is Some
            &&& app.metadata.uid is Some
            &&& exists|i: int|
                0 <= i < secret->0.owner_uids@.len() && (#[trigger] secret->0.owner_uids@[i])@
                    == app.metadata.uid->0@
        },
{
    if secret is Some && app.metadata.uid is Some {
        let uids = secret->0.owner_uids@;
        let uid = app.metadata.uid->0@;
        if views(uids).contains(uid) {
            let i = choose|i: int| 0 <= i < views(uids).len() && views(uids)[i] == uid;
            assert(uids[i]@ == uid);
        }
        if exists|i: int| 0 <= i < uids.len() && (#[trigger] uids[i])@ == uid {
            let i = choose|i: int| 0 <= i < uids.len() && (#[trigger] uids[i])@ == uid;
            assert(views(uids)[i] == uid);
        }
    }
}

/// The status of a resource that is in sync is set on that resource and says
/// what Zitadel assigned, what was published, and whether anything changed.
pub proof fn success_is_reported_in_the_status(
    app: OIDCApplication,
    lease: Lease,
    synced: SyncedApplication,
    now: Timestamp,
)
    ensures
        ApplyState::Report(lease, synced).asks(
            app,
            now,
        ) matches Some(WorkView::PatchApplication(namespace, name, status)) && {
            &&& namespace == namespace_of(app.metadata)
            &&& name == app.metadata.any_name()
            &&& status.observed_generation == app.metadata.generation
            &&& status.application_id == Some(synced.app_id@)
            &&& status.client_id == Some(synced.client_id@)
            &&& status.project_id == Some(lease.session.project_id@)
            &&& status.config_map == Some(name_given_or_derived(app.spec.config_map_name, app))
            &&& status.conditions.len() == 1
            &&& status.conditions[0] == readiness(
                app.metadata.generation,
                true,
                if synced.changed {
                    "Updated"@
                } else {
                    "Synced"@
                },
                "application "@ + (namespace_of(app.metadata) + "/"@ + app.metadata.any_name())
                    + " is in sync with Zitadel"@,
                now,
            )
        },
{
}

/// The status of a resource whose reconcile failed is set on that resource and
/// says why; what it named before it still names.
pub proof fn failure_is_reported_in_the_status(
    app: OIDCApplication,
    failure: FailureView,
    now: Timestamp,
)
    ensures
        ApplyState::ReportFailure(failure).asks(
            app,
            now,
        ) matches Some(WorkView::PatchApplication(namespace, name, status)) && {
            &&& namespace == namespace_of(app.metadata)
            &&& name == app.metadata.any_name()
            &&& status.observed_generation == app.metadata.generation
            &&& status.conditions.len() == 1
            &&& status.conditions[0] == readiness(
                app.metadata.generation,
                false,
                "SyncFailed"@,
                failure.line(),
                now,
            )
            &&& match app.status {
                Some(before) => {
                    &&& status.application_id == opt_view(before.application_id)
                    &&& status.client_id == opt_view(before.client_id)
                    &&& status.project_id == opt_view(before.project_id)
                    &&& status.config_map == opt_view(before.config_map)
                    &&& status.secret == opt_view(before.secret)
                },
                None => {
                    &&& status.application_id is None
                    &&& status.client_id is None
                    &&& status.project_id is None
                    &&& status.config_map is None
                    &&& status.secret is None
                },
            }
        },
{
}

/// A reconcile begins with the session and syncs the settings of the spec; a
/// resource without namespace fails at once, and an invalid spec is reported
/// as such without asking anything of zapp or Zitadel.
pub proof fn reconciles_begin_with_a_session(
    app: OIDCApplication,
    settings: OidcSettings,
    failure: FailureView,
    now: Timestamp,
)
    ensures
        app.metadata.namespace is None ==> (apply_start(app, Ok(settings)) matches ApplyState::Done(
            Err(e),
        ) && e.chain == seq!["OIDCApplication"@ + " without namespace"@]),
        app.metadata.namespace is None ==> (apply_start(app, Err(failure)) matches ApplyState::Done(
            Err(e),
        ) && e.chain == seq!["OIDCApplication"@ + " without namespace"@]),
        app.metadata.namespace is Some ==> {
            &&& apply_start(app, Ok(settings)) == ApplyState::Sync(
                settings,
                WithSessionView::Obtain(false),
            )
            &&& apply_start(app, Ok(settings)).asks(app, now) == Some(WorkView::ObtainSession)
            &&& apply_start(app, Err(failure)) == ApplyState::ReportFailure(
                in_context(failure, "invalid spec"@),
            )
        },
{
}

/// The sync is done in the session that was obtained, for the application that
/// the resource remembers and under the name of the resource, with the settings
/// of its spec. Its requests are those of the reconcile; what it ends with, the
/// reconcile goes on with; and if Zitadel rejects the credential, the session
/// is given up once and another one obtained.
pub proof fn the_sync_is_done_in_the_session(
    app: OIDCApplication,
    settings: OidcSettings,
    again: bool,
    lease: Lease,
    failure: Failure,
    state: SyncState,
    reply: Reply,
    id: u64,
    sync_interval: Duration,
    now: Timestamp,
)
    ensures
        ApplyState::Sync(settings, WithSessionView::Obtain(again)).asks(app, now) == Some(
            WorkView::ObtainSession,
        ),
        ApplyState::Sync(settings, WithSessionView::Obtain(again)).after(
            app,
            sync_interval,
            Event::Session(Ok(lease)),
        ) == ApplyState::Sync(
            settings,
            WithSessionView::Run(
                again,
                lease,
                if app.status is Some && app.status->0.application_id is Some {
                    SyncState::Get(app.status->0.application_id->0)
                } else {
                    SyncState::Find
                },
            ),
        ),
        ApplyState::Sync(settings, WithSessionView::Obtain(again)).after(
            app,
            sync_interval,
            Event::Session(Err(failure)),
        ) == ApplyState::ReportFailure(in_context(failure@, "obtaining Zitadel credential"@)),
        ({
            let name = namespace_of(app.metadata) + "/"@ + app.metadata.any_name();
            let run = ApplyState::Sync(settings, WithSessionView::Run(again, lease, state));
            let next = state.after(name, settings, reply);
            &&& run.asks(app, now) == match state.asks(lease.session.zitadel, name, settings) {
                Some(request) => Some(WorkView::Ask(lease.id, request)),
                None => None,
            }
            &&& run.after(app, sync_interval, Event::Reply(reply)) == match next {
                SyncState::Done(Ok(synced)) => ApplyState::WriteConfigMap(lease, synced),
                SyncState::Done(Err(e)) => if !again && e.is_auth() {
                    ApplyState::Sync(settings, WithSessionView::Invalidate(lease.id))
                } else {
                    ApplyState::ReportFailure(e)
                },
                _ => ApplyState::Sync(settings, WithSessionView::Run(again, lease, next)),
            }
        }),
        ApplyState::Sync(settings, WithSessionView::Invalidate(id)).asks(app, now) == Some(
            WorkView::Invalidate(id),
        ),
        ApplyState::Sync(settings, WithSessionView::Invalidate(id)).after(
            app,
            sync_interval,
            Event::Invalidated,
        ) == ApplyState::Sync(settings, WithSessionView::Obtain(true)),
{
}

/// What follows the sync: the ConfigMap, then the Secret, then the status. A
/// client secret that the sync brought is written; otherwise the Secret is
/// looked at, and a new client secret generated exactly if the method has one
/// and the Secret is not current, or the Secret deleted exactly if the method
/// has none and the Secret belongs to the resource.
pub proof fn what_was_synced_is_published(
    app: OIDCApplication,
    lease: Lease,
    synced: SyncedApplication,
    secret: Option<StoredSecret>,
    fresh: String,
    sync_interval: Duration,
    now: Timestamp,
)
    ensures
        ({
            let with_secret = app.spec.auth_method == AuthMethod::Basic || app.spec.auth_method
                == AuthMethod::Post;
            let done = Event::Applied(Ok(()));
            &&& ApplyState::WriteConfigMap(lease, synced).after(app, sync_interval, done) == if (
            with_secret && synced.client_secret is Some) {
                ApplyState::WriteSecret(lease, synced, synced.client_secret->0)
            } else {
                ApplyState::ReadSecret(lease, synced)
            }
            &&& ApplyState::ReadSecret(lease, synced).after(
                app,
                sync_interval,
                Event::SecretRead(Ok(secret)),
            ) == if with_secret && !secret_is_current(secret, app, synced.client_id@) {
                ApplyState::Regenerate(lease, synced)
            } else if !with_secret && secret_is_owned(secret, app) {
                ApplyState::DeleteSecret(lease, synced)
            } else {
                ApplyState::Report(lease, synced)
            }
            &&& ApplyState::Regenerate(lease, synced).asks(app, now) == Some(
                WorkView::Ask(
                    lease.id,
                    RequestView::Call(lease.session.zitadel.regeneration(synced.app_id@)),
                ),
            )
            &&& ApplyState::Regenerate(lease, synced).after(
                app,
                sync_interval,
                Event::Reply(Reply::Secret(Ok(fresh))),
            ) == ApplyState::WriteSecret(lease, synced, fresh)
            &&& ApplyState::WriteSecret(lease, synced, fresh).after(app, sync_interval, done)
                == ApplyState::Report(lease, synced)
            &&& ApplyState::DeleteSecret(lease, synced).after(app, sync_interval, done)
                == ApplyState::Report(lease, synced)
            &&& ApplyState::Report(lease, synced).after(app, sync_interval, done)
                == ApplyState::Done(Ok(Action::Requeue(sync_interval)))
        }),
{
}

/// Whatever fails after the sync is reported, in the words of what was being
/// done, and is then the result, whether or not it could be reported.
pub proof fn what_fails_is_reported_and_returned(
    app: OIDCApplication,
    lease: Lease,
    synced: SyncedApplication,
    fresh: String,
    failure: Failure,
    reported: Result<(), Failure>,
    sync_interval: Duration,
)
    ensures
        ({
            let failed = Event::Applied(Err(failure));
            let namespace = namespace_of(app.metadata);
            &&& ApplyState::WriteConfigMap(lease, synced).after(app, sync_interval, failed)
                == ApplyState::ReportFailure(
                in_context(
                    failure@,
                    applying(
                        "ConfigMap"@,
                        namespace,
                        name_given_or_derived(app.spec.config_map_name, app),
                    ),
                ),
            )
            &&& ApplyState::WriteSecret(lease, synced, fresh).after(app, sync_interval, failed)
                == ApplyState::ReportFailure(
                in_context(
                    failure@,
                    applying(
                        "Secret"@,
                        namespace,
                        name_given_or_derived(app.spec.secret_name, app),
                    ),
                ),
            )
            &&& ApplyState::Report(lease, synced).after(app, sync_interval, failed)
                == ApplyState::ReportFailure(in_context(failure@, "patching status"@))
            &&& ApplyState::DeleteSecret(lease, synced).after(app, sync_interval, failed)
                == ApplyState::ReportFailure(failure@)
            &&& ApplyState::ReadSecret(lease, synced).after(
                app,
                sync_interval,
                Event::SecretRead(Err(failure)),
            ) == ApplyState::ReportFailure(failure@)
            &&& ApplyState::Regenerate(lease, synced).after(
                app,
                sync_interval,
                Event::Reply(Reply::Secret(Err(failure))),
            ) == ApplyState::ReportFailure(in_context(failure@, "regenerating client secret"@))
            &&& ApplyState::ReportFailure(failure@).after(
                app,
                sync_interval,
                Event::Applied(reported),
            ) == ApplyState::Done(Err(failure@))
        }),
{
}

/// A cleanup, too, is done in a session: it removes the application that the
/// resource remembers, else the one of its name, gives a rejected session up
/// once, and ends with what came of the removal.
pub proof fn the_removal_is_done_in_the_session(
    app: OIDCApplication,
    again: bool,
    lease: Lease,
    failure: Failure,
    state: RemovalState,
    reply: Reply,
    id: u64,
)
    ensures
        CleanupState::Remove(WithSessionView::Obtain(again)).asks(app) == Some(
            WorkView::ObtainSession,
        ),
        CleanupState::Remove(WithSessionView::Obtain(again)).after(
            app,
            Event::Session(Ok(lease)),
        ) == CleanupState::Remove(
            WithSessionView::Run(
                again,
                lease,
                if app.status is Some && app.status->0.application_id is Some {
                    RemovalState::Remove(app.status->0.application_id->0)
                } else {
                    RemovalState::Find
                },
            ),
        ),
        CleanupState::Remove(WithSessionView::Obtain(again)).after(
            app,
            Event::Session(Err(failure)),
        ) == CleanupState::Done(Err(in_context(failure@, "obtaining Zitadel credential"@))),
        ({
            let name = namespace_of(app.metadata) + "/"@ + app.metadata.any_name();
            let run = CleanupState::Remove(WithSessionView::Run(again, lease, state));
            let next = state.after(name, reply);
            &&& run.asks(app) == match state {
                RemovalState::Find => Some(
                    WorkView::Ask(lease.id, RequestView::ListApplications(name)),
                ),
                RemovalState::Remove(id) => Some(
                    WorkView::Ask(
                        lease.id,
                        RequestView::Call(lease.session.zitadel.app_removal(id@)),
                    ),
                ),
                RemovalState::Done(_) => None,
            }
            &&& run.after(app, Event::Reply(reply)) == match next {
                RemovalState::Done(Ok(_)) => CleanupState::Done(Ok(Action::AwaitChange)),
                RemovalState::Done(Err(e)) => if !again && e.is_auth() {
                    CleanupState::Remove(WithSessionView::Invalidate(lease.id))
                } else {
                    CleanupState::Done(Err(e))
                },
                _ => CleanupState::Remove(WithSessionView::Run(again, lease, next)),
            }
        }),
        CleanupState::Remove(WithSessionView::Invalidate(id)).asks(app) == Some(
            WorkView::Invalidate(id),
        ),
        CleanupState::Remove(WithSessionView::Invalidate(id)).after(app, Event::Invalidated)
            == CleanupState::Remove(WithSessionView::Obtain(true)),
{
}

/// A removal removes what it finds: the first OIDC application of the name, by
/// its ID. It ends well exactly if that is done, or there is none, and fails
/// with the answer otherwise.
pub proof fn removals_remove_what_they_find(
    name: Seq<char>,
    id: String,
    listing: Vec<App>,
    i: int,
    failure: Failure,
)
    ensures
        ({
            let next = RemovalState::Find.after(name, Reply::Listed(Ok(listing)));
            &&& (0 <= i < listing@.len() && listing@[i].name is Some && listing@[i].name->0@ == name
                && listing@[i].oidc_config is Some && (forall|j: int|
                0 <= j < i ==> !((#[trigger] listing@[j]).name is Some && listing@[j].name->0@
                    == name && listing@[j].oidc_config is Some))) ==> next == match listing@[i].id {
                Some(id) => RemovalState::Remove(id),
                None => RemovalState::Done(Ok(())),
            }
            &&& (forall|j: int|
                0 <= j < listing@.len() ==> !((#[trigger] listing@[j]).name is Some
                    && listing@[j].name->0@ == name && listing@[j].oidc_config is Some)) ==> next
                == RemovalState::Done(Ok(()))
        }),
        RemovalState::Find.after(name, Reply::Listed(Err(failure))) == RemovalState::Done(
            Err(in_context(failure@, "listing applications"@)),
        ),
        RemovalState::Remove(id).after(name, Reply::Done(Ok(()))) == RemovalState::Done(Ok(())),
        RemovalState::Remove(id).after(name, Reply::Done(Err(failure))) == RemovalState::Done(
            if failure@.http is Some && (failure@.http->0).0 == 404 {
                Ok(())
            } else {
                Err(in_context(failure@, "removing application "@ + id@))
            },
        ),
{
    the_first_application_of_the_name_is_found(listing@, name);
    match first_wanted(listing@, name) {
        Some(app) => {
            let k = choose|k: int|
                {
                    &&& 0 <= k < listing@.len()
                    &&& #[trigger] listing@[k] == app
                    &&& app.name is Some && app.name->0@ == name && app.oidc_config is Some
                    &&& forall|j: int|
                        0 <= j < k ==> !((#[trigger] listing@[j]).name is Some
                            && listing@[j].name->0@ == name && listing@[j].oidc_config is Some)
                };
            if 0 <= i < listing@.len() && listing@[i].name is Some && listing@[i].name->0@ == name
                && listing@[i].oidc_config is Some && (forall|j: int|
                0 <= j < i ==> !((#[trigger] listing@[j]).name is Some && listing@[j].name->0@
                    == name && listing@[j].oidc_config is Some)) {
                assert(!(k < i));
                assert(!(i < k));
            }
        },
        None => {},
    }
}

/// Contracts speak of reconciles and cleanups as they are.
pub proof fn reconciles_are_seen_as_they_are(
    apply: ApplyApplication,
    cleanup: CleanupApplication,
    removal: ApplicationRemoval,
)
    ensures
        match apply {
            ApplyApplication::Sync(settings, work) => apply@ == ApplyState::Sync(settings, work@),
            ApplyApplication::WriteConfigMap(lease, synced) => apply@ == ApplyState::WriteConfigMap(
                lease,
                synced,
            ),
            ApplyApplication::ReadSecret(lease, synced) => apply@ == ApplyState::ReadSecret(
                lease,
                synced,
            ),
            ApplyApplication::Regenerate(lease, synced) => apply@ == ApplyState::Regenerate(
                lease,
                synced,
            ),
            ApplyApplication::WriteSecret(lease, synced, secret) => apply@
                == ApplyState::WriteSecret(lease, synced, secret),
            ApplyApplication::DeleteSecret(lease, synced) => apply@ == ApplyState::DeleteSecret(
                lease,
                synced,
            ),
            ApplyApplication::Report(lease, synced) => apply@ == ApplyState::Report(lease, synced),
            ApplyApplication::ReportFailure(failure) => apply@ == ApplyState::ReportFailure(
                failure@,
            ),
            ApplyApplication::Done(Ok(action)) => apply@ == ApplyState::Done(Ok(action)),
            ApplyApplication::Done(Err(failure)) => apply@ == ApplyState::Done(Err(failure@)),
        },
        match cleanup {
            CleanupApplication::Remove(work) => cleanup@ == CleanupState::Remove(work@),
            CleanupApplication::Done(Ok(action)) => cleanup@ == CleanupState::Done(Ok(action)),
            CleanupApplication::Done(Err(failure)) => cleanup@ == CleanupState::Done(Err(failure@)),
        },
        match removal {
            ApplicationRemoval::Find => removal@ == RemovalState::Find,
            ApplicationRemoval::Remove(id) => removal@ == RemovalState::Remove(id),
            ApplicationRemoval::Done(Ok(_)) => removal@ == RemovalState::Done(Ok(())),
            ApplicationRemoval::Done(Err(failure)) => removal@ == RemovalState::Done(Err(failure@)),
        },
{
}

} // verus!
