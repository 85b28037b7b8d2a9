//! Reconciling a `ProjectRole`: syncing it to Zitadel, publishing its key,
//! and removing it.

use vstd::prelude::*;
use vstd::string::*;

use crate::controller::{
    answers, applying, applying_text, claim_of, key_of, name_or, named, namespace_of,
    namespace_or_empty, no_namespace, required_namespace, role_key, roles_claim,
    session_invalidated, session_obtained, with_session, work_finished, work_view, Action, Event,
    WithSession, WithSessionView, Work, WorkView,
};
use crate::crd::{ProjectRole, ProjectRoleStatus, RoleStatusView, ROLE_KIND};
use crate::failure::{in_context, outcome, Failure, FailureView, NOT_FOUND};
use crate::kubernetes::{
    distinct_keys, labels, manifest, no_texts, owned_by, owner_reference, pair_views, put, readiness,
    ready_condition, text_at, Manifest, ManifestView, MAX_MESSAGE_CHARS,
};
use crate::json::JsonView;
use crate::role::{
    roles_are_brought_in_line, roles_are_sent_as_they_are_given, RoleState, RoleSync,
};
use crate::text::{
    capped, opt_view, quoted, quoted_text, same, without_trailing, without_trailing_is_the_rest,
};
use crate::time::{Duration, Timestamp};
use crate::zapp::Lease;
use crate::zitadel::{
    removed, AnswerKind, BodyView, CallView, Method, ProjectClient, Reply, Request, RequestView,
    Role,
};

verus! {

// --- What is published

/// Name of the ConfigMap of a role.
pub open spec fn config_map_of(role: ProjectRole) -> Seq<char> {
    named(role.spec.config_map_name, role.metadata, "-role"@)
}

/// Display name of a role: the spec's, or the key.
pub open spec fn display_name_of(role: ProjectRole) -> Seq<char> {
    match role.spec.display_name {
        Some(name) => name@,
        None => key_of(role),
    }
}

fn display_name(role: &ProjectRole) -> (r: String)
    ensures
        r@ == display_name_of(*role),
{
    match &role.spec.display_name {
        Some(name) => name.clone(),
        None => role_key(role),
    }
}

/// What the ConfigMap of a role holds.
pub open spec fn role_data(role: ProjectRole, lease: Lease) -> Seq<(Seq<char>, Seq<char>)> {
    seq![
        ("ZITADEL_ISSUER"@, without_trailing(lease.session.zitadel_url@, '/')),
        ("ZITADEL_PROJECT_ID"@, lease.session.project_id@),
        ("ZITADEL_ROLES_CLAIM"@, claim_of(lease.session.project_id@)),
        ("ZITADEL_ROLE_KEY"@, key_of(role)),
        ("ZITADEL_URL"@, lease.session.zitadel_url@),
    ]
}

/// The ConfigMap of a role.
pub open spec fn role_manifest(role: ProjectRole, lease: Lease) -> ManifestView {
    ManifestView {
        name: config_map_of(role),
        namespace: namespace_of(role.metadata),
        labels: labels(),
        owner: owned_by(ROLE_KIND@, role.metadata),
        data: role_data(role, lease),
    }
}

fn config_map_manifest(role: &ProjectRole, lease: &Lease) -> (r: Manifest)
    ensures
        r@ == role_manifest(*role, *lease),
{
    let issuer = lease.session.issuer();
    let claim = roles_claim(lease.session.project_id.as_str());
    let key = role_key(role);
    let mut data = no_texts();
    put(&mut data, "ZITADEL_ISSUER", issuer.as_str());
    put(&mut data, "ZITADEL_PROJECT_ID", lease.session.project_id.as_str());
    put(&mut data, "ZITADEL_ROLES_CLAIM", claim.as_str());
    put(&mut data, "ZITADEL_ROLE_KEY", key.as_str());
    put(&mut data, "ZITADEL_URL", lease.session.zitadel_url.as_str());
    assert(pair_views(data@) =~= role_data(*role, *lease));
    manifest(
        namespace_or_empty(&role.metadata).as_str(),
        name_or(&role.spec.config_map_name, &role.metadata, "-role"),
        owner_reference(ROLE_KIND, &role.metadata),
        data,
    )
}

/// The status of a role that is in sync.
pub open spec fn synced_status(
    role: ProjectRole,
    lease: Lease,
    changed: bool,
    now: Timestamp,
) -> RoleStatusView {
    RoleStatusView {
        observed_generation: role.metadata.generation,
        key: Some(key_of(role)),
        project_id: Some(lease.session.project_id@),
        config_map: Some(config_map_of(role)),
        conditions: seq![
            readiness(
                role.metadata.generation,
                true,
                if changed {
                    "Updated"@
                } else {
                    "Synced"@
                },
                "role "@ + key_of(role) + " is in sync with Zitadel"@,
                now,
            ),
        ],
    }
}

/// The status that a role has.
pub open spec fn status_of(role: ProjectRole) -> RoleStatusView {
    match role.status {
        Some(status) => status@,
        None => RoleStatusView::none(),
    }
}

/// The status of a role whose reconcile failed: what it was, with the
/// failure as its condition.
pub open spec fn failed_status(
    role: ProjectRole,
    failure: FailureView,
    now: Timestamp,
) -> RoleStatusView {
    RoleStatusView {
        observed_generation: role.metadata.generation,
        conditions: seq![
            readiness(role.metadata.generation, false, "SyncFailed"@, failure.line(), now),
        ],
        ..status_of(role)
    }
}

fn report_synced(
    role: &ProjectRole,
    lease: &Lease,
    changed: bool,
    now: Timestamp,
) -> (r: ProjectRoleStatus)
    ensures
        r@ == synced_status(*role, *lease, changed, now),
{
    let message = "role ".to_owned().concat(role_key(role).as_str()).concat(
        " is in sync with Zitadel",
    );
    let reason = if changed {
        "Updated"
    } else {
        "Synced"
    };
    let condition = ready_condition(role.metadata.generation, true, reason, message.as_str(), now);
    let r = ProjectRoleStatus {
        observed_generation: role.metadata.generation,
        key: Some(role_key(role)),
        project_id: Some(lease.session.project_id.clone()),
        config_map: Some(name_or(&role.spec.config_map_name, &role.metadata, "-role")),
        conditions: vec![condition],
    };
    assert(r@ =~= synced_status(*role, *lease, changed, now));
    r
}

fn report_failure(role: &ProjectRole, failure: &Failure, now: Timestamp) -> (r: ProjectRoleStatus)
    ensures
        r@ == failed_status(*role, failure@, now),
{
    let message = failure.text();
    let condition = ready_condition(
        role.metadata.generation,
        false,
        "SyncFailed",
        message.as_str(),
        now,
    );
    let r = match &role.status {
        Some(status) => ProjectRoleStatus {
            observed_generation: role.metadata.generation,
            key: status.key.clone(),
            project_id: status.project_id.clone(),
            config_map: status.config_map.clone(),
            conditions: vec![condition],
        },
        None => ProjectRoleStatus {
            observed_generation: role.metadata.generation,
            key: None,
            project_id: None,
            config_map: None,
            conditions: vec![condition],
        },
    };
    assert(r@ =~= failed_status(*role, failure@, now));
    r
}

// --- Applying

/// Where the reconcile of a role stands.
#[derive(Debug)]
pub enum ApplyRole {
    /// To sync it to Zitadel.
    Sync(WithSession<RoleSync, bool>),
    /// To write the ConfigMap; tells whether Zitadel was changed.
    WriteConfigMap(Lease, bool),
    /// To report success in the status; tells whether Zitadel was changed.
    Report(Lease, bool),
    /// To report the failure in the status.
    ReportFailure(Failure),
    Done(Result<Action, Failure>),
}

/// Where the reconcile of a role stands, as seen by contracts.
#[verifier::ext_equal]
pub enum ApplyRoleState {
    Sync(WithSessionView<RoleState, bool>),
    WriteConfigMap(Lease, bool),
    Report(Lease, bool),
    ReportFailure(FailureView),
    Done(Result<Action, FailureView>),
}

impl View for ApplyRole {
    type V = ApplyRoleState;

    open spec fn view(&self) -> ApplyRoleState {
        match *self {
            ApplyRole::Sync(work) => ApplyRoleState::Sync(work@),
            ApplyRole::WriteConfigMap(lease, changed) => ApplyRoleState::WriteConfigMap(
                lease,
                changed,
            ),
            ApplyRole::Report(lease, changed) => ApplyRoleState::Report(lease, changed),
            ApplyRole::ReportFailure(failure) => ApplyRoleState::ReportFailure(failure@),
            ApplyRole::Done(result) => ApplyRoleState::Done(outcome(result)),
        }
    }
}

/// The key of the role in Zitadel that a resource remembers.
pub open spec fn known_key(role: ProjectRole) -> Option<Seq<char>> {
    match role.status {
        Some(status) => opt_view(status.key),
        None => None,
    }
}

/// Why a change of a role's key is refused, when `previous` and `key` are
/// the two in quotes.
pub open spec fn immutable(previous: Seq<char>, key: Seq<char>) -> Seq<char> {
    "role key is immutable: currently "@ + previous + ", spec says "@ + key
        + "; delete and recreate the resource to change it"@
}

/// Why a change of a role's key is refused.
pub fn immutable_text(previous: &str, key: &str) -> (r: String)
    ensures
        r@ == immutable(previous@, key@),
{
    "role key is immutable: currently ".to_owned().concat(previous).concat(
        ", spec says ",
    ).concat(key).concat("; delete and recreate the resource to change it")
}

/// What is wrong with the key of a role: it must not be empty, and it cannot
/// change.
pub open spec fn key_defect(role: ProjectRole) -> Option<Seq<char>> {
    if key_of(role).len() == 0 {
        Some("role key must not be empty"@)
    } else if known_key(role) is Some && known_key(role)->0 != key_of(role) {
        Some(immutable(quoted_text(known_key(role)->0), quoted_text(key_of(role))))
    } else {
        None
    }
}

/// What is wrong with the key of a role.
pub fn find_key_defect(role: &ProjectRole) -> (r: Option<String>)
    ensures
        opt_view(r) == key_defect(*role),
{
    let key = role_key(role);
    if key.as_str().unicode_len() == 0 {
        return Some("role key must not be empty".to_owned());
    }
    match &role.status {
        Some(status) => match &status.key {
            Some(previous) => {
                if !same(previous.as_str(), key.as_str()) {
                    Some(
                        immutable_text(
                            quoted(previous.as_str()).as_str(),
                            quoted(key.as_str()).as_str(),
                        ),
                    )
                } else {
                    None
                }
            },
            None => None,
        },
        None => None,
    }
}

/// How the reconcile of a role begins. One without namespace fails without
/// further ado; a key that is refused is reported.
pub open spec fn apply_start(role: ProjectRole) -> ApplyRoleState {
    if role.metadata.namespace is None {
        ApplyRoleState::Done(Err(no_namespace(ROLE_KIND@)))
    } else {
        match key_defect(role) {
            Some(text) => ApplyRoleState::ReportFailure(FailureView::saying(text)),
            None => ApplyRoleState::Sync(WithSessionView::Obtain(false)),
        }
    }
}

/// How the reconcile of a role begins.
pub fn apply_role(role: &ProjectRole) -> (r: ApplyRole)
    ensures
        r@ == apply_start(*role),
{
    match required_namespace(ROLE_KIND, &role.metadata) {
        Err(failure) => ApplyRole::Done(Err(failure)),
        Ok(_) => match find_key_defect(role) {
            Some(text) => ApplyRole::ReportFailure(Failure::new(text)),
            None => ApplyRole::Sync(with_session()),
        },
    }
}

/// Where the reconcile stands while the sync does what it does.
pub open spec fn syncing(work: WithSessionView<RoleState, bool>) -> ApplyRoleState {
    match work {
        WithSessionView::Done(Ok(done)) => ApplyRoleState::WriteConfigMap(done.0, done.1),
        WithSessionView::Done(Err(failure)) => ApplyRoleState::ReportFailure(failure),
        other => ApplyRoleState::Sync(other),
    }
}

fn go_on_syncing(work: WithSession<RoleSync, bool>) -> (r: ApplyRole)
    ensures
        r@ == syncing(work@),
{
    match work {
        WithSession::Done(Ok((lease, changed))) => ApplyRole::WriteConfigMap(lease, changed),
        WithSession::Done(Err(failure)) => ApplyRole::ReportFailure(failure),
        other => ApplyRole::Sync(other),
    }
}

/// The sync in a session, given where it stands.
pub open spec fn sync_in_session(again: bool, lease: Lease, state: RoleState) -> WithSessionView<
    RoleState,
    bool,
> {
    match state {
        RoleState::Done(result) => WithSessionView::finished(again, lease, result),
        other => WithSessionView::Run(again, lease, other),
    }
}

fn go_on_in_session(again: bool, lease: Lease, sync: RoleSync) -> (r: WithSession<RoleSync, bool>)
    ensures
        r@ == sync_in_session(again, lease, sync@),
{
    match sync {
        RoleSync::Done(result) => work_finished(again, lease, result),
        other => WithSession::Run(again, lease, other),
    }
}

impl ApplyRoleState {
    /// Whether `event` is what can come of the work asked for.
    pub open spec fn expects(self, event: Event) -> bool {
        match self {
            ApplyRoleState::Sync(WithSessionView::Obtain(_)) => event is Session,
            ApplyRoleState::Sync(WithSessionView::Run(_, _, state)) => event matches Event::Reply(
                reply,
            ) && state.expects(reply),
            ApplyRoleState::Sync(WithSessionView::Invalidate(_)) => event is Invalidated,
            ApplyRoleState::Sync(WithSessionView::Done(_)) => false,
            ApplyRoleState::WriteConfigMap(_, _) => event is Applied,
            ApplyRoleState::Report(_, _) => event is Applied,
            ApplyRoleState::ReportFailure(_) => event is Applied,
            ApplyRoleState::Done(_) => false,
        }
    }

    /// What is asked for.
    pub open spec fn asks(self, role: ProjectRole, now: Timestamp) -> Option<WorkView> {
        match self {
            ApplyRoleState::Sync(work) => match work {
                WithSessionView::Obtain(_) => Some(WorkView::ObtainSession),
                WithSessionView::Run(_, lease, state) => match state.asks(
                    lease.session.zitadel,
                    key_of(role),
                    display_name_of(role),
                    opt_view(role.spec.group),
                ) {
                    Some(call) => Some(WorkView::Ask(lease.id, RequestView::Call(call))),
                    None => None,
                },
                WithSessionView::Invalidate(id) => Some(WorkView::Invalidate(id)),
                WithSessionView::Done(_) => None,
            },
            ApplyRoleState::WriteConfigMap(lease, _) => Some(
                WorkView::WriteConfigMap(role_manifest(role, lease)),
            ),
            ApplyRoleState::Report(lease, changed) => Some(
                WorkView::PatchRole(
                    namespace_of(role.metadata),
                    role.metadata.any_name(),
                    synced_status(role, lease, changed, now),
                ),
            ),
            ApplyRoleState::ReportFailure(failure) => Some(
                WorkView::PatchRole(
                    namespace_of(role.metadata),
                    role.metadata.any_name(),
                    failed_status(role, failure, now),
                ),
            ),
            ApplyRoleState::Done(_) => None,
        }
    }

    /// Where the reconcile stands after `event`.
    pub open spec fn after(
        self,
        role: ProjectRole,
        sync_interval: Duration,
        event: Event,
    ) -> ApplyRoleState {
        match (self, event) {
            (ApplyRoleState::Sync(WithSessionView::Obtain(again)), Event::Session(session)) => {
                syncing(WithSessionView::obtained(again, outcome(session), RoleState::Find))
            },
            (
                ApplyRoleState::Sync(WithSessionView::Run(again, lease, state)),
                Event::Reply(reply),
            ) => syncing(
                sync_in_session(
                    again,
                    lease,
                    state.after(
                        key_of(role),
                        display_name_of(role),
                        opt_view(role.spec.group),
                        reply,
                    ),
                ),
            ),
            (ApplyRoleState::Sync(WithSessionView::Invalidate(_)), Event::Invalidated) => {
                ApplyRoleState::Sync(WithSessionView::Obtain(true))
            },
            (ApplyRoleState::WriteConfigMap(lease, changed), Event::Applied(result)) => {
                match outcome(result) {
                    Ok(_) => ApplyRoleState::Report(lease, changed),
                    Err(failure) => ApplyRoleState::ReportFailure(
                        failure.within(
                            applying(
                                "ConfigMap"@,
                                namespace_of(role.metadata),
                                config_map_of(role),
                            ),
                        ),
                    ),
                }
            },
            (ApplyRoleState::Report(_, _), Event::Applied(result)) => match outcome(result) {
                Ok(_) => ApplyRoleState::Done(Ok(Action::Requeue(sync_interval))),
                Err(failure) => ApplyRoleState::ReportFailure(failure.within("patching status"@)),
            },
            (ApplyRoleState::ReportFailure(failure), Event::Applied(_)) => ApplyRoleState::Done(
                Err(failure),
            ),
            _ => self,
        }
    }
}

impl ApplyRole {
    /// What is to be done next, nothing if the reconcile is done.
    pub fn work(&self, role: &ProjectRole, now: Timestamp) -> (r: Option<Work>)
        ensures
            work_view(r) == self@.asks(*role, now),
    {
        match self {
            ApplyRole::Sync(work) => match work {
                WithSession::Obtain(_) => Some(Work::ObtainSession),
                WithSession::Run(_, lease, sync) => {
                    let key = role_key(role);
                    let name = display_name(role);
                    match sync.request(
                        &lease.session.zitadel,
                        key.as_str(),
                        name.as_str(),
                        &role.spec.group,
                    ) {
                        Some(call) => Some(Work::Ask(lease.id, Request::Call(call))),
                        None => None,
                    }
                },
                WithSession::Invalidate(id) => Some(Work::Invalidate(*id)),
                WithSession::Done(_) => None,
            },
            ApplyRole::WriteConfigMap(lease, _) => Some(
                Work::WriteConfigMap(config_map_manifest(role, lease)),
            ),
            ApplyRole::Report(lease, changed) => Some(
                Work::PatchRole(
                    namespace_or_empty(&role.metadata),
                    role.metadata.name_any(),
                    report_synced(role, lease, *changed, now),
                ),
            ),
            ApplyRole::ReportFailure(failure) => Some(
                Work::PatchRole(
                    namespace_or_empty(&role.metadata),
                    role.metadata.name_any(),
                    report_failure(role, failure, now),
                ),
            ),
            ApplyRole::Done(_) => None,
        }
    }

    /// Takes what came of the work.
    pub fn step(self, role: &ProjectRole, sync_interval: Duration, event: Event) -> (r: ApplyRole)
        requires
            self@.expects(event),
        ensures
            r@ == self@.after(*role, sync_interval, event),
    {
        match (self, event) {
            (ApplyRole::Sync(WithSession::Obtain(again)), Event::Session(session)) => {
                go_on_syncing(session_obtained(again, session, ProjectClient::sync_role()))
            },
            (ApplyRole::Sync(WithSession::Run(again, lease, sync)), Event::Reply(reply)) => {
                let key = role_key(role);
                let name = display_name(role);
                let next = sync.step(key.as_str(), name.as_str(), &role.spec.group, reply);
                go_on_syncing(go_on_in_session(again, lease, next))
            },
            (ApplyRole::Sync(WithSession::Invalidate(_)), Event::Invalidated) => {
                ApplyRole::Sync(session_invalidated())
            },
            (ApplyRole::WriteConfigMap(lease, changed), Event::Applied(result)) => match result {
                Ok(_) => ApplyRole::Report(lease, changed),
                Err(failure) => ApplyRole::ReportFailure(
                    failure.context(
                        applying_text(
                            "ConfigMap",
                            namespace_or_empty(&role.metadata).as_str(),
                            name_or(&role.spec.config_map_name, &role.metadata, "-role").as_str(),
                        ).as_str(),
                    ),
                ),
            },
            (ApplyRole::Report(_, _), Event::Applied(result)) => match result {
                Ok(_) => ApplyRole::Done(Ok(Action::Requeue(sync_interval))),
                Err(failure) => ApplyRole::ReportFailure(failure.context("patching status")),
            },
            (ApplyRole::ReportFailure(failure), Event::Applied(_)) => ApplyRole::Done(Err(failure)),
            (apply, _) => apply,
        }
    }
}

// --- Cleaning up

/// The key to remove: the one the role was created with, not what the spec
/// says now.
pub open spec fn key_to_remove(role: ProjectRole) -> Seq<char> {
    match known_key(role) {
        Some(key) => key,
        None => key_of(role),
    }
}

fn removed_key(role: &ProjectRole) -> (r: String)
    ensures
        r@ == key_to_remove(*role),
{
    match &role.status {
        Some(status) => match &status.key {
            Some(key) => key.clone(),
            None => role_key(role),
        },
        None => role_key(role),
    }
}

/// Where the cleanup of a role stands.
#[derive(Debug)]
pub enum CleanupRole {
    Remove(WithSession<(), ()>),
    Done(Result<Action, Failure>),
}

/// Where the cleanup of a role stands, as seen by contracts.
#[verifier::ext_equal]
pub enum CleanupRoleState {
    Remove(WithSessionView<(), ()>),
    Done(Result<Action, FailureView>),
}

impl View for CleanupRole {
    type V = CleanupRoleState;

    open spec fn view(&self) -> CleanupRoleState {
        match *self {
            CleanupRole::Remove(work) => CleanupRoleState::Remove(work@),
            CleanupRole::Done(result) => CleanupRoleState::Done(outcome(result)),
        }
    }
}

/// Where the cleanup stands while the removal does what it does.
pub open spec fn removing(work: WithSessionView<(), ()>) -> CleanupRoleState {
    match work {
        WithSessionView::Done(Ok(_)) => CleanupRoleState::Done(Ok(Action::AwaitChange)),
        WithSessionView::Done(Err(failure)) => CleanupRoleState::Done(Err(failure)),
        other => CleanupRoleState::Remove(other),
    }
}

fn go_on_removing(work: WithSession<(), ()>) -> (r: CleanupRole)
    ensures
        r@ == removing(work@),
{
    match work {
        WithSession::Done(Ok(_)) => CleanupRole::Done(Ok(Action::AwaitChange)),
        WithSession::Done(Err(failure)) => CleanupRole::Done(Err(failure)),
        other => CleanupRole::Remove(other),
    }
}

/// How the cleanup of a role begins.
pub fn cleanup_role() -> (r: CleanupRole)
    ensures
        r@ == CleanupRoleState::Remove(WithSessionView::Obtain(false)),
{
    CleanupRole::Remove(with_session())
}

impl CleanupRoleState {
    /// Whether `event` is what can come of the work asked for.
    pub open spec fn expects(self, event: Event) -> bool {
        match self {
            CleanupRoleState::Remove(WithSessionView::Obtain(_)) => event is Session,
            CleanupRoleState::Remove(WithSessionView::Run(_, _, _)) => event matches Event::Reply(
                reply,
            ) && reply is Done,
            CleanupRoleState::Remove(WithSessionView::Invalidate(_)) => event is Invalidated,
            _ => false,
        }
    }

    /// What is asked for.
    pub open spec fn asks(self, role: ProjectRole) -> Option<WorkView> {
        match self {
            CleanupRoleState::Remove(WithSessionView::Obtain(_)) => Some(WorkView::ObtainSession),
            CleanupRoleState::Remove(WithSessionView::Run(_, lease, _)) => Some(
                WorkView::Ask(
                    lease.id,
                    RequestView::Call(lease.session.zitadel.role_removal(key_to_remove(role))),
                ),
            ),
            CleanupRoleState::Remove(WithSessionView::Invalidate(id)) => Some(
                WorkView::Invalidate(id),
            ),
            _ => None,
        }
    }

    /// Where the cleanup stands after `event`.
    pub open spec fn after(self, role: ProjectRole, event: Event) -> CleanupRoleState {
        match (self, event) {
            (CleanupRoleState::Remove(WithSessionView::Obtain(again)), Event::Session(session)) => {
                removing(WithSessionView::obtained(again, outcome(session), ()))
            },
            (
                CleanupRoleState::Remove(WithSessionView::Run(again, lease, _)),
                Event::Reply(Reply::Done(reply)),
            ) => removing(
                WithSessionView::finished(
                    again,
                    lease,
                    removed("removing role "@ + key_to_remove(role), outcome(reply)),
                ),
            ),
            (CleanupRoleState::Remove(WithSessionView::Invalidate(_)), Event::Invalidated) => {
                CleanupRoleState::Remove(WithSessionView::Obtain(true))
            },
            _ => self,
        }
    }
}

impl CleanupRole {
    /// What is to be done next, nothing if the cleanup is done.
    pub fn work(&self, role: &ProjectRole) -> (r: Option<Work>)
        ensures
            work_view(r) == self@.asks(*role),
    {
        match self {
            CleanupRole::Remove(WithSession::Obtain(_)) => Some(Work::ObtainSession),
            CleanupRole::Remove(WithSession::Run(_, lease, _)) => {
                let key = removed_key(role);
                Some(
                    Work::Ask(
                        lease.id,
                        Request::Call(lease.session.zitadel.remove_role_call(key.as_str())),
                    ),
                )
            },
            CleanupRole::Remove(WithSession::Invalidate(id)) => Some(Work::Invalidate(*id)),
            _ => None,
        }
    }

    /// Takes what came of the work.
    pub fn step(self, role: &ProjectRole, event: Event) -> (r: CleanupRole)
        requires
            self@.expects(event),
        ensures
            r@ == self@.after(*role, event),
    {
        match (self, event) {
            (CleanupRole::Remove(WithSession::Obtain(again)), Event::Session(session)) => {
                go_on_removing(session_obtained(again, session, ()))
            },
            (
                CleanupRole::Remove(WithSession::Run(again, lease, _)),
                Event::Reply(Reply::Done(reply)),
            ) => {
                let key = removed_key(role);
                go_on_removing(
                    work_finished(again, lease, ProjectClient::remove_role(key.as_str(), reply)),
                )
            },
            (CleanupRole::Remove(WithSession::Invalidate(_)), Event::Invalidated) => {
                CleanupRole::Remove(session_invalidated())
            },
            (cleanup, _) => cleanup,
        }
    }
}

// --- Laws

/// The ConfigMap of a role holds the key, the name of the claim that carries
/// roles, the Zitadel URL, the issuer and the project ID, and nothing else.
pub proof fn config_map_holds_the_key(role: ProjectRole, lease: Lease, other: Seq<char>)
    ensures
        text_at(role_data(role, lease), "ZITADEL_ROLE_KEY"@) == Some(key_of(role)),
        text_at(role_data(role, lease), "ZITADEL_ROLES_CLAIM"@) == Some(
            claim_of(lease.session.project_id@),
        ),
        text_at(role_data(role, lease), "ZITADEL_URL"@) == Some(lease.session.zitadel_url@),
        text_at(role_data(role, lease), "ZITADEL_ISSUER"@) == Some(
            without_trailing(lease.session.zitadel_url@, '/'),
        ),
        text_at(role_data(role, lease), "ZITADEL_PROJECT_ID"@) == Some(lease.session.project_id@),
        distinct_keys(role_data(role, lease)),
        text_at(role_data(role, lease), other) is Some ==> other == "ZITADEL_ROLE_KEY"@ || other
            == "ZITADEL_ROLES_CLAIM"@ || other == "ZITADEL_URL"@ || other == "ZITADEL_ISSUER"@
            || other == "ZITADEL_PROJECT_ID"@,
{
    reveal_strlit("ZITADEL_ISSUER");
    reveal_strlit("ZITADEL_PROJECT_ID");
    reveal_strlit("ZITADEL_ROLES_CLAIM");
    reveal_strlit("ZITADEL_ROLE_KEY");
    reveal_strlit("ZITADEL_URL");
    assert("ZITADEL_ISSUER"@.len() == 14);
    assert("ZITADEL_PROJECT_ID"@.len() == 18);
    assert("ZITADEL_ROLES_CLAIM"@.len() == 19);
    assert("ZITADEL_ROLE_KEY"@.len() == 16);
    assert("ZITADEL_URL"@.len() == 11);
    let all = role_data(role, lease);
    reveal_with_fuel(text_at, 6);
    let one = all.drop_first();
    let two = one.drop_first();
    let three = two.drop_first();
    let four = three.drop_first();
    assert(one.first() == all[1]);
    assert(two.first() == all[2]);
    assert(three.first() == all[3]);
    assert(four.first() == all[4]);
    assert(four.drop_first().len() == 0);
}

/// A role's key is immutable: a spec that changes it is rejected in the
/// status, which keeps the key, and nothing is asked of zapp or Zitadel.
pub proof fn keys_are_immutable(
    role: ProjectRole,
    sync_interval: Duration,
    event: Event,
    now: Timestamp,
)
    requires
        role.metadata.namespace is Some,
        known_key(role) is Some,
        known_key(role)->0 != key_of(role),
        event is Applied,
    ensures
        ({
            let start = apply_start(role);
            &&& start matches ApplyRoleState::ReportFailure(failure) && (start.asks(role, now)
                == Some(
                WorkView::PatchRole(
                    namespace_of(role.metadata),
                    role.metadata.any_name(),
                    failed_status(role, failure, now),
                ),
            ) && failed_status(role, failure, now).key == known_key(role) && start.after(
                role,
                sync_interval,
                event,
            ) == ApplyRoleState::Done(Err(failure)))
        }),
{
}

/// A key that is neither empty nor changed is no obstacle.
pub proof fn unchanged_keys_are_synced(role: ProjectRole)
    requires
        role.metadata.namespace is Some,
        key_of(role).len() > 0,
        known_key(role) is None || known_key(role)->0 == key_of(role),
    ensures
        apply_start(role) == ApplyRoleState::Sync(WithSessionView::Obtain(false)),
{
}

/// Nothing is said to be in sync before the ConfigMap is written: the only
/// way on from the sync leads through it.
pub proof fn the_config_map_is_written_first(
    state: ApplyRoleState,
    role: ProjectRole,
    sync_interval: Duration,
    event: Event,
)
    requires
        state.expects(event),
    ensures
        state is Sync ==> state.after(role, sync_interval, event) is Sync || state.after(
            role,
            sync_interval,
            event,
        ) is WriteConfigMap || state.after(role, sync_interval, event) is ReportFailure,
        state.after(role, sync_interval, event) is Report ==> state is WriteConfigMap && (event
            matches Event::Applied(Ok(_))),
{
}

/// A reconcile succeeds exactly if the status could be set to ready, and is
/// then due again after the sync interval; it fails only after it tried to
/// report the failure.
pub proof fn results_are_reported(
    state: ApplyRoleState,
    role: ProjectRole,
    sync_interval: Duration,
    event: Event,
    result: Result<Action, FailureView>,
)
    requires
        state.expects(event),
        state.after(role, sync_interval, event) == ApplyRoleState::Done(result),
    ensures
        match result {
            Ok(action) => state is Report && (event matches Event::Applied(Ok(_))) && action
                == Action::Requeue(sync_interval),
            Err(failure) => state == ApplyRoleState::ReportFailure(failure),
        },
{
}

/// The status says `Ready` with the last error when something failed, and
/// otherwise keeps what it said; when all went well it says so and names the
/// key.
pub proof fn status_tells_the_outcome(
    role: ProjectRole,
    lease: Lease,
    changed: bool,
    failure: FailureView,
    now: Timestamp,
)
    ensures
        ({
            let good = synced_status(role, lease, changed, now);
            &&& good.conditions.len() == 1
            &&& good.conditions[0].type_ == "Ready"@
            &&& good.conditions[0].status == "True"@
            &&& good.observed_generation == role.metadata.generation
            &&& good.key == Some(key_of(role))
        }),
        ({
            let bad = failed_status(role, failure, now);
            &&& bad.conditions.len() == 1
            &&& bad.conditions[0].type_ == "Ready"@
            &&& bad.conditions[0].status == "False"@
            &&& bad.conditions[0].reason == "SyncFailed"@
            &&& bad.conditions[0].message == capped(failure.line(), MAX_MESSAGE_CHARS as nat)
            &&& bad.observed_generation == role.metadata.generation
            &&& bad.key == status_of(role).key
            &&& bad.project_id == status_of(role).project_id
            &&& bad.config_map == status_of(role).config_map
        }),
{
}

impl ApplyRoleState {
    /// What a state that a reconcile can be in is like.
    pub open spec fn live(self) -> bool {
        match self {
            ApplyRoleState::Sync(WithSessionView::Run(_, _, state)) => !(state is Done),
            ApplyRoleState::Sync(WithSessionView::Done(_)) => false,
            _ => true,
        }
    }

    /// An upper bound on the steps that are still to be made.
    pub open spec fn steps_left(self) -> nat {
        match self {
            ApplyRoleState::Sync(WithSessionView::Obtain(again)) => if again {
                6
            } else {
                10
            },
            ApplyRoleState::Sync(WithSessionView::Run(again, _, state)) => if again {
                3 + state.requests_left()
            } else {
                7 + state.requests_left()
            },
            ApplyRoleState::Sync(WithSessionView::Invalidate(_)) => 7,
            ApplyRoleState::Sync(WithSessionView::Done(_)) => 0,
            ApplyRoleState::WriteConfigMap(_, _) => 3,
            ApplyRoleState::Report(_, _) => 2,
            ApplyRoleState::ReportFailure(_) => 1,
            ApplyRoleState::Done(_) => 0,
        }
    }
}

/// A reconcile asks until it is done, it can take whatever comes of the work
/// that it asks for, and every event brings it closer to its end: it takes
/// ten steps at most.
pub proof fn reconcile_ends(
    state: ApplyRoleState,
    role: ProjectRole,
    sync_interval: Duration,
    event: Event,
    now: Timestamp,
)
    requires
        state.live(),
    ensures
        state is Done <==> state.asks(role, now) is None,
        state.asks(role, now) matches Some(work) ==> (state.expects(event) <==> answers(
            work,
            event,
        )),
        state.expects(event) ==> state.after(role, sync_interval, event).live(),
        state.expects(event) ==> state.after(role, sync_interval, event).steps_left()
            < state.steps_left(),
        apply_start(role).live(),
        apply_start(role).steps_left() <= 10,
{
}

impl CleanupRoleState {
    /// What a state that a cleanup can be in is like.
    pub open spec fn live(self) -> bool {
        !(self matches CleanupRoleState::Remove(WithSessionView::Done(_)))
    }

    /// An upper bound on the steps that are still to be made.
    pub open spec fn steps_left(self) -> nat {
        match self {
            CleanupRoleState::Remove(WithSessionView::Obtain(again)) => if again {
                2
            } else {
                5
            },
            CleanupRoleState::Remove(WithSessionView::Run(again, _, _)) => if again {
                1
            } else {
                4
            },
            CleanupRoleState::Remove(WithSessionView::Invalidate(_)) => 3,
            _ => 0,
        }
    }
}

/// A cleanup asks until it is done, it can take whatever comes of the work
/// that it asks for, and every event brings it closer to its end: it takes
/// five steps at most.
pub proof fn cleanup_ends(state: CleanupRoleState, role: ProjectRole, event: Event)
    requires
        state.live(),
    ensures
        state is Done <==> state.asks(role) is None,
        state.asks(role) matches Some(work) ==> (state.expects(event) <==> answers(work, event)),
        state.expects(event) ==> state.after(role, event).live(),
        state.expects(event) ==> state.after(role, event).steps_left() < state.steps_left(),
        CleanupRoleState::Remove(WithSessionView::Obtain(false)).steps_left() == 5,
{
}

/// A cleanup removes the key that the role was created with, not what the
/// spec says now.
pub proof fn cleanup_removes_what_was_created(role: ProjectRole, lease: Lease, again: bool)
    ensures
        CleanupRoleState::Remove(WithSessionView::Obtain(again)).after(
            role,
            Event::Session(Ok(lease)),
        ).asks(role) == Some(
            WorkView::Ask(
                lease.id,
                RequestView::Call(
                    lease.session.zitadel.role_removal(
                        match known_key(role) {
                            Some(key) => key,
                            None => key_of(role),
                        },
                    ),
                ),
            ),
        ),
{
}

/// A cleanup succeeds only when the role is gone from Zitadel: it was removed
/// or was gone already; then only a change brings the resource back.
pub proof fn cleanup_succeeds_when_the_role_is_gone(
    state: CleanupRoleState,
    role: ProjectRole,
    event: Event,
    action: Action,
)
    requires
        state.expects(event),
        state.after(role, event) == CleanupRoleState::Done(Ok(action)),
    ensures
        action == Action::AwaitChange,
        event matches Event::Reply(Reply::Done(reply)) && (reply is Ok
            || reply->Err_0@.has_status(NOT_FOUND)),
{
}

// --- What a reconcile is for

/// What a reconcile asks Zitadel to create or to update carries what the spec
/// says: its display name whenever it gives one, and else the key; its group;
/// and the key that it gives, or else the name of the resource.
pub proof fn what_a_role_says_is_sent(
    role: ProjectRole,
    again: bool,
    lease: Lease,
    now: Timestamp,
)
    ensures
        ({
            let project = "projects/"@ + lease.session.zitadel.project_id@;
            let key = match role.spec.key {
                Some(key) => key@,
                None => role.metadata.any_name(),
            };
            let shown = match role.spec.display_name {
                Some(name) => name@,
                None => key,
            };
            let group = match role.spec.group {
                Some(group) => JsonView::Text(group@),
                None => JsonView::Null,
            };
            let find = ApplyRoleState::Sync(WithSessionView::Run(again, lease, RoleState::Find));
            let create = ApplyRoleState::Sync(
                WithSessionView::Run(again, lease, RoleState::Create),
            );
            let update = ApplyRoleState::Sync(
                WithSessionView::Run(again, lease, RoleState::Update),
            );
            &&& find.asks(role, now) == Some(
                WorkView::Ask(
                    lease.id,
                    RequestView::Call(lease.session.zitadel.role_search(key)),
                ),
            )
            &&& create.asks(role, now) matches Some(WorkView::Ask(id, RequestView::Call(call))) && {
                &&& id == lease.id
                &&& call.method == Method::Post
                &&& call.path == project + "/roles"@
                &&& call.body matches Some(BodyView::Json(JsonView::Object(members)))
                &&& members == seq![
                    ("roleKey"@, JsonView::Text(key)),
                    ("displayName"@, JsonView::Text(shown)),
                    ("group"@, group),
                ]
            }
            &&& update.asks(role, now) matches Some(WorkView::Ask(id, RequestView::Call(call))) && {
                &&& id == lease.id
                &&& call.method == Method::Put
                &&& call.path == project + "/roles/"@ + key
                &&& call.body matches Some(BodyView::Json(JsonView::Object(members)))
                &&& members == seq![("displayName"@, JsonView::Text(shown)), ("group"@, group)]
            }
        }),
{
    let key = key_of(role);
    roles_are_sent_as_they_are_given(
        lease.session.zitadel,
        key,
        display_name_of(role),
        opt_view(role.spec.group),
    );
}

/// A role is updated exactly if what Zitadel has of it differs from what the
/// spec says: from the display name that the spec gives, or else the key; or
/// from its group, an empty one being none.
pub proof fn a_role_is_updated_if_it_differs(
    role: ProjectRole,
    again: bool,
    lease: Lease,
    listing: Vec<Role>,
    i: int,
    sync_interval: Duration,
)
    requires
        0 <= i < listing@.len(),
        listing@[i].key is Some && listing@[i].key->0@ == key_of(role),
        forall|j: int|
            0 <= j < i ==> !((#[trigger] listing@[j]).key is Some && listing@[j].key->0@ == key_of(
                role,
            )),
    ensures
        ({
            let have = listing@[i];
            let shown = match role.spec.display_name {
                Some(name) => name@,
                None => key_of(role),
            };
            let same_name = have.display_name is Some && have.display_name->0@ == shown;
            let same_group = match (have.group, role.spec.group) {
                (Some(have), Some(want)) => have@ == want@,
                (Some(have), None) => have@.len() == 0,
                (None, Some(want)) => want@.len() == 0,
                (None, None) => true,
            };
            ApplyRoleState::Sync(WithSessionView::Run(again, lease, RoleState::Find)).after(
                role,
                sync_interval,
                Event::Reply(Reply::Roles(Ok(listing))),
            ) == if same_name && same_group {
                ApplyRoleState::WriteConfigMap(lease, false)
            } else {
                ApplyRoleState::Sync(WithSessionView::Run(again, lease, RoleState::Update))
            }
        }),
{
    roles_are_brought_in_line(
        listing,
        key_of(role),
        display_name_of(role),
        opt_view(role.spec.group),
        i,
    );
}

/// The ConfigMap is written next to the resource, under the name that the spec
/// gives or else that of the resource with `-role`, as the resource's own, and
/// holds the key and where it is used.
pub proof fn the_config_map_is_published(
    role: ProjectRole,
    lease: Lease,
    changed: bool,
    now: Timestamp,
)
    ensures
        ApplyRoleState::WriteConfigMap(lease, changed).asks(
            role,
            now,
        ) matches Some(WorkView::WriteConfigMap(manifest)) && {
            &&& manifest.name == match role.spec.config_map_name {
                Some(name) => name@,
                None => role.metadata.any_name() + "-role"@,
            }
            &&& manifest.namespace == namespace_of(role.metadata)
            &&& manifest.labels == seq![("app.kubernetes.io/managed-by"@, "cnoidc"@)]
            &&& manifest.owner == owned_by("ProjectRole"@, role.metadata)
            &&& manifest.data.len() == 5
            &&& text_at(manifest.data, "ZITADEL_ROLE_KEY"@) == Some(
                match role.spec.key {
                    Some(key) => key@,
                    None => role.metadata.any_name(),
                },
            )
            &&& text_at(manifest.data, "ZITADEL_ROLES_CLAIM"@) == Some(
                "urn:zitadel:iam:org:project:"@ + lease.session.project_id@ + ":roles"@,
            )
            &&& text_at(manifest.data, "ZITADEL_URL"@) == Some(lease.session.zitadel_url@)
            &&& text_at(manifest.data, "ZITADEL_PROJECT_ID"@) == Some(lease.session.project_id@)
            &&& text_at(manifest.data, "ZITADEL_ISSUER"@) matches Some(issuer) && {
                &&& issuer.len() <= lease.session.zitadel_url@.len()
                &&& issuer == lease.session.zitadel_url@.take(issuer.len() as int)
                &&& !(issuer.len() > 0 && issuer.last() == '/')
                &&& forall|i: int|
                    issuer.len() <= i < lease.session.zitadel_url@.len()
                        ==> #[trigger] lease.session.zitadel_url@[i] == '/'
            }
        },
{
    config_map_holds_the_key(role, lease, Seq::empty());
    without_trailing_is_the_rest(lease.session.zitadel_url@, '/');
}

/// The status of a role that is in sync is set on that resource and says its
/// key, where it is, what was published, and whether anything changed.
pub proof fn success_is_reported_in_the_status(
    role: ProjectRole,
    lease: Lease,
    changed: bool,
    now: Timestamp,
)
    ensures
        ApplyRoleState::Report(lease, changed).asks(
            role,
            now,
        ) matches Some(WorkView::PatchRole(namespace, name, status)) && {
            let key = match role.spec.key {
                Some(key) => key@,
                None => role.metadata.any_name(),
            };
            &&& namespace == namespace_of(role.metadata)
            &&& name == role.metadata.any_name()
            &&& status.observed_generation == role.metadata.generation
            &&& status.key == Some(key)
            &&& status.project_id == Some(lease.session.project_id@)
            &&& status.config_map == Some(
                match role.spec.config_map_name {
                    Some(name) => name@,
                    None => role.metadata.any_name() + "-role"@,
                },
            )
            &&& status.conditions.len() == 1
            &&& status.conditions[0] == readiness(
                role.metadata.generation,
                true,
                if changed {
                    "Updated"@
                } else {
                    "Synced"@
                },
                "role "@ + key + " is in sync with Zitadel"@,
                now,
            )
        },
{
}

/// The status of a role whose reconcile failed is set on that resource and says
/// why; what it named before, the key above all, it still names.
pub proof fn failure_is_reported_in_the_status(
    role: ProjectRole,
    failure: FailureView,
    now: Timestamp,
)
    ensures
        ApplyRoleState::ReportFailure(failure).asks(
            role,
            now,
        ) matches Some(WorkView::PatchRole(namespace, name, status)) && {
            &&& namespace == namespace_of(role.metadata)
            &&& name == role.metadata.any_name()
            &&& status.observed_generation == role.metadata.generation
            &&& status.conditions.len() == 1
            &&& status.conditions[0] == readiness(
                role.metadata.generation,
                false,
                "SyncFailed"@,
                failure.line(),
                now,
            )
            &&& match role.status {
                Some(before) => {
                    &&& status.key == opt_view(before.key)
                    &&& status.project_id == opt_view(before.project_id)
                    &&& status.config_map == opt_view(before.config_map)
                },
                None => {
                    &&& status.key is None
                    &&& status.project_id is None
                    &&& status.config_map is None
                },
            }
        },
{
}

/// A reconcile of a role begins with the session exactly if the resource has a
/// namespace and its key is neither empty nor other than the one that the
/// status remembers. Otherwise nothing is asked of zapp or Zitadel, and it is
/// said why.
pub proof fn only_sound_keys_are_synced(role: ProjectRole, now: Timestamp)
    ensures
        ({
            let key = match role.spec.key {
                Some(key) => key@,
                None => role.metadata.any_name(),
            };
            let changed = role.status is Some && role.status->0.key is Some
                && role.status->0.key->0@ != key;
            let start = apply_start(role);
            &&& start.asks(role, now) == Some(WorkView::ObtainSession)
                <==> role.metadata.namespace is Some && key.len() > 0 && !changed
            &&& start == ApplyRoleState::Sync(WithSessionView::Obtain(false))
                <==> role.metadata.namespace is Some && key.len() > 0 && !changed
            &&& role.metadata.namespace is None ==> (start matches ApplyRoleState::Done(Err(e))
                && e.chain == seq!["ProjectRole"@ + " without namespace"@])
            &&& role.metadata.namespace is Some && key.len() == 0 ==> (start
                matches ApplyRoleState::ReportFailure(e) && e.chain
                == seq!["role key must not be empty"@])
            &&& role.metadata.namespace is Some && key.len() > 0 && changed ==> (start
                matches ApplyRoleState::ReportFailure(e) && e.chain == seq![
                "role key is immutable: currently "@ + quoted_text(role.status->0.key->0@)
                    + ", spec says "@ + quoted_text(key)
                    + "; delete and recreate the resource to change it"@,
            ])
        }),
{
}

/// The sync of a role is done in the session that was obtained. Its requests
/// are those of the reconcile; what it ends with, the reconcile goes on with;
/// and if Zitadel rejects the credential, the session is given up once and
/// another one obtained.
pub proof fn the_sync_is_done_in_the_session(
    role: ProjectRole,
    again: bool,
    lease: Lease,
    failure: Failure,
    state: RoleState,
    reply: Reply,
    id: u64,
    sync_interval: Duration,
    now: Timestamp,
)
    ensures
        ApplyRoleState::Sync(WithSessionView::Obtain(again)).asks(role, now) == Some(
            WorkView::ObtainSession,
        ),
        ApplyRoleState::Sync(WithSessionView::Obtain(again)).after(
            role,
            sync_interval,
            Event::Session(Ok(lease)),
        ) == ApplyRoleState::Sync(WithSessionView::Run(again, lease, RoleState::Find)),
        ApplyRoleState::Sync(WithSessionView::Obtain(again)).after(
            role,
            sync_interval,
            Event::Session(Err(failure)),
        ) == ApplyRoleState::ReportFailure(in_context(failure@, "obtaining Zitadel credential"@)),
        ({
            let shown = match role.spec.display_name {
                Some(name) => name@,
                None => key_of(role),
            };
            let group = match role.spec.group {
                Some(group) => Some(group@),
                None => None,
            };
            let run = ApplyRoleState::Sync(WithSessionView::Run(again, lease, state));
            let next = state.after(key_of(role), shown, group, reply);
            &&& run.asks(role, now) == match state.asks(
                lease.session.zitadel,
                key_of(role),
                shown,
                group,
            ) {
                Some(call) => Some(WorkView::Ask(lease.id, RequestView::Call(call))),
                None => None,
            }
            &&& run.after(role, sync_interval, Event::Reply(reply)) == match next {
                RoleState::Done(Ok(changed)) => ApplyRoleState::WriteConfigMap(lease, changed),
                RoleState::Done(Err(e)) => if !again && e.is_auth() {
                    ApplyRoleState::Sync(WithSessionView::Invalidate(lease.id))
                } else {
                    ApplyRoleState::ReportFailure(e)
                },
                _ => ApplyRoleState::Sync(WithSessionView::Run(again, lease, next)),
            }
        }),
        ApplyRoleState::Sync(WithSessionView::Invalidate(id)).asks(role, now) == Some(
            WorkView::Invalidate(id),
        ),
        ApplyRoleState::Sync(WithSessionView::Invalidate(id)).after(
            role,
            sync_interval,
            Event::Invalidated,
        ) == ApplyRoleState::Sync(WithSessionView::Obtain(true)),
{
}

/// What follows the sync of a role: the ConfigMap, then the status. Whatever
/// fails is reported, in the words of what was being done, and is then the
/// result, whether or not it could be reported.
pub proof fn what_was_synced_is_published(
    role: ProjectRole,
    lease: Lease,
    changed: bool,
    failure: Failure,
    reported: Result<(), Failure>,
    sync_interval: Duration,
)
    ensures
        ({
            let done = Event::Applied(Ok(()));
            let failed = Event::Applied(Err(failure));
            let config_map = match role.spec.config_map_name {
                Some(name) => name@,
                None => role.metadata.any_name() + "-role"@,
            };
            &&& ApplyRoleState::WriteConfigMap(lease, changed).after(role, sync_interval, done)
                == ApplyRoleState::Report(lease, changed)
            &&& ApplyRoleState::WriteConfigMap(lease, changed).after(role, sync_interval, failed)
                == ApplyRoleState::ReportFailure(
                in_context(
                    failure@,
                    applying("ConfigMap"@, namespace_of(role.metadata), config_map),
                ),
            )
            &&& ApplyRoleState::Report(lease, changed).after(role, sync_interval, done)
                == ApplyRoleState::Done(Ok(Action::Requeue(sync_interval)))
            &&& ApplyRoleState::Report(lease, changed).after(role, sync_interval, failed)
                == ApplyRoleState::ReportFailure(in_context(failure@, "patching status"@))
            &&& ApplyRoleState::ReportFailure(failure@).after(
                role,
                sync_interval,
                Event::Applied(reported),
            ) == ApplyRoleState::Done(Err(failure@))
        }),
{
}

/// A cleanup of a role is done in a session: it removes the key that the
/// resource remembers, or else its key, gives a rejected session up once, and
/// ends well exactly if the role is gone.
pub proof fn the_removal_is_done_in_the_session(
    role: ProjectRole,
    again: bool,
    lease: Lease,
    failure: Failure,
    id: u64,
)
    ensures
        ({
            let key = if role.status is Some && role.status->0.key is Some {
                role.status->0.key->0@
            } else {
                key_of(role)
            };
            let run = CleanupRoleState::Remove(WithSessionView::Run(again, lease, ()));
            let gone = failure@.http is Some && (failure@.http->0).0 == 404;
            let e = in_context(failure@, "removing role "@ + key);
            &&& run.asks(role) == Some(
                WorkView::Ask(
                    lease.id,
                    RequestView::Call(
                        CallView {
                            method: Method::Delete,
                            answer: AnswerKind::Done,
                            path: "projects/"@ + lease.session.zitadel.project_id@ + "/roles/"@
                                + key,
                            body: None,
                        },
                    ),
                ),
            )
            &&& run.after(role, Event::Reply(Reply::Done(Ok(())))) == CleanupRoleState::Done(
                Ok(Action::AwaitChange),
            )
            &&& run.after(role, Event::Reply(Reply::Done(Err(failure)))) == if gone {
                CleanupRoleState::Done(Ok(Action::AwaitChange))
            } else if !again && e.is_auth() {
                CleanupRoleState::Remove(WithSessionView::Invalidate(lease.id))
            } else {
                CleanupRoleState::Done(Err(e))
            }
        }),
        CleanupRoleState::Remove(WithSessionView::Obtain(again)).asks(role) == Some(
            WorkView::ObtainSession,
        ),
        CleanupRoleState::Remove(WithSessionView::Obtain(again)).after(
            role,
            Event::Session(Ok(lease)),
        ) == CleanupRoleState::Remove(WithSessionView::Run(again, lease, ())),
        CleanupRoleState::Remove(WithSessionView::Obtain(again)).after(
            role,
            Event::Session(Err(failure)),
        ) == CleanupRoleState::Done(Err(in_context(failure@, "obtaining Zitadel credential"@))),
        CleanupRoleState::Remove(WithSessionView::Invalidate(id)).asks(role) == Some(
            WorkView::Invalidate(id),
        ),
        CleanupRoleState::Remove(WithSessionView::Invalidate(id)).after(role, Event::Invalidated)
            == CleanupRoleState::Remove(WithSessionView::Obtain(true)),
{
}

/// Contracts speak of reconciles and cleanups as they are.
pub proof fn reconciles_are_seen_as_they_are(apply: ApplyRole, cleanup: CleanupRole)
    ensures
        match apply {
            ApplyRole::Sync(work) => apply@ == ApplyRoleState::Sync(work@),
            ApplyRole::WriteConfigMap(lease, changed) => apply@ == ApplyRoleState::WriteConfigMap(
                lease,
                changed,
            ),
            ApplyRole::Report(lease, changed) => apply@ == ApplyRoleState::Report(lease, changed),
            ApplyRole::ReportFailure(failure) => apply@ == ApplyRoleState::ReportFailure(failure@),
            ApplyRole::Done(Ok(action)) => apply@ == ApplyRoleState::Done(Ok(action)),
            ApplyRole::Done(Err(failure)) => apply@ == ApplyRoleState::Done(Err(failure@)),
        },
        match cleanup {
            CleanupRole::Remove(work) => cleanup@ == CleanupRoleState::Remove(work@),
            CleanupRole::Done(Ok(action)) => cleanup@ == CleanupRoleState::Done(Ok(action)),
            CleanupRole::Done(Err(failure)) => cleanup@ == CleanupRoleState::Done(Err(failure@)),
        },
{
}

} // verus!
