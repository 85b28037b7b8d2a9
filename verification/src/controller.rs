//! Reconciliation of `OIDCApplication` and `ProjectRole` resources: what both
//! have in common.
//!
//! Every resource is reconciled when it changes and again every
//! `sync_interval`, so that drift in Zitadel is repaired eventually. A
//! finalizer ensures the Zitadel object is removed before the resource
//! disappears from the cluster. Reconciles never hold the Zitadel credential
//! themselves: they ask for the current session and hand it back if Zitadel
//! rejects it.
//!
//! A reconcile is a sequence of steps, each of which asks for some [`Work`]
//! and takes the [`Event`] that came of it.

use vstd::prelude::*;
use vstd::string::*;

use crate::crd::{
    ApplicationStatusView, OIDCApplication, OIDCApplicationStatus, ObjectMeta, ProjectRole,
    ProjectRoleStatus, RoleStatusView,
};
use crate::failure::{is_auth_error, outcome, Failure, FailureView};
use crate::kubernetes::{Manifest, ManifestView, StoredSecret};
use crate::time::Duration;
use crate::zapp::Lease;
use crate::zitadel::{Reply, Request, RequestView};

verus! {

/// Longest time until a failed reconcile is tried again, in seconds.
pub const MAX_RETRY_SECS: u64 = 30;

/// What the reconciles need to know of the configuration.
#[derive(Debug)]
pub struct Context {
    pub sync_interval: Duration,
    /// Namespace to watch; all namespaces when `None`.
    pub namespace: Option<String>,
}

/// Why a reconcile failed.
#[derive(Debug)]
pub enum Error {
    Reconcile(Failure),
    /// In the words of the finalizer.
    Finalizer(String),
}

impl Error {
    /// The error in words.
    pub open spec fn words(self) -> Seq<char> {
        match self {
            Error::Reconcile(failure) => failure@.line(),
            Error::Finalizer(text) => "finalizer: "@ + text@,
        }
    }

    /// The error in words.
    pub fn message(&self) -> (r: String)
        ensures
            r@ == self.words(),
    {
        match self {
            Error::Reconcile(failure) => failure.text(),
            Error::Finalizer(text) => "finalizer: ".to_owned().concat(text.as_str()),
        }
    }
}

/// When a resource is reconciled next.
#[derive(Clone, Copy, Debug, PartialEq, Eq, Structural)]
pub enum Action {
    /// After some time, or when it changes.
    Requeue(Duration),
    /// When it changes.
    AwaitChange,
}

/// When a resource whose reconcile failed is reconciled next: back off, but
/// never longer than a regular sync would take anyway.
pub fn error_policy(context: &Context) -> (r: Action)
    requires
        context.sync_interval.valid(),
    ensures
        r == Action::Requeue(
            if context.sync_interval.total() < MAX_RETRY_SECS * 1_000_000_000 {
                context.sync_interval
            } else {
                Duration { secs: MAX_RETRY_SECS, nanos: 0 }
            },
        ),
        r matches Action::Requeue(wait) && {
            &&& wait.total() <= context.sync_interval.total()
            &&& wait.total() <= 30_000_000_000
            &&& wait.total() == context.sync_interval.total() || wait.total() == 30_000_000_000
        },
{
    Action::Requeue(Duration::from_secs(MAX_RETRY_SECS).shortest(context.sync_interval))
}

/// Claim in Zitadel tokens carrying the project's roles, for consumers of
/// role ConfigMaps.
pub open spec fn claim_of(project_id: Seq<char>) -> Seq<char> {
    "urn:zitadel:iam:org:project:"@ + project_id + ":roles"@
}

/// Claim in Zitadel tokens carrying the project's roles, for consumers of
/// role ConfigMaps.
pub fn roles_claim(project_id: &str) -> (r: String)
    ensures
        r@ == claim_of(project_id@),
{
    "urn:zitadel:iam:org:project:".to_owned().concat(project_id).concat(":roles")
}

// --- Names

/// The namespace of a resource, nothing if it has none.
pub open spec fn namespace_of(metadata: ObjectMeta) -> Seq<char> {
    match metadata.namespace {
        Some(namespace) => namespace@,
        None => Seq::empty(),
    }
}

/// The namespace of a resource, nothing if it has none.
pub fn namespace_or_empty(metadata: &ObjectMeta) -> (r: String)
    ensures
        r@ == namespace_of(*metadata),
{
    match &metadata.namespace {
        Some(namespace) => namespace.clone(),
        None => String::new(),
    }
}

/// The failure of a resource of some kind that has no namespace.
pub open spec fn no_namespace(kind: Seq<char>) -> FailureView {
    FailureView::saying(kind + " without namespace"@)
}

/// The namespace that a resource of some kind must have.
pub fn required_namespace(kind: &str, metadata: &ObjectMeta) -> (r: Result<String, Failure>)
    ensures
        match r {
            Ok(namespace) => metadata.namespace == Some(namespace),
            Err(failure) => metadata.namespace is None && failure@ == no_namespace(kind@),
        },
{
    match &metadata.namespace {
        Some(namespace) => Ok(namespace.clone()),
        None => Err(Failure::new(kind.to_owned().concat(" without namespace"))),
    }
}

/// Zitadel-side name of an application.
pub open spec fn zitadel_name(app: OIDCApplication) -> Seq<char> {
    namespace_of(app.metadata) + "/"@ + app.metadata.any_name()
}

/// Zitadel-side name of an application: `<namespace>/<name>`, unique across
/// the cluster and readable in the console.
pub fn application_name(app: &OIDCApplication) -> (r: String)
    ensures
        r@ == zitadel_name(*app),
{
    namespace_or_empty(&app.metadata).concat("/").concat(app.metadata.name_any().as_str())
}

/// Zitadel role key of a resource.
pub open spec fn key_of(role: ProjectRole) -> Seq<char> {
    match role.spec.key {
        Some(key) => key@,
        None => role.metadata.any_name(),
    }
}

/// Zitadel role key of a resource: the spec's key, or the resource name.
pub fn role_key(role: &ProjectRole) -> (r: String)
    ensures
        r@ == key_of(*role),
{
    match &role.spec.key {
        Some(key) => key.clone(),
        None => role.metadata.name_any(),
    }
}

/// A name that is given, else that of the resource with a suffix.
pub open spec fn named(
    given: Option<String>,
    metadata: ObjectMeta,
    suffix: Seq<char>,
) -> Seq<char> {
    match given {
        Some(name) => name@,
        None => metadata.any_name() + suffix,
    }
}

/// A name that is given, else that of the resource with a suffix.
pub fn name_or(given: &Option<String>, metadata: &ObjectMeta, suffix: &str) -> (r: String)
    ensures
        r@ == named(*given, *metadata, suffix@),
{
    match given {
        Some(name) => name.clone(),
        None => metadata.name_any().concat(suffix),
    }
}

/// What went on when a ConfigMap or Secret could not be written.
pub open spec fn applying(what: Seq<char>, namespace: Seq<char>, name: Seq<char>) -> Seq<char> {
    "applying "@ + what + " "@ + namespace + "/"@ + name
}

pub fn applying_text(what: &str, namespace: &str, name: &str) -> (r: String)
    ensures
        r@ == applying(what@, namespace@, name@),
{
    "applying ".to_owned().concat(what).concat(" ").concat(namespace).concat("/").concat(name)
}

// --- Work and events

/// What a reconcile asks for.
#[derive(Debug)]
pub enum Work {
    /// The current session.
    ObtainSession,
    /// To invalidate the session of that number.
    Invalidate(u64),
    /// To ask something of Zitadel in the session of that number.
    Ask(u64, Request),
    WriteConfigMap(Manifest),
    WriteSecret(Manifest),
    /// The Secret of a namespace and name, if there is one.
    ReadSecret(String, String),
    /// To delete the Secret of a namespace and name.
    DeleteSecret(String, String),
    /// To set the status of the application of a namespace and name.
    PatchApplication(String, String, OIDCApplicationStatus),
    /// To set the status of the role of a namespace and name.
    PatchRole(String, String, ProjectRoleStatus),
}

/// What a reconcile asks for, as seen by contracts.
#[verifier::ext_equal]
pub enum WorkView {
    ObtainSession,
    Invalidate(u64),
    Ask(u64, RequestView),
    WriteConfigMap(ManifestView),
    WriteSecret(ManifestView),
    ReadSecret(Seq<char>, Seq<char>),
    DeleteSecret(Seq<char>, Seq<char>),
    PatchApplication(Seq<char>, Seq<char>, ApplicationStatusView),
    PatchRole(Seq<char>, Seq<char>, RoleStatusView),
}

impl View for Work {
    type V = WorkView;

    open spec fn view(&self) -> WorkView {
        match self {
            Work::ObtainSession => WorkView::ObtainSession,
            Work::Invalidate(id) => WorkView::Invalidate(*id),
            Work::Ask(id, request) => WorkView::Ask(*id, request@),
            Work::WriteConfigMap(manifest) => WorkView::WriteConfigMap(manifest@),
            Work::WriteSecret(manifest) => WorkView::WriteSecret(manifest@),
            Work::ReadSecret(namespace, name) => WorkView::ReadSecret(namespace@, name@),
            Work::DeleteSecret(namespace, name) => WorkView::DeleteSecret(namespace@, name@),
            Work::PatchApplication(namespace, name, status) => WorkView::PatchApplication(
                namespace@,
                name@,
                status@,
            ),
            Work::PatchRole(namespace, name, status) => WorkView::PatchRole(
                namespace@,
                name@,
                status@,
            ),
        }
    }
}

/// What came of the work that a reconcile asked for.
#[derive(Debug)]
pub enum Event {
    Session(Result<Lease, Failure>),
    Invalidated,
    Reply(Reply),
    /// Something was written, deleted or patched.
    Applied(Result<(), Failure>),
    SecretRead(Result<Option<StoredSecret>, Failure>),
}

/// Whether `event` is what can come of some work.
pub open spec fn answers(work: WorkView, event: Event) -> bool {
    match work {
        WorkView::ObtainSession => event is Session,
        WorkView::Invalidate(_) => event is Invalidated,
        WorkView::Ask(_, request) => event matches Event::Reply(reply) && reply.kind()
            == request.answer(),
        WorkView::ReadSecret(_, _) => event is SecretRead,
        _ => event is Applied,
    }
}

/// Optional work as seen by contracts.
pub open spec fn work_view(work: Option<Work>) -> Option<WorkView> {
    match work {
        Some(work) => Some(work@),
        None => None,
    }
}

// --- Work in a session

/// Work in the current Zitadel session, where it stands. If Zitadel rejects
/// the credential, the session is invalidated and the work done once more
/// with a fresh one.
#[derive(Debug)]
pub enum WithSession<S, T> {
    /// To obtain the session; tells whether this is the second attempt.
    Obtain(bool),
    /// To do the work; tells whether this is the second attempt.
    Run(bool, Lease, S),
    /// To invalidate the session of that number.
    Invalidate(u64),
    Done(Result<(Lease, T), Failure>),
}

/// Work in the current Zitadel session, as seen by contracts.
#[verifier::ext_equal]
pub enum WithSessionView<S, T> {
    Obtain(bool),
    Run(bool, Lease, S),
    Invalidate(u64),
    Done(Result<(Lease, T), FailureView>),
}

impl<S: View, T> View for WithSession<S, T> {
    type V = WithSessionView<S::V, T>;

    open spec fn view(&self) -> WithSessionView<S::V, T> {
        match *self {
            WithSession::Obtain(again) => WithSessionView::Obtain(again),
            WithSession::Run(again, lease, state) => WithSessionView::Run(again, lease, state@),
            WithSession::Invalidate(id) => WithSessionView::Invalidate(id),
            WithSession::Done(result) => WithSessionView::Done(outcome(result)),
        }
    }
}

impl<S, T> WithSessionView<S, T> {
    /// The work begins in the session, unless there is none.
    pub open spec fn obtained(again: bool, session: Result<Lease, FailureView>, start: S) -> Self {
        match session {
            Ok(lease) => WithSessionView::Run(again, lease, start),
            Err(failure) => WithSessionView::Done(
                Err(failure.within("obtaining Zitadel credential"@)),
            ),
        }
    }

    /// The work ended, unless Zitadel rejected the credential at the first
    /// attempt.
    pub open spec fn finished(again: bool, lease: Lease, result: Result<T, FailureView>) -> Self {
        match result {
            Ok(value) => WithSessionView::Done(Ok((lease, value))),
            Err(failure) => if !again && failure.is_auth() {
                WithSessionView::Invalidate(lease.id)
            } else {
                WithSessionView::Done(Err(failure))
            },
        }
    }

    /// An upper bound on the sessions that are still to be obtained.
    pub open spec fn sessions_left(self) -> nat {
        match self {
            WithSessionView::Obtain(again) => if again {
                1
            } else {
                2
            },
            WithSessionView::Run(again, _, _) => if again {
                0
            } else {
                1
            },
            WithSessionView::Invalidate(_) => 1,
            WithSessionView::Done(_) => 0,
        }
    }
}

/// How work in a session begins.
pub fn with_session<S: View, T>() -> (r: WithSession<S, T>)
    ensures
        r@ == WithSessionView::<S::V, T>::Obtain(false),
{
    WithSession::Obtain(false)
}

/// Begins the work in the session, unless there is none.
pub fn session_obtained<S: View, T>(
    again: bool,
    session: Result<Lease, Failure>,
    start: S,
) -> (r: WithSession<S, T>)
    ensures
        r@ == WithSessionView::<S::V, T>::obtained(again, outcome(session), start@),
{
    match session {
        Ok(lease) => WithSession::Run(again, lease, start),
        Err(failure) => WithSession::Done(Err(failure.context("obtaining Zitadel credential"))),
    }
}

/// Ends the work, unless Zitadel rejected the credential at the first
/// attempt.
pub fn work_finished<S: View, T>(
    again: bool,
    lease: Lease,
    result: Result<T, Failure>,
) -> (r: WithSession<S, T>)
    ensures
        r@ == WithSessionView::<S::V, T>::finished(again, lease, outcome(result)),
{
    match result {
        Ok(value) => WithSession::Done(Ok((lease, value))),
        Err(failure) => {
            if !again && is_auth_error(&failure) {
                WithSession::Invalidate(lease.id)
            } else {
                WithSession::Done(Err(failure))
            }
        },
    }
}

/// Asks for a fresh session once the rejected one is invalidated.
pub fn session_invalidated<S: View, T>() -> (r: WithSession<S, T>)
    ensures
        r@ == WithSessionView::<S::V, T>::Obtain(true),
{
    WithSession::Obtain(true)
}

// --- Laws

/// Work that Zitadel rejects is done once more, with another session, and
/// then no more: what the second attempt brings is the result, and so is any
/// failure that is no rejection.
pub proof fn rejected_work_is_retried_once<S, T>(lease: Lease, failure: FailureView)
    ensures
        failure.is_auth() ==> WithSessionView::<S, T>::finished(false, lease, Err(failure))
            == WithSessionView::<S, T>::Invalidate(lease.id),
        !failure.is_auth() ==> WithSessionView::<S, T>::finished(false, lease, Err(failure))
            == WithSessionView::<S, T>::Done(Err(failure)),
        WithSessionView::<S, T>::finished(true, lease, Err(failure)) == WithSessionView::<
            S,
            T,
        >::Done(Err(failure)),
{
}

/// Work in a session obtains two sessions at most: obtaining one uses up one,
/// and neither the work nor the invalidation adds any.
pub proof fn at_most_two_sessions<S, T>(
    again: bool,
    session: Result<Lease, FailureView>,
    start: S,
    lease: Lease,
    result: Result<T, FailureView>,
)
    ensures
        WithSessionView::<S, T>::Obtain(false).sessions_left() == 2,
        WithSessionView::<S, T>::obtained(again, session, start).sessions_left()
            < WithSessionView::<S, T>::Obtain(again).sessions_left(),
        WithSessionView::<S, T>::finished(again, lease, result).sessions_left()
            <= WithSessionView::<S, T>::Run(again, lease, start).sessions_left(),
        WithSessionView::<S, T>::Obtain(true).sessions_left() == WithSessionView::<
            S,
            T,
        >::Invalidate(lease.id).sessions_left(),
{
}

/// Applications of the cluster have different names in Zitadel: two that are
/// called the same there have the same namespace and name. (Kubernetes does
/// not admit a slash in a namespace.)
pub proof fn application_names_are_unique(a: OIDCApplication, b: OIDCApplication)
    requires
        !namespace_of(a.metadata).contains('/'),
        !namespace_of(b.metadata).contains('/'),
        zitadel_name(a) == zitadel_name(b),
    ensures
        namespace_of(a.metadata) == namespace_of(b.metadata),
        a.metadata.any_name() == b.metadata.any_name(),
{
    reveal_strlit("/");
    assert("/"@.len() == 1 && "/"@[0] == '/');
    let x = namespace_of(a.metadata);
    let y = namespace_of(b.metadata);
    let whole = zitadel_name(a);
    assert(whole[x.len() as int] == '/');
    assert(whole[y.len() as int] == '/');
    if x.len() < y.len() {
        assert(y[x.len() as int] == whole[x.len() as int]);
    }
    if y.len() < x.len() {
        assert(x[y.len() as int] == whole[y.len() as int]);
    }
    assert(x =~= whole.take(x.len() as int));
    assert(y =~= whole.take(y.len() as int));
    assert(a.metadata.any_name() =~= whole.skip(x.len() as int + 1));
    assert(b.metadata.any_name() =~= whole.skip(y.len() as int + 1));
}

/// Names are those of the resource: an application is called by its namespace
/// and name, a role by its key or else its name, and what is published by the
/// name that is given or else by that of the resource with a suffix.
pub proof fn names_are_those_of_the_resource(
    metadata: ObjectMeta,
    app: OIDCApplication,
    role: ProjectRole,
    given: Option<String>,
    suffix: Seq<char>,
    kind: Seq<char>,
    namespace: Seq<char>,
    name: Seq<char>,
    project_id: Seq<char>,
)
    ensures
        metadata.namespace matches Some(namespace) ==> namespace_of(metadata) == namespace@,
        metadata.namespace is None ==> namespace_of(metadata).len() == 0,
        app.metadata.namespace matches Some(namespace) ==> (app.metadata.name matches Some(name)
            ==> zitadel_name(app) == namespace@ + "/"@ + name@),
        zitadel_name(app) == namespace_of(app.metadata) + "/"@ + app.metadata.any_name(),
        role.spec.key matches Some(key) ==> key_of(role) == key@,
        role.spec.key is None ==> key_of(role) == role.metadata.any_name(),
        given matches Some(name) ==> named(given, metadata, suffix) == name@,
        given is None ==> named(given, metadata, suffix) == metadata.any_name() + suffix,
        applying(kind, namespace, name) == "applying "@ + kind + " "@ + namespace + "/"@ + name,
        no_namespace(kind).chain == seq![kind + " without namespace"@],
        no_namespace(kind).http is None && no_namespace(kind).zapp is None,
        claim_of(project_id) == "urn:zitadel:iam:org:project:"@ + project_id + ":roles"@,
{
}

/// Work in a session is done in the session that was handed out, what it
/// brings is what it is said to bring, and without a session it fails for that
/// reason.
pub proof fn work_is_done_in_the_session<S, T>(
    again: bool,
    lease: Lease,
    start: S,
    value: T,
    failure: FailureView,
)
    ensures
        WithSessionView::<S, T>::obtained(again, Ok(lease), start) == WithSessionView::<S, T>::Run(
            again,
            lease,
            start,
        ),
        WithSessionView::<S, T>::obtained(again, Err(failure), start) == WithSessionView::<
            S,
            T,
        >::Done(
            Err(
                FailureView {
                    http: failure.http,
                    zapp: failure.zapp,
                    chain: seq!["obtaining Zitadel credential"@] + failure.chain,
                },
            ),
        ),
        WithSessionView::<S, T>::finished(again, lease, Ok(value)) == WithSessionView::<S, T>::Done(
            Ok((lease, value)),
        ),
{
}

/// Contracts speak of work as it is.
pub proof fn work_is_seen_as_it_is(work: Work)
    ensures
        match work {
            Work::ObtainSession => work@ == WorkView::ObtainSession,
            Work::Invalidate(id) => work@ == WorkView::Invalidate(id),
            Work::Ask(id, request) => work@ == WorkView::Ask(id, request@),
            Work::WriteConfigMap(manifest) => work@ == WorkView::WriteConfigMap(manifest@),
            Work::WriteSecret(manifest) => work@ == WorkView::WriteSecret(manifest@),
            Work::ReadSecret(namespace, name) => work@ == WorkView::ReadSecret(namespace@, name@),
            Work::DeleteSecret(namespace, name) => work@ == WorkView::DeleteSecret(
                namespace@,
                name@,
            ),
            Work::PatchApplication(namespace, name, status) => work@ == WorkView::PatchApplication(
                namespace@,
                name@,
                status@,
            ),
            Work::PatchRole(namespace, name, status) => work@ == WorkView::PatchRole(
                namespace@,
                name@,
                status@,
            ),
        },
        work_view(Some(work)) == Some(work@),
        work_view(None) is None,
{
}

/// An error says what failed; one of the finalizer says that it is one.
pub proof fn errors_say_what_failed(failure: Failure, text: String)
    ensures
        Error::Reconcile(failure).words() == failure@.line(),
        Error::Finalizer(text).words() == "finalizer: "@ + text@,
{
}

} // verus!
