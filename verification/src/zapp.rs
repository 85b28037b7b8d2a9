//! Obtaining and refreshing the Zitadel project credential from zapp.
//!
//! The operator proves who it is with its Kubernetes service account token
//! (a projected token whose audience is zapp's) and gets back a **machine
//! key** for the service account that owns the cluster's Zitadel project. The
//! key is handed to the Zitadel client through a file, because that is the
//! only way the client library accepts it: the file lives in the configured
//! key directory (memory-backed in the Helm chart) for the instant the client
//! reads it and is removed right after. From then on the key exists only in
//! process memory, where the client signs short-lived JWTs with it. Nothing
//! is persisted; a restart simply asks zapp again.

use vstd::prelude::*;
use vstd::string::*;

use crate::address::{directory, join_url, joined_url, to_directory};
use crate::config::ZappConfig;
use crate::failure::{
    in_context, is_success, outcome, success, Failure, FailureView, ZappError,
};
use crate::text::{
    blank_means_white, decimal, ends_in, trim, trim_end, trimmed, trimming_takes_whitespace_alone,
    whitespace, without_trailing, without_trailing_is_the_rest,
};
use crate::time::{
    format_seconds, renewal, renewal_in_calendar, renewal_leaves_a_third, renewal_time, Duration,
    Timestamp,
};
use crate::zitadel::ProjectClient;

verus! {

// --- Sessions

/// A project of Zitadel and the credential to manage it with, valid until
/// the underlying machine key expires.
#[derive(Debug)]
pub struct Session {
    pub zitadel: ProjectClient,
    /// ID of the Zitadel project the operator manages.
    pub project_id: String,
    /// Base URL of the Zitadel instance, with a path that ends in `/`.
    pub zitadel_url: String,
    /// Name of the Zitadel service account acting on behalf of the cluster.
    pub username: String,
    pub issued_at: Timestamp,
    pub expires_at: Timestamp,
}

impl Session {
    /// The times of the session, and that of its renewal, lie in the
    /// calendar.
    pub open spec fn valid(self) -> bool {
        &&& self.issued_at.valid()
        &&& self.expires_at.valid()
        &&& renewal_in_calendar(self.issued_at, self.expires_at)
    }

    /// Whether the session should be replaced: expired, or past the point of
    /// its lifetime after which a renewal is due.
    pub open spec fn stale(self, now: Timestamp) -> bool {
        !now.before(self.expires_at) || !now.before(renewal(self.issued_at, self.expires_at))
    }

    /// Whether the session still works.
    pub open spec fn usable(self, now: Timestamp) -> bool {
        now.before(self.expires_at)
    }

    /// Whether the session should be replaced: expired, or past the point of
    /// its lifetime after which a renewal is due.
    pub fn is_stale(&self, now: Timestamp) -> (r: bool)
        requires
            self.valid(),
        ensures
            r == self.stale(now),
    {
        !now.is_before(&self.expires_at) || !now.is_before(
            &renewal_time(self.issued_at, self.expires_at),
        )
    }

    /// The Zitadel URL without trailing slash, which is the OIDC issuer.
    pub fn issuer(&self) -> (r: String)
        ensures
            r@ == without_trailing(self.zitadel_url@, '/'),
    {
        trim_end(self.zitadel_url.as_str(), '/')
    }

    /// A copy of the session.
    pub fn duplicate(&self) -> (r: Session)
        ensures
            r == *self,
    {
        Session {
            zitadel: ProjectClient {
                url: self.zitadel.url.clone(),
                project_id: self.zitadel.project_id.clone(),
            },
            project_id: self.project_id.clone(),
            zitadel_url: self.zitadel_url.clone(),
            username: self.username.clone(),
            issued_at: self.issued_at,
            expires_at: self.expires_at,
        }
    }
}

// --- Asking zapp

/// Query that asks zapp for a machine key.
pub const CREDENTIALS_QUERY: (&'static str, &'static str) = ("type", "key");

/// How the name of the transient key file begins.
pub const KEY_FILE_PREFIX: &'static str = "zitadel-key-";

/// How the name of the transient key file ends.
pub const KEY_FILE_SUFFIX: &'static str = ".json";

/// Owner-only file permissions for the transient key file.
pub const KEY_FILE_MODE: u32 = 0o600;

/// zapp's answer to `POST /v1/credentials?type=key`.
#[derive(Debug)]
pub struct Credentials {
    pub zitadel_url: String,
    pub username: String,
    pub project_id: String,
    /// Zitadel's JSON key file.
    pub key: String,
    pub expires_at: Timestamp,
}

/// What came of the request for credentials.
#[derive(Debug)]
pub enum Answer {
    /// It got no answer.
    NotSent(Failure),
    /// The answer could not be read.
    NotRead(Failure),
    /// Status and body of the answer.
    Read(u16, String),
}

/// What is known of a session before it is authenticated.
#[derive(Debug)]
pub struct Draft {
    pub project_id: String,
    pub zitadel_url: String,
    pub username: String,
    pub issued_at: Timestamp,
    pub expires_at: Timestamp,
}

/// Where the opening of a session stands.
#[derive(Debug)]
pub enum Opening {
    /// To read the service account token.
    ReadToken,
    /// To request credentials at this URL with this token.
    Request(String, String),
    /// To parse this body as credentials.
    Parse(String),
    /// To create the key file; the key comes second.
    CreateKey(Draft, String),
    /// To write the key to its file; the key comes second.
    WriteKey(Draft, String),
    /// To authenticate with the key file.
    Authenticate(Draft),
    /// To remove the key file after authenticating, of which this came.
    RemoveKey(Draft, Result<(), Failure>),
    /// To remove a key file that could not be written, whether or not that
    /// works.
    DiscardKey(Failure),
    Done(Result<Session, Failure>),
}

/// What came of a step.
#[derive(Debug)]
pub enum OpeningEvent {
    Token(Result<String, Failure>),
    Answered(Answer),
    /// What the body parsed to, and when.
    Parsed(Result<Credentials, Failure>, Timestamp),
    KeyCreated(Result<(), Failure>),
    KeyWritten(Result<(), Failure>),
    LoggedIn(Result<(), Failure>),
    KeyRemoved(Result<(), Failure>),
}

/// Where the opening of a session stands, as seen by contracts.
#[verifier::ext_equal]
pub enum OpeningView {
    ReadToken,
    Request(Seq<char>, Seq<char>),
    Parse(Seq<char>),
    CreateKey(DraftView, Seq<char>),
    WriteKey(DraftView, Seq<char>),
    Authenticate(DraftView),
    RemoveKey(DraftView, Result<(), FailureView>),
    DiscardKey(FailureView),
    Done(Result<SessionView, FailureView>),
}

/// What is known of a session before it is authenticated, as seen by
/// contracts.
#[verifier::ext_equal]
pub struct DraftView {
    pub project_id: Seq<char>,
    pub zitadel_url: Seq<char>,
    pub username: Seq<char>,
    pub issued_at: Timestamp,
    pub expires_at: Timestamp,
}

/// A session as seen by contracts.
#[verifier::ext_equal]
pub struct SessionView {
    /// Base URL and project of the client.
    pub zitadel: (Seq<char>, Seq<char>),
    pub project_id: Seq<char>,
    pub zitadel_url: Seq<char>,
    pub username: Seq<char>,
    pub issued_at: Timestamp,
    pub expires_at: Timestamp,
}

impl View for Draft {
    type V = DraftView;

    open spec fn view(&self) -> DraftView {
        DraftView {
            project_id: self.project_id@,
            zitadel_url: self.zitadel_url@,
            username: self.username@,
            issued_at: self.issued_at,
            expires_at: self.expires_at,
        }
    }
}

impl View for Session {
    type V = SessionView;

    open spec fn view(&self) -> SessionView {
        SessionView {
            zitadel: (self.zitadel.url@, self.zitadel.project_id@),
            project_id: self.project_id@,
            zitadel_url: self.zitadel_url@,
            username: self.username@,
            issued_at: self.issued_at,
            expires_at: self.expires_at,
        }
    }
}

/// The outcome of opening a session as seen by contracts.
pub open spec fn opened(result: Result<Session, Failure>) -> Result<SessionView, FailureView> {
    match result {
        Ok(session) => Ok(session@),
        Err(failure) => Err(failure@),
    }
}

impl View for Opening {
    type V = OpeningView;

    open spec fn view(&self) -> OpeningView {
        match self {
            Opening::ReadToken => OpeningView::ReadToken,
            Opening::Request(url, token) => OpeningView::Request(url@, token@),
            Opening::Parse(body) => OpeningView::Parse(body@),
            Opening::CreateKey(draft, key) => OpeningView::CreateKey(draft@, key@),
            Opening::WriteKey(draft, key) => OpeningView::WriteKey(draft@, key@),
            Opening::Authenticate(draft) => OpeningView::Authenticate(draft@),
            Opening::RemoveKey(draft, login) => OpeningView::RemoveKey(draft@, outcome(*login)),
            Opening::DiscardKey(failure) => OpeningView::DiscardKey(failure@),
            Opening::Done(result) => OpeningView::Done(opened(*result)),
        }
    }
}

impl DraftView {
    /// The session, once authenticated.
    pub open spec fn session(self) -> SessionView {
        SessionView {
            zitadel: (self.zitadel_url, self.project_id),
            project_id: self.project_id,
            zitadel_url: self.zitadel_url,
            username: self.username,
            issued_at: self.issued_at,
            expires_at: self.expires_at,
        }
    }
}

/// What the contents of the token file say: the token, which must not be
/// blank.
pub open spec fn token_of(
    token_file: Seq<char>,
    contents: Result<Seq<char>, FailureView>,
) -> Result<
    Seq<char>,
    FailureView,
> {
    match contents {
        Err(failure) => Err(failure.within("reading token "@ + token_file)),
        Ok(text) => if trimmed(text).len() == 0 {
            Err(FailureView::saying("token "@ + token_file + " is empty"@))
        } else {
            Ok(trimmed(text))
        },
    }
}

/// The outcome of reading a text as seen by contracts.
pub open spec fn read_text(result: Result<String, Failure>) -> Result<Seq<char>, FailureView> {
    match result {
        Ok(text) => Ok(text@),
        Err(failure) => Err(failure@),
    }
}

/// What zapp's answer is: the body of a successful one, else why there is
/// none.
pub open spec fn body_of(answer: Answer) -> Result<Seq<char>, FailureView> {
    match answer {
        Answer::NotSent(failure) => Err(failure@.within("requesting credentials from zapp"@)),
        Answer::NotRead(failure) => Err(failure@.within("reading zapp response"@)),
        Answer::Read(status, body) => if success(status) {
            Ok(body@)
        } else {
            Err(FailureView::refused(status, body@))
        },
    }
}

/// Talks to a single zapp server.
#[derive(Debug)]
pub struct ZappClient {
    pub config: ZappConfig,
}

impl ZappClient {
    pub fn new(config: ZappConfig) -> (r: ZappClient)
        ensures
            r.config == config,
    {
        ZappClient { config }
    }

    /// The service account token presented to zapp. It is read on every
    /// call: in a pod, the kubelet rotates the projected token in place.
    pub fn service_account_token(&self, contents: Result<String, Failure>) -> (r: Result<
        String,
        Failure,
    >)
        ensures
            read_text(r) == token_of(self.config.token_file@, read_text(contents)),
    {
        match contents {
            Err(failure) => Err(
                failure.context(
                    "reading token ".to_owned().concat(self.config.token_file.as_str()).as_str(),
                ),
            ),
            Ok(text) => {
                let token = trim(text.as_str());
                if token.as_str().unicode_len() == 0 {
                    Err(
                        Failure::new(
                            "token ".to_owned().concat(self.config.token_file.as_str()).concat(
                                " is empty",
                            ),
                        ),
                    )
                } else {
                    Ok(token)
                }
            },
        }
    }

    /// Where credentials are requested, or why that cannot be.
    pub open spec fn credentials_url(self) -> Result<Seq<char>, FailureView> {
        match joined_url(self.config.url@, "v1/credentials"@) {
            Ok(url) => Ok(url),
            Err(words) => Err(FailureView::saying(words)),
        }
    }

    fn request_url(&self) -> (r: Result<String, Failure>)
        ensures
            read_text(r) == self.credentials_url(),
    {
        match join_url(self.config.url.as_str(), "v1/credentials") {
            Ok(url) => Ok(url),
            Err(words) => Err(Failure::new(words)),
        }
    }

    /// Asks zapp for a fresh machine key and opens a Zitadel session with
    /// it. This is how that begins.
    pub fn open_session() -> (r: Opening)
        ensures
            r@ == OpeningView::ReadToken,
    {
        Opening::ReadToken
    }
}

/// The body of zapp's answer, or why there is none.
pub fn answer_body(answer: Answer) -> (r: Result<String, Failure>)
    ensures
        read_text(r) == body_of(answer),
{
    match answer {
        Answer::NotSent(failure) => Err(failure.context("requesting credentials from zapp")),
        Answer::NotRead(failure) => Err(failure.context("reading zapp response")),
        Answer::Read(status, body) => {
            if is_success(status) {
                Ok(body)
            } else {
                Err(Failure::refused(ZappError { status, body }))
            }
        },
    }
}

impl OpeningView {
    /// Whether `event` is what can come of this step. What zapp sends must
    /// make a session whose times lie in the calendar.
    pub open spec fn expects(self, event: OpeningEvent) -> bool {
        match self {
            OpeningView::ReadToken => event is Token,
            OpeningView::Request(_, _) => event is Answered,
            OpeningView::Parse(_) => event matches OpeningEvent::Parsed(parsed, now) && (
            parsed matches Ok(credentials) ==> now.valid() && credentials.expires_at.valid()
                && renewal_in_calendar(now, credentials.expires_at)),
            OpeningView::CreateKey(_, _) => event is KeyCreated,
            OpeningView::WriteKey(_, _) => event is KeyWritten,
            OpeningView::Authenticate(_) => event is LoggedIn,
            OpeningView::RemoveKey(_, _) => event is KeyRemoved,
            OpeningView::DiscardKey(_) => event is KeyRemoved,
            OpeningView::Done(_) => false,
        }
    }

    /// Where the opening stands after `event`.
    pub open spec fn after(self, client: ZappClient, event: OpeningEvent) -> OpeningView {
        match (self, event) {
            (OpeningView::ReadToken, OpeningEvent::Token(contents)) => match token_of(
                client.config.token_file@,
                read_text(contents),
            ) {
                Ok(token) => match client.credentials_url() {
                    Ok(url) => OpeningView::Request(url, token),
                    Err(failure) => OpeningView::Done(Err(failure)),
                },
                Err(failure) => OpeningView::Done(Err(failure)),
            },
            (OpeningView::Request(_, _), OpeningEvent::Answered(answer)) => match body_of(answer) {
                Ok(body) => OpeningView::Parse(body),
                Err(failure) => OpeningView::Done(Err(failure)),
            },
            (OpeningView::Parse(_), OpeningEvent::Parsed(parsed, now)) => match parsed {
                Ok(credentials) => match directory(credentials.zitadel_url@) {
                    Ok(url) => OpeningView::CreateKey(
                        DraftView {
                            project_id: credentials.project_id@,
                            zitadel_url: url.text(),
                            username: credentials.username@,
                            issued_at: now,
                            expires_at: credentials.expires_at,
                        },
                        credentials.key@,
                    ),
                    Err(failure) => OpeningView::Done(Err(failure)),
                },
                Err(failure) => OpeningView::Done(
                    Err(failure@.within("parsing zapp response"@)),
                ),
            },
            (OpeningView::CreateKey(draft, key), OpeningEvent::KeyCreated(result)) => match outcome(
                result,
            ) {
                Ok(_) => OpeningView::WriteKey(draft, key),
                Err(failure) => OpeningView::Done(
                    Err(failure.within("creating key file in "@ + client.config.key_dir@)),
                ),
            },
            (OpeningView::WriteKey(draft, _), OpeningEvent::KeyWritten(result)) => match outcome(
                result,
            ) {
                Ok(_) => OpeningView::Authenticate(draft),
                Err(failure) => OpeningView::DiscardKey(failure.within("writing key file"@)),
            },
            (OpeningView::Authenticate(draft), OpeningEvent::LoggedIn(login)) => {
                OpeningView::RemoveKey(draft, outcome(login))
            },
            (OpeningView::RemoveKey(draft, login), OpeningEvent::KeyRemoved(removal)) => {
                match outcome(removal) {
                    Err(failure) => OpeningView::Done(
                        Err(failure.within("removing key file"@)),
                    ),
                    Ok(_) => match login {
                        Ok(_) => OpeningView::Done(Ok(draft.session())),
                        Err(failure) => OpeningView::Done(
                            Err(
                                failure.within("authenticating against Zitadel"@).within(
                                    "authenticating against Zitadel at "@ + draft.zitadel_url,
                                ),
                            ),
                        ),
                    },
                }
            },
            (OpeningView::DiscardKey(failure), OpeningEvent::KeyRemoved(_)) => OpeningView::Done(
                Err(failure),
            ),
            _ => self,
        }
    }

    /// Whether the key file exists in this state.
    pub open spec fn key_on_disk(self) -> bool {
        self is WriteKey || self is Authenticate || self is RemoveKey || self is DiscardKey
    }
}

impl Opening {
    /// What is established of a session on the way: its times lie in the
    /// calendar.
    pub open spec fn valid(self) -> bool {
        match self {
            Opening::CreateKey(draft, _) => draft.valid(),
            Opening::WriteKey(draft, _) => draft.valid(),
            Opening::Authenticate(draft) => draft.valid(),
            Opening::RemoveKey(draft, _) => draft.valid(),
            Opening::Done(Ok(session)) => session.valid(),
            _ => true,
        }
    }

    /// Takes what came of the current step.
    pub fn step(self, client: &ZappClient, event: OpeningEvent) -> (r: Opening)
        requires
            self.valid(),
            self@.expects(event),
        ensures
            r.valid(),
            r@ == self@.after(*client, event),
    {
        match (self, event) {
            (Opening::ReadToken, OpeningEvent::Token(contents)) => {
                match client.service_account_token(contents) {
                    Ok(token) => match client.request_url() {
                        Ok(url) => Opening::Request(url, token),
                        Err(failure) => Opening::Done(Err(failure)),
                    },
                    Err(failure) => Opening::Done(Err(failure)),
                }
            },
            (Opening::Request(_, _), OpeningEvent::Answered(answer)) => match answer_body(answer) {
                Ok(body) => Opening::Parse(body),
                Err(failure) => Opening::Done(Err(failure)),
            },
            (Opening::Parse(_), OpeningEvent::Parsed(parsed, now)) => match parsed {
                Ok(credentials) => match to_directory(credentials.zitadel_url.as_str()) {
                    Ok(url) => Opening::CreateKey(
                        Draft {
                            project_id: credentials.project_id,
                            zitadel_url: url.text(),
                            username: credentials.username,
                            issued_at: now,
                            expires_at: credentials.expires_at,
                        },
                        credentials.key,
                    ),
                    Err(failure) => Opening::Done(Err(failure)),
                },
                Err(failure) => Opening::Done(Err(failure.context("parsing zapp response"))),
            },
            (Opening::CreateKey(draft, key), OpeningEvent::KeyCreated(result)) => match result {
                Ok(_) => Opening::WriteKey(draft, key),
                Err(failure) => Opening::Done(
                    Err(
                        failure.context(
                            "creating key file in ".to_owned().concat(
                                client.config.key_dir.as_str(),
                            ).as_str(),
                        ),
                    ),
                ),
            },
            (Opening::WriteKey(draft, _), OpeningEvent::KeyWritten(result)) => match result {
                Ok(_) => Opening::Authenticate(draft),
                Err(failure) => Opening::DiscardKey(failure.context("writing key file")),
            },
            (Opening::Authenticate(draft), OpeningEvent::LoggedIn(login)) => {
                Opening::RemoveKey(draft, login)
            },
            (Opening::RemoveKey(draft, login), OpeningEvent::KeyRemoved(removal)) => {
                match removal {
                    Err(failure) => Opening::Done(Err(failure.context("removing key file"))),
                    Ok(_) => Opening::Done(draft.finish(login)),
                }
            },
            (Opening::DiscardKey(failure), OpeningEvent::KeyRemoved(_)) => Opening::Done(
                Err(failure),
            ),
            (opening, _) => opening,
        }
    }
}

impl Draft {
    /// The times, and that of renewal, lie in the calendar.
    pub open spec fn valid(self) -> bool {
        &&& self.issued_at.valid()
        &&& self.expires_at.valid()
        &&& renewal_in_calendar(self.issued_at, self.expires_at)
    }

    fn finish(self, login: Result<(), Failure>) -> (r: Result<Session, Failure>)
        requires
            self.valid(),
        ensures
            r matches Ok(session) ==> session.valid(),
            match outcome(login) {
                Ok(_) => opened(r) == Ok::<SessionView, FailureView>(self@.session()),
                Err(failure) => opened(r) == Err::<SessionView, FailureView>(
                    failure.within("authenticating against Zitadel"@).within(
                        "authenticating against Zitadel at "@ + self.zitadel_url@,
                    ),
                ),
            },
    {
        match ProjectClient::new(self.zitadel_url.clone(), self.project_id.clone(), login) {
            Ok(zitadel) => Ok(
                Session {
                    zitadel,
                    project_id: self.project_id,
                    zitadel_url: self.zitadel_url,
                    username: self.username,
                    issued_at: self.issued_at,
                    expires_at: self.expires_at,
                },
            ),
            Err(failure) => Err(
                failure.context(
                    "authenticating against Zitadel at ".to_owned().concat(
                        self.zitadel_url.as_str(),
                    ).as_str(),
                ),
            ),
        }
    }
}

// --- Handing out sessions

/// Minimum time between two failed renewal attempts.
pub const FAILURE_BACKOFF_SECS: u64 = 30;

/// A session as handed out, with the number by which it is told from those
/// before and after it.
#[derive(Debug)]
pub struct Lease {
    pub id: u64,
    pub session: Session,
}

/// Hands out the current [`Session`], renewing it from zapp when it gets
/// stale or when a caller reports that Zitadel no longer accepts it.
#[derive(Debug)]
pub struct SessionManager {
    pub current: Option<Lease>,
    /// Avoids hammering zapp when every reconcile fails: after a failed
    /// renewal, further attempts wait for a backoff. A reading of a clock
    /// that never goes back.
    pub last_failure: Option<Duration>,
    /// Number of the next session.
    pub next_id: u64,
}

/// What comes of asking for a session.
#[derive(Debug)]
pub enum Handout {
    /// The session, or why there is none.
    Ready(Result<Lease, Failure>),
    /// zapp must be asked for a new one first.
    Renew,
}

/// What comes of asking for a session, as seen by contracts.
#[verifier::ext_equal]
pub enum HandoutView {
    Ready(Result<Lease, FailureView>),
    Renew,
}

impl View for Handout {
    type V = HandoutView;

    open spec fn view(&self) -> HandoutView {
        match *self {
            Handout::Ready(result) => HandoutView::Ready(outcome(result)),
            Handout::Renew => HandoutView::Renew,
        }
    }
}

/// Why zapp is not asked again yet, when `ago` is how long ago it failed.
pub open spec fn too_early(ago: Seq<char>) -> FailureView {
    FailureView::saying(
        "not asking zapp again yet: the last attempt failed "@ + ago + " ago"@,
    )
}

/// Why zapp is not asked again yet.
pub fn backoff_failure(ago: &str) -> (r: Failure)
    ensures
        r@ == too_early(ago@),
{
    Failure::new(
        "not asking zapp again yet: the last attempt failed ".to_owned().concat(ago).concat(
            " ago",
        ),
    )
}

impl Lease {
    fn duplicate(&self) -> (r: Lease)
        ensures
            r == *self,
    {
        Lease { id: self.id, session: self.session.duplicate() }
    }
}

impl SessionManager {
    /// The current session is one that was handed a number, and its times
    /// lie in the calendar.
    pub open spec fn valid(self) -> bool {
        &&& self.current matches Some(lease) ==> lease.session.valid() && lease.id < self.next_id
        &&& self.last_failure matches Some(at) ==> at.valid()
    }

    /// Nanoseconds since the last failed renewal, as of `clock`.
    pub open spec fn since_failure(self, clock: Duration) -> Option<int> {
        match self.last_failure {
            Some(at) => Some(
                if clock.total() > at.total() {
                    clock.total() - at.total()
                } else {
                    0
                },
            ),
            None => None,
        }
    }

    /// Whether zapp failed too short a time ago to be asked again.
    pub open spec fn backing_off(self, clock: Duration) -> bool {
        self.since_failure(clock) matches Some(nanos) && nanos < FAILURE_BACKOFF_SECS
            * 1_000_000_000
    }

    /// The session to fall back to: the current one, as long as it works.
    pub open spec fn fallback(self, now: Timestamp) -> Option<Lease> {
        match self.current {
            Some(lease) => if lease.session.usable(now) {
                Some(lease)
            } else {
                None
            },
            None => None,
        }
    }

    /// What is handed out when zapp gives no new session.
    pub open spec fn without_renewal(self, now: Timestamp, failure: FailureView) -> Result<
        Lease,
        FailureView,
    > {
        match self.fallback(now) {
            Some(lease) => Ok(lease),
            None => Err(failure),
        }
    }

    /// Why zapp is not asked at `clock`, during the backoff.
    pub open spec fn backoff(self, clock: Duration) -> FailureView {
        too_early(decimal((self.since_failure(clock)->0 / 1_000_000_000) as nat) + "s"@)
    }

    /// What comes of asking for a session: the current one unless it is
    /// stale, else a new one; during the backoff after a failure, the
    /// current one as long as it works.
    pub open spec fn handout(self, now: Timestamp, clock: Duration) -> HandoutView {
        match self.current {
            Some(lease) if !lease.session.stale(now) => HandoutView::Ready(Ok(lease)),
            _ => if self.backing_off(clock) {
                HandoutView::Ready(self.without_renewal(now, self.backoff(clock)))
            } else {
                HandoutView::Renew
            },
        }
    }

    pub fn new() -> (r: SessionManager)
        ensures
            r.valid(),
            r == (SessionManager { current: None, last_failure: None, next_id: 0 }),
    {
        SessionManager { current: None, last_failure: None, next_id: 0 }
    }

    fn fall_back(&self, now: Timestamp, failure: Failure) -> (r: Result<Lease, Failure>)
        ensures
            outcome(r) == self.without_renewal(now, failure@),
    {
        match &self.current {
            Some(lease) => {
                if now.is_before(&lease.session.expires_at) {
                    Ok(lease.duplicate())
                } else {
                    Err(failure)
                }
            },
            None => Err(failure),
        }
    }

    /// Why zapp is not to be asked at `clock`, if it is not.
    fn renew(&self, clock: Duration) -> (r: Option<Failure>)
        requires
            self.valid(),
            clock.valid(),
        ensures
            match r {
                Some(failure) => self.backing_off(clock) && failure@ == self.backoff(clock),
                None => !self.backing_off(clock),
            },
    {
        match &self.last_failure {
            Some(at) => {
                let elapsed = clock.since(at);
                if elapsed.shorter_than(&Duration::from_secs(FAILURE_BACKOFF_SECS)) {
                    proof {
                        assert(elapsed.total() / 1_000_000_000 == elapsed.secs);
                    }
                    Some(backoff_failure(format_seconds(elapsed.secs).as_str()))
                } else {
                    None
                }
            },
            None => None,
        }
    }

    /// The current session, to be renewed first if stale. A stale-but-valid
    /// session is kept as fallback while zapp is unreachable, since it still
    /// works until it actually expires.
    pub fn session(&self, now: Timestamp, clock: Duration) -> (r: Handout)
        requires
            self.valid(),
            clock.valid(),
        ensures
            r@ == self.handout(now, clock),
    {
        match &self.current {
            Some(lease) => {
                if !lease.session.is_stale(now) {
                    return Handout::Ready(Ok(lease.duplicate()));
                }
            },
            None => {},
        }
        match self.renew(clock) {
            Some(failure) => Handout::Ready(self.fall_back(now, failure)),
            None => Handout::Renew,
        }
    }

    /// What is handed out after a renewal that was due at `now`.
    pub open spec fn after_renewal(
        self,
        now: Timestamp,
        result: Result<Session, Failure>,
    ) -> Result<
        Lease,
        FailureView,
    > {
        match result {
            Ok(session) => Ok(Lease { id: self.next_id, session }),
            Err(failure) => self.without_renewal(now, failure@),
        }
    }

    /// The manager once zapp was asked, at `clock`, and this came of it.
    pub open spec fn after_asking(
        self,
        clock: Duration,
        result: Result<Session, Failure>,
    ) -> SessionManager {
        match result {
            Ok(session) => SessionManager {
                current: Some(Lease { id: self.next_id, session }),
                last_failure: None,
                next_id: (self.next_id + 1) as u64,
            },
            Err(_) => SessionManager { last_failure: Some(clock), ..self },
        }
    }

    /// The manager once the session of that number is reported to be rejected.
    pub open spec fn after_rejection(self, id: u64) -> SessionManager {
        match self.current {
            Some(lease) if lease.id == id => SessionManager { current: None, ..self },
            _ => self,
        }
    }

    /// Takes what came of asking zapp, at `clock`, for the session that was
    /// due at `now`.
    pub fn renewed(
        &mut self,
        now: Timestamp,
        clock: Duration,
        result: Result<Session, Failure>,
    ) -> (r: Result<Lease, Failure>)
        requires
            old(self).valid(),
            clock.valid(),
            result matches Ok(session) ==> session.valid(),
            old(self).next_id < u64::MAX,
        ensures
            final(self).valid(),
            outcome(r) == old(self).after_renewal(now, result),
            *final(self) == old(self).after_asking(clock, result),
            match result {
                Ok(session) => *final(self) == (SessionManager {
                    current: Some(Lease { id: old(self).next_id, session }),
                    last_failure: None,
                    next_id: (old(self).next_id + 1) as u64,
                }),
                Err(_) => *final(self) == (SessionManager {
                    current: old(self).current,
                    last_failure: Some(clock),
                    next_id: old(self).next_id,
                }),
            },
    {
        match result {
            Ok(session) => {
                let lease = Lease { id: self.next_id, session };
                self.current = Some(lease.duplicate());
                self.last_failure = None;
                self.next_id = self.next_id + 1;
                Ok(lease)
            },
            Err(failure) => {
                self.last_failure = Some(clock);
                self.fall_back(now, failure)
            },
        }
    }

    /// Drops the session of that number if it is still the current one, so
    /// that the next call to [`Self::session`] asks zapp for a new
    /// credential. Called when Zitadel rejects the session's token, e.g.
    /// after zapp's garbage collection deactivated the service account.
    /// Tells whether it did.
    pub fn invalidate(&mut self, id: u64) -> (r: bool)
        ensures
            old(self).valid() ==> final(self).valid(),
            r == (old(self).current matches Some(lease) && lease.id == id),
            *final(self) == old(self).after_rejection(id),
            *final(self) == (SessionManager {
                current: if r {
                    None
                } else {
                    old(self).current
                },
                last_failure: old(self).last_failure,
                next_id: old(self).next_id,
            }),
    {
        let same = match &self.current {
            Some(lease) => lease.id == id,
            None => false,
        };
        if same {
            self.current = None;
        }
        same
    }

    /// Whether a usable session is at hand, for readiness.
    pub fn is_ready(&self, now: Timestamp) -> (r: bool)
        ensures
            r == (self.fallback(now) is Some),
    {
        match &self.current {
            Some(lease) => now.is_before(&lease.session.expires_at),
            None => false,
        }
    }
}

/// Ready once a Zitadel credential is at hand: the status and body of the
/// readiness endpoint's answer.
pub fn readyz(ready: bool) -> (r: (u16, &'static str))
    ensures
        ready ==> r.0 == 200 && r.1@ == "ok"@,
        !ready ==> r.0 == 503 && r.1@ == "no Zitadel credential"@,
{
    if ready {
        (200, "ok")
    } else {
        (503, "no Zitadel credential")
    }
}

// --- Laws

impl OpeningView {
    /// An upper bound on the steps that are still to be made.
    pub open spec fn steps_left(self) -> nat {
        match self {
            OpeningView::ReadToken => 7,
            OpeningView::Request(_, _) => 6,
            OpeningView::Parse(_) => 5,
            OpeningView::CreateKey(_, _) => 4,
            OpeningView::WriteKey(_, _) => 3,
            OpeningView::Authenticate(_) => 2,
            OpeningView::RemoveKey(_, _) => 1,
            OpeningView::DiscardKey(_) => 1,
            OpeningView::Done(_) => 0,
        }
    }
}

/// Opening a session comes to an end: every event brings it closer.
pub proof fn opening_ends(state: OpeningView, client: ZappClient, event: OpeningEvent)
    requires
        state.expects(event),
    ensures
        state.after(client, event).steps_left() < state.steps_left(),
{
}

/// No key is left behind: the key file comes into being only when it is
/// created, the only way on from there leads through its removal, and
/// whatever comes of the login, nothing looks at it before.
pub proof fn no_key_is_left_behind(state: OpeningView, client: ZappClient, event: OpeningEvent)
    requires
        state.expects(event),
    ensures
        !(OpeningView::ReadToken).key_on_disk(),
        !state.key_on_disk() && state.after(client, event).key_on_disk() ==> event
            matches OpeningEvent::KeyCreated(Ok(_)),
        event matches OpeningEvent::KeyCreated(Ok(_)) ==> state.after(client, event).key_on_disk(),
        state.key_on_disk() && !state.after(client, event).key_on_disk() ==> event is KeyRemoved,
        state is Authenticate ==> state.after(client, event) is RemoveKey,
        state.after(client, event) is Done ==> !state.key_on_disk() || event is KeyRemoved,
{
}

/// A session is opened only after a login that succeeded and with the key
/// file removed.
pub proof fn sessions_are_authenticated(
    state: OpeningView,
    client: ZappClient,
    event: OpeningEvent,
)
    requires
        state.expects(event),
        state.after(client, event) matches OpeningView::Done(Ok(_)),
    ensures
        state matches OpeningView::RemoveKey(_, Ok(_)),
        event matches OpeningEvent::KeyRemoved(Ok(_)),
{
}

/// A refusal by zapp can be told by its status and body, also by those who
/// ask for a session and have none to fall back to.
pub proof fn refusals_stay_typed(
    url: Seq<char>,
    token: Seq<char>,
    client: ZappClient,
    status: u16,
    body: String,
    manager: SessionManager,
    now: Timestamp,
    failure: Failure,
)
    requires
        !success(status),
        failure@.zapp == Some((status, body@)),
        manager.fallback(now) is None,
    ensures
        OpeningView::Request(url, token).after(
            client,
            OpeningEvent::Answered(Answer::Read(status, body)),
        ) matches OpeningView::Done(Err(refusal)) && refusal.zapp == Some((status, body@)),
        manager.after_renewal(now, Err(failure)) matches Err(refusal) && refusal.zapp == Some(
            (status, body@),
        ),
{
}

/// What is handed out without asking zapp still works, and it is the current
/// session.
pub proof fn sessions_handed_out_work(
    manager: SessionManager,
    now: Timestamp,
    clock: Duration,
    lease: Lease,
)
    requires
        manager.valid(),
        manager.handout(now, clock) == HandoutView::Ready(Ok(lease)),
    ensures
        manager.current == Some(lease),
        lease.session.usable(now),
{
}

/// A session that no longer works is stale, and what is stale stays so.
pub proof fn staleness_lasts(session: Session, now: Timestamp, later: Timestamp)
    requires
        session.valid(),
        !later.before(now),
    ensures
        !session.usable(now) ==> session.stale(now),
        session.stale(now) ==> session.stale(later),
{
}

/// An outage of zapp goes unnoticed for as long as the current session works:
/// a renewal that fails, or that is not even tried during the backoff, falls
/// back to it.
pub proof fn outages_go_unnoticed(
    manager: SessionManager,
    now: Timestamp,
    clock: Duration,
    failure: Failure,
)
    requires
        manager.valid(),
        manager.current matches Some(lease) && lease.session.usable(now),
    ensures
        manager.handout(now, clock) != HandoutView::Renew ==> manager.handout(now, clock)
            == HandoutView::Ready(Ok(manager.current->0)),
        manager.after_renewal(now, Err(failure)) == Ok::<Lease, FailureView>(manager.current->0),
{
}

/// The last third of a session's lifetime is there to bridge an outage: for
/// all of it the session is due for renewal and still works.
pub proof fn a_third_bridges_an_outage(session: Session, now: Timestamp)
    requires
        session.valid(),
        !session.issued_at.is_leap(),
        !session.expires_at.is_leap(),
        session.issued_at.before(session.expires_at),
        !now.before(renewal(session.issued_at, session.expires_at)),
        now.before(session.expires_at),
    ensures
        session.stale(now) && session.usable(now),
        3 * (session.expires_at.total() - renewal(
            session.issued_at,
            session.expires_at,
        ).total()) >= session.expires_at.total() - session.issued_at.total(),
{
    renewal_leaves_a_third(session.issued_at, session.expires_at);
}

/// zapp is not hammered: for thirty seconds after a failed renewal it is not
/// asked again, and afterwards it is.
pub proof fn failures_are_followed_by_a_backoff(
    manager: SessionManager,
    now: Timestamp,
    failed_at: Duration,
    clock: Duration,
)
    requires
        manager.valid(),
        manager.last_failure == Some(failed_at),
        failed_at.valid(),
        clock.valid(),
        clock.total() >= failed_at.total(),
        manager.current matches Some(lease) ==> lease.session.stale(now),
    ensures
        manager.handout(now, clock) == HandoutView::Renew <==> clock.total() - failed_at.total()
            >= FAILURE_BACKOFF_SECS * 1_000_000_000,
{
}

/// A rejected session is not handed out again: once it is invalidated, the
/// next request for a session asks zapp, or fails during the backoff; and
/// whatever session follows has another number.
pub proof fn rejected_sessions_are_replaced(
    manager: SessionManager,
    invalidated: SessionManager,
    now: Timestamp,
    clock: Duration,
    session: Session,
)
    requires
        manager.valid(),
        manager.current is Some,
        invalidated == (SessionManager {
            current: None,
            last_failure: manager.last_failure,
            next_id: manager.next_id,
        }),
    ensures
        invalidated.handout(now, clock) == HandoutView::Renew || invalidated.handout(now, clock)
            == HandoutView::Ready(Err(invalidated.backoff(clock))),
        invalidated.after_renewal(now, Ok(session)) matches Ok(lease) && lease.id
            != manager.current->0.id,
{
}

/// The issuer is the Zitadel URL without its trailing slashes, and has none.
pub proof fn issuers_have_no_trailing_slash(session: Session)
    ensures
        !ends_in(without_trailing(session.zitadel_url@, '/'), '/'),
        without_trailing(session.zitadel_url@, '/') == session.zitadel_url@.take(
            without_trailing(session.zitadel_url@, '/').len() as int,
        ),
{
    without_trailing_is_the_rest(session.zitadel_url@, '/');
}

/// The token that zapp is shown is what the token file holds but for the
/// whitespace around it. There is none exactly if the file cannot be read or
/// holds nothing but whitespace, and it is said which.
pub proof fn tokens_are_what_the_file_holds(
    token_file: Seq<char>,
    text: Seq<char>,
    failure: FailureView,
)
    ensures
        token_of(token_file, Err(failure)) == Err::<Seq<char>, FailureView>(
            in_context(failure, "reading token "@ + token_file),
        ),
        match token_of(token_file, Ok(text)) {
            Ok(token) => {
                &&& token.len() > 0
                &&& !whitespace(token.first()) && !whitespace(token.last())
                &&& exists|from: int, to: int|
                    {
                        &&& 0 <= from <= to <= text.len()
                        &&& token == #[trigger] text.subrange(from, to)
                        &&& forall|i: int|
                            0 <= i < from || to <= i < text.len() ==> whitespace(
                                #[trigger] text[i],
                            )
                    }
            },
            Err(e) => {
                &&& forall|i: int| 0 <= i < text.len() ==> whitespace(#[trigger] text[i])
                &&& e.http is None && e.zapp is None
                &&& e.chain == seq!["token "@ + token_file + " is empty"@]
            },
        },
{
    trimming_takes_whitespace_alone(text);
    blank_means_white(text);
}

/// Credentials are requested below the configured URL with the token that was
/// read, and nothing is requested without one.
pub proof fn credentials_are_requested_with_the_token(
    client: ZappClient,
    contents: Result<String, Failure>,
)
    ensures
        ({
            let next = OpeningView::ReadToken.after(client, OpeningEvent::Token(contents));
            let token = token_of(
                client.config.token_file@,
                match contents {
                    Ok(text) => Ok(text@),
                    Err(failure) => Err(failure@),
                },
            );
            match (token, joined_url(client.config.url@, "v1/credentials"@)) {
                (Ok(token), Ok(url)) => next == OpeningView::Request(url, token),
                (Err(failure), _) => next == OpeningView::Done(Err(failure)),
                (Ok(_), Err(words)) => next matches OpeningView::Done(Err(e)) && e.http is None
                    && e.zapp is None && e.chain == seq![words],
            }
        }),
{
}

/// zapp's answer is parsed exactly if its status is a success; what else can
/// come of the request ends the opening, and it is said what.
pub proof fn only_successful_answers_are_parsed(
    url: Seq<char>,
    token: Seq<char>,
    client: ZappClient,
    status: u16,
    body: String,
    failure: Failure,
)
    ensures
        ({
            let request = OpeningView::Request(url, token);
            let next = request.after(client, OpeningEvent::Answered(Answer::Read(status, body)));
            &&& next == OpeningView::Parse(body@) <==> 200 <= status < 300
            &&& !(200 <= status < 300) ==> (next matches OpeningView::Done(Err(e)) && e.zapp
                == Some((status, body@)) && e.http is None)
            &&& request.after(client, OpeningEvent::Answered(Answer::NotSent(failure)))
                == OpeningView::Done(
                Err(in_context(failure@, "requesting credentials from zapp"@)),
            )
            &&& request.after(client, OpeningEvent::Answered(Answer::NotRead(failure)))
                == OpeningView::Done(Err(in_context(failure@, "reading zapp response"@)))
        }),
{
}

/// The session that is opened is that of the credentials: their project, their
/// account and their expiry, at their Zitadel as the URL of a directory, and
/// issued when they were read. The key that is written is theirs.
pub proof fn sessions_are_those_of_the_credentials(
    body: Seq<char>,
    client: ZappClient,
    credentials: Credentials,
    now: Timestamp,
    failure: Failure,
)
    ensures
        ({
            let next = OpeningView::Parse(body).after(
                client,
                OpeningEvent::Parsed(Ok(credentials), now),
            );
            match directory(credentials.zitadel_url@) {
                Ok(url) => {
                    &&& next matches OpeningView::CreateKey(draft, key)
                    &&& key == credentials.key@
                    &&& draft.project_id == credentials.project_id@
                    &&& draft.username == credentials.username@
                    &&& draft.zitadel_url == url.before + url.path + url.after
                    &&& draft.issued_at == now
                    &&& draft.expires_at == credentials.expires_at
                },
                Err(e) => next == OpeningView::Done(Err(e)),
            }
        }),
        OpeningView::Parse(body).after(client, OpeningEvent::Parsed(Err(failure), now))
            == OpeningView::Done(Err(in_context(failure@, "parsing zapp response"@))),
{
}

/// The key goes through its file: it is created, written, used to log in and
/// removed. A failure ends the opening in the words of what failed, once the
/// file is gone; the login's comes last.
pub proof fn the_key_goes_through_its_file(
    client: ZappClient,
    draft: DraftView,
    key: Seq<char>,
    failure: Failure,
    login: Result<(), Failure>,
    removal: Result<(), Failure>,
    refused: FailureView,
)
    ensures
        OpeningView::CreateKey(draft, key).after(client, OpeningEvent::KeyCreated(Ok(())))
            == OpeningView::WriteKey(draft, key),
        OpeningView::CreateKey(draft, key).after(client, OpeningEvent::KeyCreated(Err(failure)))
            == OpeningView::Done(
            Err(in_context(failure@, "creating key file in "@ + client.config.key_dir@)),
        ),
        OpeningView::WriteKey(draft, key).after(client, OpeningEvent::KeyWritten(Ok(())))
            == OpeningView::Authenticate(draft),
        OpeningView::WriteKey(draft, key).after(client, OpeningEvent::KeyWritten(Err(failure)))
            == OpeningView::DiscardKey(in_context(failure@, "writing key file"@)),
        OpeningView::Authenticate(draft).after(client, OpeningEvent::LoggedIn(login))
            == OpeningView::RemoveKey(
            draft,
            match login {
                Ok(_) => Ok(()),
                Err(e) => Err(e@),
            },
        ),
        OpeningView::DiscardKey(refused).after(client, OpeningEvent::KeyRemoved(removal))
            == OpeningView::Done(Err(refused)),
        OpeningView::RemoveKey(draft, Ok(())).after(client, OpeningEvent::KeyRemoved(Err(failure)))
            == OpeningView::Done(Err(in_context(failure@, "removing key file"@))),
        OpeningView::RemoveKey(draft, Err(refused)).after(
            client,
            OpeningEvent::KeyRemoved(Err(failure)),
        ) == OpeningView::Done(Err(in_context(failure@, "removing key file"@))),
        OpeningView::RemoveKey(draft, Err(refused)).after(client, OpeningEvent::KeyRemoved(Ok(())))
            == OpeningView::Done(
            Err(
                in_context(
                    in_context(refused, "authenticating against Zitadel"@),
                    "authenticating against Zitadel at "@ + draft.zitadel_url,
                ),
            ),
        ),
        OpeningView::RemoveKey(draft, Ok(())).after(
            client,
            OpeningEvent::KeyRemoved(Ok(())),
        ) matches OpeningView::Done(Ok(session)) && {
            &&& session.zitadel == (draft.zitadel_url, draft.project_id)
            &&& session.project_id == draft.project_id
            &&& session.zitadel_url == draft.zitadel_url
            &&& session.username == draft.username
            &&& session.issued_at == draft.issued_at
            &&& session.expires_at == draft.expires_at
        },
{
}

/// Without a failure in the last thirty seconds, a session is handed out
/// exactly if it is there, has not expired and is not due for renewal;
/// otherwise zapp is asked. Within them zapp is never asked, and a session is
/// handed out exactly if it is there and has not expired.
pub proof fn sessions_are_handed_out_while_they_last(
    manager: SessionManager,
    now: Timestamp,
    clock: Duration,
)
    ensures
        ({
            let waiting = manager.last_failure is Some && clock.secs * 1_000_000_000 + clock.nanos
                < manager.last_failure->0.secs * 1_000_000_000 + manager.last_failure->0.nanos
                + 30 * 1_000_000_000;
            let works = manager.current is Some && now.before(
                manager.current->0.session.expires_at,
            );
            let fresh = works && now.before(
                renewal(
                    manager.current->0.session.issued_at,
                    manager.current->0.session.expires_at,
                ),
            );
            let handout = manager.handout(now, clock);
            &&& handout == HandoutView::Renew <==> !fresh && !waiting
            &&& fresh || (waiting && works) ==> handout == HandoutView::Ready(
                Ok(manager.current->0),
            )
            &&& waiting && !works ==> (handout matches HandoutView::Ready(Err(_)))
            &&& manager.fallback(now) == if works {
                manager.current
            } else {
                None
            }
        }),
{
}

/// During the backoff it is said how many whole seconds ago zapp failed.
pub proof fn the_backoff_says_how_long_ago_zapp_failed(
    manager: SessionManager,
    now: Timestamp,
    failed_at: Duration,
    clock: Duration,
    secs: nat,
)
    requires
        manager.last_failure == Some(failed_at),
        manager.current is None,
        secs < 30,
        secs * 1_000_000_000 <= clock.total() - failed_at.total() < (secs + 1) * 1_000_000_000,
    ensures
        manager.handout(now, clock) matches HandoutView::Ready(Err(e)) && {
            &&& e.http is None && e.zapp is None
            &&& e.chain == seq![
                "not asking zapp again yet: the last attempt failed "@ + (decimal(secs) + "s"@)
                    + " ago"@,
            ]
        },
{
    let nanos = clock.total() - failed_at.total();
    assert(nanos / 1_000_000_000 == secs);
}

/// What zapp sends replaces the session under a new number. If it sends none,
/// the session stays the one that is handed out for as long as it has not
/// expired; after that, it is said why.
pub proof fn renewals_replace_the_session(
    manager: SessionManager,
    now: Timestamp,
    session: Session,
    failure: Failure,
)
    ensures
        manager.after_renewal(now, Ok(session)) == Ok::<Lease, FailureView>(
            Lease { id: manager.next_id, session },
        ),
        manager.after_renewal(now, Err(failure)) == if manager.current is Some && now.before(
            manager.current->0.session.expires_at,
        ) {
            Ok::<Lease, FailureView>(manager.current->0)
        } else {
            Err::<Lease, FailureView>(failure@)
        },
{
}

/// Contracts speak of sessions and of their opening as they are.
pub proof fn openings_are_seen_as_they_are(
    opening: Opening,
    draft: Draft,
    session: Session,
    handout: Handout,
    text: Result<String, Failure>,
)
    ensures
        match opening {
            Opening::ReadToken => opening@ == OpeningView::ReadToken,
            Opening::Request(url, token) => opening@ == OpeningView::Request(url@, token@),
            Opening::Parse(body) => opening@ == OpeningView::Parse(body@),
            Opening::CreateKey(draft, key) => opening@ == OpeningView::CreateKey(draft@, key@),
            Opening::WriteKey(draft, key) => opening@ == OpeningView::WriteKey(draft@, key@),
            Opening::Authenticate(draft) => opening@ == OpeningView::Authenticate(draft@),
            Opening::RemoveKey(draft, Ok(_)) => opening@ == OpeningView::RemoveKey(draft@, Ok(())),
            Opening::RemoveKey(draft, Err(e)) => opening@ == OpeningView::RemoveKey(
                draft@,
                Err(e@),
            ),
            Opening::DiscardKey(failure) => opening@ == OpeningView::DiscardKey(failure@),
            Opening::Done(Ok(session)) => opening@ == OpeningView::Done(Ok(session@)),
            Opening::Done(Err(failure)) => opening@ == OpeningView::Done(Err(failure@)),
        },
        draft@.project_id == draft.project_id@,
        draft@.zitadel_url == draft.zitadel_url@,
        draft@.username == draft.username@,
        draft@.issued_at == draft.issued_at,
        draft@.expires_at == draft.expires_at,
        session@.zitadel == (session.zitadel.url@, session.zitadel.project_id@),
        session@.project_id == session.project_id@,
        session@.zitadel_url == session.zitadel_url@,
        session@.username == session.username@,
        session@.issued_at == session.issued_at,
        session@.expires_at == session.expires_at,
        match handout {
            Handout::Ready(Ok(lease)) => handout@ == HandoutView::Ready(Ok(lease)),
            Handout::Ready(Err(failure)) => handout@ == HandoutView::Ready(Err(failure@)),
            Handout::Renew => handout@ == HandoutView::Renew,
        },
        match text {
            Ok(text) => read_text(Ok(text)) == Ok::<Seq<char>, FailureView>(text@),
            Err(failure) => read_text(Err(failure)) == Err::<Seq<char>, FailureView>(failure@),
        },
{
}

/// What zapp sent is what is handed out from then on, at whatever clock, until
/// it is due for renewal; then zapp is asked again. Every session has a number
/// of its own. If zapp sent none, the session stays, and zapp is not asked for
/// thirty seconds.
pub proof fn what_zapp_sent_is_handed_out(
    manager: SessionManager,
    asked: Duration,
    session: Session,
    failure: Failure,
    now: Timestamp,
    clock: Duration,
)
    requires
        manager.next_id < u64::MAX,
    ensures
        ({
            let next = manager.after_asking(asked, Ok(session));
            let fresh = now.before(session.expires_at) && now.before(
                renewal(session.issued_at, session.expires_at),
            );
            &&& fresh ==> next.handout(now, clock) == HandoutView::Ready(
                Ok(Lease { id: manager.next_id, session }),
            )
            &&& !fresh ==> next.handout(now, clock) == HandoutView::Renew
            &&& next.next_id == manager.next_id + 1
        }),
        ({
            let next = manager.after_asking(asked, Err(failure));
            let fresh = manager.current is Some && now.before(
                manager.current->0.session.expires_at,
            ) && now.before(
                renewal(
                    manager.current->0.session.issued_at,
                    manager.current->0.session.expires_at,
                ),
            );
            &&& next.current == manager.current
            &&& next.next_id == manager.next_id
            &&& next.handout(now, clock) == HandoutView::Renew <==> !fresh && clock.secs
                * 1_000_000_000 + clock.nanos >= asked.secs * 1_000_000_000 + asked.nanos + 30
                * 1_000_000_000
        }),
{
}

/// A session that is reported to be rejected is not handed out again; a report
/// on any other changes nothing. The backoff goes on as before.
pub proof fn only_the_rejected_session_is_dropped(
    manager: SessionManager,
    id: u64,
    now: Timestamp,
    clock: Duration,
)
    ensures
        ({
            let next = manager.after_rejection(id);
            let dropped = manager.current is Some && manager.current->0.id == id;
            &&& dropped ==> !(next.handout(now, clock) matches HandoutView::Ready(Ok(_)))
            &&& !dropped ==> next == manager
            &&& next.last_failure == manager.last_failure
            &&& next.next_id == manager.next_id
        }),
{
}

} // verus!
