//! Failures: what went wrong, innermost cause last, with the HTTP answer of
//! Zitadel or zapp kept typed so that callers can react to its status.

use vstd::prelude::*;
use vstd::string::*;

use crate::text::{
    contains, decimal, decimal_text, holds, join, joined, joining_goes_on, joining_in_front, opt_view,
    views,
};

verus! {

/// Credential not accepted.
pub const UNAUTHORIZED: u16 = 401;

/// The object is gone.
pub const NOT_FOUND: u16 = 404;

/// The object is already there.
pub const CONFLICT: u16 = 409;

/// The standard reason phrase of an HTTP status code, `None` for codes that
/// have none.
pub uninterp spec fn reason_phrase(status: u16) -> Option<Seq<char>>;

/// `StatusCode::canonical_reason` (of the `http` crate, re-exported by
/// `reqwest`) is a table from codes to phrases; a number that
/// `StatusCode::from_u16` rejects has no phrase.
#[verifier::external_body]
pub(crate) fn canonical_reason(status: u16) -> (r: Option<String>)
    ensures
        opt_view(r) == reason_phrase(status),
{
    match reqwest::StatusCode::from_u16(status) {
        Ok(code) => code.canonical_reason().map(|phrase| phrase.to_string()),
        Err(_) => None,
    }
}

/// How a status is written: the code and its reason phrase.
pub open spec fn status_line(status: u16) -> Seq<char> {
    status_line_with(status, reason_phrase(status))
}

/// How a status is written when its reason phrase is `phrase`.
pub open spec fn status_line_with(status: u16, phrase: Option<Seq<char>>) -> Seq<char> {
    decimal(status as nat) + " "@ + match phrase {
        Some(p) => p,
        None => "<unknown status code>"@,
    }
}

/// Whether a status is one of success: 200 to 299.
pub open spec fn success(status: u16) -> bool {
    200 <= status < 300
}

/// Whether a status is one of success.
pub fn is_success(status: u16) -> (r: bool)
    ensures
        r == success(status),
{
    200 <= status && status < 300
}

/// Writes a status given its reason phrase.
pub fn status_text_with(status: u16, phrase: Option<String>) -> (r: String)
    ensures
        r@ == status_line_with(status, opt_view(phrase)),
{
    let code = decimal_text(status as u64).concat(" ");
    match phrase {
        Some(p) => code.concat(p.as_str()),
        None => code.concat("<unknown status code>"),
    }
}

/// Writes a status, e.g. `404 Not Found`.
pub fn status_text(status: u16) -> (r: String)
    ensures
        r@ == status_line(status),
{
    let phrase = canonical_reason(status);
    status_text_with(status, phrase)
}

/// A non-success answer from Zitadel, kept typed so callers can react to
/// specific statuses.
#[derive(Debug)]
pub struct HttpError {
    pub status: u16,
    pub body: String,
}

impl HttpError {
    /// The error in words.
    pub open spec fn words(self) -> Seq<char> {
        "Zitadel answered "@ + status_line(self.status) + ": "@ + self.body@
    }

    /// The error in words.
    pub fn message(&self) -> (r: String)
        ensures
            r@ == self.words(),
    {
        "Zitadel answered ".to_owned().concat(status_text(self.status).as_str()).concat(
            ": ",
        ).concat(self.body.as_str())
    }
}

/// A non-success answer from zapp, kept typed like one from Zitadel.
#[derive(Debug)]
pub struct ZappError {
    pub status: u16,
    pub body: String,
}

impl ZappError {
    /// The error in words.
    pub open spec fn words(self) -> Seq<char> {
        "zapp answered "@ + status_line(self.status) + ": "@ + self.body@
    }

    /// The error in words.
    pub fn message(&self) -> (r: String)
        ensures
            r@ == self.words(),
    {
        "zapp answered ".to_owned().concat(status_text(self.status).as_str()).concat(": ").concat(
            self.body.as_str(),
        )
    }
}

/// A failure as seen by contracts.
#[verifier::ext_equal]
pub struct FailureView {
    /// Status and body of Zitadel's answer, if that is what failed.
    pub http: Option<(u16, Seq<char>)>,
    /// Status and body of zapp's answer, if that is what failed.
    pub zapp: Option<(u16, Seq<char>)>,
    /// What failed, outermost context first, root cause last.
    pub chain: Seq<Seq<char>>,
}

impl FailureView {
    /// A failure with a message and no further cause.
    pub open spec fn saying(text: Seq<char>) -> FailureView {
        FailureView { http: None, zapp: None, chain: seq![text] }
    }

    /// The failure of a call that Zitadel answered with a non-success
    /// status.
    pub open spec fn answered(status: u16, body: Seq<char>) -> FailureView {
        FailureView {
            http: Some((status, body)),
            zapp: None,
            chain: seq!["Zitadel answered "@ + status_line(status) + ": "@ + body],
        }
    }

    /// The failure of a call that zapp answered with a non-success status.
    pub open spec fn refused(status: u16, body: Seq<char>) -> FailureView {
        FailureView {
            http: None,
            zapp: Some((status, body)),
            chain: seq!["zapp answered "@ + status_line(status) + ": "@ + body],
        }
    }

    /// The failure with `text` put in front as context.
    pub open spec fn within(self, text: Seq<char>) -> FailureView {
        FailureView { http: self.http, zapp: self.zapp, chain: seq![text] + self.chain }
    }

    /// The whole failure on one line.
    pub open spec fn line(self) -> Seq<char> {
        joined(self.chain, ": "@)
    }

    /// Whether the failure is an answer of Zitadel with this status.
    pub open spec fn has_status(self, status: u16) -> bool {
        match self.http {
            Some(answer) => answer.0 == status,
            None => false,
        }
    }

    /// Whether some message of the failure holds `part`.
    pub open spec fn mentions(self, part: Seq<char>) -> bool {
        exists|i: int| 0 <= i < self.chain.len() && #[trigger] holds(self.chain[i], part)
    }

    /// Whether the failure means that Zitadel no longer accepts the
    /// credential: a typed answer decides by its status alone, anything else
    /// by the words in which the client library reports it.
    pub open spec fn is_auth(self) -> bool {
        match self.http {
            Some(answer) => answer.0 == UNAUTHORIZED,
            None => self.mentions("401 Unauthorized"@) || self.mentions("Errors.Token.Invalid"@),
        }
    }
}

/// Something that went wrong.
#[derive(Debug)]
pub struct Failure {
    /// Zitadel's answer, if that is what failed.
    pub http: Option<HttpError>,
    /// zapp's answer, if that is what failed.
    pub zapp: Option<ZappError>,
    /// What failed, outermost context first, root cause last.
    pub chain: Vec<String>,
}

impl View for Failure {
    type V = FailureView;

    open spec fn view(&self) -> FailureView {
        FailureView {
            http: match self.http {
                Some(e) => Some((e.status, e.body@)),
                None => None,
            },
            zapp: match self.zapp {
                Some(e) => Some((e.status, e.body@)),
                None => None,
            },
            chain: views(self.chain@),
        }
    }
}

impl Failure {
    /// A failure with a message and no further cause.
    pub fn new(text: String) -> (r: Failure)
        ensures
            r@ == FailureView::saying(text@),
    {
        let ghost t = text@;
        let mut chain: Vec<String> = Vec::new();
        chain.push(text);
        proof {
            assert(views(chain@) =~= seq![t]);
        }
        Failure { http: None, zapp: None, chain }
    }

    /// The failure of a call that Zitadel answered with a non-success
    /// status.
    pub fn answered(error: HttpError) -> (r: Failure)
        ensures
            r@ == FailureView::answered(error.status, error.body@),
    {
        let text = error.message();
        let ghost t = text@;
        let mut chain: Vec<String> = Vec::new();
        chain.push(text);
        proof {
            assert(views(chain@) =~= seq![t]);
        }
        Failure { http: Some(error), zapp: None, chain }
    }

    /// The failure of a call that zapp answered with a non-success status.
    pub fn refused(error: ZappError) -> (r: Failure)
        ensures
            r@ == FailureView::refused(error.status, error.body@),
    {
        let text = error.message();
        let ghost t = text@;
        let mut chain: Vec<String> = Vec::new();
        chain.push(text);
        proof {
            assert(views(chain@) =~= seq![t]);
        }
        Failure { http: None, zapp: Some(error), chain }
    }

    /// Puts `text` in front as context.
    pub fn context(self, text: &str) -> (r: Failure)
        ensures
            r@ == self@.within(text@),
    {
        let mut chain = self.chain;
        let ghost before = chain@;
        chain.insert(0, text.to_owned());
        proof {
            assert(views(chain@) =~= seq![text@] + views(before));
        }
        Failure { http: self.http, zapp: self.zapp, chain }
    }

    /// The whole failure on one line.
    pub fn text(&self) -> (r: String)
        ensures
            r@ == self@.line(),
    {
        join(&self.chain, ": ")
    }

    /// Whether the failure is an answer of Zitadel with this status.
    pub fn has_status(&self, status: u16) -> (r: bool)
        ensures
            r == self@.has_status(status),
    {
        match &self.http {
            Some(e) => e.status == status,
            None => false,
        }
    }

    fn mentions(&self, part: &str) -> (r: bool)
        ensures
            r == self@.mentions(part@),
    {
        let mut i: usize = 0;
        while i < self.chain.len()
            invariant
                i <= self.chain@.len(),
                forall|j: int| 0 <= j < i ==> !#[trigger] holds(self@.chain[j], part@),
            decreases self.chain@.len() - i,
        {
            if contains(self.chain[i].as_str(), part) {
                assert(holds(self@.chain[i as int], part@));
                return true;
            }
            i = i + 1;
        }
        false
    }
}

/// Whether a failure means that the credential is no longer accepted and a
/// new one should be requested from zapp.
pub fn is_auth_error(failure: &Failure) -> (r: bool)
    ensures
        r == failure@.is_auth(),
{
    match &failure.http {
        Some(e) => e.status == UNAUTHORIZED,
        None => failure.mentions("401 Unauthorized") || failure.mentions("Errors.Token.Invalid"),
    }
}

/// The outcome of fallible work as seen by contracts.
pub open spec fn outcome<T>(result: Result<T, Failure>) -> Result<T, FailureView> {
    match result {
        Ok(value) => Ok(value),
        Err(failure) => Err(failure@),
    }
}

// --- Laws

/// Context never changes what a failure is about: neither its HTTP status
/// nor whether it is an answer at all, of Zitadel or of zapp.
pub proof fn context_keeps_the_status(failure: FailureView, text: Seq<char>, status: u16)
    ensures
        failure.within(text).http == failure.http,
        failure.within(text).zapp == failure.zapp,
        failure.within(text).has_status(status) == failure.has_status(status),
        failure.http is Some ==> failure.within(text).is_auth() == failure.is_auth(),
{
}

/// A failure that was recognised as an authentication failure still is one
/// under any context.
pub proof fn context_keeps_auth_errors(failure: FailureView, text: Seq<char>)
    requires
        failure.is_auth(),
    ensures
        failure.within(text).is_auth(),
{
    let wider = failure.within(text);
    if failure.http is None {
        assert forall|part: Seq<char>| failure.mentions(part) implies wider.mentions(part) by {
            let i = choose|i: int|
                0 <= i < failure.chain.len() && #[trigger] holds(failure.chain[i], part);
            assert(wider.chain[i + 1] == failure.chain[i]);
            assert(holds(wider.chain[i + 1], part));
        }
    }
}

/// Whether a credential was rejected is told by Zitadel's answer alone where
/// there is one: status 401, and no other. Where there is none, it is told by
/// the words of some message.
pub proof fn rejections_are_told_apart(failure: FailureView, status: u16)
    ensures
        failure.http matches Some(answer) ==> failure.is_auth() == (answer.0 == 401),
        failure.http is None ==> (failure.is_auth() <==> exists|i: int|
            0 <= i < failure.chain.len() && (holds(#[trigger] failure.chain[i], "401 Unauthorized"@)
                || holds(failure.chain[i], "Errors.Token.Invalid"@))),
        failure.has_status(status) <==> (failure.http matches Some(answer) && answer.0 == status),
{
    if failure.http is None {
        if failure.is_auth() {
            let part = if failure.mentions("401 Unauthorized"@) {
                "401 Unauthorized"@
            } else {
                "Errors.Token.Invalid"@
            };
            assert(failure.mentions(part));
            let i = choose|i: int|
                0 <= i < failure.chain.len() && #[trigger] holds(failure.chain[i], part);
            assert(holds(failure.chain[i], part));
        }
        if exists|i: int|
            0 <= i < failure.chain.len() && (holds(#[trigger] failure.chain[i], "401 Unauthorized"@)
                || holds(failure.chain[i], "Errors.Token.Invalid"@)) {
            let i = choose|i: int|
                0 <= i < failure.chain.len() && (holds(
                    #[trigger] failure.chain[i],
                    "401 Unauthorized"@,
                ) || holds(failure.chain[i], "Errors.Token.Invalid"@));
            assert(failure.mentions("401 Unauthorized"@) || failure.mentions(
                "Errors.Token.Invalid"@,
            ));
        }
    }
}

/// A failure in the context of `text`: with these words in front, and otherwise
/// what it was.
pub open spec fn in_context(failure: FailureView, text: Seq<char>) -> FailureView {
    FailureView { http: failure.http, zapp: failure.zapp, chain: seq![text] + failure.chain }
}

/// A failure reads from the outside in: each context, a colon, and what it is
/// the context of. Context changes nothing else of a failure.
pub proof fn failures_read_from_the_outside_in(failure: FailureView, text: Seq<char>)
    ensures
        FailureView::saying(text).line() == text,
        FailureView::saying(text).http is None,
        FailureView::saying(text).zapp is None,
        failure.within(text).http == failure.http,
        failure.within(text).zapp == failure.zapp,
        failure.within(text) == in_context(failure, text),
        failure.within(text).chain.len() == failure.chain.len() + 1,
        failure.chain.len() > 0 ==> failure.within(text).line() == text + ": "@ + failure.line(),
{
    joining_goes_on(Seq::empty(), text, ": "@);
    if failure.chain.len() > 0 {
        joining_in_front(failure.chain, text, ": "@);
    }
}

/// An answer that is no success is kept with its status and body, and says who
/// answered what.
pub proof fn answers_are_kept_and_told(
    status: u16,
    body: Seq<char>,
    phrase: Option<Seq<char>>,
    error: HttpError,
    refusal: ZappError,
)
    ensures
        ({
            let code = match reason_phrase(status) {
                Some(phrase) => decimal(status as nat) + " "@ + phrase,
                None => decimal(status as nat) + " "@ + "<unknown status code>"@,
            };
            let answered = FailureView::answered(status, body);
            let refused = FailureView::refused(status, body);
            &&& answered.http == Some((status, body)) && answered.zapp is None
            &&& answered.line() == "Zitadel answered "@ + code + ": "@ + body
            &&& refused.zapp == Some((status, body)) && refused.http is None
            &&& refused.line() == "zapp answered "@ + code + ": "@ + body
        }),
        error.words() == FailureView::answered(error.status, error.body@).line(),
        refusal.words() == FailureView::refused(refusal.status, refusal.body@).line(),
        status_line_with(status, phrase) == decimal(status as nat) + " "@ + match phrase {
            Some(phrase) => phrase,
            None => "<unknown status code>"@,
        },
        success(status) <==> status / 100 == 2,
{
    joining_goes_on(Seq::empty(), FailureView::answered(status, body).chain[0], ": "@);
    joining_goes_on(Seq::empty(), FailureView::refused(status, body).chain[0], ": "@);
    joining_goes_on(Seq::empty(), error.words(), ": "@);
    joining_goes_on(Seq::empty(), refusal.words(), ": "@);
    assert(FailureView::answered(status, body).chain =~= seq![
        FailureView::answered(status, body).chain[0],
    ]);
}

/// Contracts speak of failures as they are: of the answers that they hold and
/// of every message.
pub proof fn failures_are_seen_as_they_are(failure: Failure)
    ensures
        failure@.http == match failure.http {
            Some(answer) => Some((answer.status, answer.body@)),
            None => None,
        },
        failure@.zapp == match failure.zapp {
            Some(answer) => Some((answer.status, answer.body@)),
            None => None,
        },
        failure@.chain.len() == failure.chain@.len(),
        forall|i: int|
            0 <= i < failure.chain@.len() ==> #[trigger] failure@.chain[i] == failure.chain@[i]@,
{
}

/// What came of fallible work is what contracts say came of it.
pub proof fn outcomes_are_what_they_are<T>(value: T, failure: Failure)
    ensures
        outcome(Ok::<T, Failure>(value)) == Ok::<T, FailureView>(value),
        outcome(Err::<T, Failure>(failure)) == Err::<T, FailureView>(failure@),
{
}

} // verus!
