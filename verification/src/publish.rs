//! The newsletter-publish pipeline: its request body, its error taxonomy,
//! and the dispatch state machine that fans an issue out to subscribers.

use vstd::prelude::*;
use vstd::string::*;

use crate::basic_auth::{basic_authentication, spec_extract, spec_header_bytes, BasicAuthError, Credentials};
use crate::email::SubscriberEmail;
use crate::subscribers::{ConfirmedSubscriber, RowError};

verus! {

/// The HTML and plain-text renderings of one newsletter issue.
pub struct Content {
    pub html: String,
    pub text: String,
}

/// The JSON body accepted by the publish endpoint.
pub struct BodyData {
    pub title: String,
    pub content: Content,
}

/// Why authentication failed. Unknown usernames and wrong passwords share
/// one variant, so the error never reveals whether a username exists.
#[derive(Debug, PartialEq, Eq)]
pub enum AuthCause {
    /// The `Authorization` header could not be parsed as Basic credentials.
    Header(BasicAuthError),
    /// The username/password pair was not accepted.
    InvalidCredentials,
}

/// Why the request failed for a reason other than authentication.
#[derive(Debug, PartialEq, Eq)]
pub enum UnexpectedCause {
    /// A stored password hash is not a well-formed PHC string.
    BadPasswordHash,
    /// The query for stored credentials failed.
    CredentialsLookupFailed,
    /// The query for confirmed subscribers failed.
    SubscriberQueryFailed,
    /// Sending the issue to this subscriber failed.
    SendFailed(SubscriberEmail),
}

/// The error of the publish endpoint: authentication failures answer with
/// a challenge, everything else is an internal error.
#[derive(Debug, PartialEq, Eq)]
pub enum PublishError {
    AuthError(AuthCause),
    UnexpectedError(UnexpectedCause),
}

impl AuthCause {
    /// The human-readable description of the cause. Unknown usernames and
    /// wrong passwords share one description.
    pub open spec fn spec_message(&self) -> Seq<char> {
        match self {
            AuthCause::Header(e) => e.spec_message(),
            AuthCause::InvalidCredentials => "Invalid username or password."@,
        }
    }

    /// Describes the cause, as [`Self::spec_message`] states it.
    pub fn message(&self) -> (r: &'static str)
        ensures
            r@ == self.spec_message(),
    {
        match self {
            AuthCause::Header(e) => e.message(),
            AuthCause::InvalidCredentials => "Invalid username or password.",
        }
    }
}

impl UnexpectedCause {
    /// The human-readable description of the cause; a failed send names
    /// its recipient.
    pub open spec fn spec_message(&self) -> Seq<char> {
        match self {
            UnexpectedCause::BadPasswordHash => "Failed to parse hash in PHC string format."@,
            UnexpectedCause::CredentialsLookupFailed => "Failed to perform a query to retrieve stored credentials."@,
            UnexpectedCause::SubscriberQueryFailed => "Failed to fetch the list of confirmed subscribers."@,
            UnexpectedCause::SendFailed(email) => "Failed to send newsletter issue to "@ + email@,
        }
    }

    /// Describes the cause, as [`Self::spec_message`] states it.
    pub fn message(&self) -> (r: String)
        ensures
            r@ == self.spec_message(),
    {
        match self {
            UnexpectedCause::BadPasswordHash => String::from_str("Failed to parse hash in PHC string format."),
            UnexpectedCause::CredentialsLookupFailed => String::from_str(
                "Failed to perform a query to retrieve stored credentials.",
            ),
            UnexpectedCause::SubscriberQueryFailed => String::from_str(
                "Failed to fetch the list of confirmed subscribers.",
            ),
            UnexpectedCause::SendFailed(email) => {
                let mut s = String::from_str("Failed to send newsletter issue to ");
                s.append(email.as_str());
                s
            },
        }
    }
}

impl PublishError {
    /// The HTTP status the error maps to.
    pub open spec fn spec_status_code(&self) -> u16 {
        match self {
            PublishError::AuthError(_) => 401,
            PublishError::UnexpectedError(_) => 500,
        }
    }

    /// Authentication failures answer 401, everything else 500.
    pub fn status_code(&self) -> (r: u16)
        ensures
            r == self.spec_status_code(),
    {
        match self {
            PublishError::AuthError(_) => 401,
            PublishError::UnexpectedError(_) => 500,
        }
    }

    /// The error rendered together with its chain of causes: an
    /// authentication failure states its cause on a `Caused by:` line,
    /// while an unexpected failure is transparent about its cause.
    pub open spec fn spec_error_chain(&self) -> Seq<char> {
        match self {
            PublishError::AuthError(cause) => "Authentication failed."@ + "\nCaused by:\n\t"@
                + cause.spec_message(),
            PublishError::UnexpectedError(cause) => cause.spec_message(),
        }
    }

    /// Renders the error and its full chain of causes, as
    /// [`Self::spec_error_chain`] states it.
    pub fn error_chain(&self) -> (r: String)
        ensures
            r@ == self.spec_error_chain(),
    {
        match self {
            PublishError::AuthError(cause) => {
                let mut s = String::from_str("Authentication failed.");
                s.append("\nCaused by:\n\t");
                s.append(cause.message());
                s
            },
            PublishError::UnexpectedError(cause) => cause.message(),
        }
    }
}

/// The challenge attached to every 401 answer of the publish endpoint.
pub open spec fn spec_www_authenticate() -> Seq<char> {
    "Basic realm=\"publish\""@
}

/// The value of the `WWW-Authenticate` header on a 401 answer.
pub fn www_authenticate_value() -> (r: &'static str)
    ensures
        r@ == spec_www_authenticate(),
{
    "Basic realm=\"publish\""
}

/// The outcome of the authentication step on a given header: extracted
/// credentials, or the extraction failure folded into the publish error.
pub open spec fn spec_authorize(header: Option<Seq<u8>>) -> Result<(Seq<char>, Seq<char>), PublishError> {
    match spec_extract(header) {
        Ok(c) => Ok(c),
        Err(e) => Err(PublishError::AuthError(AuthCause::Header(e))),
    }
}

/// First step of the publish pipeline: extract Basic credentials from the
/// `Authorization` header, folding any extraction failure into an
/// authentication error.
pub fn authorize(header: Option<Vec<u8>>) -> (r: Result<Credentials, PublishError>)
    ensures
        match r {
            Ok(c) => spec_authorize(spec_header_bytes(header)) == Ok::<(Seq<char>, Seq<char>), PublishError>((c.username@, c.password@)),
            Err(e) => spec_authorize(spec_header_bytes(header)) == Err::<(Seq<char>, Seq<char>), PublishError>(e),
        },
{
    match basic_authentication(header) {
        Ok(c) => Ok(c),
        Err(e) => Err(PublishError::AuthError(AuthCause::Header(e))),
    }
}

/// Law: whatever the `Authorization` header holds, a failed credential
/// extraction surfaces as an authentication failure — never as an
/// unexpected error.
pub proof fn lemma_extract_failure_is_auth_error(header: Option<Seq<u8>>)
    ensures
        match spec_authorize(header) {
            Err(e) => e is AuthError,
            Ok(_) => spec_extract(header) is Ok,
        },
{
}

/// The addresses of the rows that parsed, in source order; malformed rows
/// contribute nothing.
pub open spec fn spec_valid_emails(rows: Seq<Result<ConfirmedSubscriber, RowError>>) -> Seq<Seq<char>>
    decreases rows.len(),
{
    if rows.len() == 0 {
        Seq::empty()
    } else {
        let rest = spec_valid_emails(rows.drop_first());
        match rows[0] {
            Ok(cs) => seq![cs.email@] + rest,
            Err(_) => rest,
        }
    }
}

/// The dispatch step of the publish pipeline, driven by the caller:
/// it hands out one recipient at a time and is told how each send went.
/// Malformed rows were already skipped when the plan was built; a send
/// failure stops dispatching, so recipients after it are never attempted.
pub struct NewsletterDispatch {
    recipients: Vec<SubscriberEmail>,
    next: usize,
    failed: bool,
}

impl NewsletterDispatch {
    /// The addresses to send to, in source order.
    pub closed spec fn recipients(&self) -> Seq<Seq<char>> {
        Seq::new(self.recipients@.len(), |i: int| self.recipients@[i]@)
    }

    /// How many sends have succeeded so far.
    pub closed spec fn sent(&self) -> int {
        self.next as int
    }

    /// Whether a send has failed.
    pub closed spec fn has_failed(&self) -> bool {
        self.failed
    }

    /// The machine's invariant: successes never outnumber recipients, and
    /// a failure always names a recipient still in range.
    pub open spec fn wf(&self) -> bool {
        &&& self.sent() <= self.recipients().len()
        &&& (self.has_failed() ==> self.sent() < self.recipients().len())
    }

    /// A recipient is waiting and no send has failed.
    pub open spec fn in_progress(&self) -> bool {
        !self.has_failed() && self.sent() < self.recipients().len()
    }

    /// Dispatching is over: every recipient was sent to, or a send failed.
    pub open spec fn done(&self) -> bool {
        self.has_failed() || self.sent() == self.recipients().len()
    }

    /// How many sends were attempted: every success plus the one failed
    /// attempt, if any.
    pub open spec fn spec_attempts(&self) -> int {
        self.sent() + if self.has_failed() {
            1int
        } else {
            0int
        }
    }

    /// Builds the dispatch plan from the parsed rows: the valid addresses
    /// in source order. Malformed rows are skipped here and never fail
    /// the request.
    #[verifier::loop_isolation(false)]
    pub fn new(rows: Vec<Result<ConfirmedSubscriber, RowError>>) -> (d: NewsletterDispatch)
        ensures
            d.wf(),
            d.recipients() == spec_valid_emails(rows@),
            d.sent() == 0,
            !d.has_failed(),
    {
        let mut recipients: Vec<SubscriberEmail> = Vec::new();
        let n = rows.len();
        let mut idx: usize = 0;
        proof {
            assert(rows@.skip(0) =~= rows@);
            assert(Seq::new(recipients@.len(), |i: int| recipients@[i]@) + spec_valid_emails(rows@)
                =~= spec_valid_emails(rows@));
        }
        while idx < n
            invariant
                idx <= n,
                spec_valid_emails(rows@) =~= Seq::new(recipients@.len(), |i: int| recipients@[i]@)
                    + spec_valid_emails(rows@.skip(idx as int)),
            decreases n - idx,
        {
            proof {
                assert(rows@.skip(idx as int).drop_first() =~= rows@.skip(idx as int + 1));
                assert(rows@.skip(idx as int)[0] == rows@[idx as int]);
            }
            match &rows[idx] {
                Ok(cs) => {
                    recipients.push(cs.email.clone());
                },
                Err(_) => {},
            }
            proof {
                assert(spec_valid_emails(rows@) =~= Seq::new(recipients@.len(), |i: int| recipients@[i]@)
                    + spec_valid_emails(rows@.skip(idx as int + 1)));
            }
            idx += 1;
        }
        proof {
            assert(rows@.skip(n as int) =~= Seq::<Result<ConfirmedSubscriber, RowError>>::empty());
        }
        let d = NewsletterDispatch { recipients, next: 0, failed: false };
        proof {
            assert(d.recipients() =~= spec_valid_emails(rows@));
        }
        d
    }

    /// The next recipient to send to, or `None` once dispatching is done —
    /// after a send failure no further recipient is offered.
    pub fn next_recipient(&self) -> (r: Option<&SubscriberEmail>)
        requires
            self.wf(),
        ensures
            match r {
                Some(email) => self.in_progress() && email@ == self.recipients()[self.sent()],
                None => self.done(),
            },
    {
        if self.failed || self.next >= self.recipients.len() {
            None
        } else {
            Some(&self.recipients[self.next])
        }
    }

    /// Records that the send to the current recipient succeeded.
    pub fn record_success(&mut self)
        requires
            old(self).wf(),
            old(self).in_progress(),
        ensures
            final(self).wf(),
            final(self).recipients() == old(self).recipients(),
            final(self).sent() == old(self).sent() + 1,
            !final(self).has_failed(),
    {
        proof {
            vstd::std_specs::vec::axiom_spec_len(&self.recipients);
        }
        self.next += 1;
    }

    /// Records that the send to the current recipient failed: dispatching
    /// stops, and the recipient is kept to name it in the outcome.
    pub fn record_failure(&mut self)
        requires
            old(self).wf(),
            old(self).in_progress(),
        ensures
            final(self).wf(),
            final(self).recipients() == old(self).recipients(),
            final(self).sent() == old(self).sent(),
            final(self).has_failed(),
            final(self).done(),
    {
        self.failed = true;
    }

    /// How many sends were attempted so far.
    pub fn attempts(&self) -> (r: usize)
        requires
            self.wf(),
        ensures
            r == self.spec_attempts(),
    {
        proof {
            vstd::std_specs::vec::axiom_spec_len(&self.recipients);
        }
        if self.failed {
            self.next + 1
        } else {
            self.next
        }
    }

    /// The outcome once dispatching is done: success after every recipient
    /// was sent to, or the error naming the recipient whose send failed.
    pub fn outcome(&self) -> (r: Result<(), PublishError>)
        requires
            self.wf(),
            self.done(),
        ensures
            match r {
                Ok(()) => !self.has_failed() && self.sent() == self.recipients().len(),
                Err(e) => {
                    &&& self.has_failed()
                    &&& match e {
                        PublishError::UnexpectedError(UnexpectedCause::SendFailed(email)) => email@
                            == self.recipients()[self.sent()],
                        _ => false,
                    }
                },
            },
    {
        if self.failed {
            Err(PublishError::UnexpectedError(UnexpectedCause::SendFailed(self.recipients[self.next].clone())))
        } else {
            Ok(())
        }
    }
}

} // verus!
