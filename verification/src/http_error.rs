//! The unified error of HTTP handlers: a status (or none, when the context
//! decides) and a JSON or HTML message.
use vstd::prelude::*;
use crate::status::{is_status_code, resolve_status, resolve_status_code, bad_request};

verus! {

/// serde_json's `Value`, carried through unchanged: the library never looks
/// inside a JSON message.
#[verifier::external_type_specification]
#[verifier::external_body]
pub struct ExJsonValue(serde_json::Value);

/// The message of an HTTP error: JSON data or an HTML string.
pub enum HttpErrorKind {
    Json(serde_json::Value),
    Html(String),
}

/// An HTTP error: an optional status code and a message. Without a status
/// code the error is answered with 400.
pub struct AnyHttpError(pub(crate) Option<u16>, pub(crate) HttpErrorKind);

/// A handler's result whose error is an [`AnyHttpError`].
pub type HttpResult<T> = Result<T, AnyHttpError>;

impl AnyHttpError {
    #[verifier::type_invariant]
    spec fn wf(self) -> bool {
        self.0 matches Some(code) ==> is_status_code(code as int)
    }

    /// The status code the error carries, if any.
    pub closed spec fn status_spec(self) -> Option<u16> {
        self.0
    }

    /// The message the error carries.
    pub closed spec fn kind_spec(self) -> HttpErrorKind {
        self.1
    }

    /// An error with the given status and message. A number that is not a
    /// status code (outside 100 to 999) becomes 400.
    pub fn new(code: u16, msg: HttpErrorKind) -> (r: Self)
        ensures
            r.status_spec() == Some(resolve_status(code)),
            100 <= code < 1000 ==> r.status_spec() == Some(code),
            !(100 <= code < 1000) ==> r.status_spec() == Some(400u16),
            r.kind_spec() == msg,
    {
        Self(Some(resolve_status_code(code)), msg)
    }

    /// An error with only a message; the status is left to the context.
    pub fn new_msg(msg: HttpErrorKind) -> (r: Self)
        ensures
            r.status_spec() == None::<u16>,
            r.kind_spec() == msg,
    {
        Self(None, msg)
    }

    /// The status code the error carries, if any.
    pub fn status(&self) -> (r: Option<u16>)
        ensures
            r == self.status_spec(),
    {
        self.0
    }

    /// The status the error is answered with: its own, or 400 when it has
    /// none.
    pub open spec fn response_status(self) -> u16 {
        match self.status_spec() {
            Some(code) => code,
            None => 400,
        }
    }

    /// Splits the error into what is written to the client: the status of
    /// the response and the message to render.
    pub fn into_response(self) -> (r: (u16, HttpErrorKind))
        ensures
            r.0 == self.response_status(),
            self.status_spec() matches Some(code) ==> r.0 == code,
            self.status_spec() is None ==> r.0 == 400,
            r.1 == self.kind_spec(),
            is_status_code(r.0 as int),
    {
        proof {
            use_type_invariant(&self);
        }
        let AnyHttpError(status, kind) = self;
        let code = match status {
            Some(code) => code,
            None => bad_request(),
        };
        (code, kind)
    }
}

/// An error is answered with exactly the status it carries, and with 400
/// when it carries none.
pub proof fn lemma_answered_with_own_status(e: AnyHttpError)
    ensures
        e.status_spec() matches Some(code) ==> e.response_status() == code,
        e.status_spec() is None ==> e.response_status() == 400,
{
}

/// An error built with a status code (100 to 999) is answered with that
/// code; one built with any other number is answered with 400.
pub proof fn lemma_built_status_is_answered(code: u16, e: AnyHttpError)
    requires
        e.status_spec() == Some(resolve_status(code)),
    ensures
        100 <= code < 1000 ==> e.response_status() == code,
        !(100 <= code < 1000) ==> e.response_status() == 400,
{
}

} // verus!
