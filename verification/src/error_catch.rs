//! Errors of the routes that always carry a status, and the conversions of
//! an `Option` or a `Result` into such an error.
use vstd::prelude::*;
use vstd::string::to_string_from_display_ensures;
use crate::status::{is_status_code, resolve_status, resolve_status_code};

verus! {

/// The message of an HTTP error: JSON data or an HTML string.
pub enum HttpErrorKind {
    Json(serde_json::Value),
    Html(String),
}

/// An HTTP error with its status code and message.
pub struct AnyHttpError(u16, HttpErrorKind);

/// A result whose error is an [`AnyHttpError`].
pub type AnyResult<T> = Result<T, AnyHttpError>;

/// The error that `AnyHttpError::new(code, msg)` builds.
pub open spec fn spec_error(code: u16, msg: HttpErrorKind) -> (u16, HttpErrorKind) {
    (resolve_status(code), msg)
}

impl AnyHttpError {
    #[verifier::type_invariant]
    spec fn wf(self) -> bool {
        is_status_code(self.0 as int)
    }

    /// The status code and the message of the error.
    pub closed spec fn parts(self) -> (u16, HttpErrorKind) {
        (self.0, self.1)
    }

    /// An error with the given status and message. A number that is not a
    /// status code (outside 100 to 999) becomes 400.
    pub fn new(code: u16, msg: HttpErrorKind) -> (r: Self)
        ensures
            r.parts() == spec_error(code, msg),
            100 <= code < 1000 ==> r.parts().0 == code,
            !(100 <= code < 1000) ==> r.parts().0 == 400,
            r.parts().1 == msg,
    {
        Self(resolve_status_code(code), msg)
    }

    /// The status code of the error.
    pub fn status(&self) -> (r: u16)
        ensures
            r == self.parts().0,
            is_status_code(r as int),
    {
        proof {
            use_type_invariant(self);
        }
        self.0
    }

    /// Splits the error into the status of the response and the message to
    /// render.
    pub fn into_response(self) -> (r: (u16, HttpErrorKind))
        ensures
            r == self.parts(),
            is_status_code(r.0 as int),
    {
        proof {
            use_type_invariant(&self);
        }
        let AnyHttpError(code, kind) = self;
        (code, kind)
    }
}

/// A requested status code (100 to 999) is kept as the error's status; any
/// other number gives 400; the message is kept as given.
pub proof fn lemma_error_keeps_requested_status(code: u16, msg: HttpErrorKind)
    ensures
        100 <= code < 1000 ==> spec_error(code, msg).0 == code,
        !(100 <= code < 1000) ==> spec_error(code, msg).0 == 400,
        spec_error(code, msg).1 == msg,
{
}

/// Turns an absent value into an HTTP error built from what `f` returns.
pub trait Option2AnyHttpResult {
    type Output;

    /// Whether the value is absent, so that the error is built.
    spec fn is_absent(&self) -> bool;

    fn to_result<F: FnMut() -> (u16, HttpErrorKind)>(self, f: F) -> Result<
        Self::Output,
        AnyHttpError,
    >
        requires
            self.is_absent() ==> call_requires(f, ()),
    ;
}

impl<T> Option2AnyHttpResult for Option<T> {
    type Output = T;

    open spec fn is_absent(&self) -> bool {
        self is None
    }

    /// `Some(v)` gives `Ok(v)`; `None` gives the error built from the code
    /// and message that `f` returns, `f` being called once.
    fn to_result<F: FnMut() -> (u16, HttpErrorKind)>(self, f: F) -> (r: Result<T, AnyHttpError>)
        ensures
            self matches Some(v) ==> r == Ok::<T, AnyHttpError>(v),
            self is None ==> (r matches Err(e) && exists|out: (u16, HttpErrorKind)|
                call_ensures(f, (), out) && e.parts() == spec_error(out.0, out.1)),
    {
        let mut f = f;
        match self {
            Some(v) => Ok(v),
            None => {
                let (code, msg) = f();
                Err(AnyHttpError::new(code, msg))
            },
        }
    }
}

/// Turns an error into an HTTP error built from what `f` returns for the
/// error's text.
pub trait Result2AnyHttpResult {
    type Output;

    /// Whether the result is an error, so that the HTTP error is built.
    spec fn is_failure(&self) -> bool;

    fn to_result<F: FnMut(String) -> (u16, HttpErrorKind)>(self, f: F) -> Result<
        Self::Output,
        AnyHttpError,
    >
        requires
            self.is_failure() ==> forall|text: String| call_requires(f, (text,)),
    ;
}

impl<T, U: std::fmt::Display> Result2AnyHttpResult for Result<T, U> {
    type Output = T;

    open spec fn is_failure(&self) -> bool {
        self is Err
    }

    /// `Ok(v)` gives `Ok(v)`; `Err(e)` gives the error built from the code
    /// and message that `f` returns for the text of `e` (its `to_string`).
    fn to_result<F: FnMut(String) -> (u16, HttpErrorKind)>(self, f: F) -> (r: Result<T, AnyHttpError>)
        ensures
            self matches Ok(v) ==> r == Ok::<T, AnyHttpError>(v),
            self matches Err(err) ==> (r matches Err(e) && exists|text: String, out: (u16, HttpErrorKind)|
                to_string_from_display_ensures::<U>(&err, text) && call_ensures(f, (text,), out)
                    && e.parts() == spec_error(out.0, out.1)),
    {
        let mut f = f;
        match self {
            Ok(v) => Ok(v),
            Err(e) => {
                let (code, msg) = f(e.to_string());
                Err(AnyHttpError::new(code, msg))
            },
        }
    }
}

} // verus!
