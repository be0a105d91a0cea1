//! The closed set of domain errors a handler can raise, each with its fixed
//! HTTP status code and default message.
use vstd::prelude::*;
use crate::envelope::{
    error_reply, envelope_text, escaped_text, is_plain_char, lemma_plain_text_unescaped, EnvelopeView, HttpReply, Status, BAD_REQUEST,
    INTERNAL_SERVER_ERROR, NOT_FOUND, UNAUTHORIZED,
};

verus! {

/// Names for two of the error kinds, without an instance of either.
pub enum ApiErrors {
    UnauthorizedError,
    ValidationError,
}

/// The body every error response carries for `message`: no payload.
pub open spec fn error_body(message: Seq<char>) -> Seq<char> {
    envelope_text(EnvelopeView { status: Status::Error, message, data: None })
}

/// A message without quotes, backslashes or control characters stands in the
/// error body as it is, between quotes.
pub proof fn lemma_plain_error_body(message: Seq<char>)
    requires
        forall|i: int| 0 <= i < message.len() ==> is_plain_char(#[trigger] message[i]),
    ensures
        error_body(message) == "{\"status\":\"error\",\"message\":\""@ + message
            + "\",\"data\":null}"@,
{
    lemma_plain_text_unescaped(message);
    reveal_strlit("{\"status\":\"");
    reveal_strlit("error");
    reveal_strlit("\",\"message\":");
    reveal_strlit(",\"data\":");
    reveal_strlit("null");
    reveal_strlit("}");
    reveal_strlit("{\"status\":\"error\",\"message\":\"");
    reveal_strlit("\",\"data\":null}");
    assert(error_body(message) =~= "{\"status\":\"error\",\"message\":\""@ + message
        + "\",\"data\":null}"@);
}

/// The error for a request without valid credentials.
#[derive(Debug)]
pub struct UnauthorizedError {
    status: Status,
    status_code: u16,
    message: String,
}

impl UnauthorizedError {
    #[verifier::type_invariant]
    closed spec fn inv(self) -> bool {
        &&& self.status == Status::Error
        &&& self.status_code == UNAUTHORIZED
        &&& self.message@ == "unauthorized"@
    }

    /// The envelope status this error reports.
    pub closed spec fn spec_status(&self) -> Status {
        self.status
    }

    /// The HTTP status code this error renders with.
    pub closed spec fn spec_status_code(&self) -> u16 {
        self.status_code
    }

    /// The message this error reports.
    pub closed spec fn spec_message(&self) -> Seq<char> {
        self.message@
    }

    /// The error with its fixed status code and message.
    pub fn new() -> (r: Self)
        ensures
            r.spec_status() == Status::Error,
            r.spec_status_code() == UNAUTHORIZED,
            r.spec_message() == "unauthorized"@,
    {
        UnauthorizedError {
            status: Status::Error,
            status_code: UNAUTHORIZED,
            message: String::from_str("unauthorized"),
        }
    }

    /// Status code 401 with the message `unauthorized`.
    pub fn response(&self) -> (r: HttpReply)
        ensures
            r.status_code == UNAUTHORIZED,
            r.body@ == error_body("unauthorized"@),
    {
        proof {
            use_type_invariant(self);
        }
        error_reply(self.status_code, self.message.as_str())
    }
}

/// The error for a request whose token has expired.
#[derive(Debug)]
pub struct TokenExpiredError {
    status: Status,
    status_code: u16,
    message: String,
}

impl TokenExpiredError {
    #[verifier::type_invariant]
    closed spec fn inv(self) -> bool {
        &&& self.status == Status::Error
        &&& self.status_code == UNAUTHORIZED
        &&& self.message@ == "tokenExpired"@
    }

    /// The envelope status this error reports.
    pub closed spec fn spec_status(&self) -> Status {
        self.status
    }

    /// The HTTP status code this error renders with.
    pub closed spec fn spec_status_code(&self) -> u16 {
        self.status_code
    }

    /// The message this error reports.
    pub closed spec fn spec_message(&self) -> Seq<char> {
        self.message@
    }

    /// The error with its fixed status code and message.
    pub fn new() -> (r: Self)
        ensures
            r.spec_status() == Status::Error,
            r.spec_status_code() == UNAUTHORIZED,
            r.spec_message() == "tokenExpired"@,
    {
        TokenExpiredError {
            status: Status::Error,
            status_code: UNAUTHORIZED,
            message: String::from_str("tokenExpired"),
        }
    }

    /// Status code 401 with the message `tokenExpired`.
    pub fn response(&self) -> (r: HttpReply)
        ensures
            r.status_code == UNAUTHORIZED,
            r.body@ == error_body("tokenExpired"@),
    {
        proof {
            use_type_invariant(self);
        }
        error_reply(self.status_code, self.message.as_str())
    }
}

/// The error for a handler that found no matching record.
#[derive(Debug)]
pub struct NotFoundError {
    status: Status,
    status_code: u16,
    message: String,
}

impl NotFoundError {
    #[verifier::type_invariant]
    closed spec fn inv(self) -> bool {
        &&& self.status == Status::Error
        &&& self.status_code == NOT_FOUND
        &&& self.message@ == "notFound"@
    }

    /// The envelope status this error reports.
    pub closed spec fn spec_status(&self) -> Status {
        self.status
    }

    /// The HTTP status code this error renders with.
    pub closed spec fn spec_status_code(&self) -> u16 {
        self.status_code
    }

    /// The message this error reports.
    pub closed spec fn spec_message(&self) -> Seq<char> {
        self.message@
    }

    /// The error with its fixed status code and message.
    pub fn new() -> (r: Self)
        ensures
            r.spec_status() == Status::Error,
            r.spec_status_code() == NOT_FOUND,
            r.spec_message() == "notFound"@,
    {
        NotFoundError {
            status: Status::Error,
            status_code: NOT_FOUND,
            message: String::from_str("notFound"),
        }
    }

    /// Status code 404 with the message `notFound`.
    pub fn response(&self) -> (r: HttpReply)
        ensures
            r.status_code == NOT_FOUND,
            r.body@ == error_body("notFound"@),
    {
        proof {
            use_type_invariant(self);
        }
        error_reply(self.status_code, self.message.as_str())
    }
}

/// The error for a failure inside the service.
#[derive(Debug)]
pub struct InternalServerError {
    status: Status,
    status_code: u16,
    message: String,
}

impl InternalServerError {
    #[verifier::type_invariant]
    closed spec fn inv(self) -> bool {
        &&& self.status == Status::Error
        &&& self.status_code == INTERNAL_SERVER_ERROR
        &&& self.message@ == "internalServerError"@
    }

    /// The envelope status this error reports.
    pub closed spec fn spec_status(&self) -> Status {
        self.status
    }

    /// The HTTP status code this error renders with.
    pub closed spec fn spec_status_code(&self) -> u16 {
        self.status_code
    }

    /// The message this error reports.
    pub closed spec fn spec_message(&self) -> Seq<char> {
        self.message@
    }

    /// The error with its fixed status code and message.
    pub fn new() -> (r: Self)
        ensures
            r.spec_status() == Status::Error,
            r.spec_status_code() == INTERNAL_SERVER_ERROR,
            r.spec_message() == "internalServerError"@,
    {
        InternalServerError {
            status: Status::Error,
            status_code: INTERNAL_SERVER_ERROR,
            message: String::from_str("internalServerError"),
        }
    }

    /// Status code 500 with the message `internalServerError`.
    pub fn response(&self) -> (r: HttpReply)
        ensures
            r.status_code == INTERNAL_SERVER_ERROR,
            r.body@ == error_body("internalServerError"@),
    {
        proof {
            use_type_invariant(self);
        }
        error_reply(self.status_code, self.message.as_str())
    }
}

/// The error for input that failed validation; its message may be chosen.
#[derive(Debug)]
pub struct ValidationError {
    status: Status,
    status_code: u16,
    message: String,
}

impl ValidationError {
    #[verifier::type_invariant]
    closed spec fn inv(self) -> bool {
        &&& self.status == Status::Error
        &&& self.status_code == BAD_REQUEST
    }

    /// The envelope status this error reports.
    pub closed spec fn spec_status(&self) -> Status {
        self.status
    }

    /// The HTTP status code this error renders with.
    pub closed spec fn spec_status_code(&self) -> u16 {
        self.status_code
    }

    /// The message this error reports.
    pub closed spec fn spec_message(&self) -> Seq<char> {
        self.message@
    }

    /// The message this error reports.
    pub fn message(&self) -> (r: &str)
        ensures
            r@ == self.spec_message(),
    {
        self.message.as_str()
    }

    /// Takes `error` as the message, or `validationError` when there is none.
    pub fn new(error: Option<&str>) -> (r: Self)
        ensures
            r.spec_status() == Status::Error,
            r.spec_status_code() == BAD_REQUEST,
            r.spec_message() == match error {
                Some(e) => e@,
                None => "validationError"@,
            },
    {
        let message = match error {
            Some(e) => String::from_str(e),
            None => String::from_str("validationError"),
        };
        ValidationError { status: Status::Error, status_code: BAD_REQUEST, message }
    }

    /// Status code 400 with this error's message.
    pub fn response(&self) -> (r: HttpReply)
        ensures
            r.status_code == BAD_REQUEST,
            r.body@ == error_body(self.spec_message()),
    {
        proof {
            use_type_invariant(self);
        }
        error_reply(self.status_code, self.message.as_str())
    }
}

impl Clone for UnauthorizedError {
    fn clone(&self) -> (r: Self)
        ensures
            r == *self,
    {
        proof {
            use_type_invariant(self);
        }
        UnauthorizedError { status: self.status, status_code: self.status_code, message: self.message.clone() }
    }
}

impl Clone for TokenExpiredError {
    fn clone(&self) -> (r: Self)
        ensures
            r == *self,
    {
        proof {
            use_type_invariant(self);
        }
        TokenExpiredError { status: self.status, status_code: self.status_code, message: self.message.clone() }
    }
}

impl Clone for NotFoundError {
    fn clone(&self) -> (r: Self)
        ensures
            r == *self,
    {
        proof {
            use_type_invariant(self);
        }
        NotFoundError { status: self.status, status_code: self.status_code, message: self.message.clone() }
    }
}

impl Clone for InternalServerError {
    fn clone(&self) -> (r: Self)
        ensures
            r == *self,
    {
        proof {
            use_type_invariant(self);
        }
        InternalServerError { status: self.status, status_code: self.status_code, message: self.message.clone() }
    }
}

impl Clone for ValidationError {
    fn clone(&self) -> (r: Self)
        ensures
            r == *self,
    {
        proof {
            use_type_invariant(self);
        }
        ValidationError { status: self.status, status_code: self.status_code, message: self.message.clone() }
    }
}

} // verus!
