//! Turns whatever failed during a request into exactly one terminal response.
//!
//! A rejection is either a route miss (no handler matched the path) or the set of
//! causes that the request pipeline raised. The causes are inspected in a fixed
//! order of kinds, and the first cause of the earliest kind present decides.
use vstd::prelude::*;
use crate::api_error::{
    error_body, lemma_plain_error_body, InternalServerError, NotFoundError, TokenExpiredError, UnauthorizedError,
    ValidationError,
};
use crate::envelope::{
    envelope_text, is_plain_char, error_reply, EnvelopeView, Status, HttpReply, BAD_REQUEST, INTERNAL_SERVER_ERROR, METHOD_NOT_ALLOWED, NOT_FOUND,
    UNAUTHORIZED,
};

verus! {

/// One recognized cause of a failed request.
#[derive(Clone, Debug)]
pub enum Cause {
    NotFound(NotFoundError),
    Unauthorized(UnauthorizedError),
    Validation(ValidationError),
    InternalServer(InternalServerError),
    TokenExpired(TokenExpiredError),
    /// The path is known but not for this method.
    MethodNotAllowed,
    /// The request body failed to parse, with the parser's cause text if it gave one.
    BodyDeserialize(Option<String>),
}

/// A status code and a message: what an error response reports.
pub struct Outcome {
    pub status_code: u16,
    pub message: Seq<char>,
}

impl Cause {
    /// The place of this cause's kind in the order of inspection.
    pub open spec fn rank(&self) -> nat {
        match self {
            Cause::NotFound(_) => 0,
            Cause::Unauthorized(_) => 1,
            Cause::Validation(_) => 2,
            Cause::InternalServer(_) => 3,
            Cause::TokenExpired(_) => 4,
            Cause::MethodNotAllowed => 5,
            Cause::BodyDeserialize(_) => 6,
        }
    }

    /// Whether this cause is one of the domain error kinds.
    pub open spec fn is_domain(&self) -> bool {
        self.rank() < 5
    }

    /// The response this cause renders to when it decides.
    pub open spec fn outcome(&self) -> Outcome {
        match self {
            Cause::NotFound(_) => Outcome { status_code: NOT_FOUND, message: "notFound"@ },
            Cause::Unauthorized(_) => Outcome {
                status_code: UNAUTHORIZED,
                message: "unauthorized"@,
            },
            Cause::Validation(e) => Outcome { status_code: BAD_REQUEST, message: e.spec_message() },
            Cause::InternalServer(_) => Outcome {
                status_code: INTERNAL_SERVER_ERROR,
                message: "internalServerError"@,
            },
            Cause::TokenExpired(_) => Outcome {
                status_code: UNAUTHORIZED,
                message: "tokenExpired"@,
            },
            Cause::MethodNotAllowed => Outcome {
                status_code: METHOD_NOT_ALLOWED,
                message: "methodNotAllowed"@,
            },
            Cause::BodyDeserialize(Some(c)) => Outcome {
                status_code: BAD_REQUEST,
                message: "validationError - "@ + c@,
            },
            Cause::BodyDeserialize(None) => Outcome {
                status_code: BAD_REQUEST,
                message: "badRequest"@,
            },
        }
    }

    fn rank_of(&self) -> (r: u8)
        ensures
            r as nat == self.rank(),
    {
        match self {
            Cause::NotFound(_) => 0,
            Cause::Unauthorized(_) => 1,
            Cause::Validation(_) => 2,
            Cause::InternalServer(_) => 3,
            Cause::TokenExpired(_) => 4,
            Cause::MethodNotAllowed => 5,
            Cause::BodyDeserialize(_) => 6,
        }
    }

    /// Renders this cause alone.
    pub fn response(&self) -> (r: HttpReply)
        ensures
            r.status_code == self.outcome().status_code,
            r.body@ == error_body(self.outcome().message),
    {
        match self {
            Cause::NotFound(e) => e.response(),
            Cause::Unauthorized(e) => e.response(),
            Cause::Validation(e) => e.response(),
            Cause::InternalServer(e) => e.response(),
            Cause::TokenExpired(e) => e.response(),
            Cause::MethodNotAllowed => error_reply(METHOD_NOT_ALLOWED, "methodNotAllowed"),
            Cause::BodyDeserialize(Some(c)) => {
                let mut msg = String::from_str("validationError - ");
                msg.append(c.as_str());
                error_reply(BAD_REQUEST, msg.as_str())
            },
            Cause::BodyDeserialize(None) => error_reply(BAD_REQUEST, "badRequest"),
        }
    }
}

/// The index of the deciding cause: the first one of least rank.
pub open spec fn chosen(causes: Seq<Cause>) -> int
    decreases causes.len(),
{
    if causes.len() <= 1 {
        0
    } else {
        let i = chosen(causes.drop_last());
        if causes.last().rank() < causes[i].rank() {
            causes.len() - 1
        } else {
            i
        }
    }
}

/// A failed request as the dispatcher sees it.
pub struct Rejection {
    /// No handler matched the path at all.
    pub route_miss: bool,
    /// The recognized causes raised for this request; none means unclassified.
    pub causes: Vec<Cause>,
}

/// The response for a rejection, in order of precedence: a route miss, then the
/// deciding cause, and when nothing was recognized an internal server error.
pub open spec fn dispatch_outcome(route_miss: bool, causes: Seq<Cause>) -> Outcome {
    if route_miss {
        Outcome { status_code: NOT_FOUND, message: "notFound"@ }
    } else if causes.len() == 0 {
        Outcome { status_code: INTERNAL_SERVER_ERROR, message: "internalServerError"@ }
    } else {
        causes[chosen(causes)].outcome()
    }
}

/// Whether `r` is the response that dispatching the rejection must give.
pub open spec fn renders(route_miss: bool, causes: Seq<Cause>, r: HttpReply) -> bool {
    &&& r.status_code == dispatch_outcome(route_miss, causes).status_code
    &&& r.body@ == error_body(dispatch_outcome(route_miss, causes).message)
}

/// `chosen` picks a cause of least rank, and no earlier cause has that rank.
pub proof fn lemma_chosen_first_least(causes: Seq<Cause>)
    requires
        causes.len() > 0,
    ensures
        0 <= chosen(causes) < causes.len(),
        forall|j: int| 0 <= j < causes.len() ==> #[trigger] causes[j].rank() >= causes[chosen(causes)].rank(),
        forall|j: int| 0 <= j < chosen(causes) ==> #[trigger] causes[j].rank() > causes[chosen(causes)].rank(),
    decreases causes.len(),
{
    if causes.len() > 1 {
        let prefix = causes.drop_last();
        lemma_chosen_first_least(prefix);
        assert forall|j: int| 0 <= j < prefix.len() implies prefix[j] == causes[j] by {}
    }
}

/// Renders the single terminal response for a failed request.
pub fn handle_rejection(error: &Rejection) -> (r: HttpReply)
    ensures
        renders(error.route_miss, error.causes@, r),
{
    if error.route_miss {
        return error_reply(NOT_FOUND, "notFound");
    }
    let n = error.causes.len();
    if n == 0 {
        return error_reply(INTERNAL_SERVER_ERROR, "internalServerError");
    }
    let mut best: usize = 0;
    let mut best_rank: u8 = error.causes[0].rank_of();
    let mut i: usize = 1;
    while i < n
        invariant
            n == error.causes@.len(),
            1 <= i <= n,
            best as int == chosen(error.causes@.take(i as int)),
            best < i,
            best_rank as nat == error.causes@[best as int].rank(),
        decreases n - i,
    {
        let r = error.causes[i].rank_of();
        proof {
            let s = error.causes@.take(i as int + 1);
            assert(s.drop_last() =~= error.causes@.take(i as int));
        }
        if r < best_rank {
            best = i;
            best_rank = r;
        }
        i = i + 1;
    }
    assert(error.causes@.take(n as int) =~= error.causes@);
    error.causes[best].response()
}

/// Each domain error kind, raised alone, renders to its fixed status code:
/// 404 for not found, 401 for unauthorized and for an expired token, 400 for
/// validation and 500 for an internal server error.
pub proof fn lemma_domain_status(c: Cause)
    requires
        c.is_domain(),
    ensures
        c is NotFound ==> dispatch_outcome(false, seq![c]).status_code == 404,
        c is Unauthorized ==> dispatch_outcome(false, seq![c]).status_code == 401,
        c is Validation ==> dispatch_outcome(false, seq![c]).status_code == 400,
        c is InternalServer ==> dispatch_outcome(false, seq![c]).status_code == 500,
        c is TokenExpired ==> dispatch_outcome(false, seq![c]).status_code == 401,
{
}

/// A route miss and a handler's own not-found error render the same response.
pub proof fn lemma_route_miss_same_as_not_found(e: NotFoundError)
    ensures
        dispatch_outcome(true, Seq::empty()) == dispatch_outcome(false, seq![Cause::NotFound(e)]),
        dispatch_outcome(true, Seq::empty()) == (Outcome {
            status_code: 404,
            message: "notFound"@,
        }),
{
}

/// A failure with no recognized cause, such as a persistence timeout, renders
/// status 500 with the body `{"status":"error","message":"internalServerError","data":null}`.
pub proof fn lemma_unclassified()
    ensures
        dispatch_outcome(false, Seq::empty()).status_code == 500,
        error_body(dispatch_outcome(false, Seq::empty()).message) == "{\"status\":\"error\",\"message\":\"internalServerError\",\"data\":null}"@,
{
    let m = "internalServerError"@;
    reveal_strlit("internalServerError");
    assert forall|i: int| 0 <= i < m.len() implies is_plain_char(#[trigger] m[i]) by {}
    lemma_plain_error_body(m);
    reveal_strlit("{\"status\":\"error\",\"message\":\"");
    reveal_strlit("\",\"data\":null}");
    reveal_strlit("{\"status\":\"error\",\"message\":\"internalServerError\",\"data\":null}");
    assert(error_body(m) =~= "{\"status\":\"error\",\"message\":\"internalServerError\",\"data\":null}"@);
}

/// An unmatched route renders status 404 with the body
/// `{"status":"error","message":"notFound","data":null}`.
pub proof fn lemma_route_miss_body()
    ensures
        dispatch_outcome(true, Seq::empty()).status_code == 404,
        error_body(dispatch_outcome(true, Seq::empty()).message) == "{\"status\":\"error\",\"message\":\"notFound\",\"data\":null}"@,
{
    let m = "notFound"@;
    reveal_strlit("notFound");
    assert forall|i: int| 0 <= i < m.len() implies is_plain_char(#[trigger] m[i]) by {}
    lemma_plain_error_body(m);
    reveal_strlit("{\"status\":\"error\",\"message\":\"");
    reveal_strlit("\",\"data\":null}");
    reveal_strlit("{\"status\":\"error\",\"message\":\"notFound\",\"data\":null}");
    assert(error_body(m) =~= "{\"status\":\"error\",\"message\":\"notFound\",\"data\":null}"@);
}

/// A known path called with the wrong method renders status 405 with the body
/// `{"status":"error","message":"methodNotAllowed","data":null}`.
pub proof fn lemma_method_not_allowed_body()
    ensures
        dispatch_outcome(false, seq![Cause::MethodNotAllowed]).status_code == 405,
        error_body(dispatch_outcome(false, seq![Cause::MethodNotAllowed]).message) == "{\"status\":\"error\",\"message\":\"methodNotAllowed\",\"data\":null}"@,
{
    let m = "methodNotAllowed"@;
    reveal_strlit("methodNotAllowed");
    assert forall|i: int| 0 <= i < m.len() implies is_plain_char(#[trigger] m[i]) by {}
    lemma_plain_error_body(m);
    reveal_strlit("{\"status\":\"error\",\"message\":\"");
    reveal_strlit("\",\"data\":null}");
    reveal_strlit("{\"status\":\"error\",\"message\":\"methodNotAllowed\",\"data\":null}");
    assert(error_body(m) =~= "{\"status\":\"error\",\"message\":\"methodNotAllowed\",\"data\":null}"@);
}

/// First match wins: unless the route missed, the response is that of a cause
/// whose kind comes first in the order of inspection among those present, and
/// of the first such cause.
pub proof fn lemma_first_match_wins(causes: Seq<Cause>)
    requires
        causes.len() > 0,
    ensures
        exists|i: int|
            0 <= i < causes.len() && dispatch_outcome(false, causes) == causes[i].outcome()
                && (forall|j: int| 0 <= j < causes.len() ==> #[trigger] causes[j].rank() >= causes[i].rank())
                && (forall|j: int| 0 <= j < i ==> #[trigger] causes[j].rank() > causes[i].rank()),
{
    lemma_chosen_first_least(causes);
    let i = chosen(causes);
    assert(dispatch_outcome(false, causes) == causes[i].outcome());
}

/// Dispatching the same rejection twice gives identical responses.
pub proof fn lemma_render_idempotent(route_miss: bool, causes: Seq<Cause>, r1: HttpReply, r2: HttpReply)
    requires
        renders(route_miss, causes, r1),
        renders(route_miss, causes, r2),
    ensures
        r1.status_code == r2.status_code,
        r1.body@ == r2.body@,
{
}

/// Every error response is an error envelope whose payload is `null`.
pub proof fn lemma_error_data_null(route_miss: bool, causes: Seq<Cause>, r: HttpReply)
    requires
        renders(route_miss, causes, r),
    ensures
        exists|m: Seq<char>|
            r.body@ == envelope_text(EnvelopeView { status: Status::Error, message: m, data: None }),
{
    let m = dispatch_outcome(route_miss, causes).message;
    assert(r.body@ == envelope_text(EnvelopeView { status: Status::Error, message: m, data: None }));
}

} // verus!
