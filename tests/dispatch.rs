use rosemary_api::api_error::{
    InternalServerError, NotFoundError, TokenExpiredError, UnauthorizedError, ValidationError,
};
use rosemary_api::dispatch::{handle_rejection, Cause, Rejection};
use rosemary_api::envelope::HttpReply;

fn raise(cause: Cause) -> HttpReply {
    handle_rejection(&Rejection { route_miss: false, causes: vec![cause] })
}

fn error_json(message: &str) -> String {
    format!("{{\"status\":\"error\",\"message\":\"{}\",\"data\":null}}", message)
}

#[test]
fn domain_kinds_render_their_status_codes() {
    assert_eq!(raise(Cause::NotFound(NotFoundError::new())).status_code, 404);
    assert_eq!(raise(Cause::Unauthorized(UnauthorizedError::new())).status_code, 401);
    assert_eq!(raise(Cause::TokenExpired(TokenExpiredError::new())).status_code, 401);
    assert_eq!(raise(Cause::Validation(ValidationError::new(None))).status_code, 400);
    assert_eq!(raise(Cause::InternalServer(InternalServerError::new())).status_code, 500);
}

#[test]
fn domain_kinds_render_their_default_messages() {
    assert_eq!(raise(Cause::Unauthorized(UnauthorizedError::new())).body, error_json("unauthorized"));
    assert_eq!(raise(Cause::TokenExpired(TokenExpiredError::new())).body, error_json("tokenExpired"));
    assert_eq!(
        raise(Cause::InternalServer(InternalServerError::new())).body,
        error_json("internalServerError")
    );
}

#[test]
fn route_miss_and_not_found_render_alike() {
    let miss = handle_rejection(&Rejection { route_miss: true, causes: vec![] });
    let found = raise(Cause::NotFound(NotFoundError::new()));
    assert_eq!(miss.status_code, 404);
    assert_eq!(found.status_code, 404);
    assert_eq!(miss.body, error_json("notFound"));
    assert_eq!(found.body, miss.body);
}

#[test]
fn validation_message_override_and_default() {
    let r = raise(Cause::Validation(ValidationError::new(Some("x"))));
    assert_eq!(r.status_code, 400);
    assert_eq!(r.body, error_json("x"));
    let r = raise(Cause::Validation(ValidationError::new(None)));
    assert_eq!(r.status_code, 400);
    assert_eq!(r.body, error_json("validationError"));
}

#[test]
fn body_parse_failure_with_cause() {
    let r = raise(Cause::BodyDeserialize(Some("unexpected token".to_string())));
    assert_eq!(r.status_code, 400);
    assert_eq!(r.body, error_json("validationError - unexpected token"));
}

#[test]
fn body_parse_failure_without_cause() {
    let r = raise(Cause::BodyDeserialize(None));
    assert_eq!(r.status_code, 400);
    assert_eq!(r.body, error_json("badRequest"));
}

#[test]
fn method_not_allowed() {
    let r = raise(Cause::MethodNotAllowed);
    assert_eq!(r.status_code, 405);
    assert_eq!(r.body, error_json("methodNotAllowed"));
}

#[test]
fn unclassified_failure() {
    let r = handle_rejection(&Rejection { route_miss: false, causes: vec![] });
    assert_eq!(r.status_code, 500);
    assert_eq!(r.body, error_json("internalServerError"));
}

#[test]
fn rendering_twice_is_identical() {
    let e = ValidationError::new(Some("title is required"));
    let a = e.response();
    let b = e.response();
    assert_eq!(a.status_code, b.status_code);
    assert_eq!(a.body, b.body);
    let rejection = Rejection { route_miss: false, causes: vec![Cause::MethodNotAllowed] };
    let a = handle_rejection(&rejection);
    let b = handle_rejection(&rejection);
    assert_eq!(a.status_code, b.status_code);
    assert_eq!(a.body, b.body);
}

#[test]
fn data_is_null_on_every_error() {
    let replies = vec![
        handle_rejection(&Rejection { route_miss: true, causes: vec![] }),
        handle_rejection(&Rejection { route_miss: false, causes: vec![] }),
        raise(Cause::MethodNotAllowed),
        raise(Cause::BodyDeserialize(None)),
        raise(Cause::BodyDeserialize(Some("eof".to_string()))),
        raise(Cause::NotFound(NotFoundError::new())),
        raise(Cause::Unauthorized(UnauthorizedError::new())),
        raise(Cause::TokenExpired(TokenExpiredError::new())),
        raise(Cause::Validation(ValidationError::new(Some("bad")))),
        raise(Cause::InternalServer(InternalServerError::new())),
    ];
    for r in replies {
        assert!(r.body.starts_with("{\"status\":\"error\","));
        assert!(r.body.ends_with(",\"data\":null}"));
    }
}

#[test]
fn scenario_not_found_error() {
    let r = raise(Cause::NotFound(NotFoundError::new()));
    assert_eq!(r.status_code, 404);
    assert_eq!(r.body, "{\"status\":\"error\",\"message\":\"notFound\",\"data\":null}");
}

#[test]
fn scenario_validation_error_with_message() {
    let r = raise(Cause::Validation(ValidationError::new(Some("title is required"))));
    assert_eq!(r.status_code, 400);
    assert_eq!(r.body, "{\"status\":\"error\",\"message\":\"title is required\",\"data\":null}");
}

#[test]
fn scenario_unmatched_route() {
    let r = handle_rejection(&Rejection { route_miss: true, causes: vec![] });
    assert_eq!(r.status_code, 404);
    assert_eq!(r.body, "{\"status\":\"error\",\"message\":\"notFound\",\"data\":null}");
}

#[test]
fn scenario_wrong_method() {
    let r = raise(Cause::MethodNotAllowed);
    assert_eq!(r.status_code, 405);
    assert_eq!(r.body, "{\"status\":\"error\",\"message\":\"methodNotAllowed\",\"data\":null}");
}

#[test]
fn scenario_malformed_body() {
    let r = raise(Cause::BodyDeserialize(Some("missing field `price`".to_string())));
    assert_eq!(r.status_code, 400);
    assert_eq!(
        r.body,
        "{\"status\":\"error\",\"message\":\"validationError - missing field `price`\",\"data\":null}"
    );
}

#[test]
fn scenario_unclassified_internal_failure() {
    let r = handle_rejection(&Rejection { route_miss: false, causes: vec![] });
    assert_eq!(r.status_code, 500);
    assert_eq!(r.body, "{\"status\":\"error\",\"message\":\"internalServerError\",\"data\":null}");
}

#[test]
fn route_miss_takes_precedence() {
    let r = handle_rejection(&Rejection {
        route_miss: true,
        causes: vec![Cause::Validation(ValidationError::new(Some("x")))],
    });
    assert_eq!(r.status_code, 404);
    assert_eq!(r.body, error_json("notFound"));
}

#[test]
fn earliest_kind_decides_among_causes() {
    let r = handle_rejection(&Rejection {
        route_miss: false,
        causes: vec![
            Cause::MethodNotAllowed,
            Cause::TokenExpired(TokenExpiredError::new()),
            Cause::Validation(ValidationError::new(Some("first"))),
            Cause::Validation(ValidationError::new(Some("second"))),
        ],
    });
    assert_eq!(r.status_code, 400);
    assert_eq!(r.body, error_json("first"));
    let r = handle_rejection(&Rejection {
        route_miss: false,
        causes: vec![
            Cause::BodyDeserialize(None),
            Cause::MethodNotAllowed,
            Cause::Unauthorized(UnauthorizedError::new()),
            Cause::NotFound(NotFoundError::new()),
        ],
    });
    assert_eq!(r.status_code, 404);
    assert_eq!(r.body, error_json("notFound"));
}

#[test]
fn message_is_json_escaped() {
    let r = raise(Cause::Validation(ValidationError::new(Some("say \"hi\"\n"))));
    assert_eq!(r.body, "{\"status\":\"error\",\"message\":\"say \\\"hi\\\"\\n\",\"data\":null}");
}

#[test]
fn control_characters_are_escaped() {
    let r = raise(Cause::Validation(ValidationError::new(Some("a\u{1}\t\u{8}\u{c}\r\\\u{1f}é"))));
    assert_eq!(
        r.body,
        "{\"status\":\"error\",\"message\":\"a\\u0001\\t\\b\\f\\r\\\\\\u001fé\",\"data\":null}"
    );
}
