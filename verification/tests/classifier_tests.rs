//! The error classifier on concrete statuses: the 2xx pass-through, the
//! exact tag for each classified status, and the catch-all.

use lecto::{handle_response, LectoError};

#[test]
fn success_status_hands_the_body_through_unchanged() {
    let r = handle_response("req".to_owned(), 200, "{\"id\":1}".to_owned());
    assert_eq!(r.unwrap(), "{\"id\":1}");
    let r = handle_response("req".to_owned(), 299, "body".to_owned());
    assert_eq!(r.unwrap(), "body");
}

#[test]
fn status_422_is_unprocessable_entity_with_that_status() {
    let r = handle_response("the request".to_owned(), 422, "the body".to_owned());
    match r {
        Err(LectoError::UnprocessableEntity {
            status,
            request,
            response,
        }) => {
            assert_eq!(status, 422);
            assert_eq!(request, "the request");
            assert_eq!(response, "the body");
        }
        other => panic!("expected UnprocessableEntity, got {:?}", other),
    }
}

#[test]
fn status_400_is_bad_request_with_that_status() {
    let r = handle_response("q".to_owned(), 400, "b".to_owned());
    match r {
        Err(LectoError::BadRequest { status, .. }) => assert_eq!(status, 400),
        other => panic!("expected BadRequest, got {:?}", other),
    }
}

#[test]
fn status_500_is_internal_server_error_with_that_status() {
    let r = handle_response("q".to_owned(), 500, "b".to_owned());
    match r {
        Err(LectoError::InternalServerError { status, .. }) => assert_eq!(status, 500),
        other => panic!("expected InternalServerError, got {:?}", other),
    }
}

#[test]
fn other_non_success_statuses_are_unknown_not_silent() {
    for status in [100u16, 199, 300, 301, 404, 418, 502, 503] {
        let r = handle_response("q".to_owned(), status, "b".to_owned());
        match r {
            Err(LectoError::Unknown {
                status: s,
                request,
                response,
            }) => {
                assert_eq!(s, status);
                assert_eq!(request, "q");
                assert_eq!(response, "b");
            }
            other => panic!("expected Unknown for {}, got {:?}", status, other),
        }
    }
}

#[test]
fn describe_names_the_status_and_body() {
    let e = handle_response("q".to_owned(), 422, "boom".to_owned()).unwrap_err();
    assert_eq!(e.describe(), "Status: 422 Res: boom");
    assert_eq!(e.status(), Some(422));
    let t = LectoError::Transport {
        detail: "timed out".to_owned(),
    };
    assert_eq!(t.describe(), "Transport error: timed out");
    assert_eq!(t.status(), None);
    let d = LectoError::Decode {
        detail: "bad json".to_owned(),
    };
    assert_eq!(d.describe(), "Decode error: bad json");
}
