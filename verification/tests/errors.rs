use tutor_db::dbaccess::{duplicate_key, no_such_row};
use tutor_db::errors::{EzyTutorError, StatusClass, StorageSignal};

#[test]
fn storage_failure_shows_generic_message() {
    let e = EzyTutorError::DBError("connection refused on 10.0.0.7".to_string());
    assert_eq!(e.error_response(), "Internal server error");
    assert_eq!(e.status_code(), StatusClass::InternalError);
    assert_eq!(e.status_code().code(), 500);
}

#[test]
fn transport_failure_shows_generic_message() {
    let e = EzyTutorError::ActixError("payload stream closed".to_string());
    assert_eq!(e.error_response(), "Internal server error");
    assert_eq!(e.status_code(), StatusClass::InternalError);
    assert_eq!(e.status_code().code(), 500);
}

#[test]
fn not_found_shows_its_own_message() {
    let e = EzyTutorError::NotFound("Requested resource not found".to_string());
    assert_eq!(e.error_response(), "Requested resource not found");
    assert_eq!(e.status_code(), StatusClass::NotFound);
    assert_eq!(e.status_code().code(), 404);
}

#[test]
fn invalid_input_shows_its_own_message() {
    let e = EzyTutorError::InvalidInput("Please provide a valid JSON input".to_string());
    assert_eq!(e.error_response(), "Please provide a valid JSON input");
    assert_eq!(e.status_code(), StatusClass::BadRequest);
    assert_eq!(e.status_code().code(), 400);
}

#[test]
fn status_codes_of_the_classes() {
    assert_eq!(StatusClass::NotFound.code(), 404);
    assert_eq!(StatusClass::BadRequest.code(), 400);
    assert_eq!(StatusClass::InternalError.code(), 500);
}

#[test]
fn response_body_carries_client_message() {
    let hidden = EzyTutorError::DBError("relation tutors does not exist".to_string());
    assert_eq!(hidden.response_body().error_message, "Internal server error");
    let shown = EzyTutorError::NotFound("no such tutor".to_string());
    assert_eq!(shown.response_body().error_message, "no such tutor");
}

#[test]
fn missing_row_signal_becomes_not_found() {
    match EzyTutorError::from_signal(StorageSignal::RowNotFound) {
        EzyTutorError::NotFound(msg) => assert_eq!(msg, "Requested resource not found"),
        other => panic!("unexpected error: {:?}", other),
    }
}

#[test]
fn other_signal_becomes_storage_failure() {
    match EzyTutorError::from_signal(StorageSignal::Failure("pool timed out".to_string())) {
        EzyTutorError::DBError(msg) => assert_eq!(msg, "pool timed out"),
        other => panic!("unexpected error: {:?}", other),
    }
}

#[test]
fn driver_row_not_found_becomes_not_found() {
    let e = EzyTutorError::from(sqlx::Error::RowNotFound);
    match &e {
        EzyTutorError::NotFound(msg) => assert_eq!(msg, "Requested resource not found"),
        other => panic!("unexpected error: {:?}", other),
    }
    assert_eq!(e.status_code().code(), 404);
}

#[test]
fn driver_failure_becomes_storage_failure_with_its_text() {
    let e = EzyTutorError::from(sqlx::Error::PoolTimedOut);
    match &e {
        EzyTutorError::DBError(msg) => {
            assert_eq!(msg, "pool timed out while waiting for an open connection")
        }
        other => panic!("unexpected error: {:?}", other),
    }
    assert_eq!(e.error_response(), "Internal server error");
    assert_eq!(e.status_code().code(), 500);
}

#[test]
fn driver_protocol_failure_keeps_detail_on_the_server() {
    let e = EzyTutorError::from(sqlx::Error::Protocol("bad frame".to_string()));
    match &e {
        EzyTutorError::DBError(msg) => {
            assert_eq!(msg, "encountered unexpected or invalid data: bad frame")
        }
        other => panic!("unexpected error: {:?}", other),
    }
    assert_eq!(e.response_body().error_message, "Internal server error");
}

#[test]
fn request_layer_failure_becomes_transport_failure() {
    let cause = actix_web::error::ErrorBadRequest("broken pipe");
    let e = EzyTutorError::from(cause);
    match &e {
        EzyTutorError::ActixError(msg) => assert_eq!(msg, "broken pipe"),
        other => panic!("unexpected error: {:?}", other),
    }
    assert_eq!(e.error_response(), "Internal server error");
    assert_eq!(e.status_code().code(), 500);
}

#[test]
fn store_errors_have_fixed_texts() {
    match no_such_row() {
        EzyTutorError::NotFound(msg) => assert_eq!(msg, "Requested resource not found"),
        other => panic!("unexpected error: {:?}", other),
    }
    match duplicate_key() {
        EzyTutorError::DBError(msg) => {
            assert_eq!(msg, "duplicate key value violates unique constraint")
        }
        other => panic!("unexpected error: {:?}", other),
    }
}
