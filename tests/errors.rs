use statemon::error::{ApiError, CommonError, RepositoryError, StorageErrorKind};
use statemon::service::{add_outcome, get_outcome};
use statemon::model::SensorData;

#[test]
fn api_error_constructors() {
    let e = ApiError::new("boom".to_string(), 418);
    assert_eq!(e.error, "boom");
    assert_eq!(e.status_code, 418);
    assert_eq!(ApiError::bad_request("b".to_string()).status_code, 400);
    assert_eq!(ApiError::internal_server_error("i".to_string()).status_code, 500);
}

#[test]
fn api_error_from_common_error() {
    let e = ApiError::from(CommonError { message: "m".to_string(), code: 404 });
    assert_eq!(e.error, "m");
    assert_eq!(e.status_code, 404);
    let wide = ApiError::from_common(CommonError { message: "w".to_string(), code: 70000 });
    assert_eq!(wide.status_code, 400);
    let aliased = ApiError::from(CommonError { message: "a".to_string(), code: 65940 });
    assert_eq!(aliased.status_code, 400);
    assert_eq!(aliased.response_status(), 400);
    assert_eq!(aliased.error_response().status_code, 400);
    let edge = ApiError::from(CommonError { message: "e".to_string(), code: 65535 });
    assert_eq!(edge.status_code, 65535);
    assert_eq!(edge.response_status(), 400);
}

#[test]
fn routed_statuses_are_kept() {
    for code in [400u16, 401, 403, 404, 422, 500] {
        assert_eq!(ApiError::new(String::new(), code).response_status(), code);
    }
}

#[test]
fn unroutable_status_becomes_bad_request() {
    for code in [0u16, 200, 418, 502, 4464] {
        assert_eq!(ApiError::new(String::new(), code).response_status(), 400);
    }
}

#[test]
fn error_response_copies_fields() {
    let r = ApiError::new("gone".to_string(), 404).error_response();
    assert_eq!(r.error, "gone");
    assert_eq!(r.status_code, 404);
}

#[test]
fn repository_error_into_common_error() {
    let c: CommonError = RepositoryError::new(StorageErrorKind::NotFound, "nf".to_string()).into();
    assert_eq!(c.message, "nf");
    assert_eq!(c.code, 1);
}

#[test]
fn get_failure_is_404_with_message() {
    let r = get_outcome(Err(RepositoryError::new(
        StorageErrorKind::StorageUnavailable,
        "no connection".to_string(),
    )));
    let e = r.err().unwrap();
    assert_eq!(e.code, 404);
    assert_eq!(e.message, "Failed to retrieve sensor data: no connection");
}

#[test]
fn add_failure_is_422_with_message() {
    let r = add_outcome(Err(RepositoryError::new(
        StorageErrorKind::StorageUnavailable,
        "insert failed".to_string(),
    )));
    let e = r.err().unwrap();
    assert_eq!(e.code, 422);
    assert_eq!(e.message, "Failed to add sensor data: insert failed");
    let api = ApiError::from(e);
    assert_eq!(api.response_status(), 422);
}

#[test]
fn successes_pass_through() {
    assert!(add_outcome(Ok(())).is_ok());
    let d = SensorData::new(7, "C".to_string(), "OK".to_string(), "t".to_string());
    let got = get_outcome(Ok(d)).ok().unwrap();
    assert_eq!(got.value_bits, 7);
    assert_eq!(got.created_at, "t");
}
