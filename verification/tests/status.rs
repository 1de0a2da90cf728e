use oqs::{status_to_result, Error, Status};

#[test]
fn test_status_success() {
    assert_eq!(status_to_result(Status::Success), Ok(()));
}

#[test]
fn test_status_error() {
    assert_eq!(status_to_result(Status::Error), Err(Error::Error));
}

#[test]
fn test_status_external_openssl() {
    assert_eq!(
        status_to_result(Status::ExternalLibErrorOpenSSL),
        Err(Error::ErrorExternalOpenSSL)
    );
}

#[test]
fn test_init_is_idempotent() {
    oqs::init();
    oqs::init();
}
