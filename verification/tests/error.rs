use view_controller::error::{Error, StoreError, StoreErrorKind};

fn store_error(kind: StoreErrorKind, message: &str) -> StoreError {
    StoreError { kind, message: message.to_string() }
}

#[test]
fn status_codes_are_classified() {
    assert_eq!(StoreErrorKind::from_status(Some(404)), StoreErrorKind::NotFound);
    assert_eq!(StoreErrorKind::from_status(Some(409)), StoreErrorKind::Conflict);
    assert_eq!(StoreErrorKind::from_status(Some(400)), StoreErrorKind::Rejected);
    assert_eq!(StoreErrorKind::from_status(Some(422)), StoreErrorKind::Rejected);
    assert_eq!(StoreErrorKind::from_status(Some(429)), StoreErrorKind::Unavailable);
    assert_eq!(StoreErrorKind::from_status(Some(500)), StoreErrorKind::Unavailable);
    assert_eq!(StoreErrorKind::from_status(Some(503)), StoreErrorKind::Unavailable);
    assert_eq!(StoreErrorKind::from_status(Some(504)), StoreErrorKind::Unavailable);
    assert_eq!(StoreErrorKind::from_status(Some(403)), StoreErrorKind::Other);
    assert_eq!(StoreErrorKind::from_status(Some(0)), StoreErrorKind::Other);
}

#[test]
fn no_answer_means_unavailable() {
    assert_eq!(StoreErrorKind::from_status(None), StoreErrorKind::Unavailable);
}

#[test]
fn a_serialization_error_says_so() {
    let error = Error::SerializationError("bad label".to_string());
    assert_eq!(error.message(), "SerializationError: bad label");
}

#[test]
fn a_store_error_says_so() {
    let error = Error::KubeError(store_error(StoreErrorKind::Conflict, "taken"));
    assert_eq!(error.message(), "Kube Error: taken");
}

#[test]
fn a_finalizer_error_says_so() {
    let error = Error::FinalizerError("stuck".to_string());
    assert_eq!(error.message(), "Finalizer Error: stuck");
}

#[test]
fn an_unknown_error_says_so() {
    assert_eq!(Error::UnknownError.message(), "Unknown Error");
}

#[test]
fn errors_are_cloned_as_they_are() {
    let error = Error::KubeError(store_error(StoreErrorKind::Rejected, "invalid"));
    match error.clone() {
        Error::KubeError(inner) => {
            assert_eq!(inner.kind, StoreErrorKind::Rejected);
            assert_eq!(inner.message, "invalid");
        }
        other => panic!("unexpected error {:?}", other),
    }
    assert_eq!(error.message(), "Kube Error: invalid");
    assert!(matches!(Error::UnknownError.clone(), Error::UnknownError));
}
