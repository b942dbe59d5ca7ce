use runt::error::{Error, ErrorKind, OCIError, OCIErrorKind};

#[test]
fn nixerror_to_error() {
    let f = || -> Result<(), Error> { Err(nix::Error::EINVAL.into()) };
    let _: Error = f().unwrap_err();
}

#[test]
fn ocierror_to_error() {
    let f = || -> Result<(), Error> {
        Err(OCIError::new(OCIErrorKind::InvaliedStatus, "container must be stopped").into())
    };
    let _: Error = f().unwrap_err();
}

#[test]
fn ocierror_keeps_kind_and_description() {
    let e: Error = OCIError::new(OCIErrorKind::InvaliedStatus, "container must be stopped").into();
    match e.kind() {
        ErrorKind::OCI { error } => {
            assert_eq!(error.kind, OCIErrorKind::InvaliedStatus);
            assert_eq!(error.description, "container must be stopped");
        }
        _ => panic!("expected an OCI error"),
    }
}

#[test]
fn nix_error_keeps_errno() {
    let e: Error = nix::Error::ENOENT.into();
    match e.kind() {
        ErrorKind::Nix { error } => assert_eq!(*error, nix::Error::ENOENT),
        _ => panic!("expected a nix error"),
    }
}
