use x509::validation::{X509ValidationError, X509_V_ERR_APPLICATION_VERIFICATION, X509_V_OK};

#[test]
fn success_code_is_no_error() {
    assert_eq!(X509ValidationError::from_raw(X509_V_OK), None);
    assert_eq!(X509ValidationError::from_raw(0), None);
}

#[test]
fn known_codes_decode_to_their_variant() {
    assert_eq!(X509ValidationError::from_raw(2), Some(X509ValidationError::X509UnableToGetIssuerCert));
    assert_eq!(X509ValidationError::from_raw(9), Some(X509ValidationError::X509CertNotYetValid));
    assert_eq!(X509ValidationError::from_raw(10), Some(X509ValidationError::X509CertHasExpired));
    assert_eq!(X509ValidationError::from_raw(18), Some(X509ValidationError::X509DepthZeroSelfSignedCert));
    assert_eq!(X509ValidationError::from_raw(49), Some(X509ValidationError::X509SubtreeMinmax));
    assert_eq!(
        X509ValidationError::from_raw(X509_V_ERR_APPLICATION_VERIFICATION),
        Some(X509ValidationError::X509ApplicationVerification)
    );
    assert_eq!(X509ValidationError::from_raw(51), Some(X509ValidationError::X509UnsupportedConstraintType));
    assert_eq!(X509ValidationError::from_raw(54), Some(X509ValidationError::X509CrlPathValidationError));
}

#[test]
fn other_codes_are_unknown_and_keep_their_number() {
    assert_eq!(X509ValidationError::from_raw(1), Some(X509ValidationError::X509UnknownError(1)));
    assert_eq!(X509ValidationError::from_raw(55), Some(X509ValidationError::X509UnknownError(55)));
    assert_eq!(X509ValidationError::from_raw(-3), Some(X509ValidationError::X509UnknownError(-3)));
}

#[test]
fn distinct_known_codes_give_distinct_errors() {
    for a in 2..=54 {
        for b in 2..=54 {
            let ea = X509ValidationError::from_raw(a).unwrap();
            let eb = X509ValidationError::from_raw(b).unwrap();
            assert_eq!(a == b, ea == eb);
            assert!(!matches!(ea, X509ValidationError::X509UnknownError(_)));
        }
    }
}
