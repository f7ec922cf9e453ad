//! Outcomes of certificate chain verification, as OpenSSL reports them by
//! number, and their decoding into a typed error.
use vstd::prelude::*;

verus! {

/// The verification succeeded.
pub const X509_V_OK: i32 = 0;

pub const X509_V_ERR_UNABLE_TO_GET_ISSUER_CERT: i32 = 2;
pub const X509_V_ERR_UNABLE_TO_GET_CRL: i32 = 3;
pub const X509_V_ERR_UNABLE_TO_DECRYPT_CERT_SIGNATURE: i32 = 4;
pub const X509_V_ERR_UNABLE_TO_DECRYPT_CRL_SIGNATURE: i32 = 5;
pub const X509_V_ERR_UNABLE_TO_DECODE_ISSUER_PUBLIC_KEY: i32 = 6;
pub const X509_V_ERR_CERT_SIGNATURE_FAILURE: i32 = 7;
pub const X509_V_ERR_CRL_SIGNATURE_FAILURE: i32 = 8;
pub const X509_V_ERR_CERT_NOT_YET_VALID: i32 = 9;
pub const X509_V_ERR_CERT_HAS_EXPIRED: i32 = 10;
pub const X509_V_ERR_CRL_NOT_YET_VALID: i32 = 11;
pub const X509_V_ERR_CRL_HAS_EXPIRED: i32 = 12;
pub const X509_V_ERR_ERROR_IN_CERT_NOT_BEFORE_FIELD: i32 = 13;
pub const X509_V_ERR_ERROR_IN_CERT_NOT_AFTER_FIELD: i32 = 14;
pub const X509_V_ERR_ERROR_IN_CRL_LAST_UPDATE_FIELD: i32 = 15;
pub const X509_V_ERR_ERROR_IN_CRL_NEXT_UPDATE_FIELD: i32 = 16;
pub const X509_V_ERR_OUT_OF_MEM: i32 = 17;
pub const X509_V_ERR_DEPTH_ZERO_SELF_SIGNED_CERT: i32 = 18;
pub const X509_V_ERR_SELF_SIGNED_CERT_IN_CHAIN: i32 = 19;
pub const X509_V_ERR_UNABLE_TO_GET_ISSUER_CERT_LOCALLY: i32 = 20;
pub const X509_V_ERR_UNABLE_TO_VERIFY_LEAF_SIGNATURE: i32 = 21;
pub const X509_V_ERR_CERT_CHAIN_TOO_LONG: i32 = 22;
pub const X509_V_ERR_CERT_REVOKED: i32 = 23;
pub const X509_V_ERR_INVALID_CA: i32 = 24;
pub const X509_V_ERR_PATH_LENGTH_EXCEEDED: i32 = 25;
pub const X509_V_ERR_INVALID_PURPOSE: i32 = 26;
pub const X509_V_ERR_CERT_UNTRUSTED: i32 = 27;
pub const X509_V_ERR_CERT_REJECTED: i32 = 28;
pub const X509_V_ERR_SUBJECT_ISSUER_MISMATCH: i32 = 29;
pub const X509_V_ERR_AKID_SKID_MISMATCH: i32 = 30;
pub const X509_V_ERR_AKID_ISSUER_SERIAL_MISMATCH: i32 = 31;
pub const X509_V_ERR_KEYUSAGE_NO_CERTSIGN: i32 = 32;
pub const X509_V_ERR_UNABLE_TO_GET_CRL_ISSUER: i32 = 33;
pub const X509_V_ERR_UNHANDLED_CRITICAL_EXTENSION: i32 = 34;
pub const X509_V_ERR_KEYUSAGE_NO_CRL_SIGN: i32 = 35;
pub const X509_V_ERR_UNHANDLED_CRITICAL_CRL_EXTENSION: i32 = 36;
pub const X509_V_ERR_INVALID_NON_CA: i32 = 37;
pub const X509_V_ERR_PROXY_PATH_LENGTH_EXCEEDED: i32 = 38;
pub const X509_V_ERR_KEYUSAGE_NO_DIGITAL_SIGNATURE: i32 = 39;
pub const X509_V_ERR_PROXY_CERTIFICATES_NOT_ALLOWED: i32 = 40;
pub const X509_V_ERR_INVALID_EXTENSION: i32 = 41;
pub const X509_V_ERR_INVALID_POLICY_EXTENSION: i32 = 42;
pub const X509_V_ERR_NO_EXPLICIT_POLICY: i32 = 43;
pub const X509_V_ERR_DIFFERENT_CRL_SCOPE: i32 = 44;
pub const X509_V_ERR_UNSUPPORTED_EXTENSION_FEATURE: i32 = 45;
pub const X509_V_ERR_UNNESTED_RESOURCE: i32 = 46;
pub const X509_V_ERR_PERMITTED_VIOLATION: i32 = 47;
pub const X509_V_ERR_EXCLUDED_VIOLATION: i32 = 48;
pub const X509_V_ERR_SUBTREE_MINMAX: i32 = 49;
pub const X509_V_ERR_UNSUPPORTED_CONSTRAINT_TYPE: i32 = 51;
pub const X509_V_ERR_UNSUPPORTED_CONSTRAINT_SYNTAX: i32 = 52;
pub const X509_V_ERR_UNSUPPORTED_NAME_SYNTAX: i32 = 53;
pub const X509_V_ERR_CRL_PATH_VALIDATION_ERROR: i32 = 54;
pub const X509_V_ERR_APPLICATION_VERIFICATION: i32 = 50;

/// The reason why the verification of a certificate chain failed.
#[derive(Clone, Copy, Debug, PartialEq, Eq, Structural)]
pub enum X509ValidationError {
    X509UnableToGetIssuerCert,
    X509UnableToGetCrl,
    X509UnableToDecryptCertSignature,
    X509UnableToDecryptCrlSignature,
    X509UnableToDecodeIssuerPublicKey,
    X509CertSignatureFailure,
    X509CrlSignatureFailure,
    X509CertNotYetValid,
    X509CertHasExpired,
    X509CrlNotYetValid,
    X509CrlHasExpired,
    X509ErrorInCertNotBeforeField,
    X509ErrorInCertNotAfterField,
    X509ErrorInCrlLastUpdateField,
    X509ErrorInCrlNextUpdateField,
    X509OutOfMem,
    X509DepthZeroSelfSignedCert,
    X509SelfSignedCertInChain,
    X509UnableToGetIssuerCertLocally,
    X509UnableToVerifyLeafSignature,
    X509CertChainTooLong,
    X509CertRevoked,
    X509InvalidCA,
    X509PathLengthExceeded,
    X509InvalidPurpose,
    X509CertUntrusted,
    X509CertRejected,
    X509SubjectIssuerMismatch,
    X509AkidSkidMismatch,
    X509AkidIssuerSerialMismatch,
    X509KeyusageNoCertsign,
    X509UnableToGetCrlIssuer,
    X509UnhandledCriticalExtension,
    X509KeyusageNoCrlSign,
    X509UnhandledCriticalCrlExtension,
    X509InvalidNonCA,
    X509ProxyPathLengthExceeded,
    X509KeyusageNoDigitalSignature,
    X509ProxyCertificatesNotAllowed,
    X509InvalidExtension,
    X509InavlidPolicyExtension,
    X509NoExplicitPolicy,
    X509DifferentCrlScope,
    X509UnsupportedExtensionFeature,
    X509UnnestedResource,
    X509PermittedVolation,
    X509ExcludedViolation,
    X509SubtreeMinmax,
    X509UnsupportedConstraintType,
    X509UnsupportedConstraintSyntax,
    X509UnsupportedNameSyntax,
    X509CrlPathValidationError,
    X509ApplicationVerification,
    /// A code that has no variant of its own.
    X509UnknownError(i32),
}

/// `code` lies in the range of codes that have a variant of their own.
pub open spec fn is_known_code(code: i32) -> bool {
    X509_V_ERR_UNABLE_TO_GET_ISSUER_CERT <= code <= X509_V_ERR_CRL_PATH_VALIDATION_ERROR
}

/// The code by which OpenSSL reports `e`.
pub open spec fn error_code(e: X509ValidationError) -> i32 {
    match e {
        X509ValidationError::X509UnableToGetIssuerCert => X509_V_ERR_UNABLE_TO_GET_ISSUER_CERT,
        X509ValidationError::X509UnableToGetCrl => X509_V_ERR_UNABLE_TO_GET_CRL,
        X509ValidationError::X509UnableToDecryptCertSignature => X509_V_ERR_UNABLE_TO_DECRYPT_CERT_SIGNATURE,
        X509ValidationError::X509UnableToDecryptCrlSignature => X509_V_ERR_UNABLE_TO_DECRYPT_CRL_SIGNATURE,
        X509ValidationError::X509UnableToDecodeIssuerPublicKey => X509_V_ERR_UNABLE_TO_DECODE_ISSUER_PUBLIC_KEY,
        X509ValidationError::X509CertSignatureFailure => X509_V_ERR_CERT_SIGNATURE_FAILURE,
        X509ValidationError::X509CrlSignatureFailure => X509_V_ERR_CRL_SIGNATURE_FAILURE,
        X509ValidationError::X509CertNotYetValid => X509_V_ERR_CERT_NOT_YET_VALID,
        X509ValidationError::X509CertHasExpired => X509_V_ERR_CERT_HAS_EXPIRED,
        X509ValidationError::X509CrlNotYetValid => X509_V_ERR_CRL_NOT_YET_VALID,
        X509ValidationError::X509CrlHasExpired => X509_V_ERR_CRL_HAS_EXPIRED,
        X509ValidationError::X509ErrorInCertNotBeforeField => X509_V_ERR_ERROR_IN_CERT_NOT_BEFORE_FIELD,
        X509ValidationError::X509ErrorInCertNotAfterField => X509_V_ERR_ERROR_IN_CERT_NOT_AFTER_FIELD,
        X509ValidationError::X509ErrorInCrlLastUpdateField => X509_V_ERR_ERROR_IN_CRL_LAST_UPDATE_FIELD,
        X509ValidationError::X509ErrorInCrlNextUpdateField => X509_V_ERR_ERROR_IN_CRL_NEXT_UPDATE_FIELD,
        X509ValidationError::X509OutOfMem => X509_V_ERR_OUT_OF_MEM,
        X509ValidationError::X509DepthZeroSelfSignedCert => X509_V_ERR_DEPTH_ZERO_SELF_SIGNED_CERT,
        X509ValidationError::X509SelfSignedCertInChain => X509_V_ERR_SELF_SIGNED_CERT_IN_CHAIN,
        X509ValidationError::X509UnableToGetIssuerCertLocally => X509_V_ERR_UNABLE_TO_GET_ISSUER_CERT_LOCALLY,
        X509ValidationError::X509UnableToVerifyLeafSignature => X509_V_ERR_UNABLE_TO_VERIFY_LEAF_SIGNATURE,
        X509ValidationError::X509CertChainTooLong => X509_V_ERR_CERT_CHAIN_TOO_LONG,
        X509ValidationError::X509CertRevoked => X509_V_ERR_CERT_REVOKED,
        X509ValidationError::X509InvalidCA => X509_V_ERR_INVALID_CA,
        X509ValidationError::X509PathLengthExceeded => X509_V_ERR_PATH_LENGTH_EXCEEDED,
        X509ValidationError::X509InvalidPurpose => X509_V_ERR_INVALID_PURPOSE,
        X509ValidationError::X509CertUntrusted => X509_V_ERR_CERT_UNTRUSTED,
        X509ValidationError::X509CertRejected => X509_V_ERR_CERT_REJECTED,
        X509ValidationError::X509SubjectIssuerMismatch => X509_V_ERR_SUBJECT_ISSUER_MISMATCH,
        X509ValidationError::X509AkidSkidMismatch => X509_V_ERR_AKID_SKID_MISMATCH,
        X509ValidationError::X509AkidIssuerSerialMismatch => X509_V_ERR_AKID_ISSUER_SERIAL_MISMATCH,
        X509ValidationError::X509KeyusageNoCertsign => X509_V_ERR_KEYUSAGE_NO_CERTSIGN,
        X509ValidationError::X509UnableToGetCrlIssuer => X509_V_ERR_UNABLE_TO_GET_CRL_ISSUER,
        X509ValidationError::X509UnhandledCriticalExtension => X509_V_ERR_UNHANDLED_CRITICAL_EXTENSION,
        X509ValidationError::X509KeyusageNoCrlSign => X509_V_ERR_KEYUSAGE_NO_CRL_SIGN,
        X509ValidationError::X509UnhandledCriticalCrlExtension => X509_V_ERR_UNHANDLED_CRITICAL_CRL_EXTENSION,
        X509ValidationError::X509InvalidNonCA => X509_V_ERR_INVALID_NON_CA,
        X509ValidationError::X509ProxyPathLengthExceeded => X509_V_ERR_PROXY_PATH_LENGTH_EXCEEDED,
        X509ValidationError::X509KeyusageNoDigitalSignature => X509_V_ERR_KEYUSAGE_NO_DIGITAL_SIGNATURE,
        X509ValidationError::X509ProxyCertificatesNotAllowed => X509_V_ERR_PROXY_CERTIFICATES_NOT_ALLOWED,
        X509ValidationError::X509InvalidExtension => X509_V_ERR_INVALID_EXTENSION,
        X509ValidationError::X509InavlidPolicyExtension => X509_V_ERR_INVALID_POLICY_EXTENSION,
        X509ValidationError::X509NoExplicitPolicy => X509_V_ERR_NO_EXPLICIT_POLICY,
        X509ValidationError::X509DifferentCrlScope => X509_V_ERR_DIFFERENT_CRL_SCOPE,
        X509ValidationError::X509UnsupportedExtensionFeature => X509_V_ERR_UNSUPPORTED_EXTENSION_FEATURE,
        X509ValidationError::X509UnnestedResource => X509_V_ERR_UNNESTED_RESOURCE,
        X509ValidationError::X509PermittedVolation => X509_V_ERR_PERMITTED_VIOLATION,
        X509ValidationError::X509ExcludedViolation => X509_V_ERR_EXCLUDED_VIOLATION,
        X509ValidationError::X509SubtreeMinmax => X509_V_ERR_SUBTREE_MINMAX,
        X509ValidationError::X509UnsupportedConstraintType => X509_V_ERR_UNSUPPORTED_CONSTRAINT_TYPE,
        X509ValidationError::X509UnsupportedConstraintSyntax => X509_V_ERR_UNSUPPORTED_CONSTRAINT_SYNTAX,
        X509ValidationError::X509UnsupportedNameSyntax => X509_V_ERR_UNSUPPORTED_NAME_SYNTAX,
        X509ValidationError::X509CrlPathValidationError => X509_V_ERR_CRL_PATH_VALIDATION_ERROR,
        X509ValidationError::X509ApplicationVerification => X509_V_ERR_APPLICATION_VERIFICATION,
        X509ValidationError::X509UnknownError(code) => code,
    }
}

/// `e` is a value that decoding can produce: an unknown error carries a code
/// that is neither success nor one with a variant of its own.
pub open spec fn is_decodable(e: X509ValidationError) -> bool {
    match e {
        X509ValidationError::X509UnknownError(code) => code != X509_V_OK && !is_known_code(code),
        _ => true,
    }
}

impl X509ValidationError {
    /// Decodes a verification result code: `None` for success, otherwise the
    /// error that the code names.
    pub fn from_raw(err: i32) -> (res: Option<X509ValidationError>)
        ensures
            res is None <==> err == X509_V_OK,
            res matches Some(e) ==> error_code(e) == err,
            res matches Some(e) ==> (e is X509UnknownError <==> !is_known_code(err)),
    {
        match err {
            X509_V_OK => None,
            X509_V_ERR_UNABLE_TO_GET_ISSUER_CERT => Some(X509ValidationError::X509UnableToGetIssuerCert),
            X509_V_ERR_UNABLE_TO_GET_CRL => Some(X509ValidationError::X509UnableToGetCrl),
            X509_V_ERR_UNABLE_TO_DECRYPT_CERT_SIGNATURE => Some(X509ValidationError::X509UnableToDecryptCertSignature),
            X509_V_ERR_UNABLE_TO_DECRYPT_CRL_SIGNATURE => Some(X509ValidationError::X509UnableToDecryptCrlSignature),
            X509_V_ERR_UNABLE_TO_DECODE_ISSUER_PUBLIC_KEY => Some(X509ValidationError::X509UnableToDecodeIssuerPublicKey),
            X509_V_ERR_CERT_SIGNATURE_FAILURE => Some(X509ValidationError::X509CertSignatureFailure),
            X509_V_ERR_CRL_SIGNATURE_FAILURE => Some(X509ValidationError::X509CrlSignatureFailure),
            X509_V_ERR_CERT_NOT_YET_VALID => Some(X509ValidationError::X509CertNotYetValid),
            X509_V_ERR_CERT_HAS_EXPIRED => Some(X509ValidationError::X509CertHasExpired),
            X509_V_ERR_CRL_NOT_YET_VALID => Some(X509ValidationError::X509CrlNotYetValid),
            X509_V_ERR_CRL_HAS_EXPIRED => Some(X509ValidationError::X509CrlHasExpired),
            X509_V_ERR_ERROR_IN_CERT_NOT_BEFORE_FIELD => Some(X509ValidationError::X509ErrorInCertNotBeforeField),
            X509_V_ERR_ERROR_IN_CERT_NOT_AFTER_FIELD => Some(X509ValidationError::X509ErrorInCertNotAfterField),
            X509_V_ERR_ERROR_IN_CRL_LAST_UPDATE_FIELD => Some(X509ValidationError::X509ErrorInCrlLastUpdateField),
            X509_V_ERR_ERROR_IN_CRL_NEXT_UPDATE_FIELD => Some(X509ValidationError::X509ErrorInCrlNextUpdateField),
            X509_V_ERR_OUT_OF_MEM => Some(X509ValidationError::X509OutOfMem),
            X509_V_ERR_DEPTH_ZERO_SELF_SIGNED_CERT => Some(X509ValidationError::X509DepthZeroSelfSignedCert),
            X509_V_ERR_SELF_SIGNED_CERT_IN_CHAIN => Some(X509ValidationError::X509SelfSignedCertInChain),
            X509_V_ERR_UNABLE_TO_GET_ISSUER_CERT_LOCALLY => Some(X509ValidationError::X509UnableToGetIssuerCertLocally),
            X509_V_ERR_UNABLE_TO_VERIFY_LEAF_SIGNATURE => Some(X509ValidationError::X509UnableToVerifyLeafSignature),
            X509_V_ERR_CERT_CHAIN_TOO_LONG => Some(X509ValidationError::X509CertChainTooLong),
            X509_V_ERR_CERT_REVOKED => Some(X509ValidationError::X509CertRevoked),
            X509_V_ERR_INVALID_CA => Some(X509ValidationError::X509InvalidCA),
            X509_V_ERR_PATH_LENGTH_EXCEEDED => Some(X509ValidationError::X509PathLengthExceeded),
            X509_V_ERR_INVALID_PURPOSE => Some(X509ValidationError::X509InvalidPurpose),
            X509_V_ERR_CERT_UNTRUSTED => Some(X509ValidationError::X509CertUntrusted),
            X509_V_ERR_CERT_REJECTED => Some(X509ValidationError::X509CertRejected),
            X509_V_ERR_SUBJECT_ISSUER_MISMATCH => Some(X509ValidationError::X509SubjectIssuerMismatch),
            X509_V_ERR_AKID_SKID_MISMATCH => Some(X509ValidationError::X509AkidSkidMismatch),
            X509_V_ERR_AKID_ISSUER_SERIAL_MISMATCH => Some(X509ValidationError::X509AkidIssuerSerialMismatch),
            X509_V_ERR_KEYUSAGE_NO_CERTSIGN => Some(X509ValidationError::X509KeyusageNoCertsign),
            X509_V_ERR_UNABLE_TO_GET_CRL_ISSUER => Some(X509ValidationError::X509UnableToGetCrlIssuer),
            X509_V_ERR_UNHANDLED_CRITICAL_EXTENSION => Some(X509ValidationError::X509UnhandledCriticalExtension),
            X509_V_ERR_KEYUSAGE_NO_CRL_SIGN => Some(X509ValidationError::X509KeyusageNoCrlSign),
            X509_V_ERR_UNHANDLED_CRITICAL_CRL_EXTENSION => Some(X509ValidationError::X509UnhandledCriticalCrlExtension),
            X509_V_ERR_INVALID_NON_CA => Some(X509ValidationError::X509InvalidNonCA),
            X509_V_ERR_PROXY_PATH_LENGTH_EXCEEDED => Some(X509ValidationError::X509ProxyPathLengthExceeded),
            X509_V_ERR_KEYUSAGE_NO_DIGITAL_SIGNATURE => Some(X509ValidationError::X509KeyusageNoDigitalSignature),
            X509_V_ERR_PROXY_CERTIFICATES_NOT_ALLOWED => Some(X509ValidationError::X509ProxyCertificatesNotAllowed),
            X509_V_ERR_INVALID_EXTENSION => Some(X509ValidationError::X509InvalidExtension),
            X509_V_ERR_INVALID_POLICY_EXTENSION => Some(X509ValidationError::X509InavlidPolicyExtension),
            X509_V_ERR_NO_EXPLICIT_POLICY => Some(X509ValidationError::X509NoExplicitPolicy),
            X509_V_ERR_DIFFERENT_CRL_SCOPE => Some(X509ValidationError::X509DifferentCrlScope),
            X509_V_ERR_UNSUPPORTED_EXTENSION_FEATURE => Some(X509ValidationError::X509UnsupportedExtensionFeature),
            X509_V_ERR_UNNESTED_RESOURCE => Some(X509ValidationError::X509UnnestedResource),
            X509_V_ERR_PERMITTED_VIOLATION => Some(X509ValidationError::X509PermittedVolation),
            X509_V_ERR_EXCLUDED_VIOLATION => Some(X509ValidationError::X509ExcludedViolation),
            X509_V_ERR_SUBTREE_MINMAX => Some(X509ValidationError::X509SubtreeMinmax),
            X509_V_ERR_UNSUPPORTED_CONSTRAINT_TYPE => Some(X509ValidationError::X509UnsupportedConstraintType),
            X509_V_ERR_UNSUPPORTED_CONSTRAINT_SYNTAX => Some(X509ValidationError::X509UnsupportedConstraintSyntax),
            X509_V_ERR_UNSUPPORTED_NAME_SYNTAX => Some(X509ValidationError::X509UnsupportedNameSyntax),
            X509_V_ERR_CRL_PATH_VALIDATION_ERROR => Some(X509ValidationError::X509CrlPathValidationError),
            X509_V_ERR_APPLICATION_VERIFICATION => Some(X509ValidationError::X509ApplicationVerification),
            _ => Some(X509ValidationError::X509UnknownError(err)),
        }
    }
}

/// Every named error has a code of its own range, and decoding loses
/// nothing: among the errors that decoding can produce, the code determines
/// the error.
pub proof fn lemma_error_code_injective(a: X509ValidationError, b: X509ValidationError)
    requires
        is_decodable(a),
        is_decodable(b),
        error_code(a) == error_code(b),
    ensures
        a == b,
        !(a is X509UnknownError) ==> is_known_code(error_code(a)),
{
}

/// Each named error is the one that OpenSSL's code of the same name, with
/// its number, stands for. With the contract of `from_raw` (the decoded
/// error carries the code it was decoded from) this fixes the decoding of
/// every code: `from_raw(X509_V_ERR_CERT_HAS_EXPIRED)` is
/// `Some(X509CertHasExpired)`, and so on for every variant.
pub proof fn lemma_named_errors_decode_from_named_codes()
    ensures
        X509_V_OK == 0,
        error_code(X509ValidationError::X509UnableToGetIssuerCert) == X509_V_ERR_UNABLE_TO_GET_ISSUER_CERT && X509_V_ERR_UNABLE_TO_GET_ISSUER_CERT == 2,
        error_code(X509ValidationError::X509UnableToGetCrl) == X509_V_ERR_UNABLE_TO_GET_CRL && X509_V_ERR_UNABLE_TO_GET_CRL == 3,
        error_code(X509ValidationError::X509UnableToDecryptCertSignature) == X509_V_ERR_UNABLE_TO_DECRYPT_CERT_SIGNATURE && X509_V_ERR_UNABLE_TO_DECRYPT_CERT_SIGNATURE == 4,
        error_code(X509ValidationError::X509UnableToDecryptCrlSignature) == X509_V_ERR_UNABLE_TO_DECRYPT_CRL_SIGNATURE && X509_V_ERR_UNABLE_TO_DECRYPT_CRL_SIGNATURE == 5,
        error_code(X509ValidationError::X509UnableToDecodeIssuerPublicKey) == X509_V_ERR_UNABLE_TO_DECODE_ISSUER_PUBLIC_KEY && X509_V_ERR_UNABLE_TO_DECODE_ISSUER_PUBLIC_KEY == 6,
        error_code(X509ValidationError::X509CertSignatureFailure) == X509_V_ERR_CERT_SIGNATURE_FAILURE && X509_V_ERR_CERT_SIGNATURE_FAILURE == 7,
        error_code(X509ValidationError::X509CrlSignatureFailure) == X509_V_ERR_CRL_SIGNATURE_FAILURE && X509_V_ERR_CRL_SIGNATURE_FAILURE == 8,
        error_code(X509ValidationError::X509CertNotYetValid) == X509_V_ERR_CERT_NOT_YET_VALID && X509_V_ERR_CERT_NOT_YET_VALID == 9,
        error_code(X509ValidationError::X509CertHasExpired) == X509_V_ERR_CERT_HAS_EXPIRED && X509_V_ERR_CERT_HAS_EXPIRED == 10,
        error_code(X509ValidationError::X509CrlNotYetValid) == X509_V_ERR_CRL_NOT_YET_VALID && X509_V_ERR_CRL_NOT_YET_VALID == 11,
        error_code(X509ValidationError::X509CrlHasExpired) == X509_V_ERR_CRL_HAS_EXPIRED && X509_V_ERR_CRL_HAS_EXPIRED == 12,
        error_code(X509ValidationError::X509ErrorInCertNotBeforeField) == X509_V_ERR_ERROR_IN_CERT_NOT_BEFORE_FIELD && X509_V_ERR_ERROR_IN_CERT_NOT_BEFORE_FIELD == 13,
        error_code(X509ValidationError::X509ErrorInCertNotAfterField) == X509_V_ERR_ERROR_IN_CERT_NOT_AFTER_FIELD && X509_V_ERR_ERROR_IN_CERT_NOT_AFTER_FIELD == 14,
        error_code(X509ValidationError::X509ErrorInCrlLastUpdateField) == X509_V_ERR_ERROR_IN_CRL_LAST_UPDATE_FIELD && X509_V_ERR_ERROR_IN_CRL_LAST_UPDATE_FIELD == 15,
        error_code(X509ValidationError::X509ErrorInCrlNextUpdateField) == X509_V_ERR_ERROR_IN_CRL_NEXT_UPDATE_FIELD && X509_V_ERR_ERROR_IN_CRL_NEXT_UPDATE_FIELD == 16,
        error_code(X509ValidationError::X509OutOfMem) == X509_V_ERR_OUT_OF_MEM && X509_V_ERR_OUT_OF_MEM == 17,
        error_code(X509ValidationError::X509DepthZeroSelfSignedCert) == X509_V_ERR_DEPTH_ZERO_SELF_SIGNED_CERT && X509_V_ERR_DEPTH_ZERO_SELF_SIGNED_CERT == 18,
        error_code(X509ValidationError::X509SelfSignedCertInChain) == X509_V_ERR_SELF_SIGNED_CERT_IN_CHAIN && X509_V_ERR_SELF_SIGNED_CERT_IN_CHAIN == 19,
        error_code(X509ValidationError::X509UnableToGetIssuerCertLocally) == X509_V_ERR_UNABLE_TO_GET_ISSUER_CERT_LOCALLY && X509_V_ERR_UNABLE_TO_GET_ISSUER_CERT_LOCALLY == 20,
        error_code(X509ValidationError::X509UnableToVerifyLeafSignature) == X509_V_ERR_UNABLE_TO_VERIFY_LEAF_SIGNATURE && X509_V_ERR_UNABLE_TO_VERIFY_LEAF_SIGNATURE == 21,
        error_code(X509ValidationError::X509CertChainTooLong) == X509_V_ERR_CERT_CHAIN_TOO_LONG && X509_V_ERR_CERT_CHAIN_TOO_LONG == 22,
        error_code(X509ValidationError::X509CertRevoked) == X509_V_ERR_CERT_REVOKED && X509_V_ERR_CERT_REVOKED == 23,
        error_code(X509ValidationError::X509InvalidCA) == X509_V_ERR_INVALID_CA && X509_V_ERR_INVALID_CA == 24,
        error_code(X509ValidationError::X509PathLengthExceeded) == X509_V_ERR_PATH_LENGTH_EXCEEDED && X509_V_ERR_PATH_LENGTH_EXCEEDED == 25,
        error_code(X509ValidationError::X509InvalidPurpose) == X509_V_ERR_INVALID_PURPOSE && X509_V_ERR_INVALID_PURPOSE == 26,
        error_code(X509ValidationError::X509CertUntrusted) == X509_V_ERR_CERT_UNTRUSTED && X509_V_ERR_CERT_UNTRUSTED == 27,
        error_code(X509ValidationError::X509CertRejected) == X509_V_ERR_CERT_REJECTED && X509_V_ERR_CERT_REJECTED == 28,
        error_code(X509ValidationError::X509SubjectIssuerMismatch) == X509_V_ERR_SUBJECT_ISSUER_MISMATCH && X509_V_ERR_SUBJECT_ISSUER_MISMATCH == 29,
        error_code(X509ValidationError::X509AkidSkidMismatch) == X509_V_ERR_AKID_SKID_MISMATCH && X509_V_ERR_AKID_SKID_MISMATCH == 30,
        error_code(X509ValidationError::X509AkidIssuerSerialMismatch) == X509_V_ERR_AKID_ISSUER_SERIAL_MISMATCH && X509_V_ERR_AKID_ISSUER_SERIAL_MISMATCH == 31,
        error_code(X509ValidationError::X509KeyusageNoCertsign) == X509_V_ERR_KEYUSAGE_NO_CERTSIGN && X509_V_ERR_KEYUSAGE_NO_CERTSIGN == 32,
        error_code(X509ValidationError::X509UnableToGetCrlIssuer) == X509_V_ERR_UNABLE_TO_GET_CRL_ISSUER && X509_V_ERR_UNABLE_TO_GET_CRL_ISSUER == 33,
        error_code(X509ValidationError::X509UnhandledCriticalExtension) == X509_V_ERR_UNHANDLED_CRITICAL_EXTENSION && X509_V_ERR_UNHANDLED_CRITICAL_EXTENSION == 34,
        error_code(X509ValidationError::X509KeyusageNoCrlSign) == X509_V_ERR_KEYUSAGE_NO_CRL_SIGN && X509_V_ERR_KEYUSAGE_NO_CRL_SIGN == 35,
        error_code(X509ValidationError::X509UnhandledCriticalCrlExtension) == X509_V_ERR_UNHANDLED_CRITICAL_CRL_EXTENSION && X509_V_ERR_UNHANDLED_CRITICAL_CRL_EXTENSION == 36,
        error_code(X509ValidationError::X509InvalidNonCA) == X509_V_ERR_INVALID_NON_CA && X509_V_ERR_INVALID_NON_CA == 37,
        error_code(X509ValidationError::X509ProxyPathLengthExceeded) == X509_V_ERR_PROXY_PATH_LENGTH_EXCEEDED && X509_V_ERR_PROXY_PATH_LENGTH_EXCEEDED == 38,
        error_code(X509ValidationError::X509KeyusageNoDigitalSignature) == X509_V_ERR_KEYUSAGE_NO_DIGITAL_SIGNATURE && X509_V_ERR_KEYUSAGE_NO_DIGITAL_SIGNATURE == 39,
        error_code(X509ValidationError::X509ProxyCertificatesNotAllowed) == X509_V_ERR_PROXY_CERTIFICATES_NOT_ALLOWED && X509_V_ERR_PROXY_CERTIFICATES_NOT_ALLOWED == 40,
        error_code(X509ValidationError::X509InvalidExtension) == X509_V_ERR_INVALID_EXTENSION && X509_V_ERR_INVALID_EXTENSION == 41,
        error_code(X509ValidationError::X509InavlidPolicyExtension) == X509_V_ERR_INVALID_POLICY_EXTENSION && X509_V_ERR_INVALID_POLICY_EXTENSION == 42,
        error_code(X509ValidationError::X509NoExplicitPolicy) == X509_V_ERR_NO_EXPLICIT_POLICY && X509_V_ERR_NO_EXPLICIT_POLICY == 43,
        error_code(X509ValidationError::X509DifferentCrlScope) == X509_V_ERR_DIFFERENT_CRL_SCOPE && X509_V_ERR_DIFFERENT_CRL_SCOPE == 44,
        error_code(X509ValidationError::X509UnsupportedExtensionFeature) == X509_V_ERR_UNSUPPORTED_EXTENSION_FEATURE && X509_V_ERR_UNSUPPORTED_EXTENSION_FEATURE == 45,
        error_code(X509ValidationError::X509UnnestedResource) == X509_V_ERR_UNNESTED_RESOURCE && X509_V_ERR_UNNESTED_RESOURCE == 46,
        error_code(X509ValidationError::X509PermittedVolation) == X509_V_ERR_PERMITTED_VIOLATION && X509_V_ERR_PERMITTED_VIOLATION == 47,
        error_code(X509ValidationError::X509ExcludedViolation) == X509_V_ERR_EXCLUDED_VIOLATION && X509_V_ERR_EXCLUDED_VIOLATION == 48,
        error_code(X509ValidationError::X509SubtreeMinmax) == X509_V_ERR_SUBTREE_MINMAX && X509_V_ERR_SUBTREE_MINMAX == 49,
        error_code(X509ValidationError::X509UnsupportedConstraintType) == X509_V_ERR_UNSUPPORTED_CONSTRAINT_TYPE && X509_V_ERR_UNSUPPORTED_CONSTRAINT_TYPE == 51,
        error_code(X509ValidationError::X509UnsupportedConstraintSyntax) == X509_V_ERR_UNSUPPORTED_CONSTRAINT_SYNTAX && X509_V_ERR_UNSUPPORTED_CONSTRAINT_SYNTAX == 52,
        error_code(X509ValidationError::X509UnsupportedNameSyntax) == X509_V_ERR_UNSUPPORTED_NAME_SYNTAX && X509_V_ERR_UNSUPPORTED_NAME_SYNTAX == 53,
        error_code(X509ValidationError::X509CrlPathValidationError) == X509_V_ERR_CRL_PATH_VALIDATION_ERROR && X509_V_ERR_CRL_PATH_VALIDATION_ERROR == 54,
        error_code(X509ValidationError::X509ApplicationVerification) == X509_V_ERR_APPLICATION_VERIFICATION && X509_V_ERR_APPLICATION_VERIFICATION == 50,
{
}

} // verus!
