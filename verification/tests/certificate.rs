use x509::certificate::{digest_overran, fingerprint_buffer, fingerprint_result, X509FileType};
use x509::hash::HashType;

#[test]
fn file_type_codes() {
    assert_eq!(X509FileType::PEM.raw_value(), 1);
    assert_eq!(X509FileType::ASN1.raw_value(), 2);
    assert_eq!(X509FileType::Default.raw_value(), 3);
}

#[test]
fn digest_lengths() {
    assert_eq!(HashType::MD5.digest_len(), 16);
    assert_eq!(HashType::SHA1.digest_len(), 20);
    assert_eq!(HashType::SHA224.digest_len(), 28);
    assert_eq!(HashType::SHA256.digest_len(), 32);
    assert_eq!(HashType::SHA384.digest_len(), 48);
    assert_eq!(HashType::SHA512.digest_len(), 64);
    assert_eq!(HashType::RIPEMD160.digest_len(), 20);
}

#[test]
fn failed_digest_gives_no_fingerprint() {
    assert_eq!(fingerprint_result(0, 20, 20, vec![1; 20]), None);
    assert_eq!(fingerprint_result(0, 20, 99, vec![1; 20]), None);
}

#[test]
fn short_digest_gives_no_fingerprint() {
    assert_eq!(fingerprint_result(1, 32, 20, vec![0; 32]), None);
}

#[test]
fn full_digest_is_the_fingerprint() {
    let d: Vec<u8> = (0..20).collect();
    assert_eq!(fingerprint_result(1, 20, 20, d.clone()), Some(d));
}

#[test]
fn buffer_has_digest_size() {
    assert_eq!(fingerprint_buffer(HashType::SHA256), vec![0u8; 32]);
    assert_eq!(fingerprint_buffer(HashType::MD5), vec![0u8; 16]);
    assert_eq!(fingerprint_buffer(HashType::RIPEMD160).len(), 20);
}

#[test]
fn overrun_only_when_call_succeeded_and_wrote_too_much() {
    assert!(digest_overran(1, 20, 21));
    assert!(!digest_overran(1, 20, 20));
    assert!(!digest_overran(1, 20, 3));
    assert!(!digest_overran(0, 20, 21));
}
