use x509::generator::{after_step, serial_from_bytes, CertStep, ExtensionKind, Progress, X509Generator};
use x509::hash::HashType;
use x509::usage::{ExtKeyUsage, KeyUsage};

#[test]
fn default_plan() {
    let steps = X509Generator::new().generation_steps();
    assert_eq!(
        steps,
        vec![
            CertStep::GenerateKey { bits: 1024 },
            CertStep::CreateCertificate,
            CertStep::SetVersion { version: 2 },
            CertStep::SetRandomSerialNumber,
            CertStep::SetValidity { not_before_days: 0, not_after_days: 365 },
            CertStep::SetPublicKey,
            CertStep::AddSubjectEntry { field: "CN".to_string(), value: "rust-openssl".to_string() },
            CertStep::CopySubjectToIssuer,
            CertStep::Sign { hash_type: HashType::SHA1 },
        ]
    );
}

#[test]
fn configured_plan() {
    let steps = X509Generator::new()
        .set_bitlength(2048)
        .set_valid_period(30)
        .set_CN("example.org")
        .set_usage(&[KeyUsage::DigitalSignature, KeyUsage::KeyEncipherment])
        .set_ext_usage(&[ExtKeyUsage::ServerAuth])
        .set_sign_hash(HashType::SHA256)
        .generation_steps();
    assert_eq!(
        steps,
        vec![
            CertStep::GenerateKey { bits: 2048 },
            CertStep::CreateCertificate,
            CertStep::SetVersion { version: 2 },
            CertStep::SetRandomSerialNumber,
            CertStep::SetValidity { not_before_days: 0, not_after_days: 30 },
            CertStep::SetPublicKey,
            CertStep::AddSubjectEntry { field: "CN".to_string(), value: "example.org".to_string() },
            CertStep::CopySubjectToIssuer,
            CertStep::AddExtension {
                kind: ExtensionKind::KeyUsage,
                value: "digitalSignature,keyEncipherment".to_string(),
            },
            CertStep::AddExtension { kind: ExtensionKind::ExtKeyUsage, value: "serverAuth".to_string() },
            CertStep::Sign { hash_type: HashType::SHA256 },
        ]
    );
}

#[test]
fn only_extended_usage_extension() {
    let steps = X509Generator::new().set_ext_usage(&[ExtKeyUsage::ClientAuth, ExtKeyUsage::EmailProtection]).generation_steps();
    assert_eq!(steps.len(), 10);
    assert_eq!(
        steps[8],
        CertStep::AddExtension {
            kind: ExtensionKind::ExtKeyUsage,
            value: "clientAuth,emailProtection".to_string(),
        }
    );
}

#[test]
fn later_setting_replaces_earlier() {
    let steps = X509Generator::new()
        .set_usage(&[KeyUsage::CRLSign])
        .set_usage(&[])
        .set_bitlength(4096)
        .set_bitlength(512)
        .generation_steps();
    assert_eq!(steps.len(), 9);
    assert_eq!(steps[0], CertStep::GenerateKey { bits: 512 });
}

#[test]
fn serial_is_big_endian() {
    assert_eq!(serial_from_bytes(&[0, 0, 0, 0, 0, 0, 1, 2]), 0x0102);
    assert_eq!(serial_from_bytes(&[0x01, 0x23, 0x45, 0x67, 0x89, 0xab, 0xcd, 0xef]), 0x0123_4567_89ab_cdef);
    assert_eq!(serial_from_bytes(&[]), 0);
}

#[test]
fn serial_high_bit_makes_it_negative() {
    assert_eq!(serial_from_bytes(&[0xff; 8]), -1);
    assert_eq!(serial_from_bytes(&[0x80, 0, 0, 0, 0, 0, 0, 0]), i64::MIN);
}

#[test]
fn serial_keeps_low_eight_bytes() {
    assert_eq!(serial_from_bytes(&[0xaa, 0, 0, 0, 0, 0, 0, 0, 7]), 7);
}

#[test]
fn different_settings_give_different_plans() {
    let a = X509Generator::new().set_usage(&[KeyUsage::KeyCertSign, KeyUsage::CRLSign]).generation_steps();
    let b = X509Generator::new().set_usage(&[KeyUsage::CRLSign, KeyUsage::KeyCertSign]).generation_steps();
    let c = X509Generator::new().set_ext_usage(&[ExtKeyUsage::CodeSigning]).generation_steps();
    let d = X509Generator::new().set_CN("other").generation_steps();
    let base = X509Generator::new().generation_steps();
    assert_ne!(a, b);
    assert_ne!(a, c);
    assert_ne!(d, base);
    assert_eq!(base, X509Generator::new().set_usage(&[]).set_ext_usage(&[]).generation_steps());
}

#[test]
fn failed_step_ends_generation() {
    assert_eq!(after_step(0, 10, false), Progress::Failed);
    assert_eq!(after_step(9, 10, false), Progress::Failed);
}

#[test]
fn successful_step_moves_on_or_finishes() {
    assert_eq!(after_step(0, 10, true), Progress::Next(1));
    assert_eq!(after_step(8, 10, true), Progress::Next(9));
    assert_eq!(after_step(9, 10, true), Progress::Finished);
}
