use x509::usage::{AsStr, ExtKeyUsage, KeyUsage, ToStr};

#[test]
fn key_usage_names() {
    assert_eq!(KeyUsage::DigitalSignature.as_str(), "digitalSignature");
    assert_eq!(KeyUsage::NonRepudiation.as_str(), "nonRepudiation");
    assert_eq!(KeyUsage::KeyEncipherment.as_str(), "keyEncipherment");
    assert_eq!(KeyUsage::DataEncipherment.as_str(), "dataEncipherment");
    assert_eq!(KeyUsage::KeyAgreement.as_str(), "keyAgreement");
    assert_eq!(KeyUsage::KeyCertSign.as_str(), "keyCertSign");
    assert_eq!(KeyUsage::CRLSign.as_str(), "cRLSign");
    assert_eq!(KeyUsage::EncipherOnly.as_str(), "encipherOnly");
    assert_eq!(KeyUsage::DecipherOnly.as_str(), "decipherOnly");
}

#[test]
fn ext_key_usage_names() {
    assert_eq!(ExtKeyUsage::ServerAuth.as_str(), "serverAuth");
    assert_eq!(ExtKeyUsage::ClientAuth.as_str(), "clientAuth");
    assert_eq!(ExtKeyUsage::CodeSigning.as_str(), "codeSigning");
    assert_eq!(ExtKeyUsage::EmailProtection.as_str(), "emailProtection");
    assert_eq!(ExtKeyUsage::TimeStamping.as_str(), "timeStamping");
    assert_eq!(ExtKeyUsage::MsCodeInd.as_str(), "msCodeInd");
    assert_eq!(ExtKeyUsage::MsCodeCom.as_str(), "msCodeCom");
    assert_eq!(ExtKeyUsage::MsCtlSign.as_str(), "msCTLSign");
    assert_eq!(ExtKeyUsage::MsSgc.as_str(), "msSGC");
    assert_eq!(ExtKeyUsage::MsEfs.as_str(), "msEFS");
    assert_eq!(ExtKeyUsage::NsSgc.as_str(), "nsSGC");
}

#[test]
fn empty_list_is_empty_text() {
    let v: Vec<KeyUsage> = Vec::new();
    assert_eq!(v.to_str(), "");
}

#[test]
fn single_usage_has_no_comma() {
    let v = vec![ExtKeyUsage::ServerAuth];
    assert_eq!(v.to_str(), "serverAuth");
}

#[test]
fn usages_joined_by_commas_in_order() {
    let v = vec![KeyUsage::DigitalSignature, KeyUsage::KeyEncipherment, KeyUsage::CRLSign];
    assert_eq!(v.to_str(), "digitalSignature,keyEncipherment,cRLSign");
    let w = vec![ExtKeyUsage::ClientAuth, ExtKeyUsage::ServerAuth];
    assert_eq!(w.to_str(), "clientAuth,serverAuth");
}

#[test]
fn repeated_usage_repeated_in_text() {
    let v = vec![KeyUsage::KeyCertSign, KeyUsage::KeyCertSign];
    assert_eq!(v.to_str(), "keyCertSign,keyCertSign");
}

#[test]
fn different_lists_give_different_texts() {
    let a = vec![KeyUsage::DigitalSignature, KeyUsage::KeyCertSign];
    let b = vec![KeyUsage::KeyCertSign, KeyUsage::DigitalSignature];
    let c = vec![KeyUsage::DigitalSignature];
    assert_ne!(a.to_str(), b.to_str());
    assert_ne!(a.to_str(), c.to_str());
    let d = vec![ExtKeyUsage::MsSgc, ExtKeyUsage::NsSgc];
    let e = vec![ExtKeyUsage::NsSgc, ExtKeyUsage::MsSgc];
    assert_ne!(d.to_str(), e.to_str());
}

#[test]
fn every_name_is_distinct_and_comma_free() {
    let ku = [
        KeyUsage::DigitalSignature, KeyUsage::NonRepudiation, KeyUsage::KeyEncipherment,
        KeyUsage::DataEncipherment, KeyUsage::KeyAgreement, KeyUsage::KeyCertSign,
        KeyUsage::CRLSign, KeyUsage::EncipherOnly, KeyUsage::DecipherOnly,
    ];
    for (i, a) in ku.iter().enumerate() {
        assert!(!a.as_str().is_empty() && !a.as_str().contains(','));
        for (j, b) in ku.iter().enumerate() {
            assert_eq!(i == j, a.as_str() == b.as_str());
        }
    }
}
