use coset::iana::{
    Algorithm, EllipticCurve, EnumI128, HeaderParameter, KeyOperation, KeyParameter, KeyType,
    WithPrivateRange, ALGORITHM_PRIVATE_USE_MAX,
};

#[test]
fn private_range_boundary() {
    assert!(!Algorithm::is_private(-65536));
    assert!(Algorithm::is_private(-65537));
    assert!(!HeaderParameter::is_private(-65536));
    assert!(HeaderParameter::is_private(-65537));
    assert!(!EllipticCurve::is_private(-65536));
    assert!(EllipticCurve::is_private(-65537));
    assert!(!EllipticCurve::is_private(0));
    assert_eq!(ALGORITHM_PRIVATE_USE_MAX, -65536);
}

#[test]
fn registry_values() {
    assert_eq!(Algorithm::RS1.to_i128(), -65535);
    assert_eq!(Algorithm::ES256.to_i128(), -7);
    assert_eq!(Algorithm::IV_GENERATION.to_i128(), 34);
    assert_eq!(KeyType::Symmetric.to_i128(), 4);
    assert_eq!(KeyOperation::MacVerify.to_i128(), 10);
    assert_eq!(EllipticCurve::Secp256k1.to_i128(), 8);
}

#[test]
fn registry_lookup() {
    assert_eq!(Algorithm::from_i128(-7), Some(Algorithm::ES256));
    assert_eq!(Algorithm::from_i128(-65535), Some(Algorithm::RS1));
    assert_eq!(Algorithm::from_i128(0), None);
    assert_eq!(KeyParameter::from_i128(5), Some(KeyParameter::BaseIv));
    assert_eq!(KeyParameter::from_i128(6), None);
    assert_eq!(KeyType::from_i128(2), Some(KeyType::EC2));
    assert_eq!(KeyType::from_i128(7), None);
    assert_eq!(coset::iana::CoapContentFormat::from_i128(11544), Some(coset::iana::CoapContentFormat::VndOmaLwm2mCbor));
}
