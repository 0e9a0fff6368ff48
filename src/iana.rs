//! Enumerations for IANA-managed values.
//!
//! Sources:
//! - <https://www.iana.org/assignments/cose/cose.xhtml>
//! - <https://www.iana.org/assignments/cbor-tags/cbor-tags.xhtml>
//! - <https://www.iana.org/assignments/core-parameters/core-parameters.xhtml#content-formats>

use vstd::prelude::*;

verus! {

/// Trait indicating an enum that can be constructed from `i128` values.
///
/// `spec_value` is the integer that a constant stands for, and `spec_lookup`
/// the constant (if any) that an integer stands for.  Every registry value fits
/// in an `i64`, the range of an integer label.
pub trait EnumI128: Sized {
    spec fn spec_value(&self) -> int;

    spec fn spec_lookup(i: int) -> Option<Self>;

    fn from_i128(i: i128) -> (r: Option<Self>)
        ensures
            r == Self::spec_lookup(i as int),
    ;

    fn to_i128(&self) -> (r: i128)
        ensures
            r as int == self.spec_value(),
    ;

    /// Looking up the value of a constant gives the constant back.
    proof fn lemma_lookup_value(c: Self)
        ensures
            Self::spec_lookup(c.spec_value()) == Some(c),
    ;

    /// A successful lookup returns a constant with the integer looked up.
    proof fn lemma_value_lookup(i: int)
        ensures
            Self::spec_lookup(i) matches Some(c) ==> c.spec_value() == i,
    ;

    /// Every constant's value fits in an `i64`.
    proof fn lemma_value_range(c: Self)
        ensures
            i64::MIN <= c.spec_value() <= i64::MAX,
    ;
}

/// Trait indicating an enum with a range of private values.
pub trait WithPrivateRange {
    /// Values strictly below this one are reserved for private use.
    spec fn spec_private_use_max() -> int;

    fn is_private(i: i128) -> (r: bool)
        ensures
            r == (i < Self::spec_private_use_max()),
    ;
}

/// IANA-registered COSE header parameters.
///
/// From IANA registry https://www.iana.org/assignments/cose/cose.xhtml#header-parameters
/// as of 2021-03-19.
#[derive(Clone, Copy, Debug, PartialEq, Eq, Structural, PartialOrd, Ord, Hash)]
pub enum HeaderParameter {
    /// Reserved
    Reserved,
    /// Cryptographic algorithm to use
    ///
    /// Associated value of type int / tstr
    Alg,
    /// Critical headers to be understood
    ///
    /// Associated value of type [+ label]
    Crit,
    /// Content type of the payload
    ///
    /// Associated value of type tstr / uint
    ContentType,
    /// Key identifier
    ///
    /// Associated value of type bstr
    Kid,
    /// Full Initialization Vector
    ///
    /// Associated value of type bstr
    Iv,
    /// Partial Initialization Vector
    ///
    /// Associated value of type bstr
    PartialIv,
    /// CBOR-encoded signature structure
    ///
    /// Associated value of type COSE_Signature / [+ COSE_Signature ]
    CounterSignature,
    /// Counter signature with implied signer and headers
    ///
    /// Associated value of type bstr
    CounterSignature0,
    /// Identifies the context for the key identifier
    ///
    /// Associated value of type bstr
    KidContext,
    /// An unordered bag of X.509 certificates
    ///
    /// Associated value of type COSE_X509
    X5Bag,
    /// An ordered chain of X.509 certificates
    ///
    /// Associated value of type COSE_X509
    X5Chain,
    /// Hash of an X.509 certificate
    ///
    /// Associated value of type COSE_CertHash
    X5T,
    /// URI pointing to an X.509 certificate
    ///
    /// Associated value of type uri
    X5U,
    /// Challenge Nonce
    ///
    /// Associated value of type bstr
    CuphNonce,
    /// Public Key
    ///
    /// Associated value of type array
    CuphOwnerPubKey,
}

impl EnumI128 for HeaderParameter {
    open spec fn spec_value(&self) -> int {
        match self {
            HeaderParameter::Reserved => 0,
            HeaderParameter::Alg => 1,
            HeaderParameter::Crit => 2,
            HeaderParameter::ContentType => 3,
            HeaderParameter::Kid => 4,
            HeaderParameter::Iv => 5,
            HeaderParameter::PartialIv => 6,
            HeaderParameter::CounterSignature => 7,
            HeaderParameter::CounterSignature0 => 9,
            HeaderParameter::KidContext => 10,
            HeaderParameter::X5Bag => 32,
            HeaderParameter::X5Chain => 33,
            HeaderParameter::X5T => 34,
            HeaderParameter::X5U => 35,
            HeaderParameter::CuphNonce => 256,
            HeaderParameter::CuphOwnerPubKey => 257,
        }
    }

    open spec fn spec_lookup(i: int) -> Option<Self> {
        if i == 0 {
            Some(HeaderParameter::Reserved)
        } else if i == 1 {
            Some(HeaderParameter::Alg)
        } else if i == 2 {
            Some(HeaderParameter::Crit)
        } else if i == 3 {
            Some(HeaderParameter::ContentType)
        } else if i == 4 {
            Some(HeaderParameter::Kid)
        } else if i == 5 {
            Some(HeaderParameter::Iv)
        } else if i == 6 {
            Some(HeaderParameter::PartialIv)
        } else if i == 7 {
            Some(HeaderParameter::CounterSignature)
        } else if i == 9 {
            Some(HeaderParameter::CounterSignature0)
        } else if i == 10 {
            Some(HeaderParameter::KidContext)
        } else if i == 32 {
            Some(HeaderParameter::X5Bag)
        } else if i == 33 {
            Some(HeaderParameter::X5Chain)
        } else if i == 34 {
            Some(HeaderParameter::X5T)
        } else if i == 35 {
            Some(HeaderParameter::X5U)
        } else if i == 256 {
            Some(HeaderParameter::CuphNonce)
        } else if i == 257 {
            Some(HeaderParameter::CuphOwnerPubKey)
        } else {
            None
        }
    }

    fn from_i128(i: i128) -> (r: Option<Self>) {
        match i {
            0 => Some(HeaderParameter::Reserved),
            1 => Some(HeaderParameter::Alg),
            2 => Some(HeaderParameter::Crit),
            3 => Some(HeaderParameter::ContentType),
            4 => Some(HeaderParameter::Kid),
            5 => Some(HeaderParameter::Iv),
            6 => Some(HeaderParameter::PartialIv),
            7 => Some(HeaderParameter::CounterSignature),
            9 => Some(HeaderParameter::CounterSignature0),
            10 => Some(HeaderParameter::KidContext),
            32 => Some(HeaderParameter::X5Bag),
            33 => Some(HeaderParameter::X5Chain),
            34 => Some(HeaderParameter::X5T),
            35 => Some(HeaderParameter::X5U),
            256 => Some(HeaderParameter::CuphNonce),
            257 => Some(HeaderParameter::CuphOwnerPubKey),
            _ => None,
        }
    }

    fn to_i128(&self) -> (r: i128) {
        match self {
            HeaderParameter::Reserved => 0,
            HeaderParameter::Alg => 1,
            HeaderParameter::Crit => 2,
            HeaderParameter::ContentType => 3,
            HeaderParameter::Kid => 4,
            HeaderParameter::Iv => 5,
            HeaderParameter::PartialIv => 6,
            HeaderParameter::CounterSignature => 7,
            HeaderParameter::CounterSignature0 => 9,
            HeaderParameter::KidContext => 10,
            HeaderParameter::X5Bag => 32,
            HeaderParameter::X5Chain => 33,
            HeaderParameter::X5T => 34,
            HeaderParameter::X5U => 35,
            HeaderParameter::CuphNonce => 256,
            HeaderParameter::CuphOwnerPubKey => 257,
        }
    }

    proof fn lemma_lookup_value(c: Self) {
    }

    proof fn lemma_value_lookup(i: int) {
    }

    proof fn lemma_value_range(c: Self) {
    }
}

/// Integer values for COSE header parameters below this value are reserved for private use.
pub const HEADER_PARAMETER_PRIVATE_USE_MAX: i128 = -65536;

impl WithPrivateRange for HeaderParameter {
    open spec fn spec_private_use_max() -> int {
        HEADER_PARAMETER_PRIVATE_USE_MAX as int
    }

    fn is_private(i: i128) -> (r: bool) {
        i < HEADER_PARAMETER_PRIVATE_USE_MAX
    }
}

/// IANA-registered COSE header algorithm parameters.
///
/// From IANA registry https://www.iana.org/assignments/cose/cose.xhtml#header-algorithm-parameters
/// as of 2021-03-19.
#[derive(Clone, Copy, Debug, PartialEq, Eq, Structural, PartialOrd, Ord, Hash)]
pub enum HeaderAlgorithmParameter {
    /// Party V other provided information
    ///
    /// Associated value of type bstr
    PartyVOther,
    /// Party V provided nonce
    ///
    /// Associated value of type bstr / int
    PartyVNonce,
    /// Party V identity information
    ///
    /// Associated value of type bstr
    PartyVIdentity,
    /// Party U other provided information
    ///
    /// Associated value of type bstr
    PartyUOther,
    /// Party U provided nonce
    ///
    /// Associated value of type bstr / int
    PartyUNonce,
    /// Party U identity information
    ///
    /// Associated value of type bstr
    PartyUIdentity,
    /// Random salt
    ///
    /// Associated value of type bstr
    Salt,
    /// Static public key identifier for the sender
    ///
    /// Associated value of type bstr
    StaticKeyId,
    /// Static public key for the sender
    ///
    /// Associated value of type COSE_Key
    StaticKey,
    /// Ephemeral public key for the sender
    ///
    /// Associated value of type COSE_Key
    EphemeralKey,
}

impl EnumI128 for HeaderAlgorithmParameter {
    open spec fn spec_value(&self) -> int {
        match self {
            HeaderAlgorithmParameter::PartyVOther => -26,
            HeaderAlgorithmParameter::PartyVNonce => -25,
            HeaderAlgorithmParameter::PartyVIdentity => -24,
            HeaderAlgorithmParameter::PartyUOther => -23,
            HeaderAlgorithmParameter::PartyUNonce => -22,
            HeaderAlgorithmParameter::PartyUIdentity => -21,
            HeaderAlgorithmParameter::Salt => -20,
            HeaderAlgorithmParameter::StaticKeyId => -3,
            HeaderAlgorithmParameter::StaticKey => -2,
            HeaderAlgorithmParameter::EphemeralKey => -1,
        }
    }

    open spec fn spec_lookup(i: int) -> Option<Self> {
        if i == -26 {
            Some(HeaderAlgorithmParameter::PartyVOther)
        } else if i == -25 {
            Some(HeaderAlgorithmParameter::PartyVNonce)
        } else if i == -24 {
            Some(HeaderAlgorithmParameter::PartyVIdentity)
        } else if i == -23 {
            Some(HeaderAlgorithmParameter::PartyUOther)
        } else if i == -22 {
            Some(HeaderAlgorithmParameter::PartyUNonce)
        } else if i == -21 {
            Some(HeaderAlgorithmParameter::PartyUIdentity)
        } else if i == -20 {
            Some(HeaderAlgorithmParameter::Salt)
        } else if i == -3 {
            Some(HeaderAlgorithmParameter::StaticKeyId)
        } else if i == -2 {
            Some(HeaderAlgorithmParameter::StaticKey)
        } else if i == -1 {
            Some(HeaderAlgorithmParameter::EphemeralKey)
        } else {
            None
        }
    }

    fn from_i128(i: i128) -> (r: Option<Self>) {
        match i {
            -26 => Some(HeaderAlgorithmParameter::PartyVOther),
            -25 => Some(HeaderAlgorithmParameter::PartyVNonce),
            -24 => Some(HeaderAlgorithmParameter::PartyVIdentity),
            -23 => Some(HeaderAlgorithmParameter::PartyUOther),
            -22 => Some(HeaderAlgorithmParameter::PartyUNonce),
            -21 => Some(HeaderAlgorithmParameter::PartyUIdentity),
            -20 => Some(HeaderAlgorithmParameter::Salt),
            -3 => Some(HeaderAlgorithmParameter::StaticKeyId),
            -2 => Some(HeaderAlgorithmParameter::StaticKey),
            -1 => Some(HeaderAlgorithmParameter::EphemeralKey),
            _ => None,
        }
    }

    fn to_i128(&self) -> (r: i128) {
        match self {
            HeaderAlgorithmParameter::PartyVOther => -26,
            HeaderAlgorithmParameter::PartyVNonce => -25,
            HeaderAlgorithmParameter::PartyVIdentity => -24,
            HeaderAlgorithmParameter::PartyUOther => -23,
            HeaderAlgorithmParameter::PartyUNonce => -22,
            HeaderAlgorithmParameter::PartyUIdentity => -21,
            HeaderAlgorithmParameter::Salt => -20,
            HeaderAlgorithmParameter::StaticKeyId => -3,
            HeaderAlgorithmParameter::StaticKey => -2,
            HeaderAlgorithmParameter::EphemeralKey => -1,
        }
    }

    proof fn lemma_lookup_value(c: Self) {
    }

    proof fn lemma_value_lookup(i: int) {
    }

    proof fn lemma_value_range(c: Self) {
    }
}

/// IANA-registered COSE algorithms.
///
/// From IANA registry https://www.iana.org/assignments/cose/cose.xhtml#algorithms
/// as of 2021-03-19.
#[allow(non_camel_case_types)]
#[derive(Clone, Copy, Debug, PartialEq, Eq, Structural, PartialOrd, Ord, Hash)]
pub enum Algorithm {
    /// RSASSA-PKCS1-v1_5 using SHA-1
    RS1,
    /// WalnutDSA signature
    WalnutDSA,
    /// RSASSA-PKCS1-v1_5 using SHA-512
    RS512,
    /// RSASSA-PKCS1-v1_5 using SHA-384
    RS384,
    /// RSASSA-PKCS1-v1_5 using SHA-256
    RS256,
    /// ECDSA using secp256k1 curve and SHA-256
    ES256K,
    /// HSS/LMS hash-based digital signature
    HSS_LMS,
    /// SHAKE-256 512-bit Hash Value
    SHAKE256,
    /// SHA-2 512-bit Hash
    SHA_512,
    /// SHA-2 384-bit Hash
    SHA_384,
    /// RSAES-OAEP w/ SHA-512
    RSAES_OAEP_SHA_512,
    /// RSAES-OAEP w/ SHA-256
    RSAES_OAEP_SHA_256,
    /// RSAES-OAEP w/ SHA-1
    RSAES_OAEP_RFC_8017_default,
    /// RSASSA-PSS w/ SHA-512
    PS512,
    /// RSASSA-PSS_SHA-384
    PS384,
    /// RSASSA-PSS w/ SHA-256
    PS256,
    /// ECDSA w/ SHA-512
    ES512,
    /// ECDSA w/ SHA-384
    ES384,
    /// ECDH SS w/ Concat KDF and AES Key Wrap w/ 256-bit key
    ECDH_SS_A256KW,
    /// ECDH SS w/ Concat KDF and AES Key Wrap w/ 192-bit key
    ECDH_SS_A192KW,
    /// ECDH SS w/ Concat KDF and AES Key Wrap w/ 128-bit key
    ECDH_SS_A128KW,
    /// ECDH ES w/ Concat KDF and AES Key Wrap w/ 256-bit key
    ECDH_ES_A256KW,
    /// ECDH ES w/ Concat KDF and AES Key Wrap w/ 192-bit key
    ECDH_ES_A192KW,
    /// ECDH ES w/ Concat KDF and AES Key Wrap w/ 128-bit key
    ECDH_ES_A128KW,
    /// ECDH SS w/ HKDF - generate key directly
    ECDH_SS_HKDF_512,
    /// ECDH SS w/ HKDF - generate key directly
    ECDH_SS_HKDF_256,
    /// ECDH ES w/ HKDF - generate key directly
    ECDH_ES_HKDF_512,
    /// ECDH ES w/ HKDF - generate key directly
    ECDH_ES_HKDF_256,
    /// SHAKE-128 256-bit Hash Value
    SHAKE128,
    /// SHA-2 512-bit Hash truncated to 256-bits
    SHA_512_256,
    /// SHA-2 256-bit Hash
    SHA_256,
    /// SHA-2 256-bit Hash truncated to 64-bits
    SHA_256_64,
    /// SHA-1 Hash
    SHA_1,
    /// Shared secret w/ AES-MAC 256-bit key
    Direct_HKDF_AES_256,
    /// Shared secret w/ AES-MAC 128-bit key
    Direct_HKDF_AES_128,
    /// Shared secret w/ HKDF and SHA-512
    Direct_HKDF_SHA_512,
    /// Shared secret w/ HKDF and SHA-256
    Direct_HKDF_SHA_256,
    /// EdDSA
    EdDSA,
    /// ECDSA w/ SHA-256
    ES256,
    /// Direct use of CEK
    Direct,
    /// AES Key Wrap w/ 256-bit key
    A256KW,
    /// AES Key Wrap w/ 192-bit key
    A192KW,
    /// AES Key Wrap w/ 128-bit key
    A128KW,
    /// AES-GCM mode w/ 128-bit key, 128-bit tag
    A128GCM,
    /// AES-GCM mode w/ 192-bit key, 128-bit tag
    A192GCM,
    /// AES-GCM mode w/ 256-bit key, 128-bit tag
    A256GCM,
    /// HMAC w/ SHA-256 truncated to 64 bits
    HMAC_256_64,
    /// HMAC w/ SHA-256
    HMAC_256_256,
    /// HMAC w/ SHA-384
    HMAC_384_384,
    /// HMAC w/ SHA-512
    HMAC_512_512,
    /// AES-CCM mode 128-bit key, 64-bit tag, 13-byte nonce
    AES_CCM_16_64_128,
    /// AES-CCM mode 256-bit key, 64-bit tag, 13-byte nonce
    AES_CCM_16_64_256,
    /// AES-CCM mode 128-bit key, 64-bit tag, 7-byte nonce
    AES_CCM_64_64_128,
    /// AES-CCM mode 256-bit key, 64-bit tag, 7-byte nonce
    AES_CCM_64_64_256,
    /// AES-MAC 128-bit key, 64-bit tag
    AES_MAC_128_64,
    /// AES-MAC 256-bit key, 64-bit tag
    AES_MAC_256_64,
    /// ChaCha20/Poly1305 w/ 256-bit key, 128-bit tag
    ChaCha20Poly1305,
    /// AES-MAC 128-bit key, 128-bit tag
    AES_MAC_128_128,
    /// AES-MAC 256-bit key, 128-bit tag
    AES_MAC_256_128,
    /// AES-CCM mode 128-bit key, 128-bit tag, 13-byte nonce
    AES_CCM_16_128_128,
    /// AES-CCM mode 256-bit key, 128-bit tag, 13-byte nonce
    AES_CCM_16_128_256,
    /// AES-CCM mode 128-bit key, 128-bit tag, 7-byte nonce
    AES_CCM_64_128_128,
    /// AES-CCM mode 256-bit key, 128-bit tag, 7-byte nonce
    AES_CCM_64_128_256,
    /// For doing IV generation for symmetric algorithms.
    IV_GENERATION,
}

impl EnumI128 for Algorithm {
    open spec fn spec_value(&self) -> int {
        match self {
            Algorithm::RS1 => -65535,
            Algorithm::WalnutDSA => -260,
            Algorithm::RS512 => -259,
            Algorithm::RS384 => -258,
            Algorithm::RS256 => -257,
            Algorithm::ES256K => -47,
            Algorithm::HSS_LMS => -46,
            Algorithm::SHAKE256 => -45,
            Algorithm::SHA_512 => -44,
            Algorithm::SHA_384 => -43,
            Algorithm::RSAES_OAEP_SHA_512 => -42,
            Algorithm::RSAES_OAEP_SHA_256 => -41,
            Algorithm::RSAES_OAEP_RFC_8017_default => -40,
            Algorithm::PS512 => -39,
            Algorithm::PS384 => -38,
            Algorithm::PS256 => -37,
            Algorithm::ES512 => -36,
            Algorithm::ES384 => -35,
            Algorithm::ECDH_SS_A256KW => -34,
            Algorithm::ECDH_SS_A192KW => -33,
            Algorithm::ECDH_SS_A128KW => -32,
            Algorithm::ECDH_ES_A256KW => -31,
            Algorithm::ECDH_ES_A192KW => -30,
            Algorithm::ECDH_ES_A128KW => -29,
            Algorithm::ECDH_SS_HKDF_512 => -28,
            Algorithm::ECDH_SS_HKDF_256 => -27,
            Algorithm::ECDH_ES_HKDF_512 => -26,
            Algorithm::ECDH_ES_HKDF_256 => -25,
            Algorithm::SHAKE128 => -18,
            Algorithm::SHA_512_256 => -17,
            Algorithm::SHA_256 => -16,
            Algorithm::SHA_256_64 => -15,
            Algorithm::SHA_1 => -14,
            Algorithm::Direct_HKDF_AES_256 => -13,
            Algorithm::Direct_HKDF_AES_128 => -12,
            Algorithm::Direct_HKDF_SHA_512 => -11,
            Algorithm::Direct_HKDF_SHA_256 => -10,
            Algorithm::EdDSA => -8,
            Algorithm::ES256 => -7,
            Algorithm::Direct => -6,
            Algorithm::A256KW => -5,
            Algorithm::A192KW => -4,
            Algorithm::A128KW => -3,
            Algorithm::A128GCM => 1,
            Algorithm::A192GCM => 2,
            Algorithm::A256GCM => 3,
            Algorithm::HMAC_256_64 => 4,
            Algorithm::HMAC_256_256 => 5,
            Algorithm::HMAC_384_384 => 6,
            Algorithm::HMAC_512_512 => 7,
            Algorithm::AES_CCM_16_64_128 => 10,
            Algorithm::AES_CCM_16_64_256 => 11,
            Algorithm::AES_CCM_64_64_128 => 12,
            Algorithm::AES_CCM_64_64_256 => 13,
            Algorithm::AES_MAC_128_64 => 14,
            Algorithm::AES_MAC_256_64 => 15,
            Algorithm::ChaCha20Poly1305 => 24,
            Algorithm::AES_MAC_128_128 => 25,
            Algorithm::AES_MAC_256_128 => 26,
            Algorithm::AES_CCM_16_128_128 => 30,
            Algorithm::AES_CCM_16_128_256 => 31,
            Algorithm::AES_CCM_64_128_128 => 32,
            Algorithm::AES_CCM_64_128_256 => 33,
            Algorithm::IV_GENERATION => 34,
        }
    }

    open spec fn spec_lookup(i: int) -> Option<Self> {
        if i == -65535 {
            Some(Algorithm::RS1)
        } else if i == -260 {
            Some(Algorithm::WalnutDSA)
        } else if i == -259 {
            Some(Algorithm::RS512)
        } else if i == -258 {
            Some(Algorithm::RS384)
        } else if i == -257 {
            Some(Algorithm::RS256)
        } else if i == -47 {
            Some(Algorithm::ES256K)
        } else if i == -46 {
            Some(Algorithm::HSS_LMS)
        } else if i == -45 {
            Some(Algorithm::SHAKE256)
        } else if i == -44 {
            Some(Algorithm::SHA_512)
        } else if i == -43 {
            Some(Algorithm::SHA_384)
        } else if i == -42 {
            Some(Algorithm::RSAES_OAEP_SHA_512)
        } else if i == -41 {
            Some(Algorithm::RSAES_OAEP_SHA_256)
        } else if i == -40 {
            Some(Algorithm::RSAES_OAEP_RFC_8017_default)
        } else if i == -39 {
            Some(Algorithm::PS512)
        } else if i == -38 {
            Some(Algorithm::PS384)
        } else if i == -37 {
            Some(Algorithm::PS256)
        } else if i == -36 {
            Some(Algorithm::ES512)
        } else if i == -35 {
            Some(Algorithm::ES384)
        } else if i == -34 {
            Some(Algorithm::ECDH_SS_A256KW)
        } else if i == -33 {
            Some(Algorithm::ECDH_SS_A192KW)
        } else if i == -32 {
            Some(Algorithm::ECDH_SS_A128KW)
        } else if i == -31 {
            Some(Algorithm::ECDH_ES_A256KW)
        } else if i == -30 {
            Some(Algorithm::ECDH_ES_A192KW)
        } else if i == -29 {
            Some(Algorithm::ECDH_ES_A128KW)
        } else if i == -28 {
            Some(Algorithm::ECDH_SS_HKDF_512)
        } else if i == -27 {
            Some(Algorithm::ECDH_SS_HKDF_256)
        } else if i == -26 {
            Some(Algorithm::ECDH_ES_HKDF_512)
        } else if i == -25 {
            Some(Algorithm::ECDH_ES_HKDF_256)
        } else if i == -18 {
            Some(Algorithm::SHAKE128)
        } else if i == -17 {
            Some(Algorithm::SHA_512_256)
        } else if i == -16 {
            Some(Algorithm::SHA_256)
        } else if i == -15 {
            Some(Algorithm::SHA_256_64)
        } else if i == -14 {
            Some(Algorithm::SHA_1)
        } else if i == -13 {
            Some(Algorithm::Direct_HKDF_AES_256)
        } else if i == -12 {
            Some(Algorithm::Direct_HKDF_AES_128)
        } else if i == -11 {
            Some(Algorithm::Direct_HKDF_SHA_512)
        } else if i == -10 {
            Some(Algorithm::Direct_HKDF_SHA_256)
        } else if i == -8 {
            Some(Algorithm::EdDSA)
        } else if i == -7 {
            Some(Algorithm::ES256)
        } else if i == -6 {
            Some(Algorithm::Direct)
        } else if i == -5 {
            Some(Algorithm::A256KW)
        } else if i == -4 {
            Some(Algorithm::A192KW)
        } else if i == -3 {
            Some(Algorithm::A128KW)
        } else if i == 1 {
            Some(Algorithm::A128GCM)
        } else if i == 2 {
            Some(Algorithm::A192GCM)
        } else if i == 3 {
            Some(Algorithm::A256GCM)
        } else if i == 4 {
            Some(Algorithm::HMAC_256_64)
        } else if i == 5 {
            Some(Algorithm::HMAC_256_256)
        } else if i == 6 {
            Some(Algorithm::HMAC_384_384)
        } else if i == 7 {
            Some(Algorithm::HMAC_512_512)
        } else if i == 10 {
            Some(Algorithm::AES_CCM_16_64_128)
        } else if i == 11 {
            Some(Algorithm::AES_CCM_16_64_256)
        } else if i == 12 {
            Some(Algorithm::AES_CCM_64_64_128)
        } else if i == 13 {
            Some(Algorithm::AES_CCM_64_64_256)
        } else if i == 14 {
            Some(Algorithm::AES_MAC_128_64)
        } else if i == 15 {
            Some(Algorithm::AES_MAC_256_64)
        } else if i == 24 {
            Some(Algorithm::ChaCha20Poly1305)
        } else if i == 25 {
            Some(Algorithm::AES_MAC_128_128)
        } else if i == 26 {
            Some(Algorithm::AES_MAC_256_128)
        } else if i == 30 {
            Some(Algorithm::AES_CCM_16_128_128)
        } else if i == 31 {
            Some(Algorithm::AES_CCM_16_128_256)
        } else if i == 32 {
            Some(Algorithm::AES_CCM_64_128_128)
        } else if i == 33 {
            Some(Algorithm::AES_CCM_64_128_256)
        } else if i == 34 {
            Some(Algorithm::IV_GENERATION)
        } else {
            None
        }
    }

    fn from_i128(i: i128) -> (r: Option<Self>) {
        match i {
            -65535 => Some(Algorithm::RS1),
            -260 => Some(Algorithm::WalnutDSA),
            -259 => Some(Algorithm::RS512),
            -258 => Some(Algorithm::RS384),
            -257 => Some(Algorithm::RS256),
            -47 => Some(Algorithm::ES256K),
            -46 => Some(Algorithm::HSS_LMS),
            -45 => Some(Algorithm::SHAKE256),
            -44 => Some(Algorithm::SHA_512),
            -43 => Some(Algorithm::SHA_384),
            -42 => Some(Algorithm::RSAES_OAEP_SHA_512),
            -41 => Some(Algorithm::RSAES_OAEP_SHA_256),
            -40 => Some(Algorithm::RSAES_OAEP_RFC_8017_default),
            -39 => Some(Algorithm::PS512),
            -38 => Some(Algorithm::PS384),
            -37 => Some(Algorithm::PS256),
            -36 => Some(Algorithm::ES512),
            -35 => Some(Algorithm::ES384),
            -34 => Some(Algorithm::ECDH_SS_A256KW),
            -33 => Some(Algorithm::ECDH_SS_A192KW),
            -32 => Some(Algorithm::ECDH_SS_A128KW),
            -31 => Some(Algorithm::ECDH_ES_A256KW),
            -30 => Some(Algorithm::ECDH_ES_A192KW),
            -29 => Some(Algorithm::ECDH_ES_A128KW),
            -28 => Some(Algorithm::ECDH_SS_HKDF_512),
            -27 => Some(Algorithm::ECDH_SS_HKDF_256),
            -26 => Some(Algorithm::ECDH_ES_HKDF_512),
            -25 => Some(Algorithm::ECDH_ES_HKDF_256),
            -18 => Some(Algorithm::SHAKE128),
            -17 => Some(Algorithm::SHA_512_256),
            -16 => Some(Algorithm::SHA_256),
            -15 => Some(Algorithm::SHA_256_64),
            -14 => Some(Algorithm::SHA_1),
            -13 => Some(Algorithm::Direct_HKDF_AES_256),
            -12 => Some(Algorithm::Direct_HKDF_AES_128),
            -11 => Some(Algorithm::Direct_HKDF_SHA_512),
            -10 => Some(Algorithm::Direct_HKDF_SHA_256),
            -8 => Some(Algorithm::EdDSA),
            -7 => Some(Algorithm::ES256),
            -6 => Some(Algorithm::Direct),
            -5 => Some(Algorithm::A256KW),
            -4 => Some(Algorithm::A192KW),
            -3 => Some(Algorithm::A128KW),
            1 => Some(Algorithm::A128GCM),
            2 => Some(Algorithm::A192GCM),
            3 => Some(Algorithm::A256GCM),
            4 => Some(Algorithm::HMAC_256_64),
            5 => Some(Algorithm::HMAC_256_256),
            6 => Some(Algorithm::HMAC_384_384),
            7 => Some(Algorithm::HMAC_512_512),
            10 => Some(Algorithm::AES_CCM_16_64_128),
            11 => Some(Algorithm::AES_CCM_16_64_256),
            12 => Some(Algorithm::AES_CCM_64_64_128),
            13 => Some(Algorithm::AES_CCM_64_64_256),
            14 => Some(Algorithm::AES_MAC_128_64),
            15 => Some(Algorithm::AES_MAC_256_64),
            24 => Some(Algorithm::ChaCha20Poly1305),
            25 => Some(Algorithm::AES_MAC_128_128),
            26 => Some(Algorithm::AES_MAC_256_128),
            30 => Some(Algorithm::AES_CCM_16_128_128),
            31 => Some(Algorithm::AES_CCM_16_128_256),
            32 => Some(Algorithm::AES_CCM_64_128_128),
            33 => Some(Algorithm::AES_CCM_64_128_256),
            34 => Some(Algorithm::IV_GENERATION),
            _ => None,
        }
    }

    fn to_i128(&self) -> (r: i128) {
        match self {
            Algorithm::RS1 => -65535,
            Algorithm::WalnutDSA => -260,
            Algorithm::RS512 => -259,
            Algorithm::RS384 => -258,
            Algorithm::RS256 => -257,
            Algorithm::ES256K => -47,
            Algorithm::HSS_LMS => -46,
            Algorithm::SHAKE256 => -45,
            Algorithm::SHA_512 => -44,
            Algorithm::SHA_384 => -43,
            Algorithm::RSAES_OAEP_SHA_512 => -42,
            Algorithm::RSAES_OAEP_SHA_256 => -41,
            Algorithm::RSAES_OAEP_RFC_8017_default => -40,
            Algorithm::PS512 => -39,
            Algorithm::PS384 => -38,
            Algorithm::PS256 => -37,
            Algorithm::ES512 => -36,
            Algorithm::ES384 => -35,
            Algorithm::ECDH_SS_A256KW => -34,
            Algorithm::ECDH_SS_A192KW => -33,
            Algorithm::ECDH_SS_A128KW => -32,
            Algorithm::ECDH_ES_A256KW => -31,
            Algorithm::ECDH_ES_A192KW => -30,
            Algorithm::ECDH_ES_A128KW => -29,
            Algorithm::ECDH_SS_HKDF_512 => -28,
            Algorithm::ECDH_SS_HKDF_256 => -27,
            Algorithm::ECDH_ES_HKDF_512 => -26,
            Algorithm::ECDH_ES_HKDF_256 => -25,
            Algorithm::SHAKE128 => -18,
            Algorithm::SHA_512_256 => -17,
            Algorithm::SHA_256 => -16,
            Algorithm::SHA_256_64 => -15,
            Algorithm::SHA_1 => -14,
            Algorithm::Direct_HKDF_AES_256 => -13,
            Algorithm::Direct_HKDF_AES_128 => -12,
            Algorithm::Direct_HKDF_SHA_512 => -11,
            Algorithm::Direct_HKDF_SHA_256 => -10,
            Algorithm::EdDSA => -8,
            Algorithm::ES256 => -7,
            Algorithm::Direct => -6,
            Algorithm::A256KW => -5,
            Algorithm::A192KW => -4,
            Algorithm::A128KW => -3,
            Algorithm::A128GCM => 1,
            Algorithm::A192GCM => 2,
            Algorithm::A256GCM => 3,
            Algorithm::HMAC_256_64 => 4,
            Algorithm::HMAC_256_256 => 5,
            Algorithm::HMAC_384_384 => 6,
            Algorithm::HMAC_512_512 => 7,
            Algorithm::AES_CCM_16_64_128 => 10,
            Algorithm::AES_CCM_16_64_256 => 11,
            Algorithm::AES_CCM_64_64_128 => 12,
            Algorithm::AES_CCM_64_64_256 => 13,
            Algorithm::AES_MAC_128_64 => 14,
            Algorithm::AES_MAC_256_64 => 15,
            Algorithm::ChaCha20Poly1305 => 24,
            Algorithm::AES_MAC_128_128 => 25,
            Algorithm::AES_MAC_256_128 => 26,
            Algorithm::AES_CCM_16_128_128 => 30,
            Algorithm::AES_CCM_16_128_256 => 31,
            Algorithm::AES_CCM_64_128_128 => 32,
            Algorithm::AES_CCM_64_128_256 => 33,
            Algorithm::IV_GENERATION => 34,
        }
    }

    proof fn lemma_lookup_value(c: Self) {
    }

    proof fn lemma_value_lookup(i: int) {
    }

    proof fn lemma_value_range(c: Self) {
    }
}

/// Integer values for COSE algorithms below this value are reserved for private use.
pub const ALGORITHM_PRIVATE_USE_MAX: i128 = -65536;

impl WithPrivateRange for Algorithm {
    open spec fn spec_private_use_max() -> int {
        ALGORITHM_PRIVATE_USE_MAX as int
    }

    fn is_private(i: i128) -> (r: bool) {
        i < ALGORITHM_PRIVATE_USE_MAX
    }
}

/// IANA-registered COSE common key parameters.
///
/// From IANA registry https://www.iana.org/assignments/cose/cose.xhtml#key-common-parameters
/// as of 2021-03-19.
#[derive(Clone, Copy, Debug, PartialEq, Eq, Structural, PartialOrd, Ord, Hash)]
pub enum KeyParameter {
    /// Reserved value.
    Reserved,
    /// Identification of the key type
    ///
    /// Associated value of type tstr / int
    Kty,
    /// Key identification value - match to kid in message
    ///
    /// Associated value of type bstr
    Kid,
    /// Key usage restriction to this algorithm
    ///
    /// Associated value of type tstr / int
    Alg,
    /// Restrict set of permissible operations
    ///
    /// Associated value of type [+ (tstr / int)]
    KeyOps,
    /// Base IV to be XORed with Partial IVs
    ///
    /// Associated value of type bstr
    BaseIv,
}

impl EnumI128 for KeyParameter {
    open spec fn spec_value(&self) -> int {
        match self {
            KeyParameter::Reserved => 0,
            KeyParameter::Kty => 1,
            KeyParameter::Kid => 2,
            KeyParameter::Alg => 3,
            KeyParameter::KeyOps => 4,
            KeyParameter::BaseIv => 5,
        }
    }

    open spec fn spec_lookup(i: int) -> Option<Self> {
        if i == 0 {
            Some(KeyParameter::Reserved)
        } else if i == 1 {
            Some(KeyParameter::Kty)
        } else if i == 2 {
            Some(KeyParameter::Kid)
        } else if i == 3 {
            Some(KeyParameter::Alg)
        } else if i == 4 {
            Some(KeyParameter::KeyOps)
        } else if i == 5 {
            Some(KeyParameter::BaseIv)
        } else {
            None
        }
    }

    fn from_i128(i: i128) -> (r: Option<Self>) {
        match i {
            0 => Some(KeyParameter::Reserved),
            1 => Some(KeyParameter::Kty),
            2 => Some(KeyParameter::Kid),
            3 => Some(KeyParameter::Alg),
            4 => Some(KeyParameter::KeyOps),
            5 => Some(KeyParameter::BaseIv),
            _ => None,
        }
    }

    fn to_i128(&self) -> (r: i128) {
        match self {
            KeyParameter::Reserved => 0,
            KeyParameter::Kty => 1,
            KeyParameter::Kid => 2,
            KeyParameter::Alg => 3,
            KeyParameter::KeyOps => 4,
            KeyParameter::BaseIv => 5,
        }
    }

    proof fn lemma_lookup_value(c: Self) {
    }

    proof fn lemma_value_lookup(i: int) {
    }

    proof fn lemma_value_range(c: Self) {
    }
}

/// IANA-registered COSE key parameters for keys of type [`KeyType::OKP`].
///
/// From IANA registry https://www.iana.org/assignments/cose/cose.xhtml#key-type-parameters
/// as of 2021-03-19.
#[derive(Clone, Copy, Debug, PartialEq, Eq, Structural, PartialOrd, Ord, Hash)]
pub enum OkpKeyParameter {
    /// EC identifier - Taken from the "COSE Elliptic Curves" registry
    ///
    /// Associated value of type tstr / int
    Crv,
    /// x-coordinate
    ///
    /// Associated value of type bstr
    X,
    /// Private key
    ///
    /// Associated value of type bstr
    D,
}

impl EnumI128 for OkpKeyParameter {
    open spec fn spec_value(&self) -> int {
        match self {
            OkpKeyParameter::Crv => -1,
            OkpKeyParameter::X => -2,
            OkpKeyParameter::D => -4,
        }
    }

    open spec fn spec_lookup(i: int) -> Option<Self> {
        if i == -1 {
            Some(OkpKeyParameter::Crv)
        } else if i == -2 {
            Some(OkpKeyParameter::X)
        } else if i == -4 {
            Some(OkpKeyParameter::D)
        } else {
            None
        }
    }

    fn from_i128(i: i128) -> (r: Option<Self>) {
        match i {
            -1 => Some(OkpKeyParameter::Crv),
            -2 => Some(OkpKeyParameter::X),
            -4 => Some(OkpKeyParameter::D),
            _ => None,
        }
    }

    fn to_i128(&self) -> (r: i128) {
        match self {
            OkpKeyParameter::Crv => -1,
            OkpKeyParameter::X => -2,
            OkpKeyParameter::D => -4,
        }
    }

    proof fn lemma_lookup_value(c: Self) {
    }

    proof fn lemma_value_lookup(i: int) {
    }

    proof fn lemma_value_range(c: Self) {
    }
}

/// IANA-registered COSE key parameters for keys of type [`KeyType::EC2`].
///
/// From IANA registry https://www.iana.org/assignments/cose/cose.xhtml#key-type-parameters
/// as of 2021-03-19.
#[derive(Clone, Copy, Debug, PartialEq, Eq, Structural, PartialOrd, Ord, Hash)]
pub enum Ec2KeyParameter {
    /// EC identifier - Taken from the "COSE Elliptic Curves" registry
    ///
    /// Associated value of type tstr / int
    Crv,
    /// Public Key
    ///
    /// Associated value of type bstr
    X,
    /// y-coordinate
    ///
    /// Associated value of type bstr / bool
    Y,
    /// Private key
    ///
    /// Associated value of type bstr
    D,
}

impl EnumI128 for Ec2KeyParameter {
    open spec fn spec_value(&self) -> int {
        match self {
            Ec2KeyParameter::Crv => -1,
            Ec2KeyParameter::X => -2,
            Ec2KeyParameter::Y => -3,
            Ec2KeyParameter::D => -4,
        }
    }

    open spec fn spec_lookup(i: int) -> Option<Self> {
        if i == -1 {
            Some(Ec2KeyParameter::Crv)
        } else if i == -2 {
            Some(Ec2KeyParameter::X)
        } else if i == -3 {
            Some(Ec2KeyParameter::Y)
        } else if i == -4 {
            Some(Ec2KeyParameter::D)
        } else {
            None
        }
    }

    fn from_i128(i: i128) -> (r: Option<Self>) {
        match i {
            -1 => Some(Ec2KeyParameter::Crv),
            -2 => Some(Ec2KeyParameter::X),
            -3 => Some(Ec2KeyParameter::Y),
            -4 => Some(Ec2KeyParameter::D),
            _ => None,
        }
    }

    fn to_i128(&self) -> (r: i128) {
        match self {
            Ec2KeyParameter::Crv => -1,
            Ec2KeyParameter::X => -2,
            Ec2KeyParameter::Y => -3,
            Ec2KeyParameter::D => -4,
        }
    }

    proof fn lemma_lookup_value(c: Self) {
    }

    proof fn lemma_value_lookup(i: int) {
    }

    proof fn lemma_value_range(c: Self) {
    }
}

/// IANA-registered COSE key parameters for keys of type [`KeyType::RSA`].
///
/// From IANA registry https://www.iana.org/assignments/cose/cose.xhtml#key-type-parameters
/// as of 2021-03-19.
#[derive(Clone, Copy, Debug, PartialEq, Eq, Structural, PartialOrd, Ord, Hash)]
pub enum RsaKeyParameter {
    /// The RSA modulus n
    ///
    /// Associated value of type bstr
    N,
    /// The RSA public exponent e
    ///
    /// Associated value of type bstr
    E,
    /// The RSA private exponent d
    ///
    /// Associated value of type bstr
    D,
    /// The prime factor p of n
    ///
    /// Associated value of type bstr
    P,
    /// The prime factor q of n
    ///
    /// Associated value of type bstr
    Q,
    /// dP is d mod (p - 1)
    ///
    /// Associated value of type bstr
    DP,
    /// dQ is d mod (q - 1)
    ///
    /// Associated value of type bstr
    DQ,
    /// qInv is the CRT coefficient q^(-1) mod p
    ///
    /// Associated value of type bstr
    QInv,
    /// Other prime infos, an array
    ///
    /// Associated value of type array
    Other,
    /// a prime factor r_i of n, where i >= 3
    ///
    /// Associated value of type bstr
    RI,
    /// d_i = d mod (r_i - 1)
    ///
    /// Associated value of type bstr
    DI,
    /// The CRT coefficient t_i = (r_1 * r_2 * ... * r_(i-1))^(-1) mod r_i
    ///
    /// Associated value of type bstr
    TI,
}

impl EnumI128 for RsaKeyParameter {
    open spec fn spec_value(&self) -> int {
        match self {
            RsaKeyParameter::N => -1,
            RsaKeyParameter::E => -2,
            RsaKeyParameter::D => -3,
            RsaKeyParameter::P => -4,
            RsaKeyParameter::Q => -5,
            RsaKeyParameter::DP => -6,
            RsaKeyParameter::DQ => -7,
            RsaKeyParameter::QInv => -8,
            RsaKeyParameter::Other => -9,
            RsaKeyParameter::RI => -10,
            RsaKeyParameter::DI => -11,
            RsaKeyParameter::TI => -12,
        }
    }

    open spec fn spec_lookup(i: int) -> Option<Self> {
        if i == -1 {
            Some(RsaKeyParameter::N)
        } else if i == -2 {
            Some(RsaKeyParameter::E)
        } else if i == -3 {
            Some(RsaKeyParameter::D)
        } else if i == -4 {
            Some(RsaKeyParameter::P)
        } else if i == -5 {
            Some(RsaKeyParameter::Q)
        } else if i == -6 {
            Some(RsaKeyParameter::DP)
        } else if i == -7 {
            Some(RsaKeyParameter::DQ)
        } else if i == -8 {
            Some(RsaKeyParameter::QInv)
        } else if i == -9 {
            Some(RsaKeyParameter::Other)
        } else if i == -10 {
            Some(RsaKeyParameter::RI)
        } else if i == -11 {
            Some(RsaKeyParameter::DI)
        } else if i == -12 {
            Some(RsaKeyParameter::TI)
        } else {
            None
        }
    }

    fn from_i128(i: i128) -> (r: Option<Self>) {
        match i {
            -1 => Some(RsaKeyParameter::N),
            -2 => Some(RsaKeyParameter::E),
            -3 => Some(RsaKeyParameter::D),
            -4 => Some(RsaKeyParameter::P),
            -5 => Some(RsaKeyParameter::Q),
            -6 => Some(RsaKeyParameter::DP),
            -7 => Some(RsaKeyParameter::DQ),
            -8 => Some(RsaKeyParameter::QInv),
            -9 => Some(RsaKeyParameter::Other),
            -10 => Some(RsaKeyParameter::RI),
            -11 => Some(RsaKeyParameter::DI),
            -12 => Some(RsaKeyParameter::TI),
            _ => None,
        }
    }

    fn to_i128(&self) -> (r: i128) {
        match self {
            RsaKeyParameter::N => -1,
            RsaKeyParameter::E => -2,
            RsaKeyParameter::D => -3,
            RsaKeyParameter::P => -4,
            RsaKeyParameter::Q => -5,
            RsaKeyParameter::DP => -6,
            RsaKeyParameter::DQ => -7,
            RsaKeyParameter::QInv => -8,
            RsaKeyParameter::Other => -9,
            RsaKeyParameter::RI => -10,
            RsaKeyParameter::DI => -11,
            RsaKeyParameter::TI => -12,
        }
    }

    proof fn lemma_lookup_value(c: Self) {
    }

    proof fn lemma_value_lookup(i: int) {
    }

    proof fn lemma_value_range(c: Self) {
    }
}

/// IANA-registered COSE key parameters for keys of type [`KeyType::Symmetric`].
///
/// From IANA registry https://www.iana.org/assignments/cose/cose.xhtml#key-type-parameters
/// as of 2021-03-19.
#[derive(Clone, Copy, Debug, PartialEq, Eq, Structural, PartialOrd, Ord, Hash)]
pub enum SymmetricKeyParameter {
    /// Key Value
    ///
    /// Associated value of type bstr
    K,
}

impl EnumI128 for SymmetricKeyParameter {
    open spec fn spec_value(&self) -> int {
        match self {
            SymmetricKeyParameter::K => -1,
        }
    }

    open spec fn spec_lookup(i: int) -> Option<Self> {
        if i == -1 {
            Some(SymmetricKeyParameter::K)
        } else {
            None
        }
    }

    fn from_i128(i: i128) -> (r: Option<Self>) {
        match i {
            -1 => Some(SymmetricKeyParameter::K),
            _ => None,
        }
    }

    fn to_i128(&self) -> (r: i128) {
        match self {
            SymmetricKeyParameter::K => -1,
        }
    }

    proof fn lemma_lookup_value(c: Self) {
    }

    proof fn lemma_value_lookup(i: int) {
    }

    proof fn lemma_value_range(c: Self) {
    }
}

/// IANA-registered COSE key parameters for keys of type [`KeyType::HSS_LMS`].
///
/// From IANA registry https://www.iana.org/assignments/cose/cose.xhtml#key-type-parameters
/// as of 2021-03-19.
#[derive(Clone, Copy, Debug, PartialEq, Eq, Structural, PartialOrd, Ord, Hash)]
pub enum HssLmsKeyParameter {
    /// Public key for HSS/LMS hash-based digital signature
    ///
    /// Associated value of type bstr
    Pub,
}

impl EnumI128 for HssLmsKeyParameter {
    open spec fn spec_value(&self) -> int {
        match self {
            HssLmsKeyParameter::Pub => -1,
        }
    }

    open spec fn spec_lookup(i: int) -> Option<Self> {
        if i == -1 {
            Some(HssLmsKeyParameter::Pub)
        } else {
            None
        }
    }

    fn from_i128(i: i128) -> (r: Option<Self>) {
        match i {
            -1 => Some(HssLmsKeyParameter::Pub),
            _ => None,
        }
    }

    fn to_i128(&self) -> (r: i128) {
        match self {
            HssLmsKeyParameter::Pub => -1,
        }
    }

    proof fn lemma_lookup_value(c: Self) {
    }

    proof fn lemma_value_lookup(i: int) {
    }

    proof fn lemma_value_range(c: Self) {
    }
}

/// IANA-registered COSE key parameters for keys of type [`KeyType::WalnutDSA`].
///
/// From IANA registry https://www.iana.org/assignments/cose/cose.xhtml#key-type-parameters
/// as of 2021-03-19.
#[derive(Clone, Copy, Debug, PartialEq, Eq, Structural, PartialOrd, Ord, Hash)]
pub enum WalnutDsaKeyParameter {
    /// Group and Matrix (NxN) size
    ///
    /// Associated value of type uint
    N,
    /// Finite field F_q
    ///
    /// Associated value of type uint
    Q,
    /// List of T-values, enties in F_q
    ///
    /// Associated value of type array of uint
    TValues,
    /// NxN Matrix of enties in F_q in column-major form
    ///
    /// Associated value of type array of array of uint
    Matrix1,
    /// Permutation associated with matrix 1
    ///
    /// Associated value of type array of uint
    Permutation1,
    /// NxN Matrix of enties in F_q in column-major form
    ///
    /// Associated value of type array of array of uint
    Matrix2,
}

impl EnumI128 for WalnutDsaKeyParameter {
    open spec fn spec_value(&self) -> int {
        match self {
            WalnutDsaKeyParameter::N => -1,
            WalnutDsaKeyParameter::Q => -2,
            WalnutDsaKeyParameter::TValues => -3,
            WalnutDsaKeyParameter::Matrix1 => -4,
            WalnutDsaKeyParameter::Permutation1 => -5,
            WalnutDsaKeyParameter::Matrix2 => -6,
        }
    }

    open spec fn spec_lookup(i: int) -> Option<Self> {
        if i == -1 {
            Some(WalnutDsaKeyParameter::N)
        } else if i == -2 {
            Some(WalnutDsaKeyParameter::Q)
        } else if i == -3 {
            Some(WalnutDsaKeyParameter::TValues)
        } else if i == -4 {
            Some(WalnutDsaKeyParameter::Matrix1)
        } else if i == -5 {
            Some(WalnutDsaKeyParameter::Permutation1)
        } else if i == -6 {
            Some(WalnutDsaKeyParameter::Matrix2)
        } else {
            None
        }
    }

    fn from_i128(i: i128) -> (r: Option<Self>) {
        match i {
            -1 => Some(WalnutDsaKeyParameter::N),
            -2 => Some(WalnutDsaKeyParameter::Q),
            -3 => Some(WalnutDsaKeyParameter::TValues),
            -4 => Some(WalnutDsaKeyParameter::Matrix1),
            -5 => Some(WalnutDsaKeyParameter::Permutation1),
            -6 => Some(WalnutDsaKeyParameter::Matrix2),
            _ => None,
        }
    }

    fn to_i128(&self) -> (r: i128) {
        match self {
            WalnutDsaKeyParameter::N => -1,
            WalnutDsaKeyParameter::Q => -2,
            WalnutDsaKeyParameter::TValues => -3,
            WalnutDsaKeyParameter::Matrix1 => -4,
            WalnutDsaKeyParameter::Permutation1 => -5,
            WalnutDsaKeyParameter::Matrix2 => -6,
        }
    }

    proof fn lemma_lookup_value(c: Self) {
    }

    proof fn lemma_value_lookup(i: int) {
    }

    proof fn lemma_value_range(c: Self) {
    }
}

/// IANA-registered COSE key types.
///
/// From IANA registry https://www.iana.org/assignments/cose/cose.xhtml#key-type
/// as of 2021-03-19.
#[allow(non_camel_case_types)]
#[derive(Clone, Copy, Debug, PartialEq, Eq, Structural, PartialOrd, Ord, Hash)]
pub enum KeyType {
    /// This value is reserved
    Reserved,
    /// Octet Key Pair
    OKP,
    /// Elliptic Curve Keys w/ x- and y-coordinate pair
    EC2,
    /// RSA Key
    RSA,
    /// Symmetric Keys
    Symmetric,
    /// Public key for HSS/LMS hash-based digital signature
    HSS_LMS,
    /// WalnutDSA public key
    WalnutDSA,
}

impl EnumI128 for KeyType {
    open spec fn spec_value(&self) -> int {
        match self {
            KeyType::Reserved => 0,
            KeyType::OKP => 1,
            KeyType::EC2 => 2,
            KeyType::RSA => 3,
            KeyType::Symmetric => 4,
            KeyType::HSS_LMS => 5,
            KeyType::WalnutDSA => 6,
        }
    }

    open spec fn spec_lookup(i: int) -> Option<Self> {
        if i == 0 {
            Some(KeyType::Reserved)
        } else if i == 1 {
            Some(KeyType::OKP)
        } else if i == 2 {
            Some(KeyType::EC2)
        } else if i == 3 {
            Some(KeyType::RSA)
        } else if i == 4 {
            Some(KeyType::Symmetric)
        } else if i == 5 {
            Some(KeyType::HSS_LMS)
        } else if i == 6 {
            Some(KeyType::WalnutDSA)
        } else {
            None
        }
    }

    fn from_i128(i: i128) -> (r: Option<Self>) {
        match i {
            0 => Some(KeyType::Reserved),
            1 => Some(KeyType::OKP),
            2 => Some(KeyType::EC2),
            3 => Some(KeyType::RSA),
            4 => Some(KeyType::Symmetric),
            5 => Some(KeyType::HSS_LMS),
            6 => Some(KeyType::WalnutDSA),
            _ => None,
        }
    }

    fn to_i128(&self) -> (r: i128) {
        match self {
            KeyType::Reserved => 0,
            KeyType::OKP => 1,
            KeyType::EC2 => 2,
            KeyType::RSA => 3,
            KeyType::Symmetric => 4,
            KeyType::HSS_LMS => 5,
            KeyType::WalnutDSA => 6,
        }
    }

    proof fn lemma_lookup_value(c: Self) {
    }

    proof fn lemma_value_lookup(i: int) {
    }

    proof fn lemma_value_range(c: Self) {
    }
}

/// IANA-registered COSE elliptic curves.
///
/// From IANA registry https://www.iana.org/assignments/cose/cose.xhtml#elliptic-curves
/// as of 2021-03-19.
#[allow(non_camel_case_types)]
#[derive(Clone, Copy, Debug, PartialEq, Eq, Structural, PartialOrd, Ord, Hash)]
pub enum EllipticCurve {
    Reserved,
    /// EC2: NIST P-256 also known as secp256r1
    P_256,
    /// EC2: NIST P-384 also known as secp384r1
    P_384,
    /// EC2: NIST P-521 also known as secp521r1
    P_521,
    /// OKP: X25519 for use w/ ECDH only
    X25519,
    /// OKP: X448 for use w/ ECDH only
    X448,
    /// OKP: Ed25519 for use w/ EdDSA only
    Ed25519,
    /// OKP: Ed448 for use w/ EdDSA only
    Ed448,
    /// EC2: SECG secp256k1 curve
    Secp256k1,
}

impl EnumI128 for EllipticCurve {
    open spec fn spec_value(&self) -> int {
        match self {
            EllipticCurve::Reserved => 0,
            EllipticCurve::P_256 => 1,
            EllipticCurve::P_384 => 2,
            EllipticCurve::P_521 => 3,
            EllipticCurve::X25519 => 4,
            EllipticCurve::X448 => 5,
            EllipticCurve::Ed25519 => 6,
            EllipticCurve::Ed448 => 7,
            EllipticCurve::Secp256k1 => 8,
        }
    }

    open spec fn spec_lookup(i: int) -> Option<Self> {
        if i == 0 {
            Some(EllipticCurve::Reserved)
        } else if i == 1 {
            Some(EllipticCurve::P_256)
        } else if i == 2 {
            Some(EllipticCurve::P_384)
        } else if i == 3 {
            Some(EllipticCurve::P_521)
        } else if i == 4 {
            Some(EllipticCurve::X25519)
        } else if i == 5 {
            Some(EllipticCurve::X448)
        } else if i == 6 {
            Some(EllipticCurve::Ed25519)
        } else if i == 7 {
            Some(EllipticCurve::Ed448)
        } else if i == 8 {
            Some(EllipticCurve::Secp256k1)
        } else {
            None
        }
    }

    fn from_i128(i: i128) -> (r: Option<Self>) {
        match i {
            0 => Some(EllipticCurve::Reserved),
            1 => Some(EllipticCurve::P_256),
            2 => Some(EllipticCurve::P_384),
            3 => Some(EllipticCurve::P_521),
            4 => Some(EllipticCurve::X25519),
            5 => Some(EllipticCurve::X448),
            6 => Some(EllipticCurve::Ed25519),
            7 => Some(EllipticCurve::Ed448),
            8 => Some(EllipticCurve::Secp256k1),
            _ => None,
        }
    }

    fn to_i128(&self) -> (r: i128) {
        match self {
            EllipticCurve::Reserved => 0,
            EllipticCurve::P_256 => 1,
            EllipticCurve::P_384 => 2,
            EllipticCurve::P_521 => 3,
            EllipticCurve::X25519 => 4,
            EllipticCurve::X448 => 5,
            EllipticCurve::Ed25519 => 6,
            EllipticCurve::Ed448 => 7,
            EllipticCurve::Secp256k1 => 8,
        }
    }

    proof fn lemma_lookup_value(c: Self) {
    }

    proof fn lemma_value_lookup(i: int) {
    }

    proof fn lemma_value_range(c: Self) {
    }
}

/// Integer values for COSE elliptic curves below this value are reserved for private use.
pub const ELLIPTIC_CURVE_PRIVATE_USE_MAX: i128 = -65536;

impl WithPrivateRange for EllipticCurve {
    open spec fn spec_private_use_max() -> int {
        ELLIPTIC_CURVE_PRIVATE_USE_MAX as int
    }

    fn is_private(i: i128) -> (r: bool) {
        i < ELLIPTIC_CURVE_PRIVATE_USE_MAX
    }
}

/// Key operation values.
///
/// See RFC 8152 section 7.1 table 4.
#[derive(Clone, Copy, Debug, PartialEq, Eq, Structural, PartialOrd, Ord, Hash)]
pub enum KeyOperation {
    /// Key is used to create signatures. Requires private key fields.
    Sign,
    /// Key is used for verification of signatures.
    Verify,
    /// Key is used for key transport encryption.
    Encrypt,
    /// Key is used for key transport decryption. Requires private key fields.
    Decrypt,
    /// Key is used for key wrap encryption.
    WrapKey,
    /// Key is used for key wrap decryption.  Requires private key fields.
    UnwrapKey,
    /// Key is used for deriving keys.  Requires private key fields.
    DeriveKey,
    /// Key is used for deriving bits not to be used as a key.  Requires private key fields.
    DeriveBits,
    /// Key is used for creating MACs.
    MacCreate,
    /// Key is used for validating MACs.
    MacVerify,
}

impl EnumI128 for KeyOperation {
    open spec fn spec_value(&self) -> int {
        match self {
            KeyOperation::Sign => 1,
            KeyOperation::Verify => 2,
            KeyOperation::Encrypt => 3,
            KeyOperation::Decrypt => 4,
            KeyOperation::WrapKey => 5,
            KeyOperation::UnwrapKey => 6,
            KeyOperation::DeriveKey => 7,
            KeyOperation::DeriveBits => 8,
            KeyOperation::MacCreate => 9,
            KeyOperation::MacVerify => 10,
        }
    }

    open spec fn spec_lookup(i: int) -> Option<Self> {
        if i == 1 {
            Some(KeyOperation::Sign)
        } else if i == 2 {
            Some(KeyOperation::Verify)
        } else if i == 3 {
            Some(KeyOperation::Encrypt)
        } else if i == 4 {
            Some(KeyOperation::Decrypt)
        } else if i == 5 {
            Some(KeyOperation::WrapKey)
        } else if i == 6 {
            Some(KeyOperation::UnwrapKey)
        } else if i == 7 {
            Some(KeyOperation::DeriveKey)
        } else if i == 8 {
            Some(KeyOperation::DeriveBits)
        } else if i == 9 {
            Some(KeyOperation::MacCreate)
        } else if i == 10 {
            Some(KeyOperation::MacVerify)
        } else {
            None
        }
    }

    fn from_i128(i: i128) -> (r: Option<Self>) {
        match i {
            1 => Some(KeyOperation::Sign),
            2 => Some(KeyOperation::Verify),
            3 => Some(KeyOperation::Encrypt),
            4 => Some(KeyOperation::Decrypt),
            5 => Some(KeyOperation::WrapKey),
            6 => Some(KeyOperation::UnwrapKey),
            7 => Some(KeyOperation::DeriveKey),
            8 => Some(KeyOperation::DeriveBits),
            9 => Some(KeyOperation::MacCreate),
            10 => Some(KeyOperation::MacVerify),
            _ => None,
        }
    }

    fn to_i128(&self) -> (r: i128) {
        match self {
            KeyOperation::Sign => 1,
            KeyOperation::Verify => 2,
            KeyOperation::Encrypt => 3,
            KeyOperation::Decrypt => 4,
            KeyOperation::WrapKey => 5,
            KeyOperation::UnwrapKey => 6,
            KeyOperation::DeriveKey => 7,
            KeyOperation::DeriveBits => 8,
            KeyOperation::MacCreate => 9,
            KeyOperation::MacVerify => 10,
        }
    }

    proof fn lemma_lookup_value(c: Self) {
    }

    proof fn lemma_value_lookup(i: int) {
    }

    proof fn lemma_value_range(c: Self) {
    }
}

/// CBOR tag values for COSE structures.
///
/// From IANA registry https://www.iana.org/assignments/cbor-tags/cbor-tags.xhtml
/// as of 2021-03-19.
#[derive(Clone, Copy, Debug, PartialEq, Eq, Structural, PartialOrd, Ord, Hash)]
pub enum CborTag {
    /// COSE Single Recipient Encrypted Data Object
    CoseEncrypt0,
    /// COSE Mac w/o Recipients Object
    CoseMac0,
    /// COSE Single Signer Data Object
    CoseSign1,
    /// CBOR Web Token (CWT)
    Cwt,
    /// COSE Encrypted Data Object
    CoseEncrypt,
    /// COSE MACed Data Object
    CoseMac,
    /// COSE Signed Data Object
    CoseSign,
}

impl EnumI128 for CborTag {
    open spec fn spec_value(&self) -> int {
        match self {
            CborTag::CoseEncrypt0 => 16,
            CborTag::CoseMac0 => 17,
            CborTag::CoseSign1 => 18,
            CborTag::Cwt => 61,
            CborTag::CoseEncrypt => 96,
            CborTag::CoseMac => 97,
            CborTag::CoseSign => 98,
        }
    }

    open spec fn spec_lookup(i: int) -> Option<Self> {
        if i == 16 {
            Some(CborTag::CoseEncrypt0)
        } else if i == 17 {
            Some(CborTag::CoseMac0)
        } else if i == 18 {
            Some(CborTag::CoseSign1)
        } else if i == 61 {
            Some(CborTag::Cwt)
        } else if i == 96 {
            Some(CborTag::CoseEncrypt)
        } else if i == 97 {
            Some(CborTag::CoseMac)
        } else if i == 98 {
            Some(CborTag::CoseSign)
        } else {
            None
        }
    }

    fn from_i128(i: i128) -> (r: Option<Self>) {
        match i {
            16 => Some(CborTag::CoseEncrypt0),
            17 => Some(CborTag::CoseMac0),
            18 => Some(CborTag::CoseSign1),
            61 => Some(CborTag::Cwt),
            96 => Some(CborTag::CoseEncrypt),
            97 => Some(CborTag::CoseMac),
            98 => Some(CborTag::CoseSign),
            _ => None,
        }
    }

    fn to_i128(&self) -> (r: i128) {
        match self {
            CborTag::CoseEncrypt0 => 16,
            CborTag::CoseMac0 => 17,
            CborTag::CoseSign1 => 18,
            CborTag::Cwt => 61,
            CborTag::CoseEncrypt => 96,
            CborTag::CoseMac => 97,
            CborTag::CoseSign => 98,
        }
    }

    proof fn lemma_lookup_value(c: Self) {
    }

    proof fn lemma_value_lookup(i: int) {
    }

    proof fn lemma_value_range(c: Self) {
    }
}

/// CoAP Content Formats
///
/// From IANA registry https://www.iana.org/assignments/core-parameters/core-parameters.xhtml#content-formats
/// as of 2021-03-19.
#[derive(Clone, Copy, Debug, PartialEq, Eq, Structural, PartialOrd, Ord, Hash)]
pub enum CoapContentFormat {
    /// text/plain; charset=utf-8
    TextPlainUtf8,
    /// application/cose; cose-type="cose-encrypt0"
    CoseEncrypt0,
    /// application/cose; cose-type="cose-mac0"
    CoseMac0,
    /// application/cose; cose-type="cose-sign1"
    CoseSign1,
    /// application/link-format
    LinkFormat,
    /// application/xml
    Xml,
    /// application/octet-stream
    OctetStream,
    /// application/exi
    Exi,
    /// application/json
    Json,
    /// application/json-patch+json
    JsonPatchJson,
    /// application/merge-patch+json
    MergePatchJson,
    /// application/cbor
    Cbor,
    /// application/cwt
    Cwt,
    /// application/multipart-core
    MultipartCore,
    /// application/cbor-seq
    CborSeq,
    /// application/cose; cose-type="cose-encrypt"
    CoseEncrypt,
    /// application/cose; cose-type="cose-mac"
    CoseMac,
    /// application/cose; cose-type="cose-sign"
    CoseSign,
    /// application/cose-key
    CoseKey,
    /// application/cose-key-set
    CoseKeySet,
    /// application/senml+json
    SenmlJson,
    /// application/sensml+json
    SensmlJson,
    /// application/senml+cbor
    SenmlCbor,
    /// application/sensml+cbor
    SensmlCbor,
    /// application/senml-exi
    SenmlExi,
    /// application/sensml-exi
    SensmlExi,
    /// application/coap-group+json
    CoapGroupJson,
    /// application/dots+cbor
    DotsCbor,
    /// application/pkcs7-mime; smime-type=server-generated-key
    Pkcs7MimeSmimeTypeServerGeneratedKey,
    /// application/pkcs7-mime; smime-type=certs-only
    Pkcs7MimeSmimeTypeCertsOnly,
    /// application/pkcs7-mime; smime-type=CMC-Request
    Pkcs7MimeSmimeTypeCmcRequest,
    /// application/pkcs7-mime; smime-type=CMC-Response
    Pkcs7MimeSmimeTypeCmcResponse,
    /// application/pkcs8
    Pkcs8,
    /// application/csrattrs
    Csrattrs,
    /// application/pkcs10
    Pkcs10,
    /// application/pkix-cert
    PkixCert,
    /// application/senml+xml
    SenmlXml,
    /// application/sensml+xml
    SensmlXml,
    /// application/senml-etch+json
    SenmlEtchJson,
    /// application/senml-etch+cbor
    SenmlEtchCbor,
    /// application/td+json
    TdJson,
    /// application/vnd.ocf+cbor
    VndOcfCbor,
    /// application/oscore
    Oscore,
    /// application/json deflate
    JsonDeflate,
    /// application/cbor deflate
    CborDeflate,
    /// application/vnd.oma.lwm2m+tlv
    VndOmaLwm2mTlv,
    /// application/vnd.oma.lwm2m+json
    VndOmaLwm2mJson,
    /// application/vnd.oma.lwm2m+cbor
    VndOmaLwm2mCbor,
}

impl EnumI128 for CoapContentFormat {
    open spec fn spec_value(&self) -> int {
        match self {
            CoapContentFormat::TextPlainUtf8 => 0,
            CoapContentFormat::CoseEncrypt0 => 16,
            CoapContentFormat::CoseMac0 => 17,
            CoapContentFormat::CoseSign1 => 18,
            CoapContentFormat::LinkFormat => 40,
            CoapContentFormat::Xml => 41,
            CoapContentFormat::OctetStream => 42,
            CoapContentFormat::Exi => 47,
            CoapContentFormat::Json => 50,
            CoapContentFormat::JsonPatchJson => 51,
            CoapContentFormat::MergePatchJson => 52,
            CoapContentFormat::Cbor => 60,
            CoapContentFormat::Cwt => 61,
            CoapContentFormat::MultipartCore => 62,
            CoapContentFormat::CborSeq => 63,
            CoapContentFormat::CoseEncrypt => 96,
            CoapContentFormat::CoseMac => 97,
            CoapContentFormat::CoseSign => 98,
            CoapContentFormat::CoseKey => 101,
            CoapContentFormat::CoseKeySet => 102,
            CoapContentFormat::SenmlJson => 110,
            CoapContentFormat::SensmlJson => 111,
            CoapContentFormat::SenmlCbor => 112,
            CoapContentFormat::SensmlCbor => 113,
            CoapContentFormat::SenmlExi => 114,
            CoapContentFormat::SensmlExi => 115,
            CoapContentFormat::CoapGroupJson => 256,
            CoapContentFormat::DotsCbor => 271,
            CoapContentFormat::Pkcs7MimeSmimeTypeServerGeneratedKey => 280,
            CoapContentFormat::Pkcs7MimeSmimeTypeCertsOnly => 281,
            CoapContentFormat::Pkcs7MimeSmimeTypeCmcRequest => 282,
            CoapContentFormat::Pkcs7MimeSmimeTypeCmcResponse => 283,
            CoapContentFormat::Pkcs8 => 284,
            CoapContentFormat::Csrattrs => 285,
            CoapContentFormat::Pkcs10 => 286,
            CoapContentFormat::PkixCert => 287,
            CoapContentFormat::SenmlXml => 310,
            CoapContentFormat::SensmlXml => 311,
            CoapContentFormat::SenmlEtchJson => 320,
            CoapContentFormat::SenmlEtchCbor => 322,
            CoapContentFormat::TdJson => 432,
            CoapContentFormat::VndOcfCbor => 10000,
            CoapContentFormat::Oscore => 10001,
            CoapContentFormat::JsonDeflate => 11050,
            CoapContentFormat::CborDeflate => 11060,
            CoapContentFormat::VndOmaLwm2mTlv => 11542,
            CoapContentFormat::VndOmaLwm2mJson => 11543,
            CoapContentFormat::VndOmaLwm2mCbor => 11544,
        }
    }

    open spec fn spec_lookup(i: int) -> Option<Self> {
        if i == 0 {
            Some(CoapContentFormat::TextPlainUtf8)
        } else if i == 16 {
            Some(CoapContentFormat::CoseEncrypt0)
        } else if i == 17 {
            Some(CoapContentFormat::CoseMac0)
        } else if i == 18 {
            Some(CoapContentFormat::CoseSign1)
        } else if i == 40 {
            Some(CoapContentFormat::LinkFormat)
        } else if i == 41 {
            Some(CoapContentFormat::Xml)
        } else if i == 42 {
            Some(CoapContentFormat::OctetStream)
        } else if i == 47 {
            Some(CoapContentFormat::Exi)
        } else if i == 50 {
            Some(CoapContentFormat::Json)
        } else if i == 51 {
            Some(CoapContentFormat::JsonPatchJson)
        } else if i == 52 {
            Some(CoapContentFormat::MergePatchJson)
        } else if i == 60 {
            Some(CoapContentFormat::Cbor)
        } else if i == 61 {
            Some(CoapContentFormat::Cwt)
        } else if i == 62 {
            Some(CoapContentFormat::MultipartCore)
        } else if i == 63 {
            Some(CoapContentFormat::CborSeq)
        } else if i == 96 {
            Some(CoapContentFormat::CoseEncrypt)
        } else if i == 97 {
            Some(CoapContentFormat::CoseMac)
        } else if i == 98 {
            Some(CoapContentFormat::CoseSign)
        } else if i == 101 {
            Some(CoapContentFormat::CoseKey)
        } else if i == 102 {
            Some(CoapContentFormat::CoseKeySet)
        } else if i == 110 {
            Some(CoapContentFormat::SenmlJson)
        } else if i == 111 {
            Some(CoapContentFormat::SensmlJson)
        } else if i == 112 {
            Some(CoapContentFormat::SenmlCbor)
        } else if i == 113 {
            Some(CoapContentFormat::SensmlCbor)
        } else if i == 114 {
            Some(CoapContentFormat::SenmlExi)
        } else if i == 115 {
            Some(CoapContentFormat::SensmlExi)
        } else if i == 256 {
            Some(CoapContentFormat::CoapGroupJson)
        } else if i == 271 {
            Some(CoapContentFormat::DotsCbor)
        } else if i == 280 {
            Some(CoapContentFormat::Pkcs7MimeSmimeTypeServerGeneratedKey)
        } else if i == 281 {
            Some(CoapContentFormat::Pkcs7MimeSmimeTypeCertsOnly)
        } else if i == 282 {
            Some(CoapContentFormat::Pkcs7MimeSmimeTypeCmcRequest)
        } else if i == 283 {
            Some(CoapContentFormat::Pkcs7MimeSmimeTypeCmcResponse)
        } else if i == 284 {
            Some(CoapContentFormat::Pkcs8)
        } else if i == 285 {
            Some(CoapContentFormat::Csrattrs)
        } else if i == 286 {
            Some(CoapContentFormat::Pkcs10)
        } else if i == 287 {
            Some(CoapContentFormat::PkixCert)
        } else if i == 310 {
            Some(CoapContentFormat::SenmlXml)
        } else if i == 311 {
            Some(CoapContentFormat::SensmlXml)
        } else if i == 320 {
            Some(CoapContentFormat::SenmlEtchJson)
        } else if i == 322 {
            Some(CoapContentFormat::SenmlEtchCbor)
        } else if i == 432 {
            Some(CoapContentFormat::TdJson)
        } else if i == 10000 {
            Some(CoapContentFormat::VndOcfCbor)
        } else if i == 10001 {
            Some(CoapContentFormat::Oscore)
        } else if i == 11050 {
            Some(CoapContentFormat::JsonDeflate)
        } else if i == 11060 {
            Some(CoapContentFormat::CborDeflate)
        } else if i == 11542 {
            Some(CoapContentFormat::VndOmaLwm2mTlv)
        } else if i == 11543 {
            Some(CoapContentFormat::VndOmaLwm2mJson)
        } else if i == 11544 {
            Some(CoapContentFormat::VndOmaLwm2mCbor)
        } else {
            None
        }
    }

    fn from_i128(i: i128) -> (r: Option<Self>) {
        match i {
            0 => Some(CoapContentFormat::TextPlainUtf8),
            16 => Some(CoapContentFormat::CoseEncrypt0),
            17 => Some(CoapContentFormat::CoseMac0),
            18 => Some(CoapContentFormat::CoseSign1),
            40 => Some(CoapContentFormat::LinkFormat),
            41 => Some(CoapContentFormat::Xml),
            42 => Some(CoapContentFormat::OctetStream),
            47 => Some(CoapContentFormat::Exi),
            50 => Some(CoapContentFormat::Json),
            51 => Some(CoapContentFormat::JsonPatchJson),
            52 => Some(CoapContentFormat::MergePatchJson),
            60 => Some(CoapContentFormat::Cbor),
            61 => Some(CoapContentFormat::Cwt),
            62 => Some(CoapContentFormat::MultipartCore),
            63 => Some(CoapContentFormat::CborSeq),
            96 => Some(CoapContentFormat::CoseEncrypt),
            97 => Some(CoapContentFormat::CoseMac),
            98 => Some(CoapContentFormat::CoseSign),
            101 => Some(CoapContentFormat::CoseKey),
            102 => Some(CoapContentFormat::CoseKeySet),
            110 => Some(CoapContentFormat::SenmlJson),
            111 => Some(CoapContentFormat::SensmlJson),
            112 => Some(CoapContentFormat::SenmlCbor),
            113 => Some(CoapContentFormat::SensmlCbor),
            114 => Some(CoapContentFormat::SenmlExi),
            115 => Some(CoapContentFormat::SensmlExi),
            256 => Some(CoapContentFormat::CoapGroupJson),
            271 => Some(CoapContentFormat::DotsCbor),
            280 => Some(CoapContentFormat::Pkcs7MimeSmimeTypeServerGeneratedKey),
            281 => Some(CoapContentFormat::Pkcs7MimeSmimeTypeCertsOnly),
            282 => Some(CoapContentFormat::Pkcs7MimeSmimeTypeCmcRequest),
            283 => Some(CoapContentFormat::Pkcs7MimeSmimeTypeCmcResponse),
            284 => Some(CoapContentFormat::Pkcs8),
            285 => Some(CoapContentFormat::Csrattrs),
            286 => Some(CoapContentFormat::Pkcs10),
            287 => Some(CoapContentFormat::PkixCert),
            310 => Some(CoapContentFormat::SenmlXml),
            311 => Some(CoapContentFormat::SensmlXml),
            320 => Some(CoapContentFormat::SenmlEtchJson),
            322 => Some(CoapContentFormat::SenmlEtchCbor),
            432 => Some(CoapContentFormat::TdJson),
            10000 => Some(CoapContentFormat::VndOcfCbor),
            10001 => Some(CoapContentFormat::Oscore),
            11050 => Some(CoapContentFormat::JsonDeflate),
            11060 => Some(CoapContentFormat::CborDeflate),
            11542 => Some(CoapContentFormat::VndOmaLwm2mTlv),
            11543 => Some(CoapContentFormat::VndOmaLwm2mJson),
            11544 => Some(CoapContentFormat::VndOmaLwm2mCbor),
            _ => None,
        }
    }

    fn to_i128(&self) -> (r: i128) {
        match self {
            CoapContentFormat::TextPlainUtf8 => 0,
            CoapContentFormat::CoseEncrypt0 => 16,
            CoapContentFormat::CoseMac0 => 17,
            CoapContentFormat::CoseSign1 => 18,
            CoapContentFormat::LinkFormat => 40,
            CoapContentFormat::Xml => 41,
            CoapContentFormat::OctetStream => 42,
            CoapContentFormat::Exi => 47,
            CoapContentFormat::Json => 50,
            CoapContentFormat::JsonPatchJson => 51,
            CoapContentFormat::MergePatchJson => 52,
            CoapContentFormat::Cbor => 60,
            CoapContentFormat::Cwt => 61,
            CoapContentFormat::MultipartCore => 62,
            CoapContentFormat::CborSeq => 63,
            CoapContentFormat::CoseEncrypt => 96,
            CoapContentFormat::CoseMac => 97,
            CoapContentFormat::CoseSign => 98,
            CoapContentFormat::CoseKey => 101,
            CoapContentFormat::CoseKeySet => 102,
            CoapContentFormat::SenmlJson => 110,
            CoapContentFormat::SensmlJson => 111,
            CoapContentFormat::SenmlCbor => 112,
            CoapContentFormat::SensmlCbor => 113,
            CoapContentFormat::SenmlExi => 114,
            CoapContentFormat::SensmlExi => 115,
            CoapContentFormat::CoapGroupJson => 256,
            CoapContentFormat::DotsCbor => 271,
            CoapContentFormat::Pkcs7MimeSmimeTypeServerGeneratedKey => 280,
            CoapContentFormat::Pkcs7MimeSmimeTypeCertsOnly => 281,
            CoapContentFormat::Pkcs7MimeSmimeTypeCmcRequest => 282,
            CoapContentFormat::Pkcs7MimeSmimeTypeCmcResponse => 283,
            CoapContentFormat::Pkcs8 => 284,
            CoapContentFormat::Csrattrs => 285,
            CoapContentFormat::Pkcs10 => 286,
            CoapContentFormat::PkixCert => 287,
            CoapContentFormat::SenmlXml => 310,
            CoapContentFormat::SensmlXml => 311,
            CoapContentFormat::SenmlEtchJson => 320,
            CoapContentFormat::SenmlEtchCbor => 322,
            CoapContentFormat::TdJson => 432,
            CoapContentFormat::VndOcfCbor => 10000,
            CoapContentFormat::Oscore => 10001,
            CoapContentFormat::JsonDeflate => 11050,
            CoapContentFormat::CborDeflate => 11060,
            CoapContentFormat::VndOmaLwm2mTlv => 11542,
            CoapContentFormat::VndOmaLwm2mJson => 11543,
            CoapContentFormat::VndOmaLwm2mCbor => 11544,
        }
    }

    proof fn lemma_lookup_value(c: Self) {
    }

    proof fn lemma_value_lookup(i: int) {
    }

    proof fn lemma_value_range(c: Self) {
    }
}

} // verus!
