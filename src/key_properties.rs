//! Names and flags that the platform keystore expects in its requests.
use vstd::prelude::*;
use crate::algorithms::{AsymmetricEncryption, KeyUsage};

verus! {

/// The name under which the platform keystore is registered as a provider.
pub const ANDROID_KEYSTORE: &'static str = "AndroidKeyStore";

/// Purpose flag: the key may encrypt.
pub const PURPOSE_ENCRYPT: i32 = 1;

/// Purpose flag: the key may decrypt.
pub const PURPOSE_DECRYPT: i32 = 2;

/// Purpose flag: the key may sign.
pub const PURPOSE_SIGN: i32 = 4;

/// Purpose flag: the key may verify.
pub const PURPOSE_VERIFY: i32 = 8;

/// Key algorithms as the platform's key-pair generator names them.
#[derive(Clone, Copy, Debug, PartialEq, Eq, Structural)]
pub enum KeyProperties {
    Rsa,
    Ec,
}

/// The platform's name of each key algorithm.
pub open spec fn algorithm_name(k: KeyProperties) -> Seq<char> {
    match k {
        KeyProperties::Rsa => "RSA"@,
        KeyProperties::Ec => "EC"@,
    }
}

/// The key algorithm that generates keys of the family `algo`.
pub open spec fn key_properties_of(algo: AsymmetricEncryption) -> KeyProperties {
    match algo {
        AsymmetricEncryption::Rsa(_) => KeyProperties::Rsa,
        AsymmetricEncryption::Ecc(_) => KeyProperties::Ec,
    }
}

impl KeyProperties {
    /// The platform's name of this key algorithm.
    pub fn to_str(&self) -> (r: &'static str)
        ensures
            r@ == algorithm_name(*self),
    {
        match self {
            KeyProperties::Rsa => "RSA",
            KeyProperties::Ec => "EC",
        }
    }
}

/// The purpose flags granted by a usage set: `Decrypt` grants encryption and
/// decryption, `SignEncrypt` grants signing and verification.
pub open spec fn purposes_of(usages: Seq<KeyUsage>) -> i32 {
    ((if usages.contains(KeyUsage::Decrypt) { PURPOSE_ENCRYPT + PURPOSE_DECRYPT } else { 0 })
        + (if usages.contains(KeyUsage::SignEncrypt) { PURPOSE_SIGN + PURPOSE_VERIFY } else { 0 })) as i32
}

/// The purpose flags of a key generated for `usages`.
pub fn purposes_for(usages: &Vec<KeyUsage>) -> (r: i32)
    ensures
        r == purposes_of(usages@),
{
    let mut flags: i32 = 0;
    if crate::algorithms::has_usage(usages, KeyUsage::Decrypt) {
        flags = flags + PURPOSE_ENCRYPT + PURPOSE_DECRYPT;
    }
    if crate::algorithms::has_usage(usages, KeyUsage::SignEncrypt) {
        flags = flags + PURPOSE_SIGN + PURPOSE_VERIFY;
    }
    flags
}

/// The signature engine used with keys of the family `algo`: SHA-256 with the
/// family's own scheme.
pub open spec fn signature_algorithm(algo: AsymmetricEncryption) -> Seq<char> {
    match algo {
        AsymmetricEncryption::Rsa(_) => "SHA256withRSA"@,
        AsymmetricEncryption::Ecc(_) => "SHA256withECDSA"@,
    }
}

/// The name of the signature engine for keys of the family `algo`.
pub fn signature_algorithm_for(algo: AsymmetricEncryption) -> (r: &'static str)
    ensures
        r@ == signature_algorithm(algo),
{
    match algo {
        AsymmetricEncryption::Rsa(_) => "SHA256withRSA",
        AsymmetricEncryption::Ecc(_) => "SHA256withECDSA",
    }
}

} // verus!
