//! Algorithm families, digests and key usages a provider can be configured with.
use vstd::prelude::*;

verus! {

/// Asymmetric key families, each with its key size in bits.
#[derive(Clone, Copy, Debug, PartialEq, Eq, Structural)]
pub enum AsymmetricEncryption {
    Rsa(u32),
    Ecc(u32),
}

/// Message digests known to the platform keystore.
#[derive(Clone, Copy, Debug, PartialEq, Eq, Structural)]
pub enum Hash {
    Md5,
    Sha1,
    Sha224,
    Sha256,
    Sha384,
    Sha512,
}

/// Block modes for symmetric ciphers.
#[derive(Clone, Copy, Debug, PartialEq, Eq, Structural)]
pub enum SymmetricMode {
    Cbc,
    Ecb,
    Gcm,
}

/// Symmetric block ciphers, with their mode and key size in bits.
#[derive(Clone, Copy, Debug, PartialEq, Eq, Structural)]
pub enum BlockCiphers {
    Aes(SymmetricMode, u32),
}

/// Capabilities granted to a key when it is configured.
#[derive(Clone, Copy, Debug, PartialEq, Eq, Structural)]
pub enum KeyUsage {
    ClientAuth,
    Decrypt,
    SignEncrypt,
    CreateX509,
}

/// The algorithm a provider works with: an asymmetric family with its digest,
/// or a symmetric cipher.
#[derive(Clone, Copy, Debug, PartialEq, Eq, Structural)]
pub enum EncryptionMode {
    ASym { algo: AsymmetricEncryption, digest: Hash },
    Sym(BlockCiphers),
}

/// The platform keystore signs and verifies with MD5 only under RSA keys.
pub open spec fn digest_fits_family(algo: AsymmetricEncryption, digest: Option<Hash>) -> bool {
    !(algo is Ecc && digest == Some(Hash::Md5))
}

/// Whether `digest` may be used with keys of the family `algo`.
pub fn is_digest_supported(algo: AsymmetricEncryption, digest: Option<Hash>) -> (r: bool)
    ensures
        r == digest_fits_family(algo, digest),
{
    match (algo, digest) {
        (AsymmetricEncryption::Ecc(_), Some(Hash::Md5)) => false,
        _ => true,
    }
}

/// Whether `usages` holds `wanted`.
pub fn has_usage(usages: &Vec<KeyUsage>, wanted: KeyUsage) -> (r: bool)
    ensures
        r == usages@.contains(wanted),
{
    let mut i: usize = 0;
    while i < usages.len()
        invariant
            i <= usages@.len(),
            forall|j: int| 0 <= j < i ==> usages@[j] != wanted,
        decreases usages@.len() - i,
    {
        if usages[i] == wanted {
            return true;
        }
        i += 1;
    }
    false
}

} // verus!
