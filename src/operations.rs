//! One operation from an entry point: configure the shared provider from the
//! algorithm name the caller gave, bind it to the key, and build the request.
use vstd::prelude::*;
use crate::algorithms::{self, AsymmetricEncryption, BlockCiphers, EncryptionMode, KeyUsage};
use crate::config::{config_mode, create_config, default_usages};
use crate::error::SecurityModuleError;
use crate::provider::{
    AndroidProvider, CipherDirection, CipherRequest, KeyGenRequest, Refusal, SignRequest,
    VerifyRequest, bound_to, is_cipher_request, is_key_gen_request, is_sign_request,
    is_verify_request, reports,
};

verus! {

/// The asymmetric family of a mode, if it has one.
pub open spec fn mode_algo(m: EncryptionMode) -> Option<AsymmetricEncryption> {
    match m {
        EncryptionMode::ASym { algo, .. } => Some(algo),
        EncryptionMode::Sym(_) => None,
    }
}

/// The digest of a mode, if it has one.
pub open spec fn mode_digest(m: EncryptionMode) -> Option<algorithms::Hash> {
    match m {
        EncryptionMode::ASym { digest, .. } => Some(digest),
        EncryptionMode::Sym(_) => None,
    }
}

/// The symmetric cipher of a mode, if it has one.
pub open spec fn mode_cipher(m: EncryptionMode) -> Option<BlockCiphers> {
    match m {
        EncryptionMode::ASym { .. } => None,
        EncryptionMode::Sym(c) => Some(c),
    }
}

/// `p` was initialized from the configuration that an algorithm name gives
/// for the mode `m`: hardware-backed, with the default usages.
pub open spec fn configured_as(p: AndroidProvider, m: EncryptionMode) -> bool {
    &&& p.key_algo == mode_algo(m)
    &&& p.sym_algo == mode_cipher(m)
    &&& p.hash == mode_digest(m)
    &&& p.key_usages matches Some(v) && v@ == default_usages()
    &&& p.hardware_backed
}

/// Why key creation is refused under the mode `m`, if it is.
pub open spec fn mode_create_refusal(m: EncryptionMode) -> Option<Refusal> {
    if !(mode_algo(m) matches Some(AsymmetricEncryption::Rsa(_))) {
        Some(Refusal::InvalidAlgorithm)
    } else if mode_digest(m) != Some(algorithms::Hash::Sha256) {
        Some(Refusal::InvalidDigest)
    } else {
        None
    }
}

/// Why encryption and decryption are refused under the mode `m`, if they are.
pub open spec fn mode_cipher_refusal(m: EncryptionMode) -> Option<Refusal> {
    match mode_algo(m) {
        None => Some(Refusal::SymmetricCipher),
        Some(AsymmetricEncryption::Ecc(_)) => Some(Refusal::EcCipher),
        Some(AsymmetricEncryption::Rsa(_)) => None,
    }
}

/// Why signing and verification are refused under the mode `m`, if they are.
pub open spec fn mode_signature_refusal(m: EncryptionMode) -> Option<Refusal> {
    if mode_algo(m) is None {
        Some(Refusal::SymmetricSignature)
    } else {
        None
    }
}

/// Initializes `provider` from the configuration named `algorithm`; a name the
/// keystore does not list gives the default configuration.
fn configure(provider: &mut AndroidProvider, algorithm: &str) -> (r: Result<(), SecurityModuleError>)
    ensures
        r is Ok,
        configured_as(*final(provider), config_mode(algorithm@)),
        final(provider).key_id == old(provider).key_id,
        !final(provider).key_loaded,
{
    let config = create_config(algorithm, true);
    provider.initialize_from_config(config)
}

/// Initializes `provider` from `algorithm` and binds it to `key_id`.
fn configure_and_load(provider: &mut AndroidProvider, key_id: &str, algorithm: &str) -> (r: Result<(), SecurityModuleError>)
    ensures
        r is Ok,
        configured_as(*final(provider), config_mode(algorithm@)),
        final(provider).key_id@ == key_id@,
        final(provider).key_loaded,
{
    configure(provider, algorithm)?;
    provider.load_key(key_id)
}

/// Creates the key `key_id` with the algorithm named `algorithm`: the provider
/// is configured, and only RSA with SHA-256 yields a key-generation request.
pub fn prepare_key_generation(provider: &mut AndroidProvider, key_id: &str, algorithm: &str) -> (r: Result<KeyGenRequest, SecurityModuleError>)
    ensures
        configured_as(*final(provider), config_mode(algorithm@)),
        (mode_create_refusal(config_mode(algorithm@)) is None <==> r is Ok),
        r is Err ==> reports(mode_create_refusal(config_mode(algorithm@))->Some_0, r->Err_0),
        r is Ok ==> is_key_gen_request(r->Ok_0, *final(provider), key_id@) && final(provider).key_id@ == key_id@ && final(provider).key_loaded,
{
    configure(provider, algorithm)?;
    let ghost configured = *provider;
    let r = provider.create_key(key_id);
    proof {
        if r is Ok {
            assert(bound_to(configured, *provider, key_id@));
        }
    }
    r
}

/// Encrypts `data` under the key `key_id` with the algorithm named `algorithm`.
pub fn prepare_encryption(provider: &mut AndroidProvider, key_id: &str, data: &[u8], algorithm: &str) -> (r: Result<CipherRequest, SecurityModuleError>)
    ensures
        configured_as(*final(provider), config_mode(algorithm@)),
        final(provider).key_id@ == key_id@,
        (mode_cipher_refusal(config_mode(algorithm@)) is None <==> r is Ok),
        r is Err ==> reports(mode_cipher_refusal(config_mode(algorithm@))->Some_0, r->Err_0),
        r is Ok ==> is_cipher_request(r->Ok_0, *final(provider), CipherDirection::Encrypt, data@),
{
    configure_and_load(provider, key_id, algorithm)?;
    proof { assert(default_usages()[0] == KeyUsage::Decrypt); }
    provider.encrypt_data(data)
}

/// Decrypts `data` under the key `key_id` with the algorithm named `algorithm`.
pub fn prepare_decryption(provider: &mut AndroidProvider, key_id: &str, data: &[u8], algorithm: &str) -> (r: Result<CipherRequest, SecurityModuleError>)
    ensures
        configured_as(*final(provider), config_mode(algorithm@)),
        final(provider).key_id@ == key_id@,
        (mode_cipher_refusal(config_mode(algorithm@)) is None <==> r is Ok),
        r is Err ==> reports(mode_cipher_refusal(config_mode(algorithm@))->Some_0, r->Err_0),
        r is Ok ==> is_cipher_request(r->Ok_0, *final(provider), CipherDirection::Decrypt, data@),
{
    configure_and_load(provider, key_id, algorithm)?;
    proof { assert(default_usages()[0] == KeyUsage::Decrypt); }
    provider.decrypt_data(data)
}

/// Signs `data` with the key `key_id` and the algorithm named `algorithm`.
pub fn prepare_signing(provider: &mut AndroidProvider, key_id: &str, data: &[u8], algorithm: &str) -> (r: Result<SignRequest, SecurityModuleError>)
    ensures
        configured_as(*final(provider), config_mode(algorithm@)),
        final(provider).key_id@ == key_id@,
        (mode_signature_refusal(config_mode(algorithm@)) is None <==> r is Ok),
        r is Err ==> reports(mode_signature_refusal(config_mode(algorithm@))->Some_0, r->Err_0),
        r is Ok ==> is_sign_request(r->Ok_0, *final(provider), data@),
{
    configure_and_load(provider, key_id, algorithm)?;
    proof { assert(default_usages()[1] == KeyUsage::SignEncrypt); }
    provider.sign_data(data)
}

/// Checks `signature` over `data` against the key `key_id` with the algorithm
/// named `algorithm`.
pub fn prepare_verification(
    provider: &mut AndroidProvider,
    key_id: &str,
    data: &[u8],
    signature: &[u8],
    algorithm: &str,
) -> (r: Result<VerifyRequest, SecurityModuleError>)
    ensures
        configured_as(*final(provider), config_mode(algorithm@)),
        final(provider).key_id@ == key_id@,
        (mode_signature_refusal(config_mode(algorithm@)) is None <==> r is Ok),
        r is Err ==> reports(mode_signature_refusal(config_mode(algorithm@))->Some_0, r->Err_0),
        r is Ok ==> is_verify_request(r->Ok_0, *final(provider), data@, signature@),
{
    configure_and_load(provider, key_id, algorithm)?;
    proof { assert(default_usages()[1] == KeyUsage::SignEncrypt); }
    provider.verify_signature(data, signature)
}

} // verus!
