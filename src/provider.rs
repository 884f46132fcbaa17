//! The keystore provider: its lifecycle, and the requests it hands to the
//! platform keystore once an operation is allowed.
use vstd::prelude::*;
use vstd::slice::slice_to_vec;
use crate::algorithms::{self, AsymmetricEncryption, BlockCiphers, EncryptionMode, KeyUsage, digest_fits_family, has_usage, is_digest_supported};
use crate::config::AndroidConfig;
use crate::error::{SecurityModuleError, detail};
use crate::key_properties::{KeyProperties, key_properties_of, purposes_of, purposes_for, signature_algorithm, signature_algorithm_for};

verus! {

/// Why the provider refuses an operation in its present state.
#[derive(Clone, Copy, Debug, PartialEq, Eq, Structural)]
pub enum Refusal {
    NotInitialized,
    NotLoaded,
    IncompatibleDigest,
    InvalidAlgorithm,
    InvalidDigest,
    EcCipher,
    SymmetricCipher,
    MissingDecrypt,
    MissingSignEncrypt,
    SymmetricSignature,
}

/// The detail text of the error that reports each refusal.
pub open spec fn refusal_message(f: Refusal) -> Seq<char> {
    match f {
        Refusal::NotInitialized => "Module is not initialized"@,
        Refusal::NotLoaded => "No key is loaded"@,
        Refusal::IncompatibleDigest => "Digest is not supported for this key family"@,
        Refusal::InvalidAlgorithm => "Invalid algorithm for key generation"@,
        Refusal::InvalidDigest => "Invalid digest for key generation"@,
        Refusal::EcCipher => "EC is not allowed for en/decryption on android"@,
        Refusal::SymmetricCipher => "Symmetric keys are not supported for en/decryption"@,
        Refusal::MissingDecrypt => "KeyUsage::Decrypt was not provided"@,
        Refusal::MissingSignEncrypt => "KeyUsage::SignEncrypt was not provided"@,
        Refusal::SymmetricSignature => "Symmetric keys cannot sign or verify"@,
    }
}

/// `e` is the error that reports the refusal `f`: its kind and its text.
pub open spec fn reports(f: Refusal, e: SecurityModuleError) -> bool {
    &&& detail(e) == refusal_message(f)
    &&& match f {
        Refusal::NotInitialized | Refusal::NotLoaded => e is InitializationError,
        Refusal::IncompatibleDigest => e is InvalidConfiguration,
        Refusal::InvalidAlgorithm | Refusal::InvalidDigest => e is InternalError,
        _ => e is UnsupportedOperation,
    }
}

impl Refusal {
    /// The error that reports this refusal to the caller.
    pub fn to_error(self) -> (e: SecurityModuleError)
        ensures
            reports(self, e),
    {
        match self {
            Refusal::NotInitialized => SecurityModuleError::InitializationError("Module is not initialized".to_owned()),
            Refusal::NotLoaded => SecurityModuleError::InitializationError("No key is loaded".to_owned()),
            Refusal::IncompatibleDigest => SecurityModuleError::InvalidConfiguration("Digest is not supported for this key family".to_owned()),
            Refusal::InvalidAlgorithm => SecurityModuleError::InternalError("Invalid algorithm for key generation".to_owned()),
            Refusal::InvalidDigest => SecurityModuleError::InternalError("Invalid digest for key generation".to_owned()),
            Refusal::EcCipher => SecurityModuleError::UnsupportedOperation("EC is not allowed for en/decryption on android".to_owned()),
            Refusal::SymmetricCipher => SecurityModuleError::UnsupportedOperation("Symmetric keys are not supported for en/decryption".to_owned()),
            Refusal::MissingDecrypt => SecurityModuleError::UnsupportedOperation("KeyUsage::Decrypt was not provided".to_owned()),
            Refusal::MissingSignEncrypt => SecurityModuleError::UnsupportedOperation("KeyUsage::SignEncrypt was not provided".to_owned()),
            Refusal::SymmetricSignature => SecurityModuleError::UnsupportedOperation("Symmetric keys cannot sign or verify".to_owned()),
        }
    }
}

/// A provider for one key of the platform keystore.
///
/// It starts uninitialized (no usages), is initialized with an algorithm and
/// a usage set, and is bound to a key by creating or loading one. Key material
/// never leaves the platform keystore: the provider holds names and settings only.
#[derive(Debug)]
pub struct AndroidProvider {
    pub key_id: String,
    pub key_algo: Option<AsymmetricEncryption>,
    pub sym_algo: Option<BlockCiphers>,
    pub hash: Option<algorithms::Hash>,
    pub key_usages: Option<Vec<KeyUsage>>,
    pub hardware_backed: bool,
    pub key_loaded: bool,
}

/// A provider named after the key it manages.
pub type Key = AndroidProvider;

/// The provider has been initialized: it has a usage set and an algorithm,
/// asymmetric or symmetric.
pub open spec fn initialized(p: AndroidProvider) -> bool {
    p.key_usages is Some && (p.key_algo is Some || p.sym_algo is Some)
}

/// The usages granted at initialization (empty before it).
pub open spec fn usages(p: AndroidProvider) -> Seq<KeyUsage> {
    match p.key_usages {
        Some(v) => v@,
        None => Seq::empty(),
    }
}

/// Why `create_key` refuses on `p`, if it does.
pub open spec fn create_refusal(p: AndroidProvider) -> Option<Refusal> {
    if !initialized(p) {
        Some(Refusal::NotInitialized)
    } else if !(p.key_algo matches Some(AsymmetricEncryption::Rsa(_))) {
        Some(Refusal::InvalidAlgorithm)
    } else if p.hash != Some(algorithms::Hash::Sha256) {
        Some(Refusal::InvalidDigest)
    } else {
        None
    }
}

/// Why `load_key` refuses on `p`, if it does.
pub open spec fn load_refusal(p: AndroidProvider) -> Option<Refusal> {
    if !initialized(p) {
        Some(Refusal::NotInitialized)
    } else {
        None
    }
}

/// Why encryption and decryption are refused on `p`, if they are.
pub open spec fn cipher_refusal(p: AndroidProvider) -> Option<Refusal> {
    if !initialized(p) {
        Some(Refusal::NotInitialized)
    } else if p.key_algo is None {
        Some(Refusal::SymmetricCipher)
    } else if p.key_algo->Some_0 is Ecc {
        Some(Refusal::EcCipher)
    } else if !usages(p).contains(KeyUsage::Decrypt) {
        Some(Refusal::MissingDecrypt)
    } else if !p.key_loaded {
        Some(Refusal::NotLoaded)
    } else {
        None
    }
}

/// Why signing and verification are refused on `p`, if they are.
pub open spec fn signature_refusal(p: AndroidProvider) -> Option<Refusal> {
    if !initialized(p) {
        Some(Refusal::NotInitialized)
    } else if !usages(p).contains(KeyUsage::SignEncrypt) {
        Some(Refusal::MissingSignEncrypt)
    } else if p.key_algo is None {
        Some(Refusal::SymmetricSignature)
    } else if !p.key_loaded {
        Some(Refusal::NotLoaded)
    } else {
        None
    }
}

/// The view of a list of texts.
pub open spec fn texts(v: Seq<String>) -> Seq<Seq<char>> {
    v.map_values(|s: String| s@)
}

/// What the platform is asked to do to create a key pair.
#[derive(Debug)]
pub struct KeyGenRequest {
    /// The alias of the new key in the platform keystore.
    pub alias: String,
    pub algorithm: KeyProperties,
    pub key_size: u32,
    /// The platform's purpose flags.
    pub purposes: i32,
    pub digests: Vec<String>,
    pub encryption_paddings: Vec<String>,
    pub signature_paddings: Vec<String>,
    /// Whether the key is to live in a StrongBox security chip.
    pub strongbox_backed: bool,
}

/// Direction of a cipher operation.
#[derive(Clone, Copy, Debug, PartialEq, Eq, Structural)]
pub enum CipherDirection {
    /// With the public key of the key's certificate.
    Encrypt,
    /// With the private key.
    Decrypt,
}

impl CipherDirection {
    /// The platform's operation mode constant for this direction.
    pub fn opmode(&self) -> (r: i32)
        ensures
            r == (if *self == CipherDirection::Encrypt { 1i32 } else { 2i32 }),
    {
        match self {
            CipherDirection::Encrypt => 1,
            CipherDirection::Decrypt => 2,
        }
    }
}

/// Where the key of a cipher operation comes from in the platform keystore.
#[derive(Clone, Copy, Debug, PartialEq, Eq, Structural)]
pub enum KeySource {
    /// The public key of the certificate stored under the alias.
    CertificatePublicKey,
    /// The private key stored under the alias.
    PrivateKey,
}

/// Encryption uses the public key of the certificate; decryption the private key.
pub open spec fn key_source_for(dir: CipherDirection) -> KeySource {
    match dir {
        CipherDirection::Encrypt => KeySource::CertificatePublicKey,
        CipherDirection::Decrypt => KeySource::PrivateKey,
    }
}

/// A transformation of bytes by the platform's cipher under a stored key.
#[derive(Debug)]
pub struct CipherRequest {
    pub key_id: String,
    pub transformation: String,
    pub direction: CipherDirection,
    pub key_source: KeySource,
    pub input: Vec<u8>,
}

/// A signature over `data` by the private key stored under `key_id`.
#[derive(Debug)]
pub struct SignRequest {
    pub key_id: String,
    pub algorithm: String,
    pub data: Vec<u8>,
}

/// A check of `signature` over `data` against the certificate stored under `key_id`.
#[derive(Debug)]
pub struct VerifyRequest {
    pub key_id: String,
    pub algorithm: String,
    pub data: Vec<u8>,
    pub signature: Vec<u8>,
}

/// `q` asks the platform for the key pair that `create_key(id)` describes on `p`:
/// an RSA pair of the configured size, with purposes from the usage set, SHA-256
/// and SHA-512 digests and PKCS#1 paddings.
pub open spec fn is_key_gen_request(q: KeyGenRequest, p: AndroidProvider, id: Seq<char>) -> bool {
    &&& q.alias@ == id
    &&& q.algorithm == key_properties_of(p.key_algo->Some_0)
    &&& p.key_algo == Some(AsymmetricEncryption::Rsa(q.key_size))
    &&& q.purposes == purposes_of(usages(p))
    &&& texts(q.digests@) == seq!["SHA-256"@, "SHA-512"@]
    &&& texts(q.encryption_paddings@) == seq!["PKCS1Padding"@]
    &&& texts(q.signature_paddings@) == seq!["PKCS1"@]
    &&& q.strongbox_backed == p.hardware_backed
}

/// `q` is the cipher request of `p` in direction `dir` over `input`.
pub open spec fn is_cipher_request(q: CipherRequest, p: AndroidProvider, dir: CipherDirection, input: Seq<u8>) -> bool {
    &&& q.key_id@ == p.key_id@
    &&& q.transformation@ == "RSA/ECB/PKCS1Padding"@
    &&& q.direction == dir
    &&& q.key_source == key_source_for(dir)
    &&& q.input@ == input
}

/// `q` is the signing request of `p` over `data`.
pub open spec fn is_sign_request(q: SignRequest, p: AndroidProvider, data: Seq<u8>) -> bool {
    &&& q.key_id@ == p.key_id@
    &&& q.algorithm@ == signature_algorithm(p.key_algo->Some_0)
    &&& q.data@ == data
}

/// `q` is the verification request of `p` for `signature` over `data`.
pub open spec fn is_verify_request(q: VerifyRequest, p: AndroidProvider, data: Seq<u8>, signature: Seq<u8>) -> bool {
    &&& q.key_id@ == p.key_id@
    &&& q.algorithm@ == signature_algorithm(p.key_algo->Some_0)
    &&& q.data@ == data
    &&& q.signature@ == signature
}

/// `after` is `before` bound to the key `id`, with nothing else changed.
pub open spec fn bound_to(before: AndroidProvider, after: AndroidProvider, id: Seq<char>) -> bool {
    &&& after.key_id@ == id
    &&& after.key_loaded
    &&& after.key_algo == before.key_algo
    &&& after.sym_algo == before.sym_algo
    &&& after.hash == before.hash
    &&& after.key_usages == before.key_usages
    &&& after.hardware_backed == before.hardware_backed
}

impl AndroidProvider {
    /// A new, uninitialized provider for the key `key_id`.
    pub fn new(key_id: String) -> (r: AndroidProvider)
        ensures
            r.key_id == key_id,
            r.key_algo is None,
            r.sym_algo is None,
            r.hash is None,
            r.key_usages is None,
            !r.hardware_backed,
            !r.key_loaded,
    {
        AndroidProvider {
            key_id,
            key_algo: None,
            sym_algo: None,
            hash: None,
            key_usages: None,
            hardware_backed: false,
            key_loaded: false,
        }
    }

    /// Initializes the provider with an asymmetric family, an optional cipher and
    /// digest, and the usages granted to its key. A digest that the family does
    /// not support is an invalid configuration and leaves the provider as it was.
    /// Initializing again unbinds the provider from its key.
    pub fn initialize_module(
        &mut self,
        key_algorithm: AsymmetricEncryption,
        sym_algorithm: Option<BlockCiphers>,
        hash: Option<algorithms::Hash>,
        key_usages: Vec<KeyUsage>,
    ) -> (r: Result<(), SecurityModuleError>)
        ensures
            digest_fits_family(key_algorithm, hash) <==> r is Ok,
            r is Err ==> reports(Refusal::IncompatibleDigest, r->Err_0) && *final(self) == *old(self),
            r is Ok ==> {
                &&& final(self).key_id == old(self).key_id
                &&& final(self).key_algo == Some(key_algorithm)
                &&& final(self).sym_algo == sym_algorithm
                &&& final(self).hash == hash
                &&& final(self).key_usages == Some(key_usages)
                &&& final(self).hardware_backed == old(self).hardware_backed
                &&& !final(self).key_loaded
            },
    {
        if !is_digest_supported(key_algorithm, hash) {
            return Err(Refusal::IncompatibleDigest.to_error());
        }
        self.key_algo = Some(key_algorithm);
        self.sym_algo = sym_algorithm;
        self.hash = hash;
        self.key_usages = Some(key_usages);
        self.key_loaded = false;
        Ok(())
    }

    /// Initializes the provider from a configuration: an asymmetric mode as
    /// `initialize_module` does with its digest and no cipher, a symmetric one
    /// with the cipher alone. The configuration's hardware-backed flag is kept
    /// for key creation.
    pub fn initialize_from_config(&mut self, config: AndroidConfig) -> (r: Result<(), SecurityModuleError>)
        ensures
            match config.mode {
                EncryptionMode::ASym { algo, digest } => {
                    &&& (digest_fits_family(algo, Some(digest)) <==> r is Ok)
                    &&& r is Err ==> reports(Refusal::IncompatibleDigest, r->Err_0) && *final(self) == *old(self)
                    &&& r is Ok ==> {
                        &&& final(self).key_algo == Some(algo)
                        &&& final(self).sym_algo is None
                        &&& final(self).hash == Some(digest)
                    }
                },
                EncryptionMode::Sym(cipher) => {
                    &&& r is Ok
                    &&& final(self).key_algo is None
                    &&& final(self).sym_algo == Some(cipher)
                    &&& final(self).hash is None
                },
            },
            r is Ok ==> {
                &&& final(self).key_id == old(self).key_id
                &&& final(self).key_usages == Some(config.key_usages)
                &&& final(self).hardware_backed == config.hardware_backed
                &&& !final(self).key_loaded
            },
    {
        let AndroidConfig { mode, hardware_backed, key_usages } = config;
        match mode {
            EncryptionMode::ASym { algo, digest } => {
                let r = self.initialize_module(algo, None, Some(digest), key_usages);
                if r.is_ok() {
                    self.hardware_backed = hardware_backed;
                }
                r
            },
            EncryptionMode::Sym(cipher) => {
                self.key_algo = None;
                self.sym_algo = Some(cipher);
                self.hash = None;
                self.key_usages = Some(key_usages);
                self.hardware_backed = hardware_backed;
                self.key_loaded = false;
                Ok(())
            },
        }
    }

    /// Whether the provider has been initialized.
    pub fn is_initialized(&self) -> (r: bool)
        ensures
            r == initialized(*self),
    {
        self.key_usages.is_some() && (self.key_algo.is_some() || self.sym_algo.is_some())
    }

    /// Whether the usage set granted at initialization holds `wanted`.
    fn grants(&self, wanted: KeyUsage) -> (r: bool)
        ensures
            r == usages(*self).contains(wanted),
    {
        match &self.key_usages {
            Some(v) => has_usage(v, wanted),
            None => false,
        }
    }

    fn check_create(&self) -> (r: Option<Refusal>)
        ensures
            r == create_refusal(*self),
    {
        if !self.is_initialized() {
            Some(Refusal::NotInitialized)
        } else if !matches!(self.key_algo, Some(AsymmetricEncryption::Rsa(_))) {
            Some(Refusal::InvalidAlgorithm)
        } else if !matches!(self.hash, Some(algorithms::Hash::Sha256)) {
            Some(Refusal::InvalidDigest)
        } else {
            None
        }
    }

    fn check_cipher(&self) -> (r: Option<Refusal>)
        ensures
            r == cipher_refusal(*self),
    {
        if !self.is_initialized() {
            return Some(Refusal::NotInitialized);
        }
        match self.key_algo {
            None => Some(Refusal::SymmetricCipher),
            Some(AsymmetricEncryption::Ecc(_)) => Some(Refusal::EcCipher),
            Some(AsymmetricEncryption::Rsa(_)) => {
                if !self.grants(KeyUsage::Decrypt) {
                    Some(Refusal::MissingDecrypt)
                } else if !self.key_loaded {
                    Some(Refusal::NotLoaded)
                } else {
                    None
                }
            },
        }
    }

    fn check_signature(&self) -> (r: Option<Refusal>)
        ensures
            r == signature_refusal(*self),
    {
        if !self.is_initialized() {
            Some(Refusal::NotInitialized)
        } else if !self.grants(KeyUsage::SignEncrypt) {
            Some(Refusal::MissingSignEncrypt)
        } else if self.key_algo.is_none() {
            Some(Refusal::SymmetricSignature)
        } else if !self.key_loaded {
            Some(Refusal::NotLoaded)
        } else {
            None
        }
    }

    /// Asks for a new key pair under `key_id` and binds the provider to it.
    /// Only an initialized RSA provider whose digest is SHA-256 may create keys;
    /// otherwise the refusal is reported and the provider is left as it was.
    pub fn create_key(&mut self, key_id: &str) -> (r: Result<KeyGenRequest, SecurityModuleError>)
        ensures
            create_refusal(*old(self)) is None <==> r is Ok,
            r is Err ==> reports(create_refusal(*old(self))->Some_0, r->Err_0) && *final(self) == *old(self),
            r is Ok ==> is_key_gen_request(r->Ok_0, *old(self), key_id@) && bound_to(*old(self), *final(self), key_id@),
    {
        if let Some(f) = self.check_create() {
            return Err(f.to_error());
        }
        let bits = match self.key_algo {
            Some(AsymmetricEncryption::Rsa(b)) => b,
            _ => 0,
        };
        let purposes = match &self.key_usages {
            Some(v) => purposes_for(v),
            None => 0,
        };
        let request = KeyGenRequest {
            alias: key_id.to_owned(),
            algorithm: KeyProperties::Rsa,
            key_size: bits,
            purposes,
            digests: vec!["SHA-256".to_owned(), "SHA-512".to_owned()],
            encryption_paddings: vec!["PKCS1Padding".to_owned()],
            signature_paddings: vec!["PKCS1".to_owned()],
            strongbox_backed: self.hardware_backed,
        };
        assert(texts(request.digests@) =~= seq!["SHA-256"@, "SHA-512"@]);
        assert(texts(request.encryption_paddings@) =~= seq!["PKCS1Padding"@]);
        assert(texts(request.signature_paddings@) =~= seq!["PKCS1"@]);
        self.key_id = key_id.to_owned();
        self.key_loaded = true;
        Ok(request)
    }

    /// Binds an initialized provider to the key `key_id`, which the platform
    /// keystore is trusted to hold; nothing is asked of the platform here.
    pub fn load_key(&mut self, key_id: &str) -> (r: Result<(), SecurityModuleError>)
        ensures
            load_refusal(*old(self)) is None <==> r is Ok,
            r is Err ==> reports(Refusal::NotInitialized, r->Err_0) && *final(self) == *old(self),
            r is Ok ==> bound_to(*old(self), *final(self), key_id@),
    {
        if !self.is_initialized() {
            return Err(Refusal::NotInitialized.to_error());
        }
        self.key_id = key_id.to_owned();
        self.key_loaded = true;
        Ok(())
    }

    fn cipher_request(&self, direction: CipherDirection, input: &[u8]) -> (r: Result<CipherRequest, SecurityModuleError>)
        ensures
            cipher_refusal(*self) is None <==> r is Ok,
            r is Err ==> reports(cipher_refusal(*self)->Some_0, r->Err_0),
            r is Ok ==> is_cipher_request(r->Ok_0, *self, direction, input@),
    {
        if let Some(f) = self.check_cipher() {
            return Err(f.to_error());
        }
        let key_source = match direction {
            CipherDirection::Encrypt => KeySource::CertificatePublicKey,
            CipherDirection::Decrypt => KeySource::PrivateKey,
        };
        Ok(CipherRequest {
            key_id: self.key_id.clone(),
            transformation: "RSA/ECB/PKCS1Padding".to_owned(),
            direction,
            key_source,
            input: slice_to_vec(input),
        })
    }

    /// The request that encrypts `data` with the public key of the bound key.
    /// Refused on an uninitialized, symmetric or EC provider, without the
    /// `Decrypt` usage, or before a key is bound.
    pub fn encrypt_data(&self, data: &[u8]) -> (r: Result<CipherRequest, SecurityModuleError>)
        ensures
            cipher_refusal(*self) is None <==> r is Ok,
            r is Err ==> reports(cipher_refusal(*self)->Some_0, r->Err_0),
            r is Ok ==> is_cipher_request(r->Ok_0, *self, CipherDirection::Encrypt, data@),
    {
        self.cipher_request(CipherDirection::Encrypt, data)
    }

    /// The request that decrypts `encrypted_data` with the private key of the
    /// bound key, refused as `encrypt_data` is.
    pub fn decrypt_data(&self, encrypted_data: &[u8]) -> (r: Result<CipherRequest, SecurityModuleError>)
        ensures
            cipher_refusal(*self) is None <==> r is Ok,
            r is Err ==> reports(cipher_refusal(*self)->Some_0, r->Err_0),
            r is Ok ==> is_cipher_request(r->Ok_0, *self, CipherDirection::Decrypt, encrypted_data@),
    {
        self.cipher_request(CipherDirection::Decrypt, encrypted_data)
    }

    /// The request that signs `data` with the private key of the bound key.
    /// Refused on an uninitialized provider, without the `SignEncrypt` usage,
    /// on a symmetric provider, or before a key is bound.
    pub fn sign_data(&self, data: &[u8]) -> (r: Result<SignRequest, SecurityModuleError>)
        ensures
            signature_refusal(*self) is None <==> r is Ok,
            r is Err ==> reports(signature_refusal(*self)->Some_0, r->Err_0),
            r is Ok ==> is_sign_request(r->Ok_0, *self, data@),
    {
        if let Some(f) = self.check_signature() {
            return Err(f.to_error());
        }
        let algorithm = match self.key_algo {
            Some(a) => signature_algorithm_for(a),
            None => "",
        };
        Ok(SignRequest { key_id: self.key_id.clone(), algorithm: algorithm.to_owned(), data: slice_to_vec(data) })
    }

    /// The request that checks `signature` over `data` against the certificate
    /// of the bound key, refused as `sign_data` is.
    pub fn verify_signature(&self, data: &[u8], signature: &[u8]) -> (r: Result<VerifyRequest, SecurityModuleError>)
        ensures
            signature_refusal(*self) is None <==> r is Ok,
            r is Err ==> reports(signature_refusal(*self)->Some_0, r->Err_0),
            r is Ok ==> is_verify_request(r->Ok_0, *self, data@, signature@),
    {
        if let Some(f) = self.check_signature() {
            return Err(f.to_error());
        }
        let algorithm = match self.key_algo {
            Some(a) => signature_algorithm_for(a),
            None => "",
        };
        Ok(VerifyRequest {
            key_id: self.key_id.clone(),
            algorithm: algorithm.to_owned(),
            data: slice_to_vec(data),
            signature: slice_to_vec(signature),
        })
    }
}

/// Creating a key on a provider that was never initialized (no usage set, or
/// no algorithm of either kind) fails with an initialization error that says
/// the module is not initialized.
pub proof fn lemma_create_key_uninitialized(p: AndroidProvider)
    requires
        !initialized(p),
    ensures
        create_refusal(p) is Some,
        forall|e: SecurityModuleError| #[trigger] reports(create_refusal(p)->Some_0, e)
            ==> e is InitializationError && detail(e) == "Module is not initialized"@,
{
}

/// Creating a key on a provider configured for EC fails with an internal error
/// that says the algorithm is invalid for key generation.
pub proof fn lemma_create_key_ec(p: AndroidProvider)
    requires
        initialized(p),
        p.key_algo matches Some(AsymmetricEncryption::Ecc(_)),
    ensures
        create_refusal(p) is Some,
        forall|e: SecurityModuleError| #[trigger] reports(create_refusal(p)->Some_0, e)
            ==> e is InternalError && detail(e) == "Invalid algorithm for key generation"@,
{
}

/// Creating a key on an RSA provider whose digest is not SHA-256 fails with an
/// internal error that says the digest is invalid for key generation.
pub proof fn lemma_create_key_unsupported_digest(p: AndroidProvider)
    requires
        initialized(p),
        p.key_algo matches Some(AsymmetricEncryption::Rsa(_)),
        p.hash != Some(algorithms::Hash::Sha256),
    ensures
        create_refusal(p) is Some,
        forall|e: SecurityModuleError| #[trigger] reports(create_refusal(p)->Some_0, e)
            ==> e is InternalError && detail(e) == "Invalid digest for key generation"@,
{
}

/// Signing and verifying on an initialized provider whose usages lack
/// `SignEncrypt` fail with an unsupported-operation error.
pub proof fn lemma_signature_needs_sign_usage(p: AndroidProvider)
    requires
        initialized(p),
        !usages(p).contains(KeyUsage::SignEncrypt),
    ensures
        signature_refusal(p) is Some,
        forall|e: SecurityModuleError| #[trigger] reports(signature_refusal(p)->Some_0, e)
            ==> e is UnsupportedOperation,
{
}

/// Encrypting and decrypting on a provider configured for EC fail with an
/// unsupported-operation error.
pub proof fn lemma_cipher_refused_for_ec(p: AndroidProvider)
    requires
        initialized(p),
        p.key_algo matches Some(AsymmetricEncryption::Ecc(_)),
    ensures
        cipher_refusal(p) is Some,
        forall|e: SecurityModuleError| #[trigger] reports(cipher_refusal(p)->Some_0, e)
            ==> e is UnsupportedOperation,
{
}

/// An encryption request and a decryption request of one provider name the
/// same key and the same transformation, in opposite directions: encryption
/// with the certificate's public key, decryption with the private key, on
/// exactly the bytes it is given.
pub proof fn lemma_cipher_requests_pair(
    p: AndroidProvider,
    enc: CipherRequest,
    dec: CipherRequest,
    plaintext: Seq<u8>,
    ciphertext: Seq<u8>,
)
    requires
        is_cipher_request(enc, p, CipherDirection::Encrypt, plaintext),
        is_cipher_request(dec, p, CipherDirection::Decrypt, ciphertext),
    ensures
        enc.key_id@ == dec.key_id@,
        enc.transformation@ == dec.transformation@,
        enc.direction != dec.direction,
        enc.key_source == KeySource::CertificatePublicKey,
        dec.key_source == KeySource::PrivateKey,
        dec.input@ == ciphertext,
{
}

/// A signing request and a verification request of one provider over the same
/// data name the same key, the same signature engine and the same bytes.
pub proof fn lemma_signature_requests_pair(
    p: AndroidProvider,
    sign: SignRequest,
    verify: VerifyRequest,
    data: Seq<u8>,
    signature: Seq<u8>,
)
    requires
        is_sign_request(sign, p, data),
        is_verify_request(verify, p, data, signature),
    ensures
        sign.key_id@ == verify.key_id@,
        sign.algorithm@ == verify.algorithm@,
        sign.data@ == verify.data@,
{
}

} // verus!
