use android_keystore::algorithms::{AsymmetricEncryption, BlockCiphers, EncryptionMode, KeyUsage, SymmetricMode};
use android_keystore::config::{capabilities, create_config};
use android_keystore::error::{translate_platform_result, SecurityModuleError};
use android_keystore::key_properties::{purposes_for, KeyProperties};
use android_keystore::operations::{
    prepare_decryption, prepare_encryption, prepare_key_generation, prepare_signing, prepare_verification,
};
use android_keystore::provider::{AndroidProvider, CipherDirection, KeySource};

fn rsa_provider(usages: Vec<KeyUsage>) -> AndroidProvider {
    let mut provider = AndroidProvider::new("rsa_key".to_string());
    provider
        .initialize_module(
            AsymmetricEncryption::Rsa(2048),
            None,
            Some(android_keystore::algorithms::Hash::Sha256),
            usages,
        )
        .unwrap();
    provider
}

#[test]
fn sign_without_sign_usage_is_unsupported() {
    let mut provider = rsa_provider(vec![KeyUsage::Decrypt]);
    provider.load_key("rsa_key").unwrap();
    let expected = SecurityModuleError::UnsupportedOperation("KeyUsage::SignEncrypt was not provided".to_owned());
    assert_eq!(provider.sign_data(b"data").unwrap_err(), expected);
    assert_eq!(provider.verify_signature(b"data", b"sig").unwrap_err(), expected);
}

#[test]
fn sign_without_sign_usage_is_unsupported_before_loading() {
    let provider = rsa_provider(vec![KeyUsage::Decrypt]);
    assert!(matches!(provider.sign_data(b"data"), Err(SecurityModuleError::UnsupportedOperation(_))));
}

#[test]
fn cipher_on_ec_provider_is_unsupported() {
    let mut provider = AndroidProvider::new("ec_key".to_string());
    provider
        .initialize_module(
            AsymmetricEncryption::Ecc(256),
            None,
            Some(android_keystore::algorithms::Hash::Sha256),
            vec![KeyUsage::Decrypt, KeyUsage::SignEncrypt],
        )
        .unwrap();
    provider.load_key("ec_key").unwrap();
    let expected = SecurityModuleError::UnsupportedOperation("EC is not allowed for en/decryption on android".to_owned());
    assert_eq!(provider.encrypt_data(b"m").unwrap_err(), expected);
    assert_eq!(provider.decrypt_data(b"c").unwrap_err(), expected);
}

#[test]
fn cipher_without_decrypt_usage_is_unsupported() {
    let mut provider = rsa_provider(vec![KeyUsage::SignEncrypt]);
    provider.load_key("rsa_key").unwrap();
    assert_eq!(
        provider.encrypt_data(b"m").unwrap_err(),
        SecurityModuleError::UnsupportedOperation("KeyUsage::Decrypt was not provided".to_owned())
    );
}

#[test]
fn operations_before_binding_report_no_key() {
    let provider = rsa_provider(vec![KeyUsage::Decrypt, KeyUsage::SignEncrypt]);
    let expected = SecurityModuleError::InitializationError("No key is loaded".to_owned());
    assert_eq!(provider.encrypt_data(b"m").unwrap_err(), expected);
    assert_eq!(provider.sign_data(b"m").unwrap_err(), expected);
}

#[test]
fn operations_on_uninitialized_provider_report_initialization() {
    let mut provider = AndroidProvider::new("k".to_string());
    let expected = SecurityModuleError::InitializationError("Module is not initialized".to_owned());
    assert_eq!(provider.encrypt_data(b"m").unwrap_err(), expected);
    assert_eq!(provider.decrypt_data(b"m").unwrap_err(), expected);
    assert_eq!(provider.sign_data(b"m").unwrap_err(), expected);
    assert_eq!(provider.verify_signature(b"m", b"s").unwrap_err(), expected);
    assert_eq!(provider.load_key("k").unwrap_err(), expected);
}

#[test]
fn encrypt_and_decrypt_requests_pair_up() {
    let mut provider = rsa_provider(vec![KeyUsage::Decrypt]);
    provider.load_key("pair").unwrap();
    let enc = provider.encrypt_data(b"hello").unwrap();
    let dec = provider.decrypt_data(&[9, 8, 7]).unwrap();
    assert_eq!(enc.key_id, "pair");
    assert_eq!(dec.key_id, "pair");
    assert_eq!(enc.transformation, "RSA/ECB/PKCS1Padding");
    assert_eq!(dec.transformation, enc.transformation);
    assert_eq!(enc.direction, CipherDirection::Encrypt);
    assert_eq!(dec.direction, CipherDirection::Decrypt);
    assert_eq!(enc.key_source, KeySource::CertificatePublicKey);
    assert_eq!(dec.key_source, KeySource::PrivateKey);
    assert_eq!(enc.direction.opmode(), 1);
    assert_eq!(dec.direction.opmode(), 2);
    assert_eq!(enc.input, b"hello".to_vec());
    assert_eq!(dec.input, vec![9, 8, 7]);
}

#[test]
fn sign_and_verify_requests_pair_up() {
    let mut provider = rsa_provider(vec![KeyUsage::SignEncrypt]);
    provider.load_key("signer").unwrap();
    let sign = provider.sign_data(b"payload").unwrap();
    let verify = provider.verify_signature(b"payload", &[1, 2, 3]).unwrap();
    assert_eq!(sign.key_id, "signer");
    assert_eq!(verify.key_id, "signer");
    assert_eq!(sign.algorithm, "SHA256withRSA");
    assert_eq!(verify.algorithm, "SHA256withRSA");
    assert_eq!(sign.data, b"payload".to_vec());
    assert_eq!(verify.data, b"payload".to_vec());
    assert_eq!(verify.signature, vec![1, 2, 3]);
}

#[test]
fn ec_signature_engine_is_ecdsa() {
    let mut provider = AndroidProvider::new("ec".to_string());
    provider
        .initialize_module(AsymmetricEncryption::Ecc(256), None, None, vec![KeyUsage::SignEncrypt])
        .unwrap();
    provider.load_key("ec").unwrap();
    assert_eq!(provider.sign_data(b"x").unwrap().algorithm, "SHA256withECDSA");
}

#[test]
fn mismatched_signature_is_false_not_error() {
    assert_eq!(translate_platform_result(Ok(false)), Ok(false));
    assert_eq!(translate_platform_result(Ok(true)), Ok(true));
    assert_eq!(
        translate_platform_result::<bool>(Err("SignatureException".to_string())),
        Err(SecurityModuleError::InternalError("SignatureException".to_string()))
    );
}

#[test]
fn platform_bytes_pass_through() {
    assert_eq!(translate_platform_result(Ok(vec![1u8, 2])), Ok(vec![1u8, 2]));
}

#[test]
fn ec_with_md5_is_invalid_configuration() {
    let mut provider = AndroidProvider::new("k".to_string());
    let result = provider.initialize_module(
        AsymmetricEncryption::Ecc(256),
        None,
        Some(android_keystore::algorithms::Hash::Md5),
        vec![KeyUsage::SignEncrypt],
    );
    assert_eq!(
        result.unwrap_err(),
        SecurityModuleError::InvalidConfiguration("Digest is not supported for this key family".to_owned())
    );
    assert!(provider.key_usages.is_none());
}

#[test]
fn rsa_with_md5_is_accepted() {
    let mut provider = AndroidProvider::new("k".to_string());
    let result = provider.initialize_module(
        AsymmetricEncryption::Rsa(1024),
        Some(BlockCiphers::Aes(SymmetricMode::Gcm, 128)),
        Some(android_keystore::algorithms::Hash::Md5),
        vec![KeyUsage::Decrypt],
    );
    assert!(result.is_ok());
    assert_eq!(provider.sym_algo, Some(BlockCiphers::Aes(SymmetricMode::Gcm, 128)));
}

#[test]
fn config_from_names() {
    let rsa = create_config("RSA", true);
    assert_eq!(
        rsa.mode,
        EncryptionMode::ASym {
            algo: AsymmetricEncryption::Rsa(512),
            digest: android_keystore::algorithms::Hash::Sha256
        }
    );
    assert!(rsa.hardware_backed);
    assert_eq!(rsa.key_usages, vec![KeyUsage::Decrypt, KeyUsage::SignEncrypt, KeyUsage::CreateX509]);
    let ec = create_config("EC", false);
    assert_eq!(
        ec.mode,
        EncryptionMode::ASym {
            algo: AsymmetricEncryption::Ecc(256),
            digest: android_keystore::algorithms::Hash::Sha256
        }
    );
    assert!(!ec.hardware_backed);
    let aes = create_config("AES", true);
    assert_eq!(aes.mode, EncryptionMode::Sym(BlockCiphers::Aes(SymmetricMode::Cbc, 256)));
}

#[test]
fn unlisted_names_fall_back_to_rsa() {
    let default_mode = EncryptionMode::ASym {
        algo: AsymmetricEncryption::Rsa(512),
        digest: android_keystore::algorithms::Hash::Sha256,
    };
    for name in ["XYZ", "rsa", ""] {
        let config = create_config(name, false);
        assert_eq!(config.mode, default_mode);
        assert!(!config.hardware_backed);
        assert_eq!(config.key_usages, vec![KeyUsage::Decrypt, KeyUsage::SignEncrypt, KeyUsage::CreateX509]);
    }
}

#[test]
fn capability_names() {
    let names: Vec<String> = capabilities().into_iter().map(|c| c.name).collect();
    assert_eq!(names, vec!["RSA".to_string(), "EC".to_string(), "AES".to_string()]);
}

#[test]
fn purposes_follow_usages() {
    assert_eq!(purposes_for(&vec![]), 0);
    assert_eq!(purposes_for(&vec![KeyUsage::Decrypt]), 3);
    assert_eq!(purposes_for(&vec![KeyUsage::SignEncrypt]), 12);
    assert_eq!(purposes_for(&vec![KeyUsage::CreateX509, KeyUsage::SignEncrypt, KeyUsage::Decrypt]), 15);
    assert_eq!(purposes_for(&vec![KeyUsage::ClientAuth]), 0);
}

#[test]
fn key_algorithm_names() {
    assert_eq!(KeyProperties::Rsa.to_str(), "RSA");
    assert_eq!(KeyProperties::Ec.to_str(), "EC");
}

#[test]
fn key_generation_flow_for_rsa() {
    let mut provider = AndroidProvider::new("gen".to_string());
    let request = prepare_key_generation(&mut provider, "gen", "RSA").unwrap();
    assert_eq!(request.alias, "gen");
    assert_eq!(request.key_size, 512);
    assert_eq!(request.purposes, 15);
    assert!(request.strongbox_backed);
    assert!(provider.key_loaded);
}

#[test]
fn key_generation_flow_refuses_ec_and_aes() {
    let mut provider = AndroidProvider::new("gen".to_string());
    let expected = SecurityModuleError::InternalError("Invalid algorithm for key generation".to_owned());
    assert_eq!(prepare_key_generation(&mut provider, "gen", "EC").unwrap_err(), expected);
    assert_eq!(prepare_key_generation(&mut provider, "gen", "AES").unwrap_err(), expected);
    let request = prepare_key_generation(&mut provider, "gen", "DSA").unwrap();
    assert_eq!(request.algorithm.to_str(), "RSA");
    assert_eq!(request.key_size, 512);
}

#[test]
fn cipher_flows_bind_the_key() {
    let mut provider = AndroidProvider::new("first".to_string());
    let enc = prepare_encryption(&mut provider, "second", b"abc", "RSA").unwrap();
    assert_eq!(enc.key_id, "second");
    assert_eq!(enc.direction, CipherDirection::Encrypt);
    let dec = prepare_decryption(&mut provider, "second", b"xyz", "RSA").unwrap();
    assert_eq!(dec.direction, CipherDirection::Decrypt);
    assert_eq!(dec.input, b"xyz".to_vec());
    assert_eq!(
        prepare_encryption(&mut provider, "second", b"abc", "EC").unwrap_err(),
        SecurityModuleError::UnsupportedOperation("EC is not allowed for en/decryption on android".to_owned())
    );
    assert_eq!(
        prepare_decryption(&mut provider, "second", b"abc", "AES").unwrap_err(),
        SecurityModuleError::UnsupportedOperation("Symmetric keys are not supported for en/decryption".to_owned())
    );
}

#[test]
fn signature_flows() {
    let mut provider = AndroidProvider::new("s".to_string());
    let sign = prepare_signing(&mut provider, "s", b"d", "EC").unwrap();
    assert_eq!(sign.algorithm, "SHA256withECDSA");
    let verify = prepare_verification(&mut provider, "s", b"d", b"sig", "RSA").unwrap();
    assert_eq!(verify.algorithm, "SHA256withRSA");
    assert_eq!(verify.signature, b"sig".to_vec());
    assert_eq!(
        prepare_signing(&mut provider, "s", b"d", "AES").unwrap_err(),
        SecurityModuleError::UnsupportedOperation("Symmetric keys cannot sign or verify".to_owned())
    );
}

#[test]
fn exception_messages() {
    assert_eq!(
        SecurityModuleError::InternalError("boom".to_string()).exception_message(),
        "Internal error: boom"
    );
    assert_eq!(
        SecurityModuleError::InitializationError("Module is not initialized".to_string()).exception_message(),
        "Initialization error: Module is not initialized"
    );
    assert_eq!(
        SecurityModuleError::RuntimeUnavailable(String::new()).exception_message(),
        "Runtime unavailable: "
    );
    assert_eq!(
        SecurityModuleError::MarshalError("short read".to_string()).exception_message(),
        "Marshal error: short read"
    );
    assert_eq!(
        SecurityModuleError::InvalidConfiguration("Digest is not supported for this key family".to_string()).exception_message(),
        "Invalid configuration: Digest is not supported for this key family"
    );
    assert_eq!(
        SecurityModuleError::UnsupportedOperation("KeyUsage::Decrypt was not provided".to_string()).exception_message(),
        "Unsupported operation: KeyUsage::Decrypt was not provided"
    );
}

#[test]
fn usages_without_algorithm_are_not_initialized() {
    let mut provider = AndroidProvider::new("k".to_string());
    provider.key_usages = Some(vec![KeyUsage::Decrypt, KeyUsage::SignEncrypt]);
    assert!(!provider.is_initialized());
    assert_eq!(
        provider.create_key("k").unwrap_err(),
        SecurityModuleError::InitializationError("Module is not initialized".to_owned())
    );
    assert_eq!(provider.key_id, "k");
    assert!(!provider.key_loaded);
}

#[test]
fn symmetric_provider_cannot_create_keys() {
    let mut provider = AndroidProvider::new("k".to_string());
    provider.initialize_from_config(create_config("AES", false)).unwrap();
    assert!(provider.is_initialized());
    assert_eq!(
        provider.create_key("k").unwrap_err(),
        SecurityModuleError::InternalError("Invalid algorithm for key generation".to_owned())
    );
}

#[test]
fn unlisted_name_flows_use_rsa() {
    let mut provider = AndroidProvider::new("k".to_string());
    let enc = prepare_encryption(&mut provider, "k", b"m", "XYZ").unwrap();
    assert_eq!(enc.transformation, "RSA/ECB/PKCS1Padding");
    let sign = prepare_signing(&mut provider, "k", b"m", "XYZ").unwrap();
    assert_eq!(sign.algorithm, "SHA256withRSA");
}
