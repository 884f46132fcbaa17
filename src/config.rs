//! Algorithm names a caller may ask for, and the configuration each one gives.
use vstd::prelude::*;
use crate::algorithms::{self, AsymmetricEncryption, BlockCiphers, EncryptionMode, KeyUsage, SymmetricMode};

verus! {

/// A configuration for a provider, built from an algorithm name.
#[derive(Clone, Debug)]
pub struct AndroidConfig {
    pub mode: EncryptionMode,
    pub hardware_backed: bool,
    pub key_usages: Vec<KeyUsage>,
}

/// A named algorithm that the keystore offers.
#[derive(Clone, Debug)]
pub struct Capability {
    pub name: String,
    pub mode: EncryptionMode,
}

/// RSA keys of 512 bits, signing over SHA-256.
pub open spec fn rsa_mode() -> EncryptionMode {
    EncryptionMode::ASym { algo: AsymmetricEncryption::Rsa(512), digest: algorithms::Hash::Sha256 }
}

/// EC keys on a 256-bit curve, signing over SHA-256.
pub open spec fn ec_mode() -> EncryptionMode {
    EncryptionMode::ASym { algo: AsymmetricEncryption::Ecc(256), digest: algorithms::Hash::Sha256 }
}

/// AES in CBC mode with 256-bit keys.
pub open spec fn aes_mode() -> EncryptionMode {
    EncryptionMode::Sym(BlockCiphers::Aes(SymmetricMode::Cbc, 256))
}

/// The algorithms the keystore offers, by name, in the order they are listed.
pub open spec fn capability_table() -> Seq<(Seq<char>, EncryptionMode)> {
    seq![("RSA"@, rsa_mode()), ("EC"@, ec_mode()), ("AES"@, aes_mode())]
}

/// The mode that an algorithm name stands for, if it is one the keystore offers.
pub open spec fn mode_named(name: Seq<char>) -> Option<EncryptionMode> {
    if name == "RSA"@ {
        Some(rsa_mode())
    } else if name == "EC"@ {
        Some(ec_mode())
    } else if name == "AES"@ {
        Some(aes_mode())
    } else {
        None
    }
}

/// The usages granted to every configuration built from a name.
pub open spec fn default_usages() -> Seq<KeyUsage> {
    seq![KeyUsage::Decrypt, KeyUsage::SignEncrypt, KeyUsage::CreateX509]
}

/// The view of a capability list: each name with its mode.
pub open spec fn capability_view(caps: Seq<Capability>) -> Seq<(Seq<char>, EncryptionMode)> {
    caps.map_values(|c: Capability| (c.name@, c.mode))
}

/// Whether two texts are equal.
pub fn same_text(a: &str, b: &str) -> (r: bool)
    ensures
        r == (a@ == b@),
{
    a.to_owned() == b.to_owned()
}

/// The algorithms the keystore offers.
pub fn capabilities() -> (r: Vec<Capability>)
    ensures
        capability_view(r@) == capability_table(),
{
    let r = vec![
        Capability { name: "RSA".to_owned(), mode: EncryptionMode::ASym { algo: AsymmetricEncryption::Rsa(512), digest: algorithms::Hash::Sha256 } },
        Capability { name: "EC".to_owned(), mode: EncryptionMode::ASym { algo: AsymmetricEncryption::Ecc(256), digest: algorithms::Hash::Sha256 } },
        Capability { name: "AES".to_owned(), mode: EncryptionMode::Sym(BlockCiphers::Aes(SymmetricMode::Cbc, 256)) },
    ];
    assert(capability_view(r@) =~= capability_table());
    r
}

/// The mode of a configuration whose algorithm name the keystore does not list.
pub open spec fn default_mode() -> EncryptionMode {
    rsa_mode()
}

/// The mode that a configuration built from the name `name` has: the listed
/// mode of that name, or the default mode for a name that is not listed.
pub open spec fn config_mode(name: Seq<char>) -> EncryptionMode {
    match mode_named(name) {
        Some(m) => m,
        None => default_mode(),
    }
}

/// The mode listed under `name` in `caps`, if any.
fn find_capability(caps: &Vec<Capability>, name: &str) -> (r: Option<EncryptionMode>)
    requires
        capability_view(caps@) == capability_table(),
    ensures
        r == mode_named(name@),
{
    assert(capability_view(caps@).len() == caps@.len());
    let mut i: usize = 0;
    while i < caps.len()
        invariant
            capability_view(caps@) == capability_table(),
            caps@.len() == capability_table().len(),
            i <= caps@.len(),
            forall|j: int| 0 <= j < i ==> capability_table()[j].0 != name@,
        decreases caps@.len() - i,
    {
        assert(capability_view(caps@)[i as int] == (caps@[i as int].name@, caps@[i as int].mode));
        if same_text(caps[i].name.as_str(), name) {
            proof {
                lemma_listed_names_accepted(i as int);
            }
            return Some(caps[i].mode);
        }
        i += 1;
    }
    assert(capability_table()[0].0 != name@);
    assert(capability_table()[1].0 != name@);
    assert(capability_table()[2].0 != name@);
    None
}

/// Builds the configuration for the algorithm called `mode`: the name is
/// looked up among the keystore's capabilities, and a name that is not listed
/// falls back to the default mode (RSA).
pub fn create_config(mode: &str, hardware_backed: bool) -> (r: AndroidConfig)
    ensures
        mode_named(mode@) matches Some(m) ==> r.mode == m,
        mode_named(mode@) is None ==> r.mode == default_mode(),
        r.mode == config_mode(mode@),
        r.hardware_backed == hardware_backed,
        r.key_usages@ == default_usages(),
{
    let caps = capabilities();
    let chosen = match find_capability(&caps, mode) {
        Some(m) => m,
        None => EncryptionMode::ASym { algo: AsymmetricEncryption::Rsa(512), digest: algorithms::Hash::Sha256 },
    };
    let key_usages = vec![KeyUsage::Decrypt, KeyUsage::SignEncrypt, KeyUsage::CreateX509];
    assert(key_usages@ =~= default_usages());
    AndroidConfig { mode: chosen, hardware_backed, key_usages }
}

/// Every algorithm the keystore lists is accepted by name, with the mode it
/// is listed with.
pub proof fn lemma_listed_names_accepted(i: int)
    requires
        0 <= i < capability_table().len(),
    ensures
        mode_named(capability_table()[i].0) == Some(capability_table()[i].1),
{
    reveal_strlit("RSA");
    reveal_strlit("EC");
    reveal_strlit("AES");
    assert("EC"@ != "RSA"@) by {
        assert("EC"@.len() != "RSA"@.len());
    }
    assert("AES"@ != "RSA"@) by {
        assert("AES"@[0] != "RSA"@[0]);
    }
    assert("AES"@ != "EC"@) by {
        assert("AES"@.len() != "EC"@.len());
    }
}

} // verus!
