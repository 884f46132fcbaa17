//! A keystore that answers every request with fixed bytes, for
//! exercising the boundary without touching the platform keystore.
use vstd::prelude::*;
use vstd::string::StringSliceAdditionalSpecFns;
use crate::marshal::{signed_view, to_java_bytes};

verus! {

/// A keystore that names one key and answers with fixed replies.
pub struct Keystore {
    pub keyname: String,
}

impl Keystore {
    /// Generates nothing: this keystore has no key material, and it
    /// stays as it was.
    pub fn generate_new_key(&mut self)
        ensures
            *final(self) == *old(self),
    {
    }

    /// The fixed reply `encrypted`, as managed bytes, whatever the input.
    pub fn encrypt(&self, text: &[i8]) -> (r: Vec<i8>)
        ensures
            r@ == signed_view("encrypted".spec_bytes()),
    {
        to_java_bytes("encrypted".as_bytes())
    }

    /// The fixed reply `decrypted`, as managed bytes, whatever the input.
    pub fn decrypt(&self, bytes: &[i8]) -> (r: Vec<i8>)
        ensures
            r@ == signed_view("decrypted".spec_bytes()),
    {
        to_java_bytes("decrypted".as_bytes())
    }
}

impl Default for Keystore {
    /// The keystore of the key `key123`.
    fn default() -> (r: Keystore)
        ensures
            r.keyname@ == "key123"@,
    {
        Keystore { keyname: "key123".to_owned() }
    }
}

/// The greeting for `recipient`; a recipient whose name could not be read is
/// greeted as `there`.
pub fn greeting(recipient: Option<&str>) -> (r: String)
    ensures
        r@ == "Hello "@ + match recipient {
            Some(name) => name@,
            None => "there"@,
        },
{
    let mut text = "Hello ".to_owned();
    match recipient {
        Some(name) => text.append(name),
        None => text.append("there"),
    }
    text
}

} // verus!
