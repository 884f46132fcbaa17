//! Bytes across the boundary: the managed runtime's bytes are signed, the
//! native ones unsigned, and the bit pattern of each byte is kept.
use vstd::prelude::*;
use base64::Engine;
use crate::error::{SecurityModuleError, detail};

verus! {

/// Each signed byte read as the unsigned byte with the same bits.
pub open spec fn unsigned_view(b: Seq<i8>) -> Seq<u8> {
    b.map_values(|x: i8| x as u8)
}

/// Each unsigned byte read as the signed byte with the same bits.
pub open spec fn signed_view(b: Seq<u8>) -> Seq<i8> {
    b.map_values(|x: u8| x as i8)
}

/// Relies on `bytemuck::cast_slice`: `i8` and `u8` have one size and one
/// alignment, so the slice is reinterpreted byte for byte, never refused.
#[verifier::external_body]
fn cast_to_unsigned(b: &[i8]) -> (r: Vec<u8>)
    ensures
        r@ == unsigned_view(b@),
{
    bytemuck::cast_slice::<i8, u8>(b).to_vec()
}

/// Relies on `bytemuck::cast_slice`, as `cast_to_unsigned` does, the other way.
#[verifier::external_body]
fn cast_to_signed(b: &[u8]) -> (r: Vec<i8>)
    ensures
        r@ == signed_view(b@),
{
    bytemuck::cast_slice::<u8, i8>(b).to_vec()
}

/// The native bytes of a managed byte array.
pub fn from_java_bytes(bytes: &[i8]) -> (r: Vec<u8>)
    ensures
        r@ == unsigned_view(bytes@),
        r@.len() == bytes@.len(),
{
    cast_to_unsigned(bytes)
}

/// The managed byte array of native bytes.
pub fn to_java_bytes(bytes: &[u8]) -> (r: Vec<i8>)
    ensures
        r@ == signed_view(bytes@),
        r@.len() == bytes@.len(),
{
    cast_to_signed(bytes)
}

/// Bytes that cross the boundary and come back are the bytes that left.
pub proof fn lemma_marshal_round_trip(native: Seq<u8>, managed: Seq<i8>)
    ensures
        unsigned_view(signed_view(native)) == native,
        signed_view(unsigned_view(managed)) == managed,
{
    assert forall|i: int| 0 <= i < native.len() implies unsigned_view(signed_view(native))[i] == native[i] by {
        let x = native[i];
        assert(((x as i8) as u8) == x) by (bit_vector);
    }
    assert forall|i: int| 0 <= i < managed.len() implies signed_view(unsigned_view(managed))[i] == managed[i] by {
        let y = managed[i];
        assert(((y as u8) as i8) == y) by (bit_vector);
    }
    assert(unsigned_view(signed_view(native)) =~= native);
    assert(signed_view(unsigned_view(managed)) =~= managed);
}

/// What the URL-safe, padded base64 engine writes for `b`.
pub uninterp spec fn base64_url_of(b: Seq<u8>) -> Seq<char>;

/// The length of padded base64 text for `n` bytes: four characters for each
/// started group of three bytes.
pub open spec fn padded_base64_len(n: nat) -> nat {
    4 * ((n + 2) / 3)
}

/// Relies on `base64::engine::general_purpose::URL_SAFE.encode`: the URL-safe
/// alphabet with padding, which panics only when the output length overflows.
#[verifier::external_body]
fn base64_url_encode(b: &[u8]) -> (r: String)
    requires
        b@.len() <= usize::MAX / 2,
    ensures
        r@ == base64_url_of(b@),
        r@.len() == padded_base64_len(b@.len()),
{
    base64::engine::general_purpose::URL_SAFE.encode(b)
}

/// The printable form of the ciphertext a platform cipher returned:
/// URL-safe base64 with padding. The platform's exception becomes an internal
/// error, and a ciphertext too long to encode a marshal error.
pub fn finish_text_encryption(outcome: Result<Vec<u8>, String>) -> (r: Result<String, SecurityModuleError>)
    ensures
        match outcome {
            Ok(b) => if b@.len() <= usize::MAX / 2 {
                r is Ok && r->Ok_0@ == base64_url_of(b@) && r->Ok_0@.len() == padded_base64_len(b@.len())
            } else {
                r is Err && r->Err_0 is MarshalError && detail(r->Err_0) == "Ciphertext is too long to encode"@
            },
            Err(m) => r == Err::<String, SecurityModuleError>(SecurityModuleError::InternalError(m)),
        },
{
    match outcome {
        Ok(bytes) => {
            if bytes.len() > usize::MAX / 2 {
                Err(SecurityModuleError::MarshalError("Ciphertext is too long to encode".to_owned()))
            } else {
                Ok(base64_url_encode(bytes.as_slice()))
            }
        },
        Err(m) => Err(SecurityModuleError::InternalError(m)),
    }
}

} // verus!
