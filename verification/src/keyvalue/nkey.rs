//! Signing with the key pair that a seed stands for.

use nkeys::KeyPair;
use vstd::prelude::*;

verus! {

/// What `nkeys::KeyPair::from_seed` says of a seed: nothing where it makes a key pair of it,
/// and the words in which the error is displayed where it does not.
pub uninterp spec fn seed_error(seed: Seq<char>) -> Option<Seq<char>>;

/// The signature that `nkeys::KeyPair::sign` gives to an input with the key pair of a seed.
pub uninterp spec fn seed_signature(seed: Seq<char>, input: Seq<u8>) -> Seq<u8>;

/// Calls `nkeys::KeyPair::from_seed` and tells whether it made a key pair of the seed. Nothing
/// but the seed enters into that; its error is what [`seed_error`] names. A seed that does not
/// take exactly 58 bytes is always an error.
#[verifier::external_body]
pub(crate) fn check_seed(seed: &str) -> (checked: Result<(), String>)
    ensures
        match checked {
            Ok(_) => seed_error(seed@) is None && vstd::utf8::encode_utf8(seed@).len() == 58,
            Err(reason) => seed_error(seed@) == Some(reason@),
        },
{
    KeyPair::from_seed(seed).map(|_| ()).map_err(|e| e.to_string())
}

/// Calls `nkeys::KeyPair::sign` on the key pair that `nkeys::KeyPair::from_seed` makes of the
/// seed. A key pair made of a seed always signs, so an error is one of the seed, the same that
/// [`check_seed`] gives. The signature is deterministic and has 64 bytes; it is what
/// [`seed_signature`] names.
#[verifier::external_body]
fn sign_with_seed(seed: &str, input: &[u8]) -> (signed: Result<Vec<u8>, String>)
    ensures
        match signed {
            Ok(signature) => {
                &&& seed_error(seed@) is None
                &&& signature@ == seed_signature(seed@, input@)
                &&& signature@.len() == 64
            },
            Err(reason) => seed_error(seed@) == Some(reason@),
        },
{
    KeyPair::from_seed(seed).and_then(|key_pair| key_pair.sign(input)).map_err(|e| e.to_string())
}

/// Signs the nonce with which a NATS server challenges a client. It fails where the seed stands
/// for no key pair, and then with the same words as the connection that the seed was meant for.
pub fn sign_nonce(seed: &str, nonce: &[u8]) -> (signed: Result<Vec<u8>, String>)
    ensures
        match signed {
            Ok(signature) => {
                &&& seed_error(seed@) is None
                &&& signature@ == seed_signature(seed@, nonce@)
                &&& signature@.len() == 64
            },
            Err(reason) => seed_error(seed@) == Some(reason@),
        },
{
    sign_with_seed(seed, nonce)
}

} // verus!
