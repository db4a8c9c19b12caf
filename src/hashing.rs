//! The content digest that identifies a listed item.
use ink::env::hash::{HashOutput, Keccak256};
use vstd::prelude::*;

verus! {

/// The Keccak-256 digest of a byte string.
pub uninterp spec fn keccak_digest(data: Seq<u8>) -> Seq<u8>;

/// Relies on ink::env::hash_bytes::<Keccak256>: writes the 32-byte Keccak-256
/// digest of `poem` into the output buffer, and nothing else.
#[verifier::external_body]
pub(crate) fn hash_poem(poem: &[u8]) -> (r: [u8; 32])
    ensures
        r@ == keccak_digest(poem@),
{
    let mut output = <Keccak256 as HashOutput>::Type::default();
    ink::env::hash_bytes::<Keccak256>(poem, &mut output);
    output
}

} // verus!
