//! Keypair generation: fresh random key material, reported as a base58
//! public key and a base58 secret.
use vstd::prelude::*;
use crate::codec::{base58_encode, base58_of};
use crate::keys::{generate_keypair_bytes, keypair_bytes_valid, SecretKey};
use crate::response::{ApiResponse, KeypairResponse};

verus! {

/// How a keypair payload relates to the 64 bytes of keypair material it was
/// built from: the secret is the whole material base58-encoded, the public
/// key is its second half base58-encoded.
pub open spec fn keypair_material_shown(kb: Seq<u8>, resp: KeypairResponse) -> bool {
    &&& kb.len() == 64
    &&& keypair_bytes_valid(kb)
    &&& resp.secret@ == base58_of(kb)
    &&& resp.pubkey@ == base58_of(kb.subrange(32, 64))
}

/// Generates a fresh keypair and reports it; always succeeds, and the payload
/// shows exactly one batch of valid keypair material.
pub fn handle_keypair_generation() -> (r: ApiResponse<KeypairResponse>)
    ensures
        r is Success,
        exists|kb: Seq<u8>| #[trigger] keypair_material_shown(kb, r->Success_0),
{
    let material = SecretKey { bytes: generate_keypair_bytes() };
    let public_key = material.public_bytes();
    let resp = KeypairResponse {
        pubkey: base58_encode(public_key.as_slice()),
        secret: base58_encode(material.bytes.as_slice()),
    };
    let r = ApiResponse::Success(resp);
    proof {
        assert(keypair_material_shown(material@, r->Success_0));
    }
    r
}

} // verus!
