//! Typed key material, and the trusted boundary to the ed25519 crypto the
//! gateway relies on: keypair generation and reconstruction, message signing
//! and signature verification.
use vstd::prelude::*;

verus! {

/// A validated 32-byte account key, held as plain bytes.
#[derive(Debug, Clone)]
pub struct PublicKey {
    pub bytes: Vec<u8>,
}

impl View for PublicKey {
    type V = Seq<u8>;

    open spec fn view(&self) -> Seq<u8> {
        self.bytes@
    }
}

impl PublicKey {
    /// A well-formed key holds exactly 32 bytes.
    pub open spec fn wf(&self) -> bool {
        self@.len() == 32
    }

    /// Whether two keys hold the same bytes.
    pub fn same_key(&self, other: &PublicKey) -> (r: bool)
        ensures
            r == (self@ == other@),
    {
        if self.bytes.len() != other.bytes.len() {
            return false;
        }
        let mut i: usize = 0;
        while i < self.bytes.len()
            invariant
                0 <= i <= self.bytes@.len(),
                self.bytes@.len() == other.bytes@.len(),
                forall|j: int| 0 <= j < i ==> self.bytes@[j] == other.bytes@[j],
            decreases self.bytes@.len() - i,
        {
            if self.bytes[i] != other.bytes[i] {
                return false;
            }
            i = i + 1;
        }
        proof {
            assert(self.bytes@ =~= other.bytes@);
        }
        true
    }
}

/// Validated 64-byte secret-key material: a 32-byte seed followed by the
/// 32-byte public key the seed derives.  Ephemeral: built per request,
/// used to sign once, then dropped.
#[derive(Debug)]
pub struct SecretKey {
    pub bytes: Vec<u8>,
}

impl View for SecretKey {
    type V = Seq<u8>;

    open spec fn view(&self) -> Seq<u8> {
        self.bytes@
    }
}

impl SecretKey {
    /// Well-formed secret material holds 64 bytes that reconstruct into a
    /// signing keypair.
    pub open spec fn wf(&self) -> bool {
        self@.len() == 64 && keypair_bytes_valid(self@)
    }

    /// The public half of the key material: its second 32 bytes.
    pub fn public_bytes(&self) -> (r: Vec<u8>)
        requires
            self.wf(),
        ensures
            r@ == self@.subrange(32, 64),
            r@.len() == 32,
    {
        let mut out: Vec<u8> = Vec::new();
        let mut i: usize = 32;
        while i < 64
            invariant
                32 <= i <= 64,
                self.bytes@.len() == 64,
                out@ == self.bytes@.subrange(32, i as int),
            decreases 64 - i,
        {
            out.push(self.bytes[i]);
            proof {
                assert(out@ =~= self.bytes@.subrange(32, i + 1));
            }
            i = i + 1;
        }
        out
    }
}

/// Whether `Keypair::try_from` accepts these 64 bytes: it succeeds exactly
/// when the second half equals the public key derived from the first half.
pub uninterp spec fn keypair_bytes_valid(kb: Seq<u8>) -> bool;

/// The ed25519 signature that signing `msg` with the keypair bytes `kb`
/// produces (ed25519 signing is deterministic).
pub uninterp spec fn signature_of(kb: Seq<u8>, msg: Seq<u8>) -> Seq<u8>;

/// What ed25519 verification of `sig` on `msg` under public key `pk` reports.
pub uninterp spec fn sig_valid_of(pk: Seq<u8>, msg: Seq<u8>, sig: Seq<u8>) -> bool;

/// Relies on `Keypair::new` and `Keypair::to_bytes`: a fresh random keypair
/// serialises to 64 bytes, seed first and derived public key second, and such
/// bytes always reconstruct.
#[verifier::external_body]
pub(crate) fn generate_keypair_bytes() -> (r: Vec<u8>)
    ensures
        r@.len() == 64,
        keypair_bytes_valid(r@),
{
    solana_sdk::signature::Keypair::new().to_bytes().to_vec()
}

/// Relies on `Keypair::try_from(&[u8])`: it succeeds exactly on 64-byte
/// seed-plus-derived-public-key material, and on success the keypair's public
/// key is the second half of the bytes.
#[verifier::external_body]
pub(crate) fn keypair_pubkey_bytes(kb: &Vec<u8>) -> (r: Option<Vec<u8>>)
    ensures
        r is Some <==> keypair_bytes_valid(kb@),
        match r {
            Some(p) => kb@.len() == 64 && p@ == kb@.subrange(32, 64),
            None => true,
        },
{
    match solana_sdk::signature::Keypair::try_from(kb.as_slice()) {
        Ok(kp) => Some(solana_sdk::signer::Signer::pubkey(&kp).to_bytes().to_vec()),
        Err(_) => None,
    }
}

/// Relies on `Keypair::try_from` and `Signer::sign_message`: ed25519 signing
/// is deterministic in the keypair bytes and the message, yields 64 bytes,
/// and the signature verifies under the keypair's public key, which for valid
/// keypair bytes is their second half.
#[verifier::external_body]
pub(crate) fn sign_with_keypair(kb: &Vec<u8>, msg: &[u8]) -> (r: Vec<u8>)
    requires
        keypair_bytes_valid(kb@),
    ensures
        r@ == signature_of(kb@, msg@),
        r@.len() == 64,
        sig_valid_of(kb@.subrange(32, 64), msg@, r@),
{
    let kp = solana_sdk::signature::Keypair::try_from(kb.as_slice()).unwrap();
    solana_sdk::signer::Signer::sign_message(&kp, msg).as_ref().to_vec()
}

/// Relies on `Signature::verify`: deterministic ed25519 verification of a
/// 64-byte signature against a public key and a message; it reports false
/// when the public key does not parse.
#[verifier::external_body]
pub(crate) fn verify_signature(pk: &[u8], msg: &[u8], sig: &Vec<u8>) -> (r: bool)
    requires
        sig@.len() == 64,
    ensures
        r == sig_valid_of(pk@, msg@, sig@),
{
    let arr: [u8; 64] = sig.as_slice().try_into().unwrap();
    solana_sdk::signature::Signature::from(arr).verify(pk, msg)
}

} // verus!
