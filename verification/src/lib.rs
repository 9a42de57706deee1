//! A verified ledger-gateway core: request field extraction, domain
//! validation of keys, amounts and decimals, message signing and
//! verification, and deterministic assembly of unsigned ledger instructions,
//! all behind a uniform response envelope.  Cryptography and instruction
//! byte layout come from outside libraries through a narrow trusted
//! boundary; everything around that boundary is specified and proved.

pub mod codec;
pub mod errors;
pub mod keypair;
pub mod keys;
pub mod ledger;
pub mod message;
pub mod request;
pub mod response;
pub mod send;
pub mod token;
pub mod utils;
