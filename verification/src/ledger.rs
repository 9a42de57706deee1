//! The instruction model, and the trusted boundary to the ledger program
//! library that builds instruction bytes: mint initialisation, minting,
//! native transfers, token transfers and associated-account derivation.
use vstd::prelude::*;
use crate::keys::PublicKey;

verus! {

use vstd::bytes::spec_u64_to_le_bytes;

/// One account referenced by an instruction, with its meta flags.
pub struct InstructionAccount {
    pub pubkey: PublicKey,
    pub is_signer: bool,
    pub is_writable: bool,
}

impl InstructionAccount {
    pub open spec fn wf(&self) -> bool {
        self.pubkey.wf()
    }
}

/// An unsigned instruction: the program addressed, the ordered accounts it
/// touches, and its opaque payload bytes.  Immutable once built; the handlers
/// only re-shape it for output.
pub struct InstructionDescriptor {
    pub program_id: PublicKey,
    pub accounts: Vec<InstructionAccount>,
    pub data: Vec<u8>,
}

impl InstructionDescriptor {
    pub open spec fn wf(&self) -> bool {
        &&& self.program_id.wf()
        &&& forall|i: int| 0 <= i < self.accounts@.len() ==> (#[trigger] self.accounts@[i]).wf()
    }
}

/// The token program's 32-byte id: base58 `TokenkegQfeZyiNwAJbNbGKPFXCWuBvf9Ss623VQ5DA`.
pub open spec fn spl_token_program_id() -> Seq<u8> {
    seq![6u8, 221, 246, 225, 215, 101, 161, 147, 217, 203, 225, 70, 206, 235, 121, 172, 28, 180,
        133, 237, 95, 91, 55, 145, 58, 140, 245, 133, 126, 255, 0, 169]
}

/// The rent sysvar's 32-byte id: base58 `SysvarRent111111111111111111111111111111111`.
pub open spec fn rent_sysvar_id() -> Seq<u8> {
    seq![6u8, 167, 213, 23, 25, 44, 92, 81, 33, 140, 201, 76, 61, 74, 241, 127, 88, 218, 238, 8,
        155, 161, 253, 68, 227, 219, 217, 138, 0, 0, 0, 0]
}

/// The system program's 32-byte id: base58 `11111111111111111111111111111111`, all zeroes.
pub open spec fn system_program_id() -> Seq<u8> {
    Seq::new(32, |i: int| 0u8)
}

/// The associated token account that the program library derives for a wallet
/// and a mint: a pure function of the two addresses.
pub uninterp spec fn derived_token_account(wallet: Seq<u8>, mint: Seq<u8>) -> Seq<u8>;

/// Relies on `spl_token::instruction::initialize_mint`, handed the token
/// program's own id so it cannot fail: two accounts (the writable mint, then
/// the read-only rent sysvar) and a payload of tag 0, the decimals, the mint
/// authority, and the same authority again as present freeze authority.
#[verifier::external_body]
pub(crate) fn build_initialize_mint(
    mint: &PublicKey,
    mint_authority: &PublicKey,
    decimals: u8,
) -> (r: InstructionDescriptor)
    requires
        mint.wf(),
        mint_authority.wf(),
    ensures
        r.wf(),
        r.program_id@ == spl_token_program_id(),
        r.accounts@.len() == 2,
        r.accounts@[0].pubkey@ == mint@,
        r.accounts@[0].is_signer == false,
        r.accounts@[0].is_writable == true,
        r.accounts@[1].pubkey@ == rent_sysvar_id(),
        r.accounts@[1].is_signer == false,
        r.accounts@[1].is_writable == false,
        r.data@ == seq![0u8, decimals] + mint_authority@ + seq![1u8] + mint_authority@,
{
    let m = solana_sdk::pubkey::Pubkey::try_from(mint.bytes.as_slice()).unwrap();
    let a = solana_sdk::pubkey::Pubkey::try_from(mint_authority.bytes.as_slice()).unwrap();
    let ix = spl_token::instruction::initialize_mint(&spl_token::ID, &m, &a, Some(&a), decimals)
        .unwrap();
    InstructionDescriptor {
        program_id: PublicKey { bytes: ix.program_id.to_bytes().to_vec() },
        accounts: ix.accounts.iter().map(|x| InstructionAccount {
            pubkey: PublicKey { bytes: x.pubkey.to_bytes().to_vec() },
            is_signer: x.is_signer,
            is_writable: x.is_writable,
        }).collect(),
        data: ix.data,
    }
}

/// Relies on `spl_token::instruction::mint_to`, handed the token program's
/// own id and no multisig signers, so it cannot fail: three accounts (the
/// writable mint, the writable destination, the read-only signing authority)
/// and a payload of tag 7 plus the amount in little-endian bytes.
#[verifier::external_body]
pub(crate) fn build_mint_to(
    mint: &PublicKey,
    destination: &PublicKey,
    authority: &PublicKey,
    amount: u64,
) -> (r: InstructionDescriptor)
    requires
        mint.wf(),
        destination.wf(),
        authority.wf(),
    ensures
        r.wf(),
        r.program_id@ == spl_token_program_id(),
        r.accounts@.len() == 3,
        r.accounts@[0].pubkey@ == mint@,
        r.accounts@[0].is_signer == false,
        r.accounts@[0].is_writable == true,
        r.accounts@[1].pubkey@ == destination@,
        r.accounts@[1].is_signer == false,
        r.accounts@[1].is_writable == true,
        r.accounts@[2].pubkey@ == authority@,
        r.accounts@[2].is_signer == true,
        r.accounts@[2].is_writable == false,
        r.data@ == seq![7u8] + spec_u64_to_le_bytes(amount),
{
    let m = solana_sdk::pubkey::Pubkey::try_from(mint.bytes.as_slice()).unwrap();
    let d = solana_sdk::pubkey::Pubkey::try_from(destination.bytes.as_slice()).unwrap();
    let a = solana_sdk::pubkey::Pubkey::try_from(authority.bytes.as_slice()).unwrap();
    let ix = spl_token::instruction::mint_to(&spl_token::ID, &m, &d, &a, &[], amount).unwrap();
    InstructionDescriptor {
        program_id: PublicKey { bytes: ix.program_id.to_bytes().to_vec() },
        accounts: ix.accounts.iter().map(|x| InstructionAccount {
            pubkey: PublicKey { bytes: x.pubkey.to_bytes().to_vec() },
            is_signer: x.is_signer,
            is_writable: x.is_writable,
        }).collect(),
        data: ix.data,
    }
}

/// Relies on `spl_token::instruction::transfer`, handed the token program's
/// own id and no multisig signers, so it cannot fail: three accounts (the
/// writable source, the writable destination, the read-only signing owner)
/// and a payload of tag 3 plus the amount in little-endian bytes.
#[verifier::external_body]
pub(crate) fn build_token_transfer(
    source: &PublicKey,
    destination: &PublicKey,
    owner: &PublicKey,
    amount: u64,
) -> (r: InstructionDescriptor)
    requires
        source.wf(),
        destination.wf(),
        owner.wf(),
    ensures
        r.wf(),
        r.program_id@ == spl_token_program_id(),
        r.accounts@.len() == 3,
        r.accounts@[0].pubkey@ == source@,
        r.accounts@[0].is_signer == false,
        r.accounts@[0].is_writable == true,
        r.accounts@[1].pubkey@ == destination@,
        r.accounts@[1].is_signer == false,
        r.accounts@[1].is_writable == true,
        r.accounts@[2].pubkey@ == owner@,
        r.accounts@[2].is_signer == true,
        r.accounts@[2].is_writable == false,
        r.data@ == seq![3u8] + spec_u64_to_le_bytes(amount),
{
    let s = solana_sdk::pubkey::Pubkey::try_from(source.bytes.as_slice()).unwrap();
    let d = solana_sdk::pubkey::Pubkey::try_from(destination.bytes.as_slice()).unwrap();
    let o = solana_sdk::pubkey::Pubkey::try_from(owner.bytes.as_slice()).unwrap();
    let ix = spl_token::instruction::transfer(&spl_token::ID, &s, &d, &o, &[], amount).unwrap();
    InstructionDescriptor {
        program_id: PublicKey { bytes: ix.program_id.to_bytes().to_vec() },
        accounts: ix.accounts.iter().map(|x| InstructionAccount {
            pubkey: PublicKey { bytes: x.pubkey.to_bytes().to_vec() },
            is_signer: x.is_signer,
            is_writable: x.is_writable,
        }).collect(),
        data: ix.data,
    }
}

/// Relies on `solana_system_interface::instruction::transfer` with bincode
/// encoding: two accounts (the writable signing source, then the writable
/// recipient) and a payload of the transfer variant index 2 as four
/// little-endian bytes plus the lamports in little-endian bytes.
#[verifier::external_body]
pub(crate) fn build_system_transfer(
    from: &PublicKey,
    to: &PublicKey,
    lamports: u64,
) -> (r: InstructionDescriptor)
    requires
        from.wf(),
        to.wf(),
    ensures
        r.wf(),
        r.program_id@ == system_program_id(),
        r.accounts@.len() == 2,
        r.accounts@[0].pubkey@ == from@,
        r.accounts@[0].is_signer == true,
        r.accounts@[0].is_writable == true,
        r.accounts@[1].pubkey@ == to@,
        r.accounts@[1].is_signer == false,
        r.accounts@[1].is_writable == true,
        r.data@ == seq![2u8, 0u8, 0u8, 0u8] + spec_u64_to_le_bytes(lamports),
{
    let f = solana_sdk::pubkey::Pubkey::try_from(from.bytes.as_slice()).unwrap();
    let t = solana_sdk::pubkey::Pubkey::try_from(to.bytes.as_slice()).unwrap();
    let ix = solana_system_interface::instruction::transfer(&f, &t, lamports);
    InstructionDescriptor {
        program_id: PublicKey { bytes: ix.program_id.to_bytes().to_vec() },
        accounts: ix.accounts.iter().map(|x| InstructionAccount {
            pubkey: PublicKey { bytes: x.pubkey.to_bytes().to_vec() },
            is_signer: x.is_signer,
            is_writable: x.is_writable,
        }).collect(),
        data: ix.data,
    }
}

/// Relies on `get_associated_token_address`: the associated token account is
/// a pure 32-byte function of the wallet and mint addresses.
#[verifier::external_body]
pub(crate) fn derive_token_account(wallet: &PublicKey, mint: &PublicKey) -> (r: PublicKey)
    requires
        wallet.wf(),
        mint.wf(),
    ensures
        r@ == derived_token_account(wallet@, mint@),
        r.wf(),
{
    let w = solana_sdk::pubkey::Pubkey::try_from(wallet.bytes.as_slice()).unwrap();
    let m = solana_sdk::pubkey::Pubkey::try_from(mint.bytes.as_slice()).unwrap();
    let derived = spl_associated_token_account::get_associated_token_address(&w, &m);
    PublicKey { bytes: derived.to_bytes().to_vec() }
}

} // verus!
