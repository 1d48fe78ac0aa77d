use vstd::prelude::*;
use vstd::bytes::{spec_u32_to_le_bytes, spec_u64_to_le_bytes, u64_to_le_bytes};
use crate::address::Address;
use crate::pda::{
    attestation_seeds, attestation_tag, derived_view, find_program_address, program_address_of,
    sas_program_bytes, sas_program_id,
};
use solana_attestation_service_client::instructions::{
    CloseAttestation, CreateAttestation, CreateAttestationInstructionArgs,
};
use solana_program::pubkey::Pubkey;

verus! {

/// One account of a cross-program call, with its flags.
#[derive(Clone, Copy, Debug)]
pub struct AccountRef {
    pub key: Address,
    pub is_signer: bool,
    pub is_writable: bool,
}

/// A call into another program: the program, its accounts in order, and the
/// instruction data.
#[derive(Clone, Debug)]
pub struct CpiInstruction {
    pub program_id: Address,
    pub accounts: Vec<AccountRef>,
    pub data: Vec<u8>,
}

pub open spec fn account(key: Address, is_signer: bool, is_writable: bool) -> AccountRef {
    AccountRef { key, is_signer, is_writable }
}

/// The payload mirrored into the registry: the rank, then the total burned and
/// the creation slot, each as eight little-endian bytes.
pub open spec fn attestation_payload(rank: u8, total_burned: u64, created_at_slot: u64) -> Seq<u8> {
    seq![rank] + spec_u64_to_le_bytes(total_burned) + spec_u64_to_le_bytes(created_at_slot)
}

/// Encodes the payload mirrored into the registry.
pub fn serialize_atomid_attestation_data(rank: u8, total_burned: u64, created_at_slot: u64) -> (r: Vec<u8>)
    ensures
        r@ == attestation_payload(rank, total_burned, created_at_slot),
        r@.len() == 17,
{
    let mut data: Vec<u8> = Vec::new();
    data.push(rank);
    let mut total = u64_to_le_bytes(total_burned);
    data.append(&mut total);
    let mut created = u64_to_le_bytes(created_at_slot);
    data.append(&mut created);
    assert(data@ =~= attestation_payload(rank, total_burned, created_at_slot));
    data
}

/// The data of a registry call that issues an attestation: the instruction's
/// tag, then the nonce, the length-prefixed payload and the expiry.
pub open spec fn create_attestation_data(nonce: Address, data: Seq<u8>, expiry: i64) -> Seq<u8> {
    seq![6u8] + nonce@ + spec_u32_to_le_bytes(data.len() as u32) + data + spec_u64_to_le_bytes(
        expiry as u64,
    )
}

/// The accounts of a registry call that issues an attestation.
pub open spec fn create_attestation_accounts(
    payer: Address,
    authority: Address,
    credential: Address,
    schema: Address,
    attestation: Address,
    system_program: Address,
) -> Seq<AccountRef> {
    seq![
        account(payer, true, true),
        account(authority, true, false),
        account(credential, false, false),
        account(schema, false, false),
        account(attestation, false, true),
        account(system_program, false, false),
    ]
}

/// The accounts of a registry call that closes an attestation.
pub open spec fn close_attestation_accounts(
    payer: Address,
    authority: Address,
    credential: Address,
    attestation: Address,
    event_authority: Address,
    system_program: Address,
) -> Seq<AccountRef> {
    seq![
        account(payer, true, true),
        account(authority, true, false),
        account(credential, false, false),
        account(attestation, false, true),
        account(event_authority, false, false),
        account(system_program, false, false),
    ]
}

/// Relies on `CreateAttestation::instruction` of solana_attestation_service_client:
/// a call of the registry program with the six accounts in order and the
/// borsh encoding of tag 6, nonce, payload and expiry as data.
#[verifier::external_body]
fn create_attestation_ix(
    k: [Address; 6],
    nonce: Address,
    data: Vec<u8>,
    expiry: i64,
) -> (r: CpiInstruction)
    requires
        data@.len() <= u32::MAX,
    ensures
        r.program_id@ == sas_program_bytes(),
        r.accounts@ == create_attestation_accounts(k[0], k[1], k[2], k[3], k[4], k[5]),
        r.data@ == create_attestation_data(nonce, data@, expiry),
{
    let p = |a: &Address| Pubkey::from(a.bytes);
    let ix = CreateAttestation {
        payer: p(&k[0]), authority: p(&k[1]), credential: p(&k[2]),
        schema: p(&k[3]), attestation: p(&k[4]), system_program: p(&k[5]),
    }.instruction(CreateAttestationInstructionArgs { nonce: p(&nonce), data, expiry });
    let a = ix.accounts.iter().map(|m| AccountRef {
        key: Address { bytes: m.pubkey.to_bytes() }, is_signer: m.is_signer, is_writable: m.is_writable,
    });
    CpiInstruction { program_id: Address { bytes: ix.program_id.to_bytes() }, accounts: a.collect(), data: ix.data }
}

/// Relies on `CloseAttestation::instruction` of solana_attestation_service_client:
/// a call of the registry program with the seven accounts in order and the
/// single byte 7 as data.
#[verifier::external_body]
fn close_attestation_ix(k: [Address; 7]) -> (r: CpiInstruction)
    ensures
        r.program_id@ == sas_program_bytes(),
        r.accounts@ == close_attestation_accounts(k[0], k[1], k[2], k[3], k[4], k[5]).push(
            account(k[6], false, false),
        ),
        r.data@ == seq![7u8],
{
    let p = |a: &Address| Pubkey::from(a.bytes);
    let ix = CloseAttestation {
        payer: p(&k[0]), authority: p(&k[1]), credential: p(&k[2]), attestation: p(&k[3]),
        event_authority: p(&k[4]), system_program: p(&k[5]), attestation_program: p(&k[6]),
    }.instruction();
    let a = ix.accounts.iter().map(|m| AccountRef {
        key: Address { bytes: m.pubkey.to_bytes() }, is_signer: m.is_signer, is_writable: m.is_writable,
    });
    CpiInstruction { program_id: Address { bytes: ix.program_id.to_bytes() }, accounts: a.collect(), data: ix.data }
}

/// The registry call that issues an attestation of `data` on `nonce`,
/// expiring at `expiry`.
pub fn create_attestation_instruction(
    payer: Address,
    authority: Address,
    credential: Address,
    schema: Address,
    attestation: Address,
    system_program: Address,
    nonce: Address,
    data: Vec<u8>,
    expiry: i64,
) -> (r: CpiInstruction)
    requires
        data@.len() <= u32::MAX,
    ensures
        r.program_id@ == sas_program_bytes(),
        r.accounts@ == create_attestation_accounts(
            payer,
            authority,
            credential,
            schema,
            attestation,
            system_program,
        ),
        r.data@ == create_attestation_data(nonce, data@, expiry),
{
    create_attestation_ix(
        [payer, authority, credential, schema, attestation, system_program],
        nonce,
        data,
        expiry,
    )
}

/// The registry call that closes `attestation`.
pub fn close_attestation_instruction(
    payer: Address,
    authority: Address,
    credential: Address,
    attestation: Address,
    event_authority: Address,
    system_program: Address,
) -> (r: CpiInstruction)
    ensures
        r.program_id@ == sas_program_bytes(),
        r.accounts@.len() == 7,
        r.accounts@.subrange(0, 6) == close_attestation_accounts(
            payer,
            authority,
            credential,
            attestation,
            event_authority,
            system_program,
        ),
        r.accounts@[6].key@ == sas_program_bytes(),
        !r.accounts@[6].is_signer && !r.accounts@[6].is_writable,
        r.data@ == seq![7u8],
{
    let registry = sas_program_id();
    let r = close_attestation_ix(
        [payer, authority, credential, attestation, event_authority, system_program, registry],
    );
    assert(r.accounts@.subrange(0, 6) =~= close_attestation_accounts(
        payer,
        authority,
        credential,
        attestation,
        event_authority,
        system_program,
    ));
    r
}

/// The registry's address of the attestation on `(credential, schema, nonce)`,
/// with its bump seed.
pub fn derive_attestation_pda(credential: &Address, schema: &Address, nonce: &Address) -> (r:
    Option<(Address, u8)>)
    ensures
        derived_view(r) == program_address_of(
            seq![attestation_tag(), credential@, schema@, nonce@],
            sas_program_bytes(),
        ),
{
    let seeds = attestation_seeds(credential, schema, nonce);
    let registry = sas_program_id();
    find_program_address(&seeds, &registry)
}

} // verus!
