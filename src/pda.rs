use vstd::prelude::*;
use crate::address::Address;
use solana_program::pubkey::Pubkey;

verus! {

/// The address and bump seed derived from `seeds` under `program_id`, or
/// `None` when no bump seed gives a valid address.
pub uninterp spec fn program_address_of(seeds: Seq<Seq<u8>>, program_id: Seq<u8>) -> Option<(Seq<u8>, u8)>;

/// The view of a derived address and its bump seed.
pub open spec fn derived_view(r: Option<(Address, u8)>) -> Option<(Seq<u8>, u8)> {
    match r {
        Some(p) => Some((p.0@, p.1)),
        None => None,
    }
}

/// Relies on `Pubkey::try_find_program_address`: the program-derived address
/// and bump seed for the seeds, which depend on the seeds and the program alone.
#[verifier::external_body]
pub(crate) fn find_program_address(seeds: &Vec<Vec<u8>>, program_id: &Address) -> (r: Option<(Address, u8)>)
    ensures
        derived_view(r) == program_address_of(seeds.deep_view(), program_id@),
{
    let s: Vec<&[u8]> = seeds.iter().map(|x| x.as_slice()).collect();
    Pubkey::try_find_program_address(&s, &Pubkey::from(program_id.bytes))
        .map(|(p, b)| (Address { bytes: p.to_bytes() }, b))
}

/// The address of the SPL token program.
pub open spec fn token_program_bytes() -> Seq<u8> {
    seq![
        6u8, 221, 246, 225, 215, 101, 161, 147, 217, 203, 225, 70, 206, 235, 121, 172,
        28, 180, 133, 237, 95, 91, 55, 145, 58, 140, 245, 133, 126, 255, 0, 169,
    ]
}

/// The address of the attestation registry program.
pub open spec fn sas_program_bytes() -> Seq<u8> {
    seq![
        15u8, 94, 158, 213, 55, 30, 44, 112, 137, 140, 169, 253, 14, 119, 192, 6,
        92, 171, 93, 160, 46, 86, 103, 139, 39, 19, 56, 42, 243, 116, 89, 183,
    ]
}

/// Relies on `anchor_spl::token::ID`: the SPL token program's address.
#[verifier::external_body]
pub(crate) fn token_program_id() -> (r: Address)
    ensures
        r@ == token_program_bytes(),
{
    Address { bytes: anchor_spl::token::ID.to_bytes() }
}

/// Relies on `solana_attestation_service_client::programs::SOLANA_ATTESTATION_SERVICE_ID`:
/// the registry program's address.
#[verifier::external_body]
pub(crate) fn sas_program_id() -> (r: Address)
    ensures
        r@ == sas_program_bytes(),
{
    Address { bytes: solana_attestation_service_client::programs::SOLANA_ATTESTATION_SERVICE_ID.to_bytes() }
}

/// Namespace tag of identity records.
pub open spec fn record_tag() -> Seq<u8> {
    seq![97u8, 116, 111, 109, 105, 100]
}

/// Namespace tag of the configuration singleton.
pub open spec fn config_tag() -> Seq<u8> {
    seq![97u8, 116, 111, 109, 105, 100, 95, 99, 111, 110, 102, 105, 103]
}

/// Namespace tag of the registry-scoped signing authority.
pub open spec fn sas_authority_tag() -> Seq<u8> {
    seq![115u8, 97, 115, 95, 97, 117, 116, 104, 111, 114, 105, 116, 121]
}

/// Namespace tag of attestations in the registry.
pub open spec fn attestation_tag() -> Seq<u8> {
    seq![97u8, 116, 116, 101, 115, 116, 97, 116, 105, 111, 110]
}

/// Seeds of the identity record of `owner`.
pub fn record_seeds(owner: &Address) -> (r: Vec<Vec<u8>>)
    ensures
        r.deep_view() == seq![record_tag(), owner@],
{
    let tag: Vec<u8> = vec![97u8, 116, 111, 109, 105, 100];
    assert(tag@ =~= record_tag());
    let key = owner.to_byte_vec();
    let r = vec![tag, key];
    assert(r.deep_view().len() == 2);
    assert(r.deep_view()[0] == tag@);
    assert(r.deep_view()[1] == key@);
    assert(r.deep_view() =~= seq![record_tag(), owner@]);
    r
}

/// Seeds of the configuration singleton.
pub fn config_seeds() -> (r: Vec<Vec<u8>>)
    ensures
        r.deep_view() == seq![config_tag()],
{
    let tag: Vec<u8> = vec![97u8, 116, 111, 109, 105, 100, 95, 99, 111, 110, 102, 105, 103];
    assert(tag@ =~= config_tag());
    let r = vec![tag];
    assert(r.deep_view().len() == 1);
    assert(r.deep_view()[0] == tag@);
    assert(r.deep_view() =~= seq![config_tag()]);
    r
}

/// Seeds of the registry-scoped signing authority.
pub fn sas_authority_seeds() -> (r: Vec<Vec<u8>>)
    ensures
        r.deep_view() == seq![sas_authority_tag()],
{
    let tag: Vec<u8> = vec![115u8, 97, 115, 95, 97, 117, 116, 104, 111, 114, 105, 116, 121];
    assert(tag@ =~= sas_authority_tag());
    let r = vec![tag];
    assert(r.deep_view().len() == 1);
    assert(r.deep_view()[0] == tag@);
    assert(r.deep_view() =~= seq![sas_authority_tag()]);
    r
}

/// Seeds of the attestation on `(credential, schema, nonce)`.
pub fn attestation_seeds(credential: &Address, schema: &Address, nonce: &Address) -> (r: Vec<Vec<u8>>)
    ensures
        r.deep_view() == seq![attestation_tag(), credential@, schema@, nonce@],
{
    let tag: Vec<u8> = vec![97u8, 116, 116, 101, 115, 116, 97, 116, 105, 111, 110];
    assert(tag@ =~= attestation_tag());
    let c = credential.to_byte_vec();
    let s = schema.to_byte_vec();
    let n = nonce.to_byte_vec();
    let r = vec![tag, c, s, n];
    assert(r.deep_view().len() == 4);
    assert(r.deep_view()[0] == tag@);
    assert(r.deep_view()[1] == c@);
    assert(r.deep_view()[2] == s@);
    assert(r.deep_view()[3] == n@);
    assert(r.deep_view() =~= seq![attestation_tag(), credential@, schema@, nonce@]);
    r
}

/// The bump seed of `handle` when it is the address derived from `derived`.
pub open spec fn handle_bump(derived: Option<(Seq<u8>, u8)>, handle: Address) -> Option<u8> {
    match derived {
        Some(p) => if p.0 == handle@ {
            Some(p.1)
        } else {
            None
        },
        None => None,
    }
}

/// Checks that `handle` is the address derived from `seeds` under `program_id`,
/// and gives its bump seed.
pub fn check_handle(seeds: &Vec<Vec<u8>>, program_id: &Address, handle: &Address) -> (r: Option<u8>)
    ensures
        r == handle_bump(program_address_of(seeds.deep_view(), program_id@), *handle),
{
    match find_program_address(seeds, program_id) {
        Some((a, b)) => if a.same_as(handle) {
            Some(b)
        } else {
            None
        },
        None => None,
    }
}

/// The derived address of `owner`'s record under `program_id`, with its bump seed.
pub fn derive_record_address(program_id: &Address, owner: &Address) -> (r: Option<(Address, u8)>)
    ensures
        derived_view(r) == program_address_of(seq![record_tag(), owner@], program_id@),
{
    find_program_address(&record_seeds(owner), program_id)
}

/// The derived address of the configuration under `program_id`, with its bump seed.
pub fn derive_config_address(program_id: &Address) -> (r: Option<(Address, u8)>)
    ensures
        derived_view(r) == program_address_of(seq![config_tag()], program_id@),
{
    find_program_address(&config_seeds(), program_id)
}

/// The derived address of the signing authority under `program_id`, with its bump seed.
pub fn derive_sas_authority_address(program_id: &Address) -> (r: Option<(Address, u8)>)
    ensures
        derived_view(r) == program_address_of(seq![sas_authority_tag()], program_id@),
{
    find_program_address(&sas_authority_seeds(), program_id)
}

} // verus!
