use crate::address::{address_is_its_bytes, Address};
use anchor_lang::solana_program::pubkey::Pubkey;
use vstd::prelude::*;

verus! {

/// The bytes of `project`: the label under which a project is addressed.
pub const PROJECT_LABEL: [u8; 7] = [0x70, 0x72, 0x6f, 0x6a, 0x65, 0x63, 0x74];

/// The bytes of `vault_token`: the label under which a project's vault is addressed.
pub const VAULT_TOKEN_LABEL: [u8; 11] = [
    0x76, 0x61, 0x75, 0x6c, 0x74, 0x5f, 0x74, 0x6f, 0x6b, 0x65, 0x6e,
];

/// The bytes of `vault_auth`: the label under which a vault's authority is addressed.
pub const VAULT_AUTHORITY_LABEL: [u8; 10] = [
    0x76, 0x61, 0x75, 0x6c, 0x74, 0x5f, 0x61, 0x75, 0x74, 0x68,
];

/// The bytes of `milestone`: the label under which a milestone is addressed.
pub const MILESTONE_LABEL: [u8; 9] = [0x6d, 0x69, 0x6c, 0x65, 0x73, 0x74, 0x6f, 0x6e, 0x65];

/// The seeds of a project's address: the label, then its owner.
pub open spec fn project_seeds(owner: Address) -> Seq<Seq<u8>> {
    seq![PROJECT_LABEL@, owner@]
}

/// The seeds of a vault's address: the label, then the project's address.
pub open spec fn vault_token_seeds(project: Address) -> Seq<Seq<u8>> {
    seq![VAULT_TOKEN_LABEL@, project@]
}

/// The seeds of a vault authority's address: the label, then the project's address.
pub open spec fn vault_authority_seeds(project: Address) -> Seq<Seq<u8>> {
    seq![VAULT_AUTHORITY_LABEL@, project@]
}

/// The seeds of a milestone's address: the label, the project's address,
/// then the milestone's number as one byte.
pub open spec fn milestone_seeds(project: Address, milestone_id: u8) -> Seq<Seq<u8>> {
    seq![MILESTONE_LABEL@, project@, seq![milestone_id]]
}

/// The seeds with which a vault authority signs: those of its address,
/// then the bump seed found with it as one byte.
pub open spec fn vault_signer_seeds(project: Address, bump: u8) -> Seq<Seq<u8>> {
    vault_authority_seeds(project).push(seq![bump])
}

/// The address and bump seed that `Pubkey::try_find_program_address` finds for
/// a list of seeds and a program, or `None` where it finds none. The search is
/// a fixed computation on these bytes, so equal arguments give equal results.
pub uninterp spec fn program_address(seeds: Seq<Seq<u8>>, program_id: Seq<u8>) -> Option<(Seq<u8>, u8)>;

/// Whether `found` is what the derivation gives for these seeds and program.
pub open spec fn is_program_address(
    found: Option<(Address, u8)>,
    seeds: Seq<Seq<u8>>,
    program_id: Address,
) -> bool {
    match found {
        Some((address, bump)) => program_address(seeds, program_id@) == Some((address@, bump)),
        None => program_address(seeds, program_id@) is None,
    }
}

/// Whether `address` is the one that the derivation gives for these seeds
/// and program, whatever the bump seed.
pub open spec fn derived_at(seeds: Seq<Seq<u8>>, program_id: Address, address: Address) -> bool {
    program_address(seeds, program_id@) matches Some((bytes, _)) && bytes == address@
}

/// Whether the derivation gives `address` with the bump seed `bump` for
/// these seeds and program.
pub open spec fn derived_at_with_bump(
    seeds: Seq<Seq<u8>>,
    program_id: Address,
    address: Address,
    bump: u8,
) -> bool {
    program_address(seeds, program_id@) == Some((address@, bump))
}

/// Calls `Pubkey::try_find_program_address`, which anchor_lang hands on from
/// the Solana address library. Trusted, not proved: what comes back, an
/// address with its bump seed or nothing, is the derivation named
/// `program_address`, applied to the bytes of the seeds in their order and
/// to the bytes of the program's address. The call does not panic: on seeds
/// it cannot take it returns `None`.
#[verifier::external_body]
fn try_find_program_address(seeds: &Vec<Vec<u8>>, program_id: &Address) -> (found: Option<(Address, u8)>)
    ensures
        match found {
            Some((address, bump)) => program_address(seeds.deep_view(), program_id@) == Some(
                (address@, bump),
            ),
            None => program_address(seeds.deep_view(), program_id@) is None,
        },
{
    let parts: Vec<&[u8]> = seeds.iter().map(|seed| seed.as_slice()).collect();
    let program = Pubkey::new_from_array(program_id.bytes);
    match Pubkey::try_find_program_address(&parts, &program) {
        Some((key, bump)) => Some((Address { bytes: key.to_bytes() }, bump)),
        None => None,
    }
}

fn bytes_of(part: &[u8]) -> (bytes: Vec<u8>)
    ensures
        bytes@ == part@,
{
    let mut bytes: Vec<u8> = Vec::new();
    let mut i: usize = 0;
    while i < part.len()
        invariant
            i <= part.len(),
            bytes@ == part@.take(i as int),
        decreases part.len() - i,
    {
        bytes.push(part[i]);
        i += 1;
    }
    bytes
}

/// A label followed by an address, as a list of two seeds.
fn labelled(label: &[u8], address: &Address) -> (seeds: Vec<Vec<u8>>)
    ensures
        seeds.deep_view() == seq![label@, address@],
{
    let mut seeds: Vec<Vec<u8>> = Vec::new();
    seeds.push(bytes_of(label));
    seeds.push(bytes_of(address.bytes.as_slice()));
    assert(seeds.deep_view() =~~= seq![label@, address@]);
    seeds
}

/// Adds one more seed that holds the single byte `byte`.
fn with_byte(seeds: Vec<Vec<u8>>, byte: u8) -> (longer: Vec<Vec<u8>>)
    ensures
        longer.deep_view() == seeds.deep_view().push(seq![byte]),
{
    let mut longer = seeds;
    let mut last: Vec<u8> = Vec::new();
    last.push(byte);
    longer.push(last);
    assert(longer.deep_view() =~~= seeds.deep_view().push(seq![byte]));
    longer
}

/// The seeds with which the vault authority of `project` signs a transfer.
pub fn build_vault_signer_seeds(project: &Address, bump: u8) -> (seeds: Vec<Vec<u8>>)
    ensures
        seeds.deep_view() == vault_signer_seeds(*project, bump),
{
    with_byte(labelled(VAULT_AUTHORITY_LABEL.as_slice(), project), bump)
}

/// The address of the project that `owner` can open under `program_id`, with
/// its bump seed. One owner has one project address.
pub fn project_address(owner: &Address, program_id: &Address) -> (found: Option<(Address, u8)>)
    ensures
        is_program_address(found, project_seeds(*owner), *program_id),
{
    try_find_program_address(&labelled(PROJECT_LABEL.as_slice(), owner), program_id)
}

/// The address of the vault that holds the funds of `project`.
pub fn vault_token_address(project: &Address, program_id: &Address) -> (found: Option<(Address, u8)>)
    ensures
        is_program_address(found, vault_token_seeds(*project), *program_id),
{
    try_find_program_address(&labelled(VAULT_TOKEN_LABEL.as_slice(), project), program_id)
}

/// The address of the authority that alone can move funds out of the vault
/// of `project`. No key pair stands behind it.
pub fn vault_authority_address(project: &Address, program_id: &Address) -> (found: Option<(
    Address,
    u8,
)>)
    ensures
        is_program_address(found, vault_authority_seeds(*project), *program_id),
{
    try_find_program_address(&labelled(VAULT_AUTHORITY_LABEL.as_slice(), project), program_id)
}

/// The address of milestone number `milestone_id` of `project`.
pub fn milestone_address(project: &Address, milestone_id: u8, program_id: &Address) -> (found:
    Option<(Address, u8)>)
    ensures
        is_program_address(found, milestone_seeds(*project, milestone_id), *program_id),
{
    let seeds = with_byte(labelled(MILESTONE_LABEL.as_slice(), project), milestone_id);
    assert(seeds.deep_view() =~~= milestone_seeds(*project, milestone_id));
    try_find_program_address(&seeds, program_id)
}

/// Whether a derivation found `address`: it found one, and it is this one.
pub fn found_at(found: &Option<(Address, u8)>, address: &Address) -> (ok: bool)
    ensures
        ok == (found matches Some((a, _)) && a == *address),
{
    match found {
        Some((a, _)) => *a == *address,
        None => false,
    }
}

/// Whether a derivation found `address` with the bump seed `bump`.
pub fn found_at_with_bump(found: &Option<(Address, u8)>, address: &Address, bump: u8) -> (ok: bool)
    ensures
        ok == (*found == Some((*address, bump))),
{
    match found {
        Some((a, b)) => *a == *address && *b == bump,
        None => false,
    }
}

/// What a derivation found, read against an address: finding `address` is
/// the same as `address` being the derived one.
pub proof fn found_is_derived(
    found: Option<(Address, u8)>,
    seeds: Seq<Seq<u8>>,
    program_id: Address,
    address: Address,
    bump: u8,
)
    requires
        is_program_address(found, seeds, program_id),
    ensures
        (found matches Some((a, _)) && a == address) == derived_at(seeds, program_id, address),
        (found == Some((address, bump))) == derived_at_with_bump(seeds, program_id, address, bump),
{
    if let Some((a, _)) = found {
        address_is_its_bytes(a, address);
    }
}

} // verus!
