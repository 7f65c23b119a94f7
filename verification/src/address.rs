//! Addresses of records and identities of callers, and the derivation of a
//! record's address from a namespace tag and its identifying keys.

use anchor_lang::prelude::Pubkey;
use vstd::prelude::*;
use vstd::slice::slice_to_vec;
use vstd::string::StringSliceAdditionalSpecFns;

verus! {

/// A 32-byte address: where a record lives, or who a caller is.
#[derive(Clone, Copy, Debug, PartialEq, Eq, Hash)]
pub struct Address {
    pub bytes: [u8; 32],
}

/// The program under which every address of this system is derived.
pub const ID: [u8; 32] = [
    1, 9, 109, 244, 243, 123, 5, 157, 29, 93, 48, 158, 78, 194, 126, 209,
    217, 75, 207, 126, 67, 108, 52, 175, 89, 95, 90, 15, 26, 182, 243, 58,
];

/// The program's own address.
pub fn id() -> (r: Address)
    ensures
        r.bytes == ID,
{
    Address { bytes: ID }
}

/// Whether two byte arrays of one length hold the same bytes.
pub fn array_eq<const N: usize>(a: &[u8; N], b: &[u8; N]) -> (r: bool)
    ensures
        r == (*a == *b),
{
    let mut i: usize = 0;
    while i < N
        invariant
            0 <= i <= N,
            forall|j: int| 0 <= j < i ==> a@[j] == b@[j],
        decreases N - i,
    {
        if a[i] != b[i] {
            return false;
        }
        i += 1;
    }
    assert(a@ =~= b@);
    assert(*a =~= *b);
    true
}

impl Address {
    /// Whether `self` and `other` are the same address.
    pub fn same(&self, other: &Address) -> (r: bool)
        ensures
            r == (*self == *other),
    {
        array_eq(&self.bytes, &other.bytes)
    }
}

/// What the host's derivation yields for a list of seeds under a program:
/// the derived address with its bump seed, or nothing where no bump seed
/// gives a valid address or the seeds are out of the host's limits.
pub uninterp spec fn program_address(seeds: Seq<Seq<u8>>, program_id: Seq<u8>) -> Option<(Seq<u8>, u8)>;

/// The seeds as sequences of bytes.
pub open spec fn seeds_view(seeds: Seq<Vec<u8>>) -> Seq<Seq<u8>> {
    Seq::new(seeds.len(), |i: int| seeds[i]@)
}

/// A derived address and its bump seed, the address as its bytes.
pub open spec fn found_bytes(found: Option<(Address, u8)>) -> Option<(Seq<u8>, u8)> {
    match found {
        Some(pair) => Some((pair.0.bytes@, pair.1)),
        None => None,
    }
}

/// Calls `Pubkey::try_find_program_address` on the seeds and the program's
/// address. The contract claims only that the outcome is the one named
/// `program_address` for these bytes: the call computes on its arguments
/// and on nothing else, and returns `None` where it finds no address.
#[verifier::external_body]
fn find_program_address(seeds: &Vec<Vec<u8>>, program_id: &Address) -> (r: Option<(Address, u8)>)
    ensures
        found_bytes(r) == program_address(seeds_view(seeds@), program_id.bytes@),
{
    let parts: Vec<&[u8]> = seeds.iter().map(|s| s.as_slice()).collect();
    let program = Pubkey::new_from_array(program_id.bytes);
    match Pubkey::try_find_program_address(&parts, &program) {
        Some((key, bump)) => Some((Address { bytes: key.to_bytes() }, bump)),
        None => None,
    }
}

/// The address whose bytes are `bytes`.
pub open spec fn address_of(bytes: Seq<u8>) -> Address {
    choose|a: Address| a.bytes@ == bytes
}

/// The derived address and bump seed for `seeds` under `program_id`.
pub open spec fn derived(seeds: Seq<Seq<u8>>, program_id: Address) -> Option<(Address, u8)> {
    match program_address(seeds, program_id.bytes@) {
        Some(found) => Some((address_of(found.0), found.1)),
        None => None,
    }
}

/// An address is determined by its bytes.
pub proof fn lemma_address_of(a: Address)
    ensures
        address_of(a.bytes@) == a,
{
    let b = address_of(a.bytes@);
    assert(b.bytes@ == a.bytes@);
    assert(b.bytes =~= a.bytes);
}

/// Derives the address for `seeds` under `program_id`.
pub fn derive(seeds: &Vec<Vec<u8>>, program_id: &Address) -> (r: Option<(Address, u8)>)
    ensures
        r == derived(seeds_view(seeds@), *program_id),
{
    let r = find_program_address(seeds, program_id);
    proof {
        if let Some(found) = r {
            lemma_address_of(found.0);
        }
    }
    r
}

/// The bytes of a namespace tag.
pub open spec fn tag_bytes(tag: &str) -> Seq<u8> {
    tag.spec_bytes()
}

/// Seeds of an organization's address: the tag, then the organization's id.
pub open spec fn organization_seeds(organization_id: [u8; 16]) -> Seq<Seq<u8>> {
    seq![tag_bytes("organization"), organization_id@]
}

/// Seeds of a proposal's address: the tag, the parent organization's
/// address, then the proposal's id.
pub open spec fn proposal_seeds(organization: Address, proposal_id: [u8; 16]) -> Seq<Seq<u8>> {
    seq![tag_bytes("proposal"), organization.bytes@, proposal_id@]
}

/// Seeds of a results record's address: the tag, then the proposal's address.
pub open spec fn results_seeds(proposal: Address) -> Seq<Seq<u8>> {
    seq![tag_bytes("proposal_results"), proposal.bytes@]
}

/// The address of the organization with the given id.
pub fn organization_address(program_id: &Address, organization_id: &[u8; 16]) -> (r: Option<
    (Address, u8),
>)
    ensures
        r == derived(organization_seeds(*organization_id), *program_id),
{
    let mut seeds: Vec<Vec<u8>> = Vec::new();
    seeds.push(slice_to_vec("organization".as_bytes()));
    seeds.push(slice_to_vec(organization_id.as_slice()));
    assert(seeds_view(seeds@) =~= organization_seeds(*organization_id));
    derive(&seeds, program_id)
}

/// The address of the proposal with the given id under the organization at
/// `organization`.
pub fn proposal_address(program_id: &Address, organization: &Address, proposal_id: &[u8; 16]) -> (r:
    Option<(Address, u8)>)
    ensures
        r == derived(proposal_seeds(*organization, *proposal_id), *program_id),
{
    let mut seeds: Vec<Vec<u8>> = Vec::new();
    seeds.push(slice_to_vec("proposal".as_bytes()));
    seeds.push(slice_to_vec(organization.bytes.as_slice()));
    seeds.push(slice_to_vec(proposal_id.as_slice()));
    assert(seeds_view(seeds@) =~= proposal_seeds(*organization, *proposal_id));
    derive(&seeds, program_id)
}

/// The address of the results record of the proposal at `proposal`.
pub fn results_address(program_id: &Address, proposal: &Address) -> (r: Option<(Address, u8)>)
    ensures
        r == derived(results_seeds(*proposal), *program_id),
{
    let mut seeds: Vec<Vec<u8>> = Vec::new();
    seeds.push(slice_to_vec("proposal_results".as_bytes()));
    seeds.push(slice_to_vec(proposal.bytes.as_slice()));
    assert(seeds_view(seeds@) =~= results_seeds(*proposal));
    derive(&seeds, program_id)
}

/// Deriving an address twice from the same keys gives the same address:
/// each of the three derivations depends on the bytes of its keys alone.
pub proof fn lemma_derivation_deterministic(
    program_a: Address,
    program_b: Address,
    organization_a: [u8; 16],
    organization_b: [u8; 16],
    parent_a: Address,
    parent_b: Address,
    proposal_a: [u8; 16],
    proposal_b: [u8; 16],
)
    requires
        program_a.bytes@ == program_b.bytes@,
        organization_a@ == organization_b@,
        parent_a.bytes@ == parent_b.bytes@,
        proposal_a@ == proposal_b@,
    ensures
        derived(organization_seeds(organization_a), program_a) == derived(
            organization_seeds(organization_b),
            program_b,
        ),
        derived(proposal_seeds(parent_a, proposal_a), program_a) == derived(
            proposal_seeds(parent_b, proposal_b),
            program_b,
        ),
        derived(results_seeds(parent_a), program_a) == derived(results_seeds(parent_b), program_b),
{
}

} // verus!
