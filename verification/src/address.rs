//! Record addresses: 32-byte identities, and the derivation of a record's
//! address from a namespace tag and the seeds that identify the record.

use anchor_lang::prelude::Pubkey;
use vstd::prelude::*;

verus! {

/// A 32-byte identity: a caller, a program or a record.
#[derive(Clone, Copy, Debug, PartialEq, Eq)]
pub struct Address {
    pub bytes: [u8; 32],
}

impl View for Address {
    type V = Seq<u8>;

    open spec fn view(&self) -> Seq<u8> {
        self.bytes@
    }
}

impl Address {
    pub fn new(bytes: [u8; 32]) -> (a: Address)
        ensures
            a.bytes == bytes,
    {
        Address { bytes }
    }

    /// Whether two addresses hold the same 32 bytes.
    pub fn same(&self, other: &Address) -> (r: bool)
        ensures
            r == (self@ == other@),
            r == (*self == *other),
    {
        let mut i: usize = 0;
        while i < 32
            invariant
                i <= 32,
                forall|j: int| 0 <= j < i ==> self.bytes@[j] == other.bytes@[j],
            decreases 32 - i,
        {
            if self.bytes[i] != other.bytes[i] {
                return false;
            }
            i += 1;
        }
        proof {
            assert(self.bytes@ =~= other.bytes@);
            assert(self.bytes =~= other.bytes);
        }
        true
    }

    /// The 32 bytes, as a vector.
    pub fn to_vec(&self) -> (v: Vec<u8>)
        ensures
            v@ == self@,
    {
        let mut v: Vec<u8> = Vec::new();
        let mut i: usize = 0;
        while i < 32
            invariant
                i <= 32,
                v@.len() == i,
                forall|j: int| 0 <= j < i ==> v@[j] == self.bytes@[j],
            decreases 32 - i,
        {
            v.push(self.bytes[i]);
            i += 1;
        }
        proof {
            assert(v@ =~= self.bytes@);
        }
        v
    }
}

/// A derived record address with the bump seed that completes its seeds.
#[derive(Clone, Copy, Debug, PartialEq, Eq)]
pub struct Derived {
    pub address: Address,
    pub bump: u8,
}

/// What a derivation gives, as plain values.
pub open spec fn derived_view(d: Option<Derived>) -> Option<(Seq<u8>, u8)> {
    match d {
        Some(d) => Some((d.address@, d.bump)),
        None => None,
    }
}

/// The bump seed of a derivation; zero where nothing was derived.
pub open spec fn bump_of(derived: Option<(Seq<u8>, u8)>) -> u8 {
    match derived {
        Some((_, bump)) => bump,
        None => 0,
    }
}

/// The seeds of a derivation, as byte sequences.
pub open spec fn seeds_view(seeds: &Vec<Vec<u8>>) -> Seq<Seq<u8>> {
    Seq::new(seeds@.len(), |i: int| seeds@[i]@)
}

/// The program address, with its bump seed, that the seeds and the program's
/// id determine; `None` where they determine none.
pub uninterp spec fn program_address(seeds: Seq<Seq<u8>>, program_id: Seq<u8>) -> Option<
    (Seq<u8>, u8),
>;

/// Calls `Pubkey::try_find_program_address`. Trusted: the address and bump
/// that come back are a function of the seeds and of the program's id alone,
/// named `program_address`. Nothing is claimed about which address it is.
#[verifier::external_body]
fn find_program_address(seeds: &Vec<Vec<u8>>, program_id: &Address) -> (r: Option<Derived>)
    ensures
        derived_view(r) == program_address(seeds_view(seeds), program_id@),
{
    let parts: Vec<&[u8]> = seeds.iter().map(|s| s.as_slice()).collect();
    let id = Pubkey::new_from_array(program_id.bytes);
    match Pubkey::try_find_program_address(&parts, &id) {
        Some((key, bump)) => Some(Derived { address: Address { bytes: key.to_bytes() }, bump }),
        None => None,
    }
}

/// The namespace tag of the global registry: the ASCII text `global_state`.
pub open spec fn global_state_tag() -> Seq<u8> {
    seq![103u8, 108u8, 111u8, 98u8, 97u8, 108u8, 95u8, 115u8, 116u8, 97u8, 116u8, 101u8]
}

/// The namespace tag of proposals: the ASCII text `proposal`.
pub open spec fn proposal_tag() -> Seq<u8> {
    seq![112u8, 114u8, 111u8, 112u8, 111u8, 115u8, 97u8, 108u8]
}

/// The namespace tag of ballots: the ASCII text `vote`.
pub open spec fn vote_tag() -> Seq<u8> {
    seq![118u8, 111u8, 116u8, 101u8]
}

/// The namespace tag of user profiles: the ASCII text `user_profile`.
pub open spec fn user_profile_tag() -> Seq<u8> {
    seq![117u8, 115u8, 101u8, 114u8, 95u8, 112u8, 114u8, 111u8, 102u8, 105u8, 108u8, 101u8]
}

/// Seeds of the global registry: its tag alone.
pub open spec fn global_state_seeds() -> Seq<Seq<u8>> {
    seq![global_state_tag()]
}

/// Seeds of a proposal: the tag, its creator, and the registry's proposal
/// count at creation as eight little-endian bytes.
pub open spec fn proposal_seeds(creator: Seq<u8>, sequence: u64) -> Seq<Seq<u8>> {
    seq![proposal_tag(), creator, vstd::bytes::spec_u64_to_le_bytes(sequence)]
}

/// Seeds of a ballot: the tag, the voter, and the proposal's address.
pub open spec fn vote_seeds(voter: Seq<u8>, proposal: Seq<u8>) -> Seq<Seq<u8>> {
    seq![vote_tag(), voter, proposal]
}

/// Seeds of a user profile: the tag and the identity.
pub open spec fn user_profile_seeds(identity: Seq<u8>) -> Seq<Seq<u8>> {
    seq![user_profile_tag(), identity]
}

/// The seeds of a proposal name one proposal: equal seeds come from the same
/// creator and the same sequence number.
pub proof fn proposal_seeds_name_one_proposal(
    creator: Seq<u8>,
    sequence: u64,
    other_creator: Seq<u8>,
    other_sequence: u64,
)
    requires
        proposal_seeds(creator, sequence) == proposal_seeds(other_creator, other_sequence),
    ensures
        creator == other_creator,
        sequence == other_sequence,
{
    vstd::bytes::lemma_auto_spec_u64_to_from_le_bytes();
    let one = proposal_seeds(creator, sequence);
    let two = proposal_seeds(other_creator, other_sequence);
    assert(one[1] == two[1]);
    assert(one[2] == two[2]);
    assert(vstd::bytes::spec_u64_from_le_bytes(vstd::bytes::spec_u64_to_le_bytes(sequence))
        == sequence);
    assert(vstd::bytes::spec_u64_from_le_bytes(vstd::bytes::spec_u64_to_le_bytes(other_sequence))
        == other_sequence);
}

/// The seeds of a ballot name one ballot: equal seeds come from the same
/// voter and the same proposal.
pub proof fn vote_seeds_name_one_ballot(
    voter: Seq<u8>,
    proposal: Seq<u8>,
    other_voter: Seq<u8>,
    other_proposal: Seq<u8>,
)
    requires
        vote_seeds(voter, proposal) == vote_seeds(other_voter, other_proposal),
    ensures
        voter == other_voter,
        proposal == other_proposal,
{
    let one = vote_seeds(voter, proposal);
    let two = vote_seeds(other_voter, other_proposal);
    assert(one[1] == two[1]);
    assert(one[2] == two[2]);
}

/// The seeds of a profile name one profile: equal seeds come from the same
/// identity.
pub proof fn user_profile_seeds_name_one_profile(identity: Seq<u8>, other_identity: Seq<u8>)
    requires
        user_profile_seeds(identity) == user_profile_seeds(other_identity),
    ensures
        identity == other_identity,
{
    let one = user_profile_seeds(identity);
    let two = user_profile_seeds(other_identity);
    assert(one[1] == two[1]);
}

/// Records of different kinds never share their seeds.
pub proof fn seeds_of_different_kinds_differ(
    creator: Seq<u8>,
    sequence: u64,
    voter: Seq<u8>,
    proposal: Seq<u8>,
    identity: Seq<u8>,
)
    ensures
        global_state_seeds() != proposal_seeds(creator, sequence),
        global_state_seeds() != vote_seeds(voter, proposal),
        global_state_seeds() != user_profile_seeds(identity),
        proposal_seeds(creator, sequence) != vote_seeds(voter, proposal),
        proposal_seeds(creator, sequence) != user_profile_seeds(identity),
        vote_seeds(voter, proposal) != user_profile_seeds(identity),
{
    assert(global_state_seeds().len() == 1);
    assert(proposal_seeds(creator, sequence).len() == 3);
    assert(vote_seeds(voter, proposal).len() == 3);
    assert(user_profile_seeds(identity).len() == 2);
    assert(proposal_seeds(creator, sequence)[0].len() == 8);
    assert(vote_seeds(voter, proposal)[0].len() == 4);
}

/// Address of the global registry of a program.
pub fn global_state_address(program_id: &Address) -> (r: Option<Derived>)
    ensures
        derived_view(r) == program_address(global_state_seeds(), program_id@),
{
    let tag: Vec<u8> = vec![103u8, 108u8, 111u8, 98u8, 97u8, 108u8, 95u8, 115u8, 116u8, 97u8, 116u8, 101u8];
    let mut seeds: Vec<Vec<u8>> = Vec::new();
    seeds.push(tag);
    proof {
        assert(seeds@[0]@ =~= global_state_tag());
        assert(seeds_view(&seeds) =~= global_state_seeds());
    }
    find_program_address(&seeds, program_id)
}

/// Address of the proposal that `creator` makes when the registry counts
/// `sequence` proposals.
pub fn proposal_address(program_id: &Address, creator: &Address, sequence: u64) -> (r: Option<
    Derived,
>)
    ensures
        derived_view(r) == program_address(proposal_seeds(creator@, sequence), program_id@),
{
    let tag: Vec<u8> = vec![112u8, 114u8, 111u8, 112u8, 111u8, 115u8, 97u8, 108u8];
    let mut seeds: Vec<Vec<u8>> = Vec::new();
    seeds.push(tag);
    seeds.push(creator.to_vec());
    seeds.push(vstd::bytes::u64_to_le_bytes(sequence));
    proof {
        assert(seeds@[0]@ =~= proposal_tag());
        assert(seeds_view(&seeds) =~= proposal_seeds(creator@, sequence));
    }
    find_program_address(&seeds, program_id)
}

/// Address of the ballot of `voter` on the proposal at `proposal`.
pub fn vote_address(program_id: &Address, voter: &Address, proposal: &Address) -> (r: Option<
    Derived,
>)
    ensures
        derived_view(r) == program_address(vote_seeds(voter@, proposal@), program_id@),
{
    let tag: Vec<u8> = vec![118u8, 111u8, 116u8, 101u8];
    let mut seeds: Vec<Vec<u8>> = Vec::new();
    seeds.push(tag);
    seeds.push(voter.to_vec());
    seeds.push(proposal.to_vec());
    proof {
        assert(seeds@[0]@ =~= vote_tag());
        assert(seeds_view(&seeds) =~= vote_seeds(voter@, proposal@));
    }
    find_program_address(&seeds, program_id)
}

/// Address of the profile of `identity`.
pub fn user_profile_address(program_id: &Address, identity: &Address) -> (r: Option<Derived>)
    ensures
        derived_view(r) == program_address(user_profile_seeds(identity@), program_id@),
{
    let tag: Vec<u8> = vec![117u8, 115u8, 101u8, 114u8, 95u8, 112u8, 114u8, 111u8, 102u8, 105u8, 108u8, 101u8];
    let mut seeds: Vec<Vec<u8>> = Vec::new();
    seeds.push(tag);
    seeds.push(identity.to_vec());
    proof {
        assert(seeds@[0]@ =~= user_profile_tag());
        assert(seeds_view(&seeds) =~= user_profile_seeds(identity@));
    }
    find_program_address(&seeds, program_id)
}

} // verus!
