//! The persisted records and what makes each of them valid.

use crate::address::Address;
use vstd::prelude::*;

verus! {

/// Longest title of a proposal, in bytes.
pub const MAX_TITLE_LEN: usize = 100;

/// Longest description of a proposal, in bytes.
pub const MAX_DESCRIPTION_LEN: usize = 1000;

/// Fewest options of a proposal.
pub const MIN_OPTIONS: usize = 2;

/// Most options of a proposal.
pub const MAX_OPTIONS: usize = 10;

/// Longest username of a profile, in bytes.
pub const MAX_USERNAME_LEN: usize = 50;

/// How far in the past the start of a new proposal may lie, in seconds.
pub const START_GRACE_SECONDS: i64 = 60;

/// Shortest voting period that the registry declares, in seconds.
pub const MINIMUM_VOTING_PERIOD: i64 = 3600;

/// Longest voting period that the registry declares, in seconds.
pub const MAXIMUM_VOTING_PERIOD: i64 = 604800;

/// Length in bytes of a text as it is stored.
pub open spec fn stored_len(text: Seq<char>) -> nat {
    vstd::utf8::encode_utf8(text).len()
}

/// Sum of a sequence of tallies.
pub open spec fn tally_sum(counts: Seq<u64>) -> int
    decreases counts.len(),
{
    if counts.len() == 0 {
        0
    } else {
        tally_sum(counts.drop_last()) + counts.last()
    }
}

/// The texts of a list of options.
pub open spec fn options_view(options: &Vec<String>) -> Seq<Seq<char>> {
    Seq::new(options@.len(), |i: int| options@[i]@)
}

/// The singleton registry: counters and the emergency gate.
#[derive(Clone, Copy, Debug, PartialEq, Eq)]
pub struct GlobalState {
    pub authority: Address,
    pub total_proposals: u64,
    pub total_votes: u64,
    pub total_users: u64,
    pub minimum_voting_period: i64,
    pub maximum_voting_period: i64,
    pub is_emergency_stopped: bool,
    pub emergency_stop_time: Option<i64>,
    pub bump: u8,
}

/// A proposal with its tallies.
#[derive(Clone, Debug, PartialEq, Eq)]
pub struct Proposal {
    pub authority: Address,
    pub title: String,
    pub description: String,
    pub options: Vec<String>,
    pub start_time: i64,
    pub end_time: i64,
    pub total_votes: u64,
    pub is_active: bool,
    pub created_at: i64,
    pub finalized_at: Option<i64>,
    pub bump: u8,
    pub vote_counts: Vec<u64>,
}

/// A proposal as plain values.
#[verifier::ext_equal]
pub ghost struct ProposalView {
    pub authority: Seq<u8>,
    pub title: Seq<char>,
    pub description: Seq<char>,
    pub options: Seq<Seq<char>>,
    pub start_time: i64,
    pub end_time: i64,
    pub total_votes: u64,
    pub is_active: bool,
    pub created_at: i64,
    pub finalized_at: Option<i64>,
    pub bump: u8,
    pub vote_counts: Seq<u64>,
}

impl View for Proposal {
    type V = ProposalView;

    open spec fn view(&self) -> ProposalView {
        ProposalView {
            authority: self.authority@,
            title: self.title@,
            description: self.description@,
            options: options_view(&self.options),
            start_time: self.start_time,
            end_time: self.end_time,
            total_votes: self.total_votes,
            is_active: self.is_active,
            created_at: self.created_at,
            finalized_at: self.finalized_at,
            bump: self.bump,
            vote_counts: self.vote_counts@,
        }
    }
}

impl ProposalView {
    /// A valid proposal: texts and options within their limits, one tally per
    /// option, the tallies adding up to the total, a voting window that is
    /// not empty, and a time of finalization exactly when it is finalized.
    pub open spec fn wf(&self) -> bool {
        &&& stored_len(self.title) <= MAX_TITLE_LEN
        &&& stored_len(self.description) <= MAX_DESCRIPTION_LEN
        &&& MIN_OPTIONS <= self.options.len() <= MAX_OPTIONS
        &&& self.vote_counts.len() == self.options.len()
        &&& self.start_time < self.end_time
        &&& self.total_votes == tally_sum(self.vote_counts)
        &&& self.is_active <==> self.finalized_at is None
    }
}

/// One voter's ballot on one proposal.
#[derive(Clone, Copy, Debug, PartialEq, Eq)]
pub struct Vote {
    pub voter: Address,
    pub proposal: Address,
    pub option_index: u8,
    pub vote_weight: u64,
    pub timestamp: i64,
    pub bump: u8,
    pub has_voted: bool,
}

/// The profile of one identity.
#[derive(Clone, Debug, PartialEq, Eq)]
pub struct UserProfile {
    pub authority: Address,
    pub username: String,
    pub proposals_created: u64,
    pub votes_cast: u64,
    pub reputation: u64,
    pub created_at: i64,
    pub bump: u8,
}

/// A profile as plain values.
#[verifier::ext_equal]
pub ghost struct UserProfileView {
    pub authority: Seq<u8>,
    pub username: Seq<char>,
    pub proposals_created: u64,
    pub votes_cast: u64,
    pub reputation: u64,
    pub created_at: i64,
    pub bump: u8,
}

impl View for UserProfile {
    type V = UserProfileView;

    open spec fn view(&self) -> UserProfileView {
        UserProfileView {
            authority: self.authority@,
            username: self.username@,
            proposals_created: self.proposals_created,
            votes_cast: self.votes_cast,
            reputation: self.reputation,
            created_at: self.created_at,
            bump: self.bump,
        }
    }
}

impl UserProfileView {
    /// A valid profile: a username within its limit.
    pub open spec fn wf(&self) -> bool {
        stored_len(self.username) <= MAX_USERNAME_LEN
    }
}

/// Raising one tally raises the sum by as much.
pub proof fn lemma_tally_update(counts: Seq<u64>, i: int, raised: u64)
    requires
        0 <= i < counts.len(),
    ensures
        tally_sum(counts.update(i, raised)) == tally_sum(counts) - counts[i] + raised,
    decreases counts.len(),
{
    let after = counts.update(i, raised);
    if i == counts.len() - 1 {
        assert(after.drop_last() =~= counts.drop_last());
    } else {
        lemma_tally_update(counts.drop_last(), i, raised);
        assert(after.drop_last() =~= counts.drop_last().update(i, raised));
    }
}

/// Tallies that are all zero add up to zero.
pub proof fn lemma_tally_zero(counts: Seq<u64>)
    requires
        forall|i: int| 0 <= i < counts.len() ==> counts[i] == 0,
    ensures
        tally_sum(counts) == 0,
    decreases counts.len(),
{
    if counts.len() > 0 {
        lemma_tally_zero(counts.drop_last());
    }
}

impl Proposal {
    /// Whether the record is a valid proposal.
    pub fn is_valid(&self) -> (r: bool)
        ensures
            r == self@.wf(),
    {
        if self.title.as_str().as_bytes().len() > MAX_TITLE_LEN
            || self.description.as_str().as_bytes().len() > MAX_DESCRIPTION_LEN
            || self.options.len() < MIN_OPTIONS
            || self.options.len() > MAX_OPTIONS
            || self.vote_counts.len() != self.options.len()
            || self.start_time >= self.end_time
            || self.is_active != self.finalized_at.is_none()
        {
            return false;
        }
        let mut sum: u64 = 0;
        let mut i: usize = 0;
        while i < self.vote_counts.len()
            invariant
                i <= self.vote_counts@.len(),
                sum == tally_sum(self.vote_counts@.take(i as int)),
            decreases self.vote_counts@.len() - i,
        {
            proof {
                assert(self.vote_counts@.take(i + 1).drop_last() =~= self.vote_counts@.take(
                    i as int,
                ));
            }
            match sum.checked_add(self.vote_counts[i]) {
                Some(next) => {
                    sum = next;
                },
                None => {
                    proof {
                        let whole = self.vote_counts@;
                        lemma_tally_prefix(whole, i + 1);
                    }
                    return false;
                },
            }
            i += 1;
        }
        proof {
            assert(self.vote_counts@.take(i as int) =~= self.vote_counts@);
        }
        sum == self.total_votes
    }
}

/// The sum of a prefix of tallies never exceeds the sum of all of them.
pub proof fn lemma_tally_prefix(counts: Seq<u64>, n: int)
    requires
        0 <= n <= counts.len(),
    ensures
        tally_sum(counts.take(n)) <= tally_sum(counts),
    decreases counts.len(),
{
    if n == counts.len() {
        assert(counts.take(n) =~= counts);
    } else {
        lemma_tally_prefix(counts.drop_last(), n);
        assert(counts.drop_last().take(n) =~= counts.take(n));
    }
}

} // verus!
