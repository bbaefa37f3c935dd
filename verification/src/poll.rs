//! The ballot store and poll registry: one vote per identity against a
//! lazily growing tally vector, plus the static list of option labels.

use crate::tally::bumped_at;
use crate::tally::lemma_elem_le_sum;
use crate::tally::lemma_sum_padded;
use crate::tally::lemma_sum_take_le;
use crate::tally::lemma_sum_take_succ;
use crate::tally::lemma_sum_update;
use crate::tally::padded_to;
use crate::tally::sum_of;
use vstd::prelude::*;

verus! {

/// An opaque, globally unique credential representing a voter. The host
/// environment resolves whatever external identifier it uses (for example a
/// public-key-derived address) to one of these before calling the core.
#[derive(Clone, Copy, Debug, Hash, PartialEq, Eq, Structural)]
pub struct Identity(pub u64);

/// Why a vote was not counted.
#[derive(Clone, Copy, Debug, PartialEq, Eq, Structural)]
pub enum VoteError {
    /// The identity is already in the voted record (strict policy only).
    DuplicateVote,
    /// The identity verifier rejected the caller.
    Unauthorized,
}

/// Whether a second vote from the same identity is rejected or counted again.
#[derive(Clone, Copy, Debug, PartialEq, Eq, Structural)]
pub enum DuplicatePolicy {
    /// A duplicate vote fails with [`VoteError::DuplicateVote`].
    Strict,
    /// Duplicates are not checked; every authorized vote is counted.
    Permissive,
}

/// The fact emitted after a counted vote, for best-effort publication by the
/// host: which option was voted on and its new count.
#[derive(Clone, Copy, Debug, PartialEq, Eq, Structural)]
pub struct VoteEvent {
    pub option_index: u32,
    pub new_count: u64,
}

/// The poll state: the tally vector and voted record of the ballot store,
/// and the option catalog of the poll registry. The host hands the store to
/// the core at every call; the core itself keeps no hidden state.
pub struct PollContract {
    /// Per-option vote counters, indexed by option; grows lazily.
    pub tallies: Vec<u64>,
    /// The identities whose votes have been counted, in vote order.
    pub voters: Vec<Identity>,
    /// Human-readable option labels, set at poll definition time.
    pub options: Vec<String>,
    /// The duplicate-vote policy this store was created with.
    pub policy: DuplicatePolicy,
}

impl PollContract {
    /// The internal invariant: every counted vote is backed by exactly one
    /// entry of the voted record, and under the strict policy that record
    /// never repeats an identity.
    pub open spec fn wf(&self) -> bool {
        &&& sum_of(self.tallies@) == self.voters@.len()
        &&& (self.policy is Strict ==> self.voters@.no_duplicates())
    }

    /// A fresh poll: no options, no votes.
    pub fn new(policy: DuplicatePolicy) -> (p: Self)
        ensures
            p.wf(),
            p.tallies@ == Seq::<u64>::empty(),
            p.voters@ == Seq::<Identity>::empty(),
            p.options@ == Seq::<String>::empty(),
            p.policy == policy,
    {
        PollContract { tallies: Vec::new(), voters: Vec::new(), options: Vec::new(), policy }
    }

    /// Whether `voter` is in the voted record.
    fn has_voted(&self, voter: Identity) -> (b: bool)
        ensures
            b == self.voters@.contains(voter),
    {
        let mut i: usize = 0;
        while i < self.voters.len()
            invariant
                i <= self.voters@.len(),
                forall|k: int| 0 <= k < i ==> self.voters@[k] != voter,
            decreases self.voters@.len() - i,
        {
            if self.voters[i] == voter {
                return true;
            }
            i = i + 1;
        }
        false
    }

    /// Counts a vote from `voter` on `option_index`, rejecting a duplicate
    /// identity when `strict` holds. On success the returned number is the
    /// new count at `option_index`.
    fn record_vote(&mut self, voter: Identity, option_index: u32, strict: bool) -> (r: Result<
        u64,
        VoteError,
    >)
        requires
            old(self).wf(),
            old(self).policy is Strict ==> strict,
        ensures
            final(self).wf(),
            final(self).policy == old(self).policy,
            final(self).options@ == old(self).options@,
            (strict && old(self).voters@.contains(voter)) ==> r == Err::<u64, VoteError>(
                VoteError::DuplicateVote,
            ) && *final(self) == *old(self),
            !(strict && old(self).voters@.contains(voter)) ==> {
                &&& final(self).tallies@ == bumped_at(old(self).tallies@, option_index as int)
                &&& final(self).voters@ == old(self).voters@.push(voter)
                &&& r == Ok::<u64, VoteError>(final(self).tallies@[option_index as int])
            },
    {
        if strict && self.has_voted(voter) {
            return Err(VoteError::DuplicateVote);
        }
        let ghost t0 = self.tallies@;
        self.voters.push(voter);
        proof {
            vstd::std_specs::vec::axiom_spec_len(&self.voters);
        }
        let idx: usize = option_index as usize;
        while self.tallies.len() <= idx
            invariant
                t0.len() <= self.tallies@.len(),
                self.tallies@ == padded_to(t0, self.tallies@.len() as int),
                self.tallies@.len() <= if t0.len() >= idx + 1 {
                    t0.len() as int
                } else {
                    idx + 1
                },
                self.voters@ == old(self).voters@.push(voter),
                self.options@ == old(self).options@,
                self.policy == old(self).policy,
                idx == option_index as usize,
            decreases idx + 1 - self.tallies@.len(),
        {
            self.tallies.push(0);
            proof {
                assert(self.tallies@ =~= padded_to(t0, self.tallies@.len() as int));
            }
        }
        proof {
            assert(self.tallies@ =~= padded_to(t0, idx as int + 1));
        }
        let c: u64 = self.tallies[idx];
        proof {
            lemma_sum_padded(t0, idx as int + 1);
            lemma_elem_le_sum(self.tallies@, idx as int);
            vstd::std_specs::vec::axiom_spec_len(&self.voters);
        }
        self.tallies[idx] = c + 1;
        proof {
            lemma_sum_update(padded_to(t0, idx as int + 1), idx as int, (c + 1) as u64);
        }
        Ok(c + 1)
    }

    /// Stores the option catalog and returns the poll identifier. The store
    /// supports a single active poll, so the identifier is the constant `1`;
    /// a second call simply overwrites the catalog and leaves every recorded
    /// vote in place.
    pub fn init(&mut self, options: Vec<String>) -> (poll_id: u32)
        ensures
            poll_id == 1u32,
            final(self).options@ == options@,
            final(self).tallies@ == old(self).tallies@,
            final(self).voters@ == old(self).voters@,
            final(self).policy == old(self).policy,
            old(self).wf() ==> final(self).wf(),
    {
        self.options = options;
        1
    }

    /// Casts a vote from `voter` on `option_index`. `authorized` is the
    /// identity verifier's verdict for the caller, which the host obtains
    /// before handing the call to the core.
    ///
    /// An unauthorized call fails with [`VoteError::Unauthorized`] and a
    /// duplicate identity under the strict policy fails with
    /// [`VoteError::DuplicateVote`]; either way the store is unchanged. Every
    /// other call is counted: the tally vector is zero-padded so that
    /// `option_index` exists, the counter there goes up by one, and `voter`
    /// joins the voted record.
    pub fn cast_vote(&mut self, voter: Identity, option_index: u32, authorized: bool) -> (r:
        Result<bool, VoteError>)
        requires
            old(self).wf(),
        ensures
            final(self).wf(),
            final(self).policy == old(self).policy,
            final(self).options@ == old(self).options@,
            !authorized ==> r == Err::<bool, VoteError>(VoteError::Unauthorized) && *final(self)
                == *old(self),
            (authorized && old(self).policy is Strict && old(self).voters@.contains(voter))
                ==> r == Err::<bool, VoteError>(VoteError::DuplicateVote) && *final(self) == *old(self),
            (authorized && !(old(self).policy is Strict && old(self).voters@.contains(voter)))
                ==> {
                &&& r == Ok::<bool, VoteError>(true)
                &&& final(self).tallies@ == bumped_at(old(self).tallies@, option_index as int)
                &&& final(self).voters@ == old(self).voters@.push(voter)
            },
    {
        if !authorized {
            return Err(VoteError::Unauthorized);
        }
        let strict = match self.policy {
            DuplicatePolicy::Strict => true,
            DuplicatePolicy::Permissive => false,
        };
        match self.record_vote(voter, option_index, strict) {
            Ok(_) => Ok(true),
            Err(e) => Err(e),
        }
    }

    /// Casts a vote and returns the fact to publish. Unlike [`Self::cast_vote`]
    /// this entry point rejects a duplicate identity whatever the store's
    /// policy, and on success hands back the option index with its new count.
    pub fn vote(&mut self, option: u32, voter: Identity, authorized: bool) -> (r: Result<
        VoteEvent,
        VoteError,
    >)
        requires
            old(self).wf(),
        ensures
            final(self).wf(),
            final(self).policy == old(self).policy,
            final(self).options@ == old(self).options@,
            !authorized ==> r == Err::<VoteEvent, VoteError>(VoteError::Unauthorized) && *final(self) == *old(self),
            (authorized && old(self).voters@.contains(voter)) ==> r == Err::<
                VoteEvent,
                VoteError,
            >(VoteError::DuplicateVote) && *final(self) == *old(self),
            (authorized && !old(self).voters@.contains(voter)) ==> {
                &&& final(self).tallies@ == bumped_at(old(self).tallies@, option as int)
                &&& final(self).voters@ == old(self).voters@.push(voter)
                &&& r matches Ok(ev) && ev.option_index == option && ev.new_count == final(self).tallies@[option as int]
            },
    {
        if !authorized {
            return Err(VoteError::Unauthorized);
        }
        match self.record_vote(voter, option, true) {
            Ok(new_count) => Ok(VoteEvent { option_index: option, new_count }),
            Err(e) => Err(e),
        }
    }

    /// The current tally vector; empty while the poll has received no vote.
    pub fn get_votes(&self) -> (r: Vec<u64>)
        ensures
            r@ == self.tallies@,
    {
        let mut r: Vec<u64> = Vec::new();
        let mut i: usize = 0;
        while i < self.tallies.len()
            invariant
                i <= self.tallies@.len(),
                r@ == self.tallies@.take(i as int),
            decreases self.tallies@.len() - i,
        {
            r.push(self.tallies[i]);
            proof {
                assert(r@ =~= self.tallies@.take(i as int + 1));
            }
            i = i + 1;
        }
        proof {
            assert(self.tallies@.take(self.tallies@.len() as int) =~= self.tallies@);
        }
        r
    }

    /// The current tally vector, under the name the results reader uses.
    pub fn get_results(&self) -> (r: Vec<u64>)
        ensures
            r@ == self.tallies@,
    {
        self.get_votes()
    }

    /// The total number of counted votes: the sum of the tally vector, which
    /// equals the length of the voted record.
    pub fn get_total_votes(&self) -> (total: u64)
        requires
            self.wf(),
        ensures
            total == sum_of(self.tallies@),
            total == self.voters@.len(),
    {
        proof {
            vstd::std_specs::vec::axiom_spec_len(&self.voters);
        }
        let mut total: u64 = 0;
        let mut i: usize = 0;
        while i < self.tallies.len()
            invariant
                self.wf(),
                i <= self.tallies@.len(),
                total == sum_of(self.tallies@.take(i as int)),
                self.voters@.len() <= usize::MAX,
            decreases self.tallies@.len() - i,
        {
            proof {
                lemma_sum_take_succ(self.tallies@, i as int);
                lemma_sum_take_le(self.tallies@, i as int + 1);
            }
            total = total + self.tallies[i];
            i = i + 1;
        }
        proof {
            assert(self.tallies@.take(self.tallies@.len() as int) =~= self.tallies@);
        }
        total
    }

    /// The option catalog, in definition order; empty while no poll has been
    /// defined.
    pub fn list_options(&self) -> (labels: &Vec<String>)
        ensures
            labels@ == self.options@,
    {
        &self.options
    }
}

/// No double count: under the strict policy the voted record never repeats
/// an identity, so for any identity at most one vote is ever counted. (That
/// a repeated vote fails with [`VoteError::DuplicateVote`] and changes
/// nothing is part of [`PollContract::cast_vote`]'s own contract.)
pub proof fn lemma_no_double_count(p: PollContract)
    requires
        p.wf(),
        p.policy is Strict,
    ensures
        p.voters@.no_duplicates(),
{
}

/// Sum consistency: the total of the tally vector always equals the length
/// of the voted record, and under the strict policy that length is the
/// number of distinct identities whose vote was counted.
pub proof fn lemma_sum_consistency(p: PollContract)
    requires
        p.wf(),
    ensures
        sum_of(p.tallies@) == p.voters@.len(),
        p.policy is Strict ==> p.voters@.to_set().len() == p.voters@.len(),
{
    if p.policy is Strict {
        p.voters@.unique_seq_to_set();
    }
}

/// Reads are idempotent: two reads of the tallies or of the option catalog
/// with no write in between return the same value, because the contracts of
/// [`PollContract::get_votes`], [`PollContract::get_results`] and
/// [`PollContract::list_options`] pin each result to the store's state alone.
pub proof fn lemma_reads_idempotent(
    p: PollContract,
    t1: Seq<u64>,
    t2: Seq<u64>,
    o1: Seq<String>,
    o2: Seq<String>,
)
    requires
        t1 == p.tallies@,
        t2 == p.tallies@,
        o1 == p.options@,
        o2 == p.options@,
    ensures
        t1 == t2,
        o1 == o2,
{
}

} // verus!
