//! The rounds of the ceremony, checked one after the other.
//!
//! Round `i` takes the state of challenge `i` to the state of challenge `i + 1`, and its
//! response holds the digest of challenge `i` and a proof of the step. The proof is checked by
//! the caller, against a state that it holds; this module decides which state that is, keeps
//! the report, and holds the digests against each other. A round that fails is written down
//! and the scan goes on.

use vstd::prelude::*;
use vstd::slice::slice_subrange;

verus! {

/// The state against which a round is checked.
#[derive(Clone, Copy, Debug, PartialEq, Eq, Structural)]
pub enum Baseline {
    /// The state read from the challenge of this round, taken as it is.
    Claimed {
        /// The round whose challenge holds the state
        round: usize,
    },
    /// The state that the check of this round gave back.
    Verified {
        /// The round whose check gave the state
        round: usize,
    },
}

/// What the scan found of one round. `E` is the error of the check of the proof.
#[derive(Debug, PartialEq, Eq)]
pub enum RoundStatus<E> {
    /// The digests agree and the proof holds.
    Verified,
    /// The digest of the challenge is not the one recorded for it, or not the one that the
    /// response holds.
    HashMismatch,
    /// The digests agree and the proof was refused for this reason.
    VerificationFailure(E),
}

/// What the caller gathered for one round.
#[derive(Debug, PartialEq, Eq)]
pub struct RoundEvidence<E> {
    /// The digest recorded beside the challenge of the round
    pub recorded: [u8; 64],
    /// The digest of the challenge as it is on disk
    pub actual: [u8; 64],
    /// The digest at the head of the response of the round
    pub embedded: [u8; 64],
    /// What the check of the proof gave, against the baseline of the round
    pub verification: Result<(), E>,
}

/// The scan as far as it has come.
pub struct ChainView<E> {
    /// The number of rounds to check
    pub rounds: nat,
    /// What was found of the rounds checked so far, in order
    pub statuses: Seq<RoundStatus<E>>,
    /// The state against which the next round is checked
    pub baseline: Baseline,
}

/// Whether the three digests of a round are one and the same.
pub open spec fn hashes_agree(recorded: Seq<u8>, actual: Seq<u8>, embedded: Seq<u8>) -> bool {
    recorded == actual && embedded == actual
}

/// What is written down for a round: a mismatch of the digests before anything else, then
/// what the check of the proof gave.
pub open spec fn status_of<E>(evidence: RoundEvidence<E>) -> RoundStatus<E> {
    if !hashes_agree(evidence.recorded@, evidence.actual@, evidence.embedded@) {
        RoundStatus::HashMismatch
    } else {
        match evidence.verification {
            Ok(_) => RoundStatus::Verified,
            Err(e) => RoundStatus::VerificationFailure(e),
        }
    }
}

/// The state against which the round after `round` is checked: what the check of `round` gave
/// back where the proof held, and else the state that the next challenge claims.
pub open spec fn baseline_after<E>(round: nat, evidence: RoundEvidence<E>) -> Baseline {
    match evidence.verification {
        Ok(_) => Baseline::Verified { round: round as usize },
        Err(_) => Baseline::Claimed { round: (round + 1) as usize },
    }
}

/// The scan of `rounds` rounds before any round was checked.
pub open spec fn chain_start<E>(rounds: nat) -> ChainView<E> {
    ChainView { rounds, statuses: Seq::empty(), baseline: Baseline::Claimed { round: 1 } }
}

/// The scan after one more round: nothing changes once every round was checked.
pub open spec fn chain_step<E>(chain: ChainView<E>, evidence: RoundEvidence<E>) -> ChainView<E> {
    if chain.statuses.len() >= chain.rounds {
        chain
    } else {
        ChainView {
            rounds: chain.rounds,
            statuses: chain.statuses.push(status_of(evidence)),
            baseline: baseline_after(chain.statuses.len() + 1, evidence),
        }
    }
}

/// The scan of `rounds` rounds after the evidence of the first rounds was taken in, in order.
pub open spec fn chain_run<E>(rounds: nat, evidence: Seq<RoundEvidence<E>>) -> ChainView<E>
    decreases evidence.len(),
{
    if evidence.len() == 0 {
        chain_start(rounds)
    } else {
        chain_step(chain_run(rounds, evidence.drop_last()), evidence.last())
    }
}

/// A scan writes down every round for which it was given evidence, each by its own evidence
/// alone, and a round is checked against what the round before it left: the state that its
/// check gave back, or, where its proof was refused, the state that the next challenge claims.
pub proof fn lemma_chain_run<E>(rounds: nat, evidence: Seq<RoundEvidence<E>>)
    requires
        evidence.len() <= rounds,
    ensures
        chain_run(rounds, evidence).rounds == rounds,
        chain_run(rounds, evidence).statuses.len() == evidence.len(),
        forall|i: int|
            0 <= i < evidence.len() ==> chain_run(rounds, evidence).statuses[i] == status_of(
                #[trigger] evidence[i],
            ),
        evidence.len() == 0 ==> chain_run(rounds, evidence).baseline == (Baseline::Claimed {
            round: 1,
        }),
        evidence.len() > 0 ==> chain_run(rounds, evidence).baseline == baseline_after(
            evidence.len(),
            evidence.last(),
        ),
    decreases evidence.len(),
{
    if evidence.len() > 0 {
        let init = evidence.drop_last();
        lemma_chain_run(rounds, init);
        assert forall|i: int| 0 <= i < evidence.len() implies chain_run(
            rounds,
            evidence,
        ).statuses[i] == status_of(#[trigger] evidence[i]) by {
            if i < init.len() {
                assert(init[i] == evidence[i]);
            }
        }
    }
}

/// Where the proof of round `failed` is refused, the scan goes on: every later round is
/// written down by its own evidence, and the round after the failed one is checked against
/// the state that its own challenge claims.
///
/// Rounds are counted from 1, so that the evidence of round `i` is `evidence[i - 1]`.
pub proof fn lemma_chain_continues<E>(rounds: nat, evidence: Seq<RoundEvidence<E>>, failed: int)
    requires
        evidence.len() == rounds,
        1 <= failed <= rounds,
        evidence[failed - 1].verification is Err,
    ensures
        chain_run(rounds, evidence).statuses.len() == rounds,
        forall|i: int|
            failed < i <= rounds ==> chain_run(rounds, evidence).statuses[i - 1] == status_of(
                #[trigger] evidence[i - 1],
            ),
        chain_run(rounds, evidence.take(failed)).baseline == (Baseline::Claimed {
            round: (failed + 1) as usize,
        }),
{
    lemma_chain_run(rounds, evidence);
    lemma_chain_run(rounds, evidence.take(failed));
    assert(evidence.take(failed).last() == evidence[failed - 1]);
}

/// Whether two digests are the same.
pub fn digests_agree(left: &[u8; 64], right: &[u8; 64]) -> (same: bool)
    ensures
        same == (left@ == right@),
{
    let mut i: usize = 0;
    while i < 64
        invariant
            i <= 64,
            forall|j: int| 0 <= j < i ==> left@[j] == right@[j],
        decreases 64 - i,
    {
        if left[i] != right[i] {
            return false;
        }
        i += 1;
    }
    assert(left@ =~= right@);
    true
}

/// The digest at the head of a response: its first 64 bytes, or `None` where it has fewer.
pub fn embedded_challenge_hash(response: &[u8]) -> (hash: Option<[u8; 64]>)
    ensures
        response@.len() < 64 ==> hash is None,
        response@.len() >= 64 ==> hash is Some && hash->Some_0@ == response@.subrange(0, 64),
{
    if response.len() < 64 {
        return None;
    }
    let mut hash = [0u8; 64];
    let mut i: usize = 0;
    while i < 64
        invariant
            i <= 64,
            response@.len() >= 64,
            forall|j: int| 0 <= j < i ==> hash@[j] == response@[j],
        decreases 64 - i,
    {
        hash[i] = response[i];
        i += 1;
    }
    assert(hash@ =~= response@.subrange(0, 64));
    Some(hash)
}

/// The part of a response after the digest at its head, where the proof stands, or `None`
/// where the response has fewer than 64 bytes.
pub fn proof_bytes(response: &[u8]) -> (proof_part: Option<&[u8]>)
    ensures
        response@.len() < 64 ==> proof_part is None,
        response@.len() >= 64 ==> proof_part is Some && proof_part->Some_0@ == response@.subrange(
            64,
            response@.len() as int,
        ),
{
    if response.len() < 64 {
        None
    } else {
        Some(slice_subrange(response, 64, response.len()))
    }
}

impl<E> RoundEvidence<E> {
    /// Whether the three digests of the round are one and the same.
    pub fn hashes_agree(&self) -> (agree: bool)
        ensures
            agree == hashes_agree(self.recorded@, self.actual@, self.embedded@),
    {
        digests_agree(&self.recorded, &self.actual) && digests_agree(&self.embedded, &self.actual)
    }

    /// What is written down for the round.
    pub fn status(self) -> (status: RoundStatus<E>)
        ensures
            status == status_of(self),
    {
        if !self.hashes_agree() {
            RoundStatus::HashMismatch
        } else {
            match self.verification {
                Ok(_) => RoundStatus::Verified,
                Err(e) => RoundStatus::VerificationFailure(e),
            }
        }
    }
}

impl<E> RoundStatus<E> {
    /// Whether the round was found in order.
    pub fn is_verified(&self) -> (verified: bool)
        ensures
            verified == (*self is Verified),
    {
        match self {
            RoundStatus::Verified => true,
            _ => false,
        }
    }

    /// Whether the digests of the round disagree.
    pub fn is_hash_mismatch(&self) -> (mismatch: bool)
        ensures
            mismatch == (*self is HashMismatch),
    {
        match self {
            RoundStatus::HashMismatch => true,
            _ => false,
        }
    }
}

/// The scan of the rounds of a ceremony, from round 1 on.
pub struct Chain<E> {
    rounds: usize,
    statuses: Vec<RoundStatus<E>>,
    baseline: Baseline,
}

impl<E> View for Chain<E> {
    type V = ChainView<E>;

    closed spec fn view(&self) -> ChainView<E> {
        ChainView { rounds: self.rounds as nat, statuses: self.statuses@, baseline: self.baseline }
    }
}

impl<E> Chain<E> {
    #[verifier::type_invariant]
    spec fn bounded(self) -> bool {
        self.statuses@.len() <= self.rounds < usize::MAX
    }

    /// The scan of `rounds` rounds, none of them checked yet. The first round is checked
    /// against the state that the challenge of round 1 holds. The challenges are one more than
    /// the rounds, and their number has to fit the machine.
    pub fn new(rounds: usize) -> (chain: Chain<E>)
        requires
            rounds < usize::MAX,
        ensures
            chain@ == chain_start::<E>(rounds as nat),
    {
        Chain { rounds, statuses: Vec::new(), baseline: Baseline::Claimed { round: 1 } }
    }

    /// The round to check next, counted from 1, or `None` where every round was checked.
    pub fn next_round(&self) -> (round: Option<usize>)
        ensures
            self@.statuses.len() <= self@.rounds,
            round == if self@.statuses.len() < self@.rounds {
                Some((self@.statuses.len() + 1) as usize)
            } else {
                None
            },
    {
        proof {
            use_type_invariant(self);
        }
        if self.statuses.len() < self.rounds {
            Some(self.statuses.len() + 1)
        } else {
            None
        }
    }

    /// The state against which the next round is checked.
    pub fn baseline(&self) -> (baseline: Baseline)
        ensures
            baseline == self@.baseline,
    {
        self.baseline
    }

    /// What was found of the rounds checked so far, in order.
    pub fn statuses(&self) -> (statuses: &Vec<RoundStatus<E>>)
        ensures
            statuses@ == self@.statuses,
    {
        &self.statuses
    }

    /// Takes in the evidence of the next round, writes the round down, and says against
    /// which state the round after it is to be checked. Where every round was checked before,
    /// the evidence is not taken and the result is `None`.
    pub fn record(&mut self, evidence: RoundEvidence<E>) -> (carry: Option<Baseline>)
        ensures
            final(self)@ == chain_step(old(self)@, evidence),
            carry == if old(self)@.statuses.len() < old(self)@.rounds {
                Some(final(self)@.baseline)
            } else {
                None
            },
    {
        proof {
            use_type_invariant(&*self);
        }
        let done = self.statuses.len();
        if done >= self.rounds {
            return None;
        }
        let baseline = match evidence.verification {
            Ok(_) => Baseline::Verified { round: done + 1 },
            Err(_) => Baseline::Claimed { round: done + 2 },
        };
        let mut statuses = Vec::new();
        core::mem::swap(&mut self.statuses, &mut statuses);
        statuses.push(evidence.status());
        core::mem::swap(&mut self.statuses, &mut statuses);
        self.baseline = baseline;
        Some(baseline)
    }

    /// The report: what was found of each round that was checked, in order.
    pub fn into_report(self) -> (report: Vec<RoundStatus<E>>)
        ensures
            report@ == self@.statuses,
    {
        self.statuses
    }
}

} // verus!
