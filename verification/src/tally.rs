//! The tally itself: validation, the duplicate-submission guard, the
//! counters, the query surface, and the maintenance calls.

use vstd::prelude::*;
use crate::errors::{MaintenanceError, SubmissionError, ValidationError};
use crate::record::{parse_choice, valid_weight, Choice, LedgerInfo, Principal, VoterRecord};
use crate::store::{AggregateKey, AggregateTier, PrincipalTier, StoredRecord};
use crate::ttl;

verus! {

/// The outcome of a finished ballot.
#[derive(Clone, Copy, Debug, PartialEq, Eq, Structural)]
pub enum Winner {
    Yes,
    No,
    Tie,
}

/// Everything a caller can observe of the tally: the three counters (an
/// unwritten counter reads as zero), the aggregate tier's horizon, and the
/// per-principal records with their horizons.
#[verifier::ext_equal]
pub struct TallyView {
    pub yes: u64,
    pub no: u64,
    pub grand: u64,
    pub aggregate_live_until: u32,
    pub voters: Map<u64, StoredRecord>,
}

impl TallyView {
    /// Well-formedness: the grand total is exactly the sum of the two
    /// counters, and every stored record is keyed by its own principal and
    /// carries a legal weight.
    pub open spec fn wf(self) -> bool {
        &&& self.grand == self.yes + self.no
        &&& forall|id: u64|
            #[trigger] self.voters.dom().contains(id) ==> {
                &&& self.voters[id].record.voter.id == id
                &&& valid_weight(self.voters[id].record.votes)
            }
    }
}

/// An unwritten counter reads as zero.
pub open spec fn counter_or_zero(entry: Option<u64>) -> u64 {
    match entry {
        Some(v) => v,
        None => 0,
    }
}

/// The ballot's verdict for a pair of totals: a strict majority wins, and
/// equal totals — the all-zero initial state included — are a tie.
pub open spec fn winner_of(yes: u64, no: u64) -> Winner {
    if yes > no {
        Winner::Yes
    } else if no > yes {
        Winner::No
    } else {
        Winner::Tie
    }
}

/// What the submission validator answers for a choice and a weight, checked
/// in this order with the first failure winning: weight at least one, weight
/// at most five, choice one of the two admissible literals.
pub open spec fn validated(choice: Seq<char>, weight: u64) -> Result<Choice, ValidationError> {
    if weight < 1 {
        Err(ValidationError::WeightTooLow)
    } else if weight > 5 {
        Err(ValidationError::WeightTooHigh)
    } else {
        match parse_choice(choice) {
            Some(c) => Ok(c),
            None => Err(ValidationError::InvalidChoice),
        }
    }
}

/// Whether a submission is accepted, and if not, why: validation first,
/// then the duplicate-submission guard.
pub open spec fn submit_decision(
    s: TallyView,
    voter_id: u64,
    choice: Seq<char>,
    weight: u64,
) -> Option<SubmissionError> {
    match validated(choice, weight) {
        Err(e) => Some(SubmissionError::Invalid(e)),
        Ok(_) => if s.voters.contains_key(voter_id) {
            Some(SubmissionError::AlreadySubmitted)
        } else {
            None
        },
    }
}

/// The state after an accepted submission: the record is stored under the
/// principal with a fresh horizon already run through the per-record
/// lifetime policy, the matching counter and the grand total grow by the
/// weight, and the aggregate tier's horizon is run through its policy.
pub open spec fn submit_apply(
    s: TallyView,
    voter: Principal,
    choice: Choice,
    weight: u64,
    ledger: LedgerInfo,
) -> TallyView {
    TallyView {
        yes: if choice == Choice::Yes {
            (s.yes + weight) as u64
        } else {
            s.yes
        },
        no: if choice == Choice::No {
            (s.no + weight) as u64
        } else {
            s.no
        },
        grand: (s.grand + weight) as u64,
        aggregate_live_until: ttl::extended_horizon(
            s.aggregate_live_until,
            ledger.sequence,
            ttl::INSTANCE_TTL_THRESHOLD,
            ttl::INSTANCE_TTL,
        ),
        voters: s.voters.insert(
            voter.id,
            StoredRecord {
                record: VoterRecord {
                    voter,
                    choice,
                    votes: weight,
                    timestamp: ledger.timestamp,
                },
                live_until: ttl::extended_horizon(
                    ledger.sequence,
                    ledger.sequence,
                    ttl::VOTER_RECORD_TTL_THRESHOLD,
                    ttl::VOTER_RECORD_TTL,
                ),
            },
        ),
    }
}

/// Enforces input legality before any state is touched: the weight bounds
/// first, then the exact-literal check on the choice. Returns the parsed
/// choice so an accepted submission needs no second look at the text.
pub fn validate(choice: &String, weight: u64) -> (r: Result<Choice, ValidationError>)
    ensures
        r == validated(choice@, weight),
{
    if weight < 1 {
        return Err(ValidationError::WeightTooLow);
    }
    if weight > 5 {
        return Err(ValidationError::WeightTooHigh);
    }
    let yes: String = "yes".to_owned();
    let no: String = "no".to_owned();
    if *choice == yes {
        Ok(Choice::Yes)
    } else if *choice == no {
        Ok(Choice::No)
    } else {
        Err(ValidationError::InvalidChoice)
    }
}

/// The single-choice ballot over the two storage tiers.
pub struct VoteContract {
    pub aggregates: AggregateTier,
    pub voters: PrincipalTier,
}

impl View for VoteContract {
    type V = TallyView;

    open spec fn view(&self) -> TallyView {
        TallyView {
            yes: counter_or_zero(self.aggregates.entry(AggregateKey::YesVotes)),
            no: counter_or_zero(self.aggregates.entry(AggregateKey::NoVotes)),
            grand: counter_or_zero(self.aggregates.entry(AggregateKey::TotalVotes)),
            aggregate_live_until: self.aggregates.spec_live_until(),
            voters: self.voters@,
        }
    }
}

impl VoteContract {
    /// Well-formedness of the contract state.
    pub open spec fn wf(self) -> bool {
        self@.wf()
    }

    /// The initial state: no submissions, all totals zero.
    pub fn new() -> (c: VoteContract)
        ensures
            c@ == (TallyView {
                yes: 0,
                no: 0,
                grand: 0,
                aggregate_live_until: 0,
                voters: Map::<u64, StoredRecord>::empty(),
            }),
            c.wf(),
    {
        VoteContract { aggregates: AggregateTier::new(), voters: PrincipalTier::new() }
    }

    /// The duplicate-submission guard: passes exactly when the principal
    /// has no record yet. Runs strictly before any mutation, so a rejected
    /// submission needs no cleanup.
    pub fn check_not_submitted(&self, voter: Principal) -> (r: Result<(), SubmissionError>)
        ensures
            r == if self@.voters.contains_key(voter.id) {
                Err::<(), SubmissionError>(SubmissionError::AlreadySubmitted)
            } else {
                Ok::<(), SubmissionError>(())
            },
    {
        if self.voters.has(voter) {
            Err(SubmissionError::AlreadySubmitted)
        } else {
            Ok(())
        }
    }

    /// One submission: validate the input, reject a duplicate, then — and
    /// only then — store the record, fold its weight into the counters, and
    /// run the lifetime policy on both tiers touched. A rejected submission
    /// leaves the state exactly as it was. The caller's context must already
    /// have established that `voter` authorized the call.
    pub fn vote(
        &mut self,
        voter: Principal,
        choice: String,
        vote_count: u64,
        ledger: LedgerInfo,
    ) -> (r: Result<(), SubmissionError>)
        requires
            old(self).wf(),
            old(self)@.grand + 5 <= u64::MAX,
        ensures
            final(self).wf(),
            (match submit_decision(old(self)@, voter.id, choice@, vote_count) {
                Some(e) => r == Err::<(), SubmissionError>(e) && *final(self) == *old(self),
                None => r == Ok::<(), SubmissionError>(()) && final(self)@ == submit_apply(
                    old(self)@,
                    voter,
                    parse_choice(choice@).unwrap(),
                    vote_count,
                    ledger,
                ),
            }),
    {
        let parsed: Choice = match validate(&choice, vote_count) {
            Ok(c) => c,
            Err(e) => {
                return Err(SubmissionError::Invalid(e));
            }
        };
        match self.check_not_submitted(voter) {
            Ok(()) => {}
            Err(e) => {
                return Err(e);
            }
        }

        let record = VoterRecord {
            voter,
            choice: parsed,
            votes: vote_count,
            timestamp: ledger.timestamp,
        };
        self.voters.set(voter, record, ledger.sequence);
        self.voters.extend_lifetime(
            voter,
            ledger.sequence,
            ttl::VOTER_RECORD_TTL_THRESHOLD,
            ttl::VOTER_RECORD_TTL,
        );

        match parsed {
            Choice::Yes => {
                let current: u64 = self.get_yes_votes();
                self.aggregates.set(AggregateKey::YesVotes, current + vote_count);
            }
            Choice::No => {
                let current: u64 = self.get_no_votes();
                self.aggregates.set(AggregateKey::NoVotes, current + vote_count);
            }
        }
        let total: u64 = self.get_total_votes();
        self.aggregates.set(AggregateKey::TotalVotes, total + vote_count);
        self.aggregates.extend_lifetime(
            ledger.sequence,
            ttl::INSTANCE_TTL_THRESHOLD,
            ttl::INSTANCE_TTL,
        );

        proof {
            let post = submit_apply(
                old(self)@,
                voter,
                parse_choice(choice@).unwrap(),
                vote_count,
                ledger,
            );
            assert(self@.voters =~= post.voters);
            assert(self@ =~= post);
        }
        Ok(())
    }

    /// Maintenance: runs the lifetime policy on the aggregate tier's shared
    /// horizon. Callable by anyone; nothing else changes.
    pub fn extend_contract_ttl(&mut self, now: u32)
        ensures
            final(self)@ == (TallyView {
                aggregate_live_until: ttl::extended_horizon(
                    old(self)@.aggregate_live_until,
                    now,
                    ttl::INSTANCE_TTL_THRESHOLD,
                    ttl::INSTANCE_TTL,
                ),
                ..old(self)@
            }),
            old(self).wf() ==> final(self).wf(),
    {
        self.aggregates.extend_lifetime(now, ttl::INSTANCE_TTL_THRESHOLD, ttl::INSTANCE_TTL);
        proof {
            assert(self@ =~= (TallyView {
                aggregate_live_until: ttl::extended_horizon(
                    old(self)@.aggregate_live_until,
                    now,
                    ttl::INSTANCE_TTL_THRESHOLD,
                    ttl::INSTANCE_TTL,
                ),
                ..old(self)@
            }));
        }
    }

    /// Maintenance: runs the lifetime policy on one principal's record,
    /// which must exist; its fields are untouched. The caller's context must
    /// already have established that `voter` authorized the call.
    pub fn extend_voter_ttl(&mut self, voter: Principal, now: u32) -> (r: Result<
        (),
        MaintenanceError,
    >)
        ensures
            !old(self)@.voters.contains_key(voter.id) ==> r == Err::<(), MaintenanceError>(
                MaintenanceError::NotFound,
            ) && *final(self) == *old(self),
            old(self)@.voters.contains_key(voter.id) ==> r == Ok::<(), MaintenanceError>(())
                && final(self)@ == (TallyView {
                voters: old(self)@.voters.insert(
                    voter.id,
                    (StoredRecord {
                        record: old(self)@.voters[voter.id].record,
                        live_until: ttl::extended_horizon(
                            old(self)@.voters[voter.id].live_until,
                            now,
                            ttl::VOTER_RECORD_TTL_THRESHOLD,
                            ttl::VOTER_RECORD_TTL,
                        ),
                    }),
                ),
                ..old(self)@
            }),
            old(self).wf() ==> final(self).wf(),
    {
        if !self.voters.has(voter) {
            return Err(MaintenanceError::NotFound);
        }
        self.voters.extend_lifetime(
            voter,
            now,
            ttl::VOTER_RECORD_TTL_THRESHOLD,
            ttl::VOTER_RECORD_TTL,
        );
        proof {
            assert(self@ =~= (TallyView {
                voters: old(self)@.voters.insert(
                    voter.id,
                    (StoredRecord {
                        record: old(self)@.voters[voter.id].record,
                        live_until: ttl::extended_horizon(
                            old(self)@.voters[voter.id].live_until,
                            now,
                            ttl::VOTER_RECORD_TTL_THRESHOLD,
                            ttl::VOTER_RECORD_TTL,
                        ),
                    }),
                ),
                ..old(self)@
            }));
        }
        Ok(())
    }

    /// Total weight of accepted `Yes` submissions; zero before any.
    pub fn get_yes_votes(&self) -> (r: u64)
        ensures
            r == self@.yes,
    {
        match self.aggregates.get(AggregateKey::YesVotes) {
            Some(v) => v,
            None => 0,
        }
    }

    /// Total weight of accepted `No` submissions; zero before any.
    pub fn get_no_votes(&self) -> (r: u64)
        ensures
            r == self@.no,
    {
        match self.aggregates.get(AggregateKey::NoVotes) {
            Some(v) => v,
            None => 0,
        }
    }

    /// Total weight of all accepted submissions; zero before any.
    pub fn get_total_votes(&self) -> (r: u64)
        ensures
            r == self@.grand,
    {
        match self.aggregates.get(AggregateKey::TotalVotes) {
            Some(v) => v,
            None => 0,
        }
    }

    /// The record a principal submitted, if any.
    pub fn get_voter(&self, voter: Principal) -> (r: Option<VoterRecord>)
        ensures
            r == if self@.voters.contains_key(voter.id) {
                Some(self@.voters[voter.id].record)
            } else {
                None::<VoterRecord>
            },
    {
        self.voters.get(voter)
    }

    /// Whether a principal already submitted.
    pub fn has_voted(&self, voter: Principal) -> (r: bool)
        ensures
            r == self@.voters.contains_key(voter.id),
    {
        self.voters.has(voter)
    }

    /// A consistent snapshot of the three counters, as (yes, no, grand).
    pub fn get_results(&self) -> (r: (u64, u64, u64))
        ensures
            r == (self@.yes, self@.no, self@.grand),
    {
        let yes: u64 = self.get_yes_votes();
        let no: u64 = self.get_no_votes();
        let total: u64 = self.get_total_votes();
        (yes, no, total)
    }

    /// The verdict for the current totals; `Tie` exactly when they are
    /// equal, the untouched ballot included.
    pub fn get_winner(&self) -> (r: Winner)
        ensures
            r == winner_of(self@.yes, self@.no),
            (r == Winner::Tie) <==> (self@.yes == self@.no),
    {
        let yes: u64 = self.get_yes_votes();
        let no: u64 = self.get_no_votes();
        if yes > no {
            Winner::Yes
        } else if no > yes {
            Winner::No
        } else {
            Winner::Tie
        }
    }
}

/// In a well-formed state the grand total is exactly the sum of the yes and
/// no totals — so it holds after every sequence of accepted submissions,
/// since the initial state is well-formed and every operation preserves
/// well-formedness.
pub proof fn lemma_grand_total_is_sum(s: TallyView)
    requires
        s.wf(),
    ensures
        s.grand == s.yes + s.no,
{
}

/// An accepted submission leads from a well-formed state to a well-formed
/// state, provided the new grand total still fits the counter.
pub proof fn lemma_submit_preserves_wf(
    s: TallyView,
    voter: Principal,
    choice: Seq<char>,
    weight: u64,
    ledger: LedgerInfo,
)
    requires
        s.wf(),
        s.grand + weight <= u64::MAX,
        submit_decision(s, voter.id, choice, weight) is None,
    ensures
        submit_apply(s, voter, parse_choice(choice).unwrap(), weight, ledger).wf(),
{
    let post = submit_apply(s, voter, parse_choice(choice).unwrap(), weight, ledger);
    assert forall|id: u64| #[trigger] post.voters.dom().contains(id) implies {
        &&& post.voters[id].record.voter.id == id
        &&& valid_weight(post.voters[id].record.votes)
    } by {
        if id != voter.id {
            assert(s.voters.dom().contains(id));
        }
    }
}

/// A fresh principal's submission with a legal weight and an admissible
/// choice is accepted, and every later submission by the same principal
/// whose input passes validation is rejected as a duplicate, whatever its
/// choice and weight. (A later submission with an illegal input is rejected
/// by the validator instead, which runs first.)
pub proof fn lemma_duplicate_submission_rejected(
    s: TallyView,
    voter: Principal,
    choice1: Seq<char>,
    weight1: u64,
    ledger1: LedgerInfo,
    choice2: Seq<char>,
    weight2: u64,
)
    requires
        valid_weight(weight1),
        parse_choice(choice1) is Some,
        !s.voters.contains_key(voter.id),
        valid_weight(weight2),
        parse_choice(choice2) is Some,
    ensures
        submit_decision(s, voter.id, choice1, weight1) is None,
        submit_decision(
            submit_apply(s, voter, parse_choice(choice1).unwrap(), weight1, ledger1),
            voter.id,
            choice2,
            weight2,
        ) == Some(SubmissionError::AlreadySubmitted),
{
}

/// A principal that already has a record is rejected on every further
/// submission, whatever choice and weight it carries; and a rejected
/// submission leaves the state untouched (`vote`'s contract), so the stored
/// record survives every later attempt.
pub proof fn lemma_rejection_keeps_record(s: TallyView, voter: Principal)
    requires
        s.voters.contains_key(voter.id),
    ensures
        forall|choice: Seq<char>, weight: u64|
            #[trigger] submit_decision(s, voter.id, choice, weight) is Some,
{
}

} // verus!
