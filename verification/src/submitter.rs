//! Planning one cycle's transaction submissions and aggregating their
//! per-attempt results.
//!
//! Given the chosen strategy, the local signer set and the height, the
//! planner lists the transactions the cycle attempts. The host performs each
//! attempt against the pool and reports one boolean per attempt; aggregation
//! then splits the attempts into successes and failures. For the per-account
//! strategies one account's failure does not block the others: the aggregate
//! reports every failure without discarding any success.

use vstd::prelude::*;
use crate::connection::AccountId;
use crate::strategy::TransactionType;

verus! {

/// One transaction the cycle attempts to submit.
#[derive(Clone, Copy, PartialEq, Eq, Structural, Debug)]
pub enum Submission {
    /// A signed transaction from one local signer.
    SignedTx { signer: AccountId },
    /// An unsigned transaction embedding one local signer's identity.
    UnsignedTx { signer: AccountId },
    /// A bespoke unsigned transaction keyed by height, no signer identity.
    RawTx { height: u64 },
}

/// Recoverable relay-cycle failures: logged, the cycle ends early, no ledger
/// state is touched.
#[derive(Clone, Copy, PartialEq, Eq, Structural, Debug)]
pub enum RelayError {
    /// No local signing identity is available this cycle.
    NoLocalSigners,
    /// At least one attempted submission failed.
    SubmissionFailed,
}

/// One signed transaction per local signer, in signer order.
pub open spec fn signed_plan(signers: Seq<AccountId>) -> Seq<Submission> {
    signers.map_values(|signer: AccountId| Submission::SignedTx { signer })
}

/// One unsigned transaction per local signer's identity, in signer order.
pub open spec fn unsigned_all_plan(signers: Seq<AccountId>) -> Seq<Submission> {
    signers.map_values(|signer: AccountId| Submission::UnsignedTx { signer })
}

/// The transactions one cycle attempts, by strategy. `UnsignedForAny` embeds
/// the first local signer — a deterministic pick, so every node building the
/// plan for the same cycle builds the same transaction.
pub open spec fn planned_submissions(
    strategy: TransactionType,
    signers: Seq<AccountId>,
    height: u64,
) -> Seq<Submission> {
    match strategy {
        TransactionType::Signed => signed_plan(signers),
        TransactionType::UnsignedForAny => seq![Submission::UnsignedTx { signer: signers[0] }],
        TransactionType::UnsignedForAll => unsigned_all_plan(signers),
        TransactionType::Raw => seq![Submission::RawTx { height }],
        TransactionType::NoSubmission => Seq::empty(),
    }
}

/// Build the cycle's submission plan for the chosen strategy.
pub fn plan_submissions(
    strategy: TransactionType,
    signers: &Vec<AccountId>,
    height: u64,
) -> (plan: Vec<Submission>)
    requires
        signers@.len() > 0,
    ensures
        plan@ == planned_submissions(strategy, signers@, height),
{
    let mut plan: Vec<Submission> = Vec::new();
    match strategy {
        TransactionType::Signed => {
            let mut i: usize = 0;
            while i < signers.len()
                invariant
                    i <= signers@.len(),
                    plan@ == signed_plan(signers@.take(i as int)),
                decreases signers@.len() - i,
            {
                plan.push(Submission::SignedTx { signer: signers[i] });
                proof {
                    assert(signers@.take(i + 1 as int) =~= signers@.take(i as int).push(
                        signers@[i as int],
                    ));
                    assert(signed_plan(signers@.take(i + 1 as int)) =~= signed_plan(
                        signers@.take(i as int),
                    ).push(Submission::SignedTx { signer: signers@[i as int] }));
                }
                i = i + 1;
            }
            proof {
                assert(signers@.take(signers@.len() as int) =~= signers@);
            }
        },
        TransactionType::UnsignedForAny => {
            plan.push(Submission::UnsignedTx { signer: signers[0] });
            proof {
                assert(plan@ =~= planned_submissions(strategy, signers@, height));
            }
        },
        TransactionType::UnsignedForAll => {
            let mut i: usize = 0;
            while i < signers.len()
                invariant
                    i <= signers@.len(),
                    plan@ == unsigned_all_plan(signers@.take(i as int)),
                decreases signers@.len() - i,
            {
                plan.push(Submission::UnsignedTx { signer: signers[i] });
                proof {
                    assert(signers@.take(i + 1 as int) =~= signers@.take(i as int).push(
                        signers@[i as int],
                    ));
                    assert(unsigned_all_plan(signers@.take(i + 1 as int)) =~= unsigned_all_plan(
                        signers@.take(i as int),
                    ).push(Submission::UnsignedTx { signer: signers@[i as int] }));
                }
                i = i + 1;
            }
            proof {
                assert(signers@.take(signers@.len() as int) =~= signers@);
            }
        },
        TransactionType::Raw => {
            plan.push(Submission::RawTx { height });
            proof {
                assert(plan@ =~= planned_submissions(strategy, signers@, height));
            }
        },
        TransactionType::NoSubmission => {
        },
    }
    plan
}

/// The attempts that succeeded, in attempt order.
pub open spec fn successes(attempts: Seq<Submission>, results: Seq<bool>) -> Seq<Submission>
    decreases attempts.len(),
{
    if attempts.len() == 0 {
        Seq::empty()
    } else {
        let rest = successes(attempts.drop_last(), results.drop_last());
        if results.last() {
            rest.push(attempts.last())
        } else {
            rest
        }
    }
}

/// The attempts that failed, in attempt order.
pub open spec fn failures(attempts: Seq<Submission>, results: Seq<bool>) -> Seq<Submission>
    decreases attempts.len(),
{
    if attempts.len() == 0 {
        Seq::empty()
    } else {
        let rest = failures(attempts.drop_last(), results.drop_last());
        if results.last() {
            rest
        } else {
            rest.push(attempts.last())
        }
    }
}

/// The aggregate of one cycle's submission attempts.
#[derive(PartialEq, Eq, Debug)]
pub struct SubmissionOutcome {
    /// The strategy the cycle ran.
    pub strategy: TransactionType,
    /// Every transaction attempted, in order.
    pub attempted: Vec<Submission>,
    /// The attempts that succeeded, in order.
    pub succeeded: Vec<Submission>,
    /// The attempts that failed, in order.
    pub failed: Vec<Submission>,
    /// `Ok` iff no attempt failed; failures are reported without discarding
    /// the successes listed above.
    pub result: Result<(), RelayError>,
}

/// Aggregate the host's per-attempt results: split the attempts into
/// successes and failures, and report `Err(SubmissionFailed)` iff any attempt
/// failed.
pub fn aggregate_outcome(
    strategy: TransactionType,
    attempted: Vec<Submission>,
    results: &Vec<bool>,
) -> (out: SubmissionOutcome)
    requires
        attempted@.len() == results@.len(),
    ensures
        out.strategy == strategy,
        out.attempted@ == attempted@,
        out.succeeded@ == successes(attempted@, results@),
        out.failed@ == failures(attempted@, results@),
        out.result is Ok <==> failures(attempted@, results@).len() == 0,
        out.result is Err ==> out.result == Err::<(), RelayError>(RelayError::SubmissionFailed),
{
    let mut succeeded: Vec<Submission> = Vec::new();
    let mut failed: Vec<Submission> = Vec::new();
    let mut i: usize = 0;
    while i < attempted.len()
        invariant
            i <= attempted@.len(),
            attempted@.len() == results@.len(),
            succeeded@ == successes(attempted@.take(i as int), results@.take(i as int)),
            failed@ == failures(attempted@.take(i as int), results@.take(i as int)),
        decreases attempted@.len() - i,
    {
        proof {
            assert(attempted@.take(i + 1 as int).drop_last() =~= attempted@.take(i as int));
            assert(results@.take(i + 1 as int).drop_last() =~= results@.take(i as int));
            assert(attempted@.take(i + 1 as int).last() == attempted@[i as int]);
            assert(results@.take(i + 1 as int).last() == results@[i as int]);
        }
        if results[i] {
            succeeded.push(attempted[i]);
        } else {
            failed.push(attempted[i]);
        }
        i = i + 1;
    }
    proof {
        assert(attempted@.take(attempted@.len() as int) =~= attempted@);
        assert(results@.take(results@.len() as int) =~= results@);
    }
    let result: Result<(), RelayError> = if failed.len() == 0 {
        Ok(())
    } else {
        Err(RelayError::SubmissionFailed)
    };
    SubmissionOutcome { strategy, attempted, succeeded, failed, result }
}

/// Every attempt lands in exactly one of the two halves of the aggregate.
pub proof fn lemma_outcome_partition(attempts: Seq<Submission>, results: Seq<bool>)
    requires
        attempts.len() == results.len(),
    ensures
        successes(attempts, results).len() + failures(attempts, results).len() == attempts.len(),
    decreases attempts.len(),
{
    if attempts.len() > 0 {
        lemma_outcome_partition(attempts.drop_last(), results.drop_last());
    }
}

/// Every succeeding attempt is reported in the successes, whatever became of
/// the other attempts.
pub proof fn lemma_successes_complete(attempts: Seq<Submission>, results: Seq<bool>)
    requires
        attempts.len() == results.len(),
    ensures
        forall|i: int|
            0 <= i < results.len() && results[i] ==> #[trigger] successes(
                attempts,
                results,
            ).contains(attempts[i]),
    decreases attempts.len(),
{
    if attempts.len() > 0 {
        lemma_successes_complete(attempts.drop_last(), results.drop_last());
        let rest = successes(attempts.drop_last(), results.drop_last());
        assert forall|i: int|
            0 <= i < results.len() && results[i] implies #[trigger] successes(attempts, results)
            .contains(attempts[i]) by {
            if i == results.len() - 1 {
                assert(successes(attempts, results)[successes(attempts, results).len() - 1]
                    == attempts[i]);
            } else {
                assert(attempts.drop_last()[i] == attempts[i]);
                assert(results.drop_last()[i] == results[i]);
                assert(rest.contains(attempts[i]));
                let j = choose|j: int| 0 <= j < rest.len() && rest[j] == attempts[i];
                assert(successes(attempts, results)[j] == attempts[i]);
            }
        }
    }
}

/// Partial-failure law: across any number of attempts of which exactly one
/// failed, the aggregate still reports every other attempt as a success —
/// the successes number one fewer than the attempts and include each attempt
/// but the failed one.
pub proof fn lemma_one_failure_preserves_rest(attempts: Seq<Submission>, results: Seq<bool>, j: int)
    requires
        attempts.len() == results.len(),
        0 <= j < results.len(),
        !results[j],
        forall|i: int| 0 <= i < results.len() && i != j ==> results[i],
    ensures
        successes(attempts, results).len() == attempts.len() - 1,
        failures(attempts, results).len() == 1,
        forall|i: int|
            0 <= i < results.len() && i != j ==> #[trigger] successes(attempts, results).contains(
                attempts[i],
            ),
    decreases attempts.len(),
{
    lemma_successes_complete(attempts, results);
    if j == attempts.len() - 1 {
        lemma_all_success(attempts.drop_last(), results.drop_last());
    } else {
        assert(results.last());
        lemma_one_failure_preserves_rest(attempts.drop_last(), results.drop_last(), j);
    }
}

/// With every attempt succeeding, the aggregate reports them all, in order.
pub proof fn lemma_all_success(attempts: Seq<Submission>, results: Seq<bool>)
    requires
        attempts.len() == results.len(),
        forall|i: int| 0 <= i < results.len() ==> results[i],
    ensures
        successes(attempts, results) == attempts,
        failures(attempts, results).len() == 0,
    decreases attempts.len(),
{
    if attempts.len() > 0 {
        lemma_all_success(attempts.drop_last(), results.drop_last());
        assert(successes(attempts, results) =~= attempts);
    } else {
        assert(successes(attempts, results) =~= attempts);
    }
}

} // verus!
