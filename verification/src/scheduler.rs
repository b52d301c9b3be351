//! The per-cycle relay entry point.
//!
//! The host's cycle-completion hook calls into this module once per ledger
//! cycle, with an explicit context: the current height, the parent hash
//! (recorded for audit only) and the local signer set, together with the
//! response the host polled from the transport. Planning is pure: with no
//! local signer the cycle ends at once reporting `NoLocalSigners` and nothing
//! is ever attempted; otherwise the strategy is selected deterministically
//! from the height and the submission plan is built. The host performs the
//! planned submissions and hands the per-attempt results back to
//! [`complete_cycle`], which aggregates them. Errors end the cycle early and
//! touch no ledger state; the next cycle starts from scratch.

use vstd::prelude::*;
use crate::connection::AccountId;
use crate::strategy::TransactionType;
use crate::strategy::choose_transaction_type;
use crate::strategy::selected_strategy;
use crate::submitter::RelayError;
use crate::submitter::Submission;
use crate::submitter::SubmissionOutcome;
use crate::submitter::aggregate_outcome;
use crate::submitter::failures;
use crate::submitter::plan_submissions;
use crate::submitter::planned_submissions;
use crate::submitter::successes;

verus! {

/// The ephemeral context of one relay cycle, built fresh by the host each
/// cycle and never persisted.
pub struct RelayCycleContext {
    /// The current ledger height; the sole input to strategy selection.
    pub height: u64,
    /// The parent cycle's hash, recorded for audit and logging only — the
    /// cycle's decisions never depend on it.
    pub parent_hash: u64,
    /// The local signing identities available this cycle.
    pub local_signers: Vec<AccountId>,
}

/// What one cycle decided to do: the selected strategy, the transactions to
/// attempt, and the polled response the cycle intends to relay.
pub struct CyclePlan {
    /// The strategy selected from the height.
    pub strategy: TransactionType,
    /// The transactions to attempt, in order.
    pub submissions: Vec<Submission>,
    /// The response polled from the transport this cycle, if any. What
    /// ledger change it leads to is the executed transaction's concern, not
    /// the scheduler's.
    pub response: Option<String>,
}

/// Plan one relay cycle. With no local signer the cycle reports
/// `NoLocalSigners` and plans nothing; otherwise the strategy is the
/// deterministic function of the height and the submissions are exactly the
/// strategy's plan over the signer set.
pub fn plan_cycle(ctx: &RelayCycleContext, response: Option<String>) -> (r: Result<
    CyclePlan,
    RelayError,
>)
    ensures
        ctx.local_signers@.len() == 0 ==> r == Err::<CyclePlan, RelayError>(
            RelayError::NoLocalSigners,
        ),
        ctx.local_signers@.len() > 0 ==> (r matches Ok(plan) && plan.strategy
            == selected_strategy(ctx.height) && plan.submissions@ == planned_submissions(
            selected_strategy(ctx.height),
            ctx.local_signers@,
            ctx.height,
        ) && plan.response == response),
{
    if ctx.local_signers.len() == 0 {
        return Err(RelayError::NoLocalSigners);
    }
    let strategy = choose_transaction_type(ctx.height);
    let submissions = plan_submissions(strategy, &ctx.local_signers, ctx.height);
    Ok(CyclePlan { strategy, submissions, response })
}

/// Close one relay cycle: aggregate the host's per-attempt results for the
/// planned submissions into the cycle's outcome.
pub fn complete_cycle(plan: CyclePlan, results: &Vec<bool>) -> (out: SubmissionOutcome)
    requires
        plan.submissions@.len() == results@.len(),
    ensures
        out.strategy == plan.strategy,
        out.attempted@ == plan.submissions@,
        out.succeeded@ == successes(plan.submissions@, results@),
        out.failed@ == failures(plan.submissions@, results@),
        out.result is Ok <==> failures(plan.submissions@, results@).len() == 0,
        out.result is Err ==> out.result == Err::<(), RelayError>(RelayError::SubmissionFailed),
{
    aggregate_outcome(plan.strategy, plan.submissions, results)
}

} // verus!
