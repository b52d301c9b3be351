//! Deterministic selection of a per-cycle submission strategy.
//!
//! Each relay cycle picks exactly one of five mutually-exclusive submission
//! strategies as a pure function of the current ledger height. Determinism
//! matters because every node runs the same relay logic for the same height:
//! the choice must not depend on wall-clock time, randomness or I/O, or nodes
//! would diverge and waste network resources.

use vstd::prelude::*;

verus! {

/// The five mutually-exclusive submission strategies for one relay cycle.
#[derive(Clone, Copy, PartialEq, Eq, Structural, Debug)]
pub enum TransactionType {
    /// One signed transaction per local signer.
    Signed,
    /// One unsigned transaction embedding a single local signer's identity.
    UnsignedForAny,
    /// One unsigned transaction per local signer's identity.
    UnsignedForAll,
    /// One bespoke unsigned transaction keyed by height, no signer identity.
    Raw,
    /// No submission this cycle.
    NoSubmission,
}

/// How many strategies the height cycles through.
pub const STRATEGY_COUNT: u64 = 5;

/// The selection policy: the height modulo [`STRATEGY_COUNT`] walks through
/// the five strategies in declaration order. Chosen policy: every strategy is
/// exercised in turn, one quiet cycle in five.
pub open spec fn selected_strategy(height: u64) -> TransactionType {
    if height % STRATEGY_COUNT == 0 {
        TransactionType::Signed
    } else if height % STRATEGY_COUNT == 1 {
        TransactionType::UnsignedForAny
    } else if height % STRATEGY_COUNT == 2 {
        TransactionType::UnsignedForAll
    } else if height % STRATEGY_COUNT == 3 {
        TransactionType::Raw
    } else {
        TransactionType::NoSubmission
    }
}

/// Select the strategy for one cycle: a pure function of the height alone.
pub fn choose_transaction_type(height: u64) -> (t: TransactionType)
    ensures
        t == selected_strategy(height),
{
    let index: u64 = height % STRATEGY_COUNT;
    if index == 0 {
        TransactionType::Signed
    } else if index == 1 {
        TransactionType::UnsignedForAny
    } else if index == 2 {
        TransactionType::UnsignedForAll
    } else if index == 3 {
        TransactionType::Raw
    } else {
        TransactionType::NoSubmission
    }
}

/// Determinism law: for a fixed height, repeated selections always yield the
/// same strategy — any two results of `choose_transaction_type` at the same
/// height are equal.
pub proof fn lemma_selection_deterministic(height: u64, t1: TransactionType, t2: TransactionType)
    requires
        t1 == selected_strategy(height),
        t2 == selected_strategy(height),
    ensures
        t1 == t2,
{
}

} // verus!
