//! Admission control for the relay's unsigned transactions.
//!
//! Unsigned transactions carry no signature and no economic stake, so the
//! pool accepts them only through this rule. For the one recognized call
//! shape — the relay's own unsigned submission — the validator returns a
//! fixed admission tag derived from a constant namespace token (so the pool
//! deduplicates resubmissions of logically identical calls), a fixed
//! priority, a small fixed longevity bounding how long an unconfirmed
//! transaction stays eligible, and `propagate = true`. Every other call
//! shape is rejected outright.

use vstd::prelude::*;

verus! {

/// The call shapes that can reach the transaction pool. The four signed
/// dispatchables are listed for completeness; only [`Call::RelayResponse`],
/// the call the relay produces, may enter the pool unsigned.
#[derive(Clone, PartialEq, Eq, Debug)]
pub enum Call {
    /// Signed dispatch: create the connection.
    CreateConnection { connection: u32 },
    /// Signed dispatch: forward a command across the connection.
    SendCommand { command: String },
    /// Signed dispatch: read the latest buffered response.
    ReceiveResponse,
    /// Signed dispatch: remove the connection.
    RemoveConnection { connection: u32 },
    /// The relay's unsigned submission, keyed by the cycle that produced it.
    RelayResponse { key: u32 },
}

/// Rejection of an unsigned call by the pool's admission rule.
#[derive(Clone, Copy, PartialEq, Eq, Structural, Debug)]
pub enum InvalidTransaction {
    /// The call shape is not one the relay produces.
    Call,
}

/// How an admitted unsigned transaction enters the pool. Derived per call,
/// never stored.
#[derive(Clone, PartialEq, Eq, Debug)]
pub struct AdmissionDecision {
    /// The deduplication tag the transaction provides to the pool.
    pub provides_tag: Vec<u8>,
    /// Pool ordering priority.
    pub priority: u64,
    /// How many cycles an unconfirmed transaction stays eligible.
    pub longevity: u32,
    /// Whether the transaction is gossiped to peers.
    pub propagate: bool,
}

/// Priority given to the relay's unsigned transactions in the pool.
pub const UNSIGNED_TXS_PRIORITY: u64 = 100;

/// Cycles an unconfirmed unsigned transaction stays eligible in the pool.
pub const UNSIGNED_TXS_LONGEVITY: u32 = 3;

/// The recognized call shape: only the relay's own unsigned submission.
pub open spec fn recognized(call: Call) -> bool {
    call is RelayResponse
}

/// The fixed admission tag: the bytes of the namespace token `edge-relay`.
/// The same token for every logically identical relay call is what lets the
/// pool deduplicate resubmissions.
pub open spec fn admission_tag() -> Seq<u8> {
    seq![101u8, 100u8, 103u8, 101u8, 45u8, 114u8, 101u8, 108u8, 97u8, 121u8]
}

/// What `validate_unsigned` promises of an accepted call: the fixed tag, the
/// fixed priority and longevity, and propagation to peers.
pub open spec fn admits(call: Call, d: AdmissionDecision) -> bool {
    &&& recognized(call)
    &&& d.provides_tag@ == admission_tag()
    &&& d.priority == UNSIGNED_TXS_PRIORITY
    &&& d.longevity == UNSIGNED_TXS_LONGEVITY
    &&& d.propagate == true
}

/// Decide whether the pool admits an unsigned call: accepted with the fixed
/// admission parameters iff the call is the recognized relay shape, rejected
/// with `InvalidTransaction::Call` otherwise.
pub fn validate_unsigned(call: &Call) -> (r: Result<AdmissionDecision, InvalidTransaction>)
    ensures
        recognized(*call) ==> (r matches Ok(d) && admits(*call, d)),
        !recognized(*call) ==> r == Err::<AdmissionDecision, InvalidTransaction>(
            InvalidTransaction::Call,
        ),
{
    match call {
        Call::RelayResponse { .. } => {
            let mut tag: Vec<u8> = Vec::new();
            tag.push(101);
            tag.push(100);
            tag.push(103);
            tag.push(101);
            tag.push(45);
            tag.push(114);
            tag.push(101);
            tag.push(108);
            tag.push(97);
            tag.push(121);
            proof {
                assert(tag@ =~= admission_tag());
            }
            Ok(
                AdmissionDecision {
                    provides_tag: tag,
                    priority: UNSIGNED_TXS_PRIORITY,
                    longevity: UNSIGNED_TXS_LONGEVITY,
                    propagate: true,
                },
            )
        },
        _ => Err(InvalidTransaction::Call),
    }
}

/// Tag stability law: any two admitted decisions — in particular those for
/// logically identical relay calls — carry the same `provides_tag`, so the
/// pool sees resubmissions of the same logical operation under one tag.
pub proof fn lemma_tag_stability(c1: Call, c2: Call, d1: AdmissionDecision, d2: AdmissionDecision)
    requires
        admits(c1, d1),
        admits(c2, d2),
    ensures
        d1.provides_tag@ == d2.provides_tag@,
{
}

} // verus!
