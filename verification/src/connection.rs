//! The singleton connection slot, its lifecycle handlers and their event log.
//!
//! At most one connection between the ledger and the external compute endpoint
//! exists at any time. The slot is an explicit optional value owned by
//! [`ConnectionLedger`]; the four handlers validate the caller-supplied state
//! before mutating it, and every successful mutation appends one event to the
//! append-only event log.

use vstd::prelude::*;

verus! {

/// A verified signed caller identity, as the host hands it to the handlers.
pub type AccountId = u64;

/// Validation failures surfaced directly to the caller of a handler.
/// Detected before any mutation: on an error nothing changes.
#[derive(Clone, Copy, PartialEq, Eq, Structural, Debug)]
pub enum Error {
    /// A connection already occupies the slot.
    ConnectionAlreadyExists,
    /// No connection occupies the slot.
    ConnectionDoesNotExist,
}

/// Consumer-observable events, appended in order to the ledger's log.
#[derive(Clone, Copy, PartialEq, Eq, Structural, Debug)]
pub enum Event {
    /// A connection was created. [connection, who]
    ConnectionCreated { connection: u32, who: AccountId },
    /// A connection was removed. [connection, who]
    ConnectionRemoved { connection: u32, who: AccountId },
}

/// The mathematical model of the ledger state: the optional slot and the
/// sequence of events emitted so far.
pub struct LedgerModel {
    pub slot: Option<u32>,
    pub events: Seq<Event>,
}

/// The sole mutable shared state of the core: the singleton connection slot
/// together with the append-only event log.
pub struct ConnectionLedger {
    slot: Option<u32>,
    events: Vec<Event>,
}

impl View for ConnectionLedger {
    type V = LedgerModel;

    closed spec fn view(&self) -> LedgerModel {
        LedgerModel { slot: self.slot, events: self.events@ }
    }
}

/// State after `create_connection(who, connection)`: occupied slots are left
/// untouched (the call is rejected); an empty slot is filled and one
/// `ConnectionCreated` event is appended.
pub open spec fn create_transition(m: LedgerModel, who: AccountId, connection: u32) -> LedgerModel {
    if m.slot is Some {
        m
    } else {
        LedgerModel {
            slot: Some(connection),
            events: m.events.push(Event::ConnectionCreated { connection, who }),
        }
    }
}

/// Result of `create_connection`: rejected with `ConnectionAlreadyExists`
/// exactly when the slot is occupied.
pub open spec fn create_result(m: LedgerModel) -> Result<(), Error> {
    if m.slot is Some {
        Err(Error::ConnectionAlreadyExists)
    } else {
        Ok(())
    }
}

/// State after `remove_connection(who, connection)`: an empty slot is left
/// untouched (the call is rejected); an occupied slot is cleared and one
/// `ConnectionRemoved` event is appended.
pub open spec fn remove_transition(m: LedgerModel, who: AccountId, connection: u32) -> LedgerModel {
    if m.slot is Some {
        LedgerModel {
            slot: None,
            events: m.events.push(Event::ConnectionRemoved { connection, who }),
        }
    } else {
        m
    }
}

/// Result of `remove_connection`: rejected with `ConnectionDoesNotExist`
/// exactly when the slot is empty.
pub open spec fn remove_result(m: LedgerModel) -> Result<(), Error> {
    if m.slot is Some {
        Ok(())
    } else {
        Err(Error::ConnectionDoesNotExist)
    }
}

/// Result of the two query-shaped handlers (`send_command`,
/// `receive_response`): rejected with `ConnectionDoesNotExist` exactly when
/// the slot is empty; neither mutates any state.
pub open spec fn guard_result(m: LedgerModel) -> Result<(), Error> {
    if m.slot is Some {
        Ok(())
    } else {
        Err(Error::ConnectionDoesNotExist)
    }
}

impl ConnectionLedger {
    /// A fresh ledger: empty slot, no events emitted yet.
    pub fn new() -> (ledger: ConnectionLedger)
        ensures
            ledger@.slot is None,
            ledger@.events == Seq::<Event>::empty(),
    {
        ConnectionLedger { slot: None, events: Vec::new() }
    }

    /// A connection is "active" iff the slot is occupied.
    pub fn is_active(&self) -> (r: bool)
        ensures
            r == (self@.slot is Some),
    {
        self.slot.is_some()
    }

    /// The current content of the slot.
    pub fn connection(&self) -> (r: Option<u32>)
        ensures
            r == self@.slot,
    {
        self.slot
    }

    /// The events emitted so far, oldest first.
    pub fn events(&self) -> (r: &Vec<Event>)
        ensures
            r@ == self@.events,
    {
        &self.events
    }

    /// Fill the slot. Fails with `ConnectionAlreadyExists` if already
    /// occupied; emits no event (events are the handlers' concern).
    pub fn put(&mut self, connection: u32) -> (r: Result<(), Error>)
        ensures
            old(self)@.slot is Some ==> r == Err::<(), Error>(Error::ConnectionAlreadyExists)
                && final(self)@ == old(self)@,
            old(self)@.slot is None ==> r == Ok::<(), Error>(())
                && final(self)@ == (LedgerModel { slot: Some(connection), ..old(self)@ }),
    {
        if self.slot.is_some() {
            Err(Error::ConnectionAlreadyExists)
        } else {
            self.slot = Some(connection);
            Ok(())
        }
    }

    /// Clear the slot and return the prior id. Fails with
    /// `ConnectionDoesNotExist` if empty; emits no event.
    pub fn take(&mut self) -> (r: Result<u32, Error>)
        ensures
            old(self)@.slot matches Some(id) ==> r == Ok::<u32, Error>(id)
                && final(self)@ == (LedgerModel { slot: None, ..old(self)@ }),
            old(self)@.slot is None ==> r == Err::<u32, Error>(Error::ConnectionDoesNotExist)
                && final(self)@ == old(self)@,
    {
        match self.slot {
            Some(id) => {
                self.slot = None;
                Ok(id)
            },
            None => Err(Error::ConnectionDoesNotExist),
        }
    }

    /// Create the connection. Rejected with `ConnectionAlreadyExists` while a
    /// connection exists, leaving slot and events unchanged; otherwise fills
    /// the slot and emits `ConnectionCreated { connection, who }`, atomically.
    pub fn create_connection(&mut self, who: AccountId, connection: u32) -> (r: Result<(), Error>)
        ensures
            final(self)@ == create_transition(old(self)@, who, connection),
            r == create_result(old(self)@),
    {
        if self.slot.is_some() {
            Err(Error::ConnectionAlreadyExists)
        } else {
            self.slot = Some(connection);
            self.events.push(Event::ConnectionCreated { connection, who });
            Ok(())
        }
    }

    /// Forward a command across the connection. Rejected with
    /// `ConnectionDoesNotExist` while no connection exists; on `Ok` the host
    /// hands `command` to the transport (fire-and-forget). Mutates nothing.
    pub fn send_command(&self, who: AccountId, command: &String) -> (r: Result<(), Error>)
        ensures
            r == guard_result(self@),
    {
        let _ = who;
        let _ = command;
        if self.slot.is_some() {
            Ok(())
        } else {
            Err(Error::ConnectionDoesNotExist)
        }
    }

    /// Read the latest buffered response across the connection. Rejected with
    /// `ConnectionDoesNotExist` while no connection exists; on `Ok` the host
    /// polls the transport. Query-shaped: mutates nothing.
    pub fn receive_response(&self, who: AccountId) -> (r: Result<(), Error>)
        ensures
            r == guard_result(self@),
    {
        let _ = who;
        if self.slot.is_some() {
            Ok(())
        } else {
            Err(Error::ConnectionDoesNotExist)
        }
    }

    /// Remove the connection. Rejected with `ConnectionDoesNotExist` while no
    /// connection exists, leaving slot and events unchanged; otherwise clears
    /// the slot and emits `ConnectionRemoved { connection, who }`, atomically.
    /// The remover is deliberately not checked against the original creator.
    pub fn remove_connection(&mut self, who: AccountId, connection: u32) -> (r: Result<(), Error>)
        ensures
            final(self)@ == remove_transition(old(self)@, who, connection),
            r == remove_result(old(self)@),
    {
        if self.slot.is_some() {
            self.slot = None;
            self.events.push(Event::ConnectionRemoved { connection, who });
            Ok(())
        } else {
            Err(Error::ConnectionDoesNotExist)
        }
    }
}

/// One handler invocation, for reasoning about whole operation histories.
pub enum Op {
    Create { who: AccountId, connection: u32 },
    Remove { who: AccountId, connection: u32 },
    Send { who: AccountId },
    Receive { who: AccountId },
}

/// The ledger state reached by one handler invocation. `Send` and `Receive`
/// never mutate; `Create` and `Remove` follow their transition functions,
/// which leave the state untouched whenever the call is rejected.
pub open spec fn apply_op(m: LedgerModel, op: Op) -> LedgerModel {
    match op {
        Op::Create { who, connection } => create_transition(m, who, connection),
        Op::Remove { who, connection } => remove_transition(m, who, connection),
        Op::Send { .. } => m,
        Op::Receive { .. } => m,
    }
}

/// The ledger state reached by a whole sequence of handler invocations.
pub open spec fn apply_ops(m: LedgerModel, ops: Seq<Op>) -> LedgerModel
    decreases ops.len(),
{
    if ops.len() == 0 {
        m
    } else {
        apply_op(apply_ops(m, ops.drop_last()), ops.last())
    }
}

/// Whether a connection is active after a history: a `Create` op always
/// leaves the slot occupied (it succeeds exactly when the slot was empty and
/// is rejected without effect otherwise), a `Remove` op always leaves it
/// empty (by the dual argument), and no other op touches it.
pub open spec fn occupied_after(initially_occupied: bool, ops: Seq<Op>) -> bool
    decreases ops.len(),
{
    if ops.len() == 0 {
        initially_occupied
    } else {
        match ops.last() {
            Op::Create { .. } => true,
            Op::Remove { .. } => false,
            _ => occupied_after(initially_occupied, ops.drop_last()),
        }
    }
}

/// Lifecycle law: over every sequence of handler invocations, a connection
/// exists iff the most recent successful `create_connection` has not been
/// followed by a successful `remove_connection` — equivalently, iff the most
/// recent slot-touching op is a `Create` (a `Create` succeeds exactly when no
/// connection existed, a `Remove` exactly when one did, and a rejected call
/// changes nothing).
pub proof fn lemma_exists_tracks_lifecycle(m: LedgerModel, ops: Seq<Op>)
    ensures
        apply_ops(m, ops).slot is Some <==> occupied_after(m.slot is Some, ops),
    decreases ops.len(),
{
    if ops.len() > 0 {
        lemma_exists_tracks_lifecycle(m, ops.drop_last());
    }
}

} // verus!
