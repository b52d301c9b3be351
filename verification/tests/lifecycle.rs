use edge_connect::connection::ConnectionLedger;
use edge_connect::connection::Error;
use edge_connect::connection::Event;

#[test]
fn fresh_ledger_is_empty() {
    let ledger = ConnectionLedger::new();
    assert!(!ledger.is_active());
    assert_eq!(ledger.connection(), None);
    assert!(ledger.events().is_empty());
}

#[test]
fn create_fills_slot_and_emits() {
    let mut ledger = ConnectionLedger::new();
    assert_eq!(ledger.create_connection(1, 5), Ok(()));
    assert!(ledger.is_active());
    assert_eq!(ledger.connection(), Some(5));
    assert_eq!(
        ledger.events().as_slice(),
        &[Event::ConnectionCreated { connection: 5, who: 1 }]
    );
}

#[test]
fn duplicate_create_rejected_slot_kept() {
    let mut ledger = ConnectionLedger::new();
    assert_eq!(ledger.create_connection(1, 5), Ok(()));
    assert_eq!(
        ledger.create_connection(1, 5),
        Err(Error::ConnectionAlreadyExists)
    );
    assert_eq!(ledger.connection(), Some(5));
    // the rejected call emitted nothing
    assert_eq!(ledger.events().len(), 1);
}

#[test]
fn create_while_other_connection_active_rejected() {
    let mut ledger = ConnectionLedger::new();
    assert_eq!(ledger.create_connection(1, 5), Ok(()));
    assert_eq!(
        ledger.create_connection(2, 6),
        Err(Error::ConnectionAlreadyExists)
    );
    assert_eq!(ledger.connection(), Some(5));
    assert_eq!(ledger.events().len(), 1);
}

#[test]
fn create_then_remove_emits_both_events_in_order() {
    let mut ledger = ConnectionLedger::new();
    assert_eq!(ledger.create_connection(1, 7), Ok(()));
    assert_eq!(ledger.remove_connection(1, 7), Ok(()));
    assert!(!ledger.is_active());
    assert_eq!(ledger.connection(), None);
    assert_eq!(
        ledger.events().as_slice(),
        &[
            Event::ConnectionCreated { connection: 7, who: 1 },
            Event::ConnectionRemoved { connection: 7, who: 1 },
        ]
    );
}

#[test]
fn remove_without_connection_rejected_no_event() {
    let mut ledger = ConnectionLedger::new();
    assert_eq!(
        ledger.remove_connection(1, 7),
        Err(Error::ConnectionDoesNotExist)
    );
    assert!(ledger.events().is_empty());
}

#[test]
fn send_command_requires_connection() {
    let mut ledger = ConnectionLedger::new();
    let command = String::from("boot");
    assert_eq!(
        ledger.send_command(1, &command),
        Err(Error::ConnectionDoesNotExist)
    );
    assert_eq!(ledger.create_connection(1, 3), Ok(()));
    assert_eq!(ledger.send_command(1, &command), Ok(()));
    // query-shaped: no event either way
    assert_eq!(ledger.events().len(), 1);
}

#[test]
fn receive_response_requires_connection() {
    let mut ledger = ConnectionLedger::new();
    assert_eq!(
        ledger.receive_response(1),
        Err(Error::ConnectionDoesNotExist)
    );
    assert_eq!(ledger.create_connection(1, 3), Ok(()));
    assert_eq!(ledger.receive_response(2), Ok(()));
    assert_eq!(ledger.events().len(), 1);
}

#[test]
fn put_and_take_enforce_singleton_slot() {
    let mut ledger = ConnectionLedger::new();
    assert_eq!(ledger.put(11), Ok(()));
    assert_eq!(ledger.put(12), Err(Error::ConnectionAlreadyExists));
    assert_eq!(ledger.take(), Ok(11));
    assert_eq!(ledger.take(), Err(Error::ConnectionDoesNotExist));
    // put and take emit no events themselves
    assert!(ledger.events().is_empty());
}

#[test]
fn exists_tracks_create_remove_history() {
    let mut ledger = ConnectionLedger::new();
    assert!(!ledger.is_active());
    assert_eq!(ledger.create_connection(1, 2), Ok(()));
    assert!(ledger.is_active());
    let command = String::from("status");
    assert_eq!(ledger.send_command(1, &command), Ok(()));
    assert!(ledger.is_active());
    assert_eq!(ledger.remove_connection(2, 2), Ok(()));
    assert!(!ledger.is_active());
    assert_eq!(ledger.create_connection(3, 9), Ok(()));
    assert!(ledger.is_active());
    assert_eq!(ledger.connection(), Some(9));
}

#[test]
fn remover_need_not_be_creator() {
    // deliberately permissive: anyone may remove the connection
    let mut ledger = ConnectionLedger::new();
    assert_eq!(ledger.create_connection(1, 4), Ok(()));
    assert_eq!(ledger.remove_connection(99, 4), Ok(()));
    assert!(!ledger.is_active());
}
