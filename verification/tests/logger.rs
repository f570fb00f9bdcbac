use raft_peer::{Error, Logger, SequenceID};

#[test]
fn empty_log_starts_at_term_zero() {
    let log = Logger::new(Vec::new());
    assert_eq!(log.term(), 0);
    assert!(log.last_seq_id().is_none());
    assert_eq!(log.applied(), 0);
}

#[test]
fn rehydrated_log_seeds_term_from_last_entry() {
    let ids = vec![
        SequenceID { term: 1, index: 0 },
        SequenceID { term: 1, index: 1 },
        SequenceID { term: 3, index: 2 },
    ];
    let log = Logger::new(ids);
    assert_eq!(log.term(), 3);
    assert_eq!(log.last_seq_id(), Some(SequenceID { term: 3, index: 2 }));
    assert_eq!(log.applied(), 0);
}

#[test]
fn new_term_increments() {
    let mut log = Logger::new(Vec::new());
    assert_eq!(log.new_term(), 1);
    assert_eq!(log.new_term(), 2);
    assert_eq!(log.term(), 2);
}

#[test]
fn set_term_moves_forward_only() {
    let mut log = Logger::new(Vec::new());
    assert!(log.set_term(5).is_ok());
    assert_eq!(log.term(), 5);
    assert!(log.set_term(5).is_err());
    assert!(log.set_term(3).is_err());
    assert_eq!(log.term(), 5);
    match log.set_term(2) {
        Err(Error::Term { current, proposed }) => {
            assert_eq!(current, 5);
            assert_eq!(proposed, 2);
        }
        _ => panic!("a backward term move must be refused"),
    }
}

#[test]
fn sequence_id_orders_by_term_then_index() {
    let a = SequenceID { term: 1, index: 9 };
    let b = SequenceID { term: 2, index: 0 };
    let c = SequenceID { term: 2, index: 1 };
    assert!(a.le(&b));
    assert!(!b.le(&a));
    assert!(b.le(&c));
    assert!(!c.le(&b));
    assert!(b.le(&b));
}

#[test]
fn rpc_error_keeps_endpoint_and_message() {
    let e = Error::from(("b".to_string(), "connection refused".to_string()));
    match e {
        Error::RPC(endpoint, message) => {
            assert_eq!(endpoint, "b");
            assert_eq!(message, "connection refused");
        }
        _ => panic!("a transport failure maps to the RPC variant"),
    }
}
