use sync_prims::rcu::{
    writer_wait_target, CellProtocol, InnerRcuNode, RcuNode, VersionedCell, PHASE_COMMITTING_WORD,
    PHASE_FINALIZED_WORD, PHASE_IDLE_WORD, PHASE_INITIATED_WORD,
};

#[test]
fn test_cell_read_returns_latest_update() {
    let mut cell = VersionedCell::new(5u64);
    assert_eq!(cell.read(), 5);
    assert!(cell.update(7).is_ok());
    assert_eq!(cell.read(), 7);
    assert_eq!(cell.read(), 7);
    for i in 0..50u64 {
        assert!(cell.update(i).is_ok());
        assert_eq!(cell.read(), i);
        assert_eq!(cell.read(), i);
    }
}

#[test]
fn test_protocol_latch_admits_exactly_one_revision() {
    let mut proto = CellProtocol::new();
    assert!(proto.try_publish());
    // the slot is taken: every racing attempt loses until the revision closes
    assert!(!proto.try_publish());
    assert!(!proto.try_publish());
    proto.complete();
    assert!(proto.try_publish());
}

#[test]
fn test_protocol_last_reader_hands_off() {
    let mut proto = CellProtocol::new();
    proto.reader_enter();
    proto.reader_enter();
    assert!(proto.try_publish());
    assert!(proto.writer_must_wait());
    // the first departure is not the last reader: no handoff
    assert!(!proto.reader_exit());
    assert!(proto.writer_must_wait());
    // the last departure performs the handoff and releases the writer
    assert!(proto.reader_exit());
    assert!(!proto.writer_must_wait());
    proto.complete();
    assert!(proto.try_publish());
}

#[test]
fn test_protocol_idle_reader_departs_without_handoff() {
    let mut proto = CellProtocol::new();
    proto.reader_enter();
    assert!(!proto.reader_exit());
}

#[test]
fn test_writer_wait_target_words() {
    assert_eq!(writer_wait_target(PHASE_INITIATED_WORD), Some(PHASE_INITIATED_WORD));
    assert_eq!(writer_wait_target(PHASE_COMMITTING_WORD), Some(PHASE_COMMITTING_WORD));
    assert_eq!(writer_wait_target(PHASE_IDLE_WORD), None);
    assert_eq!(writer_wait_target(PHASE_FINALIZED_WORD), None);
    assert_eq!(writer_wait_target(17), None);
}

#[test]
fn test_inner_node_copy_then_take() {
    let mut node = InnerRcuNode::new(9u32);
    assert_eq!(node.copy(), 9);
    assert_eq!(node.copy(), 9);
    assert_eq!(node.take(), Some(9));
    assert_eq!(node.take(), None);
}

#[test]
fn test_node_handles_alias_one_payload() {
    let node = RcuNode::new(42u64);
    let other = node.clone();
    assert_eq!(node.copy(), 42);
    assert_eq!(other.copy(), 42);
}
