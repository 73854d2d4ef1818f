use patzer::transposition::{Evaluation, TranspositionTable, TABLE_SLOTS};

#[test]
fn store_then_retrieve_returns_entry() {
    let mut table = TranspositionTable::new();
    table.store(42, 3, Evaluation::Exact(150));

    let entry = table.retrieve(42).expect("stored entry should be found");
    assert_eq!(entry.hash, 42);
    assert_eq!(entry.depth, 3);
    assert!(matches!(entry.eval, Evaluation::Exact(150)));
    assert!(entry.following_move.is_none());
}

#[test]
fn unseen_fingerprint_misses() {
    let mut table = TranspositionTable::new();
    table.store(42, 3, Evaluation::Exact(150));

    assert!(table.retrieve(43).is_none());
    assert!(table.retrieve(7).is_none());
}

#[test]
fn shallower_store_keeps_deeper_entry() {
    let mut table = TranspositionTable::new();
    table.store(42, 5, Evaluation::Exact(150));
    table.store(42, 3, Evaluation::Exact(-900));
    // an equal depth also favors the stored entry
    table.store(42, 5, Evaluation::Beta(0));

    let entry = table.retrieve(42).expect("deeper entry should remain");
    assert_eq!(entry.depth, 5);
    assert!(matches!(entry.eval, Evaluation::Exact(150)));
}

#[test]
fn deeper_store_replaces_entry() {
    let mut table = TranspositionTable::new();
    table.store(42, 3, Evaluation::Exact(150));
    table.store(42, 4, Evaluation::Alpha(-25));

    let entry = table.retrieve(42).expect("deeper entry should be found");
    assert_eq!(entry.depth, 4);
    assert!(matches!(entry.eval, Evaluation::Alpha(-25)));
}

#[test]
fn colliding_fingerprint_evicts_once_deeper() {
    let mut table = TranspositionTable::new();
    let slots = TABLE_SLOTS as u64;
    let first = 42u64;
    let second = 42u64 + slots;

    table.store(first, 3, Evaluation::Exact(150));
    // same slot, lower depth: the stored entry survives and the newcomer misses
    table.store(second, 2, Evaluation::Exact(999));
    assert!(table.retrieve(second).is_none());
    assert_eq!(table.retrieve(first).unwrap().depth, 3);

    // same slot, greater depth: the newcomer evicts the stored entry
    table.store(second, 7, Evaluation::Exact(999));
    assert!(table.retrieve(first).is_none());
    let entry = table.retrieve(second).expect("evicting entry should be found");
    assert_eq!(entry.hash, second);
    assert_eq!(entry.depth, 7);
}

#[test]
fn table_has_fixed_capacity() {
    let table = TranspositionTable::new();
    assert_eq!(table.len(), 1_000_000);
    assert!(!table.is_empty());

    let default_table = TranspositionTable::default();
    assert_eq!(default_table.len(), 1_000_000);
}
