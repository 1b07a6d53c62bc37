use fuzz_oracles::corpus::CorpusStore;

fn ids(c: &CorpusStore) -> Vec<u64> {
    (0..c.len()).map(|i| c.get(i).id).collect()
}

#[test]
fn insert_below_threshold_never_prunes() {
    let mut c = CorpusStore::new(4, 2, 2);
    for v in 0..4u64 {
        let id = c.insert(v);
        assert_eq!(id, v);
        assert_eq!(c.len(), (v + 1) as usize);
    }
    assert_eq!(ids(&c), vec![0, 1, 2, 3]);
}

#[test]
fn insert_at_threshold_prunes_to_target() {
    let mut c = CorpusStore::new(4, 2, 0);
    for v in [5u64, 1, 9, 3] {
        c.insert(v);
    }
    let id = c.insert(7);
    assert_eq!(id, 4);
    assert_eq!(c.len(), 2);
    assert_eq!(ids(&c), vec![2, 4]);
    assert_eq!(c.get(0).votes, 9);
    assert_eq!(c.get(1).votes, 7);
}

#[test]
fn prune_amount_larger_than_threshold_empties() {
    let mut c = CorpusStore::new(2, 5, 0);
    c.insert(1);
    c.insert(2);
    c.insert(3);
    assert_eq!(c.len(), 0);
}

#[test]
fn prune_ties_keep_earlier_entries() {
    let mut c = CorpusStore::new(3, 1, 0);
    for _ in 0..4 {
        c.insert(3);
    }
    assert_eq!(ids(&c), vec![0, 1]);
}

#[test]
fn unvisited_entries_score_half() {
    let c = CorpusStore::new(10, 5, 2);
    let mut d = CorpusStore::new(10, 5, 2);
    d.insert(9);
    let e = d.get(0);
    assert_eq!(e.visit_count, 0);
    assert_eq!(c.score(&e), 4);
    let visited = fuzz_oracles::corpus::CorpusEntry { visit_count: 2, ..e };
    assert_eq!(c.score(&visited), 9);
}

#[test]
fn votes_saturate_and_report_missing_ids() {
    let mut c = CorpusStore::new(10, 5, 0);
    let id = c.insert(3);
    assert!(c.vote(id, 4));
    assert_eq!(c.get(0).votes, 7);
    assert!(c.vote(id, u64::MAX));
    assert_eq!(c.get(0).votes, u64::MAX);
    assert!(!c.vote(id + 1, 1));
}

#[test]
fn down_weighted_fresh_entry_is_evicted_first() {
    let mut c = CorpusStore::new(2, 1, 1);
    c.insert(6);
    c.insert(4);
    assert!(c.visit(1));
    assert!(!c.visit(9));
    assert_eq!(c.get(1).visit_count, 1);
    c.insert(5);
    assert_eq!(ids(&c), vec![1]);
}
