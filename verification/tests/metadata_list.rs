use gpu_compute::glist::{GListIter, GListNode};
use gpu_compute::guard::MultiDropGuard;

#[test]
fn test_glist_next() {
    // Create a list with two elements
    let data1 = 2;
    let data2 = 1;
    let nodes = vec![
        GListNode { data: data1, next: Some(1) },
        GListNode { data: data2, next: None },
    ];

    // Test the next method
    let mut iter = GListIter::new(nodes, Some(0));
    assert_eq!(iter.next(), Some(data1));
    assert_eq!(iter.next(), Some(data2));
    assert_eq!(iter.next(), None);
}

#[test]
fn empty_walk_yields_nothing() {
    let mut iter: GListIter<i32> = GListIter::new(Vec::new(), None);
    assert_eq!(iter.next(), None);
    assert_eq!(iter.next(), None);
}

#[test]
fn walk_may_start_past_a_node() {
    let nodes = vec![
        GListNode { data: 10u64, next: Some(1) },
        GListNode { data: 20u64, next: Some(2) },
        GListNode { data: 30u64, next: None },
    ];
    let mut iter = GListIter::new(nodes, Some(1));
    assert_eq!(iter.next(), Some(20));
    assert_eq!(iter.next(), Some(30));
    assert_eq!(iter.next(), None);
}

#[test]
fn guard_counts_what_it_holds() {
    let mut guard: MultiDropGuard<String> = MultiDropGuard::default();
    assert_eq!(guard.count(), 0);
    guard.add("first".to_string());
    guard.add("second".to_string());
    assert_eq!(guard.count(), 2);
}
