use req_response_exporter::cache::{CachedItem, FifoCache, Kind};

fn ids(cache: &mut FifoCache) -> Vec<u64> {
    let mut ids = Vec::new();
    while let Some(item) = cache.reserve_head() {
        ids.push(item.id);
        assert!(cache.ack_and_pop(item.id));
    }
    ids
}

fn filled(max_items: usize, max_total_bytes: usize, sizes: &[usize]) -> FifoCache {
    let mut cache = FifoCache::new(max_items, max_total_bytes);
    for size in sizes {
        cache.push(Kind::Logs, vec![7; *size]);
    }
    cache
}

#[test]
fn kinds_have_words() {
    assert_eq!(Kind::Logs.as_str(), "logs");
    assert_eq!(Kind::Traces.as_str(), "traces");
}

#[test]
fn items_come_out_in_the_order_they_went_in() {
    let mut cache = FifoCache::new(10, 100);
    assert_eq!(cache.push(Kind::Logs, vec![1]), (1, 0));
    assert_eq!(cache.push(Kind::Traces, vec![2, 3]), (2, 0));
    assert_eq!(cache.push(Kind::Logs, vec![]), (3, 0));
    let head: CachedItem = cache.reserve_head().unwrap();
    assert_eq!((head.id, head.kind, head.bytes.clone()), (1, Kind::Logs, vec![1]));
    assert!(cache.ack_and_pop(1));
    let head = cache.reserve_head().unwrap();
    assert_eq!((head.id, head.kind, head.bytes), (2, Kind::Traces, vec![2, 3]));
    assert!(cache.ack_and_pop(2));
    assert_eq!(ids(&mut cache), vec![3]);
}

#[test]
fn one_item_is_in_flight_at_a_time() {
    let mut cache = filled(10, 100, &[1, 1]);
    assert_eq!(cache.reserve_head().unwrap().id, 1);
    assert!(cache.reserve_head().is_none());
    assert!(!cache.ack_and_pop(2));
    assert!(!cache.release_inflight(2));
    assert!(cache.reserve_head().is_none());
}

#[test]
fn released_item_comes_again() {
    let mut cache = filled(10, 100, &[3, 1]);
    let first = cache.reserve_head().unwrap();
    assert!(cache.release_inflight(first.id));
    assert!(!cache.release_inflight(first.id));
    let again = cache.reserve_head().unwrap();
    assert_eq!((again.id, again.bytes), (first.id, first.bytes));
}

#[test]
fn ack_needs_a_reservation_and_counts_once() {
    let mut cache = filled(10, 100, &[1]);
    assert!(!cache.ack_and_pop(1));
    assert!(cache.reserve_head().is_some());
    assert!(cache.ack_and_pop(1));
    assert!(!cache.ack_and_pop(1));
    assert!(FifoCache::new(1, 1).reserve_head().is_none());
}

#[test]
fn oldest_items_are_dropped_for_number() {
    let mut cache = filled(3, 100, &[1, 1, 1]);
    assert_eq!(cache.push(Kind::Logs, vec![0]), (4, 1));
    assert_eq!(ids(&mut cache), vec![2, 3, 4]);
}

#[test]
fn oldest_items_are_dropped_for_bytes() {
    let mut cache = filled(10, 10, &[4, 3, 3]);
    assert_eq!(cache.push(Kind::Logs, vec![0; 5]), (4, 2));
    assert_eq!(ids(&mut cache), vec![3, 4]);
}

#[test]
fn bytes_of_acknowledged_items_are_free_again() {
    let mut cache = filled(10, 10, &[6, 4]);
    assert!(cache.reserve_head().is_some());
    assert!(cache.ack_and_pop(1));
    assert_eq!(cache.push(Kind::Logs, vec![0; 6]), (3, 0));
    assert_eq!(ids(&mut cache), vec![2, 3]);
}

#[test]
fn oversized_item_is_turned_away() {
    let mut cache = FifoCache::new(10, 1);
    assert_eq!(cache.push(Kind::Logs, vec![0; 2]), (1, 1));
    assert_eq!(cache.len(), 0);

    let mut cache = filled(10, 10, &[4, 3]);
    assert_eq!(cache.push(Kind::Traces, vec![0; 11]), (3, 1));
    assert_eq!(cache.push(Kind::Logs, vec![0; 10]), (4, 2));
    assert_eq!(ids(&mut cache), vec![4]);
}

#[test]
fn limits_of_zero_leave_no_room() {
    let mut cache = FifoCache::new(0, 10);
    assert_eq!(cache.push(Kind::Logs, vec![]), (1, 1));
    assert_eq!(cache.len(), 0);
}

#[test]
fn newest_items_are_dropped_while_the_oldest_is_in_flight() {
    let mut cache = filled(3, 100, &[1, 1, 1]);
    assert_eq!(cache.reserve_head().unwrap().id, 1);
    assert_eq!(cache.push(Kind::Logs, vec![0]), (4, 1));
    assert!(cache.ack_and_pop(1));
    assert_eq!(ids(&mut cache), vec![2, 4]);
}

#[test]
fn item_in_flight_is_never_dropped() {
    let mut cache = filled(1, 100, &[1]);
    assert_eq!(cache.reserve_head().unwrap().id, 1);
    assert_eq!(cache.push(Kind::Logs, vec![0]), (2, 1));
    assert_eq!(cache.len(), 1);
    assert!(cache.ack_and_pop(1));
    assert_eq!(ids(&mut cache), vec![]);

    let mut cache = filled(9, 10, &[6, 2]);
    assert_eq!(cache.reserve_head().unwrap().id, 1);
    assert_eq!(cache.push(Kind::Logs, vec![0; 5]), (3, 1));
    assert_eq!(cache.push(Kind::Logs, vec![0; 4]), (4, 1));
    assert!(cache.ack_and_pop(1));
    assert_eq!(ids(&mut cache), vec![4]);
}

#[test]
fn lost_items_are_named() {
    let mut cache = filled(3, 10, &[4, 3, 3]);
    assert_eq!(cache.push_item(Kind::Logs, vec![0; 5]).lost, vec![1, 2]);
    assert_eq!(cache.push_item(Kind::Logs, vec![0; 11]).lost, vec![5]);
    let mut cache = filled(3, 10, &[4, 3, 3]);
    assert!(cache.reserve_head().is_some());
    let pushed = cache.push_item(Kind::Logs, vec![0; 6]);
    assert_eq!((pushed.id, pushed.lost), (4, vec![3, 2]));
    assert_eq!(cache.len(), 2);
}

#[test]
fn numbers_are_not_used_up() {
    assert!(filled(2, 2, &[1, 1, 1]).can_number());
}
