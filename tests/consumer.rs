use sequence_manipulators::consumer::{
    Consumer, ConsumerFrom, ConsumerFromMany1, ConsumerTo, ConsumerToMany1,
};
use sequence_manipulators::sink::{BoundedSink, Full};

#[test]
fn bulk_consume_takes_what_fits() {
    let mut sink: BoundedSink<u32> = BoundedSink::new(3);
    let mut batch: Vec<u32> = vec![10, 20, 30, 40];
    let taken = sink.consume_from_many1(&mut batch);
    assert_eq!(taken, Ok(3));
    assert_eq!(sink.items(), &vec![10, 20, 30]);
    assert_eq!(batch, vec![40]);
}

#[test]
fn bulk_consume_takes_whole_short_batch() {
    let mut sink: BoundedSink<u32> = BoundedSink::new(5);
    let mut batch: Vec<u32> = vec![1, 2];
    assert_eq!(sink.consume_from_many1(&mut batch), Ok(2));
    assert!(batch.is_empty());
    assert_eq!(sink.items(), &vec![1, 2]);
}

#[test]
fn bulk_consume_into_full_sink_fails_without_effect() {
    let mut sink: BoundedSink<u32> = BoundedSink::new(1);
    assert_eq!(sink.consume(9), Ok(()));
    let before = sink.clone();
    let mut batch: Vec<u32> = vec![1, 2];
    assert_eq!(sink.consume_from_many1(&mut batch), Err(Full));
    assert_eq!(sink, before);
    assert_eq!(batch, vec![1, 2]);
}

#[test]
fn bulk_consume_then_flush() {
    let mut sink: BoundedSink<u32> = BoundedSink::new(2);
    let mut batch: Vec<u32> = vec![4, 5, 6];
    assert_eq!(sink.consume_from_many1_flush(&mut batch), Ok(2));
    assert_eq!(batch, vec![6]);
    assert_eq!(sink.items(), &vec![4, 5]);
}

#[test]
fn consume_until_full() {
    let mut sink: BoundedSink<&str> = BoundedSink::new(2);
    assert_eq!(sink.capacity(), 2);
    assert_eq!(sink.consume("a"), Ok(()));
    assert_eq!(sink.consume_flush("b"), Ok(()));
    let before = sink.clone();
    assert_eq!(sink.consume("c"), Err(Full));
    assert_eq!(sink, before);
    assert_eq!(sink.flush(), Ok(()));
    assert_eq!(sink.close(()), Ok(()));
    assert_eq!(sink.items(), &vec!["a", "b"]);
}

#[test]
fn consume_from_empties_the_slot() {
    let mut sink: BoundedSink<u32> = BoundedSink::new(1);
    let mut place: Option<u32> = Some(3);
    assert_eq!(sink.consume_from(&mut place), Ok(()));
    assert_eq!(place, None);
    let mut second: Option<u32> = Some(4);
    assert_eq!(sink.consume_from_flush(&mut second), Err(Full));
    assert_eq!(second, None);
    assert_eq!(sink.items(), &vec![3]);
}

#[test]
fn reserve_without_room_changes_nothing() {
    let mut sink: BoundedSink<u32> = BoundedSink::new(0);
    let before = sink.clone();
    assert!(!sink.consume_to());
    assert_eq!(sink, before);
    assert!(!sink.has_slot());
}

#[test]
fn reserve_fill_commit_equals_consume() {
    let mut committed: BoundedSink<u32> = BoundedSink::new(2);
    let mut direct: BoundedSink<u32> = BoundedSink::new(2);
    assert!(committed.consume_to());
    assert!(committed.has_slot());
    committed.fill_slot(8);
    assert_eq!(committed.do_consume_to(), Ok(()));
    assert_eq!(direct.consume(8), Ok(()));
    assert!(!committed.has_slot());
    assert_eq!(committed, direct);
    assert_eq!(committed.items(), &vec![8]);
}

#[test]
fn commit_without_room_fails_and_keeps_slot() {
    let mut sink: BoundedSink<u32> = BoundedSink::new(1);
    assert!(sink.consume_to());
    sink.fill_slot(1);
    assert_eq!(sink.consume(2), Ok(()));
    let before = sink.clone();
    assert_eq!(sink.do_consume_to_flush(), Err(Full));
    assert_eq!(sink, before);
    assert!(sink.has_slot());
    assert_eq!(sink.items(), &vec![2]);
}

#[test]
fn batch_reserve_is_bounded_by_room_and_max() {
    let mut sink: BoundedSink<u32> = BoundedSink::new(3);
    assert_eq!(sink.consume_to_many1(5), Some(3));
    let mut other: BoundedSink<u32> = BoundedSink::new(3);
    assert_eq!(other.consume_to_many1(2), Some(2));
}

#[test]
fn batch_reserve_without_room_changes_nothing() {
    let mut sink: BoundedSink<u32> = BoundedSink::new(1);
    assert_eq!(sink.consume(1), Ok(()));
    let before = sink.clone();
    assert_eq!(sink.consume_to_many1(4), None);
    assert_eq!(sink, before);
}

#[test]
fn batch_commit_counts_filled_leading_slots() {
    let mut sink: BoundedSink<u32> = BoundedSink::new(4);
    assert_eq!(sink.consume_to_many1(3), Some(3));
    sink.fill_slot_at(0, 7);
    sink.fill_slot_at(1, 8);
    assert_eq!(sink.do_consume_to_many1(), Ok(2));
    assert_eq!(sink.items(), &vec![7, 8]);
    assert_eq!(sink.consume_to_many1(3), Some(2));
    sink.fill_slot_at(0, 9);
    sink.fill_slot_at(1, 10);
    assert_eq!(sink.do_consume_to_many1_flush(), Ok(2));
    assert_eq!(sink.items(), &vec![7, 8, 9, 10]);
}

#[test]
fn batch_commit_into_full_sink_fails_without_effect() {
    let mut sink: BoundedSink<u32> = BoundedSink::new(1);
    assert_eq!(sink.consume_to_many1(1), Some(1));
    sink.fill_slot_at(0, 5);
    assert_eq!(sink.consume(6), Ok(()));
    let before = sink.clone();
    assert_eq!(sink.do_consume_to_many1(), Err(Full));
    assert_eq!(sink, before);
}

#[test]
fn bulk_consume_then_flush_takes_what_fits() {
    let mut sink: BoundedSink<u32> = BoundedSink::new(3);
    let mut batch: Vec<u32> = vec![1, 2, 3, 4];
    assert_eq!(sink.consume_from_many1_flush(&mut batch), Ok(3));
    assert_eq!(batch, vec![4]);
    assert_eq!(sink.items(), &vec![1, 2, 3]);
}

#[test]
fn batch_commit_is_bounded_by_room() {
    let mut sink: BoundedSink<u32> = BoundedSink::new(4);
    assert_eq!(sink.consume_to_many1(3), Some(3));
    sink.fill_slot_at(0, 1);
    sink.fill_slot_at(1, 2);
    sink.fill_slot_at(2, 3);
    assert_eq!(sink.consume(9), Ok(()));
    assert_eq!(sink.consume(9), Ok(()));
    assert_eq!(sink.do_consume_to_many1(), Ok(2));
    assert_eq!(sink.items(), &vec![9, 9, 1, 2]);
}

#[test]
fn batch_commit_flush_into_full_sink_fails_without_effect() {
    let mut sink: BoundedSink<u32> = BoundedSink::new(1);
    assert_eq!(sink.consume_to_many1(2), Some(1));
    sink.fill_slot_at(0, 3);
    assert_eq!(sink.consume(4), Ok(()));
    let before = sink.clone();
    assert_eq!(sink.do_consume_to_many1_flush(), Err(Full));
    assert_eq!(sink, before);
}

#[test]
fn reserve_fill_commit_flush_equals_consume_flush() {
    let mut committed: BoundedSink<u32> = BoundedSink::new(1);
    let mut direct: BoundedSink<u32> = BoundedSink::new(1);
    assert!(committed.consume_to());
    committed.fill_slot(5);
    assert_eq!(committed.do_consume_to_flush(), Ok(()));
    assert_eq!(direct.consume_flush(5), Ok(()));
    assert_eq!(committed, direct);
}
