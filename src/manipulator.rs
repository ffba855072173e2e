use vstd::prelude::*;

verus! {

/// The base of the bidirectional capabilities: an item type, a signal for
/// internal state changes, and an abstract model of an addressable sequence
/// with one cursor.
pub trait SequenceManipulator: Sized {
    /// The type of the items in the sequence.
    type Item;

    /// What the manipulator reports on an internal state change. A method that
    /// reports one has had no effect.
    type In;

    /// The cursor's position.
    spec fn cursor(&self) -> int;

    /// The item at a position of the sequence.
    spec fn at(&self, pos: int) -> Self::Item;
}

/// The sequence is the same at every position.
pub open spec fn same_items<M: SequenceManipulator>(a: M, b: M) -> bool {
    forall|pos: int| #[trigger] a.at(pos) == b.at(pos)
}

/// `b` holds `items` from position `from` on and agrees with `a` elsewhere.
pub open spec fn written_at<M: SequenceManipulator>(
    a: M,
    b: M,
    from: int,
    items: Seq<M::Item>,
) -> bool {
    &&& forall|i: int| 0 <= i < items.len() ==> #[trigger] b.at(from + i) == items[i]
    &&& forall|pos: int|
        !(from <= pos < from + items.len()) ==> #[trigger] b.at(pos) == a.at(pos)
}

/// Steps the cursor forward.
pub trait Next: SequenceManipulator {
    /// Moves the cursor forward by one.
    fn next(&mut self) -> (r: Result<(), Self::In>)
        ensures
            r is Ok ==> final(self).cursor() == old(self).cursor() + 1,
            r is Ok ==> same_items(*old(self), *final(self)),
            r is Err ==> *final(self) == *old(self),
    ;

    /// Moves the cursor forward by between one and `amount` positions and
    /// returns how far it went. By default it moves by one.
    fn next_many1(&mut self, amount: usize) -> (r: Result<usize, Self::In>)
        requires
            amount >= 1,
        ensures
            r is Ok ==> 1 <= r->Ok_0 <= amount,
            r is Ok ==> final(self).cursor() == old(self).cursor() + r->Ok_0,
            r is Ok ==> same_items(*old(self), *final(self)),
            r is Err ==> *final(self) == *old(self),
        default_ensures
            r is Ok ==> r->Ok_0 == 1,
    {
        self.next()?;
        Ok(1)
    }
}

/// Steps the cursor backward.
pub trait Prev: SequenceManipulator {
    /// Moves the cursor backward by one.
    fn prev(&mut self) -> (r: Result<(), Self::In>)
        ensures
            r is Ok ==> final(self).cursor() == old(self).cursor() - 1,
            r is Ok ==> same_items(*old(self), *final(self)),
            r is Err ==> *final(self) == *old(self),
    ;

    /// Moves the cursor backward by between one and `amount` positions and
    /// returns how far it went. By default it moves by one.
    fn prev_many1(&mut self, amount: usize) -> (r: Result<usize, Self::In>)
        requires
            amount >= 1,
        ensures
            r is Ok ==> 1 <= r->Ok_0 <= amount,
            r is Ok ==> final(self).cursor() == old(self).cursor() - r->Ok_0,
            r is Ok ==> same_items(*old(self), *final(self)),
            r is Err ==> *final(self) == *old(self),
        default_ensures
            r is Ok ==> r->Ok_0 == 1,
    {
        self.prev()?;
        Ok(1)
    }
}

/// Reads the item under the cursor by value.
pub trait Read: SequenceManipulator {
    fn read(&mut self) -> (r: Result<Self::Item, Self::In>)
        ensures
            r is Ok ==> r->Ok_0 == old(self).at(old(self).cursor()),
            r is Ok ==> final(self).cursor() == old(self).cursor(),
            r is Err ==> *final(self) == *old(self),
    ;
}

/// Writes an item by value under the cursor.
pub trait Write: SequenceManipulator {
    fn write(&mut self, item: Self::Item) -> (r: Result<(), Self::In>)
        ensures
            r is Ok ==> final(self).cursor() == old(self).cursor(),
            r is Ok ==> written_at(*old(self), *final(self), old(self).cursor(), seq![item]),
            r is Err ==> *final(self) == *old(self),
    ;
}

/// Writes the item behind a reference under the cursor. The reference lives
/// at least as long as the borrow of the manipulator, which may keep it.
pub trait WriteRefInLong: SequenceManipulator {
    fn write_ref_in_long<'s, 'i: 's>(&'s mut self, item: &'i Self::Item) -> (r: Result<
        (),
        Self::In,
    >)
        ensures
            r is Ok ==> final(self).cursor() == old(self).cursor(),
            r is Ok ==> written_at(*old(self), *final(self), old(self).cursor(), seq![*item]),
            r is Err ==> *final(self) == *old(self),
    ;
}

/// Writes the item behind a reference that is valid for the call alone: the
/// manipulator cannot keep it.
pub trait WriteRefIn: WriteRefInLong {
    fn write_ref_in(&mut self, item: &Self::Item) -> (r: Result<(), Self::In>)
        ensures
            r is Ok ==> final(self).cursor() == old(self).cursor(),
            r is Ok ==> written_at(*old(self), *final(self), old(self).cursor(), seq![*item]),
            r is Err ==> *final(self) == *old(self),
    ;
}

/// Reads the item under the cursor into a place that outlives the borrow of
/// the manipulator.
pub trait ReadRefInLong: SequenceManipulator {
    fn read_ref_in_long<'s, 'i: 's>(&'s mut self, item: &'i mut Self::Item) -> (r: Result<
        (),
        Self::In,
    >)
        ensures
            r is Ok ==> *final(item) == old(self).at(old(self).cursor()),
            r is Ok ==> final(self).cursor() == old(self).cursor(),
            r is Err ==> *final(self) == *old(self) && *final(item) == *old(item),
    ;
}

/// Reads the item under the cursor into a place borrowed for the call alone.
pub trait ReadRefIn: ReadRefInLong {
    fn read_ref_in(&mut self, item: &mut Self::Item) -> (r: Result<(), Self::In>)
        ensures
            r is Ok ==> *final(item) == old(self).at(old(self).cursor()),
            r is Ok ==> final(self).cursor() == old(self).cursor(),
            r is Err ==> *final(self) == *old(self) && *final(item) == *old(item),
    ;
}

/// Hands out a shared reference to the item under the cursor, valid as long
/// as the borrow of the manipulator.
pub trait ReadRefOutLong: SequenceManipulator {
    fn read_ref_out_long(&mut self) -> (r: Result<&Self::Item, Self::In>)
        ensures
            r is Ok ==> *r->Ok_0 == old(self).at(old(self).cursor()),
            r is Ok ==> final(self).cursor() == old(self).cursor(),
            r is Err ==> *final(self) == *old(self),
    ;
}

/// Hands out a mutable reference to the place under the cursor, valid as long
/// as the borrow of the manipulator; what the caller leaves there is what the
/// sequence holds at that position afterwards.
pub trait WriteRefOutLong: SequenceManipulator {
    fn write_ref_out_long(&mut self) -> (r: Result<&mut Self::Item, Self::In>)
        ensures
            r is Ok ==> *r->Ok_0 == old(self).at(old(self).cursor()),
            r is Ok ==> final(self).cursor() == old(self).cursor(),
            r is Ok ==> written_at(
                *old(self),
                *final(self),
                old(self).cursor(),
                seq![*final(r->Ok_0)],
            ),
            r is Err ==> *final(self) == *old(self),
    ;
}

/// A buffering hint for a manipulator moving backward.
pub trait FlushPrev: SequenceManipulator {
    fn flush_prev(&self) -> (r: Result<(), Self::In>);
}

/// A buffering hint for a manipulator moving forward.
pub trait FlushNext: SequenceManipulator {
    fn flush_next(&self) -> (r: Result<(), Self::In>);
}

/// A refill hint for a manipulator moving backward.
pub trait SlurpPrev: SequenceManipulator {
    fn slurp_prev(&self) -> (r: Result<(), Self::In>);
}

/// A refill hint for a manipulator moving forward.
pub trait SlurpNext: SequenceManipulator {
    fn slurp_next(&self) -> (r: Result<(), Self::In>);
}

/// Writes a leading run of a non-empty batch from the cursor on; the batch
/// outlives the borrow of the manipulator.
pub trait WriteRefInLongMany1: WriteRefInLong {
    fn write_ref_in_long_many1<'s, 'i: 's>(&'s mut self, items: &'i Vec<Self::Item>) -> (r:
        Result<usize, Self::In>)
        requires
            items.len() >= 1,
        ensures
            r is Ok ==> 1 <= r->Ok_0 <= items.len(),
            r is Ok ==> final(self).cursor() == old(self).cursor(),
            r is Ok ==> written_at(
                *old(self),
                *final(self),
                old(self).cursor(),
                items@.take(r->Ok_0 as int),
            ),
            r is Err ==> *final(self) == *old(self),
    ;
}

/// Writes a leading run of a non-empty batch borrowed for the call alone.
pub trait WriteRefInMany1: WriteRefInLongMany1 {
    fn write_ref_in_many1(&mut self, items: &Vec<Self::Item>) -> (r: Result<usize, Self::In>)
        requires
            items.len() >= 1,
        ensures
            r is Ok ==> 1 <= r->Ok_0 <= items.len(),
            r is Ok ==> final(self).cursor() == old(self).cursor(),
            r is Ok ==> written_at(
                *old(self),
                *final(self),
                old(self).cursor(),
                items@.take(r->Ok_0 as int),
            ),
            r is Err ==> *final(self) == *old(self),
    ;
}

/// The items `b` holds in its first `n` places are those of `m` from the
/// cursor on, and the rest of `b` is as `a` was.
pub open spec fn read_into<M: SequenceManipulator>(
    m: M,
    a: Seq<M::Item>,
    b: Seq<M::Item>,
    n: int,
) -> bool {
    &&& b.len() == a.len()
    &&& forall|i: int| 0 <= i < n ==> #[trigger] b[i] == m.at(m.cursor() + i)
    &&& forall|i: int| n <= i < a.len() ==> #[trigger] b[i] == a[i]
}

/// Reads items from the cursor on into the leading places of a non-empty
/// batch that outlives the borrow of the manipulator.
pub trait ReadRefInLongMany1: ReadRefInLong {
    fn read_ref_in_long_many1<'s, 'i: 's>(&'s mut self, items: &'i mut Vec<Self::Item>) -> (r:
        Result<usize, Self::In>)
        requires
            old(items).len() >= 1,
        ensures
            r is Ok ==> 1 <= r->Ok_0 <= old(items).len(),
            r is Ok ==> read_into(*old(self), old(items)@, final(items)@, r->Ok_0 as int),
            r is Ok ==> final(self).cursor() == old(self).cursor(),
            r is Err ==> *final(self) == *old(self) && *final(items) == *old(items),
    ;
}

/// Reads items into the leading places of a batch borrowed for the call alone.
pub trait ReadRefInMany1: ReadRefInLongMany1 {
    fn read_ref_in_many1(&mut self, items: &mut Vec<Self::Item>) -> (r: Result<usize, Self::In>)
        requires
            old(items).len() >= 1,
        ensures
            r is Ok ==> 1 <= r->Ok_0 <= old(items).len(),
            r is Ok ==> read_into(*old(self), old(items)@, final(items)@, r->Ok_0 as int),
            r is Ok ==> final(self).cursor() == old(self).cursor(),
            r is Err ==> *final(self) == *old(self) && *final(items) == *old(items),
    ;
}

/// Hands out a shared reference to a non-empty run of the items from the
/// cursor on, valid as long as the borrow of the manipulator.
pub trait ReadRefOutLongMany1: ReadRefOutLong {
    fn read_ref_out_long_many1(&mut self) -> (r: Result<&Vec<Self::Item>, Self::In>)
        ensures
            r is Ok ==> r->Ok_0.len() >= 1,
            r is Ok ==> forall|i: int|
                0 <= i < r->Ok_0.len() ==> #[trigger] r->Ok_0@[i] == old(self).at(
                    old(self).cursor() + i,
                ),
            r is Ok ==> final(self).cursor() == old(self).cursor(),
            r is Err ==> *final(self) == *old(self),
    ;
}

/// Hands out a mutable reference to a non-empty run of the places from the
/// cursor on, valid as long as the borrow of the manipulator; what the caller
/// leaves in the run is what the sequence holds there afterwards.
pub trait WriteRefOutLongMany1: WriteRefOutLong {
    fn write_ref_out_long_many1(&mut self) -> (r: Result<&mut Vec<Self::Item>, Self::In>)
        ensures
            r is Ok ==> (*r->Ok_0).len() >= 1,
            r is Ok ==> forall|i: int|
                0 <= i < (*r->Ok_0).len() ==> #[trigger] (*r->Ok_0)@[i] == old(self).at(
                    old(self).cursor() + i,
                ),
            r is Ok ==> final(self).cursor() == old(self).cursor(),
            r is Ok ==> written_at(
                *old(self),
                *final(self),
                old(self).cursor(),
                (*final(r->Ok_0))@,
            ),
            r is Err ==> *final(self) == *old(self),
    ;
}

/// Ends the reading half of a duplex manipulator, with a reason of its own.
pub trait StopRead: SequenceManipulator {
    type StopR;

    fn stop_read(&self, reason: Self::StopR) -> (r: Result<(), Self::In>);
}

/// Ends the writing half of a duplex manipulator, with a reason of its own.
pub trait StopWrite: SequenceManipulator {
    type StopW;

    fn stop_write(&self, reason: Self::StopW) -> (r: Result<(), Self::In>);
}

} // verus!
