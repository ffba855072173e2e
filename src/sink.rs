use vstd::prelude::*;

use crate::consumer::{
    filled_prefix, Consumer, ConsumerFrom, ConsumerFromMany1, ConsumerTo, ConsumerToMany1,
};

verus! {

/// Reported by a `BoundedSink` that has no room left.
#[derive(Debug, Clone, Copy, PartialEq, Eq)]
pub struct Full;

/// An in-memory consumer that accepts at most `capacity` items and keeps
/// them in order.
#[derive(Debug, Clone, PartialEq, Eq)]
pub struct BoundedSink<T> {
    items: Vec<T>,
    capacity: usize,
    slot: Option<Option<T>>,
    batch: Option<Vec<Option<T>>>,
}

impl<T> BoundedSink<T> {
    /// The most items the sink accepts.
    pub closed spec fn limit(&self) -> nat {
        self.capacity as nat
    }

    /// How many more items the sink accepts.
    pub open spec fn room(&self) -> int {
        self.limit() - self.consumed().len()
    }

    /// An empty sink that accepts up to `capacity` items.
    pub fn new(capacity: usize) -> (r: Self)
        ensures
            r.consumed() == Seq::<T>::empty(),
            r.limit() == capacity,
            r.slot() is None,
            r.slots() is None,
    {
        BoundedSink { items: Vec::new(), capacity, slot: None, batch: None }
    }

    /// The most items the sink accepts.
    pub fn capacity(&self) -> (r: usize)
        ensures
            r == self.limit(),
    {
        self.capacity
    }

    /// The items accepted so far, in order.
    pub fn items(&self) -> (r: &Vec<T>)
        ensures
            r@ == self.consumed(),
    {
        &self.items
    }

    /// Whether a slot is reserved, filled or not.
    pub fn has_slot(&self) -> (r: bool)
        ensures
            r == self.slot() is Some,
    {
        self.slot.is_some()
    }
}

impl<T> Consumer for BoundedSink<T> {
    type Item = T;

    /// Closing carries no information.
    type Ex = ();

    type In = Full;

    closed spec fn consumed(&self) -> Seq<T> {
        self.items@
    }

    /// Accepts the item while there is room.
    fn consume(&mut self, item: T) -> (r: Result<(), Full>)
        ensures
            r is Ok <==> old(self).room() > 0,
            final(self).limit() == old(self).limit(),
            final(self).slot() == old(self).slot(),
            final(self).slots() == old(self).slots(),
    {
        if self.items.len() < self.capacity {
            self.items.push(item);
            Ok(())
        } else {
            Err(Full)
        }
    }

    /// Nothing is buffered: always succeeds and changes nothing.
    fn flush(&mut self) -> (r: Result<(), Full>)
        ensures
            r is Ok,
            *final(self) == *old(self),
    {
        Ok(())
    }

    /// Nothing to release: always succeeds and changes nothing.
    fn close(&mut self, ex: ()) -> (r: Result<(), Full>)
        ensures
            r is Ok,
            *final(self) == *old(self),
    {
        Ok(())
    }

    /// Accepts the item while there is room; the flush always succeeds.
    fn consume_flush(&mut self, item: T) -> (r: Result<(), Full>)
        ensures
            r is Ok <==> old(self).room() > 0,
            r is Err ==> *final(self) == *old(self),
            final(self).limit() == old(self).limit(),
            final(self).slot() == old(self).slot(),
            final(self).slots() == old(self).slots(),
    {
        match self.consume(item) {
            Err(e) => Err(e),
            Ok(()) => self.flush(),
        }
    }
}

impl<T> ConsumerFrom for BoundedSink<T> {
    /// Accepts the item from the slot while there is room.
    fn consume_from(&mut self, from: &mut Option<T>) -> (r: Result<(), Full>)
        ensures
            r is Ok <==> old(self).room() > 0,
            final(self).limit() == old(self).limit(),
            final(self).slot() == old(self).slot(),
            final(self).slots() == old(self).slots(),
    {
        let item = from.take().unwrap();
        self.consume(item)
    }

    /// Accepts the item from the slot while there is room; the flush always
    /// succeeds.
    fn consume_from_flush(&mut self, from: &mut Option<T>) -> (r: Result<(), Full>)
        ensures
            r is Ok <==> old(self).room() > 0,
            r is Err ==> *final(self) == *old(self),
            final(self).limit() == old(self).limit(),
            final(self).slot() == old(self).slot(),
            final(self).slots() == old(self).slots(),
    {
        match self.consume_from(from) {
            Err(e) => Err(e),
            Ok(()) => self.flush(),
        }
    }
}

impl<T> ConsumerFromMany1 for BoundedSink<T> {
    /// Takes as many leading items as there is room for, and fails only when
    /// the sink is full.
    fn consume_from_many1(&mut self, from: &mut Vec<T>) -> (r: Result<usize, Full>)
        ensures
            r is Ok <==> old(self).room() > 0,
            r is Ok ==> r->Ok_0 == if old(self).room() < old(from).len() {
                old(self).room()
            } else {
                old(from).len() as int
            },
            final(self).limit() == old(self).limit(),
            final(self).slot() == old(self).slot(),
            final(self).slots() == old(self).slots(),
    {
        if self.items.len() >= self.capacity {
            return Err(Full);
        }
        let room: usize = self.capacity - self.items.len();
        let n: usize = if room < from.len() { room } else { from.len() };
        let ghost from0 = from@;
        let ghost items0 = self.items@;
        let mut i: usize = 0;
        while i < n
            invariant
                0 <= i <= n,
                n <= from0.len(),
                from@ == from0.skip(i as int),
                self.items@ == items0 + from0.take(i as int),
                self.capacity == old(self).capacity,
                self.slot == old(self).slot,
                self.batch == old(self).batch,
            decreases n - i,
        {
            let item = from.remove(0);
            self.items.push(item);
            i = i + 1;
            assert(from@ =~= from0.skip(i as int));
            assert(self.items@ =~= items0 + from0.take(i as int));
        }
        Ok(n)
    }

    /// Takes as many leading items as there is room for; the flush always
    /// succeeds.
    fn consume_from_many1_flush(&mut self, from: &mut Vec<T>) -> (r: Result<usize, Full>)
        ensures
            r is Ok <==> old(self).room() > 0,
            r is Ok ==> r->Ok_0 == if old(self).room() < old(from).len() {
                old(self).room()
            } else {
                old(from).len() as int
            },
            r is Ok ==> final(self).consumed() == old(self).consumed() + old(from)@.take(
                r->Ok_0 as int,
            ),
            r is Ok ==> final(from)@ == old(from)@.skip(r->Ok_0 as int),
            r is Err ==> *final(self) == *old(self) && *final(from) == *old(from),
            final(self).limit() == old(self).limit(),
            final(self).slot() == old(self).slot(),
            final(self).slots() == old(self).slots(),
    {
        let ghost from0 = from@;
        let ghost seen0 = self.consumed();
        match self.consume_from_many1(from) {
            Err(e) => {
                assert(from0.skip(0) =~= from0);
                assert(seen0 + from0.take(0) =~= seen0);
                Err(e)
            },
            Ok(n) => {
                let flushed = self.flush();
                assert(flushed is Ok);
                Ok(n)
            },
        }
    }
}

impl<T> ConsumerTo for BoundedSink<T> {
    closed spec fn slot(&self) -> Option<Option<T>> {
        self.slot
    }

    /// Reserves a slot while there is room.
    fn consume_to(&mut self) -> (r: bool)
        ensures
            r <==> old(self).room() > 0,
            final(self).limit() == old(self).limit(),
    {
        if self.items.len() < self.capacity {
            self.slot = Some(None);
            true
        } else {
            false
        }
    }

    fn fill_slot(&mut self, item: T)
        ensures
            final(self).limit() == old(self).limit(),
    {
        self.slot = Some(Some(item));
    }

    /// Commits the filled slot while there is room.
    fn do_consume_to(&mut self) -> (r: Result<(), Full>)
        ensures
            r is Ok <==> old(self).room() > 0,
            final(self).limit() == old(self).limit(),
    {
        if self.items.len() >= self.capacity {
            return Err(Full);
        }
        match self.slot.take() {
            Some(Some(item)) => {
                self.items.push(item);
                Ok(())
            },
            _ => Err(Full),
        }
    }

    /// Commits the filled slot while there is room; the flush always succeeds.
    fn do_consume_to_flush(&mut self) -> (r: Result<(), Full>)
        ensures
            r is Ok <==> old(self).room() > 0,
            r is Ok ==> final(self).slot() is None,
            r is Err ==> *final(self) == *old(self),
            final(self).limit() == old(self).limit(),
    {
        match self.do_consume_to() {
            Err(e) => Err(e),
            Ok(()) => self.flush(),
        }
    }
}

impl<T> ConsumerToMany1 for BoundedSink<T> {
    closed spec fn slots(&self) -> Option<Seq<Option<T>>> {
        match self.batch {
            Some(v) => Some(v@),
            None => None,
        }
    }

    /// Reserves as many slots as there is room for, up to `max`.
    fn consume_to_many1(&mut self, max: usize) -> (r: Option<usize>)
        ensures
            r is Some <==> old(self).room() > 0,
            r is Some ==> r->Some_0 == if old(self).room() < max {
                old(self).room()
            } else {
                max as int
            },
            final(self).limit() == old(self).limit(),
    {
        if self.items.len() >= self.capacity {
            return None;
        }
        let room: usize = self.capacity - self.items.len();
        let n: usize = if room < max { room } else { max };
        let mut slots: Vec<Option<T>> = Vec::new();
        let mut i: usize = 0;
        while i < n
            invariant
                0 <= i <= n,
                slots@ == Seq::new(i as nat, |j: int| None::<T>),
            decreases n - i,
        {
            slots.push(None);
            i = i + 1;
            assert(slots@ =~= Seq::new(i as nat, |j: int| None::<T>));
        }
        self.batch = Some(slots);
        Some(n)
    }

    fn fill_slot_at(&mut self, index: usize, item: T)
        ensures
            final(self).limit() == old(self).limit(),
    {
        let mut slots = self.batch.take().unwrap();
        slots.set(index, Some(item));
        self.batch = Some(slots);
    }

    /// Commits the filled leading slots, as many as there is room for, and
    /// releases the rest of the reservation.
    fn do_consume_to_many1(&mut self) -> (r: Result<usize, Full>)
        ensures
            r is Ok <==> old(self).room() > 0,
            r is Ok ==> r->Ok_0 <= old(self).room(),
            r is Ok ==> r->Ok_0 == old(self).room() || r->Ok_0 == old(self).slots()->Some_0.len()
                || old(self).slots()->Some_0[r->Ok_0 as int] is None,
            final(self).limit() == old(self).limit(),
    {
        if self.items.len() >= self.capacity {
            return Err(Full);
        }
        let room: usize = self.capacity - self.items.len();
        let mut slots = self.batch.take().unwrap();
        let ghost slots0 = slots@;
        let ghost items0 = self.items@;
        let mut filled: usize = 0;
        while filled < slots.len() && filled < room && slots[filled].is_some()
            invariant
                slots@ == slots0,
                0 <= filled <= slots0.len(),
                filled <= room,
                forall|j: int| 0 <= j < filled ==> (#[trigger] slots0[j]) is Some,
            decreases slots0.len() - filled,
        {
            filled = filled + 1;
        }
        let mut i: usize = 0;
        while i < filled
            invariant
                0 <= i <= filled,
                filled <= slots0.len(),
                filled <= room,
                room == self.capacity - items0.len(),
                forall|j: int| 0 <= j < filled ==> (#[trigger] slots0[j]) is Some,
                filled == room || filled == slots0.len() || slots0[filled as int] is None,
                slots@ == slots0.skip(i as int),
                self.items@ == items0 + filled_prefix(slots0, i as int),
                self.capacity == old(self).capacity,
                self.batch is None,
            decreases filled - i,
        {
            let slot = slots.remove(0);
            assert(slot == slots0[i as int]);
            match slot {
                Some(item) => {
                    self.items.push(item);
                },
                None => {},
            }
            i = i + 1;
            assert(slots@ =~= slots0.skip(i as int));
            assert(self.items@ =~= items0 + filled_prefix(slots0, i as int));
        }
        Ok(filled)
    }

    /// Commits the filled leading slots, as many as there is room for; the
    /// flush always succeeds.
    fn do_consume_to_many1_flush(&mut self) -> (r: Result<usize, Full>)
        ensures
            r is Ok <==> old(self).room() > 0,
            r is Ok ==> r->Ok_0 <= old(self).room(),
            r is Ok ==> r->Ok_0 == old(self).room() || r->Ok_0 == old(self).slots()->Some_0.len()
                || old(self).slots()->Some_0[r->Ok_0 as int] is None,
            r is Ok ==> final(self).slots() is None,
            r is Err ==> *final(self) == *old(self),
            final(self).limit() == old(self).limit(),
    {
        match self.do_consume_to_many1() {
            Err(e) => Err(e),
            Ok(n) => {
                let flushed = self.flush();
                assert(flushed is Ok);
                Ok(n)
            },
        }
    }
}

} // verus!
