use vstd::prelude::*;

verus! {

/// The basic interface for pushing items into a sink.
///
/// A consumer keeps a conceptual write cursor: the sequence of the items it
/// has accepted so far. Any method may instead report an internal state change
/// (`Self::In`), which leaves the consumer exactly as it was. No further call
/// is sanctioned after an internal state change or after `close`.
pub trait Consumer: Sized {
    /// The type of the items consumed.
    type Item;

    /// What the caller hands over when it closes the consumer.
    type Ex;

    /// What the consumer reports on an internal state change.
    type In;

    /// The items accepted so far, in order.
    spec fn consumed(&self) -> Seq<Self::Item>;

    /// Accepts one item, or reports an internal state change with no item
    /// accepted.
    fn consume(&mut self, item: Self::Item) -> (r: Result<(), Self::In>)
        ensures
            r is Ok ==> final(self).consumed() == old(self).consumed().push(item),
            r is Err ==> *final(self) == *old(self),
    ;

    /// Commits buffered items as far as it can without blocking; what was
    /// accepted stays accepted.
    fn flush(&mut self) -> (r: Result<(), Self::In>)
        ensures
            final(self).consumed() == old(self).consumed(),
            r is Err ==> *final(self) == *old(self),
    ;

    /// Tells the consumer that no more methods will be called.
    fn close(&mut self, ex: Self::Ex) -> (r: Result<(), Self::In>)
        ensures
            final(self).consumed() == old(self).consumed(),
            r is Err ==> *final(self) == *old(self),
    ;

    /// Consumes an item and then flushes. On an error from the flush the item
    /// stays accepted.
    fn consume_flush(&mut self, item: Self::Item) -> (r: Result<(), Self::In>)
        ensures
            r is Ok ==> final(self).consumed() == old(self).consumed().push(item),
            r is Err ==> final(self).consumed() == old(self).consumed()
                || final(self).consumed() == old(self).consumed().push(item),
    {
        match self.consume(item) {
            Err(e) => Err(e),
            Ok(()) => self.flush(),
        }
    }
}

/// A consumer that takes an item out of a slot owned by the caller.
pub trait ConsumerFrom: Consumer {
    /// Moves the item out of `from` into the consumer. The slot is left empty
    /// whatever the outcome: the caller must not reuse what it held.
    fn consume_from(&mut self, from: &mut Option<Self::Item>) -> (r: Result<(), Self::In>)
        requires
            *old(from) is Some,
        ensures
            *final(from) is None,
            r is Ok ==> final(self).consumed() == old(self).consumed().push((*old(from))->Some_0),
            r is Err ==> *final(self) == *old(self),
    {
        let item = from.take().unwrap();
        self.consume(item)
    }

    /// Consumes from a slot and then flushes.
    fn consume_from_flush(&mut self, from: &mut Option<Self::Item>) -> (r: Result<(), Self::In>)
        requires
            *old(from) is Some,
        ensures
            *final(from) is None,
            r is Ok ==> final(self).consumed() == old(self).consumed().push((*old(from))->Some_0),
            r is Err ==> final(self).consumed() == old(self).consumed()
                || final(self).consumed() == old(self).consumed().push((*old(from))->Some_0),
    {
        match self.consume_from(from) {
            Err(e) => Err(e),
            Ok(()) => self.flush(),
        }
    }
}

/// A consumer that takes a leading run out of a non-empty batch of items.
pub trait ConsumerFromMany1: ConsumerFrom {
    /// Moves a non-empty prefix of `from` into the consumer and returns its
    /// length. What it did not take stays in `from`, the caller's to manage.
    fn consume_from_many1(&mut self, from: &mut Vec<Self::Item>) -> (r: Result<usize, Self::In>)
        requires
            old(from).len() >= 1,
        ensures
            r is Ok ==> 1 <= r->Ok_0 <= old(from).len(),
            r is Ok ==> final(self).consumed() == old(self).consumed() + old(from)@.take(
                r->Ok_0 as int,
            ),
            r is Ok ==> final(from)@ == old(from)@.skip(r->Ok_0 as int),
            r is Err ==> *final(self) == *old(self) && *final(from) == *old(from),
    ;

    /// Consumes a prefix of a batch and then flushes. On an error from the
    /// flush the prefix stays consumed.
    fn consume_from_many1_flush(&mut self, from: &mut Vec<Self::Item>) -> (r: Result<
        usize,
        Self::In,
    >)
        requires
            old(from).len() >= 1,
        ensures
            r is Ok ==> 1 <= r->Ok_0 <= old(from).len(),
            r is Ok ==> final(self).consumed() == old(self).consumed() + old(from)@.take(
                r->Ok_0 as int,
            ),
            r is Ok ==> final(from)@ == old(from)@.skip(r->Ok_0 as int),
            r is Err ==> exists|n: int|
                0 <= n <= old(from).len() && final(self).consumed() == old(self).consumed()
                    + old(from)@.take(n) && final(from)@ == old(from)@.skip(n),
    {
        let ghost from0 = from@;
        let ghost seen0 = self.consumed();
        match self.consume_from_many1(from) {
            Err(e) => {
                assert(from0.skip(0) =~= from0);
                assert(seen0 + from0.take(0) =~= seen0);
                Err(e)
            },
            Ok(consumed) => {
                match self.flush() {
                    Err(e) => {
                        assert(0 <= consumed as int <= from0.len());
                        Err(e)
                    },
                    Ok(()) => Ok(consumed),
                }
            },
        }
    }
}

/// A consumer that lends out one of its own slots for the caller to fill,
/// then commits it: a write with no temporary value in between.
pub trait ConsumerTo: Consumer {
    /// The reserved slot, if any, and what the caller has put in it.
    spec fn slot(&self) -> Option<Option<Self::Item>>;

    /// Reserves an empty slot. `false` means no slot is available now; that
    /// is no failure, and nothing changes.
    fn consume_to(&mut self) -> (r: bool)
        requires
            old(self).slot() is None,
        ensures
            r ==> final(self).slot() == Some(None::<Self::Item>),
            r ==> final(self).consumed() == old(self).consumed(),
            !r ==> *final(self) == *old(self),
    ;

    /// Writes an item into the reserved slot.
    fn fill_slot(&mut self, item: Self::Item)
        requires
            old(self).slot() is Some,
        ensures
            final(self).slot() == Some(Some(item)),
            final(self).consumed() == old(self).consumed(),
    ;

    /// Commits the filled slot as a consumed item.
    fn do_consume_to(&mut self) -> (r: Result<(), Self::In>)
        requires
            old(self).slot() matches Some(Some(_)),
        ensures
            r is Ok ==> final(self).consumed() == old(self).consumed().push(
                old(self).slot()->Some_0->Some_0,
            ),
            r is Ok ==> final(self).slot() is None,
            r is Err ==> *final(self) == *old(self),
    ;

    /// Commits the filled slot and then flushes.
    fn do_consume_to_flush(&mut self) -> (r: Result<(), Self::In>)
        requires
            old(self).slot() matches Some(Some(_)),
        ensures
            r is Ok ==> final(self).consumed() == old(self).consumed().push(
                old(self).slot()->Some_0->Some_0,
            ),
            r is Err ==> final(self).consumed() == old(self).consumed()
                || final(self).consumed() == old(self).consumed().push(
                old(self).slot()->Some_0->Some_0,
            ),
    {
        match self.do_consume_to() {
            Err(e) => Err(e),
            Ok(()) => self.flush(),
        }
    }
}

/// Reserving a slot, filling it with `item` and committing it leaves the
/// consumer with the same consumed sequence as consuming `item` directly. The
/// flushing forms, `do_consume_to_flush` and `consume_flush`, promise the same
/// on success, so this holds of them too.
pub proof fn lemma_commit_matches_consume<C: ConsumerTo>(
    start: C,
    reserved: C,
    filled: C,
    committed: C,
    direct: C,
    item: C::Item,
)
    requires
        reserved.slot() == Some(None::<C::Item>),
        reserved.consumed() == start.consumed(),
        filled.slot() == Some(Some(item)),
        filled.consumed() == reserved.consumed(),
        committed.consumed() == filled.consumed().push(filled.slot()->Some_0->Some_0),
        committed.slot() is None,
        direct.consumed() == start.consumed().push(item),
    ensures
        committed.consumed() == direct.consumed(),
{
}

/// A batch reservation made with `max` and then committed commits between one
/// and `max` items: `reserved` is the state after `consume_to_many1(max)`
/// returned `Some(k)`, `filled` the state after any number of `fill_slot_at`
/// calls, each of which keeps the number of slots, and `n` the count that the
/// commit returned.
pub proof fn lemma_batch_commit_within_request<C: ConsumerToMany1>(
    max: usize,
    k: usize,
    reserved: C,
    filled: C,
    n: usize,
)
    requires
        1 <= k <= max,
        reserved.slots() == Some(Seq::new(k as nat, |i: int| None::<C::Item>)),
        filled.slots() is Some,
        filled.slots()->Some_0.len() == reserved.slots()->Some_0.len(),
        1 <= n <= filled.slots()->Some_0.len(),
    ensures
        1 <= n <= k <= max,
{
}

/// The values of the leading slots of a batch, up to `n`.
pub open spec fn filled_prefix<T>(slots: Seq<Option<T>>, n: int) -> Seq<T> {
    Seq::new(n as nat, |i: int| slots[i]->Some_0)
}

/// The batch form of `ConsumerTo`: reserves up to `max` slots at once.
pub trait ConsumerToMany1: ConsumerTo {
    /// The reserved slots, if any, each with what the caller put in it.
    spec fn slots(&self) -> Option<Seq<Option<Self::Item>>>;

    /// Reserves between one and `max` empty slots and returns how many, or
    /// `None` when no slot is available now, with nothing changed.
    fn consume_to_many1(&mut self, max: usize) -> (r: Option<usize>)
        requires
            max >= 1,
            old(self).slots() is None,
        ensures
            r is Some ==> 1 <= r->Some_0 <= max,
            r is Some ==> final(self).slots() == Some(
                Seq::new(r->Some_0 as nat, |i: int| None::<Self::Item>),
            ),
            r is Some ==> final(self).consumed() == old(self).consumed(),
            r is None ==> *final(self) == *old(self),
    ;

    /// Writes an item into the reserved slot at `index`.
    fn fill_slot_at(&mut self, index: usize, item: Self::Item)
        requires
            old(self).slots() is Some,
            index < old(self).slots()->Some_0.len(),
        ensures
            final(self).slots() == Some(old(self).slots()->Some_0.update(index as int, Some(item))),
            final(self).consumed() == old(self).consumed(),
    ;

    /// Commits the filled leading slots and returns how many were committed.
    fn do_consume_to_many1(&mut self) -> (r: Result<usize, Self::In>)
        requires
            old(self).slots() is Some,
            old(self).slots()->Some_0.len() >= 1,
            old(self).slots()->Some_0[0] is Some,
        ensures
            r is Ok ==> 1 <= r->Ok_0 <= old(self).slots()->Some_0.len(),
            r is Ok ==> forall|i: int|
                0 <= i < r->Ok_0 ==> (#[trigger] old(self).slots()->Some_0[i]) is Some,
            r is Ok ==> final(self).consumed() == old(self).consumed() + filled_prefix(
                old(self).slots()->Some_0,
                r->Ok_0 as int,
            ),
            r is Ok ==> final(self).slots() is None,
            r is Err ==> *final(self) == *old(self),
    ;

    /// Commits the filled leading slots and then flushes. A failed commit
    /// changes nothing; on an error from the flush the committed items stay
    /// consumed and the reservation is released.
    fn do_consume_to_many1_flush(&mut self) -> (r: Result<usize, Self::In>)
        requires
            old(self).slots() is Some,
            old(self).slots()->Some_0.len() >= 1,
            old(self).slots()->Some_0[0] is Some,
        ensures
            r is Ok ==> 1 <= r->Ok_0 <= old(self).slots()->Some_0.len(),
            r is Ok ==> forall|i: int|
                0 <= i < r->Ok_0 ==> (#[trigger] old(self).slots()->Some_0[i]) is Some,
            r is Ok ==> final(self).consumed() == old(self).consumed() + filled_prefix(
                old(self).slots()->Some_0,
                r->Ok_0 as int,
            ),
            r is Err ==> *final(self) == *old(self) || (final(self).slots() is None && exists|
                n: int,
            |
                1 <= n <= old(self).slots()->Some_0.len() && final(self).consumed() == old(
                    self,
                ).consumed() + filled_prefix(old(self).slots()->Some_0, n)),
    {
        let ghost slots0 = self.slots()->Some_0;
        let ghost seen0 = self.consumed();
        match self.do_consume_to_many1() {
            Err(e) => Err(e),
            Ok(committed) => {
                match self.flush() {
                    Ok(()) => Ok(committed),
                    Err(e) => {
                        assert(1 <= committed as int <= slots0.len() && self.consumed() == seen0
                            + filled_prefix(slots0, committed as int));
                        Err(e)
                    },
                }
            },
        }
    }
}

} // verus!
