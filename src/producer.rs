use vstd::prelude::*;

verus! {

/// The two producers have the same items ahead of their cursors.
pub open spec fn same_ahead<P: Producer>(a: P, b: P) -> bool {
    forall|i: nat| #[trigger] b.ahead(i) == a.ahead(i)
}

/// `b` has what `a` has ahead of its cursor, less the first item.
pub open spec fn shifted<P: Producer>(a: P, b: P) -> bool {
    forall|i: nat| #[trigger] b.ahead(i) == a.ahead(i + 1)
}

/// What `produce` guarantees: on success the item under the cursor is
/// yielded, the cursor moves forward by exactly one and the rest of the
/// sequence stays as it was; on an internal state change nothing at all has
/// happened.
pub open spec fn produce_post<P: Producer>(pre: P, post: P, r: Result<P::Item, P::In>) -> bool {
    match r {
        Ok(item) => {
            &&& item == pre.ahead(0)
            &&& post.cursor() == pre.cursor() + 1
            &&& shifted(pre, post)
        },
        Err(_) => post == pre,
    }
}

/// What `slurp` guarantees: the logical sequence and the cursor stay where
/// they were; only hidden buffering may change, and only on success.
pub open spec fn slurp_post<P: Producer>(pre: P, post: P, r: Result<(), P::In>) -> bool {
    &&& post.cursor() == pre.cursor()
    &&& same_ahead(pre, post)
    &&& (r is Err ==> post == pre)
}

/// What `slurp_produce` guarantees: the observable outcome of `produce`,
/// with any buffering in between allowed.
pub open spec fn slurp_produce_post<P: Producer>(
    pre: P,
    post: P,
    r: Result<P::Item, P::In>,
) -> bool {
    match r {
        Ok(item) => {
            &&& item == pre.ahead(0)
            &&& post.cursor() == pre.cursor() + 1
            &&& shifted(pre, post)
        },
        Err(_) => {
            &&& post.cursor() == pre.cursor()
            &&& same_ahead(pre, post)
        },
    }
}

/// A `produce` that reports an internal state change leaves the producer
/// exactly as it was.
pub proof fn lemma_failed_produce_changes_nothing<P: Producer>(
    pre: P,
    post: P,
    r: Result<P::Item, P::In>,
)
    requires
        produce_post(pre, post, r),
        r is Err,
    ensures
        post == pre,
        post.cursor() == pre.cursor(),
        same_ahead(pre, post),
{
}

/// `slurp` followed by `produce` meets what `slurp_produce` promises, and
/// when both ways succeed, or both fail, they agree on the item yielded and
/// on where the cursor and the sequence stand afterwards.
pub proof fn lemma_slurp_then_produce<P: Producer>(
    start: P,
    slurped_state: P,
    slurped: Result<(), P::In>,
    end: P,
    produced: Result<P::Item, P::In>,
    direct_end: P,
    direct: Result<P::Item, P::In>,
)
    requires
        slurp_post(start, slurped_state, slurped),
        slurped is Ok ==> produce_post(slurped_state, end, produced),
        slurped is Err ==> end == slurped_state && produced is Err,
        slurp_produce_post(start, direct_end, direct),
    ensures
        slurp_produce_post(start, end, produced),
        produced is Ok && direct is Ok ==> produced == direct && end.cursor()
            == direct_end.cursor(),
        produced is Err && direct is Err ==> end.cursor() == direct_end.cursor()
            && same_ahead(direct_end, end),
{
}

/// The basic interface for reading items from a lazy sequence.
///
/// A producer keeps a conceptual cursor into a sequence. `produce` steps the
/// cursor over one item and yields it. Any method may instead report an
/// internal state change (`Self::In`): exhaustion, a fault, and so on. Such a
/// call has no effect at all, and no further call is sanctioned after it,
/// nor after `stop`.
pub trait Producer: Sized {
    /// The type of the items produced.
    type Item;

    /// What the caller hands over when it stops the producer.
    type Ex;

    /// What the producer reports on an internal state change.
    type In;

    /// How many items have been produced so far: the cursor's position.
    spec fn cursor(&self) -> nat;

    /// The item `offset` places ahead of the cursor: at offset zero, the one
    /// that the next successful `produce` yields.
    spec fn ahead(&self, offset: nat) -> Self::Item;

    /// Yields the next item and advances the cursor by one, or reports an
    /// internal state change with no effect.
    fn produce(&mut self) -> (r: Result<Self::Item, Self::In>)
        ensures
            r is Ok ==> r->Ok_0 == old(self).ahead(0),
            r is Ok ==> final(self).cursor() == old(self).cursor() + 1,
            r is Ok ==> forall|i: nat| #[trigger] final(self).ahead(i) == old(self).ahead(i + 1),
            r is Err ==> *final(self) == *old(self),
    ;

    /// Fills the producer's internal buffer as far as it can without blocking.
    fn slurp(&mut self) -> (r: Result<(), Self::In>)
        ensures
            final(self).cursor() == old(self).cursor(),
            forall|i: nat| #[trigger] final(self).ahead(i) == old(self).ahead(i),
            r is Err ==> *final(self) == *old(self),
    ;

    /// Tells the producer that no more methods will be called.
    fn stop(&mut self, ex: Self::Ex) -> (r: Result<(), Self::In>)
        ensures
            final(self).cursor() == old(self).cursor(),
            r is Err ==> *final(self) == *old(self),
    ;

    /// Slurps and then produces an item. An implementation may bypass its
    /// buffer here, provided the observable outcome is that of `produce`.
    fn slurp_produce(&mut self) -> (r: Result<Self::Item, Self::In>)
        ensures
            r is Ok ==> r->Ok_0 == old(self).ahead(0),
            r is Ok ==> final(self).cursor() == old(self).cursor() + 1,
            r is Ok ==> forall|i: nat| #[trigger] final(self).ahead(i) == old(self).ahead(i + 1),
            r is Err ==> final(self).cursor() == old(self).cursor(),
            r is Err ==> forall|i: nat| #[trigger] final(self).ahead(i) == old(self).ahead(i),
    {
        match self.slurp() {
            Err(e) => Err(e),
            Ok(()) => self.produce(),
        }
    }
}

/// An optional value is a producer of at most one item.
impl<T> Producer for Option<T> {
    type Item = T;

    /// No information comes with stopping.
    type Ex = ();

    /// Reported when producing from `None`.
    type In = ();

    open spec fn cursor(&self) -> nat {
        if self is Some { 0 } else { 1 }
    }

    open spec fn ahead(&self, offset: nat) -> T {
        match self {
            Some(v) if offset == 0 => *v,
            _ => vstd::pervasive::arbitrary(),
        }
    }

    /// Moves the value out if there is one; `None` reports an internal state
    /// change and stays `None`, so further calls remain well defined.
    fn produce(&mut self) -> (r: Result<T, ()>)
        ensures
            r == match *old(self) {
                Some(v) => Ok::<T, ()>(v),
                None => Err(()),
            },
            *final(self) is None,
    {
        match self.take() {
            Some(v) => Ok(v),
            None => Err(()),
        }
    }

    /// Nothing to buffer: always succeeds and changes nothing.
    fn slurp(&mut self) -> (r: Result<(), ()>)
        ensures
            r is Ok,
            *final(self) == *old(self),
    {
        Ok(())
    }

    /// Nothing to release: always succeeds and changes nothing.
    fn stop(&mut self, ex: ()) -> (r: Result<(), ()>)
        ensures
            r is Ok,
            *final(self) == *old(self),
    {
        Ok(())
    }

    /// The same as `produce`, as there is nothing to buffer.
    fn slurp_produce(&mut self) -> (r: Result<T, ()>)
        ensures
            r == match *old(self) {
                Some(v) => Ok::<T, ()>(v),
                None => Err(()),
            },
            *final(self) is None,
    {
        match self.slurp() {
            Err(e) => Err(e),
            Ok(()) => self.produce(),
        }
    }
}

} // verus!
