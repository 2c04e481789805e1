//! Results of work submitted in a fixed order, handed out in that order whatever
//! order the work completes in.
use vstd::prelude::*;

verus! {

/// One slot per submitted item. A slot is filled when its item completes; the
/// filled slots at the front are handed out, in position order, and no slot is
/// handed out before every slot ahead of it has been.
pub struct OrderedResults<T> {
    pending: Vec<Option<T>>,
    next: usize,
    completed: Ghost<Seq<Option<T>>>,
    handed: Ghost<Seq<T>>,
}

impl<T> OrderedResults<T> {
    /// The number of positions.
    pub closed spec fn len(&self) -> nat {
        self.completed@.len()
    }

    /// The value each position completed with, `None` while it has not.
    pub closed spec fn completed(&self) -> Seq<Option<T>> {
        self.completed@
    }

    /// The values handed out so far, in the order they were handed out.
    pub closed spec fn handed_out(&self) -> Seq<T> {
        self.handed@
    }

    pub closed spec fn wf(&self) -> bool {
        &&& self.completed@.len() == self.next + self.pending@.len()
        &&& self.next + self.pending@.len() <= usize::MAX
        &&& forall|k: int|
            0 <= k < self.pending@.len() ==> #[trigger] self.pending@[k] == self.completed@[self.next
                + k]
        &&& self.handed@.len() == self.next
        &&& forall|k: int|
            0 <= k < self.next ==> #[trigger] self.completed@[k] == Some(self.handed@[k])
    }

    /// Slots for `n` positions, none completed.
    pub fn new(n: usize) -> (r: Self)
        ensures
            r.wf(),
            r.len() == n,
            r.completed() == Seq::new(n as nat, |k: int| None::<T>),
            r.handed_out() == Seq::<T>::empty(),
    {
        let mut pending: Vec<Option<T>> = Vec::with_capacity(n);
        let mut i: usize = 0;
        while i < n
            invariant
                i <= n,
                pending@ == Seq::new(i as nat, |k: int| None::<T>),
            decreases n - i,
        {
            pending.push(None);
            i = i + 1;
            assert(pending@ =~= Seq::new(i as nat, |k: int| None::<T>));
        }
        OrderedResults {
            pending,
            next: 0,
            completed: Ghost(Seq::new(n as nat, |k: int| None::<T>)),
            handed: Ghost(Seq::empty()),
        }
    }

    /// Whether every position has been handed out.
    pub fn is_finished(&self) -> (r: bool)
        requires
            self.wf(),
        ensures
            r <==> self.handed_out().len() == self.len(),
    {
        self.pending.len() == 0
    }

    /// Records the value of `position`. Returns `false`, and changes nothing, when the
    /// position does not exist or has completed before.
    pub fn complete(&mut self, position: usize, value: T) -> (stored: bool)
        requires
            old(self).wf(),
        ensures
            final(self).wf(),
            stored <==> (position < old(self).len() && old(self).completed()[position as int] is None),
            stored ==> final(self).completed() == old(self).completed().update(
                position as int,
                Some(value),
            ),
            !stored ==> final(self).completed() == old(self).completed(),
            final(self).len() == old(self).len(),
            final(self).handed_out() == old(self).handed_out(),
    {
        if position < self.next {
            assert(self.completed@[position as int] == Some(self.handed@[position as int]));
            return false;
        }
        let offset: usize = position - self.next;
        if offset >= self.pending.len() {
            return false;
        }
        if self.pending[offset].is_some() {
            return false;
        }
        self.pending.set(offset, Some(value));
        self.completed = Ghost(self.completed@.update(position as int, Some(value)));
        true
    }

    /// Hands out the values of the completed positions at the front, in position
    /// order, stopping at the first position that has not completed.
    pub fn take_ready(&mut self) -> (ready: Vec<T>)
        requires
            old(self).wf(),
        ensures
            final(self).wf(),
            final(self).len() == old(self).len(),
            final(self).completed() == old(self).completed(),
            final(self).handed_out() == old(self).handed_out() + ready@,
            forall|k: int|
                0 <= k < ready@.len() ==> old(self).completed()[old(self).handed_out().len() + k]
                    == Some(#[trigger] ready@[k]),
            forall|k: int|
                old(self).handed_out().len() <= k < final(self).handed_out().len()
                    ==> #[trigger] old(self).completed()[k] is Some,
            final(self).handed_out().len() == old(self).len()
                || old(self).completed()[final(self).handed_out().len() as int] is None,
    {
        let mut ready: Vec<T> = Vec::new();
        let ghost handed0 = self.handed@;
        while self.pending.len() > 0 && self.pending[0].is_some()
            invariant
                self.wf(),
                self.completed@ == old(self).completed@,
                self.handed@ == handed0 + ready@,
                handed0 == old(self).handed@,
                handed0.len() <= self.next,
                ready@.len() == self.next - handed0.len(),
                forall|k: int|
                    0 <= k < ready@.len() ==> self.completed@[handed0.len() + k] == Some(
                        #[trigger] ready@[k],
                    ),
                forall|k: int| handed0.len() <= k < self.next ==> #[trigger] self.completed@[k] is Some,
            decreases self.pending@.len(),
        {
            let slot = self.pending.remove(0);
            proof {
                assert(slot == self.completed@[self.next as int]);
            }
            match slot {
                Some(value) => {
                    proof {
                        self.handed@ = self.handed@.push(value);
                    }
                    ready.push(value);
                },
                None => {},
            }
            self.next = self.next + 1;
            assert(self.handed@ =~= handed0 + ready@);
        }
        ready
    }
}

/// Whatever order the positions complete in, the values handed out are those of
/// positions `0, 1, 2, ...` in that order: the `k`-th value handed out is the value
/// that position `k` completed with.
pub proof fn lemma_handed_out_in_submission_order<T>(q: &OrderedResults<T>)
    requires
        q.wf(),
    ensures
        q.handed_out().len() <= q.len(),
        forall|k: int|
            0 <= k < q.handed_out().len() ==> #[trigger] q.completed()[k] == Some(q.handed_out()[k]),
{
}

/// Once every position has completed, taking the ready values hands out all of
/// them: exactly one value per position.
pub proof fn lemma_all_completed_all_handed_out<T>(
    before: &OrderedResults<T>,
    after: &OrderedResults<T>,
    ready: Seq<T>,
)
    requires
        before.wf(),
        after.wf(),
        forall|k: int| 0 <= k < before.len() ==> #[trigger] before.completed()[k] is Some,
        after.len() == before.len(),
        after.completed() == before.completed(),
        after.handed_out() == before.handed_out() + ready,
        after.handed_out().len() == before.len() || before.completed()[after.handed_out().len() as int] is None,
    ensures
        after.handed_out().len() == after.len(),
{
    lemma_handed_out_in_submission_order(after);
}

} // verus!
