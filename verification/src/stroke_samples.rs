//! Bounded pointer history that keeps corners and pressure peaks under load.
//!
//! A stroke's samples queue up between frames, never more than
//! [`MAX_SAMPLES`] of them. When one more arrives at a full queue, the
//! interior sample that says least about the stroke goes: the caller
//! measures, for each interior sample of the queue with the new one added,
//! how far it lies from the line between its neighbours, pressure included,
//! and hands those errors over as keys ordered the way the errors are. The
//! first sample and the new one are never dropped, and the ones that stay
//! keep their order.

use std::collections::VecDeque;
use vstd::prelude::*;

verus! {

/// How many samples the queue holds.
pub const MAX_SAMPLES: usize = 16;

/// The queue of samples not yet turned into dabs.
pub struct Samples<T> {
    items: VecDeque<T>,
}

impl<T> View for Samples<T> {
    type V = Seq<T>;

    closed spec fn view(&self) -> Seq<T> {
        self.items@
    }
}

impl<T> Samples<T> {
    /// The queue never holds more than it is meant to.
    #[verifier::type_invariant]
    spec fn bounded(self) -> bool {
        self.items@.len() <= MAX_SAMPLES
    }
}

/// Whether `i` is the first place holding the least key.
pub open spec fn flattest(keys: Seq<i64>, i: int) -> bool {
    &&& 0 <= i < keys.len()
    &&& forall|j: int| 0 <= j < keys.len() ==> keys[i] <= #[trigger] keys[j]
    &&& forall|j: int| 0 <= j < i ==> keys[j] > #[trigger] keys[i]
}

/// Whether queueing one more sample onto `queued` means one has to go.
pub open spec fn drops_one<T>(queued: Seq<T>, repeats_last: bool) -> bool {
    !(repeats_last && queued.len() > 0) && queued.len() >= MAX_SAMPLES
}

/// The queue after a sample arrives: unchanged when it repeats the last one,
/// the sample added at the back when there is room, and otherwise the sample
/// added and the flattest interior one taken out, where `k` is the place of
/// the least key and `keys[k]` orders the error of the sample at `k + 1`.
pub open spec fn pushed<T>(queued: Seq<T>, sample: T, repeats_last: bool, k: int) -> Seq<T> {
    if repeats_last && queued.len() > 0 {
        queued
    } else if queued.len() < MAX_SAMPLES {
        queued.push(sample)
    } else {
        queued.push(sample).remove(k + 1)
    }
}

/// The first place holding the least key; on a tie the earliest wins.
fn least_key(keys: &Vec<i64>) -> (r: usize)
    requires
        keys@.len() > 0,
    ensures
        flattest(keys@, r as int),
{
    let mut best: usize = 0;
    let mut k: usize = 1;
    while k < keys.len()
        invariant
            1 <= k <= keys@.len(),
            best < k,
            forall|j: int| 0 <= j < k ==> keys@[best as int] <= #[trigger] keys@[j],
            forall|j: int| 0 <= j < best ==> keys@[j] > #[trigger] keys@[best as int],
        decreases keys@.len() - k,
    {
        if keys[k] < keys[best] {
            best = k;
        }
        k = k + 1;
    }
    best
}

impl<T> Default for Samples<T> {
    fn default() -> (r: Samples<T>)
        ensures
            r@ == Seq::<T>::empty(),
    {
        Samples { items: VecDeque::new() }
    }
}

impl<T: Copy> Samples<T> {
    /// An empty queue.
    pub fn new() -> (r: Samples<T>)
        ensures
            r@ == Seq::<T>::empty(),
    {
        Samples { items: VecDeque::new() }
    }

    /// Queues a sample, unless it repeats the last one exactly: a device
    /// reporting the same place and pressure again adds nothing to draw.
    ///
    /// A full queue makes room by dropping its flattest interior sample;
    /// `keys` then orders the errors of the interior samples of the queue
    /// with the new one added (one key fewer than the queue holds now), and
    /// is not read otherwise.
    pub fn push(&mut self, sample: T, repeats_last: bool, keys: &Vec<i64>)
        requires
            drops_one(old(self)@, repeats_last) ==> keys@.len() + 1 == old(self)@.len(),
        ensures
            final(self)@.len() <= MAX_SAMPLES,
            !drops_one(old(self)@, repeats_last) ==> final(self)@ == pushed(old(self)@, sample, repeats_last, 0),
            drops_one(old(self)@, repeats_last) ==> exists|k: int|
                flattest(keys@, k) && final(self)@ == pushed(old(self)@, sample, repeats_last, k),
    {
        proof {
            use_type_invariant(&*self);
        }
        let n = self.items.len();
        if repeats_last && n > 0 {
            return;
        }
        let mut items: VecDeque<T> = VecDeque::new();
        std::mem::swap(&mut items, &mut self.items);
        if n >= MAX_SAMPLES {
            let k = least_key(keys);
            let ghost before = items@;
            // The dropped sample is never the new one, so it can go first.
            let _ = items.remove(k + 1);
            items.push_back(sample);
            assert(items@ =~= before.push(sample).remove(k + 1));
        } else {
            items.push_back(sample);
        }
        self.items = items;
    }

    /// Whether the queue is full, so that the next new sample makes one go
    /// and the caller has to measure the errors first.
    pub fn is_full(&self) -> (r: bool)
        ensures
            r == (self@.len() >= MAX_SAMPLES),
    {
        self.items.len() >= MAX_SAMPLES
    }

    /// Takes the oldest sample.
    pub fn pop(&mut self) -> (r: Option<T>)
        ensures
            old(self)@.len() == 0 ==> r is None && final(self)@ == old(self)@,
            old(self)@.len() > 0 ==> r == Some(old(self)@[0]) && final(self)@ == old(self)@.drop_first(),
    {
        proof {
            use_type_invariant(&*self);
        }
        let mut items: VecDeque<T> = VecDeque::new();
        std::mem::swap(&mut items, &mut self.items);
        let r = items.pop_front();
        proof {
            if old(self)@.len() > 0 {
                assert(items@ =~= old(self)@.drop_first());
            }
        }
        self.items = items;
        r
    }

    pub fn is_empty(&self) -> (r: bool)
        ensures
            r == (self@.len() == 0),
    {
        self.items.len() == 0
    }

    pub fn len(&self) -> (r: usize)
        ensures
            r == self@.len(),
    {
        self.items.len()
    }

    /// The sample at this place in the queue.
    pub fn get(&self, i: usize) -> (r: T)
        requires
            i < self@.len(),
        ensures
            r == self@[i as int],
    {
        self.items[i]
    }
}

/// A sample that repeats the last one leaves the queue as it was. Any other
/// sample always ends the queue, the first one stays unless the queue was
/// empty, the queue stays within its bound, and it grows by one until it is
/// full; the samples that stay keep their order.
pub proof fn pushing_keeps_the_ends<T>(queued: Seq<T>, sample: T, repeats_last: bool, keys: Seq<i64>, k: int)
    requires
        queued.len() <= MAX_SAMPLES,
        drops_one(queued, repeats_last) ==> keys.len() + 1 == queued.len() && flattest(keys, k),
    ensures
        ({
            let after = pushed(queued, sample, repeats_last, k);
            if repeats_last && queued.len() > 0 {
                after == queued
            } else {
                &&& after.len() == if queued.len() < MAX_SAMPLES { queued.len() + 1 } else { MAX_SAMPLES as nat }
                &&& after.last() == sample
                &&& queued.len() > 0 ==> after[0] == queued[0]
                &&& forall|i: int| 0 <= i < after.len() - 1 ==> #[trigger] after[i] == queued[
                    if queued.len() < MAX_SAMPLES || i <= k { i } else { i + 1 }]
            }
        }),
{
}

} // verus!
