use vstd::prelude::*;

use vstd::std_specs::iter::IteratorSpec;

use crate::add::{fits, CheckedAdd};

verus! {

/// The true sum of the integers that the items of `s` stand for.
pub open spec fn total<T: CheckedAdd>(s: Seq<T>) -> int
    decreases s.len(),
{
    if s.len() == 0 {
        0
    } else {
        total(s.drop_last()) + s.last().value()
    }
}

/// Whether every running total of `s`, from the empty prefix to the whole
/// sequence, can be held by `T`: exactly when a left-to-right checked fold
/// never overflows.
pub open spec fn partial_sums_fit<T: CheckedAdd>(s: Seq<T>) -> bool {
    forall|k: int| 0 <= k <= s.len() ==> fits::<T>(#[trigger] total(s.take(k)))
}

/// What a checked sum of `s` comes to: the true sum when no running total
/// overflows, nothing otherwise.
pub open spec fn checked_total<T: CheckedAdd>(s: Seq<T>) -> Option<int> {
    if partial_sums_fit(s) {
        Some(total(s))
    } else {
        None
    }
}

/// Iterator extension trait for summing numbers with overflow checking.
pub trait CheckedSum<T: CheckedAdd>: Iterator<Item = T> + Sized {
    /// Adds an iterator of numbers checking for overflow, returns `None` if
    /// overflow occurred.
    ///
    /// The items are added left to right, starting from zero, and no item
    /// after the one whose addition overflowed is drawn. The iterator must be
    /// one that ends: it yields its remaining items and then `None`, with a
    /// measure that shrinks at each step (every iterator over a collection).
    fn checked_sum(self) -> (r: Option<T>)
        requires
            self.obeys_prophetic_iter_laws(),
            self.decrease() is Some,
        ensures
            match r {
                Some(s) => checked_total(self.remaining()) == Some(s.value()),
                None => checked_total(self.remaining()) is None,
            },
    ;
}

impl<T: CheckedAdd, I: Iterator<Item = T>> CheckedSum<T> for I {
    fn checked_sum(self) -> (r: Option<T>) {
        let ghost all = self.remaining();
        let mut iter = self;
        let mut acc = T::zero();
        let ghost mut k: int = 0;
        proof {
            T::lemma_zero_in_range();
            assert(all.take(0) =~= Seq::<T>::empty());
        }
        loop
            invariant
                iter.obeys_prophetic_iter_laws(),
                iter.decrease() is Some,
                all == self.remaining(),
                0 <= k <= all.len(),
                iter.remaining() == all.skip(k),
                acc.value() == total(all.take(k)),
                forall|j: int| 0 <= j <= k ==> fits::<T>(#[trigger] total(all.take(j))),
            decreases iter.decrease()->0,
        {
            match iter.next() {
                Some(x) => {
                    proof {
                        assert(x == all[k]);
                        assert(all.take(k + 1).drop_last() =~= all.take(k));
                    }
                    match acc.checked_add(&x) {
                        Some(s) => {
                            proof {
                                s.lemma_value_in_range();
                            }
                            acc = s;
                        },
                        None => {
                            proof {
                                assert(!fits::<T>(total(all.take(k + 1))));
                            }
                            return None;
                        },
                    }
                    proof {
                        k = k + 1;
                        assert(iter.remaining() =~= all.skip(k));
                    }
                },
                None => {
                    proof {
                        assert(all.take(k) =~= all);
                    }
                    return Some(acc);
                },
            }
        }
    }
}

} // verus!
