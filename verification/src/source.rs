use vstd::prelude::*;

verus! {

/// A pull-based producer of elements, consumed one at a time from the front.
///
/// The spec function [`Source::remaining`] is the mathematical model of the
/// producer: the sequence of elements it has yet to yield, in order. Because
/// the model is a function of the producer's state, exhaustion is too: a
/// producer reports exhaustion exactly when `remaining()` is empty.
pub trait Source: Sized {
    /// The type of the elements produced.
    type Item;

    /// The elements this producer has yet to yield, in order.
    spec fn remaining(&self) -> Seq<Self::Item>;

    /// The length estimate this producer reports in its current state:
    /// a lower bound and an optional upper bound on `remaining().len()`.
    spec fn hint(&self) -> (usize, Option<usize>);

    /// Yields the first remaining element, or `None` when none are left.
    fn next_item(&mut self) -> (r: Option<Self::Item>)
        ensures
            old(self).remaining().len() == 0 ==> r is None && final(self).remaining()
                == old(self).remaining(),
            old(self).remaining().len() > 0 ==> r == Some(old(self).remaining()[0])
                && final(self).remaining() == old(self).remaining().drop_first(),
    ;

    /// Reports the producer's own remaining-length estimate, unmodified.
    fn size_hint(&self) -> (r: (usize, Option<usize>))
        ensures
            r == self.hint(),
    ;

    /// Consumes the producer and reports how many elements remained.
    fn count_rest(self) -> (r: usize)
        ensures
            r == self.remaining().len(),
    ;
}

/// A [`Source`] that yields the elements of a vector from first to last.
pub struct VecSource<T> {
    items: Vec<T>,
    pos: usize,
}

impl<T: Copy> VecSource<T> {
    /// Wraps a vector; every element of it is still to be yielded.
    pub fn new(items: Vec<T>) -> (r: Self)
        ensures
            r.remaining() == items@,
    {
        let r = VecSource { items, pos: 0 };
        proof {
            assert(r.remaining() =~= r.items@);
        }
        r
    }
}

impl<T: Copy> Source for VecSource<T> {
    type Item = T;

    closed spec fn remaining(&self) -> Seq<T> {
        if self.pos <= self.items@.len() {
            self.items@.skip(self.pos as int)
        } else {
            Seq::empty()
        }
    }

    open spec fn hint(&self) -> (usize, Option<usize>) {
        ((self.remaining().len() as usize), Some(self.remaining().len() as usize))
    }

    fn next_item(&mut self) -> (r: Option<T>)
        ensures
            old(self).remaining().len() == 0 ==> r is None && final(self).remaining()
                == old(self).remaining(),
            old(self).remaining().len() > 0 ==> r == Some(old(self).remaining()[0])
                && final(self).remaining() == old(self).remaining().drop_first(),
    {
        if self.pos < self.items.len() {
            let e = self.items[self.pos];
            self.pos = self.pos + 1;
            proof {
                assert(self.remaining() =~= old(self).remaining().drop_first());
            }
            Some(e)
        } else {
            None
        }
    }

    fn size_hint(&self) -> (r: (usize, Option<usize>))
        ensures
            r == self.hint(),
    {
        let n: usize = if self.pos <= self.items.len() {
            self.items.len() - self.pos
        } else {
            0
        };
        (n, Some(n))
    }

    fn count_rest(self) -> (r: usize)
        ensures
            r == self.remaining().len(),
    {
        if self.pos <= self.items.len() {
            self.items.len() - self.pos
        } else {
            0
        }
    }
}

} // verus!
