use vstd::prelude::*;

use crate::model::chained;
use crate::model::lemma_chained_is_fold;
use crate::model::lemma_scan_index;
use crate::model::obeys;
use crate::model::scan;
use crate::source::Source;

verus! {

/// An adaptor that yields, for each element drawn from a wrapped source, the
/// running combination of every element drawn so far.
///
/// Each successful step draws exactly one element from the source, folds it
/// into the stored accumulator with the combining closure, stores the result,
/// and yields that same result; the yielded value and the stored state never
/// diverge. When the source is exhausted, the step yields exhaustion without
/// calling the closure and without touching the accumulator. Nothing is
/// buffered: only the current accumulator is retained.
///
/// The accumulator type must be `Copy`, because the freshly combined value is
/// both stored and handed to the caller.
#[must_use]
#[derive(Clone)]
pub struct Accumulate<I: Source, B, F> {
    iter: I,
    acc: B,
    f: F,
    init: Ghost<B>,
    consumed: Ghost<Seq<I::Item>>,
}

impl<I: Source, B, F> Accumulate<I, B, F> {
    /// The wrapped source, in its current state.
    pub closed spec fn src(&self) -> I {
        self.iter
    }

    /// The accumulator currently stored: the value the latest successful
    /// step yielded, or the initial value if no step has succeeded yet.
    pub closed spec fn acc_value(&self) -> B {
        self.acc
    }

    /// The combining closure.
    pub closed spec fn func(&self) -> F {
        self.f
    }

    /// The initial accumulator value the adaptor was built with.
    pub closed spec fn init_value(&self) -> B {
        self.init@
    }

    /// The elements drawn from the source so far, in consumption order.
    pub closed spec fn consumed(&self) -> Seq<I::Item> {
        self.consumed@
    }

    /// The elements the wrapped source has yet to yield: the adaptor will
    /// yield exactly one value for each of them.
    pub open spec fn remaining(&self) -> Seq<I::Item> {
        self.src().remaining()
    }
}

impl<I: Source, B: Copy, F: Fn(B, I::Item) -> B> Accumulate<I, B, F> {
    /// The adaptor's invariant: the stored accumulator is reachable from the
    /// initial value by one call of the combining closure per element drawn
    /// so far, in consumption order.
    pub open spec fn wf(&self) -> bool {
        chained(self.func(), self.init_value(), self.consumed(), self.acc_value())
    }

    /// The combining closure accepts every accumulator-element pair; the
    /// adaptor may hand it whatever its own steps produce.
    pub open spec fn combiner_total(&self) -> bool {
        forall|a: B, x: I::Item| #[trigger] call_requires(self.func(), (a, x))
    }

    /// Pairs a source with an initial accumulator value and a combining
    /// closure. Stores all three unchanged, without validation: an already
    /// exhausted source is as acceptable as any other.
    pub fn new(iter: I, acc: B, f: F) -> (r: Self)
        ensures
            r.src() == iter,
            r.acc_value() == acc,
            r.init_value() == acc,
            r.func() == f,
            r.consumed() == Seq::<I::Item>::empty(),
            r.wf(),
    {
        Accumulate { iter, acc, f, init: Ghost(acc), consumed: Ghost(Seq::empty()) }
    }

    /// Draws one element from the source. If an element `e` came, yields
    /// `Some` of the new accumulator `f(acc, e)`, which is also stored; if
    /// the source signalled exhaustion, yields `None`, leaving the
    /// accumulator, the record of consumption, and the source's remaining
    /// elements unchanged — the closure is not called.
    ///
    /// Exactly one element is drawn per call: on success the source's
    /// remaining sequence loses precisely its first element, and that element
    /// is appended to `consumed()`.
    pub fn next(&mut self) -> (r: Option<B>)
        requires
            old(self).wf(),
            old(self).combiner_total(),
        ensures
            final(self).wf(),
            final(self).combiner_total(),
            final(self).func() == old(self).func(),
            final(self).init_value() == old(self).init_value(),
            old(self).remaining().len() == 0 ==> r is None
                && final(self).acc_value() == old(self).acc_value()
                && final(self).consumed() == old(self).consumed()
                && final(self).remaining() == old(self).remaining(),
            old(self).remaining().len() > 0 ==> r == Some(final(self).acc_value())
                && call_ensures(
                old(self).func(),
                (old(self).acc_value(), old(self).remaining()[0]),
                final(self).acc_value(),
            )
                && final(self).consumed() == old(self).consumed().push(old(self).remaining()[0])
                && final(self).remaining() == old(self).remaining().drop_first(),
    {
        match self.iter.next_item() {
            Some(item) => {
                self.consumed = Ghost(self.consumed@.push(item));
                let new_acc = (self.f)(self.acc, item);
                self.acc = new_acc;
                proof {
                    assert(self.consumed@.drop_last() =~= old(self).consumed@);
                    assert(self.consumed@.last() == item);
                    assert(call_ensures(self.f, (old(self).acc, self.consumed@.last()), new_acc));
                    assert(chained(self.f, self.init@, self.consumed@, new_acc));
                }
                Some(new_acc)
            },
            None => None,
        }
    }

    /// Reports the wrapped source's own remaining-length estimate,
    /// unmodified: the adaptor yields exactly one value per remaining source
    /// element, so its remaining count is the source's.
    pub fn size_hint(&self) -> (r: (usize, Option<usize>))
        ensures
            r == self.src().hint(),
    {
        self.iter.size_hint()
    }

    /// Consumes the adaptor and reports how many values it would still have
    /// yielded: exactly the number of elements remaining in the source. The
    /// count is delegated to the source, so the combining closure is never
    /// called.
    pub fn count(self) -> (r: usize)
        ensures
            r == self.remaining().len(),
    {
        self.iter.count_rest()
    }
}

/// Fold equivalence: a well-formed adaptor whose combining closure implements
/// the spec function `g` stores — and, on its latest successful step, yielded
/// — exactly the left fold of `g` over the elements drawn so far. In
/// particular, once the source is drained, this is the fold of the entire
/// original sequence: what folding directly, with the same initial value and
/// combining function, would have returned.
pub proof fn lemma_acc_is_fold<I: Source, B: Copy, F: Fn(B, I::Item) -> B>(
    a: &Accumulate<I, B, F>,
    g: spec_fn(B, I::Item) -> B,
)
    requires
        a.wf(),
        obeys(a.func(), g),
    ensures
        a.acc_value() == a.consumed().fold_left(a.init_value(), g),
{
    lemma_chained_is_fold(a.func(), g, a.init_value(), a.consumed(), a.acc_value());
}

/// Sequencing law: run over a source that originally held `s`, the adaptor
/// yields the prefix scan of `s` from its initial accumulator. After the
/// first `k` elements of `s` have been drawn, the stored accumulator — the
/// value the `k`-th successful step yielded — is element `k - 1` of that
/// scan.
pub proof fn lemma_yield_is_scan<I: Source, B: Copy, F: Fn(B, I::Item) -> B>(
    a: &Accumulate<I, B, F>,
    g: spec_fn(B, I::Item) -> B,
    s: Seq<I::Item>,
    k: int,
)
    requires
        a.wf(),
        obeys(a.func(), g),
        1 <= k <= s.len(),
        a.consumed() == s.take(k),
    ensures
        scan(g, a.init_value(), s).len() == s.len(),
        a.acc_value() == scan(g, a.init_value(), s)[k - 1],
{
    lemma_acc_is_fold(a, g);
    lemma_scan_index(g, a.init_value(), s, k - 1);
}

/// An extension that puts the [`accumulate`](IterAccumulate::accumulate)
/// entry point on every [`Source`].
pub trait IterAccumulate: Source {
    /// Wraps this producer in an [`Accumulate`] adaptor that starts from the
    /// accumulator `init` and combines with the closure `f`.
    fn accumulate<B: Copy, F: Fn(B, Self::Item) -> B>(self, init: B, f: F) -> (r: Accumulate<
        Self,
        B,
        F,
    >)
        ensures
            r.src() == self,
            r.acc_value() == init,
            r.init_value() == init,
            r.func() == f,
            r.consumed() == Seq::<Self::Item>::empty(),
            r.wf(),
    ;
}

impl<I: Source> IterAccumulate for I {
    fn accumulate<B: Copy, F: Fn(B, I::Item) -> B>(self, init: B, f: F) -> (r: Accumulate<
        I,
        B,
        F,
    >) {
        Accumulate::new(self, init, f)
    }
}

} // verus!
