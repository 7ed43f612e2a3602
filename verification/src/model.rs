use vstd::prelude::*;

verus! {

/// The running fold (prefix scan) of `g` over `s`, starting from `v0`:
/// a sequence of the same length as `s` whose element `i` is the left fold
/// of `g` over the first `i + 1` elements of `s`.
pub open spec fn scan<B, T>(g: spec_fn(B, T) -> B, v0: B, s: Seq<T>) -> Seq<B>
    decreases s.len(),
{
    if s.len() == 0 {
        Seq::empty()
    } else {
        scan(g, v0, s.drop_last()).push(s.fold_left(v0, g))
    }
}

/// The accumulator `a` can be reached from `v0` by one application of the
/// closure `f` per element of `elems`, applied strictly left to right. Each
/// step is constrained only by `f`'s postcondition relation, so this is the
/// exact record of what a sequence of calls of `f` can have produced.
pub open spec fn chained<B, T, F: Fn(B, T) -> B>(f: F, v0: B, elems: Seq<T>, a: B) -> bool
    decreases elems.len(),
{
    if elems.len() == 0 {
        a == v0
    } else {
        exists|m: B|
            chained(f, v0, elems.drop_last(), m) && #[trigger] call_ensures(
                f,
                (m, elems.last()),
                a,
            )
    }
}

/// The closure `f` implements the spec function `g`: every result a call of
/// `f` can return is the value `g` gives for the same arguments.
pub open spec fn obeys<B, T, F: Fn(B, T) -> B>(f: F, g: spec_fn(B, T) -> B) -> bool {
    forall|a: B, x: T, r: B| #[trigger] call_ensures(f, (a, x), r) ==> r == g(a, x)
}

/// The scan of a sequence is as long as the sequence itself.
pub proof fn lemma_scan_len<B, T>(g: spec_fn(B, T) -> B, v0: B, s: Seq<T>)
    ensures
        scan(g, v0, s).len() == s.len(),
    decreases s.len(),
{
    if s.len() > 0 {
        lemma_scan_len(g, v0, s.drop_last());
    }
}

/// Sequencing law, in its pure form: element `i` of the scan is the left
/// fold of the first `i + 1` elements, so the scan reads
/// `[g(v0, s[0]), g(g(v0, s[0]), s[1]), ...]` in consumption order.
pub proof fn lemma_scan_index<B, T>(g: spec_fn(B, T) -> B, v0: B, s: Seq<T>, i: int)
    requires
        0 <= i < s.len(),
    ensures
        scan(g, v0, s).len() == s.len(),
        scan(g, v0, s)[i] == s.take(i + 1).fold_left(v0, g),
    decreases s.len(),
{
    lemma_scan_len(g, v0, s);
    if i == s.len() - 1 {
        assert(s.take(i + 1) =~= s);
    } else {
        lemma_scan_index(g, v0, s.drop_last(), i);
        assert(s.drop_last().take(i + 1) =~= s.take(i + 1));
    }
}

/// Fold equivalence, in its pure form: the last element of the scan of a
/// non-empty sequence is the left fold of the whole sequence.
pub proof fn lemma_scan_last_is_fold<B, T>(g: spec_fn(B, T) -> B, v0: B, s: Seq<T>)
    requires
        s.len() > 0,
    ensures
        scan(g, v0, s).len() == s.len(),
        scan(g, v0, s).last() == s.fold_left(v0, g),
{
    lemma_scan_len(g, v0, s);
}

/// When the combining closure implements a spec function `g`, the record of
/// a chain of its calls is deterministic: the accumulator it reaches is
/// exactly the left fold of `g` over the elements, in order.
pub proof fn lemma_chained_is_fold<B, T, F: Fn(B, T) -> B>(
    f: F,
    g: spec_fn(B, T) -> B,
    v0: B,
    elems: Seq<T>,
    a: B,
)
    requires
        chained(f, v0, elems, a),
        obeys(f, g),
    ensures
        a == elems.fold_left(v0, g),
    decreases elems.len(),
{
    if elems.len() > 0 {
        let m = choose|m: B|
            chained(f, v0, elems.drop_last(), m) && #[trigger] call_ensures(
                f,
                (m, elems.last()),
                a,
            );
        lemma_chained_is_fold(f, g, v0, elems.drop_last(), m);
    }
}

} // verus!
