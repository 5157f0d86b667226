use vstd::prelude::*;
use vstd::std_specs::cmp::PartialEqSpec;

verus! {

/// The predicate "differs from `x`".
pub open spec fn differs_from<A>(x: A) -> spec_fn(A) -> bool {
    |y: A| y != x
}

/// `s` with every occurrence of `x` taken out, the rest in order.
pub open spec fn without<A>(s: Seq<A>, x: A) -> Seq<A> {
    s.filter(differs_from(x))
}

/// Taking `x` out of `s.push(y)`: `y` stays unless it is `x`.
pub proof fn lemma_without_push<A>(s: Seq<A>, y: A, x: A)
    ensures
        without(s.push(y), x) == if y != x {
            without(s, x).push(y)
        } else {
            without(s, x)
        },
{
    s.lemma_filter_push(y, differs_from(x));
}

/// What is left after taking `x` out: the elements of `s` other than `x`.
pub proof fn lemma_without_contains<A>(s: Seq<A>, x: A, y: A)
    ensures
        without(s, x).contains(y) <==> s.contains(y) && y != x,
    decreases s.len(),
{
    if s.len() == 0 {
        assert(without(s, x) =~= Seq::<A>::empty());
    } else {
        let init = s.drop_last();
        let last = s.last();
        assert(s =~= init.push(last));
        lemma_without_push(init, last, x);
        lemma_without_contains(init, x, y);
        if s.contains(y) {
            let i = choose|i: int| 0 <= i < s.len() && s[i] == y;
            if i < init.len() {
                assert(init[i] == y);
            }
        }
        if init.contains(y) {
            let i = choose|i: int| 0 <= i < init.len() && init[i] == y;
            assert(s[i] == y);
        }
        if last != x {
            let w = without(init, x);
            assert(w.push(last)[w.len() as int] == last);
            if w.push(last).contains(y) {
                let i = choose|i: int| 0 <= i < w.push(last).len() && w.push(last)[i] == y;
                if i < w.len() {
                    assert(w[i] == y);
                }
            }
            if w.contains(y) {
                let i = choose|i: int| 0 <= i < w.len() && w[i] == y;
                assert(w.push(last)[i] == y);
            }
        }
        if y == last {
            assert(s[s.len() - 1] == y);
        }
    }
}

/// Taking an element out of a sequence without repetitions leaves one
/// without repetitions.
pub proof fn lemma_without_no_duplicates<A>(s: Seq<A>, x: A)
    requires
        s.no_duplicates(),
    ensures
        without(s, x).no_duplicates(),
    decreases s.len(),
{
    if s.len() == 0 {
        assert(without(s, x) =~= Seq::<A>::empty());
    } else {
        let init = s.drop_last();
        let last = s.last();
        assert(s =~= init.push(last));
        lemma_without_push(init, last, x);
        lemma_without_no_duplicates(init, x);
        if last != x {
            let w = without(init, x);
            lemma_without_contains(init, x, last);
            if init.contains(last) {
                let i = choose|i: int| 0 <= i < init.len() && init[i] == last;
                assert(s[i] == s[s.len() - 1]);
            }
            assert forall|i: int, j: int|
                0 <= i < w.push(last).len() && 0 <= j < w.push(last).len() && i != j implies w.push(
                last,
            )[i] != w.push(last)[j] by {
                if i < w.len() && j < w.len() {
                } else if i < w.len() {
                    assert(w.contains(w[i]));
                } else {
                    assert(w.contains(w[j]));
                }
            }
        }
    }
}

/// Taking out what is not there changes nothing.
pub proof fn lemma_without_absent<A>(s: Seq<A>, x: A)
    requires
        !s.contains(x),
    ensures
        without(s, x) == s,
    decreases s.len(),
{
    if s.len() == 0 {
        assert(without(s, x) =~= s);
    } else {
        let init = s.drop_last();
        let last = s.last();
        assert(s =~= init.push(last));
        lemma_without_push(init, last, x);
        assert(s[s.len() - 1] == last);
        if init.contains(x) {
            let i = choose|i: int| 0 <= i < init.len() && init[i] == x;
            assert(s[i] == x);
        }
        lemma_without_absent(init, x);
    }
}

/// A copy of a vector of plain values.
pub(crate) fn copied<T: Copy>(items: &Vec<T>) -> (copy: Vec<T>)
    ensures
        copy@ == items@,
{
    let mut copy: Vec<T> = Vec::new();
    let mut i: usize = 0;
    while i < items.len()
        invariant
            i <= items.len(),
            copy@ == items@.take(i as int),
        decreases items.len() - i,
    {
        proof {
            items@.lemma_take_succ_push(i as int);
        }
        copy.push(items[i]);
        i += 1;
    }
    proof {
        assert(items@.take(items@.len() as int) =~= items@);
    }
    copy
}

/// The vector with every occurrence of `x` taken out, for a type whose `==`
/// is equality of values.
pub(crate) fn vec_without<T: Copy + PartialEq>(items: &Vec<T>, x: T) -> (kept: Vec<T>)
    requires
        T::obeys_eq_spec(),
        forall|a: T, b: T| #[trigger] a.eq_spec(&b) <==> a == b,
    ensures
        kept@ == without(items@, x),
{
    let mut kept: Vec<T> = Vec::new();
    let mut i: usize = 0;
    while i < items.len()
        invariant
            i <= items.len(),
            kept@ == without(items@.take(i as int), x),
            T::obeys_eq_spec(),
            forall|a: T, b: T| #[trigger] a.eq_spec(&b) <==> a == b,
        decreases items.len() - i,
    {
        proof {
            items@.lemma_take_succ_push(i as int);
            lemma_without_push(items@.take(i as int), items@[i as int], x);
        }
        if !(items[i] == x) {
            kept.push(items[i]);
        }
        i += 1;
    }
    proof {
        assert(items@.take(items@.len() as int) =~= items@);
    }
    kept
}

} // verus!
