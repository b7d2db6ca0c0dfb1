use vstd::prelude::*;
use crate::value::{
    Heap, Scm, ScmView, MAX_RECORDS, FIXNUM_MAX, conses, cons, car, cdr, is_null,
};

verus! {

/// `v` is a proper list in `heap` whose elements read, head first, as `elems`.
pub open spec fn is_list(heap: &Heap, v: Scm, elems: Seq<ScmView>) -> bool
    decreases elems.len(),
{
    if elems.len() == 0 {
        v@ is Nil
    } else {
        match heap.spec_as_pair(v) {
            Some(p) => p.0@ == elems[0] && is_list(heap, p.1, elems.drop_first()),
            None => false,
        }
    }
}

/// The integers `0 .. len`, in order.
pub open spec fn ints_upto(len: nat) -> Seq<ScmView> {
    Seq::new(len, |j: int| ScmView::Integer(j))
}

/// Records held in a heap keep their contents as the heap grows.
pub proof fn lemma_as_pair_stable(h0: &Heap, h1: &Heap, v: Scm)
    requires
        h1.extends(h0),
        h0.spec_as_pair(v) is Some,
    ensures
        h1.spec_as_pair(v) == h0.spec_as_pair(v),
{
    let k = v@->Pair_0 as int;
    assert(h0.pairs()[k] == h1.pairs().subrange(0, h0.pairs().len() as int)[k]);
}

/// A list stays the same list as the heap grows.
pub proof fn lemma_list_stable(h0: &Heap, h1: &Heap, v: Scm, elems: Seq<ScmView>)
    requires
        h1.extends(h0),
        is_list(h0, v, elems),
    ensures
        is_list(h1, v, elems),
    decreases elems.len(),
{
    if elems.len() > 0 {
        lemma_as_pair_stable(h0, h1, v);
        let p = h0.spec_as_pair(v).unwrap();
        lemma_list_stable(h0, h1, p.1, elems.drop_first());
    }
}

/// A value is a list of at most one sequence of elements.
pub proof fn lemma_list_unique(h: &Heap, v: Scm, e1: Seq<ScmView>, e2: Seq<ScmView>)
    requires
        is_list(h, v, e1),
        is_list(h, v, e2),
    ensures
        e1 == e2,
    decreases e1.len(),
{
    if e1.len() == 0 {
        if e2.len() > 0 {
            assert(h.spec_as_pair(v) is Some);
        }
    } else {
        if e2.len() == 0 {
            assert(h.spec_as_pair(v) is Some);
        } else {
            let p = h.spec_as_pair(v).unwrap();
            lemma_list_unique(h, p.1, e1.drop_first(), e2.drop_first());
            assert(e1 =~= seq![e1[0]] + e1.drop_first());
            assert(e2 =~= seq![e2[0]] + e2.drop_first());
        }
    }
}

proof fn lemma_extends_refl(h: &Heap)
    ensures
        h.extends(h),
{
    assert(h.pairs().subrange(0, h.pairs().len() as int) =~= h.pairs());
    assert(h.objects().subrange(0, h.objects().len() as int) =~= h.objects());
}

proof fn lemma_extends_trans(h0: &Heap, h1: &Heap, h2: &Heap)
    requires
        h1.extends(h0),
        h2.extends(h1),
    ensures
        h2.extends(h0),
{
    assert(h0.pairs() =~= h2.pairs().subrange(0, h0.pairs().len() as int)) by {
        assert forall|i: int| 0 <= i < h0.pairs().len() implies h0.pairs()[i] == h2.pairs()[i] by {
            assert(h0.pairs()[i] == h1.pairs().subrange(0, h0.pairs().len() as int)[i]);
            assert(h1.pairs()[i] == h2.pairs().subrange(0, h1.pairs().len() as int)[i]);
        }
    }
    assert(h0.objects() =~= h2.objects().subrange(0, h0.objects().len() as int)) by {
        assert forall|i: int| 0 <= i < h0.objects().len() implies h0.objects()[i]
            == h2.objects()[i] by {
            assert(h0.objects()[i] == h1.objects().subrange(0, h0.objects().len() as int)[i]);
            assert(h1.objects()[i] == h2.objects().subrange(0, h1.objects().len() as int)[i]);
        }
    }
}

/// Adding a pair record extends the heap.
pub proof fn lemma_cons_extends(h0: &Heap, h1: &Heap, a: Scm, b: Scm, r: Scm)
    requires
        conses(h0, h1, a, b, r),
    ensures
        h1.extends(h0),
{
    assert(h0.pairs() =~= h1.pairs().subrange(0, h0.pairs().len() as int));
    assert(h0.objects() =~= h1.objects().subrange(0, h0.objects().len() as int));
}

/// Builds the list of the integers `0 .. len` by adding pairs in front of
/// the empty list, last element first.
pub fn make_list(heap: &mut Heap, len: usize) -> (r: Scm)
    requires
        old(heap).pairs().len() + len <= MAX_RECORDS,
        len <= FIXNUM_MAX + 1,
    ensures
        final(heap).extends(old(heap)),
        final(heap).objects() == old(heap).objects(),
        final(heap).pairs().len() == old(heap).pairs().len() + len,
        is_list(final(heap), r, ints_upto(len as nat)),
{
    let mut list = Scm::nil();
    let mut i: usize = len;
    proof {
        lemma_extends_refl(heap);
        assert(ints_upto(len as nat).subrange(len as int, len as int) =~= Seq::empty());
    }
    while i > 0
        invariant
            i <= len,
            len <= FIXNUM_MAX + 1,
            heap.extends(old(heap)),
            heap.objects() == old(heap).objects(),
            heap.pairs().len() == old(heap).pairs().len() + (len - i),
            old(heap).pairs().len() + len <= MAX_RECORDS,
            is_list(heap, list, ints_upto(len as nat).subrange(i as int, len as int)),
        decreases i,
    {
        i = i - 1;
        let ghost h0 = *heap;
        let ghost rest = list;
        let item = Scm::from_int(i as i64);
        list = cons(heap, item, list);
        proof {
            lemma_cons_extends(&h0, heap, item, rest, list);
            lemma_extends_trans(old(heap), &h0, heap);
            let tail = ints_upto(len as nat).subrange(i + 1, len as int);
            let elems = ints_upto(len as nat).subrange(i as int, len as int);
            lemma_list_stable(&h0, heap, rest, tail);
            assert(elems.drop_first() =~= tail);
            assert(heap.spec_as_pair(list) == Some((item, rest)));
        }
    }
    proof {
        assert(ints_upto(len as nat).subrange(0, len as int) =~= ints_upto(len as nat));
    }
    list
}

/// `h1` is `h0` after reversing `list` into the fresh list `r`: records are
/// only added, one pair for each element, and `r` reads as the elements of
/// `list` in reverse order.
pub open spec fn reverses(h0: &Heap, h1: &Heap, list: Scm, r: Scm) -> bool {
    &&& h1.extends(h0)
    &&& h1.objects() == h0.objects()
    &&& forall|elems: Seq<ScmView>|
        is_list(h0, list, elems) ==> {
            &&& is_list(h1, r, elems.reverse())
            &&& h1.pairs().len() == h0.pairs().len() + elems.len()
        }
}

/// Builds a fresh proper list holding the elements of `list` in reverse
/// order, by adding each element in front of the result so far.
pub fn reverse(heap: &mut Heap, list: Scm) -> (r: Scm)
    requires
        exists|elems: Seq<ScmView>|
            is_list(old(heap), list, elems) && old(heap).pairs().len() + elems.len()
                <= MAX_RECORDS,
    ensures
        reverses(old(heap), final(heap), list, r),
{
    let ghost elems = choose|elems: Seq<ScmView>|
        is_list(old(heap), list, elems) && old(heap).pairs().len() + elems.len() <= MAX_RECORDS;
    let ghost n = elems.len() as int;
    let ghost mut i: int = 0;
    let mut acc = Scm::nil();
    let mut rest = list;
    proof {
        lemma_extends_refl(heap);
        assert(elems.subrange(0, n) =~= elems);
        assert(elems.subrange(0, 0).reverse() =~= Seq::<ScmView>::empty());
    }
    while !is_null(rest)
        invariant
            0 <= i <= n,
            n == elems.len(),
            is_list(old(heap), list, elems),
            old(heap).pairs().len() + n <= MAX_RECORDS,
            heap.extends(old(heap)),
            heap.objects() == old(heap).objects(),
            heap.pairs().len() == old(heap).pairs().len() + i,
            is_list(heap, rest, elems.subrange(i, n)),
            is_list(heap, acc, elems.subrange(0, i).reverse()),
        decreases n - i,
    {
        proof {
            if i == n {
                assert(elems.subrange(i, n).len() == 0);
            }
            assert(heap.spec_as_pair(rest) is Some);
        }
        let x = car(heap, rest).unwrap();
        let next = cdr(heap, rest).unwrap();
        let ghost h0 = *heap;
        let ghost old_acc = acc;
        acc = cons(heap, x, acc);
        proof {
            lemma_cons_extends(&h0, heap, x, old_acc, acc);
            lemma_extends_trans(old(heap), &h0, heap);
            assert(elems.subrange(i, n).drop_first() =~= elems.subrange(i + 1, n));
            lemma_list_stable(&h0, heap, next, elems.subrange(i + 1, n));
            lemma_list_stable(&h0, heap, old_acc, elems.subrange(0, i).reverse());
            assert(elems.subrange(0, i + 1).reverse().drop_first() =~= elems.subrange(
                0,
                i,
            ).reverse());
            assert(heap.spec_as_pair(acc) == Some((x, old_acc)));
            i = i + 1;
        }
        rest = next;
    }
    proof {
        if i < n {
            assert(heap.spec_as_pair(rest) is Some);
        }
        assert(elems.subrange(0, n) =~= elems);
        assert forall|e: Seq<ScmView>| is_list(old(heap), list, e) implies e == elems by {
            lemma_list_unique(old(heap), list, e, elems);
        }
    }
    acc
}

/// Reversing a list twice gives a list with the same elements in the same
/// order, built from fresh pairs.
pub proof fn lemma_reverse_twice(
    h0: &Heap,
    h1: &Heap,
    h2: &Heap,
    list: Scm,
    r1: Scm,
    r2: Scm,
    elems: Seq<ScmView>,
)
    requires
        is_list(h0, list, elems),
        reverses(h0, h1, list, r1),
        reverses(h1, h2, r1, r2),
    ensures
        is_list(h2, r2, elems),
        h2.extends(h0),
        h2.pairs().len() == h0.pairs().len() + 2 * elems.len(),
{
    assert(is_list(h1, r1, elems.reverse()));
    assert(elems.reverse().reverse() =~= elems);
    assert(is_list(h2, r2, elems.reverse().reverse()));
    lemma_extends_trans(h0, h1, h2);
}

} // verus!
