use vstd::prelude::*;
use crate::value::{
    Heap, Scm, ScmValue, ScmView, conses, is_fixnum, ALIGNMENT, N_TAG_BITS, TAG_PAIR,
};
use crate::list::lemma_as_pair_stable;

verus! {

/// Counts a predicate that holds as one.
pub open spec fn one_if(b: bool) -> int {
    if b {
        1
    } else {
        0
    }
}

/// At most one of the integer, pair, empty-list and object tests holds of
/// any value, and exactly one holds of every value that the constructors
/// make (none of them makes a reserved special constant).
pub proof fn lemma_tags_disjoint(v: Scm)
    ensures
        one_if(v@ is Integer) + one_if(v@ is Pair) + one_if(v@ is Nil) + one_if(v@ is Object)
            <= 1,
        !(v@ is Special) ==> one_if(v@ is Integer) + one_if(v@ is Pair) + one_if(v@ is Nil)
            + one_if(v@ is Object) == 1,
{
}

/// Decoding the value that encodes a representable integer gives the integer back.
pub proof fn lemma_integer_round_trip(i: i64, v: Scm)
    requires
        is_fixnum(i as int),
        v@ == ScmView::Integer(i as int),
    ensures
        v.spec_as_integer() == Some(i),
{
}

/// The head and tail of a freshly made pair are the values it was made from.
pub proof fn lemma_pair_round_trip(h0: &Heap, h1: &Heap, a: Scm, b: Scm, p: Scm)
    requires
        conses(h0, h1, a, b, p),
    ensures
        h1.spec_car(p) == Some(a),
        h1.spec_cdr(p) == Some(b),
{
}

/// An encoded integer is neither a pair nor the empty list; the empty list is
/// neither an integer nor a pair; a freshly made pair is neither an integer
/// nor the empty list.
pub proof fn lemma_tags_not_aliased(
    i: i64,
    n: Scm,
    nil: Scm,
    h0: &Heap,
    h1: &Heap,
    a: Scm,
    b: Scm,
    p: Scm,
)
    requires
        is_fixnum(i as int),
        n@ == ScmView::Integer(i as int),
        nil@ == ScmView::Nil,
        conses(h0, h1, a, b, p),
    ensures
        !(n@ is Pair) && !(n@ is Nil),
        !(nil@ is Integer) && !(nil@ is Pair),
        !(p@ is Integer) && !(p@ is Nil),
        p@ is Pair && h1.spec_as_pair(p) is Some,
{
}

/// A freshly allocated generic heap object passes only the generic object
/// test: it is neither an integer, nor a pair, nor the empty list, and it
/// refers to the record that holds the given contents.
pub proof fn lemma_object_only_generic(h0: &Heap, h1: &Heap, value: ScmValue, o: Scm)
    requires
        h1.objects() == h0.objects().push(value),
        o@ == ScmView::Object(h0.objects().len()),
    ensures
        !(o@ is Integer) && !(o@ is Pair) && !(o@ is Nil),
        o@ is Object && o@->Object_0 < h1.objects().len(),
        h1.objects()[o@->Object_0 as int] == value,
{
}

/// The alignment is two to the number of tag bits, and the address that a
/// pair or object value refers to, with the tag taken off, is a multiple of it.
pub proof fn lemma_addresses_aligned(v: Scm)
    ensures
        ALIGNMENT == 1u64 << N_TAG_BITS,
        v@ is Pair ==> v.word() >= TAG_PAIR && (v.word() - TAG_PAIR) % ALIGNMENT as int == 0,
        v@ is Object ==> v.word() % ALIGNMENT == 0,
{
    let w = v.word();
    assert(4u64 == 1u64 << 2u64) by (bit_vector);
    assert(w & 3u64 == 2u64 ==> w >= 2 && ((w - 2) as u64) % 4 == 0) by (bit_vector);
    assert(w & 3u64 == 0u64 ==> w % 4 == 0) by (bit_vector);
}

/// Inspection reads nothing but the value and the records it refers to, and
/// records never change: the same value inspected again, on the same heap or
/// after any further allocation, gives the same result.
pub proof fn lemma_inspection_stable(h0: &Heap, h1: &Heap, v: Scm)
    requires
        h1.extends(h0),
    ensures
        h0.spec_as_pair(v) is Some ==> h1.spec_as_pair(v) == h0.spec_as_pair(v),
        h0.spec_as_pair(v) is Some ==> h1.spec_car(v) == h0.spec_car(v),
        h0.spec_as_pair(v) is Some ==> h1.spec_cdr(v) == h0.spec_cdr(v),
{
    if h0.spec_as_pair(v) is Some {
        lemma_as_pair_stable(h0, h1, v);
    }
}

} // verus!
