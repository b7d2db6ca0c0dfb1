use vstd::prelude::*;

verus! {

/// A value record of the boxed baseline: every value, integers included,
/// lives in the heap.
#[derive(Debug, Clone, Copy)]
pub enum ScmValue {
    Nil,
    Integer(i64),
    Pair(Scm, Scm),
}

/// A runtime value of the boxed baseline: the index of its record, with no
/// tag and no immediates.
#[derive(Debug, Clone, Copy, PartialEq, Eq, Structural)]
pub struct Scm {
    index: usize,
}

impl View for Scm {
    type V = nat;

    closed spec fn view(&self) -> nat {
        self.index as nat
    }
}

/// The records that values refer to; records are only ever added.
pub struct Heap {
    values: Vec<ScmValue>,
}

impl Heap {
    /// The records, by index.
    pub closed spec fn values(&self) -> Seq<ScmValue> {
        self.values@
    }

    /// The record a value refers to, if it is one held here.
    pub open spec fn spec_record(&self, v: Scm) -> Option<ScmValue> {
        if v@ < self.values().len() {
            Some(self.values()[v@ as int])
        } else {
            None
        }
    }

    /// A heap with no records.
    pub fn new() -> (r: Heap)
        ensures
            r.values().len() == 0,
    {
        Heap { values: Vec::new() }
    }

    /// Number of records.
    pub fn record_count(&self) -> (r: usize)
        ensures
            r == self.values().len(),
    {
        self.values.len()
    }

    fn record(&self, scm: Scm) -> (r: Option<ScmValue>)
        ensures
            r == self.spec_record(scm),
    {
        if scm.index < self.values.len() {
            Some(self.values[scm.index])
        } else {
            None
        }
    }
}

/// Allocates a record and returns the value that refers to it.
pub fn make_scm(heap: &mut Heap, value: ScmValue) -> (r: Scm)
    requires
        old(heap).values().len() < usize::MAX,
    ensures
        final(heap).values() == old(heap).values().push(value),
        r@ == old(heap).values().len(),
{
    let index = heap.values.len();
    heap.values.push(value);
    Scm { index }
}

/// Allocates an integer record.
pub fn make_int(heap: &mut Heap, i: i64) -> (r: Scm)
    requires
        old(heap).values().len() < usize::MAX,
    ensures
        final(heap).values() == old(heap).values().push(ScmValue::Integer(i)),
        r@ == old(heap).values().len(),
{
    make_scm(heap, ScmValue::Integer(i))
}

/// Allocates a pair record holding `car` and `cdr`.
pub fn cons(heap: &mut Heap, car: Scm, cdr: Scm) -> (r: Scm)
    requires
        old(heap).values().len() < usize::MAX,
    ensures
        final(heap).values() == old(heap).values().push(ScmValue::Pair(car, cdr)),
        r@ == old(heap).values().len(),
{
    make_scm(heap, ScmValue::Pair(car, cdr))
}

/// The head of a pair, or `None` for any other value.
pub fn car(heap: &Heap, scm: Scm) -> (r: Option<Scm>)
    ensures
        r == (match heap.spec_record(scm) {
            Some(ScmValue::Pair(a, _)) => Some(a),
            _ => None,
        }),
{
    match heap.record(scm) {
        Some(ScmValue::Pair(a, _)) => Some(a),
        _ => None,
    }
}

/// The tail of a pair, or `None` for any other value.
pub fn cdr(heap: &Heap, scm: Scm) -> (r: Option<Scm>)
    ensures
        r == (match heap.spec_record(scm) {
            Some(ScmValue::Pair(_, b)) => Some(b),
            _ => None,
        }),
{
    match heap.record(scm) {
        Some(ScmValue::Pair(_, b)) => Some(b),
        _ => None,
    }
}

/// Whether the value refers to a pair record.
pub fn is_pair(heap: &Heap, scm: Scm) -> (r: bool)
    ensures
        r == (heap.spec_record(scm) matches Some(ScmValue::Pair(_, _))),
{
    match heap.record(scm) {
        Some(ScmValue::Pair(_, _)) => true,
        _ => false,
    }
}

/// The integer, if the value refers to an integer record.
pub fn as_integer(heap: &Heap, scm: Scm) -> (r: Option<i64>)
    ensures
        r == (match heap.spec_record(scm) {
            Some(ScmValue::Integer(i)) => Some(i),
            _ => None,
        }),
{
    match heap.record(scm) {
        Some(ScmValue::Integer(i)) => Some(i),
        _ => None,
    }
}

/// Whether the value refers to an integer record.
pub fn is_integer(heap: &Heap, scm: Scm) -> (r: bool)
    ensures
        r == (heap.spec_record(scm) matches Some(ScmValue::Integer(_))),
{
    match heap.record(scm) {
        Some(ScmValue::Integer(_)) => true,
        _ => false,
    }
}

/// Whether the value refers to the empty-list record.
pub fn is_null(heap: &Heap, scm: Scm) -> (r: bool)
    ensures
        r == (heap.spec_record(scm) matches Some(ScmValue::Nil)),
{
    match heap.record(scm) {
        Some(ScmValue::Nil) => true,
        _ => false,
    }
}

/// Under the boxed baseline, exactly one of the integer, pair and empty-list
/// tests holds of every value whose record is held in the heap, and none of
/// any other value.
pub proof fn lemma_tags_disjoint(heap: &Heap, v: Scm)
    ensures
        heap.spec_record(v) is Some ==> (heap.spec_record(v) matches Some(ScmValue::Integer(_)))
            || (heap.spec_record(v) matches Some(ScmValue::Pair(_, _))) || (heap.spec_record(
            v,
        ) matches Some(ScmValue::Nil)),
        !((heap.spec_record(v) matches Some(ScmValue::Integer(_))) && (heap.spec_record(
            v,
        ) matches Some(ScmValue::Pair(_, _)))),
        !((heap.spec_record(v) matches Some(ScmValue::Integer(_))) && (heap.spec_record(
            v,
        ) matches Some(ScmValue::Nil))),
        !((heap.spec_record(v) matches Some(ScmValue::Pair(_, _))) && (heap.spec_record(
            v,
        ) matches Some(ScmValue::Nil))),
{
}

/// Under the boxed baseline, a freshly boxed integer reads back as itself,
/// and a freshly made pair gives back its head and tail.
pub proof fn lemma_round_trips(h0: &Heap, h1: &Heap, v: Scm, value: ScmValue)
    requires
        h1.values() == h0.values().push(value),
        v@ == h0.values().len(),
    ensures
        h1.spec_record(v) == Some(value),
        value matches ScmValue::Integer(i) ==> (h1.spec_record(v) matches Some(
            ScmValue::Integer(j),
        ) && j == i),
        value matches ScmValue::Pair(a, b) ==> (h1.spec_record(v) matches Some(
            ScmValue::Pair(x, y),
        ) && x == a && y == b),
{
}

} // verus!
