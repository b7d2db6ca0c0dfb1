use vstd::prelude::*;

verus! {

/// Number of low-order bits of a word that hold the tag.
pub const N_TAG_BITS: u64 = 1;

/// Mask that selects the tag bit of a word.
pub const TAG_MASK: u64 = 0b1;

/// Tag of a heap object: the word is the bare record address.
pub const TAG_POINTER: u64 = 0b0;

/// Tag of an immediate integer.
pub const TAG_INTEGER: u64 = 0b1;

/// Every record address is a multiple of this, so the tag bit is free.
pub const ALIGNMENT: u64 = 2;

/// Smallest integer that fits in the immediate payload.
pub const FIXNUM_MIN: i64 = -0x4000_0000_0000_0000;

/// Largest integer that fits in the immediate payload.
pub const FIXNUM_MAX: i64 = 0x3FFF_FFFF_FFFF_FFFF;

/// Bound on the number of records, so that an address fits in a word.
pub const MAX_RECORDS: u64 = 0x8000_0000_0000_0000;

/// The reading of a word under the one-bit encoding.
pub enum ScmView {
    /// An immediate integer.
    Integer(int),
    /// A heap object, by the index of its record.
    Ref(nat),
}

/// Decodes a word by its tag bit.
pub open spec fn decode(w: u64) -> ScmView {
    if w & TAG_MASK == TAG_INTEGER {
        ScmView::Integer(((w as i64) >> N_TAG_BITS) as int)
    } else {
        ScmView::Ref((w >> N_TAG_BITS) as nat)
    }
}

/// Whether an integer fits in the immediate payload.
pub open spec fn is_fixnum(i: int) -> bool {
    FIXNUM_MIN <= i <= FIXNUM_MAX
}

/// A runtime value: one word whose lowest bit tells an immediate integer
/// from a record address.
#[derive(Debug, Clone, Copy, PartialEq, Eq, Structural)]
pub struct Scm {
    value: u64,
}

impl View for Scm {
    type V = ScmView;

    open spec fn view(&self) -> ScmView {
        decode(self.word())
    }
}

/// A heap record; its variant is the second discriminant that a pointer
/// value is told apart by.
#[derive(Debug, Clone, Copy)]
pub enum ScmValue {
    Nil,
    Pair((Scm, Scm)),
}

/// The records that pointer values refer to; records are only ever added.
pub struct Heap {
    records: Vec<ScmValue>,
}

proof fn lemma_fixnum_bits(i: i64)
    requires
        -0x4000_0000_0000_0000 <= i <= 0x3FFF_FFFF_FFFF_FFFF,
    ensures
        (((i as u64) << 1u64) | 1u64) & 1u64 == 1u64,
        ((((i as u64) << 1u64) | 1u64) as i64) >> 1u64 == i,
{
    assert((((i as u64) << 1u64) | 1u64) & 1u64 == 1u64) by (bit_vector);
    assert(((((i as u64) << 1u64) | 1u64) as i64) >> 1u64 == i) by (bit_vector)
        requires
            -0x4000_0000_0000_0000 <= i <= 0x3FFF_FFFF_FFFF_FFFF,
    ;
}

proof fn lemma_record_bits(idx: u64)
    requires
        idx < 0x8000_0000_0000_0000,
    ensures
        (idx << 1u64) == idx * 2,
        (idx << 1u64) & 1u64 == 0u64,
        (idx << 1u64) >> 1u64 == idx,
{
    assert((idx << 1u64) == idx * 2 && (idx << 1u64) & 1u64 == 0u64 && (idx << 1u64) >> 1u64
        == idx) by (bit_vector)
        requires
            idx < 0x8000_0000_0000_0000,
    ;
}

impl Heap {
    /// The records, by index.
    pub closed spec fn records(&self) -> Seq<ScmValue> {
        self.records@
    }

    /// The record a pointer value refers to, if it is one held here.
    pub open spec fn spec_as_ref(&self, v: Scm) -> Option<ScmValue> {
        match v@ {
            ScmView::Ref(k) => if k < self.records().len() {
                Some(self.records()[k as int])
            } else {
                None
            },
            _ => None,
        }
    }

    /// The head and tail, if the value refers to a pair record held here.
    pub open spec fn spec_as_pair(&self, v: Scm) -> Option<(Scm, Scm)> {
        match self.spec_as_ref(v) {
            Some(ScmValue::Pair(p)) => Some(p),
            _ => None,
        }
    }

    /// A heap with no records.
    pub fn new() -> (r: Heap)
        ensures
            r.records().len() == 0,
    {
        Heap { records: Vec::new() }
    }

    /// Number of records.
    pub fn record_count(&self) -> (r: usize)
        ensures
            r == self.records().len(),
    {
        self.records.len()
    }
}

/// The address of the record at `index`, which leaves the tag bit clear.
pub fn ref_to_addr(index: u64) -> (r: u64)
    requires
        index < MAX_RECORDS,
    ensures
        r == index * ALIGNMENT,
        r % ALIGNMENT == 0,
{
    proof {
        lemma_record_bits(index);
    }
    index << N_TAG_BITS
}

impl Scm {
    /// The raw word; visible to proofs only.
    pub closed spec fn word(self) -> u64 {
        self.value
    }

    proof fn lemma_tag_is_bit(self)
        ensures
            self.word() & 1u64 == 0u64 || self.word() & 1u64 == 1u64,
    {
        let w = self.value;
        assert(w & 1u64 == 0u64 || w & 1u64 == 1u64) by (bit_vector);
    }

    /// What `as_integer` returns.
    pub open spec fn spec_as_integer(self) -> Option<i64> {
        match self@ {
            ScmView::Integer(i) => Some(i as i64),
            _ => None,
        }
    }

    /// Allocates a record and returns the pointer value that refers to it.
    pub fn new(heap: &mut Heap, value: ScmValue) -> (r: Scm)
        requires
            old(heap).records().len() < MAX_RECORDS,
        ensures
            final(heap).records() == old(heap).records().push(value),
            r@ == ScmView::Ref(old(heap).records().len()),
    {
        let index = heap.records.len() as u64;
        let addr = ref_to_addr(index);
        proof {
            lemma_record_bits(index);
        }
        heap.records.push(value);
        Scm { value: addr }
    }

    /// Encodes an integer that fits in the payload as an immediate.
    pub fn from_int(value: i64) -> (r: Scm)
        requires
            is_fixnum(value as int),
        ensures
            r@ == ScmView::Integer(value as int),
    {
        proof {
            lemma_fixnum_bits(value);
        }
        Scm { value: (value as u64) << N_TAG_BITS | TAG_INTEGER }
    }

    /// Whether the value is an immediate integer rather than a pointer.
    pub fn is_immediate(&self) -> (r: bool)
        ensures
            r == (self@ is Integer),
    {
        proof {
            self.lemma_tag_is_bit();
        }
        self.value & TAG_MASK != TAG_POINTER
    }

    /// The integer, if the value is an immediate integer.
    pub fn as_integer(&self) -> (r: Option<i64>)
        ensures
            r == self.spec_as_integer(),
    {
        if self.value & TAG_MASK == TAG_INTEGER {
            Some((self.value as i64) >> N_TAG_BITS)
        } else {
            None
        }
    }

    /// The record, if the value is a pointer to a record held in `heap`.
    pub fn as_ref<'a>(&self, heap: &'a Heap) -> (r: Option<&'a ScmValue>)
        ensures
            match r {
                Some(o) => heap.spec_as_ref(*self) == Some(*o),
                None => heap.spec_as_ref(*self) is None,
            },
    {
        proof {
            self.lemma_tag_is_bit();
        }
        if self.value & TAG_MASK == TAG_POINTER {
            let index = self.value >> N_TAG_BITS;
            if index < heap.records.len() as u64 {
                Some(&heap.records[index as usize])
            } else {
                None
            }
        } else {
            None
        }
    }

    /// The head and tail, if the value refers to a pair record: one
    /// dereference and a read of the record's discriminant.
    pub fn as_pair(&self, heap: &Heap) -> (r: Option<(Scm, Scm)>)
        ensures
            r == heap.spec_as_pair(*self),
    {
        match self.as_ref(heap) {
            Some(ScmValue::Pair(pair)) => Some(*pair),
            _ => None,
        }
    }
}

/// Allocates a pair record holding `car` and `cdr`.
pub fn cons(heap: &mut Heap, car: Scm, cdr: Scm) -> (r: Scm)
    requires
        old(heap).records().len() < MAX_RECORDS,
    ensures
        final(heap).records() == old(heap).records().push(ScmValue::Pair((car, cdr))),
        r@ == ScmView::Ref(old(heap).records().len()),
{
    Scm::new(heap, ScmValue::Pair((car, cdr)))
}

/// The head of a pair, or `None` for any other value.
pub fn car(heap: &Heap, scm: Scm) -> (r: Option<Scm>)
    ensures
        r == (match heap.spec_as_pair(scm) {
            Some(p) => Some(p.0),
            None => None,
        }),
{
    match scm.as_pair(heap) {
        Some(p) => Some(p.0),
        None => None,
    }
}

/// The tail of a pair, or `None` for any other value.
pub fn cdr(heap: &Heap, scm: Scm) -> (r: Option<Scm>)
    ensures
        r == (match heap.spec_as_pair(scm) {
            Some(p) => Some(p.1),
            None => None,
        }),
{
    match scm.as_pair(heap) {
        Some(p) => Some(p.1),
        None => None,
    }
}

/// Whether the value refers to a pair record held in `heap`.
pub fn is_pair(heap: &Heap, scm: Scm) -> (r: bool)
    ensures
        r == heap.spec_as_pair(scm) is Some,
{
    scm.as_pair(heap).is_some()
}

/// Whether the value is an immediate integer.
pub fn is_integer(scm: Scm) -> (r: bool)
    ensures
        r == (scm@ is Integer),
{
    scm.as_integer().is_some()
}

/// Whether the value refers to the empty-list record.
pub fn is_null(heap: &Heap, scm: Scm) -> (r: bool)
    ensures
        r == (heap.spec_as_ref(scm) == Some(ScmValue::Nil)),
{
    match scm.as_ref(heap) {
        Some(ScmValue::Nil) => true,
        _ => false,
    }
}

/// Under the one-bit encoding, at most one of the integer, pair and
/// empty-list tests holds of any value, and exactly one holds of an integer
/// and of a value that refers to a record held in the heap.
pub proof fn lemma_tags_disjoint(heap: &Heap, v: Scm)
    ensures
        !((v@ is Integer) && heap.spec_as_pair(v) is Some),
        !((v@ is Integer) && heap.spec_as_ref(v) == Some(ScmValue::Nil)),
        !(heap.spec_as_pair(v) is Some && heap.spec_as_ref(v) == Some(ScmValue::Nil)),
        (v@ is Integer || heap.spec_as_ref(v) is Some) ==> (v@ is Integer || heap.spec_as_pair(
            v,
        ) is Some || heap.spec_as_ref(v) == Some(ScmValue::Nil)),
{
}

/// Under the one-bit encoding, decoding the value that encodes a
/// representable integer gives the integer back.
pub proof fn lemma_integer_round_trip(i: i64, v: Scm)
    requires
        is_fixnum(i as int),
        v@ == ScmView::Integer(i as int),
    ensures
        v.spec_as_integer() == Some(i),
{
}

/// Under the one-bit encoding, the head and tail of a freshly made pair are
/// the values it was made from, and it is neither an integer nor the empty list.
pub proof fn lemma_pair_round_trip(h0: &Heap, h1: &Heap, a: Scm, b: Scm, p: Scm)
    requires
        h1.records() == h0.records().push(ScmValue::Pair((a, b))),
        p@ == ScmView::Ref(h0.records().len()),
    ensures
        h1.spec_as_pair(p) == Some((a, b)),
        !(p@ is Integer),
        h1.spec_as_ref(p) != Some(ScmValue::Nil),
{
}

} // verus!
