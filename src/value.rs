use vstd::prelude::*;

verus! {

/// Number of low-order bits of a word that hold the tag.
pub const N_TAG_BITS: u64 = 2;

/// Mask that selects the tag bits of a word.
pub const TAG_MASK: u64 = 0b11;

/// Tag of a generic heap object: the word is the bare record address.
pub const TAG_POINTER: u64 = 0b00;

/// Tag of an immediate integer.
pub const TAG_INTEGER: u64 = 0b01;

/// Tag of a pair: the word is the record address plus this offset.
pub const TAG_PAIR: u64 = 0b10;

/// Tag of the special constants, such as the empty list.
pub const TAG_SPECIAL: u64 = 0b11;

/// The word of the empty list.
pub const SPECIAL_NIL: u64 = 0b0011;

/// All immediates have their lowest bit set.
pub const MASK_IMMEDIATE: u64 = 0b01;

/// Every record address is a multiple of this, so the tag bits are free.
pub const ALIGNMENT: u64 = 4;

/// Smallest integer that fits in the immediate payload.
pub const FIXNUM_MIN: i64 = -0x2000_0000_0000_0000;

/// Largest integer that fits in the immediate payload.
pub const FIXNUM_MAX: i64 = 0x1FFF_FFFF_FFFF_FFFF;

/// Bound on the number of records of each kind, so that an address fits in a word.
pub const MAX_RECORDS: u64 = 0x4000_0000_0000_0000;

/// The reading of a word: what the tag says and what the remaining bits hold.
pub enum ScmView {
    /// An immediate integer.
    Integer(int),
    /// The empty-list sentinel.
    Nil,
    /// A pair, by the index of its record.
    Pair(nat),
    /// A generic heap object, by the index of its record.
    Object(nat),
    /// A special constant other than the empty list (reserved).
    Special(nat),
}

/// Decodes a word by its tag. An integer is the word shifted right
/// arithmetically; a record index is the address shifted right.
pub open spec fn decode(w: u64) -> ScmView {
    let tag = w & TAG_MASK;
    if tag == TAG_INTEGER {
        ScmView::Integer(((w as i64) >> N_TAG_BITS) as int)
    } else if tag == TAG_PAIR {
        ScmView::Pair((w >> N_TAG_BITS) as nat)
    } else if tag == TAG_POINTER {
        ScmView::Object((w >> N_TAG_BITS) as nat)
    } else if w == SPECIAL_NIL {
        ScmView::Nil
    } else {
        ScmView::Special((w >> N_TAG_BITS) as nat)
    }
}

/// Whether an integer fits in the immediate payload.
pub open spec fn is_fixnum(i: int) -> bool {
    FIXNUM_MIN <= i <= FIXNUM_MAX
}

/// Errors of the constructors.
#[derive(Debug, Clone, Copy, PartialEq, Eq, Structural)]
pub enum ScmError {
    /// The integer does not fit in the immediate payload.
    OutOfRange,
}

/// A runtime value: one tagged word.
#[derive(Debug, Clone, Copy, PartialEq, Eq, Structural)]
pub struct Scm {
    value: u64,
}

impl View for Scm {
    type V = ScmView;

    open spec fn view(&self) -> ScmView {
        decode(self.word())
    }
}

proof fn lemma_fixnum_bits(i: i64)
    requires
        -0x2000_0000_0000_0000 <= i <= 0x1FFF_FFFF_FFFF_FFFF,
    ensures
        (((i as u64) << 2u64) | 1u64) & 3u64 == 1u64,
        ((((i as u64) << 2u64) | 1u64) as i64) >> 2u64 == i,
{
    assert((((i as u64) << 2u64) | 1u64) & 3u64 == 1u64) by (bit_vector);
    assert(((((i as u64) << 2u64) | 1u64) as i64) >> 2u64 == i) by (bit_vector)
        requires
            -0x2000_0000_0000_0000 <= i <= 0x1FFF_FFFF_FFFF_FFFF,
    ;
}

proof fn lemma_nil_bits()
    ensures
        decode(SPECIAL_NIL) == ScmView::Nil,
{
    assert(3u64 & 3u64 == 3u64) by (bit_vector);
}

proof fn lemma_record_bits(idx: u64, tag: u64)
    requires
        idx < 0x4000_0000_0000_0000,
        tag < 4,
    ensures
        (idx << 2u64) == idx * 4,
        (((idx << 2u64) + tag) as u64) & 3u64 == tag,
        (((idx << 2u64) + tag) as u64) >> 2u64 == idx,
{
    assert((idx << 2u64) == idx * 4) by (bit_vector)
        requires
            idx < 0x4000_0000_0000_0000,
    ;
    assert((((idx << 2u64) + tag) as u64) & 3u64 == tag) by (bit_vector)
        requires
            idx < 0x4000_0000_0000_0000,
            tag < 4,
    ;
    assert((((idx << 2u64) + tag) as u64) >> 2u64 == idx) by (bit_vector)
        requires
            idx < 0x4000_0000_0000_0000,
            tag < 4,
    ;
}

/// The integer that an integer value holds always fits in the payload.
pub proof fn lemma_integer_in_range(v: Scm)
    ensures
        v@ is Integer ==> is_fixnum(v@->Integer_0),
{
    let w = v.word();
    assert(-0x2000_0000_0000_0000 <= ((w as i64) >> 2u64) <= 0x1FFF_FFFF_FFFF_FFFF)
        by (bit_vector);
}

impl Scm {
    /// The raw word; visible to proofs only.
    pub closed spec fn word(self) -> u64 {
        self.value
    }

    /// What `as_integer` returns.
    pub open spec fn spec_as_integer(self) -> Option<i64> {
        match self@ {
            ScmView::Integer(i) => Some(i as i64),
            _ => None,
        }
    }

    /// The empty list. No allocation.
    pub fn nil() -> (r: Scm)
        ensures
            r@ == ScmView::Nil,
    {
        proof {
            lemma_nil_bits();
        }
        Scm { value: SPECIAL_NIL }
    }

    /// Encodes an integer that fits in the payload as an immediate.
    pub fn from_int(value: i64) -> (r: Scm)
        requires
            is_fixnum(value as int),
        ensures
            r@ == ScmView::Integer(value as int),
    {
        proof {
            lemma_fixnum_bits(value);
        }
        Scm { value: (value as u64) << N_TAG_BITS | TAG_INTEGER }
    }

    /// Encodes an integer, or reports that it does not fit in the payload.
    pub fn try_from_int(value: i64) -> (r: Result<Scm, ScmError>)
        ensures
            match r {
                Ok(v) => is_fixnum(value as int) && v@ == ScmView::Integer(value as int),
                Err(e) => !is_fixnum(value as int) && e == ScmError::OutOfRange,
            },
    {
        if FIXNUM_MIN <= value && value <= FIXNUM_MAX {
            Ok(Scm::from_int(value))
        } else {
            Err(ScmError::OutOfRange)
        }
    }

    /// Whether the value is an immediate (integer or special constant).
    pub fn is_immediate(&self) -> (r: bool)
        ensures
            r == (self@ is Integer || self@ is Nil || self@ is Special),
    {
        let w = self.value;
        assert((w & 1u64 != 0) == ((w & 3u64 == 1u64) || (w & 3u64 == 3u64)) && w & 3u64 <= 3u64)
            by (bit_vector);
        self.value & MASK_IMMEDIATE != 0
    }

    /// Whether the value is the empty list.
    pub fn is_nil(&self) -> (r: bool)
        ensures
            r == (self@ is Nil),
    {
        proof {
            lemma_nil_bits();
        }
        self.value == SPECIAL_NIL
    }

    /// The integer, if the value is an immediate integer.
    pub fn as_integer(&self) -> (r: Option<i64>)
        ensures
            r == self.spec_as_integer(),
    {
        if self.value & TAG_MASK == TAG_INTEGER {
            Some((self.value as i64) >> N_TAG_BITS)
        } else {
            None
        }
    }
}

/// Whether the value is tagged as a pair.
pub fn is_pair(scm: Scm) -> (r: bool)
    ensures
        r == (scm@ is Pair),
{
    scm.value & TAG_MASK == TAG_PAIR
}

/// Whether the value is an immediate integer.
pub fn is_integer(scm: Scm) -> (r: bool)
    ensures
        r == (scm@ is Integer),
{
    scm.as_integer().is_some()
}

/// Whether the value is the empty list.
pub fn is_null(scm: Scm) -> (r: bool)
    ensures
        r == (scm@ is Nil),
{
    scm.is_nil()
}

/// A generic heap object, reached through a word with the pointer tag.
#[derive(Debug)]
pub enum ScmValue {
    Vector(Vec<Scm>),
}

/// The records that heap values refer to. Records are only ever added,
/// never moved or freed, so a value that refers to one stays valid.
pub struct Heap {
    pairs: Vec<(Scm, Scm)>,
    objects: Vec<ScmValue>,
}

impl Heap {
    /// The pair records, by index.
    pub closed spec fn pairs(&self) -> Seq<(Scm, Scm)> {
        self.pairs@
    }

    /// The generic object records, by index.
    pub closed spec fn objects(&self) -> Seq<ScmValue> {
        self.objects@
    }

    /// The record a pair value refers to, if it is one held here.
    pub open spec fn spec_as_pair(&self, v: Scm) -> Option<(Scm, Scm)> {
        match v@ {
            ScmView::Pair(k) => if k < self.pairs().len() {
                Some(self.pairs()[k as int])
            } else {
                None
            },
            _ => None,
        }
    }

    /// What `car` returns.
    pub open spec fn spec_car(&self, v: Scm) -> Option<Scm> {
        match self.spec_as_pair(v) {
            Some(p) => Some(p.0),
            None => None,
        }
    }

    /// What `cdr` returns.
    pub open spec fn spec_cdr(&self, v: Scm) -> Option<Scm> {
        match self.spec_as_pair(v) {
            Some(p) => Some(p.1),
            None => None,
        }
    }

    /// This heap holds every record of `earlier`, at the same index.
    pub open spec fn extends(&self, earlier: &Heap) -> bool {
        earlier.pairs().is_prefix_of(self.pairs()) && earlier.objects().is_prefix_of(
            self.objects(),
        )
    }

    /// A heap with no records.
    pub fn new() -> (r: Heap)
        ensures
            r.pairs().len() == 0,
            r.objects().len() == 0,
    {
        Heap { pairs: Vec::new(), objects: Vec::new() }
    }

    /// Number of pair records.
    pub fn pair_count(&self) -> (r: usize)
        ensures
            r == self.pairs().len(),
    {
        self.pairs.len()
    }

    /// Number of generic object records.
    pub fn object_count(&self) -> (r: usize)
        ensures
            r == self.objects().len(),
    {
        self.objects.len()
    }
}

/// `h1` is `h0` with one pair record `(car, cdr)` added, and `r` is a pair
/// value that refers to that record.
pub open spec fn conses(h0: &Heap, h1: &Heap, car: Scm, cdr: Scm, r: Scm) -> bool {
    &&& h1.pairs() == h0.pairs().push((car, cdr))
    &&& h1.objects() == h0.objects()
    &&& r@ == ScmView::Pair(h0.pairs().len())
}

/// The address of the record at `index`: the index scaled by the alignment,
/// which leaves the tag bits clear.
pub fn ref_to_addr(index: u64) -> (r: u64)
    requires
        index < MAX_RECORDS,
    ensures
        r == index * ALIGNMENT,
        r % ALIGNMENT == 0,
{
    proof {
        lemma_record_bits(index, 0);
    }
    index << N_TAG_BITS
}

impl Scm {
    /// Allocates a generic heap object and returns the value that refers to it.
    pub fn new(heap: &mut Heap, value: ScmValue) -> (r: Scm)
        requires
            old(heap).objects().len() < MAX_RECORDS,
        ensures
            final(heap).objects() == old(heap).objects().push(value),
            final(heap).pairs() == old(heap).pairs(),
            r@ == ScmView::Object(old(heap).objects().len()),
    {
        let index = heap.objects.len() as u64;
        let addr = ref_to_addr(index);
        proof {
            lemma_record_bits(index, TAG_POINTER);
        }
        heap.objects.push(value);
        Scm { value: addr }
    }

    /// The object record, if the value has the pointer tag and refers to a
    /// record held in `heap`.
    pub fn as_ref<'a>(&self, heap: &'a Heap) -> (r: Option<&'a ScmValue>)
        ensures
            match r {
                Some(o) => self@ is Object && self@->Object_0 < heap.objects().len()
                    && *o == heap.objects()[self@->Object_0 as int],
                None => !(self@ is Object && self@->Object_0 < heap.objects().len()),
            },
    {
        if self.value & TAG_MASK == TAG_POINTER {
            let index = self.value >> N_TAG_BITS;
            if index < heap.objects.len() as u64 {
                Some(&heap.objects[index as usize])
            } else {
                None
            }
        } else {
            None
        }
    }

    /// The pair record, if the value has the pair tag and refers to a record
    /// held in `heap`.
    pub fn as_pair(&self, heap: &Heap) -> (r: Option<(Scm, Scm)>)
        ensures
            r == heap.spec_as_pair(*self),
    {
        if self.value & TAG_MASK == TAG_PAIR {
            let w = self.value;
            assert(w & 3u64 == 2u64 ==> w >= 2 && ((w - 2) as u64) >> 2u64 == w >> 2u64)
                by (bit_vector);
            let addr = self.value - TAG_PAIR;
            let index = addr >> N_TAG_BITS;
            if index < heap.pairs.len() as u64 {
                Some(heap.pairs[index as usize])
            } else {
                None
            }
        } else {
            None
        }
    }
}

/// Allocates a pair record holding `car` and `cdr`, and returns the value
/// that refers to it.
pub fn cons(heap: &mut Heap, car: Scm, cdr: Scm) -> (r: Scm)
    requires
        old(heap).pairs().len() < MAX_RECORDS,
    ensures
        conses(old(heap), final(heap), car, cdr, r),
{
    let index = heap.pairs.len() as u64;
    let addr = ref_to_addr(index);
    proof {
        lemma_record_bits(index, TAG_PAIR);
    }
    heap.pairs.push((car, cdr));
    Scm { value: addr + TAG_PAIR }
}

/// The head of a pair, or `None` for any other value.
pub fn car(heap: &Heap, scm: Scm) -> (r: Option<Scm>)
    ensures
        r == heap.spec_car(scm),
{
    match scm.as_pair(heap) {
        Some(p) => Some(p.0),
        None => None,
    }
}

/// The tail of a pair, or `None` for any other value.
pub fn cdr(heap: &Heap, scm: Scm) -> (r: Option<Scm>)
    ensures
        r == heap.spec_cdr(scm),
{
    match scm.as_pair(heap) {
        Some(p) => Some(p.1),
        None => None,
    }
}

} // verus!
