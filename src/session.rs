//! Construction sessions over a raw block, and the finalized values they produce.
use vstd::prelude::*;

use std::marker::PhantomData;

use crate::layout::{FieldSlot, RecordShape, ValueLayout};
use crate::memory::RawBlock;

verus! {

/// A type whose values can be built field by field inside a raw block.
///
/// An implementation describes the placement of the type's fields and reads a finished
/// block back as a value of the type. It is what a generator emits for a record from its
/// declared field list; the setters it offers write each field's bytes through
/// [`MemConstructor::set_field`].
pub trait MemConstruct: Sized {
    /// The layout of the type and the slot of each declared field.
    ///
    /// The default body (a zero-sized shape without fields) exists only so that an
    /// implementation written outside verified code compiles; such an implementation
    /// inherits it, and it is then false of that type. The contracts of this library
    /// speak of an implementation only where it defines both `shape_spec` and `decoded`
    /// in verified code.
    closed spec fn shape_spec() -> (ValueLayout, Seq<FieldSlot>) {
        (ValueLayout { size: 0, align: 1 }, Seq::empty())
    }

    fn shape() -> (r: RecordShape)
        ensures
            r@ == Self::shape_spec(),
            r.wf(),
    ;

    /// The value that a finished block of the given bytes holds. Its default, like that of
    /// `shape_spec`, only lets an implementation outside verified code compile.
    closed spec fn decoded(bytes: Seq<u8>) -> Self {
        vstd::pervasive::arbitrary()
    }

    /// Reads the bytes of a finalized block as a value of the type. For a zero-sized type
    /// this is the type's one value.
    fn assemble(bytes: &Vec<u8>) -> (r: Self)
        requires
            bytes@.len() == Self::shape_spec().0.size,
        ensures
            r == Self::decoded(bytes@),
    ;
}

/// The bytes of field `i` in a block of the given shape.
pub open spec fn field_bytes(bytes: Seq<u8>, fields: Seq<FieldSlot>, i: int) -> Seq<u8> {
    bytes.subrange(fields[i].offset as int, fields[i].end())
}

/// The bytes after writing `vals[k]` into slot `k` for each `k` of `order`, in that order.
pub open spec fn write_fields(
    bytes: Seq<u8>,
    fields: Seq<FieldSlot>,
    vals: Seq<Seq<u8>>,
    order: Seq<int>,
) -> Seq<u8>
    decreases order.len(),
{
    if order.len() == 0 {
        bytes
    } else {
        let k = order.last();
        crate::memory::write_at(
            write_fields(bytes, fields, vals, order.drop_last()),
            fields[k].offset as int,
            vals[k],
        )
    }
}

proof fn lemma_write_same(bytes: Seq<u8>, fields: Seq<FieldSlot>, i: int, val: Seq<u8>)
    requires
        0 <= i < fields.len(),
        fields[i].fits_in(bytes.len()),
        val.len() == fields[i].size,
    ensures
        field_bytes(crate::memory::write_at(bytes, fields[i].offset as int, val), fields, i)
            == val,
{
    assert(field_bytes(crate::memory::write_at(bytes, fields[i].offset as int, val), fields, i)
        =~= val);
}

proof fn lemma_write_other(bytes: Seq<u8>, fields: Seq<FieldSlot>, i: int, j: int, val: Seq<u8>)
    requires
        0 <= i < fields.len(),
        0 <= j < fields.len(),
        fields[j].fits_in(bytes.len()),
        fields[i].disjoint(fields[j]),
        val.len() == fields[i].size,
    ensures
        field_bytes(crate::memory::write_at(bytes, fields[i].offset as int, val), fields, j)
            == field_bytes(bytes, fields, j),
{
    assert(field_bytes(crate::memory::write_at(bytes, fields[i].offset as int, val), fields, j)
        =~= field_bytes(bytes, fields, j));
}

/// Round trip of construction: whatever the block held before, once each field has been
/// written exactly once, in any order, every field reads back exactly the value written
/// to it, and the block keeps its size.
pub proof fn lemma_round_trip(
    size: nat,
    fields: Seq<FieldSlot>,
    bytes: Seq<u8>,
    vals: Seq<Seq<u8>>,
    order: Seq<int>,
)
    requires
        crate::layout::slots_valid(size, fields),
        bytes.len() == size,
        vals.len() == fields.len(),
        forall|i: int| 0 <= i < fields.len() ==> (#[trigger] vals[i]).len() == fields[i].size,
        order.no_duplicates(),
        forall|k: int| 0 <= k < order.len() ==> 0 <= #[trigger] order[k] < fields.len(),
    ensures
        write_fields(bytes, fields, vals, order).len() == size,
        forall|j: int|
            #![trigger order.contains(j)]
            order.contains(j) ==> field_bytes(write_fields(bytes, fields, vals, order), fields, j)
                == vals[j],
    decreases order.len(),
{
    if order.len() > 0 {
        let prev = order.drop_last();
        let k = order.last();
        assert(prev.no_duplicates());
        lemma_round_trip(size, fields, bytes, vals, prev);
        let before = write_fields(bytes, fields, vals, prev);
        assert(fields[k].fits_in(size));
        lemma_write_same(before, fields, k, vals[k]);
        assert forall|j: int| #![trigger order.contains(j)] order.contains(j) implies field_bytes(
            write_fields(bytes, fields, vals, order),
            fields,
            j,
        ) == vals[j] by {
            if j != k {
                let m = choose|m: int| 0 <= m < order.len() && order[m] == j;
                assert(m != order.len() - 1);
                assert(prev[m] == j);
                assert(prev.contains(j));
                assert(fields[j].fits_in(size));
                assert(fields[k].disjoint(fields[j]));
                lemma_write_other(before, fields, k, j, vals[k]);
            }
        }
    }
}

/// A construction in progress: a block for one value of `T`, and one flag per declared
/// field saying whether it has been written.
pub struct MemConstructor<T: MemConstruct> {
    block: RawBlock,
    shape: RecordShape,
    set: Vec<bool>,
    target: PhantomData<T>,
}

impl<T: MemConstruct> MemConstructor<T> {
    pub closed spec fn shape(&self) -> RecordShape {
        self.shape
    }

    /// The block's current bytes.
    pub closed spec fn bytes(&self) -> Seq<u8> {
        self.block.bytes()
    }

    /// One flag per declared field: `true` once the field has been written.
    pub closed spec fn flags(&self) -> Seq<bool> {
        self.set@
    }

    /// The current bytes of field `i`.
    pub open spec fn field(&self, i: int) -> Seq<u8> {
        field_bytes(self.bytes(), self.shape().fields@, i)
    }

    pub open spec fn is_set(&self, i: int) -> bool {
        self.flags()[i]
    }

    /// Every declared field has been written.
    pub open spec fn complete(&self) -> bool {
        forall|i: int| 0 <= i < self.flags().len() ==> #[trigger] self.flags()[i]
    }

    #[verifier::type_invariant]
    closed spec fn wf(&self) -> bool {
        &&& self.shape.wf()
        &&& self.shape@ == T::shape_spec()
        &&& self.block.size() == self.shape.size()
        &&& self.set@.len() == self.shape.num_fields()
    }

    /// No field has been written yet.
    pub open spec fn fresh(&self) -> bool {
        &&& self.flags().len() == T::shape_spec().1.len()
        &&& forall|i: int| 0 <= i < self.flags().len() ==> !(#[trigger] self.flags()[i])
    }

    /// A session over `block` with no field written yet.
    pub(crate) fn new(block: RawBlock, shape: RecordShape) -> (r: MemConstructor<T>)
        requires
            shape.wf(),
            shape@ == T::shape_spec(),
            block.size() == shape.size(),
        ensures
            r.shape() == shape,
            r.bytes() == block.bytes(),
            r.flags() == Seq::new(shape.num_fields(), |i: int| false),
            r.fresh(),
    {
        let n = shape.fields.len();
        let mut set: Vec<bool> = Vec::new();
        let mut k: usize = 0;
        while k < n
            invariant
                k <= n,
                set@ == Seq::new(k as nat, |i: int| false),
            decreases n - k,
        {
            set.push(false);
            k = k + 1;
            assert(set@ =~= Seq::new(k as nat, |i: int| false));
        }
        MemConstructor { block, shape, set, target: PhantomData }
    }

    /// Number of declared fields.
    pub fn field_count(&self) -> (r: usize)
        ensures
            r == self.flags().len(),
            r == T::shape_spec().1.len(),
    {
        proof {
            use_type_invariant(self);
        }
        self.set.len()
    }

    /// The size of the value under construction.
    pub fn shape_size(&self) -> (r: usize)
        ensures
            r == self.shape().size(),
            r == T::shape_spec().0.size,
    {
        proof {
            use_type_invariant(self);
        }
        self.shape.layout.size
    }

    /// Whether field `i` has been written.
    pub fn field_is_set(&self, i: usize) -> (r: bool)
        requires
            i < self.flags().len(),
        ensures
            r == self.is_set(i as int),
    {
        self.set[i]
    }

    /// Whether every declared field has been written.
    pub fn is_complete(&self) -> (r: bool)
        ensures
            r == self.complete(),
            self.flags().len() == self.shape().num_fields(),
            self.bytes().len() == self.shape().size(),
            self.shape()@ == T::shape_spec(),
            self.shape().wf(),
    {
        proof {
            use_type_invariant(self);
        }
        let n = self.set.len();
        let mut k: usize = 0;
        while k < n
            invariant
                n == self.flags().len(),
                self.wf(),
                k <= n,
                forall|i: int| 0 <= i < k ==> #[trigger] self.flags()[i],
            decreases n - k,
        {
            if !self.set[k] {
                return false;
            }
            k = k + 1;
        }
        true
    }

    /// Writes `value` into field `i`, which must not have been written before, and marks
    /// it set. The other fields keep their bytes and flags.
    pub fn set_field(self, i: usize, value: &Vec<u8>) -> (r: MemConstructor<T>)
        requires
            i < T::shape_spec().1.len(),
            !self.is_set(i as int),
            value@.len() == T::shape_spec().1[i as int].size,
        ensures
            r.shape() == self.shape(),
            r.shape()@ == T::shape_spec(),
            self.flags().len() == T::shape_spec().1.len(),
            r.flags().len() == T::shape_spec().1.len(),
            r.bytes().len() == r.shape().size(),
            r.flags() == self.flags().update(i as int, true),
            r.bytes() == crate::memory::write_at(
                self.bytes(),
                self.shape().slot(i as int).offset as int,
                value@,
            ),
            r.field(i as int) == value@,
            forall|j: int|
                0 <= j < self.flags().len() && j != i ==> #[trigger] r.field(j) == self.field(j),
    {
        proof {
            use_type_invariant(&self);
        }
        let ghost before = self;
        let MemConstructor { mut block, shape, mut set, target } = self;
        let slot = shape.fields[i];
        proof {
            assert(shape.fields@[i as int].fits_in(shape.size()));
        }
        block.write(slot.offset, value);
        set.set(i, true);
        let s = MemConstructor { block, shape, set, target };
        proof {
            let b = s.bytes();
            let fs = s.shape.fields@;
            assert(field_bytes(b, fs, i as int) =~= value@);
            assert forall|j: int| 0 <= j < before.flags().len() && j != i implies #[trigger] s.field(
                j,
            ) == before.field(j) by {
                assert(fs[j].fits_in(s.shape.size()));
                assert(fs[i as int].disjoint(fs[j]));
                assert(field_bytes(b, fs, j) =~= field_bytes(before.bytes(), fs, j));
            }
        }
        s
    }

    /// Gives up the session and hands back its block and shape.
    pub(crate) fn into_parts(self) -> (r: (RawBlock, RecordShape))
        ensures
            r.0.bytes() == self.bytes(),
            r.1 == self.shape(),
            r.0.size() == r.1.size(),
            r.1.wf(),
            r.1@ == T::shape_spec(),
    {
        proof {
            use_type_invariant(&self);
        }
        (self.block, self.shape)
    }
}

/// The finalized, fully written occupant of a block: a value of `T`.
pub struct Value<T: MemConstruct> {
    block: RawBlock,
    shape: RecordShape,
    target: PhantomData<T>,
}

impl<T: MemConstruct> Value<T> {
    pub closed spec fn shape(&self) -> RecordShape {
        self.shape
    }

    pub closed spec fn bytes(&self) -> Seq<u8> {
        self.block.bytes()
    }

    /// The bytes of field `i`.
    pub open spec fn field(&self, i: int) -> Seq<u8> {
        field_bytes(self.bytes(), self.shape().fields@, i)
    }

    #[verifier::type_invariant]
    closed spec fn wf(&self) -> bool {
        &&& self.shape.wf()
        &&& self.shape@ == T::shape_spec()
        &&& self.block.size() == self.shape.size()
    }

    /// Finalizes a session in which every field has been written.
    pub(crate) fn from_session(session: MemConstructor<T>) -> (r: Value<T>)
        requires
            session.complete(),
        ensures
            r.shape() == session.shape(),
            r.bytes() == session.bytes(),
    {
        let (block, shape) = session.into_parts();
        Value { block, shape, target: PhantomData }
    }

    /// Number of declared fields.
    pub fn field_count(&self) -> (r: usize)
        ensures
            r == self.shape().num_fields(),
    {
        self.shape.fields.len()
    }

    /// Reads field `i`.
    pub fn read_field(&self, i: usize) -> (r: Vec<u8>)
        requires
            i < self.shape().num_fields(),
        ensures
            r@ == self.field(i as int),
    {
        proof {
            use_type_invariant(self);
        }
        let slot = self.shape.fields[i];
        proof {
            assert(self.shape.fields@[i as int].fits_in(self.shape.size()));
        }
        self.block.read(slot.offset, slot.size)
    }
}

impl<T: MemConstruct> Value<T> {
    /// The value of `T` that the block holds.
    pub fn into_inner(self) -> (r: T)
        ensures
            r == T::decoded(self.bytes()),
    {
        proof {
            use_type_invariant(&self);
        }
        T::assemble(self.block.contents())
    }
}

} // verus!
