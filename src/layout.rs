//! Sizes, alignments and field placements of constructible values.
use vstd::prelude::*;

verus! {

/// Size and alignment of one concrete value type, in bytes.
#[derive(Clone, Copy, Debug, PartialEq, Eq, Structural)]
pub struct ValueLayout {
    pub size: usize,
    pub align: usize,
}

/// The byte range `[offset, offset + size)` that one field occupies inside its value.
#[derive(Clone, Copy, Debug, PartialEq, Eq, Structural)]
pub struct FieldSlot {
    pub offset: usize,
    pub size: usize,
}

impl ValueLayout {
    /// A value of this layout needs no storage.
    pub open spec fn is_zero_sized(&self) -> bool {
        self.size == 0
    }

    pub open spec fn wf(&self) -> bool {
        self.align >= 1
    }
}

impl FieldSlot {
    pub open spec fn end(&self) -> int {
        self.offset + self.size
    }

    /// The slot lies within a value of `size` bytes.
    pub open spec fn fits_in(&self, size: nat) -> bool {
        self.end() <= size
    }

    /// The two slots share no byte.
    pub open spec fn disjoint(&self, other: FieldSlot) -> bool {
        self.end() <= other.offset || other.end() <= self.offset
    }
}

/// All slots lie within `size` bytes and no two of them overlap.
pub open spec fn slots_valid(size: nat, fields: Seq<FieldSlot>) -> bool {
    &&& forall|i: int| 0 <= i < fields.len() ==> #[trigger] fields[i].fits_in(size)
    &&& forall|i: int, j: int|
        0 <= i < fields.len() && 0 <= j < fields.len() && i != j ==> #[trigger] fields[i].disjoint(
            #[trigger] fields[j],
        )
}

/// The layout of a record value together with the placement of each declared field.
#[derive(Debug)]
pub struct RecordShape {
    pub layout: ValueLayout,
    pub fields: Vec<FieldSlot>,
}

impl RecordShape {
    /// The mathematical shape: the value's layout and the field slots in declaration order.
    pub open spec fn view(&self) -> (ValueLayout, Seq<FieldSlot>) {
        (self.layout, self.fields@)
    }

    pub open spec fn size(&self) -> nat {
        self.layout.size as nat
    }

    pub open spec fn slot(&self, i: int) -> FieldSlot {
        self.fields@[i]
    }

    pub open spec fn num_fields(&self) -> nat {
        self.fields@.len()
    }

    pub open spec fn wf(&self) -> bool {
        self.layout.wf() && slots_valid(self.layout.size as nat, self.fields@)
    }

    /// Builds a shape, or `None` where the alignment is zero, a slot reaches past the end
    /// of the value, or two slots overlap.
    pub fn new(size: usize, align: usize, fields: Vec<FieldSlot>) -> (r: Option<RecordShape>)
        ensures
            match r {
                Some(s) => s.layout == (ValueLayout { size, align }) && s.fields@ == fields@
                    && s.wf(),
                None => !(align >= 1 && slots_valid(size as nat, fields@)),
            },
    {
        if align == 0 {
            return None;
        }
        let n = fields.len();
        let mut i: usize = 0;
        while i < n
            invariant
                n == fields@.len(),
                i <= n,
                forall|a: int| 0 <= a < i ==> #[trigger] fields@[a].fits_in(size as nat),
                forall|a: int, b: int|
                    0 <= a < i && 0 <= b < n && a != b ==> #[trigger] fields@[a].disjoint(
                        #[trigger] fields@[b],
                    ),
            decreases n - i,
        {
            let fi = fields[i];
            if fi.offset > size || fi.size > size - fi.offset {
                assert(!fields@[i as int].fits_in(size as nat));
                return None;
            }
            let mut j: usize = 0;
            while j < n
                invariant
                    n == fields@.len(),
                    i < n,
                    j <= n,
                    fi == fields@[i as int],
                    forall|b: int|
                        0 <= b < j && b != i ==> #[trigger] fields@[i as int].disjoint(
                            fields@[b],
                        ),
                decreases n - j,
            {
                let fj = fields[j];
                if j != i {
                    let apart = (fi.offset as u128 + fi.size as u128 <= fj.offset as u128) || (
                    fj.offset as u128 + fj.size as u128 <= fi.offset as u128);
                    if !apart {
                        assert(!fields@[i as int].disjoint(fields@[j as int]));
                        return None;
                    }
                }
                j = j + 1;
            }
            i = i + 1;
        }
        Some(RecordShape { layout: ValueLayout { size, align }, fields })
    }

    /// Number of declared fields.
    pub fn field_count(&self) -> (r: usize)
        ensures
            r == self.num_fields(),
    {
        self.fields.len()
    }
}

} // verus!
