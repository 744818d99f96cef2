//! Element types whose every value of one repeated byte is a valid value.
use vstd::prelude::*;

use crate::codec::{decode_le, encode_le};
use crate::layout::{FieldSlot, RecordShape, ValueLayout};
use crate::session::{MemConstruct, MemConstructor};

verus! {

/// A fixed-width integer: the value whose bytes all equal `byte` is well defined, so a
/// run of such values can be written by filling memory with that byte.
pub trait MemconstructPrimitive: Sized {
    /// The value whose every byte is `byte`.
    spec fn filled_spec(byte: u8) -> Self;

    fn filled(byte: u8) -> (r: Self)
        ensures
            r == Self::filled_spec(byte),
    ;
}

impl MemconstructPrimitive for u8 {
    open spec fn filled_spec(byte: u8) -> u8 {
        byte
    }

    fn filled(byte: u8) -> (r: u8) {
        byte
    }
}

impl MemconstructPrimitive for i8 {
    open spec fn filled_spec(byte: u8) -> i8 {
        byte as i8
    }

    fn filled(byte: u8) -> (r: i8) {
        byte as i8
    }
}

impl MemconstructPrimitive for u16 {
    open spec fn filled_spec(byte: u8) -> u16 {
        (byte as int * 0x0101) as u16
    }

    fn filled(byte: u8) -> (r: u16) {
        assert(byte as int * 0x0101 <= 0xffff) by (nonlinear_arith)
            requires
                byte <= 0xff,
        ;
        (byte as u16) * 0x0101
    }
}

impl MemconstructPrimitive for i16 {
    open spec fn filled_spec(byte: u8) -> i16 {
        (byte as int * 0x0101) as u16 as i16
    }

    fn filled(byte: u8) -> (r: i16) {
        let u: u16 = u16::filled(byte);
        u as i16
    }
}

impl MemconstructPrimitive for u32 {
    open spec fn filled_spec(byte: u8) -> u32 {
        (byte as int * 0x0101_0101) as u32
    }

    fn filled(byte: u8) -> (r: u32) {
        assert(byte as int * 0x0101_0101 <= 0xffff_ffff) by (nonlinear_arith)
            requires
                byte <= 0xff,
        ;
        (byte as u32) * 0x0101_0101
    }
}

impl MemconstructPrimitive for i32 {
    open spec fn filled_spec(byte: u8) -> i32 {
        (byte as int * 0x0101_0101) as u32 as i32
    }

    fn filled(byte: u8) -> (r: i32) {
        let u: u32 = u32::filled(byte);
        u as i32
    }
}

impl MemconstructPrimitive for u64 {
    open spec fn filled_spec(byte: u8) -> u64 {
        (byte as int * 0x0101_0101_0101_0101) as u64
    }

    fn filled(byte: u8) -> (r: u64) {
        assert(byte as int * 0x0101_0101_0101_0101 <= 0xffff_ffff_ffff_ffff) by (nonlinear_arith)
            requires
                byte <= 0xff,
        ;
        (byte as u64) * 0x0101_0101_0101_0101
    }
}

impl MemconstructPrimitive for i64 {
    open spec fn filled_spec(byte: u8) -> i64 {
        (byte as int * 0x0101_0101_0101_0101) as u64 as i64
    }

    fn filled(byte: u8) -> (r: i64) {
        let u: u64 = u64::filled(byte);
        u as i64
    }
}

impl MemConstruct for u8 {
    open spec fn shape_spec() -> (ValueLayout, Seq<FieldSlot>) {
        primitive_shape_spec(1)
    }

    open spec fn decoded(bytes: Seq<u8>) -> u8 {
        crate::codec::le_value(bytes) as u8
    }

    fn shape() -> (r: RecordShape) {
        primitive_shape(1)
    }

    fn assemble(bytes: &Vec<u8>) -> (r: u8) {
        decode_le(bytes) as u8
    }
}

impl MemConstructor<u8> {
    /// Writes the value; the session is then complete.
    pub fn set(self, v: u8) -> (r: MemConstructor<u8>)
        requires
            !self.is_set(0),
        ensures
            r.complete(),
            u8::decoded(r.bytes()) == v,
    {
        proof {
            reveal_with_fuel(crate::codec::pow256, 2);
            assert(crate::codec::pow256(1) == 0x100);
        }
        set_le(self, v as u64, 1)
    }
}

impl MemConstruct for i8 {
    open spec fn shape_spec() -> (ValueLayout, Seq<FieldSlot>) {
        primitive_shape_spec(1)
    }

    open spec fn decoded(bytes: Seq<u8>) -> i8 {
        crate::codec::le_value(bytes) as u8 as i8
    }

    fn shape() -> (r: RecordShape) {
        primitive_shape(1)
    }

    fn assemble(bytes: &Vec<u8>) -> (r: i8) {
        decode_le(bytes) as u8 as i8
    }
}

impl MemConstructor<i8> {
    /// Writes the value; the session is then complete.
    pub fn set(self, v: i8) -> (r: MemConstructor<i8>)
        requires
            !self.is_set(0),
        ensures
            r.complete(),
            i8::decoded(r.bytes()) == v,
    {
        proof {
            reveal_with_fuel(crate::codec::pow256, 2);
            assert(crate::codec::pow256(1) == 0x100);
        }
        let u: u8 = #[verifier::truncate] (v as u8);
        proof {
            assert(u as i8 == v) by (bit_vector)
                requires
                    u == #[verifier::truncate] (v as u8),
            ;
        }
        set_le(self, u as u64, 1)
    }
}

impl MemConstruct for u16 {
    open spec fn shape_spec() -> (ValueLayout, Seq<FieldSlot>) {
        primitive_shape_spec(2)
    }

    open spec fn decoded(bytes: Seq<u8>) -> u16 {
        crate::codec::le_value(bytes) as u16
    }

    fn shape() -> (r: RecordShape) {
        primitive_shape(2)
    }

    fn assemble(bytes: &Vec<u8>) -> (r: u16) {
        decode_le(bytes) as u16
    }
}

impl MemConstructor<u16> {
    /// Writes the value; the session is then complete.
    pub fn set(self, v: u16) -> (r: MemConstructor<u16>)
        requires
            !self.is_set(0),
        ensures
            r.complete(),
            u16::decoded(r.bytes()) == v,
    {
        proof {
            reveal_with_fuel(crate::codec::pow256, 3);
            assert(crate::codec::pow256(2) == 0x1_0000);
        }
        set_le(self, v as u64, 2)
    }
}

impl MemConstruct for i16 {
    open spec fn shape_spec() -> (ValueLayout, Seq<FieldSlot>) {
        primitive_shape_spec(2)
    }

    open spec fn decoded(bytes: Seq<u8>) -> i16 {
        crate::codec::le_value(bytes) as u16 as i16
    }

    fn shape() -> (r: RecordShape) {
        primitive_shape(2)
    }

    fn assemble(bytes: &Vec<u8>) -> (r: i16) {
        decode_le(bytes) as u16 as i16
    }
}

impl MemConstructor<i16> {
    /// Writes the value; the session is then complete.
    pub fn set(self, v: i16) -> (r: MemConstructor<i16>)
        requires
            !self.is_set(0),
        ensures
            r.complete(),
            i16::decoded(r.bytes()) == v,
    {
        proof {
            reveal_with_fuel(crate::codec::pow256, 3);
            assert(crate::codec::pow256(2) == 0x1_0000);
        }
        let u: u16 = #[verifier::truncate] (v as u16);
        proof {
            assert(u as i16 == v) by (bit_vector)
                requires
                    u == #[verifier::truncate] (v as u16),
            ;
        }
        set_le(self, u as u64, 2)
    }
}

impl MemConstruct for u32 {
    open spec fn shape_spec() -> (ValueLayout, Seq<FieldSlot>) {
        primitive_shape_spec(4)
    }

    open spec fn decoded(bytes: Seq<u8>) -> u32 {
        crate::codec::le_value(bytes) as u32
    }

    fn shape() -> (r: RecordShape) {
        primitive_shape(4)
    }

    fn assemble(bytes: &Vec<u8>) -> (r: u32) {
        decode_le(bytes) as u32
    }
}

impl MemConstructor<u32> {
    /// Writes the value; the session is then complete.
    pub fn set(self, v: u32) -> (r: MemConstructor<u32>)
        requires
            !self.is_set(0),
        ensures
            r.complete(),
            u32::decoded(r.bytes()) == v,
    {
        proof {
            reveal_with_fuel(crate::codec::pow256, 5);
            assert(crate::codec::pow256(4) == 0x1_0000_0000);
        }
        set_le(self, v as u64, 4)
    }
}

impl MemConstruct for i32 {
    open spec fn shape_spec() -> (ValueLayout, Seq<FieldSlot>) {
        primitive_shape_spec(4)
    }

    open spec fn decoded(bytes: Seq<u8>) -> i32 {
        crate::codec::le_value(bytes) as u32 as i32
    }

    fn shape() -> (r: RecordShape) {
        primitive_shape(4)
    }

    fn assemble(bytes: &Vec<u8>) -> (r: i32) {
        decode_le(bytes) as u32 as i32
    }
}

impl MemConstructor<i32> {
    /// Writes the value; the session is then complete.
    pub fn set(self, v: i32) -> (r: MemConstructor<i32>)
        requires
            !self.is_set(0),
        ensures
            r.complete(),
            i32::decoded(r.bytes()) == v,
    {
        proof {
            reveal_with_fuel(crate::codec::pow256, 5);
            assert(crate::codec::pow256(4) == 0x1_0000_0000);
        }
        let u: u32 = #[verifier::truncate] (v as u32);
        proof {
            assert(u as i32 == v) by (bit_vector)
                requires
                    u == #[verifier::truncate] (v as u32),
            ;
        }
        set_le(self, u as u64, 4)
    }
}

impl MemConstruct for u64 {
    open spec fn shape_spec() -> (ValueLayout, Seq<FieldSlot>) {
        primitive_shape_spec(8)
    }

    open spec fn decoded(bytes: Seq<u8>) -> u64 {
        crate::codec::le_value(bytes) as u64
    }

    fn shape() -> (r: RecordShape) {
        primitive_shape(8)
    }

    fn assemble(bytes: &Vec<u8>) -> (r: u64) {
        decode_le(bytes) as u64
    }
}

impl MemConstructor<u64> {
    /// Writes the value; the session is then complete.
    pub fn set(self, v: u64) -> (r: MemConstructor<u64>)
        requires
            !self.is_set(0),
        ensures
            r.complete(),
            u64::decoded(r.bytes()) == v,
    {
        proof {
            reveal_with_fuel(crate::codec::pow256, 9);
            assert(crate::codec::pow256(8) == 0x1_0000_0000_0000_0000);
        }
        set_le(self, v as u64, 8)
    }
}

impl MemConstruct for i64 {
    open spec fn shape_spec() -> (ValueLayout, Seq<FieldSlot>) {
        primitive_shape_spec(8)
    }

    open spec fn decoded(bytes: Seq<u8>) -> i64 {
        crate::codec::le_value(bytes) as u64 as i64
    }

    fn shape() -> (r: RecordShape) {
        primitive_shape(8)
    }

    fn assemble(bytes: &Vec<u8>) -> (r: i64) {
        decode_le(bytes) as u64 as i64
    }
}

impl MemConstructor<i64> {
    /// Writes the value; the session is then complete.
    pub fn set(self, v: i64) -> (r: MemConstructor<i64>)
        requires
            !self.is_set(0),
        ensures
            r.complete(),
            i64::decoded(r.bytes()) == v,
    {
        proof {
            reveal_with_fuel(crate::codec::pow256, 9);
            assert(crate::codec::pow256(8) == 0x1_0000_0000_0000_0000);
        }
        let u: u64 = #[verifier::truncate] (v as u64);
        proof {
            assert(u as i64 == v) by (bit_vector)
                requires
                    u == #[verifier::truncate] (v as u64),
            ;
        }
        set_le(self, u as u64, 8)
    }
}

/// The shape of a `width`-byte integer: one field that fills the whole value.
pub open spec fn primitive_shape_spec(width: usize) -> (ValueLayout, Seq<FieldSlot>) {
    (ValueLayout { size: width, align: width }, seq![FieldSlot { offset: 0, size: width }])
}

fn primitive_shape(width: usize) -> (r: RecordShape)
    requires
        1 <= width,
    ensures
        r@ == primitive_shape_spec(width),
        r.wf(),
{
    let mut fields: Vec<FieldSlot> = Vec::new();
    fields.push(FieldSlot { offset: 0, size: width });
    let r = RecordShape { layout: ValueLayout { size: width, align: width }, fields };
    proof {
        assert(r.fields@ =~= seq![FieldSlot { offset: 0, size: width }]);
    }
    r
}

/// Writes the `width` little-endian bytes of `v` into the single field of an integer's
/// session.
fn set_le<T: MemConstruct>(session: MemConstructor<T>, v: u64, width: usize) -> (r: MemConstructor<T>)
    requires
        T::shape_spec() == primitive_shape_spec(width),
        1 <= width <= 8,
        v < crate::codec::pow256(width as nat),
        !session.is_set(0),
    ensures
        r.complete(),
        crate::codec::le_value(r.bytes()) == v,
{
    proof {
        assert(primitive_shape_spec(width).1.len() == 1);
        assert(primitive_shape_spec(width).1[0] == FieldSlot { offset: 0, size: width });
    }
    let bytes = encode_le(v, width);
    let ghost before = session.flags();
    let r = session.set_field(0, &bytes);
    proof {
        assert(r.flags().len() == 1);
        assert(r.flags() == before.update(0, true));
        assert(before.len() == 1);
        assert(r.flags()[0]);
        assert(r.complete());
        assert(r.shape().fields@[0] == FieldSlot { offset: 0, size: width });
        assert(r.field(0) == bytes@);
        assert(r.bytes().subrange(0, width as int) =~= r.bytes());
    }
    r
}

} // verus!
