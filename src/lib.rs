//! Construction of values directly in their final memory block, field by field.
//!
//! A value is described by a [`layout::RecordShape`]: its size, alignment and the byte
//! range of each field. The [`memory::Allocator`] hands out raw blocks and counts every
//! transition of a block (allocated, freed, finalized). A [`session::MemConstructor`]
//! writes fields into a block and tracks which ones are set; the driver in
//! [`heapconstruct`] turns a complete session into a [`session::Value`] or frees the
//! block on failure. [`array`] builds fixed-length sequences element by element, with
//! rollback of the built prefix, or by a byte pattern.

pub mod array;
pub mod codec;
pub mod heapconstruct;
pub mod memory;
pub mod primitive;
pub mod session;
pub mod layout;

pub use heapconstruct::{
    construct_box, construct_in_block, heapconstruct_in_block, try_heapconstruct,
    try_heapconstruct_fallible, HeapConstruct, HeapConstructError,
};
pub use memory::{AllocError, Allocator};
pub use primitive::MemconstructPrimitive;
pub use session::{MemConstruct, MemConstructor, Value};
