//! The failure-safe construction driver: allocate, run the caller's construction on a
//! session, then finalize the block into a value or free it.
use vstd::prelude::*;

use crate::memory::{AllocError, Allocator, RawBlock};
use crate::session::{MemConstruct, MemConstructor, Value};

verus! {

/// Why a construction produced no value.
#[derive(Debug, PartialEq, Eq)]
pub enum HeapConstructError<E> {
    /// The allocator could not supply a block; the construction was never run.
    AllocationFailure,
    /// The construction returned its own failure; the block was freed.
    ConstructFailed(E),
    /// The construction returned a session with a field still unset; the block was freed.
    Incomplete,
}

/// The number of bytes a value of `T` occupies.
pub open spec fn value_size<T: MemConstruct>() -> nat {
    T::shape_spec().0.size as nat
}

/// What a construction did to the allocator's counts. A zero-sized value never reaches
/// the allocator; a failed allocation counts nothing; otherwise the one block that was
/// handed out ends exactly once, finalized on success and freed on failure.
pub open spec fn accounted<T: MemConstruct, V, E>(
    before: Allocator,
    after: Allocator,
    r: Result<V, HeapConstructError<E>>,
) -> bool {
    if value_size::<T>() == 0 || r == Err::<V, HeapConstructError<E>>(
        HeapConstructError::AllocationFailure,
    ) {
        after == before
    } else {
        &&& after.allocations() == before.allocations() + 1
        &&& after.finalizations() == before.finalizations() + if r is Ok {
            1int
        } else {
            0int
        }
        &&& after.deallocations() == before.deallocations() + if r is Ok {
            0int
        } else {
            1int
        }
    }
}

/// Obtains the block for one value of `T`: an empty one, without the allocator, where `T`
/// is zero-sized.
fn obtain_block<T: MemConstruct>(heap: &mut Allocator, shape: &crate::layout::RecordShape) -> (r:
    Result<RawBlock, AllocError>)
    requires
        old(heap).has_room(),
        shape@ == T::shape_spec(),
    ensures
        match r {
            Ok(b) => b.size() == shape.size() && if value_size::<T>() == 0 {
                *final(heap) == *old(heap)
            } else {
                &&& final(heap).allocations() == old(heap).allocations() + 1
                &&& final(heap).deallocations() == old(heap).deallocations()
                &&& final(heap).finalizations() == old(heap).finalizations()
            },
            Err(_) => value_size::<T>() > 0 && *final(heap) == *old(heap),
        },
{
    if shape.layout.size == 0 {
        Ok(RawBlock::empty())
    } else {
        heap.allocate(shape.layout)
    }
}

/// Finalizes a returned session, or frees its block where the construction left a field
/// unset. A construction that fails gives its session up, and the block goes with it:
/// that release is counted here.
fn conclude<T: MemConstruct, E>(
    heap: &mut Allocator,
    zero_sized: bool,
    outcome: Result<MemConstructor<T>, E>,
) -> (r: Result<Value<T>, HeapConstructError<E>>)
    requires
        old(heap).deallocations() < u64::MAX,
        old(heap).finalizations() < u64::MAX,
        zero_sized == (value_size::<T>() == 0),
    ensures
        match r {
            Ok(v) => match outcome {
                Ok(out) => out.complete() && v.bytes() == out.bytes() && v.shape() == out.shape(),
                Err(_) => false,
            },
            Err(HeapConstructError::AllocationFailure) => false,
            Err(HeapConstructError::ConstructFailed(e)) => outcome == Err::<MemConstructor<T>, E>(e),
            Err(HeapConstructError::Incomplete) => match outcome {
                Ok(out) => !out.complete(),
                Err(_) => false,
            },
        },
        value_size::<T>() == 0 ==> *final(heap) == *old(heap),
        value_size::<T>() > 0 ==> {
            &&& final(heap).allocations() == old(heap).allocations()
            &&& final(heap).finalizations() == old(heap).finalizations() + if r is Ok {
                1int
            } else {
                0int
            }
            &&& final(heap).deallocations() == old(heap).deallocations() + if r is Ok {
                0int
            } else {
                1int
            }
        },
{
    match outcome {
        Ok(session) => {
            if session.is_complete() {
                let value = Value::from_session(session);
                if !zero_sized {
                    heap.note_finalized();
                }
                Ok(value)
            } else {
                let (block, _) = session.into_parts();
                if !zero_sized {
                    heap.deallocate(block);
                }
                Err(HeapConstructError::Incomplete)
            }
        },
        Err(e) => {
            if !zero_sized {
                heap.note_deallocated();
            }
            Err(HeapConstructError::ConstructFailed(e))
        },
    }
}

/// Runs a construction on the outcome of obtaining a block for `T`. Where no block was
/// obtained, `construct` is not run and the result is `AllocationFailure`. Otherwise
/// `construct` runs on a session with no field written over that block; the block is
/// finalized into the value where the returned session is complete, and freed where
/// `construct` fails or leaves a field unset.
pub fn construct_in_block<T: MemConstruct, E, F>(
    heap: &mut Allocator,
    obtained: Result<RawBlock, AllocError>,
    construct: F,
) -> (r: Result<Value<T>, HeapConstructError<E>>) where
    F: FnOnce(MemConstructor<T>) -> Result<MemConstructor<T>, E>,

    requires
        old(heap).deallocations() < u64::MAX,
        old(heap).finalizations() < u64::MAX,
        obtained is Ok ==> obtained->Ok_0.size() == value_size::<T>(),
        forall|s: MemConstructor<T>| s.fresh() ==> construct.requires((s,)),
    ensures
        match r {
            Ok(v) => exists|s: MemConstructor<T>, out: MemConstructor<T>|
                {
                    &&& s.fresh()
                    &&& s.bytes() == obtained->Ok_0.bytes()
                    &&& #[trigger] construct.ensures((s,), Ok::<MemConstructor<T>, E>(out))
                    &&& out.complete()
                    &&& v.bytes() == out.bytes()
                    &&& v.shape() == out.shape()
                },
            Err(HeapConstructError::AllocationFailure) => obtained is Err,
            Err(HeapConstructError::ConstructFailed(e)) => exists|s: MemConstructor<T>|
                {
                    &&& s.fresh()
                    &&& s.bytes() == obtained->Ok_0.bytes()
                    &&& #[trigger] construct.ensures((s,), Err::<MemConstructor<T>, E>(e))
                },
            Err(HeapConstructError::Incomplete) => exists|s: MemConstructor<T>, out: MemConstructor<T>|
                {
                    &&& s.fresh()
                    &&& s.bytes() == obtained->Ok_0.bytes()
                    &&& #[trigger] construct.ensures((s,), Ok::<MemConstructor<T>, E>(out))
                    &&& !out.complete()
                },
        },
        r == Err::<Value<T>, HeapConstructError<E>>(HeapConstructError::AllocationFailure)
            <==> obtained is Err,
        value_size::<T>() == 0 || obtained is Err ==> *final(heap) == *old(heap),
        value_size::<T>() > 0 && obtained is Ok ==> {
            &&& final(heap).allocations() == old(heap).allocations()
            &&& final(heap).finalizations() == old(heap).finalizations() + if r is Ok {
                1int
            } else {
                0int
            }
            &&& final(heap).deallocations() == old(heap).deallocations() + if r is Ok {
                0int
            } else {
                1int
            }
        },
{
    let block = match obtained {
        Ok(b) => b,
        Err(_) => {
            return Err(HeapConstructError::AllocationFailure);
        },
    };
    let shape = T::shape();
    let zero_sized = shape.layout.size == 0;
    let session = MemConstructor::new(block, shape);
    let ghost s0 = session;
    let outcome = construct(session);
    let r = conclude(heap, zero_sized, outcome);
    proof {
        if r is Ok {
            let out = outcome->Ok_0;
            assert(construct.ensures((s0,), Ok::<MemConstructor<T>, E>(out)));
        }
        match r {
            Ok(_) => {},
            Err(HeapConstructError::Incomplete) => {
                let out = outcome->Ok_0;
                assert(construct.ensures((s0,), Ok::<MemConstructor<T>, E>(out)));
            },
            _ => {},
        }
    }
    r
}

/// Builds a value of `T` in a block of its own: runs `construct` on a session with no
/// field written, then finalizes the block where the returned session is complete.
/// Where allocation fails, `construct` is not run. Where it returns its own failure, or a
/// session with a field unset, the block is freed and the error says which. A zero-sized
/// `T` never reaches the allocator. Either way no block is left behind.
pub fn try_heapconstruct_fallible<T: MemConstruct, E, F>(heap: &mut Allocator, construct: F) -> (r:
    Result<Value<T>, HeapConstructError<E>>) where
    F: FnOnce(MemConstructor<T>) -> Result<MemConstructor<T>, E>,

    requires
        old(heap).has_room(),
        forall|s: MemConstructor<T>| s.fresh() ==> construct.requires((s,)),
    ensures
        match r {
            Ok(v) => exists|s: MemConstructor<T>, out: MemConstructor<T>|
                {
                    &&& s.fresh()
                    &&& #[trigger] construct.ensures((s,), Ok::<MemConstructor<T>, E>(out))
                    &&& out.complete()
                    &&& v.bytes() == out.bytes()
                    &&& v.shape() == out.shape()
                },
            Err(HeapConstructError::AllocationFailure) => value_size::<T>() > 0,
            Err(HeapConstructError::ConstructFailed(e)) => exists|s: MemConstructor<T>|
                s.fresh() && #[trigger] construct.ensures((s,), Err::<MemConstructor<T>, E>(e)),
            Err(HeapConstructError::Incomplete) => exists|s: MemConstructor<T>, out: MemConstructor<T>|
                {
                    &&& s.fresh()
                    &&& #[trigger] construct.ensures((s,), Ok::<MemConstructor<T>, E>(out))
                    &&& !out.complete()
                },
        },
        accounted::<T, Value<T>, E>(*old(heap), *final(heap), r),
        final(heap).in_flight() == old(heap).in_flight(),
{
    let shape = T::shape();
    let obtained = obtain_block::<T>(heap, &shape);
    construct_in_block(heap, obtained, construct)
}

/// [`construct_in_block`] for a construction that cannot fail by itself. Where no block
/// was obtained, `construct` is not run and the result is `AllocationFailure`; otherwise
/// the block is finalized where the returned session is complete and freed where it is
/// not.
pub fn heapconstruct_in_block<T: MemConstruct, F>(
    heap: &mut Allocator,
    obtained: Result<RawBlock, AllocError>,
    construct: F,
) -> (r: Result<Value<T>, HeapConstructError<()>>) where
    F: FnOnce(MemConstructor<T>) -> MemConstructor<T>,

    requires
        old(heap).deallocations() < u64::MAX,
        old(heap).finalizations() < u64::MAX,
        obtained is Ok ==> obtained->Ok_0.size() == value_size::<T>(),
        forall|s: MemConstructor<T>| s.fresh() ==> construct.requires((s,)),
    ensures
        match r {
            Ok(v) => exists|s: MemConstructor<T>, out: MemConstructor<T>|
                {
                    &&& s.fresh()
                    &&& s.bytes() == obtained->Ok_0.bytes()
                    &&& #[trigger] construct.ensures((s,), out)
                    &&& out.complete()
                    &&& v.bytes() == out.bytes()
                    &&& v.shape() == out.shape()
                },
            Err(HeapConstructError::AllocationFailure) => obtained is Err,
            Err(HeapConstructError::ConstructFailed(_)) => false,
            Err(HeapConstructError::Incomplete) => exists|s: MemConstructor<T>, out: MemConstructor<T>|
                {
                    &&& s.fresh()
                    &&& s.bytes() == obtained->Ok_0.bytes()
                    &&& #[trigger] construct.ensures((s,), out)
                    &&& !out.complete()
                },
        },
        r == Err::<Value<T>, HeapConstructError<()>>(HeapConstructError::AllocationFailure)
            <==> obtained is Err,
        value_size::<T>() == 0 || obtained is Err ==> *final(heap) == *old(heap),
        value_size::<T>() > 0 && obtained is Ok ==> {
            &&& final(heap).allocations() == old(heap).allocations()
            &&& final(heap).finalizations() == old(heap).finalizations() + if r is Ok {
                1int
            } else {
                0int
            }
            &&& final(heap).deallocations() == old(heap).deallocations() + if r is Ok {
                0int
            } else {
                1int
            }
        },
{
    let block = match obtained {
        Ok(b) => b,
        Err(_) => {
            return Err(HeapConstructError::AllocationFailure);
        },
    };
    let shape = T::shape();
    let zero_sized = shape.layout.size == 0;
    let session = MemConstructor::new(block, shape);
    let ghost s0 = session;
    let out = construct(session);
    let ghost out0 = out;
    let r = conclude(heap, zero_sized, Ok::<MemConstructor<T>, ()>(out));
    proof {
        assert(construct.ensures((s0,), out0));
    }
    r
}

/// [`try_heapconstruct_fallible`] for a construction that cannot fail by itself.
pub fn try_heapconstruct<T: MemConstruct, F>(heap: &mut Allocator, construct: F) -> (r: Result<
    Value<T>,
    HeapConstructError<()>,
>) where F: FnOnce(MemConstructor<T>) -> MemConstructor<T>
    requires
        old(heap).has_room(),
        forall|s: MemConstructor<T>| s.fresh() ==> construct.requires((s,)),
    ensures
        match r {
            Ok(v) => exists|s: MemConstructor<T>, out: MemConstructor<T>|
                {
                    &&& s.fresh()
                    &&& #[trigger] construct.ensures((s,), out)
                    &&& out.complete()
                    &&& v.bytes() == out.bytes()
                    &&& v.shape() == out.shape()
                },
            Err(HeapConstructError::AllocationFailure) => value_size::<T>() > 0,
            Err(HeapConstructError::ConstructFailed(_)) => false,
            Err(HeapConstructError::Incomplete) => exists|s: MemConstructor<T>, out: MemConstructor<T>|
                {
                    &&& s.fresh()
                    &&& #[trigger] construct.ensures((s,), out)
                    &&& !out.complete()
                },
        },
        accounted::<T, Value<T>, ()>(*old(heap), *final(heap), r),
        final(heap).in_flight() == old(heap).in_flight(),
{
    let shape = T::shape();
    let obtained = obtain_block::<T>(heap, &shape);
    heapconstruct_in_block(heap, obtained, construct)
}

/// Builds a boxed value of `T` directly in its heap block, as
/// [`try_heapconstruct`] does, and reads the finished block as a `T`.
pub fn construct_box<T: MemConstruct, F>(construct: F) -> (r: Result<
    Box<T>,
    HeapConstructError<()>,
>) where F: FnOnce(MemConstructor<T>) -> MemConstructor<T>
    requires
        forall|s: MemConstructor<T>| s.fresh() ==> construct.requires((s,)),
    ensures
        match r {
            Ok(b) => exists|s: MemConstructor<T>, out: MemConstructor<T>|
                {
                    &&& s.fresh()
                    &&& #[trigger] construct.ensures((s,), out)
                    &&& out.complete()
                    &&& *b == T::decoded(out.bytes())
                },
            Err(HeapConstructError::AllocationFailure) => value_size::<T>() > 0,
            Err(HeapConstructError::ConstructFailed(_)) => false,
            Err(HeapConstructError::Incomplete) => exists|s: MemConstructor<T>, out: MemConstructor<T>|
                {
                    &&& s.fresh()
                    &&& #[trigger] construct.ensures((s,), out)
                    &&& !out.complete()
                },
        },
{
    let mut heap = Allocator::new();
    Box::heapconstruct_in(&mut heap, construct)
}

/// An owning pointer that can hold a value of `T` built directly in its heap block.
pub trait HeapConstruct<T: MemConstruct>: Sized {
    /// The pointer holds `value`.
    spec fn holds(&self, value: T) -> bool;

    /// Builds the pointee as [`try_heapconstruct`] does, and reads the finished block as
    /// a `T`.
    fn heapconstruct_in<F: FnOnce(MemConstructor<T>) -> MemConstructor<T>>(
        heap: &mut Allocator,
        construct: F,
    ) -> (r: Result<Self, HeapConstructError<()>>)
        requires
            old(heap).has_room(),
            forall|s: MemConstructor<T>| s.fresh() ==> construct.requires((s,)),
        ensures
            match r {
                Ok(p) => exists|s: MemConstructor<T>, out: MemConstructor<T>|
                    {
                        &&& s.fresh()
                        &&& #[trigger] construct.ensures((s,), out)
                        &&& out.complete()
                        &&& p.holds(T::decoded(out.bytes()))
                    },
                Err(HeapConstructError::AllocationFailure) => value_size::<T>() > 0,
                Err(HeapConstructError::ConstructFailed(_)) => false,
                Err(HeapConstructError::Incomplete) => exists|
                    s: MemConstructor<T>,
                    out: MemConstructor<T>,
                |
                    {
                        &&& s.fresh()
                        &&& #[trigger] construct.ensures((s,), out)
                        &&& !out.complete()
                    },
            },
            accounted::<T, Self, ()>(*old(heap), *final(heap), r),
            final(heap).in_flight() == old(heap).in_flight(),
    ;
}

impl<T: MemConstruct> HeapConstruct<T> for Box<T> {
    open spec fn holds(&self, value: T) -> bool {
        **self == value
    }

    fn heapconstruct_in<F: FnOnce(MemConstructor<T>) -> MemConstructor<T>>(
        heap: &mut Allocator,
        construct: F,
    ) -> (r: Result<Box<T>, HeapConstructError<()>>) {
        match try_heapconstruct(heap, construct) {
            Ok(v) => Ok(Box::new(v.into_inner())),
            Err(e) => Err(e),
        }
    }
}

} // verus!
