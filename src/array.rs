//! Sessions for fixed-length homogeneous sequences: element-wise construction with
//! rollback of the built prefix, bulk filling by a byte pattern, and raw access.
use vstd::prelude::*;

use std::marker::PhantomData;

use crate::memory::{AllocError, Allocator, RawBlock};
use crate::primitive::MemconstructPrimitive;
use crate::session::{MemConstruct, MemConstructor, Value};

verus! {

/// Marks an array session whose elements have not been written yet.
pub struct ArrayTok;

/// A session for `N` values of `T` in one block. With `Tok = ArrayTok` nothing has been
/// written; the fill operations consume it and return the session with `Tok = ()`, in
/// which all `N` elements are set.
pub struct ArrayMemConstructor<Tok, T, const N: usize> {
    elems: Vec<T>,
    state: PhantomData<Tok>,
}

/// Why an element-wise construction stopped.
pub struct ElementFailure<E> {
    /// The index whose element could not be built.
    pub index: usize,
    /// What the element's construction returned.
    pub error: E,
    /// The indices whose elements were torn down, in the order it happened.
    pub torn_down: Vec<usize>,
}

/// Why a session could not be completed from raw storage.
#[derive(Debug, PartialEq, Eq, Structural)]
pub enum RawFillError {
    /// The storage came back holding a number of elements other than `N`.
    WrongLength,
}

/// A block for `N` elements of `T` takes storage and goes through the allocator.
pub open spec fn needs_block<T>(n: usize) -> bool {
    vstd::layout::size_of::<T>() > 0 && n > 0
}

/// The indices `k - 1, k - 2, ..., 0`: the order in which a built prefix of length `k`
/// is torn down, last built first.
pub open spec fn teardown_order(k: nat) -> Seq<usize> {
    Seq::new(k, |j: int| (k - 1 - j) as usize)
}

/// What counting the end of one array block does to the allocator.
pub open spec fn ended<T>(n: usize, before: Allocator, after: Allocator, finalized: bool) -> bool {
    if !needs_block::<T>(n) {
        after == before
    } else {
        &&& after.allocations() == before.allocations()
        &&& after.finalizations() == before.finalizations() + if finalized {
            1int
        } else {
            0int
        }
        &&& after.deallocations() == before.deallocations() + if finalized {
            0int
        } else {
            1int
        }
    }
}

/// `x` is what a finished element session of `f` holds: `f` took a fresh session and
/// returned it with every field set to bytes that read as `x`.
pub open spec fn built_by<T: MemConstruct, F: Fn(MemConstructor<T>) -> MemConstructor<T>>(
    f: F,
    x: T,
) -> bool {
    exists|s: MemConstructor<T>, out: MemConstructor<T>|
        {
            &&& s.fresh()
            &&& #[trigger] f.ensures((s,), out)
            &&& out.complete()
            &&& x == T::decoded(out.bytes())
        }
}

fn block_needed<T>(n: usize) -> (r: bool)
    ensures
        r == needs_block::<T>(n),
{
    core::mem::size_of::<T>() > 0 && n > 0
}

/// Counts the end of an array block, where the block took storage.
fn end_block<T>(n: usize, heap: &mut Allocator, finalized: bool)
    requires
        old(heap).has_room(),
    ensures
        ended::<T>(n, *old(heap), *final(heap), finalized),
{
    if block_needed::<T>(n) {
        if finalized {
            heap.note_finalized();
        } else {
            heap.note_deallocated();
        }
    }
}

impl<T, const N: usize> ArrayMemConstructor<ArrayTok, T, N> {
    /// Obtains the block for `N` elements of `T`. Where the elements take no storage the
    /// allocator is not used.
    pub fn new(heap: &mut Allocator) -> (r: Result<Self, AllocError>)
        requires
            old(heap).has_room(),
        ensures
            match r {
                Ok(a) => a.elems().len() == 0 && if needs_block::<T>(N) {
                    &&& final(heap).allocations() == old(heap).allocations() + 1
                    &&& final(heap).deallocations() == old(heap).deallocations()
                    &&& final(heap).finalizations() == old(heap).finalizations()
                } else {
                    *final(heap) == *old(heap)
                },
                Err(_) => needs_block::<T>(N) && *final(heap) == *old(heap),
            },
    {
        let mut elems: Vec<T> = Vec::new();
        if block_needed::<T>(N) {
            match elems.try_reserve(N) {
                Ok(()) => {},
                Err(_) => {
                    return Err(AllocError::AllocFailure);
                },
            }
            heap.note_allocated();
        }
        Ok(ArrayMemConstructor { elems, state: PhantomData })
    }
}

impl<Tok, T, const N: usize> ArrayMemConstructor<Tok, T, N> {
    /// The elements written so far, in index order.
    pub closed spec fn elems(&self) -> Seq<T> {
        self.elems@
    }
}

impl<T, const N: usize> ArrayMemConstructor<ArrayTok, T, N> {
    /// The storage reserved for the elements, with nothing written in it.
    fn storage(self) -> (r: Vec<T>)
        ensures
            r@.len() == 0,
    {
        let mut elems = self.elems;
        elems.clear();
        elems
    }

    /// Builds element `i` as `f(i)` for each index in ascending order.
    pub fn set_all<F: Fn(usize) -> T>(self, heap: &mut Allocator, f: F) -> (r:
        ArrayMemConstructor<(), T, N>)
        requires
            old(heap).has_room(),
            forall|i: usize| i < N ==> f.requires((i,)),
        ensures
            r.elems().len() == N,
            forall|i: int| 0 <= i < N ==> f.ensures((i as usize,), #[trigger] r.elems()[i]),
            ended::<T>(N, *old(heap), *final(heap), true),
    {
        let mut elems = self.storage();
        let mut i: usize = 0;
        while i < N
            invariant
                i <= N,
                elems@.len() == i,
                forall|j: usize| j < N ==> f.requires((j,)),
                forall|j: int| 0 <= j < i ==> f.ensures((j as usize,), #[trigger] elems@[j]),
            decreases N - i,
        {
            let x = f(i);
            elems.push(x);
            i = i + 1;
        }
        end_block::<T>(N, heap, true);
        ArrayMemConstructor { elems, state: PhantomData }
    }

    /// Builds element `i` from `f(i)` for each index in ascending order. Where `f` fails
    /// at index `k`, the elements `0..k` are torn down, last built first, no index past
    /// `k` is visited, the block is freed, and the failure is returned.
    pub fn try_set_all<E, F: Fn(usize) -> Result<T, E>>(self, heap: &mut Allocator, f: F) -> (r:
        Result<ArrayMemConstructor<(), T, N>, ElementFailure<E>>)
        requires
            old(heap).has_room(),
            forall|i: usize| i < N ==> f.requires((i,)),
        ensures
            match r {
                Ok(a) => {
                    &&& a.elems().len() == N
                    &&& forall|i: int|
                        0 <= i < N ==> f.ensures((i as usize,), Ok::<T, E>(#[trigger] a.elems()[i]))
                    &&& ended::<T>(N, *old(heap), *final(heap), true)
                },
                Err(fail) => {
                    &&& fail.index < N
                    &&& f.ensures((fail.index,), Err::<T, E>(fail.error))
                    &&& exists|built: Seq<T>|
                        built.len() == fail.index && forall|i: int|
                            0 <= i < fail.index ==> f.ensures(
                                (i as usize,),
                                Ok::<T, E>(#[trigger] built[i]),
                            )
                    &&& fail.torn_down@ == teardown_order(fail.index as nat)
                    &&& ended::<T>(N, *old(heap), *final(heap), false)
                },
            },
    {
        let mut elems = self.storage();
        let mut i: usize = 0;
        while i < N
            invariant
                i <= N,
                elems@.len() == i,
                forall|j: usize| j < N ==> f.requires((j,)),
                forall|j: int| 0 <= j < i ==> f.ensures((j as usize,), Ok::<T, E>(#[trigger] elems@[j])),
                old(heap).has_room(),
                *heap == *old(heap),
            decreases N - i,
        {
            match f(i) {
                Ok(x) => {
                    elems.push(x);
                },
                Err(error) => {
                    let ghost built = elems@;
                    let torn_down = tear_down(elems);
                                end_block::<T>(N, heap, false);
                    let r = Err(ElementFailure { index: i, error, torn_down });
                    proof {
                        assert(built.len() == i);
                    }
                    return r;
                },
            }
            i = i + 1;
        }
        end_block::<T>(N, heap, true);
        Ok(ArrayMemConstructor { elems, state: PhantomData })
    }

    /// Builds each element in its own place through an element session, in ascending
    /// index order: `f` writes the fields, and the finished place is read as a `T`. Where
    /// `f` returns a session with a field unset at index `k`, the elements `0..k` are torn
    /// down, last built first, no index past `k` is visited, the block is freed, and the
    /// failure is returned.
    pub fn memconstruct_all<F: Fn(MemConstructor<T>) -> MemConstructor<T>>(
        self,
        heap: &mut Allocator,
        f: F,
    ) -> (r: Result<ArrayMemConstructor<(), T, N>, ElementFailure<()>>)
        where T: MemConstruct,
        requires
            old(heap).has_room(),
            forall|s: MemConstructor<T>| s.fresh() ==> f.requires((s,)),
        ensures
            match r {
                Ok(a) => {
                    &&& a.elems().len() == N
                    &&& forall|i: int| 0 <= i < N ==> built_by(f, #[trigger] a.elems()[i])
                    &&& ended::<T>(N, *old(heap), *final(heap), true)
                },
                Err(fail) => {
                    &&& fail.index < N
                    &&& exists|built: Seq<T>|
                        built.len() == fail.index && forall|i: int|
                            0 <= i < fail.index ==> built_by(f, #[trigger] built[i])
                    &&& exists|s: MemConstructor<T>, out: MemConstructor<T>|
                        s.fresh() && #[trigger] f.ensures((s,), out) && !out.complete()
                    &&& fail.torn_down@ == teardown_order(fail.index as nat)
                    &&& ended::<T>(N, *old(heap), *final(heap), false)
                },
            },
    {
        let mut elems = self.storage();
        let mut i: usize = 0;
        while i < N
            invariant
                i <= N,
                elems@.len() == i,
                forall|s: MemConstructor<T>| s.fresh() ==> f.requires((s,)),
                forall|j: int| 0 <= j < i ==> built_by(f, #[trigger] elems@[j]),
                old(heap).has_room(),
                *heap == *old(heap),
            decreases N - i,
        {
            let shape = T::shape();
            let block = RawBlock::scratch(shape.layout.size);
            let session = MemConstructor::new(block, shape);
            let ghost s0 = session;
            let out = f(session);
            if out.is_complete() {
                let ghost out0 = out;
                let x = Value::from_session(out).into_inner();
                proof {
                    assert(f.ensures((s0,), out0));
                }
                elems.push(x);
            } else {
                proof {
                    assert(f.ensures((s0,), out));
                }
                let ghost built = elems@;
                let torn_down = tear_down(elems);
                end_block::<T>(N, heap, false);
                let r = Err(ElementFailure { index: i, error: (), torn_down });
                proof {
                    assert(built.len() == i);
                }
                return r;
            }
            i = i + 1;
        }
        end_block::<T>(N, heap, true);
        Ok(ArrayMemConstructor { elems, state: PhantomData })
    }

    /// Fills all `N` elements with the value whose every byte is `byte`. The byte count
    /// `N * size_of::<T>()` must be addressable; where it is not, the block is freed and
    /// `None` is returned.
    pub fn memset(self, heap: &mut Allocator, byte: u8) -> (r: Option<ArrayMemConstructor<(), T, N>>)
        where T: MemconstructPrimitive,
        requires
            old(heap).has_room(),
        ensures
            match r {
                Some(a) => {
                    &&& N * vstd::layout::size_of::<T>() <= usize::MAX
                    &&& a.elems() == Seq::new(N as nat, |i: int| T::filled_spec(byte))
                    &&& ended::<T>(N, *old(heap), *final(heap), true)
                },
                None => {
                    &&& N * vstd::layout::size_of::<T>() > usize::MAX
                    &&& ended::<T>(N, *old(heap), *final(heap), false)
                },
            },
    {
        let width = core::mem::size_of::<T>();
        if width.checked_mul(N).is_none() {
            end_block::<T>(N, heap, false);
            return None;
        }
        let mut elems = self.storage();
        let mut i: usize = 0;
        while i < N
            invariant
                i <= N,
                elems@ == Seq::new(i as nat, |j: int| T::filled_spec(byte)),
            decreases N - i,
        {
            elems.push(T::filled(byte));
            i = i + 1;
            assert(elems@ =~= Seq::new(i as nat, |j: int| T::filled_spec(byte)));
        }
        end_block::<T>(N, heap, true);
        Some(ArrayMemConstructor { elems, state: PhantomData })
    }

    /// Hands the element storage to `f`, which writes the elements itself. What comes
    /// back is accepted only if it holds exactly `N` elements; otherwise it is released
    /// and the session fails.
    pub fn with_raw_storage<F: FnOnce(Vec<T>) -> Vec<T>>(self, heap: &mut Allocator, f: F) -> (r:
        Result<ArrayMemConstructor<(), T, N>, RawFillError>)
        requires
            old(heap).has_room(),
            forall|v: Vec<T>| v@.len() == 0 ==> f.requires((v,)),
        ensures
            match r {
                Ok(a) => {
                    &&& a.elems().len() == N
                    &&& exists|v: Vec<T>, out: Vec<T>|
                        v@.len() == 0 && #[trigger] f.ensures((v,), out) && out@ == a.elems()
                    &&& ended::<T>(N, *old(heap), *final(heap), true)
                },
                Err(_) => {
                    &&& exists|v: Vec<T>, out: Vec<T>|
                        v@.len() == 0 && #[trigger] f.ensures((v,), out) && out@.len() != N
                    &&& ended::<T>(N, *old(heap), *final(heap), false)
                },
            },
    {
        let elems = self.storage();
        let ghost given = elems;
        let out = f(elems);
        proof {
            assert(f.ensures((given,), out));
        }
        if out.len() == N {
            end_block::<T>(N, heap, true);
            Ok(ArrayMemConstructor { elems: out, state: PhantomData })
        } else {
            end_block::<T>(N, heap, false);
            Err(RawFillError::WrongLength)
        }
    }
}

/// Tears down a built prefix, last element first, and returns the indices in that order.
fn tear_down<T>(elems: Vec<T>) -> (r: Vec<usize>)
    ensures
        r@ == teardown_order(elems@.len()),
{
    let mut elems = elems;
    let k = elems.len();
    let mut order: Vec<usize> = Vec::new();
    while elems.len() > 0
        invariant
            elems@.len() <= k,
            order@ == Seq::new((k - elems@.len()) as nat, |j: int| (k - 1 - j) as usize),
        decreases elems@.len(),
    {
        let idx = elems.len() - 1;
        let dead = elems.pop();
        let _ = dead;
        order.push(idx);
        assert(order@ =~= Seq::new((k - elems@.len()) as nat, |j: int| (k - 1 - j) as usize));
    }
    order
}

impl<T, const N: usize> ArrayMemConstructor<(), T, N> {
    /// Element `i` of the finished array.
    pub fn get(&self, i: usize) -> (r: &T)
        requires
            i < self.elems().len(),
        ensures
            *r == self.elems()[i as int],
    {
        &self.elems[i]
    }

    /// The finished elements, in index order.
    pub fn into_vec(self) -> (r: Vec<T>)
        ensures
            r@ == self.elems(),
    {
        self.elems
    }
}

} // verus!
