use core::marker::PhantomData;
use vstd::layout::size_of;
use vstd::prelude::*;

use crate::memory::MemoryView;

verus! {

/// Shape marker: the pointer designates a run of values.
#[derive(Clone, Copy, Debug)]
pub struct Array;

/// Shape marker: the pointer designates a single value.
#[derive(Clone, Copy, Debug)]
pub struct Item;

/// An untrusted guest offset, typed by the value it designates and by its
/// shape. Building one checks nothing; every access is checked against the
/// memory at the moment of use. Across the guest boundary it is exactly one
/// 32-bit integer, the offset.
#[derive(Debug)]
pub struct WasmPtr<T: Copy, Ty = Item> {
    offset: u32,
    _phantom: PhantomData<(T, Ty)>,
}

/// A validated run of bytes inside the memory: `start .. start + len`.
#[derive(Clone, Copy, Debug, PartialEq, Eq, Structural)]
pub struct MemRange {
    pub start: usize,
    pub len: usize,
}

/// Whether `count` values of `size` bytes each, starting at `offset`, lie
/// inside a memory of `byte_length` bytes.
pub open spec fn fits(offset: u32, size: nat, count: nat, byte_length: nat) -> bool {
    offset + size * count <= byte_length
}

impl<T: Copy, Ty> View for WasmPtr<T, Ty> {
    type V = u32;

    closed spec fn view(&self) -> u32 {
        self.offset
    }
}

impl<T: Copy, Ty> WasmPtr<T, Ty> {
    pub fn new(offset: u32) -> (r: Self)
        ensures
            r@ == offset,
    {
        WasmPtr { offset, _phantom: PhantomData }
    }

    pub fn offset(self) -> (r: u32)
        ensures
            r == self@,
    {
        self.offset
    }
}

impl<T: Copy, Ty> Clone for WasmPtr<T, Ty> {
    fn clone(&self) -> (r: Self)
        ensures
            r == *self,
    {
        *self
    }
}

impl<T: Copy, Ty> Copy for WasmPtr<T, Ty> {}

impl<T: Copy, Ty> PartialEq for WasmPtr<T, Ty> {
    fn eq(&self, other: &Self) -> (r: bool) {
        self.offset == other.offset
    }
}

impl<T: Copy, Ty> vstd::std_specs::cmp::PartialEqSpecImpl for WasmPtr<T, Ty> {
    open spec fn obeys_eq_spec() -> bool {
        true
    }

    open spec fn eq_spec(&self, other: &Self) -> bool {
        self@ == other@
    }
}

/// Checks that `count` values of `T` starting at `offset` lie inside `memory`,
/// without overflow for any offset or count. For a zero-sized `T` the offset
/// itself must still lie inside the memory.
fn check_run<T>(offset: u32, count: u32, memory: &MemoryView) -> (r: Option<MemRange>)
    ensures
        r is Some <==> fits(offset, size_of::<T>(), count as nat, memory@.len()),
        r matches Some(g) ==> g.start == offset && g.len == size_of::<T>() * count,
{
    let size: usize = core::mem::size_of::<T>();
    let len: usize = memory.byte_length();
    match size.checked_mul(count as usize) {
        None => {
            proof {
                assert(size * count >= usize::MAX + 1);
                assert(size * count <= offset + size * count) by (nonlinear_arith)
                    requires
                        0 <= offset;
            }
            None
        },
        Some(bytes) => {
            if bytes > len || (offset as usize) > len - bytes {
                None
            } else {
                Some(MemRange { start: offset as usize, len: bytes })
            }
        },
    }
}

impl<T: Copy> WasmPtr<T, Item> {
    /// Validates access to the single value at this offset.
    pub fn deref(self, memory: &MemoryView) -> (r: Option<MemRange>)
        ensures
            r is Some <==> self@ + size_of::<T>() <= memory@.len(),
            r matches Some(g) ==> g.start == self@ && g.len == size_of::<T>(),
    {
        check_run::<T>(self.offset, 1, memory)
    }
}

impl<T: Copy> WasmPtr<T, Array> {
    /// Validates access to `length` consecutive values from this offset on;
    /// a length of zero gives an empty run.
    pub fn deref(self, memory: &MemoryView, length: u32) -> (r: Option<MemRange>)
        ensures
            r is Some <==> fits(self@, size_of::<T>(), length as nat, memory@.len()),
            r matches Some(g) ==> g.start == self@ && g.len == size_of::<T>() * length,
    {
        check_run::<T>(self.offset, length, memory)
    }
}

} // verus!
