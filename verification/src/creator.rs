//! Host managed memory: what a linear memory is to a store, who makes it, and
//! the memory that a store uses where the host brings none of its own.
use crate::runtime::{planned_maximum, WASM_MAX_PAGES, WASM_PAGE_SIZE};
use crate::types::MemoryType;
use vstd::prelude::*;

verus! {

/// The bytes of so many pages of fresh memory: all zero.
pub open spec fn zeroed(pages: nat) -> Seq<u8> {
    Seq::new(pages * (WASM_PAGE_SIZE as nat), |i: int| 0u8)
}

/// The number of pages that a number of bytes fills.
pub open spec fn pages_of(bytes: nat) -> nat {
    bytes / (WASM_PAGE_SIZE as nat)
}

/// A number of bytes is one that a linear memory can have: a whole number of
/// pages, and so many that a `u32` can count them.
pub open spec fn whole_pages(bytes: nat) -> bool {
    &&& bytes % (WASM_PAGE_SIZE as nat) == 0
    &&& pages_of(bytes) <= u32::MAX
}

/// A linear memory. This trait provides an interface for raw memory buffers
/// which are used by a store, e.g. inside `Memory`. By implementing this trait
/// together with `MemoryCreator`, one can supply a store with custom allocated
/// host managed memory.
///
/// An implementation says by `may_grant` and `may_refuse` on which growth it
/// decides how; where both hold, the outcome is open.
pub trait LinearMemory: Sized {
    /// The memory is in order: what its creator makes and every method keeps.
    spec fn wf(&self) -> bool;

    /// The type that the memory was made for.
    spec fn ty(&self) -> MemoryType;

    /// The bytes of the memory.
    spec fn bytes(&self) -> Seq<u8>;

    /// Growth by `delta` pages may succeed.
    spec fn may_grant(&self, delta: u32) -> bool;

    /// Growth by `delta` pages may be refused.
    spec fn may_refuse(&self, delta: u32) -> bool;

    /// Returns the number of allocated wasm pages.
    fn size(&self) -> (pages: u32)
        requires
            self.wf(),
        ensures
            self.bytes().len() == pages * WASM_PAGE_SIZE,
    ;

    /// Grow memory by the specified amount of wasm pages.
    ///
    /// Returns the number of pages that there were, or `None` if memory can't be
    /// grown by the specified amount of wasm pages. No pages are added beyond the
    /// maximum of the type that the memory was made for.
    fn grow(&mut self, delta: u32) -> (previous: Option<u32>)
        requires
            old(self).wf(),
        ensures
            final(self).wf(),
            final(self).ty() == old(self).ty(),
            previous matches Some(pages) ==> {
                &&& old(self).may_grant(delta)
                &&& old(self).bytes().len() == pages * WASM_PAGE_SIZE
                &&& pages + delta <= u32::MAX
                &&& delta > 0 ==> (old(self).ty().limits.max matches Some(max) ==> pages + delta
                    <= max)
                &&& final(self).bytes() == old(self).bytes() + zeroed(delta as nat)
            },
            previous is None ==> {
                &&& old(self).may_refuse(delta)
                &&& *final(self) == *old(self)
            },
    ;

    /// Return the allocated memory as bytes that can be read.
    fn as_ptr(&self) -> (data: &[u8])
        requires
            self.wf(),
        ensures
            data@ == self.bytes(),
    ;

    /// Return the allocated memory as bytes that can be read and written.
    fn as_mut_ptr(&mut self) -> (data: &mut [u8])
        requires
            old(self).wf(),
        ensures
            data@ == old(self).bytes(),
            final(self).bytes() == final(data)@,
            final(self).ty() == old(self).ty(),
            final(data)@.len() == data@.len() ==> final(self).wf(),
    ;
}

/// What a store promises of the parameters with which it asks for a memory. The
/// sizes are whole numbers of wasm pages, and where a reservation is expected,
/// all that the memory may grow to fits within it.
pub open spec fn creation_promise(
    ty: MemoryType,
    reserved_size_in_bytes: Option<u64>,
    guard_size_in_bytes: u64,
) -> bool {
    &&& guard_size_in_bytes % (WASM_PAGE_SIZE as u64) == 0
    &&& reserved_size_in_bytes matches Some(reserved) ==> {
        &&& reserved % (WASM_PAGE_SIZE as u64) == 0
        &&& ty.limits.min * WASM_PAGE_SIZE <= reserved
        &&& planned_maximum(ty) * WASM_PAGE_SIZE <= reserved
    }
}

/// A memory creator. Can be used to provide a memory creator to a store which
/// supplies host managed memory.
pub trait MemoryCreator: Send + Sync + Sized {
    /// The memories that this creator makes.
    type Memory: LinearMemory;

    /// A request with these parameters may be answered with `memory`.
    spec fn may_make(
        &self,
        ty: MemoryType,
        reserved_size_in_bytes: Option<u64>,
        guard_size_in_bytes: u64,
        memory: Self::Memory,
    ) -> bool;

    /// A request with these parameters may be refused.
    spec fn may_refuse(
        &self,
        ty: MemoryType,
        reserved_size_in_bytes: Option<u64>,
        guard_size_in_bytes: u64,
    ) -> bool;

    /// Create a new `LinearMemory` object from the specified parameters.
    ///
    /// The type of memory being created is specified by `ty` which indicates
    /// both the minimum and maximum size, in wasm pages.
    ///
    /// The `reserved_size_in_bytes` value indicates the expected size of the
    /// reservation that is to be made for this memory. If this value is `None`
    /// than the implementation is free to allocate memory as it sees fit. If the
    /// value is `Some`, however, then the implementation is expected to reserve
    /// that many bytes for the memory's allocation, plus the guard size at the
    /// end. In this case `grow` should never move the base pointer and the
    /// maximum size of `ty` is guaranteed to fit within
    /// `reserved_size_in_bytes`.
    ///
    /// The `guard_size_in_bytes` parameter indicates how many bytes of space,
    /// after the memory allocation, is expected to be unmapped.
    ///
    /// These two values are guaranteed to be multiples of the wasm page size.
    /// Nothing is said here of where in the address space a memory lies.
    fn new_memory(
        &self,
        ty: MemoryType,
        reserved_size_in_bytes: Option<u64>,
        guard_size_in_bytes: u64,
    ) -> (memory: Result<Self::Memory, String>)
        requires
            creation_promise(ty, reserved_size_in_bytes, guard_size_in_bytes),
        ensures
            memory matches Ok(memory) ==> {
                &&& memory.wf()
                &&& memory.ty() == ty
                &&& memory.bytes() == zeroed(ty.limits.min as nat)
                &&& self.may_make(ty, reserved_size_in_bytes, guard_size_in_bytes, memory)
            },
            memory is Err ==> self.may_refuse(ty, reserved_size_in_bytes, guard_size_in_bytes),
    ;
}

/// A linear memory on the heap. It reserves no address space and has no guard
/// region: it is read and written through slices, which check their bounds.
pub struct HeapMemory {
    ty: MemoryType,
    size: u32,
    data: Vec<u8>,
}

/// Whether a memory of type `ty` that has `size` pages can get `delta` more.
/// Growth by nothing is always granted. Otherwise the new size does not exceed
/// the maximum of the memory, where it has one, stays below `WASM_MAX_PAGES`, and
/// is one that can be allocated. A memory of `WASM_MAX_PAGES` pages can still be
/// indexed and can be made, but none is grown to that size.
pub open spec fn growth_fits(ty: MemoryType, size: nat, delta: u32) -> bool {
    delta == 0 || {
        &&& ty.limits.max matches Some(max) ==> size + delta <= max
        &&& size + delta < WASM_MAX_PAGES
        &&& (size + delta) * WASM_PAGE_SIZE <= isize::MAX
    }
}

impl LinearMemory for HeapMemory {
    closed spec fn wf(&self) -> bool {
        &&& self.data@.len() == self.size * WASM_PAGE_SIZE
        &&& self.ty.limits.allow(self.size as nat)
        &&& self.size <= WASM_MAX_PAGES
    }

    closed spec fn ty(&self) -> MemoryType {
        self.ty
    }

    closed spec fn bytes(&self) -> Seq<u8> {
        self.data@
    }

    open spec fn may_grant(&self, delta: u32) -> bool {
        growth_fits(self.ty(), pages_of(self.bytes().len()), delta)
    }

    open spec fn may_refuse(&self, delta: u32) -> bool {
        !growth_fits(self.ty(), pages_of(self.bytes().len()), delta)
    }

    fn size(&self) -> (pages: u32) {
        self.size
    }

    fn grow(&mut self, delta: u32) -> (previous: Option<u32>)
        ensures
            previous is Some <==> delta == 0 || ({
                let pages = old(self).bytes().len() as int / 65536 + delta;
                &&& old(self).ty().limits.max matches Some(max) ==> pages <= max
                &&& pages < 65536
                &&& pages * 65536 <= isize::MAX
            }),
    {
        assert(pages_of(self.bytes().len()) == self.size);
        if delta == 0 {
            assert(self.data@ == self.data@ + zeroed(0));
            return Some(self.size);
        }
        let new_pages = match self.size.checked_add(delta) {
            Some(new_pages) => new_pages,
            None => return None,
        };
        let prev_pages = self.size;
        if let Some(maximum) = self.ty.limits.max {
            if new_pages > maximum {
                return None;
            }
        }
        if new_pages >= WASM_MAX_PAGES {
            return None;
        }
        let new_bytes: u64 = new_pages as u64 * WASM_PAGE_SIZE as u64;
        if new_bytes > isize::MAX as u64 {
            return None;
        }
        let ghost before = self.data@;
        self.data.resize(new_bytes as usize, 0);
        self.size = new_pages;
        assert(self.data@ == before + zeroed(delta as nat)) by {
            assert(self.data@.subrange(0, before.len() as int) == before);
            assert forall|i: int| 0 <= i < before.len() implies self.data@[i] == before[i] by {
                assert(self.data@.subrange(0, before.len() as int)[i] == before[i]);
            }
        }
        Some(prev_pages)
    }

    fn as_ptr(&self) -> (data: &[u8]) {
        self.data.as_slice()
    }

    fn as_mut_ptr(&mut self) -> (data: &mut [u8]) {
        self.data.as_mut_slice()
    }
}

impl HeapMemory {
    /// A memory in order has a size that can be indexed.
    pub proof fn lemma_can_be_indexed(&self)
        requires
            self.wf(),
        ensures
            pages_of(self.bytes().len()) <= WASM_MAX_PAGES,
    {
    }
}

/// A memory of type `ty` can be on the heap: neither limit exceeds what can be
/// indexed, and the minimum is a size that can be allocated.
pub open spec fn heap_holds(ty: MemoryType) -> bool {
    &&& ty.limits.min <= WASM_MAX_PAGES
    &&& planned_maximum(ty) <= WASM_MAX_PAGES
    &&& ty.limits.min * WASM_PAGE_SIZE <= isize::MAX
}

/// The creator of memories on the heap.
pub struct HeapMemoryCreator {}

impl MemoryCreator for HeapMemoryCreator {
    type Memory = HeapMemory;

    open spec fn may_make(
        &self,
        ty: MemoryType,
        reserved_size_in_bytes: Option<u64>,
        guard_size_in_bytes: u64,
        memory: HeapMemory,
    ) -> bool {
        heap_holds(ty)
    }

    open spec fn may_refuse(
        &self,
        ty: MemoryType,
        reserved_size_in_bytes: Option<u64>,
        guard_size_in_bytes: u64,
    ) -> bool {
        !heap_holds(ty)
    }

    fn new_memory(
        &self,
        ty: MemoryType,
        reserved_size_in_bytes: Option<u64>,
        guard_size_in_bytes: u64,
    ) -> (memory: Result<HeapMemory, String>)
        ensures
            memory is Ok <==> heap_holds(ty),
            memory is Ok <==> {
                &&& ty.limits.min <= 65536
                &&& ty.limits.max matches Some(max) ==> max <= 65536
                &&& ty.limits.min * 65536 <= isize::MAX
            },
            memory matches Err(why) ==> why@ == (if ty.limits.min > 65536 {
                "minimum size exceeds what can be indexed"@
            } else if ty.limits.max is Some && ty.limits.max->0 > 65536 {
                "maximum size exceeds what can be indexed"@
            } else {
                "minimum size exceeds what can be allocated"@
            }),
    {
        if ty.limits.min > WASM_MAX_PAGES {
            return Err("minimum size exceeds what can be indexed".to_string());
        }
        if let Some(maximum) = ty.limits.max {
            if maximum > WASM_MAX_PAGES {
                return Err("maximum size exceeds what can be indexed".to_string());
            }
        }
        let bytes: u64 = ty.limits.min as u64 * WASM_PAGE_SIZE as u64;
        if bytes > isize::MAX as u64 {
            return Err("minimum size exceeds what can be allocated".to_string());
        }
        let mut data: Vec<u8> = Vec::new();
        data.resize(bytes as usize, 0);
        assert(data@ == zeroed(ty.limits.min as nat));
        Ok(HeapMemory { ty, size: ty.limits.min, data })
    }
}

} // verus!
