//! Linear memories.
use crate::creator::{pages_of, whole_pages, zeroed, LinearMemory, MemoryCreator};
use crate::error::Error;
use crate::runtime::{
    plan_memory, planned, planned_maximum, ExportMemory, MemoryPlan, MemoryStyle, Tunables,
    WASM_PAGE_SIZE,
};
use crate::store::{Store, StoreId, StoreView};
use crate::types::MemoryType;
use vstd::prelude::*;

verus! {

/// A WebAssembly linear memory.
///
/// WebAssembly memories represent a contiguous array of bytes that have a size
/// that is always a multiple of the WebAssembly page size, currently 64
/// kilobytes.
///
/// WebAssembly memory is used for global data, statics in C/C++/Rust, shadow
/// stack memory, etc. Accessing wasm memory is generally quite fast!
///
/// # `Memory` and `Clone`
///
/// The bytes live in the store, so you can `clone` a `Memory`. The cloning
/// process only performs a shallow clone, so two cloned `Memory` instances are
/// equivalent in their functionality.
///
/// # `Memory` and Safety
///
/// The bytes of a memory are borrowed from its store. While they are borrowed
/// for reading the store cannot change, and while they are borrowed for writing
/// nothing else can use the store: no borrow outlives growth, which may relocate
/// them, and none that can be written through overlaps another.
#[derive(Clone, Copy, Debug)]
pub struct Memory {
    pub instance: StoreId,
    pub wasmtime_export: ExportMemory,
}

/// A memory of the type `ty` can be laid out: what is set aside for it, where it
/// is static, holds its minimum.
pub open spec fn can_lay_out(ty: MemoryType, tunables: Tunables) -> bool {
    planned_maximum(ty) <= tunables.static_memory_bound ==> ty.limits.min
        <= tunables.static_memory_bound
}

/// The size in bytes of the reservation that is expected for a memory. There is
/// one exactly for a static memory.
pub open spec fn reserved_size(plan: MemoryPlan) -> Option<u64> {
    match plan.style {
        MemoryStyle::Static { bound } => Some((bound * WASM_PAGE_SIZE) as u64),
        MemoryStyle::Dynamic => None,
    }
}

impl Memory {
    /// The memory is one of this store.
    pub open spec fn valid<C: MemoryCreator>(self, store: StoreView<C>) -> bool {
        &&& self.instance == store.id
        &&& self.wasmtime_export.definition < store.memories.len()
        &&& store.memories[self.wasmtime_export.definition as int].ty() == self.spec_ty()
        &&& self.wasmtime_export.memory == planned(self.spec_ty(), store.tunables)
    }

    /// The type of this memory.
    pub open spec fn spec_ty(self) -> MemoryType {
        self.wasmtime_export.memory.memory
    }

    /// This memory, in the store.
    pub open spec fn view_in<C: MemoryCreator>(self, store: StoreView<C>) -> C::Memory {
        store.memories[self.wasmtime_export.definition as int]
    }

    /// The bytes of this memory.
    pub open spec fn bytes<C: MemoryCreator>(self, store: StoreView<C>) -> Seq<u8> {
        self.view_in(store).bytes()
    }

    /// `after` is `before` but for the bytes of this memory, which are `bytes`.
    pub open spec fn replaced<C: MemoryCreator>(
        self,
        before: StoreView<C>,
        after: StoreView<C>,
        bytes: Seq<u8>,
    ) -> bool {
        &&& after.memories.len() == before.memories.len()
        &&& after == before.with_memory(
            self.wasmtime_export.definition as int,
            self.view_in(after),
        )
        &&& self.view_in(after).ty() == self.view_in(before).ty()
        &&& self.bytes(after) == bytes
    }

    /// Creates a new WebAssembly memory given the configuration of `ty`.
    ///
    /// The memory will immediately be allocated according to the type's
    /// configuration. All WebAssembly memory is initialized to zero.
    pub fn new<C: MemoryCreator>(store: &mut Store<C>, ty: MemoryType) -> (memory: Memory)
        requires
            old(store).wf(),
            can_lay_out(ty, old(store)@.tunables),
            !old(store)@.creator.may_refuse(
                ty,
                reserved_size(planned(ty, old(store)@.tunables)),
                planned(ty, old(store)@.tunables).offset_guard_size,
            ),
        ensures
            final(store).wf(),
            memory.valid(final(store)@),
            memory.spec_ty() == ty,
            memory.wasmtime_export == (ExportMemory {
                definition: old(store)@.memories.len() as usize,
                memory: planned(ty, old(store)@.tunables),
            }),
            final(store)@ == old(store)@.push_memory(memory.view_in(final(store)@)),
            memory.bytes(final(store)@) == zeroed(ty.limits.min as nat),
            old(store)@.creator.may_make(
                ty,
                reserved_size(planned(ty, old(store)@.tunables)),
                planned(ty, old(store)@.tunables).offset_guard_size,
                memory.view_in(final(store)@),
            ),
    {
        Memory::try_new(store, ty).unwrap()
    }

    /// Creates a new WebAssembly memory given the configuration of `ty`, where the
    /// creator of the store's memories makes one.
    ///
    /// # Errors
    ///
    /// Returns an error, with the reason that the creator gives, if the creator
    /// refuses.
    pub fn try_new<C: MemoryCreator>(store: &mut Store<C>, ty: MemoryType) -> (memory: Result<
        Memory,
        Error,
    >)
        requires
            old(store).wf(),
            can_lay_out(ty, old(store)@.tunables),
        ensures
            final(store).wf(),
            memory matches Ok(memory) ==> {
                &&& memory.valid(final(store)@)
                &&& memory.spec_ty() == ty
                &&& memory.wasmtime_export == (ExportMemory {
                    definition: old(store)@.memories.len() as usize,
                    memory: planned(ty, old(store)@.tunables),
                })
                &&& final(store)@ == old(store)@.push_memory(memory.view_in(final(store)@))
                &&& memory.bytes(final(store)@) == zeroed(ty.limits.min as nat)
                &&& old(store)@.creator.may_make(
                    ty,
                    reserved_size(planned(ty, old(store)@.tunables)),
                    planned(ty, old(store)@.tunables).offset_guard_size,
                    memory.view_in(final(store)@),
                )
            },
            memory matches Err(error) ==> {
                &&& error matches Error::MemoryCreation(why)
                &&& call_ensures(
                    C::new_memory,
                    (
                        &old(store)@.creator,
                        ty,
                        reserved_size(planned(ty, old(store)@.tunables)),
                        planned(ty, old(store)@.tunables).offset_guard_size,
                    ),
                    Err::<C::Memory, String>(why),
                )
                &&& old(store)@.creator.may_refuse(
                    ty,
                    reserved_size(planned(ty, old(store)@.tunables)),
                    planned(ty, old(store)@.tunables).offset_guard_size,
                )
                &&& final(store)@ == old(store)@
            },
    {
        broadcast use Store::lemma_wf;

        let plan = plan_memory(ty, store.tunables());
        let reserved: Option<u64> = match plan.style {
            MemoryStyle::Static { bound } => Some(bound as u64 * WASM_PAGE_SIZE as u64),
            MemoryStyle::Dynamic => None,
        };
        match store.new_memory(ty, reserved, plan.offset_guard_size) {
            Ok(definition) => Ok(
                Memory {
                    instance: store.id(),
                    wasmtime_export: ExportMemory { definition, memory: plan },
                },
            ),
            Err(why) => Err(Error::MemoryCreation(why)),
        }
    }

    /// Returns the underlying type of this memory.
    pub fn ty(&self) -> (ty: MemoryType)
        ensures
            ty == self.spec_ty(),
    {
        self.wasmtime_export.memory.memory
    }

    /// Returns this memory as a slice view that can be read natively in Rust.
    pub fn data_unchecked<'a, C: MemoryCreator>(&self, store: &'a Store<C>) -> (data: &'a [u8])
        requires
            store.wf(),
            self.valid(store@),
        ensures
            data@ == self.bytes(store@),
    {
        store.memory_data(self.wasmtime_export.definition)
    }

    /// Returns this memory as a slice view that can be read and written natively
    /// in Rust.
    pub fn data_unchecked_mut<'a, C: MemoryCreator>(&self, store: &'a mut Store<C>) -> (data:
        &'a mut [u8])
        requires
            old(store).wf(),
            self.valid(old(store)@),
        ensures
            data@ == self.bytes(old(store)@),
            self.replaced(old(store)@, final(store)@, final(data)@),
            final(data)@.len() == data@.len() ==> final(store).wf(),
    {
        store.memory_data_mut(self.wasmtime_export.definition)
    }

    /// Returns the byte length of this memory.
    ///
    /// The returned value will be a multiple of the wasm page size, 64k. It lies
    /// within the limits of this memory, unless its minimum is above its maximum.
    pub fn data_size<C: MemoryCreator>(&self, store: &Store<C>) -> (size: usize)
        requires
            store.wf(),
            self.valid(store@),
        ensures
            size == self.bytes(store@).len(),
            size % (WASM_PAGE_SIZE as usize) == 0,
            self.spec_ty().limits.min * WASM_PAGE_SIZE <= size,
            self.spec_ty().limits.max matches Some(max) ==> self.spec_ty().limits.min <= max
                ==> size <= max * WASM_PAGE_SIZE,
    {
        broadcast use Store::lemma_wf;

        assert(whole_pages(self.bytes(store@).len()));
        self.data_unchecked(store).len()
    }

    /// Returns the size, in pages, of this wasm memory.
    pub fn size<C: MemoryCreator>(&self, store: &Store<C>) -> (pages: u32)
        requires
            store.wf(),
            self.valid(store@),
        ensures
            pages == pages_of(self.bytes(store@).len()),
            pages * WASM_PAGE_SIZE == self.bytes(store@).len(),
    {
        broadcast use Store::lemma_wf;

        assert(whole_pages(self.bytes(store@).len()));
        (self.data_size(store) / WASM_PAGE_SIZE as usize) as u32
    }

    /// Grows this WebAssembly memory by `delta` pages.
    ///
    /// This will attempt to add `delta` more pages of memory on to the end of
    /// this `Memory` instance.
    ///
    /// On success returns the number of pages this memory previously had before
    /// the growth succeeded.
    ///
    /// # Errors
    ///
    /// Returns an error if memory could not be grown, for example if it exceeds
    /// the maximum limits of this memory.
    pub fn grow<C: MemoryCreator>(&self, store: &mut Store<C>, delta: u32) -> (pages: Result<
        u32,
        Error,
    >)
        requires
            old(store).wf(),
            self.valid(old(store)@),
        ensures
            final(store).wf(),
            pages matches Ok(pages) ==> {
                &&& self.view_in(old(store)@).may_grant(delta)
                &&& pages == pages_of(self.bytes(old(store)@).len())
                &&& delta > 0 ==> (self.spec_ty().limits.max matches Some(max) ==> pages + delta
                    <= max)
                &&& self.replaced(
                    old(store)@,
                    final(store)@,
                    self.bytes(old(store)@) + zeroed(delta as nat),
                )
            },
            pages matches Err(error) ==> {
                &&& error == Error::MemoryGrow
                &&& self.view_in(old(store)@).may_refuse(delta)
                &&& final(store)@ == old(store)@
            },
    {
        match store.memory_grow(self.wasmtime_export.definition, delta) {
            Some(pages) => Ok(pages),
            None => Err(Error::MemoryGrow),
        }
    }

    /// The memory of the store `instance` that is exported as `wasmtime_export`.
    pub fn from_wasmtime_memory(wasmtime_export: ExportMemory, instance: StoreId) -> (memory: Memory)
        ensures
            memory == (Memory { instance, wasmtime_export }),
    {
        Memory { instance, wasmtime_export }
    }
}

} // verus!
