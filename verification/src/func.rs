//! Functions, as items that a wasm module can import or export.
use crate::creator::MemoryCreator;
use crate::store::{Store, StoreId, StoreView};
use crate::types::FuncType;
use vstd::prelude::*;

verus! {

/// A WebAssembly function which can be called.
pub struct Func {
    pub instance: StoreId,
    pub export: wasmtime_runtime::ExportFunction,
}

impl Func {
    /// The function is one of this store.
    pub open spec fn valid<C: MemoryCreator>(self, store: StoreView<C>) -> bool {
        &&& self.instance == store.id
        &&& store.functions.dom().contains(self.export)
    }

    /// Makes a function of the runtime known to `store`, with the type `ty`. A
    /// function that the store knows already keeps its type.
    pub fn new<C: MemoryCreator>(
        store: &mut Store<C>,
        ty: FuncType,
        export: wasmtime_runtime::ExportFunction,
    ) -> (func: Func)
        requires
            old(store).wf(),
        ensures
            final(store).wf(),
            final(store)@ == old(store)@.with_function(export, ty@),
            func == (Func { instance: old(store)@.id, export }),
            func.valid(final(store)@),
    {
        let instance = store.id();
        store.register_function(export.clone(), ty);
        Func::from_wasmtime_function(export, instance)
    }

    /// The function of the store `instance` that is exported as `export`.
    pub fn from_wasmtime_function(
        export: wasmtime_runtime::ExportFunction,
        instance: StoreId,
    ) -> (func: Func)
        ensures
            func == (Func { instance, export }),
    {
        Func { instance, export }
    }

    /// Returns the underlying wasm type that this `Func` has.
    pub fn ty<C: MemoryCreator>(&self, store: &Store<C>) -> (ty: FuncType)
        requires
            self.valid(store@),
        ensures
            ty@ == store@.functions[self.export],
    {
        store.function_type(&self.export).unwrap()
    }

    /// Returns the store that this function belongs to.
    pub fn store(&self) -> (store: StoreId)
        ensures
            store == self.instance,
    {
        self.instance
    }

    /// Returns how this function is exported.
    pub fn wasmtime_function(&self) -> (export: &wasmtime_runtime::ExportFunction)
        ensures
            *export == self.export,
    {
        &self.export
    }
}

impl Clone for Func {
    fn clone(&self) -> (copy: Func)
        ensures
            copy == *self,
    {
        Func { instance: self.instance, export: self.export.clone() }
    }
}

} // verus!
