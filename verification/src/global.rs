//! Globals.
use crate::creator::MemoryCreator;
use crate::error::Error;
use crate::runtime::{ExportGlobal, GlobalDeclaration, GlobalDefinition};
use crate::store::{StoredGlobal, Store, StoreId, StoreView};
use crate::types::{GlobalType, Mutability, ValType};
use crate::values::{from_checked_anyfunc, ExternRef, Val};
use vstd::prelude::*;

verus! {

/// A WebAssembly `global` value which can be read and written to.
///
/// A `global` in WebAssembly is sort of like a global variable within an
/// instance. The `global.get` and `global.set` instructions will modify and read
/// global values in a wasm module. Globals can either be imported or exported
/// from wasm modules.
///
/// # `Global` and `Clone`
///
/// The value lives in the store, so you can `clone` a `Global`. The cloning
/// process only performs a shallow clone, so two cloned `Global` instances are
/// equivalent in their functionality.
#[derive(Clone, Copy, Debug)]
pub struct Global {
    pub instance: StoreId,
    pub wasmtime_export: ExportGlobal,
}

/// Why a global of the type `ty` cannot be made in the store `id` with the value
/// `val`, if it cannot.
pub open spec fn global_new_error(id: StoreId, ty: GlobalType, val: Val) -> Option<Error> {
    if !val.belongs_to(id) {
        Some(Error::CrossStoreGlobal)
    } else if val.spec_ty() != ty.content {
        Some(Error::GlobalType)
    } else {
        None
    }
}

impl Global {
    /// The global is one of this store.
    pub open spec fn valid<C: MemoryCreator>(self, store: StoreView<C>) -> bool {
        &&& self.instance == store.id
        &&& self.wasmtime_export.definition < store.globals.len()
        &&& store.globals[self.wasmtime_export.definition as int].global
            == self.wasmtime_export.global
    }

    /// The type of this global.
    pub open spec fn spec_ty(self) -> GlobalType {
        GlobalType {
            content: self.wasmtime_export.global.wasm_ty,
            mutability: if self.wasmtime_export.global.mutability {
                Mutability::Var
            } else {
                Mutability::Const
            },
        }
    }

    /// The value that this global has.
    pub open spec fn value<C: MemoryCreator>(self, store: StoreView<C>) -> Val {
        Val::from_definition(
            store.globals[self.wasmtime_export.definition as int].value,
            self.instance,
        )
    }

    /// Why this global cannot be set to `val`, if it cannot.
    pub open spec fn set_error(self, val: Val) -> Option<Error> {
        if self.spec_ty().mutability is Const {
            Some(Error::ImmutableGlobal)
        } else if val.spec_ty() != self.spec_ty().content {
            Some(Error::GlobalSetType { global: self.spec_ty().content, val: val.spec_ty() })
        } else if !val.belongs_to(self.instance) {
            Some(Error::CrossStoreValue)
        } else {
            None
        }
    }

    /// Creates a new WebAssembly `global` value with the provide type `ty` and
    /// initial value `val`.
    ///
    /// # Errors
    ///
    /// Returns an error if the `ty` provided does not match the type of the
    /// value `val`, or if `val` comes from a different `Store`.
    pub fn new<C: MemoryCreator>(store: &mut Store<C>, ty: GlobalType, val: Val) -> (global: Result<
        Global,
        Error,
    >)
        requires
            old(store).wf(),
            val.valid(old(store)@),
        ensures
            final(store).wf(),
            global is Ok <==> val.spec_ty() == ty.content && val.belongs_to(old(store)@.id),
            global matches Ok(global) ==> {
                &&& global.wasmtime_export.global.wasm_ty == ty.content
                &&& global.wasmtime_export.global.mutability == (ty.mutability == Mutability::Var)
            },
            match global_new_error(old(store)@.id, ty, val) {
                Some(error) => {
                    &&& global == Err::<Global, Error>(error)
                    &&& final(store)@ == old(store)@
                },
                None => {
                    &&& global matches Ok(global)
                    &&& global.valid(final(store)@)
                    &&& global.spec_ty() == ty
                    &&& global.wasmtime_export.definition == old(store)@.globals.len()
                    &&& global.value(final(store)@) == val
                    &&& final(store)@ == old(store)@.push_global(
                        StoredGlobal {
                            global: global.wasmtime_export.global,
                            value: val.definition(),
                        },
                    )
                },
            },
    {
        if !val.comes_from_same_store(store) {
            return Err(Error::CrossStoreGlobal);
        }
        if val.ty() != *ty.content() {
            return Err(Error::GlobalType);
        }
        let wasm_ty = *ty.content();
        let mutability = match ty.mutability() {
            Mutability::Const => false,
            Mutability::Var => true,
        };
        let global = GlobalDeclaration { wasm_ty, mutability };
        let definition = store.new_global(global, val.into_definition());
        Ok(Global { instance: store.id(), wasmtime_export: ExportGlobal { definition, global } })
    }

    /// Returns the underlying type of this `global`.
    pub fn ty(&self) -> (ty: GlobalType)
        ensures
            ty == self.spec_ty(),
            ty.content == self.wasmtime_export.global.wasm_ty,
            (ty.mutability == Mutability::Var) == self.wasmtime_export.global.mutability,
    {
        GlobalType::new(self.val_type(), self.mutability())
    }

    /// Returns the value type of this `global`.
    pub fn val_type(&self) -> (ty: ValType)
        ensures
            ty == self.spec_ty().content,
    {
        self.wasmtime_export.global.wasm_ty
    }

    /// Returns the underlying mutability of this `global`.
    pub fn mutability(&self) -> (mutability: Mutability)
        ensures
            mutability == self.spec_ty().mutability,
    {
        if self.wasmtime_export.global.mutability {
            Mutability::Var
        } else {
            Mutability::Const
        }
    }

    /// Returns the current `Val` of this global.
    pub fn get<C: MemoryCreator>(&self, store: &Store<C>) -> (val: Val)
        requires
            store.wf(),
            self.valid(store@),
        ensures
            val == self.value(store@),
            val.spec_ty() == self.spec_ty().content,
            val.belongs_to(store@.id),
            val.valid(store@),
    {
        broadcast use Store::lemma_wf;

        assert(store@.globals[self.wasmtime_export.definition as int].wf(store@.functions));
        match store.global_get(self.wasmtime_export.definition) {
            GlobalDefinition::I32(i) => Val::I32(i),
            GlobalDefinition::I64(i) => Val::I64(i),
            GlobalDefinition::F32(f) => Val::F32(f),
            GlobalDefinition::F64(f) => Val::F64(f),
            GlobalDefinition::V128(v) => Val::V128(v),
            GlobalDefinition::ExternRef(None) => Val::ExternRef(None),
            GlobalDefinition::ExternRef(Some(inner)) => Val::ExternRef(Some(ExternRef { inner })),
            GlobalDefinition::FuncRef(anyfunc) => from_checked_anyfunc(anyfunc, store),
        }
    }

    /// Attempts to set the current value of this global to `Val`.
    ///
    /// # Errors
    ///
    /// Returns an error if this global has a different type than `Val`, if it's
    /// not a mutable global, or if `Val` comes from a different `Store`.
    pub fn set<C: MemoryCreator>(&self, store: &mut Store<C>, val: Val) -> (result: Result<
        (),
        Error,
    >)
        requires
            old(store).wf(),
            self.valid(old(store)@),
            val.valid(old(store)@),
        ensures
            final(store).wf(),
            result is Ok <==> {
                &&& self.wasmtime_export.global.mutability
                &&& val.spec_ty() == self.wasmtime_export.global.wasm_ty
                &&& val.belongs_to(old(store)@.id)
            },
            match self.set_error(val) {
                Some(error) => {
                    &&& result == Err::<(), Error>(error)
                    &&& final(store)@ == old(store)@
                },
                None => {
                    &&& result is Ok
                    &&& final(store)@ == old(store)@.with_value(
                        self.wasmtime_export.definition as int,
                        val.definition(),
                    )
                    &&& self.value(final(store)@) == val
                },
            },
    {
        if self.mutability() != Mutability::Var {
            return Err(Error::ImmutableGlobal);
        }
        let ty = self.val_type();
        if val.ty() != ty {
            return Err(Error::GlobalSetType { global: ty, val: val.ty() });
        }
        if !val.comes_from_same_store(store) {
            return Err(Error::CrossStoreValue);
        }
        store.global_set(self.wasmtime_export.definition, val.into_definition());
        Ok(())
    }

    /// The global of the store `instance` that is exported as `wasmtime_export`.
    pub fn from_wasmtime_global(wasmtime_export: ExportGlobal, instance: StoreId) -> (global: Global)
        ensures
            global == (Global { instance, wasmtime_export }),
    {
        Global { instance, wasmtime_export }
    }
}

} // verus!
