//! The items that a wasm module can import or export.
use crate::creator::MemoryCreator;
use crate::func::Func;
use crate::global::Global;
use crate::memory::Memory;
use crate::runtime;
use crate::store::{Store, StoreId, StoreView};
use crate::table::Table;
use crate::types::{ExternType, Mutability};
use vstd::prelude::*;

verus! {

/// An external item to a WebAssembly module, or a list of what can possibly be
/// exported from a wasm module.
///
/// This is the type of extracted values from an instantiated module, and it's
/// also used to provide imported values when instantiating a module.
pub enum Extern {
    /// A WebAssembly `func` which can be called.
    Func(Func),
    /// A WebAssembly `global` which acts like a `Cell<T>` of sorts, supporting
    /// `get` and `set` operations.
    Global(Global),
    /// A WebAssembly `table` which is an array of `Val` types.
    Table(Table),
    /// A WebAssembly linear memory.
    Memory(Memory),
}

impl Extern {
    /// The store that this item belongs to.
    pub open spec fn spec_store(self) -> StoreId {
        match self {
            Extern::Func(func) => func.instance,
            Extern::Global(global) => global.instance,
            Extern::Table(table) => table.instance,
            Extern::Memory(memory) => memory.instance,
        }
    }

    /// The item is one of this store.
    pub open spec fn valid<C: MemoryCreator>(self, store: StoreView<C>) -> bool {
        match self {
            Extern::Func(func) => func.valid(store),
            Extern::Global(global) => global.valid(store),
            Extern::Table(table) => table.valid(store),
            Extern::Memory(memory) => memory.valid(store),
        }
    }

    /// How this item is exported.
    pub open spec fn spec_export(self) -> runtime::Export {
        match self {
            Extern::Func(func) => runtime::Export::Function(func.export),
            Extern::Global(global) => runtime::Export::Global(global.wasmtime_export),
            Extern::Table(table) => runtime::Export::Table(table.wasmtime_export),
            Extern::Memory(memory) => runtime::Export::Memory(memory.wasmtime_export),
        }
    }

    /// The item of the store `instance` that is exported as `export`.
    pub open spec fn spec_from_export(export: runtime::Export, instance: StoreId) -> Extern {
        match export {
            runtime::Export::Function(export) => Extern::Func(Func { instance, export }),
            runtime::Export::Global(wasmtime_export) => Extern::Global(
                Global { instance, wasmtime_export },
            ),
            runtime::Export::Table(wasmtime_export) => Extern::Table(
                Table { instance, wasmtime_export },
            ),
            runtime::Export::Memory(wasmtime_export) => Extern::Memory(
                Memory { instance, wasmtime_export },
            ),
        }
    }

    /// `ty` is the type of this item.
    pub open spec fn has_type<C: MemoryCreator>(self, store: StoreView<C>, ty: ExternType) -> bool {
        match self {
            Extern::Func(func) => ty matches ExternType::Func(ty) && ty@
                == store.functions[func.export],
            Extern::Global(global) => ty == ExternType::Global(global.spec_ty()),
            Extern::Table(table) => ty == ExternType::Table(table.spec_ty()),
            Extern::Memory(memory) => ty == ExternType::Memory(memory.spec_ty()),
        }
    }

    /// Returns the underlying `Func`, if this external is a function.
    ///
    /// Returns `None` if this is not a function.
    pub fn into_func(self) -> (func: Option<Func>)
        ensures
            func == (match self {
                Extern::Func(func) => Some(func),
                _ => None,
            }),
    {
        match self {
            Extern::Func(func) => Some(func),
            _ => None,
        }
    }

    /// Returns the underlying `Global`, if this external is a global.
    ///
    /// Returns `None` if this is not a global.
    pub fn into_global(self) -> (global: Option<Global>)
        ensures
            global == (match self {
                Extern::Global(global) => Some(global),
                _ => None,
            }),
    {
        match self {
            Extern::Global(global) => Some(global),
            _ => None,
        }
    }

    /// Returns the underlying `Table`, if this external is a table.
    ///
    /// Returns `None` if this is not a table.
    pub fn into_table(self) -> (table: Option<Table>)
        ensures
            table == (match self {
                Extern::Table(table) => Some(table),
                _ => None,
            }),
    {
        match self {
            Extern::Table(table) => Some(table),
            _ => None,
        }
    }

    /// Returns the underlying `Memory`, if this external is a memory.
    ///
    /// Returns `None` if this is not a memory.
    pub fn into_memory(self) -> (memory: Option<Memory>)
        ensures
            memory == (match self {
                Extern::Memory(memory) => Some(memory),
                _ => None,
            }),
    {
        match self {
            Extern::Memory(memory) => Some(memory),
            _ => None,
        }
    }

    /// Returns the type associated with this `Extern`.
    pub fn ty<C: MemoryCreator>(&self, store: &Store<C>) -> (ty: ExternType)
        requires
            self matches Extern::Func(func) ==> func.valid(store@),
        ensures
            self.has_type(store@, ty),
            match *self {
                Extern::Func(func) => ty is Func && ty->Func_0@ == store@.functions[func.export],
                Extern::Global(global) => {
                    &&& ty is Global
                    &&& ty->Global_0.content == global.wasmtime_export.global.wasm_ty
                    &&& (ty->Global_0.mutability == Mutability::Var)
                        == global.wasmtime_export.global.mutability
                },
                Extern::Table(table) => ty is Table && ty->Table_0
                    == table.wasmtime_export.table.table,
                Extern::Memory(memory) => ty is Memory && ty->Memory_0
                    == memory.wasmtime_export.memory.memory,
            },
    {
        match self {
            Extern::Func(ft) => ExternType::Func(ft.ty(store)),
            Extern::Memory(ft) => ExternType::Memory(ft.ty()),
            Extern::Table(tt) => ExternType::Table(tt.ty()),
            Extern::Global(gt) => ExternType::Global(gt.ty()),
        }
    }

    /// Returns how this item is exported.
    pub fn get_wasmtime_export(&self) -> (export: runtime::Export)
        ensures
            export == self.spec_export(),
    {
        match self {
            Extern::Func(f) => runtime::Export::Function(f.wasmtime_function().clone()),
            Extern::Global(g) => runtime::Export::Global(g.wasmtime_export),
            Extern::Memory(m) => runtime::Export::Memory(m.wasmtime_export),
            Extern::Table(t) => runtime::Export::Table(t.wasmtime_export),
        }
    }

    /// Returns the item of the store `instance` that is exported as
    /// `wasmtime_export`.
    pub fn from_wasmtime_export(wasmtime_export: runtime::Export, instance: StoreId) -> (item:
        Extern)
        ensures
            item == Extern::spec_from_export(wasmtime_export, instance),
    {
        match wasmtime_export {
            runtime::Export::Function(f) => Extern::Func(Func::from_wasmtime_function(f, instance)),
            runtime::Export::Memory(m) => Extern::Memory(Memory::from_wasmtime_memory(m, instance)),
            runtime::Export::Global(g) => Extern::Global(Global::from_wasmtime_global(g, instance)),
            runtime::Export::Table(t) => Extern::Table(Table::from_wasmtime_table(t, instance)),
        }
    }

    /// Returns whether this item belongs to `store`.
    pub fn comes_from_same_store<C: MemoryCreator>(&self, store: &Store<C>) -> (same: bool)
        ensures
            same == (self.spec_store() == store@.id),
    {
        let my_store = match self {
            Extern::Func(f) => f.store(),
            Extern::Global(g) => g.instance,
            Extern::Memory(m) => m.instance,
            Extern::Table(t) => t.instance,
        };
        my_store == store.id()
    }
}

impl Clone for Extern {
    fn clone(&self) -> (copy: Extern)
        ensures
            copy == *self,
    {
        match self {
            Extern::Func(func) => Extern::Func(func.clone()),
            Extern::Global(global) => Extern::Global(*global),
            Extern::Table(table) => Extern::Table(*table),
            Extern::Memory(memory) => Extern::Memory(*memory),
        }
    }
}

impl From<Func> for Extern {
    fn from(r: Func) -> (item: Self) {
        Extern::Func(r)
    }
}

impl vstd::std_specs::convert::FromSpecImpl<Func> for Extern {
    open spec fn obeys_from_spec() -> bool {
        true
    }

    open spec fn from_spec(r: Func) -> Self {
        Extern::Func(r)
    }
}

impl From<Global> for Extern {
    fn from(r: Global) -> (item: Self) {
        Extern::Global(r)
    }
}

impl vstd::std_specs::convert::FromSpecImpl<Global> for Extern {
    open spec fn obeys_from_spec() -> bool {
        true
    }

    open spec fn from_spec(r: Global) -> Self {
        Extern::Global(r)
    }
}

impl From<Memory> for Extern {
    fn from(r: Memory) -> (item: Self) {
        Extern::Memory(r)
    }
}

impl vstd::std_specs::convert::FromSpecImpl<Memory> for Extern {
    open spec fn obeys_from_spec() -> bool {
        true
    }

    open spec fn from_spec(r: Memory) -> Self {
        Extern::Memory(r)
    }
}

impl From<Table> for Extern {
    fn from(r: Table) -> (item: Self) {
        Extern::Table(r)
    }
}

impl vstd::std_specs::convert::FromSpecImpl<Table> for Extern {
    open spec fn obeys_from_spec() -> bool {
        true
    }

    open spec fn from_spec(r: Table) -> Self {
        Extern::Table(r)
    }
}

/// An exported WebAssembly value: the name and the item that are exported from a
/// wasm instance.
pub struct Export<'instance> {
    /// The name of the export.
    name: &'instance str,
    /// The definition of the export.
    definition: Extern,
}

impl<'instance> Export<'instance> {
    /// The name of the export.
    pub closed spec fn spec_name(self) -> Seq<char> {
        self.name@
    }

    /// The definition of the export.
    pub closed spec fn spec_definition(self) -> Extern {
        self.definition
    }

    /// Creates a new export which is exported with the given `name` and has the
    /// given `definition`.
    pub fn new(name: &'instance str, definition: Extern) -> (export: Export<'instance>)
        ensures
            export.spec_name() == name@,
            export.spec_definition() == definition,
    {
        Export { name, definition }
    }

    /// Returns the name by which this export is known.
    pub fn name(&self) -> (name: &'instance str)
        ensures
            name@ == self.spec_name(),
    {
        self.name
    }

    /// Return the `ExternType` of this export.
    pub fn ty<C: MemoryCreator>(&self, store: &Store<C>) -> (ty: ExternType)
        requires
            self.spec_definition() matches Extern::Func(func) ==> func.valid(store@),
        ensures
            self.spec_definition().has_type(store@, ty),
            match self.spec_definition() {
                Extern::Func(func) => ty is Func && ty->Func_0@ == store@.functions[func.export],
                Extern::Global(global) => {
                    &&& ty is Global
                    &&& ty->Global_0.content == global.wasmtime_export.global.wasm_ty
                    &&& (ty->Global_0.mutability == Mutability::Var)
                        == global.wasmtime_export.global.mutability
                },
                Extern::Table(table) => ty is Table && ty->Table_0
                    == table.wasmtime_export.table.table,
                Extern::Memory(memory) => ty is Memory && ty->Memory_0
                    == memory.wasmtime_export.memory.memory,
            },
    {
        self.definition.ty(store)
    }

    /// Consume this `Export` and return the contained `Extern`.
    pub fn into_extern(self) -> (definition: Extern)
        ensures
            definition == self.spec_definition(),
    {
        self.definition
    }

    /// Consume this `Export` and return the contained `Func`, if it's a function,
    /// or `None` otherwise.
    pub fn into_func(self) -> (func: Option<Func>)
        ensures
            func == (match self.spec_definition() {
                Extern::Func(func) => Some(func),
                _ => None,
            }),
    {
        self.definition.into_func()
    }

    /// Consume this `Export` and return the contained `Table`, if it's a table,
    /// or `None` otherwise.
    pub fn into_table(self) -> (table: Option<Table>)
        ensures
            table == (match self.spec_definition() {
                Extern::Table(table) => Some(table),
                _ => None,
            }),
    {
        self.definition.into_table()
    }

    /// Consume this `Export` and return the contained `Memory`, if it's a memory,
    /// or `None` otherwise.
    pub fn into_memory(self) -> (memory: Option<Memory>)
        ensures
            memory == (match self.spec_definition() {
                Extern::Memory(memory) => Some(memory),
                _ => None,
            }),
    {
        self.definition.into_memory()
    }

    /// Consume this `Export` and return the contained `Global`, if it's a global,
    /// or `None` otherwise.
    pub fn into_global(self) -> (global: Option<Global>)
        ensures
            global == (match self.spec_definition() {
                Extern::Global(global) => Some(global),
                _ => None,
            }),
    {
        self.definition.into_global()
    }
}

impl<'instance> Clone for Export<'instance> {
    fn clone(&self) -> (copy: Export<'instance>)
        ensures
            copy == *self,
    {
        Export { name: self.name, definition: self.definition.clone() }
    }
}

} // verus!
