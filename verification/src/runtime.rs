//! What the externals take from the wasm runtime: its tables, its references to
//! functions and to host data, its way of planning memories, and the records by
//! which an item of a store is found again.
use crate::types::{MemoryType, TableType, ValType};
use vstd::prelude::*;
use wasmtime_runtime::Table as RuntimeTable;

verus! {

/// WebAssembly page sizes are defined to be 64KiB.
pub const WASM_PAGE_SIZE: u32 = 0x1_0000;

/// The number of pages we can have before we run out of byte index space.
pub const WASM_MAX_PAGES: u32 = 0x1_0000;

/// A non-null reference to a function: the runtime's `ExportFunction`, whose one
/// field is the address of the function's record. It is carried, never looked
/// into; two are equal when they are the address of the same record.
#[verifier::external_type_specification]
#[verifier::external_body]
pub struct ExExportFunction(wasmtime_runtime::ExportFunction);

/// A non-null reference to host data: the runtime's `VMExternRef`, a counted
/// pointer. It is carried, never looked into; two are equal when they point to
/// the same data.
#[verifier::external_type_specification]
#[verifier::external_body]
pub struct ExVMExternRef(wasmtime_runtime::VMExternRef);

/// The runtime's `Table`: a growable array of function or host references.
#[verifier::external_type_specification]
#[verifier::external_body]
pub struct ExTable(RuntimeTable);

/// The runtime's `Trap`: why an operation on a table was stopped.
#[verifier::external_type_specification]
#[verifier::external_body]
pub struct ExTrap(wasmtime_runtime::Trap);

/// `ExportFunction::clone` copies the address that it holds.
pub assume_specification[ <wasmtime_runtime::ExportFunction as Clone>::clone ](
    function: &wasmtime_runtime::ExportFunction,
) -> (copy: wasmtime_runtime::ExportFunction)
    ensures
        copy == *function,
;

/// `VMExternRef::clone` gives one more pointer to the same host data.
pub assume_specification[ <wasmtime_runtime::VMExternRef as Clone>::clone ](
    reference: &wasmtime_runtime::VMExternRef,
) -> (copy: wasmtime_runtime::VMExternRef)
    ensures
        copy == *reference,
;

/// Compares the addresses that two `ExportFunction`s hold (`NonNull::eq` on
/// their one field): equal exactly when both refer to the same function.
#[verifier::external_body]
pub(crate) fn same_function(
    a: &wasmtime_runtime::ExportFunction,
    b: &wasmtime_runtime::ExportFunction,
) -> (same: bool)
    ensures
        same == (*a == *b),
{
    a.anyfunc == b.anyfunc
}

/// A number that no other call in this process has been given, from the counter
/// behind `wasmtime_environ::Module::new`, which numbers each module that is
/// made. Nothing is claimed of the number itself.
#[verifier::external_body]
pub(crate) fn next_id() -> usize {
    wasmtime_environ::Module::new().id
}

/// What kind of reference a table of the runtime holds.
#[derive(Clone, Copy, Debug, PartialEq, Eq, Structural)]
pub enum TableElementType {
    /// References to functions.
    Func,
    /// References to host data.
    Val,
}

/// An element going into or coming out of a table. A null reference is `None`.
pub enum TableElement {
    /// A `funcref`.
    FuncRef(Option<wasmtime_runtime::ExportFunction>),
    /// An `externref`.
    ExternRef(Option<wasmtime_runtime::VMExternRef>),
}

impl TableElement {
    /// The kind of table that this element can be stored in.
    pub open spec fn kind(self) -> TableElementType {
        match self {
            TableElement::FuncRef(_) => TableElementType::Func,
            TableElement::ExternRef(_) => TableElementType::Val,
        }
    }

    /// The null reference of the given kind.
    pub open spec fn null(kind: TableElementType) -> TableElement {
        match kind {
            TableElementType::Func => TableElement::FuncRef(None),
            TableElementType::Val => TableElement::ExternRef(None),
        }
    }

    /// Returns the kind of table that this element can be stored in.
    pub fn element_type(&self) -> (kind: TableElementType)
        ensures
            kind == self.kind(),
    {
        match self {
            TableElement::FuncRef(_) => TableElementType::Func,
            TableElement::ExternRef(_) => TableElementType::Val,
        }
    }
}

impl Clone for TableElement {
    fn clone(&self) -> (copy: TableElement)
        ensures
            copy == *self,
    {
        match self {
            TableElement::FuncRef(None) => TableElement::FuncRef(None),
            TableElement::FuncRef(Some(function)) => TableElement::FuncRef(Some(function.clone())),
            TableElement::ExternRef(None) => TableElement::ExternRef(None),
            TableElement::ExternRef(Some(data)) => TableElement::ExternRef(Some(data.clone())),
        }
    }
}

/// The elements that a table of the runtime holds, from index zero on.
pub uninterp spec fn table_elements(table: wasmtime_runtime::Table) -> Seq<TableElement>;

/// The kind of reference that a table of the runtime was made for.
pub uninterp spec fn table_kind(table: wasmtime_runtime::Table) -> TableElementType;

/// `elements` with the `len` elements from `dst` on replaced by `element`.
pub open spec fn filled<T>(elements: Seq<T>, dst: int, element: T, len: int) -> Seq<T> {
    Seq::new(
        elements.len(),
        |i: int|
            if dst <= i < dst + len {
                element
            } else {
                elements[i]
            },
    )
}

/// `elements` with the `len` elements from `dst` on replaced by those that
/// `source` has from `src` on.
pub open spec fn copied<T>(
    elements: Seq<T>,
    dst: int,
    source: Seq<T>,
    src: int,
    len: int,
) -> Seq<T> {
    Seq::new(
        elements.len(),
        |i: int|
            if dst <= i < dst + len {
                source[src + (i - dst)]
            } else {
                elements[i]
            },
    )
}

/// `wasmtime_runtime::Table::new`, with a plan from
/// `wasmtime_environ::TablePlan::for_table`: a table of the given kind with
/// `minimum` elements, each the null reference.
#[verifier::external_body]
pub(crate) fn table_new(kind: TableElementType, minimum: u32, maximum: Option<u32>) -> (table:
    wasmtime_runtime::Table)
    ensures
        table_kind(table) == kind,
        table_elements(table) == Seq::new(minimum as nat, |i: int| TableElement::null(kind)),
{
    let (wasm_ty, ty) = match kind {
        TableElementType::Func => (
            wasmtime_environ::wasm::WasmType::FuncRef,
            wasmtime_environ::wasm::TableElementType::Func,
        ),
        TableElementType::Val => (
            wasmtime_environ::wasm::WasmType::ExternRef,
            wasmtime_environ::wasm::TableElementType::Val(wasmtime_runtime::ref_type()),
        ),
    };
    let table = wasmtime_environ::wasm::Table { wasm_ty, ty, minimum, maximum };
    let tunables = wasmtime_environ::Tunables::default();
    wasmtime_runtime::Table::new(&wasmtime_environ::TablePlan::for_table(table, &tunables))
}

/// `wasmtime_runtime::Table::size`: the number of elements.
#[verifier::external_body]
pub(crate) fn table_size(table: &wasmtime_runtime::Table) -> (size: u32)
    ensures
        size == table_elements(*table).len(),
{
    table.size()
}

/// `wasmtime_runtime::Table::get`: the element at `index`, or `None` where the
/// table has no such index.
#[verifier::external_body]
pub(crate) fn table_get(table: &wasmtime_runtime::Table, index: u32) -> (element: Option<
    TableElement,
>)
    ensures
        element == (if index < table_elements(*table).len() {
            Some(table_elements(*table)[index as int])
        } else {
            None
        }),
{
    match table.get(index)? {
        wasmtime_runtime::TableElement::FuncRef(f) => Some(TableElement::FuncRef(
            std::ptr::NonNull::new(f).map(|anyfunc| wasmtime_runtime::ExportFunction { anyfunc }),
        )),
        wasmtime_runtime::TableElement::ExternRef(x) => Some(TableElement::ExternRef(x)),
    }
}

/// `wasmtime_runtime::Table::set`: stores `element` at `index`. It fails, and
/// stores nothing, exactly where the table has no such index or holds another
/// kind of reference.
#[verifier::external_body]
pub(crate) fn table_set(
    table: &mut wasmtime_runtime::Table,
    index: u32,
    element: TableElement,
) -> (result: Result<(), ()>)
    ensures
        table_kind(*final(table)) == table_kind(*old(table)),
        result is Ok <==> index < table_elements(*old(table)).len() && element.kind()
            == table_kind(*old(table)),
        table_elements(*final(table)) == (if result is Ok {
            table_elements(*old(table)).update(index as int, element)
        } else {
            table_elements(*old(table))
        }),
{
    let element = match element {
        TableElement::FuncRef(f) => wasmtime_runtime::TableElement::FuncRef(
            f.map_or(std::ptr::null_mut(), |f| f.anyfunc.as_ptr()),
        ),
        TableElement::ExternRef(x) => wasmtime_runtime::TableElement::ExternRef(x),
    };
    table.set(index, element)
}

/// `wasmtime_runtime::Table::fill`: stores `element` at the `len` indexes from
/// `dst` on. It traps, and stores nothing, exactly where the table does not
/// reach that far. Inside the table it panics on an element of another kind, so
/// that is left out.
#[verifier::external_body]
pub(crate) fn table_fill(
    table: &mut wasmtime_runtime::Table,
    dst: u32,
    element: TableElement,
    len: u32,
) -> (result: Result<(), wasmtime_runtime::Trap>)
    requires
        element.kind() == table_kind(*old(table)) || len == 0 || dst + len > table_elements(
            *old(table),
        ).len(),
    ensures
        table_kind(*final(table)) == table_kind(*old(table)),
        result is Ok <==> dst + len <= table_elements(*old(table)).len(),
        table_elements(*final(table)) == (if result is Ok {
            filled(table_elements(*old(table)), dst as int, element, len as int)
        } else {
            table_elements(*old(table))
        }),
{
    let element = match element {
        TableElement::FuncRef(f) => wasmtime_runtime::TableElement::FuncRef(
            f.map_or(std::ptr::null_mut(), |f| f.anyfunc.as_ptr()),
        ),
        TableElement::ExternRef(x) => wasmtime_runtime::TableElement::ExternRef(x),
    };
    table.fill(dst, element, len)
}

/// `wasmtime_runtime::Table::copy`, on two of `tables` that may be the same one:
/// stores at the `len` indexes of `tables[dst_table]` from `dst_index` on what
/// `tables[src_table]` held, before the call, from `src_index` on. It traps, and
/// stores nothing, exactly where one of the two does not reach that far. Inside
/// both it panics where they hold different kinds of reference, so that is left
/// out.
#[verifier::external_body]
pub(crate) fn table_copy(
    tables: &mut Vec<wasmtime_runtime::Table>,
    dst_table: usize,
    dst_index: u32,
    src_table: usize,
    src_index: u32,
    len: u32,
) -> (result: Result<(), wasmtime_runtime::Trap>)
    requires
        dst_table < old(tables)@.len(),
        src_table < old(tables)@.len(),
        table_kind(old(tables)@[dst_table as int]) == table_kind(old(tables)@[src_table as int])
            || len == 0 || src_index + len > table_elements(
            old(tables)@[src_table as int],
        ).len() || dst_index + len > table_elements(old(tables)@[dst_table as int]).len(),
    ensures
        final(tables)@.len() == old(tables)@.len(),
        forall|i: int|
            0 <= i < old(tables)@.len() && i != dst_table ==> final(tables)@[i] == old(tables)@[i],
        table_kind(final(tables)@[dst_table as int]) == table_kind(old(tables)@[dst_table as int]),
        result is Ok <==> src_index + len <= table_elements(old(tables)@[src_table as int]).len()
            && dst_index + len <= table_elements(old(tables)@[dst_table as int]).len(),
        table_elements(final(tables)@[dst_table as int]) == (if result is Ok {
            copied(
                table_elements(old(tables)@[dst_table as int]),
                dst_index as int,
                table_elements(old(tables)@[src_table as int]),
                src_index as int,
                len as int,
            )
        } else {
            table_elements(old(tables)@[dst_table as int])
        }),
{
    wasmtime_runtime::Table::copy(
        &tables[dst_table],
        &tables[src_table],
        dst_index,
        src_index,
        len,
    )
}

/// Tunable parameters of the way in which memories are laid out.
#[derive(Clone, Copy, Debug, PartialEq, Eq, Structural)]
pub struct Tunables {
    /// For static memories, the size in wasm pages that is set aside for each.
    pub static_memory_bound: u32,
    /// The size in bytes of the offset guard for static memories.
    pub static_memory_offset_guard_size: u64,
    /// The size in bytes of the offset guard for dynamic memories.
    pub dynamic_memory_offset_guard_size: u64,
}

impl Tunables {
    /// Both guard sizes are whole numbers of wasm pages, and so of the pages of
    /// any host that lays out its memory in pages of 64KiB or a fraction of it.
    pub open spec fn wf(self) -> bool {
        &&& self.static_memory_offset_guard_size % (WASM_PAGE_SIZE as u64) == 0
        &&& self.dynamic_memory_offset_guard_size % (WASM_PAGE_SIZE as u64) == 0
    }
}

/// How memories are laid out where nothing else is asked for. With 64-bit
/// addresses there is room to set aside for every memory all that wasm code can
/// index.
pub open spec fn standard_tunables() -> Tunables {
    if usize::BITS == 64 {
        Tunables {
            static_memory_bound: 0x1_0000,
            static_memory_offset_guard_size: 0x8000_0000,
            dynamic_memory_offset_guard_size: 0x1_0000,
        }
    } else {
        Tunables {
            static_memory_bound: 0x4000,
            static_memory_offset_guard_size: 0x1_0000,
            dynamic_memory_offset_guard_size: 0x1_0000,
        }
    }
}

/// `wasmtime_environ::Tunables::default`, which differs between machines with
/// 32-bit and with 64-bit addresses.
#[verifier::external_body]
pub(crate) fn default_tunables() -> (tunables: Tunables)
    ensures
        tunables == standard_tunables(),
{
    let tunables = wasmtime_environ::Tunables::default();
    Tunables {
        static_memory_bound: tunables.static_memory_bound,
        static_memory_offset_guard_size: tunables.static_memory_offset_guard_size,
        dynamic_memory_offset_guard_size: tunables.dynamic_memory_offset_guard_size,
    }
}

/// Implementation styles for WebAssembly linear memory.
#[derive(Clone, Copy, Debug, PartialEq, Eq, Structural)]
pub enum MemoryStyle {
    /// The actual memory can be resized and moved.
    Dynamic,
    /// Address space is allocated up front.
    Static {
        /// The number of mapped and unmapped pages.
        bound: u32,
    },
}

/// A WebAssembly linear memory description along with our chosen style for
/// implementing it.
#[derive(Clone, Copy, Debug, PartialEq, Eq, Structural)]
pub struct MemoryPlan {
    /// The WebAssembly linear memory description.
    pub memory: MemoryType,
    /// Our chosen implementation style.
    pub style: MemoryStyle,
    /// Our chosen offset-guard size.
    pub offset_guard_size: u64,
}

/// The most pages that a memory of type `ty` is planned for.
pub open spec fn planned_maximum(ty: MemoryType) -> u32 {
    match ty.limits.max {
        Some(max) => max,
        None => WASM_MAX_PAGES,
    }
}

/// The plan for a memory of type `ty`: static where all that it may grow to fits
/// within the static bound, dynamic where it does not.
pub open spec fn planned(ty: MemoryType, tunables: Tunables) -> MemoryPlan {
    if planned_maximum(ty) <= tunables.static_memory_bound {
        MemoryPlan {
            memory: ty,
            style: MemoryStyle::Static { bound: tunables.static_memory_bound },
            offset_guard_size: tunables.static_memory_offset_guard_size,
        }
    } else {
        MemoryPlan {
            memory: ty,
            style: MemoryStyle::Dynamic,
            offset_guard_size: tunables.dynamic_memory_offset_guard_size,
        }
    }
}

/// `wasmtime_environ::MemoryPlan::for_memory`. It panics on a memory whose
/// minimum lies above the static bound while its maximum does not, so that is
/// left out.
#[verifier::external_body]
pub(crate) fn plan_memory(ty: MemoryType, tunables: Tunables) -> (plan: MemoryPlan)
    requires
        planned_maximum(ty) <= tunables.static_memory_bound ==> ty.limits.min
            <= tunables.static_memory_bound,
    ensures
        plan == planned(ty, tunables),
{
    let mut settings = wasmtime_environ::Tunables::default();
    settings.static_memory_bound = tunables.static_memory_bound;
    settings.static_memory_offset_guard_size = tunables.static_memory_offset_guard_size;
    settings.dynamic_memory_offset_guard_size = tunables.dynamic_memory_offset_guard_size;
    let (minimum, maximum) = (ty.limits.min, ty.limits.max);
    let memory = wasmtime_environ::wasm::Memory { minimum, maximum, shared: false };
    let plan = wasmtime_environ::MemoryPlan::for_memory(memory, &settings);
    let style = match plan.style {
        wasmtime_environ::MemoryStyle::Dynamic => MemoryStyle::Dynamic,
        wasmtime_environ::MemoryStyle::Static { bound } => MemoryStyle::Static { bound },
    };
    MemoryPlan { memory: ty, style, offset_guard_size: plan.offset_guard_size }
}

/// The storage of a global: one value, of the type that the variant names.
pub enum GlobalDefinition {
    I32(i32),
    I64(i64),
    F32(u32),
    F64(u64),
    V128(u128),
    ExternRef(Option<wasmtime_runtime::VMExternRef>),
    FuncRef(Option<wasmtime_runtime::ExportFunction>),
}

impl GlobalDefinition {
    /// The type of the value that is stored.
    pub open spec fn ty(self) -> ValType {
        match self {
            GlobalDefinition::I32(_) => ValType::I32,
            GlobalDefinition::I64(_) => ValType::I64,
            GlobalDefinition::F32(_) => ValType::F32,
            GlobalDefinition::F64(_) => ValType::F64,
            GlobalDefinition::V128(_) => ValType::V128,
            GlobalDefinition::ExternRef(_) => ValType::ExternRef,
            GlobalDefinition::FuncRef(_) => ValType::FuncRef,
        }
    }
}

impl Clone for GlobalDefinition {
    fn clone(&self) -> (copy: GlobalDefinition)
        ensures
            copy == *self,
    {
        match self {
            GlobalDefinition::I32(i) => GlobalDefinition::I32(*i),
            GlobalDefinition::I64(i) => GlobalDefinition::I64(*i),
            GlobalDefinition::F32(f) => GlobalDefinition::F32(*f),
            GlobalDefinition::F64(f) => GlobalDefinition::F64(*f),
            GlobalDefinition::V128(v) => GlobalDefinition::V128(*v),
            GlobalDefinition::ExternRef(None) => GlobalDefinition::ExternRef(None),
            GlobalDefinition::ExternRef(Some(data)) => GlobalDefinition::ExternRef(
                Some(data.clone()),
            ),
            GlobalDefinition::FuncRef(None) => GlobalDefinition::FuncRef(None),
            GlobalDefinition::FuncRef(Some(function)) => GlobalDefinition::FuncRef(
                Some(function.clone()),
            ),
        }
    }
}

/// The declaration of a global.
#[derive(Clone, Copy, Debug, PartialEq, Eq, Structural)]
pub struct GlobalDeclaration {
    /// The Wasm type of the value stored in the global.
    pub wasm_ty: ValType,
    /// A flag indicating whether the value may change at runtime.
    pub mutability: bool,
}

/// The declaration of a table.
#[derive(Clone, Copy, Debug, PartialEq, Eq, Structural)]
pub struct TablePlan {
    /// The WebAssembly table description.
    pub table: TableType,
}

/// A global export value.
#[derive(Clone, Copy, Debug, PartialEq, Eq, Structural)]
pub struct ExportGlobal {
    /// The place of the global's storage in its store.
    pub definition: usize,
    /// The global declaration.
    pub global: GlobalDeclaration,
}

/// A table export value.
#[derive(Clone, Copy, Debug, PartialEq, Eq, Structural)]
pub struct ExportTable {
    /// The place of the table in its store.
    pub definition: usize,
    /// The table declaration.
    pub table: TablePlan,
}

/// A memory export value.
#[derive(Clone, Copy, Debug, PartialEq, Eq, Structural)]
pub struct ExportMemory {
    /// The place of the memory in its store.
    pub definition: usize,
    /// The memory declaration.
    pub memory: MemoryPlan,
}

/// The value of an export passed from one instance to another.
pub enum Export {
    /// A function export value.
    Function(wasmtime_runtime::ExportFunction),
    /// A table export value.
    Table(ExportTable),
    /// A memory export value.
    Memory(ExportMemory),
    /// A global export value.
    Global(ExportGlobal),
}

} // verus!
