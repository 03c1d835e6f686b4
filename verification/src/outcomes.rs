//! When each operation succeeds, and what it answers where it does not.
//!
//! Each law speaks of the arguments and of the sizes and declarations of the
//! items alone, and settles every case.
use crate::config::{rounded_up, LARGEST_GUARD_SIZE};
use crate::creator::{
    heap_holds, pages_of, zeroed, HeapMemoryCreator, LinearMemory, MemoryCreator,
};
use crate::error::Error;
use crate::global::{global_new_error, Global};
use crate::memory::{can_lay_out, reserved_size, Memory};
use crate::runtime::{planned, MemoryStyle, TableElement, Tunables};
use crate::store::{StoreId, StoreView};
use crate::table::{table_init, Table};
use crate::types::{GlobalType, MemoryType, Mutability, TableType, ValType};
use crate::values::Val;
use vstd::prelude::*;

verus! {

/// A global can be made with every value of its type that can be used with the
/// store, and with no other.
pub proof fn law_global_new_outcome(id: StoreId, ty: GlobalType, val: Val)
    ensures
        global_new_error(id, ty, val) is None <==> val.spec_ty() == ty.content && val.belongs_to(
            id,
        ),
        global_new_error(id, ty, val) == Some(Error::CrossStoreGlobal) <==> !val.belongs_to(id),
        global_new_error(id, ty, val) == Some(Error::GlobalType) <==> val.belongs_to(id)
            && val.spec_ty() != ty.content,
{
}

/// The type of a global is made of the type and the flag that it is declared
/// with.
pub proof fn law_global_type(global: Global)
    ensures
        global.spec_ty().content == global.wasmtime_export.global.wasm_ty,
        global.wasmtime_export.global.mutability ==> global.spec_ty().mutability
            == Mutability::Var,
        !global.wasmtime_export.global.mutability ==> global.spec_ty().mutability
            == Mutability::Const,
{
}

/// A global can be set to every value of its type that can be used with its
/// store, where it is declared mutable, and to no other.
pub proof fn law_global_set_outcome(global: Global, val: Val)
    ensures
        ({
            let mutable = global.wasmtime_export.global.mutability;
            let ty = global.wasmtime_export.global.wasm_ty;
            let known = val.belongs_to(global.instance);
            &&& global.set_error(val) is None <==> mutable && val.spec_ty() == ty && known
            &&& global.set_error(val) == Some(Error::ImmutableGlobal) <==> !mutable
            &&& global.set_error(val) == Some(
                Error::GlobalSetType { global: ty, val: val.spec_ty() },
            ) <==> mutable && val.spec_ty() != ty
            &&& global.set_error(val) == Some(Error::CrossStoreValue) <==> mutable
                && val.spec_ty() == ty && !known
        }),
{
}

/// A table can be made of the references to functions or to host data, with every
/// value of the type of its elements that can be used with the store, and with no
/// other.
pub proof fn law_table_new_outcome(id: StoreId, ty: TableType, init: Val)
    ensures
        table_init(id, ty, init) is Ok <==> (ty.element == ValType::FuncRef || ty.element
            == ValType::ExternRef) && init.spec_ty() == ty.element && init.belongs_to(id),
        ty.element == ValType::FuncRef ==> {
            &&& table_init(id, ty, init) == Err::<TableElement, Error>(Error::CrossStoreValue)
                <==> !init.belongs_to(id)
            &&& table_init(id, ty, init) == Err::<TableElement, Error>(Error::NotFuncRef)
                <==> init.spec_ty() != ValType::FuncRef
        },
        ty.element == ValType::ExternRef ==> (table_init(id, ty, init) == Err::<TableElement, Error>(
            Error::TableInitType,
        ) <==> init.spec_ty() != ValType::ExternRef),
        ty.element != ValType::FuncRef && ty.element != ValType::ExternRef ==> table_init(
            id,
            ty,
            init,
        ) == Err::<TableElement, Error>(Error::UnsupportedTableElement(ty.element)),
        table_init(id, ty, init) matches Ok(element) ==> Val::from_element(element, id) == init,
{
}

/// A value can be stored in a table at every index that the table has, where it
/// is of the type of its elements and can be used with its store, and nowhere
/// else.
pub proof fn law_table_set_outcome<C: MemoryCreator>(
    store: StoreView<C>,
    table: Table,
    index: u32,
    val: Val,
)
    requires
        store.wf(),
        table.valid(store),
    ensures
        ({
            let size = store.tables[table.wasmtime_export.definition as int].elements.len();
            let ty = table.wasmtime_export.table.table.element;
            let reference = val.spec_ty() == ValType::FuncRef || val.spec_ty()
                == ValType::ExternRef;
            let known = val.belongs_to(store.id);
            let error = table.set_error(store, index, val);
            &&& error is None <==> known && val.spec_ty() == ty && index < size
            &&& error == Some(Error::CrossStoreTableSet) <==> !known
            &&& error == Some(Error::TableElementType) <==> known && !reference
            &&& error == Some(Error::TableIndex) <==> known && reference && (index >= size
                || val.spec_ty() != ty)
        }),
{
    assert(table.view_in(store).wf(store.functions));
}

/// A table can be grown with every value of the type of its elements that can be
/// used with its store, and with no other.
pub proof fn law_table_grow_value_outcome<C: MemoryCreator>(
    store: StoreView<C>,
    table: Table,
    init: Val,
)
    requires
        store.wf(),
        table.valid(store),
    ensures
        ({
            let ty = table.wasmtime_export.table.table.element;
            let known = init.belongs_to(store.id);
            &&& table.grow_init(init) is Ok <==> init.spec_ty() == ty && known
            &&& table.grow_init(init) matches Ok(element) ==> Val::from_element(element, store.id)
                == init
            &&& table.grow_init(init) == Err::<TableElement, Error>(Error::CrossStoreValue) <==> ty
                == ValType::FuncRef && !known
            &&& table.grow_init(init) == Err::<TableElement, Error>(Error::NotFuncRef) <==> ty
                == ValType::FuncRef && init.spec_ty() != ty
            &&& table.grow_init(init) == Err::<TableElement, Error>(Error::TableGrowInit) <==> ty
                == ValType::ExternRef && init.spec_ty() != ty
        }),
{
    assert(table.view_in(store).wf(store.functions));
}

/// A table has room for more elements exactly where their number then exceeds
/// neither its maximum, where it has one, nor the greatest `u32`.
pub proof fn law_table_grow_room_outcome<C: MemoryCreator>(
    store: StoreView<C>,
    table: Table,
    delta: u32,
)
    requires
        table.valid(store),
    ensures
        ({
            let size = store.tables[table.wasmtime_export.definition as int].elements.len();
            let max = table.wasmtime_export.table.table.limits.max;
            table.view_in(store).can_grow(delta) <==> size + delta <= 0xffff_ffff && (max is Some
                ==> size + delta <= max->0)
        }),
{
}

/// Elements can be copied between two tables of a store exactly where both ranges
/// lie within their tables. A range may be a whole table, and may be empty.
pub proof fn law_table_copy_outcome<C: MemoryCreator>(
    store: StoreView<C>,
    dst_table: Table,
    dst_index: u32,
    src_table: Table,
    src_index: u32,
    len: u32,
)
    requires
        dst_table.valid(store),
    ensures
        ({
            let dst_size = store.tables[dst_table.wasmtime_export.definition as int].elements.len();
            let src_size = store.tables[src_table.wasmtime_export.definition as int].elements.len();
            let within = src_index + len <= src_size && dst_index + len <= dst_size;
            let error = dst_table.copy_error(store, dst_index, src_table, src_index, len);
            &&& src_table.instance != store.id ==> error == Some(Error::CrossStoreTableCopy)
            &&& src_table.valid(store) ==> {
                &&& error is None <==> within
                &&& error == Some(Error::TableOutOfBounds) <==> !within
            }
        }),
{
}

/// A table can be filled exactly where the range lies within it and the value is
/// of the type of its elements and can be used with its store. The range may be
/// the whole table, and may be empty.
pub proof fn law_table_fill_outcome<C: MemoryCreator>(
    store: StoreView<C>,
    table: Table,
    dst: u32,
    val: Val,
    len: u32,
)
    requires
        store.wf(),
        table.valid(store),
    ensures
        ({
            let size = store.tables[table.wasmtime_export.definition as int].elements.len();
            let ty = table.wasmtime_export.table.table.element;
            let reference = val.spec_ty() == ValType::FuncRef || val.spec_ty()
                == ValType::ExternRef;
            let known = val.belongs_to(store.id);
            let within = dst + len <= size;
            let error = table.fill_error(store, dst, val, len);
            &&& error is None <==> known && val.spec_ty() == ty && within
            &&& error == Some(Error::CrossStoreTableFill) <==> !known
            &&& error == Some(Error::TableOutOfBounds) <==> known && reference && !within
            &&& error == Some(Error::TableElementType) <==> known && (!reference || (within
                && val.spec_ty() != ty))
        }),
{
    assert(table.view_in(store).wf(store.functions));
}

/// A memory can be laid out unless its minimum exceeds what is set aside for a
/// memory while its maximum, taken as 65536 pages where it has none, does not.
pub proof fn law_memory_layout_outcome(ty: MemoryType, tunables: Tunables)
    ensures
        ({
            let bound = tunables.static_memory_bound;
            let most: int = if ty.limits.max is Some {
                ty.limits.max->0 as int
            } else {
                65536
            };
            can_lay_out(ty, tunables) <==> bound < most || ty.limits.min <= bound
        }),
{
}

/// A memory is static exactly where all that it may grow to fits in what is set
/// aside for a memory. Then so many pages are reserved for it, and otherwise none
/// are. Its guard is that of its style, and its type the one that was asked for.
pub proof fn law_memory_plan(ty: MemoryType, tunables: Tunables)
    ensures
        ({
            let bound = tunables.static_memory_bound;
            let most: int = if ty.limits.max is Some {
                ty.limits.max->0 as int
            } else {
                65536
            };
            let plan = planned(ty, tunables);
            &&& plan.memory == ty
            &&& most <= bound ==> {
                &&& plan.style == MemoryStyle::Static { bound }
                &&& plan.offset_guard_size == tunables.static_memory_offset_guard_size
                &&& reserved_size(plan) is Some
                &&& reserved_size(plan)->0 == bound * 65536
            }
            &&& bound < most ==> {
                &&& plan.style == MemoryStyle::Dynamic
                &&& plan.offset_guard_size == tunables.dynamic_memory_offset_guard_size
                &&& reserved_size(plan) is None
            }
        }),
{
}

/// A memory on the heap is made exactly where its minimum and its maximum, where
/// it has one, are at most 65536 pages, and the bytes of its minimum are at most
/// `isize::MAX`.
pub proof fn law_heap_memory_new_outcome(
    creator: HeapMemoryCreator,
    ty: MemoryType,
    reserved_size_in_bytes: Option<u64>,
    guard_size_in_bytes: u64,
)
    ensures
        creator.may_refuse(ty, reserved_size_in_bytes, guard_size_in_bytes) <==> !(ty.limits.min
            <= 65536 && (ty.limits.max is Some ==> ty.limits.max->0 <= 65536) && ty.limits.min
            * 65536 <= isize::MAX),
        heap_holds(ty) <==> !creator.may_refuse(ty, reserved_size_in_bytes, guard_size_in_bytes),
{
}

/// A memory on the heap grows exactly where nothing is added to it, or where its
/// pages are then at most its maximum, where it has one, fewer than 65536, and
/// their bytes at most `isize::MAX`.
pub proof fn law_heap_memory_grow_outcome(
    store: StoreView<HeapMemoryCreator>,
    memory: Memory,
    delta: u32,
)
    requires
        memory.valid(store),
    ensures
        ({
            let pages = memory.bytes(store).len() as int / 65536 + delta;
            let max = memory.wasmtime_export.memory.memory.limits.max;
            let fits = delta == 0 || ((max is Some ==> pages <= max->0) && pages < 65536 && pages
                * 65536 <= isize::MAX);
            &&& fits ==> memory.view_in(store).may_grant(delta)
            &&& fits ==> !memory.view_in(store).may_refuse(delta)
            &&& !fits ==> !memory.view_in(store).may_grant(delta)
            &&& !fits ==> memory.view_in(store).may_refuse(delta)
        }),
{
}

/// A page has 65536 bytes: so many bytes make up the pages of fresh memory, and
/// the pages of a number of bytes are those that it fills.
pub proof fn law_page_size(pages: nat, bytes: nat)
    ensures
        zeroed(pages).len() == pages * 65536,
        pages_of(bytes) * 65536 <= bytes < (pages_of(bytes) + 1) * 65536,
{
}

/// A guard size is rounded up to the next whole number of pages, where a `u64`
/// can hold that, and is otherwise the greatest that it can hold.
pub proof fn law_guard_rounding(size: u64)
    ensures
        rounded_up(size) % 65536 == 0,
        size <= 0xffff_ffff_ffff_0000 ==> size <= rounded_up(size) < size + 65536,
        size > 0xffff_ffff_ffff_0000 ==> rounded_up(size) == 0xffff_ffff_ffff_0000,
{
    assert(0xffff_ffff_ffff_0000u64 % 0x1_0000u64 == 0);
    assert(LARGEST_GUARD_SIZE == 0xffff_ffff_ffff_0000);
}

} // verus!
