//! What holds of the items of a store across operations.
//!
//! The operations say what they do to a store by the functions of `StoreView`
//! that give a store with one item added or changed. The laws are stated over
//! those.
use crate::creator::{
    creation_promise, growth_fits, pages_of, zeroed, HeapMemoryCreator, LinearMemory, MemoryCreator,
};
use crate::error::{decimal, digit, Error};
use crate::externs::Extern;
use crate::func::Func;
use crate::global::{global_new_error, Global};
use crate::memory::{can_lay_out, reserved_size, Memory};
use crate::runtime;
use crate::runtime::{copied, filled, planned, GlobalDefinition, TableElement, Tunables};
use crate::store::{StoredGlobal, StoreId, StoreView, TableView};
use crate::table::{table_init, Table};
use crate::types::{ExternType, GlobalType, MemoryType, TableType, ValType};
use crate::values::Val;
use vstd::prelude::*;
use vstd::std_specs::convert::FromSpec;

verus! {

/// A store extends itself, and what extends a store extends all that it extends.
pub proof fn law_extension_is_an_order<C: MemoryCreator>(
    a: StoreView<C>,
    b: StoreView<C>,
    c: StoreView<C>,
)
    ensures
        a.extends(a),
        b.extends(a) && c.extends(b) ==> c.extends(a),
{
    if b.extends(a) && c.extends(b) {
        assert forall|i: int| 0 <= i < a.globals.len() implies (#[trigger] c.globals[i]).global
            == a.globals[i].global by {
            assert(b.globals[i].global == a.globals[i].global);
        }
        assert forall|i: int| 0 <= i < a.tables.len() implies (#[trigger] c.tables[i]).ty
            == a.tables[i].ty by {
            assert(b.tables[i].ty == a.tables[i].ty);
        }
        assert forall|i: int| 0 <= i < a.memories.len() implies (#[trigger] c.memories[i]).ty()
            == a.memories[i].ty() by {
            assert(b.memories[i].ty() == a.memories[i].ty());
        }
    }
}

/// Making a function known extends the store.
pub proof fn law_new_function_extends<C: MemoryCreator>(
    store: StoreView<C>,
    function: wasmtime_runtime::ExportFunction,
    ty: (Seq<ValType>, Seq<ValType>),
)
    ensures
        store.with_function(function, ty).extends(store),
{
}

/// Making a global, a table or a memory extends the store.
pub proof fn law_new_item_extends<C: MemoryCreator>(
    store: StoreView<C>,
    global: StoredGlobal,
    table: TableView,
    memory: C::Memory,
)
    ensures
        store.push_global(global).extends(store),
        store.push_table(table).extends(store),
        store.push_memory(memory).extends(store),
{
}

/// Setting a global extends the store.
pub proof fn law_global_change_extends<C: MemoryCreator>(
    store: StoreView<C>,
    global: Global,
    value: GlobalDefinition,
)
    requires
        global.valid(store),
    ensures
        store.with_value(global.wasmtime_export.definition as int, value).extends(store),
{
}

/// Setting an element of a table, and growing, filling and copying to a table,
/// extends the store.
pub proof fn law_table_change_extends<C: MemoryCreator>(
    store: StoreView<C>,
    table: Table,
    elements: Seq<TableElement>,
)
    requires
        table.valid(store),
    ensures
        table.replaced(store, elements).extends(store),
{
}

/// Growing a memory and writing to its bytes extends the store.
pub proof fn law_memory_change_extends<C: MemoryCreator>(
    before: StoreView<C>,
    after: StoreView<C>,
    memory: Memory,
    bytes: Seq<u8>,
)
    requires
        memory.valid(before),
        memory.replaced(before, after, bytes),
    ensures
        after.extends(before),
{
}

/// An item of a store stays one, and keeps its type, in every store that extends
/// it.
pub proof fn law_items_stay_valid<C: MemoryCreator>(
    earlier: StoreView<C>,
    later: StoreView<C>,
    item: Extern,
)
    requires
        later.extends(earlier),
        item.valid(earlier),
    ensures
        item.valid(later),
        forall|ty| item.has_type(earlier, ty) ==> item.has_type(later, ty),
{
}

/// Two globals of a store that are at the same place are equal: each is as good
/// as the other.
pub proof fn law_one_place_one_global<C: MemoryCreator>(store: StoreView<C>, a: Global, b: Global)
    requires
        a.valid(store),
        b.valid(store),
        a.wasmtime_export.definition == b.wasmtime_export.definition,
    ensures
        a == b,
{
}

/// Two tables of a store that are at the same place are equal: each is as good as
/// the other.
pub proof fn law_one_place_one_table<C: MemoryCreator>(store: StoreView<C>, a: Table, b: Table)
    requires
        a.valid(store),
        b.valid(store),
        a.wasmtime_export.definition == b.wasmtime_export.definition,
    ensures
        a == b,
{
}

/// Two memories of a store that are at the same place are equal: each is as good
/// as the other.
pub proof fn law_one_place_one_memory<C: MemoryCreator>(store: StoreView<C>, a: Memory, b: Memory)
    requires
        a.valid(store),
        b.valid(store),
        a.wasmtime_export.definition == b.wasmtime_export.definition,
    ensures
        a == b,
{
}

/// A global that was set to a value has that value, and no other global, no
/// table and no memory changes.
pub proof fn law_global_reads_back<C: MemoryCreator>(
    store: StoreView<C>,
    global: Global,
    val: Val,
    other: Global,
)
    requires
        global.valid(store),
        global.set_error(val) is None,
        other.valid(store),
    ensures
        ({
            let after = store.with_value(
                global.wasmtime_export.definition as int,
                val.definition(),
            );
            &&& global.value(after) == val
            &&& other != global ==> other.value(after) == other.value(store)
            &&& after.tables == store.tables
            &&& after.memories == store.memories
            &&& after.globals.len() == store.globals.len()
            &&& after == (StoreView { globals: after.globals, ..store })
            &&& global.valid(after) && other.valid(after)
        }),
{
}

/// A constant global keeps its value: whatever global of the store is set, it is
/// another one.
pub proof fn law_constant_global<C: MemoryCreator>(
    store: StoreView<C>,
    constant: Global,
    global: Global,
    val: Val,
)
    requires
        constant.valid(store),
        constant.spec_ty().mutability is Const,
        global.valid(store),
    ensures
        constant.set_error(val) == Some(Error::ImmutableGlobal),
        global.set_error(val) is None ==> constant.value(
            store.with_value(global.wasmtime_export.definition as int, val.definition()),
        ) == constant.value(store),
{
}

/// A table that was made with a value has as many elements as its minimum says,
/// and each is read as that value.
pub proof fn law_table_made<C: MemoryCreator>(store: StoreView<C>, ty: TableType, init: Val)
    requires
        table_init(store.id, ty, init) is Ok,
    ensures
        ({
            let element = table_init(store.id, ty, init)->Ok_0;
            let elements = Seq::new(ty.limits.min as nat, |i: int| element);
            let after = store.push_table(TableView { ty, elements });
            &&& after.tables.last().elements.len() == ty.limits.min
            &&& forall|i: int|
                0 <= i < ty.limits.min ==> Val::from_element(
                    #[trigger] after.tables.last().elements[i],
                    store.id,
                ) == init
            &&& forall|i: int|
                0 <= i < store.tables.len() ==> after.tables[i] == store.tables[i]
            &&& after.globals == store.globals
            &&& after.memories == store.memories
        }),
{
}

/// A reference that was stored in a table is read back from its index, and no
/// other element, no other table, no global and no memory changes.
pub proof fn law_table_reads_back<C: MemoryCreator>(
    store: StoreView<C>,
    table: Table,
    index: u32,
    val: Val,
    other: Table,
)
    requires
        table.valid(store),
        table.set_error(store, index, val) is None,
        other.valid(store),
    ensures
        ({
            let after = table.replaced(
                store,
                table.elements(store).update(index as int, val.element()->0),
            );
            &&& table.elements(after).len() == table.elements(store).len()
            &&& Val::from_element(table.elements(after)[index as int], table.instance) == val
            &&& forall|i: int|
                0 <= i < table.elements(store).len() && i != index ==> table.elements(after)[i]
                    == table.elements(store)[i]
            &&& other != table ==> other.elements(after) == other.elements(store)
            &&& after.globals == store.globals
            &&& after.memories == store.memories
            &&& after.tables.len() == store.tables.len()
            &&& after == (StoreView { tables: after.tables, ..store })
            &&& table.valid(after) && other.valid(after)
        }),
{
}

/// A table that has grown holds what it held, followed by so many times the value
/// that it was grown with, and no other table changes.
pub proof fn law_table_growth<C: MemoryCreator>(
    store: StoreView<C>,
    table: Table,
    delta: u32,
    init: Val,
    other: Table,
)
    requires
        table.valid(store),
        table.grow_init(init) is Ok,
        other.valid(store),
    ensures
        ({
            let element = table.grow_init(init)->Ok_0;
            let size = table.elements(store).len();
            let after = table.replaced(
                store,
                table.elements(store) + Seq::new(delta as nat, |i: int| element),
            );
            &&& table.elements(after).len() == size + delta
            &&& forall|i: int|
                0 <= i < size ==> table.elements(after)[i] == table.elements(store)[i]
            &&& forall|i: int|
                size <= i < size + delta ==> Val::from_element(
                    #[trigger] table.elements(after)[i],
                    table.instance,
                ) == init
            &&& other != table ==> other.elements(after) == other.elements(store)
            &&& after.tables.len() == store.tables.len()
            &&& after == (StoreView { tables: after.tables, ..store })
            &&& table.valid(after) && other.valid(after)
        }),
{
}

/// Growing a table in two steps is growing it in one.
pub proof fn law_table_growth_in_steps(table: TableView, element: TableElement, a: u32, b: u32)
    requires
        a + b <= u32::MAX,
    ensures
        ({
            let once = TableView {
                elements: table.elements + Seq::new(a as nat, |i: int| element),
                ..table
            };
            &&& table.can_grow((a + b) as u32) ==> table.can_grow(a) && once.can_grow(b)
            &&& once.can_grow(b) ==> table.can_grow((a + b) as u32)
            &&& once.elements + Seq::new(b as nat, |i: int| element) == table.elements + Seq::new(
                (a + b) as nat,
                |i: int| element,
            )
        }),
{
    let once = table.elements + Seq::new(a as nat, |i: int| element);
    assert(once + Seq::new(b as nat, |i: int| element) =~= table.elements + Seq::new(
        (a + b) as nat,
        |i: int| element,
    ));
}

/// After a copy the destination holds, in the range that was written, what the
/// source held before, even where both are ranges of one table, and elsewhere
/// what it held itself.
pub proof fn law_table_copy<C: MemoryCreator>(
    store: StoreView<C>,
    dst_table: Table,
    dst_index: u32,
    src_table: Table,
    src_index: u32,
    len: u32,
    other: Table,
)
    requires
        dst_table.valid(store),
        src_table.valid(store),
        other.valid(store),
        dst_table.copy_error(store, dst_index, src_table, src_index, len) is None,
    ensures
        ({
            let after = dst_table.replaced(
                store,
                copied(
                    dst_table.elements(store),
                    dst_index as int,
                    src_table.elements(store),
                    src_index as int,
                    len as int,
                ),
            );
            &&& dst_table.elements(after).len() == dst_table.elements(store).len()
            &&& forall|k: int|
                0 <= k < len ==> dst_table.elements(after)[dst_index + k] == src_table.elements(
                    store,
                )[#[trigger] (src_index + k)]
            &&& forall|i: int|
                0 <= i < dst_index || dst_index + len <= i < dst_table.elements(store).len()
                    ==> dst_table.elements(after)[i] == dst_table.elements(store)[i]
            &&& other != dst_table ==> other.elements(after) == other.elements(store)
            &&& dst_table == src_table && dst_index == src_index ==> dst_table.elements(after)
                == dst_table.elements(store)
            &&& after.tables.len() == store.tables.len()
            &&& after == (StoreView { tables: after.tables, ..store })
            &&& dst_table.valid(after) && other.valid(after)
        }),
{
}

/// After a fill the table holds the value in the range that was written, and
/// elsewhere what it held, and no other table changes.
pub proof fn law_table_fill<C: MemoryCreator>(
    store: StoreView<C>,
    table: Table,
    dst: u32,
    val: Val,
    len: u32,
    other: Table,
)
    requires
        table.valid(store),
        other.valid(store),
        table.fill_error(store, dst, val, len) is None,
    ensures
        ({
            let after = table.replaced(
                store,
                filled(table.elements(store), dst as int, val.element()->0, len as int),
            );
            &&& table.elements(after).len() == table.elements(store).len()
            &&& forall|i: int|
                dst <= i < dst + len ==> Val::from_element(
                    #[trigger] table.elements(after)[i],
                    table.instance,
                ) == val
            &&& forall|i: int|
                0 <= i < dst || dst + len <= i < table.elements(store).len() ==> table.elements(
                    after,
                )[i] == table.elements(store)[i]
            &&& other != table ==> other.elements(after) == other.elements(store)
            &&& after.tables.len() == store.tables.len()
            &&& after == (StoreView { tables: after.tables, ..store })
            &&& table.valid(after) && other.valid(after)
        }),
{
}

/// The size of a table is never below its minimum, and above its maximum only
/// where the minimum itself is.
pub proof fn law_table_within_limits<C: MemoryCreator>(store: StoreView<C>, table: Table)
    requires
        store.wf(),
        table.valid(store),
    ensures
        table.spec_ty().limits.allow(table.elements(store).len()),
        ({
            let size = table.elements(store).len();
            let limits = table.wasmtime_export.table.table.limits;
            &&& limits.min <= size <= u32::MAX
            &&& limits.max matches Some(max) ==> limits.min <= max ==> size <= max
            &&& limits.max matches Some(max) ==> max < limits.min ==> size == limits.min
        }),
{
    assert(table.view_in(store).wf(store.functions));
}

/// A function of one store is refused by every operation that would store it in
/// an item of another.
pub proof fn law_foreign_function_refused<C: MemoryCreator>(
    store: StoreView<C>,
    func: Func,
    global_ty: GlobalType,
    global: Global,
    table_ty: TableType,
    table: Table,
    index: u32,
    len: u32,
)
    requires
        func.instance != store.id,
    ensures
        ({
            let val = Val::FuncRef(Some(func));
            &&& global_new_error(store.id, global_ty, val) is Some
            &&& global.valid(store) ==> global.set_error(val) is Some
            &&& table_init(store.id, table_ty, val) is Err
            &&& table.valid(store) ==> {
                &&& table.set_error(store, index, val) is Some
                &&& table.grow_init(val) is Err
                &&& table.fill_error(store, index, val, len) is Some
            }
        }),
{
}

/// A value is refused by every operation that would store it in an item of
/// another type.
pub proof fn law_wrong_type_refused<C: MemoryCreator>(
    store: StoreView<C>,
    val: Val,
    global_ty: GlobalType,
    global: Global,
    table_ty: TableType,
    table: Table,
    index: u32,
    len: u32,
)
    requires
        store.wf(),
    ensures
        val.spec_ty() != global_ty.content ==> global_new_error(store.id, global_ty, val) is Some,
        val.spec_ty() != global.spec_ty().content ==> global.set_error(val) is Some,
        val.spec_ty() != table_ty.element ==> table_init(store.id, table_ty, val) is Err,
        table.valid(store) && val.spec_ty() != table.spec_ty().element ==> {
            &&& table.set_error(store, index, val) is Some
            &&& table.grow_init(val) is Err
            &&& table.fill_error(store, index, val, len) is Some
        },
{
    if table.valid(store) {
        assert(table.view_in(store).wf(store.functions));
    }
}

/// Fresh memory fills the pages that it was asked for, and all of it is zero.
pub proof fn law_fresh_memory_is_zero(pages: nat)
    ensures
        pages_of(zeroed(pages).len()) == pages,
        forall|i: int| 0 <= i < zeroed(pages).len() ==> zeroed(pages)[i] == 0,
{
}

/// A memory that has grown holds the bytes that it held, followed by zeros, and
/// no other memory, no global and no table changes.
pub proof fn law_memory_growth<C: MemoryCreator>(
    before: StoreView<C>,
    after: StoreView<C>,
    memory: Memory,
    delta: u32,
    other: Memory,
)
    requires
        before.wf(),
        memory.valid(before),
        other.valid(before),
        memory.replaced(before, after, memory.bytes(before) + zeroed(delta as nat)),
    ensures
        pages_of(memory.bytes(after).len()) == pages_of(memory.bytes(before).len()) + delta,
        forall|i: int|
            0 <= i < memory.bytes(before).len() ==> memory.bytes(after)[i] == memory.bytes(
                before,
            )[i],
        forall|i: int|
            memory.bytes(before).len() <= i < memory.bytes(after).len() ==> memory.bytes(after)[i]
                == 0,
        other != memory ==> other.bytes(after) == other.bytes(before),
        after.globals == before.globals,
        after.tables == before.tables,
        memory.bytes(after).len() == memory.bytes(before).len() + delta * 65536,
{
    if other.wasmtime_export.definition == memory.wasmtime_export.definition {
        law_one_place_one_memory(before, memory, other);
    }
}

/// The bytes that a memory gains in two steps are those that it gains in one.
pub proof fn law_memory_growth_in_steps(bytes: Seq<u8>, a: nat, b: nat)
    ensures
        bytes + zeroed(a) + zeroed(b) == bytes + zeroed(a + b),
{
    assert(bytes + zeroed(a) + zeroed(b) =~= bytes + zeroed(a + b));
}

/// A memory on the heap grows exactly where its new size does not exceed its
/// maximum, stays below the greatest number of pages that can be indexed, and can
/// be allocated. Growth by nothing succeeds and changes nothing.
pub proof fn law_heap_memory_growth(
    store: StoreView<HeapMemoryCreator>,
    memory: Memory,
    delta: u32,
)
    requires
        memory.valid(store),
    ensures
        memory.view_in(store).may_grant(delta) == growth_fits(
            memory.spec_ty(),
            pages_of(memory.bytes(store).len()),
            delta,
        ),
        memory.view_in(store).may_refuse(delta) == !growth_fits(
            memory.spec_ty(),
            pages_of(memory.bytes(store).len()),
            delta,
        ),
        growth_fits(memory.spec_ty(), pages_of(memory.bytes(store).len()), 0),
        memory.bytes(store) + zeroed(0) == memory.bytes(store),
{
    assert(memory.bytes(store) + zeroed(0) =~= memory.bytes(store));
}

/// The size of a memory, whoever made it, is a whole number of pages. It is never
/// below the minimum of the memory, and above the maximum only where the minimum
/// itself is.
pub proof fn law_memory_within_limits<C: MemoryCreator>(store: StoreView<C>, memory: Memory)
    requires
        store.wf(),
        memory.valid(store),
    ensures
        ({
            let size = memory.bytes(store).len();
            let limits = memory.spec_ty().limits;
            &&& size % (runtime::WASM_PAGE_SIZE as nat) == 0
            &&& limits.min * runtime::WASM_PAGE_SIZE <= size
            &&& limits.max matches Some(max) ==> limits.min <= max ==> size <= max
                * runtime::WASM_PAGE_SIZE
            &&& limits.max matches Some(max) ==> max < limits.min ==> size == limits.min
                * runtime::WASM_PAGE_SIZE
        }),
{
    assert(memory.view_in(store).wf());
}

/// The size of a memory on the heap is never beyond what can be indexed.
pub proof fn law_heap_memory_can_be_indexed(store: StoreView<HeapMemoryCreator>, memory: Memory)
    requires
        store.wf(),
        memory.valid(store),
    ensures
        pages_of(memory.bytes(store).len()) <= runtime::WASM_MAX_PAGES,
{
    memory.view_in(store).lemma_can_be_indexed();
}

/// A store asks for a memory with sizes that are whole numbers of pages, and
/// where it expects a reservation, all that the memory may grow to fits within
/// it.
pub proof fn law_reservation_holds_maximum(ty: MemoryType, tunables: Tunables)
    requires
        tunables.wf(),
        can_lay_out(ty, tunables),
    ensures
        creation_promise(
            ty,
            reserved_size(planned(ty, tunables)),
            planned(ty, tunables).offset_guard_size,
        ),
        planned(ty, tunables).offset_guard_size % 65536 == 0,
        reserved_size(planned(ty, tunables)) matches Some(reserved) ==> {
            &&& reserved % 65536 == 0
            &&& ty.limits.min * 65536 <= reserved
            &&& ty.limits.max matches Some(max) ==> max * 65536 <= reserved
            &&& ty.limits.max is None ==> 65536 * 65536 <= reserved
        },
{
}

/// A memory whose bytes were written has those bytes, and nothing else in the
/// store changes.
pub proof fn law_memory_reads_back<C: MemoryCreator>(
    before: StoreView<C>,
    after: StoreView<C>,
    memory: Memory,
    bytes: Seq<u8>,
    other: Memory,
)
    requires
        memory.valid(before),
        other.valid(before),
        memory.replaced(before, after, bytes),
    ensures
        memory.bytes(after) == bytes,
        other != memory ==> other.bytes(after) == other.bytes(before),
        after.memories.len() == before.memories.len(),
        after == (StoreView { memories: after.memories, ..before }),
        memory.valid(after),
        other.valid(after),
{
    if other.wasmtime_export.definition == memory.wasmtime_export.definition {
        law_one_place_one_memory(before, memory, other);
    }
}

/// A global that was made has the value that it was made with. All that was in
/// the store is as it was.
pub proof fn law_new_global<C: MemoryCreator>(
    store: StoreView<C>,
    global: Global,
    val: Val,
    other: Global,
)
    requires
        global.instance == store.id,
        global.wasmtime_export.definition == store.globals.len(),
        val.belongs_to(store.id),
    ensures
        ({
            let after = store.push_global(
                StoredGlobal {
                    global: global.wasmtime_export.global,
                    value: val.definition(),
                },
            );
            &&& global.valid(after)
            &&& global.value(after) == val
            &&& other.valid(store) ==> other.valid(after) && other.value(after) == other.value(
                store,
            )
            &&& after.globals.len() == store.globals.len() + 1
            &&& after == (StoreView { globals: after.globals, ..store })
        }),
{
}

/// A table that was made has as many elements as its minimum says, and each is
/// read as the value that it was made with. All that was in the store is as it
/// was.
pub proof fn law_new_table<C: MemoryCreator>(
    store: StoreView<C>,
    table: Table,
    init: Val,
    other: Table,
)
    requires
        table.instance == store.id,
        table.wasmtime_export.definition == store.tables.len(),
        table_init(store.id, table.wasmtime_export.table.table, init) is Ok,
    ensures
        ({
            let ty = table.wasmtime_export.table.table;
            let element = table_init(store.id, ty, init)->Ok_0;
            let elements = Seq::new(ty.limits.min as nat, |i: int| element);
            let after = store.push_table(TableView { ty, elements });
            &&& table.valid(after)
            &&& table.spec_ty() == ty
            &&& table.elements(after).len() == ty.limits.min
            &&& forall|i: int|
                0 <= i < ty.limits.min ==> Val::from_element(
                    #[trigger] table.elements(after)[i],
                    table.instance,
                ) == init
            &&& other.valid(store) ==> other.valid(after) && other.elements(after)
                == other.elements(store)
            &&& after.tables.len() == store.tables.len() + 1
            &&& after == (StoreView { tables: after.tables, ..store })
        }),
{
}

/// A memory that was made is the last of the store. All that was in the store is
/// as it was.
pub proof fn law_new_memory<C: MemoryCreator>(
    store: StoreView<C>,
    memory: Memory,
    made: C::Memory,
    other: Memory,
)
    requires
        memory.wasmtime_export.definition == store.memories.len(),
    ensures
        ({
            let after = store.push_memory(made);
            &&& memory.bytes(after) == made.bytes()
            &&& other.valid(store) ==> other.valid(after) && other.bytes(after) == other.bytes(
                store,
            )
            &&& after.memories.len() == store.memories.len() + 1
            &&& after == (StoreView { memories: after.memories, ..store })
        }),
{
}

/// A function that becomes known to a store has the type that it is given. One
/// that is known keeps its type, and so do all others.
pub proof fn law_new_function<C: MemoryCreator>(
    store: StoreView<C>,
    func: Func,
    ty: (Seq<ValType>, Seq<ValType>),
    other: Func,
)
    requires
        func.instance == store.id,
    ensures
        ({
            let after = store.with_function(func.export, ty);
            &&& func.valid(after)
            &&& !func.valid(store) ==> after.functions[func.export] == ty
            &&& func.valid(store) ==> after.functions[func.export] == store.functions[func.export]
            &&& other.export != func.export ==> {
                &&& other.valid(after) <==> other.valid(store)
                &&& other.valid(store) ==> after.functions[other.export]
                    == store.functions[other.export]
            }
            &&& after == (StoreView { functions: after.functions, ..store })
        }),
{
}

/// A function is one of a store exactly where it says so and the store knows it.
pub proof fn law_functions_of_stores<C: MemoryCreator>(store: StoreView<C>, func: Func)
    ensures
        func.valid(store) <==> func.instance == store.id && store.functions.dom().contains(
            func.export,
        ),
{
}

/// A value has the type that its variant names.
pub proof fn law_value_types(val: Val)
    ensures
        val.spec_ty() == ValType::I32 <==> val is I32,
        val.spec_ty() == ValType::I64 <==> val is I64,
        val.spec_ty() == ValType::F32 <==> val is F32,
        val.spec_ty() == ValType::F64 <==> val is F64,
        val.spec_ty() == ValType::V128 <==> val is V128,
        val.spec_ty() == ValType::ExternRef <==> val is ExternRef,
        val.spec_ty() == ValType::FuncRef <==> val is FuncRef,
{
}

/// A function can be used with its own store alone, and is one that the store
/// knows. Every other value can be used with every store.
pub proof fn law_values_of_stores<C: MemoryCreator>(store: StoreView<C>, val: Val, id: StoreId)
    ensures
        !(val is FuncRef) || val == Val::FuncRef(None) ==> val.belongs_to(id) && val.valid(store),
        val matches Val::FuncRef(Some(func)) ==> {
            &&& val.belongs_to(id) <==> func.instance == id
            &&& val.valid(store) <==> func.instance != store.id || store.functions.dom().contains(
                func.export,
            )
        },
{
}

/// A value that can be used with a store is read from a global as it was stored,
/// and what a global holds has the type of the value.
pub proof fn law_values_in_globals(val: Val, id: StoreId, definition: GlobalDefinition)
    ensures
        val.belongs_to(id) ==> Val::from_definition(val.definition(), id) == val,
        Val::from_definition(definition, id).definition() == definition,
        Val::from_definition(definition, id).belongs_to(id),
        val.definition().ty() == val.spec_ty(),
{
}

/// A reference that can be used with a store is read from a table as it was
/// stored. No other value can be stored in a table.
pub proof fn law_values_in_tables(val: Val, id: StoreId, element: TableElement)
    ensures
        val.element() is Some <==> val is FuncRef || val is ExternRef,
        val.belongs_to(id) && val.element() is Some ==> Val::from_element(val.element()->0, id)
            == val,
        Val::from_element(element, id).element() == Some(element),
        Val::from_element(element, id).belongs_to(id),
{
}

/// A reference is read as the same value from a global and from a table that store
/// it.
pub proof fn law_globals_and_tables_agree(val: Val, id: StoreId)
    requires
        val is FuncRef || val is ExternRef,
    ensures
        Val::from_definition(val.definition(), id) == Val::from_element(val.element()->0, id),
{
}

/// The type of an item is the one that its function is known with, or that its
/// global, table or memory is declared with.
pub proof fn law_item_types<C: MemoryCreator>(store: StoreView<C>, item: Extern, ty: ExternType)
    ensures
        item matches Extern::Func(func) ==> (item.has_type(store, ty) <==> ty is Func
            && ty->Func_0@ == store.functions[func.export]),
        item matches Extern::Global(global) ==> (item.has_type(store, ty) <==> {
            &&& ty is Global
            &&& ty->Global_0.content == global.wasmtime_export.global.wasm_ty
            &&& (ty->Global_0.mutability is Var) == global.wasmtime_export.global.mutability
        }),
        item matches Extern::Table(table) ==> (item.has_type(store, ty) <==> ty is Table
            && ty->Table_0 == table.wasmtime_export.table.table),
        item matches Extern::Memory(memory) ==> (item.has_type(store, ty) <==> ty is Memory
            && ty->Memory_0 == memory.wasmtime_export.memory.memory),
{
}

/// An item is exported as what it is, belongs to the store that it says, and is
/// one of a store exactly where what it wraps is.
pub proof fn law_items_are_what_they_wrap<C: MemoryCreator>(store: StoreView<C>, item: Extern)
    ensures
        item matches Extern::Func(func) ==> {
            &&& item.spec_export() == runtime::Export::Function(func.export)
            &&& item.spec_store() == func.instance
            &&& item.valid(store) <==> func.valid(store)
            &&& item == <Extern as FromSpec<Func>>::from_spec(func)
        },
        item matches Extern::Global(global) ==> {
            &&& item.spec_export() == runtime::Export::Global(global.wasmtime_export)
            &&& item.spec_store() == global.instance
            &&& item.valid(store) <==> global.valid(store)
            &&& item == <Extern as FromSpec<Global>>::from_spec(global)
        },
        item matches Extern::Table(table) ==> {
            &&& item.spec_export() == runtime::Export::Table(table.wasmtime_export)
            &&& item.spec_store() == table.instance
            &&& item.valid(store) <==> table.valid(store)
            &&& item == <Extern as FromSpec<Table>>::from_spec(table)
        },
        item matches Extern::Memory(memory) ==> {
            &&& item.spec_export() == runtime::Export::Memory(memory.wasmtime_export)
            &&& item.spec_store() == memory.instance
            &&& item.valid(store) <==> memory.valid(store)
            &&& item == <Extern as FromSpec<Memory>>::from_spec(memory)
        },
{
}

/// A number is written with the digits of its quotient by ten before that of its
/// remainder, and each digit with its own character.
pub proof fn law_decimal(n: nat)
    ensures
        n < 10 ==> decimal(n).len() == 1 && decimal(n)[0] as int == 48 + n,
        n >= 10 ==> {
            &&& decimal(n).len() == decimal(n / 10).len() + 1
            &&& decimal(n).drop_last() == decimal(n / 10)
            &&& decimal(n).last() as int == 48 + n % 10
        },
{
    reveal_strlit("0");
    reveal_strlit("1");
    reveal_strlit("2");
    reveal_strlit("3");
    reveal_strlit("4");
    reveal_strlit("5");
    reveal_strlit("6");
    reveal_strlit("7");
    reveal_strlit("8");
    reveal_strlit("9");
    if n >= 10 {
        assert(digit((n % 10) as int).len() == 1);
        assert(decimal(n).drop_last() =~= decimal(n / 10));
    }
}

/// An error that is about a type, a number or the reason of someone else says
/// which.
pub proof fn law_messages_name_their_cause(global: ValType, val: ValType, delta: u32, why: String)
    ensures
        (Error::GlobalSetType { global, val }).spec_message() == "global of type "@
            + global.spec_name() + " cannot be set to "@ + val.spec_name(),
        Error::UnsupportedTableElement(val).spec_message() == "unsupported table element type: "@
            + val.spec_name(),
        Error::TableGrow(delta).spec_message() == "failed to grow table by `"@ + decimal(
            delta as nat,
        ) + "`"@,
        Error::MemoryCreation(why).spec_message() == "generated memory: "@ + why@,
        ValType::I32.spec_name() == "I32"@,
        ValType::I64.spec_name() == "I64"@,
        ValType::F32.spec_name() == "F32"@,
        ValType::F64.spec_name() == "F64"@,
        ValType::V128.spec_name() == "V128"@,
        ValType::ExternRef.spec_name() == "ExternRef"@,
        ValType::FuncRef.spec_name() == "FuncRef"@,
{
}

/// The item that is found again from how an item is exported, and from its store,
/// is that item, and an item found from an export is exported as that.
pub proof fn law_export_round_trip(item: Extern, export: runtime::Export, instance: StoreId)
    ensures
        Extern::spec_from_export(item.spec_export(), item.spec_store()) == item,
        Extern::spec_from_export(export, instance).spec_export() == export,
        Extern::spec_from_export(export, instance).spec_store() == instance,
{
}

} // verus!
