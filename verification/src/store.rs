//! The store: what all functions, globals, tables and memories live in.
use crate::config::Engine;
use crate::creator::{
    creation_promise, pages_of, whole_pages, zeroed, HeapMemoryCreator, LinearMemory, MemoryCreator,
};
use crate::runtime::{
    copied, filled, next_id, same_function, table_copy, table_elements, table_fill, table_get,
    table_kind, table_new, table_set, table_size, GlobalDeclaration, GlobalDefinition, TableElement,
    TableElementType, Tunables,
};
use crate::types::{FuncType, MemoryType, TableType, ValType};
use vstd::prelude::*;

verus! {

/// Which store an item belongs to.
#[derive(Clone, Copy, Debug, PartialEq, Eq, Structural)]
pub struct StoreId {
    pub number: usize,
}

impl StoreId {
    /// The number is one that a call of the runtime's counter can return.
    pub closed spec fn from_counter(self) -> bool {
        call_ensures(next_id, (), self.number)
    }
}

/// A function that a store knows, with its type.
struct Function {
    export: wasmtime_runtime::ExportFunction,
    ty: FuncType,
}

/// A `Store` is a collection of WebAssembly instances and host-defined items.
/// The items themselves live here; a `Global`, a `Table` or a `Memory` says which
/// one of which store it is, so that all copies of it are the same item.
pub struct Store<C: MemoryCreator> {
    id: StoreId,
    tunables: Tunables,
    creator: C,
    functions: Vec<Function>,
    globals: Vec<StoredGlobal>,
    tables: Vec<wasmtime_runtime::Table>,
    table_types: Vec<TableType>,
    memories: Vec<C::Memory>,
}

/// A global of a store.
pub struct StoredGlobal {
    /// How the global is declared.
    pub global: GlobalDeclaration,
    /// What the global holds.
    pub value: GlobalDefinition,
}

impl StoredGlobal {
    /// The global holds a value of its type, and the function it refers to, if
    /// any, is known.
    pub open spec fn wf(
        self,
        functions: Map<wasmtime_runtime::ExportFunction, (Seq<ValType>, Seq<ValType>)>,
    ) -> bool {
        &&& self.value.ty() == self.global.wasm_ty
        &&& self.value matches GlobalDefinition::FuncRef(Some(function))
            ==> functions.dom().contains(function)
    }
}

/// The kind of runtime table that holds values of the type `element`.
pub open spec fn kind_of(element: ValType) -> TableElementType {
    if element is FuncRef {
        TableElementType::Func
    } else {
        TableElementType::Val
    }
}

/// A table of a store.
#[verifier::ext_equal]
pub struct TableView {
    /// The type that the table was made with.
    pub ty: TableType,
    /// What the table holds.
    pub elements: Seq<TableElement>,
}

impl TableView {
    /// The table holds references, all of its kind, to functions that are known,
    /// and has a size that its limits allow.
    pub open spec fn wf(
        self,
        functions: Map<wasmtime_runtime::ExportFunction, (Seq<ValType>, Seq<ValType>)>,
    ) -> bool {
        &&& self.ty.element.is_ref()
        &&& self.ty.limits.allow(self.elements.len())
        &&& forall|i: int|
            0 <= i < self.elements.len() ==> element_fits(
                #[trigger] self.elements[i],
                kind_of(self.ty.element),
                functions,
            )
    }

    /// The table can have `delta` more elements: neither its maximum, where it
    /// has one, nor what can be indexed is exceeded.
    pub open spec fn can_grow(self, delta: u32) -> bool {
        &&& self.elements.len() + delta <= u32::MAX
        &&& self.ty.limits.max matches Some(max) ==> self.elements.len() + delta <= max
    }
}

/// An element can be stored in a table of the given kind: it is of that kind,
/// and the function it refers to, if any, is known.
pub open spec fn element_fits(
    element: TableElement,
    kind: TableElementType,
    functions: Map<wasmtime_runtime::ExportFunction, (Seq<ValType>, Seq<ValType>)>,
) -> bool {
    &&& element.kind() == kind
    &&& element matches TableElement::FuncRef(Some(function)) ==> functions.dom().contains(function)
}

/// What a store holds.
#[verifier::ext_equal]
#[verifier::reject_recursive_types(C)]
pub struct StoreView<C: MemoryCreator> {
    /// Which store it is.
    pub id: StoreId,
    /// How its memories are laid out.
    pub tunables: Tunables,
    /// Who makes its memories.
    pub creator: C,
    /// The parameters and results of each function that is known.
    pub functions: Map<wasmtime_runtime::ExportFunction, (Seq<ValType>, Seq<ValType>)>,
    /// The globals.
    pub globals: Seq<StoredGlobal>,
    /// The tables.
    pub tables: Seq<TableView>,
    /// The memories.
    pub memories: Seq<C::Memory>,
}

impl<C: MemoryCreator> StoreView<C> {
    /// The store is in order: what it is made with and every operation keeps.
    pub open spec fn wf(self) -> bool {
        &&& self.tunables.wf()
        &&& forall|i: int|
            0 <= i < self.globals.len() ==> (#[trigger] self.globals[i]).wf(self.functions)
        &&& forall|i: int| 0 <= i < self.tables.len() ==> (#[trigger] self.tables[i]).wf(
            self.functions,
        )
        &&& forall|i: int|
            0 <= i < self.memories.len() ==> {
                &&& (#[trigger] self.memories[i]).wf()
                &&& whole_pages(self.memories[i].bytes().len())
                &&& self.memories[i].ty().limits.allow(pages_of(self.memories[i].bytes().len()))
            }
    }

    /// Everything that lives in `earlier` lives here too, under its place and
    /// with its type.
    pub open spec fn extends(self, earlier: StoreView<C>) -> bool {
        &&& self.id == earlier.id
        &&& self.tunables == earlier.tunables
        &&& self.creator == earlier.creator
        &&& forall|function: wasmtime_runtime::ExportFunction| #[trigger]
            earlier.functions.dom().contains(function) ==> {
                &&& self.functions.dom().contains(function)
                &&& self.functions[function] == earlier.functions[function]
            }
        &&& earlier.globals.len() <= self.globals.len()
        &&& forall|i: int|
            0 <= i < earlier.globals.len() ==> (#[trigger] self.globals[i]).global
                == earlier.globals[i].global
        &&& earlier.tables.len() <= self.tables.len()
        &&& forall|i: int|
            0 <= i < earlier.tables.len() ==> (#[trigger] self.tables[i]).ty
                == earlier.tables[i].ty
        &&& earlier.memories.len() <= self.memories.len()
        &&& forall|i: int|
            0 <= i < earlier.memories.len() ==> (#[trigger] self.memories[i]).ty()
                == earlier.memories[i].ty()
    }

    /// This store with one more function known. The type of a function that is
    /// known already stays as it is.
    pub open spec fn with_function(
        self,
        function: wasmtime_runtime::ExportFunction,
        ty: (Seq<ValType>, Seq<ValType>),
    ) -> StoreView<C> {
        if self.functions.dom().contains(function) {
            self
        } else {
            StoreView { functions: self.functions.insert(function, ty), ..self }
        }
    }

    /// This store with one more global, which comes last.
    pub open spec fn push_global(self, global: StoredGlobal) -> StoreView<C> {
        StoreView { globals: self.globals.push(global), ..self }
    }

    /// This store with another value in one global.
    pub open spec fn with_value(self, index: int, value: GlobalDefinition) -> StoreView<C> {
        StoreView {
            globals: self.globals.update(index, StoredGlobal { value, ..self.globals[index] }),
            ..self
        }
    }

    /// This store with one more table, which comes last.
    pub open spec fn push_table(self, table: TableView) -> StoreView<C> {
        StoreView { tables: self.tables.push(table), ..self }
    }

    /// This store with other elements in one table.
    pub open spec fn with_elements(self, index: int, elements: Seq<TableElement>) -> StoreView<C> {
        StoreView {
            tables: self.tables.update(index, TableView { elements, ..self.tables[index] }),
            ..self
        }
    }

    /// This store with one more memory, which comes last.
    pub open spec fn push_memory(self, memory: C::Memory) -> StoreView<C> {
        StoreView { memories: self.memories.push(memory), ..self }
    }

    /// This store with one memory in another state.
    pub open spec fn with_memory(self, index: int, memory: C::Memory) -> StoreView<C> {
        StoreView { memories: self.memories.update(index, memory), ..self }
    }
}

/// The type of each function in a list. A later entry goes before an earlier one.
spec fn signatures(functions: Seq<Function>) -> Map<
    wasmtime_runtime::ExportFunction,
    (Seq<ValType>, Seq<ValType>),
>
    decreases functions.len(),
{
    if functions.len() == 0 {
        Map::empty()
    } else {
        signatures(functions.drop_last()).insert(functions.last().export, functions.last().ty@)
    }
}

impl<C: MemoryCreator> View for Store<C> {
    type V = StoreView<C>;

    closed spec fn view(&self) -> StoreView<C> {
        StoreView {
            id: self.id,
            tunables: self.tunables,
            creator: self.creator,
            functions: signatures(self.functions@),
            globals: self.globals@,
            tables: Seq::new(
                self.tables@.len(),
                |i: int|
                    TableView {
                        ty: self.table_types@[i],
                        elements: table_elements(self.tables@[i]),
                    },
            ),
            memories: self.memories@,
        }
    }
}

impl<C: MemoryCreator> Store<C> {
    /// What the store holds is in order, and each table is of the kind that its
    /// type asks for.
    pub closed spec fn wf(&self) -> bool {
        &&& self@.wf()
        &&& self.table_types@.len() == self.tables@.len()
        &&& forall|i: int|
            0 <= i < self.tables@.len() ==> table_kind(#[trigger] self.tables@[i]) == kind_of(
                self.table_types@[i].element,
            )
    }

    /// What a store in order holds is in order.
    pub broadcast proof fn lemma_wf(&self)
        requires
            #[trigger] self.wf(),
        ensures
            self@.wf(),
    {
    }

    /// Creates a new store to be associated with the given `Engine`, which takes
    /// its memories from `creator`.
    ///
    /// The store gets its number from a counter of the runtime, so that no other
    /// store of the process has the same. That the counter gives no number twice
    /// is not proved.
    pub fn with_host_memory(engine: &Engine, creator: C) -> (store: Store<C>)
        requires
            engine.wf(),
        ensures
            store.wf(),
            store@.id.from_counter(),
            store@ == (StoreView {
                id: store@.id,
                tunables: engine.spec_tunables(),
                creator,
                functions: Map::empty(),
                globals: Seq::empty(),
                tables: Seq::empty(),
                memories: Seq::empty(),
            }),
    {
        Store {
            id: StoreId { number: next_id() },
            tunables: engine.tunables(),
            creator,
            functions: Vec::new(),
            globals: Vec::new(),
            tables: Vec::new(),
            table_types: Vec::new(),
            memories: Vec::new(),
        }
    }

    /// Returns whether the stores `a` and `b` refer to the same underlying
    /// store.
    pub fn same(a: &Store<C>, b: &Store<C>) -> (same: bool)
        ensures
            same == (a@.id == b@.id),
    {
        a.id == b.id
    }

    /// Returns which store this is.
    pub fn id(&self) -> (id: StoreId)
        ensures
            id == self@.id,
    {
        self.id
    }

    /// Makes a function known to the store.
    pub(crate) fn register_function(
        &mut self,
        function: wasmtime_runtime::ExportFunction,
        ty: FuncType,
    )
        requires
            old(self).wf(),
        ensures
            final(self).wf(),
            final(self)@ == old(self)@.with_function(function, ty@),
    {
        if self.function_type(&function).is_some() {
            return;
        }
        self.functions.push(Function { export: function, ty });
        assert(self.functions@.drop_last() == old(self).functions@);
        assert(self@ == old(self)@.with_function(function, ty@));
    }

    /// Returns the type of a function, or `None` where it is not known.
    pub(crate) fn function_type(&self, function: &wasmtime_runtime::ExportFunction) -> (ty: Option<
        FuncType,
    >)
        ensures
            ty is Some <==> self@.functions.dom().contains(*function),
            ty matches Some(ty) ==> ty@ == self@.functions[*function],
    {
        let mut i: usize = self.functions.len();
        assert(self.functions@.take(i as int) == self.functions@);
        while i > 0
            invariant
                i <= self.functions.len(),
                self@.functions == signatures(self.functions@),
                signatures(self.functions@.take(i as int)).dom().contains(*function)
                    == self@.functions.dom().contains(*function),
                self@.functions.dom().contains(*function) ==> signatures(
                    self.functions@.take(i as int),
                )[*function] == self@.functions[*function],
            decreases i,
        {
            assert(self.functions@.take(i as int).drop_last() == self.functions@.take(i - 1));
            i = i - 1;
            if same_function(&self.functions[i].export, function) {
                return Some(self.functions[i].ty.clone());
            }
        }
        None
    }

    /// Makes a global with the value that is given, and returns its place.
    pub(crate) fn new_global(&mut self, global: GlobalDeclaration, value: GlobalDefinition) -> (index:
        usize)
        requires
            old(self).wf(),
            (StoredGlobal { global, value }).wf(old(self)@.functions),
        ensures
            final(self).wf(),
            final(self)@ == old(self)@.push_global(StoredGlobal { global, value }),
            index == old(self)@.globals.len(),
    {
        let index = self.globals.len();
        self.globals.push(StoredGlobal { global, value });
        assert(self@ == old(self)@.push_global(StoredGlobal { global, value }));
        index
    }

    /// Returns the value of a global.
    pub(crate) fn global_get(&self, index: usize) -> (value: GlobalDefinition)
        requires
            index < self@.globals.len(),
        ensures
            value == self@.globals[index as int].value,
    {
        self.globals[index].value.clone()
    }

    /// Replaces the value of a global.
    pub(crate) fn global_set(&mut self, index: usize, value: GlobalDefinition)
        requires
            old(self).wf(),
            index < old(self)@.globals.len(),
            (StoredGlobal { value, ..old(self)@.globals[index as int] }).wf(old(self)@.functions),
        ensures
            final(self).wf(),
            final(self)@ == old(self)@.with_value(index as int, value),
    {
        let global = self.globals[index].global;
        self.globals.set(index, StoredGlobal { global, value });
        assert(self@ == old(self)@.with_value(index as int, value));
    }

    /// Makes a table of the type `ty` whose elements are all null, and returns
    /// its place.
    pub(crate) fn new_table(&mut self, ty: TableType) -> (index: usize)
        requires
            old(self).wf(),
            ty.element.is_ref(),
        ensures
            final(self).wf(),
            final(self)@ == old(self)@.push_table(
                TableView {
                    ty,
                    elements: Seq::new(
                        ty.limits.min as nat,
                        |i: int| TableElement::null(kind_of(ty.element)),
                    ),
                },
            ),
            index == old(self)@.tables.len(),
    {
        let kind = match ty.element {
            ValType::FuncRef => TableElementType::Func,
            _ => TableElementType::Val,
        };
        let index = self.tables.len();
        let table = table_new(kind, ty.limits.min, ty.limits.max);
        self.tables.push(table);
        self.table_types.push(ty);
        proof {
            let view = TableView {
                ty,
                elements: Seq::new(
                    ty.limits.min as nat,
                    |i: int| TableElement::null(kind_of(ty.element)),
                ),
            };
            assert(self@.tables =~= old(self)@.tables.push(view));
            assert(self@ == old(self)@.push_table(view));
            assert(view.wf(self@.functions));
        }
        index
    }

    /// Returns the number of elements of a table.
    pub(crate) fn table_size(&self, table: usize) -> (size: u32)
        requires
            table < self@.tables.len(),
        ensures
            size == self@.tables[table as int].elements.len(),
    {
        table_size(&self.tables[table])
    }

    /// Returns an element of a table, or `None` where there is none at `index`.
    pub(crate) fn table_get(&self, table: usize, index: u32) -> (element: Option<TableElement>)
        requires
            table < self@.tables.len(),
        ensures
            element == (if index < self@.tables[table as int].elements.len() {
                Some(self@.tables[table as int].elements[index as int])
            } else {
                None
            }),
    {
        table_get(&self.tables[table], index)
    }

    /// Stores an element in a table. It fails where there is none at `index` and
    /// where the table holds another kind of element.
    pub(crate) fn table_set(&mut self, table: usize, index: u32, element: TableElement) -> (result:
        Result<(), ()>)
        requires
            old(self).wf(),
            table < old(self)@.tables.len(),
            element_fits(element, element.kind(), old(self)@.functions),
        ensures
            final(self).wf(),
            result is Ok <==> {
                &&& index < old(self)@.tables[table as int].elements.len()
                &&& element.kind() == kind_of(old(self)@.tables[table as int].ty.element)
            },
            result is Ok ==> final(self)@ == old(self)@.with_elements(
                table as int,
                old(self)@.tables[table as int].elements.update(index as int, element),
            ),
            result is Err ==> final(self)@ == old(self)@,
    {
        let result = table_set(&mut self.tables[table], index, element);
        proof {
            let elements = if result is Ok {
                old(self)@.tables[table as int].elements.update(index as int, element)
            } else {
                old(self)@.tables[table as int].elements
            };
            self.lemma_elements_replaced(old(self), table as int, elements);
        }
        result
    }

    /// A store in which all is as in `before`, but for the elements of one table,
    /// which still fit.
    proof fn lemma_elements_replaced(
        &self,
        before: &Store<C>,
        table: int,
        elements: Seq<TableElement>,
    )
        requires
            before.wf(),
            0 <= table < before.tables@.len(),
            self.id == before.id,
            self.tunables == before.tunables,
            self.creator == before.creator,
            self.functions == before.functions,
            self.globals == before.globals,
            self.table_types == before.table_types,
            self.memories == before.memories,
            self.tables@.len() == before.tables@.len(),
            forall|i: int|
                0 <= i < self.tables@.len() && i != table ==> self.tables@[i] == before.tables@[i],
            table_kind(self.tables@[table]) == table_kind(before.tables@[table]),
            table_elements(self.tables@[table]) == elements,
            (TableView { elements, ..before@.tables[table] }).wf(before@.functions),
        ensures
            self.wf(),
            self@ == before@.with_elements(table, elements),
            elements == before@.tables[table].elements ==> self@ == before@,
    {
        assert(self@.tables =~= before@.with_elements(table, elements).tables);
        assert(self@ == before@.with_elements(table, elements));
        if elements == before@.tables[table].elements {
            assert(self@.tables =~= before@.tables);
        }
        assert forall|i: int| 0 <= i < self.tables@.len() implies table_kind(
            #[trigger] self.tables@[i],
        ) == kind_of(self.table_types@[i].element) by {
            assert(table_kind(before.tables@[i]) == kind_of(before.table_types@[i].element));
        }
        assert forall|i: int| 0 <= i < self@.tables.len() implies (#[trigger] self@.tables[i]).wf(
            self@.functions,
        ) by {
            assert(before@.tables[i].wf(before@.functions));
        }
    }

    /// Grows a table by `delta` elements, each of them `init`, and returns the
    /// size that it had. `None` where the table would exceed its maximum or what
    /// can be indexed, and where it holds another kind of element.
    pub(crate) fn defined_table_grow(
        &mut self,
        table: usize,
        delta: u32,
        init: TableElement,
    ) -> (size: Option<u32>)
        requires
            old(self).wf(),
            table < old(self)@.tables.len(),
            element_fits(init, init.kind(), old(self)@.functions),
        ensures
            final(self).wf(),
            size is Some <==> old(self)@.tables[table as int].can_grow(delta) && init.kind()
                == kind_of(old(self)@.tables[table as int].ty.element),
            size matches Some(size) ==> {
                &&& size == old(self)@.tables[table as int].elements.len()
                &&& final(self)@ == old(self)@.with_elements(
                    table as int,
                    old(self)@.tables[table as int].elements + Seq::new(
                        delta as nat,
                        |i: int| init,
                    ),
                )
            },
            size is None ==> final(self)@ == old(self)@,
    {
        let ty = self.table_types[table];
        let kind = match ty.element {
            ValType::FuncRef => TableElementType::Func,
            _ => TableElementType::Val,
        };
        assert(old(self)@.tables[table as int].wf(old(self)@.functions));
        assert(table_kind(self.tables@[table as int]) == kind);
        let size = table_size(&self.tables[table]);
        let new_len = match size.checked_add(delta) {
            Some(new_len) => new_len,
            None => return None,
        };
        if let Some(max) = ty.limits.max {
            if new_len > max {
                return None;
            }
        }
        if init.element_type() != kind {
            return None;
        }
        // The runtime's own way of growing a table leaves stale pointers behind
        // for its caller to mend, so the elements move to a table that is made
        // with the new size, and that table takes the place of the old one.
        let grown = self.tables.len();
        let fresh = table_new(kind, new_len, ty.limits.max);
        self.tables.push(fresh);
        let copy = table_copy(&mut self.tables, grown, 0, table, 0, size);
        let fill = table_fill(&mut self.tables[grown], size, init, delta);
        assert(copy is Ok && fill is Ok);
        let _ = self.tables.swap_remove(table);
        proof {
            let elements = old(self)@.tables[table as int].elements + Seq::new(
                delta as nat,
                |i: int| init,
            );
            assert(table_elements(self.tables@[table as int]) =~= elements);
            let view = TableView { elements, ..old(self)@.tables[table as int] };
            assert forall|i: int| 0 <= i < elements.len() implies element_fits(
                #[trigger] view.elements[i],
                kind,
                old(self)@.functions,
            ) by {
                if i < size {
                    let _ = old(self)@.tables[table as int].elements[i];
                }
            }
            self.lemma_elements_replaced(old(self), table as int, elements);
        }
        Some(size)
    }

    /// Stores `element` at the `len` indexes of a table from `dst` on. It traps
    /// where the table does not reach that far.
    pub(crate) fn defined_table_fill(
        &mut self,
        table: usize,
        dst: u32,
        element: TableElement,
        len: u32,
    ) -> (result: Result<(), wasmtime_runtime::Trap>)
        requires
            old(self).wf(),
            table < old(self)@.tables.len(),
            element_fits(element, element.kind(), old(self)@.functions),
            element.kind() == kind_of(old(self)@.tables[table as int].ty.element) || dst + len
                > old(self)@.tables[table as int].elements.len(),
        ensures
            final(self).wf(),
            result is Ok <==> dst + len <= old(self)@.tables[table as int].elements.len(),
            result is Ok ==> final(self)@ == old(self)@.with_elements(
                table as int,
                filled(
                    old(self)@.tables[table as int].elements,
                    dst as int,
                    element,
                    len as int,
                ),
            ),
            result is Err ==> final(self)@ == old(self)@,
    {
        assert(old(self)@.tables[table as int].wf(old(self)@.functions));
        assert(table_kind(self.tables@[table as int]) == kind_of(
            self.table_types@[table as int].element,
        ));
        let result = table_fill(&mut self.tables[table], dst, element, len);
        proof {
            let before = old(self)@.tables[table as int].elements;
            let elements = if result is Ok {
                filled(before, dst as int, element, len as int)
            } else {
                before
            };
            assert forall|i: int| 0 <= i < elements.len() implies element_fits(
                #[trigger] elements[i],
                kind_of(old(self)@.tables[table as int].ty.element),
                old(self)@.functions,
            ) by {
                let _ = before[i];
            }
            self.lemma_elements_replaced(old(self), table as int, elements);
        }
        result
    }

    /// Copies `len` elements of one table into another, or into itself. It traps
    /// where one of the two does not reach that far.
    pub(crate) fn table_copy(
        &mut self,
        dst_table: usize,
        dst_index: u32,
        src_table: usize,
        src_index: u32,
        len: u32,
    ) -> (result: Result<(), wasmtime_runtime::Trap>)
        requires
            old(self).wf(),
            dst_table < old(self)@.tables.len(),
            src_table < old(self)@.tables.len(),
            old(self)@.tables[dst_table as int].ty.element
                == old(self)@.tables[src_table as int].ty.element || len == 0 || src_index + len
                > old(self)@.tables[src_table as int].elements.len() || dst_index + len
                > old(self)@.tables[dst_table as int].elements.len(),
        ensures
            final(self).wf(),
            result is Ok <==> {
                &&& src_index + len <= old(self)@.tables[src_table as int].elements.len()
                &&& dst_index + len <= old(self)@.tables[dst_table as int].elements.len()
            },
            result is Ok ==> final(self)@ == old(self)@.with_elements(
                dst_table as int,
                copied(
                    old(self)@.tables[dst_table as int].elements,
                    dst_index as int,
                    old(self)@.tables[src_table as int].elements,
                    src_index as int,
                    len as int,
                ),
            ),
            result is Err ==> final(self)@ == old(self)@,
    {
        assert(old(self)@.tables[dst_table as int].wf(old(self)@.functions));
        assert(old(self)@.tables[src_table as int].wf(old(self)@.functions));
        assert(table_kind(self.tables@[dst_table as int]) == kind_of(
            self.table_types@[dst_table as int].element,
        ));
        assert(table_kind(self.tables@[src_table as int]) == kind_of(
            self.table_types@[src_table as int].element,
        ));
        let result = table_copy(
            &mut self.tables,
            dst_table,
            dst_index,
            src_table,
            src_index,
            len,
        );
        proof {
            let before = old(self)@.tables[dst_table as int].elements;
            let source = old(self)@.tables[src_table as int].elements;
            let elements = if result is Ok {
                copied(before, dst_index as int, source, src_index as int, len as int)
            } else {
                before
            };
            assert forall|i: int| 0 <= i < elements.len() implies element_fits(
                #[trigger] elements[i],
                kind_of(old(self)@.tables[dst_table as int].ty.element),
                old(self)@.functions,
            ) by {
                let _ = before[i];
                let _ = source[src_index + (i - dst_index)];
            }
            self.lemma_elements_replaced(old(self), dst_table as int, elements);
        }
        result
    }

    /// Returns how the memories of this store are laid out.
    pub(crate) fn tunables(&self) -> (tunables: Tunables)
        ensures
            tunables == self@.tunables,
    {
        self.tunables
    }

    /// Asks the creator for a memory, and returns its place, or why there is
    /// none.
    pub(crate) fn new_memory(
        &mut self,
        ty: MemoryType,
        reserved_size_in_bytes: Option<u64>,
        guard_size_in_bytes: u64,
    ) -> (index: Result<usize, String>)
        requires
            old(self).wf(),
            creation_promise(ty, reserved_size_in_bytes, guard_size_in_bytes),
        ensures
            final(self).wf(),
            index matches Ok(index) ==> {
                &&& index == old(self)@.memories.len()
                &&& final(self)@.memories.len() == index + 1
                &&& final(self)@ == old(self)@.push_memory(final(self)@.memories[index as int])
                &&& final(self)@.memories[index as int].ty() == ty
                &&& final(self)@.memories[index as int].bytes() == zeroed(ty.limits.min as nat)
                &&& old(self)@.creator.may_make(
                    ty,
                    reserved_size_in_bytes,
                    guard_size_in_bytes,
                    final(self)@.memories[index as int],
                )
            },
            index matches Err(why) ==> {
                &&& call_ensures(
                    C::new_memory,
                    (&old(self)@.creator, ty, reserved_size_in_bytes, guard_size_in_bytes),
                    Err::<C::Memory, String>(why),
                )
                &&& old(self)@.creator.may_refuse(ty, reserved_size_in_bytes, guard_size_in_bytes)
                &&& final(self)@ == old(self)@
            },
    {
        match self.creator.new_memory(ty, reserved_size_in_bytes, guard_size_in_bytes) {
            Ok(memory) => {
                let index = self.memories.len();
                self.memories.push(memory);
                assert(self@ == old(self)@.push_memory(memory));
                Ok(index)
            },
            Err(why) => Err(why),
        }
    }

    /// Grows a memory by `delta` pages, and returns the number of pages that it
    /// had, or `None` where it is refused.
    pub(crate) fn memory_grow(&mut self, memory: usize, delta: u32) -> (pages: Option<u32>)
        requires
            old(self).wf(),
            memory < old(self)@.memories.len(),
        ensures
            final(self).wf(),
            pages matches Some(pages) ==> {
                &&& old(self)@.memories[memory as int].may_grant(delta)
                &&& pages == pages_of(old(self)@.memories[memory as int].bytes().len())
                &&& delta > 0 ==> (old(self)@.memories[memory as int].ty().limits.max matches Some(
                    max,
                ) ==> pages + delta <= max)
                &&& final(self)@.memories.len() == old(self)@.memories.len()
                &&& final(self)@ == old(self)@.with_memory(
                    memory as int,
                    final(self)@.memories[memory as int],
                )
                &&& final(self)@.memories[memory as int].ty()
                    == old(self)@.memories[memory as int].ty()
                &&& final(self)@.memories[memory as int].bytes()
                    == old(self)@.memories[memory as int].bytes() + zeroed(delta as nat)
            },
            pages is None ==> {
                &&& old(self)@.memories[memory as int].may_refuse(delta)
                &&& final(self)@ == old(self)@
            },
    {
        let pages = self.memories[memory].grow(delta);
        assert(self@.memories =~= old(self)@.with_memory(
            memory as int,
            self@.memories[memory as int],
        ).memories);
        assert(self@ == old(self)@.with_memory(memory as int, self@.memories[memory as int]));
        assert(pages is None ==> self@.memories =~= old(self)@.memories);
        pages
    }

    /// Returns the bytes of a memory.
    pub(crate) fn memory_data(&self, memory: usize) -> (data: &[u8])
        requires
            self.wf(),
            memory < self@.memories.len(),
        ensures
            data@ == self@.memories[memory as int].bytes(),
    {
        self.memories[memory].as_ptr()
    }

    /// Returns the bytes of a memory, to be read and written.
    pub(crate) fn memory_data_mut(&mut self, memory: usize) -> (data: &mut [u8])
        requires
            old(self).wf(),
            memory < old(self)@.memories.len(),
        ensures
            data@ == old(self)@.memories[memory as int].bytes(),
            final(self)@.memories.len() == old(self)@.memories.len(),
            final(self)@ == old(self)@.with_memory(
                memory as int,
                final(self)@.memories[memory as int],
            ),
            final(self)@.memories[memory as int].ty() == old(self)@.memories[memory as int].ty(),
            final(self)@.memories[memory as int].bytes() == final(data)@,
            final(data)@.len() == data@.len() ==> final(self).wf(),
    {
        self.memories[memory].as_mut_ptr()
    }
}

impl Store<HeapMemoryCreator> {
    /// Creates a new store to be associated with the given `Engine`, which keeps
    /// its memories on the heap. It is numbered as by `with_host_memory`.
    pub fn new(engine: &Engine) -> (store: Store<HeapMemoryCreator>)
        requires
            engine.wf(),
        ensures
            store.wf(),
            store@.id.from_counter(),
            store@ == (StoreView {
                id: store@.id,
                tunables: engine.spec_tunables(),
                creator: HeapMemoryCreator {  },
                functions: Map::empty(),
                globals: Seq::empty(),
                tables: Seq::empty(),
                memories: Seq::empty(),
            }),
    {
        Store::with_host_memory(engine, HeapMemoryCreator {  })
    }
}

} // verus!
