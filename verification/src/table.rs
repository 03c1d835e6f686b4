//! Tables.
use crate::creator::MemoryCreator;
use crate::error::Error;
use crate::runtime::{copied, filled, ExportTable, TableElement, TableElementType, TablePlan};
use crate::store::{kind_of, Store, StoreId, StoreView, TableView};
use crate::types::{TableType, ValType};
use crate::values::{checked_anyfunc, from_checked_anyfunc, into_checked_anyfunc, ExternRef, Val};
use vstd::prelude::*;

verus! {

/// A WebAssembly `table`, or an array of values.
///
/// Like `Memory` a table is an indexed array of values, but unlike `Memory` it's
/// an array of WebAssembly values rather than bytes. One of the most common
/// usages of a table is a function table for wasm modules, where each element
/// has the `Func` type.
///
/// Tables can be grown in size and each element can be read/written.
///
/// # `Table` and `Clone`
///
/// The elements live in the store, so you can `clone` a `Table`. The cloning
/// process only performs a shallow clone, so two cloned `Table` instances are
/// equivalent in their functionality.
#[derive(Clone, Copy, Debug)]
pub struct Table {
    pub instance: StoreId,
    pub wasmtime_export: ExportTable,
}

/// Stores `item` in a table of `store`.
fn set_table_item<C: MemoryCreator>(
    store: &mut Store<C>,
    table_index: usize,
    item_index: u32,
    item: TableElement,
) -> (result: Result<(), Error>)
    requires
        old(store).wf(),
        table_index < old(store)@.tables.len(),
        item matches TableElement::FuncRef(Some(function)) ==> old(
            store,
        )@.functions.dom().contains(function),
    ensures
        final(store).wf(),
        if item_index < old(store)@.tables[table_index as int].elements.len() && item.kind()
            == kind_of(old(store)@.tables[table_index as int].ty.element) {
            &&& result is Ok
            &&& final(store)@ == old(store)@.with_elements(
                table_index as int,
                old(store)@.tables[table_index as int].elements.update(item_index as int, item),
            )
        } else {
            &&& result == Err::<(), Error>(Error::TableIndex)
            &&& final(store)@ == old(store)@
        },
{
    match store.table_set(table_index, item_index, item) {
        Ok(()) => Ok(()),
        Err(()) => Err(Error::TableIndex),
    }
}

/// What a table of the type `ty` in the store `id` is filled with where it is
/// made with the value `init`, or why it cannot be made.
pub open spec fn table_init(id: StoreId, ty: TableType, init: Val) -> Result<TableElement, Error> {
    match ty.element {
        ValType::FuncRef => match checked_anyfunc(init, id) {
            Ok(anyfunc) => Ok(TableElement::FuncRef(anyfunc)),
            Err(error) => Err(error),
        },
        ValType::ExternRef => match init {
            Val::ExternRef(None) => Ok(TableElement::ExternRef(None)),
            Val::ExternRef(Some(x)) => Ok(TableElement::ExternRef(Some(x.inner))),
            _ => Err(Error::TableInitType),
        },
        ty => Err(Error::UnsupportedTableElement(ty)),
    }
}

impl Table {
    /// The table is one of this store.
    pub open spec fn valid<C: MemoryCreator>(self, store: StoreView<C>) -> bool {
        &&& self.instance == store.id
        &&& self.wasmtime_export.definition < store.tables.len()
        &&& store.tables[self.wasmtime_export.definition as int].ty
            == self.wasmtime_export.table.table
    }

    /// The type of this table.
    pub open spec fn spec_ty(self) -> TableType {
        self.wasmtime_export.table.table
    }

    /// What this table holds.
    pub open spec fn elements<C: MemoryCreator>(self, store: StoreView<C>) -> Seq<TableElement> {
        store.tables[self.wasmtime_export.definition as int].elements
    }

    /// This table, in the store.
    pub open spec fn view_in<C: MemoryCreator>(self, store: StoreView<C>) -> TableView {
        store.tables[self.wasmtime_export.definition as int]
    }

    /// The store with other elements in this table.
    pub open spec fn replaced<C: MemoryCreator>(
        self,
        store: StoreView<C>,
        elements: Seq<TableElement>,
    ) -> StoreView<C> {
        store.with_elements(self.wasmtime_export.definition as int, elements)
    }

    /// Why `val` cannot be stored at `index`, if it cannot.
    pub open spec fn set_error<C: MemoryCreator>(
        self,
        store: StoreView<C>,
        index: u32,
        val: Val,
    ) -> Option<Error> {
        if !val.belongs_to(self.instance) {
            Some(Error::CrossStoreTableSet)
        } else if val.element() is None {
            Some(Error::TableElementType)
        } else if index >= self.elements(store).len() || val.spec_ty() != self.spec_ty().element {
            Some(Error::TableIndex)
        } else {
            None
        }
    }

    /// What new elements of this table are where it is grown with the value
    /// `init`, or why it cannot be.
    pub open spec fn grow_init(self, init: Val) -> Result<TableElement, Error> {
        if self.spec_ty().element is FuncRef {
            match checked_anyfunc(init, self.instance) {
                Ok(anyfunc) => Ok(TableElement::FuncRef(anyfunc)),
                Err(error) => Err(error),
            }
        } else {
            match init {
                Val::ExternRef(None) => Ok(TableElement::ExternRef(None)),
                Val::ExternRef(Some(x)) => Ok(TableElement::ExternRef(Some(x.inner))),
                _ => Err(Error::TableGrowInit),
            }
        }
    }

    /// Why `val` cannot be stored at the `len` indexes from `dst` on, if it
    /// cannot.
    pub open spec fn fill_error<C: MemoryCreator>(
        self,
        store: StoreView<C>,
        dst: u32,
        val: Val,
        len: u32,
    ) -> Option<Error> {
        if !val.belongs_to(self.instance) {
            Some(Error::CrossStoreTableFill)
        } else if val.element() is None {
            Some(Error::TableElementType)
        } else if dst + len > self.elements(store).len() {
            Some(Error::TableOutOfBounds)
        } else if val.spec_ty() != self.spec_ty().element {
            Some(Error::TableElementType)
        } else {
            None
        }
    }

    /// Why the `len` elements of `src_table` from `src_index` on cannot be copied
    /// to this table from `dst_index` on, if they cannot.
    pub open spec fn copy_error<C: MemoryCreator>(
        self,
        store: StoreView<C>,
        dst_index: u32,
        src_table: Table,
        src_index: u32,
        len: u32,
    ) -> Option<Error> {
        if self.instance != src_table.instance {
            Some(Error::CrossStoreTableCopy)
        } else if src_index + len > src_table.elements(store).len() || dst_index + len
            > self.elements(store).len() {
            Some(Error::TableOutOfBounds)
        } else {
            None
        }
    }

    /// Creates a new `Table` with the given parameters.
    ///
    /// * `store` - the store that the table lives in
    /// * `ty` - the type of this table, containing both the element type as well
    ///   as the initial size and maximum size, if any.
    /// * `init` - the initial value to fill all table entries with, if the table
    ///   starts with an initial size.
    ///
    /// # Errors
    ///
    /// Returns an error if `init` does not match the element type of the table.
    pub fn new<C: MemoryCreator>(store: &mut Store<C>, ty: TableType, init: Val) -> (table: Result<
        Table,
        Error,
    >)
        requires
            old(store).wf(),
            init.valid(old(store)@),
        ensures
            final(store).wf(),
            table is Ok <==> {
                &&& ty.element == ValType::FuncRef || ty.element == ValType::ExternRef
                &&& init.spec_ty() == ty.element
                &&& init.belongs_to(old(store)@.id)
            },
            match table_init(old(store)@.id, ty, init) {
                Err(error) => {
                    &&& table == Err::<Table, Error>(error)
                    &&& final(store)@ == old(store)@
                },
                Ok(element) => {
                    &&& table matches Ok(table)
                    &&& table.valid(final(store)@)
                    &&& table.spec_ty() == ty
                    &&& table.wasmtime_export.definition == old(store)@.tables.len()
                    &&& final(store)@ == old(store)@.push_table(
                        TableView {
                            ty,
                            elements: Seq::new(ty.limits.min as nat, |i: int| element),
                        },
                    )
                },
            },
    {
        let init: TableElement = match ty.element() {
            ValType::FuncRef => match into_checked_anyfunc(init, store) {
                Ok(anyfunc) => TableElement::FuncRef(anyfunc),
                Err(error) => return Err(error),
            },
            ValType::ExternRef => match init.externref() {
                None => return Err(Error::TableInitType),
                Some(None) => TableElement::ExternRef(None),
                Some(Some(x)) => TableElement::ExternRef(Some(x.inner)),
            },
            ty => return Err(Error::UnsupportedTableElement(*ty)),
        };
        let definition = store.new_table(ty);
        let ghost nulls = store@.tables[definition as int].elements;
        let current_elements = store.table_size(definition);
        let mut i: u32 = 0;
        assert(store@ == old(store)@.push_table(
            TableView { ty, elements: filled(nulls, 0, init, i as int) },
        )) by {
            assert(nulls =~= filled(nulls, 0, init, 0));
        }
        while i < current_elements
            invariant
                i <= current_elements,
                current_elements == nulls.len(),
                definition == old(store)@.tables.len(),
                store.wf(),
                init.kind() == kind_of(ty.element),
                init matches TableElement::FuncRef(Some(function)) ==> old(
                    store,
                )@.functions.dom().contains(function),
                store@ == old(store)@.push_table(
                    (TableView { ty, elements: filled(nulls, 0, init, i as int) }),
                ),
            decreases current_elements - i,
        {
            let result = set_table_item(store, definition, i, init.clone());
            assert(result is Ok);
            i = i + 1;
            proof {
                let now = TableView { ty, elements: filled(nulls, 0, init, i as int) };
                assert(filled(nulls, 0, init, i - 1).update(i - 1, init) =~= now.elements);
                assert(store@.tables =~= old(store)@.push_table(now).tables);
            }
        }
        assert(filled(nulls, 0, init, i as int) =~= Seq::new(
            ty.limits.min as nat,
            |i: int| init,
        ));
        Ok(
            Table {
                instance: store.id(),
                wasmtime_export: ExportTable { definition, table: TablePlan { table: ty } },
            },
        )
    }

    /// Returns the underlying type of this table, including its element type as
    /// well as the maximum/minimum lower bounds.
    pub fn ty(&self) -> (ty: TableType)
        ensures
            ty == self.spec_ty(),
    {
        self.wasmtime_export.table.table
    }

    /// Returns the table element value at `index`.
    ///
    /// Returns `None` if `index` is out of bounds.
    pub fn get<C: MemoryCreator>(&self, store: &Store<C>, index: u32) -> (val: Option<Val>)
        requires
            store.wf(),
            self.valid(store@),
        ensures
            val == (if index < self.elements(store@).len() {
                Some(Val::from_element(self.elements(store@)[index as int], self.instance))
            } else {
                None
            }),
            val matches Some(val) ==> {
                &&& val.spec_ty() == self.spec_ty().element
                &&& val.belongs_to(store@.id)
                &&& val.valid(store@)
            },
    {
        broadcast use Store::lemma_wf;

        assert(self.view_in(store@).wf(store@.functions));
        match store.table_get(self.wasmtime_export.definition, index) {
            None => None,
            Some(TableElement::FuncRef(f)) => Some(from_checked_anyfunc(f, store)),
            Some(TableElement::ExternRef(None)) => Some(Val::ExternRef(None)),
            Some(TableElement::ExternRef(Some(x))) => Some(
                Val::ExternRef(Some(ExternRef { inner: x })),
            ),
        }
    }

    /// Writes the `val` provided into `index` within this table.
    ///
    /// # Errors
    ///
    /// Returns an error if `index` is out of bounds or if `val` does not have the
    /// right type to be stored in this table.
    pub fn set<C: MemoryCreator>(&self, store: &mut Store<C>, index: u32, val: Val) -> (result:
        Result<(), Error>)
        requires
            old(store).wf(),
            self.valid(old(store)@),
            val.valid(old(store)@),
        ensures
            final(store).wf(),
            result is Ok <==> {
                &&& val.spec_ty() == self.wasmtime_export.table.table.element
                &&& val.belongs_to(old(store)@.id)
                &&& index < self.elements(old(store)@).len()
            },
            match self.set_error(old(store)@, index, val) {
                Some(error) => {
                    &&& result == Err::<(), Error>(error)
                    &&& final(store)@ == old(store)@
                },
                None => {
                    &&& result is Ok
                    &&& final(store)@ == self.replaced(
                        old(store)@,
                        self.elements(old(store)@).update(index as int, val.element()->0),
                    )
                },
            },
    {
        broadcast use Store::lemma_wf;

        assert(self.view_in(store@).wf(store@.functions));
        if !val.comes_from_same_store(store) {
            return Err(Error::CrossStoreTableSet);
        }
        let element = match val.into_table_element() {
            Ok(element) => element,
            Err(error) => return Err(error),
        };
        set_table_item(store, self.wasmtime_export.definition, index, element)
    }

    /// Returns the current size of this table.
    pub fn size<C: MemoryCreator>(&self, store: &Store<C>) -> (size: u32)
        requires
            self.valid(store@),
        ensures
            size == self.elements(store@).len(),
    {
        store.table_size(self.wasmtime_export.definition)
    }

    /// Grows the size of this table by `delta` more elements, initialization all
    /// new elements to `init`.
    ///
    /// Returns the previous size of this table if successful.
    ///
    /// # Errors
    ///
    /// Returns an error if the table cannot be grown by `delta`, for example if
    /// it would cause the table to exceed its maximum size. Also returns an error
    /// if `init` is not of the right type.
    pub fn grow<C: MemoryCreator>(&self, store: &mut Store<C>, delta: u32, init: Val) -> (size:
        Result<u32, Error>)
        requires
            old(store).wf(),
            self.valid(old(store)@),
            init.valid(old(store)@),
        ensures
            final(store).wf(),
            size is Ok <==> {
                &&& init.spec_ty() == self.wasmtime_export.table.table.element
                &&& init.belongs_to(old(store)@.id)
                &&& self.elements(old(store)@).len() + delta <= u32::MAX
                &&& self.wasmtime_export.table.table.limits.max matches Some(max) ==> self.elements(
                    old(store)@,
                ).len() + delta <= max
            },
            match self.grow_init(init) {
                Err(error) => {
                    &&& size == Err::<u32, Error>(error)
                    &&& final(store)@ == old(store)@
                },
                Ok(element) => if self.view_in(old(store)@).can_grow(delta) {
                    &&& size matches Ok(size)
                    &&& size == self.elements(old(store)@).len()
                    &&& final(store)@ == self.replaced(
                        old(store)@,
                        self.elements(old(store)@) + Seq::new(delta as nat, |i: int| element),
                    )
                } else {
                    &&& size == Err::<u32, Error>(Error::TableGrow(delta))
                    &&& final(store)@ == old(store)@
                },
            },
    {
        broadcast use Store::lemma_wf;

        assert(self.view_in(store@).wf(store@.functions));
        let index = self.wasmtime_export.definition;
        let orig_size = match self.ty().element() {
            ValType::FuncRef => {
                let init = match into_checked_anyfunc(init, store) {
                    Ok(init) => init,
                    Err(error) => return Err(error),
                };
                store.defined_table_grow(index, delta, TableElement::FuncRef(init))
            },
            _ => {
                let init = match init {
                    Val::ExternRef(Some(x)) => Some(x.inner),
                    Val::ExternRef(None) => None,
                    _ => return Err(Error::TableGrowInit),
                };
                store.defined_table_grow(index, delta, TableElement::ExternRef(init))
            },
        };
        if let Some(size) = orig_size {
            Ok(size)
        } else {
            Err(Error::TableGrow(delta))
        }
    }

    /// Copy `len` elements from `src_table[src_index..]` into
    /// `dst_table[dst_index..]`. Both tables hold the same kind of element, unless
    /// there is nothing to copy.
    ///
    /// # Errors
    ///
    /// Returns an error if the range is out of bounds of either the source or
    /// destination tables, or if the tables come from different `Store`s.
    pub fn copy<C: MemoryCreator>(
        store: &mut Store<C>,
        dst_table: &Table,
        dst_index: u32,
        src_table: &Table,
        src_index: u32,
        len: u32,
    ) -> (result: Result<(), Error>)
        requires
            old(store).wf(),
            dst_table.valid(old(store)@),
            src_table.instance == old(store)@.id ==> src_table.valid(old(store)@),
            dst_table.copy_error(old(store)@, dst_index, *src_table, src_index, len) is None && len
                > 0 ==> dst_table.spec_ty().element == src_table.spec_ty().element,
        ensures
            final(store).wf(),
            result is Ok <==> {
                &&& src_table.instance == dst_table.instance
                &&& src_index + len <= src_table.elements(old(store)@).len()
                &&& dst_index + len <= dst_table.elements(old(store)@).len()
            },
            match dst_table.copy_error(old(store)@, dst_index, *src_table, src_index, len) {
                Some(error) => {
                    &&& result == Err::<(), Error>(error)
                    &&& final(store)@ == old(store)@
                },
                None => {
                    &&& result is Ok
                    &&& final(store)@ == dst_table.replaced(
                        old(store)@,
                        copied(
                            dst_table.elements(old(store)@),
                            dst_index as int,
                            src_table.elements(old(store)@),
                            src_index as int,
                            len as int,
                        ),
                    )
                },
            },
    {
        if dst_table.instance != src_table.instance {
            return Err(Error::CrossStoreTableCopy);
        }
        match store.table_copy(
            dst_table.wasmtime_export.definition,
            dst_index,
            src_table.wasmtime_export.definition,
            src_index,
            len,
        ) {
            Ok(()) => Ok(()),
            Err(_) => Err(Error::TableOutOfBounds),
        }
    }

    /// Fill `table[dst..(dst + len)]` with the given value.
    ///
    /// # Errors
    ///
    /// Returns an error if
    ///
    /// * `val` is not of the same type as this table's element type,
    ///
    /// * the region to be filled is out of bounds, or
    ///
    /// * `val` comes from a different `Store` from this table.
    pub fn fill<C: MemoryCreator>(
        &self,
        store: &mut Store<C>,
        dst: u32,
        val: Val,
        len: u32,
    ) -> (result: Result<(), Error>)
        requires
            old(store).wf(),
            self.valid(old(store)@),
            val.valid(old(store)@),
        ensures
            final(store).wf(),
            result is Ok <==> {
                &&& val.spec_ty() == self.wasmtime_export.table.table.element
                &&& val.belongs_to(old(store)@.id)
                &&& dst + len <= self.elements(old(store)@).len()
            },
            match self.fill_error(old(store)@, dst, val, len) {
                Some(error) => {
                    &&& result == Err::<(), Error>(error)
                    &&& final(store)@ == old(store)@
                },
                None => {
                    &&& result is Ok
                    &&& final(store)@ == self.replaced(
                        old(store)@,
                        filled(
                            self.elements(old(store)@),
                            dst as int,
                            val.element()->0,
                            len as int,
                        ),
                    )
                },
            },
    {
        broadcast use Store::lemma_wf;

        assert(self.view_in(store@).wf(store@.functions));
        if !val.comes_from_same_store(store) {
            return Err(Error::CrossStoreTableFill);
        }
        let table_index = self.wasmtime_export.definition;
        let element = match val.into_table_element() {
            Ok(element) => element,
            Err(error) => return Err(error),
        };
        let kind = match self.ty().element() {
            ValType::FuncRef => TableElementType::Func,
            _ => TableElementType::Val,
        };
        let size = self.size(store);
        if element.element_type() != kind && dst <= size && len <= size - dst {
            return Err(Error::TableElementType);
        }
        match store.defined_table_fill(table_index, dst, element, len) {
            Ok(()) => Ok(()),
            Err(_) => Err(Error::TableOutOfBounds),
        }
    }

    /// The table of the store `instance` that is exported as `wasmtime_export`.
    pub fn from_wasmtime_table(wasmtime_export: ExportTable, instance: StoreId) -> (table: Table)
        ensures
            table == (Table { instance, wasmtime_export }),
    {
        Table { instance, wasmtime_export }
    }
}

} // verus!
