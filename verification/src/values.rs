//! Values that wasm code computes with, and the forms in which globals and
//! tables store them.
use crate::creator::MemoryCreator;
use crate::error::Error;
use crate::func::Func;
use crate::runtime::{GlobalDefinition, TableElement};
use crate::store::{Store, StoreId, StoreView};
use crate::types::ValType;
use vstd::prelude::*;

verus! {

/// Represents an opaque reference to any data within WebAssembly.
pub struct ExternRef {
    pub inner: wasmtime_runtime::VMExternRef,
}

impl Clone for ExternRef {
    fn clone(&self) -> (copy: ExternRef)
        ensures
            copy == *self,
    {
        ExternRef { inner: self.inner.clone() }
    }
}

/// Possible runtime values that a WebAssembly module can either consume or
/// produce.
pub enum Val {
    /// A 32-bit integer.
    I32(i32),
    /// A 64-bit integer.
    I64(i64),
    /// A 32-bit float, as its bits.
    F32(u32),
    /// A 64-bit float, as its bits.
    F64(u64),
    /// A 128-bit number.
    V128(u128),
    /// An `externref` value which can hold opaque data to the Wasm instance
    /// itself. `None` is a null reference.
    ExternRef(Option<ExternRef>),
    /// A first-class reference to a WebAssembly function. `None` is a null
    /// reference.
    FuncRef(Option<Func>),
}

impl Val {
    /// The type of this value.
    pub open spec fn spec_ty(self) -> ValType {
        match self {
            Val::I32(_) => ValType::I32,
            Val::I64(_) => ValType::I64,
            Val::F32(_) => ValType::F32,
            Val::F64(_) => ValType::F64,
            Val::V128(_) => ValType::V128,
            Val::ExternRef(_) => ValType::ExternRef,
            Val::FuncRef(_) => ValType::FuncRef,
        }
    }

    /// The value can be used with the store `id`. Only a function belongs to a
    /// store; all other values go with any.
    pub open spec fn belongs_to(self, id: StoreId) -> bool {
        self matches Val::FuncRef(Some(func)) ==> func.instance == id
    }

    /// The value is one of this store, or of another: a function that claims to
    /// be one of this store is known to it.
    pub open spec fn valid<C: MemoryCreator>(self, store: StoreView<C>) -> bool {
        self matches Val::FuncRef(Some(func)) ==> func.instance == store.id ==> func.valid(store)
    }

    /// The form in which a global stores this value.
    pub open spec fn definition(self) -> GlobalDefinition {
        match self {
            Val::I32(i) => GlobalDefinition::I32(i),
            Val::I64(i) => GlobalDefinition::I64(i),
            Val::F32(f) => GlobalDefinition::F32(f),
            Val::F64(f) => GlobalDefinition::F64(f),
            Val::V128(v) => GlobalDefinition::V128(v),
            Val::ExternRef(None) => GlobalDefinition::ExternRef(None),
            Val::ExternRef(Some(x)) => GlobalDefinition::ExternRef(Some(x.inner)),
            Val::FuncRef(None) => GlobalDefinition::FuncRef(None),
            Val::FuncRef(Some(f)) => GlobalDefinition::FuncRef(Some(f.export)),
        }
    }

    /// The value that a global of the store `id` stores in this form.
    pub open spec fn from_definition(definition: GlobalDefinition, id: StoreId) -> Val {
        match definition {
            GlobalDefinition::I32(i) => Val::I32(i),
            GlobalDefinition::I64(i) => Val::I64(i),
            GlobalDefinition::F32(f) => Val::F32(f),
            GlobalDefinition::F64(f) => Val::F64(f),
            GlobalDefinition::V128(v) => Val::V128(v),
            GlobalDefinition::ExternRef(None) => Val::ExternRef(None),
            GlobalDefinition::ExternRef(Some(x)) => Val::ExternRef(Some(ExternRef { inner: x })),
            GlobalDefinition::FuncRef(f) => Val::from_anyfunc(f, id),
        }
    }

    /// The form in which a table stores this value. Only references have one.
    pub open spec fn element(self) -> Option<TableElement> {
        match self {
            Val::ExternRef(None) => Some(TableElement::ExternRef(None)),
            Val::ExternRef(Some(x)) => Some(TableElement::ExternRef(Some(x.inner))),
            Val::FuncRef(None) => Some(TableElement::FuncRef(None)),
            Val::FuncRef(Some(f)) => Some(TableElement::FuncRef(Some(f.export))),
            _ => None,
        }
    }

    /// The value that a table of the store `id` stores in this form.
    pub open spec fn from_element(element: TableElement, id: StoreId) -> Val {
        match element {
            TableElement::ExternRef(None) => Val::ExternRef(None),
            TableElement::ExternRef(Some(x)) => Val::ExternRef(Some(ExternRef { inner: x })),
            TableElement::FuncRef(f) => Val::from_anyfunc(f, id),
        }
    }

    /// A reference to a function of the store `id`.
    pub open spec fn from_anyfunc(
        anyfunc: Option<wasmtime_runtime::ExportFunction>,
        id: StoreId,
    ) -> Val {
        match anyfunc {
            Some(export) => Val::FuncRef(Some(Func { instance: id, export })),
            None => Val::FuncRef(None),
        }
    }

    /// Returns the corresponding `ValType` for this `Val`.
    pub fn ty(&self) -> (ty: ValType)
        ensures
            ty == self.spec_ty(),
    {
        match self {
            Val::I32(_) => ValType::I32,
            Val::I64(_) => ValType::I64,
            Val::F32(_) => ValType::F32,
            Val::F64(_) => ValType::F64,
            Val::V128(_) => ValType::V128,
            Val::ExternRef(_) => ValType::ExternRef,
            Val::FuncRef(_) => ValType::FuncRef,
        }
    }

    /// Returns whether this value can be used with `store`.
    pub fn comes_from_same_store<C: MemoryCreator>(&self, store: &Store<C>) -> (same: bool)
        ensures
            same == self.belongs_to(store@.id),
    {
        match self {
            Val::FuncRef(Some(func)) => func.store() == store.id(),
            _ => true,
        }
    }

    /// Attempt to access the underlying value of this `Val`, returning `None` if
    /// it is not a reference to host data.
    pub fn externref(self) -> (reference: Option<Option<ExternRef>>)
        ensures
            reference == (match self {
                Val::ExternRef(reference) => Some(reference),
                _ => None,
            }),
    {
        match self {
            Val::ExternRef(reference) => Some(reference),
            _ => None,
        }
    }

    /// Turns this value into the form in which a global stores it.
    pub fn into_definition(self) -> (definition: GlobalDefinition)
        ensures
            definition == self.definition(),
    {
        match self {
            Val::I32(i) => GlobalDefinition::I32(i),
            Val::I64(i) => GlobalDefinition::I64(i),
            Val::F32(f) => GlobalDefinition::F32(f),
            Val::F64(f) => GlobalDefinition::F64(f),
            Val::V128(v) => GlobalDefinition::V128(v),
            Val::ExternRef(None) => GlobalDefinition::ExternRef(None),
            Val::ExternRef(Some(x)) => GlobalDefinition::ExternRef(Some(x.inner)),
            Val::FuncRef(None) => GlobalDefinition::FuncRef(None),
            Val::FuncRef(Some(f)) => GlobalDefinition::FuncRef(Some(f.export)),
        }
    }

    /// Turns this value into the form in which a table stores it.
    ///
    /// # Errors
    ///
    /// Returns an error if this value is not a reference.
    pub fn into_table_element(self) -> (element: Result<TableElement, Error>)
        ensures
            element == (match self.element() {
                Some(element) => Ok(element),
                None => Err(Error::TableElementType),
            }),
    {
        match self {
            Val::ExternRef(None) => Ok(TableElement::ExternRef(None)),
            Val::ExternRef(Some(x)) => Ok(TableElement::ExternRef(Some(x.inner))),
            Val::FuncRef(None) => Ok(TableElement::FuncRef(None)),
            Val::FuncRef(Some(f)) => Ok(TableElement::FuncRef(Some(f.export))),
            _ => Err(Error::TableElementType),
        }
    }
}

impl Clone for Val {
    fn clone(&self) -> (copy: Val)
        ensures
            copy == *self,
    {
        match self {
            Val::I32(i) => Val::I32(*i),
            Val::I64(i) => Val::I64(*i),
            Val::F32(f) => Val::F32(*f),
            Val::F64(f) => Val::F64(*f),
            Val::V128(v) => Val::V128(*v),
            Val::ExternRef(None) => Val::ExternRef(None),
            Val::ExternRef(Some(x)) => Val::ExternRef(Some(x.clone())),
            Val::FuncRef(None) => Val::FuncRef(None),
            Val::FuncRef(Some(f)) => Val::FuncRef(Some(f.clone())),
        }
    }
}

/// What `into_checked_anyfunc` gives for `val` and the store `id`.
pub open spec fn checked_anyfunc(val: Val, id: StoreId) -> Result<
    Option<wasmtime_runtime::ExportFunction>,
    Error,
> {
    if !val.belongs_to(id) {
        Err(Error::CrossStoreValue)
    } else {
        match val {
            Val::FuncRef(None) => Ok(None),
            Val::FuncRef(Some(f)) => Ok(Some(f.export)),
            _ => Err(Error::NotFuncRef),
        }
    }
}

/// Returns the function that `val` refers to, or `None` where it is null.
///
/// # Errors
///
/// Returns an error if `val` belongs to another store or is not a reference to a
/// function.
pub fn into_checked_anyfunc<C: MemoryCreator>(val: Val, store: &Store<C>) -> (anyfunc: Result<
    Option<wasmtime_runtime::ExportFunction>,
    Error,
>)
    ensures
        anyfunc == checked_anyfunc(val, store@.id),
{
    if !val.comes_from_same_store(store) {
        return Err(Error::CrossStoreValue);
    }
    match val {
        Val::FuncRef(None) => Ok(None),
        Val::FuncRef(Some(f)) => Ok(Some(f.export)),
        _ => Err(Error::NotFuncRef),
    }
}

/// Returns the reference to a function of `store`, which is null where there is
/// none.
pub fn from_checked_anyfunc<C: MemoryCreator>(
    anyfunc: Option<wasmtime_runtime::ExportFunction>,
    store: &Store<C>,
) -> (val: Val)
    ensures
        val == Val::from_anyfunc(anyfunc, store@.id),
{
    match anyfunc {
        Some(export) => Val::FuncRef(Some(Func::from_wasmtime_function(export, store.id()))),
        None => Val::FuncRef(None),
    }
}

} // verus!
