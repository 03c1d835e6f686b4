//! The types of wasm values and of the items that a wasm module can import or
//! export.
use vstd::prelude::*;

verus! {

/// A list of all possible value types in WebAssembly.
#[derive(Clone, Copy, Debug, PartialEq, Eq, Structural, Hash)]
pub enum ValType {
    /// Signed 32 bit integer.
    I32,
    /// Signed 64 bit integer.
    I64,
    /// Floating point 32 bit number, kept as its bits.
    F32,
    /// Floating point 64 bit number, kept as its bits.
    F64,
    /// A 128 bit number.
    V128,
    /// A reference to opaque data in the Wasm instance.
    ExternRef,
    /// A reference to a Wasm function.
    FuncRef,
}

impl ValType {
    /// Whether values of this type can be the elements of a table.
    pub open spec fn is_ref(self) -> bool {
        self is ExternRef || self is FuncRef
    }

    /// The name of this type.
    pub open spec fn spec_name(self) -> Seq<char> {
        match self {
            ValType::I32 => "I32"@,
            ValType::I64 => "I64"@,
            ValType::F32 => "F32"@,
            ValType::F64 => "F64"@,
            ValType::V128 => "V128"@,
            ValType::ExternRef => "ExternRef"@,
            ValType::FuncRef => "FuncRef"@,
        }
    }

    /// Returns the name of this type, as its `Debug` output shows it.
    pub fn name(&self) -> (name: &'static str)
        ensures
            name@ == self.spec_name(),
    {
        match self {
            ValType::I32 => "I32",
            ValType::I64 => "I64",
            ValType::F32 => "F32",
            ValType::F64 => "F64",
            ValType::V128 => "V128",
            ValType::ExternRef => "ExternRef",
            ValType::FuncRef => "FuncRef",
        }
    }
}

/// Indicator of whether a global is mutable or not.
#[derive(Clone, Copy, Debug, PartialEq, Eq, Structural, Hash)]
pub enum Mutability {
    /// The global is constant and its value does not change.
    Const,
    /// The value of the global can change over time.
    Var,
}

/// Limits of tables and memories: a size to begin with and, where there is one,
/// a size that growth does not exceed.
#[derive(Clone, Copy, Debug, PartialEq, Eq, Structural, Hash)]
pub struct Limits {
    pub min: u32,
    pub max: Option<u32>,
}

impl Limits {
    /// Creates a new set of limits with the minimum and maximum both specified.
    pub fn new(min: u32, max: Option<u32>) -> (limits: Limits)
        ensures
            limits.min == min,
            limits.max == max,
    {
        Limits { min, max }
    }

    /// Returns the minimum amount for these limits.
    pub fn min(&self) -> (min: u32)
        ensures
            min == self.min,
    {
        self.min
    }

    /// Returns the maximum amount for these limits, if specified.
    pub fn max(&self) -> (max: Option<u32>)
        ensures
            max == self.max,
    {
        self.max
    }

    /// Whether a size is one that something with these limits can have: never
    /// below the minimum, and above the maximum only where the minimum itself is.
    pub open spec fn allow(self, size: nat) -> bool {
        &&& self.min <= size <= u32::MAX
        &&& self.max matches Some(max) ==> size <= max || size == self.min
    }
}

/// A WebAssembly global descriptor: the type of its value and whether that
/// value can be set.
#[derive(Clone, Copy, Debug, PartialEq, Eq, Structural, Hash)]
pub struct GlobalType {
    pub content: ValType,
    pub mutability: Mutability,
}

impl GlobalType {
    /// Creates a new global descriptor of the specified `content` type and
    /// whether or not it's mutable.
    pub fn new(content: ValType, mutability: Mutability) -> (ty: GlobalType)
        ensures
            ty.content == content,
            ty.mutability == mutability,
    {
        GlobalType { content, mutability }
    }

    /// Returns the value type of this global descriptor.
    pub fn content(&self) -> (content: &ValType)
        ensures
            *content == self.content,
    {
        &self.content
    }

    /// Returns whether or not this global is mutable.
    pub fn mutability(&self) -> (mutability: Mutability)
        ensures
            mutability == self.mutability,
    {
        self.mutability
    }
}

/// A descriptor for a table in a WebAssembly module: the type of its elements
/// and its limits, in elements.
#[derive(Clone, Copy, Debug, PartialEq, Eq, Structural, Hash)]
pub struct TableType {
    pub element: ValType,
    pub limits: Limits,
}

impl TableType {
    /// Creates a new table descriptor which will contain the specified
    /// `element` and have the `limits` applied to its length.
    pub fn new(element: ValType, limits: Limits) -> (ty: TableType)
        ensures
            ty.element == element,
            ty.limits == limits,
    {
        TableType { element, limits }
    }

    /// Returns the element value type of this table.
    pub fn element(&self) -> (element: &ValType)
        ensures
            *element == self.element,
    {
        &self.element
    }

    /// Returns the limits, in units of elements, of this table.
    pub fn limits(&self) -> (limits: &Limits)
        ensures
            *limits == self.limits,
    {
        &self.limits
    }
}

/// A descriptor for a WebAssembly memory: its limits, in pages.
#[derive(Clone, Copy, Debug, PartialEq, Eq, Structural, Hash)]
pub struct MemoryType {
    pub limits: Limits,
}

impl MemoryType {
    /// Creates a new descriptor for a WebAssembly memory given the specified
    /// limits of the memory.
    pub fn new(limits: Limits) -> (ty: MemoryType)
        ensures
            ty.limits == limits,
    {
        MemoryType { limits }
    }

    /// Returns the limits, in units of pages, of this memory.
    pub fn limits(&self) -> (limits: &Limits)
        ensures
            *limits == self.limits,
    {
        &self.limits
    }
}

/// A descriptor for a function in a WebAssembly module: the types of its
/// parameters and of its results.
#[derive(Debug)]
pub struct FuncType {
    pub params: Vec<ValType>,
    pub results: Vec<ValType>,
}

impl View for FuncType {
    type V = (Seq<ValType>, Seq<ValType>);

    open spec fn view(&self) -> (Seq<ValType>, Seq<ValType>) {
        (self.params@, self.results@)
    }
}

/// Copies a list of value types.
fn copy_types(types: &Vec<ValType>) -> (copy: Vec<ValType>)
    ensures
        copy@ == types@,
{
    let mut copy: Vec<ValType> = Vec::new();
    let mut i: usize = 0;
    while i < types.len()
        invariant
            i <= types.len(),
            copy@ == types@.take(i as int),
        decreases types.len() - i,
    {
        copy.push(types[i]);
        i = i + 1;
        assert(types@.take(i as int) == types@.take(i - 1).push(types@[i - 1]));
    }
    assert(types@.take(i as int) == types@);
    copy
}

impl FuncType {
    /// Creates a new function descriptor from the given parameters and results.
    pub fn new(params: Vec<ValType>, results: Vec<ValType>) -> (ty: FuncType)
        ensures
            ty@ == (params@, results@),
    {
        FuncType { params, results }
    }

    /// Returns the list of parameter types for this function.
    pub fn params(&self) -> (params: &[ValType])
        ensures
            params@ == self@.0,
    {
        self.params.as_slice()
    }

    /// Returns the list of result types for this function.
    pub fn results(&self) -> (results: &[ValType])
        ensures
            results@ == self@.1,
    {
        self.results.as_slice()
    }
}

impl Clone for FuncType {
    fn clone(&self) -> (copy: FuncType)
        ensures
            copy@ == self@,
    {
        FuncType { params: copy_types(&self.params), results: copy_types(&self.results) }
    }
}

/// A list of all possible types which can be externally referenced from a
/// WebAssembly module.
pub enum ExternType {
    /// The type of a function.
    Func(FuncType),
    /// The type of a global.
    Global(GlobalType),
    /// The type of a table.
    Table(TableType),
    /// The type of a memory.
    Memory(MemoryType),
}

} // verus!
