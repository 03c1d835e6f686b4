//! Why an operation on an item of a store is refused.
use crate::types::ValType;
use vstd::prelude::*;
use vstd::string::StringExecFns;

verus! {

/// The error of an operation on a global, a table or a memory.
#[derive(Debug)]
pub enum Error {
    /// A global was to be made with a value of another store.
    CrossStoreGlobal,
    /// A global was to be made with a value of another type than its own.
    GlobalType,
    /// A constant global was to be set.
    ImmutableGlobal,
    /// A global of one type was to be set to a value of another.
    GlobalSetType {
        /// The type of the global.
        global: ValType,
        /// The type of the value.
        val: ValType,
    },
    /// A value belongs to another store.
    CrossStoreValue,
    /// A value is not a reference to a function.
    NotFuncRef,
    /// A table of host references was to be made with another kind of value.
    TableInitType,
    /// A table was to be made for values that no table holds.
    UnsupportedTableElement(ValType),
    /// A table has no element at an index, or holds another kind of element.
    TableIndex,
    /// A value that belongs to another store was to be stored in a table.
    CrossStoreTableSet,
    /// A value is not one that a table can hold, or not one that this table can
    /// hold.
    TableElementType,
    /// A table of host references was to be grown with another kind of value.
    TableGrowInit,
    /// A table cannot be grown by so many elements.
    TableGrow(u32),
    /// The elements of a table were to be copied to a table of another store.
    CrossStoreTableCopy,
    /// A table was to be filled with a value that belongs to another store.
    CrossStoreTableFill,
    /// A range of elements reaches beyond the end of a table.
    TableOutOfBounds,
    /// A memory cannot be grown.
    MemoryGrow,
    /// The creator of memories refused to make one, and says why.
    MemoryCreation(String),
}

/// The digit that stands for `d`.
pub open spec fn digit(d: int) -> Seq<char> {
    if d == 0 {
        "0"@
    } else if d == 1 {
        "1"@
    } else if d == 2 {
        "2"@
    } else if d == 3 {
        "3"@
    } else if d == 4 {
        "4"@
    } else if d == 5 {
        "5"@
    } else if d == 6 {
        "6"@
    } else if d == 7 {
        "7"@
    } else if d == 8 {
        "8"@
    } else {
        "9"@
    }
}

/// A number in decimal notation.
pub open spec fn decimal(n: nat) -> Seq<char>
    decreases n,
{
    if n < 10 {
        digit(n as int)
    } else {
        decimal(n / 10) + digit((n % 10) as int)
    }
}

/// Appends a digit to a text.
fn append_digit(text: &mut String, d: u32)
    requires
        d < 10,
    ensures
        final(text)@ == old(text)@ + digit(d as int),
{
    let digit = match d {
        0 => "0",
        1 => "1",
        2 => "2",
        3 => "3",
        4 => "4",
        5 => "5",
        6 => "6",
        7 => "7",
        8 => "8",
        _ => "9",
    };
    text.append(digit);
}

/// Appends a number in decimal notation to a text.
fn append_decimal(text: &mut String, n: u32)
    ensures
        final(text)@ == old(text)@ + decimal(n as nat),
    decreases n,
{
    if n >= 10 {
        append_decimal(text, n / 10);
    }
    append_digit(text, n % 10);
}

impl Error {
    /// What the error says.
    pub open spec fn spec_message(self) -> Seq<char> {
        match self {
            Error::CrossStoreGlobal => "cross-`Store` globals are not supported"@,
            Error::GlobalType => "value provided does not match the type of this global"@,
            Error::ImmutableGlobal => "immutable global cannot be set"@,
            Error::GlobalSetType { global, val } => "global of type "@ + global.spec_name()
                + " cannot be set to "@ + val.spec_name(),
            Error::CrossStoreValue => "cross-`Store` values are not supported"@,
            Error::NotFuncRef => "val is not funcref"@,
            Error::TableInitType =>
                "table initialization value does not have expected type `externref`"@,
            Error::UnsupportedTableElement(ty) => "unsupported table element type: "@
                + ty.spec_name(),
            Error::TableIndex => "table element index out of bounds"@,
            Error::CrossStoreTableSet => "cross-`Store` values are not supported in tables"@,
            Error::TableElementType => "value does not match table element type"@,
            Error::TableGrowInit => "incorrect init value for growing table"@,
            Error::TableGrow(delta) => "failed to grow table by `"@ + decimal(delta as nat) + "`"@,
            Error::CrossStoreTableCopy => "cross-`Store` table copies are not supported"@,
            Error::CrossStoreTableFill => "cross-`Store` table fills are not supported"@,
            Error::TableOutOfBounds => "wasm trap: out of bounds table access"@,
            Error::MemoryGrow => "failed to grow memory"@,
            Error::MemoryCreation(why) => "generated memory: "@ + why@,
        }
    }

    /// Returns what the error says.
    pub fn message(&self) -> (message: String)
        ensures
            message@ == self.spec_message(),
    {
        let fixed = match self {
            Error::CrossStoreGlobal => "cross-`Store` globals are not supported",
            Error::GlobalType => "value provided does not match the type of this global",
            Error::ImmutableGlobal => "immutable global cannot be set",
            Error::GlobalSetType { global, val } => {
                let mut text = "global of type ".to_string();
                text.append(global.name());
                text.append(" cannot be set to ");
                text.append(val.name());
                return text;
            },
            Error::CrossStoreValue => "cross-`Store` values are not supported",
            Error::NotFuncRef => "val is not funcref",
            Error::TableInitType =>
                "table initialization value does not have expected type `externref`",
            Error::UnsupportedTableElement(ty) => {
                let mut text = "unsupported table element type: ".to_string();
                text.append(ty.name());
                return text;
            },
            Error::TableIndex => "table element index out of bounds",
            Error::CrossStoreTableSet => "cross-`Store` values are not supported in tables",
            Error::TableElementType => "value does not match table element type",
            Error::TableGrowInit => "incorrect init value for growing table",
            Error::TableGrow(delta) => {
                let mut text = "failed to grow table by `".to_string();
                append_decimal(&mut text, *delta);
                text.append("`");
                return text;
            },
            Error::CrossStoreTableCopy => "cross-`Store` table copies are not supported",
            Error::CrossStoreTableFill => "cross-`Store` table fills are not supported",
            Error::TableOutOfBounds => "wasm trap: out of bounds table access",
            Error::MemoryGrow => "failed to grow memory",
            Error::MemoryCreation(why) => {
                let mut text = "generated memory: ".to_string();
                text.append(why.as_str());
                return text;
            },
        };
        fixed.to_string()
    }
}

} // verus!
