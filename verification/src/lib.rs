//! Globals, tables and memories of WebAssembly modules, seen from the host.
//!
//! All items live in a [`Store`]. A [`Global`], a [`Table`] or a [`Memory`] says
//! which item of which store it is, and each of its methods takes the store that
//! the item lives in.
pub mod config;
pub mod creator;
pub mod error;
pub mod externs;
pub mod func;
pub mod global;
pub mod laws;
pub mod memory;
pub mod outcomes;
pub mod runtime;
pub mod store;
pub mod table;
pub mod types;
pub mod values;

pub use crate::config::{Config, Engine};
pub use crate::creator::{HeapMemory, HeapMemoryCreator, LinearMemory, MemoryCreator};
pub use crate::error::Error;
pub use crate::externs::{Export, Extern};
pub use crate::func::Func;
pub use crate::global::Global;
pub use crate::memory::Memory;
pub use crate::store::{Store, StoreId};
pub use crate::table::Table;
pub use crate::types::{
    ExternType, FuncType, GlobalType, Limits, MemoryType, Mutability, TableType, ValType,
};
pub use crate::values::{ExternRef, Val};
