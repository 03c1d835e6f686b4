# externals

The items that a WebAssembly module can import or export, seen from the host:
functions, globals, tables and linear memories.

All items live in a `Store`. A `Global`, a `Table` or a `Memory` only says which
item of which store it is, so copies of it are the same item, and each of its
methods takes the store. Every operation has a contract over what the store holds
(`StoreView`), and the contracts are proved with Verus.

- `src/global.rs`, `src/table.rs`, `src/memory.rs`: the items and their
  operations.
- `src/externs.rs`: `Extern`, which is any of them, and `Export`, which gives one
  a name.
- `src/creator.rs`: the traits by which a host brings memory of its own, and the
  memory on the heap that a store uses otherwise.
- `src/store.rs`: the store.
- `src/runtime.rs`: what is taken from `wasmtime-runtime` and `wasmtime-environ`.
  Tables hold their elements in the runtime's `Table`, and memories are planned by
  the runtime's rules. What is claimed of those two crates without proof stands
  here and nowhere else.
- `src/laws.rs`: what holds across operations.
- `src/types.rs`, `src/values.rs`, `src/func.rs`, `src/config.rs`,
  `src/error.rs`: the types and values that the operations take and give.
- `app/`: addresses of memories, and errors for `anyhow`.
