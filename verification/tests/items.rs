use externals::{
    Config, Engine, Export, Extern, ExternType, Func, FuncType, Global, GlobalType,
    HeapMemoryCreator, Limits, Memory, MemoryType, Mutability, Store, Table, TableType, Val,
    ValType,
};
use std::ptr::NonNull;
use wasmtime_runtime::{ExportFunction, VMCallerCheckedAnyfunc, VMSharedSignatureIndex};

fn store() -> Store<HeapMemoryCreator> {
    Store::new(&Engine::new(&Config::new()))
}

fn function() -> ExportFunction {
    let record = VMCallerCheckedAnyfunc {
        func_ptr: NonNull::dangling(),
        type_index: VMSharedSignatureIndex::new(0),
        vmctx: std::ptr::null_mut(),
    };
    ExportFunction {
        anyfunc: NonNull::from(Box::leak(Box::new(record))),
    }
}

/// One item of each kind.
fn items(store: &mut Store<HeapMemoryCreator>) -> (Func, Global, Table, Memory) {
    let ty = FuncType::new(vec![ValType::I32, ValType::F64], vec![ValType::I64]);
    let func = Func::new(store, ty, function());
    let ty = GlobalType::new(ValType::I32, Mutability::Var);
    let global = Global::new(store, ty, Val::I32(4)).unwrap();
    let ty = TableType::new(ValType::FuncRef, Limits::new(1, Some(2)));
    let table = Table::new(store, ty, Val::FuncRef(Some(func.clone()))).unwrap();
    let memory = Memory::new(store, MemoryType::new(Limits::new(1, None)));
    (func, global, table, memory)
}

#[test]
fn items_are_told_apart() {
    let mut store = store();
    let (func, global, table, memory) = items(&mut store);
    let item = Extern::from(func);
    assert!(item.clone().into_func().is_some());
    assert!(item.clone().into_global().is_none());
    assert!(item.clone().into_table().is_none());
    assert!(item.into_memory().is_none());
    let item = Extern::from(global);
    assert!(item.clone().into_func().is_none());
    assert!(item.clone().into_global().is_some());
    assert!(item.clone().into_table().is_none());
    assert!(item.into_memory().is_none());
    let item = Extern::from(table);
    assert!(item.clone().into_func().is_none());
    assert!(item.clone().into_global().is_none());
    assert!(item.clone().into_table().is_some());
    assert!(item.into_memory().is_none());
    let item: Extern = memory.into();
    assert!(item.clone().into_func().is_none());
    assert!(item.clone().into_global().is_none());
    assert!(item.clone().into_table().is_none());
    assert!(item.into_memory().is_some());
}

#[test]
fn types_of_items() {
    let mut store = store();
    let (func, global, table, memory) = items(&mut store);
    match Extern::from(func).ty(&store) {
        ExternType::Func(ty) => {
            assert_eq!(ty.params(), &[ValType::I32, ValType::F64][..]);
            assert_eq!(ty.results(), &[ValType::I64][..]);
        }
        _ => panic!("not a function"),
    }
    match Extern::from(global).ty(&store) {
        ExternType::Global(ty) => assert_eq!(ty, global.ty()),
        _ => panic!("not a global"),
    }
    match Extern::from(table).ty(&store) {
        ExternType::Table(ty) => assert_eq!(ty, table.ty()),
        _ => panic!("not a table"),
    }
    match Extern::from(memory).ty(&store) {
        ExternType::Memory(ty) => assert_eq!(ty, memory.ty()),
        _ => panic!("not a memory"),
    }
}

#[test]
fn functions_are_told_apart() {
    let mut store = store();
    let (a, b) = (function(), function());
    let params = vec![ValType::I32];
    let first = Func::new(&mut store, FuncType::new(params, vec![]), a.clone());
    let second = Func::new(&mut store, FuncType::new(vec![], vec![]), b);
    assert_eq!(first.ty(&store).params().len(), 1);
    assert_eq!(second.ty(&store).params().len(), 0);
    // A function that is known keeps its type.
    let again = Func::new(&mut store, FuncType::new(vec![], vec![]), a);
    assert_eq!(again.ty(&store).params().len(), 1);
    assert_eq!(again.wasmtime_function().anyfunc, first.export.anyfunc);
    assert_eq!(again.store(), store.id());
}

#[test]
fn items_are_found_from_their_exports() {
    let mut store = store();
    let (func, global, table, memory) = items(&mut store);
    memory.grow(&mut store, 1).unwrap();
    let id = store.id();

    let export = Extern::from(func.clone()).get_wasmtime_export();
    let found = Extern::from_wasmtime_export(export, id).into_func().unwrap();
    assert_eq!(found.export.anyfunc, func.export.anyfunc);
    let export = Extern::from(global).get_wasmtime_export();
    let found = Extern::from_wasmtime_export(export, id)
        .into_global()
        .unwrap();
    assert!(matches!(found.get(&store), Val::I32(4)));
    let export = Extern::from(table).get_wasmtime_export();
    let found = Extern::from_wasmtime_export(export, id)
        .into_table()
        .unwrap();
    assert_eq!(found.size(&store), 1);
    let export = Extern::from(memory).get_wasmtime_export();
    let found = Extern::from_wasmtime_export(export, id)
        .into_memory()
        .unwrap();
    assert_eq!(found.size(&store), 2);
}

#[test]
fn items_know_their_store() {
    let (mut here, there) = (store(), store());
    let (func, global, table, memory) = items(&mut here);
    for item in vec![
        Extern::from(func.clone()),
        Extern::from(global),
        Extern::from(table),
        Extern::from(memory),
    ] {
        assert!(item.comes_from_same_store(&here));
        assert!(!item.comes_from_same_store(&there));
    }
    assert!(Val::FuncRef(Some(func.clone())).comes_from_same_store(&here));
    assert!(!Val::FuncRef(Some(func)).comes_from_same_store(&there));
    assert!(Val::FuncRef(None).comes_from_same_store(&there));
    assert!(Val::I32(0).comes_from_same_store(&there));
}

#[test]
fn items_stay_while_the_store_changes() {
    let mut store = store();
    let (func, global, table, memory) = items(&mut store);
    let more = items(&mut store);
    more.1.set(&mut store, Val::I32(5)).unwrap();
    more.2.grow(&mut store, 1, Val::FuncRef(None)).unwrap();
    more.3.grow(&mut store, 1).unwrap();
    assert_eq!(func.ty(&store).params().len(), 2);
    assert!(matches!(global.get(&store), Val::I32(4)));
    assert_eq!(table.size(&store), 1);
    assert_eq!(memory.size(&store), 1);
}

#[test]
fn exports_have_names() {
    let mut store = store();
    let (func, global, table, memory) = items(&mut store);
    let export = Export::new("f", Extern::from(func));
    assert_eq!(export.name(), "f");
    assert!(matches!(export.ty(&store), ExternType::Func(_)));
    assert!(export.clone().into_table().is_none());
    assert!(export.clone().into_memory().is_none());
    assert!(export.clone().into_global().is_none());
    assert!(matches!(export.clone().into_extern(), Extern::Func(_)));
    assert!(export.into_func().is_some());

    let export = Export::new("", Extern::from(global));
    assert_eq!(export.clone().name(), "");
    assert!(export.clone().into_func().is_none());
    assert!(export.into_global().is_some());
    let export = Export::new("t", Extern::from(table));
    assert!(export.clone().into_func().is_none());
    assert!(export.into_table().is_some());
    let export = Export::new("m", Extern::from(memory));
    assert!(export.clone().into_func().is_none());
    assert!(export.into_memory().is_some());
}
