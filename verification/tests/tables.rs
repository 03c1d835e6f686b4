use externals::{
    Config, Engine, Error, ExternRef, Func, FuncType, HeapMemoryCreator, Limits, Store, Table,
    TableType, Val, ValType,
};
use std::ptr::NonNull;
use wasmtime_runtime::{
    ExportFunction, VMCallerCheckedAnyfunc, VMExternRef, VMSharedSignatureIndex,
};

fn store() -> Store<HeapMemoryCreator> {
    Store::new(&Engine::new(&Config::new()))
}

fn func(store: &mut Store<HeapMemoryCreator>) -> Func {
    let record = VMCallerCheckedAnyfunc {
        func_ptr: NonNull::dangling(),
        type_index: VMSharedSignatureIndex::new(0),
        vmctx: std::ptr::null_mut(),
    };
    let export = ExportFunction {
        anyfunc: NonNull::from(Box::leak(Box::new(record))),
    };
    Func::new(store, FuncType::new(vec![], vec![]), export)
}

fn funcs(min: u32, max: Option<u32>) -> TableType {
    TableType::new(ValType::FuncRef, Limits::new(min, max))
}

fn refs(min: u32, max: Option<u32>) -> TableType {
    TableType::new(ValType::ExternRef, Limits::new(min, max))
}

/// A reference to a number.
fn number(n: i32) -> Val {
    Val::ExternRef(Some(ExternRef {
        inner: VMExternRef::new(n),
    }))
}

/// The numbers that the elements of a table refer to, and `None` for null.
fn numbers(store: &Store<HeapMemoryCreator>, table: &Table) -> Vec<Option<i32>> {
    (0..table.size(store))
        .map(|i| match table.get(store, i) {
            Some(Val::ExternRef(Some(x))) => (*x.inner).downcast_ref::<i32>().copied(),
            Some(Val::ExternRef(None)) => None,
            _ => panic!("not a host reference"),
        })
        .collect()
}

/// A table that refers to the numbers from zero on.
fn counting(store: &mut Store<HeapMemoryCreator>, len: u32) -> Table {
    let table = Table::new(store, refs(len, None), Val::ExternRef(None)).unwrap();
    for i in 0..len {
        table.set(store, i, number(i as i32)).unwrap();
    }
    table
}

#[test]
fn new_table_is_filled() {
    let mut store = store();
    let f = func(&mut store);
    let ty = funcs(3, Some(5));
    let table = Table::new(&mut store, ty, Val::FuncRef(Some(f.clone()))).unwrap();
    assert_eq!(table.ty(), ty);
    assert_eq!(table.size(&store), 3);
    for i in 0..3 {
        match table.get(&store, i) {
            Some(Val::FuncRef(Some(g))) => assert_eq!(g.export.anyfunc, f.export.anyfunc),
            _ => panic!("not the function"),
        }
    }
    assert!(table.get(&store, 3).is_none());
    assert!(table.get(&store, u32::MAX).is_none());

    let table = Table::new(&mut store, refs(2, None), number(7)).unwrap();
    assert_eq!(numbers(&store, &table), vec![Some(7), Some(7)]);
    let table = Table::new(&mut store, refs(0, None), number(7)).unwrap();
    assert_eq!(table.size(&store), 0);
    assert!(table.get(&store, 0).is_none());
}

#[test]
fn new_table_errors() {
    let (mut here, mut there) = (store(), store());
    let error = Table::new(&mut here, funcs(1, None), Val::I32(0)).unwrap_err();
    assert!(matches!(error, Error::NotFuncRef));
    assert_eq!(error.message(), "val is not funcref");
    let error = Table::new(&mut here, funcs(1, None), Val::ExternRef(None)).unwrap_err();
    assert!(matches!(error, Error::NotFuncRef));

    let error = Table::new(&mut here, refs(1, None), Val::FuncRef(None)).unwrap_err();
    assert!(matches!(error, Error::TableInitType));
    assert_eq!(
        error.message(),
        "table initialization value does not have expected type `externref`"
    );

    let ty = TableType::new(ValType::F64, Limits::new(1, None));
    let error = Table::new(&mut here, ty, Val::F64(0)).unwrap_err();
    assert!(matches!(
        error,
        Error::UnsupportedTableElement(ValType::F64)
    ));
    assert_eq!(error.message(), "unsupported table element type: F64");

    let foreign = func(&mut there);
    let error = Table::new(&mut here, funcs(1, None), Val::FuncRef(Some(foreign))).unwrap_err();
    assert!(matches!(error, Error::CrossStoreValue));
    assert_eq!(error.message(), "cross-`Store` values are not supported");
}

#[test]
fn set_is_read_back() {
    let mut store = store();
    let table = counting(&mut store, 3);
    let other = counting(&mut store, 3);
    table.set(&mut store, 1, number(9)).unwrap();
    assert_eq!(numbers(&store, &table), vec![Some(0), Some(9), Some(2)]);
    assert_eq!(numbers(&store, &other), vec![Some(0), Some(1), Some(2)]);
    table.set(&mut store, 1, Val::ExternRef(None)).unwrap();
    assert_eq!(numbers(&store, &table), vec![Some(0), None, Some(2)]);

    let f = func(&mut store);
    let table = Table::new(&mut store, funcs(2, None), Val::FuncRef(None)).unwrap();
    table
        .set(&mut store, 0, Val::FuncRef(Some(f.clone())))
        .unwrap();
    match table.get(&store, 0) {
        Some(Val::FuncRef(Some(g))) => {
            assert_eq!(g.export.anyfunc, f.export.anyfunc);
            assert_eq!(g.store(), store.id());
        }
        _ => panic!("not the function"),
    }
    assert!(matches!(table.get(&store, 1), Some(Val::FuncRef(None))));
}

#[test]
fn set_errors() {
    let (mut here, mut there) = (store(), store());
    let table = Table::new(&mut here, funcs(2, None), Val::FuncRef(None)).unwrap();
    let error = table.set(&mut here, 2, Val::FuncRef(None)).unwrap_err();
    assert!(matches!(error, Error::TableIndex));
    assert_eq!(error.message(), "table element index out of bounds");
    // A reference of the other kind gets the same answer, also within bounds.
    let error = table.set(&mut here, 0, Val::ExternRef(None)).unwrap_err();
    assert!(matches!(error, Error::TableIndex));
    let error = table.set(&mut here, 0, Val::I32(0)).unwrap_err();
    assert!(matches!(error, Error::TableElementType));
    assert_eq!(error.message(), "value does not match table element type");
    let foreign = func(&mut there);
    let error = table
        .set(&mut here, 0, Val::FuncRef(Some(foreign)))
        .unwrap_err();
    assert!(matches!(error, Error::CrossStoreTableSet));
    assert_eq!(
        error.message(),
        "cross-`Store` values are not supported in tables"
    );
    assert!(matches!(table.get(&here, 0), Some(Val::FuncRef(None))));
    assert!(matches!(table.get(&here, 1), Some(Val::FuncRef(None))));
}

#[test]
fn grow_keeps_and_fills() {
    let mut store = store();
    let before = counting(&mut store, 1);
    let table = counting(&mut store, 2);
    let after = counting(&mut store, 1);
    assert_eq!(table.grow(&mut store, 2, number(8)).unwrap(), 2);
    assert_eq!(
        numbers(&store, &table),
        vec![Some(0), Some(1), Some(8), Some(8)]
    );
    assert_eq!(table.grow(&mut store, 0, number(9)).unwrap(), 4);
    assert_eq!(table.size(&store), 4);
    assert_eq!(table.grow(&mut store, 1, Val::ExternRef(None)).unwrap(), 4);
    assert_eq!(
        numbers(&store, &table),
        vec![Some(0), Some(1), Some(8), Some(8), None]
    );
    // The other tables of the store are as they were.
    assert_eq!(numbers(&store, &before), vec![Some(0)]);
    assert_eq!(numbers(&store, &after), vec![Some(0)]);
}

#[test]
fn grow_in_steps() {
    let mut store = store();
    let once = counting(&mut store, 2);
    let twice = counting(&mut store, 2);
    once.grow(&mut store, 3, number(5)).unwrap();
    twice.grow(&mut store, 1, number(5)).unwrap();
    twice.grow(&mut store, 2, number(5)).unwrap();
    assert_eq!(numbers(&store, &once), numbers(&store, &twice));
}

#[test]
fn grow_respects_maximum() {
    let mut store = store();
    let table = Table::new(&mut store, funcs(2, Some(3)), Val::FuncRef(None)).unwrap();
    assert_eq!(table.grow(&mut store, 1, Val::FuncRef(None)).unwrap(), 2);
    let error = table.grow(&mut store, 1, Val::FuncRef(None)).unwrap_err();
    assert!(matches!(error, Error::TableGrow(1)));
    assert_eq!(error.message(), "failed to grow table by `1`");
    assert_eq!(table.size(&store), 3);
    assert_eq!(table.grow(&mut store, 0, Val::FuncRef(None)).unwrap(), 3);

    // No table has more elements than can be indexed.
    let table = Table::new(&mut store, funcs(1, None), Val::FuncRef(None)).unwrap();
    let error = table
        .grow(&mut store, u32::MAX, Val::FuncRef(None))
        .unwrap_err();
    assert_eq!(error.message(), "failed to grow table by `4294967295`");
    assert_eq!(table.size(&store), 1);

    // A minimum above the maximum is kept, and nothing is added to it.
    let table = Table::new(&mut store, funcs(2, Some(1)), Val::FuncRef(None)).unwrap();
    assert_eq!(table.size(&store), 2);
    assert!(table.grow(&mut store, 0, Val::FuncRef(None)).is_err());
}

#[test]
fn grow_errors() {
    let (mut here, mut there) = (store(), store());
    let table = Table::new(&mut here, refs(1, None), Val::ExternRef(None)).unwrap();
    let error = table.grow(&mut here, 1, Val::FuncRef(None)).unwrap_err();
    assert!(matches!(error, Error::TableGrowInit));
    assert_eq!(error.message(), "incorrect init value for growing table");

    let table = Table::new(&mut here, funcs(1, None), Val::FuncRef(None)).unwrap();
    let error = table.grow(&mut here, 1, Val::ExternRef(None)).unwrap_err();
    assert!(matches!(error, Error::NotFuncRef));
    let foreign = func(&mut there);
    let error = table
        .grow(&mut here, 1, Val::FuncRef(Some(foreign)))
        .unwrap_err();
    assert!(matches!(error, Error::CrossStoreValue));
    assert_eq!(table.size(&here), 1);
}

#[test]
fn copy_between_tables() {
    let mut store = store();
    let dst = Table::new(&mut store, refs(4, None), Val::ExternRef(None)).unwrap();
    let src = counting(&mut store, 3);
    Table::copy(&mut store, &dst, 1, &src, 1, 2).unwrap();
    assert_eq!(numbers(&store, &dst), vec![None, Some(1), Some(2), None]);
    assert_eq!(numbers(&store, &src), vec![Some(0), Some(1), Some(2)]);
    // Nothing at the very end can be copied.
    Table::copy(&mut store, &dst, 4, &src, 3, 0).unwrap();
    assert_eq!(numbers(&store, &dst), vec![None, Some(1), Some(2), None]);
}

#[test]
fn copy_within_one_table() {
    let mut store = store();
    let up = counting(&mut store, 5);
    Table::copy(&mut store, &up, 1, &up, 0, 4).unwrap();
    assert_eq!(
        numbers(&store, &up),
        vec![Some(0), Some(0), Some(1), Some(2), Some(3)]
    );
    let down = counting(&mut store, 5);
    Table::copy(&mut store, &down, 0, &down, 1, 4).unwrap();
    assert_eq!(
        numbers(&store, &down),
        vec![Some(1), Some(2), Some(3), Some(4), Some(4)]
    );
    let same = counting(&mut store, 3);
    Table::copy(&mut store, &same, 1, &same, 1, 2).unwrap();
    assert_eq!(numbers(&store, &same), vec![Some(0), Some(1), Some(2)]);
}

#[test]
fn copy_errors() {
    let (mut here, mut there) = (store(), store());
    let a = counting(&mut here, 3);
    let b = counting(&mut here, 2);
    let error = Table::copy(&mut here, &a, 2, &b, 0, 2).unwrap_err();
    assert!(matches!(error, Error::TableOutOfBounds));
    assert_eq!(error.message(), "wasm trap: out of bounds table access");
    let error = Table::copy(&mut here, &a, 0, &b, 1, 2).unwrap_err();
    assert!(matches!(error, Error::TableOutOfBounds));
    let error = Table::copy(&mut here, &a, u32::MAX, &b, u32::MAX, u32::MAX).unwrap_err();
    assert!(matches!(error, Error::TableOutOfBounds));
    assert_eq!(numbers(&here, &a), vec![Some(0), Some(1), Some(2)]);

    let foreign = counting(&mut there, 3);
    let error = Table::copy(&mut here, &a, 0, &foreign, 0, 1).unwrap_err();
    assert!(matches!(error, Error::CrossStoreTableCopy));
    assert_eq!(
        error.message(),
        "cross-`Store` table copies are not supported"
    );
}

#[test]
fn copy_out_of_bounds_between_kinds() {
    let mut store = store();
    let a = Table::new(&mut store, refs(2, None), Val::ExternRef(None)).unwrap();
    let b = Table::new(&mut store, funcs(2, None), Val::FuncRef(None)).unwrap();
    let error = Table::copy(&mut store, &a, 0, &b, 0, 3).unwrap_err();
    assert!(matches!(error, Error::TableOutOfBounds));
    Table::copy(&mut store, &a, 0, &b, 0, 0).unwrap();
}

#[test]
fn fill_stores_one_value() {
    let mut store = store();
    let table = counting(&mut store, 4);
    table.fill(&mut store, 1, number(7), 2).unwrap();
    assert_eq!(
        numbers(&store, &table),
        vec![Some(0), Some(7), Some(7), Some(3)]
    );
    table.fill(&mut store, 4, number(8), 0).unwrap();
    table.fill(&mut store, 3, Val::ExternRef(None), 1).unwrap();
    assert_eq!(
        numbers(&store, &table),
        vec![Some(0), Some(7), Some(7), None]
    );
}

#[test]
fn fill_errors() {
    let (mut here, mut there) = (store(), store());
    let table = Table::new(&mut here, funcs(2, None), Val::FuncRef(None)).unwrap();
    let error = table.fill(&mut here, 1, Val::FuncRef(None), 2).unwrap_err();
    assert!(matches!(error, Error::TableOutOfBounds));
    assert_eq!(error.message(), "wasm trap: out of bounds table access");
    let error = table
        .fill(&mut here, u32::MAX, Val::FuncRef(None), u32::MAX)
        .unwrap_err();
    assert!(matches!(error, Error::TableOutOfBounds));
    let error = table.fill(&mut here, 3, Val::FuncRef(None), 0).unwrap_err();
    assert!(matches!(error, Error::TableOutOfBounds));

    // The wrong kind of value, of reference, and of store.
    let error = table.fill(&mut here, 0, Val::I64(0), 1).unwrap_err();
    assert!(matches!(error, Error::TableElementType));
    let error = table
        .fill(&mut here, 0, Val::ExternRef(None), 1)
        .unwrap_err();
    assert!(matches!(error, Error::TableElementType));
    let error = table
        .fill(&mut here, 0, Val::ExternRef(None), 0)
        .unwrap_err();
    assert!(matches!(error, Error::TableElementType));
    let foreign = func(&mut there);
    let error = table
        .fill(&mut here, 0, Val::FuncRef(Some(foreign)), 1)
        .unwrap_err();
    assert!(matches!(error, Error::CrossStoreTableFill));
    assert_eq!(
        error.message(),
        "cross-`Store` table fills are not supported"
    );
    assert!(matches!(table.get(&here, 0), Some(Val::FuncRef(None))));
}

#[test]
fn clones_are_the_same_table() {
    let mut store = store();
    let a = counting(&mut store, 1);
    let b = a.clone();
    b.set(&mut store, 0, number(5)).unwrap();
    b.grow(&mut store, 1, number(6)).unwrap();
    assert_eq!(numbers(&store, &a), vec![Some(5), Some(6)]);
    let c = Table::from_wasmtime_table(a.wasmtime_export, a.instance);
    assert_eq!(numbers(&store, &c), vec![Some(5), Some(6)]);
}

#[test]
fn tables_give_up_what_they_held() {
    let mut store = store();
    let data = VMExternRef::new(1u8);
    let inner = data.clone();
    let init = Val::ExternRef(Some(ExternRef { inner }));
    let table = Table::new(&mut store, refs(2, None), init.clone()).unwrap();
    assert_eq!(data.strong_count(), 4);
    table.grow(&mut store, 1, init).unwrap();
    assert_eq!(data.strong_count(), 4);
    table.fill(&mut store, 0, Val::ExternRef(None), 3).unwrap();
    assert_eq!(data.strong_count(), 1);
}
