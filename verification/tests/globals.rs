use externals::{
    Config, Engine, Error, ExternRef, Func, FuncType, Global, GlobalType, HeapMemoryCreator,
    Mutability, Store, Val, ValType,
};
use std::ptr::NonNull;
use wasmtime_runtime::{
    ExportFunction, VMCallerCheckedAnyfunc, VMExternRef, VMSharedSignatureIndex,
};

fn store() -> Store<HeapMemoryCreator> {
    Store::new(&Engine::new(&Config::new()))
}

fn function() -> ExportFunction {
    let record = VMCallerCheckedAnyfunc {
        func_ptr: NonNull::dangling(),
        type_index: VMSharedSignatureIndex::new(0),
        vmctx: std::ptr::null_mut(),
    };
    ExportFunction {
        anyfunc: NonNull::from(Box::leak(Box::new(record))),
    }
}

fn func(store: &mut Store<HeapMemoryCreator>) -> Func {
    Func::new(store, FuncType::new(vec![], vec![]), function())
}

fn var(content: ValType) -> GlobalType {
    GlobalType::new(content, Mutability::Var)
}

#[test]
fn numbers_are_read_back() {
    let mut store = store();
    let i32s = Global::new(&mut store, var(ValType::I32), Val::I32(-5)).unwrap();
    let i64s = Global::new(&mut store, var(ValType::I64), Val::I64(1 << 40)).unwrap();
    let f32s = Global::new(&mut store, var(ValType::F32), Val::F32(1.5f32.to_bits())).unwrap();
    let f64s = Global::new(&mut store, var(ValType::F64), Val::F64(2.5f64.to_bits())).unwrap();
    assert!(matches!(i32s.get(&store), Val::I32(-5)));
    assert!(matches!(i64s.get(&store), Val::I64(0x100_0000_0000)));
    assert!(matches!(f32s.get(&store), Val::F32(0x3fc0_0000)));
    assert!(matches!(f64s.get(&store), Val::F64(0x4004_0000_0000_0000)));

    i32s.set(&mut store, Val::I32(i32::MIN)).unwrap();
    i64s.set(&mut store, Val::I64(i64::MAX)).unwrap();
    f32s.set(&mut store, Val::F32(u32::MAX)).unwrap();
    f64s.set(&mut store, Val::F64(7)).unwrap();
    assert!(matches!(i32s.get(&store), Val::I32(i32::MIN)));
    assert!(matches!(i64s.get(&store), Val::I64(i64::MAX)));
    assert!(matches!(f32s.get(&store), Val::F32(u32::MAX)));
    assert!(matches!(f64s.get(&store), Val::F64(7)));
}

#[test]
fn vectors_are_read_back() {
    let mut store = store();
    let global = Global::new(&mut store, var(ValType::V128), Val::V128(1 << 100)).unwrap();
    match global.get(&store) {
        Val::V128(v) => assert_eq!(v, 1 << 100),
        _ => panic!("not a vector"),
    }
    global.set(&mut store, Val::V128(u128::MAX)).unwrap();
    assert!(matches!(global.get(&store), Val::V128(u128::MAX)));
    let constant = GlobalType::new(ValType::V128, Mutability::Const);
    let global = Global::new(&mut store, constant, Val::V128(7)).unwrap();
    assert!(global.set(&mut store, Val::V128(8)).is_err());
    assert!(matches!(global.get(&store), Val::V128(7)));
}

#[test]
fn host_references_are_read_back() {
    let mut store = store();
    let ty = var(ValType::ExternRef);
    let global = Global::new(&mut store, ty, Val::ExternRef(None)).unwrap();
    assert!(matches!(global.get(&store), Val::ExternRef(None)));

    let data = VMExternRef::new(42u8);
    let inner = data.clone();
    assert_eq!(data.strong_count(), 2);
    global
        .set(&mut store, Val::ExternRef(Some(ExternRef { inner })))
        .unwrap();
    match global.get(&store) {
        Val::ExternRef(Some(x)) => {
            assert!(VMExternRef::eq(&x.inner, &data));
            assert_eq!((*x.inner).downcast_ref::<u8>(), Some(&42));
        }
        _ => panic!("not a host reference"),
    }

    // Setting the global gives up the reference that it held.
    assert_eq!(data.strong_count(), 2);
    global.set(&mut store, Val::ExternRef(None)).unwrap();
    assert_eq!(data.strong_count(), 1);
    assert!(matches!(global.get(&store), Val::ExternRef(None)));
}

#[test]
fn function_references_are_read_back() {
    let mut store = store();
    let ty = var(ValType::FuncRef);
    let (a, b) = (func(&mut store), func(&mut store));
    let global = Global::new(&mut store, ty, Val::FuncRef(Some(a.clone()))).unwrap();
    match global.get(&store) {
        Val::FuncRef(Some(f)) => {
            assert_eq!(f.export.anyfunc, a.export.anyfunc);
            assert_eq!(f.store(), store.id());
        }
        _ => panic!("not a function"),
    }
    global
        .set(&mut store, Val::FuncRef(Some(b.clone())))
        .unwrap();
    match global.get(&store) {
        Val::FuncRef(Some(f)) => assert_eq!(f.export.anyfunc, b.export.anyfunc),
        _ => panic!("not a function"),
    }
    global.set(&mut store, Val::FuncRef(None)).unwrap();
    assert!(matches!(global.get(&store), Val::FuncRef(None)));
}

#[test]
fn types_of_globals() {
    let mut store = store();
    let constant = GlobalType::new(ValType::V128, Mutability::Const);
    let global = Global::new(&mut store, constant, Val::V128(1)).unwrap();
    assert_eq!(global.ty(), constant);
    assert_eq!(global.val_type(), ValType::V128);
    assert_eq!(global.mutability(), Mutability::Const);

    let global = Global::new(&mut store, var(ValType::I64), Val::I64(0)).unwrap();
    assert_eq!(global.ty(), var(ValType::I64));
    assert_eq!(global.val_type(), ValType::I64);
    assert_eq!(global.mutability(), Mutability::Var);
}

#[test]
fn setting_one_global_leaves_the_others() {
    let mut store = store();
    let a = Global::new(&mut store, var(ValType::I32), Val::I32(1)).unwrap();
    let b = Global::new(&mut store, var(ValType::I32), Val::I32(2)).unwrap();
    a.set(&mut store, Val::I32(3)).unwrap();
    assert!(matches!(a.get(&store), Val::I32(3)));
    assert!(matches!(b.get(&store), Val::I32(2)));
}

#[test]
fn clones_are_the_same_global() {
    let mut store = store();
    let a = Global::new(&mut store, var(ValType::I32), Val::I32(1)).unwrap();
    let b = a.clone();
    b.set(&mut store, Val::I32(9)).unwrap();
    assert!(matches!(a.get(&store), Val::I32(9)));
    let c = Global::from_wasmtime_global(a.wasmtime_export, a.instance);
    assert!(matches!(c.get(&store), Val::I32(9)));
}

#[test]
fn constant_global_cannot_be_set() {
    let mut store = store();
    let ty = GlobalType::new(ValType::I32, Mutability::Const);
    let global = Global::new(&mut store, ty, Val::I32(1)).unwrap();
    let error = global.set(&mut store, Val::I32(2)).unwrap_err();
    assert!(matches!(error, Error::ImmutableGlobal));
    assert_eq!(error.message(), "immutable global cannot be set");
    // The mutability is looked at before the type.
    let error = global.set(&mut store, Val::I64(2)).unwrap_err();
    assert!(matches!(error, Error::ImmutableGlobal));
    assert!(matches!(global.get(&store), Val::I32(1)));
}

#[test]
fn global_of_another_type() {
    let mut store = store();
    let error = match Global::new(&mut store, var(ValType::I32), Val::I64(1)) {
        Err(error) => error,
        Ok(_) => panic!("made"),
    };
    assert!(matches!(error, Error::GlobalType));
    assert_eq!(
        error.message(),
        "value provided does not match the type of this global"
    );

    let global = Global::new(&mut store, var(ValType::I32), Val::I32(1)).unwrap();
    let error = global.set(&mut store, Val::FuncRef(None)).unwrap_err();
    assert!(matches!(
        error,
        Error::GlobalSetType {
            global: ValType::I32,
            val: ValType::FuncRef
        }
    ));
    assert_eq!(
        error.message(),
        format!(
            "global of type {:?} cannot be set to {:?}",
            ValType::I32,
            ValType::FuncRef
        )
    );
    assert!(matches!(global.get(&store), Val::I32(1)));
}

#[test]
fn functions_of_another_store_are_refused() {
    let (mut here, mut there) = (store(), store());
    let foreign = func(&mut there);
    let ty = var(ValType::FuncRef);
    let error = match Global::new(&mut here, ty, Val::FuncRef(Some(foreign.clone()))) {
        Err(error) => error,
        Ok(_) => panic!("made"),
    };
    assert!(matches!(error, Error::CrossStoreGlobal));
    assert_eq!(
        error.message(),
        "cross-`Store` globals are not supported"
    );

    let global = Global::new(&mut here, ty, Val::FuncRef(None)).unwrap();
    let error = global
        .set(&mut here, Val::FuncRef(Some(foreign)))
        .unwrap_err();
    assert!(matches!(error, Error::CrossStoreValue));
    assert_eq!(error.message(), "cross-`Store` values are not supported");
    assert!(matches!(global.get(&here), Val::FuncRef(None)));
}

#[test]
fn stores_are_told_apart() {
    let (a, b) = (store(), store());
    assert!(Store::same(&a, &a));
    assert!(!Store::same(&a, &b));
    assert_ne!(a.id(), b.id());
}
