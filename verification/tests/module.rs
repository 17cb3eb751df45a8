use llvm_facade::module::Module;
use llvm_facade::store::Store;
use llvm_facade::types::{FunctionType, Type};
use llvm_facade::LLVMErr;

#[test]
fn test_add_function() {
    let mut store = Store::new();
    let modl = Module::new(&mut store, "test").unwrap();
    let i32t = Type::int32(&mut store);
    let ft = FunctionType::new(&mut store, i32t, &[], false);
    let _ = modl.add_function(&mut store, "testf", ft).unwrap();
    assert!(modl.find_function(&store, "testf").is_some());
    let ft2 = FunctionType::new(&mut store, i32t, &[], false);
    let _ = modl.add_function(&mut store, "testf2", ft2).unwrap();

    assert_eq!(modl.functions(&store).len(), 2);
}

#[test]
fn test_function_enumeration_order() {
    let mut store = Store::new();
    let modl = Module::new(&mut store, "test").unwrap();
    let i32t = Type::int32(&mut store);
    let ft = FunctionType::new(&mut store, i32t, &[], false);
    let f1 = modl.add_function(&mut store, "f1", ft).unwrap();
    let f2 = modl.add_function(&mut store, "f2", ft).unwrap();
    let fs = modl.functions(&store);
    assert_eq!(fs.len(), 2);
    assert_eq!(fs[0], f1);
    assert_eq!(fs[1], f2);
    assert!(modl.find_function(&store, "f1").is_some());
    assert!(modl.find_function(&store, "f2").is_some());
    assert!(modl.find_function(&store, "f3").is_none());
}

#[test]
fn test_module_name_rejection() {
    let mut store = Store::new();
    assert!(matches!(Module::new(&mut store, "bad\0name"), Err(LLVMErr::NulByte)));
    assert_eq!(store.modules.len(), 0);
}

#[test]
fn test_add_function_name_rejection() {
    let mut store = Store::new();
    let modl = Module::new(&mut store, "test").unwrap();
    let i32t = Type::int32(&mut store);
    let ft = FunctionType::new(&mut store, i32t, &[], false);
    let _ = modl.add_function(&mut store, "good", ft).unwrap();
    let r = modl.add_function(&mut store, "ba\0d", ft);
    assert!(matches!(r, Err(LLVMErr::NulByte)));
    // the rejected call performed no store mutation
    assert_eq!(modl.functions(&store).len(), 1);
    assert!(modl.find_function(&store, "ba\0d").is_none());
}

#[test]
fn test_find_function_first_of_colliding_names() {
    let mut store = Store::new();
    let modl = Module::new(&mut store, "test").unwrap();
    let i32t = Type::int32(&mut store);
    let ft = FunctionType::new(&mut store, i32t, &[], false);
    let f1 = modl.add_function(&mut store, "dup", ft).unwrap();
    let _f2 = modl.add_function(&mut store, "dup", ft).unwrap();
    assert_eq!(modl.functions(&store).len(), 2);
    let found = modl.find_function(&store, "dup").unwrap();
    assert_eq!(found, llvm_facade::value::Value::from(f1));
}
