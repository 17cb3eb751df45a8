use llvm_facade::module::Module;
use llvm_facade::store::Store;
use llvm_facade::types::{FunctionType, Type};
use llvm_facade::LLVMErr;

#[test]
fn test_entry_bb() {
    let mut store = Store::new();
    let modl = Module::new(&mut store, "test").unwrap();
    let i32t = Type::int32(&mut store);
    let ft = FunctionType::new(&mut store, i32t, &[], false);
    let f = modl.add_function(&mut store, "testf", ft).unwrap();
    let bl = f.append_bb(&mut store, "entry").unwrap();
    assert_eq!(f.entry_bb(&store).unwrap(), bl);
}

#[test]
fn test_entry_bb_absent_without_blocks() {
    let mut store = Store::new();
    let modl = Module::new(&mut store, "test").unwrap();
    let i32t = Type::int32(&mut store);
    let ft = FunctionType::new(&mut store, i32t, &[], false);
    let f = modl.add_function(&mut store, "testf", ft).unwrap();
    assert!(f.entry_bb(&store).is_none());
    let bl = f.append_bb(&mut store, "entry").unwrap();
    assert_eq!(f.entry_bb(&store).unwrap(), bl);
}

#[test]
fn test_append_bb_name_rejection() {
    let mut store = Store::new();
    let modl = Module::new(&mut store, "test").unwrap();
    let i32t = Type::int32(&mut store);
    let ft = FunctionType::new(&mut store, i32t, &[], false);
    let f = modl.add_function(&mut store, "testf", ft).unwrap();
    let values_before = store.values.len();
    let r = f.append_bb(&mut store, "en\0try");
    assert!(matches!(r, Err(LLVMErr::NulByte)));
    assert!(f.entry_bb(&store).is_none());
    assert_eq!(store.values.len(), values_before);
}

#[test]
fn test_append_bb_keeps_colliding_names() {
    let mut store = Store::new();
    let modl = Module::new(&mut store, "test").unwrap();
    let i32t = Type::int32(&mut store);
    let ft = FunctionType::new(&mut store, i32t, &[], false);
    let f = modl.add_function(&mut store, "testf", ft).unwrap();
    let b1 = f.append_bb(&mut store, "entry").unwrap();
    let b2 = f.append_bb(&mut store, "entry").unwrap();
    assert_ne!(b1, b2);
    assert_eq!(f.entry_bb(&store).unwrap(), b1);
}
