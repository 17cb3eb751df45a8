use llvm_facade::builder::IRBuilder;
use llvm_facade::module::Module;
use llvm_facade::store::Store;
use llvm_facade::types::{FunctionType, Type};
use llvm_facade::value::Value;

#[test]
fn test_insertion_block_and_position_at_end() {
    let mut store = Store::new();
    let modl = Module::new(&mut store, "test").unwrap();
    let i32t = Type::int32(&mut store);
    let ft = FunctionType::new(&mut store, i32t, &[], false);
    let f = modl.add_function(&mut store, "testf", ft).unwrap();
    let entry_b = f.append_bb(&mut store, "entry").unwrap();
    let builder = IRBuilder::new(&mut store);
    let eb = f.entry_bb(&store).unwrap();
    builder.position_at_end(&mut store, eb);
    assert_eq!(builder.insertion_block(&store).unwrap(), entry_b);
}

#[test]
fn test_function_calling() {
    let mut store = Store::new();
    let modl = Module::new(&mut store, "test").unwrap();
    let i32t = Type::int32(&mut store);
    let ft = FunctionType::new(&mut store, i32t, &[], false);
    let f = modl.add_function(&mut store, "testf", ft).unwrap();
    let ft2 = FunctionType::new(&mut store, i32t, &[], false);
    let f2 = modl.add_function(&mut store, "testf2", ft2).unwrap();
    let _ = f.append_bb(&mut store, "entry").unwrap();
    let _ = f2.append_bb(&mut store, "entry").unwrap();
    let builder = IRBuilder::new(&mut store);
    let eb = f.entry_bb(&store).unwrap();
    builder.position_at_end(&mut store, eb);
    let ten = Value::const_int(&mut store, i32t, 10);
    let call = builder.call(&mut store, f2, &[ten]);
    assert_eq!(call.called_value(&store), f2);
}

#[test]
fn test_unpositioned_builder_has_no_insertion_block() {
    let mut store = Store::new();
    let builder = IRBuilder::new(&mut store);
    assert!(builder.insertion_block(&store).is_none());
}

#[test]
fn test_tail_call_marker() {
    let mut store = Store::new();
    let modl = Module::new(&mut store, "test").unwrap();
    let i32t = Type::int32(&mut store);
    let ft = FunctionType::new(&mut store, i32t, &[], false);
    let f = modl.add_function(&mut store, "testf", ft).unwrap();
    let _ = f.append_bb(&mut store, "entry").unwrap();
    let builder = IRBuilder::new(&mut store);
    let eb = f.entry_bb(&store).unwrap();
    builder.position_at_end(&mut store, eb);
    let call = builder.call(&mut store, f, &[]);
    assert!(!call.is_tail_call(&store));
    call.set_tail_call(&mut store, true);
    assert!(call.is_tail_call(&store));
    call.set_tail_call(&mut store, false);
    assert!(!call.is_tail_call(&store));
}

#[test]
fn test_call_value_type_is_return_type() {
    let mut store = Store::new();
    let modl = Module::new(&mut store, "test").unwrap();
    let i32t = Type::int32(&mut store);
    let ft = FunctionType::new(&mut store, i32t, &[], false);
    let f = modl.add_function(&mut store, "testf", ft).unwrap();
    let _ = f.append_bb(&mut store, "entry").unwrap();
    let builder = IRBuilder::new(&mut store);
    let eb = f.entry_bb(&store).unwrap();
    builder.position_at_end(&mut store, eb);
    let call = builder.call(&mut store, f, &[]);
    let v = Value::from(call);
    assert_eq!(v.type_of(&store), i32t);
}

#[test]
fn test_terminators_append_in_order() {
    let mut store = Store::new();
    let modl = Module::new(&mut store, "test").unwrap();
    let void = Type::void(&mut store);
    let ft = FunctionType::new(&mut store, void, &[], false);
    let f = modl.add_function(&mut store, "testf", ft).unwrap();
    let b1 = f.append_bb(&mut store, "a").unwrap();
    let b2 = f.append_bb(&mut store, "b").unwrap();
    let builder = IRBuilder::new(&mut store);
    builder.position_at_end(&mut store, b1);
    let br = builder.br(&mut store, b2);
    builder.position_at_end(&mut store, b2);
    let rv = builder.ret_void(&mut store);
    assert_ne!(br, rv);
    assert_eq!(builder.insertion_block(&store).unwrap(), b2);
    let i1 = Type::int1(&mut store);
    let c = Value::const_int(&mut store, i1, 1);
    let i32t = Type::int32(&mut store);
    let ret = builder.ret(&mut store, c);
    let cbr = builder.cond_br(&mut store, c, &b1, &b2);
    assert_ne!(ret, cbr);
    let rt = Value::const_int(&mut store, i32t, 3);
    let _ = builder.ret(&mut store, rt);
}
