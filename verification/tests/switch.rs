use llvm_facade::builder::IRBuilder;
use llvm_facade::module::Module;
use llvm_facade::store::Store;
use llvm_facade::switch::Switch;
use llvm_facade::types::{FunctionType, Type};
use llvm_facade::value::Value;

#[test]
fn test_default_dest() {
    let mut store = Store::new();
    let modl = Module::new(&mut store, "test").unwrap();
    let i32t = Type::int32(&mut store);
    let ft = FunctionType::new(&mut store, i32t, &[], false);
    let f = modl.add_function(&mut store, "testf", ft).unwrap();

    let _ = f.append_bb(&mut store, "entry").unwrap();
    let next_b = f.append_bb(&mut store, "other").unwrap();
    let nnext_b = f.append_bb(&mut store, "nnext").unwrap();

    let builder = IRBuilder::new(&mut store);
    let eb = f.entry_bb(&store).unwrap();
    builder.position_at_end(&mut store, eb);
    let i1 = Type::int1(&mut store);
    let zero = Value::const_int(&mut store, i1, 0);
    let one = Value::const_int(&mut store, i1, 1);
    let cases = vec![(zero, nnext_b)];

    let sw = builder.switch(&mut store, one, next_b, &cases);
    assert_eq!(next_b, sw.default_dest(&store));
}

#[test]
fn test_default_dest_is_not_a_case_dest() {
    let mut store = Store::new();
    let modl = Module::new(&mut store, "test").unwrap();
    let i32t = Type::int32(&mut store);
    let ft = FunctionType::new(&mut store, i32t, &[], false);
    let f = modl.add_function(&mut store, "testf", ft).unwrap();
    let entry = f.append_bb(&mut store, "entry").unwrap();
    let d = f.append_bb(&mut store, "default").unwrap();
    let e = f.append_bb(&mut store, "case0").unwrap();
    let builder = IRBuilder::new(&mut store);
    builder.position_at_end(&mut store, entry);
    let i1 = Type::int1(&mut store);
    let zero = Value::const_int(&mut store, i1, 0);
    let one = Value::const_int(&mut store, i1, 1);
    let sw = builder.switch(&mut store, one, d, &vec![(zero, e)]);
    // the downcast path answers the same block
    let sw2 = Switch::try_from(Value::from(sw), &store).unwrap();
    assert_eq!(sw2.default_dest(&store), d);
    assert_ne!(sw2.default_dest(&store), e);
}
