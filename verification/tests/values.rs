use llvm_facade::basic_block::BasicBlock;
use llvm_facade::builder::IRBuilder;
use llvm_facade::function::Function;
use llvm_facade::function_call::FunctionCall;
use llvm_facade::module::Module;
use llvm_facade::store::Store;
use llvm_facade::switch::Switch;
use llvm_facade::types::{FunctionType, Type};
use llvm_facade::value::Value;
use llvm_facade::value_kind::ValueKind;

#[test]
fn test_round_trip_function_and_block() {
    let mut store = Store::new();
    let modl = Module::new(&mut store, "test").unwrap();
    let i32t = Type::int32(&mut store);
    let ft = FunctionType::new(&mut store, i32t, &[], false);
    let f = modl.add_function(&mut store, "testf", ft).unwrap();
    let b = f.append_bb(&mut store, "entry").unwrap();

    let fv = Value::from(f);
    assert_eq!(fv.kind(&store), ValueKind::Function);
    assert_eq!(Function::try_from(fv, &store).unwrap(), f);

    let bv = Value::from(b);
    assert_eq!(bv.kind(&store), ValueKind::BasicBlock);
    assert_eq!(bv.classify(&store), ValueKind::BasicBlock);
    assert_eq!(BasicBlock::try_from(bv, &store).unwrap(), b);
}

#[test]
fn test_round_trip_call_and_switch() {
    let mut store = Store::new();
    let modl = Module::new(&mut store, "test").unwrap();
    let i32t = Type::int32(&mut store);
    let ft = FunctionType::new(&mut store, i32t, &[], false);
    let f = modl.add_function(&mut store, "testf", ft).unwrap();
    let entry = f.append_bb(&mut store, "entry").unwrap();
    let other = f.append_bb(&mut store, "other").unwrap();
    let builder = IRBuilder::new(&mut store);
    builder.position_at_end(&mut store, entry);

    let call = builder.call(&mut store, f, &[]);
    let cv = Value::from(call);
    assert_eq!(cv.kind(&store), ValueKind::Instruction);
    assert_eq!(FunctionCall::try_from(cv, &store).unwrap(), call);

    let one = Value::const_int(&mut store, i32t, 1);
    let sw = builder.switch(&mut store, one, other, &vec![]);
    let sv = Value::from(sw);
    assert_eq!(sv.kind(&store), ValueKind::Instruction);
    assert_eq!(Switch::try_from(sv, &store).unwrap(), sw);
}

#[test]
fn test_downcasts_reject_wrong_kind() {
    let mut store = Store::new();
    let modl = Module::new(&mut store, "test").unwrap();
    let i32t = Type::int32(&mut store);
    let ft = FunctionType::new(&mut store, i32t, &[], false);
    let f = modl.add_function(&mut store, "testf", ft).unwrap();
    let entry = f.append_bb(&mut store, "entry").unwrap();
    let builder = IRBuilder::new(&mut store);
    builder.position_at_end(&mut store, entry);

    // a constant fails all four downcasts
    let c = Value::const_int(&mut store, i32t, 42);
    assert!(Function::try_from(c, &store).is_err());
    assert!(BasicBlock::try_from(c, &store).is_err());
    assert!(FunctionCall::try_from(c, &store).is_err());
    assert!(Switch::try_from(c, &store).is_err());

    // an undef placeholder fails all four downcasts
    let u = Value::undef(&mut store, i32t);
    assert!(Function::try_from(u, &store).is_err());
    assert!(BasicBlock::try_from(u, &store).is_err());
    assert!(FunctionCall::try_from(u, &store).is_err());
    assert!(Switch::try_from(u, &store).is_err());

    // a non-call, non-switch instruction fails all four downcasts
    let rv = builder.ret_void(&mut store);
    assert_eq!(rv.kind(&store), ValueKind::Instruction);
    assert!(Function::try_from(rv, &store).is_err());
    assert!(BasicBlock::try_from(rv, &store).is_err());
    assert!(FunctionCall::try_from(rv, &store).is_err());
    assert!(Switch::try_from(rv, &store).is_err());

    // a block fails the other three
    let bv = Value::from(entry);
    assert!(Function::try_from(bv, &store).is_err());
    assert!(FunctionCall::try_from(bv, &store).is_err());
    assert!(Switch::try_from(bv, &store).is_err());

    // a function fails the other three
    let fv = Value::from(f);
    assert!(BasicBlock::try_from(fv, &store).is_err());
    assert!(FunctionCall::try_from(fv, &store).is_err());
    assert!(Switch::try_from(fv, &store).is_err());
}

#[test]
fn test_constant_kinds_and_types() {
    let mut store = Store::new();
    let i32t = Type::int32(&mut store);

    let c = Value::const_int(&mut store, i32t, 7);
    assert_eq!(c.kind(&store), ValueKind::ConstantInt);
    assert_eq!(c.type_of(&store), i32t);

    let u = Value::undef(&mut store, i32t);
    assert_eq!(u.kind(&store), ValueKind::UndefValue);
    assert_eq!(u.type_of(&store), i32t);

    let z = Value::const_null(&mut store, i32t);
    assert_eq!(z.kind(&store), ValueKind::ConstantInt);
    assert_eq!(z.type_of(&store), i32t);

    let p = Value::const_pointer_null(&mut store, i32t);
    assert_eq!(p.kind(&store), ValueKind::ConstantPointerNull);
    assert_eq!(p.type_of(&store), i32t);

    let void = Type::void(&mut store);
    let zv = Value::const_null(&mut store, void);
    assert_eq!(zv.kind(&store), ValueKind::ConstantAggregateZero);
}

#[test]
fn test_constants_are_interned() {
    let mut store = Store::new();
    let i32t = Type::int32(&mut store);
    let i8t = Type::int8(&mut store);

    // one node per (type, payload): repeated construction yields the
    // identical handle, so identity comparison of constants is equality
    assert_eq!(Value::const_int(&mut store, i32t, 7), Value::const_int(&mut store, i32t, 7));
    assert_ne!(Value::const_int(&mut store, i32t, 7), Value::const_int(&mut store, i32t, 8));
    assert_ne!(Value::const_int(&mut store, i32t, 7), Value::const_int(&mut store, i8t, 7));

    assert_eq!(Value::undef(&mut store, i32t), Value::undef(&mut store, i32t));
    assert_ne!(Value::undef(&mut store, i32t), Value::undef(&mut store, i8t));
    assert_eq!(Value::const_null(&mut store, i32t), Value::const_null(&mut store, i32t));
    assert_eq!(
        Value::const_pointer_null(&mut store, i32t),
        Value::const_pointer_null(&mut store, i32t)
    );
    assert_ne!(Value::const_null(&mut store, i32t), Value::undef(&mut store, i32t));

    let values_before = store.values.len();
    let _ = Value::const_int(&mut store, i32t, 7);
    // the repeated construction allocated nothing
    assert_eq!(store.values.len(), values_before);
}
