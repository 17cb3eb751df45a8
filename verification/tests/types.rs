use llvm_facade::store::Store;
use llvm_facade::types::{FunctionType, Type, TypeKind};

#[test]
fn test_params() {
    let mut store = Store::new();
    let void = Type::void(&mut store);
    let i32t = Type::int32(&mut store);
    let i8t = Type::int8(&mut store);
    let f = FunctionType::new(&mut store, void, &[i32t, i8t], true);
    let pars = f.params(&store);
    assert_eq!(pars.len(), 2);
    assert_eq!(pars[0], Type::int32(&mut store));
    assert_eq!(pars[1], Type::int8(&mut store));
}

#[test]
fn test_return_type() {
    let mut store = Store::new();
    let void = Type::void(&mut store);
    let f = FunctionType::new(&mut store, void, &[], true);
    let ret = f.return_type(&store);
    assert_eq!(ret, Type::void(&mut store));
}

#[test]
fn test_is_vararg() {
    let mut store = Store::new();
    let i32t = Type::int32(&mut store);
    let f = FunctionType::new(&mut store, i32t, &[], true);
    assert!(f.is_vararg(&store));
    let f = FunctionType::new(&mut store, i32t, &[], false);
    assert!(!f.is_vararg(&store));
}

#[test]
fn test_type_kind() {
    let mut store = Store::new();
    let i32t = Type::int32(&mut store);
    assert_eq!(i32t.kind(&store), TypeKind::Integer);
    let ft = FunctionType::new(&mut store, i32t, &[], false);
    assert_eq!(Type::from(ft).kind(&store), TypeKind::Function);
}

#[test]
fn test_integer_types_are_interned() {
    let mut store = Store::new();
    let a = Type::integer(&mut store, 7);
    let b = Type::integer(&mut store, 7);
    assert_eq!(a, b);
    assert_ne!(a, Type::integer(&mut store, 8));
    assert_eq!(Type::int64(&mut store), Type::integer(&mut store, 64));
    assert_eq!(Type::void(&mut store), Type::void(&mut store));
}

#[test]
fn test_is_sized() {
    let mut store = Store::new();
    let i1 = Type::int1(&mut store);
    let i128t = Type::int128(&mut store);
    let i16t = Type::int16(&mut store);
    assert!(i1.is_sized(&store));
    assert!(i16t.is_sized(&store));
    assert!(i128t.is_sized(&store));
    let void = Type::void(&mut store);
    assert!(!void.is_sized(&store));
    let ft = FunctionType::new(&mut store, void, &[], false);
    assert!(!Type::from(ft).is_sized(&store));
}

#[test]
fn test_function_type_downcast() {
    let mut store = Store::new();
    let void = Type::void(&mut store);
    let i8t = Type::int8(&mut store);
    let ft = FunctionType::new(&mut store, void, &[i8t], false);
    let generic = Type::from(ft);
    assert_eq!(generic.kind(&store), TypeKind::Function);
    let back = FunctionType::try_from(generic, &store).unwrap();
    assert_eq!(back.params(&store), vec![i8t]);
    assert_eq!(back.return_type(&store), void);
    assert!(!back.is_vararg(&store));
    assert!(FunctionType::try_from(i8t, &store).is_err());
    assert!(FunctionType::try_from(void, &store).is_err());
}
