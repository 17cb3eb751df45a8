use llvm_facade::module::Module;
use llvm_facade::store::Store;
use llvm_facade::types::{FunctionType, Type};
use llvm_facade::value::Value;

#[test]
fn test_rendering_is_nonempty_and_stable() {
    let mut store = Store::new();
    let modl = Module::new(&mut store, "test").unwrap();
    let i32t = Type::int32(&mut store);
    let ft = FunctionType::new(&mut store, i32t, &[], false);
    let f = modl.add_function(&mut store, "testf", ft).unwrap();
    let b = f.append_bb(&mut store, "entry").unwrap();

    let texts = vec![
        i32t.print_to_string(&store),
        Type::from(ft).print_to_string(&store),
        f.print_to_string(&store),
        b.print_to_string(&store),
        Value::from(f).print_to_string(&store),
        modl.print_to_string(&store),
    ];
    for t in &texts {
        assert!(!t.is_empty());
    }
    // stable across repeated calls on an unmutated node
    assert_eq!(i32t.print_to_string(&store), i32t.print_to_string(&store));
    assert_eq!(modl.print_to_string(&store), modl.print_to_string(&store));
}

#[test]
fn test_rendering_shows_width_and_constant() {
    let mut store = Store::new();
    let t = Type::integer(&mut store, 37);
    assert_eq!(t.print_to_string(&store), "i37");
    let c = Value::const_int(&mut store, t, 1024);
    assert_eq!(c.print_to_string(&store), "1024");
    let v = Type::void(&mut store);
    assert_eq!(v.print_to_string(&store), "void");
}
