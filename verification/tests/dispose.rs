use llvm_facade::builder::IRBuilder;
use llvm_facade::context::Context;
use llvm_facade::module::Module;
use llvm_facade::store::Store;

#[test]
fn test_context_dispose() {
    let mut store = Store::new();
    let contexts_before = store.contexts.len();
    let c = Context::new(&mut store);
    c.dispose(&mut store);
    // the context's slot is dead; nothing else moved
    assert_eq!(store.contexts.len(), contexts_before + 1);
    assert!(!store.contexts[contexts_before]);
}

#[test]
fn test_global_context_is_not_disposed() {
    let mut store = Store::new();
    let g = Context::global();
    g.dispose(&mut store);
    // the global context stays live
    assert!(store.contexts[0]);
    let g2 = Context::global();
    g2.dispose(&mut store);
    assert!(store.contexts[0]);
}

#[test]
fn test_module_dispose() {
    let mut store = Store::new();
    let m = Module::new(&mut store, "test").unwrap();
    m.dispose(&mut store);
    assert_eq!(store.modules.len(), 1);
    assert!(!store.modules[0].live);
}

#[test]
fn test_builder_dispose() {
    let mut store = Store::new();
    let b = IRBuilder::new(&mut store);
    b.dispose(&mut store);
    assert_eq!(store.builders.len(), 1);
    assert!(!store.builders[0].live);
}

#[test]
fn test_module_in_context() {
    let mut store = Store::new();
    let c = Context::new(&mut store);
    let m = Module::new_in_context(&mut store, "test", &c).unwrap();
    let b = IRBuilder::new_in_context(&mut store, &c);
    b.dispose(&mut store);
    m.dispose(&mut store);
    c.dispose(&mut store);
    assert_eq!(store.modules.len(), 1);
    assert_eq!(store.builders.len(), 1);
}
