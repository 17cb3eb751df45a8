//! Modules: the owners of function lists within a context.

use vstd::prelude::*;
use vstd::string::StringExecFns;
use vstd::string::StringSliceAdditionalSpecFns;

use crate::context::Context;
use crate::function::Function;
use crate::store::{ModuleV, Store, StoreV, ValueData, ValueDataV, ValueNode, ValueV, GLOBAL_CONTEXT};
use crate::types::FunctionType;
use crate::value::Value;
use crate::{name_bytes, name_ok, LLVMErr};

verus! {

/// The first function in `funcs` whose name the store records as `name`,
/// searched front to back.
pub open spec fn find_in(s: StoreV, funcs: Seq<usize>, name: Seq<u8>) -> Option<usize>
    decreases funcs.len(),
{
    if funcs.len() == 0 {
        None
    } else if s.func_name(funcs[0]) == name {
        Some(funcs[0])
    } else {
        find_in(s, funcs.drop_first(), name)
    }
}

/// The spec-level lookup of a function by name in a module: the first of
/// the module's functions carrying the name, absence when none does.
pub open spec fn spec_find_function(s: StoreV, m: usize, name: Seq<u8>) -> Option<usize> {
    find_in(s, s.module_funcs(m), name)
}

/// The store's canonical text for a module node: a function of the node
/// alone, so the rendering of an unmutated module never changes.
pub open spec fn spec_render_module(m: ModuleV) -> Seq<char> {
    "module; "@ + crate::spec_decimal(m.funcs.len()) + " functions"@
}

/// Searching behind a matchless prefix searches the rest.
proof fn lemma_find_in_skip(s: StoreV, funcs: Seq<usize>, name: Seq<u8>, j: int)
    requires
        0 <= j <= funcs.len(),
        forall|k: int| 0 <= k < j ==> s.func_name(#[trigger] funcs[k]) != name,
    ensures
        find_in(s, funcs, name) == find_in(s, funcs.skip(j), name),
    decreases j,
{
    if j > 0 {
        lemma_find_in_skip(s, funcs.drop_first(), name, j - 1);
        assert(funcs.drop_first().skip(j - 1) =~= funcs.skip(j));
    } else {
        assert(funcs.skip(0) =~= funcs);
    }
}

/// An exclusive handle to a module.  Consuming the wrapper with
/// [`Module::dispose`] releases the module and everything it owns,
/// exactly once.
pub struct Module {
    handle: usize,
}

impl View for Module {
    type V = usize;

    closed spec fn view(&self) -> usize {
        self.handle
    }
}

impl Module {
    /// A module wrapper names a live module.
    pub open spec fn wf(&self, s: StoreV) -> bool {
        s.module_live(self@)
    }

    pub(crate) fn raw(&self) -> (h: usize)
        ensures
            h == self@,
    {
        self.handle
    }

    /// Creates an empty module with the given name in the global context.
    /// Succeeds for every name free of terminator bytes; any other name
    /// is refused and the store is left untouched.
    pub fn new(store: &mut Store, name: &str) -> (r: Result<Module, LLVMErr>)
        requires
            old(store)@.wf(),
        ensures
            final(store)@.wf(),
            match r {
                Ok(m) => {
                    &&& name_ok(name.spec_bytes())
                    &&& m@ == old(store)@.modules.len()
                    &&& m.wf(final(store)@)
                    &&& final(store)@.modules == old(store)@.modules.push(
                        (ModuleV {
                            live: true,
                            name: name.spec_bytes(),
                            ctx: GLOBAL_CONTEXT,
                            funcs: Seq::<usize>::empty(),
                        }),
                    )
                    &&& final(store)@.contexts == old(store)@.contexts
                    &&& final(store)@.types == old(store)@.types
                    &&& final(store)@.values == old(store)@.values
                    &&& final(store)@.builders == old(store)@.builders
                },
                Err(e) => {
                    &&& e == LLVMErr::NulByte
                    &&& !name_ok(name.spec_bytes())
                    &&& final(store)@ == old(store)@
                },
            },
    {
        let bytes = match name_bytes(name) {
            Ok(b) => b,
            Err(e) => {
                return Err(e);
            },
        };
        let h = store.new_module(bytes, GLOBAL_CONTEXT);
        Ok(Module { handle: h })
    }

    /// Creates an empty module with the given name inside a specific
    /// context.  The module borrows the context and must not outlive it.
    pub fn new_in_context(store: &mut Store, name: &str, cont: &Context) -> (r: Result<
        Module,
        LLVMErr,
    >)
        requires
            old(store)@.wf(),
            cont.wf(old(store)@),
        ensures
            final(store)@.wf(),
            match r {
                Ok(m) => {
                    &&& name_ok(name.spec_bytes())
                    &&& m@ == old(store)@.modules.len()
                    &&& m.wf(final(store)@)
                    &&& final(store)@.modules == old(store)@.modules.push(
                        (ModuleV {
                            live: true,
                            name: name.spec_bytes(),
                            ctx: cont@,
                            funcs: Seq::<usize>::empty(),
                        }),
                    )
                    &&& final(store)@.contexts == old(store)@.contexts
                    &&& final(store)@.types == old(store)@.types
                    &&& final(store)@.values == old(store)@.values
                    &&& final(store)@.builders == old(store)@.builders
                },
                Err(e) => {
                    &&& e == LLVMErr::NulByte
                    &&& !name_ok(name.spec_bytes())
                    &&& final(store)@ == old(store)@
                },
            },
    {
        let bytes = match name_bytes(name) {
            Ok(b) => b,
            Err(e) => {
                return Err(e);
            },
        };
        let h = store.new_module(bytes, cont.raw());
        Ok(Module { handle: h })
    }

    /// Adds a function with the given name and signature to the end of
    /// the module's function list.  Succeeds for every name free of
    /// terminator bytes — a colliding name is kept beside the earlier
    /// one, and callers needing strict uniqueness check first with
    /// [`Module::find_function`].  A name with an embedded terminator is
    /// refused and the store is left untouched.
    pub fn add_function(&self, store: &mut Store, name: &str, tp: FunctionType) -> (r: Result<
        Function,
        LLVMErr,
    >)
        requires
            old(store)@.wf(),
            self.wf(old(store)@),
            tp.wf(old(store)@),
        ensures
            final(store)@.wf(),
            match r {
                Ok(f) => {
                    &&& name_ok(name.spec_bytes())
                    &&& f@ == old(store)@.values.len()
                    &&& f.wf(final(store)@)
                    &&& final(store)@.func_name(f@) == name.spec_bytes()
                    &&& final(store)@.func_blocks(f@) == Seq::<usize>::empty()
                    &&& final(store)@.value_ty(f@) == tp@
                    &&& final(store)@.module_funcs(self@) == old(store)@.module_funcs(self@).push(
                        f@,
                    )
                    &&& final(store)@.module_name(self@) == old(store)@.module_name(self@)
                    &&& self.wf(final(store)@)
                    &&& final(store)@.values == old(store)@.values.push(
                        (ValueV {
                            ty: tp@,
                            data: ValueDataV::Function {
                                name: name.spec_bytes(),
                                blocks: Seq::<usize>::empty(),
                            },
                        }),
                    )
                    &&& final(store)@.modules == old(store)@.modules.update(
                        self@ as int,
                        (ModuleV {
                            funcs: old(store)@.module_at(self@).funcs.push(f@),
                            ..old(store)@.module_at(self@)
                        }),
                    )
                    &&& final(store)@.contexts == old(store)@.contexts
                    &&& final(store)@.types == old(store)@.types
                    &&& final(store)@.builders == old(store)@.builders
                },
                Err(e) => {
                    &&& e == LLVMErr::NulByte
                    &&& !name_ok(name.spec_bytes())
                    &&& final(store)@ == old(store)@
                },
            },
    {
        let bytes = match name_bytes(name) {
            Ok(b) => b,
            Err(e) => {
                return Err(e);
            },
        };
        let f = store.push_value(
            ValueNode {
                ty: tp.raw(),
                data: ValueData::Function { name: bytes, blocks: Vec::new() },
            },
        );
        store.module_add_func(self.handle, f);
        Ok(Function::from_handle(f))
    }

    /// Looks the named function up.  Hands back the first function of the
    /// module carrying the name, as a generic value; absence — also for a
    /// name no store object can carry — is not an error.
    pub fn find_function(&self, store: &Store, name: &str) -> (r: Option<Value>)
        requires
            store@.wf(),
            self.wf(store@),
        ensures
            match r {
                Some(v) => {
                    &&& spec_find_function(store@, self@, name.spec_bytes()) == Some(v@)
                    &&& v.wf(store@)
                    &&& store@.is_function(v@)
                    &&& store@.func_name(v@) == name.spec_bytes()
                },
                None => {
                    &&& spec_find_function(store@, self@, name.spec_bytes()) is None
                    &&& forall|k: int|
                        0 <= k < store@.module_funcs(self@).len() ==> store@.func_name(
                            #[trigger] store@.module_funcs(self@)[k],
                        ) != name.spec_bytes()
                },
            },
    {
        let bytes: &[u8] = name.as_bytes();
        let funcs = &store.modules[self.handle].funcs;
        let n = funcs.len();
        let mut i: usize = 0;
        proof {
            assert(store@.module_wf(store@.modules[self@ as int]));
        }
        while i < n
            invariant
                store@.wf(),
                self.wf(store@),
                store@.module_wf(store@.modules[self@ as int]),
                funcs@ == store@.module_funcs(self@),
                bytes@ == name.spec_bytes(),
                n == funcs@.len(),
                i <= n,
                forall|k: int|
                    0 <= k < i ==> store@.func_name(#[trigger] funcs@[k]) != name.spec_bytes(),
            decreases n - i,
        {
            let fh = funcs[i];
            proof {
                assert(store@.is_function(fh));
                assert(store@.value_wf(store@.values[fh as int]));
            }
            let matches_name = match &store.values[fh].data {
                ValueData::Function { name: fname, .. } => bytes_eq(fname, bytes),
                _ => {
                    proof {
                        assert(false);
                    }
                    false
                },
            };
            if matches_name {
                proof {
                    lemma_find_in_skip(store@, funcs@, name.spec_bytes(), i as int);
                    assert(funcs@.skip(i as int)[0] == funcs@[i as int]);
                }
                return Some(Value::from_handle(fh));
            }
            i = i + 1;
        }
        proof {
            lemma_find_in_skip(store@, funcs@, name.spec_bytes(), n as int);
            assert(funcs@.skip(n as int) =~= Seq::<usize>::empty());
        }
        None
    }

    /// The complete, ordered list of functions the module owns right now:
    /// a live snapshot of the store, recomputed on every call.
    pub fn functions(&self, store: &Store) -> (r: Vec<Function>)
        requires
            store@.wf(),
            self.wf(store@),
        ensures
            r@.len() == store@.module_funcs(self@).len(),
            forall|k: int|
                0 <= k < r@.len() ==> (#[trigger] r@[k])@ == store@.module_funcs(self@)[k]
                    && r@[k].wf(store@),
    {
        proof {
            assert(store@.module_wf(store@.modules[self@ as int]));
        }
        let funcs = &store.modules[self.handle].funcs;
        let n = funcs.len();
        let mut r: Vec<Function> = Vec::new();
        let mut i: usize = 0;
        while i < n
            invariant
                store@.wf(),
                self.wf(store@),
                store@.module_wf(store@.modules[self@ as int]),
                funcs@ == store@.module_funcs(self@),
                n == funcs@.len(),
                i <= n,
                r@.len() == i,
                forall|k: int|
                    0 <= k < i ==> (#[trigger] r@[k])@ == funcs@[k] && r@[k].wf(store@),
            decreases n - i,
        {
            proof {
                assert(store@.is_function(funcs@[i as int]));
            }
            r.push(Function::from_handle(funcs[i]));
            i = i + 1;
        }
        r
    }

    /// The store's canonical text for the module.  Total, never empty,
    /// and a function of the node alone — repeated calls on an unmutated
    /// module agree; the exact bytes are the store's own form.
    pub fn print_to_string(&self, store: &Store) -> (r: String)
        requires
            store@.wf(),
            self.wf(store@),
        ensures
            r@ == spec_render_module(store@.module_at(self@)),
            r@.len() > 0,
    {
        proof {
            reveal_strlit("module; ");
            reveal_strlit(" functions");
        }
        let mut s = String::from_str("module; ");
        let count = crate::decimal_string(store.modules[self.handle].funcs.len() as u64);
        s.append(count.as_str());
        s.append(" functions");
        s
    }

    /// Consumes the wrapper and releases the module, with everything the
    /// store holds under it, exactly once: afterwards no wrapper for the
    /// handle is well-formed, so no verified call can touch it again.
    pub fn dispose(self, store: &mut Store)
        requires
            old(store)@.wf(),
            self.wf(old(store)@),
        ensures
            final(store)@.wf(),
            !final(store)@.module_live(self@),
            final(store)@.modules == old(store)@.modules.update(
                self@ as int,
                (ModuleV { live: false, ..old(store)@.module_at(self@) }),
            ),
            final(store)@.contexts == old(store)@.contexts,
            final(store)@.types == old(store)@.types,
            final(store)@.values == old(store)@.values,
            final(store)@.builders == old(store)@.builders,
    {
        store.dispose_module(self.handle);
    }
}

/// Compares a stored name against lookup bytes.
fn bytes_eq(a: &Vec<u8>, b: &[u8]) -> (r: bool)
    ensures
        r == (a@ == b@),
{
    let n = a.len();
    if n != b.len() {
        return false;
    }
    let mut i: usize = 0;
    while i < n
        invariant
            n == a@.len(),
            n == b@.len(),
            i <= n,
            forall|j: int| 0 <= j < i ==> a@[j] == b@[j],
        decreases n - i,
    {
        if a[i] != *vstd::slice::slice_index_get(b, i) {
            return false;
        }
        i = i + 1;
    }
    proof {
        assert(a@ =~= b@);
    }
    true
}

/// Law: function enumeration and lookup.  A module holding exactly the
/// functions `h1` then `h2`, named `n1` and `n2`, enumerates them in that
/// order; looking either name up finds its function, and looking up a
/// name no function carries reports absence.
pub proof fn lemma_function_enumeration(
    s: StoreV,
    m: usize,
    h1: usize,
    h2: usize,
    n1: Seq<u8>,
    n2: Seq<u8>,
    n3: Seq<u8>,
)
    requires
        s.module_valid(m),
        s.module_funcs(m) == seq![h1, h2],
        s.is_function(h1),
        s.is_function(h2),
        s.func_name(h1) == n1,
        s.func_name(h2) == n2,
        n1 != n2,
        n3 != n1,
        n3 != n2,
    ensures
        s.module_funcs(m).len() == 2,
        s.module_funcs(m)[0] == h1,
        s.module_funcs(m)[1] == h2,
        spec_find_function(s, m, n1) == Some(h1),
        spec_find_function(s, m, n2) == Some(h2),
        spec_find_function(s, m, n3) is None,
{
    reveal_with_fuel(find_in, 4);
    let funcs = s.module_funcs(m);
    let rest = funcs.drop_first();
    assert(funcs[0] == h1);
    assert(rest =~= seq![h2]);
    assert(rest[0] == h2);
    assert(rest.drop_first() =~= Seq::<usize>::empty());
}

/// Law: disposal is final.  Once the store no longer holds a module live,
/// no module wrapper naming that handle is well-formed, so every
/// operation that requires a well-formed module — including a second
/// disposal — is ruled out.
pub proof fn lemma_module_dispose_once(s: StoreV, h: usize)
    requires
        !s.module_live(h),
    ensures
        forall|m: Module| m@ == h ==> !m.wf(s),
{
}

} // verus!
