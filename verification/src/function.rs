//! Functions: the value specialization that owns basic blocks.

use vstd::prelude::*;
use vstd::string::StringSliceAdditionalSpecFns;

use crate::basic_block::BasicBlock;
use crate::store::{Store, StoreV, TypeNode, ValueData, ValueNode};
use crate::value::Value;
use crate::value_kind::{spec_value_kind, ValueKind};
use crate::{name_bytes, name_ok, LLVMErr};

verus! {

/// A value handle whose node the store classifies as a function.
#[derive(Debug, PartialEq, Eq, Structural, Clone, Copy)]
pub struct Function {
    handle: usize,
}

impl View for Function {
    type V = usize;

    closed spec fn view(&self) -> usize {
        self.handle
    }
}

impl From<Function> for Value {
    /// The upcast: the same handle, viewed generically.  Total and free.
    fn from(other: Function) -> (v: Value) {
        Value::from_handle(other.raw())
    }
}

impl vstd::std_specs::convert::FromSpecImpl<Function> for Value {
    open spec fn obeys_from_spec() -> bool {
        true
    }

    open spec fn from_spec(f: Function) -> Value {
        Value::spec_with_handle(f@)
    }
}

/// The downcast from a generic value to a function, at the specification
/// level: the same handle, exactly when the store classifies the node as
/// a function.
pub open spec fn spec_function_downcast(s: StoreV, h: usize) -> Result<usize, ()> {
    if spec_value_kind(s, h) == ValueKind::Function {
        Ok(h)
    } else {
        Err(())
    }
}

impl Function {
    /// A function wrapper names a value node the store classifies as a
    /// function.
    pub open spec fn wf(&self, s: StoreV) -> bool {
        s.is_function(self@)
    }

    pub(crate) fn from_handle(handle: usize) -> (f: Function)
        ensures
            f@ == handle,
    {
        Function { handle }
    }

    pub(crate) fn raw(&self) -> (h: usize)
        ensures
            h == self@,
    {
        self.handle
    }

    /// The downcast from a generic value: succeeds exactly when the store
    /// classifies the node as a function, and hands the same handle back.
    /// Never mutates the store.
    pub fn try_from(other: Value, store: &Store) -> (r: Result<Function, ()>)
        requires
            store@.wf(),
            other.wf(store@),
        ensures
            match r {
                Ok(f) => spec_function_downcast(store@, other@) == Ok::<usize, ()>(f@) && f@
                    == other@ && f.wf(store@),
                Err(_) => spec_function_downcast(store@, other@) is Err,
            },
    {
        match other.kind(store) {
            ValueKind::Function => Ok(Function { handle: other.raw() }),
            _ => Err(()),
        }
    }

    /// The spec-level entry-block query: the first block when any block
    /// exists, absence otherwise.
    pub open spec fn spec_entry_block(s: StoreV, f: usize) -> Option<usize> {
        if s.func_blocks(f).len() == 0 {
            None
        } else {
            Some(s.func_blocks(f)[0])
        }
    }

    /// The function's entry block: the first of its blocks, when any
    /// exists.  A function with no body has none; that is absence, not an
    /// error.
    pub fn entry_bb(&self, store: &Store) -> (r: Option<BasicBlock>)
        requires
            store@.wf(),
            self.wf(store@),
        ensures
            match r {
                Some(b) => Self::spec_entry_block(store@, self@) == Some(b@) && b.wf(store@),
                None => Self::spec_entry_block(store@, self@) is None,
            },
    {
        proof {
            assert(store@.value_wf(store@.values[self@ as int]));
        }
        match &store.values[self.handle].data {
            ValueData::Function { blocks, .. } => {
                if blocks.len() == 0 {
                    None
                } else {
                    Some(BasicBlock::from_handle(blocks[0]))
                }
            },
            _ => {
                proof {
                    assert(false);
                }
                None
            },
        }
    }

    /// The store's canonical text for the function, as for any value.
    pub fn print_to_string(&self, store: &Store) -> (r: String)
        requires
            store@.wf(),
            self.wf(store@),
        ensures
            r@ == crate::value::spec_render_value(store@.value_at(self@).data),
            r@.len() > 0,
    {
        let v = Value::from_handle(self.raw());
        v.print_to_string(store)
    }

    /// Appends a block with the given name to the end of the function's
    /// block list.  Succeeds for every name free of terminator bytes,
    /// colliding names included — the store keeps them side by side.  A
    /// name with an embedded terminator is refused and the store is left
    /// untouched.
    pub fn append_bb(&self, store: &mut Store, name: &str) -> (r: Result<BasicBlock, LLVMErr>)
        requires
            old(store)@.wf(),
            self.wf(old(store)@),
        ensures
            final(store)@.wf(),
            match r {
                Ok(b) => {
                    &&& name_ok(name.spec_bytes())
                    &&& b@ == old(store)@.values.len()
                    &&& b.wf(final(store)@)
                    &&& self.wf(final(store)@)
                    &&& final(store)@.block_name(b@) == name.spec_bytes()
                    &&& final(store)@.block_insts(b@) == Seq::<usize>::empty()
                    &&& final(store)@.type_at(final(store)@.value_ty(b@)) is Label
                    &&& final(store)@.func_blocks(self@) == old(store)@.func_blocks(self@).push(
                        b@,
                    )
                    &&& final(store)@.func_name(self@) == old(store)@.func_name(self@)
                    &&& final(store)@.value_ty(self@) == old(store)@.value_ty(self@)
                    &&& final(store)@.values.len() == old(store)@.values.len() + 1
                    &&& forall|h: usize|
                        old(store)@.value_valid(h) && h != self@ ==> final(store)@.value_at(h)
                            == old(store)@.value_at(h)
                    &&& final(store)@.types.len() >= old(store)@.types.len()
                    &&& forall|i: int|
                        0 <= i < old(store)@.types.len() ==> final(store)@.types[i] == old(
                            store,
                        )@.types[i]
                    &&& final(store)@.contexts == old(store)@.contexts
                    &&& final(store)@.modules == old(store)@.modules
                    &&& final(store)@.builders == old(store)@.builders
                },
                Err(e) => {
                    &&& e == LLVMErr::NulByte
                    &&& !name_ok(name.spec_bytes())
                    &&& final(store)@ == old(store)@
                },
            },
    {
        let bytes = match name_bytes(name) {
            Ok(b) => b,
            Err(e) => {
                return Err(e);
            },
        };
        let lt = store.intern_type(TypeNode::Label);
        let b = store.push_value(
            ValueNode { ty: lt, data: ValueData::BasicBlock { name: bytes, insts: Vec::new() } },
        );
        store.func_add_block(self.handle, b);
        Ok(BasicBlock::from_handle(b))
    }
}

/// Law: the round trip through the generic view succeeds.  Upcasting a
/// well-formed function yields a generic value with the same underlying
/// handle, and that value passes the function downcast, coming back as
/// the original handle.
pub proof fn lemma_function_round_trip(s: StoreV, f: Function)
    requires
        f.wf(s),
    ensures
        ({
            let v = <Value as vstd::std_specs::convert::FromSpec<Function>>::from_spec(f);
            v@ == f@ && spec_function_downcast(s, v@) == Ok::<usize, ()>(f@)
        }),
{
    Value::lemma_with_handle(f@);
}

/// Law: entry-block absence.  A function with no appended blocks reports
/// no entry block; once its first block is appended, that block is the
/// entry block.
pub proof fn lemma_entry_block(s0: StoreV, s1: StoreV, f: usize, b: usize)
    requires
        s0.is_function(f),
        s0.func_blocks(f).len() == 0,
        s1.is_function(f),
        s1.func_blocks(f) == s0.func_blocks(f).push(b),
    ensures
        Function::spec_entry_block(s0, f) is None,
        Function::spec_entry_block(s1, f) == Some(b),
{
}

} // verus!
