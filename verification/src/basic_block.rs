//! Basic blocks: the value specialization that owns instructions.

use vstd::prelude::*;

use crate::store::{Store, StoreV};
use crate::value::Value;
use crate::value_kind::{spec_value_kind, ValueKind};

verus! {

/// A value handle whose node the store classifies as a basic block.  The
/// store defines the bijection between "value viewed as block" and "block
/// viewed as value": both directions keep the handle.
#[derive(Debug, PartialEq, Eq, Structural, Clone, Copy)]
pub struct BasicBlock {
    handle: usize,
}

impl View for BasicBlock {
    type V = usize;

    closed spec fn view(&self) -> usize {
        self.handle
    }
}

impl From<BasicBlock> for Value {
    /// The upcast: the same handle, viewed generically.  Total and free.
    fn from(other: BasicBlock) -> (v: Value) {
        Value::from_handle(other.raw())
    }
}

impl vstd::std_specs::convert::FromSpecImpl<BasicBlock> for Value {
    open spec fn obeys_from_spec() -> bool {
        true
    }

    open spec fn from_spec(b: BasicBlock) -> Value {
        Value::spec_with_handle(b@)
    }
}

/// The downcast from a generic value to a basic block, at the
/// specification level: the same handle, exactly when the store
/// classifies the node as a basic block.
pub open spec fn spec_basic_block_downcast(s: StoreV, h: usize) -> Result<usize, ()> {
    if spec_value_kind(s, h) == ValueKind::BasicBlock {
        Ok(h)
    } else {
        Err(())
    }
}

impl BasicBlock {
    /// A block wrapper names a value node the store classifies as a basic
    /// block.
    pub open spec fn wf(&self, s: StoreV) -> bool {
        s.is_basic_block(self@)
    }

    pub(crate) fn from_handle(handle: usize) -> (b: BasicBlock)
        ensures
            b@ == handle,
    {
        BasicBlock { handle }
    }

    pub(crate) fn raw(&self) -> (h: usize)
        ensures
            h == self@,
    {
        self.handle
    }

    /// The store's canonical text for the block, as for any value.
    pub fn print_to_string(&self, store: &Store) -> (r: String)
        requires
            store@.wf(),
            self.wf(store@),
        ensures
            r@ == crate::value::spec_render_value(store@.value_at(self@).data),
            r@.len() > 0,
    {
        let v = Value::from_handle(self.raw());
        v.print_to_string(store)
    }

    /// The downcast from a generic value: succeeds exactly when the store
    /// classifies the node as a basic block, and hands the same handle
    /// back.  Never mutates the store.
    pub fn try_from(other: Value, store: &Store) -> (r: Result<BasicBlock, ()>)
        requires
            store@.wf(),
            other.wf(store@),
        ensures
            match r {
                Ok(b) => spec_basic_block_downcast(store@, other@) == Ok::<usize, ()>(b@) && b@
                    == other@ && b.wf(store@),
                Err(_) => spec_basic_block_downcast(store@, other@) is Err,
            },
    {
        match other.classify(store) {
            ValueKind::BasicBlock => Ok(BasicBlock { handle: other.raw() }),
            _ => Err(()),
        }
    }
}

/// Law: the round trip through the generic view succeeds.  Upcasting a
/// well-formed basic block yields a generic value with the same
/// underlying handle, and that value passes the basic-block downcast,
/// coming back as the original handle.
pub proof fn lemma_basic_block_round_trip(s: StoreV, b: BasicBlock)
    requires
        b.wf(s),
    ensures
        ({
            let v = <Value as vstd::std_specs::convert::FromSpec<BasicBlock>>::from_spec(b);
            v@ == b@ && spec_basic_block_downcast(s, v@) == Ok::<usize, ()>(b@)
        }),
{
    Value::lemma_with_handle(b@);
}

} // verus!
