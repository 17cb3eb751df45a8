//! The flat classification of value nodes.

use vstd::prelude::*;

use crate::store::{Store, StoreV, ValueDataV};
use crate::value::Value;

verus! {

/// The store's flat classification of a value: which sort of node a
/// generic value handle stands for.
#[derive(Debug, PartialEq, Eq, Structural, Clone, Copy)]
pub enum ValueKind {
    NullValue,
    Argument,
    BasicBlock,
    InlineAsm,
    MDNode,
    MDString,
    BlockAddress,
    ConstantAggregateZero,
    ConstantArray,
    ConstantDataArray,
    ConstantDataVector,
    ConstantExpr,
    ConstantFP,
    ConstantInt,
    ConstantPointerNull,
    ConstantStruct,
    ConstantVector,
    Function,
    GlobalAlias,
    GlobalVariable,
    UndefValue,
    Instruction,
}

/// The kind the store reports for a value node.  A zero placeholder
/// counts as an integer constant at an integer type and as an aggregate
/// zero at any other.
pub open spec fn spec_value_kind(s: StoreV, h: usize) -> ValueKind {
    match s.value_at(h).data {
        ValueDataV::Function { .. } => ValueKind::Function,
        ValueDataV::BasicBlock { .. } => ValueKind::BasicBlock,
        ValueDataV::ConstInt { .. } => ValueKind::ConstantInt,
        ValueDataV::Undef => ValueKind::UndefValue,
        ValueDataV::ConstPointerNull => ValueKind::ConstantPointerNull,
        ValueDataV::ConstNull => if s.type_at(s.value_at(h).ty) is Integer {
            ValueKind::ConstantInt
        } else {
            ValueKind::ConstantAggregateZero
        },
        ValueDataV::Inst { .. } => ValueKind::Instruction,
    }
}

impl Value {
    /// Classifies the value by probing the store; the answer agrees with
    /// [`Value::kind`].
    pub fn classify(&self, store: &Store) -> (k: ValueKind)
        requires
            store@.wf(),
            self.wf(store@),
        ensures
            k == spec_value_kind(store@, self@),
    {
        self.kind(store)
    }
}

} // verus!
