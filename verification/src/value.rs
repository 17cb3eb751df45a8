//! Generic values: every IR entity below the type level — functions,
//! basic blocks, constants, instructions — seen through one handle type.

use vstd::prelude::*;
use vstd::string::StringExecFns;

use crate::store::{InstV, Store, StoreV, TypeNode, ValueData, ValueDataV, ValueNode, ValueV};
use crate::types::Type;
use crate::value_kind::{spec_value_kind, ValueKind};

verus! {

/// The instruction-level classification of an instruction value.  Both
/// branch forms share one opcode, as the store classifies them.
#[derive(Debug, PartialEq, Eq, Structural, Clone, Copy)]
pub enum Opcode {
    Ret,
    Br,
    Switch,
    Call,
}

/// The opcode the store reports for an instruction.
pub open spec fn spec_opcode(i: InstV) -> Opcode {
    match i {
        InstV::RetVoid => Opcode::Ret,
        InstV::Ret { .. } => Opcode::Ret,
        InstV::Br { .. } => Opcode::Br,
        InstV::CondBr { .. } => Opcode::Br,
        InstV::Switch { .. } => Opcode::Switch,
        InstV::Call { .. } => Opcode::Call,
    }
}

/// The store's canonical text for a value node: a function of the node
/// alone, so the rendering of an unmutated node never changes.
pub open spec fn spec_render_value(d: ValueDataV) -> Seq<char> {
    match d {
        ValueDataV::Function { .. } => "function"@,
        ValueDataV::BasicBlock { .. } => "block"@,
        ValueDataV::ConstInt { bits } => crate::spec_decimal(bits as nat),
        ValueDataV::Undef => "undef"@,
        ValueDataV::ConstNull => "null"@,
        ValueDataV::ConstPointerNull => "null"@,
        ValueDataV::Inst { inst } => match inst {
            InstV::RetVoid => "ret"@,
            InstV::Ret { .. } => "ret"@,
            InstV::Br { .. } => "br"@,
            InstV::CondBr { .. } => "br"@,
            InstV::Switch { .. } => "switch"@,
            InstV::Call { .. } => "call"@,
        },
    }
}

/// Holds when `s1` is `s0` after interning the constant node `node`, with
/// `h` the handle handed out: the store keeps one node per deduplicated
/// constant, so `h` is the handle of `node` in `s1`, any earlier node
/// with this type and payload is that same handle, at most one node was
/// appended, and no other table moved.
pub open spec fn interns_value(s0: StoreV, s1: StoreV, h: usize, node: ValueV) -> bool {
    &&& s1.wf()
    &&& s1.value_valid(h)
    &&& s1.value_at(h) == node
    &&& forall|g: usize| s0.value_valid(g) && s0.value_at(g) == node ==> g == h
    &&& (exists|g: usize| s0.value_valid(g) && s0.value_at(g) == node) ==> s1 == s0
    &&& s1.values.len() >= s0.values.len()
    &&& s1.values.len() <= s0.values.len() + 1
    &&& forall|i: int| 0 <= i < s0.values.len() ==> s1.values[i] == s0.values[i]
    &&& s1.contexts == s0.contexts
    &&& s1.modules == s0.modules
    &&& s1.types == s0.types
    &&& s1.builders == s0.builders
}

/// Law: constant construction memoizes.  Constructing the same constant
/// twice — the same type handle and the same payload — hands the same
/// handle back, and the second construction leaves the store unchanged,
/// so identity comparison of constants is equality of what they hold.
pub proof fn lemma_constant_interning(
    s0: StoreV,
    s1: StoreV,
    s2: StoreV,
    h1: usize,
    h2: usize,
    node: ValueV,
)
    requires
        interns_value(s0, s1, h1, node),
        interns_value(s1, s2, h2, node),
    ensures
        h2 == h1,
        s2 == s1,
{
    assert(s1.value_valid(h1) && s1.value_at(h1) == node);
}

/// A generic value handle.  Values are owned by their enclosing function,
/// module or context; the wrapper is a view, never an owner.
#[derive(Debug, PartialEq, Eq, Structural, Clone, Copy, Hash)]
pub struct Value {
    handle: usize,
}

impl View for Value {
    type V = usize;

    closed spec fn view(&self) -> usize {
        self.handle
    }
}

impl Value {
    /// The value wrapper with a given handle, at the specification level.
    pub closed spec fn spec_with_handle(h: usize) -> Value {
        Value { handle: h }
    }

    /// The wrapper built around a handle carries exactly that handle.
    pub proof fn lemma_with_handle(h: usize)
        ensures
            Value::spec_with_handle(h)@ == h,
    {
    }

    /// A value wrapper names a value node of the store.
    pub open spec fn wf(&self, s: crate::store::StoreV) -> bool {
        s.value_valid(self@)
    }

    pub(crate) fn from_handle(handle: usize) -> (v: Value)
        ensures
            v@ == handle,
            v == Value::spec_with_handle(handle),
    {
        Value { handle }
    }

    pub(crate) fn raw(&self) -> (h: usize)
        ensures
            h == self@,
    {
        self.handle
    }

    /// The store's flat classification of this value.  Total: every valid
    /// value handle has a kind.
    pub fn kind(&self, store: &Store) -> (k: ValueKind)
        requires
            store@.wf(),
            self.wf(store@),
        ensures
            k == spec_value_kind(store@, self@),
    {
        proof {
            assert(store@.value_wf(store@.values[self@ as int]));
        }
        match &store.values[self.handle].data {
            ValueData::Function { .. } => ValueKind::Function,
            ValueData::BasicBlock { .. } => ValueKind::BasicBlock,
            ValueData::ConstInt { .. } => ValueKind::ConstantInt,
            ValueData::Undef => ValueKind::UndefValue,
            ValueData::ConstPointerNull => ValueKind::ConstantPointerNull,
            ValueData::ConstNull => {
                match &store.types[store.values[self.handle].ty] {
                    TypeNode::Integer { .. } => ValueKind::ConstantInt,
                    _ => ValueKind::ConstantAggregateZero,
                }
            },
            ValueData::Inst { .. } => ValueKind::Instruction,
        }
    }

    /// The instruction-level classification.  Meaningful for instruction
    /// values only: a non-instruction value has a kind but no opcode.
    pub fn opcode(&self, store: &Store) -> (o: Opcode)
        requires
            store@.wf(),
            store@.is_inst(self@),
        ensures
            o == spec_opcode(store@.inst_of(self@)),
    {
        match &store.values[self.handle].data {
            ValueData::Inst { inst } => {
                match inst {
                    crate::store::InstNode::RetVoid => Opcode::Ret,
                    crate::store::InstNode::Ret { .. } => Opcode::Ret,
                    crate::store::InstNode::Br { .. } => Opcode::Br,
                    crate::store::InstNode::CondBr { .. } => Opcode::Br,
                    crate::store::InstNode::Switch { .. } => Opcode::Switch,
                    crate::store::InstNode::Call { .. } => Opcode::Call,
                }
            },
            _ => {
                proof {
                    assert(false);
                }
                Opcode::Ret
            },
        }
    }

    /// The type the store records for this value.  Total.
    pub fn type_of(&self, store: &Store) -> (t: Type)
        requires
            store@.wf(),
            self.wf(store@),
        ensures
            t@ == store@.value_ty(self@),
            t.wf(store@),
    {
        proof {
            assert(store@.value_wf(store@.values[self@ as int]));
        }
        Type::from_handle(store.values[self.handle].ty)
    }

    /// The store's canonical text for the value.  Total, never empty, and
    /// a function of the node alone — repeated calls on an unmutated node
    /// agree; the exact bytes are the store's own form.
    pub fn print_to_string(&self, store: &Store) -> (r: String)
        requires
            store@.wf(),
            self.wf(store@),
        ensures
            r@ == spec_render_value(store@.value_at(self@).data),
            r@.len() > 0,
    {
        proof {
            reveal_strlit("function");
            reveal_strlit("block");
            reveal_strlit("undef");
            reveal_strlit("null");
            reveal_strlit("ret");
            reveal_strlit("br");
            reveal_strlit("switch");
            reveal_strlit("call");
        }
        match &store.values[self.handle].data {
            ValueData::Function { .. } => String::from_str("function"),
            ValueData::BasicBlock { .. } => String::from_str("block"),
            ValueData::ConstInt { bits } => crate::decimal_string(*bits),
            ValueData::Undef => String::from_str("undef"),
            ValueData::ConstNull => String::from_str("null"),
            ValueData::ConstPointerNull => String::from_str("null"),
            ValueData::Inst { inst } => {
                match inst {
                    crate::store::InstNode::RetVoid => String::from_str("ret"),
                    crate::store::InstNode::Ret { .. } => String::from_str("ret"),
                    crate::store::InstNode::Br { .. } => String::from_str("br"),
                    crate::store::InstNode::CondBr { .. } => String::from_str("br"),
                    crate::store::InstNode::Switch { .. } => String::from_str("switch"),
                    crate::store::InstNode::Call { .. } => String::from_str("call"),
                }
            },
        }
    }

    /// An integer constant of the given integer type, holding the
    /// literal's bit pattern.  Constants are interned per type and
    /// payload: repeated calls with an equal type and literal yield the
    /// identical handle, so identity comparison of constants is equality.
    pub fn const_int(store: &mut Store, tp: Type, num: u64) -> (v: Value)
        requires
            old(store)@.wf(),
            tp.wf(old(store)@),
            old(store)@.type_at(tp@) is Integer,
        ensures
            final(store)@.wf(),
            v.wf(final(store)@),
            interns_value(
                old(store)@,
                final(store)@,
                v@,
                (ValueV { ty: tp@, data: crate::store::ValueDataV::ConstInt { bits: num } }),
            ),
    {
        let h = store.intern_value(
            ValueNode { ty: tp.raw(), data: ValueData::ConstInt { bits: num } },
        );
        Value { handle: h }
    }

    /// The undefined placeholder value of the given type, interned: one
    /// node per type, so repeated calls yield the identical handle.
    pub fn undef(store: &mut Store, tp: Type) -> (v: Value)
        requires
            old(store)@.wf(),
            tp.wf(old(store)@),
        ensures
            final(store)@.wf(),
            v.wf(final(store)@),
            interns_value(
                old(store)@,
                final(store)@,
                v@,
                (ValueV { ty: tp@, data: crate::store::ValueDataV::Undef }),
            ),
    {
        let h = store.intern_value(ValueNode { ty: tp.raw(), data: ValueData::Undef });
        Value { handle: h }
    }

    /// The zero placeholder value of the given type, interned: one node
    /// per type, so repeated calls yield the identical handle.
    pub fn const_null(store: &mut Store, tp: Type) -> (v: Value)
        requires
            old(store)@.wf(),
            tp.wf(old(store)@),
        ensures
            final(store)@.wf(),
            v.wf(final(store)@),
            interns_value(
                old(store)@,
                final(store)@,
                v@,
                (ValueV { ty: tp@, data: crate::store::ValueDataV::ConstNull }),
            ),
    {
        let h = store.intern_value(ValueNode { ty: tp.raw(), data: ValueData::ConstNull });
        Value { handle: h }
    }

    /// The null-pointer placeholder value of the given type, interned:
    /// one node per type, so repeated calls yield the identical handle.
    pub fn const_pointer_null(store: &mut Store, tp: Type) -> (v: Value)
        requires
            old(store)@.wf(),
            tp.wf(old(store)@),
        ensures
            final(store)@.wf(),
            v.wf(final(store)@),
            interns_value(
                old(store)@,
                final(store)@,
                v@,
                (ValueV { ty: tp@, data: crate::store::ValueDataV::ConstPointerNull }),
            ),
    {
        let h = store.intern_value(ValueNode { ty: tp.raw(), data: ValueData::ConstPointerNull });
        Value { handle: h }
    }
}

/// Law: a downcast rejects every wrong kind.  A generic value whose store
/// classification is neither basic block nor function, and which is not
/// an instruction with the call or switch opcode, fails all four
/// specialization downcasts.
pub proof fn lemma_downcast_rejects_wrong_kind(s: crate::store::StoreV, h: usize)
    requires
        s.value_valid(h),
        spec_value_kind(s, h) != ValueKind::BasicBlock,
        spec_value_kind(s, h) != ValueKind::Function,
        spec_value_kind(s, h) == ValueKind::Instruction ==> spec_opcode(s.inst_of(h))
            != Opcode::Call && spec_opcode(s.inst_of(h)) != Opcode::Switch,
    ensures
        crate::basic_block::spec_basic_block_downcast(s, h) is Err,
        crate::function::spec_function_downcast(s, h) is Err,
        crate::function_call::spec_call_downcast(s, h) is Err,
        crate::switch::spec_switch_downcast(s, h) is Err,
{
}

} // verus!
