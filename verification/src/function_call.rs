//! Call instructions: the instruction specialization that references the
//! function it invokes and carries a tail-call marker.

use vstd::prelude::*;

use crate::function::Function;
use crate::store::{Store, StoreV, ValueDataV, ValueV, InstV};
use crate::value::{spec_opcode, Opcode, Value};
use crate::value_kind::{spec_value_kind, ValueKind};

verus! {

/// A value handle whose node the store classifies as a call instruction.
#[derive(Debug, PartialEq, Eq, Structural, Clone, Copy)]
pub struct FunctionCall {
    handle: usize,
}

impl View for FunctionCall {
    type V = usize;

    closed spec fn view(&self) -> usize {
        self.handle
    }
}

impl From<FunctionCall> for Value {
    /// The upcast: the same handle, viewed generically.  Total and free.
    fn from(other: FunctionCall) -> (v: Value) {
        Value::from_handle(other.raw())
    }
}

impl vstd::std_specs::convert::FromSpecImpl<FunctionCall> for Value {
    open spec fn obeys_from_spec() -> bool {
        true
    }

    open spec fn from_spec(c: FunctionCall) -> Value {
        Value::spec_with_handle(c@)
    }
}

/// The downcast from a generic value to a call, at the specification
/// level: the same handle, exactly when the node is an instruction whose
/// opcode is the call opcode.
pub open spec fn spec_call_downcast(s: StoreV, h: usize) -> Result<usize, ()> {
    if spec_value_kind(s, h) == ValueKind::Instruction && spec_opcode(s.inst_of(h)) == Opcode::Call {
        Ok(h)
    } else {
        Err(())
    }
}

impl FunctionCall {
    /// A call wrapper names an instruction node with the call opcode.
    pub open spec fn wf(&self, s: StoreV) -> bool {
        s.is_call(self@)
    }

    pub(crate) fn from_handle(handle: usize) -> (c: FunctionCall)
        ensures
            c@ == handle,
    {
        FunctionCall { handle }
    }

    pub(crate) fn raw(&self) -> (h: usize)
        ensures
            h == self@,
    {
        self.handle
    }

    /// The downcast from a generic value: succeeds exactly when the node
    /// is an instruction with the call opcode, and hands the same handle
    /// back.  Never mutates the store.
    pub fn try_from(other: Value, store: &Store) -> (r: Result<FunctionCall, ()>)
        requires
            store@.wf(),
            other.wf(store@),
        ensures
            match r {
                Ok(c) => spec_call_downcast(store@, other@) == Ok::<usize, ()>(c@) && c@ == other@
                    && c.wf(store@),
                Err(_) => spec_call_downcast(store@, other@) is Err,
            },
    {
        match other.kind(store) {
            ValueKind::Instruction => {
                match other.opcode(store) {
                    Opcode::Call => Ok(FunctionCall { handle: other.raw() }),
                    _ => Err(()),
                }
            },
            _ => Err(()),
        }
    }

    /// The store's canonical text for the call, as for any value.
    pub fn print_to_string(&self, store: &Store) -> (r: String)
        requires
            store@.wf(),
            self.wf(store@),
        ensures
            r@ == crate::value::spec_render_value(store@.value_at(self@).data),
            r@.len() > 0,
    {
        let v = Value::from_handle(self.raw());
        v.print_to_string(store)
    }

    /// Sets the tail-call marker directly in the store; the callee and
    /// the arguments are untouched, and so is every other node.
    pub fn set_tail_call(&self, store: &mut Store, isa: bool)
        requires
            old(store)@.wf(),
            self.wf(old(store)@),
        ensures
            final(store)@.wf(),
            final(store)@.call_tail(self@) == isa,
            final(store)@.values == old(store)@.values.update(
                self@ as int,
                (ValueV {
                    ty: old(store)@.value_at(self@).ty,
                    data: ValueDataV::Inst {
                        inst: InstV::Call {
                            callee: old(store)@.call_callee(self@),
                            args: old(store)@.call_args(self@),
                            tail: isa,
                        },
                    },
                }),
            ),
            final(store)@.contexts == old(store)@.contexts,
            final(store)@.modules == old(store)@.modules,
            final(store)@.types == old(store)@.types,
            final(store)@.builders == old(store)@.builders,
    {
        store.call_set_tail(self.handle, isa);
    }

    /// Queries the tail-call marker directly from the store.
    pub fn is_tail_call(&self, store: &Store) -> (b: bool)
        requires
            store@.wf(),
            self.wf(store@),
        ensures
            b == store@.call_tail(self@),
    {
        match &store.values[self.handle].data {
            crate::store::ValueData::Inst { inst } => {
                match inst {
                    crate::store::InstNode::Call { tail, .. } => *tail,
                    _ => {
                        proof {
                            assert(false);
                        }
                        false
                    },
                }
            },
            _ => {
                proof {
                    assert(false);
                }
                false
            },
        }
    }

    /// The function this call invokes.  The store records the callee of
    /// every call as a direct function reference, so the answer is always
    /// a function.
    pub fn called_value(&self, store: &Store) -> (f: Function)
        requires
            store@.wf(),
            self.wf(store@),
        ensures
            f@ == store@.call_callee(self@),
            f.wf(store@),
    {
        proof {
            assert(store@.value_wf(store@.values[self@ as int]));
        }
        match &store.values[self.handle].data {
            crate::store::ValueData::Inst { inst } => {
                match inst {
                    crate::store::InstNode::Call { callee, .. } => Function::from_handle(*callee),
                    _ => {
                        proof {
                            assert(false);
                        }
                        Function::from_handle(0)
                    },
                }
            },
            _ => {
                proof {
                    assert(false);
                }
                Function::from_handle(0)
            },
        }
    }
}

/// Law: the round trip through the generic view succeeds.  Upcasting a
/// well-formed call yields a generic value with the same underlying
/// handle, and that value passes the call downcast, coming back as the
/// original handle.
pub proof fn lemma_call_round_trip(s: StoreV, c: FunctionCall)
    requires
        c.wf(s),
    ensures
        ({
            let v = <Value as vstd::std_specs::convert::FromSpec<FunctionCall>>::from_spec(c);
            v@ == c@ && spec_call_downcast(s, v@) == Ok::<usize, ()>(c@)
        }),
{
    Value::lemma_with_handle(c@);
}

} // verus!
