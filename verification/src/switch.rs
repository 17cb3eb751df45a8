//! Switch terminators: the instruction specialization with a default
//! destination and value-to-block case pairs.

use vstd::prelude::*;

use crate::basic_block::BasicBlock;
use crate::store::{Store, StoreV};
use crate::value::{spec_opcode, Opcode, Value};
use crate::value_kind::{spec_value_kind, ValueKind};

verus! {

/// A value handle whose node the store classifies as a switch
/// instruction.
#[derive(Debug, PartialEq, Eq, Structural, Clone, Copy)]
pub struct Switch {
    handle: usize,
}

impl View for Switch {
    type V = usize;

    closed spec fn view(&self) -> usize {
        self.handle
    }
}

impl From<Switch> for Value {
    /// The upcast: the same handle, viewed generically.  Total and free.
    fn from(other: Switch) -> (v: Value) {
        Value::from_handle(other.raw())
    }
}

impl vstd::std_specs::convert::FromSpecImpl<Switch> for Value {
    open spec fn obeys_from_spec() -> bool {
        true
    }

    open spec fn from_spec(sw: Switch) -> Value {
        Value::spec_with_handle(sw@)
    }
}

/// The downcast from a generic value to a switch, at the specification
/// level: the same handle, exactly when the node is an instruction whose
/// opcode is the switch opcode.
pub open spec fn spec_switch_downcast(s: StoreV, h: usize) -> Result<usize, ()> {
    if spec_value_kind(s, h) == ValueKind::Instruction && spec_opcode(s.inst_of(h))
        == Opcode::Switch {
        Ok(h)
    } else {
        Err(())
    }
}

impl Switch {
    /// A switch wrapper names an instruction node with the switch opcode.
    pub open spec fn wf(&self, s: StoreV) -> bool {
        s.is_switch(self@)
    }

    pub(crate) fn from_handle(handle: usize) -> (sw: Switch)
        ensures
            sw@ == handle,
    {
        Switch { handle }
    }

    pub(crate) fn raw(&self) -> (h: usize)
        ensures
            h == self@,
    {
        self.handle
    }

    /// The downcast from a generic value: succeeds exactly when the node
    /// is an instruction with the switch opcode, and hands the same
    /// handle back.  Never mutates the store.
    pub fn try_from(other: Value, store: &Store) -> (r: Result<Switch, ()>)
        requires
            store@.wf(),
            other.wf(store@),
        ensures
            match r {
                Ok(sw) => spec_switch_downcast(store@, other@) == Ok::<usize, ()>(sw@) && sw@
                    == other@ && sw.wf(store@),
                Err(_) => spec_switch_downcast(store@, other@) is Err,
            },
    {
        match other.kind(store) {
            ValueKind::Instruction => {
                match other.opcode(store) {
                    Opcode::Switch => Ok(Switch { handle: other.raw() }),
                    _ => Err(()),
                }
            },
            _ => Err(()),
        }
    }

    /// The block the switch transfers control to when no case value
    /// matches.
    pub fn default_dest(&self, store: &Store) -> (b: BasicBlock)
        requires
            store@.wf(),
            self.wf(store@),
        ensures
            b@ == store@.switch_default(self@),
            b.wf(store@),
    {
        proof {
            assert(store@.value_wf(store@.values[self@ as int]));
        }
        match &store.values[self.handle].data {
            crate::store::ValueData::Inst { inst } => {
                match inst {
                    crate::store::InstNode::Switch { default_dest, .. } => {
                        BasicBlock::from_handle(*default_dest)
                    },
                    _ => {
                        proof {
                            assert(false);
                        }
                        BasicBlock::from_handle(0)
                    },
                }
            },
            _ => {
                proof {
                    assert(false);
                }
                BasicBlock::from_handle(0)
            },
        }
    }
}

/// Law: the round trip through the generic view succeeds.  Upcasting a
/// well-formed switch yields a generic value with the same underlying
/// handle, and that value passes the switch downcast, coming back as the
/// original handle.
pub proof fn lemma_switch_round_trip(s: StoreV, sw: Switch)
    requires
        sw.wf(s),
    ensures
        ({
            let v = <Value as vstd::std_specs::convert::FromSpec<Switch>>::from_spec(sw);
            v@ == sw@ && spec_switch_downcast(s, v@) == Ok::<usize, ()>(sw@)
        }),
{
    Value::lemma_with_handle(sw@);
}

/// Law: default-destination integrity.  A switch whose default
/// destination is `d` reports `d`, never a case destination — with one
/// case pair mapping some value to `e`, the default is `d` and differs
/// from `e` whenever the two blocks differ.
pub proof fn lemma_switch_default_dest(s: StoreV, h: usize, d: usize, c: usize, e: usize)
    requires
        s.is_switch(h),
        s.switch_default(h) == d,
        s.switch_cases(h) == seq![(c, e)],
        d != e,
    ensures
        s.switch_default(h) == d,
        s.switch_default(h) != s.switch_cases(h)[0].1,
{
}

} // verus!
