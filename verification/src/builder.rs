//! The IR builder: a cursor over a function's instruction stream.  Each
//! build operation appends exactly one instruction at the cursor block.

use vstd::prelude::*;

use crate::basic_block::BasicBlock;
use crate::context::Context;
use crate::function::Function;
use crate::function_call::FunctionCall;
use crate::store::{BuilderV, InstNode, InstV, Store, StoreV, TypeNode, ValueData, ValueNode, GLOBAL_CONTEXT};
use crate::switch::Switch;
use crate::value::Value;

verus! {

/// Holds when `s1` is `s0` after one instruction `inst` left the builder
/// `bd`, handed out as the fresh value handle `v`: the cursor block gained
/// exactly that instruction at its end, the cursor did not move, no other
/// value changed, and the store at most interned type nodes.
pub open spec fn emits(s0: StoreV, s1: StoreV, bd: usize, v: usize, inst: InstV) -> bool {
    s0.builder_pos(bd) matches Some(blk) && {
        &&& v == s0.values.len()
        &&& s1.values.len() == s0.values.len() + 1
        &&& s1.is_inst(v)
        &&& s1.inst_of(v) == inst
        &&& s1.block_insts(blk) == s0.block_insts(blk).push(v)
        &&& s1.block_name(blk) == s0.block_name(blk)
        &&& forall|h: usize|
            s0.value_valid(h) && h != blk ==> s1.value_at(h) == s0.value_at(h)
        &&& s1.builders == s0.builders
        &&& s1.modules == s0.modules
        &&& s1.contexts == s0.contexts
        &&& s1.types.len() >= s0.types.len()
        &&& forall|i: int| 0 <= i < s0.types.len() ==> s1.types[i] == s0.types[i]
    }
}

/// An exclusive handle to a builder.  The cursor is store-held state:
/// a builder that was never positioned has no insertion block.  Consuming
/// the wrapper with [`IRBuilder::dispose`] releases the builder — its
/// cursor, not any emitted IR — exactly once.
pub struct IRBuilder {
    handle: usize,
}

impl View for IRBuilder {
    type V = usize;

    closed spec fn view(&self) -> usize {
        self.handle
    }
}

impl IRBuilder {
    /// A builder wrapper names a live builder.
    pub open spec fn wf(&self, s: StoreV) -> bool {
        s.builder_live(self@)
    }

    /// Creates a builder in the global context, with no insertion block
    /// yet.  Always succeeds.
    pub fn new(store: &mut Store) -> (b: IRBuilder)
        requires
            old(store)@.wf(),
        ensures
            final(store)@.wf(),
            b.wf(final(store)@),
            b@ == old(store)@.builders.len(),
            final(store)@.builder_pos(b@) is None,
            final(store)@.builders == old(store)@.builders.push(
                (BuilderV { live: true, ctx: GLOBAL_CONTEXT, pos: None }),
            ),
            final(store)@.contexts == old(store)@.contexts,
            final(store)@.modules == old(store)@.modules,
            final(store)@.types == old(store)@.types,
            final(store)@.values == old(store)@.values,
    {
        let h = store.new_builder(GLOBAL_CONTEXT);
        IRBuilder { handle: h }
    }

    /// Creates a builder inside a specific context, with no insertion
    /// block yet.  The builder borrows the context and must not outlive
    /// it.
    pub fn new_in_context(store: &mut Store, cont: &Context) -> (b: IRBuilder)
        requires
            old(store)@.wf(),
            cont.wf(old(store)@),
        ensures
            final(store)@.wf(),
            b.wf(final(store)@),
            b@ == old(store)@.builders.len(),
            final(store)@.builder_pos(b@) is None,
            final(store)@.builders == old(store)@.builders.push(
                (BuilderV { live: true, ctx: cont@, pos: None }),
            ),
            final(store)@.contexts == old(store)@.contexts,
            final(store)@.modules == old(store)@.modules,
            final(store)@.types == old(store)@.types,
            final(store)@.values == old(store)@.values,
    {
        let h = store.new_builder(cont.raw());
        IRBuilder { handle: h }
    }

    /// Moves the cursor to the end of the given block.  Always succeeds
    /// for a valid block; the store does not check that the block suits
    /// the caller's intent.
    pub fn position_at_end(&self, store: &mut Store, bb: BasicBlock)
        requires
            old(store)@.wf(),
            self.wf(old(store)@),
            bb.wf(old(store)@),
        ensures
            final(store)@.wf(),
            self.wf(final(store)@),
            final(store)@.builder_pos(self@) == Some(bb@),
            final(store)@.builders == old(store)@.builders.update(
                self@ as int,
                (BuilderV { pos: Some(bb@), ..old(store)@.builder_at(self@) }),
            ),
            final(store)@.contexts == old(store)@.contexts,
            final(store)@.modules == old(store)@.modules,
            final(store)@.types == old(store)@.types,
            final(store)@.values == old(store)@.values,
    {
        store.builder_set_pos(self.handle, bb.raw());
    }

    /// The block the cursor currently targets; absence when the builder
    /// was never positioned.  Absence is not an error.
    pub fn insertion_block(&self, store: &Store) -> (r: Option<BasicBlock>)
        requires
            store@.wf(),
            self.wf(store@),
        ensures
            match r {
                Some(b) => store@.builder_pos(self@) == Some(b@) && b.wf(store@),
                None => store@.builder_pos(self@) is None,
            },
    {
        proof {
            assert(store@.builder_wf(store@.builders[self@ as int]));
        }
        match store.builders[self.handle].pos {
            Some(b) => Some(BasicBlock::from_handle(b)),
            None => None,
        }
    }

    /// Reads the cursor block, which emission requires.
    fn cursor(&self, store: &Store) -> (b: usize)
        requires
            store@.wf(),
            self.wf(store@),
            store@.builder_pos(self@) is Some,
        ensures
            Some(b) == store@.builder_pos(self@),
            store@.is_basic_block(b),
    {
        proof {
            assert(store@.builder_wf(store@.builders[self@ as int]));
        }
        match store.builders[self.handle].pos {
            Some(b) => b,
            None => {
                proof {
                    assert(false);
                }
                0
            },
        }
    }

    /// Emits a return-of-nothing terminator at the cursor.
    pub fn ret_void(&self, store: &mut Store) -> (v: Value)
        requires
            old(store)@.wf(),
            self.wf(old(store)@),
            old(store)@.builder_pos(self@) is Some,
        ensures
            final(store)@.wf(),
            v.wf(final(store)@),
            self.wf(final(store)@),
            emits(old(store)@, final(store)@, self@, v@, InstV::RetVoid),
            final(store)@.type_at(final(store)@.value_ty(v@)) is Void,
    {
        let blk = self.cursor(store);
        let vt = store.intern_type(TypeNode::Void);
        let h = store.push_value(ValueNode { ty: vt, data: ValueData::Inst { inst: InstNode::RetVoid } });
        store.block_add_inst(blk, h);
        Value::from_handle(h)
    }

    /// Emits a return-of-value terminator at the cursor.
    pub fn ret(&self, store: &mut Store, val: Value) -> (v: Value)
        requires
            old(store)@.wf(),
            self.wf(old(store)@),
            old(store)@.builder_pos(self@) is Some,
            val.wf(old(store)@),
        ensures
            final(store)@.wf(),
            v.wf(final(store)@),
            self.wf(final(store)@),
            emits(old(store)@, final(store)@, self@, v@, (InstV::Ret { val: val@ })),
            final(store)@.type_at(final(store)@.value_ty(v@)) is Void,
    {
        let blk = self.cursor(store);
        let vt = store.intern_type(TypeNode::Void);
        let h = store.push_value(
            ValueNode { ty: vt, data: ValueData::Inst { inst: InstNode::Ret { val: val.raw() } } },
        );
        store.block_add_inst(blk, h);
        Value::from_handle(h)
    }

    /// Emits an unconditional branch to the given block at the cursor.
    pub fn br(&self, store: &mut Store, br: BasicBlock) -> (v: Value)
        requires
            old(store)@.wf(),
            self.wf(old(store)@),
            old(store)@.builder_pos(self@) is Some,
            br.wf(old(store)@),
        ensures
            final(store)@.wf(),
            v.wf(final(store)@),
            self.wf(final(store)@),
            emits(old(store)@, final(store)@, self@, v@, (InstV::Br { dest: br@ })),
            final(store)@.type_at(final(store)@.value_ty(v@)) is Void,
    {
        let blk = self.cursor(store);
        let vt = store.intern_type(TypeNode::Void);
        let h = store.push_value(
            ValueNode { ty: vt, data: ValueData::Inst { inst: InstNode::Br { dest: br.raw() } } },
        );
        store.block_add_inst(blk, h);
        Value::from_handle(h)
    }

    /// Emits a conditional branch at the cursor.
    pub fn cond_br(
        &self,
        store: &mut Store,
        cond: Value,
        then_block: &BasicBlock,
        else_block: &BasicBlock,
    ) -> (v: Value)
        requires
            old(store)@.wf(),
            self.wf(old(store)@),
            old(store)@.builder_pos(self@) is Some,
            cond.wf(old(store)@),
            then_block.wf(old(store)@),
            else_block.wf(old(store)@),
        ensures
            final(store)@.wf(),
            v.wf(final(store)@),
            self.wf(final(store)@),
            emits(
                old(store)@,
                final(store)@,
                self@,
                v@,
                (InstV::CondBr { cond: cond@, then_dest: then_block@, else_dest: else_block@ }),
            ),
            final(store)@.type_at(final(store)@.value_ty(v@)) is Void,
    {
        let blk = self.cursor(store);
        let vt = store.intern_type(TypeNode::Void);
        let h = store.push_value(
            ValueNode {
                ty: vt,
                data: ValueData::Inst {
                    inst: InstNode::CondBr {
                        cond: cond.raw(),
                        then_dest: then_block.raw(),
                        else_dest: else_block.raw(),
                    },
                },
            },
        );
        store.block_add_inst(blk, h);
        Value::from_handle(h)
    }

    /// Emits a multi-way terminator at the cursor: one comparison value,
    /// a default destination, and an ordered sequence of distinct
    /// comparison values mapped to destination blocks.  The result is the
    /// switch specialization directly — the builder knows what it built.
    pub fn switch(
        &self,
        store: &mut Store,
        val: Value,
        default: BasicBlock,
        cases: &Vec<(Value, BasicBlock)>,
    ) -> (sw: Switch)
        requires
            old(store)@.wf(),
            self.wf(old(store)@),
            old(store)@.builder_pos(self@) is Some,
            val.wf(old(store)@),
            default.wf(old(store)@),
            forall|i: int|
                0 <= i < cases@.len() ==> (#[trigger] cases@[i]).0.wf(old(store)@)
                    && cases@[i].1.wf(old(store)@),
            forall|i: int, j: int|
                0 <= i < j < cases@.len() ==> ((#[trigger] cases@[i]).0)@ != ((
                #[trigger] cases@[j]).0)@,
        ensures
            final(store)@.wf(),
            sw.wf(final(store)@),
            self.wf(final(store)@),
            emits(
                old(store)@,
                final(store)@,
                self@,
                sw@,
                (InstV::Switch {
                    cond: val@,
                    default_dest: default@,
                    cases: cases@.map_values(|p: (Value, BasicBlock)| (p.0@, p.1@)),
                }),
            ),
            final(store)@.switch_default(sw@) == default@,
            final(store)@.switch_cases(sw@) == cases@.map_values(
                |p: (Value, BasicBlock)| (p.0@, p.1@),
            ),
            final(store)@.type_at(final(store)@.value_ty(sw@)) is Void,
    {
        let blk = self.cursor(store);
        let vt = store.intern_type(TypeNode::Void);
        let n = cases.len();
        let mut pairs: Vec<(usize, usize)> = Vec::new();
        let mut i: usize = 0;
        while i < n
            invariant
                n == cases@.len(),
                i <= n,
                pairs@.len() == i,
                forall|j: int|
                    0 <= j < i ==> #[trigger] pairs@[j] == ((cases@[j].0)@, (cases@[j].1)@),
            decreases n - i,
        {
            let (cv, cb) = cases[i];
            pairs.push((cv.raw(), cb.raw()));
            i = i + 1;
        }
        proof {
            assert(pairs@ =~= cases@.map_values(|p: (Value, BasicBlock)| (p.0@, p.1@)));
        }
        let h = store.push_value(
            ValueNode {
                ty: vt,
                data: ValueData::Inst {
                    inst: InstNode::Switch {
                        cond: val.raw(),
                        default_dest: default.raw(),
                        cases: pairs,
                    },
                },
            },
        );
        store.block_add_inst(blk, h);
        Switch::from_handle(h)
    }

    /// Emits a call of the given function, passing the arguments
    /// positionally, at the cursor.  The result is the call
    /// specialization directly; its recorded type is the callee's return
    /// type.
    pub fn call(&self, store: &mut Store, f: Function, args: &[Value]) -> (c: FunctionCall)
        requires
            old(store)@.wf(),
            self.wf(old(store)@),
            old(store)@.builder_pos(self@) is Some,
            f.wf(old(store)@),
            forall|i: int| 0 <= i < args@.len() ==> (#[trigger] args@[i]).wf(old(store)@),
        ensures
            final(store)@.wf(),
            c.wf(final(store)@),
            self.wf(final(store)@),
            emits(
                old(store)@,
                final(store)@,
                self@,
                c@,
                (InstV::Call {
                    callee: f@,
                    args: args@.map_values(|a: Value| a@),
                    tail: false,
                }),
            ),
            final(store)@.call_callee(c@) == f@,
            final(store)@.call_tail(c@) == false,
            final(store)@.value_ty(c@) == old(store)@.type_at(
                old(store)@.value_ty(f@),
            )->Function_ret,
    {
        proof {
            assert(old(store)@.value_wf(old(store)@.values[f@ as int]));
            assert(old(store)@.type_wf(old(store)@.type_at(old(store)@.value_ty(f@))));
        }
        let blk = self.cursor(store);
        let fty = store.values[f.raw()].ty;
        let ret = match &store.types[fty] {
            TypeNode::Function { ret, .. } => *ret,
            _ => {
                proof {
                    assert(false);
                }
                0
            },
        };
        let n = args.len();
        let mut handles: Vec<usize> = Vec::new();
        let mut i: usize = 0;
        while i < n
            invariant
                n == args@.len(),
                i <= n,
                handles@.len() == i,
                forall|j: int| 0 <= j < i ==> #[trigger] handles@[j] == (args@[j])@,
            decreases n - i,
        {
            handles.push(vstd::slice::slice_index_get(args, i).raw());
            i = i + 1;
        }
        proof {
            assert(handles@ =~= args@.map_values(|a: Value| a@));
        }
        let h = store.push_value(
            ValueNode {
                ty: ret,
                data: ValueData::Inst {
                    inst: InstNode::Call { callee: f.raw(), args: handles, tail: false },
                },
            },
        );
        store.block_add_inst(blk, h);
        FunctionCall::from_handle(h)
    }

    /// Consumes the wrapper and releases the builder exactly once:
    /// afterwards no wrapper for the handle is well-formed, so no
    /// verified call can touch it again.  Emitted IR stays with its
    /// function.
    pub fn dispose(self, store: &mut Store)
        requires
            old(store)@.wf(),
            self.wf(old(store)@),
        ensures
            final(store)@.wf(),
            !final(store)@.builder_live(self@),
            final(store)@.builders == old(store)@.builders.update(
                self@ as int,
                (BuilderV { live: false, ..old(store)@.builder_at(self@) }),
            ),
            final(store)@.contexts == old(store)@.contexts,
            final(store)@.modules == old(store)@.modules,
            final(store)@.types == old(store)@.types,
            final(store)@.values == old(store)@.values,
    {
        store.dispose_builder(self.handle);
    }
}

/// Law: cursor correctness.  After the store records a positioning of
/// builder `bd` at block `b`, the insertion-block query answers exactly
/// `b`; a builder the store holds unpositioned reports absence.
pub proof fn lemma_cursor_correct(s0: StoreV, s1: StoreV, bd: usize, b: usize)
    requires
        s0.builder_valid(bd),
        s1.builders == s0.builders.update(
            bd as int,
            (BuilderV { pos: Some(b), ..s0.builder_at(bd) }),
        ),
    ensures
        s1.builder_pos(bd) == Some(b),
        forall|other: usize|
            s0.builder_valid(other) && other != bd && s0.builder_pos(other) is None
                ==> s1.builder_pos(other) is None,
{
}

/// Law: disposal is final.  Once the store no longer holds a builder
/// live, no builder wrapper naming that handle is well-formed, so every
/// operation that requires a well-formed builder — including a second
/// disposal — is ruled out.
pub proof fn lemma_builder_dispose_once(s: StoreV, h: usize)
    requires
        !s.builder_live(h),
    ensures
        forall|b: IRBuilder| b@ == h ==> !b.wf(s),
{
}

} // verus!
