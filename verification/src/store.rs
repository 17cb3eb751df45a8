//! The IR store: one arena holding every node the facade can name.
//!
//! Contexts, modules, types, values and builders live in separate tables;
//! a handle is an index into the table for its coarse category.  Basic
//! blocks, functions, constants and instructions all live in the value
//! table, each carrying the classification that the typed wrappers are
//! guarded by.  `StoreV` is the mathematical picture of the store that
//! every contract speaks of.

use vstd::prelude::*;

use crate::name_ok;

verus! {

/// The handle of the process-wide shared context, present in every store
/// from the start and never disposed.
pub const GLOBAL_CONTEXT: usize = 0;

// ---------------------------------------------------------------------
// The mathematical picture of the store.
// ---------------------------------------------------------------------

/// One type node, as the store classifies it.
#[verifier::ext_equal]
pub enum TypeV {
    Void,
    Integer { width: u32 },
    Function { ret: usize, params: Seq<usize>, vararg: bool },
    Label,
}

/// One instruction, with its operands.
#[verifier::ext_equal]
pub enum InstV {
    RetVoid,
    Ret { val: usize },
    Br { dest: usize },
    CondBr { cond: usize, then_dest: usize, else_dest: usize },
    Switch { cond: usize, default_dest: usize, cases: Seq<(usize, usize)> },
    Call { callee: usize, args: Seq<usize>, tail: bool },
}

/// What one value node holds beside its type.
#[verifier::ext_equal]
pub enum ValueDataV {
    Function { name: Seq<u8>, blocks: Seq<usize> },
    BasicBlock { name: Seq<u8>, insts: Seq<usize> },
    ConstInt { bits: u64 },
    Undef,
    ConstNull,
    ConstPointerNull,
    Inst { inst: InstV },
}

/// One value node: its type handle and its classified payload.
#[verifier::ext_equal]
pub struct ValueV {
    pub ty: usize,
    pub data: ValueDataV,
}

/// One module node: its liveness, name, owning context, and the handles
/// of the functions it owns, in insertion order.
#[verifier::ext_equal]
pub struct ModuleV {
    pub live: bool,
    pub name: Seq<u8>,
    pub ctx: usize,
    pub funcs: Seq<usize>,
}

/// One builder node: its liveness, owning context, and cursor position
/// (the basic block the next instruction is appended to, if positioned).
#[verifier::ext_equal]
pub struct BuilderV {
    pub live: bool,
    pub ctx: usize,
    pub pos: Option<usize>,
}

/// The whole store.  A context node is just its liveness flag.
#[verifier::ext_equal]
pub struct StoreV {
    pub contexts: Seq<bool>,
    pub modules: Seq<ModuleV>,
    pub types: Seq<TypeV>,
    pub values: Seq<ValueV>,
    pub builders: Seq<BuilderV>,
}

impl StoreV {
    pub open spec fn ctx_valid(self, h: usize) -> bool {
        h < self.contexts.len()
    }

    pub open spec fn ctx_live(self, h: usize) -> bool {
        self.ctx_valid(h) && self.contexts[h as int]
    }

    pub open spec fn module_valid(self, h: usize) -> bool {
        h < self.modules.len()
    }

    pub open spec fn module_at(self, h: usize) -> ModuleV {
        self.modules[h as int]
    }

    pub open spec fn module_live(self, h: usize) -> bool {
        self.module_valid(h) && self.module_at(h).live
    }

    pub open spec fn module_name(self, h: usize) -> Seq<u8> {
        self.module_at(h).name
    }

    pub open spec fn module_funcs(self, h: usize) -> Seq<usize> {
        self.module_at(h).funcs
    }

    pub open spec fn type_valid(self, h: usize) -> bool {
        h < self.types.len()
    }

    pub open spec fn type_at(self, h: usize) -> TypeV {
        self.types[h as int]
    }

    pub open spec fn value_valid(self, h: usize) -> bool {
        h < self.values.len()
    }

    pub open spec fn value_at(self, h: usize) -> ValueV {
        self.values[h as int]
    }

    /// The type the store records for a value.
    pub open spec fn value_ty(self, h: usize) -> usize {
        self.value_at(h).ty
    }

    pub open spec fn builder_valid(self, h: usize) -> bool {
        h < self.builders.len()
    }

    pub open spec fn builder_at(self, h: usize) -> BuilderV {
        self.builders[h as int]
    }

    pub open spec fn builder_live(self, h: usize) -> bool {
        self.builder_valid(h) && self.builder_at(h).live
    }

    /// The builder's cursor: the block the next instruction lands in.
    pub open spec fn builder_pos(self, h: usize) -> Option<usize> {
        self.builder_at(h).pos
    }

    pub open spec fn is_function(self, h: usize) -> bool {
        self.value_valid(h) && self.value_at(h).data is Function
    }

    pub open spec fn is_basic_block(self, h: usize) -> bool {
        self.value_valid(h) && self.value_at(h).data is BasicBlock
    }

    pub open spec fn is_inst(self, h: usize) -> bool {
        self.value_valid(h) && self.value_at(h).data is Inst
    }

    pub open spec fn inst_of(self, h: usize) -> InstV
        recommends self.is_inst(h),
    {
        self.value_at(h).data->Inst_inst
    }

    pub open spec fn is_call(self, h: usize) -> bool {
        self.is_inst(h) && self.inst_of(h) is Call
    }

    pub open spec fn is_switch(self, h: usize) -> bool {
        self.is_inst(h) && self.inst_of(h) is Switch
    }

    pub open spec fn func_name(self, h: usize) -> Seq<u8>
        recommends self.is_function(h),
    {
        self.value_at(h).data->Function_name
    }

    pub open spec fn func_blocks(self, h: usize) -> Seq<usize>
        recommends self.is_function(h),
    {
        self.value_at(h).data->Function_blocks
    }

    pub open spec fn block_name(self, h: usize) -> Seq<u8>
        recommends self.is_basic_block(h),
    {
        self.value_at(h).data->BasicBlock_name
    }

    pub open spec fn block_insts(self, h: usize) -> Seq<usize>
        recommends self.is_basic_block(h),
    {
        self.value_at(h).data->BasicBlock_insts
    }

    pub open spec fn switch_default(self, h: usize) -> usize
        recommends self.is_switch(h),
    {
        self.inst_of(h)->Switch_default_dest
    }

    pub open spec fn switch_cases(self, h: usize) -> Seq<(usize, usize)>
        recommends self.is_switch(h),
    {
        self.inst_of(h)->Switch_cases
    }

    pub open spec fn call_callee(self, h: usize) -> usize
        recommends self.is_call(h),
    {
        self.inst_of(h)->Call_callee
    }

    pub open spec fn call_args(self, h: usize) -> Seq<usize>
        recommends self.is_call(h),
    {
        self.inst_of(h)->Call_args
    }

    pub open spec fn call_tail(self, h: usize) -> bool
        recommends self.is_call(h),
    {
        self.inst_of(h)->Call_tail
    }

    // -----------------------------------------------------------------
    // Well-formedness.
    // -----------------------------------------------------------------

    /// Type nodes the store deduplicates: everything but function types.
    pub open spec fn internable(t: TypeV) -> bool {
        !(t is Function)
    }

    /// Value nodes the store deduplicates: the constants and placeholders,
    /// one node per type and payload, so that identity comparison of
    /// constants is equality.
    pub open spec fn value_internable(v: ValueV) -> bool {
        ||| v.data is ConstInt
        ||| v.data is Undef
        ||| v.data is ConstNull
        ||| v.data is ConstPointerNull
    }

    pub open spec fn type_wf(self, t: TypeV) -> bool {
        match t {
            TypeV::Function { ret, params, vararg: _ } => {
                &&& self.type_valid(ret)
                &&& forall|i: int| 0 <= i < params.len() ==> self.type_valid(#[trigger] params[i])
            },
            _ => true,
        }
    }

    pub open spec fn inst_wf(self, i: InstV) -> bool {
        match i {
            InstV::RetVoid => true,
            InstV::Ret { val } => self.value_valid(val),
            InstV::Br { dest } => self.is_basic_block(dest),
            InstV::CondBr { cond, then_dest, else_dest } => {
                &&& self.value_valid(cond)
                &&& self.is_basic_block(then_dest)
                &&& self.is_basic_block(else_dest)
            },
            InstV::Switch { cond, default_dest, cases } => {
                &&& self.value_valid(cond)
                &&& self.is_basic_block(default_dest)
                &&& forall|j: int| 0 <= j < cases.len() ==> {
                    &&& self.value_valid((#[trigger] cases[j]).0)
                    &&& self.is_basic_block(cases[j].1)
                }
            },
            InstV::Call { callee, args, tail: _ } => {
                &&& self.is_function(callee)
                &&& forall|j: int| 0 <= j < args.len() ==> self.value_valid(#[trigger] args[j])
            },
        }
    }

    pub open spec fn value_wf(self, v: ValueV) -> bool {
        &&& self.type_valid(v.ty)
        &&& match v.data {
            ValueDataV::Function { name, blocks } => {
                &&& name_ok(name)
                &&& self.type_at(v.ty) is Function
                &&& forall|j: int| 0 <= j < blocks.len() ==> self.is_basic_block(#[trigger] blocks[j])
            },
            ValueDataV::BasicBlock { name, insts } => {
                &&& name_ok(name)
                &&& self.type_at(v.ty) is Label
                &&& forall|j: int| 0 <= j < insts.len() ==> self.is_inst(#[trigger] insts[j])
            },
            ValueDataV::ConstInt { bits: _ } => self.type_at(v.ty) is Integer,
            ValueDataV::Undef => true,
            ValueDataV::ConstNull => true,
            ValueDataV::ConstPointerNull => true,
            ValueDataV::Inst { inst } => self.inst_wf(inst),
        }
    }

    pub open spec fn module_wf(self, m: ModuleV) -> bool {
        &&& name_ok(m.name)
        &&& self.ctx_valid(m.ctx)
        &&& forall|j: int| 0 <= j < m.funcs.len() ==> self.is_function(#[trigger] m.funcs[j])
    }

    pub open spec fn builder_wf(self, b: BuilderV) -> bool {
        &&& self.ctx_valid(b.ctx)
        &&& match b.pos {
            Some(p) => self.is_basic_block(p),
            None => true,
        }
    }

    /// The store invariant: the global context exists and stays live,
    /// every cross-table handle is valid and of the kind its holder
    /// expects, every name is free of terminator bytes, and deduplicated
    /// type nodes occur at most once.
    pub open spec fn wf(self) -> bool {
        &&& self.contexts.len() >= 1
        &&& self.contexts[GLOBAL_CONTEXT as int]
        &&& forall|i: int| 0 <= i < self.types.len() ==> self.type_wf(#[trigger] self.types[i])
        &&& forall|i: int, j: int|
            #![trigger self.types[i], self.types[j]]
            0 <= i < self.types.len() && 0 <= j < self.types.len()
                && Self::internable(self.types[i]) && self.types[i] == self.types[j] ==> i == j
        &&& forall|i: int| 0 <= i < self.values.len() ==> self.value_wf(#[trigger] self.values[i])
        &&& forall|i: int, j: int|
            #![trigger self.values[i], self.values[j]]
            0 <= i < self.values.len() && 0 <= j < self.values.len()
                && Self::value_internable(self.values[i]) && self.values[i] == self.values[j]
                ==> i == j
        &&& forall|i: int| 0 <= i < self.modules.len() ==> self.module_wf(#[trigger] self.modules[i])
        &&& forall|i: int| 0 <= i < self.builders.len() ==> self.builder_wf(#[trigger] self.builders[i])
    }
}

/// Two value nodes of the same shape answer every classification query
/// alike, so handles pointing at them keep their meaning.
pub open spec fn same_shape(a: ValueV, b: ValueV) -> bool {
    &&& (a.data is Function <==> b.data is Function)
    &&& (a.data is BasicBlock <==> b.data is BasicBlock)
    &&& (a.data is Inst <==> b.data is Inst)
}

/// A well-formed value node stays well-formed when types are only
/// appended and every existing value node keeps its shape.
proof fn lemma_value_wf_mono(s0: StoreV, s1: StoreV, v: ValueV)
    requires
        s0.value_wf(v),
        s1.types.len() >= s0.types.len(),
        forall|i: int| 0 <= i < s0.types.len() ==> s1.types[i] == s0.types[i],
        s1.values.len() >= s0.values.len(),
        forall|i: int| 0 <= i < s0.values.len() ==> same_shape(s0.values[i], #[trigger] s1.values[i]),
    ensures
        s1.value_wf(v),
{
    assert(v.ty < s0.types.len());
    match v.data {
        ValueDataV::Function { name, blocks } => {
            assert forall|j: int| 0 <= j < blocks.len() implies s1.is_basic_block(
                #[trigger] blocks[j],
            ) by {
                assert(s0.is_basic_block(blocks[j]));
                assert(same_shape(s0.values[blocks[j] as int], s1.values[blocks[j] as int]));
            }
        },
        ValueDataV::BasicBlock { name, insts } => {
            assert forall|j: int| 0 <= j < insts.len() implies s1.is_inst(#[trigger] insts[j]) by {
                assert(s0.is_inst(insts[j]));
                assert(same_shape(s0.values[insts[j] as int], s1.values[insts[j] as int]));
            }
        },
        ValueDataV::Inst { inst } => {
            match inst {
                InstV::RetVoid => {},
                InstV::Ret { val } => {},
                InstV::Br { dest } => {
                    assert(same_shape(s0.values[dest as int], s1.values[dest as int]));
                },
                InstV::CondBr { cond, then_dest, else_dest } => {
                    assert(same_shape(s0.values[then_dest as int], s1.values[then_dest as int]));
                    assert(same_shape(s0.values[else_dest as int], s1.values[else_dest as int]));
                },
                InstV::Switch { cond, default_dest, cases } => {
                    assert(same_shape(
                        s0.values[default_dest as int],
                        s1.values[default_dest as int],
                    ));
                    assert forall|j: int| 0 <= j < cases.len() implies s1.value_valid(
                        (#[trigger] cases[j]).0,
                    ) && s1.is_basic_block(cases[j].1) by {
                        assert(s0.is_basic_block(cases[j].1));
                        assert(same_shape(
                            s0.values[cases[j].1 as int],
                            s1.values[cases[j].1 as int],
                        ));
                    }
                },
                InstV::Call { callee, args, tail } => {
                    assert(same_shape(s0.values[callee as int], s1.values[callee as int]));
                    assert forall|j: int| 0 <= j < args.len() implies s1.value_valid(
                        #[trigger] args[j],
                    ) by {}
                },
            }
        },
        _ => {},
    }
}

/// The store invariant survives any mutation that keeps the global
/// context live, only appends types (new ones well-formed and, when
/// deduplicated kinds, fresh), keeps every value node's shape, and leaves
/// every table entry either unchanged or well-formed in the new store.
proof fn lemma_wf_frame(s0: StoreV, s1: StoreV)
    requires
        s0.wf(),
        s1.contexts.len() >= s0.contexts.len(),
        s1.contexts[GLOBAL_CONTEXT as int],
        s1.types.len() >= s0.types.len(),
        forall|i: int| 0 <= i < s0.types.len() ==> s1.types[i] == s0.types[i],
        forall|i: int|
            s0.types.len() <= i < s1.types.len() ==> s1.type_wf(#[trigger] s1.types[i]),
        forall|i: int, j: int|
            #![trigger s1.types[i], s1.types[j]]
            0 <= i < s1.types.len() && s0.types.len() <= j < s1.types.len()
                && StoreV::internable(s1.types[i]) && s1.types[i] == s1.types[j] ==> i == j,
        s1.values.len() >= s0.values.len(),
        forall|i: int| 0 <= i < s0.values.len() ==> same_shape(s0.values[i], #[trigger] s1.values[i]),
        forall|i: int|
            0 <= i < s1.values.len() ==> (0 <= i < s0.values.len() && s1.values[i] == s0.values[i])
                || s1.value_wf(#[trigger] s1.values[i]),
        // an entry changed in place is never a deduplicated constant, and a
        // new deduplicated constant equals no other value
        forall|i: int|
            0 <= i < s0.values.len() && s1.values[i] != s0.values[i]
                ==> !StoreV::value_internable(#[trigger] s1.values[i]),
        forall|i: int, j: int|
            #![trigger s1.values[i], s1.values[j]]
            0 <= i < s1.values.len() && s0.values.len() <= j < s1.values.len()
                && StoreV::value_internable(s1.values[i]) && s1.values[i] == s1.values[j] ==> i
                == j,
        s1.modules.len() >= s0.modules.len(),
        forall|i: int|
            0 <= i < s1.modules.len() ==> (0 <= i < s0.modules.len() && (#[trigger] s1.modules[i])
                == s0.modules[i]) || s1.module_wf(s1.modules[i]),
        s1.builders.len() >= s0.builders.len(),
        forall|i: int|
            0 <= i < s1.builders.len() ==> (0 <= i < s0.builders.len() && (#[trigger] s1.builders[i])
                == s0.builders[i]) || s1.builder_wf(s1.builders[i]),
    ensures
        s1.wf(),
{
    assert forall|i: int| 0 <= i < s1.types.len() implies s1.type_wf(#[trigger] s1.types[i]) by {
        if i < s0.types.len() {
            assert(s0.type_wf(s0.types[i]));
        }
    }
    assert forall|i: int, j: int|
        #![trigger s1.types[i], s1.types[j]]
        0 <= i < s1.types.len() && 0 <= j < s1.types.len() && StoreV::internable(s1.types[i])
            && s1.types[i] == s1.types[j] implies i == j by {
        if i < s0.types.len() && j < s0.types.len() {
            assert(s0.types[i] == s0.types[j]);
        }
    }
    assert forall|i: int| 0 <= i < s1.values.len() implies s1.value_wf(#[trigger] s1.values[i]) by {
        if 0 <= i < s0.values.len() && s1.values[i] == s0.values[i] {
            assert(s0.value_wf(s0.values[i]));
            lemma_value_wf_mono(s0, s1, s0.values[i]);
        }
    }
    assert forall|i: int, j: int|
        #![trigger s1.values[i], s1.values[j]]
        0 <= i < s1.values.len() && 0 <= j < s1.values.len() && StoreV::value_internable(
            s1.values[i],
        ) && s1.values[i] == s1.values[j] implies i == j by {
        if i < s0.values.len() && j < s0.values.len() {
            if s1.values[i] != s0.values[i] {
                assert(!StoreV::value_internable(s1.values[i]));
            }
            if s1.values[j] != s0.values[j] {
                assert(!StoreV::value_internable(s1.values[j]));
            }
            assert(s0.values[i] == s0.values[j]);
        } else if i >= s0.values.len() && j < s0.values.len() {
            assert(StoreV::value_internable(s1.values[j]));
        }
    }
    assert forall|i: int| 0 <= i < s1.modules.len() implies s1.module_wf(
        #[trigger] s1.modules[i],
    ) by {
        if 0 <= i < s0.modules.len() && s1.modules[i] == s0.modules[i] {
            let m = s0.modules[i];
            assert(s0.module_wf(m));
            assert forall|j: int| 0 <= j < m.funcs.len() implies s1.is_function(
                #[trigger] m.funcs[j],
            ) by {
                assert(s0.is_function(m.funcs[j]));
                assert(same_shape(s0.values[m.funcs[j] as int], s1.values[m.funcs[j] as int]));
            }
        }
    }
    assert forall|i: int| 0 <= i < s1.builders.len() implies s1.builder_wf(
        #[trigger] s1.builders[i],
    ) by {
        if 0 <= i < s0.builders.len() && s1.builders[i] == s0.builders[i] {
            let b = s0.builders[i];
            assert(s0.builder_wf(b));
            match b.pos {
                Some(p) => {
                    assert(s0.is_basic_block(p));
                    assert(same_shape(s0.values[p as int], s1.values[p as int]));
                },
                None => {},
            }
        }
    }
}

// ---------------------------------------------------------------------
// The executable store.
// ---------------------------------------------------------------------

/// One type node.
pub enum TypeNode {
    Void,
    Integer { width: u32 },
    Function { ret: usize, params: Vec<usize>, vararg: bool },
    Label,
}

impl View for TypeNode {
    type V = TypeV;

    open spec fn view(&self) -> TypeV {
        match self {
            TypeNode::Void => TypeV::Void,
            TypeNode::Integer { width } => TypeV::Integer { width: *width },
            TypeNode::Function { ret, params, vararg } => TypeV::Function {
                ret: *ret,
                params: params@,
                vararg: *vararg,
            },
            TypeNode::Label => TypeV::Label,
        }
    }
}

/// One instruction.
pub enum InstNode {
    RetVoid,
    Ret { val: usize },
    Br { dest: usize },
    CondBr { cond: usize, then_dest: usize, else_dest: usize },
    Switch { cond: usize, default_dest: usize, cases: Vec<(usize, usize)> },
    Call { callee: usize, args: Vec<usize>, tail: bool },
}

impl View for InstNode {
    type V = InstV;

    open spec fn view(&self) -> InstV {
        match self {
            InstNode::RetVoid => InstV::RetVoid,
            InstNode::Ret { val } => InstV::Ret { val: *val },
            InstNode::Br { dest } => InstV::Br { dest: *dest },
            InstNode::CondBr { cond, then_dest, else_dest } => InstV::CondBr {
                cond: *cond,
                then_dest: *then_dest,
                else_dest: *else_dest,
            },
            InstNode::Switch { cond, default_dest, cases } => InstV::Switch {
                cond: *cond,
                default_dest: *default_dest,
                cases: cases@,
            },
            InstNode::Call { callee, args, tail } => InstV::Call {
                callee: *callee,
                args: args@,
                tail: *tail,
            },
        }
    }
}

/// The payload of one value node.
pub enum ValueData {
    Function { name: Vec<u8>, blocks: Vec<usize> },
    BasicBlock { name: Vec<u8>, insts: Vec<usize> },
    ConstInt { bits: u64 },
    Undef,
    ConstNull,
    ConstPointerNull,
    Inst { inst: InstNode },
}

impl View for ValueData {
    type V = ValueDataV;

    open spec fn view(&self) -> ValueDataV {
        match self {
            ValueData::Function { name, blocks } => ValueDataV::Function {
                name: name@,
                blocks: blocks@,
            },
            ValueData::BasicBlock { name, insts } => ValueDataV::BasicBlock {
                name: name@,
                insts: insts@,
            },
            ValueData::ConstInt { bits } => ValueDataV::ConstInt { bits: *bits },
            ValueData::Undef => ValueDataV::Undef,
            ValueData::ConstNull => ValueDataV::ConstNull,
            ValueData::ConstPointerNull => ValueDataV::ConstPointerNull,
            ValueData::Inst { inst } => ValueDataV::Inst { inst: inst@ },
        }
    }
}

/// One value node.
pub struct ValueNode {
    pub ty: usize,
    pub data: ValueData,
}

impl View for ValueNode {
    type V = ValueV;

    open spec fn view(&self) -> ValueV {
        ValueV { ty: self.ty, data: self.data@ }
    }
}

/// One module node.
pub struct ModuleNode {
    pub live: bool,
    pub name: Vec<u8>,
    pub ctx: usize,
    pub funcs: Vec<usize>,
}

impl View for ModuleNode {
    type V = ModuleV;

    open spec fn view(&self) -> ModuleV {
        ModuleV { live: self.live, name: self.name@, ctx: self.ctx, funcs: self.funcs@ }
    }
}

/// One builder node.
#[derive(Clone, Copy)]
pub struct BuilderNode {
    pub live: bool,
    pub ctx: usize,
    pub pos: Option<usize>,
}

impl View for BuilderNode {
    type V = BuilderV;

    open spec fn view(&self) -> BuilderV {
        BuilderV { live: self.live, ctx: self.ctx, pos: self.pos }
    }
}

/// The store itself.
pub struct Store {
    pub contexts: Vec<bool>,
    pub modules: Vec<ModuleNode>,
    pub types: Vec<TypeNode>,
    pub values: Vec<ValueNode>,
    pub builders: Vec<BuilderNode>,
}

impl View for Store {
    type V = StoreV;

    open spec fn view(&self) -> StoreV {
        StoreV {
            contexts: self.contexts@,
            modules: self.modules@.map_values(|m: ModuleNode| m@),
            types: self.types@.map_values(|t: TypeNode| t@),
            values: self.values@.map_values(|v: ValueNode| v@),
            builders: self.builders@.map_values(|b: BuilderNode| b@),
        }
    }
}

impl Store {
    /// A fresh store holds exactly the live global context and nothing
    /// else.
    pub fn new() -> (s: Store)
        ensures
            s@.wf(),
            s@.contexts =~= seq![true],
            s@.modules =~= Seq::<ModuleV>::empty(),
            s@.types =~= Seq::<TypeV>::empty(),
            s@.values =~= Seq::<ValueV>::empty(),
            s@.builders =~= Seq::<BuilderV>::empty(),
    {
        let mut contexts: Vec<bool> = Vec::new();
        contexts.push(true);
        Store {
            contexts,
            modules: Vec::new(),
            types: Vec::new(),
            values: Vec::new(),
            builders: Vec::new(),
        }
    }

    /// Creates a fresh, live context and hands its handle out.
    pub(crate) fn new_context(&mut self) -> (h: usize)
        requires
            old(self)@.wf(),
        ensures
            final(self)@.wf(),
            h == old(self)@.contexts.len(),
            final(self)@.contexts == old(self)@.contexts.push(true),
            final(self)@.modules == old(self)@.modules,
            final(self)@.types == old(self)@.types,
            final(self)@.values == old(self)@.values,
            final(self)@.builders == old(self)@.builders,
    {
        let h = self.contexts.len();
        self.contexts.push(true);
        proof {
            lemma_wf_frame(old(self)@, self@);
        }
        h
    }

    /// Marks a context disposed.  The global context is never disposed.
    pub(crate) fn dispose_context(&mut self, h: usize)
        requires
            old(self)@.wf(),
            old(self)@.ctx_valid(h),
            h != GLOBAL_CONTEXT,
        ensures
            final(self)@.wf(),
            final(self)@.contexts == old(self)@.contexts.update(h as int, false),
            final(self)@.modules == old(self)@.modules,
            final(self)@.types == old(self)@.types,
            final(self)@.values == old(self)@.values,
            final(self)@.builders == old(self)@.builders,
    {
        self.contexts.set(h, false);
        proof {
            lemma_wf_frame(old(self)@, self@);
        }
    }

    /// Creates an empty, live module owned by the given context.
    pub(crate) fn new_module(&mut self, name: Vec<u8>, ctx: usize) -> (h: usize)
        requires
            old(self)@.wf(),
            name_ok(name@),
            old(self)@.ctx_valid(ctx),
        ensures
            final(self)@.wf(),
            h == old(self)@.modules.len(),
            final(self)@.modules == old(self)@.modules.push(
                ModuleV { live: true, name: name@, ctx, funcs: Seq::<usize>::empty() },
            ),
            final(self)@.contexts == old(self)@.contexts,
            final(self)@.types == old(self)@.types,
            final(self)@.values == old(self)@.values,
            final(self)@.builders == old(self)@.builders,
    {
        let h = self.modules.len();
        let ghost nv = ModuleV { live: true, name: name@, ctx, funcs: Seq::<usize>::empty() };
        self.modules.push(ModuleNode { live: true, name, ctx, funcs: Vec::new() });
        proof {
            assert(self@.modules =~= old(self)@.modules.push(nv));
            lemma_wf_frame(old(self)@, self@);
        }
        h
    }

    /// Marks a module disposed; the IR it owns goes with it.
    pub(crate) fn dispose_module(&mut self, m: usize)
        requires
            old(self)@.wf(),
            old(self)@.module_valid(m),
        ensures
            final(self)@.wf(),
            final(self)@.modules == old(self)@.modules.update(
                m as int,
                (ModuleV { live: false, ..old(self)@.module_at(m) }),
            ),
            final(self)@.contexts == old(self)@.contexts,
            final(self)@.types == old(self)@.types,
            final(self)@.values == old(self)@.values,
            final(self)@.builders == old(self)@.builders,
    {
        let node = &mut self.modules[m];
        node.live = false;
        proof {
            assert(self@.modules =~= old(self)@.modules.update(
                m as int,
                (ModuleV { live: false, ..old(self)@.module_at(m) }),
            ));
            assert(self@.module_wf(self@.modules[m as int])) by {
                let m0 = old(self)@.modules[m as int];
                assert(old(self)@.module_wf(m0));
                assert forall|j: int| 0 <= j < m0.funcs.len() implies self@.is_function(
                    #[trigger] m0.funcs[j],
                ) by {
                    assert(old(self)@.is_function(m0.funcs[j]));
                }
            }
            lemma_wf_frame(old(self)@, self@);
        }
    }

    /// Appends a function handle to a module's function list.
    pub(crate) fn module_add_func(&mut self, m: usize, f: usize)
        requires
            old(self)@.wf(),
            old(self)@.module_valid(m),
            old(self)@.is_function(f),
        ensures
            final(self)@.wf(),
            final(self)@.modules == old(self)@.modules.update(
                m as int,
                (ModuleV {
                    funcs: old(self)@.module_at(m).funcs.push(f),
                    ..old(self)@.module_at(m)
                }),
            ),
            final(self)@.contexts == old(self)@.contexts,
            final(self)@.types == old(self)@.types,
            final(self)@.values == old(self)@.values,
            final(self)@.builders == old(self)@.builders,
    {
        let node = &mut self.modules[m];
        node.funcs.push(f);
        proof {
            let m0 = old(self)@.module_at(m);
            assert(self@.modules =~= old(self)@.modules.update(
                m as int,
                (ModuleV { funcs: m0.funcs.push(f), ..m0 }),
            ));
            assert(self@.module_wf(self@.modules[m as int])) by {
                assert(old(self)@.module_wf(m0));
                assert forall|j: int| 0 <= j < m0.funcs.push(f).len() implies self@.is_function(
                    #[trigger] m0.funcs.push(f)[j],
                ) by {
                    if j < m0.funcs.len() {
                        assert(old(self)@.is_function(m0.funcs[j]));
                    } else {
                        assert(m0.funcs.push(f)[j] == f);
                    }
                }
            }
            lemma_wf_frame(old(self)@, self@);
        }
    }

    /// Creates a live builder in the given context, not yet positioned.
    pub(crate) fn new_builder(&mut self, ctx: usize) -> (h: usize)
        requires
            old(self)@.wf(),
            old(self)@.ctx_valid(ctx),
        ensures
            final(self)@.wf(),
            h == old(self)@.builders.len(),
            final(self)@.builders == old(self)@.builders.push(
                (BuilderV { live: true, ctx, pos: None }),
            ),
            final(self)@.contexts == old(self)@.contexts,
            final(self)@.modules == old(self)@.modules,
            final(self)@.types == old(self)@.types,
            final(self)@.values == old(self)@.values,
    {
        let h = self.builders.len();
        self.builders.push(BuilderNode { live: true, ctx, pos: None });
        proof {
            assert(self@.builders =~= old(self)@.builders.push(
                (BuilderV { live: true, ctx, pos: None }),
            ));
            lemma_wf_frame(old(self)@, self@);
        }
        h
    }

    /// Marks a builder disposed.
    pub(crate) fn dispose_builder(&mut self, b: usize)
        requires
            old(self)@.wf(),
            old(self)@.builder_valid(b),
        ensures
            final(self)@.wf(),
            final(self)@.builders == old(self)@.builders.update(
                b as int,
                (BuilderV { live: false, ..old(self)@.builder_at(b) }),
            ),
            final(self)@.contexts == old(self)@.contexts,
            final(self)@.modules == old(self)@.modules,
            final(self)@.types == old(self)@.types,
            final(self)@.values == old(self)@.values,
    {
        let n = self.builders[b];
        self.builders.set(b, BuilderNode { live: false, ctx: n.ctx, pos: n.pos });
        proof {
            assert(self@.builders =~= old(self)@.builders.update(
                b as int,
                (BuilderV { live: false, ..old(self)@.builder_at(b) }),
            ));
            assert(self@.builder_wf(self@.builders[b as int])) by {
                assert(old(self)@.builder_wf(old(self)@.builders[b as int]));
                match old(self)@.builder_at(b).pos {
                    Some(p) => {
                        assert(old(self)@.is_basic_block(p));
                    },
                    None => {},
                }
            }
            lemma_wf_frame(old(self)@, self@);
        }
    }

    /// Moves a builder's cursor to the end of the given block.
    pub(crate) fn builder_set_pos(&mut self, b: usize, blk: usize)
        requires
            old(self)@.wf(),
            old(self)@.builder_valid(b),
            old(self)@.is_basic_block(blk),
        ensures
            final(self)@.wf(),
            final(self)@.builders == old(self)@.builders.update(
                b as int,
                (BuilderV { pos: Some(blk), ..old(self)@.builder_at(b) }),
            ),
            final(self)@.contexts == old(self)@.contexts,
            final(self)@.modules == old(self)@.modules,
            final(self)@.types == old(self)@.types,
            final(self)@.values == old(self)@.values,
    {
        let n = self.builders[b];
        self.builders.set(b, BuilderNode { live: n.live, ctx: n.ctx, pos: Some(blk) });
        proof {
            assert(self@.builders =~= old(self)@.builders.update(
                b as int,
                (BuilderV { pos: Some(blk), ..old(self)@.builder_at(b) }),
            ));
            lemma_wf_frame(old(self)@, self@);
        }
    }

    /// Returns the handle of the type node holding `data`, creating it if
    /// the store lacks one.  The store deduplicates these nodes, so a
    /// handle to `data` is the same on every call.
    pub(crate) fn intern_type(&mut self, data: TypeNode) -> (h: usize)
        requires
            old(self)@.wf(),
            StoreV::internable(data@),
        ensures
            final(self)@.wf(),
            final(self)@.type_valid(h),
            final(self)@.type_at(h) == data@,
            forall|g: usize|
                old(self)@.type_valid(g) && old(self)@.type_at(g) == data@ ==> g == h,
            (exists|g: usize| old(self)@.type_valid(g) && old(self)@.type_at(g) == data@)
                ==> final(self)@ == old(self)@,
            final(self)@.types.len() >= old(self)@.types.len(),
            final(self)@.types.len() <= old(self)@.types.len() + 1,
            forall|i: int| 0 <= i < old(self)@.types.len() ==> final(self)@.types[i] == old(self)@.types[i],
            final(self)@.contexts == old(self)@.contexts,
            final(self)@.modules == old(self)@.modules,
            final(self)@.values == old(self)@.values,
            final(self)@.builders == old(self)@.builders,
    {
        let n = self.types.len();
        let mut i: usize = 0;
        while i < n
            invariant
                *self == *old(self),
                self@.wf(),
                n == self.types@.len(),
                i <= n,
                StoreV::internable(data@),
                forall|j: int| 0 <= j < i ==> self@.types[j] != data@,
            decreases n - i,
        {
            let found = match (&self.types[i], &data) {
                (TypeNode::Void, TypeNode::Void) => true,
                (TypeNode::Label, TypeNode::Label) => true,
                (TypeNode::Integer { width: a }, TypeNode::Integer { width: b }) => *a == *b,
                _ => false,
            };
            if found {
                proof {
                    assert(self@.type_at(i) == data@);
                    assert forall|g: usize|
                        self@.type_valid(g) && self@.type_at(g) == data@ implies g == i by {
                        assert(self@.types[g as int] == self@.types[i as int]);
                    }
                }
                return i;
            }
            proof {
                assert(self@.types[i as int] != data@);
            }
            i = i + 1;
        }
        let ghost dv = data@;
        self.types.push(data);
        proof {
            assert(self@.types =~= old(self)@.types.push(dv));
            assert forall|a: int, b: int|
                #![trigger self@.types[a], self@.types[b]]
                0 <= a < self@.types.len() && old(self)@.types.len() <= b < self@.types.len()
                    && StoreV::internable(self@.types[a]) && self@.types[a] == self@.types[b]
                implies a == b by {
                assert(b == old(self)@.types.len());
                if a < b {
                    assert(self@.types[a] == old(self)@.types[a]);
                    assert(old(self)@.types[a] != dv);
                }
            }
            lemma_wf_frame(old(self)@, self@);
        }
        n
    }

    /// Appends a fresh function-signature type node; these are not
    /// deduplicated.
    pub(crate) fn push_function_type(&mut self, ret: usize, params: Vec<usize>, vararg: bool) -> (h:
        usize)
        requires
            old(self)@.wf(),
            old(self)@.type_valid(ret),
            forall|i: int| 0 <= i < params@.len() ==> old(self)@.type_valid(#[trigger] params@[i]),
        ensures
            final(self)@.wf(),
            h == old(self)@.types.len(),
            final(self)@.types == old(self)@.types.push(
                (TypeV::Function { ret, params: params@, vararg }),
            ),
            final(self)@.contexts == old(self)@.contexts,
            final(self)@.modules == old(self)@.modules,
            final(self)@.values == old(self)@.values,
            final(self)@.builders == old(self)@.builders,
    {
        let h = self.types.len();
        let ghost pv = params@;
        self.types.push(TypeNode::Function { ret, params, vararg });
        proof {
            assert(self@.types =~= old(self)@.types.push(
                (TypeV::Function { ret, params: pv, vararg }),
            ));
            lemma_wf_frame(old(self)@, self@);
        }
        h
    }

    /// Appends a fresh value node; nodes of the deduplicated constant
    /// kinds go through `intern_value` instead.
    pub(crate) fn push_value(&mut self, node: ValueNode) -> (h: usize)
        requires
            old(self)@.wf(),
            old(self)@.value_wf(node@),
            !StoreV::value_internable(node@),
        ensures
            final(self)@.wf(),
            h == old(self)@.values.len(),
            final(self)@.values == old(self)@.values.push(node@),
            final(self)@.contexts == old(self)@.contexts,
            final(self)@.modules == old(self)@.modules,
            final(self)@.types == old(self)@.types,
            final(self)@.builders == old(self)@.builders,
    {
        let h = self.values.len();
        let ghost nv = node@;
        self.values.push(node);
        proof {
            assert(self@.values =~= old(self)@.values.push(nv));
            lemma_value_wf_mono(old(self)@, self@, nv);
            lemma_wf_frame(old(self)@, self@);
        }
        h
    }

    /// Returns the handle of the value node holding exactly this type and
    /// payload, creating it if the store lacks one.  The store
    /// deduplicates constant nodes, so a handle to a constant is the same
    /// on every call.
    pub(crate) fn intern_value(&mut self, node: ValueNode) -> (h: usize)
        requires
            old(self)@.wf(),
            old(self)@.value_wf(node@),
            StoreV::value_internable(node@),
        ensures
            final(self)@.wf(),
            final(self)@.value_valid(h),
            final(self)@.value_at(h) == node@,
            forall|g: usize|
                old(self)@.value_valid(g) && old(self)@.value_at(g) == node@ ==> g == h,
            (exists|g: usize| old(self)@.value_valid(g) && old(self)@.value_at(g) == node@)
                ==> final(self)@ == old(self)@,
            final(self)@.values.len() >= old(self)@.values.len(),
            final(self)@.values.len() <= old(self)@.values.len() + 1,
            forall|i: int|
                0 <= i < old(self)@.values.len() ==> final(self)@.values[i] == old(
                    self,
                )@.values[i],
            final(self)@.contexts == old(self)@.contexts,
            final(self)@.modules == old(self)@.modules,
            final(self)@.types == old(self)@.types,
            final(self)@.builders == old(self)@.builders,
    {
        let n = self.values.len();
        let mut i: usize = 0;
        while i < n
            invariant
                *self == *old(self),
                self@.wf(),
                old(self)@.value_wf(node@),
                StoreV::value_internable(node@),
                n == self.values@.len(),
                i <= n,
                forall|j: int| 0 <= j < i ==> self@.values[j] != node@,
            decreases n - i,
        {
            let candidate = &self.values[i];
            let found = candidate.ty == node.ty && match (&candidate.data, &node.data) {
                (ValueData::ConstInt { bits: a }, ValueData::ConstInt { bits: b }) => *a == *b,
                (ValueData::Undef, ValueData::Undef) => true,
                (ValueData::ConstNull, ValueData::ConstNull) => true,
                (ValueData::ConstPointerNull, ValueData::ConstPointerNull) => true,
                _ => false,
            };
            if found {
                proof {
                    assert(self@.value_at(i) == node@);
                    assert forall|g: usize|
                        self@.value_valid(g) && self@.value_at(g) == node@ implies g == i by {
                        assert(self@.values[g as int] == self@.values[i as int]);
                    }
                }
                return i;
            }
            proof {
                assert(self@.values[i as int] != node@);
            }
            i = i + 1;
        }
        let ghost nv = node@;
        self.values.push(node);
        proof {
            assert(self@.values =~= old(self)@.values.push(nv));
            assert forall|a: int, b: int|
                #![trigger self@.values[a], self@.values[b]]
                0 <= a < self@.values.len() && old(self)@.values.len() <= b < self@.values.len()
                    && StoreV::value_internable(self@.values[a]) && self@.values[a]
                    == self@.values[b] implies a == b by {
                assert(b == old(self)@.values.len());
                if a < b {
                    assert(self@.values[a] == old(self)@.values[a]);
                    assert(old(self)@.values[a] != nv);
                }
            }
            lemma_value_wf_mono(old(self)@, self@, nv);
            lemma_wf_frame(old(self)@, self@);
        }
        n
    }

    /// Appends a block handle to a function's block list.
    pub(crate) fn func_add_block(&mut self, f: usize, b: usize)
        requires
            old(self)@.wf(),
            old(self)@.is_function(f),
            old(self)@.is_basic_block(b),
        ensures
            final(self)@.wf(),
            final(self)@.values == old(self)@.values.update(
                f as int,
                (ValueV {
                    ty: old(self)@.value_at(f).ty,
                    data: ValueDataV::Function {
                        name: old(self)@.func_name(f),
                        blocks: old(self)@.func_blocks(f).push(b),
                    },
                }),
            ),
            final(self)@.contexts == old(self)@.contexts,
            final(self)@.modules == old(self)@.modules,
            final(self)@.types == old(self)@.types,
            final(self)@.builders == old(self)@.builders,
    {
        let node = &mut self.values[f];
        match &mut node.data {
            ValueData::Function { blocks, .. } => {
                blocks.push(b);
            },
            _ => {
                proof {
                    assert(false);
                }
            },
        }
        proof {
            let v1 = ValueV {
                ty: old(self)@.value_at(f).ty,
                data: ValueDataV::Function {
                    name: old(self)@.func_name(f),
                    blocks: old(self)@.func_blocks(f).push(b),
                },
            };
            assert(self@.values =~= old(self)@.values.update(f as int, v1));
            assert(self@.value_wf(v1)) by {
                assert(old(self)@.value_wf(old(self)@.values[f as int]));
                let blocks1 = old(self)@.func_blocks(f).push(b);
                assert forall|j: int| 0 <= j < blocks1.len() implies self@.is_basic_block(
                    #[trigger] blocks1[j],
                ) by {
                    if j < old(self)@.func_blocks(f).len() {
                        assert(old(self)@.is_basic_block(blocks1[j]));
                    } else {
                        assert(blocks1[j] == b);
                    }
                }
            }
            lemma_wf_frame(old(self)@, self@);
        }
    }

    /// Appends an instruction handle to a block's instruction list.
    pub(crate) fn block_add_inst(&mut self, b: usize, inst: usize)
        requires
            old(self)@.wf(),
            old(self)@.is_basic_block(b),
            old(self)@.is_inst(inst),
        ensures
            final(self)@.wf(),
            final(self)@.values == old(self)@.values.update(
                b as int,
                (ValueV {
                    ty: old(self)@.value_at(b).ty,
                    data: ValueDataV::BasicBlock {
                        name: old(self)@.block_name(b),
                        insts: old(self)@.block_insts(b).push(inst),
                    },
                }),
            ),
            final(self)@.contexts == old(self)@.contexts,
            final(self)@.modules == old(self)@.modules,
            final(self)@.types == old(self)@.types,
            final(self)@.builders == old(self)@.builders,
    {
        let node = &mut self.values[b];
        match &mut node.data {
            ValueData::BasicBlock { insts, .. } => {
                insts.push(inst);
            },
            _ => {
                proof {
                    assert(false);
                }
            },
        }
        proof {
            let v1 = ValueV {
                ty: old(self)@.value_at(b).ty,
                data: ValueDataV::BasicBlock {
                    name: old(self)@.block_name(b),
                    insts: old(self)@.block_insts(b).push(inst),
                },
            };
            assert(self@.values =~= old(self)@.values.update(b as int, v1));
            assert(self@.value_wf(v1)) by {
                assert(old(self)@.value_wf(old(self)@.values[b as int]));
                let insts1 = old(self)@.block_insts(b).push(inst);
                assert forall|j: int| 0 <= j < insts1.len() implies self@.is_inst(
                    #[trigger] insts1[j],
                ) by {
                    if j < old(self)@.block_insts(b).len() {
                        assert(old(self)@.is_inst(insts1[j]));
                    } else {
                        assert(insts1[j] == inst);
                    }
                }
            }
            lemma_wf_frame(old(self)@, self@);
        }
    }

    /// Sets the tail-call marker of a call instruction.
    pub(crate) fn call_set_tail(&mut self, c: usize, tail: bool)
        requires
            old(self)@.wf(),
            old(self)@.is_call(c),
        ensures
            final(self)@.wf(),
            final(self)@.values == old(self)@.values.update(
                c as int,
                (ValueV {
                    ty: old(self)@.value_at(c).ty,
                    data: ValueDataV::Inst {
                        inst: InstV::Call {
                            callee: old(self)@.call_callee(c),
                            args: old(self)@.call_args(c),
                            tail,
                        },
                    },
                }),
            ),
            final(self)@.contexts == old(self)@.contexts,
            final(self)@.modules == old(self)@.modules,
            final(self)@.types == old(self)@.types,
            final(self)@.builders == old(self)@.builders,
    {
        let node = &mut self.values[c];
        match &mut node.data {
            ValueData::Inst { inst } => {
                match inst {
                    InstNode::Call { tail: t, .. } => {
                        *t = tail;
                    },
                    _ => {
                        proof {
                            assert(false);
                        }
                    },
                }
            },
            _ => {
                proof {
                    assert(false);
                }
            },
        }
        proof {
            let v1 = ValueV {
                ty: old(self)@.value_at(c).ty,
                data: ValueDataV::Inst {
                    inst: InstV::Call {
                        callee: old(self)@.call_callee(c),
                        args: old(self)@.call_args(c),
                        tail,
                    },
                },
            };
            assert(self@.values =~= old(self)@.values.update(c as int, v1));
            assert(self@.value_wf(v1)) by {
                assert(old(self)@.value_wf(old(self)@.values[c as int]));
                let args = old(self)@.call_args(c);
                assert forall|j: int| 0 <= j < args.len() implies self@.value_valid(
                    #[trigger] args[j],
                ) by {
                    assert(old(self)@.value_valid(args[j]));
                }
            }
            lemma_wf_frame(old(self)@, self@);
        }
    }
}

} // verus!
