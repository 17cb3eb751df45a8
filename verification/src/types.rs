//! The type facade: generic type handles and the function-signature
//! specialization.

use vstd::prelude::*;
use vstd::string::StringExecFns;

use crate::store::{Store, StoreV, TypeNode, TypeV};

verus! {

/// The classification the store attaches to a type node.
#[derive(Debug, PartialEq, Eq, Structural, Clone, Copy)]
pub enum TypeKind {
    Void,
    Integer,
    Function,
    Pointer,
    Struct,
    Array,
    Vector,
    Label,
    Metadata,
}

/// The kind the store reports for a type node.
pub open spec fn spec_type_kind(t: TypeV) -> TypeKind {
    match t {
        TypeV::Void => TypeKind::Void,
        TypeV::Integer { .. } => TypeKind::Integer,
        TypeV::Function { .. } => TypeKind::Function,
        TypeV::Label => TypeKind::Label,
    }
}

/// Whether a value of the type takes storage.  Of the kinds this store
/// creates, exactly the integer types are sized: void, function and
/// label types are not.
pub open spec fn spec_is_sized(t: TypeV) -> bool {
    t is Integer
}

/// The store's canonical text for a type node: a function of the node
/// alone, so the rendering of an unmutated node never changes.
pub open spec fn spec_render_type(t: TypeV) -> Seq<char> {
    match t {
        TypeV::Void => "void"@,
        TypeV::Integer { width } => "i"@ + crate::spec_decimal(width as nat),
        TypeV::Function { .. } => "fn"@,
        TypeV::Label => "label"@,
    }
}

/// Holds when `s1` is `s0` after interning the type node `data`, with
/// `h` the handle handed out: the store keeps one node per deduplicated
/// type, so `h` is the handle of `data` in `s1`, any earlier node for
/// `data` is that same handle, at most one node was appended, and no
/// other table moved.
pub open spec fn interns_type(s0: StoreV, s1: StoreV, h: usize, data: TypeV) -> bool {
    &&& s1.wf()
    &&& s1.type_valid(h)
    &&& s1.type_at(h) == data
    &&& forall|g: usize| s0.type_valid(g) && s0.type_at(g) == data ==> g == h
    &&& (exists|g: usize| s0.type_valid(g) && s0.type_at(g) == data) ==> s1 == s0
    &&& s1.types.len() >= s0.types.len()
    &&& s1.types.len() <= s0.types.len() + 1
    &&& forall|i: int| 0 <= i < s0.types.len() ==> s1.types[i] == s0.types[i]
    &&& s1.contexts == s0.contexts
    &&& s1.modules == s0.modules
    &&& s1.values == s0.values
    &&& s1.builders == s0.builders
}

/// Law: interning memoizes.  Interning the same type data twice hands
/// the same handle back, and the second interning leaves the store
/// unchanged — so handle equality identifies equal deduplicated types.
pub proof fn lemma_intern_memoizes(
    s0: StoreV,
    s1: StoreV,
    s2: StoreV,
    h1: usize,
    h2: usize,
    data: TypeV,
)
    requires
        interns_type(s0, s1, h1, data),
        interns_type(s1, s2, h2, data),
    ensures
        h2 == h1,
        s2 == s1,
{
    assert(s1.type_valid(h1) && s1.type_at(h1) == data);
}

/// A generic type handle.  Types are owned by their context's arena and
/// are never disposed individually.
#[derive(Debug, PartialEq, Eq, Structural, Clone, Copy)]
pub struct Type {
    handle: usize,
}

impl View for Type {
    type V = usize;

    closed spec fn view(&self) -> usize {
        self.handle
    }
}

impl Type {
    /// The type wrapper with a given handle, at the specification level.
    pub closed spec fn spec_with_handle(h: usize) -> Type {
        Type { handle: h }
    }

    /// The wrapper built around a handle carries exactly that handle.
    pub proof fn lemma_with_handle(h: usize)
        ensures
            Type::spec_with_handle(h)@ == h,
    {
    }

    /// A type wrapper names a type node of the store.
    pub open spec fn wf(&self, s: StoreV) -> bool {
        s.type_valid(self@)
    }

    pub(crate) fn from_handle(handle: usize) -> (t: Type)
        ensures
            t@ == handle,
            t == Type::spec_with_handle(handle),
    {
        Type { handle }
    }

    pub(crate) fn raw(&self) -> (h: usize)
        ensures
            h == self@,
    {
        self.handle
    }

    /// Queries the store for the node's kind.  Total: every valid type
    /// handle has a kind.
    pub fn kind(&self, store: &Store) -> (k: TypeKind)
        requires
            store@.wf(),
            self.wf(store@),
        ensures
            k == spec_type_kind(store@.type_at(self@)),
    {
        match &store.types[self.handle] {
            TypeNode::Void => TypeKind::Void,
            TypeNode::Integer { .. } => TypeKind::Integer,
            TypeNode::Function { .. } => TypeKind::Function,
            TypeNode::Label => TypeKind::Label,
        }
    }

    /// Whether values of this type take storage.
    pub fn is_sized(&self, store: &Store) -> (b: bool)
        requires
            store@.wf(),
            self.wf(store@),
        ensures
            b == spec_is_sized(store@.type_at(self@)),
    {
        match &store.types[self.handle] {
            TypeNode::Integer { .. } => true,
            _ => false,
        }
    }

    /// The store's canonical text for the type.  Total, never empty, and
    /// a function of the node alone — repeated calls on an unmutated node
    /// agree; the exact bytes are the store's own form.
    pub fn print_to_string(&self, store: &Store) -> (r: String)
        requires
            store@.wf(),
            self.wf(store@),
        ensures
            r@ == spec_render_type(store@.type_at(self@)),
            r@.len() > 0,
    {
        proof {
            reveal_strlit("void");
            reveal_strlit("i");
            reveal_strlit("fn");
            reveal_strlit("label");
        }
        match &store.types[self.handle] {
            TypeNode::Void => String::from_str("void"),
            TypeNode::Integer { width } => {
                let mut s = String::from_str("i");
                let digits = crate::decimal_string(*width as u64);
                s.append(digits.as_str());
                s
            },
            TypeNode::Function { .. } => String::from_str("fn"),
            TypeNode::Label => String::from_str("label"),
        }
    }

    /// The void type of the store, interned: every call yields the same
    /// handle.
    pub fn void(store: &mut Store) -> (t: Type)
        requires
            old(store)@.wf(),
        ensures
            final(store)@.wf(),
            t.wf(final(store)@),
            interns_type(old(store)@, final(store)@, t@, TypeV::Void),
    {
        Type { handle: store.intern_type(TypeNode::Void) }
    }

    /// The integer type of the given bit width, interned per width: calls
    /// with equal widths yield the same handle.  The store supports only
    /// positive widths — asking it for a zero-width integer type aborts,
    /// so that width is excluded here.
    pub fn integer(store: &mut Store, num: u32) -> (t: Type)
        requires
            old(store)@.wf(),
            num >= 1,
        ensures
            final(store)@.wf(),
            t.wf(final(store)@),
            interns_type(old(store)@, final(store)@, t@, (TypeV::Integer { width: num })),
    {
        Type { handle: store.intern_type(TypeNode::Integer { width: num }) }
    }

    /// The 1-bit integer type, interned.
    pub fn int1(store: &mut Store) -> (t: Type)
        requires
            old(store)@.wf(),
        ensures
            final(store)@.wf(),
            t.wf(final(store)@),
            interns_type(old(store)@, final(store)@, t@, (TypeV::Integer { width: 1 })),
    {
        Type::integer(store, 1)
    }

    /// The 8-bit integer type, interned.
    pub fn int8(store: &mut Store) -> (t: Type)
        requires
            old(store)@.wf(),
        ensures
            final(store)@.wf(),
            t.wf(final(store)@),
            interns_type(old(store)@, final(store)@, t@, (TypeV::Integer { width: 8 })),
    {
        Type::integer(store, 8)
    }

    /// The 16-bit integer type, interned.
    pub fn int16(store: &mut Store) -> (t: Type)
        requires
            old(store)@.wf(),
        ensures
            final(store)@.wf(),
            t.wf(final(store)@),
            interns_type(old(store)@, final(store)@, t@, (TypeV::Integer { width: 16 })),
    {
        Type::integer(store, 16)
    }

    /// The 32-bit integer type, interned.
    pub fn int32(store: &mut Store) -> (t: Type)
        requires
            old(store)@.wf(),
        ensures
            final(store)@.wf(),
            t.wf(final(store)@),
            interns_type(old(store)@, final(store)@, t@, (TypeV::Integer { width: 32 })),
    {
        Type::integer(store, 32)
    }

    /// The 64-bit integer type, interned.
    pub fn int64(store: &mut Store) -> (t: Type)
        requires
            old(store)@.wf(),
        ensures
            final(store)@.wf(),
            t.wf(final(store)@),
            interns_type(old(store)@, final(store)@, t@, (TypeV::Integer { width: 64 })),
    {
        Type::integer(store, 64)
    }

    /// The 128-bit integer type, interned.
    pub fn int128(store: &mut Store) -> (t: Type)
        requires
            old(store)@.wf(),
        ensures
            final(store)@.wf(),
            t.wf(final(store)@),
            interns_type(old(store)@, final(store)@, t@, (TypeV::Integer { width: 128 })),
    {
        Type::integer(store, 128)
    }
}

/// A type handle whose node is known to be a function-signature type.
#[derive(Debug, PartialEq, Eq, Structural, Clone, Copy)]
pub struct FunctionType {
    handle: usize,
}

impl View for FunctionType {
    type V = usize;

    closed spec fn view(&self) -> usize {
        self.handle
    }
}

impl From<FunctionType> for Type {
    /// The upcast: the same handle, viewed generically.  Total and free.
    fn from(t: FunctionType) -> (r: Type) {
        Type { handle: t.handle }
    }
}

impl vstd::std_specs::convert::FromSpecImpl<FunctionType> for Type {
    open spec fn obeys_from_spec() -> bool {
        true
    }

    open spec fn from_spec(t: FunctionType) -> Type {
        Type::spec_with_handle(t@)
    }
}

impl FunctionType {
    /// A function-type wrapper names a type node the store classifies as
    /// a function signature.
    pub open spec fn wf(&self, s: StoreV) -> bool {
        &&& s.type_valid(self@)
        &&& s.type_at(self@) is Function
    }

    pub(crate) fn raw(&self) -> (h: usize)
        ensures
            h == self@,
    {
        self.handle
    }

    /// Creates the signature type with the given return type, parameter
    /// types (kept in order) and variadic flag.  Always succeeds.
    pub fn new(store: &mut Store, ret_type: Type, args: &[Type], is_vararg: bool) -> (f:
        FunctionType)
        requires
            old(store)@.wf(),
            ret_type.wf(old(store)@),
            forall|i: int| 0 <= i < args@.len() ==> (#[trigger] args@[i]).wf(old(store)@),
        ensures
            final(store)@.wf(),
            f.wf(final(store)@),
            f@ == old(store)@.types.len(),
            final(store)@.types == old(store)@.types.push(
                (TypeV::Function {
                    ret: ret_type@,
                    params: args@.map_values(|t: Type| t@),
                    vararg: is_vararg,
                }),
            ),
            final(store)@.contexts == old(store)@.contexts,
            final(store)@.modules == old(store)@.modules,
            final(store)@.values == old(store)@.values,
            final(store)@.builders == old(store)@.builders,
    {
        let n = args.len();
        let mut params: Vec<usize> = Vec::new();
        let mut i: usize = 0;
        while i < n
            invariant
                n == args@.len(),
                i <= n,
                params@.len() == i,
                forall|j: int| 0 <= j < i ==> params@[j] == (#[trigger] args@[j])@,
                forall|j: int| 0 <= j < n ==> (#[trigger] args@[j]).wf(old(store)@),
                *store == *old(store),
            decreases n - i,
        {
            params.push(vstd::slice::slice_index_get(args, i).raw());
            i = i + 1;
        }
        proof {
            assert(params@ =~= args@.map_values(|t: Type| t@));
        }
        let h = store.push_function_type(ret_type.raw(), params, is_vararg);
        FunctionType { handle: h }
    }

    /// Whether the signature accepts additional, variadic arguments.
    pub fn is_vararg(&self, store: &Store) -> (b: bool)
        requires
            store@.wf(),
            self.wf(store@),
        ensures
            b == store@.type_at(self@)->Function_vararg,
    {
        match &store.types[self.handle] {
            TypeNode::Function { vararg, .. } => *vararg,
            _ => {
                proof {
                    assert(false);
                }
                false
            },
        }
    }

    /// The signature's return type.
    pub fn return_type(&self, store: &Store) -> (r: Type)
        requires
            store@.wf(),
            self.wf(store@),
        ensures
            r@ == store@.type_at(self@)->Function_ret,
            r.wf(store@),
    {
        match &store.types[self.handle] {
            TypeNode::Function { ret, .. } => {
                proof {
                    assert(store@.type_wf(store@.type_at(self@)));
                }
                Type::from_handle(*ret)
            },
            _ => {
                proof {
                    assert(false);
                }
                Type::from_handle(0)
            },
        }
    }

    /// The signature's parameter types, with the length and order they
    /// were supplied in.
    pub fn params(&self, store: &Store) -> (r: Vec<Type>)
        requires
            store@.wf(),
            self.wf(store@),
        ensures
            r@.len() == store@.type_at(self@)->Function_params.len(),
            forall|i: int|
                0 <= i < r@.len() ==> (#[trigger] r@[i])@ == store@.type_at(
                    self@,
                )->Function_params[i] && r@[i].wf(store@),
    {
        proof {
            assert(store@.type_wf(store@.type_at(self@)));
        }
        let mut r: Vec<Type> = Vec::new();
        match &store.types[self.handle] {
            TypeNode::Function { params, .. } => {
                let n = params.len();
                let mut i: usize = 0;
                while i < n
                    invariant
                        n == params@.len(),
                        params@ == store@.type_at(self@)->Function_params,
                        store@.type_wf(store@.type_at(self@)),
                        self.wf(store@),
                        i <= n,
                        r@.len() == i,
                        forall|j: int|
                            0 <= j < i ==> (#[trigger] r@[j])@ == params@[j] && r@[j].wf(store@),
                    decreases n - i,
                {
                    r.push(Type::from_handle(params[i]));
                    i = i + 1;
                }
            },
            _ => {
                proof {
                    assert(false);
                }
            },
        }
        r
    }

    /// Law: the round trip through the generic view succeeds.  Upcasting
    /// a well-formed function type yields a generic type with the same
    /// underlying handle, whose kind the store still reports as a
    /// function signature, so the downcast takes it back.
    pub proof fn lemma_round_trip(s: StoreV, f: FunctionType)
        requires
            f.wf(s),
        ensures
            ({
                let t = <Type as vstd::std_specs::convert::FromSpec<FunctionType>>::from_spec(f);
                t@ == f@ && spec_type_kind(s.type_at(t@)) == TypeKind::Function
            }),
    {
        Type::lemma_with_handle(f@);
    }

    /// The downcast from a generic type: succeeds exactly when the store
    /// classifies the node as a function-signature type, and hands back
    /// the same handle.  Never mutates the store.
    pub fn try_from(val: Type, store: &Store) -> (r: Result<FunctionType, ()>)
        requires
            store@.wf(),
            val.wf(store@),
        ensures
            match r {
                Ok(f) => f@ == val@ && store@.type_at(val@) is Function && f.wf(store@),
                Err(_) => !(store@.type_at(val@) is Function),
            },
    {
        match val.kind(store) {
            TypeKind::Function => Ok(FunctionType { handle: val.raw() }),
            _ => Err(()),
        }
    }
}

} // verus!
