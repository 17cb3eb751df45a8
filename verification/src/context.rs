//! Contexts: the arenas that own every type and value of the store.

use vstd::prelude::*;

use crate::store::{Store, StoreV, GLOBAL_CONTEXT};

verus! {

/// A handle to a context.  A context created with [`Context::new`] is
/// exclusively owned: the wrapper is the only way to reach it and
/// consuming the wrapper with [`Context::dispose`] releases it exactly
/// once.  The wrapper returned by [`Context::global`] borrows the
/// process-wide shared context and never disposes it.
pub struct Context {
    handle: usize,
    owned: bool,
}

impl View for Context {
    type V = usize;

    closed spec fn view(&self) -> usize {
        self.handle
    }
}

impl Context {
    /// Whether disposing this wrapper releases the context it names.
    pub closed spec fn is_owned(&self) -> bool {
        self.owned
    }

    /// A context wrapper names a live context; only the global context is
    /// held without ownership.
    pub open spec fn wf(&self, s: StoreV) -> bool {
        &&& s.ctx_live(self@)
        &&& self.is_owned() ==> self@ != GLOBAL_CONTEXT
        &&& !self.is_owned() ==> self@ == GLOBAL_CONTEXT
    }

    pub(crate) fn raw(&self) -> (h: usize)
        ensures
            h == self@,
    {
        self.handle
    }

    /// Creates a fresh context with an arena of its own.  Always
    /// succeeds; the rest of the store is untouched.
    pub fn new(store: &mut Store) -> (c: Context)
        requires
            old(store)@.wf(),
        ensures
            final(store)@.wf(),
            c.wf(final(store)@),
            c.is_owned(),
            c@ == old(store)@.contexts.len(),
            final(store)@.contexts == old(store)@.contexts.push(true),
            final(store)@.modules == old(store)@.modules,
            final(store)@.types == old(store)@.types,
            final(store)@.values == old(store)@.values,
            final(store)@.builders == old(store)@.builders,
    {
        let h = store.new_context();
        Context { handle: h, owned: true }
    }

    /// Borrows the process-wide shared context.  The wrapper is
    /// non-owning: disposing it leaves the context untouched.
    pub fn global() -> (c: Context)
        ensures
            !c.is_owned(),
            c@ == GLOBAL_CONTEXT,
    {
        Context { handle: GLOBAL_CONTEXT, owned: false }
    }

    /// Consumes the wrapper.  An owned context is released, exactly once:
    /// the wrapper moves into this call, and afterwards no wrapper for
    /// the handle is well-formed, so no verified call can touch it again.
    /// The borrowed global wrapper leaves the store untouched.
    pub fn dispose(self, store: &mut Store)
        requires
            old(store)@.wf(),
            self.wf(old(store)@),
        ensures
            final(store)@.wf(),
            self.is_owned() ==> final(store)@.contexts == old(store)@.contexts.update(
                self@ as int,
                false,
            ) && !final(store)@.ctx_live(self@),
            !self.is_owned() ==> final(store)@ == old(store)@,
            final(store)@.modules == old(store)@.modules,
            final(store)@.types == old(store)@.types,
            final(store)@.values == old(store)@.values,
            final(store)@.builders == old(store)@.builders,
    {
        if self.owned {
            store.dispose_context(self.handle);
        }
    }
}

/// Law: disposal is final.  Once the store no longer holds a context
/// live, no context wrapper naming that handle is well-formed, so every
/// operation that requires a well-formed context — including a second
/// disposal — is ruled out.
pub proof fn lemma_context_dispose_once(s: StoreV, h: usize)
    requires
        !s.ctx_live(h),
    ensures
        forall|c: Context| c@ == h ==> !c.wf(s),
{
}

} // verus!
