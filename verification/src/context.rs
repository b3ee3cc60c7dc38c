//! The context: an immutable chain of value cells, and the per-thread
//! register of entered contexts.
//!
//! A [`Context`] is an immutable association from a kind of attached value to
//! one value of that kind. Each derived context wraps its parent and adds one
//! cell; lookup walks the chain from newest to oldest, so a newer attachment
//! of the same kind shadows an older one and never merges with it. A context,
//! once created, is never mutated: "modification" always produces a new
//! context value, and every previously captured context keeps reporting
//! exactly what it reported before.
//!
//! A [`CurrentContextRegister`] is the stack of entered context snapshots for
//! one thread or logical task. Each thread owns its own register, so entering
//! and exiting need no locking; the embedding program keeps one register per
//! thread and restores the prior snapshot on scope exit.

use vstd::prelude::*;

use crate::span::SpanContext;
use crate::span::SpanObject;

verus! {

/// The kind of an attached value: the type identity under which a cell is
/// stored and looked up. Lookup matches kinds exactly, so values of different
/// kinds can never be confused.
#[derive(Clone, Copy, PartialEq, Eq, Structural, Debug)]
pub enum ValueKind {
    /// A live span attached as the active span.
    Span,
    /// A span identity propagated in from another process.
    RemoteSpanContext,
}

/// One immutable, kind-tagged cell holding a single attached value.
#[derive(Clone, Copy, PartialEq, Eq, Structural, Debug)]
pub enum ContextValue {
    /// The active span.
    Span(SpanObject),
    /// A remote span identity, distinct from a live span.
    RemoteSpanContext(SpanContext),
}

impl ContextValue {
    /// The kind under which this value is stored and found again.
    pub open spec fn kind(self) -> ValueKind {
        match self {
            ContextValue::Span(_) => ValueKind::Span,
            ContextValue::RemoteSpanContext(_) => ValueKind::RemoteSpanContext,
        }
    }

    /// Fetch this value's kind.
    pub fn value_kind(&self) -> (k: ValueKind)
        ensures
            k == self.kind(),
    {
        match self {
            ContextValue::Span(_) => ValueKind::Span,
            ContextValue::RemoteSpanContext(_) => ValueKind::RemoteSpanContext,
        }
    }
}

/// An immutable chain of value cells. The root context is empty; every other
/// context wraps a parent and adds one cell.
pub enum Context {
    /// The root context: nothing attached.
    Empty,
    /// A context derived from `parent` by attaching `value`.
    Derived { parent: Box<Context>, value: ContextValue },
}

impl Context {
    /// What this context associates with each kind: the newest cell of a kind
    /// wins, so a derivation shadows the parent's cell of the same kind and
    /// leaves every other kind exactly as the parent resolved it.
    pub open spec fn entries(self) -> Map<ValueKind, ContextValue>
        decreases self,
    {
        match self {
            Context::Empty => Map::empty(),
            Context::Derived { parent, value } => parent.entries().insert(value.kind(), value),
        }
    }

    /// The most recently attached value of kind `k` reachable from this
    /// context, or none if absent.
    pub open spec fn spec_get(self, k: ValueKind) -> Option<ContextValue> {
        if self.entries().dom().contains(k) {
            Some(self.entries()[k])
        } else {
            None
        }
    }

    /// The context derived from this one by attaching `value`.
    pub open spec fn spec_with_value(self, value: ContextValue) -> Context {
        Context::Derived { parent: Box::new(self), value }
    }

    /// The root context, with nothing attached.
    pub fn empty() -> (r: Context)
        ensures
            r == Context::Empty,
    {
        Context::Empty
    }

    /// Derive a new context that, for the kind of `value`, returns `value`;
    /// all other kinds resolve exactly as they did in this context. The
    /// parent is left untouched: this context keeps reporting what it did.
    pub fn with_value(&self, value: ContextValue) -> (r: Context)
        ensures
            r == self.spec_with_value(value),
            r.entries() == self.entries().insert(value.kind(), value),
    {
        Context::Derived { parent: Box::new(self.clone()), value }
    }

    /// Look up the most recently attached value of kind `kind`, walking
    /// parent links from newest to oldest.
    pub fn get(&self, kind: ValueKind) -> (r: Option<ContextValue>)
        ensures
            r == self.spec_get(kind),
        decreases self,
    {
        match self {
            Context::Empty => None,
            Context::Derived { parent, value } => {
                if value.value_kind() == kind {
                    Some(*value)
                } else {
                    parent.get(kind)
                }
            },
        }
    }

    /// The snapshot on top of the register, or the root context if nothing
    /// was ever entered.
    pub fn current(register: &CurrentContextRegister) -> (r: Context)
        ensures
            r == register.spec_current(),
    {
        register.current()
    }

    /// Derive from the current snapshot: `current(register)` with `value`
    /// attached. This only produces the derived snapshot; it does not itself
    /// enter it into the register.
    pub fn current_with_value(register: &CurrentContextRegister, value: ContextValue) -> (r:
        Context)
        ensures
            r == register.spec_current().spec_with_value(value),
            r.entries() == register.spec_current().entries().insert(value.kind(), value),
    {
        let current = register.current();
        current.with_value(value)
    }
}

impl Clone for Context {
    /// An exact copy: the clone resolves every kind as the original does.
    fn clone(&self) -> (r: Self)
        ensures
            r == *self,
        decreases self,
    {
        match self {
            Context::Empty => Context::Empty,
            Context::Derived { parent, value } => Context::Derived {
                parent: Box::new((&**parent).clone()),
                value: *value,
            },
        }
    }
}

/// Every value a context holds is stored under its own kind, so a successful
/// lookup of kind `k` always yields a cell of kind `k`: values of different
/// kinds can never be confused.
pub proof fn lemma_entries_kind_consistent(c: Context)
    ensures
        forall|k: ValueKind|
            c.entries().dom().contains(k) ==> (#[trigger] c.entries()[k]).kind() == k,
    decreases c,
{
    match c {
        Context::Empty => {
        },
        Context::Derived { parent, value } => {
            lemma_entries_kind_consistent(*parent);
        },
    }
}

/// Looking up the kind just attached finds exactly the attached value: for
/// all contexts `c` and values `v`, the context derived from `c` with `v`
/// resolves `v`'s kind to `v`.
pub proof fn lemma_lookup_after_derive(c: Context, v: ContextValue)
    ensures
        c.spec_with_value(v).spec_get(v.kind()) == Some(v),
{
}

/// Shadowing: the newest attachment of a kind wins. For all contexts `c` and
/// values `v1`, `v2` of the same kind, attaching `v1` and then `v2` resolves
/// that kind to `v2`.
pub proof fn lemma_shadowing(c: Context, v1: ContextValue, v2: ContextValue)
    requires
        v1.kind() == v2.kind(),
    ensures
        c.spec_with_value(v1).spec_with_value(v2).spec_get(v2.kind()) == Some(v2),
{
}

/// Immutability of derivation: attaching a value only affects its own kind.
/// Every other kind resolves in the derived context exactly as it did in the
/// parent, and the parent itself — or any previously captured copy of it —
/// keeps resolving every kind as before, since derivation never mutates it.
pub proof fn lemma_derive_preserves_other_kinds(c: Context, v: ContextValue)
    ensures
        forall|k: ValueKind|
            k != v.kind() ==> #[trigger] c.spec_with_value(v).spec_get(k) == c.spec_get(k),
{
}

/// The per-thread stack of entered context snapshots. `enter` pushes a
/// snapshot, `exit` restores the prior one; `current` reports the top, or the
/// root context when nothing was ever entered.
pub struct CurrentContextRegister {
    stack: Vec<Context>,
}

impl View for CurrentContextRegister {
    type V = Seq<Context>;

    /// The entered snapshots, oldest first.
    closed spec fn view(&self) -> Seq<Context> {
        self.stack@
    }
}

impl CurrentContextRegister {
    /// The snapshot `current` reports: the most recently entered, not yet
    /// exited context, or the root context when the register is empty.
    pub open spec fn spec_current(self) -> Context {
        if self@.len() == 0 {
            Context::Empty
        } else {
            self@.last()
        }
    }

    /// A fresh register: nothing was ever entered.
    pub fn new() -> (r: CurrentContextRegister)
        ensures
            r@ == Seq::<Context>::empty(),
    {
        CurrentContextRegister { stack: Vec::new() }
    }

    /// The snapshot on top of this register, or the root context if none was
    /// ever entered.
    pub fn current(&self) -> (r: Context)
        ensures
            r == self.spec_current(),
    {
        if self.stack.len() == 0 {
            Context::Empty
        } else {
            self.stack[self.stack.len() - 1].clone()
        }
    }

    /// Enter a snapshot: it becomes the current context until exited.
    pub fn enter(&mut self, context: Context)
        ensures
            final(self)@ == old(self)@.push(context),
    {
        self.stack.push(context);
    }

    /// Exit the current snapshot, restoring the prior one; returns the
    /// exited snapshot, or none if nothing was entered.
    pub fn exit(&mut self) -> (r: Option<Context>)
        ensures
            old(self)@.len() == 0 ==> final(self)@ == old(self)@ && r is None,
            old(self)@.len() > 0 ==> final(self)@ == old(self)@.drop_last() && r == Some(
                old(self)@.last(),
            ),
    {
        self.stack.pop()
    }
}

} // verus!
