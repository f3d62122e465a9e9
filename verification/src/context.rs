use vstd::prelude::*;

use crate::irtype::{content_handles_below, same_content, Type, TypeContent};
use crate::value::ValueDatum;

verus! {

/// The umbrella object owning the type registry and the value arena for one
/// compilation unit. Every operation that constructs or compares types and
/// constants takes a reference to it: the context is the single source of
/// truth, and nothing in this subsystem outlives it.
pub struct Context {
    /// The interned structural type descriptions; a [`Type`] handle is an
    /// index into this table.
    pub types: Vec<TypeContent>,
    /// The allocated IR values; a [`crate::value::Value`] handle is an index
    /// into this table. Unlike types, entries here are never deduplicated.
    pub values: Vec<ValueDatum>,
}

impl Context {
    /// The canonicalization invariant: no structural description is interned
    /// twice, so structurally equal types always resolve to the same handle.
    pub open spec fn types_unique(self) -> bool {
        forall|i: int, j: int|
            0 <= i < j < self.types@.len() ==> !same_content(self.types@[i], self.types@[j])
    }

    /// Interned descriptions only refer to types interned before them: the
    /// registry is append-only and composites are built from existing handles.
    pub open spec fn types_closed(self) -> bool {
        forall|i: int|
            0 <= i < self.types@.len() ==> content_handles_below(#[trigger] self.types@[i], i)
    }

    /// Some interned description is structurally equal to `c`.
    pub open spec fn has_content(self, c: TypeContent) -> bool {
        exists|t: Type| t.valid(self) && same_content(#[trigger] t.content(self), c)
    }

    /// The primitive types are interned when the context is created, so the
    /// primitive accessors can hand out their canonical handles without
    /// mutating the registry.
    pub open spec fn has_primitives(self) -> bool {
        &&& self.has_content(TypeContent::Unit)
        &&& self.has_content(TypeContent::Bool)
        &&& self.has_content(TypeContent::B256)
    }

    /// Well-formedness of the type registry.
    pub open spec fn wf(self) -> bool {
        self.types_unique() && self.types_closed() && self.has_primitives()
    }

    /// Every type handle interned in `prior` is still valid here and denotes
    /// the same description: interning only ever appends.
    pub open spec fn preserves_types(self, prior: Context) -> bool {
        &&& prior.types@.len() <= self.types@.len()
        &&& forall|i: int| 0 <= i < prior.types@.len() ==> self.types@[i] == prior.types@[i]
    }

    /// Well-formedness only concerns the type registry, so it carries over to
    /// any context holding the same registry, whatever its value arena holds.
    pub proof fn lemma_wf_same_types(a: Context, b: Context)
        requires
            a.wf(),
            a.types@ == b.types@,
        ensures
            b.wf(),
    {
        assert(b.has_content(TypeContent::Unit)) by {
            let t0 = choose|u: Type|
                u.valid(a) && same_content(#[trigger] u.content(a), TypeContent::Unit);
            assert(t0.valid(b) && same_content(t0.content(b), TypeContent::Unit));
        }
        assert(b.has_content(TypeContent::Bool)) by {
            let t0 = choose|u: Type|
                u.valid(a) && same_content(#[trigger] u.content(a), TypeContent::Bool);
            assert(t0.valid(b) && same_content(t0.content(b), TypeContent::Bool));
        }
        assert(b.has_content(TypeContent::B256)) by {
            let t0 = choose|u: Type|
                u.valid(a) && same_content(#[trigger] u.content(a), TypeContent::B256);
            assert(t0.valid(b) && same_content(t0.content(b), TypeContent::B256));
        }
    }

    /// Creates an empty compilation context with the primitive types
    /// pre-interned and no values allocated.
    pub fn new() -> (ctx: Context)
        ensures
            ctx.wf(),
            ctx.values@.len() == 0,
    {
        let mut types: Vec<TypeContent> = Vec::new();
        types.push(TypeContent::Unit);
        types.push(TypeContent::Bool);
        types.push(TypeContent::B256);
        let ctx = Context { types, values: Vec::new() };
        proof {
            assert(Type(0).valid(ctx) && same_content(Type(0).content(ctx), TypeContent::Unit));
            assert(Type(1).valid(ctx) && same_content(Type(1).content(ctx), TypeContent::Bool));
            assert(Type(2).valid(ctx) && same_content(Type(2).content(ctx), TypeContent::B256));
        }
        ctx
    }
}

} // verus!
