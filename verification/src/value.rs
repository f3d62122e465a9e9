use vstd::prelude::*;

use crate::constant::Constant;
use crate::context::Context;

verus! {

/// The payload of one allocated IR value. This core only ever allocates
/// constants; the other kinds of IR values (instructions, arguments, block
/// references) live outside it.
#[derive(Debug, Hash)]
pub enum ValueDatum {
    Constant(Constant),
}

/// An opaque handle identifying one allocated IR value in a [`Context`]'s
/// arena.
///
/// Two handles are reference-identical only if issued by the same allocation
/// call; content equality of the constants they wrap is a separate,
/// context-aware question (see [`Constant::eq`](crate::constant::Constant::eq))
/// and must never be inferred from handle equality.
#[derive(Clone, Copy, PartialEq, Eq, Structural, Debug, Hash)]
pub struct Value(pub usize);

impl Value {
    /// The handle indexes into `ctx`'s value arena.
    pub open spec fn valid(self, ctx: Context) -> bool {
        self.0 < ctx.values@.len()
    }

    /// The payload this handle refers to in `ctx`.
    pub open spec fn datum(self, ctx: Context) -> ValueDatum {
        ctx.values@[self.0 as int]
    }

    /// This handle was issued by exactly one allocation that took the arena
    /// from `prior` to `now`: it indexes the single new slot and differs from
    /// every handle `prior` had issued.
    pub open spec fn fresh_in(self, now: Context, prior: Context) -> bool {
        &&& self.0 == prior.values@.len()
        &&& now.values@.len() == prior.values@.len() + 1
        &&& self.valid(now)
        &&& forall|u: Value| u.valid(prior) ==> u != self
    }

    /// Allocates a fresh arena slot wrapping `constant` and returns its
    /// handle. The arena does not deduplicate: the handle differs from every
    /// handle the context has issued before, even when an equal constant is
    /// already wrapped by one of them.
    pub fn new_constant(context: &mut Context, constant: Constant) -> (v: Value)
        ensures
            final(context).types@ == old(context).types@,
            old(context).wf() ==> final(context).wf(),
            final(context).values@ == old(context).values@.push(ValueDatum::Constant(constant)),
            v.valid(*final(context)),
            v.0 == old(context).values@.len(),
            v.datum(*final(context)) == ValueDatum::Constant(constant),
            forall|u: Value| u.valid(*old(context)) ==> u != v,
    {
        let idx = context.values.len();
        context.values.push(ValueDatum::Constant(constant));
        proof {
            if old(context).wf() {
                Context::lemma_wf_same_types(*old(context), *context);
            }
        }
        Value(idx)
    }

    /// Fetches the constant wrapped by this handle, or `None` when the handle
    /// does not refer to a value allocated in this context.
    pub fn get_constant<'a>(&self, context: &'a Context) -> (r: Option<&'a Constant>)
        ensures
            match r {
                Option::Some(c) => self.valid(*context) && self.datum(*context)
                    == ValueDatum::Constant(*c),
                Option::None => !self.valid(*context),
            },
    {
        if self.0 < context.values.len() {
            match &context.values[self.0] {
                ValueDatum::Constant(c) => Option::Some(c),
            }
        } else {
            Option::None
        }
    }
}

} // verus!
