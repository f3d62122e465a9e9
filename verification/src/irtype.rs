use vstd::prelude::*;

use crate::context::Context;

verus! {

/// A handle to a type interned in a [`Context`]'s type registry.
///
/// Handles have structural identity: the registry never stores the same
/// structural description twice, so two handles issued by one context are
/// equal exactly when the types they describe are structurally equal
/// (see [`lemma_interning`]).
#[derive(Clone, Copy, PartialEq, Eq, Structural, Debug, Hash)]
pub struct Type(pub usize);

/// The structural description of a type: primitive kinds, strings as
/// fixed-length byte arrays, fixed-size arrays, and structs with ordered
/// fields. Enums are not a distinct variant: a logical enum is encoded as a
/// two-field struct of discriminant and payload (see [`Type::is_enum`]).
#[derive(Clone, Debug, Hash)]
pub enum TypeContent {
    Unit,
    Bool,
    Uint(u16),
    B256,
    StringArray(u64),
    Array(Type, u64),
    Struct(Vec<Type>),
}

/// Structural equality of two type descriptions. Element and field types are
/// compared as handles, which amounts to full structural equality once both
/// operands' inner types are themselves interned.
pub open spec fn same_content(a: TypeContent, b: TypeContent) -> bool {
    match (a, b) {
        (TypeContent::Unit, TypeContent::Unit) => true,
        (TypeContent::Bool, TypeContent::Bool) => true,
        (TypeContent::Uint(wa), TypeContent::Uint(wb)) => wa == wb,
        (TypeContent::B256, TypeContent::B256) => true,
        (TypeContent::StringArray(na), TypeContent::StringArray(nb)) => na == nb,
        (TypeContent::Array(ta, na), TypeContent::Array(tb, nb)) => ta == tb && na == nb,
        (TypeContent::Struct(fa), TypeContent::Struct(fb)) => fa@ == fb@,
        _ => false,
    }
}

/// Every handle stored inside a description indexes strictly below `bound`:
/// a composite type only refers to types interned before it.
pub open spec fn content_handles_below(c: TypeContent, bound: int) -> bool {
    match c {
        TypeContent::Array(t, _) => t.0 < bound,
        TypeContent::Struct(fs) => forall|k: int| 0 <= k < fs@.len() ==> (#[trigger] fs@[k]).0 < bound,
        _ => true,
    }
}

/// Decides structural equality of two descriptions.
fn content_eq(a: &TypeContent, b: &TypeContent) -> (r: bool)
    ensures
        r == same_content(*a, *b),
{
    match (a, b) {
        (TypeContent::Unit, TypeContent::Unit) => true,
        (TypeContent::Bool, TypeContent::Bool) => true,
        (TypeContent::Uint(wa), TypeContent::Uint(wb)) => *wa == *wb,
        (TypeContent::B256, TypeContent::B256) => true,
        (TypeContent::StringArray(na), TypeContent::StringArray(nb)) => *na == *nb,
        (TypeContent::Array(ta, na), TypeContent::Array(tb, nb)) => *ta == *tb && *na == *nb,
        (TypeContent::Struct(fa), TypeContent::Struct(fb)) => type_lists_eq(fa, fb),
        _ => false,
    }
}

/// Decides equality of two handle lists.
fn type_lists_eq(a: &Vec<Type>, b: &Vec<Type>) -> (r: bool)
    ensures
        r == (a@ == b@),
{
    if a.len() != b.len() {
        return false;
    }
    let n = a.len();
    let mut i: usize = 0;
    while i < n
        invariant
            n == a@.len(),
            n == b@.len(),
            i <= n,
            forall|j: int| 0 <= j < i ==> a@[j] == b@[j],
        decreases n - i,
    {
        if a[i] != b[i] {
            return false;
        }
        i += 1;
    }
    proof {
        assert(a@ =~= b@);
    }
    true
}

/// Searches the registry for a description structurally equal to `content`.
fn lookup(context: &Context, content: &TypeContent) -> (r: Option<Type>)
    ensures
        match r {
            Option::Some(t) => t.valid(*context) && same_content(t.content(*context), *content),
            Option::None => forall|t: Type|
                t.valid(*context) ==> !same_content(#[trigger] t.content(*context), *content),
        },
{
    let n = context.types.len();
    let mut i: usize = 0;
    while i < n
        invariant
            n == context.types@.len(),
            i <= n,
            forall|j: int| 0 <= j < i ==> !same_content(context.types@[j], *content),
        decreases n - i,
    {
        if content_eq(&context.types[i], content) {
            return Option::Some(Type(i));
        }
        i += 1;
    }
    Option::None
}

/// Returns the handle of a description structurally equal to `content`,
/// interning it first if no such description exists yet.
fn get_or_intern(context: &mut Context, content: TypeContent) -> (t: Type)
    requires
        old(context).wf(),
        content_handles_below(content, old(context).types@.len() as int),
    ensures
        final(context).wf(),
        final(context).preserves_types(*old(context)),
        final(context).values@ == old(context).values@,
        t.valid(*final(context)),
        same_content(t.content(*final(context)), content),
{
    let r = lookup(context, &content);
    match r {
        Option::Some(t) => t,
        Option::None => {
            let idx = context.types.len();
            context.types.push(content);
            let t = Type(idx);
            proof {
                let oldc = *old(context);
                let newc = *context;
                assert(newc.types@ == oldc.types@.push(content));
                assert forall|i: int, j: int|
                    0 <= i < j < newc.types@.len() implies !same_content(
                    newc.types@[i],
                    newc.types@[j],
                ) by {
                    if j < idx {
                        assert(!same_content(oldc.types@[i], oldc.types@[j]));
                    } else {
                        let u = Type(i as usize);
                        assert(u.valid(oldc));
                        assert(!same_content(u.content(oldc), content));
                    }
                }
                assert forall|i: int|
                    0 <= i < newc.types@.len() implies content_handles_below(
                    #[trigger] newc.types@[i],
                    i,
                ) by {
                    if i < idx {
                        assert(content_handles_below(oldc.types@[i], i));
                    }
                }
                assert(newc.has_content(TypeContent::Unit)) by {
                    let t0 = choose|u: Type|
                        u.valid(oldc) && same_content(
                            #[trigger] u.content(oldc),
                            TypeContent::Unit,
                        );
                    assert(t0.valid(newc) && same_content(t0.content(newc), TypeContent::Unit));
                }
                assert(newc.has_content(TypeContent::Bool)) by {
                    let t0 = choose|u: Type|
                        u.valid(oldc) && same_content(
                            #[trigger] u.content(oldc),
                            TypeContent::Bool,
                        );
                    assert(t0.valid(newc) && same_content(t0.content(newc), TypeContent::Bool));
                }
                assert(newc.has_content(TypeContent::B256)) by {
                    let t0 = choose|u: Type|
                        u.valid(oldc) && same_content(
                            #[trigger] u.content(oldc),
                            TypeContent::B256,
                        );
                    assert(t0.valid(newc) && same_content(t0.content(newc), TypeContent::B256));
                }
            }
            t
        },
    }
}

impl Type {
    /// The handle indexes into `ctx`'s type registry.
    pub open spec fn valid(self, ctx: Context) -> bool {
        self.0 < ctx.types@.len()
    }

    /// The structural description this handle denotes in `ctx`.
    pub open spec fn content(self, ctx: Context) -> TypeContent {
        ctx.types@[self.0 as int]
    }

    /// Returns the canonical handle for the unit type.
    pub fn get_unit(context: &Context) -> (t: Type)
        requires
            context.wf(),
        ensures
            t.valid(*context),
            t.content(*context) == TypeContent::Unit,
    {
        match lookup(context, &TypeContent::Unit) {
            Option::Some(t) => t,
            Option::None => {
                proof {
                    let t0 = choose|u: Type|
                        u.valid(*context) && same_content(
                            #[trigger] u.content(*context),
                            TypeContent::Unit,
                        );
                    assert(false);
                }
                vstd::pervasive::unreached()
            },
        }
    }

    /// Returns the canonical handle for the boolean type.
    pub fn get_bool(context: &Context) -> (t: Type)
        requires
            context.wf(),
        ensures
            t.valid(*context),
            t.content(*context) == TypeContent::Bool,
    {
        match lookup(context, &TypeContent::Bool) {
            Option::Some(t) => t,
            Option::None => {
                proof {
                    let t0 = choose|u: Type|
                        u.valid(*context) && same_content(
                            #[trigger] u.content(*context),
                            TypeContent::Bool,
                        );
                    assert(false);
                }
                vstd::pervasive::unreached()
            },
        }
    }

    /// Returns the canonical handle for the 32-byte digest type.
    pub fn get_b256(context: &Context) -> (t: Type)
        requires
            context.wf(),
        ensures
            t.valid(*context),
            t.content(*context) == TypeContent::B256,
    {
        match lookup(context, &TypeContent::B256) {
            Option::Some(t) => t,
            Option::None => {
                proof {
                    let t0 = choose|u: Type|
                        u.valid(*context) && same_content(
                            #[trigger] u.content(*context),
                            TypeContent::B256,
                        );
                    assert(false);
                }
                vstd::pervasive::unreached()
            },
        }
    }

    /// Returns the canonical handle for the unsigned integer type of the
    /// given width; repeated calls with the same width return the same handle.
    pub fn new_uint(context: &mut Context, width: u16) -> (t: Type)
        requires
            old(context).wf(),
            width == 8 || width == 16 || width == 32 || width == 64 || width == 256,
        ensures
            final(context).wf(),
            final(context).preserves_types(*old(context)),
            final(context).values@ == old(context).values@,
            t.valid(*final(context)),
            t.content(*final(context)) == TypeContent::Uint(width),
    {
        get_or_intern(context, TypeContent::Uint(width))
    }

    /// Returns the canonical handle for the string type of the given length,
    /// a fixed-length byte array.
    pub fn new_string_array(context: &mut Context, length: u64) -> (t: Type)
        requires
            old(context).wf(),
        ensures
            final(context).wf(),
            final(context).preserves_types(*old(context)),
            final(context).values@ == old(context).values@,
            t.valid(*final(context)),
            t.content(*final(context)) == TypeContent::StringArray(length),
    {
        get_or_intern(context, TypeContent::StringArray(length))
    }

    /// Returns the canonical handle for the array type of `length` elements
    /// of type `elem_ty`.
    pub fn new_array(context: &mut Context, elem_ty: Type, length: u64) -> (t: Type)
        requires
            old(context).wf(),
            elem_ty.valid(*old(context)),
        ensures
            final(context).wf(),
            final(context).preserves_types(*old(context)),
            final(context).values@ == old(context).values@,
            t.valid(*final(context)),
            t.content(*final(context)) == TypeContent::Array(elem_ty, length),
    {
        get_or_intern(context, TypeContent::Array(elem_ty, length))
    }

    /// Returns the canonical handle for the struct type with the given
    /// ordered field types.
    pub fn new_struct(context: &mut Context, field_tys: Vec<Type>) -> (t: Type)
        requires
            old(context).wf(),
            forall|k: int|
                0 <= k < field_tys@.len() ==> (#[trigger] field_tys@[k]).valid(*old(context)),
        ensures
            final(context).wf(),
            final(context).preserves_types(*old(context)),
            final(context).values@ == old(context).values@,
            t.valid(*final(context)),
            t.content(*final(context)) matches TypeContent::Struct(fs) && fs@ == field_tys@,
    {
        get_or_intern(context, TypeContent::Struct(field_tys))
    }

    /// Handle equality. Both handles interned in `context`, this decides
    /// structural type equality (see [`lemma_interning`]); the context
    /// parameter records that handles are only meaningful within one context.
    pub fn eq(&self, _context: &Context, other: &Type) -> (r: bool)
        ensures
            r == (*self == *other),
    {
        self.0 == other.0
    }

    /// Whether this type is a fixed-size array type.
    pub fn is_array(&self, context: &Context) -> (r: bool)
        requires
            self.valid(*context),
        ensures
            r == (self.content(*context) is Array),
    {
        matches!(context.types[self.0], TypeContent::Array(..))
    }

    /// Whether this type is a struct type.
    pub fn is_struct(&self, context: &Context) -> (r: bool)
        requires
            self.valid(*context),
        ensures
            r == (self.content(*context) is Struct),
    {
        matches!(context.types[self.0], TypeContent::Struct(..))
    }

    /// Whether this type follows the enum encoding convention: a struct of
    /// exactly two fields whose first field is the 64-bit discriminant.
    pub open spec fn spec_is_enum(self, ctx: Context) -> bool {
        match self.content(ctx) {
            TypeContent::Struct(fs) => fs@.len() == 2 && fs@[0].content(ctx)
                == TypeContent::Uint(64),
            _ => false,
        }
    }

    /// Whether this type is enum-shaped: a struct of exactly two fields — the
    /// 64-bit discriminant and the variant payload.
    ///
    /// This is a heuristic over shape, not a tagged variant: an ordinary
    /// two-field struct whose first field happens to be the 64-bit integer is
    /// indistinguishable from an encoded enum, so this predicate must be kept
    /// consistent with whatever upstream pass builds enum-shaped structs.
    pub fn is_enum(&self, context: &Context) -> (r: bool)
        requires
            context.wf(),
            self.valid(*context),
        ensures
            r == self.spec_is_enum(*context),
    {
        match &context.types[self.0] {
            TypeContent::Struct(fs) => {
                if fs.len() == 2 {
                    let f0 = fs[0];
                    proof {
                        assert(content_handles_below(context.types@[self.0 as int], self.0 as int));
                    }
                    match &context.types[f0.0] {
                        TypeContent::Uint(w) => *w == 64,
                        _ => false,
                    }
                } else {
                    false
                }
            },
            _ => false,
        }
    }
}

/// The canonicalization law: within one well-formed context, two interned
/// handles carry structurally equal descriptions exactly when they are the
/// same handle. Structurally equal type requests yield identical handles;
/// structurally different requests yield different handles.
pub proof fn lemma_interning(ctx: Context, a: Type, b: Type)
    requires
        ctx.wf(),
        a.valid(ctx),
        b.valid(ctx),
    ensures
        same_content(a.content(ctx), b.content(ctx)) <==> a == b,
{
    if same_content(a.content(ctx), b.content(ctx)) {
        if a.0 < b.0 {
            assert(!same_content(ctx.types@[a.0 as int], ctx.types@[b.0 as int]));
        } else if b.0 < a.0 {
            assert(!same_content(ctx.types@[b.0 as int], ctx.types@[a.0 as int]));
            assert(same_content(b.content(ctx), a.content(ctx)));
        }
        assert(a.0 == b.0);
    }
}

} // verus!
