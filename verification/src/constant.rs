//! [`Constant`] is a typed constant value.

use vstd::prelude::*;

use crate::context::Context;
use crate::irtype::{Type, TypeContent};
use crate::u256::{u64_to_be_bytes_32, U256};
use crate::value::{Value, ValueDatum};

verus! {

/// A 256-bit byte string; digests share the wide-integer representation,
/// stored big-endian.
pub type B256 = U256;

/// A [`Type`] and constant value, including [`ConstantValue::Undef`] for
/// uninitialized constants.
#[derive(Debug, Hash)]
pub struct Constant {
    pub ty: Type,
    pub value: ConstantValue,
}

/// A constant representation of each of the supported [`Type`]s.
#[derive(Debug, Hash)]
pub enum ConstantValue {
    Undef,
    Unit,
    Bool(bool),
    Uint(u64),
    U256(U256),
    B256(B256),
    String(Vec<u8>),
    Array(Vec<Constant>),
    Struct(Vec<Constant>),
}

/// Element-wise constant equality over the zipped prefixes of two element lists:
/// every position present in both lists must hold equal constants.
pub open spec fn elems_equal(l: Seq<Constant>, r: Seq<Constant>) -> bool
    decreases l,
{
    forall|i: int|
        #![trigger l[i]]
        #![trigger r[i]]
        0 <= i < l.len() && i < r.len() ==> constants_equal(l[i], r[i])
}

/// Whether two constant payloads denote the same compile-time value.
///
/// `Undef` on either side is never equal — two unknowns are not provably the
/// same value, even two `Undef`s of one type — and aggregates compare
/// element-wise and order-sensitively, recursing under the same rule.
/// Mismatched variants are never equal.
pub open spec fn values_equal(a: ConstantValue, b: ConstantValue) -> bool
    decreases a,
{
    match (a, b) {
        (ConstantValue::Undef, _) => false,
        (_, ConstantValue::Undef) => false,
        (ConstantValue::Unit, ConstantValue::Unit) => true,
        (ConstantValue::Bool(l), ConstantValue::Bool(r)) => l == r,
        (ConstantValue::Uint(l), ConstantValue::Uint(r)) => l == r,
        (ConstantValue::U256(l), ConstantValue::U256(r)) => l@ == r@,
        (ConstantValue::B256(l), ConstantValue::B256(r)) => l@ == r@,
        (ConstantValue::String(l), ConstantValue::String(r)) => l@ == r@,
        (ConstantValue::Array(l), ConstantValue::Array(r)) => elems_equal(l@, r@),
        (ConstantValue::Struct(l), ConstantValue::Struct(r)) => elems_equal(l@, r@),
        _ => false,
    }
}

/// Context-aware equality: two constants denote the same compile-time value
/// when their interned types are the same handle and their payloads are
/// equal under [`values_equal`].
pub open spec fn constants_equal(a: Constant, b: Constant) -> bool
    decreases a,
{
    a.ty == b.ty && values_equal(a.value, b.value)
}

/// Shape consistency between a constant's payload and its carried type:
/// scalars carry the matching primitive type, `Uint` payloads only widths
/// below 256 and `U256` payloads exactly width 256, and aggregates match
/// their type's cardinality and element/field types, recursively. `Undef`
/// stands for any type.
pub open spec fn const_wf(ctx: Context, c: Constant) -> bool
    decreases c,
{
    c.ty.valid(ctx) && match c.value {
        ConstantValue::Undef => true,
        ConstantValue::Unit => c.ty.content(ctx) == TypeContent::Unit,
        ConstantValue::Bool(_) => c.ty.content(ctx) == TypeContent::Bool,
        ConstantValue::Uint(_) => c.ty.content(ctx) matches TypeContent::Uint(w) && w != 256,
        ConstantValue::U256(_) => c.ty.content(ctx) == TypeContent::Uint(256),
        ConstantValue::B256(_) => c.ty.content(ctx) == TypeContent::B256,
        ConstantValue::String(s) => c.ty.content(ctx) == TypeContent::StringArray(
            s@.len() as u64,
        ),
        ConstantValue::Array(es) => c.ty.content(ctx) matches TypeContent::Array(t, n)
            && es@.len() == n && forall|i: int|
            #![trigger es@[i]]
            0 <= i < es@.len() ==> es@[i].ty == t && const_wf(ctx, es@[i]),
        ConstantValue::Struct(es) => c.ty.content(ctx) matches TypeContent::Struct(fs)
            && es@.len() == fs@.len() && forall|i: int|
            #![trigger es@[i]]
            0 <= i < es@.len() ==> es@[i].ty == fs@[i] && const_wf(ctx, es@[i]),
    }
}

/// Deep sameness of two constant payloads, scalar for scalar and element
/// for element. Unlike [`values_equal`], `Undef` here matches `Undef`: this
/// is the relation a copy satisfies, not the optimizer's equality — a copy
/// of an uninitialized constant is still that uninitialized constant.
pub open spec fn values_identical(a: ConstantValue, b: ConstantValue) -> bool
    decreases a,
{
    match (a, b) {
        (ConstantValue::Undef, ConstantValue::Undef) => true,
        (ConstantValue::Unit, ConstantValue::Unit) => true,
        (ConstantValue::Bool(l), ConstantValue::Bool(r)) => l == r,
        (ConstantValue::Uint(l), ConstantValue::Uint(r)) => l == r,
        (ConstantValue::U256(l), ConstantValue::U256(r)) => l@ == r@,
        (ConstantValue::B256(l), ConstantValue::B256(r)) => l@ == r@,
        (ConstantValue::String(l), ConstantValue::String(r)) => l@ == r@,
        (ConstantValue::Array(l), ConstantValue::Array(r)) => l@.len() == r@.len()
            && forall|i: int|
            #![trigger l@[i]]
            #![trigger r@[i]]
            0 <= i < l@.len() ==> constants_identical(l@[i], r@[i]),
        (ConstantValue::Struct(l), ConstantValue::Struct(r)) => l@.len() == r@.len()
            && forall|i: int|
            #![trigger l@[i]]
            #![trigger r@[i]]
            0 <= i < l@.len() ==> constants_identical(l@[i], r@[i]),
        _ => false,
    }
}

/// Deep sameness of two constants: the same type handle and identical
/// payloads, `Undef` included.
pub open spec fn constants_identical(a: Constant, b: Constant) -> bool
    decreases a,
{
    a.ty == b.ty && values_identical(a.value, b.value)
}

/// A well-shaped constant stays well shaped as its context interns more
/// types: the registry is append-only, so existing handles never change.
pub proof fn lemma_const_wf_preserved(prior: Context, now: Context, c: Constant)
    requires
        const_wf(prior, c),
        now.preserves_types(prior),
    ensures
        const_wf(now, c),
    decreases c,
{
    assert(c.ty.content(now) == c.ty.content(prior));
    match c.value {
        ConstantValue::Array(es) => {
            assert forall|i: int| 0 <= i < es@.len() implies const_wf(now, #[trigger] es@[i]) by {
                lemma_const_wf_preserved(prior, now, es@[i]);
            }
        },
        ConstantValue::Struct(es) => {
            assert forall|i: int| 0 <= i < es@.len() implies const_wf(now, #[trigger] es@[i]) by {
                lemma_const_wf_preserved(prior, now, es@[i]);
            }
        },
        _ => {},
    }
}

impl Constant {
    pub fn new_unit(context: &Context) -> (c: Constant)
        requires
            context.wf(),
        ensures
            c.value == ConstantValue::Unit,
            c.ty.valid(*context),
            c.ty.content(*context) == TypeContent::Unit,
            const_wf(*context, c),
    {
        Constant { ty: Type::get_unit(context), value: ConstantValue::Unit }
    }

    pub fn new_bool(context: &Context, b: bool) -> (c: Constant)
        requires
            context.wf(),
        ensures
            c.value == ConstantValue::Bool(b),
            c.ty.valid(*context),
            c.ty.content(*context) == TypeContent::Bool,
            const_wf(*context, c),
    {
        Constant { ty: Type::get_bool(context), value: ConstantValue::Bool(b) }
    }

    /// For numbers bigger than u64 see `new_uint256`: a 256-bit literal
    /// arriving as a machine word is widened into the `U256` variant, so both
    /// construction paths produce equal results under [`constants_equal`].
    pub fn new_uint(context: &mut Context, nbits: u16, n: u64) -> (c: Constant)
        requires
            old(context).wf(),
            nbits == 8 || nbits == 16 || nbits == 32 || nbits == 64 || nbits == 256,
        ensures
            final(context).wf(),
            final(context).preserves_types(*old(context)),
            final(context).values@ == old(context).values@,
            c.ty.valid(*final(context)),
            c.ty.content(*final(context)) == TypeContent::Uint(nbits),
            nbits != 256 ==> c.value == ConstantValue::Uint(n),
            nbits == 256 ==> (c.value matches ConstantValue::U256(w) && w@
                == u64_to_be_bytes_32(n)),
            const_wf(*final(context), c),
    {
        let value = if nbits == 256 {
            ConstantValue::U256(U256::from_u64(n))
        } else {
            ConstantValue::Uint(n)
        };
        Constant { ty: Type::new_uint(context, nbits), value }
    }

    pub fn new_uint256(context: &mut Context, n: U256) -> (c: Constant)
        requires
            old(context).wf(),
        ensures
            final(context).wf(),
            final(context).preserves_types(*old(context)),
            final(context).values@ == old(context).values@,
            c.ty.valid(*final(context)),
            c.ty.content(*final(context)) == TypeContent::Uint(256),
            c.value == ConstantValue::U256(n),
            const_wf(*final(context), c),
    {
        Constant { ty: Type::new_uint(context, 256), value: ConstantValue::U256(n) }
    }

    /// The 32 bytes are read big-endian and preserved exactly, so digests
    /// round-trip with external wire formats byte for byte.
    pub fn new_b256(context: &Context, bytes: [u8; 32]) -> (c: Constant)
        requires
            context.wf(),
        ensures
            c.ty.valid(*context),
            c.ty.content(*context) == TypeContent::B256,
            c.value matches ConstantValue::B256(u) && u@ == bytes@,
            const_wf(*context, c),
    {
        Constant { ty: Type::get_b256(context), value: ConstantValue::B256(
            B256::from_be_bytes(&bytes),
        ) }
    }

    pub fn new_string(context: &mut Context, string: Vec<u8>) -> (c: Constant)
        requires
            old(context).wf(),
        ensures
            final(context).wf(),
            final(context).preserves_types(*old(context)),
            final(context).values@ == old(context).values@,
            c.ty.valid(*final(context)),
            c.ty.content(*final(context)) == TypeContent::StringArray(string@.len() as u64),
            c.value == ConstantValue::String(string),
            const_wf(*final(context), c),
    {
        let len = string.len() as u64;
        Constant { ty: Type::new_string_array(context, len), value: ConstantValue::String(string) }
    }

    /// The derived array type is computed from the element type and count,
    /// not supplied independently: type/value mismatches are prevented by
    /// construction.
    pub fn new_array(context: &mut Context, elm_ty: Type, elems: Vec<Constant>) -> (c: Constant)
        requires
            old(context).wf(),
            elm_ty.valid(*old(context)),
            forall|i: int|
                #![trigger elems@[i]]
                0 <= i < elems@.len() ==> elems@[i].ty == elm_ty && const_wf(
                    *old(context),
                    elems@[i],
                ),
        ensures
            final(context).wf(),
            final(context).preserves_types(*old(context)),
            final(context).values@ == old(context).values@,
            c.ty.valid(*final(context)),
            c.ty.content(*final(context)) == TypeContent::Array(elm_ty, elems@.len() as u64),
            c.value == ConstantValue::Array(elems),
            const_wf(*final(context), c),
    {
        let len = elems.len() as u64;
        let ty = Type::new_array(context, elm_ty, len);
        let c = Constant { ty, value: ConstantValue::Array(elems) };
        proof {
            assert forall|i: int|
                0 <= i < c.value->Array_0@.len() implies const_wf(
                *context,
                #[trigger] c.value->Array_0@[i],
            ) by {
                lemma_const_wf_preserved(*old(context), *context, c.value->Array_0@[i]);
            }
        }
        c
    }

    /// The derived struct type is computed from the given ordered field
    /// types, which must match the fields themselves one for one.
    pub fn new_struct(
        context: &mut Context,
        field_tys: Vec<Type>,
        fields: Vec<Constant>,
    ) -> (c: Constant)
        requires
            old(context).wf(),
            field_tys@.len() == fields@.len(),
            forall|i: int|
                #![trigger field_tys@[i]]
                0 <= i < field_tys@.len() ==> field_tys@[i].valid(*old(context)),
            forall|i: int|
                #![trigger fields@[i]]
                0 <= i < fields@.len() ==> fields@[i].ty == field_tys@[i] && const_wf(
                    *old(context),
                    fields@[i],
                ),
        ensures
            final(context).wf(),
            final(context).preserves_types(*old(context)),
            final(context).values@ == old(context).values@,
            c.ty.valid(*final(context)),
            c.ty.content(*final(context)) matches TypeContent::Struct(fs) && fs@ == field_tys@,
            c.value == ConstantValue::Struct(fields),
            const_wf(*final(context), c),
    {
        let ty = Type::new_struct(context, field_tys);
        let c = Constant { ty, value: ConstantValue::Struct(fields) };
        proof {
            assert forall|i: int|
                0 <= i < c.value->Struct_0@.len() implies const_wf(
                *context,
                #[trigger] c.value->Struct_0@[i],
            ) by {
                lemma_const_wf_preserved(*old(context), *context, c.value->Struct_0@[i]);
            }
        }
        c
    }

    /// An uninitialized constant of the given type: it carries no payload and
    /// denotes "any value of this type".
    pub fn get_undef(ty: Type) -> (c: Constant)
        ensures
            c.ty == ty,
            c.value == ConstantValue::Undef,
    {
        Constant { ty, value: ConstantValue::Undef }
    }

    pub fn get_unit(context: &mut Context) -> (v: Value)
        requires
            old(context).wf(),
        ensures
            final(context).wf(),
            final(context).preserves_types(*old(context)),
            v.fresh_in(*final(context), *old(context)),
            v.datum(*final(context)) matches ValueDatum::Constant(c) && c.value
                == ConstantValue::Unit && c.ty.content(*final(context)) == TypeContent::Unit
                && const_wf(*final(context), c),
    {
        let new_const = Constant::new_unit(context);
        Value::new_constant(context, new_const)
    }

    pub fn get_bool(context: &mut Context, value: bool) -> (v: Value)
        requires
            old(context).wf(),
        ensures
            final(context).wf(),
            final(context).preserves_types(*old(context)),
            v.fresh_in(*final(context), *old(context)),
            v.datum(*final(context)) matches ValueDatum::Constant(c) && c.value
                == ConstantValue::Bool(value) && c.ty.content(*final(context))
                == TypeContent::Bool && const_wf(*final(context), c),
    {
        let new_const = Constant::new_bool(context, value);
        Value::new_constant(context, new_const)
    }

    pub fn get_uint(context: &mut Context, nbits: u16, value: u64) -> (v: Value)
        requires
            old(context).wf(),
            nbits == 8 || nbits == 16 || nbits == 32 || nbits == 64 || nbits == 256,
        ensures
            final(context).wf(),
            final(context).preserves_types(*old(context)),
            v.fresh_in(*final(context), *old(context)),
            v.datum(*final(context)) matches ValueDatum::Constant(c) && c.ty.content(
                *final(context),
            ) == TypeContent::Uint(nbits) && (nbits != 256 ==> c.value == ConstantValue::Uint(
                value,
            )) && (nbits == 256 ==> (c.value matches ConstantValue::U256(w) && w@
                == u64_to_be_bytes_32(value))) && const_wf(*final(context), c),
    {
        let new_const = Constant::new_uint(context, nbits, value);
        Value::new_constant(context, new_const)
    }

    pub fn get_uint256(context: &mut Context, value: U256) -> (v: Value)
        requires
            old(context).wf(),
        ensures
            final(context).wf(),
            final(context).preserves_types(*old(context)),
            v.fresh_in(*final(context), *old(context)),
            v.datum(*final(context)) matches ValueDatum::Constant(c) && c.value
                == ConstantValue::U256(value) && c.ty.content(*final(context))
                == TypeContent::Uint(256) && const_wf(*final(context), c),
    {
        let new_const = Constant::new_uint256(context, value);
        Value::new_constant(context, new_const)
    }

    pub fn get_b256(context: &mut Context, value: [u8; 32]) -> (v: Value)
        requires
            old(context).wf(),
        ensures
            final(context).wf(),
            final(context).preserves_types(*old(context)),
            v.fresh_in(*final(context), *old(context)),
            v.datum(*final(context)) matches ValueDatum::Constant(c) && c.value matches
                ConstantValue::B256(u) && u@ == value@ && c.ty.content(*final(context))
                == TypeContent::B256 && const_wf(*final(context), c),
    {
        let new_const = Constant::new_b256(context, value);
        Value::new_constant(context, new_const)
    }

    pub fn get_string(context: &mut Context, value: Vec<u8>) -> (v: Value)
        requires
            old(context).wf(),
        ensures
            final(context).wf(),
            final(context).preserves_types(*old(context)),
            v.fresh_in(*final(context), *old(context)),
            v.datum(*final(context)) matches ValueDatum::Constant(c) && c.value
                == ConstantValue::String(value) && c.ty.content(*final(context))
                == TypeContent::StringArray(value@.len() as u64) && const_wf(*final(context), c),
    {
        let new_const = Constant::new_string(context, value);
        Value::new_constant(context, new_const)
    }

    /// `value` must be created as an array constant first, using
    /// [`Constant::new_array()`]; handing anything else in is a caller
    /// contract violation.
    pub fn get_array(context: &mut Context, value: Constant) -> (v: Value)
        requires
            old(context).wf(),
            value.ty.valid(*old(context)),
            value.ty.content(*old(context)) is Array,
        ensures
            final(context).wf(),
            final(context).types@ == old(context).types@,
            v.fresh_in(*final(context), *old(context)),
            v.datum(*final(context)) == ValueDatum::Constant(value),
    {
        let is_array = value.ty.is_array(context);
        if !is_array {
            vstd::pervasive::unreached()
        } else {
            Value::new_constant(context, value)
        }
    }

    /// `value` must be created as a struct constant first, using
    /// [`Constant::new_struct()`]; handing anything else in is a caller
    /// contract violation.
    pub fn get_struct(context: &mut Context, value: Constant) -> (v: Value)
        requires
            old(context).wf(),
            value.ty.valid(*old(context)),
            value.ty.content(*old(context)) is Struct,
        ensures
            final(context).wf(),
            final(context).types@ == old(context).types@,
            v.fresh_in(*final(context), *old(context)),
            v.datum(*final(context)) == ValueDatum::Constant(value),
    {
        let is_struct = value.ty.is_struct(context);
        if !is_struct {
            vstd::pervasive::unreached()
        } else {
            Value::new_constant(context, value)
        }
    }

    /// Returns the tag and the value of an enum constant if `self` is an enum
    /// constant, otherwise `None`.
    ///
    /// A constant whose type is enum-shaped (see
    /// [`Type::is_enum`]) but whose payload is not a two-element struct would
    /// also yield `None`; given how enum constants are built, that case is an
    /// internal invariant violation and should be unreachable.
    pub fn extract_enum_tag_and_value<'a>(&'a self, context: &Context) -> (r: Option<
        (&'a Constant, &'a Constant),
    >)
        requires
            context.wf(),
            self.ty.valid(*context),
        ensures
            match r {
                Option::Some(p) => self.ty.spec_is_enum(*context) && (self.value matches
                    ConstantValue::Struct(es) && es@.len() == 2 && *p.0 == es@[0] && *p.1
                    == es@[1]),
                Option::None => !(self.ty.spec_is_enum(*context) && (self.value matches
                    ConstantValue::Struct(es) && es@.len() == 2)),
            },
    {
        if !self.ty.is_enum(context) {
            return Option::None;
        }
        match &self.value {
            ConstantValue::Struct(elems) => {
                if elems.len() == 2 {
                    Option::Some((&elems[0], &elems[1]))
                } else {
                    Option::None
                }
            },
            _ => Option::None,
        }
    }

    /// Compare two `Constant` values. Can't impl PartialEq because of
    /// context: type equality is a handle comparison that is only meaningful
    /// against the owning context, and the `Undef`-is-never-equal rule (see
    /// [`values_equal`]) cannot be a context-free structural comparison.
    #[verifier::loop_isolation(false)]
    pub fn eq(&self, context: &Context, other: &Self) -> (r: bool)
        ensures
            r == constants_equal(*self, *other),
        decreases *self,
    {
        let types_eq = self.ty.eq(context, &other.ty);
        if !types_eq {
            return false;
        }
        match (&self.value, &other.value) {
            (ConstantValue::Undef, _) => false,
            (_, ConstantValue::Undef) => false,
            (ConstantValue::Unit, ConstantValue::Unit) => true,
            (ConstantValue::Bool(l0), ConstantValue::Bool(r0)) => *l0 == *r0,
            (ConstantValue::Uint(l0), ConstantValue::Uint(r0)) => *l0 == *r0,
            (ConstantValue::U256(l0), ConstantValue::U256(r0)) => l0 == r0,
            (ConstantValue::B256(l0), ConstantValue::B256(r0)) => l0 == r0,
            (ConstantValue::String(l0), ConstantValue::String(r0)) => byte_lists_eq(l0, r0),
            (ConstantValue::Array(l0), ConstantValue::Array(r0)) => constant_lists_eq(
                context,
                l0,
                r0,
            ),
            (ConstantValue::Struct(l0), ConstantValue::Struct(r0)) => constant_lists_eq(
                context,
                l0,
                r0,
            ),
            _ => false,
        }
    }
}

/// Decides equality of two byte lists.
fn byte_lists_eq(a: &Vec<u8>, b: &Vec<u8>) -> (r: bool)
    ensures
        r == (a@ == b@),
{
    if a.len() != b.len() {
        return false;
    }
    let n = a.len();
    let mut i: usize = 0;
    while i < n
        invariant
            n == a@.len(),
            n == b@.len(),
            i <= n,
            forall|j: int| 0 <= j < i ==> a@[j] == b@[j],
        decreases n - i,
    {
        if a[i] != b[i] {
            return false;
        }
        i += 1;
    }
    proof {
        assert(a@ =~= b@);
    }
    true
}

/// Decides element-wise constant equality over the zipped prefixes of two
/// element lists, recursing into [`Constant::eq`].
#[verifier::loop_isolation(false)]
fn constant_lists_eq(context: &Context, l: &Vec<Constant>, r: &Vec<Constant>) -> (res: bool)
    ensures
        res == elems_equal(l@, r@),
    decreases l@,
{
    let n = if l.len() <= r.len() {
        l.len()
    } else {
        r.len()
    };
    let mut i: usize = 0;
    while i < n
        invariant
            i <= n,
            forall|j: int| 0 <= j < i ==> constants_equal(l@[j], r@[j]),
        decreases n - i,
    {
        let elem_eq = l[i].eq(context, &r[i]);
        if !elem_eq {
            return false;
        }
        i += 1;
    }
    true
}

/// Deep-copies every element of a constant list.
fn clone_constants(es: &Vec<Constant>) -> (res: Vec<Constant>)
    ensures
        res@.len() == es@.len(),
        forall|i: int| 0 <= i < es@.len() ==> constants_identical(es@[i], #[trigger] res@[i]),
    decreases es@,
{
    let mut res: Vec<Constant> = Vec::new();
    let n = es.len();
    let mut i: usize = 0;
    while i < n
        invariant
            n == es@.len(),
            i <= n,
            res@.len() == i,
            forall|j: int| 0 <= j < i ==> constants_identical(es@[j], #[trigger] res@[j]),
        decreases n - i,
    {
        let c = es[i].clone();
        res.push(c);
        i += 1;
    }
    res
}

impl Clone for ConstantValue {
    /// A clone is a deep copy: the same variant carrying the same scalars,
    /// bytes and elements.
    fn clone(&self) -> (res: Self)
        ensures
            values_identical(*self, res),
        decreases *self,
    {
        match self {
            ConstantValue::Undef => ConstantValue::Undef,
            ConstantValue::Unit => ConstantValue::Unit,
            ConstantValue::Bool(b) => ConstantValue::Bool(*b),
            ConstantValue::Uint(n) => ConstantValue::Uint(*n),
            ConstantValue::U256(u) => ConstantValue::U256(*u),
            ConstantValue::B256(u) => ConstantValue::B256(*u),
            ConstantValue::String(s) => {
                let r = s.clone();
                proof {
                    assert forall|i: int| 0 <= i < s@.len() implies r@[i] == s@[i] by {
                        assert(vstd::pervasive::cloned::<u8>(s@[i], r@[i]));
                    }
                    assert(r@ =~= s@);
                }
                ConstantValue::String(r)
            },
            ConstantValue::Array(es) => ConstantValue::Array(clone_constants(es)),
            ConstantValue::Struct(es) => ConstantValue::Struct(clone_constants(es)),
        }
    }
}

impl Clone for Constant {
    /// A clone carries the same type handle and a deep copy of the payload.
    fn clone(&self) -> (res: Self)
        ensures
            constants_identical(*self, res),
        decreases *self,
    {
        Constant { ty: self.ty, value: self.value.clone() }
    }
}

/// Undef irreflexivity: a comparison involving `Undef` on either side is
/// never equal — even `Undef` against another `Undef` of the same type, and
/// `Undef` against any concrete constant of its own type.
pub proof fn lemma_undef_never_equal(a: Constant, b: Constant)
    requires
        a.value is Undef || b.value is Undef,
    ensures
        !constants_equal(a, b),
{
}

/// The two wide-integer construction paths agree: constants typed as the
/// 256-bit unsigned integer whose payloads carry the same 32 bytes are equal
/// under [`constants_equal`] — in particular `new_uint(_, 256, n)` and
/// `new_uint256(_, U256::from_u64(n))` for any 64-bit `n`.
pub proof fn lemma_uint256_paths_agree(ctx: Context, c1: Constant, c2: Constant)
    requires
        ctx.wf(),
        c1.ty.valid(ctx),
        c2.ty.valid(ctx),
        c1.ty.content(ctx) == TypeContent::Uint(256),
        c2.ty.content(ctx) == TypeContent::Uint(256),
        c1.value is U256,
        c2.value is U256,
        c1.value->U256_0@ == c2.value->U256_0@,
    ensures
        constants_equal(c1, c2),
{
    crate::irtype::lemma_interning(ctx, c1.ty, c2.ty);
}

/// The element list of an aggregate constant payload.
pub open spec fn aggregate_elems(v: ConstantValue) -> Seq<Constant> {
    match v {
        ConstantValue::Array(es) => es@,
        ConstantValue::Struct(es) => es@,
        _ => Seq::empty(),
    }
}

/// Aggregate equality is element-wise and order-sensitive: two array or
/// struct constants of the same type and cardinality are equal exactly when
/// their elements are equal position by position.
pub proof fn lemma_aggregate_equality_elementwise(a: Constant, b: Constant)
    requires
        a.ty == b.ty,
        (a.value is Struct && b.value is Struct) || (a.value is Array && b.value is Array),
        aggregate_elems(a.value).len() == aggregate_elems(b.value).len(),
    ensures
        constants_equal(a, b) <==> (forall|i: int|
            0 <= i < aggregate_elems(a.value).len() ==> constants_equal(
                #[trigger] aggregate_elems(a.value)[i],
                aggregate_elems(b.value)[i],
            )),
{
}

/// An `Undef` element anywhere in either aggregate poisons the whole
/// comparison: the constants compare unequal even if every other element
/// matches.
pub proof fn lemma_aggregate_with_undef_not_equal(a: Constant, b: Constant, i: int)
    requires
        (a.value is Struct && b.value is Struct) || (a.value is Array && b.value is Array),
        0 <= i < aggregate_elems(a.value).len(),
        i < aggregate_elems(b.value).len(),
        aggregate_elems(a.value)[i].value is Undef || aggregate_elems(b.value)[i].value is Undef,
    ensures
        !constants_equal(a, b),
{
    lemma_undef_never_equal(aggregate_elems(a.value)[i], aggregate_elems(b.value)[i]);
}

} // verus!
