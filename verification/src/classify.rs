//! The type classifier: purely syntactic shape matching on a declared type
//! expression.  A type whose head is the optional-wrapper name with exactly
//! one generic argument is optional-wrapped; everything else degrades to
//! bare.  Sequence wrappers are never unwrapped here: their element type is
//! extracted only when an accumulator directive asks for it.

use vstd::prelude::*;
use crate::schema::TypeExpr;

verus! {

/// The declared type is the optional wrapper applied to exactly one
/// argument.
pub open spec fn is_optional_shape(t: TypeExpr) -> bool {
    t.head@ == "Option"@ && t.args@.len() == 1
}

/// The builder slot's inner type: one level unwrapped for an
/// optional-wrapped declared type, the declared type unchanged otherwise.
pub open spec fn inner_type(t: TypeExpr) -> TypeExpr {
    if is_optional_shape(t) {
        t.args@[0]
    } else {
        t
    }
}

/// The element type an accumulator setter takes: the single generic
/// argument when the type carries exactly one, the type itself otherwise.
pub open spec fn element_type(t: TypeExpr) -> TypeExpr {
    if t.args@.len() == 1 {
        t.args@[0]
    } else {
        t
    }
}

/// Whether the declared type is optional-wrapped.
pub fn is_option(ty: &TypeExpr) -> (r: bool)
    ensures
        r == is_optional_shape(*ty),
{
    let optional_head = String::from_str("Option");
    ty.head.eq(&optional_head) && ty.args.len() == 1
}

/// The inner type of an optional-wrapped declared type, or nothing when the
/// type is not optional-wrapped.
pub fn extract_option_inner(ty: &TypeExpr) -> (r: Option<&TypeExpr>)
    ensures
        match r {
            Some(inner) => is_optional_shape(*ty) && *inner == inner_type(*ty),
            None => !is_optional_shape(*ty),
        },
{
    if is_option(ty) {
        Some(&ty.args[0])
    } else {
        None
    }
}

/// The element type for an accumulator setter over the given slot type.
pub fn sequence_element(ty: &TypeExpr) -> (r: &TypeExpr)
    ensures
        *r == element_type(*ty),
{
    if ty.args.len() == 1 {
        &ty.args[0]
    } else {
        ty
    }
}

} // verus!
