//! The schema handed to the generator: one descriptor per declared field of
//! the target record type, in declaration order, together with the raw
//! attribute annotations attached to each field.

use vstd::prelude::*;

verus! {

/// A type expression, matched purely syntactically: a head name and its
/// generic arguments, e.g. `Option<String>` is `head: "Option"` with one
/// argument `String`.
pub struct TypeExpr {
    pub head: String,
    pub args: Vec<TypeExpr>,
}

/// One entry inside a parenthesized attribute payload.
#[derive(Clone)]
pub enum Entry {
    /// `key = "value"` with a string literal value.
    KeyStr { key: String, value: String },
    /// Any other entry form: a bare path, a literal, or `key = <non-string>`.
    Other,
}

/// The payload of an attribute annotation.
#[derive(Clone)]
pub enum Payload {
    /// A parenthesized list of entries: `name(...)`.
    List(Vec<Entry>),
    /// The bare name alone: `name`.
    Word,
    /// A single assigned value: `name = <lit>`.
    Assign,
}

/// One attribute annotation attached to a field.
#[derive(Clone)]
pub struct Attribute {
    pub name: String,
    pub payload: Payload,
}

/// One field of the target record: its name, its declared type, and its
/// attribute annotations.  The position of a field is its index in the
/// schema's field list; ordering is significant and preserved by every
/// later stage.
pub struct FieldDescriptor {
    pub name: String,
    pub ty: TypeExpr,
    pub attrs: Vec<Attribute>,
}

} // verus!
