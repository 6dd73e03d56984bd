//! The builder synthesizer: consumes an annotated schema and emits the code
//! artifact — one builder slot and exactly one setter operation per field,
//! in declaration order — or the first field's diagnostic.

use vstd::prelude::*;
use crate::schema::{FieldDescriptor, TypeExpr};
use crate::classify::{inner_type, is_option, is_optional_shape};
use crate::attrs::{directive_spec, expected_form_msg, field_directive};

verus! {

/// One state slot of the synthesized builder: always optional-wrapped
/// around `ty`.  `passthrough` records that the declared field type was
/// itself optional-wrapped, so finalization passes the slot through
/// unchanged; `starts_empty` records an accumulator field, whose slot
/// starts as a present empty sequence instead of absent.
pub struct BuilderSlot {
    pub name: String,
    pub ty: TypeExpr,
    pub passthrough: bool,
    pub starts_empty: bool,
}

/// One synthesized setter: either a plain assigning setter named after the
/// field, or an appending accumulator setter with its directive's name.
/// The parameter type is derived from the slot of the named field: the
/// slot's type for an assignment, the slot type's element type for an
/// append.
pub enum SetterOp {
    Assign { field: usize },
    Append { field: usize, method: String },
}

/// The synthesized companion of one record type: its builder slots and
/// setter operations, one of each per field, in declaration order.
pub struct CodeArtifact {
    pub record_name: String,
    pub slots: Vec<BuilderSlot>,
    pub setters: Vec<SetterOp>,
}

/// A generation-time diagnostic, anchored at the offending field.
#[derive(Debug)]
pub struct Diagnostic {
    pub field: usize,
    pub msg: String,
}

/// The slot synthesized for a field: same name, the declared type one
/// level unwrapped when optional-wrapped, pass-through exactly for
/// optional-wrapped fields, present-empty start exactly for accumulator
/// fields.
pub open spec fn slot_matches(s: BuilderSlot, f: FieldDescriptor) -> bool {
    &&& s.name@ == f.name@
    &&& s.ty == inner_type(f.ty)
    &&& s.passthrough == is_optional_shape(f.ty)
    &&& s.starts_empty == (directive_spec(f.attrs@) matches Ok(Some(_)))
}

/// The setter synthesized for the field at position `i`: an appending
/// setter named by the directive when one is present, an assigning setter
/// otherwise.
pub open spec fn setter_matches(op: SetterOp, f: FieldDescriptor, i: int) -> bool {
    match directive_spec(f.attrs@) {
        Ok(dir) => match dir {
            Some(push_name) => op matches SetterOp::Append { field, method }
                && field as int == i && method@ == push_name,
            None => op matches SetterOp::Assign { field } && field as int == i,
        },
        Err(_) => false,
    }
}

/// Generates the builder artifact for one record type.
///
/// Succeeds if and only if every field's annotation list parses, and then
/// emits exactly one slot and one setter per field, in declaration order.
/// Fails with the fixed diagnostic anchored at the first field whose
/// reserved annotation is malformed.
pub fn generate(record_name: String, fields: Vec<FieldDescriptor>) -> (r: Result<
    CodeArtifact,
    Diagnostic,
>)
    ensures
        match r {
            Ok(art) => {
                &&& forall|i: int|
                    0 <= i < fields@.len() ==> directive_spec(#[trigger] fields@[i].attrs@) is Ok
                &&& art.record_name@ == record_name@
                &&& art.slots@.len() == fields@.len()
                &&& art.setters@.len() == fields@.len()
                &&& forall|i: int|
                    0 <= i < fields@.len() ==> slot_matches(#[trigger] art.slots@[i], fields@[i])
                &&& forall|i: int|
                    0 <= i < fields@.len() ==> setter_matches(
                        #[trigger] art.setters@[i],
                        fields@[i],
                        i,
                    )
            },
            Err(d) => {
                &&& (d.field as int) < fields@.len()
                &&& directive_spec(fields@[d.field as int].attrs@) is Err
                &&& forall|k: int|
                    0 <= k < d.field as int ==> directive_spec(#[trigger] fields@[k].attrs@) is Ok
                &&& d.msg@ == expected_form_msg()
            },
        },
{
    let mut slots: Vec<BuilderSlot> = Vec::new();
    let mut setters: Vec<SetterOp> = Vec::new();
    let mut rest = fields;
    let n = rest.len();
    let ghost all = rest@;
    let mut i: usize = 0;
    while i < n
        invariant
            all == fields@,
            n == all.len(),
            i <= n,
            rest@ == all.subrange(i as int, n as int),
            slots@.len() == i,
            setters@.len() == i,
            forall|k: int| 0 <= k < i ==> directive_spec(#[trigger] all[k].attrs@) is Ok,
            forall|k: int| 0 <= k < i ==> slot_matches(#[trigger] slots@[k], all[k]),
            forall|k: int| 0 <= k < i ==> setter_matches(#[trigger] setters@[k], all[k], k),
        decreases n - i,
    {
        let f = rest.remove(0);
        proof {
            assert(f == all[i as int]);
            assert(rest@ =~= all.subrange(i + 1, n as int));
        }
        let dir = match field_directive(&f.attrs) {
            Ok(d) => d,
            Err(msg) => {
                return Err(Diagnostic { field: i, msg });
            },
        };
        let optional = is_option(&f.ty);
        let FieldDescriptor { name, ty, attrs: _ } = f;
        let slot_ty: TypeExpr = if optional {
            let mut t = ty;
            match t.args.pop() {
                Some(x) => x,
                None => unreached(),
            }
        } else {
            ty
        };
        match dir {
            Some(push_name) => {
                setters.push(SetterOp::Append { field: i, method: push_name });
                slots.push(
                    BuilderSlot { name, ty: slot_ty, passthrough: optional, starts_empty: true },
                );
            },
            None => {
                setters.push(SetterOp::Assign { field: i });
                slots.push(
                    BuilderSlot { name, ty: slot_ty, passthrough: optional, starts_empty: false },
                );
            },
        }
        i += 1;
    }
    Ok(CodeArtifact { record_name, slots, setters })
}

} // verus!
