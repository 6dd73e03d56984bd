//! The attribute parser: finds the reserved `builder` annotation on a field
//! and turns it into an accumulator directive, or a diagnostic.  The only
//! accepted payload is a list with exactly one entry `each = "<name>"`; any
//! other payload shape on the reserved annotation is a generation-time
//! diagnostic, never a silent fallback.  A field without the reserved
//! annotation simply has no directive.

use vstd::prelude::*;
use crate::schema::{Attribute, Entry, Payload};

verus! {

/// The annotation carries the reserved name.
pub open spec fn is_reserved(a: Attribute) -> bool {
    a.name@ == "builder"@
}

/// The accumulator name carried by a well-formed reserved payload: a list
/// with exactly one entry `each = "<name>"`.  Any other shape carries none.
pub open spec fn payload_directive(p: Payload) -> Option<Seq<char>> {
    match p {
        Payload::List(es) => if es@.len() == 1 {
            match es@[0] {
                Entry::KeyStr { key, value } => if key@ == "each"@ {
                    Some(value@)
                } else {
                    None
                },
                Entry::Other => None,
            }
        } else {
            None
        },
        _ => None,
    }
}

/// What the parser owes for a given annotation list: no directive when no
/// annotation is reserved; otherwise the first reserved annotation decides,
/// yielding its accumulator name or a diagnostic.
pub open spec fn directive_spec(attrs: Seq<Attribute>) -> Result<Option<Seq<char>>, ()>
    decreases attrs.len(),
{
    if attrs.len() == 0 {
        Ok(None)
    } else if is_reserved(attrs[0]) {
        match payload_directive(attrs[0].payload) {
            Some(v) => Ok(Some(v)),
            None => Err(()),
        }
    } else {
        directive_spec(attrs.drop_first())
    }
}

/// The fixed message of the diagnostic for a malformed reserved annotation.
pub open spec fn expected_form_msg() -> Seq<char> {
    "expected `builder(each = \"...\")`"@
}

proof fn lemma_directive_spec_step(attrs: Seq<Attribute>, i: int)
    requires
        0 <= i <= attrs.len(),
        forall|k: int| 0 <= k < i ==> !is_reserved(attrs[k]),
    ensures
        directive_spec(attrs) == directive_spec(attrs.subrange(i, attrs.len() as int)),
    decreases i,
{
    if i > 0 {
        assert(directive_spec(attrs) == directive_spec(attrs.drop_first()));
        lemma_directive_spec_step(attrs.drop_first(), i - 1);
        assert(attrs.drop_first().subrange(i - 1, attrs.drop_first().len() as int)
            =~= attrs.subrange(i, attrs.len() as int));
    } else {
        assert(attrs.subrange(0, attrs.len() as int) =~= attrs);
    }
}

/// Turns one reserved annotation's payload into its accumulator name, or
/// the fixed diagnostic message.
fn annotation_directive(a: &Attribute) -> (r: Result<String, String>)
    ensures
        match r {
            Ok(name) => payload_directive(a.payload) == Some(name@),
            Err(msg) => payload_directive(a.payload) is None && msg@ == expected_form_msg(),
        },
{
    let each_key = String::from_str("each");
    proof {
        reveal_strlit("each");
    }
    match &a.payload {
        Payload::List(es) => {
            if es.len() == 1 {
                match &es[0] {
                    Entry::KeyStr { key, value } => {
                        if *key == each_key {
                            Ok(value.clone())
                        } else {
                            Err(String::from_str("expected `builder(each = \"...\")`"))
                        }
                    },
                    Entry::Other => {
                        Err(String::from_str("expected `builder(each = \"...\")`"))
                    },
                }
            } else {
                Err(String::from_str("expected `builder(each = \"...\")`"))
            }
        },
        _ => Err(String::from_str("expected `builder(each = \"...\")`")),
    }
}

/// Parses a field's annotation list into its accumulator directive.
///
/// Returns the accumulator name of the first reserved annotation when that
/// annotation is well formed, nothing when no annotation is reserved, and
/// the fixed diagnostic message when the first reserved annotation is
/// malformed.
pub fn field_directive(attrs: &Vec<Attribute>) -> (r: Result<Option<String>, String>)
    ensures
        match r {
            Ok(d) => {
                &&& directive_spec(attrs@) is Ok
                &&& match d {
                    Some(name) => directive_spec(attrs@) == Ok::<Option<Seq<char>>, ()>(
                        Some(name@),
                    ),
                    None => directive_spec(attrs@) == Ok::<Option<Seq<char>>, ()>(None),
                }
            },
            Err(msg) => {
                &&& directive_spec(attrs@) is Err
                &&& msg@ == expected_form_msg()
            },
        },
{
    let reserved = String::from_str("builder");
    proof {
        reveal_strlit("builder");
    }
    let mut i: usize = 0;
    let n = attrs.len();
    while i < n
        invariant
            reserved@ == "builder"@,
            n == attrs@.len(),
            i <= n,
            forall|k: int| 0 <= k < i ==> !is_reserved(attrs@[k]),
        decreases n - i,
    {
        if attrs[i].name == reserved {
            proof {
                lemma_directive_spec_step(attrs@, i as int);
                assert(attrs@.subrange(i as int, attrs@.len() as int)[0] == attrs@[i as int]);
            }
            let out = annotation_directive(&attrs[i]);
            match out {
                Ok(name) => {
                    return Ok(Some(name));
                },
                Err(msg) => {
                    return Err(msg);
                },
            }
        }
        i += 1;
    }
    proof {
        lemma_directive_spec_step(attrs@, attrs@.len() as int);
    }
    Ok(None)
}

} // verus!
