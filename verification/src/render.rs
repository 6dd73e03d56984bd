//! The sibling formatter generator and its rendering routine: a record
//! instance is rendered as the type's name, a space, an opening brace,
//! then each field in declaration order as `name: "value"` separated by
//! `, `, then a space and the closing brace.  A field's value is its
//! plain textual rendering; a field whose value has none (an absent
//! optional, a collection) is not supported.

use vstd::prelude::*;
use crate::schema::FieldDescriptor;
use crate::instance::{record_model, slot_model, RecordValue, Value, ValueModel};

verus! {

/// The decimal digit character of `d`.
pub open spec fn digit_char(d: nat) -> char {
    if d == 0 {
        '0'
    } else if d == 1 {
        '1'
    } else if d == 2 {
        '2'
    } else if d == 3 {
        '3'
    } else if d == 4 {
        '4'
    } else if d == 5 {
        '5'
    } else if d == 6 {
        '6'
    } else if d == 7 {
        '7'
    } else if d == 8 {
        '8'
    } else {
        '9'
    }
}

/// The decimal rendering of `n`: most significant digit first, no sign,
/// no leading zero except for zero itself.
pub open spec fn dec_str(n: nat) -> Seq<char>
    decreases n,
{
    if n < 10 {
        seq![digit_char(n)]
    } else {
        dec_str(n / 10).push(digit_char(n % 10))
    }
}

fn digit_text(d: u64) -> (r: &'static str)
    requires
        d < 10,
    ensures
        r@ == seq![digit_char(d as nat)],
{
    if d == 0 {
        proof {
            reveal_strlit("0");
            assert("0"@ =~= seq![digit_char(0)]);
        }
        "0"
    } else if d == 1 {
        proof {
            reveal_strlit("1");
            assert("1"@ =~= seq![digit_char(1)]);
        }
        "1"
    } else if d == 2 {
        proof {
            reveal_strlit("2");
            assert("2"@ =~= seq![digit_char(2)]);
        }
        "2"
    } else if d == 3 {
        proof {
            reveal_strlit("3");
            assert("3"@ =~= seq![digit_char(3)]);
        }
        "3"
    } else if d == 4 {
        proof {
            reveal_strlit("4");
            assert("4"@ =~= seq![digit_char(4)]);
        }
        "4"
    } else if d == 5 {
        proof {
            reveal_strlit("5");
            assert("5"@ =~= seq![digit_char(5)]);
        }
        "5"
    } else if d == 6 {
        proof {
            reveal_strlit("6");
            assert("6"@ =~= seq![digit_char(6)]);
        }
        "6"
    } else if d == 7 {
        proof {
            reveal_strlit("7");
            assert("7"@ =~= seq![digit_char(7)]);
        }
        "7"
    } else if d == 8 {
        proof {
            reveal_strlit("8");
            assert("8"@ =~= seq![digit_char(8)]);
        }
        "8"
    } else {
        proof {
            reveal_strlit("9");
            assert("9"@ =~= seq![digit_char(9)]);
        }
        "9"
    }
}

/// Renders an integer in decimal.
pub fn decimal_text(n: u64) -> (s: String)
    ensures
        s@ == dec_str(n as nat),
    decreases n,
{
    if n < 10 {
        String::from_str(digit_text(n))
    } else {
        let mut s = decimal_text(n / 10);
        s.append(digit_text(n % 10));
        proof {
            assert(dec_str((n / 10) as nat).push(digit_char((n % 10) as nat)) =~= dec_str(
                (n / 10) as nat,
            ) + seq![digit_char((n % 10) as nat)]);
        }
        s
    }
}

/// The plain textual rendering of a value: decimal for an integer, the
/// text itself for text; a collection has none.
pub open spec fn value_text(m: ValueModel) -> Option<Seq<char>> {
    match m {
        ValueModel::Int(n) => Some(dec_str(n as nat)),
        ValueModel::Text(s) => Some(s@),
        _ => None,
    }
}

/// A record field can be rendered: its value is present and has a plain
/// textual rendering.
pub open spec fn renderable(o: Option<ValueModel>) -> bool {
    o matches Some(m) && value_text(m) is Some
}

/// The rendering of a renderable field's value.
pub open spec fn shown(o: Option<ValueModel>) -> Seq<char> {
    match o {
        Some(m) => match value_text(m) {
            Some(t) => t,
            None => Seq::empty(),
        },
        None => Seq::empty(),
    }
}

/// The rendered field list from position `i` on: each field as
/// `name: "value"`, fields separated by `, ` with no trailing separator.
pub open spec fn fields_text(
    names: Seq<Seq<char>>,
    vals: Seq<Option<ValueModel>>,
    i: int,
) -> Seq<char>
    decreases vals.len() - i,
{
    if 0 <= i < vals.len() {
        names[i] + ": \""@ + shown(vals[i]) + "\""@ + (if i + 1 < vals.len() {
            ", "@
        } else {
            Seq::empty()
        }) + fields_text(names, vals, i + 1)
    } else {
        Seq::empty()
    }
}

/// The full rendering of a record: its type name, a space, the brace,
/// the field list, a space and the closing brace.
pub open spec fn rendered_record(
    name: Seq<char>,
    names: Seq<Seq<char>>,
    vals: Seq<Option<ValueModel>>,
) -> Seq<char> {
    name + " { "@ + fields_text(names, vals, 0) + " }"@
}

/// The formatter's plan for one record type: the type's name and its
/// field names in declaration order.
pub struct FormatPlan {
    pub record_name: String,
    pub field_names: Vec<String>,
}

/// The field names of a plan, as sequences.
pub open spec fn plan_names(p: FormatPlan) -> Seq<Seq<char>> {
    p.field_names@.map_values(|s: String| s@)
}

/// The formatter generator: consumes the schema of one record type and
/// plans the rendering — the type's name and the field names, in
/// declaration order.  It never fails: every schema has a plan.
#[verifier::loop_isolation(false)]
pub fn debug_plan(record_name: String, fields: Vec<FieldDescriptor>) -> (p: FormatPlan)
    ensures
        p.record_name@ == record_name@,
        p.field_names@.len() == fields@.len(),
        forall|i: int| 0 <= i < fields@.len() ==> plan_names(p)[i] == fields@[i].name@,
{
    let mut names: Vec<String> = Vec::new();
    let mut rest = fields;
    let n = rest.len();
    let ghost all = rest@;
    let mut i: usize = 0;
    while i < n
        invariant
            all == fields@,
            n == all.len(),
            i <= n,
            rest@ == all.subrange(i as int, n as int),
            names@.len() == i,
            forall|k: int| 0 <= k < i ==> #[trigger] names@[k]@ == all[k].name@,
        decreases n - i,
    {
        let f = rest.remove(0);
        proof {
            assert(f == all[i as int]);
            assert(rest@ =~= all.subrange(i + 1, n as int));
        }
        names.push(f.name);
        i += 1;
    }
    FormatPlan { record_name, field_names: names }
}

/// Renders a record instance by its plan, or reports that some field has
/// no plain textual rendering.
#[verifier::loop_isolation(false)]
pub fn render_record(plan: &FormatPlan, rec: &RecordValue) -> (r: Option<String>)
    requires
        plan.field_names@.len() == rec.fields@.len(),
    ensures
        match r {
            Some(s) => {
                &&& forall|i: int|
                    0 <= i < rec.fields@.len() ==> renderable(slot_model(
                        #[trigger] rec.fields@[i],
                    ))
                &&& s@ == rendered_record(plan.record_name@, plan_names(*plan), record_model(*rec))
            },
            None => exists|i: int|
                0 <= i < rec.fields@.len() && !renderable(slot_model(#[trigger] rec.fields@[i])),
        },
{
    let ghost names = plan_names(*plan);
    let ghost vals = record_model(*rec);
    let mut s = plan.record_name.clone();
    s.append(" { ");
    let n = rec.fields.len();
    let mut i: usize = 0;
    while i < n
        invariant
            n == rec.fields@.len(),
            i <= n,
            names == plan_names(*plan),
            vals == record_model(*rec),
            forall|k: int| 0 <= k < i ==> renderable(slot_model(#[trigger] rec.fields@[k])),
            s@ + fields_text(names, vals, i as int) == plan.record_name@ + " { "@ + fields_text(
                names,
                vals,
                0,
            ),
        decreases n - i,
    {
        let ghost s0 = s@;
        s.append(plan.field_names[i].as_str());
        s.append(": \"");
        match &rec.fields[i] {
            Some(Value::Int(v)) => {
                let t = decimal_text(*v);
                s.append(t.as_str());
            },
            Some(Value::Text(t)) => {
                s.append(t.as_str());
            },
            _ => {
                proof {
                    assert(!renderable(slot_model(rec.fields@[i as int])));
                }
                return None;
            },
        }
        s.append("\"");
        if i + 1 < n {
            s.append(", ");
        }
        proof {
            assert(s@ =~= s0 + (names[i as int] + ": \""@ + shown(vals[i as int]) + "\""@ + (if i
                + 1 < vals.len() {
                ", "@
            } else {
                Seq::empty()
            })));
            assert(s@ + fields_text(names, vals, i + 1) =~= s0 + fields_text(
                names,
                vals,
                i as int,
            ));
        }
        i += 1;
    }
    s.append(" }");
    proof {
        assert(fields_text(names, vals, n as int) =~= Seq::<char>::empty());
        assert(s@ =~= plan.record_name@ + " { "@ + fields_text(names, vals, 0) + " }"@);
    }
    Some(s)
}

} // verus!
