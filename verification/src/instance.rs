//! Runtime semantics of a synthesized builder: a mutable holder of one
//! optional slot per field, filled by assigning or appending setters and
//! consumed (without being cleared) by a validating finalizer that either
//! assembles the record's field values in declaration order or reports the
//! first missing required field.

use vstd::prelude::*;
use crate::artifact::{BuilderSlot, CodeArtifact};

verus! {

/// A runtime field value: a plain integer or text, or an ordered
/// collection of either, as accumulated by an appending setter.
#[derive(Debug, PartialEq, Eq)]
pub enum Value {
    Int(u64),
    Text(String),
    IntList(Vec<u64>),
    TextList(Vec<String>),
}

/// The mathematical content of a `Value`: collections abstract to
/// sequences.
pub enum ValueModel {
    Int(u64),
    Text(String),
    IntList(Seq<u64>),
    TextList(Seq<String>),
}

impl View for Value {
    type V = ValueModel;

    open spec fn view(&self) -> ValueModel {
        match self {
            Value::Int(n) => ValueModel::Int(*n),
            Value::Text(s) => ValueModel::Text(*s),
            Value::IntList(v) => ValueModel::IntList(v@),
            Value::TextList(v) => ValueModel::TextList(v@),
        }
    }
}

/// The content of one builder slot: absent, or a present value.
pub open spec fn slot_model(o: Option<Value>) -> Option<ValueModel> {
    match o {
        Some(v) => Some(v@),
        None => None,
    }
}

/// The elements of a collection value, each as a plain element value;
/// nothing for a non-collection value.
pub open spec fn list_model(m: ValueModel) -> Option<Seq<ValueModel>> {
    match m {
        ValueModel::IntList(xs) => Some(xs.map_values(|n: u64| ValueModel::Int(n))),
        ValueModel::TextList(ss) => Some(ss.map_values(|s: String| ValueModel::Text(s))),
        _ => None,
    }
}

/// An element value may be appended to a slot that is absent or holds a
/// collection that is empty or of the element's own kind.
pub open spec fn can_push(slot: Option<ValueModel>, v: ValueModel) -> bool {
    &&& (v is Int || v is Text)
    &&& match slot {
        None => true,
        Some(l) => match list_model(l) {
            Some(es) => es.len() == 0 || (es[0] is Int <==> v is Int),
            None => false,
        },
    }
}

/// The elements held after appending `v` to a slot: the slot's elements
/// followed by `v`, starting from no elements when the slot was absent.
pub open spec fn pushed_elems(slot: Option<ValueModel>, v: ValueModel) -> Seq<ValueModel> {
    match slot {
        Some(l) => match list_model(l) {
            Some(es) => es.push(v),
            None => seq![v],
        },
        None => seq![v],
    }
}

impl Value {
    /// Clones a value; the copy has the same mathematical content.
    pub fn duplicate(&self) -> (r: Value)
        ensures
            r@ == self@,
    {
        match self {
            Value::Int(n) => Value::Int(*n),
            Value::Text(s) => Value::Text(s.clone()),
            Value::IntList(v) => {
                let c = v.clone();
                proof {
                    assert(c@ =~= v@);
                }
                Value::IntList(c)
            },
            Value::TextList(v) => {
                let c = v.clone();
                proof {
                    assert(c@ =~= v@);
                }
                Value::TextList(c)
            },
        }
    }
}

/// An assembled record: one value per field in declaration order, absent
/// only where the field was declared optional-wrapped.
#[derive(Debug, PartialEq, Eq)]
pub struct RecordValue {
    pub fields: Vec<Option<Value>>,
}

/// The record's mathematical content, field by field.
pub open spec fn record_model(rec: RecordValue) -> Seq<Option<ValueModel>> {
    rec.fields@.map_values(|o: Option<Value>| slot_model(o))
}

/// The runtime error of a failed finalization, carrying its message.
#[derive(Debug, PartialEq, Eq)]
pub struct BuilderError {
    pub msg: String,
}

impl From<String> for BuilderError {
    /// The conversion from the generic string channel: the string becomes
    /// the error's message.
    fn from(s: String) -> (r: Self) {
        BuilderError { msg: s }
    }
}

impl vstd::std_specs::convert::FromSpecImpl<String> for BuilderError {
    open spec fn obeys_from_spec() -> bool {
        true
    }

    open spec fn from_spec(s: String) -> Self {
        BuilderError { msg: s }
    }
}

impl BuilderError {
    /// The conversion back to the generic string channel: the error's
    /// descriptive message.
    pub fn to_message(&self) -> (s: String)
        ensures
            s@ == self.msg@,
    {
        self.msg.clone()
    }
}

/// The finalizer's message for a missing required field.
pub open spec fn missing_msg(name: Seq<char>) -> Seq<char> {
    "Missing field: "@ + name
}

/// A builder instance: one optional slot per field of the artifact it was
/// created from, in declaration order.
pub struct BuilderInstance {
    pub slots: Vec<Option<Value>>,
}

/// The field at `i` is required (not pass-through) but its slot is absent.
pub open spec fn missing_at(slots: Seq<Option<Value>>, arts: Seq<BuilderSlot>, i: int) -> bool {
    !arts[i].passthrough && slots[i] is None
}

/// Everything finalization owes: on success, a record whose fields carry
/// exactly the slots' contents in declaration order (required fields all
/// present); on failure, the message naming the first missing required
/// field in declaration order.
pub open spec fn finalize_post(
    b: BuilderInstance,
    art: CodeArtifact,
    r: Result<RecordValue, BuilderError>,
) -> bool {
    match r {
        Ok(rec) => {
            &&& forall|i: int|
                0 <= i < art.slots@.len() ==> !#[trigger] missing_at(b.slots@, art.slots@, i)
            &&& rec.fields@.len() == b.slots@.len()
            &&& forall|i: int|
                0 <= i < b.slots@.len() ==> slot_model(#[trigger] rec.fields@[i]) == slot_model(
                    b.slots@[i],
                )
        },
        Err(e) => exists|j: int|
            {
                &&& 0 <= j < art.slots@.len()
                &&& #[trigger] missing_at(b.slots@, art.slots@, j)
                &&& forall|k: int| 0 <= k < j ==> !#[trigger] missing_at(b.slots@, art.slots@, k)
                &&& e.msg@ == missing_msg(art.slots@[j].name@)
            },
    }
}

impl BuilderInstance {
    /// Creates the builder instance of an artifact: every slot absent,
    /// except accumulator slots, which start as a present empty
    /// collection.
    #[verifier::loop_isolation(false)]
    pub fn fresh(art: &CodeArtifact) -> (b: BuilderInstance)
        ensures
            b.slots@.len() == art.slots@.len(),
            forall|i: int|
                0 <= i < art.slots@.len() ==> if art.slots@[i].starts_empty {
                    #[trigger] b.slots@[i] matches Some(l) && list_model(l@) == Some(
                        Seq::<ValueModel>::empty(),
                    )
                } else {
                    b.slots@[i] is None
                },
    {
        let mut slots: Vec<Option<Value>> = Vec::new();
        let n = art.slots.len();
        let mut i: usize = 0;
        while i < n
            invariant
                i <= n,
                slots@.len() == i,
                forall|k: int|
                    0 <= k < i ==> if art.slots@[k].starts_empty {
                        #[trigger] slots@[k] matches Some(l) && list_model(l@) == Some(
                            Seq::<ValueModel>::empty(),
                        )
                    } else {
                        slots@[k] is None
                    },
            decreases n - i,
        {
            if art.slots[i].starts_empty {
                let empty: Vec<String> = Vec::new();
                proof {
                    assert(empty@.map_values(|s: String| ValueModel::Text(s))
                        =~= Seq::<ValueModel>::empty());
                }
                slots.push(Some(Value::TextList(empty)));
            } else {
                slots.push(None);
            }
            i += 1;
        }
        BuilderInstance { slots }
    }

    /// An assigning setter: stores the value as present in the named
    /// slot, replacing whatever the slot held; no other slot changes.
    pub fn set_value(&mut self, field: usize, v: Value)
        requires
            field < old(self).slots@.len(),
        ensures
            final(self).slots@ == old(self).slots@.update(field as int, Some(v)),
    {
        self.slots.set(field, Some(v));
    }

    /// An appending setter: appends the element to the named slot's
    /// collection, creating a present one-element collection when the
    /// slot was absent; no other slot changes.
    pub fn push_value(&mut self, field: usize, v: Value)
        requires
            field < old(self).slots@.len(),
            can_push(slot_model(old(self).slots@[field as int]), v@),
        ensures
            final(self).slots@.len() == old(self).slots@.len(),
            forall|j: int|
                0 <= j < old(self).slots@.len() && j != field as int
                    ==> #[trigger] final(self).slots@[j] == old(self).slots@[j],
            final(self).slots@[field as int] matches Some(l) && list_model(l@) == Some(
                pushed_elems(slot_model(old(self).slots@[field as int]), v@),
            ),
    {
        let mut taken: Option<Value> = None;
        self.slots.set_and_swap(field, &mut taken);
        let ghost old_slot = slot_model(old(self).slots@[field as int]);
        let new_list: Value = match (taken, v) {
            (None, Value::Int(n)) => {
                let mut xs: Vec<u64> = Vec::new();
                xs.push(n);
                Value::IntList(xs)
            },
            (None, Value::Text(s)) => {
                let mut ss: Vec<String> = Vec::new();
                ss.push(s);
                Value::TextList(ss)
            },
            (Some(Value::IntList(mut xs)), Value::Int(n)) => {
                xs.push(n);
                Value::IntList(xs)
            },
            (Some(Value::TextList(mut ss)), Value::Text(s)) => {
                ss.push(s);
                Value::TextList(ss)
            },
            (Some(Value::IntList(xs)), Value::Text(s)) => {
                if xs.len() == 0 {
                    let mut ss: Vec<String> = Vec::new();
                    ss.push(s);
                    Value::TextList(ss)
                } else {
                    unreached()
                }
            },
            (Some(Value::TextList(ss)), Value::Int(n)) => {
                if ss.len() == 0 {
                    let mut xs: Vec<u64> = Vec::new();
                    xs.push(n);
                    Value::IntList(xs)
                } else {
                    unreached()
                }
            },
            _ => unreached(),
        };
        proof {
            assert(list_model(new_list@) matches Some(es) && es =~= pushed_elems(old_slot, v@));
        }
        self.slots.set(field, Some(new_list));
    }

    /// The validating finalizer: reads the slots in declaration order and
    /// assembles the record, or reports the first missing required field.
    /// It does not change the builder, so a caller may fill the missing
    /// field and finalize again.
    #[verifier::loop_isolation(false)]
    pub fn finalize(&self, art: &CodeArtifact) -> (r: Result<RecordValue, BuilderError>)
        requires
            self.slots@.len() == art.slots@.len(),
        ensures
            finalize_post(*self, *art, r),
    {
        let mut out: Vec<Option<Value>> = Vec::new();
        let n = self.slots.len();
        let mut i: usize = 0;
        while i < n
            invariant
                i <= n,
                out@.len() == i,
                forall|k: int| 0 <= k < i ==> !#[trigger] missing_at(self.slots@, art.slots@, k),
                forall|k: int|
                    0 <= k < i ==> slot_model(#[trigger] out@[k]) == slot_model(self.slots@[k]),
            decreases n - i,
        {
            match &self.slots[i] {
                Some(v) => {
                    out.push(Some(v.duplicate()));
                },
                None => {
                    if art.slots[i].passthrough {
                        out.push(None);
                    } else {
                        let mut m = String::from_str("Missing field: ");
                        m.append(art.slots[i].name.as_str());
                        proof {
                            assert(missing_at(self.slots@, art.slots@, i as int));
                        }
                        return Err(BuilderError { msg: m });
                    }
                },
            }
            i += 1;
        }
        Ok(RecordValue { fields: out })
    }
}

/// Law: an assigning setter is last-write-wins — assigning a slot twice
/// leaves exactly the state of assigning the second value once, as stated
/// over `set_value`'s slot update.
pub proof fn lemma_assign_last_wins(slots: Seq<Option<Value>>, field: int, v1: Value, v2: Value)
    requires
        0 <= field < slots.len(),
    ensures
        slots.update(field, Some(v1)).update(field, Some(v2)) == slots.update(field, Some(v2)),
{
    assert(slots.update(field, Some(v1)).update(field, Some(v2)) =~= slots.update(
        field,
        Some(v2),
    ));
}

/// Law: an appending setter never overwrites — after one append of `v1`,
/// appending `v2` yields the elements of the first append followed by
/// `v2`, so two appends always add two elements in order.
pub proof fn lemma_append_accumulates(
    slot: Option<ValueModel>,
    mid: Option<ValueModel>,
    v1: ValueModel,
    v2: ValueModel,
)
    requires
        mid matches Some(l) && list_model(l) == Some(pushed_elems(slot, v1)),
    ensures
        pushed_elems(mid, v2) == pushed_elems(slot, v1).push(v2),
        pushed_elems(mid, v2).len() == pushed_elems(slot, v1).len() + 1,
{
}

/// Law: a builder on which every field's slot holds a value finalizes
/// successfully, to exactly the record directly constructed from those
/// values in declaration order.
pub proof fn lemma_complete_builder_finalizes(
    b: BuilderInstance,
    art: CodeArtifact,
    r: Result<RecordValue, BuilderError>,
    vals: Seq<Value>,
)
    requires
        b.slots@.len() == art.slots@.len(),
        vals.len() == b.slots@.len(),
        forall|i: int| 0 <= i < vals.len() ==> b.slots@[i] == Some(vals[i]),
        finalize_post(b, art, r),
    ensures
        r is Ok,
        r->Ok_0.fields@.len() == vals.len(),
        forall|i: int|
            0 <= i < vals.len() ==> slot_model(#[trigger] r->Ok_0.fields@[i]) == Some(vals[i]@),
{
    match r {
        Ok(rec) => {},
        Err(e) => {
            let j = choose|j: int|
                {
                    &&& 0 <= j < art.slots@.len()
                    &&& #[trigger] missing_at(b.slots@, art.slots@, j)
                    &&& forall|k: int|
                        0 <= k < j ==> !#[trigger] missing_at(b.slots@, art.slots@, k)
                    &&& e.msg@ == missing_msg(art.slots@[j].name@)
                };
            assert(b.slots@[j] == Some(vals[j]));
            assert(false);
        },
    }
}

/// Law: finalization is a pure reading of the builder's state — two
/// finalizations over unchanged slots agree: both succeed with records of
/// equal content, or both fail with the same message.
pub proof fn lemma_finalize_deterministic(
    b: BuilderInstance,
    art: CodeArtifact,
    r1: Result<RecordValue, BuilderError>,
    r2: Result<RecordValue, BuilderError>,
)
    requires
        finalize_post(b, art, r1),
        finalize_post(b, art, r2),
    ensures
        r1 is Ok <==> r2 is Ok,
        r1 is Ok ==> record_model(r1->Ok_0) == record_model(r2->Ok_0),
        r1 is Err ==> r1->Err_0.msg@ == r2->Err_0.msg@,
{
    match (r1, r2) {
        (Ok(rec1), Ok(rec2)) => {
            assert(record_model(rec1) =~= record_model(rec2));
        },
        (Err(e1), Err(e2)) => {
            let j1 = choose|j: int|
                {
                    &&& 0 <= j < art.slots@.len()
                    &&& #[trigger] missing_at(b.slots@, art.slots@, j)
                    &&& forall|k: int|
                        0 <= k < j ==> !#[trigger] missing_at(b.slots@, art.slots@, k)
                    &&& e1.msg@ == missing_msg(art.slots@[j].name@)
                };
            let j2 = choose|j: int|
                {
                    &&& 0 <= j < art.slots@.len()
                    &&& #[trigger] missing_at(b.slots@, art.slots@, j)
                    &&& forall|k: int|
                        0 <= k < j ==> !#[trigger] missing_at(b.slots@, art.slots@, k)
                    &&& e2.msg@ == missing_msg(art.slots@[j].name@)
                };
            assert(j1 == j2);
        },
        (Ok(_), Err(e2)) => {
            let j = choose|j: int|
                {
                    &&& 0 <= j < art.slots@.len()
                    &&& #[trigger] missing_at(b.slots@, art.slots@, j)
                    &&& forall|k: int|
                        0 <= k < j ==> !#[trigger] missing_at(b.slots@, art.slots@, k)
                    &&& e2.msg@ == missing_msg(art.slots@[j].name@)
                };
            assert(false);
        },
        (Err(e1), Ok(_)) => {
            let j = choose|j: int|
                {
                    &&& 0 <= j < art.slots@.len()
                    &&& #[trigger] missing_at(b.slots@, art.slots@, j)
                    &&& forall|k: int|
                        0 <= k < j ==> !#[trigger] missing_at(b.slots@, art.slots@, k)
                    &&& e1.msg@ == missing_msg(art.slots@[j].name@)
                };
            assert(false);
        },
    }
}

} // verus!
