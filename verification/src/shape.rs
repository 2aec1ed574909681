use vstd::prelude::*;

use crate::error::ClientError;
use crate::json::{spec_lookup, lookup, JsonValue};

verus! {

/// The caller's declarative description of the desired result type: a tree
/// of typed, named fields.
#[derive(Debug, PartialEq, Eq)]
pub enum TargetShape {
    Text,
    Number,
    Boolean,
    ObjectOf(Vec<(String, TargetShape)>),
    ArrayOf(Box<TargetShape>),
    OptionalOf(Box<TargetShape>),
    UnionOf(Vec<TargetShape>),
}

/// A decoded instance of a target shape. `Missing` stands for an optional
/// field that was absent or null.
#[derive(Debug, PartialEq, Eq)]
pub enum TargetValue {
    Text(String),
    Number(serde_json::Number),
    Boolean(bool),
    ObjectOf(Vec<(String, TargetValue)>),
    ArrayOf(Vec<TargetValue>),
    Missing,
}

pub open spec fn is_optional(s: TargetShape) -> bool {
    s is OptionalOf
}

/// Whether one declared field can be decoded out of the members of a JSON
/// object: an absent member is allowed only for an optional field.
pub open spec fn field_decodable(entries: Seq<(String, JsonValue)>, f: (String, TargetShape)) -> bool
    decreases f,
{
    match spec_lookup(entries, f.0@) {
        None => is_optional(f.1),
        Some(v) => decodable(v, f.1),
    }
}

/// Whether the JSON value can be decoded into the shape. Union branches
/// succeed if any branch does; everything else is structural.
pub open spec fn decodable(j: JsonValue, s: TargetShape) -> bool
    decreases s,
{
    match s {
        TargetShape::Text => j is Text,
        TargetShape::Number => j is Number,
        TargetShape::Boolean => j is Boolean,
        TargetShape::ObjectOf(fields) => {
            &&& j is Object
            &&& forall|i: int|
                0 <= i < fields@.len() ==> field_decodable(j->Object_0@, #[trigger] fields@[i])
        },
        TargetShape::ArrayOf(t) => {
            &&& j is Array
            &&& forall|i: int| 0 <= i < j->Array_0@.len() ==> decodable(#[trigger] j->Array_0@[i], *t)
        },
        TargetShape::OptionalOf(t) => j is Null || decodable(j, *t),
        TargetShape::UnionOf(branches) => exists|i: int|
            0 <= i < branches@.len() && decodable(j, #[trigger] branches@[i]),
    }
}

/// How one declared field decodes out of the members of a JSON object:
/// the slot keeps the field's name; an absent member decodes an optional
/// field to `Missing`.
pub open spec fn field_decodes_to(
    entries: Seq<(String, JsonValue)>,
    f: (String, TargetShape),
    slot: (String, TargetValue),
) -> bool
    decreases f,
{
    &&& slot.0 == f.0
    &&& match spec_lookup(entries, f.0@) {
        None => is_optional(f.1) && slot.1 == TargetValue::Missing,
        Some(v) => decodes_to(v, f.1, slot.1),
    }
}

/// What decoding the JSON value at the shape yields. Objects decode to the
/// declared fields in declaration order, each found by name among the
/// members; a union decodes at its first decodable branch.
pub open spec fn decodes_to(j: JsonValue, s: TargetShape, v: TargetValue) -> bool
    decreases s,
{
    match s {
        TargetShape::Text => j matches JsonValue::Text(a) && v matches TargetValue::Text(b) && b
            == a,
        TargetShape::Number => j matches JsonValue::Number(n) && v matches TargetValue::Number(m)
            && m == n,
        TargetShape::Boolean => j matches JsonValue::Boolean(x) && v matches TargetValue::Boolean(
            y,
        ) && y == x,
        TargetShape::ObjectOf(fields) => {
            &&& j is Object
            &&& v matches TargetValue::ObjectOf(slots)
            &&& slots@.len() == fields@.len()
            &&& forall|i: int|
                0 <= i < fields@.len() ==> field_decodes_to(
                    j->Object_0@,
                    fields@[i],
                    #[trigger] slots@[i],
                )
        },
        TargetShape::ArrayOf(t) => {
            &&& j is Array
            &&& v matches TargetValue::ArrayOf(vals)
            &&& vals@.len() == j->Array_0@.len()
            &&& forall|i: int|
                0 <= i < vals@.len() ==> decodes_to(j->Array_0@[i], *t, #[trigger] vals@[i])
        },
        TargetShape::OptionalOf(t) => {
            if j is Null {
                v == TargetValue::Missing
            } else {
                decodes_to(j, *t, v)
            }
        },
        TargetShape::UnionOf(branches) => exists|i: int|
            #![trigger branches@[i]]
            {
                &&& 0 <= i < branches@.len()
                &&& decodes_to(j, branches@[i], v)
                &&& forall|k: int| 0 <= k < i ==> !decodable(j, #[trigger] branches@[k])
            },
    }
}

fn is_optional_shape(s: &TargetShape) -> (r: bool)
    ensures
        r == is_optional(*s),
{
    match s {
        TargetShape::OptionalOf(_) => true,
        _ => false,
    }
}

/// Decodes a JSON value into the target shape. Succeeds exactly on the
/// decodable values; every failure is a payload decode error.
#[verifier::loop_isolation(false)]
pub fn decode_value(j: &JsonValue, s: &TargetShape) -> (r: Result<TargetValue, ClientError>)
    ensures
        r is Ok <==> decodable(*j, *s),
        r matches Ok(v) ==> decodes_to(*j, *s, v),
        r matches Err(e) ==> e == ClientError::PayloadDecodeError,
    decreases s,
{
    match s {
        TargetShape::Text => {
            match j {
                JsonValue::Text(a) => Ok(TargetValue::Text(a.clone())),
                _ => Err(ClientError::PayloadDecodeError),
            }
        },
        TargetShape::Number => {
            match j {
                JsonValue::Number(n) => Ok(TargetValue::Number(n.clone())),
                _ => Err(ClientError::PayloadDecodeError),
            }
        },
        TargetShape::Boolean => {
            match j {
                JsonValue::Boolean(x) => Ok(TargetValue::Boolean(*x)),
                _ => Err(ClientError::PayloadDecodeError),
            }
        },
        TargetShape::ObjectOf(fields) => {
            match j {
                JsonValue::Object(entries) => {
                    let mut slots: Vec<(String, TargetValue)> = Vec::new();
                    let mut i: usize = 0;
                    while i < fields.len()
                        invariant
                            0 <= i <= fields@.len(),
                            slots@.len() == i,
                            *j matches JsonValue::Object(e) && e@ == entries@,
                            forall|k: int|
                                0 <= k < i ==> field_decodable(entries@, #[trigger] fields@[k]),
                            forall|k: int|
                                0 <= k < i ==> field_decodes_to(
                                    entries@,
                                    fields@[k],
                                    #[trigger] slots@[k],
                                ),
                        decreases fields@.len() - i,
                    {
                        let (name, fshape) = &fields[i];
                        proof {
                            assert(decreases_to!(*s => *fshape));
                        }
                        match lookup(entries, name.as_str()) {
                            None => {
                                if is_optional_shape(fshape) {
                                    slots.push((name.clone(), TargetValue::Missing));
                                } else {
                                    proof {
                                        assert(spec_lookup(entries@, fields@[i as int].0@)
                                            is None);
                                        assert(!field_decodable(entries@, fields@[i as int]));
                                        assert(!decodable(*j, *s));
                                    }
                                    return Err(ClientError::PayloadDecodeError);
                                }
                            },
                            Some(val) => {
                                match decode_value(val, fshape) {
                                    Ok(dv) => {
                                        slots.push((name.clone(), dv));
                                    },
                                    Err(e) => {
                                        proof {
                                            assert(spec_lookup(entries@, fields@[i as int].0@)
                                                == Some(*val));
                                            assert(!decodable(*val, fields@[i as int].1));
                                            assert(!field_decodable(entries@, fields@[i as int]));
                                            assert(!decodable(*j, *s));
                                        }
                                        return Err(ClientError::PayloadDecodeError);
                                    },
                                }
                            },
                        }
                        i += 1;
                    }
                    Ok(TargetValue::ObjectOf(slots))
                },
                _ => Err(ClientError::PayloadDecodeError),
            }
        },
        TargetShape::ArrayOf(t) => {
            match j {
                JsonValue::Array(elems) => {
                    let mut vals: Vec<TargetValue> = Vec::new();
                    let mut i: usize = 0;
                    while i < elems.len()
                        invariant
                            0 <= i <= elems@.len(),
                            vals@.len() == i,
                            *j matches JsonValue::Array(e) && e@ == elems@,
                            forall|k: int| 0 <= k < i ==> decodable(#[trigger] elems@[k], **t),
                            forall|k: int|
                                0 <= k < i ==> decodes_to(elems@[k], **t, #[trigger] vals@[k]),
                        decreases elems@.len() - i,
                    {
                        proof {
                            assert(decreases_to!(*s => **t));
                        }
                        match decode_value(&elems[i], t) {
                            Ok(dv) => {
                                vals.push(dv);
                            },
                            Err(e) => {
                                return Err(ClientError::PayloadDecodeError);
                            },
                        }
                        i += 1;
                    }
                    Ok(TargetValue::ArrayOf(vals))
                },
                _ => Err(ClientError::PayloadDecodeError),
            }
        },
        TargetShape::OptionalOf(t) => {
            match j {
                JsonValue::Null => Ok(TargetValue::Missing),
                _ => {
                    proof {
                        assert(decreases_to!(*s => **t));
                    }
                    match decode_value(j, t) {
                        Ok(dv) => Ok(dv),
                        Err(e) => Err(ClientError::PayloadDecodeError),
                    }
                },
            }
        },
        TargetShape::UnionOf(branches) => {
            let mut i: usize = 0;
            while i < branches.len()
                invariant
                    0 <= i <= branches@.len(),
                    *s matches TargetShape::UnionOf(b) && b@ == branches@,
                    forall|k: int| 0 <= k < i ==> !decodable(*j, #[trigger] branches@[k]),
                decreases branches@.len() - i,
            {
                proof {
                    assert(decreases_to!(*s => branches@[i as int]));
                }
                match decode_value(j, &branches[i]) {
                    Ok(dv) => {
                        return Ok(dv);
                    },
                    Err(_) => {},
                }
                i += 1;
            }
            Err(ClientError::PayloadDecodeError)
        },
    }
}

/// How a target value is rendered back as JSON: fields in declaration
/// order, `Missing` as JSON null.
pub open spec fn encodes(v: TargetValue, j: JsonValue) -> bool
    decreases v,
{
    match v {
        TargetValue::Text(a) => j matches JsonValue::Text(b) && b == a,
        TargetValue::Number(n) => j matches JsonValue::Number(m) && m == n,
        TargetValue::Boolean(x) => j matches JsonValue::Boolean(y) && y == x,
        TargetValue::ObjectOf(slots) => {
            &&& j matches JsonValue::Object(entries)
            &&& entries@.len() == slots@.len()
            &&& forall|i: int|
                0 <= i < slots@.len() ==> (#[trigger] entries@[i]).0 == slots@[i].0 && encodes(
                    slots@[i].1,
                    entries@[i].1,
                )
        },
        TargetValue::ArrayOf(vals) => {
            &&& j matches JsonValue::Array(elems)
            &&& elems@.len() == vals@.len()
            &&& forall|i: int| 0 <= i < vals@.len() ==> encodes(vals@[i], #[trigger] elems@[i])
        },
        TargetValue::Missing => j is Null,
    }
}

/// Renders a target value as a native JSON value.
#[verifier::loop_isolation(false)]
pub fn encode_value(v: &TargetValue) -> (r: JsonValue)
    ensures
        encodes(*v, r),
    decreases v,
{
    match v {
        TargetValue::Text(a) => JsonValue::Text(a.clone()),
        TargetValue::Number(n) => JsonValue::Number(n.clone()),
        TargetValue::Boolean(x) => JsonValue::Boolean(*x),
        TargetValue::ObjectOf(slots) => {
            let mut entries: Vec<(String, JsonValue)> = Vec::new();
            let mut i: usize = 0;
            while i < slots.len()
                invariant
                    0 <= i <= slots@.len(),
                    entries@.len() == i,
                    *v matches TargetValue::ObjectOf(sl) && sl@ == slots@,
                    forall|k: int|
                        0 <= k < i ==> (#[trigger] entries@[k]).0 == slots@[k].0 && encodes(
                            slots@[k].1,
                            entries@[k].1,
                        ),
                decreases slots@.len() - i,
            {
                let (name, sv) = &slots[i];
                proof {
                    assert(decreases_to!(*v => *sv));
                }
                let jv = encode_value(sv);
                entries.push((name.clone(), jv));
                i += 1;
            }
            JsonValue::Object(entries)
        },
        TargetValue::ArrayOf(vals) => {
            let mut elems: Vec<JsonValue> = Vec::new();
            let mut i: usize = 0;
            while i < vals.len()
                invariant
                    0 <= i <= vals@.len(),
                    elems@.len() == i,
                    *v matches TargetValue::ArrayOf(vl) && vl@ == vals@,
                    forall|k: int| 0 <= k < i ==> encodes(vals@[k], #[trigger] elems@[k]),
                decreases vals@.len() - i,
            {
                proof {
                    assert(decreases_to!(*v => vals@[i as int]));
                }
                let jv = encode_value(&vals[i]);
                elems.push(jv);
                i += 1;
            }
            JsonValue::Array(elems)
        },
        TargetValue::Missing => JsonValue::Null,
    }
}

/// No union construct anywhere in the shape.
pub open spec fn union_free(s: TargetShape) -> bool
    decreases s,
{
    match s {
        TargetShape::Text => true,
        TargetShape::Number => true,
        TargetShape::Boolean => true,
        TargetShape::ObjectOf(fields) => forall|i: int|
            0 <= i < fields@.len() ==> union_free((#[trigger] fields@[i]).1),
        TargetShape::ArrayOf(t) => union_free(*t),
        TargetShape::OptionalOf(t) => union_free(*t),
        TargetShape::UnionOf(_) => false,
    }
}

/// A well-formed shape: the field names of every object level are pairwise
/// distinct.
pub open spec fn shape_wf(s: TargetShape) -> bool
    decreases s,
{
    match s {
        TargetShape::Text => true,
        TargetShape::Number => true,
        TargetShape::Boolean => true,
        TargetShape::ObjectOf(fields) => {
            &&& forall|a: int, b: int|
                0 <= a < b < fields@.len() ==> (#[trigger] fields@[a]).0@ != (
                #[trigger] fields@[b]).0@
            &&& forall|i: int| 0 <= i < fields@.len() ==> shape_wf((#[trigger] fields@[i]).1)
        },
        TargetShape::ArrayOf(t) => shape_wf(*t),
        TargetShape::OptionalOf(t) => shape_wf(*t),
        TargetShape::UnionOf(branches) => forall|i: int|
            0 <= i < branches@.len() ==> shape_wf(#[trigger] branches@[i]),
    }
}

/// A valid instance of a shape: the same constructors, object slots named
/// and ordered as declared, `Missing` only at optional positions.
pub open spec fn value_conforms(v: TargetValue, s: TargetShape) -> bool
    decreases s,
{
    match s {
        TargetShape::Text => v is Text,
        TargetShape::Number => v is Number,
        TargetShape::Boolean => v is Boolean,
        TargetShape::ObjectOf(fields) => {
            &&& v matches TargetValue::ObjectOf(slots)
            &&& slots@.len() == fields@.len()
            &&& forall|i: int|
                0 <= i < fields@.len() ==> ((#[trigger] slots@[i]).0 == fields@[i].0
                    && value_conforms(slots@[i].1, fields@[i].1))
        },
        TargetShape::ArrayOf(t) => {
            &&& v matches TargetValue::ArrayOf(vals)
            &&& forall|i: int| 0 <= i < vals@.len() ==> value_conforms(#[trigger] vals@[i], *t)
        },
        TargetShape::OptionalOf(t) => v == TargetValue::Missing || value_conforms(v, *t),
        TargetShape::UnionOf(branches) => exists|i: int|
            0 <= i < branches@.len() && value_conforms(v, #[trigger] branches@[i]),
    }
}

/// The round trip law: a valid instance of a union-free, well-formed shape,
/// rendered as a native JSON value, decodes back to exactly that instance.
/// Together with `decode_value`'s contract, decoding the rendering of a
/// valid instance as a native object or array yields an equal value.
pub proof fn lemma_round_trip(v: TargetValue, s: TargetShape, j: JsonValue)
    requires
        shape_wf(s),
        union_free(s),
        value_conforms(v, s),
        encodes(v, j),
    ensures
        decodes_to(j, s, v),
    decreases s,
{
    match s {
        TargetShape::Text => {},
        TargetShape::Number => {},
        TargetShape::Boolean => {},
        TargetShape::ObjectOf(fields) => {
            let slots = v->ObjectOf_0;
            let entries = j->Object_0;
            assert forall|a: int, b: int|
                0 <= a < b < entries@.len() implies (#[trigger] entries@[a]).0@ != (
            #[trigger] entries@[b]).0@ by {
                assert(entries@[a].0 == slots@[a].0 && slots@[a].0 == fields@[a].0);
                assert(entries@[b].0 == slots@[b].0 && slots@[b].0 == fields@[b].0);
            }
            assert forall|i: int|
                0 <= i < fields@.len() implies field_decodes_to(
                entries@,
                fields@[i],
                #[trigger] slots@[i],
            ) by {
                crate::json::lemma_lookup_distinct(entries@, i);
                assert(entries@[i].0@ == fields@[i].0@);
                assert(spec_lookup(entries@, fields@[i].0@) == Some(entries@[i].1));
                lemma_round_trip(slots@[i].1, fields@[i].1, entries@[i].1);
            }
        },
        TargetShape::ArrayOf(t) => {
            let vals = v->ArrayOf_0;
            let elems = j->Array_0;
            assert forall|i: int|
                0 <= i < vals@.len() implies decodes_to(elems@[i], *t, #[trigger] vals@[i]) by {
                lemma_round_trip(vals@[i], *t, elems@[i]);
            }
        },
        TargetShape::OptionalOf(t) => {
            if v == TargetValue::Missing {
            } else {
                assert(!(j is Null));
                lemma_round_trip(v, *t, j);
            }
        },
        TargetShape::UnionOf(_) => {},
    }
}

} // verus!
