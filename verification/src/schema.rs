use vstd::prelude::*;

use crate::json::JsonValue;
use crate::shape::TargetShape;

verus! {

/// The simple JSON types a schema node may declare.
#[derive(Debug, PartialEq, Eq, Clone, Copy)]
pub enum InstanceType {
    Null,
    Boolean,
    Object,
    Array,
    Number,
    Text,
    Integer,
}

/// The `type` of a schema node: one declared type, or a list of
/// alternatives.
#[derive(Debug, PartialEq, Eq)]
pub enum TypeSpec {
    Single(InstanceType),
    Many(Vec<InstanceType>),
}

/// One node of a schema document.
#[derive(Debug, PartialEq, Eq)]
pub struct SchemaNode {
    pub instance_type: Option<TypeSpec>,
    pub object: Option<ObjectValidation>,
    pub array: Option<ArrayValidation>,
    pub subschemas: Option<SubschemaValidation>,
}

/// The object part of a schema node: its property map, its `required`
/// list, and its `additionalProperties` flag (held as the boolean schema
/// it is set to, when it is set).
#[derive(Debug, PartialEq, Eq)]
pub struct ObjectValidation {
    pub properties: Vec<(String, SchemaNode)>,
    pub required: Vec<String>,
    pub additional_properties: Option<bool>,
}

/// The `items` of an array schema: one schema for every element, or one
/// schema per position.
#[derive(Debug, PartialEq, Eq)]
pub enum Items {
    Single(Box<SchemaNode>),
    Many(Vec<SchemaNode>),
}

#[derive(Debug, PartialEq, Eq)]
pub struct ArrayValidation {
    pub items: Option<Items>,
}

/// Combinator branches of a schema node.
#[derive(Debug, PartialEq, Eq)]
pub struct SubschemaValidation {
    pub all_of: Option<Vec<SchemaNode>>,
    pub any_of: Option<Vec<SchemaNode>>,
    pub one_of: Option<Vec<SchemaNode>>,
    pub not: Option<Box<SchemaNode>>,
}

/// Whether a declared type covers the object type: either the single
/// object type, or a type list with the object type among its
/// alternatives (as a nullable object, `["object","null"]`, has).
pub open spec fn declares_object(it: Option<TypeSpec>) -> bool {
    match it {
        Some(TypeSpec::Single(x)) => x == InstanceType::Object,
        Some(TypeSpec::Many(xs)) => exists|i: int|
            0 <= i < xs@.len() && #[trigger] xs@[i] == InstanceType::Object,
        None => false,
    }
}

/// Whether the node declares the object type, alone or among
/// alternatives. Every such node must come out of the strict-mode rewrite
/// closed and fully required.
pub open spec fn is_object_typed(s: SchemaNode) -> bool {
    declares_object(s.instance_type)
}

/// The names of a property map, in order.
pub open spec fn property_names(props: Seq<(String, SchemaNode)>) -> Seq<Seq<char>> {
    props.map_values(|p: (String, SchemaNode)| p.0@)
}

/// The characters of a list of names, in order.
pub open spec fn names_of(names: Seq<String>) -> Seq<Seq<char>> {
    names.map_values(|n: String| n@)
}

/// Strict-mode well-formedness: every node that declares the object type,
/// at every depth — below properties, below array items, and below every
/// combinator branch — carries an object validation whose
/// `additionalProperties` is the boolean schema `false` and whose
/// `required` list is exactly the names of its declared properties.
pub open spec fn strict(s: SchemaNode) -> bool
    decreases s,
{
    &&& (match s.object {
        Some(ov) => {
            &&& (is_object_typed(s) ==> {
                &&& ov.additional_properties == Some(false)
                &&& names_of(ov.required@) == property_names(ov.properties@)
            })
            &&& forall|i: int|
                0 <= i < ov.properties@.len() ==> strict(#[trigger] ov.properties@[i].1)
        },
        None => !is_object_typed(s),
    })
    &&& (match s.array {
        Some(av) => match av.items {
            Some(Items::Single(b)) => strict(*b),
            Some(Items::Many(v)) => forall|i: int| 0 <= i < v@.len() ==> strict(#[trigger] v@[i]),
            None => true,
        },
        None => true,
    })
    &&& (match s.subschemas {
        Some(ss) => {
            &&& (match ss.all_of {
                Some(v) => forall|i: int| 0 <= i < v@.len() ==> strict(#[trigger] v@[i]),
                None => true,
            })
            &&& (match ss.any_of {
                Some(v) => forall|i: int| 0 <= i < v@.len() ==> strict(#[trigger] v@[i]),
                None => true,
            })
            &&& (match ss.one_of {
                Some(v) => forall|i: int| 0 <= i < v@.len() ==> strict(#[trigger] v@[i]),
                None => true,
            })
            &&& (match ss.not {
                Some(b) => strict(*b),
                None => true,
            })
        },
        None => true,
    })
}

/// One property pair of the output against the matching pair of the input:
/// the name is kept, the child schema is strictified.
pub open spec fn prop_strictified(a: (String, SchemaNode), b: (String, SchemaNode)) -> bool
    decreases a,
{
    b.0@ == a.0@ && strictified(a.1, b.1)
}

/// A sequence of branch schemas of the output against the input, pairwise.
pub open spec fn nodes_strictified(a: Seq<SchemaNode>, b: Seq<SchemaNode>) -> bool
    decreases a,
{
    &&& a.len() == b.len()
    &&& forall|i: int| 0 <= i < a.len() ==> #[trigger] strictified(a[i], b[i])
}

/// How the strict-mode rewrite relates its output `r` to its input `s`:
/// the declared type is kept everywhere; a node that declares the object
/// type gets an object validation (an empty one if it had none), its
/// `additionalProperties` set to the boolean schema `false`, and its
/// `required` list replaced by exactly its property names; every other
/// part — property names and their order, array items, combinator
/// branches — is kept in place with the rewrite applied below it.
pub open spec fn strictified(s: SchemaNode, r: SchemaNode) -> bool
    decreases s,
{
    &&& r.instance_type == s.instance_type
    &&& (match (s.object, r.object) {
        (Some(so), Some(ro)) => {
            &&& so.properties@.len() == ro.properties@.len()
            &&& forall|i: int|
                0 <= i < so.properties@.len() ==> #[trigger] prop_strictified(
                    so.properties@[i],
                    ro.properties@[i],
                )
            &&& if is_object_typed(s) {
                &&& ro.additional_properties == Some(false)
                &&& names_of(ro.required@) == property_names(ro.properties@)
            } else {
                &&& ro.additional_properties == so.additional_properties
                &&& ro.required@ == so.required@
            }
        },
        (None, Some(ro)) => {
            &&& is_object_typed(s)
            &&& ro.properties@.len() == 0
            &&& ro.required@.len() == 0
            &&& ro.additional_properties == Some(false)
        },
        (None, None) => !is_object_typed(s),
        (Some(_), None) => false,
    })
    &&& (match (s.array, r.array) {
        (Some(sa), Some(ra)) => match (sa.items, ra.items) {
            (Some(Items::Single(sb)), Some(Items::Single(rb))) => strictified(*sb, *rb),
            (Some(Items::Many(sv)), Some(Items::Many(rv))) => nodes_strictified(sv@, rv@),
            (None, None) => true,
            _ => false,
        },
        (None, None) => true,
        _ => false,
    })
    &&& (match (s.subschemas, r.subschemas) {
        (Some(ss), Some(rs)) => {
            &&& (match (ss.all_of, rs.all_of) {
                (Some(sv), Some(rv)) => nodes_strictified(sv@, rv@),
                (None, None) => true,
                _ => false,
            })
            &&& (match (ss.any_of, rs.any_of) {
                (Some(sv), Some(rv)) => nodes_strictified(sv@, rv@),
                (None, None) => true,
                _ => false,
            })
            &&& (match (ss.one_of, rs.one_of) {
                (Some(sv), Some(rv)) => nodes_strictified(sv@, rv@),
                (None, None) => true,
                _ => false,
            })
            &&& (match (ss.not, rs.not) {
                (Some(sb), Some(rb)) => strictified(*sb, *rb),
                (None, None) => true,
                _ => false,
            })
        },
        (None, None) => true,
        _ => false,
    })
}

#[verifier::loop_isolation(false)]
fn is_object_type(it: &Option<TypeSpec>) -> (r: bool)
    ensures
        r == declares_object(*it),
{
    match it {
        Some(TypeSpec::Single(InstanceType::Object)) => true,
        Some(TypeSpec::Many(xs)) => {
            let mut i: usize = 0;
            while i < xs.len()
                invariant
                    0 <= i <= xs@.len(),
                    forall|k: int| 0 <= k < i ==> #[trigger] xs@[k] != InstanceType::Object,
                decreases xs@.len() - i,
            {
                match xs[i] {
                    InstanceType::Object => {
                        return true;
                    },
                    _ => {},
                }
                i += 1;
            }
            false
        },
        _ => false,
    }
}

fn names_vec(props: &Vec<(String, SchemaNode)>) -> (r: Vec<String>)
    ensures
        names_of(r@) == property_names(props@),
{
    let mut r: Vec<String> = Vec::new();
    let mut i: usize = 0;
    while i < props.len()
        invariant
            0 <= i <= props@.len(),
            r@.len() == i,
            forall|j: int| 0 <= j < i ==> #[trigger] r@[j]@ == props@[j].0@,
        decreases props@.len() - i,
    {
        r.push(props[i].0.clone());
        i += 1;
    }
    proof {
        assert(names_of(r@) =~= property_names(props@));
    }
    r
}

#[verifier::loop_isolation(false)]
#[verifier::rlimit(50)]
fn strictify_props(props: Vec<(String, SchemaNode)>) -> (r: Vec<(String, SchemaNode)>)
    ensures
        r@.len() == props@.len(),
        forall|i: int|
            0 <= i < props@.len() ==> prop_strictified(props@[i], #[trigger] r@[i]),
        forall|i: int| 0 <= i < r@.len() ==> strict(#[trigger] r@[i].1),
    decreases props@,
{
    let ghost orig = props@;
    let mut work = props;
    let mut out: Vec<(String, SchemaNode)> = Vec::new();
    while work.len() > 0
        invariant
            out@.len() + work@.len() == orig.len(),
            work@ == orig.skip(out@.len() as int),
            forall|i: int|
                0 <= i < out@.len() ==> #[trigger] prop_strictified(orig[i], out@[i]),
            forall|i: int| 0 <= i < out@.len() ==> strict(#[trigger] out@[i].1),
        decreases work@.len(),
    {
        proof {
            assert(work@[0] == orig[out@.len() as int]);
        }
        let pair = work.remove(0);
        let (name, child) = pair;
        proof {
            let k = out@.len() as int;
            assert(child == orig[k].1);
            assert(decreases_to!(orig => orig[k]));
            assert(decreases_to!(orig[k] => orig[k].1));
            assert(decreases_to!(orig => child));
        }
        let new_child = set_no_additional_properties(child);
        out.push((name, new_child));
        proof {
            assert(work@ =~= orig.skip(out@.len() as int));
        }
    }
    out
}

#[verifier::loop_isolation(false)]
fn strictify_nodes(nodes: Vec<SchemaNode>) -> (r: Vec<SchemaNode>)
    ensures
        nodes_strictified(nodes@, r@),
        forall|i: int| 0 <= i < r@.len() ==> strict(#[trigger] r@[i]),
    decreases nodes@,
{
    let ghost orig = nodes@;
    let mut work = nodes;
    let mut out: Vec<SchemaNode> = Vec::new();
    while work.len() > 0
        invariant
            out@.len() + work@.len() == orig.len(),
            work@ == orig.skip(out@.len() as int),
            forall|i: int| 0 <= i < out@.len() ==> strictified(orig[i], #[trigger] out@[i]),
            forall|i: int| 0 <= i < out@.len() ==> strict(#[trigger] out@[i]),
        decreases work@.len(),
    {
        proof {
            assert(work@[0] == orig[out@.len() as int]);
        }
        let node = work.remove(0);
        proof {
            let k = out@.len() as int;
            assert(node == orig[k]);
            assert(decreases_to!(orig => orig[k]));
        }
        let new_node = set_no_additional_properties(node);
        out.push(new_node);
        proof {
            assert(work@ =~= orig.skip(out@.len() as int));
        }
    }
    proof {
        assert forall|i: int| 0 <= i < nodes@.len() implies #[trigger] strictified(
            nodes@[i],
            out@[i],
        ) by {
            assert(strictified(orig[i], out@[i]));
        }
        assert(nodes_strictified(nodes@, out@));
    }
    out
}

/// The strict-mode rewrite: walks the whole schema tree and, at every node
/// that declares the object type, forbids unknown properties and requires
/// exactly the declared ones, recursing below properties, array items, and
/// every combinator branch.
pub fn set_no_additional_properties(s: SchemaNode) -> (r: SchemaNode)
    ensures
        strictified(s, r),
        strict(r),
    decreases s,
{
    let ghost s0 = s;
    let is_obj = is_object_type(&s.instance_type);
    let SchemaNode { instance_type, object, array, subschemas } = s;

    let new_object: Option<ObjectValidation> = match object {
        Some(ov) => {
            let ghost g_ov = ov;
            let ObjectValidation { properties, required, additional_properties } = ov;
            proof {
                assert(s0.object == Some(g_ov));
                assert(decreases_to!(s0 => s0.object));
                assert(decreases_to!(s0.object => g_ov));
                assert(decreases_to!(g_ov => g_ov.properties));
                assert(decreases_to!(g_ov.properties => g_ov.properties@));
                assert(decreases_to!(s0 => properties@));
            }
            let new_props = strictify_props(properties);
            if is_obj {
                let names = names_vec(&new_props);
                Some(
                    ObjectValidation {
                        properties: new_props,
                        required: names,
                        additional_properties: Some(false),
                    },
                )
            } else {
                Some(
                    ObjectValidation { properties: new_props, required, additional_properties },
                )
            }
        },
        None => {
            if is_obj {
                let empty_props: Vec<(String, SchemaNode)> = Vec::new();
                let empty_req: Vec<String> = Vec::new();
                proof {
                    assert(names_of(empty_req@) =~= property_names(empty_props@));
                }
                Some(
                    ObjectValidation {
                        properties: empty_props,
                        required: empty_req,
                        additional_properties: Some(false),
                    },
                )
            } else {
                None
            }
        },
    };

    let new_array: Option<ArrayValidation> = match array {
        Some(av) => {
            let ghost g_av = av;
            proof {
                assert(s0.array == Some(g_av));
                assert(decreases_to!(s0 => s0.array));
                assert(decreases_to!(s0.array => g_av));
                assert(decreases_to!(g_av => g_av.items));
            }
            match av.items {
                Some(Items::Single(b)) => {
                    let ghost g_b = b;
                    let node = *b;
                    proof {
                        assert(g_av.items == Some(Items::Single(g_b)));
                        assert(decreases_to!(g_av.items => g_av.items->0));
                        assert(decreases_to!(g_av.items->0 => node));
                        assert(decreases_to!(s0 => node));
                    }
                    let new_node = set_no_additional_properties(node);
                    Some(ArrayValidation { items: Some(Items::Single(Box::new(new_node))) })
                },
                Some(Items::Many(v)) => {
                    let ghost g_v = v;
                    proof {
                        assert(g_av.items == Some(Items::Many(g_v)));
                        assert(decreases_to!(g_av.items => g_av.items->0));
                        assert(decreases_to!(g_av.items->0 => g_v));
                        assert(decreases_to!(g_v => g_v@));
                        assert(decreases_to!(s0 => v@));
                    }
                    Some(ArrayValidation { items: Some(Items::Many(strictify_nodes(v))) })
                },
                None => Some(ArrayValidation { items: None }),
            }
        },
        None => None,
    };

    let new_subschemas: Option<SubschemaValidation> = match subschemas {
        Some(ss) => {
            let ghost g_ss = ss;
            let SubschemaValidation { all_of, any_of, one_of, not } = ss;
            proof {
                assert(s0.subschemas == Some(g_ss));
                assert(decreases_to!(s0 => s0.subschemas));
                assert(decreases_to!(s0.subschemas => g_ss));
            }
            let new_all_of = match all_of {
                Some(v) => {
                    let ghost g_v = v;
                    proof {
                        assert(g_ss.all_of == Some(g_v));
                        assert(decreases_to!(g_ss => g_ss.all_of));
                        assert(decreases_to!(g_ss.all_of => g_v));
                        assert(decreases_to!(g_v => g_v@));
                        assert(decreases_to!(s0 => v@));
                    }
                    Some(strictify_nodes(v))
                },
                None => None,
            };
            let new_any_of = match any_of {
                Some(v) => {
                    let ghost g_v = v;
                    proof {
                        assert(g_ss.any_of == Some(g_v));
                        assert(decreases_to!(g_ss => g_ss.any_of));
                        assert(decreases_to!(g_ss.any_of => g_v));
                        assert(decreases_to!(g_v => g_v@));
                        assert(decreases_to!(s0 => v@));
                    }
                    Some(strictify_nodes(v))
                },
                None => None,
            };
            let new_one_of = match one_of {
                Some(v) => {
                    let ghost g_v = v;
                    proof {
                        assert(g_ss.one_of == Some(g_v));
                        assert(decreases_to!(g_ss => g_ss.one_of));
                        assert(decreases_to!(g_ss.one_of => g_v));
                        assert(decreases_to!(g_v => g_v@));
                        assert(decreases_to!(s0 => v@));
                    }
                    Some(strictify_nodes(v))
                },
                None => None,
            };
            let new_not = match not {
                Some(b) => {
                    let ghost g_b = b;
                    let node = *b;
                    proof {
                        assert(g_ss.not == Some(g_b));
                        assert(decreases_to!(g_ss => g_ss.not));
                        assert(decreases_to!(g_ss.not => node));
                        assert(decreases_to!(s0 => node));
                    }
                    Some(Box::new(set_no_additional_properties(node)))
                },
                None => None,
            };
            Some(
                SubschemaValidation {
                    all_of: new_all_of,
                    any_of: new_any_of,
                    one_of: new_one_of,
                    not: new_not,
                },
            )
        },
        None => None,
    };

    SchemaNode {
        instance_type,
        object: new_object,
        array: new_array,
        subschemas: new_subschemas,
    }
}


/// A schema node that declares one simple type and nothing else.
pub open spec fn leaf_node(it: InstanceType) -> SchemaNode {
    SchemaNode {
        instance_type: Some(TypeSpec::Single(it)),
        object: None,
        array: None,
        subschemas: None,
    }
}

/// How the base schema derived from a target shape looks, before the
/// strict-mode rewrite: primitives become single-type nodes, objects carry
/// their fields as properties (with an empty `required` list and no
/// `additionalProperties` yet — the rewrite owns both), arrays carry one
/// item schema, an optional shape becomes the choice of its inner schema
/// or null, and a union becomes the choice of its branches.
pub open spec fn base_rep(s: TargetShape, r: SchemaNode) -> bool
    decreases s,
{
    match s {
        TargetShape::Text => r == leaf_node(InstanceType::Text),
        TargetShape::Number => r == leaf_node(InstanceType::Number),
        TargetShape::Boolean => r == leaf_node(InstanceType::Boolean),
        TargetShape::ObjectOf(fields) => {
            &&& r.instance_type == Some(TypeSpec::Single(InstanceType::Object))
            &&& r.array is None
            &&& r.subschemas is None
            &&& r.object matches Some(ov) && {
                &&& ov.additional_properties is None
                &&& ov.required@.len() == 0
                &&& ov.properties@.len() == fields@.len()
                &&& forall|i: int|
                    0 <= i < fields@.len() ==> ((#[trigger] ov.properties@[i]).0 == fields@[i].0
                        && base_rep(fields@[i].1, ov.properties@[i].1))
            }
        },
        TargetShape::ArrayOf(t) => {
            &&& r.instance_type == Some(TypeSpec::Single(InstanceType::Array))
            &&& r.object is None
            &&& r.subschemas is None
            &&& r.array matches Some(av) && (av.items matches Some(Items::Single(b)) && base_rep(
                *t,
                *b,
            ))
        },
        TargetShape::OptionalOf(t) => {
            &&& r.instance_type is None
            &&& r.object is None
            &&& r.array is None
            &&& r.subschemas matches Some(ss) && {
                &&& ss.all_of is None
                &&& ss.one_of is None
                &&& ss.not is None
                &&& ss.any_of matches Some(v) && v@.len() == 2 && base_rep(*t, v@[0]) && v@[1]
                    == leaf_node(InstanceType::Null)
            }
        },
        TargetShape::UnionOf(branches) => {
            &&& r.instance_type is None
            &&& r.object is None
            &&& r.array is None
            &&& r.subschemas matches Some(ss) && {
                &&& ss.all_of is None
                &&& ss.one_of is None
                &&& ss.not is None
                &&& ss.any_of matches Some(v) && v@.len() == branches@.len() && forall|i: int|
                    0 <= i < branches@.len() ==> base_rep(branches@[i], #[trigger] v@[i])
            }
        },
    }
}

fn leaf(it: InstanceType) -> (r: SchemaNode)
    ensures
        r == leaf_node(it),
{
    SchemaNode {
        instance_type: Some(TypeSpec::Single(it)),
        object: None,
        array: None,
        subschemas: None,
    }
}

/// Derives the base schema of a target shape, before the strict-mode
/// rewrite.
#[verifier::loop_isolation(false)]
pub fn base_schema(shape: &TargetShape) -> (r: SchemaNode)
    ensures
        base_rep(*shape, r),
    decreases shape,
{
    match shape {
        TargetShape::Text => leaf(InstanceType::Text),
        TargetShape::Number => leaf(InstanceType::Number),
        TargetShape::Boolean => leaf(InstanceType::Boolean),
        TargetShape::ObjectOf(fields) => {
            let mut props: Vec<(String, SchemaNode)> = Vec::new();
            let mut i: usize = 0;
            while i < fields.len()
                invariant
                    0 <= i <= fields@.len(),
                    props@.len() == i,
                    forall|k: int|
                        0 <= k < i ==> ((#[trigger] props@[k]).0 == fields@[k].0 && base_rep(
                            fields@[k].1,
                            props@[k].1,
                        )),
                decreases fields@.len() - i,
            {
                let (name, fshape) = &fields[i];
                proof {
                    assert(decreases_to!(*shape => *fshape));
                }
                let child = base_schema(fshape);
                props.push((name.clone(), child));
                i += 1;
            }
            SchemaNode {
                instance_type: Some(TypeSpec::Single(InstanceType::Object)),
                object: Some(
                    ObjectValidation {
                        properties: props,
                        required: Vec::new(),
                        additional_properties: None,
                    },
                ),
                array: None,
                subschemas: None,
            }
        },
        TargetShape::ArrayOf(t) => {
            proof {
                assert(decreases_to!(*shape => **t));
            }
            let item = base_schema(t);
            SchemaNode {
                instance_type: Some(TypeSpec::Single(InstanceType::Array)),
                object: None,
                array: Some(ArrayValidation { items: Some(Items::Single(Box::new(item))) }),
                subschemas: None,
            }
        },
        TargetShape::OptionalOf(t) => {
            proof {
                assert(decreases_to!(*shape => **t));
            }
            let inner = base_schema(t);
            let mut alts: Vec<SchemaNode> = Vec::new();
            alts.push(inner);
            alts.push(leaf(InstanceType::Null));
            SchemaNode {
                instance_type: None,
                object: None,
                array: None,
                subschemas: Some(
                    SubschemaValidation {
                        all_of: None,
                        any_of: Some(alts),
                        one_of: None,
                        not: None,
                    },
                ),
            }
        },
        TargetShape::UnionOf(branches) => {
            let mut alts: Vec<SchemaNode> = Vec::new();
            let mut i: usize = 0;
            while i < branches.len()
                invariant
                    0 <= i <= branches@.len(),
                    alts@.len() == i,
                    forall|k: int|
                        0 <= k < i ==> base_rep(branches@[k], #[trigger] alts@[k]),
                decreases branches@.len() - i,
            {
                proof {
                    assert(decreases_to!(*shape => branches@[i as int]));
                }
                let child = base_schema(&branches[i]);
                alts.push(child);
                i += 1;
            }
            SchemaNode {
                instance_type: None,
                object: None,
                array: None,
                subschemas: Some(
                    SubschemaValidation {
                        all_of: None,
                        any_of: Some(alts),
                        one_of: None,
                        not: None,
                    },
                ),
            }
        },
    }
}

/// Compiles a target shape into its strict schema document: the base
/// schema of the shape with the strict-mode rewrite applied, so unknown
/// properties are forbidden and every declared property is required at
/// every object level, below array items and every combinator branch
/// included.
pub fn generate_schema(shape: &TargetShape) -> (r: SchemaNode)
    ensures
        strict(r),
        exists|b: SchemaNode| #[trigger] base_rep(*shape, b) && strictified(b, r),
{
    let base = base_schema(shape);
    let ghost b0 = base;
    let out = set_no_additional_properties(base);
    proof {
        assert(base_rep(*shape, b0) && strictified(b0, out));
    }
    out
}


/// The JSON Schema name of a simple type.
pub open spec fn instance_name(it: InstanceType) -> Seq<char> {
    match it {
        InstanceType::Null => "null"@,
        InstanceType::Boolean => "boolean"@,
        InstanceType::Object => "object"@,
        InstanceType::Array => "array"@,
        InstanceType::Number => "number"@,
        InstanceType::Text => "string"@,
        InstanceType::Integer => "integer"@,
    }
}

/// How a `type` member renders: one type name, or an array of them.
pub open spec fn type_spec_json(ts: TypeSpec, v: JsonValue) -> bool {
    match ts {
        TypeSpec::Single(it) => v matches JsonValue::Text(t) && t@ == instance_name(it),
        TypeSpec::Many(its) => v matches JsonValue::Array(es) && es@.len() == its@.len()
            && forall|i: int|
            0 <= i < its@.len() ==> ((#[trigger] es@[i]) matches JsonValue::Text(t) && t@
                == instance_name(its@[i])),
    }
}

/// How a `required` list renders: the names, in order.
pub open spec fn required_json(req: Seq<String>, v: JsonValue) -> bool {
    &&& v matches JsonValue::Array(es)
    &&& es@.len() == req.len()
    &&& forall|i: int|
        0 <= i < req.len() ==> ((#[trigger] es@[i]) matches JsonValue::Text(t) && t == req[i])
}

/// How a property map renders: one member per property, in order, each
/// holding its schema's rendering.
pub open spec fn props_json(props: Seq<(String, SchemaNode)>, v: JsonValue) -> bool
    decreases props,
{
    &&& v matches JsonValue::Object(pe)
    &&& pe@.len() == props.len()
    &&& forall|i: int|
        0 <= i < props.len() ==> ((#[trigger] pe@[i]).0 == props[i].0 && schema_json_rep(
            props[i].1,
            pe@[i].1,
        ))
}

/// How a list of branch schemas renders: their renderings, in order.
pub open spec fn nodes_json(nodes: Seq<SchemaNode>, v: JsonValue) -> bool
    decreases nodes,
{
    &&& v matches JsonValue::Array(es)
    &&& es@.len() == nodes.len()
    &&& forall|i: int| 0 <= i < nodes.len() ==> schema_json_rep(nodes[i], #[trigger] es@[i])
}

/// How an `items` member renders: one schema, or one schema per position.
pub open spec fn items_json(it: Items, v: JsonValue) -> bool
    decreases it,
{
    match it {
        Items::Single(b) => schema_json_rep(*b, v),
        Items::Many(nodes) => nodes_json(nodes@, v),
    }
}

/// How a schema node renders as a JSON value: one member per present
/// part, in a fixed order — `type`; then `properties`, `required` and
/// `additionalProperties`; then `items`; then `allOf`, `anyOf`, `oneOf`
/// and `not` — and nothing else.
pub open spec fn schema_json_rep(s: SchemaNode, v: JsonValue) -> bool
    decreases s,
{
    &&& v matches JsonValue::Object(e)
    &&& {
        let b1: int = if s.instance_type is Some { 1int } else { 0int };
        let b2: int = b1 + (match s.object {
            Some(ov) => if ov.additional_properties is Some { 3int } else { 2int },
            None => 0int,
        });
        let b3: int = b2 + (match s.array {
            Some(av) => if av.items is Some { 1int } else { 0int },
            None => 0int,
        });
        let b4: int = b3 + (match s.subschemas {
            Some(ss) => if ss.all_of is Some { 1int } else { 0int },
            None => 0int,
        });
        let b5: int = b4 + (match s.subschemas {
            Some(ss) => if ss.any_of is Some { 1int } else { 0int },
            None => 0int,
        });
        let b6: int = b5 + (match s.subschemas {
            Some(ss) => if ss.one_of is Some { 1int } else { 0int },
            None => 0int,
        });
        let b7: int = b6 + (match s.subschemas {
            Some(ss) => if ss.not is Some { 1int } else { 0int },
            None => 0int,
        });
        &&& e@.len() == b7
        &&& (s.instance_type matches Some(ts) ==> (#[trigger] e@[0]).0@ == "type"@
            && type_spec_json(ts, e@[0].1))
        &&& (s.object matches Some(ov) ==> {
            &&& e@[b1].0@ == "properties"@ && props_json(ov.properties@, e@[b1].1)
            &&& e@[b1 + 1].0@ == "required"@ && required_json(ov.required@, e@[b1 + 1].1)
            &&& (ov.additional_properties matches Some(b) ==> e@[b1 + 2].0@
                == "additionalProperties"@ && e@[b1 + 2].1 == JsonValue::Boolean(b))
        })
        &&& (s.array matches Some(av) ==> (av.items matches Some(it) ==> e@[b2].0@ == "items"@
            && items_json(it, e@[b2].1)))
        &&& (s.subschemas matches Some(ss) ==> {
            &&& (ss.all_of matches Some(nodes) ==> e@[b3].0@ == "allOf"@ && nodes_json(
                nodes@,
                e@[b3].1,
            ))
            &&& (ss.any_of matches Some(nodes) ==> e@[b4].0@ == "anyOf"@ && nodes_json(
                nodes@,
                e@[b4].1,
            ))
            &&& (ss.one_of matches Some(nodes) ==> e@[b5].0@ == "oneOf"@ && nodes_json(
                nodes@,
                e@[b5].1,
            ))
            &&& (ss.not matches Some(b) ==> e@[b6].0@ == "not"@ && schema_json_rep(*b, e@[b6].1))
        })
    }
}

fn instance_name_exec(it: &InstanceType) -> (r: String)
    ensures
        r@ == instance_name(*it),
{
    match it {
        InstanceType::Null => "null".to_owned(),
        InstanceType::Boolean => "boolean".to_owned(),
        InstanceType::Object => "object".to_owned(),
        InstanceType::Array => "array".to_owned(),
        InstanceType::Number => "number".to_owned(),
        InstanceType::Text => "string".to_owned(),
        InstanceType::Integer => "integer".to_owned(),
    }
}

#[verifier::loop_isolation(false)]
fn type_spec_to_json(ts: &TypeSpec) -> (r: JsonValue)
    ensures
        type_spec_json(*ts, r),
{
    match ts {
        TypeSpec::Single(it) => JsonValue::Text(instance_name_exec(it)),
        TypeSpec::Many(its) => {
            let mut es: Vec<JsonValue> = Vec::new();
            let mut i: usize = 0;
            while i < its.len()
                invariant
                    0 <= i <= its@.len(),
                    es@.len() == i,
                    forall|k: int|
                        0 <= k < i ==> ((#[trigger] es@[k]) matches JsonValue::Text(t) && t@
                            == instance_name(its@[k])),
                decreases its@.len() - i,
            {
                es.push(JsonValue::Text(instance_name_exec(&its[i])));
                i += 1;
            }
            JsonValue::Array(es)
        },
    }
}

#[verifier::loop_isolation(false)]
fn required_to_json(req: &Vec<String>) -> (r: JsonValue)
    ensures
        required_json(req@, r),
{
    let mut es: Vec<JsonValue> = Vec::new();
    let mut i: usize = 0;
    while i < req.len()
        invariant
            0 <= i <= req@.len(),
            es@.len() == i,
            forall|k: int|
                0 <= k < i ==> ((#[trigger] es@[k]) matches JsonValue::Text(t) && t == req@[k]),
        decreases req@.len() - i,
    {
        es.push(JsonValue::Text(req[i].clone()));
        i += 1;
    }
    JsonValue::Array(es)
}

#[verifier::loop_isolation(false)]
fn props_to_json(props: &Vec<(String, SchemaNode)>) -> (r: JsonValue)
    ensures
        props_json(props@, r),
    decreases props@,
{
    let mut pe: Vec<(String, JsonValue)> = Vec::new();
    let mut i: usize = 0;
    while i < props.len()
        invariant
            0 <= i <= props@.len(),
            pe@.len() == i,
            forall|k: int|
                0 <= k < i ==> ((#[trigger] pe@[k]).0 == props@[k].0 && schema_json_rep(
                    props@[k].1,
                    pe@[k].1,
                )),
        decreases props@.len() - i,
    {
        let (name, child) = &props[i];
        proof {
            assert(decreases_to!(props@ => props@[i as int]));
            assert(decreases_to!(props@[i as int] => *child));
        }
        let cj = schema_to_json(child);
        pe.push((name.clone(), cj));
        i += 1;
    }
    JsonValue::Object(pe)
}

#[verifier::loop_isolation(false)]
fn nodes_to_json(nodes: &Vec<SchemaNode>) -> (r: JsonValue)
    ensures
        nodes_json(nodes@, r),
    decreases nodes@,
{
    let mut es: Vec<JsonValue> = Vec::new();
    let mut i: usize = 0;
    while i < nodes.len()
        invariant
            0 <= i <= nodes@.len(),
            es@.len() == i,
            forall|k: int|
                0 <= k < i ==> schema_json_rep(nodes@[k], #[trigger] es@[k]),
        decreases nodes@.len() - i,
    {
        proof {
            assert(decreases_to!(nodes@ => nodes@[i as int]));
        }
        let cj = schema_to_json(&nodes[i]);
        es.push(cj);
        i += 1;
    }
    JsonValue::Array(es)
}

/// Renders a schema document as the JSON value that goes out on the wire.
#[verifier::rlimit(100)]
pub fn schema_to_json(s: &SchemaNode) -> (r: JsonValue)
    ensures
        schema_json_rep(*s, r),
    decreases s,
{
    let mut e: Vec<(String, JsonValue)> = Vec::new();
    match &s.instance_type {
        Some(ts) => {
            e.push(("type".to_owned(), type_spec_to_json(ts)));
        },
        None => {},
    }
    match &s.object {
        Some(ov) => {
            proof {
                assert(decreases_to!(*s => s.object));
                assert(decreases_to!(s.object => *ov));
                assert(decreases_to!(*ov => ov.properties));
                assert(decreases_to!(ov.properties => ov.properties@));
            }
            e.push(("properties".to_owned(), props_to_json(&ov.properties)));
            e.push(("required".to_owned(), required_to_json(&ov.required)));
            match ov.additional_properties {
                Some(b) => {
                    e.push(("additionalProperties".to_owned(), JsonValue::Boolean(b)));
                },
                None => {},
            }
        },
        None => {},
    }
    match &s.array {
        Some(av) => {
            match &av.items {
                Some(Items::Single(b)) => {
                    proof {
                        assert(decreases_to!(*s => s.array));
                        assert(decreases_to!(s.array => *av));
                        assert(decreases_to!(*av => av.items));
                        assert(decreases_to!(av.items => **b));
                    }
                    let cj = schema_to_json(b);
                    proof {
                        assert(av.items matches Some(it) ==> items_json(it, cj));
                    }
                    e.push(("items".to_owned(), cj));
                },
                Some(Items::Many(nodes)) => {
                    proof {
                        assert(decreases_to!(*s => s.array));
                        assert(decreases_to!(s.array => *av));
                        assert(decreases_to!(*av => av.items));
                        assert(decreases_to!(av.items => *nodes));
                        assert(decreases_to!(*nodes => nodes@));
                    }
                    let cj = nodes_to_json(nodes);
                    proof {
                        assert(av.items matches Some(it) ==> items_json(it, cj));
                    }
                    e.push(("items".to_owned(), cj));
                },
                None => {},
            }
        },
        None => {},
    }
    match &s.subschemas {
        Some(ss) => {
            proof {
                assert(decreases_to!(*s => s.subschemas));
                assert(decreases_to!(s.subschemas => *ss));
            }
            match &ss.all_of {
                Some(nodes) => {
                    proof {
                        assert(decreases_to!(*ss => ss.all_of));
                        assert(decreases_to!(ss.all_of => *nodes));
                        assert(decreases_to!(*nodes => nodes@));
                    }
                    e.push(("allOf".to_owned(), nodes_to_json(nodes)));
                },
                None => {},
            }
            match &ss.any_of {
                Some(nodes) => {
                    proof {
                        assert(decreases_to!(*ss => ss.any_of));
                        assert(decreases_to!(ss.any_of => *nodes));
                        assert(decreases_to!(*nodes => nodes@));
                    }
                    e.push(("anyOf".to_owned(), nodes_to_json(nodes)));
                },
                None => {},
            }
            match &ss.one_of {
                Some(nodes) => {
                    proof {
                        assert(decreases_to!(*ss => ss.one_of));
                        assert(decreases_to!(ss.one_of => *nodes));
                        assert(decreases_to!(*nodes => nodes@));
                    }
                    e.push(("oneOf".to_owned(), nodes_to_json(nodes)));
                },
                None => {},
            }
            match &ss.not {
                Some(b) => {
                    proof {
                        assert(decreases_to!(*ss => ss.not));
                        assert(decreases_to!(ss.not => **b));
                    }
                    e.push(("not".to_owned(), schema_to_json(b)));
                },
                None => {},
            }
        },
        None => {},
    }
    JsonValue::Object(e)
}

} // verus!

