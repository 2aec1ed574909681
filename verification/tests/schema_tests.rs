use openai_client::schema::{
    generate_schema, schema_to_json, set_no_additional_properties, ArrayValidation, InstanceType,
    Items, ObjectValidation, SchemaNode, SubschemaValidation, TypeSpec,
};
use openai_client::shape::TargetShape;
use openai_client::text::schema_name_for;

fn leaf(it: InstanceType) -> SchemaNode {
    SchemaNode { instance_type: Some(TypeSpec::Single(it)), object: None, array: None, subschemas: None }
}

fn object_node(props: Vec<(String, SchemaNode)>) -> SchemaNode {
    SchemaNode {
        instance_type: Some(TypeSpec::Single(InstanceType::Object)),
        object: Some(ObjectValidation {
            properties: props,
            required: Vec::new(),
            additional_properties: None,
        }),
        array: None,
        subschemas: None,
    }
}

fn declares_object(s: &SchemaNode) -> bool {
    match &s.instance_type {
        Some(TypeSpec::Single(it)) => *it == InstanceType::Object,
        Some(TypeSpec::Many(xs)) => xs.contains(&InstanceType::Object),
        None => false,
    }
}

fn assert_strict(s: &SchemaNode) {
    if declares_object(s) {
        let ov = s.object.as_ref().expect("an object-typed node carries an object validation");
        assert_eq!(ov.additional_properties, Some(false));
        let names: Vec<String> = ov.properties.iter().map(|p| p.0.clone()).collect();
        assert_eq!(ov.required, names);
    }
    if let Some(ov) = &s.object {
        for (_, child) in &ov.properties {
            assert_strict(child);
        }
    }
    if let Some(av) = &s.array {
        match &av.items {
            Some(Items::Single(b)) => assert_strict(b),
            Some(Items::Many(v)) => {
                for n in v {
                    assert_strict(n);
                }
            }
            None => {}
        }
    }
    if let Some(ss) = &s.subschemas {
        for part in [&ss.all_of, &ss.any_of, &ss.one_of] {
            if let Some(v) = part {
                for n in v {
                    assert_strict(n);
                }
            }
        }
        if let Some(b) = &ss.not {
            assert_strict(b);
        }
    }
}

#[test]
fn strictified_nested_objects_are_closed_and_fully_required() {
    let inner = object_node(vec![
        ("a".to_owned(), leaf(InstanceType::Text)),
        ("b".to_owned(), leaf(InstanceType::Number)),
    ]);
    let middle = object_node(vec![("inner".to_owned(), inner)]);
    let outer = object_node(vec![
        ("middle".to_owned(), middle),
        ("flag".to_owned(), leaf(InstanceType::Boolean)),
    ]);
    let out = set_no_additional_properties(outer);
    assert_strict(&out);
    let ov = out.object.as_ref().unwrap();
    assert_eq!(ov.required, vec!["middle".to_owned(), "flag".to_owned()]);
}

#[test]
fn strictified_array_items_and_combinator_branches_are_rewritten() {
    let item = object_node(vec![("x".to_owned(), leaf(InstanceType::Text))]);
    let array = SchemaNode {
        instance_type: Some(TypeSpec::Single(InstanceType::Array)),
        object: None,
        array: Some(ArrayValidation { items: Some(Items::Single(Box::new(item))) }),
        subschemas: None,
    };
    let branch = object_node(vec![("y".to_owned(), leaf(InstanceType::Integer))]);
    let with_subs = SchemaNode {
        instance_type: None,
        object: None,
        array: None,
        subschemas: Some(SubschemaValidation {
            all_of: None,
            any_of: Some(vec![branch, array]),
            one_of: None,
            not: None,
        }),
    };
    let out = set_no_additional_properties(with_subs);
    assert_strict(&out);
    let any_of = out.subschemas.as_ref().unwrap().any_of.as_ref().unwrap();
    let first = any_of[0].object.as_ref().unwrap();
    assert_eq!(first.additional_properties, Some(false));
    assert_eq!(first.required, vec!["y".to_owned()]);
    let items = any_of[1].array.as_ref().unwrap().items.as_ref().unwrap();
    match items {
        Items::Single(b) => {
            let io = b.object.as_ref().unwrap();
            assert_eq!(io.additional_properties, Some(false));
            assert_eq!(io.required, vec!["x".to_owned()]);
        }
        Items::Many(_) => panic!("a single item schema was expected"),
    }
}

#[test]
fn object_typed_node_without_object_validation_gets_an_empty_one() {
    let bare = SchemaNode {
        instance_type: Some(TypeSpec::Single(InstanceType::Object)),
        object: None,
        array: None,
        subschemas: None,
    };
    let out = set_no_additional_properties(bare);
    let ov = out.object.as_ref().unwrap();
    assert_eq!(ov.additional_properties, Some(false));
    assert_eq!(ov.properties.len(), 0);
    assert_eq!(ov.required.len(), 0);
}

#[test]
fn generated_schema_for_nested_shape_is_strict_at_every_level() {
    let shape = TargetShape::ObjectOf(vec![
        ("name".to_owned(), TargetShape::Text),
        (
            "address".to_owned(),
            TargetShape::ObjectOf(vec![
                ("street".to_owned(), TargetShape::Text),
                ("zip".to_owned(), TargetShape::Number),
            ]),
        ),
        (
            "aliases".to_owned(),
            TargetShape::OptionalOf(Box::new(TargetShape::ArrayOf(Box::new(TargetShape::Text)))),
        ),
    ]);
    let out = generate_schema(&shape);
    assert_strict(&out);
    let ov = out.object.as_ref().unwrap();
    assert_eq!(
        ov.required,
        vec!["name".to_owned(), "address".to_owned(), "aliases".to_owned()]
    );
    let address = &ov.properties[1].1;
    let ao = address.object.as_ref().unwrap();
    assert_eq!(ao.additional_properties, Some(false));
    assert_eq!(ao.required, vec!["street".to_owned(), "zip".to_owned()]);
}

#[test]
fn rendered_schema_carries_strictness_markers_on_the_wire() {
    let shape = TargetShape::ObjectOf(vec![("name".to_owned(), TargetShape::Text)]);
    let out = generate_schema(&shape);
    let rendered = schema_to_json(&out);
    let text = openai_client::json::json_to_text(&rendered);
    let v: serde_json::Value = serde_json::from_str(&text).unwrap();
    assert_eq!(v["type"], serde_json::Value::String("object".to_owned()));
    assert_eq!(v["additionalProperties"], serde_json::Value::Bool(false));
    assert_eq!(
        v["required"],
        serde_json::Value::Array(vec![serde_json::Value::String("name".to_owned())])
    );
    assert_eq!(v["properties"]["name"]["type"], serde_json::Value::String("string".to_owned()));
}

#[test]
fn schema_name_is_sanitized_lowered_and_suffixed() {
    assert_eq!(
        schema_name_for("my_app::openai::Review"),
        "my_app_openai_review_response".to_owned()
    );
    assert_eq!(schema_name_for("A++B"), "a_b_response".to_owned());
    assert_eq!(schema_name_for(""), "_response".to_owned());
    assert_eq!(schema_name_for("Vec<String>"), "vec_string__response".to_owned());
}

#[test]
fn nullable_object_type_list_is_closed_and_fully_required() {
    let node = SchemaNode {
        instance_type: Some(TypeSpec::Many(vec![InstanceType::Object, InstanceType::Null])),
        object: Some(ObjectValidation {
            properties: vec![("a".to_owned(), leaf(InstanceType::Text))],
            required: Vec::new(),
            additional_properties: None,
        }),
        array: None,
        subschemas: None,
    };
    let out = set_no_additional_properties(node);
    let ov = out.object.as_ref().unwrap();
    assert_eq!(ov.additional_properties, Some(false));
    assert_eq!(ov.required, vec!["a".to_owned()]);
}

#[test]
fn bare_nullable_object_type_list_gets_an_empty_closed_validation() {
    let node = SchemaNode {
        instance_type: Some(TypeSpec::Many(vec![InstanceType::Null, InstanceType::Object])),
        object: None,
        array: None,
        subschemas: None,
    };
    let out = set_no_additional_properties(node);
    let ov = out.object.as_ref().unwrap();
    assert_eq!(ov.additional_properties, Some(false));
    assert_eq!(ov.properties.len(), 0);
    assert_eq!(ov.required.len(), 0);
}

#[test]
fn type_list_without_object_stays_untouched() {
    let node = SchemaNode {
        instance_type: Some(TypeSpec::Many(vec![InstanceType::Text, InstanceType::Null])),
        object: None,
        array: None,
        subschemas: None,
    };
    let out = set_no_additional_properties(node);
    assert_eq!(out.object, None);
    assert_eq!(
        out.instance_type,
        Some(TypeSpec::Many(vec![InstanceType::Text, InstanceType::Null]))
    );
}
