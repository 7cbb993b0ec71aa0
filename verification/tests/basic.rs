
use deboog::schema::{FieldDescriptor, MaskKind, ShapeDescriptor, TypeSchema};
use deboog::value::{FieldValue, Value};

fn named_field(name: &str, position: usize, skip: bool, mask: Option<MaskKind>) -> FieldDescriptor {
    FieldDescriptor { name: Some(name.to_string()), position, skip, mask }
}

fn pos_field(position: usize, skip: bool, mask: Option<MaskKind>) -> FieldDescriptor {
    FieldDescriptor { name: None, position, skip, mask }
}

fn struct_schema(name: &str, shape: ShapeDescriptor) -> TypeSchema {
    TypeSchema::Struct { name: name.to_string(), shape }
}

fn value0(fields: Vec<FieldValue>) -> Value {
    Value { variant: 0, fields }
}

fn record(schema: TypeSchema, value: Value) -> FieldValue {
    FieldValue::Record(Box::new(schema), Box::new(value))
}

fn str_value(s: &str) -> FieldValue {
    FieldValue::Str(s.to_string())
}

#[test]
fn basic_unit_struct() {
    let schema = struct_schema("Unit", ShapeDescriptor::Unit);
    assert_eq!(deboog::formatter::format(&schema, &value0(vec![])), r#"Unit"#);
}

#[test]
fn tuple_struct() {
    let schema = struct_schema(
        "Tuple",
        ShapeDescriptor::Tuple(vec![pos_field(0, false, None), pos_field(1, false, None)]),
    );
    let our = value0(vec![FieldValue::Int(123), str_value("test")]);
    assert_eq!(deboog::formatter::format(&schema, &our), r#"Tuple(123, "test")"#);
}

#[test]
fn nested_tuple_struct() {
    let inner = struct_schema("Inner", ShapeDescriptor::Tuple(vec![pos_field(0, false, None)]));
    let outer = struct_schema("Outer", ShapeDescriptor::Tuple(vec![pos_field(0, false, None)]));
    let our = value0(vec![record(inner, value0(vec![FieldValue::Int(123)]))]);
    assert_eq!(deboog::formatter::format(&outer, &our), r#"Outer(Inner(123))"#);
}

#[test]
fn normal_struct() {
    let schema = struct_schema(
        "Struct",
        ShapeDescriptor::Named(vec![
            named_field("a", 0, false, None),
            named_field("b", 1, false, None),
        ]),
    );
    let our = value0(vec![FieldValue::Int(123), str_value("test")]);
    assert_eq!(deboog::formatter::format(&schema, &our), r#"Struct { a: 123, b: "test" }"#);
}

#[test]
fn nested_normal_struct() {
    let inner = struct_schema(
        "Inner",
        ShapeDescriptor::Named(vec![
            named_field("a", 0, false, None),
            named_field("b", 1, false, None),
        ]),
    );
    let outer = struct_schema("Outer", ShapeDescriptor::Named(vec![named_field(
        "inner", 0, false, None,
    )]));
    let inner_value = value0(vec![FieldValue::Int(123), str_value("test")]);
    let our = value0(vec![record(inner, inner_value)]);
    assert_eq!(deboog::formatter::format(&outer, &our), r#"Outer { inner: Inner { a: 123, b: "test" } }"#);
}
