
use deboog::schema::{FieldDescriptor, MaskKind, ShapeDescriptor, TypeSchema, VariantDescriptor};
use deboog::value::{FieldValue, Value};

fn named_field(name: &str, position: usize, skip: bool, mask: Option<MaskKind>) -> FieldDescriptor {
    FieldDescriptor { name: Some(name.to_string()), position, skip, mask }
}

fn pos_field(position: usize, skip: bool, mask: Option<MaskKind>) -> FieldDescriptor {
    FieldDescriptor { name: None, position, skip, mask }
}

fn struct_schema(name: &str, shape: ShapeDescriptor) -> TypeSchema {
    TypeSchema::Struct { name: name.to_string(), shape }
}

fn value0(fields: Vec<FieldValue>) -> Value {
    Value { variant: 0, fields }
}

fn str_value(s: &str) -> FieldValue {
    FieldValue::Str(s.to_string())
}

fn unit_variant(name: &str) -> VariantDescriptor {
    VariantDescriptor { name: name.to_string(), shape: ShapeDescriptor::Unit }
}

#[derive(Debug)]
struct Unit;

#[test]
fn equiv_eq_unit_struct() {
    let standard = Unit;
    let schema = struct_schema("Unit", ShapeDescriptor::Unit);
    let our = value0(vec![]);
    assert_eq!(format!("{:?}", standard), deboog::formatter::format(&schema, &our));
}

#[allow(dead_code)]
#[derive(Debug)]
struct Normal {
    a: i32,
    b: &'static str,
}

#[test]
fn equiv_eq_normal_struct() {
    let standard = Normal { a: 123, b: "test" };
    let schema = struct_schema(
        "Normal",
        ShapeDescriptor::Named(vec![
            named_field("a", 0, false, None),
            named_field("b", 1, false, None),
        ]),
    );
    let our = value0(vec![FieldValue::Int(123), str_value("test")]);
    assert_eq!(format!("{:?}", standard), deboog::formatter::format(&schema, &our));
}

#[derive(Debug)]
struct Tuple(i32, &'static str);

#[test]
fn equiv_eq_tuple_struct() {
    let standard = Tuple(123, "test");
    let schema = struct_schema(
        "Tuple",
        ShapeDescriptor::Tuple(vec![pos_field(0, false, None), pos_field(1, false, None)]),
    );
    let our = value0(vec![FieldValue::Int(123), str_value("test")]);
    assert_eq!(format!("{:?}", standard), deboog::formatter::format(&schema, &our));
}

#[derive(Debug)]
enum Basic {
    Variant,
}

#[test]
fn equiv_eq_enum() {
    let standard = Basic::Variant;
    let schema = TypeSchema::Enum { variants: vec![unit_variant("Variant")] };
    let our = Value { variant: 0, fields: vec![] };
    assert_eq!(format!("{:?}", standard), deboog::formatter::format(&schema, &our));
}

#[derive(Debug)]
enum Discr {
    Variant,
}

#[test]
fn equiv_eq_enum_discr() {
    let standard = Discr::Variant;
    let schema = TypeSchema::Enum { variants: vec![unit_variant("Variant")] };
    let our = Value { variant: 0, fields: vec![] };
    assert_eq!(format!("{:?}", standard), deboog::formatter::format(&schema, &our));
}

#[allow(dead_code)]
#[derive(Debug)]
enum With {
    Fields { a: i32, b: &'static str },
    Tuple(i32, &'static str),
}

fn with_schema() -> TypeSchema {
    TypeSchema::Enum {
        variants: vec![
            VariantDescriptor {
                name: "Fields".to_string(),
                shape: ShapeDescriptor::Named(vec![
                    named_field("a", 0, false, None),
                    named_field("b", 1, false, None),
                ]),
            },
            VariantDescriptor {
                name: "Tuple".to_string(),
                shape: ShapeDescriptor::Tuple(vec![
                    pos_field(0, false, None),
                    pos_field(1, false, None),
                ]),
            },
        ],
    }
}

#[test]
fn equiv_eq_enum_w_fields() {
    let standard = With::Fields { a: 123, b: "test" };
    let our = Value { variant: 0, fields: vec![FieldValue::Int(123), str_value("test")] };
    assert_eq!(format!("{:?}", standard), deboog::formatter::format(&with_schema(), &our));
}

#[test]
fn equiv_eq_enum_w_tuple() {
    let standard = With::Tuple(123, "test");
    let our = Value { variant: 1, fields: vec![FieldValue::Int(123), str_value("test")] };
    assert_eq!(format!("{:?}", standard), deboog::formatter::format(&with_schema(), &our));
}
