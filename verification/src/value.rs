use vstd::prelude::*;
use crate::schema::{TypeSchema, ShapeDescriptor, schema_wf, spec_shape_fields};

verus! {

/// A concrete field value, classified by capability: string-like, plain
/// (numeric or boolean), container, nested record, or opaque.
pub enum FieldValue {
    /// A string-like value, quoted in output.
    Str(String),
    /// A signed integer, shown in plain decimal form, unquoted.
    Int(i64),
    /// A boolean, shown as `true` or `false`, unquoted.
    Bool(bool),
    /// An optional container around another value.
    Opt(Option<Box<FieldValue>>),
    /// An ordered sequence of values.
    List(Vec<FieldValue>),
    /// A nested structured value, carrying the schema it is rendered against.
    Record(Box<TypeSchema>, Box<Value>),
    /// A value with no string-like, plain, or container capability; carries
    /// the ordinary debug text its host supplies for the unmasked case.
    Opaque(String),
}

/// A value of a record-like or union-like type: the index of its active
/// variant (zero for struct-like types) and its field values in declared
/// order.
pub struct Value {
    /// Index of the active variant within the schema's variant list; zero
    /// for a struct-like schema.
    pub variant: usize,
    /// The field values of the active shape, in declared order. A skipped
    /// field's slot is never read; any stand-in value may sit there.
    pub fields: Vec<FieldValue>,
}

/// A field value the formatter can render: every nested record carries a
/// well-formed schema that its value matches. Skipped slots are exempt.
pub open spec fn field_value_ok(v: FieldValue) -> bool
    decreases v, 1int,
{
    match v {
        FieldValue::Str(_) => true,
        FieldValue::Int(_) => true,
        FieldValue::Bool(_) => true,
        FieldValue::Opaque(_) => true,
        FieldValue::Opt(inner) => match inner {
            Option::Some(b) => field_value_ok(*b),
            Option::None => true,
        },
        FieldValue::List(items) => forall|i: int|
            0 <= i < items@.len() ==> field_value_ok(#[trigger] items@[i]),
        FieldValue::Record(schema, value) => schema_wf(*schema) && value_matches(*schema, *value),
    }
}

/// Whether a field-value list fits a shape: one value per descriptor, and
/// every surviving (non-skipped) value renderable. Skipped slots may hold
/// anything; the formatter never reads them.
pub open spec fn shape_matches(shape: ShapeDescriptor, vals: Seq<FieldValue>) -> bool
    decreases vals, 1int,
{
    let fields = spec_shape_fields(shape);
    vals.len() == fields.len() && forall|i: int|
        0 <= i < fields.len() && !(#[trigger] fields[i]).skip ==> field_value_ok(vals[i])
}

/// Whether a value fits a schema: a struct-like schema takes variant zero
/// and its single shape; a union-like schema takes any declared variant,
/// with the fields fitting that variant's shape.
pub open spec fn value_matches(schema: TypeSchema, v: Value) -> bool
    decreases v, 0int,
{
    match schema {
        TypeSchema::Struct { name, shape } => v.variant == 0 && shape_matches(shape, v.fields@),
        TypeSchema::Enum { variants } => v.variant < variants@.len() && shape_matches(
            variants@[v.variant as int].shape,
            v.fields@,
        ),
    }
}

} // verus!
