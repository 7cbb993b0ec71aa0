use vstd::prelude::*;
use crate::masking::MaskType;

verus! {

/// The masking directive a schema can attach to a field.
///
/// The first three select a masking transform for the field's text; `Hidden`
/// discards the value's rendering altogether in favour of the fixed
/// placeholder, unquoted even for string-like fields.
#[derive(Clone, Copy)]
pub enum MaskKind {
    /// Replaces all characters with `*`
    All,
    /// Keeps the first six and last four characters, masking the rest
    Pan,
    /// Replaces all but the last four characters with a single `*`
    PanSuffix,
    /// Replaces the whole rendering with the fixed placeholder
    Hidden,
}

/// The masking transform behind a mask kind, for the kinds that have one.
pub open spec fn spec_mask_type_of(kind: MaskKind) -> Option<MaskType> {
    match kind {
        MaskKind::All => Option::Some(MaskType::All),
        MaskKind::Pan => Option::Some(MaskType::Pan),
        MaskKind::PanSuffix => Option::Some(MaskType::PanSuffix),
        MaskKind::Hidden => Option::None,
    }
}

/// One field of a struct, tuple, or union variant.
///
/// `skip` takes precedence over `mask`: a skipped field is never read,
/// recursed into, or rendered, and its mask directive is never consulted.
pub struct FieldDescriptor {
    /// The field's name; absent for tuple (positional) fields.
    pub name: Option<String>,
    /// The field's 0-based position among its siblings.
    pub position: usize,
    /// Whether the field is omitted from output entirely.
    pub skip: bool,
    /// The masking directive, if the field's value is to be masked.
    pub mask: Option<MaskKind>,
}

/// The shape of a struct or of one union variant.
pub enum ShapeDescriptor {
    /// No fields at all.
    Unit,
    /// Positional fields, rendered inside parentheses.
    Tuple(Vec<FieldDescriptor>),
    /// Named fields, rendered inside braces.
    Named(Vec<FieldDescriptor>),
}

/// One variant of a union-like type: its name and its shape.
pub struct VariantDescriptor {
    /// The variant's name, the lead token when this variant is rendered.
    pub name: String,
    /// The variant's shape.
    pub shape: ShapeDescriptor,
}

/// The immutable, per-type description a formatting call consumes: a single
/// shape for struct-like types, or the ordered variants of a union-like type.
pub enum TypeSchema {
    /// A struct-like type: one name, one shape.
    Struct {
        /// The type's name, the lead token of its rendering.
        name: String,
        /// The type's shape.
        shape: ShapeDescriptor,
    },
    /// A union-like type: an ordered sequence of named variants.
    Enum {
        /// The variants, in declaration order.
        variants: Vec<VariantDescriptor>,
    },
}

/// Well-formedness of a field list: positions count up from zero, and named
/// fields carry their names.
pub open spec fn fields_wf(fields: Seq<FieldDescriptor>, named: bool) -> bool {
    forall|i: int|
        0 <= i < fields.len() ==> (#[trigger] fields[i]).position == i && (named
            ==> fields[i].name is Some)
}

/// Well-formedness of a shape.
pub open spec fn shape_wf(shape: ShapeDescriptor) -> bool {
    match shape {
        ShapeDescriptor::Unit => true,
        ShapeDescriptor::Tuple(fields) => fields_wf(fields@, false),
        ShapeDescriptor::Named(fields) => fields_wf(fields@, true),
    }
}

/// Well-formedness of a whole schema.
pub open spec fn schema_wf(schema: TypeSchema) -> bool {
    match schema {
        TypeSchema::Struct { name, shape } => shape_wf(shape),
        TypeSchema::Enum { variants } => forall|i: int|
            0 <= i < variants@.len() ==> shape_wf((#[trigger] variants@[i]).shape),
    }
}

/// The descriptors of a shape's fields; a unit shape has none.
pub open spec fn spec_shape_fields(shape: ShapeDescriptor) -> Seq<FieldDescriptor> {
    match shape {
        ShapeDescriptor::Unit => Seq::<FieldDescriptor>::empty(),
        ShapeDescriptor::Tuple(fields) => fields@,
        ShapeDescriptor::Named(fields) => fields@,
    }
}

/// Whether any field of the list survives skipping.
pub open spec fn spec_has_survivor(fields: Seq<FieldDescriptor>) -> bool {
    exists|i: int| 0 <= i < fields.len() && !(#[trigger] fields[i]).skip
}

} // verus!
