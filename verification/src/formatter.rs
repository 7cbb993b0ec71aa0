use vstd::prelude::*;
use vstd::string::StringExecFns;
use crate::masking::{MaskType, mask, spec_mask, spec_hidden, hide_str};
use crate::display::{spec_int_text, spec_bool_text, i64_text, bool_text};
use crate::schema::{
    MaskKind,
    FieldDescriptor,
    ShapeDescriptor,
    TypeSchema,
    spec_mask_type_of,
    fields_wf,
    shape_wf,
    schema_wf,
    spec_shape_fields,
    spec_has_survivor,
};
use crate::value::{FieldValue, Value, field_value_ok, shape_matches, value_matches};

verus! {

/// The lead token of a rendering: the type's name for a struct-like schema,
/// the active variant's name for a union-like schema.
pub open spec fn spec_lead(schema: TypeSchema, v: Value) -> Seq<char> {
    match schema {
        TypeSchema::Struct { name, shape } => name@,
        TypeSchema::Enum { variants } => variants@[v.variant as int].name@,
    }
}

/// The shape a value is rendered against: the single shape of a struct-like
/// schema, or the active variant's shape of a union-like schema.
pub open spec fn spec_active_shape(schema: TypeSchema, v: Value) -> ShapeDescriptor {
    match schema {
        TypeSchema::Struct { name, shape } => shape,
        TypeSchema::Enum { variants } => variants@[v.variant as int].shape,
    }
}

/// The debug string of a value rendered against its schema.
pub open spec fn spec_format(schema: TypeSchema, v: Value) -> Seq<char>
    decreases v, 3int, 0int,
{
    spec_format_shape(spec_lead(schema, v), spec_active_shape(schema, v), v.fields@)
}

/// A shape's rendering: the lead token alone for a unit shape or a tuple
/// shape with no surviving field; a named shape with no surviving field adds
/// empty braces; otherwise the surviving fields joined by commas inside
/// parentheses or braces.
pub open spec fn spec_format_shape(
    lead: Seq<char>,
    shape: ShapeDescriptor,
    vals: Seq<FieldValue>,
) -> Seq<char>
    decreases vals, 2int, 0int,
{
    match shape {
        ShapeDescriptor::Unit => lead,
        ShapeDescriptor::Tuple(fields) => if !spec_has_survivor(fields@) {
            lead
        } else {
            lead + seq!['('] + spec_fields_text(fields@, vals, false, 0, true) + seq![')']
        },
        ShapeDescriptor::Named(fields) => if !spec_has_survivor(fields@) {
            lead + " {}"@
        } else {
            lead + " { "@ + spec_fields_text(fields@, vals, true, 0, true) + " }"@
        },
    }
}

/// The comma-joined text of the surviving fields from a given index on.
/// `first` records whether no field has been emitted yet; `named` shapes
/// prefix each value with its field name and a colon.
pub open spec fn spec_fields_text(
    fields: Seq<FieldDescriptor>,
    vals: Seq<FieldValue>,
    named: bool,
    i: int,
    first: bool,
) -> Seq<char>
    decreases vals, 1int, fields.len() - i,
{
    if i < 0 || i >= fields.len() || i >= vals.len() {
        Seq::<char>::empty()
    } else if fields[i].skip {
        spec_fields_text(fields, vals, named, i + 1, first)
    } else {
        (if first {
            Seq::<char>::empty()
        } else {
            ", "@
        }) + (if named {
            (fields[i].name->0)@ + ": "@
        } else {
            Seq::<char>::empty()
        }) + spec_render_field(vals[i], fields[i].mask) + spec_fields_text(
            fields,
            vals,
            named,
            i + 1,
            false,
        )
    }
}

/// The rendering of one surviving field: its natural debug text when no mask
/// is requested, its masked text otherwise.
pub open spec fn spec_render_field(v: FieldValue, mask: Option<MaskKind>) -> Seq<char>
    decreases v, 0int, 1int,
{
    match mask {
        Option::None => spec_render_plain(v),
        Option::Some(kind) => spec_render_masked(v, kind),
    }
}

/// The natural (unmasked) debug text of a field value: strings quoted,
/// plain values bare, containers in their own syntax, records rendered
/// against their schemas, opaque values as the text their host supplied.
pub open spec fn spec_render_plain(v: FieldValue) -> Seq<char>
    decreases v, 0int, 0int,
{
    match v {
        FieldValue::Str(s) => seq!['"'] + s@ + seq!['"'],
        FieldValue::Int(n) => spec_int_text(n as int),
        FieldValue::Bool(b) => spec_bool_text(b),
        FieldValue::Opt(inner) => match inner {
            Option::None => "None"@,
            Option::Some(b) => "Some("@ + spec_render_plain(*b) + ")"@,
        },
        FieldValue::List(items) => seq!['['] + spec_plain_items(items@, 0) + seq![']'],
        FieldValue::Record(schema, value) => spec_format(*schema, *value),
        FieldValue::Opaque(text) => text@,
    }
}

/// The plain renderings of a list's items from a given index on, each item
/// after the first preceded by a comma separator.
pub open spec fn spec_plain_items(items: Seq<FieldValue>, i: int) -> Seq<char>
    decreases items, 0int, items.len() - i,
{
    if i < 0 || i >= items.len() {
        Seq::<char>::empty()
    } else {
        (if i > 0 {
            ", "@
        } else {
            Seq::<char>::empty()
        }) + spec_render_plain(items[i]) + spec_plain_items(items, i + 1)
    }
}

/// The masked debug text of a field value. String-like values are masked and
/// quoted, except that a hidden string is the bare placeholder; plain values
/// are rendered to text and masked, unquoted; containers keep their own
/// syntax and mask each element; records and opaque values fall back to the
/// fixed placeholder whatever the mask kind.
pub open spec fn spec_render_masked(v: FieldValue, kind: MaskKind) -> Seq<char>
    decreases v, 0int, 0int,
{
    match v {
        FieldValue::Str(s) => match spec_mask_type_of(kind) {
            Option::Some(t) => seq!['"'] + spec_mask(s@, t) + seq!['"'],
            Option::None => spec_hidden(),
        },
        FieldValue::Int(n) => match spec_mask_type_of(kind) {
            Option::Some(t) => spec_mask(spec_int_text(n as int), t),
            Option::None => spec_hidden(),
        },
        FieldValue::Bool(b) => match spec_mask_type_of(kind) {
            Option::Some(t) => spec_mask(spec_bool_text(b), t),
            Option::None => spec_hidden(),
        },
        FieldValue::Opt(inner) => match inner {
            Option::None => "None"@,
            Option::Some(b) => "Some("@ + spec_render_masked(*b, kind) + ")"@,
        },
        FieldValue::List(items) => seq!['['] + spec_masked_items(items@, kind, 0) + seq![']'],
        FieldValue::Record(schema, value) => spec_hidden(),
        FieldValue::Opaque(text) => spec_hidden(),
    }
}

/// The masked renderings of a list's items from a given index on, each item
/// after the first preceded by a comma separator.
pub open spec fn spec_masked_items(items: Seq<FieldValue>, kind: MaskKind, i: int) -> Seq<char>
    decreases items, 0int, items.len() - i,
{
    if i < 0 || i >= items.len() {
        Seq::<char>::empty()
    } else {
        (if i > 0 {
            ", "@
        } else {
            Seq::<char>::empty()
        }) + spec_render_masked(items[i], kind) + spec_masked_items(items, kind, i + 1)
    }
}

/// Helper for the law below: from any index on, the joined field text reads
/// only the values of surviving fields.
proof fn lemma_fields_text_reads_survivors_only(
    fields: Seq<FieldDescriptor>,
    vals1: Seq<FieldValue>,
    vals2: Seq<FieldValue>,
    named: bool,
    i: int,
    first: bool,
)
    requires
        vals1.len() == vals2.len(),
        forall|j: int|
            0 <= j < fields.len() && j < vals1.len() && !(#[trigger] fields[j]).skip ==> vals1[j]
                == vals2[j],
    ensures
        spec_fields_text(fields, vals1, named, i, first) == spec_fields_text(
            fields,
            vals2,
            named,
            i,
            first,
        ),
    decreases fields.len() - i,
{
    if i < 0 || i >= fields.len() || i >= vals1.len() {
    } else if fields[i].skip {
        lemma_fields_text_reads_survivors_only(fields, vals1, vals2, named, i + 1, first);
    } else {
        lemma_fields_text_reads_survivors_only(fields, vals1, vals2, named, i + 1, false);
    }
}

/// A skipped field never appears in output and is never consulted: two
/// field-value lists that agree on every surviving field render identically,
/// whatever sits in the skipped slots.
pub proof fn lemma_skipped_fields_never_read(
    lead: Seq<char>,
    shape: ShapeDescriptor,
    vals1: Seq<FieldValue>,
    vals2: Seq<FieldValue>,
)
    requires
        vals1.len() == vals2.len(),
        forall|j: int|
            0 <= j < spec_shape_fields(shape).len() && j < vals1.len() && !(#[trigger] spec_shape_fields(
                shape,
            )[j]).skip ==> vals1[j] == vals2[j],
    ensures
        spec_format_shape(lead, shape, vals1) == spec_format_shape(lead, shape, vals2),
{
    match shape {
        ShapeDescriptor::Unit => {},
        ShapeDescriptor::Tuple(fields) => {
            assert forall|j: int|
                0 <= j < fields@.len() && j < vals1.len() && !(#[trigger] fields@[j]).skip implies vals1[j]
                == vals2[j] by {
                assert(spec_shape_fields(shape)[j] == fields@[j]);
            }
            lemma_fields_text_reads_survivors_only(fields@, vals1, vals2, false, 0, true);
        },
        ShapeDescriptor::Named(fields) => {
            assert forall|j: int|
                0 <= j < fields@.len() && j < vals1.len() && !(#[trigger] fields@[j]).skip implies vals1[j]
                == vals2[j] by {
                assert(spec_shape_fields(shape)[j] == fields@[j]);
            }
            lemma_fields_text_reads_survivors_only(fields@, vals1, vals2, true, 0, true);
        },
    }
}

/// The same law at the whole-value level: two values of the same variant
/// that agree on every surviving field of the active shape format
/// identically.
pub proof fn lemma_format_ignores_skipped(schema: TypeSchema, v1: Value, v2: Value)
    requires
        v1.variant == v2.variant,
        v1.fields@.len() == v2.fields@.len(),
        forall|j: int|
            0 <= j < spec_shape_fields(spec_active_shape(schema, v1)).len() && j
                < v1.fields@.len() && !(#[trigger] spec_shape_fields(
                spec_active_shape(schema, v1),
            )[j]).skip ==> v1.fields@[j] == v2.fields@[j],
    ensures
        spec_format(schema, v1) == spec_format(schema, v2),
{
    lemma_skipped_fields_never_read(
        spec_lead(schema, v1),
        spec_active_shape(schema, v1),
        v1.fields@,
        v2.fields@,
    );
}

/// With every field skipped, a tuple shape collapses to the bare lead token,
/// and a named shape renders the lead token followed by empty braces.
pub proof fn lemma_all_skipped_collapse(
    lead: Seq<char>,
    shape: ShapeDescriptor,
    vals: Seq<FieldValue>,
)
    requires
        forall|i: int|
            0 <= i < spec_shape_fields(shape).len() ==> (#[trigger] spec_shape_fields(
                shape,
            )[i]).skip,
    ensures
        shape matches ShapeDescriptor::Tuple(..) ==> spec_format_shape(lead, shape, vals) == lead,
        shape matches ShapeDescriptor::Named(..) ==> spec_format_shape(lead, shape, vals) == lead
            + " {}"@,
{
    match shape {
        ShapeDescriptor::Unit => {},
        ShapeDescriptor::Tuple(fields) => {
            assert forall|i: int| 0 <= i < fields@.len() implies (#[trigger] fields@[i]).skip by {
                assert(spec_shape_fields(shape)[i] == fields@[i]);
            }
            assert(!spec_has_survivor(fields@));
        },
        ShapeDescriptor::Named(fields) => {
            assert forall|i: int| 0 <= i < fields@.len() implies (#[trigger] fields@[i]).skip by {
                assert(spec_shape_fields(shape)[i] == fields@[i]);
            }
            assert(!spec_has_survivor(fields@));
        },
    }
}

/// The masking transform behind a mask kind, for the kinds that have one.
fn mask_type_of(kind: MaskKind) -> (r: Option<MaskType>)
    ensures
        r == spec_mask_type_of(kind),
{
    match kind {
        MaskKind::All => Option::Some(MaskType::All),
        MaskKind::Pan => Option::Some(MaskType::Pan),
        MaskKind::PanSuffix => Option::Some(MaskType::PanSuffix),
        MaskKind::Hidden => Option::None,
    }
}

/// Wraps a rendered string-like value in double quotes.
fn quote_wrap(s: &str) -> (r: String)
    ensures
        r@ == seq!['"'] + s@ + seq!['"'],
{
    let mut r = String::from_str("\"");
    r.append(s);
    r.append("\"");
    proof {
        reveal_strlit("\"");
        assert(r@ =~= seq!['"'] + s@ + seq!['"']);
    }
    r
}

/// Whether any field of the list survives skipping.
fn has_survivor(fields: &Vec<FieldDescriptor>) -> (r: bool)
    ensures
        r == spec_has_survivor(fields@),
{
    let mut i: usize = 0;
    while i < fields.len()
        invariant
            i <= fields@.len(),
            forall|j: int| 0 <= j < i ==> (#[trigger] fields@[j]).skip,
        decreases fields@.len() - i,
    {
        if !fields[i].skip {
            proof {
                assert(spec_has_survivor(fields@));
            }
            return true;
        }
        i = i + 1;
    }
    false
}

/// Renders a value against its schema into the debug-string grammar.
///
/// This is the engine's one outward operation. The schema must be
/// well-formed and the value must fit it; rendering then never fails.
pub fn format(schema: &TypeSchema, value: &Value) -> (r: String)
    requires
        schema_wf(*schema),
        value_matches(*schema, *value),
    ensures
        r@ == spec_format(*schema, *value),
    decreases *value, 3int, 0int,
{
    match schema {
        TypeSchema::Struct { name, shape } => format_shape(name.as_str(), shape, &value.fields),
        TypeSchema::Enum { variants } => {
            let active = &variants[value.variant];
            format_shape(active.name.as_str(), &active.shape, &value.fields)
        },
    }
}

/// Renders the lead token and the surviving fields of one shape.
fn format_shape(lead: &str, shape: &ShapeDescriptor, vals: &Vec<FieldValue>) -> (r: String)
    requires
        shape_wf(*shape),
        shape_matches(*shape, vals@),
    ensures
        r@ == spec_format_shape(lead@, *shape, vals@),
    decreases vals@, 2int, 0int,
{
    match shape {
        ShapeDescriptor::Unit => lead.to_owned(),
        ShapeDescriptor::Tuple(fields) => {
            if !has_survivor(fields) {
                lead.to_owned()
            } else {
                let mut r = lead.to_owned();
                r.append("(");
                append_fields(&mut r, fields, vals, false);
                r.append(")");
                proof {
                    reveal_strlit("(");
                    reveal_strlit(")");
                    assert(r@ =~= spec_format_shape(lead@, *shape, vals@));
                }
                r
            }
        },
        ShapeDescriptor::Named(fields) => {
            if !has_survivor(fields) {
                let mut r = lead.to_owned();
                r.append(" {}");
                r
            } else {
                let mut r = lead.to_owned();
                r.append(" { ");
                append_fields(&mut r, fields, vals, true);
                r.append(" }");
                proof {
                    assert(r@ =~= spec_format_shape(lead@, *shape, vals@));
                }
                r
            }
        },
    }
}

/// Walks the fields in declared order, appending the surviving ones to the
/// output: skipped fields contribute nothing and their values are never
/// read; named shapes prefix each value with its field name.
#[verifier::loop_isolation(false)]
fn append_fields(out: &mut String, fields: &Vec<FieldDescriptor>, vals: &Vec<FieldValue>, named: bool)
    requires
        fields_wf(fields@, named),
        vals@.len() == fields@.len(),
        forall|i: int|
            0 <= i < fields@.len() && !(#[trigger] fields@[i]).skip ==> field_value_ok(vals@[i]),
    ensures
        final(out)@ == old(out)@ + spec_fields_text(fields@, vals@, named, 0, true),
    decreases vals@, 1int, 0int,
{
    let mut i: usize = 0;
    let mut first = true;
    while i < fields.len()
        invariant
            i <= fields@.len(),
            old(out)@ + spec_fields_text(fields@, vals@, named, 0, true) == out@
                + spec_fields_text(fields@, vals@, named, i as int, first),
        decreases fields@.len() - i,
    {
        let fd = &fields[i];
        if !fd.skip {
            if !first {
                out.append(", ");
                proof {
                    reveal_strlit(", ");
                }
            }
            if named {
                match &fd.name {
                    Option::Some(n) => {
                        out.append(n.as_str());
                        out.append(": ");
                        proof {
                            reveal_strlit(": ");
                        }
                    },
                    Option::None => {
                        proof {
                            assert(false);
                        }
                    },
                }
            }
            let piece = render_field(&vals[i], &fd.mask);
            out.append(piece.as_str());
            first = false;
        }
        i = i + 1;
    }
}

/// The dispatcher for one surviving field: forwards to the natural rendering
/// when no mask is requested, to the masking path otherwise.
pub fn render_field(v: &FieldValue, mask_kind: &Option<MaskKind>) -> (r: String)
    requires
        field_value_ok(*v),
    ensures
        r@ == spec_render_field(*v, *mask_kind),
    decreases *v, 0int, 1int,
{
    match mask_kind {
        Option::None => render_plain(v),
        Option::Some(kind) => render_masked(v, *kind),
    }
}

/// Renders a field value's natural debug text.
#[verifier::loop_isolation(false)]
fn render_plain(v: &FieldValue) -> (r: String)
    requires
        field_value_ok(*v),
    ensures
        r@ == spec_render_plain(*v),
    decreases *v, 0int, 0int,
{
    match v {
        FieldValue::Str(s) => quote_wrap(s.as_str()),
        FieldValue::Int(n) => i64_text(*n),
        FieldValue::Bool(b) => bool_text(*b).to_owned(),
        FieldValue::Opt(inner) => match inner {
            Option::None => String::from_str("None"),
            Option::Some(b) => {
                let mut r = String::from_str("Some(");
                let t = render_plain(&**b);
                r.append(t.as_str());
                r.append(")");
                r
            },
        },
        FieldValue::List(items) => {
            let mut r = String::from_str("[");
            proof {
                reveal_strlit("[");
            }
            let mut i: usize = 0;
            while i < items.len()
                invariant
                    i <= items@.len(),
                    seq!['['] + spec_plain_items(items@, 0) == r@ + spec_plain_items(
                        items@,
                        i as int,
                    ),
                decreases items@.len() - i,
            {
                if i > 0 {
                    r.append(", ");
                    proof {
                        reveal_strlit(", ");
                    }
                }
                let t = render_plain(&items[i]);
                r.append(t.as_str());
                i = i + 1;
            }
            r.append("]");
            proof {
                reveal_strlit("]");
                assert(r@ =~= spec_render_plain(*v));
            }
            r
        },
        FieldValue::Record(schema, value) => format(&**schema, &**value),
        FieldValue::Opaque(text) => text.as_str().to_owned(),
    }
}

/// Renders a field value under a mask kind.
#[verifier::loop_isolation(false)]
fn render_masked(v: &FieldValue, kind: MaskKind) -> (r: String)
    requires
        field_value_ok(*v),
    ensures
        r@ == spec_render_masked(*v, kind),
    decreases *v, 0int, 0int,
{
    match v {
        FieldValue::Str(s) => match mask_type_of(kind) {
            Option::Some(t) => {
                let masked = mask(s.as_str(), t);
                quote_wrap(masked.as_str())
            },
            Option::None => hide_str().to_owned(),
        },
        FieldValue::Int(n) => match mask_type_of(kind) {
            Option::Some(t) => {
                let plain = i64_text(*n);
                mask(plain.as_str(), t)
            },
            Option::None => hide_str().to_owned(),
        },
        FieldValue::Bool(b) => match mask_type_of(kind) {
            Option::Some(t) => mask(bool_text(*b), t),
            Option::None => hide_str().to_owned(),
        },
        FieldValue::Opt(inner) => match inner {
            Option::None => String::from_str("None"),
            Option::Some(b) => {
                let mut r = String::from_str("Some(");
                let t = render_masked(&**b, kind);
                r.append(t.as_str());
                r.append(")");
                r
            },
        },
        FieldValue::List(items) => {
            let mut r = String::from_str("[");
            proof {
                reveal_strlit("[");
            }
            let mut i: usize = 0;
            while i < items.len()
                invariant
                    i <= items@.len(),
                    seq!['['] + spec_masked_items(items@, kind, 0) == r@ + spec_masked_items(
                        items@,
                        kind,
                        i as int,
                    ),
                decreases items@.len() - i,
            {
                if i > 0 {
                    r.append(", ");
                    proof {
                        reveal_strlit(", ");
                    }
                }
                let t = render_masked(&items[i], kind);
                r.append(t.as_str());
                i = i + 1;
            }
            r.append("]");
            proof {
                reveal_strlit("]");
                assert(r@ =~= spec_render_masked(*v, kind));
            }
            r
        },
        FieldValue::Record(schema, value) => hide_str().to_owned(),
        FieldValue::Opaque(text) => hide_str().to_owned(),
    }
}

} // verus!
