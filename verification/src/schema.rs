//! Schemas for introspection.
//!
//! A schema lists the fields of an envelope: for each, its name, whether a
//! value is required, and the kind of value it holds. It is derived from the
//! declared types alone and is never used to encode or decode.
use crate::descriptor::{GenericArgument, PathArguments, TypeExpr, TypeShape};
use crate::synth::{EnvelopeField, Generated};
use crate::text::text_is;
use vstd::prelude::*;

verus! {

/// The kind of value that a field holds.
#[derive(Debug, Clone, Copy, PartialEq, Eq, Structural)]
pub enum SchemaKind {
    /// A text.
    String,
    /// A whole number.
    Integer,
    /// A number with a fraction.
    Number,
    /// `true` or `false`.
    Boolean,
    /// The unit value.
    Null,
    /// A sequence of values.
    Array,
    /// A map from keys to values.
    Object,
    /// A value of a type that is defined elsewhere, by name.
    Reference,
    /// A value of any other shape.
    Any,
}

/// The description of one field.
#[derive(Debug, Clone, PartialEq, Eq)]
pub struct FieldSchema {
    /// The field's name.
    pub name: String,
    /// Whether a value has to be given.
    pub required: bool,
    /// The kind of value.
    pub kind: SchemaKind,
    /// The field's type as it was declared.
    pub type_text: String,
}

/// The description of an envelope.
#[derive(Debug, Clone, PartialEq, Eq)]
pub struct Schema {
    /// The envelope's name.
    pub title: String,
    /// The envelope's fields, in order.
    pub fields: Vec<FieldSchema>,
}

/// What the introspection entry point reports of a function.
#[derive(Debug, Clone, PartialEq, Eq)]
pub struct FnInfo {
    pub description: String,
    pub in_schema: Schema,
    pub out_schema: Schema,
}

/// Whether a name is that of a built-in integer type.
pub open spec fn is_integer_name(name: Seq<char>) -> bool {
    ||| name == "u8"@
    ||| name == "u16"@
    ||| name == "u32"@
    ||| name == "u64"@
    ||| name == "u128"@
    ||| name == "usize"@
    ||| name == "i8"@
    ||| name == "i16"@
    ||| name == "i32"@
    ||| name == "i64"@
    ||| name == "i128"@
    ||| name == "isize"@
}

/// Whether a name is that of a sequence type of the standard library.
pub open spec fn is_sequence_name(name: Seq<char>) -> bool {
    ||| name == "Vec"@
    ||| name == "VecDeque"@
    ||| name == "HashSet"@
    ||| name == "BTreeSet"@
}

/// The kind of value that a type of the given name holds.
pub open spec fn name_kind(name: Seq<char>) -> SchemaKind {
    if name == "String"@ || name == "str"@ || name == "char"@ {
        SchemaKind::String
    } else if is_integer_name(name) {
        SchemaKind::Integer
    } else if name == "f32"@ || name == "f64"@ {
        SchemaKind::Number
    } else if name == "bool"@ {
        SchemaKind::Boolean
    } else if is_sequence_name(name) {
        SchemaKind::Array
    } else if name == "HashMap"@ || name == "BTreeMap"@ {
        SchemaKind::Object
    } else {
        SchemaKind::Reference
    }
}

/// The type `T` where a type is `Option<T>`: a path whose last segment is
/// `Option` with exactly one argument in angle brackets, a type.
pub open spec fn option_inner(ty: TypeExpr) -> Option<TypeExpr> {
    match ty.shape {
        TypeShape::Path(segments) => if segments@.len() > 0 && segments@.last().ident@
            == "Option"@ {
            match segments@.last().arguments {
                PathArguments::AngleBracketed(arguments) => if arguments@.len() == 1 {
                    match arguments@[0] {
                        GenericArgument::Type(inner) => Some(inner),
                        GenericArgument::Other => None,
                    }
                } else {
                    None
                },
                _ => None,
            }
        } else {
            None
        },
        TypeShape::Other => None,
    }
}

/// The kind of value that a type holds. An optional type holds what its inner
/// type holds; a path holds what its last name says; the unit type holds null.
pub open spec fn kind_of(ty: TypeExpr) -> SchemaKind
    decreases ty,
{
    match ty.shape {
        TypeShape::Other => if ty.text@ == "()"@ {
            SchemaKind::Null
        } else {
            SchemaKind::Any
        },
        TypeShape::Path(segments) => if segments@.len() == 0 {
            SchemaKind::Any
        } else {
            match option_inner(ty) {
                Some(inner) => kind_of(inner),
                None => name_kind(segments@.last().ident@),
            }
        },
    }
}

/// Whether a value of the type has to be given: it has, unless the type is
/// `Option<T>`.
pub open spec fn required(ty: TypeExpr) -> bool {
    option_inner(ty) is None
}

/// Whether `schema` describes the field `name: ty`.
pub open spec fn field_described(schema: FieldSchema, name: Seq<char>, ty: TypeExpr) -> bool {
    &&& schema.name@ == name
    &&& schema.required == required(ty)
    &&& schema.kind == kind_of(ty)
    &&& schema.type_text@ == ty.text@
}

/// Whether `schema` describes the envelope `title` with the given fields: one
/// description per field, in the same order.
pub open spec fn described(schema: Schema, title: Seq<char>, fields: Seq<EnvelopeField>) -> bool {
    &&& schema.title@ == title
    &&& schema.fields@.len() == fields.len()
    &&& forall|i: int|
        0 <= i < fields.len() ==> field_described(
            #[trigger] schema.fields@[i],
            fields[i].name@,
            fields[i].ty,
        )
}

/// The kind of value that a type of the given name holds.
fn kind_of_name(name: &String) -> (kind: SchemaKind)
    ensures
        kind == name_kind(name@),
{
    if text_is(name, "String") || text_is(name, "str") || text_is(name, "char") {
        SchemaKind::String
    } else if text_is(name, "u8") || text_is(name, "u16") || text_is(name, "u32") || text_is(
        name,
        "u64",
    ) || text_is(name, "u128") || text_is(name, "usize") || text_is(name, "i8") || text_is(
        name,
        "i16",
    ) || text_is(name, "i32") || text_is(name, "i64") || text_is(name, "i128") || text_is(
        name,
        "isize",
    ) {
        SchemaKind::Integer
    } else if text_is(name, "f32") || text_is(name, "f64") {
        SchemaKind::Number
    } else if text_is(name, "bool") {
        SchemaKind::Boolean
    } else if text_is(name, "Vec") || text_is(name, "VecDeque") || text_is(name, "HashSet")
        || text_is(name, "BTreeSet") {
        SchemaKind::Array
    } else if text_is(name, "HashMap") || text_is(name, "BTreeMap") {
        SchemaKind::Object
    } else {
        SchemaKind::Reference
    }
}

/// The inner type of an optional type.
fn inner_of_option(ty: &TypeExpr) -> (inner: Option<&TypeExpr>)
    ensures
        inner is Some <==> option_inner(*ty) is Some,
        inner matches Some(found) ==> Some(*found) == option_inner(*ty),
{
    match &ty.shape {
        TypeShape::Other => None,
        TypeShape::Path(segments) => {
            if segments.len() == 0 {
                return None;
            }
            let last = &segments[segments.len() - 1];
            if !text_is(&last.ident, "Option") {
                return None;
            }
            match &last.arguments {
                PathArguments::AngleBracketed(arguments) => {
                    if arguments.len() != 1 {
                        return None;
                    }
                    match &arguments[0] {
                        GenericArgument::Type(inner) => Some(inner),
                        GenericArgument::Other => None,
                    }
                },
                _ => None,
            }
        },
    }
}

/// The kind of value that a type holds.
pub fn classify(ty: &TypeExpr) -> (kind: SchemaKind)
    ensures
        kind == kind_of(*ty),
    decreases *ty,
{
    match &ty.shape {
        TypeShape::Other => if text_is(&ty.text, "()") {
            SchemaKind::Null
        } else {
            SchemaKind::Any
        },
        TypeShape::Path(segments) => {
            if segments.len() == 0 {
                return SchemaKind::Any;
            }
            match inner_of_option(ty) {
                Some(inner) => classify(inner),
                None => kind_of_name(&segments[segments.len() - 1].ident),
            }
        },
    }
}

/// Describes one field.
fn field_schema(name: &str, ty: &TypeExpr) -> (schema: FieldSchema)
    ensures
        field_described(schema, name@, *ty),
{
    FieldSchema {
        name: String::from_str(name),
        required: inner_of_option(ty).is_none(),
        kind: classify(ty),
        type_text: ty.text.clone(),
    }
}

/// Derives the schema of an envelope from its fields: for each field, in
/// order, its name, whether it is required, and the kind of value it holds.
pub fn derive_schema(title: &str, fields: &Vec<EnvelopeField>) -> (schema: Schema)
    ensures
        described(schema, title@, fields@),
{
    let mut out: Vec<FieldSchema> = Vec::new();
    let mut i: usize = 0;
    while i < fields.len()
        invariant
            i <= fields@.len(),
            out@.len() == i,
            forall|k: int|
                0 <= k < i ==> field_described(
                    #[trigger] out@[k],
                    fields@[k].name@,
                    fields@[k].ty,
                ),
        decreases fields@.len() - i,
    {
        out.push(field_schema(fields[i].name.as_str(), &fields[i].ty));
        i += 1;
    }
    Schema { title: String::from_str(title), fields: out }
}

/// The name of the single field of an output envelope.
pub open spec fn output_field_name() -> Seq<char> {
    "0"@
}

/// Whether `info` is what introspection reports for `plan`: the plan's
/// description, the schema of its input envelope, and the schema of its output
/// envelope, which has one field, named `0`, of the wrapped type.
pub open spec fn reported(info: FnInfo, plan: Generated) -> bool {
    &&& info.description@ == plan.description@
    &&& described(info.in_schema, plan.input_envelope@, plan.fields@)
    &&& info.out_schema.title@ == plan.output_envelope@
    &&& info.out_schema.fields@.len() == 1
    &&& field_described(info.out_schema.fields@[0], output_field_name(), plan.output)
}

/// Builds what the introspection entry point reports for a plan. No user code
/// runs and nothing can fail.
pub fn fn_info(plan: &Generated) -> (info: FnInfo)
    ensures
        reported(info, *plan),
{
    let in_schema = derive_schema(plan.input_envelope.as_str(), &plan.fields);
    let mut fields: Vec<FieldSchema> = Vec::new();
    fields.push(field_schema("0", &plan.output));
    FnInfo {
        description: plan.description.clone(),
        in_schema,
        out_schema: Schema { title: plan.output_envelope.clone(), fields },
    }
}

} // verus!
