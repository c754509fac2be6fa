//! The source text of generated entry points.
//!
//! For one plan, the text holds four items after the function itself: the input
//! envelope, the output envelope, the invocation entry point and the
//! introspection entry point. The text is what it is for every plan; the spec
//! functions of this module write it down piece by piece, and [`render`]
//! produces exactly that.
use crate::synth::{EntryKind, EnvelopeField, Generated};
use crate::text::{join, joined};
use vstd::prelude::*;

verus! {

/// The declaration of one envelope field: `name: type`.
pub open spec fn field_text(field: EnvelopeField) -> Seq<char> {
    field.name@ + ": "@ + field.ty.text@
}

/// The argument that binds one envelope field to its parameter: `input.name`.
pub open spec fn argument_text(field: EnvelopeField) -> Seq<char> {
    "input."@ + field.name@
}

/// The field declarations of the input envelope, in order.
pub open spec fn field_texts(fields: Seq<EnvelopeField>) -> Seq<Seq<char>> {
    fields.map_values(|field: EnvelopeField| field_text(field))
}

/// The arguments of the call to the function, in order.
pub open spec fn argument_texts(fields: Seq<EnvelopeField>) -> Seq<Seq<char>> {
    fields.map_values(|field: EnvelopeField| argument_text(field))
}

/// The two envelope types.
pub open spec fn envelopes_text(plan: Generated) -> Seq<char> {
    "#[derive(Deserialize, JsonSchema)]\nstruct "@ + plan.input_envelope@ + " {\n    "@ + joined(
        field_texts(plan.fields@),
        ", "@,
    ) + "\n}\n#[derive(Serialize, JsonSchema)]\nstruct "@ + plan.output_envelope@ + "("@
        + plan.output.text@ + ");\n"@
}

/// The statement that puts a function's result into its output envelope. A
/// workflow's result is handed on as it is.
pub open spec fn wrap_text(plan: Generated) -> Seq<char> {
    match plan.kind {
        EntryKind::Function => "    let output = "@ + plan.output_envelope@ + "(output);\n"@,
        EntryKind::Workflow => Seq::empty(),
    }
}

/// The invocation entry point: it decodes the input envelope, calls the
/// function with the envelope's fields in declared order, and hands the encoded
/// result to the host.
pub open spec fn invoke_text(plan: Generated) -> Seq<char> {
    "#[no_mangle]\npub fn "@ + plan.invoke_name@
        + "(offset: u32, size: u32) -> u32 {\n    let input_json: serde_json::Value = value_from_host(offset, size);\n    let input: "@
        + plan.input_envelope@ + " = serde_json::from_value(input_json).expect(\"user "@
        + plan.kind.word_text() + " input could not be serialzied into JSON\");\n    let output = "@
        + plan.function@ + "("@ + joined(argument_texts(plan.fields@), ", "@) + ");\n"@
        + wrap_text(plan)
        + "    let output_json = serde_json::value::to_value(output).expect(\"user "@
        + plan.kind.word_text()
        + " output could not be serialized into JSON\");\n    let (offset, size) = value_to_host(&output_json);\n    let offset = vec_parts_to_host(offset, size);\n    offset\n}\n"@
}

/// The introspection entry point: it builds the function's description and the
/// schemas of both envelopes, and hands them to the host. `literal` is the
/// description written as a string literal.
pub open spec fn introspect_text(plan: Generated, literal: Seq<char>) -> Seq<char> {
    "#[no_mangle]\npub fn "@ + plan.introspect_name@
        + "() -> u32 {\n    let fn_info = {\n        let in_schema = schemars::schema_for!("@
        + plan.input_envelope@ + ");\n        let out_schema = schemars::schema_for!("@
        + plan.output_envelope@ + ");\n        let description = "@ + literal
        + ";\n        FnInfo {\n            description: description.to_string(),\n            in_schema,\n            out_schema\n        }\n    };\n    let (offset, size) = value_to_host(&fn_info);\n    let offset = vec_parts_to_host(offset, size);\n    offset\n}\n"@
}

/// The whole generated text: the function as it was written, then the
/// envelopes and the two entry points.
pub open spec fn source_text(plan: Generated, item: Seq<char>, literal: Seq<char>) -> Seq<char> {
    item + "\n"@ + envelopes_text(plan) + invoke_text(plan) + introspect_text(plan, literal)
}

/// Writes the field declarations of the input envelope.
fn render_fields(fields: &Vec<EnvelopeField>) -> (out: String)
    ensures
        out@ == joined(field_texts(fields@), ", "@),
{
    let mut parts: Vec<String> = Vec::new();
    let mut i: usize = 0;
    while i < fields.len()
        invariant
            i <= fields@.len(),
            parts.deep_view() == field_texts(fields@.take(i as int)),
        decreases fields@.len() - i,
    {
        let ghost before = parts.deep_view();
        let mut part = fields[i].name.clone();
        part.append(": ");
        part.append(fields[i].ty.text.as_str());
        parts.push(part);
        proof {
            assert(fields@.take(i + 1) =~= fields@.take(i as int).push(fields@[i as int]));
            assert(parts.deep_view() =~= before.push(field_text(fields@[i as int])));
            assert(parts.deep_view() =~= field_texts(fields@.take(i + 1)));
        }
        i += 1;
    }
    proof {
        assert(fields@.take(fields@.len() as int) =~= fields@);
    }
    join(&parts, ", ")
}

/// Writes the arguments of the call to the function.
fn render_arguments(fields: &Vec<EnvelopeField>) -> (out: String)
    ensures
        out@ == joined(argument_texts(fields@), ", "@),
{
    let mut parts: Vec<String> = Vec::new();
    let mut i: usize = 0;
    while i < fields.len()
        invariant
            i <= fields@.len(),
            parts.deep_view() == argument_texts(fields@.take(i as int)),
        decreases fields@.len() - i,
    {
        let ghost before = parts.deep_view();
        let mut part = String::from_str("input.");
        part.append(fields[i].name.as_str());
        parts.push(part);
        proof {
            assert(fields@.take(i + 1) =~= fields@.take(i as int).push(fields@[i as int]));
            assert(parts.deep_view() =~= before.push(argument_text(fields@[i as int])));
            assert(parts.deep_view() =~= argument_texts(fields@.take(i + 1)));
        }
        i += 1;
    }
    proof {
        assert(fields@.take(fields@.len() as int) =~= fields@);
    }
    join(&parts, ", ")
}

/// Writes the two envelope types.
fn render_envelopes(plan: &Generated) -> (out: String)
    ensures
        out@ == envelopes_text(*plan),
{
    let fields = render_fields(&plan.fields);
    let mut out = String::from_str("#[derive(Deserialize, JsonSchema)]\nstruct ");
    out.append(plan.input_envelope.as_str());
    out.append(" {\n    ");
    out.append(fields.as_str());
    out.append("\n}\n#[derive(Serialize, JsonSchema)]\nstruct ");
    out.append(plan.output_envelope.as_str());
    out.append("(");
    out.append(plan.output.text.as_str());
    out.append(");\n");
    out
}

/// Writes the statement that wraps a function's result.
fn render_wrap(plan: &Generated) -> (out: String)
    ensures
        out@ == wrap_text(*plan),
{
    match plan.kind {
        EntryKind::Function => {
            let mut out = String::from_str("    let output = ");
            out.append(plan.output_envelope.as_str());
            out.append("(output);\n");
            out
        },
        EntryKind::Workflow => String::new(),
    }
}

/// Writes the invocation entry point.
fn render_invoke(plan: &Generated) -> (out: String)
    ensures
        out@ == invoke_text(*plan),
{
    let arguments = render_arguments(&plan.fields);
    let wrap = render_wrap(plan);
    let mut out = String::from_str("#[no_mangle]\npub fn ");
    out.append(plan.invoke_name.as_str());
    out.append(
        "(offset: u32, size: u32) -> u32 {\n    let input_json: serde_json::Value = value_from_host(offset, size);\n    let input: ",
    );
    out.append(plan.input_envelope.as_str());
    out.append(" = serde_json::from_value(input_json).expect(\"user ");
    out.append(plan.kind.word());
    out.append(" input could not be serialzied into JSON\");\n    let output = ");
    out.append(plan.function.as_str());
    out.append("(");
    out.append(arguments.as_str());
    out.append(");\n");
    out.append(wrap.as_str());
    out.append("    let output_json = serde_json::value::to_value(output).expect(\"user ");
    out.append(plan.kind.word());
    out.append(
        " output could not be serialized into JSON\");\n    let (offset, size) = value_to_host(&output_json);\n    let offset = vec_parts_to_host(offset, size);\n    offset\n}\n",
    );
    out
}

/// Writes the introspection entry point.
fn render_introspect(plan: &Generated, literal: &str) -> (out: String)
    ensures
        out@ == introspect_text(*plan, literal@),
{
    let mut out = String::from_str("#[no_mangle]\npub fn ");
    out.append(plan.introspect_name.as_str());
    out.append(
        "() -> u32 {\n    let fn_info = {\n        let in_schema = schemars::schema_for!(",
    );
    out.append(plan.input_envelope.as_str());
    out.append(");\n        let out_schema = schemars::schema_for!(");
    out.append(plan.output_envelope.as_str());
    out.append(");\n        let description = ");
    out.append(literal);
    out.append(
        ";\n        FnInfo {\n            description: description.to_string(),\n            in_schema,\n            out_schema\n        }\n    };\n    let (offset, size) = value_to_host(&fn_info);\n    let offset = vec_parts_to_host(offset, size);\n    offset\n}\n",
    );
    out
}

/// Writes the generated text of a plan. `item` is the function as it was
/// written and `literal` is the plan's description as a string literal; the
/// plan's own `source` is not read.
pub fn render(plan: &Generated, item: &str, literal: &str) -> (out: String)
    ensures
        out@ == source_text(*plan, item@, literal@),
{
    let envelopes = render_envelopes(plan);
    let invoke = render_invoke(plan);
    let introspect = render_introspect(plan, literal);
    let mut out = String::from_str(item);
    out.append("\n");
    out.append(envelopes.as_str());
    out.append(invoke.as_str());
    out.append(introspect.as_str());
    out
}

} // verus!
