//! Entry-point synthesis.
//!
//! From the descriptor of a function, synthesis derives the two entry points
//! that expose it at the boundary: one that invokes it and one that describes
//! it. Both come with an input envelope, a record whose fields are the
//! function's parameters in order, and an output envelope that wraps the return
//! value. The result is a [`Generated`] plan together with the source text that
//! carries it out.
//!
//! A descriptor is validated once, before anything is generated: it is rejected
//! when a parameter is a receiver or is bound by a pattern, when no return type
//! is written, or when a `doc` attribute has no value. The description of a
//! function is its documentation, each line trimmed.
use crate::descriptor::{
    Attribute, AttributeMeta, AttributeValue, FnArg, FnDescriptor, GenericArgument,
    PathArguments, Pattern, ReturnType, TypeExpr, TypeShape,
};
use crate::literal::{literal_text, string_literal};
use crate::render::{render, source_text};
use crate::text::{join, joined, text_is, trim, trimmed};
use vstd::prelude::*;

verus! {

/// Why a descriptor was rejected.
#[derive(Debug, Clone, Copy, PartialEq, Eq, Structural)]
pub enum SynthesisError {
    /// A `doc` attribute is a bare path or a list, not `doc = value`.
    InvalidDocAttribute,
    /// A parameter is the implicit receiver.
    ReceiverParameter,
    /// A parameter is bound by a pattern instead of a simple name.
    UnsupportedParameter,
    /// No return type is written.
    MissingReturnType,
    /// A workflow's return type is not a path.
    ReturnTypeNotPath,
    /// A workflow's return type is a path without segments.
    ReturnTypeEmptyPath,
    /// A workflow's return type does not end in `Resumable`.
    ReturnTypeNotResumable,
    /// A workflow returns `Resumable` without angle brackets.
    ResumableWithoutBrackets,
    /// A workflow returns `Resumable` with no or with several arguments.
    ResumableArgumentCount,
    /// A workflow returns `Resumable` of something that is not a type.
    ResumableArgumentNotType,
    /// An entry point's name is already exported.
    NameCollision,
}

impl SynthesisError {
    /// The message of each error.
    pub open spec fn message_text(self) -> Seq<char> {
        match self {
            SynthesisError::InvalidDocAttribute => "Invalid doc attribute"@,
            SynthesisError::ReceiverParameter => {
                "exported functions must not have `self` as a first argument"@
            },
            SynthesisError::UnsupportedParameter => {
                "unexpected parameter in function type signature"@
            },
            SynthesisError::MissingReturnType => {
                "exported functions must have an explicit return type"@
            },
            SynthesisError::ReturnTypeNotPath => {
                "Return type is unexpected. Workflows must return Resumable<...>"@
            },
            SynthesisError::ReturnTypeEmptyPath => {
                "Return type missing path. Workflows must return Resumable<...>"@
            },
            SynthesisError::ReturnTypeNotResumable => {
                "Incorrect return type. Workflows must return Resumable<...>"@
            },
            SynthesisError::ResumableWithoutBrackets => {
                "Resumable<T> must be called with angle brackets. Workflows must return Resumable<...>"@
            },
            SynthesisError::ResumableArgumentCount => {
                "Resumable<T> must be called with a single argument. Workflows must return Resumable<...>"@
            },
            SynthesisError::ResumableArgumentNotType => ". Workflows must return Resumable<...>"@,
            SynthesisError::NameCollision => "entry point name is already exported"@,
        }
    }

    /// The message to show for this error.
    pub fn message(&self) -> (text: &'static str)
        ensures
            text@ == self.message_text(),
    {
        match self {
            SynthesisError::InvalidDocAttribute => "Invalid doc attribute",
            SynthesisError::ReceiverParameter => {
                "exported functions must not have `self` as a first argument"
            },
            SynthesisError::UnsupportedParameter => {
                "unexpected parameter in function type signature"
            },
            SynthesisError::MissingReturnType => {
                "exported functions must have an explicit return type"
            },
            SynthesisError::ReturnTypeNotPath => {
                "Return type is unexpected. Workflows must return Resumable<...>"
            },
            SynthesisError::ReturnTypeEmptyPath => {
                "Return type missing path. Workflows must return Resumable<...>"
            },
            SynthesisError::ReturnTypeNotResumable => {
                "Incorrect return type. Workflows must return Resumable<...>"
            },
            SynthesisError::ResumableWithoutBrackets => {
                "Resumable<T> must be called with angle brackets. Workflows must return Resumable<...>"
            },
            SynthesisError::ResumableArgumentCount => {
                "Resumable<T> must be called with a single argument. Workflows must return Resumable<...>"
            },
            SynthesisError::ResumableArgumentNotType => ". Workflows must return Resumable<...>",
            SynthesisError::NameCollision => "entry point name is already exported",
        }
    }
}

/// What one attribute adds to a function's description.
pub enum DocPart {
    /// Nothing: the attribute is no `doc` attribute, or its value is no string.
    Skip,
    /// One line of text.
    Line(Seq<char>),
    /// The attribute is a `doc` attribute of a form that has no value.
    Invalid,
}

/// Reads one attribute as part of a description.
pub open spec fn doc_part(attr: Attribute) -> DocPart {
    if !attr.is_doc() {
        DocPart::Skip
    } else {
        match attr.meta {
            AttributeMeta::NameValue(AttributeValue::Str(s)) => DocPart::Line(s@),
            AttributeMeta::NameValue(AttributeValue::Other) => DocPart::Skip,
            AttributeMeta::Path => DocPart::Invalid,
            AttributeMeta::List => DocPart::Invalid,
        }
    }
}

/// Whether some attribute is an invalid `doc` attribute.
pub open spec fn doc_invalid(attrs: Seq<Attribute>) -> bool {
    exists|i: int| 0 <= i < attrs.len() && doc_part(#[trigger] attrs[i]) is Invalid
}

/// The lines of documentation among the attributes, in order, each trimmed of
/// white space at both ends.
pub open spec fn doc_lines(attrs: Seq<Attribute>) -> Seq<Seq<char>>
    decreases attrs.len(),
{
    if attrs.len() == 0 {
        Seq::empty()
    } else {
        let front = doc_lines(attrs.drop_last());
        match doc_part(attrs.last()) {
            DocPart::Line(line) => front.push(trimmed(line)),
            _ => front,
        }
    }
}

/// The description that the attributes give: the trimmed documentation lines,
/// joined by newlines.
pub open spec fn doc_text(attrs: Seq<Attribute>) -> Seq<char> {
    joined(doc_lines(attrs), seq!['\n'])
}

/// The description of a function: the values of its `doc` attributes, each
/// trimmed of white space at both ends, joined by newlines. A `doc` attribute
/// whose value is no string adds nothing.
///
/// Fails exactly when some `doc` attribute is a bare path or a list.
pub fn extract_doc(attrs: &Vec<Attribute>) -> (r: Result<String, SynthesisError>)
    ensures
        r is Err <==> doc_invalid(attrs@),
        r matches Err(error) ==> error == SynthesisError::InvalidDocAttribute,
        r matches Ok(text) ==> text@ == doc_text(attrs@),
{
    let mut lines: Vec<String> = Vec::new();
    let mut i: usize = 0;
    while i < attrs.len()
        invariant
            i <= attrs@.len(),
            forall|k: int| 0 <= k < i ==> !(doc_part(#[trigger] attrs@[k]) is Invalid),
            lines.deep_view() == doc_lines(attrs@.take(i as int)),
        decreases attrs@.len() - i,
    {
        let attr = &attrs[i];
        let ghost before = lines.deep_view();
        proof {
            assert(attrs@.take(i + 1).drop_last() =~= attrs@.take(i as int));
            assert(attrs@.take(i + 1).last() == attrs@[i as int]);
        }
        let is_doc = match &attr.ident {
            Some(name) => text_is(name, "doc"),
            None => false,
        };
        if is_doc {
            match &attr.meta {
                AttributeMeta::NameValue(AttributeValue::Str(value)) => {
                    let line = trim(value.as_str());
                    lines.push(line);
                    assert(lines.deep_view() =~= before.push(line@));
                },
                AttributeMeta::NameValue(AttributeValue::Other) => {},
                _ => {
                    return Err(SynthesisError::InvalidDocAttribute);
                },
            }
        }
        i += 1;
    }
    proof {
        assert(attrs@.take(attrs@.len() as int) =~= attrs@);
        reveal_strlit("\n");
        assert("\n"@ =~= seq!['\n']);
    }
    Ok(join(&lines, "\n"))
}

/// One field of an input envelope: a parameter's name and type.
#[derive(Debug, PartialEq, Eq)]
pub struct EnvelopeField {
    pub name: String,
    pub ty: TypeExpr,
}

/// Why a parameter cannot become an envelope field, if it cannot.
pub open spec fn arg_error(arg: FnArg) -> Option<SynthesisError> {
    match arg {
        FnArg::Receiver => Some(SynthesisError::ReceiverParameter),
        FnArg::Typed { pat: Pattern::Other, .. } => Some(SynthesisError::UnsupportedParameter),
        FnArg::Typed { pat: Pattern::Ident(_), .. } => None,
    }
}

/// The error of the first parameter that has one.
pub open spec fn inputs_error(inputs: Seq<FnArg>) -> Option<SynthesisError>
    decreases inputs.len(),
{
    if inputs.len() == 0 {
        None
    } else {
        match inputs_error(inputs.drop_last()) {
            Some(error) => Some(error),
            None => arg_error(inputs.last()),
        }
    }
}

/// The envelope field that mirrors a parameter.
pub open spec fn field_of(arg: FnArg) -> EnvelopeField
    recommends
        arg_error(arg) is None,
{
    match arg {
        FnArg::Typed { pat: Pattern::Ident(name), ty } => EnvelopeField { name, ty },
        _ => arbitrary(),
    }
}

/// The fields of the input envelope: one per parameter, in declared order.
pub open spec fn fields_of(inputs: Seq<FnArg>) -> Seq<EnvelopeField> {
    inputs.map_values(|arg: FnArg| field_of(arg))
}

proof fn lemma_inputs_error_stays(inputs: Seq<FnArg>, upto: int)
    requires
        0 <= upto <= inputs.len(),
        inputs_error(inputs.take(upto)) is Some,
    ensures
        inputs_error(inputs) == inputs_error(inputs.take(upto)),
    decreases inputs.len(),
{
    if upto == inputs.len() {
        assert(inputs.take(upto) =~= inputs);
    } else {
        assert(inputs.drop_last().take(upto) =~= inputs.take(upto));
        lemma_inputs_error_stays(inputs.drop_last(), upto);
    }
}

/// Turns the parameters into the fields of the input envelope.
///
/// Fails with the error of the first parameter that is a receiver
/// (`ReceiverParameter`) or is bound by a pattern (`UnsupportedParameter`).
pub fn envelope_fields(inputs: Vec<FnArg>) -> (r: Result<Vec<EnvelopeField>, SynthesisError>)
    ensures
        match inputs_error(inputs@) {
            Some(error) => r == Err::<Vec<EnvelopeField>, SynthesisError>(error),
            None => r matches Ok(fields) && fields@ == fields_of(inputs@),
        },
{
    let mut fields: Vec<EnvelopeField> = Vec::new();
    for arg in it: inputs
        invariant
            it.seq() == inputs@,
            inputs_error(inputs@.take(it.index())) is None,
            fields@ == fields_of(inputs@.take(it.index())),
    {
        let ghost done = it.index();
        proof {
            assert(inputs@.take(done + 1).drop_last() =~= inputs@.take(done));
            assert(inputs@.take(done + 1).last() == arg);
        }
        match arg {
            FnArg::Receiver => {
                proof {
                    lemma_inputs_error_stays(inputs@, done + 1);
                }
                return Err(SynthesisError::ReceiverParameter);
            },
            FnArg::Typed { pat, ty } => {
                match pat {
                    Pattern::Ident(name) => {
                        fields.push(EnvelopeField { name, ty });
                        assert(fields@ =~= fields_of(inputs@.take(done + 1)));
                    },
                    Pattern::Other => {
                        proof {
                            lemma_inputs_error_stays(inputs@, done + 1);
                        }
                        return Err(SynthesisError::UnsupportedParameter);
                    },
                }
            },
        }
    }
    proof {
        assert(inputs@.take(inputs@.len() as int) =~= inputs@);
    }
    Ok(fields)
}

/// The type `T` of a workflow's return type `Resumable<T>`, or why the return
/// type is not of that form.
pub open spec fn resumable_inner(ty: TypeExpr) -> Result<TypeExpr, SynthesisError> {
    match ty.shape {
        TypeShape::Other => Err(SynthesisError::ReturnTypeNotPath),
        TypeShape::Path(segments) => {
            if segments@.len() == 0 {
                Err(SynthesisError::ReturnTypeEmptyPath)
            } else if segments@.last().ident@ != "Resumable"@ {
                Err(SynthesisError::ReturnTypeNotResumable)
            } else {
                match segments@.last().arguments {
                    PathArguments::AngleBracketed(arguments) => {
                        if arguments@.len() != 1 {
                            Err(SynthesisError::ResumableArgumentCount)
                        } else {
                            match arguments@[0] {
                                GenericArgument::Type(inner) => Ok(inner),
                                GenericArgument::Other => Err(
                                    SynthesisError::ResumableArgumentNotType,
                                ),
                            }
                        }
                    },
                    _ => Err(SynthesisError::ResumableWithoutBrackets),
                }
            }
        },
    }
}

/// Checks that a workflow returns `Resumable<T>` and takes out `T`: the return
/// type is a path, its last segment is `Resumable`, and that segment has
/// exactly one argument in angle brackets, which is a type.
pub fn resumable_output(ty: TypeExpr) -> (r: Result<TypeExpr, SynthesisError>)
    ensures
        r == resumable_inner(ty),
{
    match ty.shape {
        TypeShape::Other => Err(SynthesisError::ReturnTypeNotPath),
        TypeShape::Path(segments) => {
            let mut segments = segments;
            match segments.pop() {
                None => Err(SynthesisError::ReturnTypeEmptyPath),
                Some(last) => {
                    if !text_is(&last.ident, "Resumable") {
                        return Err(SynthesisError::ReturnTypeNotResumable);
                    }
                    match last.arguments {
                        PathArguments::AngleBracketed(arguments) => {
                            let mut arguments = arguments;
                            if arguments.len() != 1 {
                                return Err(SynthesisError::ResumableArgumentCount);
                            }
                            match arguments.pop() {
                                Some(GenericArgument::Type(inner)) => Ok(inner),
                                _ => Err(SynthesisError::ResumableArgumentNotType),
                            }
                        },
                        _ => Err(SynthesisError::ResumableWithoutBrackets),
                    }
                },
            }
        },
    }
}

/// The two kinds of function that can be exposed.
#[derive(Debug, Clone, Copy, PartialEq, Eq, Structural)]
pub enum EntryKind {
    /// An ordinary function: it runs to completion.
    Function,
    /// A workflow: it returns `Resumable<T>` and is run again after a pause.
    Workflow,
}

impl EntryKind {
    /// How generated messages call this kind.
    pub open spec fn word_text(self) -> Seq<char> {
        match self {
            EntryKind::Function => "function"@,
            EntryKind::Workflow => "workflow"@,
        }
    }

    /// What the name of the invocation entry point starts with.
    pub open spec fn invoke_prefix_text(self) -> Seq<char> {
        match self {
            EntryKind::Function => "user_fn__"@,
            EntryKind::Workflow => "user_workflow__"@,
        }
    }

    /// What the name of the introspection entry point starts with.
    pub open spec fn introspect_prefix_text(self) -> Seq<char> {
        match self {
            EntryKind::Function => "user_fn_info__"@,
            EntryKind::Workflow => "user_workflow_info__"@,
        }
    }

    /// What the name of the input envelope starts with.
    pub open spec fn input_prefix_text(self) -> Seq<char> {
        match self {
            EntryKind::Function => "UserFnIn__"@,
            EntryKind::Workflow => "UserWorkflowIn__"@,
        }
    }

    /// What the name of the output envelope starts with.
    pub open spec fn output_prefix_text(self) -> Seq<char> {
        match self {
            EntryKind::Function => "UserFnOut__"@,
            EntryKind::Workflow => "UserWorkflowOut__"@,
        }
    }

    /// How generated messages call this kind.
    pub fn word(&self) -> (text: &'static str)
        ensures
            text@ == self.word_text(),
    {
        match self {
            EntryKind::Function => "function",
            EntryKind::Workflow => "workflow",
        }
    }

    /// What the name of the invocation entry point starts with.
    pub fn invoke_prefix(&self) -> (text: &'static str)
        ensures
            text@ == self.invoke_prefix_text(),
    {
        match self {
            EntryKind::Function => "user_fn__",
            EntryKind::Workflow => "user_workflow__",
        }
    }

    /// What the name of the introspection entry point starts with.
    pub fn introspect_prefix(&self) -> (text: &'static str)
        ensures
            text@ == self.introspect_prefix_text(),
    {
        match self {
            EntryKind::Function => "user_fn_info__",
            EntryKind::Workflow => "user_workflow_info__",
        }
    }

    /// What the name of the input envelope starts with.
    pub fn input_prefix(&self) -> (text: &'static str)
        ensures
            text@ == self.input_prefix_text(),
    {
        match self {
            EntryKind::Function => "UserFnIn__",
            EntryKind::Workflow => "UserWorkflowIn__",
        }
    }

    /// What the name of the output envelope starts with.
    pub fn output_prefix(&self) -> (text: &'static str)
        ensures
            text@ == self.output_prefix_text(),
    {
        match self {
            EntryKind::Function => "UserFnOut__",
            EntryKind::Workflow => "UserWorkflowOut__",
        }
    }
}

/// What synthesis produces for one function: the plan of its two entry points
/// and the source text that carries the plan out.
#[derive(Debug, PartialEq, Eq)]
pub struct Generated {
    /// The kind of function that is exposed.
    pub kind: EntryKind,
    /// The name of the function that the invocation entry point calls.
    pub function: String,
    /// The name of the invocation entry point.
    pub invoke_name: String,
    /// The name of the introspection entry point.
    pub introspect_name: String,
    /// The name of the input envelope.
    pub input_envelope: String,
    /// The name of the output envelope.
    pub output_envelope: String,
    /// The fields of the input envelope: the parameters, in declared order.
    /// The invocation entry point passes them to the function in this order.
    pub fields: Vec<EnvelopeField>,
    /// The type that the output envelope wraps.
    pub output: TypeExpr,
    /// The function's description.
    pub description: String,
    /// The generated source text.
    pub source: String,
}

/// Why the descriptor itself is rejected, if it is. The description is checked
/// first, then the parameters in order, then the return type.
pub open spec fn synthesis_error(kind: EntryKind, input: FnDescriptor) -> Option<SynthesisError> {
    if doc_invalid(input.attrs@) {
        Some(SynthesisError::InvalidDocAttribute)
    } else if inputs_error(input.inputs@) is Some {
        inputs_error(input.inputs@)
    } else {
        match input.output {
            ReturnType::Omitted => Some(SynthesisError::MissingReturnType),
            ReturnType::Type(ty) => match kind {
                EntryKind::Function => None,
                EntryKind::Workflow => match resumable_inner(ty) {
                    Ok(_) => None,
                    Err(error) => Some(error),
                },
            },
        }
    }
}

/// The type that the output envelope wraps: a function's return type, or the
/// `T` of a workflow's `Resumable<T>`.
pub open spec fn output_of(kind: EntryKind, input: FnDescriptor) -> TypeExpr
    recommends
        synthesis_error(kind, input) is None,
{
    match input.output {
        ReturnType::Type(ty) => match kind {
            EntryKind::Function => ty,
            EntryKind::Workflow => resumable_inner(ty)->Ok_0,
        },
        ReturnType::Omitted => arbitrary(),
    }
}

/// Whether `plan` holds what synthesis plans for `input`, the source text
/// aside:
///
/// * every name is the kind's prefix followed by the function's name;
/// * the envelope fields are the parameters, in declared order;
/// * the description is the function's documentation, each line trimmed.
pub open spec fn planned_from(plan: Generated, kind: EntryKind, input: FnDescriptor) -> bool {
    &&& plan.kind == kind
    &&& plan.function@ == input.ident@
    &&& plan.invoke_name@ == kind.invoke_prefix_text() + input.ident@
    &&& plan.introspect_name@ == kind.introspect_prefix_text() + input.ident@
    &&& plan.input_envelope@ == kind.input_prefix_text() + input.ident@
    &&& plan.output_envelope@ == kind.output_prefix_text() + input.ident@
    &&& plan.fields@ == fields_of(input.inputs@)
    &&& plan.output == output_of(kind, input)
    &&& plan.description@ == doc_text(input.attrs@)
}

/// Whether `source` is the generated text of `plan` around the function
/// `item`, with the description written as its string literal.
pub open spec fn written_for(source: Seq<char>, plan: Generated, item: Seq<char>) -> bool {
    source == source_text(plan, item, literal_text(plan.description@))
}

/// Whether `plan` is what synthesis derives from `input`: it holds what is
/// planned for `input`, and its source text is the generated text for this
/// very plan.
pub open spec fn derived_from(plan: Generated, kind: EntryKind, input: FnDescriptor) -> bool {
    &&& planned_from(plan, kind, input)
    &&& written_for(plan.source@, plan, input.source@)
}

/// A name made of a prefix and the function's name.
fn prefixed(prefix: &str, ident: &str) -> (name: String)
    ensures
        name@ == prefix@ + ident@,
{
    let mut name = String::from_str(prefix);
    name.append(ident);
    name
}

/// Validates a descriptor and derives its plan. The plan's source text is
/// left empty, and the function's own source text is handed back beside it.
pub(crate) fn draft(kind: EntryKind, input: FnDescriptor) -> (r: Result<
    (Generated, String),
    SynthesisError,
>)
    ensures
        r is Err <==> synthesis_error(kind, input) is Some,
        r matches Err(error) ==> Some(error) == synthesis_error(kind, input),
        r matches Ok(pair) ==> {
            &&& planned_from(pair.0, kind, input)
            &&& pair.0.source@ == Seq::<char>::empty()
            &&& pair.1@ == input.source@
        },
{
    let FnDescriptor { attrs, ident, inputs, output, source } = input;
    let description = extract_doc(&attrs)?;
    let fields = envelope_fields(inputs)?;
    let output = match output {
        ReturnType::Omitted => {
            return Err(SynthesisError::MissingReturnType);
        },
        ReturnType::Type(ty) => match kind {
            EntryKind::Function => ty,
            EntryKind::Workflow => resumable_output(ty)?,
        },
    };
    let plan = Generated {
        kind,
        invoke_name: prefixed(kind.invoke_prefix(), ident.as_str()),
        introspect_name: prefixed(kind.introspect_prefix(), ident.as_str()),
        input_envelope: prefixed(kind.input_prefix(), ident.as_str()),
        output_envelope: prefixed(kind.output_prefix(), ident.as_str()),
        function: ident,
        fields,
        output,
        description,
        source: String::new(),
    };
    Ok((plan, source))
}

/// Writes the source text of a plan around the function `item`. The plan comes
/// back unchanged but for its source text.
pub(crate) fn complete(plan: Generated, item: &str) -> (done: Generated)
    ensures
        done == (Generated { source: done.source, ..plan }),
        written_for(done.source@, done, item@),
{
    let literal = string_literal(plan.description.as_str());
    let text = render(&plan, item, literal.as_str());
    let mut done = plan;
    done.source = text;
    done
}

/// Validates a descriptor and derives its plan and source text.
fn synthesize(kind: EntryKind, input: FnDescriptor) -> (r: Result<Generated, SynthesisError>)
    ensures
        synthesized(r, kind, input),
{
    let (plan, item) = draft(kind, input)?;
    Ok(complete(plan, item.as_str()))
}

/// What synthesis gives for a descriptor: for one that is itself rejected its
/// error, the one that [`synthesis_error`] names; for every other its plan,
/// with the source text written for it.
pub open spec fn synthesized(
    r: Result<Generated, SynthesisError>,
    kind: EntryKind,
    input: FnDescriptor,
) -> bool {
    match synthesis_error(kind, input) {
        Some(error) => r == Err::<Generated, SynthesisError>(error),
        None => r matches Ok(plan) && derived_from(plan, kind, input),
    }
}

/// Synthesizes the entry points of an ordinary function.
///
/// The descriptor is rejected, in this order, when a `doc` attribute has no
/// value (`InvalidDocAttribute`), when a parameter is a receiver
/// (`ReceiverParameter`) or is bound by a pattern (`UnsupportedParameter`), the
/// first such parameter deciding, and when no return type is written
/// (`MissingReturnType`).
///
/// Every other descriptor succeeds. The entry points are named `user_fn__`
/// and `user_fn_info__` followed by the function's name, the envelopes
/// `UserFnIn__` and `UserFnOut__` followed by it. The description holds each
/// documentation line trimmed, and stands in the source text as its string
/// literal.
///
/// Whether the names are free is not looked at here: synthesis with that rule
/// is [`ExportTable::export`](crate::exports::ExportTable::export), which
/// fails with `NameCollision` where a name is exported already.
pub fn middle_fn_inner(input: FnDescriptor) -> (r: Result<Generated, SynthesisError>)
    ensures
        synthesized(r, EntryKind::Function, input),
{
    synthesize(EntryKind::Function, input)
}

/// Synthesizes the entry points of a workflow.
///
/// The descriptor is rejected as that of a function is, and also when its
/// return type is not `Resumable<T>` for one type `T`: when it is no path
/// (`ReturnTypeNotPath`) or an empty one (`ReturnTypeEmptyPath`), when its last
/// segment is not `Resumable` (`ReturnTypeNotResumable`), has no angle brackets
/// (`ResumableWithoutBrackets`), has not exactly one argument
/// (`ResumableArgumentCount`), or has one that is no type
/// (`ResumableArgumentNotType`).
///
/// The entry points are named `user_workflow__` and `user_workflow_info__`
/// followed by the workflow's name, the envelopes `UserWorkflowIn__` and
/// `UserWorkflowOut__` followed by it. The output envelope wraps `T`, and the
/// workflow's result is handed to the host as it is. The description holds each
/// documentation line trimmed, and stands in the source text as its string
/// literal.
///
/// Whether the names are free is not looked at here: synthesis with that rule
/// is [`ExportTable::export`](crate::exports::ExportTable::export), which
/// fails with `NameCollision` where a name is exported already.
pub fn middle_workflow_inner(input: FnDescriptor) -> (r: Result<Generated, SynthesisError>)
    ensures
        synthesized(r, EntryKind::Workflow, input),
{
    synthesize(EntryKind::Workflow, input)
}

/// The two entry points of one function never share a name.
pub proof fn lemma_entry_names_differ(kind: EntryKind, ident: Seq<char>)
    ensures
        kind.invoke_prefix_text() + ident != kind.introspect_prefix_text() + ident,
{
    reveal_strlit("user_fn__");
    reveal_strlit("user_fn_info__");
    reveal_strlit("user_workflow__");
    reveal_strlit("user_workflow_info__");
    assert((kind.invoke_prefix_text() + ident).len() != (kind.introspect_prefix_text()
        + ident).len());
}

/// Names are derived from the function's name alone, and functions of
/// different names get different entry points: a prefixed name determines the
/// name it was made from.
pub proof fn lemma_prefixed_names_differ(prefix: Seq<char>, first: Seq<char>, second: Seq<char>)
    requires
        prefix + first == prefix + second,
    ensures
        first == second,
{
    let whole = prefix + first;
    assert(whole.len() == prefix.len() + first.len());
    assert(whole.len() == prefix.len() + second.len());
    assert(first =~= whole.subrange(prefix.len() as int, whole.len() as int));
    assert(second =~= whole.subrange(prefix.len() as int, whole.len() as int));
}

} // verus!
