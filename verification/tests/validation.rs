use middle::synth::resumable_output;
use middle::{
    extract_doc, middle_fn_inner, middle_workflow_inner, Attribute, AttributeMeta,
    AttributeValue, EntryKind, ExportTable, FnArg, FnDescriptor, GenericArgument, PathArguments,
    PathSegment, Pattern, ReturnType, SynthesisError, TypeExpr, TypeShape,
};

fn descriptor(inputs: Vec<FnArg>, output: ReturnType) -> FnDescriptor {
    FnDescriptor {
        attrs: vec![],
        ident: "f".to_string(),
        inputs,
        output,
        source: "fn f() {}".to_string(),
    }
}

fn integer() -> ReturnType {
    ReturnType::Type(TypeExpr::named("i64"))
}

#[test]
fn receiver_as_first_parameter_is_rejected() {
    let r = middle_fn_inner(descriptor(
        vec![FnArg::Receiver, FnArg::simple("a", TypeExpr::named("u8"))],
        integer(),
    ));
    assert_eq!(r, Err(SynthesisError::ReceiverParameter));
}

#[test]
fn missing_return_type_is_rejected() {
    let r = middle_fn_inner(descriptor(
        vec![FnArg::simple("a", TypeExpr::named("u8"))],
        ReturnType::Omitted,
    ));
    assert_eq!(r, Err(SynthesisError::MissingReturnType));
    assert_eq!(
        middle_workflow_inner(descriptor(vec![], ReturnType::Omitted)),
        Err(SynthesisError::MissingReturnType)
    );
}

#[test]
fn destructuring_parameter_is_rejected() {
    let r = middle_fn_inner(descriptor(
        vec![
            FnArg::simple("a", TypeExpr::named("u8")),
            FnArg::Typed { pat: Pattern::Other, ty: TypeExpr::opaque("(u8, u8)") },
        ],
        integer(),
    ));
    assert_eq!(r, Err(SynthesisError::UnsupportedParameter));
}

#[test]
fn the_first_bad_parameter_decides_the_error() {
    let pattern = FnArg::Typed { pat: Pattern::Other, ty: TypeExpr::named("u8") };
    assert_eq!(
        middle_fn_inner(descriptor(vec![pattern, FnArg::Receiver], ReturnType::Omitted)),
        Err(SynthesisError::UnsupportedParameter)
    );
    let pattern = FnArg::Typed { pat: Pattern::Other, ty: TypeExpr::named("u8") };
    assert_eq!(
        middle_fn_inner(descriptor(vec![FnArg::Receiver, pattern], ReturnType::Omitted)),
        Err(SynthesisError::ReceiverParameter)
    );
}

#[test]
fn invalid_doc_attribute_is_rejected_before_anything_else() {
    let mut bad = descriptor(vec![FnArg::Receiver], ReturnType::Omitted);
    bad.attrs = vec![Attribute { ident: Some("doc".to_string()), meta: AttributeMeta::List }];
    assert_eq!(middle_fn_inner(bad), Err(SynthesisError::InvalidDocAttribute));
}

#[test]
fn envelope_mirrors_the_parameters_in_order() {
    let plan = middle_fn_inner(descriptor(
        vec![
            FnArg::simple("a", TypeExpr::named("String")),
            FnArg::simple("b", TypeExpr::named("i64")),
        ],
        integer(),
    ))
    .unwrap();
    assert_eq!(plan.kind, EntryKind::Function);
    assert_eq!(plan.function, "f");
    assert_eq!(plan.invoke_name, "user_fn__f");
    assert_eq!(plan.introspect_name, "user_fn_info__f");
    assert_eq!(plan.input_envelope, "UserFnIn__f");
    assert_eq!(plan.output_envelope, "UserFnOut__f");
    let fields: Vec<(&str, &str)> =
        plan.fields.iter().map(|f| (f.name.as_str(), f.ty.text.as_str())).collect();
    assert_eq!(fields, vec![("a", "String"), ("b", "i64")]);
    assert_eq!(plan.output, TypeExpr::named("i64"));
    assert!(plan.source.contains("struct UserFnIn__f {\n    a: String, b: i64\n}"));
    assert!(plan.source.contains("let output = f(input.a, input.b);"));
    assert!(plan.source.contains("struct UserFnOut__f(i64);"));
    assert!(plan.source.starts_with("fn f() {}\n"));
}

#[test]
fn function_without_parameters_has_an_empty_envelope() {
    let plan = middle_fn_inner(descriptor(vec![], integer())).unwrap();
    assert!(plan.fields.is_empty());
    assert!(plan.source.contains("let output = f();"));
}

#[test]
fn workflow_names_and_unwrapped_output() {
    let plan = middle_workflow_inner(descriptor(
        vec![FnArg::simple("n", TypeExpr::named("u32"))],
        ReturnType::Type(TypeExpr::applied("Resumable", TypeExpr::named("u32"))),
    ))
    .unwrap();
    assert_eq!(plan.kind, EntryKind::Workflow);
    assert_eq!(plan.invoke_name, "user_workflow__f");
    assert_eq!(plan.introspect_name, "user_workflow_info__f");
    assert_eq!(plan.input_envelope, "UserWorkflowIn__f");
    assert_eq!(plan.output_envelope, "UserWorkflowOut__f");
    assert_eq!(plan.output, TypeExpr::named("u32"));
    assert!(plan.source.contains("struct UserWorkflowOut__f(u32);"));
    assert!(!plan.source.contains("let output = UserWorkflowOut__f(output);"));
}

fn path(segments: Vec<PathSegment>) -> TypeExpr {
    TypeExpr { text: "T".to_string(), shape: TypeShape::Path(segments) }
}

fn segment(ident: &str, arguments: PathArguments) -> PathSegment {
    PathSegment { ident: ident.to_string(), arguments }
}

#[test]
fn workflow_return_type_has_to_be_resumable_of_one_type() {
    assert_eq!(resumable_output(TypeExpr::opaque("(u8, u8)")), Err(SynthesisError::ReturnTypeNotPath));
    assert_eq!(resumable_output(path(vec![])), Err(SynthesisError::ReturnTypeEmptyPath));
    assert_eq!(resumable_output(TypeExpr::named("u32")), Err(SynthesisError::ReturnTypeNotResumable));
    assert_eq!(
        resumable_output(TypeExpr::named("Resumable")),
        Err(SynthesisError::ResumableWithoutBrackets)
    );
    assert_eq!(
        resumable_output(path(vec![segment("Resumable", PathArguments::Parenthesized)])),
        Err(SynthesisError::ResumableWithoutBrackets)
    );
    assert_eq!(
        resumable_output(path(vec![segment("Resumable", PathArguments::AngleBracketed(vec![]))])),
        Err(SynthesisError::ResumableArgumentCount)
    );
    assert_eq!(
        resumable_output(path(vec![segment(
            "Resumable",
            PathArguments::AngleBracketed(vec![
                GenericArgument::Type(TypeExpr::named("u8")),
                GenericArgument::Type(TypeExpr::named("u8")),
            ])
        )])),
        Err(SynthesisError::ResumableArgumentCount)
    );
    assert_eq!(
        resumable_output(path(vec![segment(
            "Resumable",
            PathArguments::AngleBracketed(vec![GenericArgument::Other])
        )])),
        Err(SynthesisError::ResumableArgumentNotType)
    );
}

#[test]
fn resumable_is_found_at_the_end_of_a_longer_path() {
    let ty = path(vec![
        segment("middle", PathArguments::Absent),
        segment(
            "Resumable",
            PathArguments::AngleBracketed(vec![GenericArgument::Type(TypeExpr::named("bool"))]),
        ),
    ]);
    assert_eq!(resumable_output(ty), Ok(TypeExpr::named("bool")));
}

#[test]
fn workflow_with_a_plain_return_type_is_rejected() {
    assert_eq!(
        middle_workflow_inner(descriptor(vec![], integer())),
        Err(SynthesisError::ReturnTypeNotResumable)
    );
}

#[test]
fn documentation_lines_are_trimmed_and_joined() {
    let attrs = vec![
        Attribute::doc("  first line  "),
        Attribute { ident: Some("inline".to_string()), meta: AttributeMeta::Path },
        Attribute { ident: None, meta: AttributeMeta::List },
        Attribute {
            ident: Some("doc".to_string()),
            meta: AttributeMeta::NameValue(AttributeValue::Other),
        },
        Attribute::doc("\tsecond"),
        Attribute::doc(""),
    ];
    assert_eq!(extract_doc(&attrs), Ok("first line\nsecond\n".to_string()));
    assert_eq!(extract_doc(&vec![]), Ok(String::new()));
}

#[test]
fn doc_attribute_without_a_value_is_invalid() {
    let bare = Attribute { ident: Some("doc".to_string()), meta: AttributeMeta::Path };
    assert_eq!(
        extract_doc(&vec![Attribute::doc("fine"), bare]),
        Err(SynthesisError::InvalidDocAttribute)
    );
    let hidden = Attribute { ident: Some("doc".to_string()), meta: AttributeMeta::List };
    assert_eq!(extract_doc(&vec![hidden]), Err(SynthesisError::InvalidDocAttribute));
}

#[test]
fn description_is_written_as_a_string_literal() {
    let mut d = descriptor(vec![], integer());
    d.attrs = vec![Attribute::doc("say \"hi\"\\now")];
    let plan = middle_fn_inner(d).unwrap();
    assert_eq!(plan.description, "say \"hi\"\\now");
    assert!(plan.source.contains("let description = \"say \\\"hi\\\"\\\\now\";"));
}

#[test]
fn description_of_a_function_is_trimmed() {
    let mut d = descriptor(vec![], integer());
    d.attrs = vec![Attribute::doc(" adds one"), Attribute::doc("  and \u{a0}more\t ")];
    let plan = middle_fn_inner(d).unwrap();
    assert_eq!(plan.description, "adds one\nand \u{a0}more");
    assert!(plan.source.contains("let description = \"adds one\\nand \u{a0}more\";"));
    let mut d = descriptor(vec![], integer());
    d.attrs = vec![Attribute::doc(" adds one "), Attribute::doc("\ttwice")];
    let plan = middle_fn_inner(d).unwrap();
    assert!(plan.source.contains("let description = \"adds one\\ntwice\";"));
}

#[test]
fn export_synthesizes_and_registers() {
    let mut table = ExportTable::new();
    let plan = table.export(EntryKind::Function, descriptor(vec![], integer())).unwrap();
    assert_eq!(plan.invoke_name, "user_fn__f");
    assert!(plan.source.contains("pub fn user_fn_info__f() -> u32"));
    assert!(table.contains("user_fn__f"));
    assert!(table.contains("user_fn_info__f"));
    let workflow = ReturnType::Type(TypeExpr::applied("Resumable", TypeExpr::named("u8")));
    let plan = table.export(EntryKind::Workflow, descriptor(vec![], workflow)).unwrap();
    assert_eq!(plan.invoke_name, "user_workflow__f");
    assert!(table.contains("user_workflow_info__f"));
}

#[test]
fn exporting_the_same_function_twice_is_a_collision() {
    let mut table = ExportTable::new();
    table.export(EntryKind::Function, descriptor(vec![], integer())).unwrap();
    assert_eq!(
        table.export(EntryKind::Function, descriptor(vec![], integer())),
        Err(SynthesisError::NameCollision)
    );
    assert!(table.contains("user_fn__f"));
    assert!(!table.contains("user_workflow__f"));
}

#[test]
fn export_rejects_an_invalid_descriptor_before_looking_at_names() {
    let mut table = ExportTable::new();
    table.export(EntryKind::Function, descriptor(vec![], integer())).unwrap();
    assert_eq!(
        table.export(EntryKind::Function, descriptor(vec![FnArg::Receiver], integer())),
        Err(SynthesisError::ReceiverParameter)
    );
    assert_eq!(
        table.export(EntryKind::Workflow, descriptor(vec![], integer())),
        Err(SynthesisError::ReturnTypeNotResumable)
    );
    assert!(!table.contains("user_workflow__f"));
}

#[test]
fn every_error_has_its_message() {
    assert_eq!(SynthesisError::NameCollision.message(), "entry point name is already exported");
    assert_eq!(
        SynthesisError::ReceiverParameter.message(),
        "exported functions must not have `self` as a first argument"
    );
    assert_eq!(
        SynthesisError::UnsupportedParameter.message(),
        "unexpected parameter in function type signature"
    );
    assert_eq!(
        SynthesisError::MissingReturnType.message(),
        "exported functions must have an explicit return type"
    );
    assert_eq!(SynthesisError::InvalidDocAttribute.message(), "Invalid doc attribute");
    assert_eq!(
        SynthesisError::ReturnTypeNotResumable.message(),
        "Incorrect return type. Workflows must return Resumable<...>"
    );
    assert_eq!(
        SynthesisError::ResumableArgumentCount.message(),
        "Resumable<T> must be called with a single argument. Workflows must return Resumable<...>"
    );
}

#[test]
fn colliding_entry_points_are_refused() {
    let mut table = ExportTable::new();
    assert!(table.contains("wasm_alloc"));
    assert!(table.contains("unforget"));
    assert!(table.contains("setup"));
    assert!(!table.contains("user_fn__f"));
    let plan = middle_fn_inner(descriptor(vec![], integer())).unwrap();
    assert_eq!(table.register(&plan), Ok(()));
    assert!(table.contains("user_fn__f"));
    assert!(table.contains("user_fn_info__f"));
    assert_eq!(table.register(&plan), Err(SynthesisError::NameCollision));
    let workflow = middle_workflow_inner(descriptor(
        vec![],
        ReturnType::Type(TypeExpr::applied("Resumable", TypeExpr::named("u8"))),
    ))
    .unwrap();
    assert_eq!(table.register(&workflow), Ok(()));
}

#[test]
fn entry_point_named_like_a_runtime_export_is_refused() {
    let mut table = ExportTable::new();
    let mut plan = middle_fn_inner(descriptor(vec![], integer())).unwrap();
    plan.introspect_name = "setup".to_string();
    assert_eq!(table.register(&plan), Err(SynthesisError::NameCollision));
    assert!(!table.contains("user_fn__f"));
}
