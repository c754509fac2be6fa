use middle::{
    middle_fn_inner, middle_workflow_inner, Attribute, FnArg, FnDescriptor, GenericArgument,
    PathArguments, PathSegment, ReturnType, TypeExpr, TypeShape,
};
use std::str::FromStr;

fn tokens(text: &str) -> String {
    proc_macro2::TokenStream::from_str(text).expect("text must be tokens").to_string()
}

fn result_of_unit() -> TypeExpr {
    TypeExpr {
        text: "Result<(), Error>".to_string(),
        shape: TypeShape::Path(vec![PathSegment {
            ident: "Result".to_string(),
            arguments: PathArguments::AngleBracketed(vec![
                GenericArgument::Type(TypeExpr::opaque("()")),
                GenericArgument::Type(TypeExpr::named("Error")),
            ]),
        }]),
    }
}

fn test_inputs() -> Vec<FnArg> {
    vec![
        FnArg::simple("a", TypeExpr::named("String")),
        FnArg::simple("b", TypeExpr::named("u32")),
        FnArg::simple("c", TypeExpr::named("TestIn")),
    ]
}

#[test]
fn test_fn() {
    let source = "/// This is my test function
        fn test(a: String, b: u32, c: TestIn) -> Result<(), Error> {
            Ok(())
        }";
    let generated = middle_fn_inner(FnDescriptor {
        attrs: vec![Attribute::doc(" This is my test function")],
        ident: "test".to_string(),
        inputs: test_inputs(),
        output: ReturnType::Type(result_of_unit()),
        source: source.to_string(),
    })
    .expect("the descriptor is valid");

    println!("{}", generated.source);

    let compare = r#"
        /// This is my test function
        fn test(a: String, b: u32, c: TestIn) -> Result<(), Error> {
            Ok(())
        }

        #[derive(Deserialize, JsonSchema)]
        struct UserFnIn__test {
            a: String,
            b: u32,
            c: TestIn
        }

        #[derive(Serialize, JsonSchema)]
        struct UserFnOut__test(Result<(), Error>);

        #[no_mangle]
        pub fn user_fn__test(offset: u32, size: u32) -> u32 {
            let input_json: serde_json::Value = value_from_host(offset, size);
            let input: UserFnIn__test = serde_json::from_value(input_json)
                .expect("user function input could not be serialzied into JSON");
            let output = test(input.a, input.b, input.c);
            let output = UserFnOut__test(output);
            let output_json = serde_json::value::to_value(output)
                .expect("user function output could not be serialized into JSON");
            // Hmm. You know, we could try and stuff these two u32s into a i64.
            let (offset, size) = value_to_host(&output_json);
            let offset = vec_parts_to_host(offset, size);
            offset
        }

        #[no_mangle]
        pub fn user_fn_info__test() -> u32 {
            let fn_info = {
                let in_schema = schemars::schema_for!(UserFnIn__test);
                let out_schema = schemars::schema_for!(UserFnOut__test);
                let description = "This is my test function";
                FnInfo {
                    description: description.to_string(),
                    in_schema,
                    out_schema
                }
            };
            let (offset, size) = value_to_host(&fn_info);
            let offset = vec_parts_to_host(offset, size);
            offset
        }
    "#;

    assert_eq!(tokens(&generated.source), tokens(compare));
}

#[test]
fn test_workflow() {
    let source = "/// This is my test workflow
        /// Second line of test function
        fn test(a: String, b: u32, c: TestIn) -> Resumable<Result<(), Error> > {
            Resumable::Ready(Ok(()))
        }";
    let generated = middle_workflow_inner(FnDescriptor {
        attrs: vec![
            Attribute::doc(" This is my test workflow"),
            Attribute::doc(" Second line of test function"),
        ],
        ident: "test".to_string(),
        inputs: test_inputs(),
        output: ReturnType::Type(TypeExpr::applied("Resumable", result_of_unit())),
        source: source.to_string(),
    })
    .expect("the descriptor is valid");

    println!("{}", generated.source);

    let compare = r#"
        /// This is my test workflow
        /// Second line of test function
        fn test(a: String, b: u32, c: TestIn) -> Resumable<Result<(), Error> > {
            Resumable::Ready(Ok(()))
        }

        #[derive(Deserialize, JsonSchema)]
        struct UserWorkflowIn__test {
            a: String,
            b: u32,
            c: TestIn
        }

        #[derive(Serialize, JsonSchema)]
        struct UserWorkflowOut__test(Result<(), Error>);

        #[no_mangle]
        pub fn user_workflow__test(offset: u32, size: u32) -> u32 {
            let input_json: serde_json::Value = value_from_host(offset, size);
            let input: UserWorkflowIn__test = serde_json::from_value(input_json)
                .expect("user workflow input could not be serialzied into JSON");
            let output = test(input.a, input.b, input.c);
            let output_json = serde_json::value::to_value(output)
                .expect("user workflow output could not be serialized into JSON");
            // Hmm. You know, we could try and stuff these two u32s into a i64.
            let (offset, size) = value_to_host(&output_json);
            let offset = vec_parts_to_host(offset, size);
            offset
        }

        #[no_mangle]
        pub fn user_workflow_info__test() -> u32 {
            let fn_info = {
                let in_schema = schemars::schema_for!(UserWorkflowIn__test);
                let out_schema = schemars::schema_for!(UserWorkflowOut__test);
                let description = "This is my test workflow\nSecond line of test function";
                FnInfo {
                    description: description.to_string(),
                    in_schema,
                    out_schema
                }
            };
            let (offset, size) = value_to_host(&fn_info);
            let offset = vec_parts_to_host(offset, size);
            offset
        }
    "#;

    assert_eq!(tokens(&generated.source), tokens(compare));
}
