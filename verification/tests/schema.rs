use middle::{
    derive_schema, fn_info, middle_fn_inner, Attribute, EnvelopeField, FieldSchema, FnArg,
    FnDescriptor, ReturnType, Schema, SchemaKind, TypeExpr,
};
use middle::schema::classify;

fn adds_one() -> FnDescriptor {
    FnDescriptor {
        attrs: vec![Attribute::doc(" adds one")],
        ident: "f".to_string(),
        inputs: vec![
            FnArg::simple("a", TypeExpr::named("String")),
            FnArg::simple("b", TypeExpr::named("i64")),
        ],
        output: ReturnType::Type(TypeExpr::named("i64")),
        source: "/// adds one\nfn f(a: String, b: i64) -> i64 { b + 1 }".to_string(),
    }
}

#[test]
fn introspection_reports_description_and_both_schemas() {
    let plan = middle_fn_inner(adds_one()).unwrap();
    let info = fn_info(&plan);
    assert_eq!(info.description, "adds one");
    assert_eq!(
        info.in_schema,
        Schema {
            title: "UserFnIn__f".to_string(),
            fields: vec![
                FieldSchema {
                    name: "a".to_string(),
                    required: true,
                    kind: SchemaKind::String,
                    type_text: "String".to_string(),
                },
                FieldSchema {
                    name: "b".to_string(),
                    required: true,
                    kind: SchemaKind::Integer,
                    type_text: "i64".to_string(),
                },
            ],
        }
    );
    assert_eq!(
        info.out_schema,
        Schema {
            title: "UserFnOut__f".to_string(),
            fields: vec![FieldSchema {
                name: "0".to_string(),
                required: true,
                kind: SchemaKind::Integer,
                type_text: "i64".to_string(),
            }],
        }
    );
}

#[test]
fn kinds_follow_the_declared_types() {
    assert_eq!(classify(&TypeExpr::named("String")), SchemaKind::String);
    assert_eq!(classify(&TypeExpr::named("char")), SchemaKind::String);
    assert_eq!(classify(&TypeExpr::named("u8")), SchemaKind::Integer);
    assert_eq!(classify(&TypeExpr::named("isize")), SchemaKind::Integer);
    assert_eq!(classify(&TypeExpr::named("f64")), SchemaKind::Number);
    assert_eq!(classify(&TypeExpr::named("bool")), SchemaKind::Boolean);
    assert_eq!(classify(&TypeExpr::opaque("()")), SchemaKind::Null);
    assert_eq!(classify(&TypeExpr::opaque("(u8, u8)")), SchemaKind::Any);
    assert_eq!(classify(&TypeExpr::named("TestIn")), SchemaKind::Reference);
    assert_eq!(classify(&TypeExpr::applied("Vec", TypeExpr::named("u8"))), SchemaKind::Array);
    assert_eq!(
        classify(&TypeExpr::applied("BTreeMap", TypeExpr::named("u8"))),
        SchemaKind::Object
    );
}

#[test]
fn optional_fields_are_not_required_and_keep_their_inner_kind() {
    let fields = vec![
        EnvelopeField {
            name: "note".to_string(),
            ty: TypeExpr::applied("Option", TypeExpr::named("String")),
        },
        EnvelopeField {
            name: "deep".to_string(),
            ty: TypeExpr::applied(
                "Option",
                TypeExpr::applied("Option", TypeExpr::applied("Vec", TypeExpr::named("u8"))),
            ),
        },
        EnvelopeField { name: "count".to_string(), ty: TypeExpr::named("u32") },
    ];
    let schema = derive_schema("Envelope", &fields);
    assert_eq!(schema.title, "Envelope");
    let summary: Vec<(&str, bool, SchemaKind)> =
        schema.fields.iter().map(|f| (f.name.as_str(), f.required, f.kind)).collect();
    assert_eq!(
        summary,
        vec![
            ("note", false, SchemaKind::String),
            ("deep", false, SchemaKind::Array),
            ("count", true, SchemaKind::Integer),
        ]
    );
    assert_eq!(schema.fields[0].type_text, "Option<String>");
}

#[test]
fn schema_of_no_fields_is_empty() {
    assert_eq!(
        derive_schema("Empty", &vec![]),
        Schema { title: "Empty".to_string(), fields: vec![] }
    );
}
