//! Function descriptors: the shape of a function item, as far as entry-point
//! synthesis reads it.
//!
//! A descriptor is plain data. It records the attributes, the name, the ordered
//! parameters and the return type of one function, together with the function's
//! source text, and it is not changed once captured.
use vstd::prelude::*;

verus! {

/// The value of a `name = value` attribute.
#[derive(Debug, Clone, PartialEq, Eq)]
pub enum AttributeValue {
    /// A string literal, with its content.
    Str(String),
    /// Any other expression.
    Other,
}

/// The three forms an attribute can take.
#[derive(Debug, Clone, PartialEq, Eq)]
pub enum AttributeMeta {
    /// A bare path, as in `#[test]`.
    Path,
    /// A path with a delimited list, as in `#[derive(Clone)]`.
    List,
    /// A path with a value, as in `#[doc = "text"]`.
    NameValue(AttributeValue),
}

/// One attribute of a function item.
#[derive(Debug, Clone, PartialEq, Eq)]
pub struct Attribute {
    /// The attribute's name, where its path is a single identifier.
    pub ident: Option<String>,
    /// The form of the attribute.
    pub meta: AttributeMeta,
}

/// One argument between the angle brackets of a path segment.
#[derive(Debug, PartialEq, Eq)]
pub enum GenericArgument {
    /// A type, as the `T` in `Resumable<T>`.
    Type(TypeExpr),
    /// Anything else: a lifetime, a constant, a binding or a bound.
    Other,
}

/// What follows the identifier of a path segment.
#[derive(Debug, PartialEq, Eq)]
pub enum PathArguments {
    /// Nothing, as in `String`.
    Absent,
    /// Arguments in angle brackets, as in `Vec<u8>`.
    AngleBracketed(Vec<GenericArgument>),
    /// Arguments in round brackets, as in `Fn(u8) -> u8`.
    Parenthesized,
}

/// One segment of a type path.
#[derive(Debug, PartialEq, Eq)]
pub struct PathSegment {
    pub ident: String,
    pub arguments: PathArguments,
}

/// The structure of a type, as far as synthesis looks into it.
#[derive(Debug, PartialEq, Eq)]
pub enum TypeShape {
    /// A path such as `std::option::Option<String>`, by segments.
    Path(Vec<PathSegment>),
    /// Any other type: a tuple, a reference, an array and so on.
    Other,
}

/// A type as written in a signature.
#[derive(Debug, PartialEq, Eq)]
pub struct TypeExpr {
    /// The type's source text; this is what generated code repeats.
    pub text: String,
    /// The type's structure.
    pub shape: TypeShape,
}

/// The pattern that binds a parameter.
#[derive(Debug, Clone, PartialEq, Eq)]
pub enum Pattern {
    /// A simple name.
    Ident(String),
    /// Any destructuring or otherwise compound pattern.
    Other,
}

/// One parameter of a function.
#[derive(Debug, PartialEq, Eq)]
pub enum FnArg {
    /// The implicit receiver, `self` in any of its forms.
    Receiver,
    /// A parameter with a pattern and a type.
    Typed { pat: Pattern, ty: TypeExpr },
}

/// The return type of a function.
#[derive(Debug, PartialEq, Eq)]
pub enum ReturnType {
    /// No return type is written.
    Omitted,
    /// The type after `->`.
    Type(TypeExpr),
}

/// The descriptor of one function item.
#[derive(Debug, PartialEq, Eq)]
pub struct FnDescriptor {
    /// The item's attributes, in order; documentation comments are `doc`
    /// attributes.
    pub attrs: Vec<Attribute>,
    /// The function's name.
    pub ident: String,
    /// The parameters, in declared order.
    pub inputs: Vec<FnArg>,
    /// The return type.
    pub output: ReturnType,
    /// The item's source text, attributes included.
    pub source: String,
}

impl Attribute {
    /// Whether this is a `doc` attribute.
    pub open spec fn is_doc(self) -> bool {
        self.ident matches Some(name) && name@ == "doc"@
    }

    /// A documentation line: `#[doc = "text"]`, which is what `/// text`
    /// stands for.
    pub fn doc(text: &str) -> (attr: Attribute)
        ensures
            attr.is_doc(),
            attr.meta matches AttributeMeta::NameValue(AttributeValue::Str(s)) && s@ == text@,
    {
        Attribute {
            ident: Some(String::from_str("doc")),
            meta: AttributeMeta::NameValue(AttributeValue::Str(String::from_str(text))),
        }
    }
}

impl TypeExpr {
    /// A type that is a single name without arguments, such as `u32`.
    pub fn named(name: &str) -> (ty: TypeExpr)
        ensures
            ty.text@ == name@,
            ty.shape matches TypeShape::Path(segments) && segments@.len() == 1
                && segments@[0].ident@ == name@ && segments@[0].arguments is Absent,
    {
        let mut segments: Vec<PathSegment> = Vec::new();
        segments.push(
            PathSegment { ident: String::from_str(name), arguments: PathArguments::Absent },
        );
        TypeExpr { text: String::from_str(name), shape: TypeShape::Path(segments) }
    }

    /// A type that is a single name applied to one type argument, such as
    /// `Option<String>`. Its text is the name, `<`, the argument's text, `>`.
    pub fn applied(name: &str, argument: TypeExpr) -> (ty: TypeExpr)
        ensures
            ty.text@ == name@ + "<"@ + argument.text@ + ">"@,
            ({
                &&& ty.shape matches TypeShape::Path(segments)
                &&& segments@.len() == 1
                &&& segments@[0].ident@ == name@
                &&& segments@[0].arguments matches PathArguments::AngleBracketed(arguments)
                &&& arguments@ == seq![GenericArgument::Type(argument)]
            }),
    {
        let mut text = String::from_str(name);
        text.append("<");
        text.append(argument.text.as_str());
        text.append(">");
        let mut arguments: Vec<GenericArgument> = Vec::new();
        arguments.push(GenericArgument::Type(argument));
        let mut segments: Vec<PathSegment> = Vec::new();
        segments.push(
            PathSegment {
                ident: String::from_str(name),
                arguments: PathArguments::AngleBracketed(arguments),
            },
        );
        TypeExpr { text, shape: TypeShape::Path(segments) }
    }

    /// A type whose structure synthesis does not look into, by its text.
    pub fn opaque(text: &str) -> (ty: TypeExpr)
        ensures
            ty.text@ == text@,
            ty.shape is Other,
    {
        TypeExpr { text: String::from_str(text), shape: TypeShape::Other }
    }
}

impl FnArg {
    /// A parameter bound to a simple name.
    pub fn simple(name: &str, ty: TypeExpr) -> (arg: FnArg)
        ensures
            arg matches FnArg::Typed { pat: Pattern::Ident(n), ty: t } && n@ == name@ && t == ty,
    {
        FnArg::Typed { pat: Pattern::Ident(String::from_str(name)), ty }
    }
}

} // verus!
