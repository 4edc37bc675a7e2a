use derive_error::artifact::{Arm, Artifact, Block, Conversion, DeriveError, Expr, Pattern};
use derive_error::generate::Error;
use derive_error::input::{
    Attribute, Body, Generics, Literal, NamedField, NestedItem, TypeDescription, Variant,
    VariantData,
};

fn s(t: &str) -> String {
    t.to_string()
}

fn no_generics() -> Generics {
    Generics { impl_generics: s(""), ty_generics: s(""), where_clause: s("") }
}

fn union(name: &str, attrs: Vec<Attribute>, variants: Vec<Variant>) -> TypeDescription {
    TypeDescription { ident: s(name), attrs, generics: no_generics(), body: Body::Enum(variants) }
}

fn case(name: &str, attrs: Vec<Attribute>, data: VariantData) -> Variant {
    Variant { ident: s(name), attrs, data }
}

fn doc(text: &str) -> Attribute {
    Attribute::Doc(s(text))
}

fn error_attr(items: Vec<NestedItem>) -> Attribute {
    Attribute::List(s("error"), items)
}

fn word(w: &str) -> NestedItem {
    NestedItem::Word(s(w))
}

fn msg(m: &str) -> NestedItem {
    NestedItem::NameValue(s("msg"), Literal::Str(s(m)))
}

fn wraps(ty: &str) -> VariantData {
    VariantData::Tuple(vec![s(ty)])
}

fn derive(d: TypeDescription) -> Result<Artifact, DeriveError> {
    Error::new(d).derive()
}

fn arms(b: &Block) -> &Vec<Arm> {
    match b {
        Block::Dispatch(arms) => arms,
        Block::Direct(_) => panic!("expected a dispatch"),
    }
}

fn message(m: &str) -> Expr {
    Expr::Message(s(m))
}

#[test]
fn error_behaviour() {
    let d = union("_Error", vec![], vec![case("Msg", vec![], VariantData::Unit)]);
    let a = derive(d).unwrap();
    assert_eq!(arms(&a.display).len(), 1);
    assert_eq!(arms(&a.display)[0].case_ident, "Msg");
}

#[test]
fn case_name_becomes_label() {
    let d = union("_Error2", vec![], vec![case("ErrorKind1", vec![], VariantData::Unit)]);
    let a = derive(d).unwrap();
    assert_eq!(arms(&a.display)[0].expr, message("error kind1"));
    assert_eq!(arms(&a.description)[0].expr, message("error kind1"));
    assert_eq!(arms(&a.cause)[0].expr, Expr::NoCause);
    assert!(a.conversions.is_empty());
}

#[test]
fn doc_comment_becomes_message() {
    let d = union(
        "_Error4",
        vec![],
        vec![case("ErrorKind1", vec![doc("/// Custom error")], VariantData::Unit)],
    );
    let a = derive(d).unwrap();
    assert_eq!(arms(&a.display)[0].expr, message("Custom error"));
}

#[test]
fn std_error_member_delegates() {
    let d = union(
        "_Error2",
        vec![],
        vec![
            case("ErrorKind1", vec![], VariantData::Unit),
            case("ErrorKind2", vec![], wraps("io::Error")),
        ],
    );
    let a = derive(d).unwrap();
    let second = &arms(&a.description)[1];
    assert_eq!(second.case_ident, "ErrorKind2");
    assert_eq!(second.pattern, Pattern::Tuple);
    assert_eq!(second.expr, Expr::MemberDescription);
    assert_eq!(arms(&a.cause)[1].expr, Expr::MemberCause);
    assert_eq!(arms(&a.cause)[0].expr, Expr::NoCause);
    assert_eq!(arms(&a.display)[1].expr, message("error kind2"));
    assert_eq!(
        a.conversions,
        vec![Conversion { case_ident: s("ErrorKind2"), pattern: Pattern::Tuple, source_ty: s("io::Error") }]
    );
}

#[test]
fn non_std_member_with_message() {
    let d = union(
        "E",
        vec![],
        vec![case(
            "Format",
            vec![error_attr(vec![word("non_std"), msg("format error")])],
            wraps("fmt::Error"),
        )],
    );
    let a = derive(d).unwrap();
    assert_eq!(arms(&a.display)[0].expr, message("format error"));
    assert_eq!(arms(&a.description)[0].expr, message("format error"));
    assert_eq!(arms(&a.cause)[0].expr, Expr::NoCause);
    assert_eq!(a.conversions.len(), 1);
}

#[test]
fn generating_twice_gives_the_same_artifact() {
    let d = union(
        "_Error4",
        vec![doc("/// Custom error")],
        vec![
            case("ErrorKind1", vec![doc("/// First error kind")], VariantData::Unit),
            case("ErrorKind2", vec![doc("/// IO error")], wraps("io::Error")),
        ],
    );
    let first = derive(d.clone()).unwrap();
    let second = derive(d).unwrap();
    assert_eq!(first, second);
}

#[test]
fn every_case_has_a_branch_in_order() {
    let d = union(
        "_Error4",
        vec![doc("/// Custom error")],
        vec![
            case("ErrorKind1", vec![doc("/// First error kind")], VariantData::Unit),
            case("ErrorKind2", vec![doc("/// IO error")], wraps("io::Error")),
            case(
                "ErrorKind3",
                vec![doc("/// Format error")],
                VariantData::Struct(vec![NamedField { ident: s("error"), ty: s("fmt::Error") }]),
            ),
        ],
    );
    let a = derive(d).unwrap();
    for block in [&a.display, &a.description, &a.cause] {
        let names: Vec<&str> = arms(block).iter().map(|arm| arm.case_ident.as_str()).collect();
        assert_eq!(names, vec!["ErrorKind1", "ErrorKind2", "ErrorKind3"]);
    }
    assert_eq!(arms(&a.display)[0].expr, message("First error kind"));
    assert_eq!(arms(&a.display)[1].expr, message("IO error"));
    assert_eq!(arms(&a.display)[2].expr, message("Format error"));
    assert_eq!(arms(&a.cause)[2].pattern, Pattern::Struct(s("error")));
    assert_eq!(a.conversions.len(), 2);
    assert_eq!(a.conversions[1].pattern, Pattern::Struct(s("error")));
    assert_eq!(a.conversions[1].source_ty, "fmt::Error");
    assert_eq!(a.ident, "_Error4");
}

#[test]
fn union_without_cases_is_refused() {
    let d = union("_Error1", vec![], vec![]);
    assert_eq!(derive(d), Err(DeriveError::NoVariants(s("_Error1"))));
}

#[test]
fn case_with_two_members_is_refused() {
    let d = union(
        "E",
        vec![],
        vec![
            case("Fine", vec![], VariantData::Unit),
            case("Pair", vec![], VariantData::Tuple(vec![s("u8"), s("u8")])),
        ],
    );
    assert_eq!(derive(d), Err(DeriveError::TooManyMembers(s("Pair"))));
    let named = VariantData::Struct(vec![
        NamedField { ident: s("a"), ty: s("u8") },
        NamedField { ident: s("b"), ty: s("u8") },
    ]);
    let d = union("E", vec![], vec![case("Both", vec![], named)]);
    assert_eq!(derive(d), Err(DeriveError::TooManyMembers(s("Both"))));
}

#[test]
fn msg_with_msg_embedded_is_refused() {
    let d = union(
        "E",
        vec![],
        vec![case("Text", vec![error_attr(vec![word("msg_embedded"), msg("x")])], wraps("String"))],
    );
    assert_eq!(derive(d), Err(DeriveError::MsgConflict(s("Text"))));
}

#[test]
fn explicit_message_wins_over_doc_and_name() {
    let d = union(
        "E",
        vec![],
        vec![
            case("First", vec![doc("/// Documented"), error_attr(vec![msg("explicit")])], VariantData::Unit),
            case("SecondKind", vec![doc("/// Documented")], VariantData::Unit),
            case("ThirdKind", vec![], VariantData::Unit),
        ],
    );
    let a = derive(d).unwrap();
    assert_eq!(arms(&a.display)[0].expr, message("explicit"));
    assert_eq!(arms(&a.display)[1].expr, message("Documented"));
    assert_eq!(arms(&a.display)[2].expr, message("third kind"));
}

#[test]
fn first_paragraph_of_doc_only() {
    let attrs = vec![
        doc("///   First line"),
        doc("/// continues"),
        doc("///"),
        doc("/// Second paragraph"),
    ];
    let d = union("E", vec![], vec![case("A", attrs, VariantData::Unit)]);
    let a = derive(d).unwrap();
    assert_eq!(arms(&a.display)[0].expr, message("First line continues"));
}

#[test]
fn leading_blank_doc_lines_are_skipped() {
    let attrs = vec![doc("///"), doc("/** Block doc\n   more */")];
    let d = union("E", vec![], vec![case("A", attrs, VariantData::Unit)]);
    let a = derive(d).unwrap();
    assert_eq!(arms(&a.display)[0].expr, message("/** Block doc   more */"));
}

#[test]
fn embedded_message_uses_the_member() {
    let d = union(
        "E",
        vec![],
        vec![case("Text", vec![error_attr(vec![word("msg_embedded")])], wraps("String"))],
    );
    let a = derive(d).unwrap();
    assert_eq!(arms(&a.display)[0].expr, Expr::MemberText);
    assert_eq!(arms(&a.description)[0].expr, Expr::MemberText);
    assert_eq!(arms(&a.cause)[0].expr, Expr::MemberCause);
}

#[test]
fn embedded_message_without_std() {
    let d = union(
        "E",
        vec![],
        vec![case(
            "Text",
            vec![error_attr(vec![word("msg_embedded"), word("non_std"), word("no_from")])],
            wraps("String"),
        )],
    );
    let a = derive(d).unwrap();
    assert_eq!(arms(&a.description)[0].expr, Expr::MemberText);
    assert_eq!(arms(&a.cause)[0].expr, Expr::NoCause);
    assert!(a.conversions.is_empty());
}

#[test]
fn no_from_suppresses_conversion() {
    let d = union(
        "E",
        vec![],
        vec![case("Io", vec![error_attr(vec![word("no_from")])], wraps("io::Error"))],
    );
    let a = derive(d).unwrap();
    assert!(a.conversions.is_empty());
    assert_eq!(arms(&a.description)[0].expr, Expr::MemberDescription);
}

#[test]
fn unknown_options_and_other_attributes_are_ignored() {
    let attrs = vec![
        error_attr(vec![word("whatever"), NestedItem::Other]),
        Attribute::List(s("serde"), vec![word("no_from")]),
        Attribute::Other,
    ];
    let d = union("E", vec![], vec![case("Io", attrs, wraps("io::Error"))]);
    let a = derive(d).unwrap();
    assert_eq!(a.conversions.len(), 1);
    assert_eq!(arms(&a.cause)[0].expr, Expr::MemberCause);
}

#[test]
fn non_string_msg_is_refused() {
    let d = union(
        "E",
        vec![],
        vec![case(
            "Bad",
            vec![error_attr(vec![NestedItem::NameValue(s("msg"), Literal::Other)])],
            VariantData::Unit,
        )],
    );
    assert_eq!(derive(d), Err(DeriveError::MsgNotString(s("Bad"))));
}

#[test]
fn cases_without_members_in_brackets_are_refused() {
    let d = union("E", vec![], vec![case("Io", vec![], VariantData::Tuple(vec![]))]);
    assert_eq!(derive(d), Err(DeriveError::EmptyTupleCase(s("Io"))));
    let d = union("E", vec![], vec![case("Io", vec![], VariantData::Struct(vec![]))]);
    assert_eq!(derive(d), Err(DeriveError::EmptyStructCase(s("Io"))));
}

#[test]
fn first_refused_case_is_reported() {
    let d = union(
        "E",
        vec![],
        vec![
            case("Empty", vec![], VariantData::Tuple(vec![])),
            case("Pair", vec![], VariantData::Tuple(vec![s("u8"), s("u8")])),
        ],
    );
    assert_eq!(derive(d), Err(DeriveError::EmptyTupleCase(s("Empty"))));
}

#[test]
fn unit_struct_has_a_fixed_message() {
    let d = TypeDescription {
        ident: s("_Error1"),
        attrs: vec![],
        generics: no_generics(),
        body: Body::Struct(VariantData::Unit),
    };
    let a = derive(d).unwrap();
    assert_eq!(a.display, Block::Direct(message("error1")));
    assert_eq!(a.description, Block::Direct(message("error1")));
    assert_eq!(a.cause, Block::Direct(Expr::NoCause));
    assert!(a.conversions.is_empty());
}

#[test]
fn documented_unit_struct() {
    let d = TypeDescription {
        ident: s("Failure"),
        attrs: vec![doc("/// Something failed ")],
        generics: Generics { impl_generics: s("<T>"), ty_generics: s("<T>"), where_clause: s("") },
        body: Body::Struct(VariantData::Tuple(vec![])),
    };
    let a = derive(d).unwrap();
    assert_eq!(a.display, Block::Direct(message("Something failed")));
    assert_eq!(a.generics.impl_generics, "<T>");
}

#[test]
fn struct_with_members_is_refused() {
    let d = TypeDescription {
        ident: s("Wrapper"),
        attrs: vec![],
        generics: no_generics(),
        body: Body::Struct(VariantData::Tuple(vec![s("io::Error")])),
    };
    assert_eq!(derive(d), Err(DeriveError::StructWithFields(s("Wrapper"))));
}

#[test]
fn same_member_type_twice_gives_two_conversions() {
    let d = union(
        "E",
        vec![],
        vec![case("Read", vec![], wraps("io::Error")), case("Write", vec![], wraps("io::Error"))],
    );
    let a = derive(d).unwrap();
    let targets: Vec<&str> = a.conversions.iter().map(|c| c.case_ident.as_str()).collect();
    assert_eq!(targets, vec!["Read", "Write"]);
}

#[test]
fn failure_messages_name_the_culprit() {
    assert_eq!(DeriveError::NoVariants(s("E")).message(), "E has no variants");
    assert_eq!(
        DeriveError::MsgConflict(s("Text")).message(),
        "Text can't have both error `msg` and `msg_embedded` set"
    );
    assert_eq!(
        DeriveError::EmptyTupleCase(s("Io")).message(),
        "Io looks awkward with no fields. Did you mean to add a type, eg. `Io(::std::io::Error)` but forgot?"
    );
    assert_eq!(
        DeriveError::MsgNotString(s("Bad")).message(),
        "Bad does not have a string value for `msg`"
    );
}

#[test]
fn whitespace_only_doc_falls_back_to_label() {
    let d = union("E", vec![], vec![case("ErrorKind1", vec![doc("/// ")], VariantData::Unit)]);
    let a = derive(d).unwrap();
    assert_eq!(arms(&a.display)[0].expr, message("error kind1"));
}

#[test]
fn whitespace_only_doc_line_ends_paragraph() {
    let attrs = vec![doc("/// A"), doc("/// "), doc("/// B")];
    let d = union("E", vec![], vec![case("Kind", attrs, VariantData::Unit)]);
    let a = derive(d).unwrap();
    assert_eq!(arms(&a.display)[0].expr, message("A"));
}
