use derive_error::input::{Attribute, Literal, NestedItem, Variant, VariantData};
use derive_error::message::{title, trimmed};
use derive_error::text::{label_str, split_lines, strip_marker, join_words, text_is};

#[test]
fn labels_from_identifiers() {
    assert_eq!(label_str("ErrorKind1"), "error kind1");
    assert_eq!(label_str("ErrorKindTwo"), "error kind two");
    assert_eq!(label_str("_Error1"), "error1");
    assert_eq!(label_str("io"), "io");
    assert_eq!(label_str("Foo_Bar"), "foo bar");
    assert_eq!(label_str("Error_kind__two"), "error kind two");
}

#[test]
fn labels_lowercase_beyond_ascii() {
    assert_eq!(label_str("ÀBc"), "à bc");
}

#[test]
fn trimming_titles() {
    assert_eq!(trimmed(Some("  hi there \t".to_string())), Some("hi there".to_string()));
    assert_eq!(trimmed(None), None);
}

#[test]
fn doc_marker_stripping() {
    assert_eq!(strip_marker("/// text"), " text");
    assert_eq!(strip_marker("//////x"), "x");
    assert_eq!(strip_marker("////x"), "/x");
    assert_eq!(strip_marker("plain"), "plain");
}

#[test]
fn line_splitting() {
    assert_eq!(split_lines("a\r\nb\n\nc"), vec!["a", "b", "", "c"]);
    assert_eq!(split_lines("x\n"), vec!["x"]);
    assert!(split_lines("").is_empty());
    assert_eq!(split_lines("\n"), vec![""]);
}

#[test]
fn underscores_and_equality() {
    assert_eq!(join_words("a_b__c"), "a b c");
    assert_eq!(join_words("__a_"), "a");
    assert_eq!(join_words("___"), "");
    assert!(text_is("error", "error"));
    assert!(!text_is("error", "errors"));
}

#[test]
fn titles_from_doc_attributes() {
    let attrs = vec![Attribute::Other, Attribute::Doc("/// One".to_string()), Attribute::Doc("/// two".to_string())];
    assert_eq!(title(&attrs), Some("One two".to_string()));
    assert_eq!(title(&vec![Attribute::Other]), None);
}

#[test]
fn case_configuration() {
    let v = Variant {
        ident: "Io".to_string(),
        attrs: vec![Attribute::List(
            "error".to_string(),
            vec![
                NestedItem::Word("no_from".to_string()),
                NestedItem::Word("non_std".to_string()),
                NestedItem::NameValue("msg".to_string(), Literal::Str("io failed".to_string())),
            ],
        )],
        data: VariantData::Tuple(vec!["io::Error".to_string()]),
    };
    let info = v.info().unwrap();
    assert!(!info.from);
    assert!(!info.std_error);
    assert!(!info.msg_embedded);
    assert_eq!(info.msg, Some("io failed".to_string()));
}

#[test]
fn whitespace_only_doc_lines_are_blank() {
    assert_eq!(title(&vec![Attribute::Doc("/// ".to_string())]), None);
    let attrs = vec![
        Attribute::Doc("/// A".to_string()),
        Attribute::Doc("///   ".to_string()),
        Attribute::Doc("/// B".to_string()),
    ];
    assert_eq!(title(&attrs), Some("A".to_string()));
}
