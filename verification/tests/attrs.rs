use vesper::{AttrVal, Attribute, Ident, PlainAttr};

fn ident(s: &str) -> Ident {
    Ident::from_str(s).unwrap()
}

#[test]
fn named_and_unnamed_attributes() {
    let named = PlainAttr { name: Some(ident("size")), value: AttrVal::Expr("10".to_string()) };
    assert!(named.is_named());
    assert_eq!(named.name().unwrap().to_text(), "size");
    assert_eq!(named.value().to_text(), "10");

    let unnamed = PlainAttr { name: None, value: AttrVal::Ident(ident("int32")) };
    assert!(!unnamed.is_named());
    assert!(unnamed.name().is_none());
    assert_eq!(unnamed.value().to_text(), "int32");
}

#[test]
fn attr_values_print_verbatim() {
    let expr: AttrVal<String> = AttrVal::Expr("a + b".to_string());
    assert_eq!(expr.to_text(), "a + b");
    let id: AttrVal<String> = AttrVal::Ident(ident("name_1"));
    assert_eq!(id.to_text(), "name_1");
}
