use zephyrus::attr::{parse_attribute, Attr, AttrError, Lit, Meta, NestedMeta, Value};

fn ident(name: &str) -> Value {
    Value::Ident(name.to_string())
}

fn string(content: &str) -> Value {
    Value::Lit(Lit::Str(content.to_string()))
}

fn attr(values: Vec<Value>) -> Attr {
    Attr::new("some".to_string(), values)
}

#[test]
fn parse_value_wants_exactly_one_value() {
    let pick = |value: &Value| match value {
        Value::Ident(name) => Ok(name.len()),
        Value::Lit(_) => Err(AttrError::NotIdentifier),
    };
    assert_eq!(attr(vec![]).parse_value(pick), Err(AttrError::Empty));
    assert_eq!(attr(vec![ident("a"), ident("b")]).parse_value(pick), Err(AttrError::TooMany));
    assert_eq!(attr(vec![ident("abc")]).parse_value(pick), Ok(3));
    assert_eq!(attr(vec![string("abc")]).parse_value(pick), Err(AttrError::NotIdentifier));
}

#[test]
fn parse_all_takes_identifiers_and_strings() {
    assert_eq!(
        attr(vec![ident("a"), string("b"), ident("c")]).parse_all(),
        Ok(vec!["a".to_string(), "b".to_string(), "c".to_string()])
    );
    assert_eq!(attr(vec![]).parse_all(), Ok(vec![]));
    assert_eq!(
        attr(vec![ident("a"), Value::Lit(Lit::Bool(true)), Value::Lit(Lit::Other)]).parse_all(),
        Err(AttrError::NotSupported(1))
    );
}

#[test]
fn parse_identifiers_forbids_literals() {
    assert_eq!(
        attr(vec![ident("a"), ident("b")]).parse_identifiers(),
        Ok(vec!["a".to_string(), "b".to_string()])
    );
    assert_eq!(
        attr(vec![ident("a"), ident("b"), string("c"), string("d")]).parse_identifiers(),
        Err(AttrError::LiteralsForbidden(2))
    );
}

#[test]
fn parse_identifier_wants_one_identifier() {
    assert_eq!(attr(vec![ident("a")]).parse_identifier(), Ok("a".to_string()));
    assert_eq!(attr(vec![string("a")]).parse_identifier(), Err(AttrError::NotIdentifier));
    assert_eq!(attr(vec![]).parse_identifier(), Err(AttrError::Empty));
    assert_eq!(attr(vec![ident("a"), ident("b")]).parse_identifier(), Err(AttrError::TooMany));
}

#[test]
fn parse_string_wants_one_string_literal() {
    assert_eq!(attr(vec![string("a b")]).parse_string(), Ok("a b".to_string()));
    assert_eq!(attr(vec![ident("a")]).parse_string(), Err(AttrError::NotString));
    assert_eq!(attr(vec![Value::Lit(Lit::Bool(true))]).parse_string(), Err(AttrError::NotString));
    assert_eq!(attr(vec![]).parse_string(), Err(AttrError::Empty));
    assert_eq!(attr(vec![string("a"), string("b")]).parse_string(), Err(AttrError::TooMany));
}

#[test]
fn parse_bool_wants_one_boolean_literal() {
    assert_eq!(attr(vec![Value::Lit(Lit::Bool(true))]).parse_bool(), Ok(true));
    assert_eq!(attr(vec![Value::Lit(Lit::Bool(false))]).parse_bool(), Ok(false));
    assert_eq!(attr(vec![string("true")]).parse_bool(), Err(AttrError::NotBoolean));
    assert_eq!(attr(vec![Value::Lit(Lit::Other)]).parse_bool(), Err(AttrError::NotBoolean));
    assert_eq!(attr(vec![]).parse_bool(), Err(AttrError::Empty));
    assert_eq!(
        attr(vec![Value::Lit(Lit::Bool(true)), Value::Lit(Lit::Bool(true))]).parse_bool(),
        Err(AttrError::TooMany)
    );
}

#[test]
fn parse_attribute_reads_the_three_forms() {
    assert_eq!(
        parse_attribute(&Meta::Path("some".to_string())),
        Ok(Attr { path: "some".to_string(), values: vec![] })
    );
    assert_eq!(
        parse_attribute(&Meta::NameValue("name".to_string(), Lit::Str("x".to_string()))),
        Ok(Attr { path: "name".to_string(), values: vec![string("x")] })
    );
    assert_eq!(
        parse_attribute(&Meta::List(
            "checks".to_string(),
            vec![
                NestedMeta::Ident("a".to_string()),
                NestedMeta::Lit(Lit::Bool(true)),
                NestedMeta::Lit(Lit::Str("b".to_string())),
            ]
        )),
        Ok(Attr {
            path: "checks".to_string(),
            values: vec![ident("a"), Value::Lit(Lit::Bool(true)), string("b")]
        })
    );
    assert_eq!(
        parse_attribute(&Meta::List("checks".to_string(), vec![])),
        Ok(Attr { path: "checks".to_string(), values: vec![] })
    );
}

#[test]
fn parse_attribute_rejects_nested_lists() {
    assert_eq!(
        parse_attribute(&Meta::List(
            "checks".to_string(),
            vec![NestedMeta::Ident("a".to_string()), NestedMeta::Other, NestedMeta::Other]
        )),
        Err(AttrError::NestedUnsupported(1))
    );
}

#[test]
fn attribute_errors_have_their_messages() {
    assert_eq!(AttrError::Empty.message(), "Attribute input must not be empty");
    assert_eq!(
        AttrError::TooMany.message(),
        "Attribute input must not exceed more than one argument"
    );
    assert_eq!(AttrError::NotSupported(0).message(), "Not supported");
    assert_eq!(AttrError::LiteralsForbidden(0).message(), "Literals are forbidden");
    assert_eq!(AttrError::NotIdentifier.message(), "Argument must be an identifier");
    assert_eq!(AttrError::NotString.message(), "Argument must be a string");
    assert_eq!(AttrError::NotBoolean.message(), "Argument must be a boolean");
    assert_eq!(
        AttrError::NestedUnsupported(0).message(),
        "Nested lists or name values are not supported"
    );
    assert_eq!(Lit::Str("a".to_string()).copy(), Lit::Str("a".to_string()));
}
