//! Every way in which a value object is refused, and which rule comes first.

use json::number::Number;
use value_expansion::{
    expand_value, Definitions, Entry, Error, ErrorCode, Keyword, RawValue, Reference, Term,
};

fn text(s: &str) -> RawValue {
    RawValue::String(s.to_string())
}

fn number(n: u32) -> RawValue {
    RawValue::Number(Number::from(n))
}

fn keyword(keyword: Keyword) -> Term {
    Term::Keyword(keyword)
}

fn context() -> Definitions {
    Definitions::new(vec![
        ("@json".to_string(), Term::Keyword(Keyword::Json)),
        ("@id".to_string(), Term::Keyword(Keyword::Id)),
        ("_:b0".to_string(), Term::Ref(Reference::Blank("_:b0".to_string()))),
        (
            "http://example.org/T".to_string(),
            Term::Ref(Reference::Iri("http://example.org/T".to_string())),
        ),
    ])
}

/// Expands the object with the payload `value` and one more entry.
fn expand_with(value: &RawValue, term: Term, payload: &RawValue) -> Result<(), ErrorCode> {
    let entries = vec![Entry { key: "key", term, value: payload }];
    match expand_value(None, &context(), entries, value) {
        Ok(_) => Ok(()),
        Err(error) => Err(error.code()),
    }
}

#[test]
fn array_payload_is_no_value() {
    let value = RawValue::Array(vec![number(1)]);
    let result = expand_value(None, &context(), Vec::new(), &value);
    assert_eq!(result, Err(Error::new(ErrorCode::InvalidValueObjectValue)));
}

#[test]
fn object_payload_is_no_value() {
    let value = RawValue::Object(vec![("a".to_string(), number(1))]);
    let result = expand_value(None, &context(), Vec::new(), &value);
    assert_eq!(result, Err(Error::new(ErrorCode::InvalidValueObjectValue)));
}

#[test]
fn object_payload_is_refused_before_its_type_is_read() {
    // Without the type known beforehand, the payload is judged first.
    let value = RawValue::Object(Vec::new());
    assert_eq!(
        expand_with(&value, keyword(Keyword::Type), &text("@json")),
        Err(ErrorCode::InvalidValueObjectValue)
    );
}

#[test]
fn other_input_type_does_not_admit_structures() {
    let value = RawValue::Array(Vec::new());
    let hints = vec![
        Term::Keyword(Keyword::Type),
        Term::Ref(Reference::Iri("http://example.org/T".to_string())),
        Term::Unresolved("@json".to_string()),
    ];
    for hint in hints {
        let result = expand_value(Some(hint), &context(), Vec::new(), &value);
        assert_eq!(result, Err(Error::new(ErrorCode::InvalidValueObjectValue)));
    }
}

#[test]
fn language_must_be_a_string() {
    let value = text("x");
    let payloads =
        [number(5), RawValue::Null, RawValue::Boolean(true), RawValue::Array(vec![text("en")])];
    for payload in payloads {
        assert_eq!(
            expand_with(&value, keyword(Keyword::Language), &payload),
            Err(ErrorCode::InvalidLanguageTaggedString)
        );
    }
}

#[test]
fn direction_must_be_ltr_or_rtl() {
    let value = text("x");
    for payload in [
        text("up"),
        text(""),
        text("LTR"),
        text("ltr "),
        text("lt"),
        number(1),
        RawValue::Null,
        RawValue::Array(vec![text("ltr")]),
    ] {
        assert_eq!(
            expand_with(&value, keyword(Keyword::Direction), &payload),
            Err(ErrorCode::InvalidBaseDirection)
        );
    }
    assert_eq!(expand_with(&value, keyword(Keyword::Direction), &text("ltr")), Ok(()));
    assert_eq!(expand_with(&value, keyword(Keyword::Direction), &text("rtl")), Ok(()));
}

#[test]
fn index_must_be_a_string() {
    let value = text("x");
    let payloads =
        [number(5), RawValue::Null, RawValue::Boolean(false), RawValue::Object(Vec::new())];
    for payload in payloads {
        assert_eq!(
            expand_with(&value, keyword(Keyword::Index), &payload),
            Err(ErrorCode::InvalidIndexValue)
        );
    }
    assert_eq!(expand_with(&value, keyword(Keyword::Index), &text("")), Ok(()));
}

#[test]
fn type_must_be_strings() {
    let value = text("x");
    for payload in [
        number(5),
        RawValue::Null,
        RawValue::Boolean(true),
        RawValue::Object(Vec::new()),
        RawValue::Array(vec![number(5)]),
        RawValue::Array(vec![text("http://example.org/T"), RawValue::Null]),
        RawValue::Array(vec![RawValue::Array(vec![text("http://example.org/T")])]),
    ] {
        assert_eq!(
            expand_with(&value, keyword(Keyword::Type), &payload),
            Err(ErrorCode::InvalidTypeValue)
        );
    }
}

#[test]
fn type_must_resolve_to_an_iri_or_json() {
    let value = text("x");
    for name in ["_:b0", "@id", "unknown", ""] {
        assert_eq!(
            expand_with(&value, keyword(Keyword::Type), &text(name)),
            Err(ErrorCode::InvalidTypedValue)
        );
    }
    assert_eq!(expand_with(&value, keyword(Keyword::Type), &text("http://example.org/T")), Ok(()));
    assert_eq!(expand_with(&value, keyword(Keyword::Type), &text("@json")), Ok(()));
}

#[test]
fn first_bad_type_member_decides() {
    let value = text("x");
    let unresolved_first = RawValue::Array(vec![text("unknown"), number(5)]);
    assert_eq!(
        expand_with(&value, keyword(Keyword::Type), &unresolved_first),
        Err(ErrorCode::InvalidTypedValue)
    );
    let number_first = RawValue::Array(vec![number(5), text("unknown")]);
    assert_eq!(
        expand_with(&value, keyword(Keyword::Type), &number_first),
        Err(ErrorCode::InvalidTypeValue)
    );
}

#[test]
fn only_value_object_keys_are_allowed() {
    let value = text("x");
    let payload = text("y");
    for term in [
        keyword(Keyword::Id),
        keyword(Keyword::Context),
        keyword(Keyword::Json),
        keyword(Keyword::NoneKeyword),
        keyword(Keyword::List),
        Term::Ref(Reference::Iri("http://example.org/p".to_string())),
        Term::Ref(Reference::Blank("_:b0".to_string())),
        Term::Unresolved("name".to_string()),
    ] {
        assert_eq!(expand_with(&value, term, &payload), Err(ErrorCode::InvalidValueObject));
    }
    assert_eq!(expand_with(&value, keyword(Keyword::Value), &payload), Ok(()));
}

#[test]
fn datatype_beside_language_is_refused() {
    let value = text("x");
    let datatype = text("http://example.org/T");
    let language = text("en");
    let direction = text("rtl");
    let with_language = vec![
        Entry { key: "@type", term: keyword(Keyword::Type), value: &datatype },
        Entry { key: "@language", term: keyword(Keyword::Language), value: &language },
    ];
    assert_eq!(
        expand_value(None, &context(), with_language, &value),
        Err(Error::new(ErrorCode::InvalidValueObject))
    );
    // The order of the entries makes no difference to this rule.
    let with_direction = vec![
        Entry { key: "@direction", term: keyword(Keyword::Direction), value: &direction },
        Entry { key: "@type", term: keyword(Keyword::Type), value: &datatype },
    ];
    assert_eq!(
        expand_value(None, &context(), with_direction, &value),
        Err(Error::new(ErrorCode::InvalidValueObject))
    );
}

#[test]
fn datatype_beside_language_on_a_number_is_an_invalid_object() {
    // Both rules are broken; the one on datatypes is looked at first.
    let value = number(1);
    let datatype = text("http://example.org/T");
    let language = text("en");
    let entries = vec![
        Entry { key: "@language", term: keyword(Keyword::Language), value: &language },
        Entry { key: "@type", term: keyword(Keyword::Type), value: &datatype },
    ];
    assert_eq!(
        expand_value(None, &context(), entries, &value),
        Err(Error::new(ErrorCode::InvalidValueObject))
    );
}

#[test]
fn language_on_a_non_string_is_refused() {
    let language = text("en");
    let direction = text("ltr");
    for value in [number(1), RawValue::Boolean(true)] {
        assert_eq!(
            expand_with(&value, keyword(Keyword::Language), &language),
            Err(ErrorCode::InvalidLanguageTaggedValue)
        );
        assert_eq!(
            expand_with(&value, keyword(Keyword::Direction), &direction),
            Err(ErrorCode::InvalidLanguageTaggedValue)
        );
    }
}

#[test]
fn language_on_a_json_literal_is_refused() {
    let value = text("x");
    let language = text("en");
    let entries =
        vec![Entry { key: "@language", term: keyword(Keyword::Language), value: &language }];
    let result = expand_value(Some(keyword(Keyword::Json)), &context(), entries, &value);
    assert_eq!(result, Err(Error::new(ErrorCode::InvalidLanguageTaggedValue)));
}

#[test]
fn first_bad_entry_decides() {
    let value = text("x");
    let five = number(5);
    let index_first = vec![
        Entry { key: "@index", term: keyword(Keyword::Index), value: &five },
        Entry { key: "@language", term: keyword(Keyword::Language), value: &five },
    ];
    assert_eq!(
        expand_value(None, &context(), index_first, &value),
        Err(Error::new(ErrorCode::InvalidIndexValue))
    );
    let language_first = vec![
        Entry { key: "@language", term: keyword(Keyword::Language), value: &five },
        Entry { key: "@index", term: keyword(Keyword::Index), value: &five },
    ];
    assert_eq!(
        expand_value(None, &context(), language_first, &value),
        Err(Error::new(ErrorCode::InvalidLanguageTaggedString))
    );
}

#[test]
fn bad_entry_is_refused_even_where_the_value_is_null() {
    let value = RawValue::Null;
    assert_eq!(
        expand_with(&value, keyword(Keyword::Index), &number(5)),
        Err(ErrorCode::InvalidIndexValue)
    );
    assert_eq!(
        expand_with(&value, Term::Unresolved("x".to_string()), &number(5)),
        Err(ErrorCode::InvalidValueObject)
    );
}

#[test]
fn error_carries_its_code() {
    let error = Error::new(ErrorCode::InvalidTypedValue);
    assert_eq!(error.code(), ErrorCode::InvalidTypedValue);
    assert_eq!(error.code, ErrorCode::InvalidTypedValue);
    assert_eq!(Error::from(ErrorCode::InvalidTypeValue), Error::new(ErrorCode::InvalidTypeValue));
    assert_ne!(Error::new(ErrorCode::InvalidTypeValue), Error::new(ErrorCode::InvalidTypedValue));
}
