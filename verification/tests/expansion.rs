//! What valid value objects expand to.

use json::number::Number;
use value_expansion::{
    expand_value, Definitions, Direction, Entry, Indexed, Keyword, LangString, Literal, RawValue,
    Reference, Term, TypeSet, Value,
};

fn text(s: &str) -> RawValue {
    RawValue::String(s.to_string())
}

fn keyword(keyword: Keyword) -> Term {
    Term::Keyword(keyword)
}

fn iri(name: &str) -> (String, Term) {
    (name.to_string(), Term::Ref(Reference::Iri(name.to_string())))
}

fn context() -> Definitions {
    Definitions::new(vec![
        ("@json".to_string(), Term::Keyword(Keyword::Json)),
        iri("http://example.org/A"),
        iri("http://example.org/B"),
        ("B".to_string(), Term::Ref(Reference::Iri("http://example.org/B".to_string()))),
    ])
}

fn types(names: &[&str]) -> TypeSet {
    let mut set = TypeSet::new();
    for name in names {
        set.insert(name.to_string());
    }
    set
}

fn plain(literal: Literal) -> Option<Indexed<Value>> {
    Some(Indexed::new(Value::TypedLiteral(literal, TypeSet::new()), None))
}

#[test]
fn scalars_become_plain_literals() {
    let cases = vec![
        (text("hello"), Literal::String("hello".to_string())),
        (text(""), Literal::String(String::new())),
        (RawValue::Boolean(true), Literal::Boolean(true)),
        (RawValue::Boolean(false), Literal::Boolean(false)),
        (RawValue::Number(Number::from(0u32)), Literal::Number(Number::from(0u32))),
        (RawValue::Number(Number::from(-7i32)), Literal::Number(Number::from(-7i32))),
    ];
    for (value, literal) in cases {
        let result = expand_value(None, &context(), Vec::new(), &value);
        assert_eq!(result, Ok(plain(literal)));
    }
}

#[test]
fn number_is_kept_exactly() {
    // 0.1 as the digits 1 and the exponent -1; nothing is rounded on the way.
    let tenth = Number::from_parts(true, 1, -1);
    let value = RawValue::Number(tenth);
    let result = expand_value(None, &context(), Vec::new(), &value);
    let expanded = result.expect("a valid object").expect("a value");
    match expanded.inner() {
        Value::TypedLiteral(Literal::Number(number), _) => {
            assert_eq!(number.as_parts(), (true, 1, -1));
        }
        other => panic!("unexpected value {:?}", other),
    }
    // A large mantissa survives too.
    let large = Number::from_parts(false, u64::MAX, 300);
    let value = RawValue::Number(large);
    let result = expand_value(None, &context(), Vec::new(), &value);
    let expanded = result.expect("a valid object").expect("a value");
    match expanded.inner() {
        Value::TypedLiteral(Literal::Number(number), _) => {
            assert_eq!(number.as_parts(), (false, u64::MAX, 300));
        }
        other => panic!("unexpected value {:?}", other),
    }
}

#[test]
fn value_entry_is_passed_over() {
    let value = text("x");
    let other = RawValue::Array(Vec::new());
    // Whatever stands under an `@value` entry, the payload handed over counts.
    let entries = vec![
        Entry { key: "@value", term: keyword(Keyword::Value), value: &other },
        Entry { key: "@value", term: keyword(Keyword::Value), value: &value },
    ];
    let result = expand_value(None, &context(), entries, &value);
    assert_eq!(result, Ok(plain(Literal::String("x".to_string()))));
}

#[test]
fn index_is_attached() {
    let value = text("x");
    let index = text("chapter-1");
    let entries = vec![Entry { key: "@index", term: keyword(Keyword::Index), value: &index }];
    let result = expand_value(None, &context(), entries, &value);
    let expected = Indexed::new(
        Value::TypedLiteral(Literal::String("x".to_string()), TypeSet::new()),
        Some("chapter-1".to_string()),
    );
    assert_eq!(result, Ok(Some(expected)));
}

#[test]
fn index_is_attached_to_a_language_tagged_string() {
    let value = text("x");
    let index = text("i");
    let language = text("fr");
    let entries = vec![
        Entry { key: "@index", term: keyword(Keyword::Index), value: &index },
        Entry { key: "@language", term: keyword(Keyword::Language), value: &language },
    ];
    let result = expand_value(None, &context(), entries, &value);
    let expected = Indexed::new(
        Value::LangString(LangString::new("x".to_string(), Some("fr".to_string()), None)),
        Some("i".to_string()),
    );
    assert_eq!(result, Ok(Some(expected)));
}

#[test]
fn direction_alone_makes_a_language_tagged_string() {
    let value = text("x");
    for (name, direction) in [("ltr", Direction::LeftToRight), ("rtl", Direction::RightToLeft)] {
        let payload = text(name);
        let entries =
            vec![Entry { key: "@direction", term: keyword(Keyword::Direction), value: &payload }];
        let result = expand_value(None, &context(), entries, &value);
        let expected = Indexed::new(
            Value::LangString(LangString::new("x".to_string(), None, Some(direction))),
            None,
        );
        assert_eq!(result, Ok(Some(expected)));
    }
}

#[test]
fn language_and_direction_go_together() {
    let value = text("مرحبا");
    let language = text("ar");
    let direction = text("rtl");
    let entries = vec![
        Entry { key: "@direction", term: keyword(Keyword::Direction), value: &direction },
        Entry { key: "@language", term: keyword(Keyword::Language), value: &language },
    ];
    let result = expand_value(None, &context(), entries, &value);
    let expected = Indexed::new(
        Value::LangString(LangString::new(
            "مرحبا".to_string(),
            Some("ar".to_string()),
            Some(Direction::RightToLeft),
        )),
        None,
    );
    assert_eq!(result, Ok(Some(expected)));
}

#[test]
fn language_tag_is_taken_as_it_is() {
    // Neither well-formedness nor case is looked at.
    let value = text("x");
    for tag in ["EN-us", "not a language tag!", "", "@None", "none"] {
        let payload = text(tag);
        let entries =
            vec![Entry { key: "@language", term: keyword(Keyword::Language), value: &payload }];
        let result = expand_value(None, &context(), entries, &value);
        let expected = Indexed::new(
            Value::LangString(LangString::new("x".to_string(), Some(tag.to_string()), None)),
            None,
        );
        assert_eq!(result, Ok(Some(expected)));
    }
}

#[test]
fn language_none_on_a_number_is_no_language() {
    let value = RawValue::Number(Number::from(3u32));
    let payload = text("@none");
    let entries =
        vec![Entry { key: "@language", term: keyword(Keyword::Language), value: &payload }];
    let result = expand_value(None, &context(), entries, &value);
    assert_eq!(result, Ok(plain(Literal::Number(Number::from(3u32)))));
}

#[test]
fn later_entry_overwrites_earlier_one() {
    let value = text("x");
    let (en, de, none) = (text("en"), text("de"), text("@none"));
    let (ltr, rtl) = (text("ltr"), text("rtl"));
    let (first, second) = (text("first"), text("second"));
    let entries = vec![
        Entry { key: "@language", term: keyword(Keyword::Language), value: &en },
        Entry { key: "@direction", term: keyword(Keyword::Direction), value: &ltr },
        Entry { key: "@index", term: keyword(Keyword::Index), value: &first },
        Entry { key: "@language", term: keyword(Keyword::Language), value: &de },
        Entry { key: "@direction", term: keyword(Keyword::Direction), value: &rtl },
        Entry { key: "@index", term: keyword(Keyword::Index), value: &second },
        // "@none" sets nothing, so the language seen before it stays.
        Entry { key: "@language", term: keyword(Keyword::Language), value: &none },
    ];
    let result = expand_value(None, &context(), entries, &value);
    let expected = Indexed::new(
        Value::LangString(LangString::new(
            "x".to_string(),
            Some("de".to_string()),
            Some(Direction::RightToLeft),
        )),
        Some("second".to_string()),
    );
    assert_eq!(result, Ok(Some(expected)));
}

#[test]
fn types_are_collected_as_a_set() {
    let value = text("x");
    let first = RawValue::Array(vec![text("http://example.org/A"), text("B")]);
    let second = text("http://example.org/B");
    let third = RawValue::Array(vec![text("http://example.org/A")]);
    let entries = vec![
        Entry { key: "@type", term: keyword(Keyword::Type), value: &first },
        Entry { key: "@type", term: keyword(Keyword::Type), value: &second },
        Entry { key: "@type", term: keyword(Keyword::Type), value: &third },
    ];
    let result = expand_value(None, &context(), entries, &value);
    let expanded = result.expect("a valid object").expect("a value");
    match expanded.inner() {
        Value::TypedLiteral(literal, found) => {
            assert_eq!(literal, &Literal::String("x".to_string()));
            assert_eq!(found.len(), 2);
            assert!(found.contains("http://example.org/A"));
            assert!(found.contains("http://example.org/B"));
            assert!(!found.contains("B"));
            // The order in which the types came makes no difference.
            assert_eq!(found, &types(&["http://example.org/B", "http://example.org/A"]));
            assert_eq!(found, &types(&["http://example.org/A", "http://example.org/B"]));
            assert_ne!(found, &types(&["http://example.org/A"]));
        }
        other => panic!("unexpected value {:?}", other),
    }
}

#[test]
fn empty_type_array_declares_nothing() {
    let value = text("x");
    let none = RawValue::Array(Vec::new());
    let entries = vec![Entry { key: "@type", term: keyword(Keyword::Type), value: &none }];
    let result = expand_value(None, &context(), entries, &value);
    assert_eq!(result, Ok(plain(Literal::String("x".to_string()))));
}

#[test]
fn json_type_in_the_entries_keeps_a_scalar_as_json() {
    // Declared beside the value, not known beforehand: the scalar passes the
    // first look and is kept as a structured value.
    let value = text("x");
    let datatype = text("@json");
    let entries = vec![Entry { key: "@type", term: keyword(Keyword::Type), value: &datatype }];
    let result = expand_value(None, &context(), entries, &value);
    assert_eq!(result, Ok(plain(Literal::Json(text("x")))));
}

#[test]
fn json_type_among_other_types() {
    let value = RawValue::Boolean(true);
    let datatypes = RawValue::Array(vec![text("http://example.org/A"), text("@json")]);
    let entries = vec![Entry { key: "@type", term: keyword(Keyword::Type), value: &datatypes }];
    let result = expand_value(None, &context(), entries, &value);
    let expected = Indexed::new(
        Value::TypedLiteral(
            Literal::Json(RawValue::Boolean(true)),
            types(&["http://example.org/A"]),
        ),
        None,
    );
    assert_eq!(result, Ok(Some(expected)));
}

#[test]
fn json_literal_is_a_deep_copy() {
    let nested = RawValue::Object(vec![
        (
            "list".to_string(),
            RawValue::Array(vec![RawValue::Null, text("a"), RawValue::Array(Vec::new())]),
        ),
        ("flag".to_string(), RawValue::Boolean(false)),
        ("n".to_string(), RawValue::Number(Number::from_parts(false, 25, -1))),
        ("list".to_string(), RawValue::Object(Vec::new())),
    ]);
    let result = expand_value(Some(keyword(Keyword::Json)), &context(), Vec::new(), &nested);
    assert_eq!(result, Ok(plain(Literal::Json(nested.clone()))));
    // The copy does not hang on the payload it was made from.
    let expanded = result.expect("a valid object").expect("a value");
    drop(nested);
    match expanded.into_parts() {
        (Value::TypedLiteral(Literal::Json(RawValue::Object(members)), _), None) => {
            assert_eq!(members.len(), 4);
            assert_eq!(members[0].0, "list");
            assert_eq!(members[3], ("list".to_string(), RawValue::Object(Vec::new())));
        }
        other => panic!("unexpected value {:?}", other),
    }
}

#[test]
fn json_null_is_a_value() {
    // Known beforehand to be typed `@json`, null is a literal like any other.
    let value = RawValue::Null;
    let result = expand_value(Some(keyword(Keyword::Json)), &context(), Vec::new(), &value);
    assert_eq!(result, Ok(plain(Literal::Json(RawValue::Null))));
    // And so it is where the type stands among the entries.
    let datatype = text("@json");
    let entries = vec![Entry { key: "@type", term: keyword(Keyword::Type), value: &datatype }];
    let result = expand_value(None, &context(), entries, &value);
    assert_eq!(result, Ok(plain(Literal::Json(RawValue::Null))));
}

#[test]
fn null_is_dropped_whatever_else_is_there() {
    let value = RawValue::Null;
    let index = text("i");
    let language = text("en");
    let direction = text("ltr");
    let datatype = text("http://example.org/A");
    let entries = vec![
        Entry { key: "@index", term: keyword(Keyword::Index), value: &index },
        Entry { key: "@language", term: keyword(Keyword::Language), value: &language },
        Entry { key: "@direction", term: keyword(Keyword::Direction), value: &direction },
        Entry { key: "@type", term: keyword(Keyword::Type), value: &datatype },
    ];
    let result = expand_value(None, &context(), entries, &value);
    assert_eq!(result, Ok(None));
}

#[test]
fn expanding_twice_gives_equal_results() {
    let value = RawValue::Object(vec![("a".to_string(), RawValue::Array(vec![text("b")]))]);
    let index = text("i");
    let datatypes = RawValue::Array(vec![text("B"), text("http://example.org/A")]);
    let entries = || {
        vec![
            Entry { key: "@index", term: keyword(Keyword::Index), value: &index },
            Entry { key: "@type", term: keyword(Keyword::Type), value: &datatypes },
        ]
    };
    let context = context();
    let first = expand_value(Some(keyword(Keyword::Json)), &context, entries(), &value);
    let second = expand_value(Some(keyword(Keyword::Json)), &context, entries(), &value);
    assert!(first.is_ok());
    assert_eq!(first, second);
    // A refusal repeats as well.
    let bad = RawValue::Boolean(true);
    let refused = || vec![Entry { key: "@index", term: keyword(Keyword::Index), value: &bad }];
    let first = expand_value(None, &context, refused(), &value);
    let second = expand_value(None, &context, refused(), &value);
    assert!(first.is_err());
    assert_eq!(first, second);
}

#[test]
fn entries_with_different_keys_may_come_in_any_order() {
    let value = text("x");
    let index = text("i");
    let language = text("en");
    let direction = text("rtl");
    let ignored = RawValue::Null;
    let context = context();
    let entry = |which: usize| match which {
        0 => Entry { key: "@index", term: keyword(Keyword::Index), value: &index },
        1 => Entry { key: "@language", term: keyword(Keyword::Language), value: &language },
        2 => Entry { key: "@direction", term: keyword(Keyword::Direction), value: &direction },
        _ => Entry { key: "@value", term: keyword(Keyword::Value), value: &ignored },
    };
    let expected = Indexed::new(
        Value::LangString(LangString::new(
            "x".to_string(),
            Some("en".to_string()),
            Some(Direction::RightToLeft),
        )),
        Some("i".to_string()),
    );
    let orders: [[usize; 4]; 6] = [
        [0, 1, 2, 3],
        [1, 0, 2, 3],
        [1, 2, 0, 3],
        [3, 2, 1, 0],
        [2, 3, 0, 1],
        [0, 3, 2, 1],
    ];
    for order in orders {
        let entries = order.iter().map(|which| entry(*which)).collect();
        let result = expand_value(None, &context, entries, &value);
        assert_eq!(result, Ok(Some(expected.clone())));
    }
}

#[test]
fn type_entries_may_come_in_any_order() {
    let value = RawValue::Boolean(false);
    let first = RawValue::Array(vec![text("http://example.org/A"), text("@json")]);
    let second = text("B");
    let context = context();
    let forwards = vec![
        Entry { key: "@type", term: keyword(Keyword::Type), value: &first },
        Entry { key: "@type", term: keyword(Keyword::Type), value: &second },
    ];
    let backwards = vec![
        Entry { key: "@type", term: keyword(Keyword::Type), value: &second },
        Entry { key: "@type", term: keyword(Keyword::Type), value: &first },
    ];
    let one = expand_value(None, &context, forwards, &value);
    let other = expand_value(None, &context, backwards, &value);
    assert_eq!(one, other);
    assert_eq!(
        one,
        Ok(Some(Indexed::new(
            Value::TypedLiteral(
                Literal::Json(RawValue::Boolean(false)),
                types(&["http://example.org/A", "http://example.org/B"])
            ),
            None
        )))
    );
}
