use inevents::filter::{Filter, FilterError, Operator};
use inevents::json::{JsonNumber, JsonValue};

fn num(n: u64) -> JsonValue {
    JsonValue::Number(JsonNumber::pos_int(n, (n as f64).to_bits()))
}

fn text(s: &str) -> JsonValue {
    JsonValue::String(s.to_string())
}

fn obj(members: Vec<(&str, JsonValue)>) -> JsonValue {
    JsonValue::Object(members.into_iter().map(|(k, v)| (k.to_string(), v)).collect())
}

fn arr(items: Vec<JsonValue>) -> JsonValue {
    JsonValue::Array(items)
}

fn bound(x: f64) -> u64 {
    x.to_bits()
}

#[test]
fn test_numeric_operators() {
    let value = obj(vec![("age", num(25))]);

    let filter = Filter::new("age", Operator::GreaterThan(bound(20.0)));
    assert!(filter.check(&value).unwrap());

    let filter = Filter::new("age", Operator::LessThan(bound(30.0)));
    assert!(filter.check(&value).unwrap());

    let filter = Filter::new("age", Operator::GreaterOrEqual(bound(25.0)));
    assert!(filter.check(&value).unwrap());

    let filter = Filter::new("age", Operator::LessOrEqual(bound(25.0)));
    assert!(filter.check(&value).unwrap());
}

#[test]
fn test_string_operators() {
    let value = obj(vec![("name", text("John Doe"))]);

    let filter = Filter::new("name", Operator::StartsWith("John".to_string()));
    assert!(filter.check(&value).unwrap());

    let filter = Filter::new("name", Operator::EndsWith("Doe".to_string()));
    assert!(filter.check(&value).unwrap());

    let filter = Filter::new("name", Operator::Contains("hn D".to_string()));
    assert!(filter.check(&value).unwrap());
}

#[test]
fn test_array_operators() {
    let value = obj(vec![("tags", arr(vec![text("rust"), text("coding"), text("json")]))]);

    let filter = Filter::new("tags", Operator::ArrayContains(text("rust")));
    assert!(filter.check(&value).unwrap());

    let filter = Filter::new("tags[1]", Operator::Equals(text("coding")));
    assert!(filter.check(&value).unwrap());
}

#[test]
fn test_object_operators() {
    let value = obj(vec![(
        "user",
        obj(vec![
            ("id", num(123)),
            ("details", obj(vec![("email", text("john@example.com"))])),
        ]),
    )]);

    let filter = Filter::new("user", Operator::HasKey("id".to_string()));
    assert!(filter.check(&value).unwrap());

    let filter = Filter::new(
        "user.details.email",
        Operator::EndsWith("@example.com".to_string()),
    );
    assert!(filter.check(&value).unwrap());
}

#[test]
fn test_logical_operators() {
    let value = obj(vec![("age", num(25)), ("name", text("John Doe"))]);

    let filter = Filter::new(
        ".",
        Operator::And(vec![
            Filter::new("age", Operator::GreaterThan(bound(20.0))),
            Filter::new("name", Operator::StartsWith("John".to_string())),
        ]),
    );
    assert!(filter.check(&value).unwrap());

    let filter = Filter::new(
        ".",
        Operator::Or(vec![
            Filter::new("age", Operator::GreaterThan(bound(30.0))),
            Filter::new("name", Operator::Contains("John".to_string())),
        ]),
    );
    assert!(filter.check(&value).unwrap());
}

#[test]
fn test_type_mismatch() {
    let value = obj(vec![("age", text("25"))]);

    let filter = Filter::new("age", Operator::GreaterThan(bound(20.0)));
    assert!(matches!(
        filter.check(&value),
        Err(FilterError::TypeMismatch { .. })
    ));
}

#[test]
fn test_path_not_found() {
    let value = obj(vec![("name", text("John"))]);

    let filter = Filter::new("age", Operator::GreaterThan(bound(20.0)));
    assert!(matches!(
        filter.check(&value),
        Err(FilterError::PathNotFound(..))
    ));
}

// Further cases of the filter.

#[test]
fn empty_and_matches_any_value() {
    let filter = Filter::new(".", Operator::And(vec![]));
    assert!(filter.check(&num(1)).unwrap());
    assert!(filter.check(&text("x")).unwrap());
    assert!(filter.check(&JsonValue::Null).unwrap());
}

#[test]
fn empty_or_matches_nothing() {
    let filter = Filter::new(".", Operator::Or(vec![]));
    assert!(!filter.check(&obj(vec![("a", num(1))])).unwrap());
}

#[test]
fn not_equal_is_opposite_of_equals() {
    let value = obj(vec![("a", num(7))]);
    let eq = Filter::new("a", Operator::Equals(num(7)));
    let ne = Filter::new("a", Operator::NotEqual(num(7)));
    assert!(eq.check(&value).unwrap());
    assert!(!ne.check(&value).unwrap());
    let ne8 = Filter::new("a", Operator::NotEqual(num(8)));
    assert!(ne8.check(&value).unwrap());
}

#[test]
fn greater_than_and_less_or_equal_are_opposite() {
    let value = obj(vec![("n", num(5))]);
    for b in [4.0, 5.0, 6.0, 4.5, -1.0] {
        let gt = Filter::new("n", Operator::GreaterThan(bound(b))).check(&value).unwrap();
        let le = Filter::new("n", Operator::LessOrEqual(bound(b))).check(&value).unwrap();
        assert_eq!(gt, !le);
    }
}

#[test]
fn numeric_bounds_compare_as_doubles() {
    let neg = JsonValue::Number(JsonNumber::neg_int(-3, (-3.0f64).to_bits()));
    let frac = JsonValue::Number(JsonNumber::float(2.5f64.to_bits()));
    assert!(Filter::new(".", Operator::LessThan(bound(-2.0))).check(&neg).unwrap());
    assert!(!Filter::new(".", Operator::GreaterThan(bound(-2.0))).check(&neg).unwrap());
    assert!(Filter::new(".", Operator::GreaterThan(bound(2.4))).check(&frac).unwrap());
    assert!(Filter::new(".", Operator::LessOrEqual(bound(2.5))).check(&frac).unwrap());
    let zero = JsonValue::Number(JsonNumber::float(0.0f64.to_bits()));
    assert!(Filter::new(".", Operator::GreaterOrEqual(bound(-0.0))).check(&zero).unwrap());
    assert!(!Filter::new(".", Operator::GreaterThan(bound(f64::NAN))).check(&zero).unwrap());
    assert!(!Filter::new(".", Operator::LessOrEqual(bound(f64::NAN))).check(&zero).unwrap());
}

#[test]
fn array_index_out_of_range() {
    let value = obj(vec![("tags", arr(vec![text("a")]))]);
    let filter = Filter::new("tags[3]", Operator::Equals(text("a")));
    match filter.check(&value) {
        Err(FilterError::InvalidArrayIndex(i)) => assert_eq!(i, "3"),
        other => panic!("unexpected {:?}", other),
    }
}

#[test]
fn array_index_not_a_number() {
    let value = obj(vec![("tags", arr(vec![text("a")]))]);
    let filter = Filter::new("tags[x1]", Operator::Equals(text("a")));
    match filter.check(&value) {
        Err(FilterError::InvalidArrayIndex(i)) => assert_eq!(i, "x1"),
        other => panic!("unexpected {:?}", other),
    }
    let filter = Filter::new("tags[+0]", Operator::Equals(text("a")));
    assert!(filter.check(&value).unwrap());
}

#[test]
fn index_on_non_array_is_type_mismatch() {
    let value = obj(vec![("tags", text("a"))]);
    let filter = Filter::new("tags[0]", Operator::Equals(text("a")));
    match filter.check(&value) {
        Err(FilterError::TypeMismatch { expected, got }) => {
            assert_eq!(expected, "array");
            assert!(matches!(got, JsonValue::String(ref s) if s == "a"));
        }
        other => panic!("unexpected {:?}", other),
    }
}

#[test]
fn leading_index_segment_applies_to_the_value() {
    let value = arr(vec![num(1), num(2)]);
    let filter = Filter::new("[1]", Operator::Equals(num(2)));
    assert!(filter.check(&value).unwrap());
}

#[test]
fn and_reports_error_after_a_false() {
    let value = obj(vec![("a", num(1))]);
    let filter = Filter::new(
        ".",
        Operator::And(vec![
            Filter::new("a", Operator::Equals(num(2))),
            Filter::new("missing", Operator::Equals(num(2))),
        ]),
    );
    match filter.check(&value) {
        Err(FilterError::PathNotFound(p)) => assert_eq!(p, "missing"),
        other => panic!("unexpected {:?}", other),
    }
}

#[test]
fn object_equality_ignores_member_order() {
    let a = obj(vec![("x", num(1)), ("y", text("z"))]);
    let b = obj(vec![("y", text("z")), ("x", num(1))]);
    assert!(a.equals(&b));
    let c = obj(vec![("y", text("z")), ("x", num(2))]);
    assert!(!a.equals(&c));
    let i = JsonValue::Number(JsonNumber::pos_int(1, 1f64.to_bits()));
    let f = JsonValue::Number(JsonNumber::float(1f64.to_bits()));
    assert!(!i.equals(&f));
}

#[test]
fn string_operators_on_non_string_fail() {
    let value = obj(vec![("n", num(1))]);
    let filter = Filter::new("n", Operator::StartsWith("1".to_string()));
    match filter.check(&value) {
        Err(FilterError::TypeMismatch { expected, .. }) => assert_eq!(expected, "string"),
        other => panic!("unexpected {:?}", other),
    }
    let filter = Filter::new(".", Operator::HasKey("n".to_string()));
    assert!(filter.check(&value).unwrap());
    let filter = Filter::new("n", Operator::HasKey("n".to_string()));
    match filter.check(&value) {
        Err(FilterError::TypeMismatch { expected, .. }) => assert_eq!(expected, "object"),
        other => panic!("unexpected {:?}", other),
    }
}

#[test]
fn contains_empty_text_always_holds() {
    let value = text("");
    assert!(Filter::new(".", Operator::Contains(String::new())).check(&value).unwrap());
    assert!(!Filter::new(".", Operator::Contains("a".to_string())).check(&value).unwrap());
}

#[test]
fn equals_matches_the_value_itself() {
    let v = obj(vec![("tags", arr(vec![text("rust"), num(3)])), ("n", num(1))]);
    let copy = obj(vec![("tags", arr(vec![text("rust"), num(3)])), ("n", num(1))]);
    assert!(Filter::new(".", Operator::Equals(copy)).check(&v).unwrap());
    let items = arr(vec![text("rust"), obj(vec![("k", num(2))])]);
    assert!(Filter::new(".", Operator::ArrayContains(obj(vec![("k", num(2))]))).check(&items).unwrap());
    assert!(!Filter::new(".", Operator::ArrayContains(obj(vec![("k", num(3))]))).check(&items).unwrap());
}

#[test]
fn array_segments() {
    let f = Filter::new(".", Operator::And(vec![]));
    match f.parse_array_segment("items[12]") {
        Ok((field, index)) => {
            assert_eq!(field, "items");
            assert_eq!(index, 12);
        }
        Err(e) => panic!("unexpected {e:?}"),
    }
    match f.parse_array_segment("[0]") {
        Ok((field, index)) => {
            assert_eq!(field, "");
            assert_eq!(index, 0);
        }
        Err(e) => panic!("unexpected {e:?}"),
    }
    assert!(matches!(f.parse_array_segment("items"), Err(FilterError::InvalidPath(p)) if p == "items"));
    assert!(matches!(f.parse_array_segment("items[-1]"), Err(FilterError::InvalidArrayIndex(i)) if i == "-1"));
    // A leading `[` indexes the value itself.
    let value = arr(vec![text("a"), text("b")]);
    assert!(Filter::new("[1]", Operator::Equals(text("b"))).check(&value).unwrap());
}
